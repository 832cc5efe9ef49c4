//! A subscriber whose fields have both been validated.

use vstd::prelude::*;

use crate::domain::subscriber_email::SubscriberEmail;
use crate::domain::subscriber_name::SubscriberName;

verus! {

/// A subscriber ready to be stored. Its fields can only come out of their
/// validators, so no value of this type holds unchecked input.
pub struct NewSubscriber {
    pub email: SubscriberEmail,
    pub name: SubscriberName,
}

/// A subscriber as plain values.
pub struct NewSubscriberView {
    pub email: Seq<char>,
    pub name: Seq<char>,
}

impl View for NewSubscriber {
    type V = NewSubscriberView;

    open spec fn view(&self) -> NewSubscriberView {
        NewSubscriberView { email: self.email@, name: self.name@ }
    }
}

} // verus!
