//! The subscribe endpoint: from a submitted form to the record to store and the
//! answer to give.

use chrono::Utc;
use uuid::Uuid;
use vstd::prelude::*;

use crate::domain::new_subscriber::{NewSubscriber, NewSubscriberView};
use crate::domain::subscriber_email::{is_valid_email, parse_email, SubscriberEmail};
use crate::domain::subscriber_name::{is_valid_name, parse_name, SubscriberName};
use crate::routes::reply::{bare, Reply, ReplyView, BAD_REQUEST, INTERNAL_SERVER_ERROR, OK};

verus! {

/// The fields of a submitted form, as they came in: nothing is known of them.
pub struct FormData {
    pub email: String,
    pub name: String,
}

/// What converting a form comes to: the email is parsed, then the name; the
/// first rejection is the outcome; where there is none, both fields are kept
/// as they were submitted.
pub open spec fn try_into_new_subscriber(email: Seq<char>, name: Seq<char>) -> Result<
    NewSubscriberView,
    Seq<char>,
> {
    match parse_email(email) {
        Err(message) => Err(message),
        Ok(email) => match parse_name(name) {
            Err(message) => Err(message),
            Ok(name) => Ok(NewSubscriberView { email, name }),
        },
    }
}

/// The outcome of a conversion as plain values.
pub open spec fn conversion_outcome(r: Result<NewSubscriber, String>) -> Result<
    NewSubscriberView,
    Seq<char>,
> {
    match r {
        Ok(subscriber) => Ok(subscriber@),
        Err(message) => Err(message@),
    }
}

impl TryFrom<FormData> for NewSubscriber {
    type Error = String;

    /// Validates the email, then the name. Fails with the message of the
    /// first that is rejected; otherwise keeps both as they were given.
    fn try_from(value: FormData) -> (r: Result<NewSubscriber, String>)
        ensures
            conversion_outcome(r) == try_into_new_subscriber(value.email@, value.name@),
    {
        let email = match SubscriberEmail::parse(value.email) {
            Ok(email) => email,
            Err(message) => {
                return Err(message);
            },
        };
        let name = match SubscriberName::parse(value.name) {
            Ok(name) => name,
            Err(message) => {
                return Err(message);
            },
        };
        Ok(NewSubscriber { email, name })
    }
}

/// The contract of the conversion is the `ensures` of `try_from` above; it
/// speaks of the views of the result, which no spec function on the values
/// themselves can give.
impl vstd::std_specs::convert::TryFromSpecImpl<FormData> for NewSubscriber {
    open spec fn obeys_try_from_spec() -> bool {
        false
    }

    open spec fn try_from_spec(value: FormData) -> Result<NewSubscriber, String> {
        arbitrary()
    }
}

/// What to do with a submission: answer at once, or store a subscriber and
/// answer by how that went.
pub enum Decision {
    Answer(Reply),
    Insert(NewSubscriber),
}

/// A decision as plain values.
pub enum Plan {
    Answer(ReplyView),
    Insert(NewSubscriberView),
}

impl View for Decision {
    type V = Plan;

    open spec fn view(&self) -> Plan {
        match self {
            Decision::Answer(reply) => Plan::Answer(reply@),
            Decision::Insert(subscriber) => Plan::Insert(subscriber@),
        }
    }
}

/// The decision on a form that was decoded: a bad request that carries the
/// message of the first rejected field, or the insertion of both fields as
/// they were submitted.
pub open spec fn form_plan(email: Seq<char>, name: Seq<char>) -> Plan {
    match try_into_new_subscriber(email, name) {
        Err(message) => Plan::Answer(ReplyView { status: BAD_REQUEST, body: message }),
        Ok(subscriber) => Plan::Insert(subscriber),
    }
}

/// The decision on a request body: a bad request where no form could be
/// decoded from it, else the decision on the form.
pub open spec fn submission_plan(submission: Option<FormData>) -> Plan {
    match submission {
        None => Plan::Answer(bare(BAD_REQUEST)),
        Some(form) => form_plan(form.email@, form.name@),
    }
}

/// The answer once the store has been asked to insert: success where it
/// stored the row, a server error where it failed, with an empty body either
/// way.
pub open spec fn conclusion(stored: bool) -> ReplyView {
    if stored {
        bare(OK)
    } else {
        bare(INTERNAL_SERVER_ERROR)
    }
}

/// The answer that ends an exchange: the one decided at once, or, after an
/// insertion, the conclusion from what the store reported.
pub open spec fn final_reply(plan: Plan, stored: bool) -> ReplyView {
    match plan {
        Plan::Answer(reply) => reply,
        Plan::Insert(_) => conclusion(stored),
    }
}

/// Decides what to do with a request body, given the form decoded from it or
/// `None` where none could be.
pub fn decide_subscription(submission: Option<FormData>) -> (decision: Decision)
    ensures
        decision@ == submission_plan(submission),
{
    match submission {
        None => Decision::Answer(Reply::empty(BAD_REQUEST)),
        Some(form) => match NewSubscriber::try_from(form) {
            Ok(subscriber) => Decision::Insert(subscriber),
            Err(message) => Decision::Answer(Reply { status: BAD_REQUEST, body: message }),
        },
    }
}

/// The answer to give once the store has said whether it stored the row.
pub fn conclude_subscription(stored: bool) -> (reply: Reply)
    ensures
        reply@ == conclusion(stored),
{
    if stored {
        Reply::empty(OK)
    } else {
        Reply::empty(INTERNAL_SERVER_ERROR)
    }
}

/// A form with a field that its validator rejects is answered with a bad
/// request, whatever the store would have said, and no insertion is decided
/// for it.
pub proof fn lemma_rejected_field_is_bad_request(email: Seq<char>, name: Seq<char>, stored: bool)
    requires
        parse_email(email) is Err || parse_name(name) is Err,
    ensures
        form_plan(email, name) is Answer,
        final_reply(form_plan(email, name), stored).status == BAD_REQUEST,
{
}

/// An exchange ends in success only where a form was decoded, both of its
/// fields were accepted, the insertion of exactly those fields was decided,
/// and the store reported that it stored them.
pub proof fn lemma_success_means_stored(submission: Option<FormData>, stored: bool)
    requires
        final_reply(submission_plan(submission), stored).status == OK,
    ensures
        stored,
        submission is Some,
        is_valid_email(submission->Some_0.email@),
        is_valid_name(submission->Some_0.name@),
        submission_plan(submission) == Plan::Insert(
            NewSubscriberView {
                email: submission->Some_0.email@,
                name: submission->Some_0.name@,
            },
        ),
{
}

/// The bits of an identifier that say it is a random (version 4) UUID of the
/// standard variant.
pub open spec fn is_uuid_v4(id: u128) -> bool {
    id & 0x0000_0000_0000_f000_c000_0000_0000_0000 == 0x0000_0000_0000_4000_8000_0000_0000_0000
}

/// Whether `id` is a random (version 4) UUID of the standard variant.
pub fn uuid_v4(id: u128) -> (r: bool)
    ensures
        r == is_uuid_v4(id),
{
    id & 0x0000_0000_0000_f000_c000_0000_0000_0000 == 0x0000_0000_0000_4000_8000_0000_0000_0000
}

/// A record of the `subscriptions` relation.
#[derive(Debug)]
pub struct StoredSubscription {
    /// The identifier, as the 128 bits of a UUID.
    pub id: u128,
    pub email: String,
    pub name: String,
    /// The instant of subscription, in microseconds since the Unix epoch, UTC.
    pub subscribed_at: i64,
}

/// A record as plain values.
pub struct StoredSubscriptionView {
    pub id: u128,
    pub email: Seq<char>,
    pub name: Seq<char>,
    pub subscribed_at: i64,
}

impl View for StoredSubscription {
    type V = StoredSubscriptionView;

    open spec fn view(&self) -> StoredSubscriptionView {
        StoredSubscriptionView {
            id: self.id,
            email: self.email@,
            name: self.name@,
            subscribed_at: self.subscribed_at,
        }
    }
}

/// Draws a fresh identifier with `uuid::Uuid::new_v4` and hands out its 128
/// bits. Trusted: whatever was drawn, the version and variant bits are those
/// of a random UUID.
#[verifier::external_body]
fn fresh_id() -> (id: u128)
    ensures
        is_uuid_v4(id),
{
    Uuid::new_v4().as_u128()
}

/// Reads the clock with `chrono::Utc::now` and hands out the instant in
/// microseconds since the Unix epoch. Nothing is claimed of the instant.
#[verifier::external_body]
fn now_micros() -> i64 {
    Utc::now().timestamp_micros()
}

impl StoredSubscription {
    /// The record for `subscriber` under the given identifier and instant:
    /// its email and name are the subscriber's, unchanged, and so a valid
    /// address and a valid name.
    pub fn from_parts(id: u128, subscribed_at: i64, subscriber: &NewSubscriber) -> (record:
        StoredSubscription)
        ensures
            record@ == (StoredSubscriptionView {
                id,
                email: subscriber.email@,
                name: subscriber.name@,
                subscribed_at,
            }),
            is_valid_email(record.email@),
            is_valid_name(record.name@),
    {
        StoredSubscription {
            id,
            email: String::from_str(subscriber.email.as_str()),
            name: String::from_str(subscriber.name.as_str()),
            subscribed_at,
        }
    }

    /// The record to insert for `subscriber`, stamped with a fresh random
    /// UUID and the current instant.
    pub fn stamped(subscriber: &NewSubscriber) -> (record: StoredSubscription)
        ensures
            is_uuid_v4(record.id),
            record.email@ == subscriber.email@,
            record.name@ == subscriber.name@,
            is_valid_email(record.email@),
            is_valid_name(record.name@),
    {
        let id: u128 = fresh_id();
        let subscribed_at: i64 = now_micros();
        StoredSubscription::from_parts(id, subscribed_at, subscriber)
    }
}

} // verus!
