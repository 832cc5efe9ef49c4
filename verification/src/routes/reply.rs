//! The answers the service gives.

use vstd::prelude::*;

verus! {

/// The status of a request that was carried out.
pub const OK: u16 = 200;

/// The status of a request that the client got wrong.
pub const BAD_REQUEST: u16 = 400;

/// The status of a request that failed on the service's side.
pub const INTERNAL_SERVER_ERROR: u16 = 500;

/// An answer to a request: a status code and a body.
#[derive(Debug)]
pub struct Reply {
    pub status: u16,
    pub body: String,
}

/// An answer as plain values.
pub struct ReplyView {
    pub status: u16,
    pub body: Seq<char>,
}

impl View for Reply {
    type V = ReplyView;

    open spec fn view(&self) -> ReplyView {
        ReplyView { status: self.status, body: self.body@ }
    }
}

/// The answer with the given status and nothing in its body.
pub open spec fn bare(status: u16) -> ReplyView {
    ReplyView { status, body: Seq::empty() }
}

impl Reply {
    /// An answer with the given status and an empty body.
    pub fn empty(status: u16) -> (reply: Reply)
        ensures
            reply@ == bare(status),
    {
        Reply { status, body: String::new() }
    }
}

} // verus!
