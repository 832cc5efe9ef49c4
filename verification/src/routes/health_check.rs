//! The liveness probe.

use vstd::prelude::*;

use crate::routes::reply::{bare, Reply, OK};

verus! {

/// Answers the liveness probe. It takes nothing, so nothing the service
/// holds or depends on can change the answer: it is always a success with an
/// empty body.
pub fn health_check() -> (reply: Reply)
    ensures
        reply@ == bare(OK),
{
    Reply::empty(OK)
}

} // verus!
