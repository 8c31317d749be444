//! The decision rules of the upstream HTTP client, separated from the
//! transport: how a response status is classified, and what the
//! delete-user endpoint reports back.

use vstd::prelude::*;

verus! {

/// What an upstream decision call's status means.
pub enum UpstreamOutcome {
    /// A success status: the body carries the decision response.
    Decisions,
    /// A client-error status: served as no decisions for any slot, not as
    /// a failure.
    NoDecisions,
    /// Anything else: an upstream failure surfaced to the caller.
    Failure,
}

/// Classifies the status of an upstream decision call: a success status
/// carries decisions, a client-error status means no decisions for any
/// slot, anything else is a failure.
pub fn classify_upstream_status(status: u16) -> (r: UpstreamOutcome)
    ensures
        200 <= status < 300 ==> r is Decisions,
        400 <= status < 500 ==> r is NoDecisions,
        (status < 200 || 300 <= status < 400 || status >= 500) ==> r is Failure,
{
    if 200 <= status && status < 300 {
        UpstreamOutcome::Decisions
    } else if 400 <= status && status < 500 {
        UpstreamOutcome::NoDecisions
    } else {
        UpstreamOutcome::Failure
    }
}

/// The inbound body of a delete-user call.
pub struct User {
    pub pocket_id: String,
}

/// The outbound body of a delete-user call: a flag derived from the
/// upstream status.
pub struct DeleteUserResponse {
    pub status: u32,
}

impl DeleteUserResponse {
    /// Reports success exactly when the upstream answered 200.
    pub fn from_status(status: u16) -> (r: Self)
        ensures
            r.status == (if status == 200 {
                1u32
            } else {
                0u32
            }),
    {
        DeleteUserResponse { status: if status == 200 { 1 } else { 0 } }
    }
}

} // verus!
