use vstd::prelude::*;

verus! {

/// The HTTP status that answers one inbound webhook request.
#[derive(Clone, Copy, Debug, PartialEq, Eq, Structural)]
pub enum Status {
    /// `200 OK`: the update was queued, or a malformed body was dropped.
    Accepted,
    /// `401 Unauthorized`: the secret token did not match or was malformed.
    Unauthorized,
    /// `503 Service Unavailable`: the producer handle is closed or the
    /// listener was stopped.
    ServiceUnavailable,
}

pub open spec fn status_code(s: Status) -> u16 {
    match s {
        Status::Accepted => 200,
        Status::Unauthorized => 401,
        Status::ServiceUnavailable => 503,
    }
}

impl Status {
    /// The numeric HTTP status code.
    pub fn code(&self) -> (r: u16)
        ensures
            r == status_code(*self),
    {
        match self {
            Status::Accepted => 200,
            Status::Unauthorized => 401,
            Status::ServiceUnavailable => 503,
        }
    }
}

} // verus!
