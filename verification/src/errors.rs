//! The kinds of failure and the status each is answered with.

use vstd::prelude::*;

verus! {

/// What kind of failure an error is. Each kind has one status.
#[derive(Clone, Copy, Debug, PartialEq, Eq, Structural)]
pub enum ErrorKind {
    /// A challenge, an account or an invitation is absent.
    NotFound,
    /// A payload is malformed or violates a policy.
    Validation,
    /// The request conflicts with what exists: the email is registered, the
    /// invitation is used.
    Conflict,
    /// A call to the authorization server failed.
    UpstreamFailure,
    /// The store or the hashing failed.
    Internal,
}

impl ErrorKind {
    /// The HTTP status of the kind.
    pub open spec fn status_code(&self) -> u16 {
        match self {
            ErrorKind::NotFound => 404,
            ErrorKind::Validation => 400,
            ErrorKind::Conflict => 409,
            ErrorKind::UpstreamFailure => 502,
            ErrorKind::Internal => 500,
        }
    }

    pub fn status(&self) -> (r: u16)
        ensures
            r == self.status_code(),
    {
        match self {
            ErrorKind::NotFound => 404,
            ErrorKind::Validation => 400,
            ErrorKind::Conflict => 409,
            ErrorKind::UpstreamFailure => 502,
            ErrorKind::Internal => 500,
        }
    }
}

} // verus!
