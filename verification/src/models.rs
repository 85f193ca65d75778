//! The records of the credential store, as plain values.

use vstd::prelude::*;

verus! {

/// A point in time without a time zone: seconds since the epoch and the
/// nanoseconds within the second.
#[derive(Clone, Copy, Debug, PartialEq, Eq, Structural)]
pub struct Timestamp {
    pub seconds: i64,
    pub nanos: u32,
}

/// An account. The identifier is the 128-bit value of the account's UUID.
#[derive(Clone, Debug)]
pub struct User {
    pub id: u128,
    pub email: String,
    pub encrypted_password: String,
    pub terms_accepted_at: Option<Timestamp>,
    pub created_at: Timestamp,
    pub updated_at: Timestamp,
}

/// A single-use onboarding ticket that binds an email to a future account.
#[derive(Clone, Debug)]
pub struct Invitation {
    pub id: u128,
    pub email: String,
    pub code: String,
    pub redirect_uri: String,
    pub idp_client_id: String,
    pub used_at: Option<Timestamp>,
    pub created_at: Timestamp,
    pub updated_at: Timestamp,
}

impl Invitation {
    /// An invitation is pending until it has been used.
    pub open spec fn is_pending(&self) -> bool {
        self.used_at is None
    }

    pub fn pending(&self) -> (r: bool)
        ensures
            r == self.is_pending(),
    {
        self.used_at.is_none()
    }
}

/// The local mirror of a client registered with the authorization server.
#[derive(Clone, Copy, Debug, PartialEq, Eq, Structural)]
pub struct Client;

/// What the credential store answered to a query for one record.
#[derive(Clone, Debug)]
pub enum Lookup<T> {
    /// The query itself failed.
    Failed,
    /// No record matches.
    Missing,
    /// The matching record.
    Found(T),
}

} // verus!
