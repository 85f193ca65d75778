//! What is exchanged with the authorization server, as plain values.

use vstd::prelude::*;

use crate::config::{hydra_scopes, scopes, texts, Settings};

verus! {

/// A pending login, as the authorization server describes it.
#[derive(Clone, Debug)]
pub struct LoginRequest {
    /// The URL of the authorization request that led to the login.
    pub request_url: String,
    /// Whether a session exists already, so that no credentials are needed.
    pub skip: bool,
    /// The subject of that session.
    pub subject: String,
}

/// A pending consent, as the authorization server describes it.
#[derive(Clone, Debug)]
pub struct ConsentRequest {
    pub subject: Option<String>,
    pub request_url: Option<String>,
}

/// What is granted when a consent is accepted.
#[derive(Clone, Debug)]
pub struct ConsentGrant {
    pub grant_access_token_audience: Vec<String>,
    pub grant_scope: Vec<String>,
    pub remember: bool,
    /// For how many seconds the decision is remembered; zero ties it to the session.
    pub remember_for: i64,
    /// The `email` claim of the identity token.
    pub id_token_email: String,
}

impl ConsentGrant {
    /// Whether this is the grant owed to the account with `email`: the fixed
    /// scopes, the configured audience, remembered for the session, and an
    /// identity token that carries the email.
    pub open spec fn is_for(&self, email: Seq<char>, settings: &Settings) -> bool {
        &&& texts(self.grant_scope@) == scopes()
        &&& texts(self.grant_access_token_audience@) == seq![settings.access_token_audience@]
        &&& self.remember
        &&& self.remember_for == 0
        &&& self.id_token_email@ == email
    }

    /// The grant owed to the account with `email`.
    pub fn new(email: String, settings: &Settings) -> (r: ConsentGrant)
        ensures
            r.is_for(email@, settings),
    {
        let mut audience: Vec<String> = Vec::new();
        audience.push(settings.access_token_audience.clone());
        assert(texts(audience@) =~= seq![settings.access_token_audience@]);
        ConsentGrant {
            grant_access_token_audience: audience,
            grant_scope: hydra_scopes(),
            remember: true,
            remember_for: 0,
            id_token_email: email,
        }
    }
}

/// Where a browser is sent after an acceptance was attempted.
#[derive(Clone, Debug)]
pub enum Outcome {
    /// The authorization server accepted; this is its continuation URL.
    Accepted(String),
    /// The authorization server failed; this is the redirect URI of the
    /// authorization request that began the flow.
    Degraded(String),
}

impl Outcome {
    pub open spec fn target(&self) -> Seq<char> {
        match self {
            Outcome::Accepted(url) => url@,
            Outcome::Degraded(url) => url@,
        }
    }

    /// The URL to redirect to.
    pub fn location(&self) -> (r: String)
        ensures
            r@ == self.target(),
    {
        match self {
            Outcome::Accepted(url) => url.clone(),
            Outcome::Degraded(url) => url.clone(),
        }
    }

    /// The outcome of an acceptance: the continuation URL if there is one, and
    /// else the fallback.
    pub open spec fn settled(&self, accepted: Option<String>, fallback: Seq<char>) -> bool {
        match accepted {
            Some(url) => *self matches Outcome::Accepted(to) && to@ == url@,
            None => *self matches Outcome::Degraded(to) && to@ == fallback,
        }
    }

    /// Settles an acceptance: never an error, always somewhere to go.
    pub fn settle(accepted: Option<String>, fallback: String) -> (r: Outcome)
        ensures
            r.settled(accepted, fallback@),
    {
        match accepted {
            Some(url) => Outcome::Accepted(url),
            None => Outcome::Degraded(fallback),
        }
    }
}

} // verus!
