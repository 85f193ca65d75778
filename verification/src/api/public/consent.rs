//! Implicit consent in the browser flow: the user consented when the account
//! was made, so the consent is accepted at once, and a failing authorization
//! server never leaves the browser at a dead end.

use vstd::prelude::*;
use vstd::string::*;

use crate::errors::ErrorKind;
use crate::authorization::{ConsentGrant, ConsentRequest, Outcome};
use crate::config::Settings;
use crate::identifiers::{parse_uuid, parsed_uuid};
use crate::models::{Lookup, User};
use crate::urls::{
    find_value, first_value, pairs_view, query_pairs, redirect_uri_of, url_query_pairs,
};
use crate::validations::{check_presence, presence_report, Field, FieldViolation};

verus! {

#[derive(Clone, Copy, Debug, PartialEq, Eq, Structural)]
pub enum ConsentError {
    WrongSubject,
    UserNotFound,
    ConsentRequestFailed,
    WrongRequestUrl,
    NoSubject,
    WrongRedirectUri,
}

impl ConsentError {
    /// The kind of the failure.
    pub open spec fn kind_of(&self) -> ErrorKind {
        match self {
            ConsentError::WrongSubject => ErrorKind::Validation,
            ConsentError::UserNotFound => ErrorKind::NotFound,
            ConsentError::ConsentRequestFailed => ErrorKind::UpstreamFailure,
            ConsentError::WrongRequestUrl => ErrorKind::Validation,
            ConsentError::NoSubject => ErrorKind::NotFound,
            ConsentError::WrongRedirectUri => ErrorKind::Validation,
        }
    }

    pub fn kind(&self) -> (r: ErrorKind)
        ensures
            r == self.kind_of(),
    {
        match self {
            ConsentError::WrongSubject => ErrorKind::Validation,
            ConsentError::UserNotFound => ErrorKind::NotFound,
            ConsentError::ConsentRequestFailed => ErrorKind::UpstreamFailure,
            ConsentError::WrongRequestUrl => ErrorKind::Validation,
            ConsentError::NoSubject => ErrorKind::NotFound,
            ConsentError::WrongRedirectUri => ErrorKind::Validation,
        }
    }

    pub open spec fn text(&self) -> Seq<char> {
        match self {
            ConsentError::WrongSubject => "consent subject is not a valid uuid"@,
            ConsentError::UserNotFound => "user not found"@,
            ConsentError::ConsentRequestFailed => "consent request failed"@,
            ConsentError::WrongRequestUrl => "consent request returned a wrong request_url"@,
            ConsentError::NoSubject => "consent request returned no subject"@,
            ConsentError::WrongRedirectUri => "consent request returned a wrong redirect_uri"@,
        }
    }

    pub fn message(&self) -> (r: String)
        ensures
            r@ == self.text(),
    {
        match self {
            ConsentError::WrongSubject => String::from_str("consent subject is not a valid uuid"),
            ConsentError::UserNotFound => String::from_str("user not found"),
            ConsentError::ConsentRequestFailed => String::from_str("consent request failed"),
            ConsentError::WrongRequestUrl => String::from_str(
                "consent request returned a wrong request_url",
            ),
            ConsentError::NoSubject => String::from_str("consent request returned no subject"),
            ConsentError::WrongRedirectUri => String::from_str(
                "consent request returned a wrong redirect_uri",
            ),
        }
    }
}

#[derive(Clone, Debug)]
pub struct FastConsentPayload {
    pub consent_challenge: String,
}

impl FastConsentPayload {
    pub open spec fn violations(&self) -> Seq<FieldViolation> {
        presence_report(Field::ConsentChallenge, self.consent_challenge@)
    }

    pub fn validate(&self) -> (r: Vec<FieldViolation>)
        ensures
            r@ == self.violations(),
    {
        let mut report = Vec::new();
        check_presence(&mut report, Field::ConsentChallenge, self.consent_challenge.as_str());
        assert(report@ =~= self.violations());
        report
    }
}

/// Where an implicit consent stands. From the moment the consent request has
/// been read, the state keeps the redirect URI of the authorization request
/// that began the flow, to fall back to.
#[derive(Clone, Debug)]
pub enum FastConsent {
    Start,
    /// The authorization server has been asked for the consent request.
    Fetching,
    /// The store has been asked for the account of the subject.
    FindingUser { fallback: String },
    /// The authorization server has been asked to accept the consent.
    Accepting { fallback: String },
    Done,
}

impl FastConsent {
    /// How far the flow has come.
    pub open spec fn stage(&self) -> nat {
        match self {
            FastConsent::Start => 0,
            FastConsent::Fetching => 1,
            FastConsent::FindingUser { .. } => 2,
            FastConsent::Accepting { .. } => 3,
            FastConsent::Done => 4,
        }
    }
}

#[derive(Clone, Debug)]
pub enum FastConsentEvent {
    Requested,
    /// The consent request, if the authorization server knows it.
    ConsentRequestFetched(Option<ConsentRequest>),
    UserLookedUp(Lookup<User>),
    /// The continuation URL, if the authorization server accepted.
    ConsentAccepted(Option<String>),
}

#[derive(Clone, Debug)]
pub enum FastConsentAction {
    Reject(Vec<FieldViolation>),
    GetConsentRequest { challenge: String },
    FindUser { id: u128 },
    AcceptConsent { challenge: String, grant: ConsentGrant },
    Redirect(Outcome),
    Fail(ConsentError),
    Ignored,
}

/// Whether the flow ends with the error `error`.
pub open spec fn fast_consent_fails(
    next: FastConsent,
    action: FastConsentAction,
    error: ConsentError,
) -> bool {
    next is Done && action == FastConsentAction::Fail(error)
}

/// The view of what was read from a request URL: nothing when there was no
/// URL, and inside it nothing when the URL did not parse.
pub open spec fn query_view(query: Option<Option<Vec<(String, String)>>>) -> Option<
    Option<Seq<(Seq<char>, Seq<char>)>>,
> {
    match query {
        None => None,
        Some(None) => Some(None),
        Some(Some(pairs)) => Some(Some(pairs_view(pairs@))),
    }
}

/// What a consent request resolves to, given what was read from it: the account
/// to look up and the redirect URI to fall back to, or the reason why it
/// resolves to neither. The subject is looked at first, then the request URL,
/// then its first `redirect_uri` parameter.
pub open spec fn read_resolution(
    subject: Option<Option<u128>>,
    query: Option<Option<Seq<(Seq<char>, Seq<char>)>>>,
) -> Result<(u128, Seq<char>), ConsentError> {
    match subject {
        None => Err(ConsentError::NoSubject),
        Some(None) => Err(ConsentError::WrongSubject),
        Some(Some(id)) => match query {
            Some(Some(pairs)) => match first_value(pairs, "redirect_uri"@) {
                None => Err(ConsentError::WrongRedirectUri),
                Some(uri) => Ok((id, uri)),
            },
            _ => Err(ConsentError::WrongRequestUrl),
        },
    }
}

/// What a consent request resolves to.
pub open spec fn resolution(request: ConsentRequest) -> Result<(u128, Seq<char>), ConsentError> {
    read_resolution(
        match request.subject {
            Some(subject) => Some(parsed_uuid(subject@)),
            None => None,
        },
        match request.request_url {
            Some(request_url) => Some(url_query_pairs(request_url@)),
            None => None,
        },
    )
}

/// Whether `r` is `resolution` up to the view of the redirect URI.
pub open spec fn resolves_to(
    r: Result<(u128, String), ConsentError>,
    resolution: Result<(u128, Seq<char>), ConsentError>,
) -> bool {
    match r {
        Ok((id, uri)) => resolution == Ok::<(u128, Seq<char>), ConsentError>((id, uri@)),
        Err(error) => resolution == Err::<(u128, Seq<char>), ConsentError>(error),
    }
}

/// Resolves what was read from a consent request: the subject as an account
/// identifier, if there was a subject, and the query pairs of the request URL,
/// if there was a URL.
pub fn resolve_read(
    subject: Option<Option<u128>>,
    query: Option<Option<Vec<(String, String)>>>,
) -> (r: Result<(u128, String), ConsentError>)
    ensures
        resolves_to(r, read_resolution(subject, query_view(query))),
{
    match subject {
        None => Err(ConsentError::NoSubject),
        Some(None) => Err(ConsentError::WrongSubject),
        Some(Some(id)) => match query {
            Some(Some(pairs)) => match find_value(&pairs, "redirect_uri") {
                None => Err(ConsentError::WrongRedirectUri),
                Some(uri) => Ok((id, uri)),
            },
            _ => Err(ConsentError::WrongRequestUrl),
        },
    }
}

/// Resolves a consent request to the account to look up and the redirect URI to
/// fall back to.
pub fn resolve(request: &ConsentRequest) -> (r: Result<(u128, String), ConsentError>)
    ensures
        resolves_to(r, resolution(*request)),
{
    let subject = match &request.subject {
        Some(subject) => Some(parse_uuid(subject.as_str())),
        None => None,
    };
    let query = match &request.request_url {
        Some(request_url) => Some(query_pairs(request_url.as_str())),
        None => None,
    };
    resolve_read(subject, query)
}

/// The steps of an implicit consent: the consent request by its challenge, the
/// account of its subject, then the acceptance with the grant owed to that
/// account. Once acceptance has been asked for, the browser is redirected
/// whatever the authorization server answers.
pub open spec fn fast_consent_step(
    payload: &FastConsentPayload,
    settings: &Settings,
    state: FastConsent,
    event: FastConsentEvent,
    next: FastConsent,
    action: FastConsentAction,
) -> bool {
    match (state, event) {
        (FastConsent::Start, FastConsentEvent::Requested) => {
            if payload.violations().len() > 0 {
                &&& next is Done
                &&& action matches FastConsentAction::Reject(report)
                &&& report@ == payload.violations()
            } else {
                &&& next is Fetching
                &&& action matches FastConsentAction::GetConsentRequest { challenge }
                &&& challenge@ == payload.consent_challenge@
            }
        },
        (FastConsent::Fetching, FastConsentEvent::ConsentRequestFetched(fetched)) => {
            match fetched {
                None => fast_consent_fails(next, action, ConsentError::ConsentRequestFailed),
                Some(request) => match resolution(request) {
                    Err(error) => fast_consent_fails(next, action, error),
                    Ok((id, uri)) => {
                        &&& next matches FastConsent::FindingUser { fallback }
                        &&& fallback@ == uri
                        &&& action == (FastConsentAction::FindUser { id })
                    },
                },
            }
        },
        (FastConsent::FindingUser { fallback }, FastConsentEvent::UserLookedUp(user)) => {
            match user {
                Lookup::Found(found) => {
                    &&& next matches FastConsent::Accepting { fallback: kept }
                    &&& kept@ == fallback@
                    &&& action matches FastConsentAction::AcceptConsent { challenge, grant }
                    &&& challenge@ == payload.consent_challenge@
                    &&& grant.is_for(found.email@, settings)
                },
                _ => fast_consent_fails(next, action, ConsentError::UserNotFound),
            }
        },
        (FastConsent::Accepting { fallback }, FastConsentEvent::ConsentAccepted(accepted)) => {
            &&& next is Done
            &&& action matches FastConsentAction::Redirect(outcome)
            &&& outcome.settled(accepted, fallback@)
        },
        _ => next == state && action is Ignored,
    }
}

/// Takes a consent challenge and assumes that the user consented to the terms
/// already: one step of the flow.
pub fn public_consent(
    payload: &FastConsentPayload,
    settings: &Settings,
    state: FastConsent,
    event: FastConsentEvent,
) -> (r: (FastConsent, FastConsentAction))
    ensures
        fast_consent_step(payload, settings, state, event, r.0, r.1),
{
    match (state, event) {
        (FastConsent::Start, FastConsentEvent::Requested) => {
            let report = payload.validate();
            if report.len() > 0 {
                (FastConsent::Done, FastConsentAction::Reject(report))
            } else {
                (
                    FastConsent::Fetching,
                    FastConsentAction::GetConsentRequest {
                        challenge: payload.consent_challenge.clone(),
                    },
                )
            }
        },
        (FastConsent::Fetching, FastConsentEvent::ConsentRequestFetched(fetched)) => {
            match fetched {
                None => (
                    FastConsent::Done,
                    FastConsentAction::Fail(ConsentError::ConsentRequestFailed),
                ),
                Some(request) => match resolve(&request) {
                    Err(error) => (FastConsent::Done, FastConsentAction::Fail(error)),
                    Ok((id, fallback)) => (
                        FastConsent::FindingUser { fallback },
                        FastConsentAction::FindUser { id },
                    ),
                },
            }
        },
        (FastConsent::FindingUser { fallback }, FastConsentEvent::UserLookedUp(user)) => {
            match user {
                Lookup::Found(found) => (
                    FastConsent::Accepting { fallback },
                    FastConsentAction::AcceptConsent {
                        challenge: payload.consent_challenge.clone(),
                        grant: ConsentGrant::new(found.email, settings),
                    },
                ),
                _ => (FastConsent::Done, FastConsentAction::Fail(ConsentError::UserNotFound)),
            }
        },
        (FastConsent::Accepting { fallback }, FastConsentEvent::ConsentAccepted(accepted)) => {
            (FastConsent::Done, FastConsentAction::Redirect(Outcome::settle(accepted, fallback)))
        },
        (state, _) => (state, FastConsentAction::Ignored),
    }
}

/// Every step that is not ignored moves the flow forward: nothing is asked for
/// twice, and the flow is over after at most 4 steps.
pub proof fn fast_consent_advances(
    payload: &FastConsentPayload,
    settings: &Settings,
    state: FastConsent,
    event: FastConsentEvent,
    next: FastConsent,
    action: FastConsentAction,
)
    requires
        fast_consent_step(payload, settings, state, event, next, action),
    ensures
        action is Ignored || next.stage() > state.stage(),
        action is Ignored ==> next == state,
        state is Done ==> action is Ignored,
{
}

/// When the acceptance of a consent fails, the browser is sent to the
/// `redirect_uri` parameter of the URL of the authorization request that began
/// the flow, never to an error.
pub proof fn failed_acceptance_falls_back(
    payload: &FastConsentPayload,
    settings: &Settings,
    request: ConsentRequest,
    user: User,
    s1: FastConsent,
    a1: FastConsentAction,
    s2: FastConsent,
    a2: FastConsentAction,
    s3: FastConsent,
    a3: FastConsentAction,
)
    requires
        fast_consent_step(
            payload,
            settings,
            FastConsent::Fetching,
            FastConsentEvent::ConsentRequestFetched(Some(request)),
            s1,
            a1,
        ),
        a1 is FindUser,
        fast_consent_step(
            payload,
            settings,
            s1,
            FastConsentEvent::UserLookedUp(Lookup::Found(user)),
            s2,
            a2,
        ),
        fast_consent_step(payload, settings, s2, FastConsentEvent::ConsentAccepted(None), s3, a3),
    ensures
        request.request_url is Some,
        a2 is AcceptConsent,
        s3 is Done,
        a3 matches FastConsentAction::Redirect(Outcome::Degraded(to)) && Some(to@)
            == redirect_uri_of(request.request_url->0@),
{
}

/// Whatever the authorization server answers to the acceptance, the flow ends
/// with a redirect.
pub proof fn acceptance_always_redirects(
    payload: &FastConsentPayload,
    settings: &Settings,
    fallback: String,
    accepted: Option<String>,
    next: FastConsent,
    action: FastConsentAction,
)
    requires
        fast_consent_step(
            payload,
            settings,
            FastConsent::Accepting { fallback },
            FastConsentEvent::ConsentAccepted(accepted),
            next,
            action,
        ),
    ensures
        next is Done,
        action is Redirect,
        accepted is None ==> action->Redirect_0.target() == fallback@,
        accepted matches Some(url) ==> action->Redirect_0.target() == url@,
{
}

} // verus!
