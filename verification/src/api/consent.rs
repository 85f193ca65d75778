//! Explicit consent: the programmatic caller gets the continuation URL back.

use vstd::prelude::*;
use vstd::string::*;

use crate::errors::ErrorKind;
use crate::authorization::{ConsentGrant, ConsentRequest};
use crate::config::Settings;
use crate::identifiers::{parse_uuid, parsed_uuid};
use crate::models::{Lookup, User};
use crate::validations::{check_presence, presence_report, Field, FieldViolation};

verus! {

#[derive(Clone, Copy, Debug, PartialEq, Eq, Structural)]
pub enum ConsentError {
    ConsentNotFound,
    SubjectNotFound,
    WrongSubject,
    UserNotFound,
    UserError,
    CouldntAcceptConsent,
}

impl ConsentError {
    /// The kind of the failure.
    pub open spec fn kind_of(&self) -> ErrorKind {
        match self {
            ConsentError::ConsentNotFound => ErrorKind::NotFound,
            ConsentError::SubjectNotFound => ErrorKind::NotFound,
            ConsentError::WrongSubject => ErrorKind::Validation,
            ConsentError::UserNotFound => ErrorKind::NotFound,
            ConsentError::UserError => ErrorKind::Internal,
            ConsentError::CouldntAcceptConsent => ErrorKind::UpstreamFailure,
        }
    }

    pub fn kind(&self) -> (r: ErrorKind)
        ensures
            r == self.kind_of(),
    {
        match self {
            ConsentError::ConsentNotFound => ErrorKind::NotFound,
            ConsentError::SubjectNotFound => ErrorKind::NotFound,
            ConsentError::WrongSubject => ErrorKind::Validation,
            ConsentError::UserNotFound => ErrorKind::NotFound,
            ConsentError::UserError => ErrorKind::Internal,
            ConsentError::CouldntAcceptConsent => ErrorKind::UpstreamFailure,
        }
    }

    pub open spec fn text(&self) -> Seq<char> {
        match self {
            ConsentError::ConsentNotFound => "consent couldn't be found"@,
            ConsentError::SubjectNotFound => "consent subject couldn't be found"@,
            ConsentError::WrongSubject => "consent subject is not a valid uuid"@,
            ConsentError::UserNotFound => "user not found"@,
            ConsentError::UserError => "user request error"@,
            ConsentError::CouldntAcceptConsent => "couldn't accept consent"@,
        }
    }

    pub fn message(&self) -> (r: String)
        ensures
            r@ == self.text(),
    {
        match self {
            ConsentError::ConsentNotFound => String::from_str("consent couldn't be found"),
            ConsentError::SubjectNotFound => String::from_str("consent subject couldn't be found"),
            ConsentError::WrongSubject => String::from_str("consent subject is not a valid uuid"),
            ConsentError::UserNotFound => String::from_str("user not found"),
            ConsentError::UserError => String::from_str("user request error"),
            ConsentError::CouldntAcceptConsent => String::from_str("couldn't accept consent"),
        }
    }
}

#[derive(Clone, Debug)]
pub struct ConsentPayload {
    pub code: String,
}

impl ConsentPayload {
    pub open spec fn violations(&self) -> Seq<FieldViolation> {
        presence_report(Field::Code, self.code@)
    }

    pub fn validate(&self) -> (r: Vec<FieldViolation>)
        ensures
            r@ == self.violations(),
    {
        let mut report = Vec::new();
        check_presence(&mut report, Field::Code, self.code.as_str());
        assert(report@ =~= self.violations());
        report
    }
}

/// Where an explicit consent stands.
#[derive(Clone, Copy, Debug, PartialEq, Eq, Structural)]
pub enum Consent {
    Start,
    /// The authorization server has been asked for the consent request.
    Fetching,
    /// The store has been asked for the account of the subject.
    FindingUser,
    /// The authorization server has been asked to accept the consent.
    Accepting,
    Done,
}

impl Consent {
    /// How far the flow has come.
    pub open spec fn stage(&self) -> nat {
        match self {
            Consent::Start => 0,
            Consent::Fetching => 1,
            Consent::FindingUser => 2,
            Consent::Accepting => 3,
            Consent::Done => 4,
        }
    }
}

#[derive(Clone, Debug)]
pub enum ConsentEvent {
    Submitted,
    /// The consent request, if the authorization server knows it.
    ConsentRequestFetched(Option<ConsentRequest>),
    UserLookedUp(Lookup<User>),
    /// The continuation URL, if the authorization server accepted.
    ConsentAccepted(Option<String>),
}

#[derive(Clone, Debug)]
pub enum ConsentAction {
    Reject(Vec<FieldViolation>),
    GetConsentRequest { challenge: String },
    FindUser { id: u128 },
    AcceptConsent { challenge: String, grant: ConsentGrant },
    Respond { redirect_to: String },
    Fail(ConsentError),
    Ignored,
}

/// Whether the flow ends with the error `error`.
pub open spec fn consent_fails(next: Consent, action: ConsentAction, error: ConsentError) -> bool {
    next is Done && action == ConsentAction::Fail(error)
}

/// What follows the reading of the subject as an account identifier: the
/// lookup of that account, or `WrongSubject` when it is none.
pub open spec fn subject_step(parsed: Option<u128>, next: Consent, action: ConsentAction) -> bool {
    match parsed {
        None => consent_fails(next, action, ConsentError::WrongSubject),
        Some(id) => next is FindingUser && action == (ConsentAction::FindUser { id }),
    }
}

/// The step that follows the reading of the subject.
pub fn subject_parsed(parsed: Option<u128>) -> (r: (Consent, ConsentAction))
    ensures
        subject_step(parsed, r.0, r.1),
{
    match parsed {
        None => (Consent::Done, ConsentAction::Fail(ConsentError::WrongSubject)),
        Some(id) => (Consent::FindingUser, ConsentAction::FindUser { id }),
    }
}

/// The steps of an explicit consent: the consent request by its code, the
/// account of its subject, then the acceptance with the grant owed to that
/// account. Every failure is surfaced.
pub open spec fn consent_step(
    payload: &ConsentPayload,
    settings: &Settings,
    state: Consent,
    event: ConsentEvent,
    next: Consent,
    action: ConsentAction,
) -> bool {
    match (state, event) {
        (Consent::Start, ConsentEvent::Submitted) => {
            if payload.violations().len() > 0 {
                &&& next is Done
                &&& action matches ConsentAction::Reject(report)
                &&& report@ == payload.violations()
            } else {
                &&& next is Fetching
                &&& action matches ConsentAction::GetConsentRequest { challenge }
                &&& challenge@ == payload.code@
            }
        },
        (Consent::Fetching, ConsentEvent::ConsentRequestFetched(fetched)) => {
            match fetched {
                None => consent_fails(next, action, ConsentError::ConsentNotFound),
                Some(request) => match request.subject {
                    None => consent_fails(next, action, ConsentError::SubjectNotFound),
                    Some(subject) => subject_step(parsed_uuid(subject@), next, action),
                },
            }
        },
        (Consent::FindingUser, ConsentEvent::UserLookedUp(user)) => {
            match user {
                Lookup::Failed => consent_fails(next, action, ConsentError::UserError),
                Lookup::Missing => consent_fails(next, action, ConsentError::UserNotFound),
                Lookup::Found(found) => {
                    &&& next is Accepting
                    &&& action matches ConsentAction::AcceptConsent { challenge, grant }
                    &&& challenge@ == payload.code@
                    &&& grant.is_for(found.email@, settings)
                },
            }
        },
        (Consent::Accepting, ConsentEvent::ConsentAccepted(accepted)) => {
            match accepted {
                Some(url) => {
                    &&& next is Done
                    &&& action matches ConsentAction::Respond { redirect_to }
                    &&& redirect_to@ == url@
                },
                None => consent_fails(next, action, ConsentError::CouldntAcceptConsent),
            }
        },
        _ => next == state && action is Ignored,
    }
}

/// Takes a code that resolves to a consent challenge and consents to the
/// terms: one step of the flow.
pub fn consent(payload: &ConsentPayload, settings: &Settings, state: Consent, event: ConsentEvent) -> (r:
    (Consent, ConsentAction))
    ensures
        consent_step(payload, settings, state, event, r.0, r.1),
{
    match (state, event) {
        (Consent::Start, ConsentEvent::Submitted) => {
            let report = payload.validate();
            if report.len() > 0 {
                (Consent::Done, ConsentAction::Reject(report))
            } else {
                (
                    Consent::Fetching,
                    ConsentAction::GetConsentRequest { challenge: payload.code.clone() },
                )
            }
        },
        (Consent::Fetching, ConsentEvent::ConsentRequestFetched(fetched)) => {
            match fetched {
                None => (Consent::Done, ConsentAction::Fail(ConsentError::ConsentNotFound)),
                Some(request) => match request.subject {
                    None => (Consent::Done, ConsentAction::Fail(ConsentError::SubjectNotFound)),
                    Some(subject) => subject_parsed(parse_uuid(subject.as_str())),
                },
            }
        },
        (Consent::FindingUser, ConsentEvent::UserLookedUp(user)) => {
            match user {
                Lookup::Failed => (Consent::Done, ConsentAction::Fail(ConsentError::UserError)),
                Lookup::Missing => (Consent::Done, ConsentAction::Fail(ConsentError::UserNotFound)),
                Lookup::Found(found) => (
                    Consent::Accepting,
                    ConsentAction::AcceptConsent {
                        challenge: payload.code.clone(),
                        grant: ConsentGrant::new(found.email, settings),
                    },
                ),
            }
        },
        (Consent::Accepting, ConsentEvent::ConsentAccepted(accepted)) => {
            match accepted {
                Some(redirect_to) => (Consent::Done, ConsentAction::Respond { redirect_to }),
                None => (Consent::Done, ConsentAction::Fail(ConsentError::CouldntAcceptConsent)),
            }
        },
        (state, _) => (state, ConsentAction::Ignored),
    }
}

/// Every step that is not ignored moves the flow forward: nothing is asked for
/// twice, and the flow is over after at most 4 steps.
pub proof fn consent_advances(
    payload: &ConsentPayload,
    settings: &Settings,
    state: Consent,
    event: ConsentEvent,
    next: Consent,
    action: ConsentAction,
)
    requires
        consent_step(payload, settings, state, event, next, action),
    ensures
        action is Ignored || next.stage() > state.stage(),
        action is Ignored ==> next == state,
        state is Done ==> action is Ignored,
{
}

/// A consent that the authorization server does not accept is reported as a
/// failure of the authorization server, never passed over.
pub proof fn failed_consent_is_surfaced(
    payload: &ConsentPayload,
    settings: &Settings,
    next: Consent,
    action: ConsentAction,
)
    requires
        consent_step(
            payload,
            settings,
            Consent::Accepting,
            ConsentEvent::ConsentAccepted(None),
            next,
            action,
        ),
    ensures
        next is Done,
        action matches ConsentAction::Fail(error) && error == ConsentError::CouldntAcceptConsent
            && error.kind_of() == ErrorKind::UpstreamFailure,
{
}

} // verus!
