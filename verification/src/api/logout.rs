//! Logout: a pass-through confirmation of the logout challenge.

use vstd::prelude::*;
use vstd::string::*;

use crate::errors::ErrorKind;
use crate::validations::{check_presence, presence_report, Field, FieldViolation};

verus! {

#[derive(Clone, Copy, Debug, PartialEq, Eq, Structural)]
pub enum LogoutError {
    LogoutRequestRejected,
}

impl LogoutError {
    /// The kind of the failure.
    pub open spec fn kind_of(&self) -> ErrorKind {
        match self {
            LogoutError::LogoutRequestRejected => ErrorKind::UpstreamFailure,
        }
    }

    pub fn kind(&self) -> (r: ErrorKind)
        ensures
            r == self.kind_of(),
    {
        match self {
            LogoutError::LogoutRequestRejected => ErrorKind::UpstreamFailure,
        }
    }

    pub open spec fn text(&self) -> Seq<char> {
        "logout request rejected"@
    }

    pub fn message(&self) -> (r: String)
        ensures
            r@ == self.text(),
    {
        String::from_str("logout request rejected")
    }
}

#[derive(Clone, Debug)]
pub struct LogoutPayload {
    pub logout_challenge: String,
}

impl LogoutPayload {
    pub open spec fn violations(&self) -> Seq<FieldViolation> {
        presence_report(Field::LogoutChallenge, self.logout_challenge@)
    }

    pub fn validate(&self) -> (r: Vec<FieldViolation>)
        ensures
            r@ == self.violations(),
    {
        let mut report = Vec::new();
        check_presence(&mut report, Field::LogoutChallenge, self.logout_challenge.as_str());
        assert(report@ =~= self.violations());
        report
    }
}

/// Where a logout stands.
#[derive(Clone, Copy, Debug, PartialEq, Eq, Structural)]
pub enum Logout {
    Start,
    /// The authorization server has been asked for the logout request.
    Fetching,
    /// The authorization server has been asked to accept the logout.
    Accepting,
    Done,
}

impl Logout {
    /// How far the flow has come.
    pub open spec fn stage(&self) -> nat {
        match self {
            Logout::Start => 0,
            Logout::Fetching => 1,
            Logout::Accepting => 2,
            Logout::Done => 3,
        }
    }
}

#[derive(Clone, Debug)]
pub enum LogoutEvent {
    Requested,
    /// Whether the authorization server knows the logout request.
    LogoutRequestFetched(bool),
    /// The continuation URL, if the authorization server accepted.
    LogoutAccepted(Option<String>),
}

#[derive(Clone, Debug)]
pub enum LogoutAction {
    Reject(Vec<FieldViolation>),
    GetLogoutRequest { challenge: String },
    AcceptLogout { challenge: String },
    Redirect { location: String },
    Fail(LogoutError),
    Ignored,
}

/// Whether the flow ends with the rejection of the logout.
pub open spec fn logout_fails(next: Logout, action: LogoutAction) -> bool {
    next is Done && action == LogoutAction::Fail(LogoutError::LogoutRequestRejected)
}

/// The steps of a logout: fetch the logout request, accept it, and follow the
/// authorization server's continuation URL. Any failure of the authorization
/// server is surfaced.
pub open spec fn logout_step(
    payload: &LogoutPayload,
    state: Logout,
    event: LogoutEvent,
    next: Logout,
    action: LogoutAction,
) -> bool {
    match (state, event) {
        (Logout::Start, LogoutEvent::Requested) => {
            if payload.violations().len() > 0 {
                &&& next is Done
                &&& action matches LogoutAction::Reject(report)
                &&& report@ == payload.violations()
            } else {
                &&& next is Fetching
                &&& action matches LogoutAction::GetLogoutRequest { challenge }
                &&& challenge@ == payload.logout_challenge@
            }
        },
        (Logout::Fetching, LogoutEvent::LogoutRequestFetched(known)) => {
            if known {
                &&& next is Accepting
                &&& action matches LogoutAction::AcceptLogout { challenge }
                &&& challenge@ == payload.logout_challenge@
            } else {
                logout_fails(next, action)
            }
        },
        (Logout::Accepting, LogoutEvent::LogoutAccepted(accepted)) => {
            match accepted {
                Some(url) => {
                    &&& next is Done
                    &&& action matches LogoutAction::Redirect { location }
                    &&& location@ == url@
                },
                None => logout_fails(next, action),
            }
        },
        _ => next == state && action is Ignored,
    }
}

/// Logs a user out: one step of the flow.
pub fn logout(payload: &LogoutPayload, state: Logout, event: LogoutEvent) -> (r: (
    Logout,
    LogoutAction,
))
    ensures
        logout_step(payload, state, event, r.0, r.1),
{
    match (state, event) {
        (Logout::Start, LogoutEvent::Requested) => {
            let report = payload.validate();
            if report.len() > 0 {
                (Logout::Done, LogoutAction::Reject(report))
            } else {
                (
                    Logout::Fetching,
                    LogoutAction::GetLogoutRequest { challenge: payload.logout_challenge.clone() },
                )
            }
        },
        (Logout::Fetching, LogoutEvent::LogoutRequestFetched(known)) => {
            if known {
                (
                    Logout::Accepting,
                    LogoutAction::AcceptLogout { challenge: payload.logout_challenge.clone() },
                )
            } else {
                (Logout::Done, LogoutAction::Fail(LogoutError::LogoutRequestRejected))
            }
        },
        (Logout::Accepting, LogoutEvent::LogoutAccepted(accepted)) => {
            match accepted {
                Some(location) => (Logout::Done, LogoutAction::Redirect { location }),
                None => (Logout::Done, LogoutAction::Fail(LogoutError::LogoutRequestRejected)),
            }
        },
        (state, _) => (state, LogoutAction::Ignored),
    }
}

/// Every step that is not ignored moves the flow forward: nothing is asked for
/// twice, and the flow is over after at most 3 steps.
pub proof fn logout_advances(
    payload: &LogoutPayload,
    state: Logout,
    event: LogoutEvent,
    next: Logout,
    action: LogoutAction,
)
    requires
        logout_step(payload, state, event, next, action),
    ensures
        action is Ignored || next.stage() > state.stage(),
        action is Ignored ==> next == state,
        state is Done ==> action is Ignored,
{
}

/// Whatever the authorization server refuses, the logout request or its
/// acceptance, is reported as a failure of the authorization server.
pub proof fn rejected_logout_is_surfaced(
    payload: &LogoutPayload,
    state: Logout,
    event: LogoutEvent,
    next: Logout,
    action: LogoutAction,
)
    requires
        logout_step(payload, state, event, next, action),
        (state is Fetching && event == LogoutEvent::LogoutRequestFetched(false)) || (
        state is Accepting && event == LogoutEvent::LogoutAccepted(None)),
    ensures
        next is Done,
        action matches LogoutAction::Fail(error) && error.kind_of() == ErrorKind::UpstreamFailure,
{
}

} // verus!
