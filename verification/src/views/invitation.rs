//! The page on which an invited person completes the invitation.

use vstd::prelude::*;
use vstd::string::*;

use crate::errors::ErrorKind;
use crate::models::{Invitation, Lookup};
use crate::validations::{check_presence, presence_report, Field, FieldViolation};
use crate::views::HtmlTemplate;

verus! {

#[derive(Clone, Debug)]
pub struct InvitationTemplate {
    pub email: String,
    pub invitation_challenge: String,
}

#[derive(Clone, Copy, Debug, PartialEq, Eq, Structural)]
pub enum InvitationError {
    NotFound,
    AlreadyUsed,
}

impl InvitationError {
    /// The kind of the failure.
    pub open spec fn kind_of(&self) -> ErrorKind {
        match self {
            InvitationError::NotFound => ErrorKind::NotFound,
            InvitationError::AlreadyUsed => ErrorKind::Conflict,
        }
    }

    pub fn kind(&self) -> (r: ErrorKind)
        ensures
            r == self.kind_of(),
    {
        match self {
            InvitationError::NotFound => ErrorKind::NotFound,
            InvitationError::AlreadyUsed => ErrorKind::Conflict,
        }
    }

    pub open spec fn text(&self) -> Seq<char> {
        match self {
            InvitationError::NotFound => "invitation couldn't be found"@,
            InvitationError::AlreadyUsed => "invitation already used"@,
        }
    }

    pub fn message(&self) -> (r: String)
        ensures
            r@ == self.text(),
    {
        match self {
            InvitationError::NotFound => String::from_str("invitation couldn't be found"),
            InvitationError::AlreadyUsed => String::from_str("invitation already used"),
        }
    }
}

#[derive(Clone, Debug)]
pub struct InvitationPayload {
    pub challenge: String,
}

impl InvitationPayload {
    pub open spec fn violations(&self) -> Seq<FieldViolation> {
        presence_report(Field::Challenge, self.challenge@)
    }

    pub fn validate(&self) -> (r: Vec<FieldViolation>)
        ensures
            r@ == self.violations(),
    {
        let mut report = Vec::new();
        check_presence(&mut report, Field::Challenge, self.challenge.as_str());
        assert(report@ =~= self.violations());
        report
    }
}

/// Where the request for the page stands.
#[derive(Clone, Copy, Debug, PartialEq, Eq, Structural)]
pub enum InvitationPage {
    Start,
    /// The store has been asked for the invitation.
    Finding,
    Done,
}

impl InvitationPage {
    /// How far the flow has come.
    pub open spec fn stage(&self) -> nat {
        match self {
            InvitationPage::Start => 0,
            InvitationPage::Finding => 1,
            InvitationPage::Done => 2,
        }
    }
}

#[derive(Clone, Debug)]
pub enum InvitationPageEvent {
    Requested,
    InvitationLookedUp(Lookup<Invitation>),
}

#[derive(Clone, Debug)]
pub enum InvitationPageAction {
    Reject(Vec<FieldViolation>),
    FindInvitation { code: String },
    Render(HtmlTemplate<'static, InvitationTemplate>),
    Fail(InvitationError),
    Ignored,
}

/// Whether the flow ends with the error `error`.
pub open spec fn invitation_page_fails(
    next: InvitationPage,
    action: InvitationPageAction,
    error: InvitationError,
) -> bool {
    next is Done && action == InvitationPageAction::Fail(error)
}

/// The steps to the invitation page: the invitation by its code, which must
/// exist and be pending, then the page with its email and the code.
pub open spec fn invitation_page_step(
    payload: &InvitationPayload,
    state: InvitationPage,
    event: InvitationPageEvent,
    next: InvitationPage,
    action: InvitationPageAction,
) -> bool {
    match (state, event) {
        (InvitationPage::Start, InvitationPageEvent::Requested) => {
            if payload.violations().len() > 0 {
                &&& next is Done
                &&& action matches InvitationPageAction::Reject(report)
                &&& report@ == payload.violations()
            } else {
                &&& next is Finding
                &&& action matches InvitationPageAction::FindInvitation { code }
                &&& code@ == payload.challenge@
            }
        },
        (InvitationPage::Finding, InvitationPageEvent::InvitationLookedUp(invitation)) => {
            match invitation {
                Lookup::Found(found) => {
                    if found.used_at is Some {
                        invitation_page_fails(next, action, InvitationError::AlreadyUsed)
                    } else {
                        &&& next is Done
                        &&& action matches InvitationPageAction::Render(page)
                        &&& page.filepath@ == "invitation.html"@
                        &&& page.template.email@ == found.email@
                        &&& page.template.invitation_challenge@ == payload.challenge@
                    }
                },
                _ => invitation_page_fails(next, action, InvitationError::NotFound),
            }
        },
        _ => next == state && action is Ignored,
    }
}

/// The invitation page: one step of the flow.
pub fn invitation(payload: &InvitationPayload, state: InvitationPage, event: InvitationPageEvent) -> (r:
    (InvitationPage, InvitationPageAction))
    ensures
        invitation_page_step(payload, state, event, r.0, r.1),
{
    match (state, event) {
        (InvitationPage::Start, InvitationPageEvent::Requested) => {
            let report = payload.validate();
            if report.len() > 0 {
                (InvitationPage::Done, InvitationPageAction::Reject(report))
            } else {
                (
                    InvitationPage::Finding,
                    InvitationPageAction::FindInvitation { code: payload.challenge.clone() },
                )
            }
        },
        (InvitationPage::Finding, InvitationPageEvent::InvitationLookedUp(invitation)) => {
            match invitation {
                Lookup::Found(found) => {
                    if !found.pending() {
                        (
                            InvitationPage::Done,
                            InvitationPageAction::Fail(InvitationError::AlreadyUsed),
                        )
                    } else {
                        let template = InvitationTemplate {
                            email: found.email,
                            invitation_challenge: payload.challenge.clone(),
                        };
                        (
                            InvitationPage::Done,
                            InvitationPageAction::Render(
                                HtmlTemplate::new("invitation.html", template),
                            ),
                        )
                    }
                },
                _ => (InvitationPage::Done, InvitationPageAction::Fail(InvitationError::NotFound)),
            }
        },
        (state, _) => (state, InvitationPageAction::Ignored),
    }
}

/// Every step that is not ignored moves the flow forward: nothing is asked for
/// twice, and the flow is over after at most 2 steps.
pub proof fn invitation_page_advances(
    payload: &InvitationPayload,
    state: InvitationPage,
    event: InvitationPageEvent,
    next: InvitationPage,
    action: InvitationPageAction,
)
    requires
        invitation_page_step(payload, state, event, next, action),
    ensures
        action is Ignored || next.stage() > state.stage(),
        action is Ignored ==> next == state,
        state is Done ==> action is Ignored,
{
}

} // verus!
