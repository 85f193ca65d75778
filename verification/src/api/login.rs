//! Login by credentials.

use vstd::prelude::*;
use vstd::string::*;

use crate::errors::ErrorKind;
use crate::api::invitation::{completion_step, CompleteInvitationPayload, Completion,
    CompletionAction, CompletionEvent};
use crate::hashing::{check_password, password_check, PasswordCheck};
use crate::identifiers::{uuid_text, uuid_to_string};
use crate::models::{Lookup, User};
use crate::validations::{
    check_email, check_password_policy, check_presence, email_report, password_report,
    presence_report, Field, FieldViolation,
};

verus! {

#[derive(Clone, Copy, Debug, PartialEq, Eq, Structural)]
pub enum LoginError {
    UserNotFound,
    PersistedPasswordInvalidFormat,
    InvalidPassword,
    LoginRequestRejected,
}

impl LoginError {
    /// The kind of the failure.
    pub open spec fn kind_of(&self) -> ErrorKind {
        match self {
            LoginError::UserNotFound => ErrorKind::NotFound,
            LoginError::PersistedPasswordInvalidFormat => ErrorKind::Internal,
            LoginError::InvalidPassword => ErrorKind::Validation,
            LoginError::LoginRequestRejected => ErrorKind::UpstreamFailure,
        }
    }

    pub fn kind(&self) -> (r: ErrorKind)
        ensures
            r == self.kind_of(),
    {
        match self {
            LoginError::UserNotFound => ErrorKind::NotFound,
            LoginError::PersistedPasswordInvalidFormat => ErrorKind::Internal,
            LoginError::InvalidPassword => ErrorKind::Validation,
            LoginError::LoginRequestRejected => ErrorKind::UpstreamFailure,
        }
    }

    pub open spec fn text(&self) -> Seq<char> {
        match self {
            LoginError::UserNotFound => "user not found"@,
            LoginError::PersistedPasswordInvalidFormat => "persisted encrypted password couldn't be hashed"@,
            LoginError::InvalidPassword => "invalid password"@,
            LoginError::LoginRequestRejected => "login request rejected"@,
        }
    }

    pub fn message(&self) -> (r: String)
        ensures
            r@ == self.text(),
    {
        match self {
            LoginError::UserNotFound => String::from_str("user not found"),
            LoginError::PersistedPasswordInvalidFormat => String::from_str(
                "persisted encrypted password couldn't be hashed",
            ),
            LoginError::InvalidPassword => String::from_str("invalid password"),
            LoginError::LoginRequestRejected => String::from_str("login request rejected"),
        }
    }
}

#[derive(Clone, Debug)]
pub struct LoginPayload {
    pub login_challenge: String,
    pub email: String,
    pub password: String,
}

impl LoginPayload {
    /// The violated constraints, in the order of the fields.
    pub open spec fn violations(&self) -> Seq<FieldViolation> {
        presence_report(Field::LoginChallenge, self.login_challenge@) + email_report(
            Field::Email,
            self.email@,
        ) + password_report(Field::Password, self.password@)
    }

    pub fn validate(&self) -> (r: Vec<FieldViolation>)
        ensures
            r@ == self.violations(),
    {
        let mut report = Vec::new();
        check_presence(&mut report, Field::LoginChallenge, self.login_challenge.as_str());
        check_email(&mut report, Field::Email, self.email.as_str());
        check_password_policy(&mut report, Field::Password, self.password.as_str());
        assert(report@ =~= self.violations());
        report
    }
}

/// Where a login stands.
#[derive(Clone, Copy, Debug, PartialEq, Eq, Structural)]
pub enum Login {
    Start,
    /// The store has been asked for the account with the email.
    FindingUser,
    /// The authorization server has been asked to accept the login.
    Accepting,
    Done,
}

impl Login {
    /// How far the flow has come.
    pub open spec fn stage(&self) -> nat {
        match self {
            Login::Start => 0,
            Login::FindingUser => 1,
            Login::Accepting => 2,
            Login::Done => 3,
        }
    }
}

#[derive(Clone, Debug)]
pub enum LoginEvent {
    Submitted,
    UserLookedUp(Lookup<User>),
    /// The continuation URL, if the authorization server accepted.
    LoginAccepted(Option<String>),
}

#[derive(Clone, Debug)]
pub enum LoginAction {
    Reject(Vec<FieldViolation>),
    FindUser { email: String },
    /// Ask the authorization server to accept the login for this subject.
    AcceptLogin { challenge: String, subject: String, remember: bool },
    Respond { redirect_to: String },
    Fail(LoginError),
    Ignored,
}

/// Whether the flow ends with the error `error`.
pub open spec fn login_fails(next: Login, action: LoginAction, error: LoginError) -> bool {
    next is Done && action == LoginAction::Fail(error)
}

/// What follows the check of the password of the account with the identifier
/// text `subject`: on a match, the acceptance of the login for that subject,
/// remembered; else the error that tells a malformed stored hash from a wrong
/// password.
pub open spec fn credentials_step(
    payload: &LoginPayload,
    subject: Seq<char>,
    check: PasswordCheck,
    next: Login,
    action: LoginAction,
) -> bool {
    match check {
        PasswordCheck::MalformedHash => login_fails(
            next,
            action,
            LoginError::PersistedPasswordInvalidFormat,
        ),
        PasswordCheck::Mismatch => login_fails(next, action, LoginError::InvalidPassword),
        PasswordCheck::Matches => {
            &&& next is Accepting
            &&& action matches LoginAction::AcceptLogin { challenge, subject: sent, remember }
            &&& challenge@ == payload.login_challenge@
            &&& sent@ == subject
            &&& remember
        },
    }
}

/// The step that follows the check of the password.
pub fn credentials_checked(payload: &LoginPayload, subject: String, check: PasswordCheck) -> (r: (
    Login,
    LoginAction,
))
    ensures
        credentials_step(payload, subject@, check, r.0, r.1),
{
    match check {
        PasswordCheck::MalformedHash => (
            Login::Done,
            LoginAction::Fail(LoginError::PersistedPasswordInvalidFormat),
        ),
        PasswordCheck::Mismatch => (Login::Done, LoginAction::Fail(LoginError::InvalidPassword)),
        PasswordCheck::Matches => (
            Login::Accepting,
            LoginAction::AcceptLogin {
                challenge: payload.login_challenge.clone(),
                subject,
                remember: true,
            },
        ),
    }
}

/// The steps of a login by credentials: the account by its email, the password
/// against the stored hash, then the acceptance of the login for the account's
/// identifier as subject, remembered. Every failure is surfaced.
pub open spec fn login_step(
    payload: &LoginPayload,
    state: Login,
    event: LoginEvent,
    next: Login,
    action: LoginAction,
) -> bool {
    match (state, event) {
        (Login::Start, LoginEvent::Submitted) => {
            if payload.violations().len() > 0 {
                &&& next is Done
                &&& action matches LoginAction::Reject(report)
                &&& report@ == payload.violations()
            } else {
                &&& next is FindingUser
                &&& action matches LoginAction::FindUser { email }
                &&& email@ == payload.email@
            }
        },
        (Login::FindingUser, LoginEvent::UserLookedUp(user)) => {
            match user {
                Lookup::Found(found) => credentials_step(
                    payload,
                    uuid_text(found.id),
                    password_check(payload.password@, found.encrypted_password@),
                    next,
                    action,
                ),
                _ => login_fails(next, action, LoginError::UserNotFound),
            }
        },
        (Login::Accepting, LoginEvent::LoginAccepted(accepted)) => {
            match accepted {
                Some(url) => {
                    &&& next is Done
                    &&& action matches LoginAction::Respond { redirect_to }
                    &&& redirect_to@ == url@
                },
                None => login_fails(next, action, LoginError::LoginRequestRejected),
            }
        },
        _ => next == state && action is Ignored,
    }
}

/// Takes credentials and tries to authenticate the user: one step of the flow.
pub fn login(payload: &LoginPayload, state: Login, event: LoginEvent) -> (r: (Login, LoginAction))
    ensures
        login_step(payload, state, event, r.0, r.1),
{
    match (state, event) {
        (Login::Start, LoginEvent::Submitted) => {
            let report = payload.validate();
            if report.len() > 0 {
                (Login::Done, LoginAction::Reject(report))
            } else {
                (Login::FindingUser, LoginAction::FindUser { email: payload.email.clone() })
            }
        },
        (Login::FindingUser, LoginEvent::UserLookedUp(user)) => {
            match user {
                Lookup::Found(found) => {
                    let check = check_password(
                        payload.password.as_str(),
                        found.encrypted_password.as_str(),
                    );
                    credentials_checked(payload, uuid_to_string(found.id), check)
                },
                _ => (Login::Done, LoginAction::Fail(LoginError::UserNotFound)),
            }
        },
        (Login::Accepting, LoginEvent::LoginAccepted(accepted)) => {
            match accepted {
                Some(redirect_to) => (Login::Done, LoginAction::Respond { redirect_to }),
                None => (Login::Done, LoginAction::Fail(LoginError::LoginRequestRejected)),
            }
        },
        (state, _) => (state, LoginAction::Ignored),
    }
}

/// Every step that is not ignored moves the flow forward: nothing is asked for
/// twice, and the flow is over after at most 3 steps.
pub proof fn login_advances(
    payload: &LoginPayload,
    state: Login,
    event: LoginEvent,
    next: Login,
    action: LoginAction,
)
    requires
        login_step(payload, state, event, next, action),
    ensures
        action is Ignored || next.stage() > state.stage(),
        action is Ignored ==> next == state,
        state is Done ==> action is Ignored,
{
}

/// The account that a completion asks for can log in with the password it was
/// completed with: the login is accepted for the account's identifier.
pub proof fn new_account_can_log_in(
    completion: &CompleteInvitationPayload,
    state: Completion,
    event: CompletionEvent,
    after: Completion,
    created: CompletionAction,
    user: User,
    payload: &LoginPayload,
    next: Login,
    action: LoginAction,
)
    requires
        completion_step(completion, state, event, after, created),
        created matches CompletionAction::CreateUser { email, encrypted_password, .. }
            && user.email@ == email@ && user.encrypted_password@ == encrypted_password@,
        payload.password@ == completion.password@,
        login_step(payload, Login::FindingUser, LoginEvent::UserLookedUp(Lookup::Found(user)), next, action),
    ensures
        next is Accepting,
        action matches LoginAction::AcceptLogin { subject, remember, .. } && subject@ == uuid_text(
            user.id,
        ) && remember,
{
}

/// A login that the authorization server does not accept is reported as a
/// failure of the authorization server, never passed over.
pub proof fn rejected_login_is_surfaced(
    payload: &LoginPayload,
    next: Login,
    action: LoginAction,
)
    requires
        login_step(payload, Login::Accepting, LoginEvent::LoginAccepted(None), next, action),
    ensures
        next is Done,
        action matches LoginAction::Fail(error) && error == LoginError::LoginRequestRejected
            && error.kind_of() == ErrorKind::UpstreamFailure,
{
}

} // verus!
