//! Invitation workflow: creating an invitation, completing it into an account,
//! and reading a completed invitation back.

use vstd::prelude::*;
use vstd::string::*;

use crate::errors::ErrorKind;
use crate::hashing::{argon2_accepts, hash, password_check, phc_well_formed, PasswordCheck};
use crate::identifiers::{is_token, random_token, uuid_text, uuid_to_string};
use crate::models::{Invitation, Lookup, Timestamp, User};
use crate::urls::{pairs_view, parse_with_params, text_view, url_shaped, url_with_params};
use crate::validations::{
    check_email, check_password_policy, check_presence, check_terms, check_url, email_report,
    password_report, password_violation, presence_report, terms_report, url_report, Field,
    FieldViolation,
};

verus! {

#[derive(Clone, Copy, Debug, PartialEq, Eq, Structural)]
pub enum InvitationError {
    InvitationNotFound,
    UserError,
    UserNotFound,
    EmailAlreadyExists,
    InvitationNotCreated,
    InvitationNotUpdated,
    InvitationAlreadyUsed,
    PasswordEncryptionFailed,
    UserNotCreated,
    InvalidRedirectToUrl,
}

impl InvitationError {
    /// The kind of the failure.
    pub open spec fn kind_of(&self) -> ErrorKind {
        match self {
            InvitationError::InvitationNotFound => ErrorKind::NotFound,
            InvitationError::UserError => ErrorKind::Internal,
            InvitationError::UserNotFound => ErrorKind::NotFound,
            InvitationError::EmailAlreadyExists => ErrorKind::Conflict,
            InvitationError::InvitationNotCreated => ErrorKind::Internal,
            InvitationError::InvitationNotUpdated => ErrorKind::Internal,
            InvitationError::InvitationAlreadyUsed => ErrorKind::Conflict,
            InvitationError::PasswordEncryptionFailed => ErrorKind::Internal,
            InvitationError::UserNotCreated => ErrorKind::Internal,
            InvitationError::InvalidRedirectToUrl => ErrorKind::Validation,
        }
    }

    pub fn kind(&self) -> (r: ErrorKind)
        ensures
            r == self.kind_of(),
    {
        match self {
            InvitationError::InvitationNotFound => ErrorKind::NotFound,
            InvitationError::UserError => ErrorKind::Internal,
            InvitationError::UserNotFound => ErrorKind::NotFound,
            InvitationError::EmailAlreadyExists => ErrorKind::Conflict,
            InvitationError::InvitationNotCreated => ErrorKind::Internal,
            InvitationError::InvitationNotUpdated => ErrorKind::Internal,
            InvitationError::InvitationAlreadyUsed => ErrorKind::Conflict,
            InvitationError::PasswordEncryptionFailed => ErrorKind::Internal,
            InvitationError::UserNotCreated => ErrorKind::Internal,
            InvitationError::InvalidRedirectToUrl => ErrorKind::Validation,
        }
    }

    pub open spec fn text(&self) -> Seq<char> {
        match self {
            InvitationError::InvitationNotFound => "invitation couldn't be found"@,
            InvitationError::UserError => "user request error"@,
            InvitationError::UserNotFound => "user couldn't be found"@,
            InvitationError::EmailAlreadyExists => "email already exists"@,
            InvitationError::InvitationNotCreated => "invitation couldn't be created"@,
            InvitationError::InvitationNotUpdated => "invitation couldn't be updated"@,
            InvitationError::InvitationAlreadyUsed => "invitation has already been used"@,
            InvitationError::PasswordEncryptionFailed => "password encryption failed"@,
            InvitationError::UserNotCreated => "user couldn't be created"@,
            InvitationError::InvalidRedirectToUrl => "invalid redirect to url"@,
        }
    }

    pub fn message(&self) -> (r: String)
        ensures
            r@ == self.text(),
    {
        match self {
            InvitationError::InvitationNotFound => String::from_str("invitation couldn't be found"),
            InvitationError::UserError => String::from_str("user request error"),
            InvitationError::UserNotFound => String::from_str("user couldn't be found"),
            InvitationError::EmailAlreadyExists => String::from_str("email already exists"),
            InvitationError::InvitationNotCreated => String::from_str(
                "invitation couldn't be created",
            ),
            InvitationError::InvitationNotUpdated => String::from_str(
                "invitation couldn't be updated",
            ),
            InvitationError::InvitationAlreadyUsed => String::from_str(
                "invitation has already been used",
            ),
            InvitationError::PasswordEncryptionFailed => String::from_str(
                "password encryption failed",
            ),
            InvitationError::UserNotCreated => String::from_str("user couldn't be created"),
            InvitationError::InvalidRedirectToUrl => String::from_str("invalid redirect to url"),
        }
    }
}

// ---------------------------------------------------------------------------
// Completing an invitation
// ---------------------------------------------------------------------------
#[derive(Clone, Debug)]
pub struct CompleteInvitationPayload {
    pub invitation_challenge: String,
    pub password: String,
    /// Pairs to append to the redirect URL, in the order to append them.
    pub extra_payload: Option<Vec<(String, String)>>,
    pub terms_accepted: bool,
}

impl CompleteInvitationPayload {
    /// The violated constraints, in the order of the fields.
    pub open spec fn violations(&self) -> Seq<FieldViolation> {
        presence_report(Field::InvitationChallenge, self.invitation_challenge@) + password_report(
            Field::Password,
            self.password@,
        ) + terms_report(Field::TermsAccepted, self.terms_accepted)
    }

    pub fn validate(&self) -> (r: Vec<FieldViolation>)
        ensures
            r@ == self.violations(),
    {
        let mut report = Vec::new();
        check_presence(&mut report, Field::InvitationChallenge, self.invitation_challenge.as_str());
        check_password_policy(&mut report, Field::Password, self.password.as_str());
        check_terms(&mut report, Field::TermsAccepted, self.terms_accepted);
        assert(report@ =~= self.violations());
        report
    }
}

/// Where the completion of an invitation stands.
#[derive(Clone, Debug)]
pub enum Completion {
    /// Nothing has happened yet.
    Start,
    /// The store has been asked for the invitation.
    Lookup,
    /// The store has been asked to create the account.
    Creating { invitation: Invitation, at: Timestamp },
    /// The store has been asked to stamp the invitation as used.
    Stamping { invitation: Invitation, user_id: u128 },
    /// The flow is over.
    Done,
}

impl Completion {
    /// How far the flow has come.
    pub open spec fn stage(&self) -> nat {
        match self {
            Completion::Start => 0,
            Completion::Lookup => 1,
            Completion::Creating { .. } => 2,
            Completion::Stamping { .. } => 3,
            Completion::Done => 4,
        }
    }
}

/// What happened since the last action.
#[derive(Clone, Debug)]
pub enum CompletionEvent {
    /// The request has arrived.
    Submitted,
    /// The store answered the query for the invitation; `now` is the current time.
    InvitationLookedUp { invitation: Lookup<Invitation>, now: Timestamp },
    /// The store created the account and reports its identifier, or failed.
    UserCreated(Option<u128>),
    /// The store stamped the invitation with that code and reports its
    /// identifier, found no pending invitation with it, or failed.
    InvitationStamped(Lookup<u128>),
}

/// What to do next.
#[derive(Clone, Debug)]
pub enum CompletionAction {
    /// Answer with the violations; nothing has been touched.
    Reject(Vec<FieldViolation>),
    /// Ask the store for the invitation with this code.
    FindInvitation { code: String },
    /// Ask the store to create this account.
    CreateUser { email: String, encrypted_password: String, terms_accepted_at: Timestamp },
    /// Ask the store to stamp the invitation with this code as used, in one
    /// conditional update that touches it only while it is still pending.
    StampInvitation { code: String, used_at: Timestamp },
    /// Answer with the URL to continue at.
    Respond { redirect_to: String },
    /// Answer with the error.
    Fail(InvitationError),
    /// The event does not answer the pending action: nothing to do.
    Ignored,
}

impl CompletionAction {
    /// Whether the action writes to the store.
    pub open spec fn writes(&self) -> bool {
        self is CreateUser || self is StampInvitation
    }
}

/// The view of an optional list of pairs; no list counts as an empty one.
pub open spec fn extra_view(extra: Option<Vec<(String, String)>>) -> Seq<(Seq<char>, Seq<char>)> {
    match extra {
        Some(pairs) => pairs_view(pairs@),
        None => Seq::empty(),
    }
}

/// The query parameters that a completion appends to the redirect URI: the
/// account's identifier, its email, then the caller's pairs in their order.
pub open spec fn completion_params(
    user_id: u128,
    email: Seq<char>,
    extra: Seq<(Seq<char>, Seq<char>)>,
) -> Seq<(Seq<char>, Seq<char>)> {
    seq![("user_id"@, uuid_text(user_id)), ("email"@, email)] + extra
}

/// The URL to continue at after a completion, if the redirect URI is a URL.
pub open spec fn completion_redirect_url(
    redirect_uri: Seq<char>,
    user_id: u128,
    email: Seq<char>,
    extra: Seq<(Seq<char>, Seq<char>)>,
) -> Option<Seq<char>> {
    url_with_params(redirect_uri, completion_params(user_id, email, extra))
}

/// Builds the URL to continue at after the account `user_id` has been created
/// from `invitation`.
pub fn completion_redirect(
    invitation: &Invitation,
    user_id: u128,
    extra: &Option<Vec<(String, String)>>,
) -> (r: Option<String>)
    ensures
        text_view(r) == completion_redirect_url(
            invitation.redirect_uri@,
            user_id,
            invitation.email@,
            extra_view(*extra),
        ),
        r is Some <==> url_shaped(invitation.redirect_uri@),
{
    let mut params: Vec<(String, String)> = Vec::new();
    params.push((String::from_str("user_id"), uuid_to_string(user_id)));
    params.push((String::from_str("email"), invitation.email.clone()));
    let ghost head = seq![("user_id"@, uuid_text(user_id)), ("email"@, invitation.email@)];
    assert(pairs_view(params@) =~= head);
    if let Some(pairs) = extra {
        let mut i: usize = 0;
        while i < pairs.len()
            invariant
                i <= pairs.len(),
                pairs_view(params@) =~= head + pairs_view(pairs@).subrange(0, i as int),
            decreases pairs.len() - i,
        {
            let ghost before = pairs_view(params@);
            params.push((pairs[i].0.clone(), pairs[i].1.clone()));
            assert(pairs_view(params@) =~= before.push((pairs@[i as int].0@, pairs@[i as int].1@)));
            assert(pairs_view(pairs@)[i as int] == (pairs@[i as int].0@, pairs@[i as int].1@));
            i = i + 1;
        }
        assert(pairs_view(pairs@).subrange(0, i as int) =~= pairs_view(pairs@));
    } else {
        assert(head + Seq::<(Seq<char>, Seq<char>)>::empty() =~= head);
    }
    parse_with_params(invitation.redirect_uri.as_str(), &params)
}

/// Whether the flow ends with the error `error`.
pub open spec fn completion_fails(
    next: Completion,
    action: CompletionAction,
    error: InvitationError,
) -> bool {
    next is Done && action == CompletionAction::Fail(error)
}

/// What follows the hashing of the password for the pending `invitation`: with
/// a hash, the request to create the account; without, the end of the flow.
pub open spec fn hashed_step(
    invitation: Invitation,
    now: Timestamp,
    hashed: Option<String>,
    next: Completion,
    action: CompletionAction,
) -> bool {
    match hashed {
        Some(stored) => {
            &&& next == (Completion::Creating { invitation, at: now })
            &&& action matches CompletionAction::CreateUser {
                email,
                encrypted_password,
                terms_accepted_at,
            }
            &&& email@ == invitation.email@
            &&& encrypted_password@ == stored@
            &&& terms_accepted_at == now
        },
        None => completion_fails(next, action, InvitationError::PasswordEncryptionFailed),
    }
}

/// The step that follows the hashing of the password.
pub fn password_hashed(invitation: Invitation, now: Timestamp, hashed: Option<String>) -> (r: (
    Completion,
    CompletionAction,
))
    ensures
        hashed_step(invitation, now, hashed, r.0, r.1),
{
    match hashed {
        Some(stored) => {
            let email = invitation.email.clone();
            (
                Completion::Creating { invitation, at: now },
                CompletionAction::CreateUser {
                    email,
                    encrypted_password: stored,
                    terms_accepted_at: now,
                },
            )
        },
        None => (Completion::Done, CompletionAction::Fail(InvitationError::PasswordEncryptionFailed)),
    }
}

/// The end of a completion: with a URL, the answer that carries it; without,
/// `InvalidRedirectToUrl`.
pub open spec fn redirect_step(
    built: Option<Seq<char>>,
    next: Completion,
    action: CompletionAction,
) -> bool {
    match built {
        Some(url) => {
            &&& next is Done
            &&& action matches CompletionAction::Respond { redirect_to }
            &&& redirect_to@ == url
        },
        None => completion_fails(next, action, InvitationError::InvalidRedirectToUrl),
    }
}

/// The step that follows the building of the redirect URL.
pub fn redirect_built(built: Option<String>) -> (r: (Completion, CompletionAction))
    ensures
        redirect_step(text_view(built), r.0, r.1),
{
    match built {
        Some(redirect_to) => (Completion::Done, CompletionAction::Respond { redirect_to }),
        None => (Completion::Done, CompletionAction::Fail(InvitationError::InvalidRedirectToUrl)),
    }
}

/// The steps of the completion of an invitation.
///
/// A submitted request is validated before anything else. The invitation must
/// exist and be pending; then the password is hashed and the account is
/// created with the invitation's email and the current time as the time the
/// terms were accepted; then the invitation is stamped with that same time;
/// then the client is sent to the invitation's redirect URI, extended by the
/// account's identifier, its email and the caller's own pairs.
///
/// The account and the stamp are two writes. Of two completions that race for
/// one code, the stamp is what decides: it is a conditional update, so only
/// one of them finds the invitation pending, and the other ends with
/// `InvitationNotFound`.
pub open spec fn completion_step(
    payload: &CompleteInvitationPayload,
    state: Completion,
    event: CompletionEvent,
    next: Completion,
    action: CompletionAction,
) -> bool {
    match (state, event) {
        (Completion::Start, CompletionEvent::Submitted) => {
            if payload.violations().len() > 0 {
                &&& next is Done
                &&& action matches CompletionAction::Reject(report)
                &&& report@ == payload.violations()
            } else {
                &&& next is Lookup
                &&& action matches CompletionAction::FindInvitation { code }
                &&& code@ == payload.invitation_challenge@
            }
        },
        (Completion::Lookup, CompletionEvent::InvitationLookedUp { invitation, now }) => {
            match invitation {
                Lookup::Found(found) => {
                    if found.used_at is Some {
                        completion_fails(next, action, InvitationError::InvitationAlreadyUsed)
                    } else {
                        exists|hashed: Option<String>|
                            {
                                &&& hashed matches Some(stored) ==> phc_well_formed(stored@)
                                    && argon2_accepts(payload.password@, stored@)
                                &&& #[trigger] hashed_step(found, now, hashed, next, action)
                            }
                    }
                },
                _ => completion_fails(next, action, InvitationError::InvitationNotFound),
            }
        },
        (Completion::Creating { invitation, at }, CompletionEvent::UserCreated(created)) => {
            match created {
                Some(user_id) => {
                    &&& next == (Completion::Stamping { invitation, user_id })
                    &&& action matches CompletionAction::StampInvitation { code, used_at }
                    &&& code@ == payload.invitation_challenge@
                    &&& used_at == at
                },
                None => completion_fails(next, action, InvitationError::UserNotCreated),
            }
        },
        (
            Completion::Stamping { invitation, user_id },
            CompletionEvent::InvitationStamped(stamped),
        ) => {
            match stamped {
                Lookup::Failed => completion_fails(
                    next,
                    action,
                    InvitationError::InvitationNotUpdated,
                ),
                Lookup::Missing => completion_fails(
                    next,
                    action,
                    InvitationError::InvitationNotFound,
                ),
                Lookup::Found(_) => redirect_step(
                    completion_redirect_url(
                        invitation.redirect_uri@,
                        user_id,
                        invitation.email@,
                        extra_view(payload.extra_payload),
                    ),
                    next,
                    action,
                ),
            }
        },
        _ => next == state && action is Ignored,
    }
}

/// Completes an invitation, that is, registers an account: one step of the
/// flow, from the state and the event to the next state and the action to take.
pub fn complete_invitation(
    payload: &CompleteInvitationPayload,
    state: Completion,
    event: CompletionEvent,
) -> (r: (Completion, CompletionAction))
    ensures
        completion_step(payload, state, event, r.0, r.1),
{
    match (state, event) {
        (Completion::Start, CompletionEvent::Submitted) => {
            let report = payload.validate();
            if report.len() > 0 {
                (Completion::Done, CompletionAction::Reject(report))
            } else {
                (
                    Completion::Lookup,
                    CompletionAction::FindInvitation { code: payload.invitation_challenge.clone() },
                )
            }
        },
        (Completion::Lookup, CompletionEvent::InvitationLookedUp { invitation, now }) => {
            match invitation {
                Lookup::Found(found) => {
                    if !found.pending() {
                        (
                            Completion::Done,
                            CompletionAction::Fail(InvitationError::InvitationAlreadyUsed),
                        )
                    } else {
                        let hashed = hash(payload.password.as_str());
                        let r = password_hashed(found, now, hashed);
                        assert(hashed_step(found, now, hashed, r.0, r.1));
                        r
                    }
                },
                _ => (Completion::Done, CompletionAction::Fail(InvitationError::InvitationNotFound)),
            }
        },
        (Completion::Creating { invitation, at }, CompletionEvent::UserCreated(created)) => {
            match created {
                Some(user_id) => (
                    Completion::Stamping { invitation, user_id },
                    CompletionAction::StampInvitation {
                        code: payload.invitation_challenge.clone(),
                        used_at: at,
                    },
                ),
                None => (Completion::Done, CompletionAction::Fail(InvitationError::UserNotCreated)),
            }
        },
        (
            Completion::Stamping { invitation, user_id },
            CompletionEvent::InvitationStamped(stamped),
        ) => {
            match stamped {
                Lookup::Failed => (
                    Completion::Done,
                    CompletionAction::Fail(InvitationError::InvitationNotUpdated),
                ),
                Lookup::Missing => (
                    Completion::Done,
                    CompletionAction::Fail(InvitationError::InvitationNotFound),
                ),
                Lookup::Found(_) => redirect_built(
                    completion_redirect(&invitation, user_id, &payload.extra_payload),
                ),
            }
        },
        (state, _) => (state, CompletionAction::Ignored),
    }
}

/// Every step that is not ignored moves the flow forward: nothing is asked for
/// twice, and the flow is over after at most 4 steps.
pub proof fn completion_advances(
    payload: &CompleteInvitationPayload,
    state: Completion,
    event: CompletionEvent,
    next: Completion,
    action: CompletionAction,
)
    requires
        completion_step(payload, state, event, next, action),
    ensures
        action is Ignored || next.stage() > state.stage(),
        action is Ignored ==> next == state,
        state is Done ==> action is Ignored,
{
}

/// An invitation that has been stamped is refused: the flow ends with
/// `InvitationAlreadyUsed` and asks for no write, so no second account is
/// created from it.
pub proof fn used_invitation_is_refused(
    payload: &CompleteInvitationPayload,
    invitation: Invitation,
    now: Timestamp,
    next: Completion,
    action: CompletionAction,
)
    requires
        invitation.used_at is Some,
        completion_step(
            payload,
            Completion::Lookup,
            CompletionEvent::InvitationLookedUp { invitation: Lookup::Found(invitation), now },
            next,
            action,
        ),
    ensures
        completion_fails(next, action, InvitationError::InvitationAlreadyUsed),
        !action.writes(),
{
}

/// The invitation as the store holds it once it has been stamped.
pub open spec fn stamped(invitation: Invitation, used_at: Timestamp) -> Invitation {
    Invitation { used_at: Some(used_at), ..invitation }
}

/// Once a completion has had its invitation stamped, a later completion of the
/// same invitation, by whatever payload, ends with `InvitationAlreadyUsed` and
/// asks for no account.
pub proof fn second_completion_creates_no_account(
    first: &CompleteInvitationPayload,
    invitation: Invitation,
    at: Timestamp,
    user_id: u128,
    stamping: Completion,
    stamp: CompletionAction,
    second: &CompleteInvitationPayload,
    now: Timestamp,
    next: Completion,
    action: CompletionAction,
)
    requires
        completion_step(
            first,
            Completion::Creating { invitation, at },
            CompletionEvent::UserCreated(Some(user_id)),
            stamping,
            stamp,
        ),
        completion_step(
            second,
            Completion::Lookup,
            CompletionEvent::InvitationLookedUp {
                invitation: Lookup::Found(stamped(invitation, stamp->StampInvitation_used_at)),
                now,
            },
            next,
            action,
        ),
    ensures
        stamp matches CompletionAction::StampInvitation { code, used_at } && used_at == at && code@
            == first.invitation_challenge@,
        completion_fails(next, action, InvitationError::InvitationAlreadyUsed),
        !action.writes(),
{
}

/// A request that violates a constraint is rejected with the full report before
/// anything is asked of the store, and the flow is over.
pub proof fn invalid_completion_touches_nothing(
    payload: &CompleteInvitationPayload,
    next: Completion,
    action: CompletionAction,
)
    requires
        !payload.terms_accepted || payload.invitation_challenge@.len() == 0
            || password_violation(payload.password@) is Some,
        completion_step(payload, Completion::Start, CompletionEvent::Submitted, next, action),
    ensures
        next is Done,
        action is Reject,
        !action.writes(),
{
    let a = presence_report(Field::InvitationChallenge, payload.invitation_challenge@);
    let b = password_report(Field::Password, payload.password@);
    let c = terms_report(Field::TermsAccepted, payload.terms_accepted);
    assert(payload.violations().len() == a.len() + b.len() + c.len());
}

/// An account is only ever asked for in answer to the lookup of a pending
/// invitation, and carries that invitation's email.
pub proof fn accounts_come_from_pending_invitations(
    payload: &CompleteInvitationPayload,
    state: Completion,
    event: CompletionEvent,
    next: Completion,
    action: CompletionAction,
)
    requires
        completion_step(payload, state, event, next, action),
        action is CreateUser,
    ensures
        state is Lookup,
        event matches CompletionEvent::InvitationLookedUp { invitation: Lookup::Found(found), now }
            && found.used_at is None && action->CreateUser_email@ == found.email@
            && action->CreateUser_terms_accepted_at == now && password_check(
            payload.password@,
            action->CreateUser_encrypted_password@,
        ) == PasswordCheck::Matches,
{
}

/// A completion that runs through ends with the invitation's redirect URI,
/// extended by `user_id`, `email` and the caller's pairs, and stamps the
/// invitation with the time at which the terms were accepted.
pub proof fn completion_runs_through(
    payload: &CompleteInvitationPayload,
    invitation: Invitation,
    now: Timestamp,
    user_id: u128,
    stamped_id: u128,
    s1: Completion,
    a1: CompletionAction,
    s2: Completion,
    a2: CompletionAction,
    s3: Completion,
    a3: CompletionAction,
    s4: Completion,
    a4: CompletionAction,
)
    requires
        payload.violations().len() == 0,
        invitation.used_at is None,
        completion_step(payload, Completion::Start, CompletionEvent::Submitted, s1, a1),
        completion_step(
            payload,
            s1,
            CompletionEvent::InvitationLookedUp { invitation: Lookup::Found(invitation), now },
            s2,
            a2,
        ),
        a2 is CreateUser,
        completion_step(payload, s2, CompletionEvent::UserCreated(Some(user_id)), s3, a3),
        completion_step(
            payload,
            s3,
            CompletionEvent::InvitationStamped(Lookup::Found(stamped_id)),
            s4,
            a4,
        ),
        completion_redirect_url(
            invitation.redirect_uri@,
            user_id,
            invitation.email@,
            extra_view(payload.extra_payload),
        ) is Some,
    ensures
        a1 is FindInvitation,
        a3 matches CompletionAction::StampInvitation { used_at, .. } && used_at == now,
        s4 is Done,
        a4 matches CompletionAction::Respond { redirect_to } && Some(redirect_to@)
            == url_with_params(
            invitation.redirect_uri@,
            seq![("user_id"@, uuid_text(user_id)), ("email"@, invitation.email@)] + extra_view(
                payload.extra_payload,
            ),
        ),
{
}

// ---------------------------------------------------------------------------
// Creating an invitation
// ---------------------------------------------------------------------------
#[derive(Clone, Debug)]
pub struct CreateInvitationPayload {
    pub client_id: String,
    pub email: String,
    pub redirect_uri: String,
}

impl CreateInvitationPayload {
    /// The violated constraints, in the order of the fields.
    pub open spec fn violations(&self) -> Seq<FieldViolation> {
        presence_report(Field::ClientId, self.client_id@) + email_report(Field::Email, self.email@)
            + url_report(Field::RedirectUri, self.redirect_uri@)
    }

    pub fn validate(&self) -> (r: Vec<FieldViolation>)
        ensures
            r@ == self.violations(),
    {
        let mut report = Vec::new();
        check_presence(&mut report, Field::ClientId, self.client_id.as_str());
        check_email(&mut report, Field::Email, self.email.as_str());
        check_url(&mut report, Field::RedirectUri, self.redirect_uri.as_str());
        assert(report@ =~= self.violations());
        report
    }
}

/// Where the creation of an invitation stands.
#[derive(Clone, Debug)]
pub enum Creation {
    Start,
    /// The store has been asked for an account with the email.
    Lookup,
    /// The store has been asked to create the invitation with this code.
    Creating { code: String },
    Done,
}

impl Creation {
    /// How far the flow has come.
    pub open spec fn stage(&self) -> nat {
        match self {
            Creation::Start => 0,
            Creation::Lookup => 1,
            Creation::Creating { .. } => 2,
            Creation::Done => 3,
        }
    }
}

#[derive(Clone, Debug)]
pub enum CreationEvent {
    Submitted,
    /// The store answered the query for an account with the email.
    UserLookedUp(Lookup<User>),
    /// The store created the invitation, or failed to.
    InvitationCreated(bool),
}

#[derive(Clone, Debug)]
pub enum CreationAction {
    Reject(Vec<FieldViolation>),
    /// Ask the store for the account with this email.
    FindUser { email: String },
    /// Ask the store to create this pending invitation.
    CreateInvitation { email: String, code: String, idp_client_id: String, redirect_uri: String },
    /// Answer with the code and the place to go next.
    Respond { code: String, redirect_to: String },
    Fail(InvitationError),
    Ignored,
}

impl CreationAction {
    /// Whether the action writes to the store.
    pub open spec fn writes(&self) -> bool {
        self is CreateInvitation
    }
}

/// Whether the flow ends with the error `error`.
pub open spec fn creation_fails(next: Creation, action: CreationAction, error: InvitationError) -> bool {
    next is Done && action == CreationAction::Fail(error)
}

/// The request to persist the invitation that `payload` asks for under `code`.
pub open spec fn invitation_requested(
    payload: &CreateInvitationPayload,
    code: Seq<char>,
    next: Creation,
    action: CreationAction,
) -> bool {
    &&& next matches Creation::Creating { code: kept }
    &&& kept@ == code
    &&& action matches CreationAction::CreateInvitation {
        email,
        code: sent,
        idp_client_id,
        redirect_uri,
    }
    &&& email@ == payload.email@
    &&& sent@ == code
    &&& idp_client_id@ == payload.client_id@
    &&& redirect_uri@ == payload.redirect_uri@
}

/// Asks the store to persist the invitation that `payload` asks for under `code`.
pub fn request_invitation(payload: &CreateInvitationPayload, code: String) -> (r: (
    Creation,
    CreationAction,
))
    ensures
        invitation_requested(payload, code@, r.0, r.1),
{
    (
        Creation::Creating { code: code.clone() },
        CreationAction::CreateInvitation {
            email: payload.email.clone(),
            code,
            idp_client_id: payload.client_id.clone(),
            redirect_uri: payload.redirect_uri.clone(),
        },
    )
}

/// The steps of the creation of an invitation: validation, the check that no
/// account has the email yet, the pending invitation under a fresh random code,
/// and the answer with that code.
pub open spec fn creation_step(
    payload: &CreateInvitationPayload,
    state: Creation,
    event: CreationEvent,
    next: Creation,
    action: CreationAction,
) -> bool {
    match (state, event) {
        (Creation::Start, CreationEvent::Submitted) => {
            if payload.violations().len() > 0 {
                &&& next is Done
                &&& action matches CreationAction::Reject(report)
                &&& report@ == payload.violations()
            } else {
                &&& next is Lookup
                &&& action matches CreationAction::FindUser { email }
                &&& email@ == payload.email@
            }
        },
        (Creation::Lookup, CreationEvent::UserLookedUp(user)) => {
            match user {
                Lookup::Failed => creation_fails(next, action, InvitationError::UserError),
                Lookup::Found(_) => creation_fails(
                    next,
                    action,
                    InvitationError::EmailAlreadyExists,
                ),
                Lookup::Missing => exists|code: Seq<char>|
                    is_token(code) && #[trigger] invitation_requested(payload, code, next, action),
            }
        },
        (Creation::Creating { code }, CreationEvent::InvitationCreated(created)) => {
            if created {
                &&& next is Done
                &&& action matches CreationAction::Respond { code: sent, redirect_to }
                &&& sent@ == code@
                &&& redirect_to@ == "/"@
            } else {
                creation_fails(next, action, InvitationError::InvitationNotCreated)
            }
        },
        _ => next == state && action is Ignored,
    }
}

/// Creates an invitation from an email: one step of the flow.
pub fn create_invitation(payload: &CreateInvitationPayload, state: Creation, event: CreationEvent) -> (r:
    (Creation, CreationAction))
    ensures
        creation_step(payload, state, event, r.0, r.1),
{
    match (state, event) {
        (Creation::Start, CreationEvent::Submitted) => {
            let report = payload.validate();
            if report.len() > 0 {
                (Creation::Done, CreationAction::Reject(report))
            } else {
                (Creation::Lookup, CreationAction::FindUser { email: payload.email.clone() })
            }
        },
        (Creation::Lookup, CreationEvent::UserLookedUp(user)) => {
            match user {
                Lookup::Failed => (Creation::Done, CreationAction::Fail(InvitationError::UserError)),
                Lookup::Found(_) => (
                    Creation::Done,
                    CreationAction::Fail(InvitationError::EmailAlreadyExists),
                ),
                Lookup::Missing => {
                    let code = random_token();
                    let ghost drawn = code@;
                    let r = request_invitation(payload, code);
                    assert(invitation_requested(payload, drawn, r.0, r.1));
                    r
                },
            }
        },
        (Creation::Creating { code }, CreationEvent::InvitationCreated(created)) => {
            if created {
                (Creation::Done, CreationAction::Respond { code, redirect_to: String::from_str("/") })
            } else {
                (Creation::Done, CreationAction::Fail(InvitationError::InvitationNotCreated))
            }
        },
        (state, _) => (state, CreationAction::Ignored),
    }
}

/// Every step that is not ignored moves the flow forward: nothing is asked for
/// twice, and the flow is over after at most 3 steps.
pub proof fn creation_advances(
    payload: &CreateInvitationPayload,
    state: Creation,
    event: CreationEvent,
    next: Creation,
    action: CreationAction,
)
    requires
        creation_step(payload, state, event, next, action),
    ensures
        action is Ignored || next.stage() > state.stage(),
        action is Ignored ==> next == state,
        state is Done ==> action is Ignored,
{
}

/// An invitation for an email that already has an account is refused with
/// `EmailAlreadyExists`, and nothing is written.
pub proof fn existing_email_is_refused(
    payload: &CreateInvitationPayload,
    user: User,
    next: Creation,
    action: CreationAction,
)
    requires
        creation_step(payload, Creation::Lookup, CreationEvent::UserLookedUp(Lookup::Found(user)), next, action),
    ensures
        creation_fails(next, action, InvitationError::EmailAlreadyExists),
        !action.writes(),
{
}

/// An invitation is only ever written after the store found no account with
/// the email; it is pending under a twelve-character alphanumeric code and
/// carries the payload's email, client and redirect URI.
pub proof fn invitations_need_a_free_email(
    payload: &CreateInvitationPayload,
    state: Creation,
    event: CreationEvent,
    next: Creation,
    action: CreationAction,
)
    requires
        creation_step(payload, state, event, next, action),
        action.writes(),
    ensures
        state is Lookup,
        event == CreationEvent::UserLookedUp(Lookup::Missing),
        is_token(action->CreateInvitation_code@),
        action->CreateInvitation_email@ == payload.email@,
        action->CreateInvitation_redirect_uri@ == payload.redirect_uri@,
        action->CreateInvitation_idp_client_id@ == payload.client_id@,
{
}

// ---------------------------------------------------------------------------
// Reading a completed invitation
// ---------------------------------------------------------------------------
#[derive(Clone, Debug)]
pub struct GetCompleteInvitationPayload {
    pub invitation_challenge: String,
}

impl GetCompleteInvitationPayload {
    pub open spec fn violations(&self) -> Seq<FieldViolation> {
        presence_report(Field::InvitationChallenge, self.invitation_challenge@)
    }

    pub fn validate(&self) -> (r: Vec<FieldViolation>)
        ensures
            r@ == self.violations(),
    {
        let mut report = Vec::new();
        check_presence(&mut report, Field::InvitationChallenge, self.invitation_challenge.as_str());
        assert(report@ =~= self.violations());
        report
    }
}

#[derive(Clone, Copy, Debug, PartialEq, Eq, Structural)]
pub enum Retrieval {
    Start,
    /// The store has been asked for the invitation.
    FindingInvitation,
    /// The store has been asked for the account with the invitation's email.
    FindingUser,
    Done,
}

impl Retrieval {
    /// How far the flow has come.
    pub open spec fn stage(&self) -> nat {
        match self {
            Retrieval::Start => 0,
            Retrieval::FindingInvitation => 1,
            Retrieval::FindingUser => 2,
            Retrieval::Done => 3,
        }
    }
}

#[derive(Clone, Debug)]
pub enum RetrievalEvent {
    Submitted,
    InvitationLookedUp(Lookup<Invitation>),
    UserLookedUp(Lookup<User>),
}

#[derive(Clone, Debug)]
pub enum RetrievalAction {
    Reject(Vec<FieldViolation>),
    FindInvitation { code: String },
    FindUser { email: String },
    /// Answer with the account's email and the text of its identifier.
    Respond { email: String, user_id: String },
    Fail(InvitationError),
    Ignored,
}

/// Whether the flow ends with the error `error`.
pub open spec fn retrieval_fails(next: Retrieval, action: RetrievalAction, error: InvitationError) -> bool {
    next is Done && action == RetrievalAction::Fail(error)
}

/// The steps of reading a completed invitation: the invitation by its code,
/// then the account by the invitation's email.
pub open spec fn retrieval_step(
    payload: &GetCompleteInvitationPayload,
    state: Retrieval,
    event: RetrievalEvent,
    next: Retrieval,
    action: RetrievalAction,
) -> bool {
    match (state, event) {
        (Retrieval::Start, RetrievalEvent::Submitted) => {
            if payload.violations().len() > 0 {
                &&& next is Done
                &&& action matches RetrievalAction::Reject(report)
                &&& report@ == payload.violations()
            } else {
                &&& next is FindingInvitation
                &&& action matches RetrievalAction::FindInvitation { code }
                &&& code@ == payload.invitation_challenge@
            }
        },
        (Retrieval::FindingInvitation, RetrievalEvent::InvitationLookedUp(invitation)) => {
            match invitation {
                Lookup::Found(found) => {
                    &&& next is FindingUser
                    &&& action matches RetrievalAction::FindUser { email }
                    &&& email@ == found.email@
                },
                _ => retrieval_fails(next, action, InvitationError::InvitationNotFound),
            }
        },
        (Retrieval::FindingUser, RetrievalEvent::UserLookedUp(user)) => {
            match user {
                Lookup::Found(found) => {
                    &&& next is Done
                    &&& action matches RetrievalAction::Respond { email, user_id }
                    &&& email@ == found.email@
                    &&& user_id@ == uuid_text(found.id)
                },
                _ => retrieval_fails(next, action, InvitationError::UserNotFound),
            }
        },
        _ => next == state && action is Ignored,
    }
}

/// Retrieves a completed invitation: one step of the flow.
pub fn get_complete_invitation(
    payload: &GetCompleteInvitationPayload,
    state: Retrieval,
    event: RetrievalEvent,
) -> (r: (Retrieval, RetrievalAction))
    ensures
        retrieval_step(payload, state, event, r.0, r.1),
{
    match (state, event) {
        (Retrieval::Start, RetrievalEvent::Submitted) => {
            let report = payload.validate();
            if report.len() > 0 {
                (Retrieval::Done, RetrievalAction::Reject(report))
            } else {
                (
                    Retrieval::FindingInvitation,
                    RetrievalAction::FindInvitation { code: payload.invitation_challenge.clone() },
                )
            }
        },
        (Retrieval::FindingInvitation, RetrievalEvent::InvitationLookedUp(invitation)) => {
            match invitation {
                Lookup::Found(found) => (
                    Retrieval::FindingUser,
                    RetrievalAction::FindUser { email: found.email },
                ),
                _ => (Retrieval::Done, RetrievalAction::Fail(InvitationError::InvitationNotFound)),
            }
        },
        (Retrieval::FindingUser, RetrievalEvent::UserLookedUp(user)) => {
            match user {
                Lookup::Found(found) => (
                    Retrieval::Done,
                    RetrievalAction::Respond { email: found.email, user_id: uuid_to_string(found.id) },
                ),
                _ => (Retrieval::Done, RetrievalAction::Fail(InvitationError::UserNotFound)),
            }
        },
        (state, _) => (state, RetrievalAction::Ignored),
    }
}

/// Every step that is not ignored moves the flow forward: nothing is asked for
/// twice, and the flow is over after at most 3 steps.
pub proof fn retrieval_advances(
    payload: &GetCompleteInvitationPayload,
    state: Retrieval,
    event: RetrievalEvent,
    next: Retrieval,
    action: RetrievalAction,
)
    requires
        retrieval_step(payload, state, event, next, action),
    ensures
        action is Ignored || next.stage() > state.stage(),
        action is Ignored ==> next == state,
        state is Done ==> action is Ignored,
{
}

} // verus!
