use zagreus::api::invitation::{
    complete_invitation, completion_redirect, create_invitation, get_complete_invitation,
    password_hashed, request_invitation, CompleteInvitationPayload, Completion, CompletionAction,
    CompletionEvent, CreateInvitationPayload, Creation, CreationAction, CreationEvent,
    GetCompleteInvitationPayload, InvitationError, Retrieval, RetrievalAction, RetrievalEvent,
};
use zagreus::hashing::{check_password, PasswordCheck};
use zagreus::models::{Invitation, Lookup, Timestamp, User};

const USER_ID: u128 = 0x550e8400_e29b_41d4_a716_446655440000;

fn at(seconds: i64) -> Timestamp {
    Timestamp { seconds, nanos: 0 }
}

fn pending_invitation() -> Invitation {
    Invitation {
        id: 7,
        email: String::from("a@b.com"),
        code: String::from("K7x2K7x2K7x2"),
        redirect_uri: String::from("https://app/done"),
        idp_client_id: String::from("client"),
        used_at: None,
        created_at: at(1),
        updated_at: at(1),
    }
}

fn user() -> User {
    User {
        id: USER_ID,
        email: String::from("a@b.com"),
        encrypted_password: String::from("x"),
        terms_accepted_at: Some(at(2)),
        created_at: at(2),
        updated_at: at(2),
    }
}

fn completion_payload() -> CompleteInvitationPayload {
    CompleteInvitationPayload {
        invitation_challenge: String::from("K7x2K7x2K7x2"),
        password: String::from("Val1d_passw0rd"),
        extra_payload: Some(vec![(String::from("ref"), String::from("x"))]),
        terms_accepted: true,
    }
}

fn found(invitation: Invitation) -> CompletionEvent {
    CompletionEvent::InvitationLookedUp { invitation: Lookup::Found(invitation), now: at(100) }
}

#[test]
fn completion_redirect_appends_user_email_and_extra() {
    let extra = Some(vec![(String::from("ref"), String::from("x"))]);
    assert_eq!(
        completion_redirect(&pending_invitation(), USER_ID, &extra),
        Some(String::from(
            "https://app/done?user_id=550e8400-e29b-41d4-a716-446655440000&email=a%40b.com&ref=x"
        ))
    );
}

#[test]
fn completion_redirect_without_extra_has_two_parameters() {
    assert_eq!(
        completion_redirect(&pending_invitation(), USER_ID, &None),
        Some(String::from(
            "https://app/done?user_id=550e8400-e29b-41d4-a716-446655440000&email=a%40b.com"
        ))
    );
}

#[test]
fn completion_redirect_keeps_the_order_of_extra_pairs_and_existing_query() {
    let mut invitation = pending_invitation();
    invitation.redirect_uri = String::from("https://app/done?keep=1");
    let extra = Some(vec![
        (String::from("b"), String::from("2 3")),
        (String::from("a"), String::from("1")),
    ]);
    assert_eq!(
        completion_redirect(&invitation, 1, &extra),
        Some(String::from(
            "https://app/done?keep=1&user_id=00000000-0000-0000-0000-000000000001&email=a%40b.com&b=2+3&a=1"
        ))
    );
}

#[test]
fn completion_redirect_needs_a_url() {
    let mut invitation = pending_invitation();
    invitation.redirect_uri = String::from("/done");
    assert_eq!(completion_redirect(&invitation, USER_ID, &None), None);
}

#[test]
fn completion_runs_through() {
    let payload = completion_payload();
    let (state, action) = complete_invitation(&payload, Completion::Start, CompletionEvent::Submitted);
    match action {
        CompletionAction::FindInvitation { code } => assert_eq!(code, "K7x2K7x2K7x2"),
        other => panic!("unexpected action {:?}", other),
    }
    assert!(matches!(state, Completion::Lookup));

    let (state, action) = complete_invitation(&payload, state, found(pending_invitation()));
    match action {
        CompletionAction::CreateUser { email, encrypted_password, terms_accepted_at } => {
            assert_eq!(email, "a@b.com");
            assert_eq!(terms_accepted_at, at(100));
            assert_ne!(encrypted_password, "Val1d_passw0rd");
            assert_eq!(
                check_password("Val1d_passw0rd", encrypted_password.as_str()),
                PasswordCheck::Matches
            );
            assert_eq!(
                check_password("Val1d_passw0rD", encrypted_password.as_str()),
                PasswordCheck::Mismatch
            );
        }
        other => panic!("unexpected action {:?}", other),
    }

    let (state, action) =
        complete_invitation(&payload, state, CompletionEvent::UserCreated(Some(USER_ID)));
    match action {
        CompletionAction::StampInvitation { code, used_at } => {
            assert_eq!(code, "K7x2K7x2K7x2");
            assert_eq!(used_at, at(100));
        }
        other => panic!("unexpected action {:?}", other),
    }

    let (state, action) = complete_invitation(
        &payload,
        state,
        CompletionEvent::InvitationStamped(Lookup::Found(7)),
    );
    match action {
        CompletionAction::Respond { redirect_to } => assert_eq!(
            redirect_to,
            "https://app/done?user_id=550e8400-e29b-41d4-a716-446655440000&email=a%40b.com&ref=x"
        ),
        other => panic!("unexpected action {:?}", other),
    }
    assert!(matches!(state, Completion::Done));
}

#[test]
fn completing_a_used_invitation_fails() {
    let payload = completion_payload();
    let mut invitation = pending_invitation();
    invitation.used_at = Some(at(100));
    let (state, action) = complete_invitation(&payload, Completion::Lookup, found(invitation));
    assert!(matches!(state, Completion::Done));
    assert!(matches!(action, CompletionAction::Fail(InvitationError::InvitationAlreadyUsed)));
}

#[test]
fn completing_an_unknown_invitation_fails() {
    let payload = completion_payload();
    for lookup in [Lookup::Missing, Lookup::Failed] {
        let event = CompletionEvent::InvitationLookedUp { invitation: lookup, now: at(100) };
        let (state, action) = complete_invitation(&payload, Completion::Lookup, event);
        assert!(matches!(state, Completion::Done));
        assert!(matches!(action, CompletionAction::Fail(InvitationError::InvitationNotFound)));
    }
}

#[test]
fn invalid_completion_is_rejected_before_any_lookup() {
    let mut payload = completion_payload();
    payload.terms_accepted = false;
    let (state, action) = complete_invitation(&payload, Completion::Start, CompletionEvent::Submitted);
    assert!(matches!(state, Completion::Done));
    match action {
        CompletionAction::Reject(report) => {
            assert_eq!(report.len(), 1);
            assert_eq!(report[0].code.code(), "terms_not_accepted");
            assert_eq!(report[0].field.name(), "terms_accepted");
        }
        other => panic!("unexpected action {:?}", other),
    }
}

#[test]
fn failed_user_creation_is_reported() {
    let payload = completion_payload();
    let state = Completion::Creating { invitation: pending_invitation(), at: at(100) };
    let (state, action) = complete_invitation(&payload, state, CompletionEvent::UserCreated(None));
    assert!(matches!(state, Completion::Done));
    assert!(matches!(action, CompletionAction::Fail(InvitationError::UserNotCreated)));
}

#[test]
fn failed_hashing_is_reported() {
    let (state, action) = password_hashed(pending_invitation(), at(100), None);
    assert!(matches!(state, Completion::Done));
    assert!(matches!(action, CompletionAction::Fail(InvitationError::PasswordEncryptionFailed)));
    let (state, action) = password_hashed(pending_invitation(), at(100), Some(String::from("h")));
    assert!(matches!(state, Completion::Creating { .. }));
    match action {
        CompletionAction::CreateUser { email, encrypted_password, terms_accepted_at } => {
            assert_eq!(email, "a@b.com");
            assert_eq!(encrypted_password, "h");
            assert_eq!(terms_accepted_at, at(100));
        }
        other => panic!("unexpected action {:?}", other),
    }
}

#[test]
fn stamping_failures_are_told_apart() {
    let payload = completion_payload();
    let stamping = || Completion::Stamping { invitation: pending_invitation(), user_id: USER_ID };
    let (_, action) = complete_invitation(
        &payload,
        stamping(),
        CompletionEvent::InvitationStamped(Lookup::Failed),
    );
    assert!(matches!(action, CompletionAction::Fail(InvitationError::InvitationNotUpdated)));
    let (_, action) = complete_invitation(
        &payload,
        stamping(),
        CompletionEvent::InvitationStamped(Lookup::Missing),
    );
    assert!(matches!(action, CompletionAction::Fail(InvitationError::InvitationNotFound)));
}

#[test]
fn redirect_uri_that_is_no_url_is_reported() {
    let payload = completion_payload();
    let mut invitation = pending_invitation();
    invitation.redirect_uri = String::from("done");
    let state = Completion::Stamping { invitation, user_id: USER_ID };
    let (state, action) = complete_invitation(
        &payload,
        state,
        CompletionEvent::InvitationStamped(Lookup::Found(7)),
    );
    assert!(matches!(state, Completion::Done));
    assert!(matches!(action, CompletionAction::Fail(InvitationError::InvalidRedirectToUrl)));
}

#[test]
fn events_out_of_turn_are_ignored() {
    let payload = completion_payload();
    let (state, action) =
        complete_invitation(&payload, Completion::Start, CompletionEvent::UserCreated(Some(1)));
    assert!(matches!(state, Completion::Start));
    assert!(matches!(action, CompletionAction::Ignored));
    let (state, action) = complete_invitation(&payload, Completion::Done, CompletionEvent::Submitted);
    assert!(matches!(state, Completion::Done));
    assert!(matches!(action, CompletionAction::Ignored));
}

fn creation_payload() -> CreateInvitationPayload {
    CreateInvitationPayload {
        client_id: String::from("client"),
        email: String::from("a@b.com"),
        redirect_uri: String::from("https://app/done"),
    }
}

#[test]
fn creation_runs_through() {
    let payload = creation_payload();
    let (state, action) = create_invitation(&payload, Creation::Start, CreationEvent::Submitted);
    match action {
        CreationAction::FindUser { email } => assert_eq!(email, "a@b.com"),
        other => panic!("unexpected action {:?}", other),
    }
    let (state, action) =
        create_invitation(&payload, state, CreationEvent::UserLookedUp(Lookup::Missing));
    let drawn = match action {
        CreationAction::CreateInvitation { email, code, idp_client_id, redirect_uri } => {
            assert_eq!(email, "a@b.com");
            assert_eq!(idp_client_id, "client");
            assert_eq!(redirect_uri, "https://app/done");
            assert_eq!(code.chars().count(), 12);
            assert!(code.chars().all(|c| c.is_ascii_alphanumeric()));
            code
        }
        other => panic!("unexpected action {:?}", other),
    };
    let (state, action) = create_invitation(&payload, state, CreationEvent::InvitationCreated(true));
    assert!(matches!(state, Creation::Done));
    match action {
        CreationAction::Respond { code, redirect_to } => {
            assert_eq!(code, drawn);
            assert_eq!(redirect_to, "/");
        }
        other => panic!("unexpected action {:?}", other),
    }
}

#[test]
fn invitation_codes_differ() {
    let payload = creation_payload();
    let mut codes = Vec::new();
    for _ in 0..8 {
        let (_, action) =
            create_invitation(&payload, Creation::Lookup, CreationEvent::UserLookedUp(Lookup::Missing));
        match action {
            CreationAction::CreateInvitation { code, .. } => codes.push(code),
            other => panic!("unexpected action {:?}", other),
        }
    }
    codes.sort();
    codes.dedup();
    assert_eq!(codes.len(), 8);
}

#[test]
fn request_invitation_uses_the_given_code() {
    let (state, action) = request_invitation(&creation_payload(), String::from("K7x2K7x2K7x2"));
    match state {
        Creation::Creating { code } => assert_eq!(code, "K7x2K7x2K7x2"),
        other => panic!("unexpected state {:?}", other),
    }
    match action {
        CreationAction::CreateInvitation { email, code, idp_client_id, redirect_uri } => {
            assert_eq!(email, "a@b.com");
            assert_eq!(code, "K7x2K7x2K7x2");
            assert_eq!(idp_client_id, "client");
            assert_eq!(redirect_uri, "https://app/done");
        }
        other => panic!("unexpected action {:?}", other),
    }
}

#[test]
fn creation_for_an_existing_email_fails() {
    let payload = creation_payload();
    let (state, action) =
        create_invitation(&payload, Creation::Lookup, CreationEvent::UserLookedUp(Lookup::Found(user())));
    assert!(matches!(state, Creation::Done));
    assert!(matches!(action, CreationAction::Fail(InvitationError::EmailAlreadyExists)));
}

#[test]
fn creation_reports_store_failures() {
    let payload = creation_payload();
    let (_, action) =
        create_invitation(&payload, Creation::Lookup, CreationEvent::UserLookedUp(Lookup::Failed));
    assert!(matches!(action, CreationAction::Fail(InvitationError::UserError)));
    let state = Creation::Creating { code: String::from("K7x2K7x2K7x2") };
    let (_, action) = create_invitation(&payload, state, CreationEvent::InvitationCreated(false));
    assert!(matches!(action, CreationAction::Fail(InvitationError::InvitationNotCreated)));
}

#[test]
fn invalid_creation_is_rejected() {
    let mut payload = creation_payload();
    payload.email = String::from("nobody");
    let (state, action) = create_invitation(&payload, Creation::Start, CreationEvent::Submitted);
    assert!(matches!(state, Creation::Done));
    match action {
        CreationAction::Reject(report) => {
            assert_eq!(report.len(), 1);
            assert_eq!(report[0].code.code(), "email");
        }
        other => panic!("unexpected action {:?}", other),
    }
}

#[test]
fn retrieval_runs_through() {
    let payload = GetCompleteInvitationPayload { invitation_challenge: String::from("K7x2K7x2K7x2") };
    let (state, action) =
        get_complete_invitation(&payload, Retrieval::Start, RetrievalEvent::Submitted);
    match action {
        RetrievalAction::FindInvitation { code } => assert_eq!(code, "K7x2K7x2K7x2"),
        other => panic!("unexpected action {:?}", other),
    }
    let (state, action) = get_complete_invitation(
        &payload,
        state,
        RetrievalEvent::InvitationLookedUp(Lookup::Found(pending_invitation())),
    );
    match action {
        RetrievalAction::FindUser { email } => assert_eq!(email, "a@b.com"),
        other => panic!("unexpected action {:?}", other),
    }
    let (state, action) =
        get_complete_invitation(&payload, state, RetrievalEvent::UserLookedUp(Lookup::Found(user())));
    assert_eq!(state, Retrieval::Done);
    match action {
        RetrievalAction::Respond { email, user_id } => {
            assert_eq!(email, "a@b.com");
            assert_eq!(user_id, "550e8400-e29b-41d4-a716-446655440000");
        }
        other => panic!("unexpected action {:?}", other),
    }
}

#[test]
fn retrieval_reports_what_is_missing() {
    let payload = GetCompleteInvitationPayload { invitation_challenge: String::from("K7x2K7x2K7x2") };
    let (_, action) = get_complete_invitation(
        &payload,
        Retrieval::FindingInvitation,
        RetrievalEvent::InvitationLookedUp(Lookup::Missing),
    );
    assert!(matches!(action, RetrievalAction::Fail(InvitationError::InvitationNotFound)));
    let (_, action) = get_complete_invitation(
        &payload,
        Retrieval::FindingUser,
        RetrievalEvent::UserLookedUp(Lookup::Missing),
    );
    assert!(matches!(action, RetrievalAction::Fail(InvitationError::UserNotFound)));
    let empty = GetCompleteInvitationPayload { invitation_challenge: String::new() };
    let (_, action) = get_complete_invitation(&empty, Retrieval::Start, RetrievalEvent::Submitted);
    assert!(matches!(action, RetrievalAction::Reject(_)));
}

#[test]
fn invitation_errors_have_their_messages() {
    assert_eq!(InvitationError::InvitationNotFound.message(), "invitation couldn't be found");
    assert_eq!(InvitationError::EmailAlreadyExists.message(), "email already exists");
    assert_eq!(
        InvitationError::InvitationAlreadyUsed.message(),
        "invitation has already been used"
    );
    assert_eq!(InvitationError::InvalidRedirectToUrl.message(), "invalid redirect to url");
}

/// A store of one invitation and the accounts made from it.
struct Store {
    invitation: Invitation,
    users: Vec<(u128, String)>,
}

fn complete_against(store: &mut Store, payload: &CompleteInvitationPayload) -> CompletionAction {
    let mut state = Completion::Start;
    let mut event = CompletionEvent::Submitted;
    loop {
        let (next, action) = complete_invitation(payload, state, event);
        state = next;
        event = match action {
            CompletionAction::FindInvitation { code } => {
                let invitation = if code == store.invitation.code {
                    Lookup::Found(store.invitation.clone())
                } else {
                    Lookup::Missing
                };
                CompletionEvent::InvitationLookedUp { invitation, now: at(100) }
            }
            CompletionAction::CreateUser { email, .. } => {
                let id = USER_ID + store.users.len() as u128;
                store.users.push((id, email));
                CompletionEvent::UserCreated(Some(id))
            }
            CompletionAction::StampInvitation { code, used_at } => {
                let stamped = if code == store.invitation.code && store.invitation.used_at.is_none() {
                    store.invitation.used_at = Some(used_at);
                    Lookup::Found(store.invitation.id)
                } else {
                    Lookup::Missing
                };
                CompletionEvent::InvitationStamped(stamped)
            }
            last => return last,
        };
    }
}

#[test]
fn completing_the_same_invitation_twice_creates_one_account() {
    let mut store = Store { invitation: pending_invitation(), users: Vec::new() };
    let payload = completion_payload();
    match complete_against(&mut store, &payload) {
        CompletionAction::Respond { redirect_to } => {
            assert!(redirect_to.contains("user_id=550e8400-e29b-41d4-a716-446655440000"));
            assert!(redirect_to.contains("email=a%40b.com"));
        }
        other => panic!("unexpected action {:?}", other),
    }
    assert_eq!(store.invitation.used_at, Some(at(100)));
    assert_eq!(store.users.len(), 1);
    assert!(matches!(
        complete_against(&mut store, &payload),
        CompletionAction::Fail(InvitationError::InvitationAlreadyUsed)
    ));
    assert_eq!(store.users.len(), 1);
}

#[test]
fn completing_an_invitation_under_another_code_finds_nothing() {
    let mut store = Store { invitation: pending_invitation(), users: Vec::new() };
    let mut payload = completion_payload();
    payload.invitation_challenge = String::from("000000000000");
    assert!(matches!(
        complete_against(&mut store, &payload),
        CompletionAction::Fail(InvitationError::InvitationNotFound)
    ));
    assert_eq!(store.users.len(), 0);
    assert_eq!(store.invitation.used_at, None);
}
