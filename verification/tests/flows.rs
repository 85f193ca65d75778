use zagreus::api::consent::{
    consent, subject_parsed, Consent, ConsentAction, ConsentError, ConsentEvent, ConsentPayload,
};
use zagreus::api::invitation::{
    complete_invitation, CompleteInvitationPayload, Completion, CompletionAction, CompletionEvent,
};
use zagreus::api::login::{
    credentials_checked, login, Login, LoginAction, LoginError, LoginEvent, LoginPayload,
};
use zagreus::api::logout::{logout, Logout, LogoutAction, LogoutError, LogoutEvent, LogoutPayload};
use zagreus::api::public::consent::{
    public_consent, resolve, resolve_read, ConsentError as FastConsentError, FastConsent,
    FastConsentAction, FastConsentEvent, FastConsentPayload,
};
use zagreus::authorization::{ConsentGrant, ConsentRequest, Outcome};
use zagreus::config::Settings;
use zagreus::hashing::{check_password, PasswordCheck};
use zagreus::models::{Invitation, Lookup, Timestamp, User};

const USER_ID: u128 = 0x550e8400_e29b_41d4_a716_446655440000;
const SUBJECT: &str = "550e8400-e29b-41d4-a716-446655440000";
const REQUEST_URL: &str =
    "https://hydra/oauth2/auth?client_id=zagreus&redirect_uri=https%3A%2F%2Fapp%2Fcallback&state=abc&redirect_uri=https%3A%2F%2Fother";

fn at(seconds: i64) -> Timestamp {
    Timestamp { seconds, nanos: 0 }
}

fn settings() -> Settings {
    Settings {
        port: 8080,
        url: String::from("http://localhost:8080"),
        database_url: String::from("postgres://localhost/zagreus"),
        access_token_audience: String::from("https://api"),
        client_id: String::from("zagreus"),
        client_secret: String::from("hidden"),
        redirect_url: String::from("https://app/callback"),
        hydra_admin_api_url: String::from("http://hydra:4445"),
        hydra_public_api_url: String::from("http://hydra:4444"),
        static_path: String::from("static"),
        templates_path: String::from("templates"),
    }
}

fn user_with(encrypted_password: &str) -> User {
    User {
        id: USER_ID,
        email: String::from("a@b.com"),
        encrypted_password: String::from(encrypted_password),
        terms_accepted_at: Some(at(2)),
        created_at: at(2),
        updated_at: at(2),
    }
}

fn hash_of(password: &str) -> String {
    let payload = CompleteInvitationPayload {
        invitation_challenge: String::from("K7x2K7x2K7x2"),
        password: String::from(password),
        extra_payload: None,
        terms_accepted: true,
    };
    let invitation = Invitation {
        id: 7,
        email: String::from("a@b.com"),
        code: String::from("K7x2K7x2K7x2"),
        redirect_uri: String::from("https://app/done"),
        idp_client_id: String::from("client"),
        used_at: None,
        created_at: at(1),
        updated_at: at(1),
    };
    let event =
        CompletionEvent::InvitationLookedUp { invitation: Lookup::Found(invitation), now: at(3) };
    match complete_invitation(&payload, Completion::Lookup, event).1 {
        CompletionAction::CreateUser { encrypted_password, .. } => encrypted_password,
        other => panic!("unexpected action {:?}", other),
    }
}

fn login_payload(password: &str) -> LoginPayload {
    LoginPayload {
        login_challenge: String::from("challenge"),
        email: String::from("a@b.com"),
        password: String::from(password),
    }
}

#[test]
fn hashes_are_salted() {
    let first = hash_of("Val1d_passw0rd");
    let second = hash_of("Val1d_passw0rd");
    assert_ne!(first, second);
    assert!(first.starts_with("$argon2"));
    assert_eq!(check_password("Val1d_passw0rd", first.as_str()), PasswordCheck::Matches);
    assert_eq!(check_password("Val1d_passw0rd", second.as_str()), PasswordCheck::Matches);
}

#[test]
fn malformed_hash_is_told_from_wrong_password() {
    assert_eq!(check_password("Val1d_passw0rd", "Val1d_passw0rd"), PasswordCheck::MalformedHash);
    assert_eq!(check_password("Val1d_passw0rd", ""), PasswordCheck::MalformedHash);
    let stored = hash_of("Val1d_passw0rd");
    assert_eq!(check_password("0ther_Passw0rd", stored.as_str()), PasswordCheck::Mismatch);
}

#[test]
fn login_runs_through() {
    let stored = hash_of("Val1d_passw0rd");
    let payload = login_payload("Val1d_passw0rd");
    let (state, action) = login(&payload, Login::Start, LoginEvent::Submitted);
    assert_eq!(state, Login::FindingUser);
    match action {
        LoginAction::FindUser { email } => assert_eq!(email, "a@b.com"),
        other => panic!("unexpected action {:?}", other),
    }
    let (state, action) =
        login(&payload, state, LoginEvent::UserLookedUp(Lookup::Found(user_with(stored.as_str()))));
    assert_eq!(state, Login::Accepting);
    match action {
        LoginAction::AcceptLogin { challenge, subject, remember } => {
            assert_eq!(challenge, "challenge");
            assert_eq!(subject, SUBJECT);
            assert!(remember);
        }
        other => panic!("unexpected action {:?}", other),
    }
    let (state, action) =
        login(&payload, state, LoginEvent::LoginAccepted(Some(String::from("https://hydra/next"))));
    assert_eq!(state, Login::Done);
    match action {
        LoginAction::Respond { redirect_to } => assert_eq!(redirect_to, "https://hydra/next"),
        other => panic!("unexpected action {:?}", other),
    }
}

#[test]
fn login_failures_are_surfaced() {
    let stored = hash_of("Val1d_passw0rd");
    let payload = login_payload("0ther_Passw0rd");
    let (state, action) = login(
        &payload,
        Login::FindingUser,
        LoginEvent::UserLookedUp(Lookup::Found(user_with(stored.as_str()))),
    );
    assert_eq!(state, Login::Done);
    assert!(matches!(action, LoginAction::Fail(LoginError::InvalidPassword)));

    let (_, action) = login(
        &payload,
        Login::FindingUser,
        LoginEvent::UserLookedUp(Lookup::Found(user_with("plain"))),
    );
    assert!(matches!(action, LoginAction::Fail(LoginError::PersistedPasswordInvalidFormat)));

    for lookup in [Lookup::Missing, Lookup::Failed] {
        let (_, action) = login(&payload, Login::FindingUser, LoginEvent::UserLookedUp(lookup));
        assert!(matches!(action, LoginAction::Fail(LoginError::UserNotFound)));
    }

    let (state, action) = login(&payload, Login::Accepting, LoginEvent::LoginAccepted(None));
    assert_eq!(state, Login::Done);
    assert!(matches!(action, LoginAction::Fail(LoginError::LoginRequestRejected)));
}

#[test]
fn credentials_checked_decides_by_the_check() {
    let payload = login_payload("Val1d_passw0rd");
    let (state, action) =
        credentials_checked(&payload, String::from(SUBJECT), PasswordCheck::Matches);
    assert_eq!(state, Login::Accepting);
    match action {
        LoginAction::AcceptLogin { challenge, subject, remember } => {
            assert_eq!(challenge, "challenge");
            assert_eq!(subject, SUBJECT);
            assert!(remember);
        }
        other => panic!("unexpected action {:?}", other),
    }
    let (state, action) =
        credentials_checked(&payload, String::from(SUBJECT), PasswordCheck::Mismatch);
    assert_eq!(state, Login::Done);
    assert!(matches!(action, LoginAction::Fail(LoginError::InvalidPassword)));
    let (_, action) =
        credentials_checked(&payload, String::from(SUBJECT), PasswordCheck::MalformedHash);
    assert!(matches!(action, LoginAction::Fail(LoginError::PersistedPasswordInvalidFormat)));
}

#[test]
fn invalid_login_is_rejected() {
    let payload = login_payload("weak");
    let (state, action) = login(&payload, Login::Start, LoginEvent::Submitted);
    assert_eq!(state, Login::Done);
    match action {
        LoginAction::Reject(report) => {
            assert_eq!(report.len(), 1);
            assert_eq!(report[0].field.name(), "password");
            assert_eq!(report[0].code.code(), "password_too_short");
        }
        other => panic!("unexpected action {:?}", other),
    }
}

#[test]
fn logout_runs_through() {
    let payload = LogoutPayload { logout_challenge: String::from("bye") };
    let (state, action) = logout(&payload, Logout::Start, LogoutEvent::Requested);
    assert_eq!(state, Logout::Fetching);
    match action {
        LogoutAction::GetLogoutRequest { challenge } => assert_eq!(challenge, "bye"),
        other => panic!("unexpected action {:?}", other),
    }
    let (state, action) = logout(&payload, state, LogoutEvent::LogoutRequestFetched(true));
    assert_eq!(state, Logout::Accepting);
    match action {
        LogoutAction::AcceptLogout { challenge } => assert_eq!(challenge, "bye"),
        other => panic!("unexpected action {:?}", other),
    }
    let (state, action) =
        logout(&payload, state, LogoutEvent::LogoutAccepted(Some(String::from("https://hydra/out"))));
    assert_eq!(state, Logout::Done);
    match action {
        LogoutAction::Redirect { location } => assert_eq!(location, "https://hydra/out"),
        other => panic!("unexpected action {:?}", other),
    }
}

#[test]
fn logout_failures_are_surfaced() {
    let payload = LogoutPayload { logout_challenge: String::from("bye") };
    let (state, action) = logout(&payload, Logout::Fetching, LogoutEvent::LogoutRequestFetched(false));
    assert_eq!(state, Logout::Done);
    assert!(matches!(action, LogoutAction::Fail(LogoutError::LogoutRequestRejected)));
    let (state, action) = logout(&payload, Logout::Accepting, LogoutEvent::LogoutAccepted(None));
    assert_eq!(state, Logout::Done);
    assert!(matches!(action, LogoutAction::Fail(LogoutError::LogoutRequestRejected)));
    let empty = LogoutPayload { logout_challenge: String::new() };
    let (_, action) = logout(&empty, Logout::Start, LogoutEvent::Requested);
    assert!(matches!(action, LogoutAction::Reject(_)));
    assert_eq!(LogoutError::LogoutRequestRejected.message(), "logout request rejected");
}

fn consent_request() -> ConsentRequest {
    ConsentRequest {
        subject: Some(String::from(SUBJECT)),
        request_url: Some(String::from(REQUEST_URL)),
    }
}

fn assert_grant(grant: &ConsentGrant) {
    assert_eq!(grant.grant_scope, vec!["openid", "offline_access", "email", "profile"]);
    assert_eq!(grant.grant_access_token_audience, vec!["https://api"]);
    assert!(grant.remember);
    assert_eq!(grant.remember_for, 0);
    assert_eq!(grant.id_token_email, "a@b.com");
}

#[test]
fn resolve_reads_subject_and_first_redirect_uri() {
    assert_eq!(resolve(&consent_request()), Ok((USER_ID, String::from("https://app/callback"))));
}

#[test]
fn resolve_reports_the_first_thing_wrong() {
    let mut request = consent_request();
    request.subject = None;
    request.request_url = None;
    assert_eq!(resolve(&request), Err(FastConsentError::NoSubject));
    request.subject = Some(String::from("nobody"));
    assert_eq!(resolve(&request), Err(FastConsentError::WrongSubject));
    request.subject = Some(String::from(SUBJECT));
    assert_eq!(resolve(&request), Err(FastConsentError::WrongRequestUrl));
    request.request_url = Some(String::from("/oauth2/auth?redirect_uri=x"));
    assert_eq!(resolve(&request), Err(FastConsentError::WrongRequestUrl));
    request.request_url = Some(String::from("https://hydra/oauth2/auth?state=abc"));
    assert_eq!(resolve(&request), Err(FastConsentError::WrongRedirectUri));
}

#[test]
fn resolve_read_decides_on_what_was_read() {
    let pairs = vec![
        (String::from("state"), String::from("abc")),
        (String::from("redirect_uri"), String::from("https://app/callback")),
        (String::from("redirect_uri"), String::from("https://other")),
    ];
    assert_eq!(
        resolve_read(Some(Some(9)), Some(Some(pairs))),
        Ok((9, String::from("https://app/callback")))
    );
    assert_eq!(resolve_read(None, None), Err(FastConsentError::NoSubject));
    assert_eq!(resolve_read(Some(None), Some(Some(vec![]))), Err(FastConsentError::WrongSubject));
    assert_eq!(resolve_read(Some(Some(9)), None), Err(FastConsentError::WrongRequestUrl));
    assert_eq!(resolve_read(Some(Some(9)), Some(None)), Err(FastConsentError::WrongRequestUrl));
    assert_eq!(
        resolve_read(Some(Some(9)), Some(Some(vec![]))),
        Err(FastConsentError::WrongRedirectUri)
    );
}

fn accepting_consent() -> (FastConsentPayload, FastConsent) {
    let payload = FastConsentPayload { consent_challenge: String::from("agree") };
    let (state, action) = public_consent(&payload, &settings(), FastConsent::Start, FastConsentEvent::Requested);
    match action {
        FastConsentAction::GetConsentRequest { challenge } => assert_eq!(challenge, "agree"),
        other => panic!("unexpected action {:?}", other),
    }
    let (state, action) = public_consent(
        &payload,
        &settings(),
        state,
        FastConsentEvent::ConsentRequestFetched(Some(consent_request())),
    );
    match action {
        FastConsentAction::FindUser { id } => assert_eq!(id, USER_ID),
        other => panic!("unexpected action {:?}", other),
    }
    let (state, action) = public_consent(
        &payload,
        &settings(),
        state,
        FastConsentEvent::UserLookedUp(Lookup::Found(user_with("x"))),
    );
    match action {
        FastConsentAction::AcceptConsent { challenge, grant } => {
            assert_eq!(challenge, "agree");
            assert_grant(&grant);
        }
        other => panic!("unexpected action {:?}", other),
    }
    (payload, state)
}

#[test]
fn public_consent_follows_the_continuation() {
    let (payload, state) = accepting_consent();
    let (state, action) = public_consent(
        &payload,
        &settings(),
        state,
        FastConsentEvent::ConsentAccepted(Some(String::from("https://hydra/next"))),
    );
    assert!(matches!(state, FastConsent::Done));
    match action {
        FastConsentAction::Redirect(Outcome::Accepted(url)) => assert_eq!(url, "https://hydra/next"),
        other => panic!("unexpected action {:?}", other),
    }
}

#[test]
fn public_consent_falls_back_to_the_redirect_uri() {
    let (payload, state) = accepting_consent();
    let (state, action) =
        public_consent(&payload, &settings(), state, FastConsentEvent::ConsentAccepted(None));
    assert!(matches!(state, FastConsent::Done));
    match action {
        FastConsentAction::Redirect(outcome) => {
            assert!(matches!(outcome, Outcome::Degraded(_)));
            assert_eq!(outcome.location(), "https://app/callback");
        }
        other => panic!("unexpected action {:?}", other),
    }
}

#[test]
fn public_consent_failures_before_acceptance_are_surfaced() {
    let payload = FastConsentPayload { consent_challenge: String::from("agree") };
    let (state, action) = public_consent(
        &payload,
        &settings(),
        FastConsent::Fetching,
        FastConsentEvent::ConsentRequestFetched(None),
    );
    assert!(matches!(state, FastConsent::Done));
    assert!(matches!(action, FastConsentAction::Fail(FastConsentError::ConsentRequestFailed)));
    let mut request = consent_request();
    request.subject = Some(String::from("nobody"));
    let (_, action) = public_consent(
        &payload,
        &settings(),
        FastConsent::Fetching,
        FastConsentEvent::ConsentRequestFetched(Some(request)),
    );
    assert!(matches!(action, FastConsentAction::Fail(FastConsentError::WrongSubject)));
    for lookup in [Lookup::Missing, Lookup::Failed] {
        let state = FastConsent::FindingUser { fallback: String::from("https://app/callback") };
        let (_, action) =
            public_consent(&payload, &settings(), state, FastConsentEvent::UserLookedUp(lookup));
        assert!(matches!(action, FastConsentAction::Fail(FastConsentError::UserNotFound)));
    }
    let empty = FastConsentPayload { consent_challenge: String::new() };
    let (_, action) = public_consent(&empty, &settings(), FastConsent::Start, FastConsentEvent::Requested);
    assert!(matches!(action, FastConsentAction::Reject(_)));
    assert_eq!(
        FastConsentError::WrongRedirectUri.message(),
        "consent request returned a wrong redirect_uri"
    );
}

#[test]
fn consent_runs_through() {
    let payload = ConsentPayload { code: String::from("agree") };
    let (state, action) = consent(&payload, &settings(), Consent::Start, ConsentEvent::Submitted);
    assert_eq!(state, Consent::Fetching);
    match action {
        ConsentAction::GetConsentRequest { challenge } => assert_eq!(challenge, "agree"),
        other => panic!("unexpected action {:?}", other),
    }
    let request = ConsentRequest { subject: Some(String::from(SUBJECT)), request_url: None };
    let (state, action) =
        consent(&payload, &settings(), state, ConsentEvent::ConsentRequestFetched(Some(request)));
    assert_eq!(state, Consent::FindingUser);
    match action {
        ConsentAction::FindUser { id } => assert_eq!(id, USER_ID),
        other => panic!("unexpected action {:?}", other),
    }
    let (state, action) = consent(
        &payload,
        &settings(),
        state,
        ConsentEvent::UserLookedUp(Lookup::Found(user_with("x"))),
    );
    assert_eq!(state, Consent::Accepting);
    match action {
        ConsentAction::AcceptConsent { challenge, grant } => {
            assert_eq!(challenge, "agree");
            assert_grant(&grant);
        }
        other => panic!("unexpected action {:?}", other),
    }
    let (state, action) = consent(
        &payload,
        &settings(),
        state,
        ConsentEvent::ConsentAccepted(Some(String::from("https://hydra/next"))),
    );
    assert_eq!(state, Consent::Done);
    match action {
        ConsentAction::Respond { redirect_to } => assert_eq!(redirect_to, "https://hydra/next"),
        other => panic!("unexpected action {:?}", other),
    }
}

#[test]
fn consent_failures_are_surfaced() {
    let payload = ConsentPayload { code: String::from("agree") };
    let fetched = |request| ConsentEvent::ConsentRequestFetched(request);
    let (_, action) = consent(&payload, &settings(), Consent::Fetching, fetched(None));
    assert!(matches!(action, ConsentAction::Fail(ConsentError::ConsentNotFound)));
    let request = ConsentRequest { subject: None, request_url: None };
    let (_, action) = consent(&payload, &settings(), Consent::Fetching, fetched(Some(request)));
    assert!(matches!(action, ConsentAction::Fail(ConsentError::SubjectNotFound)));
    let request = ConsentRequest { subject: Some(String::from("nobody")), request_url: None };
    let (_, action) = consent(&payload, &settings(), Consent::Fetching, fetched(Some(request)));
    assert!(matches!(action, ConsentAction::Fail(ConsentError::WrongSubject)));
    let (_, action) = consent(
        &payload,
        &settings(),
        Consent::FindingUser,
        ConsentEvent::UserLookedUp(Lookup::Failed),
    );
    assert!(matches!(action, ConsentAction::Fail(ConsentError::UserError)));
    let (_, action) = consent(
        &payload,
        &settings(),
        Consent::FindingUser,
        ConsentEvent::UserLookedUp(Lookup::Missing),
    );
    assert!(matches!(action, ConsentAction::Fail(ConsentError::UserNotFound)));
    let (state, action) =
        consent(&payload, &settings(), Consent::Accepting, ConsentEvent::ConsentAccepted(None));
    assert_eq!(state, Consent::Done);
    assert!(matches!(action, ConsentAction::Fail(ConsentError::CouldntAcceptConsent)));
    let (state, action) = subject_parsed(None);
    assert_eq!(state, Consent::Done);
    assert!(matches!(action, ConsentAction::Fail(ConsentError::WrongSubject)));
    let (state, action) = subject_parsed(Some(5));
    assert_eq!(state, Consent::FindingUser);
    assert!(matches!(action, ConsentAction::FindUser { id: 5 }));
}
