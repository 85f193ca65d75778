//! The login page, and the two ways around it: the start of an authorization
//! request when there is no challenge, and the acceptance of a login for which
//! a session exists already.

use vstd::prelude::*;
use vstd::string::*;

use crate::errors::ErrorKind;
use crate::authorization::{LoginRequest, Outcome};
use crate::config::Settings;
use crate::identifiers::{is_token, random_token};
use crate::urls::{
    authorization_url, authorize_url, find_value, first_value, pairs_view, query_pairs,
    redirect_uri_of, text_view, url_query_pairs,
};
use crate::validations::{check_presence, presence_report, Field, FieldViolation};
use crate::views::HtmlTemplate;

verus! {

#[derive(Clone, Debug)]
pub struct LoginTemplate {
    pub login_challenge: String,
}

#[derive(Clone, Copy, Debug, PartialEq, Eq, Structural)]
pub enum LoginError {
    WrongChallenge,
    WrongRequestUrl,
    WrongRedirectUri,
    /// The configured authorization endpoint or redirect URL is no URL.
    WrongClientSettings,
}

impl LoginError {
    /// The kind of the failure.
    pub open spec fn kind_of(&self) -> ErrorKind {
        match self {
            LoginError::WrongChallenge => ErrorKind::NotFound,
            LoginError::WrongRequestUrl => ErrorKind::Validation,
            LoginError::WrongRedirectUri => ErrorKind::Validation,
            LoginError::WrongClientSettings => ErrorKind::Internal,
        }
    }

    pub fn kind(&self) -> (r: ErrorKind)
        ensures
            r == self.kind_of(),
    {
        match self {
            LoginError::WrongChallenge => ErrorKind::NotFound,
            LoginError::WrongRequestUrl => ErrorKind::Validation,
            LoginError::WrongRedirectUri => ErrorKind::Validation,
            LoginError::WrongClientSettings => ErrorKind::Internal,
        }
    }

    pub open spec fn text(&self) -> Seq<char> {
        match self {
            LoginError::WrongChallenge => "wrong login_challenge argument"@,
            LoginError::WrongRequestUrl => "login request returned a wrong request_url"@,
            LoginError::WrongRedirectUri => "login request returned a wrong redirect_uri"@,
            LoginError::WrongClientSettings => "wrong client settings"@,
        }
    }

    pub fn message(&self) -> (r: String)
        ensures
            r@ == self.text(),
    {
        match self {
            LoginError::WrongChallenge => String::from_str("wrong login_challenge argument"),
            LoginError::WrongRequestUrl => String::from_str(
                "login request returned a wrong request_url",
            ),
            LoginError::WrongRedirectUri => String::from_str(
                "login request returned a wrong redirect_uri",
            ),
            LoginError::WrongClientSettings => String::from_str("wrong client settings"),
        }
    }
}

#[derive(Clone, Debug)]
pub struct LoginPayload {
    pub login_challenge: Option<String>,
}

impl LoginPayload {
    /// A challenge need not be there, but one that is there must not be empty.
    pub open spec fn violations(&self) -> Seq<FieldViolation> {
        match self.login_challenge {
            Some(challenge) => presence_report(Field::LoginChallenge, challenge@),
            None => Seq::empty(),
        }
    }

    pub fn validate(&self) -> (r: Vec<FieldViolation>)
        ensures
            r@ == self.violations(),
    {
        let mut report = Vec::new();
        if let Some(challenge) = &self.login_challenge {
            check_presence(&mut report, Field::LoginChallenge, challenge.as_str());
        }
        assert(report@ =~= self.violations());
        report
    }
}

/// Where the request for the login page stands.
#[derive(Clone, Debug)]
pub enum LoginPage {
    Start,
    /// The authorization server has been asked for the login request.
    Fetching { challenge: String },
    /// The authorization server has been asked to accept the login; the state
    /// keeps the redirect URI of the authorization request that began the flow.
    Accepting { fallback: String },
    Done,
}

impl LoginPage {
    /// How far the flow has come.
    pub open spec fn stage(&self) -> nat {
        match self {
            LoginPage::Start => 0,
            LoginPage::Fetching { .. } => 1,
            LoginPage::Accepting { .. } => 2,
            LoginPage::Done => 3,
        }
    }
}

#[derive(Clone, Debug)]
pub enum LoginPageEvent {
    Requested,
    /// The login request, if the authorization server knows it.
    LoginRequestFetched(Option<LoginRequest>),
    /// The continuation URL, if the authorization server accepted.
    LoginAccepted(Option<String>),
}

#[derive(Clone, Debug)]
pub enum LoginPageAction {
    Reject(Vec<FieldViolation>),
    /// Send the browser to the authorization server to start a request.
    Authorize { location: String },
    GetLoginRequest { challenge: String },
    AcceptLogin { challenge: String, subject: String, remember: bool },
    Render(HtmlTemplate<'static, LoginTemplate>),
    Redirect(Outcome),
    Fail(LoginError),
    Ignored,
}

/// Whether the flow ends with the error `error`.
pub open spec fn login_page_fails(next: LoginPage, action: LoginPageAction, error: LoginError) -> bool {
    next is Done && action == LoginPageAction::Fail(error)
}

/// The redirect to the authorization URL `built`, or `WrongClientSettings`
/// when none could be built.
pub open spec fn authorization_step(
    built: Option<Seq<char>>,
    next: LoginPage,
    action: LoginPageAction,
) -> bool {
    match built {
        Some(url) => {
            &&& next is Done
            &&& action matches LoginPageAction::Authorize { location }
            &&& location@ == url
        },
        None => login_page_fails(next, action, LoginError::WrongClientSettings),
    }
}

/// The step that follows the building of the authorization URL.
pub fn authorization_built(built: Option<String>) -> (r: (LoginPage, LoginPageAction))
    ensures
        authorization_step(text_view(built), r.0, r.1),
{
    match built {
        Some(location) => (LoginPage::Done, LoginPageAction::Authorize { location }),
        None => (LoginPage::Done, LoginPageAction::Fail(LoginError::WrongClientSettings)),
    }
}

/// What follows the reading of a login request whose URL has the query pairs
/// `query`: the URL must have parsed and carry a `redirect_uri` parameter; then
/// a login with a session is accepted for its subject, remembered, and any
/// other is sent to the login page.
pub open spec fn login_request_step(
    challenge: Seq<char>,
    request: LoginRequest,
    query: Option<Seq<(Seq<char>, Seq<char>)>>,
    next: LoginPage,
    action: LoginPageAction,
) -> bool {
    match query {
        None => login_page_fails(next, action, LoginError::WrongRequestUrl),
        Some(pairs) => match first_value(pairs, "redirect_uri"@) {
            None => login_page_fails(next, action, LoginError::WrongRedirectUri),
            Some(uri) => {
                if request.skip {
                    &&& next matches LoginPage::Accepting { fallback }
                    &&& fallback@ == uri
                    &&& action matches LoginPageAction::AcceptLogin {
                        challenge: sent,
                        subject,
                        remember,
                    }
                    &&& sent@ == challenge
                    &&& subject@ == request.subject@
                    &&& remember
                } else {
                    &&& next is Done
                    &&& action matches LoginPageAction::Render(page)
                    &&& page.filepath@ == "login.html"@
                    &&& page.template.login_challenge@ == challenge
                }
            },
        },
    }
}

/// The view of the query pairs of a URL, if it parsed.
pub open spec fn query_view(query: Option<Vec<(String, String)>>) -> Option<
    Seq<(Seq<char>, Seq<char>)>,
> {
    match query {
        Some(pairs) => Some(pairs_view(pairs@)),
        None => None,
    }
}

/// The step that follows the reading of a login request.
pub fn login_request_read(
    challenge: String,
    request: LoginRequest,
    query: Option<Vec<(String, String)>>,
) -> (r: (LoginPage, LoginPageAction))
    ensures
        login_request_step(challenge@, request, query_view(query), r.0, r.1),
{
    match query {
        None => (LoginPage::Done, LoginPageAction::Fail(LoginError::WrongRequestUrl)),
        Some(pairs) => match find_value(&pairs, "redirect_uri") {
            None => (LoginPage::Done, LoginPageAction::Fail(LoginError::WrongRedirectUri)),
            Some(fallback) => {
                if request.skip {
                    (
                        LoginPage::Accepting { fallback },
                        LoginPageAction::AcceptLogin {
                            challenge,
                            subject: request.subject,
                            remember: true,
                        },
                    )
                } else {
                    let template = LoginTemplate { login_challenge: challenge };
                    (
                        LoginPage::Done,
                        LoginPageAction::Render(HtmlTemplate::new("login.html", template)),
                    )
                }
            },
        },
    }
}

/// The start of an authorization request under the anti-forgery value `state`:
/// a redirect to the authorization URL of the configured client.
pub open spec fn authorization_started(
    settings: &Settings,
    state: Seq<char>,
    next: LoginPage,
    action: LoginPageAction,
) -> bool {
    authorization_step(
        authorization_url(settings.client_id@, settings.auth_url(), settings.redirect_url@, state),
        next,
        action,
    )
}

/// Starts an authorization request under the anti-forgery value `state`.
pub fn start_authorization(settings: &Settings, state: &str) -> (r: (LoginPage, LoginPageAction))
    ensures
        authorization_started(settings, state@, r.0, r.1),
{
    let auth_url = settings.hydra_public_auth_url();
    authorization_built(
        authorize_url(
            settings.client_id.as_str(),
            auth_url.as_str(),
            settings.redirect_url.as_str(),
            state,
        ),
    )
}

/// The steps to the login page.
///
/// Without a challenge, an authorization request is started under a fresh
/// random anti-forgery value. With one, the login request is fetched; its URL
/// must parse and carry a `redirect_uri` parameter. If a session exists the
/// login is accepted for its subject, remembered, and the browser is redirected
/// whatever the authorization server answers; otherwise the page is rendered.
pub open spec fn login_page_step(
    payload: &LoginPayload,
    settings: &Settings,
    state: LoginPage,
    event: LoginPageEvent,
    next: LoginPage,
    action: LoginPageAction,
) -> bool {
    match (state, event) {
        (LoginPage::Start, LoginPageEvent::Requested) => {
            if payload.violations().len() > 0 {
                &&& next is Done
                &&& action matches LoginPageAction::Reject(report)
                &&& report@ == payload.violations()
            } else {
                match payload.login_challenge {
                    None => exists|token: Seq<char>|
                        is_token(token) && #[trigger] authorization_started(
                            settings,
                            token,
                            next,
                            action,
                        ),
                    Some(challenge) => {
                        &&& next matches LoginPage::Fetching { challenge: kept }
                        &&& kept@ == challenge@
                        &&& action matches LoginPageAction::GetLoginRequest { challenge: sent }
                        &&& sent@ == challenge@
                    },
                }
            }
        },
        (LoginPage::Fetching { challenge }, LoginPageEvent::LoginRequestFetched(fetched)) => {
            match fetched {
                None => login_page_fails(next, action, LoginError::WrongChallenge),
                Some(request) => login_request_step(
                    challenge@,
                    request,
                    url_query_pairs(request.request_url@),
                    next,
                    action,
                ),
            }
        },
        (LoginPage::Accepting { fallback }, LoginPageEvent::LoginAccepted(accepted)) => {
            &&& next is Done
            &&& action matches LoginPageAction::Redirect(outcome)
            &&& outcome.settled(accepted, fallback@)
        },
        _ => next == state && action is Ignored,
    }
}

/// The login page: one step of the flow.
pub fn login(payload: &LoginPayload, settings: &Settings, state: LoginPage, event: LoginPageEvent) -> (r:
    (LoginPage, LoginPageAction))
    ensures
        login_page_step(payload, settings, state, event, r.0, r.1),
{
    match (state, event) {
        (LoginPage::Start, LoginPageEvent::Requested) => {
            let report = payload.validate();
            if report.len() > 0 {
                (LoginPage::Done, LoginPageAction::Reject(report))
            } else {
                match &payload.login_challenge {
                    None => {
                        let token = random_token();
                        let r = start_authorization(settings, token.as_str());
                        assert(authorization_started(settings, token@, r.0, r.1));
                        r
                    },
                    Some(challenge) => (
                        LoginPage::Fetching { challenge: challenge.clone() },
                        LoginPageAction::GetLoginRequest { challenge: challenge.clone() },
                    ),
                }
            }
        },
        (LoginPage::Fetching { challenge }, LoginPageEvent::LoginRequestFetched(fetched)) => {
            match fetched {
                None => (LoginPage::Done, LoginPageAction::Fail(LoginError::WrongChallenge)),
                Some(request) => {
                    let query = query_pairs(request.request_url.as_str());
                    login_request_read(challenge, request, query)
                },
            }
        },
        (LoginPage::Accepting { fallback }, LoginPageEvent::LoginAccepted(accepted)) => {
            (LoginPage::Done, LoginPageAction::Redirect(Outcome::settle(accepted, fallback)))
        },
        (state, _) => (state, LoginPageAction::Ignored),
    }
}

/// Every step that is not ignored moves the flow forward: nothing is asked for
/// twice, and the flow is over after at most 3 steps.
pub proof fn login_page_advances(
    payload: &LoginPayload,
    settings: &Settings,
    state: LoginPage,
    event: LoginPageEvent,
    next: LoginPage,
    action: LoginPageAction,
)
    requires
        login_page_step(payload, settings, state, event, next, action),
    ensures
        action is Ignored || next.stage() > state.stage(),
        action is Ignored ==> next == state,
        state is Done ==> action is Ignored,
{
}

/// A request without a challenge is answered with a redirect to the
/// authorization URL of the configured client under a twelve-character
/// alphanumeric anti-forgery value, provided the settings hold URLs.
pub proof fn missing_challenge_starts_authorization(
    payload: &LoginPayload,
    settings: &Settings,
    next: LoginPage,
    action: LoginPageAction,
)
    requires
        payload.login_challenge is None,
        login_page_step(payload, settings, LoginPage::Start, LoginPageEvent::Requested, next, action),
        !(action is Fail),
    ensures
        next is Done,
        action matches LoginPageAction::Authorize { location } && exists|token: Seq<char>|
            is_token(token) && Some(location@) == #[trigger] authorization_url(
                settings.client_id@,
                settings.auth_url(),
                settings.redirect_url@,
                token,
            ),
{
    let token = choose|token: Seq<char>|
        is_token(token) && #[trigger] authorization_started(settings, token, next, action);
    assert(Some(action->Authorize_location@) == authorization_url(
        settings.client_id@,
        settings.auth_url(),
        settings.redirect_url@,
        token,
    ));
}

/// When the acceptance of a skipped login fails, the browser is sent to the
/// `redirect_uri` parameter of the URL of the authorization request that began
/// the flow.
pub proof fn failed_skip_falls_back(
    payload: &LoginPayload,
    settings: &Settings,
    challenge: String,
    request: LoginRequest,
    s1: LoginPage,
    a1: LoginPageAction,
    s2: LoginPage,
    a2: LoginPageAction,
)
    requires
        request.skip,
        login_page_step(
            payload,
            settings,
            LoginPage::Fetching { challenge },
            LoginPageEvent::LoginRequestFetched(Some(request)),
            s1,
            a1,
        ),
        a1 is AcceptLogin,
        login_page_step(payload, settings, s1, LoginPageEvent::LoginAccepted(None), s2, a2),
    ensures
        s2 is Done,
        a2 matches LoginPageAction::Redirect(Outcome::Degraded(to)) && Some(to@) == redirect_uri_of(
            request.request_url@,
        ),
{
}

} // verus!
