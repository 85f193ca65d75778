//! Fixed parameters of the deployment and the settings read at startup.

use vstd::prelude::*;
use vstd::string::*;

verus! {

/// The views of a list of strings.
pub open spec fn texts(list: Seq<String>) -> Seq<Seq<char>> {
    list.map_values(|s: String| s@)
}

/// The scopes requested for the client and granted on consent.
pub open spec fn scopes() -> Seq<Seq<char>> {
    seq!["openid"@, "offline_access"@, "email"@, "profile"@]
}

/// The grant types the client is registered with.
pub open spec fn grant_types() -> Seq<Seq<char>> {
    seq!["authorization_code"@, "refresh_token"@]
}

/// The response types the client is registered with.
pub open spec fn response_types() -> Seq<Seq<char>> {
    seq!["token"@, "code"@, "id_token"@]
}

/// The HTTP methods allowed across origins.
pub open spec fn allowed_methods() -> Seq<Seq<char>> {
    seq!["GET"@, "POST"@, "PUT"@]
}

/// The scopes, as owned strings.
pub fn hydra_scopes() -> (r: Vec<String>)
    ensures
        texts(r@) == scopes(),
{
    let mut r: Vec<String> = Vec::new();
    r.push(String::from_str("openid"));
    r.push(String::from_str("offline_access"));
    r.push(String::from_str("email"));
    r.push(String::from_str("profile"));
    assert(texts(r@) =~= scopes());
    r
}

/// The grant types, as owned strings.
pub fn hydra_grant_types() -> (r: Vec<String>)
    ensures
        texts(r@) == grant_types(),
{
    let mut r: Vec<String> = Vec::new();
    r.push(String::from_str("authorization_code"));
    r.push(String::from_str("refresh_token"));
    assert(texts(r@) =~= grant_types());
    r
}

/// The response types, as owned strings.
pub fn hydra_response_types() -> (r: Vec<String>)
    ensures
        texts(r@) == response_types(),
{
    let mut r: Vec<String> = Vec::new();
    r.push(String::from_str("token"));
    r.push(String::from_str("code"));
    r.push(String::from_str("id_token"));
    assert(texts(r@) =~= response_types());
    r
}

/// The allowed methods, as owned strings.
pub fn cors_allowed_methods() -> (r: Vec<String>)
    ensures
        texts(r@) == allowed_methods(),
{
    let mut r: Vec<String> = Vec::new();
    r.push(String::from_str("GET"));
    r.push(String::from_str("POST"));
    r.push(String::from_str("PUT"));
    assert(texts(r@) =~= allowed_methods());
    r
}

/// The first `n` of `parts`, joined by `separator`.
pub open spec fn joined_prefix(parts: Seq<Seq<char>>, separator: Seq<char>, n: nat) -> Seq<char>
    decreases n,
{
    if n == 0 {
        Seq::empty()
    } else if n == 1 {
        parts[0]
    } else {
        joined_prefix(parts, separator, (n - 1) as nat) + separator + parts[n - 1]
    }
}

/// `parts` joined by `separator`.
pub open spec fn joined(parts: Seq<Seq<char>>, separator: Seq<char>) -> Seq<char> {
    joined_prefix(parts, separator, parts.len())
}

/// Joins `parts`, putting `separator` between each two.
pub fn join(parts: &Vec<String>, separator: &str) -> (r: String)
    ensures
        r@ == joined(texts(parts@), separator@),
{
    let mut r = String::new();
    let mut i: usize = 0;
    while i < parts.len()
        invariant
            i <= parts.len(),
            r@ == joined_prefix(texts(parts@), separator@, i as nat),
        decreases parts.len() - i,
    {
        assert(texts(parts@)[i as int] == parts@[i as int]@);
        if i > 0 {
            r.append(separator);
        } else {
            assert(Seq::<char>::empty() + parts@[0]@ =~= parts@[0]@);
        }
        r.append(parts[i].as_str());
        i = i + 1;
    }
    r
}

/// The settings of one deployment.
#[derive(Clone, Debug)]
pub struct Settings {
    pub port: u32,
    pub url: String,
    pub database_url: String,
    pub access_token_audience: String,
    pub client_id: String,
    pub client_secret: String,
    pub redirect_url: String,
    pub hydra_admin_api_url: String,
    pub hydra_public_api_url: String,
    pub static_path: String,
    pub templates_path: String,
}

impl Settings {
    /// The authorization endpoint of the authorization server.
    pub open spec fn auth_url(&self) -> Seq<char> {
        self.hydra_public_api_url@ + "/oauth2/auth"@
    }

    /// The token endpoint of the authorization server.
    pub open spec fn token_url(&self) -> Seq<char> {
        self.hydra_public_api_url@ + "/oauth2/token"@
    }

    pub fn hydra_public_auth_url(&self) -> (r: String)
        ensures
            r@ == self.auth_url(),
    {
        self.hydra_public_api_url.clone().concat("/oauth2/auth")
    }

    pub fn hydra_public_token_url(&self) -> (r: String)
        ensures
            r@ == self.token_url(),
    {
        self.hydra_public_api_url.clone().concat("/oauth2/token")
    }
}

/// The registration of an OAuth2 client with the authorization server.
#[derive(Clone, Debug)]
pub struct ClientRegistration {
    pub audience: Vec<String>,
    pub grant_types: Vec<String>,
    pub client_id: String,
    pub client_name: String,
    pub client_secret: String,
    pub redirect_uris: Vec<String>,
    pub response_types: Vec<String>,
    pub scope: String,
}

impl ClientRegistration {
    /// Whether this is the registration of the client `name` under `settings`:
    /// named and identified by `name`, with the configured secret, audience and
    /// redirect URL, and the fixed grant types, response types and scopes.
    pub open spec fn registers(&self, name: Seq<char>, settings: &Settings) -> bool {
        &&& texts(self.audience@) == seq![settings.access_token_audience@]
        &&& texts(self.grant_types@) == grant_types()
        &&& self.client_id@ == name
        &&& self.client_name@ == name
        &&& self.client_secret@ == settings.client_secret@
        &&& texts(self.redirect_uris@) == seq![settings.redirect_url@]
        &&& texts(self.response_types@) == response_types()
        &&& self.scope@ == joined(scopes(), " "@)
    }
}

/// The registration of the client `client_name`, to be sent to the
/// authorization server and mirrored in the local store.
pub fn client_registration(client_name: &str, settings: &Settings) -> (r: ClientRegistration)
    ensures
        r.registers(client_name@, settings),
{
    let mut audience: Vec<String> = Vec::new();
    audience.push(settings.access_token_audience.clone());
    assert(texts(audience@) =~= seq![settings.access_token_audience@]);
    let mut redirect_uris: Vec<String> = Vec::new();
    redirect_uris.push(settings.redirect_url.clone());
    assert(texts(redirect_uris@) =~= seq![settings.redirect_url@]);
    let scope = join(&hydra_scopes(), " ");
    ClientRegistration {
        audience,
        grant_types: hydra_grant_types(),
        client_id: String::from_str(client_name),
        client_name: String::from_str(client_name),
        client_secret: settings.client_secret.clone(),
        redirect_uris,
        response_types: hydra_response_types(),
        scope,
    }
}

} // verus!
