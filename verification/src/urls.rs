//! URLs: parsing, query parameters and the authorization request URL.

use oauth2::basic::BasicClient;
use oauth2::{AuthUrl, ClientId, CsrfToken, RedirectUrl};
use url::Url;
use vstd::prelude::*;
use vstd::string::*;

verus! {

/// The view of a list of name/value pairs.
pub open spec fn pairs_view(pairs: Seq<(String, String)>) -> Seq<(Seq<char>, Seq<char>)> {
    pairs.map_values(|p: (String, String)| (p.0@, p.1@))
}

/// The view of an optional string.
pub open spec fn text_view(text: Option<String>) -> Option<Seq<char>> {
    match text {
        Some(s) => Some(s@),
        None => None,
    }
}

/// Whether `text` parses as an absolute URL.
pub uninterp spec fn url_shaped(text: Seq<char>) -> bool;

/// The serialization of the URL `base` after `params` have been appended to its
/// query string, form-urlencoded and in order.
pub uninterp spec fn url_with_params(base: Seq<char>, params: Seq<(Seq<char>, Seq<char>)>) -> Option<
    Seq<char>,
>;

/// The decoded name/value pairs of the query string of the URL `text`, in order.
pub uninterp spec fn url_query_pairs(text: Seq<char>) -> Option<Seq<(Seq<char>, Seq<char>)>>;

/// The authorization-code request URL of an OAuth2 client.
pub uninterp spec fn authorization_url(
    client_id: Seq<char>,
    auth_url: Seq<char>,
    redirect_url: Seq<char>,
    state: Seq<char>,
) -> Option<Seq<char>>;

/// `validator::validate_url`: whether the text parses with `Url::parse`.
#[verifier::external_body]
pub(crate) fn is_url(text: &str) -> (r: bool)
    ensures
        r == url_shaped(text@),
{
    validator::validate_url(text)
}

/// `Url::parse_with_params`: parses `base` and appends `params` to its query.
/// It fails exactly when `base` does not parse; otherwise the result is the
/// serialization of the extended URL.
#[verifier::external_body]
pub(crate) fn parse_with_params(base: &str, params: &Vec<(String, String)>) -> (r: Option<String>)
    ensures
        text_view(r) == url_with_params(base@, pairs_view(params@)),
        r is Some <==> url_shaped(base@),
{
    Url::parse_with_params(base, params).ok().map(String::from)
}

/// `Url::query_pairs` on the URL that `Url::parse` gives for `text`: the decoded
/// pairs of the query string in order, or nothing when `text` does not parse.
#[verifier::external_body]
pub(crate) fn query_pairs(text: &str) -> (r: Option<Vec<(String, String)>>)
    ensures
        match r {
            Some(pairs) => url_query_pairs(text@) == Some(pairs_view(pairs@)),
            None => url_query_pairs(text@) is None,
        },
        r is Some <==> url_shaped(text@),
{
    let url = Url::parse(text).ok()?;
    Some(url.query_pairs().map(|(name, value)| (name.into_owned(), value.into_owned())).collect())
}

/// `oauth2::Client::authorize_url` followed by `AuthorizationRequest::url`, on a
/// client made of the given id, authorization endpoint and redirect URL. It
/// fails when one of the two URLs does not parse.
#[verifier::external_body]
pub(crate) fn authorize_url(client_id: &str, auth_url: &str, redirect_url: &str, state: &str) -> (r:
    Option<String>)
    ensures
        text_view(r) == authorization_url(client_id@, auth_url@, redirect_url@, state@),
{
    let auth = AuthUrl::new(auth_url.to_string()).ok()?;
    let redirect = RedirectUrl::new(redirect_url.to_string()).ok()?;
    let client = BasicClient::new(ClientId::new(client_id.to_string()), None, auth, None)
        .set_redirect_uri(redirect);
    let token = CsrfToken::new(state.to_string());
    let (url, _) = client.authorize_url(move || token).url();
    Some(String::from(url))
}

/// The value of the first pair from index `from` on whose name is `name`.
pub open spec fn first_value_from(
    pairs: Seq<(Seq<char>, Seq<char>)>,
    name: Seq<char>,
    from: int,
) -> Option<Seq<char>>
    decreases pairs.len() - from,
{
    if from < 0 || from >= pairs.len() {
        None
    } else if pairs[from].0 == name {
        Some(pairs[from].1)
    } else {
        first_value_from(pairs, name, from + 1)
    }
}

/// The value of the first pair named `name`.
pub open spec fn first_value(pairs: Seq<(Seq<char>, Seq<char>)>, name: Seq<char>) -> Option<
    Seq<char>,
> {
    first_value_from(pairs, name, 0)
}

/// The value of the query parameter `name` of the URL `text`: that of its first
/// occurrence.
pub open spec fn query_param(text: Seq<char>, name: Seq<char>) -> Option<Seq<char>> {
    match url_query_pairs(text) {
        Some(pairs) => first_value(pairs, name),
        None => None,
    }
}

/// Finds the value of the first pair named `name`.
pub fn find_value(pairs: &Vec<(String, String)>, name: &str) -> (r: Option<String>)
    ensures
        text_view(r) == first_value(pairs_view(pairs@), name@),
{
    let wanted = String::from_str(name);
    let ghost all = pairs_view(pairs@);
    let mut i: usize = 0;
    while i < pairs.len()
        invariant
            i <= pairs.len(),
            wanted@ == name@,
            all == pairs_view(pairs@),
            first_value(all, name@) == first_value_from(all, name@, i as int),
        decreases pairs.len() - i,
    {
        assert(all[i as int] == (pairs@[i as int].0@, pairs@[i as int].1@));
        if pairs[i].0 == wanted {
            return Some(pairs[i].1.clone());
        }
        i = i + 1;
    }
    None
}

/// The `redirect_uri` query parameter of a request URL.
pub open spec fn redirect_uri_of(request_url: Seq<char>) -> Option<Seq<char>> {
    query_param(request_url, "redirect_uri"@)
}

} // verus!
