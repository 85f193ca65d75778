//! User identifiers and random alphanumeric tokens.

use rand::distributions::Alphanumeric;
use rand::Rng;
use uuid::Uuid;
use vstd::prelude::*;

verus! {

/// The 128-bit value of the UUID that `text` denotes, if it denotes one.
pub uninterp spec fn parsed_uuid(text: Seq<char>) -> Option<u128>;

/// The hyphenated lowercase text of the UUID with the 128-bit value `id`.
pub uninterp spec fn uuid_text(id: u128) -> Seq<char>;

/// `Uuid::parse_str`, with the UUID given by its 128-bit value.
#[verifier::external_body]
pub(crate) fn parse_uuid(text: &str) -> (r: Option<u128>)
    ensures
        r == parsed_uuid(text@),
{
    Uuid::parse_str(text).ok().map(|id| id.as_u128())
}

/// The `Display` form of `Uuid::from_u128(id)`: its hyphenated text, which
/// `Uuid::parse_str` reads back as the same UUID.
#[verifier::external_body]
pub(crate) fn uuid_to_string(id: u128) -> (r: String)
    ensures
        r@ == uuid_text(id),
        parsed_uuid(r@) == Some(id),
{
    Uuid::from_u128(id).to_string()
}

/// `String::push` appends one character.
pub assume_specification[ String::push ](s: &mut String, c: char)
    ensures
        final(s)@ == old(s)@.push(c),
;

/// ASCII letters and digits.
pub open spec fn is_alphanumeric(c: char) -> bool {
    ||| 'a' <= c <= 'z'
    ||| 'A' <= c <= 'Z'
    ||| '0' <= c <= '9'
}

/// One sample of `rand::distributions::Alphanumeric` from the thread's
/// generator: the byte of an ASCII letter or digit.
#[verifier::external_body]
fn sample_alphanumeric() -> (r: u8)
    ensures
        is_alphanumeric(r as char),
{
    rand::thread_rng().sample(Alphanumeric)
}

/// The length of invitation codes and anti-forgery state values.
pub const TOKEN_LENGTH: usize = 12;

/// Whether `s` has the shape of a token: twelve ASCII letters and digits.
pub open spec fn is_token(s: Seq<char>) -> bool {
    &&& s.len() == TOKEN_LENGTH
    &&& forall|i: int| 0 <= i < s.len() ==> is_alphanumeric(#[trigger] s[i])
}

/// Draws a fresh random token.
pub fn random_token() -> (r: String)
    ensures
        is_token(r@),
{
    let mut token = String::new();
    let mut i: usize = 0;
    while i < TOKEN_LENGTH
        invariant
            i <= TOKEN_LENGTH,
            token@.len() == i,
            forall|j: int| 0 <= j < token@.len() ==> is_alphanumeric(#[trigger] token@[j]),
        decreases TOKEN_LENGTH - i,
    {
        let byte = sample_alphanumeric();
        token.push(byte as char);
        i = i + 1;
    }
    token
}

} // verus!
