//! Salted, memory-hard password hashing and verification.

use argon2::password_hash::{PasswordHash, PasswordHasher, PasswordVerifier, SaltString};
use argon2::Argon2;
use rand_core::OsRng;
use vstd::prelude::*;

verus! {

/// Whether `stored` is a password hash in the PHC string format.
pub uninterp spec fn phc_well_formed(stored: Seq<char>) -> bool;

/// Whether Argon2 with its default configuration accepts `password` for the
/// password hash `stored`.
pub uninterp spec fn argon2_accepts(password: Seq<char>, stored: Seq<char>) -> bool;

/// `PasswordHash::new`: whether the text parses as a PHC string.
#[verifier::external_body]
pub(crate) fn is_password_hash(stored: &str) -> (r: bool)
    ensures
        r == phc_well_formed(stored@),
{
    PasswordHash::new(stored).is_ok()
}

/// `Argon2::verify_password` on the hash that `PasswordHash::new` reads from
/// `stored`; text that is no PHC string is accepted for no password.
#[verifier::external_body]
pub(crate) fn verify(password: &str, stored: &str) -> (r: bool)
    ensures
        r == argon2_accepts(password@, stored@),
        r ==> phc_well_formed(stored@),
{
    match PasswordHash::new(stored) {
        Ok(hash) => Argon2::default().verify_password(password.as_bytes(), &hash).is_ok(),
        Err(_) => false,
    }
}

/// `Argon2::hash_password` under a salt freshly drawn by `SaltString::generate`
/// from the operating system's generator. The outcome differs from call to
/// call; whenever there is one, it is a PHC string that verifies for `password`.
#[verifier::external_body]
pub(crate) fn hash(password: &str) -> (r: Option<String>)
    ensures
        r matches Some(stored) ==> phc_well_formed(stored@) && argon2_accepts(password@, stored@),
{
    let salt = SaltString::generate(&mut OsRng);
    Argon2::default().hash_password(password.as_bytes(), &salt).ok().map(|h| h.to_string())
}

/// What a check of a password against a stored hash found.
#[derive(Clone, Copy, Debug, PartialEq, Eq, Structural)]
pub enum PasswordCheck {
    Matches,
    Mismatch,
    MalformedHash,
}

/// The outcome owed for `password` against `stored`.
pub open spec fn password_check(password: Seq<char>, stored: Seq<char>) -> PasswordCheck {
    if !phc_well_formed(stored) {
        PasswordCheck::MalformedHash
    } else if argon2_accepts(password, stored) {
        PasswordCheck::Matches
    } else {
        PasswordCheck::Mismatch
    }
}

/// Verifies `password` against the stored hash; a malformed stored hash is told
/// apart from a wrong password.
pub fn check_password(password: &str, stored: &str) -> (r: PasswordCheck)
    ensures
        r == password_check(password@, stored@),
{
    if !is_password_hash(stored) {
        PasswordCheck::MalformedHash
    } else if verify(password, stored) {
        PasswordCheck::Matches
    } else {
        PasswordCheck::Mismatch
    }
}

} // verus!
