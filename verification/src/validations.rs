//! Password policy and per-field request validation.

use vstd::prelude::*;
use vstd::std_specs::iter::IteratorSpec;
use vstd::string::*;

use crate::urls::{is_url, url_shaped};

verus! {

/// Whether `c`, a character beyond ASCII, has the Unicode `Lowercase` property.
pub uninterp spec fn unicode_lowercase(c: char) -> bool;

/// Whether `c`, a character beyond ASCII, has the Unicode `Uppercase` property.
pub uninterp spec fn unicode_uppercase(c: char) -> bool;

/// Whether `c`, a character beyond ASCII, is in one of the Unicode general
/// categories for numbers.
pub uninterp spec fn unicode_numeric(c: char) -> bool;

/// A lowercase letter: within ASCII `a` to `z`, beyond it by Unicode.
pub open spec fn lowercase_char(c: char) -> bool {
    if c <= '\x7f' {
        'a' <= c && c <= 'z'
    } else {
        unicode_lowercase(c)
    }
}

/// An uppercase letter: within ASCII `A` to `Z`, beyond it by Unicode.
pub open spec fn uppercase_char(c: char) -> bool {
    if c <= '\x7f' {
        'A' <= c && c <= 'Z'
    } else {
        unicode_uppercase(c)
    }
}

/// A digit: within ASCII `0` to `9`, beyond it any number by Unicode.
pub open spec fn numeric_char(c: char) -> bool {
    if c <= '\x7f' {
        '0' <= c && c <= '9'
    } else {
        unicode_numeric(c)
    }
}

/// `char::is_lowercase`: within ASCII exactly the letters `a` to `z`, beyond it
/// the Unicode `Lowercase` property.
pub assume_specification[ char::is_lowercase ](c: char) -> (r: bool)
    ensures
        r == if c <= '\x7f' {
            'a' <= c && c <= 'z'
        } else {
            unicode_lowercase(c)
        },
;

/// `char::is_uppercase`: within ASCII exactly the letters `A` to `Z`, beyond it
/// the Unicode `Uppercase` property.
pub assume_specification[ char::is_uppercase ](c: char) -> (r: bool)
    ensures
        r == if c <= '\x7f' {
            'A' <= c && c <= 'Z'
        } else {
            unicode_uppercase(c)
        },
;

/// `char::is_numeric`: within ASCII exactly the digits `0` to `9`, beyond it the
/// Unicode general categories for numbers.
pub assume_specification[ char::is_numeric ](c: char) -> (r: bool)
    ensures
        r == if c <= '\x7f' {
            '0' <= c && c <= '9'
        } else {
            unicode_numeric(c)
        },
;

/// The code of a violated constraint, as reported to the client.
#[derive(Clone, Copy, Debug, PartialEq, Eq, Structural)]
pub enum ViolationCode {
    Length,
    Email,
    Url,
    PasswordTooShort,
    MustContainLowerCasedChars,
    MustContainUpperCasedChars,
    MustContainNumbers,
    TermsNotAccepted,
}

impl ViolationCode {
    /// The code as the client reads it.
    pub open spec fn text(&self) -> Seq<char> {
        match self {
            ViolationCode::Length => "length"@,
            ViolationCode::Email => "email"@,
            ViolationCode::Url => "url"@,
            ViolationCode::PasswordTooShort => "password_too_short"@,
            ViolationCode::MustContainLowerCasedChars => "must_contain_lower_cased_chars"@,
            ViolationCode::MustContainUpperCasedChars => "must_contain_upper_cased_chars"@,
            ViolationCode::MustContainNumbers => "must_contain_numbers"@,
            ViolationCode::TermsNotAccepted => "terms_not_accepted"@,
        }
    }

    pub fn code(&self) -> (r: String)
        ensures
            r@ == self.text(),
    {
        match self {
            ViolationCode::Length => String::from_str("length"),
            ViolationCode::Email => String::from_str("email"),
            ViolationCode::Url => String::from_str("url"),
            ViolationCode::PasswordTooShort => String::from_str("password_too_short"),
            ViolationCode::MustContainLowerCasedChars => String::from_str(
                "must_contain_lower_cased_chars",
            ),
            ViolationCode::MustContainUpperCasedChars => String::from_str(
                "must_contain_upper_cased_chars",
            ),
            ViolationCode::MustContainNumbers => String::from_str("must_contain_numbers"),
            ViolationCode::TermsNotAccepted => String::from_str("terms_not_accepted"),
        }
    }
}

/// The fields of the request payloads that carry a constraint.
#[derive(Clone, Copy, Debug, PartialEq, Eq, Structural)]
pub enum Field {
    InvitationChallenge,
    ClientId,
    Email,
    RedirectUri,
    Password,
    TermsAccepted,
    LoginChallenge,
    Code,
    ConsentChallenge,
    LogoutChallenge,
    Challenge,
}

impl Field {
    /// The name of the field in a violation report.
    pub open spec fn text(&self) -> Seq<char> {
        match self {
            Field::InvitationChallenge => "invitation_challenge"@,
            Field::ClientId => "client_id"@,
            Field::Email => "email"@,
            Field::RedirectUri => "redirect_uri"@,
            Field::Password => "password"@,
            Field::TermsAccepted => "terms_accepted"@,
            Field::LoginChallenge => "login_challenge"@,
            Field::Code => "code"@,
            Field::ConsentChallenge => "consent_challenge"@,
            Field::LogoutChallenge => "logout_challenge"@,
            Field::Challenge => "challenge"@,
        }
    }

    pub fn name(&self) -> (r: String)
        ensures
            r@ == self.text(),
    {
        match self {
            Field::InvitationChallenge => String::from_str("invitation_challenge"),
            Field::ClientId => String::from_str("client_id"),
            Field::Email => String::from_str("email"),
            Field::RedirectUri => String::from_str("redirect_uri"),
            Field::Password => String::from_str("password"),
            Field::TermsAccepted => String::from_str("terms_accepted"),
            Field::LoginChallenge => String::from_str("login_challenge"),
            Field::Code => String::from_str("code"),
            Field::ConsentChallenge => String::from_str("consent_challenge"),
            Field::LogoutChallenge => String::from_str("logout_challenge"),
            Field::Challenge => String::from_str("challenge"),
        }
    }
}

/// One violated constraint: the field and the code of the constraint.
#[derive(Clone, Copy, Debug, PartialEq, Eq, Structural)]
pub struct FieldViolation {
    pub field: Field,
    pub code: ViolationCode,
}

/// Whether `text` has the shape of an email address.
pub uninterp spec fn email_shaped(text: Seq<char>) -> bool;

/// `validator::validate_email`: the HTML5 rule for a valid email address.
#[verifier::external_body]
fn is_email(text: &str) -> (r: bool)
    ensures
        r == email_shaped(text@),
{
    validator::validate_email(text)
}

/// The report that holds `violation` when `violated`, and nothing otherwise.
pub open spec fn report_if(violated: bool, field: Field, code: ViolationCode) -> Seq<
    FieldViolation,
> {
    if violated {
        seq![FieldViolation { field, code }]
    } else {
        Seq::empty()
    }
}

/// The report on a field that must not be empty.
pub open spec fn presence_report(field: Field, value: Seq<char>) -> Seq<FieldViolation> {
    report_if(value.len() < 1, field, ViolationCode::Length)
}

/// The report on a field that must hold an email address.
pub open spec fn email_report(field: Field, value: Seq<char>) -> Seq<FieldViolation> {
    report_if(!email_shaped(value), field, ViolationCode::Email)
}

/// The report on a field that must hold a URL.
pub open spec fn url_report(field: Field, value: Seq<char>) -> Seq<FieldViolation> {
    report_if(!url_shaped(value), field, ViolationCode::Url)
}

/// The report on a field that must satisfy the password policy.
pub open spec fn password_report(field: Field, value: Seq<char>) -> Seq<FieldViolation> {
    match password_violation(value) {
        Some(code) => seq![FieldViolation { field, code }],
        None => Seq::empty(),
    }
}

/// The report on the flag that must record acceptance of the terms.
pub open spec fn terms_report(field: Field, accepted: bool) -> Seq<FieldViolation> {
    report_if(!accepted, field, ViolationCode::TermsNotAccepted)
}

/// Appends to `report` what a field that must not be empty violates.
pub fn check_presence(report: &mut Vec<FieldViolation>, field: Field, value: &str)
    ensures
        final(report)@ == old(report)@ + presence_report(field, value@),
{
    if value.is_empty() {
        report.push(FieldViolation { field, code: ViolationCode::Length });
    }
    assert(report@ =~= old(report)@ + presence_report(field, value@));
}

/// Appends to `report` what a field that must hold an email address violates.
pub fn check_email(report: &mut Vec<FieldViolation>, field: Field, value: &str)
    ensures
        final(report)@ == old(report)@ + email_report(field, value@),
{
    if !is_email(value) {
        report.push(FieldViolation { field, code: ViolationCode::Email });
    }
    assert(report@ =~= old(report)@ + email_report(field, value@));
}

/// Appends to `report` what a field that must hold a URL violates.
pub fn check_url(report: &mut Vec<FieldViolation>, field: Field, value: &str)
    ensures
        final(report)@ == old(report)@ + url_report(field, value@),
{
    if !is_url(value) {
        report.push(FieldViolation { field, code: ViolationCode::Url });
    }
    assert(report@ =~= old(report)@ + url_report(field, value@));
}

/// Appends to `report` the first rule of the password policy that the field violates.
pub fn check_password_policy(report: &mut Vec<FieldViolation>, field: Field, value: &str)
    ensures
        final(report)@ == old(report)@ + password_report(field, value@),
{
    if let Err(code) = validate_password(value) {
        report.push(FieldViolation { field, code });
    }
    assert(report@ =~= old(report)@ + password_report(field, value@));
}

/// Appends to `report` what the terms flag violates.
pub fn check_terms(report: &mut Vec<FieldViolation>, field: Field, accepted: bool)
    ensures
        final(report)@ == old(report)@ + terms_report(field, accepted),
{
    if let Err(code) = validate_terms_accepted(&accepted) {
        report.push(FieldViolation { field, code });
    }
    assert(report@ =~= old(report)@ + terms_report(field, accepted));
}

/// The least number of characters of a password.
pub const MIN_PASSWORD_LENGTH: usize = 8;

/// Whether `s` holds a lowercase letter.
pub open spec fn has_lowercase(s: Seq<char>) -> bool {
    exists|i: int| 0 <= i < s.len() && lowercase_char(#[trigger] s[i])
}

/// Whether `s` holds an uppercase letter.
pub open spec fn has_uppercase(s: Seq<char>) -> bool {
    exists|i: int| 0 <= i < s.len() && uppercase_char(#[trigger] s[i])
}

/// Whether `s` holds a digit.
pub open spec fn has_numeric(s: Seq<char>) -> bool {
    exists|i: int| 0 <= i < s.len() && numeric_char(#[trigger] s[i])
}

/// The first rule of the password policy that `s` violates, if any: length,
/// then lowercase, then uppercase, then digit.
pub open spec fn password_violation(s: Seq<char>) -> Option<ViolationCode> {
    if s.len() < MIN_PASSWORD_LENGTH {
        Some(ViolationCode::PasswordTooShort)
    } else if !has_lowercase(s) {
        Some(ViolationCode::MustContainLowerCasedChars)
    } else if !has_uppercase(s) {
        Some(ViolationCode::MustContainUpperCasedChars)
    } else if !has_numeric(s) {
        Some(ViolationCode::MustContainNumbers)
    } else {
        None
    }
}

/// What a scan of a string has found so far.
struct Scan {
    count: usize,
    lower: bool,
    upper: bool,
    numeric: bool,
}

impl Scan {
    spec fn describes(&self, s: Seq<char>) -> bool {
        &&& self.count == if s.len() < MIN_PASSWORD_LENGTH { s.len() } else { MIN_PASSWORD_LENGTH as nat }
        &&& self.lower == has_lowercase(s)
        &&& self.upper == has_uppercase(s)
        &&& self.numeric == has_numeric(s)
    }
}

fn scan(password: &str) -> (r: Scan)
    ensures
        r.describes(password@),
{
    broadcast use axiom_spec_iter, next_postcondition;
    let mut it = password.chars();
    let mut r = Scan { count: 0, lower: false, upper: false, numeric: false };
    let ghost seen: Seq<char> = Seq::empty();
    loop
        invariant
            it.obeys_prophetic_iter_laws(),
            seen + it.remaining() == password@,
            r.describes(seen),
            it.decrease() is Some,
        decreases it.decrease()->0,
    {
        let ghost before = it.remaining();
        match it.next() {
            None => {
                proof {
                    assert(seen =~= password@);
                }
                return r;
            },
            Some(c) => {
                let ghost next = seen.push(c);
                proof {
                    assert(next + it.remaining() =~= seen + before);
                    assert(forall|i: int| 0 <= i < seen.len() ==> next[i] == seen[i]);
                    assert(next[seen.len() as int] == c);
                    if has_lowercase(seen) {
                        let i = choose|i: int| 0 <= i < seen.len() && lowercase_char(#[trigger] seen[i]);
                        assert(lowercase_char(next[i]));
                    }
                    if has_uppercase(seen) {
                        let i = choose|i: int| 0 <= i < seen.len() && uppercase_char(#[trigger] seen[i]);
                        assert(uppercase_char(next[i]));
                    }
                    if has_numeric(seen) {
                        let i = choose|i: int| 0 <= i < seen.len() && numeric_char(#[trigger] seen[i]);
                        assert(numeric_char(next[i]));
                    }
                }
                if r.count < MIN_PASSWORD_LENGTH {
                    r.count = r.count + 1;
                }
                r.lower = r.lower || c.is_lowercase();
                r.upper = r.upper || c.is_uppercase();
                r.numeric = r.numeric || c.is_numeric();
                proof {
                    seen = next;
                }
            },
        }
    }
}

/// Checks `password` against the password policy: at least eight characters, a
/// lowercase letter, an uppercase letter and a digit. The rules are checked in
/// that order and the first one violated is reported.
pub fn validate_password(password: &str) -> (r: Result<(), ViolationCode>)
    ensures
        r == match password_violation(password@) {
            Some(code) => Err::<(), ViolationCode>(code),
            None => Ok(()),
        },
        r is Ok <==> password@.len() >= 8 && has_lowercase(password@) && has_uppercase(password@)
            && has_numeric(password@),
{
    let found = scan(password);
    if found.count < MIN_PASSWORD_LENGTH {
        Err(ViolationCode::PasswordTooShort)
    } else if !found.lower {
        Err(ViolationCode::MustContainLowerCasedChars)
    } else if !found.upper {
        Err(ViolationCode::MustContainUpperCasedChars)
    } else if !found.numeric {
        Err(ViolationCode::MustContainNumbers)
    } else {
        Ok(())
    }
}

/// Accepts exactly an explicit acceptance of the terms.
pub fn validate_terms_accepted(terms_accepted: &bool) -> (r: Result<(), ViolationCode>)
    ensures
        r == if *terms_accepted {
            Ok::<(), ViolationCode>(())
        } else {
            Err(ViolationCode::TermsNotAccepted)
        },
{
    if !*terms_accepted {
        return Err(ViolationCode::TermsNotAccepted);
    }
    Ok(())
}

/// A password passes the policy exactly when it is long enough and holds a
/// lowercase letter, an uppercase letter and a digit.
pub proof fn password_accepted_iff(s: Seq<char>)
    ensures
        password_violation(s) is None <==> s.len() >= 8 && has_lowercase(s) && has_uppercase(s)
            && has_numeric(s),
        password_violation(s) == Some(ViolationCode::PasswordTooShort) <==> s.len() < 8,
        password_violation(s) == Some(ViolationCode::MustContainLowerCasedChars) <==> s.len() >= 8
            && !has_lowercase(s),
        password_violation(s) == Some(ViolationCode::MustContainUpperCasedChars) <==> s.len() >= 8
            && has_lowercase(s) && !has_uppercase(s),
        password_violation(s) == Some(ViolationCode::MustContainNumbers) <==> s.len() >= 8
            && has_lowercase(s) && has_uppercase(s) && !has_numeric(s),
{
}

} // verus!
