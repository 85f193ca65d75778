use zagreus::api::invitation::{CompleteInvitationPayload, CreateInvitationPayload};
use zagreus::api::login::LoginPayload;
use zagreus::validations::{
    validate_password, validate_terms_accepted, Field, FieldViolation, ViolationCode,
};

fn code_of(result: Result<(), ViolationCode>) -> Result<(), String> {
    result.map_err(|violation| violation.code())
}

#[test]
fn it_validates_terms_accepted() {
    assert_eq!(code_of(validate_terms_accepted(&true)), Ok(()));
    assert_eq!(
        code_of(validate_terms_accepted(&false)),
        Err(String::from("terms_not_accepted"))
    );
}

#[test]
fn it_validates_password() {
    assert_eq!(code_of(validate_password("Val1d_passw0rd")), Ok(()));
    assert_eq!(
        code_of(validate_password("1nVal1d")),
        Err(String::from("password_too_short"))
    );
    assert_eq!(
        code_of(validate_password("L00DPASSW0RD")),
        Err(String::from("must_contain_lower_cased_chars"))
    );
    assert_eq!(
        code_of(validate_password("s1lentpassw0rd")),
        Err(String::from("must_contain_upper_cased_chars"))
    );
    assert_eq!(
        code_of(validate_password("Boringpassword")),
        Err(String::from("must_contain_numbers"))
    );
}

#[test]
fn password_rules_are_checked_in_order() {
    assert_eq!(validate_password(""), Err(ViolationCode::PasswordTooShort));
    assert_eq!(validate_password("abc"), Err(ViolationCode::PasswordTooShort));
    assert_eq!(validate_password("--------"), Err(ViolationCode::MustContainLowerCasedChars));
    assert_eq!(validate_password("12345678"), Err(ViolationCode::MustContainLowerCasedChars));
    assert_eq!(validate_password("abcdefgh"), Err(ViolationCode::MustContainUpperCasedChars));
    assert_eq!(validate_password("abcdefgH"), Err(ViolationCode::MustContainNumbers));
    assert_eq!(validate_password("abcdefG1"), Ok(()));
}

#[test]
fn password_of_exactly_eight_characters_passes() {
    assert_eq!(validate_password("aB345678"), Ok(()));
    assert_eq!(validate_password("aB34567"), Err(ViolationCode::PasswordTooShort));
}

#[test]
fn password_length_counts_characters() {
    assert_eq!(validate_password("éÉ1éÉ1é"), Err(ViolationCode::PasswordTooShort));
    assert_eq!(validate_password("éÉ1éÉ1éÉ"), Ok(()));
}

#[test]
fn password_letters_and_digits_need_not_be_ascii() {
    assert_eq!(validate_password("ßßßßΣΣΣΣ٣"), Ok(()));
    assert_eq!(validate_password("ßßßßΣΣΣΣ-"), Err(ViolationCode::MustContainNumbers));
}

#[test]
fn violation_codes_have_their_texts() {
    assert_eq!(ViolationCode::Length.code(), "length");
    assert_eq!(ViolationCode::Email.code(), "email");
    assert_eq!(ViolationCode::Url.code(), "url");
    assert_eq!(ViolationCode::PasswordTooShort.code(), "password_too_short");
    assert_eq!(ViolationCode::MustContainLowerCasedChars.code(), "must_contain_lower_cased_chars");
    assert_eq!(ViolationCode::MustContainUpperCasedChars.code(), "must_contain_upper_cased_chars");
    assert_eq!(ViolationCode::MustContainNumbers.code(), "must_contain_numbers");
    assert_eq!(ViolationCode::TermsNotAccepted.code(), "terms_not_accepted");
    assert_eq!(Field::InvitationChallenge.name(), "invitation_challenge");
    assert_eq!(Field::RedirectUri.name(), "redirect_uri");
    assert_eq!(Field::TermsAccepted.name(), "terms_accepted");
}

#[test]
fn completion_payload_reports_every_violation_in_field_order() {
    let payload = CompleteInvitationPayload {
        invitation_challenge: String::new(),
        password: String::from("short"),
        extra_payload: None,
        terms_accepted: false,
    };
    assert_eq!(
        payload.validate(),
        vec![
            FieldViolation { field: Field::InvitationChallenge, code: ViolationCode::Length },
            FieldViolation { field: Field::Password, code: ViolationCode::PasswordTooShort },
            FieldViolation { field: Field::TermsAccepted, code: ViolationCode::TermsNotAccepted },
        ]
    );
}

#[test]
fn valid_completion_payload_reports_nothing() {
    let payload = CompleteInvitationPayload {
        invitation_challenge: String::from("K7x2K7x2K7x2"),
        password: String::from("Val1d_passw0rd"),
        extra_payload: None,
        terms_accepted: true,
    };
    assert_eq!(payload.validate(), vec![]);
}

#[test]
fn creation_payload_checks_email_and_url_shape() {
    let payload = CreateInvitationPayload {
        client_id: String::from("client"),
        email: String::from("not-an-email"),
        redirect_uri: String::from("http"),
    };
    assert_eq!(
        payload.validate(),
        vec![
            FieldViolation { field: Field::Email, code: ViolationCode::Email },
            FieldViolation { field: Field::RedirectUri, code: ViolationCode::Url },
        ]
    );
    let payload = CreateInvitationPayload {
        client_id: String::new(),
        email: String::from("a@b.com"),
        redirect_uri: String::from("https://app/done"),
    };
    assert_eq!(
        payload.validate(),
        vec![FieldViolation { field: Field::ClientId, code: ViolationCode::Length }]
    );
}

#[test]
fn login_payload_checks_challenge_email_and_password() {
    let payload = LoginPayload {
        login_challenge: String::new(),
        email: String::from("a.b.com"),
        password: String::from("alllowercase1"),
    };
    assert_eq!(
        payload.validate(),
        vec![
            FieldViolation { field: Field::LoginChallenge, code: ViolationCode::Length },
            FieldViolation { field: Field::Email, code: ViolationCode::Email },
            FieldViolation {
                field: Field::Password,
                code: ViolationCode::MustContainUpperCasedChars
            },
        ]
    );
}
