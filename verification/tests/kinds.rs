use zagreus::api::consent::ConsentError;
use zagreus::api::invitation::InvitationError;
use zagreus::api::login::LoginError;
use zagreus::api::logout::LogoutError;
use zagreus::errors::ErrorKind;

#[test]
fn each_kind_has_its_status() {
    assert_eq!(ErrorKind::NotFound.status(), 404);
    assert_eq!(ErrorKind::Validation.status(), 400);
    assert_eq!(ErrorKind::Conflict.status(), 409);
    assert_eq!(ErrorKind::UpstreamFailure.status(), 502);
    assert_eq!(ErrorKind::Internal.status(), 500);
}

#[test]
fn errors_have_their_kinds() {
    assert_eq!(InvitationError::InvitationNotFound.kind(), ErrorKind::NotFound);
    assert_eq!(InvitationError::UserNotFound.kind(), ErrorKind::NotFound);
    assert_eq!(InvitationError::EmailAlreadyExists.kind(), ErrorKind::Conflict);
    assert_eq!(InvitationError::InvitationAlreadyUsed.kind(), ErrorKind::Conflict);
    assert_eq!(InvitationError::UserNotCreated.kind(), ErrorKind::Internal);
    assert_eq!(LoginError::UserNotFound.kind(), ErrorKind::NotFound);
    assert_eq!(LoginError::InvalidPassword.kind(), ErrorKind::Validation);
    assert_eq!(LoginError::LoginRequestRejected.kind(), ErrorKind::UpstreamFailure);
    assert_eq!(ConsentError::CouldntAcceptConsent.kind(), ErrorKind::UpstreamFailure);
    assert_eq!(ConsentError::ConsentNotFound.kind(), ErrorKind::NotFound);
    assert_eq!(LogoutError::LogoutRequestRejected.kind(), ErrorKind::UpstreamFailure);
}
