use tickets::error::{ClientError, Error, STATUS_INTERNAL_SERVER_ERROR, STATUS_NOT_FOUND, STATUS_UNAUTHORIZED};

fn jwt_error() -> jsonwebtoken::errors::Error {
    jsonwebtoken::errors::ErrorKind::InvalidSignature.into()
}

#[test]
fn status_codes() {
    assert_eq!((STATUS_UNAUTHORIZED, STATUS_NOT_FOUND, STATUS_INTERNAL_SERVER_ERROR), (401, 404, 500));
}

#[test]
fn auth_errors_are_unauthorized() {
    for e in [
        Error::LoginFail,
        Error::AuthTokenNotProvided,
        Error::AuthTokenDecodeFail { err: jwt_error() },
        Error::AuthTokenExpired,
    ] {
        assert_eq!(e.status_code_and_message(), (401, ClientError::UNAUTHORIZED));
    }
}

#[test]
fn missing_ticket_is_not_found() {
    assert_eq!(Error::TicketNotFound { id: 3 }.status_code_and_message(), (404, ClientError::NOT_FOUND));
}

#[test]
fn encode_failure_is_server_error() {
    assert_eq!(
        Error::AuthTokenEncodeFail { err: jwt_error() }.status_code_and_message(),
        (500, ClientError::SERVER_ERROR)
    );
}

#[test]
fn client_error_names() {
    assert_eq!(ClientError::BAD_REQUEST.as_ref(), "BAD_REQUEST");
    assert_eq!(ClientError::UNAUTHORIZED.as_ref(), "UNAUTHORIZED");
    assert_eq!(ClientError::NOT_FOUND.as_ref(), "NOT_FOUND");
    assert_eq!(ClientError::SERVER_ERROR.as_ref(), "SERVER_ERROR");
}
