//! Errors of the service and how each one is reported to a client.
use jsonwebtoken::errors::Error as JWTError;
use vstd::prelude::*;

verus! {

/// The error type of the `jsonwebtoken` crate, carried inside token errors.
#[verifier::external_type_specification]
#[verifier::external_body]
pub struct ExJwtError(JWTError);

/// Everything that can go wrong while serving a request.
#[derive(Debug)]
pub enum Error {
    // -- Auth errors
    LoginFail,
    AuthTokenNotProvided,
    AuthTokenEncodeFail { err: JWTError },
    AuthTokenDecodeFail { err: JWTError },
    AuthTokenExpired,
    // -- Model errors
    TicketNotFound { id: u64 },
}

/// The category of an error as a client sees it.
#[allow(non_camel_case_types)]
#[derive(Debug, Clone, Copy, PartialEq, Eq, Structural)]
pub enum ClientError {
    BAD_REQUEST,
    UNAUTHORIZED,
    NOT_FOUND,
    SERVER_ERROR,
}

/// HTTP status 401.
pub const STATUS_UNAUTHORIZED: u16 = 401;

/// HTTP status 404.
pub const STATUS_NOT_FOUND: u16 = 404;

/// HTTP status 500.
pub const STATUS_INTERNAL_SERVER_ERROR: u16 = 500;

/// The HTTP status code and client category under which `e` is reported:
/// failed logins and every token problem other than a failure to issue one
/// are 401, a missing ticket is 404, anything else is 500.
pub open spec fn status_and_category(e: Error) -> (u16, ClientError) {
    match e {
        Error::LoginFail
        | Error::AuthTokenNotProvided
        | Error::AuthTokenDecodeFail { .. }
        | Error::AuthTokenExpired => (STATUS_UNAUTHORIZED, ClientError::UNAUTHORIZED),
        Error::TicketNotFound { .. } => (STATUS_NOT_FOUND, ClientError::NOT_FOUND),
        Error::AuthTokenEncodeFail { .. } => (
            STATUS_INTERNAL_SERVER_ERROR,
            ClientError::SERVER_ERROR,
        ),
    }
}

/// The name under which a client category appears in an error body.
pub open spec fn category_name(c: ClientError) -> Seq<char> {
    match c {
        ClientError::BAD_REQUEST => "BAD_REQUEST"@,
        ClientError::UNAUTHORIZED => "UNAUTHORIZED"@,
        ClientError::NOT_FOUND => "NOT_FOUND"@,
        ClientError::SERVER_ERROR => "SERVER_ERROR"@,
    }
}

/// Every error is reported by its kind alone, whatever data it carries:
/// failed logins and token problems as 401 UNAUTHORIZED, a missing ticket
/// (any id) as 404 NOT_FOUND, a failure to issue a token as 500
/// SERVER_ERROR; and each client category is written under its own name.
pub proof fn law_status_depends_only_on_kind()
    ensures
        status_and_category(Error::LoginFail) == (401u16, ClientError::UNAUTHORIZED),
        status_and_category(Error::AuthTokenNotProvided) == (401u16, ClientError::UNAUTHORIZED),
        status_and_category(Error::AuthTokenExpired) == (401u16, ClientError::UNAUTHORIZED),
        forall|err: JWTError|
            #[trigger] status_and_category(Error::AuthTokenDecodeFail { err }) == (
                401u16,
                ClientError::UNAUTHORIZED,
            ),
        forall|err: JWTError|
            #[trigger] status_and_category(Error::AuthTokenEncodeFail { err }) == (
                500u16,
                ClientError::SERVER_ERROR,
            ),
        forall|id: u64|
            #[trigger] status_and_category(Error::TicketNotFound { id }) == (
                404u16,
                ClientError::NOT_FOUND,
            ),
        forall|id1: u64, id2: u64|
            #[trigger] status_and_category(Error::TicketNotFound { id: id1 }) == #[trigger] status_and_category(
                Error::TicketNotFound { id: id2 },
            ),
        category_name(ClientError::BAD_REQUEST) == "BAD_REQUEST"@,
        category_name(ClientError::UNAUTHORIZED) == "UNAUTHORIZED"@,
        category_name(ClientError::NOT_FOUND) == "NOT_FOUND"@,
        category_name(ClientError::SERVER_ERROR) == "SERVER_ERROR"@,
{
}

impl Error {
    /// The HTTP status code (as a number) and the client category of this error.
    pub fn status_code_and_message(&self) -> (r: (u16, ClientError))
        ensures
            r == status_and_category(*self),
    {
        match self {
            Error::LoginFail
            | Error::AuthTokenNotProvided
            | Error::AuthTokenDecodeFail { .. }
            | Error::AuthTokenExpired => (STATUS_UNAUTHORIZED, ClientError::UNAUTHORIZED),
            Error::TicketNotFound { .. } => (STATUS_NOT_FOUND, ClientError::NOT_FOUND),
            Error::AuthTokenEncodeFail { .. } => (
                STATUS_INTERNAL_SERVER_ERROR,
                ClientError::SERVER_ERROR,
            ),
        }
    }
}

impl ClientError {
    /// The variant's name, as it is written in an error body.
    pub fn as_ref(&self) -> (s: &'static str)
        ensures
            s@ == category_name(*self),
    {
        proof {
            reveal_strlit("BAD_REQUEST");
            reveal_strlit("UNAUTHORIZED");
            reveal_strlit("NOT_FOUND");
            reveal_strlit("SERVER_ERROR");
        }
        match self {
            ClientError::BAD_REQUEST => "BAD_REQUEST",
            ClientError::UNAUTHORIZED => "UNAUTHORIZED",
            ClientError::NOT_FOUND => "NOT_FOUND",
            ClientError::SERVER_ERROR => "SERVER_ERROR",
        }
    }
}

} // verus!
