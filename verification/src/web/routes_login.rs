//! Logging in: a fixed administrator account receives an access-token
//! cookie.
use crate::auth::jwt::{access_token_answer, law_short_token_unsigned, law_unsigned_token_rejected};
use crate::auth::AUTH_SECRET;
use crate::error::Error;
use vstd::prelude::*;
use vstd::string::StringExecFns;

verus! {

/// The credentials a client logs in with.
pub struct LoginPayload {
    pub username: String,
    pub password: String,
}

/// The user name that may log in.
pub const LOGIN_USERNAME: &'static str = "admin";

/// The password of that user.
pub const LOGIN_PASSWORD: &'static str = "1234";

/// The value of the access-token cookie set on a successful login.
pub const LOGIN_TOKEN: &'static str = "user-1.exp.sign";

/// Whether `payload` holds the administrator's credentials.
pub open spec fn credentials_valid(payload: LoginPayload) -> bool {
    payload.username@ == LOGIN_USERNAME@ && payload.password@ == LOGIN_PASSWORD@
}

/// Exactly the user name "admin" with the password "1234" may log in.
pub proof fn law_login_credentials(payload: LoginPayload)
    ensures
        credentials_valid(payload) <==> (payload.username@ == "admin"@ && payload.password@
            == "1234"@),
{
}

/// Checks the credentials of a login: on success, the value to store in the
/// access-token cookie; otherwise `LoginFail`.
pub fn login_token(payload: &LoginPayload) -> (r: Result<&'static str, Error>)
    ensures
        credentials_valid(*payload) ==> (r matches Ok(t) && t@ == LOGIN_TOKEN@),
        !credentials_valid(*payload) ==> r matches Err(Error::LoginFail),
{
    let username = String::from_str(LOGIN_USERNAME);
    let password = String::from_str(LOGIN_PASSWORD);
    if payload.username != username || payload.password != password {
        return Err(Error::LoginFail);
    }
    Ok(LOGIN_TOKEN)
}

/// The value a successful login stores in the access-token cookie is no
/// signed token: checking it always answers `AuthTokenDecodeFail`.
pub proof fn law_login_cookie_value_rejected(answer: Result<u64, Error>)
    requires
        access_token_answer(LOGIN_TOKEN@, answer),
    ensures
        answer matches Err(Error::AuthTokenDecodeFail { .. }),
{
    reveal_strlit("user-1.exp.sign");
    law_short_token_unsigned(LOGIN_TOKEN@, AUTH_SECRET@);
    law_unsigned_token_rejected(LOGIN_TOKEN@, answer);
}

} // verus!
