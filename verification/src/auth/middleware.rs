//! The decisions of the authentication middleware: which user a request is
//! served for, and whether its access-token cookie should be dropped.
use crate::auth::extractor::AuthContext;
use crate::auth::jwt::{access_token_answer, decode_access_token, law_token_check_errors};
use crate::error::Error;
use jsonwebtoken::errors::Error as JWTError;
use vstd::prelude::*;

verus! {

/// Whether `resolved` is what resolving the cookie value `auth_token` can
/// give: no token is `AuthTokenNotProvided`; a token is answered as checking
/// it answers, a valid one with the context of its user.
pub open spec fn resolved_auth_context(
    auth_token: Option<Seq<char>>,
    resolved: Result<AuthContext, Error>,
) -> bool {
    match auth_token {
        None => resolved matches Err(Error::AuthTokenNotProvided),
        Some(token) => match resolved {
            Ok(ctx) => access_token_answer(token, Ok(ctx.spec_user_id())),
            Err(e) => access_token_answer(token, Err(e)),
        },
    }
}

/// The view of an optional cookie value.
pub open spec fn token_view(auth_token: Option<String>) -> Option<Seq<char>> {
    match auth_token {
        Some(t) => Some(t@),
        None => None,
    }
}

/// Resolves the authenticated user from the value of the access-token
/// cookie, if the request carries one.
pub fn resolve_auth_context(auth_token: Option<String>) -> (r: Result<AuthContext, Error>)
    ensures
        resolved_auth_context(token_view(auth_token), r),
{
    match auth_token {
        None => Err(Error::AuthTokenNotProvided),
        Some(token) => {
            match decode_access_token(token) {
                Ok(user_id) => Ok(AuthContext::new(user_id)),
                Err(e) => Err(e),
            }
        },
    }
}

/// Whether the access-token cookie should be removed from the client: when
/// resolving failed for any reason other than there being no token.
pub open spec fn should_remove_cookie(resolved: Result<AuthContext, Error>) -> bool {
    resolved is Err && !(resolved matches Err(Error::AuthTokenNotProvided))
}

/// Decides whether the middleware removes the access-token cookie after
/// resolving the request's user.
pub fn auth_cookie_should_be_removed(resolved: &Result<AuthContext, Error>) -> (b: bool)
    ensures
        b == should_remove_cookie(*resolved),
{
    match resolved {
        Ok(_) => false,
        Err(Error::AuthTokenNotProvided) => false,
        Err(_) => true,
    }
}


/// The cookie is kept when a user was resolved or no token was sent, and
/// removed after every other failure.
pub proof fn law_cookie_removal_by_outcome()
    ensures
        forall|ctx: AuthContext| !#[trigger] should_remove_cookie(Ok(ctx)),
        !should_remove_cookie(Err(Error::AuthTokenNotProvided)),
        should_remove_cookie(Err(Error::AuthTokenExpired)),
        should_remove_cookie(Err(Error::LoginFail)),
        forall|err: JWTError| #[trigger] should_remove_cookie(Err(Error::AuthTokenDecodeFail { err })),
        forall|err: JWTError| #[trigger] should_remove_cookie(Err(Error::AuthTokenEncodeFail { err })),
        forall|id: u64| #[trigger] should_remove_cookie(Err(Error::TicketNotFound { id })),
{
}

/// The middleware removes the cookie exactly when the request carried a
/// token and that token was rejected; a request without a token keeps its
/// (absent) cookie and is answered `AuthTokenNotProvided`.
pub proof fn law_cookie_removed_only_for_rejected_token(
    auth_token: Option<Seq<char>>,
    resolved: Result<AuthContext, Error>,
)
    requires
        resolved_auth_context(auth_token, resolved),
    ensures
        should_remove_cookie(resolved) <==> (auth_token is Some && resolved is Err),
        auth_token is None ==> resolved matches Err(Error::AuthTokenNotProvided),
{
    if let Some(token) = auth_token {
        if let Err(e) = resolved {
            law_token_check_errors(token, Err(e));
        }
    }
}

} // verus!
