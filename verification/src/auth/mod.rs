//! Authentication: access tokens, the request's authenticated user, and the
//! decisions the authentication middleware takes.
pub mod extractor;
pub mod jwt;
pub mod middleware;

use vstd::prelude::*;

verus! {

/// Name of the cookie that carries the access token.
pub const AUTH_TOKEN: &'static str = "access-token";

/// Secret with which access tokens are signed (HMAC-SHA256).
pub const AUTH_SECRET: &'static str = "super-secure";

/// How long an access token stays valid after it is issued, in hours.
pub const AUTH_TOKEN_EXPIRY_HOURS: u8 = 24 * 7;

} // verus!
