//! Issuing and checking access tokens.
pub use crate::auth::jwt::{decode_access_token, encode_access_token};
