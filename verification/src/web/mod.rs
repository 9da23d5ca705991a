//! The web layer: authentication as the handlers see it, and the login route.
pub mod auth;
pub mod routes_login;

pub use crate::auth::{AUTH_SECRET, AUTH_TOKEN, AUTH_TOKEN_EXPIRY_HOURS};
