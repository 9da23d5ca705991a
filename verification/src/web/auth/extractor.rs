//! The authenticated user of a request.
pub use crate::auth::extractor::AuthContext;
