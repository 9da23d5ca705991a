//! The authenticated user and access tokens, as the web layer uses them.
pub mod extractor;
pub mod jwt;
