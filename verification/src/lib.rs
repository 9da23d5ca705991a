//! A small ticket-tracking service: users authenticate with a signed access
//! token carried in a cookie, and may create, list and delete their own
//! tickets. This crate holds the service's logic; the HTTP server around it
//! lives in the application crate.
pub mod auth;
pub mod error;
pub mod model;
pub mod state;
pub mod web;
