//! The profile service: user profiles behind the authorization middleware.
//!
//! Every handler first learns who the caller is, by a validation that the
//! authentication service performs, and does nothing if that fails. A
//! profile can be read, changed or deleted by its owner only.
pub mod error;
pub mod models;
pub mod state;
pub mod auth;
pub mod handlers;


