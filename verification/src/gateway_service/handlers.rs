//! The handlers of the gateway, one per route.
pub mod auth;
pub mod users;
