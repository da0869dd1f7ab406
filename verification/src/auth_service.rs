//! The authentication service: registration, login, and token validation.
pub mod error;
pub mod token;
pub mod state;
pub mod register;
pub mod password;
pub mod login;
pub mod validate;
