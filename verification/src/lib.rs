//! Token-based authentication for a small service deployment.
//!
//! Three services share one protocol. The authentication service keeps the
//! registered identities and is the only holder of the signing secret: it
//! registers users, checks credentials, issues signed bearer tokens that
//! expire after a fixed lifetime, and validates them. The profile service
//! guards every handler by asking the authentication service who the caller
//! is, and lets a caller read, change or delete only its own profile. The gateway
//! relays requests to either service without reading them.
//!
//! Everything here is computation on plain values. Sockets, locks and the
//! wire encoding of bodies belong to the binaries that embed these modules.
pub mod text;
pub mod clock;

pub mod headers;
pub mod auth_service;
pub mod user_service;
pub mod gateway_service;
