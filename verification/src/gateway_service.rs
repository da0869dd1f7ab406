//! The gateway: it relays requests to the authentication service and to the
//! profile service, and their responses back, without reading the bodies.
pub mod error;
pub mod state;
pub mod forward;
pub mod handlers;
