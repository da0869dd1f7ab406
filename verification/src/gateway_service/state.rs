//! The state of the gateway: where the two upstream services are.
use vstd::prelude::*;

verus! {

/// The state of the gateway.
#[derive(Debug, Clone, PartialEq, Eq)]
pub struct AppState {
    /// The base address of the authentication service.
    pub auth_service_url: String,
    /// The base address of the profile service.
    pub user_service_url: String,
}

impl AppState {
    /// A gateway in front of the two services at the given base addresses.
    pub fn new(auth_service_url: String, user_service_url: String) -> (state: AppState)
        ensures
            state.auth_service_url == auth_service_url,
            state.user_service_url == user_service_url,
    {
        AppState { auth_service_url, user_service_url }
    }
}

} // verus!
