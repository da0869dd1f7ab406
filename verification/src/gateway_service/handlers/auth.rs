//! The routes that go to the authentication service. Each carries the JSON
//! body of the request by `POST`, and no header.
use vstd::prelude::*;
use crate::gateway_service::forward::ForwardRequest;
use crate::gateway_service::forward::ForwardRequestView;
use crate::gateway_service::forward::Method;
use crate::gateway_service::forward::Upstream;
use crate::gateway_service::state::AppState;
use crate::text::join;

verus! {

/// The request that carries `body` by `POST` to the authentication service
/// at `url`.
pub open spec fn auth_post(url: Seq<char>, body: serde_json::Value) -> ForwardRequestView {
    ForwardRequestView {
        upstream: Upstream::Auth,
        method: Method::Post,
        url,
        authorization: None,
        body: Some(body),
    }
}

/// Relays a registration.
pub fn register(state: &AppState, body: serde_json::Value) -> (request: ForwardRequest)
    ensures
        request@ == auth_post(state.auth_service_url@ + "/register"@, body),
{
    ForwardRequest {
        upstream: Upstream::Auth,
        method: Method::Post,
        url: join(state.auth_service_url.as_str(), "/register"),
        authorization: None,
        body: Some(body),
    }
}

/// Relays a login.
pub fn login(state: &AppState, body: serde_json::Value) -> (request: ForwardRequest)
    ensures
        request@ == auth_post(state.auth_service_url@ + "/login"@, body),
{
    ForwardRequest {
        upstream: Upstream::Auth,
        method: Method::Post,
        url: join(state.auth_service_url.as_str(), "/login"),
        authorization: None,
        body: Some(body),
    }
}

/// Relays a validation.
pub fn validate(state: &AppState, body: serde_json::Value) -> (request: ForwardRequest)
    ensures
        request@ == auth_post(state.auth_service_url@ + "/validate"@, body),
{
    ForwardRequest {
        upstream: Upstream::Auth,
        method: Method::Post,
        url: join(state.auth_service_url.as_str(), "/validate"),
        authorization: None,
        body: Some(body),
    }
}

} // verus!
