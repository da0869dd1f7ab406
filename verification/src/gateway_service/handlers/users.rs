//! The routes that go to the profile service. Each carries the
//! `Authorization` header of the request, byte for byte, if it has one.
use vstd::prelude::*;
use axum::http::HeaderMap;
use crate::gateway_service::forward::forwarded_authorization;
use crate::gateway_service::forward::ForwardRequest;
use crate::gateway_service::forward::ForwardRequestView;
use crate::gateway_service::forward::Method;
use crate::gateway_service::forward::Upstream;
use crate::gateway_service::state::AppState;
use crate::headers::header_entry;
use crate::text::join;

verus! {

/// The request that goes to the profile service at `url` with the
/// `Authorization` header of `headers`.
pub open spec fn users_request(
    method: Method,
    url: Seq<char>,
    headers: HeaderMap,
    body: Option<serde_json::Value>,
) -> ForwardRequestView {
    ForwardRequestView {
        upstream: Upstream::Users,
        method,
        url,
        authorization: header_entry(headers, "Authorization"@),
        body,
    }
}

/// The address of the collection of profiles.
pub fn users_url(state: &AppState) -> (url: String)
    ensures
        url@ == state.user_service_url@ + "/users"@,
{
    join(state.user_service_url.as_str(), "/users")
}

/// The address of the profile of the subject `user_id`.
pub fn user_url(state: &AppState, user_id: &str) -> (url: String)
    ensures
        url@ == state.user_service_url@ + "/users/"@ + user_id@,
{
    let mut url = join(state.user_service_url.as_str(), "/users/");
    url.append(user_id);
    url
}

/// Relays a request for all profiles.
pub fn get_users(state: &AppState, headers: &HeaderMap) -> (request: ForwardRequest)
    ensures
        request@ == users_request(
            Method::Get,
            state.user_service_url@ + "/users"@,
            *headers,
            None,
        ),
{
    ForwardRequest {
        upstream: Upstream::Users,
        method: Method::Get,
        url: users_url(state),
        authorization: forwarded_authorization(headers),
        body: None,
    }
}

/// Relays the creation of a profile.
pub fn create_user(
    state: &AppState,
    headers: &HeaderMap,
    body: serde_json::Value,
) -> (request: ForwardRequest)
    ensures
        request@ == users_request(
            Method::Post,
            state.user_service_url@ + "/users"@,
            *headers,
            Some(body),
        ),
{
    ForwardRequest {
        upstream: Upstream::Users,
        method: Method::Post,
        url: users_url(state),
        authorization: forwarded_authorization(headers),
        body: Some(body),
    }
}

/// Relays a request for the profile of the subject `user_id`.
pub fn get_user(state: &AppState, headers: &HeaderMap, user_id: &str) -> (request: ForwardRequest)
    ensures
        request@ == users_request(
            Method::Get,
            state.user_service_url@ + "/users/"@ + user_id@,
            *headers,
            None,
        ),
{
    ForwardRequest {
        upstream: Upstream::Users,
        method: Method::Get,
        url: user_url(state, user_id),
        authorization: forwarded_authorization(headers),
        body: None,
    }
}

/// Relays a change of the profile of the subject `user_id`.
pub fn update_user(
    state: &AppState,
    headers: &HeaderMap,
    user_id: &str,
    body: serde_json::Value,
) -> (request: ForwardRequest)
    ensures
        request@ == users_request(
            Method::Put,
            state.user_service_url@ + "/users/"@ + user_id@,
            *headers,
            Some(body),
        ),
{
    ForwardRequest {
        upstream: Upstream::Users,
        method: Method::Put,
        url: user_url(state, user_id),
        authorization: forwarded_authorization(headers),
        body: Some(body),
    }
}

/// Relays the deletion of the profile of the subject `user_id`.
pub fn delete_user(
    state: &AppState,
    headers: &HeaderMap,
    user_id: &str,
) -> (request: ForwardRequest)
    ensures
        request@ == users_request(
            Method::Delete,
            state.user_service_url@ + "/users/"@ + user_id@,
            *headers,
            None,
        ),
{
    ForwardRequest {
        upstream: Upstream::Users,
        method: Method::Delete,
        url: user_url(state, user_id),
        authorization: forwarded_authorization(headers),
        body: None,
    }
}

} // verus!
