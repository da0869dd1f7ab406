use auth_services::gateway_service::error::AppError;
use auth_services::gateway_service::forward::{
    convert_response, forwarded_authorization, relay, ForwardRequest, GatewayResponse, Method,
    Upstream, UpstreamReply,
};
use auth_services::gateway_service::handlers::auth::{login, register, validate};
use auth_services::gateway_service::handlers::users::{
    create_user, delete_user, get_user, get_users, update_user, user_url, users_url,
};
use auth_services::gateway_service::state::AppState;
use auth_services::headers::header_bytes;
use axum::http::{HeaderMap, HeaderValue};
use serde_json::Value;

fn gateway() -> AppState {
    AppState::new("http://auth:3000".to_string(), "http://users:3001".to_string())
}

fn body() -> Value {
    let mut object = serde_json::Map::new();
    object.insert("username".to_string(), Value::from("alice"));
    object.insert("n".to_string(), Value::from(3));
    Value::Object(object)
}

fn bearer() -> HeaderMap {
    let mut headers = HeaderMap::new();
    headers.insert("authorization", HeaderValue::from_static("Bearer tok"));
    headers.insert("cookie", HeaderValue::from_static("session=1"));
    headers
}

#[test]
fn auth_routes_post_the_body_to_the_auth_service() {
    let state = gateway();
    let expect = |suffix: &str| ForwardRequest {
        upstream: Upstream::Auth,
        method: Method::Post,
        url: format!("http://auth:3000{suffix}"),
        authorization: None,
        body: Some(body()),
    };
    assert_eq!(register(&state, body()), expect("/register"));
    assert_eq!(login(&state, body()), expect("/login"));
    assert_eq!(validate(&state, body()), expect("/validate"));
}

#[test]
fn user_routes_carry_the_authorization_header_and_no_other() {
    let state = gateway();
    let expect = |method: Method, suffix: &str, body: Option<Value>| ForwardRequest {
        upstream: Upstream::Users,
        method,
        url: format!("http://users:3001{suffix}"),
        authorization: Some(b"Bearer tok".to_vec()),
        body,
    };
    assert_eq!(get_users(&state, &bearer()), expect(Method::Get, "/users", None));
    assert_eq!(create_user(&state, &bearer(), body()), expect(Method::Post, "/users", Some(body())));
    assert_eq!(get_user(&state, &bearer(), "u-1"), expect(Method::Get, "/users/u-1", None));
    assert_eq!(
        update_user(&state, &bearer(), "u-1", body()),
        expect(Method::Put, "/users/u-1", Some(body()))
    );
    assert_eq!(delete_user(&state, &bearer(), "u-1"), expect(Method::Delete, "/users/u-1", None));
}

#[test]
fn user_routes_without_authorization_send_none() {
    let state = gateway();
    assert_eq!(get_users(&state, &HeaderMap::new()).authorization, None);
    assert_eq!(delete_user(&state, &HeaderMap::new(), "u").authorization, None);
    let mut headers = HeaderMap::new();
    headers.insert("cookie", HeaderValue::from_static("Bearer tok"));
    headers.insert("x-forwarded-for", HeaderValue::from_static("10.0.0.1"));
    assert_eq!(forwarded_authorization(&headers), None);
    let request = update_user(&state, &headers, "u", body());
    assert_eq!(request.authorization, None);
    assert_eq!(request.url, "http://users:3001/users/u");
    assert_eq!(request.body, Some(body()));
}

#[test]
fn authorization_goes_upstream_byte_for_byte() {
    let state = gateway();
    let mut headers = HeaderMap::new();
    headers.insert("authorization", HeaderValue::from_bytes(b"Bearer \xff\xe9\t ~").unwrap());
    assert_eq!(forwarded_authorization(&headers), Some(b"Bearer \xff\xe9\t ~".to_vec()));
    assert_eq!(get_user(&state, &headers, "u").authorization, Some(b"Bearer \xff\xe9\t ~".to_vec()));
    let mut headers = HeaderMap::new();
    headers.insert("authorization", HeaderValue::from_static("Basic abc"));
    assert_eq!(forwarded_authorization(&headers), Some(b"Basic abc".to_vec()));
    let mut headers = HeaderMap::new();
    headers.insert("authorization", HeaderValue::from_static(""));
    assert_eq!(forwarded_authorization(&headers), Some(Vec::new()));
    let mut headers = HeaderMap::new();
    headers.append("authorization", HeaderValue::from_static("first"));
    headers.append("authorization", HeaderValue::from_static("second"));
    assert_eq!(create_user(&state, &headers, body()).authorization, Some(b"first".to_vec()));
}

#[test]
fn header_bytes_reads_what_is_stored() {
    let mut headers = HeaderMap::new();
    headers.insert("authorization", HeaderValue::from_bytes(b"a\x80b").unwrap());
    headers.insert("x-other", HeaderValue::from_static("v"));
    assert_eq!(header_bytes(&headers, "Authorization"), Some(b"a\x80b".to_vec()));
    assert_eq!(header_bytes(&headers, "AUTHORIZATION"), Some(b"a\x80b".to_vec()));
    assert_eq!(header_bytes(&headers, "x-other"), Some(b"v".to_vec()));
    assert_eq!(header_bytes(&headers, "host"), None);
    assert_eq!(header_bytes(&headers, "not a name"), None);
    assert_eq!(header_bytes(&HeaderMap::new(), "authorization"), None);
}

#[test]
fn addresses_are_base_and_suffix() {
    let state = AppState::new(String::new(), "http://h/".to_string());
    assert_eq!(users_url(&state), "http://h//users");
    assert_eq!(user_url(&state, ""), "http://h//users/");
    assert_eq!(user_url(&state, "a/b?c"), "http://h//users/a/b?c");
    assert_eq!(register(&state, Value::Null).url, "/register");
    assert_eq!(register(&state, Value::Null).body, Some(Value::Null));
}

#[test]
fn refused_connection_on_login_is_auth_service_unavailable() {
    let state = gateway();
    let request = login(&state, body());
    assert_eq!(request.url, "http://auth:3000/login");
    let failure = relay(request.upstream, UpstreamReply::Unreachable).unwrap_err();
    assert_eq!(failure, AppError::AuthServiceUnavailable);
    let (status, body) = failure.into_response();
    assert_eq!(status, 503);
    assert_eq!(body.status, "503");
    assert_eq!(body.message, "Auth service unavailable");
}

#[test]
fn unreachable_upstream_is_named_in_the_failure() {
    assert_eq!(
        relay(Upstream::Auth, UpstreamReply::Unreachable),
        Err(AppError::AuthServiceUnavailable)
    );
    assert_eq!(
        relay(Upstream::Users, UpstreamReply::Unreachable),
        Err(AppError::UserServiceUnavailable)
    );
    let request = get_users(&gateway(), &bearer());
    assert_eq!(
        relay(request.upstream, UpstreamReply::Unreachable),
        Err(AppError::UserServiceUnavailable)
    );
}

#[test]
fn response_is_handed_on_with_status_and_body_as_they_came() {
    let bodies: [&[u8]; 4] = [
        b"{\"status\":\"409\",  \"message\": \"x\"}",
        b"not even json \xc3\xa9",
        b"\xff\xfe not utf-8 \x00\x80",
        b"",
    ];
    for status in [100, 200, 201, 204, 301, 401, 403, 404, 409, 500, 503, 999] {
        for upstream in [Upstream::Auth, Upstream::Users] {
            for bytes in bodies {
                assert_eq!(
                    relay(upstream, UpstreamReply::Received { status, body: Some(bytes.to_vec()) }),
                    Ok(GatewayResponse { status, body: bytes.to_vec() })
                );
            }
        }
    }
    assert_eq!(
        convert_response(200, Some(Vec::new())),
        Ok(GatewayResponse { status: 200, body: Vec::new() })
    );
}

#[test]
fn status_that_cannot_stand_becomes_500() {
    for status in [0, 1, 99, 1000, 1001, u16::MAX] {
        assert_eq!(
            convert_response(status, Some(b"b".to_vec())),
            Ok(GatewayResponse { status: 500, body: b"b".to_vec() })
        );
    }
}

#[test]
fn unreadable_body_is_an_internal_error() {
    assert_eq!(convert_response(200, None), Err(AppError::InternalError));
    assert_eq!(convert_response(0, None), Err(AppError::InternalError));
    assert_eq!(
        relay(Upstream::Users, UpstreamReply::Received { status: 404, body: None }),
        Err(AppError::InternalError)
    );
}

#[test]
fn gateway_errors_map_to_status_and_message() {
    let table = [
        (AppError::AuthServiceUnavailable, 503, "503", "Auth service unavailable"),
        (AppError::UserServiceUnavailable, 503, "503", "User service unavailable"),
        (AppError::InternalError, 500, "500", "Internal server error"),
    ];
    for (error, status, status_text, message) in table {
        assert_eq!(error.status_code(), status);
        assert_eq!(error.message(), message);
        let (code, body) = error.into_response();
        assert_eq!(code, status);
        assert_eq!(body.status, status_text);
        assert_eq!(body.message, message);
    }
}
