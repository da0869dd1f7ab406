//! What the gateway sends upstream, and what it makes of what comes back.
//!
//! A request is relayed with its method, its JSON body if it has one, and
//! its `Authorization` header, byte for byte, if it has one; no other
//! header goes upstream. A response is relayed with its status and the
//! bytes of its body as they came. Only when no response comes does the
//! gateway answer for itself, and it says which service was out of reach.
use vstd::prelude::*;
use axum::http::HeaderMap;
use crate::gateway_service::error::AppError;
use crate::headers::header_bytes;
use crate::headers::header_entry;

verus! {

/// A JSON value of the JSON library, opaque to the verifier. The gateway
/// carries bodies and never looks into them.
#[verifier::external_type_specification]
#[verifier::external_body]
pub struct ExJsonValue(serde_json::Value);

/// The service that a request is relayed to.
#[derive(Debug, Clone, Copy, PartialEq, Eq, Structural)]
pub enum Upstream {
    /// The authentication service.
    Auth,
    /// The profile service.
    Users,
}

/// The method of a relayed request.
#[derive(Debug, Clone, Copy, PartialEq, Eq, Structural)]
pub enum Method {
    Get,
    Post,
    Put,
    Delete,
}

/// A request to be sent upstream.
#[derive(Debug, Clone, PartialEq)]
pub struct ForwardRequest {
    pub upstream: Upstream,
    pub method: Method,
    pub url: String,
    /// The bytes of the `Authorization` header to send, if any.
    pub authorization: Option<Vec<u8>>,
    /// The JSON body to send, if any.
    pub body: Option<serde_json::Value>,
}

/// The model of [`ForwardRequest`].
pub struct ForwardRequestView {
    pub upstream: Upstream,
    pub method: Method,
    pub url: Seq<char>,
    pub authorization: Option<Seq<u8>>,
    pub body: Option<serde_json::Value>,
}

impl View for ForwardRequest {
    type V = ForwardRequestView;

    open spec fn view(&self) -> ForwardRequestView {
        ForwardRequestView {
            upstream: self.upstream,
            method: self.method,
            url: self.url@,
            authorization: match self.authorization {
                Some(value) => Some(value@),
                None => None,
            },
            body: self.body,
        }
    }
}

/// What came of a request sent upstream.
#[derive(Debug, Clone, PartialEq, Eq)]
pub enum UpstreamReply {
    /// No response: the connection was refused, the name did not resolve,
    /// or the time allowed ran out.
    Unreachable,
    /// A response with the status `status`. `body` holds the bytes of its
    /// body, or nothing if the body could not be read.
    Received { status: u16, body: Option<Vec<u8>> },
}

/// A response of an upstream service as the gateway hands it on.
#[derive(Debug, Clone, PartialEq, Eq)]
pub struct GatewayResponse {
    pub status: u16,
    /// The bytes of the body, as the upstream service sent them.
    pub body: Vec<u8>,
}

/// The `Authorization` value to send upstream for a request with the
/// headers `headers`: the bytes of the header as they came, whatever they
/// are, or nothing if the request has no such header.
pub fn forwarded_authorization(headers: &HeaderMap) -> (value: Option<Vec<u8>>)
    ensures
        match value {
            Some(bytes) => header_entry(*headers, "Authorization"@) == Some(bytes@),
            None => header_entry(*headers, "Authorization"@) is None,
        },
{
    header_bytes(headers, "Authorization")
}

/// The failure that says that `upstream` is out of reach.
pub open spec fn unavailable(upstream: Upstream) -> AppError {
    match upstream {
        Upstream::Auth => AppError::AuthServiceUnavailable,
        Upstream::Users => AppError::UserServiceUnavailable,
    }
}

/// Whether `status` can stand as the status of a response: 100 to 999.
pub open spec fn is_status(status: u16) -> bool {
    100 <= status && status <= 999
}

/// Hands on a response that came from upstream: its status and its body as
/// they came. A status that cannot stand as one becomes 500. If the body
/// could not be read, the answer is `InternalError`.
pub fn convert_response(status: u16, body: Option<Vec<u8>>) -> (r: Result<
    GatewayResponse,
    AppError,
>)
    ensures
        r == match body {
            None => Err::<GatewayResponse, AppError>(AppError::InternalError),
            Some(bytes) => Ok(
                GatewayResponse { status: if is_status(status) {
                    status
                } else {
                    500
                }, body: bytes },
            ),
        },
{
    let status: u16 = if 100 <= status && status <= 999 {
        status
    } else {
        500
    };
    match body {
        None => Err(AppError::InternalError),
        Some(bytes) => Ok(GatewayResponse { status, body: bytes }),
    }
}

/// Makes the gateway's answer of what came of a request sent to `upstream`.
/// If nothing came, the answer is the failure that names the service:
/// `AuthServiceUnavailable` or `UserServiceUnavailable`. If a response
/// came, it is handed on by [`convert_response`].
pub fn relay(upstream: Upstream, reply: UpstreamReply) -> (r: Result<GatewayResponse, AppError>)
    ensures
        r == match reply {
            UpstreamReply::Unreachable => Err::<GatewayResponse, AppError>(unavailable(upstream)),
            UpstreamReply::Received { status, body } => match body {
                None => Err::<GatewayResponse, AppError>(AppError::InternalError),
                Some(bytes) => Ok(
                    GatewayResponse { status: if is_status(status) {
                        status
                    } else {
                        500
                    }, body: bytes },
                ),
            },
        },
{
    match reply {
        UpstreamReply::Unreachable => match upstream {
            Upstream::Auth => Err(AppError::AuthServiceUnavailable),
            Upstream::Users => Err(AppError::UserServiceUnavailable),
        },
        UpstreamReply::Received { status, body } => convert_response(status, body),
    }
}

} // verus!
