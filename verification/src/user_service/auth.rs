//! Learning who the caller is.
//!
//! The profile service holds no signing secret. It takes the bearer token
//! from the `Authorization` header, has the authentication service
//! validate it, and reads the caller's identity from the answer. The
//! exchange itself is the embedding program's business; what is sent and
//! what an answer means is decided here.
use vstd::prelude::*;
use axum::http::HeaderMap;
use crate::headers::header_entry;
use crate::headers::header_text;
use crate::headers::HeaderText;
use crate::headers::HeaderTextView;
use crate::headers::read_entry;
use crate::text::has_prefix;
use crate::text::join;
use crate::text::same_text;
use crate::text::skip_chars;
use crate::text::starts_with;
use crate::user_service::error::AppError;
use crate::user_service::models::UserProfileView;
use crate::user_service::models::ValidateTokenRequest;
use crate::user_service::models::ValidateTokenResponse;
use crate::user_service::state::AppState;
use crate::user_service::state::has_profile;
use crate::user_service::state::profile_index;

verus! {

/// The token of an `Authorization` header that reads `text`: what follows
/// the scheme `Bearer` and one space.
pub open spec fn bearer_outcome(text: Seq<char>) -> Result<Seq<char>, AppError> {
    if has_prefix(text, "Bearer "@) {
        Ok(text.skip("Bearer "@.len() as int))
    } else {
        Err(AppError::InvalidAuthHeader)
    }
}

/// The token that a request presents, given how its `Authorization` header
/// reads.
pub open spec fn extract_outcome(header: HeaderTextView) -> Result<Seq<char>, AppError> {
    match header {
        HeaderTextView::Absent => Err(AppError::MissingAuthHeader),
        HeaderTextView::Unreadable => Err(AppError::InvalidAuthHeader),
        HeaderTextView::Text(text) => bearer_outcome(text),
    }
}

/// Whether the exec result `r` is the outcome `expected`.
pub open spec fn is_text_outcome(
    r: Result<String, AppError>,
    expected: Result<Seq<char>, AppError>,
) -> bool {
    match r {
        Ok(text) => expected == Ok::<Seq<char>, AppError>(text@),
        Err(e) => expected == Err::<Seq<char>, AppError>(e),
    }
}

/// Takes the token out of the text of an `Authorization` header. The text
/// must begin with `Bearer` and one space; the token is all that follows.
pub fn bearer_token(text: &str) -> (r: Result<String, AppError>)
    ensures
        is_text_outcome(r, bearer_outcome(text@)),
{
    proof {
        reveal_strlit("Bearer ");
    }
    if starts_with(text, "Bearer ") {
        Ok(skip_chars(text, 7))
    } else {
        Err(AppError::InvalidAuthHeader)
    }
}

/// Takes the bearer token out of an `Authorization` header, given how the
/// header reads: an absent header is `MissingAuthHeader`, one that does not
/// read as text is `InvalidAuthHeader`, and text is left to
/// [`bearer_token`].
pub fn token_of(header: HeaderText) -> (r: Result<String, AppError>)
    ensures
        is_text_outcome(r, extract_outcome(header@)),
{
    match header {
        HeaderText::Absent => Err(AppError::MissingAuthHeader),
        HeaderText::Unreadable => Err(AppError::InvalidAuthHeader),
        HeaderText::Text(text) => bearer_token(text.as_str()),
    }
}

/// Takes the bearer token out of the headers of a request.
///
/// The answer is `MissingAuthHeader` if there is no `Authorization` header,
/// and `InvalidAuthHeader` if its first value holds a byte that is not
/// visible ASCII or does not begin with `Bearer` and one space. Otherwise
/// it is the token: all that follows the space.
pub fn extract_token(headers: &HeaderMap) -> (r: Result<String, AppError>)
    ensures
        is_text_outcome(
            r,
            extract_outcome(read_entry(header_entry(*headers, "Authorization"@))),
        ),
{
    token_of(header_text(headers, "Authorization"))
}

/// A validation to be asked of the authentication service: the body goes,
/// by `POST`, to the address.
#[derive(Debug, Clone, PartialEq, Eq)]
pub struct ValidationCall {
    pub url: String,
    pub body: ValidateTokenRequest,
}

/// What came of a validation asked of the authentication service.
#[derive(Debug, Clone, PartialEq, Eq)]
pub enum AuthReply {
    /// No response: the service could not be reached, or did not answer in
    /// time.
    Unreachable,
    /// A response with the status `status`. `body` is what its body reads
    /// as, or nothing if it does not read as the answer to a validation.
    Response { status: u16, body: Option<ValidateTokenResponse> },
}

/// Whether a status reports success: 200 to 299.
pub open spec fn is_success(status: u16) -> bool {
    200 <= status && status <= 299
}

/// Tells whether a status reports success. Only the body of a response
/// that does is worth reading.
pub fn reports_success(status: u16) -> (r: bool)
    ensures
        r == is_success(status),
{
    200 <= status && status <= 299
}

/// The validation to ask for `token`.
pub fn validation_call(state: &AppState, token: String) -> (call: ValidationCall)
    ensures
        call.url@ == state.auth_service_url() + "/validate"@,
        call.body.token == token,
{
    let url = join(state.auth_url(), "/validate");
    ValidationCall { url, body: ValidateTokenRequest { token } }
}

/// Reads the caller's identity from what came of a validation.
///
/// The answer is `AuthServiceUnavailable` if no response came;
/// `InvalidToken` if the response does not report success; `InternalError`
/// if its body does not read as the answer to a validation; `InvalidToken`
/// if the body says that the token is not valid. Otherwise it is the body:
/// the caller's identity.
pub fn validate_token(reply: AuthReply) -> (r: Result<ValidateTokenResponse, AppError>)
    ensures
        r == match reply {
            AuthReply::Unreachable => Err::<ValidateTokenResponse, AppError>(
                AppError::AuthServiceUnavailable,
            ),
            AuthReply::Response { status, body } => if !is_success(status) {
                Err(AppError::InvalidToken)
            } else {
                match body {
                    None => Err(AppError::InternalError),
                    Some(identity) => if identity.valid {
                        Ok(identity)
                    } else {
                        Err(AppError::InvalidToken)
                    },
                }
            },
        },
{
    match reply {
        AuthReply::Unreachable => Err(AppError::AuthServiceUnavailable),
        AuthReply::Response { status, body } => {
            if !reports_success(status) {
                return Err(AppError::InvalidToken);
            }
            match body {
                None => Err(AppError::InternalError),
                Some(identity) => if identity.valid {
                    Ok(identity)
                } else {
                    Err(AppError::InvalidToken)
                },
            }
        },
    }
}

/// Begins the authentication of a request: takes the bearer token from its
/// headers and says what to ask of the authentication service. What comes
/// back goes to [`validate_token`].
///
/// A request without a usable `Authorization` header is turned away here,
/// as by [`extract_token`], and nothing is asked.
pub fn authenticate(state: &AppState, headers: &HeaderMap) -> (r: Result<ValidationCall, AppError>)
    ensures
        match r {
            Ok(call) => {
                &&& extract_outcome(read_entry(header_entry(*headers, "Authorization"@))) == Ok::<
                    Seq<char>,
                    AppError,
                >(call.body.token@)
                &&& call.url@ == state.auth_service_url() + "/validate"@
            },
            Err(e) => extract_outcome(read_entry(header_entry(*headers, "Authorization"@)))
                == Err::<Seq<char>, AppError>(e),
        },
{
    match extract_token(headers) {
        Err(e) => Err(e),
        Ok(token) => Ok(validation_call(state, token)),
    }
}

/// Why a request may not read, change or delete the profile of the subject
/// `user_id`, if it may not. `caller` is what the authentication of the
/// request arrived at. A failure of the authentication stands. A caller who
/// is not the subject is `Forbidden`. Only the subject itself hears whether
/// its profile exists.
pub open spec fn owner_refusal(
    caller: Result<ValidateTokenResponse, AppError>,
    user_id: Seq<char>,
    profiles: Seq<UserProfileView>,
) -> Option<AppError> {
    match caller {
        Err(e) => Some(e),
        Ok(identity) => if identity.user_id@ != user_id {
            Some(AppError::Forbidden)
        } else if !has_profile(profiles, user_id) {
            Some(AppError::UserNotFound)
        } else {
            None
        },
    }
}

/// Decides whether a request may read, change or delete the profile of the
/// subject `user_id`, and finds the place of the profile if it may.
/// Ownership is judged before existence.
pub fn check_owner(
    state: &AppState,
    caller: &Result<ValidateTokenResponse, AppError>,
    user_id: &str,
) -> (r: Result<usize, AppError>)
    ensures
        match r {
            Ok(i) => {
                &&& owner_refusal(*caller, user_id@, state.profiles()) is None
                &&& i == profile_index(state.profiles(), user_id@)
                &&& i < state.profiles().len()
                &&& state.profiles()[i as int].user_id == user_id@
            },
            Err(e) => owner_refusal(*caller, user_id@, state.profiles()) == Some(e),
        },
{
    match caller {
        Err(e) => Err(*e),
        Ok(identity) => {
            if !same_text(identity.user_id.as_str(), user_id) {
                return Err(AppError::Forbidden);
            }
            match state.position(user_id) {
                None => Err(AppError::UserNotFound),
                Some(i) => Ok(i),
            }
        },
    }
}

/// A caller who is not the owner is answered `Forbidden`, with status 403,
/// whatever profiles exist: the answer is the same whether or not the
/// subject has a profile.
pub proof fn lemma_strangers_learn_nothing(
    identity: ValidateTokenResponse,
    user_id: Seq<char>,
    profiles: Seq<UserProfileView>,
    others: Seq<UserProfileView>,
)
    requires
        identity.user_id@ != user_id,
    ensures
        owner_refusal(Ok(identity), user_id, profiles) == Some(AppError::Forbidden),
        owner_refusal(Ok(identity), user_id, profiles) == owner_refusal(
            Ok(identity),
            user_id,
            others,
        ),
        AppError::Forbidden.spec_status_code() == 403,
{
}

} // verus!
