//! Validation of a bearer token.
use vstd::prelude::*;
use crate::auth_service::error::AppError;
use crate::auth_service::state::AppState;
use crate::auth_service::token::Claims;
use crate::auth_service::token::ClaimsView;
use crate::auth_service::token::token_claims;
use crate::auth_service::token::TokenError;
use crate::auth_service::token::verify_outcome;
use crate::clock::CLOCK_LIMIT;
use crate::clock::unix_now;

verus! {

/// A request to validate a token.
#[derive(Debug, Clone, PartialEq, Eq)]
pub struct ValidateRequest {
    pub token: String,
}

/// The answer to a validation that went through: whom the token speaks for.
#[derive(Debug, Clone, PartialEq, Eq)]
pub struct ValidateResponse {
    /// Always true: an invalid token is answered with an error.
    pub valid: bool,
    /// The subject id that the token was issued to.
    pub user_id: String,
    pub username: String,
}

/// The model of [`ValidateResponse`].
pub struct ValidateResponseView {
    pub valid: bool,
    pub user_id: Seq<char>,
    pub username: Seq<char>,
}

impl View for ValidateResponse {
    type V = ValidateResponseView;

    open spec fn view(&self) -> ValidateResponseView {
        ValidateResponseView { valid: self.valid, user_id: self.user_id@, username: self.username@ }
    }
}

/// How the service reports a failure of its token authority.
pub open spec fn token_failure(e: TokenError) -> AppError {
    match e {
        TokenError::Malformed => AppError::InvalidToken,
        TokenError::Expired => AppError::TokenExpired,
    }
}

/// What validation answers at the instant `now`, given what the token
/// decodes to.
pub open spec fn validate_outcome(decoded: Option<ClaimsView>, now: int) -> Result<
    ValidateResponseView,
    AppError,
> {
    match verify_outcome(decoded, now) {
        Err(e) => Err(token_failure(e)),
        Ok(claims) => Ok(
            ValidateResponseView { valid: true, user_id: claims.sub, username: claims.username },
        ),
    }
}

/// Whether the exec result `r` is the outcome `expected`.
pub open spec fn is_validate_outcome(
    r: Result<ValidateResponse, AppError>,
    expected: Result<ValidateResponseView, AppError>,
) -> bool {
    match r {
        Ok(response) => expected == Ok::<ValidateResponseView, AppError>(response@),
        Err(e) => expected == Err::<ValidateResponseView, AppError>(e),
    }
}

/// The answer to a validation, given what the token authority made of the
/// token: the identity in the claims, or the failure that stands for the
/// authority's.
pub fn validation_response(verified: Result<Claims, TokenError>) -> (r: Result<
    ValidateResponse,
    AppError,
>)
    ensures
        match verified {
            Ok(claims) => {
                &&& r matches Ok(response)
                &&& response.valid
                &&& response.user_id == claims.sub
                &&& response.username == claims.username
            },
            Err(e) => r == Err::<ValidateResponse, AppError>(token_failure(e)),
        },
{
    match verified {
        Ok(claims) => Ok(
            ValidateResponse { valid: true, user_id: claims.sub, username: claims.username },
        ),
        Err(TokenError::Expired) => Err(AppError::TokenExpired),
        Err(TokenError::Malformed) => Err(AppError::InvalidToken),
    }
}

/// Validates the token of `req` at the instant `now`.
///
/// The answer is `InvalidToken` if the token does not decode under the
/// service's secret, whatever the clock; `TokenExpired` if it decodes and
/// `now` has reached its expiry; otherwise the subject id and username it
/// was issued to.
pub fn validate_at(state: &AppState, req: &ValidateRequest, now: i64) -> (r: Result<
    ValidateResponse,
    AppError,
>)
    ensures
        is_validate_outcome(
            r,
            validate_outcome(token_claims(req.token@, state.secret()), now as int),
        ),
{
    validation_response(state.authority().verify(req.token.as_str(), now))
}

/// Validates the token of `req` at the instant the wall clock shows.
///
/// The answer is that of [`validate_at`] at some instant, which is not
/// before the Unix epoch and below the limit of the clock. A token that
/// does not decode is `InvalidToken`.
pub fn validate(state: &AppState, req: &ValidateRequest) -> (r: Result<ValidateResponse, AppError>)
    ensures
        exists|now: int|
            0 <= now < CLOCK_LIMIT && #[trigger] is_validate_outcome(
                r,
                validate_outcome(token_claims(req.token@, state.secret()), now),
            ),
        token_claims(req.token@, state.secret()) is None ==> r == Err::<ValidateResponse, AppError>(
            AppError::InvalidToken,
        ),
{
    let now: i64 = unix_now();
    validate_at(state, req, now)
}

/// Validation has no memory: if a token is valid at two instants, the two
/// answers are the same, and a token that is valid at one instant was valid
/// with the same answer at every earlier one.
pub proof fn lemma_validation_is_repeatable(decoded: Option<ClaimsView>, first: int, second: int)
    ensures
        validate_outcome(decoded, first) is Ok && validate_outcome(decoded, second) is Ok
            ==> validate_outcome(decoded, first) == validate_outcome(decoded, second),
        validate_outcome(decoded, first) is Ok && second <= first ==> validate_outcome(
            decoded,
            second,
        ) == validate_outcome(decoded, first),
{
}

/// The two failures of validation never stand for each other: a token that
/// does not decode is `InvalidToken` at every instant, and one that decodes
/// is `TokenExpired` from its expiry on and valid before.
pub proof fn lemma_validation_tells_failures_apart(decoded: Option<ClaimsView>, now: int)
    ensures
        decoded is None ==> validate_outcome(decoded, now) == Err::<ValidateResponseView, AppError>(
            AppError::InvalidToken,
        ),
        decoded matches Some(claims) ==> (now >= claims.exp ==> validate_outcome(decoded, now)
            == Err::<ValidateResponseView, AppError>(AppError::TokenExpired)),
        decoded matches Some(claims) ==> (now < claims.exp ==> validate_outcome(decoded, now)
            == Ok::<ValidateResponseView, AppError>(
            ValidateResponseView { valid: true, user_id: claims.sub, username: claims.username },
        )),
{
}

} // verus!
