//! Login: credentials in, bearer token out.
//!
//! An unknown username and a wrong password are answered alike, with
//! `InvalidCredentials`: the answer must not tell a caller which usernames
//! exist.
use vstd::prelude::*;
use crate::auth_service::error::AppError;
use crate::auth_service::error::ErrorResponseView;
use crate::auth_service::error::lemma_status_text;
use crate::auth_service::password::password_verdict;
use crate::auth_service::password::verify_password;
use crate::auth_service::register::lemma_identity_is_found;
use crate::auth_service::register::UserView;
use crate::auth_service::state::AppState;
use crate::auth_service::state::distinct_identities;
use crate::auth_service::state::find_user;
use crate::auth_service::state::has_username;
use crate::auth_service::token::claims_issued_at;
use crate::auth_service::token::signed_token;
use crate::auth_service::token::token_claims;
use crate::auth_service::token::TOKEN_TTL_SECONDS;
use crate::auth_service::token::TokenIssuanceError;
use crate::auth_service::validate::validate_outcome;
use crate::auth_service::validate::ValidateResponseView;
use crate::clock::CLOCK_LIMIT;
use crate::clock::unix_now;

verus! {

/// A request to log in.
#[derive(Debug, Clone, PartialEq, Eq)]
pub struct LoginRequest {
    pub username: String,
    pub password: String,
}

/// The answer to a login that went through.
#[derive(Debug, Clone, PartialEq, Eq)]
pub struct LoginResponse {
    /// The bearer token issued to the caller.
    pub token: String,
    /// How the token is to be presented: always `Bearer`.
    pub token_type: String,
    /// The lifetime of the token in seconds.
    pub expires_in: i64,
}

/// The model of [`LoginResponse`].
pub struct LoginResponseView {
    pub token: Seq<char>,
    pub token_type: Seq<char>,
    pub expires_in: int,
}

impl View for LoginResponse {
    type V = LoginResponseView;

    open spec fn view(&self) -> LoginResponseView {
        LoginResponseView {
            token: self.token@,
            token_type: self.token_type@,
            expires_in: self.expires_in as int,
        }
    }
}

/// Whom a login is granted to, or why it is not granted: the identity
/// registered under `username`, if `password` matches its stored hash.
pub open spec fn credentials_outcome(
    users: Seq<UserView>,
    username: Seq<char>,
    password: Seq<char>,
) -> Result<UserView, AppError> {
    match find_user(users, username) {
        None => Err(AppError::InvalidCredentials),
        Some(user) => match password_verdict(password, user.password_hash) {
            None => Err(AppError::InternalError),
            Some(false) => Err(AppError::InvalidCredentials),
            Some(true) => Ok(user),
        },
    }
}

/// What a login at the instant `now` answers.
pub open spec fn login_outcome(
    users: Seq<UserView>,
    secret: Seq<u8>,
    username: Seq<char>,
    password: Seq<char>,
    now: int,
) -> Result<LoginResponseView, AppError> {
    match credentials_outcome(users, username, password) {
        Err(e) => Err(e),
        Ok(user) => if now + TOKEN_TTL_SECONDS > i64::MAX {
            Err(AppError::InternalError)
        } else {
            match signed_token(claims_issued_at(user.user_id, user.username, now), secret) {
                None => Err(AppError::TokenGenerationError),
                Some(token) => Ok(
                    LoginResponseView {
                        token,
                        token_type: "Bearer"@,
                        expires_in: TOKEN_TTL_SECONDS as int,
                    },
                ),
            }
        },
    }
}

/// Whether the exec result `r` is the outcome `expected`.
pub open spec fn is_login_outcome(
    r: Result<LoginResponse, AppError>,
    expected: Result<LoginResponseView, AppError>,
) -> bool {
    match r {
        Ok(response) => expected == Ok::<LoginResponseView, AppError>(response@),
        Err(e) => expected == Err::<LoginResponseView, AppError>(e),
    }
}

/// What a login makes of the hashing library's word on the password: a
/// password that matches lets the login go on, one that does not is
/// `InvalidCredentials`, and a stored hash that cannot be read is
/// `InternalError`.
pub fn judge_password(checked: Result<bool, bcrypt::BcryptError>) -> (r: Result<(), AppError>)
    ensures
        r == match checked {
            Ok(true) => Ok::<(), AppError>(()),
            Ok(false) => Err::<(), AppError>(AppError::InvalidCredentials),
            Err(_) => Err::<(), AppError>(AppError::InternalError),
        },
{
    match checked {
        Ok(true) => Ok(()),
        Ok(false) => Err(AppError::InvalidCredentials),
        Err(_) => Err(AppError::InternalError),
    }
}

/// The answer to a login whose token was issued, or could not be: the
/// token with its type and its lifetime, or `TokenGenerationError`.
pub fn login_response(issued: Result<String, TokenIssuanceError>) -> (r: Result<
    LoginResponse,
    AppError,
>)
    ensures
        match issued {
            Ok(token) => {
                &&& r matches Ok(response)
                &&& response.token == token
                &&& response.token_type@ == "Bearer"@
                &&& response.expires_in == TOKEN_TTL_SECONDS
            },
            Err(_) => r == Err::<LoginResponse, AppError>(AppError::TokenGenerationError),
        },
{
    match issued {
        Ok(token) => Ok(
            LoginResponse { token, token_type: "Bearer".to_owned(), expires_in: TOKEN_TTL_SECONDS },
        ),
        Err(_) => Err(AppError::TokenGenerationError),
    }
}

/// Logs in at the instant `now`.
///
/// The answer is `InvalidCredentials` if no identity has the username of
/// the request, and equally if one has it but the password does not match
/// its stored hash. It is `InternalError` if the stored hash cannot be
/// read or the expiry cannot be represented, and `TokenGenerationError` if
/// the token cannot be encoded. Otherwise a token is issued to the identity
/// and returned with its type and its lifetime.
///
/// A token that was returned reads back, under the service's secret, as the
/// subject id and username of the identity and an expiry of `now` plus the
/// token lifetime. So it validates, as that identity, at every instant
/// before the expiry, and from the expiry on it is answered with
/// `TokenExpired`.
pub fn login_at(
    state: &AppState,
    req: &LoginRequest,
    now: i64,
) -> (r: Result<LoginResponse, AppError>)
    ensures
        is_login_outcome(
            r,
            login_outcome(state.users(), state.secret(), req.username@, req.password@, now as int),
        ),
        r matches Ok(response) ==> {
            &&& find_user(state.users(), req.username@) matches Some(user)
            &&& token_claims(response.token@, state.secret()) == Some(
                claims_issued_at(user.user_id, user.username, now as int),
            )
            &&& forall|at: int|
                at < now + TOKEN_TTL_SECONDS ==> #[trigger] validate_outcome(
                    token_claims(response.token@, state.secret()),
                    at,
                ) == Ok::<ValidateResponseView, AppError>(
                    ValidateResponseView {
                        valid: true,
                        user_id: user.user_id,
                        username: user.username,
                    },
                )
            &&& forall|at: int|
                at >= now + TOKEN_TTL_SECONDS ==> #[trigger] validate_outcome(
                    token_claims(response.token@, state.secret()),
                    at,
                ) == Err::<ValidateResponseView, AppError>(AppError::TokenExpired)
        },
{
    let user = match state.find_user(req.username.as_str()) {
        Some(user) => user,
        None => {
            return Err(AppError::InvalidCredentials);
        },
    };
    let checked = verify_password(req.password.as_str(), user.password_hash.as_str());
    if let Err(e) = judge_password(checked) {
        return Err(e);
    }
    if now > i64::MAX - TOKEN_TTL_SECONDS {
        return Err(AppError::InternalError);
    }
    login_response(state.authority().issue(user.user_id.as_str(), user.username.as_str(), now))
}

/// Logs in at the instant the wall clock shows.
///
/// The answer is that of [`login_at`] at some instant, which is not before
/// the Unix epoch and below the limit of the clock. At such an instant the
/// expiry can always be represented: credentials that are refused are
/// answered with their refusal, and credentials that are accepted are
/// granted a token unless the token cannot be encoded. A token that was
/// returned reads back, under the service's secret, as the subject id and
/// username of the identity registered under the username of the request.
pub fn login(state: &AppState, req: &LoginRequest) -> (r: Result<LoginResponse, AppError>)
    ensures
        exists|now: int|
            0 <= now < CLOCK_LIMIT && #[trigger] is_login_outcome(
                r,
                login_outcome(state.users(), state.secret(), req.username@, req.password@, now),
            ),
        credentials_outcome(state.users(), req.username@, req.password@) matches Err(e) ==> r
            == Err::<LoginResponse, AppError>(e),
        credentials_outcome(state.users(), req.username@, req.password@) is Ok ==> r is Ok || r
            == Err::<LoginResponse, AppError>(AppError::TokenGenerationError),
        r matches Ok(response) ==> {
            &&& find_user(state.users(), req.username@) matches Some(user)
            &&& exists|now: int|
                0 <= now < CLOCK_LIMIT && token_claims(response.token@, state.secret()) == Some(
                    #[trigger] claims_issued_at(user.user_id, user.username, now),
                )
        },
{
    let now: i64 = unix_now();
    login_at(state, req, now)
}

/// A login under a username that nobody has and a login under a known
/// username with a password that does not match are answered with the same
/// failure, and that failure is reported by one and the same response: an
/// answer does not tell which usernames exist.
pub proof fn lemma_login_failures_are_indistinguishable(
    users: Seq<UserView>,
    secret: Seq<u8>,
    unknown: Seq<char>,
    password: Seq<char>,
    known: Seq<char>,
    wrong_password: Seq<char>,
    now: int,
)
    ensures
        !has_username(users, unknown) ==> login_outcome(users, secret, unknown, password, now)
            == Err::<LoginResponseView, AppError>(AppError::InvalidCredentials),
        (find_user(users, known) matches Some(user) && password_verdict(
            wrong_password,
            user.password_hash,
        ) == Some(false)) ==> login_outcome(users, secret, known, wrong_password, now) == Err::<
            LoginResponseView,
            AppError,
        >(AppError::InvalidCredentials),
        AppError::InvalidCredentials.spec_response() == (
            401u16,
            ErrorResponseView { status: "401"@, message: "Invalid username or password"@ },
        ),
{
    lemma_status_text(AppError::InvalidCredentials);
}

/// Whoever registered can log in: for an identity in the list, a password
/// that matches its stored hash is granted the login as that identity.
pub proof fn lemma_matching_password_is_granted(users: Seq<UserView>, i: int, password: Seq<char>)
    requires
        distinct_identities(users),
        0 <= i < users.len(),
    ensures
        password_verdict(password, users[i].password_hash) == Some(true) ==> credentials_outcome(
            users,
            users[i].username,
            password,
        ) == Ok::<UserView, AppError>(users[i]),
{
    lemma_identity_is_found(users, i);
}

} // verus!
