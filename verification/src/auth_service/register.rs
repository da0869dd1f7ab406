//! Registration of a new identity.
//!
//! A registration is refused if its username is taken; otherwise if its
//! email is taken. The order matters: it decides which refusal a request
//! meets that collides on both. Only then is the password hashed and a
//! subject id drawn. Whatever the outcome, the list of identities is either
//! untouched or longer by the one new identity.
use vstd::prelude::*;
use crate::auth_service::error::AppError;
use crate::auth_service::password::hash_password;
use crate::auth_service::password::MAX_HASH_COST;
use crate::auth_service::password::MIN_HASH_COST;
use crate::auth_service::password::password_verdict;
use crate::auth_service::state::AppState;
use crate::auth_service::state::distinct_identities;
use crate::auth_service::state::find_user;
use crate::auth_service::state::has_email;
use crate::auth_service::state::has_subject;
use crate::auth_service::state::has_username;

verus! {

/// A request to register.
#[derive(Debug, Clone, PartialEq, Eq)]
pub struct RegisterRequest {
    pub username: String,
    pub email: String,
    pub password: String,
}

/// The answer to a registration that went through.
#[derive(Debug, Clone, PartialEq, Eq)]
pub struct RegisterResponse {
    /// The subject id assigned to the new identity.
    pub user_id: String,
    pub username: String,
    pub message: String,
}

/// The model of [`RegisterResponse`].
pub struct RegisterResponseView {
    pub user_id: Seq<char>,
    pub username: Seq<char>,
    pub message: Seq<char>,
}

impl View for RegisterResponse {
    type V = RegisterResponseView;

    open spec fn view(&self) -> RegisterResponseView {
        RegisterResponseView {
            user_id: self.user_id@,
            username: self.username@,
            message: self.message@,
        }
    }
}

/// A registered identity. The password is kept only as its hash.
#[derive(Debug, Clone, PartialEq, Eq)]
pub struct User {
    /// The stable subject id, assigned at registration.
    pub user_id: String,
    pub username: String,
    pub email: String,
    pub password_hash: String,
}

/// The model of [`User`].
pub struct UserView {
    pub user_id: Seq<char>,
    pub username: Seq<char>,
    pub email: Seq<char>,
    pub password_hash: Seq<char>,
}

impl View for User {
    type V = UserView;

    open spec fn view(&self) -> UserView {
        UserView {
            user_id: self.user_id@,
            username: self.username@,
            email: self.email@,
            password_hash: self.password_hash@,
        }
    }
}

/// Whether `c` is a digit of lower-case hexadecimal.
pub open spec fn is_lower_hex(c: char) -> bool {
    ('0' <= c && c <= '9') || ('a' <= c && c <= 'f')
}

/// The hyphenated form of a UUID: 32 lower-case hexadecimal digits in
/// groups of 8, 4, 4, 4 and 12, with a hyphen between two groups.
pub open spec fn is_hyphenated_uuid(s: Seq<char>) -> bool {
    &&& s.len() == 36
    &&& forall|i: int|
        0 <= i < 36 ==> if i == 8 || i == 13 || i == 18 || i == 23 {
            #[trigger] s[i] == '-'
        } else {
            is_lower_hex(s[i])
        }
}

/// `uuid::Uuid::new_v4`, written by `to_string`: a random UUID in its
/// hyphenated lower-case form. Which one is a matter of chance; that it is
/// new is likely and not promised.
#[verifier::external_body]
fn new_subject_id() -> (id: String)
    ensures
        is_hyphenated_uuid(id@),
{
    uuid::Uuid::new_v4().to_string()
}

/// Why a registration under `username` and `email` is refused by the
/// identities already there, if it is.
pub open spec fn registration_refusal(
    users: Seq<UserView>,
    username: Seq<char>,
    email: Seq<char>,
) -> Option<AppError> {
    if has_username(users, username) {
        Some(AppError::UserAlreadyExists)
    } else if has_email(users, email) {
        Some(AppError::EmailAlreadyExists)
    } else {
        None
    }
}

/// What enrolling answers, given the identities already there.
pub open spec fn enroll_outcome(
    users: Seq<UserView>,
    username: Seq<char>,
    email: Seq<char>,
    user_id: Seq<char>,
) -> Result<RegisterResponseView, AppError> {
    match registration_refusal(users, username, email) {
        Some(e) => Err(e),
        None => if has_subject(users, user_id) {
            Err(AppError::InternalError)
        } else {
            Ok(
                RegisterResponseView {
                    user_id,
                    username,
                    message: "User registered successfully"@,
                },
            )
        },
    }
}

/// Tells why a registration under `username` and `email` is refused, if it
/// is: the username is looked at first, the email second.
pub fn check_available(state: &AppState, username: &str, email: &str) -> (refusal: Option<AppError>)
    ensures
        refusal == registration_refusal(state.users(), username@, email@),
{
    if state.find_user(username).is_some() {
        Some(AppError::UserAlreadyExists)
    } else if state.email_in_use(email) {
        Some(AppError::EmailAlreadyExists)
    } else {
        None
    }
}

/// Enrolls the identity of `req` with a password hash and a subject id that
/// were made for it.
///
/// The request is refused if its username is taken, otherwise if its email
/// is taken, and fails if the subject id is already someone's. In each of
/// these cases nothing changes. Otherwise the identity is added after those
/// already there and the answer names its subject id and username.
pub fn enroll(
    state: &mut AppState,
    req: RegisterRequest,
    password_hash: String,
    user_id: String,
) -> (r: Result<RegisterResponse, AppError>)
    ensures
        final(state).secret() == old(state).secret(),
        final(state).hash_cost() == old(state).hash_cost(),
        match r {
            Ok(response) => {
                &&& enroll_outcome(old(state).users(), req.username@, req.email@, user_id@)
                    == Ok::<RegisterResponseView, AppError>(response@)
                &&& final(state).users() == old(state).users().push(
                    UserView {
                        user_id: user_id@,
                        username: req.username@,
                        email: req.email@,
                        password_hash: password_hash@,
                    },
                )
            },
            Err(e) => {
                &&& enroll_outcome(old(state).users(), req.username@, req.email@, user_id@)
                    == Err::<RegisterResponseView, AppError>(e)
                &&& final(state).users() == old(state).users()
            },
        },
{
    if let Some(e) = check_available(state, req.username.as_str(), req.email.as_str()) {
        return Err(e);
    }
    if state.subject_in_use(user_id.as_str()) {
        return Err(AppError::InternalError);
    }
    let user = User {
        user_id: user_id.clone(),
        username: req.username.clone(),
        email: req.email,
        password_hash,
    };
    state.add_user(user);
    Ok(
        RegisterResponse {
            user_id,
            username: req.username,
            message: "User registered successfully".to_owned(),
        },
    )
}

/// Registers the identity of `req`.
///
/// The request is refused, and nothing changes, if its username is taken
/// (`UserAlreadyExists`), otherwise if its email is taken
/// (`EmailAlreadyExists`). Otherwise the password is hashed at the
/// service's work factor and a subject id is drawn. If the hashing fails,
/// as it does for a work factor that the hashing library does not accept,
/// the answer is `PasswordHashError`; if the subject id drawn is already
/// someone's, it is `InternalError`; nothing changes in either case.
/// Otherwise the identity is added after those already there: its stored
/// hash matches the password of the request, and the answer names its
/// subject id and username.
pub fn register(
    state: &mut AppState,
    req: RegisterRequest,
) -> (r: Result<RegisterResponse, AppError>)
    ensures
        final(state).secret() == old(state).secret(),
        final(state).hash_cost() == old(state).hash_cost(),
        registration_refusal(old(state).users(), req.username@, req.email@) matches Some(e) ==> r
            == Err::<RegisterResponse, AppError>(e),
        registration_refusal(old(state).users(), req.username@, req.email@) is None && (old(
            state,
        ).hash_cost() < MIN_HASH_COST || old(state).hash_cost() > MAX_HASH_COST) ==> r == Err::<
            RegisterResponse,
            AppError,
        >(AppError::PasswordHashError),
        match r {
            Ok(response) => {
                &&& registration_refusal(old(state).users(), req.username@, req.email@) is None
                &&& !has_subject(old(state).users(), response.user_id@)
                &&& is_hyphenated_uuid(response.user_id@)
                &&& response.username@ == req.username@
                &&& response.message@ == "User registered successfully"@
                &&& final(state).users().len() == old(state).users().len() + 1
                &&& final(state).users().drop_last() == old(state).users()
                &&& final(state).users().last().user_id == response.user_id@
                &&& final(state).users().last().username == req.username@
                &&& final(state).users().last().email == req.email@
                &&& password_verdict(req.password@, final(state).users().last().password_hash)
                    == Some(true)
            },
            Err(e) => {
                &&& final(state).users() == old(state).users()
                &&& registration_refusal(old(state).users(), req.username@, req.email@) is None
                    ==> e == AppError::PasswordHashError || e == AppError::InternalError
            },
        },
{
    if let Some(e) = check_available(state, req.username.as_str(), req.email.as_str()) {
        return Err(e);
    }
    match hash_password(req.password.as_str(), state.cost()) {
        Err(_) => Err(AppError::PasswordHashError),
        Ok(password_hash) => {
            let user_id = new_subject_id();
            enroll(state, req, password_hash, user_id)
        },
    }
}

/// Once an identity is registered, its username is refused to every later
/// registration, whatever email comes with it, and its email is refused to
/// a registration under a username that is still free.
pub proof fn lemma_registered_identity_blocks_reuse(
    users: Seq<UserView>,
    user: UserView,
    username: Seq<char>,
    email: Seq<char>,
)
    ensures
        registration_refusal(users.push(user), user.username, email) == Some(
            AppError::UserAlreadyExists,
        ),
        !has_username(users.push(user), username) ==> registration_refusal(
            users.push(user),
            username,
            user.email,
        ) == Some(AppError::EmailAlreadyExists),
{
    let after = users.push(user);
    assert(after[users.len() as int] == user);
}

/// A refusal stays a refusal as more identities are registered: a username
/// or an email that is taken is never free again.
pub proof fn lemma_refusals_persist(
    users: Seq<UserView>,
    later: UserView,
    username: Seq<char>,
    email: Seq<char>,
)
    ensures
        has_username(users, username) ==> has_username(users.push(later), username),
        has_email(users, email) ==> has_email(users.push(later), email),
        registration_refusal(users, username, email) is Some ==> registration_refusal(
            users.push(later),
            username,
            email,
        ) is Some,
{
    let after = users.push(later);
    if has_username(users, username) {
        let i = choose|i: int| 0 <= i < users.len() && (#[trigger] users[i]).username == username;
        assert(after[i] == users[i]);
    }
    if has_email(users, email) {
        let i = choose|i: int| 0 <= i < users.len() && (#[trigger] users[i]).email == email;
        assert(after[i] == users[i]);
    }
}

/// Every identity in the list is the one found under its username: a
/// username leads to one identity, and that does not change as others
/// register after it.
pub proof fn lemma_identity_is_found(users: Seq<UserView>, i: int)
    requires
        distinct_identities(users),
        0 <= i < users.len(),
    ensures
        find_user(users, users[i].username) == Some(users[i]),
{
}

} // verus!
