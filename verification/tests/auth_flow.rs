use auth_services::auth_service::error::AppError;
use auth_services::clock::CLOCK_LIMIT;
use auth_services::auth_service::login::{
    judge_password, login, login_at, login_response, LoginRequest, LoginResponse,
};
use auth_services::auth_service::register::{enroll, register, RegisterRequest};
use auth_services::auth_service::state::AppState;
use auth_services::auth_service::token::{
    Claims, TokenAuthority, TokenError, TokenIssuanceError, TOKEN_TTL_SECONDS,
};
use auth_services::auth_service::validate::{
    validate, validate_at, validation_response, ValidateRequest, ValidateResponse,
};

const NOW: i64 = 1_700_000_000;

fn service() -> AppState {
    AppState::with_hash_cost(b"a-secret-for-tests".to_vec(), 4)
}

fn registration(username: &str, email: &str, password: &str) -> RegisterRequest {
    RegisterRequest {
        username: username.to_string(),
        email: email.to_string(),
        password: password.to_string(),
    }
}

fn credentials(username: &str, password: &str) -> LoginRequest {
    LoginRequest { username: username.to_string(), password: password.to_string() }
}

fn is_uuid(text: &str) -> bool {
    text.len() == 36
        && text.chars().enumerate().all(|(i, c)| {
            if i == 8 || i == 13 || i == 18 || i == 23 {
                c == '-'
            } else {
                c.is_ascii_digit() || ('a'..='f').contains(&c)
            }
        })
}

#[test]
fn register_login_validate_then_expire() {
    let mut state = service();
    let registered = register(&mut state, registration("alice", "a@x.com", "pw1")).unwrap();
    assert_eq!(registered.username, "alice");
    assert_eq!(registered.message, "User registered successfully");
    assert!(is_uuid(&registered.user_id));

    let granted = login_at(&state, &credentials("alice", "pw1"), NOW).unwrap();
    assert_eq!(granted.token_type, "Bearer");
    assert_eq!(granted.expires_in, 86400);

    let request = ValidateRequest { token: granted.token.clone() };
    let expected = ValidateResponse {
        valid: true,
        user_id: registered.user_id.clone(),
        username: "alice".to_string(),
    };
    assert_eq!(validate_at(&state, &request, NOW), Ok(expected.clone()));
    assert_eq!(validate_at(&state, &request, NOW + 86399), Ok(expected));
    assert_eq!(validate_at(&state, &request, NOW + 86400), Err(AppError::TokenExpired));
    assert_eq!(validate_at(&state, &request, NOW + 86401), Err(AppError::TokenExpired));
}

#[test]
fn registration_stores_a_hash_and_not_the_password() {
    let mut state = service();
    let registered = register(&mut state, registration("alice", "a@x.com", "pw1")).unwrap();
    assert_eq!(state.user_count(), 1);
    let stored = state.find_user("alice").unwrap();
    assert_eq!(stored.user_id, registered.user_id);
    assert_eq!(stored.email, "a@x.com");
    assert_ne!(stored.password_hash, "pw1");
    assert_eq!(stored.password_hash.len(), 60);
    assert!(stored.password_hash.starts_with("$2b$04$"));
    assert!(state.find_user("bob").is_none());
}

#[test]
fn unknown_user_and_wrong_password_are_answered_alike() {
    let mut state = service();
    register(&mut state, registration("alice", "a@x.com", "pw1")).unwrap();
    let unknown = login_at(&state, &credentials("mallory", "pw1"), NOW).unwrap_err();
    let wrong = login_at(&state, &credentials("alice", "not-pw1"), NOW).unwrap_err();
    assert_eq!(unknown, AppError::InvalidCredentials);
    assert_eq!(wrong, AppError::InvalidCredentials);
    let (unknown_status, unknown_body) = unknown.into_response();
    let (wrong_status, wrong_body) = wrong.into_response();
    assert_eq!(unknown_status, 401);
    assert_eq!(wrong_status, 401);
    assert_eq!(unknown_body, wrong_body);
    assert_eq!(unknown_body.status, "401");
    assert_eq!(unknown_body.message, "Invalid username or password");
}

#[test]
fn issued_token_names_the_registered_subject() {
    let mut state = service();
    let alice = register(&mut state, registration("alice", "a@x.com", "pw1")).unwrap();
    let bob = register(&mut state, registration("bob", "b@x.com", "pw2")).unwrap();
    assert_ne!(alice.user_id, bob.user_id);
    let granted = login_at(&state, &credentials("bob", "pw2"), NOW).unwrap();
    let claims = state.authority().verify(&granted.token, NOW).unwrap();
    assert_eq!(
        claims,
        Claims { sub: bob.user_id, username: "bob".to_string(), exp: NOW + TOKEN_TTL_SECONDS }
    );
}

#[test]
fn token_expires_after_its_lifetime_and_not_before() {
    let authority = TokenAuthority::new(b"k".to_vec());
    let token = authority.issue("id-1", "alice", 1000).unwrap();
    assert_ne!(token, "id-1");
    assert_eq!(token.matches('.').count(), 2);
    let claims = Claims { sub: "id-1".to_string(), username: "alice".to_string(), exp: 87400 };
    assert_eq!(authority.verify(&token, 1000), Ok(claims.clone()));
    assert_eq!(authority.verify(&token, 87399), Ok(claims.clone()));
    assert_eq!(authority.verify(&token, 87400), Err(TokenError::Expired));
    assert_eq!(authority.verify(&token, 87401), Err(TokenError::Expired));
    assert_eq!(authority.verify(&token, i64::MAX), Err(TokenError::Expired));
    assert_eq!(authority.verify(&token, i64::MIN), Ok(claims));
}

#[test]
fn token_issued_before_the_epoch_still_reads_back() {
    let authority = TokenAuthority::new(b"k".to_vec());
    let token = authority.issue("id-1", "alice", -100_000).unwrap();
    let claims = Claims { sub: "id-1".to_string(), username: "alice".to_string(), exp: -13_600 };
    assert_eq!(authority.verify(&token, -13_601), Ok(claims));
    assert_eq!(authority.verify(&token, -13_600), Err(TokenError::Expired));
}

#[test]
fn issuing_is_a_function_of_claims_and_secret() {
    let authority = TokenAuthority::new(b"k".to_vec());
    let first = authority.issue("id-1", "alice", 1000).unwrap();
    let second = authority.issue("id-1", "alice", 1000).unwrap();
    assert_eq!(first, second);
    // The header and the payload are the base64url forms of
    // {"typ":"JWT","alg":"HS256"} and {"sub":"id-1","username":"alice","exp":87400}.
    let signed_part = "eyJ0eXAiOiJKV1QiLCJhbGciOiJIUzI1NiJ9.\
                       eyJzdWIiOiJpZC0xIiwidXNlcm5hbWUiOiJhbGljZSIsImV4cCI6ODc0MDB9";
    assert_eq!(first.rsplit_once('.').unwrap().0, signed_part);
    assert_eq!(first.rsplit_once('.').unwrap().1.len(), 43);
    assert_ne!(first, authority.issue("id-1", "alice", 1001).unwrap());
    assert_ne!(first, authority.issue("id-2", "alice", 1000).unwrap());
    assert_ne!(first, TokenAuthority::new(b"other".to_vec()).issue("id-1", "alice", 1000).unwrap());
}

#[test]
fn claims_with_unusual_text_read_back() {
    let authority = TokenAuthority::new(Vec::new());
    let subject = "quote\" back\\slash \u{1F600} \n tab\t";
    let name = "";
    let token = authority.issue(subject, name, 0).unwrap();
    let claims = authority.verify(&token, 0).unwrap();
    assert_eq!(claims.sub, subject);
    assert_eq!(claims.username, name);
    assert_eq!(claims.exp, 86400);
}

#[test]
fn tampered_signature_is_malformed_never_expired() {
    let authority = TokenAuthority::new(b"k".to_vec());
    let token = authority.issue("id-1", "alice", 1000).unwrap();
    let mut bytes = token.clone().into_bytes();
    let last = bytes.len() - 1;
    bytes[last] = if bytes[last] == b'A' { b'B' } else { b'A' };
    let tampered = String::from_utf8(bytes).unwrap();
    assert_ne!(tampered, token);
    assert_eq!(authority.verify(&tampered, 1000), Err(TokenError::Malformed));
    assert_eq!(authority.verify(&tampered, 1000 + 86400), Err(TokenError::Malformed));
    assert_eq!(authority.verify(&tampered, i64::MAX), Err(TokenError::Malformed));

    let mut state = service();
    register(&mut state, registration("alice", "a@x.com", "pw1")).unwrap();
    let granted = login_at(&state, &credentials("alice", "pw1"), NOW).unwrap();
    let mut bytes = granted.token.into_bytes();
    let first_of_signature = bytes.iter().rposition(|b| *b == b'.').unwrap() + 1;
    bytes[first_of_signature] = if bytes[first_of_signature] == b'x' { b'y' } else { b'x' };
    let request = ValidateRequest { token: String::from_utf8(bytes).unwrap() };
    assert_eq!(validate_at(&state, &request, NOW), Err(AppError::InvalidToken));
    assert_eq!(validate_at(&state, &request, NOW + 90000), Err(AppError::InvalidToken));
}

#[test]
fn token_of_another_secret_is_malformed() {
    let ours = TokenAuthority::new(b"ours".to_vec());
    let theirs = TokenAuthority::new(b"theirs".to_vec());
    let token = theirs.issue("id-1", "alice", 1000).unwrap();
    assert_eq!(ours.verify(&token, 1000), Err(TokenError::Malformed));
    assert_eq!(ours.verify(&token, 1000 + 86400), Err(TokenError::Malformed));
}

#[test]
fn text_that_is_no_token_is_malformed() {
    let authority = TokenAuthority::new(b"k".to_vec());
    for text in ["", "abc", "a.b", "a.b.c", "a.b.c.d", "..", "Bearer x"] {
        assert_eq!(authority.verify(text, 0), Err(TokenError::Malformed));
        assert_eq!(authority.verify(text, i64::MAX), Err(TokenError::Malformed));
    }
}

#[test]
fn check_expiry_judges_what_was_decoded() {
    let claims = Claims { sub: "s".to_string(), username: "u".to_string(), exp: 10 };
    assert_eq!(TokenAuthority::check_expiry(None, 0), Err(TokenError::Malformed));
    assert_eq!(TokenAuthority::check_expiry(None, 11), Err(TokenError::Malformed));
    assert_eq!(TokenAuthority::check_expiry(Some(claims.clone()), 9), Ok(claims.clone()));
    assert_eq!(TokenAuthority::check_expiry(Some(claims.clone()), 10), Err(TokenError::Expired));
    assert_eq!(TokenAuthority::check_expiry(Some(claims), 11), Err(TokenError::Expired));
}

#[test]
fn same_username_twice_is_refused_whatever_the_email() {
    let mut state = service();
    register(&mut state, registration("alice", "a@x.com", "pw1")).unwrap();
    assert_eq!(
        register(&mut state, registration("alice", "other@x.com", "pw2")),
        Err(AppError::UserAlreadyExists)
    );
    assert_eq!(
        register(&mut state, registration("alice", "a@x.com", "pw1")),
        Err(AppError::UserAlreadyExists)
    );
    assert_eq!(state.user_count(), 1);
}

#[test]
fn same_email_under_another_username_is_refused() {
    let mut state = service();
    register(&mut state, registration("alice", "a@x.com", "pw1")).unwrap();
    assert_eq!(
        register(&mut state, registration("bob", "a@x.com", "pw2")),
        Err(AppError::EmailAlreadyExists)
    );
    assert_eq!(state.user_count(), 1);
    assert!(state.find_user("bob").is_none());
    assert!(register(&mut state, registration("bob", "b@x.com", "pw2")).is_ok());
    assert_eq!(state.user_count(), 2);
}

#[test]
fn username_collision_is_reported_before_email_collision() {
    let mut state = service();
    register(&mut state, registration("alice", "a@x.com", "pw1")).unwrap();
    register(&mut state, registration("bob", "b@x.com", "pw2")).unwrap();
    assert_eq!(
        register(&mut state, registration("alice", "b@x.com", "pw3")),
        Err(AppError::UserAlreadyExists)
    );
}

#[test]
fn usernames_and_emails_are_compared_exactly() {
    let mut state = service();
    register(&mut state, registration("alice", "a@x.com", "pw1")).unwrap();
    assert!(register(&mut state, registration("Alice", "A@x.com", "pw1")).is_ok());
    assert!(register(&mut state, registration("alice ", "a@x.com ", "pw1")).is_ok());
    assert_eq!(state.user_count(), 3);
}

#[test]
fn work_factor_out_of_range_fails_the_hashing() {
    for cost in [0, 3, 32, u32::MAX] {
        let mut state = AppState::with_hash_cost(b"k".to_vec(), cost);
        assert_eq!(
            register(&mut state, registration("alice", "a@x.com", "pw1")),
            Err(AppError::PasswordHashError)
        );
        assert_eq!(state.user_count(), 0);
    }
}

#[test]
fn enroll_refuses_a_subject_id_that_is_taken() {
    let mut state = service();
    let first = enroll(
        &mut state,
        registration("alice", "a@x.com", "pw1"),
        "hash-1".to_string(),
        "id-1".to_string(),
    )
    .unwrap();
    assert_eq!(first.user_id, "id-1");
    assert_eq!(first.username, "alice");
    assert_eq!(first.message, "User registered successfully");
    assert_eq!(
        enroll(
            &mut state,
            registration("bob", "b@x.com", "pw2"),
            "hash-2".to_string(),
            "id-1".to_string()
        ),
        Err(AppError::InternalError)
    );
    assert_eq!(
        enroll(
            &mut state,
            registration("alice", "b@x.com", "pw2"),
            "hash-2".to_string(),
            "id-2".to_string()
        ),
        Err(AppError::UserAlreadyExists)
    );
    assert_eq!(
        enroll(
            &mut state,
            registration("bob", "a@x.com", "pw2"),
            "hash-2".to_string(),
            "id-2".to_string()
        ),
        Err(AppError::EmailAlreadyExists)
    );
    assert_eq!(state.user_count(), 1);
    assert_eq!(state.find_user("alice").unwrap().password_hash, "hash-1");
}

#[test]
fn login_with_an_unreadable_stored_hash_is_an_internal_error() {
    let mut state = service();
    enroll(
        &mut state,
        registration("alice", "a@x.com", "pw1"),
        "not-a-bcrypt-hash".to_string(),
        "id-1".to_string(),
    )
    .unwrap();
    assert_eq!(login_at(&state, &credentials("alice", "pw1"), NOW), Err(AppError::InternalError));
    assert_eq!(
        login_at(&state, &credentials("alice", "not-a-bcrypt-hash"), NOW),
        Err(AppError::InternalError)
    );
}

#[test]
fn login_fails_when_the_expiry_cannot_be_represented() {
    let mut state = service();
    register(&mut state, registration("alice", "a@x.com", "pw1")).unwrap();
    let request = credentials("alice", "pw1");
    assert_eq!(login_at(&state, &request, i64::MAX), Err(AppError::InternalError));
    assert_eq!(login_at(&state, &request, i64::MAX - 86399), Err(AppError::InternalError));
    assert!(login_at(&state, &request, i64::MAX - 86400).is_ok());
    assert_eq!(
        login_at(&state, &credentials("alice", "wrong"), i64::MAX),
        Err(AppError::InvalidCredentials)
    );
}

#[test]
fn repeated_validation_gives_the_same_answer() {
    let mut state = service();
    register(&mut state, registration("alice", "a@x.com", "pw1")).unwrap();
    let granted = login_at(&state, &credentials("alice", "pw1"), NOW).unwrap();
    let request = ValidateRequest { token: granted.token };
    let first = validate_at(&state, &request, NOW).unwrap();
    let second = validate_at(&state, &request, NOW).unwrap();
    let later = validate_at(&state, &request, NOW + 3600).unwrap();
    assert_eq!(first, second);
    assert_eq!(first, later);
    assert!(first.valid);
}

#[test]
fn login_and_validate_read_the_wall_clock() {
    let mut state = service();
    let registered = register(&mut state, registration("alice", "a@x.com", "pw1")).unwrap();
    let granted = login(&state, &credentials("alice", "pw1")).unwrap();
    let answer = validate(&state, &ValidateRequest { token: granted.token.clone() }).unwrap();
    assert_eq!(answer.user_id, registered.user_id);
    assert_eq!(answer.username, "alice");
    let claims = state.authority().verify(&granted.token, 0).unwrap();
    assert!(claims.exp > 1_700_000_000 + TOKEN_TTL_SECONDS);
    assert!(claims.exp < CLOCK_LIMIT + TOKEN_TTL_SECONDS);
    assert_eq!(CLOCK_LIMIT, 86_400 * (1_i64 << 31));
    assert_eq!(
        validate_at(&state, &ValidateRequest { token: granted.token }, claims.exp),
        Err(AppError::TokenExpired)
    );
    assert_eq!(login(&state, &credentials("alice", "nope")), Err(AppError::InvalidCredentials));
    assert_eq!(
        validate(&state, &ValidateRequest { token: "nonsense".to_string() }),
        Err(AppError::InvalidToken)
    );
}

#[test]
fn passwords_with_default_work_factor_round_trip() {
    let mut state = AppState::new(b"k".to_vec());
    register(&mut state, registration("alice", "a@x.com", "pw1")).unwrap();
    assert!(state.find_user("alice").unwrap().password_hash.starts_with("$2b$12$"));
    assert!(login_at(&state, &credentials("alice", "pw1"), NOW).is_ok());
}

#[test]
fn auth_errors_map_to_status_and_message() {
    let table = [
        (AppError::UserAlreadyExists, 409, "409", "Username already exists"),
        (AppError::EmailAlreadyExists, 409, "409", "Email already registered"),
        (AppError::PasswordHashError, 500, "500", "Failed to hash password"),
        (AppError::InternalError, 500, "500", "Internal server error"),
        (AppError::InvalidCredentials, 401, "401", "Invalid username or password"),
        (AppError::TokenGenerationError, 500, "500", "Failed to generate token"),
        (AppError::InvalidToken, 401, "401", "Invalid or malformed token"),
        (AppError::TokenExpired, 401, "401", "Token has expired"),
    ];
    for (error, status, status_text, message) in table {
        assert_eq!(error.status_code(), status);
        assert_eq!(error.message(), message);
        let (code, body) = error.into_response();
        assert_eq!(code, status);
        assert_eq!(body.status, status_text);
        assert_eq!(body.message, message);
    }
}

#[test]
fn new_service_has_no_identities_and_the_default_work_factor() {
    let state = AppState::new(b"k".to_vec());
    assert_eq!(state.user_count(), 0);
    assert_eq!(state.cost(), 12);
    assert!(state.identities().is_empty());
    assert!(state.find_user("").is_none());
    assert_eq!(AppState::with_hash_cost(Vec::new(), 7).cost(), 7);
    assert_eq!(login_at(&state, &credentials("", ""), NOW), Err(AppError::InvalidCredentials));
}

#[test]
fn store_answers_for_usernames_emails_and_subjects() {
    let mut state = service();
    let alice = register(&mut state, registration("alice", "a@x.com", "pw1")).unwrap();
    let bob = register(&mut state, registration("bob", "b@x.com", "pw2")).unwrap();
    assert!(state.email_in_use("a@x.com"));
    assert!(state.email_in_use("b@x.com"));
    assert!(!state.email_in_use("c@x.com"));
    assert!(!state.email_in_use("alice"));
    assert!(state.subject_in_use(&alice.user_id));
    assert!(state.subject_in_use(&bob.user_id));
    assert!(!state.subject_in_use("alice"));
    let listed: Vec<&str> = state.identities().iter().map(|u| u.username.as_str()).collect();
    assert_eq!(listed, vec!["alice", "bob"]);
    assert_eq!(state.find_user("bob").unwrap().user_id, bob.user_id);
}

#[test]
fn earlier_identity_still_logs_in_after_later_registrations() {
    let mut state = service();
    let alice = register(&mut state, registration("alice", "a@x.com", "pw1")).unwrap();
    register(&mut state, registration("bob", "b@x.com", "pw2")).unwrap();
    register(&mut state, registration("carol", "c@x.com", "pw3")).unwrap();
    let granted = login_at(&state, &credentials("alice", "pw1"), NOW).unwrap();
    let answer = validate_at(&state, &ValidateRequest { token: granted.token }, NOW + 1).unwrap();
    assert_eq!(answer.user_id, alice.user_id);
    assert_eq!(login_at(&state, &credentials("alice", "pw2"), NOW), Err(AppError::InvalidCredentials));
    assert_eq!(login_at(&state, &credentials("bob", "pw1"), NOW), Err(AppError::InvalidCredentials));
}

#[test]
fn judge_password_maps_the_verdict() {
    assert_eq!(judge_password(Ok(true)), Ok(()));
    assert_eq!(judge_password(Ok(false)), Err(AppError::InvalidCredentials));
    assert_eq!(
        judge_password(Err(bcrypt::BcryptError::InvalidHash("malformed"))),
        Err(AppError::InternalError)
    );
    assert_eq!(
        judge_password(Err(bcrypt::BcryptError::CostNotAllowed(99))),
        Err(AppError::InternalError)
    );
}

#[test]
fn login_response_wraps_the_token() {
    assert_eq!(
        login_response(Ok("t.o.k".to_string())),
        Ok(LoginResponse {
            token: "t.o.k".to_string(),
            token_type: "Bearer".to_string(),
            expires_in: 86400,
        })
    );
    assert_eq!(login_response(Err(TokenIssuanceError)), Err(AppError::TokenGenerationError));
    assert_eq!(AppError::TokenGenerationError.into_response().0, 500);
}

#[test]
fn validation_response_maps_claims_and_failures() {
    let claims = Claims { sub: "id-1".to_string(), username: "alice".to_string(), exp: 5 };
    assert_eq!(
        validation_response(Ok(claims)),
        Ok(ValidateResponse {
            valid: true,
            user_id: "id-1".to_string(),
            username: "alice".to_string(),
        })
    );
    assert_eq!(validation_response(Err(TokenError::Malformed)), Err(AppError::InvalidToken));
    assert_eq!(validation_response(Err(TokenError::Expired)), Err(AppError::TokenExpired));
}
