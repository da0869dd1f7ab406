//! The failures of the authentication service and how each one is reported.
use vstd::prelude::*;
use crate::text::decimal;
use crate::text::decimal_digits;
use crate::text::lemma_three_digit_numeral;

verus! {

/// The body of an error response: the status code written as a decimal
/// numeral, and a fixed text for the kind of failure.
#[derive(Debug, Clone, PartialEq, Eq)]
pub struct ErrorResponse {
    pub status: String,
    pub message: String,
}

/// The model of [`ErrorResponse`].
pub struct ErrorResponseView {
    pub status: Seq<char>,
    pub message: Seq<char>,
}

impl View for ErrorResponse {
    type V = ErrorResponseView;

    open spec fn view(&self) -> ErrorResponseView {
        ErrorResponseView { status: self.status@, message: self.message@ }
    }
}

/// Every way a request to the authentication service can fail.
#[derive(Debug, Clone, Copy, PartialEq, Eq, Structural)]
pub enum AppError {
    /// Registration named a username that is already registered.
    UserAlreadyExists,
    /// Registration named an email that is already registered.
    EmailAlreadyExists,
    /// The password could not be hashed.
    PasswordHashError,
    /// The service could not complete the request for a reason of its own.
    InternalError,
    /// Login named an unknown user or gave a wrong password. The two cases
    /// are one kind on purpose, so that a caller cannot probe for usernames.
    InvalidCredentials,
    /// A token could not be encoded.
    TokenGenerationError,
    /// The token does not decode under this service's secret.
    InvalidToken,
    /// The token decodes, but its expiry has been reached.
    TokenExpired,
}

impl AppError {
    /// The HTTP status that reports this failure.
    pub open spec fn spec_status_code(self) -> u16 {
        match self {
            AppError::UserAlreadyExists => 409,
            AppError::EmailAlreadyExists => 409,
            AppError::PasswordHashError => 500,
            AppError::InternalError => 500,
            AppError::InvalidCredentials => 401,
            AppError::TokenGenerationError => 500,
            AppError::InvalidToken => 401,
            AppError::TokenExpired => 401,
        }
    }

    /// The text that reports this failure.
    pub open spec fn spec_message(self) -> Seq<char> {
        match self {
            AppError::UserAlreadyExists => "Username already exists"@,
            AppError::EmailAlreadyExists => "Email already registered"@,
            AppError::PasswordHashError => "Failed to hash password"@,
            AppError::InternalError => "Internal server error"@,
            AppError::InvalidCredentials => "Invalid username or password"@,
            AppError::TokenGenerationError => "Failed to generate token"@,
            AppError::InvalidToken => "Invalid or malformed token"@,
            AppError::TokenExpired => "Token has expired"@,
        }
    }

    /// The response that reports this failure: its status and its body.
    pub open spec fn spec_response(self) -> (u16, ErrorResponseView) {
        (
            self.spec_status_code(),
            ErrorResponseView {
                status: decimal_digits(self.spec_status_code() as nat),
                message: self.spec_message(),
            },
        )
    }

    /// The HTTP status that reports this failure.
    #[verifier::when_used_as_spec(spec_status_code)]
    pub fn status_code(self) -> (code: u16)
        ensures
            code == self.spec_status_code(),
    {
        match self {
            AppError::UserAlreadyExists => 409,
            AppError::EmailAlreadyExists => 409,
            AppError::PasswordHashError => 500,
            AppError::InternalError => 500,
            AppError::InvalidCredentials => 401,
            AppError::TokenGenerationError => 500,
            AppError::InvalidToken => 401,
            AppError::TokenExpired => 401,
        }
    }

    /// The text that reports this failure.
    pub fn message(self) -> (text: &'static str)
        ensures
            text@ == self.spec_message(),
    {
        match self {
            AppError::UserAlreadyExists => "Username already exists",
            AppError::EmailAlreadyExists => "Email already registered",
            AppError::PasswordHashError => "Failed to hash password",
            AppError::InternalError => "Internal server error",
            AppError::InvalidCredentials => "Invalid username or password",
            AppError::TokenGenerationError => "Failed to generate token",
            AppError::InvalidToken => "Invalid or malformed token",
            AppError::TokenExpired => "Token has expired",
        }
    }

    /// Turns the failure into the response sent to the client: the status,
    /// and a body that repeats the status as text beside the message. The
    /// response depends on the kind of failure and on nothing else.
    pub fn into_response(self) -> (response: (u16, ErrorResponse))
        ensures
            response.0 == self.spec_response().0,
            response.1@ == self.spec_response().1,
    {
        let status: u16 = self.status_code();
        let body = ErrorResponse { status: decimal(status), message: self.message().to_owned() };
        (status, body)
    }
}

/// The status of every failure is a number of three digits, and the body
/// of its response shows exactly those digits.
pub proof fn lemma_status_text(e: AppError)
    ensures
        e.spec_response().1.status == (match e {
            AppError::UserAlreadyExists => "409"@,
            AppError::EmailAlreadyExists => "409"@,
            AppError::PasswordHashError => "500"@,
            AppError::InternalError => "500"@,
            AppError::InvalidCredentials => "401"@,
            AppError::TokenGenerationError => "500"@,
            AppError::InvalidToken => "401"@,
            AppError::TokenExpired => "401"@,
        }),
{
    reveal_strlit("401");
    reveal_strlit("409");
    reveal_strlit("500");
    lemma_three_digit_numeral(e.spec_status_code() as nat);
}

} // verus!
