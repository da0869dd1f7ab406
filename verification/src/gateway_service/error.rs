//! The failures of the gateway and how each one is reported.
use vstd::prelude::*;
use crate::text::decimal;
use crate::text::decimal_digits;
use crate::text::lemma_three_digit_numeral;

verus! {

/// The body of an error response: the status code written as a decimal
/// numeral, and a fixed text for the kind of failure.
#[derive(Debug, Clone, PartialEq, Eq)]
pub struct ErrorResponse {
    pub status: String,
    pub message: String,
}

/// The model of [`ErrorResponse`].
pub struct ErrorResponseView {
    pub status: Seq<char>,
    pub message: Seq<char>,
}

impl View for ErrorResponse {
    type V = ErrorResponseView;

    open spec fn view(&self) -> ErrorResponseView {
        ErrorResponseView { status: self.status@, message: self.message@ }
    }
}

/// Every way a request to the gateway can fail at the gateway itself. A
/// failure that an upstream service reports is not among them: it is
/// relayed as the response it is.
#[derive(Debug, Clone, Copy, PartialEq, Eq, Structural)]
pub enum AppError {
    /// The authentication service could not be reached.
    AuthServiceUnavailable,
    /// The profile service could not be reached.
    UserServiceUnavailable,
    /// The gateway could not complete the request for a reason of its own.
    InternalError,
}

impl AppError {
    /// The HTTP status that reports this failure.
    pub open spec fn spec_status_code(self) -> u16 {
        match self {
            AppError::AuthServiceUnavailable => 503,
            AppError::UserServiceUnavailable => 503,
            AppError::InternalError => 500,
        }
    }

    /// The text that reports this failure.
    pub open spec fn spec_message(self) -> Seq<char> {
        match self {
            AppError::AuthServiceUnavailable => "Auth service unavailable"@,
            AppError::UserServiceUnavailable => "User service unavailable"@,
            AppError::InternalError => "Internal server error"@,
        }
    }

    /// The response that reports this failure: its status and its body.
    pub open spec fn spec_response(self) -> (u16, ErrorResponseView) {
        (
            self.spec_status_code(),
            ErrorResponseView {
                status: decimal_digits(self.spec_status_code() as nat),
                message: self.spec_message(),
            },
        )
    }

    /// The HTTP status that reports this failure.
    #[verifier::when_used_as_spec(spec_status_code)]
    pub fn status_code(self) -> (code: u16)
        ensures
            code == self.spec_status_code(),
    {
        match self {
            AppError::AuthServiceUnavailable => 503,
            AppError::UserServiceUnavailable => 503,
            AppError::InternalError => 500,
        }
    }

    /// The text that reports this failure.
    pub fn message(self) -> (text: &'static str)
        ensures
            text@ == self.spec_message(),
    {
        match self {
            AppError::AuthServiceUnavailable => "Auth service unavailable",
            AppError::UserServiceUnavailable => "User service unavailable",
            AppError::InternalError => "Internal server error",
        }
    }

    /// Turns the failure into the response sent to the client: the status,
    /// and a body that repeats the status as text beside the message. The
    /// response depends on the kind of failure and on nothing else.
    pub fn into_response(self) -> (response: (u16, ErrorResponse))
        ensures
            response.0 == self.spec_response().0,
            response.1@ == self.spec_response().1,
    {
        let status: u16 = self.status_code();
        let body = ErrorResponse { status: decimal(status), message: self.message().to_owned() };
        (status, body)
    }
}

/// The status of every failure is a number of three digits, and the body
/// of its response shows exactly those digits.
pub proof fn lemma_status_text(e: AppError)
    ensures
        e.spec_response().1.status == (match e {
            AppError::AuthServiceUnavailable => "503"@,
            AppError::UserServiceUnavailable => "503"@,
            AppError::InternalError => "500"@,
        }),
{
    reveal_strlit("500");
    reveal_strlit("503");
    lemma_three_digit_numeral(e.spec_status_code() as nat);
}

} // verus!
