//! Error taxonomy of the gateway and the response body sent with a rejection.

use vstd::prelude::*;

verus! {

/// Why a request (or the start-up) was refused.
#[derive(Clone, Copy, Debug, PartialEq, Eq, Structural)]
pub enum GatewayError {
    /// Start-up configuration is missing or invalid.
    ConfigError,
    /// The current time cannot be represented in a token.
    ClockError,
    /// A token could not be signed.
    SigningError,
    /// The request itself is malformed (empty or non-text identifier).
    BadRequest,
    /// The telemetry payload could not be decoded.
    DecodeError,
    /// The bearer token is missing, invalid or expired.
    Unauthorized,
    /// The duplicate-suppression store could not be reached.
    CacheUnavailable,
    /// The broker or a backend service could not be reached.
    BackendUnavailable,
    /// The rate or concurrency limit was exceeded.
    AdmissionRejected,
    /// The request comes from an origin other than the allowed one.
    OriginNotAllowed,
}

/// HTTP status code answered for each error.
pub open spec fn status_of(e: GatewayError) -> u16 {
    match e {
        GatewayError::ConfigError => 500,
        GatewayError::ClockError => 500,
        GatewayError::SigningError => 500,
        GatewayError::BadRequest => 400,
        GatewayError::DecodeError => 400,
        GatewayError::Unauthorized => 401,
        GatewayError::CacheUnavailable => 503,
        GatewayError::BackendUnavailable => 503,
        GatewayError::AdmissionRejected => 429,
        GatewayError::OriginNotAllowed => 403,
    }
}

impl GatewayError {
    /// HTTP status code answered for the error.
    pub fn status_code(&self) -> (r: u16)
        ensures
            r == status_of(*self),
    {
        match self {
            GatewayError::ConfigError => 500,
            GatewayError::ClockError => 500,
            GatewayError::SigningError => 500,
            GatewayError::BadRequest => 400,
            GatewayError::DecodeError => 400,
            GatewayError::Unauthorized => 401,
            GatewayError::CacheUnavailable => 503,
            GatewayError::BackendUnavailable => 503,
            GatewayError::AdmissionRejected => 429,
            GatewayError::OriginNotAllowed => 403,
        }
    }
}

/// What an `ErrorResponse` says: its status word and its message.
pub struct ErrorResponseView {
    pub status: Seq<char>,
    pub message: Seq<char>,
}

/// Error Response
#[derive(Debug)]
pub struct ErrorResponse {
    /// Status
    status: String,
    /// Message
    message: String,
}

impl View for ErrorResponse {
    type V = ErrorResponseView;

    closed spec fn view(&self) -> ErrorResponseView {
        ErrorResponseView { status: self.status@, message: self.message@ }
    }
}

/// The status word of a request that was refused.
pub open spec fn fail_word() -> Seq<char> {
    seq!['f', 'a', 'i', 'l']
}

/// The status word of a request that the gateway could not serve.
pub open spec fn error_word() -> Seq<char> {
    seq!['e', 'r', 'r', 'o', 'r']
}

/// What a rejection says of each error.
pub open spec fn message_of(e: GatewayError) -> Seq<char> {
    match e {
        GatewayError::ConfigError => "the gateway is not configured."@,
        GatewayError::ClockError => "the current time cannot be put into a token."@,
        GatewayError::SigningError => "could not sign the token."@,
        GatewayError::BadRequest => "the identifier is empty or is not text."@,
        GatewayError::DecodeError => "could not decode the payload."@,
        GatewayError::Unauthorized => "You are not logged in, please provide token."@,
        GatewayError::CacheUnavailable => "the store of recent packets is unavailable."@,
        GatewayError::BackendUnavailable => "a backend service is unavailable."@,
        GatewayError::AdmissionRejected => "too many requests."@,
        GatewayError::OriginNotAllowed => "requests from this origin are not allowed."@,
    }
}

/// The body that answers a request refused with `e`.
pub open spec fn body_of(e: GatewayError) -> ErrorResponseView {
    ErrorResponseView {
        status: if status_of(e) >= 500 {
            error_word()
        } else {
            fail_word()
        },
        message: message_of(e),
    }
}

impl ErrorResponse {
    /// A body with status `"fail"`: the request was refused.
    pub fn fail(message: String) -> (r: Self)
        ensures
            r@.status == fail_word(),
            r@.message == message@,
    {
        proof {
            reveal_strlit("fail");
        }
        let status = "fail".to_owned();
        assert(status@ =~= fail_word());
        ErrorResponse { status, message }
    }

    /// A body with status `"error"`: the gateway itself could not serve.
    pub fn error(message: String) -> (r: Self)
        ensures
            r@.status == error_word(),
            r@.message == message@,
    {
        proof {
            reveal_strlit("error");
        }
        let status = "error".to_owned();
        assert(status@ =~= error_word());
        ErrorResponse { status, message }
    }

    /// The body that answers a request refused with `error`: status `"fail"`
    /// where the request is at fault, `"error"` where the gateway or
    /// something behind it is, and the error's message.
    pub fn of(error: GatewayError) -> (r: Self)
        ensures
            r@ == body_of(error),
    {
        let message = match error {
            GatewayError::ConfigError => "the gateway is not configured.",
            GatewayError::ClockError => "the current time cannot be put into a token.",
            GatewayError::SigningError => "could not sign the token.",
            GatewayError::BadRequest => "the identifier is empty or is not text.",
            GatewayError::DecodeError => "could not decode the payload.",
            GatewayError::Unauthorized => "You are not logged in, please provide token.",
            GatewayError::CacheUnavailable => "the store of recent packets is unavailable.",
            GatewayError::BackendUnavailable => "a backend service is unavailable.",
            GatewayError::AdmissionRejected => "too many requests.",
            GatewayError::OriginNotAllowed => "requests from this origin are not allowed.",
        };
        if error.status_code() >= 500 {
            ErrorResponse::error(message.to_owned())
        } else {
            ErrorResponse::fail(message.to_owned())
        }
    }

    /// The status word.
    pub fn status(&self) -> (r: &str)
        ensures
            r@ == self@.status,
    {
        self.status.as_str()
    }

    /// The message.
    pub fn message(&self) -> (r: &str)
        ensures
            r@ == self@.message,
    {
        self.message.as_str()
    }
}

} // verus!
