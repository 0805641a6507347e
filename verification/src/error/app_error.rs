//! The error of every operation of the login flow.

use super::token_error::{ErrorResponse, TokenError, TOKEN_ERROR_STATUS};
use vstd::prelude::*;

verus! {

/// Why an operation of the login flow failed.
#[derive(Debug, PartialEq, Eq)]
pub enum AppError {
    /// A failure that fits no other class.
    InternalServerError(String),
    /// The request has no session to speak for it.
    Unauthorized,
    /// The request is malformed.
    BadRequest(String),
    /// No live session, or no user, matches.
    NotFound(String),
    /// A token was refused or did not match.
    TokenError(TokenError),
    /// A startup parameter is missing or unusable.
    ConfigurationError(String),
    /// The store is unavailable or one of its constraints was violated.
    DatabaseError(String),
    /// The round trip to the provider's token endpoint failed.
    ExchangeError(String),
    /// The round trip to the provider's user-info endpoint failed.
    RemoteError(String),
}

/// The class of an error, without its description.
#[derive(Clone, Copy, Debug, PartialEq, Eq, Structural)]
pub enum ErrorKind {
    InternalServerError,
    Unauthorized,
    BadRequest,
    NotFound,
    InvalidToken,
    MissingToken,
    TokenExpired,
    GenericTokenError,
    ConfigurationError,
    DatabaseError,
    ExchangeError,
    RemoteError,
}

/// Whether `result` is a failure of the class `kind` that carries the
/// description `detail`.
pub open spec fn is_failure<T>(result: Result<T, AppError>, kind: ErrorKind, detail: Seq<char>) -> bool {
    result matches Err(error) && error.spec_kind() == kind && error.detail() == detail
}

/// Whether `result` is the text `text`.
pub open spec fn is_text(result: Result<String, AppError>, text: Seq<char>) -> bool {
    result matches Ok(found) && found@ == text
}

impl AppError {
    /// The class of this error.
    pub open spec fn spec_kind(&self) -> ErrorKind {
        match self {
            AppError::InternalServerError(_) => ErrorKind::InternalServerError,
            AppError::Unauthorized => ErrorKind::Unauthorized,
            AppError::BadRequest(_) => ErrorKind::BadRequest,
            AppError::NotFound(_) => ErrorKind::NotFound,
            AppError::TokenError(TokenError::InvalidToken) => ErrorKind::InvalidToken,
            AppError::TokenError(TokenError::MissingToken) => ErrorKind::MissingToken,
            AppError::TokenError(TokenError::TokenExpired) => ErrorKind::TokenExpired,
            AppError::TokenError(TokenError::GenericTokenError(_)) => ErrorKind::GenericTokenError,
            AppError::ConfigurationError(_) => ErrorKind::ConfigurationError,
            AppError::DatabaseError(_) => ErrorKind::DatabaseError,
            AppError::ExchangeError(_) => ErrorKind::ExchangeError,
            AppError::RemoteError(_) => ErrorKind::RemoteError,
        }
    }

    /// The description that the error carries; empty where it carries none.
    pub open spec fn detail(self) -> Seq<char> {
        match self {
            AppError::InternalServerError(detail) => detail@,
            AppError::BadRequest(detail) => detail@,
            AppError::NotFound(detail) => detail@,
            AppError::TokenError(TokenError::GenericTokenError(detail)) => detail@,
            AppError::ConfigurationError(detail) => detail@,
            AppError::DatabaseError(detail) => detail@,
            AppError::ExchangeError(detail) => detail@,
            AppError::RemoteError(detail) => detail@,
            _ => Seq::empty(),
        }
    }

    /// The text that stands for this error in a log line.
    pub open spec fn text(self) -> Seq<char> {
        match self {
            AppError::InternalServerError(detail) => "Internal server error: "@ + detail@,
            AppError::Unauthorized => "Unauthorized"@,
            AppError::BadRequest(detail) => "Bad request: "@ + detail@,
            AppError::NotFound(detail) => "Not found: "@ + detail@,
            AppError::TokenError(error) => error.text(),
            AppError::ConfigurationError(detail) => "Configuration error: "@ + detail@,
            AppError::DatabaseError(detail) => "Database error: "@ + detail@,
            AppError::ExchangeError(detail) => "Exchange error: "@ + detail@,
            AppError::RemoteError(detail) => "Remote error: "@ + detail@,
        }
    }

    /// The HTTP status that answers an error of the given class: 401 for a
    /// missing session and for every token error, 400 for a malformed request,
    /// 404 for a missing session or user, 500 for the rest.
    pub open spec fn status_of(kind: ErrorKind) -> u16 {
        match kind {
            ErrorKind::Unauthorized => 401,
            ErrorKind::InvalidToken => TOKEN_ERROR_STATUS,
            ErrorKind::MissingToken => TOKEN_ERROR_STATUS,
            ErrorKind::TokenExpired => TOKEN_ERROR_STATUS,
            ErrorKind::GenericTokenError => TOKEN_ERROR_STATUS,
            ErrorKind::BadRequest => 400,
            ErrorKind::NotFound => 404,
            ErrorKind::InternalServerError => 500,
            ErrorKind::ConfigurationError => 500,
            ErrorKind::DatabaseError => 500,
            ErrorKind::ExchangeError => 500,
            ErrorKind::RemoteError => 500,
        }
    }

    /// The body of the HTTP answer: the description alone where the error
    /// carries one, else the error's text.
    pub open spec fn body(self) -> Seq<char> {
        match self {
            AppError::Unauthorized => self.text(),
            AppError::TokenError(error) => error.text(),
            _ => self.detail(),
        }
    }

    /// The class of this error.
    #[verifier::when_used_as_spec(spec_kind)]
    pub fn kind(&self) -> (kind: ErrorKind)
        ensures
            kind == self.spec_kind(),
    {
        match self {
            AppError::InternalServerError(_) => ErrorKind::InternalServerError,
            AppError::Unauthorized => ErrorKind::Unauthorized,
            AppError::BadRequest(_) => ErrorKind::BadRequest,
            AppError::NotFound(_) => ErrorKind::NotFound,
            AppError::TokenError(TokenError::InvalidToken) => ErrorKind::InvalidToken,
            AppError::TokenError(TokenError::MissingToken) => ErrorKind::MissingToken,
            AppError::TokenError(TokenError::TokenExpired) => ErrorKind::TokenExpired,
            AppError::TokenError(TokenError::GenericTokenError(_)) => ErrorKind::GenericTokenError,
            AppError::ConfigurationError(_) => ErrorKind::ConfigurationError,
            AppError::DatabaseError(_) => ErrorKind::DatabaseError,
            AppError::ExchangeError(_) => ErrorKind::ExchangeError,
            AppError::RemoteError(_) => ErrorKind::RemoteError,
        }
    }

    /// Renders the error as text.
    pub fn to_string(&self) -> (text: String)
        ensures
            text@ == self.text(),
    {
        match self {
            AppError::InternalServerError(detail) => {
                String::from_str("Internal server error: ").concat(detail.as_str())
            },
            AppError::Unauthorized => String::from_str("Unauthorized"),
            AppError::BadRequest(detail) => String::from_str("Bad request: ").concat(detail.as_str()),
            AppError::NotFound(detail) => String::from_str("Not found: ").concat(detail.as_str()),
            AppError::TokenError(error) => error.to_string(),
            AppError::ConfigurationError(detail) => {
                String::from_str("Configuration error: ").concat(detail.as_str())
            },
            AppError::DatabaseError(detail) => {
                String::from_str("Database error: ").concat(detail.as_str())
            },
            AppError::ExchangeError(detail) => {
                String::from_str("Exchange error: ").concat(detail.as_str())
            },
            AppError::RemoteError(detail) => {
                String::from_str("Remote error: ").concat(detail.as_str())
            },
        }
    }

    /// The HTTP status that answers this error.
    pub fn status_code(&self) -> (status: u16)
        ensures
            status == Self::status_of(self.spec_kind()),
            status == 400 || status == 401 || status == 404 || status == 500,
    {
        match self {
            AppError::Unauthorized => 401,
            AppError::TokenError(error) => error.status_code(),
            AppError::BadRequest(_) => 400,
            AppError::NotFound(_) => 404,
            AppError::InternalServerError(_) => 500,
            AppError::ConfigurationError(_) => 500,
            AppError::DatabaseError(_) => 500,
            AppError::ExchangeError(_) => 500,
            AppError::RemoteError(_) => 500,
        }
    }

    /// The HTTP answer to this error: its status, and a short message.
    pub fn into_response(self) -> (response: ErrorResponse)
        ensures
            response.status == Self::status_of(self.spec_kind()),
            response.body@ == self.body(),
    {
        let status = self.status_code();
        match self {
            AppError::Unauthorized => ErrorResponse { status, body: String::from_str("Unauthorized") },
            AppError::TokenError(error) => error.into_response(),
            AppError::InternalServerError(detail) => ErrorResponse { status, body: detail },
            AppError::BadRequest(detail) => ErrorResponse { status, body: detail },
            AppError::NotFound(detail) => ErrorResponse { status, body: detail },
            AppError::ConfigurationError(detail) => ErrorResponse { status, body: detail },
            AppError::DatabaseError(detail) => ErrorResponse { status, body: detail },
            AppError::ExchangeError(detail) => ErrorResponse { status, body: detail },
            AppError::RemoteError(detail) => ErrorResponse { status, body: detail },
        }
    }
}

impl From<TokenError> for AppError {
    fn from(error: TokenError) -> (wrapped: AppError) {
        AppError::TokenError(error)
    }
}

impl vstd::std_specs::convert::FromSpecImpl<TokenError> for AppError {
    open spec fn obeys_from_spec() -> bool {
        true
    }

    open spec fn from_spec(error: TokenError) -> AppError {
        AppError::TokenError(error)
    }
}

} // verus!
