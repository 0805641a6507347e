//! Errors that concern an access, refresh or CSRF token.

use vstd::prelude::*;

verus! {

/// What went wrong with a token.
#[derive(Debug, PartialEq, Eq)]
pub enum TokenError {
    /// The provider did not accept the token.
    InvalidToken,
    /// The request carried no bearer token.
    MissingToken,
    /// The token is past its lifetime.
    TokenExpired,
    /// Any other token failure, with a short description.
    GenericTokenError(String),
}

/// The HTTP status of every token error.
pub const TOKEN_ERROR_STATUS: u16 = 401;

/// An HTTP answer reduced to what the login flow decides: status and body.
#[derive(Debug, PartialEq, Eq)]
pub struct ErrorResponse {
    pub status: u16,
    pub body: String,
}

impl TokenError {
    /// The text that stands for this error in a response or a log line.
    pub open spec fn text(self) -> Seq<char> {
        match self {
            TokenError::InvalidToken => "Invalid token"@,
            TokenError::MissingToken => "Missing Bearer token"@,
            TokenError::TokenExpired => "Token expired"@,
            TokenError::GenericTokenError(detail) => "Token error: "@ + detail@,
        }
    }

    /// Renders the error as text.
    pub fn to_string(&self) -> (text: String)
        ensures
            text@ == self.text(),
    {
        match self {
            TokenError::InvalidToken => String::from_str("Invalid token"),
            TokenError::MissingToken => String::from_str("Missing Bearer token"),
            TokenError::TokenExpired => String::from_str("Token expired"),
            TokenError::GenericTokenError(detail) => {
                String::from_str("Token error: ").concat(detail.as_str())
            },
        }
    }

    /// The HTTP status that answers this error: always 401.
    pub fn status_code(&self) -> (status: u16)
        ensures
            status == TOKEN_ERROR_STATUS,
    {
        TOKEN_ERROR_STATUS
    }

    /// The HTTP answer to this error: status 401 with the error's text as body.
    pub fn into_response(self) -> (response: ErrorResponse)
        ensures
            response.status == TOKEN_ERROR_STATUS,
            response.body@ == self.text(),
    {
        let body = self.to_string();
        ErrorResponse { status: self.status_code(), body }
    }
}

} // verus!
