//! The identity provider's client: the authorization URL of a login
//! attempt, and what each answer of the provider amounts to.
//!
//! The round trips themselves are made by the caller, once each and without
//! retry. Each function below takes what the provider answered and decides
//! what it means.

use crate::config::oauth_client::{
    login_url, new_random_csrf_token, OAuthClient, OAuthClientView, CSRF_TOKEN_LENGTH,
};
use crate::config::parameter::{get, undefined_text, Parameters};
use crate::error::app_error::{is_failure, AppError, ErrorKind};
use crate::error::token_error::TokenError;
use crate::User;
use vstd::prelude::*;

verus! {

/// What the provider's token-info endpoint says of an access token.
#[derive(Debug, PartialEq, Eq)]
pub struct GoogleTokenInfo {
    /// The audience for which the token was issued.
    pub audience: String,
    /// The email associated with the access token.
    pub email: String,
    /// The remaining lifetime in seconds.
    pub expires_in: i64,
    /// The client id that the token was issued to.
    pub issued_to: String,
    /// The user's unique id.
    pub user_id: String,
}

/// What the token endpoint granted: an access token and, if the provider
/// chose to send one, a refresh token.
#[derive(Debug, PartialEq, Eq)]
pub struct TokenGrant {
    pub access_token: String,
    pub refresh_token: Option<String>,
}

/// The two tokens of a completed login. Both are always there.
#[derive(Debug, PartialEq, Eq)]
pub struct TokenPair {
    pub access_token: String,
    pub refresh_token: String,
}

/// A `TokenPair` as a mathematical value.
pub struct TokenPairView {
    pub access_token: Seq<char>,
    pub refresh_token: Seq<char>,
}

impl View for TokenPair {
    type V = TokenPairView;

    open spec fn view(&self) -> TokenPairView {
        TokenPairView { access_token: self.access_token@, refresh_token: self.refresh_token@ }
    }
}

/// The outcome of one HTTP round trip to the provider: no answer at all, or
/// an answer with its status and, where the body could be read as what was
/// asked for, that payload.
#[derive(Debug, PartialEq, Eq)]
pub enum HttpReply<T> {
    Unreachable,
    Answered { status: u16, payload: Option<T> },
}

/// A GET request with a bearer token, for the caller to send.
#[derive(Debug, PartialEq, Eq)]
pub struct BearerRequest {
    pub url: String,
    pub bearer_token: String,
}

/// Whether an HTTP status reports success: 200 to 299.
pub open spec fn is_success(status: u16) -> bool {
    200 <= status < 300
}

/// What a reply to a GET amounts to: the payload of a successful answer, or
/// which of the three descriptions the failure carries.
pub open spec fn reply_failure<T>(
    reply: HttpReply<T>,
    unreachable: Seq<char>,
    refused: Seq<char>,
    unreadable: Seq<char>,
) -> Option<Seq<char>> {
    match reply {
        HttpReply::Unreachable => Some(unreachable),
        HttpReply::Answered { status, payload } => if !is_success(status) {
            Some(refused)
        } else if payload is None {
            Some(unreadable)
        } else {
            None
        },
    }
}

/// The URL of the provider's user-info endpoint.
pub open spec fn user_info_url() -> Seq<char> {
    "https://openidconnect.googleapis.com/v1/userinfo"@
}

/// The description of the failure of the exchange round trip.
pub open spec fn exchange_failed_text() -> Seq<char> {
    "failed in sending request to authorization server"@
}

/// The description of a grant that lacks the refresh token.
pub open spec fn missing_refresh_token_text() -> Seq<char> {
    "Missing refresh token"@
}

/// The description of the failure of the refresh round trip.
pub open spec fn refresh_failed_text() -> Seq<char> {
    "failed to refresh access token"@
}

/// Whether `result` is what the grant `reply` of the token endpoint amounts
/// to.
pub open spec fn is_token_pair_of(result: Result<TokenPair, AppError>, reply: Option<TokenGrant>) -> bool {
    match reply {
        None => is_failure(result, ErrorKind::ExchangeError, exchange_failed_text()),
        Some(grant) => match grant.refresh_token {
            None => is_failure(result, ErrorKind::ExchangeError, missing_refresh_token_text()),
            Some(refresh_token) => result matches Ok(pair) && pair@ == (TokenPairView {
                access_token: grant.access_token@,
                refresh_token: refresh_token@,
            }),
        },
    }
}

/// What went wrong with a reply of the user-info endpoint, if anything.
pub open spec fn user_info_failure(reply: HttpReply<User>) -> Option<Seq<char>> {
    reply_failure(
        reply,
        "failed in sending request to target Url"@,
        "the user info endpoint refused the request"@,
        "failed to deserialize response as JSON"@,
    )
}

/// Whether `result` is what the answer `reply` of the user-info endpoint
/// amounts to.
pub open spec fn is_user_info_of(result: Result<User, AppError>, reply: HttpReply<User>) -> bool {
    match user_info_failure(reply) {
        Some(detail) => is_failure(result, ErrorKind::RemoteError, detail),
        None => result matches Ok(user) && Some(user) == reply->payload,
    }
}

/// The contract of the identity provider's client.
pub trait TokenServiceTrait: Sized {
    /// The OAuth2 client that the service speaks for.
    spec fn client(&self) -> OAuthClientView;

    /// A service for the given client.
    fn new(oauth_client: OAuthClient) -> (service: Self)
        ensures
            service.client() == oauth_client@,
    ;

    /// The authorization URL of a new login attempt and the CSRF token that
    /// it carries, which is fresh and random. This never fails, and it
    /// touches neither the network nor the tables.
    fn generate_authorisation_url(&self) -> (result: Result<(String, String), AppError>)
        ensures
            result matches Ok((url, csrf_token)) && {
                &&& csrf_token@.len() == CSRF_TOKEN_LENGTH
                &&& url@ == login_url(self.client(), csrf_token@)
            },
    ;

    /// What the answer of the token endpoint to an authorization code
    /// amounts to. `None` stands for a round trip that failed or a code that
    /// the provider rejected. A grant without a refresh token is a failure
    /// too: both tokens, or an `ExchangeError`.
    fn exchange_authorisation_code(&self, reply: Option<TokenGrant>) -> (result: Result<
        TokenPair,
        AppError,
    >)
        ensures
            is_token_pair_of(result, reply),
    ;

    /// What the answer of the token endpoint to a refresh token amounts to:
    /// the new access token, or an `ExchangeError` where the provider gave
    /// none.
    fn refresh_access_token(&self, reply: Option<String>) -> (result: Result<String, AppError>)
        ensures
            match reply {
                None => is_failure(result, ErrorKind::ExchangeError, refresh_failed_text()),
                Some(access_token) => result matches Ok(token) && token@ == access_token@,
            },
    ;

    /// What the answer of the revocation endpoint amounts to: any failure is
    /// `InvalidToken`.
    fn revoke_token(&self, revoked: bool) -> (result: Result<(), AppError>)
        ensures
            revoked ==> result is Ok,
            !revoked ==> is_failure(result, ErrorKind::InvalidToken, Seq::empty()),
    ;

    /// What the answer of the token-info endpoint amounts to: the payload of
    /// a successful answer, else a `RemoteError`.
    fn get_token_info(&self, reply: HttpReply<GoogleTokenInfo>) -> (result: Result<
        GoogleTokenInfo,
        AppError,
    >)
        ensures
            match reply_failure(
                reply,
                "Failed to send request to Google's token info endpoint"@,
                "Google token validation failed"@,
                "Failed to parse token info from response"@,
            ) {
                Some(detail) => is_failure(result, ErrorKind::RemoteError, detail),
                None => result matches Ok(info) && Some(info) == reply->payload,
            },
    ;

    /// What the answer of the user-info endpoint amounts to: the payload of
    /// a successful answer, else a `RemoteError`.
    fn get_user_info(&self, reply: HttpReply<User>) -> (result: Result<User, AppError>)
        ensures
            is_user_info_of(result, reply),
    ;
}

/// The identity provider's client for Google.
pub struct GoogleTokenService {
    oauth_client: OAuthClient,
}

/// What the grant of the token endpoint amounts to: both tokens, or an
/// `ExchangeError` where the round trip failed, the provider rejected the
/// code, or the grant lacks the refresh token.
pub fn token_pair_of(reply: Option<TokenGrant>) -> (result: Result<TokenPair, AppError>)
    ensures
        is_token_pair_of(result, reply),
{
    match reply {
        None => Err(
            AppError::ExchangeError(
                String::from_str("failed in sending request to authorization server"),
            ),
        ),
        Some(grant) => match grant.refresh_token {
            None => Err(AppError::ExchangeError(String::from_str("Missing refresh token"))),
            Some(refresh_token) => Ok(TokenPair { access_token: grant.access_token, refresh_token }),
        },
    }
}

/// What the answer of the user-info endpoint amounts to: the user of a
/// successful answer, else a `RemoteError`.
pub fn user_info_of(reply: HttpReply<User>) -> (result: Result<User, AppError>)
    ensures
        is_user_info_of(result, reply),
{
    payload_of(
        reply,
        "failed in sending request to target Url",
        "the user info endpoint refused the request",
        "failed to deserialize response as JSON",
    )
}

/// The request that asks the user-info endpoint who holds the access token.
pub fn user_info_request(access_token: &str) -> (request: BearerRequest)
    ensures
        request.url@ == user_info_url(),
        request.bearer_token@ == access_token@,
{
    BearerRequest {
        url: String::from_str("https://openidconnect.googleapis.com/v1/userinfo"),
        bearer_token: String::from_str(access_token),
    }
}

/// Decides a reply to a GET: the payload of a successful answer, else a
/// `RemoteError` with the description that fits the failure.
fn payload_of<T>(reply: HttpReply<T>, unreachable: &str, refused: &str, unreadable: &str) -> (result:
    Result<T, AppError>)
    ensures
        match reply_failure(reply, unreachable@, refused@, unreadable@) {
            Some(detail) => is_failure(result, ErrorKind::RemoteError, detail),
            None => result matches Ok(payload) && Some(payload) == reply->payload,
        },
{
    match reply {
        HttpReply::Unreachable => Err(AppError::RemoteError(String::from_str(unreachable))),
        HttpReply::Answered { status, payload } => {
            if !(200 <= status && status < 300) {
                Err(AppError::RemoteError(String::from_str(refused)))
            } else {
                match payload {
                    Some(payload) => Ok(payload),
                    None => Err(AppError::RemoteError(String::from_str(unreadable))),
                }
            }
        },
    }
}

impl GoogleTokenService {
    /// The OAuth2 client that the service speaks for.
    pub fn oauth_client(&self) -> (client: &OAuthClient)
        ensures
            client@ == self.client(),
    {
        &self.oauth_client
    }

    /// The authorization URL of a login attempt whose CSRF token is
    /// `csrf_token`, together with that token.
    pub fn authorisation_url_for(&self, csrf_token: String) -> (result: (String, String))
        ensures
            result.0@ == login_url(self.client(), csrf_token@),
            result.1@ == csrf_token@,
    {
        let url = self.oauth_client.authorization_url(csrf_token.as_str());
        (url, csrf_token)
    }

    /// The request that asks the token-info endpoint about the access token.
    /// The endpoint's URL is the parameter `GOOGLE_TOKEN_INFO_URI`; where it
    /// is missing, the result is a `ConfigurationError` that names it.
    pub fn token_info_request(&self, parameters: &Parameters, access_token: &str) -> (result: Result<
        BearerRequest,
        AppError,
    >)
        ensures
            if parameters@.contains_key("GOOGLE_TOKEN_INFO_URI"@) {
                &&& result matches Ok(request)
                &&& request.url@ == parameters@["GOOGLE_TOKEN_INFO_URI"@]
                &&& request.bearer_token@ == access_token@
            } else {
                is_failure(
                    result,
                    ErrorKind::ConfigurationError,
                    undefined_text("GOOGLE_TOKEN_INFO_URI"@),
                )
            },
    {
        let url = get(parameters, "GOOGLE_TOKEN_INFO_URI")?;
        Ok(BearerRequest { url, bearer_token: String::from_str(access_token) })
    }
}

impl TokenServiceTrait for GoogleTokenService {
    closed spec fn client(&self) -> OAuthClientView {
        self.oauth_client@
    }

    fn new(oauth_client: OAuthClient) -> (service: Self) {
        GoogleTokenService { oauth_client }
    }

    fn generate_authorisation_url(&self) -> (result: Result<(String, String), AppError>) {
        let csrf_token = new_random_csrf_token();
        Ok(self.authorisation_url_for(csrf_token))
    }

    fn exchange_authorisation_code(&self, reply: Option<TokenGrant>) -> (result: Result<
        TokenPair,
        AppError,
    >) {
        token_pair_of(reply)
    }

    fn refresh_access_token(&self, reply: Option<String>) -> (result: Result<String, AppError>) {
        match reply {
            None => Err(AppError::ExchangeError(String::from_str("failed to refresh access token"))),
            Some(access_token) => Ok(access_token),
        }
    }

    fn revoke_token(&self, revoked: bool) -> (result: Result<(), AppError>) {
        if revoked {
            Ok(())
        } else {
            Err(AppError::TokenError(TokenError::InvalidToken))
        }
    }

    fn get_token_info(&self, reply: HttpReply<GoogleTokenInfo>) -> (result: Result<
        GoogleTokenInfo,
        AppError,
    >) {
        payload_of(
            reply,
            "Failed to send request to Google's token info endpoint",
            "Google token validation failed",
            "Failed to parse token info from response",
        )
    }

    fn get_user_info(&self, reply: HttpReply<User>) -> (result: Result<User, AppError>) {
        user_info_of(reply)
    }
}

} // verus!
