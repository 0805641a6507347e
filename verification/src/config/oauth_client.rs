//! The OAuth2 client: who this system is to the identity provider, and
//! where the provider's endpoints are.

use crate::config::parameter::{get, undefined_text, Parameters};
use crate::error::app_error::{is_failure, AppError, ErrorKind};
use vstd::prelude::*;

verus! {

/// Whether `text` parses as an absolute URL.
pub uninterp spec fn is_url(text: Seq<char>) -> bool;

/// Says whether a string parses as an absolute URL, by `Url::parse` of the
/// `url` crate as `oauth2` hands it on. The outcome depends on the string
/// alone; `oauth2` accepts a string as the URL of an endpoint exactly when
/// this parse succeeds.
#[verifier::external_body]
fn parses_as_url(text: &str) -> (parses: bool)
    ensures
        parses == is_url(text@),
{
    oauth2::url::Url::parse(text).is_ok()
}

/// The URL to which `oauth2` sends the browser for an authorization request:
/// that of a client with the given authorization endpoint, id and redirect
/// URL, which asks for the two scopes, adds the two extra parameters, each a
/// name and a value, and carries `state` as its CSRF token.
pub uninterp spec fn authorization_url(
    auth_url: Seq<char>,
    client_id: Seq<char>,
    redirect_url: Seq<char>,
    first_scope: Seq<char>,
    second_scope: Seq<char>,
    first_name: Seq<char>,
    first_value: Seq<char>,
    second_name: Seq<char>,
    second_value: Seq<char>,
    state: Seq<char>,
) -> Seq<char>;

/// Builds the authorization URL with `Client::authorize_url` of `oauth2`,
/// followed by `add_scope` twice, `add_extra_param` twice and `url`. The URL
/// is made from the arguments alone, with no random part: the CSRF token is
/// the `state` that was handed in. The two endpoint URLs must parse, or the
/// client cannot be made.
#[verifier::external_body]
fn authorize_url(
    auth_url: &str,
    client_id: &str,
    redirect_url: &str,
    first_scope: &str,
    second_scope: &str,
    first_name: &str,
    first_value: &str,
    second_name: &str,
    second_value: &str,
    state: &str,
) -> (url: String)
    requires
        is_url(auth_url@),
        is_url(redirect_url@),
    ensures
        url@ == authorization_url(
            auth_url@,
            client_id@,
            redirect_url@,
            first_scope@,
            second_scope@,
            first_name@,
            first_value@,
            second_name@,
            second_value@,
            state@,
        ),
{
    let auth_url = oauth2::AuthUrl::new(auth_url.to_string()).unwrap();
    let redirect_url = oauth2::RedirectUrl::new(redirect_url.to_string()).unwrap();
    let client_id = oauth2::ClientId::new(client_id.to_string());
    let token = oauth2::CsrfToken::new(state.to_string());
    let client = oauth2::basic::BasicClient::new(client_id, None, auth_url, None);
    let request = client.set_redirect_uri(redirect_url);
    let request = request.authorize_url(|| token);
    let request = request.add_scope(oauth2::Scope::new(first_scope.to_string()));
    let request = request.add_scope(oauth2::Scope::new(second_scope.to_string()));
    let request = request.add_extra_param(first_name, first_value);
    request.add_extra_param(second_name, second_value).url().0.to_string()
}

/// A fresh CSRF token from `CsrfToken::new_random` of `oauth2`: sixteen
/// random bytes in URL-safe base64 without padding, which is 22 characters.
/// Which characters they are differs from call to call.
#[verifier::external_body]
pub(crate) fn new_random_csrf_token() -> (token: String)
    ensures
        token@.len() == CSRF_TOKEN_LENGTH,
{
    oauth2::CsrfToken::new_random().secret().clone()
}

/// The number of characters of a fresh CSRF token.
pub const CSRF_TOKEN_LENGTH: usize = 22;

/// The OAuth2 client of this system, with the two scopes that it asks the
/// provider for. Its four URLs all parse.
pub struct OAuthClient {
    client_id: String,
    client_secret: String,
    auth_url: String,
    token_url: String,
    redirect_url: String,
    revocation_url: String,
    email_scope: String,
    profile_scope: String,
}

/// An `OAuthClient` as a mathematical value.
pub struct OAuthClientView {
    pub client_id: Seq<char>,
    pub client_secret: Seq<char>,
    pub auth_url: Seq<char>,
    pub token_url: Seq<char>,
    pub redirect_url: Seq<char>,
    pub revocation_url: Seq<char>,
    pub email_scope: Seq<char>,
    pub profile_scope: Seq<char>,
}

impl View for OAuthClient {
    type V = OAuthClientView;

    closed spec fn view(&self) -> OAuthClientView {
        OAuthClientView {
            client_id: self.client_id@,
            client_secret: self.client_secret@,
            auth_url: self.auth_url@,
            token_url: self.token_url@,
            redirect_url: self.redirect_url@,
            revocation_url: self.revocation_url@,
            email_scope: self.email_scope@,
            profile_scope: self.profile_scope@,
        }
    }
}

/// The name of the first parameter of the client that the parameters
/// lack, if any. The eight are looked up in the order given here.
pub open spec fn missing_client_parameter(parameters: Map<Seq<char>, Seq<char>>) -> Option<
    Seq<char>,
> {
    if !parameters.contains_key("GOOGLE_CLIENT_ID"@) {
        Some("GOOGLE_CLIENT_ID"@)
    } else if !parameters.contains_key("GOOGLE_CLIENT_SECRET"@) {
        Some("GOOGLE_CLIENT_SECRET"@)
    } else if !parameters.contains_key("GOOGLE_REDIRECT_URI"@) {
        Some("GOOGLE_REDIRECT_URI"@)
    } else if !parameters.contains_key("GOOGLE_AUTH_URI"@) {
        Some("GOOGLE_AUTH_URI"@)
    } else if !parameters.contains_key("GOOGLE_TOKEN_URI"@) {
        Some("GOOGLE_TOKEN_URI"@)
    } else if !parameters.contains_key("GOOGLE_REVOCATION_URI"@) {
        Some("GOOGLE_REVOCATION_URI"@)
    } else if !parameters.contains_key("GOOGLE_EMAIL_SCOPE"@) {
        Some("GOOGLE_EMAIL_SCOPE"@)
    } else if !parameters.contains_key("GOOGLE_PROFILE_SCOPE"@) {
        Some("GOOGLE_PROFILE_SCOPE"@)
    } else {
        None
    }
}

/// What the parameters make of the client: the client itself, or the class
/// and description of the first thing that is wrong with them. All eight
/// parameters must be given; then the four URLs must parse, which is tried
/// in the order given here.
pub open spec fn client_from(parameters: Map<Seq<char>, Seq<char>>) -> Result<
    OAuthClientView,
    (ErrorKind, Seq<char>),
> {
    let client = OAuthClientView {
        client_id: parameters["GOOGLE_CLIENT_ID"@],
        client_secret: parameters["GOOGLE_CLIENT_SECRET"@],
        auth_url: parameters["GOOGLE_AUTH_URI"@],
        token_url: parameters["GOOGLE_TOKEN_URI"@],
        redirect_url: parameters["GOOGLE_REDIRECT_URI"@],
        revocation_url: parameters["GOOGLE_REVOCATION_URI"@],
        email_scope: parameters["GOOGLE_EMAIL_SCOPE"@],
        profile_scope: parameters["GOOGLE_PROFILE_SCOPE"@],
    };
    match missing_client_parameter(parameters) {
        Some(name) => Err((ErrorKind::ConfigurationError, undefined_text(name))),
        None => if !is_url(client.auth_url) {
            Err((ErrorKind::InternalServerError, "failed to create new authorization server URL"@))
        } else if !is_url(client.token_url) {
            Err((ErrorKind::InternalServerError, "failed to create new token endpoint URL"@))
        } else if !is_url(client.redirect_url) {
            Err((ErrorKind::InternalServerError, "failed to create new redirection URL"@))
        } else if !is_url(client.revocation_url) {
            Err((ErrorKind::InternalServerError, "failed to create new revocation URL"@))
        } else {
            Ok(client)
        },
    }
}

/// The URL that sends the browser to the provider for a login attempt of
/// `client` with the CSRF token `state`: it names the client and where to
/// come back to, asks for the client's two scopes, and adds
/// `access_type=offline` and `prompt=consent`.
pub open spec fn login_url(client: OAuthClientView, state: Seq<char>) -> Seq<char> {
    authorization_url(
        client.auth_url,
        client.client_id,
        client.redirect_url,
        client.email_scope,
        client.profile_scope,
        "access_type"@,
        "offline"@,
        "prompt"@,
        "consent"@,
        state,
    )
}

impl OAuthClient {
    #[verifier::type_invariant]
    closed spec fn urls_parse(self) -> bool {
        &&& is_url(self.auth_url@)
        &&& is_url(self.token_url@)
        &&& is_url(self.redirect_url@)
        &&& is_url(self.revocation_url@)
    }

    /// The id under which the provider knows this system.
    pub fn client_id(&self) -> (value: &String)
        ensures
            value@ == self@.client_id,
    {
        &self.client_id
    }

    /// The secret that this system shares with the provider.
    pub fn client_secret(&self) -> (value: &String)
        ensures
            value@ == self@.client_secret,
    {
        &self.client_secret
    }

    /// The provider's authorization endpoint, a URL that parses.
    pub fn auth_url(&self) -> (value: &String)
        ensures
            value@ == self@.auth_url,
            is_url(value@),
    {
        proof {
            use_type_invariant(self);
        }
        &self.auth_url
    }

    /// The provider's token endpoint, a URL that parses.
    pub fn token_url(&self) -> (value: &String)
        ensures
            value@ == self@.token_url,
            is_url(value@),
    {
        proof {
            use_type_invariant(self);
        }
        &self.token_url
    }

    /// Where the provider sends the browser back to, a URL that parses.
    pub fn redirect_url(&self) -> (value: &String)
        ensures
            value@ == self@.redirect_url,
            is_url(value@),
    {
        proof {
            use_type_invariant(self);
        }
        &self.redirect_url
    }

    /// The provider's revocation endpoint, a URL that parses.
    pub fn revocation_url(&self) -> (value: &String)
        ensures
            value@ == self@.revocation_url,
            is_url(value@),
    {
        proof {
            use_type_invariant(self);
        }
        &self.revocation_url
    }

    /// The URL that sends the browser to the provider for a login attempt
    /// whose CSRF token is `state`. It asks for the two scopes, and for
    /// `access_type=offline` and `prompt=consent`, so that the provider
    /// issues a refresh token at every login.
    pub fn authorization_url(&self, state: &str) -> (url: String)
        ensures
            url@ == login_url(self@, state@),
    {
        proof {
            use_type_invariant(self);
        }
        authorize_url(
            self.auth_url.as_str(),
            self.client_id.as_str(),
            self.redirect_url.as_str(),
            self.email_scope.as_str(),
            self.profile_scope.as_str(),
            "access_type",
            "offline",
            "prompt",
            "consent",
            state,
        )
    }
}

/// Builds the OAuth2 client from the parameters of the process, once, when
/// the process starts. A parameter that was not given is a
/// `ConfigurationError` that names it; a URL that does not parse is an
/// `InternalServerError` that says which endpoint it was meant for.
pub fn get_oauth_client(parameters: &Parameters) -> (result: Result<OAuthClient, AppError>)
    ensures
        match client_from(parameters@) {
            Ok(client) => result matches Ok(built) && built@ == client,
            Err((kind, detail)) => is_failure(result, kind, detail),
        },
{
    let client_id = get(parameters, "GOOGLE_CLIENT_ID")?;
    let client_secret = get(parameters, "GOOGLE_CLIENT_SECRET")?;
    let redirect_url = get(parameters, "GOOGLE_REDIRECT_URI")?;
    let auth_url = get(parameters, "GOOGLE_AUTH_URI")?;
    let token_url = get(parameters, "GOOGLE_TOKEN_URI")?;
    let revocation_url = get(parameters, "GOOGLE_REVOCATION_URI")?;
    let email_scope = get(parameters, "GOOGLE_EMAIL_SCOPE")?;
    let profile_scope = get(parameters, "GOOGLE_PROFILE_SCOPE")?;
    if !parses_as_url(auth_url.as_str()) {
        return Err(
            AppError::InternalServerError(
                String::from_str("failed to create new authorization server URL"),
            ),
        );
    }
    if !parses_as_url(token_url.as_str()) {
        return Err(
            AppError::InternalServerError(String::from_str("failed to create new token endpoint URL")),
        );
    }
    if !parses_as_url(redirect_url.as_str()) {
        return Err(
            AppError::InternalServerError(String::from_str("failed to create new redirection URL")),
        );
    }
    if !parses_as_url(revocation_url.as_str()) {
        return Err(
            AppError::InternalServerError(String::from_str("failed to create new revocation URL")),
        );
    }
    Ok(
        OAuthClient {
            client_id,
            client_secret,
            auth_url,
            token_url,
            redirect_url,
            revocation_url,
            email_scope,
            profile_scope,
        },
    )
}

} // verus!
