//! The provider's callback as a state machine.
//!
//! A callback passes through the states `Init`, `CsrfValidated`,
//! `CodeExchanged`, `UserResolved` and `ContextCommitted`, or ends in
//! `Failed`. Between two of them the flow waits for work that it cannot do
//! itself: a row to be fetched or changed, a round trip to the provider.
//! Each step takes the outcome of the work that was asked for last and says
//! what to do next. Whoever runs the flow does what each action says, once,
//! and hands back what came of it.

use crate::error::app_error::{AppError, ErrorKind};
use crate::handler::cookie::{
    bad_header_text, cookie_text, is_header_value, session_cookie_name, set_cookie, sets_two_cookies,
    AuthResponse,
};
use crate::pairs::{first_value, spec_first_value};
use crate::repository::session_repository::{
    csrf_token_of, lookup_result, session_not_found_text, Session, SessionView,
};
use crate::clock::{is_calendar_time, unix_time_now};
use crate::service::google_token_service::{
    exchange_failed_text, missing_refresh_token_text, token_pair_of, user_info_failure, user_info_of,
    user_info_request, user_info_url, BearerRequest, HttpReply, TokenGrant, TokenPair,
    TokenPairView,
};
use crate::service::user_service::{context_of_new_user, new_user_context};
use crate::state::app_state::UserContext;
use crate::User;
use vstd::prelude::*;

verus! {

/// The query of the provider's redirect: the authorization code, and the
/// CSRF token under the name `state`.
#[derive(Debug, PartialEq, Eq)]
pub struct AuthRequest {
    pub code: String,
    pub state: String,
}

/// The description of the error for a redirect that lacks the parameter
/// `name`.
pub open spec fn missing_parameter_text(name: Seq<char>) -> Seq<char> {
    "the callback has no parameter "@ + name
}

/// What the query of a redirect makes of the request: its code and state,
/// or the name of the first of the two that the query lacks.
pub open spec fn request_from(query: Seq<(String, String)>) -> Result<
    (Seq<char>, Seq<char>),
    Seq<char>,
> {
    match (spec_first_value(query, "code"@), spec_first_value(query, "state"@)) {
        (None, _) => Err("code"@),
        (Some(_), None) => Err("state"@),
        (Some(code), Some(state)) => Ok((code, state)),
    }
}

impl AuthRequest {
    /// Reads the request out of the query of the provider's redirect, a
    /// list of named values. A query that lacks `code` or `state` is a
    /// `BadRequest` that names the one that is missing, `code` first.
    pub fn from_query(query: &Vec<(String, String)>) -> (result: Result<AuthRequest, AppError>)
        ensures
            match request_from(query@) {
                Ok((code, state)) => {
                    &&& result matches Ok(request)
                    &&& request.code@ == code
                    &&& request.state@ == state
                },
                Err(name) => {
                    &&& result matches Err(error)
                    &&& error.spec_kind() == ErrorKind::BadRequest
                    &&& error.detail() == missing_parameter_text(name)
                },
            },
    {
        let code = match first_value(query, "code") {
            Some(code) => code,
            None => {
                return Err(
                    AppError::BadRequest(
                        String::from_str("the callback has no parameter ").concat("code"),
                    ),
                );
            },
        };
        let state = match first_value(query, "state") {
            Some(state) => state,
            None => {
                return Err(
                    AppError::BadRequest(
                        String::from_str("the callback has no parameter ").concat("state"),
                    ),
                );
            },
        };
        Ok(AuthRequest { code, state })
    }
}

impl Clone for AuthRequest {
    fn clone(&self) -> (copy: AuthRequest)
        ensures
            copy.code@ == self.code@,
            copy.state@ == self.state@,
    {
        AuthRequest { code: self.code.clone(), state: self.state.clone() }
    }
}

/// Where a callback stands.
#[derive(Debug, PartialEq, Eq)]
pub enum CallbackState {
    /// Nothing has happened yet.
    Init,
    /// The session row was asked for.
    SessionRequested { session_id: String, request: AuthRequest },
    /// The session was live; its expiry was asked for. The comparison of
    /// the tokens waits until the session has expired.
    ExpiryRequested { stored_csrf_token: String, request: AuthRequest },
    /// The session has expired and the tokens were equal; the exchange of
    /// the code was asked for.
    CsrfValidated,
    /// The provider gave both tokens; the user's data was asked for.
    CodeExchanged { tokens: TokenPair },
    /// The provider said who the user is; their row was asked for.
    LookupRequested { tokens: TokenPair, user: User },
    /// The user has no row yet; one was asked for.
    InsertRequested { tokens: TokenPair, user: User },
    /// The user is known; their login was asked for.
    UserResolved { tokens: TokenPair },
    /// The user is logged in and the answer was given: the end.
    ContextCommitted,
    /// The callback failed with an error of this class: the end.
    Failed { kind: ErrorKind },
}

/// What became of the work that the flow asked for.
#[derive(Debug, PartialEq, Eq)]
pub enum CallbackEvent {
    /// The callback arrived, with its query and the cookies of the request.
    Started { request: AuthRequest, cookies: Vec<(String, String)> },
    /// The row of the session, if the table has one, or why it could not be
    /// read.
    SessionFetched(Result<Option<Session>, AppError>),
    /// The session has expired, or why it could not be changed.
    SessionExpired(Result<(), AppError>),
    /// What the token endpoint granted; `None` where the round trip failed
    /// or the provider rejected the code.
    CodeExchangeAnswered(Option<TokenGrant>),
    /// What the user-info endpoint answered.
    UserInfoAnswered(HttpReply<User>),
    /// The context of the user's row, if the table has one, or why it could
    /// not be read.
    UserLookedUp(Result<Option<UserContext>, AppError>),
    /// The id of the user's new row, or why it could not be added.
    UserInserted(Result<u64, AppError>),
    /// The user is logged in.
    ContextSet,
}

/// What the flow asks for next.
#[derive(Debug, PartialEq, Eq)]
pub enum CallbackAction {
    /// Fetch the row of this session, live or not.
    FetchSession { session_id: String },
    /// Make this session expire at the moment `at`.
    ExpireSession { session_id: String, at: i64 },
    /// Exchange the authorization code for tokens.
    ExchangeCode { code: String },
    /// Send this request to the user-info endpoint.
    FetchUserInfo { request: BearerRequest },
    /// Look up the user with this subject id.
    FindUser { google_id: String },
    /// Add this user.
    InsertUser { google_id: String, email: String, first_name: String, last_name: String },
    /// Log this user in.
    SetUserContext { user_context: UserContext },
    /// Answer the browser with this: the callback is done.
    Respond { response: AuthResponse },
    /// Answer the browser with this error: the callback has failed.
    Fail { error: AppError },
}

/// The description of the error for a CSRF token that is not the stored one.
pub open spec fn csrf_mismatch_text() -> Seq<char> {
    "CSRF token mismatch"@
}

/// The description of the error for an event that the flow did not ask for.
pub open spec fn unexpected_event_text() -> Seq<char> {
    "the callback did not wait for this event"@
}

/// The view of an optional session row.
pub open spec fn row_view(row: Option<Session>) -> Option<SessionView> {
    match row {
        Some(session) => Some(session@),
        None => None,
    }
}

/// The step ends the flow with a new error of the class `kind` that carries
/// the description `detail`.
pub open spec fn fails_with(
    next: CallbackState,
    action: CallbackAction,
    kind: ErrorKind,
    detail: Seq<char>,
) -> bool {
    &&& next == (CallbackState::Failed { kind })
    &&& action matches CallbackAction::Fail { error }
    &&& error.spec_kind() == kind
    &&& error.detail() == detail
}

/// The step ends the flow with the error that the work reported, unchanged.
pub open spec fn fails_unchanged(next: CallbackState, action: CallbackAction, error: AppError) -> bool {
    &&& next == (CallbackState::Failed { kind: error.spec_kind() })
    &&& action == (CallbackAction::Fail { error })
}

/// The first step: read the session cookie and ask for the session's row. A
/// request without the cookie is `Unauthorized`.
pub open spec fn steps_from_init(
    event: CallbackEvent,
    next: CallbackState,
    action: CallbackAction,
) -> bool {
    match event {
        CallbackEvent::Started { request, cookies } => match spec_first_value(
            cookies@,
            session_cookie_name(),
        ) {
            Some(id) => {
                &&& next matches CallbackState::SessionRequested { session_id, request: kept }
                &&& session_id@ == id
                &&& kept == request
                &&& action matches CallbackAction::FetchSession { session_id: wanted }
                &&& wanted@ == id
            },
            None => fails_with(next, action, ErrorKind::Unauthorized, Seq::empty()),
        },
        _ => fails_with(next, action, ErrorKind::InternalServerError, unexpected_event_text()),
    }
}

/// The row has arrived. A row that is live at `now` has its expiry asked
/// for, before anything is compared; a missing or expired one is `NotFound`.
pub open spec fn steps_from_session_requested(
    session_id: String,
    request: AuthRequest,
    event: CallbackEvent,
    now: i64,
    next: CallbackState,
    action: CallbackAction,
) -> bool {
    match event {
        CallbackEvent::SessionFetched(Ok(row)) => match lookup_result(row_view(row), now as int) {
            Some(token) => {
                &&& next matches CallbackState::ExpiryRequested { stored_csrf_token, request: kept }
                &&& stored_csrf_token@ == token
                &&& kept == request
                &&& action matches CallbackAction::ExpireSession { session_id: expired, at }
                &&& expired@ == session_id@
                &&& at == now
            },
            None => fails_with(next, action, ErrorKind::NotFound, session_not_found_text()),
        },
        CallbackEvent::SessionFetched(Err(error)) => fails_unchanged(next, action, error),
        _ => fails_with(next, action, ErrorKind::InternalServerError, unexpected_event_text()),
    }
}

/// The session has expired. Now the token of the redirect is compared with
/// the stored one: equal tokens have the code exchanged, unequal ones are a
/// token error.
pub open spec fn steps_from_expiry_requested(
    stored_csrf_token: String,
    request: AuthRequest,
    event: CallbackEvent,
    next: CallbackState,
    action: CallbackAction,
) -> bool {
    match event {
        CallbackEvent::SessionExpired(Ok(_)) => if stored_csrf_token@ == request.state@ {
            &&& next == CallbackState::CsrfValidated
            &&& action matches CallbackAction::ExchangeCode { code }
            &&& code@ == request.code@
        } else {
            fails_with(next, action, ErrorKind::GenericTokenError, csrf_mismatch_text())
        },
        CallbackEvent::SessionExpired(Err(error)) => fails_unchanged(next, action, error),
        _ => fails_with(next, action, ErrorKind::InternalServerError, unexpected_event_text()),
    }
}

/// The token endpoint has answered. Both tokens have the user's data asked
/// for with the access token; anything less is an `ExchangeError`.
pub open spec fn steps_from_csrf_validated(
    event: CallbackEvent,
    next: CallbackState,
    action: CallbackAction,
) -> bool {
    match event {
        CallbackEvent::CodeExchangeAnswered(Some(grant)) => match grant.refresh_token {
            Some(refresh_token) => {
                &&& next matches CallbackState::CodeExchanged { tokens }
                &&& tokens@ == (TokenPairView {
                    access_token: grant.access_token@,
                    refresh_token: refresh_token@,
                })
                &&& action matches CallbackAction::FetchUserInfo { request }
                &&& request.url@ == user_info_url()
                &&& request.bearer_token@ == grant.access_token@
            },
            None => fails_with(
                next,
                action,
                ErrorKind::ExchangeError,
                missing_refresh_token_text(),
            ),
        },
        CallbackEvent::CodeExchangeAnswered(None) => fails_with(
            next,
            action,
            ErrorKind::ExchangeError,
            exchange_failed_text(),
        ),
        _ => fails_with(next, action, ErrorKind::InternalServerError, unexpected_event_text()),
    }
}

/// The user-info endpoint has answered. A user has their row looked up by
/// the subject id; anything else is a `RemoteError`.
pub open spec fn steps_from_code_exchanged(
    tokens: TokenPair,
    event: CallbackEvent,
    next: CallbackState,
    action: CallbackAction,
) -> bool {
    match event {
        CallbackEvent::UserInfoAnswered(reply) => match user_info_failure(reply) {
            Some(detail) => fails_with(next, action, ErrorKind::RemoteError, detail),
            None => {
                &&& next matches CallbackState::LookupRequested { tokens: kept, user }
                &&& kept == tokens
                &&& Some(user) == reply->payload
                &&& action matches CallbackAction::FindUser { google_id }
                &&& google_id@ == user.sub@
            },
        },
        _ => fails_with(next, action, ErrorKind::InternalServerError, unexpected_event_text()),
    }
}

/// The lookup has answered. A user who has a row is logged in as the row
/// says; one who has none gets a row first.
pub open spec fn steps_from_lookup_requested(
    tokens: TokenPair,
    user: User,
    event: CallbackEvent,
    next: CallbackState,
    action: CallbackAction,
) -> bool {
    match event {
        CallbackEvent::UserLookedUp(Ok(Some(user_context))) => {
            &&& next == (CallbackState::UserResolved { tokens })
            &&& action == (CallbackAction::SetUserContext { user_context })
        },
        CallbackEvent::UserLookedUp(Ok(None)) => {
            &&& next == (CallbackState::InsertRequested { tokens, user })
            &&& action matches CallbackAction::InsertUser { google_id, email, first_name, last_name }
            &&& google_id@ == user.sub@
            &&& email@ == user.email@
            &&& first_name@ == user.given_name@
            &&& last_name@ == user.family_name@
        },
        CallbackEvent::UserLookedUp(Err(error)) => fails_unchanged(next, action, error),
        _ => fails_with(next, action, ErrorKind::InternalServerError, unexpected_event_text()),
    }
}

/// The new row is there. The user is logged in under its id, with the data
/// that the provider sent.
pub open spec fn steps_from_insert_requested(
    tokens: TokenPair,
    user: User,
    event: CallbackEvent,
    next: CallbackState,
    action: CallbackAction,
) -> bool {
    match event {
        CallbackEvent::UserInserted(Ok(user_id)) => {
            &&& next == (CallbackState::UserResolved { tokens })
            &&& action matches CallbackAction::SetUserContext { user_context }
            &&& user_context@ == new_user_context(user@, user_id)
        },
        CallbackEvent::UserInserted(Err(error)) => fails_unchanged(next, action, error),
        _ => fails_with(next, action, ErrorKind::InternalServerError, unexpected_event_text()),
    }
}

/// The user is logged in. The answer sets the two token cookies and
/// redirects to the root; tokens that no header can carry are an
/// `InternalServerError`.
pub open spec fn steps_from_user_resolved(
    tokens: TokenPair,
    event: CallbackEvent,
    next: CallbackState,
    action: CallbackAction,
) -> bool {
    let access_cookie = cookie_text("access_token"@, tokens.access_token@);
    let refresh_cookie = cookie_text("refresh_token"@, tokens.refresh_token@);
    match event {
        CallbackEvent::ContextSet => if is_header_value(access_cookie) && is_header_value(
            refresh_cookie,
        ) {
            &&& next == CallbackState::ContextCommitted
            &&& action matches CallbackAction::Respond { response }
            &&& sets_two_cookies(response, access_cookie, refresh_cookie, "/"@)
        } else {
            fails_with(next, action, ErrorKind::InternalServerError, bad_header_text())
        },
        _ => fails_with(next, action, ErrorKind::InternalServerError, unexpected_event_text()),
    }
}

/// A flow that has ended stays where it is, whatever arrives.
pub open spec fn stays_at_the_end(
    state: CallbackState,
    next: CallbackState,
    action: CallbackAction,
) -> bool {
    &&& next == state
    &&& action matches CallbackAction::Fail { error }
    &&& error.spec_kind() == ErrorKind::InternalServerError
    &&& error.detail() == unexpected_event_text()
}

/// Whether the step from `state` on `event` at the moment `now` is the one
/// that leads to `next` and asks for `action`.
pub open spec fn callback_step(
    state: CallbackState,
    event: CallbackEvent,
    now: i64,
    next: CallbackState,
    action: CallbackAction,
) -> bool {
    match state {
        CallbackState::Init => steps_from_init(event, next, action),
        CallbackState::SessionRequested { session_id, request } => steps_from_session_requested(
            session_id,
            request,
            event,
            now,
            next,
            action,
        ),
        CallbackState::ExpiryRequested { stored_csrf_token, request } => steps_from_expiry_requested(
            stored_csrf_token,
            request,
            event,
            next,
            action,
        ),
        CallbackState::CsrfValidated => steps_from_csrf_validated(event, next, action),
        CallbackState::CodeExchanged { tokens } => steps_from_code_exchanged(
            tokens,
            event,
            next,
            action,
        ),
        CallbackState::LookupRequested { tokens, user } => steps_from_lookup_requested(
            tokens,
            user,
            event,
            next,
            action,
        ),
        CallbackState::InsertRequested { tokens, user } => steps_from_insert_requested(
            tokens,
            user,
            event,
            next,
            action,
        ),
        CallbackState::UserResolved { tokens } => steps_from_user_resolved(tokens, event, next, action),
        CallbackState::ContextCommitted => stays_at_the_end(state, next, action),
        CallbackState::Failed { kind } => stays_at_the_end(state, next, action),
    }
}

/// Ends the flow with the given error.
fn failed(error: AppError) -> (result: (CallbackState, CallbackAction))
    ensures
        fails_unchanged(result.0, result.1, error),
        fails_with(result.0, result.1, error.spec_kind(), error.detail()),
{
    let kind = error.kind();
    (CallbackState::Failed { kind }, CallbackAction::Fail { error })
}

/// Ends the flow because an event arrived that it did not ask for.
fn unexpected() -> (result: (CallbackState, CallbackAction))
    ensures
        fails_with(result.0, result.1, ErrorKind::InternalServerError, unexpected_event_text()),
{
    failed(
        AppError::InternalServerError(String::from_str("the callback did not wait for this event")),
    )
}

/// Answers an event at a flow that has ended: the flow stays where it is.
fn ended(state: CallbackState) -> (result: (CallbackState, CallbackAction))
    ensures
        stays_at_the_end(state, result.0, result.1),
{
    let error = AppError::InternalServerError(
        String::from_str("the callback did not wait for this event"),
    );
    (state, CallbackAction::Fail { error })
}

/// The answer to a callback whose user is logged in: the two token cookies
/// and a redirect to the root.
fn respond(tokens: TokenPair) -> (result: (CallbackState, CallbackAction))
    ensures
        steps_from_user_resolved(tokens, CallbackEvent::ContextSet, result.0, result.1),
{
    let access_cookie = match set_cookie("access_token", tokens.access_token.as_str()) {
        Ok(cookie) => cookie,
        Err(error) => {
            return failed(error);
        },
    };
    let refresh_cookie = match set_cookie("refresh_token", tokens.refresh_token.as_str()) {
        Ok(cookie) => cookie,
        Err(error) => {
            return failed(error);
        },
    };
    let mut cookies: Vec<String> = Vec::new();
    cookies.push(access_cookie);
    cookies.push(refresh_cookie);
    let response = AuthResponse { cookies, redirect: String::from_str("/") };
    (CallbackState::ContextCommitted, CallbackAction::Respond { response })
}

/// Takes one step of a callback: from `state`, on the outcome `event` of the
/// work that was asked for last, at the moment `now`, to the next state and
/// the work to do next.
pub fn step_at(state: CallbackState, event: CallbackEvent, now: i64) -> (result: (
    CallbackState,
    CallbackAction,
))
    ensures
        callback_step(state, event, now, result.0, result.1),
{
    match state {
        CallbackState::Init => match event {
            CallbackEvent::Started { request, cookies } => match first_value(&cookies, "SESSION") {
                Some(session_id) => {
                    let wanted = session_id.clone();
                    (
                        CallbackState::SessionRequested { session_id, request },
                        CallbackAction::FetchSession { session_id: wanted },
                    )
                },
                None => failed(AppError::Unauthorized),
            },
            _ => unexpected(),
        },
        CallbackState::SessionRequested { session_id, request } => match event {
            CallbackEvent::SessionFetched(Ok(row)) => match csrf_token_of(row.as_ref(), now) {
                Ok(stored_csrf_token) => (
                    CallbackState::ExpiryRequested { stored_csrf_token, request },
                    CallbackAction::ExpireSession { session_id, at: now },
                ),
                Err(error) => failed(error),
            },
            CallbackEvent::SessionFetched(Err(error)) => failed(error),
            _ => unexpected(),
        },
        CallbackState::ExpiryRequested { stored_csrf_token, request } => match event {
            CallbackEvent::SessionExpired(Ok(_)) => {
                if stored_csrf_token == request.state {
                    (CallbackState::CsrfValidated, CallbackAction::ExchangeCode { code: request.code })
                } else {
                    failed(
                        AppError::TokenError(
                            crate::error::token_error::TokenError::GenericTokenError(
                                String::from_str("CSRF token mismatch"),
                            ),
                        ),
                    )
                }
            },
            CallbackEvent::SessionExpired(Err(error)) => failed(error),
            _ => unexpected(),
        },
        CallbackState::CsrfValidated => match event {
            CallbackEvent::CodeExchangeAnswered(reply) => match token_pair_of(reply) {
                Ok(tokens) => {
                    let request = user_info_request(tokens.access_token.as_str());
                    (
                        CallbackState::CodeExchanged { tokens },
                        CallbackAction::FetchUserInfo { request },
                    )
                },
                Err(error) => failed(error),
            },
            _ => unexpected(),
        },
        CallbackState::CodeExchanged { tokens } => match event {
            CallbackEvent::UserInfoAnswered(reply) => match user_info_of(reply) {
                Ok(user) => {
                    let google_id = user.sub.clone();
                    (
                        CallbackState::LookupRequested { tokens, user },
                        CallbackAction::FindUser { google_id },
                    )
                },
                Err(error) => failed(error),
            },
            _ => unexpected(),
        },
        CallbackState::LookupRequested { tokens, user } => match event {
            CallbackEvent::UserLookedUp(Ok(Some(user_context))) => (
                CallbackState::UserResolved { tokens },
                CallbackAction::SetUserContext { user_context },
            ),
            CallbackEvent::UserLookedUp(Ok(None)) => {
                let action = CallbackAction::InsertUser {
                    google_id: user.sub.clone(),
                    email: user.email.clone(),
                    first_name: user.given_name.clone(),
                    last_name: user.family_name.clone(),
                };
                (CallbackState::InsertRequested { tokens, user }, action)
            },
            CallbackEvent::UserLookedUp(Err(error)) => failed(error),
            _ => unexpected(),
        },
        CallbackState::InsertRequested { tokens, user } => match event {
            CallbackEvent::UserInserted(Ok(user_id)) => {
                let user_context = context_of_new_user(&user, user_id);
                (
                    CallbackState::UserResolved { tokens },
                    CallbackAction::SetUserContext { user_context },
                )
            },
            CallbackEvent::UserInserted(Err(error)) => failed(error),
            _ => unexpected(),
        },
        CallbackState::UserResolved { tokens } => match event {
            CallbackEvent::ContextSet => respond(tokens),
            _ => unexpected(),
        },
        CallbackState::ContextCommitted => ended(state),
        CallbackState::Failed { kind } => ended(CallbackState::Failed { kind }),
    }
}

/// Takes one step of a callback at the present moment.
pub fn step(state: CallbackState, event: CallbackEvent) -> (result: (CallbackState, CallbackAction))
    ensures
        exists|now: i64|
            is_calendar_time(now as int) && #[trigger] callback_step(
                state,
                event,
                now,
                result.0,
                result.1,
            ),
{
    let now = unix_time_now();
    step_at(state, event, now)
}

/// The CSRF tokens are compared only once the session has expired: the one
/// step that reaches `CsrfValidated` starts where the expiry was asked for
/// and takes the news that it was done. And the expiry is asked for only in
/// answer to the session's row, for that very session.
pub proof fn law_session_expires_before_tokens_are_compared(
    state: CallbackState,
    event: CallbackEvent,
    now: i64,
    next: CallbackState,
    action: CallbackAction,
)
    requires
        callback_step(state, event, now, next, action),
    ensures
        next is CsrfValidated ==> state is ExpiryRequested && event matches CallbackEvent::SessionExpired(
            Ok(_),
        ),
        next is ExpiryRequested ==> {
            &&& state matches CallbackState::SessionRequested { session_id, .. }
            &&& event matches CallbackEvent::SessionFetched(Ok(Some(_)))
            &&& action matches CallbackAction::ExpireSession { session_id: expired, at }
            &&& expired@ == session_id@
            &&& at == now
        },
{
}

/// A session that is missing or expired and a CSRF token that does not
/// match are told apart. The step that takes the session's row fails with
/// `NotFound`, and only where the row is missing or not live; the step that
/// compares the tokens fails with a token error, and only where they differ.
pub proof fn law_missing_session_is_not_a_mismatch(
    state: CallbackState,
    event: CallbackEvent,
    now: i64,
    next: CallbackState,
    action: CallbackAction,
)
    requires
        callback_step(state, event, now, next, action),
        next is Failed,
    ensures
        match (state, event) {
            (CallbackState::SessionRequested { .. }, CallbackEvent::SessionFetched(Ok(row))) => {
                &&& next == (CallbackState::Failed { kind: ErrorKind::NotFound })
                &&& lookup_result(row_view(row), now as int) is None
            },
            (
                CallbackState::ExpiryRequested { stored_csrf_token, request },
                CallbackEvent::SessionExpired(Ok(_)),
            ) => {
                &&& next == (CallbackState::Failed { kind: ErrorKind::GenericTokenError })
                &&& stored_csrf_token@ != request.state@
            },
            _ => true,
        },
        ErrorKind::NotFound != ErrorKind::GenericTokenError,
{
}

/// The code counts as exchanged only where the provider granted both
/// tokens: a grant without the refresh token never leads on.
pub proof fn law_exchange_needs_both_tokens(
    state: CallbackState,
    event: CallbackEvent,
    now: i64,
    next: CallbackState,
    action: CallbackAction,
)
    requires
        callback_step(state, event, now, next, action),
    ensures
        next is CodeExchanged ==> {
            &&& state is CsrfValidated
            &&& event matches CallbackEvent::CodeExchangeAnswered(Some(grant))
            &&& grant.refresh_token is Some
        },
        match (state, event) {
            (CallbackState::CsrfValidated, CallbackEvent::CodeExchangeAnswered(Some(grant))) => {
                grant.refresh_token is None ==> next == (CallbackState::Failed {
                    kind: ErrorKind::ExchangeError,
                })
            },
            _ => true,
        },
{
}

/// A callback that has ended, in success or in failure, stays where it is.
pub proof fn law_ended_callback_stays(
    state: CallbackState,
    event: CallbackEvent,
    now: i64,
    next: CallbackState,
    action: CallbackAction,
)
    requires
        callback_step(state, event, now, next, action),
        state is ContextCommitted || state is Failed,
    ensures
        next == state,
        action is Fail,
{
}

/// How far a callback has come: the number of steps behind it on the
/// longest way to its state. The two ends count as the farthest.
pub open spec fn progress(state: CallbackState) -> nat {
    match state {
        CallbackState::Init => 0,
        CallbackState::SessionRequested { .. } => 1,
        CallbackState::ExpiryRequested { .. } => 2,
        CallbackState::CsrfValidated => 3,
        CallbackState::CodeExchanged { .. } => 4,
        CallbackState::LookupRequested { .. } => 5,
        CallbackState::InsertRequested { .. } => 6,
        CallbackState::UserResolved { .. } => 7,
        CallbackState::ContextCommitted => 8,
        CallbackState::Failed { .. } => 8,
    }
}

/// Nothing is tried twice: every step of a callback that has not ended
/// leads onwards or ends it, so that a callback ends after eight steps at
/// most.
pub proof fn law_every_step_leads_onwards(
    state: CallbackState,
    event: CallbackEvent,
    now: i64,
    next: CallbackState,
    action: CallbackAction,
)
    requires
        callback_step(state, event, now, next, action),
        !(state is ContextCommitted || state is Failed),
    ensures
        progress(next) > progress(state),
        progress(next) <= 8,
{
}

/// The flow takes a session for live through its hour and not a moment
/// longer: the row of a session that was stored at the moment `created`
/// leads on exactly at the moments before `created` plus one hour.
pub proof fn law_flow_follows_the_ttl(
    session_id: String,
    request: AuthRequest,
    row: Session,
    created: int,
    now: i64,
    next: CallbackState,
    action: CallbackAction,
)
    requires
        row@.expires_at == created + crate::repository::session_repository::SESSION_TTL_SECONDS,
        callback_step(
            CallbackState::SessionRequested { session_id, request },
            CallbackEvent::SessionFetched(Ok(Some(row))),
            now,
            next,
            action,
        ),
    ensures
        next is ExpiryRequested <==> now < created
            + crate::repository::session_repository::SESSION_TTL_SECONDS,
        !(next is ExpiryRequested) ==> next == (CallbackState::Failed { kind: ErrorKind::NotFound }),
{
}

} // verus!
