//! The login flow on the state of the process: start a login, validate the
//! provider's callback, log out.

use crate::clock::{is_calendar_time, unix_time_now};
use crate::config::oauth_client::{login_url, CSRF_TOKEN_LENGTH};
use crate::error::app_error::{is_failure, AppError, ErrorKind};
pub use crate::handler::callback_flow::AuthRequest;
use crate::handler::callback_flow::{
    csrf_mismatch_text, step_at, CallbackAction, CallbackEvent, CallbackState,
};
use crate::handler::cookie::{
    bad_header_text, cookie_text, is_header_value, law_cookie_is_valid_when_its_parts_are,
    session_cookie_name, set_cookie, sets_one_cookie, sets_two_cookies, AuthResponse,
};
use crate::handler::session_id::{generate_session_id, is_session_id};
use crate::pairs::{first_value, spec_first_value};
use crate::repository::session_repository::{
    duplicate_session_text, live_token, session_not_found_text, with_expired, with_session,
    SessionRepositoryTrait, SessionView, SESSION_TTL_SECONDS,
};
use crate::repository::user_repository::{
    context_of, no_user_id_left_text, UserRecordView, UserRepositoryTrait,
};
use crate::service::google_token_service::{
    exchange_failed_text, missing_refresh_token_text, user_info_failure, GoogleTokenService,
    HttpReply, TokenGrant, TokenServiceTrait,
};
use crate::service::user_service::{new_user_context, record_for};
use crate::state::app_state::{AppState, UserContextView};
use crate::{User, UserView};
use vstd::pervasive::unreached;
use vstd::prelude::*;

verus! {

/// A login attempt that waits for its session to be stored.
#[derive(Debug, PartialEq, Eq)]
pub struct PendingLogin {
    pub session_id: String,
    pub csrf_token: String,
    /// The moment at which the attempt started.
    pub created_at: i64,
    /// Where the provider takes over.
    pub auth_url: String,
}

impl PendingLogin {
    /// The moment from which the session of this attempt no longer counts:
    /// one hour after the attempt started.
    pub fn expires_at(&self) -> (expiry: i64)
        requires
            self.created_at + SESSION_TTL_SECONDS <= i64::MAX,
        ensures
            expiry == self.created_at + SESSION_TTL_SECONDS,
    {
        self.created_at + SESSION_TTL_SECONDS
    }
}

/// What the answer to a login attempt is, once the attempt to store its
/// session has come to `stored`: the error of the store, unchanged; else a
/// redirect to the provider that sets the session cookie; or, for a session
/// id that no header can carry, an `InternalServerError`.
pub open spec fn is_login_answer(
    result: Result<AuthResponse, AppError>,
    session_id: Seq<char>,
    auth_url: Seq<char>,
    stored: Result<(), AppError>,
) -> bool {
    match stored {
        Err(error) => result == Err::<AuthResponse, AppError>(error),
        Ok(_) => if is_header_value(cookie_text(session_cookie_name(), session_id)) {
            result matches Ok(response) && sets_one_cookie(
                response,
                cookie_text(session_cookie_name(), session_id),
                auth_url,
            )
        } else {
            is_failure(result, ErrorKind::InternalServerError, bad_header_text())
        },
    }
}

/// Answers a login attempt whose session the store was asked to keep.
pub fn complete_login(pending: PendingLogin, stored: Result<(), AppError>) -> (result: Result<
    AuthResponse,
    AppError,
>)
    ensures
        is_login_answer(result, pending.session_id@, pending.auth_url@, stored),
{
    match stored {
        Err(error) => Err(error),
        Ok(_) => {
            let cookie = set_cookie("SESSION", pending.session_id.as_str())?;
            let mut cookies: Vec<String> = Vec::new();
            cookies.push(cookie);
            Ok(AuthResponse { cookies, redirect: pending.auth_url })
        },
    }
}

/// Starts a login attempt at the present moment: a fresh CSRF token, the
/// authorization URL that carries it, and a fresh session id to store the
/// token under.
pub fn prepare_login(service: &GoogleTokenService) -> (pending: PendingLogin)
    ensures
        is_session_id(pending.session_id@),
        pending.csrf_token@.len() == CSRF_TOKEN_LENGTH,
        is_calendar_time(pending.created_at as int),
        pending.auth_url@ == login_url(service.client(), pending.csrf_token@),
{
    let (auth_url, csrf_token) = match service.generate_authorisation_url() {
        Ok(request) => request,
        Err(_) => {
            assert(false);
            unreached()
        },
    };
    let session_id = generate_session_id();
    let created_at = unix_time_now();
    PendingLogin { session_id, csrf_token, created_at, auth_url }
}

/// What a login attempt makes of the state of the process: a session id
/// that is already stored is a `DatabaseError` and changes nothing; any
/// other is stored with the CSRF token, to expire one hour after `now`,
/// and then answered as `is_login_answer` says.
pub open spec fn is_login(
    before: Map<Seq<char>, SessionView>,
    after: Map<Seq<char>, SessionView>,
    result: Result<AuthResponse, AppError>,
    session_id: Seq<char>,
    csrf_token: Seq<char>,
    auth_url: Seq<char>,
    now: int,
) -> bool {
    if before.contains_key(session_id) {
        &&& after == before
        &&& is_failure(result, ErrorKind::DatabaseError, duplicate_session_text())
    } else {
        &&& after == with_session(before, session_id, csrf_token, now)
        &&& is_login_answer(result, session_id, auth_url, Ok(()))
    }
}

/// Carries out a login attempt that was prepared: stores its session and
/// answers with the redirect to the provider.
pub fn google_auth_with(app_state: &mut AppState, pending: PendingLogin) -> (result: Result<
    AuthResponse,
    AppError,
>)
    requires
        pending.created_at + SESSION_TTL_SECONDS <= i64::MAX,
    ensures
        is_login(
            old(app_state).sessions(),
            final(app_state).sessions(),
            result,
            pending.session_id@,
            pending.csrf_token@,
            pending.auth_url@,
            pending.created_at as int,
        ),
        final(app_state).context() == old(app_state).context(),
        final(app_state).users() == old(app_state).users(),
        final(app_state).parameters == old(app_state).parameters,
        final(app_state).google_token_service == old(app_state).google_token_service,
{
    let stored = app_state.session_repository.add_csrf_token(
        pending.session_id.as_str(),
        pending.csrf_token.as_str(),
        pending.created_at,
    );
    complete_login(pending, stored)
}

/// Starts a login: stores a fresh CSRF token under a fresh session id and
/// redirects the browser to the provider, with the session id in the
/// `SESSION` cookie.
pub fn google_auth(app_state: &mut AppState) -> (result: Result<AuthResponse, AppError>)
    ensures
        final(app_state).context() == old(app_state).context(),
        final(app_state).users() == old(app_state).users(),
        final(app_state).parameters == old(app_state).parameters,
        final(app_state).google_token_service == old(app_state).google_token_service,
        exists|session_id: Seq<char>, csrf_token: Seq<char>, now: int|
            {
                &&& is_session_id(session_id)
                &&& csrf_token.len() == CSRF_TOKEN_LENGTH
                &&& is_calendar_time(now)
                &&& #[trigger] is_login(
                    old(app_state).sessions(),
                    final(app_state).sessions(),
                    result,
                    session_id,
                    csrf_token,
                    login_url(old(app_state).google_token_service.client(), csrf_token),
                    now,
                )
            },
{
    let pending = prepare_login(&app_state.google_token_service);
    let ghost session_id = pending.session_id@;
    let ghost csrf_token = pending.csrf_token@;
    let ghost now = pending.created_at as int;
    let result = google_auth_with(app_state, pending);
    assert(is_login(
        old(app_state).sessions(),
        app_state.sessions(),
        result,
        session_id,
        csrf_token,
        login_url(old(app_state).google_token_service.client(), csrf_token),
        now,
    ));
    result
}

/// Why the validation of a callback fails, if it does: a request without
/// the session cookie is `Unauthorized`; a session that is not live at `now`
/// is `NotFound`; a token other than the stored one is a token error.
pub open spec fn validation_failure(
    sessions: Map<Seq<char>, SessionView>,
    supplied: Seq<char>,
    cookies: Seq<(String, String)>,
    now: int,
) -> Option<(ErrorKind, Seq<char>)> {
    match spec_first_value(cookies, session_cookie_name()) {
        None => Some((ErrorKind::Unauthorized, Seq::empty())),
        Some(session_id) => match live_token(sessions, session_id, now) {
            None => Some((ErrorKind::NotFound, session_not_found_text())),
            Some(stored) => if stored == supplied {
                None
            } else {
                Some((ErrorKind::GenericTokenError, csrf_mismatch_text()))
            },
        },
    }
}

/// The session table after the validation of a callback: the session that
/// the request names, if it is live at `now`, has expired at `now`, whether
/// the tokens were equal or not; nothing else has changed.
pub open spec fn sessions_after_validation(
    sessions: Map<Seq<char>, SessionView>,
    cookies: Seq<(String, String)>,
    now: int,
) -> Map<Seq<char>, SessionView> {
    match spec_first_value(cookies, session_cookie_name()) {
        None => sessions,
        Some(session_id) => if live_token(sessions, session_id, now) is Some {
            with_expired(sessions, session_id, now)
        } else {
            sessions
        },
    }
}

/// Whether `result` and the table `after` are what the validation of a
/// callback owes.
pub open spec fn is_validation(
    before: Map<Seq<char>, SessionView>,
    after: Map<Seq<char>, SessionView>,
    result: Result<(), AppError>,
    supplied: Seq<char>,
    cookies: Seq<(String, String)>,
    now: int,
) -> bool {
    &&& after == sessions_after_validation(before, cookies, now)
    &&& match validation_failure(before, supplied, cookies, now) {
        Some((kind, detail)) => is_failure(result, kind, detail),
        None => result is Ok,
    }
}

/// Runs a callback on the state of the process up to the comparison of the
/// CSRF tokens: the first three steps of the flow, each followed by the
/// work that it asks for.
fn run_validation(
    app_state: &mut AppState,
    request: AuthRequest,
    cookies: Vec<(String, String)>,
    now: i64,
) -> (result: Result<(CallbackState, String), AppError>)
    ensures
        final(app_state).context() == old(app_state).context(),
        final(app_state).users() == old(app_state).users(),
        final(app_state).user_service == old(app_state).user_service,
        final(app_state).user_context == old(app_state).user_context,
        final(app_state).parameters == old(app_state).parameters,
        final(app_state).google_token_service == old(app_state).google_token_service,
        is_validation(
            old(app_state).sessions(),
            final(app_state).sessions(),
            match result {
                Ok(_) => Ok(()),
                Err(error) => Err(error),
            },
            request.state@,
            cookies@,
            now as int,
        ),
        match result {
            Ok((state, code)) => state == CallbackState::CsrfValidated && code@ == request.code@,
            Err(_) => true,
        },
{
    let (state, action) = step_at(CallbackState::Init, CallbackEvent::Started { request, cookies }, now);
    let session_id = match action {
        CallbackAction::FetchSession { session_id } => session_id,
        CallbackAction::Fail { error } => {
            return Err(error);
        },
        _ => {
            assert(false);
            unreached()
        },
    };
    let row = app_state.session_repository.find_session(session_id.as_str());
    let (state, action) = step_at(state, CallbackEvent::SessionFetched(Ok(row)), now);
    let (session_id, at) = match action {
        CallbackAction::ExpireSession { session_id, at } => (session_id, at),
        CallbackAction::Fail { error } => {
            return Err(error);
        },
        _ => {
            assert(false);
            unreached()
        },
    };
    let expired = app_state.session_repository.expire_session(session_id.as_str(), at);
    let (state, action) = step_at(state, CallbackEvent::SessionExpired(expired), now);
    match action {
        CallbackAction::ExchangeCode { code } => Ok((state, code)),
        CallbackAction::Fail { error } => Err(error),
        _ => {
            assert(false);
            unreached()
        },
    }
}

/// Validates the provider's callback against the session that the request
/// names: reads the stored CSRF token, makes the session expire, and only
/// then compares the token of the redirect with the stored one. The session
/// is spent by this, whether the tokens are equal or not.
pub fn validate_csrf_token(
    app_state: &mut AppState,
    auth_request: &AuthRequest,
    cookies: &Vec<(String, String)>,
    now: i64,
) -> (result: Result<(), AppError>)
    ensures
        final(app_state).context() == old(app_state).context(),
        final(app_state).users() == old(app_state).users(),
        final(app_state).parameters == old(app_state).parameters,
        final(app_state).google_token_service == old(app_state).google_token_service,
        is_validation(
            old(app_state).sessions(),
            final(app_state).sessions(),
            result,
            auth_request.state@,
            cookies@,
            now as int,
        ),
{
    let request = auth_request.clone();
    let cookies = copy_pairs(cookies);
    match run_validation(app_state, request, cookies, now) {
        Ok(_) => Ok(()),
        Err(error) => Err(error),
    }
}

/// A copy of a list of named values.
fn copy_pairs(pairs: &Vec<(String, String)>) -> (copy: Vec<(String, String)>)
    ensures
        forall|name: Seq<char>| spec_first_value(copy@, name) == spec_first_value(pairs@, name),
{
    let mut copy: Vec<(String, String)> = Vec::new();
    let mut index: usize = 0;
    while index < pairs.len()
        invariant
            index <= pairs.len(),
            copy@.len() == index,
            forall|i: int| 0 <= i < index ==> copy@[i].0@ == pairs@[i].0@ && copy@[i].1@ == pairs@[i].1@,
        decreases pairs.len() - index,
    {
        copy.push((pairs[index].0.clone(), pairs[index].1.clone()));
        index += 1;
    }
    proof {
        assert forall|name: Seq<char>| spec_first_value(copy@, name) == spec_first_value(
            pairs@,
            name,
        ) by {
            lemma_same_pairs_same_value(copy@, pairs@, name);
        }
    }
    copy
}

/// Lists whose pairs agree in name and value, one by one, yield the same
/// value for every name.
proof fn lemma_same_pairs_same_value(
    left: Seq<(String, String)>,
    right: Seq<(String, String)>,
    name: Seq<char>,
)
    requires
        left.len() == right.len(),
        forall|i: int| 0 <= i < left.len() ==> left[i].0@ == right[i].0@ && left[i].1@ == right[i].1@,
    ensures
        spec_first_value(left, name) == spec_first_value(right, name),
    decreases left.len(),
{
    if left.len() > 0 {
        assert(left[0].0@ == right[0].0@ && left[0].1@ == right[0].1@);
        assert forall|i: int| 0 <= i < left.drop_first().len() implies left.drop_first()[i].0@
            == right.drop_first()[i].0@ && left.drop_first()[i].1@ == right.drop_first()[i].1@ by {
            assert(left.drop_first()[i] == left[i + 1]);
            assert(right.drop_first()[i] == right[i + 1]);
        }
        lemma_same_pairs_same_value(left.drop_first(), right.drop_first(), name);
    }
}

/// Why the token endpoint's answer ends a callback, if it does.
pub open spec fn exchange_failure(reply: Option<TokenGrant>) -> Option<(ErrorKind, Seq<char>)> {
    match reply {
        None => Some((ErrorKind::ExchangeError, exchange_failed_text())),
        Some(grant) => if grant.refresh_token is None {
            Some((ErrorKind::ExchangeError, missing_refresh_token_text()))
        } else {
            None
        },
    }
}

/// Why a callback ends before the user is resolved, if it does: the
/// validation fails, or else the exchange of the code, or else the request
/// for the user's data. The first failure ends the callback; nothing is
/// tried again.
pub open spec fn callback_rejection(
    sessions: Map<Seq<char>, SessionView>,
    request: AuthRequest,
    cookies: Seq<(String, String)>,
    exchange_reply: Option<TokenGrant>,
    user_info_reply: HttpReply<User>,
    now: int,
) -> Option<(ErrorKind, Seq<char>)> {
    if validation_failure(sessions, request.state@, cookies, now) is Some {
        validation_failure(sessions, request.state@, cookies, now)
    } else if exchange_failure(exchange_reply) is Some {
        exchange_failure(exchange_reply)
    } else {
        match user_info_failure(user_info_reply) {
            Some(detail) => Some((ErrorKind::RemoteError, detail)),
            None => None,
        }
    }
}

/// The answer to a callback whose user is logged in: a redirect to the root
/// that sets the access token and the refresh token as cookies; or, for
/// tokens that no header can carry, an `InternalServerError`.
pub open spec fn is_callback_answer(
    result: Result<AuthResponse, AppError>,
    access_token: Seq<char>,
    refresh_token: Seq<char>,
) -> bool {
    let access_cookie = cookie_text("access_token"@, access_token);
    let refresh_cookie = cookie_text("refresh_token"@, refresh_token);
    if is_header_value(access_cookie) && is_header_value(refresh_cookie) {
        result matches Ok(response) && sets_two_cookies(response, access_cookie, refresh_cookie, "/"@)
    } else {
        is_failure(result, ErrorKind::InternalServerError, bad_header_text())
    }
}

/// What a callback that got as far as the user's data makes of the user
/// table and of the user context. A user whose subject id is in the table is
/// logged in as the table has them, and the table stays as it is. Any other
/// user gets one new row, under the next id, and is logged in under that id
/// with the provider's data. A table that has no id left gives a
/// `DatabaseError`, and nobody is logged in by this callback.
pub open spec fn is_resolution(
    before: AppState,
    after: AppState,
    result: Result<AuthResponse, AppError>,
    access_token: Seq<char>,
    refresh_token: Seq<char>,
    user: UserView,
) -> bool {
    if before.users().contains_key(user.sub) {
        &&& after.users() == before.users()
        &&& after.user_service.last_insert_id() == before.user_service.last_insert_id()
        &&& after.context() == Some(context_of(before.users()[user.sub]))
        &&& is_callback_answer(result, access_token, refresh_token)
    } else if before.user_service.last_insert_id() < u64::MAX {
        let user_id = (before.user_service.last_insert_id() + 1) as u64;
        &&& after.users() == before.users().insert(user.sub, record_for(user, user_id))
        &&& after.user_service.last_insert_id() == user_id
        &&& after.context() == Some(new_user_context(user, user_id))
        &&& is_callback_answer(result, access_token, refresh_token)
    } else {
        &&& after.users() == before.users()
        &&& after.user_service.last_insert_id() == before.user_service.last_insert_id()
        &&& after.context() == before.context()
        &&& is_failure(result, ErrorKind::DatabaseError, no_user_id_left_text())
    }
}

/// Whether `result` and the state `after` are what a callback owes, given
/// what the provider answers to the two round trips.
pub open spec fn is_callback(
    before: AppState,
    after: AppState,
    result: Result<AuthResponse, AppError>,
    request: AuthRequest,
    cookies: Seq<(String, String)>,
    exchange_reply: Option<TokenGrant>,
    user_info_reply: HttpReply<User>,
    now: int,
) -> bool {
    &&& after.sessions() == sessions_after_validation(before.sessions(), cookies, now)
    &&& match callback_rejection(
        before.sessions(),
        request,
        cookies,
        exchange_reply,
        user_info_reply,
        now,
    ) {
        Some((kind, detail)) => {
            &&& is_failure(result, kind, detail)
            &&& after.users() == before.users()
            &&& after.user_service.last_insert_id() == before.user_service.last_insert_id()
            &&& after.context() == before.context()
        },
        None => is_resolution(
            before,
            after,
            result,
            exchange_reply->0.access_token@,
            exchange_reply->0.refresh_token->0@,
            user_info_reply->payload->0@,
        ),
    }
}

/// Handles the provider's callback on the state of the process, given what
/// the provider answers to the exchange of the code and to the request for
/// the user's data. The steps are those of the callback flow, each followed
/// by the work that it asks for: validate the CSRF token, which spends the
/// session; exchange the code; fetch the user's data; find the user or add
/// them; log them in; answer with the two token cookies.
pub fn auth_callback(
    app_state: &mut AppState,
    query: AuthRequest,
    cookies: Vec<(String, String)>,
    exchange_reply: Option<TokenGrant>,
    user_info_reply: HttpReply<User>,
    now: i64,
) -> (result: Result<AuthResponse, AppError>)
    ensures
        is_callback(
            *old(app_state),
            *final(app_state),
            result,
            query,
            cookies@,
            exchange_reply,
            user_info_reply,
            now as int,
        ),
        final(app_state).parameters == old(app_state).parameters,
        final(app_state).google_token_service == old(app_state).google_token_service,
{
    let (state, _) = run_validation(app_state, query, cookies, now)?;
    let (state, action) = step_at(state, CallbackEvent::CodeExchangeAnswered(exchange_reply), now);
    match action {
        CallbackAction::FetchUserInfo { request } => {},
        CallbackAction::Fail { error } => {
            return Err(error);
        },
        _ => {
            assert(false);
        },
    }
    let (state, action) = step_at(state, CallbackEvent::UserInfoAnswered(user_info_reply), now);
    let google_id = match action {
        CallbackAction::FindUser { google_id } => google_id,
        CallbackAction::Fail { error } => {
            return Err(error);
        },
        _ => {
            assert(false);
            unreached()
        },
    };
    let found = app_state.user_service.user_repository.find_user_by_google_id(google_id.as_str());
    let (state, action) = step_at(state, CallbackEvent::UserLookedUp(found), now);
    let (state, action) = match action {
        CallbackAction::InsertUser { google_id, email, first_name, last_name } => {
            let inserted = app_state.user_service.user_repository.add_user(
                google_id.as_str(),
                email.as_str(),
                first_name.as_str(),
                last_name.as_str(),
            );
            step_at(state, CallbackEvent::UserInserted(inserted), now)
        },
        other => (state, other),
    };
    let user_context = match action {
        CallbackAction::SetUserContext { user_context } => user_context,
        CallbackAction::Fail { error } => {
            return Err(error);
        },
        _ => {
            assert(false);
            unreached()
        },
    };
    app_state.set_user_context(user_context);
    let (_, action) = step_at(state, CallbackEvent::ContextSet, now);
    match action {
        CallbackAction::Respond { response } => Ok(response),
        CallbackAction::Fail { error } => Err(error),
        _ => {
            assert(false);
            unreached()
        },
    }
}

/// The refresh token that a logout has to revoke at the provider: that of
/// the `refresh_token` cookie, if the request has one. Revoking the refresh
/// token revokes the access token with it.
pub fn token_to_revoke(cookies: &Vec<(String, String)>) -> (token: Option<String>)
    ensures
        crate::pairs::is_value(token, spec_first_value(cookies@, "refresh_token"@)),
{
    first_value(cookies, "refresh_token")
}

/// Whether `result` and the user context `after` are what a logout owes. A
/// request with a refresh token whose revocation failed is `InvalidToken`,
/// and whoever was logged in stays logged in. Any other request logs the
/// user out and is answered with a redirect to the root that sets both token
/// cookies to the empty value, for the browser to drop them.
pub open spec fn is_logout(
    before: Option<UserContextView>,
    after: Option<UserContextView>,
    result: Result<AuthResponse, AppError>,
    cookies: Seq<(String, String)>,
    revoked: bool,
) -> bool {
    if spec_first_value(cookies, "refresh_token"@) is Some && !revoked {
        &&& after == before
        &&& is_failure(result, ErrorKind::InvalidToken, Seq::empty())
    } else {
        &&& after is None
        &&& result matches Ok(response)
        &&& sets_two_cookies(
            response,
            cookie_text("access_token"@, Seq::empty()),
            cookie_text("refresh_token"@, Seq::empty()),
            "/"@,
        )
    }
}

/// Logs the user out. `revoked` says whether the provider revoked the
/// refresh token of the request; it counts only where the request has one.
pub fn logout(app_state: &mut AppState, cookies: &Vec<(String, String)>, revoked: bool) -> (result:
    Result<AuthResponse, AppError>)
    ensures
        is_logout(old(app_state).context(), final(app_state).context(), result, cookies@, revoked),
        final(app_state).sessions() == old(app_state).sessions(),
        final(app_state).users() == old(app_state).users(),
        final(app_state).parameters == old(app_state).parameters,
        final(app_state).google_token_service == old(app_state).google_token_service,
{
    if let Some(_) = token_to_revoke(cookies) {
        app_state.google_token_service.revoke_token(revoked)?;
    }
    app_state.clear_user_context();
    proof {
        reveal_strlit("access_token");
        reveal_strlit("refresh_token");
        reveal_strlit("");
        law_cookie_is_valid_when_its_parts_are("access_token"@, Seq::empty());
        law_cookie_is_valid_when_its_parts_are("refresh_token"@, Seq::empty());
    }
    let empty_access_token = set_cookie("access_token", "")?;
    let empty_refresh_token = set_cookie("refresh_token", "")?;
    let mut cookies: Vec<String> = Vec::new();
    cookies.push(empty_access_token);
    cookies.push(empty_refresh_token);
    Ok(AuthResponse { cookies, redirect: String::from_str("/") })
}

/// A session is good for one callback. After a callback was validated
/// against it at the moment `now`, with whatever outcome, every callback
/// that names the same session at `now` or later is `NotFound`, whichever
/// token it brings.
pub proof fn law_second_callback_finds_no_session(
    sessions: Map<Seq<char>, SessionView>,
    cookies: Seq<(String, String)>,
    supplied: Seq<char>,
    now: int,
    later: int,
)
    requires
        spec_first_value(cookies, session_cookie_name()) is Some,
        now <= later,
    ensures
        validation_failure(
            sessions_after_validation(sessions, cookies, now),
            supplied,
            cookies,
            later,
        ) == Some((ErrorKind::NotFound, session_not_found_text())),
{
}

/// A callback that brings the session's own token is valid at every moment
/// before the session's hour is over, and at no moment from then on.
pub proof fn law_callback_is_valid_within_the_ttl(
    sessions: Map<Seq<char>, SessionView>,
    cookies: Seq<(String, String)>,
    csrf_token: Seq<char>,
    created: int,
    now: int,
)
    requires
        spec_first_value(cookies, session_cookie_name()) is Some,
    ensures
        validation_failure(
            with_session(
                sessions,
                spec_first_value(cookies, session_cookie_name())->0,
                csrf_token,
                created,
            ),
            csrf_token,
            cookies,
            now,
        ) is None <==> now < created + SESSION_TTL_SECONDS,
{
}

/// A token that does not match and a session that is not there are
/// different failures: `NotFound` is owed exactly where the request names a
/// session that is missing or expired, a token error exactly where it names
/// a live session and brings another token than the stored one.
pub proof fn law_mismatch_differs_from_missing_session(
    sessions: Map<Seq<char>, SessionView>,
    cookies: Seq<(String, String)>,
    supplied: Seq<char>,
    now: int,
)
    ensures
        (validation_failure(sessions, supplied, cookies, now) matches Some((kind, _)) && kind
            == ErrorKind::NotFound) <==> (spec_first_value(cookies, session_cookie_name()) matches Some(
            session_id,
        ) && live_token(sessions, session_id, now) is None),
        (validation_failure(sessions, supplied, cookies, now) matches Some((kind, _)) && kind
            == ErrorKind::GenericTokenError) <==> (spec_first_value(
            cookies,
            session_cookie_name(),
        ) matches Some(session_id) && live_token(sessions, session_id, now) matches Some(stored)
            && stored != supplied),
        ErrorKind::NotFound != ErrorKind::GenericTokenError,
{
}

} // verus!
