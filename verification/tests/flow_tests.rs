use lift_auth::error::app_error::{AppError, ErrorKind};
use lift_auth::error::token_error::TokenError;
use lift_auth::handler::callback_flow::{
    step, step_at, AuthRequest, CallbackAction, CallbackEvent, CallbackState,
};
use lift_auth::handler::cookie::AuthResponse;
use lift_auth::repository::session_repository::Session;
use lift_auth::service::google_token_service::{BearerRequest, HttpReply, TokenGrant, TokenPair};
use lift_auth::state::app_state::UserContext;
use lift_auth::User;

const NOW: i64 = 1_700_000_000;

fn request() -> AuthRequest {
    AuthRequest { code: "the-code".to_string(), state: "T1".to_string() }
}

fn started(cookies: Vec<(&str, &str)>) -> CallbackEvent {
    CallbackEvent::Started {
        request: request(),
        cookies: cookies.into_iter().map(|(n, v)| (n.to_string(), v.to_string())).collect(),
    }
}

fn tokens() -> TokenPair {
    TokenPair { access_token: "access".to_string(), refresh_token: "refresh".to_string() }
}

fn user() -> User {
    User {
        sub: "sub-1".to_string(),
        given_name: "George".to_string(),
        family_name: "Thomas".to_string(),
        email: "gt@lift.com".to_string(),
    }
}

fn unexpected() -> CallbackAction {
    CallbackAction::Fail {
        error: AppError::InternalServerError("the callback did not wait for this event".to_string()),
    }
}

#[test]
fn the_flow_of_a_new_user_step_by_step() {
    let (state, action) = step_at(CallbackState::Init, started(vec![("SESSION", "S1")]), NOW);
    assert_eq!(
        state,
        CallbackState::SessionRequested { session_id: "S1".to_string(), request: request() }
    );
    assert_eq!(action, CallbackAction::FetchSession { session_id: "S1".to_string() });

    let row = Session { csrf_token: "T1".to_string(), expires_at: NOW + 1 };
    let (state, action) = step_at(state, CallbackEvent::SessionFetched(Ok(Some(row))), NOW);
    assert_eq!(
        state,
        CallbackState::ExpiryRequested { stored_csrf_token: "T1".to_string(), request: request() }
    );
    assert_eq!(action, CallbackAction::ExpireSession { session_id: "S1".to_string(), at: NOW });

    let (state, action) = step_at(state, CallbackEvent::SessionExpired(Ok(())), NOW);
    assert_eq!(state, CallbackState::CsrfValidated);
    assert_eq!(action, CallbackAction::ExchangeCode { code: "the-code".to_string() });

    let grant = TokenGrant {
        access_token: "access".to_string(),
        refresh_token: Some("refresh".to_string()),
    };
    let (state, action) = step_at(state, CallbackEvent::CodeExchangeAnswered(Some(grant)), NOW);
    assert_eq!(state, CallbackState::CodeExchanged { tokens: tokens() });
    assert_eq!(
        action,
        CallbackAction::FetchUserInfo {
            request: BearerRequest {
                url: "https://openidconnect.googleapis.com/v1/userinfo".to_string(),
                bearer_token: "access".to_string(),
            }
        }
    );

    let reply = HttpReply::Answered { status: 200, payload: Some(user()) };
    let (state, action) = step_at(state, CallbackEvent::UserInfoAnswered(reply), NOW);
    assert_eq!(state, CallbackState::LookupRequested { tokens: tokens(), user: user() });
    assert_eq!(action, CallbackAction::FindUser { google_id: "sub-1".to_string() });

    let (state, action) = step_at(state, CallbackEvent::UserLookedUp(Ok(None)), NOW);
    assert_eq!(state, CallbackState::InsertRequested { tokens: tokens(), user: user() });
    assert_eq!(
        action,
        CallbackAction::InsertUser {
            google_id: "sub-1".to_string(),
            email: "gt@lift.com".to_string(),
            first_name: "George".to_string(),
            last_name: "Thomas".to_string(),
        }
    );

    let (state, action) = step_at(state, CallbackEvent::UserInserted(Ok(3)), NOW);
    assert_eq!(state, CallbackState::UserResolved { tokens: tokens() });
    assert_eq!(
        action,
        CallbackAction::SetUserContext {
            user_context: UserContext {
                user_id: 3,
                email: "gt@lift.com".to_string(),
                name: "George".to_string()
            }
        }
    );

    let (state, action) = step_at(state, CallbackEvent::ContextSet, NOW);
    assert_eq!(state, CallbackState::ContextCommitted);
    assert_eq!(
        action,
        CallbackAction::Respond {
            response: AuthResponse {
                cookies: vec![
                    "access_token=access; SameSite=Lax; HttpOnly; Secure; Path=/".to_string(),
                    "refresh_token=refresh; SameSite=Lax; HttpOnly; Secure; Path=/".to_string(),
                ],
                redirect: "/".to_string(),
            }
        }
    );

    let (state, action) = step_at(state, CallbackEvent::ContextSet, NOW);
    assert_eq!(state, CallbackState::ContextCommitted);
    assert_eq!(action, unexpected());
}

#[test]
fn a_known_user_is_logged_in_as_the_table_has_them() {
    let state = CallbackState::LookupRequested { tokens: tokens(), user: user() };
    let stored =
        UserContext { user_id: 1, email: "old@lift.com".to_string(), name: "Old".to_string() };
    let (state, action) = step_at(state, CallbackEvent::UserLookedUp(Ok(Some(stored.clone()))), NOW);
    assert_eq!(state, CallbackState::UserResolved { tokens: tokens() });
    assert_eq!(action, CallbackAction::SetUserContext { user_context: stored });
}

#[test]
fn a_request_without_session_cookie_is_unauthorized() {
    let (state, action) = step_at(CallbackState::Init, started(vec![("other", "x")]), NOW);
    assert_eq!(state, CallbackState::Failed { kind: ErrorKind::Unauthorized });
    assert_eq!(action, CallbackAction::Fail { error: AppError::Unauthorized });
}

#[test]
fn a_missing_or_expired_row_is_not_found_and_nothing_is_expired() {
    let state =
        || CallbackState::SessionRequested { session_id: "S1".to_string(), request: request() };
    let not_found = CallbackAction::Fail {
        error: AppError::NotFound("no live session with this id".to_string()),
    };

    let (next, action) = step_at(state(), CallbackEvent::SessionFetched(Ok(None)), NOW);
    assert_eq!(next, CallbackState::Failed { kind: ErrorKind::NotFound });
    assert_eq!(action, not_found);

    let expired = Session { csrf_token: "T1".to_string(), expires_at: NOW };
    let (next, action) = step_at(state(), CallbackEvent::SessionFetched(Ok(Some(expired))), NOW);
    assert_eq!(next, CallbackState::Failed { kind: ErrorKind::NotFound });
    assert_eq!(action, not_found);
}

#[test]
fn a_mismatch_is_found_only_after_the_expiry() {
    let wrong = AuthRequest { code: "the-code".to_string(), state: "wrong".to_string() };
    let state = CallbackState::SessionRequested { session_id: "S2".to_string(), request: wrong };
    let row = Session { csrf_token: "T2".to_string(), expires_at: NOW + 100 };
    let (state, action) = step_at(state, CallbackEvent::SessionFetched(Ok(Some(row))), NOW);
    // The tokens differ, and still the first thing asked for is the expiry.
    assert_eq!(action, CallbackAction::ExpireSession { session_id: "S2".to_string(), at: NOW });
    let (state, action) = step_at(state, CallbackEvent::SessionExpired(Ok(())), NOW);
    assert_eq!(state, CallbackState::Failed { kind: ErrorKind::GenericTokenError });
    assert_eq!(
        action,
        CallbackAction::Fail {
            error: AppError::TokenError(TokenError::GenericTokenError(
                "CSRF token mismatch".to_string()
            ))
        }
    );
}

#[test]
fn errors_of_the_store_pass_through_unchanged() {
    let down = || AppError::DatabaseError("connection refused".to_string());

    let state = CallbackState::SessionRequested { session_id: "S".to_string(), request: request() };
    let (next, action) = step_at(state, CallbackEvent::SessionFetched(Err(down())), NOW);
    assert_eq!(next, CallbackState::Failed { kind: ErrorKind::DatabaseError });
    assert_eq!(action, CallbackAction::Fail { error: down() });

    let state =
        CallbackState::ExpiryRequested { stored_csrf_token: "T1".to_string(), request: request() };
    let (next, action) = step_at(state, CallbackEvent::SessionExpired(Err(down())), NOW);
    assert_eq!(next, CallbackState::Failed { kind: ErrorKind::DatabaseError });
    assert_eq!(action, CallbackAction::Fail { error: down() });

    let state = CallbackState::LookupRequested { tokens: tokens(), user: user() };
    let (_, action) = step_at(state, CallbackEvent::UserLookedUp(Err(down())), NOW);
    assert_eq!(action, CallbackAction::Fail { error: down() });

    let duplicate = || AppError::DatabaseError("duplicate subject id".to_string());
    let state = CallbackState::InsertRequested { tokens: tokens(), user: user() };
    let (next, action) = step_at(state, CallbackEvent::UserInserted(Err(duplicate())), NOW);
    assert_eq!(next, CallbackState::Failed { kind: ErrorKind::DatabaseError });
    assert_eq!(action, CallbackAction::Fail { error: duplicate() });
}

#[test]
fn an_exchange_without_both_tokens_ends_the_flow() {
    let (next, action) =
        step_at(CallbackState::CsrfValidated, CallbackEvent::CodeExchangeAnswered(None), NOW);
    assert_eq!(next, CallbackState::Failed { kind: ErrorKind::ExchangeError });
    assert_eq!(
        action,
        CallbackAction::Fail {
            error: AppError::ExchangeError(
                "failed in sending request to authorization server".to_string()
            )
        }
    );

    let grant = TokenGrant { access_token: "access".to_string(), refresh_token: None };
    let (next, action) =
        step_at(CallbackState::CsrfValidated, CallbackEvent::CodeExchangeAnswered(Some(grant)), NOW);
    assert_eq!(next, CallbackState::Failed { kind: ErrorKind::ExchangeError });
    assert_eq!(
        action,
        CallbackAction::Fail { error: AppError::ExchangeError("Missing refresh token".to_string()) }
    );
}

#[test]
fn a_bad_answer_of_the_user_info_endpoint_ends_the_flow() {
    let state = || CallbackState::CodeExchanged { tokens: tokens() };
    let (next, _) = step_at(state(), CallbackEvent::UserInfoAnswered(HttpReply::Unreachable), NOW);
    assert_eq!(next, CallbackState::Failed { kind: ErrorKind::RemoteError });
    let refused = HttpReply::Answered { status: 500, payload: Some(user()) };
    let (next, _) = step_at(state(), CallbackEvent::UserInfoAnswered(refused), NOW);
    assert_eq!(next, CallbackState::Failed { kind: ErrorKind::RemoteError });
    let unreadable = HttpReply::Answered { status: 200, payload: None };
    let (next, action) = step_at(state(), CallbackEvent::UserInfoAnswered(unreadable), NOW);
    assert_eq!(next, CallbackState::Failed { kind: ErrorKind::RemoteError });
    assert_eq!(
        action,
        CallbackAction::Fail {
            error: AppError::RemoteError("failed to deserialize response as JSON".to_string())
        }
    );
}

#[test]
fn an_event_that_was_not_asked_for_ends_the_flow() {
    let (next, action) = step_at(CallbackState::Init, CallbackEvent::ContextSet, NOW);
    assert_eq!(next, CallbackState::Failed { kind: ErrorKind::InternalServerError });
    assert_eq!(action, unexpected());

    let (next, action) =
        step_at(CallbackState::CsrfValidated, CallbackEvent::SessionExpired(Ok(())), NOW);
    assert_eq!(next, CallbackState::Failed { kind: ErrorKind::InternalServerError });
    assert_eq!(action, unexpected());

    let state = CallbackState::UserResolved { tokens: tokens() };
    let (next, _) = step_at(state, CallbackEvent::UserInserted(Ok(1)), NOW);
    assert_eq!(next, CallbackState::Failed { kind: ErrorKind::InternalServerError });
}

#[test]
fn a_failed_flow_stays_failed() {
    let failed = || CallbackState::Failed { kind: ErrorKind::NotFound };
    let (next, action) = step_at(failed(), started(vec![("SESSION", "S1")]), NOW);
    assert_eq!(next, failed());
    assert_eq!(action, unexpected());
    let (next, _) = step_at(failed(), CallbackEvent::SessionExpired(Ok(())), NOW);
    assert_eq!(next, failed());
}

#[test]
fn a_step_at_the_present_time_decides_by_the_present_time() {
    let state =
        || CallbackState::SessionRequested { session_id: "S1".to_string(), request: request() };

    // A row that expired at a moment long past is not live now.
    let past = Session { csrf_token: "T1".to_string(), expires_at: NOW };
    let (next, _) = step(state(), CallbackEvent::SessionFetched(Ok(Some(past))));
    assert_eq!(next, CallbackState::Failed { kind: ErrorKind::NotFound });

    // A row that expires in the far future is live now, and expires now.
    let future = Session { csrf_token: "T1".to_string(), expires_at: i64::MAX };
    let (next, action) = step(state(), CallbackEvent::SessionFetched(Ok(Some(future))));
    assert_eq!(
        next,
        CallbackState::ExpiryRequested { stored_csrf_token: "T1".to_string(), request: request() }
    );
    match action {
        CallbackAction::ExpireSession { session_id, at } => {
            assert_eq!(session_id, "S1");
            assert!(at > NOW);
        },
        other => panic!("the flow asked for {:?}", other),
    }
}

#[test]
fn a_redirect_without_code_or_state_is_a_bad_request() {
    let query = |pairs: Vec<(&str, &str)>| -> Vec<(String, String)> {
        pairs.into_iter().map(|(n, v)| (n.to_string(), v.to_string())).collect()
    };
    assert_eq!(
        AuthRequest::from_query(&query(vec![("state", "T1"), ("code", "the-code"), ("scope", "x")])),
        Ok(request())
    );
    assert_eq!(
        AuthRequest::from_query(&query(vec![("state", "T1")])),
        Err(AppError::BadRequest("the callback has no parameter code".to_string()))
    );
    assert_eq!(
        AuthRequest::from_query(&query(vec![("code", "the-code")])),
        Err(AppError::BadRequest("the callback has no parameter state".to_string()))
    );
    let error = AuthRequest::from_query(&query(vec![("error", "access_denied")])).unwrap_err();
    assert_eq!(error.kind(), ErrorKind::BadRequest);
    assert_eq!(error.status_code(), 400);
    assert_eq!(error, AppError::BadRequest("the callback has no parameter code".to_string()));
    // Where a name occurs twice, its first value counts.
    let twice = AuthRequest::from_query(&query(vec![("code", "a"), ("code", "b"), ("state", "s")]));
    assert_eq!(twice.unwrap().code, "a");
}
