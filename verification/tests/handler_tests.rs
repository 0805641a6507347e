use lift_auth::config::oauth_client::get_oauth_client;
use lift_auth::config::parameter::init;
use lift_auth::error::app_error::{AppError, ErrorKind};
use lift_auth::error::token_error::TokenError;
use lift_auth::handler::auth_handler::{
    auth_callback, complete_login, google_auth, google_auth_with, logout, prepare_login,
    token_to_revoke, validate_csrf_token, PendingLogin,
};
use lift_auth::handler::callback_flow::AuthRequest;
use lift_auth::handler::cookie::{set_cookie, AuthResponse};
use lift_auth::handler::pages::{index, protected};
use lift_auth::handler::session_id::{generate_session_id, session_id_of, SESSION_ID_BYTES};
use lift_auth::repository::session_repository::{SessionRepositoryTrait, SESSION_TTL_SECONDS};
use lift_auth::repository::user_repository::UserRepositoryTrait;
use lift_auth::service::google_token_service::{HttpReply, TokenGrant};
use lift_auth::state::app_state::{AppState, UserContext};
use lift_auth::User;

const NOW: i64 = 1_700_000_000;

fn pair(name: &str, value: &str) -> (String, String) {
    (name.to_string(), value.to_string())
}

fn named_parameters() -> Vec<(String, String)> {
    vec![
        pair("GOOGLE_CLIENT_ID", "test-client-id"),
        pair("GOOGLE_CLIENT_SECRET", "test-client-secret"),
        pair("GOOGLE_REDIRECT_URI", "https://lift.test/auth/callback"),
        pair("GOOGLE_AUTH_URI", "https://test.auth.url"),
        pair("GOOGLE_TOKEN_URI", "https://test.token.url"),
        pair("GOOGLE_REVOCATION_URI", "https://test.revocation.url"),
        pair("GOOGLE_EMAIL_SCOPE", "email"),
        pair("GOOGLE_PROFILE_SCOPE", "profile"),
    ]
}

/// A state with one live session, one expired session and two users.
fn setup() -> AppState {
    let oauth_client = get_oauth_client(&init(named_parameters())).unwrap();
    let mut app_state = AppState::new(oauth_client, init(named_parameters())).unwrap();
    app_state
        .session_repository
        .add_csrf_token("test_session_id", "test_csrf_token", NOW - 60)
        .unwrap();
    app_state
        .session_repository
        .add_csrf_token("expired_session_id", "expired_csrf_token", NOW - 2 * SESSION_TTL_SECONDS)
        .unwrap();
    app_state
        .user_service
        .user_repository
        .add_user("110235950686105464135", "TestEmail@lift.com", "Tom", "Gill")
        .unwrap();
    app_state
        .user_service
        .user_repository
        .add_user("220471901372210928270", "other@lift.com", "Ann", "Lee")
        .unwrap();
    app_state
}

fn build_cookies(cookie_name: &str, session_id: &str) -> Vec<(String, String)> {
    vec![pair(cookie_name, session_id)]
}

fn request(code: &str, state: &str) -> AuthRequest {
    AuthRequest { code: code.to_string(), state: state.to_string() }
}

fn grant() -> Option<TokenGrant> {
    Some(TokenGrant {
        access_token: "access-1".to_string(),
        refresh_token: Some("refresh-1".to_string()),
    })
}

fn user_reply(sub: &str) -> HttpReply<User> {
    HttpReply::Answered {
        status: 200,
        payload: Some(User {
            sub: sub.to_string(),
            given_name: "George".to_string(),
            family_name: "Thomas".to_string(),
            email: "gt@lift.com".to_string(),
        }),
    }
}

const ATTRIBUTES: &str = "; SameSite=Lax; HttpOnly; Secure; Path=/";

#[test]
fn test_validate_csrf_token_with_valid_session() {
    let mut app_state = setup();

    let auth_request = request("test_code", "test_csrf_token");

    let cookies = build_cookies("SESSION", "test_session_id");
    let result = validate_csrf_token(&mut app_state, &auth_request, &cookies, NOW);

    let session =
        app_state.session_repository.find_session("test_session_id").expect("Failed to fetch session");

    assert!(result.is_ok());
    assert!(session.expires_at < NOW + 1);
}

#[test]
fn test_validate_csrf_token_expired_session() {
    let mut app_state = setup();

    let auth_request = request("test_code", "expired_session_id");

    let cookies = build_cookies("SESSION", "expired_session_id");
    let response = validate_csrf_token(&mut app_state, &auth_request, &cookies, NOW);

    assert!(response.is_err());
    assert_eq!(response.unwrap_err().kind(), ErrorKind::NotFound);
}

#[test]
fn test_validate_csrf_token_missing_session_cookie() {
    let mut app_state = setup();

    let auth_request = request("test_code", "test_session_id");

    let cookies = build_cookies("NoSessionIdCookie", "123");
    let response = validate_csrf_token(&mut app_state, &auth_request, &cookies, NOW);

    assert!(response.is_err());
    assert_eq!(response.unwrap_err().kind(), ErrorKind::Unauthorized);
}

#[test]
fn test_validate_csrf_token_invalid_csrf_token() {
    let mut app_state = setup();

    let auth_request = request("invalid_code", "test_session_id");

    let cookies = build_cookies("SESSION", "test_session_id");
    let response = validate_csrf_token(&mut app_state, &auth_request, &cookies, NOW);

    assert!(response.is_err());
    assert_eq!(response.unwrap_err().kind(), ErrorKind::GenericTokenError);
}

#[test]
fn a_valid_callback_spends_the_session_and_a_replay_is_not_found() {
    let mut app_state = setup();
    app_state.session_repository.add_csrf_token("S1", "T1", NOW).unwrap();
    let cookies = build_cookies("SESSION", "S1");

    let first = validate_csrf_token(&mut app_state, &request("code", "T1"), &cookies, NOW + 1);
    assert_eq!(first, Ok(()));
    assert_eq!(app_state.session_repository.find_session("S1").unwrap().expires_at, NOW + 1);

    for state in ["T1", "wrong", ""] {
        let replay = validate_csrf_token(&mut app_state, &request("code", state), &cookies, NOW + 1);
        assert_eq!(replay, Err(AppError::NotFound("no live session with this id".to_string())));
    }
    let later = validate_csrf_token(&mut app_state, &request("code", "T1"), &cookies, NOW + 100);
    assert_eq!(later.unwrap_err().kind(), ErrorKind::NotFound);
}

#[test]
fn a_wrong_token_is_a_mismatch_and_spends_the_session_too() {
    let mut app_state = setup();
    app_state.session_repository.add_csrf_token("S2", "T2", NOW).unwrap();
    let cookies = build_cookies("SESSION", "S2");

    let wrong = validate_csrf_token(&mut app_state, &request("code", "wrong"), &cookies, NOW + 1);
    assert_eq!(
        wrong,
        Err(AppError::TokenError(TokenError::GenericTokenError("CSRF token mismatch".to_string())))
    );
    assert_eq!(app_state.session_repository.find_session("S2").unwrap().expires_at, NOW + 1);

    let right = validate_csrf_token(&mut app_state, &request("code", "T2"), &cookies, NOW + 1);
    assert_eq!(right.unwrap_err().kind(), ErrorKind::NotFound);
}

#[test]
fn a_mismatch_and_a_missing_session_are_different_kinds() {
    let mut app_state = setup();
    let mismatch = validate_csrf_token(
        &mut app_state,
        &request("code", "wrong"),
        &build_cookies("SESSION", "test_session_id"),
        NOW,
    )
    .unwrap_err();
    let missing = validate_csrf_token(
        &mut app_state,
        &request("code", "wrong"),
        &build_cookies("SESSION", "non_existent_session_id"),
        NOW,
    )
    .unwrap_err();
    assert_ne!(mismatch.kind(), missing.kind());
    assert_ne!(mismatch.status_code(), missing.status_code());
    assert_eq!(mismatch.status_code(), 401);
    assert_eq!(missing.status_code(), 404);
}

#[test]
fn a_callback_is_valid_until_the_hour_is_over() {
    let cookies = build_cookies("SESSION", "S");
    let mut app_state = setup();
    app_state.session_repository.add_csrf_token("S", "T", NOW).unwrap();
    assert!(validate_csrf_token(&mut app_state, &request("c", "T"), &cookies, NOW + 3599).is_ok());

    let mut app_state = setup();
    app_state.session_repository.add_csrf_token("S", "T", NOW).unwrap();
    let at_the_hour = validate_csrf_token(&mut app_state, &request("c", "T"), &cookies, NOW + 3600);
    assert_eq!(at_the_hour.unwrap_err().kind(), ErrorKind::NotFound);
    // A session that was not live is left as it is.
    assert_eq!(app_state.session_repository.find_session("S").unwrap().expires_at, NOW + 3600);
}

#[test]
fn the_first_session_cookie_counts() {
    let mut app_state = setup();
    let cookies = vec![
        pair("theme", "dark"),
        pair("SESSION", "test_session_id"),
        pair("SESSION", "expired_session_id"),
    ];
    let result = validate_csrf_token(&mut app_state, &request("c", "test_csrf_token"), &cookies, NOW);
    assert_eq!(result, Ok(()));
}

#[test]
fn a_callback_of_a_new_user_adds_them_and_logs_them_in() {
    let mut app_state = setup();
    let response = auth_callback(
        &mut app_state,
        request("test_code", "test_csrf_token"),
        build_cookies("SESSION", "test_session_id"),
        grant(),
        user_reply("897239842378324289342"),
        NOW,
    );
    assert_eq!(
        response,
        Ok(AuthResponse {
            cookies: vec![
                format!("access_token=access-1{}", ATTRIBUTES),
                format!("refresh_token=refresh-1{}", ATTRIBUTES),
            ],
            redirect: "/".to_string(),
        })
    );
    let expected =
        UserContext { user_id: 3, email: "gt@lift.com".to_string(), name: "George".to_string() };
    assert_eq!(app_state.user_context, Some(expected.clone()));
    assert_eq!(app_state.get_user_id(), Some(3));
    assert_eq!(
        app_state.user_service.user_repository.find_user_by_google_id("897239842378324289342"),
        Ok(Some(expected))
    );
    assert_eq!(app_state.session_repository.find_session("test_session_id").unwrap().expires_at, NOW);
}

#[test]
fn a_callback_of_a_known_user_logs_them_in_as_stored() {
    let mut app_state = setup();
    let response = auth_callback(
        &mut app_state,
        request("test_code", "test_csrf_token"),
        build_cookies("SESSION", "test_session_id"),
        grant(),
        user_reply("110235950686105464135"),
        NOW,
    );
    assert!(response.is_ok());
    assert_eq!(
        app_state.user_context,
        Some(UserContext {
            user_id: 1,
            email: "TestEmail@lift.com".to_string(),
            name: "Tom".to_string()
        })
    );
    // No row was added: the next new user gets the id 3.
    assert_eq!(app_state.user_service.user_repository.add_user("x", "x@lift.com", "X", "Y"), Ok(3));
}

#[test]
fn a_callback_fails_at_the_first_thing_that_goes_wrong() {
    // No session cookie: nothing is touched.
    let mut app_state = setup();
    let response = auth_callback(
        &mut app_state,
        request("c", "test_csrf_token"),
        vec![],
        grant(),
        user_reply("new"),
        NOW,
    );
    assert_eq!(response, Err(AppError::Unauthorized));
    assert!(app_state.session_repository.get_csrf_token_by_session_id("test_session_id", NOW).is_ok());

    // Wrong token: the session is spent, nobody is logged in.
    let mut app_state = setup();
    let response = auth_callback(
        &mut app_state,
        request("c", "wrong"),
        build_cookies("SESSION", "test_session_id"),
        grant(),
        user_reply("new"),
        NOW,
    );
    assert_eq!(response.unwrap_err().kind(), ErrorKind::GenericTokenError);
    assert!(app_state.session_repository.get_csrf_token_by_session_id("test_session_id", NOW).is_err());
    assert_eq!(app_state.user_context, None);

    // The exchange fails.
    let mut app_state = setup();
    let response = auth_callback(
        &mut app_state,
        request("c", "test_csrf_token"),
        build_cookies("SESSION", "test_session_id"),
        None,
        user_reply("new"),
        NOW,
    );
    assert_eq!(response.unwrap_err().kind(), ErrorKind::ExchangeError);
    assert_eq!(app_state.user_context, None);

    // The grant lacks the refresh token.
    let mut app_state = setup();
    let response = auth_callback(
        &mut app_state,
        request("c", "test_csrf_token"),
        build_cookies("SESSION", "test_session_id"),
        Some(TokenGrant { access_token: "a".to_string(), refresh_token: None }),
        user_reply("new"),
        NOW,
    );
    assert_eq!(response, Err(AppError::ExchangeError("Missing refresh token".to_string())));

    // The user's data cannot be had.
    let mut app_state = setup();
    let response = auth_callback(
        &mut app_state,
        request("c", "test_csrf_token"),
        build_cookies("SESSION", "test_session_id"),
        grant(),
        HttpReply::Answered { status: 403, payload: None },
        NOW,
    );
    assert_eq!(response.unwrap_err().kind(), ErrorKind::RemoteError);
    assert_eq!(app_state.user_context, None);
    assert_eq!(app_state.user_service.user_repository.add_user("x", "x@lift.com", "X", "Y"), Ok(3));
}

#[test]
fn tokens_that_no_header_can_carry_fail_after_the_login() {
    let mut app_state = setup();
    let response = auth_callback(
        &mut app_state,
        request("c", "test_csrf_token"),
        build_cookies("SESSION", "test_session_id"),
        Some(TokenGrant {
            access_token: "line\nbreak".to_string(),
            refresh_token: Some("refresh".to_string()),
        }),
        user_reply("110235950686105464135"),
        NOW,
    );
    assert_eq!(
        response,
        Err(AppError::InternalServerError("Failed to parse header value".to_string()))
    );
    assert_eq!(app_state.get_user_id(), Some(1));
}

#[test]
fn a_login_stores_a_session_and_redirects_to_the_provider() {
    let mut app_state = setup();
    let response = google_auth(&mut app_state).unwrap();
    assert_eq!(response.cookies.len(), 1);
    let cookie = &response.cookies[0];
    assert!(cookie.starts_with("SESSION="));
    assert!(cookie.ends_with(ATTRIBUTES));
    let session_id = &cookie["SESSION=".len()..cookie.len() - ATTRIBUTES.len()];
    assert_eq!(session_id.len(), 88);
    let session = app_state.session_repository.find_session(session_id).unwrap();
    assert_eq!(session.csrf_token.len(), 22);
    assert!(response.redirect.starts_with("https://test.auth.url/?response_type=code"));
    assert!(response.redirect.contains(&format!("state={}", session.csrf_token)));
    assert!(session.expires_at > NOW);
    assert_eq!(app_state.user_context, None);
}

#[test]
fn a_process_without_its_scopes_does_not_start() {
    let mut parameters = named_parameters();
    parameters.retain(|(name, _)| name != "GOOGLE_EMAIL_SCOPE");
    assert_eq!(
        get_oauth_client(&init(parameters)).err(),
        Some(AppError::ConfigurationError(
            "GOOGLE_EMAIL_SCOPE is not defined in the environment.".to_string()
        ))
    );
}

#[test]
fn a_prepared_login_is_stored_as_it_was_prepared() {
    let mut app_state = setup();
    let pending = PendingLogin {
        session_id: "sid".to_string(),
        csrf_token: "csrf".to_string(),
        created_at: NOW,
        auth_url: "https://test.auth.url/?state=csrf".to_string(),
    };
    assert_eq!(pending.expires_at(), NOW + 3600);
    let response = google_auth_with(&mut app_state, pending);
    assert_eq!(
        response,
        Ok(AuthResponse {
            cookies: vec![format!("SESSION=sid{}", ATTRIBUTES)],
            redirect: "https://test.auth.url/?state=csrf".to_string(),
        })
    );
    assert_eq!(
        app_state.session_repository.get_csrf_token_by_session_id("sid", NOW + 3599),
        Ok("csrf".to_string())
    );

    // The same session id again is refused by the table.
    let again = PendingLogin {
        session_id: "sid".to_string(),
        csrf_token: "other".to_string(),
        created_at: NOW,
        auth_url: "https://test.auth.url/".to_string(),
    };
    assert_eq!(google_auth_with(&mut app_state, again).unwrap_err().kind(), ErrorKind::DatabaseError);
}

#[test]
fn a_login_whose_session_could_not_be_stored_fails_with_that_error() {
    let pending = || PendingLogin {
        session_id: "sid".to_string(),
        csrf_token: "csrf".to_string(),
        created_at: NOW,
        auth_url: "https://test.auth.url/".to_string(),
    };
    let error = AppError::DatabaseError("the table is away".to_string());
    assert_eq!(
        complete_login(pending(), Err(AppError::DatabaseError("the table is away".to_string()))),
        Err(error)
    );
    assert!(complete_login(pending(), Ok(())).is_ok());
    let unfit = PendingLogin { session_id: "a\u{7f}b".to_string(), ..pending() };
    assert_eq!(
        complete_login(unfit, Ok(())),
        Err(AppError::InternalServerError("Failed to parse header value".to_string()))
    );
}

#[test]
fn a_login_is_prepared_with_fresh_values_at_the_present_time() {
    let app_state = setup();
    let first = prepare_login(&app_state.google_token_service);
    let second = prepare_login(&app_state.google_token_service);
    assert_ne!(first.session_id, second.session_id);
    assert_ne!(first.csrf_token, second.csrf_token);
    assert!(first.created_at > NOW);
    assert!(first.created_at <= second.created_at);
    assert!(first.auth_url.contains(&first.csrf_token));
}

#[test]
fn a_session_id_is_sixty_four_random_bytes_in_base64() {
    assert_eq!(SESSION_ID_BYTES, 64);
    let first = generate_session_id();
    let second = generate_session_id();
    assert_eq!(first.len(), 88);
    assert!(first.ends_with("=="));
    assert!(first.chars().all(|c| c.is_ascii_alphanumeric() || c == '+' || c == '/' || c == '='));
    assert_ne!(first, second);
    assert_ne!(first, "A".repeat(86) + "==");
}

#[test]
fn a_key_has_its_base64_text_as_session_id() {
    assert_eq!(session_id_of(&vec![0u8, 0, 0]), "AAAA");
    assert_eq!(session_id_of(&b"hello world".to_vec()), "aGVsbG8gd29ybGQ=");
    assert_eq!(session_id_of(&vec![]), "");
}

#[test]
fn a_cookie_has_the_four_attributes() {
    assert_eq!(
        set_cookie("SESSION", "abc"),
        Ok("SESSION=abc; SameSite=Lax; HttpOnly; Secure; Path=/".to_string())
    );
    assert_eq!(
        set_cookie("access_token", ""),
        Ok("access_token=; SameSite=Lax; HttpOnly; Secure; Path=/".to_string())
    );
    assert_eq!(set_cookie("t", "tab\tis fine"), Ok(format!("t=tab\tis fine{}", ATTRIBUTES)));
    assert_eq!(set_cookie("t", "caf\u{e9}"), Ok(format!("t=caf\u{e9}{}", ATTRIBUTES)));
    for unfit in ["a\nb", "a\rb", "a\u{0}b", "a\u{7f}b", "a\u{1f}b"] {
        assert_eq!(
            set_cookie("t", unfit),
            Err(AppError::InternalServerError("Failed to parse header value".to_string()))
        );
    }
    assert_eq!(set_cookie("bad\nname", "v").unwrap_err().kind(), ErrorKind::InternalServerError);
}

#[test]
fn a_logout_clears_the_context_and_empties_the_cookies() {
    let mut app_state = setup();
    app_state.set_user_context(UserContext {
        user_id: 1,
        email: "test@lift.com".to_string(),
        name: "John".to_string(),
    });
    let cookies = vec![pair("access_token", "a"), pair("refresh_token", "r")];
    assert_eq!(token_to_revoke(&cookies), Some("r".to_string()));
    let response = logout(&mut app_state, &cookies, true);
    assert_eq!(
        response,
        Ok(AuthResponse {
            cookies: vec![
                format!("access_token={}", ATTRIBUTES),
                format!("refresh_token={}", ATTRIBUTES),
            ],
            redirect: "/".to_string(),
        })
    );
    assert_eq!(app_state.get_user_id(), None);
}

#[test]
fn a_logout_whose_revocation_failed_leaves_the_user_logged_in() {
    let mut app_state = setup();
    app_state.set_user_context(UserContext {
        user_id: 1,
        email: "test@lift.com".to_string(),
        name: "John".to_string(),
    });
    let cookies = vec![pair("refresh_token", "r")];
    let response = logout(&mut app_state, &cookies, false);
    assert_eq!(response, Err(AppError::TokenError(TokenError::InvalidToken)));
    assert_eq!(app_state.get_user_id(), Some(1));
}

#[test]
fn a_logout_without_refresh_token_revokes_nothing() {
    let mut app_state = setup();
    app_state.set_user_context(UserContext {
        user_id: 2,
        email: "other@lift.com".to_string(),
        name: "Ann".to_string(),
    });
    let cookies = vec![pair("access_token", "a")];
    assert_eq!(token_to_revoke(&cookies), None);
    assert!(logout(&mut app_state, &cookies, false).is_ok());
    assert_eq!(app_state.get_user_id(), None);
    // Logging out twice is fine.
    assert!(logout(&mut app_state, &cookies, false).is_ok());
    assert_eq!(app_state.get_user_id(), None);
}

#[test]
fn the_pages_say_who_is_logged_in() {
    let mut app_state = setup();
    assert_eq!(index(&app_state), "You're not logged in.\nVisit `/auth/google` to do so.");
    assert_eq!(
        protected(&app_state),
        Err(AppError::InternalServerError("You're not logged in.".to_string()))
    );
    app_state.set_user_context(UserContext {
        user_id: 1,
        email: "test@lift.com".to_string(),
        name: "John".to_string(),
    });
    assert_eq!(
        index(&app_state),
        "Hey John! You're logged in!\nYou may now access `/protected`.\nLog out with `/logout`."
    );
    assert_eq!(protected(&app_state), Ok("Welcome to the protected area, John!".to_string()));
}
