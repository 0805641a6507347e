use lift_auth::config::oauth_client::get_oauth_client;
use lift_auth::config::parameter::init;
use lift_auth::state::app_state::{AppState, UserContext};
use std::sync::Arc;

fn pair(name: &str, value: &str) -> (String, String) {
    (name.to_string(), value.to_string())
}

fn setup() -> AppState {
    let parameters = || {
        init(vec![
            pair("GOOGLE_CLIENT_ID", "test-client-id"),
            pair("GOOGLE_CLIENT_SECRET", "test-client-secret"),
            pair("GOOGLE_REDIRECT_URI", "https://lift.test/auth/callback"),
            pair("GOOGLE_AUTH_URI", "https://test.auth.url"),
            pair("GOOGLE_TOKEN_URI", "https://test.token.url"),
            pair("GOOGLE_REVOCATION_URI", "https://test.revocation.url"),
            pair("GOOGLE_EMAIL_SCOPE", "email"),
            pair("GOOGLE_PROFILE_SCOPE", "profile"),
        ])
    };
    AppState::new(get_oauth_client(&parameters()).unwrap(), parameters()).unwrap()
}

#[test]
fn test_user_context_operations() {
    let mut app_state = setup();
    let test_user =
        UserContext { user_id: 1, email: "test@lift.com".to_string(), name: "John".to_string() };

    assert!(app_state.get_user_id().is_none());

    app_state.set_user_context(test_user);
    assert_eq!(app_state.get_user_id(), Some(1));

    app_state.clear_user_context();
    assert!(app_state.get_user_id().is_none());
}

#[test]
fn test_concurrent_access() {
    let runtime =
        tokio::runtime::Builder::new_multi_thread().worker_threads(2).enable_all().build().unwrap();
    runtime.block_on(async {
        let app_state = Arc::new(tokio::sync::RwLock::new(setup()));
        let app_state_clone = app_state.clone();
        let app_state_clone2 = app_state.clone();
        let test_user =
            UserContext { user_id: 1, email: "test@lift.com".to_string(), name: "John".to_string() };

        let handle1 = tokio::spawn(async move {
            app_state.write().await.set_user_context(test_user);
        });

        let handle2 = tokio::spawn(async move {
            app_state_clone.write().await.clear_user_context();
        });

        handle1.await.unwrap();
        handle2.await.unwrap();

        let final_state = app_state_clone2.read().await.get_user_id();

        assert!(final_state.is_none() || final_state == Some(1));
    });
}

#[test]
fn many_concurrent_writes_leave_a_whole_context() {
    let runtime =
        tokio::runtime::Builder::new_multi_thread().worker_threads(4).enable_all().build().unwrap();
    runtime.block_on(async {
        let app_state = Arc::new(tokio::sync::RwLock::new(setup()));
        let mut handles = Vec::new();
        for round in 0..50u64 {
            let writer = app_state.clone();
            handles.push(tokio::spawn(async move {
                if round % 2 == 0 {
                    writer.write().await.set_user_context(UserContext {
                        user_id: round,
                        email: format!("user{}@lift.com", round),
                        name: format!("User {}", round),
                    });
                } else {
                    writer.write().await.clear_user_context();
                }
            }));
        }
        for handle in handles {
            handle.await.unwrap();
        }
        let state = app_state.read().await;
        match &state.user_context {
            None => assert_eq!(state.get_user_id(), None),
            Some(user) => {
                assert_eq!(user.user_id % 2, 0);
                assert_eq!(user.email, format!("user{}@lift.com", user.user_id));
                assert_eq!(user.name, format!("User {}", user.user_id));
            },
        }
    });
}

#[test]
fn a_login_after_a_logout_wins_and_the_other_way_round() {
    let user =
        || UserContext { user_id: 9, email: "nine@lift.com".to_string(), name: "Nine".to_string() };
    let mut app_state = setup();
    app_state.set_user_context(user());
    app_state.clear_user_context();
    assert_eq!(app_state.user_context, None);

    let mut app_state = setup();
    app_state.clear_user_context();
    app_state.set_user_context(user());
    assert_eq!(app_state.user_context, Some(user()));
}

#[test]
fn a_new_state_is_empty() {
    let app_state = setup();
    assert_eq!(app_state.user_context, None);
    assert_eq!(app_state.get_user_id(), None);
    assert_eq!(app_state.session_repository.find_session("any"), None);
}
