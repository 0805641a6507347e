use lift_auth::config::oauth_client::get_oauth_client;
use lift_auth::config::parameter::{get, init};
use lift_auth::error::app_error::{AppError, ErrorKind};

fn pair(name: &str, value: &str) -> (String, String) {
    (name.to_string(), value.to_string())
}

fn client_parameters() -> Vec<(String, String)> {
    vec![
        pair("GOOGLE_CLIENT_ID", "test-client-id"),
        pair("GOOGLE_CLIENT_SECRET", "test-client-secret"),
        pair("GOOGLE_REDIRECT_URI", "https://lift.test/auth/callback"),
        pair("GOOGLE_AUTH_URI", "https://test.auth.url"),
        pair("GOOGLE_TOKEN_URI", "https://test.token.url"),
        pair("GOOGLE_REVOCATION_URI", "https://test.revocation.url"),
        pair("GOOGLE_EMAIL_SCOPE", "email"),
        pair("GOOGLE_PROFILE_SCOPE", "profile"),
    ]
}

fn without(name: &str) -> Vec<(String, String)> {
    client_parameters().into_iter().filter(|(key, _)| key != name).collect()
}

fn with_value(name: &str, value: &str) -> Vec<(String, String)> {
    client_parameters()
        .into_iter()
        .map(|(key, old)| if key == name { (key, value.to_string()) } else { (key, old) })
        .collect()
}

#[test]
fn test_get_existing_parameter() {
    let parameters = init(vec![pair("TEST_PARAM", "test_value")]);
    let result = get(&parameters, "TEST_PARAM");

    assert!(result.is_ok());
    assert_eq!(result.unwrap(), "test_value");
}

#[test]
fn test_get_missing_parameter() {
    let parameters = init(vec![]);
    let result = get(&parameters, "MISSING_PARAM");

    assert!(result.is_err());
    assert!(result.unwrap_err().to_string().contains("MISSING_PARAM is not defined"));
}

#[test]
fn a_missing_parameter_is_a_configuration_error_that_names_it() {
    let parameters = init(vec![pair("OTHER", "x")]);
    assert_eq!(
        get(&parameters, "MISSING_PARAM"),
        Err(AppError::ConfigurationError(
            "MISSING_PARAM is not defined in the environment.".to_string()
        ))
    );
}

#[test]
fn the_first_value_of_a_name_counts() {
    let parameters = init(vec![pair("A", "1"), pair("B", "2"), pair("A", "3")]);
    assert_eq!(get(&parameters, "A"), Ok("1".to_string()));
    assert_eq!(get(&parameters, "B"), Ok("2".to_string()));
}

#[test]
fn the_client_is_built_from_eight_parameters() {
    let client = get_oauth_client(&init(client_parameters()));
    assert!(client.is_ok());
}

#[test]
fn each_missing_client_parameter_is_named() {
    for name in [
        "GOOGLE_CLIENT_ID",
        "GOOGLE_CLIENT_SECRET",
        "GOOGLE_REDIRECT_URI",
        "GOOGLE_AUTH_URI",
        "GOOGLE_TOKEN_URI",
        "GOOGLE_REVOCATION_URI",
        "GOOGLE_EMAIL_SCOPE",
        "GOOGLE_PROFILE_SCOPE",
    ] {
        let error = get_oauth_client(&init(without(name))).err().unwrap();
        assert_eq!(
            error,
            AppError::ConfigurationError(format!("{} is not defined in the environment.", name))
        );
    }
}

#[test]
fn the_first_missing_client_parameter_wins() {
    let parameters = init(vec![pair("GOOGLE_CLIENT_ID", "id")]);
    let error = get_oauth_client(&parameters).err().unwrap();
    assert_eq!(
        error,
        AppError::ConfigurationError(
            "GOOGLE_CLIENT_SECRET is not defined in the environment.".to_string()
        )
    );
}

#[test]
fn each_url_that_does_not_parse_is_refused() {
    let cases = [
        ("GOOGLE_AUTH_URI", "failed to create new authorization server URL"),
        ("GOOGLE_TOKEN_URI", "failed to create new token endpoint URL"),
        ("GOOGLE_REDIRECT_URI", "failed to create new redirection URL"),
        ("GOOGLE_REVOCATION_URI", "failed to create new revocation URL"),
    ];
    for (name, message) in cases {
        let error = get_oauth_client(&init(with_value(name, "not a url"))).err().unwrap();
        assert_eq!(error.kind(), ErrorKind::InternalServerError);
        assert_eq!(error, AppError::InternalServerError(message.to_string()));
    }
}

#[test]
fn a_missing_parameter_is_reported_before_a_bad_url() {
    let mut parameters = with_value("GOOGLE_AUTH_URI", "not a url");
    parameters.retain(|(key, _)| key != "GOOGLE_PROFILE_SCOPE");
    let error = get_oauth_client(&init(parameters)).err().unwrap();
    assert_eq!(error.kind(), ErrorKind::ConfigurationError);
}
