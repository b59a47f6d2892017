use better_ch::error::{ApiError, AuthError, ConfigError, Error, UiError};

#[test]
fn test_error_display_auth() {
    let err = Error::Auth(AuthError::TokenExpired);
    assert_eq!(
        err.message(),
        "authentication error: token expired, please re-authenticate"
    );
}

#[test]
fn test_error_display_api() {
    let err = Error::Api(ApiError::NotFound("app-name".to_string()));
    assert_eq!(err.message(), "API error: application not found: app-name");
}

#[test]
fn test_error_display_config() {
    let err = Error::Config(ConfigError::Missing("client_id".to_string()));
    assert_eq!(
        err.message(),
        "configuration error: missing configuration: client_id"
    );
}

#[test]
fn test_error_debug() {
    let err = Error::Auth(AuthError::TokenExpired);
    let debug_str = format!("{:?}", err);
    assert!(debug_str.contains("Auth"));
    assert!(debug_str.contains("TokenExpired"));
}

#[test]
fn test_auth_error_variants() {
    let err = AuthError::TokenFetch("network error".to_string());
    assert_eq!(err.message(), "failed to obtain access token: network error");

    let err = AuthError::InvalidCredentials;
    assert_eq!(err.message(), "invalid credentials");

    let err = AuthError::TokenStorage("keyring error".to_string());
    assert_eq!(err.message(), "failed to store token: keyring error");

    let err = AuthError::TokenExpired;
    assert_eq!(err.message(), "token expired, please re-authenticate");

    let err = AuthError::MissingCredentials("client_id".to_string());
    assert_eq!(err.message(), "missing credentials: client_id");
}

#[test]
fn test_api_error_variants() {
    let err = ApiError::Request("timeout".to_string());
    assert_eq!(err.message(), "HTTP request failed: timeout");

    let err = ApiError::InvalidResponse("invalid JSON".to_string());
    assert_eq!(err.message(), "invalid response: invalid JSON");

    let err = ApiError::NotFound("my-app".to_string());
    assert_eq!(err.message(), "application not found: my-app");

    let err = ApiError::ServerError {
        status: 500,
        message: "Internal error".to_string(),
    };
    assert_eq!(err.message(), "server error (500): Internal error");
}

#[test]
fn test_config_error_variants() {
    let err = ConfigError::Missing("api_key".to_string());
    assert_eq!(err.message(), "missing configuration: api_key");

    let err = ConfigError::Invalid("invalid value".to_string());
    assert_eq!(err.message(), "invalid configuration: invalid value");

    let err = ConfigError::File("read error".to_string());
    assert_eq!(err.message(), "config file error: read error");
}

#[test]
fn test_ui_error_variants() {
    let err = UiError::TerminalInit("no terminal".to_string());
    assert_eq!(err.message(), "failed to initialize terminal: no terminal");

    let err = UiError::Render("draw error".to_string());
    assert_eq!(err.message(), "render error: draw error");

    let err = UiError::InvalidInput("empty input".to_string());
    assert_eq!(err.message(), "invalid input: empty input");
}

#[test]
fn error_messages_of_other_categories() {
    let err = Error::Ui(UiError::Render("x".to_string()));
    assert_eq!(err.message(), "UI error: render error: x");
    let err = Error::Io("disk full".to_string());
    assert_eq!(err.message(), "I/O error: disk full");
    let err = Error::Api(ApiError::Json("bad".to_string()));
    assert_eq!(err.message(), "API error: JSON error: bad");
    let err = ApiError::ServerError {
        status: 0,
        message: String::new(),
    };
    assert_eq!(err.message(), "server error (0): ");
}
