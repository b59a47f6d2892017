//! Error types of the runtime manager, and the messages they display.
use vstd::prelude::*;

use crate::text::{decimal, decimal_string, prefixed};

verus! {

/// Main error type: authentication, API, configuration, UI and I/O failures.
#[derive(Debug)]
pub enum Error {
    /// Authentication-related errors.
    Auth(AuthError),
    /// API-related errors.
    Api(ApiError),
    /// Configuration-related errors.
    Config(ConfigError),
    /// UI-related errors.
    Ui(UiError),
    /// I/O errors, held by their description.
    Io(String),
}

/// Authentication errors.
#[derive(Debug)]
pub enum AuthError {
    /// Failed to obtain access token.
    TokenFetch(String),
    /// Invalid credentials.
    InvalidCredentials,
    /// Token storage error.
    TokenStorage(String),
    /// Token expired.
    TokenExpired,
    /// Missing credentials.
    MissingCredentials(String),
}

/// API-related errors.
#[derive(Debug)]
pub enum ApiError {
    /// HTTP request failed.
    Request(String),
    /// Invalid response from server.
    InvalidResponse(String),
    /// Application not found.
    NotFound(String),
    /// Server returned an error.
    ServerError { status: u16, message: String },
    /// JSON serialization or deserialization error, held by its description.
    Json(String),
}

/// Configuration errors.
#[derive(Debug)]
pub enum ConfigError {
    /// Missing required configuration.
    Missing(String),
    /// Invalid configuration value.
    Invalid(String),
    /// Failed to read or write the config file.
    File(String),
}

/// UI-related errors.
#[derive(Debug)]
pub enum UiError {
    /// Terminal initialization failed.
    TerminalInit(String),
    /// Render error.
    Render(String),
    /// Invalid input.
    InvalidInput(String),
}

impl AuthError {
    /// The text this error displays.
    pub open spec fn text(&self) -> Seq<char> {
        match self {
            AuthError::TokenFetch(m) => "failed to obtain access token: "@ + m@,
            AuthError::InvalidCredentials => "invalid credentials"@,
            AuthError::TokenStorage(m) => "failed to store token: "@ + m@,
            AuthError::TokenExpired => "token expired, please re-authenticate"@,
            AuthError::MissingCredentials(m) => "missing credentials: "@ + m@,
        }
    }

    /// The message of this error, as it is displayed.
    pub fn message(&self) -> (r: String)
        ensures
            r@ == self.text(),
    {
        match self {
            AuthError::TokenFetch(m) => prefixed("failed to obtain access token: ", m.as_str()),
            AuthError::InvalidCredentials => String::from_str("invalid credentials"),
            AuthError::TokenStorage(m) => prefixed("failed to store token: ", m.as_str()),
            AuthError::TokenExpired => String::from_str("token expired, please re-authenticate"),
            AuthError::MissingCredentials(m) => prefixed("missing credentials: ", m.as_str()),
        }
    }
}

impl ApiError {
    /// The text this error displays.
    pub open spec fn text(&self) -> Seq<char> {
        match self {
            ApiError::Request(m) => "HTTP request failed: "@ + m@,
            ApiError::InvalidResponse(m) => "invalid response: "@ + m@,
            ApiError::NotFound(m) => "application not found: "@ + m@,
            ApiError::ServerError { status, message } => "server error ("@ + decimal(
                *status as nat,
            ) + "): "@ + message@,
            ApiError::Json(m) => "JSON error: "@ + m@,
        }
    }

    /// The message of this error, as it is displayed.
    pub fn message(&self) -> (r: String)
        ensures
            r@ == self.text(),
    {
        match self {
            ApiError::Request(m) => prefixed("HTTP request failed: ", m.as_str()),
            ApiError::InvalidResponse(m) => prefixed("invalid response: ", m.as_str()),
            ApiError::NotFound(m) => prefixed("application not found: ", m.as_str()),
            ApiError::ServerError { status, message } => {
                let digits = decimal_string(*status as u64);
                let mut r = prefixed("server error (", digits.as_str());
                r.append("): ");
                r.append(message.as_str());
                r
            },
            ApiError::Json(m) => prefixed("JSON error: ", m.as_str()),
        }
    }
}

impl ConfigError {
    /// The text this error displays.
    pub open spec fn text(&self) -> Seq<char> {
        match self {
            ConfigError::Missing(m) => "missing configuration: "@ + m@,
            ConfigError::Invalid(m) => "invalid configuration: "@ + m@,
            ConfigError::File(m) => "config file error: "@ + m@,
        }
    }

    /// The message of this error, as it is displayed.
    pub fn message(&self) -> (r: String)
        ensures
            r@ == self.text(),
    {
        match self {
            ConfigError::Missing(m) => prefixed("missing configuration: ", m.as_str()),
            ConfigError::Invalid(m) => prefixed("invalid configuration: ", m.as_str()),
            ConfigError::File(m) => prefixed("config file error: ", m.as_str()),
        }
    }
}

impl UiError {
    /// The text this error displays.
    pub open spec fn text(&self) -> Seq<char> {
        match self {
            UiError::TerminalInit(m) => "failed to initialize terminal: "@ + m@,
            UiError::Render(m) => "render error: "@ + m@,
            UiError::InvalidInput(m) => "invalid input: "@ + m@,
        }
    }

    /// The message of this error, as it is displayed.
    pub fn message(&self) -> (r: String)
        ensures
            r@ == self.text(),
    {
        match self {
            UiError::TerminalInit(m) => prefixed("failed to initialize terminal: ", m.as_str()),
            UiError::Render(m) => prefixed("render error: ", m.as_str()),
            UiError::InvalidInput(m) => prefixed("invalid input: ", m.as_str()),
        }
    }
}

impl Error {
    /// The text this error displays: its category followed by the inner message.
    pub open spec fn text(&self) -> Seq<char> {
        match self {
            Error::Auth(e) => "authentication error: "@ + e.text(),
            Error::Api(e) => "API error: "@ + e.text(),
            Error::Config(e) => "configuration error: "@ + e.text(),
            Error::Ui(e) => "UI error: "@ + e.text(),
            Error::Io(m) => "I/O error: "@ + m@,
        }
    }

    /// The message of this error, as it is displayed.
    pub fn message(&self) -> (r: String)
        ensures
            r@ == self.text(),
    {
        match self {
            Error::Auth(e) => {
                let inner = e.message();
                prefixed("authentication error: ", inner.as_str())
            },
            Error::Api(e) => {
                let inner = e.message();
                prefixed("API error: ", inner.as_str())
            },
            Error::Config(e) => {
                let inner = e.message();
                prefixed("configuration error: ", inner.as_str())
            },
            Error::Ui(e) => {
                let inner = e.message();
                prefixed("UI error: ", inner.as_str())
            },
            Error::Io(m) => prefixed("I/O error: ", m.as_str()),
        }
    }
}

} // verus!
