//! HTTP client for the CloudHub API: which request each call sends, with what
//! credentials, and how the status of the answer is read.
use vstd::prelude::*;

use crate::auth::oauth::{now_micros, latest_instant, Token};
use crate::error::{ApiError, AuthError, Error};
use crate::text::{decimal, decimal_string, prefixed};

verus! {

broadcast use vstd::string::group_string_axioms;

/// The HTTP client of `reqwest`, carried opaquely.
#[verifier::external_type_specification]
#[verifier::external_body]
pub struct ExHttpClient(reqwest::Client);

/// Default HTTP request timeout in seconds.
pub const HTTP_REQUEST_TIMEOUT_SECS: u64 = 30;

/// `reqwest::Client::builder().timeout(..).build()`: an HTTP client whose
/// requests time out after `timeout_secs` seconds, or the description of why
/// it could not be built (e.g. TLS initialization failure). Whether it
/// succeeds depends on the machine, so nothing is claimed of the result.
#[verifier::external_body]
fn build_http_client(timeout_secs: u64) -> (built: Result<reqwest::Client, String>) {
    reqwest::Client::builder()
        .timeout(std::time::Duration::from_secs(timeout_secs))
        .build()
        .map_err(|e| e.to_string())
}

/// HTTP methods that the API uses.
#[derive(Debug, Clone, Copy, PartialEq, Eq)]
pub enum HttpMethod {
    /// GET
    Get,
    /// POST
    Post,
    /// PUT
    Put,
    /// DELETE
    Delete,
}

/// The calls of the CloudHub API.
#[derive(Debug, Clone)]
pub enum Endpoint {
    /// List all deployed applications.
    ListApplications,
    /// Retrieve a single application by name.
    GetApplication(String),
    /// Deploy a new application.
    CreateApplication,
    /// Update an existing application's configuration.
    UpdateApplication(String),
    /// Undeploy and permanently delete an application.
    DeleteApplication(String),
    /// Start a stopped application.
    StartApplication(String),
    /// Stop a running application.
    StopApplication(String),
    /// Restart a running application.
    RestartApplication(String),
    /// Retrieve runtime statistics for an application.
    ApplicationStats(String),
    /// Retrieve log entries for an application, at most `limit` of them when given.
    ApplicationLogs(String, Option<u32>),
    /// List all deployments for an application.
    Deployments(String),
    /// List all running instances of an application.
    Instances(String),
    /// List all configured alerts.
    Alerts,
}

/// The path of an application.
pub open spec fn application_path(name: Seq<char>) -> Seq<char> {
    "/applications/"@ + name
}

impl Endpoint {
    /// The path of the call, relative to the base URL.
    pub open spec fn path_of(&self) -> Seq<char> {
        match self {
            Endpoint::ListApplications => "/applications"@,
            Endpoint::GetApplication(n) => application_path(n@),
            Endpoint::CreateApplication => "/applications"@,
            Endpoint::UpdateApplication(n) => application_path(n@),
            Endpoint::DeleteApplication(n) => application_path(n@),
            Endpoint::StartApplication(n) => application_path(n@) + "/start"@,
            Endpoint::StopApplication(n) => application_path(n@) + "/stop"@,
            Endpoint::RestartApplication(n) => application_path(n@) + "/restart"@,
            Endpoint::ApplicationStats(n) => application_path(n@) + "/statistics"@,
            Endpoint::ApplicationLogs(n, limit) => match limit {
                Some(k) => application_path(n@) + "/logs?limit="@ + decimal(*k as nat),
                None => application_path(n@) + "/logs"@,
            },
            Endpoint::Deployments(n) => application_path(n@) + "/deployments"@,
            Endpoint::Instances(n) => application_path(n@) + "/instances"@,
            Endpoint::Alerts => "/alerts"@,
        }
    }

    /// The method of the call.
    pub open spec fn method_of(&self) -> HttpMethod {
        match self {
            Endpoint::CreateApplication => HttpMethod::Post,
            Endpoint::StartApplication(_) => HttpMethod::Post,
            Endpoint::StopApplication(_) => HttpMethod::Post,
            Endpoint::RestartApplication(_) => HttpMethod::Post,
            Endpoint::UpdateApplication(_) => HttpMethod::Put,
            Endpoint::DeleteApplication(_) => HttpMethod::Delete,
            _ => HttpMethod::Get,
        }
    }

    /// The application the call concerns, if it concerns one.
    pub open spec fn application_of(&self) -> Option<Seq<char>> {
        match self {
            Endpoint::GetApplication(n) => Some(n@),
            Endpoint::UpdateApplication(n) => Some(n@),
            Endpoint::DeleteApplication(n) => Some(n@),
            Endpoint::StartApplication(n) => Some(n@),
            Endpoint::StopApplication(n) => Some(n@),
            Endpoint::RestartApplication(n) => Some(n@),
            Endpoint::ApplicationStats(n) => Some(n@),
            Endpoint::ApplicationLogs(n, _) => Some(n@),
            Endpoint::Deployments(n) => Some(n@),
            Endpoint::Instances(n) => Some(n@),
            _ => None,
        }
    }

    /// The path of the call.
    pub fn path(&self) -> (p: String)
        ensures
            p@ == self.path_of(),
    {
        match self {
            Endpoint::ListApplications => String::from_str("/applications"),
            Endpoint::GetApplication(n) => prefixed("/applications/", n.as_str()),
            Endpoint::CreateApplication => String::from_str("/applications"),
            Endpoint::UpdateApplication(n) => prefixed("/applications/", n.as_str()),
            Endpoint::DeleteApplication(n) => prefixed("/applications/", n.as_str()),
            Endpoint::StartApplication(n) => {
                let mut p = prefixed("/applications/", n.as_str());
                p.append("/start");
                p
            },
            Endpoint::StopApplication(n) => {
                let mut p = prefixed("/applications/", n.as_str());
                p.append("/stop");
                p
            },
            Endpoint::RestartApplication(n) => {
                let mut p = prefixed("/applications/", n.as_str());
                p.append("/restart");
                p
            },
            Endpoint::ApplicationStats(n) => {
                let mut p = prefixed("/applications/", n.as_str());
                p.append("/statistics");
                p
            },
            Endpoint::ApplicationLogs(n, limit) => {
                let mut p = prefixed("/applications/", n.as_str());
                match limit {
                    Some(k) => {
                        p.append("/logs?limit=");
                        let digits = decimal_string(*k as u64);
                        p.append(digits.as_str());
                    },
                    None => {
                        p.append("/logs");
                    },
                }
                p
            },
            Endpoint::Deployments(n) => {
                let mut p = prefixed("/applications/", n.as_str());
                p.append("/deployments");
                p
            },
            Endpoint::Instances(n) => {
                let mut p = prefixed("/applications/", n.as_str());
                p.append("/instances");
                p
            },
            Endpoint::Alerts => String::from_str("/alerts"),
        }
    }

    /// The method of the call.
    pub fn method(&self) -> (m: HttpMethod)
        ensures
            m == self.method_of(),
    {
        match self {
            Endpoint::CreateApplication => HttpMethod::Post,
            Endpoint::StartApplication(_) => HttpMethod::Post,
            Endpoint::StopApplication(_) => HttpMethod::Post,
            Endpoint::RestartApplication(_) => HttpMethod::Post,
            Endpoint::UpdateApplication(_) => HttpMethod::Put,
            Endpoint::DeleteApplication(_) => HttpMethod::Delete,
            _ => HttpMethod::Get,
        }
    }
}

/// Every call that concerns an application addresses that application's path.
pub proof fn lemma_application_calls_address_the_application(endpoint: Endpoint)
    requires
        endpoint.application_of() is Some,
    ensures
        endpoint.path_of().len() >= application_path(endpoint.application_of()->0).len(),
        endpoint.path_of().subrange(0, application_path(endpoint.application_of()->0).len() as int)
            == application_path(endpoint.application_of()->0),
{
    let p = application_path(endpoint.application_of()->0);
    let full = endpoint.path_of();
    match endpoint {
        Endpoint::ApplicationLogs(n, limit) => {
            match limit {
                Some(k) => {
                    assert(full =~= p + ("/logs?limit="@ + decimal(k as nat)));
                },
                None => {},
            }
        },
        _ => {},
    }
    assert(full.subrange(0, p.len() as int) =~= p);
}

/// A request ready to be sent: method, full URL, the `Authorization` header,
/// and the path (which a "not found" answer names).
#[derive(Debug)]
pub struct PreparedRequest {
    /// The HTTP method.
    pub method: HttpMethod,
    /// The base URL followed by the path.
    pub url: String,
    /// The value of the `Authorization` header.
    pub authorization: String,
    /// The path of the call.
    pub path: String,
}

/// Whether an HTTP status reports success (2xx).
pub open spec fn success_status(status: u16) -> bool {
    200 <= status <= 299
}

/// Whether an HTTP status reports success (2xx).
pub fn is_success_status(status: u16) -> (ok: bool)
    ensures
        ok == success_status(status),
{
    200 <= status && status <= 299
}

/// The error for an answer with a failure status: "not found" (naming the
/// path) for 404, else a server error with the status and the body of the
/// answer (or "Unknown error" when the body could not be read).
pub fn response_error(status: u16, path: &str, body: Option<String>) -> (e: Error)
    requires
        !success_status(status),
    ensures
        status == 404 ==> (e matches Error::Api(ApiError::NotFound(p)) && p@ == path@),
        status != 404 ==> (e matches Error::Api(ApiError::ServerError { status: s, message })
            && s == status && message@ == (match body {
            Some(b) => b@,
            None => "Unknown error"@,
        })),
{
    if status == 404 {
        Error::Api(ApiError::NotFound(String::from_str(path)))
    } else {
        let message = match body {
            Some(b) => b,
            None => String::from_str("Unknown error"),
        };
        Error::Api(ApiError::ServerError { status, message })
    }
}

/// The error for a failure to send a request or to read its answer.
pub fn transport_error(description: String) -> (e: Error)
    ensures
        e matches Error::Api(ApiError::Request(d)) && d == description,
{
    Error::Api(ApiError::Request(description))
}

/// CloudHub API client.
pub struct CloudHubClient {
    client: reqwest::Client,
    base_url: String,
    token: Option<Token>,
    timeout_secs: u64,
}

impl CloudHubClient {
    /// The base URL of the API.
    pub closed spec fn base_url_of(&self) -> Seq<char> {
        self.base_url@
    }

    /// The token that requests carry, if any.
    pub closed spec fn token_of(&self) -> Option<Token> {
        self.token
    }

    /// The timeout, in seconds, that the HTTP client was built with.
    pub closed spec fn timeout_secs_of(&self) -> u64 {
        self.timeout_secs
    }

    /// The HTTP client that sends the requests.
    pub closed spec fn http_client_of(&self) -> reqwest::Client {
        self.client
    }

    /// Whether a token is present that has not expired at `now`.
    pub open spec fn authenticated_at(&self, now: int) -> bool {
        match self.token_of() {
            Some(t) => !t.expired_at(now),
            None => false,
        }
    }

    /// A client is authenticated at an instant exactly when it holds a token
    /// that expires later than that instant; once that token has expired it
    /// stays unauthenticated until its token changes.
    pub proof fn lemma_authenticated_until_expiry(&self, now: int, later: int)
        requires
            now <= later,
        ensures
            self.authenticated_at(now) <==> (self.token_of() matches Some(t) && now
                < t.expires_at),
            !self.authenticated_at(now) ==> !self.authenticated_at(later),
    {
    }

    /// Create a new `CloudHubClient` targeting the given base URL, without a token.
    ///
    /// # Errors
    ///
    /// Returns `Error::Api` if the underlying HTTP client cannot be constructed
    /// (e.g. TLS initialization failure).
    pub fn new(base_url: &str) -> (r: Result<Self, Error>)
        ensures
            match r {
                Ok(c) => c.base_url_of() == base_url@ && c.token_of() is None
                    && c.timeout_secs_of() == HTTP_REQUEST_TIMEOUT_SECS,
                Err(e) => e matches Error::Api(ApiError::Request(_)),
            },
    {
        let timeout_secs = HTTP_REQUEST_TIMEOUT_SECS;
        match build_http_client(timeout_secs) {
            Ok(client) => Ok(CloudHubClient {
                client,
                base_url: String::from_str(base_url),
                token: None,
                timeout_secs,
            }),
            Err(description) => Err(transport_error(description)),
        }
    }

    /// Set the authentication token used for subsequent API requests.
    pub fn set_token(&mut self, token: Token)
        ensures
            final(self).token_of() == Some(token),
            final(self).base_url_of() == old(self).base_url_of(),
            final(self).http_client_of() == old(self).http_client_of(),
            final(self).timeout_secs_of() == old(self).timeout_secs_of(),
    {
        self.token = Some(token);
    }

    /// Return a reference to the current token, if any.
    pub fn token(&self) -> (t: Option<&Token>)
        ensures
            match t {
                Some(t) => self.token_of() == Some(*t),
                None => self.token_of() is None,
            },
    {
        self.token.as_ref()
    }

    /// The base URL of the API.
    pub fn base_url(&self) -> (u: &str)
        ensures
            u@ == self.base_url_of(),
    {
        self.base_url.as_str()
    }

    /// The timeout, in seconds, of each request the HTTP client sends.
    pub fn timeout_secs(&self) -> (t: u64)
        ensures
            t == self.timeout_secs_of(),
    {
        self.timeout_secs
    }

    /// The HTTP client that sends the requests.
    pub fn http_client(&self) -> (c: &reqwest::Client)
        ensures
            *c == self.http_client_of(),
    {
        &self.client
    }

    /// Whether a token is present that has not expired at `now` (microseconds since the epoch).
    pub fn is_authenticated_at(&self, now: i64) -> (auth: bool)
        ensures
            auth == self.authenticated_at(now as int),
    {
        match &self.token {
            Some(t) => !t.is_expired_at(now),
            None => false,
        }
    }

    /// Return `true` if a non-expired token is present.
    pub fn is_authenticated(&self) -> (auth: bool)
        ensures
            self.token_of() is None ==> !auth,
            exists|now: int| 0 <= now <= latest_instant() && auth == self.authenticated_at(now),
    {
        let now = now_micros();
        self.is_authenticated_at(now)
    }

    /// The request for a call: refused with "token expired" when no token is
    /// set, otherwise addressed to the base URL followed by the call's path and
    /// authorized by the token.
    pub fn prepare(&self, endpoint: &Endpoint) -> (r: Result<PreparedRequest, Error>)
        ensures
            match self.token_of() {
                None => r matches Err(Error::Auth(AuthError::TokenExpired)),
                Some(t) => r matches Ok(req) && req.method == endpoint.method_of() && req.url@
                    == self.base_url_of() + endpoint.path_of() && req.authorization@
                    == t.authorization_of() && req.path@ == endpoint.path_of(),
            },
    {
        match &self.token {
            None => Err(Error::Auth(AuthError::TokenExpired)),
            Some(token) => {
                let path = endpoint.path();
                let url = prefixed(self.base_url.as_str(), path.as_str());
                Ok(PreparedRequest {
                    method: endpoint.method(),
                    url,
                    authorization: token.authorization(),
                    path,
                })
            },
        }
    }
}

} // verus!
