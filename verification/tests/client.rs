use better_ch::api::client::{
    is_success_status, response_error, CloudHubClient, Endpoint, HttpMethod,
};
use better_ch::api::models::{ApiResponse, Instance};
use better_ch::auth::oauth::Token;
use better_ch::error::{ApiError, AuthError, Error};

fn bearer(value: &str, expires_at: i64) -> Token {
    Token {
        access_token: value.to_string(),
        expires_at,
        token_type: "Bearer".to_string(),
    }
}

#[test]
fn client_without_token_refuses_requests() {
    let client = CloudHubClient::new("http://localhost:1234").expect("client");
    assert_eq!(client.base_url(), "http://localhost:1234");
    assert_eq!(client.timeout_secs(), 30);
    assert!(client.token().is_none());
    assert!(!client.is_authenticated());
    match client.prepare(&Endpoint::ListApplications) {
        Err(Error::Auth(AuthError::TokenExpired)) => {}
        other => panic!("unexpected {:?}", other),
    }
}

#[test]
fn client_with_token_prepares_requests() {
    let mut client = CloudHubClient::new("http://localhost:1234").expect("client");
    client.set_token(bearer("t0k", 100));
    assert_eq!(client.token().map(|t| t.access_token.clone()), Some("t0k".to_string()));
    assert!(client.is_authenticated_at(99));
    assert!(!client.is_authenticated_at(100));
    let req = client.prepare(&Endpoint::ListApplications).expect("request");
    assert_eq!(req.method, HttpMethod::Get);
    assert_eq!(req.url, "http://localhost:1234/applications");
    assert_eq!(req.authorization, "Bearer t0k");
    assert_eq!(req.path, "/applications");
    let req = client
        .prepare(&Endpoint::ApplicationLogs("test-app".to_string(), Some(10)))
        .expect("request");
    assert_eq!(req.url, "http://localhost:1234/applications/test-app/logs?limit=10");
    let req = client
        .prepare(&Endpoint::StartApplication("test-app".to_string()))
        .expect("request");
    assert_eq!(req.method, HttpMethod::Post);
    assert_eq!(req.path, "/applications/test-app/start");
}

#[test]
fn expired_token_still_sends_but_is_not_authenticated() {
    let mut client = CloudHubClient::new("http://h").expect("client");
    client.set_token(Token::test_token_expired());
    assert!(!client.is_authenticated());
    assert!(client.prepare(&Endpoint::Alerts).is_ok());
}

#[test]
fn endpoint_paths_and_methods() {
    let n = || "app".to_string();
    let cases = vec![
        (Endpoint::ListApplications, "/applications", HttpMethod::Get),
        (Endpoint::GetApplication(n()), "/applications/app", HttpMethod::Get),
        (Endpoint::CreateApplication, "/applications", HttpMethod::Post),
        (Endpoint::UpdateApplication(n()), "/applications/app", HttpMethod::Put),
        (Endpoint::DeleteApplication(n()), "/applications/app", HttpMethod::Delete),
        (Endpoint::StartApplication(n()), "/applications/app/start", HttpMethod::Post),
        (Endpoint::StopApplication(n()), "/applications/app/stop", HttpMethod::Post),
        (Endpoint::RestartApplication(n()), "/applications/app/restart", HttpMethod::Post),
        (Endpoint::ApplicationStats(n()), "/applications/app/statistics", HttpMethod::Get),
        (Endpoint::ApplicationLogs(n(), None), "/applications/app/logs", HttpMethod::Get),
        (
            Endpoint::ApplicationLogs(n(), Some(4294967295)),
            "/applications/app/logs?limit=4294967295",
            HttpMethod::Get,
        ),
        (Endpoint::Deployments(n()), "/applications/app/deployments", HttpMethod::Get),
        (Endpoint::Instances(n()), "/applications/app/instances", HttpMethod::Get),
        (Endpoint::Alerts, "/alerts", HttpMethod::Get),
    ];
    for (endpoint, path, method) in cases {
        assert_eq!(endpoint.path(), path);
        assert_eq!(endpoint.method(), method);
    }
}

#[test]
fn failure_statuses() {
    assert!(is_success_status(200));
    assert!(is_success_status(204));
    assert!(is_success_status(299));
    assert!(!is_success_status(199));
    assert!(!is_success_status(300));
    assert!(!is_success_status(404));
    match response_error(404, "/applications/x", Some("ignored".to_string())) {
        Error::Api(ApiError::NotFound(p)) => assert_eq!(p, "/applications/x"),
        other => panic!("unexpected {:?}", other),
    }
    let e = response_error(500, "/alerts", Some("Internal error".to_string()));
    assert_eq!(e.message(), "API error: server error (500): Internal error");
    let e = response_error(503, "/alerts", None);
    assert_eq!(e.message(), "API error: server error (503): Unknown error");
}

#[test]
fn list_payloads_default_to_empty() {
    let empty: ApiResponse<Vec<Instance>> = ApiResponse {
        data: None,
        total: None,
        page: None,
        size: None,
    };
    assert!(empty.into_items().is_empty());
    let one = ApiResponse {
        data: Some(vec![Instance {
            id: "i1".to_string(),
            name: "worker-0".to_string(),
            status: "STARTED".to_string(),
            ip_address: None,
            status_reason: None,
        }]),
        total: Some(1),
        page: None,
        size: None,
    };
    let items = one.into_items();
    assert_eq!(items.len(), 1);
    assert_eq!(items[0].id, "i1");
}
