use better_ch::api::client::CloudHubClient;
use better_ch::auth::oauth::User;
use better_ch::config::Config;
use better_ch::error::{AuthError, Error};
use better_ch::state::{AppState, AppStatus, ApplicationSummary, View};
use better_ch::text::decimal_string;
use better_ch::ui::app::{KeyInput, KeyOutcome};
use better_ch::ui::views::status_count;

fn state() -> AppState {
    AppState::new(Config::default(), CloudHubClient::new("http://h").expect("client"))
}

fn app(name: &str, status: AppStatus) -> ApplicationSummary {
    ApplicationSummary {
        name: name.to_string(),
        domain: format!("{}.example", name),
        status,
        worker_type: "Micro".to_string(),
        worker_count: 1,
        cpu_permille: 125,
        memory_mb: 512,
        runtime_version: "4.4.0".to_string(),
        last_update: None,
    }
}

#[test]
fn new_state_starts_on_dashboard() {
    let s = state();
    assert_eq!(s.current_view, View::Dashboard);
    assert_eq!(s.selected_app_index, 0);
    assert!(s.applications.is_empty());
    assert!(!s.is_loading);
    assert!(s.error_message.is_none());
    assert!(!s.is_authenticated);
    assert!(s.selected_app().is_none());
    assert_eq!(s.status_line(), "Ready");
}

#[test]
fn views_cycle_forward_and_back() {
    let mut s = state();
    let order = [View::Apps, View::AppDetail, View::Logs, View::Settings, View::Dashboard];
    for v in order {
        s.next_view();
        assert_eq!(s.current_view, v);
    }
    s.prev_view();
    assert_eq!(s.current_view, View::Settings);
    s.next_view();
    assert_eq!(s.current_view, View::Dashboard);
}

#[test]
fn keys_select_views_and_move_selection() {
    let mut s = state();
    s.applications = vec![
        app("a", AppStatus::Started),
        app("b", AppStatus::Stopped),
        app("c", AppStatus::Failed),
    ];
    assert_eq!(s.handle_key_input(KeyInput::Char('2')), KeyOutcome::Continue);
    assert_eq!(s.current_view, View::Apps);
    assert_eq!(s.handle_key_input(KeyInput::Down), KeyOutcome::Continue);
    assert_eq!(s.handle_key_input(KeyInput::Char('j')), KeyOutcome::Continue);
    assert_eq!(s.selected_app_index, 2);
    s.handle_key_input(KeyInput::Down);
    assert_eq!(s.selected_app_index, 2);
    assert_eq!(s.selected_app().map(|a| a.name.clone()), Some("c".to_string()));
    s.handle_key_input(KeyInput::Up);
    s.handle_key_input(KeyInput::Char('k'));
    s.handle_key_input(KeyInput::Char('k'));
    assert_eq!(s.selected_app_index, 0);
    s.handle_key_input(KeyInput::Tab);
    assert_eq!(s.current_view, View::AppDetail);
    s.handle_key_input(KeyInput::BackTab);
    assert_eq!(s.current_view, View::Apps);
    assert_eq!(s.handle_key_input(KeyInput::Char('x')), KeyOutcome::Continue);
    assert_eq!(s.current_view, View::Apps);
    assert_eq!(s.handle_key_input(KeyInput::Other), KeyOutcome::Continue);
    assert_eq!(s.handle_key_input(KeyInput::Char('l')), KeyOutcome::Continue);
    s.handle_key_input(KeyInput::Char('5'));
    assert_eq!(s.handle_key_input(KeyInput::Char('L')), KeyOutcome::Login);
    assert_eq!(s.handle_key_input(KeyInput::Char('q')), KeyOutcome::Quit);
    assert_eq!(s.handle_key_input(KeyInput::Esc), KeyOutcome::Quit);
}

#[test]
fn selection_on_empty_list_stays_at_zero() {
    let mut s = state();
    s.select_next_app();
    assert_eq!(s.selected_app_index, 0);
    s.select_previous_app();
    assert_eq!(s.selected_app_index, 0);
}

#[test]
fn login_needs_both_credentials() {
    let mut s = state();
    assert!(s.login_credentials().is_none());
    assert_eq!(
        s.error_message.as_deref(),
        Some("Missing client_id or client_secret. Configure via config file or environment variables.")
    );
    s.clear_error();
    s.config.anypoint.client_id = Some("id".to_string());
    s.config.anypoint.client_secret = Some(String::new());
    assert!(s.login_credentials().is_none());
    s.clear_error();
    s.config.anypoint.client_secret = Some("secret".to_string());
    assert_eq!(
        s.login_credentials(),
        Some(("id".to_string(), "secret".to_string()))
    );
    assert!(s.error_message.is_none());
}

#[test]
fn login_results_show_in_status_line() {
    let mut s = state();
    let user = User {
        id: "1".to_string(),
        username: "jdoe".to_string(),
        email: "j@example.com".to_string(),
        first_name: None,
        last_name: None,
        organization_id: "org".to_string(),
        full_name: None,
    };
    s.record_login(&user);
    assert!(s.is_authenticated);
    assert_eq!(s.status_line(), "Logged in as: jdoe");
    assert_eq!(s.authentication_texts(), ("✓ Authenticated", "Press [L] to logout"));
    s.record_login_failure(&Error::Auth(AuthError::InvalidCredentials));
    assert_eq!(
        s.status_line(),
        "Login failed: authentication error: invalid credentials"
    );
    s.is_loading = true;
    assert_eq!(s.status_line(), "Loading...");
    s.set_error("boom".to_string());
    s.is_loading = false;
    assert_eq!(s.status_line(), "boom");
}

#[test]
fn dashboard_counts_and_texts() {
    let mut s = state();
    s.applications = vec![
        app("a", AppStatus::Started),
        app("b", AppStatus::Started),
        app("c", AppStatus::Stopped),
        app("d", AppStatus::Failed),
    ];
    assert_eq!(status_count(&s.applications, AppStatus::Started), 2);
    assert_eq!(status_count(&s.applications, AppStatus::Stopped), 1);
    assert_eq!(status_count(&s.applications, AppStatus::Failed), 1);
    assert_eq!(status_count(&s.applications, AppStatus::Unknown), 0);
    assert_eq!(s.selected_app_name_or("None"), "a");
    s.selected_app_index = 9;
    assert_eq!(s.selected_app_name_or("No application"), "No application");
    assert_eq!(s.authentication_texts(), ("✗ Not authenticated", "Press [L] to login with SSO"));
    assert_eq!(s.debug_mode_text(), "Disabled");
    s.config.ui.debug = true;
    assert_eq!(s.debug_mode_text(), "Enabled");
}

#[test]
fn decimal_text() {
    assert_eq!(decimal_string(0), "0");
    assert_eq!(decimal_string(7), "7");
    assert_eq!(decimal_string(10), "10");
    assert_eq!(decimal_string(8082), "8082");
    assert_eq!(decimal_string(u64::MAX), u64::MAX.to_string());
}
