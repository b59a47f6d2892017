use better_ch::config::{AnypointConfig, Config, UiConfig};
use better_ch::state::{AppStatus, View};
use better_ch::ui::navigation::Navigation;

#[test]
fn default_configuration() {
    let config = Config::default();
    assert_eq!(config.anypoint.platform_url, "https://anypoint.mulesoft.com");
    assert_eq!(config.anypoint.environment, "production");
    assert!(config.anypoint.business_group_id.is_none());
    assert!(config.anypoint.client_id.is_none());
    assert!(config.anypoint.client_secret.is_none());
    assert_eq!(config.ui.refresh_interval, 30);
    assert_eq!(config.ui.log_buffer_size, 1000);
    assert!(!config.ui.debug);
    let ui = UiConfig::default();
    assert_eq!(ui.refresh_interval, 30);
    let anypoint = AnypointConfig::default();
    assert_eq!(anypoint.environment, "production");
}

#[test]
fn cloudhub_url_appends_api_path() {
    let config = Config::default();
    assert_eq!(
        config.cloudhub_url(),
        "https://anypoint.mulesoft.com/cloudhub/api/v1"
    );
    let mut other = Config::default();
    other.anypoint.platform_url = "http://localhost:9000".to_string();
    assert_eq!(other.cloudhub_url(), "http://localhost:9000/cloudhub/api/v1");
}

#[test]
fn credentials_need_both_values() {
    let mut config = Config::default();
    assert!(!config.has_credentials());
    config.anypoint.client_id = Some("id".to_string());
    assert!(!config.has_credentials());
    config.anypoint.client_secret = Some("secret".to_string());
    assert!(config.has_credentials());
}

#[test]
fn overrides_replace_only_given_values() {
    let mut config = Config::default();
    config.apply_overrides(Some("id".to_string()), None, None, Some("sandbox".to_string()));
    assert_eq!(config.anypoint.client_id.as_deref(), Some("id"));
    assert!(config.anypoint.client_secret.is_none());
    assert_eq!(config.anypoint.platform_url, "https://anypoint.mulesoft.com");
    assert_eq!(config.anypoint.environment, "sandbox");
    config.apply_overrides(
        None,
        Some("secret".to_string()),
        Some("https://eu1.anypoint.mulesoft.com".to_string()),
        None,
    );
    assert_eq!(config.anypoint.client_id.as_deref(), Some("id"));
    assert_eq!(config.anypoint.client_secret.as_deref(), Some("secret"));
    assert_eq!(config.anypoint.platform_url, "https://eu1.anypoint.mulesoft.com");
    assert_eq!(config.anypoint.environment, "sandbox");
    assert!(config.has_credentials());
}

#[test]
fn status_parsing_ignores_case() {
    assert_eq!(AppStatus::from_str("STARTED"), AppStatus::Started);
    assert_eq!(AppStatus::from_str("started"), AppStatus::Started);
    assert_eq!(AppStatus::from_str("Starting"), AppStatus::Starting);
    assert_eq!(AppStatus::from_str("stopped"), AppStatus::Stopped);
    assert_eq!(AppStatus::from_str("StOpPiNg"), AppStatus::Stopping);
    assert_eq!(AppStatus::from_str("undeployed"), AppStatus::Undeployed);
    assert_eq!(AppStatus::from_str("failed"), AppStatus::Failed);
    assert_eq!(AppStatus::from_str("deploying"), AppStatus::Unknown);
    assert_eq!(AppStatus::from_str(""), AppStatus::Unknown);
    assert_eq!(AppStatus::from_str(" started"), AppStatus::Unknown);
    assert_eq!(AppStatus::from_uppercase_name("started"), AppStatus::Unknown);
    assert_eq!(AppStatus::from_uppercase_name("FAILED"), AppStatus::Failed);
}

#[test]
fn view_names_and_shortcuts() {
    let expected = [
        (View::Dashboard, "Dashboard", '1'),
        (View::Apps, "Applications", '2'),
        (View::AppDetail, "App Details", '3'),
        (View::Logs, "Logs", '4'),
        (View::Settings, "Settings", '5'),
    ];
    for (i, (view, name, key)) in expected.iter().enumerate() {
        assert_eq!(view.name(), *name);
        assert_eq!(view.shortcut(), *key);
        assert_eq!(view.index(), i);
        assert_eq!(Navigation::handle_key(View::Logs, *key), Some(*view));
    }
    assert_eq!(View::default(), View::Dashboard);
}

#[test]
fn navigation_keys_and_views() {
    assert_eq!(Navigation::handle_key(View::Dashboard, '6'), None);
    assert_eq!(Navigation::handle_key(View::Dashboard, 'q'), None);
    assert_eq!(
        Navigation::all_views(),
        vec![View::Dashboard, View::Apps, View::AppDetail, View::Logs, View::Settings]
    );
}
