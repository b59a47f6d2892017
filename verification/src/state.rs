//! Application state of the terminal UI: the current view, the listed
//! applications and the selection, the status line, and authentication.
use vstd::prelude::*;

use crate::api::client::CloudHubClient;
use crate::config::Config;
use vstd::view::View as _;

verus! {

broadcast use vstd::string::group_string_axioms;

/// The upper-case form of `s` (`str::to_uppercase`, Unicode case mapping).
pub uninterp spec fn uppercased(s: Seq<char>) -> Seq<char>;

/// `str::to_uppercase`: the upper-case equivalent of `s`, per Unicode.
/// Claimed: the result is `uppercased(s)`.
#[verifier::external_body]
fn to_uppercase(s: &str) -> (upper: String)
    ensures
        upper@ == uppercased(s@),
{
    s.to_uppercase()
}

/// Application summary for list display. CPU usage is counted in tenths of a
/// percent; the last update is in microseconds since the Unix epoch.
#[derive(Debug, Clone)]
pub struct ApplicationSummary {
    /// Application name.
    pub name: String,
    /// Application domain.
    pub domain: String,
    /// Current status.
    pub status: AppStatus,
    /// Worker type.
    pub worker_type: String,
    /// Number of workers.
    pub worker_count: u32,
    /// CPU usage, in tenths of a percent.
    pub cpu_permille: u32,
    /// Memory usage in MB.
    pub memory_mb: u64,
    /// Runtime version.
    pub runtime_version: String,
    /// Last update time.
    pub last_update: Option<i64>,
}

/// Application status.
#[derive(Debug, Clone, Copy, PartialEq, Eq, Structural)]
pub enum AppStatus {
    /// Application is starting.
    Starting,
    /// Application is started/running.
    Started,
    /// Application is stopping.
    Stopping,
    /// Application is stopped.
    Stopped,
    /// Application is undeployed.
    Undeployed,
    /// Application deployment failed.
    Failed,
    /// Unknown status.
    Unknown,
}

impl AppStatus {
    /// The status that an upper-case status name stands for.
    pub open spec fn from_upper(upper: Seq<char>) -> AppStatus {
        if upper == "STARTED"@ {
            AppStatus::Started
        } else if upper == "STARTING"@ {
            AppStatus::Starting
        } else if upper == "STOPPED"@ {
            AppStatus::Stopped
        } else if upper == "STOPPING"@ {
            AppStatus::Stopping
        } else if upper == "UNDEPLOYED"@ {
            AppStatus::Undeployed
        } else if upper == "FAILED"@ {
            AppStatus::Failed
        } else {
            AppStatus::Unknown
        }
    }

    /// The name under which the API reports a status.
    pub open spec fn api_name(self) -> Seq<char> {
        match self {
            AppStatus::Starting => "STARTING"@,
            AppStatus::Started => "STARTED"@,
            AppStatus::Stopping => "STOPPING"@,
            AppStatus::Stopped => "STOPPED"@,
            AppStatus::Undeployed => "UNDEPLOYED"@,
            AppStatus::Failed => "FAILED"@,
            AppStatus::Unknown => "UNKNOWN"@,
        }
    }

    /// The status that an upper-case status name stands for; any other text is `Unknown`.
    pub fn from_uppercase_name(upper: &str) -> (status: AppStatus)
        ensures
            status == Self::from_upper(upper@),
    {
        let u = String::from_str(upper);
        if u == String::from_str("STARTED") {
            AppStatus::Started
        } else if u == String::from_str("STARTING") {
            AppStatus::Starting
        } else if u == String::from_str("STOPPED") {
            AppStatus::Stopped
        } else if u == String::from_str("STOPPING") {
            AppStatus::Stopping
        } else if u == String::from_str("UNDEPLOYED") {
            AppStatus::Undeployed
        } else if u == String::from_str("FAILED") {
            AppStatus::Failed
        } else {
            AppStatus::Unknown
        }
    }

    /// Parse status from string, ignoring case.
    pub fn from_str(s: &str) -> (status: AppStatus)
        ensures
            status == Self::from_upper(uppercased(s@)),
    {
        let upper = to_uppercase(s);
        Self::from_uppercase_name(upper.as_str())
    }
}

/// Every status is read back from the name under which the API reports it.
pub proof fn lemma_status_names_read_back(status: AppStatus)
    ensures
        AppStatus::from_upper(status.api_name()) == status,
{
    reveal_strlit("STARTED");
    reveal_strlit("STARTING");
    reveal_strlit("STOPPED");
    reveal_strlit("STOPPING");
    reveal_strlit("UNDEPLOYED");
    reveal_strlit("FAILED");
    reveal_strlit("UNKNOWN");
    let n = status.api_name();
    let names = seq!["STARTED"@, "STARTING"@, "STOPPED"@, "STOPPING"@, "UNDEPLOYED"@, "FAILED"@];
    assert(names[0] != names[1]) by { assert(names[0].len() != names[1].len()); }
    assert(names[0] != names[2]) by { assert(names[0][3] != names[2][3]); }
    assert(names[0] != names[3]) by { assert(names[0].len() != names[3].len()); }
    assert(names[0] != names[4]) by { assert(names[0].len() != names[4].len()); }
    assert(names[0] != names[5]) by { assert(names[0].len() != names[5].len()); }
    assert(names[1] != names[2]) by { assert(names[1].len() != names[2].len()); }
    assert(names[1] != names[3]) by { assert(names[1][3] != names[3][3]); }
    assert(names[1] != names[4]) by { assert(names[1].len() != names[4].len()); }
    assert(names[1] != names[5]) by { assert(names[1].len() != names[5].len()); }
    assert(names[2] != names[3]) by { assert(names[2].len() != names[3].len()); }
    assert(names[2] != names[4]) by { assert(names[2].len() != names[4].len()); }
    assert(names[2] != names[5]) by { assert(names[2].len() != names[5].len()); }
    assert(names[3] != names[4]) by { assert(names[3].len() != names[4].len()); }
    assert(names[3] != names[5]) by { assert(names[3].len() != names[5].len()); }
    assert(names[4] != names[5]) by { assert(names[4].len() != names[5].len()); }
    let unknown = "UNKNOWN"@;
    assert(unknown != names[0]) by { assert(unknown[0] != names[0][0]); }
    assert(unknown != names[1]) by { assert(unknown.len() != names[1].len()); }
    assert(unknown != names[2]) by { assert(unknown[0] != names[2][0]); }
    assert(unknown != names[3]) by { assert(unknown.len() != names[3].len()); }
    assert(unknown != names[4]) by { assert(unknown.len() != names[4].len()); }
    assert(unknown != names[5]) by { assert(unknown.len() != names[5].len()); }
}

/// Available views/tabs in the TUI.
#[derive(Debug, Clone, Copy, PartialEq, Eq, Structural)]
pub enum View {
    /// Dashboard overview.
    Dashboard,
    /// Applications list.
    Apps,
    /// Application details.
    AppDetail,
    /// Logs view.
    Logs,
    /// Settings view.
    Settings,
}

impl Default for View {
    fn default() -> (v: Self)
        ensures
            v == View::Dashboard,
    {
        View::Dashboard
    }
}

impl View {
    /// The display name of the view.
    pub open spec fn name_of(self) -> Seq<char> {
        match self {
            View::Dashboard => "Dashboard"@,
            View::Apps => "Applications"@,
            View::AppDetail => "App Details"@,
            View::Logs => "Logs"@,
            View::Settings => "Settings"@,
        }
    }

    /// The key that selects the view.
    pub open spec fn shortcut_of(self) -> char {
        match self {
            View::Dashboard => '1',
            View::Apps => '2',
            View::AppDetail => '3',
            View::Logs => '4',
            View::Settings => '5',
        }
    }

    /// The position of the view among the tabs.
    pub open spec fn position(self) -> nat {
        match self {
            View::Dashboard => 0,
            View::Apps => 1,
            View::AppDetail => 2,
            View::Logs => 3,
            View::Settings => 4,
        }
    }

    /// The view after this one, wrapping from the last tab to the first.
    pub open spec fn following(self) -> View {
        match self {
            View::Dashboard => View::Apps,
            View::Apps => View::AppDetail,
            View::AppDetail => View::Logs,
            View::Logs => View::Settings,
            View::Settings => View::Dashboard,
        }
    }

    /// The view before this one, wrapping from the first tab to the last.
    pub open spec fn preceding(self) -> View {
        match self {
            View::Dashboard => View::Settings,
            View::Apps => View::Dashboard,
            View::AppDetail => View::Apps,
            View::Logs => View::AppDetail,
            View::Settings => View::Logs,
        }
    }

    /// Get the display name for the view.
    pub fn name(&self) -> (n: &'static str)
        ensures
            n@ == self.name_of(),
    {
        match self {
            View::Dashboard => "Dashboard",
            View::Apps => "Applications",
            View::AppDetail => "App Details",
            View::Logs => "Logs",
            View::Settings => "Settings",
        }
    }

    /// Get the shortcut key for the view.
    pub fn shortcut(&self) -> (c: char)
        ensures
            c == self.shortcut_of(),
    {
        match self {
            View::Dashboard => '1',
            View::Apps => '2',
            View::AppDetail => '3',
            View::Logs => '4',
            View::Settings => '5',
        }
    }

    /// The position of the view among the tabs.
    pub fn index(&self) -> (i: usize)
        ensures
            i == self.position(),
    {
        match self {
            View::Dashboard => 0,
            View::Apps => 1,
            View::AppDetail => 2,
            View::Logs => 3,
            View::Settings => 4,
        }
    }
}

/// Moving to the next view and back, or back and then forward, returns to
/// the same view; five steps forward go round all the tabs.
pub proof fn lemma_view_cycle(v: View)
    ensures
        v.following().preceding() == v,
        v.preceding().following() == v,
        v.following().following().following().following().following() == v,
        v.following().position() == (v.position() + 1) % 5,
{
}

/// Application state shared across the TUI.
pub struct AppState {
    /// Configuration.
    pub config: Config,
    /// API client.
    pub client: CloudHubClient,
    /// Current view/tab.
    pub current_view: View,
    /// Selected application index (in app list).
    pub selected_app_index: usize,
    /// Applications list.
    pub applications: Vec<ApplicationSummary>,
    /// Loading state.
    pub is_loading: bool,
    /// Error message to display.
    pub error_message: Option<String>,
    /// Authentication status.
    pub is_authenticated: bool,
}

impl AppState {
    /// Create a new application state: on the dashboard, nothing listed or
    /// selected, not loading, no message, not authenticated.
    pub fn new(config: Config, client: CloudHubClient) -> (s: Self)
        ensures
            s.config == config,
            s.client == client,
            s.current_view == View::Dashboard,
            s.selected_app_index == 0,
            s.applications@.len() == 0,
            !s.is_loading,
            s.error_message is None,
            !s.is_authenticated,
    {
        AppState {
            config,
            client,
            current_view: View::Dashboard,
            selected_app_index: 0,
            applications: Vec::new(),
            is_loading: false,
            error_message: None,
            is_authenticated: false,
        }
    }

    /// Get the currently selected application.
    pub fn selected_app(&self) -> (app: Option<&ApplicationSummary>)
        ensures
            match app {
                Some(a) => self.selected_app_index < self.applications@.len() && *a
                    == self.applications@[self.selected_app_index as int],
                None => self.selected_app_index >= self.applications@.len(),
            },
    {
        if self.selected_app_index < self.applications.len() {
            Some(&self.applications[self.selected_app_index])
        } else {
            None
        }
    }

    /// Set error message.
    pub fn set_error(&mut self, message: String)
        ensures
            final(self).error_message == Some(message),
            final(self).current_view == old(self).current_view,
            final(self).selected_app_index == old(self).selected_app_index,
            final(self).applications == old(self).applications,
            final(self).is_authenticated == old(self).is_authenticated,
            final(self).is_loading == old(self).is_loading,
            final(self).config == old(self).config,
            final(self).client == old(self).client,
    {
        self.error_message = Some(message);
    }

    /// Clear error message.
    pub fn clear_error(&mut self)
        ensures
            final(self).error_message is None,
            final(self).current_view == old(self).current_view,
            final(self).selected_app_index == old(self).selected_app_index,
            final(self).applications == old(self).applications,
            final(self).is_authenticated == old(self).is_authenticated,
            final(self).is_loading == old(self).is_loading,
            final(self).config == old(self).config,
            final(self).client == old(self).client,
    {
        self.error_message = None;
    }

    /// Navigate to next view.
    pub fn next_view(&mut self)
        ensures
            final(self).current_view == old(self).current_view.following(),
            final(self).selected_app_index == old(self).selected_app_index,
            final(self).applications == old(self).applications,
            final(self).error_message == old(self).error_message,
            final(self).is_authenticated == old(self).is_authenticated,
            final(self).is_loading == old(self).is_loading,
            final(self).config == old(self).config,
            final(self).client == old(self).client,
    {
        self.current_view = match self.current_view {
            View::Dashboard => View::Apps,
            View::Apps => View::AppDetail,
            View::AppDetail => View::Logs,
            View::Logs => View::Settings,
            View::Settings => View::Dashboard,
        };
    }

    /// Navigate to previous view.
    pub fn prev_view(&mut self)
        ensures
            final(self).current_view == old(self).current_view.preceding(),
            final(self).selected_app_index == old(self).selected_app_index,
            final(self).applications == old(self).applications,
            final(self).error_message == old(self).error_message,
            final(self).is_authenticated == old(self).is_authenticated,
            final(self).is_loading == old(self).is_loading,
            final(self).config == old(self).config,
            final(self).client == old(self).client,
    {
        self.current_view = match self.current_view {
            View::Dashboard => View::Settings,
            View::Apps => View::Dashboard,
            View::AppDetail => View::Apps,
            View::Logs => View::AppDetail,
            View::Settings => View::Logs,
        };
    }
}

} // verus!
