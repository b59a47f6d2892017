//! Configuration of the runtime manager: defaults, derived URLs and overrides.
use vstd::prelude::*;

use crate::text::prefixed;

verus! {

/// Application configuration.
#[derive(Debug, Clone)]
pub struct Config {
    /// Anypoint Platform configuration.
    pub anypoint: AnypointConfig,
    /// UI configuration.
    pub ui: UiConfig,
}

/// Anypoint Platform configuration.
#[derive(Debug, Clone)]
pub struct AnypointConfig {
    /// Platform URL (e.g., https://anypoint.mulesoft.com).
    pub platform_url: String,
    /// Business group ID (optional).
    pub business_group_id: Option<String>,
    /// Environment name.
    pub environment: String,
    /// Client ID for OAuth2.
    pub client_id: Option<String>,
    /// Client secret for OAuth2.
    pub client_secret: Option<String>,
}

/// UI configuration.
#[derive(Debug, Clone)]
pub struct UiConfig {
    /// Refresh interval in seconds.
    pub refresh_interval: u64,
    /// Number of log lines to keep.
    pub log_buffer_size: usize,
    /// Show debug information.
    pub debug: bool,
}

/// The platform URL used when none is configured.
pub open spec fn default_platform_url() -> Seq<char> {
    "https://anypoint.mulesoft.com"@
}

/// The environment used when none is configured.
pub open spec fn default_environment() -> Seq<char> {
    "production"@
}

impl AnypointConfig {
    /// Whether this is the default Anypoint configuration.
    pub open spec fn is_default(&self) -> bool {
        &&& self.platform_url@ == default_platform_url()
        &&& self.business_group_id is None
        &&& self.environment@ == default_environment()
        &&& self.client_id is None
        &&& self.client_secret is None
    }
}

impl UiConfig {
    /// Whether this is the default UI configuration.
    pub open spec fn is_default(&self) -> bool {
        &&& self.refresh_interval == 30
        &&& self.log_buffer_size == 1000
        &&& !self.debug
    }
}

impl Default for AnypointConfig {
    fn default() -> (r: Self)
        ensures
            r.is_default(),
    {
        AnypointConfig {
            platform_url: String::from_str("https://anypoint.mulesoft.com"),
            business_group_id: None,
            environment: String::from_str("production"),
            client_id: None,
            client_secret: None,
        }
    }
}

impl Default for UiConfig {
    fn default() -> (r: Self)
        ensures
            r.is_default(),
    {
        UiConfig { refresh_interval: 30, log_buffer_size: 1000, debug: false }
    }
}

impl Default for Config {
    fn default() -> (r: Self)
        ensures
            r.anypoint.is_default(),
            r.ui.is_default(),
    {
        Config { anypoint: AnypointConfig::default(), ui: UiConfig::default() }
    }
}

impl Config {
    /// The CloudHub API base URL for a platform URL.
    pub open spec fn cloudhub_url_of(platform_url: Seq<char>) -> Seq<char> {
        platform_url + "/cloudhub/api/v1"@
    }

    /// Get the API base URL for CloudHub.
    pub fn cloudhub_url(&self) -> (r: String)
        ensures
            r@ == Self::cloudhub_url_of(self.anypoint.platform_url@),
            r@ == self.anypoint.platform_url@ + "/cloudhub/api/v1"@,
    {
        prefixed(self.anypoint.platform_url.as_str(), "/cloudhub/api/v1")
    }

    /// The CloudHub base URL is the platform URL, unchanged, followed by the
    /// API path: it begins with the platform URL and ends with `/cloudhub/api/v1`.
    pub proof fn lemma_cloudhub_url_extends_platform_url(platform_url: Seq<char>)
        ensures
            Self::cloudhub_url_of(platform_url).len() == platform_url.len() + 16,
            Self::cloudhub_url_of(platform_url).subrange(0, platform_url.len() as int)
                == platform_url,
            Self::cloudhub_url_of(platform_url).skip(platform_url.len() as int)
                == "/cloudhub/api/v1"@,
    {
        reveal_strlit("/cloudhub/api/v1");
        let u = Self::cloudhub_url_of(platform_url);
        assert(u.subrange(0, platform_url.len() as int) =~= platform_url);
        assert(u.skip(platform_url.len() as int) =~= "/cloudhub/api/v1"@);
    }

    /// Check if credentials are configured.
    pub fn has_credentials(&self) -> (r: bool)
        ensures
            r == (self.anypoint.client_id is Some && self.anypoint.client_secret is Some),
    {
        self.anypoint.client_id.is_some() && self.anypoint.client_secret.is_some()
    }

    /// Applies the values found in the environment (`ANYPOINT_CLIENT_ID`,
    /// `ANYPOINT_CLIENT_SECRET`, `ANYPOINT_PLATFORM_URL`, `ANYPOINT_ENVIRONMENT`):
    /// each one that is present replaces the configured value, the others leave it as it is.
    pub fn apply_overrides(
        &mut self,
        client_id: Option<String>,
        client_secret: Option<String>,
        platform_url: Option<String>,
        environment: Option<String>,
    )
        ensures
            final(self).ui == old(self).ui,
            final(self).anypoint.business_group_id == old(self).anypoint.business_group_id,
            final(self).anypoint.client_id == (match client_id {
                Some(v) => Some(v),
                None => old(self).anypoint.client_id,
            }),
            final(self).anypoint.client_secret == (match client_secret {
                Some(v) => Some(v),
                None => old(self).anypoint.client_secret,
            }),
            final(self).anypoint.platform_url == (match platform_url {
                Some(v) => v,
                None => old(self).anypoint.platform_url,
            }),
            final(self).anypoint.environment == (match environment {
                Some(v) => v,
                None => old(self).anypoint.environment,
            }),
    {
        if let Some(v) = client_id {
            self.anypoint.client_id = Some(v);
        }
        if let Some(v) = client_secret {
            self.anypoint.client_secret = Some(v);
        }
        if let Some(v) = platform_url {
            self.anypoint.platform_url = v;
        }
        if let Some(v) = environment {
            self.anypoint.environment = v;
        }
    }
}

} // verus!
