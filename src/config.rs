//! Application settings, their defaults and their validation.
use vstd::prelude::*;
use crate::fetch::{duration_from_ms, duration_of_ms};

verus! {

/// The largest accepted response ceiling: 50 MiB.
pub const MAX_BYTES_LIMIT: usize = 52_428_800;

/// The smallest accepted request timeout in milliseconds.
pub const MIN_TIMEOUT_MS: u64 = 100;

/// The largest accepted request timeout in milliseconds (5 minutes).
pub const MAX_TIMEOUT_MS: u64 = 300_000;

/// Why settings could not be used.
#[derive(Debug, Clone, PartialEq, Eq)]
pub enum ConfigError {
    /// The settings could not be read.
    LoadFailed(String),
    /// A value is out of range.
    Invalid { field: String, reason: String },
    /// A value required by the requested operation is absent.
    Missing { field: String, hint: String },
}

/// Application settings.
#[derive(Debug, Clone)]
pub struct AppConfig {
    /// Search provider subscription token, needed only for searching.
    pub brave_api_key: Option<String>,
    /// Path of the cache database.
    pub db_path: String,
    /// User agent of every request.
    pub user_agent: String,
    /// Largest accepted response body in bytes.
    pub max_bytes: usize,
    /// Request timeout in milliseconds.
    pub timeout_ms: u64,
    /// Whether robots.txt is consulted.
    pub respect_robots: bool,
    /// Whether rendered mode is enabled.
    pub render_enabled: bool,
    /// Domains that fetches are limited to.
    pub allowlist_domains: Vec<String>,
    /// Domains that fetches are refused for.
    pub denylist_domains: Vec<String>,
}

/// The default cache database path.
pub fn default_db_path() -> (r: String)
    ensures
        r@ == "./mcp-web-cache.sqlite"@,
{
    String::from_str("./mcp-web-cache.sqlite")
}

/// The default user agent.
pub fn default_user_agent() -> (r: String)
    ensures
        r@ == "mcp-web/0.1"@,
{
    String::from_str("mcp-web/0.1")
}

/// The default response ceiling: 5 MiB.
pub fn default_max_bytes() -> (r: usize)
    ensures
        r == 5_242_880,
{
    5_242_880
}

/// The default timeout: 20 seconds.
pub fn default_timeout_ms() -> (r: u64)
    ensures
        r == 20_000,
{
    20_000
}

/// The default of settings that are on unless switched off.
pub fn default_true() -> (r: bool)
    ensures
        r,
{
    true
}

impl Default for AppConfig {
    fn default() -> (r: AppConfig)
        ensures
            r.brave_api_key is None,
            r.db_path@ == "./mcp-web-cache.sqlite"@,
            r.user_agent@ == "mcp-web/0.1"@,
            r.max_bytes == 5_242_880,
            r.timeout_ms == 20_000,
            r.respect_robots,
            !r.render_enabled,
            r.allowlist_domains@.len() == 0,
            r.denylist_domains@.len() == 0,
    {
        AppConfig {
            brave_api_key: None,
            db_path: default_db_path(),
            user_agent: default_user_agent(),
            max_bytes: default_max_bytes(),
            timeout_ms: default_timeout_ms(),
            respect_robots: true,
            render_enabled: false,
            allowlist_domains: Vec::new(),
            denylist_domains: Vec::new(),
        }
    }
}

/// The field a validation failure names, or `None` for valid settings; the
/// checks run in this order.
pub open spec fn invalid_field(c: AppConfig) -> Option<Seq<char>> {
    if c.max_bytes == 0 || c.max_bytes > MAX_BYTES_LIMIT {
        Some("max_bytes"@)
    } else if c.timeout_ms < MIN_TIMEOUT_MS || c.timeout_ms > MAX_TIMEOUT_MS {
        Some("timeout_ms"@)
    } else if c.user_agent@.len() == 0 {
        Some("user_agent"@)
    } else {
        None
    }
}

/// An `Invalid` error for `field` with `reason`.
fn invalid(field: &str, reason: &str) -> (r: ConfigError)
    ensures
        r matches ConfigError::Invalid { field: f, reason: x } && f@ == field@ && x@ == reason@,
{
    ConfigError::Invalid { field: String::from_str(field), reason: String::from_str(reason) }
}

impl AppConfig {
    /// The request timeout as a duration.
    pub fn timeout(&self) -> (r: core::time::Duration)
        ensures
            r == duration_of_ms(self.timeout_ms),
    {
        duration_from_ms(self.timeout_ms)
    }

    /// Checks the settings: the response ceiling must be 1 byte to 50 MiB,
    /// the timeout 100 ms to 5 minutes, and the user agent non-empty.
    pub fn validate(&self) -> (r: Result<(), ConfigError>)
        ensures
            invalid_field(*self) is None <==> r is Ok,
            invalid_field(*self) matches Some(f) ==> (r matches Err(ConfigError::Invalid { field, .. })
                && field@ == f),
    {
        if self.max_bytes == 0 {
            return Err(invalid("max_bytes", "must be greater than 0"));
        }
        if self.max_bytes > MAX_BYTES_LIMIT {
            return Err(invalid("max_bytes", "must not exceed 50MB"));
        }
        if self.timeout_ms < MIN_TIMEOUT_MS {
            return Err(invalid("timeout_ms", "must be at least 100ms"));
        }
        if self.timeout_ms > MAX_TIMEOUT_MS {
            return Err(invalid("timeout_ms", "must not exceed 5 minutes (300000ms)"));
        }
        if self.user_agent.as_str().unicode_len() == 0 {
            return Err(invalid("user_agent", "must not be empty"));
        }
        Ok(())
    }

    /// The search provider key, or `Missing` naming the setting.
    pub fn require_brave_api_key(&self) -> (r: Result<&str, ConfigError>)
        ensures
            match self.brave_api_key {
                Some(k) => r matches Ok(x) && x@ == k@,
                None => (r matches Err(ConfigError::Missing { field, .. }) && field@
                    == "brave_api_key"@),
            },
    {
        match &self.brave_api_key {
            Some(k) => Ok(k.as_str()),
            None => Err(
                ConfigError::Missing {
                    field: String::from_str("brave_api_key"),
                    hint: String::from_str("Set MCP_WEB_BRAVE_API_KEY environment variable"),
                },
            ),
        }
    }
}

} // verus!
