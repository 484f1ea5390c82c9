use mcp_web::config::{default_db_path, default_max_bytes, default_timeout_ms, default_true, default_user_agent, AppConfig, ConfigError};
use std::time::Duration;

#[test]
fn test_default_config() {
    let config = AppConfig::default();
    assert_eq!(config.db_path, "./mcp-web-cache.sqlite");
    assert_eq!(config.user_agent, "mcp-web/0.1");
    assert_eq!(config.max_bytes, 5_242_880);
    assert_eq!(config.timeout_ms, 20_000);
    assert!(config.respect_robots);
    assert!(!config.render_enabled);
    assert!(config.allowlist_domains.is_empty());
    assert!(config.denylist_domains.is_empty());
    assert!(config.brave_api_key.is_none());
}

#[test]
fn test_timeout_duration() {
    let config = AppConfig::default();
    assert_eq!(config.timeout(), Duration::from_millis(20_000));
}

#[test]
fn test_require_brave_api_key_missing() {
    let config = AppConfig::default();
    let result = config.require_brave_api_key();
    assert!(matches!(result, Err(ConfigError::Missing { .. })));
}

#[test]
fn test_require_brave_api_key_present() {
    let config = AppConfig { brave_api_key: Some("test-key".into()), ..Default::default() };
    let result = config.require_brave_api_key();
    assert_eq!(result.unwrap(), "test-key");
}

#[test]
fn test_validate_default_config() {
    let config = AppConfig::default();
    assert!(config.validate().is_ok());
}

#[test]
fn test_validate_max_bytes_zero() {
    let config = AppConfig { max_bytes: 0, ..Default::default() };
    let result = config.validate();
    assert!(matches!(result, Err(ConfigError::Invalid { field, .. }) if field == "max_bytes"));
}

#[test]
fn test_validate_max_bytes_exceeds_limit() {
    let config = AppConfig { max_bytes: 51 * 1024 * 1024, ..Default::default() };
    let result = config.validate();
    assert!(matches!(result, Err(ConfigError::Invalid { field, .. }) if field == "max_bytes"));
}

#[test]
fn test_validate_timeout_too_small() {
    let config = AppConfig { timeout_ms: 50, ..Default::default() };
    let result = config.validate();
    assert!(matches!(result, Err(ConfigError::Invalid { field, .. }) if field == "timeout_ms"));
}

#[test]
fn test_validate_timeout_exceeds_limit() {
    let config = AppConfig { timeout_ms: 301_000, ..Default::default() };
    let result = config.validate();
    assert!(matches!(result, Err(ConfigError::Invalid { field, .. }) if field == "timeout_ms"));
}

#[test]
fn test_validate_empty_user_agent() {
    let config = AppConfig { user_agent: String::new(), ..Default::default() };
    let result = config.validate();
    assert!(matches!(result, Err(ConfigError::Invalid { field, .. }) if field == "user_agent"));
}

#[test]
fn test_validate_edge_case_values() {
    let config = AppConfig { max_bytes: 1, timeout_ms: 100, ..Default::default() };
    assert!(config.validate().is_ok());
}

#[test]
fn test_validate_max_values() {
    let config = AppConfig { max_bytes: 50 * 1024 * 1024, timeout_ms: 300_000, ..Default::default() };
    assert!(config.validate().is_ok());
}

#[test]
fn config_defaults_are_exact() {
    assert_eq!(default_db_path(), "./mcp-web-cache.sqlite");
    assert_eq!(default_user_agent(), "mcp-web/0.1");
    assert_eq!(default_max_bytes(), 5_242_880);
    assert_eq!(default_timeout_ms(), 20_000);
    assert!(default_true());
    let config = AppConfig { max_bytes: 50 * 1024 * 1024 + 1, timeout_ms: 10, ..Default::default() };
    assert!(matches!(config.validate(), Err(ConfigError::Invalid { field, .. }) if field == "max_bytes"));
}
