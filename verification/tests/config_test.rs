//! Tests for the configuration.

use ace_tool::config::{get_upload_strategy, Config, ConfigError, ConfigOptions};
use std::sync::Arc;

fn test_config(base_url: &str, token: &str) -> Result<Arc<Config>, ConfigError> {
    Config::new(base_url.to_string(), token.to_string(), ConfigOptions::default())
}

#[test]
fn test_config_new_with_valid_inputs() {
    let config = test_config("https://api.example.com", "test-token");
    assert!(config.is_ok());
    let config = config.unwrap();
    assert_eq!(config.base_url, "https://api.example.com");
    assert_eq!(config.token, "test-token");
}

#[test]
fn test_config_adds_https_prefix() {
    let config = test_config("api.example.com", "test-token").unwrap();
    assert_eq!(config.base_url, "https://api.example.com");
}

#[test]
fn test_config_converts_http_to_https() {
    let config = test_config("http://api.example.com", "test-token").unwrap();
    assert_eq!(config.base_url, "https://api.example.com");
}

#[test]
fn test_config_removes_trailing_slash() {
    let config = test_config("https://api.example.com/", "test-token").unwrap();
    assert_eq!(config.base_url, "https://api.example.com");
}

#[test]
fn test_config_removes_multiple_trailing_slashes() {
    let config = test_config("https://api.example.com///", "test-token").unwrap();
    assert_eq!(config.base_url, "https://api.example.com");
}

#[test]
fn test_config_empty_token_fails() {
    let config = test_config("https://api.example.com", "");
    assert!(config.is_err());
    assert!(config.unwrap_err().message().contains("token"));
}

#[test]
fn test_config_default_values() {
    let config = test_config("https://api.example.com", "test-token").unwrap();
    assert_eq!(config.max_lines_per_blob, 800);
    assert_eq!(config.retrieval_timeout_secs, 60);
    assert!(!config.no_adaptive);
    assert!(config.cli_overrides.upload_timeout_secs.is_none());
    assert!(config.cli_overrides.upload_concurrency.is_none());
    assert!(!config.text_extensions.is_empty());
    assert!(!config.exclude_patterns.is_empty());
}

#[test]
fn test_config_with_custom_values() {
    let config = Config::new(
        "https://api.example.com".to_string(),
        "test-token".to_string(),
        ConfigOptions {
            max_lines_per_blob: Some(500),
            upload_timeout: Some(60),
            upload_concurrency: Some(4),
            retrieval_timeout: Some(120),
            no_adaptive: true,
        },
    )
    .unwrap();
    assert_eq!(config.max_lines_per_blob, 500);
    assert_eq!(config.retrieval_timeout_secs, 120);
    assert!(config.no_adaptive);
    assert_eq!(config.cli_overrides.upload_timeout_secs, Some(60));
    assert_eq!(config.cli_overrides.upload_concurrency, Some(4));
}

#[test]
fn test_config_options_default() {
    let options = ConfigOptions::default();
    assert!(options.max_lines_per_blob.is_none());
    assert!(options.upload_timeout.is_none());
    assert!(options.upload_concurrency.is_none());
    assert!(options.retrieval_timeout.is_none());
    assert!(!options.no_adaptive);
}

#[test]
fn test_config_options_partial_override() {
    let options = ConfigOptions {
        no_adaptive: true,
        ..Default::default()
    };
    assert!(options.max_lines_per_blob.is_none());
    assert!(options.no_adaptive);
}

#[test]
fn test_upload_strategy_small_project() {
    let strategy = get_upload_strategy(50);
    assert_eq!(strategy.batch_size, 10);
    assert_eq!(strategy.concurrency, 1);
    assert_eq!(strategy.timeout_ms, 30000);
    assert_eq!(strategy.scale_name, "小型");
}

#[test]
fn test_upload_strategy_medium_project() {
    let strategy = get_upload_strategy(200);
    assert_eq!(strategy.batch_size, 30);
    assert_eq!(strategy.concurrency, 2);
    assert_eq!(strategy.timeout_ms, 45000);
    assert_eq!(strategy.scale_name, "中型");
}

#[test]
fn test_upload_strategy_large_project() {
    let strategy = get_upload_strategy(1000);
    assert_eq!(strategy.batch_size, 50);
    assert_eq!(strategy.concurrency, 3);
    assert_eq!(strategy.timeout_ms, 60000);
    assert_eq!(strategy.scale_name, "大型");
}

#[test]
fn test_upload_strategy_extra_large_project() {
    let strategy = get_upload_strategy(5000);
    assert_eq!(strategy.batch_size, 70);
    assert_eq!(strategy.concurrency, 4);
    assert_eq!(strategy.timeout_ms, 90000);
    assert_eq!(strategy.scale_name, "超大型");
}

#[test]
fn test_upload_strategy_boundary_99() {
    let strategy = get_upload_strategy(99);
    assert_eq!(strategy.scale_name, "小型");
}

#[test]
fn test_upload_strategy_boundary_100() {
    let strategy = get_upload_strategy(100);
    assert_eq!(strategy.scale_name, "中型");
}

#[test]
fn test_upload_strategy_boundary_499() {
    let strategy = get_upload_strategy(499);
    assert_eq!(strategy.scale_name, "中型");
}

#[test]
fn test_upload_strategy_boundary_500() {
    let strategy = get_upload_strategy(500);
    assert_eq!(strategy.scale_name, "大型");
}

#[test]
fn test_upload_strategy_boundary_1999() {
    let strategy = get_upload_strategy(1999);
    assert_eq!(strategy.scale_name, "大型");
}

#[test]
fn test_upload_strategy_boundary_2000() {
    let strategy = get_upload_strategy(2000);
    assert_eq!(strategy.scale_name, "超大型");
}

#[test]
fn test_default_text_extensions_contains_common_types() {
    let config = test_config("https://api.example.com", "test-token").unwrap();
    let extensions = &config.text_extensions;
    assert!(extensions.contains(&".rs".to_string()));
    assert!(extensions.contains(&".py".to_string()));
    assert!(extensions.contains(&".js".to_string()));
    assert!(extensions.contains(&".ts".to_string()));
    assert!(extensions.contains(&".go".to_string()));
    assert!(extensions.contains(&".java".to_string()));
    assert!(extensions.contains(&".md".to_string()));
    assert!(extensions.contains(&".json".to_string()));
    assert!(extensions.contains(&".yaml".to_string()));
    assert!(extensions.contains(&".toml".to_string()));
}

#[test]
fn test_default_exclude_patterns_contains_common_dirs() {
    let config = test_config("https://api.example.com", "test-token").unwrap();
    let patterns = &config.exclude_patterns;
    assert!(patterns.contains(&".git".to_string()));
    assert!(patterns.contains(&"node_modules".to_string()));
    assert!(patterns.contains(&"target".to_string()));
    assert!(patterns.contains(&"__pycache__".to_string()));
    assert!(patterns.contains(&".ace-tool".to_string()));
}

// ---------------------------------------------------------------------------
// Further cases
// ---------------------------------------------------------------------------

#[test]
fn config_empty_base_url_fails() {
    let err = test_config("", "test-token").unwrap_err();
    assert_eq!(err, ConfigError::EmptyBaseUrl);
    assert!(err.message().contains("base_url"));
    assert_eq!(err.message(), "base_url cannot be empty");
    // A non-empty address is normalized, even when only a scheme remains.
    for url in ["///", "/", "https://", "http://", "https:///"] {
        assert_eq!(test_config(url, "t").unwrap().base_url, "https:");
    }
    // The address is checked before the token.
    assert_eq!(test_config("", "").unwrap_err(), ConfigError::EmptyBaseUrl);
    assert_eq!(test_config("h", "t").unwrap().base_url, "https://h");
}

#[test]
fn config_empty_token_message() {
    let err = test_config("https://api.example.com", "").unwrap_err();
    assert_eq!(err, ConfigError::EmptyToken);
    assert_eq!(err.message(), "token cannot be empty");
}

#[test]
fn config_keeps_path_and_normalizes_once() {
    let config = test_config("http://host.example/api//", "t").unwrap();
    assert_eq!(config.base_url, "https://host.example/api");
    // Normalizing the normalized address changes nothing.
    let again = test_config(&config.base_url, "t").unwrap();
    assert_eq!(again.base_url, config.base_url);
}

#[test]
fn config_default_lists_sizes() {
    let config = test_config("https://api.example.com", "test-token").unwrap();
    assert_eq!(config.text_extensions.len(), ace_tool::config::default_text_extensions().len());
    assert_eq!(config.text_filenames, ace_tool::config::default_text_filenames());
    assert_eq!(config.exclude_patterns, ace_tool::config::default_exclude_patterns());
    assert!(config.text_filenames.contains(&"Dockerfile".to_string()));
}

#[test]
fn upload_strategy_zero_and_max() {
    assert_eq!(get_upload_strategy(0).batch_size, 10);
    assert_eq!(get_upload_strategy(usize::MAX).concurrency, 4);
}
