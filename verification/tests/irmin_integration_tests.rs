use irmin_view::irmin::http_client::IrminHttpConfig;
use irmin_view::irmin::integration;

#[test]
fn test_irmin_config() {
    let config = integration::IrminConfig::new();
    assert_eq!(config.store_path, "./irmin_store");
    assert_eq!(config.bridge_executable, "irmin-bridge-cli");
}

#[test]
fn test_irmin_config_with_custom_path() {
    let config = integration::IrminConfig::new().with_path("/tmp/test_store".to_string());
    assert_eq!(config.store_path, "/tmp/test_store");
}

#[test]
fn test_irmin_config_creation() {
    let config = integration::IrminConfig::new();
    assert_eq!(config.store_path, "./irmin_store");
    assert_eq!(config.bridge_executable, "irmin-bridge-cli");
}

#[test]
fn test_irmin_config_with_path() {
    let config = integration::IrminConfig::new().with_path("/custom/path".to_string());
    assert_eq!(config.store_path, "/custom/path");
}

#[test]
fn test_http_config_creation() {
    let config = IrminHttpConfig::new();
    assert_eq!(config.server_url, "http://localhost:8080");
    assert_eq!(config.timeout_secs, 30);
}

#[test]
fn test_http_config_with_url() {
    let config = IrminHttpConfig::new().with_url("http://example.com:9000".to_string());
    assert_eq!(config.server_url, "http://example.com:9000");
}

#[test]
fn test_irmin_config_with_http_server() {
    let config =
        integration::IrminConfig::new().with_http_server("http://localhost:8080".to_string());
    assert!(config.use_http);
    assert_eq!(config.server_url.as_deref(), Some("http://localhost:8080"));
}

#[test]
fn test_irmin_config_with_fallback() {
    let config = integration::IrminConfig::new();
    assert!(!config.fallback_enabled);
    let config = config.with_fallback(true);
    assert!(config.fallback_enabled);
}
