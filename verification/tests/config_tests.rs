use rusty_ssl::config::AppConfig;

#[test]
fn test_config_loading() {
    let config = AppConfig::default();
    assert_eq!(config.server.host, "0.0.0.0");
    assert_eq!(config.server.port, 8443);
    assert_eq!(config.ttl.default_ttl_secs, 300);
    assert_eq!(config.ssl.cert_check_interval_secs, 3600);
}

#[test]
fn test_durations() {
    let config = AppConfig::default();
    assert_eq!(config.default_ttl(), 300);
    assert_eq!(config.max_ttl(), 3600);
    assert_eq!(config.request_timeout(), 30);
}

#[test]
fn test_default_intervals() {
    let config = AppConfig::default();
    assert_eq!(config.cleanup_interval(), 60);
    assert_eq!(config.cert_check_interval(), 3600);
    assert_eq!(config.ssl.cert_path, "test-certs/cert.pem");
    assert_eq!(config.ssl.key_path, "test-certs/key.pem");
    assert_eq!(config.logging.level, "info");
    assert_eq!(config.logging.format, "pretty");
}
