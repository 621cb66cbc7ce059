use rusty_ssl::health::HealthHandler;

#[test]
fn test_health_status_snapshot() {
    let handler = HealthHandler::new_at("1.2.3".to_string(), 100);
    let status = handler.health_status_at(250);
    assert_eq!(status.status, "healthy");
    assert_eq!(status.timestamp, 250);
    assert_eq!(status.uptime_seconds, 150);
    assert_eq!(status.version, "1.2.3");
}

#[test]
fn test_health_uptime_clamped() {
    let handler = HealthHandler::new_at("1.2.3".to_string(), 300);
    let status = handler.health_status_at(250);
    assert_eq!(status.uptime_seconds, 0);
}

#[test]
fn test_health_live_clock() {
    let handler = HealthHandler::new("0.1.0".to_string());
    let status = handler.health_status();
    assert_eq!(status.status, "healthy");
    assert_eq!(status.version, "0.1.0");
}
