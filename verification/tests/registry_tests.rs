use rusty_ssl::ttl_controller::{ConnectionInfo, TtlController};

const ADDR_A: u128 = 0x7f000001;
const ADDR_B: u128 = 0x7f000002;

#[test]
fn test_register_then_touch_counts() {
    let mut reg = TtlController::new(300_000, 400_000, 60_000);
    reg.register_connection_at(ADDR_A, 1, 1_000);
    let before = reg.get_connection_info(ADDR_A).unwrap();
    assert_eq!(before.request_count, 1);
    assert_eq!(before.last_activity, 1_000);

    let touched = reg.update_connection_activity_at(ADDR_A, 2_000);
    assert!(touched);
    let after = reg.get_connection_info(ADDR_A).unwrap();
    assert_eq!(after.request_count, before.request_count + 1);
    assert!(after.last_activity >= before.last_activity);
    assert_eq!(after.last_activity, 2_000);
}

#[test]
fn test_touch_unknown_address() {
    let mut reg = TtlController::new(300_000, 400_000, 60_000);
    let touched = reg.update_connection_activity_at(ADDR_A, 1_000);
    assert!(!touched);
    let stats = reg.get_stats();
    assert_eq!(stats.active_connections, 0);
    assert_eq!(stats.total_connections, 0);
    assert_eq!(stats.expired_connections, 0);
}

#[test]
fn test_adaptive_ttl_clamped() {
    // default 300s, max 400s: the extension to 450s overshoots, so the
    // policy falls back to the default even for a busy address.
    let mut reg = TtlController::new(300_000, 400_000, 60_000);
    reg.register_connection_at(ADDR_A, 1, 0);
    for i in 0..10u64 {
        reg.update_connection_activity_at(ADDR_A, 10 * (i + 1));
    }
    assert_eq!(reg.get_connection_info(ADDR_A).unwrap().request_count, 11);
    assert_eq!(reg.calculate_adaptive_ttl(ADDR_A, 200), 300_000);
    // The next registration commits the (unextended) TTL.
    reg.register_connection_at(ADDR_A, 2, 300);
    assert_eq!(reg.get_connection_info(ADDR_A).unwrap().ttl, 300_000);
}

#[test]
fn test_adaptive_ttl_extended() {
    // default 300s, max 500s: the extension to 450s fits.
    let mut reg = TtlController::new(300_000, 500_000, 60_000);
    reg.register_connection_at(ADDR_A, 1, 0);
    for i in 0..10u64 {
        reg.update_connection_activity_at(ADDR_A, 10 * (i + 1));
    }
    assert_eq!(reg.calculate_adaptive_ttl(ADDR_A, 200), 450_000);
    reg.register_connection_at(ADDR_A, 2, 300);
    assert_eq!(reg.get_connection_info(ADDR_A).unwrap().ttl, 450_000);
    // A quiet address keeps the default.
    assert_eq!(reg.calculate_adaptive_ttl(ADDR_B, 200), 300_000);
}

#[test]
fn test_register_keeps_existing_id() {
    let mut reg = TtlController::new(300_000, 400_000, 60_000);
    let first = reg.register_connection_at(ADDR_A, 7, 0);
    assert_eq!(first, 7);
    let second = reg.register_connection_at(ADDR_A, 9, 100);
    assert_eq!(second, 7);
    assert_eq!(reg.get_connection_info(ADDR_A).unwrap().id, 7);
    let stats = reg.get_stats();
    assert_eq!(stats.total_connections, 1);
}

#[test]
fn test_sweep_idempotent() {
    let mut reg = TtlController::new(1_000, 2_000, 1_000);
    reg.register_connection_at(ADDR_A, 1, 0);
    reg.register_connection_at(ADDR_B, 2, 0);
    reg.update_connection_activity_at(ADDR_B, 900);

    // At t=1101 only A (idle since 0) is past its 1s TTL.
    let evicted1 = reg.cleanup_expired_connections_at(1_101);
    assert_eq!(evicted1, 1);
    assert!(reg.get_connection_info(ADDR_A).is_none());
    assert!(reg.get_connection_info(ADDR_B).is_some());
    assert_eq!(reg.get_stats().expired_connections, 1);

    // A second sweep with no intervening activity evicts nothing and does
    // not double-count.
    let evicted2 = reg.cleanup_expired_connections_at(1_101);
    assert_eq!(evicted2, 0);
    assert_eq!(reg.get_stats().expired_connections, 1);
    assert_eq!(reg.get_stats().active_connections, 1);
}

#[test]
fn test_sweep_respects_refresh() {
    let mut reg = TtlController::new(1_000, 2_000, 1_000);
    reg.register_connection_at(ADDR_A, 1, 0);
    reg.update_connection_activity_at(ADDR_A, 1_000);
    // At t=1500 the record was refreshed at t=1000, so it lives.
    assert_eq!(reg.cleanup_expired_connections_at(1_500), 0);
    assert!(reg.get_connection_info(ADDR_A).is_some());
}

#[test]
fn test_stats_empty_registry() {
    let reg = TtlController::new(300_000, 400_000, 60_000);
    let stats = reg.get_stats();
    assert_eq!(stats.active_connections, 0);
    assert_eq!(stats.total_connections, 0);
    assert_eq!(stats.expired_connections, 0);
    assert_eq!(stats.average_ttl_secs, 300);
}

#[test]
fn test_stats_average() {
    let mut reg = TtlController::new(300_000, 500_000, 60_000);
    reg.register_connection_at(ADDR_A, 1, 0);
    for i in 0..10u64 {
        reg.update_connection_activity_at(ADDR_A, 10 * (i + 1));
    }
    reg.register_connection_at(ADDR_A, 2, 200);
    // A now carries the extended 450s TTL; B the default 300s.
    reg.register_connection_at(ADDR_B, 3, 200);
    let stats = reg.get_stats();
    assert_eq!(stats.active_connections, 2);
    assert_eq!(stats.total_connections, 2);
    assert_eq!(stats.average_ttl_secs, (450 + 300) / 2);
}

#[test]
fn test_force_evict() {
    let mut reg = TtlController::new(300_000, 400_000, 60_000);

    // Nonexistent address: false, counters untouched.
    assert!(!reg.force_cleanup_connection(ADDR_A));
    let stats = reg.get_stats();
    assert_eq!(stats.total_connections, 0);
    assert_eq!(stats.expired_connections, 0);

    // Existing address: true, entry gone, evicted counter up by one.
    reg.register_connection_at(ADDR_A, 1, 0);
    assert!(reg.force_cleanup_connection(ADDR_A));
    assert!(reg.get_connection_info(ADDR_A).is_none());
    let stats = reg.get_stats();
    assert_eq!(stats.total_connections, 1);
    assert_eq!(stats.expired_connections, 1);
    assert_eq!(stats.active_connections, 0);
}

#[test]
fn test_end_to_end_expiry() {
    // Registry with a 1s default TTL: register, wait 1.1s, sweep, and the
    // record is gone and counted.
    let mut reg = TtlController::new(1_000, 1_000, 1_000);
    reg.register_connection_at(ADDR_A, 1, 0);
    let evicted = reg.cleanup_expired_connections_at(1_100);
    assert_eq!(evicted, 1);
    assert!(reg.get_connection_info(ADDR_A).is_none());
    assert_eq!(reg.get_stats().expired_connections, 1);
}

#[test]
fn test_snapshot_lists_records() {
    let mut reg = TtlController::new(300_000, 400_000, 60_000);
    reg.register_connection_at(ADDR_A, 1, 10);
    reg.register_connection_at(ADDR_B, 2, 20);
    let mut snap = reg.get_connections_snapshot();
    snap.sort_by_key(|e| e.0);
    assert_eq!(snap.len(), 2);
    assert_eq!(snap[0].0, ADDR_A);
    assert_eq!(snap[0].1.id, 1);
    assert_eq!(snap[0].1.established_at, 10);
    assert_eq!(snap[1].0, ADDR_B);
    assert_eq!(snap[1].1.ttl, 300_000);
}

#[test]
fn test_record_expiry_window() {
    let rec = ConnectionInfo::new_at(ADDR_A, 1_000, 5, 0);
    assert!(!rec.is_expired(1_000));
    assert!(rec.is_expired(1_001));
    assert_eq!(rec.time_until_expiry(400), Some(600));
    assert_eq!(rec.time_until_expiry(1_000), None);
    assert_eq!(rec.time_until_expiry(2_000), None);
}

#[test]
fn test_update_activity_saturates() {
    let mut rec = ConnectionInfo::new_at(ADDR_A, 1_000, 5, 0);
    rec.request_count = u64::MAX;
    rec.update_activity(50);
    assert_eq!(rec.request_count, u64::MAX);
    assert_eq!(rec.last_activity, 50);
}

#[test]
fn test_wall_clock_entry_points() {
    // The argument-free entry points read the real clock; drive one
    // register/touch/sweep cycle through them.
    let mut reg = TtlController::new(300_000, 400_000, 60_000);
    let id = reg.register_connection(ADDR_A);
    assert_eq!(reg.get_connection_info(ADDR_A).unwrap().id, id);
    assert!(reg.update_connection_activity(ADDR_A));
    assert_eq!(reg.get_connection_info(ADDR_A).unwrap().request_count, 2);
    // Nothing is a year idle, so nothing is evicted.
    assert_eq!(reg.cleanup_expired_connections(), 0);
    assert_eq!(reg.get_stats().active_connections, 1);
}
