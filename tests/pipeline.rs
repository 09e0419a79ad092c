use network_manager::network_stats::is_listed_interface;
use network_manager::{Debouncer, NetworkError, NetworkStatsTracker, DEBOUNCE_WINDOW_MS};

/// Feeds events at the given times and polls every millisecond up to
/// `until`; returns every emission with its time.
fn run(events: &[(u64, &'static str)], until: u64) -> Vec<(u64, &'static str)> {
    let mut d: Debouncer<&'static str> = Debouncer::new(DEBOUNCE_WINDOW_MS);
    let mut emitted = Vec::new();
    for now in 0..=until {
        if let Some(v) = d.poll(now) {
            emitted.push((now, v));
        }
        for (t, v) in events.iter() {
            if *t == now {
                d.on_event(now, *v);
            }
        }
    }
    emitted
}

#[test]
fn burst_emits_once_with_last_payload() {
    let emitted = run(&[(0, "a"), (100, "b"), (200, "c"), (600, "d")], 3000);
    assert_eq!(emitted.len(), 1);
    assert_eq!(emitted[0].1, "d");
    // The event at 600 arrives before the window opened at 200 closes, so
    // the window restarts there and closes at 1100.
    assert_eq!(emitted[0].0, 1100);
}

#[test]
fn single_event_emits_after_window() {
    let emitted = run(&[(0, "only")], 3000);
    assert_eq!(emitted, vec![(500, "only")]);
}

#[test]
fn separate_bursts_emit_separately() {
    let emitted = run(&[(0, "a"), (1000, "b")], 3000);
    assert_eq!(emitted, vec![(500, "a"), (1500, "b")]);
}

#[test]
fn time_left_counts_down() {
    let mut d: Debouncer<u8> = Debouncer::new(500);
    assert_eq!(d.time_left(0), None);
    d.on_event(10, 1);
    assert_eq!(d.time_left(10), Some(500));
    assert_eq!(d.time_left(400), Some(110));
    assert_eq!(d.time_left(900), Some(0));
    assert_eq!(d.poll(509), None);
    assert_eq!(d.poll(510), Some(1));
    assert_eq!(d.poll(2000), None);
}

#[test]
fn window_end_saturates() {
    let mut d: Debouncer<u8> = Debouncer::new(500);
    d.on_event(u64::MAX - 10, 7);
    assert_eq!(d.deadline, Some(u64::MAX));
    assert_eq!(d.poll(u64::MAX), Some(7));
}

#[test]
fn stats_speeds_and_totals() {
    let mut t = NetworkStatsTracker::new("wlan0".to_string(), 1000, 500, 100).unwrap();
    let s = t.get_stats(3000, 1500, 104).unwrap();
    assert_eq!(s.download_speed, 500);
    assert_eq!(s.upload_speed, 250);
    assert_eq!(s.total_downloaded, 2000);
    assert_eq!(s.total_uploaded, 1000);
    assert_eq!(s.connection_duration, 4);
    assert_eq!(s.interface, "wlan0");
    let p = t.get_bandwidth_point(3000, 1500, 104).unwrap();
    assert_eq!(p.timestamp, 104);
    assert_eq!(p.download_speed, 0);
    let q = t.get_bandwidth_point(4000, 1600, 110).unwrap();
    assert_eq!(q.download_speed, 166);
    assert_eq!(q.upload_speed, 16);
}

#[test]
fn stats_counter_reset_gives_zero() {
    let mut t = NetworkStatsTracker::new("eth0".to_string(), 1000, 1000, 5).unwrap();
    let s = t.get_stats(10, 10, 6).unwrap();
    assert_eq!(s.download_speed, 0);
    assert_eq!(s.total_downloaded, 0);
}

#[test]
fn loopback_is_not_listed() {
    assert!(!is_listed_interface("lo"));
    assert!(is_listed_interface("wlan0"));
}

#[test]
fn bus_failures_map_to_errors() {
    assert_eq!(
        NetworkError::from_bus_failure(true, "denied".to_string()),
        NetworkError::OperationError("denied".to_string())
    );
    assert_eq!(
        NetworkError::from_bus_failure(false, "gone".to_string()),
        NetworkError::ZBusError("gone".to_string())
    );
}

#[test]
fn error_messages() {
    assert_eq!(NetworkError::ZBusError("x".to_string()).message(), "ZBus error: x");
    assert_eq!(NetworkError::NotInitialized.message(), "NetworkManager not initialized");
    assert_eq!(NetworkError::LockError.message(), "Failed to acquire lock on network manager");
    assert_eq!(NetworkError::UnsupportedSecurityType.message(), "Unsupported WiFi security type");
}
