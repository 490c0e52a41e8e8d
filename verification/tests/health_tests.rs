use rusty_archive_viewer::archiver::health::{
    classify_status, CacheMetrics, ConnectionMetrics, HealthMonitor, HealthStatus, HealthThresholds,
    MemoryMetrics, PerformanceMetrics, SystemStatus,
};

fn status_at(t: i64, status: SystemStatus) -> HealthStatus {
    HealthStatus {
        status,
        uptime: t,
        last_check: t,
        memory_metrics: MemoryMetrics { total_allocated: 0, cache_usage: 0, peak_usage: 0, gc_count: 0 },
        connection_metrics: ConnectionMetrics {
            active_connections: 0,
            failed_requests: 0,
            average_latency: 0,
            error_rate: 0,
            last_error: None,
        },
        cache_metrics: CacheMetrics { hit_rate: 0, memory_usage: 0, entry_count: 0, eviction_count: 0 },
        performance_metrics: PerformanceMetrics {
            requests_per_second: 0,
            average_response_time: 0,
            p95_response_time: 0,
            p99_response_time: 0,
        },
    }
}

#[test]
fn default_thresholds() {
    let t = HealthThresholds::default();
    assert_eq!(f64::from_bits(t.max_error_rate), 0.05);
    assert_eq!(f64::from_bits(t.max_response_time), 1000.0);
    assert_eq!(t.max_memory_usage, 1024 * 1024 * 1024);
    assert_eq!(f64::from_bits(t.degraded_cache_hit_rate), 0.5);
}

#[test]
fn status_classification() {
    let t = HealthThresholds::default();
    match classify_status(true, true, 1, u64::MAX, &t, 7, 99) {
        SystemStatus::Unhealthy { reason, since, error_count } => {
            assert_eq!(reason, "High error rate or slow response time");
            assert_eq!(since, 99);
            assert_eq!(error_count, 7);
        }
        _ => panic!("expected unhealthy"),
    }
    match classify_status(false, false, 1, 2 * 1024 * 1024 * 1024, &t, 0, 5) {
        SystemStatus::Degraded { reason, since } => {
            assert_eq!(reason, "High memory usage or low cache hit rate");
            assert_eq!(since, 5);
        }
        _ => panic!("expected degraded"),
    }
    assert!(matches!(classify_status(false, true, 3, 0, &t, 0, 5), SystemStatus::Degraded { .. }));
    assert!(matches!(classify_status(false, false, 3, 10, &t, 0, 5), SystemStatus::Healthy));
}

#[test]
fn history_keeps_the_latest_statuses() {
    let mut monitor = HealthMonitor::new(10, 2, 0);
    assert!(monitor.get_current_status().is_err());
    monitor.record_status(status_at(1, SystemStatus::Healthy));
    monitor.record_status(status_at(2, SystemStatus::Healthy));
    monitor.record_status(status_at(3, SystemStatus::Degraded { reason: "r".to_string(), since: 3 }));
    let history = monitor.get_status_history();
    assert_eq!(history.iter().map(|s| s.last_check).collect::<Vec<_>>(), vec![2, 3]);
    assert_eq!(monitor.get_current_status().unwrap().last_check, 3);
    assert_eq!(monitor.uptime_at(1000), 1000);
}

#[test]
fn test_health_monitor_basic() {
    // A first check with no activity: no errors, no latency, no cache lookups.
    let t = HealthThresholds::default();
    let mut monitor = HealthMonitor::new(1, 10, 0);
    let status = classify_status(false, true, 0, 0, &t, 0, 1000);
    monitor.record_status(status_at(1000, status));
    assert!(matches!(monitor.get_current_status().unwrap().status, SystemStatus::Healthy));
}
