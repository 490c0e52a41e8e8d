use rusty_archive_viewer::archiver::client::{
    get_operator_for_time_range, set_archiver_url, ArchiverClient, ArchiverUrlSetting,
};
use rusty_archive_viewer::types::Error;
use rusty_archive_viewer::archiver::metrics::{ApiMetrics, TimeWindow};

#[test]
fn test_operator_selection() {
    // Test different time ranges
    assert_eq!(get_operator_for_time_range(600), None);
    assert_eq!(get_operator_for_time_range(3600), Some("optimized_720".to_string()));
    assert_eq!(get_operator_for_time_range(86400), Some("optimized_1440".to_string()));
    assert_eq!(get_operator_for_time_range(604800), Some("optimized_2016".to_string()));
    assert_eq!(get_operator_for_time_range(864000), Some("optimized_4320".to_string()));
}

#[test]
fn window_forgets_old_events() {
    let mut w: TimeWindow<u32> = TimeWindow::new(1000);
    w.add(0, 1);
    w.add(500, 2);
    w.add(1200, 3);
    let kept: Vec<u32> = w.data.iter().map(|(_, v)| *v).collect();
    assert_eq!(kept, vec![2, 3]);
    w.cleanup(5000);
    assert!(w.data.is_empty());
}

#[test]
fn counters_count_and_peak_is_kept() {
    let mut m = ApiMetrics::new(0);
    m.record_request();
    m.record_request();
    m.record_cache_hit();
    m.record_cache_miss();
    m.record_cache_eviction();
    assert_eq!(m.requests_total, 2);
    assert_eq!(m.get_cache_hits(), 1);
    assert_eq!(m.get_cache_misses(), 1);
    assert_eq!(m.get_cache_evictions(), 1);
    m.update_memory_usage(500);
    m.update_memory_usage(200);
    assert_eq!(m.memory_usage, 200);
    assert_eq!(m.peak_memory_usage, 500);
    m.record_error(Some("boom".to_string()), 10);
    m.record_error(None, 20);
    assert_eq!(m.failed_requests, 2);
    assert_eq!(m.last_error, Some("boom".to_string()));
    assert_eq!(m.last_error_time, Some(10));
    m.reset_errors();
    assert_eq!(m.failed_requests, 0);
    assert_eq!(m.last_error, None);
    m.record_session_created();
    assert_eq!(m.active_connections, 1);
    m.record_session_expired();
    m.record_session_expired();
    assert_eq!(m.active_connections, usize::MAX);
    m.record_latency(12.5f64.to_bits(), 30);
    assert_eq!(m.request_latencies.len(), 1);
    assert_eq!(m.get_expired_session_count(), 0);
}

#[test]
fn json_requests_go_to_the_url_set() {
    let mut setting = ArchiverUrlSetting::default();
    let before = ArchiverClient::new(&setting);
    set_archiver_url(&mut setting, "http://other.example/retrieval".to_string());
    let after = ArchiverClient::new(&setting);
    assert_eq!(before.base_url(), "http://localhost:17665/retrieval");
    assert_eq!(after.base_url(), "http://other.example/retrieval");
    let url = after.request_url("PV:1", 0, 7_200_000, None).unwrap();
    assert_eq!(
        url,
        "http://other.example/retrieval/getData.json?pv=optimized_720%28PV%3A1%29\
         &from=1970-01-01T00%3A00%3A00%2B00%3A00&to=1970-01-01T02%3A00%3A00%2B00%3A00"
    );
    let url = after.request_url("PV:1", 0, 1_000, Some("mean_60".to_string())).unwrap();
    assert!(url.contains("pv=mean_60%28PV%3A1%29&"));
    assert!(matches!(
        after.request_url("PV:1", 10, 0, None),
        Err(Error::Invalid(m)) if m == "System time error: second time provided was later than self"
    ));
}
