use rusty_archive_viewer::archiver::api::{
    build_url, chunk_request_url, combine_chunk_results, data_at_time_url, data_request_url,
    first_pv_data, format_date, last_pv_data, latest_point, live_request_urls,
    merge_chunk_results, metadata_url, normalize_points, operator_pv_query, seconds_of_millis, series_key,
    status_error_message, ArchiverClient, LiveLoop, LiveStep, LiveTick, OptimizationLevel,
    TimeRangeMode,
};
use rusty_archive_viewer::archiver::types::{
    DataOperator, Meta, NormalizedPVData, PVData, Point, PointValue, ProcessedPoint, Value,
};

const BASE: &str = "http://archiver.example/retrieval";

fn meta(name: &str) -> Meta {
    Meta {
        name: name.to_string(),
        egu: String::new(),
        description: None,
        precision: None,
        archive_parameters: None,
        display_limits: None,
        alarm_limits: None,
    }
}

fn sample(secs: i64, nanos: Option<i64>, val: Value) -> Point {
    Point { secs, nanos, val, severity: None, status: None }
}

fn series(name: &str, points: Vec<ProcessedPoint>) -> NormalizedPVData {
    NormalizedPVData { meta: meta(name), data: points, statistics: None }
}

fn processed(timestamp: i64, value: f64) -> ProcessedPoint {
    ProcessedPoint {
        timestamp,
        severity: 0,
        status: 0,
        value: value.to_bits(),
        min: value.to_bits(),
        max: value.to_bits(),
        stddev: 0,
        count: 1,
    }
}

#[test]
fn ranges_of_each_mode() {
    let fixed = TimeRangeMode::Fixed { start: 10, end: 20 };
    assert_eq!(fixed.get_range_at(999), Some((10, 20)));
    let rolling = TimeRangeMode::Rolling { duration: 3600, end: None };
    assert_eq!(rolling.get_range_at(10_000), Some((6_400, 10_000)));
    let rolling_end = TimeRangeMode::Rolling { duration: 60, end: Some(100) };
    assert_eq!(rolling_end.get_range_at(10_000), Some((40, 100)));
    let live = TimeRangeMode::Live { base_mode: Box::new(rolling_end), last_update: 0 };
    assert_eq!(live.get_range_at(0), Some((40, 100)));
    let overflow = TimeRangeMode::Rolling { duration: 10, end: Some(i64::MIN + 5) };
    assert_eq!(overflow.get_range_at(0), None);
    let (start, end) = TimeRangeMode::Rolling { duration: 60, end: None }.get_range().unwrap();
    assert_eq!(end - start, 60);
}

#[test]
fn operators_of_each_level() {
    assert!(matches!(OptimizationLevel::Raw.get_operator(0, Some(5)), DataOperator::Raw));
    assert!(matches!(OptimizationLevel::Optimized(50).get_operator(0, Some(800)), DataOperator::Optimized(50)));
    assert!(matches!(OptimizationLevel::Mean(60).get_operator(0, None), DataOperator::Mean(Some(60))));
    assert!(matches!(OptimizationLevel::Max(5).get_operator(0, None), DataOperator::Max(Some(5))));
}

#[test]
fn automatic_level_bins_by_the_length_of_the_range() {
    let auto = OptimizationLevel::Auto;
    assert!(matches!(auto.get_operator(3600, Some(800)), DataOperator::Raw));
    assert!(matches!(auto.get_operator(86_400, None), DataOperator::Raw));
    assert!(matches!(auto.get_operator(86_401, None), DataOperator::Mean(Some(60))));
    assert!(matches!(auto.get_operator(604_800, None), DataOperator::Mean(Some(60))));
    assert!(matches!(auto.get_operator(2_592_000, None), DataOperator::Mean(Some(900))));
    assert!(matches!(auto.get_operator(2_592_001, None), DataOperator::Mean(Some(3600))));
}

#[test]
fn series_keys_write_the_level_as_debug_does() {
    for level in [
        OptimizationLevel::Raw,
        OptimizationLevel::Auto,
        OptimizationLevel::Optimized(1000),
        OptimizationLevel::Mean(-3),
        OptimizationLevel::LastSample(7),
    ] {
        assert_eq!(level.debug_text(), format!("{:?}", level));
        assert_eq!(series_key("PV:1", -1, 2, level), format!("PV:1:-1:2:{:?}", level));
    }
}

#[test]
fn dates_in_utc_and_in_zones() {
    assert_eq!(format_date(0, None).unwrap(), "1970-01-01T00:00:00+00:00");
    assert_eq!(
        format_date(0, Some("America/Los_Angeles")).unwrap(),
        "1969-12-31T16:00:00-08:00"
    );
    assert_eq!(format_date(1_500, Some("Not/AZone")).unwrap(), "1970-01-01T00:00:01.500+00:00");
    assert!(format_date(i64::MAX, None).is_none());
}

#[test]
fn urls_and_their_queries() {
    assert_eq!(
        metadata_url(BASE, "PV1").unwrap(),
        "http://archiver.example/retrieval/bpl/getMetadata?pv=PV1"
    );
    assert_eq!(
        build_url(BASE, "x", &vec![("a".to_string(), "b c".to_string())]).unwrap(),
        "http://archiver.example/retrieval/x?a=b+c"
    );
    assert!(build_url("not a url", "x", &vec![]).unwrap_err().starts_with("Invalid URL: "));
    assert_eq!(operator_pv_query("PV1", &DataOperator::Mean(Some(60))), "mean_60(PV1)");
    assert_eq!(operator_pv_query("PV1", &DataOperator::Raw), "PV1");
    let u = data_request_url(BASE, "PV1", 0, 60, &DataOperator::Raw, None).unwrap();
    assert_eq!(
        u,
        "http://archiver.example/retrieval/getData.json?pv=PV1&from=1970-01-01T00%3A00%3A00%2B00%3A00&to=1970-01-01T00%3A01%3A00%2B00%3A00&fetchLatestMetadata=true"
    );
    let c = chunk_request_url(BASE, "PV1", "a", "b", &DataOperator::Mean(Some(5))).unwrap();
    assert_eq!(
        c,
        "http://archiver.example/retrieval/data/getData.json?pv=PV1&from=a&to=b&fetchLatestMetadata=true&donotchunk=true&op=mean_5"
    );
    let at = data_at_time_url(BASE, 0, Some("UTC")).unwrap();
    assert_eq!(
        at,
        "http://archiver.example/retrieval/data/getDataAtTime?at=1970-01-01T00%3A00%3A00%2B00%3A00&includeProxies=true&timeZone=UTC"
    );
    assert_eq!(
        data_request_url(BASE, "PV1", i64::MAX / 1000, 0, &DataOperator::Raw, None).unwrap_err(),
        "Invalid time range specified"
    );
    let live = live_request_urls(BASE, &vec!["A".to_string(), "B".to_string()], 10, None).unwrap();
    assert_eq!(live.len(), 2);
    assert!(live[1].as_ref().unwrap().ends_with("&fetchLatestMetadata=true&pv=B"));
    assert_eq!(
        status_error_message("404 Not Found", "http://x"),
        "Server error occurred: 404 Not Found (http://x)"
    );
}

#[test]
fn normalisation_sorts_and_keeps_the_first_of_each_instant() {
    let data = vec![
        sample(2, None, Value::Single(2.0f64.to_bits())),
        sample(1, Some(500_000_000), Value::Single(1.5f64.to_bits())),
        sample(2, Some(999_999), Value::Single(9.0f64.to_bits())),
        sample(3, None, Value::Text("x".to_string())),
        sample(0, None, Value::Array(vec![])),
        sample(0, Some(-1_500_000), Value::Array(vec![7.0f64.to_bits(), 8.0f64.to_bits()])),
    ];
    let out = normalize_points(&data);
    let stamps: Vec<i64> = out.iter().map(|p| p.timestamp).collect();
    assert_eq!(stamps, vec![-1, 1500, 2000]);
    assert_eq!(f64::from_bits(out[0].value), 7.0);
    assert_eq!(f64::from_bits(out[2].value), 2.0);
    assert_eq!(out[2].count, 1);
    assert_eq!(out[2].min, out[2].value);
}

#[test]
fn answers_combine() {
    let ok = combine_chunk_results(vec![
        Err("e1".to_string()),
        Ok(series("A", vec![])),
        Err("e2".to_string()),
    ])
    .unwrap();
    assert_eq!(ok.len(), 1);
    assert_eq!(ok[0].meta.name, "A");
    assert_eq!(
        combine_chunk_results(vec![Err("e1".to_string()), Err("e2".to_string())]).unwrap_err(),
        "e1, e2"
    );
    let merged = merge_chunk_results(vec![
        Ok(vec![series("A", vec![])]),
        Err("x".to_string()),
        Ok(vec![series("B", vec![]), series("C", vec![])]),
    ])
    .unwrap();
    assert_eq!(merged.iter().map(|s| s.meta.name.clone()).collect::<Vec<_>>(), vec!["A", "B", "C"]);
    assert_eq!(
        merge_chunk_results(vec![Ok(vec![]), Err("x".to_string())]).unwrap_err(),
        "No data available for any PV"
    );
}

#[test]
fn latest_and_first_series() {
    let pv = |name: &str, pts: Vec<Point>| PVData { meta: meta(name), data: pts, statistics: None };
    let latest = latest_point(vec![
        pv("A", vec![sample(9, None, Value::Single(1))]),
        pv("B", vec![sample(1, None, Value::Single(2)), sample(5, Some(3), Value::Single(3))]),
    ])
    .unwrap();
    assert_eq!(latest.secs, 5);
    assert_eq!(latest.nanos, Some(3));
    assert!(latest_point(vec![pv("A", vec![])]).is_none());
    assert!(latest_point(vec![]).is_none());
    assert_eq!(last_pv_data(vec![pv("A", vec![]), pv("B", vec![])]).unwrap().meta.name, "B");
    assert_eq!(last_pv_data(vec![]).unwrap_err(), "No data available");
    assert_eq!(first_pv_data(vec![pv("A", vec![]), pv("B", vec![])]).unwrap().meta.name, "A");
    assert_eq!(first_pv_data(vec![]).unwrap_err(), "No data returned for PV");
}

#[test]
fn client_cache_reads_back_and_expires() {
    let mut client = ArchiverClient::new();
    assert_eq!(client.base_url(), "http://lcls-archapp.slac.stanford.edu/retrieval/data");
    let t0 = 1_700_000_000_000;
    client.store_cached("k", series("A", vec![processed(1, 1.0)]), t0);
    assert_eq!(client.get_cache_stats_at(t0), (1, 1));
    assert_eq!(client.lookup_cached("k", t0 + 299_999).unwrap().meta.name, "A");
    assert_eq!(client.get_cache_stats_at(t0 + 300_000), (0, 1));
    assert!(client.lookup_cached("k", t0 + 300_000).is_none());
    assert_eq!(client.get_cache_stats_at(t0), (0, 0));
}

#[test]
fn client_cache_cleanup_keeps_valid_entries() {
    let mut client = ArchiverClient::new();
    let t0 = 1_700_000_000_000;
    client.store_cached("old", series("A", vec![]), t0);
    client.store_cached("new", series("B", vec![]), t0 + 200_000);
    client.cleanup_cache_at(t0 + 300_000);
    assert_eq!(client.get_cache_stats_at(t0 + 300_000), (1, 1));
    assert!(client.lookup_cached("new", t0 + 300_000).is_some());
}

#[test]
fn live_samples_refresh_the_last_point() {
    let mut client = ArchiverClient::new();
    let t0 = 1_700_000_000_000;
    client.store_cached("PV1", series("PV1", vec![processed(1, 1.0), processed(2, 2.0)]), t0);
    let sample = PointValue {
        secs: 10,
        nanos: Some(250_000_000),
        val: Value::Single(5.0f64.to_bits()),
        severity: None,
        status: None,
    };
    client.apply_live_update("PV1", &sample, t0 + 299_000);
    let got = client.lookup_cached("PV1", t0 + 500_000).unwrap();
    assert_eq!(got.data[0].timestamp, 1);
    assert_eq!(got.data[1].timestamp, 10_250);
    assert_eq!(f64::from_bits(got.data[1].value), 5.0);
    client.apply_live_update("OTHER", &sample, t0);
    assert_eq!(client.get_cache_stats_at(t0).1, 1);
}

#[test]
fn live_loop_cleans_once_a_minute_and_stops_without_listeners() {
    let mut schedule = LiveLoop::new(1_000);
    let tick = schedule.on_tick(61_000, 1);
    assert_eq!(tick, LiveTick { cleanup: false, stop: false });
    assert_eq!(schedule.last_cleanup, 1_000);
    let tick = schedule.on_tick(61_001, 0);
    assert_eq!(tick, LiveTick { cleanup: true, stop: true });
    assert_eq!(schedule.last_cleanup, 61_001);
    assert_eq!(schedule.after_fetch(&Ok(3)), LiveStep::Publish);
    assert_eq!(schedule.after_fetch(&Ok(0)), LiveStep::Idle);
    assert_eq!(schedule.after_fetch(&Err("down".to_string())), LiveStep::Retry);
}

#[test]
fn seconds_round_down() {
    assert_eq!(seconds_of_millis(1999), 1);
    assert_eq!(seconds_of_millis(0), 0);
    assert_eq!(seconds_of_millis(-1), -1);
    assert_eq!(seconds_of_millis(-1000), -1);
    assert_eq!(seconds_of_millis(-1001), -2);
}
