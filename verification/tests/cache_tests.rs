use rusty_archive_viewer::archiver::cache::{CacheKey, CacheManager};
use rusty_archive_viewer::archiver::metrics::ApiMetrics;
use rusty_archive_viewer::archiver::types::{ArchiveParameters, Meta, ProcessedPoint};

fn point(timestamp: i64, value: f64) -> ProcessedPoint {
    ProcessedPoint {
        timestamp,
        severity: 0,
        status: 0,
        value: value.to_bits(),
        min: value.to_bits(),
        max: value.to_bits(),
        stddev: 0f64.to_bits(),
        count: 1,
    }
}

fn meta(name: &str) -> Meta {
    Meta {
        name: name.to_string(),
        egu: "degC".to_string(),
        description: Some("temperature".to_string()),
        precision: Some(2),
        archive_parameters: Some(ArchiveParameters {
            sampling_period: 1.0f64.to_bits(),
            sampling_method: "SCAN".to_string(),
            last_modified: 0,
        }),
        display_limits: None,
        alarm_limits: None,
    }
}

const T0: i64 = 1_700_000_000_000;

#[test]
fn cache_key_text() {
    let key = CacheKey::new("TEST:PV1".to_string(), 0, 100, "raw".to_string());
    assert_eq!(key.to_string(), "TEST:PV1:0:100:raw");
    let key = CacheKey::new("A".to_string(), -5, 7, "mean_60".to_string());
    assert_eq!(key.to_string(), "A:-5:7:mean_60");
}

#[test]
fn stored_series_is_read_back_until_it_expires() {
    let mut cache = CacheManager::new(100, 64, ApiMetrics::new(T0));
    let key = CacheKey::new("TEST:PV1".to_string(), 0, 100, "raw".to_string());
    assert!(cache.lookup_data(&key, T0).is_none());
    cache.store_data(&key, vec![point(0, 42.0)], "raw", T0);
    let got = cache.lookup_data(&key, T0 + 500).unwrap();
    assert_eq!(got.len(), 1);
    assert_eq!(f64::from_bits(got[0].value), 42.0);
    // Raw data is valid for a second.
    assert!(cache.lookup_data(&key, T0 + 999).is_some());
    assert!(cache.lookup_data(&key, T0 + 1_000).is_none());
    let stats = cache.get_stats();
    assert_eq!(stats.hits, 2);
    assert_eq!(stats.misses, 2);
    assert_eq!(stats.data_entries, 0);
}

#[test]
fn binned_series_stay_valid_for_fifteen_minutes() {
    let mut cache = CacheManager::new(100, 64, ApiMetrics::new(T0));
    let key = CacheKey::new("TEST:PV1".to_string(), 0, 100, "mean_60".to_string());
    cache.store_data(&key, vec![point(0, 1.0)], "mean_60", T0);
    assert!(cache.lookup_data(&key, T0 + 899_999).is_some());
    assert!(cache.lookup_data(&key, T0 + 900_000).is_none());
}

#[test]
fn stats_count_entries_and_bytes() {
    let mut cache = CacheManager::new(10, 1, ApiMetrics::new(T0));
    let key = CacheKey::new("PV".to_string(), 1, 2, "raw".to_string());
    cache.store_data(&key, vec![point(0, 1.0), point(1, 2.0)], "raw", T0);
    cache.store_metadata("PV", meta("PV"), T0);
    let stats = cache.get_stats();
    assert_eq!(stats.data_entries, 1);
    assert_eq!(stats.metadata_entries, 1);
    assert_eq!(stats.max_memory, 1024 * 1024);
    let expected = 2 * std::mem::size_of::<ProcessedPoint>() as u64
        + std::mem::size_of::<Meta>() as u64;
    assert_eq!(stats.total_memory, expected);
    cache.clear();
    let stats = cache.get_stats();
    assert_eq!(stats.data_entries, 0);
    assert_eq!(stats.metadata_entries, 0);
    assert_eq!(stats.total_memory, 0);
}

#[test]
fn metadata_is_read_back_for_an_hour() {
    let mut cache = CacheManager::new(10, 1, ApiMetrics::new(T0));
    cache.store_metadata("ROOM:TEMP", meta("ROOM:TEMP"), T0);
    let got = cache.lookup_metadata("ROOM:TEMP", T0 + 3_599_999).unwrap();
    assert_eq!(got.name, "ROOM:TEMP");
    assert_eq!(got.egu, "degC");
    assert!(cache.lookup_metadata("ROOM:TEMP", T0 + 3_600_000).is_none());
    assert!(cache.lookup_metadata("OTHER", T0).is_none());
}

#[test]
fn recently_hit_series_are_evicted_when_the_budget_is_exceeded() {
    // A budget of 1 MiB; each series here takes a little over half of it.
    let mut cache = CacheManager::new(10, 1, ApiMetrics::new(T0));
    let n = (1024 * 1024 / 2) / std::mem::size_of::<ProcessedPoint>() + 1;
    let big: Vec<ProcessedPoint> = (0..n as i64).map(|t| point(t, 0.5)).collect();
    let a = CacheKey::new("A".to_string(), 0, 1, "raw".to_string());
    let b = CacheKey::new("B".to_string(), 0, 1, "raw".to_string());
    cache.store_data(&a, big.clone(), "raw", T0);
    // A hit puts A in the history of recent hits.
    assert!(cache.lookup_data(&a, T0 + 1).is_some());
    cache.store_data(&b, big, "raw", T0 + 2);
    assert_eq!(cache.get_stats().evictions, 1);
    assert!(cache.lookup_data(&a, T0 + 3).is_none());
    assert!(cache.lookup_data(&b, T0 + 3).is_some());
}

#[test]
fn series_never_hit_are_not_evicted() {
    let mut cache = CacheManager::new(10, 1, ApiMetrics::new(T0));
    let n = (1024 * 1024 / 2) / std::mem::size_of::<ProcessedPoint>() + 1;
    let big: Vec<ProcessedPoint> = (0..n as i64).map(|t| point(t, 0.5)).collect();
    let a = CacheKey::new("A".to_string(), 0, 1, "raw".to_string());
    let b = CacheKey::new("B".to_string(), 0, 1, "raw".to_string());
    cache.store_data(&a, big.clone(), "raw", T0);
    cache.store_data(&b, big, "raw", T0);
    assert_eq!(cache.get_stats().evictions, 0);
    assert_eq!(cache.get_stats().data_entries, 2);
}

#[test]
fn test_cache_basic_operations() {
    let mut cache = CacheManager::new(100, 64, ApiMetrics::new(T0));
    let key = CacheKey::new("TEST:PV1".to_string(), 0, 100, "raw".to_string());
    // A miss, then the fetched series is stored and served from the cache.
    let fetched = match cache.lookup_data(&key, T0) {
        Some(d) => d,
        None => {
            let data = vec![point(0, 42.0)];
            cache.store_data(&key, data.clone(), "raw", T0);
            data
        }
    };
    assert_eq!(fetched.len(), 1);
    assert_eq!(f64::from_bits(fetched[0].value), 42.0);
    let again = cache.lookup_data(&key, T0 + 1).unwrap();
    assert_eq!(f64::from_bits(again[0].value), 42.0);
}

#[test]
fn test_cache_expiration() {
    let mut cache = CacheManager::new(100, 64, ApiMetrics::new(T0));
    let key = CacheKey::new("TEST:PV1".to_string(), 0, 100, "raw".to_string());
    let mut fetch_count = 0;
    if cache.lookup_data(&key, T0).is_none() {
        cache.store_data(&key, vec![], "raw", T0);
    }
    // A second later the raw series is fetched again.
    if cache.lookup_data(&key, T0 + 1_000).is_none() {
        fetch_count += 1;
        cache.store_data(&key, vec![], "raw", T0 + 1_000);
    }
    assert_eq!(fetch_count, 1);
}

#[test]
fn storing_needs_sizes_that_fit() {
    let cache = CacheManager::new(100, 64, ApiMetrics::new(T0));
    assert!(cache.can_store(10));
    assert!(!cache.can_store(usize::MAX));
}
