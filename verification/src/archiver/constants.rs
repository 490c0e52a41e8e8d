//! Configuration of the archiver interface: timeouts, request and data
//! limits, cache settings, the known operators and the error texts.
//! Durations are in seconds.

use vstd::prelude::*;

verus! {

/// Timeouts of requests, in seconds.
#[derive(Debug, Clone, Copy)]
pub struct TimeoutConfig {
    pub default: u64,
    pub long: u64,
    pub extended: u64,
    pub connection: u64,
}

impl TimeoutConfig {
    /// 30 s by default, 60 s for long and 120 s for extended requests, 10 s
    /// to connect.
    pub fn default() -> (r: Self)
        ensures
            r == (TimeoutConfig { default: 30, long: 60, extended: 120, connection: 10 }),
    {
        TimeoutConfig { default: 30, long: 60, extended: 120, connection: 10 }
    }
}

/// Limits on concurrent and repeated requests.
#[derive(Debug, Clone, Copy)]
pub struct RequestLimits {
    pub max_concurrent: usize,
    pub max_retries: usize,
    pub batch_size: usize,
    pub rate_limit: usize,
}

impl RequestLimits {
    /// 5 concurrent requests, 3 retries, batches of 10, 100 requests per window.
    pub fn default() -> (r: Self)
        ensures
            r == (RequestLimits { max_concurrent: 5, max_retries: 3, batch_size: 10, rate_limit: 100 }),
    {
        RequestLimits { max_concurrent: 5, max_retries: 3, batch_size: 10, rate_limit: 100 }
    }
}

/// Limits on the number of points of a request.
#[derive(Debug, Clone, Copy)]
pub struct DataPointLimits {
    pub default_points: usize,
    pub max_points: usize,
    pub min_points: usize,
    pub chunk_size: usize,
}

impl DataPointLimits {
    /// 1000 points by default, between 100 and 10000, chunks of 1000.
    pub fn default() -> (r: Self)
        ensures
            r == (DataPointLimits {
                default_points: 1000,
                max_points: 10000,
                min_points: 100,
                chunk_size: 1000,
            }),
    {
        DataPointLimits { default_points: 1000, max_points: 10000, min_points: 100, chunk_size: 1000 }
    }
}

/// Cache size and lifetimes (seconds).
#[derive(Debug, Clone, Copy)]
pub struct CacheConfig {
    pub max_cache_size: usize,
    pub cache_ttl: u64,
    pub metadata_ttl: u64,
}

impl CacheConfig {
    /// 1000 entries, data kept 5 minutes and metadata an hour.
    pub fn default() -> (r: Self)
        ensures
            r == (CacheConfig { max_cache_size: 1000, cache_ttl: 300, metadata_ttl: 3600 }),
    {
        CacheConfig { max_cache_size: 1000, cache_ttl: 300, metadata_ttl: 3600 }
    }
}

/// The configuration of the archiver interface.
#[derive(Debug, Clone, Copy)]
pub struct APIConfig {
    pub base_url: &'static str,
    pub timeouts: TimeoutConfig,
    pub request_limits: RequestLimits,
    pub data_points: DataPointLimits,
    pub cache_config: CacheConfig,
}

/// The configuration the interface runs with: the LCLS archiver's data
/// service and the default limits.
pub fn api_config() -> (r: APIConfig)
    ensures
        r.base_url@ == "http://lcls-archapp.slac.stanford.edu/retrieval/data"@,
        r.timeouts == (TimeoutConfig { default: 30, long: 60, extended: 120, connection: 10 }),
        r.request_limits == (RequestLimits {
            max_concurrent: 5,
            max_retries: 3,
            batch_size: 10,
            rate_limit: 100,
        }),
        r.data_points == (DataPointLimits {
            default_points: 1000,
            max_points: 10000,
            min_points: 100,
            chunk_size: 1000,
        }),
        r.cache_config == (CacheConfig { max_cache_size: 1000, cache_ttl: 300, metadata_ttl: 3600 }),
{
    APIConfig {
        base_url: "http://lcls-archapp.slac.stanford.edu/retrieval/data",
        timeouts: TimeoutConfig::default(),
        request_limits: RequestLimits::default(),
        data_points: DataPointLimits::default(),
        cache_config: CacheConfig::default(),
    }
}

/// An operator the archiver offers.
#[derive(Debug, Clone)]
pub struct Operator {
    pub name: &'static str,
    pub description: &'static str,
    pub requires_param: bool,
    pub params: Vec<&'static str>,
}

impl Operator {
    /// An operator that takes no parameter.
    pub fn new(name: &'static str, description: &'static str) -> (r: Self)
        ensures
            r.name == name,
            r.description == description,
            !r.requires_param,
            r.params@.len() == 0,
    {
        Operator { name, description, requires_param: false, params: Vec::new() }
    }
}

/// The operators the interface knows, each under its name.
pub fn operators() -> (r: Vec<Operator>)
    ensures
        r@.len() == 12,
        forall|i: int| 0 <= i < r@.len() ==> !(#[trigger] r@[i]).requires_param && r@[i].params@.len() == 0,
{
    let v = vec![
        Operator::new("raw", "Returns raw unprocessed data"),
        Operator::new("mean", "Returns the average value of samples in a bin"),
        Operator::new("median", "Returns the median value in a bin"),
        Operator::new("std", "Returns the standard deviation of values in a bin"),
        Operator::new("var", "Returns the variance of values in a bin"),
        Operator::new("firstSample", "Returns the first sample in a bin"),
        Operator::new("lastSample", "Returns the last sample in a bin"),
        Operator::new("optimized_360", "10-second resolution optimization"),
        Operator::new("optimized_720", "30-second resolution optimization"),
        Operator::new("optimized_1440", "1-minute resolution optimization"),
        Operator::new("optimized_2016", "5-minute resolution optimization"),
        Operator::new("optimized_4320", "10-minute resolution optimization"),
    ];
    v
}

/// The texts of the interface's common errors.
#[derive(Debug, Clone, Copy)]
pub struct ErrorConstants {
    pub invalid_timerange: &'static str,
    pub timeout: &'static str,
    pub no_data: &'static str,
    pub invalid_pv: &'static str,
    pub server_error: &'static str,
    pub rate_limit: &'static str,
    pub connection_error: &'static str,
    pub parse_error: &'static str,
    pub cache_error: &'static str,
}

/// The texts of the interface's common errors.
pub fn errors() -> (r: ErrorConstants)
    ensures
        r.invalid_timerange@ == "Invalid time range specified"@,
        r.timeout@ == "Request timed out"@,
        r.no_data@ == "No data available"@,
        r.invalid_pv@ == "Invalid PV name or format"@,
        r.server_error@ == "Server error occurred"@,
        r.rate_limit@ == "Rate limit exceeded"@,
        r.connection_error@ == "Connection error"@,
        r.parse_error@ == "Data parsing error"@,
        r.cache_error@ == "Cache operation failed"@,
{
    ErrorConstants {
        invalid_timerange: "Invalid time range specified",
        timeout: "Request timed out",
        no_data: "No data available",
        invalid_pv: "Invalid PV name or format",
        server_error: "Server error occurred",
        rate_limit: "Rate limit exceeded",
        connection_error: "Connection error",
        parse_error: "Data parsing error",
        cache_error: "Cache operation failed",
    }
}

} // verus!
