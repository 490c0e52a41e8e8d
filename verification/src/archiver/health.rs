//! Health of the archiver interface: the status a check arrives at and the
//! bounded history of the statuses recorded.
//!
//! Rates and times are the bit patterns of `f64` values; comparing them is
//! floating-point work that the application does and hands in as booleans.
//! Instants are milliseconds since the Unix epoch.

use vstd::prelude::*;

use std::collections::VecDeque;

use crate::archiver::error::ArchiverError;
use crate::archiver::metrics::ApiMetrics;

verus! {

/// The health of the interface; `since` is when the state was found.
#[derive(Debug, Clone)]
pub enum SystemStatus {
    Healthy,
    Degraded { reason: String, since: i64 },
    Unhealthy { reason: String, since: i64, error_count: u64 },
}

/// Memory in use, as the counters report it.
#[derive(Debug, Clone, Copy)]
pub struct MemoryMetrics {
    pub total_allocated: u64,
    pub cache_usage: u64,
    pub peak_usage: u64,
    pub gc_count: u64,
}

/// Connections and failures; latency and error rate are `f64` bit patterns.
#[derive(Debug, Clone)]
pub struct ConnectionMetrics {
    pub active_connections: usize,
    pub failed_requests: u64,
    pub average_latency: u64,
    pub error_rate: u64,
    pub last_error: Option<String>,
}

/// Use of the cache; the hit rate is an `f64` bit pattern.
#[derive(Debug, Clone, Copy)]
pub struct CacheMetrics {
    pub hit_rate: u64,
    pub memory_usage: u64,
    pub entry_count: usize,
    pub eviction_count: u64,
}

/// Throughput and response times (`f64` bit patterns).
#[derive(Debug, Clone, Copy)]
pub struct PerformanceMetrics {
    pub requests_per_second: u64,
    pub average_response_time: u64,
    pub p95_response_time: u64,
    pub p99_response_time: u64,
}

/// The outcome of one health check; the uptime is in milliseconds.
#[derive(Debug, Clone)]
pub struct HealthStatus {
    pub status: SystemStatus,
    pub uptime: i64,
    pub last_check: i64,
    pub memory_metrics: MemoryMetrics,
    pub connection_metrics: ConnectionMetrics,
    pub cache_metrics: CacheMetrics,
    pub performance_metrics: PerformanceMetrics,
}

impl SystemStatus {
    /// A field-by-field copy.
    pub fn copied(&self) -> (r: Self)
        ensures
            r == *self,
    {
        match self {
            SystemStatus::Healthy => SystemStatus::Healthy,
            SystemStatus::Degraded { reason, since } => SystemStatus::Degraded {
                reason: reason.clone(),
                since: *since,
            },
            SystemStatus::Unhealthy { reason, since, error_count } => SystemStatus::Unhealthy {
                reason: reason.clone(),
                since: *since,
                error_count: *error_count,
            },
        }
    }
}

impl HealthStatus {
    /// A field-by-field copy.
    pub fn copied(&self) -> (r: Self)
        ensures
            r == *self,
    {
        let last_error = match &self.connection_metrics.last_error {
            Some(e) => Some(e.clone()),
            None => None,
        };
        HealthStatus {
            status: self.status.copied(),
            uptime: self.uptime,
            last_check: self.last_check,
            memory_metrics: self.memory_metrics,
            connection_metrics: ConnectionMetrics {
                active_connections: self.connection_metrics.active_connections,
                failed_requests: self.connection_metrics.failed_requests,
                average_latency: self.connection_metrics.average_latency,
                error_rate: self.connection_metrics.error_rate,
                last_error,
            },
            cache_metrics: self.cache_metrics,
            performance_metrics: self.performance_metrics,
        }
    }
}

/// The limits a check holds the counters to (`f64` bit patterns but the
/// memory, in bytes).
#[derive(Debug, Clone, Copy)]
pub struct HealthThresholds {
    pub max_error_rate: u64,
    pub max_response_time: u64,
    pub max_memory_usage: u64,
    pub degraded_cache_hit_rate: u64,
}

impl Default for HealthThresholds {
    /// An error rate of 5 %, a response time of 1000 ms, 1 GiB of memory
    /// and a cache hit rate of 50 %.
    fn default() -> (r: Self)
        ensures
            r.max_error_rate == 0x3fa999999999999a,
            r.max_response_time == 0x408f400000000000,
            r.max_memory_usage == 1024 * 1024 * 1024,
            r.degraded_cache_hit_rate == 0x3fe0000000000000,
    {
        HealthThresholds {
            max_error_rate: 0x3fa999999999999a,
            max_response_time: 0x408f400000000000,
            max_memory_usage: 1024 * 1024 * 1024,
            degraded_cache_hit_rate: 0x3fe0000000000000,
        }
    }
}

/// Whether `s` is the status with this reason, instant and count.
pub open spec fn status_text_is(s: SystemStatus, kind: int, reason: Seq<char>, since: i64, error_count: u64) -> bool {
    match s {
        SystemStatus::Healthy => kind == 0,
        SystemStatus::Degraded { reason: r, since: t } => kind == 1 && r@ == reason && t == since,
        SystemStatus::Unhealthy { reason: r, since: t, error_count: n } => kind == 2 && r@ == reason
            && t == since && n == error_count,
    }
}

/// The status a check arrives at `now`: unhealthy, with the count of failed
/// requests, when the error rate or the response time is over its limit;
/// else degraded when the memory in use is past its limit, or when the cache
/// has been asked (`lookups` hits and misses) and its hit rate is low; else
/// healthy. The two floating-point verdicts come in as `errors_or_slow` and
/// `low_hit_rate`.
pub fn classify_status(
    errors_or_slow: bool,
    low_hit_rate: bool,
    lookups: u64,
    total_allocated: u64,
    thresholds: &HealthThresholds,
    failed_requests: u64,
    now: i64,
) -> (r: SystemStatus)
    ensures
        errors_or_slow ==> status_text_is(
            r,
            2,
            "High error rate or slow response time"@,
            now,
            failed_requests,
        ),
        !errors_or_slow && (total_allocated > thresholds.max_memory_usage || (lookups > 0
            && low_hit_rate)) ==> status_text_is(
            r,
            1,
            "High memory usage or low cache hit rate"@,
            now,
            0,
        ),
        !errors_or_slow && !(total_allocated > thresholds.max_memory_usage || (lookups > 0
            && low_hit_rate)) ==> r is Healthy,
{
    if errors_or_slow {
        SystemStatus::Unhealthy {
            reason: String::from_str("High error rate or slow response time"),
            since: now,
            error_count: failed_requests,
        }
    } else if total_allocated > thresholds.max_memory_usage || (lookups > 0 && low_hit_rate) {
        SystemStatus::Degraded {
            reason: String::from_str("High memory usage or low cache hit rate"),
            since: now,
        }
    } else {
        SystemStatus::Healthy
    }
}

/// The history after recording `s`: `s` appended, the oldest statuses
/// dropped beyond `max`.
pub open spec fn history_after(h: Seq<HealthStatus>, s: HealthStatus, max: usize) -> Seq<HealthStatus> {
    let pushed = h.push(s);
    if pushed.len() > max {
        pushed.skip(pushed.len() - max)
    } else {
        pushed
    }
}

/// Periodic health checks: when the monitor started, its counters, the
/// statuses recorded (at most `max_history`), the interval of the checks in
/// seconds and the limits.
#[derive(Debug)]
pub struct HealthMonitor {
    start_time: i64,
    metrics: ApiMetrics,
    status_history: VecDeque<HealthStatus>,
    check_interval: i64,
    max_history: usize,
    thresholds: HealthThresholds,
}

impl HealthMonitor {
    /// The statuses recorded, oldest first.
    pub closed spec fn history(&self) -> Seq<HealthStatus> {
        self.status_history@
    }

    /// The most statuses the monitor keeps.
    pub closed spec fn max_history(&self) -> usize {
        self.max_history
    }

    /// The limits of the checks.
    pub closed spec fn thresholds(&self) -> HealthThresholds {
        self.thresholds
    }

    /// The counters the monitor reads.
    pub closed spec fn counters(&self) -> ApiMetrics {
        self.metrics
    }

    /// When the monitor started (milliseconds).
    pub closed spec fn start_time(&self) -> i64 {
        self.start_time
    }

    /// The interval of the checks (seconds).
    pub closed spec fn check_interval(&self) -> i64 {
        self.check_interval
    }

    /// A monitor started at `now` with the default limits.
    pub fn new(check_interval: i64, max_history: usize, now: i64) -> (r: Self)
        ensures
            r.history().len() == 0,
            r.max_history() == max_history,
            r.check_interval() == check_interval,
            r.start_time() == now,
            r.thresholds().max_error_rate == 0x3fa999999999999a,
            r.thresholds().max_response_time == 0x408f400000000000,
            r.thresholds().max_memory_usage == 1024 * 1024 * 1024,
            r.thresholds().degraded_cache_hit_rate == 0x3fe0000000000000,
            r.counters().fresh(now),
    {
        Self::with_thresholds(check_interval, max_history, HealthThresholds::default(), now)
    }

    /// A monitor started at `now` with the given limits.
    pub fn with_thresholds(check_interval: i64, max_history: usize, thresholds: HealthThresholds, now: i64) -> (r: Self)
        ensures
            r.history().len() == 0,
            r.max_history() == max_history,
            r.check_interval() == check_interval,
            r.start_time() == now,
            r.thresholds() == thresholds,
            r.counters().fresh(now),
    {
        HealthMonitor {
            start_time: now,
            metrics: ApiMetrics::new(now),
            status_history: VecDeque::with_capacity(max_history),
            check_interval,
            max_history,
            thresholds,
        }
    }

    /// The counters the monitor reads.
    pub fn metrics(&self) -> (r: &ApiMetrics)
        ensures
            *r == self.counters(),
    {
        &self.metrics
    }

    /// The limits of the checks.
    pub fn get_thresholds(&self) -> (r: HealthThresholds)
        ensures
            r == self.thresholds(),
    {
        self.thresholds
    }

    /// How long the monitor has run at `now` (milliseconds).
    pub fn uptime_at(&self, now: i64) -> (r: i64)
        requires
            i64::MIN <= now - self.start_time() <= i64::MAX,
        ensures
            r == now - self.start_time(),
    {
        now - self.start_time
    }

    /// Records the status of a check, keeping the latest `max_history`.
    pub fn record_status(&mut self, status: HealthStatus)
        ensures
            final(self).history() == history_after(old(self).history(), status, old(self).max_history()),
            final(self).max_history() == old(self).max_history(),
            final(self).thresholds() == old(self).thresholds(),
            final(self).start_time() == old(self).start_time(),
            final(self).check_interval() == old(self).check_interval(),
            final(self).counters() == old(self).counters(),
    {
        let ghost pushed = self.status_history@.push(status);
        self.status_history.push_back(status);
        let ghost mut dropped: int = 0;
        while self.status_history.len() > self.max_history
            invariant
                0 <= dropped <= pushed.len(),
                self.status_history@ == pushed.skip(dropped),
                self.max_history == old(self).max_history(),
                self.thresholds == old(self).thresholds(),
                self.start_time == old(self).start_time(),
                self.check_interval == old(self).check_interval(),
                self.metrics == old(self).counters(),
                pushed.len() > self.max_history ==> dropped <= pushed.len() - self.max_history,
                pushed.len() <= self.max_history ==> dropped == 0,
            decreases self.status_history@.len(),
        {
            self.status_history.pop_front();
            proof {
                assert(self.status_history@ =~= pushed.skip(dropped + 1));
                dropped = dropped + 1;
            }
        }
    }

    /// The latest status recorded, or an error before the first check.
    pub fn get_current_status(&self) -> (r: Result<HealthStatus, ArchiverError>)
        ensures
            self.history().len() > 0 ==> r == Ok::<HealthStatus, ArchiverError>(self.history().last()),
            self.history().len() == 0 ==> (r matches Err(ArchiverError::HealthCheckError {
                message,
                context,
                source,
                error_context,
            }) && message@ == "No health status available"@ && context@
                == "Health check not yet performed"@ && source is None && error_context is None),
    {
        let n = self.status_history.len();
        if n > 0 {
            Ok(self.status_history[n - 1].copied())
        } else {
            Err(
                ArchiverError::HealthCheckError {
                    message: String::from_str("No health status available"),
                    context: String::from_str("Health check not yet performed"),
                    source: None,
                    error_context: None,
                },
            )
        }
    }

    /// The statuses recorded, oldest first.
    pub fn get_status_history(&self) -> (r: Vec<HealthStatus>)
        ensures
            r@ == self.history(),
    {
        let mut r: Vec<HealthStatus> = Vec::new();
        let mut i: usize = 0;
        while i < self.status_history.len()
            invariant
                i <= self.history().len(),
                r@ == self.history().take(i as int),
            decreases self.history().len() - i,
        {
            r.push(self.status_history[i].copied());
            assert(r@ =~= self.history().take(i + 1));
            i = i + 1;
        }
        assert(self.history().take(i as int) =~= self.history());
        r
    }
}

/// The history never holds more than its limit, and a status just recorded
/// is the current one whenever the limit allows any.
pub proof fn law_history_bounded(h: Seq<HealthStatus>, s: HealthStatus, max: usize)
    ensures
        history_after(h, s, max).len() <= max,
        max > 0 ==> history_after(h, s, max).last() == s,
        h.len() < max ==> history_after(h, s, max) == h.push(s),
{
}

} // verus!
