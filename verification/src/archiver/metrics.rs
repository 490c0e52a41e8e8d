//! Counters of the archiver interface and sliding windows of recent events.
//!
//! Instants are milliseconds on the machine's clock; latencies are the bit
//! patterns of `f64` milliseconds. The rates and percentiles computed from
//! them are floating-point and belong to the application.

use vstd::prelude::*;

use std::collections::VecDeque;

verus! {

/// Events of the last `window_size` milliseconds, oldest first.
#[derive(Debug, Clone)]
pub struct TimeWindow<T> {
    pub data: VecDeque<(i64, T)>,
    pub window_size: u64,
}

/// The number of leading events older than `cutoff`.
pub open spec fn leading_older<T>(s: Seq<(i64, T)>, cutoff: int) -> nat
    decreases s.len(),
{
    if s.len() > 0 && (s[0].0 as int) < cutoff {
        1 + leading_older(s.skip(1), cutoff)
    } else {
        0
    }
}

/// Dropping the leading events older than the cutoff leaves no older event
/// in front.
pub proof fn lemma_leading_older<T>(s: Seq<(i64, T)>, cutoff: int)
    ensures
        leading_older(s, cutoff) <= s.len(),
        forall|i: int| 0 <= i < leading_older(s, cutoff) ==> (s[i].0 as int) < cutoff,
        leading_older(s, cutoff) < s.len() ==> (s[leading_older(s, cutoff) as int].0 as int)
            >= cutoff,
    decreases s.len(),
{
    if s.len() > 0 && (s[0].0 as int) < cutoff {
        lemma_leading_older(s.skip(1), cutoff);
        assert forall|i: int| 0 <= i < leading_older(s, cutoff) implies (s[i].0 as int)
            < cutoff by {
            if i > 0 {
                assert(s[i] == s.skip(1)[i - 1]);
            }
        }
    }
}

impl<T> TimeWindow<T> {
    /// An empty window of the given length (milliseconds).
    pub fn new(window_size: u64) -> (r: Self)
        ensures
            r.data@.len() == 0,
            r.window_size == window_size,
    {
        TimeWindow { data: VecDeque::new(), window_size }
    }

    /// Records `value` at `now`, then forgets what fell out of the window.
    pub fn add(&mut self, now: i64, value: T)
        requires
            now - old(self).window_size >= i64::MIN,
        ensures
            final(self).window_size == old(self).window_size,
            ({
                let pushed = old(self).data@.push((now, value));
                final(self).data@ == pushed.skip(
                    leading_older(pushed, now - old(self).window_size) as int,
                )
            }),
    {
        self.data.push_back((now, value));
        self.cleanup(now);
    }

    /// Forgets the leading events that happened before `now - window_size`.
    pub fn cleanup(&mut self, now: i64)
        requires
            now - old(self).window_size >= i64::MIN,
        ensures
            final(self).window_size == old(self).window_size,
            final(self).data@ == old(self).data@.skip(
                leading_older(old(self).data@, now - old(self).window_size) as int,
            ),
    {
        let cutoff: i64 = (now as i128 - self.window_size as i128) as i64;
        let ghost s0 = self.data@;
        let ghost mut k: int = 0;
        proof {
            assert(s0.skip(0) =~= s0);
        }
        while self.data.len() > 0 && self.data[0].0 < cutoff
            invariant
                self.window_size == old(self).window_size,
                s0 == old(self).data@,
                cutoff == now - self.window_size,
                0 <= k <= s0.len(),
                self.data@ == s0.skip(k),
                leading_older(s0, cutoff as int) == k + leading_older(s0.skip(k), cutoff as int),
            decreases self.data@.len(),
        {
            let ghost rest = s0.skip(k);
            self.data.pop_front();
            proof {
                assert(rest.skip(1) =~= s0.skip(k + 1));
                k = k + 1;
            }
        }
        proof {
            assert(leading_older(s0.skip(k), cutoff as int) == 0);
        }
    }
}

/// The next value of a counter that wraps around on overflow.
pub open spec fn wrap_inc(x: u64) -> u64 {
    if x == u64::MAX {
        0
    } else {
        (x + 1) as u64
    }
}

/// A counter after `n` increments.
pub open spec fn wrap_inc_times(x: u64, n: nat) -> u64
    decreases n,
{
    if n == 0 {
        x
    } else {
        wrap_inc(wrap_inc_times(x, (n - 1) as nat))
    }
}

fn inc(x: u64) -> (r: u64)
    ensures
        r == wrap_inc(x),
{
    if x == u64::MAX {
        0
    } else {
        x + 1
    }
}

/// Counters of requests, errors, latencies, cache use, connections and
/// memory of the archiver interface.
#[derive(Debug, Clone)]
pub struct ApiMetrics {
    pub requests_total: u64,
    pub failed_requests: u64,
    pub request_latencies: Vec<u64>,
    pub cache_hits: u64,
    pub cache_misses: u64,
    pub cache_evictions: u64,
    pub cache_memory_usage: u64,
    pub active_connections: usize,
    pub start_time: i64,
    pub last_error: Option<String>,
    pub last_error_time: Option<i64>,
    pub memory_usage: u64,
    pub peak_memory_usage: u64,
    pub gc_count: u64,
    pub latency_window: TimeWindow<u64>,
    pub error_window: TimeWindow<bool>,
}

/// The count of open connections after `n` sessions expire, each
/// decrementing it and wrapping below zero.
pub open spec fn connections_after_expiries(c: usize, n: nat) -> usize
    decreases n,
{
    if n == 0 {
        c
    } else {
        let d = connections_after_expiries(c, (n - 1) as nat);
        if d == 0 {
            usize::MAX
        } else {
            (d - 1) as usize
        }
    }
}

impl ApiMetrics {
    /// Counters at zero, started at `now`, with empty five-minute windows.
    pub open spec fn fresh(self, now: i64) -> bool {
        &&& self.requests_total == 0 && self.failed_requests == 0 && self.cache_hits == 0
        &&& self.cache_misses == 0 && self.cache_evictions == 0 && self.cache_memory_usage == 0
        &&& self.active_connections == 0 && self.memory_usage == 0 && self.peak_memory_usage == 0
        &&& self.gc_count == 0
        &&& self.request_latencies@.len() == 0
        &&& self.start_time == now
        &&& self.last_error is None && self.last_error_time is None
        &&& self.latency_window.data@.len() == 0 && self.latency_window.window_size == 300_000
        &&& self.error_window.data@.len() == 0 && self.error_window.window_size == 300_000
    }

    /// Counters at zero, started at `now`, with five-minute windows.
    pub fn new(now: i64) -> (r: Self)
        ensures
            r.fresh(now),
    {
        ApiMetrics {
            requests_total: 0,
            failed_requests: 0,
            request_latencies: Vec::new(),
            cache_hits: 0,
            cache_misses: 0,
            cache_evictions: 0,
            cache_memory_usage: 0,
            active_connections: 0,
            start_time: now,
            last_error: None,
            last_error_time: None,
            memory_usage: 0,
            peak_memory_usage: 0,
            gc_count: 0,
            latency_window: TimeWindow::new(300_000),
            error_window: TimeWindow::new(300_000),
        }
    }

    /// Forgets the failures: no failed request and no last error.
    pub fn reset_errors(&mut self)
        ensures
            *final(self) == (ApiMetrics {
                failed_requests: 0,
                last_error: None,
                last_error_time: None,
                ..*old(self)
            }),
    {
        self.failed_requests = 0;
        self.last_error = None;
        self.last_error_time = None;
    }

    /// Records the memory in use; the peak is the largest value recorded.
    pub fn update_memory_usage(&mut self, usage: u64)
        ensures
            *final(self) == (ApiMetrics {
                memory_usage: usage,
                peak_memory_usage: if usage > old(self).peak_memory_usage {
                    usage
                } else {
                    old(self).peak_memory_usage
                },
                ..*old(self)
            }),
    {
        self.memory_usage = usage;
        let peak = self.peak_memory_usage;
        if usage > peak {
            self.peak_memory_usage = usage;
        }
    }

    /// Counts a request.
    pub fn record_request(&mut self)
        ensures
            *final(self) == (ApiMetrics {
                requests_total: wrap_inc(old(self).requests_total),
                ..*old(self)
            }),
    {
        self.requests_total = inc(self.requests_total);
    }

    /// Counts a failed request; a message becomes the last error, stamped
    /// `now`; the failure enters the error window.
    pub fn record_error(&mut self, error_msg: Option<String>, now: i64)
        requires
            now - old(self).error_window.window_size >= i64::MIN,
        ensures
            final(self).failed_requests == wrap_inc(old(self).failed_requests),
            match error_msg {
                Some(m) => final(self).last_error == Some(m) && final(self).last_error_time == Some(
                    now,
                ),
                None => final(self).last_error == old(self).last_error
                    && final(self).last_error_time == old(self).last_error_time,
            },
            ({
                let pushed = old(self).error_window.data@.push((now, true));
                final(self).error_window.data@ == pushed.skip(
                    leading_older(pushed, now - old(self).error_window.window_size) as int,
                )
            }),
            final(self).error_window.window_size == old(self).error_window.window_size,
            final(self).requests_total == old(self).requests_total,
            final(self).cache_hits == old(self).cache_hits,
            final(self).cache_misses == old(self).cache_misses,
            final(self).cache_evictions == old(self).cache_evictions,
    {
        self.failed_requests = inc(self.failed_requests);
        match error_msg {
            Some(msg) => {
                self.last_error = Some(msg);
                self.last_error_time = Some(now);
            },
            None => {},
        }
        self.error_window.add(now, true);
    }

    /// Records a latency (bit pattern of `f64` milliseconds) at `now`.
    pub fn record_latency(&mut self, latency_ms: u64, now: i64)
        requires
            now - old(self).latency_window.window_size >= i64::MIN,
        ensures
            final(self).request_latencies@ == old(self).request_latencies@.push(latency_ms),
            ({
                let pushed = old(self).latency_window.data@.push((now, latency_ms));
                final(self).latency_window.data@ == pushed.skip(
                    leading_older(pushed, now - old(self).latency_window.window_size) as int,
                )
            }),
            final(self).latency_window.window_size == old(self).latency_window.window_size,
            final(self).requests_total == old(self).requests_total,
            final(self).failed_requests == old(self).failed_requests,
    {
        self.request_latencies.push(latency_ms);
        self.latency_window.add(now, latency_ms);
    }

    /// Counts a cache hit.
    pub fn record_cache_hit(&mut self)
        ensures
            *final(self) == (ApiMetrics { cache_hits: wrap_inc(old(self).cache_hits), ..*old(self) }),
    {
        self.cache_hits = inc(self.cache_hits);
    }

    /// Counts a cache miss.
    pub fn record_cache_miss(&mut self)
        ensures
            *final(self) == (ApiMetrics {
                cache_misses: wrap_inc(old(self).cache_misses),
                ..*old(self)
            }),
    {
        self.cache_misses = inc(self.cache_misses);
    }

    /// The number of cache hits.
    pub fn get_cache_hits(&self) -> (r: u64)
        ensures
            r == self.cache_hits,
    {
        self.cache_hits
    }

    /// The number of cache misses.
    pub fn get_cache_misses(&self) -> (r: u64)
        ensures
            r == self.cache_misses,
    {
        self.cache_misses
    }

    /// The number of cache evictions.
    pub fn get_cache_evictions(&self) -> (r: u64)
        ensures
            r == self.cache_evictions,
    {
        self.cache_evictions
    }

    /// Counts a cache eviction.
    pub fn record_cache_eviction(&mut self)
        ensures
            *final(self) == (ApiMetrics {
                cache_evictions: wrap_inc(old(self).cache_evictions),
                ..*old(self)
            }),
    {
        self.cache_evictions = inc(self.cache_evictions);
    }

    /// Counts an opened session.
    pub fn record_session_created(&mut self)
        ensures
            *final(self) == (ApiMetrics {
                active_connections: if old(self).active_connections == usize::MAX {
                    0
                } else {
                    (old(self).active_connections + 1) as usize
                },
                ..*old(self)
            }),
    {
        self.active_connections = if self.active_connections == usize::MAX {
            0
        } else {
            self.active_connections + 1
        };
    }

    /// Counts a closed session.
    pub fn record_session_expired(&mut self)
        ensures
            *final(self) == (ApiMetrics {
                active_connections: if old(self).active_connections == 0 {
                    usize::MAX
                } else {
                    (old(self).active_connections - 1) as usize
                },
                ..*old(self)
            }),
    {
        self.active_connections = if self.active_connections == 0 {
            usize::MAX
        } else {
            self.active_connections - 1
        };
    }

    /// The number of collections of expired sessions.
    pub fn get_expired_session_count(&self) -> (r: u64)
        ensures
            r == self.gc_count,
    {
        self.gc_count
    }
}

} // verus!
