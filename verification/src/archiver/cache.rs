//! The response cache of the archiver interface: normalised series and PV
//! metadata, each kept in a `dashmap::DashMap` under a text key, with an
//! expiry instant, a size in bytes and a bounded history of recent hits that
//! guides eviction when the series outgrow the memory budget.
//!
//! Instants are milliseconds since the Unix epoch; the caller reads the clock
//! and hands the instant in.

use vstd::prelude::*;

use std::collections::VecDeque;

use dashmap::DashMap;

use crate::archiver::metrics::{wrap_inc, wrap_inc_times, ApiMetrics};
use crate::archiver::types::{Meta, ProcessedPoint};
use crate::text::{decimal_text, i64_text, push_str, str_eq};

verus! {

broadcast use vstd::set::group_set_axioms;

// ---------------------------------------------------------------------------
// The concurrent map of the `dashmap` crate
// ---------------------------------------------------------------------------

#[verifier::external_type_specification]
#[verifier::external_body]
#[verifier::reject_recursive_types(K)]
#[verifier::reject_recursive_types(V)]
#[verifier::reject_recursive_types(S)]
pub struct ExDashMap<K, V, S>(DashMap<K, V, S>);

/// What a series map holds: each key's text and the entry under it.
pub uninterp spec fn cached_series(
    m: DashMap<String, CacheEntry<Vec<ProcessedPoint>>>,
) -> Map<Seq<char>, CacheEntry<Vec<ProcessedPoint>>>;

/// What a metadata map holds: each PV name and the entry under it.
pub uninterp spec fn cached_metadata(m: DashMap<String, CacheEntry<Meta>>) -> Map<
    Seq<char>,
    CacheEntry<Meta>,
>;

/// `DashMap::new`: a map that holds nothing.
#[verifier::external_body]
fn series_map_new() -> (r: DashMap<String, CacheEntry<Vec<ProcessedPoint>>>)
    ensures
        cached_series(r).dom() == Set::<Seq<char>>::empty(),
{
    DashMap::new()
}

/// `DashMap::get` followed by a clone of the value found: the entry under
/// `key`, if there is one.
#[verifier::external_body]
fn series_map_get(m: &DashMap<String, CacheEntry<Vec<ProcessedPoint>>>, key: &String) -> (r:
    Option<CacheEntry<Vec<ProcessedPoint>>>)
    ensures
        r == (if cached_series(*m).dom().contains(key@) {
            Some(cached_series(*m)[key@])
        } else {
            None
        }),
{
    match m.get(key) {
        Some(e) => Some(e.value().clone()),
        None => None,
    }
}

/// `DashMap::insert`: `key` now maps to `entry`, whatever it mapped to before.
#[verifier::external_body]
fn series_map_insert(
    m: &mut DashMap<String, CacheEntry<Vec<ProcessedPoint>>>,
    key: String,
    entry: CacheEntry<Vec<ProcessedPoint>>,
)
    ensures
        cached_series(*final(m)) == cached_series(*old(m)).insert(key@, entry),
{
    m.insert(key, entry);
}

/// `DashMap::remove`: `key` no longer maps to anything; the result tells
/// whether it did.
#[verifier::external_body]
fn series_map_remove(m: &mut DashMap<String, CacheEntry<Vec<ProcessedPoint>>>, key: &String) -> (r:
    bool)
    ensures
        cached_series(*final(m)) == cached_series(*old(m)).remove(key@),
        r == cached_series(*old(m)).dom().contains(key@),
{
    m.remove(key).is_some()
}

/// `DashMap::len`: the number of keys.
#[verifier::external_body]
fn series_map_len(m: &DashMap<String, CacheEntry<Vec<ProcessedPoint>>>) -> (r: usize)
    ensures
        r == cached_series(*m).dom().len(),
{
    m.len()
}

/// `DashMap::iter`, each key and value cloned: every key once, with its
/// entry, in an order the map chooses.
#[verifier::external_body]
fn series_map_entries(m: &DashMap<String, CacheEntry<Vec<ProcessedPoint>>>) -> (r: Vec<
    (String, CacheEntry<Vec<ProcessedPoint>>),
>)
    ensures
        r@.len() == cached_series(*m).dom().len(),
        forall|i: int|
            0 <= i < r@.len() ==> cached_series(*m).dom().contains(#[trigger] r@[i].0@)
                && cached_series(*m)[r@[i].0@] == r@[i].1,
        forall|k: Seq<char>|
            cached_series(*m).dom().contains(k) ==> exists|i: int|
                0 <= i < r@.len() && #[trigger] r@[i].0@ == k,
        forall|i: int, j: int| 0 <= i < j < r@.len() ==> r@[i].0@ != r@[j].0@,
{
    m.iter().map(|e| (e.key().clone(), e.value().clone())).collect()
}

/// `DashMap::clear`: the map holds nothing.
#[verifier::external_body]
fn series_map_clear(m: &mut DashMap<String, CacheEntry<Vec<ProcessedPoint>>>)
    ensures
        cached_series(*final(m)).dom() == Set::<Seq<char>>::empty(),
{
    m.clear();
}

/// `DashMap::new`: a map that holds nothing.
#[verifier::external_body]
fn metadata_map_new() -> (r: DashMap<String, CacheEntry<Meta>>)
    ensures
        cached_metadata(r).dom() == Set::<Seq<char>>::empty(),
{
    DashMap::new()
}

/// `DashMap::get` followed by a clone of the value found: the entry under
/// `key`, if there is one.
#[verifier::external_body]
fn metadata_map_get(m: &DashMap<String, CacheEntry<Meta>>, key: &String) -> (r: Option<
    CacheEntry<Meta>,
>)
    ensures
        r == (if cached_metadata(*m).dom().contains(key@) {
            Some(cached_metadata(*m)[key@])
        } else {
            None
        }),
{
    match m.get(key) {
        Some(e) => Some(e.value().clone()),
        None => None,
    }
}

/// `DashMap::insert`: `key` now maps to `entry`, whatever it mapped to before.
#[verifier::external_body]
fn metadata_map_insert(m: &mut DashMap<String, CacheEntry<Meta>>, key: String, entry: CacheEntry<Meta>)
    ensures
        cached_metadata(*final(m)) == cached_metadata(*old(m)).insert(key@, entry),
{
    m.insert(key, entry);
}

/// `DashMap::remove`: `key` no longer maps to anything.
#[verifier::external_body]
fn metadata_map_remove(m: &mut DashMap<String, CacheEntry<Meta>>, key: &String)
    ensures
        cached_metadata(*final(m)) == cached_metadata(*old(m)).remove(key@),
{
    m.remove(key);
}

/// `DashMap::len`: the number of keys.
#[verifier::external_body]
fn metadata_map_len(m: &DashMap<String, CacheEntry<Meta>>) -> (r: usize)
    ensures
        r == cached_metadata(*m).dom().len(),
{
    m.len()
}

/// `DashMap::clear`: the map holds nothing.
#[verifier::external_body]
fn metadata_map_clear(m: &mut DashMap<String, CacheEntry<Meta>>)
    ensures
        cached_metadata(*final(m)).dom() == Set::<Seq<char>>::empty(),
{
    m.clear();
}

// ---------------------------------------------------------------------------
// Keys and entries
// ---------------------------------------------------------------------------

/// What identifies a cached series: the PV, the time range and the
/// resolution it was fetched at.
#[derive(Debug, Clone, Hash, PartialEq, Eq)]
pub struct CacheKey {
    pv: String,
    start_time: i64,
    end_time: i64,
    resolution: String,
}

impl View for CacheKey {
    type V = (Seq<char>, i64, i64, Seq<char>);

    closed spec fn view(&self) -> (Seq<char>, i64, i64, Seq<char>) {
        (self.pv@, self.start_time, self.end_time, self.resolution@)
    }
}

/// The text of a key: `pv:start:end:resolution`, the instants in decimal.
pub open spec fn cache_key_text(k: (Seq<char>, i64, i64, Seq<char>)) -> Seq<char> {
    k.0 + ":"@ + decimal_text(k.1 as int) + ":"@ + decimal_text(k.2 as int) + ":"@ + k.3
}

impl CacheKey {
    pub fn new(pv: String, start_time: i64, end_time: i64, resolution: String) -> (r: Self)
        ensures
            r@ == (pv@, start_time, end_time, resolution@),
    {
        CacheKey { pv, start_time, end_time, resolution }
    }

    /// The key's text, under which the series is stored.
    pub fn to_string(&self) -> (r: String)
        ensures
            r@ == cache_key_text(self@),
    {
        let mut r = self.pv.clone();
        push_str(&mut r, ":");
        let s = i64_text(self.start_time);
        push_str(&mut r, s.as_str());
        push_str(&mut r, ":");
        let e = i64_text(self.end_time);
        push_str(&mut r, e.as_str());
        push_str(&mut r, ":");
        push_str(&mut r, self.resolution.as_str());
        proof {
            reveal_strlit(":");
        }
        assert(r@ =~= cache_key_text(self@));
        r
    }
}

/// A cached value: when it was stored or last read, when it expires, and
/// the bytes it is reckoned to take.
#[derive(Debug, Clone)]
pub struct CacheEntry<T> {
    pub data: T,
    pub timestamp: i64,
    pub expires: i64,
    pub size_bytes: u64,
}

/// Counts that describe the cache.
#[derive(Debug, Clone, Copy)]
pub struct CacheStats {
    pub data_entries: usize,
    pub metadata_entries: usize,
    pub total_memory: u64,
    pub max_memory: u64,
    pub hits: u64,
    pub misses: u64,
    pub evictions: u64,
}

// ---------------------------------------------------------------------------
// Sizes
// ---------------------------------------------------------------------------

/// Adds the size of the entry under a key to a running sum.
pub open spec fn add_size(m: Map<Seq<char>, CacheEntry<Vec<ProcessedPoint>>>) -> spec_fn(
    int,
    Seq<char>,
) -> int {
    |acc: int, k: Seq<char>| acc + m[k].size_bytes as int
}

/// The sum of the sizes of the entries under `keys`.
pub open spec fn bytes_of(m: Map<Seq<char>, CacheEntry<Vec<ProcessedPoint>>>, keys: Set<Seq<char>>) -> int {
    keys.fold(0int, add_size(m))
}

/// The sum of the sizes of all the series.
pub open spec fn series_bytes(m: Map<Seq<char>, CacheEntry<Vec<ProcessedPoint>>>) -> int {
    bytes_of(m, m.dom())
}

proof fn lemma_bytes_insert(
    m: Map<Seq<char>, CacheEntry<Vec<ProcessedPoint>>>,
    keys: Set<Seq<char>>,
    k: Seq<char>,
)
    requires
        keys.finite(),
        !keys.contains(k),
    ensures
        bytes_of(m, keys.insert(k)) == bytes_of(m, keys) + m[k].size_bytes,
{
    let f = add_size(m);
    assert(vstd::set::fold::is_fun_commutative(f)) by {
        assert forall|a1: Seq<char>, a2: Seq<char>, b: int| #[trigger] f(f(b, a2), a1) == f(f(b, a1), a2) by {}
    }
    vstd::set::fold::lemma_fold_insert(keys, 0int, f, k);
}

proof fn lemma_bytes_empty(m: Map<Seq<char>, CacheEntry<Vec<ProcessedPoint>>>)
    ensures
        bytes_of(m, Set::empty()) == 0,
{
    vstd::set::fold::lemma_fold_empty(0int, add_size(m));
}

// ---------------------------------------------------------------------------
// Eviction
// ---------------------------------------------------------------------------

/// The keys chosen for eviction, walking the hit history from the most
/// recent hit back: each key still cached is chosen and its size taken off
/// the running total (never below zero), until the total and the new entry
/// fit in `max`. A key hit twice is chosen twice.
pub open spec fn eviction_plan(
    h: Seq<(String, i64)>,
    m: Map<Seq<char>, CacheEntry<Vec<ProcessedPoint>>>,
    current: int,
    new_size: int,
    max: int,
) -> Seq<Seq<char>>
    decreases h.len(),
{
    if h.len() == 0 {
        Seq::empty()
    } else {
        let k = h.last().0@;
        if m.dom().contains(k) {
            let rest = if current >= m[k].size_bytes { current - m[k].size_bytes } else { 0 };
            if rest + new_size <= max {
                seq![k]
            } else {
                seq![k] + eviction_plan(h.drop_last(), m, rest, new_size, max)
            }
        } else {
            eviction_plan(h.drop_last(), m, current, new_size, max)
        }
    }
}

/// The keys evicted to make room for an entry of `new_size` bytes: none when
/// the series and the entry fit in `max`, else the plan above.
pub open spec fn planned_evictions(
    h: Seq<(String, i64)>,
    m: Map<Seq<char>, CacheEntry<Vec<ProcessedPoint>>>,
    new_size: int,
    max: int,
) -> Seq<Seq<char>> {
    if series_bytes(m) + new_size > max {
        eviction_plan(h, m, series_bytes(m), new_size, max)
    } else {
        Seq::empty()
    }
}

/// The number of distinct keys in `s`.
pub open spec fn distinct_count(s: Seq<Seq<char>>) -> nat
    decreases s.len(),
{
    if s.len() == 0 {
        0
    } else {
        distinct_count(s.drop_last()) + if s.drop_last().contains(s.last()) {
            0nat
        } else {
            1nat
        }
    }
}

/// Every key of a plan is cached.
proof fn lemma_plan_cached(
    h: Seq<(String, i64)>,
    m: Map<Seq<char>, CacheEntry<Vec<ProcessedPoint>>>,
    current: int,
    new_size: int,
    max: int,
)
    ensures
        forall|i: int|
            0 <= i < eviction_plan(h, m, current, new_size, max).len() ==> m.dom().contains(
                #[trigger] eviction_plan(h, m, current, new_size, max)[i],
            ),
    decreases h.len(),
{
    if h.len() > 0 {
        let k = h.last().0@;
        if m.dom().contains(k) {
            let rest = if current >= m[k].size_bytes { current - m[k].size_bytes } else { 0 };
            lemma_plan_cached(h.drop_last(), m, rest, new_size, max);
            let p = eviction_plan(h, m, current, new_size, max);
            let q = eviction_plan(h.drop_last(), m, rest, new_size, max);
            assert(p == (if rest + new_size <= max { seq![k] } else { seq![k] + q }));
            assert forall|i: int| 0 <= i < p.len() implies m.dom().contains(#[trigger] p[i]) by {
                if i > 0 {
                    assert(p[i] == q[i - 1]);
                }
            }
        } else {
            lemma_plan_cached(h.drop_last(), m, current, new_size, max);
            assert(eviction_plan(h, m, current, new_size, max) == eviction_plan(
                h.drop_last(),
                m,
                current,
                new_size,
                max,
            ));
        }
    }
}

// ---------------------------------------------------------------------------
// The cache
// ---------------------------------------------------------------------------

/// The number of hits the access history remembers.
pub const ACCESS_HISTORY_LIMIT: usize = 1000;

/// How long a raw series stays valid (milliseconds).
pub const RAW_VALIDITY_MS: i64 = 1_000;

/// How long a binned series stays valid (milliseconds).
pub const BINNED_VALIDITY_MS: i64 = 900_000;

/// How long PV metadata stays valid (milliseconds).
pub const METADATA_VALIDITY_MS: i64 = 3_600_000;

/// How long a series fetched at `resolution` stays valid: a second for raw
/// data, fifteen minutes otherwise.
pub open spec fn series_validity_ms(resolution: Seq<char>) -> i64 {
    if resolution == "raw"@ {
        RAW_VALIDITY_MS
    } else {
        BINNED_VALIDITY_MS
    }
}

/// The history after a hit on `key` at `now`: the hit appended, the oldest
/// hits dropped beyond the limit.
pub open spec fn history_after_hit(h: Seq<(String, i64)>, key: String, now: i64) -> Seq<(String, i64)> {
    let pushed = h.push((key, now));
    if pushed.len() > ACCESS_HISTORY_LIMIT {
        pushed.skip(pushed.len() - ACCESS_HISTORY_LIMIT)
    } else {
        pushed
    }
}

/// Series and metadata of the archiver, cached with their expiry, and the
/// counters the cache reports through.
#[derive(Debug)]
pub struct CacheManager {
    data_cache: DashMap<String, CacheEntry<Vec<ProcessedPoint>>>,
    metadata_cache: DashMap<String, CacheEntry<Meta>>,
    access_history: VecDeque<(String, i64)>,
    max_memory_bytes: u64,
    metrics: ApiMetrics,
}

impl CacheManager {
    /// The cached series, by key text.
    pub closed spec fn series(&self) -> Map<Seq<char>, CacheEntry<Vec<ProcessedPoint>>> {
        cached_series(self.data_cache)
    }

    /// The cached metadata, by PV name.
    pub closed spec fn metadata(&self) -> Map<Seq<char>, CacheEntry<Meta>> {
        cached_metadata(self.metadata_cache)
    }

    /// The recent hits, oldest first: key text and instant.
    pub closed spec fn history(&self) -> Seq<(String, i64)> {
        self.access_history@
    }

    /// The memory budget of the series, in bytes.
    pub closed spec fn max_memory(&self) -> u64 {
        self.max_memory_bytes
    }

    /// The counters the cache updates.
    pub closed spec fn counters(&self) -> ApiMetrics {
        self.metrics
    }

    /// Both maps are finite, the history within its limit, and every
    /// metadata entry is reckoned at the size of one `Meta`.
    pub closed spec fn wf(&self) -> bool {
        &&& self.series().dom().finite()
        &&& self.metadata().dom().finite()
        &&& self.history().len() <= ACCESS_HISTORY_LIMIT
        &&& forall|k: Seq<char>|
            #[trigger] self.metadata().dom().contains(k) ==> self.metadata()[k].size_bytes
                == vstd::layout::size_of::<Meta>()
    }

    /// An empty cache whose series may take `max_memory_mb` mebibytes,
    /// reporting through `metrics`. `max_entries` is the capacity the hit
    /// history starts with.
    pub fn new(max_entries: usize, max_memory_mb: u64, metrics: ApiMetrics) -> (r: Self)
        requires
            max_memory_mb * 1024 * 1024 <= u64::MAX,
        ensures
            r.wf(),
            r.series().dom() == Set::<Seq<char>>::empty(),
            r.metadata().dom() == Set::<Seq<char>>::empty(),
            r.history().len() == 0,
            r.max_memory() == max_memory_mb * 1024 * 1024,
            r.counters() == metrics,
    {
        CacheManager {
            data_cache: series_map_new(),
            metadata_cache: metadata_map_new(),
            access_history: VecDeque::with_capacity(max_entries),
            max_memory_bytes: max_memory_mb * 1024 * 1024,
            metrics,
        }
    }

    /// The counters the cache reports through.
    pub fn metrics(&self) -> (r: &ApiMetrics)
        ensures
            *r == self.counters(),
    {
        &self.metrics
    }

    /// Whether an entry has expired at `now`: at or after its expiry.
    fn is_entry_expired<T>(entry: &CacheEntry<T>, now: i64) -> (r: bool)
        ensures
            r == (now >= entry.expires),
    {
        now >= entry.expires
    }

    /// Stamps a hit on `key` at `now`: the entry's timestamp and the history.
    fn update_access_stats<T>(&mut self, key: &String, entry: &mut CacheEntry<T>, now: i64)
        requires
            old(self).wf(),
        ensures
            final(self).wf(),
            final(self).history() == history_after_hit(old(self).history(), *key, now),
            final(self).series() == old(self).series(),
            final(self).metadata() == old(self).metadata(),
            final(self).max_memory() == old(self).max_memory(),
            final(self).counters() == old(self).counters(),
            *final(entry) == (CacheEntry { timestamp: now, ..*old(entry) }),
    {
        entry.timestamp = now;
        let ghost pushed = self.access_history@.push((*key, now));
        self.access_history.push_back((key.clone(), now));
        assert(self.access_history@ == pushed);
        if self.access_history.len() > ACCESS_HISTORY_LIMIT {
            self.access_history.pop_front();
            assert(self.access_history@ =~= pushed.skip(pushed.len() - ACCESS_HISTORY_LIMIT));
        }
    }

    /// The sum of the sizes of the cached series.
    fn series_total(&self) -> (r: u64)
        requires
            self.wf(),
            series_bytes(self.series()) <= u64::MAX,
        ensures
            r == series_bytes(self.series()),
    {
        self.series_bytes_wide() as u64
    }

    /// Whether a series of `points` points can be stored: its reckoned size
    /// and the sizes of all the series cached fit the machine's integers.
    pub fn can_store(&self, points: usize) -> (r: bool)
        requires
            self.wf(),
        ensures
            r == (vstd::layout::size_of::<ProcessedPoint>() * points <= usize::MAX && series_bytes(
                self.series(),
            ) + vstd::layout::size_of::<ProcessedPoint>() * points <= u64::MAX),
    {
        let size = core::mem::size_of::<ProcessedPoint>() as u128;
        let wanted: u128 = match size.checked_mul(points as u128) {
            Some(w) => w,
            None => return false,
        };
        if wanted > usize::MAX as u128 {
            return false;
        }
        let total = self.series_bytes_wide();
        match total.checked_add(wanted) {
            Some(s) => s <= u64::MAX as u128,
            None => false,
        }
    }

    /// The sum of the sizes of the cached series, in a wider integer.
    fn series_bytes_wide(&self) -> (r: u128)
        requires
            self.wf(),
        ensures
            r == series_bytes(self.series()),
    {
        let entries = series_map_entries(&self.data_cache);
        let ghost m = self.series();
        let ghost mut seen: Set<Seq<char>> = Set::empty();
        proof {
            lemma_bytes_empty(m);
        }
        let mut total: u128 = 0;
        let mut i: usize = 0;
        while i < entries.len()
            invariant
                i <= entries@.len(),
                m == self.series(),
                m.dom().finite(),
                seen.finite(),
                forall|k: Seq<char>|
                    seen.contains(k) <==> exists|j: int| 0 <= j < i && #[trigger] entries@[j].0@ == k,
                forall|j: int|
                    0 <= j < entries@.len() ==> m.dom().contains(#[trigger] entries@[j].0@)
                        && m[entries@[j].0@] == entries@[j].1,
                forall|a: int, b: int| 0 <= a < b < entries@.len() ==> entries@[a].0@ != entries@[b].0@,
                total == bytes_of(m, seen),
                total <= i * 18446744073709551615,
            decreases entries@.len() - i,
        {
            let k = &entries[i].0;
            proof {
                if seen.contains(k@) {
                    let j = choose|j: int| 0 <= j < i && #[trigger] entries@[j].0@ == k@;
                    assert(entries@[j].0@ != entries@[i as int].0@);
                }
                lemma_bytes_insert(m, seen, k@);
                seen = seen.insert(k@);
                assert forall|kk: Seq<char>|
                    seen.contains(kk) <==> exists|j: int|
                        0 <= j < i + 1 && #[trigger] entries@[j].0@ == kk by {
                    if kk == k@ {
                        assert(entries@[i as int].0@ == kk);
                    }
                }
            }
            total = total + entries[i].1.size_bytes as u128;
            i = i + 1;
        }
        proof {
            assert forall|k: Seq<char>| m.dom().contains(k) implies seen.contains(k) by {
                let j = choose|j: int| 0 <= j < entries@.len() && #[trigger] entries@[j].0@ == k;
                assert(entries@[j].0@ == k);
            }
            assert(seen =~= m.dom());
        }
        total
    }

    /// The reckoned size of a series: the size of one point times their
    /// number.
    fn calculate_size(&self, data: &Vec<ProcessedPoint>) -> (r: u64)
        requires
            vstd::layout::size_of::<ProcessedPoint>() * data@.len() <= usize::MAX,
        ensures
            r == vstd::layout::size_of::<ProcessedPoint>() * data@.len(),
    {
        let base_size = core::mem::size_of::<ProcessedPoint>();
        (base_size * data.len()) as u64
    }

    /// The cached series under `key` if it has not expired at `now`: the hit
    /// is stamped on the entry and in the history and counted. An expired
    /// entry is dropped; a miss is counted.
    pub fn lookup_data(&mut self, key: &CacheKey, now: i64) -> (r: Option<Vec<ProcessedPoint>>)
        requires
            old(self).wf(),
        ensures
            final(self).wf(),
            final(self).metadata() == old(self).metadata(),
            final(self).max_memory() == old(self).max_memory(),
            ({
                let k = cache_key_text(key@);
                let e = old(self).series()[k];
                if old(self).series().dom().contains(k) && now < e.expires {
                    &&& r is Some && r->0@ == e.data@
                    &&& final(self).series() == old(self).series().insert(
                        k,
                        CacheEntry { timestamp: now, ..e },
                    )
                    &&& exists|s: String|
                        s@ == k && final(self).history() == history_after_hit(
                            old(self).history(),
                            s,
                            now,
                        )
                    &&& final(self).counters() == (ApiMetrics {
                        cache_hits: wrap_inc(old(self).counters().cache_hits),
                        ..old(self).counters()
                    })
                } else {
                    &&& r is None
                    &&& final(self).series() == old(self).series().remove(k)
                    &&& final(self).history() == old(self).history()
                    &&& final(self).counters() == (ApiMetrics {
                        cache_misses: wrap_inc(old(self).counters().cache_misses),
                        ..old(self).counters()
                    })
                }
            }),
    {
        let cache_key = key.to_string();
        match series_map_get(&self.data_cache, &cache_key) {
            Some(mut entry) => {
                if !Self::is_entry_expired(&entry, now) {
                    self.update_access_stats(&cache_key, &mut entry, now);
                    let data = entry.data.clone();
                    proof {
                        assert(data@ =~= entry.data@);
                    }
                    let ghost hit_key = cache_key;
                    series_map_insert(&mut self.data_cache, cache_key, entry);
                    self.metrics.record_cache_hit();
                    assert(hit_key@ == cache_key_text(key@));
                    return Some(data);
                }
                series_map_remove(&mut self.data_cache, &cache_key);
            },
            None => {
                proof {
                    assert(self.series().remove(cache_key@) =~= self.series());
                }
            },
        }
        self.metrics.record_cache_miss();
        None
    }

    /// Stores a series fetched at `resolution` under `key` at `now`, valid
    /// for the resolution's period, reckoned at the size of its points, and
    /// evicting first as the memory budget asks.
    pub fn store_data(&mut self, key: &CacheKey, data: Vec<ProcessedPoint>, resolution: &str, now: i64)
        requires
            old(self).wf(),
            now + BINNED_VALIDITY_MS <= i64::MAX,
            vstd::layout::size_of::<ProcessedPoint>() * data@.len() <= usize::MAX,
            series_bytes(old(self).series()) + vstd::layout::size_of::<ProcessedPoint>()
                * data@.len() <= u64::MAX,
        ensures
            final(self).wf(),
            ({
                let e = CacheEntry {
                    data: data,
                    timestamp: now,
                    expires: (now + series_validity_ms(resolution@)) as i64,
                    size_bytes: (vstd::layout::size_of::<ProcessedPoint>() * data@.len()) as u64,
                };
                let plan = planned_evictions(
                    old(self).history(),
                    old(self).series(),
                    e.size_bytes as int,
                    old(self).max_memory() as int,
                );
                &&& final(self).series() == old(self).series().remove_keys(plan.to_set()).insert(
                    cache_key_text(key@),
                    e,
                )
                &&& final(self).counters() == (ApiMetrics {
                    cache_evictions: wrap_inc_times(
                        old(self).counters().cache_evictions,
                        distinct_count(plan),
                    ),
                    ..old(self).counters()
                })
            }),
            final(self).metadata() == old(self).metadata(),
            final(self).history() == old(self).history(),
            final(self).max_memory() == old(self).max_memory(),
    {
        let cache_key = key.to_string();
        proof {
            reveal_strlit("raw");
        }
        let validity: i64 = if str_eq(resolution, "raw") {
            RAW_VALIDITY_MS
        } else {
            BINNED_VALIDITY_MS
        };
        let size_bytes = self.calculate_size(&data);
        let entry = CacheEntry { data, timestamp: now, expires: now + validity, size_bytes };
        self.store_with_memory_check(cache_key, entry);
    }

    /// The cached metadata of `pv` if it has not expired at `now`: the hit
    /// is stamped on the entry and in the history and counted. An expired
    /// entry is dropped; a miss is counted.
    pub fn lookup_metadata(&mut self, pv: &str, now: i64) -> (r: Option<Meta>)
        requires
            old(self).wf(),
        ensures
            final(self).wf(),
            final(self).series() == old(self).series(),
            final(self).max_memory() == old(self).max_memory(),
            ({
                let e = old(self).metadata()[pv@];
                if old(self).metadata().dom().contains(pv@) && now < e.expires {
                    &&& r == Some(e.data)
                    &&& final(self).metadata() == old(self).metadata().insert(
                        pv@,
                        CacheEntry { timestamp: now, ..e },
                    )
                    &&& exists|s: String|
                        s@ == pv@ && final(self).history() == history_after_hit(
                            old(self).history(),
                            s,
                            now,
                        )
                    &&& final(self).counters() == (ApiMetrics {
                        cache_hits: wrap_inc(old(self).counters().cache_hits),
                        ..old(self).counters()
                    })
                } else {
                    &&& r is None
                    &&& final(self).metadata() == old(self).metadata().remove(pv@)
                    &&& final(self).history() == old(self).history()
                    &&& final(self).counters() == (ApiMetrics {
                        cache_misses: wrap_inc(old(self).counters().cache_misses),
                        ..old(self).counters()
                    })
                }
            }),
    {
        let mut key = String::new();
        push_str(&mut key, pv);
        match metadata_map_get(&self.metadata_cache, &key) {
            Some(mut entry) => {
                if !Self::is_entry_expired(&entry, now) {
                    self.update_access_stats(&key, &mut entry, now);
                    let meta = entry.data.copied();
                    let ghost hit_key = key;
                    metadata_map_insert(&mut self.metadata_cache, key, entry);
                    self.metrics.record_cache_hit();
                    assert(hit_key@ == pv@);
                    return Some(meta);
                }
                metadata_map_remove(&mut self.metadata_cache, &key);
            },
            None => {
                proof {
                    assert(self.metadata().remove(key@) =~= self.metadata());
                }
            },
        }
        self.metrics.record_cache_miss();
        None
    }

    /// Stores the metadata of `pv` at `now`, valid for an hour and reckoned
    /// at the size of one `Meta`.
    pub fn store_metadata(&mut self, pv: &str, meta: Meta, now: i64)
        requires
            old(self).wf(),
            now + METADATA_VALIDITY_MS <= i64::MAX,
        ensures
            final(self).wf(),
            final(self).metadata() == old(self).metadata().insert(
                pv@,
                CacheEntry {
                    data: meta,
                    timestamp: now,
                    expires: (now + METADATA_VALIDITY_MS) as i64,
                    size_bytes: vstd::layout::size_of::<Meta>() as u64,
                },
            ),
            final(self).series() == old(self).series(),
            final(self).history() == old(self).history(),
            final(self).max_memory() == old(self).max_memory(),
            final(self).counters() == old(self).counters(),
    {
        let mut key = String::new();
        push_str(&mut key, pv);
        let entry = CacheEntry {
            data: meta,
            timestamp: now,
            expires: now + METADATA_VALIDITY_MS,
            size_bytes: core::mem::size_of::<Meta>() as u64,
        };
        metadata_map_insert(&mut self.metadata_cache, key, entry);
    }

    /// Entry counts, bytes in use (series summed, metadata reckoned at the
    /// size of one `Meta` each), the budget and the hit, miss and eviction
    /// counters.
    pub fn get_stats(&self) -> (r: CacheStats)
        requires
            self.wf(),
            series_bytes(self.series()) + self.metadata().len() * vstd::layout::size_of::<Meta>()
                <= u64::MAX,
        ensures
            r.data_entries == self.series().len(),
            r.metadata_entries == self.metadata().len(),
            r.total_memory == series_bytes(self.series()) + self.metadata().len()
                * vstd::layout::size_of::<Meta>(),
            r.max_memory == self.max_memory(),
            r.hits == self.counters().cache_hits,
            r.misses == self.counters().cache_misses,
            r.evictions == self.counters().cache_evictions,
    {
        let data_entries = series_map_len(&self.data_cache);
        let metadata_entries = metadata_map_len(&self.metadata_cache);
        proof {
            vstd::arithmetic::mul::lemma_mul_inequality(
                0,
                metadata_entries as int,
                vstd::layout::size_of::<Meta>() as int,
            );
        }
        let series = self.series_total();
        let meta_size = core::mem::size_of::<Meta>() as u64;
        let meta_total = (metadata_entries as u64) * meta_size;
        CacheStats {
            data_entries,
            metadata_entries,
            total_memory: series + meta_total,
            max_memory: self.max_memory_bytes,
            hits: self.metrics.get_cache_hits(),
            misses: self.metrics.get_cache_misses(),
            evictions: self.metrics.get_cache_evictions(),
        }
    }

    /// Empties both maps and the hit history.
    pub fn clear(&mut self)
        requires
            old(self).wf(),
        ensures
            final(self).wf(),
            final(self).series().dom() == Set::<Seq<char>>::empty(),
            final(self).metadata().dom() == Set::<Seq<char>>::empty(),
            final(self).history().len() == 0,
            final(self).max_memory() == old(self).max_memory(),
            final(self).counters() == old(self).counters(),
    {
        series_map_clear(&mut self.data_cache);
        metadata_map_clear(&mut self.metadata_cache);
        self.access_history.clear();
    }

    /// Stores `entry` under `key`, first evicting, when the series and the
    /// entry would outgrow the budget, the keys of the eviction plan; each
    /// key evicted is counted once.
    fn store_with_memory_check(&mut self, key: String, entry: CacheEntry<Vec<ProcessedPoint>>)
        requires
            old(self).wf(),
            series_bytes(old(self).series()) + entry.size_bytes <= u64::MAX,
        ensures
            final(self).wf(),
            ({
                let plan = planned_evictions(
                    old(self).history(),
                    old(self).series(),
                    entry.size_bytes as int,
                    old(self).max_memory() as int,
                );
                &&& final(self).series() == old(self).series().remove_keys(plan.to_set()).insert(
                    key@,
                    entry,
                )
                &&& final(self).counters() == (ApiMetrics {
                    cache_evictions: wrap_inc_times(
                        old(self).counters().cache_evictions,
                        distinct_count(plan),
                    ),
                    ..old(self).counters()
                })
            }),
            final(self).metadata() == old(self).metadata(),
            final(self).history() == old(self).history(),
            final(self).max_memory() == old(self).max_memory(),
    {
        let ghost m = self.series();
        let ghost h = self.history();
        let ghost ns = entry.size_bytes as int;
        let ghost max = self.max_memory_bytes as int;
        let ghost plan = planned_evictions(h, m, ns, max);
        let new_size = entry.size_bytes;
        let total = self.series_total();
        if total + new_size > self.max_memory_bytes {
            let mut current_size = total;
            let mut to_remove: Vec<String> = Vec::new();
            let mut j: usize = self.access_history.len();
            let mut done = false;
            proof {
                assert(h.take(j as int) =~= h);
                assert(to_remove@.map_values(|s: String| s@) =~= Seq::<Seq<char>>::empty());
                assert(Seq::<Seq<char>>::empty() + eviction_plan(h, m, total as int, ns, max)
                    =~= eviction_plan(h, m, total as int, ns, max));
            }
            while j > 0 && !done
                invariant
                    j <= h.len(),
                    h == self.history(),
                    m == self.series(),
                    self.wf(),
                    ns == new_size,
                    max == self.max_memory_bytes,
                    current_size <= total,
                    total + new_size <= u64::MAX,
                    plan == eviction_plan(h, m, total as int, ns, max),
                    to_remove@.map_values(|s: String| s@) + (if done {
                        Seq::<Seq<char>>::empty()
                    } else {
                        eviction_plan(h.take(j as int), m, current_size as int, ns, max)
                    }) == plan,
                decreases j,
            {
                let ghost before = to_remove@.map_values(|s: String| s@);
                let ghost ht = h.take(j as int);
                j = j - 1;
                let k = self.access_history[j].0.clone();
                proof {
                    assert(ht.drop_last() =~= h.take(j as int));
                    assert(ht.last() == h[j as int]);
                }
                match series_map_get(&self.data_cache, &k) {
                    Some(e) => {
                        let ghost rest_before = current_size;
                        to_remove.push(k);
                        current_size = current_size.saturating_sub(e.size_bytes);
                        if current_size + new_size <= self.max_memory_bytes {
                            done = true;
                        }
                        proof {
                            assert(to_remove@.map_values(|s: String| s@) =~= before.push(k@));
                            if done {
                                assert(before.push(k@) =~= before + seq![k@]);
                            } else {
                                assert(before.push(k@) + eviction_plan(
                                    h.take(j as int),
                                    m,
                                    current_size as int,
                                    ns,
                                    max,
                                ) =~= before + (seq![k@] + eviction_plan(
                                    h.take(j as int),
                                    m,
                                    current_size as int,
                                    ns,
                                    max,
                                )));
                            }
                        }
                    },
                    None => {},
                }
            }
            proof {
                if !done {
                    assert(h.take(0) =~= Seq::<(String, i64)>::empty());
                }
                assert(to_remove@.map_values(|s: String| s@) =~= plan);
                lemma_plan_cached(h, m, total as int, ns, max);
            }
            let ghost ev0 = self.metrics.cache_evictions;
            let ghost c0 = self.metrics;
            let mut idx: usize = 0;
            while idx < to_remove.len()
                invariant
                    idx <= to_remove@.len(),
                    to_remove@.map_values(|s: String| s@) == plan,
                    forall|i: int| 0 <= i < plan.len() ==> m.dom().contains(#[trigger] plan[i]),
                    m.dom().finite(),
                    self.series() == m.remove_keys(plan.take(idx as int).to_set()),
                    self.metrics == (ApiMetrics {
                        cache_evictions: wrap_inc_times(ev0, distinct_count(plan.take(idx as int))),
                        ..c0
                    }),
                    self.metadata() == old(self).metadata(),
                    self.history() == h,
                    self.max_memory_bytes == max,
                    self.wf(),
                decreases to_remove@.len() - idx,
            {
                let ghost pre = plan.take(idx as int);
                let ghost k = plan[idx as int];
                assert(to_remove@[idx as int]@ == k);
                let removed = series_map_remove(&mut self.data_cache, &to_remove[idx]);
                proof {
                    assert(pre.to_set().contains(k) == pre.contains(k));
                    assert(removed == !pre.contains(k));
                    let post = plan.take(idx + 1);
                    assert(post.drop_last() =~= pre);
                    assert(post.last() == k);
                    assert(post.to_set() =~= pre.to_set().insert(k)) by {
                        assert forall|x: Seq<char>| post.to_set().contains(x) == pre.to_set().insert(k).contains(x) by {
                            if post.contains(x) {
                                let t = choose|t: int| 0 <= t < post.len() && post[t] == x;
                                if t < idx {
                                    assert(pre[t] == x);
                                }
                            }
                            if pre.contains(x) {
                                let t = choose|t: int| 0 <= t < pre.len() && pre[t] == x;
                                assert(post[t] == x);
                            }
                            if x == k {
                                assert(post[idx as int] == x);
                            }
                        }
                    }
                    assert(m.remove_keys(pre.to_set()).remove(k) =~= m.remove_keys(post.to_set()));
                }
                if removed {
                    self.metrics.record_cache_eviction();
                }
                idx = idx + 1;
            }
            proof {
                assert(plan.take(plan.len() as int) =~= plan);
            }
        } else {
            proof {
                assert(plan.to_set() =~= Set::<Seq<char>>::empty());
                assert(m.remove_keys(plan.to_set()) =~= m);
            }
        }
        series_map_insert(&mut self.data_cache, key, entry);
    }
}

// ---------------------------------------------------------------------------
// Laws
// ---------------------------------------------------------------------------

/// Every key of an eviction plan was hit recently and is cached.
pub proof fn lemma_plan_from_history(
    h: Seq<(String, i64)>,
    m: Map<Seq<char>, CacheEntry<Vec<ProcessedPoint>>>,
    current: int,
    new_size: int,
    max: int,
)
    ensures
        forall|i: int|
            #![trigger eviction_plan(h, m, current, new_size, max)[i]]
            0 <= i < eviction_plan(h, m, current, new_size, max).len() ==> exists|j: int|
                0 <= j < h.len() && #[trigger] h[j].0@ == eviction_plan(
                    h,
                    m,
                    current,
                    new_size,
                    max,
                )[i],
    decreases h.len(),
{
    if h.len() > 0 {
        let k = h.last().0@;
        let p = eviction_plan(h, m, current, new_size, max);
        let rest = if m.dom().contains(k) && current >= m[k].size_bytes {
            current - m[k].size_bytes
        } else if m.dom().contains(k) {
            0
        } else {
            current
        };
        lemma_plan_from_history(h.drop_last(), m, rest, new_size, max);
        let q = eviction_plan(h.drop_last(), m, rest, new_size, max);
        assert forall|i: int| #![trigger p[i]] 0 <= i < p.len() implies exists|j: int|
            0 <= j < h.len() && #[trigger] h[j].0@ == p[i] by {
            if m.dom().contains(k) {
                assert(p == (if rest + new_size <= max { seq![k] } else { seq![k] + q }));
                if i == 0 {
                    assert(h[h.len() - 1].0@ == p[i]);
                } else {
                    let j = choose|j: int|
                        0 <= j < h.drop_last().len() && #[trigger] h.drop_last()[j].0@ == q[i - 1];
                    assert(h[j].0@ == p[i]);
                }
            } else {
                assert(p == q);
                let j = choose|j: int|
                    0 <= j < h.drop_last().len() && #[trigger] h.drop_last()[j].0@ == q[i];
                assert(h[j].0@ == p[i]);
            }
        }
    }
}

/// Storing a series, then looking its key up before the entry expires,
/// finds what was stored: the stored entry is in the map whatever was
/// evicted to make room for it, and only keys that were cached and hit
/// recently are evicted; every other entry stays as it was.
pub proof fn law_store_then_lookup(
    m: Map<Seq<char>, CacheEntry<Vec<ProcessedPoint>>>,
    h: Seq<(String, i64)>,
    max: u64,
    k: Seq<char>,
    e: CacheEntry<Vec<ProcessedPoint>>,
    later: i64,
)
    requires
        later < e.expires,
    ensures
        ({
            let plan = planned_evictions(h, m, e.size_bytes as int, max as int);
            let after = m.remove_keys(plan.to_set()).insert(k, e);
            &&& after.dom().contains(k) && after[k] == e && later < after[k].expires
            &&& forall|x: Seq<char>|
                #![trigger after.dom().contains(x)]
                m.dom().contains(x) && !after.dom().contains(x) ==> exists|j: int|
                    0 <= j < h.len() && #[trigger] h[j].0@ == x
            &&& forall|x: Seq<char>|
                #![trigger after.dom().contains(x)]
                m.dom().contains(x) && x != k && !plan.contains(x) ==> after.dom().contains(x)
                    && after[x] == m[x]
        }),
{
    let plan = planned_evictions(h, m, e.size_bytes as int, max as int);
    let after = m.remove_keys(plan.to_set()).insert(k, e);
    if series_bytes(m) + e.size_bytes > max {
        lemma_plan_from_history(h, m, series_bytes(m), e.size_bytes as int, max as int);
    }
    assert forall|x: Seq<char>|
        #![trigger after.dom().contains(x)]
        m.dom().contains(x) && !after.dom().contains(x) implies exists|j: int|
            0 <= j < h.len() && #[trigger] h[j].0@ == x by {
        assert(plan.to_set().contains(x));
        let i = choose|i: int| 0 <= i < plan.len() && plan[i] == x;
        assert(plan[i] == x);
    }
}

} // verus!
