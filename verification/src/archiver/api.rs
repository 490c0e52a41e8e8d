//! The request logic of the archiver interface: time ranges and processing
//! levels, request URLs and their queries, the normalisation of returned
//! series, how the answers for several PVs combine, and the cache of
//! normalised series. The transport, the tasks and the statistics (floating
//! point) belong to the application.

use vstd::prelude::*;

use dashmap::DashMap;

use crate::archiver::constants::{api_config, errors};
use crate::archiver::types::{
    DataFormat, DataOperator, NormalizedPVData, PVData, Point, PointValue, ProcessedPoint, TimeRange,
    Value,
};
use crate::calendar::{
    now_millis, rfc3339_utc_millis, rfc3339_zoned_millis, utc_rfc3339_of_millis,
    zoned_rfc3339_of_millis,
};
use crate::client::{pair_views, serialized_url, url_with_query};
use crate::text::{concat2, concat3, decimal_text, i64_text, push_str};

verus! {

broadcast use vstd::string::group_string_axioms;

// ---------------------------------------------------------------------------
// Time ranges and processing levels
// ---------------------------------------------------------------------------

/// How the time range of a request is chosen. Instants are seconds since
/// the Unix epoch; the rolling duration is in whole seconds.
#[derive(Debug)]
pub enum TimeRangeMode {
    Fixed { start: i64, end: i64 },
    Rolling { duration: u64, end: Option<i64> },
    Live { base_mode: Box<TimeRangeMode>, last_update: i64 },
}

impl TimeRangeMode {
    /// The range at `now`: a fixed range as given; a rolling one ending at
    /// its end, or at `now` without one, and starting its duration earlier;
    /// a live one as its base. `None` where the start does not fit an `i64`.
    pub open spec fn spec_range(self, now: i64) -> Option<(i64, i64)>
        decreases self,
    {
        match self {
            TimeRangeMode::Fixed { start, end } => Some((start, end)),
            TimeRangeMode::Rolling { duration, end } => {
                let e: i64 = match end {
                    Some(t) => t,
                    None => now,
                };
                let d: i64 = duration as i64;
                if i64::MIN <= e - d <= i64::MAX {
                    Some(((e - d) as i64, e))
                } else {
                    None
                }
            },
            TimeRangeMode::Live { base_mode, .. } => base_mode.spec_range(now),
        }
    }

    /// The range at `now` (seconds).
    pub fn get_range_at(&self, now: i64) -> (r: Option<(i64, i64)>)
        ensures
            r == self.spec_range(now),
        decreases self,
    {
        match self {
            TimeRangeMode::Fixed { start, end } => Some((*start, *end)),
            TimeRangeMode::Rolling { duration, end } => {
                let e: i64 = match end {
                    Some(t) => *t,
                    None => now,
                };
                let d: i64 = *duration as i64;
                match e.checked_sub(d) {
                    Some(start) => Some((start, e)),
                    None => None,
                }
            },
            TimeRangeMode::Live { base_mode, .. } => base_mode.get_range_at(now),
        }
    }

    /// The range now, by the machine's clock in seconds.
    pub fn get_range(&self) -> (r: Option<(i64, i64)>)
        ensures
            exists|now: i64| r == self.spec_range(now),
    {
        let now = now_seconds();
        self.get_range_at(now)
    }
}

/// The whole seconds of an instant of `ms` milliseconds, rounded down.
pub fn seconds_of_millis(ms: i64) -> (r: i64)
    ensures
        r == ms as int / 1000,
{
    if ms >= 0 {
        ms / 1000
    } else {
        (ms + 1) / 1000 - 1
    }
}

/// The machine's clock in whole seconds since the Unix epoch, rounded down.
pub fn now_seconds() -> (r: i64)
    ensures
        i64::MIN / 1000 - 1 <= r <= i64::MAX / 1000,
{
    let ms = now_millis();
    seconds_of_millis(ms)
}

/// A request for the series of one PV.
#[derive(Debug, Clone)]
pub struct DataRequest {
    pub pv: String,
    pub range: TimeRange,
    pub operator: DataOperator,
    pub format: DataFormat,
    pub timezone: Option<String>,
}

/// The binning of the automatic level for a range of `duration` seconds:
/// raw data up to a day, one-minute means up to a week, fifteen-minute means
/// up to thirty days, one-hour means beyond.
pub open spec fn auto_operator(duration: i64) -> DataOperator {
    if duration <= 86_400 {
        DataOperator::Raw
    } else if duration <= 604_800 {
        DataOperator::Mean(Some(60))
    } else if duration <= 2_592_000 {
        DataOperator::Mean(Some(900))
    } else {
        DataOperator::Mean(Some(3600))
    }
}

/// How much a requested series is processed on the server.
#[derive(Debug, Clone, Copy)]
pub enum OptimizationLevel {
    Raw,
    Optimized(i32),
    Auto,
    Mean(i32),
    FirstSample(i32),
    LastSample(i32),
    Min(i32),
    Max(i32),
}

impl OptimizationLevel {
    /// The operator of a level over a range of `duration` seconds: raw as
    /// raw; the automatic level bins by the length of the range, raw data up
    /// to a day, one-minute bins up to a week, fifteen-minute bins up to
    /// thirty days and one-hour bins beyond; the others as the operator of
    /// the same name with their number.
    pub open spec fn spec_operator(self, duration: i64) -> DataOperator {
        match self {
            OptimizationLevel::Raw => DataOperator::Raw,
            OptimizationLevel::Optimized(points) => DataOperator::Optimized(points),
            OptimizationLevel::Auto => auto_operator(duration),
            OptimizationLevel::Mean(i) => DataOperator::Mean(Some(i)),
            OptimizationLevel::FirstSample(i) => DataOperator::FirstSample(Some(i)),
            OptimizationLevel::LastSample(i) => DataOperator::LastSample(Some(i)),
            OptimizationLevel::Min(i) => DataOperator::Min(Some(i)),
            OptimizationLevel::Max(i) => DataOperator::Max(Some(i)),
        }
    }

    /// The operator of the level over a range of `duration` seconds; the
    /// target number of points plays no part.
    pub fn get_operator(&self, duration: i64, _target_points: Option<i32>) -> (r: DataOperator)
        ensures
            r == self.spec_operator(duration),
    {
        match self {
            OptimizationLevel::Raw => DataOperator::Raw,
            OptimizationLevel::Optimized(points) => DataOperator::Optimized(*points),
            OptimizationLevel::Auto => {
                if duration <= 86_400 {
                    DataOperator::Raw
                } else if duration <= 604_800 {
                    DataOperator::Mean(Some(60))
                } else if duration <= 2_592_000 {
                    DataOperator::Mean(Some(900))
                } else {
                    DataOperator::Mean(Some(3600))
                }
            },
            OptimizationLevel::Mean(i) => DataOperator::Mean(Some(*i)),
            OptimizationLevel::FirstSample(i) => DataOperator::FirstSample(Some(*i)),
            OptimizationLevel::LastSample(i) => DataOperator::LastSample(Some(*i)),
            OptimizationLevel::Min(i) => DataOperator::Min(Some(*i)),
            OptimizationLevel::Max(i) => DataOperator::Max(Some(*i)),
        }
    }

    /// The level as `Debug` writes it, such as `Mean(60)`.
    pub open spec fn spec_debug_text(self) -> Seq<char> {
        match self {
            OptimizationLevel::Raw => "Raw"@,
            OptimizationLevel::Optimized(n) => "Optimized("@ + decimal_text(n as int) + ")"@,
            OptimizationLevel::Auto => "Auto"@,
            OptimizationLevel::Mean(n) => "Mean("@ + decimal_text(n as int) + ")"@,
            OptimizationLevel::FirstSample(n) => "FirstSample("@ + decimal_text(n as int) + ")"@,
            OptimizationLevel::LastSample(n) => "LastSample("@ + decimal_text(n as int) + ")"@,
            OptimizationLevel::Min(n) => "Min("@ + decimal_text(n as int) + ")"@,
            OptimizationLevel::Max(n) => "Max("@ + decimal_text(n as int) + ")"@,
        }
    }

    /// The level as `Debug` writes it.
    pub fn debug_text(&self) -> (r: String)
        ensures
            r@ == self.spec_debug_text(),
    {
        match self {
            OptimizationLevel::Raw => String::from_str("Raw"),
            OptimizationLevel::Optimized(n) => with_number("Optimized(", *n),
            OptimizationLevel::Auto => String::from_str("Auto"),
            OptimizationLevel::Mean(n) => with_number("Mean(", *n),
            OptimizationLevel::FirstSample(n) => with_number("FirstSample(", *n),
            OptimizationLevel::LastSample(n) => with_number("LastSample(", *n),
            OptimizationLevel::Min(n) => with_number("Min(", *n),
            OptimizationLevel::Max(n) => with_number("Max(", *n),
        }
    }
}

/// `head`, the decimal text of `n` and a closing parenthesis.
fn with_number(head: &str, n: i32) -> (r: String)
    ensures
        r@ == head@ + decimal_text(n as int) + ")"@,
{
    let digits = i64_text(n as i64);
    concat3(head, digits.as_str(), ")")
}

/// The key of a cached series: `pv:start:end:` and the level as `Debug`
/// writes it.
pub open spec fn series_key_text(pv: Seq<char>, start: i64, end: i64, level: OptimizationLevel) -> Seq<char> {
    pv + ":"@ + decimal_text(start as int) + ":"@ + decimal_text(end as int) + ":"@
        + level.spec_debug_text()
}

/// The key under which a series of `pv` over `start..end` at `level` is
/// cached.
pub fn series_key(pv: &str, start: i64, end: i64, level: OptimizationLevel) -> (r: String)
    ensures
        r@ == series_key_text(pv@, start, end, level),
{
    let mut r = concat2(pv, ":");
    let s = i64_text(start);
    push_str(&mut r, s.as_str());
    push_str(&mut r, ":");
    let e = i64_text(end);
    push_str(&mut r, e.as_str());
    push_str(&mut r, ":");
    let l = level.debug_text();
    push_str(&mut r, l.as_str());
    proof {
        reveal_strlit(":");
    }
    assert(r@ =~= series_key_text(pv@, start, end, level));
    r
}

// ---------------------------------------------------------------------------
// Dates and URLs
// ---------------------------------------------------------------------------

/// The RFC 3339 text of the instant `ms` milliseconds after the epoch: in
/// the named zone where there is one that chrono-tz knows, else in UTC.
/// `None` where chrono cannot represent the instant.
pub open spec fn formatted_date(ms: int, timezone: Option<Seq<char>>) -> Option<Seq<char>> {
    match timezone {
        Some(z) => match zoned_rfc3339_of_millis(ms, z) {
            Some(t) => Some(t),
            None => utc_rfc3339_of_millis(ms),
        },
        None => utc_rfc3339_of_millis(ms),
    }
}

/// The views of an optional zone name.
pub open spec fn zone_view(timezone: Option<&str>) -> Option<Seq<char>> {
    match timezone {
        Some(z) => Some(z@),
        None => None,
    }
}

/// The RFC 3339 text of an instant in milliseconds, in the named zone where
/// chrono-tz knows it, else in UTC.
pub fn format_date(timestamp_ms: i64, timezone: Option<&str>) -> (r: Option<String>)
    ensures
        match formatted_date(timestamp_ms as int, zone_view(timezone)) {
            Some(t) => r matches Some(s) && s@ == t,
            None => r is None,
        },
{
    match timezone {
        Some(z) => match rfc3339_zoned_millis(timestamp_ms, z) {
            Some(t) => Some(t),
            None => rfc3339_utc_millis(timestamp_ms),
        },
        None => rfc3339_utc_millis(timestamp_ms),
    }
}

/// The URL of `endpoint` under `base` with the given query, or the
/// invalid-URL message.
pub open spec fn endpoint_url(base: Seq<char>, endpoint: Seq<char>, params: Seq<(Seq<char>, Seq<char>)>) -> Result<Seq<char>, Seq<char>> {
    match serialized_url(base + "/"@ + endpoint, params) {
        Ok(u) => Ok(u),
        Err(m) => Err("Invalid URL: "@ + m),
    }
}

/// The URL of `endpoint` under `base_url` with the query `params`.
pub fn build_url(base_url: &str, endpoint: &str, params: &Vec<(String, String)>) -> (r: Result<String, String>)
    ensures
        match endpoint_url(base_url@, endpoint@, pair_views(params@)) {
            Ok(u) => r matches Ok(s) && s@ == u,
            Err(m) => r matches Err(e) && e@ == m,
        },
{
    let text = concat3(base_url, "/", endpoint);
    match url_with_query(text.as_str(), params) {
        Ok(u) => Ok(u),
        Err(m) => Err(concat2("Invalid URL: ", m.as_str())),
    }
}


/// Whether a textual result holds the texts of `t`.
pub open spec fn texts_match(r: Result<String, String>, t: Result<Seq<char>, Seq<char>>) -> bool {
    match (r, t) {
        (Ok(s), Ok(u)) => s@ == u,
        (Err(e), Err(m)) => e@ == m,
        _ => false,
    }
}

/// A name/value pair of a query.
fn pair(name: &str, value: &str) -> (r: (String, String))
    ensures
        r.0@ == name@,
        r.1@ == value@,
{
    (String::from_str(name), String::from_str(value))
}

/// The PV as a request names it: wrapped in the operator, as in
/// `mean_60(PV)`, where the operator bins, else bare.
pub open spec fn operator_pv_text(pv: Seq<char>, operator: DataOperator) -> Seq<char> {
    if operator.spec_supports_binning() {
        operator.spec_to_string() + "("@ + pv + ")"@
    } else {
        pv
    }
}

/// The PV as a request names it under `operator`.
pub fn operator_pv_query(pv: &str, operator: &DataOperator) -> (r: String)
    ensures
        r@ == operator_pv_text(pv@, *operator),
{
    if operator.supports_binning() {
        let mut r = operator.to_string();
        push_str(&mut r, "(");
        push_str(&mut r, pv);
        push_str(&mut r, ")");
        r
    } else {
        String::from_str(pv)
    }
}

/// The query pairs for a zone, where one is named.
pub open spec fn zone_pairs(timezone: Option<Seq<char>>) -> Seq<(Seq<char>, Seq<char>)> {
    match timezone {
        Some(z) => seq![("timeZone"@, z)],
        None => Seq::empty(),
    }
}

/// The URL of a request for the series of `pv` under `operator` from
/// `start` to `end` (seconds), dates in the zone where one is named: an
/// invalid-time-range error where a date cannot be written.
pub open spec fn data_request(base: Seq<char>, pv: Seq<char>, start: i64, end: i64, operator: DataOperator, timezone: Option<Seq<char>>) -> Result<Seq<char>, Seq<char>> {
    match (formatted_date(start * 1000, timezone), formatted_date(end * 1000, timezone)) {
        (Some(from), Some(to)) => endpoint_url(
            base,
            "getData.json"@,
            seq![
                ("pv"@, operator_pv_text(pv, operator)),
                ("from"@, from),
                ("to"@, to),
                ("fetchLatestMetadata"@, "true"@),
            ] + zone_pairs(timezone),
        ),
        _ => Err("Invalid time range specified"@),
    }
}

/// The URL of a request for the series of `pv` under `operator` from
/// `start` to `end` (seconds since the epoch).
pub fn data_request_url(base_url: &str, pv: &str, start: i64, end: i64, operator: &DataOperator, timezone: Option<&str>) -> (r: Result<String, String>)
    requires
        i64::MIN <= start * 1000 <= i64::MAX,
        i64::MIN <= end * 1000 <= i64::MAX,
    ensures
        match data_request(base_url@, pv@, start, end, *operator, zone_view(timezone)) {
            Ok(u) => r matches Ok(s) && s@ == u,
            Err(m) => r matches Err(e) && e@ == m,
        },
{
    let from = match format_date(start * 1000, timezone) {
        Some(f) => f,
        None => return Err(String::from_str(errors().invalid_timerange)),
    };
    let to = match format_date(end * 1000, timezone) {
        Some(t) => t,
        None => return Err(String::from_str(errors().invalid_timerange)),
    };
    let query = operator_pv_query(pv, operator);
    let mut params: Vec<(String, String)> = Vec::new();
    params.push(pair("pv", query.as_str()));
    params.push(pair("from", from.as_str()));
    params.push(pair("to", to.as_str()));
    params.push(pair("fetchLatestMetadata", "true"));
    match timezone {
        Some(z) => params.push(pair("timeZone", z)),
        None => {},
    }
    proof {
        assert(pair_views(params@) =~= seq![
            ("pv"@, operator_pv_text(pv@, *operator)),
            ("from"@, from@),
            ("to"@, to@),
            ("fetchLatestMetadata"@, "true"@),
        ] + zone_pairs(zone_view(timezone)));
    }
    build_url(base_url, "getData.json", &params)
}

/// The URL of the request for one PV of a chunk: the series of `pv` between
/// the dates given, unchunked, under `operator`.
pub open spec fn chunk_request(base: Seq<char>, pv: Seq<char>, from: Seq<char>, to: Seq<char>, operator: DataOperator) -> Result<Seq<char>, Seq<char>> {
    let op = operator.spec_to_string();
    endpoint_url(
        base,
        "data/getData.json"@,
        seq![
            ("pv"@, pv),
            ("from"@, from),
            ("to"@, to),
            ("fetchLatestMetadata"@, "true"@),
        ] + if op.len() > 0 {
            seq![("donotchunk"@, "true"@), ("op"@, op)]
        } else {
            Seq::empty()
        },
    )
}

/// The URL of the request for one PV of a chunk.
pub fn chunk_request_url(base_url: &str, pv: &str, from: &str, to: &str, operator: &DataOperator) -> (r: Result<String, String>)
    ensures
        match chunk_request(base_url@, pv@, from@, to@, *operator) {
            Ok(u) => r matches Ok(s) && s@ == u,
            Err(m) => r matches Err(e) && e@ == m,
        },
{
    let mut params: Vec<(String, String)> = Vec::new();
    params.push(pair("pv", pv));
    params.push(pair("from", from));
    params.push(pair("to", to));
    params.push(pair("fetchLatestMetadata", "true"));
    let op = operator.to_string();
    if op.as_str().unicode_len() > 0 {
        params.push(pair("donotchunk", "true"));
        params.push(pair("op", op.as_str()));
    }
    proof {
        let ghost ops = operator.spec_to_string();
        assert(pair_views(params@) =~= seq![
            ("pv"@, pv@),
            ("from"@, from@),
            ("to"@, to@),
            ("fetchLatestMetadata"@, "true"@),
        ] + if ops.len() > 0 {
            seq![("donotchunk"@, "true"@), ("op"@, ops)]
        } else {
            Seq::empty()
        });
    }
    build_url(base_url, "data/getData.json", &params)
}

/// The URL of the request for the latest samples of `pv` between the dates
/// given.
pub open spec fn live_request(base: Seq<char>, pv: Seq<char>, from: Seq<char>, to: Seq<char>) -> Result<Seq<char>, Seq<char>> {
    endpoint_url(
        base,
        "getData.json"@,
        seq![("from"@, from), ("to"@, to), ("fetchLatestMetadata"@, "true"@), ("pv"@, pv)],
    )
}

/// The requests for the latest samples of `pvs` over the five seconds
/// before `now` (seconds), one per PV in order, dates in the zone where one
/// is named; an invalid-time-range error where a date cannot be written.
pub open spec fn live_requests(base: Seq<char>, pvs: Seq<Seq<char>>, now: i64, timezone: Option<Seq<char>>) -> Result<Seq<Result<Seq<char>, Seq<char>>>, Seq<char>> {
    match (formatted_date((now - 5) * 1000, timezone), formatted_date(now * 1000, timezone)) {
        (Some(from), Some(to)) => Ok(pvs.map_values(|pv: Seq<char>| live_request(base, pv, from, to))),
        _ => Err("Invalid time range specified"@),
    }
}

/// The URLs of the requests for the latest samples of `pvs` at `now`.
pub fn live_request_urls(base_url: &str, pvs: &Vec<String>, now: i64, timezone: Option<&str>) -> (r: Result<Vec<Result<String, String>>, String>)
    requires
        i64::MIN <= (now - 5) * 1000,
        now * 1000 <= i64::MAX,
    ensures
        match live_requests(base_url@, pvs@.map_values(|p: String| p@), now, zone_view(timezone)) {
            Ok(us) => r matches Ok(v) && v@.len() == us.len() && forall|i: int|
                0 <= i < us.len() ==> texts_match(#[trigger] v@[i], us[i]),
            Err(m) => r matches Err(e) && e@ == m,
        },
{
    let from = match format_date((now - 5) * 1000, timezone) {
        Some(f) => f,
        None => return Err(String::from_str(errors().invalid_timerange)),
    };
    let to = match format_date(now * 1000, timezone) {
        Some(t) => t,
        None => return Err(String::from_str(errors().invalid_timerange)),
    };
    let mut urls: Vec<Result<String, String>> = Vec::new();
    let mut i: usize = 0;
    while i < pvs.len()
        invariant
            i <= pvs@.len(),
            urls@.len() == i,
            forall|j: int|
                0 <= j < i ==> texts_match(#[trigger] urls@[j], live_request(base_url@, pvs@[j]@, from@, to@)),
        decreases pvs@.len() - i,
    {
        let mut params: Vec<(String, String)> = Vec::new();
        params.push(pair("from", from.as_str()));
        params.push(pair("to", to.as_str()));
        params.push(pair("fetchLatestMetadata", "true"));
        params.push(pair("pv", pvs[i].as_str()));
        assert(pair_views(params@) =~= seq![
            ("from"@, from@),
            ("to"@, to@),
            ("fetchLatestMetadata"@, "true"@),
            ("pv"@, pvs@[i as int]@),
        ]);
        let u = build_url(base_url, "getData.json", &params);
        urls.push(u);
        i = i + 1;
    }
    Ok(urls)
}

/// The URL of the request for the values of PVs at `timestamp` (seconds),
/// the date in the zone where one is named; an invalid-time-range error
/// where the date cannot be written.
pub open spec fn data_at_time_request(base: Seq<char>, timestamp: i64, timezone: Option<Seq<char>>) -> Result<Seq<char>, Seq<char>> {
    match formatted_date(timestamp * 1000, timezone) {
        Some(at) => endpoint_url(
            base,
            "data/getDataAtTime"@,
            seq![("at"@, at), ("includeProxies"@, "true"@)] + zone_pairs(timezone),
        ),
        None => Err("Invalid time range specified"@),
    }
}

/// The URL of the request for the values of PVs at `timestamp` (seconds).
pub fn data_at_time_url(base_url: &str, timestamp: i64, timezone: Option<&str>) -> (r: Result<String, String>)
    requires
        i64::MIN <= timestamp * 1000 <= i64::MAX,
    ensures
        match data_at_time_request(base_url@, timestamp, zone_view(timezone)) {
            Ok(u) => r matches Ok(s) && s@ == u,
            Err(m) => r matches Err(e) && e@ == m,
        },
{
    let at = match format_date(timestamp * 1000, timezone) {
        Some(a) => a,
        None => return Err(String::from_str(errors().invalid_timerange)),
    };
    let mut params: Vec<(String, String)> = Vec::new();
    params.push(pair("at", at.as_str()));
    params.push(pair("includeProxies", "true"));
    match timezone {
        Some(z) => params.push(pair("timeZone", z)),
        None => {},
    }
    assert(pair_views(params@) =~= seq![("at"@, at@), ("includeProxies"@, "true"@)] + zone_pairs(
        zone_view(timezone),
    ));
    build_url(base_url, "data/getDataAtTime", &params)
}

/// The URL of the request for the metadata of `pv`.
pub fn metadata_url(base_url: &str, pv: &str) -> (r: Result<String, String>)
    ensures
        match endpoint_url(base_url@, "bpl/getMetadata"@, seq![("pv"@, pv@)]) {
            Ok(u) => r matches Ok(s) && s@ == u,
            Err(m) => r matches Err(e) && e@ == m,
        },
{
    let mut params: Vec<(String, String)> = Vec::new();
    params.push(pair("pv", pv));
    assert(pair_views(params@) =~= seq![("pv"@, pv@)]);
    build_url(base_url, "bpl/getMetadata", &params)
}

/// The message of a request the server refused: the server-error text, the
/// status and the URL, as in `Server error occurred: 404 Not Found (URL)`.
pub fn status_error_message(status: &str, url: &str) -> (r: String)
    ensures
        r@ == "Server error occurred"@ + ": "@ + status@ + " ("@ + url@ + ")"@,
{
    let mut r = concat3(errors().server_error, ": ", status);
    push_str(&mut r, " (");
    push_str(&mut r, url);
    push_str(&mut r, ")");
    r
}

// ---------------------------------------------------------------------------
// Normalisation of a series
// ---------------------------------------------------------------------------

/// Integer division by a million, rounding toward zero as Rust does.
pub open spec fn div_million(n: int) -> int {
    if n >= 0 {
        n / 1_000_000
    } else {
        -((-n) / 1_000_000)
    }
}

/// A sample's instant in milliseconds: its seconds times a thousand plus its
/// nanoseconds (none counting as zero) divided by a million.
pub open spec fn point_millis(p: Point) -> int {
    p.secs * 1000 + div_million(
        match p.nanos {
            Some(n) => n as int,
            None => 0,
        },
    )
}

/// The normalised form of a sample that has a number: its instant in
/// milliseconds, its severity and status (none counting as zero), the number
/// as value, minimum and maximum, no spread, a count of one.
pub open spec fn processed_point(p: Point) -> Option<ProcessedPoint> {
    match p.val.spec_as_number() {
        Some(v) => Some(
            ProcessedPoint {
                timestamp: point_millis(p) as i64,
                severity: match p.severity {
                    Some(s) => s,
                    None => 0,
                },
                status: match p.status {
                    Some(s) => s,
                    None => 0,
                },
                value: v,
                min: v,
                max: v,
                stddev: 0,
                count: 1,
            },
        ),
        None => None,
    }
}

/// The normalised samples that have a number, in the order given.
pub open spec fn candidates(data: Seq<Point>) -> Seq<ProcessedPoint>
    decreases data.len(),
{
    if data.len() == 0 {
        Seq::empty()
    } else {
        let rest = candidates(data.drop_last());
        match processed_point(data.last()) {
            Some(pp) => rest.push(pp),
            None => rest,
        }
    }
}

/// Whether the instant of every sample that has a number fits in an `i64`.
pub open spec fn instants_fit(data: Seq<Point>) -> bool {
    forall|i: int|
        0 <= i < data.len() && (#[trigger] data[i]).val.spec_as_number() is Some ==> i64::MIN
            <= point_millis(data[i]) <= i64::MAX
}

/// Whether `c[j]` is the first element of `c` with its timestamp.
pub open spec fn first_of_its_instant(c: Seq<ProcessedPoint>, j: int) -> bool {
    &&& 0 <= j < c.len()
    &&& forall|k: int| 0 <= k < j ==> (#[trigger] c[k]).timestamp != c[j].timestamp
}

/// Whether `out[k]` is an element of `c` that is the first with its
/// timestamp.
#[verifier::opaque]
pub open spec fn kept_first(out: Seq<ProcessedPoint>, c: Seq<ProcessedPoint>, k: int) -> bool {
    exists|j: int| first_of_its_instant(c, j) && c[j] == out[k]
}

/// Whether the timestamp of `c[j]` is that of some element of `out`.
#[verifier::opaque]
pub open spec fn instant_kept(out: Seq<ProcessedPoint>, c: Seq<ProcessedPoint>, j: int) -> bool {
    exists|k: int| 0 <= k < out.len() && out[k].timestamp == c[j].timestamp
}

/// Whether `out` is `c` sorted by timestamp with, of the elements sharing a
/// timestamp, only the first kept: the timestamps of `out` strictly increase,
/// each element of `out` is the first in `c` with its timestamp, and every
/// timestamp of `c` is in `out`.
pub open spec fn sorted_first_by_instant(out: Seq<ProcessedPoint>, c: Seq<ProcessedPoint>) -> bool {
    &&& forall|a: int, b: int|
        0 <= a < b < out.len() ==> (#[trigger] out[a]).timestamp < (#[trigger] out[b]).timestamp
    &&& forall|k: int| 0 <= k < out.len() ==> #[trigger] kept_first(out, c, k)
    &&& forall|j: int| 0 <= j < c.len() ==> #[trigger] instant_kept(out, c, j)
}

/// An instant in milliseconds from seconds and nanoseconds (none counting
/// as zero).
fn instant_millis(secs: i64, nanos: Option<i64>) -> (r: i64)
    requires
        i64::MIN <= secs * 1000 + div_million(
            match nanos {
                Some(n) => n as int,
                None => 0,
            },
        ) <= i64::MAX,
    ensures
        r == secs * 1000 + div_million(
            match nanos {
                Some(n) => n as int,
                None => 0,
            },
        ),
{
    let n: i128 = match nanos {
        Some(n) => n as i128,
        None => 0,
    };
    let q: i128 = if n >= 0 {
        n / 1_000_000
    } else {
        0 - ((0 - n) / 1_000_000)
    };
    ((secs as i128) * 1000 + q) as i64
}

/// The normalised form of a sample.
fn process_point(p: &Point) -> (r: Option<ProcessedPoint>)
    requires
        p.val.spec_as_number() is Some ==> i64::MIN <= point_millis(*p) <= i64::MAX,
    ensures
        r == processed_point(*p),
{
    match p.value_as_f64() {
        Some(value) => {
            let millis = instant_millis(p.secs, p.nanos);
            let severity = match p.severity {
                Some(s) => s,
                None => 0,
            };
            let status = match p.status {
                Some(s) => s,
                None => 0,
            };
            Some(
                ProcessedPoint {
                    timestamp: millis,
                    severity,
                    status,
                    value,
                    min: value,
                    max: value,
                    stddev: 0,
                    count: 1,
                },
            )
        },
        None => None,
    }
}

/// A candidate whose instant is already kept changes nothing.
proof fn lemma_keep_first(out: Seq<ProcessedPoint>, c: Seq<ProcessedPoint>, pp: ProcessedPoint, pos: int)
    requires
        sorted_first_by_instant(out, c),
        0 <= pos < out.len(),
        out[pos].timestamp == pp.timestamp,
    ensures
        sorted_first_by_instant(out, c.push(pp)),
{
    let c2 = c.push(pp);
    assert forall|k: int| 0 <= k < out.len() implies #[trigger] kept_first(out, c2, k) by {
        assert(kept_first(out, c, k));
        reveal(kept_first);
        let j = choose|j: int| first_of_its_instant(c, j) && c[j] == out[k];
        assert(c2[j] == c[j]);
        assert forall|i: int| 0 <= i < j implies (#[trigger] c2[i]).timestamp != c2[j].timestamp by {
            assert(c2[i] == c[i]);
        }
        assert(first_of_its_instant(c2, j));
    }
    assert forall|j: int| 0 <= j < c2.len() implies #[trigger] instant_kept(out, c2, j) by {
        reveal(instant_kept);
        if j == c.len() {
            assert(out[pos].timestamp == c2[j].timestamp);
        } else {
            assert(instant_kept(out, c, j));
            assert(c2[j] == c[j]);
        }
    }
}

/// A candidate with a new instant, inserted where the instants before it are
/// smaller and the ones after it larger, keeps the order and is the first of
/// its instant.
proof fn lemma_insert_new(out: Seq<ProcessedPoint>, c: Seq<ProcessedPoint>, pp: ProcessedPoint, pos: int)
    requires
        sorted_first_by_instant(out, c),
        0 <= pos <= out.len(),
        forall|k: int| 0 <= k < pos ==> (#[trigger] out[k]).timestamp < pp.timestamp,
        pos < out.len() ==> out[pos].timestamp > pp.timestamp,
    ensures
        sorted_first_by_instant(out.insert(pos, pp), c.push(pp)),
{
    let c2 = c.push(pp);
    let after = out.insert(pos, pp);
    assert forall|j: int| 0 <= j < c.len() implies (#[trigger] c[j]).timestamp != pp.timestamp by {
        assert(instant_kept(out, c, j));
        reveal(instant_kept);
        let k = choose|k: int| 0 <= k < out.len() && out[k].timestamp == c[j].timestamp;
        if k > pos {
            assert(out[pos].timestamp < out[k].timestamp);
        } else if k < pos {
            assert(out[k].timestamp < pp.timestamp);
        }
    }
    assert forall|a: int, b: int| 0 <= a < b < after.len() implies (#[trigger] after[a]).timestamp
        < (#[trigger] after[b]).timestamp by {
        if b < pos {
            assert(after[a] == out[a] && after[b] == out[b]);
        } else if b == pos {
            assert(after[a] == out[a]);
            assert(out[a].timestamp < pp.timestamp);
        } else if a < pos {
            assert(after[a] == out[a] && after[b] == out[b - 1]);
            assert(out[a].timestamp < pp.timestamp);
            if b - 1 > pos {
                assert(out[pos].timestamp < out[b - 1].timestamp);
            }
        } else if a == pos {
            assert(after[b] == out[b - 1]);
            if b - 1 > pos {
                assert(out[pos].timestamp < out[b - 1].timestamp);
            }
        } else {
            assert(after[a] == out[a - 1] && after[b] == out[b - 1]);
            assert(out[a - 1].timestamp < out[b - 1].timestamp);
        }
    }
    assert forall|k: int| 0 <= k < after.len() implies #[trigger] kept_first(after, c2, k) by {
        reveal(kept_first);
        if k == pos {
            assert(c2[c.len() as int] == after[k]);
            assert forall|i: int| 0 <= i < c.len() implies (#[trigger] c2[i]).timestamp
                != c2[c.len() as int].timestamp by {
                assert(c2[i] == c[i]);
                assert(c[i].timestamp != pp.timestamp);
            }
            assert(first_of_its_instant(c2, c.len() as int));
        } else {
            let kb = if k < pos { k } else { k - 1 };
            assert(after[k] == out[kb]);
            assert(kept_first(out, c, kb));
            let j = choose|j: int| first_of_its_instant(c, j) && c[j] == out[kb];
            assert(c2[j] == c[j]);
            assert forall|i: int| 0 <= i < j implies (#[trigger] c2[i]).timestamp != c2[j].timestamp by {
                assert(c2[i] == c[i]);
            }
            assert(first_of_its_instant(c2, j));
        }
    }
    assert forall|j: int| 0 <= j < c2.len() implies #[trigger] instant_kept(after, c2, j) by {
        reveal(instant_kept);
        if j == c.len() {
            assert(after[pos] == pp);
        } else {
            assert(c2[j] == c[j]);
            assert(instant_kept(out, c, j));
            let k = choose|k: int| 0 <= k < out.len() && out[k].timestamp == c[j].timestamp;
            if k < pos {
                assert(after[k] == out[k]);
            } else {
                assert(after[k + 1] == out[k]);
            }
        }
    }
}

/// The samples of a series that have a number, normalised, sorted by
/// instant, and of those sharing an instant the first one given.
pub fn normalize_points(data: &Vec<Point>) -> (r: Vec<ProcessedPoint>)
    requires
        instants_fit(data@),
    ensures
        sorted_first_by_instant(r@, candidates(data@)),
{
    let mut out: Vec<ProcessedPoint> = Vec::new();
    let mut i: usize = 0;
    proof {
        assert(data@.take(0) =~= Seq::<Point>::empty());
    }
    while i < data.len()
        invariant
            i <= data@.len(),
            instants_fit(data@),
            sorted_first_by_instant(out@, candidates(data@.take(i as int))),
        decreases data@.len() - i,
    {
        let ghost c = candidates(data@.take(i as int));
        proof {
            assert(data@.take(i + 1).drop_last() =~= data@.take(i as int));
            assert(data@.take(i + 1).last() == data@[i as int]);
        }
        let candidate = process_point(&data[i]);
        match candidate {
            Some(pp) => {
                assert(candidates(data@.take(i + 1)) == c.push(pp));
                let mut pos: usize = 0;
                while pos < out.len() && out[pos].timestamp < pp.timestamp
                    invariant
                        pos <= out@.len(),
                        forall|k: int| 0 <= k < pos ==> (#[trigger] out@[k]).timestamp < pp.timestamp,
                    decreases out@.len() - pos,
                {
                    pos = pos + 1;
                }
                if pos < out.len() && out[pos].timestamp == pp.timestamp {
                    proof {
                        lemma_keep_first(out@, c, pp, pos as int);
                    }
                } else {
                    proof {
                        lemma_insert_new(out@, c, pp, pos as int);
                    }
                    out.insert(pos, pp);
                }
            },
            None => {
                assert(candidates(data@.take(i + 1)) == c);
            },
        }
        i = i + 1;
    }
    proof {
        assert(data@.take(data@.len() as int) =~= data@);
    }
    out
}

// ---------------------------------------------------------------------------
// Answers
// ---------------------------------------------------------------------------

/// The series the archiver answered last, or the no-data error.
pub fn last_pv_data(data: Vec<PVData>) -> (r: Result<PVData, String>)
    ensures
        data@.len() > 0 ==> r == Ok::<PVData, String>(data@.last()),
        data@.len() == 0 ==> (r matches Err(e) && e@ == "No data available"@),
{
    let mut data = data;
    match data.pop() {
        Some(d) => Ok(d),
        None => Err(String::from_str(errors().no_data)),
    }
}

/// The series the archiver answered first, or the error of a PV without
/// data.
pub fn first_pv_data(data: Vec<PVData>) -> (r: Result<PVData, String>)
    ensures
        data@.len() > 0 ==> r == Ok::<PVData, String>(data@[0]),
        data@.len() == 0 ==> (r matches Err(e) && e@ == "No data returned for PV"@),
{
    let mut data = data;
    if data.len() > 0 {
        Ok(data.remove(0))
    } else {
        Err(String::from_str("No data returned for PV"))
    }
}

/// The latest sample of the last series answered, if it has one.
pub open spec fn latest_sample(data: Seq<PVData>) -> Option<PointValue> {
    if data.len() == 0 || data.last().data@.len() == 0 {
        None
    } else {
        let p = data.last().data@.last();
        Some(PointValue { secs: p.secs, nanos: p.nanos, val: p.val, severity: p.severity, status: p.status })
    }
}

/// The latest sample of the last series answered, if it has one.
pub fn latest_point(data: Vec<PVData>) -> (r: Option<PointValue>)
    ensures
        r == latest_sample(data@),
{
    let mut data = data;
    match data.pop() {
        Some(series) => {
            let mut points = series.data;
            match points.pop() {
                Some(p) => Some(
                    PointValue {
                        secs: p.secs,
                        nanos: p.nanos,
                        val: p.val,
                        severity: p.severity,
                        status: p.status,
                    },
                ),
                None => None,
            }
        },
        None => None,
    }
}

/// The successful results, in order.
pub open spec fn successes<T>(s: Seq<Result<T, String>>) -> Seq<T>
    decreases s.len(),
{
    if s.len() == 0 {
        Seq::empty()
    } else {
        let rest = successes(s.drop_last());
        match s.last() {
            Ok(v) => rest.push(v),
            Err(_) => rest,
        }
    }
}

/// The texts of the failures, in order.
pub open spec fn failures<T>(s: Seq<Result<T, String>>) -> Seq<Seq<char>>
    decreases s.len(),
{
    if s.len() == 0 {
        Seq::empty()
    } else {
        let rest = failures(s.drop_last());
        match s.last() {
            Ok(_) => rest,
            Err(e) => rest.push(e@),
        }
    }
}

/// The texts joined with `sep` between them.
pub open spec fn joined(texts: Seq<Seq<char>>, sep: Seq<char>) -> Seq<char>
    decreases texts.len(),
{
    if texts.len() == 0 {
        Seq::empty()
    } else if texts.len() == 1 {
        texts[0]
    } else {
        joined(texts.drop_last(), sep) + sep + texts.last()
    }
}

/// The outcome of the requests of a chunk: the series that arrived, in
/// order, or, where none did, the failures joined by `, `.
pub fn combine_chunk_results(results: Vec<Result<NormalizedPVData, String>>) -> (r: Result<Vec<NormalizedPVData>, String>)
    ensures
        successes(results@).len() > 0 ==> (r matches Ok(v) && v@ == successes(results@)),
        successes(results@).len() == 0 ==> (r matches Err(e) && e@ == joined(failures(results@), ", "@)),
{
    let ghost all = results@;
    assert(all.len() == results.len());
    let mut results = results;
    let mut oks: Vec<NormalizedPVData> = Vec::new();
    let mut message = String::new();
    let mut n_errs: usize = 0;
    let mut i: usize = 0;
    let ghost mut rest = all;
    proof {
        assert(all.take(0) =~= Seq::<Result<NormalizedPVData, String>>::empty());
    }
    while results.len() > 0
        invariant
            i <= all.len(),
            all.len() <= usize::MAX,
            results@ == all.skip(i as int),
            n_errs <= i,
            oks@ == successes(all.take(i as int)),
            message@ == joined(failures(all.take(i as int)), ", "@),
            n_errs == failures(all.take(i as int)).len(),
        decreases results@.len(),
    {
        let item = results.remove(0);
        proof {
            assert(all.take(i + 1).drop_last() =~= all.take(i as int));
            assert(all.take(i + 1).last() == all[i as int]);
            assert(item == all[i as int]);
        }
        match item {
            Ok(v) => {
                oks.push(v);
            },
            Err(e) => {
                if n_errs > 0 {
                    push_str(&mut message, ", ");
                }
                push_str(&mut message, e.as_str());
                n_errs = n_errs + 1;
                proof {
                    let f = failures(all.take(i + 1));
                    assert(f.drop_last() =~= failures(all.take(i as int)));
                    if f.len() == 1 {
                        assert(message@ =~= f[0]);
                    }
                }
            },
        }
        proof {
            assert(all.skip(i + 1) =~= all.skip(i as int).drop_first());
        }
        i = i + 1;
    }
    proof {
        assert(all.take(i as int) =~= all);
    }
    if oks.len() > 0 {
        Ok(oks)
    } else {
        Err(message)
    }
}

/// The series of all the chunks that arrived, chunk after chunk.
pub open spec fn arrived(s: Seq<Result<Vec<NormalizedPVData>, String>>) -> Seq<NormalizedPVData>
    decreases s.len(),
{
    if s.len() == 0 {
        Seq::empty()
    } else {
        let rest = arrived(s.drop_last());
        match s.last() {
            Ok(v) => rest + v@,
            Err(_) => rest,
        }
    }
}

/// The series of several chunks: all that arrived, chunk after chunk, or,
/// where none did, the error that no PV has data.
pub fn merge_chunk_results(results: Vec<Result<Vec<NormalizedPVData>, String>>) -> (r: Result<Vec<NormalizedPVData>, String>)
    ensures
        arrived(results@).len() > 0 ==> (r matches Ok(v) && v@ == arrived(results@)),
        arrived(results@).len() == 0 ==> (r matches Err(e) && e@ == "No data available for any PV"@),
{
    let ghost all = results@;
    assert(all.len() == results.len());
    let mut results = results;
    let mut merged: Vec<NormalizedPVData> = Vec::new();
    let mut i: usize = 0;
    proof {
        assert(all.take(0) =~= Seq::<Result<Vec<NormalizedPVData>, String>>::empty());
    }
    while results.len() > 0
        invariant
            i <= all.len(),
            all.len() <= usize::MAX,
            results@ == all.skip(i as int),
            merged@ == arrived(all.take(i as int)),
        decreases results@.len(),
    {
        let item = results.remove(0);
        proof {
            assert(all.take(i + 1).drop_last() =~= all.take(i as int));
            assert(all.take(i + 1).last() == all[i as int]);
            assert(item == all[i as int]);
        }
        match item {
            Ok(chunk) => {
                let mut chunk = chunk;
                merged.append(&mut chunk);
            },
            Err(_) => {},
        }
        proof {
            assert(all.skip(i + 1) =~= all.skip(i as int).drop_first());
        }
        i = i + 1;
    }
    proof {
        assert(all.take(i as int) =~= all);
    }
    if merged.len() > 0 {
        Ok(merged)
    } else {
        Err(String::from_str("No data available for any PV"))
    }
}

// ---------------------------------------------------------------------------
// The cache of normalised series
// ---------------------------------------------------------------------------

/// How long a cached series stays valid (milliseconds).
pub const CACHE_TTL_MS: i64 = 300_000;

/// A normalised series and the instant (milliseconds) it stops being valid.
#[derive(Debug, Clone)]
pub struct CacheEntry {
    pub data: NormalizedPVData,
    pub expires_at: i64,
}

impl CacheEntry {
    /// `data`, valid for `ttl` milliseconds after `now`.
    pub fn new(data: NormalizedPVData, ttl: i64, now: i64) -> (r: Self)
        requires
            i64::MIN <= now + ttl <= i64::MAX,
        ensures
            r == (CacheEntry { data, expires_at: (now + ttl) as i64 }),
    {
        CacheEntry { data, expires_at: now + ttl }
    }

    /// Whether the entry is still valid at `now`: strictly before its expiry.
    pub fn is_valid_at(&self, now: i64) -> (r: bool)
        ensures
            r == (now < self.expires_at),
    {
        now < self.expires_at
    }
}

/// What a series cache holds: each key's text and the entry under it.
pub uninterp spec fn cached_responses(m: DashMap<String, CacheEntry>) -> Map<Seq<char>, CacheEntry>;

/// `DashMap::new`: a map that holds nothing.
#[verifier::external_body]
fn response_map_new() -> (r: DashMap<String, CacheEntry>)
    ensures
        cached_responses(r).dom() == Set::<Seq<char>>::empty(),
{
    DashMap::new()
}

/// `DashMap::get` followed by a clone of the value found: the entry under
/// `key`, if there is one.
#[verifier::external_body]
fn response_map_get(m: &DashMap<String, CacheEntry>, key: &str) -> (r: Option<CacheEntry>)
    ensures
        r == (if cached_responses(*m).dom().contains(key@) {
            Some(cached_responses(*m)[key@])
        } else {
            None
        }),
{
    match m.get(key) {
        Some(e) => Some(e.value().clone()),
        None => None,
    }
}

/// `DashMap::insert`: `key` now maps to `entry`.
#[verifier::external_body]
fn response_map_insert(m: &mut DashMap<String, CacheEntry>, key: String, entry: CacheEntry)
    ensures
        cached_responses(*final(m)) == cached_responses(*old(m)).insert(key@, entry),
{
    m.insert(key, entry);
}

/// `DashMap::remove`: `key` no longer maps to anything.
#[verifier::external_body]
fn response_map_remove(m: &mut DashMap<String, CacheEntry>, key: &str)
    ensures
        cached_responses(*final(m)) == cached_responses(*old(m)).remove(key@),
{
    m.remove(key);
}

/// `DashMap::len`: the number of keys.
#[verifier::external_body]
fn response_map_len(m: &DashMap<String, CacheEntry>) -> (r: usize)
    ensures
        r == cached_responses(*m).dom().len(),
{
    m.len()
}

/// `DashMap::iter`, reading each key and expiry: every key once, in an order
/// the map chooses.
#[verifier::external_body]
fn response_map_expiries(m: &DashMap<String, CacheEntry>) -> (r: Vec<(String, i64)>)
    ensures
        forall|i: int|
            0 <= i < r@.len() ==> cached_responses(*m).dom().contains(#[trigger] r@[i].0@)
                && cached_responses(*m)[r@[i].0@].expires_at == r@[i].1,
        forall|k: Seq<char>|
            cached_responses(*m).dom().contains(k) ==> exists|i: int|
                0 <= i < r@.len() && #[trigger] r@[i].0@ == k,
        forall|i: int, j: int| 0 <= i < j < r@.len() ==> r@[i].0@ != r@[j].0@,
{
    m.iter().map(|e| (e.key().clone(), e.value().expires_at)).collect()
}

/// The keys of the entries still valid at `now`.
pub open spec fn valid_keys(m: Map<Seq<char>, CacheEntry>, now: i64) -> Set<Seq<char>> {
    m.dom().filter(|k: Seq<char>| now < m[k].expires_at)
}

/// A sample's instant in milliseconds, as for the samples of a series.
pub open spec fn value_millis(p: PointValue) -> int {
    p.secs * 1000 + div_million(
        match p.nanos {
            Some(n) => n as int,
            None => 0,
        },
    )
}

/// Whether `after` is what a live sample `p` at `now` makes of the cached
/// entry `before`: its last point takes the sample's instant and, where the
/// sample has a number, its value, and the entry is valid again for the
/// cache's period. An entry without points stays as it is.
pub open spec fn refreshed(before: CacheEntry, after: CacheEntry, p: PointValue, now: i64) -> bool {
    let pts = before.data.data@;
    if pts.len() == 0 {
        after == before
    } else {
        let last = pts.last();
        let moved = ProcessedPoint {
            timestamp: value_millis(p) as i64,
            value: match p.val.spec_as_number() {
                Some(v) => v,
                None => last.value,
            },
            ..last
        };
        &&& after.data.meta == before.data.meta
        &&& after.data.statistics == before.data.statistics
        &&& after.data.data@ == pts.update(pts.len() - 1, moved)
        &&& after.expires_at == now + CACHE_TTL_MS
    }
}

/// The archiver's address and the cache of normalised series of a client.
#[derive(Debug)]
pub struct ArchiverClient {
    base_url: String,
    data_cache: DashMap<String, CacheEntry>,
}

impl ArchiverClient {
    /// The address of the archiver's data service.
    pub closed spec fn base_url_view(&self) -> Seq<char> {
        self.base_url@
    }

    /// The cached series, by key text.
    pub closed spec fn responses(&self) -> Map<Seq<char>, CacheEntry> {
        cached_responses(self.data_cache)
    }

    /// The cache is finite.
    pub closed spec fn wf(&self) -> bool {
        self.responses().dom().finite()
    }

    /// A client of the configured archiver with an empty cache.
    pub fn new() -> (r: Self)
        ensures
            r.wf(),
            r.base_url_view() == "http://lcls-archapp.slac.stanford.edu/retrieval/data"@,
            r.responses().dom() == Set::<Seq<char>>::empty(),
    {
        ArchiverClient {
            base_url: String::from_str(api_config().base_url),
            data_cache: response_map_new(),
        }
    }

    /// The address of the archiver's data service.
    pub fn base_url(&self) -> (r: &str)
        ensures
            r@ == self.base_url_view(),
    {
        self.base_url.as_str()
    }

    /// The URL of `endpoint` under the archiver's address with the query
    /// `params`.
    pub fn build_url(&self, endpoint: &str, params: &Vec<(String, String)>) -> (r: Result<String, String>)
        ensures
            texts_match(r, endpoint_url(self.base_url_view(), endpoint@, pair_views(params@))),
    {
        build_url(self.base_url.as_str(), endpoint, params)
    }

    /// The RFC 3339 text of an instant in milliseconds, in the named zone
    /// where chrono-tz knows it, else in UTC.
    pub fn format_date(&self, timestamp_ms: i64, timezone: Option<&str>) -> (r: Option<String>)
        ensures
            match formatted_date(timestamp_ms as int, zone_view(timezone)) {
                Some(t) => r matches Some(s) && s@ == t,
                None => r is None,
            },
    {
        format_date(timestamp_ms, timezone)
    }

    /// The series cached under `key` if it is still valid at `now`; an
    /// expired entry is dropped.
    pub fn lookup_cached(&mut self, key: &str, now: i64) -> (r: Option<NormalizedPVData>)
        requires
            old(self).wf(),
        ensures
            final(self).wf(),
            final(self).base_url_view() == old(self).base_url_view(),
            old(self).responses().dom().contains(key@) && now < old(self).responses()[key@].expires_at
                ==> r == Some(old(self).responses()[key@].data) && final(self).responses()
                == old(self).responses(),
            !(old(self).responses().dom().contains(key@) && now < old(self).responses()[key@].expires_at)
                ==> r is None && final(self).responses() == old(self).responses().remove(key@),
    {
        match response_map_get(&self.data_cache, key) {
            Some(entry) => {
                if entry.is_valid_at(now) {
                    return Some(entry.data);
                }
                response_map_remove(&mut self.data_cache, key);
                None
            },
            None => {
                proof {
                    assert(self.responses().remove(key@) =~= self.responses());
                }
                None
            },
        }
    }

    /// Caches `data` under `key` at `now`, valid for the cache's period.
    pub fn store_cached(&mut self, key: &str, data: NormalizedPVData, now: i64)
        requires
            old(self).wf(),
            now + CACHE_TTL_MS <= i64::MAX,
        ensures
            final(self).wf(),
            final(self).base_url_view() == old(self).base_url_view(),
            final(self).responses() == old(self).responses().insert(
                key@,
                CacheEntry { data, expires_at: (now + CACHE_TTL_MS) as i64 },
            ),
    {
        let entry = CacheEntry::new(data, CACHE_TTL_MS, now);
        response_map_insert(&mut self.data_cache, String::from_str(key), entry);
    }

    /// Drops the entries that are no longer valid at `now`.
    pub fn cleanup_cache_at(&mut self, now: i64)
        requires
            old(self).wf(),
        ensures
            final(self).wf(),
            final(self).base_url_view() == old(self).base_url_view(),
            final(self).responses() == old(self).responses().restrict(valid_keys(old(self).responses(), now)),
    {
        let listing = response_map_expiries(&self.data_cache);
        let ghost m = self.responses();
        let ghost mut removed: Set<Seq<char>> = Set::empty();
        let mut i: usize = 0;
        while i < listing.len()
            invariant
                i <= listing@.len(),
                m == old(self).responses(),
                m.dom().finite(),
                self.wf(),
                self.base_url == old(self).base_url,
                forall|j: int|
                    0 <= j < listing@.len() ==> m.dom().contains(#[trigger] listing@[j].0@)
                        && m[listing@[j].0@].expires_at == listing@[j].1,
                forall|k: Seq<char>|
                    m.dom().contains(k) ==> exists|j: int|
                        0 <= j < listing@.len() && #[trigger] listing@[j].0@ == k,
                forall|k: Seq<char>| #[trigger] removed.contains(k) ==> m.dom().contains(k) && !(now
                    < m[k].expires_at),
                forall|j: int|
                    0 <= j < i && !(now < #[trigger] listing@[j].1) ==> removed.contains(listing@[j].0@),
                self.responses() == m.remove_keys(removed),
            decreases listing@.len() - i,
        {
            let (key, expires_at) = (&listing[i].0, listing[i].1);
            if !(now < expires_at) {
                response_map_remove(&mut self.data_cache, key.as_str());
                proof {
                    assert(self.responses() =~= m.remove_keys(removed.insert(key@)));
                    removed = removed.insert(key@);
                }
            }
            i = i + 1;
        }
        proof {
            assert forall|k: Seq<char>| m.dom().contains(k) && !(now < m[k].expires_at) implies removed.contains(k) by {
                let j = choose|j: int| 0 <= j < listing@.len() && #[trigger] listing@[j].0@ == k;
                assert(!(now < listing@[j].1));
            }
            assert(self.responses() =~= m.restrict(valid_keys(m, now)));
        }
    }

    /// Drops the entries that are no longer valid by the machine's clock.
    pub fn cleanup_cache(&mut self)
        requires
            old(self).wf(),
        ensures
            final(self).wf(),
            final(self).base_url_view() == old(self).base_url_view(),
            exists|now: i64|
                final(self).responses() == old(self).responses().restrict(valid_keys(old(self).responses(), now)),
    {
        let now = now_millis();
        self.cleanup_cache_at(now);
    }

    /// Applies a live sample of `pv` at `now` to the series cached under the
    /// PV's name, if there is one; see `refreshed`.
    pub fn apply_live_update(&mut self, pv: &str, point: &PointValue, now: i64)
        requires
            old(self).wf(),
            old(self).responses().dom().contains(pv@) && old(self).responses()[pv@].data.data@.len()
                > 0 ==> i64::MIN <= value_millis(*point) <= i64::MAX && now + CACHE_TTL_MS
                <= i64::MAX,
        ensures
            final(self).wf(),
            final(self).base_url_view() == old(self).base_url_view(),
            old(self).responses().dom().contains(pv@) ==> final(self).responses() == old(
                self,
            ).responses().insert(pv@, final(self).responses()[pv@]) && refreshed(
                old(self).responses()[pv@],
                final(self).responses()[pv@],
                *point,
                now,
            ),
            !old(self).responses().dom().contains(pv@) ==> final(self).responses() == old(
                self,
            ).responses(),
    {
        match response_map_get(&self.data_cache, pv) {
            Some(mut entry) => {
                let n = entry.data.data.len();
                if n > 0 {
                    let mut last = entry.data.data[n - 1];
                    last.timestamp = instant_millis(point.secs, point.nanos);
                    match point.value_as_f64() {
                        Some(v) => {
                            last.value = v;
                        },
                        None => {},
                    }
                    entry.data.data.set(n - 1, last);
                    entry.expires_at = now + CACHE_TTL_MS;
                    response_map_insert(&mut self.data_cache, String::from_str(pv), entry);
                } else {
                    proof {
                        assert(self.responses().insert(pv@, self.responses()[pv@]) =~= self.responses());
                    }
                }
            },
            None => {},
        }
    }

    /// The numbers of entries valid at `now` and of all entries.
    pub fn get_cache_stats_at(&self, now: i64) -> (r: (usize, usize))
        requires
            self.wf(),
        ensures
            r.0 == valid_keys(self.responses(), now).len(),
            r.1 == self.responses().dom().len(),
    {
        let total = response_map_len(&self.data_cache);
        let listing = response_map_expiries(&self.data_cache);
        let ghost m = self.responses();
        let ghost mut seen: Set<Seq<char>> = Set::empty();
        let mut valid: usize = 0;
        let mut i: usize = 0;
        proof {
            assert(seen.filter(|k: Seq<char>| now < m[k].expires_at) =~= Set::<Seq<char>>::empty());
        }
        while i < listing.len()
            invariant
                i <= listing@.len(),
                m == self.responses(),
                m.dom().finite(),
                seen.finite(),
                seen.subset_of(m.dom()),
                forall|k: Seq<char>|
                    seen.contains(k) <==> exists|j: int| 0 <= j < i && #[trigger] listing@[j].0@ == k,
                forall|j: int|
                    0 <= j < listing@.len() ==> m.dom().contains(#[trigger] listing@[j].0@)
                        && m[listing@[j].0@].expires_at == listing@[j].1,
                forall|a: int, b: int| 0 <= a < b < listing@.len() ==> listing@[a].0@ != listing@[b].0@,
                valid as int == seen.filter(|k: Seq<char>| now < m[k].expires_at).len(),
                valid <= i,
            decreases listing@.len() - i,
        {
            let ghost k = listing@[i as int].0@;
            proof {
                if seen.contains(k) {
                    let j = choose|j: int| 0 <= j < i && #[trigger] listing@[j].0@ == k;
                    assert(listing@[j].0@ != listing@[i as int].0@);
                }
                let f = |x: Seq<char>| now < m[x].expires_at;
                let before = seen.filter(f);
                let after = seen.insert(k).filter(f);
                vstd::set_lib::lemma_len_subset(before, seen);
                if f(k) {
                    assert(after =~= before.insert(k));
                    vstd::set::axiom_set_insert_len(before, k);
                } else {
                    assert(after =~= before);
                }
                seen = seen.insert(k);
                assert forall|x: Seq<char>|
                    seen.contains(x) <==> exists|j: int| 0 <= j < i + 1 && #[trigger] listing@[j].0@ == x by {
                    if x == k {
                        assert(listing@[i as int].0@ == x);
                    }
                }
            }
            if now < listing[i].1 {
                valid = valid + 1;
            }
            i = i + 1;
        }
        proof {
            assert forall|k: Seq<char>| m.dom().contains(k) implies seen.contains(k) by {
                let j = choose|j: int| 0 <= j < listing@.len() && #[trigger] listing@[j].0@ == k;
                assert(listing@[j].0@ == k);
            }
            assert(seen =~= m.dom());
        }
        (valid, total)
    }

    /// The numbers of entries valid by the machine's clock and of all
    /// entries.
    pub fn get_cache_stats(&self) -> (r: (usize, usize))
        requires
            self.wf(),
        ensures
            exists|now: i64| r.0 == valid_keys(self.responses(), now).len(),
            r.1 == self.responses().dom().len(),
    {
        let now = now_millis();
        self.get_cache_stats_at(now)
    }
}

// ---------------------------------------------------------------------------
// The live-update loop
// ---------------------------------------------------------------------------

/// How often the live loop drops expired entries from the cache (ms).
pub const LIVE_CLEANUP_INTERVAL_MS: i64 = 60_000;

/// What the live loop does on a tick: drop the expired cache entries first,
/// and stop because nobody listens any more.
#[derive(Debug, Clone, Copy, PartialEq, Eq)]
pub struct LiveTick {
    pub cleanup: bool,
    pub stop: bool,
}

/// What the live loop does with the answer of a fetch: publish the samples
/// (after refreshing the cache), wait a second after a failure, or do
/// nothing when no sample came.
#[derive(Debug, Clone, Copy, PartialEq, Eq)]
pub enum LiveStep {
    Publish,
    Retry,
    Idle,
}

/// The state of the live-update loop: when it last cleaned the cache.
#[derive(Debug, Clone, Copy)]
pub struct LiveLoop {
    pub last_cleanup: i64,
}

impl LiveLoop {
    /// A loop started at `now`, counting its first cleanup interval from then.
    pub fn new(now: i64) -> (r: Self)
        ensures
            r.last_cleanup == now,
    {
        LiveLoop { last_cleanup: now }
    }

    /// The decision on a tick at `now` with `receivers` listeners: clean the
    /// cache when more than a minute has passed since the last cleanup (which
    /// then counts from `now`), and stop when no one listens.
    pub fn on_tick(&mut self, now: i64, receivers: usize) -> (r: LiveTick)
        ensures
            r.cleanup == (now - old(self).last_cleanup > LIVE_CLEANUP_INTERVAL_MS),
            r.stop == (receivers == 0),
            final(self).last_cleanup == (if r.cleanup {
                now
            } else {
                old(self).last_cleanup
            }),
    {
        let cleanup = if self.last_cleanup <= i64::MAX - LIVE_CLEANUP_INTERVAL_MS {
            now > self.last_cleanup + LIVE_CLEANUP_INTERVAL_MS
        } else {
            false
        };
        if cleanup {
            self.last_cleanup = now;
        }
        LiveTick { cleanup, stop: receivers == 0 }
    }

    /// The step after a fetch that gave `fetched` samples, or failed.
    pub fn after_fetch(&self, fetched: &Result<usize, String>) -> (r: LiveStep)
        ensures
            r == (match fetched {
                Ok(n) => if *n > 0 {
                    LiveStep::Publish
                } else {
                    LiveStep::Idle
                },
                Err(_) => LiveStep::Retry,
            }),
    {
        match fetched {
            Ok(n) => if *n > 0 {
                LiveStep::Publish
            } else {
                LiveStep::Idle
            },
            Err(_) => LiveStep::Retry,
        }
    }
}

// ---------------------------------------------------------------------------
// Laws of the series cache
// ---------------------------------------------------------------------------

/// A series cached at `now` is found, as it was stored, by a lookup before
/// the cache's period has passed, and not found once it has.
pub proof fn law_cached_series_read_back(
    m: Map<Seq<char>, CacheEntry>,
    key: Seq<char>,
    data: NormalizedPVData,
    now: i64,
    later: i64,
)
    requires
        now + CACHE_TTL_MS <= i64::MAX,
    ensures
        ({
            let after = m.insert(key, CacheEntry { data, expires_at: (now + CACHE_TTL_MS) as i64 });
            &&& after.dom().contains(key)
            &&& after[key].data == data
            &&& (later < now + CACHE_TTL_MS <==> later < after[key].expires_at)
        }),
{
}

/// No more entries are valid than there are entries, and right after a
/// cleanup at `now` every entry is valid at `now`.
pub proof fn law_cache_stats_after_cleanup(m: Map<Seq<char>, CacheEntry>, now: i64)
    requires
        m.dom().finite(),
    ensures
        valid_keys(m, now).len() <= m.dom().len(),
        valid_keys(m.restrict(valid_keys(m, now)), now) == m.restrict(valid_keys(m, now)).dom(),
{
    vstd::set_lib::lemma_len_subset(valid_keys(m, now), m.dom());
    let kept = m.restrict(valid_keys(m, now));
    assert(valid_keys(kept, now) =~= kept.dom());
}

/// Every operator the automatic level asks for is one the validator
/// accepts.
pub proof fn law_auto_operator_validates(duration: i64)
    ensures
        crate::archiver::validation::operator_errors(auto_operator(duration).spec_to_string()).len()
            == 0,
{
    crate::archiver::validation::law_written_operators_validate(auto_operator(duration));
}

/// Each level but the automatic one asks for the archiver's operator of its
/// own name with its own number, whatever the range (`min_60` for `Min(60)`,
/// `optimized_800` for `Optimized(800)`, `raw` for raw data); the automatic
/// level asks for raw data up to a day and for means over one minute,
/// fifteen minutes or an hour beyond.
pub proof fn law_levels_name_their_operator(level: OptimizationLevel, duration: i64, other: i64)
    ensures
        ({
            let text = level.spec_operator(duration).spec_to_string();
            match level {
                OptimizationLevel::Raw => text == "raw"@,
                OptimizationLevel::Optimized(n) => text == "optimized"@ + "_"@ + decimal_text(n as int),
                OptimizationLevel::Mean(i) => text == "mean"@ + "_"@ + decimal_text(i as int),
                OptimizationLevel::FirstSample(i) => text == "firstSample"@ + "_"@ + decimal_text(
                    i as int,
                ),
                OptimizationLevel::LastSample(i) => text == "lastSample"@ + "_"@ + decimal_text(
                    i as int,
                ),
                OptimizationLevel::Min(i) => text == "min"@ + "_"@ + decimal_text(i as int),
                OptimizationLevel::Max(i) => text == "max"@ + "_"@ + decimal_text(i as int),
                OptimizationLevel::Auto => if duration <= 86_400 {
                    text == "raw"@
                } else if duration <= 604_800 {
                    text == "mean"@ + "_"@ + decimal_text(60)
                } else if duration <= 2_592_000 {
                    text == "mean"@ + "_"@ + decimal_text(900)
                } else {
                    text == "mean"@ + "_"@ + decimal_text(3600)
                },
            }
        }),
        !(level is Auto) ==> level.spec_operator(duration) == level.spec_operator(other),
{
}

/// Whether `q` is the normalised form of the sample `p`: the sample's
/// instant in milliseconds, its severity and its status (0 where absent),
/// and its number as value, minimum and maximum, with no spread and a count
/// of one.
pub open spec fn normalises(p: Point, q: ProcessedPoint) -> bool {
    &&& p.val.spec_as_number() == Some(q.value)
    &&& q.timestamp == p.secs * 1000 + div_million(
        match p.nanos {
            Some(n) => n as int,
            None => 0,
        },
    )
    &&& q.severity == (match p.severity {
        Some(s) => s,
        None => 0,
    })
    &&& q.status == (match p.status {
        Some(s) => s,
        None => 0,
    })
    &&& q.min == q.value
    &&& q.max == q.value
    &&& q.stddev == 0
    &&& q.count == 1
}

/// Every candidate comes from a sample that has a number.
proof fn lemma_candidates_come_from_samples(data: Seq<Point>)
    requires
        instants_fit(data),
    ensures
        forall|i: int|
            0 <= i < candidates(data).len() ==> exists|j: int|
                0 <= j < data.len() && normalises(data[j], #[trigger] candidates(data)[i]),
    decreases data.len(),
{
    if data.len() > 0 {
        let rest = data.drop_last();
        assert forall|i: int|
            0 <= i < rest.len() && (#[trigger] rest[i]).val.spec_as_number() is Some implies i64::MIN
                <= point_millis(rest[i]) <= i64::MAX by {
            assert(rest[i] == data[i]);
        }
        lemma_candidates_come_from_samples(rest);
        let c = candidates(data);
        let cr = candidates(rest);
        assert forall|i: int| 0 <= i < c.len() implies exists|j: int|
            0 <= j < data.len() && normalises(data[j], #[trigger] c[i]) by {
            if i < cr.len() {
                assert(c[i] == cr[i]);
                let j = choose|j: int| 0 <= j < rest.len() && normalises(rest[j], #[trigger] cr[i]);
                assert(rest[j] == data[j]);
            } else {
                let last = data.len() - 1;
                assert(data[last] == data.last());
                assert(normalises(data[last], c[i]));
            }
        }
    }
}

/// Normalising keeps each point as its sample gave it: every point of the
/// result is the normalised form of one of the samples, with that sample's
/// instant, severity, status and number, and no instant occurs twice.
pub proof fn law_normalised_points_keep_their_sample(data: Seq<Point>, out: Seq<ProcessedPoint>)
    requires
        instants_fit(data),
        sorted_first_by_instant(out, candidates(data)),
    ensures
        forall|k: int|
            0 <= k < out.len() ==> exists|j: int|
                0 <= j < data.len() && normalises(data[j], #[trigger] out[k]),
        forall|a: int, b: int| 0 <= a < b < out.len() ==> out[a].timestamp != out[b].timestamp,
{
    lemma_candidates_come_from_samples(data);
    let c = candidates(data);
    assert forall|k: int| 0 <= k < out.len() implies exists|j: int|
        0 <= j < data.len() && normalises(data[j], #[trigger] out[k]) by {
        assert(kept_first(out, c, k));
        reveal(kept_first);
        let i = choose|i: int| first_of_its_instant(c, i) && c[i] == out[k];
        assert(0 <= i < c.len());
        let j = choose|j: int| 0 <= j < data.len() && normalises(data[j], #[trigger] c[i]);
        assert(normalises(data[j], c[i]));
    }
    assert forall|a: int, b: int| 0 <= a < b < out.len() implies out[a].timestamp != out[b].timestamp by {
        assert(out[a].timestamp < out[b].timestamp);
    }
}

} // verus!
