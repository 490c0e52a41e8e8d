//! Data types of the archiver interface.
//!
//! Floating-point quantities (sample values, limits, statistics) are carried
//! as their IEEE-754 bit patterns (`f64::to_bits`); instants are milliseconds
//! since the Unix epoch.

use vstd::prelude::*;

use crate::text::{chars_of, concat2, decimal_text, i64_text, parse_i32, parsed_i32, push_str};
use crate::types::JsonValue;

verus! {

/// Data of one PV as the archiver returns it.
#[derive(Debug, Clone)]
pub struct PVData {
    pub meta: Meta,
    pub data: Vec<Point>,
    pub statistics: Option<Statistics>,
}

/// Metadata of a PV.
#[derive(Debug, Clone)]
pub struct Meta {
    pub name: String,
    pub egu: String,
    pub description: Option<String>,
    pub precision: Option<i32>,
    pub archive_parameters: Option<ArchiveParameters>,
    pub display_limits: Option<DisplayLimits>,
    pub alarm_limits: Option<AlarmLimits>,
}

/// Display limits (bit patterns of `f64`).
#[derive(Debug, Clone, Copy)]
pub struct DisplayLimits {
    pub low: u64,
    pub high: u64,
}

/// Alarm limits (bit patterns of `f64`).
#[derive(Debug, Clone, Copy)]
pub struct AlarmLimits {
    pub low: u64,
    pub high: u64,
    pub lolo: u64,
    pub hihi: u64,
}

/// How a PV is archived; the sampling period is the bit pattern of an `f64`
/// number of seconds.
#[derive(Debug, Clone)]
pub struct ArchiveParameters {
    pub sampling_period: u64,
    pub sampling_method: String,
    pub last_modified: i64,
}

/// One archived sample.
#[derive(Debug, Clone)]
pub struct Point {
    pub secs: i64,
    pub nanos: Option<i64>,
    pub val: Value,
    pub severity: Option<i32>,
    pub status: Option<i32>,
}

/// The value of a sample; numbers are bit patterns of `f64`.
#[derive(Debug, Clone)]
pub enum Value {
    Single(u64),
    Array(Vec<u64>),
    Text(String),
    Binary(Vec<u8>),
}

/// Value, spread and count of a binned sample (bit patterns of `f64`).
#[derive(Debug, Clone, Copy)]
pub struct ProcessedValue {
    pub value: u64,
    pub min: u64,
    pub max: u64,
    pub stddev: u64,
    pub count: i64,
}

/// A sample after normalisation: the timestamp is in milliseconds, the
/// numbers are bit patterns of `f64`.
#[derive(Debug, Clone, Copy)]
pub struct ProcessedPoint {
    pub timestamp: i64,
    pub severity: i32,
    pub status: i32,
    pub value: u64,
    pub min: u64,
    pub max: u64,
    pub stddev: u64,
    pub count: i64,
}

/// Normalised data of one PV.
#[derive(Debug, Clone)]
pub struct NormalizedPVData {
    pub meta: Meta,
    pub data: Vec<ProcessedPoint>,
    pub statistics: Option<Statistics>,
}

/// Summary statistics (bit patterns of `f64`, timestamps in milliseconds).
#[derive(Debug, Clone, Copy)]
pub struct Statistics {
    pub mean: u64,
    pub std_dev: u64,
    pub min: u64,
    pub max: u64,
    pub count: i64,
    pub first_timestamp: i64,
    pub last_timestamp: i64,
}

#[derive(Debug, Clone, Copy)]
pub struct DataChunk {
    pub start: i64,
    pub end: i64,
}

#[derive(Debug, Clone)]
pub struct FetchStrategy {
    pub operator: String,
    pub chunk_size: i64,
    pub max_points: usize,
    pub use_cache: bool,
}

#[derive(Debug, Clone)]
pub struct FetchOptions {
    pub operator: Option<String>,
    pub chunk_size: Option<i64>,
    pub use_cache: Option<bool>,
    pub timeout: Option<u64>,
}

#[derive(Debug, Clone)]
pub struct PVStatus {
    pub name: String,
    pub connected: bool,
    pub last_event_time: Option<i64>,
    pub last_status: Option<String>,
    pub archived: bool,
    pub error_count: u32,
    pub last_error: Option<String>,
}

/// The precision a metadata answer gives: a string read as an `i32`, or a
/// number read as an `i64` and cut to 32 bits; any other value gives none.
/// A string that is no `i32`, or a number that is no `i64`, is refused with
/// the message given.
pub fn precision_from_json(value: &JsonValue) -> (r: Result<Option<i32>, String>)
    ensures
        match value {
            JsonValue::String(s) => match parsed_i32(s@) {
                Some(p) => r == Ok::<Option<i32>, String>(Some(p)),
                None => r matches Err(m) && m@ == "Invalid precision value"@,
            },
            JsonValue::Number { as_i64, .. } => match as_i64 {
                Some(n) => r == Ok::<Option<i32>, String>(Some(n as i32)),
                None => r matches Err(m) && m@ == "Invalid number"@,
            },
            _ => r == Ok::<Option<i32>, String>(None),
        },
{
    match value {
        JsonValue::String(s) => {
            let chars = chars_of(s.as_str());
            match parse_i32(&chars) {
                Some(p) => Ok(Some(p)),
                None => Err(String::from_str("Invalid precision value")),
            }
        },
        JsonValue::Number { as_i64, .. } => match as_i64 {
            Some(n) => Ok(Some(*n as i32)),
            None => Err(String::from_str("Invalid number")),
        },
        _ => Ok(None),
    }
}

impl ArchiveParameters {
    /// A field-by-field copy.
    pub fn copied(&self) -> (r: Self)
        ensures
            r == *self,
    {
        ArchiveParameters {
            sampling_period: self.sampling_period,
            sampling_method: self.sampling_method.clone(),
            last_modified: self.last_modified,
        }
    }
}

impl Meta {
    /// A field-by-field copy.
    pub fn copied(&self) -> (r: Self)
        ensures
            r == *self,
    {
        let description = match &self.description {
            Some(d) => Some(d.clone()),
            None => None,
        };
        let archive_parameters = match &self.archive_parameters {
            Some(p) => Some(p.copied()),
            None => None,
        };
        Meta {
            name: self.name.clone(),
            egu: self.egu.clone(),
            description,
            precision: self.precision,
            archive_parameters,
            display_limits: self.display_limits,
            alarm_limits: self.alarm_limits,
        }
    }
}

/// A cached value with the instant it was stored and the instant it expires.
#[derive(Debug, Clone)]
pub struct CacheEntry<T> {
    pub data: T,
    pub timestamp: i64,
    pub expires: i64,
}

impl<T> CacheEntry<T> {
    /// Whether the entry has expired at `now`: strictly after its expiry.
    pub fn is_expired_at(&self, now: i64) -> (r: bool)
        ensures
            r == (now > self.expires),
    {
        now > self.expires
    }

    /// Whether the entry has expired by the machine's clock.
    pub fn is_expired(&self) -> (r: bool)
        ensures
            r ==> self.expires < i64::MAX,
    {
        let now = crate::calendar::now_millis();
        self.is_expired_at(now)
    }
}

/// Response formats of the archiver.
#[derive(Debug, Clone, Copy, PartialEq, Eq)]
pub enum DataFormat {
    Json,
    Csv,
    Raw,
    Matlab,
    Text,
    Svg,
}

impl DataFormat {
    /// The file extension the archiver uses for the format.
    pub open spec fn spec_as_str(self) -> Seq<char> {
        match self {
            DataFormat::Json => "json"@,
            DataFormat::Csv => "csv"@,
            DataFormat::Raw => "raw"@,
            DataFormat::Matlab => "mat"@,
            DataFormat::Text => "txt"@,
            DataFormat::Svg => "svg"@,
        }
    }

    /// The file extension the archiver uses for the format.
    pub fn as_str(&self) -> (r: &'static str)
        ensures
            r@ == self.spec_as_str(),
    {
        match self {
            DataFormat::Json => "json",
            DataFormat::Csv => "csv",
            DataFormat::Raw => "raw",
            DataFormat::Matlab => "mat",
            DataFormat::Text => "txt",
            DataFormat::Svg => "svg",
        }
    }
}

/// Options of a fetch as the archiver's API documents them.
#[derive(Debug, Clone, Default)]
pub struct ExtendedFetchOptions {
    pub operator: Option<String>,
    pub timezone: Option<String>,
    pub chart_width: Option<i32>,
    pub batch_size: Option<usize>,
    pub fetch_latest_metadata: Option<bool>,
    pub retired_pv_template: Option<String>,
    pub do_not_chunk: Option<bool>,
    pub ca_count: Option<i32>,
    pub ca_how: Option<i32>,
    pub use_raw_processing: Option<bool>,
    pub format: Option<DataFormat>,
}

/// The value of a PV at one instant.
#[derive(Debug, Clone)]
pub struct PointInTimeData {
    pub meta: Meta,
    pub data: PointValue,
}

/// A sample reported for a point in time.
#[derive(Debug, Clone)]
pub struct PointValue {
    pub secs: i64,
    pub nanos: Option<i64>,
    pub val: Value,
    pub severity: Option<i32>,
    pub status: Option<i32>,
}

/// The processing operators of the EPICS Archiver Appliance. The deviation
/// threshold of the flyer operators is held as the decimal text that names it
/// in a request.
#[derive(Debug, Clone)]
pub enum DataOperator {
    Raw,
    FirstSample(Option<i32>),
    LastSample(Option<i32>),
    FirstFill(Option<i32>),
    LastFill(Option<i32>),
    Mean(Option<i32>),
    Min(Option<i32>),
    Max(Option<i32>),
    Count(Option<i32>),
    NCount,
    Nth(i32),
    Median(Option<i32>),
    Std(Option<i32>),
    Variance(Option<i32>),
    PopVariance(Option<i32>),
    Jitter(Option<i32>),
    Kurtosis(Option<i32>),
    Skewness(Option<i32>),
    IgnoreFlyers { bin_size: Option<i32>, deviations: String },
    Flyers { bin_size: Option<i32>, deviations: String },
    Optimized(i32),
}

/// `name`, followed by `_` and the bin size where there is one.
pub open spec fn binned_text(name: Seq<char>, bin: Option<i32>) -> Seq<char> {
    match bin {
        None => name,
        Some(b) => name + "_"@ + decimal_text(b as int),
    }
}

/// `name_`, then the bin size and `_` where there is one, then the deviation.
pub open spec fn flyer_text(name: Seq<char>, bin: Option<i32>, deviations: Seq<char>) -> Seq<char> {
    match bin {
        None => name + "_"@ + deviations,
        Some(b) => name + "_"@ + decimal_text(b as int) + "_"@ + deviations,
    }
}

fn binned(name: &str, bin: Option<i32>) -> (r: String)
    ensures
        r@ == binned_text(name@, bin),
{
    match bin {
        None => String::from_str(name),
        Some(b) => {
            let mut r = concat2(name, "_");
            let digits = i64_text(b as i64);
            push_str(&mut r, digits.as_str());
            r
        },
    }
}

fn flyers(name: &str, bin: Option<i32>, deviations: &String) -> (r: String)
    ensures
        r@ == flyer_text(name@, bin, deviations@),
{
    let mut r = concat2(name, "_");
    match bin {
        None => {},
        Some(b) => {
            let digits = i64_text(b as i64);
            push_str(&mut r, digits.as_str());
            push_str(&mut r, "_");
        },
    }
    push_str(&mut r, deviations.as_str());
    r
}

impl DataOperator {
    /// The operator as the archiver names it in a request.
    pub open spec fn spec_to_string(self) -> Seq<char> {
        match self {
            DataOperator::Raw => "raw"@,
            DataOperator::FirstSample(b) => binned_text("firstSample"@, b),
            DataOperator::LastSample(b) => binned_text("lastSample"@, b),
            DataOperator::FirstFill(b) => binned_text("firstFill"@, b),
            DataOperator::LastFill(b) => binned_text("lastFill"@, b),
            DataOperator::Mean(b) => binned_text("mean"@, b),
            DataOperator::Min(b) => binned_text("min"@, b),
            DataOperator::Max(b) => binned_text("max"@, b),
            DataOperator::Count(b) => binned_text("count"@, b),
            DataOperator::NCount => "ncount"@,
            DataOperator::Nth(n) => binned_text("nth"@, Some(n)),
            DataOperator::Median(b) => binned_text("median"@, b),
            DataOperator::Std(b) => binned_text("std"@, b),
            DataOperator::Variance(b) => binned_text("variance"@, b),
            DataOperator::PopVariance(b) => binned_text("popvariance"@, b),
            DataOperator::Jitter(b) => binned_text("jitter"@, b),
            DataOperator::Kurtosis(b) => binned_text("kurtosis"@, b),
            DataOperator::Skewness(b) => binned_text("skewness"@, b),
            DataOperator::IgnoreFlyers { bin_size, deviations } => flyer_text(
                "ignoreflyers"@,
                bin_size,
                deviations@,
            ),
            DataOperator::Flyers { bin_size, deviations } => flyer_text(
                "flyers"@,
                bin_size,
                deviations@,
            ),
            DataOperator::Optimized(n) => binned_text("optimized"@, Some(n)),
        }
    }

    /// The operator as the archiver names it in a request, such as `mean_60`.
    pub fn to_string(&self) -> (r: String)
        ensures
            r@ == self.spec_to_string(),
    {
        match self {
            DataOperator::Raw => String::from_str("raw"),
            DataOperator::FirstSample(b) => binned("firstSample", *b),
            DataOperator::LastSample(b) => binned("lastSample", *b),
            DataOperator::FirstFill(b) => binned("firstFill", *b),
            DataOperator::LastFill(b) => binned("lastFill", *b),
            DataOperator::Mean(b) => binned("mean", *b),
            DataOperator::Min(b) => binned("min", *b),
            DataOperator::Max(b) => binned("max", *b),
            DataOperator::Count(b) => binned("count", *b),
            DataOperator::NCount => String::from_str("ncount"),
            DataOperator::Nth(n) => binned("nth", Some(*n)),
            DataOperator::Median(b) => binned("median", *b),
            DataOperator::Std(b) => binned("std", *b),
            DataOperator::Variance(b) => binned("variance", *b),
            DataOperator::PopVariance(b) => binned("popvariance", *b),
            DataOperator::Jitter(b) => binned("jitter", *b),
            DataOperator::Kurtosis(b) => binned("kurtosis", *b),
            DataOperator::Skewness(b) => binned("skewness", *b),
            DataOperator::IgnoreFlyers { bin_size, deviations } => flyers(
                "ignoreflyers",
                *bin_size,
                deviations,
            ),
            DataOperator::Flyers { bin_size, deviations } => flyers(
                "flyers",
                *bin_size,
                deviations,
            ),
            DataOperator::Optimized(n) => binned("optimized", Some(*n)),
        }
    }

    /// The default bin size in seconds for a time range of the given length:
    /// 10 s up to an hour, a minute up to a day, 5 minutes up to a week, and
    /// 15 minutes beyond.
    pub fn default_bin_size(duration_seconds: i64) -> (r: i32)
        ensures
            r == (if duration_seconds <= 3600 {
                10i32
            } else if duration_seconds <= 86400 {
                60i32
            } else if duration_seconds <= 604800 {
                300i32
            } else {
                900i32
            }),
    {
        if duration_seconds <= 3600 {
            10
        } else if duration_seconds <= 86400 {
            60
        } else if duration_seconds <= 604800 {
            300
        } else {
            900
        }
    }

    /// Whether the operator bins its samples: all but `raw`, `ncount` and `nth`.
    pub open spec fn spec_supports_binning(self) -> bool {
        !(self is Raw || self is NCount || self is Nth)
    }

    /// Whether the operator bins its samples: all but `raw`, `ncount` and `nth`.
    pub fn supports_binning(&self) -> (r: bool)
        ensures
            r == self.spec_supports_binning(),
    {
        match self {
            DataOperator::Raw | DataOperator::NCount | DataOperator::Nth(_) => false,
            _ => true,
        }
    }
}

/// A time range in seconds since the epoch.
#[derive(Debug, Clone, Copy)]
pub struct TimeRange {
    pub start: i64,
    pub end: i64,
}

/// Extended status of an archived PV.
#[derive(Debug, Clone)]
pub struct DetailedPVStatus {
    pub name: String,
    pub connected: bool,
    pub archived: bool,
    pub archive_enabled: bool,
    pub last_event_time: Option<i64>,
    pub last_status: Option<String>,
    pub error_count: u32,
    pub last_error: Option<String>,
    pub sampling_period: Option<u64>,
    pub sampling_method: Option<String>,
    pub archival_state: String,
    pub last_modified: Option<i64>,
}

impl Value {
    /// The number a value stands for: a single number, or the first element
    /// of a non-empty array (bit patterns of `f64`).
    pub open spec fn spec_as_number(self) -> Option<u64> {
        match self {
            Value::Single(v) => Some(v),
            Value::Array(arr) => if arr@.len() > 0 {
                Some(arr@[0])
            } else {
                None
            },
            _ => None,
        }
    }

    /// The number a value stands for, if any.
    pub fn value_as_f64(&self) -> (r: Option<u64>)
        ensures
            r == self.spec_as_number(),
    {
        match self {
            Value::Single(v) => Some(*v),
            Value::Array(arr) => {
                if arr.len() > 0 {
                    Some(arr[0])
                } else {
                    None
                }
            },
            _ => None,
        }
    }
}

impl Point {
    /// The sample's number: a single value, or the first element of a
    /// non-empty array (bit pattern of an `f64`).
    pub fn value_as_f64(&self) -> (r: Option<u64>)
        ensures
            r == self.val.spec_as_number(),
    {
        self.val.value_as_f64()
    }
}

impl PointValue {
    /// The sample's number: a single value, or the first element of a
    /// non-empty array (bit pattern of an `f64`).
    pub fn value_as_f64(&self) -> (r: Option<u64>)
        ensures
            r == self.val.spec_as_number(),
    {
        self.val.value_as_f64()
    }
}

} // verus!
