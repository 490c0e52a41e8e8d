//! Data types of the viewer's client: processing modes, metadata, samples and
//! errors.

use vstd::prelude::*;

use crate::archiver::types::DataOperator;
use crate::text::{concat2, decimal_text, push_str};

verus! {

broadcast use vstd::string::group_string_axioms;

/// The format the archiver is asked to answer in.
#[derive(Debug, Clone, Copy, PartialEq, Eq)]
pub enum DataFormat {
    Raw,
    Json,
}

impl DataFormat {
    /// The default format is the raw (protocol-buffer) one.
    pub fn default() -> (r: Self)
        ensures
            r == DataFormat::Raw,
    {
        DataFormat::Raw
    }
}

/// The archiver's processing of samples before they are returned.
#[derive(Debug, Clone, Copy, PartialEq, Eq)]
pub enum ProcessingMode {
    Optimized,
    Raw,
    Mean,
    Max,
    Min,
    Jitter,
    StdDev,
    Count,
    FirstSample,
    LastSample,
    FirstFill,
    LastFill,
    Median,
    Variance,
    PopVariance,
    Kurtosis,
    Skewness,
    Linear,
    Loess,
    CAPlotBinning,
}

impl ProcessingMode {
    /// The archiver's name of the operator; empty for raw data.
    pub open spec fn spec_operator(self) -> Seq<char> {
        match self {
            ProcessingMode::Raw => Seq::empty(),
            ProcessingMode::Optimized => "optimized"@,
            ProcessingMode::Mean => "mean"@,
            ProcessingMode::Max => "max"@,
            ProcessingMode::Min => "min"@,
            ProcessingMode::Jitter => "jitter"@,
            ProcessingMode::StdDev => "std"@,
            ProcessingMode::Count => "count"@,
            ProcessingMode::FirstSample => "firstSample"@,
            ProcessingMode::LastSample => "lastSample"@,
            ProcessingMode::FirstFill => "firstFill"@,
            ProcessingMode::LastFill => "lastFill"@,
            ProcessingMode::Median => "median"@,
            ProcessingMode::Variance => "variance"@,
            ProcessingMode::PopVariance => "popvariance"@,
            ProcessingMode::Kurtosis => "kurtosis"@,
            ProcessingMode::Skewness => "skewness"@,
            ProcessingMode::Linear => "linear"@,
            ProcessingMode::Loess => "loess"@,
            ProcessingMode::CAPlotBinning => "caplotbinning"@,
        }
    }

    /// The archiver's name of the operator; empty for raw data.
    pub fn get_operator(&self) -> (r: String)
        ensures
            r@ == self.spec_operator(),
    {
        match self {
            ProcessingMode::Raw => String::new(),
            ProcessingMode::Optimized => String::from_str("optimized"),
            ProcessingMode::Mean => String::from_str("mean"),
            ProcessingMode::Max => String::from_str("max"),
            ProcessingMode::Min => String::from_str("min"),
            ProcessingMode::Jitter => String::from_str("jitter"),
            ProcessingMode::StdDev => String::from_str("std"),
            ProcessingMode::Count => String::from_str("count"),
            ProcessingMode::FirstSample => String::from_str("firstSample"),
            ProcessingMode::LastSample => String::from_str("lastSample"),
            ProcessingMode::FirstFill => String::from_str("firstFill"),
            ProcessingMode::LastFill => String::from_str("lastFill"),
            ProcessingMode::Median => String::from_str("median"),
            ProcessingMode::Variance => String::from_str("variance"),
            ProcessingMode::PopVariance => String::from_str("popvariance"),
            ProcessingMode::Kurtosis => String::from_str("kurtosis"),
            ProcessingMode::Skewness => String::from_str("skewness"),
            ProcessingMode::Linear => String::from_str("linear"),
            ProcessingMode::Loess => String::from_str("loess"),
            ProcessingMode::CAPlotBinning => String::from_str("caplotbinning"),
        }
    }

    /// The PV as the archiver is asked for it under this mode: the bare name
    /// for raw data, else the operator applied to the name, as in `mean(PV)`.
    pub open spec fn spec_format_pv(self, pv: Seq<char>) -> Seq<char> {
        if self == ProcessingMode::Raw {
            pv
        } else {
            self.spec_operator() + "("@ + pv + ")"@
        }
    }

    /// The PV as the archiver is asked for it under this mode: the bare name
    /// for raw data, else the operator applied to the name, as in `mean(PV)`.
    pub fn format_pv(&self, pv: &str) -> (r: String)
        ensures
            r@ == self.spec_format_pv(pv@),
    {
        match self {
            ProcessingMode::Raw => String::from_str(pv),
            _ => {
                let op = self.get_operator();
                let mut r = concat2(op.as_str(), "(");
                push_str(&mut r, pv);
                push_str(&mut r, ")");
                r
            },
        }
    }
}

/// Metadata of a PV as the archiver names its fields.
#[allow(non_snake_case)]
#[derive(Debug, Clone)]
pub struct Meta {
    pub name: String,
    pub DRVH: Option<String>,
    pub EGU: Option<String>,
    pub HIGH: Option<String>,
    pub HIHI: Option<String>,
    pub DRVL: Option<String>,
    pub PREC: Option<String>,
    pub LOW: Option<String>,
    pub LOLO: Option<String>,
    pub LOPR: Option<String>,
    pub HOPR: Option<String>,
    pub NELM: Option<String>,
    pub DESC: Option<String>,
}

impl Meta {
    /// Metadata with the given name and no other field.
    pub open spec fn named(name: String) -> Self {
        Meta {
            name,
            DRVH: None,
            EGU: None,
            HIGH: None,
            HIHI: None,
            DRVL: None,
            PREC: None,
            LOW: None,
            LOLO: None,
            LOPR: None,
            HOPR: None,
            NELM: None,
            DESC: None,
        }
    }

    /// Metadata with the given name and no other field.
    pub fn with_name(name: String) -> (r: Self)
        ensures
            r == Meta::named(name),
    {
        Meta {
            name,
            DRVH: None,
            EGU: None,
            HIGH: None,
            HIHI: None,
            DRVL: None,
            PREC: None,
            LOW: None,
            LOLO: None,
            LOPR: None,
            HOPR: None,
            NELM: None,
            DESC: None,
        }
    }

    /// Empty metadata: an empty name and no field.
    pub fn default() -> (r: Self)
        ensures
            r.name@ == Seq::<char>::empty(),
            r == Meta::named(r.name),
    {
        Meta {
            name: String::new(),
            DRVH: None,
            EGU: None,
            HIGH: None,
            HIHI: None,
            DRVL: None,
            PREC: None,
            LOW: None,
            LOLO: None,
            LOPR: None,
            HOPR: None,
            NELM: None,
            DESC: None,
        }
    }
}

/// The metadata fields the viewer shows.
#[allow(non_snake_case)]
#[derive(Debug, Clone)]
pub struct PVMetadata {
    pub name: String,
    pub EGU: Option<String>,
    pub PREC: Option<String>,
    pub DESC: Option<String>,
    pub LOPR: Option<String>,
    pub HOPR: Option<String>,
    pub DRVL: Option<String>,
    pub DRVH: Option<String>,
    pub LOW: Option<String>,
    pub HIGH: Option<String>,
    pub LOLO: Option<String>,
    pub HIHI: Option<String>,
}

impl PVMetadata {
    /// The shown fields of a PV's metadata.
    pub fn from_meta(meta: Meta) -> (r: Self)
        ensures
            r == (PVMetadata {
                name: meta.name,
                EGU: meta.EGU,
                PREC: meta.PREC,
                DESC: meta.DESC,
                LOPR: meta.LOPR,
                HOPR: meta.HOPR,
                DRVL: meta.DRVL,
                DRVH: meta.DRVH,
                LOW: meta.LOW,
                HIGH: meta.HIGH,
                LOLO: meta.LOLO,
                HIHI: meta.HIHI,
            }),
    {
        PVMetadata {
            name: meta.name,
            EGU: meta.EGU,
            PREC: meta.PREC,
            DESC: meta.DESC,
            LOPR: meta.LOPR,
            HOPR: meta.HOPR,
            DRVL: meta.DRVL,
            DRVH: meta.DRVH,
            LOW: meta.LOW,
            HIGH: meta.HIGH,
            LOLO: meta.LOLO,
            HIHI: meta.HIHI,
        }
    }
}

/// The value of one sample. `Float` and `Double` hold the IEEE-754 bit
/// patterns of the `f32` and `f64` the archiver sent.
#[derive(Debug, Clone)]
pub enum PointValue {
    Float(u32),
    Double(u64),
    Int(i32),
    Long(i64),
    Short(i16),
    Byte(u8),
    String(String),
    Enum(i32),
    ByteArray(Vec<u8>),
}

/// A JSON value as the conversions read it: a number by the readings
/// `serde_json` offers (`as_f64` as the bit pattern of the `f64`, `as_i64`,
/// `as_u64`) and its text; a string; a boolean; an array by the `as_u64`
/// reading of each element; anything else (null, an object) by the text
/// `Debug` gives it.
#[derive(Debug, Clone)]
pub enum JsonValue {
    Number { as_f64: Option<u64>, as_i64: Option<i64>, as_u64: Option<u64>, text: String },
    String(String),
    Bool(bool),
    Array(Vec<Option<u64>>),
    Other(String),
}

/// The elements of an array that are unsigned integers fitting a byte.
pub open spec fn fitting_bytes(items: Seq<Option<u64>>) -> Seq<u8>
    decreases items.len(),
{
    if items.len() == 0 {
        Seq::empty()
    } else {
        let rest = fitting_bytes(items.drop_last());
        match items.last() {
            Some(u) => if u <= 255 {
                rest.push(u as u8)
            } else {
                rest
            },
            None => rest,
        }
    }
}

/// The elements of an array that are unsigned integers, each cut to its
/// lowest byte.
pub open spec fn truncated_bytes(items: Seq<Option<u64>>) -> Seq<u8>
    decreases items.len(),
{
    if items.len() == 0 {
        Seq::empty()
    } else {
        let rest = truncated_bytes(items.drop_last());
        match items.last() {
            Some(u) => rest.push(u as u8),
            None => rest,
        }
    }
}

/// The bytes of `items` that fit a byte, or, when `truncate` is set, all
/// the unsigned integers cut to their lowest byte.
fn bytes_of(items: &Vec<Option<u64>>, truncate: bool) -> (r: Vec<u8>)
    ensures
        truncate ==> r@ == truncated_bytes(items@),
        !truncate ==> r@ == fitting_bytes(items@),
{
    let mut r: Vec<u8> = Vec::new();
    let mut i: usize = 0;
    while i < items.len()
        invariant
            i <= items@.len(),
            truncate ==> r@ == truncated_bytes(items@.take(i as int)),
            !truncate ==> r@ == fitting_bytes(items@.take(i as int)),
        decreases items@.len() - i,
    {
        proof {
            assert(items@.take(i + 1).drop_last() =~= items@.take(i as int));
            assert(items@.take(i + 1).last() == items@[i as int]);
        }
        match items[i] {
            Some(u) => {
                if truncate {
                    r.push(u as u8);
                } else if u <= 255 {
                    r.push(u as u8);
                }
            },
            None => {},
        }
        i = i + 1;
    }
    proof {
        assert(items@.take(items@.len() as int) =~= items@);
    }
    r
}

/// The text `Display` gives a boolean.
pub open spec fn bool_text(b: bool) -> Seq<char> {
    if b {
        "true"@
    } else {
        "false"@
    }
}

/// The sample value a JSON value stands for: a number as a double where it
/// reads as one, else as a long, else by its text; a string as itself; a
/// boolean by its text; an array as the bytes among its elements; anything
/// else by its debug text.
pub open spec fn json_point_value(v: JsonValue, r: PointValue) -> bool {
    match v {
        JsonValue::Number { as_f64, as_i64, as_u64, text } => match (as_f64, as_i64, as_u64) {
            (Some(f), _, _) => r == PointValue::Double(f),
            (None, Some(i), _) => r == PointValue::Long(i),
            (None, None, Some(u)) => r == PointValue::Long(u as i64),
            (None, None, None) => r matches PointValue::String(s) && s@ == text@,
        },
        JsonValue::String(s) => r matches PointValue::String(t) && t@ == s@,
        JsonValue::Bool(b) => r matches PointValue::String(t) && t@ == bool_text(b),
        JsonValue::Array(items) => r matches PointValue::ByteArray(a) && a@ == fitting_bytes(items@),
        JsonValue::Other(text) => r matches PointValue::String(t) && t@ == text@,
    }
}

impl PointValue {
    /// The sample value a JSON value stands for; see `json_point_value`.
    pub fn from_json(value: JsonValue) -> (r: Self)
        ensures
            json_point_value(value, r),
    {
        match value {
            JsonValue::Number { as_f64, as_i64, as_u64, text } => match as_f64 {
                Some(f) => PointValue::Double(f),
                None => match as_i64 {
                    Some(i) => PointValue::Long(i),
                    None => match as_u64 {
                        Some(u) => PointValue::Long(u as i64),
                        None => PointValue::String(text),
                    },
                },
            },
            JsonValue::String(s) => PointValue::String(s),
            JsonValue::Bool(b) => PointValue::String(
                if b {
                    String::from_str("true")
                } else {
                    String::from_str("false")
                },
            ),
            JsonValue::Array(items) => PointValue::ByteArray(bytes_of(&items, false)),
            JsonValue::Other(text) => PointValue::String(text),
        }
    }
}

/// A sample as the JSON format carries it.
#[derive(Debug, Clone)]
pub struct PointJson {
    pub secs: i64,
    pub nanos: i32,
    pub val: JsonValue,
    pub severity: Option<u8>,
    pub status: Option<u8>,
}

/// The text `Debug` gives a JSON value the sample conversion refuses.
pub open spec fn refused_text(v: JsonValue) -> Seq<char> {
    match v {
        JsonValue::Bool(b) => "Bool("@ + bool_text(b) + ")"@,
        JsonValue::Other(text) => text@,
        _ => Seq::empty(),
    }
}

/// Whether the sample conversion refuses a JSON value: a number with no
/// reading, a boolean, or anything other than a number, string or array.
pub open spec fn json_refused(v: JsonValue) -> bool {
    match v {
        JsonValue::Number { as_f64, as_i64, as_u64, .. } => as_f64 is None && as_i64 is None
            && as_u64 is None,
        JsonValue::String(_) => false,
        JsonValue::Array(_) => false,
        _ => true,
    }
}

/// Whether `r` is what the sample conversion gives for `v`: a number as a
/// double where it reads as one, else as a long, else as an int cut to 32
/// bits; a string as itself; an array as its unsigned integers cut to
/// bytes. Any other value, or a number with no reading, is a decode error.
pub open spec fn json_conversion(v: JsonValue, r: Result<PointValue, Error>) -> bool {
    match v {
        JsonValue::Number { as_f64, as_i64, as_u64, .. } => match (as_f64, as_i64, as_u64) {
            (Some(f), _, _) => r matches Ok(PointValue::Double(x)) && x == f,
            (None, Some(i), _) => r matches Ok(PointValue::Long(x)) && x == i,
            (None, None, Some(u)) => r matches Ok(PointValue::Int(x)) && x == u as i32,
            (None, None, None) => r matches Err(Error::Decode(m)) && m@ == "Unsupported number type"@,
        },
        JsonValue::String(s) => r matches Ok(PointValue::String(t)) && t@ == s@,
        JsonValue::Array(items) => r matches Ok(PointValue::ByteArray(a)) && a@ == truncated_bytes(
            items@,
        ),
        _ => r matches Err(Error::Decode(m)) && m@ == "Unexpected value type: "@ + refused_text(v),
    }
}

impl PointJson {
    /// The sample value of the JSON sample; see `json_conversion`.
    pub fn to_point_value(&self) -> (r: Result<PointValue, Error>)
        ensures
            json_conversion(self.val, r),
            r is Err <==> json_refused(self.val),
    {
        match &self.val {
            JsonValue::Number { as_f64, as_i64, as_u64, .. } => match as_f64 {
                Some(f) => Ok(PointValue::Double(*f)),
                None => match as_i64 {
                    Some(i) => Ok(PointValue::Long(*i)),
                    None => match as_u64 {
                        Some(u) => Ok(PointValue::Int(*u as i32)),
                        None => Err(Error::Decode(String::from_str("Unsupported number type"))),
                    },
                },
            },
            JsonValue::String(s) => Ok(PointValue::String(s.clone())),
            JsonValue::Array(items) => Ok(PointValue::ByteArray(bytes_of(items, true))),
            JsonValue::Bool(b) => {
                let mut m = String::from_str("Unexpected value type: Bool(");
                push_str(&mut m, if *b { "true" } else { "false" });
                push_str(&mut m, ")");
                proof {
                    reveal_strlit("Unexpected value type: Bool(");
                    reveal_strlit("Unexpected value type: ");
                    reveal_strlit("Bool(");
                }
                assert(m@ =~= "Unexpected value type: "@ + refused_text(self.val));
                Err(Error::Decode(m))
            },
            JsonValue::Other(text) => Err(Error::Decode(concat2("Unexpected value type: ", text.as_str()))),
        }
    }
}

/// One sample: seconds and nanoseconds since the epoch, value, alarm
/// severity and status.
#[derive(Debug, Clone)]
pub struct Point {
    pub secs: i64,
    pub nanos: i32,
    pub val: PointValue,
    pub severity: i32,
    pub status: i32,
}

/// The samples of one PV with its metadata.
#[derive(Debug, Clone)]
pub struct PVData {
    pub meta: Meta,
    pub data: Vec<Point>,
}

/// Errors of the client. A network failure is kept as its message.
#[derive(Debug)]
pub enum Error {
    Network(String),
    Decode(String),
    Invalid(String),
}

/// Where the archiver is and how long a request may take.
#[derive(Debug, Clone)]
pub struct Config {
    pub url: String,
    pub timeout_secs: u64,
}

impl Config {
    /// The default archiver and a five-minute timeout.
    pub fn default() -> (r: Self)
        ensures
            r.url@ == crate::constants::DEFAULT_BASE_URL@,
            r.timeout_secs == 300,
    {
        Config {
            url: String::from_str(crate::constants::DEFAULT_BASE_URL),
            timeout_secs: crate::constants::DEFAULT_TIMEOUT_SECS,
        }
    }
}

/// The processing mode the archiver's operator name `s` stands for; raw
/// data for a name of none.
pub open spec fn mode_named(s: Seq<char>) -> ProcessingMode {
    if false {
        ProcessingMode::Raw
    } else if s == "optimized"@ {
        ProcessingMode::Optimized
    } else if s == "mean"@ {
        ProcessingMode::Mean
    } else if s == "max"@ {
        ProcessingMode::Max
    } else if s == "min"@ {
        ProcessingMode::Min
    } else if s == "jitter"@ {
        ProcessingMode::Jitter
    } else if s == "std"@ {
        ProcessingMode::StdDev
    } else if s == "count"@ {
        ProcessingMode::Count
    } else if s == "firstSample"@ {
        ProcessingMode::FirstSample
    } else if s == "lastSample"@ {
        ProcessingMode::LastSample
    } else if s == "firstFill"@ {
        ProcessingMode::FirstFill
    } else if s == "lastFill"@ {
        ProcessingMode::LastFill
    } else if s == "median"@ {
        ProcessingMode::Median
    } else if s == "variance"@ {
        ProcessingMode::Variance
    } else if s == "popvariance"@ {
        ProcessingMode::PopVariance
    } else if s == "kurtosis"@ {
        ProcessingMode::Kurtosis
    } else if s == "skewness"@ {
        ProcessingMode::Skewness
    } else if s == "linear"@ {
        ProcessingMode::Linear
    } else if s == "loess"@ {
        ProcessingMode::Loess
    } else if s == "caplotbinning"@ {
        ProcessingMode::CAPlotBinning
    } else {
        ProcessingMode::Raw
    }
}

/// Each processing mode is asked for under the archiver's own name for the
/// operator of the same kind (`max` for `Max`, `std` for `StdDev`, ...);
/// modes other than raw data have names of their own, none empty and no two
/// alike; and the PV of a request is the bare name for raw data, else wrapped
/// in the mode's own operator.
pub proof fn law_modes_use_their_own_operator(pv: Seq<char>)
    ensures
        ProcessingMode::Mean.spec_operator() == DataOperator::Mean(None).spec_to_string(),
        ProcessingMode::Max.spec_operator() == DataOperator::Max(None).spec_to_string(),
        ProcessingMode::Min.spec_operator() == DataOperator::Min(None).spec_to_string(),
        ProcessingMode::Jitter.spec_operator() == DataOperator::Jitter(None).spec_to_string(),
        ProcessingMode::StdDev.spec_operator() == DataOperator::Std(None).spec_to_string(),
        ProcessingMode::Count.spec_operator() == DataOperator::Count(None).spec_to_string(),
        ProcessingMode::FirstSample.spec_operator() == DataOperator::FirstSample(None).spec_to_string(),
        ProcessingMode::LastSample.spec_operator() == DataOperator::LastSample(None).spec_to_string(),
        ProcessingMode::FirstFill.spec_operator() == DataOperator::FirstFill(None).spec_to_string(),
        ProcessingMode::LastFill.spec_operator() == DataOperator::LastFill(None).spec_to_string(),
        ProcessingMode::Median.spec_operator() == DataOperator::Median(None).spec_to_string(),
        ProcessingMode::Variance.spec_operator() == DataOperator::Variance(None).spec_to_string(),
        ProcessingMode::PopVariance.spec_operator() == DataOperator::PopVariance(None).spec_to_string(),
        ProcessingMode::Kurtosis.spec_operator() == DataOperator::Kurtosis(None).spec_to_string(),
        ProcessingMode::Skewness.spec_operator() == DataOperator::Skewness(None).spec_to_string(),
        forall|n: i32| #[trigger] DataOperator::Optimized(n).spec_to_string() == ProcessingMode::Optimized.spec_operator() + "_"@ + decimal_text(n as int),
        forall|a: ProcessingMode, b: ProcessingMode|
            a != ProcessingMode::Raw && b != ProcessingMode::Raw && a != b ==> #[trigger] a.spec_operator()
                != #[trigger] b.spec_operator(),
        forall|a: ProcessingMode| a != ProcessingMode::Raw ==> #[trigger] a.spec_operator().len() > 0,
        forall|a: ProcessingMode| a != ProcessingMode::Raw ==> mode_named(#[trigger] a.spec_operator()) == a,
        ProcessingMode::Raw.spec_format_pv(pv) == pv,
        forall|a: ProcessingMode|
            a != ProcessingMode::Raw ==> #[trigger] a.spec_format_pv(pv) == a.spec_operator() + "("@
                + pv + ")"@,
{
    reveal_strlit("optimized");
    reveal_strlit("mean");
    reveal_strlit("max");
    reveal_strlit("min");
    reveal_strlit("jitter");
    reveal_strlit("std");
    reveal_strlit("count");
    reveal_strlit("firstSample");
    reveal_strlit("lastSample");
    reveal_strlit("firstFill");
    reveal_strlit("lastFill");
    reveal_strlit("median");
    reveal_strlit("variance");
    reveal_strlit("popvariance");
    reveal_strlit("kurtosis");
    reveal_strlit("skewness");
    reveal_strlit("linear");
    reveal_strlit("loess");
    reveal_strlit("caplotbinning");
    assert("optimized"@[0] != "firstFill"@[0]);
    assert("max"@[1] != "min"@[1]);
    assert("max"@[0] != "std"@[0]);
    assert("min"@[0] != "std"@[0]);
    assert("jitter"@[0] != "median"@[0]);
    assert("jitter"@[0] != "linear"@[0]);
    assert("count"@[0] != "loess"@[0]);
    assert("firstSample"@[0] != "popvariance"@[0]);
    assert("lastFill"@[0] != "variance"@[0]);
    assert("lastFill"@[0] != "kurtosis"@[0]);
    assert("lastFill"@[0] != "skewness"@[0]);
    assert("median"@[0] != "linear"@[0]);
    assert("variance"@[0] != "kurtosis"@[0]);
    assert("variance"@[0] != "skewness"@[0]);
    assert("kurtosis"@[0] != "skewness"@[0]);
    assert("optimized"@.len() != "mean"@.len());
    assert("optimized"@.len() != "max"@.len());
    assert("optimized"@.len() != "min"@.len());
    assert("optimized"@.len() != "jitter"@.len());
    assert("optimized"@.len() != "std"@.len());
    assert("optimized"@.len() != "count"@.len());
    assert("optimized"@.len() != "firstSample"@.len());
    assert("optimized"@.len() != "lastSample"@.len());
    assert("optimized"@.len() != "lastFill"@.len());
    assert("optimized"@.len() != "median"@.len());
    assert("optimized"@.len() != "variance"@.len());
    assert("optimized"@.len() != "popvariance"@.len());
    assert("optimized"@.len() != "kurtosis"@.len());
    assert("optimized"@.len() != "skewness"@.len());
    assert("optimized"@.len() != "linear"@.len());
    assert("optimized"@.len() != "loess"@.len());
    assert("optimized"@.len() != "caplotbinning"@.len());
    assert("mean"@.len() != "max"@.len());
    assert("mean"@.len() != "min"@.len());
    assert("mean"@.len() != "jitter"@.len());
    assert("mean"@.len() != "std"@.len());
    assert("mean"@.len() != "count"@.len());
    assert("mean"@.len() != "firstSample"@.len());
    assert("mean"@.len() != "lastSample"@.len());
    assert("mean"@.len() != "firstFill"@.len());
    assert("mean"@.len() != "lastFill"@.len());
    assert("mean"@.len() != "median"@.len());
    assert("mean"@.len() != "variance"@.len());
    assert("mean"@.len() != "popvariance"@.len());
    assert("mean"@.len() != "kurtosis"@.len());
    assert("mean"@.len() != "skewness"@.len());
    assert("mean"@.len() != "linear"@.len());
    assert("mean"@.len() != "loess"@.len());
    assert("mean"@.len() != "caplotbinning"@.len());
    assert("max"@.len() != "jitter"@.len());
    assert("max"@.len() != "count"@.len());
    assert("max"@.len() != "firstSample"@.len());
    assert("max"@.len() != "lastSample"@.len());
    assert("max"@.len() != "firstFill"@.len());
    assert("max"@.len() != "lastFill"@.len());
    assert("max"@.len() != "median"@.len());
    assert("max"@.len() != "variance"@.len());
    assert("max"@.len() != "popvariance"@.len());
    assert("max"@.len() != "kurtosis"@.len());
    assert("max"@.len() != "skewness"@.len());
    assert("max"@.len() != "linear"@.len());
    assert("max"@.len() != "loess"@.len());
    assert("max"@.len() != "caplotbinning"@.len());
    assert("min"@.len() != "jitter"@.len());
    assert("min"@.len() != "count"@.len());
    assert("min"@.len() != "firstSample"@.len());
    assert("min"@.len() != "lastSample"@.len());
    assert("min"@.len() != "firstFill"@.len());
    assert("min"@.len() != "lastFill"@.len());
    assert("min"@.len() != "median"@.len());
    assert("min"@.len() != "variance"@.len());
    assert("min"@.len() != "popvariance"@.len());
    assert("min"@.len() != "kurtosis"@.len());
    assert("min"@.len() != "skewness"@.len());
    assert("min"@.len() != "linear"@.len());
    assert("min"@.len() != "loess"@.len());
    assert("min"@.len() != "caplotbinning"@.len());
    assert("jitter"@.len() != "std"@.len());
    assert("jitter"@.len() != "count"@.len());
    assert("jitter"@.len() != "firstSample"@.len());
    assert("jitter"@.len() != "lastSample"@.len());
    assert("jitter"@.len() != "firstFill"@.len());
    assert("jitter"@.len() != "lastFill"@.len());
    assert("jitter"@.len() != "variance"@.len());
    assert("jitter"@.len() != "popvariance"@.len());
    assert("jitter"@.len() != "kurtosis"@.len());
    assert("jitter"@.len() != "skewness"@.len());
    assert("jitter"@.len() != "loess"@.len());
    assert("jitter"@.len() != "caplotbinning"@.len());
    assert("std"@.len() != "count"@.len());
    assert("std"@.len() != "firstSample"@.len());
    assert("std"@.len() != "lastSample"@.len());
    assert("std"@.len() != "firstFill"@.len());
    assert("std"@.len() != "lastFill"@.len());
    assert("std"@.len() != "median"@.len());
    assert("std"@.len() != "variance"@.len());
    assert("std"@.len() != "popvariance"@.len());
    assert("std"@.len() != "kurtosis"@.len());
    assert("std"@.len() != "skewness"@.len());
    assert("std"@.len() != "linear"@.len());
    assert("std"@.len() != "loess"@.len());
    assert("std"@.len() != "caplotbinning"@.len());
    assert("count"@.len() != "firstSample"@.len());
    assert("count"@.len() != "lastSample"@.len());
    assert("count"@.len() != "firstFill"@.len());
    assert("count"@.len() != "lastFill"@.len());
    assert("count"@.len() != "median"@.len());
    assert("count"@.len() != "variance"@.len());
    assert("count"@.len() != "popvariance"@.len());
    assert("count"@.len() != "kurtosis"@.len());
    assert("count"@.len() != "skewness"@.len());
    assert("count"@.len() != "linear"@.len());
    assert("count"@.len() != "caplotbinning"@.len());
    assert("firstSample"@.len() != "lastSample"@.len());
    assert("firstSample"@.len() != "firstFill"@.len());
    assert("firstSample"@.len() != "lastFill"@.len());
    assert("firstSample"@.len() != "median"@.len());
    assert("firstSample"@.len() != "variance"@.len());
    assert("firstSample"@.len() != "kurtosis"@.len());
    assert("firstSample"@.len() != "skewness"@.len());
    assert("firstSample"@.len() != "linear"@.len());
    assert("firstSample"@.len() != "loess"@.len());
    assert("firstSample"@.len() != "caplotbinning"@.len());
    assert("lastSample"@.len() != "firstFill"@.len());
    assert("lastSample"@.len() != "lastFill"@.len());
    assert("lastSample"@.len() != "median"@.len());
    assert("lastSample"@.len() != "variance"@.len());
    assert("lastSample"@.len() != "popvariance"@.len());
    assert("lastSample"@.len() != "kurtosis"@.len());
    assert("lastSample"@.len() != "skewness"@.len());
    assert("lastSample"@.len() != "linear"@.len());
    assert("lastSample"@.len() != "loess"@.len());
    assert("lastSample"@.len() != "caplotbinning"@.len());
    assert("firstFill"@.len() != "lastFill"@.len());
    assert("firstFill"@.len() != "median"@.len());
    assert("firstFill"@.len() != "variance"@.len());
    assert("firstFill"@.len() != "popvariance"@.len());
    assert("firstFill"@.len() != "kurtosis"@.len());
    assert("firstFill"@.len() != "skewness"@.len());
    assert("firstFill"@.len() != "linear"@.len());
    assert("firstFill"@.len() != "loess"@.len());
    assert("firstFill"@.len() != "caplotbinning"@.len());
    assert("lastFill"@.len() != "median"@.len());
    assert("lastFill"@.len() != "popvariance"@.len());
    assert("lastFill"@.len() != "linear"@.len());
    assert("lastFill"@.len() != "loess"@.len());
    assert("lastFill"@.len() != "caplotbinning"@.len());
    assert("median"@.len() != "variance"@.len());
    assert("median"@.len() != "popvariance"@.len());
    assert("median"@.len() != "kurtosis"@.len());
    assert("median"@.len() != "skewness"@.len());
    assert("median"@.len() != "loess"@.len());
    assert("median"@.len() != "caplotbinning"@.len());
    assert("variance"@.len() != "popvariance"@.len());
    assert("variance"@.len() != "linear"@.len());
    assert("variance"@.len() != "loess"@.len());
    assert("variance"@.len() != "caplotbinning"@.len());
    assert("popvariance"@.len() != "kurtosis"@.len());
    assert("popvariance"@.len() != "skewness"@.len());
    assert("popvariance"@.len() != "linear"@.len());
    assert("popvariance"@.len() != "loess"@.len());
    assert("popvariance"@.len() != "caplotbinning"@.len());
    assert("kurtosis"@.len() != "linear"@.len());
    assert("kurtosis"@.len() != "loess"@.len());
    assert("kurtosis"@.len() != "caplotbinning"@.len());
    assert("skewness"@.len() != "linear"@.len());
    assert("skewness"@.len() != "loess"@.len());
    assert("skewness"@.len() != "caplotbinning"@.len());
    assert("linear"@.len() != "loess"@.len());
    assert("linear"@.len() != "caplotbinning"@.len());
    assert("loess"@.len() != "caplotbinning"@.len());
    assert forall|a: ProcessingMode| a != ProcessingMode::Raw implies mode_named(#[trigger] a.spec_operator()) == a by {
        match a {
            ProcessingMode::Raw => {},
            ProcessingMode::Optimized => {},
            ProcessingMode::Mean => {},
            ProcessingMode::Max => {},
            ProcessingMode::Min => {},
            ProcessingMode::Jitter => {},
            ProcessingMode::StdDev => {},
            ProcessingMode::Count => {},
            ProcessingMode::FirstSample => {},
            ProcessingMode::LastSample => {},
            ProcessingMode::FirstFill => {},
            ProcessingMode::LastFill => {},
            ProcessingMode::Median => {},
            ProcessingMode::Variance => {},
            ProcessingMode::PopVariance => {},
            ProcessingMode::Kurtosis => {},
            ProcessingMode::Skewness => {},
            ProcessingMode::Linear => {},
            ProcessingMode::Loess => {},
            ProcessingMode::CAPlotBinning => {},
        }
    }
}

} // verus!
