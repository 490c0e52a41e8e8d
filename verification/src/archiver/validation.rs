//! Validation of PV names, operators, time ranges and whole requests.
//!
//! Instants are milliseconds since the Unix epoch; durations are milliseconds.

use vstd::prelude::*;

use crate::archiver::error::{ArchiverError, ErrorContext, Result};
use crate::archiver::types::{binned_text, flyer_text, DataOperator, ExtendedFetchOptions};
use crate::calendar::{display_utc_millis, now_millis, utc_display_of_millis};
use crate::text::{
    chars_of, concat2, decimal_text, free_of, i64_text, is_float_literal, is_float_text,
    lemma_decimal_text_reads_back, lemma_free_of, lemma_split_on_len, lemma_split_three,
    lemma_split_two, parse_i32, parse_i64, parsed_i32, parsed_i64, push_str, split_chars, split_on,
    str_eq, string_from_chars, u64_text,
};

verus! {

broadcast use vstd::string::group_string_axioms;

// ---------------------------------------------------------------------------
// Regular expressions (regex crate)
// ---------------------------------------------------------------------------

/// What `Regex::new(pattern)` followed by `is_match(haystack)` gives: `None`
/// where the pattern does not compile.
pub uninterp spec fn regex_match_outcome(pattern: Seq<char>, haystack: Seq<char>) -> Option<bool>;

/// The pattern of a valid PV name: one to 255 letters, digits, `_`, `-`, `:`
/// or `.`, and nothing else.
pub open spec fn pv_name_pattern() -> Seq<char> {
    "^[A-Za-z0-9_\\-:\\.]{1,255}$"@
}

/// A character allowed in a PV name.
pub open spec fn is_pv_name_char(c: char) -> bool {
    ||| 'A' <= c && c <= 'Z'
    ||| 'a' <= c && c <= 'z'
    ||| '0' <= c && c <= '9'
    ||| c == '_'
    ||| c == '-'
    ||| c == ':'
    ||| c == '.'
}

/// A valid PV name: one to 255 allowed characters.
pub open spec fn is_pv_name(s: Seq<char>) -> bool {
    &&& 1 <= s.len() <= 255
    &&& forall|i: int| 0 <= i < s.len() ==> is_pv_name_char(#[trigger] s[i])
}

/// `regex::Regex::new(pattern)` and `Regex::is_match(haystack)`; `None` where
/// the pattern does not compile. The result is named as a function of the two
/// texts; for the PV-name pattern, an anchored character class with a count
/// (`^`, `$` match only at the ends without the multi-line flag, and the count
/// is of characters), it holds exactly for the valid PV names.
#[verifier::external_body]
fn regex_is_match(pattern: &str, haystack: &str) -> (r: Option<bool>)
    ensures
        r == regex_match_outcome(pattern@, haystack@),
        pattern@ == pv_name_pattern() ==> r == Some(is_pv_name(haystack@)),
{
    match regex::Regex::new(pattern) {
        Ok(re) => Some(re.is_match(haystack)),
        Err(_) => None,
    }
}

// ---------------------------------------------------------------------------
// Durations as `Debug` writes them
// ---------------------------------------------------------------------------

/// The text `Debug` gives for `std::time::Duration::from_millis(ms)`, such as
/// `3600s` or `100ms`.
pub uninterp spec fn duration_debug_of_millis(ms: int) -> Seq<char>;

/// `format!("{:?}", Duration::from_millis(ms))`. The contract names the
/// result: it is a function of `ms` alone.
#[verifier::external_body]
fn duration_debug_millis(ms: u64) -> (r: String)
    ensures
        r@ == duration_debug_of_millis(ms as int),
{
    format!("{:?}", std::time::Duration::from_millis(ms))
}

// ---------------------------------------------------------------------------
// The shape of a validation failure
// ---------------------------------------------------------------------------

/// The views of a vector of strings.
pub open spec fn string_views(v: Seq<String>) -> Seq<Seq<char>> {
    v.map_values(|s: String| s@)
}

/// `e` is an `InvalidRequest` with this message, context and list of
/// failures, and a context for `operation` in `component` carrying `info`.
pub open spec fn is_invalid_request(
    e: ArchiverError,
    message: Seq<char>,
    context: Seq<char>,
    errors: Seq<Seq<char>>,
    component: Seq<char>,
    operation: Seq<char>,
    info: Option<Seq<char>>,
) -> bool {
    match e {
        ArchiverError::InvalidRequest { message: m, context: c, validation_errors, error_context } => {
            &&& m@ == message
            &&& c@ == context
            &&& string_views(validation_errors@) == errors
            &&& error_context matches Some(ctx)
            &&& ctx.source_component@ == component
            &&& ctx.operation@ == operation
            &&& ctx.retry_count == 0
            &&& match ctx.additional_info {
                Some(i) => info == Some(i@),
                None => info is None,
            }
        },
        _ => false,
    }
}

fn invalid_request(
    message: &str,
    context: String,
    validation_errors: Vec<String>,
    error_context: ErrorContext,
) -> (e: ArchiverError)
    ensures
        e == (ArchiverError::InvalidRequest {
            message: e->InvalidRequest_message,
            context,
            validation_errors,
            error_context: Some(error_context),
        }),
        e->InvalidRequest_message@ == message@,
{
    ArchiverError::InvalidRequest {
        message: String::from_str(message),
        context,
        validation_errors,
        error_context: Some(error_context),
    }
}

/// The failure message of an invalid PV name.
pub open spec fn pv_name_failure() -> Seq<char> {
    "PV name contains invalid characters or exceeds length limit"@
}

// ---------------------------------------------------------------------------
// Operators
// ---------------------------------------------------------------------------

/// The base names the archiver's operators may have.
pub open spec fn is_operator_name(s: Seq<char>) -> bool {
    ||| s == "raw"@
    ||| s == "firstSample"@
    ||| s == "lastSample"@
    ||| s == "firstFill"@
    ||| s == "lastFill"@
    ||| s == "mean"@
    ||| s == "min"@
    ||| s == "max"@
    ||| s == "count"@
    ||| s == "median"@
    ||| s == "std"@
    ||| s == "variance"@
    ||| s == "popvariance"@
    ||| s == "jitter"@
    ||| s == "kurtosis"@
    ||| s == "skewness"@
    ||| s == "optimized"@
    ||| s == "nth"@
    ||| s == "ignoreflyers"@
    ||| s == "flyers"@
}

/// What is wrong with the parameters of an operator whose name is known,
/// given the `_`-separated parts of its text.
pub open spec fn operator_parameter_errors(parts: Seq<Seq<char>>) -> Seq<Seq<char>> {
    let base = parts[0];
    if base == "raw"@ {
        if parts.len() > 1 {
            seq!["Raw operator does not accept parameters"@]
        } else {
            seq![]
        }
    } else if base == "nth"@ {
        let n = if parts.len() > 1 {
            parsed_i32(parts[1])
        } else {
            None
        };
        match n {
            Some(v) => if v <= 0 {
                seq!["nth operator requires a positive integer parameter"@]
            } else {
                seq![]
            },
            None => seq!["nth operator parameter must be a valid integer"@],
        }
    } else if base == "ignoreflyers"@ || base == "flyers"@ {
        if parts.len() >= 3 {
            (if parsed_i32(parts[1]) is None {
                seq!["Bin size must be a valid integer"@]
            } else {
                seq![]
            }) + (if !is_float_text(parts[2]) {
                seq!["Deviation threshold must be a valid number"@]
            } else {
                seq![]
            })
        } else {
            seq!["Flyer operators require bin size and deviation threshold parameters"@]
        }
    } else {
        if parts.len() > 1 {
            match parsed_i32(parts[1]) {
                Some(v) => if v <= 0 || v > 86400 {
                    seq!["Bin size must be between 1 and 86400 seconds"@]
                } else {
                    seq![]
                },
                None => seq!["Bin size must be a valid integer"@],
            }
        } else {
            seq![]
        }
    }
}

/// What is wrong with an operator's text: an unknown name, or its parameters.
pub open spec fn operator_errors(op: Seq<char>) -> Seq<Seq<char>> {
    let parts = split_on(op, '_');
    if !is_operator_name(parts[0]) {
        seq!["Unknown operator: "@ + parts[0]]
    } else {
        operator_parameter_errors(parts)
    }
}

fn is_operator_name_exec(base: &str) -> (r: bool)
    ensures
        r == is_operator_name(base@),
{
    str_eq(base, "raw") || str_eq(base, "firstSample") || str_eq(base, "lastSample") || str_eq(
        base,
        "firstFill",
    ) || str_eq(base, "lastFill") || str_eq(base, "mean") || str_eq(base, "min") || str_eq(
        base,
        "max",
    ) || str_eq(base, "count") || str_eq(base, "median") || str_eq(base, "std") || str_eq(
        base,
        "variance",
    ) || str_eq(base, "popvariance") || str_eq(base, "jitter") || str_eq(base, "kurtosis")
        || str_eq(base, "skewness") || str_eq(base, "optimized") || str_eq(base, "nth") || str_eq(
        base,
        "ignoreflyers",
    ) || str_eq(base, "flyers")
}

fn operator_parameter_errors_exec(parts: &Vec<Vec<char>>, base: &str) -> (r: Vec<String>)
    requires
        parts@.len() >= 1,
        base@ == parts@[0]@,
    ensures
        string_views(r@) == operator_parameter_errors(parts@.map_values(|p: Vec<char>| p@)),
{
    let ghost sp = parts@.map_values(|p: Vec<char>| p@);
    let mut errors: Vec<String> = Vec::new();
    if str_eq(base, "raw") {
        if parts.len() > 1 {
            errors.push(String::from_str("Raw operator does not accept parameters"));
        }
    } else if str_eq(base, "nth") {
        let n = if parts.len() > 1 {
            parse_i32(&parts[1])
        } else {
            None
        };
        match n {
            Some(v) => {
                if v <= 0 {
                    errors.push(
                        String::from_str("nth operator requires a positive integer parameter"),
                    );
                }
            },
            None => {
                errors.push(String::from_str("nth operator parameter must be a valid integer"));
            },
        }
    } else if str_eq(base, "ignoreflyers") || str_eq(base, "flyers") {
        if parts.len() >= 3 {
            if parse_i32(&parts[1]).is_none() {
                errors.push(String::from_str("Bin size must be a valid integer"));
            }
            if !is_float_literal(&parts[2]) {
                errors.push(String::from_str("Deviation threshold must be a valid number"));
            }
        } else {
            errors.push(
                String::from_str(
                    "Flyer operators require bin size and deviation threshold parameters",
                ),
            );
        }
    } else {
        if parts.len() > 1 {
            match parse_i32(&parts[1]) {
                Some(v) => {
                    if v <= 0 || v > 86400 {
                        errors.push(String::from_str("Bin size must be between 1 and 86400 seconds"));
                    }
                },
                None => {
                    errors.push(String::from_str("Bin size must be a valid integer"));
                },
            }
        }
    }
    assert(string_views(errors@) =~= operator_parameter_errors(sp));
    errors
}

/// The `_`-separated parts of an operator's text, and its base name.
fn operator_parts(operator: &str) -> (r: (Vec<Vec<char>>, String))
    ensures
        r.0@.map_values(|p: Vec<char>| p@) == split_on(operator@, '_'),
        r.0@.len() >= 1,
        r.1@ == split_on(operator@, '_')[0],
{
    let chars = chars_of(operator);
    let parts = split_chars(&chars, '_');
    proof {
        lemma_split_on_len(operator@, '_');
    }
    assert(parts@.map_values(|p: Vec<char>| p@) =~= split_on(operator@, '_'));
    let base = string_from_chars(&parts[0]);
    (parts, base)
}

// ---------------------------------------------------------------------------
// Limits and parameters
// ---------------------------------------------------------------------------

/// Parameters of a data request; instants are milliseconds since the epoch.
#[derive(Debug, Clone)]
pub struct RequestParameters {
    pub pvs: Vec<String>,
    pub start_time: i64,
    pub end_time: i64,
    pub operator: Option<String>,
    pub chart_width: Option<i32>,
    pub options: Option<ExtendedFetchOptions>,
}

/// Parameters of a live-update subscription; the interval is in milliseconds.
#[derive(Debug, Clone)]
pub struct LiveUpdateParameters {
    pub pvs: Vec<String>,
    pub update_interval: u64,
    pub buffer_size: usize,
    pub operator: Option<String>,
}

/// Limits a request must keep; durations are in milliseconds, bin sizes in
/// seconds.
#[derive(Debug, Clone, Copy)]
pub struct ValidationLimits {
    pub max_pvs: usize,
    pub max_time_range: u64,
    pub min_bin_size: i64,
    pub max_bin_size: i64,
    pub min_update_interval: u64,
    pub max_update_interval: u64,
    pub max_buffer_size: usize,
}

impl ValidationLimits {
    /// The default limits: 100 PVs, a year, bins of 1 s to a day, update
    /// intervals of 100 ms to a minute, buffers of up to 100000 samples.
    pub open spec fn spec_default() -> Self {
        ValidationLimits {
            max_pvs: 100,
            max_time_range: 31_536_000_000,
            min_bin_size: 1,
            max_bin_size: 86400,
            min_update_interval: 100,
            max_update_interval: 60_000,
            max_buffer_size: 100000,
        }
    }

    /// The default limits.
    pub fn default() -> (r: Self)
        ensures
            r == Self::spec_default(),
    {
        ValidationLimits {
            max_pvs: 100,
            max_time_range: 31_536_000_000,
            min_bin_size: 1,
            max_bin_size: 86400,
            min_update_interval: 100,
            max_update_interval: 60_000,
            max_buffer_size: 100000,
        }
    }
}

/// Validation of names, operators and time ranges.
#[derive(Debug, Clone, Copy)]
pub struct Validator;

/// A day in milliseconds.
pub open spec fn day_millis() -> int {
    86_400_000
}

/// The instant as `Display` writes a `DateTime<Utc>`, or its decimal
/// milliseconds where chrono cannot represent it.
pub open spec fn instant_text(ms: int) -> Seq<char> {
    match utc_display_of_millis(ms) {
        Some(t) => t,
        None => decimal_text(ms),
    }
}

fn instant_text_exec(ms: i64) -> (r: String)
    ensures
        r@ == instant_text(ms as int),
{
    match display_utc_millis(ms) {
        Some(t) => t,
        None => i64_text(ms),
    }
}

/// What is wrong with a time range at `now`.
pub open spec fn time_range_errors(start: int, end: int, now: int) -> Seq<Seq<char>> {
    (if end <= start {
        seq!["End time must be after start time"@]
    } else {
        seq![]
    }) + (if end - start > 365 * day_millis() {
        seq!["Time range cannot exceed 1 year"@]
    } else {
        seq![]
    }) + (if start < now - 3650 * day_millis() {
        seq!["Start time cannot be more than 10 years in the past"@]
    } else {
        seq![]
    }) + (if end > now + 60_000 {
        seq!["End time cannot be more than 1 minute in the future"@]
    } else {
        seq![]
    })
}

/// What checking the time range `start..end` at `now` answers: success
/// exactly when nothing is wrong with it, else an invalid request listing
/// what is wrong, with the two instants as context.
pub open spec fn time_range_outcome(start: i64, end: i64, now: i64, r: Result<()>) -> bool {
    match r {
        Ok(()) => time_range_errors(start as int, end as int, now as int).len() == 0,
        Err(e) => time_range_errors(start as int, end as int, now as int).len() > 0
            && is_invalid_request(
            e,
            "Invalid time range"@,
            "start: "@ + instant_text(start as int) + ", end: "@ + instant_text(end as int),
            time_range_errors(start as int, end as int, now as int),
            "Validator"@,
            "validate_time_range"@,
            Some("start: "@ + instant_text(start as int) + ", end: "@ + instant_text(end as int)),
        ),
    }
}

impl Validator {
    /// Checks a PV name: one to 255 letters, digits, `_`, `-`, `:` or `.`.
    pub fn validate_pv_name(name: &str) -> (r: Result<()>)
        ensures
            match r {
                Ok(()) => is_pv_name(name@),
                Err(e) => !is_pv_name(name@) && is_invalid_request(
                    e,
                    "Invalid PV name"@,
                    "PV: "@ + name@,
                    seq![pv_name_failure()],
                    "Validator"@,
                    "validate_pv_name"@,
                    Some("pv_name: "@ + name@),
                ),
            },
    {
        let error_context = ErrorContext::new("Validator", "validate_pv_name").with_info(
            concat2("pv_name: ", name),
        );
        let matched = match regex_is_match("^[A-Za-z0-9_\\-:\\.]{1,255}$", name) {
            Some(b) => b,
            None => false,
        };
        if !matched {
            let errors = vec![
                String::from_str("PV name contains invalid characters or exceeds length limit"),
            ];
            assert(string_views(errors@) =~= seq![pv_name_failure()]);
            return Err(invalid_request("Invalid PV name", concat2("PV: ", name), errors, error_context));
        }
        Ok(())
    }

    /// Checks a time range at the instant `now`: the end after the start, at
    /// most a year long, starting at most ten years back and ending at most a
    /// minute ahead.
    pub fn validate_time_range_at(start: i64, end: i64, now: i64) -> (r: Result<()>)
        ensures
            time_range_outcome(start, end, now, r),
    {
        let start_text = instant_text_exec(start);
        let end_text = instant_text_exec(end);
        let mut info = concat2("start: ", start_text.as_str());
        push_str(&mut info, ", end: ");
        push_str(&mut info, end_text.as_str());
        let mut context = concat2("start: ", start_text.as_str());
        push_str(&mut context, ", end: ");
        push_str(&mut context, end_text.as_str());
        let error_context = ErrorContext::new("Validator", "validate_time_range").with_info(info);
        let mut errors: Vec<String> = Vec::new();
        let s = start as i128;
        let e = end as i128;
        let n = now as i128;
        if e <= s {
            errors.push(String::from_str("End time must be after start time"));
        }
        if e - s > 365 * 86_400_000 {
            errors.push(String::from_str("Time range cannot exceed 1 year"));
        }
        if s < n - 3650 * 86_400_000 {
            errors.push(String::from_str("Start time cannot be more than 10 years in the past"));
        }
        if e > n + 60_000 {
            errors.push(String::from_str("End time cannot be more than 1 minute in the future"));
        }
        assert(string_views(errors@) =~= time_range_errors(start as int, end as int, now as int));
        if errors.len() == 0 {
            Ok(())
        } else {
            Err(invalid_request("Invalid time range", context, errors, error_context))
        }
    }

    /// Checks a time range against the machine's clock.
    pub fn validate_time_range(start: i64, end: i64) -> (r: Result<()>)
        ensures
            exists|now: i64| #[trigger] time_range_outcome(start, end, now, r),
            r is Ok ==> end > start && end - start <= 365 * day_millis(),
            end <= start || end - start > 365 * day_millis() ==> r is Err,
    {
        let now = now_millis();
        let r = Self::validate_time_range_at(start, end, now);
        assert(time_range_outcome(start, end, now, r));
        r
    }

    /// Checks an operator's text: its name must be one of the archiver's, and
    /// its `_`-separated parameters must suit it (`raw` takes none, `nth` a
    /// positive integer, the flyer operators a bin size and a number, the
    /// others an optional bin size of 1 to 86400 seconds).
    pub fn validate_operator(operator: &str) -> (r: Result<()>)
        ensures
            ({
                let parts = split_on(operator@, '_');
                match r {
                    Ok(()) => is_operator_name(parts[0]) && operator_errors(operator@).len() == 0,
                    Err(e) => operator_errors(operator@).len() > 0 && if !is_operator_name(
                        parts[0],
                    ) {
                        is_invalid_request(
                            e,
                            "Invalid operator"@,
                            "operator: "@ + operator@,
                            operator_errors(operator@),
                            "Validator"@,
                            "validate_operator"@,
                            Some("operator: "@ + operator@),
                        )
                    } else {
                        is_invalid_request(
                            e,
                            "Invalid operator parameters"@,
                            "operator: "@ + operator@,
                            operator_errors(operator@),
                            "Validator"@,
                            "validate_operator"@,
                            Some("operator: "@ + operator@),
                        )
                    },
                }
            }),
    {
        let error_context = ErrorContext::new("Validator", "validate_operator").with_info(
            concat2("operator: ", operator),
        );
        let (parts, base) = operator_parts(operator);
        let ghost sp = split_on(operator@, '_');
        if !is_operator_name_exec(base.as_str()) {
            let errors = vec![concat2("Unknown operator: ", base.as_str())];
            assert(string_views(errors@) =~= seq!["Unknown operator: "@ + sp[0]]);
            return Err(
                invalid_request(
                    "Invalid operator",
                    concat2("operator: ", operator),
                    errors,
                    error_context,
                ),
            );
        }
        let errors = operator_parameter_errors_exec(&parts, base.as_str());
        if errors.len() == 0 {
            Ok(())
        } else {
            Err(
                invalid_request(
                    "Invalid operator parameters",
                    concat2("operator: ", operator),
                    errors,
                    error_context,
                ),
            )
        }
    }
}

// ---------------------------------------------------------------------------
// Whole requests
// ---------------------------------------------------------------------------

/// The failures the invalid names among `pvs` add, one per invalid name.
pub open spec fn pv_name_errors(pvs: Seq<Seq<char>>) -> Seq<Seq<char>>
    decreases pvs.len(),
{
    if pvs.len() == 0 {
        seq![]
    } else {
        pv_name_errors(pvs.drop_last()) + if is_pv_name(pvs.last()) {
            seq![]
        } else {
            seq![pv_name_failure()]
        }
    }
}

/// What is wrong with the size of a request of `n` PVs.
pub open spec fn pv_count_errors(n: nat, max: usize, what: Seq<char>, none: Seq<char>) -> Seq<
    Seq<char>,
> {
    if n == 0 {
        seq![none]
    } else if n > max {
        seq![what + decimal_text(max as int) + ")"@]
    } else {
        seq![]
    }
}

/// The failure an operator's bin size adds when it is an integer outside the
/// limits.
pub open spec fn bin_limit_errors(op: Seq<char>, limits: ValidationLimits) -> Seq<Seq<char>> {
    let parts = split_on(op, '_');
    if parts.len() > 1 && parsed_i64(parts[1]) is Some && (parsed_i64(parts[1])->0
        < limits.min_bin_size || parsed_i64(parts[1])->0 > limits.max_bin_size) {
        seq![
            "Bin size must be between "@ + decimal_text(limits.min_bin_size as int) + " and "@
                + decimal_text(limits.max_bin_size as int) + " seconds"@,
        ]
    } else {
        seq![]
    }
}

/// Everything that is wrong with a data request, in the order it is reported.
pub open spec fn data_request_errors(
    limits: ValidationLimits,
    pvs: Seq<Seq<char>>,
    start: int,
    end: int,
    operator: Option<Seq<char>>,
) -> Seq<Seq<char>> {
    pv_count_errors(pvs.len(), limits.max_pvs, "Too many PVs in request (maximum "@, "No PVs specified"@)
        + pv_name_errors(pvs) + (if end - start > limits.max_time_range {
        seq![
            "Time range too large (maximum "@ + duration_debug_of_millis(
                limits.max_time_range as int,
            ) + ")"@,
        ]
    } else {
        seq![]
    }) + match operator {
        Some(op) => operator_errors(op) + bin_limit_errors(op, limits),
        None => seq![],
    }
}

/// Everything that is wrong with a live-update subscription.
pub open spec fn live_update_errors(
    limits: ValidationLimits,
    n_pvs: nat,
    interval: u64,
    buffer_size: usize,
) -> Seq<Seq<char>> {
    pv_count_errors(
        n_pvs,
        limits.max_pvs,
        "Too many PVs for live updates (maximum "@,
        "No PVs specified for live updates"@,
    ) + (if interval < limits.min_update_interval || interval > limits.max_update_interval {
        seq![
            "Update interval must be between "@ + duration_debug_of_millis(
                limits.min_update_interval as int,
            ) + " and "@ + duration_debug_of_millis(limits.max_update_interval as int),
        ]
    } else {
        seq![]
    }) + (if buffer_size == 0 {
        seq!["Buffer size must be greater than 0"@]
    } else if buffer_size > limits.max_buffer_size {
        seq!["Buffer size too large (maximum "@ + decimal_text(limits.max_buffer_size as int) + ")"@]
    } else {
        seq![]
    })
}

fn pv_count_errors_exec(n: usize, max: usize, what: &str, none: &str) -> (r: Vec<String>)
    ensures
        string_views(r@) == pv_count_errors(n as nat, max, what@, none@),
{
    let mut errors: Vec<String> = Vec::new();
    if n == 0 {
        errors.push(String::from_str(none));
    } else if n > max {
        let mut m = String::from_str(what);
        let digits = u64_text(max as u64);
        push_str(&mut m, digits.as_str());
        push_str(&mut m, ")");
        errors.push(m);
    }
    assert(string_views(errors@) =~= pv_count_errors(n as nat, max, what@, none@));
    errors
}

/// Validation of whole requests against a set of limits.
#[derive(Debug, Clone, Copy)]
pub struct RequestValidator {
    limits: ValidationLimits,
}

impl RequestValidator {
    pub closed spec fn spec_limits(self) -> ValidationLimits {
        self.limits
    }

    /// A validator with the default limits.
    pub fn new() -> (r: Self)
        ensures
            r.spec_limits() == ValidationLimits::spec_default(),
    {
        RequestValidator { limits: ValidationLimits::default() }
    }

    /// A validator with the given limits.
    pub fn with_limits(limits: ValidationLimits) -> (r: Self)
        ensures
            r.spec_limits() == limits,
    {
        RequestValidator { limits }
    }

    /// Checks a data request: the number of PVs, each PV name, the length of
    /// the time range, the operator and its bin size; every failure is
    /// reported.
    pub fn validate_data_request(&self, params: &RequestParameters) -> (r: Result<()>)
        ensures
            ({
                let errors = data_request_errors(
                    self.spec_limits(),
                    string_views(params.pvs@),
                    params.start_time as int,
                    params.end_time as int,
                    match params.operator {
                        Some(o) => Some(o@),
                        None => None,
                    },
                );
                match r {
                    Ok(()) => errors.len() == 0,
                    Err(e) => errors.len() > 0 && is_invalid_request(
                        e,
                        "Request validation failed"@,
                        "Request validation"@,
                        errors,
                        "RequestValidator"@,
                        "validate_data_request"@,
                        None,
                    ),
                }
            }),
    {
        let error_context = ErrorContext::new("RequestValidator", "validate_data_request");
        let mut errors = pv_count_errors_exec(
            params.pvs.len(),
            self.limits.max_pvs,
            "Too many PVs in request (maximum ",
            "No PVs specified",
        );
        let ghost pvs = string_views(params.pvs@);
        let ghost head = errors@;
        let mut i: usize = 0;
        while i < params.pvs.len()
            invariant
                i <= params.pvs.len(),
                pvs == string_views(params.pvs@),
                string_views(errors@) == string_views(head) + pv_name_errors(pvs.take(i as int)),
            decreases params.pvs.len() - i,
        {
            let checked = Validator::validate_pv_name(params.pvs[i].as_str());
            let ghost before = errors@;
            assert(pvs.take(i + 1).drop_last() =~= pvs.take(i as int));
            assert(pvs[i as int] == params.pvs@[i as int]@);
            assert(pvs.take(i + 1).last() == pvs[i as int]);
            match checked {
                Err(ArchiverError::InvalidRequest { validation_errors, .. }) => {
                    let mut ve = validation_errors;
                    let ghost vev = ve@;
                    errors.append(&mut ve);
                    assert(errors@ == before + vev);
                    assert(string_views(errors@) =~= string_views(before) + string_views(vev));
                    assert(!is_pv_name(pvs[i as int]));
                },
                _ => {
                    assert(is_pv_name(pvs[i as int]));
                },
            }
            assert(string_views(errors@) =~= string_views(head) + pv_name_errors(
                pvs.take(i + 1),
            ));
            i += 1;
        }
        assert(pvs.take(params.pvs.len() as int) =~= pvs);
        let ghost after_names = string_views(errors@);
        let duration: i128 = params.end_time as i128 - params.start_time as i128;
        if duration > self.limits.max_time_range as i128 {
            let mut m = String::from_str("Time range too large (maximum ");
            let d = duration_debug_millis(self.limits.max_time_range);
            push_str(&mut m, d.as_str());
            push_str(&mut m, ")");
            errors.push(m);
        }
        let ghost after_range = string_views(errors@);
        assert(after_range =~= after_names + (if params.end_time - params.start_time
            > self.limits.max_time_range {
            seq![
                "Time range too large (maximum "@ + duration_debug_of_millis(
                    self.limits.max_time_range as int,
                ) + ")"@,
            ]
        } else {
            seq![]
        }));
        match &params.operator {
            Some(operator) => {
                let op_result = Validator::validate_operator(operator.as_str());
                match op_result {
                    Err(ArchiverError::InvalidRequest { validation_errors, .. }) => {
                        let mut ve = validation_errors;
                        let ghost before = errors@;
                        let ghost vev = ve@;
                        errors.append(&mut ve);
                        assert(errors@ == before + vev);
                        assert(string_views(errors@) =~= string_views(before) + string_views(vev));
                    },
                    _ => {},
                }
                let ghost after_op = string_views(errors@);
                assert(after_op =~= after_range + operator_errors(operator@));
                let (parts, _base) = operator_parts(operator.as_str());
                if parts.len() > 1 {
                    assert(parts@[1]@ == split_on(operator@, '_')[1]);
                    match parse_i64(&parts[1]) {
                        Some(bin_size) => {
                            if bin_size < self.limits.min_bin_size || bin_size
                                > self.limits.max_bin_size {
                                let mut m = String::from_str("Bin size must be between ");
                                let lo = i64_text(self.limits.min_bin_size);
                                push_str(&mut m, lo.as_str());
                                push_str(&mut m, " and ");
                                let hi = i64_text(self.limits.max_bin_size);
                                push_str(&mut m, hi.as_str());
                                push_str(&mut m, " seconds");
                                errors.push(m);
                            }
                        },
                        None => {},
                    }
                }
                assert(string_views(errors@) =~= after_op + bin_limit_errors(
                    operator@,
                    self.limits,
                ));
            },
            None => {},
        }
        assert(string_views(errors@) =~= data_request_errors(
            self.limits,
            string_views(params.pvs@),
            params.start_time as int,
            params.end_time as int,
            match params.operator {
                Some(o) => Some(o@),
                None => None,
            },
        ));
        if errors.len() == 0 {
            Ok(())
        } else {
            Err(
                ArchiverError::InvalidRequest {
                    message: String::from_str("Request validation failed"),
                    context: String::from_str("Request validation"),
                    validation_errors: errors,
                    error_context: Some(error_context),
                },
            )
        }
    }

    /// Checks a live-update subscription: the number of PVs, the update
    /// interval and the buffer size; every failure is reported.
    pub fn validate_live_update_params(&self, params: &LiveUpdateParameters) -> (r: Result<()>)
        ensures
            ({
                let errors = live_update_errors(
                    self.spec_limits(),
                    params.pvs@.len(),
                    params.update_interval,
                    params.buffer_size,
                );
                match r {
                    Ok(()) => errors.len() == 0,
                    Err(e) => errors.len() > 0 && is_invalid_request(
                        e,
                        "Invalid live update parameters"@,
                        "Live update validation"@,
                        errors,
                        "RequestValidator"@,
                        "validate_live_update_params"@,
                        None,
                    ),
                }
            }),
    {
        let error_context = ErrorContext::new("RequestValidator", "validate_live_update_params");
        let mut errors = pv_count_errors_exec(
            params.pvs.len(),
            self.limits.max_pvs,
            "Too many PVs for live updates (maximum ",
            "No PVs specified for live updates",
        );
        let ghost head = string_views(errors@);
        if params.update_interval < self.limits.min_update_interval || params.update_interval
            > self.limits.max_update_interval {
            let mut m = String::from_str("Update interval must be between ");
            let lo = duration_debug_millis(self.limits.min_update_interval);
            push_str(&mut m, lo.as_str());
            push_str(&mut m, " and ");
            let hi = duration_debug_millis(self.limits.max_update_interval);
            push_str(&mut m, hi.as_str());
            errors.push(m);
        }
        let ghost mid = string_views(errors@);
        if params.buffer_size == 0 {
            errors.push(String::from_str("Buffer size must be greater than 0"));
        } else if params.buffer_size > self.limits.max_buffer_size {
            let mut m = String::from_str("Buffer size too large (maximum ");
            let digits = u64_text(self.limits.max_buffer_size as u64);
            push_str(&mut m, digits.as_str());
            push_str(&mut m, ")");
            errors.push(m);
        }
        assert(string_views(errors@) =~= live_update_errors(
            self.limits,
            params.pvs@.len(),
            params.update_interval,
            params.buffer_size,
        ));
        if errors.len() == 0 {
            Ok(())
        } else {
            Err(
                ArchiverError::InvalidRequest {
                    message: String::from_str("Invalid live update parameters"),
                    context: String::from_str("Live update validation"),
                    validation_errors: errors,
                    error_context: Some(error_context),
                },
            )
        }
    }
}

// ---------------------------------------------------------------------------
// Laws
// ---------------------------------------------------------------------------

/// Whether the validator accepts the text `DataOperator::to_string` writes
/// for `op`: all but `ncount` (a name the validator does not know), an
/// `nth` that is not positive, a bin size outside 1 to 86400 seconds, and a
/// flyer operator without a bin size or with a deviation that is not a
/// number (or holds an underscore).
pub open spec fn writes_valid_operator(op: DataOperator) -> bool {
    match op {
        DataOperator::Raw => true,
        DataOperator::NCount => false,
        DataOperator::Nth(n) => n > 0,
        DataOperator::Optimized(n) => 1 <= n <= 86400,
        DataOperator::IgnoreFlyers { bin_size, deviations } => bin_size is Some && is_float_text(
            deviations@,
        ) && !deviations@.contains('_'),
        DataOperator::Flyers { bin_size, deviations } => bin_size is Some && is_float_text(
            deviations@,
        ) && !deviations@.contains('_'),
        DataOperator::FirstSample(b) => bin_in_range(b),
        DataOperator::LastSample(b) => bin_in_range(b),
        DataOperator::FirstFill(b) => bin_in_range(b),
        DataOperator::LastFill(b) => bin_in_range(b),
        DataOperator::Mean(b) => bin_in_range(b),
        DataOperator::Min(b) => bin_in_range(b),
        DataOperator::Max(b) => bin_in_range(b),
        DataOperator::Count(b) => bin_in_range(b),
        DataOperator::Median(b) => bin_in_range(b),
        DataOperator::Std(b) => bin_in_range(b),
        DataOperator::Variance(b) => bin_in_range(b),
        DataOperator::PopVariance(b) => bin_in_range(b),
        DataOperator::Jitter(b) => bin_in_range(b),
        DataOperator::Kurtosis(b) => bin_in_range(b),
        DataOperator::Skewness(b) => bin_in_range(b),
    }
}

/// No bin size, or one of 1 to 86400 seconds.
pub open spec fn bin_in_range(b: Option<i32>) -> bool {
    match b {
        None => true,
        Some(v) => 1 <= v <= 86400,
    }
}

proof fn lemma_plain_name(name: Seq<char>)
    requires
        free_of(name, '_'),
    ensures
        !name.contains('_'),
        split_on(name, '_') == seq![name],
{
    lemma_free_of(name, '_');
    lemma_split_two(name, Seq::empty(), '_');
}

/// A binned operator with a name the validator knows (other than `raw`,
/// `nth` and the flyers) and a bin in range writes a valid text.
proof fn lemma_binned_valid(name: Seq<char>, b: Option<i32>)
    requires
        free_of(name, '_'),
        is_operator_name(name),
        name.len() != 3 || (name[0] != 'r' && name[0] != 'n'),
        name.len() != 6 || name[0] != 'f',
        name.len() != 12,
        bin_in_range(b),
    ensures
        operator_errors(binned_text(name, b)).len() == 0,
{
    reveal_strlit("raw");
    reveal_strlit("nth");
    reveal_strlit("ignoreflyers");
    reveal_strlit("flyers");
    assert(name != "raw"@ && name != "nth"@ && name != "ignoreflyers"@ && name != "flyers"@) by {
        if name == "raw"@ {
            assert(name[0] == 'r');
        }
        if name == "nth"@ {
            assert(name[0] == 'n');
        }
        if name == "flyers"@ {
            assert(name[0] == 'f');
        }
    }
    lemma_plain_name(name);
    reveal_strlit("_");
    match b {
        None => {},
        Some(v) => {
            lemma_decimal_text_reads_back(v as int);
            lemma_split_two(name, decimal_text(v as int), '_');
            assert(binned_text(name, b) =~= name + seq!['_'] + decimal_text(v as int));
            assert(parsed_i32(decimal_text(v as int)) == Some(v));
        },
    }
}

/// A flyer operator with a bin size and a numeric deviation writes a valid
/// text.
proof fn lemma_flyers_valid(name: Seq<char>, b: i32, dev: Seq<char>)
    requires
        name == "ignoreflyers"@ || name == "flyers"@,
        is_float_text(dev),
        !dev.contains('_'),
    ensures
        operator_errors(flyer_text(name, Some(b), dev)).len() == 0,
{
    reveal_strlit("ignoreflyers");
    reveal_strlit("flyers");
    reveal_strlit("raw");
    reveal_strlit("nth");
    reveal_strlit("_");
    assert(free_of(name, '_')) by {
        reveal_with_fuel(free_of, 13);
    }
    lemma_plain_name(name);
    lemma_decimal_text_reads_back(b as int);
    lemma_split_three(name, decimal_text(b as int), dev, '_');
    let text = flyer_text(name, Some(b), dev);
    assert(text =~= name + seq!['_'] + decimal_text(b as int) + seq!['_'] + dev);
    let parts = split_on(text, '_');
    assert(parts == seq![name, decimal_text(b as int), dev]);
    assert(parts[0] == name);
    assert(parts[1] == decimal_text(b as int));
    assert(parts[2] == dev);
    assert(parsed_i32(decimal_text(b as int)) == Some(b));
    assert(is_operator_name(name));
    assert(name != "raw"@ && name != "nth"@);
    assert(operator_parameter_errors(parts) =~= Seq::<Seq<char>>::empty());
}

/// What `DataOperator::to_string` writes, `validate_operator` accepts,
/// for every operator but those `writes_valid_operator` leaves out.
pub proof fn law_written_operators_validate(op: DataOperator)
    requires
        writes_valid_operator(op),
    ensures
        is_operator_name(split_on(op.spec_to_string(), '_')[0]),
        operator_errors(op.spec_to_string()).len() == 0,
{
    reveal_strlit("raw");
    reveal_strlit("firstSample");
    reveal_strlit("lastSample");
    reveal_strlit("firstFill");
    reveal_strlit("lastFill");
    reveal_strlit("mean");
    reveal_strlit("min");
    reveal_strlit("max");
    reveal_strlit("count");
    reveal_strlit("median");
    reveal_strlit("std");
    reveal_strlit("variance");
    reveal_strlit("popvariance");
    reveal_strlit("jitter");
    reveal_strlit("kurtosis");
    reveal_strlit("skewness");
    reveal_strlit("optimized");
    reveal_strlit("nth");
    reveal_strlit("ignoreflyers");
    reveal_strlit("flyers");
    reveal_with_fuel(free_of, 13);
    match op {
        DataOperator::Raw => {
            lemma_plain_name("raw"@);
        },
        DataOperator::Nth(n) => {
            lemma_plain_name("nth"@);
            reveal_strlit("_");
            lemma_decimal_text_reads_back(n as int);
            lemma_split_two("nth"@, decimal_text(n as int), '_');
            assert(op.spec_to_string() =~= "nth"@ + seq!['_'] + decimal_text(n as int));
            assert(parsed_i32(decimal_text(n as int)) == Some(n));
        },
        DataOperator::Optimized(n) => lemma_binned_valid("optimized"@, Some(n)),
        DataOperator::IgnoreFlyers { bin_size, deviations } => lemma_flyers_valid(
            "ignoreflyers"@,
            bin_size->0,
            deviations@,
        ),
        DataOperator::Flyers { bin_size, deviations } => lemma_flyers_valid(
            "flyers"@,
            bin_size->0,
            deviations@,
        ),
        DataOperator::FirstSample(b) => lemma_binned_valid("firstSample"@, b),
        DataOperator::LastSample(b) => lemma_binned_valid("lastSample"@, b),
        DataOperator::FirstFill(b) => lemma_binned_valid("firstFill"@, b),
        DataOperator::LastFill(b) => lemma_binned_valid("lastFill"@, b),
        DataOperator::Mean(b) => lemma_binned_valid("mean"@, b),
        DataOperator::Min(b) => lemma_binned_valid("min"@, b),
        DataOperator::Max(b) => lemma_binned_valid("max"@, b),
        DataOperator::Count(b) => lemma_binned_valid("count"@, b),
        DataOperator::Median(b) => lemma_binned_valid("median"@, b),
        DataOperator::Std(b) => lemma_binned_valid("std"@, b),
        DataOperator::Variance(b) => lemma_binned_valid("variance"@, b),
        DataOperator::PopVariance(b) => lemma_binned_valid("popvariance"@, b),
        DataOperator::Jitter(b) => lemma_binned_valid("jitter"@, b),
        DataOperator::Kurtosis(b) => lemma_binned_valid("kurtosis"@, b),
        DataOperator::Skewness(b) => lemma_binned_valid("skewness"@, b),
        DataOperator::NCount => {},
    }
}

/// The failures a validation reports: the list of an invalid request, and
/// nothing otherwise.
pub open spec fn reported_errors(r: Result<()>) -> Seq<Seq<char>> {
    match r {
        Err(ArchiverError::InvalidRequest { validation_errors, .. }) => string_views(validation_errors@),
        _ => Seq::empty(),
    }
}

/// A time range checked at `now` passes exactly when its end is after its
/// start, it spans at most a year (365 days), it starts at most ten years
/// (3650 days) before `now` and it ends at most a minute after `now`; each
/// of these that fails is reported with its own message, and only those.
pub proof fn law_time_range_checks(start: i64, end: i64, now: i64, r: Result<()>)
    requires
        time_range_outcome(start, end, now, r),
    ensures
        r is Ok <==> (end > start && end - start <= 365 * 86_400_000 && start >= now - 3650
            * 86_400_000 && end <= now + 60_000),
        reported_errors(r).contains("End time must be after start time"@) <==> end <= start,
        reported_errors(r).contains("Time range cannot exceed 1 year"@) <==> end - start > 365
            * 86_400_000,
        reported_errors(r).contains("Start time cannot be more than 10 years in the past"@) <==> start
            < now - 3650 * 86_400_000,
        reported_errors(r).contains("End time cannot be more than 1 minute in the future"@) <==> end
            > now + 60_000,
{
    let m1 = "End time must be after start time"@;
    let m2 = "Time range cannot exceed 1 year"@;
    let m3 = "Start time cannot be more than 10 years in the past"@;
    let m4 = "End time cannot be more than 1 minute in the future"@;
    reveal_strlit("End time must be after start time");
    reveal_strlit("Time range cannot exceed 1 year");
    reveal_strlit("Start time cannot be more than 10 years in the past");
    reveal_strlit("End time cannot be more than 1 minute in the future");
    assert(m1[0] != m2[0]);
    assert(m1[0] != m3[0]);
    assert(m1.len() != m4.len());
    assert(m2[0] != m3[0]);
    assert(m2[0] != m4[0]);
    assert(m3[0] != m4[0]);
    let c1 = end <= start;
    let c2 = end - start > 365 * 86_400_000;
    let c3 = start < now - 3650 * 86_400_000;
    let c4 = end > now + 60_000;
    let s1: Seq<Seq<char>> = if c1 { seq![m1] } else { seq![] };
    let s2: Seq<Seq<char>> = if c2 { seq![m2] } else { seq![] };
    let s3: Seq<Seq<char>> = if c3 { seq![m3] } else { seq![] };
    let s4: Seq<Seq<char>> = if c4 { seq![m4] } else { seq![] };
    let errs = time_range_errors(start as int, end as int, now as int);
    assert(errs == s1 + s2 + s3 + s4);
    let n1 = s1.len() as int;
    let n2 = n1 + s2.len();
    let n3 = n2 + s3.len();
    if r is Err {
        assert(reported_errors(r) == errs);
    } else {
        assert(errs.len() == 0);
        assert(reported_errors(r) == Seq::<Seq<char>>::empty());
    }
    if c1 {
        assert(errs[0] == m1);
    }
    if c2 {
        assert(errs[n1] == m2);
    }
    if c3 {
        assert(errs[n2] == m3);
    }
    if c4 {
        assert(errs[n3] == m4);
    }
    assert forall|i: int| 0 <= i < errs.len() implies (errs[i] == m1 ==> c1) && (errs[i] == m2
        ==> c2) && (errs[i] == m3 ==> c3) && (errs[i] == m4 ==> c4) by {
        if i < n1 {
            assert(errs[i] == m1);
        } else if i < n2 {
            assert(errs[i] == m2);
        } else if i < n3 {
            assert(errs[i] == m3);
        } else {
            assert(errs[i] == m4);
        }
    }
}

} // verus!
