//! Time as the library sees it: the chrono types it carries, the clock, and
//! the chrono and chrono-tz renderings of instants that requests and messages
//! embed. Instants the logic computes with are milliseconds since the Unix
//! epoch (`i64`).

use vstd::prelude::*;
#[allow(unused_imports)]
use chrono::TimeZone;

verus! {

/// The current instant in milliseconds since the Unix epoch
/// (`chrono::Utc::now` read through `DateTime::timestamp_millis`). Nothing is
/// promised of the value: it is the machine's clock.
#[verifier::external_body]
pub(crate) fn now_millis() -> i64 {
    chrono::Utc::now().timestamp_millis()
}

/// The RFC 3339 text that chrono gives for the instant `ms` milliseconds
/// after the epoch, in UTC, or `None` where chrono cannot represent it.
pub uninterp spec fn utc_rfc3339_of_millis(ms: int) -> Option<Seq<char>>;

/// `Utc.timestamp_millis_opt(ms).single()` followed by `DateTime::to_rfc3339`.
/// The contract names the result: it is a function of `ms` alone.
#[verifier::external_body]
pub(crate) fn rfc3339_utc_millis(ms: i64) -> (r: Option<String>)
    ensures
        match r {
            Some(s) => utc_rfc3339_of_millis(ms as int) == Some(s@),
            None => utc_rfc3339_of_millis(ms as int) is None,
        },
{
    match chrono::Utc.timestamp_millis_opt(ms).single() {
        Some(dt) => Some(dt.to_rfc3339()),
        None => None,
    }
}

/// The RFC 3339 text chrono gives for the instant `ms` milliseconds after the
/// epoch in the IANA zone named `zone`, or `None` where chrono cannot represent
/// the instant or chrono-tz knows no zone of that name.
pub uninterp spec fn zoned_rfc3339_of_millis(ms: int, zone: Seq<char>) -> Option<Seq<char>>;

/// `Utc.timestamp_millis_opt(ms).single()`, `zone.parse::<chrono_tz::Tz>()`,
/// `DateTime::with_timezone` and `DateTime::to_rfc3339`. The contract names the
/// result: it is a function of `ms` and of the zone's name alone (the zone
/// database is the one compiled into chrono-tz).
#[verifier::external_body]
pub(crate) fn rfc3339_zoned_millis(ms: i64, zone: &str) -> (r: Option<String>)
    ensures
        match r {
            Some(s) => zoned_rfc3339_of_millis(ms as int, zone@) == Some(s@),
            None => zoned_rfc3339_of_millis(ms as int, zone@) is None,
        },
{
    match (chrono::Utc.timestamp_millis_opt(ms).single(), zone.parse::<chrono_tz::Tz>()) {
        (Some(dt), Ok(tz)) => Some(dt.with_timezone(&tz).to_rfc3339()),
        _ => None,
    }
}

/// The RFC 3339 text chrono gives for the instant `secs` seconds after the
/// epoch, in UTC, or `None` where chrono cannot represent it.
pub uninterp spec fn utc_rfc3339_of_seconds(secs: int) -> Option<Seq<char>>;

/// `DateTime::<Utc>::from_timestamp(secs, 0)` followed by `to_rfc3339`. The
/// contract names the result: it is a function of `secs` alone.
#[verifier::external_body]
pub(crate) fn rfc3339_utc_seconds(secs: i64) -> (r: Option<String>)
    ensures
        match r {
            Some(s) => utc_rfc3339_of_seconds(secs as int) == Some(s@),
            None => utc_rfc3339_of_seconds(secs as int) is None,
        },
{
    match chrono::DateTime::<chrono::Utc>::from_timestamp(secs, 0) {
        Some(dt) => Some(dt.to_rfc3339()),
        None => None,
    }
}

/// The text `Display` gives for a `DateTime<Utc>` (such as
/// `2024-03-12 23:53:05 UTC`) at `ms` milliseconds after the epoch, or `None`
/// where chrono cannot represent the instant.
pub uninterp spec fn utc_display_of_millis(ms: int) -> Option<Seq<char>>;

/// `Utc.timestamp_millis_opt(ms).single()` followed by `Display`. The contract
/// names the result: it is a function of `ms` alone.
#[verifier::external_body]
pub(crate) fn display_utc_millis(ms: i64) -> (r: Option<String>)
    ensures
        match r {
            Some(s) => utc_display_of_millis(ms as int) == Some(s@),
            None => utc_display_of_millis(ms as int) is None,
        },
{
    match chrono::Utc.timestamp_millis_opt(ms).single() {
        Some(dt) => Some(format!("{}", dt)),
        None => None,
    }
}

/// Whether `y` is a leap year of the Gregorian calendar.
pub open spec fn is_leap_year(y: int) -> bool {
    (y % 4 == 0 && y % 100 != 0) || y % 400 == 0
}

/// Days from 1970-01-01 to January 1 of `year`, for years from 1970 on.
pub open spec fn days_before_year(year: int) -> int
    decreases year - 1970,
{
    if year <= 1970 {
        0
    } else {
        days_before_year(year - 1) + if is_leap_year(year - 1) {
            366int
        } else {
            365int
        }
    }
}

/// Seconds from the epoch to midnight UTC on January 1 of `year`.
pub open spec fn year_start_seconds(year: int) -> int {
    days_before_year(year) * 86400
}

/// The number of days before a year grows by 365 or 366 a year.
pub proof fn lemma_year_start_bounds(year: int)
    requires
        1970 <= year,
    ensures
        365 * (year - 1970) <= days_before_year(year) <= 366 * (year - 1970),
        0 <= year_start_seconds(year) <= 366 * (year - 1970) * 86400,
    decreases year - 1970,
{
    if year > 1970 {
        lemma_year_start_bounds(year - 1);
    }
    assert(0 <= days_before_year(year) * 86400 <= 366 * (year - 1970) * 86400) by (nonlinear_arith)
        requires
            0 <= days_before_year(year) <= 366 * (year - 1970),
    ;
}

/// `NaiveDate::from_ymd(year, 1, 1).and_hms(0, 0, 0).timestamp()`: the number
/// of non-leap seconds from 1970-01-01 00:00:00 to midnight on January 1 of
/// `year` (chrono's documentation of `NaiveDateTime::timestamp`), for the years
/// the archiver's calendar table covers.
#[verifier::external_body]
#[allow(deprecated)]
pub(crate) fn year_start_timestamp(year: i32) -> (r: i64)
    requires
        2000 <= year <= 2100,
    ensures
        r == year_start_seconds(year as int),
{
    chrono::NaiveDate::from_ymd(year, 1, 1).and_hms(0, 0, 0).timestamp()
}

} // verus!
