//! Helpers of the raw format and of request formatting: unescaping,
//! timestamps for the archiver, samples and metadata from decoded headers.

use vstd::prelude::*;

use crate::calendar::{
    rfc3339_utc_millis, rfc3339_utc_seconds, utc_rfc3339_of_millis, utc_rfc3339_of_seconds,
};
use crate::constants::{
    CARRIAGERETURN_CHAR, CARRIAGERETURN_ESCAPE_CHAR, ESCAPE_CHAR, ESCAPE_ESCAPE_CHAR, NEWLINE_CHAR,
    NEWLINE_ESCAPE_CHAR,
};
use crate::decode::{apply_headers, with_headers, PayloadInfo};
use crate::text::{chars_of, concat2, decimal_text, i64_text, push_char, push_str};
use crate::types::{Error, Meta, PVData, Point, PointValue};

verus! {

broadcast use vstd::string::group_string_axioms;

/// The byte an escaped byte stands for: `0x01` for the escape byte, `0x02`
/// for a newline, `0x03` for a carriage return, any other byte for itself.
pub open spec fn unescape_byte(b: u8) -> u8 {
    if b == ESCAPE_ESCAPE_CHAR {
        ESCAPE_CHAR
    } else if b == NEWLINE_ESCAPE_CHAR {
        NEWLINE_CHAR
    } else if b == CARRIAGERETURN_ESCAPE_CHAR {
        CARRIAGERETURN_CHAR
    } else {
        b
    }
}

/// The bytes that escaped text stands for: an escape byte and the byte after
/// it give one unescaped byte, an escape byte at the very end gives nothing,
/// any other byte stands for itself.
pub open spec fn unescaped(b: Seq<u8>) -> Seq<u8>
    decreases b.len(),
{
    if b.len() == 0 {
        seq![]
    } else if b[0] == ESCAPE_CHAR {
        if b.len() == 1 {
            seq![]
        } else {
            seq![unescape_byte(b[1])] + unescaped(b.skip(2))
        }
    } else {
        seq![b[0]] + unescaped(b.skip(1))
    }
}

/// The archiver's escaping of one byte: the escape byte, a newline and a
/// carriage return become two bytes, the others stay.
pub open spec fn escape_byte(x: u8) -> Seq<u8> {
    if x == ESCAPE_CHAR {
        seq![ESCAPE_CHAR, ESCAPE_ESCAPE_CHAR]
    } else if x == NEWLINE_CHAR {
        seq![ESCAPE_CHAR, NEWLINE_ESCAPE_CHAR]
    } else if x == CARRIAGERETURN_CHAR {
        seq![ESCAPE_CHAR, CARRIAGERETURN_ESCAPE_CHAR]
    } else {
        seq![x]
    }
}

/// The archiver's escaping of a byte string.
pub open spec fn escaped(b: Seq<u8>) -> Seq<u8>
    decreases b.len(),
{
    if b.len() == 0 {
        seq![]
    } else {
        escape_byte(b[0]) + escaped(b.skip(1))
    }
}

/// Replaces the escape sequences of the raw format by the bytes they stand
/// for.
pub fn unescape_new_lines(input: &[u8]) -> (output: Vec<u8>)
    ensures
        output@ == unescaped(input@),
{
    let mut output: Vec<u8> = Vec::new();
    let mut i: usize = 0;
    assert(input@.skip(0) =~= input@);
    assert(Seq::<u8>::empty() + input@ =~= input@);
    while i < input.len()
        invariant
            i <= input.len(),
            unescaped(input@) == output@ + unescaped(input@.skip(i as int)),
        decreases input.len() - i,
    {
        let b = input[i];
        let ghost rest = input@.skip(i as int);
        if b == ESCAPE_CHAR {
            if i + 1 >= input.len() {
                assert(rest.len() == 1);
                assert(unescaped(rest) == Seq::<u8>::empty());
                i = input.len();
                assert(input@.skip(i as int) =~= Seq::<u8>::empty());
                assert(output@ + Seq::<u8>::empty() =~= output@);
            } else {
                let c = input[i + 1];
                let d = if c == ESCAPE_ESCAPE_CHAR {
                    ESCAPE_CHAR
                } else if c == NEWLINE_ESCAPE_CHAR {
                    NEWLINE_CHAR
                } else if c == CARRIAGERETURN_ESCAPE_CHAR {
                    CARRIAGERETURN_CHAR
                } else {
                    c
                };
                let ghost before = output@;
                output.push(d);
                assert(rest.skip(2) =~= input@.skip(i + 2));
                assert(unescaped(rest) == seq![d] + unescaped(input@.skip(i + 2)));
                assert(before + (seq![d] + unescaped(input@.skip(i + 2))) =~= output@ + unescaped(
                    input@.skip(i + 2),
                ));
                i += 2;
            }
        } else {
            let ghost before = output@;
            output.push(b);
            assert(rest.skip(1) =~= input@.skip(i + 1));
            assert(before + (seq![b] + unescaped(input@.skip(i + 1))) =~= output@ + unescaped(
                input@.skip(i + 1),
            ));
            i += 1;
        }
    }
    assert(input@.skip(input.len() as int) =~= Seq::<u8>::empty());
    assert(output@ + Seq::<u8>::empty() =~= output@);
    output
}

/// Unescaping undoes the archiver's escaping.
pub proof fn lemma_unescape_inverts_escape(b: Seq<u8>)
    ensures
        unescaped(escaped(b)) == b,
    decreases b.len(),
{
    if b.len() > 0 {
        lemma_unescape_inverts_escape(b.skip(1));
        let e = escaped(b);
        let x = b[0];
        let tail = escaped(b.skip(1));
        assert(e == escape_byte(x) + tail);
        if x == ESCAPE_CHAR || x == NEWLINE_CHAR || x == CARRIAGERETURN_CHAR {
            assert(e[0] == ESCAPE_CHAR);
            assert(e.skip(2) =~= tail);
            assert(unescape_byte(e[1]) == x);
        } else {
            assert(e[0] == x);
            assert(e.skip(1) =~= tail);
        }
        assert(seq![x] + b.skip(1) =~= b);
    }
}

/// Bytes without an escape byte are their own unescaping.
pub proof fn lemma_unescape_plain(b: Seq<u8>)
    requires
        forall|i: int| 0 <= i < b.len() ==> b[i] != ESCAPE_CHAR,
    ensures
        unescaped(b) == b,
    decreases b.len(),
{
    if b.len() > 0 {
        lemma_unescape_plain(b.skip(1));
        assert(seq![b[0]] + b.skip(1) =~= b);
    }
}

/// `s` with every `Z` replaced by `-00:00`.
pub open spec fn z_replaced(s: Seq<char>) -> Seq<char>
    decreases s.len(),
{
    if s.len() == 0 {
        seq![]
    } else {
        (if s[0] == 'Z' {
            "-00:00"@
        } else {
            seq![s[0]]
        }) + z_replaced(s.skip(1))
    }
}

fn replace_z(s: &str) -> (r: String)
    ensures
        r@ == z_replaced(s@),
{
    let v = chars_of(s);
    let mut r = String::new();
    let mut i: usize = 0;
    assert(v@.skip(0) =~= v@);
    assert(Seq::<char>::empty() + z_replaced(s@) =~= z_replaced(s@));
    while i < v.len()
        invariant
            i <= v.len(),
            v@ == s@,
            z_replaced(s@) == r@ + z_replaced(v@.skip(i as int)),
        decreases v.len() - i,
    {
        let ghost before = r@;
        let ghost rest = v@.skip(i as int);
        assert(rest.skip(1) =~= v@.skip(i + 1));
        if v[i] == 'Z' {
            push_str(&mut r, "-00:00");
            assert(before + ("-00:00"@ + z_replaced(v@.skip(i + 1))) =~= r@ + z_replaced(
                v@.skip(i + 1),
            ));
        } else {
            push_char(&mut r, v[i]);
            assert(before + (seq![v@[i as int]] + z_replaced(v@.skip(i + 1))) =~= r@
                + z_replaced(v@.skip(i + 1)));
        }
        i += 1;
    }
    assert(v@.skip(v.len() as int) =~= Seq::<char>::empty());
    assert(r@ + Seq::<char>::empty() =~= r@);
    r
}

/// The archiver's form of an instant given in milliseconds: chrono's RFC 3339
/// text in UTC with each `Z` written `-00:00`; `None` where chrono cannot
/// represent the instant.
pub open spec fn archiver_date(ms: int) -> Option<Seq<char>> {
    match utc_rfc3339_of_millis(ms) {
        Some(t) => Some(z_replaced(t)),
        None => None,
    }
}

/// The archiver's form of an instant given in milliseconds; `None` where
/// chrono cannot represent the instant.
pub fn format_date_for_archiver(timestamp_ms: i64) -> (r: Option<String>)
    ensures
        match r {
            Some(s) => archiver_date(timestamp_ms as int) == Some(s@),
            None => archiver_date(timestamp_ms as int) is None,
        },
{
    match rfc3339_utc_millis(timestamp_ms) {
        Some(t) => Some(replace_z(t.as_str())),
        None => None,
    }
}

/// An instant given in seconds as chrono's RFC 3339 text in UTC.
pub fn format_timestamp(timestamp: i64) -> (r: Result<String, Error>)
    ensures
        match r {
            Ok(s) => utc_rfc3339_of_seconds(timestamp as int) == Some(s@),
            Err(e) => utc_rfc3339_of_seconds(timestamp as int) is None && (e matches Error::Invalid(
                m,
            ) && m@ == "Invalid timestamp: "@ + decimal_text(timestamp as int)),
        },
{
    match rfc3339_utc_seconds(timestamp) {
        Some(t) => Ok(t),
        None => {
            let digits = i64_text(timestamp);
            Err(Error::Invalid(concat2("Invalid timestamp: ", digits.as_str())))
        },
    }
}

/// A sample from the fields of a decoded scalar message; absent severity
/// and status are 0.
pub fn create_point(
    seconds_into_year: u32,
    nano: u32,
    val: PointValue,
    severity: Option<i32>,
    status: Option<i32>,
) -> (r: Point)
    ensures
        r.secs == seconds_into_year as i64,
        r.nanos == nano as i32,
        r.val == val,
        r.severity == (match severity {
            Some(s) => s,
            None => 0,
        }),
        r.status == (match status {
            Some(s) => s,
            None => 0,
        }),
{
    Point {
        secs: seconds_into_year as i64,
        nanos: nano as i32,
        val,
        severity: match severity {
            Some(s) => s,
            None => 0,
        },
        status: match status {
            Some(s) => s,
            None => 0,
        },
    }
}

/// The samples of a PV with the metadata its decoded header gives: the PV's
/// name, then each header that names a metadata field (a later header
/// overriding an earlier one, a `name` header overriding the PV's name).
pub fn normalize_pv_data(payload_info: PayloadInfo, data_points: Vec<Point>) -> (r: PVData)
    ensures
        r.meta == with_headers(Meta::named(payload_info.pvname), payload_info.headers@, true),
        r.data == data_points,
{
    let meta = apply_headers(Meta::with_name(payload_info.pvname), &payload_info.headers, true);
    PVData { meta, data: data_points }
}

} // verus!
