//! Decoding of the archiver's raw response format.
//!
//! A raw response is a header line and one line per sample, each line a
//! protocol-buffer message in which the escape byte, newline and carriage
//! return are escaped. This module frames a response into its messages, and
//! turns the fields of the decoded messages into metadata and samples; the
//! protocol-buffer messages themselves are decoded by the generated message
//! types of the application.

use vstd::prelude::*;

use crate::calendar::{year_start_seconds, year_start_timestamp};
use crate::constants::{
    CARRIAGERETURN_CHAR, CARRIAGERETURN_ESCAPE_CHAR, ESCAPE_CHAR, ESCAPE_ESCAPE_CHAR, NEWLINE_CHAR,
    NEWLINE_ESCAPE_CHAR,
};
use crate::decode_helpers::{escape_byte, escaped, unescape_byte};
use crate::text::{concat2, decimal_text, i64_text, str_eq};
use crate::types::{Error, Meta, PVData, Point, PointValue};

verus! {

broadcast use vstd::string::group_string_axioms;

/// A name/value header of a payload.
#[derive(Debug, Clone)]
pub struct FieldValue {
    pub name: String,
    pub val: String,
}

/// The fields of a decoded payload header.
#[derive(Debug, Clone)]
pub struct PayloadInfo {
    pub payload_type: i32,
    pub pvname: String,
    pub year: i32,
    pub element_count: Option<i32>,
    pub headers: Vec<FieldValue>,
}

/// The scalar payload types the decoder reads.
#[derive(Debug, Clone, Copy, PartialEq, Eq)]
pub enum ScalarKind {
    String,
    Short,
    Float,
    Enum,
    Byte,
    Int,
    Double,
}

/// The scalar kind of a payload type number of the archiver's protocol
/// (`SCALAR_STRING` 0 to `SCALAR_DOUBLE` 6); the other types are not read.
pub open spec fn spec_payload_kind(type_id: i32) -> Option<ScalarKind> {
    if type_id == 0 {
        Some(ScalarKind::String)
    } else if type_id == 1 {
        Some(ScalarKind::Short)
    } else if type_id == 2 {
        Some(ScalarKind::Float)
    } else if type_id == 3 {
        Some(ScalarKind::Enum)
    } else if type_id == 4 {
        Some(ScalarKind::Byte)
    } else if type_id == 5 {
        Some(ScalarKind::Int)
    } else if type_id == 6 {
        Some(ScalarKind::Double)
    } else {
        None
    }
}

/// The scalar kind of a payload type number; `None` for the types the
/// decoder does not read.
pub fn payload_kind(type_id: i32) -> (r: Option<ScalarKind>)
    ensures
        r == spec_payload_kind(type_id),
{
    if type_id == 0 {
        Some(ScalarKind::String)
    } else if type_id == 1 {
        Some(ScalarKind::Short)
    } else if type_id == 2 {
        Some(ScalarKind::Float)
    } else if type_id == 3 {
        Some(ScalarKind::Enum)
    } else if type_id == 4 {
        Some(ScalarKind::Byte)
    } else if type_id == 5 {
        Some(ScalarKind::Int)
    } else if type_id == 6 {
        Some(ScalarKind::Double)
    } else {
        None
    }
}

/// The value field of a decoded scalar message; `Float` and `Double` are the
/// IEEE-754 bit patterns of the `f32` and `f64` sent.
#[derive(Debug, Clone)]
pub enum SampleValue {
    Float(u32),
    Double(u64),
    Int(i32),
    Short(i32),
    Byte(Vec<u8>),
    Enum(i32),
    String(String),
}

/// The fields of a decoded scalar message: seconds into the payload's year,
/// nanoseconds, value, and the optional severity and status.
#[derive(Debug, Clone)]
pub struct ScalarSample {
    pub seconds_into_year: u32,
    pub nano: u32,
    pub val: SampleValue,
    pub severity: Option<i32>,
    pub status: Option<i32>,
}

/// The messages of a raw response: the header and the sample lines, each
/// unescaped; empty sample lines are left out.
#[derive(Debug, Clone)]
pub struct ResponseFrames {
    pub header: Vec<u8>,
    pub points: Vec<Vec<u8>>,
}

// ---------------------------------------------------------------------------
// Framing
// ---------------------------------------------------------------------------

/// The reader's state: in the header line, after an escape byte, the line
/// read so far, the header once read, the sample lines read.
pub type FrameState = (bool, bool, Seq<u8>, Option<Seq<u8>>, Seq<Seq<u8>>);

/// The state before the first byte.
pub open spec fn frame_start() -> FrameState {
    (true, false, Seq::empty(), None, Seq::empty())
}

/// The state after one more byte: an escape byte starts an escape, the byte
/// after it is unescaped into the line, an unescaped newline ends the header
/// line or a sample line (an empty sample line is dropped), any other byte
/// extends the line.
pub open spec fn frame_step(st: FrameState, b: u8) -> FrameState {
    let (in_header, in_escape, cur, header, points) = st;
    if !in_escape && b == ESCAPE_CHAR {
        (in_header, true, cur, header, points)
    } else if in_escape {
        (in_header, false, cur.push(unescape_byte(b)), header, points)
    } else if b == NEWLINE_CHAR {
        if in_header {
            (false, false, Seq::empty(), Some(cur), points)
        } else if cur.len() > 0 {
            (false, false, Seq::empty(), header, points.push(cur))
        } else {
            (false, false, Seq::empty(), header, points)
        }
    } else {
        (in_header, false, cur.push(b), header, points)
    }
}

/// The state after reading `bytes`.
pub open spec fn frame_state(bytes: Seq<u8>) -> FrameState
    decreases bytes.len(),
{
    if bytes.len() == 0 {
        frame_start()
    } else {
        frame_step(frame_state(bytes.drop_last()), bytes.last())
    }
}

/// The sample lines of a response: those read, and the last line if it is
/// unfinished, non-empty and after the header.
pub open spec fn framed_points(bytes: Seq<u8>) -> Seq<Seq<u8>> {
    let (in_header, _e, cur, _h, points) = frame_state(bytes);
    if !in_header && cur.len() > 0 {
        points.push(cur)
    } else {
        points
    }
}

/// The state after reading `bytes` from the state `st`.
pub open spec fn frame_run(st: FrameState, bytes: Seq<u8>) -> FrameState
    decreases bytes.len(),
{
    if bytes.len() == 0 {
        st
    } else {
        frame_step(frame_run(st, bytes.drop_last()), bytes.last())
    }
}

/// Reading from the start state is reading a response.
proof fn lemma_frame_run_start(bytes: Seq<u8>)
    ensures
        frame_run(frame_start(), bytes) == frame_state(bytes),
    decreases bytes.len(),
{
    if bytes.len() > 0 {
        lemma_frame_run_start(bytes.drop_last());
    }
}

/// Reading `a` then `b` is reading `a + b`.
proof fn lemma_frame_run_concat(st: FrameState, a: Seq<u8>, b: Seq<u8>)
    ensures
        frame_run(st, a + b) == frame_run(frame_run(st, a), b),
    decreases b.len(),
{
    if b.len() == 0 {
        assert(a + b =~= a);
    } else {
        lemma_frame_run_concat(st, a, b.drop_last());
        assert((a + b).drop_last() =~= a + b.drop_last());
        assert((a + b).last() == b.last());
    }
}

/// Reading one byte is one step.
proof fn lemma_frame_run_one(st: FrameState, b: u8)
    ensures
        frame_run(st, seq![b]) == frame_step(st, b),
{
    assert(seq![b].drop_last() =~= Seq::<u8>::empty());
    assert(frame_run(st, Seq::<u8>::empty()) == st);
}

/// Reading two bytes is two steps.
proof fn lemma_frame_run_two(st: FrameState, a: u8, b: u8)
    ensures
        frame_run(st, seq![a, b]) == frame_step(frame_step(st, a), b),
{
    assert(seq![a, b].drop_last() =~= seq![a]);
    lemma_frame_run_one(st, a);
}

/// Reading the escaped form of `x` outside an escape appends `x` to the line.
proof fn lemma_frame_run_escaped(st: FrameState, x: Seq<u8>)
    requires
        !st.1,
    ensures
        frame_run(st, escaped(x)) == (st.0, false, st.2 + x, st.3, st.4),
    decreases x.len(),
{
    if x.len() == 0 {
        assert(st.2 + x =~= st.2);
    } else {
        let c = x[0];
        let e = escape_byte(c);
        assert(escaped(x) == e + escaped(x.skip(1)));
        lemma_frame_run_concat(st, e, escaped(x.skip(1)));
        let mid = (st.0, false, st.2.push(c), st.3, st.4);
        if c == ESCAPE_CHAR {
            lemma_frame_run_two(st, ESCAPE_CHAR, ESCAPE_ESCAPE_CHAR);
        } else if c == NEWLINE_CHAR {
            lemma_frame_run_two(st, ESCAPE_CHAR, NEWLINE_ESCAPE_CHAR);
        } else if c == CARRIAGERETURN_CHAR {
            lemma_frame_run_two(st, ESCAPE_CHAR, CARRIAGERETURN_ESCAPE_CHAR);
        } else {
            lemma_frame_run_one(st, c);
        }
        assert(frame_run(st, e) == mid);
        lemma_frame_run_escaped(mid, x.skip(1));
        assert(st.2.push(c) + x.skip(1) =~= st.2 + x);
    }
}

/// The sample lines of a response written by the archiver: each line
/// escaped and ended by a newline.
pub open spec fn framed_lines(lines: Seq<Seq<u8>>) -> Seq<u8>
    decreases lines.len(),
{
    if lines.len() == 0 {
        seq![]
    } else {
        framed_lines(lines.drop_last()) + escaped(lines.last()) + seq![NEWLINE_CHAR]
    }
}

/// A raw response as the archiver writes it: the escaped header, a newline,
/// and the framed sample lines.
pub open spec fn framed_response(header: Seq<u8>, lines: Seq<Seq<u8>>) -> Seq<u8> {
    escaped(header) + seq![NEWLINE_CHAR] + framed_lines(lines)
}

/// Reading framed sample lines after the header collects them in order.
proof fn lemma_frame_run_lines(h: Seq<u8>, done: Seq<Seq<u8>>, lines: Seq<Seq<u8>>)
    requires
        forall|i: int| 0 <= i < lines.len() ==> (#[trigger] lines[i]).len() > 0,
    ensures
        frame_run((false, false, Seq::empty(), Some(h), done), framed_lines(lines)) == (
            false,
            false,
            Seq::<u8>::empty(),
            Some(h),
            done + lines,
        ),
    decreases lines.len(),
{
    let st = (false, false, Seq::<u8>::empty(), Some(h), done);
    if lines.len() == 0 {
        assert(done + lines =~= done);
    } else {
        let rest = lines.drop_last();
        let last = lines.last();
        assert forall|i: int| 0 <= i < rest.len() implies (#[trigger] rest[i]).len() > 0 by {
            assert(rest[i] == lines[i]);
        }
        lemma_frame_run_lines(h, done, rest);
        let before = (false, false, Seq::<u8>::empty(), Some(h), done + rest);
        lemma_frame_run_concat(st, framed_lines(rest), escaped(last));
        lemma_frame_run_escaped(before, last);
        assert(Seq::<u8>::empty() + last =~= last);
        lemma_frame_run_concat(st, framed_lines(rest) + escaped(last), seq![NEWLINE_CHAR]);
        lemma_frame_run_one((false, false, last, Some(h), done + rest), NEWLINE_CHAR);
        assert(lines[lines.len() - 1].len() > 0);
        assert(framed_lines(lines) == framed_lines(rest) + escaped(last) + seq![NEWLINE_CHAR]);
        assert((done + rest).push(last) =~= done + lines);
    }
}

/// Framing reads back what the archiver wrote: the header and every
/// non-empty sample line, in order.
pub proof fn law_framing_reads_back(header: Seq<u8>, lines: Seq<Seq<u8>>)
    requires
        forall|i: int| 0 <= i < lines.len() ==> (#[trigger] lines[i]).len() > 0,
    ensures
        framed_response(header, lines).len() > 0,
        frame_state(framed_response(header, lines)).3 == Some(header),
        framed_points(framed_response(header, lines)) == lines,
{
    let raw = framed_response(header, lines);
    let head = escaped(header) + seq![NEWLINE_CHAR];
    lemma_frame_run_start(raw);
    lemma_frame_run_concat(frame_start(), head, framed_lines(lines));
    lemma_frame_run_concat(frame_start(), escaped(header), seq![NEWLINE_CHAR]);
    lemma_frame_run_escaped(frame_start(), header);
    assert(Seq::<u8>::empty() + header =~= header);
    lemma_frame_run_one((true, false, header, None, Seq::empty()), NEWLINE_CHAR);
    lemma_frame_run_lines(header, Seq::empty(), lines);
    assert(Seq::<Seq<u8>>::empty() + lines =~= lines);
    assert(raw.len() >= 1);
}

/// The views of a vector of byte vectors.
pub open spec fn byte_views(v: Seq<Vec<u8>>) -> Seq<Seq<u8>> {
    v.map_values(|x: Vec<u8>| x@)
}

// ---------------------------------------------------------------------------
// Metadata
// ---------------------------------------------------------------------------

/// The metadata with one header applied: a header naming a metadata field
/// sets it; a `name` header renames the PV where `rename` holds; others are
/// ignored.
pub open spec fn with_header(m: Meta, h: FieldValue, rename: bool) -> Meta {
    let n = h.name@;
    if rename && n == "name"@ {
        Meta { name: h.val, ..m }
    } else if n == "DRVH"@ {
        Meta { DRVH: Some(h.val), ..m }
    } else if n == "EGU"@ {
        Meta { EGU: Some(h.val), ..m }
    } else if n == "HIGH"@ {
        Meta { HIGH: Some(h.val), ..m }
    } else if n == "HIHI"@ {
        Meta { HIHI: Some(h.val), ..m }
    } else if n == "DRVL"@ {
        Meta { DRVL: Some(h.val), ..m }
    } else if n == "PREC"@ {
        Meta { PREC: Some(h.val), ..m }
    } else if n == "LOW"@ {
        Meta { LOW: Some(h.val), ..m }
    } else if n == "LOLO"@ {
        Meta { LOLO: Some(h.val), ..m }
    } else if n == "LOPR"@ {
        Meta { LOPR: Some(h.val), ..m }
    } else if n == "HOPR"@ {
        Meta { HOPR: Some(h.val), ..m }
    } else if n == "NELM"@ {
        Meta { NELM: Some(h.val), ..m }
    } else if n == "DESC"@ {
        Meta { DESC: Some(h.val), ..m }
    } else {
        m
    }
}

/// The metadata with the headers applied in order.
pub open spec fn with_headers(m: Meta, hs: Seq<FieldValue>, rename: bool) -> Meta
    decreases hs.len(),
{
    if hs.len() == 0 {
        m
    } else {
        with_header(with_headers(m, hs.drop_last(), rename), hs.last(), rename)
    }
}

/// A header naming a metadata field sets that field to its value and leaves
/// every other field as it was; a `name` header renames the PV exactly where
/// renaming is asked for; any other header changes nothing. Headers are
/// applied one after the other, so a single header is applied as itself.
pub proof fn law_header_sets_its_field(m: Meta, h: FieldValue, rename: bool)
    ensures
        h.name@ == "DRVH"@ ==> with_header(m, h, rename) == (Meta { DRVH: Some(h.val), ..m }),
        h.name@ == "EGU"@ ==> with_header(m, h, rename) == (Meta { EGU: Some(h.val), ..m }),
        h.name@ == "HIGH"@ ==> with_header(m, h, rename) == (Meta { HIGH: Some(h.val), ..m }),
        h.name@ == "HIHI"@ ==> with_header(m, h, rename) == (Meta { HIHI: Some(h.val), ..m }),
        h.name@ == "DRVL"@ ==> with_header(m, h, rename) == (Meta { DRVL: Some(h.val), ..m }),
        h.name@ == "PREC"@ ==> with_header(m, h, rename) == (Meta { PREC: Some(h.val), ..m }),
        h.name@ == "LOW"@ ==> with_header(m, h, rename) == (Meta { LOW: Some(h.val), ..m }),
        h.name@ == "LOLO"@ ==> with_header(m, h, rename) == (Meta { LOLO: Some(h.val), ..m }),
        h.name@ == "LOPR"@ ==> with_header(m, h, rename) == (Meta { LOPR: Some(h.val), ..m }),
        h.name@ == "HOPR"@ ==> with_header(m, h, rename) == (Meta { HOPR: Some(h.val), ..m }),
        h.name@ == "NELM"@ ==> with_header(m, h, rename) == (Meta { NELM: Some(h.val), ..m }),
        h.name@ == "DESC"@ ==> with_header(m, h, rename) == (Meta { DESC: Some(h.val), ..m }),
        h.name@ == "name"@ ==> with_header(m, h, rename) == (if rename {
            Meta { name: h.val, ..m }
        } else {
            m
        }),
        h.name@ != "name"@ && h.name@ != "DRVH"@ && h.name@ != "EGU"@ && h.name@ != "HIGH"@ && h.name@ != "HIHI"@ && h.name@ != "DRVL"@ && h.name@ != "PREC"@ && h.name@ != "LOW"@ && h.name@ != "LOLO"@ && h.name@ != "LOPR"@ && h.name@ != "HOPR"@ && h.name@ != "NELM"@ && h.name@ != "DESC"@ ==> with_header(m, h, rename) == m,
        with_headers(m, seq![h], rename) == with_header(m, h, rename),
{
    reveal_strlit("DRVH");
    reveal_strlit("EGU");
    reveal_strlit("HIGH");
    reveal_strlit("HIHI");
    reveal_strlit("DRVL");
    reveal_strlit("PREC");
    reveal_strlit("LOW");
    reveal_strlit("LOLO");
    reveal_strlit("LOPR");
    reveal_strlit("HOPR");
    reveal_strlit("NELM");
    reveal_strlit("DESC");
    reveal_strlit("name");
    assert("name"@[0] != "DRVH"@[0]);
    assert("name"@[0] != "HIGH"@[0]);
    assert("name"@[0] != "HIHI"@[0]);
    assert("name"@[0] != "DRVL"@[0]);
    assert("name"@[0] != "PREC"@[0]);
    assert("name"@[0] != "LOLO"@[0]);
    assert("name"@[0] != "LOPR"@[0]);
    assert("name"@[0] != "HOPR"@[0]);
    assert("name"@[0] != "NELM"@[0]);
    assert("name"@[0] != "DESC"@[0]);
    assert("DRVH"@[0] != "HIGH"@[0]);
    assert("DRVH"@[0] != "HIHI"@[0]);
    assert("DRVH"@[3] != "DRVL"@[3]);
    assert("DRVH"@[0] != "PREC"@[0]);
    assert("DRVH"@[0] != "LOLO"@[0]);
    assert("DRVH"@[0] != "LOPR"@[0]);
    assert("DRVH"@[0] != "HOPR"@[0]);
    assert("DRVH"@[0] != "NELM"@[0]);
    assert("DRVH"@[1] != "DESC"@[1]);
    assert("EGU"@[0] != "LOW"@[0]);
    assert("HIGH"@[2] != "HIHI"@[2]);
    assert("HIGH"@[0] != "DRVL"@[0]);
    assert("HIGH"@[0] != "PREC"@[0]);
    assert("HIGH"@[0] != "LOLO"@[0]);
    assert("HIGH"@[0] != "LOPR"@[0]);
    assert("HIGH"@[1] != "HOPR"@[1]);
    assert("HIGH"@[0] != "NELM"@[0]);
    assert("HIGH"@[0] != "DESC"@[0]);
    assert("HIHI"@[0] != "DRVL"@[0]);
    assert("HIHI"@[0] != "PREC"@[0]);
    assert("HIHI"@[0] != "LOLO"@[0]);
    assert("HIHI"@[0] != "LOPR"@[0]);
    assert("HIHI"@[1] != "HOPR"@[1]);
    assert("HIHI"@[0] != "NELM"@[0]);
    assert("HIHI"@[0] != "DESC"@[0]);
    assert("DRVL"@[0] != "PREC"@[0]);
    assert("DRVL"@[0] != "LOLO"@[0]);
    assert("DRVL"@[0] != "LOPR"@[0]);
    assert("DRVL"@[0] != "HOPR"@[0]);
    assert("DRVL"@[0] != "NELM"@[0]);
    assert("DRVL"@[1] != "DESC"@[1]);
    assert("PREC"@[0] != "LOLO"@[0]);
    assert("PREC"@[0] != "LOPR"@[0]);
    assert("PREC"@[0] != "HOPR"@[0]);
    assert("PREC"@[0] != "NELM"@[0]);
    assert("PREC"@[0] != "DESC"@[0]);
    assert("LOLO"@[2] != "LOPR"@[2]);
    assert("LOLO"@[0] != "HOPR"@[0]);
    assert("LOLO"@[0] != "NELM"@[0]);
    assert("LOLO"@[0] != "DESC"@[0]);
    assert("LOPR"@[0] != "HOPR"@[0]);
    assert("LOPR"@[0] != "NELM"@[0]);
    assert("LOPR"@[0] != "DESC"@[0]);
    assert("HOPR"@[0] != "NELM"@[0]);
    assert("HOPR"@[0] != "DESC"@[0]);
    assert("NELM"@[0] != "DESC"@[0]);
    assert(seq![h].drop_last() =~= Seq::<FieldValue>::empty());
    assert(with_headers(m, Seq::<FieldValue>::empty(), rename) == m);
    assert(seq![h].last() == h);
}

fn apply_header(m: Meta, h: &FieldValue, rename: bool) -> (r: Meta)
    ensures
        r == with_header(m, *h, rename),
{
    let n = h.name.as_str();
    let v = h.val.clone();
    if rename && str_eq(n, "name") {
        Meta { name: v, ..m }
    } else if str_eq(n, "DRVH") {
        Meta { DRVH: Some(v), ..m }
    } else if str_eq(n, "EGU") {
        Meta { EGU: Some(v), ..m }
    } else if str_eq(n, "HIGH") {
        Meta { HIGH: Some(v), ..m }
    } else if str_eq(n, "HIHI") {
        Meta { HIHI: Some(v), ..m }
    } else if str_eq(n, "DRVL") {
        Meta { DRVL: Some(v), ..m }
    } else if str_eq(n, "PREC") {
        Meta { PREC: Some(v), ..m }
    } else if str_eq(n, "LOW") {
        Meta { LOW: Some(v), ..m }
    } else if str_eq(n, "LOLO") {
        Meta { LOLO: Some(v), ..m }
    } else if str_eq(n, "LOPR") {
        Meta { LOPR: Some(v), ..m }
    } else if str_eq(n, "HOPR") {
        Meta { HOPR: Some(v), ..m }
    } else if str_eq(n, "NELM") {
        Meta { NELM: Some(v), ..m }
    } else if str_eq(n, "DESC") {
        Meta { DESC: Some(v), ..m }
    } else {
        m
    }
}

/// Applies the headers in order to the metadata.
pub fn apply_headers(m: Meta, hs: &Vec<FieldValue>, rename: bool) -> (r: Meta)
    ensures
        r == with_headers(m, hs@, rename),
{
    let mut acc = m;
    let mut i: usize = 0;
    while i < hs.len()
        invariant
            i <= hs.len(),
            acc == with_headers(m, hs@.take(i as int), rename),
        decreases hs.len() - i,
    {
        assert(hs@.take(i + 1).drop_last() =~= hs@.take(i as int));
        acc = apply_header(acc, &hs[i], rename);
        i += 1;
    }
    assert(hs@.take(hs.len() as int) =~= hs@);
    acc
}

// ---------------------------------------------------------------------------
// Samples
// ---------------------------------------------------------------------------

/// Milliseconds since the epoch of a sample `seconds_into_year` seconds and
/// `nanos` nanoseconds into `year`.
pub open spec fn sample_millis(seconds_into_year: int, nanos: int, year: int) -> int {
    (year_start_seconds(year) + seconds_into_year) * 1000 + nanos / 1_000_000
}

/// The value a decoded scalar stands for; a byte message must carry at least
/// one byte, of which the first is the value; a short is its low 16 bits.
pub open spec fn sample_point_value(v: SampleValue) -> Option<PointValue> {
    match v {
        SampleValue::Float(b) => Some(PointValue::Float(b)),
        SampleValue::Double(b) => Some(PointValue::Double(b)),
        SampleValue::Int(x) => Some(PointValue::Int(x)),
        SampleValue::Short(x) => Some(PointValue::Short(x as i16)),
        SampleValue::Byte(bytes) => if bytes@.len() > 0 {
            Some(PointValue::Byte(bytes@[0]))
        } else {
            None
        },
        SampleValue::Enum(x) => Some(PointValue::Enum(x)),
        SampleValue::String(s) => Some(PointValue::String(s)),
    }
}

/// The sample a decoded scalar gives in `year`, if its value is readable:
/// whole seconds and the millisecond remainder in nanoseconds, absent
/// severity and status 0.
pub open spec fn sample_point(s: ScalarSample, year: int) -> Option<Point> {
    let ms = sample_millis(s.seconds_into_year as int, s.nano as int, year);
    match sample_point_value(s.val) {
        Some(v) => Some(
            Point {
                secs: (ms / 1000) as i64,
                nanos: ((ms % 1000) * 1_000_000) as i32,
                val: v,
                severity: match s.severity {
                    Some(x) => x,
                    None => 0,
                },
                status: match s.status {
                    Some(x) => x,
                    None => 0,
                },
            },
        ),
        None => None,
    }
}

/// The samples that the decoded messages give, in order; messages that did
/// not decode, and those whose value is unreadable, are left out.
pub open spec fn sample_points(samples: Seq<Option<ScalarSample>>, year: int) -> Seq<Point>
    decreases samples.len(),
{
    if samples.len() == 0 {
        seq![]
    } else {
        sample_points(samples.drop_last(), year) + match samples.last() {
            Some(s) => match sample_point(s, year) {
                Some(p) => seq![p],
                None => seq![],
            },
            None => seq![],
        }
    }
}

/// Whether a decoded message holds a readable value.
pub open spec fn sample_readable(s: Option<ScalarSample>) -> bool {
    match s {
        Some(x) => sample_point_value(x.val) is Some,
        None => false,
    }
}

/// No decoded message of `samples` holds a readable value.
pub open spec fn none_readable(samples: Seq<Option<ScalarSample>>) -> bool {
    forall|i: int| 0 <= i < samples.len() ==> !sample_readable(#[trigger] samples[i])
}

/// Messages without a readable value give no sample, whatever the year.
pub proof fn lemma_none_readable_no_points(samples: Seq<Option<ScalarSample>>, year: int)
    requires
        none_readable(samples),
    ensures
        sample_points(samples, year) == Seq::<Point>::empty(),
    decreases samples.len(),
{
    if samples.len() > 0 {
        let rest = samples.drop_last();
        assert forall|i: int| 0 <= i < rest.len() implies !sample_readable(#[trigger] rest[i]) by {
            assert(rest[i] == samples[i]);
        }
        lemma_none_readable_no_points(rest, year);
        assert(!sample_readable(samples[samples.len() - 1]));
    }
}

/// Whether some decoded message holds a readable value.
pub fn has_readable_sample(samples: &Vec<Option<ScalarSample>>) -> (r: bool)
    ensures
        r == !none_readable(samples@),
{
    let mut i: usize = 0;
    while i < samples.len()
        invariant
            i <= samples.len(),
            forall|j: int| 0 <= j < i ==> !sample_readable(#[trigger] samples@[j]),
        decreases samples.len() - i,
    {
        let readable = match &samples[i] {
            Some(s) => match &s.val {
                SampleValue::Byte(b) => b.len() > 0,
                _ => true,
            },
            None => false,
        };
        if readable {
            assert(sample_readable(samples@[i as int]));
            return true;
        }
        i += 1;
    }
    false
}

/// Whether `r` is what framing the raw response `raw` gives: the header
/// line and the sample lines, or a decode error for an empty response or one
/// without a complete header line.
pub open spec fn split_outcome(raw: Seq<u8>, r: Result<ResponseFrames, Error>) -> bool {
    match r {
        Ok(frames) => raw.len() > 0 && frame_state(raw).3 == Some(frames.header@) && byte_views(
            frames.points@,
        ) == framed_points(raw),
        Err(e) => e matches Error::Decode(m) && if raw.len() == 0 {
            m@ == "Empty response"@
        } else {
            frame_state(raw).3 is None && m@ == "Missing metadata"@
        },
    }
}

/// Whether `r` is what assembling a response from its decoded header and
/// sample messages gives: the metadata and the readable samples, or a decode
/// error where the header names no PV.
pub open spec fn assembly_outcome(
    payload_info: PayloadInfo,
    samples: Seq<Option<ScalarSample>>,
    r: Result<Vec<PVData>, Error>,
) -> bool {
    let m = with_headers(Meta::named(payload_info.pvname), payload_info.headers@, false);
    match r {
        Ok(v) => m.name@.len() > 0 && v@.len() == 1 && v@[0].meta == m && v@[0].data@
            == sample_points(samples, payload_info.year as int),
        Err(e) => m.name@.len() == 0 && (e matches Error::Decode(msg) && msg@
            == "Missing 'name' in metadata"@),
    }
}

/// An error as its variant and message.
pub open spec fn error_view(e: Error) -> (int, Seq<char>) {
    match e {
        Error::Network(m) => (0, m@),
        Error::Decode(m) => (1, m@),
        Error::Invalid(m) => (2, m@),
    }
}

/// Decoding does not depend on how many samples a decoder expects: the
/// outcomes above mention no decoder, so any two decoders frame the same
/// bytes into the same lines and assemble the same messages into the same
/// data, or fail with the same error.
pub proof fn law_decoding_ignores_capacity(
    raw: Seq<u8>,
    f1: Result<ResponseFrames, Error>,
    f2: Result<ResponseFrames, Error>,
    payload_info: PayloadInfo,
    samples: Seq<Option<ScalarSample>>,
    a1: Result<Vec<PVData>, Error>,
    a2: Result<Vec<PVData>, Error>,
)
    requires
        split_outcome(raw, f1),
        split_outcome(raw, f2),
        assembly_outcome(payload_info, samples, a1),
        assembly_outcome(payload_info, samples, a2),
    ensures
        f1 is Ok <==> f2 is Ok,
        f1 matches Ok(x) ==> f2 matches Ok(y) && x.header@ == y.header@ && byte_views(x.points@)
            == byte_views(y.points@),
        f1 matches Err(x) ==> f2 matches Err(y) && error_view(x) == error_view(y),
        a1 is Ok <==> a2 is Ok,
        a1 matches Ok(x) ==> a2 matches Ok(y) && x@.len() == 1 && y@.len() == 1 && x@[0].meta
            == y@[0].meta && x@[0].data@ == y@[0].data@,
        a1 matches Err(x) ==> a2 matches Err(y) && error_view(x) == error_view(y),
{
}

/// Decoding state of the raw format.
pub struct DecoderContext {
    points_capacity: usize,
    decode_buffer: Vec<u8>,
    current_point: Vec<u8>,
}

impl DecoderContext {
    /// The expected number of samples of a response.
    pub closed spec fn capacity(&self) -> usize {
        self.points_capacity
    }

    /// A decoder expecting about `points_capacity` samples per response.
    pub fn new(points_capacity: usize) -> (r: Self)
        ensures
            r.capacity() == points_capacity,
    {
        DecoderContext {
            points_capacity,
            decode_buffer: Vec::new(),
            current_point: Vec::new(),
        }
    }

    /// Frames a raw response into its header and sample messages. An empty
    /// response, and one without a complete header line, are decode errors.
    pub fn split_response(&self, raw_bytes: &[u8]) -> (r: Result<ResponseFrames, Error>)
        ensures
            split_outcome(raw_bytes@, r),
    {
        if raw_bytes.len() == 0 {
            return Err(Error::Decode(String::from_str("Empty response")));
        }
        let mut in_header = true;
        let mut in_escape = false;
        let mut current: Vec<u8> = Vec::new();
        let mut header: Option<Vec<u8>> = None;
        let mut points: Vec<Vec<u8>> = Vec::new();
        let mut i: usize = 0;
        while i < raw_bytes.len()
            invariant
                i <= raw_bytes.len(),
                frame_state(raw_bytes@.take(i as int)) == (
                    in_header,
                    in_escape,
                    current@,
                    match header {
                        Some(h) => Some(h@),
                        None => None,
                    },
                    byte_views(points@),
                ),
            decreases raw_bytes.len() - i,
        {
            let b = raw_bytes[i];
            assert(raw_bytes@.take(i + 1).drop_last() =~= raw_bytes@.take(i as int));
            assert(raw_bytes@.take(i + 1).last() == b);
            if !in_escape && b == ESCAPE_CHAR {
                in_escape = true;
            } else if in_escape {
                let c = if b == ESCAPE_ESCAPE_CHAR {
                    ESCAPE_CHAR
                } else if b == NEWLINE_ESCAPE_CHAR {
                    NEWLINE_CHAR
                } else if b == CARRIAGERETURN_ESCAPE_CHAR {
                    CARRIAGERETURN_CHAR
                } else {
                    b
                };
                current.push(c);
                in_escape = false;
            } else if b == NEWLINE_CHAR {
                if in_header {
                    header = Some(current);
                    current = Vec::new();
                    in_header = false;
                } else if current.len() > 0 {
                    let ghost before = points@;
                    points.push(current);
                    current = Vec::new();
                    assert(byte_views(points@) =~= byte_views(before).push(
                        points@[points@.len() - 1]@,
                    ));
                } else {
                    current = Vec::new();
                }
            } else {
                current.push(b);
            }
            i += 1;
        }
        assert(raw_bytes@.take(raw_bytes.len() as int) =~= raw_bytes@);
        if !in_header && current.len() > 0 {
            let ghost before = points@;
            points.push(current);
            assert(byte_views(points@) =~= byte_views(before).push(points@[points@.len() - 1]@));
        }
        match header {
            Some(h) => Ok(ResponseFrames { header: h, points }),
            None => Err(Error::Decode(String::from_str("Missing metadata"))),
        }
    }

    /// The metadata a decoded header gives: the PV's name and the metadata
    /// fields its headers name, later headers overriding earlier ones. A
    /// header without a PV name is a decode error.
    pub fn process_metadata(&self, payload_info: &PayloadInfo) -> (r: Result<Meta, Error>)
        ensures
            ({
                let m = with_headers(
                    Meta::named(payload_info.pvname),
                    payload_info.headers@,
                    false,
                );
                match r {
                    Ok(meta) => meta == m && m.name@.len() > 0,
                    Err(e) => m.name@.len() == 0 && (e matches Error::Decode(msg) && msg@
                        == "Missing 'name' in metadata"@),
                }
            }),
    {
        let meta = apply_headers(
            Meta::with_name(payload_info.pvname.clone()),
            &payload_info.headers,
            false,
        );
        if meta.name.as_str().is_empty() {
            return Err(Error::Decode(String::from_str("Missing 'name' in metadata")));
        }
        Ok(meta)
    }

    /// Milliseconds since the epoch of an instant given as seconds and
    /// nanoseconds into `year` (UTC).
    pub fn convert_to_unix_ms(&self, seconds_into_year: u32, nanos: u32, year: i32) -> (r: i64)
        requires
            2000 <= year <= 2100,
        ensures
            r == sample_millis(seconds_into_year as int, nanos as int, year as int),
    {
        proof {
            crate::calendar::lemma_year_start_bounds(year as int);
        }
        let start_of_year = year_start_timestamp(year);
        let total_seconds = start_of_year + seconds_into_year as i64;
        total_seconds * 1000 + (nanos / 1_000_000) as i64
    }

    /// The sample a decoded scalar message gives in `year`. A byte message
    /// without a byte is a decode error.
    pub fn decode_point(&self, sample: &ScalarSample, year: i32) -> (r: Result<Point, Error>)
        requires
            2000 <= year <= 2100,
        ensures
            match r {
                Ok(p) => sample_point(*sample, year as int) == Some(p),
                Err(e) => sample_point(*sample, year as int) is None && (e matches Error::Decode(m)
                    && m@ == "Expected a single byte in ScalarByte value"@),
            },
    {
        let val = match &sample.val {
            SampleValue::Float(b) => PointValue::Float(*b),
            SampleValue::Double(b) => PointValue::Double(*b),
            SampleValue::Int(x) => PointValue::Int(*x),
            SampleValue::Short(x) => PointValue::Short(*x as i16),
            SampleValue::Byte(bytes) => {
                if bytes.len() == 0 {
                    return Err(
                        Error::Decode(
                            String::from_str("Expected a single byte in ScalarByte value"),
                        ),
                    );
                }
                PointValue::Byte(bytes[0])
            },
            SampleValue::Enum(x) => PointValue::Enum(*x),
            SampleValue::String(s) => PointValue::String(s.clone()),
        };
        let millis = self.convert_to_unix_ms(sample.seconds_into_year, sample.nano, year);
        proof {
            crate::calendar::lemma_year_start_bounds(year as int);
        }
        Ok(
            Point {
                secs: millis / 1000,
                nanos: (millis % 1000 * 1_000_000) as i32,
                val,
                severity: match sample.severity {
                    Some(x) => x,
                    None => 0,
                },
                status: match sample.status {
                    Some(x) => x,
                    None => 0,
                },
            },
        )
    }

    /// The data of a response from its decoded header and its decoded sample
    /// messages (`None` where a message did not decode): the metadata, and the
    /// readable samples in order. The start of a year is known from 2000 to
    /// 2100; outside them a response with a PV name may hold no readable
    /// sample.
    pub fn assemble_response(
        &self,
        payload_info: &PayloadInfo,
        samples: &Vec<Option<ScalarSample>>,
    ) -> (r: Result<Vec<PVData>, Error>)
        requires
            2000 <= payload_info.year <= 2100 || none_readable(samples@) || with_headers(
                Meta::named(payload_info.pvname),
                payload_info.headers@,
                false,
            ).name@.len() == 0,
        ensures
            assembly_outcome(*payload_info, samples@, r),
    {
        let meta = match self.process_metadata(payload_info) {
            Ok(m) => m,
            Err(e) => return Err(e),
        };
        let year = payload_info.year;
        if year < 2000 || year > 2100 {
            proof {
                lemma_none_readable_no_points(samples@, year as int);
            }
            return Ok(vec![PVData { meta, data: Vec::new() }]);
        }
        let mut points: Vec<Point> = Vec::new();
        let mut i: usize = 0;
        while i < samples.len()
            invariant
                i <= samples.len(),
                2000 <= year <= 2100,
                year == payload_info.year,
                points@ == sample_points(samples@.take(i as int), year as int),
            decreases samples.len() - i,
        {
            assert(samples@.take(i + 1).drop_last() =~= samples@.take(i as int));
            match &samples[i] {
                Some(s) => {
                    match self.decode_point(s, year) {
                        Ok(p) => {
                            points.push(p);
                        },
                        Err(_) => {},
                    }
                },
                None => {},
            }
            assert(points@ =~= sample_points(samples@.take(i + 1), year as int));
            i += 1;
        }
        assert(samples@.take(samples.len() as int) =~= samples@);
        Ok(vec![PVData { meta, data: points }])
    }
}

/// The message of an unsupported payload type.
pub fn unsupported_type_error(type_id: i32) -> (e: Error)
    ensures
        e matches Error::Invalid(m) && m@ == "Unsupported type: "@ + decimal_text(type_id as int),
{
    let digits = i64_text(type_id as i64);
    Error::Invalid(concat2("Unsupported type: ", digits.as_str()))
}

} // verus!
