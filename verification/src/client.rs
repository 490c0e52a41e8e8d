//! The request logic of the viewer's archiver client: request URLs, the
//! decoder's size hint, and how the answers for several PVs combine. The
//! transport (`reqwest`) and the tasks around it belong to the application.

use vstd::prelude::*;

use crate::decode_helpers::{archiver_date, format_date_for_archiver};
use crate::text::{concat2, concat3};
use crate::types::{
    json_conversion, json_refused, DataFormat, Error, Meta, PVData, Point, PointJson, PointValue,
    ProcessingMode,
};

verus! {

broadcast use vstd::string::group_string_axioms;

/// The text `url::Url` serialises to after parsing `text` and appending
/// `pairs` to its query, or the text of the parse error.
pub uninterp spec fn serialized_url(
    text: Seq<char>,
    pairs: Seq<(Seq<char>, Seq<char>)>,
) -> Result<Seq<char>, Seq<char>>;

/// The views of name/value pairs.
pub open spec fn pair_views(p: Seq<(String, String)>) -> Seq<(Seq<char>, Seq<char>)> {
    p.map_values(|x: (String, String)| (x.0@, x.1@))
}

/// `url::Url::parse(text)`, `query_pairs_mut().extend_pairs(pairs)` and the
/// serialisation of the URL; the parse error's `Display` text on failure. The
/// contract names the result: it is a function of the text and the pairs.
#[verifier::external_body]
pub(crate) fn url_with_query(text: &str, pairs: &Vec<(String, String)>) -> (r: Result<String, String>)
    ensures
        match r {
            Ok(u) => serialized_url(text@, pair_views(pairs@)) == Ok::<Seq<char>, Seq<char>>(u@),
            Err(e) => serialized_url(text@, pair_views(pairs@)) == Err::<Seq<char>, Seq<char>>(
                e@,
            ),
        },
{
    match url::Url::parse(text) {
        Ok(mut u) => {
            u.query_pairs_mut().extend_pairs(pairs.iter());
            Ok(u.into())
        },
        Err(e) => Err(e.to_string()),
    }
}

/// The URL of `path` under `base_url` with the given query, as text: the
/// archiver's base and the path joined by `/`, parsed, and the pairs
/// appended. A text that does not parse is an invalid request.
pub fn build_url(base_url: &str, path: &str, params: &Vec<(String, String)>) -> (r: Result<
    String,
    Error,
>)
    ensures
        match serialized_url(base_url@ + "/"@ + path@, pair_views(params@)) {
            Ok(u) => r matches Ok(s) && s@ == u,
            Err(m) => r matches Err(Error::Invalid(s)) && s@ == "Invalid URL: "@ + m,
        },
{
    let text = concat3(base_url, "/", path);
    match url_with_query(text.as_str(), params) {
        Ok(u) => Ok(u),
        Err(m) => Err(Error::Invalid(concat2("Invalid URL: ", m.as_str()))),
    }
}

/// The archiver's data endpoint for a response format.
pub open spec fn data_endpoint(format: DataFormat) -> Seq<char> {
    match format {
        DataFormat::Raw => "data/getData.raw"@,
        DataFormat::Json => "data/getData.json"@,
    }
}

/// The query of a data request.
pub open spec fn data_query(pv: Seq<char>, from: Seq<char>, to: Seq<char>) -> Seq<
    (Seq<char>, Seq<char>),
> {
    seq![("pv"@, pv), ("from"@, from), ("to"@, to), ("fetchLatestMetadata"@, "true"@)]
}

/// The URL of the data of `pv` over `start..end` (seconds) under `mode`: the
/// endpoint of the format, the PV as the mode names it, the two instants in
/// the archiver's form, and the latest metadata asked for. Instants chrono
/// cannot represent are invalid requests.
pub fn fetch_single_pv_url(
    base_url: &str,
    pv: &str,
    start: i64,
    end: i64,
    mode: ProcessingMode,
    format: DataFormat,
) -> (r: Result<String, Error>)
    requires
        -9_223_372_036_854_775 <= start <= 9_223_372_036_854_775,
        -9_223_372_036_854_775 <= end <= 9_223_372_036_854_775,
    ensures
        match (archiver_date(start * 1000), archiver_date(end * 1000)) {
            (Some(from), Some(to)) => match serialized_url(
                base_url@ + "/"@ + data_endpoint(format),
                data_query(mode.spec_format_pv(pv@), from, to),
            ) {
                Ok(u) => r matches Ok(s) && s@ == u,
                Err(m) => r matches Err(Error::Invalid(s)) && s@ == "Invalid URL: "@ + m,
            },
            (None, _) => r matches Err(Error::Invalid(s)) && s@ == "Invalid start timestamp"@,
            (Some(_), None) => r matches Err(Error::Invalid(s)) && s@ == "Invalid end timestamp"@,
        },
{
    let start_date = match format_date_for_archiver(start * 1000) {
        Some(d) => d,
        None => return Err(Error::Invalid(String::from_str("Invalid start timestamp"))),
    };
    let end_date = match format_date_for_archiver(end * 1000) {
        Some(d) => d,
        None => return Err(Error::Invalid(String::from_str("Invalid end timestamp"))),
    };
    let processed_pv = mode.format_pv(pv);
    let params = vec![
        (String::from_str("pv"), processed_pv),
        (String::from_str("from"), start_date),
        (String::from_str("to"), end_date),
        (String::from_str("fetchLatestMetadata"), String::from_str("true")),
    ];
    let path = match format {
        DataFormat::Raw => "data/getData.raw",
        DataFormat::Json => "data/getData.json",
    };
    assert(pair_views(params@) =~= data_query(
        mode.spec_format_pv(pv@),
        archiver_date(start * 1000)->0,
        archiver_date(end * 1000)->0,
    ));
    build_url(base_url, path, &params)
}

/// The number of samples a decoder expects for a request over
/// `duration_seconds`: 10 up to 5 s, 30 up to a minute, 100 up to five
/// minutes, 500 beyond.
pub fn determine_batch_size(duration_seconds: i64) -> (r: usize)
    ensures
        r == (if duration_seconds <= 5 {
            10usize
        } else if duration_seconds <= 60 {
            30usize
        } else if duration_seconds <= 300 {
            100usize
        } else {
            500usize
        }),
{
    if duration_seconds <= 5 {
        10
    } else if duration_seconds <= 60 {
        30
    } else if duration_seconds <= 300 {
        100
    } else {
        500
    }
}

/// The first failure among per-PV results, in order.
pub open spec fn first_failure(results: Seq<Result<PVData, Error>>) -> Option<int>
    decreases results.len(),
{
    if results.len() == 0 {
        None
    } else {
        match first_failure(results.drop_last()) {
            Some(i) => Some(i),
            None => if results.last() is Err {
                Some(results.len() - 1)
            } else {
                None
            },
        }
    }
}

/// The data of several PVs fetched one by one: the first failure, in the
/// order of the PVs, is the answer; without one, all the data in order.
#[verifier::loop_isolation(false)]
pub fn collect_pv_results(results: Vec<Result<PVData, Error>>) -> (r: Result<Vec<PVData>, Error>)
    ensures
        match first_failure(results@) {
            Some(i) => 0 <= i < results@.len() && (results@[i] matches Err(e) && r == Err::<
                Vec<PVData>,
                Error,
            >(e)),
            None => r matches Ok(v) && v@.len() == results@.len() && forall|j: int|
                0 <= j < v@.len() ==> results@[j] == Ok::<PVData, Error>(#[trigger] v@[j]),
        },
{
    let mut out: Vec<PVData> = Vec::new();
    let ghost all = results@;
    let mut rest = results;
    let mut i: usize = 0;
    let n = rest.len();
    assert(all.skip(0) =~= all);
    while rest.len() > 0
        invariant
            n == all.len(),
            i + rest@.len() == n,
            rest@ == all.skip(i as int),
            first_failure(all.take(i as int)) is None,
            out@.len() == i,
            forall|j: int| 0 <= j < i ==> all[j] == Ok::<PVData, Error>(#[trigger] out@[j]),
        decreases rest@.len(),
    {
        let item = rest.remove(0);
        assert(rest@ =~= all.skip(i + 1));
        assert(item == all[i as int]);
        let ghost it = item;
        assert(all.take(i + 1).drop_last() =~= all.take(i as int));
        match item {
            Ok(d) => {
                out.push(d);
            },
            Err(e) => {
                assert(first_failure(all.take(i + 1)) == Some(i as int));
                proof {
                    lemma_first_failure_prefix(all, (i + 1) as int);
                }
                assert(it == Err::<PVData, Error>(e));
                assert(results@[i as int] == Err::<PVData, Error>(e));
                return Err(e);
            },
        }
        i += 1;
    }
    assert(all.take(n as int) =~= all);
    Ok(out)
}

/// A failure found in a prefix is the first failure of the whole.
pub proof fn lemma_first_failure_prefix(s: Seq<Result<PVData, Error>>, k: int)
    requires
        0 <= k <= s.len(),
        first_failure(s.take(k)) is Some,
    ensures
        first_failure(s) == first_failure(s.take(k)),
    decreases s.len() - k,
{
    if k < s.len() {
        assert(s.take(k + 1).drop_last() =~= s.take(k));
        lemma_first_failure_prefix(s, k + 1);
    } else {
        assert(s.take(k) =~= s);
    }
}

/// Metadata the archiver answered with must name the PV.
pub fn check_metadata(meta: Meta) -> (r: Result<Meta, Error>)
    ensures
        meta.name@.len() > 0 ==> r == Ok::<Meta, Error>(meta),
        meta.name@.len() == 0 ==> (r matches Err(Error::Invalid(m)) && m@
            == "Missing name in metadata response"@),
{
    if meta.name.as_str().is_empty() {
        Err(Error::Invalid(String::from_str("Missing name in metadata response")))
    } else {
        Ok(meta)
    }
}

/// The sample a JSON sample stands for, given the value its conversion
/// gave: the same instant, and the severity and status where sent (else
/// zero).
pub open spec fn json_sample(p: PointJson, val: PointValue) -> Point {
    Point {
        secs: p.secs,
        nanos: p.nanos,
        val,
        severity: match p.severity {
            Some(s) => s as i32,
            None => 0,
        },
        status: match p.status {
            Some(s) => s as i32,
            None => 0,
        },
    }
}

/// Whether `q` is the sample `p` stands for, its value converted as
/// `json_conversion` says.
pub open spec fn converted_sample(p: PointJson, q: Point) -> bool {
    exists|val: PointValue| #[trigger] json_conversion(p.val, Ok(val)) && q == json_sample(p, val)
}

/// The samples of a JSON answer, in order, each value converted as
/// `json_conversion` says. The answer fails, with the error of the first
/// sample refused, exactly when a sample is refused.
pub fn points_from_json(data: &Vec<PointJson>) -> (r: Result<Vec<Point>, Error>)
    ensures
        r is Ok <==> forall|i: int| 0 <= i < data@.len() ==> !json_refused(#[trigger] data@[i].val),
        r matches Ok(v) ==> v@.len() == data@.len() && forall|i: int|
            0 <= i < data@.len() ==> converted_sample(data@[i], #[trigger] v@[i]),
        r matches Err(e) ==> exists|i: int|
            0 <= i < data@.len() && json_conversion(#[trigger] data@[i].val, Err(e)) && forall|j: int|
                0 <= j < i ==> !json_refused(#[trigger] data@[j].val),
{
    let mut out: Vec<Point> = Vec::new();
    let mut i: usize = 0;
    while i < data.len()
        invariant
            i <= data@.len(),
            out@.len() == i,
            forall|j: int| 0 <= j < i ==> !json_refused(#[trigger] data@[j].val),
            forall|j: int| 0 <= j < i ==> converted_sample(data@[j], #[trigger] out@[j]),
        decreases data@.len() - i,
    {
        let p = &data[i];
        let val = match p.to_point_value() {
            Ok(v) => v,
            Err(e) => {
                assert(json_conversion(data@[i as int].val, Err(e)));
                return Err(e);
            },
        };
        let ghost gv = val;
        assert(json_conversion(data@[i as int].val, Ok(gv)));
        let severity: i32 = match p.severity {
            Some(s) => s as i32,
            None => 0,
        };
        let status: i32 = match p.status {
            Some(s) => s as i32,
            None => 0,
        };
        out.push(Point { secs: p.secs, nanos: p.nanos, val, severity, status });
        assert(out@[i as int] == json_sample(data@[i as int], gv));
        assert(converted_sample(data@[i as int], out@[i as int]));
        i = i + 1;
    }
    Ok(out)
}

} // verus!
