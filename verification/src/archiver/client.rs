//! Query planning of the archiver's JSON data service: which operator a time
//! range calls for and how the PV is named in the request. The HTTP client and
//! the float arithmetic of normalisation belong to the application.

use vstd::prelude::*;

use crate::client::{build_url, pair_views, serialized_url};
use crate::decode_helpers::{archiver_date, format_date_for_archiver};
use crate::text::{concat3};
use crate::types::Error;

verus! {

broadcast use vstd::string::group_string_axioms;

/// The operator a time range of `secs` seconds calls for: none (raw data) up
/// to 15 minutes, `optimized_720` up to 6 hours, `optimized_1440` up to a
/// day, `optimized_2016` up to a week, `optimized_4320` beyond.
pub open spec fn spec_operator_for_time_range(secs: u64) -> Option<Seq<char>> {
    if secs <= 900 {
        None
    } else if secs <= 21600 {
        Some("optimized_720"@)
    } else if secs <= 86400 {
        Some("optimized_1440"@)
    } else if secs <= 604800 {
        Some("optimized_2016"@)
    } else {
        Some("optimized_4320"@)
    }
}

/// The operator a time range of `secs` seconds calls for.
pub fn get_operator_for_time_range(secs: u64) -> (r: Option<String>)
    ensures
        match r {
            Some(s) => spec_operator_for_time_range(secs) == Some(s@),
            None => spec_operator_for_time_range(secs) is None,
        },
{
    if secs <= 900 {
        None
    } else if secs <= 7200 {
        Some(String::from_str("optimized_720"))
    } else if secs <= 21600 {
        Some(String::from_str("optimized_720"))
    } else if secs <= 86400 {
        Some(String::from_str("optimized_1440"))
    } else if secs <= 604800 {
        Some(String::from_str("optimized_2016"))
    } else {
        Some(String::from_str("optimized_4320"))
    }
}

/// The PV as the data service is asked for it over a range of `millis`
/// milliseconds: under the requested operator if there is one, else under the
/// operator the range calls for when it is longer than an hour, else bare.
pub open spec fn spec_pv_query(pv: Seq<char>, millis: u64, requested: Option<Seq<char>>) -> Seq<
    char,
> {
    let op = match requested {
        Some(o) => Some(o),
        None => if millis > 3_600_000 {
            spec_operator_for_time_range((millis / 1000) as u64)
        } else {
            None
        },
    };
    match op {
        Some(o) => o + "("@ + pv + ")"@,
        None => pv,
    }
}

/// The PV as the data service is asked for it over a range of `millis`
/// milliseconds.
pub fn pv_query(pv: &str, millis: u64, requested: Option<String>) -> (r: String)
    ensures
        r@ == spec_pv_query(
            pv@,
            millis,
            match requested {
                Some(o) => Some(o@),
                None => None,
            },
        ),
{
    let op = match requested {
        Some(o) => Some(o),
        None => if millis > 3_600_000 {
            get_operator_for_time_range(millis / 1000)
        } else {
            None
        },
    };
    match op {
        Some(o) => {
            let mut r = concat3(o.as_str(), "(", pv);
            crate::text::push_str(&mut r, ")");
            r
        },
        None => String::from_str(pv),
    }
}

/// The archiver the JSON data client talks to.
#[derive(Debug, Clone)]
pub struct ArchiverUrlSetting {
    pub url: String,
}

impl ArchiverUrlSetting {
    /// The local archiver's retrieval service.
    pub fn default() -> (r: Self)
        ensures
            r.url@ == "http://localhost:17665/retrieval"@,
    {
        ArchiverUrlSetting { url: String::from_str("http://localhost:17665/retrieval") }
    }
}

/// Points the JSON data client at another archiver.
pub fn set_archiver_url(setting: &mut ArchiverUrlSetting, url: String)
    ensures
        final(setting).url == url,
{
    setting.url = url;
}

/// The query of a request to the JSON data service.
pub open spec fn json_query(pv: Seq<char>, from: Seq<char>, to: Seq<char>) -> Seq<(Seq<char>, Seq<char>)> {
    seq![("pv"@, pv), ("from"@, from), ("to"@, to)]
}

/// Whether `r` is what a request for `pv` between `from_ms` and `to_ms`
/// (milliseconds) to the data service under `base` gives: an end before the
/// start is refused, as are instants chrono cannot represent; else the URL of
/// `getData.json` under `base`, with the PV as `spec_pv_query` names it over
/// the range and the two instants in the archiver's form.
pub open spec fn json_request_outcome(
    base: Seq<char>,
    pv: Seq<char>,
    from_ms: i64,
    to_ms: i64,
    operator: Option<Seq<char>>,
    r: Result<String, Error>,
) -> bool {
    if to_ms < from_ms {
        r matches Err(Error::Invalid(m)) && m@
            == "System time error: second time provided was later than self"@
    } else {
        match (archiver_date(from_ms as int), archiver_date(to_ms as int)) {
            (Some(f), Some(t)) => match serialized_url(
                base + "/"@ + "getData.json"@,
                json_query(spec_pv_query(pv, (to_ms - from_ms) as u64, operator), f, t),
            ) {
                Ok(u) => r matches Ok(s) && s@ == u,
                Err(m) => r matches Err(Error::Invalid(s)) && s@ == "Invalid URL: "@ + m,
            },
            (None, _) => r matches Err(Error::Invalid(m)) && m@ == "Invalid start time"@,
            (Some(_), None) => r matches Err(Error::Invalid(m)) && m@ == "Invalid end time"@,
        }
    }
}

/// The views of an optional operator.
pub open spec fn operator_view(operator: Option<String>) -> Option<Seq<char>> {
    match operator {
        Some(o) => Some(o@),
        None => None,
    }
}

/// The JSON data client: the archiver it was made for. The HTTP transport
/// belongs to the application.
#[derive(Debug, Clone)]
pub struct ArchiverClient {
    base_url: String,
}

impl ArchiverClient {
    /// The base URL the client sends its requests under.
    pub closed spec fn base(&self) -> Seq<char> {
        self.base_url@
    }

    /// A client for the archiver the setting names now; a later change of the
    /// setting does not reach it.
    pub fn new(setting: &ArchiverUrlSetting) -> (r: Self)
        ensures
            r.base() == setting.url@,
    {
        ArchiverClient { base_url: setting.url.clone() }
    }

    /// The base URL the client sends its requests under.
    pub fn base_url(&self) -> (r: &str)
        ensures
            r@ == self.base(),
    {
        self.base_url.as_str()
    }

    /// The URL of the data of `pv` between `from_ms` and `to_ms`
    /// (milliseconds), under the requested operator or the one the range
    /// calls for; see `json_request_outcome`.
    pub fn request_url(&self, pv: &str, from_ms: i64, to_ms: i64, operator: Option<String>) -> (r:
        Result<String, Error>)
        ensures
            json_request_outcome(self.base(), pv@, from_ms, to_ms, operator_view(operator), r),
    {
        if to_ms < from_ms {
            return Err(
                Error::Invalid(
                    String::from_str("System time error: second time provided was later than self"),
                ),
            );
        }
        let millis: u64 = ((to_ms as i128) - (from_ms as i128)) as u64;
        let ghost op = operator_view(operator);
        let query = pv_query(pv, millis, operator);
        let from = match format_date_for_archiver(from_ms) {
            Some(d) => d,
            None => return Err(Error::Invalid(String::from_str("Invalid start time"))),
        };
        let to = match format_date_for_archiver(to_ms) {
            Some(d) => d,
            None => return Err(Error::Invalid(String::from_str("Invalid end time"))),
        };
        let ghost q = query@;
        let params = vec![
            (String::from_str("pv"), query),
            (String::from_str("from"), from),
            (String::from_str("to"), to),
        ];
        assert(pair_views(params@) =~= json_query(q, archiver_date(from_ms as int)->0, archiver_date(to_ms as int)->0));
        assert(q == spec_pv_query(pv@, (to_ms - from_ms) as u64, op));
        build_url(self.base_url.as_str(), "getData.json", &params)
    }
}

/// A URL set with `set_archiver_url` is where every client made from the
/// setting afterwards sends its requests: its base is the URL, and each of
/// its requests is planned under it.
pub proof fn law_set_url_reaches_new_clients(
    setting: ArchiverUrlSetting,
    url: String,
    client: ArchiverClient,
    pv: Seq<char>,
    from_ms: i64,
    to_ms: i64,
    operator: Option<Seq<char>>,
    r: Result<String, Error>,
)
    requires
        setting.url == url,
        client.base() == setting.url@,
        json_request_outcome(client.base(), pv, from_ms, to_ms, operator, r),
    ensures
        client.base() == url@,
        json_request_outcome(url@, pv, from_ms, to_ms, operator, r),
{
}

} // verus!
