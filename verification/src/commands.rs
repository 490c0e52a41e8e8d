//! The checks and messages of the viewer's commands. The commands themselves
//! run in the application, around the network calls.

use vstd::prelude::*;

use crate::text::concat2;
use crate::types::{DataFormat, Error, ProcessingMode};

verus! {

broadcast use vstd::string::group_string_axioms;

/// Parameters of a data fetch as the front end sends them; instants are
/// seconds since the epoch.
#[derive(Debug, Clone)]
pub struct FetchDataParams {
    pub pvs: Vec<String>,
    pub from: i64,
    pub to: i64,
    pub mode: Option<ProcessingMode>,
    pub format: Option<DataFormat>,
}

/// A fetch needs at least one PV and an end after its start.
pub fn check_fetch_params(params: &FetchDataParams) -> (r: Result<(), String>)
    ensures
        params.pvs@.len() == 0 ==> (r matches Err(m) && m@ == "No PVs provided"@),
        params.pvs@.len() > 0 && params.to <= params.from ==> (r matches Err(m) && m@
            == "End time must be after start time"@),
        params.pvs@.len() > 0 && params.to > params.from ==> r is Ok,
{
    if params.pvs.len() == 0 {
        return Err(String::from_str("No PVs provided"));
    }
    if params.to <= params.from {
        return Err(String::from_str("End time must be after start time"));
    }
    Ok(())
}

/// The message a failed data fetch shows.
pub fn fetch_error_message(e: Error) -> (r: String)
    ensures
        r@ == match e {
            Error::Network(m) => "Network error: "@ + m@,
            Error::Decode(m) => "Data decode error: "@ + m@,
            Error::Invalid(m) => "Invalid request: "@ + m@,
        },
{
    match e {
        Error::Network(m) => concat2("Network error: ", m.as_str()),
        Error::Decode(m) => concat2("Data decode error: ", m.as_str()),
        Error::Invalid(m) => concat2("Invalid request: ", m.as_str()),
    }
}

/// The message a failed metadata request shows.
pub fn metadata_error_message(e: Error) -> (r: String)
    ensures
        r@ == match e {
            Error::Network(m) => "Network error: "@ + m@,
            Error::Decode(m) => "Metadata decode error: "@ + m@,
            Error::Invalid(m) => "Invalid metadata: "@ + m@,
        },
{
    match e {
        Error::Network(m) => concat2("Network error: ", m.as_str()),
        Error::Decode(m) => concat2("Metadata decode error: ", m.as_str()),
        Error::Invalid(m) => concat2("Invalid metadata: ", m.as_str()),
    }
}

/// A metadata request needs a PV name.
pub fn check_pv_argument(pv: &str) -> (r: Result<(), String>)
    ensures
        pv@.len() == 0 ==> (r matches Err(m) && m@ == "PV name cannot be empty"@),
        pv@.len() > 0 ==> r is Ok,
{
    if pv.is_empty() {
        Err(String::from_str("PV name cannot be empty"))
    } else {
        Ok(())
    }
}

/// The time range a connection test asks for: the five minutes up to `now`
/// (seconds).
pub fn connection_test_range(now: i64) -> (r: (i64, i64))
    requires
        now >= i64::MIN + 300,
    ensures
        r.0 == now - 300,
        r.1 == now,
{
    (now - 300, now)
}

} // verus!
