//! What the viewer's commands make of the archiver's answers: the series
//! of several PVs, the validity and status of PVs from their metadata, the
//! outcome of a connection test and the export formats offered. The
//! requests themselves are made by the application.

use vstd::prelude::*;

use crate::archiver::api::joined;
use crate::archiver::types::{DataFormat, Meta, NormalizedPVData, PVStatus};
use crate::text::{concat2, push_str};

verus! {

broadcast use vstd::string::group_string_axioms;

/// The answer for `pv` among the answers given, the last one where it was
/// answered more than once, as a map collected from them holds it.
pub open spec fn answer_for(answers: Seq<(String, Result<Meta, String>)>, pv: Seq<char>) -> Option<Result<Meta, String>>
    decreases answers.len(),
{
    if answers.len() == 0 {
        None
    } else if answers.last().0@ == pv {
        Some(answers.last().1)
    } else {
        answer_for(answers.drop_last(), pv)
    }
}

/// The answer for `pv`, if there is one.
fn find_answer(answers: &Vec<(String, Result<Meta, String>)>, pv: &String) -> (r: Option<usize>)
    ensures
        match r {
            Some(i) => i < answers@.len() && answer_for(answers@, pv@) == Some(answers@[i as int].1),
            None => answer_for(answers@, pv@) is None,
        },
{
    let mut i: usize = answers.len();
    assert(answers@.take(i as int) =~= answers@);
    while i > 0
        invariant
            i <= answers@.len(),
            answer_for(answers@, pv@) == answer_for(answers@.take(i as int), pv@),
        decreases i,
    {
        let ghost t = answers@.take(i as int);
        proof {
            assert(t.drop_last() =~= answers@.take(i - 1));
            assert(t.last() == answers@[i - 1]);
        }
        if answers[i - 1].0.eq(pv) {
            return Some(i - 1);
        }
        i = i - 1;
    }
    None
}

/// Whether each PV has metadata: its answer arrived and is not an error.
pub fn validate_pvs_from(pvs: &Vec<String>, answers: &Vec<(String, Result<Meta, String>)>) -> (r: Vec<bool>)
    ensures
        r@.len() == pvs@.len(),
        forall|i: int|
            0 <= i < pvs@.len() ==> #[trigger] r@[i] == (answer_for(answers@, pvs@[i]@) matches Some(
                Ok(_),
            )),
{
    let mut r: Vec<bool> = Vec::new();
    let mut i: usize = 0;
    while i < pvs.len()
        invariant
            i <= pvs@.len(),
            r@.len() == i,
            forall|j: int|
                0 <= j < i ==> #[trigger] r@[j] == (answer_for(answers@, pvs@[j]@) matches Some(
                    Ok(_),
                )),
        decreases pvs@.len() - i,
    {
        let valid = match find_answer(answers, &pvs[i]) {
            Some(k) => answers[k].1.is_ok(),
            None => false,
        };
        r.push(valid);
        i = i + 1;
    }
    r
}

/// The status of a PV from its metadata answer (none counting as the error
/// `No metadata`): connected and archived when the metadata arrived, else
/// with the error text as last status; no event, no error count.
pub open spec fn status_from(pv: Seq<char>, answer: Option<Result<Meta, String>>, s: PVStatus) -> bool {
    let ok = answer matches Some(Ok(_));
    &&& s.name@ == pv
    &&& s.connected == ok
    &&& s.archived == ok
    &&& s.last_event_time is None
    &&& s.error_count == 0
    &&& s.last_error is None
    &&& match answer {
        Some(Ok(_)) => s.last_status is None,
        Some(Err(e)) => s.last_status matches Some(t) && t@ == e@,
        None => s.last_status matches Some(t) && t@ == "No metadata"@,
    }
}

/// The status of each PV from the metadata answers.
pub fn pv_statuses_from(pvs: &Vec<String>, answers: &Vec<(String, Result<Meta, String>)>) -> (r: Vec<PVStatus>)
    ensures
        r@.len() == pvs@.len(),
        forall|i: int| 0 <= i < pvs@.len() ==> status_from(pvs@[i]@, answer_for(answers@, pvs@[i]@), #[trigger] r@[i]),
{
    let mut r: Vec<PVStatus> = Vec::new();
    let mut i: usize = 0;
    while i < pvs.len()
        invariant
            i <= pvs@.len(),
            r@.len() == i,
            forall|j: int| 0 <= j < i ==> status_from(pvs@[j]@, answer_for(answers@, pvs@[j]@), #[trigger] r@[j]),
        decreases pvs@.len() - i,
    {
        let (ok, last_status) = match find_answer(answers, &pvs[i]) {
            Some(k) => match &answers[k].1 {
                Ok(_) => (true, None),
                Err(e) => (false, Some(e.clone())),
            },
            None => (false, Some(String::from_str("No metadata"))),
        };
        r.push(
            PVStatus {
                name: pvs[i].clone(),
                connected: ok,
                last_event_time: None,
                last_status,
                archived: ok,
                error_count: 0,
                last_error: None,
            },
        );
        i = i + 1;
    }
    r
}

/// The outcome of a connection test from the answer for the test PV: the
/// connection works exactly when the metadata arrived.
pub fn connection_status(answer: &Result<Meta, String>) -> (r: Result<bool, String>)
    ensures
        r == Ok::<bool, String>(answer is Ok),
{
    Ok(answer.is_ok())
}

/// The series that arrived, in order.
pub open spec fn fetched<T>(s: Seq<(String, Result<T, String>)>) -> Seq<T>
    decreases s.len(),
{
    if s.len() == 0 {
        Seq::empty()
    } else {
        let rest = fetched(s.drop_last());
        match s.last().1 {
            Ok(v) => rest.push(v),
            Err(_) => rest,
        }
    }
}

/// The message of each failure, `Error fetching PV: error`, in order.
pub open spec fn fetch_failures<T>(s: Seq<(String, Result<T, String>)>) -> Seq<Seq<char>>
    decreases s.len(),
{
    if s.len() == 0 {
        Seq::empty()
    } else {
        let rest = fetch_failures(s.drop_last());
        match s.last().1 {
            Ok(_) => rest,
            Err(e) => rest.push("Error fetching "@ + s.last().0@ + ": "@ + e@),
        }
    }
}

/// The outcome of fetching several PVs: the series that arrived, in order,
/// whenever one did; else the failures joined by `, `.
pub fn collect_fetch_results(outcomes: Vec<(String, Result<NormalizedPVData, String>)>) -> (r: Result<Vec<NormalizedPVData>, String>)
    ensures
        fetched(outcomes@).len() > 0 ==> (r matches Ok(v) && v@ == fetched(outcomes@)),
        fetched(outcomes@).len() == 0 ==> (r matches Err(e) && e@ == joined(fetch_failures(outcomes@), ", "@)),
{
    let ghost all = outcomes@;
    assert(all.len() == outcomes.len());
    let mut outcomes = outcomes;
    let mut results: Vec<NormalizedPVData> = Vec::new();
    let mut message = String::new();
    let mut n_errs: usize = 0;
    let mut i: usize = 0;
    proof {
        assert(all.take(0) =~= Seq::<(String, Result<NormalizedPVData, String>)>::empty());
    }
    while outcomes.len() > 0
        invariant
            i <= all.len(),
            all.len() <= usize::MAX,
            outcomes@ == all.skip(i as int),
            n_errs <= i,
            results@ == fetched(all.take(i as int)),
            message@ == joined(fetch_failures(all.take(i as int)), ", "@),
            n_errs == fetch_failures(all.take(i as int)).len(),
        decreases outcomes@.len(),
    {
        let (pv, outcome) = outcomes.remove(0);
        proof {
            assert(all.take(i + 1).drop_last() =~= all.take(i as int));
            assert(all.take(i + 1).last() == all[i as int]);
        }
        match outcome {
            Ok(data) => {
                results.push(data);
            },
            Err(e) => {
                if n_errs > 0 {
                    push_str(&mut message, ", ");
                }
                let mut line = concat2("Error fetching ", pv.as_str());
                push_str(&mut line, ": ");
                push_str(&mut line, e.as_str());
                push_str(&mut message, line.as_str());
                n_errs = n_errs + 1;
                proof {
                    let f = fetch_failures(all.take(i + 1));
                    assert(f.drop_last() =~= fetch_failures(all.take(i as int)));
                    if f.len() == 1 {
                        assert(message@ =~= f[0]);
                    }
                }
            },
        }
        proof {
            assert(all.skip(i + 1) =~= all.skip(i as int).drop_first());
        }
        i = i + 1;
    }
    proof {
        assert(all.take(i as int) =~= all);
    }
    if results.len() > 0 {
        Ok(results)
    } else {
        Err(message)
    }
}

/// The export formats offered: CSV, MATLAB, text and SVG; any other is
/// refused as unsupported.
pub fn check_export_format(format: DataFormat) -> (r: Result<DataFormat, String>)
    ensures
        (format is Csv || format is Matlab || format is Text || format is Svg) ==> r == Ok::<
            DataFormat,
            String,
        >(format),
        !(format is Csv || format is Matlab || format is Text || format is Svg) ==> (r matches Err(
            e,
        ) && e@ == "Unsupported export format"@),
{
    match format {
        DataFormat::Csv | DataFormat::Matlab | DataFormat::Text | DataFormat::Svg => Ok(format),
        _ => Err(String::from_str("Unsupported export format")),
    }
}

} // verus!
