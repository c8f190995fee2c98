//! Job-result presentation logic: the rows a job result expands into, and
//! the job identifier buried in an activity log's detail payload.

use vstd::prelude::*;
use crate::datto::{ActivityLog, ComponentResult, JobResult};

verus! {

/// One selectable row of a job result: a component header, or a link to
/// that component's standard output or standard error. The payload is the
/// component's index.
#[derive(Debug, Clone, Copy, PartialEq, Eq, Structural)]
pub enum JobViewRow {
    ComponentHeader(usize),
    StdOutLink(usize),
    StdErrLink(usize),
}

/// The rows one component contributes: its header, then a link for each
/// output stream it actually produced.
pub open spec fn spec_rows_for(c: ComponentResult, idx: usize) -> Seq<JobViewRow> {
    seq![JobViewRow::ComponentHeader(idx)] + (if c.has_std_out == Some(true) {
        seq![JobViewRow::StdOutLink(idx)]
    } else {
        Seq::empty()
    }) + (if c.has_std_err == Some(true) {
        seq![JobViewRow::StdErrLink(idx)]
    } else {
        Seq::empty()
    })
}

/// The rows a sequence of component results expands into, in order.
pub open spec fn spec_job_rows(comps: Seq<ComponentResult>) -> Seq<JobViewRow>
    decreases comps.len(),
{
    if comps.len() == 0 {
        Seq::empty()
    } else {
        spec_job_rows(comps.drop_last()) + spec_rows_for(
            comps.last(),
            (comps.len() - 1) as usize,
        )
    }
}

/// The rows a whole job result expands into: nothing when it carries no
/// component results.
pub open spec fn spec_rows_of(j: JobResult) -> Seq<JobViewRow> {
    match j.component_results {
        Some(cs) => spec_job_rows(cs@),
        None => Seq::empty(),
    }
}

/// Expands a job result into its selectable rows.
pub fn generate_job_rows(job_result: &JobResult) -> (r: Vec<JobViewRow>)
    ensures
        r@ == spec_rows_of(*job_result),
{
    let mut rows: Vec<JobViewRow> = Vec::new();
    if let Some(components) = &job_result.component_results {
        let n = components.len();
        let mut i: usize = 0;
        while i < n
            invariant
                n == components@.len(),
                i <= n,
                rows@ == spec_job_rows(components@.take(i as int)),
            decreases n - i,
        {
            rows.push(JobViewRow::ComponentHeader(i));
            if components[i].has_std_out == Some(true) {
                rows.push(JobViewRow::StdOutLink(i));
            }
            if components[i].has_std_err == Some(true) {
                rows.push(JobViewRow::StdErrLink(i));
            }
            proof {
                let t = components@.take(i + 1);
                assert(t.drop_last() =~= components@.take(i as int));
                assert(t.last() == components@[i as int]);
                assert(rows@ =~= spec_job_rows(components@.take(i + 1)));
            }
            i = i + 1;
        }
        proof {
            assert(components@.take(n as int) =~= components@);
        }
    }
    rows
}

/// What an activity log's detail payload yields as the job identifier: the
/// string under its "job.uid" key, if the payload parses as JSON and such
/// a string is there.
pub uninterp spec fn job_uid_of(details: Seq<char>) -> Option<Seq<char>>;

/// Relies on serde_json::from_str, serde_json::Value::get and
/// serde_json::Value::as_str: parses the detail payload and reads the
/// string under its "job.uid" key. Parsing is a function of the text alone.
#[verifier::external_body]
pub fn extract_job_uid(details: &str) -> (r: Option<String>)
    ensures
        match (r, job_uid_of(details@)) {
            (Some(s), Some(m)) => s@ == m,
            (None, None) => true,
            _ => false,
        },
{
    match serde_json::from_str::<serde_json::Value>(details) {
        Ok(v) => v.get("job.uid").and_then(|x| x.as_str()).map(|s| s.to_string()),
        Err(_) => None,
    }
}

/// The activity entries belonging to one device, in order.
pub open spec fn spec_device_logs(logs: Seq<ActivityLog>, device_id: i32) -> Seq<ActivityLog>
    decreases logs.len(),
{
    if logs.len() == 0 {
        Seq::empty()
    } else {
        let rest = spec_device_logs(logs.drop_last(), device_id);
        if logs.last().device_id == Some(device_id) {
            rest.push(logs.last())
        } else {
            rest
        }
    }
}

/// Keeps only the activity entries belonging to one device; the fetch
/// layer narrows a site-wide activity page with this before posting its
/// completion.
pub fn retain_device_activities(logs: &Vec<ActivityLog>, device_id: i32) -> (r: Vec<ActivityLog>)
    ensures
        r@ == spec_device_logs(logs@, device_id),
{
    let mut out: Vec<ActivityLog> = Vec::new();
    let n = logs.len();
    let mut i: usize = 0;
    proof {
        assert(logs@.take(0) =~= Seq::<ActivityLog>::empty());
        assert(out@ =~= spec_device_logs(logs@.take(0), device_id));
    }
    while i < n
        invariant
            n == logs@.len(),
            i <= n,
            out@ == spec_device_logs(logs@.take(i as int), device_id),
        decreases n - i,
    {
        let keep = match logs[i].device_id {
            Some(d) => d == device_id,
            None => false,
        };
        if keep {
            out.push(logs[i].clone());
        }
        proof {
            let t = logs@.take(i + 1);
            assert(t.drop_last() =~= logs@.take(i as int));
            assert(t.last() == logs@[i as int]);
        }
        i = i + 1;
    }
    proof {
        assert(logs@.take(n as int) =~= logs@);
    }
    out
}

} // verus!