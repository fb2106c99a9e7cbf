//! Check suites and workflow runs: which commit was checked last, and which
//! run belongs to a workflow.

use super::BASE_URL;
use crate::text::text_of;
use vstd::prelude::*;

verus! {

/// One check suite: the commit that preceded the push it checked.
#[derive(Debug)]
pub struct CheckSuite {
    pub before: String,
}

/// The check suites of a branch, with the count that the host reports.
#[derive(Debug)]
pub struct CheckSuites {
    pub total_count: u32,
    pub check_suites: Vec<CheckSuite>,
}

/// One run of a workflow.
#[derive(Debug)]
pub struct WorkflowRun {
    pub id: u64,
    pub workflow_id: u16,
}

/// The workflow runs of a branch, with the count that the host reports.
#[derive(Debug)]
pub struct Runs {
    pub total_count: u32,
    pub workflow_runs: Vec<WorkflowRun>,
}

/// The address of the check suites of the branch `dev`.
pub open spec fn check_suites_address() -> Seq<char> {
    BASE_URL@ + "/commits/dev/check-suites"@
}

/// Builds the address of the check suites of the branch `dev`.
pub fn check_suites_url() -> (url: String)
    ensures
        url@ == check_suites_address(),
{
    let mut url = String::from_str(BASE_URL);
    url.append("/commits/dev/check-suites");
    url
}

/// The address of the workflow runs of `branch`.
pub open spec fn runs_address(branch: Seq<char>) -> Seq<char> {
    BASE_URL@ + "/actions/runs?branch="@ + branch
}

/// Builds the address of the workflow runs of `branch`.
pub fn runs_url(branch: &str) -> (url: String)
    ensures
        url@ == runs_address(branch@),
{
    let mut url = String::from_str(BASE_URL);
    url.append("/actions/runs?branch=");
    url.append(branch);
    url
}

/// The commit before the last listed check suite; none where the host
/// counts no suite or lists none.
pub open spec fn last_checked(suites: CheckSuites) -> Option<Seq<char>> {
    if suites.total_count == 0 || suites.check_suites@.len() == 0 {
        None
    } else {
        Some(suites.check_suites@.last().before@)
    }
}

/// The last commit that is known to have been checked.
pub fn last_checked_commit(suites: &CheckSuites) -> (sha: Option<String>)
    ensures
        text_of(sha) == last_checked(*suites),
{
    let n = suites.check_suites.len();
    if suites.total_count == 0 || n == 0 {
        None
    } else {
        Some(suites.check_suites[n - 1].before.clone())
    }
}

/// The first of `runs` that belongs to the workflow `id`.
pub open spec fn first_run(runs: Seq<WorkflowRun>, id: u16) -> Option<u64>
    decreases runs.len(),
{
    if runs.len() == 0 {
        None
    } else if runs[0].workflow_id == id {
        Some(runs[0].id)
    } else {
        first_run(runs.drop_first(), id)
    }
}

/// The first listed run of the workflow `id`; none where the host counts no
/// run.
pub open spec fn run_of(id: u16, runs: Runs) -> Option<u64> {
    if runs.total_count == 0 {
        None
    } else {
        first_run(runs.workflow_runs@, id)
    }
}

/// The latest run of the workflow `id`: the first that the host lists.
pub fn last_run_id(id: u16, runs: &Runs) -> (run: Option<u64>)
    ensures
        run == run_of(id, *runs),
{
    if runs.total_count == 0 {
        return None;
    }
    let n = runs.workflow_runs.len();
    let mut i: usize = 0;
    assert(runs.workflow_runs@.skip(0) =~= runs.workflow_runs@);
    while i < n
        invariant
            i <= n == runs.workflow_runs.len(),
            runs.total_count != 0,
            first_run(runs.workflow_runs@, id) == first_run(runs.workflow_runs@.skip(i as int), id),
        decreases n - i,
    {
        if runs.workflow_runs[i].workflow_id == id {
            return Some(runs.workflow_runs[i].id);
        }
        assert(runs.workflow_runs@.skip(i as int).drop_first() =~= runs.workflow_runs@.skip(i + 1));
        i += 1;
    }
    None
}

} // verus!
