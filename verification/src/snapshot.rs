//! The link to the snapshot that the latest workflow run built.

use crate::github::checks::{last_run_id, run_of, Runs};
use crate::github::WORKFLOW_ID;
use crate::text::{decimal, push_decimal};
use vstd::prelude::*;

verus! {

/// What stands in an artifact's address before the number of the run.
pub const ARTIFACT_HOME: &'static str =
    "https://nightly.link/bs-community/blessing-skin-server/actions/runs/";

/// What stands in an artifact's address after the number of the run.
pub const ARTIFACT_FILE: &'static str = "/artifact.zip";

/// The words of the link.
pub const DOWNLOAD: &'static str = "快照下载";

/// The address of the artifact of the run `run_id`.
pub open spec fn artifact_address(run_id: u64) -> Seq<char> {
    ARTIFACT_HOME@ + decimal(run_id as nat) + ARTIFACT_FILE@
}

/// The link to the artifact of the run `run_id`, as the channel's HTML.
pub open spec fn download_anchor(run_id: u64) -> Seq<char> {
    "<a href=\""@ + artifact_address(run_id) + "\">"@ + DOWNLOAD@ + "</a>"@
}

/// What is said where the host lists no run of the workflow.
pub const NO_RUN: &'static str = "No run of the workflow is listed.";

/// The link to the snapshot of the latest run; where there is no such run,
/// the words that say so.
pub open spec fn snapshot_anchor(runs: Runs) -> Result<Seq<char>, Seq<char>> {
    match run_of(WORKFLOW_ID, runs) {
        Some(run_id) => Ok(download_anchor(run_id)),
        None => Err(NO_RUN@),
    }
}

/// Builds the address of the artifact of the run `run_id`.
pub fn artifact_link(run_id: u64) -> (url: String)
    ensures
        url@ == artifact_address(run_id),
{
    let mut url = String::from_str(ARTIFACT_HOME);
    push_decimal(&mut url, run_id);
    url.append(ARTIFACT_FILE);
    url
}

/// Writes the link to the artifact of the run `run_id`.
pub fn download_link(run_id: u64) -> (anchor: String)
    ensures
        anchor@ == download_anchor(run_id),
{
    let url = artifact_link(run_id);
    let mut anchor = String::from_str("<a href=\"");
    anchor.append(url.as_str());
    anchor.append("\">");
    anchor.append(DOWNLOAD);
    anchor.append("</a>");
    anchor
}

/// Writes the link to the snapshot of the latest run of the workflow; fails
/// where the host lists no such run.
pub fn snapshot_link(runs: &Runs) -> (anchor: Result<String, String>)
    ensures
        match anchor {
            Ok(link) => snapshot_anchor(*runs) == Ok::<Seq<char>, Seq<char>>(link@),
            Err(complaint) => snapshot_anchor(*runs) == Err::<Seq<char>, Seq<char>>(complaint@),
        },
{
    match last_run_id(WORKFLOW_ID, runs) {
        Some(run_id) => Ok(download_link(run_id)),
        None => Err(String::from_str(NO_RUN)),
    }
}

} // verus!
