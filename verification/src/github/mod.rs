//! What the repository host reports, as plain data, and the decisions made
//! on it.

pub mod checks;
pub mod compare;

pub use checks::{last_checked_commit, last_run_id};

use vstd::prelude::*;

verus! {

/// The root of the repository's API.
pub const BASE_URL: &'static str = "https://api.github.com/repos/bs-community/blessing-skin-server";

/// The workflow whose runs produce the downloadable snapshot.
pub const WORKFLOW_ID: u16 = 6505;

/// One commit of a comparison.
#[derive(Debug)]
pub struct Commit {
    pub sha: String,
    pub commit: CommitDetail,
}

/// The part of a commit that carries its message.
#[derive(Debug)]
pub struct CommitDetail {
    pub message: String,
}

} // verus!
