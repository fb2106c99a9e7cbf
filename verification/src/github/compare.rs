//! The comparison of two revisions.

use super::{Commit, BASE_URL};
use vstd::prelude::*;

verus! {

/// One file touched between the two revisions.
#[derive(Debug)]
pub struct File {
    pub filename: String,
}

/// The commits and the files between two revisions.
#[derive(Debug)]
pub struct Compare {
    pub commits: Vec<Commit>,
    pub files: Vec<File>,
}

/// The address that compares `base` with `head`.
pub open spec fn compare_address(base: Seq<char>, head: Seq<char>) -> Seq<char> {
    BASE_URL@ + "/compare/"@ + base + "..."@ + head
}

/// Builds the address that compares `base` with `head`.
pub fn compare_url(base: &str, head: &str) -> (url: String)
    ensures
        url@ == compare_address(base@, head@),
{
    let mut url = String::from_str(BASE_URL);
    url.append("/compare/");
    url.append(base);
    url.append("...");
    url.append(head);
    url
}

} // verus!
