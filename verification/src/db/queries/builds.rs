//! Rows of the `builds` table: the recorded outcomes of a project's builds.

use vstd::prelude::*;

verus! {

/// How a build ended.
#[derive(Debug, Clone, Copy, PartialEq, Eq, Structural)]
pub enum BuildStatus {
    Success,
    Failed,
}

/// A recorded build; `number` counts the builds of its project from 1.
#[derive(Debug)]
pub struct Build {
    pub id: String,
    pub project_id: String,
    pub number: i64,
    pub status: BuildStatus,
    pub tag: Option<String>,
    pub commit_sha: Option<String>,
    pub error: Option<String>,
    pub log: String,
    pub started_at: i64,
    pub finished_at: i64,
    pub created_at: i64,
}

/// The columns of a build about to be recorded; its number is the next
/// one of its project, given when it is inserted.
#[derive(Debug)]
pub struct NewBuild {
    pub id: String,
    pub project_id: String,
    pub status: BuildStatus,
    pub tag: Option<String>,
    pub commit_sha: Option<String>,
    pub error: Option<String>,
    pub log: String,
    pub started_at: i64,
    pub finished_at: i64,
}

} // verus!
