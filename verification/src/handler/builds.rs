//! Recording the builds of a project.

use vstd::prelude::*;

use crate::db::queries::builds::{BuildStatus, NewBuild};
use crate::text::concat3;
use crate::utils::api_response::{ApiError, ApiErrorKind};
use crate::utils::ids::new_id;

verus! {

/// A request to record a build; the log defaults to empty.
#[derive(Debug)]
pub struct CreateBuildRequest {
    pub status: BuildStatus,
    pub tag: Option<String>,
    pub commit_sha: Option<String>,
    pub error: Option<String>,
    pub log: String,
    pub started_at: i64,
    pub finished_at: i64,
}

/// Whether `b` records `body` for the project `project_id`.
pub open spec fn build_from(b: NewBuild, project_id: Seq<char>, body: CreateBuildRequest) -> bool {
    &&& b.project_id@ == project_id
    &&& b.status == body.status
    &&& b.tag == body.tag
    &&& b.commit_sha == body.commit_sha
    &&& b.error == body.error
    &&& b.log == body.log
    &&& b.started_at == body.started_at
    &&& b.finished_at == body.finished_at
}

/// The row recording `body` for the project `project_id`, under `id`.
pub fn build_row(project_id: &str, body: CreateBuildRequest, id: String) -> (b: NewBuild)
    ensures
        b.id == id,
        build_from(b, project_id@, body),
{
    NewBuild {
        id,
        project_id: String::from_str(project_id),
        status: body.status,
        tag: body.tag,
        commit_sha: body.commit_sha,
        error: body.error,
        log: body.log,
        started_at: body.started_at,
        finished_at: body.finished_at,
    }
}

/// The row recording `body` for the project `project_id`, under a fresh
/// identifier of 36 characters; an internal error when no identifier could
/// be drawn.
pub fn new_build(project_id: &str, body: CreateBuildRequest) -> (r: Result<NewBuild, ApiError>)
    ensures
        match r {
            Ok(b) => b.id@.len() == 36 && build_from(b, project_id@, body),
            Err(e) => e.spec_view() == (ApiErrorKind::Internal, "failed to generate a fresh identifier"@),
        },
{
    match new_id() {
        Some(id) => Ok(build_row(project_id, body, id)),
        None => Err(ApiError::internal(String::from_str("failed to generate a fresh identifier"))),
    }
}

/// The message when a project has no build of that identifier.
pub fn build_not_found(id: &str) -> (e: ApiError)
    ensures
        e.spec_view() == (ApiErrorKind::NotFound, "build "@ + id@ + " not found"@),
{
    ApiError::not_found(concat3("build ", id, " not found"))
}

} // verus!
