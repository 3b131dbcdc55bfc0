//! Containers as answered.

use vstd::prelude::*;

use crate::db::queries::container::{Container, ContainerStatus, DesiredState};
use crate::text::{clone_opt, concat3, opt_view};
use crate::utils::api_response::{ApiError, ApiErrorKind};

verus! {

/// A container as answered: the record without its pending Docker container.
#[derive(Debug)]
pub struct ContainerResponse {
    pub id: String,
    pub project_id: String,
    pub name: String,
    pub docker_container_id: Option<String>,
    pub desired_state: DesiredState,
    pub status: ContainerStatus,
    pub current_revision: i64,
}

impl ContainerResponse {
    /// The answer for container `c`.
    pub fn from_container(c: Container) -> (r: ContainerResponse)
        ensures
            r.id == c.id,
            r.project_id == c.project_id,
            r.name == c.name,
            r.docker_container_id == c.docker_container_id,
            r.desired_state == c.desired_state,
            r.status == c.status,
            r.current_revision == c.current_revision,
    {
        ContainerResponse {
            id: c.id,
            project_id: c.project_id,
            name: c.name,
            docker_container_id: c.docker_container_id,
            desired_state: c.desired_state,
            status: c.status,
            current_revision: c.current_revision,
        }
    }
}

/// The logs of a container.
#[derive(Debug)]
pub struct ContainerLogsResponse {
    pub logs: String,
}

/// How many of the last log lines a request asks for.
#[derive(Debug)]
pub struct LogsQuery {
    pub tail: Option<i64>,
}

/// The number of log lines shown: what the request asks for, else 200.
pub fn log_tail(q: &LogsQuery) -> (n: i64)
    ensures
        n == match q.tail {
            Some(t) => t,
            None => 200,
        },
{
    match q.tail {
        Some(t) => t,
        None => 200,
    }
}

/// The message when no container has that identifier.
pub fn container_not_found(id: &str) -> (e: ApiError)
    ensures
        e.spec_view() == (ApiErrorKind::NotFound, "container "@ + id@ + " not found"@),
{
    ApiError::not_found(concat3("container ", id, " not found"))
}

} // verus!
