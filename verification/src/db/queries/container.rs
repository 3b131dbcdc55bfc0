//! Rows of the `containers` and `container_revisions` tables.

use vstd::prelude::*;

use super::project::EnvEntry;

verus! {

/// A published port: the host port (if any) forwarded to the container port.
#[derive(Debug, Clone, Copy, PartialEq, Eq, Structural)]
pub struct PortMapping {
    pub host_port: Option<u16>,
    pub container_port: u16,
}

/// What a revision of a container runs.
#[derive(Debug)]
pub enum ContainerSpec {
    DockerImage { image: String, port: Option<PortMapping>, env: Vec<EnvEntry> },
}

/// The state a container is asked to reach.
#[derive(Debug, Clone, Copy, PartialEq, Eq, Structural)]
pub enum DesiredState {
    Running,
    Stopped,
    Removed,
}

/// The state a container was last seen in.
#[derive(Debug, Clone, Copy, PartialEq, Eq, Structural)]
pub enum ContainerStatus {
    Pending,
    Creating,
    Running,
    Failed,
    Stopping,
    Stopped,
    Removing,
    Removed,
    CuttingOver,
}

/// A container record.
#[derive(Debug)]
pub struct Container {
    pub id: String,
    pub project_id: String,
    pub name: String,
    pub docker_container_id: Option<String>,
    pub pending_docker_container_id: Option<String>,
    pub desired_state: DesiredState,
    pub status: ContainerStatus,
    pub current_revision: i64,
}

/// One stored revision of a container's spec.
#[derive(Debug)]
pub struct Revision {
    pub revision: i64,
    pub spec_json: String,
    pub created_at: i64,
}

/// One entry of the status log: the container moved from `from` to `to`.
#[derive(Debug)]
pub struct StatusTransition {
    pub container_id: String,
    pub from: ContainerStatus,
    pub to: ContainerStatus,
    pub reason: Option<String>,
}

/// The latest revision of a container, given the largest revision number
/// stored for it: 0 when it has none.
pub fn latest_revision_of(max_revision: Option<i64>) -> (r: i64)
    ensures
        r == match max_revision {
            Some(m) => m,
            None => 0,
        },
{
    match max_revision {
        Some(m) => m,
        None => 0,
    }
}

/// The log entry written when `container` moves to `to`.
pub fn transition_record(container: &Container, to: ContainerStatus, reason: Option<String>) -> (t:
    StatusTransition)
    ensures
        t.container_id@ == container.id@,
        t.from == container.status,
        t.to == to,
        t.reason == reason,
{
    StatusTransition { container_id: container.id.clone(), from: container.status, to, reason }
}

} // verus!
