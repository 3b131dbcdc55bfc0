//! Rows of the `routes` table.

use vstd::prelude::*;

verus! {

/// Whether a route should be served.
#[derive(Debug, Clone, Copy, PartialEq, Eq, Structural)]
pub enum DesiredState {
    Active,
    Removed,
}

/// The state a route was last synced to.
#[derive(Debug, Clone, Copy, PartialEq, Eq, Structural)]
pub enum RouteStatus {
    Pending,
    Synced,
    Failed,
    Removed,
}

/// A route: requests for `domain` under `path_prefix` go to a project.
#[derive(Debug)]
pub struct Route {
    pub id: String,
    pub project_id: String,
    pub domain: String,
    pub path_prefix: String,
    pub desired_state: DesiredState,
    pub status: RouteStatus,
    pub created_at: i64,
    pub updated_at: i64,
}

/// The columns of a route about to be inserted.
#[derive(Debug)]
pub struct NewRoute {
    pub id: String,
    pub project_id: String,
    pub domain: String,
    pub path_prefix: String,
}

} // verus!
