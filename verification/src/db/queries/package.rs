//! Rows of the `vulpecula_packages` table.

use vstd::prelude::*;

verus! {

/// Whether a package should be installed.
#[derive(Debug, Clone, Copy, PartialEq, Eq, Structural)]
pub enum DesiredState {
    Installed,
    Removed,
}

/// The state a package was last seen in.
#[derive(Debug, Clone, Copy, PartialEq, Eq, Structural)]
pub enum PackageStatus {
    Pending,
    Installing,
    Installed,
    Failed,
    Removing,
    Removed,
}

/// A managed package.
#[derive(Debug)]
pub struct Package {
    pub id: String,
    pub name: String,
    pub description: Option<String>,
    pub desired_state: DesiredState,
    pub status: PackageStatus,
    pub created_at: i64,
    pub updated_at: i64,
}

} // verus!
