//! The single row of the `firewall_settings` table.

use vstd::prelude::*;

verus! {

/// Whether the firewall should be on.
#[derive(Debug, Clone, Copy, PartialEq, Eq, Structural)]
pub enum DesiredState {
    Enabled,
    Disabled,
}

/// The state the firewall was last seen in.
#[derive(Debug, Clone, Copy, PartialEq, Eq, Structural)]
pub enum FirewallStatus {
    Pending,
    Applying,
    Enabled,
    Failed,
    Disabling,
    Disabled,
}

/// The firewall settings.
#[derive(Debug, Clone, Copy, PartialEq, Eq, Structural)]
pub struct FirewallSettings {
    pub desired_state: DesiredState,
    pub status: FirewallStatus,
    pub created_at: i64,
    pub updated_at: i64,
}

} // verus!
