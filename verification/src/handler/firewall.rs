//! The firewall switch.

use vstd::prelude::*;

use crate::db::queries::firewall::DesiredState;

verus! {

/// The opposite of a desired state.
pub open spec fn toggled_state(d: DesiredState) -> DesiredState {
    match d {
        DesiredState::Enabled => DesiredState::Disabled,
        DesiredState::Disabled => DesiredState::Enabled,
    }
}

/// What a toggle asks for: the opposite of the current desired state.
pub fn toggled(current: DesiredState) -> (d: DesiredState)
    ensures
        d == toggled_state(current),
        d != current,
{
    match current {
        DesiredState::Enabled => DesiredState::Disabled,
        DesiredState::Disabled => DesiredState::Enabled,
    }
}

/// Toggling twice asks for the state first asked for.
pub proof fn law_toggle_twice_is_identity(d: DesiredState)
    ensures
        toggled_state(toggled_state(d)) == d,
        toggled_state(d) != d,
{
}

} // verus!
