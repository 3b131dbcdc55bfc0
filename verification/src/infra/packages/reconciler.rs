//! The package reconciler and the packages seeded on first start.

use vstd::prelude::*;

use crate::constant::SeedPackage;
use crate::db::queries::package::{DesiredState, PackageStatus};

verus! {

/// The package manager family of the host.
#[derive(Debug, Clone, Copy, PartialEq, Eq, Structural)]
pub enum ManagerFamily {
    Apt,
    Rpm,
}

/// The name a family's package names are stored under.
pub open spec fn family_id(f: ManagerFamily) -> Seq<char> {
    match f {
        ManagerFamily::Apt => "apt"@,
        ManagerFamily::Rpm => "rpm"@,
    }
}

impl ManagerFamily {
    /// The name this family's package names are stored under.
    pub fn id(self) -> (s: &'static str)
        ensures
            s@ == family_id(self),
    {
        match self {
            ManagerFamily::Apt => "apt",
            ManagerFamily::Rpm => "rpm",
        }
    }
}

/// What a pass does with one package.
#[derive(Debug, Clone, Copy, PartialEq, Eq, Structural)]
pub enum PackageAction {
    Install,
    Remove,
    Skip,
}

/// A package is installed when asked for and removed or failed, removed
/// when not asked for and installed or failed, and otherwise left alone.
pub open spec fn package_action_for(desired: DesiredState, status: PackageStatus) -> PackageAction {
    match (desired, status) {
        (DesiredState::Installed, PackageStatus::Removed)
        | (DesiredState::Installed, PackageStatus::Failed) => PackageAction::Install,
        (DesiredState::Removed, PackageStatus::Installed)
        | (DesiredState::Removed, PackageStatus::Failed) => PackageAction::Remove,
        _ => PackageAction::Skip,
    }
}

/// What a pass does with a package in `status` asked to be `desired`.
pub fn package_action(desired: DesiredState, status: PackageStatus) -> (a: PackageAction)
    ensures
        a == package_action_for(desired, status),
{
    match (desired, status) {
        (DesiredState::Installed, PackageStatus::Removed)
        | (DesiredState::Installed, PackageStatus::Failed) => PackageAction::Install,
        (DesiredState::Removed, PackageStatus::Installed)
        | (DesiredState::Removed, PackageStatus::Failed) => PackageAction::Remove,
        _ => PackageAction::Skip,
    }
}

/// The status set while the package manager works.
pub open spec fn working_status_for(a: PackageAction) -> PackageStatus {
    match a {
        PackageAction::Remove => PackageStatus::Removing,
        _ => PackageStatus::Installing,
    }
}

/// The status set once the package manager is done: failed if it failed,
/// else installed or removed.
pub open spec fn done_status_for(a: PackageAction, succeeded: bool) -> PackageStatus {
    if !succeeded {
        PackageStatus::Failed
    } else {
        match a {
            PackageAction::Remove => PackageStatus::Removed,
            _ => PackageStatus::Installed,
        }
    }
}

/// The status set while the package manager carries out `a`.
pub fn working_status(a: PackageAction) -> (s: PackageStatus)
    requires
        a != PackageAction::Skip,
    ensures
        s == working_status_for(a),
{
    match a {
        PackageAction::Remove => PackageStatus::Removing,
        _ => PackageStatus::Installing,
    }
}

/// The status set once the package manager has carried out `a`.
pub fn done_status(a: PackageAction, succeeded: bool) -> (s: PackageStatus)
    requires
        a != PackageAction::Skip,
    ensures
        s == done_status_for(a, succeeded),
{
    if !succeeded {
        PackageStatus::Failed
    } else {
        match a {
            PackageAction::Remove => PackageStatus::Removed,
            _ => PackageStatus::Installed,
        }
    }
}

/// A package that reached its desired state, or is in the middle of a
/// change, is left alone; a pass that succeeds reaches the desired state.
pub proof fn law_package_converges(desired: DesiredState, status: PackageStatus, succeeded: bool)
    ensures
        package_action_for(DesiredState::Installed, PackageStatus::Installed) == PackageAction::Skip,
        package_action_for(DesiredState::Removed, PackageStatus::Removed) == PackageAction::Skip,
        package_action_for(desired, PackageStatus::Installing) == PackageAction::Skip,
        package_action_for(desired, PackageStatus::Removing) == PackageAction::Skip,
        package_action_for(desired, PackageStatus::Pending) == PackageAction::Skip,
        package_action_for(desired, status) != PackageAction::Skip && succeeded ==> done_status_for(
            package_action_for(desired, status),
            succeeded,
        ) == match desired {
            DesiredState::Installed => PackageStatus::Installed,
            DesiredState::Removed => PackageStatus::Removed,
        },
{
}

/// The name of a seeded package under the host's package manager, if it
/// has one there.
pub fn seed_manager_name(pkg: &SeedPackage, family: ManagerFamily) -> (r: Option<&'static str>)
    ensures
        r == match family {
            ManagerFamily::Apt => pkg.apt_name,
            ManagerFamily::Rpm => pkg.rpm_name,
        },
{
    match family {
        ManagerFamily::Apt => pkg.apt_name,
        ManagerFamily::Rpm => pkg.rpm_name,
    }
}

/// The status and desired state a seeded package starts with: installed
/// if the host has it, removed otherwise.
pub fn seed_states(installed: bool) -> (r: (PackageStatus, DesiredState))
    ensures
        installed ==> r == (PackageStatus::Installed, DesiredState::Installed),
        !installed ==> r == (PackageStatus::Removed, DesiredState::Removed),
{
    if installed {
        (PackageStatus::Installed, DesiredState::Installed)
    } else {
        (PackageStatus::Removed, DesiredState::Removed)
    }
}

/// The (manager, name) rows of a seeded package: one per manager it has a
/// name under, apt first.
pub fn seed_name_rows(pkg: &SeedPackage) -> (v: Vec<(&'static str, &'static str)>)
    ensures
        v@ == (match pkg.apt_name {
            Some(n) => seq![("apt", n)],
            None => Seq::empty(),
        }) + (match pkg.rpm_name {
            Some(n) => seq![("rpm", n)],
            None => Seq::empty(),
        }),
{
    let mut v: Vec<(&'static str, &'static str)> = Vec::new();
    if let Some(n) = pkg.apt_name {
        v.push(("apt", n));
    }
    if let Some(n) = pkg.rpm_name {
        v.push(("rpm", n));
    }
    assert(v@ =~= (match pkg.apt_name {
        Some(n) => seq![("apt", n)],
        None => Seq::empty(),
    }) + (match pkg.rpm_name {
        Some(n) => seq![("rpm", n)],
        None => Seq::empty(),
    }));
    v
}

} // verus!

verus! {

/// Every package away from what it is asked for gets a step towards it: one
/// asked to be installed that is removed or failed is installed, one asked
/// to be removed that is installed or failed is removed; the work is marked
/// installing or removing while it runs, and a failure marks it failed.
pub proof fn law_package_makes_progress(status: PackageStatus, a: PackageAction)
    ensures
        status == PackageStatus::Removed || status == PackageStatus::Failed ==> package_action_for(
            DesiredState::Installed,
            status,
        ) == PackageAction::Install,
        status == PackageStatus::Installed || status == PackageStatus::Failed ==> package_action_for(
            DesiredState::Removed,
            status,
        ) == PackageAction::Remove,
        working_status_for(PackageAction::Install) == PackageStatus::Installing,
        working_status_for(PackageAction::Remove) == PackageStatus::Removing,
        done_status_for(a, false) == PackageStatus::Failed,
        done_status_for(PackageAction::Install, true) == PackageStatus::Installed,
        done_status_for(PackageAction::Remove, true) == PackageStatus::Removed,
{
}

} // verus!
