//! The firewall reconciler: which ports are allowed, and which statuses a
//! pass goes through.

use vstd::prelude::*;

use super::backend::{AllowedPort, Protocol};
use crate::constant::{PROXY_HTTP_PORT, PROXY_HTTPS_PORT, SSH_PORT};
use crate::db::queries::firewall::{DesiredState, FirewallStatus};
use crate::db::queries::project::Project;
use crate::db::queries::proxy::DesiredState as ProxyDesiredState;

verus! {

/// A TCP port.
pub open spec fn tcp(port: u16) -> AllowedPort {
    AllowedPort { port, protocol: Protocol::Tcp }
}

/// The host ports of the projects that publish one, in order, as 16-bit
/// ports.
pub open spec fn project_ports(ps: Seq<Project>) -> Seq<AllowedPort>
    decreases ps.len(),
{
    if ps.len() == 0 {
        Seq::empty()
    } else {
        let rest = project_ports(ps.drop_last());
        match ps.last().port {
            Some(p) => rest.push(tcp(p as u16)),
            None => rest,
        }
    }
}

/// The ports the firewall lets through: SSH, the API, each project's host
/// port, and the proxy's HTTP and HTTPS ports when the proxy is to run.
pub open spec fn allowed_ports(api_port: u16, projects: Seq<Project>, proxy: ProxyDesiredState) -> Seq<
    AllowedPort,
> {
    seq![tcp(SSH_PORT), tcp(api_port)] + project_ports(projects) + if proxy
        == ProxyDesiredState::Running {
        seq![tcp(PROXY_HTTP_PORT), tcp(PROXY_HTTPS_PORT)]
    } else {
        Seq::empty()
    }
}

/// The ports the firewall lets through.
pub fn compute_allowed_ports(api_port: u16, projects: &Vec<Project>, proxy: ProxyDesiredState) -> (r:
    Vec<AllowedPort>)
    ensures
        r@ == allowed_ports(api_port, projects@, proxy),
{
    let mut allowed: Vec<AllowedPort> = Vec::new();
    allowed.push(AllowedPort { port: SSH_PORT, protocol: Protocol::Tcp });
    allowed.push(AllowedPort { port: api_port, protocol: Protocol::Tcp });
    let ghost head = allowed@;
    assert(head =~= seq![tcp(SSH_PORT), tcp(api_port)]);
    let mut i: usize = 0;
    while i < projects.len()
        invariant
            i <= projects.len(),
            allowed@ == head + project_ports(projects@.take(i as int)),
            head == seq![tcp(SSH_PORT), tcp(api_port)],
        decreases projects.len() - i,
    {
        assert(projects@.take(i + 1).drop_last() =~= projects@.take(i as int));
        assert(projects@.take(i + 1).last() == projects@[i as int]);
        match projects[i].port {
            Some(p) => {
                allowed.push(AllowedPort { port: p as u16, protocol: Protocol::Tcp });
            },
            None => {},
        }
        assert(allowed@ =~= head + project_ports(projects@.take(i + 1)));
        i = i + 1;
    }
    assert(projects@.take(projects.len() as int) =~= projects@);
    let ghost middle = allowed@;
    if proxy == ProxyDesiredState::Running {
        allowed.push(AllowedPort { port: PROXY_HTTP_PORT, protocol: Protocol::Tcp });
        allowed.push(AllowedPort { port: PROXY_HTTPS_PORT, protocol: Protocol::Tcp });
    }
    assert(allowed@ =~= allowed_ports(api_port, projects@, proxy));
    allowed
}

/// The status a pass sets before acting.
pub open spec fn pending_status_for(desired: DesiredState) -> FirewallStatus {
    match desired {
        DesiredState::Disabled => FirewallStatus::Disabling,
        DesiredState::Enabled => FirewallStatus::Applying,
    }
}

/// The status a pass ends with: failed if the backend failed, else what
/// was asked for.
pub open spec fn final_status_for(desired: DesiredState, succeeded: bool) -> FirewallStatus {
    if !succeeded {
        FirewallStatus::Failed
    } else {
        match desired {
            DesiredState::Disabled => FirewallStatus::Disabled,
            DesiredState::Enabled => FirewallStatus::Enabled,
        }
    }
}

/// The status a pass sets before acting: disabling or applying.
pub fn pending_status(desired: DesiredState) -> (s: FirewallStatus)
    ensures
        s == pending_status_for(desired),
{
    match desired {
        DesiredState::Disabled => FirewallStatus::Disabling,
        DesiredState::Enabled => FirewallStatus::Applying,
    }
}

/// The status a pass ends with.
pub fn final_status(desired: DesiredState, succeeded: bool) -> (s: FirewallStatus)
    ensures
        s == final_status_for(desired, succeeded),
{
    if !succeeded {
        FirewallStatus::Failed
    } else {
        match desired {
            DesiredState::Disabled => FirewallStatus::Disabled,
            DesiredState::Enabled => FirewallStatus::Enabled,
        }
    }
}

/// SSH and the API are always reachable, and the proxy's ports are when
/// the proxy is to run: the firewall never locks the operator out.
pub proof fn law_firewall_keeps_access(api_port: u16, projects: Seq<Project>, proxy: ProxyDesiredState)
    ensures
        allowed_ports(api_port, projects, proxy).contains(tcp(SSH_PORT)),
        allowed_ports(api_port, projects, proxy).contains(tcp(api_port)),
        proxy == ProxyDesiredState::Running ==> allowed_ports(api_port, projects, proxy).contains(
            tcp(PROXY_HTTP_PORT),
        ) && allowed_ports(api_port, projects, proxy).contains(tcp(PROXY_HTTPS_PORT)),
{
    let a = allowed_ports(api_port, projects, proxy);
    assert(a[0] == tcp(SSH_PORT));
    assert(a[1] == tcp(api_port));
    if proxy == ProxyDesiredState::Running {
        let n = a.len();
        assert(a[n - 2] == tcp(PROXY_HTTP_PORT));
        assert(a[n - 1] == tcp(PROXY_HTTPS_PORT));
    }
}

/// A pass that succeeds leaves the firewall in the state asked for; one
/// that fails leaves it failed.
pub proof fn law_firewall_status_converges(desired: DesiredState, succeeded: bool)
    ensures
        succeeded && desired == DesiredState::Enabled ==> final_status_for(desired, succeeded)
            == FirewallStatus::Enabled,
        succeeded && desired == DesiredState::Disabled ==> final_status_for(desired, succeeded)
            == FirewallStatus::Disabled,
        !succeeded ==> final_status_for(desired, succeeded) == FirewallStatus::Failed,
{
}

} // verus!

verus! {

/// The port a project publishes, as the firewall lets it through.
pub open spec fn published(p: Project) -> Option<AllowedPort> {
    match p.port {
        Some(h) => Some(tcp(h as u16)),
        None => None,
    }
}

proof fn lemma_published_listed(ps: Seq<Project>, i: int) -> (k: int)
    requires
        0 <= i < ps.len(),
        published(ps[i]) is Some,
    ensures
        0 <= k < project_ports(ps).len(),
        Some(project_ports(ps)[k]) == published(ps[i]),
    decreases ps.len(),
{
    let rest = ps.drop_last();
    if i == ps.len() - 1 {
        (project_ports(ps).len() - 1) as int
    } else {
        assert(rest[i] == ps[i]);
        let k = lemma_published_listed(rest, i);
        if ps.last().port is Some {
            assert(project_ports(ps) == project_ports(rest).push(tcp(ps.last().port->0 as u16)));
        }
        k
    }
}

proof fn lemma_listed_published(ps: Seq<Project>, k: int) -> (i: int)
    requires
        0 <= k < project_ports(ps).len(),
    ensures
        0 <= i < ps.len(),
        published(ps[i]) == Some(project_ports(ps)[k]),
    decreases ps.len(),
{
    let rest = ps.drop_last();
    if ps.last().port is Some && k == project_ports(ps).len() - 1 {
        (ps.len() - 1) as int
    } else {
        let i = lemma_listed_published(rest, k);
        assert(rest[i] == ps[i]);
        i
    }
}

/// The firewall lets through exactly SSH, the API, the host port of every
/// project that publishes one (whatever the proxy is asked to do), and the
/// proxy's HTTP and HTTPS ports when the proxy is to run.
pub proof fn law_firewall_allows_exactly(api_port: u16, projects: Seq<Project>, proxy: ProxyDesiredState)
    ensures
        forall|i: int|
            0 <= i < projects.len() && (#[trigger] published(projects[i])) is Some ==> allowed_ports(
                api_port,
                projects,
                proxy,
            ).contains(published(projects[i])->0),
        forall|a: AllowedPort|
            #[trigger] allowed_ports(api_port, projects, proxy).contains(a) ==> a == tcp(SSH_PORT) || a
                == tcp(api_port) || (proxy == ProxyDesiredState::Running && (a == tcp(PROXY_HTTP_PORT)
                || a == tcp(PROXY_HTTPS_PORT))) || exists|i: int|
                0 <= i < projects.len() && #[trigger] published(projects[i]) == Some(a),
{
    let head = seq![tcp(SSH_PORT), tcp(api_port)];
    let pp = project_ports(projects);
    let tail: Seq<AllowedPort> = if proxy == ProxyDesiredState::Running {
        seq![tcp(PROXY_HTTP_PORT), tcp(PROXY_HTTPS_PORT)]
    } else {
        Seq::empty()
    };
    let all = allowed_ports(api_port, projects, proxy);
    assert(all == head + pp + tail);
    assert forall|i: int|
        0 <= i < projects.len() && (#[trigger] published(projects[i])) is Some implies all.contains(
        published(projects[i])->0,
    ) by {
        let k = lemma_published_listed(projects, i);
        assert(all[2 + k] == pp[k]);
    }
    assert forall|a: AllowedPort| #[trigger] all.contains(a) implies a == tcp(SSH_PORT) || a == tcp(
        api_port,
    ) || (proxy == ProxyDesiredState::Running && (a == tcp(PROXY_HTTP_PORT) || a == tcp(
        PROXY_HTTPS_PORT,
    ))) || exists|i: int| 0 <= i < projects.len() && #[trigger] published(projects[i]) == Some(a) by {
        let j = choose|j: int| 0 <= j < all.len() && all[j] == a;
        if 2 <= j < 2 + pp.len() {
            assert(all[j] == pp[j - 2]);
            let i = lemma_listed_published(projects, j - 2);
            assert(published(projects[i]) == Some(a));
        } else if j >= 2 + pp.len() {
            assert(all[j] == tail[j - 2 - pp.len()]);
        }
    }
}

} // verus!

verus! {

/// While a pass works, the firewall is marked applying when it is to be
/// enabled and disabling when it is to be disabled.
pub proof fn law_firewall_pending_status()
    ensures
        pending_status_for(DesiredState::Enabled) == FirewallStatus::Applying,
        pending_status_for(DesiredState::Disabled) == FirewallStatus::Disabling,
{
}

} // verus!
