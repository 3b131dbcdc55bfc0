//! The proxy reconciler: the steps of a pass, the routes the proxy serves,
//! where each route sends its requests, and the DNS credential it uses.

use vstd::prelude::*;

use crate::db::queries::container::Container;
use crate::db::queries::project::Project;
use crate::db::queries::proxy::{DesiredState, ProxyStatus};
use crate::db::queries::route::{DesiredState as RouteDesiredState, Route, RouteStatus};
use crate::text::{chars_equal, chars_of, concat2, concat3, i64_to_decimal, opt_view, signed_decimal};

verus! {

/// One step of a proxy pass.
#[derive(Debug, Clone, Copy, PartialEq, Eq, Structural)]
pub enum ProxyEffect {
    /// Record the proxy's status.
    SetStatus(ProxyStatus),
    /// Stop the proxy container.
    StopContainer,
    /// Create or start the proxy container; on failure the proxy is failed.
    EnsureRunning,
    /// Build the configuration and load it into the proxy; on failure the
    /// proxy is failed.
    LoadConfig,
}

/// The steps of a pass: a running proxy asked to stop is marked stopping
/// and stopped; a stopped proxy asked to run is marked starting and
/// started; a proxy asked to run then gets its configuration.
pub open spec fn proxy_plan_view(desired: DesiredState, is_running: bool) -> Seq<ProxyEffect> {
    match desired {
        DesiredState::Stopped => (if is_running {
            seq![ProxyEffect::SetStatus(ProxyStatus::Stopping), ProxyEffect::StopContainer]
        } else {
            Seq::empty()
        }) + seq![ProxyEffect::SetStatus(ProxyStatus::Stopped)],
        DesiredState::Running => (if is_running {
            Seq::empty()
        } else {
            seq![ProxyEffect::SetStatus(ProxyStatus::Starting), ProxyEffect::EnsureRunning]
        }) + seq![ProxyEffect::LoadConfig, ProxyEffect::SetStatus(ProxyStatus::Running)],
    }
}

/// The steps of a pass, given whether the proxy container runs.
pub fn proxy_plan(desired: DesiredState, is_running: bool) -> (v: Vec<ProxyEffect>)
    ensures
        v@ == proxy_plan_view(desired, is_running),
{
    let mut v: Vec<ProxyEffect> = Vec::new();
    match desired {
        DesiredState::Stopped => {
            if is_running {
                v.push(ProxyEffect::SetStatus(ProxyStatus::Stopping));
                v.push(ProxyEffect::StopContainer);
            }
            v.push(ProxyEffect::SetStatus(ProxyStatus::Stopped));
        },
        DesiredState::Running => {
            if !is_running {
                v.push(ProxyEffect::SetStatus(ProxyStatus::Starting));
                v.push(ProxyEffect::EnsureRunning);
            }
            v.push(ProxyEffect::LoadConfig);
            v.push(ProxyEffect::SetStatus(ProxyStatus::Running));
        },
    }
    assert(v@ =~= proxy_plan_view(desired, is_running));
    v
}

/// The status recorded when a step fails, if any: starting the container
/// and loading the configuration mark the proxy failed.
pub open spec fn failure_status_for(e: ProxyEffect) -> Option<ProxyStatus> {
    match e {
        ProxyEffect::EnsureRunning | ProxyEffect::LoadConfig => Some(ProxyStatus::Failed),
        _ => None,
    }
}

/// The status recorded when step `e` fails, if any.
pub fn failure_status(e: ProxyEffect) -> (s: Option<ProxyStatus>)
    ensures
        s == failure_status_for(e),
{
    match e {
        ProxyEffect::EnsureRunning | ProxyEffect::LoadConfig => Some(ProxyStatus::Failed),
        _ => None,
    }
}

/// A pass that completes records the status asked for, last.
pub proof fn law_proxy_pass_ends_in_desired_state(desired: DesiredState, is_running: bool)
    ensures
        proxy_plan_view(desired, is_running).last() == ProxyEffect::SetStatus(
            match desired {
                DesiredState::Stopped => ProxyStatus::Stopped,
                DesiredState::Running => ProxyStatus::Running,
            },
        ),
        desired == DesiredState::Running ==> proxy_plan_view(desired, is_running).contains(
            ProxyEffect::LoadConfig,
        ),
{
    let p = proxy_plan_view(desired, is_running);
    if desired == DesiredState::Running {
        assert(p[p.len() - 2] == ProxyEffect::LoadConfig);
    }
}

/// The indices of the routes to serve (active) and to delete (removed), in
/// order.
pub open spec fn route_indices(rs: Seq<Route>, d: RouteDesiredState) -> Seq<usize>
    decreases rs.len(),
{
    if rs.len() == 0 {
        Seq::empty()
    } else {
        let rest = route_indices(rs.drop_last(), d);
        if rs.last().desired_state == d {
            rest.push((rs.len() - 1) as usize)
        } else {
            rest
        }
    }
}

/// The indices of the routes asked to be in state `d`, in order.
pub fn routes_in_state(routes: &Vec<Route>, d: RouteDesiredState) -> (r: Vec<usize>)
    ensures
        r@ == route_indices(routes@, d),
{
    let mut r: Vec<usize> = Vec::new();
    let mut i: usize = 0;
    while i < routes.len()
        invariant
            i <= routes.len(),
            r@ == route_indices(routes@.take(i as int), d),
        decreases routes.len() - i,
    {
        assert(routes@.take(i + 1).drop_last() =~= routes@.take(i as int));
        assert(routes@.take(i + 1).last() == routes@[i as int]);
        if routes[i].desired_state == d {
            r.push(i);
        }
        i = i + 1;
    }
    assert(routes@.take(routes.len() as int) =~= routes@);
    r
}

/// Where the proxy sends a route's requests: the container of its project,
/// on the project's container port, once that container runs in Docker.
pub open spec fn upstream_for(project: Option<Project>, container: Option<Container>) -> Option<
    Seq<char>,
> {
    match project {
        None => None,
        Some(p) => match p.container_port {
            None => None,
            Some(cp) => match container {
                None => None,
                Some(c) => if c.docker_container_id is None {
                    None
                } else {
                    Some("vulpecula-"@ + c.id@ + ":"@ + signed_decimal(cp as int))
                },
            },
        },
    }
}

/// The project a reference points to, if any.
pub open spec fn owned_project(project: Option<&Project>) -> Option<Project> {
    match project {
        Some(p) => Some(*p),
        None => None,
    }
}

/// Whether the container of a route's project must be looked up: only
/// when the project exists and has a container port.  Otherwise the route
/// has no upstream, whatever the container (see [`upstream_dial`]).
pub fn needs_container(project: Option<&Project>) -> (b: bool)
    ensures
        b == (match project {
            Some(p) => p.container_port is Some,
            None => false,
        }),
        !b ==> forall|c: Option<Container>| #[trigger] upstream_for(owned_project(project), c) is None,
{
    match project {
        Some(p) => p.container_port.is_some(),
        None => false,
    }
}

/// Where the proxy sends a route's requests, given the route's project and
/// that project's container.  The container is only looked at when the
/// project exists and has a container port.
pub fn upstream_dial(project: Option<&Project>, container: Option<&Container>) -> (r: Option<String>)
    ensures
        opt_view(r) == upstream_for(
            match project {
                Some(p) => Some(*p),
                None => None,
            },
            match container {
                Some(c) => Some(*c),
                None => None,
            },
        ),
{
    match project {
        None => None,
        Some(p) => match p.container_port {
            None => None,
            Some(cp) => match container {
                None => None,
                Some(c) => if c.docker_container_id.is_none() {
                    None
                } else {
                    let mut s = concat3("vulpecula-", c.id.as_str(), ":");
                    let port = i64_to_decimal(cp);
                    s.append(port.as_str());
                    Some(s)
                },
            },
        },
    }
}

/// The status of a route after a pass: synced when it has an upstream,
/// pending when it has none yet, failed when looking it up failed.
pub open spec fn route_status_for(lookup: Result<bool, ()>) -> RouteStatus {
    match lookup {
        Ok(true) => RouteStatus::Synced,
        Ok(false) => RouteStatus::Pending,
        Err(_) => RouteStatus::Failed,
    }
}

/// The status of a route after a pass, given whether its upstream lookup
/// failed or found an upstream.
pub fn route_status(lookup: Result<bool, ()>) -> (s: RouteStatus)
    ensures
        s == route_status_for(lookup),
{
    match lookup {
        Ok(true) => RouteStatus::Synced,
        Ok(false) => RouteStatus::Pending,
        Err(_) => RouteStatus::Failed,
    }
}

/// One route of the proxy configuration: requests for `host` whose path
/// matches `path` go to `dial`.
#[derive(Debug)]
pub struct CaddyRoute {
    pub host: String,
    pub path: String,
    pub dial: String,
}

/// The configured route of `r`: its domain, everything under its prefix.
pub fn caddy_route(r: &Route, dial: String) -> (c: CaddyRoute)
    ensures
        c.host@ == r.domain@,
        c.path@ == r.path_prefix@ + "*"@,
        c.dial == dial,
{
    CaddyRoute { host: r.domain.clone(), path: concat2(r.path_prefix.as_str(), "*"), dial }
}

/// The value of the named credential: the last one of that name wins.
pub open spec fn credential_value(creds: Seq<(String, String)>, name: Seq<char>) -> Option<Seq<char>>
    decreases creds.len(),
{
    if creds.len() == 0 {
        None
    } else if creds.last().0@ == name {
        Some(creds.last().1@)
    } else {
        credential_value(creds.drop_last(), name)
    }
}

/// The API token of the Cloudflare DNS provider, from the resolved
/// credentials, in the order they were resolved.
pub fn cloudflare_api_token(credentials: &Vec<(String, String)>) -> (r: Result<String, String>)
    ensures
        match credential_value(credentials@, "api_token"@) {
            Some(v) => r matches Ok(t) && t@ == v,
            None => r matches Err(m) && m@
                == "cloudflare dns provider requires an api_token credential"@,
        },
{
    let mut i: usize = credentials.len();
    assert(credentials@.take(i as int) =~= credentials@);
    while i > 0
        invariant
            i <= credentials.len(),
            credential_value(credentials@, "api_token"@) == credential_value(
                credentials@.take(i as int),
                "api_token"@,
            ),
        decreases i,
    {
        let ghost prefix = credentials@.take(i as int);
        assert(prefix.drop_last() =~= credentials@.take(i - 1));
        assert(prefix.last() == credentials@[i - 1]);
        let name = chars_of(credentials[i - 1].0.as_str());
        if chars_equal(&name, "api_token") {
            return Ok(credentials[i - 1].1.clone());
        }
        i = i - 1;
    }
    Err(String::from_str("cloudflare dns provider requires an api_token credential"))
}

} // verus!

verus! {

/// The certificate policy of the proxy: certificates are issued through
/// the ACME DNS challenge of `issuer_module`, authenticated by `api_token`.
#[derive(Debug)]
pub struct TlsPolicy {
    pub issuer_module: &'static str,
    pub api_token: String,
}

/// The proxy configuration document: one server named `server_name`
/// listening on `listen`, whose routes hand each request to `route_handler`
/// with the route's upstream, and the certificate policy if any.
#[derive(Debug)]
pub struct CaddyConfig {
    pub server_name: &'static str,
    pub listen: Vec<&'static str>,
    pub route_handler: &'static str,
    pub routes: Vec<CaddyRoute>,
    pub tls: Option<TlsPolicy>,
}

/// The configuration serving `routes`, with certificates from Cloudflare's
/// DNS challenge when `cloudflare_token` is given.
pub fn caddy_config(routes: Vec<CaddyRoute>, cloudflare_token: Option<String>) -> (c: CaddyConfig)
    ensures
        c.server_name@ == "vulpecula"@,
        c.listen@.map_values(|l: &'static str| l@) == seq![":80"@, ":443"@],
        c.route_handler@ == "reverse_proxy"@,
        c.routes@ == routes@,
        match cloudflare_token {
            Some(t) => c.tls matches Some(p) && p.issuer_module@ == "acme.dns.cloudflare"@
                && p.api_token == t,
            None => c.tls is None,
        },
{
    let mut listen: Vec<&'static str> = Vec::new();
    listen.push(":80");
    listen.push(":443");
    assert(listen@.map_values(|l: &'static str| l@) =~= seq![":80"@, ":443"@]);
    let tls = match cloudflare_token {
        Some(t) => Some(TlsPolicy { issuer_module: "acme.dns.cloudflare", api_token: t }),
        None => None,
    };
    CaddyConfig { server_name: "vulpecula", listen, route_handler: "reverse_proxy", routes, tls }
}

} // verus!

verus! {

/// The proxy reaches a route's project inside the Docker network: the
/// upstream is the project's container, by its name, at the project's
/// container port; the host port the project publishes plays no part.
/// Without a container port, a container, or a Docker container there is
/// no upstream.
pub proof fn law_upstream_is_container_port(p: Project, c: Container, host_port: Option<i64>)
    ensures
        p.container_port is Some && c.docker_container_id is Some ==> upstream_for(Some(p), Some(c))
            == Some("vulpecula-"@ + c.id@ + ":"@ + signed_decimal(p.container_port->0 as int)),
        upstream_for(Some(p), Some(c)) == upstream_for(Some(Project { port: host_port, ..p }), Some(c)),
        p.container_port is None ==> upstream_for(Some(p), Some(c)) is None,
        c.docker_container_id is None ==> upstream_for(Some(p), Some(c)) is None,
        upstream_for(Some(p), None) is None,
        upstream_for(None, Some(c)) is None,
{
}

} // verus!

verus! {

/// The DNS token is the value of the last credential named `api_token`:
/// adding one makes it the token, adding a credential of another name
/// leaves the token as it was, and with no credentials there is none.
pub proof fn law_last_api_token_wins(creds: Seq<(String, String)>, c: (String, String))
    ensures
        c.0@ == "api_token"@ ==> credential_value(creds.push(c), "api_token"@) == Some(c.1@),
        c.0@ != "api_token"@ ==> credential_value(creds.push(c), "api_token"@) == credential_value(
            creds,
            "api_token"@,
        ),
        credential_value(Seq::<(String, String)>::empty(), "api_token"@) is None,
{
    assert(creds.push(c).drop_last() =~= creds);
}

/// The routes in a state are exactly the routes whose desired state it is,
/// by their positions, in increasing order (for any list a `Vec` can hold).
pub proof fn law_routes_in_state_exact(rs: Seq<Route>, d: RouteDesiredState)
    requires
        rs.len() <= usize::MAX,
    ensures
        forall|k: int|
            0 <= k < route_indices(rs, d).len() ==> (#[trigger] route_indices(rs, d)[k]) < rs.len()
                && rs[route_indices(rs, d)[k] as int].desired_state == d,
        forall|i: int|
            0 <= i < rs.len() && (#[trigger] rs[i]).desired_state == d ==> route_indices(rs, d).contains(
                i as usize,
            ),
        forall|k: int, l: int|
            0 <= k < l < route_indices(rs, d).len() ==> #[trigger] route_indices(rs, d)[k]
                < #[trigger] route_indices(rs, d)[l],
    decreases rs.len(),
{
    if rs.len() > 0 {
        let rest = rs.drop_last();
        law_routes_in_state_exact(rest, d);
        let ri = route_indices(rest, d);
        let r = route_indices(rs, d);
        assert(r == if rs.last().desired_state == d {
            ri.push((rs.len() - 1) as usize)
        } else {
            ri
        });
        assert forall|i: int| 0 <= i < rs.len() && (#[trigger] rs[i]).desired_state == d implies r.contains(
            i as usize,
        ) by {
            if i < rs.len() - 1 {
                assert(rest[i] == rs[i]);
                let k = choose|k: int| 0 <= k < ri.len() && ri[k] == i as usize;
                assert(r[k] == ri[k]);
            } else {
                assert(r[r.len() - 1] == i as usize);
            }
        }
        assert forall|k: int|
            0 <= k < r.len() implies (#[trigger] r[k]) < rs.len() && rs[r[k] as int].desired_state
            == d by {
            if k < ri.len() {
                assert(r[k] == ri[k]);
                assert(rest[ri[k] as int] == rs[ri[k] as int]);
            }
        }
        assert forall|k: int, l: int| 0 <= k < l < r.len() implies #[trigger] r[k] < #[trigger] r[l] by {
            if l < ri.len() {
                assert(r[k] == ri[k] && r[l] == ri[l]);
            } else {
                assert(r[k] == ri[k]);
            }
        }
    }
}

} // verus!

verus! {

/// A pass stops a running proxy that is asked to stop, starts one that is
/// asked to run and does not, leaves a running one running, marks the
/// proxy failed when starting it or loading its configuration fails, and
/// records each route as synced, pending or failed by what looking up its
/// upstream found.
pub proof fn law_proxy_pass_steps(desired: DesiredState, is_running: bool, e: ProxyEffect)
    ensures
        proxy_plan_view(DesiredState::Stopped, true).contains(ProxyEffect::StopContainer),
        !proxy_plan_view(DesiredState::Stopped, false).contains(ProxyEffect::StopContainer),
        proxy_plan_view(DesiredState::Running, false).contains(ProxyEffect::EnsureRunning),
        !proxy_plan_view(DesiredState::Running, true).contains(ProxyEffect::EnsureRunning),
        !proxy_plan_view(DesiredState::Stopped, is_running).contains(ProxyEffect::LoadConfig),
        failure_status_for(ProxyEffect::EnsureRunning) == Some(ProxyStatus::Failed),
        failure_status_for(ProxyEffect::LoadConfig) == Some(ProxyStatus::Failed),
        route_status_for(Ok(true)) == RouteStatus::Synced,
        route_status_for(Ok(false)) == RouteStatus::Pending,
        route_status_for(Err(())) == RouteStatus::Failed,
{
    let a = proxy_plan_view(DesiredState::Stopped, true);
    assert(a[1] == ProxyEffect::StopContainer);
    let b = proxy_plan_view(DesiredState::Running, false);
    assert(b[1] == ProxyEffect::EnsureRunning);
    let c = proxy_plan_view(DesiredState::Stopped, false);
    assert(c =~= seq![ProxyEffect::SetStatus(ProxyStatus::Stopped)]);
    let d = proxy_plan_view(DesiredState::Running, true);
    assert(d =~= seq![ProxyEffect::LoadConfig, ProxyEffect::SetStatus(ProxyStatus::Running)]);
    let f = proxy_plan_view(DesiredState::Stopped, is_running);
    assert forall|i: int| 0 <= i < f.len() implies f[i] != ProxyEffect::LoadConfig by {}
}

} // verus!
