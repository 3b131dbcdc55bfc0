//! The ports in use on the host.

use vstd::prelude::*;

use crate::constant::{PROXY_ADMIN_PORT, PROXY_HTTP_PORT, PROXY_HTTPS_PORT, REGISTRY_PORT, SSH_PORT};

verus! {

/// Whether a port is held by the server itself or by a project.
#[derive(Debug, Clone, Copy, PartialEq, Eq, Structural)]
pub enum PortKind {
    Reserved,
    Project,
}

/// A port in use, and what uses it.
#[derive(Debug)]
pub struct UsedPort {
    pub port: u16,
    pub name: String,
    pub kind: PortKind,
}

/// A host port published by a project, as stored.
#[derive(Debug)]
pub struct UsedProjectPort {
    pub port: i64,
    pub name: String,
}

/// A port held by the server itself.
pub fn reserved(port: u16, name: &str) -> (u: UsedPort)
    ensures
        u.port == port,
        u.name@ == name@,
        u.kind == PortKind::Reserved,
{
    UsedPort { port, name: String::from_str(name), kind: PortKind::Reserved }
}

/// A port in use, as plain values.
pub open spec fn used_view(u: UsedPort) -> (u16, Seq<char>, PortKind) {
    (u.port, u.name@, u.kind)
}

/// The ports held by the server itself, in order.
pub open spec fn reserved_ports(api_port: u16) -> Seq<(u16, Seq<char>, PortKind)> {
    seq![
        (SSH_PORT, "ssh"@, PortKind::Reserved),
        (PROXY_HTTP_PORT, "proxy (http)"@, PortKind::Reserved),
        (PROXY_HTTPS_PORT, "proxy (https)"@, PortKind::Reserved),
        (PROXY_ADMIN_PORT, "proxy (admin)"@, PortKind::Reserved),
        (REGISTRY_PORT, "registry"@, PortKind::Reserved),
        (api_port, "vulpecula"@, PortKind::Reserved),
    ]
}

/// The ports published by projects, as 16-bit ports, in order.
pub open spec fn project_ports_view(ps: Seq<UsedProjectPort>) -> Seq<(u16, Seq<char>, PortKind)> {
    ps.map_values(|p: UsedProjectPort| (p.port as u16, p.name@, PortKind::Project))
}

/// The ports in use: the server's own, then the projects'.
pub fn used_ports(api_port: u16, projects: Vec<UsedProjectPort>) -> (r: Vec<UsedPort>)
    ensures
        r@.map_values(|u: UsedPort| used_view(u)) == reserved_ports(api_port) + project_ports_view(
            projects@,
        ),
{
    let mut ports: Vec<UsedPort> = Vec::new();
    ports.push(reserved(SSH_PORT, "ssh"));
    ports.push(reserved(PROXY_HTTP_PORT, "proxy (http)"));
    ports.push(reserved(PROXY_HTTPS_PORT, "proxy (https)"));
    ports.push(reserved(PROXY_ADMIN_PORT, "proxy (admin)"));
    ports.push(reserved(REGISTRY_PORT, "registry"));
    ports.push(reserved(api_port, "vulpecula"));
    assert(ports@.map_values(|u: UsedPort| used_view(u)) =~= reserved_ports(api_port));
    let mut i: usize = 0;
    while i < projects.len()
        invariant
            i <= projects.len(),
            ports@.map_values(|u: UsedPort| used_view(u)) == reserved_ports(api_port)
                + project_ports_view(projects@.take(i as int)),
        decreases projects.len() - i,
    {
        let p = &projects[i];
        let ghost before = ports@.map_values(|u: UsedPort| used_view(u));
        let name = p.name.clone();
        let port: u16 = #[verifier::truncate] (p.port as u16);
        assert(name@ == projects@[i as int].name@);
        ports.push(UsedPort { port, name, kind: PortKind::Project });
        assert(ports@.map_values(|u: UsedPort| used_view(u)) =~= before.push(
            (projects@[i as int].port as u16, projects@[i as int].name@, PortKind::Project),
        ));
        assert(project_ports_view(projects@.take(i + 1)) =~= project_ports_view(
            projects@.take(i as int),
        ).push((projects@[i as int].port as u16, projects@[i as int].name@, PortKind::Project)));
        assert(ports@.map_values(|u: UsedPort| used_view(u)) =~= reserved_ports(api_port)
            + project_ports_view(projects@.take(i + 1)));
        i = i + 1;
    }
    assert(projects@.take(projects.len() as int) =~= projects@);
    ports
}

} // verus!
