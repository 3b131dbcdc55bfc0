//! How the server's containers are created: image, network, published
//! ports, volumes, capabilities, restart policy and environment.

use vstd::prelude::*;

use crate::constant::{
    CONTAINER_NETWORK_NAME, PROXY_ADMIN_PORT, PROXY_CONFIG_VOLUME, PROXY_CONTAINER_NAME,
    PROXY_DATA_VOLUME, PROXY_HTTP_PORT, PROXY_HTTPS_PORT, PROXY_IMAGE, REGISTRY_CONTAINER_NAME,
    REGISTRY_IMAGE, REGISTRY_PORT,
};
use crate::infra::firewall::backend::Protocol;
use crate::text::{chars_equal, chars_of, opt_view};

verus! {

/// A published port: `container_port` over `protocol`, reachable on the
/// host at `host_port`, on `host_ip` only when one is given.
#[derive(Debug, Clone, Copy)]
pub struct PortPublish {
    pub container_port: u16,
    pub protocol: Protocol,
    pub host_ip: Option<&'static str>,
    pub host_port: u16,
}

/// A named volume mounted at `target`.
#[derive(Debug, Clone, Copy)]
pub struct VolumeMount {
    pub source: &'static str,
    pub target: &'static str,
}

/// Everything a container is created with.  Empty lists mean the setting
/// is not given; `restart_always` asks the daemon to restart it always.
#[derive(Debug)]
pub struct ContainerSetup {
    pub name: String,
    pub image: String,
    pub network: &'static str,
    pub ports: Vec<PortPublish>,
    pub mounts: Vec<VolumeMount>,
    pub cap_add: Vec<&'static str>,
    pub restart_always: bool,
    pub env: Option<Vec<String>>,
}

/// A published port as plain values.
pub open spec fn publish_view(p: PortPublish) -> (u16, Protocol, Option<Seq<char>>, u16) {
    (
        p.container_port,
        p.protocol,
        match p.host_ip {
            Some(ip) => Some(ip@),
            None => None,
        },
        p.host_port,
    )
}

/// The published ports as plain values.
pub open spec fn publishes_view(ps: Seq<PortPublish>) -> Seq<(u16, Protocol, Option<Seq<char>>, u16)> {
    ps.map_values(|p: PortPublish| publish_view(p))
}

/// The mounts as (source, target) pairs.
pub open spec fn mounts_view(ms: Seq<VolumeMount>) -> Seq<(Seq<char>, Seq<char>)> {
    ms.map_values(|m: VolumeMount| (m.source@, m.target@))
}

/// The ports the proxy publishes: HTTP, HTTPS over TCP and UDP, and its
/// admin API on the loopback address only.
pub open spec fn proxy_ports() -> Seq<(u16, Protocol, Option<Seq<char>>, u16)> {
    seq![
        (PROXY_HTTP_PORT, Protocol::Tcp, None, PROXY_HTTP_PORT),
        (PROXY_HTTPS_PORT, Protocol::Tcp, None, PROXY_HTTPS_PORT),
        (PROXY_HTTPS_PORT, Protocol::Udp, None, PROXY_HTTPS_PORT),
        (PROXY_ADMIN_PORT, Protocol::Tcp, Some("127.0.0.1"@), PROXY_ADMIN_PORT),
    ]
}

fn publish(port: u16, protocol: Protocol) -> (p: PortPublish)
    ensures
        publish_view(p) == (port, protocol, None::<Seq<char>>, port),
{
    PortPublish { container_port: port, protocol, host_ip: None, host_port: port }
}

/// The registry container: the registry image on the server's network,
/// its port published on the host, always restarted.
pub fn registry_container_setup() -> (s: ContainerSetup)
    ensures
        s.name@ == REGISTRY_CONTAINER_NAME@,
        s.image@ == REGISTRY_IMAGE@,
        s.network@ == CONTAINER_NETWORK_NAME@,
        publishes_view(s.ports@) == seq![(REGISTRY_PORT, Protocol::Tcp, None::<Seq<char>>, REGISTRY_PORT)],
        s.mounts@.len() == 0,
        s.cap_add@.len() == 0,
        s.restart_always,
        s.env is None,
{
    let mut ports: Vec<PortPublish> = Vec::new();
    ports.push(publish(REGISTRY_PORT, Protocol::Tcp));
    assert(publishes_view(ports@) =~= seq![(REGISTRY_PORT, Protocol::Tcp, None::<Seq<char>>, REGISTRY_PORT)]);
    ContainerSetup {
        name: String::from_str(REGISTRY_CONTAINER_NAME),
        image: String::from_str(REGISTRY_IMAGE),
        network: CONTAINER_NETWORK_NAME,
        ports,
        mounts: Vec::new(),
        cap_add: Vec::new(),
        restart_always: true,
        env: None,
    }
}

/// The proxy container: the proxy image on the server's network, with its
/// ports, its data and configuration volumes, the `NET_ADMIN` capability,
/// always restarted.
pub fn proxy_container_setup() -> (s: ContainerSetup)
    ensures
        s.name@ == PROXY_CONTAINER_NAME@,
        s.image@ == PROXY_IMAGE@,
        s.network@ == CONTAINER_NETWORK_NAME@,
        publishes_view(s.ports@) == proxy_ports(),
        mounts_view(s.mounts@) == seq![
            (PROXY_DATA_VOLUME@, "/data"@),
            (PROXY_CONFIG_VOLUME@, "/config"@),
        ],
        s.cap_add@.map_values(|c: &'static str| c@) == seq!["NET_ADMIN"@],
        s.restart_always,
        s.env is None,
{
    let mut ports: Vec<PortPublish> = Vec::new();
    ports.push(publish(PROXY_HTTP_PORT, Protocol::Tcp));
    ports.push(publish(PROXY_HTTPS_PORT, Protocol::Tcp));
    ports.push(publish(PROXY_HTTPS_PORT, Protocol::Udp));
    ports.push(
        PortPublish {
            container_port: PROXY_ADMIN_PORT,
            protocol: Protocol::Tcp,
            host_ip: Some("127.0.0.1"),
            host_port: PROXY_ADMIN_PORT,
        },
    );
    assert(publishes_view(ports@) =~= proxy_ports());
    let mut mounts: Vec<VolumeMount> = Vec::new();
    mounts.push(VolumeMount { source: PROXY_DATA_VOLUME, target: "/data" });
    mounts.push(VolumeMount { source: PROXY_CONFIG_VOLUME, target: "/config" });
    assert(mounts_view(mounts@) =~= seq![
        (PROXY_DATA_VOLUME@, "/data"@),
        (PROXY_CONFIG_VOLUME@, "/config"@),
    ]);
    let mut cap_add: Vec<&'static str> = Vec::new();
    cap_add.push("NET_ADMIN");
    assert(cap_add@.map_values(|c: &'static str| c@) =~= seq!["NET_ADMIN"@]);
    ContainerSetup {
        name: String::from_str(PROXY_CONTAINER_NAME),
        image: String::from_str(PROXY_IMAGE),
        network: CONTAINER_NETWORK_NAME,
        ports,
        mounts,
        cap_add,
        restart_always: true,
        env: None,
    }
}

/// The container of a project revision: `image` on the server's network
/// with environment `env`, and `container_port` published at `host_port`
/// over TCP when both are given.  It is not restarted by the daemon.
pub fn project_container_setup(
    name: String,
    image: String,
    container_port: Option<u16>,
    host_port: Option<u16>,
    env: Vec<String>,
) -> (s: ContainerSetup)
    ensures
        s.name == name,
        s.image == image,
        s.network@ == CONTAINER_NETWORK_NAME@,
        publishes_view(s.ports@) == match (container_port, host_port) {
            (Some(c), Some(h)) => seq![(c, Protocol::Tcp, None::<Seq<char>>, h)],
            _ => Seq::empty(),
        },
        s.mounts@.len() == 0,
        s.cap_add@.len() == 0,
        !s.restart_always,
        s.env == Some(env),
{
    let mut ports: Vec<PortPublish> = Vec::new();
    if let (Some(c), Some(h)) = (container_port, host_port) {
        ports.push(PortPublish { container_port: c, protocol: Protocol::Tcp, host_ip: None, host_port: h });
    }
    assert(publishes_view(ports@) =~= match (container_port, host_port) {
        (Some(c), Some(h)) => seq![(c, Protocol::Tcp, None::<Seq<char>>, h)],
        _ => Seq::empty(),
    });
    ContainerSetup {
        name,
        image,
        network: CONTAINER_NETWORK_NAME,
        ports,
        mounts: Vec::new(),
        cap_add: Vec::new(),
        restart_always: false,
        env: Some(env),
    }
}

/// Whether one of the networks the daemon lists, by name, is the server's.
pub open spec fn has_network(names: Seq<Option<String>>) -> bool {
    exists|i: int| 0 <= i < names.len() && opt_view(#[trigger] names[i]) == Some(CONTAINER_NETWORK_NAME@)
}

/// Whether the server's network is among the networks listed by `names`;
/// when it is not, it is created.
pub fn network_present(names: &Vec<Option<String>>) -> (b: bool)
    ensures
        b == has_network(names@),
{
    let mut i: usize = 0;
    while i < names.len()
        invariant
            i <= names.len(),
            forall|k: int| 0 <= k < i ==> opt_view(#[trigger] names@[k]) != Some(CONTAINER_NETWORK_NAME@),
        decreases names.len() - i,
    {
        match &names[i] {
            Some(n) => {
                let c = chars_of(n.as_str());
                if chars_equal(&c, CONTAINER_NETWORK_NAME) {
                    assert(opt_view(names@[i as int]) == Some(CONTAINER_NETWORK_NAME@));
                    return true;
                }
            },
            None => {},
        }
        i = i + 1;
    }
    false
}

/// What bringing the proxy up does, given what inspecting its container
/// found.
#[derive(Debug, Clone, Copy, PartialEq, Eq, Structural)]
pub enum ProxyStartAction {
    /// It runs already: nothing.
    Nothing,
    /// It exists but is stopped: start it.
    StartExisting,
    /// It does not exist: pull the image if it is missing, then create and
    /// start it.
    Create,
}

/// The action for a proxy container that is `Some(running)` when it exists.
pub open spec fn proxy_start_for(existing: Option<bool>) -> ProxyStartAction {
    match existing {
        Some(true) => ProxyStartAction::Nothing,
        Some(false) => ProxyStartAction::StartExisting,
        None => ProxyStartAction::Create,
    }
}

/// What bringing the proxy up does, given `Some(running)` when its
/// container exists and `None` when it does not.
pub fn proxy_start_action(existing: Option<bool>) -> (a: ProxyStartAction)
    ensures
        a == proxy_start_for(existing),
{
    match existing {
        Some(true) => ProxyStartAction::Nothing,
        Some(false) => ProxyStartAction::StartExisting,
        None => ProxyStartAction::Create,
    }
}

} // verus!
