//! Names, images and ports the server uses, and the packages it seeds.

use vstd::prelude::*;

verus! {

/// The number of revisions a project keeps when the request names none.
pub const DEFAULT_PROJECT_RETENTION_COUNT: i64 = 3;

/// The Docker network every managed container joins.
pub const CONTAINER_NETWORK_NAME: &'static str = "vulpecula";
pub const REGISTRY_CONTAINER_NAME: &'static str = "vulpecula-registry";
pub const REGISTRY_IMAGE: &'static str = "registry:3";
pub const REGISTRY_PORT: u16 = 5000;

pub const PROXY_CONTAINER_NAME: &'static str = "vulpecula-proxy";
pub const PROXY_IMAGE: &'static str = "caddybuilds/caddy-cloudflare:latest";
pub const PROXY_HTTP_PORT: u16 = 80;
pub const PROXY_HTTPS_PORT: u16 = 443;
pub const PROXY_ADMIN_PORT: u16 = 2019;
/// Where the proxy's admin API listens, on the host only.
pub const PROXY_ADMIN_ADDR: &'static str = "127.0.0.1:2019";
pub const PROXY_DATA_VOLUME: &'static str = "vulpecula-caddy-data";
pub const PROXY_CONFIG_VOLUME: &'static str = "vulpecula-caddy-config";
/// The port SSH listens on, which the firewall never closes.
pub const SSH_PORT: u16 = 22;

/// A package the server manages from its first start.
#[derive(Debug, Clone, Copy)]
pub struct SeedPackage {
    pub id: &'static str,
    pub name: &'static str,
    pub description: &'static str,
    pub apt_name: Option<&'static str>,
    pub rpm_name: Option<&'static str>,
}

/// A seeded package as plain values: id, name, description, and its names
/// under apt and rpm.
pub open spec fn seed_view(p: SeedPackage) -> (
    Seq<char>,
    Seq<char>,
    Seq<char>,
    Option<Seq<char>>,
    Option<Seq<char>>,
) {
    (p.id@, p.name@, p.description@, opt_str_view(p.apt_name), opt_str_view(p.rpm_name))
}

/// The characters of an optional string literal.
pub open spec fn opt_str_view(o: Option<&'static str>) -> Option<Seq<char>> {
    match o {
        Some(s) => Some(s@),
        None => None,
    }
}

/// The packages seeded on first start, in order.
pub open spec fn seeded() -> Seq<(Seq<char>, Seq<char>, Seq<char>, Option<Seq<char>>, Option<Seq<char>>)> {
    seq![
        ("curl"@, "curl"@, "command line tool for transferring data to and from internet servers"@, Some("curl"@), Some("curl"@)),
        ("curl-minimal"@, "curl-minimal"@, "curl-minimal is a lightweight alternative to the standard curl package, designed to provide a smaller installation footprint by restricting supported protocols to standard HTTP, HTTPS, and FTP, stripping out less frequently used, semi-obsolete protocols"@, None, Some("curl-minimal"@)),
        ("git"@, "git"@, "Git is a fast, scalable, distributed revision control system with an
        unusually rich command set that provides both high-level operations
        and full access to internals."@, Some("git"@), Some("git"@)),
        ("htop"@, "htop"@, "interactive text-mode process viewer for Linux"@, Some("htop"@), Some("htop"@)),
    ]
}

/// The packages seeded on first start.
pub fn seed_packages() -> (v: Vec<SeedPackage>)
    ensures
        v@.map_values(|p: SeedPackage| seed_view(p)) == seeded(),
{
    let mut v: Vec<SeedPackage> = Vec::new();
    v.push(
        SeedPackage {
            id: "curl",
            name: "curl",
            description: "command line tool for transferring data to and from internet servers",
            apt_name: Some("curl"),
            rpm_name: Some("curl"),
        },
    );
    v.push(
        SeedPackage {
            id: "curl-minimal",
            name: "curl-minimal",
            description: "curl-minimal is a lightweight alternative to the standard curl package, designed to provide a smaller installation footprint by restricting supported protocols to standard HTTP, HTTPS, and FTP, stripping out less frequently used, semi-obsolete protocols",
            apt_name: None,
            rpm_name: Some("curl-minimal"),
        },
    );
    v.push(
        SeedPackage {
            id: "git",
            name: "git",
            description: "Git is a fast, scalable, distributed revision control system with an
        unusually rich command set that provides both high-level operations
        and full access to internals.",
            apt_name: Some("git"),
            rpm_name: Some("git"),
        },
    );
    v.push(
        SeedPackage {
            id: "htop",
            name: "htop",
            description: "interactive text-mode process viewer for Linux",
            apt_name: Some("htop"),
            rpm_name: Some("htop"),
        },
    );
    assert(v@.map_values(|p: SeedPackage| seed_view(p)) =~= seeded());
    v
}

} // verus!
