use vulpecula::infra::containers::setup::{network_present, proxy_start_action, ProxyStartAction};
use vulpecula::infra::proxy::reconciler::needs_container;
use vulpecula::infra::firewall::backend::command_error;
use vulpecula::db::queries::container::{Container, ContainerStatus, DesiredState, PortMapping};
use vulpecula::db::queries::firewall::{DesiredState as FwDesired, FirewallStatus};
use vulpecula::db::queries::package::{DesiredState as PkgDesired, PackageStatus};
use vulpecula::db::queries::project::{Project, ProjectSourceKind};
use vulpecula::db::queries::proxy::{DesiredState as ProxyDesired, ProxyStatus};
use vulpecula::db::queries::route::{DesiredState as RouteDesired, Route, RouteStatus};
use vulpecula::infra::containers::reconciler::{
    cutover_finish_effects, cutover_needed, cutover_start_effects, deploy_finish_effects,
    deploy_start_effects, docker_container_name, env_assignment, has_revision, plan_reconcile,
    remove_effects, spec_ports, stop_effects, ContainerEffect, ReconcilePlan,
};
use vulpecula::infra::firewall::backend::{AllowedPort, FirewallBackend, Protocol};
use vulpecula::infra::firewall::reconciler::{compute_allowed_ports, final_status, pending_status};
use vulpecula::infra::firewall::{iptables, nftables};
use vulpecula::infra::packages::reconciler::{
    done_status, package_action, seed_manager_name, seed_name_rows, seed_states, working_status,
    ManagerFamily, PackageAction,
};
use vulpecula::constant::seed_packages;
use vulpecula::infra::containers::setup::{project_container_setup, proxy_container_setup, registry_container_setup};
use vulpecula::infra::proxy::reconciler::{
    caddy_config, caddy_route, cloudflare_api_token, failure_status, proxy_plan, route_status, routes_in_state,
    upstream_dial, ProxyEffect,
};

fn container(desired: DesiredState, status: ContainerStatus, docker: Option<&str>) -> Container {
    Container {
        id: "c1".into(),
        project_id: "p1".into(),
        name: "shop".into(),
        docker_container_id: docker.map(|s| s.to_string()),
        pending_docker_container_id: None,
        desired_state: desired,
        status,
        current_revision: 1,
    }
}

fn transition(e: &ContainerEffect) -> (ContainerStatus, ContainerStatus, Option<String>) {
    match e {
        ContainerEffect::Transition { from, to, reason } => (*from, *to, reason.clone()),
        other => panic!("expected a transition, got {other:?}"),
    }
}

#[test]
fn container_plans() {
    let cases = [
        (DesiredState::Removed, ContainerStatus::Running, Some("d"), ReconcilePlan::Remove),
        (DesiredState::Removed, ContainerStatus::Pending, None, ReconcilePlan::Remove),
        (DesiredState::Removed, ContainerStatus::Removing, Some("d"), ReconcilePlan::Skip),
        (DesiredState::Running, ContainerStatus::Pending, None, ReconcilePlan::Deploy),
        (DesiredState::Running, ContainerStatus::Failed, None, ReconcilePlan::Deploy),
        (DesiredState::Running, ContainerStatus::Stopped, Some("d"), ReconcilePlan::Skip),
        (DesiredState::Running, ContainerStatus::Running, Some("d"), ReconcilePlan::CheckForCutover),
        (DesiredState::Running, ContainerStatus::Running, None, ReconcilePlan::Skip),
        (DesiredState::Running, ContainerStatus::Creating, None, ReconcilePlan::Skip),
        (DesiredState::Stopped, ContainerStatus::Running, Some("d"), ReconcilePlan::Stop),
        (DesiredState::Stopped, ContainerStatus::Failed, Some("d"), ReconcilePlan::Stop),
        (DesiredState::Stopped, ContainerStatus::Stopped, None, ReconcilePlan::Skip),
        (DesiredState::Stopped, ContainerStatus::Running, None, ReconcilePlan::Skip),
    ];
    for (d, s, docker, expected) in cases {
        assert_eq!(plan_reconcile(&container(d, s, docker)), expected, "{d:?} {s:?} {docker:?}");
    }
    assert!(cutover_needed(3, 2));
    assert!(!cutover_needed(2, 2));
    assert!(!has_revision(0));
    assert!(has_revision(4));
}

#[test]
fn deploy_effects_in_order() {
    let c = container(DesiredState::Running, ContainerStatus::Pending, None);
    let start = deploy_start_effects(&c);
    assert_eq!(start.len(), 2);
    assert_eq!(transition(&start[0]), (ContainerStatus::Pending, ContainerStatus::Creating, None));
    assert!(matches!(&start[1], ContainerEffect::CreateAndStart { name } if name == "vulpecula-c1"));
    let ok = deploy_finish_effects(3, &Ok("docker123".into()));
    assert_eq!(ok.len(), 3);
    assert!(matches!(&ok[0], ContainerEffect::SetDockerContainerId { docker_container_id } if docker_container_id == "docker123"));
    assert!(matches!(&ok[1], ContainerEffect::BumpCurrentRevision { revision: 3 }));
    assert_eq!(transition(&ok[2]), (ContainerStatus::Creating, ContainerStatus::Running, None));
    let failed = deploy_finish_effects(3, &Err("failed to pull image x".into()));
    assert_eq!(failed.len(), 1);
    assert_eq!(
        transition(&failed[0]),
        (ContainerStatus::Creating, ContainerStatus::Failed, Some("failed to pull image x".into()))
    );
}

#[test]
fn cutover_effects_replace_old_container() {
    let c = container(DesiredState::Running, ContainerStatus::Running, Some("old"));
    let start = cutover_start_effects(&c);
    assert_eq!(start.len(), 4);
    assert_eq!(transition(&start[0]), (ContainerStatus::Running, ContainerStatus::CuttingOver, None));
    assert!(matches!(&start[1], ContainerEffect::StopAndRemove { docker_container_id } if docker_container_id == "old"));
    assert!(matches!(&start[2], ContainerEffect::ClearDockerContainerId));
    assert!(matches!(&start[3], ContainerEffect::CreateAndStart { .. }));
    let ok = cutover_finish_effects(5, &Ok("new".into()));
    assert_eq!(ok.len(), 4);
    assert!(matches!(&ok[0], ContainerEffect::SetPendingDockerContainerId { docker_container_id } if docker_container_id == "new"));
    assert!(matches!(&ok[1], ContainerEffect::PromotePendingToCurrent));
    assert!(matches!(&ok[2], ContainerEffect::BumpCurrentRevision { revision: 5 }));
    assert_eq!(transition(&ok[3]), (ContainerStatus::CuttingOver, ContainerStatus::Running, None));
    let failed = cutover_finish_effects(5, &Err("boom".into()));
    assert_eq!(transition(&failed[0]).1, ContainerStatus::Failed);
}

#[test]
fn stop_and_remove_effects() {
    let c = container(DesiredState::Stopped, ContainerStatus::Running, Some("d1"));
    let stop = stop_effects(&c);
    assert_eq!(stop.len(), 4);
    assert_eq!(transition(&stop[0]).1, ContainerStatus::Stopping);
    assert!(matches!(&stop[1], ContainerEffect::StopAndRemove { .. }));
    assert!(matches!(&stop[2], ContainerEffect::ClearDockerContainerId));
    assert_eq!(transition(&stop[3]), (ContainerStatus::Stopping, ContainerStatus::Stopped, None));
    let c = container(DesiredState::Removed, ContainerStatus::Pending, None);
    let remove = remove_effects(&c);
    assert_eq!(remove.len(), 3);
    assert_eq!(transition(&remove[0]), (ContainerStatus::Pending, ContainerStatus::Removing, None));
    assert_eq!(transition(&remove[1]), (ContainerStatus::Removing, ContainerStatus::Removed, None));
    assert!(matches!(&remove[2], ContainerEffect::DeleteProject { project_id } if project_id == "p1"));
}

#[test]
fn spec_helpers() {
    assert_eq!(docker_container_name("abc"), "vulpecula-abc");
    assert_eq!(env_assignment("DB_URL", "postgres://x"), "DB_URL=postgres://x");
    assert_eq!(spec_ports(&None), (None, None));
    assert_eq!(
        spec_ports(&Some(PortMapping { host_port: Some(8080), container_port: 80 })),
        (Some(80), Some(8080))
    );
}

fn project_with_port(port: Option<i64>) -> Project {
    Project {
        id: "p".into(),
        name: "n".into(),
        source_kind: ProjectSourceKind::DockerImage,
        image: None,
        repo_url: None,
        branch: None,
        framework: None,
        root_dir: None,
        install_command: None,
        build_command: None,
        output_directory: None,
        start_command: None,
        port,
        container_port: Some(80),
        retention_count: 3,
        created_at: 0,
        updated_at: 0,
    }
}

fn tcp(port: u16) -> AllowedPort {
    AllowedPort { port, protocol: Protocol::Tcp }
}

#[test]
fn allowed_ports_keep_ssh_api_and_proxy() {
    let projects = vec![project_with_port(Some(8080)), project_with_port(None), project_with_port(Some(9000))];
    let a = compute_allowed_ports(3000, &projects, ProxyDesired::Running);
    assert_eq!(a, vec![tcp(22), tcp(3000), tcp(8080), tcp(9000), tcp(80), tcp(443)]);
    let a = compute_allowed_ports(3000, &vec![], ProxyDesired::Stopped);
    assert_eq!(a, vec![tcp(22), tcp(3000)]);
}

#[test]
fn firewall_statuses() {
    assert_eq!(pending_status(FwDesired::Enabled), FirewallStatus::Applying);
    assert_eq!(pending_status(FwDesired::Disabled), FirewallStatus::Disabling);
    assert_eq!(final_status(FwDesired::Enabled, true), FirewallStatus::Enabled);
    assert_eq!(final_status(FwDesired::Disabled, true), FirewallStatus::Disabled);
    assert_eq!(final_status(FwDesired::Enabled, false), FirewallStatus::Failed);
    assert_eq!(FirewallBackend::select(true, true), Ok(FirewallBackend::IpTables));
    assert_eq!(FirewallBackend::select(false, true), Ok(FirewallBackend::NfTables));
    assert_eq!(
        FirewallBackend::select(false, false),
        Err("neither iptables nor nft found on this host".to_string())
    );
    assert_eq!(Protocol::Tcp.as_str(), "tcp");
    assert_eq!(Protocol::Udp.as_str(), "udp");
}

#[test]
fn iptables_plan_commands() {
    let allowed = [tcp(22), AllowedPort { port: 443, protocol: Protocol::Udp }];
    let plan = iptables::apply_plan(false, false, &allowed);
    let args: Vec<Vec<String>> = plan.iter().map(|c| c.args.clone()).collect();
    assert_eq!(args[0], vec!["-N", "VULPECULA-FW"]);
    assert_eq!(args[1], vec!["-I", "DOCKER-USER", "1", "-j", "VULPECULA-FW"]);
    assert_eq!(args[2], vec!["-F", "VULPECULA-FW"]);
    assert_eq!(args[3], vec!["-A", "VULPECULA-FW", "-p", "tcp", "--dport", "22", "-j", "ACCEPT"]);
    assert_eq!(args[4], vec!["-A", "VULPECULA-FW", "-p", "udp", "--dport", "443", "-j", "ACCEPT"]);
    assert_eq!(args[5], vec!["-A", "VULPECULA-FW", "-j", "DROP"]);
    assert_eq!(plan[0].failure, "failed to create chain VULPECULA-FW");
    assert_eq!(plan[1].failure, "failed to hook VULPECULA-FW into DOCKER-USER");
    assert_eq!(plan[2].failure, "failed to flush VULPECULA-FW");
    assert_eq!(plan[4].failure, "failed to allow udp/443");
    assert_eq!(plan[5].failure, "failed to install default-deny rule in VULPECULA-FW");
    let plan = iptables::apply_plan(true, true, &[]);
    assert_eq!(plan.len(), 2);
    assert_eq!(iptables::chain_exists_args(), vec!["-nL", "VULPECULA-FW"]);
    assert_eq!(iptables::hook_installed_args(), vec!["-C", "DOCKER-USER", "-j", "VULPECULA-FW"]);
    assert_eq!(
        iptables::teardown_prelude(),
        vec![vec!["-D", "DOCKER-USER", "-j", "VULPECULA-FW"], vec!["-F", "VULPECULA-FW"]]
    );
    let t = iptables::teardown_command();
    assert_eq!(t.args, vec!["-X", "VULPECULA-FW"]);
    assert_eq!(t.failure, "failed to remove chain VULPECULA-FW");
    assert!(iptables::teardown_succeeded(true, ""));
    assert!(iptables::teardown_succeeded(false, "iptables: No chain/target/match by that name."));
    assert!(!iptables::teardown_succeeded(false, "Permission denied"));
}

#[test]
fn nftables_plan_commands() {
    let plan = nftables::apply_plan(&[tcp(8080)]);
    let args: Vec<Vec<String>> = plan.iter().map(|c| c.args.clone()).collect();
    assert_eq!(args.len(), 5);
    assert_eq!(args[0], vec!["add", "table", "inet", "vulpecula_fw"]);
    assert_eq!(
        args[1],
        vec!["add", "chain", "inet", "vulpecula_fw", "prerouting", "{ type filter hook prerouting priority -150; }"]
    );
    assert_eq!(args[2], vec!["flush", "chain", "inet", "vulpecula_fw", "prerouting"]);
    assert_eq!(args[3], vec!["add", "rule", "inet", "vulpecula_fw", "prerouting", "tcp", "dport", "8080", "accept"]);
    assert_eq!(args[4], vec!["add", "rule", "inet", "vulpecula_fw", "prerouting", "drop"]);
    assert_eq!(plan[0].failure, "failed to create table vulpecula_fw");
    assert_eq!(plan[1].failure, "failed to create chain prerouting");
    assert_eq!(plan[2].failure, "failed to flush chain prerouting");
    assert_eq!(plan[3].failure, "failed to allow tcp/8080");
    let t = nftables::teardown_command();
    assert_eq!(t.args, vec!["delete", "table", "inet", "vulpecula_fw"]);
    assert!(nftables::teardown_succeeded(false, "Error: No such file or directory"));
    assert!(!nftables::teardown_succeeded(false, "Error: Operation not permitted"));
}

#[test]
fn package_actions_and_seeding() {
    assert_eq!(package_action(PkgDesired::Installed, PackageStatus::Removed), PackageAction::Install);
    assert_eq!(package_action(PkgDesired::Installed, PackageStatus::Failed), PackageAction::Install);
    assert_eq!(package_action(PkgDesired::Removed, PackageStatus::Installed), PackageAction::Remove);
    assert_eq!(package_action(PkgDesired::Installed, PackageStatus::Installing), PackageAction::Skip);
    assert_eq!(package_action(PkgDesired::Removed, PackageStatus::Removed), PackageAction::Skip);
    assert_eq!(working_status(PackageAction::Install), PackageStatus::Installing);
    assert_eq!(working_status(PackageAction::Remove), PackageStatus::Removing);
    assert_eq!(done_status(PackageAction::Install, true), PackageStatus::Installed);
    assert_eq!(done_status(PackageAction::Remove, true), PackageStatus::Removed);
    assert_eq!(done_status(PackageAction::Remove, false), PackageStatus::Failed);
    assert_eq!(seed_states(true), (PackageStatus::Installed, PkgDesired::Installed));
    assert_eq!(seed_states(false), (PackageStatus::Removed, PkgDesired::Removed));
    assert_eq!(ManagerFamily::Apt.id(), "apt");
    assert_eq!(ManagerFamily::Rpm.id(), "rpm");
    let seeds = seed_packages();
    assert_eq!(seeds.len(), 4);
    let minimal = seeds.iter().find(|p| p.id == "curl-minimal").unwrap();
    assert_eq!(seed_manager_name(minimal, ManagerFamily::Apt), None);
    assert_eq!(seed_manager_name(minimal, ManagerFamily::Rpm), Some("curl-minimal"));
    assert_eq!(seed_name_rows(minimal), vec![("rpm", "curl-minimal")]);
    assert_eq!(seed_name_rows(&seeds[0]), vec![("apt", "curl"), ("rpm", "curl")]);
}

fn route(id: &str, desired: RouteDesired) -> Route {
    Route {
        id: id.into(),
        project_id: "p1".into(),
        domain: "example.com".into(),
        path_prefix: "/api".into(),
        desired_state: desired,
        status: RouteStatus::Pending,
        created_at: 0,
        updated_at: 0,
    }
}

#[test]
fn proxy_plans_and_routes() {
    assert_eq!(
        proxy_plan(ProxyDesired::Stopped, true),
        vec![ProxyEffect::SetStatus(ProxyStatus::Stopping), ProxyEffect::StopContainer, ProxyEffect::SetStatus(ProxyStatus::Stopped)]
    );
    assert_eq!(proxy_plan(ProxyDesired::Stopped, false), vec![ProxyEffect::SetStatus(ProxyStatus::Stopped)]);
    assert_eq!(
        proxy_plan(ProxyDesired::Running, false),
        vec![
            ProxyEffect::SetStatus(ProxyStatus::Starting),
            ProxyEffect::EnsureRunning,
            ProxyEffect::LoadConfig,
            ProxyEffect::SetStatus(ProxyStatus::Running)
        ]
    );
    assert_eq!(
        proxy_plan(ProxyDesired::Running, true),
        vec![ProxyEffect::LoadConfig, ProxyEffect::SetStatus(ProxyStatus::Running)]
    );
    assert_eq!(failure_status(ProxyEffect::LoadConfig), Some(ProxyStatus::Failed));
    assert_eq!(failure_status(ProxyEffect::StopContainer), None);
    let routes = vec![route("a", RouteDesired::Active), route("b", RouteDesired::Removed), route("c", RouteDesired::Active)];
    assert_eq!(routes_in_state(&routes, RouteDesired::Active), vec![0, 2]);
    assert_eq!(routes_in_state(&routes, RouteDesired::Removed), vec![1]);
    let c = caddy_route(&routes[0], "vulpecula-c1:80".into());
    assert_eq!((c.host.as_str(), c.path.as_str(), c.dial.as_str()), ("example.com", "/api*", "vulpecula-c1:80"));
    assert_eq!(route_status(Ok(true)), RouteStatus::Synced);
    assert_eq!(route_status(Ok(false)), RouteStatus::Pending);
    assert_eq!(route_status(Err(())), RouteStatus::Failed);
}

#[test]
fn upstream_needs_project_port_and_running_container() {
    let p = project_with_port(None);
    let running = container(DesiredState::Running, ContainerStatus::Running, Some("d"));
    let idle = container(DesiredState::Running, ContainerStatus::Pending, None);
    assert_eq!(upstream_dial(Some(&p), Some(&running)).as_deref(), Some("vulpecula-c1:80"));
    assert_eq!(upstream_dial(Some(&p), Some(&idle)), None);
    assert_eq!(upstream_dial(Some(&p), None), None);
    assert_eq!(upstream_dial(None, Some(&running)), None);
    let mut no_port = project_with_port(None);
    no_port.container_port = None;
    assert_eq!(upstream_dial(Some(&no_port), Some(&running)), None);
}

#[test]
fn cloudflare_token_is_the_last_api_token() {
    let creds = vec![
        ("api_token".to_string(), "first".to_string()),
        ("zone".to_string(), "z".to_string()),
        ("api_token".to_string(), "second".to_string()),
    ];
    assert_eq!(cloudflare_api_token(&creds), Ok("second".to_string()));
    assert_eq!(
        cloudflare_api_token(&vec![("zone".to_string(), "z".to_string())]),
        Err("cloudflare dns provider requires an api_token credential".to_string())
    );
}

#[test]
fn seeded_packages_in_order() {
    let seeds = seed_packages();
    let ids: Vec<&str> = seeds.iter().map(|p| p.id).collect();
    assert_eq!(ids, vec!["curl", "curl-minimal", "git", "htop"]);
    let names: Vec<(Option<&str>, Option<&str>)> = seeds.iter().map(|p| (p.apt_name, p.rpm_name)).collect();
    assert_eq!(
        names,
        vec![
            (Some("curl"), Some("curl")),
            (None, Some("curl-minimal")),
            (Some("git"), Some("git")),
            (Some("htop"), Some("htop")),
        ]
    );
    assert_eq!(seeds[3].description, "interactive text-mode process viewer for Linux");
}

#[test]
fn proxy_configuration_document() {
    let routes = vec![route("a", RouteDesired::Active)];
    let r = caddy_route(&routes[0], "vulpecula-c1:80".into());
    let c = caddy_config(vec![r], Some("tok".to_string()));
    assert_eq!(c.server_name, "vulpecula");
    assert_eq!(c.listen, vec![":80", ":443"]);
    assert_eq!(c.route_handler, "reverse_proxy");
    assert_eq!(c.routes.len(), 1);
    assert_eq!(c.routes[0].path, "/api*");
    let tls = c.tls.expect("a token asks for a certificate policy");
    assert_eq!(tls.issuer_module, "acme.dns.cloudflare");
    assert_eq!(tls.api_token, "tok");
    assert!(caddy_config(Vec::new(), None).tls.is_none());
}

#[test]
fn container_setups() {
    let reg = registry_container_setup();
    assert_eq!((reg.name.as_str(), reg.image.as_str(), reg.network), ("vulpecula-registry", "registry:3", "vulpecula"));
    assert_eq!(reg.ports.len(), 1);
    assert_eq!((reg.ports[0].container_port, reg.ports[0].host_port, reg.ports[0].host_ip), (5000, 5000, None));
    assert!(reg.restart_always && reg.env.is_none() && reg.mounts.is_empty());

    let proxy = proxy_container_setup();
    assert_eq!(proxy.image, "caddybuilds/caddy-cloudflare:latest");
    let ports: Vec<(u16, Protocol, Option<&str>, u16)> =
        proxy.ports.iter().map(|p| (p.container_port, p.protocol, p.host_ip, p.host_port)).collect();
    assert_eq!(
        ports,
        vec![
            (80, Protocol::Tcp, None, 80),
            (443, Protocol::Tcp, None, 443),
            (443, Protocol::Udp, None, 443),
            (2019, Protocol::Tcp, Some("127.0.0.1"), 2019),
        ]
    );
    let mounts: Vec<(&str, &str)> = proxy.mounts.iter().map(|m| (m.source, m.target)).collect();
    assert_eq!(mounts, vec![("vulpecula-caddy-data", "/data"), ("vulpecula-caddy-config", "/config")]);
    assert_eq!(proxy.cap_add, vec!["NET_ADMIN"]);
    assert!(proxy.restart_always);

    let app = project_container_setup("vulpecula-c1".into(), "nginx".into(), Some(80), Some(8080), vec!["A=1".into()]);
    assert_eq!(app.ports.len(), 1);
    assert_eq!((app.ports[0].container_port, app.ports[0].host_port, app.ports[0].protocol), (80, 8080, Protocol::Tcp));
    assert_eq!(app.env, Some(vec!["A=1".to_string()]));
    assert!(!app.restart_always);
    let unpublished = project_container_setup("n".into(), "i".into(), Some(80), None, Vec::new());
    assert!(unpublished.ports.is_empty());
    assert_eq!(unpublished.env, Some(Vec::new()));
}

#[test]
fn docker_decisions() {
    assert!(network_present(&vec![None, Some("bridge".into()), Some("vulpecula".into())]));
    assert!(!network_present(&vec![Some("bridge".into()), Some("vulpecula2".into()), None]));
    assert!(!network_present(&Vec::new()));
    assert_eq!(proxy_start_action(Some(true)), ProxyStartAction::Nothing);
    assert_eq!(proxy_start_action(Some(false)), ProxyStartAction::StartExisting);
    assert_eq!(proxy_start_action(None), ProxyStartAction::Create);
}

#[test]
fn upstream_lookup_needs_project_with_port() {
    assert!(needs_container(Some(&project_with_port(None))));
    let mut no_port = project_with_port(None);
    no_port.container_port = None;
    assert!(!needs_container(Some(&no_port)));
    assert!(!needs_container(None));
}

#[test]
fn firewall_command_errors() {
    let flush = iptables::teardown_command();
    assert_eq!(command_error(&flush, true, "anything"), None);
    assert_eq!(
        command_error(&flush, false, "iptables: Too many links."),
        Some("failed to remove chain VULPECULA-FW: iptables: Too many links.".to_string())
    );
    assert!(iptables::teardown_succeeded(false, "iptables: No chain/target/match by that name."));
    assert!(!iptables::teardown_succeeded(false, "permission denied"));
    assert!(nftables::teardown_succeeded(false, "Error: No such file or directory"));
    let again = iptables::apply_plan(true, true, &[tcp(22)]);
    let verbs: Vec<&str> = again.iter().map(|c| c.args[0].as_str()).collect();
    assert_eq!(verbs, vec!["-F", "-A", "-A"]);
    let first = iptables::apply_plan(false, false, &[tcp(22)]);
    let verbs: Vec<&str> = first.iter().map(|c| c.args[0].as_str()).collect();
    assert_eq!(verbs, vec!["-N", "-I", "-F", "-A", "-A"]);
}
