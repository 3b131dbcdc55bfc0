use vulpecula::config::{check_master_key_path, parse_port};
use vulpecula::db::queries::builds::BuildStatus;
use vulpecula::handler::builds::{build_not_found, build_row, new_build, CreateBuildRequest};
use vulpecula::db::queries::container::{Container, ContainerStatus, DesiredState};
use vulpecula::db::queries::firewall::DesiredState as FwDesired;
use vulpecula::db::queries::parameter::{Parameter, ParameterType};
use vulpecula::handler::container::{container_not_found, log_tail, ContainerResponse, LogsQuery};
use vulpecula::handler::firewall::toggled;
use vulpecula::handler::health::health_response;
use vulpecula::handler::parameter::{
    list_parameters_under, parameter_exists, parameter_key, parameter_not_found,
    parameter_response, parameter_vanished_on_read, parameter_vanished_on_update, under_path,
    value_shown, ValueShown,
};
use vulpecula::handler::port::{reserved, used_ports, PortKind, UsedProjectPort};
use vulpecula::handler::proxy::{dns_credential_not_found, validate_put_dns_credential, PutDnsCredentialRequest};
use vulpecula::handler::route::{
    default_path_prefix, new_route, route_row, route_exists_error, route_not_found, route_vanished_error,
    validate_create_route, CreateRouteRequest,
};
use vulpecula::infra::parameters::resolve::{missing_ciphertext, resolve_parameter, ParameterSource};
use vulpecula::text::{contains_str, i64_to_decimal, u64_to_decimal};
use vulpecula::utils::api_response::{ApiError, ApiErrorKind, ApiResponse};

fn param(key: &str, t: ParameterType, value: Option<&str>) -> Parameter {
    Parameter {
        key: key.into(),
        type_: t,
        value: value.map(|v| v.to_string()),
        created_at: 10,
        updated_at: 20,
    }
}

#[test]
fn paths_contain_themselves_and_children_only() {
    assert!(under_path("/app", "/app"));
    assert!(under_path("/app", "/app/db/url"));
    assert!(!under_path("/app", "/application"));
    assert!(!under_path("/app", "/ap"));
    assert!(!under_path("/app/db", "/app"));
    assert!(under_path("", "/anything"));
}

#[test]
fn listing_filters_by_path_in_order() {
    let all = || {
        vec![
            param("/app/a", ParameterType::String, Some("1")),
            param("/other", ParameterType::String, Some("2")),
            param("/app/b", ParameterType::SecureString, None),
            param("/app", ParameterType::String, Some("3")),
        ]
    };
    let keys: Vec<String> = list_parameters_under(all(), &Some("/app".into())).into_iter().map(|p| p.key).collect();
    assert_eq!(keys, vec!["/app/a", "/app/b", "/app"]);
    let listed = list_parameters_under(all(), &None);
    assert_eq!(listed.len(), 4);
    assert_eq!(listed[1].value.as_deref(), Some("2"));
    assert_eq!((listed[1].created_at, listed[1].updated_at), (10, 20));
    assert!(list_parameters_under(all(), &Some("/none".into())).is_empty());
}

#[test]
fn parameter_keys_values_and_messages() {
    assert_eq!(parameter_key("db/url"), "/db/url");
    assert_eq!(value_shown(ParameterType::String, false), ValueShown::Stored);
    assert_eq!(value_shown(ParameterType::SecureString, true), ValueShown::Decrypted);
    assert_eq!(value_shown(ParameterType::SecureString, false), ValueShown::Hidden);
    let r = parameter_response(param("/k", ParameterType::SecureString, None), None);
    assert_eq!((r.key.as_str(), r.type_, r.value), ("/k", ParameterType::SecureString, None));
    assert_eq!(parameter_not_found("/k").message(), "parameter /k not found");
    assert_eq!(parameter_exists("/k").error_kind(), ApiErrorKind::Conflict);
    assert_eq!(parameter_exists("/k").message(), "parameter /k already exists");
    assert_eq!(
        parameter_vanished_on_read("/k").message(),
        "parameter /k vanished between fetch_one and fetch_encrypted"
    );
    assert_eq!(parameter_vanished_on_update("/k").message(), "parameter /k vanished during update");
}

#[test]
fn resolving_referenced_parameters() {
    match resolve_parameter("/db", Some(param("/db", ParameterType::String, Some("v")))) {
        Ok(ParameterSource::Plain(v)) => assert_eq!(v, "v"),
        other => panic!("unexpected {other:?}"),
    }
    assert!(matches!(
        resolve_parameter("/s", Some(param("/s", ParameterType::SecureString, None))),
        Ok(ParameterSource::Encrypted)
    ));
    assert_eq!(resolve_parameter("/x", None).unwrap_err(), "parameter /x not found");
    assert_eq!(
        resolve_parameter("/db", Some(param("/db", ParameterType::String, None))).unwrap_err(),
        "string parameter /db has no value"
    );
    assert_eq!(missing_ciphertext("/s"), "secure parameter /s has no ciphertext");
}

#[test]
fn api_errors_and_responses() {
    let cases = [
        (ApiError::bad_request("b".into()), ApiErrorKind::BadRequest, 400),
        (ApiError::not_found("n".into()), ApiErrorKind::NotFound, 404),
        (ApiError::unauthorized("u".into()), ApiErrorKind::Unauthorized, 401),
        (ApiError::forbidden("f".into()), ApiErrorKind::Forbidden, 403),
        (ApiError::conflict("c".into()), ApiErrorKind::Conflict, 409),
        (ApiError::internal("db down".into()), ApiErrorKind::Internal, 500),
    ];
    for (e, kind, status) in cases {
        assert_eq!(e.error_kind(), kind);
        assert_eq!(e.status_code(), status);
    }
    let e = ApiError::internal("db down".into());
    assert_eq!(e.message(), "db down");
    assert_eq!(e.public_message(), "Internal server error");
    assert_eq!(ApiError::conflict("taken".into()).public_message(), "taken");
    let r = ApiResponse::ok(5, "fine");
    assert_eq!((r.status, r.message.as_str(), r.success, r.data), (200, "fine", true, 5));
    assert_eq!(ApiResponse::created((), "made").status, 201);
    assert_eq!(ApiResponse::accepted((), "queued").status, 202);
    assert_eq!(ApiResponse::with_status(418, (), "teapot").status, 418);
}

#[test]
fn health_answers() {
    let r = health_response(true);
    assert_eq!((r.status, r.data.status, r.message.as_str()), (200, "OK", "server is healthy"));
    let r = health_response(false);
    assert_eq!((r.status, r.data.status, r.message.as_str()), (503, "ERROR", "server is not healthy"));
}

#[test]
fn used_ports_list_reserved_then_projects() {
    let u = reserved(22, "ssh");
    assert_eq!((u.port, u.name.as_str(), u.kind), (22, "ssh", PortKind::Reserved));
    let ports = used_ports(3000, vec![UsedProjectPort { port: 8080, name: "shop".into() }]);
    let seen: Vec<(u16, String, PortKind)> = ports.into_iter().map(|p| (p.port, p.name, p.kind)).collect();
    assert_eq!(
        seen,
        vec![
            (22, "ssh".to_string(), PortKind::Reserved),
            (80, "proxy (http)".to_string(), PortKind::Reserved),
            (443, "proxy (https)".to_string(), PortKind::Reserved),
            (2019, "proxy (admin)".to_string(), PortKind::Reserved),
            (5000, "registry".to_string(), PortKind::Reserved),
            (3000, "vulpecula".to_string(), PortKind::Reserved),
            (8080, "shop".to_string(), PortKind::Project),
        ]
    );
}

#[test]
fn routes_requests() {
    assert_eq!(default_path_prefix(), "/");
    let b = CreateRouteRequest { project_id: "p".into(), domain: "example.com".into(), path_prefix: "/".into() };
    assert!(validate_create_route(&b).is_ok());
    let r = new_route(&b).expect("an identifier is drawn");
    assert_eq!(r.id.len(), 36);
    let given = route_row(&b, "r-42".to_string());
    assert_eq!(given.id, "r-42");
    assert_eq!(given.domain, "example.com");
    assert_eq!((r.project_id.as_str(), r.domain.as_str(), r.path_prefix.as_str()), ("p", "example.com", "/"));
    let bad = CreateRouteRequest { project_id: String::new(), domain: String::new(), path_prefix: "/".into() };
    assert_eq!(
        validate_create_route(&bad).unwrap_err().message(),
        "project_id: project_id must not be empty\ndomain: domain must not be empty"
    );
    assert_eq!(route_exists_error("example.com", "/api").message(), "project is already linked to example.com/api");
    assert_eq!(route_not_found("r1").message(), "route r1 not found");
    assert_eq!(route_vanished_error("r1").error_kind(), ApiErrorKind::Internal);
}

#[test]
fn containers_and_firewall_switch() {
    let c = Container {
        id: "c".into(),
        project_id: "p".into(),
        name: "n".into(),
        docker_container_id: Some("d".into()),
        pending_docker_container_id: Some("q".into()),
        desired_state: DesiredState::Running,
        status: ContainerStatus::Running,
        current_revision: 4,
    };
    let r = ContainerResponse::from_container(c);
    assert_eq!((r.id.as_str(), r.docker_container_id.as_deref(), r.current_revision), ("c", Some("d"), 4));
    assert_eq!(log_tail(&LogsQuery { tail: None }), 200);
    assert_eq!(log_tail(&LogsQuery { tail: Some(5) }), 5);
    assert_eq!(container_not_found("c").message(), "container c not found");
    assert_eq!(toggled(FwDesired::Enabled), FwDesired::Disabled);
    assert_eq!(toggled(toggled(FwDesired::Disabled)), FwDesired::Disabled);
}

#[test]
fn dns_credential_requests() {
    assert!(validate_put_dns_credential(&PutDnsCredentialRequest { parameter_key: "/cf".into() }).is_ok());
    assert_eq!(
        validate_put_dns_credential(&PutDnsCredentialRequest { parameter_key: String::new() })
            .unwrap_err()
            .message(),
        "parameter_key: parameter_key must not be empty"
    );
    assert_eq!(dns_credential_not_found("api_token").message(), "dns credential api_token not found");
}

#[test]
fn decimal_rendering_and_search() {
    assert_eq!(u64_to_decimal(0), "0");
    assert_eq!(u64_to_decimal(5000), "5000");
    assert_eq!(u64_to_decimal(u64::MAX), u64::MAX.to_string());
    assert_eq!(i64_to_decimal(-150), "-150");
    assert_eq!(i64_to_decimal(i64::MIN), i64::MIN.to_string());
    assert!(contains_str("iptables: No chain/target", "No chain"));
    assert!(contains_str("abc", ""));
    assert!(!contains_str("ab", "abc"));
}

#[test]
fn fresh_ids_are_hyphenated_and_distinct() {
    let body = CreateRouteRequest {
        project_id: "p".to_string(),
        domain: "example.com".to_string(),
        path_prefix: "/".to_string(),
    };
    let a = new_route(&body).unwrap().id;
    let b = new_route(&body).unwrap().id;
    assert_eq!(a.len(), 36);
    assert_eq!(a.matches('-').count(), 4);
    assert_ne!(a, b);
}

#[test]
fn configuration_checks() {
    assert_eq!(parse_port("8080"), Some(8080));
    assert_eq!(parse_port("+443"), Some(443));
    assert_eq!(parse_port("0"), Some(0));
    assert_eq!(parse_port("00065535"), Some(65535));
    assert_eq!(parse_port("65536"), None);
    assert_eq!(parse_port("999999999999"), None);
    assert_eq!(parse_port(""), None);
    assert_eq!(parse_port("+"), None);
    assert_eq!(parse_port("-1"), None);
    assert_eq!(parse_port(" 80"), None);
    assert_eq!(parse_port("8o"), None);
    for s in ["1", "22", "+7", "65535", "65536", "abc", "12a", "+-1"] {
        assert_eq!(parse_port(s), s.parse::<u16>().ok());
    }
    assert!(check_master_key_path("/etc/vulpecula/master.key").is_ok());
    assert_eq!(
        check_master_key_path("master.key").unwrap_err(),
        "VULPECULA_MASTER_KEY_PATH must be an absolute path got master.key"
    );
    assert!(check_master_key_path("").is_err());
}

#[test]
fn build_records() {
    let body = || CreateBuildRequest {
        status: BuildStatus::Success,
        tag: Some("v1".into()),
        commit_sha: Some("abc123".into()),
        error: None,
        log: "ok".into(),
        started_at: 10,
        finished_at: 20,
    };
    let b = build_row("p1", body(), "b-1".into());
    assert_eq!((b.id.as_str(), b.project_id.as_str(), b.status), ("b-1", "p1", BuildStatus::Success));
    assert_eq!((b.tag.as_deref(), b.commit_sha.as_deref(), b.log.as_str()), (Some("v1"), Some("abc123"), "ok"));
    assert_eq!((b.started_at, b.finished_at), (10, 20));
    let n = new_build("p1", body()).expect("an identifier is drawn");
    assert_eq!(n.id.len(), 36);
    assert_eq!(n.project_id, "p1");
    assert_eq!(build_not_found("b9").message(), "build b9 not found");
    assert_eq!(build_not_found("b9").error_kind(), ApiErrorKind::NotFound);
}
