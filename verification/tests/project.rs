use vulpecula::db::queries::project::{Framework, Project, ProjectSourceKind};
use vulpecula::handler::project::{
    creation_response, default_retention_count, deploy_image, deploy_port, merge_project_update,
    next_revision, prepare_create_project, project_creation, project_exists_error, project_not_found,
    reject_if_set, validate_create_request, validate_framework_fields, validate_source,
    validate_update_request, CreateProjectRequest, EnvRef, ProjectSource, UpdateProjectRequest,
};
use vulpecula::utils::api_response::ApiErrorKind;

fn image_request(name: &str) -> CreateProjectRequest {
    CreateProjectRequest {
        name: name.to_string(),
        source: ProjectSource::DockerImage { image: "nginx:latest".to_string() },
        env: None,
        port: None,
        container_port: None,
        retention_count: default_retention_count(),
    }
}

fn git_source(framework: Framework) -> ProjectSource {
    ProjectSource::GitRepo {
        repo_url: "https://example.com/app.git".to_string(),
        branch: "main".to_string(),
        framework,
        root_dir: Some("web".to_string()),
        install_command: None,
        build_command: None,
        output_directory: None,
        start_command: None,
    }
}

fn stored(kind: ProjectSourceKind, framework: Option<Framework>) -> Project {
    Project {
        id: "p1".to_string(),
        name: "shop".to_string(),
        source_kind: kind,
        image: if kind == ProjectSourceKind::DockerImage { Some("nginx:1".to_string()) } else { None },
        repo_url: None,
        branch: None,
        framework,
        root_dir: None,
        install_command: None,
        build_command: None,
        output_directory: None,
        start_command: None,
        port: None,
        container_port: None,
        retention_count: 3,
        created_at: 1,
        updated_at: 2,
    }
}

fn empty_update() -> UpdateProjectRequest {
    UpdateProjectRequest {
        name: None,
        framework: None,
        root_dir: None,
        install_command: None,
        build_command: None,
        output_directory: None,
        start_command: None,
        port: None,
        container_port: None,
        retention_count: None,
        env: None,
    }
}

#[test]
fn default_retention_is_three() {
    assert_eq!(default_retention_count(), 3);
}

#[test]
fn framework_rules_refuse_fields_in_order() {
    let some = Some("x".to_string());
    let none: Option<String> = None;
    let e = validate_framework_fields(Framework::Dockerfile, &none, &some, &some, &none).unwrap_err();
    assert_eq!(e.error_kind(), ApiErrorKind::BadRequest);
    assert_eq!(e.message(), "build_command is not valid for framework Dockerfile");
    assert!(validate_framework_fields(Framework::React, &some, &some, &some, &none).is_ok());
    let e = validate_framework_fields(Framework::Svelte, &none, &none, &none, &some).unwrap_err();
    assert_eq!(e.message(), "start_command is not valid for framework Svelte");
    let e = validate_framework_fields(Framework::Static, &none, &none, &some, &some).unwrap_err();
    assert_eq!(e.message(), "start_command is not valid for framework Static");
    assert!(validate_framework_fields(Framework::Static, &none, &none, &some, &none).is_ok());
    let e = validate_framework_fields(Framework::Express, &some, &some, &some, &some).unwrap_err();
    assert_eq!(e.message(), "output_directory is not valid for framework Express");
    assert!(reject_if_set("env", &None::<u8>, Framework::Static).is_ok());
}

#[test]
fn image_source_takes_any_fields() {
    assert!(validate_source(&ProjectSource::DockerImage { image: "x".into() }).is_ok());
    let local = ProjectSource::LocalRepo {
        framework: Framework::Dockerfile,
        root_dir: None,
        install_command: Some("npm ci".into()),
        build_command: None,
        output_directory: None,
        start_command: None,
    };
    assert_eq!(
        validate_source(&local).unwrap_err().message(),
        "install_command is not valid for framework Dockerfile"
    );
    assert_eq!(local.kind(), ProjectSourceKind::LocalRepo);
    assert_eq!(local.framework(), Some(Framework::Dockerfile));
}

#[test]
fn range_checks_list_every_bad_field() {
    let mut b = image_request("");
    b.port = Some(0);
    b.container_port = Some(0);
    b.retention_count = -1;
    let e = validate_create_request(&b).unwrap_err();
    assert_eq!(e.error_kind(), ApiErrorKind::BadRequest);
    assert_eq!(
        e.message(),
        "name: name must not be empty\nport: port must be a valid TCP port\ncontainer_port: container_port must be a valid TCP port\nretention_count: retention_count must not be negative"
    );
    let mut u = empty_update();
    u.name = Some(String::new());
    assert_eq!(validate_update_request(&u).unwrap_err().message(), "name: name must not be empty");
    u.name = None;
    u.retention_count = Some(-5);
    assert_eq!(
        validate_update_request(&u).unwrap_err().message(),
        "retention_count: retention_count must not be negative"
    );
    assert!(validate_update_request(&empty_update()).is_ok());
}

#[test]
fn create_builds_rows_under_fresh_ids() {
    let mut b = image_request("shop");
    b.port = Some(8080);
    b.container_port = Some(80);
    b.env = Some(vec![EnvRef { env_name: "DB".into(), parameter_key: "/db/url".into() }]);
    let c = prepare_create_project(&b).expect("accepted");
    assert_eq!(c.project.id.len(), 36);
    assert_eq!(c.container_id.len(), 36);
    assert_ne!(c.project.id, c.container_id);
    assert_eq!(c.project.name, "shop");
    assert_eq!(c.project.source_kind, ProjectSourceKind::DockerImage);
    assert_eq!(c.project.image.as_deref(), Some("nginx:latest"));
    assert_eq!(c.project.framework, None);
    assert_eq!(c.project.port, Some(8080));
    assert_eq!(c.project.container_port, Some(80));
    assert_eq!(c.project.retention_count, 3);
    assert_eq!(c.env.len(), 1);
    assert_eq!(c.env[0].env_name, "DB");
    assert_eq!(c.env[0].parameter_key, "/db/url");
    let r = creation_response(&c);
    assert_eq!(r.id, c.project.id);
    assert_eq!(r.name, "shop");
    assert_eq!(r.container_id, c.container_id);
}

#[test]
fn create_copies_git_source_columns() {
    let b = CreateProjectRequest {
        name: "site".into(),
        source: git_source(Framework::React),
        env: None,
        port: None,
        container_port: None,
        retention_count: 5,
    };
    let c = prepare_create_project(&b).unwrap();
    assert_eq!(c.project.source_kind, ProjectSourceKind::GitRepo);
    assert_eq!(c.project.image, None);
    assert_eq!(c.project.repo_url.as_deref(), Some("https://example.com/app.git"));
    assert_eq!(c.project.branch.as_deref(), Some("main"));
    assert_eq!(c.project.framework, Some(Framework::React));
    assert_eq!(c.project.root_dir.as_deref(), Some("web"));
    assert_eq!(c.project.retention_count, 5);
    assert!(c.env.is_empty());
}

#[test]
fn create_refusals_come_in_order() {
    let mut b = image_request("shop");
    b.port = Some(80);
    assert_eq!(
        prepare_create_project(&b).unwrap_err().message(),
        "container_port is required when port is set"
    );
    let b = CreateProjectRequest {
        name: "static".into(),
        source: git_source(Framework::Static),
        env: Some(vec![]),
        port: Some(80),
        container_port: None,
        retention_count: 1,
    };
    assert_eq!(
        prepare_create_project(&b).unwrap_err().message(),
        "env is not valid for framework Static"
    );
    let mut b = image_request("");
    b.port = Some(80);
    assert_eq!(prepare_create_project(&b).unwrap_err().message(), "name: name must not be empty");
}

#[test]
fn update_merges_given_fields_over_stored_ones() {
    let e = stored(ProjectSourceKind::GitRepo, Some(Framework::Express));
    let mut u = empty_update();
    u.name = Some("shop2".into());
    u.port = Some(8081);
    u.container_port = Some(3000);
    u.start_command = Some("node index.js".into());
    let m = merge_project_update(&e, &u).unwrap();
    assert_eq!(m.name, "shop2");
    assert_eq!(m.framework, Some(Framework::Express));
    assert_eq!(m.port, Some(8081));
    assert_eq!(m.container_port, Some(3000));
    assert_eq!(m.start_command.as_deref(), Some("node index.js"));
    assert_eq!(m.retention_count, 3);
}

#[test]
fn empty_update_keeps_project() {
    let e = stored(ProjectSourceKind::DockerImage, None);
    let m = merge_project_update(&e, &empty_update()).unwrap();
    assert_eq!(m.name, e.name);
    assert_eq!(m.framework, e.framework);
    assert_eq!(m.root_dir, e.root_dir);
    assert_eq!(m.port, e.port);
    assert_eq!(m.container_port, e.container_port);
    assert_eq!(m.retention_count, e.retention_count);
}

#[test]
fn update_twice_is_update_once() {
    let e = stored(ProjectSourceKind::GitRepo, Some(Framework::React));
    let mut u = empty_update();
    u.build_command = Some("npm run build".into());
    u.retention_count = Some(7);
    let once = merge_project_update(&e, &u).unwrap();
    let mut again = stored(ProjectSourceKind::GitRepo, Some(Framework::React));
    again.build_command = once.build_command.clone();
    again.retention_count = once.retention_count;
    let twice = merge_project_update(&again, &u).unwrap();
    assert_eq!(twice.build_command, once.build_command);
    assert_eq!(twice.retention_count, once.retention_count);
}

#[test]
fn update_refusals() {
    let e = stored(ProjectSourceKind::GitRepo, Some(Framework::React));
    let mut u = empty_update();
    u.port = Some(80);
    assert_eq!(
        merge_project_update(&e, &u).unwrap_err().message(),
        "container_port is required when port is set"
    );
    let mut u = empty_update();
    u.start_command = Some("x".into());
    assert_eq!(
        merge_project_update(&e, &u).unwrap_err().message(),
        "start_command is not valid for framework React"
    );
    let mut u = empty_update();
    u.framework = Some(Framework::Static);
    u.env = Some(vec![]);
    assert_eq!(
        merge_project_update(&e, &u).unwrap_err().message(),
        "env is not valid for framework Static"
    );
}

#[test]
fn deploy_image_per_source_kind() {
    let p = stored(ProjectSourceKind::DockerImage, None);
    assert_eq!(deploy_image(&p, &None).unwrap(), "nginx:1");
    let mut p = stored(ProjectSourceKind::DockerImage, None);
    p.image = None;
    let e = deploy_image(&p, &None).unwrap_err();
    assert_eq!(e.error_kind(), ApiErrorKind::Internal);
    assert_eq!(e.message(), "docker_image project missing image");
    let p = stored(ProjectSourceKind::GitRepo, Some(Framework::React));
    assert_eq!(deploy_image(&p, &Some("v2".into())).unwrap(), "localhost:5000/shop:v2");
    let e = deploy_image(&p, &None).unwrap_err();
    assert_eq!(e.error_kind(), ApiErrorKind::BadRequest);
    assert_eq!(e.message(), "tag is required for this project's source kind");
}

#[test]
fn deploy_port_and_revision() {
    let mut p = stored(ProjectSourceKind::DockerImage, None);
    assert_eq!(deploy_port(&p), None);
    p.container_port = Some(80);
    let m = deploy_port(&p).unwrap();
    assert_eq!((m.host_port, m.container_port), (None, 80));
    p.port = Some(8080);
    let m = deploy_port(&p).unwrap();
    assert_eq!((m.host_port, m.container_port), (Some(8080), 80));
    p.port = Some(65536 + 22);
    assert_eq!(deploy_port(&p).unwrap().host_port, Some(22));
    assert_eq!(next_revision(0), 1);
    assert_eq!(next_revision(41), 42);
}

#[test]
fn project_messages() {
    let e = project_not_found("abc");
    assert_eq!(e.error_kind(), ApiErrorKind::NotFound);
    assert_eq!(e.message(), "project abc not found");
    let e = project_exists_error("shop");
    assert_eq!(e.error_kind(), ApiErrorKind::Conflict);
    assert_eq!(e.message(), "project shop already exists");
}

#[test]
fn creation_uses_the_given_identifiers() {
    let b = image_request("shop");
    let c = project_creation(&b, "p-1".to_string(), "c-1".to_string());
    assert_eq!(c.project.id, "p-1");
    assert_eq!(c.container_id, "c-1");
    assert_eq!(c.project.name, "shop");
    assert_eq!(c.project.image.as_deref(), Some("nginx:latest"));
    assert!(c.env.is_empty());
}
