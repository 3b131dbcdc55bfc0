//! Projects: what a create, update or deploy request asks for, checked and
//! turned into the rows the database stores.

use vstd::prelude::*;

use crate::constant::{DEFAULT_PROJECT_RETENTION_COUNT, REGISTRY_PORT};
use crate::db::queries::container::{ContainerSpec, PortMapping};
use crate::db::queries::project::{
    EnvEntry, Framework, NewProject, Project, ProjectSourceKind, ProjectUpdate,
};
use crate::text::{
    clone_opt, concat2, concat3, decimal, join_lines, join_with_newlines, opt_view, string_views,
    u64_to_decimal,
};
use crate::utils::ids::new_id_pair;
use crate::utils::api_response::{ApiError, ApiErrorKind};

verus! {

/// The retention count of a project whose request names none.
pub fn default_retention_count() -> (r: i64)
    ensures
        r == DEFAULT_PROJECT_RETENTION_COUNT,
{
    DEFAULT_PROJECT_RETENTION_COUNT
}

/// An environment variable of a request, taken from a parameter.
#[derive(Debug)]
pub struct EnvRef {
    pub env_name: String,
    pub parameter_key: String,
}

/// Where a new project's image comes from, with the fields of that source.
#[derive(Debug)]
pub enum ProjectSource {
    DockerImage { image: String },
    GitRepo {
        repo_url: String,
        branch: String,
        framework: Framework,
        root_dir: Option<String>,
        install_command: Option<String>,
        build_command: Option<String>,
        output_directory: Option<String>,
        start_command: Option<String>,
    },
    LocalRepo {
        framework: Framework,
        root_dir: Option<String>,
        install_command: Option<String>,
        build_command: Option<String>,
        output_directory: Option<String>,
        start_command: Option<String>,
    },
}

/// A request to create a project.
#[derive(Debug)]
pub struct CreateProjectRequest {
    pub name: String,
    pub source: ProjectSource,
    pub env: Option<Vec<EnvRef>>,
    pub port: Option<u16>,
    pub container_port: Option<u16>,
    pub retention_count: i64,
}

/// The answer to a create request.
#[derive(Debug)]
pub struct ProjectResponse {
    pub id: String,
    pub name: String,
    pub container_id: String,
}

/// A project with its environment.
#[derive(Debug)]
pub struct ProjectDetail {
    pub project: Project,
    pub env: Vec<EnvEntry>,
}

/// A request to change a project; every field left out keeps its value.
#[derive(Debug)]
pub struct UpdateProjectRequest {
    pub name: Option<String>,
    pub framework: Option<Framework>,
    pub root_dir: Option<String>,
    pub install_command: Option<String>,
    pub build_command: Option<String>,
    pub output_directory: Option<String>,
    pub start_command: Option<String>,
    pub port: Option<u16>,
    pub container_port: Option<u16>,
    pub retention_count: Option<i64>,
    pub env: Option<Vec<EnvRef>>,
}

/// A request to deploy a project; repository projects name the image tag.
#[derive(Debug)]
pub struct DeployRequest {
    pub tag: Option<String>,
}

/// The answer to a deploy request.
#[derive(Debug)]
pub struct DeployResponse {
    pub revision: i64,
}

/// One revision of a project's container.
#[derive(Debug)]
pub struct RevisionResponse {
    pub revision: i64,
    pub spec: ContainerSpec,
    pub created_at: i64,
}

// ----- sources and frameworks -----
pub open spec fn source_kind(s: ProjectSource) -> ProjectSourceKind {
    match s {
        ProjectSource::DockerImage { .. } => ProjectSourceKind::DockerImage,
        ProjectSource::GitRepo { .. } => ProjectSourceKind::GitRepo,
        ProjectSource::LocalRepo { .. } => ProjectSourceKind::LocalRepo,
    }
}

pub open spec fn source_framework(s: ProjectSource) -> Option<Framework> {
    match s {
        ProjectSource::DockerImage { .. } => None,
        ProjectSource::GitRepo { framework, .. } => Some(framework),
        ProjectSource::LocalRepo { framework, .. } => Some(framework),
    }
}

impl ProjectSource {
    /// The kind of this source.
    pub fn kind(&self) -> (k: ProjectSourceKind)
        ensures
            k == source_kind(*self),
    {
        match self {
            ProjectSource::DockerImage { .. } => ProjectSourceKind::DockerImage,
            ProjectSource::GitRepo { .. } => ProjectSourceKind::GitRepo,
            ProjectSource::LocalRepo { .. } => ProjectSourceKind::LocalRepo,
        }
    }

    /// The framework of a repository source; an image has none.
    pub fn framework(&self) -> (f: Option<Framework>)
        ensures
            f == source_framework(*self),
    {
        match self {
            ProjectSource::DockerImage { .. } => None,
            ProjectSource::GitRepo { framework, .. } => Some(*framework),
            ProjectSource::LocalRepo { framework, .. } => Some(*framework),
        }
    }
}

/// The name a framework is shown by in messages.
pub open spec fn framework_name(f: Framework) -> Seq<char> {
    match f {
        Framework::Dockerfile => "Dockerfile"@,
        Framework::React => "React"@,
        Framework::Svelte => "Svelte"@,
        Framework::Express => "Express"@,
        Framework::Static => "Static"@,
    }
}

/// The name a framework is shown by in messages.
pub fn framework_display(f: Framework) -> (s: &'static str)
    ensures
        s@ == framework_name(f),
{
    match f {
        Framework::Dockerfile => "Dockerfile",
        Framework::React => "React",
        Framework::Svelte => "Svelte",
        Framework::Express => "Express",
        Framework::Static => "Static",
    }
}

/// The message for a field that a framework does not take.
pub open spec fn not_valid_message(field: Seq<char>, f: Framework) -> Seq<char> {
    field + " is not valid for framework "@ + framework_name(f)
}

/// Refuses `value` when it is set: `field` is not valid for `framework`.
pub fn reject_if_set<T>(field: &str, value: &Option<T>, framework: Framework) -> (r: Result<
    (),
    ApiError,
>)
    ensures
        r is Ok <==> value is None,
        r matches Err(e) ==> e.spec_view() == (ApiErrorKind::BadRequest, not_valid_message(
            field@,
            framework,
        )),
{
    if value.is_some() {
        return Err(ApiError::bad_request(concat3(field, " is not valid for framework ", framework_display(framework))));
    }
    Ok(())
}

/// The first field, among those set, that `f` does not take, in the order
/// install, build, output, start.
pub open spec fn framework_field_error(
    f: Framework,
    install: bool,
    build: bool,
    output: bool,
    start: bool,
) -> Option<Seq<char>> {
    match f {
        Framework::Dockerfile => if install {
            Some("install_command"@)
        } else if build {
            Some("build_command"@)
        } else if output {
            Some("output_directory"@)
        } else if start {
            Some("start_command"@)
        } else {
            None
        },
        Framework::React | Framework::Svelte => if start {
            Some("start_command"@)
        } else {
            None
        },
        Framework::Static => if install {
            Some("install_command"@)
        } else if build {
            Some("build_command"@)
        } else if start {
            Some("start_command"@)
        } else {
            None
        },
        Framework::Express => if output {
            Some("output_directory"@)
        } else {
            None
        },
    }
}

/// The error for a set of command fields under a framework, if any.
pub open spec fn fields_error(
    f: Framework,
    install: bool,
    build: bool,
    output: bool,
    start: bool,
) -> Option<Seq<char>> {
    match framework_field_error(f, install, build, output, start) {
        Some(field) => Some(not_valid_message(field, f)),
        None => None,
    }
}

/// The check result as plain values: `None` when accepted, else the error.
pub open spec fn result_view(r: Result<(), ApiError>) -> Option<(ApiErrorKind, Seq<char>)> {
    match r {
        Ok(_) => None,
        Err(e) => Some(e.spec_view()),
    }
}

pub open spec fn bad_request_of(m: Option<Seq<char>>) -> Option<(ApiErrorKind, Seq<char>)> {
    match m {
        Some(t) => Some((ApiErrorKind::BadRequest, t)),
        None => None,
    }
}

/// Each framework takes only some of the command fields: Dockerfile none,
/// React and Svelte all but the start command, Static only the output
/// directory, Express all but the output directory.
pub fn validate_framework_fields(
    framework: Framework,
    install_command: &Option<String>,
    build_command: &Option<String>,
    output_directory: &Option<String>,
    start_command: &Option<String>,
) -> (r: Result<(), ApiError>)
    ensures
        result_view(r) == bad_request_of(
            fields_error(
                framework,
                install_command is Some,
                build_command is Some,
                output_directory is Some,
                start_command is Some,
            ),
        ),
{
    match framework {
        Framework::Dockerfile => {
            reject_if_set("install_command", install_command, framework)?;
            reject_if_set("build_command", build_command, framework)?;
            reject_if_set("output_directory", output_directory, framework)?;
            reject_if_set("start_command", start_command, framework)?;
        },
        Framework::React | Framework::Svelte => {
            reject_if_set("start_command", start_command, framework)?;
        },
        Framework::Static => {
            reject_if_set("install_command", install_command, framework)?;
            reject_if_set("build_command", build_command, framework)?;
            reject_if_set("start_command", start_command, framework)?;
        },
        Framework::Express => {
            reject_if_set("output_directory", output_directory, framework)?;
        },
    }
    Ok(())
}

/// The error for a source's command fields, if any.
pub open spec fn source_error(s: ProjectSource) -> Option<Seq<char>> {
    match s {
        ProjectSource::DockerImage { .. } => None,
        ProjectSource::GitRepo {
            framework,
            install_command,
            build_command,
            output_directory,
            start_command,
            ..
        } => fields_error(
            framework,
            install_command is Some,
            build_command is Some,
            output_directory is Some,
            start_command is Some,
        ),
        ProjectSource::LocalRepo {
            framework,
            install_command,
            build_command,
            output_directory,
            start_command,
            ..
        } => fields_error(
            framework,
            install_command is Some,
            build_command is Some,
            output_directory is Some,
            start_command is Some,
        ),
    }
}

/// An image source takes any fields; a repository source only those its
/// framework takes.
pub fn validate_source(source: &ProjectSource) -> (r: Result<(), ApiError>)
    ensures
        result_view(r) == bad_request_of(source_error(*source)),
{
    match source {
        ProjectSource::DockerImage { .. } => Ok(()),
        ProjectSource::GitRepo {
            framework,
            install_command,
            build_command,
            output_directory,
            start_command,
            ..
        } => validate_framework_fields(
            *framework,
            install_command,
            build_command,
            output_directory,
            start_command,
        ),
        ProjectSource::LocalRepo {
            framework,
            install_command,
            build_command,
            output_directory,
            start_command,
            ..
        } => validate_framework_fields(
            *framework,
            install_command,
            build_command,
            output_directory,
            start_command,
        ),
    }
}

} // verus!

verus! {

// ----- the request checks the request type declares -----
/// The lines describing each field of a create request that is out of range,
/// in the order the fields are declared.
pub open spec fn create_field_errors(b: CreateProjectRequest) -> Seq<Seq<char>> {
    (if b.name@.len() == 0 {
        seq!["name: name must not be empty"@]
    } else {
        Seq::empty()
    }) + (if b.port == Some(0u16) {
        seq!["port: port must be a valid TCP port"@]
    } else {
        Seq::empty()
    }) + (if b.container_port == Some(0u16) {
        seq!["container_port: container_port must be a valid TCP port"@]
    } else {
        Seq::empty()
    }) + (if b.retention_count < 0 {
        seq!["retention_count: retention_count must not be negative"@]
    } else {
        Seq::empty()
    })
}

/// The lines describing each field of an update request that is out of
/// range, in the order the fields are declared.
pub open spec fn update_field_errors(b: UpdateProjectRequest) -> Seq<Seq<char>> {
    (if b.name is Some && b.name->0@.len() == 0 {
        seq!["name: name must not be empty"@]
    } else {
        Seq::empty()
    }) + (if b.port == Some(0u16) {
        seq!["port: port must be a valid TCP port"@]
    } else {
        Seq::empty()
    }) + (if b.container_port == Some(0u16) {
        seq!["container_port: container_port must be a valid TCP port"@]
    } else {
        Seq::empty()
    }) + (if b.retention_count is Some && b.retention_count->0 < 0 {
        seq!["retention_count: retention_count must not be negative"@]
    } else {
        Seq::empty()
    })
}

/// The error for a list of field errors: none when the list is empty, else
/// a bad request listing them, one per line.
pub open spec fn field_errors_result(lines: Seq<Seq<char>>) -> Option<(ApiErrorKind, Seq<char>)> {
    if lines.len() == 0 {
        None
    } else {
        Some((ApiErrorKind::BadRequest, join_lines(lines)))
    }
}

fn is_zero_port(p: Option<u16>) -> (b: bool)
    ensures
        b == (p == Some(0u16)),
{
    match p {
        Some(v) => v == 0,
        None => false,
    }
}

fn push_line(v: &mut Vec<String>, line: &str)
    ensures
        string_views(final(v)@) == string_views(old(v)@) + seq![line@],
{
    let ghost before = string_views(v@);
    v.push(String::from_str(line));
    assert(string_views(v@) =~= before + seq![line@]);
}

fn field_errors_to_result(lines: &Vec<String>) -> (r: Result<(), ApiError>)
    ensures
        result_view(r) == field_errors_result(string_views(lines@)),
{
    if lines.len() == 0 {
        Ok(())
    } else {
        Err(ApiError::bad_request(join_with_newlines(lines)))
    }
}

/// The range checks of a create request: a non-empty name, ports other than
/// 0, and a retention count that is not negative.
pub fn validate_create_request(body: &CreateProjectRequest) -> (r: Result<(), ApiError>)
    ensures
        result_view(r) == field_errors_result(create_field_errors(*body)),
{
    let mut lines: Vec<String> = Vec::new();
    if body.name.as_str().is_empty() {
        push_line(&mut lines, "name: name must not be empty");
    }
    if is_zero_port(body.port) {
        push_line(&mut lines, "port: port must be a valid TCP port");
    }
    if is_zero_port(body.container_port) {
        push_line(&mut lines, "container_port: container_port must be a valid TCP port");
    }
    if body.retention_count < 0 {
        push_line(&mut lines, "retention_count: retention_count must not be negative");
    }
    assert(string_views(lines@) =~= create_field_errors(*body));
    field_errors_to_result(&lines)
}

/// The range checks of an update request: a name, when given, that is not
/// empty, ports other than 0, and a retention count that is not negative.
pub fn validate_update_request(body: &UpdateProjectRequest) -> (r: Result<(), ApiError>)
    ensures
        result_view(r) == field_errors_result(update_field_errors(*body)),
{
    let mut lines: Vec<String> = Vec::new();
    match &body.name {
        Some(n) => {
            if n.as_str().is_empty() {
                push_line(&mut lines, "name: name must not be empty");
            }
        },
        None => {},
    }
    if is_zero_port(body.port) {
        push_line(&mut lines, "port: port must be a valid TCP port");
    }
    if is_zero_port(body.container_port) {
        push_line(&mut lines, "container_port: container_port must be a valid TCP port");
    }
    match body.retention_count {
        Some(rc) => {
            if rc < 0 {
                push_line(&mut lines, "retention_count: retention_count must not be negative");
            }
        },
        None => {},
    }
    assert(string_views(lines@) =~= update_field_errors(*body));
    field_errors_to_result(&lines)
}

// ----- creating a project -----
/// Why a create request is refused, if it is: out-of-range fields first,
/// then fields the framework does not take, then an environment for a
/// static site, then a host port without a container port.
pub open spec fn create_project_error(b: CreateProjectRequest) -> Option<(ApiErrorKind, Seq<char>)> {
    let fe = create_field_errors(b);
    if fe.len() > 0 {
        field_errors_result(fe)
    } else if source_error(b.source) is Some {
        bad_request_of(source_error(b.source))
    } else if source_framework(b.source) == Some(Framework::Static) && b.env is Some {
        Some((ApiErrorKind::BadRequest, not_valid_message("env"@, Framework::Static)))
    } else if b.port is Some && b.container_port is None {
        Some((ApiErrorKind::BadRequest, "container_port is required when port is set"@))
    } else {
        None
    }
}

/// The columns a source fills, as plain values.
pub struct SourceColumns {
    pub image: Option<Seq<char>>,
    pub repo_url: Option<Seq<char>>,
    pub branch: Option<Seq<char>>,
    pub framework: Option<Framework>,
    pub root_dir: Option<Seq<char>>,
    pub install_command: Option<Seq<char>>,
    pub build_command: Option<Seq<char>>,
    pub output_directory: Option<Seq<char>>,
    pub start_command: Option<Seq<char>>,
}

/// An image source fills only the image; a repository source its
/// framework and commands, and a Git source its URL and branch too.
pub open spec fn source_columns(s: ProjectSource) -> SourceColumns {
    match s {
        ProjectSource::DockerImage { image } => SourceColumns {
            image: Some(image@),
            repo_url: None,
            branch: None,
            framework: None,
            root_dir: None,
            install_command: None,
            build_command: None,
            output_directory: None,
            start_command: None,
        },
        ProjectSource::GitRepo {
            repo_url,
            branch,
            framework,
            root_dir,
            install_command,
            build_command,
            output_directory,
            start_command,
        } => SourceColumns {
            image: None,
            repo_url: Some(repo_url@),
            branch: Some(branch@),
            framework: Some(framework),
            root_dir: opt_view(root_dir),
            install_command: opt_view(install_command),
            build_command: opt_view(build_command),
            output_directory: opt_view(output_directory),
            start_command: opt_view(start_command),
        },
        ProjectSource::LocalRepo {
            framework,
            root_dir,
            install_command,
            build_command,
            output_directory,
            start_command,
        } => SourceColumns {
            image: None,
            repo_url: None,
            branch: None,
            framework: Some(framework),
            root_dir: opt_view(root_dir),
            install_command: opt_view(install_command),
            build_command: opt_view(build_command),
            output_directory: opt_view(output_directory),
            start_command: opt_view(start_command),
        },
    }
}

/// The source columns of a row about to be inserted.
pub open spec fn new_project_columns(p: NewProject) -> SourceColumns {
    SourceColumns {
        image: opt_view(p.image),
        repo_url: opt_view(p.repo_url),
        branch: opt_view(p.branch),
        framework: p.framework,
        root_dir: opt_view(p.root_dir),
        install_command: opt_view(p.install_command),
        build_command: opt_view(p.build_command),
        output_directory: opt_view(p.output_directory),
        start_command: opt_view(p.start_command),
    }
}

/// A port of a request as stored.
pub open spec fn port_column(p: Option<u16>) -> Option<i64> {
    match p {
        Some(v) => Some(v as i64),
        None => None,
    }
}

fn port_to_column(p: Option<u16>) -> (r: Option<i64>)
    ensures
        r == port_column(p),
{
    match p {
        Some(v) => Some(v as i64),
        None => None,
    }
}

/// The environment of a request as (name, parameter key) pairs.
pub open spec fn env_refs_view(v: Seq<EnvRef>) -> Seq<(Seq<char>, Seq<char>)> {
    v.map_values(|e: EnvRef| (e.env_name@, e.parameter_key@))
}

/// The environment of a project as (name, parameter key) pairs.
pub open spec fn env_entries_view(v: Seq<EnvEntry>) -> Seq<(Seq<char>, Seq<char>)> {
    v.map_values(|e: EnvEntry| (e.env_name@, e.parameter_key@))
}

/// The environment entries a request names.
pub fn env_entries(refs: &Vec<EnvRef>) -> (r: Vec<EnvEntry>)
    ensures
        env_entries_view(r@) == env_refs_view(refs@),
{
    let mut r: Vec<EnvEntry> = Vec::new();
    let mut i: usize = 0;
    while i < refs.len()
        invariant
            i <= refs.len(),
            r@.len() == i,
            env_entries_view(r@) == env_refs_view(refs@).take(i as int),
        decreases refs.len() - i,
    {
        let ghost before = env_entries_view(r@);
        let env_name = refs[i].env_name.clone();
        let parameter_key = refs[i].parameter_key.clone();
        assert(env_name@ == refs@[i as int].env_name@);
        assert(parameter_key@ == refs@[i as int].parameter_key@);
        r.push(EnvEntry { env_name, parameter_key });
        assert(env_entries_view(r@)[i as int] == env_refs_view(refs@)[i as int]);
        assert(env_entries_view(r@) =~= env_refs_view(refs@).take(i + 1));
        i = i + 1;
    }
    assert(env_refs_view(refs@).take(refs.len() as int) =~= env_refs_view(refs@));
    r
}

/// Everything a create request inserts: the project, the identifier of its
/// container, and its environment.
#[derive(Debug)]
pub struct ProjectCreation {
    pub project: NewProject,
    pub container_id: String,
    pub env: Vec<EnvEntry>,
}

/// Whether `c` holds what `b` asks for, under the identifiers
/// `project_id` and `container_id`.
pub open spec fn creation_from(
    c: ProjectCreation,
    b: CreateProjectRequest,
    project_id: Seq<char>,
    container_id: Seq<char>,
) -> bool {
    &&& c.project.id@ == project_id
    &&& c.container_id@ == container_id
    &&& c.project.name@ == b.name@
    &&& c.project.source_kind == source_kind(b.source)
    &&& new_project_columns(c.project) == source_columns(b.source)
    &&& c.project.port == port_column(b.port)
    &&& c.project.container_port == port_column(b.container_port)
    &&& c.project.retention_count == b.retention_count
    &&& env_entries_view(c.env@) == match b.env {
        Some(refs) => env_refs_view(refs@),
        None => Seq::empty(),
    }
}

/// Whether `c` holds what `b` asks for, under two distinct identifiers of
/// 36 characters.
pub open spec fn creation_fits(c: ProjectCreation, b: CreateProjectRequest) -> bool {
    &&& creation_from(c, b, c.project.id@, c.container_id@)
    &&& c.project.id@.len() == 36
    &&& c.container_id@.len() == 36
    &&& c.project.id@ != c.container_id@
}

/// The text of the error when no fresh identifiers could be drawn.
pub open spec fn identifier_failure() -> Seq<char> {
    "failed to generate fresh identifiers"@
}

fn fill_source(p: &mut NewProject, source: &ProjectSource)
    ensures
        new_project_columns(*final(p)) == source_columns(*source),
        final(p).id == old(p).id,
        final(p).name == old(p).name,
        final(p).source_kind == old(p).source_kind,
        final(p).port == old(p).port,
        final(p).container_port == old(p).container_port,
        final(p).retention_count == old(p).retention_count,
{
    match source {
        ProjectSource::DockerImage { image } => {
            p.image = Some(image.clone());
            p.repo_url = None;
            p.branch = None;
            p.framework = None;
            p.root_dir = None;
            p.install_command = None;
            p.build_command = None;
            p.output_directory = None;
            p.start_command = None;
        },
        ProjectSource::GitRepo {
            repo_url,
            branch,
            framework,
            root_dir,
            install_command,
            build_command,
            output_directory,
            start_command,
        } => {
            p.image = None;
            p.repo_url = Some(repo_url.clone());
            p.branch = Some(branch.clone());
            p.framework = Some(*framework);
            p.root_dir = clone_opt(root_dir);
            p.install_command = clone_opt(install_command);
            p.build_command = clone_opt(build_command);
            p.output_directory = clone_opt(output_directory);
            p.start_command = clone_opt(start_command);
        },
        ProjectSource::LocalRepo {
            framework,
            root_dir,
            install_command,
            build_command,
            output_directory,
            start_command,
        } => {
            p.image = None;
            p.repo_url = None;
            p.branch = None;
            p.framework = Some(*framework);
            p.root_dir = clone_opt(root_dir);
            p.install_command = clone_opt(install_command);
            p.build_command = clone_opt(build_command);
            p.output_directory = clone_opt(output_directory);
            p.start_command = clone_opt(start_command);
        },
    }
}

/// The rows of an accepted create request under the identifiers
/// `project_id` and `container_id`.
pub fn project_creation(body: &CreateProjectRequest, project_id: String, container_id: String) -> (c:
    ProjectCreation)
    ensures
        creation_from(c, *body, project_id@, container_id@),
{
    let mut project = NewProject {
        id: project_id,
        name: body.name.clone(),
        source_kind: body.source.kind(),
        image: None,
        repo_url: None,
        branch: None,
        framework: None,
        root_dir: None,
        install_command: None,
        build_command: None,
        output_directory: None,
        start_command: None,
        port: port_to_column(body.port),
        container_port: port_to_column(body.container_port),
        retention_count: body.retention_count,
    };
    fill_source(&mut project, &body.source);
    let env = match &body.env {
        Some(refs) => env_entries(refs),
        None => {
            let v: Vec<EnvEntry> = Vec::new();
            assert(env_entries_view(v@) =~= Seq::empty());
            v
        },
    };
    ProjectCreation { project, container_id, env }
}

/// Checks a create request and, when it is accepted, builds its rows
/// under two fresh, distinct identifiers.  A refused request gets its
/// error; an accepted one fails only when the clock or the source of
/// randomness cannot be read.
pub fn prepare_create_project(body: &CreateProjectRequest) -> (r: Result<ProjectCreation, ApiError>)
    ensures
        match r {
            Ok(c) => create_project_error(*body) is None && creation_fits(c, *body),
            Err(e) => match create_project_error(*body) {
                Some(v) => e.spec_view() == v,
                None => e.spec_view() == (ApiErrorKind::Internal, identifier_failure()),
            },
        },
{
    validate_create_request(body)?;
    validate_source(&body.source)?;
    if body.source.framework() == Some(Framework::Static) {
        reject_if_set("env", &body.env, Framework::Static)?;
    }
    if body.port.is_some() && body.container_port.is_none() {
        return Err(ApiError::bad_request(String::from_str("container_port is required when port is set")));
    }
    match new_id_pair() {
        Some((project_id, container_id)) => Ok(project_creation(body, project_id, container_id)),
        None => Err(ApiError::internal(String::from_str("failed to generate fresh identifiers"))),
    }
}

/// The answer to an accepted create request.
pub fn creation_response(c: &ProjectCreation) -> (r: ProjectResponse)
    ensures
        r.id@ == c.project.id@,
        r.name@ == c.project.name@,
        r.container_id@ == c.container_id@,
{
    ProjectResponse {
        id: c.project.id.clone(),
        name: c.project.name.clone(),
        container_id: c.container_id.clone(),
    }
}

/// The message when a project of that name exists already.
pub fn project_exists_error(name: &str) -> (e: ApiError)
    ensures
        e.spec_view() == (ApiErrorKind::Conflict, "project "@ + name@ + " already exists"@),
{
    ApiError::conflict(concat3("project ", name, " already exists"))
}

/// The message when no project has that identifier.
pub fn project_not_found(id: &str) -> (e: ApiError)
    ensures
        e.spec_view() == (ApiErrorKind::NotFound, "project "@ + id@ + " not found"@),
{
    ApiError::not_found(concat3("project ", id, " not found"))
}

} // verus!

verus! {

// ----- updating a project -----
/// The columns an update rewrites, as plain values.
pub struct UpdateColumns {
    pub name: Seq<char>,
    pub framework: Option<Framework>,
    pub root_dir: Option<Seq<char>>,
    pub install_command: Option<Seq<char>>,
    pub build_command: Option<Seq<char>>,
    pub output_directory: Option<Seq<char>>,
    pub start_command: Option<Seq<char>>,
    pub port: Option<i64>,
    pub container_port: Option<i64>,
    pub retention_count: i64,
}

/// `a` when given, else `b`.
pub open spec fn or_else<T>(a: Option<T>, b: Option<T>) -> Option<T> {
    match a {
        Some(x) => Some(x),
        None => b,
    }
}

/// The requested port when given, else the stored one.
pub open spec fn merged_port(requested: Option<u16>, stored: Option<i64>) -> Option<i64> {
    match requested {
        Some(p) => Some(p as i64),
        None => stored,
    }
}

/// The columns of a stored project that an update rewrites.
pub open spec fn project_columns(e: Project) -> UpdateColumns {
    UpdateColumns {
        name: e.name@,
        framework: e.framework,
        root_dir: opt_view(e.root_dir),
        install_command: opt_view(e.install_command),
        build_command: opt_view(e.build_command),
        output_directory: opt_view(e.output_directory),
        start_command: opt_view(e.start_command),
        port: e.port,
        container_port: e.container_port,
        retention_count: e.retention_count,
    }
}

/// Columns `c` after an update `b`: each field the request gives replaces
/// the stored one; the others keep their value.
pub open spec fn merge_columns(c: UpdateColumns, b: UpdateProjectRequest) -> UpdateColumns {
    UpdateColumns {
        name: match b.name {
            Some(n) => n@,
            None => c.name,
        },
        framework: or_else(b.framework, c.framework),
        root_dir: or_else(opt_view(b.root_dir), c.root_dir),
        install_command: or_else(opt_view(b.install_command), c.install_command),
        build_command: or_else(opt_view(b.build_command), c.build_command),
        output_directory: or_else(opt_view(b.output_directory), c.output_directory),
        start_command: or_else(opt_view(b.start_command), c.start_command),
        port: merged_port(b.port, c.port),
        container_port: merged_port(b.container_port, c.container_port),
        retention_count: match b.retention_count {
            Some(r) => r,
            None => c.retention_count,
        },
    }
}

/// The columns of `e` after update `b`.
pub open spec fn merged_columns(e: Project, b: UpdateProjectRequest) -> UpdateColumns {
    merge_columns(project_columns(e), b)
}

/// The columns an update row holds.
pub open spec fn update_columns(u: ProjectUpdate) -> UpdateColumns {
    UpdateColumns {
        name: u.name@,
        framework: u.framework,
        root_dir: opt_view(u.root_dir),
        install_command: opt_view(u.install_command),
        build_command: opt_view(u.build_command),
        output_directory: opt_view(u.output_directory),
        start_command: opt_view(u.start_command),
        port: u.port,
        container_port: u.container_port,
        retention_count: u.retention_count,
    }
}

/// Why an update is refused once merged, if it is: a host port without a
/// container port, then fields the framework does not take, then an
/// environment for a static site.
pub open spec fn update_project_error(e: Project, b: UpdateProjectRequest) -> Option<Seq<char>> {
    let m = merged_columns(e, b);
    if m.port is Some && m.container_port is None {
        Some("container_port is required when port is set"@)
    } else {
        match m.framework {
            Some(f) => {
                let fe = fields_error(
                    f,
                    m.install_command is Some,
                    m.build_command is Some,
                    m.output_directory is Some,
                    m.start_command is Some,
                );
                if fe is Some {
                    fe
                } else if f == Framework::Static && b.env is Some {
                    Some(not_valid_message("env"@, Framework::Static))
                } else {
                    None
                }
            },
            None => None,
        }
    }
}

fn or_clone(a: &Option<String>, b: &Option<String>) -> (r: Option<String>)
    ensures
        opt_view(r) == or_else(opt_view(*a), opt_view(*b)),
{
    match a {
        Some(x) => Some(x.clone()),
        None => clone_opt(b),
    }
}

fn merge_port(requested: Option<u16>, stored: Option<i64>) -> (r: Option<i64>)
    ensures
        r == merged_port(requested, stored),
{
    match requested {
        Some(p) => Some(p as i64),
        None => stored,
    }
}

/// Merges an update request into the stored project and checks the
/// result.  The range checks of the request itself are
/// [`validate_update_request`]'s.
pub fn merge_project_update(existing: &Project, body: &UpdateProjectRequest) -> (r: Result<
    ProjectUpdate,
    ApiError,
>)
    ensures
        match r {
            Ok(u) => update_project_error(*existing, *body) is None && update_columns(u)
                == merged_columns(*existing, *body),
            Err(e) => bad_request_of(update_project_error(*existing, *body)) == Some(
                e.spec_view(),
            ),
        },
{
    let name = match &body.name {
        Some(n) => n.clone(),
        None => existing.name.clone(),
    };
    let framework = match body.framework {
        Some(f) => Some(f),
        None => existing.framework,
    };
    let root_dir = or_clone(&body.root_dir, &existing.root_dir);
    let install_command = or_clone(&body.install_command, &existing.install_command);
    let build_command = or_clone(&body.build_command, &existing.build_command);
    let output_directory = or_clone(&body.output_directory, &existing.output_directory);
    let start_command = or_clone(&body.start_command, &existing.start_command);
    let port = merge_port(body.port, existing.port);
    let container_port = merge_port(body.container_port, existing.container_port);
    let retention_count = match body.retention_count {
        Some(r) => r,
        None => existing.retention_count,
    };
    if port.is_some() && container_port.is_none() {
        return Err(ApiError::bad_request(String::from_str("container_port is required when port is set")));
    }
    if let Some(f) = framework {
        validate_framework_fields(
            f,
            &install_command,
            &build_command,
            &output_directory,
            &start_command,
        )?;
        if f == Framework::Static {
            reject_if_set("env", &body.env, Framework::Static)?;
        }
    }
    Ok(
        ProjectUpdate {
            name,
            framework,
            root_dir,
            install_command,
            build_command,
            output_directory,
            start_command,
            port,
            container_port,
            retention_count,
        },
    )
}

// ----- deploying a project -----
/// The image a deploy runs: an image project's own image, or, for a
/// repository project, the tag the request names in the local registry.
pub open spec fn deploy_image_result(p: Project, tag: Option<Seq<char>>) -> Result<
    Seq<char>,
    (ApiErrorKind, Seq<char>),
> {
    match p.source_kind {
        ProjectSourceKind::DockerImage => match p.image {
            Some(i) => Ok(i@),
            None => Err((ApiErrorKind::Internal, "docker_image project missing image"@)),
        },
        _ => match tag {
            None => Err((ApiErrorKind::BadRequest, "tag is required for this project's source kind"@)),
            Some(t) => Ok(
                "localhost:"@ + decimal(REGISTRY_PORT as nat) + "/"@ + p.name@ + ":"@ + t,
            ),
        },
    }
}

/// The image a deploy of `project` runs.
pub fn deploy_image(project: &Project, tag: &Option<String>) -> (r: Result<String, ApiError>)
    ensures
        match r {
            Ok(i) => deploy_image_result(*project, opt_view(*tag)) == Ok::<
                Seq<char>,
                (ApiErrorKind, Seq<char>),
            >(i@),
            Err(e) => deploy_image_result(*project, opt_view(*tag)) == Err::<
                Seq<char>,
                (ApiErrorKind, Seq<char>),
            >(e.spec_view()),
        },
{
    match project.source_kind {
        ProjectSourceKind::DockerImage => match &project.image {
            Some(i) => Ok(i.clone()),
            None => Err(ApiError::internal(String::from_str("docker_image project missing image"))),
        },
        _ => match tag {
            None => Err(ApiError::bad_request(String::from_str("tag is required for this project's source kind"))),
            Some(t) => {
                let mut s = String::from_str("localhost:");
                let port = u64_to_decimal(REGISTRY_PORT as u64);
                s.append(port.as_str());
                s.append("/");
                s.append(project.name.as_str());
                s.append(":");
                s.append(t.as_str());
                Ok(s)
            },
        },
    }
}

/// The port mapping a deploy publishes: the stored ports, as 16-bit ports,
/// when the project has a container port.
pub open spec fn deploy_port_spec(p: Project) -> Option<PortMapping> {
    match p.container_port {
        Some(cp) => Some(
            PortMapping {
                host_port: match p.port {
                    Some(h) => Some(h as u16),
                    None => None,
                },
                container_port: cp as u16,
            },
        ),
        None => None,
    }
}

/// The port mapping a deploy of `project` publishes.
pub fn deploy_port(project: &Project) -> (r: Option<PortMapping>)
    ensures
        r == deploy_port_spec(*project),
{
    match project.container_port {
        Some(cp) => Some(
            PortMapping {
                host_port: match project.port {
                    Some(h) => Some(h as u16),
                    None => None,
                },
                container_port: cp as u16,
            },
        ),
        None => None,
    }
}

/// The revision number a deploy records after `latest`.
pub fn next_revision(latest: i64) -> (r: i64)
    requires
        latest < i64::MAX,
    ensures
        r == latest + 1,
{
    latest + 1
}

/// The message when a project has no container.
pub fn missing_container_error(id: &str) -> (e: ApiError)
    ensures
        e.spec_view() == (ApiErrorKind::Internal, "project "@ + id@ + " has no container"@),
{
    ApiError::internal(concat3("project ", id, " has no container"))
}

/// The message when a project disappears while it is updated.
pub fn vanished_after_update_error(id: &str) -> (e: ApiError)
    ensures
        e.spec_view() == (ApiErrorKind::Internal, "project "@ + id@ + " vanished after update"@),
{
    ApiError::internal(concat3("project ", id, " vanished after update"))
}

} // verus!

verus! {

/// An update that names no field leaves every column as it was.
pub proof fn law_empty_update_keeps_columns(c: UpdateColumns, b: UpdateProjectRequest)
    requires
        b.name is None,
        b.framework is None,
        b.root_dir is None,
        b.install_command is None,
        b.build_command is None,
        b.output_directory is None,
        b.start_command is None,
        b.port is None,
        b.container_port is None,
        b.retention_count is None,
    ensures
        merge_columns(c, b) == c,
{
}

/// Applying the same update twice gives what applying it once gives.
pub proof fn law_update_is_idempotent(c: UpdateColumns, b: UpdateProjectRequest)
    ensures
        merge_columns(merge_columns(c, b), b) == merge_columns(c, b),
{
}

/// An accepted update leaves the project consistent: a host port comes
/// with a container port, and the framework takes every command field set.
pub proof fn law_accepted_update_is_consistent(e: Project, b: UpdateProjectRequest)
    requires
        update_project_error(e, b) is None,
    ensures
        ({
            let m = merged_columns(e, b);
            &&& m.port is Some ==> m.container_port is Some
            &&& m.framework matches Some(f) ==> fields_error(
                f,
                m.install_command is Some,
                m.build_command is Some,
                m.output_directory is Some,
                m.start_command is Some,
            ) is None
            &&& m.framework == Some(Framework::Static) ==> b.env is None
        }),
{
}

/// An accepted create request names a project, valid ports and retention,
/// command fields its framework takes, no environment for a static site,
/// and a container port whenever it publishes a host port.
pub proof fn law_accepted_create_is_consistent(b: CreateProjectRequest)
    requires
        create_project_error(b) is None,
    ensures
        b.name@.len() > 0,
        b.port != Some(0u16),
        b.container_port != Some(0u16),
        b.retention_count >= 0,
        source_error(b.source) is None,
        source_framework(b.source) == Some(Framework::Static) ==> b.env is None,
        b.port is Some ==> b.container_port is Some,
{
    let fe = create_field_errors(b);
    if b.name@.len() == 0 {
        assert(fe.len() > 0);
    }
    if b.port == Some(0u16) {
        assert(fe.len() > 0);
    }
    if b.container_port == Some(0u16) {
        assert(fe.len() > 0);
    }
    if b.retention_count < 0 {
        assert(fe.len() > 0);
    }
}

} // verus!

verus! {

/// Each framework refuses exactly the command fields it does not take,
/// naming the first of them in the order install, build, output, start:
/// Dockerfile takes none, React and Svelte all but the start command,
/// Static only the output directory, Express all but the output directory.
pub proof fn law_frameworks_refuse_exactly_their_fields(
    install: bool,
    build: bool,
    output: bool,
    start: bool,
)
    ensures
        fields_error(Framework::Express, install, build, output, start) is None <==> !output,
        output ==> fields_error(Framework::Express, install, build, output, start) == Some(
            "output_directory"@ + " is not valid for framework "@ + "Express"@,
        ),
        fields_error(Framework::React, install, build, output, start) is None <==> !start,
        start ==> fields_error(Framework::React, install, build, output, start) == Some(
            "start_command"@ + " is not valid for framework "@ + "React"@,
        ),
        fields_error(Framework::Svelte, install, build, output, start) is None <==> !start,
        start ==> fields_error(Framework::Svelte, install, build, output, start) == Some(
            "start_command"@ + " is not valid for framework "@ + "Svelte"@,
        ),
        fields_error(Framework::Static, install, build, output, start) is None <==> !install
            && !build && !start,
        install ==> fields_error(Framework::Static, install, build, output, start) == Some(
            "install_command"@ + " is not valid for framework "@ + "Static"@,
        ),
        !install && build ==> fields_error(Framework::Static, install, build, output, start)
            == Some("build_command"@ + " is not valid for framework "@ + "Static"@),
        !install && !build && start ==> fields_error(Framework::Static, install, build, output, start)
            == Some("start_command"@ + " is not valid for framework "@ + "Static"@),
        fields_error(Framework::Dockerfile, install, build, output, start) is None <==> !install
            && !build && !output && !start,
        install ==> fields_error(Framework::Dockerfile, install, build, output, start) == Some(
            "install_command"@ + " is not valid for framework "@ + "Dockerfile"@,
        ),
        !install && build ==> fields_error(Framework::Dockerfile, install, build, output, start)
            == Some("build_command"@ + " is not valid for framework "@ + "Dockerfile"@),
        !install && !build && output ==> fields_error(
            Framework::Dockerfile,
            install,
            build,
            output,
            start,
        ) == Some("output_directory"@ + " is not valid for framework "@ + "Dockerfile"@),
        !install && !build && !output && start ==> fields_error(
            Framework::Dockerfile,
            install,
            build,
            output,
            start,
        ) == Some("start_command"@ + " is not valid for framework "@ + "Dockerfile"@),
{
}

} // verus!

verus! {

/// What a deploy runs: an image project its stored image, whatever tag is
/// given; a repository project the image its build pushed to the local
/// registry, `localhost:5000/<name>:<tag>`, for which the tag is required.
pub proof fn law_deploy_image(p: Project, tag: Option<Seq<char>>)
    ensures
        p.source_kind == ProjectSourceKind::DockerImage && p.image is Some ==> deploy_image_result(
            p,
            tag,
        ) == Ok::<Seq<char>, (ApiErrorKind, Seq<char>)>(p.image->0@),
        p.source_kind != ProjectSourceKind::DockerImage ==> (deploy_image_result(p, tag) is Err
            <==> tag is None),
        p.source_kind != ProjectSourceKind::DockerImage && tag is Some ==> deploy_image_result(p, tag)
            == Ok::<Seq<char>, (ApiErrorKind, Seq<char>)>("localhost:5000/"@ + p.name@ + ":"@ + tag->0),
{
    reveal_strlit("localhost:5000/");
    reveal_strlit("localhost:");
    reveal_strlit("/");
    reveal_with_fuel(decimal, 5);
    assert(decimal(5000) =~= seq!['5', '0', '0', '0']);
    assert("localhost:5000/"@ =~= "localhost:"@ + decimal(REGISTRY_PORT as nat) + "/"@);
}

} // verus!

verus! {

/// A create request that breaks none of the rules is accepted: a name, no
/// port 0, a retention count that is not negative, no command field its
/// framework refuses, no environment for a static site, and a container
/// port wherever a host port is given.
pub proof fn law_valid_create_is_accepted(b: CreateProjectRequest)
    requires
        b.name@.len() > 0,
        b.port != Some(0u16),
        b.container_port != Some(0u16),
        b.retention_count >= 0,
        source_error(b.source) is None,
        !(source_framework(b.source) == Some(Framework::Static) && b.env is Some),
        !(b.port is Some && b.container_port is None),
    ensures
        create_project_error(b) is None,
{
    assert(create_field_errors(b) =~= Seq::<Seq<char>>::empty());
}

/// An image source never refuses a command field, since it has none; a
/// repository source refuses exactly what its framework refuses.
pub proof fn law_image_source_has_no_field_rules(image: String)
    ensures
        source_error(ProjectSource::DockerImage { image }) is None,
{
}

} // verus!

verus! {

/// A field an update gives replaces the stored one, and a field it leaves
/// out keeps the stored one; ports are stored as given.
pub proof fn law_update_takes_given_fields(c: UpdateColumns, b: UpdateProjectRequest)
    ensures
        ({
            let m = merge_columns(c, b);
            &&& m.name == (if b.name is Some { b.name->0@ } else { c.name })
            &&& m.framework == (if b.framework is Some { b.framework } else { c.framework })
            &&& m.root_dir == (if b.root_dir is Some { Some(b.root_dir->0@) } else { c.root_dir })
            &&& m.install_command == (if b.install_command is Some {
                Some(b.install_command->0@)
            } else {
                c.install_command
            })
            &&& m.build_command == (if b.build_command is Some {
                Some(b.build_command->0@)
            } else {
                c.build_command
            })
            &&& m.output_directory == (if b.output_directory is Some {
                Some(b.output_directory->0@)
            } else {
                c.output_directory
            })
            &&& m.start_command == (if b.start_command is Some {
                Some(b.start_command->0@)
            } else {
                c.start_command
            })
            &&& m.port == (if b.port is Some { Some(b.port->0 as i64) } else { c.port })
            &&& m.container_port == (if b.container_port is Some {
                Some(b.container_port->0 as i64)
            } else {
                c.container_port
            })
            &&& m.retention_count == (if b.retention_count is Some {
                b.retention_count->0
            } else {
                c.retention_count
            })
        }),
{
}

} // verus!
