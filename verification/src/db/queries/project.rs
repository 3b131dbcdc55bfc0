//! Rows of the `projects` and `project_env` tables.

use vstd::prelude::*;

verus! {

/// Where a project's image comes from.
#[derive(Debug, Clone, Copy, PartialEq, Eq, Structural)]
pub enum ProjectSourceKind {
    DockerImage,
    GitRepo,
    LocalRepo,
}

/// How a repository project is built.
#[derive(Debug, Clone, Copy, PartialEq, Eq, Structural)]
pub enum Framework {
    Dockerfile,
    React,
    Svelte,
    Express,
    Static,
}

/// A project.
#[derive(Debug)]
pub struct Project {
    pub id: String,
    pub name: String,
    pub source_kind: ProjectSourceKind,
    pub image: Option<String>,
    pub repo_url: Option<String>,
    pub branch: Option<String>,
    pub framework: Option<Framework>,
    pub root_dir: Option<String>,
    pub install_command: Option<String>,
    pub build_command: Option<String>,
    pub output_directory: Option<String>,
    pub start_command: Option<String>,
    pub port: Option<i64>,
    pub container_port: Option<i64>,
    pub retention_count: i64,
    pub created_at: i64,
    pub updated_at: i64,
}

/// The columns of a project about to be inserted.
#[derive(Debug)]
pub struct NewProject {
    pub id: String,
    pub name: String,
    pub source_kind: ProjectSourceKind,
    pub image: Option<String>,
    pub repo_url: Option<String>,
    pub branch: Option<String>,
    pub framework: Option<Framework>,
    pub root_dir: Option<String>,
    pub install_command: Option<String>,
    pub build_command: Option<String>,
    pub output_directory: Option<String>,
    pub start_command: Option<String>,
    pub port: Option<i64>,
    pub container_port: Option<i64>,
    pub retention_count: i64,
}

/// The columns of a project that an update rewrites.
#[derive(Debug)]
pub struct ProjectUpdate {
    pub name: String,
    pub framework: Option<Framework>,
    pub root_dir: Option<String>,
    pub install_command: Option<String>,
    pub build_command: Option<String>,
    pub output_directory: Option<String>,
    pub start_command: Option<String>,
    pub port: Option<i64>,
    pub container_port: Option<i64>,
    pub retention_count: i64,
}

/// An environment variable of a project, taken from a parameter.
#[derive(Debug)]
pub struct EnvEntry {
    pub env_name: String,
    pub parameter_key: String,
}

} // verus!
