//! Vulpecula: a single-host deployment manager.
//!
//! This crate holds the decision logic of the server: request validation,
//! the reconcilers' state machines, firewall and proxy configuration
//! planning, envelope encryption of secret parameters and the parsing of
//! `/etc/os-release`.  Everything that talks to the database, Docker, the
//! network or the file system lives in the application around it.

pub mod text;
pub mod utils;
pub mod config;
pub mod constant;
pub mod db;
pub mod handler;
pub mod infra;
