pub mod container;
pub mod firewall;
pub mod package;
pub mod parameter;
pub mod project;
pub mod proxy;
pub mod route;
pub mod builds;
