pub mod project;
pub mod parameter;
pub mod proxy;
pub mod container;
pub mod firewall;
pub mod health;
pub mod port;
pub mod route;
pub mod builds;
