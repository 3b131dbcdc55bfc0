pub mod packages;
pub mod containers;
pub mod parameters;
pub mod firewall;
pub mod proxy;
