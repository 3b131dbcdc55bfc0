pub mod backend;
pub mod iptables;
pub mod nftables;
pub mod reconciler;
