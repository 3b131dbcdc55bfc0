//! The `proxy_settings` row and the `proxy_dns_credentials` table.

use vstd::prelude::*;

verus! {

/// Whether the reverse proxy should run.
#[derive(Debug, Clone, Copy, PartialEq, Eq, Structural)]
pub enum DesiredState {
    Running,
    Stopped,
}

/// The state the proxy was last seen in.
#[derive(Debug, Clone, Copy, PartialEq, Eq, Structural)]
pub enum ProxyStatus {
    Pending,
    Starting,
    Running,
    Failed,
    Stopping,
    Stopped,
}

/// The DNS provider used for ACME DNS challenges.
#[derive(Debug, Clone, Copy, PartialEq, Eq, Structural)]
pub enum DnsProvider {
    Cloudflare,
}

/// The proxy settings.
#[derive(Debug, Clone, Copy, PartialEq, Eq, Structural)]
pub struct ProxySettings {
    pub desired_state: DesiredState,
    pub status: ProxyStatus,
    pub dns_provider: Option<DnsProvider>,
    pub created_at: i64,
    pub updated_at: i64,
}

/// A named credential of the DNS provider, taken from a parameter.
#[derive(Debug)]
pub struct DnsCredential {
    pub credential_name: String,
    pub parameter_key: String,
}

} // verus!
