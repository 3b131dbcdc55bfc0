//! Firewall backends, the ports they open, and the commands they run.

use vstd::prelude::*;

use crate::text::{concat3, decimal, opt_view, u64_to_decimal, string_views};

verus! {

/// A transport protocol.
#[derive(Debug, Clone, Copy, PartialEq, Eq, Structural)]
pub enum Protocol {
    Tcp,
    Udp,
}

/// The name of a protocol on the command line.
pub open spec fn protocol_name(p: Protocol) -> Seq<char> {
    match p {
        Protocol::Tcp => "tcp"@,
        Protocol::Udp => "udp"@,
    }
}

impl Protocol {
    /// The name of this protocol on the command line.
    pub fn as_str(self) -> (s: &'static str)
        ensures
            s@ == protocol_name(self),
    {
        match self {
            Protocol::Tcp => "tcp",
            Protocol::Udp => "udp",
        }
    }
}

/// A port the firewall lets through.
#[derive(Debug, Clone, Copy, PartialEq, Eq, Structural)]
pub struct AllowedPort {
    pub port: u16,
    pub protocol: Protocol,
}

/// The firewall tool of the host.
#[derive(Debug, Clone, Copy, PartialEq, Eq, Structural)]
pub enum FirewallBackend {
    IpTables,
    NfTables,
}

/// The message when the host has neither tool.
pub open spec fn no_backend_message() -> Seq<char> {
    "neither iptables nor nft found on this host"@
}

impl FirewallBackend {
    /// The backend of a host, given which tools are on its path:
    /// `iptables` is preferred to `nft`.
    pub fn select(iptables_found: bool, nft_found: bool) -> (r: Result<FirewallBackend, String>)
        ensures
            iptables_found ==> r == Ok::<FirewallBackend, String>(FirewallBackend::IpTables),
            !iptables_found && nft_found ==> r == Ok::<FirewallBackend, String>(
                FirewallBackend::NfTables,
            ),
            !iptables_found && !nft_found ==> (r matches Err(m) && m@ == no_backend_message()),
    {
        if iptables_found {
            return Ok(FirewallBackend::IpTables);
        }
        if nft_found {
            return Ok(FirewallBackend::NfTables);
        }
        Err(String::from_str("neither iptables nor nft found on this host"))
    }
}

/// One command of a firewall tool, and what its failure is reported as
/// (followed by `: ` and the tool's error output).
#[derive(Debug)]
pub struct FwCommand {
    pub args: Vec<String>,
    pub failure: String,
}

/// A command as plain values: its arguments and its failure message.
pub open spec fn command_view(c: FwCommand) -> (Seq<Seq<char>>, Seq<char>) {
    (string_views(c.args@), c.failure@)
}

/// A list of commands as plain values.
pub open spec fn commands_view(v: Seq<FwCommand>) -> Seq<(Seq<Seq<char>>, Seq<char>)> {
    v.map_values(|c: FwCommand| command_view(c))
}

/// The arguments `strs`, as owned strings.
pub fn args_of(strs: &[&str]) -> (v: Vec<String>)
    ensures
        string_views(v@) == strs@.map_values(|s: &str| s@),
{
    let mut v: Vec<String> = Vec::new();
    let mut i: usize = 0;
    while i < strs.len()
        invariant
            i <= strs.len(),
            v@.len() == i,
            string_views(v@) == strs@.map_values(|s: &str| s@).take(i as int),
        decreases strs.len() - i,
    {
        let ghost before = string_views(v@);
        let a = String::from_str(strs[i]);
        assert(a@ == strs@[i as int]@);
        v.push(a);
        assert(string_views(v@)[i as int] == strs@.map_values(|s: &str| s@)[i as int]);
        assert(string_views(v@) =~= strs@.map_values(|s: &str| s@).take(i + 1));
        i = i + 1;
    }
    assert(strs@.map_values(|s: &str| s@).take(strs.len() as int) =~= strs@.map_values(
        |s: &str| s@,
    ));
    v
}

/// Appends a command to a plan.
pub fn push_command(plan: &mut Vec<FwCommand>, args: Vec<String>, failure: String)
    ensures
        commands_view(final(plan)@) == commands_view(old(plan)@).push(
            (string_views(args@), failure@),
        ),
{
    let ghost before = commands_view(plan@);
    let ghost view = (string_views(args@), failure@);
    plan.push(FwCommand { args, failure });
    assert(commands_view(plan@) =~= before.push(view));
}

/// The message when a port cannot be let through: `failed to allow
/// <protocol>/<port>`.
pub open spec fn allow_failure(p: AllowedPort) -> Seq<char> {
    "failed to allow "@ + protocol_name(p.protocol) + "/"@ + decimal(p.port as nat)
}

/// The failure message of the command that lets `p` through.
pub fn allow_failure_message(p: AllowedPort) -> (m: String)
    ensures
        m@ == allow_failure(p),
{
    let port = u64_to_decimal(p.port as u64);
    let mut m = concat3("failed to allow ", p.protocol.as_str(), "/");
    m.append(port.as_str());
    m
}

/// Whether a removal that failed with `stderr` still counts as done: the
/// command succeeded, or its error says there was nothing to remove.
pub open spec fn removal_ok(succeeded: bool, stderr: Seq<char>, absent_marker: Seq<char>) -> bool {
    succeeded || crate::text::contains(stderr, absent_marker)
}

/// What a command's outcome means for the run of a plan: `None` to go on,
/// or the error that ends it, the command's failure message followed by
/// `": "` and the tool's error output.
pub open spec fn step_error(failure: Seq<char>, succeeded: bool, stderr: Seq<char>) -> Option<Seq<char>> {
    if succeeded {
        None
    } else {
        Some(failure + ": "@ + stderr)
    }
}

/// The error that ends the run of a plan after `c` reported `succeeded`
/// and `stderr`, if any.
pub fn command_error(c: &FwCommand, succeeded: bool, stderr: &str) -> (r: Option<String>)
    ensures
        opt_view(r) == step_error(c.failure@, succeeded, stderr@),
{
    if succeeded {
        None
    } else {
        Some(concat3(c.failure.as_str(), ": ", stderr))
    }
}

} // verus!
