//! The `iptables` backend: a chain of its own, hooked into Docker's
//! `DOCKER-USER` chain, that accepts the allowed ports and drops the rest.

use vstd::prelude::*;

use super::backend::{
    step_error,
    allow_failure, allow_failure_message, args_of, commands_view, protocol_name, push_command,
    removal_ok, AllowedPort, FwCommand,
};
use crate::text::{concat2, concat3, contains_str, decimal, string_views, u64_to_decimal};

verus! {

/// The chain holding the rules.
pub const CHAIN: &'static str = "VULPECULA-FW";

/// The chain of Docker's that jumps to ours.
pub const HOOK: &'static str = "DOCKER-USER";

/// The arguments that test whether our chain exists.
pub fn chain_exists_args() -> (v: Vec<String>)
    ensures
        string_views(v@) == seq!["-nL"@, CHAIN@],
{
    let v = args_of(&["-nL", CHAIN]);
    proof {
        assert(seq!["-nL", CHAIN].map_values(|s: &str| s@) =~= seq!["-nL"@, CHAIN@]);
    }
    v
}

/// The arguments that test whether Docker's chain jumps to ours.
pub fn hook_installed_args() -> (v: Vec<String>)
    ensures
        string_views(v@) == seq!["-C"@, HOOK@, "-j"@, CHAIN@],
{
    let v = args_of(&["-C", HOOK, "-j", CHAIN]);
    proof {
        assert(seq!["-C", HOOK, "-j", CHAIN].map_values(|s: &str| s@) =~= seq![
            "-C"@,
            HOOK@,
            "-j"@,
            CHAIN@,
        ]);
    }
    v
}

/// The command that accepts `p`.
pub open spec fn accept_command(p: AllowedPort) -> (Seq<Seq<char>>, Seq<char>) {
    (
        seq![
            "-A"@,
            CHAIN@,
            "-p"@,
            protocol_name(p.protocol),
            "--dport"@,
            decimal(p.port as nat),
            "-j"@,
            "ACCEPT"@,
        ],
        allow_failure(p),
    )
}

/// The commands that accept each of `ports`, in order.
pub open spec fn accept_commands(ports: Seq<AllowedPort>) -> Seq<(Seq<Seq<char>>, Seq<char>)> {
    ports.map_values(|p: AllowedPort| accept_command(p))
}

/// The last rule: drop everything else.
pub open spec fn deny_command() -> (Seq<Seq<char>>, Seq<char>) {
    (seq!["-A"@, CHAIN@, "-j"@, "DROP"@], "failed to install default-deny rule in "@ + CHAIN@)
}

/// The commands that put the firewall in place: create our chain if it is
/// missing, hook it into Docker's if it is not, empty it, accept each
/// allowed port, and drop the rest.
pub open spec fn apply_plan_view(chain_exists: bool, hook_installed: bool, ports: Seq<AllowedPort>) -> Seq<
    (Seq<Seq<char>>, Seq<char>),
> {
    (if chain_exists {
        Seq::empty()
    } else {
        seq![(seq!["-N"@, CHAIN@], "failed to create chain "@ + CHAIN@)]
    }) + (if hook_installed {
        Seq::empty()
    } else {
        seq![
            (
                seq!["-I"@, HOOK@, "1"@, "-j"@, CHAIN@],
                "failed to hook "@ + CHAIN@ + " into "@ + HOOK@,
            ),
        ]
    }) + seq![(seq!["-F"@, CHAIN@], "failed to flush "@ + CHAIN@)] + accept_commands(ports)
        + seq![deny_command()]
}

/// The commands that put the firewall in place, given whether our chain
/// exists and whether Docker's chain jumps to it.
pub fn apply_plan(chain_exists: bool, hook_installed: bool, allowed: &[AllowedPort]) -> (v: Vec<
    FwCommand,
>)
    ensures
        commands_view(v@) == apply_plan_view(chain_exists, hook_installed, allowed@),
{
    let mut plan: Vec<FwCommand> = Vec::new();
    let ghost start = commands_view(plan@);
    if !chain_exists {
        let args = args_of(&["-N", CHAIN]);
        assert(seq!["-N", CHAIN].map_values(|s: &str| s@) =~= seq!["-N"@, CHAIN@]);
        push_command(&mut plan, args, concat2("failed to create chain ", CHAIN));
    }
    if !hook_installed {
        let args = args_of(&["-I", HOOK, "1", "-j", CHAIN]);
        assert(seq!["-I", HOOK, "1", "-j", CHAIN].map_values(|s: &str| s@) =~= seq![
            "-I"@,
            HOOK@,
            "1"@,
            "-j"@,
            CHAIN@,
        ]);
        let mut m = concat3("failed to hook ", CHAIN, " into ");
        m.append(HOOK);
        push_command(&mut plan, args, m);
    }
    let args = args_of(&["-F", CHAIN]);
    assert(seq!["-F", CHAIN].map_values(|s: &str| s@) =~= seq!["-F"@, CHAIN@]);
    push_command(&mut plan, args, concat2("failed to flush ", CHAIN));
    let ghost prefix = commands_view(plan@);
    assert(prefix =~= (if chain_exists {
        Seq::empty()
    } else {
        seq![(seq!["-N"@, CHAIN@], "failed to create chain "@ + CHAIN@)]
    }) + (if hook_installed {
        Seq::empty()
    } else {
        seq![
            (
                seq!["-I"@, HOOK@, "1"@, "-j"@, CHAIN@],
                "failed to hook "@ + CHAIN@ + " into "@ + HOOK@,
            ),
        ]
    }) + seq![(seq!["-F"@, CHAIN@], "failed to flush "@ + CHAIN@)]);
    let mut i: usize = 0;
    while i < allowed.len()
        invariant
            i <= allowed@.len(),
            commands_view(plan@) == prefix + accept_commands(allowed@.take(i as int)),
        decreases allowed.len() - i,
    {
        let p = allowed[i];
        let port = u64_to_decimal(p.port as u64);
        let mut args: Vec<String> = Vec::new();
        args.push(String::from_str("-A"));
        args.push(String::from_str(CHAIN));
        args.push(String::from_str("-p"));
        args.push(String::from_str(p.protocol.as_str()));
        args.push(String::from_str("--dport"));
        args.push(port);
        args.push(String::from_str("-j"));
        args.push(String::from_str("ACCEPT"));
        assert(string_views(args@) =~= accept_command(p).0);
        push_command(&mut plan, args, allow_failure_message(p));
        assert(allowed@.take(i + 1) =~= allowed@.take(i as int).push(p));
        assert(accept_commands(allowed@.take(i + 1)) =~= accept_commands(allowed@.take(i as int)).push(
            accept_command(p),
        ));
        i = i + 1;
    }
    assert(allowed@.take(allowed@.len() as int) =~= allowed@);
    let args = args_of(&["-A", CHAIN, "-j", "DROP"]);
    assert(seq!["-A", CHAIN, "-j", "DROP"].map_values(|s: &str| s@) =~= seq![
        "-A"@,
        CHAIN@,
        "-j"@,
        "DROP"@,
    ]);
    push_command(&mut plan, args, concat2("failed to install default-deny rule in ", CHAIN));
    plan
}

/// The commands run before the chain is deleted, whose failures are
/// ignored: unhook it and empty it.
pub fn teardown_prelude() -> (v: Vec<Vec<String>>)
    ensures
        v@.map_values(|a: Vec<String>| string_views(a@)) == seq![
            seq!["-D"@, HOOK@, "-j"@, CHAIN@],
            seq!["-F"@, CHAIN@],
        ],
{
    let a = args_of(&["-D", HOOK, "-j", CHAIN]);
    let b = args_of(&["-F", CHAIN]);
    assert(seq!["-D", HOOK, "-j", CHAIN].map_values(|s: &str| s@) =~= seq![
        "-D"@,
        HOOK@,
        "-j"@,
        CHAIN@,
    ]);
    assert(seq!["-F", CHAIN].map_values(|s: &str| s@) =~= seq!["-F"@, CHAIN@]);
    let mut v: Vec<Vec<String>> = Vec::new();
    v.push(a);
    v.push(b);
    assert(v@.map_values(|a: Vec<String>| string_views(a@)) =~= seq![
        seq!["-D"@, HOOK@, "-j"@, CHAIN@],
        seq!["-F"@, CHAIN@],
    ]);
    v
}

/// The command that deletes the chain.
pub fn teardown_command() -> (c: FwCommand)
    ensures
        string_views(c.args@) == seq!["-X"@, CHAIN@],
        c.failure@ == "failed to remove chain "@ + CHAIN@,
{
    let args = args_of(&["-X", CHAIN]);
    assert(seq!["-X", CHAIN].map_values(|s: &str| s@) =~= seq!["-X"@, CHAIN@]);
    FwCommand { args, failure: concat2("failed to remove chain ", CHAIN) }
}

/// Deleting the chain counts as done when it succeeded or the chain was
/// already gone.
pub fn teardown_succeeded(succeeded: bool, stderr: &str) -> (b: bool)
    ensures
        b == removal_ok(succeeded, stderr@, "No chain"@),
{
    succeeded || contains_str(stderr, "No chain")
}

/// Whatever the probes found, the plan ends by dropping everything the
/// allowed ports do not cover, and accepts exactly the allowed ports, in
/// order, just before.
pub proof fn law_iptables_plan_is_default_deny(
    chain_exists: bool,
    hook_installed: bool,
    ports: Seq<AllowedPort>,
)
    ensures
        ({
            let plan = apply_plan_view(chain_exists, hook_installed, ports);
            let n = plan.len();
            &&& plan.last() == deny_command()
            &&& plan.subrange(n - 1 - ports.len(), n - 1) == accept_commands(ports)
        }),
{
    let plan = apply_plan_view(chain_exists, hook_installed, ports);
    let n = plan.len();
    assert(plan.subrange(n - 1 - ports.len(), n - 1) =~= accept_commands(ports));
}

/// The commands that create what the probes found missing: the chain,
/// then the jump to it from Docker's chain.
pub open spec fn setup_commands(chain_exists: bool, hook_installed: bool) -> Seq<(Seq<Seq<char>>, Seq<char>)> {
    (if chain_exists {
        Seq::empty()
    } else {
        seq![(seq!["-N"@, CHAIN@], "failed to create chain "@ + CHAIN@)]
    }) + (if hook_installed {
        Seq::empty()
    } else {
        seq![
            (
                seq!["-I"@, HOOK@, "1"@, "-j"@, CHAIN@],
                "failed to hook "@ + CHAIN@ + " into "@ + HOOK@,
            ),
        ]
    })
}

/// Applying is repeatable: any plan is the creation of what is missing
/// (each at most once) followed by the same rules; once the chain and its
/// hook exist, as after an apply, the plan creates neither and only
/// flushes the chain and appends the rules.
pub proof fn law_iptables_apply_is_repeatable(
    chain_exists: bool,
    hook_installed: bool,
    ports: Seq<AllowedPort>,
)
    ensures
        apply_plan_view(chain_exists, hook_installed, ports) == setup_commands(
            chain_exists,
            hook_installed,
        ) + apply_plan_view(true, true, ports),
        setup_commands(true, true) == Seq::<(Seq<Seq<char>>, Seq<char>)>::empty(),
        setup_commands(chain_exists, hook_installed).len() == (if chain_exists { 0int } else { 1int })
            + (if hook_installed { 0int } else { 1int }),
        apply_plan_view(true, true, ports) == seq![(seq!["-F"@, CHAIN@], "failed to flush "@ + CHAIN@)]
            + accept_commands(ports) + seq![deny_command()],
        forall|i: int|
            0 <= i < apply_plan_view(true, true, ports).len() ==> {
                let verb = (#[trigger] apply_plan_view(true, true, ports)[i]).0[0];
                verb == "-F"@ || verb == "-A"@
            },
{
    let rules = apply_plan_view(true, true, ports);
    assert(apply_plan_view(chain_exists, hook_installed, ports) =~= setup_commands(
        chain_exists,
        hook_installed,
    ) + rules);
    assert(setup_commands(true, true) =~= Seq::<(Seq<Seq<char>>, Seq<char>)>::empty());
    assert(rules =~= seq![(seq!["-F"@, CHAIN@], "failed to flush "@ + CHAIN@)] + accept_commands(ports)
        + seq![deny_command()]);
    assert forall|i: int| 0 <= i < rules.len() implies {
        let verb = (#[trigger] rules[i]).0[0];
        verb == "-F"@ || verb == "-A"@
    } by {
        if 1 <= i < rules.len() - 1 {
            assert(rules[i] == accept_command(ports[i - 1]));
        }
    }
}

/// Tearing down is done exactly when deleting the chain succeeded or the
/// chain was already gone, whatever unhooking and flushing it did before;
/// so a teardown after a teardown succeeds.
pub proof fn law_iptables_teardown_is_repeatable(succeeded: bool, stderr: Seq<char>)
    ensures
        step_error(
            "failed to remove chain "@ + CHAIN@,
            removal_ok(succeeded, stderr, "No chain"@),
            stderr,
        ) is None <==> (succeeded || crate::text::contains(stderr, "No chain"@)),
        crate::text::contains(stderr, "No chain"@) ==> step_error(
            "failed to remove chain "@ + CHAIN@,
            removal_ok(succeeded, stderr, "No chain"@),
            stderr,
        ) is None,
{
}

} // verus!
