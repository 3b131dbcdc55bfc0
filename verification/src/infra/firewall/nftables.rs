//! The `nft` backend: a table of its own whose prerouting chain accepts
//! the allowed ports and drops the rest.

use vstd::prelude::*;

use super::backend::{
    step_error,
    allow_failure, allow_failure_message, args_of, commands_view, protocol_name, push_command,
    removal_ok, AllowedPort, FwCommand,
};
use crate::text::{concat2, concat3, contains_str, decimal, i64_to_decimal, signed_decimal, string_views, u64_to_decimal};

verus! {

/// The table holding the rules.
pub const TABLE: &'static str = "vulpecula_fw";

/// The chain holding the rules.
pub const CHAIN: &'static str = "prerouting";

/// The priority of the chain, ahead of Docker's own rules.
pub const PRIORITY: i64 = -150;

/// The declaration of the chain.
pub open spec fn chain_declaration() -> Seq<char> {
    "{ type filter hook prerouting priority "@ + signed_decimal(PRIORITY as int) + "; }"@
}

/// The command that accepts `p`.
pub open spec fn accept_command(p: AllowedPort) -> (Seq<Seq<char>>, Seq<char>) {
    (
        seq![
            "add"@,
            "rule"@,
            "inet"@,
            TABLE@,
            CHAIN@,
            protocol_name(p.protocol),
            "dport"@,
            decimal(p.port as nat),
            "accept"@,
        ],
        allow_failure(p),
    )
}

/// The commands that accept each of `ports`, in order.
pub open spec fn accept_commands(ports: Seq<AllowedPort>) -> Seq<(Seq<Seq<char>>, Seq<char>)> {
    ports.map_values(|p: AllowedPort| accept_command(p))
}

/// The last rule: drop everything else.
pub open spec fn deny_command() -> (Seq<Seq<char>>, Seq<char>) {
    (
        seq!["add"@, "rule"@, "inet"@, TABLE@, CHAIN@, "drop"@],
        "failed to install default-deny rule in "@ + CHAIN@,
    )
}

/// The commands that put the firewall in place: create the table and the
/// chain (both idempotent), empty the chain, accept each allowed port, and
/// drop the rest.
pub open spec fn apply_plan_view(ports: Seq<AllowedPort>) -> Seq<(Seq<Seq<char>>, Seq<char>)> {
    seq![
        (seq!["add"@, "table"@, "inet"@, TABLE@], "failed to create table "@ + TABLE@),
        (
            seq!["add"@, "chain"@, "inet"@, TABLE@, CHAIN@, chain_declaration()],
            "failed to create chain "@ + CHAIN@,
        ),
        (seq!["flush"@, "chain"@, "inet"@, TABLE@, CHAIN@], "failed to flush chain "@ + CHAIN@),
    ] + accept_commands(ports) + seq![deny_command()]
}

/// The commands that put the firewall in place.
pub fn apply_plan(allowed: &[AllowedPort]) -> (v: Vec<FwCommand>)
    ensures
        commands_view(v@) == apply_plan_view(allowed@),
{
    let mut plan: Vec<FwCommand> = Vec::new();
    let args = args_of(&["add", "table", "inet", TABLE]);
    assert(seq!["add", "table", "inet", TABLE].map_values(|s: &str| s@) =~= seq![
        "add"@,
        "table"@,
        "inet"@,
        TABLE@,
    ]);
    assert(commands_view(plan@) =~= Seq::empty());
    push_command(&mut plan, args, concat2("failed to create table ", TABLE));
    let priority = i64_to_decimal(PRIORITY);
    let mut decl = concat2("{ type filter hook prerouting priority ", priority.as_str());
    decl.append("; }");
    let mut args = args_of(&["add", "chain", "inet", TABLE, CHAIN]);
    assert(seq!["add", "chain", "inet", TABLE, CHAIN].map_values(|s: &str| s@) =~= seq![
        "add"@,
        "chain"@,
        "inet"@,
        TABLE@,
        CHAIN@,
    ]);
    let ghost before_decl = string_views(args@);
    assert(decl@ == chain_declaration());
    args.push(decl);
    assert(string_views(args@) =~= before_decl.push(chain_declaration()));
    assert(string_views(args@) =~= seq!["add"@, "chain"@, "inet"@, TABLE@, CHAIN@, chain_declaration()]);
    push_command(&mut plan, args, concat2("failed to create chain ", CHAIN));
    let args = args_of(&["flush", "chain", "inet", TABLE, CHAIN]);
    assert(seq!["flush", "chain", "inet", TABLE, CHAIN].map_values(|s: &str| s@) =~= seq![
        "flush"@,
        "chain"@,
        "inet"@,
        TABLE@,
        CHAIN@,
    ]);
    push_command(&mut plan, args, concat2("failed to flush chain ", CHAIN));
    let ghost prefix = commands_view(plan@);
    assert(prefix =~= seq![
        (seq!["add"@, "table"@, "inet"@, TABLE@], "failed to create table "@ + TABLE@),
        (
            seq!["add"@, "chain"@, "inet"@, TABLE@, CHAIN@, chain_declaration()],
            "failed to create chain "@ + CHAIN@,
        ),
        (seq!["flush"@, "chain"@, "inet"@, TABLE@, CHAIN@], "failed to flush chain "@ + CHAIN@),
    ]);
    let mut i: usize = 0;
    while i < allowed.len()
        invariant
            i <= allowed@.len(),
            commands_view(plan@) == prefix + accept_commands(allowed@.take(i as int)),
        decreases allowed.len() - i,
    {
        let p = allowed[i];
        let port = u64_to_decimal(p.port as u64);
        let mut args = args_of(&["add", "rule", "inet", TABLE, CHAIN]);
        assert(seq!["add", "rule", "inet", TABLE, CHAIN].map_values(|s: &str| s@) =~= seq![
            "add"@,
            "rule"@,
            "inet"@,
            TABLE@,
            CHAIN@,
        ]);
        args.push(String::from_str(p.protocol.as_str()));
        args.push(String::from_str("dport"));
        args.push(port);
        args.push(String::from_str("accept"));
        assert(string_views(args@) =~= accept_command(p).0);
        push_command(&mut plan, args, allow_failure_message(p));
        assert(allowed@.take(i + 1) =~= allowed@.take(i as int).push(p));
        assert(accept_commands(allowed@.take(i + 1)) =~= accept_commands(allowed@.take(i as int)).push(
            accept_command(p),
        ));
        i = i + 1;
    }
    assert(allowed@.take(allowed@.len() as int) =~= allowed@);
    let args = args_of(&["add", "rule", "inet", TABLE, CHAIN, "drop"]);
    assert(seq!["add", "rule", "inet", TABLE, CHAIN, "drop"].map_values(|s: &str| s@) =~= seq![
        "add"@,
        "rule"@,
        "inet"@,
        TABLE@,
        CHAIN@,
        "drop"@,
    ]);
    push_command(&mut plan, args, concat2("failed to install default-deny rule in ", CHAIN));
    assert(commands_view(plan@) =~= apply_plan_view(allowed@));
    plan
}

/// The command that deletes the table.
pub fn teardown_command() -> (c: FwCommand)
    ensures
        string_views(c.args@) == seq!["delete"@, "table"@, "inet"@, TABLE@],
        c.failure@ == "failed to remove table "@ + TABLE@,
{
    let args = args_of(&["delete", "table", "inet", TABLE]);
    assert(seq!["delete", "table", "inet", TABLE].map_values(|s: &str| s@) =~= seq![
        "delete"@,
        "table"@,
        "inet"@,
        TABLE@,
    ]);
    FwCommand { args, failure: concat2("failed to remove table ", TABLE) }
}

/// Deleting the table counts as done when it succeeded or the table was
/// already gone.
pub fn teardown_succeeded(succeeded: bool, stderr: &str) -> (b: bool)
    ensures
        b == removal_ok(succeeded, stderr@, "No such file"@),
{
    succeeded || contains_str(stderr, "No such file")
}

/// The plan ends by dropping everything the allowed ports do not cover, and
/// accepts exactly the allowed ports, in order, just before.
pub proof fn law_nftables_plan_is_default_deny(ports: Seq<AllowedPort>)
    ensures
        ({
            let plan = apply_plan_view(ports);
            let n = plan.len();
            &&& plan.last() == deny_command()
            &&& plan.subrange(3, n - 1) == accept_commands(ports)
        }),
{
    let plan = apply_plan_view(ports);
    let n = plan.len();
    assert(plan.subrange(3, n - 1) =~= accept_commands(ports));
}

/// Tearing down is done exactly when deleting the table succeeded or the
/// table was already gone; so a teardown after a teardown succeeds.
pub proof fn law_nftables_teardown_is_repeatable(succeeded: bool, stderr: Seq<char>)
    ensures
        step_error(
            "failed to remove table "@ + TABLE@,
            removal_ok(succeeded, stderr, "No such file"@),
            stderr,
        ) is None <==> (succeeded || crate::text::contains(stderr, "No such file"@)),
        crate::text::contains(stderr, "No such file"@) ==> step_error(
            "failed to remove table "@ + TABLE@,
            removal_ok(succeeded, stderr, "No such file"@),
            stderr,
        ) is None,
{
}

} // verus!
