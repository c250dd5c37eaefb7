//! The iptables rule translator: turns a list of exceptions, and later the
//! tunnel interface name, into ordered batches of rule commands for one
//! address family, and models what a batch does to the OUTPUT chain.

use vstd::prelude::*;
use crate::exception::AddressFamily;
use crate::exception::FirewallException;
use crate::exception::decimal_text;
use crate::exception::format_decimal;
use crate::exception::format_ip;
use crate::exception::format_protocol;
use crate::exception::ip_text;
use crate::exception::protocol_text;

verus! {

/// One rule the engine installs or removes on the OUTPUT chain.
#[derive(Clone, Copy, Debug, PartialEq, Eq, Structural)]
pub enum Rule {
    /// Accept traffic to one excepted endpoint.
    Accept(FirewallException),
    /// Accept all traffic leaving through the tunnel interface.
    TunnelAccept,
    /// The catch-all deny that makes the kill-switch bite.
    DropAll,
}

/// How a command places a rule: append at the end of the chain, insert at
/// its head, or delete the rule by its exact original specification.
#[derive(Clone, Copy, Debug, PartialEq, Eq, Structural)]
pub enum RuleOp {
    Append,
    Insert,
    Delete,
}

/// One firewall command: an operation applied to one rule.
#[derive(Clone, Copy, Debug, PartialEq, Eq, Structural)]
pub struct RuleCommand {
    pub op: RuleOp,
    pub rule: Rule,
}

/// The argument token a rule operation renders to.
pub open spec fn op_token(op: RuleOp) -> Seq<char> {
    match op {
        RuleOp::Append => "-A"@,
        RuleOp::Insert => "-I"@,
        RuleOp::Delete => "-D"@,
    }
}

/// The argument tokens that specify a rule, after the operation and chain
/// tokens. `tunnel` is the tunnel interface name, used only by the tunnel
/// rule.
pub open spec fn rule_tokens(r: Rule, tunnel: Seq<char>) -> Seq<Seq<char>> {
    match r {
        Rule::Accept(e) => seq![
            "-d"@,
            ip_text(e.host),
            "-p"@,
            protocol_text(e.protocol),
            "--dport"@,
            decimal_text(e.port as int),
            "-j"@,
            "ACCEPT"@,
        ],
        Rule::TunnelAccept => seq!["-o"@, tunnel, "-j"@, "ACCEPT"@],
        Rule::DropAll => seq!["-j"@, "DROP"@],
    }
}

/// The full argument vector of one command against the OUTPUT chain.
pub open spec fn command_tokens(c: RuleCommand, tunnel: Seq<char>) -> Seq<Seq<char>> {
    seq![op_token(c.op), "OUTPUT"@] + rule_tokens(c.rule, tunnel)
}

/// The argument vectors of a whole batch, in order.
pub open spec fn batch_tokens(cmds: Seq<RuleCommand>, tunnel: Seq<char>) -> Seq<Seq<Seq<char>>> {
    cmds.map_values(|c: RuleCommand| command_tokens(c, tunnel))
}

/// The view of an optional recorded interface name.
pub open spec fn tunnel_view(t: Option<String>) -> Seq<char> {
    match t {
        Some(s) => s@,
        None => Seq::empty(),
    }
}

/// The accept rules of the pre-connect phase for one family: one per
/// exception of that family, in the order the exceptions were given.
pub open spec fn accept_rules(excs: Seq<FirewallException>, fam: AddressFamily) -> Seq<Rule> {
    excs.filter(|e: FirewallException| e.family() == fam).map_values(
        |e: FirewallException| Rule::Accept(e),
    )
}

/// The rules the pre-connect batch installs, in order: every exception's
/// accept rule first, the catch-all drop last.
pub open spec fn pre_connect_rules(excs: Seq<FirewallException>, fam: AddressFamily) -> Seq<Rule> {
    accept_rules(excs, fam).push(Rule::DropAll)
}

/// Rules turned into append commands, keeping their order.
pub open spec fn append_commands(rules: Seq<Rule>) -> Seq<RuleCommand> {
    rules.map_values(|r: Rule| RuleCommand { op: RuleOp::Append, rule: r })
}

/// Rules turned into delete commands, keeping their order.
pub open spec fn delete_commands(rules: Seq<Rule>) -> Seq<RuleCommand> {
    rules.map_values(|r: Rule| RuleCommand { op: RuleOp::Delete, rule: r })
}

/// The ordered pre-connect batch for one family.
pub open spec fn pre_connect_batch(excs: Seq<FirewallException>, fam: AddressFamily) -> Seq<
    RuleCommand,
> {
    append_commands(pre_connect_rules(excs, fam))
}

/// The post-connect batch: a single insert of the tunnel accept rule at the
/// head of the chain, ahead of the catch-all drop.
pub open spec fn post_connect_batch() -> Seq<RuleCommand> {
    seq![RuleCommand { op: RuleOp::Insert, rule: Rule::TunnelAccept }]
}

/// The index of the first rule in the chain equal to `r`, or -1 when absent.
pub open spec fn first_match(chain: Seq<Rule>, r: Rule) -> int
    decreases chain.len(),
{
    if chain.len() == 0 {
        -1
    } else if chain[0] == r {
        0
    } else {
        let rest = first_match(chain.skip(1), r);
        if rest < 0 {
            -1
        } else {
            rest + 1
        }
    }
}

/// Removes the first rule equal to `r`, leaving the chain unchanged when no
/// such rule is present.
pub open spec fn remove_first(chain: Seq<Rule>, r: Rule) -> Seq<Rule> {
    let i = first_match(chain, r);
    if i < 0 {
        chain
    } else {
        chain.remove(i)
    }
}

/// What one command does to the OUTPUT chain.
pub open spec fn chain_apply(chain: Seq<Rule>, c: RuleCommand) -> Seq<Rule> {
    match c.op {
        RuleOp::Append => chain.push(c.rule),
        RuleOp::Insert => seq![c.rule] + chain,
        RuleOp::Delete => remove_first(chain, c.rule),
    }
}

/// What a batch does to the OUTPUT chain, command by command in order.
pub open spec fn chain_apply_batch(chain: Seq<Rule>, cmds: Seq<RuleCommand>) -> Seq<Rule>
    decreases cmds.len(),
{
    if cmds.len() == 0 {
        chain
    } else {
        chain_apply_batch(chain_apply(chain, cmds[0]), cmds.skip(1))
    }
}

/// Law: for every exception list, the pre-connect batch of a family holds
/// exactly one append of an accept rule per exception of that family, in
/// the order the exceptions were given, followed by exactly one trailing
/// append of the catch-all drop.
pub proof fn lemma_pre_connect_batch_shape(excs: Seq<FirewallException>, fam: AddressFamily)
    ensures
        pre_connect_batch(excs, fam).len() == excs.filter(
            |e: FirewallException| e.family() == fam,
        ).len() + 1,
        forall|i: int|
            0 <= i < excs.filter(|e: FirewallException| e.family() == fam).len()
                ==> #[trigger] pre_connect_batch(excs, fam)[i] == (RuleCommand {
                op: RuleOp::Append,
                rule: Rule::Accept(excs.filter(|e: FirewallException| e.family() == fam)[i]),
            }),
        pre_connect_batch(excs, fam).last() == (RuleCommand {
            op: RuleOp::Append,
            rule: Rule::DropAll,
        }),
        pre_connect_rules(excs, fam).len() >= 1,
        pre_connect_rules(excs, fam).last() == Rule::DropAll,
{
    let filtered = excs.filter(|e: FirewallException| e.family() == fam);
    let batch = pre_connect_batch(excs, fam);
    assert forall|i: int| 0 <= i < filtered.len() implies #[trigger] batch[i] == (RuleCommand {
        op: RuleOp::Append,
        rule: Rule::Accept(filtered[i]),
    }) by {
        assert(pre_connect_rules(excs, fam)[i] == accept_rules(excs, fam)[i]);
    }
}

/// The index of the first match is non-negative exactly when the rule is in
/// the chain, and it indexes an occurrence of the rule.
pub proof fn lemma_first_match_contains(chain: Seq<Rule>, r: Rule)
    ensures
        (first_match(chain, r) >= 0) <==> chain.contains(r),
        first_match(chain, r) >= 0 ==> first_match(chain, r) < chain.len() && chain[first_match(
            chain,
            r,
        )] == r,
    decreases chain.len(),
{
    if chain.len() == 0 {
    } else if chain[0] == r {
        assert(chain.contains(r));
    } else {
        lemma_first_match_contains(chain.skip(1), r);
        if chain.contains(r) {
            let i = choose|i: int| 0 <= i < chain.len() && chain[i] == r;
            assert(chain.skip(1)[i - 1] == r);
            assert(chain.skip(1).contains(r));
        }
        if chain.skip(1).contains(r) {
            assert(chain[first_match(chain.skip(1), r) + 1] == r);
            assert(chain.contains(r));
        }
    }
}

/// Law: applied to a chain that ends with the catch-all drop, the
/// post-connect batch puts the tunnel accept rule at the head of the chain,
/// strictly ahead of the drop.
pub proof fn lemma_post_connect_orders_tunnel_before_drop(chain: Seq<Rule>)
    requires
        chain.len() > 0,
        chain.last() == Rule::DropAll,
    ensures
        chain_apply_batch(chain, post_connect_batch()) == seq![Rule::TunnelAccept] + chain,
        first_match(seq![Rule::TunnelAccept] + chain, Rule::TunnelAccept) == 0,
        first_match(seq![Rule::TunnelAccept] + chain, Rule::DropAll) >= 1,
        first_match(seq![Rule::TunnelAccept] + chain, Rule::TunnelAccept) < first_match(
            seq![Rule::TunnelAccept] + chain,
            Rule::DropAll,
        ),
{
    let after = seq![Rule::TunnelAccept] + chain;
    let batch = post_connect_batch();
    assert(chain_apply(chain, batch[0]) == after);
    assert(batch.skip(1) =~= Seq::<RuleCommand>::empty());
    assert(chain_apply_batch(after, batch.skip(1)) == after);
    assert(after[0] == Rule::TunnelAccept);
    assert(first_match(after, Rule::TunnelAccept) == 0);
    assert(chain[chain.len() - 1] == Rule::DropAll);
    assert(chain.contains(Rule::DropAll));
    lemma_first_match_contains(chain, Rule::DropAll);
    assert(after.skip(1) =~= chain);
    assert(first_match(after, Rule::DropAll) == first_match(chain, Rule::DropAll) + 1);
}

/// A batch of appends extends the chain by exactly those rules, in order.
pub proof fn lemma_appends_extend_chain(chain: Seq<Rule>, rules: Seq<Rule>)
    ensures
        chain_apply_batch(chain, append_commands(rules)) == chain + rules,
    decreases rules.len(),
{
    if rules.len() == 0 {
        assert(chain + rules =~= chain);
    } else {
        let cmds = append_commands(rules);
        assert(cmds[0] == (RuleCommand { op: RuleOp::Append, rule: rules[0] }));
        assert(chain_apply(chain, cmds[0]) == chain.push(rules[0]));
        assert(cmds.skip(1) =~= append_commands(rules.skip(1)));
        lemma_appends_extend_chain(chain.push(rules[0]), rules.skip(1));
        assert(chain.push(rules[0]) + rules.skip(1) =~= chain + rules);
    }
}

/// Law: over one whole successful session the chain model runs its course:
/// the pre-connect batch fills the empty chain with the accepts and the
/// trailing drop, the post-connect batch puts the tunnel rule at the head,
/// ahead of the drop, and the disconnect batch empties the chain again.
pub proof fn lemma_lifecycle_chain_round_trip(excs: Seq<FirewallException>, fam: AddressFamily)
    ensures
        chain_apply_batch(Seq::empty(), pre_connect_batch(excs, fam)) == pre_connect_rules(
            excs,
            fam,
        ),
        chain_apply_batch(pre_connect_rules(excs, fam), post_connect_batch())
            == seq![Rule::TunnelAccept] + pre_connect_rules(excs, fam),
        chain_apply_batch(
            seq![Rule::TunnelAccept] + pre_connect_rules(excs, fam),
            delete_commands(seq![Rule::TunnelAccept] + pre_connect_rules(excs, fam)),
        ) == Seq::<Rule>::empty(),
{
    lemma_appends_extend_chain(Seq::empty(), pre_connect_rules(excs, fam));
    assert(Seq::empty() + pre_connect_rules(excs, fam) =~= pre_connect_rules(excs, fam));
    lemma_pre_connect_batch_shape(excs, fam);
    lemma_post_connect_orders_tunnel_before_drop(pre_connect_rules(excs, fam));
    lemma_disconnect_removes_all(seq![Rule::TunnelAccept] + pre_connect_rules(excs, fam));
}

/// Law: deleting every recorded rule, in chain order, leaves the chain
/// empty, whatever the recorded rules were — so a second disconnect has
/// nothing left to remove.
pub proof fn lemma_disconnect_removes_all(rules: Seq<Rule>)
    ensures
        chain_apply_batch(rules, delete_commands(rules)) == Seq::<Rule>::empty(),
    decreases rules.len(),
{
    if rules.len() == 0 {
    } else {
        let cmds = delete_commands(rules);
        assert(cmds[0] == (RuleCommand { op: RuleOp::Delete, rule: rules[0] }));
        assert(first_match(rules, rules[0]) == 0);
        assert(rules.remove(0) =~= rules.skip(1));
        assert(chain_apply(rules, cmds[0]) == rules.skip(1));
        assert(cmds.skip(1) =~= delete_commands(rules.skip(1)));
        lemma_disconnect_removes_all(rules.skip(1));
    }
}

/// Every rule of a pre-connect batch is an accept for one exception or the
/// catch-all drop; the tunnel rule never occurs there, so no prefix of the
/// batch can install it.
pub proof fn lemma_pre_connect_prefix_free_of_tunnel(
    excs: Seq<FirewallException>,
    fam: AddressFamily,
    k: int,
)
    requires
        0 <= k <= pre_connect_rules(excs, fam).len(),
    ensures
        forall|j: int|
            0 <= j < pre_connect_rules(excs, fam).len() ==> !((#[trigger] pre_connect_rules(
                excs,
                fam,
            )[j]) is TunnelAccept),
        !pre_connect_rules(excs, fam).take(k).contains(Rule::TunnelAccept),
{
    let rules = pre_connect_rules(excs, fam);
    assert forall|j: int| 0 <= j < rules.len() implies !((#[trigger] rules[j]) is TunnelAccept) by {
        if j < accept_rules(excs, fam).len() {
            assert(rules[j] == accept_rules(excs, fam)[j]);
        } else {
            assert(rules[j] == Rule::DropAll);
        }
    }
    if rules.take(k).contains(Rule::TunnelAccept) {
        let j = choose|j: int| 0 <= j < rules.take(k).len() && rules.take(k)[j]
            == Rule::TunnelAccept;
        assert(rules.take(k)[j] == rules[j]);
        assert(false);
    }
}

/// Builds the pre-connect rules of one family, equal to the spec-level
/// `pre_connect_rules`.
pub fn build_pre_connect_rules(excs: &Vec<FirewallException>, fam: AddressFamily) -> (rules: Vec<
    Rule,
>)
    ensures
        rules@ == pre_connect_rules(excs@, fam),
{
    let mut rules: Vec<Rule> = Vec::new();
    let mut i: usize = 0;
    while i < excs.len()
        invariant
            i <= excs.len(),
            rules@ == accept_rules(excs@.take(i as int), fam),
        decreases excs.len() - i,
    {
        proof {
            assert(excs@.take(i + 1).drop_last() =~= excs@.take(i as int));
            assert(excs@.take(i + 1).last() == excs@[i as int]);
            reveal(Seq::filter);
        }
        if excs[i].address_family() == fam {
            rules.push(Rule::Accept(excs[i]));
        }
        proof {
            let pred = |e: FirewallException| e.family() == fam;
            let f_prev = excs@.take(i as int).filter(pred);
            let f_next = excs@.take(i + 1).filter(pred);
            if pred(excs@[i as int]) {
                assert(f_next == f_prev.push(excs@[i as int]));
                assert(rules@ =~= accept_rules(excs@.take(i + 1), fam));
            } else {
                assert(f_next == f_prev);
                assert(rules@ =~= accept_rules(excs@.take(i + 1), fam));
            }
        }
        i += 1;
    }
    proof {
        assert(excs@.take(excs@.len() as int) =~= excs@);
    }
    rules.push(Rule::DropAll);
    proof {
        assert(rules@ =~= pre_connect_rules(excs@, fam));
    }
    rules
}

/// Turns rules into append commands, equal to the spec-level
/// `append_commands`.
pub fn build_append_commands(rules: &Vec<Rule>) -> (cmds: Vec<RuleCommand>)
    ensures
        cmds@ == append_commands(rules@),
{
    let mut cmds: Vec<RuleCommand> = Vec::new();
    let mut i: usize = 0;
    while i < rules.len()
        invariant
            i <= rules.len(),
            cmds@ == append_commands(rules@.take(i as int)),
        decreases rules.len() - i,
    {
        cmds.push(RuleCommand { op: RuleOp::Append, rule: rules[i] });
        proof {
            assert(cmds@ =~= append_commands(rules@.take(i + 1)));
        }
        i += 1;
    }
    proof {
        assert(rules@.take(rules@.len() as int) =~= rules@);
    }
    cmds
}

/// Turns rules into delete commands, equal to the spec-level
/// `delete_commands`.
pub fn build_delete_commands(rules: &Vec<Rule>) -> (cmds: Vec<RuleCommand>)
    ensures
        cmds@ == delete_commands(rules@),
{
    let mut cmds: Vec<RuleCommand> = Vec::new();
    let mut i: usize = 0;
    while i < rules.len()
        invariant
            i <= rules.len(),
            cmds@ == delete_commands(rules@.take(i as int)),
        decreases rules.len() - i,
    {
        cmds.push(RuleCommand { op: RuleOp::Delete, rule: rules[i] });
        proof {
            assert(cmds@ =~= delete_commands(rules@.take(i + 1)));
        }
        i += 1;
    }
    proof {
        assert(rules@.take(rules@.len() as int) =~= rules@);
    }
    cmds
}

/// Renders one command to its argument vector, equal to the spec-level
/// `command_tokens`.
pub fn render_command(c: &RuleCommand, tunnel: &Option<String>) -> (args: Vec<String>)
    requires
        c.rule is TunnelAccept ==> tunnel is Some,
    ensures
        args.deep_view() == command_tokens(*c, tunnel_view(*tunnel)),
{
    let mut args: Vec<String> = Vec::new();
    let op: &'static str = match c.op {
        RuleOp::Append => "-A",
        RuleOp::Insert => "-I",
        RuleOp::Delete => "-D",
    };
    args.push(String::from_str(op));
    args.push(String::from_str("OUTPUT"));
    match &c.rule {
        Rule::Accept(e) => {
            args.push(String::from_str("-d"));
            args.push(format_ip(&e.host));
            args.push(String::from_str("-p"));
            args.push(format_protocol(&e.protocol));
            args.push(String::from_str("--dport"));
            args.push(format_decimal(e.port));
            args.push(String::from_str("-j"));
            args.push(String::from_str("ACCEPT"));
        },
        Rule::TunnelAccept => {
            args.push(String::from_str("-o"));
            match tunnel {
                Some(name) => args.push(name.clone()),
                None => {
                    proof {
                        assert(false);
                    }
                },
            }
            args.push(String::from_str("-j"));
            args.push(String::from_str("ACCEPT"));
        },
        Rule::DropAll => {
            args.push(String::from_str("-j"));
            args.push(String::from_str("DROP"));
        },
    }
    proof {
        assert(args.deep_view() =~= command_tokens(*c, tunnel_view(*tunnel)));
    }
    args
}

/// Renders a whole batch, equal to the spec-level `batch_tokens`.
pub fn render_batch(cmds: &Vec<RuleCommand>, tunnel: &Option<String>) -> (batch: Vec<Vec<String>>)
    requires
        forall|i: int|
            0 <= i < cmds@.len() ==> ((#[trigger] cmds@[i]).rule is TunnelAccept ==> tunnel is Some),
    ensures
        batch.deep_view() == batch_tokens(cmds@, tunnel_view(*tunnel)),
{
    let mut batch: Vec<Vec<String>> = Vec::new();
    let mut i: usize = 0;
    while i < cmds.len()
        invariant
            i <= cmds.len(),
            batch.deep_view() == batch_tokens(cmds@.take(i as int), tunnel_view(*tunnel)),
            forall|j: int|
                0 <= j < cmds@.len() ==> ((#[trigger] cmds@[j]).rule is TunnelAccept ==> tunnel
                    is Some),
        decreases cmds.len() - i,
    {
        let args = render_command(&cmds[i], tunnel);
        let ghost prev = batch.deep_view();
        batch.push(args);
        proof {
            assert(batch.deep_view() =~= prev.push(args.deep_view()));
            assert(cmds@.take(i + 1)[i as int] == cmds@[i as int]);
            assert(prev.push(args.deep_view()) =~= batch_tokens(
                cmds@.take(i + 1),
                tunnel_view(*tunnel),
            ));
        }
        i += 1;
    }
    proof {
        assert(cmds@.take(cmds@.len() as int) =~= cmds@);
    }
    batch
}

} // verus!
