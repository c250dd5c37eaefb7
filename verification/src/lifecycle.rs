//! The kill-switch lifecycle orchestrator: a state machine over the phases
//! pre-connect, post-connect and disconnect, driving one rule batch per
//! address family through the executors it owns, fail-fast, and recording
//! every rule it installs so that disconnect can remove exactly those.

use vstd::prelude::*;
use crate::exception::AddressFamily;
use crate::exception::FirewallException;
use crate::executor::ExecutionError;
use crate::executor::Executor;
use crate::executor::run_batch;
use crate::rules::Rule;
use crate::rules::batch_tokens;
use crate::rules::build_append_commands;
use crate::rules::build_delete_commands;
use crate::rules::build_pre_connect_rules;
use crate::rules::delete_commands;
use crate::rules::lemma_pre_connect_prefix_free_of_tunnel;
use crate::rules::post_connect_batch;
use crate::rules::pre_connect_batch;
use crate::rules::pre_connect_rules;
use crate::rules::render_batch;
use crate::rules::RuleCommand;
use crate::rules::RuleOp;

verus! {

/// One discrete point of the session lifecycle requiring a rule-set change.
#[derive(Clone, Copy, Debug, PartialEq, Eq, Structural)]
pub enum Phase {
    PreConnect,
    PostConnect,
    Disconnect,
}

/// The state of one kill-switch session.
#[derive(Clone, Copy, Debug, PartialEq, Eq, Structural)]
pub enum LifecycleState {
    Idle,
    PreConnected,
    Connected,
    Disconnected,
    Failed,
}

/// The error taxonomy of the engine.
#[derive(Clone, Copy, Debug, PartialEq, Eq)]
pub enum FirewallError {
    /// No candidate backend's probe succeeded.
    NoBackendAvailable,
    /// Environment introspection itself failed during a probe.
    Probe,
    /// A batch failed, naming the phase, the address family and the failing
    /// command's error.
    Phase { phase: Phase, family: AddressFamily, error: ExecutionError },
    /// A phase was invoked out of its allowed order: a programming error,
    /// rejected before any rule mutation.
    SequenceViolation,
}

/// The orchestrator of one VPN session. It owns one executor per address
/// family, the record of the rules it has installed on each family's OUTPUT
/// chain (in chain order), and the tunnel interface name once known.
pub struct KillSwitch<E: Executor> {
    ipv4: E,
    ipv6: E,
    state: LifecycleState,
    rules_v4: Vec<Rule>,
    rules_v6: Vec<Rule>,
    tunnel_interface: Option<String>,
}

impl<E: Executor> KillSwitch<E> {
    /// The lifecycle state of the session.
    pub closed spec fn lifecycle(self) -> LifecycleState {
        self.state
    }

    /// Every argument vector the IPv4 executor has received.
    pub closed spec fn issued_v4(self) -> Seq<Seq<Seq<char>>> {
        self.ipv4.issued()
    }

    /// Every argument vector the IPv6 executor has received.
    pub closed spec fn issued_v6(self) -> Seq<Seq<Seq<char>>> {
        self.ipv6.issued()
    }

    /// The engine-installed rules of the IPv4 OUTPUT chain, in chain order.
    pub closed spec fn chain_v4(self) -> Seq<Rule> {
        self.rules_v4@
    }

    /// The engine-installed rules of the IPv6 OUTPUT chain, in chain order.
    pub closed spec fn chain_v6(self) -> Seq<Rule> {
        self.rules_v6@
    }

    /// Whether a tunnel interface name has been recorded.
    pub closed spec fn has_tunnel(self) -> bool {
        self.tunnel_interface is Some
    }

    /// The recorded tunnel interface name, empty when none is recorded.
    pub closed spec fn tunnel_text(self) -> Seq<char> {
        match self.tunnel_interface {
            Some(s) => s@,
            None => Seq::empty(),
        }
    }

    /// Well-formedness: before any phase ran nothing is recorded, and a
    /// recorded tunnel rule always has a recorded interface name behind it.
    pub open spec fn wf(self) -> bool {
        &&& (self.lifecycle() == LifecycleState::Idle ==> self.chain_v4() == Seq::<Rule>::empty()
            && self.chain_v6() == Seq::<Rule>::empty())
        &&& (self.chain_v4().contains(Rule::TunnelAccept) ==> self.has_tunnel())
        &&& (self.chain_v6().contains(Rule::TunnelAccept) ==> self.has_tunnel())
    }

    /// A fresh session around one executor per family.
    pub fn new(ipv4: E, ipv6: E) -> (k: Self)
        ensures
            k.wf(),
            k.lifecycle() == LifecycleState::Idle,
            k.issued_v4() == ipv4.issued(),
            k.issued_v6() == ipv6.issued(),
            k.chain_v4() == Seq::<Rule>::empty(),
            k.chain_v6() == Seq::<Rule>::empty(),
            !k.has_tunnel(),
    {
        let k = KillSwitch {
            ipv4,
            ipv6,
            state: LifecycleState::Idle,
            rules_v4: Vec::new(),
            rules_v6: Vec::new(),
            tunnel_interface: None,
        };
        proof {
            assert(k.chain_v4() =~= Seq::<Rule>::empty());
            assert(k.chain_v6() =~= Seq::<Rule>::empty());
        }
        k
    }

    /// The IPv4 executor, for reading its state back.
    pub fn executor_v4(&self) -> (e: &E)
        ensures
            e.issued() == self.issued_v4(),
    {
        &self.ipv4
    }

    /// The IPv6 executor, for reading its state back.
    pub fn executor_v6(&self) -> (e: &E)
        ensures
            e.issued() == self.issued_v6(),
    {
        &self.ipv6
    }

    /// The lifecycle state, readable at run time.
    pub fn current_state(&self) -> (s: LifecycleState)
        ensures
            s == self.lifecycle(),
    {
        self.state
    }

    /// What a successful pre-connect did: both executors received their
    /// family's full batch, and both chains now hold every accept rule
    /// followed by the catch-all drop.
    pub open spec fn pre_connect_ok(pre: Self, post: Self, excs: Seq<FirewallException>) -> bool {
        &&& post.lifecycle() == LifecycleState::PreConnected
        &&& post.issued_v4() == pre.issued_v4() + batch_tokens(
            pre_connect_batch(excs, AddressFamily::V4),
            Seq::empty(),
        )
        &&& post.issued_v6() == pre.issued_v6() + batch_tokens(
            pre_connect_batch(excs, AddressFamily::V6),
            Seq::empty(),
        )
        &&& post.chain_v4() == pre_connect_rules(excs, AddressFamily::V4)
        &&& post.chain_v6() == pre_connect_rules(excs, AddressFamily::V6)
        &&& !post.has_tunnel()
    }

    /// What a pre-connect failed on the IPv4 pass left behind: the IPv4
    /// executor received the batch only up to and including the failing
    /// command, the IPv6 executor was never invoked, and the chain records
    /// exactly the commands that succeeded.
    pub open spec fn pre_connect_failed_v4(
        pre: Self,
        post: Self,
        excs: Seq<FirewallException>,
    ) -> bool {
        &&& post.lifecycle() == LifecycleState::Failed
        &&& post.issued_v6() == pre.issued_v6()
        &&& post.chain_v6() == pre.chain_v6()
        &&& exists|n: int|
            #![auto]
            0 <= n < pre_connect_batch(excs, AddressFamily::V4).len() && post.issued_v4()
                == pre.issued_v4() + batch_tokens(
                pre_connect_batch(excs, AddressFamily::V4),
                Seq::empty(),
            ).take(n + 1) && post.chain_v4() == pre_connect_rules(excs, AddressFamily::V4).take(n)
    }

    /// What a pre-connect failed on the IPv6 pass left behind: the IPv4 pass
    /// completed in full, the IPv6 executor received its batch only up to
    /// and including the failing command.
    pub open spec fn pre_connect_failed_v6(
        pre: Self,
        post: Self,
        excs: Seq<FirewallException>,
    ) -> bool {
        &&& post.lifecycle() == LifecycleState::Failed
        &&& post.issued_v4() == pre.issued_v4() + batch_tokens(
            pre_connect_batch(excs, AddressFamily::V4),
            Seq::empty(),
        )
        &&& post.chain_v4() == pre_connect_rules(excs, AddressFamily::V4)
        &&& exists|n: int|
            #![auto]
            0 <= n < pre_connect_batch(excs, AddressFamily::V6).len() && post.issued_v6()
                == pre.issued_v6() + batch_tokens(
                pre_connect_batch(excs, AddressFamily::V6),
                Seq::empty(),
            ).take(n + 1) && post.chain_v6() == pre_connect_rules(excs, AddressFamily::V6).take(n)
    }

    /// Installs the deny-all ruleset with one accept per exception ahead of
    /// it, per address family, IPv4 first. Allowed only from `Idle`; on any
    /// execution failure the session moves to `Failed` and the error names
    /// the phase and family.
    pub fn on_pre_connect(&mut self, exceptions: &Vec<FirewallException>) -> (r: Result<
        (),
        FirewallError,
    >)
        requires
            old(self).wf(),
        ensures
            final(self).wf(),
            old(self).lifecycle() != LifecycleState::Idle ==> r == Err::<(), FirewallError>(
                FirewallError::SequenceViolation,
            ) && *final(self) == *old(self),
            old(self).lifecycle() == LifecycleState::Idle && r is Ok ==> Self::pre_connect_ok(
                *old(self),
                *final(self),
                exceptions@,
            ),
            old(self).lifecycle() == LifecycleState::Idle && r is Err ==> (r matches Err(
                FirewallError::Phase { phase, family, error },
            ) && phase == Phase::PreConnect && ((family == AddressFamily::V4
                && Self::pre_connect_failed_v4(*old(self), *final(self), exceptions@)) || (family
                == AddressFamily::V6 && Self::pre_connect_failed_v6(
                *old(self),
                *final(self),
                exceptions@,
            )))),
    {
        let ghost pre = *self;
        match self.state {
            LifecycleState::Idle => {},
            _ => {
                return Err(FirewallError::SequenceViolation);
            },
        }
        let no_tunnel: Option<String> = None;

        let rules4 = build_pre_connect_rules(exceptions, AddressFamily::V4);
        let cmds4 = build_append_commands(&rules4);
        proof {
            lemma_pre_connect_prefix_free_of_tunnel(
                exceptions@,
                AddressFamily::V4,
                rules4@.len() as int,
            );
        }
        let toks4 = render_batch(&cmds4, &no_tunnel);
        let r4 = run_batch(&mut self.ipv4, &toks4);
        match r4 {
            Err((n, e)) => {
                let kept = prefix_rules(&rules4, n);
                self.rules_v4 = kept;
                self.state = LifecycleState::Failed;
                proof {
                    lemma_pre_connect_prefix_free_of_tunnel(exceptions@, AddressFamily::V4, n as int);
                    assert(Self::pre_connect_failed_v4(pre, *self, exceptions@));
                }
                return Err(
                    FirewallError::Phase {
                        phase: Phase::PreConnect,
                        family: AddressFamily::V4,
                        error: e,
                    },
                );
            },
            Ok(()) => {},
        }

        let rules6 = build_pre_connect_rules(exceptions, AddressFamily::V6);
        let cmds6 = build_append_commands(&rules6);
        proof {
            lemma_pre_connect_prefix_free_of_tunnel(
                exceptions@,
                AddressFamily::V6,
                rules6@.len() as int,
            );
        }
        let toks6 = render_batch(&cmds6, &no_tunnel);
        let r6 = run_batch(&mut self.ipv6, &toks6);
        match r6 {
            Err((n, e)) => {
                self.rules_v4 = rules4;
                let kept = prefix_rules(&rules6, n);
                self.rules_v6 = kept;
                self.state = LifecycleState::Failed;
                proof {
                    lemma_pre_connect_prefix_free_of_tunnel(exceptions@, AddressFamily::V6, n as int);
                    assert(pre_connect_rules(exceptions@, AddressFamily::V4).take(
                        rules4@.len() as int,
                    ) =~= pre_connect_rules(exceptions@, AddressFamily::V4));
                    assert(Self::pre_connect_failed_v6(pre, *self, exceptions@));
                }
                return Err(
                    FirewallError::Phase {
                        phase: Phase::PreConnect,
                        family: AddressFamily::V6,
                        error: e,
                    },
                );
            },
            Ok(()) => {},
        }

        self.rules_v4 = rules4;
        self.rules_v6 = rules6;
        self.tunnel_interface = None;
        self.state = LifecycleState::PreConnected;
        proof {
            assert(pre_connect_rules(exceptions@, AddressFamily::V4).take(rules4@.len() as int)
                =~= pre_connect_rules(exceptions@, AddressFamily::V4));
            assert(pre_connect_rules(exceptions@, AddressFamily::V6).take(rules6@.len() as int)
                =~= pre_connect_rules(exceptions@, AddressFamily::V6));
        }
        Ok(())
    }

    /// What a successful post-connect did: each executor received the single
    /// insert of the tunnel accept rule, which now stands at the head of
    /// each chain, ahead of the catch-all drop.
    pub open spec fn post_connect_ok(pre: Self, post: Self, interface: Seq<char>) -> bool {
        &&& post.lifecycle() == LifecycleState::Connected
        &&& post.issued_v4() == pre.issued_v4() + batch_tokens(post_connect_batch(), interface)
        &&& post.issued_v6() == pre.issued_v6() + batch_tokens(post_connect_batch(), interface)
        &&& post.chain_v4() == seq![Rule::TunnelAccept] + pre.chain_v4()
        &&& post.chain_v6() == seq![Rule::TunnelAccept] + pre.chain_v6()
        &&& post.tunnel_text() == interface
        &&& post.has_tunnel()
    }

    /// What a post-connect failed on the IPv4 pass left behind: the failing
    /// insert was issued to the IPv4 executor only, and neither chain
    /// changed.
    pub open spec fn post_connect_failed_v4(pre: Self, post: Self, interface: Seq<char>) -> bool {
        &&& post.lifecycle() == LifecycleState::Failed
        &&& post.issued_v4() == pre.issued_v4() + batch_tokens(post_connect_batch(), interface)
        &&& post.issued_v6() == pre.issued_v6()
        &&& post.chain_v4() == pre.chain_v4()
        &&& post.chain_v6() == pre.chain_v6()
    }

    /// What a post-connect failed on the IPv6 pass left behind: the IPv4
    /// chain holds the tunnel rule, the IPv6 chain does not.
    pub open spec fn post_connect_failed_v6(pre: Self, post: Self, interface: Seq<char>) -> bool {
        &&& post.lifecycle() == LifecycleState::Failed
        &&& post.issued_v4() == pre.issued_v4() + batch_tokens(post_connect_batch(), interface)
        &&& post.issued_v6() == pre.issued_v6() + batch_tokens(post_connect_batch(), interface)
        &&& post.chain_v4() == seq![Rule::TunnelAccept] + pre.chain_v4()
        &&& post.chain_v6() == pre.chain_v6()
    }

    /// Inserts the tunnel-interface accept rule at the head of each chain,
    /// ahead of the catch-all drop, IPv4 first. Allowed only from
    /// `PreConnected`: invoked in any other state, in particular before
    /// `on_pre_connect`, it is rejected without attempting any rule
    /// mutation.
    pub fn on_post_connect(&mut self, interface: &str) -> (r: Result<(), FirewallError>)
        requires
            old(self).wf(),
        ensures
            final(self).wf(),
            old(self).lifecycle() != LifecycleState::PreConnected ==> r == Err::<
                (),
                FirewallError,
            >(FirewallError::SequenceViolation) && *final(self) == *old(self),
            old(self).lifecycle() == LifecycleState::PreConnected ==> final(self).tunnel_text()
                == interface@ && final(self).has_tunnel(),
            old(self).lifecycle() == LifecycleState::PreConnected && r is Ok
                ==> Self::post_connect_ok(*old(self), *final(self), interface@),
            old(self).lifecycle() == LifecycleState::PreConnected && r is Err ==> (r matches Err(
                FirewallError::Phase { phase, family, error },
            ) && phase == Phase::PostConnect && ((family == AddressFamily::V4
                && Self::post_connect_failed_v4(*old(self), *final(self), interface@)) || (family
                == AddressFamily::V6 && Self::post_connect_failed_v6(
                *old(self),
                *final(self),
                interface@,
            )))),
    {
        let ghost pre = *self;
        match self.state {
            LifecycleState::PreConnected => {},
            _ => {
                return Err(FirewallError::SequenceViolation);
            },
        }
        self.tunnel_interface = Some(String::from_str(interface));

        let mut cmds: Vec<RuleCommand> = Vec::new();
        cmds.push(RuleCommand { op: RuleOp::Insert, rule: Rule::TunnelAccept });
        proof {
            assert(cmds@ =~= post_connect_batch());
        }
        let toks = render_batch(&cmds, &self.tunnel_interface);
        let r4 = run_batch(&mut self.ipv4, &toks);
        match r4 {
            Err((n, e)) => {
                self.state = LifecycleState::Failed;
                proof {
                    assert(toks.deep_view().take(n + 1) =~= toks.deep_view());
                    assert(Self::post_connect_failed_v4(pre, *self, interface@));
                }
                return Err(
                    FirewallError::Phase {
                        phase: Phase::PostConnect,
                        family: AddressFamily::V4,
                        error: e,
                    },
                );
            },
            Ok(()) => {},
        }
        self.rules_v4.insert(0, Rule::TunnelAccept);
        proof {
            assert(self.rules_v4@ =~= seq![Rule::TunnelAccept] + pre.chain_v4());
        }

        let r6 = run_batch(&mut self.ipv6, &toks);
        match r6 {
            Err((n, e)) => {
                self.state = LifecycleState::Failed;
                proof {
                    assert(toks.deep_view().take(n + 1) =~= toks.deep_view());
                    assert(Self::post_connect_failed_v6(pre, *self, interface@));
                }
                return Err(
                    FirewallError::Phase {
                        phase: Phase::PostConnect,
                        family: AddressFamily::V6,
                        error: e,
                    },
                );
            },
            Ok(()) => {},
        }
        self.rules_v6.insert(0, Rule::TunnelAccept);
        proof {
            assert(self.rules_v6@ =~= seq![Rule::TunnelAccept] + pre.chain_v6());
        }
        self.state = LifecycleState::Connected;
        Ok(())
    }

    /// What a successful disconnect did: each executor received one delete
    /// per recorded rule, in chain order, and nothing remains recorded.
    pub open spec fn disconnect_ok(pre: Self, post: Self) -> bool {
        &&& post.lifecycle() == LifecycleState::Disconnected
        &&& post.issued_v4() == pre.issued_v4() + batch_tokens(
            delete_commands(pre.chain_v4()),
            pre.tunnel_text(),
        )
        &&& post.issued_v6() == pre.issued_v6() + batch_tokens(
            delete_commands(pre.chain_v6()),
            pre.tunnel_text(),
        )
        &&& post.chain_v4() == Seq::<Rule>::empty()
        &&& post.chain_v6() == Seq::<Rule>::empty()
        &&& !post.has_tunnel()
    }

    /// What a disconnect failed on the IPv4 pass left behind: the deletes up
    /// to and including the failing one were issued, the rules whose deletes
    /// succeeded are no longer recorded, and the IPv6 executor was never
    /// invoked.
    pub open spec fn disconnect_failed_v4(pre: Self, post: Self) -> bool {
        &&& post.lifecycle() == LifecycleState::Failed
        &&& post.issued_v6() == pre.issued_v6()
        &&& post.chain_v6() == pre.chain_v6()
        &&& post.tunnel_text() == pre.tunnel_text()
        &&& exists|n: int|
            #![auto]
            0 <= n < pre.chain_v4().len() && post.issued_v4() == pre.issued_v4() + batch_tokens(
                delete_commands(pre.chain_v4()),
                pre.tunnel_text(),
            ).take(n + 1) && post.chain_v4() == pre.chain_v4().skip(n)
    }

    /// What a disconnect failed on the IPv6 pass left behind: the IPv4 chain
    /// was fully torn down, the IPv6 chain only up to the failing delete.
    pub open spec fn disconnect_failed_v6(pre: Self, post: Self) -> bool {
        &&& post.lifecycle() == LifecycleState::Failed
        &&& post.issued_v4() == pre.issued_v4() + batch_tokens(
            delete_commands(pre.chain_v4()),
            pre.tunnel_text(),
        )
        &&& post.chain_v4() == Seq::<Rule>::empty()
        &&& post.tunnel_text() == pre.tunnel_text()
        &&& exists|n: int|
            #![auto]
            0 <= n < pre.chain_v6().len() && post.issued_v6() == pre.issued_v6() + batch_tokens(
                delete_commands(pre.chain_v6()),
                pre.tunnel_text(),
            ).take(n + 1) && post.chain_v6() == pre.chain_v6().skip(n)
    }

    /// Removes every rule the engine itself added, per family, IPv4 first,
    /// each rule targeted by its exact original specification. Allowed from
    /// every state, and idempotent: with nothing recorded it issues no
    /// command and succeeds.
    pub fn on_disconnect(&mut self) -> (r: Result<(), FirewallError>)
        requires
            old(self).wf(),
        ensures
            final(self).wf(),
            r is Ok ==> Self::disconnect_ok(*old(self), *final(self)),
            r is Err ==> (r matches Err(FirewallError::Phase { phase, family, error }) && phase
                == Phase::Disconnect && ((family == AddressFamily::V4
                && Self::disconnect_failed_v4(*old(self), *final(self))) || (family
                == AddressFamily::V6 && Self::disconnect_failed_v6(*old(self), *final(self))))),
            old(self).chain_v4().len() == 0 && old(self).chain_v6().len() == 0 ==> r is Ok
                && final(self).issued_v4() == old(self).issued_v4() && final(self).issued_v6()
                == old(self).issued_v6() && final(self).lifecycle()
                == LifecycleState::Disconnected,
    {
        let ghost pre = *self;
        let cmds4 = build_delete_commands(&self.rules_v4);
        proof {
            assert forall|j: int|
                0 <= j < cmds4@.len() && (#[trigger] cmds4@[j]).rule is TunnelAccept
                implies self.tunnel_interface is Some by {
                assert(self.rules_v4@[j] == cmds4@[j].rule);
                assert(self.rules_v4@.contains(Rule::TunnelAccept));
            }
        }
        let toks4 = render_batch(&cmds4, &self.tunnel_interface);
        let r4 = run_batch(&mut self.ipv4, &toks4);
        match r4 {
            Err((n, e)) => {
                let kept = suffix_rules(&self.rules_v4, n);
                self.rules_v4 = kept;
                self.state = LifecycleState::Failed;
                proof {
                    if self.rules_v4@.contains(Rule::TunnelAccept) {
                        let j = choose|j: int|
                            0 <= j < self.rules_v4@.len() && self.rules_v4@[j]
                                == Rule::TunnelAccept;
                        assert(pre.chain_v4()[n + j] == Rule::TunnelAccept);
                        assert(pre.chain_v4().contains(Rule::TunnelAccept));
                    }
                    assert(Self::disconnect_failed_v4(pre, *self));
                }
                return Err(
                    FirewallError::Phase {
                        phase: Phase::Disconnect,
                        family: AddressFamily::V4,
                        error: e,
                    },
                );
            },
            Ok(()) => {},
        }
        self.rules_v4 = Vec::new();

        let cmds6 = build_delete_commands(&self.rules_v6);
        proof {
            assert forall|j: int|
                0 <= j < cmds6@.len() && (#[trigger] cmds6@[j]).rule is TunnelAccept
                implies self.tunnel_interface is Some by {
                assert(self.rules_v6@[j] == cmds6@[j].rule);
                assert(self.rules_v6@.contains(Rule::TunnelAccept));
            }
        }
        let toks6 = render_batch(&cmds6, &self.tunnel_interface);
        let r6 = run_batch(&mut self.ipv6, &toks6);
        match r6 {
            Err((n, e)) => {
                let kept = suffix_rules(&self.rules_v6, n);
                self.rules_v6 = kept;
                self.state = LifecycleState::Failed;
                proof {
                    assert(self.rules_v4@ =~= Seq::<Rule>::empty());
                    if self.rules_v6@.contains(Rule::TunnelAccept) {
                        let j = choose|j: int|
                            0 <= j < self.rules_v6@.len() && self.rules_v6@[j]
                                == Rule::TunnelAccept;
                        assert(pre.chain_v6()[n + j] == Rule::TunnelAccept);
                        assert(pre.chain_v6().contains(Rule::TunnelAccept));
                    }
                    assert(Self::disconnect_failed_v6(pre, *self));
                }
                return Err(
                    FirewallError::Phase {
                        phase: Phase::Disconnect,
                        family: AddressFamily::V6,
                        error: e,
                    },
                );
            },
            Ok(()) => {},
        }
        self.rules_v6 = Vec::new();
        self.tunnel_interface = None;
        self.state = LifecycleState::Disconnected;
        proof {
            assert(self.rules_v4@ =~= Seq::<Rule>::empty());
            assert(self.rules_v6@ =~= Seq::<Rule>::empty());
            if pre.chain_v4().len() == 0 && pre.chain_v6().len() == 0 {
                assert(toks4.deep_view() =~= Seq::<Seq<Seq<char>>>::empty());
                assert(toks6.deep_view() =~= Seq::<Seq<Seq<char>>>::empty());
                assert(pre.issued_v4() + toks4.deep_view() =~= pre.issued_v4());
                assert(pre.issued_v6() + toks6.deep_view() =~= pre.issued_v6());
            }
        }
        Ok(())
    }
}

/// Law: after a successful pre-connect and post-connect, each chain holds
/// the tunnel accept rule at its head and the catch-all drop at its tail,
/// so for every tunnel interface name the one interface accept stands
/// strictly ahead of the drop installed during pre-connect.
pub proof fn lemma_session_chain_order<E: Executor>(
    s0: KillSwitch<E>,
    s1: KillSwitch<E>,
    s2: KillSwitch<E>,
    excs: Seq<FirewallException>,
    interface: Seq<char>,
)
    requires
        KillSwitch::pre_connect_ok(s0, s1, excs),
        KillSwitch::post_connect_ok(s1, s2, interface),
    ensures
        s2.chain_v4() == seq![Rule::TunnelAccept] + pre_connect_rules(excs, AddressFamily::V4),
        s2.chain_v6() == seq![Rule::TunnelAccept] + pre_connect_rules(excs, AddressFamily::V6),
        crate::rules::first_match(s2.chain_v4(), Rule::TunnelAccept) == 0,
        crate::rules::first_match(s2.chain_v6(), Rule::TunnelAccept) == 0,
        crate::rules::first_match(s2.chain_v4(), Rule::TunnelAccept) < crate::rules::first_match(
            s2.chain_v4(),
            Rule::DropAll,
        ),
        crate::rules::first_match(s2.chain_v6(), Rule::TunnelAccept) < crate::rules::first_match(
            s2.chain_v6(),
            Rule::DropAll,
        ),
{
    crate::rules::lemma_pre_connect_batch_shape(excs, AddressFamily::V4);
    crate::rules::lemma_pre_connect_batch_shape(excs, AddressFamily::V6);
    crate::rules::lemma_post_connect_orders_tunnel_before_drop(
        pre_connect_rules(excs, AddressFamily::V4),
    );
    crate::rules::lemma_post_connect_orders_tunnel_before_drop(
        pre_connect_rules(excs, AddressFamily::V6),
    );
}

fn prefix_rules(rules: &Vec<Rule>, n: usize) -> (kept: Vec<Rule>)
    requires
        n <= rules@.len(),
    ensures
        kept@ == rules@.take(n as int),
{
    let mut kept: Vec<Rule> = Vec::new();
    let mut i: usize = 0;
    while i < n
        invariant
            i <= n <= rules@.len(),
            kept@ == rules@.take(i as int),
        decreases n - i,
    {
        kept.push(rules[i]);
        proof {
            assert(kept@ =~= rules@.take(i + 1));
        }
        i += 1;
    }
    kept
}

fn suffix_rules(rules: &Vec<Rule>, n: usize) -> (kept: Vec<Rule>)
    requires
        n <= rules@.len(),
    ensures
        kept@ == rules@.skip(n as int),
{
    let mut kept: Vec<Rule> = Vec::new();
    let mut i: usize = n;
    while i < rules.len()
        invariant
            n <= i <= rules@.len(),
            kept@ == rules@.subrange(n as int, i as int),
        decreases rules@.len() - i,
    {
        kept.push(rules[i]);
        proof {
            assert(kept@ =~= rules@.subrange(n as int, i + 1));
        }
        i += 1;
    }
    proof {
        assert(rules@.subrange(n as int, rules@.len() as int) =~= rules@.skip(n as int));
    }
    kept
}

} // verus!
