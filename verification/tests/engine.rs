use linkage_firewall::exception::AddressFamily;
use linkage_firewall::exception::FirewallException;
use linkage_firewall::exception::IpAddress;
use linkage_firewall::exception::Protocol;
use linkage_firewall::executor::ExecutionError;
use linkage_firewall::executor::ScriptedExecutor;
use linkage_firewall::lifecycle::FirewallError;
use linkage_firewall::lifecycle::KillSwitch;
use linkage_firewall::lifecycle::LifecycleState;
use linkage_firewall::lifecycle::Phase;

fn args(tokens: &[&str]) -> Vec<String> {
    tokens.iter().map(|t| String::from(*t)).collect()
}

fn v4_exception(a: u8, b: u8, c: u8, d: u8, port: u16, protocol: Protocol) -> FirewallException {
    FirewallException::new(IpAddress::V4 { a, b, c, d }, port, protocol)
}

/// The scenario: one UDP exception; pre-connect emits its accept plus the
/// catch-all drop, post-connect with "tun0" emits one interface accept, and
/// disconnect removes all three.
#[test]
fn scenario_single_udp_exception_full_lifecycle() {
    let exceptions = vec![v4_exception(203, 0, 113, 5, 1194, Protocol::Udp)];
    let mut k = KillSwitch::new(ScriptedExecutor::new(), ScriptedExecutor::new());

    assert!(k.on_pre_connect(&exceptions).is_ok());
    assert_eq!(LifecycleState::PreConnected, k.current_state());
    assert_eq!(
        &vec![
            args(&["-A", "OUTPUT", "-d", "203.0.113.5", "-p", "udp", "--dport", "1194", "-j",
                "ACCEPT"]),
            args(&["-A", "OUTPUT", "-j", "DROP"]),
        ],
        k.executor_v4().issued_commands()
    );
    assert_eq!(
        &vec![args(&["-A", "OUTPUT", "-j", "DROP"])],
        k.executor_v6().issued_commands()
    );

    assert!(k.on_post_connect("tun0").is_ok());
    assert_eq!(LifecycleState::Connected, k.current_state());
    assert_eq!(
        &vec![
            args(&["-A", "OUTPUT", "-d", "203.0.113.5", "-p", "udp", "--dport", "1194", "-j",
                "ACCEPT"]),
            args(&["-A", "OUTPUT", "-j", "DROP"]),
            args(&["-I", "OUTPUT", "-o", "tun0", "-j", "ACCEPT"]),
        ],
        k.executor_v4().issued_commands()
    );
    assert_eq!(
        &vec![
            args(&["-A", "OUTPUT", "-j", "DROP"]),
            args(&["-I", "OUTPUT", "-o", "tun0", "-j", "ACCEPT"]),
        ],
        k.executor_v6().issued_commands()
    );

    assert!(k.on_disconnect().is_ok());
    assert_eq!(LifecycleState::Disconnected, k.current_state());
    assert_eq!(
        &vec![
            args(&["-A", "OUTPUT", "-d", "203.0.113.5", "-p", "udp", "--dport", "1194", "-j",
                "ACCEPT"]),
            args(&["-A", "OUTPUT", "-j", "DROP"]),
            args(&["-I", "OUTPUT", "-o", "tun0", "-j", "ACCEPT"]),
            args(&["-D", "OUTPUT", "-o", "tun0", "-j", "ACCEPT"]),
            args(&["-D", "OUTPUT", "-d", "203.0.113.5", "-p", "udp", "--dport", "1194", "-j",
                "ACCEPT"]),
            args(&["-D", "OUTPUT", "-j", "DROP"]),
        ],
        k.executor_v4().issued_commands()
    );
    assert_eq!(
        &vec![
            args(&["-A", "OUTPUT", "-j", "DROP"]),
            args(&["-I", "OUTPUT", "-o", "tun0", "-j", "ACCEPT"]),
            args(&["-D", "OUTPUT", "-o", "tun0", "-j", "ACCEPT"]),
            args(&["-D", "OUTPUT", "-j", "DROP"]),
        ],
        k.executor_v6().issued_commands()
    );
}

/// Exceptions of both families go each to their own family's executor, and
/// a TCP exception renders with "tcp". The IPv6 address renders in
/// colon-separated hexadecimal groups.
#[test]
fn pre_connect_splits_families() {
    let exceptions = vec![
        v4_exception(10, 0, 0, 1, 443, Protocol::Tcp),
        FirewallException::new(
            IpAddress::V6 { s0: 0x2001, s1: 0xdb8, s2: 0, s3: 0, s4: 0, s5: 0, s6: 0, s7: 1 },
            1194,
            Protocol::Udp,
        ),
    ];
    let mut k = KillSwitch::new(ScriptedExecutor::new(), ScriptedExecutor::new());
    assert!(k.on_pre_connect(&exceptions).is_ok());
    assert_eq!(
        &vec![
            args(&["-A", "OUTPUT", "-d", "10.0.0.1", "-p", "tcp", "--dport", "443", "-j",
                "ACCEPT"]),
            args(&["-A", "OUTPUT", "-j", "DROP"]),
        ],
        k.executor_v4().issued_commands()
    );
    assert_eq!(
        &vec![
            args(&["-A", "OUTPUT", "-d", "2001:db8:0:0:0:0:0:1", "-p", "udp", "--dport", "1194",
                "-j", "ACCEPT"]),
            args(&["-A", "OUTPUT", "-j", "DROP"]),
        ],
        k.executor_v6().issued_commands()
    );
}

/// Disconnect is idempotent: a second disconnect against the same recorded
/// state issues no command and reports no error.
#[test]
fn disconnect_twice_is_idempotent() {
    let exceptions = vec![v4_exception(203, 0, 113, 5, 1194, Protocol::Udp)];
    let mut k = KillSwitch::new(ScriptedExecutor::new(), ScriptedExecutor::new());
    assert!(k.on_pre_connect(&exceptions).is_ok());
    assert!(k.on_post_connect("tun0").is_ok());
    assert!(k.on_disconnect().is_ok());
    let issued_v4 = k.executor_v4().issued_commands().clone();
    let issued_v6 = k.executor_v6().issued_commands().clone();

    assert!(k.on_disconnect().is_ok());
    assert_eq!(LifecycleState::Disconnected, k.current_state());
    assert_eq!(&issued_v4, k.executor_v4().issued_commands());
    assert_eq!(&issued_v6, k.executor_v6().issued_commands());
}

/// When the executor fails on the second command of a batch, the commands
/// after it are never issued and the error names the phase and family.
#[test]
fn pre_connect_fails_fast_within_batch() {
    let exceptions = vec![
        v4_exception(10, 0, 0, 1, 1194, Protocol::Udp),
        v4_exception(10, 0, 0, 2, 443, Protocol::Tcp),
    ];
    let failing = ScriptedExecutor::with_script(vec![
        None,
        Some(ExecutionError::NonZeroExit(Some(1))),
    ]);
    let mut k = KillSwitch::new(failing, ScriptedExecutor::new());
    let r = k.on_pre_connect(&exceptions);
    assert_eq!(
        Err(FirewallError::Phase {
            phase: Phase::PreConnect,
            family: AddressFamily::V4,
            error: ExecutionError::NonZeroExit(Some(1)),
        }),
        r
    );
    assert_eq!(LifecycleState::Failed, k.current_state());
    // The failing command was issued; the third command of the batch never was.
    assert_eq!(
        &vec![
            args(&["-A", "OUTPUT", "-d", "10.0.0.1", "-p", "udp", "--dport", "1194", "-j",
                "ACCEPT"]),
            args(&["-A", "OUTPUT", "-d", "10.0.0.2", "-p", "tcp", "--dport", "443", "-j",
                "ACCEPT"]),
        ],
        k.executor_v4().issued_commands()
    );
}

/// When the IPv4 pass fails, the IPv6 executor for the same phase is never
/// invoked.
#[test]
fn v6_skipped_when_v4_fails() {
    let exceptions = vec![v4_exception(10, 0, 0, 1, 1194, Protocol::Udp)];
    let failing = ScriptedExecutor::with_script(vec![Some(ExecutionError::SpawnFailed)]);
    let mut k = KillSwitch::new(failing, ScriptedExecutor::new());
    let r = k.on_pre_connect(&exceptions);
    assert_eq!(
        Err(FirewallError::Phase {
            phase: Phase::PreConnect,
            family: AddressFamily::V4,
            error: ExecutionError::SpawnFailed,
        }),
        r
    );
    assert!(k.executor_v6().issued_commands().is_empty());
}

/// A post-connect failure still names its phase, and teardown afterwards
/// removes exactly what was installed.
#[test]
fn post_connect_failure_then_teardown() {
    let exceptions = vec![v4_exception(203, 0, 113, 5, 1194, Protocol::Udp)];
    // Two pre-connect commands succeed, the post-connect insert fails.
    let failing = ScriptedExecutor::with_script(vec![
        None,
        None,
        Some(ExecutionError::NonZeroExit(None)),
    ]);
    let mut k = KillSwitch::new(failing, ScriptedExecutor::new());
    assert!(k.on_pre_connect(&exceptions).is_ok());
    let r = k.on_post_connect("tun0");
    assert_eq!(
        Err(FirewallError::Phase {
            phase: Phase::PostConnect,
            family: AddressFamily::V4,
            error: ExecutionError::NonZeroExit(None),
        }),
        r
    );
    // The IPv6 executor saw only its pre-connect batch, nothing for this phase.
    assert_eq!(
        &vec![args(&["-A", "OUTPUT", "-j", "DROP"])],
        k.executor_v6().issued_commands()
    );
    // Teardown is still reachable and removes the rules that were installed.
    assert!(k.on_disconnect().is_ok());
    assert_eq!(LifecycleState::Disconnected, k.current_state());
    assert_eq!(
        &vec![
            args(&["-A", "OUTPUT", "-d", "203.0.113.5", "-p", "udp", "--dport", "1194", "-j",
                "ACCEPT"]),
            args(&["-A", "OUTPUT", "-j", "DROP"]),
            args(&["-I", "OUTPUT", "-o", "tun0", "-j", "ACCEPT"]),
            args(&["-D", "OUTPUT", "-d", "203.0.113.5", "-p", "udp", "--dport", "1194", "-j",
                "ACCEPT"]),
            args(&["-D", "OUTPUT", "-j", "DROP"]),
        ],
        k.executor_v4().issued_commands()
    );
}

/// `on_post_connect` before `on_pre_connect` is rejected without attempting
/// any rule mutation, and so is a second `on_pre_connect`.
#[test]
fn out_of_order_phases_are_rejected() {
    let mut k: KillSwitch<ScriptedExecutor> =
        KillSwitch::new(ScriptedExecutor::new(), ScriptedExecutor::new());
    let r = k.on_post_connect("tun0");
    assert_eq!(Err(FirewallError::SequenceViolation), r);
    assert_eq!(LifecycleState::Idle, k.current_state());
    assert!(k.executor_v4().issued_commands().is_empty());
    assert!(k.executor_v6().issued_commands().is_empty());

    let exceptions = vec![v4_exception(203, 0, 113, 5, 1194, Protocol::Udp)];
    assert!(k.on_pre_connect(&exceptions).is_ok());
    let issued_v4 = k.executor_v4().issued_commands().clone();
    assert_eq!(
        Err(FirewallError::SequenceViolation),
        k.on_pre_connect(&exceptions)
    );
    assert_eq!(&issued_v4, k.executor_v4().issued_commands());
}
