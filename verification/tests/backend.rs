use linkage_firewall::backend::availability_decision;
use linkage_firewall::backend::classify_lookup;
use linkage_firewall::backend::does_binary_exist;
use linkage_firewall::backend::select_backend;
use linkage_firewall::backend::BinaryLookup;
use linkage_firewall::lifecycle::FirewallError;

#[test]
fn selection_picks_first_available() {
    // Probe sequence [false, false, true]: the third candidate is selected.
    let probes: Vec<Result<bool, FirewallError>> = vec![Ok(false), Ok(false), Ok(true)];
    assert_eq!(Ok(2), select_backend(&probes));
}

#[test]
fn selection_with_no_available_backend() {
    let probes: Vec<Result<bool, FirewallError>> = vec![Ok(false), Ok(false), Ok(false)];
    assert_eq!(Err(FirewallError::NoBackendAvailable), select_backend(&probes));
    let empty: Vec<Result<bool, FirewallError>> = vec![];
    assert_eq!(Err(FirewallError::NoBackendAvailable), select_backend(&empty));
}

#[test]
fn selection_surfaces_probe_error() {
    let probes: Vec<Result<bool, FirewallError>> = vec![Ok(false), Err(FirewallError::Probe)];
    assert_eq!(Err(FirewallError::Probe), select_backend(&probes));
}

#[test]
fn availability_needs_linux_and_both_binaries() {
    assert_eq!(
        Ok(true),
        availability_decision(true, BinaryLookup::Found, BinaryLookup::Found)
    );
    assert_eq!(
        Ok(false),
        availability_decision(false, BinaryLookup::Found, BinaryLookup::Found)
    );
    assert_eq!(
        Ok(false),
        availability_decision(true, BinaryLookup::NotFound, BinaryLookup::Found)
    );
    assert_eq!(
        Ok(false),
        availability_decision(true, BinaryLookup::Found, BinaryLookup::NotFound)
    );
    assert_eq!(
        Err(FirewallError::Probe),
        availability_decision(true, BinaryLookup::LookupFailed, BinaryLookup::Found)
    );
    assert_eq!(
        Err(FirewallError::Probe),
        availability_decision(true, BinaryLookup::Found, BinaryLookup::LookupFailed)
    );
}

#[test]
fn classify_lookup_report_shape() {
    assert_eq!(Ok(true), classify_lookup(BinaryLookup::Found));
    assert_eq!(Ok(false), classify_lookup(BinaryLookup::NotFound));
    assert_eq!(Err(FirewallError::Probe), classify_lookup(BinaryLookup::LookupFailed));
}

#[test]
fn binary_lookup_on_this_host() {
    // `sh` is present on any POSIX host this test runs on; a name of this
    // shape exists nowhere.
    assert_eq!(Ok(true), does_binary_exist("sh"));
    assert_eq!(
        Ok(false),
        does_binary_exist("no-such-binary-the-engine-could-ever-need")
    );
}
