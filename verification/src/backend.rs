//! Backend availability probing and selection: whether the iptables backend
//! can run on this host, and which of a ranked list of candidate backends a
//! session should use, decided purely from the probes' outcomes.

use vstd::prelude::*;
use crate::lifecycle::FirewallError;

verus! {

/// The outcome of resolving one binary name on the executable search path.
#[derive(Clone, Copy, Debug, PartialEq, Eq, Structural)]
pub enum BinaryLookup {
    /// The binary was found.
    Found,
    /// The lookup worked and the binary is not on the path.
    NotFound,
    /// The lookup mechanism itself failed.
    LookupFailed,
}

/// Relies on which::which: it returns Ok exactly when the name resolves to
/// an executable on the search path, Err(CannotFindBinaryPath) when it does
/// not, and another error only when the lookup itself failed.
#[verifier::external_body]
fn lookup_binary(binary: &str) -> (r: BinaryLookup) {
    match which::which(binary) {
        Ok(_) => BinaryLookup::Found,
        Err(which::Error::CannotFindBinaryPath) => BinaryLookup::NotFound,
        Err(which::Error::BadAbsolutePath) => BinaryLookup::LookupFailed,
        Err(which::Error::BadRelativePath) => BinaryLookup::LookupFailed,
        Err(which::Error::CannotGetCurrentDir) => BinaryLookup::LookupFailed,
        Err(which::Error::CannotCanonicalize) => BinaryLookup::LookupFailed,
    }
}

/// How a lookup outcome is reported: absence of the binary is an expected,
/// recoverable `Ok(false)`; only a failing lookup mechanism is an error.
pub open spec fn lookup_report(outcome: BinaryLookup) -> Result<bool, FirewallError> {
    match outcome {
        BinaryLookup::Found => Ok(true),
        BinaryLookup::NotFound => Ok(false),
        BinaryLookup::LookupFailed => Err(FirewallError::Probe),
    }
}

/// Turns a lookup outcome into the probe's report, equal to the spec-level
/// `lookup_report`.
pub fn classify_lookup(outcome: BinaryLookup) -> (r: Result<bool, FirewallError>)
    ensures
        r == lookup_report(outcome),
{
    match outcome {
        BinaryLookup::Found => Ok(true),
        BinaryLookup::NotFound => Ok(false),
        BinaryLookup::LookupFailed => Err(FirewallError::Probe),
    }
}

/// Whether a binary exists on the executable search path. The outcome
/// depends on the host, so only the shape of the report is pinned: absence
/// is `Ok(false)`, and an error is always the probe error.
pub fn does_binary_exist(binary: &str) -> (r: Result<bool, FirewallError>)
    ensures
        r == Ok::<bool, FirewallError>(true) || r == Ok::<bool, FirewallError>(false) || r == Err::<
            bool,
            FirewallError,
        >(FirewallError::Probe),
{
    classify_lookup(lookup_binary(binary))
}

/// The iptables backend's availability, decided from the OS family and the
/// two binary lookups: available exactly when the host is Linux and both
/// iptables and ip6tables resolve; a missing binary or a foreign OS family
/// is `Ok(false)`, a failing lookup is the probe error.
pub open spec fn availability_report(
    os_is_linux: bool,
    iptables_lookup: BinaryLookup,
    ip6tables_lookup: BinaryLookup,
) -> Result<bool, FirewallError> {
    if !os_is_linux {
        Ok(false)
    } else {
        match iptables_lookup {
            BinaryLookup::LookupFailed => Err(FirewallError::Probe),
            BinaryLookup::NotFound => Ok(false),
            BinaryLookup::Found => lookup_report(ip6tables_lookup),
        }
    }
}

/// The pure availability decision, equal to the spec-level
/// `availability_report`.
pub fn availability_decision(
    os_is_linux: bool,
    iptables_lookup: BinaryLookup,
    ip6tables_lookup: BinaryLookup,
) -> (r: Result<bool, FirewallError>)
    ensures
        r == availability_report(os_is_linux, iptables_lookup, ip6tables_lookup),
{
    if !os_is_linux {
        Ok(false)
    } else {
        match iptables_lookup {
            BinaryLookup::LookupFailed => Err(FirewallError::Probe),
            BinaryLookup::NotFound => Ok(false),
            BinaryLookup::Found => classify_lookup(ip6tables_lookup),
        }
    }
}

/// Probes the iptables backend on this host: the caller supplies whether
/// the OS family is Linux, the binaries are resolved on the search path
/// here. Absence of either binary or a foreign OS family is `Ok(false)`.
pub fn is_available(os_is_linux: bool) -> (r: Result<bool, FirewallError>)
    ensures
        !os_is_linux ==> r == Ok::<bool, FirewallError>(false),
        r == Ok::<bool, FirewallError>(true) || r == Ok::<bool, FirewallError>(false) || r == Err::<
            bool,
            FirewallError,
        >(FirewallError::Probe),
{
    if !os_is_linux {
        return Ok(false);
    }
    let iptables_lookup = lookup_binary("iptables");
    match iptables_lookup {
        BinaryLookup::LookupFailed => Err(FirewallError::Probe),
        BinaryLookup::NotFound => Ok(false),
        BinaryLookup::Found => classify_lookup(lookup_binary("ip6tables")),
    }
}

/// Which candidate a ranked probe sequence selects: the first whose probe
/// reported `Ok(true)`, skipping those that reported `Ok(false)`; the first
/// probe error is surfaced as it stands, and a sequence with no available
/// candidate selects none, with the dedicated error.
pub open spec fn selection_from(probes: Seq<Result<bool, FirewallError>>, i: int) -> Result<
    int,
    FirewallError,
>
    decreases probes.len() - i,
{
    if i < 0 || i >= probes.len() {
        Err(FirewallError::NoBackendAvailable)
    } else {
        match probes[i] {
            Ok(true) => Ok(i),
            Ok(false) => selection_from(probes, i + 1),
            Err(e) => Err(e),
        }
    }
}

/// The selection over the whole probe sequence, first candidate first.
pub open spec fn selection_report(probes: Seq<Result<bool, FirewallError>>) -> Result<
    int,
    FirewallError,
> {
    selection_from(probes, 0)
}

/// Selects a backend from the candidates' probe reports, in their ranked
/// order, equal to the spec-level `selection_report`. Selection is pure: it
/// issues no command against any candidate.
pub fn select_backend(probes: &Vec<Result<bool, FirewallError>>) -> (r: Result<
    usize,
    FirewallError,
>)
    ensures
        r matches Ok(i) ==> selection_report(probes@) == Ok::<int, FirewallError>(i as int),
        r matches Err(e) ==> selection_report(probes@) == Err::<int, FirewallError>(e),
{
    let mut i: usize = 0;
    while i < probes.len()
        invariant
            i <= probes.len(),
            selection_from(probes@, 0) == selection_from(probes@, i as int),
        decreases probes.len() - i,
    {
        match probes[i] {
            Ok(true) => {
                return Ok(i);
            },
            Ok(false) => {},
            Err(e) => {
                return Err(e);
            },
        }
        i += 1;
    }
    Err(FirewallError::NoBackendAvailable)
}

/// Law: when selection answers with a candidate, that candidate's probe
/// reported available and every earlier candidate's probe reported
/// unavailable; and when every candidate's probe reported unavailable, the
/// answer is the dedicated no-backend error. Holds of the whole sequence
/// with `i` = 0.
pub proof fn lemma_selection_characterization(probes: Seq<Result<bool, FirewallError>>, i: int)
    requires
        0 <= i <= probes.len(),
        forall|j: int| 0 <= j < i ==> probes[j] == Ok::<bool, FirewallError>(false),
    ensures
        selection_report(probes) matches Ok(k) ==> i <= k < probes.len() && probes[k] == Ok::<
            bool,
            FirewallError,
        >(true) && forall|j: int|
            i <= j < k ==> probes[j] == Ok::<bool, FirewallError>(false),
        (forall|j: int| i <= j < probes.len() ==> probes[j] == Ok::<bool, FirewallError>(false))
            ==> selection_report(probes) == Err::<int, FirewallError>(
            FirewallError::NoBackendAvailable,
        ),
    decreases probes.len() - i,
{
    lemma_selection_from_prefix(probes, i);
    if i < probes.len() && probes[i] == Ok::<bool, FirewallError>(false) {
        lemma_selection_characterization(probes, i + 1);
    }
}

/// Skipping a prefix of unavailable candidates does not change the
/// selection.
proof fn lemma_selection_from_prefix(probes: Seq<Result<bool, FirewallError>>, i: int)
    requires
        0 <= i <= probes.len(),
        forall|j: int| 0 <= j < i ==> probes[j] == Ok::<bool, FirewallError>(false),
    ensures
        selection_report(probes) == selection_from(probes, i),
    decreases i,
{
    if i > 0 {
        lemma_selection_from_prefix(probes, i - 1);
    }
}

} // verus!
