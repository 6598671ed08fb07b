//! Status resolution: fusing the operator's declared target state with the
//! platform's observed workload state into one derived status.

use vstd::prelude::*;

verus! {

/// The operator's last-declared desired running state of a Watcher,
/// stored as a label on the Workload resource.
#[derive(Clone, Copy, Debug, PartialEq, Eq, Structural)]
pub enum TargetState {
    Ready,
    Running,
}

/// The runtime state the platform reports for the workload, derived from
/// replica availability: `Running` when at least one replica is available,
/// `Ready` (stopped) otherwise.
#[derive(Clone, Copy, Debug, PartialEq, Eq, Structural)]
pub enum ObservedState {
    Ready,
    Running,
}

/// The single authoritative Watcher status, derived on every read and
/// never stored.
#[derive(Clone, Copy, Debug, PartialEq, Eq, Structural)]
pub enum Status {
    /// Stopped: no replicas are available and none are asked for.
    Ready,
    /// Replicas are available and the declared target is Running.
    Running,
    /// Target and observation disagree: a transition is in flight.
    Pending,
    /// Observation impossible or inconsistent: a required declaration is
    /// missing, or the workload itself cannot be seen.
    Error,
}

/// The resolution table. A missing target declaration or a missing
/// observation is fatal (`Error`); a mismatch between two present signals
/// is always a transition (`Pending`), never an error.
pub open spec fn spec_resolve(target: Option<TargetState>, observed: Option<ObservedState>) -> Status {
    match (target, observed) {
        (Some(TargetState::Running), Some(ObservedState::Running)) => Status::Running,
        (Some(TargetState::Ready), Some(ObservedState::Ready)) => Status::Ready,
        (Some(TargetState::Ready), Some(ObservedState::Running)) => Status::Pending,
        (Some(TargetState::Running), Some(ObservedState::Ready)) => Status::Pending,
        _ => Status::Error,
    }
}

/// Derive the authoritative status from the two independently-observed
/// signals. Pure, total, and side-effect free: callable repeatedly so that
/// every guard decision rests on the latest fetch.
pub fn resolve(target: Option<TargetState>, observed: Option<ObservedState>) -> (s: Status)
    ensures
        s == spec_resolve(target, observed),
{
    match (target, observed) {
        (Some(TargetState::Running), Some(ObservedState::Running)) => Status::Running,
        (Some(TargetState::Ready), Some(ObservedState::Ready)) => Status::Ready,
        (Some(TargetState::Ready), Some(ObservedState::Running)) => Status::Pending,
        (Some(TargetState::Running), Some(ObservedState::Ready)) => Status::Pending,
        _ => Status::Error,
    }
}

/// Resolver totality: every combination of target (present or absent) and
/// observation (present or absent) has a defined outcome, and structural
/// absence of either signal — and only that — resolves to `Error`.
pub proof fn lemma_resolve_total(target: Option<TargetState>, observed: Option<ObservedState>)
    ensures
        target is None || observed is None ==> spec_resolve(target, observed) == Status::Error,
        target is Some && observed is Some ==> spec_resolve(target, observed) != Status::Error,
{
}

/// Resolver symmetry: a mismatch between a present target and a present
/// observation is `Pending` in either direction.
pub proof fn lemma_resolve_symmetric()
    ensures
        spec_resolve(Some(TargetState::Ready), Some(ObservedState::Running)) == Status::Pending,
        spec_resolve(Some(TargetState::Running), Some(ObservedState::Ready)) == Status::Pending,
{
}

/// Resolver determinism: identical inputs always resolve to identical
/// output; there is no hidden state or caching.
pub proof fn lemma_resolve_deterministic(
    t1: Option<TargetState>,
    o1: Option<ObservedState>,
    t2: Option<TargetState>,
    o2: Option<ObservedState>,
)
    requires
        t1 == t2,
        o1 == o2,
    ensures
        spec_resolve(t1, o1) == spec_resolve(t2, o2),
{
}

/// What a target-state label value must spell to parse: the names of the
/// two declared states, exactly.
pub open spec fn spec_parse_target(label: Seq<char>) -> Option<TargetState> {
    if label == "Running"@ {
        Some(TargetState::Running)
    } else if label == "Ready"@ {
        Some(TargetState::Ready)
    } else {
        None
    }
}

/// Parse a target-state label value into the closed enumeration. Any
/// unrecognized value yields `None`, which resolution treats as a missing
/// declaration (`Error`) — never a silent default.
pub fn parse_target(label: &String) -> (r: Option<TargetState>)
    ensures
        r == spec_parse_target(label@),
{
    let running: String = String::from_str("Running");
    let ready: String = String::from_str("Ready");
    if *label == running {
        Some(TargetState::Running)
    } else if *label == ready {
        Some(TargetState::Ready)
    } else {
        None
    }
}

/// The label value declaring a target state, as written onto the Workload
/// resource.
pub open spec fn spec_target_label(t: TargetState) -> Seq<char> {
    match t {
        TargetState::Running => "Running"@,
        TargetState::Ready => "Ready"@,
    }
}

/// Render a target state as its label value.
pub fn target_label(t: TargetState) -> (r: String)
    ensures
        r@ == spec_target_label(t),
{
    match t {
        TargetState::Running => String::from_str("Running"),
        TargetState::Ready => String::from_str("Ready"),
    }
}

/// Round trip: a label written by `target_label` always parses back to the
/// state it was written from, so the writer and the reader of the
/// declared-intent label can never disagree.
pub proof fn lemma_target_label_round_trip(t: TargetState)
    ensures
        spec_parse_target(spec_target_label(t)) == Some(t),
{
    reveal_strlit("Running");
    reveal_strlit("Ready");
    assert("Running"@ != "Ready"@) by {
        assert("Running"@.len() == 7);
        assert("Ready"@.len() == 5);
    }
}

} // verus!
