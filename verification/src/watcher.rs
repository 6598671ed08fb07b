//! The Watcher record and the observation of its backing Workload
//! resource, with the derivation of a Watcher's authoritative status from
//! one such observation.

use vstd::prelude::*;
use crate::status::{spec_parse_target, spec_resolve, parse_target, resolve, ObservedState, Status, TargetState};

verus! {

/// A Watcher's source configuration: the ingest port it listens on and,
/// once running, the observed ingest address. The address is derived from
/// the Endpoint resource on each read and never persisted.
#[derive(Clone, Debug)]
pub struct Source {
    pub ingest_port: u32,
    pub ingest_ip: Option<String>,
}

/// One configured video-ingest workload. The durable Config resource is
/// the sole source of truth for `id`, `source` and `tags`; `status` and
/// `status_description` are derived on every read.
#[derive(Clone, Debug)]
pub struct Watcher {
    /// Opaque unique identifier, assigned at creation, immutable after.
    pub id: Option<String>,
    pub source: Source,
    /// Optional key-value labels propagated to all three backing resources.
    pub tags: Option<Vec<(String, String)>>,
    /// Derived, never an authoritative input.
    pub status: Option<Status>,
    /// Human-readable elaboration, populated only while status is Pending.
    pub status_description: Option<String>,
}

/// What one fetch of the Workload resource showed: the raw declared-intent
/// label (absent if the resource carries none), whether the resource
/// reported a runtime status at all, and the available-replica count it
/// reported. Absence of the whole resource is modeled by the caller
/// holding no observation.
#[derive(Clone, Debug)]
pub struct WorkloadObservation {
    /// The raw `target_status` label value, if the label is present.
    pub target_label: Option<String>,
    /// Whether the resource reported any runtime status block.
    pub status_reported: bool,
    /// The available-replica count, if reported.
    pub available_replicas: Option<i32>,
}

/// The target state a workload observation declares: the parse of its
/// label, or nothing when the label is absent or malformed.
pub open spec fn spec_observed_target(o: WorkloadObservation) -> Option<TargetState> {
    match o.target_label {
        Some(l) => spec_parse_target(l@),
        None => None,
    }
}

/// The runtime state a workload observation shows: `Running` when more
/// than zero replicas are available, `Ready` otherwise, and nothing when
/// the resource reported no runtime status at all.
pub open spec fn spec_observed_state(o: WorkloadObservation) -> Option<ObservedState> {
    if o.status_reported {
        if o.available_replicas is Some && o.available_replicas->0 > 0 {
            Some(ObservedState::Running)
        } else {
            Some(ObservedState::Ready)
        }
    } else {
        None
    }
}

/// The authoritative status derived from one workload observation.
pub open spec fn spec_workload_status(o: WorkloadObservation) -> Status {
    spec_resolve(spec_observed_target(o), spec_observed_state(o))
}

/// Derive a Watcher's status from one fetch of its Workload resource:
/// parse the declared-intent label into the closed enumeration (an absent
/// or unparsable label short-circuits to `Error`), read the observed state
/// from replica availability, and resolve the two signals.
pub fn workload_status(o: &WorkloadObservation) -> (s: Status)
    ensures
        s == spec_workload_status(*o),
{
    let target: Option<TargetState> = match &o.target_label {
        Some(l) => parse_target(l),
        None => None,
    };
    let observed: Option<ObservedState> = if o.status_reported {
        let replicas: i32 = match o.available_replicas {
            Some(n) => n,
            None => 0,
        };
        if replicas > 0 {
            Some(ObservedState::Running)
        } else {
            Some(ObservedState::Ready)
        }
    } else {
        None
    };
    resolve(target, observed)
}

/// A missing declared-intent label is an integrity violation: whatever the
/// replica count shows, the derived status is `Error`, never a silent
/// default to `Ready` or `Running`.
pub proof fn lemma_missing_label_is_error(o: WorkloadObservation)
    requires
        o.target_label is None,
    ensures
        spec_workload_status(o) == Status::Error,
{
}

} // verus!
