//! Control-plane core for managing Watcher video-ingest workloads.
//!
//! A Watcher is backed by three cluster resources: a Config record (durable
//! source of truth), a Workload unit (scaled 0 or 1 replicas), and an
//! Endpoint (exposes the ingest address once running). This library holds
//! the verified core: deriving one authoritative status from the declared
//! target state and the observed workload state, and the guarded,
//! idempotent lifecycle decisions (create, start, stop, upgrade, delete)
//! built on that status. All network calls against the cluster stay
//! outside; callers hand in plain observations and carry out the returned
//! plans.

pub mod codes;
pub mod frame;
pub mod lifecycle;
pub mod naming;
pub mod registry;
pub mod status;
pub mod watcher;

pub use lifecycle::{WatcherStartStatus, WatcherStopStatus};
pub use status::{ObservedState, Status, TargetState};
pub use watcher::{Source, Watcher, WorkloadObservation};
