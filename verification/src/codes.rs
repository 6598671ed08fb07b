//! The HTTP status-code semantics of every operation's outcome. Any
//! transport that fronts the library must preserve these codes, so they
//! are pinned here rather than left to the routing layer.

use vstd::prelude::*;
use crate::frame::FramePrecheck;
use crate::lifecycle::{DeleteOutcome, UpgradeOutcome, WatcherStartStatus, WatcherStopStatus};
use crate::registry::GetWatcherOutcome;

verus! {

/// Code for a start outcome: both the no-op and the accepted transition
/// succeed; a transition in flight is a conflict; an error-state Watcher
/// is not acceptable; a missing workload is not found.
pub fn start_status_code(s: &WatcherStartStatus) -> (c: u16)
    ensures
        *s == WatcherStartStatus::AlreadyRunning ==> c == 200,
        *s == WatcherStartStatus::Starting ==> c == 200,
        *s == WatcherStartStatus::CurrentlyUpdating ==> c == 409,
        *s == WatcherStartStatus::InErrorState ==> c == 406,
        *s == WatcherStartStatus::NotFound ==> c == 404,
{
    match s {
        WatcherStartStatus::AlreadyRunning => 200,
        WatcherStartStatus::Starting => 200,
        WatcherStartStatus::CurrentlyUpdating => 409,
        WatcherStartStatus::InErrorState => 406,
        WatcherStartStatus::NotFound => 404,
    }
}

/// Code for a stop outcome; symmetric to start.
pub fn stop_status_code(s: &WatcherStopStatus) -> (c: u16)
    ensures
        *s == WatcherStopStatus::AlreadyStopped ==> c == 200,
        *s == WatcherStopStatus::Stopping ==> c == 200,
        *s == WatcherStopStatus::CurrentlyUpdating ==> c == 409,
        *s == WatcherStopStatus::InErrorState ==> c == 406,
        *s == WatcherStopStatus::NotFound ==> c == 404,
{
    match s {
        WatcherStopStatus::AlreadyStopped => 200,
        WatcherStopStatus::Stopping => 200,
        WatcherStopStatus::CurrentlyUpdating => 409,
        WatcherStopStatus::InErrorState => 406,
        WatcherStopStatus::NotFound => 404,
    }
}

/// Code for a creation: the Watcher was provisioned and reads as Pending.
pub fn create_code() -> (c: u16)
    ensures
        c == 201,
{
    201
}

/// Code for an upgrade outcome. An admitted upgrade still depends on the
/// container patch going through: a failed patch is an internal failure,
/// surfaced, never retried here.
pub fn upgrade_outcome_code(r: &UpgradeOutcome, patch_succeeded: bool) -> (c: u16)
    ensures
        *r is NotFound ==> c == 404,
        *r is MustBeStopped ==> c == 400,
        *r is Apply && patch_succeeded ==> c == 200,
        *r is Apply && !patch_succeeded ==> c == 500,
{
    match r {
        UpgradeOutcome::NotFound => 404,
        UpgradeOutcome::MustBeStopped => 400,
        UpgradeOutcome::Apply { .. } => if patch_succeeded {
            200
        } else {
            500
        },
    }
}

/// Code for reading one Watcher.
pub fn get_watcher_code(r: &GetWatcherOutcome) -> (c: u16)
    ensures
        *r is NotFound ==> c == 404,
        *r is Found ==> c == 200,
{
    match r {
        GetWatcherOutcome::NotFound => 404,
        GetWatcherOutcome::Found { .. } => 200,
    }
}

/// Code for a delete outcome.
pub fn delete_outcome_code(r: &DeleteOutcome) -> (c: u16)
    ensures
        *r == DeleteOutcome::Deleted ==> c == 200,
        *r == DeleteOutcome::NotFound ==> c == 404,
{
    match r {
        DeleteOutcome::Deleted => 200,
        DeleteOutcome::NotFound => 404,
    }
}

/// Code for a refused latest-frame request: a missing resource is not
/// found, a Watcher not running is not acceptable, a running Watcher
/// without a reachable pod fails the expectation; a granted request
/// serves with success.
pub fn frame_precheck_code(r: &FramePrecheck) -> (c: u16)
    ensures
        *r is NotFound ==> c == 404,
        *r is NotRunning ==> c == 406,
        *r is NoPodAddress ==> c == 417,
        *r is Fetch ==> c == 200,
{
    match r {
        FramePrecheck::NotFound => 404,
        FramePrecheck::NotRunning => 406,
        FramePrecheck::NoPodAddress => 417,
        FramePrecheck::Fetch { .. } => 200,
    }
}

/// Code for an upstream frame call that failed or ran out of ports.
pub fn frame_failure_code() -> (c: u16)
    ensures
        c == 417,
{
    417
}

/// Code for the health check: success when the platform answered,
/// service-unavailable when it could not be reached.
pub fn healthcheck_code(platform_reachable: bool) -> (c: u16)
    ensures
        platform_reachable ==> c == 200,
        !platform_reachable ==> c == 503,
{
    if platform_reachable {
        200
    } else {
        503
    }
}

} // verus!
