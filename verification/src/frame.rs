//! Frame-proxy decisions: which preconditions admit forwarding a
//! latest-frame request to the running workload, which ports to try, and
//! what one upstream attempt means for the next step. The HTTP calls
//! themselves stay outside.

use vstd::prelude::*;
use crate::status::Status;
use crate::watcher::{spec_workload_status, workload_status, Watcher, WorkloadObservation};

verus! {

/// The port the workload historically served frames on, tried after the
/// configured ingest port.
pub open spec fn spec_legacy_frame_port() -> u32 {
    3030
}

/// Whether a latest-frame request may be forwarded, and where.
pub enum FramePrecheck {
    /// The Config or the Workload resource is absent.
    NotFound,
    /// The derived status is not `Running`: there is no workload to ask.
    NotRunning,
    /// The workload runs but no pod address could be observed.
    NoPodAddress,
    /// Forward the request, trying these ports in order, at most one each.
    Fetch { ports: Vec<u32> },
}

/// Decide a latest-frame request from the current observations. Only a
/// Watcher whose derived status is exactly `Running` is asked; the
/// upstream call tries the configured ingest port first, then the one
/// historical port, and no more.
pub fn plan_frame_fetch(
    config: &Option<Watcher>,
    workload: &Option<WorkloadObservation>,
    pod_address_known: bool,
) -> (r: FramePrecheck)
    ensures
        config is None || workload is None <==> r is NotFound,
        config is Some && workload is Some && spec_workload_status(workload->0) != Status::Running
            <==> r is NotRunning,
        config is Some && workload is Some && spec_workload_status(workload->0) == Status::Running
            && !pod_address_known <==> r is NoPodAddress,
        r matches FramePrecheck::Fetch { ports } ==> ports@ == seq![
            config->0.source.ingest_port,
            spec_legacy_frame_port(),
        ],
        config is Some && workload is Some && spec_workload_status(workload->0) == Status::Running
            && pod_address_known <==> r is Fetch,
{
    let record: &Watcher = match config {
        Some(w) => w,
        None => {
            return FramePrecheck::NotFound;
        },
    };
    let workload_obs: &WorkloadObservation = match workload {
        Some(o) => o,
        None => {
            return FramePrecheck::NotFound;
        },
    };
    let status: Status = workload_status(workload_obs);
    if status != Status::Running {
        return FramePrecheck::NotRunning;
    }
    if !pod_address_known {
        return FramePrecheck::NoPodAddress;
    }
    let mut ports: Vec<u32> = Vec::new();
    ports.push(record.source.ingest_port);
    ports.push(3030);
    proof {
        assert(ports@ =~= seq![record.source.ingest_port, spec_legacy_frame_port()]);
    }
    FramePrecheck::Fetch { ports }
}

/// What one upstream attempt against a single port came back with.
#[derive(Clone, Copy, Debug, PartialEq, Eq, Structural)]
pub enum FrameAttempt {
    /// The call itself could not be made (connect or transport failure).
    SendFailed,
    /// The call was answered with a non-success HTTP status.
    HttpError,
    /// The call returned the frame.
    Success,
}

/// The step to take after one upstream attempt.
#[derive(Clone, Copy, Debug, PartialEq, Eq, Structural)]
pub enum FrameStep {
    /// Fail the request now: a transport failure is not retried.
    Abort,
    /// Try the next port, if one is left; fail the request otherwise.
    TryNextPort,
    /// Serve the returned frame.
    Serve,
}

/// Decide the next step from one attempt's outcome: a transport failure
/// aborts at once, an HTTP error moves on to the next known port (at most
/// one retry across the two known ports, never more), success serves.
pub fn frame_attempt_step(attempt: &FrameAttempt) -> (r: FrameStep)
    ensures
        *attempt == FrameAttempt::SendFailed <==> r == FrameStep::Abort,
        *attempt == FrameAttempt::HttpError <==> r == FrameStep::TryNextPort,
        *attempt == FrameAttempt::Success <==> r == FrameStep::Serve,
{
    match attempt {
        FrameAttempt::SendFailed => FrameStep::Abort,
        FrameAttempt::HttpError => FrameStep::TryNextPort,
        FrameAttempt::Success => FrameStep::Serve,
    }
}

/// The reply the workload process itself gives for its latest frame: the
/// buffered image with success when one is held, an empty not-found reply
/// otherwise. Either way the image is marked not to be cached.
pub fn latest_frame_reply(frame: Option<Vec<u8>>) -> (r: (u16, Vec<u8>))
    ensures
        frame matches Some(image) ==> r.0 == 200 && r.1@ == image@,
        frame is None ==> r.0 == 404 && r.1@.len() == 0,
{
    match frame {
        Some(image) => (200, image),
        None => (404, Vec::new()),
    }
}

} // verus!
