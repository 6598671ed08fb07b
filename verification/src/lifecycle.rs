//! Guarded lifecycle decisions: create, start, stop, upgrade and delete.
//!
//! Every operation first derives the current status from a fresh
//! observation and then applies a total, idempotent decision table. The
//! functions here decide; they perform no calls against the cluster.
//! Each decision returns an outcome together with the exact, ordered
//! mutations to issue, so a caller can carry the plan out and a rejection
//! provably issues none.

use vstd::prelude::*;
use crate::naming::{spec_config_name, spec_endpoint_name, spec_workload_name, config_name, endpoint_name, workload_name};
use crate::status::{Status, TargetState};
use crate::watcher::{spec_workload_status, workload_status, Watcher, WorkloadObservation};

verus! {

/// Outcome of a start request, one variant per row of the start guard
/// table plus the not-found case.
#[derive(Clone, Copy, Debug, PartialEq, Eq, Structural)]
pub enum WatcherStartStatus {
    AlreadyRunning,
    CurrentlyUpdating,
    Starting,
    InErrorState,
    NotFound,
}

/// Outcome of a stop request, one variant per row of the stop guard table
/// plus the not-found case.
#[derive(Clone, Copy, Debug, PartialEq, Eq, Structural)]
pub enum WatcherStopStatus {
    AlreadyStopped,
    CurrentlyUpdating,
    Stopping,
    InErrorState,
    NotFound,
}

impl WatcherStartStatus {
    /// The human-readable elaboration every start outcome carries back to
    /// the caller.
    pub fn message(&self) -> (r: String)
        ensures
            *self == WatcherStartStatus::AlreadyRunning ==> r@ == "Watcher is already running."@,
            *self == WatcherStartStatus::CurrentlyUpdating ==> r@
                == "Watcher is updating so it cannot be started."@,
            *self == WatcherStartStatus::Starting ==> r@ == "Watcher is starting."@,
            *self == WatcherStartStatus::InErrorState ==> r@
                == "Watcher is in an error state and cannot be started."@,
            *self == WatcherStartStatus::NotFound ==> r@ == "Watcher not found."@,
    {
        match self {
            WatcherStartStatus::AlreadyRunning => String::from_str("Watcher is already running."),
            WatcherStartStatus::CurrentlyUpdating => String::from_str(
                "Watcher is updating so it cannot be started.",
            ),
            WatcherStartStatus::Starting => String::from_str("Watcher is starting."),
            WatcherStartStatus::InErrorState => String::from_str(
                "Watcher is in an error state and cannot be started.",
            ),
            WatcherStartStatus::NotFound => String::from_str("Watcher not found."),
        }
    }
}

impl WatcherStopStatus {
    /// The human-readable elaboration every stop outcome carries back to
    /// the caller.
    pub fn message(&self) -> (r: String)
        ensures
            *self == WatcherStopStatus::AlreadyStopped ==> r@ == "Watcher is already stopped."@,
            *self == WatcherStopStatus::CurrentlyUpdating ==> r@
                == "Watcher is updating so it cannot be stopped."@,
            *self == WatcherStopStatus::Stopping ==> r@ == "Watcher is stopping."@,
            *self == WatcherStopStatus::InErrorState ==> r@
                == "Watcher is in an error state and cannot be stopped."@,
            *self == WatcherStopStatus::NotFound ==> r@ == "Watcher not found."@,
    {
        match self {
            WatcherStopStatus::AlreadyStopped => String::from_str("Watcher is already stopped."),
            WatcherStopStatus::CurrentlyUpdating => String::from_str(
                "Watcher is updating so it cannot be stopped.",
            ),
            WatcherStopStatus::Stopping => String::from_str("Watcher is stopping."),
            WatcherStopStatus::InErrorState => String::from_str(
                "Watcher is in an error state and cannot be stopped.",
            ),
            WatcherStopStatus::NotFound => String::from_str("Watcher not found."),
        }
    }
}

/// One mutation against the Workload resource. Both are absolute
/// overwrites, never increments, so repeating either converges: that is
/// what lets concurrent guarded operations on one Watcher stay safe
/// without a lock.
#[derive(Clone, Copy, Debug, PartialEq, Eq, Structural)]
pub enum WorkloadAction {
    /// Set the replica count to exactly this value.
    Scale { replicas: u32 },
    /// Set the declared-intent label to exactly this target state.
    SetTarget { target: TargetState },
}

/// The start guard table over the derived status; absence of the Workload
/// resource is `NotFound`.
pub open spec fn spec_start_decision(workload: Option<WorkloadObservation>) -> WatcherStartStatus {
    match workload {
        None => WatcherStartStatus::NotFound,
        Some(o) => match spec_workload_status(o) {
            Status::Running => WatcherStartStatus::AlreadyRunning,
            Status::Pending => WatcherStartStatus::CurrentlyUpdating,
            Status::Error => WatcherStartStatus::InErrorState,
            Status::Ready => WatcherStartStatus::Starting,
        },
    }
}

/// The mutations a start request issues: scale to one replica, then
/// declare the target Running — and only from the `Ready` row.
pub open spec fn spec_start_actions(workload: Option<WorkloadObservation>) -> Seq<WorkloadAction> {
    if workload is Some && spec_workload_status(workload->0) == Status::Ready {
        seq![
            (WorkloadAction::Scale { replicas: 1 }),
            (WorkloadAction::SetTarget { target: TargetState::Running }),
        ]
    } else {
        Seq::empty()
    }
}

/// Decide a start request from the current observation of the Watcher's
/// Workload resource. Returns the outcome and the ordered mutations to
/// issue (the scale strictly before the label patch).
pub fn start_watcher(workload: &Option<WorkloadObservation>) -> (r: (
    WatcherStartStatus,
    Vec<WorkloadAction>,
))
    ensures
        r.0 == spec_start_decision(*workload),
        r.1@ == spec_start_actions(*workload),
{
    match workload {
        None => (WatcherStartStatus::NotFound, Vec::new()),
        Some(o) => match workload_status(o) {
            Status::Running => (WatcherStartStatus::AlreadyRunning, Vec::new()),
            Status::Pending => (WatcherStartStatus::CurrentlyUpdating, Vec::new()),
            Status::Error => (WatcherStartStatus::InErrorState, Vec::new()),
            Status::Ready => {
                let mut actions: Vec<WorkloadAction> = Vec::new();
                actions.push(WorkloadAction::Scale { replicas: 1 });
                actions.push(WorkloadAction::SetTarget { target: TargetState::Running });
                proof {
                    assert(actions@ =~= spec_start_actions(*workload));
                }
                (WatcherStartStatus::Starting, actions)
            },
        },
    }
}

/// The stop guard table over the derived status; symmetric to start.
pub open spec fn spec_stop_decision(workload: Option<WorkloadObservation>) -> WatcherStopStatus {
    match workload {
        None => WatcherStopStatus::NotFound,
        Some(o) => match spec_workload_status(o) {
            Status::Ready => WatcherStopStatus::AlreadyStopped,
            Status::Pending => WatcherStopStatus::CurrentlyUpdating,
            Status::Error => WatcherStopStatus::InErrorState,
            Status::Running => WatcherStopStatus::Stopping,
        },
    }
}

/// The mutations a stop request issues: scale to zero replicas, then
/// declare the target Ready — and only from the `Running` row.
pub open spec fn spec_stop_actions(workload: Option<WorkloadObservation>) -> Seq<WorkloadAction> {
    if workload is Some && spec_workload_status(workload->0) == Status::Running {
        seq![
            (WorkloadAction::Scale { replicas: 0 }),
            (WorkloadAction::SetTarget { target: TargetState::Ready }),
        ]
    } else {
        Seq::empty()
    }
}

/// Decide a stop request from the current observation of the Watcher's
/// Workload resource. Returns the outcome and the ordered mutations to
/// issue (the scale strictly before the label patch).
pub fn stop_watcher(workload: &Option<WorkloadObservation>) -> (r: (
    WatcherStopStatus,
    Vec<WorkloadAction>,
))
    ensures
        r.0 == spec_stop_decision(*workload),
        r.1@ == spec_stop_actions(*workload),
{
    match workload {
        None => (WatcherStopStatus::NotFound, Vec::new()),
        Some(o) => match workload_status(o) {
            Status::Ready => (WatcherStopStatus::AlreadyStopped, Vec::new()),
            Status::Pending => (WatcherStopStatus::CurrentlyUpdating, Vec::new()),
            Status::Error => (WatcherStopStatus::InErrorState, Vec::new()),
            Status::Running => {
                let mut actions: Vec<WorkloadAction> = Vec::new();
                actions.push(WorkloadAction::Scale { replicas: 0 });
                actions.push(WorkloadAction::SetTarget { target: TargetState::Ready });
                proof {
                    assert(actions@ =~= spec_stop_actions(*workload));
                }
                (WatcherStopStatus::Stopping, actions)
            },
        },
    }
}

/// The declarative side of the Workload resource: the fields that the
/// mutations of a start or stop plan overwrite. (The observed side —
/// available replicas — follows eventually and comes back through
/// `WorkloadObservation` on the next read.)
pub struct DeclaredWorkload {
    pub desired_replicas: u32,
    pub target: Option<TargetState>,
}

/// What one mutation does to the declared state: an absolute overwrite of
/// one field, never an increment or a delta.
pub open spec fn spec_apply_action(w: DeclaredWorkload, a: WorkloadAction) -> DeclaredWorkload {
    match a {
        WorkloadAction::Scale { replicas } => DeclaredWorkload {
            desired_replicas: replicas,
            target: w.target,
        },
        WorkloadAction::SetTarget { target } => DeclaredWorkload {
            desired_replicas: w.desired_replicas,
            target: Some(target),
        },
    }
}

/// What a whole plan does to the declared state, action by action.
pub open spec fn spec_apply_actions(w: DeclaredWorkload, actions: Seq<WorkloadAction>) -> DeclaredWorkload
    decreases actions.len(),
{
    if actions.len() == 0 {
        w
    } else {
        spec_apply_actions(spec_apply_action(w, actions.first()), actions.drop_first())
    }
}

/// Convergence under races: no lock serializes concurrent operations on
/// one Watcher, so the same start or stop plan may be issued twice by two
/// callers that both observed the same status. Because every mutation is
/// an absolute overwrite, carrying a plan out a second time leaves the
/// declared state exactly where the first pass put it.
pub proof fn lemma_plans_converge(w: DeclaredWorkload, workload: Option<WorkloadObservation>)
    ensures
        spec_apply_actions(
            spec_apply_actions(w, spec_start_actions(workload)),
            spec_start_actions(workload),
        ) == spec_apply_actions(w, spec_start_actions(workload)),
        spec_apply_actions(
            spec_apply_actions(w, spec_stop_actions(workload)),
            spec_stop_actions(workload),
        ) == spec_apply_actions(w, spec_stop_actions(workload)),
{
    lemma_two_overwrites_converge(w, spec_start_actions(workload));
    lemma_two_overwrites_converge(w, spec_stop_actions(workload));
}

/// A plan of at most two absolute overwrites, applied twice, lands where
/// one application lands.
proof fn lemma_two_overwrites_converge(w: DeclaredWorkload, actions: Seq<WorkloadAction>)
    requires
        actions.len() == 0 || actions.len() == 2,
    ensures
        spec_apply_actions(spec_apply_actions(w, actions), actions) == spec_apply_actions(
            w,
            actions,
        ),
{
    reveal_with_fuel(spec_apply_actions, 4);
    if actions.len() == 2 {
        let once = spec_apply_actions(w, actions);
        assert(actions.drop_first().first() == actions[1]);
        assert(actions.drop_first().drop_first().len() == 0);
        assert(once == spec_apply_action(spec_apply_action(w, actions[0]), actions[1]));
        assert(spec_apply_actions(once, actions) == spec_apply_action(
            spec_apply_action(once, actions[0]),
            actions[1],
        ));
    }
}

/// Start/stop idempotence and guard safety: a Watcher already in the
/// requested state reports the no-op outcome, and a request mutates
/// nothing unless the guard admits it — start only from `Ready`, stop
/// only from `Running`, so a rejected or settled request has no side
/// effects to repeat.
pub proof fn lemma_start_stop_idempotent(workload: Option<WorkloadObservation>)
    ensures
        workload is Some && spec_workload_status(workload->0) == Status::Running ==> {
            &&& spec_start_decision(workload) == WatcherStartStatus::AlreadyRunning
            &&& spec_start_actions(workload).len() == 0
        },
        workload is Some && spec_workload_status(workload->0) == Status::Ready ==> {
            &&& spec_stop_decision(workload) == WatcherStopStatus::AlreadyStopped
            &&& spec_stop_actions(workload).len() == 0
        },
        spec_start_actions(workload).len() != 0 <==> spec_start_decision(workload)
            == WatcherStartStatus::Starting,
        spec_stop_actions(workload).len() != 0 <==> spec_stop_decision(workload)
            == WatcherStopStatus::Stopping,
{
}

/// Guard completeness: for every possible observation — each of the four
/// derived statuses and the missing workload — the start and the stop
/// guard each decide exactly one defined outcome.
pub proof fn lemma_guard_completeness(workload: Option<WorkloadObservation>)
    ensures
        workload is None ==> spec_start_decision(workload) == WatcherStartStatus::NotFound
            && spec_stop_decision(workload) == WatcherStopStatus::NotFound,
        workload matches Some(o) ==> match spec_workload_status(o) {
            Status::Running => spec_start_decision(workload) == WatcherStartStatus::AlreadyRunning
                && spec_stop_decision(workload) == WatcherStopStatus::Stopping,
            Status::Pending => spec_start_decision(workload)
                == WatcherStartStatus::CurrentlyUpdating && spec_stop_decision(workload)
                == WatcherStopStatus::CurrentlyUpdating,
            Status::Error => spec_start_decision(workload) == WatcherStartStatus::InErrorState
                && spec_stop_decision(workload) == WatcherStopStatus::InErrorState,
            Status::Ready => spec_start_decision(workload) == WatcherStartStatus::Starting
                && spec_stop_decision(workload) == WatcherStopStatus::AlreadyStopped,
        },
{
}

/// Outcome of an upgrade request.
pub enum UpgradeOutcome {
    /// The Workload or the Config resource is absent.
    NotFound,
    /// The derived status is not exactly `Ready`: the Watcher must be
    /// stopped before the upgrade can be applied. Nothing is mutated.
    MustBeStopped,
    /// The guard passed: patch only the workload's container definition
    /// as `patch` says, and return `watcher` (status `Ready`) on success.
    Apply { watcher: Watcher, patch: ContainerPatch },
}

/// The one mutation an upgrade issues: replace the container definition
/// of the named Workload resource. Replica count and labels are left
/// untouched.
pub struct ContainerPatch {
    /// Name of the Workload resource to patch.
    pub workload_name: String,
    /// The Watcher the new container definition is rendered for.
    pub watcher_id: String,
    /// The ingest port the new container definition listens on.
    pub ingest_port: u32,
}

/// Decide an upgrade request: it requires the current derived status to
/// be exactly `Ready`, and patches nothing otherwise.
pub fn upgrade_watcher(
    id: &String,
    workload: &Option<WorkloadObservation>,
    config: Option<Watcher>,
) -> (r: UpgradeOutcome)
    ensures
        workload is None || config is None <==> r is NotFound,
        workload is Some && config is Some && spec_workload_status(workload->0) != Status::Ready
            <==> r is MustBeStopped,
        workload is Some && config is Some && spec_workload_status(workload->0) == Status::Ready
            <==> r is Apply,
        r matches UpgradeOutcome::Apply { watcher, patch } ==> {
            &&& watcher.id == config->0.id
            &&& watcher.source.ingest_port == config->0.source.ingest_port
            &&& watcher.source.ingest_ip == config->0.source.ingest_ip
            &&& watcher.tags == config->0.tags
            &&& watcher.status_description == config->0.status_description
            &&& watcher.status == Some(Status::Ready)
            &&& patch.workload_name@ == spec_workload_name(id@)
            &&& patch.watcher_id@ == id@
            &&& patch.ingest_port == config->0.source.ingest_port
        },
{
    let workload_obs: &WorkloadObservation = match workload {
        Some(o) => o,
        None => {
            return UpgradeOutcome::NotFound;
        },
    };
    let mut watcher: Watcher = match config {
        Some(w) => w,
        None => {
            return UpgradeOutcome::NotFound;
        },
    };
    let status: Status = workload_status(workload_obs);
    if status != Status::Ready {
        return UpgradeOutcome::MustBeStopped;
    }
    let ingest_port: u32 = watcher.source.ingest_port;
    watcher.status = Some(Status::Ready);
    let patch = ContainerPatch {
        workload_name: workload_name(id),
        watcher_id: id.clone(),
        ingest_port,
    };
    UpgradeOutcome::Apply { watcher, patch }
}

/// The message a rejected upgrade carries back to the caller.
pub fn upgrade_must_stop_message() -> (r: String)
    ensures
        r@ == "The Watcher must be stopped before the upgrade can be applied"@,
{
    String::from_str("The Watcher must be stopped before the upgrade can be applied")
}

/// Strip a Watcher down to its durable record: the identity and
/// parameters the Config resource persists. Everything else — status,
/// its description, the observed ingest address — is derived on every
/// read and never stored.
pub fn durable_record(w: Watcher) -> (r: Watcher)
    ensures
        r.id == w.id,
        r.source.ingest_port == w.source.ingest_port,
        r.source.ingest_ip is None,
        r.tags == w.tags,
        r.status is None,
        r.status_description is None,
{
    let mut record: Watcher = w;
    record.source.ingest_ip = None;
    record.status = None;
    record.status_description = None;
    record
}

/// The ordered provisioning plan for a new Watcher: the three backing
/// resources, created Config first, then Workload, then Endpoint, each
/// idempotently named from the fresh identifier.
pub struct CreationPlan {
    /// Creation order over the three resource kinds.
    pub steps: Vec<ResourceKind>,
    pub config_name: String,
    pub workload_name: String,
    pub endpoint_name: String,
    /// The ingest port the workload's container listens on.
    pub ingest_port: u32,
    /// The workload starts scaled to zero replicas.
    pub initial_replicas: u32,
    /// The declared-intent label the workload is created with.
    pub initial_target: TargetState,
}

/// The three kinds of backing resource behind a Watcher.
#[derive(Clone, Copy, Debug, PartialEq, Eq, Structural)]
pub enum ResourceKind {
    Config,
    Workload,
    Endpoint,
}

/// Relies on uuid::Uuid::new_v4 and uuid's Display form: a freshly drawn
/// random version-4 UUID rendered as the 36-character hyphenated string.
/// The value is random, so nothing beyond its length is promised.
#[verifier::external_body]
fn new_watcher_id() -> (r: String)
    ensures
        r@.len() == 36,
{
    uuid::Uuid::new_v4().to_string()
}

/// Decide a creation request: assign a fresh identifier, return the
/// Watcher as the caller will see it — status forced to `Pending` (it was
/// just provisioned and has not reached a steady observed state) and no
/// ingest address yet — together with the ordered provisioning plan.
pub fn create_watcher(request: Watcher) -> (r: (Watcher, CreationPlan))
    ensures
        r.0.id is Some && r.0.id->0@.len() == 36,
        r.0.status == Some(Status::Pending),
        r.0.source.ingest_ip is None,
        r.0.source.ingest_port == request.source.ingest_port,
        r.0.tags == request.tags,
        r.0.status_description == request.status_description,
        r.1.steps@ == seq![ResourceKind::Config, ResourceKind::Workload, ResourceKind::Endpoint],
        r.1.config_name@ == spec_config_name(r.0.id->0@),
        r.1.workload_name@ == spec_workload_name(r.0.id->0@),
        r.1.endpoint_name@ == spec_endpoint_name(r.0.id->0@),
        r.1.ingest_port == request.source.ingest_port,
        r.1.initial_replicas == 0,
        r.1.initial_target == TargetState::Running,
{
    let id: String = new_watcher_id();
    let mut watcher: Watcher = request;
    watcher.id = Some(id.clone());
    watcher.status = Some(Status::Pending);
    watcher.source.ingest_ip = None;
    let mut steps: Vec<ResourceKind> = Vec::new();
    steps.push(ResourceKind::Config);
    steps.push(ResourceKind::Workload);
    steps.push(ResourceKind::Endpoint);
    proof {
        assert(steps@ =~= seq![
            ResourceKind::Config,
            ResourceKind::Workload,
            ResourceKind::Endpoint,
        ]);
    }
    let plan = CreationPlan {
        steps,
        config_name: config_name(&id),
        workload_name: workload_name(&id),
        endpoint_name: endpoint_name(&id),
        ingest_port: watcher.source.ingest_port,
        initial_replicas: 0,
        initial_target: TargetState::Running,
    };
    (watcher, plan)
}

/// The three independent, best-effort delete calls for a Watcher, in the
/// order they are issued.
pub struct DeletionPlan {
    pub workload_name: String,
    pub config_name: String,
    pub endpoint_name: String,
}

/// What one delete call against a single resource came back with.
#[derive(Clone, Copy, Debug, PartialEq, Eq, Structural)]
pub enum DeleteResourceOutcome {
    /// The resource existed and was deleted.
    Deleted,
    /// The resource was already absent — not an error for that resource.
    AlreadyAbsent,
    /// The call failed for some other reason.
    Failed,
}

/// The overall outcome reported for a delete request.
#[derive(Clone, Copy, Debug, PartialEq, Eq, Structural)]
pub enum DeleteOutcome {
    Deleted,
    NotFound,
}

impl DeleteOutcome {
    /// The human-readable elaboration a delete outcome carries back to
    /// the caller.
    pub fn message(&self) -> (r: String)
        ensures
            *self == DeleteOutcome::Deleted ==> r@ == "Watcher has been deleted"@,
            *self == DeleteOutcome::NotFound ==> r@ == "Watcher does not exist"@,
    {
        match self {
            DeleteOutcome::Deleted => String::from_str("Watcher has been deleted"),
            DeleteOutcome::NotFound => String::from_str("Watcher does not exist"),
        }
    }
}

/// Name the three resources a delete request issues independent,
/// best-effort delete calls against, in order: Workload, Config,
/// Endpoint.
pub fn delete_plan(id: &String) -> (r: DeletionPlan)
    ensures
        r.workload_name@ == spec_workload_name(id@),
        r.config_name@ == spec_config_name(id@),
        r.endpoint_name@ == spec_endpoint_name(id@),
{
    DeletionPlan {
        workload_name: workload_name(id),
        config_name: config_name(id),
        endpoint_name: endpoint_name(id),
    }
}

/// Fold the three per-resource outcomes into the reported result. The
/// Endpoint resource is canonical: only a hard failure of its delete call
/// — not mere absence of any resource — makes the whole operation report
/// not-found; the Workload and Config outcomes are deliberately not
/// authoritative, each of those deletes being best-effort.
pub fn delete_watcher_result(
    workload: &DeleteResourceOutcome,
    config: &DeleteResourceOutcome,
    endpoint: &DeleteResourceOutcome,
) -> (r: DeleteOutcome)
    ensures
        r == DeleteOutcome::Deleted <==> *endpoint !is Failed,
        r == DeleteOutcome::NotFound <==> *endpoint is Failed,
{
    match endpoint {
        DeleteResourceOutcome::Failed => DeleteOutcome::NotFound,
        _ => DeleteOutcome::Deleted,
    }
}

} // verus!
