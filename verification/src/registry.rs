//! The read path: listing Watchers by correlating the Config and Workload
//! resource sets, and reading a single Watcher with best-effort
//! enrichment.

use vstd::prelude::*;
use crate::status::Status;
use crate::watcher::{spec_workload_status, workload_status, Watcher, WorkloadObservation};

verus! {

/// One Workload resource from a bulk read, keyed by the Watcher
/// identifier found in its labels.
#[derive(Clone, Debug)]
pub struct WorkloadEntry {
    pub watcher_id: String,
    pub observation: WorkloadObservation,
}

/// The identifier a Config record is looked up under. A record without an
/// identifier can match no Workload entry named after one, so it is keyed
/// by a placeholder and resolves to `Error` through the ordinary miss
/// path.
pub open spec fn spec_config_key(c: Watcher) -> Seq<char> {
    match c.id {
        Some(id) => id@,
        None => "undefined"@,
    }
}

/// The derived status the Workload set holds for an identifier: the
/// status of the last matching entry, or nothing when no entry matches.
/// (When one identifier appears twice, the later read wins, as a later
/// observation would.)
pub open spec fn spec_indexed_status(ws: Seq<WorkloadEntry>, key: Seq<char>) -> Option<Status>
    decreases ws.len(),
{
    if ws.len() == 0 {
        None
    } else if ws.last().watcher_id@ == key {
        Some(spec_workload_status(ws.last().observation))
    } else {
        spec_indexed_status(ws.drop_last(), key)
    }
}

/// The status a listing attaches to a Config record: the indexed status
/// of its matching Workload entry, or `Error` when no Workload resource
/// matches — absence of the workload is an anomaly, not "stopped".
pub open spec fn spec_listed_status(ws: Seq<WorkloadEntry>, c: Watcher) -> Status {
    match spec_indexed_status(ws, spec_config_key(c)) {
        Some(s) => s,
        None => Status::Error,
    }
}

/// Listing correctness, miss side: a Config record with no matching
/// Workload entry at all is listed with status `Error`.
pub proof fn lemma_listing_no_match_is_error(ws: Seq<WorkloadEntry>, c: Watcher)
    requires
        forall|i: int| 0 <= i < ws.len() ==> (#[trigger] ws[i]).watcher_id@ != spec_config_key(c),
    ensures
        spec_listed_status(ws, c) == Status::Error,
    decreases ws.len(),
{
    if ws.len() > 0 {
        lemma_listing_no_match_is_error(ws.drop_last(), c);
    }
}

/// Listing correctness, hit side: a Config record whose latest matching
/// Workload entry is entry `i` is listed with exactly that entry's
/// derived status.
pub proof fn lemma_listing_match_status(ws: Seq<WorkloadEntry>, c: Watcher, i: int)
    requires
        0 <= i < ws.len(),
        ws[i].watcher_id@ == spec_config_key(c),
        forall|j: int| i < j < ws.len() ==> (#[trigger] ws[j]).watcher_id@ != spec_config_key(c),
    ensures
        spec_listed_status(ws, c) == spec_workload_status(ws[i].observation),
    decreases ws.len(),
{
    if i + 1 < ws.len() {
        lemma_listing_match_status(ws.drop_last(), c, i);
    }
}

/// Look an identifier up in the Workload set read by a listing.
pub fn indexed_status(workloads: &Vec<WorkloadEntry>, key: &String) -> (r: Option<Status>)
    ensures
        r == spec_indexed_status(workloads@, key@),
{
    let ghost all = workloads@;
    let mut found: Option<Status> = None;
    let mut i: usize = 0;
    while i < workloads.len()
        invariant
            i <= all.len(),
            all == workloads@,
            found == spec_indexed_status(all.take(i as int), key@),
        decreases workloads.len() - i,
    {
        let entry: &WorkloadEntry = &workloads[i];
        if entry.watcher_id == *key {
            found = Some(workload_status(&entry.observation));
        }
        i = i + 1;
        proof {
            assert(all.take(i as int).drop_last() =~= all.take(i - 1));
            assert(all.take(i as int).last() == all[i - 1]);
        }
    }
    proof {
        assert(all.take(all.len() as int) =~= all);
    }
    found
}

/// List all Watchers. The Config set is the authoritative enumeration of
/// which Watchers exist; each record comes back with the derived status
/// of its matching Workload entry, `Error` where none matches, and no
/// ingest address (a listing does not consult Endpoint resources). The
/// two bulk reads behind the inputs need not be a consistent snapshot: a
/// transient mismatch shows up as `Pending` or `Error` and corrects
/// itself on the next call.
pub fn list_watchers(workloads: &Vec<WorkloadEntry>, configs: Vec<Watcher>) -> (r: Vec<Watcher>)
    ensures
        r@.len() == configs@.len(),
        forall|j: int| 0 <= j < configs@.len() ==> {
            &&& (#[trigger] r@[j]).id == configs@[j].id
            &&& r@[j].source.ingest_port == configs@[j].source.ingest_port
            &&& r@[j].source.ingest_ip is None
            &&& r@[j].tags == configs@[j].tags
            &&& r@[j].status_description == configs@[j].status_description
            &&& r@[j].status == Some(spec_listed_status(workloads@, configs@[j]))
        },
{
    let ghost orig = configs@;
    let undefined_key: String = String::from_str("undefined");
    let mut rest: Vec<Watcher> = configs;
    let mut out: Vec<Watcher> = Vec::new();
    while rest.len() > 0
        invariant
            out@.len() + rest@.len() == orig.len(),
            rest@ == orig.skip(out@.len() as int),
            undefined_key@ == "undefined"@,
            forall|j: int| 0 <= j < out@.len() ==> {
                &&& (#[trigger] out@[j]).id == orig[j].id
                &&& out@[j].source.ingest_port == orig[j].source.ingest_port
                &&& out@[j].source.ingest_ip is None
                &&& out@[j].tags == orig[j].tags
                &&& out@[j].status_description == orig[j].status_description
                &&& out@[j].status == Some(spec_listed_status(workloads@, orig[j]))
            },
        decreases rest.len(),
    {
        let ghost done = out@.len() as int;
        let mut w: Watcher = rest.remove(0);
        proof {
            assert(orig.skip(done)[0] == orig[done]);
            assert(orig.skip(done).remove(0) =~= orig.skip(done + 1));
        }
        let found: Option<Status> = match &w.id {
            Some(id) => indexed_status(workloads, id),
            None => indexed_status(workloads, &undefined_key),
        };
        let status: Status = match found {
            Some(s) => s,
            None => Status::Error,
        };
        w.status = Some(status);
        w.source.ingest_ip = None;
        out.push(w);
    }
    proof {
        assert(out@.len() == orig.len());
    }
    out
}

/// Reading one Watcher.
pub enum GetWatcherOutcome {
    /// The Workload or the Config resource is absent.
    NotFound,
    /// The record as the caller sees it, with derived status and
    /// best-effort enrichment attached.
    Found { watcher: Watcher },
}

/// Assemble the response for reading a single Watcher. Both backing
/// resources must exist; then the status is derived from the workload
/// observation, a waiting reason collected from the pod enriches the
/// description only while the status is `Pending`, and the endpoint
/// address is attached unless the status is `Error`. Absence of either
/// enrichment is never an error — only structural failures escalate.
pub fn get_watcher(
    workload: &Option<WorkloadObservation>,
    config: Option<Watcher>,
    waiting_reason: Option<String>,
    endpoint_address: Option<String>,
) -> (r: GetWatcherOutcome)
    ensures
        workload is None || config is None <==> r is NotFound,
        r matches GetWatcherOutcome::Found { watcher } ==> {
            let s = spec_workload_status(workload->0);
            &&& watcher.id == config->0.id
            &&& watcher.source.ingest_port == config->0.source.ingest_port
            &&& watcher.tags == config->0.tags
            &&& watcher.status == Some(s)
            &&& watcher.status_description == (if s == Status::Pending {
                waiting_reason
            } else {
                None::<String>
            })
            &&& watcher.source.ingest_ip == (if s != Status::Error {
                endpoint_address
            } else {
                None::<String>
            })
        },
{
    let workload_obs: &WorkloadObservation = match workload {
        Some(o) => o,
        None => {
            return GetWatcherOutcome::NotFound;
        },
    };
    let mut watcher: Watcher = match config {
        Some(w) => w,
        None => {
            return GetWatcherOutcome::NotFound;
        },
    };
    let status: Status = workload_status(workload_obs);
    watcher.status = Some(status);
    watcher.status_description = if status == Status::Pending {
        waiting_reason
    } else {
        None
    };
    watcher.source.ingest_ip = if status != Status::Error {
        endpoint_address
    } else {
        None
    };
    GetWatcherOutcome::Found { watcher }
}

} // verus!
