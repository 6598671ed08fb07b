use hawkeye::codes::get_watcher_code;
use hawkeye::registry::{get_watcher, list_watchers, GetWatcherOutcome, WorkloadEntry};
use hawkeye::watcher::{workload_status, Source, Watcher, WorkloadObservation};
use hawkeye::Status;

fn observation(label: Option<&str>, replicas: i32) -> WorkloadObservation {
    WorkloadObservation {
        target_label: label.map(String::from),
        status_reported: true,
        available_replicas: Some(replicas),
    }
}

fn record(id: &str, port: u32) -> Watcher {
    Watcher {
        id: Some(String::from(id)),
        source: Source {
            ingest_port: port,
            ingest_ip: None,
        },
        tags: None,
        status: None,
        status_description: None,
    }
}

fn entry(id: &str, label: Option<&str>, replicas: i32) -> WorkloadEntry {
    WorkloadEntry {
        watcher_id: String::from(id),
        observation: observation(label, replicas),
    }
}

#[test]
fn list_attaches_running_or_error() {
    // Three Config records; only two have a matching Workload resource,
    // both observed Running with target Running.
    let workloads = vec![
        entry("a", Some("Running"), 1),
        entry("b", Some("Running"), 2),
    ];
    let configs = vec![record("a", 8080), record("b", 8081), record("c", 8082)];
    let listed = list_watchers(&workloads, configs);
    assert_eq!(listed.len(), 3);
    assert_eq!(listed[0].status, Some(Status::Running));
    assert_eq!(listed[1].status, Some(Status::Running));
    assert_eq!(listed[2].status, Some(Status::Error));
    for w in &listed {
        assert_eq!(w.source.ingest_ip, None);
    }
    assert_eq!(listed[0].id.as_deref(), Some("a"));
    assert_eq!(listed[2].id.as_deref(), Some("c"));
}

#[test]
fn list_keeps_record_fields_and_order() {
    let workloads = vec![entry("a", Some("Ready"), 0)];
    let mut with_tags = record("a", 9000);
    with_tags.tags = Some(vec![(String::from("env"), String::from("prod"))]);
    let configs = vec![with_tags, record("z", 9001)];
    let listed = list_watchers(&workloads, configs);
    assert_eq!(listed.len(), 2);
    assert_eq!(listed[0].status, Some(Status::Ready));
    assert_eq!(
        listed[0].tags,
        Some(vec![(String::from("env"), String::from("prod"))])
    );
    assert_eq!(listed[1].id.as_deref(), Some("z"));
    assert_eq!(listed[1].status, Some(Status::Error));
}

#[test]
fn list_with_duplicate_workload_entries_takes_the_later() {
    let workloads = vec![
        entry("a", Some("Running"), 0), // Pending
        entry("a", Some("Running"), 3), // Running — read later, wins
    ];
    let listed = list_watchers(&workloads, vec![record("a", 8080)]);
    assert_eq!(listed[0].status, Some(Status::Running));
}

#[test]
fn list_config_without_identifier_reads_error() {
    let workloads = vec![entry("a", Some("Running"), 1)];
    let mut nameless = record("a", 8080);
    nameless.id = None;
    let listed = list_watchers(&workloads, vec![nameless]);
    assert_eq!(listed.len(), 1);
    assert_eq!(listed[0].status, Some(Status::Error));
}

#[test]
fn list_of_no_configs_is_empty() {
    let workloads = vec![entry("a", Some("Running"), 1)];
    let listed = list_watchers(&workloads, Vec::new());
    assert!(listed.is_empty());
}

#[test]
fn get_missing_resource_is_not_found() {
    let missing_workload = get_watcher(&None, Some(record("a", 8080)), None, None);
    assert!(matches!(missing_workload, GetWatcherOutcome::NotFound));
    assert_eq!(get_watcher_code(&missing_workload), 404);
    let missing_config = get_watcher(&Some(observation(Some("Ready"), 0)), None, None, None);
    assert!(matches!(missing_config, GetWatcherOutcome::NotFound));
}

#[test]
fn freshly_created_watcher_reads_pending() {
    // Right after creation the workload declares target Running while no
    // replica is available yet: the first read derives Pending.
    let obs = observation(Some("Running"), 0);
    let outcome = get_watcher(
        &Some(obs),
        Some(record("a", 8080)),
        Some(String::from("pulling the container image")),
        None,
    );
    match outcome {
        GetWatcherOutcome::Found { watcher } => {
            assert_eq!(watcher.status, Some(Status::Pending));
            assert_eq!(
                watcher.status_description.as_deref(),
                Some("pulling the container image")
            );
        }
        GetWatcherOutcome::NotFound => panic!("both resources exist"),
    }
}

#[test]
fn get_running_watcher_attaches_address_but_no_description() {
    let obs = observation(Some("Running"), 1);
    let outcome = get_watcher(
        &Some(obs),
        Some(record("a", 8080)),
        Some(String::from("stale reason")),
        Some(String::from("203.0.113.7")),
    );
    match outcome {
        GetWatcherOutcome::Found { watcher } => {
            assert_eq!(watcher.status, Some(Status::Running));
            assert_eq!(watcher.status_description, None);
            assert_eq!(watcher.source.ingest_ip.as_deref(), Some("203.0.113.7"));
        }
        GetWatcherOutcome::NotFound => panic!("both resources exist"),
    }
}

#[test]
fn unlabeled_workload_with_replicas_reads_error() {
    // A Workload resource with no target label and three available
    // replicas: the missing declaration escalates to Error, and Error
    // suppresses the endpoint address.
    let obs = observation(None, 3);
    assert_eq!(workload_status(&obs), Status::Error);
    let outcome = get_watcher(
        &Some(obs),
        Some(record("a", 8080)),
        None,
        Some(String::from("203.0.113.7")),
    );
    match outcome {
        GetWatcherOutcome::Found { watcher } => {
            assert_eq!(watcher.status, Some(Status::Error));
            assert_eq!(watcher.source.ingest_ip, None);
        }
        GetWatcherOutcome::NotFound => panic!("both resources exist"),
    }
}

#[test]
fn workload_without_status_block_reads_error() {
    let obs = WorkloadObservation {
        target_label: Some(String::from("Running")),
        status_reported: false,
        available_replicas: None,
    };
    assert_eq!(workload_status(&obs), Status::Error);
}
