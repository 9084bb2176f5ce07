use hearthlink_supervisor::health::OverallStatus;
use hearthlink_supervisor::manager::{ProbeTarget, ServiceManager, WorkerProcess};
use hearthlink_supervisor::probe::{ProbeOutcome, ProbeVerdict};
use hearthlink_supervisor::profile::PortProfile;
use hearthlink_supervisor::restart::RestartDecision;
use hearthlink_supervisor::role::ServiceRole;
use hearthlink_supervisor::status::{ServicePhase, ServiceStatus};

/// Stands for an operating-system process handle.
#[derive(Debug, PartialEq, Eq)]
struct Handle(&'static str);

const ALL: [ServiceRole; 4] =
    [ServiceRole::Alden, ServiceRole::Vault, ServiceRole::Core, ServiceRole::Synapse];

fn ok() -> ProbeOutcome {
    ProbeOutcome::Response { status: 200 }
}

fn down() -> ProbeOutcome {
    ProbeOutcome::Unreachable { reason: String::from("connection refused") }
}

fn process(pid: u32, handle: &'static str) -> WorkerProcess<Handle> {
    WorkerProcess { pid, handle: Handle(handle) }
}

fn launched_all(profile: PortProfile) -> ServiceManager<Handle> {
    let mut manager = ServiceManager::new(profile, 1_000);
    for (i, role) in ALL.iter().enumerate() {
        assert_eq!(manager.record_launch(*role, process(100 + i as u32, role.name()), 1_001), None);
    }
    manager
}

/// The registry holds a handle for exactly the workers whose record names a
/// process, and a stopped worker names none.
fn assert_consistent(manager: &ServiceManager<Handle>) {
    for role in ALL {
        let status = manager.status_of(role);
        let pid = status.as_ref().and_then(|s| s.pid);
        assert_eq!(manager.process_of(role), pid);
        assert_eq!(manager.holds_handle(role), pid.is_some(), "{:?}", role);
        if let Some(status) = status {
            assert_eq!(status.name, role);
            assert_eq!(status.port, manager.port_profile().port_for(role));
            assert_eq!(status.health_check_url, format!("http://127.0.0.1:{}/health", status.port));
            if status.status == ServicePhase::Stopped {
                assert_eq!(status.pid, None);
            }
            assert!(status.restart_count <= 5);
            assert!(1 <= status.restart_backoff && status.restart_backoff <= 30);
        }
    }
}

#[test]
fn new_manager_is_empty() {
    let manager: ServiceManager<Handle> = ServiceManager::new(PortProfile::Qa, 42);
    assert_eq!(manager.port_profile(), PortProfile::Qa);
    assert_eq!(manager.startup_time(), 42);
    assert!(!manager.is_shutdown_in_progress());
    assert!(!manager.is_monitor_started());
    for role in ALL {
        assert_eq!(manager.status_of(role), None);
        assert_eq!(manager.process_of(role), None);
        assert!(!manager.holds_handle(role));
    }
    assert_eq!(manager.first_live(), None);
    assert!(manager.probe_targets().is_empty());
    let health = manager.get_system_health();
    assert!(health.services.is_empty());
    assert_eq!(health.overall_status, OverallStatus::Healthy);
    assert_eq!(health.startup_time, 42);
}

#[test]
fn record_launch_uses_the_port_of_the_profile() {
    let mut manager = ServiceManager::new(PortProfile::Dev, 0);
    assert_eq!(manager.record_launch(ServiceRole::Synapse, process(77, "first"), 5), None);
    assert_eq!(
        manager.status_of(ServiceRole::Synapse),
        Some(ServiceStatus::launched(ServiceRole::Synapse, 8022, 77, 5))
    );
    assert_eq!(manager.process_of(ServiceRole::Synapse), Some(77));
    assert!(manager.holds_handle(ServiceRole::Synapse));
    assert_eq!(manager.status_of(ServiceRole::Core), None);
    assert!(!manager.holds_handle(ServiceRole::Core));
    assert_consistent(&manager);
}

#[test]
fn record_launch_replaces_an_older_record_and_hands_back_its_handle() {
    let mut manager = launched_all(PortProfile::Default);
    manager.record_probe(ServiceRole::Core, &down(), 1_010);
    assert_eq!(manager.record_relaunch(ServiceRole::Core, process(200, "second"), 1_020), Some(Handle("core")));
    assert_eq!(manager.record_launch(ServiceRole::Core, process(300, "third"), 1_030), Some(Handle("second")));
    assert_eq!(
        manager.status_of(ServiceRole::Core),
        Some(ServiceStatus::launched(ServiceRole::Core, 8000, 300, 1_030))
    );
    assert_eq!(manager.stop_service(ServiceRole::Core), Some(process(300, "third")));
    assert_consistent(&manager);
}

#[test]
fn snapshot_lists_records_in_launch_order() {
    let mut manager = ServiceManager::new(PortProfile::Default, 9);
    manager.record_launch(ServiceRole::Synapse, process(4, "s"), 10);
    manager.record_launch(ServiceRole::Alden, process(1, "a"), 11);
    manager.record_launch(ServiceRole::Core, process(3, "c"), 12);
    let health = manager.get_system_health();
    let names: Vec<ServiceRole> = health.services.iter().map(|s| s.name).collect();
    assert_eq!(names, vec![ServiceRole::Alden, ServiceRole::Core, ServiceRole::Synapse]);
    assert_eq!(health.overall_status, OverallStatus::Unhealthy);
    assert_eq!(health.startup_time, 9);
}

#[test]
fn snapshot_summary_follows_the_probes() {
    let mut manager = launched_all(PortProfile::Default);
    assert_eq!(manager.get_system_health().overall_status, OverallStatus::Unhealthy);
    manager.record_probe(ServiceRole::Alden, &ok(), 1_005);
    assert_eq!(manager.get_system_health().overall_status, OverallStatus::Degraded);
    manager.record_probe(ServiceRole::Vault, &ok(), 1_005);
    manager.record_probe(ServiceRole::Core, &ok(), 1_005);
    assert_eq!(manager.get_system_health().overall_status, OverallStatus::Degraded);
    manager.record_probe(ServiceRole::Synapse, &ok(), 1_005);
    assert_eq!(manager.get_system_health().overall_status, OverallStatus::Healthy);
    manager.record_probe(ServiceRole::Vault, &down(), 1_035);
    assert_eq!(manager.get_system_health().overall_status, OverallStatus::Degraded);
    assert_consistent(&manager);
}

#[test]
fn probe_targets_are_the_known_workers_with_their_urls() {
    let mut manager = ServiceManager::new(PortProfile::Qa, 0);
    manager.record_launch(ServiceRole::Core, process(3, "c"), 1);
    manager.record_launch(ServiceRole::Alden, process(1, "a"), 1);
    assert_eq!(
        manager.probe_targets(),
        vec![
            ProbeTarget {
                name: ServiceRole::Alden,
                url: String::from("http://127.0.0.1:8898/health"),
                timeout_secs: 5,
            },
            ProbeTarget {
                name: ServiceRole::Core,
                url: String::from("http://127.0.0.1:8010/health"),
                timeout_secs: 5,
            },
        ]
    );
}

#[test]
fn probe_of_an_unknown_worker_does_nothing() {
    let mut manager = ServiceManager::new(PortProfile::Default, 0);
    manager.record_launch(ServiceRole::Core, process(3, "c"), 1);
    assert_eq!(manager.record_probe(ServiceRole::Vault, &ok(), 5), None);
    assert_eq!(manager.status_of(ServiceRole::Vault), None);
    assert_eq!(
        manager.status_of(ServiceRole::Core),
        Some(ServiceStatus::launched(ServiceRole::Core, 8000, 3, 1))
    );
}

#[test]
fn probe_changes_only_the_probed_worker() {
    let mut manager = launched_all(PortProfile::Default);
    let verdict = manager.record_probe(ServiceRole::Vault, &ok(), 1_005);
    assert_eq!(verdict, Some(ProbeVerdict::Recovered));
    assert_eq!(manager.status_of(ServiceRole::Vault).unwrap().status, ServicePhase::Running);
    assert_eq!(manager.status_of(ServiceRole::Vault).unwrap().last_health_check, Some(1_005));
    for role in [ServiceRole::Alden, ServiceRole::Core, ServiceRole::Synapse] {
        let status = manager.status_of(role).unwrap();
        assert_eq!(status.status, ServicePhase::Starting);
        assert_eq!(status.last_health_check, None);
    }
    assert_consistent(&manager);
}

#[test]
fn failed_probe_of_a_running_worker_asks_for_a_restart() {
    let mut manager = launched_all(PortProfile::Default);
    manager.record_probe(ServiceRole::Core, &ok(), 1_005);
    let verdict = manager.record_probe(ServiceRole::Core, &ProbeOutcome::Response { status: 500 }, 1_035);
    assert_eq!(verdict, Some(ProbeVerdict::Unhealthy { restart_scheduled: true }));
    let status = manager.status_of(ServiceRole::Core).unwrap();
    assert_eq!(status.status, ServicePhase::Error);
    assert_eq!(status.error_message.as_deref(), Some("HTTP 500 Internal Server Error"));
    assert!(manager.holds_handle(ServiceRole::Core));
}

#[test]
fn restart_decision_of_the_manager() {
    let mut manager = launched_all(PortProfile::Default);
    assert_eq!(manager.restart_decision(ServiceRole::Core, 2_000), Some(RestartDecision::Proceed));
    manager.record_relaunch(ServiceRole::Core, process(9, "again"), 2_000);
    assert_eq!(manager.restart_decision(ServiceRole::Core, 2_001), Some(RestartDecision::Wait { remaining: 1 }));
    assert_eq!(manager.restart_decision(ServiceRole::Core, 2_002), Some(RestartDecision::Proceed));
    let empty: ServiceManager<Handle> = ServiceManager::new(PortProfile::Default, 0);
    assert_eq!(empty.restart_decision(ServiceRole::Core, 2_000), None);
}

#[test]
fn release_handle_takes_the_process_out_of_the_registry() {
    let mut manager = launched_all(PortProfile::Default);
    manager.record_probe(ServiceRole::Vault, &down(), 1_005);
    assert_eq!(manager.release_handle(ServiceRole::Vault), Some(process(101, "vault")));
    let status = manager.status_of(ServiceRole::Vault).unwrap();
    assert_eq!(status.pid, None);
    assert_eq!(status.status, ServicePhase::Error);
    assert!(!manager.holds_handle(ServiceRole::Vault));
    assert_eq!(manager.release_handle(ServiceRole::Vault), None);
    assert_eq!(manager.process_of(ServiceRole::Alden), Some(100));
    assert!(manager.holds_handle(ServiceRole::Alden));
    assert_consistent(&manager);
    let mut empty: ServiceManager<Handle> = ServiceManager::new(PortProfile::Default, 0);
    assert_eq!(empty.release_handle(ServiceRole::Vault), None);
    assert_eq!(empty.status_of(ServiceRole::Vault), None);
}

#[test]
fn relaunch_of_a_worker_without_a_record_is_a_first_launch() {
    let mut manager = ServiceManager::new(PortProfile::Default, 0);
    assert_eq!(manager.record_relaunch(ServiceRole::Alden, process(5, "a"), 6), None);
    assert_eq!(
        manager.status_of(ServiceRole::Alden),
        Some(ServiceStatus::launched(ServiceRole::Alden, 8888, 5, 6))
    );
    assert_consistent(&manager);
}

#[test]
fn relaunch_failure_of_a_worker_without_a_record_changes_nothing() {
    let mut manager: ServiceManager<Handle> = ServiceManager::new(PortProfile::Default, 0);
    manager.record_relaunch_failure(ServiceRole::Alden, String::from("nope"));
    assert_eq!(manager.status_of(ServiceRole::Alden), None);
}

#[test]
fn relaunch_failure_keeps_a_process_that_is_there() {
    let mut manager = launched_all(PortProfile::Default);
    manager.record_relaunch_failure(ServiceRole::Core, String::from("nope"));
    let status = manager.status_of(ServiceRole::Core).unwrap();
    assert_eq!(status.status, ServicePhase::Error);
    assert_eq!(status.error_message.as_deref(), Some("nope"));
    assert_eq!(status.pid, Some(102));
    assert_consistent(&manager);
}

#[test]
fn stop_service_marks_the_worker_stopped_and_hands_out_its_process() {
    let mut manager = launched_all(PortProfile::Default);
    assert_eq!(manager.stop_service(ServiceRole::Synapse), Some(process(103, "synapse")));
    let status = manager.status_of(ServiceRole::Synapse).unwrap();
    assert_eq!(status.status, ServicePhase::Stopped);
    assert_eq!(status.pid, None);
    assert_eq!(manager.stop_service(ServiceRole::Synapse), None);
    assert_eq!(manager.first_live(), Some(ServiceRole::Alden));
    assert_consistent(&manager);
}

#[test]
fn first_live_follows_the_launch_order() {
    let mut manager = launched_all(PortProfile::Default);
    assert_eq!(manager.first_live(), Some(ServiceRole::Alden));
    manager.stop_service(ServiceRole::Alden);
    assert_eq!(manager.first_live(), Some(ServiceRole::Vault));
    manager.stop_service(ServiceRole::Core);
    manager.stop_service(ServiceRole::Vault);
    assert_eq!(manager.first_live(), Some(ServiceRole::Synapse));
    manager.stop_service(ServiceRole::Synapse);
    assert_eq!(manager.first_live(), None);
}

#[test]
fn registry_and_table_agree_through_a_mixed_history() {
    let mut manager = launched_all(PortProfile::Qa);
    assert_consistent(&manager);
    manager.record_probe(ServiceRole::Alden, &ok(), 1_005);
    manager.record_probe(ServiceRole::Core, &down(), 1_005);
    assert_consistent(&manager);
    manager.release_handle(ServiceRole::Core);
    assert_consistent(&manager);
    manager.record_probe(ServiceRole::Core, &down(), 1_010);
    manager.record_relaunch_failure(ServiceRole::Core, String::from("spawn failed"));
    assert_consistent(&manager);
    manager.record_relaunch(ServiceRole::Core, process(900, "core again"), 1_020);
    assert_consistent(&manager);
    manager.stop_service(ServiceRole::Vault);
    manager.record_probe(ServiceRole::Vault, &down(), 1_030);
    assert_eq!(manager.status_of(ServiceRole::Vault).unwrap().status, ServicePhase::Error);
    assert_consistent(&manager);
    manager.record_probe(ServiceRole::Vault, &ok(), 1_040);
    assert_eq!(manager.status_of(ServiceRole::Vault).unwrap().status, ServicePhase::Running);
    assert_consistent(&manager);
    manager.record_launch(ServiceRole::Vault, process(901, "vault again"), 1_050);
    assert_consistent(&manager);
}

#[test]
fn shutdown_guard_is_won_once() {
    let mut manager: ServiceManager<Handle> = ServiceManager::new(PortProfile::Default, 0);
    assert!(manager.begin_shutdown());
    assert!(manager.is_shutdown_in_progress());
    assert!(!manager.begin_shutdown());
    assert!(!manager.begin_shutdown());
    assert!(manager.is_shutdown_in_progress());
}

#[test]
fn monitor_is_claimed_once() {
    let mut manager: ServiceManager<Handle> = ServiceManager::new(PortProfile::Default, 0);
    assert!(manager.claim_monitor());
    assert!(manager.is_monitor_started());
    assert!(!manager.claim_monitor());
    assert!(manager.is_monitor_started());
}
