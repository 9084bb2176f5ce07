use hearthlink_supervisor::command::{LaunchContext, RuntimeReport};
use hearthlink_supervisor::coordinator::RestartStep;
use hearthlink_supervisor::error::SupervisorError;
use hearthlink_supervisor::launch::{LaunchAction, LaunchEvent};
use hearthlink_supervisor::manager::{ServiceManager, WorkerProcess};
use hearthlink_supervisor::probe::{ProbeOutcome, ProbeVerdict};
use hearthlink_supervisor::profile::PortProfile;
use hearthlink_supervisor::role::ServiceRole;
use hearthlink_supervisor::status::ServicePhase;

const ALL: [ServiceRole; 4] =
    [ServiceRole::Alden, ServiceRole::Vault, ServiceRole::Core, ServiceRole::Synapse];

fn context() -> LaunchContext {
    LaunchContext {
        python_path: String::from("/srv/app"),
        data_dir: String::from("/srv/app/hearthlink_data"),
        vault_key: String::from("key"),
    }
}

type Manager = ServiceManager<String>;

fn process(pid: u32) -> WorkerProcess<String> {
    WorkerProcess { pid, handle: format!("handle of {}", pid) }
}

fn running_all() -> Manager {
    let mut manager = Manager::new(PortProfile::Default, 0);
    for (i, role) in ALL.iter().enumerate() {
        manager.record_launch(*role, process(10 + i as u32), 1);
        manager.record_probe(*role, &ProbeOutcome::Response { status: 200 }, 6);
    }
    manager
}

fn snapshot(manager: &Manager) -> Vec<hearthlink_supervisor::status::ServiceStatus> {
    manager.get_system_health().services
}

/// Runs a granted restart of `role` to its successful end.
fn relaunch(manager: &mut Manager, role: &str, pid: u32, now: u64) {
    match manager.restart_service_with_backoff(role, context(), now) {
        Ok(RestartStep::Relaunch { launch, .. }) => {
            let launch = launch.advance(
                manager,
                LaunchEvent::RuntimeProbed {
                    report: Some(RuntimeReport { success: true, stdout: String::from("Python 3.11.2") }),
                },
                now,
            );
            let launch = launch.advance(
                manager,
                LaunchEvent::ScriptChecked { full_path: String::from("/srv/app/script.py"), exists: true },
                now,
            );
            let launch = launch.advance(manager, LaunchEvent::Spawned { process: process(pid) }, now);
            assert_eq!(launch.pending(manager), LaunchAction::Finished { result: Ok(()) });
        },
        other => panic!("restart was not granted: {:?}", other),
    }
}

#[test]
fn restart_of_an_unknown_service_is_an_error() {
    let mut manager = running_all();
    let before = snapshot(&manager);
    match manager.restart_service_with_backoff("sentry", context(), 100) {
        Err(error) => {
            assert_eq!(error, SupervisorError::UnknownService { requested: String::from("sentry") });
            assert_eq!(error.message(), "Unknown service: sentry");
        },
        other => panic!("unexpected answer {:?}", other),
    }
    assert_eq!(snapshot(&manager), before);
}

#[test]
fn restart_of_a_worker_that_was_never_launched_does_nothing() {
    let mut manager = Manager::new(PortProfile::Default, 0);
    match manager.restart_service_with_backoff("core", context(), 100) {
        Ok(RestartStep::Untracked) => {},
        other => panic!("unexpected answer {:?}", other),
    }
    assert_eq!(manager.status_of(ServiceRole::Core), None);
}

#[test]
fn granted_restart_hands_out_the_old_process() {
    let mut manager = running_all();
    manager.record_probe(ServiceRole::Core, &ProbeOutcome::Response { status: 500 }, 40);
    match manager.restart_service_with_backoff("core", context(), 41) {
        Ok(RestartStep::Relaunch { stop, launch }) => {
            assert_eq!(stop, Some(process(12)));
            assert_eq!(launch.pending(&manager), LaunchAction::ProbeRuntime { candidate: "python3" });
        },
        other => panic!("unexpected answer {:?}", other),
    }
    let status = manager.status_of(ServiceRole::Core).unwrap();
    assert_eq!(status.pid, None);
    assert_eq!(status.status, ServicePhase::Error);
    assert_eq!(status.restart_count, 0);
    assert!(!manager.holds_handle(ServiceRole::Core));
    assert_eq!(manager.process_of(ServiceRole::Vault), Some(11));
    assert!(manager.holds_handle(ServiceRole::Vault));
}

#[test]
fn successful_restart_counts_and_doubles_the_backoff() {
    let mut manager = running_all();
    manager.record_probe(ServiceRole::Core, &ProbeOutcome::Response { status: 500 }, 40);
    relaunch(&mut manager, "core", 900, 41);
    let status = manager.status_of(ServiceRole::Core).unwrap();
    assert_eq!(status.status, ServicePhase::Starting);
    assert_eq!(status.pid, Some(900));
    assert_eq!(status.restart_count, 1);
    assert_eq!(status.restart_backoff, 2);
    assert_eq!(status.last_restart, Some(41));
    assert_eq!(status.error_message, None);
    assert_eq!(status.port, 8000);
}

#[test]
fn restart_within_the_backoff_is_postponed() {
    let mut manager = running_all();
    relaunch(&mut manager, "vault", 900, 100);
    let before = snapshot(&manager);
    match manager.restart_service_with_backoff("vault", context(), 101) {
        Ok(RestartStep::Deferred { remaining }) => assert_eq!(remaining, 1),
        other => panic!("unexpected answer {:?}", other),
    }
    assert_eq!(snapshot(&manager), before);
    match manager.restart_service_with_backoff("vault", context(), 102) {
        Ok(RestartStep::Relaunch { stop, .. }) => assert_eq!(stop, Some(process(900))),
        other => panic!("unexpected answer {:?}", other),
    }
}

#[test]
fn restart_is_refused_after_five_restarts_and_leaves_the_worker_untouched() {
    let mut manager = running_all();
    let mut now = 1_000;
    let mut backoffs = Vec::new();
    for round in 0..5 {
        relaunch(&mut manager, "synapse", 500 + round, now);
        backoffs.push(manager.status_of(ServiceRole::Synapse).unwrap().restart_backoff);
        now += 60;
    }
    assert_eq!(backoffs, vec![2, 4, 8, 16, 30]);
    assert_eq!(manager.status_of(ServiceRole::Synapse).unwrap().restart_count, 5);
    let before = snapshot(&manager);
    for _ in 0..3 {
        now += 60;
        match manager.restart_service_with_backoff("synapse", context(), now) {
            Err(error) => {
                assert_eq!(error, SupervisorError::MaxRestartsExceeded);
                assert_eq!(error.message(), "Max restart attempts exceeded");
            },
            other => panic!("unexpected answer {:?}", other),
        }
        assert_eq!(snapshot(&manager), before);
        assert!(manager.holds_handle(ServiceRole::Synapse));
    }
    assert_eq!(manager.process_of(ServiceRole::Synapse), Some(504));
    assert_eq!(manager.stop_service(ServiceRole::Synapse), Some(process(504)));
}

#[test]
fn recovery_makes_restarts_possible_again() {
    let mut manager = running_all();
    let mut now = 1_000;
    for round in 0..5 {
        relaunch(&mut manager, "alden", 500 + round, now);
        now += 60;
    }
    assert!(manager.restart_service_with_backoff("alden", context(), now).is_err());
    manager.record_probe(ServiceRole::Alden, &ProbeOutcome::Response { status: 200 }, now);
    let status = manager.status_of(ServiceRole::Alden).unwrap();
    assert_eq!(status.status, ServicePhase::Running);
    assert_eq!(status.restart_count, 0);
    assert_eq!(status.restart_backoff, 1);
    relaunch(&mut manager, "alden", 600, now + 60);
    assert_eq!(manager.status_of(ServiceRole::Alden).unwrap().restart_count, 1);
}

#[test]
fn failed_relaunch_is_recorded_with_the_worker() {
    let mut manager = running_all();
    manager.record_probe(ServiceRole::Vault, &ProbeOutcome::Unreachable { reason: String::from("timed out") }, 50);
    let launch = match manager.restart_service_with_backoff("vault", context(), 51) {
        Ok(RestartStep::Relaunch { launch, .. }) => launch,
        other => panic!("unexpected answer {:?}", other),
    };
    let launch = launch.advance(
        &mut manager,
        LaunchEvent::RuntimeProbed {
            report: Some(RuntimeReport { success: true, stdout: String::from("Python 3.9.7") }),
        },
        52,
    );
    let launch = launch.advance(
        &mut manager,
        LaunchEvent::ScriptChecked {
            full_path: String::from("/srv/app/src/vault/vault_api_server.py"),
            exists: false,
        },
        52,
    );
    assert!(launch.is_finished());
    assert_eq!(
        launch.pending(&manager),
        LaunchAction::Finished {
            result: Err(SupervisorError::ScriptNotFound {
                path: String::from("/srv/app/src/vault/vault_api_server.py")
            })
        }
    );
    let status = manager.status_of(ServiceRole::Vault).unwrap();
    assert_eq!(status.status, ServicePhase::Error);
    assert_eq!(status.pid, None);
    assert_eq!(
        status.error_message.as_deref(),
        Some("Python script not found: /srv/app/src/vault/vault_api_server.py")
    );
    assert_eq!(status.restart_count, 0);
    assert_eq!(status.restart_backoff, 1);
    assert_eq!(status.last_restart, None);
}

#[test]
fn relaunch_without_a_runtime_is_recorded_with_the_worker() {
    let mut manager = running_all();
    let mut launch = match manager.restart_service_with_backoff("core", context(), 51) {
        Ok(RestartStep::Relaunch { launch, .. }) => launch,
        other => panic!("unexpected answer {:?}", other),
    };
    for _ in 0..4 {
        launch = launch.advance(&mut manager, LaunchEvent::RuntimeProbed { report: None }, 52);
    }
    assert!(launch.is_finished());
    let status = manager.status_of(ServiceRole::Core).unwrap();
    assert_eq!(status.status, ServicePhase::Error);
    assert_eq!(
        status.error_message.as_deref(),
        Some("Python 3.x not found. Please ensure Python 3.x is installed and in PATH.")
    );
}

#[test]
fn failed_spawn_of_a_relaunch_is_recorded_with_the_worker() {
    let mut manager = running_all();
    let launch = match manager.restart_service_with_backoff("synapse", context(), 51) {
        Ok(RestartStep::Relaunch { launch, .. }) => launch,
        other => panic!("unexpected answer {:?}", other),
    };
    let launch = launch.advance(
        &mut manager,
        LaunchEvent::RuntimeProbed {
            report: Some(RuntimeReport { success: true, stdout: String::from("Python 3.9.7") }),
        },
        52,
    );
    let launch = launch.advance(
        &mut manager,
        LaunchEvent::ScriptChecked { full_path: String::from("/srv/app/s.py"), exists: true },
        52,
    );
    let launch = launch.advance(
        &mut manager,
        LaunchEvent::SpawnFailed { reason: String::from("No such file or directory (os error 2)") },
        53,
    );
    assert!(launch.is_finished());
    let status = manager.status_of(ServiceRole::Synapse).unwrap();
    assert_eq!(status.status, ServicePhase::Error);
    assert_eq!(status.pid, None);
    assert_eq!(
        status.error_message.as_deref(),
        Some("Failed to start synapse service: No such file or directory (os error 2)")
    );
}

#[test]
fn stopped_worker_can_be_launched_again() {
    let mut manager = running_all();
    manager.stop_service(ServiceRole::Core);
    match manager.restart_service_with_backoff("core", context(), 500) {
        Ok(RestartStep::Relaunch { stop, .. }) => assert_eq!(stop, None),
        other => panic!("unexpected answer {:?}", other),
    }
}

#[test]
fn core_failing_three_probes_in_a_row() {
    let mut manager = running_all();
    assert_eq!(manager.status_of(ServiceRole::Core).unwrap().status, ServicePhase::Running);
    let failure = ProbeOutcome::Response { status: 500 };

    let mut now = 100;
    let mut backoffs = Vec::new();
    let mut verdicts = Vec::new();
    for round in 0..3 {
        now += 30;
        verdicts.push(manager.record_probe(ServiceRole::Core, &failure, now).unwrap());
        let status = manager.status_of(ServiceRole::Core).unwrap();
        assert_eq!(status.status, ServicePhase::Error);
        assert_eq!(status.error_message.as_deref(), Some("HTTP 500 Internal Server Error"));
        assert_eq!(status.last_health_check, Some(now));
        backoffs.push(status.restart_backoff);
        relaunch(&mut manager, "core", 700 + round, now);
        assert_eq!(manager.status_of(ServiceRole::Core).unwrap().restart_count, round + 1);
    }
    assert_eq!(backoffs, vec![1, 2, 4]);
    assert_eq!(
        verdicts,
        vec![
            ProbeVerdict::Unhealthy { restart_scheduled: true },
            ProbeVerdict::Unhealthy { restart_scheduled: false },
            ProbeVerdict::Unhealthy { restart_scheduled: false },
        ]
    );
    assert_eq!(manager.status_of(ServiceRole::Core).unwrap().restart_backoff, 8);
    for role in [ServiceRole::Alden, ServiceRole::Vault, ServiceRole::Synapse] {
        let status = manager.status_of(role).unwrap();
        assert_eq!(status.status, ServicePhase::Running);
        assert_eq!(status.restart_count, 0);
    }
}
