use hearthlink_supervisor::probe::{ProbeOutcome, ProbeVerdict};
use hearthlink_supervisor::restart::RestartDecision;
use hearthlink_supervisor::role::ServiceRole;
use hearthlink_supervisor::status::{ServicePhase, ServiceStatus};

fn vault() -> ServiceStatus {
    ServiceStatus::launched(ServiceRole::Vault, 8001, 500, 1_000)
}

#[test]
fn first_restart_may_go_ahead() {
    let status = vault();
    assert_eq!(status.restart_decision(1_000), RestartDecision::Proceed);
    assert_eq!(status.restart_decision(0), RestartDecision::Proceed);
}

#[test]
fn restart_is_refused_at_the_ceiling() {
    let mut status = vault();
    status.restart_count = 5;
    status.restart_backoff = 30;
    status.last_restart = Some(10);
    assert_eq!(status.restart_decision(1_000_000), RestartDecision::Refuse);
    status.restart_count = 6;
    assert_eq!(status.restart_decision(1_000_000), RestartDecision::Refuse);
    status.restart_count = u32::MAX;
    assert_eq!(status.restart_decision(1_000_000), RestartDecision::Refuse);
}

#[test]
fn restart_waits_while_the_backoff_runs() {
    let mut status = vault();
    status.restart_count = 3;
    status.restart_backoff = 8;
    status.last_restart = Some(2_000);
    assert_eq!(status.restart_decision(2_000), RestartDecision::Wait { remaining: 8 });
    assert_eq!(status.restart_decision(2_003), RestartDecision::Wait { remaining: 5 });
    assert_eq!(status.restart_decision(2_007), RestartDecision::Wait { remaining: 1 });
}

#[test]
fn restart_goes_ahead_once_the_backoff_is_over() {
    let mut status = vault();
    status.restart_count = 3;
    status.restart_backoff = 8;
    status.last_restart = Some(2_000);
    assert_eq!(status.restart_decision(2_008), RestartDecision::Proceed);
    assert_eq!(status.restart_decision(2_009), RestartDecision::Proceed);
    assert_eq!(status.restart_decision(u64::MAX), RestartDecision::Proceed);
}

#[test]
fn restart_waits_when_the_clock_went_back() {
    let mut status = vault();
    status.restart_count = 1;
    status.restart_backoff = 2;
    status.last_restart = Some(2_000);
    assert_eq!(status.restart_decision(1_999), RestartDecision::Wait { remaining: 2 });
    assert_eq!(status.restart_decision(0), RestartDecision::Wait { remaining: 2 });
}

#[test]
fn ceiling_comes_before_backoff() {
    let mut status = vault();
    status.restart_count = 5;
    status.restart_backoff = 30;
    status.last_restart = Some(2_000);
    assert_eq!(status.restart_decision(2_001), RestartDecision::Refuse);
}

#[test]
fn release_handle_hands_out_the_process() {
    let mut status = vault();
    status.status = ServicePhase::Error;
    assert_eq!(status.release_handle(), Some(500));
    assert_eq!(status.pid, None);
    assert_eq!(status.status, ServicePhase::Error);
    assert_eq!(status.release_handle(), None);
}

#[test]
fn relaunch_counts_times_and_doubles() {
    let mut status = vault();
    status.status = ServicePhase::Error;
    status.error_message = Some(String::from("HTTP 500 Internal Server Error"));
    status.last_health_check = Some(1_500);
    status.pid = None;
    status.record_relaunch(601, 1_600);
    assert_eq!(
        status,
        ServiceStatus {
            name: ServiceRole::Vault,
            status: ServicePhase::Starting,
            port: 8001,
            pid: Some(601),
            started_at: Some(1_600),
            health_check_url: String::from("http://127.0.0.1:8001/health"),
            last_health_check: None,
            error_message: None,
            restart_count: 1,
            last_restart: Some(1_600),
            restart_backoff: 2,
        }
    );
}

#[test]
fn relaunch_stops_counting_at_the_ceiling() {
    let mut status = vault();
    status.restart_count = 5;
    status.restart_backoff = 30;
    status.record_relaunch(1, 2);
    assert_eq!(status.restart_count, 5);
    assert_eq!(status.restart_backoff, 30);
    assert_eq!(status.last_restart, Some(2));
}

#[test]
fn failed_relaunch_is_recorded_as_an_error() {
    let mut status = vault();
    status.restart_count = 2;
    status.restart_backoff = 4;
    status.record_relaunch_failure(String::from("Python script not found: /app/src/vault/vault_api_server.py"));
    assert_eq!(status.status, ServicePhase::Error);
    assert_eq!(status.pid, Some(500));
    assert_eq!(
        status.error_message.as_deref(),
        Some("Python script not found: /app/src/vault/vault_api_server.py")
    );
    assert_eq!(status.restart_count, 2);
    assert_eq!(status.restart_backoff, 4);
}

#[test]
fn backoff_follows_the_sequence_over_consecutive_failures() {
    let mut status = vault();
    status.status = ServicePhase::Running;
    let mut now = 10_000;
    let mut seen = vec![status.restart_backoff];
    for round in 0..5u32 {
        now += 100;
        let verdict = status.record_probe(&ProbeOutcome::Response { status: 500 }, now);
        assert!(matches!(verdict, ProbeVerdict::Unhealthy { .. }));
        assert_eq!(status.restart_decision(now), RestartDecision::Proceed);
        status.release_handle();
        status.record_relaunch(700 + round, now);
        seen.push(status.restart_backoff);
        assert_eq!(status.restart_count, round + 1);
    }
    assert_eq!(seen, vec![1, 2, 4, 8, 16, 30]);
    now += 100;
    status.record_probe(&ProbeOutcome::Response { status: 500 }, now);
    assert_eq!(status.restart_decision(now), RestartDecision::Refuse);
    assert_eq!(status.restart_backoff, 30);
    assert_eq!(status.restart_count, 5);
}

#[test]
fn three_failures_of_a_running_core() {
    let mut status = ServiceStatus::launched(ServiceRole::Core, 8000, 40, 0);
    assert_eq!(status.record_probe(&ProbeOutcome::Response { status: 200 }, 5), ProbeVerdict::Recovered);
    assert_eq!(status.status, ServicePhase::Running);

    let first = status.record_probe(&ProbeOutcome::Response { status: 500 }, 35);
    assert_eq!(first, ProbeVerdict::Unhealthy { restart_scheduled: true });
    assert_eq!(status.status, ServicePhase::Error);
    assert_eq!(status.error_message.as_deref(), Some("HTTP 500 Internal Server Error"));
    assert_eq!(status.restart_backoff, 1);
    assert_eq!(status.restart_decision(35), RestartDecision::Proceed);
    status.release_handle();
    status.record_relaunch(41, 35);

    status.record_probe(&ProbeOutcome::Response { status: 500 }, 65);
    assert_eq!(status.status, ServicePhase::Error);
    assert_eq!(status.restart_backoff, 2);
    assert_eq!(status.restart_decision(65), RestartDecision::Proceed);
    status.release_handle();
    status.record_relaunch(42, 65);

    status.record_probe(&ProbeOutcome::Response { status: 500 }, 95);
    assert_eq!(status.status, ServicePhase::Error);
    assert_eq!(status.restart_backoff, 4);
    assert_eq!(status.restart_count, 2);
    assert_eq!(status.error_message.as_deref(), Some("HTTP 500 Internal Server Error"));
}
