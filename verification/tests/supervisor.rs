// The supervisor core: port allocation, readiness probing, launch
// orchestration, graceful-then-forced shutdown, and the shared handle slot.

use jterm_supervisor::errors::LaunchError;
use jterm_supervisor::health::{
    classify_status, is_success_status, run_probe_schedule, HealthCheckConfig, ProbeOutcome,
    ProbeStep, ReadinessProbe,
};
use jterm_supervisor::ports::{find_available_port, PortScan};
use jterm_supervisor::shutdown::{run_grace_wait, GraceWait, ShutdownStep};
use jterm_supervisor::slot::BackendSlot;
use jterm_supervisor::supervisor::{LaunchFlow, PollOutcome, PythonBackend};
use jterm_supervisor::urls::{base_url_for_port, health_url_for_port};

#[test]
fn test_find_available_port() {
    let available = vec![true; 101];
    let port = find_available_port(9000, 9100, &available);
    assert!(port.is_some());
}

#[test]
fn first_free_port_is_returned() {
    let mut available = vec![false; 11];
    available[3] = true;
    available[7] = true;
    assert_eq!(find_available_port(8000, 8010, &available), Some(8003));
}

#[test]
fn exhausted_range_returns_nothing() {
    let available = vec![false; 11];
    assert_eq!(find_available_port(8000, 8010, &available), None);
}

#[test]
fn single_port_range() {
    assert_eq!(find_available_port(8080, 8080, &vec![true]), Some(8080));
    assert_eq!(find_available_port(8080, 8080, &vec![false]), None);
}

#[test]
fn port_scan_walks_range_in_order() {
    let mut scan = PortScan::new(8000, 8002);
    assert_eq!(scan.candidate(), Some(8000));
    scan.advance();
    assert_eq!(scan.candidate(), Some(8001));
    scan.advance();
    assert_eq!(scan.candidate(), Some(8002));
    scan.advance();
    assert_eq!(scan.candidate(), None);
}

#[test]
fn default_health_config() {
    let config = HealthCheckConfig::default();
    assert_eq!(config.max_attempts, 30);
    assert_eq!(config.timeout_secs, 30);
    assert_eq!(config.retry_delay_ms, 1000);
}

#[test]
fn status_classification() {
    assert!(is_success_status(200));
    assert!(is_success_status(204));
    assert!(is_success_status(299));
    assert!(!is_success_status(199));
    assert!(!is_success_status(300));
    assert!(!is_success_status(404));
    assert!(!is_success_status(503));
    assert_eq!(classify_status(200), ProbeOutcome::Healthy);
    assert_eq!(classify_status(500), ProbeOutcome::Unhealthy);
}

#[test]
fn probe_machine_steps() {
    let config = HealthCheckConfig {
        max_attempts: 3,
        timeout_secs: 3,
        retry_delay_ms: 250,
    };
    let mut probe = ReadinessProbe::new(&config);
    assert_eq!(
        probe.record(ProbeOutcome::Unhealthy),
        ProbeStep::RetryAfter(250)
    );
    assert_eq!(
        probe.record(ProbeOutcome::Unhealthy),
        ProbeStep::RetryAfter(250)
    );
    assert_eq!(probe.record(ProbeOutcome::Unhealthy), ProbeStep::GiveUp);
}

#[test]
fn probe_machine_stops_on_first_healthy() {
    let config = HealthCheckConfig::default();
    let mut probe = ReadinessProbe::new(&config);
    assert_eq!(
        probe.record(ProbeOutcome::Unhealthy),
        ProbeStep::RetryAfter(1000)
    );
    assert_eq!(probe.record(ProbeOutcome::Healthy), ProbeStep::Ready);
}

// A server that starts answering healthy on the third probe of thirty: ready
// on exactly attempt 3 after two retry delays.
#[test]
fn ready_on_third_attempt() {
    let config = HealthCheckConfig::default();
    let mut outcomes = vec![ProbeOutcome::Unhealthy; 30];
    outcomes[2] = ProbeOutcome::Healthy;
    let report = run_probe_schedule(&config, &outcomes);
    assert!(report.ready);
    assert_eq!(report.attempts, 3);
    assert_eq!(report.sleeps, 2);
}

// A server that never answers healthy: exactly thirty probes, no sleep after
// the last one.
#[test]
fn never_ready_spends_all_attempts() {
    let config = HealthCheckConfig::default();
    let outcomes = vec![ProbeOutcome::Unhealthy; 30];
    let report = run_probe_schedule(&config, &outcomes);
    assert!(!report.ready);
    assert_eq!(report.attempts, 30);
    assert_eq!(report.sleeps, 29);
}

#[test]
fn ready_at_once_never_sleeps() {
    let config = HealthCheckConfig::default();
    let mut outcomes = vec![ProbeOutcome::Unhealthy; 30];
    outcomes[0] = ProbeOutcome::Healthy;
    let report = run_probe_schedule(&config, &outcomes);
    assert!(report.ready);
    assert_eq!(report.attempts, 1);
    assert_eq!(report.sleeps, 0);
}

#[test]
fn urls_carry_the_port() {
    assert_eq!(base_url_for_port(8050), "http://localhost:8050");
    assert_eq!(base_url_for_port(80), "http://localhost:80");
    assert_eq!(health_url_for_port(8000), "http://localhost:8000/health");
    assert_eq!(health_url_for_port(65535), "http://localhost:65535/health");
}

// Launch with range 8000-9000 all occupied except 8050; the health endpoint
// answers on probe 3 of 30: the flow ends ready at
// http://localhost:8050 after two retry delays.
#[test]
fn launch_succeeds_on_the_free_port() {
    let mut available = vec![false; 1001];
    available[50] = true;
    let port = find_available_port(8000, 9000, &available);
    assert_eq!(port, Some(8050));

    let mut flow = LaunchFlow::new();
    flow.port_allocated(port, 8000, 9000);
    flow.config_resolved(true, String::new());
    flow.spawned(true, String::new());

    let config = HealthCheckConfig::default();
    let mut outcomes = vec![ProbeOutcome::Unhealthy; 30];
    outcomes[2] = ProbeOutcome::Healthy;
    let report = run_probe_schedule(&config, &outcomes);
    assert!(report.ready);
    assert_eq!(report.sleeps, 2);

    let kill_child = flow.probe_finished(report.ready, report.attempts, config.timeout_secs);
    assert!(!kill_child);
    let backend = flow.finish().unwrap();
    assert_eq!(backend.port(), 8050);
    assert_eq!(backend.base_url(), "http://localhost:8050");
}

// The spawned process never opens its health endpoint: after 30 attempts the
// launch fails with a readiness timeout and the flow demands the child be
// killed, so it is no longer running afterward.
#[test]
fn launch_kills_the_child_on_readiness_timeout() {
    let mut flow = LaunchFlow::new();
    flow.port_allocated(Some(8000), 8000, 9000);
    flow.config_resolved(true, String::new());
    flow.spawned(true, String::new());

    let config = HealthCheckConfig::default();
    let outcomes = vec![ProbeOutcome::Unhealthy; 30];
    let report = run_probe_schedule(&config, &outcomes);
    assert!(!report.ready);
    assert_eq!(report.attempts, 30);

    let kill_child = flow.probe_finished(report.ready, report.attempts, config.timeout_secs);
    assert!(kill_child);
    let error = flow.finish().unwrap_err();
    assert_eq!(
        error,
        LaunchError::ReadinessTimeout {
            attempts: 30,
            seconds: 30
        }
    );
    assert_eq!(
        error.message(),
        "Python backend failed to become ready after 30 attempts (30 seconds)"
    );
}

#[test]
fn launch_fails_without_a_port() {
    let mut flow = LaunchFlow::new();
    flow.port_allocated(None, 8000, 9000);
    let error = flow.finish().unwrap_err();
    assert_eq!(
        error,
        LaunchError::PortExhausted {
            start: 8000,
            end: 9000
        }
    );
    assert_eq!(
        error.message(),
        "No available ports found in range 8000-9000"
    );
}

#[test]
fn launch_fails_on_missing_configuration() {
    let mut flow = LaunchFlow::new();
    flow.port_allocated(Some(8000), 8000, 9000);
    flow.config_resolved(
        false,
        "Python interpreter not found at: /opt/app/venv/bin/python3".to_string(),
    );
    let error = flow.finish().unwrap_err();
    assert_eq!(
        error.message(),
        "Configuration error: Python interpreter not found at: /opt/app/venv/bin/python3"
    );
}

#[test]
fn launch_fails_on_spawn_failure() {
    let mut flow = LaunchFlow::new();
    flow.port_allocated(Some(8000), 8000, 9000);
    flow.config_resolved(true, String::new());
    flow.spawned(false, "permission denied".to_string());
    let error = flow.finish().unwrap_err();
    assert_eq!(
        error.message(),
        "Failed to spawn Python backend process: permission denied"
    );
}

#[test]
fn shutdown_failure_message() {
    let error = LaunchError::ShutdownFailure {
        detail: "no such process".to_string(),
    };
    assert_eq!(
        error.message(),
        "Failed to shut down Python backend: no such process"
    );
}

// A child that exits on its own is detected by is_running, which takes the
// handle by shared borrow and mutates nothing.
#[test]
fn self_exited_child_is_not_running() {
    let backend = PythonBackend::new(8000);
    assert!(backend.is_running(PollOutcome::StillRunning));
    assert!(!backend.is_running(PollOutcome::Exited));
    assert!(!backend.is_running(PollOutcome::PollFailed));
    // The handle is unchanged: the same checks answer the same way again.
    assert!(backend.is_running(PollOutcome::StillRunning));
}

// Shutdown called twice in a row: only the first call receives the
// termination duty, the second is a successful no-op.
#[test]
fn second_shutdown_is_a_no_op() {
    let mut backend = PythonBackend::new(8000);
    let first = backend.shutdown();
    assert!(first.is_some());
    let second = backend.shutdown();
    assert!(second.is_none());
    assert!(!backend.is_running(PollOutcome::StillRunning));
}

// The shared slot hands the handle to exactly one of two takers.
#[test]
fn slot_hands_the_handle_to_one_taker() {
    let mut slot = BackendSlot::new();
    assert!(!slot.is_occupied());
    assert!(slot.try_occupy(PythonBackend::new(8050)));
    assert!(slot.is_occupied());
    assert_eq!(slot.peek_port(), Some(8050));

    let first = slot.take();
    assert!(first.is_some());
    let second = slot.take();
    assert!(second.is_none());
    assert!(!slot.is_occupied());
    assert_eq!(slot.peek_port(), None);
}

#[test]
fn occupied_slot_rejects_a_second_backend() {
    let mut slot = BackendSlot::new();
    assert!(slot.try_occupy(PythonBackend::new(8000)));
    assert!(!slot.try_occupy(PythonBackend::new(8001)));
    assert_eq!(slot.peek_port(), Some(8000));
}

#[test]
fn grace_wait_machine_steps() {
    let mut wait = GraceWait::new();
    assert_eq!(
        wait.record_poll(PollOutcome::StillRunning),
        ShutdownStep::SleepAndPoll(100)
    );
    assert_eq!(
        wait.record_poll(PollOutcome::Exited),
        ShutdownStep::GracefulDone
    );

    let mut failing = GraceWait::new();
    assert_eq!(
        failing.record_poll(PollOutcome::PollFailed),
        ShutdownStep::ForceKill
    );
}

// The child exits two seconds into the five-second grace window: shutdown is
// graceful and the forced kill is never issued.
#[test]
fn exit_within_grace_window_is_graceful() {
    let mut polls = vec![PollOutcome::StillRunning; 50];
    polls[19] = PollOutcome::Exited;
    let report = run_grace_wait(&polls);
    assert!(report.graceful);
    assert!(!report.forced);
    assert_eq!(report.polls, 20);
}

// The child ignores the stop request for the whole grace window: the forced
// kill is issued after the full poll budget.
#[test]
fn ignored_grace_window_forces_the_kill() {
    let polls = vec![PollOutcome::StillRunning; 50];
    let report = run_grace_wait(&polls);
    assert!(!report.graceful);
    assert!(report.forced);
    assert_eq!(report.polls, 50);
}

#[test]
fn unreadable_status_forces_the_kill() {
    let mut polls = vec![PollOutcome::StillRunning; 50];
    polls[4] = PollOutcome::PollFailed;
    let report = run_grace_wait(&polls);
    assert!(!report.graceful);
    assert!(report.forced);
    assert_eq!(report.polls, 5);
}
