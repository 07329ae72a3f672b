use bb_control::supervisor::{
    check_service_status, health_poll_step, reconcile_action, run_health_poll, run_start,
    start_preflight,
    start_result_after_poll, start_result_already_running, start_result_missing_executable,
    start_result_spawn_failed, service_state, status_no_pid_file, status_process_gone, status_with_probe,
    stop_force_needed, stop_preflight, stop_succeeded, PollStep, ReconcileAction,
    ServiceObservation, ServiceState, StartStep, StopStep, HEALTH_POLL_ATTEMPTS,
    HEALTH_POLL_INTERVAL_MS,
};

#[test]
fn no_pid_file_short_circuits_to_all_false() {
    let s = status_no_pid_file();
    assert_eq!(s.pid_exists, false);
    assert_eq!(s.process_responds, false);
    assert_eq!(s.service_responds, false);
    assert!(s.pid.is_none());
    assert!(s.error.is_none());
}

#[test]
fn observation_no_pid_file_matches_constructor() {
    let s = check_service_status(ServiceObservation::NoPidFile);
    assert_eq!(s.pid_exists, false);
    assert_eq!(s.service_responds, false);
    assert!(s.pid.is_none());
}

#[test]
fn terminated_process_reports_pid_but_not_exists() {
    let s = status_process_gone(4242);
    assert_eq!(s.pid_exists, false);
    assert_eq!(s.process_responds, false);
    assert_eq!(s.service_responds, false);
    assert_eq!(s.pid, Some(4242));
}

#[test]
fn probe_ok_sets_both_responds_flags() {
    let s = status_with_probe(7, Ok(true));
    assert!(s.pid_exists);
    assert!(s.process_responds);
    assert!(s.service_responds);
    assert_eq!(s.pid, Some(7));
    assert!(s.error.is_none());

    let s = status_with_probe(7, Ok(false));
    assert!(s.pid_exists);
    assert!(!s.process_responds);
    assert!(!s.service_responds);
}

#[test]
fn probe_error_is_recorded() {
    let s = status_with_probe(7, Err(String::from("config unreadable")));
    assert!(s.pid_exists);
    assert!(!s.service_responds);
    assert_eq!(s.error.as_deref(), Some("config unreadable"));
}

#[test]
fn reconcile_removes_stale_pid_file() {
    let s = status_process_gone(99);
    assert_eq!(reconcile_action(&s, true), ReconcileAction::RemovePidFile);
}

#[test]
fn reconcile_does_not_remove_when_no_file() {
    let s = status_process_gone(99);
    assert_ne!(reconcile_action(&s, false), ReconcileAction::RemovePidFile);
}

#[test]
fn reconcile_warns_about_unresponsive_process() {
    let s = status_with_probe(99, Ok(false));
    assert_eq!(reconcile_action(&s, true), ReconcileAction::WarnUnresponsive);
}

#[test]
fn reconcile_recovers_pid_file_when_missing() {
    let s = status_with_probe(321, Ok(true));
    assert_eq!(reconcile_action(&s, false), ReconcileAction::RecoverPidFile(321));
}

#[test]
fn reconcile_leaves_healthy_state_alone() {
    let s = status_with_probe(321, Ok(true));
    assert_eq!(reconcile_action(&s, true), ReconcileAction::NoAction);
}

#[test]
fn start_is_idempotent_when_service_responds() {
    let s = status_with_probe(55, Ok(true));
    let step = start_preflight(Ok(String::from("/usr/local/bin/bb-api")), &s);
    match step {
        StartStep::ReportAlreadyRunning(pid) => assert_eq!(pid, Some(55)),
        _ => panic!("a responding service must not be spawned again"),
    }
    let r = start_result_already_running(Some(55));
    assert!(r.success);
    assert_eq!(r.pid, Some(55));
    assert!(r.error.is_none());
    assert!(!r.requires_settings);
}

#[test]
fn start_asks_for_settings_when_executable_missing() {
    let s = status_no_pid_file();
    let step = start_preflight(Err(String::from("not found")), &s);
    match step {
        StartStep::ReportMissingExecutable(e) => assert_eq!(e, "not found"),
        _ => panic!("a missing executable must end the start"),
    }
    let r = start_result_missing_executable(String::from("not found"));
    assert!(!r.success);
    assert!(r.requires_settings);
    assert_eq!(r.error.as_deref(), Some("not found"));
}

#[test]
fn start_spawns_when_not_responding() {
    let s = status_process_gone(1);
    let step = start_preflight(Ok(String::from("/x/bb-api")), &s);
    match step {
        StartStep::SpawnProcess(p) => assert_eq!(p, "/x/bb-api"),
        _ => panic!("a dead service must be spawned"),
    }
}

#[test]
fn spawn_failure_is_reported_without_pid() {
    let r = start_result_spawn_failed(String::from("spawn failed"));
    assert!(!r.success);
    assert!(r.pid.is_none());
    assert!(!r.requires_settings);
}

#[test]
fn health_poll_constants_match_the_fixed_schedule() {
    assert_eq!(HEALTH_POLL_ATTEMPTS, 10);
    assert_eq!(HEALTH_POLL_INTERVAL_MS, 500);
}

#[test]
fn health_poll_step_schedule() {
    assert_eq!(health_poll_step(1, true), PollStep::PollSucceeded);
    assert_eq!(health_poll_step(5, false), PollStep::RetryAfterDelay(500));
    assert_eq!(health_poll_step(9, false), PollStep::RetryAfterDelay(500));
    assert_eq!(health_poll_step(10, false), PollStep::PollFailed);
}

#[test]
fn health_poll_makes_exactly_ten_attempts_before_failing() {
    let probes = vec![false; 10];
    let (attempts, healthy) = run_health_poll(&probes);
    assert_eq!(attempts, 10);
    assert!(!healthy);
}

#[test]
fn health_poll_stops_at_first_success() {
    let probes = vec![false, false, true, false, false, false, false, false, false, false];
    let (attempts, healthy) = run_health_poll(&probes);
    assert_eq!(attempts, 3);
    assert!(healthy);
}

#[test]
fn poll_result_carries_pid_even_on_failure() {
    let ok = start_result_after_poll(88, true, String::from("unused"));
    assert!(ok.success);
    assert_eq!(ok.pid, Some(88));
    assert!(ok.error.is_none());

    let bad = start_result_after_poll(88, false, String::from("not responding"));
    assert!(!bad.success);
    assert_eq!(bad.pid, Some(88));
    assert_eq!(bad.error.as_deref(), Some("not responding"));
}

#[test]
fn stop_preflight_cases() {
    let gone = status_no_pid_file();
    assert!(matches!(stop_preflight(&gone), StopStep::AlreadyStopped));

    let alive = status_with_probe(12, Ok(true));
    match stop_preflight(&alive) {
        StopStep::TerminatePid(pid) => assert_eq!(pid, 12),
        _ => panic!("a live service must be signalled"),
    }
}

#[test]
fn stop_escalates_unless_graceful_worked() {
    assert!(!stop_force_needed(true, true));
    assert!(stop_force_needed(true, false));
    assert!(stop_force_needed(false, true));
    assert!(stop_force_needed(false, false));
}

#[test]
fn stop_succeeds_only_with_no_survivors() {
    assert!(stop_succeeded(&vec![]));
    assert!(!stop_succeeded(&vec![17]));
}

#[test]
fn service_states_follow_the_three_level_check() {
    assert_eq!(service_state(&status_no_pid_file()), ServiceState::NoPidFile);
    assert_eq!(service_state(&status_process_gone(3)), ServiceState::ProcessGone);
    assert_eq!(service_state(&status_with_probe(3, Ok(false))), ServiceState::Unresponsive);
    assert_eq!(service_state(&status_with_probe(3, Ok(true))), ServiceState::Responding);
}

#[test]
fn full_start_run_spawns_at_most_once() {
    // First start: nothing running, the spawn happens and the service
    // becomes healthy on the third probe.
    let fresh = status_no_pid_file();
    let probes = vec![false, false, true, false, false, false, false, false, false, false];
    let first = run_start(
        Ok(String::from("/usr/local/bin/bb-api")),
        &fresh,
        Some(&String::from("/home/u/.bb/logs/api.log")),
        Ok(510),
        &probes,
    );
    assert!(first.success);
    assert_eq!(first.pid, Some(510));

    // Second start without an intervening stop: the service responds,
    // so the outcome ignores the spawn argument entirely and reports
    // the existing PID.
    let responding = status_with_probe(510, Ok(true));
    let second = run_start(
        Ok(String::from("/usr/local/bin/bb-api")),
        &responding,
        Some(&String::from("/home/u/.bb/logs/api.log")),
        Err(String::from("would be a second spawn")),
        &probes,
    );
    assert!(second.success);
    assert_eq!(second.pid, Some(510));
    assert!(second.error.is_none());
}

#[test]
fn full_start_run_fails_after_exhausted_probes() {
    let fresh = status_no_pid_file();
    let never = vec![false; 10];
    let r = run_start(
        Ok(String::from("/usr/local/bin/bb-api")),
        &fresh,
        Some(&String::from("/home/u/.bb/logs/api.log")),
        Ok(511),
        &never,
    );
    assert!(!r.success);
    assert_eq!(r.pid, Some(511));
    assert_eq!(
        r.error.as_deref(),
        Some("Process started but not responding after multiple attempts")
    );
}

#[test]
fn full_start_run_reports_spawn_and_path_failures() {
    let fresh = status_no_pid_file();
    let probes = vec![false; 10];
    let no_log = run_start(
        Ok(String::from("/x/bb-api")),
        &fresh,
        None,
        Ok(1),
        &probes,
    );
    assert!(!no_log.success);
    assert_eq!(no_log.error.as_deref(), Some("Failed to determine log path"));

    let spawn_err = run_start(
        Ok(String::from("/x/bb-api")),
        &fresh,
        Some(&String::from("/tmp/l.log")),
        Err(String::from("permission denied")),
        &probes,
    );
    assert!(!spawn_err.success);
    assert!(spawn_err.pid.is_none());
    assert_eq!(spawn_err.error.as_deref(), Some("permission denied"));
}
