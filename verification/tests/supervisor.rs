use userspace::abi::{
    CHILD_STATUS_CONTINUED, CHILD_STATUS_SIGNAL_BASE, CHILD_STATUS_STOPPED_BASE, SIGNAL_INTERRUPT,
    SIGNAL_STOP, SIGNAL_TERMINAL_STOP, SIGNAL_TERMINATE,
};
use userspace::control_protocol::DesiredState;
use userspace::supervisor::{
    shell_status_disposition, ReadyDisposition, RestartRequestError, ServiceRuntime, ServiceSpec,
    ServiceState, ServiceStatusDisposition, ShellStatusDisposition, StopCancelError,
};

const TEST_SERVICE: ServiceSpec = ServiceSpec {
    name: b"test",
    command: b"/test-service",
    ready_message: b"ready",
    bootstrap_slot: 1,
    restart_limit: 2,
    restart_backoff_yields: 8,
    fatal_startup_exit_status: Some(21),
};
const OTHER_SERVICE: ServiceSpec = ServiceSpec {
    name: b"other",
    command: b"/other-service",
    ..TEST_SERVICE
};

#[test]
fn final_statuses_restart_the_shell() {
    assert_eq!(
        shell_status_disposition(0),
        ShellStatusDisposition::RestartShell
    );
    assert_eq!(
        shell_status_disposition(CHILD_STATUS_SIGNAL_BASE + SIGNAL_INTERRUPT),
        ShellStatusDisposition::RestartShell
    );
}

#[test]
fn stopped_shell_is_returned_to_the_foreground() {
    assert_eq!(
        shell_status_disposition(CHILD_STATUS_STOPPED_BASE + SIGNAL_STOP),
        ShellStatusDisposition::RestoreForeground
    );
    assert_eq!(
        shell_status_disposition(CHILD_STATUS_STOPPED_BASE + SIGNAL_TERMINAL_STOP),
        ShellStatusDisposition::RestoreForeground
    );
}

#[test]
fn continued_status_waits_for_a_final_event() {
    assert_eq!(
        shell_status_disposition(CHILD_STATUS_CONTINUED),
        ShellStatusDisposition::WaitForNextEvent
    );
}

#[test]
fn enabled_service_initially_requires_convergence() {
    let mut service = ServiceRuntime::new(TEST_SERVICE);
    assert_eq!(service.desired_state(), DesiredState::Running);
    assert_eq!(service.state(), ServiceState::Stopped);
    assert!(service.should_start());
    assert_eq!(service.request_start(), Ok(()));
    assert!(service.should_start());

    service.note_spawned(7);
    assert!(!service.should_start());
}

#[test]
fn service_transitions_from_starting_to_running() {
    let mut service = ServiceRuntime::new(TEST_SERVICE);
    service.note_spawned(7);
    assert_eq!(service.process_id(), Some(7));
    assert_eq!(service.state(), ServiceState::Starting);
    assert_eq!(service.note_ready(), ReadyDisposition::Accepted);
    assert_eq!(service.state(), ServiceState::Running);
}

#[test]
fn controlled_restart_is_distinct_from_failure_policy() {
    let mut service = ServiceRuntime::new(TEST_SERVICE);
    service.note_spawned(7);
    service.note_ready();

    assert_eq!(service.request_restart(), Ok(7));
    assert_eq!(service.state(), ServiceState::Restarting);
    assert_eq!(
        service.request_restart(),
        Err(RestartRequestError::AlreadyPending)
    );
    assert_eq!(
        service.observe_status(CHILD_STATUS_SIGNAL_BASE + SIGNAL_TERMINATE),
        ServiceStatusDisposition::Restart { backoff_yields: 0 }
    );
    assert_eq!(service.restart_count(), 0);
    assert_eq!(service.state(), ServiceState::Backoff);
    assert!(service.controlled_restart_pending());

    service.note_spawned(8);
    service.note_ready();
    assert_eq!(service.state(), ServiceState::Running);
    assert_eq!(
        service.request_restart(),
        Err(RestartRequestError::AlreadyPending)
    );
    service.complete_restart();
    assert!(!service.controlled_restart_pending());
    assert_eq!(service.request_restart(), Ok(8));
}

#[test]
fn controlled_stop_converges_without_charging_failure_policy() {
    let mut service = ServiceRuntime::new(TEST_SERVICE);
    service.note_spawned(7);
    service.note_ready();

    let stop = service.request_stop().unwrap();
    assert_eq!(stop.process_group(), Some(7));
    assert_eq!(service.desired_state(), DesiredState::Stopped);
    assert_eq!(service.state(), ServiceState::Stopping);
    assert_eq!(service.request_stop().unwrap().process_group(), None);
    assert_eq!(
        service.observe_status(CHILD_STATUS_SIGNAL_BASE + SIGNAL_TERMINATE),
        ServiceStatusDisposition::Stopped
    );
    assert_eq!(service.state(), ServiceState::Stopped);
    assert_eq!(service.process_id(), None);
    assert_eq!(service.restart_count(), 0);
    assert!(!service.should_start());

    assert_eq!(service.request_start(), Ok(()));
    assert_eq!(service.desired_state(), DesiredState::Running);
    assert!(service.should_start());
    service.note_spawned(8);
    service.note_ready();
    assert_eq!(service.state(), ServiceState::Running);
    assert_eq!(service.restart_count(), 0);
}

#[test]
fn failed_stop_signal_restores_the_exact_previous_state() {
    let mut service = ServiceRuntime::new(TEST_SERVICE);
    service.note_spawned(7);
    service.note_ready();
    let stop = service.request_stop().unwrap();
    assert_eq!(service.cancel_stop(stop), Ok(()));
    assert_eq!(
        service.cancel_stop(stop),
        Err(StopCancelError::StaleTransition)
    );
    assert_eq!(service.desired_state(), DesiredState::Running);
    assert_eq!(service.state(), ServiceState::Running);
    assert_eq!(service.process_id(), Some(7));
}

#[test]
fn stop_rollback_rejects_finalized_superseded_and_foreign_transitions() {
    let mut finalized = ServiceRuntime::new(TEST_SERVICE);
    finalized.note_spawned(7);
    finalized.note_ready();
    let finalized_stop = finalized.request_stop().unwrap();
    assert_eq!(
        finalized.observe_status(CHILD_STATUS_SIGNAL_BASE + SIGNAL_TERMINATE),
        ServiceStatusDisposition::Stopped
    );
    assert_eq!(
        finalized.cancel_stop(finalized_stop),
        Err(StopCancelError::StaleTransition)
    );

    let mut superseded = ServiceRuntime::new(TEST_SERVICE);
    superseded.note_spawned(8);
    superseded.note_ready();
    let superseded_stop = superseded.request_stop().unwrap();
    assert_eq!(superseded.request_start(), Ok(()));
    assert_eq!(
        superseded.cancel_stop(superseded_stop),
        Err(StopCancelError::StaleTransition)
    );

    let mut foreign = ServiceRuntime::new(OTHER_SERVICE);
    foreign.note_spawned(7);
    foreign.note_ready();
    assert_eq!(
        foreign.cancel_stop(finalized_stop),
        Err(StopCancelError::WrongService)
    );
}

#[test]
fn readiness_after_stop_is_stale_and_does_not_republish_the_service() {
    let mut service = ServiceRuntime::new(TEST_SERVICE);
    service.note_spawned(7);
    let stop = service.request_stop().unwrap();
    assert_eq!(stop.process_group(), Some(7));
    assert_eq!(service.note_ready(), ReadyDisposition::Stale);
    assert_eq!(service.state(), ServiceState::Stopping);
}

#[test]
fn stop_overrides_a_controlled_restart_without_a_second_signal() {
    let mut service = ServiceRuntime::new(TEST_SERVICE);
    service.note_spawned(7);
    service.note_ready();
    assert_eq!(service.request_restart(), Ok(7));

    let stop = service.request_stop().unwrap();
    assert_eq!(stop.process_group(), None);
    assert_eq!(service.desired_state(), DesiredState::Stopped);
    assert_eq!(service.state(), ServiceState::Stopping);
    assert_eq!(
        service.observe_status(CHILD_STATUS_SIGNAL_BASE + SIGNAL_TERMINATE),
        ServiceStatusDisposition::Stopped
    );
    assert!(!service.controlled_restart_pending());
    assert_eq!(service.restart_count(), 0);
}

#[test]
fn start_during_controlled_stop_schedules_one_zero_backoff_replacement() {
    let mut service = ServiceRuntime::new(TEST_SERVICE);
    service.note_spawned(7);
    service.note_ready();
    let stop = service.request_stop().unwrap();
    assert_eq!(stop.process_group(), Some(7));
    assert_eq!(service.request_start(), Ok(()));
    assert_eq!(service.desired_state(), DesiredState::Running);
    assert_eq!(service.state(), ServiceState::Restarting);
    assert_eq!(
        service.observe_status(CHILD_STATUS_SIGNAL_BASE + SIGNAL_TERMINATE),
        ServiceStatusDisposition::Restart { backoff_yields: 0 }
    );
    assert_eq!(service.restart_count(), 0);
}

#[test]
fn stop_cancels_failure_backoff_and_explicit_start_rearms_the_budget() {
    let mut service = ServiceRuntime::new(TEST_SERVICE);
    service.note_spawned(7);
    assert_eq!(
        service.observe_status(75),
        ServiceStatusDisposition::Restart { backoff_yields: 8 }
    );
    assert_eq!(service.restart_count(), 1);
    assert_eq!(service.request_stop().unwrap().process_group(), None);
    assert_eq!(service.state(), ServiceState::Stopped);
    assert_eq!(service.desired_state(), DesiredState::Stopped);
    assert_eq!(service.request_start(), Ok(()));
    assert_eq!(service.restart_count(), 0);
    assert!(service.should_start());
}

#[test]
fn failed_restart_signal_can_restore_running_state() {
    let mut service = ServiceRuntime::new(TEST_SERVICE);
    service.note_spawned(7);
    service.note_ready();
    assert_eq!(service.request_restart(), Ok(7));
    service.cancel_restart();
    assert_eq!(service.state(), ServiceState::Running);
    assert_eq!(service.process_id(), Some(7));
    assert!(!service.controlled_restart_pending());
}

#[test]
fn restart_requires_a_running_service() {
    let mut service = ServiceRuntime::new(TEST_SERVICE);
    assert_eq!(
        service.request_restart(),
        Err(RestartRequestError::InvalidState)
    );
    service.note_spawned(7);
    assert_eq!(
        service.request_restart(),
        Err(RestartRequestError::InvalidState)
    );
}

#[test]
fn fatal_startup_status_is_not_restarted_or_charged_to_the_budget() {
    let mut service = ServiceRuntime::new(TEST_SERVICE);
    service.note_spawned(7);

    assert_eq!(service.observe_status(21), ServiceStatusDisposition::Failed);
    assert_eq!(service.process_id(), None);
    assert_eq!(service.restart_count(), 0);
    assert_eq!(service.state(), ServiceState::Failed);
    assert_eq!(service.desired_state(), DesiredState::Running);
    assert_eq!(service.request_start(), Ok(()));
    assert_eq!(service.state(), ServiceState::Stopped);
    assert_eq!(service.restart_count(), 0);
    assert!(service.should_start());
}

#[test]
fn explicit_start_rearms_an_exhausted_failure_budget() {
    let mut service = ServiceRuntime::new(TEST_SERVICE);
    for process_id in 7..=9 {
        service.note_spawned(process_id);
        let disposition = service.observe_status(1);
        if process_id == 9 {
            assert_eq!(disposition, ServiceStatusDisposition::Failed);
        } else {
            assert_eq!(
                disposition,
                ServiceStatusDisposition::Restart { backoff_yields: 8 }
            );
        }
    }
    assert_eq!(service.state(), ServiceState::Failed);
    assert_eq!(service.restart_count(), 2);
    assert_eq!(service.request_start(), Ok(()));
    assert_eq!(service.state(), ServiceState::Stopped);
    assert_eq!(service.restart_count(), 0);
    assert!(service.should_start());
}

#[test]
fn the_same_status_after_readiness_uses_normal_restart_policy() {
    let mut service = ServiceRuntime::new(TEST_SERVICE);
    service.note_spawned(7);
    service.note_ready();

    assert_eq!(
        service.observe_status(21),
        ServiceStatusDisposition::Restart { backoff_yields: 8 }
    );
    assert_eq!(service.restart_count(), 1);
    assert_eq!(service.state(), ServiceState::Backoff);
}

#[test]
fn final_status_restarts_once_and_replacement_reaches_running() {
    let mut service = ServiceRuntime::new(TEST_SERVICE);
    service.note_spawned(7);
    service.note_ready();

    assert_eq!(
        service.observe_status(CHILD_STATUS_SIGNAL_BASE + SIGNAL_TERMINATE),
        ServiceStatusDisposition::Restart { backoff_yields: 8 }
    );
    assert_eq!(service.process_id(), None);
    assert_eq!(service.restart_count(), 1);
    assert_eq!(service.state(), ServiceState::Backoff);

    service.note_spawned(8);
    service.note_ready();

    assert_eq!(service.process_id(), Some(8));
    assert_eq!(service.restart_count(), 1);
    assert_eq!(service.state(), ServiceState::Running);
}

#[test]
fn service_restart_budget_is_bounded() {
    let mut service = ServiceRuntime::new(TEST_SERVICE);
    service.note_spawned(7);
    assert_eq!(
        service.observe_status(75),
        ServiceStatusDisposition::Restart { backoff_yields: 8 }
    );
    assert_eq!(service.restart_count(), 1);
    service.note_spawned(8);
    assert_eq!(
        service.observe_status(CHILD_STATUS_SIGNAL_BASE + SIGNAL_TERMINATE),
        ServiceStatusDisposition::Restart { backoff_yields: 8 }
    );
    service.note_spawned(9);
    assert_eq!(service.observe_status(1), ServiceStatusDisposition::Failed);
    assert_eq!(service.state(), ServiceState::Failed);
}

#[test]
fn stopped_service_does_not_consume_restart_budget() {
    let mut service = ServiceRuntime::new(TEST_SERVICE);
    service.note_spawned(7);
    assert_eq!(
        service.observe_status(CHILD_STATUS_STOPPED_BASE + SIGNAL_STOP),
        ServiceStatusDisposition::WaitForNextEvent
    );
    assert_eq!(service.restart_count(), 0);
    assert_eq!(service.process_id(), Some(7));
}
