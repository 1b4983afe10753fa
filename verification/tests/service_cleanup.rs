use userspace::service_cleanup::{
    Action, Diagnostic, JobWaitResult, LeaderResult, Observation, Operation, Phase, Service,
    classify_group_signal, classify_job_terminate, classify_job_wait, classify_leader_wait,
    classify_unit,
};

const TRY_AGAIN: i32 = -11;
const INTERRUPTED: i32 = -4;
const NO_CHILD: i32 = -10;

#[test]
fn group_signal_distinguishes_empty_progress_zero_and_errors() {
    assert_eq!(classify_group_signal(Ok(3), NO_CHILD), Action::Progress);
    assert_eq!(
        classify_group_signal(Err(NO_CHILD), NO_CHILD),
        Action::Complete
    );
    assert_eq!(
        classify_group_signal(Ok(0), NO_CHILD),
        Action::Unexpected(Observation::UnexpectedSuccess {
            value: 0,
            auxiliary: 0,
        })
    );
    assert_eq!(
        classify_group_signal(Err(-5), NO_CHILD),
        Action::Unexpected(Observation::Error { code: -5 })
    );
}

#[test]
fn job_terminate_accepts_zero_but_rejects_errors() {
    assert_eq!(classify_job_terminate(Ok(0)), Action::Progress);
    assert_eq!(classify_job_terminate(Ok(4)), Action::Progress);
    assert_eq!(
        classify_job_terminate(Err(-9)),
        Action::Unexpected(Observation::Error { code: -9 })
    );
}

#[test]
fn job_wait_distinguishes_drain_and_empty_inspection() {
    let exit = JobWaitResult::Exit {
        process_id: 42,
        status: 137,
    };
    assert_eq!(
        classify_job_wait(exit, TRY_AGAIN, NO_CHILD, false),
        Action::Progress
    );
    assert_eq!(
        classify_job_wait(exit, TRY_AGAIN, NO_CHILD, true),
        Action::Unexpected(Observation::UnexpectedSuccess {
            value: 42,
            auxiliary: 137,
        })
    );
    assert_eq!(
        classify_job_wait(JobWaitResult::Error(TRY_AGAIN), TRY_AGAIN, NO_CHILD, false),
        Action::Pending
    );
    assert_eq!(
        classify_job_wait(JobWaitResult::Error(TRY_AGAIN), TRY_AGAIN, NO_CHILD, true),
        Action::Unexpected(Observation::Error { code: TRY_AGAIN })
    );
    assert_eq!(
        classify_job_wait(JobWaitResult::Error(NO_CHILD), TRY_AGAIN, NO_CHILD, false),
        Action::Complete
    );
}

#[test]
fn leader_wait_preserves_retry_pending_and_completion_semantics() {
    assert_eq!(
        classify_leader_wait(LeaderResult::Terminal, TRY_AGAIN, INTERRUPTED, NO_CHILD),
        Action::Complete
    );
    assert_eq!(
        classify_leader_wait(LeaderResult::Transitional, TRY_AGAIN, INTERRUPTED, NO_CHILD,),
        Action::Pending
    );
    assert_eq!(
        classify_leader_wait(
            LeaderResult::Error(INTERRUPTED),
            TRY_AGAIN,
            INTERRUPTED,
            NO_CHILD,
        ),
        Action::Retry
    );
    assert_eq!(
        classify_leader_wait(
            LeaderResult::Error(TRY_AGAIN),
            TRY_AGAIN,
            INTERRUPTED,
            NO_CHILD,
        ),
        Action::Pending
    );
    assert_eq!(
        classify_leader_wait(
            LeaderResult::Error(NO_CHILD),
            TRY_AGAIN,
            INTERRUPTED,
            NO_CHILD,
        ),
        Action::Complete
    );
}

#[test]
fn unit_results_preserve_exact_error_codes() {
    assert_eq!(classify_unit(Ok(())), Action::Complete);
    assert_eq!(
        classify_unit(Err(-9)),
        Action::Unexpected(Observation::Error { code: -9 })
    );
}

#[test]
fn diagnostic_encoding_is_canonical_and_handles_integer_boundaries() {
    let diagnostic = Diagnostic {
        service: Service::Logging,
        phase: Phase::JobDrain,
        operation: Operation::JobTryWait,
        observation: Observation::UnexpectedSuccess {
            value: u64::MAX,
            auxiliary: 0,
        },
    };
    let mut output = [0_u8; 192];
    let length = diagnostic.encode(&mut output).expect("diagnostic fits");
    assert_eq!(
        &output[..length],
        b"init: cleanup service=logging phase=job-drain operation=job-try-wait result=unexpected-success value=18446744073709551615 auxiliary=0\n"
    );

    let error = Diagnostic {
        service: Service::Definition,
        phase: Phase::ResourceRelease,
        operation: Operation::CapabilityClose,
        observation: Observation::Error { code: i32::MIN },
    };
    let length = error.encode(&mut output).expect("error diagnostic fits");
    assert_eq!(
        &output[..length],
        b"init: cleanup service=definition phase=resource-release operation=capability-close result=error code=-2147483648\n"
    );

    let tmpfs = Diagnostic {
        service: Service::Tmpfs,
        phase: Phase::JobDrain,
        operation: Operation::JobTryWait,
        observation: Observation::MissingHandle,
    };
    let length = tmpfs.encode(&mut output).expect("diagnostic fits");
    assert_eq!(
        &output[..length],
        b"init: cleanup service=tmpfs phase=job-drain operation=job-try-wait result=missing-handle\n"
    );

    let vfs = Diagnostic {
        service: Service::Vfs,
        phase: Phase::JobDrain,
        operation: Operation::JobTryWait,
        observation: Observation::MissingHandle,
    };
    let length = vfs.encode(&mut output).expect("diagnostic fits");
    assert_eq!(
        &output[..length],
        b"init: cleanup service=vfs phase=job-drain operation=job-try-wait result=missing-handle\n"
    );
}

#[test]
fn diagnostic_encoding_reports_small_buffer_exhaustion() {
    let diagnostic = Diagnostic {
        service: Service::Logging,
        phase: Phase::JobDrain,
        operation: Operation::YieldNow,
        observation: Observation::BudgetExhausted { attempts: 64 },
    };
    let mut output = [0_u8; 16];
    assert_eq!(diagnostic.encode(&mut output), None);
}
