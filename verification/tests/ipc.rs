use userspace::abi;
use userspace::ipc::{Deadline, ObjectKind, Rights, Signals};

#[test]
fn rights_reject_unknown_bits() {
    assert!(Rights::from_bits(abi::ENDPOINT_RIGHTS).is_some());
    assert!(Rights::from_bits(1 << 63).is_none());
}

#[test]
fn rights_preserve_restrictions() {
    let rights = Rights::send() | Rights::transfer();
    assert!(rights.contains(Rights::send()));
    assert!(!rights.contains(Rights::receive()));
}

#[test]
fn object_signal_masks_reject_unknown_bits() {
    let state = Signals::readable() | Signals::writable();

    assert!(state.contains(Signals::readable()));
    assert!(!state.contains(Signals::peer_closed()));
    assert_eq!(Signals::from_bits(state.bits()), Some(state));
    assert_eq!(Signals::from_bits(1 << 63), None);
}

#[test]
fn object_wait_deadlines_preserve_absolute_monotonic_values() {
    assert_eq!(Deadline::immediate().as_monotonic_ns(), 0);
    assert_eq!(Deadline::infinite().as_monotonic_ns(), u64::MAX);
    assert_eq!(
        Deadline::from_monotonic_ns(123_456).as_monotonic_ns(),
        123_456
    );
}

#[test]
fn object_kinds_decode() {
    assert_eq!(
        ObjectKind::from_raw(abi::KIND_ENDPOINT),
        Some(ObjectKind::Endpoint)
    );
    assert_eq!(
        ObjectKind::from_raw(abi::KIND_KERNEL_EARLY_LOG_READER),
        Some(ObjectKind::KernelEarlyLogReader)
    );
    assert_eq!(
        ObjectKind::from_raw(abi::KIND_JOB),
        Some(ObjectKind::Job)
    );
    assert_eq!(ObjectKind::from_raw(99), None);
}

#[test]
fn job_exit_layout_and_syscall_numbers_are_stable() {
    assert_eq!(core::mem::size_of::<userspace::ipc::JobExit>(), 16);
    assert_eq!(core::mem::align_of::<userspace::ipc::JobExit>(), 8);
    assert_eq!(abi::SYSCALL_JOB_CREATE, 60);
    assert_eq!(abi::SYSCALL_JOB_ASSIGN, 61);
    assert_eq!(abi::SYSCALL_JOB_TRY_WAIT, 62);
    assert_eq!(abi::SYSCALL_JOB_TERMINATE, 63);
    assert_eq!(abi::SYSCALL_JOB_CREATE_CHILD, 64);
    assert_eq!(abi::SYSCALL_JOB_SET_PROCESS_LIMIT, 65);
    assert_eq!(abi::SYSCALL_JOB_RETIRE, 66);
    assert_eq!(abi::SYSCALL_JOB_GET_PROCESS_LIMIT, 67);
    assert_eq!(abi::SYSCALL_CAPABILITY_REPLACE, 68);
    assert_eq!(abi::SYSCALL_ENDPOINT_SEND_MOVE, 69);
    assert_eq!(abi::SYSCALL_CAPABILITY_SIGNAL_STATE, 70);
    assert_eq!(abi::SYSCALL_MONOTONIC_TIME, 71);
    assert_eq!(abi::SYSCALL_OBJECT_WAIT_ONE, 72);
    assert_eq!(
        userspace::syscall::ChildStatus::from_raw(
            abi::CHILD_STATUS_SIGNAL_BASE + abi::SIGNAL_KILL,
        )
        .signal(),
        Some(abi::SIGNAL_KILL)
    );
}

#[test]
fn protection_bootstrap_syscall_does_not_overlap_endpoint_wait() {
    assert_ne!(
        abi::SYSCALL_GRANT_CHILD,
        abi::SYSCALL_ENDPOINT_WAIT
    );
    assert_ne!(
        abi::SYSCALL_OPEN_KERNEL_EARLY_LOG_READER,
        abi::SYSCALL_KERNEL_EARLY_LOG_READ
    );
    assert_ne!(
        abi::SYSCALL_OPEN_KERNEL_EARLY_LOG_READER,
        abi::SYSCALL_GRANT_CHILD
    );
}
