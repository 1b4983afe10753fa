//! Numbers shared between the kernel and userspace.

use vstd::prelude::*;

verus! {

/// The process id of the first userspace process.
pub const INIT_PROCESS_ID: u64 = 1;

/// The handle value that names no capability.
pub const INVALID_HANDLE: u64 = 0;

/// Largest payload of one IPC message.
pub const MAX_IPC_MESSAGE_BYTES: usize = 256;

/// Largest number of capabilities attached to one IPC message.
pub const MAX_IPC_MESSAGE_HANDLES: usize = 4;

/// Size of a process capability table.
pub const MAX_CAPABILITIES_PER_PROCESS: usize = 64;

/// Largest number of process arguments.
pub const MAX_ARGUMENTS: usize = 16;

/// Largest total size of the process arguments, each counted with one terminator.
pub const MAX_ARGUMENT_BYTES: usize = 4096;

/// Largest path.
pub const MAX_PATH_BYTES: usize = 255;

/// The kind of an ordinary file.
pub const FILE_KIND_FILE: u64 = 1;

/// Largest number of environment variables.
pub const MAX_ENVIRONMENT_VARIABLES: usize = 32;

/// Largest name of an environment variable.
pub const MAX_ENVIRONMENT_NAME_BYTES: usize = 64;

/// Largest total size of the environment, each entry counted with two separators.
pub const MAX_ENVIRONMENT_BYTES: usize = 4096;

/// Error numbers the kernel reports, as positive codes.
pub const ERRNO_PERMISSION: i32 = 1;
pub const ERRNO_NO_ENTRY: i32 = 2;
pub const ERRNO_NO_PROCESS: i32 = 3;
pub const ERRNO_INTERRUPTED: i32 = 4;
pub const ERRNO_IO: i32 = 5;
pub const ERRNO_BAD_FILE_DESCRIPTOR: i32 = 9;
pub const ERRNO_NO_CHILD: i32 = 10;
pub const ERRNO_TRY_AGAIN: i32 = 11;
pub const ERRNO_NO_MEMORY: i32 = 12;
pub const ERRNO_BAD_ADDRESS: i32 = 14;
pub const ERRNO_BUSY: i32 = 16;
pub const ERRNO_NOT_DIRECTORY: i32 = 20;
pub const ERRNO_INVALID_ARGUMENT: i32 = 22;
pub const ERRNO_TOO_MANY_OPEN_FILES: i32 = 24;
pub const ERRNO_NO_SPACE: i32 = 28;
pub const ERRNO_BROKEN_PIPE: i32 = 32;
pub const ERRNO_RANGE: i32 = 34;
pub const ERRNO_NAME_TOO_LONG: i32 = 36;
pub const ERRNO_NOT_IMPLEMENTED: i32 = 38;

pub const ERRNO_TIMED_OUT: i32 = 110;

/// Capability rights, one bit each.
pub const RIGHT_DUPLICATE: u64 = 0x1;
pub const RIGHT_TRANSFER: u64 = 0x2;
pub const RIGHT_SEND: u64 = 0x4;
pub const RIGHT_RECEIVE: u64 = 0x8;
pub const RIGHT_SIGNAL: u64 = 0x10;
pub const RIGHT_WAIT: u64 = 0x20;
pub const RIGHT_READ: u64 = 0x40;
pub const RIGHT_WRITE: u64 = 0x80;
pub const RIGHT_MANAGE: u64 = 0x100;

/// Every right an object of the kind can have.
pub const ENDPOINT_RIGHTS: u64 = 0xf;
pub const NOTIFICATION_RIGHTS: u64 = 0x33;
pub const SHARED_MEMORY_RIGHTS: u64 = 0xc3;
pub const KERNEL_EARLY_LOG_READER_RIGHTS: u64 = 0x43;
pub const JOB_RIGHTS: u64 = 0x133;
pub const WAIT_SET_RIGHTS: u64 = 0x123;
pub const EVENT_PORT_RIGHTS: u64 = 0x123;
pub const TIMER_RIGHTS: u64 = 0x33;
pub const EVENT_RIGHTS: u64 = 0x33;

/// Every right that an object of some kind can have.
pub const ALL_RIGHTS: u64 = 0x1ff;

/// Object kinds.
pub const KIND_ENDPOINT: u64 = 1;
pub const KIND_NOTIFICATION: u64 = 2;
pub const KIND_SHARED_MEMORY: u64 = 3;
pub const KIND_KERNEL_EARLY_LOG_READER: u64 = 4;
pub const KIND_JOB: u64 = 5;
pub const KIND_WAIT_SET: u64 = 6;
pub const KIND_EVENT_PORT: u64 = 7;
pub const KIND_TIMER: u64 = 8;
pub const KIND_EVENT: u64 = 9;

/// Object signals, one bit each.
pub const SIGNAL_READABLE: u64 = 0x1;
pub const SIGNAL_WRITABLE: u64 = 0x2;
pub const SIGNAL_PEER_CLOSED: u64 = 0x4;
pub const SIGNAL_SIGNALED: u64 = 0x8;
pub const SIGNAL_TERMINATED: u64 = 0x10;
pub const SIGNAL_TIMER_FIRED: u64 = 0x20;
pub const ALL_SIGNALS: u64 = 0x3f;

/// Absolute deadlines with a special meaning.
pub const DEADLINE_IMMEDIATE: u64 = 0;
pub const DEADLINE_INFINITE: u64 = 0xffff_ffff_ffff_ffff;

/// Wait statuses: an exit code, a terminating signal, a stopping signal, or continued.
pub const CHILD_STATUS_SIGNAL_BASE: u64 = 128;
pub const CHILD_STATUS_STOPPED_BASE: u64 = 256;
pub const CHILD_STATUS_CONTINUED: u64 = 512;

/// Process signals.
pub const SIGNAL_INTERRUPT: u64 = 2;
pub const SIGNAL_KILL: u64 = 9;
pub const SIGNAL_TERMINATE: u64 = 15;
pub const SIGNAL_CONTINUE: u64 = 18;
pub const SIGNAL_STOP: u64 = 19;
pub const SIGNAL_TERMINAL_STOP: u64 = 20;

/// System call numbers that callers rely on.
pub const SYSCALL_GRANT_CHILD: u64 = 41;
pub const SYSCALL_ENDPOINT_WAIT: u64 = 42;
pub const SYSCALL_OPEN_KERNEL_EARLY_LOG_READER: u64 = 58;
pub const SYSCALL_KERNEL_EARLY_LOG_READ: u64 = 59;
pub const SYSCALL_JOB_CREATE: u64 = 60;
pub const SYSCALL_JOB_ASSIGN: u64 = 61;
pub const SYSCALL_JOB_TRY_WAIT: u64 = 62;
pub const SYSCALL_JOB_TERMINATE: u64 = 63;
pub const SYSCALL_JOB_CREATE_CHILD: u64 = 64;
pub const SYSCALL_JOB_SET_PROCESS_LIMIT: u64 = 65;
pub const SYSCALL_JOB_RETIRE: u64 = 66;
pub const SYSCALL_JOB_GET_PROCESS_LIMIT: u64 = 67;
pub const SYSCALL_CAPABILITY_REPLACE: u64 = 68;
pub const SYSCALL_ENDPOINT_SEND_MOVE: u64 = 69;
pub const SYSCALL_CAPABILITY_SIGNAL_STATE: u64 = 70;
pub const SYSCALL_MONOTONIC_TIME: u64 = 71;
pub const SYSCALL_OBJECT_WAIT_ONE: u64 = 72;

} // verus!
