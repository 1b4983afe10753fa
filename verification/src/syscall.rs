//! Process-level system calls.

use crate::abi;
use crate::bytes::to_vec;
use crate::ipc;
use crate::ipc::{decode, Error};
use crate::kernel;
use crate::kernel::{Kernel, Op};
use vstd::prelude::*;

verus! {

pub type ProcessId = u64;

/// The standard output stream.
pub const STDOUT: u64 = 1;

/// The standard error stream.
pub const STDERR: u64 = 2;

/// How a child process changed: an exit code, a signal that ended or stopped it, or continued.
#[derive(Debug, Clone, Copy, PartialEq, Eq, Structural)]
pub struct ChildStatus {
    pub raw: u64,
}

impl ChildStatus {
    pub fn from_raw(raw: u64) -> (status: Self)
        ensures
            status == (ChildStatus { raw }),
    {
        ChildStatus { raw }
    }

    pub fn raw(self) -> (raw: u64)
        ensures
            raw == self.raw,
    {
        self.raw
    }

    #[verifier::allow_in_spec]
    pub fn success(self) -> bool
        returns
            self.raw == 0,
    {
        self.raw == 0
    }

    #[verifier::allow_in_spec]
    pub fn continued(self) -> bool
        returns
            self.raw == abi::CHILD_STATUS_CONTINUED,
    {
        self.raw == abi::CHILD_STATUS_CONTINUED
    }

    /// The signal that ended the child.
    #[verifier::allow_in_spec]
    pub fn signal(self) -> Option<u64>
        returns
            (if abi::CHILD_STATUS_SIGNAL_BASE <= self.raw && self.raw
                < abi::CHILD_STATUS_STOPPED_BASE {
                Some((self.raw - abi::CHILD_STATUS_SIGNAL_BASE) as u64)
            } else {
                None
            }),
    {
        if abi::CHILD_STATUS_SIGNAL_BASE <= self.raw && self.raw < abi::CHILD_STATUS_STOPPED_BASE {
            Some(self.raw - abi::CHILD_STATUS_SIGNAL_BASE)
        } else {
            None
        }
    }

    /// The signal that stopped the child.
    #[verifier::allow_in_spec]
    pub fn stopped_signal(self) -> Option<u64>
        returns
            (if abi::CHILD_STATUS_STOPPED_BASE <= self.raw && self.raw
                < abi::CHILD_STATUS_CONTINUED {
                Some((self.raw - abi::CHILD_STATUS_STOPPED_BASE) as u64)
            } else {
                None
            }),
    {
        if abi::CHILD_STATUS_STOPPED_BASE <= self.raw && self.raw < abi::CHILD_STATUS_CONTINUED {
            Some(self.raw - abi::CHILD_STATUS_STOPPED_BASE)
        } else {
            None
        }
    }
}

/// Giving up the processor once.
pub open spec fn yield_run(k: kernel::Transcript) -> (
    kernel::Transcript,
    Option<Result<(), Error>>,
) {
    ipc::unit_run(k, Op::Yield, seq![])
}

pub fn yield_now(k: &mut Kernel) -> (result: Option<Result<(), Error>>)
    ensures
        (final(k)@, result) == yield_run(old(k)@),
{
    let answer = k.call(Op::Yield)?;
    match decode(answer.result) {
        Ok(_) => Some(Ok(())),
        Err(error) => Some(Err(error)),
    }
}

pub fn getpid(k: &mut Kernel) -> (result: Option<Result<ProcessId, Error>>)
    ensures
        (final(k)@, result) == ipc::value_run(old(k)@, Op::GetProcessId),
{
    let answer = k.call(Op::GetProcessId)?;
    Some(decode(answer.result))
}

/// A call that hands bytes over and whose answer is its result register.
pub open spec fn value_bytes_run(k: kernel::Transcript, op: Op, bytes: Seq<u8>) -> (
    kernel::Transcript,
    Option<Result<u64, Error>>,
) {
    (
        k.ask(op, bytes),
        match k.reply() {
            Some(reply) => Some(ipc::decoded(reply.result)),
            None => None,
        },
    )
}

fn value_bytes_call(k: &mut Kernel, op: Op, bytes: Vec<u8>) -> (result: Option<Result<u64, Error>>)
    ensures
        (final(k)@, result) == value_bytes_run(old(k)@, op, bytes@),
{
    let answer = k.ask(op, bytes)?;
    Some(decode(answer.result))
}

fn unit_call(k: &mut Kernel, op: Op, bytes: Vec<u8>) -> (result: Option<Result<(), Error>>)
    ensures
        (final(k)@, result) == ipc::unit_run(old(k)@, op, bytes@),
{
    let answer = k.ask(op, bytes)?;
    match decode(answer.result) {
        Ok(_) => Some(Ok(())),
        Err(error) => Some(Err(error)),
    }
}

/// Writing every byte to a stream.
pub open spec fn write_all_run(k: kernel::Transcript, stream: u64, bytes: Seq<u8>) -> (
    kernel::Transcript,
    Option<Result<(), Error>>,
) {
    ipc::unit_run(k, Op::Write { stream }, bytes)
}

/// Writes every byte to a stream.
pub fn write_all(k: &mut Kernel, stream: u64, bytes: &[u8]) -> (result: Option<Result<(), Error>>)
    ensures
        (final(k)@, result) == write_all_run(old(k)@, stream, bytes@),
{
    unit_call(k, Op::Write { stream }, to_vec(bytes))
}

/// A call whose answer is how a child process changed.
pub open spec fn child_run(k: kernel::Transcript, op: Op) -> (
    kernel::Transcript,
    Option<Result<ChildStatus, Error>>,
) {
    (
        k.call(op),
        match k.reply() {
            Some(reply) => Some(
                match ipc::decoded(reply.result) {
                    Ok(raw) => Ok(ChildStatus { raw }),
                    Err(error) => Err(error),
                },
            ),
            None => None,
        },
    )
}

fn child_call(k: &mut Kernel, op: Op) -> (result: Option<Result<ChildStatus, Error>>)
    ensures
        (final(k)@, result) == child_run(old(k)@, op),
{
    let answer = k.call(op)?;
    match decode(answer.result) {
        Ok(raw) => Some(Ok(ChildStatus { raw })),
        Err(error) => Some(Err(error)),
    }
}

pub open spec fn try_wait_run(k: kernel::Transcript, process_id: ProcessId) -> (
    kernel::Transcript,
    Option<Result<ChildStatus, Error>>,
) {
    child_run(k, Op::TryWaitChild { process_id })
}

/// How a child changed, if it did.
pub fn try_wait_child(k: &mut Kernel, process_id: ProcessId) -> (result: Option<
    Result<ChildStatus, Error>,
>)
    ensures
        (final(k)@, result) == try_wait_run(old(k)@, process_id),
{
    child_call(k, Op::TryWaitChild { process_id })
}

pub open spec fn wait_run(k: kernel::Transcript, process_id: ProcessId) -> (
    kernel::Transcript,
    Option<Result<ChildStatus, Error>>,
) {
    child_run(k, Op::WaitChild { process_id })
}

/// Waits until a child changes.
pub fn wait_child(k: &mut Kernel, process_id: ProcessId) -> (result: Option<
    Result<ChildStatus, Error>,
>)
    ensures
        (final(k)@, result) == wait_run(old(k)@, process_id),
{
    child_call(k, Op::WaitChild { process_id })
}

pub open spec fn signal_group_run(k: kernel::Transcript, group: ProcessId, signal: u64) -> (
    kernel::Transcript,
    Option<Result<usize, Error>>,
) {
    ipc::count_run(k, Op::SignalProcessGroup { group, signal }, seq![])
}

/// Signals every process of a group and gives their number.
pub fn signal_process_group(k: &mut Kernel, group: ProcessId, signal: u64) -> (result: Option<
    Result<usize, Error>,
>)
    ensures
        (final(k)@, result) == signal_group_run(old(k)@, group, signal),
{
    let answer = k.call(Op::SignalProcessGroup { group, signal })?;
    match decode(answer.result) {
        Ok(count) => Some(Ok(count as usize)),
        Err(error) => Some(Err(error)),
    }
}

/// Gives the terminal to a process group.
pub fn foreground_process_group(k: &mut Kernel, group: ProcessId) -> (result: Option<
    Result<(), Error>,
>)
    ensures
        (final(k)@, result) == ipc::unit_run(old(k)@, Op::ForegroundProcessGroup { group }, seq![]),
{
    unit_call(k, Op::ForegroundProcessGroup { group }, Vec::new())
}

/// Holds a child back until it is released.
#[derive(Debug, Clone, Copy, PartialEq, Eq, Structural)]
pub struct LaunchBarrier {
    pub handle: u64,
}

pub open spec fn barrier_run(k: kernel::Transcript) -> (
    kernel::Transcript,
    Option<Result<LaunchBarrier, Error>>,
) {
    (
        k.call(Op::BarrierCreate),
        match k.reply() {
            Some(reply) => Some(
                match ipc::decoded(reply.result) {
                    Ok(handle) => Ok(LaunchBarrier { handle }),
                    Err(error) => Err(error),
                },
            ),
            None => None,
        },
    )
}

pub open spec fn release_run(k: kernel::Transcript, barrier: LaunchBarrier) -> (
    kernel::Transcript,
    Option<Result<(), Error>>,
) {
    ipc::unit_run(k, Op::BarrierRelease { barrier: barrier.handle }, seq![])
}

impl LaunchBarrier {
    pub fn new(k: &mut Kernel) -> (result: Option<Result<Self, Error>>)
        ensures
            (final(k)@, result) == barrier_run(old(k)@),
    {
        let answer = k.call(Op::BarrierCreate)?;
        match decode(answer.result) {
            Ok(handle) => Some(Ok(LaunchBarrier { handle })),
            Err(error) => Some(Err(error)),
        }
    }

    /// Lets the child go.
    pub fn release(self, k: &mut Kernel) -> (result: Option<Result<(), Error>>)
        ensures
            (final(k)@, result) == release_run(old(k)@, self),
    {
        unit_call(k, Op::BarrierRelease { barrier: self.handle }, Vec::new())
    }
}

/// Starting a command in a process group of its own, behind a barrier.
pub open spec fn spawn_run(
    k: kernel::Transcript,
    command: Seq<u8>,
    foreground: bool,
    barrier: LaunchBarrier,
) -> (kernel::Transcript, Option<Result<ProcessId, Error>>) {
    value_bytes_run(k, Op::Spawn { foreground, barrier: barrier.handle }, command)
}

/// Starts a command in a process group of its own, behind a barrier.
pub fn spawn_command_with_barrier(
    k: &mut Kernel,
    command: &[u8],
    foreground: bool,
    barrier: LaunchBarrier,
) -> (result: Option<Result<ProcessId, Error>>)
    ensures
        (final(k)@, result) == spawn_run(old(k)@, command@, foreground, barrier),
{
    value_bytes_call(k, Op::Spawn { foreground, barrier: barrier.handle }, to_vec(command))
}

/// Opening a file for reading.
pub fn open(k: &mut Kernel, path: &[u8]) -> (result: Option<Result<u64, Error>>)
    ensures
        (final(k)@, result) == value_bytes_run(old(k)@, Op::Open, path@),
{
    value_bytes_call(k, Op::Open, to_vec(path))
}

/// Reading at most `capacity` bytes. An answer that does not hold the bytes that it counts is an
/// error.
pub open spec fn read_run(k: kernel::Transcript, descriptor: u64, capacity: usize) -> (
    kernel::Transcript,
    Option<Result<Seq<u8>, Error>>,
) {
    (
        k.call(Op::Read { descriptor, capacity: capacity as u64 }),
        match k.reply() {
            None => None,
            Some(reply) => Some(
                match ipc::decoded(reply.result) {
                    Err(error) => Err(error),
                    Ok(count) => if count == reply.bytes.len() && count <= capacity {
                        Ok(reply.bytes)
                    } else {
                        Err(Error::io())
                    },
                },
            ),
        },
    )
}

/// What bytes that were read are to the contracts.
pub open spec fn read_view(result: Option<Result<Vec<u8>, Error>>) -> Option<
    Result<Seq<u8>, Error>,
> {
    match result {
        None => None,
        Some(Ok(bytes)) => Some(Ok(bytes@)),
        Some(Err(error)) => Some(Err(error)),
    }
}

/// Reads at most `capacity` bytes.
pub fn read(k: &mut Kernel, descriptor: u64, capacity: usize) -> (result: Option<
    Result<Vec<u8>, Error>,
>)
    ensures
        (final(k)@, read_view(result)) == read_run(old(k)@, descriptor, capacity),
        result matches Some(Ok(bytes)) ==> bytes@.len() <= capacity,
{
    let answer = k.call(Op::Read { descriptor, capacity: capacity as u64 })?;
    match decode(answer.result) {
        Err(error) => Some(Err(error)),
        Ok(count) => {
            if count == answer.bytes.len() as u64 && count <= capacity as u64 {
                Some(Ok(answer.bytes))
            } else {
                Some(Err(Error::io()))
            }
        },
    }
}

/// Closes a file.
pub fn close(k: &mut Kernel, descriptor: u64) -> (result: Option<Result<(), Error>>)
    ensures
        (final(k)@, result) == ipc::unit_run(old(k)@, Op::CloseFile { descriptor }, seq![]),
{
    unit_call(k, Op::CloseFile { descriptor }, Vec::new())
}

/// Opens what the kernel logged before there was a logging service.
pub fn open_early_log_reader(k: &mut Kernel) -> (result: Option<Result<u64, Error>>)
    ensures
        (final(k)@, result) == ipc::value_run(old(k)@, Op::OpenEarlyLogReader),
{
    let answer = k.call(Op::OpenEarlyLogReader)?;
    Some(decode(answer.result))
}

} // verus!
