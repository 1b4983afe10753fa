//! How the procedures of the first process end.
//!
//! The first process gives up at the first thing that must not happen: it writes one text and
//! exits. A procedure that gives up returns that text, and whoever drives the procedure writes it
//! and exits.

use crate::bytes::equal;
use crate::init_text::Text;
use crate::ipc;
use crate::ipc::{CapabilityHandle, Rights};
use crate::kernel;
use crate::kernel::{Kernel, Op};
use crate::service_teardown;
use crate::syscall;
use crate::syscall::{yield_now, ProcessId, STDOUT};
use vstd::prelude::*;

verus! {

/// Why a procedure did not come to its end.
#[derive(Debug, Clone, Copy, PartialEq, Eq, Structural)]
pub enum Halt {
    /// The next call has no answer yet.
    Waiting,
    /// The process writes the text to its standard error stream and exits with status one.
    Failed(Text),
    /// The process exits with this status.
    Exit(u64),
}

/// The transcript after a procedure, and how it ended.
pub type Run<T> = (kernel::Transcript, Result<T, Halt>);

/// One procedure after another: `next` goes on from what `run` came to.
pub open spec fn bind<A, B>(run: Run<A>, next: spec_fn(kernel::Transcript, A) -> Run<B>) -> Run<B> {
    match run.1 {
        Ok(value) => next(run.0, value),
        Err(halt) => (run.0, Err(halt)),
    }
}

/// The end of a procedure.
pub open spec fn end<A>(k: kernel::Transcript, value: A) -> Run<A> {
    (k, Ok(value))
}

/// Giving up with a text.
pub open spec fn giving_up<A>(k: kernel::Transcript, text: Text) -> Run<A> {
    (k, Err(Halt::Failed(text)))
}

/// Giving up unless something holds.
pub open spec fn demand_run(k: kernel::Transcript, holds: bool, text: Text) -> Run<()> {
    if holds {
        end(k, ())
    } else {
        giving_up(k, text)
    }
}

/// Gives up unless something holds.
pub fn demand(holds: bool, text: Text) -> (result: Result<(), Halt>)
    ensures
        result == if holds {
            Ok::<(), Halt>(())
        } else {
            Err(Halt::Failed(text))
        },
{
    if holds {
        Ok(())
    } else {
        Err(Halt::Failed(text))
    }
}

/// A result without which the process gives up.
pub open spec fn needed<A, E>(result: Option<Result<A, E>>, text: Text) -> Result<A, Halt> {
    match result {
        None => Err(Halt::Waiting),
        Some(Ok(value)) => Ok(value),
        Some(Err(_)) => Err(Halt::Failed(text)),
    }
}

/// A result that the process can go on with, whatever it is.
pub open spec fn heard<A>(result: Option<A>) -> Result<A, Halt> {
    match result {
        None => Err(Halt::Waiting),
        Some(value) => Ok(value),
    }
}

/// A call without whose success the process gives up.
pub open spec fn need_run<A, E>(
    run: (kernel::Transcript, Option<Result<A, E>>),
    text: Text,
) -> Run<A> {
    (run.0, needed(run.1, text))
}

/// A call whose outcome the process goes on with.
pub open spec fn hear_run<A>(run: (kernel::Transcript, Option<A>)) -> Run<A> {
    (run.0, heard(run.1))
}

pub fn need<A, E>(result: Option<Result<A, E>>, text: Text) -> (value: Result<A, Halt>)
    ensures
        value == needed(result, text),
{
    match result {
        None => Err(Halt::Waiting),
        Some(Ok(value)) => Ok(value),
        Some(Err(_)) => Err(Halt::Failed(text)),
    }
}

pub fn hear<A>(result: Option<A>) -> (value: Result<A, Halt>)
    ensures
        value == heard(result),
{
    match result {
        None => Err(Halt::Waiting),
        Some(value) => Ok(value),
    }
}

/// Whether a procedure that changes a state came to what its run says: the new state and the
/// result, or the reason why it stopped.
pub open spec fn came_to<S, T>(outcome: Result<(S, T), Halt>, state: S, result: Result<T, Halt>) -> bool {
    match result {
        Ok(value) => outcome == Ok::<(S, T), Halt>((state, value)),
        Err(halt) => outcome == Err::<(S, T), Halt>(halt),
    }
}

/// Writing a text to the standard output stream, whatever comes of it.
pub open spec fn announce_run(k: kernel::Transcript, text: Text) -> Run<()> {
    hear_run(service_teardown::say_run(k, STDOUT, text.bytes()))
}

pub fn announce(k: &mut Kernel, text: Text) -> (result: Result<(), Halt>)
    ensures
        (final(k)@, result) == announce_run(old(k)@, text),
{
    hear(service_teardown::say(k, STDOUT, text.as_bytes()))
}

/// Yielding, without which the process gives up.
pub open spec fn rest_run(k: kernel::Transcript, text: Text) -> Run<()> {
    need_run(syscall::yield_run(k), text)
}

pub fn rest(k: &mut Kernel, text: Text) -> (result: Result<(), Halt>)
    ensures
        (final(k)@, result) == rest_run(old(k)@, text),
{
    need(yield_now(k), text)
}

/// Yielding whatever comes of it.
pub open spec fn linger_run(k: kernel::Transcript) -> Run<()> {
    let (asked, yielded) = syscall::yield_run(k);
    (
        asked,
        match yielded {
            None => Err(Halt::Waiting),
            Some(_) => Ok(()),
        },
    )
}

pub fn linger(k: &mut Kernel) -> (result: Result<(), Halt>)
    ensures
        (final(k)@, result) == linger_run(old(k)@),
{
    match yield_now(k) {
        None => Err(Halt::Waiting),
        Some(_) => Ok(()),
    }
}

/// Yielding a number of times before a restart.
pub open spec fn backoff_run(k: kernel::Transcript, yields: nat) -> Run<()>
    decreases yields,
{
    if yields == 0 {
        end(k, ())
    } else {
        let (rested, result) = rest_run(k, Text::TmpfsServiceFailed);
        match result {
            Err(halt) => (rested, Err(halt)),
            Ok(_) => backoff_run(rested, (yields - 1) as nat),
        }
    }
}

pub fn backoff(k: &mut Kernel, yields: u32) -> (result: Result<(), Halt>)
    ensures
        (final(k)@, result) == backoff_run(old(k)@, yields as nat),
{
    let mut remaining: u32 = yields;
    while remaining > 0
        invariant
            backoff_run(old(k)@, yields as nat) == backoff_run(k@, remaining as nat),
        decreases remaining,
    {
        rest(k, Text::TmpfsServiceFailed)?;
        remaining -= 1;
    }
    Ok(())
}

/// Granting a handle to a child under a number: whether it got that number.
pub open spec fn grant_run(
    k: kernel::Transcript,
    process_id: ProcessId,
    source: CapabilityHandle,
    rights: Rights,
    target: CapabilityHandle,
) -> Run<bool> {
    bind(
        hear_run(
            ipc::value_run(
                k,
                Op::GrantChild { process_id, handle: source, rights: rights.raw, target },
            ),
        ),
        |k: kernel::Transcript, result: Result<u64, ipc::Error>| end(k, granted(result, target)),
    )
}

pub fn grant(
    k: &mut Kernel,
    process_id: ProcessId,
    source: CapabilityHandle,
    rights: Rights,
    target: CapabilityHandle,
) -> (result: Result<bool, Halt>)
    ensures
        (final(k)@, result) == grant_run(old(k)@, process_id, source, rights, target),
{
    let result = hear(ipc::grant_child(k, process_id, source, rights, target))?;
    Ok(granted(result, target))
}

/// Granting several handles in order, up to the first that fails: whether none did.
pub open spec fn grant_each_run(
    k: kernel::Transcript,
    process_id: ProcessId,
    grants: Seq<BootstrapCapability>,
    from: int,
) -> Run<bool>
    decreases grants.len() - from,
{
    if from >= grants.len() {
        end(k, true)
    } else {
        let (asked, result) = grant_run(
            k,
            process_id,
            grants[from].source_handle,
            grants[from].rights,
            grants[from].target_handle,
        );
        match result {
            Err(halt) => (asked, Err(halt)),
            Ok(false) => end(asked, false),
            Ok(true) => grant_each_run(asked, process_id, grants, from + 1),
        }
    }
}

pub fn grant_each(k: &mut Kernel, process_id: ProcessId, grants: &[BootstrapCapability]) -> (result:
    Result<bool, Halt>)
    ensures
        (final(k)@, result) == grant_each_run(old(k)@, process_id, grants@, 0),
{
    let mut index: usize = 0;
    while index < grants.len()
        invariant
            index <= grants@.len(),
            grant_each_run(old(k)@, process_id, grants@, 0) == grant_each_run(
                k@,
                process_id,
                grants@,
                index as int,
            ),
        decreases grants@.len() - index,
    {
        let capability = grants[index];
        if !grant(
            k,
            process_id,
            capability.source_handle,
            capability.rights,
            capability.target_handle,
        )? {
            return Ok(false);
        }
        index += 1;
    }
    Ok(true)
}

/// A handle that a child gets under a fixed number.
#[derive(Debug, Clone, Copy, PartialEq, Eq, Structural)]
pub struct BootstrapCapability {
    pub source_handle: CapabilityHandle,
    pub rights: Rights,
    pub target_handle: CapabilityHandle,
}

/// Whether a message is exactly the one that is expected from a process: it comes from the
/// process, alone, and says what it should.
pub open spec fn is_expected(delivery: ipc::Delivery, process_id: ProcessId, expected: Seq<u8>) -> bool {
    &&& delivery.message.sender_process_id == process_id
    &&& delivery.message.capability is None
    &&& delivery.payload == expected
}

pub fn is_expected_message(received: &ipc::Received, process_id: ProcessId, expected: &[u8]) -> (result:
    bool)
    ensures
        result == is_expected(received@, process_id, expected@),
{
    received.message.sender_process_id == process_id && received.message.capability.is_none()
        && equal(received.payload.as_slice(), expected)
}

/// Whether an error only says that nothing is there yet.
#[verifier::allow_in_spec]
pub fn not_yet(error: ipc::Error) -> bool
    returns
        error == ipc::Error::try_again() || error == ipc::Error::interrupted(),
{
    error == ipc::Error::try_again() || error == ipc::Error::interrupted()
}

/// Whether a handle was granted to a child under the number it was meant for.
#[verifier::allow_in_spec]
pub fn granted(result: Result<u64, ipc::Error>, target: u64) -> bool
    returns
        (match result {
            Ok(handle) => handle == target,
            Err(_) => false,
        }),
{
    match result {
        Ok(handle) => handle == target,
        Err(_) => false,
    }
}

} // verus!
