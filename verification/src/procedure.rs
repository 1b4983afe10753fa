//! What procedures have in common: how their steps follow one another, and how they close handles
//! when they give up.
//!
//! A run is the transcript after a procedure and its outcome, if the answers lasted that long.

use crate::ipc;
use crate::ipc::{CapabilityHandle, ReceivedCapability};
use crate::kernel;
use crate::kernel::Kernel;
use vstd::prelude::*;

verus! {

/// One step after another: `next` goes on from the outcome of `run`.
pub open spec fn after<A, B>(
    run: (kernel::Transcript, Option<A>),
    next: spec_fn(kernel::Transcript, A) -> (kernel::Transcript, Option<B>),
) -> (kernel::Transcript, Option<B>) {
    match run.1 {
        None => (run.0, None),
        Some(value) => next(run.0, value),
    }
}

/// The end of a procedure.
pub open spec fn done<A>(k: kernel::Transcript, value: A) -> (kernel::Transcript, Option<A>) {
    (k, Some(value))
}

/// Closing a handle without looking at the verdict.
pub open spec fn quiet_run(k: kernel::Transcript, handle: CapabilityHandle) -> (
    kernel::Transcript,
    Option<()>,
) {
    after(ipc::close_run(k, handle), |k: kernel::Transcript, result: Result<(), ipc::Error>| done(k, ()))
}

/// Closing two handles, one after the other, without looking at the verdicts.
pub open spec fn quiet_pair_run(
    k: kernel::Transcript,
    first: CapabilityHandle,
    second: CapabilityHandle,
) -> (kernel::Transcript, Option<()>) {
    after(quiet_run(k, first), |k: kernel::Transcript, closed: ()| quiet_run(k, second))
}

/// Closing the handle that is there, if any.
pub open spec fn quiet_option_run(k: kernel::Transcript, handle: Option<CapabilityHandle>) -> (
    kernel::Transcript,
    Option<()>,
) {
    match handle {
        None => done(k, ()),
        Some(handle) => quiet_run(k, handle),
    }
}

/// Closing a capability that came with a message, if one came.
pub open spec fn quiet_received_run(
    k: kernel::Transcript,
    capability: Option<ReceivedCapability>,
) -> (kernel::Transcript, Option<()>) {
    match capability {
        None => done(k, ()),
        Some(capability) => quiet_run(k, capability.handle),
    }
}

/// A failure that comes after something has been closed.
pub open spec fn fail_after<T, E>(run: (kernel::Transcript, Option<()>), error: E) -> (
    kernel::Transcript,
    Option<Result<T, E>>,
) {
    (
        run.0,
        match run.1 {
            None => None,
            Some(_) => Some(Err(error)),
        },
    )
}

pub(crate) fn close_quietly(k: &mut Kernel, handle: CapabilityHandle) -> (result: Option<()>)
    ensures
        (final(k)@, result) == quiet_run(old(k)@, handle),
{
    let _ = ipc::close(k, handle)?;
    Some(())
}

pub(crate) fn close_pair_quietly(
    k: &mut Kernel,
    first: CapabilityHandle,
    second: CapabilityHandle,
) -> (result: Option<()>)
    ensures
        (final(k)@, result) == quiet_pair_run(old(k)@, first, second),
{
    close_quietly(k, first)?;
    close_quietly(k, second)
}

pub(crate) fn close_option_quietly(k: &mut Kernel, handle: Option<CapabilityHandle>) -> (result:
    Option<()>)
    ensures
        (final(k)@, result) == quiet_option_run(old(k)@, handle),
{
    match handle {
        None => Some(()),
        Some(handle) => close_quietly(k, handle),
    }
}

pub(crate) fn close_received(k: &mut Kernel, capability: Option<ReceivedCapability>) -> (result:
    Option<()>)
    ensures
        (final(k)@, result) == quiet_received_run(old(k)@, capability),
{
    match capability {
        None => Some(()),
        Some(capability) => close_quietly(k, capability.handle),
    }
}

} // verus!
