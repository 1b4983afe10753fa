//! What the probes of the first process have in common: how a tool is run, and how it is waited
//! for.

use crate::contained_service::READY_BYTES;
use crate::init_run;
use crate::init_run::{
    announce, demand, grant_each, hear, is_expected_message, need, not_yet, rest,
    BootstrapCapability, Halt, Run,
};
use crate::init_text::Text;
use crate::ipc;
use crate::ipc::{CapabilityHandle, Rights};
use crate::kernel;
use crate::kernel::Kernel;
use crate::nullfs_lifecycle;
use crate::nullfs_lifecycle::try_wait_final_status;
use crate::syscall;
use crate::syscall::{
    spawn_command_with_barrier, try_wait_child, wait_child, ChildStatus, LaunchBarrier, ProcessId,
};
use vstd::prelude::*;

verus! {

/// How often a probe is looked at.
pub const PROBE_LOOKS: usize = 4_096;

/// The handle under which a simple probe finds what it talks to.
pub const PROBE_HANDLE: u64 = 1;

/// Running a tool behind a barrier with what it gets. Whatever does not work, the process gives
/// up.
#[verifier::opaque]
pub open spec fn launch_run(
    k: kernel::Transcript,
    command: Text,
    foreground: bool,
    grants: Seq<BootstrapCapability>,
    text: Text,
) -> Run<ProcessId> {
    init_run::bind(
        init_run::need_run(syscall::barrier_run(k), text),
        |k: kernel::Transcript, barrier: LaunchBarrier|
            init_run::bind(
                init_run::need_run(
                    syscall::spawn_run(k, command.bytes(), foreground, barrier),
                    text,
                ),
                |k: kernel::Transcript, process_id: u64|
                    init_run::bind(
                        init_run::grant_each_run(k, process_id, grants, 0),
                        |k: kernel::Transcript, given: bool|
                            if !given {
                                init_run::giving_up(k, text)
                            } else {
                                init_run::bind(
                                    init_run::need_run(syscall::release_run(k, barrier), text),
                                    |k: kernel::Transcript, released: ()|
                                        init_run::end(k, process_id),
                                )
                            },
                    ),
            ),
    )
}

pub fn launch_tool(
    k: &mut Kernel,
    command: Text,
    foreground: bool,
    grants: &[BootstrapCapability],
    text: Text,
) -> (result: Result<ProcessId, Halt>)
    ensures
        (final(k)@, result) == launch_run(old(k)@, command, foreground, grants@, text),
{
    proof {
        reveal(launch_run);
    }
    let barrier = need(LaunchBarrier::new(k), text)?;
    let process_id: u64 = need(
        spawn_command_with_barrier(k, command.as_bytes(), foreground, barrier),
        text,
    )?;
    if !grant_each(k, process_id, grants)? {
        return Err(Halt::Failed(text));
    }
    need(barrier.release(k), text)?;
    Ok(process_id)
}

/// A handle with the right to send that a tool gets.
#[verifier::allow_in_spec]
pub fn sending(source: CapabilityHandle, target: CapabilityHandle) -> BootstrapCapability
    returns
        (BootstrapCapability {
            source_handle: source,
            rights: Rights::send(),
            target_handle: target,
        }),
{
    BootstrapCapability { source_handle: source, rights: Rights::send(), target_handle: target }
}

/// A handle with the right to receive that a tool gets.
#[verifier::allow_in_spec]
pub fn receiving(source: CapabilityHandle, target: CapabilityHandle) -> BootstrapCapability
    returns
        (BootstrapCapability {
            source_handle: source,
            rights: Rights::receive(),
            target_handle: target,
        }),
{
    BootstrapCapability { source_handle: source, rights: Rights::receive(), target_handle: target }
}

/// Waiting once for a tool to change: whether it has ended, which it must successfully.
pub open spec fn wait_step_run(k: kernel::Transcript, process_id: ProcessId, text: Text) -> Run<
    bool,
> {
    init_run::bind(
        init_run::hear_run(syscall::wait_run(k, process_id)),
        |k: kernel::Transcript, waited: Result<ChildStatus, ipc::Error>|
            match waited {
                Ok(status) => if status.continued() || status.stopped_signal() is Some {
                    init_run::end(k, false)
                } else if status.success() {
                    init_run::end(k, true)
                } else {
                    init_run::giving_up(k, text)
                },
                Err(error) => if error == ipc::Error::interrupted() {
                    init_run::end(k, false)
                } else {
                    init_run::giving_up(k, text)
                },
            },
    )
}

/// Waiting for a tool to end successfully.
pub open spec fn wait_run(k: kernel::Transcript, process_id: ProcessId, text: Text) -> Run<()>
    decreases k.unread(),
{
    let (waited, result) = wait_step_run(k, process_id, text);
    match result {
        Err(halt) => (waited, Err(halt)),
        Ok(true) => init_run::end(waited, ()),
        Ok(false) => wait_run(waited, process_id, text),
    }
}

pub fn wait_for_success(k: &mut Kernel, process_id: ProcessId, text: Text) -> (result: Result<
    (),
    Halt,
>)
    ensures
        (final(k)@, result) == wait_run(old(k)@, process_id, text),
{
    loop
        invariant
            wait_run(old(k)@, process_id, text) == wait_run(k@, process_id, text),
        decreases k@.unread(),
    {
        match hear(wait_child(k, process_id))? {
            Ok(status) => {
                if !status.continued() && status.stopped_signal().is_none() {
                    return demand(status.success(), text);
                }
            },
            Err(error) => {
                if error != ipc::Error::interrupted() {
                    return Err(Halt::Failed(text));
                }
            },
        }
    }
}

/// Looking whether a tool has ended, which it must successfully.
pub open spec fn ended_run(k: kernel::Transcript, process_id: ProcessId, text: Text) -> Run<bool> {
    init_run::bind(
        init_run::hear_run(syscall::try_wait_run(k, process_id)),
        |k: kernel::Transcript, polled: Result<ChildStatus, ipc::Error>|
            match polled {
                Ok(status) => if status.continued() || status.stopped_signal() is Some {
                    init_run::end(k, false)
                } else if status.success() {
                    init_run::end(k, true)
                } else {
                    init_run::giving_up(k, text)
                },
                Err(error) => if init_run::not_yet(error) {
                    init_run::end(k, false)
                } else {
                    init_run::giving_up(k, text)
                },
            },
    )
}

pub fn has_ended(k: &mut Kernel, process_id: ProcessId, text: Text) -> (result: Result<bool, Halt>)
    ensures
        (final(k)@, result) == ended_run(old(k)@, process_id, text),
{
    match hear(try_wait_child(k, process_id))? {
        Ok(status) => {
            if status.continued() || status.stopped_signal().is_some() {
                return Ok(false);
            }
            demand(status.success(), text)?;
            Ok(true)
        },
        Err(error) => {
            if not_yet(error) {
                Ok(false)
            } else {
                Err(Halt::Failed(text))
            }
        },
    }
}

/// Making sure that a tool has not ended.
pub open spec fn still_running_run(
    k: kernel::Transcript,
    process_id: Option<ProcessId>,
    text: Text,
) -> Run<()> {
    match process_id {
        None => init_run::end(k, ()),
        Some(process_id) => init_run::bind(
            nullfs_lifecycle::final_status_run(k, process_id),
            |k: kernel::Transcript, status: Option<u64>|
                init_run::demand_run(k, status is None, text),
        ),
    }
}

pub fn still_running(k: &mut Kernel, process_id: Option<ProcessId>, text: Text) -> (result: Result<
    (),
    Halt,
>)
    ensures
        (final(k)@, result) == still_running_run(old(k)@, process_id, text),
{
    match process_id {
        None => Ok(()),
        Some(process_id) => {
            let status = try_wait_final_status(k, process_id)?;
            demand(status.is_none(), text)
        },
    }
}

/// Looking for a message from a tool, which must be the one that is expected. A tool that has
/// ended cannot send one.
pub open spec fn message_step_run(
    k: kernel::Transcript,
    endpoint: CapabilityHandle,
    process_id: ProcessId,
    expected: Text,
    text: Text,
) -> Run<bool> {
    init_run::bind(
        init_run::hear_run(ipc::try_receive_run(k, endpoint, READY_BYTES)),
        |k: kernel::Transcript, received: Result<ipc::Delivery, ipc::Error>|
            match received {
                Ok(delivery) => if init_run::is_expected(delivery, process_id, expected.bytes()) {
                    init_run::end(k, true)
                } else {
                    init_run::giving_up(k, text)
                },
                Err(error) => if error != ipc::Error::try_again() {
                    init_run::giving_up(k, text)
                } else {
                    init_run::bind(
                        still_running_run(k, Some(process_id), text),
                        |k: kernel::Transcript, running: ()|
                            init_run::bind(
                                init_run::rest_run(k, text),
                                |k: kernel::Transcript, rested: ()| init_run::end(k, false),
                            ),
                    )
                },
            },
    )
}

fn message_step(
    k: &mut Kernel,
    endpoint: CapabilityHandle,
    process_id: ProcessId,
    expected: Text,
    text: Text,
) -> (result: Result<bool, Halt>)
    ensures
        (final(k)@, result) == message_step_run(old(k)@, endpoint, process_id, expected, text),
{
    match hear(ipc::try_receive(k, endpoint, READY_BYTES))? {
        Ok(received) => {
            demand(is_expected_message(&received, process_id, expected.as_bytes()), text)?;
            Ok(true)
        },
        Err(error) => {
            if error != ipc::Error::try_again() {
                return Err(Halt::Failed(text));
            }
            still_running(k, Some(process_id), text)?;
            rest(k, text)?;
            Ok(false)
        },
    }
}

/// Waiting for a message from a tool, for a limited number of looks.
pub open spec fn message_within_run(
    k: kernel::Transcript,
    endpoint: CapabilityHandle,
    process_id: ProcessId,
    expected: Text,
    text: Text,
    looks: nat,
) -> Run<()>
    decreases looks,
{
    if looks == 0 {
        init_run::giving_up(k, text)
    } else {
        let (looked, result) = message_step_run(k, endpoint, process_id, expected, text);
        match result {
            Err(halt) => (looked, Err(halt)),
            Ok(true) => init_run::end(looked, ()),
            Ok(false) => message_within_run(
                looked,
                endpoint,
                process_id,
                expected,
                text,
                (looks - 1) as nat,
            ),
        }
    }
}

pub fn wait_for_probe_message(
    k: &mut Kernel,
    endpoint: CapabilityHandle,
    process_id: ProcessId,
    expected: Text,
    failure_message: Text,
) -> (result: Result<(), Halt>)
    ensures
        (final(k)@, result) == message_within_run(
            old(k)@,
            endpoint,
            process_id,
            expected,
            failure_message,
            PROBE_LOOKS as nat,
        ),
{
    let mut looks: usize = PROBE_LOOKS;
    while looks > 0
        invariant
            message_within_run(
                old(k)@,
                endpoint,
                process_id,
                expected,
                failure_message,
                PROBE_LOOKS as nat,
            ) == message_within_run(
                k@,
                endpoint,
                process_id,
                expected,
                failure_message,
                looks as nat,
            ),
        decreases looks,
    {
        if message_step(k, endpoint, process_id, expected, failure_message)? {
            return Ok(());
        }
        looks -= 1;
    }
    Err(Halt::Failed(failure_message))
}

/// Waiting for a message from a tool, however long it takes.
pub open spec fn message_run(
    k: kernel::Transcript,
    endpoint: CapabilityHandle,
    process_id: ProcessId,
    expected: Text,
    text: Text,
) -> Run<()>
    decreases k.unread(),
{
    let (looked, result) = message_step_run(k, endpoint, process_id, expected, text);
    match result {
        Err(halt) => (looked, Err(halt)),
        Ok(true) => init_run::end(looked, ()),
        Ok(false) => message_run(looked, endpoint, process_id, expected, text),
    }
}

pub fn wait_for_message(
    k: &mut Kernel,
    endpoint: CapabilityHandle,
    process_id: ProcessId,
    expected: Text,
    text: Text,
) -> (result: Result<(), Halt>)
    ensures
        (final(k)@, result) == message_run(old(k)@, endpoint, process_id, expected, text),
{
    loop
        invariant
            message_run(old(k)@, endpoint, process_id, expected, text) == message_run(
                k@,
                endpoint,
                process_id,
                expected,
                text,
            ),
        decreases k@.unread(),
    {
        if message_step(k, endpoint, process_id, expected, text)? {
            return Ok(());
        }
    }
}

/// Looking for the status of a process, beside a tool that must not end before it.
pub open spec fn status_step_run(
    k: kernel::Transcript,
    process_id: ProcessId,
    beside: Option<ProcessId>,
    text: Text,
) -> Run<Option<u64>> {
    init_run::bind(
        nullfs_lifecycle::final_status_run(k, process_id),
        |k: kernel::Transcript, status: Option<u64>|
            match status {
                Some(status) => init_run::end(k, Some(status)),
                None => init_run::bind(
                    still_running_run(k, beside, text),
                    |k: kernel::Transcript, running: ()|
                        init_run::bind(
                            init_run::rest_run(k, text),
                            |k: kernel::Transcript, rested: ()| init_run::end(k, None),
                        ),
                ),
            },
    )
}

fn status_step(
    k: &mut Kernel,
    process_id: ProcessId,
    beside: Option<ProcessId>,
    text: Text,
) -> (result: Result<Option<u64>, Halt>)
    ensures
        (final(k)@, result) == status_step_run(old(k)@, process_id, beside, text),
{
    if let Some(status) = try_wait_final_status(k, process_id)? {
        return Ok(Some(status));
    }
    still_running(k, beside, text)?;
    rest(k, text)?;
    Ok(None)
}

/// Waiting for the status of a process, however long it takes.
pub open spec fn status_run(
    k: kernel::Transcript,
    process_id: ProcessId,
    beside: Option<ProcessId>,
    text: Text,
) -> Run<u64>
    decreases k.unread(),
{
    let (looked, result) = status_step_run(k, process_id, beside, text);
    match result {
        Err(halt) => (looked, Err(halt)),
        Ok(Some(status)) => init_run::end(looked, status),
        Ok(None) => status_run(looked, process_id, beside, text),
    }
}

pub fn wait_for_status(
    k: &mut Kernel,
    process_id: ProcessId,
    beside: Option<ProcessId>,
    text: Text,
) -> (result: Result<u64, Halt>)
    ensures
        (final(k)@, result) == status_run(old(k)@, process_id, beside, text),
{
    loop
        invariant
            status_run(old(k)@, process_id, beside, text) == status_run(
                k@,
                process_id,
                beside,
                text,
            ),
        decreases k@.unread(),
    {
        if let Some(status) = status_step(k, process_id, beside, text)? {
            return Ok(status);
        }
    }
}

/// Waiting for the status of a process, for a limited number of looks.
pub open spec fn status_within_run(
    k: kernel::Transcript,
    process_id: ProcessId,
    beside: Option<ProcessId>,
    text: Text,
    looks: nat,
) -> Run<Option<u64>>
    decreases looks,
{
    if looks == 0 {
        init_run::end(k, None)
    } else {
        let (looked, result) = status_step_run(k, process_id, beside, text);
        match result {
            Err(halt) => (looked, Err(halt)),
            Ok(Some(status)) => init_run::end(looked, Some(status)),
            Ok(None) => status_within_run(looked, process_id, beside, text, (looks - 1) as nat),
        }
    }
}

pub fn wait_for_status_within(
    k: &mut Kernel,
    process_id: ProcessId,
    beside: Option<ProcessId>,
    text: Text,
) -> (result: Result<Option<u64>, Halt>)
    ensures
        (final(k)@, result) == status_within_run(
            old(k)@,
            process_id,
            beside,
            text,
            PROBE_LOOKS as nat,
        ),
{
    let mut looks: usize = PROBE_LOOKS;
    while looks > 0
        invariant
            status_within_run(old(k)@, process_id, beside, text, PROBE_LOOKS as nat)
                == status_within_run(k@, process_id, beside, text, looks as nat),
        decreases looks,
    {
        if let Some(status) = status_step(k, process_id, beside, text)? {
            return Ok(Some(status));
        }
        looks -= 1;
    }
    Ok(None)
}

/// Running a probe that talks to one endpoint and waiting for its success.
pub open spec fn probe_run(
    k: kernel::Transcript,
    command: Text,
    endpoint: CapabilityHandle,
    failed: Text,
    passed: Text,
) -> Run<()> {
    init_run::bind(
        launch_run(k, command, false, seq![sending(endpoint, PROBE_HANDLE)], failed),
        |k: kernel::Transcript, process_id: u64|
            init_run::bind(
                wait_run(k, process_id, failed),
                |k: kernel::Transcript, waited: ()| init_run::announce_run(k, passed),
            ),
    )
}

pub fn run_probe(
    k: &mut Kernel,
    command: Text,
    request_endpoint: CapabilityHandle,
    failed_message: Text,
    passed_message: Text,
) -> (result: Result<(), Halt>)
    ensures
        (final(k)@, result) == probe_run(
            old(k)@,
            command,
            request_endpoint,
            failed_message,
            passed_message,
        ),
{
    let grants: [BootstrapCapability; 1] = [sending(request_endpoint, PROBE_HANDLE)];
    assert(grants@ =~= seq![sending(request_endpoint, PROBE_HANDLE)]);
    let process_id = launch_tool(k, command, false, &grants, failed_message)?;
    wait_for_success(k, process_id, failed_message)?;
    announce(k, passed_message)
}

pub fn run_tmpfs_probe(k: &mut Kernel, request_endpoint: CapabilityHandle) -> (result: Result<
    (),
    Halt,
>)
    ensures
        (final(k)@, result) == probe_run(
            old(k)@,
            Text::TmpfsProbeCommand,
            request_endpoint,
            Text::TmpfsProbeFailed,
            Text::TmpfsProbePassed,
        ),
{
    run_probe(
        k,
        Text::TmpfsProbeCommand,
        request_endpoint,
        Text::TmpfsProbeFailed,
        Text::TmpfsProbePassed,
    )
}

/// A probe that passed was heard to end successfully: the last thing it comes to is that it is
/// said so, and everything else gives up.
pub proof fn lemma_probe_passes_or_gives_up(
    k: kernel::Transcript,
    command: Text,
    endpoint: CapabilityHandle,
    failed: Text,
    passed: Text,
)
    ensures
        probe_run(k, command, endpoint, failed, passed).1 matches Err(halt) ==> (halt
            == Halt::Waiting || halt == Halt::Failed(failed)),
{
    reveal(launch_run);
    let grants = seq![sending(endpoint, PROBE_HANDLE)];
    lemma_launch_gives_up_with_its_text(k, command, false, grants, failed);
    let (launched, process_id) = launch_run(k, command, false, grants, failed);
    if let Ok(process_id) = process_id {
        lemma_wait_gives_up_with_its_text(launched, process_id, failed);
    }
}

proof fn lemma_launch_gives_up_with_its_text(
    k: kernel::Transcript,
    command: Text,
    foreground: bool,
    grants: Seq<BootstrapCapability>,
    text: Text,
)
    ensures
        launch_run(k, command, foreground, grants, text).1 matches Err(halt) ==> (halt
            == Halt::Waiting || halt == Halt::Failed(text)),
{
    reveal(launch_run);
    if let (made, Some(Ok(barrier))) = syscall::barrier_run(k) {
        if let (spawned, Some(Ok(process_id))) = syscall::spawn_run(
            made,
            command.bytes(),
            foreground,
            barrier,
        ) {
            lemma_grants_only_wait(spawned, process_id, grants, 0);
        }
    }
}

proof fn lemma_grants_only_wait(
    k: kernel::Transcript,
    process_id: ProcessId,
    grants: Seq<BootstrapCapability>,
    from: int,
)
    ensures
        init_run::grant_each_run(k, process_id, grants, from).1 matches Err(halt) ==> (halt
            == Halt::Waiting),
    decreases grants.len() - from,
{
    if from < grants.len() {
        let (asked, result) = init_run::grant_run(
            k,
            process_id,
            grants[from].source_handle,
            grants[from].rights,
            grants[from].target_handle,
        );
        if result == Ok::<bool, Halt>(true) {
            lemma_grants_only_wait(asked, process_id, grants, from + 1);
        }
    }
}

proof fn lemma_wait_gives_up_with_its_text(
    k: kernel::Transcript,
    process_id: ProcessId,
    text: Text,
)
    ensures
        wait_run(k, process_id, text).1 matches Err(halt) ==> (halt == Halt::Waiting || halt
            == Halt::Failed(text)),
    decreases k.unread(),
{
    let (waited, result) = wait_step_run(k, process_id, text);
    if result == Ok::<bool, Halt>(false) {
        lemma_wait_gives_up_with_its_text(waited, process_id, text);
    }
}

} // verus!
