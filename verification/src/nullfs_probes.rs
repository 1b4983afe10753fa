//! Probes that have the NullFS service crash, lose its device and restart, and look at what
//! becomes of it.

use crate::contained_service;
use crate::contained_service::{
    must_drain, nullfs_containment, nullfs_messages, start_contained_service,
    ContainedServiceJob, GenerationResources, READY_HANDLE, REQUEST_HANDLE,
};
use crate::filesystem_registry;
use crate::filesystem_registry::{
    kernel_generation, offline_filesystem_provider, register_nullfs_proxy,
};
use crate::identity::{ProviderGeneration, ProviderGenerationSequence};
use crate::init_run;
use crate::init_run::{
    announce, backoff, demand, hear, need, rest, BootstrapCapability, Halt, Run,
};
use crate::init_text::Text;
use crate::ipc;
use crate::ipc::{CapabilityHandle, CapabilityInfo};
use crate::kernel;
use crate::kernel::{Kernel, Op};
use crate::lifecycle_check::next_number;
use crate::lifecycle_protocol::{
    CrashTestMessage, ARM, CRASH_TEST_MESSAGE_BYTES, MUTATION_REACHED,
};
use crate::platform;
use crate::platform::{Errno, FilesystemProvider};
use crate::probe;
use crate::probe::{
    launch_tool, receiving, sending, still_running, wait_for_probe_message, wait_for_status,
    wait_for_status_within, PROBE_LOOKS,
};
use crate::supervisor;
use crate::supervisor::{ServiceRuntime, ServiceState, ServiceStatusDisposition};
use crate::syscall::ProcessId;
use vstd::prelude::*;

verus! {

/// The identity of the volume that the NullFS service serves.
pub const NULLFS_PRIMARY_VOLUME: [u8; 16] = [
    0x4e,
    0x55,
    0x4c,
    0x4c,
    0x46,
    0x53,
    0x40,
    0x01,
    0x80,
    0x00,
    0x50,
    0x52,
    0x49,
    0x4d,
    0x41,
    0x52,
];

/// What marks the messages of the crash probe.
pub const CRASH_NONCE: u64 = 0x4352_4153_4800_0001;

/// How the service exits at the crash that was set up.
pub const CRASH_STATUS: u64 = 37;

/// How the service exits when its device is gone.
pub const DEVICE_LOSS_STATUS: u64 = 35;

/// The NullFS service and what goes with it.
pub ghost struct Nullfs {
    pub service: supervisor::Service,
    pub generations: u64,
    pub resources: GenerationResources,
}

/// The object behind an endpoint, without which the probe has failed.
pub open spec fn object_run(k: kernel::Transcript, handle: CapabilityHandle, text: Text) -> Run<
    u64,
> {
    init_run::bind(
        init_run::need_run(ipc::info_run(k, handle), text),
        |k: kernel::Transcript, info: CapabilityInfo| init_run::end(k, info.object_id),
    )
}

pub(crate) fn object_of(k: &mut Kernel, handle: CapabilityHandle, text: Text) -> (result: Result<u64, Halt>)
    ensures
        (final(k)@, result) == object_run(old(k)@, handle, text),
{
    let info = need(ipc::info(k, handle), text)?;
    Ok(info.object_id)
}

/// Running a probe with two endpoints: one on which it speaks, and one on which it listens.
pub open spec fn launch_pair_run(k: kernel::Transcript, command: Text, text: Text) -> Run<
    (CapabilityHandle, CapabilityHandle, ProcessId),
> {
    init_run::bind(
        contained_service::create_endpoints_run(k, text),
        |k: kernel::Transcript, endpoints: (CapabilityHandle, CapabilityHandle)|
            init_run::bind(
                probe::launch_run(
                    k,
                    command,
                    false,
                    seq![
                        sending(endpoints.0, READY_HANDLE),
                        receiving(endpoints.1, REQUEST_HANDLE),
                    ],
                    text,
                ),
                |k: kernel::Transcript, process_id: u64|
                    init_run::end(k, (endpoints.0, endpoints.1, process_id)),
            ),
    )
}

pub(crate) fn launch_pair(k: &mut Kernel, command: Text, text: Text) -> (result: Result<
    (CapabilityHandle, CapabilityHandle, ProcessId),
    Halt,
>)
    ensures
        (final(k)@, result) == launch_pair_run(old(k)@, command, text),
{
    let (ready, control) = contained_service::create_endpoints(k, text)?;
    let grants: [BootstrapCapability; 2] = [
        sending(ready, READY_HANDLE),
        receiving(control, REQUEST_HANDLE),
    ];
    assert(grants@ =~= seq![sending(ready, READY_HANDLE), receiving(control, REQUEST_HANDLE)]);
    let process_id: u64 = launch_tool(k, command, false, &grants, text)?;
    Ok((ready, control, process_id))
}

/// Closing two endpoints, without which the probe has failed.
pub open spec fn close_both_run(
    k: kernel::Transcript,
    first: CapabilityHandle,
    second: CapabilityHandle,
    text: Text,
) -> Run<()> {
    init_run::bind(
        init_run::need_run(ipc::close_run(k, first), text),
        |k: kernel::Transcript, closed: ()|
            init_run::need_run(ipc::close_run(k, second), text),
    )
}

pub(crate) fn close_both(k: &mut Kernel, first: CapabilityHandle, second: CapabilityHandle, text: Text) -> (result:
    Result<(), Halt>)
    ensures
        (final(k)@, result) == close_both_run(old(k)@, first, second, text),
{
    need(ipc::close(k, first), text)?;
    need(ipc::close(k, second), text)
}

/// Giving the service new endpoints: the object behind the new request endpoint is newer than the
/// one before.
pub open spec fn renew_run(
    k: kernel::Transcript,
    resources: GenerationResources,
    old_object: u64,
    text: Text,
) -> Run<GenerationResources> {
    init_run::bind(
        close_both_run(k, resources.readiness_endpoint, resources.request_endpoint, text),
        |k: kernel::Transcript, closed: ()|
            init_run::bind(
                contained_service::create_endpoints_run(k, text),
                |k: kernel::Transcript, endpoints: (CapabilityHandle, CapabilityHandle)|
                    init_run::bind(
                        object_run(k, endpoints.1, text),
                        |k: kernel::Transcript, object: u64|
                            if object <= old_object {
                                init_run::giving_up(k, text)
                            } else {
                                init_run::end(
                                    k,
                                    GenerationResources {
                                        readiness_endpoint: endpoints.0,
                                        request_endpoint: endpoints.1,
                                        ..resources
                                    },
                                )
                            },
                    ),
            ),
    )
}

pub(crate) fn renew(
    k: &mut Kernel,
    resources: GenerationResources,
    old_object: u64,
    text: Text,
) -> (result: Result<GenerationResources, Halt>)
    ensures
        (final(k)@, result) == renew_run(old(k)@, resources, old_object, text),
{
    close_both(k, resources.readiness_endpoint, resources.request_endpoint, text)?;
    let (readiness_endpoint, request_endpoint) = contained_service::create_endpoints(k, text)?;
    let object: u64 = object_of(k, request_endpoint, text)?;
    if object <= old_object {
        return Err(Halt::Failed(text));
    }
    Ok(GenerationResources { readiness_endpoint, request_endpoint, ..resources })
}

/// Starting the service again: it has the next generation, and is registered.
pub open spec fn replace_run(
    k: kernel::Transcript,
    nullfs: Nullfs,
    old_generation: ProviderGeneration,
    grants: Seq<BootstrapCapability>,
    text: Text,
) -> Run<(Nullfs, ProviderGeneration)> {
    init_run::bind(
        contained_service::start_run(
            k,
            contained_service::Starting {
                service: nullfs.service,
                generations: nullfs.generations,
                readiness: nullfs.resources.readiness_endpoint,
                request: nullfs.resources.request_endpoint,
            },
            grants,
            nullfs_messages(),
            nullfs_containment(),
        ),
        |
            k: kernel::Transcript,
            started: (contained_service::Starting, (ProviderGeneration, ContainedServiceJob)),
        |
            if started.1.0.raw != next_number(old_generation) {
                init_run::giving_up(k, text)
            } else {
                init_run::bind(
                    filesystem_registry::register_nullfs_run(
                        k,
                        started.1.0,
                        started.0.request,
                    ),
                    |k: kernel::Transcript, registered: ()|
                        init_run::end(
                            k,
                            (
                                Nullfs {
                                    service: started.0.service,
                                    generations: started.0.generations,
                                    resources: GenerationResources {
                                        readiness_endpoint: started.0.readiness,
                                        request_endpoint: started.0.request,
                                        job: started.1.1,
                                    },
                                },
                                started.1.0,
                            ),
                        ),
                )
            },
    )
}

pub(crate) fn replace(
    k: &mut Kernel,
    service: &mut ServiceRuntime,
    generations: &mut ProviderGenerationSequence,
    resources: &mut GenerationResources,
    old_generation: ProviderGeneration,
    grants: &[BootstrapCapability],
    text: Text,
) -> (result: Result<ProviderGeneration, Halt>)
    ensures
        ({
            let (asked, outcome) = replace_run(
                old(k)@,
                Nullfs {
                    service: old(service)@,
                    generations: old(generations)@,
                    resources: *old(resources),
                },
                old_generation,
                grants@,
                text,
            );
            &&& final(k)@ == asked
            &&& init_run::came_to(
                outcome,
                Nullfs {
                    service: final(service)@,
                    generations: final(generations)@,
                    resources: *final(resources),
                },
                result,
            )
        }),
{
    let (generation, job) = start_contained_service(
        k,
        service,
        generations,
        &mut resources.readiness_endpoint,
        &mut resources.request_endpoint,
        grants,
        nullfs_messages(),
        nullfs_containment(),
    )?;
    if generation.get() != next_number(old_generation) {
        return Err(Halt::Failed(text));
    }
    register_nullfs_proxy(k, generation, resources.request_endpoint)?;
    resources.job = job;
    Ok(generation)
}

/// Taking a generation offline that is not the current one, which must be refused.
pub open spec fn refused_offline_run(
    k: kernel::Transcript,
    generation: Option<u32>,
    text: Text,
) -> Run<()> {
    match generation {
        None => init_run::giving_up(k, text),
        Some(number) => init_run::bind(
            init_run::hear_run(platform::offline_run(k, FilesystemProvider::Nullfs, number)),
            |k: kernel::Transcript, offline: Result<(), Errno>|
                init_run::demand_run(
                    k,
                    offline == Err::<(), _>(Errno::invalid_argument()),
                    text,
                ),
        ),
    }
}

/// Whether a call was refused because of its arguments.
#[verifier::allow_in_spec]
pub fn is_invalid(result: Result<(), Errno>) -> bool
    returns
        result == Err::<(), _>(Errno::invalid_argument()),
{
    match result {
        Ok(_) => false,
        Err(error) => error == Errno::invalid_argument(),
    }
}

pub(crate) fn refused_offline(k: &mut Kernel, generation: Option<u32>, text: Text) -> (result: Result<
    (),
    Halt,
>)
    ensures
        (final(k)@, result) == refused_offline_run(old(k)@, generation, text),
{
    match generation {
        None => Err(Halt::Failed(text)),
        Some(number) => {
            let offline = hear(
                platform::offline_filesystem_provider(k, FilesystemProvider::Nullfs, number),
            )?;
            demand(is_invalid(offline), text)
        },
    }
}

/// Setting up the crash and letting the probe run into it.
pub open spec fn inject_run(
    k: kernel::Transcript,
    generation: ProviderGeneration,
    hook: CapabilityHandle,
    control: CapabilityHandle,
) -> Run<()> {
    let text = Text::VfsCrashRecoveryProbeFailed;
    match CrashTestMessage::built(ARM, generation.raw, CRASH_NONCE, 0) {
        None => init_run::giving_up(k, text),
        Some(arm) => init_run::bind(
            init_run::need_run(ipc::send_run(k, hook, arm.encoded(), None), text),
            |k: kernel::Transcript, armed: ()|
                init_run::bind(
                    init_run::announce_run(k, Text::VfsCrashRecoveryInjected),
                    |k: kernel::Transcript, said: ()|
                        init_run::need_run(
                            ipc::send_run(k, control, Text::VfsCrashRecoveryGo.bytes(), None),
                            text,
                        ),
                ),
        ),
    }
}

fn inject(
    k: &mut Kernel,
    generation: ProviderGeneration,
    hook: CapabilityHandle,
    control: CapabilityHandle,
) -> (result: Result<(), Halt>)
    ensures
        (final(k)@, result) == inject_run(old(k)@, generation, hook, control),
{
    let text = Text::VfsCrashRecoveryProbeFailed;
    let arm = match CrashTestMessage::new(ARM, generation.get(), CRASH_NONCE, 0) {
        Some(arm) => arm,
        None => {
            return Err(Halt::Failed(text));
        },
    };
    need(ipc::send(k, hook, &arm.encode(), None), text)?;
    announce(k, Text::VfsCrashRecoveryInjected)?;
    need(ipc::send(k, control, Text::VfsCrashRecoveryGo.as_bytes(), None), text)
}

/// Looking for the message with which the service says that it has reached the crash.
pub open spec fn reached_step_run(
    k: kernel::Transcript,
    readiness: CapabilityHandle,
    service_process: ProcessId,
    probe_process: ProcessId,
) -> Run<Option<CrashTestMessage>> {
    let text = Text::VfsCrashRecoveryProbeFailed;
    init_run::bind(
        init_run::hear_run(ipc::try_receive_run(k, readiness, CRASH_TEST_MESSAGE_BYTES)),
        |k: kernel::Transcript, received: Result<ipc::Delivery, ipc::Error>|
            match received {
                Ok(delivery) => match CrashTestMessage::parsed(delivery.payload) {
                    Ok(message) => if delivery.message.sender_process_id != service_process
                        || delivery.message.capability is Some {
                        init_run::giving_up(k, text)
                    } else {
                        init_run::end(k, Some(message))
                    },
                    Err(_) => init_run::giving_up(k, text),
                },
                Err(error) => if error != ipc::Error::try_again() {
                    init_run::giving_up(k, text)
                } else {
                    init_run::bind(
                        probe::still_running_run(k, Some(probe_process), text),
                        |k: kernel::Transcript, running: ()|
                            init_run::bind(
                                init_run::rest_run(k, text),
                                |k: kernel::Transcript, rested: ()| init_run::end(k, None),
                            ),
                    )
                },
            },
    )
}

/// Waiting for the message with which the service says that it has reached the crash.
pub open spec fn reached_run(
    k: kernel::Transcript,
    readiness: CapabilityHandle,
    service_process: ProcessId,
    probe_process: ProcessId,
) -> Run<CrashTestMessage>
    decreases k.unread(),
{
    let (looked, result) = reached_step_run(k, readiness, service_process, probe_process);
    match result {
        Err(halt) => (looked, Err(halt)),
        Ok(Some(message)) => init_run::end(looked, message),
        Ok(None) => reached_run(looked, readiness, service_process, probe_process),
    }
}

fn wait_for_reached(
    k: &mut Kernel,
    readiness: CapabilityHandle,
    service_process: ProcessId,
    probe_process: ProcessId,
) -> (result: Result<CrashTestMessage, Halt>)
    ensures
        (final(k)@, result) == reached_run(old(k)@, readiness, service_process, probe_process),
{
    let text = Text::VfsCrashRecoveryProbeFailed;
    loop
        invariant
            text == Text::VfsCrashRecoveryProbeFailed,
            reached_run(old(k)@, readiness, service_process, probe_process) == reached_run(
                k@,
                readiness,
                service_process,
                probe_process,
            ),
        decreases k@.unread(),
    {
        match hear(ipc::try_receive(k, readiness, CRASH_TEST_MESSAGE_BYTES))? {
            Ok(received) => {
                let message = match CrashTestMessage::decode(received.payload.as_slice()) {
                    Ok(message) => message,
                    Err(_) => {
                        return Err(Halt::Failed(text));
                    },
                };
                if received.message.sender_process_id != service_process
                    || received.message.capability.is_some() {
                    return Err(Halt::Failed(text));
                }
                return Ok(message);
            },
            Err(error) => {
                if error != ipc::Error::try_again() {
                    return Err(Halt::Failed(text));
                }
            },
        }
        still_running(k, Some(probe_process), text)?;
        rest(k, text)?;
    }
}

/// Whether a message says that the crash that was set up is reached.
#[verifier::allow_in_spec]
pub fn is_reached(message: CrashTestMessage, generation: ProviderGeneration) -> bool
    returns
        message.kind == MUTATION_REACHED && message.generation == generation.raw && message.nonce
            == CRASH_NONCE && message.request_id != 0,
{
    message.kind == MUTATION_REACHED && message.generation == generation.raw && message.nonce
        == CRASH_NONCE && message.request_id != 0
}

/// Having the service crash: how it exits.
pub open spec fn crash_run(
    k: kernel::Transcript,
    readiness: CapabilityHandle,
    service_process: ProcessId,
    probe_process: ProcessId,
    generation: ProviderGeneration,
    hook: CapabilityHandle,
    control: CapabilityHandle,
) -> Run<u64> {
    let text = Text::VfsCrashRecoveryProbeFailed;
    init_run::bind(
        inject_run(k, generation, hook, control),
        |k: kernel::Transcript, injected: ()|
            init_run::bind(
                reached_run(k, readiness, service_process, probe_process),
                |k: kernel::Transcript, reached: CrashTestMessage|
                    if !is_reached(reached, generation) {
                        init_run::giving_up(k, text)
                    } else {
                        init_run::bind(
                            probe::status_run(k, service_process, Some(probe_process), text),
                            |k: kernel::Transcript, status: u64|
                                if status != CRASH_STATUS {
                                    init_run::giving_up(k, text)
                                } else {
                                    init_run::end(k, status)
                                },
                        )
                    },
            ),
    )
}

fn crash(
    k: &mut Kernel,
    readiness: CapabilityHandle,
    service_process: ProcessId,
    probe_process: ProcessId,
    generation: ProviderGeneration,
    hook: CapabilityHandle,
    control: CapabilityHandle,
) -> (result: Result<u64, Halt>)
    ensures
        (final(k)@, result) == crash_run(
            old(k)@,
            readiness,
            service_process,
            probe_process,
            generation,
            hook,
            control,
        ),
{
    let text = Text::VfsCrashRecoveryProbeFailed;
    inject(k, generation, hook, control)?;
    let reached = wait_for_reached(k, readiness, service_process, probe_process)?;
    demand(is_reached(reached, generation), text)?;
    let status: u64 = wait_for_status(k, service_process, Some(probe_process), text)?;
    demand(status == CRASH_STATUS, text)?;
    Ok(status)
}

/// One more, as far as numbers go.
#[verifier::allow_in_spec]
pub fn one_more(count: u32) -> u32
    returns
        (if count == u32::MAX {
            u32::MAX
        } else {
            (count + 1) as u32
        }),
{
    if count == u32::MAX {
        u32::MAX
    } else {
        count + 1
    }
}

/// What the supervisor makes of a crash: the service is started again after a while, and that is
/// charged.
pub open spec fn charged_restart(
    service: supervisor::Service,
    status: u64,
) -> Result<(supervisor::Service, u32), Halt> {
    let (next, disposition) = service.observe(status);
    match disposition {
        ServiceStatusDisposition::Restart { backoff_yields } => if next.restart_count != one_more(
            service.restart_count,
        ) || next.process_id is Some {
            Err(Halt::Failed(Text::VfsCrashRecoveryProbeFailed))
        } else {
            Ok((next, backoff_yields))
        },
        _ => Err(Halt::Failed(Text::VfsCrashRecoveryProbeFailed)),
    }
}

fn observe_crash(service: &mut ServiceRuntime, status: u64) -> (result: Result<u32, Halt>)
    ensures
        init_run::came_to(charged_restart(old(service)@, status), final(service)@, result),
{
    let count: u32 = service.restart_count();
    match service.observe_status(status) {
        ServiceStatusDisposition::Restart { backoff_yields } => {
            if service.restart_count() != one_more(count) || service.process_id().is_some() {
                return Err(Halt::Failed(Text::VfsCrashRecoveryProbeFailed));
            }
            Ok(backoff_yields)
        },
        _ => Err(Halt::Failed(Text::VfsCrashRecoveryProbeFailed)),
    }
}

/// Clearing up after the crash: a wrong generation cannot be taken offline, the crashed one can,
/// and the probe is told that its change has failed.
pub open spec fn after_crash_run(
    k: kernel::Transcript,
    generation: ProviderGeneration,
    ready: CapabilityHandle,
    probe_process: ProcessId,
) -> Run<()> {
    let text = Text::VfsCrashRecoveryProbeFailed;
    init_run::bind(
        refused_offline_run(
            k,
            kernel_generation(ProviderGeneration { raw: next_number(generation) }),
            text,
        ),
        |k: kernel::Transcript, refused: ()|
            init_run::bind(
                filesystem_registry::offline_run(
                    k,
                    FilesystemProvider::Nullfs,
                    generation,
                    text,
                ),
                |k: kernel::Transcript, offline: ()|
                    probe::message_within_run(
                        k,
                        ready,
                        probe_process,
                        Text::VfsCrashRecoveryMutationFailed,
                        text,
                        PROBE_LOOKS as nat,
                    ),
            ),
    )
}

fn after_crash(
    k: &mut Kernel,
    generation: ProviderGeneration,
    ready: CapabilityHandle,
    probe_process: ProcessId,
) -> (result: Result<(), Halt>)
    ensures
        (final(k)@, result) == after_crash_run(old(k)@, generation, ready, probe_process),
{
    let text = Text::VfsCrashRecoveryProbeFailed;
    refused_offline(
        k,
        kernel_generation(ProviderGeneration { raw: next_number(generation) }),
        text,
    )?;
    offline_filesystem_provider(k, FilesystemProvider::Nullfs, generation, text)?;
    wait_for_probe_message(
        k,
        ready,
        probe_process,
        Text::VfsCrashRecoveryMutationFailed,
        text,
    )
}

/// Whether a service that was replaced is as it must be.
pub open spec fn is_settled(service: supervisor::Service, restart_count: u32) -> bool {
    &&& service.state == ServiceState::Running
    &&& !service.restart_pending
    &&& service.restart_count == restart_count
}

pub(crate) fn settled(service: &ServiceRuntime, restart_count: u32) -> (settled: bool)
    ensures
        settled == is_settled(service@, restart_count),
{
    service.state() == ServiceState::Running && !service.controlled_restart_pending()
        && service.restart_count() == restart_count
}

/// Telling the probe that the service was replaced and waiting for its success.
pub open spec fn finish_crash_run(
    k: kernel::Transcript,
    ready: CapabilityHandle,
    control: CapabilityHandle,
    probe_process: ProcessId,
) -> Run<()> {
    let text = Text::VfsCrashRecoveryProbeFailed;
    init_run::bind(
        init_run::need_run(
            ipc::send_run(k, control, Text::VfsCrashRecoveryReplacement.bytes(), None),
            text,
        ),
        |k: kernel::Transcript, told: ()|
            init_run::bind(
                probe::status_run(k, probe_process, None, text),
                |k: kernel::Transcript, status: u64|
                    if status != 0 {
                        init_run::giving_up(k, text)
                    } else {
                        init_run::bind(
                            close_both_run(k, ready, control, text),
                            |k: kernel::Transcript, closed: ()|
                                init_run::announce_run(k, Text::VfsCrashRecoveryProbePassed),
                        )
                    },
            ),
    )
}

fn finish_crash(
    k: &mut Kernel,
    ready: CapabilityHandle,
    control: CapabilityHandle,
    probe_process: ProcessId,
) -> (result: Result<(), Halt>)
    ensures
        (final(k)@, result) == finish_crash_run(old(k)@, ready, control, probe_process),
{
    let text = Text::VfsCrashRecoveryProbeFailed;
    need(ipc::send(k, control, Text::VfsCrashRecoveryReplacement.as_bytes(), None), text)?;
    let status: u64 = wait_for_status(k, probe_process, None, text)?;
    demand(status == 0, text)?;
    close_both(k, ready, control, text)?;
    announce(k, Text::VfsCrashRecoveryProbePassed)
}

/// Starting the service again after its crash.
pub open spec fn recover_run(
    k: kernel::Transcript,
    nullfs: Nullfs,
    old_generation: ProviderGeneration,
    old_object: u64,
    backoff_yields: u32,
    grants: Seq<BootstrapCapability>,
) -> Run<(Nullfs, ProviderGeneration)> {
    let text = Text::VfsCrashRecoveryProbeFailed;
    init_run::bind(
        renew_run(k, nullfs.resources, old_object, text),
        |k: kernel::Transcript, resources: GenerationResources|
            init_run::bind(
                init_run::backoff_run(k, backoff_yields as nat),
                |k: kernel::Transcript, rested: ()|
                    init_run::bind(
                        replace_run(
                            k,
                            Nullfs { resources, ..nullfs },
                            old_generation,
                            grants,
                            text,
                        ),
                        |k: kernel::Transcript, replaced: (Nullfs, ProviderGeneration)|
                            init_run::end(
                                k,
                                (
                                    Nullfs {
                                        service: replaced.0.service.complete_restart(),
                                        ..replaced.0
                                    },
                                    replaced.1,
                                ),
                            ),
                    ),
            ),
    )
}

fn recover(
    k: &mut Kernel,
    service: &mut ServiceRuntime,
    generations: &mut ProviderGenerationSequence,
    resources: &mut GenerationResources,
    old_generation: ProviderGeneration,
    old_object: u64,
    backoff_yields: u32,
    grants: &[BootstrapCapability],
) -> (result: Result<ProviderGeneration, Halt>)
    ensures
        ({
            let (asked, outcome) = recover_run(
                old(k)@,
                Nullfs {
                    service: old(service)@,
                    generations: old(generations)@,
                    resources: *old(resources),
                },
                old_generation,
                old_object,
                backoff_yields,
                grants@,
            );
            &&& final(k)@ == asked
            &&& init_run::came_to(
                outcome,
                Nullfs {
                    service: final(service)@,
                    generations: final(generations)@,
                    resources: *final(resources),
                },
                result,
            )
        }),
{
    let text = Text::VfsCrashRecoveryProbeFailed;
    *resources = renew(k, *resources, old_object, text)?;
    backoff(k, backoff_yields)?;
    let generation = replace(k, service, generations, resources, old_generation, grants, text)?;
    service.complete_restart();
    Ok(generation)
}

/// Having the service crash in the middle of a change, and starting it again.
pub open spec fn crash_recovery_run(
    k: kernel::Transcript,
    nullfs: Nullfs,
    old_generation: ProviderGeneration,
    grants: Seq<BootstrapCapability>,
    hook: CapabilityHandle,
) -> Run<(Nullfs, ProviderGeneration)> {
    let text = Text::VfsCrashRecoveryProbeFailed;
    match nullfs.service.process_id {
        None => init_run::giving_up(k, text),
        Some(old_process) => init_run::bind(
            object_run(k, nullfs.resources.request_endpoint, text),
            |k: kernel::Transcript, old_object: u64|
                init_run::bind(
                    launch_pair_run(k, Text::VfsCrashRecoveryProbeCommand, text),
                    |
                        k: kernel::Transcript,
                        launched: (CapabilityHandle, CapabilityHandle, ProcessId),
                    |
                        init_run::bind(
                            probe::message_within_run(
                                k,
                                launched.0,
                                launched.2,
                                Text::VfsCrashRecoveryReady,
                                text,
                                PROBE_LOOKS as nat,
                            ),
                            |k: kernel::Transcript, heard: ()|
                                crash_and_recover_run(
                                    k,
                                    nullfs,
                                    old_generation,
                                    old_process,
                                    old_object,
                                    launched,
                                    grants,
                                    hook,
                                ),
                        ),
                ),
        ),
    }
}

/// Everything from the crash on.
pub open spec fn crash_and_recover_run(
    k: kernel::Transcript,
    nullfs: Nullfs,
    old_generation: ProviderGeneration,
    old_process: ProcessId,
    old_object: u64,
    launched: (CapabilityHandle, CapabilityHandle, ProcessId),
    grants: Seq<BootstrapCapability>,
    hook: CapabilityHandle,
) -> Run<(Nullfs, ProviderGeneration)> {
    let text = Text::VfsCrashRecoveryProbeFailed;
    init_run::bind(
        crash_run(
            k,
            nullfs.resources.readiness_endpoint,
            old_process,
            launched.2,
            old_generation,
            hook,
            launched.1,
        ),
        |k: kernel::Transcript, status: u64|
            init_run::bind(
                contained_service::must_drain_run(k, nullfs.resources.job, text),
                |k: kernel::Transcript, job: ContainedServiceJob|
                    match charged_restart(nullfs.service, status) {
                        Err(halt) => (k, Err(halt)),
                        Ok((service, backoff_yields)) => settle_crash_run(
                            k,
                            Nullfs {
                                service,
                                resources: GenerationResources { job, ..nullfs.resources },
                                ..nullfs
                            },
                            old_generation,
                            old_object,
                            backoff_yields,
                            launched,
                            grants,
                        ),
                    },
            ),
    )
}

/// Everything from the end of the crashed process on.
pub open spec fn settle_crash_run(
    k: kernel::Transcript,
    nullfs: Nullfs,
    old_generation: ProviderGeneration,
    old_object: u64,
    backoff_yields: u32,
    launched: (CapabilityHandle, CapabilityHandle, ProcessId),
    grants: Seq<BootstrapCapability>,
) -> Run<(Nullfs, ProviderGeneration)> {
    init_run::bind(
        after_crash_run(k, old_generation, launched.0, launched.2),
        |k: kernel::Transcript, cleared: ()|
            init_run::bind(
                recover_run(k, nullfs, old_generation, old_object, backoff_yields, grants),
                |k: kernel::Transcript, recovered: (Nullfs, ProviderGeneration)|
                    if !is_settled(recovered.0.service, nullfs.service.restart_count) {
                        init_run::giving_up(k, Text::VfsCrashRecoveryProbeFailed)
                    } else {
                        init_run::bind(
                            finish_crash_run(k, launched.0, launched.1, launched.2),
                            |k: kernel::Transcript, finished: ()| init_run::end(k, recovered),
                        )
                    },
            ),
    )
}

pub fn run_nullfs_crash_recovery_probe(
    k: &mut Kernel,
    nullfs_service: &mut ServiceRuntime,
    old_generation: ProviderGeneration,
    generations: &mut ProviderGenerationSequence,
    resources: &mut GenerationResources,
    bootstrap_capabilities: &[BootstrapCapability],
    crash_hook_endpoint: CapabilityHandle,
) -> (result: Result<ProviderGeneration, Halt>)
    ensures
        ({
            let (asked, outcome) = crash_recovery_run(
                old(k)@,
                Nullfs {
                    service: old(nullfs_service)@,
                    generations: old(generations)@,
                    resources: *old(resources),
                },
                old_generation,
                bootstrap_capabilities@,
                crash_hook_endpoint,
            );
            &&& final(k)@ == asked
            &&& init_run::came_to(
                outcome,
                Nullfs {
                    service: final(nullfs_service)@,
                    generations: final(generations)@,
                    resources: *final(resources),
                },
                result,
            )
        }),
{
    let text = Text::VfsCrashRecoveryProbeFailed;
    let old_process: u64 = match nullfs_service.process_id() {
        Some(process_id) => process_id,
        None => {
            return Err(Halt::Failed(text));
        },
    };
    let old_object: u64 = object_of(k, resources.request_endpoint, text)?;
    let (ready, control, probe_process) = launch_pair(
        k,
        Text::VfsCrashRecoveryProbeCommand,
        text,
    )?;
    wait_for_probe_message(k, ready, probe_process, Text::VfsCrashRecoveryReady, text)?;
    let status: u64 = crash(
        k,
        resources.readiness_endpoint,
        old_process,
        probe_process,
        old_generation,
        crash_hook_endpoint,
        control,
    )?;
    must_drain(k, &mut resources.job, text)?;
    let backoff_yields: u32 = observe_crash(nullfs_service, status)?;
    let restart_count: u32 = nullfs_service.restart_count();
    after_crash(k, old_generation, ready, probe_process)?;
    let generation = recover(
        k,
        nullfs_service,
        generations,
        resources,
        old_generation,
        old_object,
        backoff_yields,
        bootstrap_capabilities,
    )?;
    demand(settled(nullfs_service, restart_count), text)?;
    finish_crash(k, ready, control, probe_process)?;
    Ok(generation)
}

/// Taking the device away: a wrong generation is refused, the right one is taken exactly once,
/// and the device cannot be opened any more.
pub open spec fn lose_device_run(k: kernel::Transcript, block_generation: u64) -> Run<bool> {
    if block_generation == u64::MAX {
        init_run::giving_up(k, Text::VfsBlockDeviceLossProbeFailed)
    } else {
        init_run::bind(
            init_run::hear_run(offline_device_run(k, (block_generation + 1) as u64)),
            |k: kernel::Transcript, wrong: Result<(), Errno>|
                if !is_invalid(wrong) {
                    init_run::end(k, false)
                } else {
                    init_run::bind(
                        init_run::hear_run(offline_device_run(k, block_generation)),
                        |k: kernel::Transcript, right: Result<(), Errno>|
                            if right is Err {
                                init_run::end(k, false)
                            } else {
                                init_run::bind(
                                    init_run::hear_run(offline_device_run(k, block_generation)),
                                    |k: kernel::Transcript, again: Result<(), Errno>|
                                        if !is_invalid(again) {
                                            init_run::end(k, false)
                                        } else {
                                            reopen_run(k)
                                        },
                                )
                            },
                    )
                },
        )
    }
}

/// Taking one generation of the device offline.
pub open spec fn offline_device_run(k: kernel::Transcript, generation: u64) -> (
    kernel::Transcript,
    Option<Result<(), Errno>>,
) {
    platform::unit_run(
        k,
        Op::OfflineWritableBlockDevice { generation },
        NULLFS_PRIMARY_VOLUME@,
    )
}

/// Whether the device cannot be opened.
pub open spec fn reopen_run(k: kernel::Transcript) -> Run<bool> {
    init_run::bind(
        init_run::hear_run(
            platform::value_bytes_run(k, Op::OpenWritableBlockDevice, NULLFS_PRIMARY_VOLUME@),
        ),
        |k: kernel::Transcript, opened: Result<u64, Errno>|
            init_run::end(k, opened == Err::<u64, _>(Errno::io())),
    )
}

fn lose_device(k: &mut Kernel, block_generation: u64) -> (result: Result<bool, Halt>)
    ensures
        (final(k)@, result) == lose_device_run(old(k)@, block_generation),
{
    if block_generation == u64::MAX {
        return Err(Halt::Failed(Text::VfsBlockDeviceLossProbeFailed));
    }
    let volume = NULLFS_PRIMARY_VOLUME;
    let wrong = hear(
        platform::offline_writable_nullfs_block_device_endpoint(
            k,
            &volume,
            block_generation + 1,
        ),
    )?;
    if !is_invalid(wrong) {
        return Ok(false);
    }
    let right = hear(
        platform::offline_writable_nullfs_block_device_endpoint(k, &volume, block_generation),
    )?;
    if right.is_err() {
        return Ok(false);
    }
    let again = hear(
        platform::offline_writable_nullfs_block_device_endpoint(k, &volume, block_generation),
    )?;
    if !is_invalid(again) {
        return Ok(false);
    }
    match hear(platform::open_writable_nullfs_block_device_endpoint(k, &volume))? {
        Ok(_) => Ok(false),
        Err(error) => Ok(error == Errno::io()),
    }
}

/// Running the probe of a lost device until it is ready.
pub open spec fn loss_probe_run(k: kernel::Transcript, vfs_endpoint: CapabilityHandle) -> Run<
    (CapabilityHandle, CapabilityHandle, ProcessId),
> {
    let text = Text::VfsBlockDeviceLossProbeFailed;
    init_run::bind(
        contained_service::create_endpoints_run(k, text),
        |k: kernel::Transcript, endpoints: (CapabilityHandle, CapabilityHandle)|
            init_run::bind(
                probe::launch_run(
                    k,
                    Text::VfsBlockDeviceLossProbeCommand,
                    false,
                    seq![
                        sending(vfs_endpoint, 1),
                        sending(endpoints.0, 2),
                        receiving(endpoints.1, 3),
                    ],
                    text,
                ),
                |k: kernel::Transcript, process_id: u64|
                    init_run::bind(
                        probe::message_within_run(
                            k,
                            endpoints.0,
                            process_id,
                            Text::VfsBlockDeviceLossProbeReady,
                            text,
                            PROBE_LOOKS as nat,
                        ),
                        |k: kernel::Transcript, heard: ()|
                            init_run::end(k, (endpoints.0, endpoints.1, process_id)),
                    ),
            ),
    )
}

fn launch_loss_probe(k: &mut Kernel, vfs_endpoint: CapabilityHandle) -> (result: Result<
    (CapabilityHandle, CapabilityHandle, ProcessId),
    Halt,
>)
    ensures
        (final(k)@, result) == loss_probe_run(old(k)@, vfs_endpoint),
{
    let text = Text::VfsBlockDeviceLossProbeFailed;
    let (ready, control) = contained_service::create_endpoints(k, text)?;
    let grants: [BootstrapCapability; 3] = [
        sending(vfs_endpoint, 1),
        sending(ready, 2),
        receiving(control, 3),
    ];
    assert(grants@ =~= seq![
        sending(vfs_endpoint, 1),
        sending(ready, 2),
        receiving(control, 3),
    ]);
    let process_id: u64 = launch_tool(
        k,
        Text::VfsBlockDeviceLossProbeCommand,
        false,
        &grants,
        text,
    )?;
    wait_for_probe_message(k, ready, process_id, Text::VfsBlockDeviceLossProbeReady, text)?;
    Ok((ready, control, process_id))
}

/// Telling the probe that the device is gone, and waiting for the service to exit over it.
pub open spec fn loss_seen_run(
    k: kernel::Transcript,
    launched: (CapabilityHandle, CapabilityHandle, ProcessId),
    service_process: ProcessId,
) -> Run<()> {
    let text = Text::VfsBlockDeviceLossProbeFailed;
    init_run::bind(
        init_run::announce_run(k, Text::VfsBlockDeviceLossInjected),
        |k: kernel::Transcript, said: ()|
            init_run::bind(
                init_run::need_run(
                    ipc::send_run(
                        k,
                        launched.1,
                        Text::VfsBlockDeviceLossProviderOfflined.bytes(),
                        None,
                    ),
                    text,
                ),
                |k: kernel::Transcript, told: ()|
                    init_run::bind(
                        probe::message_within_run(
                            k,
                            launched.0,
                            launched.2,
                            Text::VfsBlockDeviceLossMutationFailed,
                            text,
                            PROBE_LOOKS as nat,
                        ),
                        |k: kernel::Transcript, heard: ()|
                            init_run::bind(
                                probe::status_within_run(
                                    k,
                                    service_process,
                                    Some(launched.2),
                                    text,
                                    PROBE_LOOKS as nat,
                                ),
                                |k: kernel::Transcript, status: Option<u64>|
                                    init_run::demand_run(
                                        k,
                                        status == Some(DEVICE_LOSS_STATUS),
                                        text,
                                    ),
                            ),
                    ),
            ),
    )
}

#[verifier::allow_in_spec]
pub fn is_status(status: Option<u64>, expected: u64) -> bool
    returns
        status == Some(expected),
{
    match status {
        Some(status) => status == expected,
        None => false,
    }
}

fn see_loss(
    k: &mut Kernel,
    launched: (CapabilityHandle, CapabilityHandle, ProcessId),
    service_process: ProcessId,
) -> (result: Result<(), Halt>)
    ensures
        (final(k)@, result) == loss_seen_run(old(k)@, launched, service_process),
{
    let text = Text::VfsBlockDeviceLossProbeFailed;
    announce(k, Text::VfsBlockDeviceLossInjected)?;
    need(
        ipc::send(k, launched.1, Text::VfsBlockDeviceLossProviderOfflined.as_bytes(), None),
        text,
    )?;
    wait_for_probe_message(
        k,
        launched.0,
        launched.2,
        Text::VfsBlockDeviceLossMutationFailed,
        text,
    )?;
    let status = wait_for_status_within(k, service_process, Some(launched.2), text)?;
    demand(is_status(status, DEVICE_LOSS_STATUS), text)
}

/// Telling the probe that the filesystem is offline and waiting for its success.
pub open spec fn loss_finished_run(
    k: kernel::Transcript,
    launched: (CapabilityHandle, CapabilityHandle, ProcessId),
) -> Run<()> {
    let text = Text::VfsBlockDeviceLossProbeFailed;
    init_run::bind(
        init_run::need_run(
            ipc::send_run(
                k,
                launched.1,
                Text::VfsBlockDeviceLossFilesystemOfflined.bytes(),
                None,
            ),
            text,
        ),
        |k: kernel::Transcript, told: ()|
            init_run::bind(
                probe::status_within_run(k, launched.2, None, text, PROBE_LOOKS as nat),
                |k: kernel::Transcript, status: Option<u64>|
                    if status != Some(0u64) {
                        init_run::giving_up(k, text)
                    } else {
                        init_run::bind(
                            close_both_run(k, launched.0, launched.1, text),
                            |k: kernel::Transcript, closed: ()|
                                init_run::announce_run(k, Text::VfsBlockDeviceLossProbePassed),
                        )
                    },
            ),
    )
}

fn finish_loss(k: &mut Kernel, launched: (CapabilityHandle, CapabilityHandle, ProcessId)) -> (result:
    Result<(), Halt>)
    ensures
        (final(k)@, result) == loss_finished_run(old(k)@, launched),
{
    let text = Text::VfsBlockDeviceLossProbeFailed;
    need(
        ipc::send(k, launched.1, Text::VfsBlockDeviceLossFilesystemOfflined.as_bytes(), None),
        text,
    )?;
    let status = wait_for_status_within(k, launched.2, None, text)?;
    demand(is_status(status, 0), text)?;
    close_both(k, launched.0, launched.1, text)?;
    announce(k, Text::VfsBlockDeviceLossProbePassed)
}

/// Taking the device away under the service and looking at what becomes of it: what is left of
/// its job.
pub open spec fn device_loss_run(
    k: kernel::Transcript,
    service: supervisor::Service,
    generation: ProviderGeneration,
    job: ContainedServiceJob,
    vfs_endpoint: CapabilityHandle,
    block_endpoint: CapabilityHandle,
) -> Run<ContainedServiceJob> {
    let text = Text::VfsBlockDeviceLossProbeFailed;
    match service.process_id {
        None => init_run::giving_up(k, text),
        Some(service_process) => init_run::bind(
            object_run(k, block_endpoint, text),
            |k: kernel::Transcript, block_generation: u64|
                if block_generation == 0 {
                    init_run::giving_up(k, text)
                } else {
                    init_run::bind(
                        loss_probe_run(k, vfs_endpoint),
                        |
                            k: kernel::Transcript,
                            launched: (CapabilityHandle, CapabilityHandle, ProcessId),
                        |
                            init_run::bind(
                                lose_device_run(k, block_generation),
                                |k: kernel::Transcript, lost: bool|
                                    if !lost {
                                        init_run::giving_up(k, text)
                                    } else {
                                        after_loss_run(
                                            k,
                                            service_process,
                                            generation,
                                            job,
                                            launched,
                                        )
                                    },
                            ),
                    )
                },
        ),
    }
}

/// Everything from the loss of the device on.
pub open spec fn after_loss_run(
    k: kernel::Transcript,
    service_process: ProcessId,
    generation: ProviderGeneration,
    job: ContainedServiceJob,
    launched: (CapabilityHandle, CapabilityHandle, ProcessId),
) -> Run<ContainedServiceJob> {
    let text = Text::VfsBlockDeviceLossProbeFailed;
    init_run::bind(
        loss_seen_run(k, launched, service_process),
        |k: kernel::Transcript, seen: ()|
            init_run::bind(
                contained_service::must_drain_run(k, job, text),
                |k: kernel::Transcript, drained: ContainedServiceJob|
                    init_run::bind(
                        filesystem_registry::offline_run(
                            k,
                            FilesystemProvider::Nullfs,
                            generation,
                            text,
                        ),
                        |k: kernel::Transcript, offline: ()|
                            init_run::bind(
                                loss_finished_run(k, launched),
                                |k: kernel::Transcript, finished: ()|
                                    init_run::end(k, drained),
                            ),
                    ),
            ),
    )
}

pub fn run_nullfs_block_device_loss_probe(
    k: &mut Kernel,
    nullfs_service: &ServiceRuntime,
    nullfs_generation: ProviderGeneration,
    job: &mut ContainedServiceJob,
    vfs_request_endpoint: CapabilityHandle,
    block_endpoint: CapabilityHandle,
) -> (result: Result<(), Halt>)
    ensures
        ({
            let (asked, outcome) = device_loss_run(
                old(k)@,
                nullfs_service@,
                nullfs_generation,
                *old(job),
                vfs_request_endpoint,
                block_endpoint,
            );
            &&& final(k)@ == asked
            &&& match result {
                Ok(_) => outcome == Ok::<_, Halt>(*final(job)),
                Err(halt) => outcome == Err::<ContainedServiceJob, _>(halt),
            }
        }),
{
    let text = Text::VfsBlockDeviceLossProbeFailed;
    let service_process: u64 = match nullfs_service.process_id() {
        Some(process_id) => process_id,
        None => {
            return Err(Halt::Failed(text));
        },
    };
    let block_generation: u64 = object_of(k, block_endpoint, text)?;
    if block_generation == 0 {
        return Err(Halt::Failed(text));
    }
    let launched = launch_loss_probe(k, vfs_request_endpoint)?;
    let lost = lose_device(k, block_generation)?;
    demand(lost, text)?;
    see_loss(k, launched, service_process)?;
    must_drain(k, job, text)?;
    offline_filesystem_provider(k, FilesystemProvider::Nullfs, nullfs_generation, text)?;
    finish_loss(k, launched)
}

/// A service that was replaced has the generation whose number was given out last, and that is
/// the one after the old generation.
pub proof fn lemma_replacement_is_numbered(
    k: kernel::Transcript,
    nullfs: Nullfs,
    old_generation: ProviderGeneration,
    grants: Seq<BootstrapCapability>,
    text: Text,
)
    ensures
        replace_run(k, nullfs, old_generation, grants, text).1 matches Ok((next, generation))
            ==> generation.raw == next.generations && generation.raw == next_number(old_generation),
{
    let starting = contained_service::Starting {
        service: nullfs.service,
        generations: nullfs.generations,
        readiness: nullfs.resources.readiness_endpoint,
        request: nullfs.resources.request_endpoint,
    };
    if contained_service::start_run(
        k,
        starting,
        grants,
        nullfs_messages(),
        nullfs_containment(),
    ).1 is Ok {
        contained_service::lemma_started_service_has_a_newer_generation(
            k,
            starting,
            grants,
            nullfs_messages(),
            nullfs_containment(),
        );
    }
}

proof fn lemma_recovery_is_numbered(
    k: kernel::Transcript,
    nullfs: Nullfs,
    old_generation: ProviderGeneration,
    old_object: u64,
    backoff_yields: u32,
    grants: Seq<BootstrapCapability>,
)
    ensures
        recover_run(
            k,
            nullfs,
            old_generation,
            old_object,
            backoff_yields,
            grants,
        ).1 matches Ok((next, generation)) ==> generation.raw == next.generations
            && generation.raw == next_number(old_generation),
{
    let text = Text::VfsCrashRecoveryProbeFailed;
    if let (renewed, Ok(resources)) = renew_run(k, nullfs.resources, old_object, text) {
        let (rested, _) = init_run::backoff_run(renewed, backoff_yields as nat);
        lemma_replacement_is_numbered(
            rested,
            Nullfs { resources, ..nullfs },
            old_generation,
            grants,
            text,
        );
    }
}

proof fn lemma_settled_crash_is_numbered(
    k: kernel::Transcript,
    nullfs: Nullfs,
    old_generation: ProviderGeneration,
    old_object: u64,
    backoff_yields: u32,
    launched: (CapabilityHandle, CapabilityHandle, ProcessId),
    grants: Seq<BootstrapCapability>,
)
    ensures
        settle_crash_run(
            k,
            nullfs,
            old_generation,
            old_object,
            backoff_yields,
            launched,
            grants,
        ).1 matches Ok((next, generation)) ==> generation.raw == next.generations
            && generation.raw == next_number(old_generation),
{
    let (cleared, _) = after_crash_run(k, old_generation, launched.0, launched.2);
    lemma_recovery_is_numbered(
        cleared,
        nullfs,
        old_generation,
        old_object,
        backoff_yields,
        grants,
    );
}

proof fn lemma_crash_is_numbered(
    k: kernel::Transcript,
    nullfs: Nullfs,
    old_generation: ProviderGeneration,
    old_process: ProcessId,
    old_object: u64,
    launched: (CapabilityHandle, CapabilityHandle, ProcessId),
    grants: Seq<BootstrapCapability>,
    hook: CapabilityHandle,
)
    ensures
        crash_and_recover_run(
            k,
            nullfs,
            old_generation,
            old_process,
            old_object,
            launched,
            grants,
            hook,
        ).1 matches Ok((next, generation)) ==> generation.raw == next.generations
            && generation.raw == next_number(old_generation),
{
    let text = Text::VfsCrashRecoveryProbeFailed;
    let (crashed, status) = crash_run(
        k,
        nullfs.resources.readiness_endpoint,
        old_process,
        launched.2,
        old_generation,
        hook,
        launched.1,
    );
    if let Ok(status) = status {
        if let (drained, Ok(job)) = contained_service::must_drain_run(
            crashed,
            nullfs.resources.job,
            text,
        ) {
            if let Ok((service, backoff_yields)) = charged_restart(nullfs.service, status) {
                lemma_settled_crash_is_numbered(
                    drained,
                    Nullfs {
                        service,
                        resources: GenerationResources { job, ..nullfs.resources },
                        ..nullfs
                    },
                    old_generation,
                    old_object,
                    backoff_yields,
                    launched,
                    grants,
                );
            }
        }
    }
}

/// A service that recovered from its crash has the next generation, and the number of that was
/// given out last.
pub proof fn lemma_recovered_service_has_the_next_generation(
    k: kernel::Transcript,
    nullfs: Nullfs,
    old_generation: ProviderGeneration,
    grants: Seq<BootstrapCapability>,
    hook: CapabilityHandle,
)
    ensures
        crash_recovery_run(k, nullfs, old_generation, grants, hook).1 matches Ok(
            (next, generation),
        ) ==> generation.raw == next.generations && generation.raw == next_number(old_generation),
{
    let text = Text::VfsCrashRecoveryProbeFailed;
    if let Some(old_process) = nullfs.service.process_id {
        if let (first, Ok(old_object)) = object_run(k, nullfs.resources.request_endpoint, text) {
            if let (second, Ok(launched)) = launch_pair_run(
                first,
                Text::VfsCrashRecoveryProbeCommand,
                text,
            ) {
                let (third, _) = probe::message_within_run(
                    second,
                    launched.0,
                    launched.2,
                    Text::VfsCrashRecoveryReady,
                    text,
                    PROBE_LOOKS as nat,
                );
                lemma_crash_is_numbered(
                    third,
                    nullfs,
                    old_generation,
                    old_process,
                    old_object,
                    launched,
                    grants,
                    hook,
                );
            }
        }
    }
}

} // verus!
