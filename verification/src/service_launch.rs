//! What a service is told when it is launched: its capabilities, who it is, and why it runs.

use crate::abi::{MAX_ARGUMENTS, MAX_ARGUMENT_BYTES, MAX_IPC_MESSAGE_HANDLES};
use crate::command_line;
use crate::command_line::{numeric_service_id, split_command};
use crate::control_protocol::ServiceId;
use crate::identity::ProviderGeneration;
use crate::ipc::{CapabilityHandle, Rights};
use crate::kernel;
use crate::kernel::{Kernel, Op};
use crate::managed_startup;
use crate::managed_startup::{
    send_capabilities, send_start, ManagedServiceIdentity, ManagedToolCapability,
    ManagedToolStartSendError, SYSTEM_NAMESPACE_PROFILE_ID, SYSTEM_PACKAGE_GENERATION,
    SYSTEM_PACKAGE_ID,
};
use crate::platform;
use crate::procedure;
use crate::process_start::StartupTransportError;
use crate::service_cleanup::Service;
use crate::service_control::{tmpfs_service_id, vfs_service_id};
use crate::startup_environment;
use crate::startup_environment::encode_startup_environment;
use crate::startup_record::{CapabilityRole, StartupRuntimeRole};
use crate::startup_sections;
use crate::startup_sections::{
    encode_startup_arguments, StartupIdentity, StartupLaunch, StartupLaunchReason,
};
use crate::startup_transport;
use crate::syscall::ProcessId;
use vstd::prelude::*;

verus! {

pub const TMPFS_EXECUTABLE_ID: u64 = 3;

pub const VFS_EXECUTABLE_ID: u64 = 4;

/// The number of a service.
pub open spec fn service_number(service: ServiceId) -> u64 {
    crate::bytes::u64_at(service.bytes(), 0)
}

/// Who a service is that is launched with a managed start. Other services are launched with
/// granted handles alone.
pub open spec fn containment_identity(service: Service) -> Option<ManagedServiceIdentity> {
    match service {
        Service::Tmpfs => Some(
            ManagedServiceIdentity {
                executable: TMPFS_EXECUTABLE_ID,
                service: service_number(tmpfs_service_id()),
                component: TMPFS_EXECUTABLE_ID,
            },
        ),
        Service::Vfs => Some(
            ManagedServiceIdentity {
                executable: VFS_EXECUTABLE_ID,
                service: service_number(vfs_service_id()),
                component: VFS_EXECUTABLE_ID,
            },
        ),
        _ => None,
    }
}

pub fn managed_containment_identity(service: Service) -> (identity: Option<ManagedServiceIdentity>)
    ensures
        identity == containment_identity(service),
{
    let (executable, service): (u64, ServiceId) = match service {
        Service::Tmpfs => (TMPFS_EXECUTABLE_ID, tmpfs_service_id()),
        Service::Vfs => (VFS_EXECUTABLE_ID, vfs_service_id()),
        _ => {
            return None;
        },
    };
    Some(
        ManagedServiceIdentity::new(
            executable,
            numeric_service_id(service.as_bytes()),
            executable,
        ),
    )
}

/// Describing a start: the sections are sent with the time of now. Whether every part fitted and
/// was sent.
pub open spec fn describe_run(
    k: kernel::Transcript,
    sender: CapabilityHandle,
    identity: StartupIdentity,
    arguments: Seq<Seq<u8>>,
    launch: StartupLaunch,
) -> (kernel::Transcript, Option<bool>) {
    if !managed_startup::arguments_encodable(arguments) {
        procedure::done(k, false)
    } else {
        procedure::after(
            platform::value_run(k, Op::MonotonicTime),
            |k: kernel::Transcript, time: Result<u64, platform::Errno>|
                match time {
                    Err(_) => procedure::done(k, false),
                    Ok(now) => procedure::after(
                        startup_transport::send_data_run(
                            k,
                            sender,
                            managed_startup::start_sections(
                                identity,
                                arguments,
                                seq![],
                                StartupLaunch { monotonic_start_ns: now, ..launch },
                            ),
                        ),
                        |k: kernel::Transcript, sent: Result<(), StartupTransportError>|
                            procedure::done(k, sent is Ok),
                    ),
                },
        )
    }
}

fn describe_start(
    k: &mut Kernel,
    sender: CapabilityHandle,
    identity: StartupIdentity,
    arguments: &[&[u8]],
    launch: StartupLaunch,
) -> (result: Option<bool>)
    ensures
        (final(k)@, result) == describe_run(
            old(k)@,
            sender,
            identity,
            startup_sections::argument_views(arguments@),
            launch,
        ),
{
    let ghost spelled = startup_sections::argument_views(arguments@);
    let mut argument_bytes: [u8; MAX_ARGUMENT_BYTES] = [0;MAX_ARGUMENT_BYTES];
    let argument_length: usize = match encode_startup_arguments(arguments, &mut argument_bytes) {
        Ok(length) => length,
        Err(_) => {
            return Some(false);
        },
    };
    let nothing: [(&[u8], &[u8]); 0] = [];
    let ghost entries = startup_environment::entry_views(nothing@);
    assert(entries =~= seq![]);
    let mut environment_bytes: [u8; 4] = [0;4];
    let environment_length: usize = match encode_startup_environment(
        &nothing,
        &mut environment_bytes,
    ) {
        Ok(length) => length,
        Err(_) => {
            assert(startup_environment::environment_fits(entries, 0, 4));
            return Some(false);
        },
    };
    let now: u64 = match platform::monotonic_time_ns(k)? {
        Ok(now) => now,
        Err(_) => {
            return Some(false);
        },
    };
    let launch = StartupLaunch { monotonic_start_ns: now, ..launch };
    let sent = send_start(
        k,
        sender,
        identity,
        &argument_bytes.as_slice()[0..argument_length],
        &environment_bytes.as_slice()[0..environment_length],
        launch,
        Ghost(spelled),
        Ghost(entries),
    )?;
    Some(sent.is_ok())
}

/// The identity section of a managed service.
#[verifier::allow_in_spec]
pub fn managed_identity(process_id: ProcessId, identity: ManagedServiceIdentity) -> StartupIdentity
    returns
        (StartupIdentity {
            process: process_id,
            package: SYSTEM_PACKAGE_ID,
            package_generation: SYSTEM_PACKAGE_GENERATION,
            executable: identity.executable,
            application: 0,
            service: identity.service,
            component: identity.component,
            user: 0,
            session: 0,
        }),
{
    StartupIdentity {
        process: process_id,
        package: SYSTEM_PACKAGE_ID,
        package_generation: SYSTEM_PACKAGE_GENERATION,
        executable: identity.executable,
        application: 0,
        service: identity.service,
        component: identity.component,
        user: 0,
        session: 0,
    }
}

/// The number of this attempt: one more than the restarts before it, as far as it can be counted.
#[verifier::allow_in_spec]
pub fn attempt_number(restart_count: u32) -> u32
    returns
        (if restart_count == u32::MAX {
            u32::MAX
        } else {
            (restart_count + 1) as u32
        }),
{
    if restart_count == u32::MAX {
        u32::MAX
    } else {
        restart_count + 1
    }
}

/// The launch section of a service, without its time.
#[verifier::allow_in_spec]
pub fn service_launch(generation: ProviderGeneration, restart_count: u32, first: bool) -> StartupLaunch
    returns
        (StartupLaunch {
            launch: generation.raw,
            manager_generation: generation.raw,
            namespace_profile: SYSTEM_NAMESPACE_PROFILE_ID,
            monotonic_start_ns: 0,
            attempt: attempt_number(restart_count),
            reason: if first {
                StartupLaunchReason::Activation
            } else {
                StartupLaunchReason::Restart
            },
            flags: 0,
        }),
{
    StartupLaunch {
        launch: generation.get(),
        manager_generation: generation.get(),
        namespace_profile: SYSTEM_NAMESPACE_PROFILE_ID,
        monotonic_start_ns: 0,
        attempt: attempt_number(restart_count),
        reason: if first {
            StartupLaunchReason::Activation
        } else {
            StartupLaunchReason::Restart
        },
        flags: 0,
    }
}

/// Sending a managed service its capabilities and its start. Whether all of it was sent.
pub open spec fn managed_start_run(
    k: kernel::Transcript,
    sender: CapabilityHandle,
    command: Seq<u8>,
    process_id: ProcessId,
    generation: ProviderGeneration,
    restart_count: u32,
    identity: ManagedServiceIdentity,
    capabilities: Seq<ManagedToolCapability>,
) -> (kernel::Transcript, Option<bool>) {
    if capabilities.len() == 0 || capabilities.len() > MAX_IPC_MESSAGE_HANDLES {
        procedure::done(k, false)
    } else {
        procedure::after(
            managed_startup::send_capabilities_run(
                k,
                sender,
                StartupRuntimeRole::Service,
                capabilities,
            ),
            |k: kernel::Transcript, sent: Result<(), ManagedToolStartSendError>|
                {
                    let words = command_line::words_from(command, 0);
                    if sent is Err || words.len() == 0 || words.len() > MAX_ARGUMENTS {
                        procedure::done(k, false)
                    } else {
                        describe_run(
                            k,
                            sender,
                            managed_identity(process_id, identity),
                            words,
                            service_launch(generation, restart_count, generation.raw == 1),
                        )
                    }
                },
        )
    }
}

/// Sends a managed service its capabilities, then who it is and why it runs.
pub fn send_managed_service_process_start<const N: usize>(
    k: &mut Kernel,
    sender: CapabilityHandle,
    command: &[u8],
    process_id: ProcessId,
    generation: ProviderGeneration,
    restart_count: u32,
    identity: ManagedServiceIdentity,
    capabilities: &[ManagedToolCapability; N],
) -> (result: Option<bool>)
    ensures
        (final(k)@, result) == managed_start_run(
            old(k)@,
            sender,
            command@,
            process_id,
            generation,
            restart_count,
            identity,
            capabilities@,
        ),
{
    if N == 0 || N > MAX_IPC_MESSAGE_HANDLES {
        return Some(false);
    }
    if send_capabilities(k, sender, StartupRuntimeRole::Service, capabilities)?.is_err() {
        return Some(false);
    }
    let words = match split_command(command) {
        Some(words) => words,
        None => {
            return Some(false);
        },
    };
    assert(startup_sections::argument_views(words@) =~= command_line::word_views(words@));
    describe_start(
        k,
        sender,
        managed_identity(process_id, identity),
        words.as_slice(),
        service_launch(generation, restart_count, generation.get() == 1),
    )
}

/// The identities of the service that is launched from a definition.
pub const DEFINITION_EXECUTABLE_ID: u64 = 5;

pub const DEFINITION_SERVICE_NUMBER: u64 = 5;

pub const DEFINITION_COMPONENT_ID: u64 = 5;

/// The identity section of the service that is launched from a definition.
#[verifier::allow_in_spec]
pub fn definition_identity(process_id: ProcessId, generation: ProviderGeneration) -> StartupIdentity
    returns
        (StartupIdentity {
            process: process_id,
            package: SYSTEM_PACKAGE_ID,
            package_generation: generation.raw,
            executable: DEFINITION_EXECUTABLE_ID,
            application: 0,
            service: DEFINITION_SERVICE_NUMBER,
            component: DEFINITION_COMPONENT_ID,
            user: 0,
            session: 0,
        }),
{
    StartupIdentity {
        process: process_id,
        package: SYSTEM_PACKAGE_ID,
        package_generation: generation.get(),
        executable: DEFINITION_EXECUTABLE_ID,
        application: 0,
        service: DEFINITION_SERVICE_NUMBER,
        component: DEFINITION_COMPONENT_ID,
        user: 0,
        session: 0,
    }
}

/// What a service gets that is launched from a definition: where its generation comes from and,
/// if it says when it is ready, where to say so.
pub open spec fn definition_capabilities(
    generation_source: CapabilityHandle,
    readiness: Option<CapabilityHandle>,
) -> Seq<ManagedToolCapability> {
    let generation = ManagedToolCapability {
        source_handle: generation_source,
        rights: Rights::receive(),
        role: CapabilityRole::service_generation(),
    };
    match readiness {
        None => seq![generation],
        Some(readiness) => seq![
            generation,
            ManagedToolCapability {
                source_handle: readiness,
                rights: Rights::send(),
                role: CapabilityRole::readiness(),
            },
        ],
    }
}

/// Sending a service that is launched from a definition its capabilities and its start.
pub open spec fn definition_start_run(
    k: kernel::Transcript,
    sender: Option<CapabilityHandle>,
    generation_source: Option<CapabilityHandle>,
    readiness: Option<CapabilityHandle>,
    arguments: Seq<Seq<u8>>,
    process_id: ProcessId,
    generation: ProviderGeneration,
    restart_count: u32,
) -> (kernel::Transcript, Option<bool>) {
    match (sender, generation_source) {
        (Some(sender), Some(generation_source)) => procedure::after(
            managed_startup::send_capabilities_run(
                k,
                sender,
                StartupRuntimeRole::Service,
                definition_capabilities(generation_source, readiness),
            ),
            |k: kernel::Transcript, sent: Result<(), ManagedToolStartSendError>|
                if sent is Err || arguments.len() > MAX_ARGUMENTS {
                    procedure::done(k, false)
                } else {
                    describe_run(
                        k,
                        sender,
                        definition_identity(process_id, generation),
                        arguments,
                        service_launch(generation, restart_count, restart_count == 0),
                    )
                },
        ),
        _ => procedure::done(k, false),
    }
}

/// Sends a service that is launched from a definition its capabilities, then who it is and why it
/// runs. The first argument is its executable.
pub fn send_definition_process_start(
    k: &mut Kernel,
    sender: Option<CapabilityHandle>,
    generation_source: Option<CapabilityHandle>,
    readiness: Option<CapabilityHandle>,
    arguments: &[&[u8]],
    process_id: ProcessId,
    generation: ProviderGeneration,
    restart_count: u32,
) -> (result: Option<bool>)
    ensures
        (final(k)@, result) == definition_start_run(
            old(k)@,
            sender,
            generation_source,
            readiness,
            startup_sections::argument_views(arguments@),
            process_id,
            generation,
            restart_count,
        ),
{
    let sender = match sender {
        Some(sender) => sender,
        None => {
            return Some(false);
        },
    };
    let generation_source = match generation_source {
        Some(generation_source) => generation_source,
        None => {
            return Some(false);
        },
    };
    let first = ManagedToolCapability::new(
        generation_source,
        Rights::receive(),
        CapabilityRole::service_generation(),
    );
    let sent = match readiness {
        None => {
            let capabilities: [ManagedToolCapability; 1] = [first];
            assert(capabilities@ =~= definition_capabilities(generation_source, readiness));
            send_capabilities(k, sender, StartupRuntimeRole::Service, &capabilities)?
        },
        Some(endpoint) => {
            let second = ManagedToolCapability::new(
                endpoint,
                Rights::send(),
                CapabilityRole::readiness(),
            );
            let capabilities: [ManagedToolCapability; 2] = [first, second];
            assert(capabilities@ =~= definition_capabilities(generation_source, readiness));
            send_capabilities(k, sender, StartupRuntimeRole::Service, &capabilities)?
        },
    };
    if sent.is_err() || arguments.len() > MAX_ARGUMENTS {
        return Some(false);
    }
    describe_start(
        k,
        sender,
        definition_identity(process_id, generation),
        arguments,
        service_launch(generation, restart_count, restart_count == 0),
    )
}

/// A restarted service is told so, and its attempts are counted from one.
pub proof fn lemma_launches_say_why_they_run(generation: ProviderGeneration, restart_count: u32)
    ensures
        service_launch(generation, restart_count, generation.raw == 1).reason
            == StartupLaunchReason::Activation <==> generation.raw == 1,
        service_launch(generation, restart_count, generation.raw == 1).attempt >= 1,
        service_launch(generation, restart_count, generation.raw == 1).manager_generation
            == generation.raw,
{
}

/// The start that the manager sends to a service is the one that the service expects: of whatever
/// generation it is, however often it was restarted, and whenever that is.
pub proof fn lemma_sent_service_start_is_expected(
    process_id: ProcessId,
    identity: ManagedServiceIdentity,
    arguments: Seq<Seq<u8>>,
    generation: ProviderGeneration,
    restart_count: u32,
    now: u64,
)
    requires
        generation.raw != 0,
    ensures
        managed_startup::describes_service(
            startup_environment::ProcessStart {
                identity: managed_identity(process_id, identity),
                arguments,
                environment: seq![],
                launch: StartupLaunch {
                    monotonic_start_ns: now,
                    ..service_launch(generation, restart_count, generation.raw == 1)
                },
            },
            process_id,
            identity,
            arguments,
        ),
{
}

/// What a service lets pass as its start was meant for it: for this process and this service, with
/// the arguments that it was loaded with, of one generation, for the first time exactly if the
/// generation is the first. A start that differs in any of these is refused.
pub proof fn lemma_accepted_service_start_was_meant_for_it(
    start: startup_environment::ProcessStart,
    process_id: ProcessId,
    identity: ManagedServiceIdentity,
    arguments: Seq<Seq<u8>>,
)
    requires
        managed_startup::describes_service(start, process_id, identity, arguments),
    ensures
        start.identity.process == process_id,
        start.identity.executable == identity.executable,
        start.identity.service == identity.service,
        start.identity.component == identity.component,
        start.identity.application == 0,
        start.identity.user == 0,
        start.identity.session == 0,
        start.arguments == arguments,
        start.environment == Seq::<(Seq<u8>, Seq<u8>)>::empty(),
        start.launch.launch == start.launch.manager_generation,
        start.launch.manager_generation != 0,
        start.launch.attempt >= 1,
        start.launch.reason == StartupLaunchReason::Activation
            <==> start.launch.manager_generation == 1,
        start.launch.reason == StartupLaunchReason::Restart
            <==> start.launch.manager_generation > 1,
        start.launch.flags == 0,
{
    assert(start.environment =~= seq![]);
}

/// A launch tells of the generation that it starts and counts the attempts: one more than the
/// restarts before it, up to the largest number. It says that it is the first one where it is.
pub proof fn lemma_launch_counts_the_attempt(
    generation: ProviderGeneration,
    restart_count: u32,
    first: bool,
)
    ensures
        ({
            let launch = service_launch(generation, restart_count, first);
            &&& launch.launch == generation.raw
            &&& launch.manager_generation == generation.raw
            &&& restart_count < u32::MAX ==> launch.attempt == restart_count + 1
            &&& restart_count == u32::MAX ==> launch.attempt == u32::MAX
            &&& launch.reason == if first {
                StartupLaunchReason::Activation
            } else {
                StartupLaunchReason::Restart
            }
        }),
{
}

/// A start that was described is received as it was meant, with the time at which it was sent.
pub proof fn lemma_described_start_is_received(
    k: kernel::Transcript,
    sender: CapabilityHandle,
    identity: StartupIdentity,
    arguments: Seq<Seq<u8>>,
    launch: StartupLaunch,
)
    requires
        describe_run(k, sender, identity, arguments, launch).1 == Some(true),
    ensures
        ({
            let after = describe_run(k, sender, identity, arguments, launch).0;
            &&& k.reply() matches Some(reply) && platform::decoded(reply.result) matches Ok(now)
                && managed_startup::described(
                k.call(Op::MonotonicTime),
                after,
                sender,
                startup_environment::ProcessStart {
                    identity,
                    arguments,
                    environment: seq![],
                    launch: StartupLaunch { monotonic_start_ns: now, ..launch },
                },
            )
        }),
{
    let (timed, time) = platform::value_run(k, Op::MonotonicTime);
    let now = time->Some_0->Ok_0;
    let launch = StartupLaunch { monotonic_start_ns: now, ..launch };
    let nothing: Seq<(Seq<u8>, Seq<u8>)> = seq![];
    let sections = managed_startup::start_sections(identity, arguments, nothing, launch);
    startup_transport::lemma_successful_send_sends_the_stream(timed, sender, sections);
    assert(nothing.take(0) =~= nothing);
    assert(arguments.take(arguments.len() as int) =~= arguments);
    managed_startup::lemma_sent_start_is_received(identity, arguments, nothing, launch);
    let messages = startup_transport::stream_from(sections, 0);
    let after = describe_run(k, sender, identity, arguments, launch).0;
    assert(after.asked == startup_transport::sent(timed, sender, messages));
}

/// A managed service that was told everything it needs gets the start that it expects: what it
/// receives is a start which it takes for its own, in the generation that it was started in.
pub proof fn lemma_managed_service_gets_its_start(
    k: kernel::Transcript,
    sender: CapabilityHandle,
    command: Seq<u8>,
    process_id: ProcessId,
    generation: ProviderGeneration,
    restart_count: u32,
    identity: ManagedServiceIdentity,
    capabilities: Seq<ManagedToolCapability>,
)
    requires
        generation.raw != 0,
        managed_start_run(
            k,
            sender,
            command,
            process_id,
            generation,
            restart_count,
            identity,
            capabilities,
        ).1 == Some(true),
    ensures
        ({
            let (after, outcome) = managed_start_run(
                k,
                sender,
                command,
                process_id,
                generation,
                restart_count,
                identity,
                capabilities,
            );
            let given = managed_startup::send_capabilities_run(
                k,
                sender,
                StartupRuntimeRole::Service,
                capabilities,
            );
            &&& given.1 matches Some(Ok(_))
            &&& exists|start: startup_environment::ProcessStart|
                {
                    &&& #[trigger] managed_startup::described(
                        given.0.call(Op::MonotonicTime),
                        after,
                        sender,
                        start,
                    )
                    &&& managed_startup::describes_service(
                        start,
                        process_id,
                        identity,
                        command_line::words_from(command, 0),
                    )
                    &&& start.launch.manager_generation == generation.raw
                    &&& start.launch.attempt == restart_count + 1 || restart_count == u32::MAX
                }
        }),
{
    let given = managed_startup::send_capabilities_run(
        k,
        sender,
        StartupRuntimeRole::Service,
        capabilities,
    ).0;
    let words = command_line::words_from(command, 0);
    let launch = service_launch(generation, restart_count, generation.raw == 1);
    lemma_described_start_is_received(
        given,
        sender,
        managed_identity(process_id, identity),
        words,
        launch,
    );
    let now = platform::decoded(given.reply()->Some_0.result)->Ok_0;
    lemma_sent_service_start_is_expected(
        process_id,
        identity,
        words,
        generation,
        restart_count,
        now,
    );
}

/// A service that is launched from a definition gets a start that says who it is, in the generation
/// that it was started in, with the arguments of its definition. It is told that it was restarted
/// exactly if it was.
pub proof fn lemma_defined_service_gets_its_start(
    k: kernel::Transcript,
    sender: CapabilityHandle,
    generation_source: CapabilityHandle,
    readiness: Option<CapabilityHandle>,
    arguments: Seq<Seq<u8>>,
    process_id: ProcessId,
    generation: ProviderGeneration,
    restart_count: u32,
)
    requires
        definition_start_run(
            k,
            Some(sender),
            Some(generation_source),
            readiness,
            arguments,
            process_id,
            generation,
            restart_count,
        ).1 == Some(true),
    ensures
        ({
            let (after, outcome) = definition_start_run(
                k,
                Some(sender),
                Some(generation_source),
                readiness,
                arguments,
                process_id,
                generation,
                restart_count,
            );
            let given = managed_startup::send_capabilities_run(
                k,
                sender,
                StartupRuntimeRole::Service,
                definition_capabilities(generation_source, readiness),
            );
            &&& given.1 matches Some(Ok(_))
            &&& exists|start: startup_environment::ProcessStart|
                {
                    &&& #[trigger] managed_startup::described(
                        given.0.call(Op::MonotonicTime),
                        after,
                        sender,
                        start,
                    )
                    &&& start.identity.process == process_id
                    &&& start.identity.package_generation == generation.raw
                    &&& start.arguments == arguments
                    &&& start.environment.len() == 0
                    &&& start.launch.manager_generation == generation.raw
                    &&& start.launch.launch == generation.raw
                    &&& start.launch.reason == StartupLaunchReason::Activation
                        <==> restart_count == 0
                    &&& start.launch.reason == StartupLaunchReason::Restart <==> restart_count > 0
                    &&& start.launch.attempt == restart_count + 1 || restart_count == u32::MAX
                }
        }),
{
    let given = managed_startup::send_capabilities_run(
        k,
        sender,
        StartupRuntimeRole::Service,
        definition_capabilities(generation_source, readiness),
    ).0;
    lemma_described_start_is_received(
        given,
        sender,
        definition_identity(process_id, generation),
        arguments,
        service_launch(generation, restart_count, restart_count == 0),
    );
}

/// What a service gets that is launched from a definition may only be received from, where its
/// generation comes from, and only be sent to, where it says that it is ready.
pub proof fn lemma_defined_service_gets_its_capabilities(
    generation_source: CapabilityHandle,
    readiness: Option<CapabilityHandle>,
)
    ensures
        ({
            let capabilities = definition_capabilities(generation_source, readiness);
            &&& capabilities[0].source_handle == generation_source
            &&& capabilities[0].role == CapabilityRole::service_generation()
            &&& capabilities[0].rights == Rights::receive()
            &&& readiness is None ==> capabilities.len() == 1
            &&& readiness matches Some(endpoint) ==> {
                &&& capabilities.len() == 2
                &&& capabilities[1].source_handle == endpoint
                &&& capabilities[1].role == CapabilityRole::readiness()
                &&& capabilities[1].rights == Rights::send()
            }
        }),
{
}

} // verus!
