//! Process starts that a manager sends and a service or tool receives.
//!
//! The bootstrap endpoint vouches for the description of a launch by pinning its sender.
//! Capabilities alone carry authority: generations and identities describe the launch and are
//! checked before any transferred handle is used.

use crate::abi::{
    INIT_PROCESS_ID, MAX_ARGUMENTS, MAX_ARGUMENT_BYTES, MAX_CAPABILITIES_PER_PROCESS,
    MAX_ENVIRONMENT_BYTES, MAX_IPC_MESSAGE_HANDLES, MAX_PATH_BYTES,
};
use crate::bytes;
use crate::bytes::{contains, equal};
use crate::command_line;
use crate::command_line::{canonical_executable_argument, split_command};
pub use crate::command_line::{numeric_executable_id, numeric_service_id};
use crate::handle;
use crate::handle::{Endpoint, OwnedHandle};
use crate::ipc;
use crate::ipc::{ObjectKind, Rights, Transfer};
use crate::kernel;
use crate::kernel::{Kernel, Op};
use crate::platform;
use crate::procedure;
use crate::process_start;
use crate::process_start::{StartupDataError, StartupSectionId, PROCESS_START_BOOTSTRAP_HANDLE};
use crate::runtime_context;
use crate::runtime_context::{
    ContextSlot, ProcessContext, RuntimeRole, ServiceProcess, StartupCapabilityPolicy, ToolProcess,
};
use crate::slots::empty_slots;
use crate::startup_environment;
use crate::startup_environment::{encode_startup_environment, ValidatedProcessStart};
use crate::startup_record;
use crate::startup_record::{
    CapabilityRole, StartupError, StartupMessage, StartupResource, StartupRuntimeRole,
};
use crate::startup_sections;
use crate::startup_sections::{
    encode_startup_arguments, StartupIdentity, StartupLaunch, StartupLaunchReason,
};
use crate::startup_transport;
use crate::startup_transport::{
    adopt_record, into_slots, receive_process_start_data, receive_record, send_process_start_data,
    send_startup_message, StartupReceiveError, StartupSectionPayload, StartupSendError,
    StartupTransportError,
};
use crate::syscall::getpid;
use vstd::prelude::*;

verus! {

pub const SYSTEM_PACKAGE_ID: u64 = 1;

pub const SYSTEM_PACKAGE_GENERATION: u64 = 1;

pub const SYSTEM_NAMESPACE_PROFILE_ID: u64 = 1;

/// Bytes of process-start data that a managed process can receive.
pub const START_DATA_BYTES: usize = 4608;

/// Sections of process-start data that a managed process can receive.
pub const START_DATA_SECTIONS: usize = 4;

/// A tool command and the environment that its process inherits.
#[derive(Debug, Clone, Copy)]
pub struct ManagedToolCommand<'a> {
    command: &'a [u8],
    environment: &'a [(&'a [u8], &'a [u8])],
}

impl<'a> ManagedToolCommand<'a> {
    pub closed spec fn command_of(self) -> &'a [u8] {
        self.command
    }

    pub closed spec fn environment_of(self) -> &'a [(&'a [u8], &'a [u8])] {
        self.environment
    }

    pub fn new(command: &'a [u8], environment: &'a [(&'a [u8], &'a [u8])]) -> (tool: Self)
        ensures
            tool.command_of() == command,
            tool.environment_of() == environment,
    {
        Self { command, environment }
    }

    pub fn command(self) -> (command: &'a [u8])
        ensures
            command == self.command_of(),
    {
        self.command
    }

    pub fn environment(self) -> (environment: &'a [(&'a [u8], &'a [u8])])
        ensures
            environment == self.environment_of(),
    {
        self.environment
    }
}

/// A capability that a tool gets with its start.
#[derive(Debug, Clone, Copy, PartialEq, Eq, Structural)]
pub struct ManagedToolCapability {
    pub source_handle: u64,
    pub rights: Rights,
    pub role: CapabilityRole,
}

impl ManagedToolCapability {
    pub fn new(source_handle: u64, rights: Rights, role: CapabilityRole) -> (capability: Self)
        ensures
            capability == (ManagedToolCapability { source_handle, rights, role }),
    {
        Self { source_handle, rights, role }
    }
}

/// How the current tool was started.
#[derive(Debug, Clone, Copy, PartialEq, Eq, Structural)]
pub enum ManagedToolStartMode {
    Uninitialized,
    Legacy,
    Managed,
}

impl ManagedToolStartMode {
    /// The number under which a process remembers the mode.
    #[verifier::allow_in_spec]
    pub fn stored(self) -> u8
        returns
            (match self {
                Self::Uninitialized => 0u8,
                Self::Legacy => 1u8,
                Self::Managed => 2u8,
            }),
    {
        match self {
            Self::Uninitialized => 0,
            Self::Legacy => 1,
            Self::Managed => 2,
        }
    }
}

/// The mode that a process remembers under a number.
#[verifier::allow_in_spec]
pub fn managed_tool_start_mode(stored: u8) -> ManagedToolStartMode
    returns
        (if stored == 1 {
            ManagedToolStartMode::Legacy
        } else if stored == 2 {
            ManagedToolStartMode::Managed
        } else {
            ManagedToolStartMode::Uninitialized
        }),
{
    match stored {
        1 => ManagedToolStartMode::Legacy,
        2 => ManagedToolStartMode::Managed,
        _ => ManagedToolStartMode::Uninitialized,
    }
}

/// Remembering a mode and asking for it gives the mode.
pub proof fn lemma_start_mode_is_remembered(mode: ManagedToolStartMode)
    ensures
        managed_tool_start_mode(mode.stored()) == mode,
{
}

/// Which trusted process started a tool.
#[derive(Debug, Clone, Copy, PartialEq, Eq, Structural)]
pub enum ManagedToolStartOrigin {
    Parent,
    Exec,
}

impl ManagedToolStartOrigin {
    /// The flags of a launch of this origin.
    #[verifier::allow_in_spec]
    pub fn launch_flags(self) -> u16
        returns
            (match self {
                Self::Parent => 0u16,
                Self::Exec => 1u16,
            }),
    {
        match self {
            Self::Parent => 0,
            Self::Exec => 1,
        }
    }
}

/// The identity that a service expects of its launch.
#[derive(Debug, Clone, Copy, PartialEq, Eq, Structural)]
pub struct ManagedServiceIdentity {
    pub executable: u64,
    pub service: u64,
    pub component: u64,
}

impl ManagedServiceIdentity {
    pub fn new(executable: u64, service: u64, component: u64) -> (identity: Self)
        ensures
            identity == (ManagedServiceIdentity { executable, service, component }),
    {
        Self { executable, service, component }
    }
}

/// What a service has from its start.
#[derive(Debug)]
pub struct ManagedServiceStart<const N: usize> {
    pub context: ProcessContext<ServiceProcess, N>,
    pub generation: u64,
}

/// What a tool has from its start.
#[derive(Debug)]
pub struct ManagedToolStart<const N: usize> {
    pub context: ProcessContext<ToolProcess, N>,
    pub origin: ManagedToolStartOrigin,
}

#[derive(Debug, Clone, Copy, PartialEq, Eq, Structural)]
pub enum ManagedToolStartSendError {
    InvalidDescription,
    CapabilityDuplicate(ipc::Error),
    Capabilities(StartupError),
    CapabilityTransport(StartupSendError),
    Data(StartupDataError),
    Clock,
    Transport(StartupTransportError),
}

#[derive(Debug, Clone, Copy, PartialEq, Eq, Structural)]
pub enum ManagedToolStartError {
    UnexpectedInitialCapability,
    Bootstrap(ipc::Error),
    InvalidBootstrap,
    Capabilities(StartupReceiveError),
    Transport(StartupTransportError),
    Data(StartupDataError),
    ProcessIdentity,
    InvalidDescription,
}

#[derive(Debug, Clone, Copy, PartialEq, Eq, Structural)]
pub enum ManagedServiceStartError {
    UnexpectedInitialCapability,
    Bootstrap(ipc::Error),
    InvalidBootstrap,
    Capabilities(StartupReceiveError),
    Transport(StartupTransportError),
    Data(StartupDataError),
    ProcessIdentity,
    InvalidDescription,
}

/// Looking for a capability beside the bootstrap endpoint, from handle `from` on.
pub open spec fn extra_capability_run(k: kernel::Transcript, from: u64) -> (
    kernel::Transcript,
    Option<bool>,
)
    decreases MAX_CAPABILITIES_PER_PROCESS + 1 - from,
{
    if from > MAX_CAPABILITIES_PER_PROCESS {
        (k, Some(false))
    } else {
        let (asked, info) = ipc::info_run(k, from);
        match info {
            None => (asked, None),
            Some(Ok(_)) => (asked, Some(true)),
            Some(Err(_)) => extra_capability_run(asked, (from + 1) as u64),
        }
    }
}

fn has_extra_capability(k: &mut Kernel) -> (result: Option<bool>)
    ensures
        (final(k)@, result) == extra_capability_run(old(k)@, 2),
{
    let mut handle: u64 = 2;
    while handle <= MAX_CAPABILITIES_PER_PROCESS as u64
        invariant
            2 <= handle <= MAX_CAPABILITIES_PER_PROCESS + 1,
            extra_capability_run(old(k)@, 2) == extra_capability_run(k@, handle),
        decreases MAX_CAPABILITIES_PER_PROCESS + 1 - handle,
    {
        if ipc::info(k, handle)?.is_ok() {
            return Some(true);
        }
        handle += 1;
    }
    Some(false)
}

/// Closing the capabilities of a context, from slot `i` on.
pub open spec fn drop_context_run(k: kernel::Transcript, slots: Seq<ContextSlot>, i: int) -> (
    kernel::Transcript,
    Option<()>,
)
    decreases slots.len() - i,
{
    if i >= slots.len() {
        (k, Some(()))
    } else {
        match slots[i] {
            None => drop_context_run(k, slots, i + 1),
            Some((_, raw)) => {
                let (closed, done) = handle::discard_run(k, raw);
                match done {
                    None => (closed, None),
                    Some(_) => drop_context_run(closed, slots, i + 1),
                }
            },
        }
    }
}

/// Closes the capabilities of a context.
pub fn drop_context<R: RuntimeRole, const N: usize>(
    k: &mut Kernel,
    context: ProcessContext<R, N>,
) -> (result: Option<()>)
    ensures
        (final(k)@, result) == drop_context_run(old(k)@, context@, 0),
{
    let ghost slots = context@;
    let mut capabilities = context.into_capabilities();
    let ghost all = capabilities@;
    let mut index: usize = 0;
    while index < N
        invariant
            index <= N,
            slots == context@,
            slots == runtime_context::context_slots(all),
            all.len() == N,
            forall|i: int| index <= i < N ==> (#[trigger] capabilities@[i]) == all[i],
            drop_context_run(old(k)@, slots, 0) == drop_context_run(k@, slots, index as int),
        decreases N - index,
    {
        assert(capabilities@[index as int] == all[index as int]);
        if let Some(capability) = capabilities[index].take() {
            capability.into_handle().discard(k)?;
        }
        index += 1;
    }
    Some(())
}

/// Closing a context and the bootstrap endpoint.
pub open spec fn abandon_run(k: kernel::Transcript, slots: Seq<ContextSlot>, bootstrap: u64) -> (
    kernel::Transcript,
    Option<()>,
) {
    let (dropped, done) = drop_context_run(k, slots, 0);
    match done {
        None => (dropped, None),
        Some(_) => handle::discard_run(dropped, Some(bootstrap)),
    }
}

fn abandon<R: RuntimeRole, const N: usize>(
    k: &mut Kernel,
    context: ProcessContext<R, N>,
    bootstrap: OwnedHandle<Endpoint>,
) -> (result: Option<()>)
    requires
        bootstrap@ is Some,
    ensures
        (final(k)@, result) == abandon_run(old(k)@, context@, bootstrap@->Some_0),
{
    drop_context(k, context)?;
    bootstrap.discard(k)
}

/// The sections that every start has.
fn standard_sections() -> (sections: [StartupSectionId; 4])
    ensures
        sections@ == startup_environment::standard_sections(),
{
    let sections: [StartupSectionId; 4] = [
        StartupSectionId::identity(),
        StartupSectionId::arguments(),
        StartupSectionId::environment(),
        StartupSectionId::launch(),
    ];
    assert(sections@ =~= startup_environment::standard_sections());
    sections
}

/// Whether a start describes the launch that a service expects.
pub open spec fn describes_service(
    start: startup_environment::ProcessStart,
    process_id: u64,
    expected: ManagedServiceIdentity,
    arguments: Seq<Seq<u8>>,
) -> bool {
    let generation = start.launch.manager_generation;
    &&& generation != 0
    &&& start.identity == StartupIdentity {
        process: process_id,
        package: SYSTEM_PACKAGE_ID,
        package_generation: SYSTEM_PACKAGE_GENERATION,
        executable: expected.executable,
        application: 0,
        service: expected.service,
        component: expected.component,
        user: 0,
        session: 0,
    }
    &&& start.arguments == arguments
    &&& start.environment.len() == 0
    &&& start.launch.launch == generation
    &&& start.launch.namespace_profile == SYSTEM_NAMESPACE_PROFILE_ID
    &&& start.launch.attempt != 0
    &&& start.launch.reason == if generation == 1 {
        StartupLaunchReason::Activation
    } else {
        StartupLaunchReason::Restart
    }
    &&& start.launch.flags == 0
}

fn arguments_match(arguments: &[&[u8]], start: &ValidatedProcessStart<'_>) -> (same: bool)
    requires
        start.wf(),
    ensures
        same == (start@.arguments == startup_sections::argument_views(arguments@)),
{
    let ghost expected = startup_sections::argument_views(arguments@);
    if start.arguments.len() != arguments.len() {
        return false;
    }
    let mut index: usize = 0;
    while index < arguments.len()
        invariant
            start.wf(),
            index <= arguments@.len(),
            expected == startup_sections::argument_views(arguments@),
            start@.arguments.len() == arguments@.len(),
            forall|i: int| 0 <= i < index ==> start@.arguments[i] == #[trigger] expected[i],
        decreases arguments@.len() - index,
    {
        assert(expected[index as int] == arguments@[index as int]@);
        match start.arguments.get(index) {
            Some(argument) => {
                if !equal(argument, arguments[index]) {
                    assert(start@.arguments[index as int] != expected[index as int]);
                    return false;
                }
            },
            None => {
                return false;
            },
        }
        index += 1;
    }
    assert(start@.arguments =~= expected);
    true
}

/// Whether a start describes the launch that a service expects.
pub fn is_service_description(
    start: &ValidatedProcessStart<'_>,
    process_id: u64,
    expected: ManagedServiceIdentity,
    arguments: &[&[u8]],
) -> (valid: bool)
    requires
        start.wf(),
    ensures
        valid == describes_service(
            start@,
            process_id,
            expected,
            startup_sections::argument_views(arguments@),
        ),
{
    let generation: u64 = start.launch.manager_generation;
    let reason = if generation == 1 {
        StartupLaunchReason::Activation
    } else {
        StartupLaunchReason::Restart
    };
    let identity = StartupIdentity {
        process: process_id,
        package: SYSTEM_PACKAGE_ID,
        package_generation: SYSTEM_PACKAGE_GENERATION,
        executable: expected.executable,
        application: 0,
        service: expected.service,
        component: expected.component,
        user: 0,
        session: 0,
    };
    generation != 0 && start.identity == identity && arguments_match(arguments, start)
        && start.environment.is_empty() && start.launch.launch == generation
        && start.launch.namespace_profile == SYSTEM_NAMESPACE_PROFILE_ID && start.launch.attempt
        != 0 && start.launch.reason == reason && start.launch.flags == 0
}

/// What a service has from its start, or why it has nothing.
pub type ServiceOutcome = Option<Result<(Seq<ContextSlot>, u64), ManagedServiceStartError>>;

/// Receiving a service's start.
pub open spec fn service_start_run(
    k: kernel::Transcript,
    arguments: Seq<Seq<u8>>,
    policies: Seq<StartupCapabilityPolicy>,
    expected: ManagedServiceIdentity,
    capacity: usize,
) -> (kernel::Transcript, ServiceOutcome) {
    let bootstrap = PROCESS_START_BOOTSTRAP_HANDLE;
    let (looked, extra) = extra_capability_run(k, 2);
    match extra {
        None => (looked, None),
        Some(true) => (
            looked,
            Some(Err(ManagedServiceStartError::UnexpectedInitialCapability)),
        ),
        Some(false) => {
            let (asked, info) = ipc::info_run(looked, bootstrap);
            match info {
                None => (asked, None),
                Some(Err(_)) => procedure::fail_after(
                    handle::discard_run(asked, Some(bootstrap)),
                    ManagedServiceStartError::InvalidBootstrap,
                ),
                Some(Ok(info)) => if info.kind != ObjectKind::Endpoint || info.rights
                    != Rights::receive() {
                    procedure::fail_after(
                        handle::discard_run(asked, Some(bootstrap)),
                        ManagedServiceStartError::InvalidBootstrap,
                    )
                } else {
                    let (received, context) = startup_transport::receive_startup_run(
                        asked,
                        bootstrap,
                        INIT_PROCESS_ID,
                        policies,
                        StartupRuntimeRole::Service,
                        capacity,
                    );
                    match context {
                        None => (received, None),
                        Some(Err(error)) => procedure::fail_after(
                            handle::discard_run(received, Some(bootstrap)),
                            ManagedServiceStartError::Capabilities(error),
                        ),
                        Some(Ok(slots)) => service_data_run(received, slots, arguments, expected),
                    }
                },
            }
        },
    }
}

/// The rest of a service's start, once its capabilities are there.
pub open spec fn service_data_run(
    k: kernel::Transcript,
    slots: Seq<ContextSlot>,
    arguments: Seq<Seq<u8>>,
    expected: ManagedServiceIdentity,
) -> (kernel::Transcript, ServiceOutcome) {
    let bootstrap = PROCESS_START_BOOTSTRAP_HANDLE;
    let (received, data) = startup_transport::receive_start_run(
        k,
        bootstrap,
        INIT_PROCESS_ID,
        startup_environment::standard_sections(),
        startup_environment::standard_sections(),
        START_DATA_BYTES as nat,
        START_DATA_SECTIONS as nat,
    );
    match data {
        None => (received, None),
        Some(Err(error)) => procedure::fail_after(
            abandon_run(received, slots, bootstrap),
            ManagedServiceStartError::Transport(error),
        ),
        Some(Ok(assembly)) => match startup_environment::process_start_of(assembly) {
            Err(error) => procedure::fail_after(
                abandon_run(received, slots, bootstrap),
                ManagedServiceStartError::Data(error),
            ),
            Ok(start) => {
                let (closed, result) = ipc::close_run(received, bootstrap);
                match result {
                    None => (closed, None),
                    Some(Err(error)) => procedure::fail_after(
                        drop_context_run(closed, slots, 0),
                        ManagedServiceStartError::Bootstrap(error),
                    ),
                    Some(Ok(_)) => {
                        let (asked, process_id) = ipc::value_run(closed, Op::GetProcessId);
                        match process_id {
                            None => (asked, None),
                            Some(Err(_)) => procedure::fail_after(
                                drop_context_run(asked, slots, 0),
                                ManagedServiceStartError::ProcessIdentity,
                            ),
                            Some(Ok(process_id)) => if describes_service(
                                start,
                                process_id,
                                expected,
                                arguments,
                            ) {
                                (asked, Some(Ok((slots, start.launch.manager_generation))))
                            } else {
                                procedure::fail_after(
                                    drop_context_run(asked, slots, 0),
                                    ManagedServiceStartError::InvalidDescription,
                                )
                            },
                        }
                    },
                }
            },
        },
    }
}

/// Whether a service's start is what came out.
pub open spec fn service_started<const N: usize>(
    result: Option<Result<ManagedServiceStart<N>, ManagedServiceStartError>>,
    outcome: ServiceOutcome,
) -> bool {
    match (result, outcome) {
        (None, None) => true,
        (Some(Ok(start)), Some(Ok((slots, generation)))) => start.context@ == slots
            && start.generation == generation,
        (Some(Err(error)), Some(Err(expected))) => error == expected,
        _ => false,
    }
}

/// Receives and checks the complete start of a service. Whatever was received before a fault is
/// closed.
pub fn receive_managed_service_start<const N: usize>(
    k: &mut Kernel,
    initial_arguments: &[&[u8]],
    policies: &[StartupCapabilityPolicy],
    expected_identity: ManagedServiceIdentity,
) -> (result: Option<Result<ManagedServiceStart<N>, ManagedServiceStartError>>)
    ensures
        final(k)@ == service_start_run(
            old(k)@,
            startup_sections::argument_views(initial_arguments@),
            policies@,
            expected_identity,
            N,
        ).0,
        service_started(
            result,
            service_start_run(
                old(k)@,
                startup_sections::argument_views(initial_arguments@),
                policies@,
                expected_identity,
                N,
            ).1,
        ),
{
    if has_extra_capability(k)? {
        return Some(Err(ManagedServiceStartError::UnexpectedInitialCapability));
    }
    let bootstrap = match OwnedHandle::<Endpoint>::from_raw(PROCESS_START_BOOTSTRAP_HANDLE) {
        Ok(bootstrap) => bootstrap,
        Err(error) => {
            return Some(Err(ManagedServiceStartError::Bootstrap(error)));
        },
    };
    let valid = match bootstrap.info(k)? {
        Ok(info) => info.kind == ObjectKind::Endpoint && info.rights == Rights::receive(),
        Err(_) => false,
    };
    if !valid {
        bootstrap.discard(k)?;
        return Some(Err(ManagedServiceStartError::InvalidBootstrap));
    }
    let context = match ProcessContext::<ServiceProcess, N>::receive_startup(
        k,
        &bootstrap,
        INIT_PROCESS_ID,
        policies,
    )? {
        Ok(context) => context,
        Err(error) => {
            bootstrap.discard(k)?;
            return Some(Err(ManagedServiceStartError::Capabilities(error)));
        },
    };
    let sections = standard_sections();
    let data = match receive_process_start_data::<START_DATA_BYTES, START_DATA_SECTIONS>(
        k,
        &bootstrap,
        INIT_PROCESS_ID,
        &sections,
        &sections,
    )? {
        Ok(data) => data,
        Err(error) => {
            abandon(k, context, bootstrap)?;
            return Some(Err(ManagedServiceStartError::Transport(error)));
        },
    };
    let start = match ValidatedProcessStart::from_data(&data) {
        Ok(start) => start,
        Err(error) => {
            abandon(k, context, bootstrap)?;
            return Some(Err(ManagedServiceStartError::Data(error)));
        },
    };
    if let Err(error) = bootstrap.close(k)? {
        drop_context(k, context)?;
        return Some(Err(ManagedServiceStartError::Bootstrap(error)));
    }
    let process_id: u64 = match getpid(k)? {
        Ok(process_id) => process_id,
        Err(_) => {
            drop_context(k, context)?;
            return Some(Err(ManagedServiceStartError::ProcessIdentity));
        },
    };
    if !is_service_description(&start, process_id, expected_identity, initial_arguments) {
        drop_context(k, context)?;
        return Some(Err(ManagedServiceStartError::InvalidDescription));
    }
    Some(Ok(ManagedServiceStart { context, generation: start.launch.manager_generation }))
}

/// Closing handles one after the other, whatever the kernel says.
pub open spec fn close_all_run(k: kernel::Transcript, handles: Seq<u64>, i: int) -> (
    kernel::Transcript,
    Option<()>,
)
    decreases handles.len() - i,
{
    if i >= handles.len() {
        (k, Some(()))
    } else {
        let (closed, done) = handle::discard_run(k, Some(handles[i]));
        match done {
            None => (closed, None),
            Some(_) => close_all_run(closed, handles, i + 1),
        }
    }
}

fn close_all(k: &mut Kernel, handles: &[u64]) -> (result: Option<()>)
    ensures
        (final(k)@, result) == close_all_run(old(k)@, handles@, 0),
{
    let mut index: usize = 0;
    while index < handles.len()
        invariant
            index <= handles@.len(),
            close_all_run(old(k)@, handles@, 0) == close_all_run(k@, handles@, index as int),
        decreases handles@.len() - index,
    {
        let _ = ipc::close(k, handles[index])?;
        index += 1;
    }
    Some(())
}

/// Duplicating the capabilities of a tool. A failure closes the duplicates made before it.
pub open spec fn duplicate_all_run(
    k: kernel::Transcript,
    capabilities: Seq<ManagedToolCapability>,
    duplicates: Seq<u64>,
) -> (kernel::Transcript, Option<Result<Seq<u64>, ManagedToolStartSendError>>)
    decreases capabilities.len() - duplicates.len(),
{
    let i = duplicates.len() as int;
    if i >= capabilities.len() {
        (k, Some(Ok(duplicates)))
    } else {
        let (asked, value) = ipc::value_run(
            k,
            Op::Duplicate {
                handle: capabilities[i].source_handle,
                rights: capabilities[i].rights.with(Rights::transfer()).raw,
            },
        );
        match value {
            None => (asked, None),
            Some(Err(error)) => procedure::fail_after(
                close_all_run(asked, duplicates, 0),
                ManagedToolStartSendError::CapabilityDuplicate(error),
            ),
            Some(Ok(handle)) => duplicate_all_run(asked, capabilities, duplicates.push(handle)),
        }
    }
}

/// What duplicates are to the contracts.
pub open spec fn duplicates_view(
    result: Option<Result<Vec<u64>, ManagedToolStartSendError>>,
) -> Option<Result<Seq<u64>, ManagedToolStartSendError>> {
    match result {
        None => None,
        Some(Ok(duplicates)) => Some(Ok(duplicates@)),
        Some(Err(error)) => Some(Err(error)),
    }
}

fn duplicate_all(k: &mut Kernel, capabilities: &[ManagedToolCapability]) -> (result: Option<
    Result<Vec<u64>, ManagedToolStartSendError>,
>)
    ensures
        (final(k)@, duplicates_view(result)) == duplicate_all_run(
            old(k)@,
            capabilities@,
            seq![],
        ),
        result matches Some(Ok(duplicates)) ==> duplicates@.len() == capabilities@.len(),
{
    let mut duplicates: Vec<u64> = Vec::new();
    assert(duplicates@ =~= seq![]);
    while duplicates.len() < capabilities.len()
        invariant
            duplicates@.len() <= capabilities@.len(),
            duplicate_all_run(old(k)@, capabilities@, seq![]) == duplicate_all_run(
                k@,
                capabilities@,
                duplicates@,
            ),
        decreases capabilities@.len() - duplicates@.len(),
    {
        let capability = capabilities[duplicates.len()];
        match ipc::duplicate(
            k,
            capability.source_handle,
            capability.rights.with(Rights::transfer()),
        )? {
            Ok(handle) => {
                duplicates.push(handle);
            },
            Err(error) => {
                close_all(k, duplicates.as_slice())?;
                return Some(Err(ManagedToolStartSendError::CapabilityDuplicate(error)));
            },
        }
    }
    Some(Ok(duplicates))
}

/// The resources that name a tool's capabilities.
pub open spec fn tool_resources(capabilities: Seq<ManagedToolCapability>) -> Seq<StartupResource> {
    capabilities.map_values(
        |capability: ManagedToolCapability|
            StartupResource { role: capability.role, required: true },
    )
}

/// What moves with a tool's start: the duplicates, without the right to move them on.
pub open spec fn tool_transfers(
    capabilities: Seq<ManagedToolCapability>,
    duplicates: Seq<u64>,
) -> Seq<Transfer> {
    Seq::new(
        capabilities.len(),
        |i: int| Transfer { handle: duplicates[i], rights: capabilities[i].rights },
    )
}

/// Sending the capabilities of a process. A failure closes every duplicate.
pub open spec fn send_capabilities_run(
    k: kernel::Transcript,
    sender: u64,
    runtime_role: StartupRuntimeRole,
    capabilities: Seq<ManagedToolCapability>,
) -> (kernel::Transcript, Option<Result<(), ManagedToolStartSendError>>) {
    let (duplicated, result) = duplicate_all_run(k, capabilities, seq![]);
    match result {
        None => (duplicated, None),
        Some(Err(error)) => (duplicated, Some(Err(error))),
        Some(Ok(duplicates)) => {
            let resources = tool_resources(capabilities);
            match startup_record::duplicate_role(resources, 0) {
                Some(role) => procedure::fail_after(
                    close_all_run(duplicated, duplicates, 0),
                    ManagedToolStartSendError::Capabilities(StartupError::DuplicateRole(role)),
                ),
                None => {
                    let (sent, result) = startup_transport::send_record_run(
                        duplicated,
                        sender,
                        startup_record::StartupPlan { runtime_role, resources },
                        tool_transfers(capabilities, duplicates),
                    );
                    match result {
                        None => (sent, None),
                        Some(Ok(_)) => (sent, Some(Ok(()))),
                        Some(Err(error)) => procedure::fail_after(
                            close_all_run(sent, duplicates, 0),
                            ManagedToolStartSendError::CapabilityTransport(error),
                        ),
                    }
                },
            }
        },
    }
}

proof fn lemma_filled_prefix(slots: Seq<Option<StartupResource>>, count: int)
    requires
        0 <= count <= slots.len(),
        startup_record::packed(slots, count),
    ensures
        startup_record::filled(slots) == count,
    decreases slots.len(),
{
    if slots.len() > 0 {
        if count == slots.len() {
            assert(slots.last() is Some);
            lemma_filled_prefix(slots.drop_last(), count - 1);
        } else {
            assert(slots.last() is None);
            lemma_filled_prefix(slots.drop_last(), count);
        }
    }
}

pub(crate) fn send_capabilities<const N: usize>(
    k: &mut Kernel,
    sender: u64,
    runtime_role: StartupRuntimeRole,
    capabilities: &[ManagedToolCapability; N],
) -> (result: Option<Result<(), ManagedToolStartSendError>>)
    requires
        N <= MAX_IPC_MESSAGE_HANDLES,
    ensures
        (final(k)@, result) == send_capabilities_run(old(k)@, sender, runtime_role, capabilities@),
{
    let duplicates = match duplicate_all(k, capabilities.as_slice())? {
        Ok(duplicates) => duplicates,
        Err(error) => {
            return Some(Err(error));
        },
    };
    let mut resources: [Option<StartupResource>; N] = empty_slots();
    let mut transfers: Vec<Transfer> = Vec::new();
    let ghost named = tool_resources(capabilities@);
    let ghost moved = tool_transfers(capabilities@, duplicates@);
    let mut index: usize = 0;
    while index < N
        invariant
            index <= N,
            duplicates@.len() == N,
            named == tool_resources(capabilities@),
            moved == tool_transfers(capabilities@, duplicates@),
            transfers@ =~= moved.take(index as int),
            startup_record::packed(resources@, index as int),
            forall|i: int| 0 <= i < index ==> (#[trigger] resources@[i]) == Some(named[i]),
        decreases N - index,
    {
        let capability = capabilities[index];
        resources[index] = Some(StartupResource { role: capability.role, required: true });
        transfers.push(Transfer { handle: duplicates[index], rights: capability.rights });
        index += 1;
    }
    proof {
        lemma_filled_prefix(resources@, N as int);
        assert(startup_record::contents(resources@, N as nat) =~= named);
        assert(transfers@ =~= moved);
    }
    let message = match StartupMessage::<N>::new(runtime_role, resources) {
        Ok(message) => message,
        Err(error) => {
            close_all(k, duplicates.as_slice())?;
            return Some(Err(ManagedToolStartSendError::Capabilities(error)));
        },
    };
    if let Err(error) = send_startup_message(k, sender, &message, transfers.as_slice())? {
        close_all(k, duplicates.as_slice())?;
        return Some(Err(ManagedToolStartSendError::CapabilityTransport(error)));
    }
    Some(Ok(()))
}

/// The working directory that a tool's executable is looked up from.
pub open spec fn tool_directory_run(k: kernel::Transcript, executable: Seq<u8>) -> (
    kernel::Transcript,
    Option<Result<Seq<u8>, platform::Errno>>,
) {
    if command_line::is_relative(executable) {
        platform::getcwd_run(k, (MAX_PATH_BYTES + 1) as usize)
    } else {
        (k, Some(Ok(seq![0x2fu8])))
    }
}

/// The identity of a tool's launch.
pub open spec fn tool_identity(process_id: u64, executable: u64) -> StartupIdentity {
    StartupIdentity {
        process: process_id,
        package: SYSTEM_PACKAGE_ID,
        package_generation: SYSTEM_PACKAGE_GENERATION,
        executable,
        application: 0,
        service: 0,
        component: executable,
        user: 0,
        session: 0,
    }
}

/// The launch of a tool.
pub open spec fn tool_launch(
    process_id: u64,
    monotonic_start_ns: u64,
    origin: ManagedToolStartOrigin,
) -> StartupLaunch {
    StartupLaunch {
        launch: process_id,
        manager_generation: 0,
        namespace_profile: SYSTEM_NAMESPACE_PROFILE_ID,
        monotonic_start_ns,
        attempt: 1,
        reason: StartupLaunchReason::User,
        flags: origin.launch_flags(),
    }
}

/// The sections of a start, in their order.
pub open spec fn start_sections(
    identity: StartupIdentity,
    arguments: Seq<Seq<u8>>,
    environment: Seq<(Seq<u8>, Seq<u8>)>,
    launch: StartupLaunch,
) -> Seq<process_start::Section> {
    seq![
        process_start::Section {
            id: StartupSectionId::identity(),
            required: true,
            payload: bytes::words(identity.fields()),
        },
        process_start::Section {
            id: StartupSectionId::arguments(),
            required: true,
            payload: startup_sections::arguments_section(arguments),
        },
        process_start::Section {
            id: StartupSectionId::environment(),
            required: true,
            payload: startup_environment::environment_section(environment),
        },
        process_start::Section {
            id: StartupSectionId::launch(),
            required: true,
            payload: launch.section(),
        },
    ]
}

/// Whether arguments fit their section.
pub open spec fn arguments_encodable(arguments: Seq<Seq<u8>>) -> bool {
    &&& arguments.len() <= MAX_ARGUMENTS
    &&& startup_sections::arguments_fit(
        arguments,
        arguments.len() as int,
        MAX_ARGUMENT_BYTES as int,
    )
}

/// Whether an environment fits its section.
pub open spec fn environment_encodable(environment: Seq<(Seq<u8>, Seq<u8>)>) -> bool {
    &&& environment.len() <= crate::abi::MAX_ENVIRONMENT_VARIABLES
    &&& startup_environment::environment_fits(
        environment,
        environment.len() as int,
        MAX_ENVIRONMENT_BYTES as int,
    )
}

/// Sending a tool's start.
pub open spec fn tool_start_run(
    k: kernel::Transcript,
    sender: u64,
    process_id: u64,
    command: Seq<u8>,
    environment: Seq<(Seq<u8>, Seq<u8>)>,
    origin: ManagedToolStartOrigin,
    capabilities: Seq<ManagedToolCapability>,
) -> (kernel::Transcript, Option<Result<(), ManagedToolStartSendError>>) {
    let words = command_line::words_from(command, 0);
    if sender == 0 || process_id == 0 || capabilities.len() > MAX_IPC_MESSAGE_HANDLES
        || words.len() == 0 || words.len() > MAX_ARGUMENTS {
        (k, Some(Err(ManagedToolStartSendError::InvalidDescription)))
    } else {
        let (located, directory) = tool_directory_run(k, words[0]);
        match directory {
            None => (located, None),
            Some(Err(_)) => (located, Some(Err(ManagedToolStartSendError::InvalidDescription))),
            Some(Ok(directory)) => match command_line::canonical_path(
                words[0],
                directory,
                MAX_ARGUMENT_BYTES as int,
            ) {
                None => (located, Some(Err(ManagedToolStartSendError::InvalidDescription))),
                Some(path) => {
                    let (sent, result) = send_capabilities_run(
                        located,
                        sender,
                        StartupRuntimeRole::Tool,
                        capabilities,
                    );
                    match result {
                        None => (sent, None),
                        Some(Err(error)) => (sent, Some(Err(error))),
                        Some(Ok(_)) => tool_data_run(
                            sent,
                            sender,
                            process_id,
                            words.update(0, path),
                            environment,
                            origin,
                        ),
                    }
                },
            },
        }
    }
}

/// Sending the description of a tool's start.
pub open spec fn tool_data_run(
    k: kernel::Transcript,
    sender: u64,
    process_id: u64,
    arguments: Seq<Seq<u8>>,
    environment: Seq<(Seq<u8>, Seq<u8>)>,
    origin: ManagedToolStartOrigin,
) -> (kernel::Transcript, Option<Result<(), ManagedToolStartSendError>>) {
    if !arguments_encodable(arguments) {
        (
            k,
            Some(
                Err(
                    ManagedToolStartSendError::Data(
                        StartupDataError::InvalidSection(StartupSectionId::arguments()),
                    ),
                ),
            ),
        )
    } else if !environment_encodable(environment) {
        (
            k,
            Some(
                Err(
                    ManagedToolStartSendError::Data(
                        StartupDataError::InvalidSection(StartupSectionId::environment()),
                    ),
                ),
            ),
        )
    } else {
        let (asked, time) = platform::value_run(k, Op::MonotonicTime);
        match time {
            None => (asked, None),
            Some(Err(_)) => (asked, Some(Err(ManagedToolStartSendError::Clock))),
            Some(Ok(now)) => {
                let executable = command_line::executable_number(arguments[0]);
                let (sent, result) = startup_transport::send_data_run(
                    asked,
                    sender,
                    start_sections(
                        tool_identity(process_id, executable),
                        arguments,
                        environment,
                        tool_launch(process_id, now, origin),
                    ),
                );
                (
                    sent,
                    match result {
                        None => None,
                        Some(Ok(_)) => Some(Ok(())),
                        Some(Err(error)) => Some(
                            Err(ManagedToolStartSendError::Transport(error)),
                        ),
                    },
                )
            },
        }
    }
}

/// Sends the start of a tool that gets no capability.
///
/// The child stays behind its launch barrier until this returns. After a failure past the first
/// message the attempt has to be ended, because the child may have seen a part of the start.
pub fn send_managed_tool_start(
    k: &mut Kernel,
    sender: u64,
    process_id: u64,
    command: ManagedToolCommand<'_>,
    origin: ManagedToolStartOrigin,
) -> (result: Option<Result<(), ManagedToolStartSendError>>)
    ensures
        (final(k)@, result) == tool_start_run(
            old(k)@,
            sender,
            process_id,
            command.command_of()@,
            startup_environment::entry_views(command.environment_of()@),
            origin,
            seq![],
        ),
{
    let none: [ManagedToolCapability; 0] = [];
    assert(none@ =~= seq![]);
    send_managed_tool_start_with_capabilities(k, sender, process_id, command, origin, &none)
}

/// Sends the start of a tool with its capabilities. They are duplicated for the move, so the
/// manager keeps its own whether the start succeeds or fails.
pub fn send_managed_tool_start_with_capabilities<const N: usize>(
    k: &mut Kernel,
    sender: u64,
    process_id: u64,
    command: ManagedToolCommand<'_>,
    origin: ManagedToolStartOrigin,
    capabilities: &[ManagedToolCapability; N],
) -> (result: Option<Result<(), ManagedToolStartSendError>>)
    ensures
        (final(k)@, result) == tool_start_run(
            old(k)@,
            sender,
            process_id,
            command.command_of()@,
            startup_environment::entry_views(command.environment_of()@),
            origin,
            capabilities@,
        ),
{
    if sender == 0 || process_id == 0 || N > MAX_IPC_MESSAGE_HANDLES {
        return Some(Err(ManagedToolStartSendError::InvalidDescription));
    }
    let words = match split_command(command.command()) {
        Some(words) => words,
        None => {
            return Some(Err(ManagedToolStartSendError::InvalidDescription));
        },
    };
    let ghost spelled = command_line::words_from(command.command_of()@, 0);
    assert(spelled[0] == words@[0]@);
    let executable_word: &[u8] = words[0];
    let relative = executable_word.len() > 0 && executable_word[0] != 0x2f && contains(
        executable_word,
        0x2f,
    );
    let directory: Vec<u8> = if relative {
        match platform::getcwd(k, MAX_PATH_BYTES + 1)? {
            Ok(directory) => directory,
            Err(_) => {
                return Some(Err(ManagedToolStartSendError::InvalidDescription));
            },
        }
    } else {
        let root: Vec<u8> = vec![0x2f];
        assert(root@ =~= seq![0x2fu8]);
        root
    };
    let path = match canonical_executable_argument(
        executable_word,
        directory.as_slice(),
        MAX_ARGUMENT_BYTES,
    ) {
        Some(path) => path,
        None => {
            return Some(Err(ManagedToolStartSendError::InvalidDescription));
        },
    };
    if let Err(error) = send_capabilities(k, sender, StartupRuntimeRole::Tool, capabilities)? {
        return Some(Err(error));
    }
    let mut arguments: Vec<&[u8]> = Vec::new();
    arguments.push(path.as_slice());
    let mut index: usize = 1;
    while index < words.len()
        invariant
            1 <= index <= words@.len(),
            arguments@.len() == index,
            arguments@[0]@ == path@,
            forall|i: int| 1 <= i < index ==> (#[trigger] arguments@[i]) == words@[i],
        decreases words@.len() - index,
    {
        arguments.push(words[index]);
        index += 1;
    }
    proof {
        let views = startup_sections::argument_views(arguments@);
        assert forall|i: int| 0 <= i < views.len() implies views[i] == spelled.update(0, path@)[i] by {
            if i > 0 {
                assert(arguments@[i] == words@[i]);
                assert(spelled[i] == words@[i]@);
            }
        }
        assert(views =~= spelled.update(0, path@));
    }
    send_tool_data(k, sender, process_id, arguments.as_slice(), command.environment(), origin)
}

fn send_tool_data(
    k: &mut Kernel,
    sender: u64,
    process_id: u64,
    arguments: &[&[u8]],
    environment: &[(&[u8], &[u8])],
    origin: ManagedToolStartOrigin,
) -> (result: Option<Result<(), ManagedToolStartSendError>>)
    requires
        arguments@.len() > 0,
    ensures
        (final(k)@, result) == tool_data_run(
            old(k)@,
            sender,
            process_id,
            startup_sections::argument_views(arguments@),
            startup_environment::entry_views(environment@),
            origin,
        ),
{
    let ghost spelled = startup_sections::argument_views(arguments@);
    let ghost entries = startup_environment::entry_views(environment@);
    assert(spelled[0] == arguments@[0]@);
    let mut argument_bytes: [u8; MAX_ARGUMENT_BYTES] = [0;MAX_ARGUMENT_BYTES];
    let argument_length: usize = match encode_startup_arguments(arguments, &mut argument_bytes) {
        Ok(length) => length,
        Err(error) => {
            return Some(Err(ManagedToolStartSendError::Data(error)));
        },
    };
    let mut environment_bytes: [u8; MAX_ENVIRONMENT_BYTES] = [0;MAX_ENVIRONMENT_BYTES];
    let environment_length: usize = match encode_startup_environment(
        environment,
        &mut environment_bytes,
    ) {
        Ok(length) => length,
        Err(error) => {
            return Some(Err(ManagedToolStartSendError::Data(error)));
        },
    };
    let monotonic_start_ns: u64 = match platform::monotonic_time_ns(k)? {
        Ok(now) => now,
        Err(_) => {
            return Some(Err(ManagedToolStartSendError::Clock));
        },
    };
    let executable: u64 = numeric_executable_id(arguments[0]);
    let identity = StartupIdentity {
        process: process_id,
        package: SYSTEM_PACKAGE_ID,
        package_generation: SYSTEM_PACKAGE_GENERATION,
        executable,
        application: 0,
        service: 0,
        component: executable,
        user: 0,
        session: 0,
    };
    let launch = StartupLaunch {
        launch: process_id,
        manager_generation: 0,
        namespace_profile: SYSTEM_NAMESPACE_PROFILE_ID,
        monotonic_start_ns,
        attempt: 1,
        reason: StartupLaunchReason::User,
        flags: origin.launch_flags(),
    };
    let result = send_start(
        k,
        sender,
        identity,
        &argument_bytes.as_slice()[0..argument_length],
        &environment_bytes.as_slice()[0..environment_length],
        launch,
        Ghost(spelled),
        Ghost(entries),
    )?;
    match result {
        Ok(()) => Some(Ok(())),
        Err(error) => Some(Err(ManagedToolStartSendError::Transport(error))),
    }
}

/// Sends the four sections of a start.
pub(crate) fn send_start(
    k: &mut Kernel,
    sender: u64,
    identity: StartupIdentity,
    arguments: &[u8],
    environment: &[u8],
    launch: StartupLaunch,
    Ghost(spelled): Ghost<Seq<Seq<u8>>>,
    Ghost(entries): Ghost<Seq<(Seq<u8>, Seq<u8>)>>,
) -> (result: Option<Result<(), StartupTransportError>>)
    requires
        arguments@ =~= startup_sections::arguments_section(spelled),
        environment@ =~= startup_environment::environment_section(entries),
    ensures
        (final(k)@, result) == startup_transport::send_data_run(
            old(k)@,
            sender,
            start_sections(identity, spelled, entries, launch),
        ),
{
    let identity_bytes = identity.encode();
    let launch_bytes = launch.encode();
    let sections: [StartupSectionPayload<'_>; 4] = [
        StartupSectionPayload {
            id: StartupSectionId::identity(),
            required: true,
            bytes: &identity_bytes,
        },
        StartupSectionPayload {
            id: StartupSectionId::arguments(),
            required: true,
            bytes: arguments,
        },
        StartupSectionPayload {
            id: StartupSectionId::environment(),
            required: true,
            bytes: environment,
        },
        StartupSectionPayload {
            id: StartupSectionId::launch(),
            required: true,
            bytes: &launch_bytes,
        },
    ];
    assert(startup_transport::sections_of(sections@) =~= start_sections(
        identity,
        spelled,
        entries,
        launch,
    ));
    send_process_start_data(k, sender, &sections)
}

/// Where the name of an environment entry ends.
pub open spec fn name_end(entry: Seq<u8>, from: int) -> Option<int>
    decreases entry.len() - from,
{
    if from >= entry.len() {
        None
    } else if entry[from] == 0x3d {
        Some(from)
    } else {
        name_end(entry, from + 1)
    }
}

/// Whether an entry of the initial environment is in the start's environment, with its value.
pub open spec fn entry_matches(entry: Seq<u8>, environment: Seq<(Seq<u8>, Seq<u8>)>) -> bool {
    name_end(entry, 0) matches Some(end) && startup_environment::value_of(
        environment,
        entry.take(end),
    ) == Some(entry.skip(end + 1))
}

/// Whether the start's environment has as many entries as the initial one and agrees with each.
pub open spec fn environment_agrees(
    initial: Seq<Seq<u8>>,
    environment: Seq<(Seq<u8>, Seq<u8>)>,
) -> bool {
    &&& environment.len() == initial.len()
    &&& forall|i: int| 0 <= i < initial.len() ==> entry_matches(#[trigger] initial[i], environment)
}

/// Whether a start describes a tool's launch from this origin.
pub open spec fn describes_tool(
    start: startup_environment::ProcessStart,
    process_id: u64,
    arguments: Seq<Seq<u8>>,
    environment: Seq<Seq<u8>>,
    origin: ManagedToolStartOrigin,
) -> bool {
    &&& arguments.len() > 0
    &&& start.identity == tool_identity(
        process_id,
        command_line::executable_number(arguments[0]),
    )
    &&& start.arguments == arguments
    &&& environment_agrees(environment, start.environment)
    &&& start.launch.monotonic_start_ns != 0
    &&& start.launch == tool_launch(process_id, start.launch.monotonic_start_ns, origin)
}

fn entry_agrees(entry: &[u8], start: &ValidatedProcessStart<'_>) -> (matching: bool)
    requires
        start.wf(),
    ensures
        matching == entry_matches(entry@, start@.environment),
{
    let mut end: usize = 0;
    while end < entry.len() && entry[end] != 0x3d
        invariant
            end <= entry@.len(),
            name_end(entry@, 0) == name_end(entry@, end as int),
        decreases entry@.len() - end,
    {
        end += 1;
    }
    if end == entry.len() {
        return false;
    }
    let name = &entry[0..end];
    let value = &entry[end + 1..entry.len()];
    assert(name@ =~= entry@.take(end as int));
    assert(value@ =~= entry@.skip(end + 1));
    match start.environment.find(name) {
        Some(found) => equal(found, value),
        None => false,
    }
}

/// Whether a start describes a tool's launch from this origin.
pub fn is_tool_description(
    start: &ValidatedProcessStart<'_>,
    process_id: u64,
    arguments: &[&[u8]],
    environment: &[&[u8]],
    origin: ManagedToolStartOrigin,
) -> (valid: bool)
    requires
        start.wf(),
    ensures
        valid == describes_tool(
            start@,
            process_id,
            startup_sections::argument_views(arguments@),
            startup_sections::argument_views(environment@),
            origin,
        ),
{
    let ghost initial = startup_sections::argument_views(environment@);
    if arguments.len() == 0 {
        return false;
    }
    assert(startup_sections::argument_views(arguments@)[0] == arguments@[0]@);
    let executable: u64 = numeric_executable_id(arguments[0]);
    let identity = StartupIdentity {
        process: process_id,
        package: SYSTEM_PACKAGE_ID,
        package_generation: SYSTEM_PACKAGE_GENERATION,
        executable,
        application: 0,
        service: 0,
        component: executable,
        user: 0,
        session: 0,
    };
    if start.identity != identity || !arguments_match(arguments, start) {
        return false;
    }
    if start.environment.len() != environment.len() {
        return false;
    }
    let mut index: usize = 0;
    while index < environment.len()
        invariant
            start.wf(),
            index <= environment@.len(),
            initial == startup_sections::argument_views(environment@),
            forall|i: int|
                0 <= i < index ==> entry_matches(#[trigger] initial[i], start@.environment),
        decreases environment@.len() - index,
    {
        assert(initial[index as int] == environment@[index as int]@);
        if !entry_agrees(environment[index], start) {
            assert(!entry_matches(initial[index as int], start@.environment));
            return false;
        }
        index += 1;
    }
    start.launch.launch == process_id && start.launch.manager_generation == 0
        && start.launch.namespace_profile == SYSTEM_NAMESPACE_PROFILE_ID
        && start.launch.monotonic_start_ns != 0 && start.launch.attempt == 1 && start.launch.reason
        == StartupLaunchReason::User && start.launch.flags == origin.launch_flags()
}

/// A start that a manager sends for a tool is the one that the tool expects: if it came from the
/// same origin, at a clock that has left zero, with the arguments and the environment that the
/// tool was loaded with.
pub proof fn lemma_sent_tool_start_is_expected(
    process_id: u64,
    arguments: Seq<Seq<u8>>,
    entries: Seq<(Seq<u8>, Seq<u8>)>,
    environment: Seq<Seq<u8>>,
    now: u64,
    origin: ManagedToolStartOrigin,
)
    requires
        arguments.len() > 0,
        now != 0,
        environment_agrees(environment, entries),
    ensures
        describes_tool(
            startup_environment::ProcessStart {
                identity: tool_identity(
                    process_id,
                    command_line::executable_number(arguments[0]),
                ),
                arguments,
                environment: entries,
                launch: tool_launch(process_id, now, origin),
            },
            process_id,
            arguments,
            environment,
            origin,
        ),
{
}

/// What a tool has from its start: nothing where it was started without one.
pub type ToolOutcome = Option<
    Result<Option<(Seq<ContextSlot>, ManagedToolStartOrigin)>, ManagedToolStartError>,
>;

/// Receiving a tool's start.
pub open spec fn tool_receive_run(
    k: kernel::Transcript,
    arguments: Seq<Seq<u8>>,
    environment: Seq<Seq<u8>>,
    policies: Seq<StartupCapabilityPolicy>,
    allow_legacy: bool,
    capacity: usize,
) -> (kernel::Transcript, ToolOutcome) {
    let bootstrap = PROCESS_START_BOOTSTRAP_HANDLE;
    let (asked, info) = ipc::info_run(k, bootstrap);
    match info {
        None => (asked, None),
        Some(Err(_)) => if allow_legacy {
            (asked, Some(Ok(None)))
        } else {
            (asked, Some(Err(ManagedToolStartError::InvalidBootstrap)))
        },
        Some(Ok(info)) => if info.kind != ObjectKind::Endpoint || info.rights
            != Rights::receive() {
            (asked, Some(Err(ManagedToolStartError::InvalidBootstrap)))
        } else {
            let (looked, extra) = extra_capability_run(asked, 2);
            match extra {
                None => (looked, None),
                Some(true) => (
                    looked,
                    Some(Err(ManagedToolStartError::UnexpectedInitialCapability)),
                ),
                Some(false) => tool_identity_run(
                    looked,
                    arguments,
                    environment,
                    policies,
                    capacity,
                ),
            }
        },
    }
}

/// Asking who the tool and its parent are, and receiving its capabilities.
pub open spec fn tool_identity_run(
    k: kernel::Transcript,
    arguments: Seq<Seq<u8>>,
    environment: Seq<Seq<u8>>,
    policies: Seq<StartupCapabilityPolicy>,
    capacity: usize,
) -> (kernel::Transcript, ToolOutcome) {
    let bootstrap = PROCESS_START_BOOTSTRAP_HANDLE;
    let (asked, process_id) = ipc::value_run(k, Op::GetProcessId);
    match process_id {
        None => (asked, None),
        Some(Err(_)) => procedure::fail_after(
            handle::discard_run(asked, Some(bootstrap)),
            ManagedToolStartError::ProcessIdentity,
        ),
        Some(Ok(process_id)) => {
            let (named, parent) = platform::value_run(asked, Op::GetParentProcessId);
            match parent {
                None => (named, None),
                Some(Err(_)) => procedure::fail_after(
                    handle::discard_run(named, Some(bootstrap)),
                    ManagedToolStartError::ProcessIdentity,
                ),
                Some(Ok(parent)) => {
                    let (received, context) = tool_context_run(
                        named,
                        bootstrap,
                        parent,
                        process_id,
                        policies,
                        capacity,
                    );
                    match context {
                        None => (received, None),
                        Some(Err(error)) => procedure::fail_after(
                            handle::discard_run(received, Some(bootstrap)),
                            error,
                        ),
                        Some(Ok((slots, sender, origin))) => tool_description_run(
                            received,
                            slots,
                            sender,
                            origin,
                            process_id,
                            arguments,
                            environment,
                        ),
                    }
                },
            }
        },
    }
}

/// Receiving the description of a tool's start.
pub open spec fn tool_description_run(
    k: kernel::Transcript,
    slots: Seq<ContextSlot>,
    sender: u64,
    origin: ManagedToolStartOrigin,
    process_id: u64,
    arguments: Seq<Seq<u8>>,
    environment: Seq<Seq<u8>>,
) -> (kernel::Transcript, ToolOutcome) {
    let bootstrap = PROCESS_START_BOOTSTRAP_HANDLE;
    let (received, data) = startup_transport::receive_start_run(
        k,
        bootstrap,
        sender,
        startup_environment::standard_sections(),
        startup_environment::standard_sections(),
        START_DATA_BYTES as nat,
        START_DATA_SECTIONS as nat,
    );
    match data {
        None => (received, None),
        Some(Err(error)) => procedure::fail_after(
            abandon_run(received, slots, bootstrap),
            ManagedToolStartError::Transport(error),
        ),
        Some(Ok(assembly)) => match startup_environment::process_start_of(assembly) {
            Err(error) => procedure::fail_after(
                abandon_run(received, slots, bootstrap),
                ManagedToolStartError::Data(error),
            ),
            Ok(start) => {
                let (closed, result) = ipc::close_run(received, bootstrap);
                match result {
                    None => (closed, None),
                    Some(Err(error)) => procedure::fail_after(
                        drop_context_run(closed, slots, 0),
                        ManagedToolStartError::Bootstrap(error),
                    ),
                    Some(Ok(_)) => if describes_tool(
                        start,
                        process_id,
                        arguments,
                        environment,
                        origin,
                    ) {
                        (closed, Some(Ok(Some((slots, origin)))))
                    } else {
                        procedure::fail_after(
                            drop_context_run(closed, slots, 0),
                            ManagedToolStartError::InvalidDescription,
                        )
                    },
                }
            },
        },
    }
}

/// Receiving the capabilities of a tool: from its parent, or from itself before it replaced its
/// program.
pub open spec fn tool_context_run(
    k: kernel::Transcript,
    bootstrap: u64,
    parent: u64,
    process_id: u64,
    policies: Seq<StartupCapabilityPolicy>,
    capacity: usize,
) -> (
    kernel::Transcript,
    Option<Result<(Seq<ContextSlot>, u64, ManagedToolStartOrigin), ManagedToolStartError>>,
) {
    let (asked, message) = startup_transport::receive_record_run(k, bootstrap, capacity);
    match message {
        None => (asked, None),
        Some(Err(error)) => (
            asked,
            Some(Err(ManagedToolStartError::Capabilities(StartupReceiveError::Ipc(error)))),
        ),
        Some(Ok(delivery)) => {
            let handles = startup_transport::capability_slots(
                delivery.capabilities,
                capacity as nat,
            );
            let sender = delivery.sender_process_id;
            if sender != parent && sender != process_id {
                procedure::fail_after(
                    startup_transport::discard_all_run(asked, handles, 0),
                    ManagedToolStartError::Capabilities(StartupReceiveError::WrongSender),
                )
            } else {
                let origin = if sender == parent {
                    ManagedToolStartOrigin::Parent
                } else {
                    ManagedToolStartOrigin::Exec
                };
                let (adopted, context) = startup_transport::adopt_record_run(
                    asked,
                    delivery.payload,
                    handles,
                    policies,
                    StartupRuntimeRole::Tool,
                );
                (
                    adopted,
                    match context {
                        None => None,
                        Some(Err(error)) => Some(Err(ManagedToolStartError::Capabilities(error))),
                        Some(Ok(slots)) => Some(Ok((slots, sender, origin))),
                    },
                )
            }
        },
    }
}

/// Whether a tool's capabilities are what came out.
pub open spec fn tool_context<const N: usize>(
    result: Option<
        Result<(ProcessContext<ToolProcess, N>, u64, ManagedToolStartOrigin), ManagedToolStartError>,
    >,
    outcome: Option<
        Result<(Seq<ContextSlot>, u64, ManagedToolStartOrigin), ManagedToolStartError>,
    >,
) -> bool {
    match (result, outcome) {
        (None, None) => true,
        (Some(Ok((context, sender, origin))), Some(Ok(expected))) => {
            &&& context@ == expected.0
            &&& sender == expected.1
            &&& origin == expected.2
        },
        (Some(Err(error)), Some(Err(expected))) => error == expected,
        _ => false,
    }
}

fn receive_managed_tool_context<const N: usize>(
    k: &mut Kernel,
    bootstrap: &OwnedHandle<Endpoint>,
    parent_process_id: u64,
    process_id: u64,
    policies: &[StartupCapabilityPolicy],
) -> (result: Option<
    Result<(ProcessContext<ToolProcess, N>, u64, ManagedToolStartOrigin), ManagedToolStartError>,
>)
    requires
        bootstrap@ is Some,
    ensures
        final(k)@ == tool_context_run(
            old(k)@,
            bootstrap@->Some_0,
            parent_process_id,
            process_id,
            policies@,
            N,
        ).0,
        tool_context(
            result,
            tool_context_run(
                old(k)@,
                bootstrap@->Some_0,
                parent_process_id,
                process_id,
                policies@,
                N,
            ).1,
        ),
{
    let (message, payload) = match receive_record::<N>(k, bootstrap)? {
        Ok(message) => message,
        Err(error) => {
            return Some(
                Err(ManagedToolStartError::Capabilities(StartupReceiveError::Ipc(error))),
            );
        },
    };
    let ghost delivered = startup_transport::receive_record_run(
        old(k)@,
        bootstrap@->Some_0,
        N,
    ).1->Some_0->Ok_0.capabilities;
    let handles = into_slots::<N>(message.capabilities, Ghost(delivered));
    let sender: u64 = message.sender_process_id;
    let origin = if sender == parent_process_id {
        ManagedToolStartOrigin::Parent
    } else if sender == process_id {
        ManagedToolStartOrigin::Exec
    } else {
        startup_transport::discard_all(k, handles)?;
        return Some(
            Err(ManagedToolStartError::Capabilities(StartupReceiveError::WrongSender)),
        );
    };
    match adopt_record::<ToolProcess, N>(k, payload.as_slice(), handles, policies)? {
        Ok(context) => Some(Ok((context, sender, origin))),
        Err(error) => Some(Err(ManagedToolStartError::Capabilities(error))),
    }
}

/// Whether a tool's start is what came out.
pub open spec fn tool_started<const N: usize>(
    result: Option<Result<Option<ManagedToolStart<N>>, ManagedToolStartError>>,
    outcome: ToolOutcome,
) -> bool {
    match (result, outcome) {
        (None, None) => true,
        (Some(Ok(None)), Some(Ok(None))) => true,
        (Some(Ok(Some(start))), Some(Ok(Some((slots, origin))))) => start.context@ == slots
            && start.origin == origin,
        (Some(Err(error)), Some(Err(expected))) => error == expected,
        _ => false,
    }
}

fn receive_managed_tool_start_inner<const N: usize>(
    k: &mut Kernel,
    arguments: &[&[u8]],
    environment: &[&[u8]],
    policies: &[StartupCapabilityPolicy],
    allow_legacy: bool,
) -> (result: Option<Result<Option<ManagedToolStart<N>>, ManagedToolStartError>>)
    ensures
        final(k)@ == tool_receive_run(
            old(k)@,
            startup_sections::argument_views(arguments@),
            startup_sections::argument_views(environment@),
            policies@,
            allow_legacy,
            N,
        ).0,
        tool_started(
            result,
            tool_receive_run(
                old(k)@,
                startup_sections::argument_views(arguments@),
                startup_sections::argument_views(environment@),
                policies@,
                allow_legacy,
                N,
            ).1,
        ),
{
    let info = match ipc::info(k, PROCESS_START_BOOTSTRAP_HANDLE)? {
        Ok(info) => info,
        Err(_) => {
            if allow_legacy {
                return Some(Ok(None));
            }
            return Some(Err(ManagedToolStartError::InvalidBootstrap));
        },
    };
    if info.kind != ObjectKind::Endpoint || info.rights != Rights::receive() {
        return Some(Err(ManagedToolStartError::InvalidBootstrap));
    }
    if has_extra_capability(k)? {
        return Some(Err(ManagedToolStartError::UnexpectedInitialCapability));
    }
    let bootstrap = match OwnedHandle::<Endpoint>::from_raw(PROCESS_START_BOOTSTRAP_HANDLE) {
        Ok(bootstrap) => bootstrap,
        Err(error) => {
            return Some(Err(ManagedToolStartError::Bootstrap(error)));
        },
    };
    let process_id: u64 = match getpid(k)? {
        Ok(process_id) => process_id,
        Err(_) => {
            bootstrap.discard(k)?;
            return Some(Err(ManagedToolStartError::ProcessIdentity));
        },
    };
    let parent_process_id: u64 = match platform::getppid(k)? {
        Ok(parent) => parent,
        Err(_) => {
            bootstrap.discard(k)?;
            return Some(Err(ManagedToolStartError::ProcessIdentity));
        },
    };
    let (context, expected_sender, origin) = match receive_managed_tool_context::<N>(
        k,
        &bootstrap,
        parent_process_id,
        process_id,
        policies,
    )? {
        Ok(received) => received,
        Err(error) => {
            bootstrap.discard(k)?;
            return Some(Err(error));
        },
    };
    let sections = standard_sections();
    let data = match receive_process_start_data::<START_DATA_BYTES, START_DATA_SECTIONS>(
        k,
        &bootstrap,
        expected_sender,
        &sections,
        &sections,
    )? {
        Ok(data) => data,
        Err(error) => {
            abandon(k, context, bootstrap)?;
            return Some(Err(ManagedToolStartError::Transport(error)));
        },
    };
    let start = match ValidatedProcessStart::from_data(&data) {
        Ok(start) => start,
        Err(error) => {
            abandon(k, context, bootstrap)?;
            return Some(Err(ManagedToolStartError::Data(error)));
        },
    };
    if let Err(error) = bootstrap.close(k)? {
        drop_context(k, context)?;
        return Some(Err(ManagedToolStartError::Bootstrap(error)));
    }
    if !is_tool_description(&start, process_id, arguments, environment, origin) {
        drop_context(k, context)?;
        return Some(Err(ManagedToolStartError::InvalidDescription));
    }
    Some(Ok(Some(ManagedToolStart { context, origin })))
}

/// Checks a tool's start before the program runs. Without a bootstrap endpoint the tool was
/// started without one; a bootstrap endpoint or a start that is malformed is always a failure.
pub fn initialize_managed_tool_start(k: &mut Kernel, arguments: &[&[u8]], environment: &[&[u8]]) -> (result:
    Option<Result<ManagedToolStartMode, ManagedToolStartError>>)
    ensures
        ({
            let (received, outcome) = tool_receive_run(
                old(k)@,
                startup_sections::argument_views(arguments@),
                startup_sections::argument_views(environment@),
                seq![],
                true,
                0,
            );
            match outcome {
                None => result is None && final(k)@ == received,
                Some(Err(error)) => result == Some(Err::<ManagedToolStartMode, _>(error))
                    && final(k)@ == received,
                Some(Ok(None)) => result == Some(
                    Ok::<_, ManagedToolStartError>(ManagedToolStartMode::Legacy),
                ) && final(k)@ == received,
                Some(Ok(Some((slots, _)))) => {
                    let (dropped, done) = drop_context_run(received, slots, 0);
                    &&& final(k)@ == dropped
                    &&& match done {
                        None => result is None,
                        Some(_) => result == Some(
                            Ok::<_, ManagedToolStartError>(ManagedToolStartMode::Managed),
                        ),
                    }
                },
            }
        }),
{
    let none: [StartupCapabilityPolicy; 0] = [];
    assert(none@ =~= seq![]);
    match receive_managed_tool_start_inner::<0>(k, arguments, environment, &none, true)? {
        Err(error) => Some(Err(error)),
        Ok(None) => Some(Ok(ManagedToolStartMode::Legacy)),
        Ok(Some(start)) => {
            drop_context(k, start.context)?;
            Some(Ok(ManagedToolStartMode::Managed))
        },
    }
}

/// Receives the start of a tool that must have one, with its capabilities.
pub fn receive_capability_managed_tool_start<const N: usize>(
    k: &mut Kernel,
    arguments: &[&[u8]],
    environment: &[&[u8]],
    policies: &[StartupCapabilityPolicy],
) -> (result: Option<Result<ManagedToolStart<N>, ManagedToolStartError>>)
    ensures
        ({
            let (received, outcome) = tool_receive_run(
                old(k)@,
                startup_sections::argument_views(arguments@),
                startup_sections::argument_views(environment@),
                policies@,
                false,
                N,
            );
            &&& final(k)@ == received
            &&& match (result, outcome) {
                (None, None) => true,
                (Some(Ok(start)), Some(Ok(Some((slots, origin))))) => start.context@ == slots
                    && start.origin == origin,
                (Some(Err(error)), Some(Ok(None))) => error
                    == ManagedToolStartError::InvalidBootstrap,
                (Some(Err(error)), Some(Err(expected))) => error == expected,
                _ => false,
            }
        }),
{
    match receive_managed_tool_start_inner::<N>(k, arguments, environment, policies, false)? {
        Err(error) => Some(Err(error)),
        Ok(None) => Some(Err(ManagedToolStartError::InvalidBootstrap)),
        Ok(Some(start)) => Some(Ok(start)),
    }
}

/// Receives the start of a tool that may have one, with its capabilities.
pub fn receive_optional_capability_managed_tool_start<const N: usize>(
    k: &mut Kernel,
    arguments: &[&[u8]],
    environment: &[&[u8]],
    policies: &[StartupCapabilityPolicy],
) -> (result: Option<Result<Option<ManagedToolStart<N>>, ManagedToolStartError>>)
    ensures
        final(k)@ == tool_receive_run(
            old(k)@,
            startup_sections::argument_views(arguments@),
            startup_sections::argument_views(environment@),
            policies@,
            true,
            N,
        ).0,
        tool_started(
            result,
            tool_receive_run(
                old(k)@,
                startup_sections::argument_views(arguments@),
                startup_sections::argument_views(environment@),
                policies@,
                true,
                N,
            ).1,
        ),
{
    receive_managed_tool_start_inner::<N>(k, arguments, environment, policies, true)
}

/// Where the sections of a start are found.
proof fn lemma_sections_are_found(sections: Seq<process_start::Section>)
    requires
        sections.len() == 4,
        sections[0].id == StartupSectionId::identity(),
        sections[1].id == StartupSectionId::arguments(),
        sections[2].id == StartupSectionId::environment(),
        sections[3].id == StartupSectionId::launch(),
    ensures
        process_start::lookup(sections, StartupSectionId::identity()) == Some(sections[0].payload),
        process_start::lookup(sections, StartupSectionId::arguments()) == Some(sections[1].payload),
        process_start::lookup(sections, StartupSectionId::environment()) == Some(
            sections[2].payload,
        ),
        process_start::lookup(sections, StartupSectionId::launch()) == Some(sections[3].payload),
        process_start::stored(sections) == sections[0].payload.len() + sections[1].payload.len()
            + sections[2].payload.len() + sections[3].payload.len(),
        (forall|i: int| 0 <= i < 4 ==> (#[trigger] sections[i]).payload.len() > 0)
            ==> startup_transport::misplaced(sections, 0) is None,
{
    reveal_with_fuel(process_start::stored, 5);
    reveal_with_fuel(process_start::lookup, 5);
    reveal_with_fuel(startup_transport::misplaced, 5);
    assert(sections.drop_last().drop_last().drop_last().drop_last() =~= seq![]);
}

/// That all sections of a start are there.
proof fn lemma_nothing_is_missing(assembly: process_start::Assembly)
    requires
        assembly.incoming is None,
        process_start::lookup(assembly.sections, StartupSectionId::identity()) is Some,
        process_start::lookup(assembly.sections, StartupSectionId::arguments()) is Some,
        process_start::lookup(assembly.sections, StartupSectionId::environment()) is Some,
        process_start::lookup(assembly.sections, StartupSectionId::launch()) is Some,
    ensures
        process_start::required_sections(assembly, startup_environment::standard_sections()) is Ok,
{
    let standard = startup_environment::standard_sections();
    assert forall|i: int| 0 <= i < standard.len() implies process_start::lookup(
        assembly.sections,
        #[trigger] standard[i],
    ) is Some by {
        assert(i == 0 || i == 1 || i == 2 || i == 3);
    }
    startup_transport::lemma_all_required(assembly, standard);
}

/// Whether these are the sections of a start, filled and small enough to be sent.
spec fn is_start(sections: Seq<process_start::Section>) -> bool {
    &&& sections.len() == 4
    &&& sections[0].id == StartupSectionId::identity()
    &&& sections[1].id == StartupSectionId::arguments()
    &&& sections[2].id == StartupSectionId::environment()
    &&& sections[3].id == StartupSectionId::launch()
    &&& forall|i: int|
        0 <= i < 4 ==> 0 < (#[trigger] sections[i]).payload.len() <= MAX_ARGUMENT_BYTES
    &&& sections[0].payload.len() + sections[1].payload.len() + sections[2].payload.len()
        + sections[3].payload.len() <= START_DATA_BYTES
}

/// Taking the messages of a start gives its sections back.
proof fn lemma_start_is_taken(sections: Seq<process_start::Section>)
    requires
        is_start(sections),
    ensures
        startup_transport::take_messages(
            process_start::Assembly::empty(),
            startup_transport::stream_from(sections, 0),
            startup_environment::standard_sections(),
            startup_environment::standard_sections(),
            START_DATA_BYTES as nat,
            START_DATA_SECTIONS as nat,
        ) matches Some(Ok(assembly)) && assembly.sections == sections
            && process_start::required_sections(
            assembly,
            startup_environment::standard_sections(),
        ) is Ok,
{
    let standard = startup_environment::standard_sections();
    lemma_sections_are_found(sections);
    assert forall|i: int| 0 <= i < sections.len() implies {
        &&& (#[trigger] sections[i]).payload.len() <= MAX_ARGUMENT_BYTES
        &&& sections[i].id.valid()
        &&& standard.contains(sections[i].id)
    } by {
        assert(sections[i].id == standard[i]);
    }
    assert forall|i: int| 0 <= i < standard.len() implies process_start::lookup(
        sections,
        #[trigger] standard[i],
    ) is Some by {
        assert(i == 0 || i == 1 || i == 2 || i == 3);
    }
    startup_transport::lemma_stream_round_trip(
        sections,
        standard,
        standard,
        START_DATA_BYTES as nat,
        START_DATA_SECTIONS as nat,
    );
    lemma_nothing_is_missing(
        startup_transport::take_messages(
            process_start::Assembly::empty(),
            startup_transport::stream_from(sections, 0),
            standard,
            standard,
            START_DATA_BYTES as nat,
            START_DATA_SECTIONS as nat,
        )->Some_0->Ok_0,
    );
}

/// Whether sections hold a start.
#[verifier::opaque]
spec fn reads_as(
    sections: Seq<process_start::Section>,
    start: startup_environment::ProcessStart,
) -> bool {
    &&& sections[0].payload.len() == startup_sections::IDENTITY_BYTES
    &&& StartupIdentity::at(sections[0].payload) == start.identity
    &&& startup_sections::parse_arguments(sections[1].payload) == Some(start.arguments)
    &&& startup_environment::parse_environment(sections[2].payload) == Some(start.environment)
    &&& StartupLaunch::at(sections[3].payload) == Some(start.launch)
}

/// The start that sections hold which can be read.
proof fn lemma_sections_are_read(
    sections: Seq<process_start::Section>,
    start: startup_environment::ProcessStart,
)
    requires
        is_start(sections),
        reads_as(sections, start),
    ensures
        startup_transport::take_messages(
            process_start::Assembly::empty(),
            startup_transport::stream_from(sections, 0),
            startup_environment::standard_sections(),
            startup_environment::standard_sections(),
            START_DATA_BYTES as nat,
            START_DATA_SECTIONS as nat,
        ) matches Some(Ok(assembly)) && startup_environment::process_start_of(assembly) == Ok::<
            _,
            StartupDataError,
        >(start),
{
    reveal(reads_as);
    lemma_start_is_taken(sections);
    lemma_sections_are_found(sections);
}

/// The identity and the launch of a start can be read.
proof fn lemma_fixed_sections_hold_the_start(identity: StartupIdentity, launch: StartupLaunch)
    ensures
        bytes::words(identity.fields()).len() == startup_sections::IDENTITY_BYTES,
        StartupIdentity::at(bytes::words(identity.fields())) == identity,
        StartupLaunch::at(launch.section()) == Some(launch),
        launch.section().len() == startup_sections::LAUNCH_BYTES,
{
    startup_sections::lemma_identity_round_trip(identity);
    startup_sections::lemma_launch_round_trip(launch);
}

/// The arguments and the environment of a start can be read.
proof fn lemma_bounded_sections_hold_the_start(
    arguments: Seq<Seq<u8>>,
    environment: Seq<(Seq<u8>, Seq<u8>)>,
)
    requires
        arguments_encodable(arguments),
        environment_encodable(environment),
    ensures
        ({
            let first = startup_sections::arguments_section(arguments);
            let second = startup_environment::environment_section(environment);
            &&& startup_sections::parse_arguments(first) == Some(arguments)
            &&& 0 < first.len() <= MAX_ARGUMENT_BYTES
            &&& startup_environment::parse_environment(second) == Some(environment)
            &&& 0 < second.len() <= MAX_ENVIRONMENT_BYTES
        }),
{
    assert(arguments.take(arguments.len() as int) =~= arguments);
    assert(environment.take(environment.len() as int) =~= environment);
    startup_sections::lemma_arguments_round_trip(arguments);
    startup_environment::lemma_environment_round_trip(environment);
}

/// Sections that can be read are those of a start.
proof fn lemma_readable_sections_are_a_start(
    sections: Seq<process_start::Section>,
    start: startup_environment::ProcessStart,
    payloads: (Seq<u8>, Seq<u8>, Seq<u8>, Seq<u8>),
)
    requires
        sections.len() == 4,
        sections[0] == (process_start::Section {
            id: StartupSectionId::identity(),
            required: true,
            payload: payloads.0,
        }),
        sections[1] == (process_start::Section {
            id: StartupSectionId::arguments(),
            required: true,
            payload: payloads.1,
        }),
        sections[2] == (process_start::Section {
            id: StartupSectionId::environment(),
            required: true,
            payload: payloads.2,
        }),
        sections[3] == (process_start::Section {
            id: StartupSectionId::launch(),
            required: true,
            payload: payloads.3,
        }),
        payloads.0.len() == startup_sections::IDENTITY_BYTES,
        0 < payloads.1.len() <= MAX_ARGUMENT_BYTES,
        0 < payloads.2.len() <= MAX_ENVIRONMENT_BYTES,
        payloads.3.len() == startup_sections::LAUNCH_BYTES,
        payloads.1.len() + payloads.2.len() + 112 <= START_DATA_BYTES,
        StartupIdentity::at(payloads.0) == start.identity,
        startup_sections::parse_arguments(payloads.1) == Some(start.arguments),
        startup_environment::parse_environment(payloads.2) == Some(start.environment),
        StartupLaunch::at(payloads.3) == Some(start.launch),
    ensures
        is_start(sections),
        reads_as(sections, start),
{
    reveal(reads_as);
}

/// What a manager sends to describe a start is what the process gets: the messages, taken one after
/// the other, hold the identity, the arguments, the environment and the launch that were sent, as
/// long as they fit into what the process sets aside for them.
#[verifier::rlimit(40)]
pub proof fn lemma_sent_start_is_received(
    identity: StartupIdentity,
    arguments: Seq<Seq<u8>>,
    environment: Seq<(Seq<u8>, Seq<u8>)>,
    launch: StartupLaunch,
)
    requires
        arguments_encodable(arguments),
        environment_encodable(environment),
        startup_sections::arguments_section(arguments).len()
            + startup_environment::environment_section(environment).len() + 112
            <= START_DATA_BYTES,
    ensures
        startup_transport::take_messages(
            process_start::Assembly::empty(),
            startup_transport::stream_from(
                start_sections(identity, arguments, environment, launch),
                0,
            ),
            startup_environment::standard_sections(),
            startup_environment::standard_sections(),
            START_DATA_BYTES as nat,
            START_DATA_SECTIONS as nat,
        ) matches Some(Ok(assembly)) && startup_environment::process_start_of(assembly) == Ok::<
            _,
            StartupDataError,
        >(startup_environment::ProcessStart { identity, arguments, environment, launch }),
{
    let sections = start_sections(identity, arguments, environment, launch);
    let start = startup_environment::ProcessStart { identity, arguments, environment, launch };
    lemma_fixed_sections_hold_the_start(identity, launch);
    lemma_bounded_sections_hold_the_start(arguments, environment);
    lemma_readable_sections_are_a_start(
        sections,
        start,
        (
            bytes::words(identity.fields()),
            startup_sections::arguments_section(arguments),
            startup_environment::environment_section(environment),
            launch.section(),
        ),
    );
    lemma_sections_are_read(sections, start);
}

/// Whether a start was described to a process: what was sent since an earlier point are messages
/// to one endpoint which, taken one after the other, come to this start.
pub open spec fn described(
    before: kernel::Transcript,
    after: kernel::Transcript,
    sender: u64,
    start: startup_environment::ProcessStart,
) -> bool {
    exists|messages: Seq<Seq<u8>>|
        {
            &&& after.asked == #[trigger] startup_transport::sent(before, sender, messages)
            &&& startup_transport::take_messages(
                process_start::Assembly::empty(),
                messages,
                startup_environment::standard_sections(),
                startup_environment::standard_sections(),
                START_DATA_BYTES as nat,
                START_DATA_SECTIONS as nat,
            ) matches Some(Ok(assembly)) && startup_environment::process_start_of(assembly)
                == Ok::<_, StartupDataError>(start)
        }
}

/// Whether duplicates were made of the first capabilities, in their order.
spec fn duplicated(
    k: kernel::Transcript,
    from: int,
    capabilities: Seq<ManagedToolCapability>,
    duplicates: Seq<u64>,
) -> bool {
    forall|i: int|
        0 <= i < duplicates.len() ==> ipc::answered(
            k,
            from + i,
            copying(capabilities[i]),
            #[trigger] duplicates[i],
        )
}

/// The call that makes a copy of a capability for a process: with its rights, and so that it can be
/// moved.
pub open spec fn copying(capability: ManagedToolCapability) -> Op {
    Op::Duplicate {
        handle: capability.source_handle,
        rights: capability.rights.with(Rights::transfer()).raw,
    }
}

proof fn lemma_close_all_closes(k: kernel::Transcript, handles: Seq<u64>, i: int)
    requires
        0 <= i <= handles.len(),
        close_all_run(k, handles, i).1 is Some,
    ensures
        ({
            let after = close_all_run(k, handles, i).0;
            &&& after.follows(k)
            &&& after.asked.len() == k.asked.len() + handles.len() - i
            &&& forall|j: int|
                i <= j < handles.len() ==> (#[trigger] after.asked[k.asked.len() + j - i]).op
                    == Op::Close { handle: handles[j] }
        }),
    decreases handles.len() - i,
{
    if i < handles.len() {
        let (first, _) = ipc::close_run(k, handles[i]);
        lemma_close_all_closes(first, handles, i + 1);
        let after = close_all_run(k, handles, i).0;
        assert(after.asked[k.asked.len() as int] == first.asked[k.asked.len() as int]);
        assert forall|j: int| 0 <= j < k.asked.len() implies after.asked[j]
            == #[trigger] k.asked[j] by {
            assert(first.asked[j] == k.asked[j]);
        }
        assert forall|j: int| i <= j < handles.len() implies (
        #[trigger] after.asked[k.asked.len() + j - i]).op == Op::Close { handle: handles[j] } by {
            if j > i {
                assert(k.asked.len() + j - i == first.asked.len() + j - (i + 1));
            }
        }
    }
}

proof fn lemma_duplicates_are_made(
    k: kernel::Transcript,
    capabilities: Seq<ManagedToolCapability>,
    duplicates: Seq<u64>,
)
    requires
        duplicates.len() <= capabilities.len(),
        duplicates.len() <= k.asked.len(),
        duplicated(k, k.asked.len() - duplicates.len(), capabilities, duplicates),
        duplicate_all_run(k, capabilities, duplicates).1 matches Some(Ok(_)),
    ensures
        ({
            let (after, outcome) = duplicate_all_run(k, capabilities, duplicates);
            let made = outcome->Some_0->Ok_0;
            &&& after.follows(k)
            &&& made.len() == capabilities.len()
            &&& after.asked.len() == k.asked.len() + capabilities.len() - duplicates.len()
            &&& duplicated(after, k.asked.len() - duplicates.len(), capabilities, made)
        }),
    decreases capabilities.len() - duplicates.len(),
{
    let i = duplicates.len() as int;
    if i < capabilities.len() {
        let (asked, value) = ipc::value_run(k, copying(capabilities[i]));
        let handle = value->Some_0->Ok_0;
        let next = duplicates.push(handle);
        let from = k.asked.len() - duplicates.len();
        assert forall|j: int| 0 <= j < next.len() implies ipc::answered(
            asked,
            from + j,
            copying(capabilities[j]),
            #[trigger] next[j],
        ) by {
            if j < i {
                assert(ipc::answered(k, from + j, copying(capabilities[j]), duplicates[j]));
            }
        }
        lemma_duplicates_are_made(asked, capabilities, next);
        let after = duplicate_all_run(k, capabilities, duplicates).0;
        assert forall|j: int| 0 <= j < k.asked.len() implies after.asked[j]
            == #[trigger] k.asked[j] by {
            assert(asked.asked[j] == k.asked[j]);
        }
    }
}

/// Capabilities that were sent to a process reach it in the roles that they are meant for, with the
/// rights that they are meant to have: a copy of each was made and moved, and the record that went
/// with them names the roles in the same order. What the copies were made of stays open.
pub proof fn lemma_sent_capabilities_reach_their_roles(
    k: kernel::Transcript,
    sender: u64,
    runtime_role: StartupRuntimeRole,
    capabilities: Seq<ManagedToolCapability>,
)
    requires
        send_capabilities_run(k, sender, runtime_role, capabilities).1 matches Some(Ok(_)),
    ensures
        ({
            let after = send_capabilities_run(k, sender, runtime_role, capabilities).0;
            let n = k.asked.len() as int;
            let message = after.asked.last();
            &&& after.follows(k)
            &&& after.asked.len() == n + capabilities.len() + 1
            &&& message.op == Op::SendMoveMany {
                endpoint: sender,
                count: capabilities.len() as u64,
            }
            &&& message.attached.len() == capabilities.len()
            &&& forall|i: int|
                0 <= i < capabilities.len() ==> {
                    &&& (#[trigger] message.attached[i]).1 == capabilities[i].rights.raw
                    &&& ipc::answered(
                        after,
                        n + i,
                        copying(capabilities[i]),
                        message.attached[i].0,
                    )
                }
            &&& forall|capacity: int|
                (startup_record::StartupPlan {
                    runtime_role,
                    resources: tool_resources(capabilities),
                }).valid(capacity) && (startup_record::StartupPlan {
                    runtime_role,
                    resources: tool_resources(capabilities),
                }).named() ==> (#[trigger] startup_record::parse_startup(
                    message.bytes,
                    capacity,
                ) matches Ok(plan) && plan.runtime_role == runtime_role && plan.resources.len()
                    == capabilities.len() && forall|i: int|
                    0 <= i < capabilities.len() ==> (#[trigger] plan.resources[i]).role
                        == capabilities[i].role && plan.resources[i].required)
        }),
{
    let (first, made) = duplicate_all_run(k, capabilities, seq![]);
    lemma_duplicates_are_made(k, capabilities, seq![]);
    let duplicates = made->Some_0->Ok_0;
    let after = send_capabilities_run(k, sender, runtime_role, capabilities).0;
    let n = k.asked.len() as int;
    let message = after.asked.last();
    assert forall|j: int| 0 <= j < k.asked.len() implies after.asked[j]
        == #[trigger] k.asked[j] by {
        assert(first.asked[j] == k.asked[j]);
    }
    assert forall|i: int| 0 <= i < capabilities.len() implies {
        &&& (#[trigger] message.attached[i]).1 == capabilities[i].rights.raw
        &&& ipc::answered(after, n + i, copying(capabilities[i]), message.attached[i].0)
    } by {
        assert(ipc::answered(first, n + i, copying(capabilities[i]), duplicates[i]));
    }
    let plan = startup_record::StartupPlan {
        runtime_role,
        resources: tool_resources(capabilities),
    };
    assert forall|capacity: int| plan.valid(capacity) && plan.named() implies (
    #[trigger] startup_record::parse_startup(message.bytes, capacity)) == Ok::<_, StartupError>(
        plan,
    ) by {
        startup_record::lemma_startup_record_round_trip(plan, capacity);
    }
}

/// Whether every copy that was made from a point on was closed again.
pub open spec fn copies_closed(before: kernel::Transcript, after: kernel::Transcript) -> bool {
    forall|i: int, handle: u64|
        before.asked.len() <= i < after.asked.len() && i < after.replies.len() && (
        #[trigger] after.asked[i]).op is Duplicate && ipc::decoded(after.replies[i].result)
            == Ok::<u64, ipc::Error>(handle) ==> after.asked_since(
            before,
            #[trigger] kernel::closing(handle),
        )
}

/// Closing all duplicates leaves no copy open.
proof fn lemma_closed_duplicates(
    start: kernel::Transcript,
    k: kernel::Transcript,
    capabilities: Seq<ManagedToolCapability>,
    duplicates: Seq<u64>,
)
    requires
        k.follows(start),
        start.asked.len() + duplicates.len() <= k.asked.len(),
        duplicated(k, start.asked.len() as int, capabilities, duplicates),
        forall|i: int|
            start.asked.len() + duplicates.len() <= i < k.asked.len() ==> (!((
            #[trigger] k.asked[i]).op is Duplicate) || (i < k.replies.len() && ipc::decoded(
                k.replies[i].result,
            ) is Err)),
        close_all_run(k, duplicates, 0).1 is Some,
    ensures
        close_all_run(k, duplicates, 0).0.follows(start),
        copies_closed(start, close_all_run(k, duplicates, 0).0),
{
    let after = close_all_run(k, duplicates, 0).0;
    lemma_close_all_closes(k, duplicates, 0);
    let n = start.asked.len() as int;
    assert forall|j: int| 0 <= j < start.asked.len() implies after.asked[j]
        == #[trigger] start.asked[j] by {
        assert(k.asked[j] == start.asked[j]);
    }
    assert forall|i: int, handle: u64|
        start.asked.len() <= i < after.asked.len() && i < after.replies.len() && (
        #[trigger] after.asked[i]).op is Duplicate && ipc::decoded(after.replies[i].result)
            == Ok::<u64, ipc::Error>(handle) implies after.asked_since(
        start,
        #[trigger] kernel::closing(handle),
    ) by {
        if i < k.asked.len() {
            assert(after.asked[i] == k.asked[i]);
            assert(i < n + duplicates.len());
            let j = i - n;
            assert(ipc::answered(k, n + j, copying(capabilities[j]), duplicates[j]));
            assert(after.asked[k.asked.len() + j - 0].op == kernel::closing(handle));
        } else {
            let j = i - k.asked.len();
            assert(after.asked[k.asked.len() + j - 0].op == Op::Close { handle: duplicates[j] });
        }
    }
}

proof fn lemma_failed_duplicates_are_closed(
    start: kernel::Transcript,
    k: kernel::Transcript,
    capabilities: Seq<ManagedToolCapability>,
    duplicates: Seq<u64>,
)
    requires
        k.follows(start),
        duplicates.len() <= capabilities.len(),
        k.asked.len() == start.asked.len() + duplicates.len(),
        duplicated(k, start.asked.len() as int, capabilities, duplicates),
        duplicate_all_run(k, capabilities, duplicates).1 matches Some(Err(_)),
    ensures
        duplicate_all_run(k, capabilities, duplicates).0.follows(start),
        copies_closed(start, duplicate_all_run(k, capabilities, duplicates).0),
    decreases capabilities.len() - duplicates.len(),
{
    let i = duplicates.len() as int;
    let (asked, value) = ipc::value_run(k, copying(capabilities[i]));
    assert(asked.follows(start)) by {
        assert forall|j: int| 0 <= j < start.asked.len() implies asked.asked[j]
            == #[trigger] start.asked[j] by {
            assert(k.asked[j] == start.asked[j]);
        }
    }
    assert forall|j: int| 0 <= j < duplicates.len() implies ipc::answered(
        asked,
        start.asked.len() + j,
        copying(capabilities[j]),
        #[trigger] duplicates[j],
    ) by {
        assert(ipc::answered(
            k,
            start.asked.len() + j,
            copying(capabilities[j]),
            duplicates[j],
        ));
    }
    match value->Some_0 {
        Err(_) => {
            lemma_closed_duplicates(start, asked, capabilities, duplicates);
        },
        Ok(handle) => {
            let next = duplicates.push(handle);
            assert forall|j: int| 0 <= j < next.len() implies ipc::answered(
                asked,
                start.asked.len() + j,
                copying(capabilities[j]),
                #[trigger] next[j],
            ) by {
                if j < i {
                    assert(next[j] == duplicates[j]);
                }
            }
            lemma_failed_duplicates_are_closed(start, asked, capabilities, next);
        },
    }
}

/// Capabilities that could not be sent leave no copy behind.
pub proof fn lemma_failed_send_leaves_no_copy(
    k: kernel::Transcript,
    sender: u64,
    runtime_role: StartupRuntimeRole,
    capabilities: Seq<ManagedToolCapability>,
)
    requires
        send_capabilities_run(k, sender, runtime_role, capabilities).1 matches Some(Err(_)),
    ensures
        send_capabilities_run(k, sender, runtime_role, capabilities).0.follows(k),
        copies_closed(k, send_capabilities_run(k, sender, runtime_role, capabilities).0),
{
    let (first, made) = duplicate_all_run(k, capabilities, seq![]);
    match made->Some_0 {
        Err(_) => {
            lemma_failed_duplicates_are_closed(k, k, capabilities, seq![]);
        },
        Ok(duplicates) => {
            lemma_duplicates_are_made(k, capabilities, seq![]);
            if startup_record::duplicate_role(tool_resources(capabilities), 0) is Some {
                lemma_closed_duplicates(k, first, capabilities, duplicates);
            } else {
                let sent = startup_transport::send_record_run(
                    first,
                    sender,
                    startup_record::StartupPlan {
                        runtime_role,
                        resources: tool_resources(capabilities),
                    },
                    tool_transfers(capabilities, duplicates),
                ).0;
                assert(sent.follows(k)) by {
                    assert forall|j: int| 0 <= j < k.asked.len() implies sent.asked[j]
                        == #[trigger] k.asked[j] by {
                        assert(first.asked[j] == k.asked[j]);
                    }
                }
                assert forall|j: int| 0 <= j < duplicates.len() implies ipc::answered(
                    sent,
                    k.asked.len() + j,
                    copying(capabilities[j]),
                    #[trigger] duplicates[j],
                ) by {
                    assert(ipc::answered(
                        first,
                        k.asked.len() + j,
                        copying(capabilities[j]),
                        duplicates[j],
                    ));
                }
                lemma_closed_duplicates(k, sent, capabilities, duplicates);
            }
        },
    }
}

/// Whether every capability that was received was closed after a point.
pub open spec fn context_closed(
    before: kernel::Transcript,
    after: kernel::Transcript,
    slots: Seq<ContextSlot>,
) -> bool {
    forall|i: int|
        0 <= i < slots.len() ==> ((#[trigger] slots[i]) matches Some((_, Some(handle))) ==> {
            after.asked_since(before, kernel::closing(handle))
        })
}

proof fn lemma_dropped_context_is_closed(k: kernel::Transcript, slots: Seq<ContextSlot>, i: int)
    requires
        0 <= i <= slots.len(),
        drop_context_run(k, slots, i).1 is Some,
    ensures
        drop_context_run(k, slots, i).0.follows(k),
        forall|j: int|
            i <= j < slots.len() ==> ((#[trigger] slots[j]) matches Some((_, Some(handle))) ==> {
                drop_context_run(k, slots, i).0.asked_since(k, kernel::closing(handle))
            }),
    decreases slots.len() - i,
{
    if i < slots.len() {
        let after = drop_context_run(k, slots, i).0;
        match slots[i] {
            None => lemma_dropped_context_is_closed(k, slots, i + 1),
            Some((_, raw)) => {
                let closed = handle::discard_run(k, raw).0;
                lemma_dropped_context_is_closed(closed, slots, i + 1);
                assert forall|j: int| 0 <= j < k.asked.len() implies after.asked[j]
                    == #[trigger] k.asked[j] by {
                    assert(closed.asked[j] == k.asked[j]);
                }
                if raw is Some {
                    assert(after.asked[k.asked.len() as int] == closed.asked[k.asked.len() as int]);
                }
                assert forall|j: int| i <= j < slots.len() implies ((
                #[trigger] slots[j]) matches Some((_, Some(handle))) ==> {
                    after.asked_since(k, kernel::closing(handle))
                }) by {
                    if let Some((_, Some(handle))) = slots[j] {
                        if j > i {
                            assert(after.asked_since(closed, kernel::closing(handle)));
                        }
                    }
                }
            },
        }
    }
}

/// What was asked for after a point was asked for after any earlier point.
proof fn lemma_context_closed_since(
    first: kernel::Transcript,
    second: kernel::Transcript,
    third: kernel::Transcript,
    slots: Seq<ContextSlot>,
)
    requires
        second.follows(first),
        third.follows(second),
        context_closed(second, third, slots),
    ensures
        third.follows(first),
        context_closed(first, third, slots),
{
    assert forall|j: int| 0 <= j < first.asked.len() implies third.asked[j]
        == #[trigger] first.asked[j] by {
        assert(second.asked[j] == first.asked[j]);
    }
    assert forall|i: int| 0 <= i < slots.len() implies ((#[trigger] slots[i]) matches Some(
        (_, Some(handle)),
    ) ==> { third.asked_since(first, kernel::closing(handle)) }) by {
        if let Some((_, Some(handle))) = slots[i] {
            assert(third.asked_since(second, kernel::closing(handle)));
        }
    }
}

proof fn lemma_abandoned_start_is_closed(
    k: kernel::Transcript,
    slots: Seq<ContextSlot>,
    bootstrap: u64,
)
    requires
        abandon_run(k, slots, bootstrap).1 is Some,
    ensures
        ({
            let after = abandon_run(k, slots, bootstrap).0;
            &&& after.follows(k)
            &&& context_closed(k, after, slots)
            &&& after.asked_since(k, kernel::closing(bootstrap))
        }),
{
    let dropped = drop_context_run(k, slots, 0).0;
    let after = abandon_run(k, slots, bootstrap).0;
    lemma_dropped_context_is_closed(k, slots, 0);
    assert(after.asked[dropped.asked.len() as int].op == kernel::closing(bootstrap));
    assert forall|j: int| 0 <= j < k.asked.len() implies after.asked[j]
        == #[trigger] k.asked[j] by {
        assert(dropped.asked[j] == k.asked[j]);
    }
    assert forall|i: int| 0 <= i < slots.len() implies ((#[trigger] slots[i]) matches Some(
        (_, Some(handle)),
    ) ==> { after.asked_since(k, kernel::closing(handle)) }) by {
        if let Some((_, Some(handle))) = slots[i] {
            assert(dropped.asked_since(k, kernel::closing(handle)));
            let at = choose|at: int|
                k.asked.len() <= at < dropped.asked.len() && (#[trigger] dropped.asked[at]).op
                    == kernel::closing(handle);
            assert(after.asked[at] == dropped.asked[at]);
        }
    }
}

/// A service that takes its start keeps every capability it received, and closes the endpoint
/// that the start came over and nothing else. One that does not take its start keeps no
/// capability and closes that endpoint as well.
pub proof fn lemma_service_keeps_all_or_nothing(
    k: kernel::Transcript,
    slots: Seq<ContextSlot>,
    arguments: Seq<Seq<u8>>,
    expected: ManagedServiceIdentity,
)
    ensures
        ({
            let received = startup_transport::receive_start_run(
                k,
                PROCESS_START_BOOTSTRAP_HANDLE,
                INIT_PROCESS_ID,
                startup_environment::standard_sections(),
                startup_environment::standard_sections(),
                START_DATA_BYTES as nat,
                START_DATA_SECTIONS as nat,
            ).0;
            let (after, outcome) = service_data_run(k, slots, arguments, expected);
            &&& outcome matches Some(Ok((kept, _))) ==> {
                &&& kept == slots
                &&& after.follows(received)
                &&& after.asked.len() == received.asked.len() + 2
                &&& after.asked[received.asked.len() as int].op == kernel::closing(
                    PROCESS_START_BOOTSTRAP_HANDLE,
                )
                &&& after.asked[received.asked.len() + 1int].op == Op::GetProcessId
            }
            &&& outcome matches Some(Err(_)) ==> {
                &&& after.follows(received)
                &&& after.asked_since(received, kernel::closing(PROCESS_START_BOOTSTRAP_HANDLE))
                &&& context_closed(received, after, slots)
            }
        }),
{
    let bootstrap = PROCESS_START_BOOTSTRAP_HANDLE;
    let (received, data) = startup_transport::receive_start_run(
        k,
        bootstrap,
        INIT_PROCESS_ID,
        startup_environment::standard_sections(),
        startup_environment::standard_sections(),
        START_DATA_BYTES as nat,
        START_DATA_SECTIONS as nat,
    );
    let (after, outcome) = service_data_run(k, slots, arguments, expected);
    if outcome matches Some(Err(_)) {
        if data is Some && (data->Some_0 is Err || startup_environment::process_start_of(
            data->Some_0->Ok_0,
        ) is Err) {
            lemma_abandoned_start_is_closed(received, slots, bootstrap);
        } else {
            let (closed, result) = ipc::close_run(received, bootstrap);
            let (asked, _) = ipc::value_run(closed, Op::GetProcessId);
            let last = if result is Some && result->Some_0 is Err {
                closed
            } else {
                asked
            };
            lemma_dropped_context_is_closed(last, slots, 0);
            assert(last.follows(received));
            lemma_context_closed_since(received, last, after, slots);
            assert(last.asked[received.asked.len() as int].op == kernel::closing(bootstrap));
            assert(after.asked[received.asked.len() as int] == last.asked[
                received.asked.len() as int]);
        }
    }
}

/// A tool that takes its start keeps every capability it received, and closes the endpoint that
/// the start came over and nothing else. One that does not take its start keeps no capability
/// and closes that endpoint as well.
pub proof fn lemma_tool_keeps_all_or_nothing(
    k: kernel::Transcript,
    slots: Seq<ContextSlot>,
    sender: u64,
    origin: ManagedToolStartOrigin,
    process_id: u64,
    arguments: Seq<Seq<u8>>,
    environment: Seq<Seq<u8>>,
)
    ensures
        ({
            let received = startup_transport::receive_start_run(
                k,
                PROCESS_START_BOOTSTRAP_HANDLE,
                sender,
                startup_environment::standard_sections(),
                startup_environment::standard_sections(),
                START_DATA_BYTES as nat,
                START_DATA_SECTIONS as nat,
            ).0;
            let (after, outcome) = tool_description_run(
                k,
                slots,
                sender,
                origin,
                process_id,
                arguments,
                environment,
            );
            &&& outcome matches Some(Ok(started)) ==> {
                &&& started == Some((slots, origin))
                &&& after.follows(received)
                &&& after.asked.len() == received.asked.len() + 1
                &&& after.asked[received.asked.len() as int].op == kernel::closing(
                    PROCESS_START_BOOTSTRAP_HANDLE,
                )
            }
            &&& outcome matches Some(Err(_)) ==> {
                &&& after.follows(received)
                &&& after.asked_since(received, kernel::closing(PROCESS_START_BOOTSTRAP_HANDLE))
                &&& context_closed(received, after, slots)
            }
        }),
{
    let bootstrap = PROCESS_START_BOOTSTRAP_HANDLE;
    let (received, data) = startup_transport::receive_start_run(
        k,
        bootstrap,
        sender,
        startup_environment::standard_sections(),
        startup_environment::standard_sections(),
        START_DATA_BYTES as nat,
        START_DATA_SECTIONS as nat,
    );
    let (after, outcome) = tool_description_run(
        k,
        slots,
        sender,
        origin,
        process_id,
        arguments,
        environment,
    );
    if outcome matches Some(Err(_)) {
        if data is Some && (data->Some_0 is Err || startup_environment::process_start_of(
            data->Some_0->Ok_0,
        ) is Err) {
            lemma_abandoned_start_is_closed(received, slots, bootstrap);
        } else {
            let closed = ipc::close_run(received, bootstrap).0;
            lemma_dropped_context_is_closed(closed, slots, 0);
            assert(closed.follows(received));
            lemma_context_closed_since(received, closed, after, slots);
            assert(closed.asked[received.asked.len() as int].op == kernel::closing(bootstrap));
            assert(after.asked[received.asked.len() as int] == closed.asked[
                received.asked.len() as int]);
        }
    }
}

/// A tool is started by the process that started it or by itself, and knows which: the origin
/// says "parent" exactly where the parent sent the start.
pub proof fn lemma_tool_knows_its_origin(
    k: kernel::Transcript,
    bootstrap: u64,
    parent: u64,
    process_id: u64,
    policies: Seq<StartupCapabilityPolicy>,
    capacity: usize,
)
    ensures
        tool_context_run(k, bootstrap, parent, process_id, policies, capacity).1 matches Some(
            Ok((_, sender, origin)),
        ) ==> {
            &&& sender == parent || sender == process_id
            &&& origin is Parent <==> sender == parent
            &&& startup_transport::receive_record_run(k, bootstrap, capacity).1 matches Some(
                Ok(delivery),
            ) && delivery.sender_process_id == sender
        },
{
}

} // verus!
