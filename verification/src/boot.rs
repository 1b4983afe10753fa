//! How the first process brings the system up.

use crate::abi::INIT_PROCESS_ID;
use crate::boot_mode;
use crate::boot_mode::{init_boot_mode, InitBootMode};
use crate::contained_service;
use crate::contained_service::{
    nullfs_containment, nullfs_messages, start_contained_service, tmpfs_containment,
    tmpfs_messages, vfs_containment, vfs_messages, ContainedServiceJob, GenerationResources,
    ServiceContainment, ServiceMessages, READY_HANDLE,
};
use crate::definition_service;
use crate::definition_service::{load_definition_bytes, DefinitionServiceError};
use crate::filesystem_registry;
use crate::filesystem_registry::{
    register_nullfs_proxy, register_tmpfs_proxy, register_vfs_router,
};
use crate::identity::{ProviderGeneration, ProviderGenerationSequence};
use crate::init_run;
use crate::init_run::{announce, demand, hear, need, BootstrapCapability, Halt, Run};
use crate::init_text::Text;
use crate::ipc;
use crate::ipc::{CapabilityHandle, CapabilityInfo, ObjectKind, Rights};
use crate::kernel;
use crate::kernel::{Kernel, Op};
use crate::logging_probes;
use crate::logging_probes::{
    run_logctl_show, run_logging_collector_restart_test, run_logging_probe,
    run_service_control_probe,
};
use crate::logging_supervision;
use crate::logging_supervision::{start_logging_generation, LoggingGeneration, LoggingLifecycle};
use crate::nullfs_probes;
use crate::nullfs_probes::{
    run_nullfs_block_device_loss_probe, run_nullfs_crash_recovery_probe, NULLFS_PRIMARY_VOLUME,
};
use crate::nullfs_restart_probe;
use crate::nullfs_restart_probe::run_nullfs_restart_probe;
use crate::platform;
use crate::platform::{Errno, FilesystemProvider};
use crate::probe;
use crate::probe::{receiving, run_probe, run_tmpfs_probe, sending};
use crate::route_broker;
use crate::route_broker::RouteBrokerState;
use crate::service_registry;
use crate::service_registry::{Generations, ServiceControlState, Services};
use crate::supervisor;
use crate::supervisor::{ServiceRuntime, ServiceSpec};
use crate::syscall;
use crate::syscall::STDOUT;
use crate::trace;
use vstd::prelude::*;

verus! {

/// The status that hands over to the recovery system.
pub const RECOVERY_STATUS: u64 = 78;

/// The block device that everything may read.
pub const READ_ONLY_DEVICE: u64 = 2;

pub const NULLFS_BLOCK_HANDLE: u64 = 3;

pub const NULLFS_CRASH_TEST_HANDLE: u64 = 4;

/// How often a service is started again.
pub const SERVICE_RESTART_LIMIT: u32 = 3;

/// How long a restart waits.
pub const SERVICE_RESTART_BACKOFF_YIELDS: u32 = 32;

/// The status of a logging service that cannot take over what was logged before it.
pub const EARLY_LOG_IMPORT_FAILURE_STATUS: u64 = 74;

/// What the services are.
#[derive(Clone, Copy, Debug)]
pub struct ServiceSpecs {
    pub logging: ServiceSpec,
    pub nullfs: ServiceSpec,
    pub tmpfs: ServiceSpec,
    pub vfs: ServiceSpec,
}

/// Whether a service has this name and this command, says that it is ready in this way, and is
/// restarted like every other.
pub open spec fn describes(
    spec: ServiceSpec,
    name: Text,
    command: Text,
    ready: Text,
    fatal: Option<u64>,
) -> bool {
    &&& spec.name@ == name.bytes()
    &&& spec.command@ == command.bytes()
    &&& spec.ready_message@ == ready.bytes()
    &&& spec.bootstrap_slot == READY_HANDLE
    &&& spec.restart_limit == SERVICE_RESTART_LIMIT
    &&& spec.restart_backoff_yields == SERVICE_RESTART_BACKOFF_YIELDS
    &&& spec.fatal_startup_exit_status == fatal
}

fn describe(name: Text, command: Text, ready: Text, fatal: Option<u64>) -> (spec: ServiceSpec)
    ensures
        describes(spec, name, command, ready, fatal),
{
    ServiceSpec {
        name: name.as_bytes(),
        command: command.as_bytes(),
        ready_message: ready.as_bytes(),
        bootstrap_slot: READY_HANDLE,
        restart_limit: SERVICE_RESTART_LIMIT,
        restart_backoff_yields: SERVICE_RESTART_BACKOFF_YIELDS,
        fatal_startup_exit_status: fatal,
    }
}

/// The command of the NullFS service in a mode.
#[verifier::allow_in_spec]
pub fn nullfs_command(mode: InitBootMode) -> Text
    returns
        (match mode {
            InitBootMode::NullfsCrashRecoveryTest => Text::NullfsCrashContainmentTestServiceCommand,
            InitBootMode::NullfsRestartTest | InitBootMode::NullfsBlockDeviceLossTest =>
                Text::NullfsContainmentTestServiceCommand,
            _ => Text::NullfsServiceCommand,
        }),
{
    match mode {
        InitBootMode::NullfsCrashRecoveryTest => Text::NullfsCrashContainmentTestServiceCommand,
        InitBootMode::NullfsRestartTest | InitBootMode::NullfsBlockDeviceLossTest =>
            Text::NullfsContainmentTestServiceCommand,
        _ => Text::NullfsServiceCommand,
    }
}

/// The command of the temporary filesystem in a mode.
#[verifier::allow_in_spec]
pub fn tmpfs_command(mode: InitBootMode) -> Text
    returns
        (match mode {
            InitBootMode::LoggingLifecycleTest => Text::TmpfsContainmentTestCommand,
            _ => Text::TmpfsServiceCommand,
        }),
{
    match mode {
        InitBootMode::LoggingLifecycleTest => Text::TmpfsContainmentTestCommand,
        _ => Text::TmpfsServiceCommand,
    }
}

/// The command of the filesystem router in a mode.
#[verifier::allow_in_spec]
pub fn vfs_command(mode: InitBootMode) -> Text
    returns
        (match mode {
            InitBootMode::LoggingLifecycleTest => Text::VfsContainmentTestCommand,
            _ => Text::VfsServiceCommand,
        }),
{
    match mode {
        InitBootMode::LoggingLifecycleTest => Text::VfsContainmentTestCommand,
        _ => Text::VfsServiceCommand,
    }
}

/// What the services are in a mode.
pub fn service_specs(mode: InitBootMode) -> (specs: ServiceSpecs)
    ensures
        describes(
            specs.logging,
            Text::LoggingName,
            Text::LoggingServiceCommand,
            Text::LoggingServiceReadyMessage,
            Some(EARLY_LOG_IMPORT_FAILURE_STATUS),
        ),
        describes(
            specs.nullfs,
            Text::NullfsName,
            nullfs_command(mode),
            Text::NullfsServiceReadyMessage,
            None,
        ),
        describes(
            specs.tmpfs,
            Text::TmpfsName,
            tmpfs_command(mode),
            Text::TmpfsServiceReadyMessage,
            None,
        ),
        describes(
            specs.vfs,
            Text::VfsName,
            vfs_command(mode),
            Text::VfsServiceReadyMessage,
            None,
        ),
{
    ServiceSpecs {
        logging: describe(
            Text::LoggingName,
            Text::LoggingServiceCommand,
            Text::LoggingServiceReadyMessage,
            Some(EARLY_LOG_IMPORT_FAILURE_STATUS),
        ),
        nullfs: describe(
            Text::NullfsName,
            nullfs_command(mode),
            Text::NullfsServiceReadyMessage,
            None,
        ),
        tmpfs: describe(
            Text::TmpfsName,
            tmpfs_command(mode),
            Text::TmpfsServiceReadyMessage,
            None,
        ),
        vfs: describe(
            Text::VfsName,
            vfs_command(mode),
            Text::VfsServiceReadyMessage,
            None,
        ),
    }
}

/// Writing a text, without which the process exits.
pub open spec fn proclaim_run(k: kernel::Transcript, text: Text) -> Run<()> {
    init_run::bind(
        init_run::hear_run(syscall::write_all_run(k, STDOUT, text.bytes())),
        |k: kernel::Transcript, written: Result<(), ipc::Error>|
            match written {
                Ok(_) => init_run::end(k, ()),
                Err(_) => (k, Err(Halt::Exit(1))),
            },
    )
}

fn proclaim(k: &mut Kernel, text: Text) -> (result: Result<(), Halt>)
    ensures
        (final(k)@, result) == proclaim_run(old(k)@, text),
{
    match hear(syscall::write_all(k, STDOUT, text.as_bytes()))? {
        Ok(_) => Ok(()),
        Err(_) => Err(Halt::Exit(1)),
    }
}

/// Opening the volume of the NullFS service.
pub open spec fn open_volume_run(k: kernel::Transcript, volume: Seq<u8>) -> Run<
    Result<u64, Errno>,
> {
    init_run::hear_run(platform::value_bytes_run(k, Op::OpenWritableBlockDevice, volume))
}

/// The test of a volume that is missing: the recovery system takes over.
pub open spec fn unavailable_run<T>(k: kernel::Transcript) -> Run<T> {
    let text = Text::NullfsUnavailableTestFailed;
    init_run::bind(
        open_volume_run(k, NULLFS_PRIMARY_VOLUME@),
        |k: kernel::Transcript, opened: Result<u64, Errno>|
            match opened {
                Ok(endpoint) => init_run::bind(
                    init_run::hear_run(ipc::close_run(k, endpoint)),
                    |k: kernel::Transcript, closed: Result<(), ipc::Error>|
                        init_run::giving_up(k, text),
                ),
                Err(error) => if error == Errno::no_entry() {
                    init_run::bind(
                        proclaim_run(k, Text::NullfsUnavailableRecoveryHandoff),
                        |k: kernel::Transcript, said: ()| (k, Err(Halt::Exit(RECOVERY_STATUS))),
                    )
                } else {
                    init_run::giving_up(k, text)
                },
            },
    )
}

fn end_unavailable(k: &mut Kernel) -> (result: Result<InitBootMode, Halt>)
    ensures
        (final(k)@, result) == unavailable_run::<InitBootMode>(old(k)@),
{
    let text = Text::NullfsUnavailableTestFailed;
    let volume = NULLFS_PRIMARY_VOLUME;
    match hear(platform::open_writable_nullfs_block_device_endpoint(k, &volume))? {
        Ok(endpoint) => {
            let _ = hear(ipc::close(k, endpoint))?;
            Err(Halt::Failed(text))
        },
        Err(error) => {
            if error != Errno::no_entry() {
                return Err(Halt::Failed(text));
            }
            proclaim(k, Text::NullfsUnavailableRecoveryHandoff)?;
            Err(Halt::Exit(RECOVERY_STATUS))
        },
    }
}

/// What comes before any service: only the first process goes on, it says so, and it learns what
/// it is booted for. The test of a missing volume ends here.
pub open spec fn begin_run(k: kernel::Transcript) -> Run<InitBootMode> {
    init_run::bind(
        init_run::hear_run(ipc::value_run(k, Op::GetProcessId)),
        |k: kernel::Transcript, process_id: Result<u64, ipc::Error>|
            if process_id != Ok::<u64, ipc::Error>(INIT_PROCESS_ID) {
                init_run::giving_up(k, Text::WrongProcessId)
            } else {
                init_run::bind(
                    proclaim_run(k, Text::InitReady),
                    |k: kernel::Transcript, said: ()|
                        init_run::bind(
                            boot_mode::boot_mode_run(k),
                            |k: kernel::Transcript, mode: InitBootMode|
                                if mode == InitBootMode::NullfsUnavailableTest {
                                    unavailable_run(k)
                                } else {
                                    init_run::end(k, mode)
                                },
                        ),
                )
            },
    )
}

pub fn begin(k: &mut Kernel) -> (result: Result<InitBootMode, Halt>)
    ensures
        (final(k)@, result) == begin_run(old(k)@),
{
    match hear(syscall::getpid(k))? {
        Ok(process_id) => {
            demand(process_id == INIT_PROCESS_ID, Text::WrongProcessId)?;
        },
        Err(_) => {
            return Err(Halt::Failed(Text::WrongProcessId));
        },
    }
    proclaim(k, Text::InitReady)?;
    let mode = init_boot_mode(k)?;
    if mode == InitBootMode::NullfsUnavailableTest {
        return end_unavailable(k);
    }
    Ok(mode)
}

/// Making sure what a handle stands for.
pub open spec fn shaped_run(
    k: kernel::Transcript,
    handle: CapabilityHandle,
    kind: ObjectKind,
    rights: Rights,
    text: Text,
) -> Run<()> {
    init_run::bind(
        init_run::hear_run(ipc::info_run(k, handle)),
        |k: kernel::Transcript, info: Result<CapabilityInfo, ipc::Error>|
            init_run::demand_run(
                k,
                match info {
                    Ok(info) => info.kind == kind && info.rights == rights,
                    Err(_) => false,
                },
                text,
            ),
    )
}

fn require_shape(
    k: &mut Kernel,
    handle: CapabilityHandle,
    kind: ObjectKind,
    rights: Rights,
    text: Text,
) -> (result: Result<(), Halt>)
    ensures
        (final(k)@, result) == shaped_run(old(k)@, handle, kind, rights, text),
{
    let right = match hear(ipc::info(k, handle))? {
        Ok(info) => info.kind == kind && info.rights == rights,
        Err(_) => false,
    };
    demand(right, text)
}

/// The logging service as it is when it is up.
pub ghost struct LoggingUp {
    pub logging: logging_supervision::Logging,
    pub sequence: u64,
    pub early_log_reader: CapabilityHandle,
}

/// Opening what was logged before there was a logging service.
pub open spec fn early_log_run(k: kernel::Transcript) -> Run<CapabilityHandle> {
    let text = Text::LoggingServiceBootstrapFailed;
    init_run::bind(
        init_run::need_run(ipc::value_run(k, Op::OpenEarlyLogReader), text),
        |k: kernel::Transcript, reader: u64|
            init_run::bind(
                shaped_run(
                    k,
                    reader,
                    ObjectKind::KernelEarlyLogReader,
                    Rights::kernel_early_log_reader(),
                    text,
                ),
                |k: kernel::Transcript, shaped: ()| init_run::end(k, reader),
            ),
    )
}

fn open_early_log(k: &mut Kernel) -> (result: Result<CapabilityHandle, Halt>)
    ensures
        (final(k)@, result) == early_log_run(old(k)@),
{
    let text = Text::LoggingServiceBootstrapFailed;
    let reader: u64 = need(syscall::open_early_log_reader(k), text)?;
    require_shape(
        k,
        reader,
        ObjectKind::KernelEarlyLogReader,
        Rights::kernel_early_log_reader(),
        text,
    )?;
    Ok(reader)
}

/// Probing the logging service in the way of the mode.
pub open spec fn probe_logging_run(
    k: kernel::Transcript,
    collector: logging_probes::Collector,
    early_log_reader: CapabilityHandle,
    generation: LoggingGeneration,
    mode: InitBootMode,
) -> Run<(logging_probes::Collector, LoggingGeneration)> {
    if mode == InitBootMode::NullfsRestartTest {
        logging_probes::collector_test_run(k, collector, early_log_reader, generation)
    } else {
        init_run::bind(
            logging_probes::logging_probe_run(
                k,
                collector.service,
                collector.broker,
                Text::LoggingProbeCommand,
                Some(Text::LoggingProbePassed),
            ),
            |k: kernel::Transcript, probed: ()| init_run::end(k, (collector, generation)),
        )
    }
}

/// Bringing the logging service up.
pub open spec fn logging_run(k: kernel::Transcript, spec: ServiceSpec, mode: InitBootMode) -> Run<
    LoggingUp,
> {
    init_run::bind(
        route_broker::new_run(k),
        |k: kernel::Transcript, broker: route_broker::Broker|
            init_run::bind(
                early_log_run(k),
                |k: kernel::Transcript, reader: CapabilityHandle|
                    init_run::bind(
                        logging_supervision::start_run(
                            k,
                            logging_supervision::Starting {
                                service: supervisor::Service::initial(spec),
                                broker,
                                generations: 0,
                            },
                            reader,
                        ),
                        |
                            k: kernel::Transcript,
                            started: (logging_probes::Collector, LoggingGeneration),
                        |
                            init_run::bind(
                                probe_logging_run(k, started.0, reader, started.1, mode),
                                |
                                    k: kernel::Transcript,
                                    probed: (logging_probes::Collector, LoggingGeneration),
                                | show_log_run(k, probed.0, probed.1, reader),
                            ),
                    ),
            ),
    )
}

/// Showing the log, with which the logging service is up.
pub open spec fn show_log_run(
    k: kernel::Transcript,
    collector: logging_probes::Collector,
    generation: LoggingGeneration,
    early_log_reader: CapabilityHandle,
) -> Run<LoggingUp> {
    init_run::bind(
        logging_probes::logctl_run(k, collector.service, collector.broker),
        |k: kernel::Transcript, shown: ()|
            match LoggingLifecycle::of(generation) {
                Err(halt) => (k, Err(halt)),
                Ok(lifecycle) => init_run::end(
                    k,
                    LoggingUp {
                        logging: logging_supervision::Logging {
                            service: collector.service,
                            lifecycle,
                            broker: collector.broker,
                        },
                        sequence: collector.generations,
                        early_log_reader,
                    },
                ),
            },
    )
}

/// The logging service, its routes and its generations.
#[derive(Debug)]
struct LoggingParts {
    service: ServiceRuntime,
    route_broker: RouteBrokerState,
    lifecycle: LoggingLifecycle,
    sequence: ProviderGenerationSequence,
    early_log_reader: CapabilityHandle,
}

impl LoggingParts {
    spec fn up(self) -> LoggingUp {
        LoggingUp {
            logging: logging_supervision::Logging {
                service: self.service@,
                lifecycle: self.lifecycle,
                broker: self.route_broker@,
            },
            sequence: self.sequence@,
            early_log_reader: self.early_log_reader,
        }
    }
}

fn boot_logging(k: &mut Kernel, spec: ServiceSpec, mode: InitBootMode) -> (result: Result<
    LoggingParts,
    Halt,
>)
    ensures
        ({
            let (asked, outcome) = logging_run(old(k)@, spec, mode);
            &&& final(k)@ == asked
            &&& match result {
                Ok(parts) => outcome == Ok::<_, Halt>(parts.up()),
                Err(halt) => outcome == Err::<LoggingUp, _>(halt),
            }
        }),
{
    let mut route_broker = RouteBrokerState::new(k)?;
    let early_log_reader: u64 = open_early_log(k)?;
    let mut service = ServiceRuntime::new(spec);
    let mut sequence = ProviderGenerationSequence::new();
    let mut generation = start_logging_generation(
        k,
        &mut service,
        &mut route_broker,
        &mut sequence,
        early_log_reader,
    )?;
    if mode == InitBootMode::NullfsRestartTest {
        generation = run_logging_collector_restart_test(
            k,
            &mut service,
            &mut route_broker,
            &mut sequence,
            early_log_reader,
            generation,
        )?;
    } else {
        run_logging_probe(
            k,
            &service,
            &mut route_broker,
            Text::LoggingProbeCommand,
            Some(Text::LoggingProbePassed),
        )?;
    }
    run_logctl_show(k, &service, &mut route_broker)?;
    let lifecycle = LoggingLifecycle::running(generation)?;
    Ok(LoggingParts { service, route_broker, lifecycle, sequence, early_log_reader })
}

/// The rights that a block device comes with.
#[verifier::allow_in_spec]
pub fn device_rights() -> Rights
    returns
        (Rights { raw: Rights::send().raw | Rights::transfer().raw }),
{
    Rights::send() | Rights::transfer()
}

/// The identity of a volume that no device has.
pub open spec fn missing_volume() -> Seq<u8> {
    NULLFS_PRIMARY_VOLUME@.update(15, NULLFS_PRIMARY_VOLUME@[15] ^ 0xff)
}

/// Making sure that a missing volume is not found.
pub open spec fn missing_run(k: kernel::Transcript) -> Run<()> {
    init_run::bind(
        open_volume_run(k, missing_volume()),
        |k: kernel::Transcript, opened: Result<u64, Errno>|
            init_run::demand_run(
                k,
                opened == Err::<u64, _>(Errno::no_entry()),
                Text::BlockDeviceBootstrapFailed,
            ),
    )
}

fn require_missing(k: &mut Kernel) -> (result: Result<(), Halt>)
    ensures
        (final(k)@, result) == missing_run(old(k)@),
{
    let mut volume = NULLFS_PRIMARY_VOLUME;
    volume[15] = volume[15] ^ 0xff;
    assert(volume@ =~= missing_volume());
    let missing = match hear(platform::open_writable_nullfs_block_device_endpoint(k, &volume))? {
        Ok(_) => false,
        Err(error) => error == Errno::no_entry(),
    };
    demand(missing, Text::BlockDeviceBootstrapFailed)
}

/// Running a probe on a device and giving the device back.
pub open spec fn probe_device_run(
    k: kernel::Transcript,
    endpoint: CapabilityHandle,
    command: Text,
    failed: Text,
    passed: Text,
) -> Run<()> {
    let text = Text::BlockDeviceBootstrapFailed;
    init_run::bind(
        shaped_run(k, endpoint, ObjectKind::Endpoint, device_rights(), text),
        |k: kernel::Transcript, shaped: ()|
            init_run::bind(
                probe::probe_run(k, command, endpoint, failed, passed),
                |k: kernel::Transcript, probed: ()|
                    init_run::need_run(ipc::close_run(k, endpoint), text),
            ),
    )
}

fn probe_device(
    k: &mut Kernel,
    endpoint: CapabilityHandle,
    command: Text,
    failed: Text,
    passed: Text,
) -> (result: Result<(), Halt>)
    ensures
        (final(k)@, result) == probe_device_run(old(k)@, endpoint, command, failed, passed),
{
    let text = Text::BlockDeviceBootstrapFailed;
    require_shape(k, endpoint, ObjectKind::Endpoint, device_rights(), text)?;
    run_probe(k, command, endpoint, failed, passed)?;
    need(ipc::close(k, endpoint), text)
}

/// Opening the volume and probing it.
pub open spec fn probe_volume_run(
    k: kernel::Transcript,
    command: Text,
    failed: Text,
    passed: Text,
) -> Run<()> {
    init_run::bind(
        init_run::need_run(
            platform::value_bytes_run(k, Op::OpenWritableBlockDevice, NULLFS_PRIMARY_VOLUME@),
            Text::BlockDeviceBootstrapFailed,
        ),
        |k: kernel::Transcript, endpoint: u64|
            probe_device_run(k, endpoint, command, failed, passed),
    )
}

fn probe_volume(k: &mut Kernel, command: Text, failed: Text, passed: Text) -> (result: Result<
    (),
    Halt,
>)
    ensures
        (final(k)@, result) == probe_volume_run(old(k)@, command, failed, passed),
{
    let volume = NULLFS_PRIMARY_VOLUME;
    let endpoint: u64 = need(
        platform::open_writable_nullfs_block_device_endpoint(k, &volume),
        Text::BlockDeviceBootstrapFailed,
    )?;
    probe_device(k, endpoint, command, failed, passed)
}

/// Probing the block devices.
pub open spec fn devices_run(k: kernel::Transcript, mode: InitBootMode) -> Run<()> {
    init_run::bind(
        missing_run(k),
        |k: kernel::Transcript, missing: ()|
            init_run::bind(
                init_run::need_run(
                    platform::value_run(k, Op::OpenBlockDevice { device: READ_ONLY_DEVICE }),
                    Text::BlockDeviceBootstrapFailed,
                ),
                |k: kernel::Transcript, device: u64|
                    init_run::bind(
                        probe_device_run(
                            k,
                            device,
                            Text::BlockDeviceProbeCommand,
                            Text::BlockDeviceProbeFailed,
                            Text::BlockDeviceProbePassed,
                        ),
                        |k: kernel::Transcript, probed: ()| volumes_run(k, mode),
                    ),
            ),
    )
}

/// Probing the volume of the NullFS service.
pub open spec fn volumes_run(k: kernel::Transcript, mode: InitBootMode) -> Run<()> {
    init_run::bind(
        probe_volume_run(
            k,
            Text::WritableNullfsBlockDeviceProbeCommand,
            Text::WritableNullfsBlockDeviceProbeFailed,
            Text::WritableNullfsBlockDeviceProbePassed,
        ),
        |k: kernel::Transcript, probed: ()|
            if mode == InitBootMode::NullfsBootGenerationTest {
                probe_volume_run(
                    k,
                    Text::NullfsBootGenerationProbeCommand,
                    Text::NullfsBootGenerationProbeFailed,
                    Text::NullfsBootGenerationProbePassed,
                )
            } else {
                init_run::end(k, ())
            },
    )
}

fn probe_devices(k: &mut Kernel, mode: InitBootMode) -> (result: Result<(), Halt>)
    ensures
        (final(k)@, result) == devices_run(old(k)@, mode),
{
    require_missing(k)?;
    let device: u64 = need(
        platform::open_block_device_endpoint(k, READ_ONLY_DEVICE),
        Text::BlockDeviceBootstrapFailed,
    )?;
    probe_device(
        k,
        device,
        Text::BlockDeviceProbeCommand,
        Text::BlockDeviceProbeFailed,
        Text::BlockDeviceProbePassed,
    )?;
    probe_volume(
        k,
        Text::WritableNullfsBlockDeviceProbeCommand,
        Text::WritableNullfsBlockDeviceProbeFailed,
        Text::WritableNullfsBlockDeviceProbePassed,
    )?;
    if mode == InitBootMode::NullfsBootGenerationTest {
        probe_volume(
            k,
            Text::NullfsBootGenerationProbeCommand,
            Text::NullfsBootGenerationProbeFailed,
            Text::NullfsBootGenerationProbePassed,
        )?;
    }
    Ok(())
}

/// One generation of a filesystem service, and what it holds.
#[derive(Clone, Copy, Debug, PartialEq, Eq, Structural)]
pub struct Filesystem {
    pub resources: GenerationResources,
    pub generation: ProviderGeneration,
}

/// A filesystem service as it is when it is up.
pub ghost struct FilesystemUp {
    pub service: supervisor::Service,
    pub sequence: u64,
    pub filesystem: Filesystem,
}

/// Starting a filesystem service with endpoints of its own.
pub open spec fn filesystem_run(
    k: kernel::Transcript,
    spec: ServiceSpec,
    endpoints: (CapabilityHandle, CapabilityHandle),
    grants: Seq<BootstrapCapability>,
    messages: ServiceMessages,
    containment: ServiceContainment,
) -> Run<FilesystemUp> {
    init_run::bind(
        contained_service::start_run(
            k,
            contained_service::Starting {
                service: supervisor::Service::initial(spec),
                generations: 0,
                readiness: endpoints.0,
                request: endpoints.1,
            },
            grants,
            messages,
            containment,
        ),
        |
            k: kernel::Transcript,
            started: (contained_service::Starting, (ProviderGeneration, ContainedServiceJob)),
        |
            init_run::end(
                k,
                FilesystemUp {
                    service: started.0.service,
                    sequence: started.0.generations,
                    filesystem: Filesystem {
                        resources: GenerationResources {
                            readiness_endpoint: started.0.readiness,
                            request_endpoint: started.0.request,
                            job: started.1.1,
                        },
                        generation: started.1.0,
                    },
                },
            ),
    )
}

#[derive(Debug)]
struct FilesystemParts {
    service: ServiceRuntime,
    sequence: ProviderGenerationSequence,
    filesystem: Filesystem,
}

impl FilesystemParts {
    spec fn up(self) -> FilesystemUp {
        FilesystemUp {
            service: self.service@,
            sequence: self.sequence@,
            filesystem: self.filesystem,
        }
    }
}

/// Whether bringing a filesystem up came to what its run says.
spec fn came_up(
    run: Run<FilesystemUp>,
    asked: kernel::Transcript,
    result: Result<FilesystemParts, Halt>,
) -> bool {
    &&& asked == run.0
    &&& match result {
        Ok(parts) => run.1 == Ok::<_, Halt>(parts.up()),
        Err(halt) => run.1 == Err::<FilesystemUp, _>(halt),
    }
}

fn boot_filesystem(
    k: &mut Kernel,
    spec: ServiceSpec,
    endpoints: (CapabilityHandle, CapabilityHandle),
    grants: &[BootstrapCapability],
    messages: ServiceMessages,
    containment: ServiceContainment,
) -> (result: Result<FilesystemParts, Halt>)
    ensures
        came_up(
            filesystem_run(old(k)@, spec, endpoints, grants@, messages, containment),
            final(k)@,
            result,
        ),
{
    let mut service = ServiceRuntime::new(spec);
    let mut sequence = ProviderGenerationSequence::new();
    let mut readiness_endpoint: u64 = endpoints.0;
    let mut request_endpoint: u64 = endpoints.1;
    let (generation, job) = start_contained_service(
        k,
        &mut service,
        &mut sequence,
        &mut readiness_endpoint,
        &mut request_endpoint,
        grants,
        messages,
        containment,
    )?;
    let resources = GenerationResources { readiness_endpoint, request_endpoint, job };
    Ok(FilesystemParts { service, sequence, filesystem: Filesystem { resources, generation } })
}

/// What the NullFS service works on: its block device, and where it is told to crash.
#[derive(Clone, Copy, Debug, PartialEq, Eq, Structural)]
pub struct NullfsDevice {
    pub block_endpoint: CapabilityHandle,
    pub crash_hook: Option<CapabilityHandle>,
}

impl NullfsDevice {
    /// What the service gets.
    pub open spec fn grants(self) -> Seq<BootstrapCapability> {
        match self.crash_hook {
            None => seq![sending(self.block_endpoint, NULLFS_BLOCK_HANDLE)],
            Some(hook) => seq![
                sending(self.block_endpoint, NULLFS_BLOCK_HANDLE),
                receiving(hook, NULLFS_CRASH_TEST_HANDLE),
            ],
        }
    }

    /// What the service gets.
    pub fn capabilities(self) -> (grants: Vec<BootstrapCapability>)
        ensures
            grants@ == self.grants(),
    {
        let mut grants: Vec<BootstrapCapability> = Vec::new();
        grants.push(sending(self.block_endpoint, NULLFS_BLOCK_HANDLE));
        if let Some(hook) = self.crash_hook {
            grants.push(receiving(hook, NULLFS_CRASH_TEST_HANDLE));
        }
        assert(grants@ =~= self.grants());
        grants
    }
}

/// Making an endpoint over which the service is told to crash, in the test of that.
pub open spec fn crash_hook_run(k: kernel::Transcript, mode: InitBootMode) -> Run<
    Option<CapabilityHandle>,
> {
    if mode == InitBootMode::NullfsCrashRecoveryTest {
        init_run::bind(
            init_run::need_run(
                ipc::value_run(k, Op::EndpointCreate),
                Text::NullfsServiceBootstrapFailed,
            ),
            |k: kernel::Transcript, hook: u64| init_run::end(k, Some(hook)),
        )
    } else {
        init_run::end(k, None)
    }
}

/// Opening what the NullFS service works on, and making its endpoints.
pub open spec fn nullfs_device_run(k: kernel::Transcript, mode: InitBootMode) -> Run<
    (NullfsDevice, (CapabilityHandle, CapabilityHandle)),
> {
    let text = Text::NullfsServiceBootstrapFailed;
    init_run::bind(
        init_run::need_run(
            platform::value_bytes_run(k, Op::OpenWritableBlockDevice, NULLFS_PRIMARY_VOLUME@),
            text,
        ),
        |k: kernel::Transcript, block_endpoint: u64|
            init_run::bind(
                shaped_run(k, block_endpoint, ObjectKind::Endpoint, device_rights(), text),
                |k: kernel::Transcript, shaped: ()|
                    init_run::bind(
                        contained_service::create_endpoints_run(k, text),
                        |k: kernel::Transcript, endpoints: (CapabilityHandle, CapabilityHandle)|
                            init_run::bind(
                                crash_hook_run(k, mode),
                                |k: kernel::Transcript, crash_hook: Option<CapabilityHandle>|
                                    init_run::end(
                                        k,
                                        (NullfsDevice { block_endpoint, crash_hook }, endpoints),
                                    ),
                            ),
                    ),
            ),
    )
}

fn open_nullfs_device(k: &mut Kernel, mode: InitBootMode) -> (result: Result<
    (NullfsDevice, (CapabilityHandle, CapabilityHandle)),
    Halt,
>)
    ensures
        (final(k)@, result) == nullfs_device_run(old(k)@, mode),
{
    let text = Text::NullfsServiceBootstrapFailed;
    let volume = NULLFS_PRIMARY_VOLUME;
    let block_endpoint: u64 = need(
        platform::open_writable_nullfs_block_device_endpoint(k, &volume),
        text,
    )?;
    require_shape(k, block_endpoint, ObjectKind::Endpoint, device_rights(), text)?;
    let endpoints = contained_service::create_endpoints(k, text)?;
    let crash_hook = if mode == InitBootMode::NullfsCrashRecoveryTest {
        Some(need(ipc::endpoint_create(k), text)?)
    } else {
        None
    };
    Ok((NullfsDevice { block_endpoint, crash_hook }, endpoints))
}

/// Bringing the NullFS service up.
pub open spec fn nullfs_run(k: kernel::Transcript, spec: ServiceSpec, mode: InitBootMode) -> Run<
    (NullfsDevice, FilesystemUp),
> {
    init_run::bind(
        nullfs_device_run(k, mode),
        |
            k: kernel::Transcript,
            opened: (NullfsDevice, (CapabilityHandle, CapabilityHandle)),
        |
            init_run::bind(
                filesystem_run(
                    k,
                    spec,
                    opened.1,
                    opened.0.grants(),
                    nullfs_messages(),
                    nullfs_containment(),
                ),
                |k: kernel::Transcript, up: FilesystemUp|
                    init_run::bind(
                        probe::probe_run(
                            k,
                            Text::NullfsReadinessProbeCommand,
                            up.filesystem.resources.request_endpoint,
                            Text::NullfsReadinessProbeFailed,
                            Text::NullfsReadinessProbePassed,
                        ),
                        |k: kernel::Transcript, probed: ()|
                            init_run::bind(
                                filesystem_registry::register_nullfs_run(
                                    k,
                                    up.filesystem.generation,
                                    up.filesystem.resources.request_endpoint,
                                ),
                                |k: kernel::Transcript, registered: ()|
                                    init_run::end(k, (opened.0, up)),
                            ),
                    ),
            ),
    )
}

fn boot_nullfs(k: &mut Kernel, spec: ServiceSpec, mode: InitBootMode) -> (result: Result<
    (NullfsDevice, FilesystemParts),
    Halt,
>)
    ensures
        ({
            let (asked, outcome) = nullfs_run(old(k)@, spec, mode);
            &&& final(k)@ == asked
            &&& match result {
                Ok((device, parts)) => outcome == Ok::<_, Halt>((device, parts.up())),
                Err(halt) => outcome == Err::<(NullfsDevice, FilesystemUp), _>(halt),
            }
        }),
{
    let (device, endpoints) = open_nullfs_device(k, mode)?;
    let grants = device.capabilities();
    let parts = boot_filesystem(
        k,
        spec,
        endpoints,
        grants.as_slice(),
        nullfs_messages(),
        nullfs_containment(),
    )?;
    let request_endpoint: u64 = parts.filesystem.resources.request_endpoint;
    run_probe(
        k,
        Text::NullfsReadinessProbeCommand,
        request_endpoint,
        Text::NullfsReadinessProbeFailed,
        Text::NullfsReadinessProbePassed,
    )?;
    register_nullfs_proxy(k, parts.filesystem.generation, request_endpoint)?;
    Ok((device, parts))
}

/// Bringing the temporary filesystem up.
pub open spec fn tmpfs_run(k: kernel::Transcript, spec: ServiceSpec) -> Run<FilesystemUp> {
    init_run::bind(
        contained_service::create_endpoints_run(k, Text::TmpfsServiceBootstrapFailed),
        |k: kernel::Transcript, endpoints: (CapabilityHandle, CapabilityHandle)|
            init_run::bind(
                filesystem_run(
                    k,
                    spec,
                    endpoints,
                    seq![],
                    tmpfs_messages(),
                    tmpfs_containment(),
                ),
                |k: kernel::Transcript, up: FilesystemUp|
                    init_run::bind(
                        filesystem_registry::register_tmpfs_run(
                            k,
                            up.filesystem.generation,
                            up.filesystem.resources.request_endpoint,
                        ),
                        |k: kernel::Transcript, registered: ()|
                            init_run::bind(
                                probe::probe_run(
                                    k,
                                    Text::TmpfsProbeCommand,
                                    up.filesystem.resources.request_endpoint,
                                    Text::TmpfsProbeFailed,
                                    Text::TmpfsProbePassed,
                                ),
                                |k: kernel::Transcript, probed: ()| init_run::end(k, up),
                            ),
                    ),
            ),
    )
}

fn boot_tmpfs(k: &mut Kernel, spec: ServiceSpec) -> (result: Result<FilesystemParts, Halt>)
    ensures
        came_up(tmpfs_run(old(k)@, spec), final(k)@, result),
{
    let endpoints = contained_service::create_endpoints(k, Text::TmpfsServiceBootstrapFailed)?;
    let grants: [BootstrapCapability; 0] = [];
    assert(grants@ =~= seq![]);
    let parts = boot_filesystem(
        k,
        spec,
        endpoints,
        &grants,
        tmpfs_messages(),
        tmpfs_containment(),
    )?;
    let request_endpoint: u64 = parts.filesystem.resources.request_endpoint;
    register_tmpfs_proxy(k, parts.filesystem.generation, request_endpoint)?;
    run_tmpfs_probe(k, request_endpoint)?;
    Ok(parts)
}

/// Bringing the filesystem router up.
pub open spec fn vfs_run(k: kernel::Transcript, spec: ServiceSpec) -> Run<FilesystemUp> {
    init_run::bind(
        contained_service::create_endpoints_run(k, Text::VfsServiceBootstrapFailed),
        |k: kernel::Transcript, endpoints: (CapabilityHandle, CapabilityHandle)|
            init_run::bind(
                filesystem_run(k, spec, endpoints, seq![], vfs_messages(), vfs_containment()),
                |k: kernel::Transcript, up: FilesystemUp|
                    init_run::bind(
                        filesystem_registry::register_vfs_run(
                            k,
                            up.filesystem.generation,
                            up.filesystem.resources.request_endpoint,
                        ),
                        |k: kernel::Transcript, registered: ()| init_run::end(k, up),
                    ),
            ),
    )
}

fn boot_vfs(k: &mut Kernel, spec: ServiceSpec) -> (result: Result<FilesystemParts, Halt>)
    ensures
        came_up(vfs_run(old(k)@, spec), final(k)@, result),
{
    let endpoints = contained_service::create_endpoints(k, Text::VfsServiceBootstrapFailed)?;
    let grants: [BootstrapCapability; 0] = [];
    assert(grants@ =~= seq![]);
    let parts = boot_filesystem(
        k,
        spec,
        endpoints,
        &grants,
        vfs_messages(),
        vfs_containment(),
    )?;
    register_vfs_router(
        k,
        parts.filesystem.generation,
        parts.filesystem.resources.request_endpoint,
    )?;
    Ok(parts)
}

/// Restarting the NullFS service in the test of that, and looking at it.
pub open spec fn restart_test_run(
    k: kernel::Transcript,
    tested: nullfs_restart_probe::Tested,
    generations: Generations,
    vfs_endpoint: CapabilityHandle,
    block_endpoint: CapabilityHandle,
) -> Run<(nullfs_restart_probe::Tested, ProviderGeneration)> {
    init_run::bind(
        probe::probe_run(
            k,
            Text::NullfsFullProbeCommand,
            tested.resources.request_endpoint,
            Text::NullfsFullProbeFailed,
            Text::NullfsFullProbePassed,
        ),
        |k: kernel::Transcript, nullfs: ()|
            init_run::bind(
                probe::probe_run(
                    k,
                    Text::VfsFullProbeCommand,
                    vfs_endpoint,
                    Text::VfsFullProbeFailed,
                    Text::VfsFullProbePassed,
                ),
                |k: kernel::Transcript, vfs: ()|
                    init_run::bind(
                        nullfs_restart_probe::restart_probe_run(
                            k,
                            tested,
                            generations,
                            vfs_endpoint,
                            sending(block_endpoint, NULLFS_BLOCK_HANDLE),
                        ),
                        |
                            k: kernel::Transcript,
                            restarted: (nullfs_restart_probe::Tested, ProviderGeneration),
                        |
                            init_run::bind(
                                restarted_run(k, restarted.0, restarted.1, generations),
                                |k: kernel::Transcript, said: ()| init_run::end(k, restarted),
                            ),
                    ),
            ),
    )
}

/// Saying that the restarts were right, and asking for the status of the service.
pub open spec fn restarted_run(
    k: kernel::Transcript,
    tested: nullfs_restart_probe::Tested,
    generation: ProviderGeneration,
    generations: Generations,
) -> Run<()> {
    init_run::bind(
        init_run::announce_run(k, Text::NullfsRestartProbePassed),
        |k: kernel::Transcript, said: ()|
            logging_probes::control_probe_run(
                k,
                Text::SvStatusNullfsCommand,
                Text::SvStatusNullfsPassed,
                tested.control,
                tested.registry,
                nullfs_restart_probe::with_nullfs(generations, generation),
            ),
    )
}

/// Probing the filesystems in the way of the mode: what has become of the NullFS service.
pub open spec fn mode_probe_run(
    k: kernel::Transcript,
    mode: InitBootMode,
    tested: nullfs_restart_probe::Tested,
    generations: Generations,
    vfs_endpoint: CapabilityHandle,
    device: NullfsDevice,
) -> Run<(nullfs_restart_probe::Tested, ProviderGeneration)> {
    match mode {
        InitBootMode::NullfsRestartTest => restart_test_run(
            k,
            tested,
            generations,
            vfs_endpoint,
            device.block_endpoint,
        ),
        InitBootMode::NullfsBlockDeviceLossTest => init_run::bind(
            nullfs_probes::device_loss_run(
                k,
                tested.registry.nullfs,
                generations.nullfs,
                tested.resources.job,
                vfs_endpoint,
                device.block_endpoint,
            ),
            |k: kernel::Transcript, job: ContainedServiceJob|
                init_run::end(k, (tested.with_job(job), generations.nullfs)),
        ),
        InitBootMode::NullfsCrashRecoveryTest => match device.crash_hook {
            None => init_run::giving_up(k, Text::VfsCrashRecoveryProbeFailed),
            Some(hook) => init_run::bind(
                nullfs_probes::crash_recovery_run(
                    k,
                    tested.nullfs(),
                    generations.nullfs,
                    device.grants(),
                    hook,
                ),
                |k: kernel::Transcript, recovered: (nullfs_probes::Nullfs, ProviderGeneration)|
                    init_run::end(k, (tested.with_nullfs(recovered.0), recovered.1)),
            ),
        },
        InitBootMode::NullfsOutOfSpaceTest => init_run::bind(
            probe::probe_run(
                k,
                Text::VfsOutOfSpaceProbeCommand,
                vfs_endpoint,
                Text::VfsOutOfSpaceProbeFailed,
                Text::VfsOutOfSpaceProbePassed,
            ),
            |k: kernel::Transcript, probed: ()| init_run::end(k, (tested, generations.nullfs)),
        ),
        _ => init_run::bind(
            probe::probe_run(
                k,
                Text::VfsReadinessProbeCommand,
                vfs_endpoint,
                Text::VfsReadinessProbeFailed,
                Text::VfsReadinessProbePassed,
            ),
            |k: kernel::Transcript, probed: ()| init_run::end(k, (tested, generations.nullfs)),
        ),
    }
}

fn probe_in_mode(
    k: &mut Kernel,
    mode: InitBootMode,
    control: &mut ServiceControlState,
    services: &mut Services,
    sequence: &mut ProviderGenerationSequence,
    resources: &mut GenerationResources,
    generations: Generations,
    vfs_endpoint: CapabilityHandle,
    device: NullfsDevice,
) -> (result: Result<ProviderGeneration, Halt>)
    ensures
        ({
            let (asked, outcome) = mode_probe_run(
                old(k)@,
                mode,
                nullfs_restart_probe::Tested {
                    control: old(control)@,
                    registry: old(services)@,
                    sequence: old(sequence)@,
                    resources: *old(resources),
                },
                generations,
                vfs_endpoint,
                device,
            );
            &&& final(k)@ == asked
            &&& init_run::came_to(
                outcome,
                nullfs_restart_probe::Tested {
                    control: final(control)@,
                    registry: final(services)@,
                    sequence: final(sequence)@,
                    resources: *final(resources),
                },
                result,
            )
        }),
{
    match mode {
        InitBootMode::NullfsRestartTest => {
            run_probe(
                k,
                Text::NullfsFullProbeCommand,
                resources.request_endpoint,
                Text::NullfsFullProbeFailed,
                Text::NullfsFullProbePassed,
            )?;
            run_probe(
                k,
                Text::VfsFullProbeCommand,
                vfs_endpoint,
                Text::VfsFullProbeFailed,
                Text::VfsFullProbePassed,
            )?;
            let generation = run_nullfs_restart_probe(
                k,
                control,
                services,
                generations,
                sequence,
                resources,
                vfs_endpoint,
                sending(device.block_endpoint, NULLFS_BLOCK_HANDLE),
            )?;
            announce(k, Text::NullfsRestartProbePassed)?;
            run_service_control_probe(
                k,
                Text::SvStatusNullfsCommand,
                Text::SvStatusNullfsPassed,
                control,
                services,
                nullfs_restart_probe::with_nullfs(generations, generation),
            )?;
            Ok(generation)
        },
        InitBootMode::NullfsBlockDeviceLossTest => {
            run_nullfs_block_device_loss_probe(
                k,
                &services.nullfs,
                generations.nullfs,
                &mut resources.job,
                vfs_endpoint,
                device.block_endpoint,
            )?;
            Ok(generations.nullfs)
        },
        InitBootMode::NullfsCrashRecoveryTest => {
            let hook: u64 = match device.crash_hook {
                Some(hook) => hook,
                None => {
                    return Err(Halt::Failed(Text::VfsCrashRecoveryProbeFailed));
                },
            };
            let grants = device.capabilities();
            run_nullfs_crash_recovery_probe(
                k,
                &mut services.nullfs,
                generations.nullfs,
                sequence,
                resources,
                grants.as_slice(),
                hook,
            )
        },
        InitBootMode::NullfsOutOfSpaceTest => {
            run_probe(
                k,
                Text::VfsOutOfSpaceProbeCommand,
                vfs_endpoint,
                Text::VfsOutOfSpaceProbeFailed,
                Text::VfsOutOfSpaceProbePassed,
            )?;
            Ok(generations.nullfs)
        },
        _ => {
            run_probe(
                k,
                Text::VfsReadinessProbeCommand,
                vfs_endpoint,
                Text::VfsReadinessProbeFailed,
                Text::VfsReadinessProbePassed,
            )?;
            Ok(generations.nullfs)
        },
    }
}

/// Where each service takes the numbers of its generations from.
#[derive(Clone, Debug)]
pub struct Sequences {
    pub logging: ProviderGenerationSequence,
    pub nullfs: ProviderGenerationSequence,
    pub tmpfs: ProviderGenerationSequence,
    pub vfs: ProviderGenerationSequence,
}

/// The last number of each service.
pub ghost struct Numbers {
    pub logging: u64,
    pub nullfs: u64,
    pub tmpfs: u64,
    pub vfs: u64,
}

impl View for Sequences {
    type V = Numbers;

    open spec fn view(&self) -> Numbers {
        Numbers {
            logging: self.logging@,
            nullfs: self.nullfs@,
            tmpfs: self.tmpfs@,
            vfs: self.vfs@,
        }
    }
}

/// The services and everything that goes with them.
///
/// A clone owns nothing: it is there to run a procedure again from the same state.
#[derive(Clone, Debug)]
pub struct System {
    pub mode: InitBootMode,
    pub early_log_reader: CapabilityHandle,
    pub services: Services,
    pub sequences: Sequences,
    pub route_broker: RouteBrokerState,
    pub logging: LoggingLifecycle,
    pub control: ServiceControlState,
    pub nullfs: Filesystem,
    pub tmpfs: Filesystem,
    pub vfs: Filesystem,
    pub device: NullfsDevice,
}

/// The system as the contracts see it.
pub ghost struct Running {
    pub mode: InitBootMode,
    pub early_log_reader: CapabilityHandle,
    pub registry: service_registry::Registry,
    pub numbers: Numbers,
    pub broker: route_broker::Broker,
    pub logging: LoggingLifecycle,
    pub control: service_registry::Control,
    pub nullfs: Filesystem,
    pub tmpfs: Filesystem,
    pub vfs: Filesystem,
    pub device: NullfsDevice,
}

impl View for System {
    type V = Running;

    open spec fn view(&self) -> Running {
        Running {
            mode: self.mode,
            early_log_reader: self.early_log_reader,
            registry: self.services@,
            numbers: self.sequences@,
            broker: self.route_broker@,
            logging: self.logging,
            control: self.control@,
            nullfs: self.nullfs,
            tmpfs: self.tmpfs,
            vfs: self.vfs,
            device: self.device,
        }
    }
}

impl Running {
    /// The generation that each service has.
    pub open spec fn generations(self) -> Generations {
        Generations {
            logging: self.logging.last_generation,
            nullfs: self.nullfs.generation,
            tmpfs: self.tmpfs.generation,
            vfs: self.vfs.generation,
        }
    }

    /// What the restart of the NullFS service works on.
    pub open spec fn tested(self) -> nullfs_restart_probe::Tested {
        nullfs_restart_probe::Tested {
            control: self.control,
            registry: self.registry,
            sequence: self.numbers.nullfs,
            resources: self.nullfs.resources,
        }
    }

    /// The system after a probe of the NullFS service.
    pub open spec fn with_tested(
        self,
        tested: nullfs_restart_probe::Tested,
        generation: ProviderGeneration,
    ) -> Running {
        Running {
            control: tested.control,
            registry: tested.registry,
            numbers: Numbers { nullfs: tested.sequence, ..self.numbers },
            nullfs: Filesystem { resources: tested.resources, generation },
            ..self
        }
    }
}

impl System {
    /// The generation that each service has.
    pub fn generations(&self) -> (generations: Generations)
        ensures
            generations == self@.generations(),
    {
        Generations {
            logging: self.logging.generation(),
            nullfs: self.nullfs.generation,
            tmpfs: self.tmpfs.generation,
            vfs: self.vfs.generation,
        }
    }
}

/// Bringing every service up.
pub open spec fn services_run(k: kernel::Transcript, mode: InitBootMode, specs: ServiceSpecs) -> Run<
    Running,
> {
    init_run::bind(
        logging_run(k, specs.logging, mode),
        |k: kernel::Transcript, logging: LoggingUp|
            init_run::bind(
                devices_run(k, mode),
                |k: kernel::Transcript, probed: ()|
                    init_run::bind(
                        nullfs_run(k, specs.nullfs, mode),
                        |k: kernel::Transcript, nullfs: (NullfsDevice, FilesystemUp)|
                            filesystems_run(k, mode, specs, logging, nullfs.0, nullfs.1),
                    ),
            ),
    )
}

/// Bringing the other filesystems up, and what controls the services.
pub open spec fn filesystems_run(
    k: kernel::Transcript,
    mode: InitBootMode,
    specs: ServiceSpecs,
    logging: LoggingUp,
    device: NullfsDevice,
    nullfs: FilesystemUp,
) -> Run<Running> {
    init_run::bind(
        tmpfs_run(k, specs.tmpfs),
        |k: kernel::Transcript, tmpfs: FilesystemUp|
            init_run::bind(
                vfs_run(k, specs.vfs),
                |k: kernel::Transcript, vfs: FilesystemUp|
                    init_run::bind(
                        service_registry::new_run(k),
                        |k: kernel::Transcript, control: service_registry::Control|
                            init_run::end(
                                k,
                                assembled(mode, logging, device, nullfs, tmpfs, vfs, control),
                            ),
                    ),
            ),
    )
}

/// The system that is made of what was brought up.
pub open spec fn assembled(
    mode: InitBootMode,
    logging: LoggingUp,
    device: NullfsDevice,
    nullfs: FilesystemUp,
    tmpfs: FilesystemUp,
    vfs: FilesystemUp,
    control: service_registry::Control,
) -> Running {
    Running {
        mode,
        early_log_reader: logging.early_log_reader,
        registry: service_registry::Registry {
            logging: logging.logging.service,
            nullfs: nullfs.service,
            tmpfs: tmpfs.service,
            vfs: vfs.service,
        },
        numbers: Numbers {
            logging: logging.sequence,
            nullfs: nullfs.sequence,
            tmpfs: tmpfs.sequence,
            vfs: vfs.sequence,
        },
        broker: logging.logging.broker,
        logging: logging.logging.lifecycle,
        control,
        nullfs: nullfs.filesystem,
        tmpfs: tmpfs.filesystem,
        vfs: vfs.filesystem,
        device,
    }
}

fn boot_services(k: &mut Kernel, mode: InitBootMode, specs: &ServiceSpecs) -> (result: Result<
    System,
    Halt,
>)
    ensures
        ({
            let (asked, outcome) = services_run(old(k)@, mode, *specs);
            &&& final(k)@ == asked
            &&& match result {
                Ok(system) => outcome == Ok::<_, Halt>(system@),
                Err(halt) => outcome == Err::<Running, _>(halt),
            }
        }),
{
    let logging = boot_logging(k, specs.logging, mode)?;
    probe_devices(k, mode)?;
    let (device, nullfs) = boot_nullfs(k, specs.nullfs, mode)?;
    let tmpfs = boot_tmpfs(k, specs.tmpfs)?;
    let vfs = boot_vfs(k, specs.vfs)?;
    let control = ServiceControlState::new(k)?;
    Ok(
        System {
            mode,
            early_log_reader: logging.early_log_reader,
            services: Services {
                logging: logging.service,
                nullfs: nullfs.service,
                tmpfs: tmpfs.service,
                vfs: vfs.service,
            },
            sequences: Sequences {
                logging: logging.sequence,
                nullfs: nullfs.sequence,
                tmpfs: tmpfs.sequence,
                vfs: vfs.sequence,
            },
            route_broker: logging.route_broker,
            logging: logging.lifecycle,
            control,
            nullfs: nullfs.filesystem,
            tmpfs: tmpfs.filesystem,
            vfs: vfs.filesystem,
            device,
        },
    )
}

/// Bringing the system up as far as to the file that defines a service: the system, and what the
/// file holds.
pub open spec fn boot_run(k: kernel::Transcript, mode: InitBootMode, specs: ServiceSpecs) -> Run<
    (Running, Result<Seq<u8>, DefinitionServiceError>),
> {
    init_run::bind(
        services_run(k, mode, specs),
        |k: kernel::Transcript, running: Running|
            init_run::bind(
                mode_probe_run(
                    k,
                    mode,
                    running.tested(),
                    running.generations(),
                    running.vfs.resources.request_endpoint,
                    running.device,
                ),
                |
                    k: kernel::Transcript,
                    probed: (nullfs_restart_probe::Tested, ProviderGeneration),
                |
                    init_run::bind(
                        definition_service::load_run(k),
                        |k: kernel::Transcript, read: Result<Seq<u8>, DefinitionServiceError>|
                            init_run::end(k, (running.with_tested(probed.0, probed.1), read)),
                    ),
            ),
    )
}

pub fn boot(k: &mut Kernel, mode: InitBootMode, specs: &ServiceSpecs) -> (result: Result<
    (System, Result<Vec<u8>, DefinitionServiceError>),
    Halt,
>)
    ensures
        ({
            let (asked, outcome) = boot_run(old(k)@, mode, *specs);
            &&& final(k)@ == asked
            &&& outcome == match result {
                Ok((system, Ok(bytes))) => Ok((system@, Ok(bytes@))),
                Ok((system, Err(error))) => Ok((system@, Err(error))),
                Err(halt) => Err(halt),
            }
        }),
{
    let mut system = boot_services(k, mode, specs)?;
    let generations = system.generations();
    let ghost before = system@;
    let generation = probe_in_mode(
        k,
        mode,
        &mut system.control,
        &mut system.services,
        &mut system.sequences.nullfs,
        &mut system.nullfs.resources,
        generations,
        system.vfs.resources.request_endpoint,
        system.device,
    )?;
    system.nullfs.generation = generation;
    assert(system@ == before.with_tested(system@.tested(), generation));
    let read = load_definition_bytes(k)?;
    Ok((system, read))
}

proof fn lemma_logging_is_published(k: kernel::Transcript, spec: ServiceSpec, mode: InitBootMode)
    ensures
        logging_run(k, spec, mode).1 matches Ok(up) ==> logging_supervision::routes_match(
            up.logging.lifecycle,
            up.logging.broker.routes,
        ),
{
    if let (made, Ok(broker)) = route_broker::new_run(k) {
        if let (opened, Ok(reader)) = early_log_run(made) {
            let starting = logging_supervision::Starting {
                service: supervisor::Service::initial(spec),
                broker,
                generations: 0,
            };
            logging_supervision::lemma_started_logging_is_published(opened, starting, reader);
            if let (started, Ok((collector, generation))) = logging_supervision::start_run(
                opened,
                starting,
                reader,
            ) {
                lemma_probed_logging_is_published(started, collector, reader, generation, mode);
            }
        }
    }
}

proof fn lemma_probed_logging_is_published(
    k: kernel::Transcript,
    collector: logging_probes::Collector,
    early_log_reader: CapabilityHandle,
    generation: LoggingGeneration,
    mode: InitBootMode,
)
    requires
        generation.routes_published,
        logging_supervision::leads_to(collector.broker.routes, generation.generation),
    ensures
        probe_logging_run(k, collector, early_log_reader, generation, mode).1 matches Ok(
            (next, probed),
        ) ==> probed.routes_published && logging_supervision::leads_to(
            next.broker.routes,
            probed.generation,
        ),
{
    if mode == InitBootMode::NullfsRestartTest {
        logging_probes::lemma_replaced_collector_is_published(
            k,
            collector,
            early_log_reader,
            generation,
        );
    }
}

proof fn lemma_filesystem_is_numbered(
    k: kernel::Transcript,
    spec: ServiceSpec,
    endpoints: (CapabilityHandle, CapabilityHandle),
    grants: Seq<BootstrapCapability>,
    messages: ServiceMessages,
    containment: ServiceContainment,
)
    ensures
        filesystem_run(k, spec, endpoints, grants, messages, containment).1 matches Ok(up)
            ==> up.filesystem.generation.raw == up.sequence,
{
    let starting = contained_service::Starting {
        service: supervisor::Service::initial(spec),
        generations: 0,
        readiness: endpoints.0,
        request: endpoints.1,
    };
    if contained_service::start_run(k, starting, grants, messages, containment).1 is Ok {
        contained_service::lemma_started_service_has_a_newer_generation(
            k,
            starting,
            grants,
            messages,
            containment,
        );
    }
}

proof fn lemma_nullfs_is_numbered(k: kernel::Transcript, spec: ServiceSpec, mode: InitBootMode)
    ensures
        nullfs_run(k, spec, mode).1 matches Ok((_, up)) ==> up.filesystem.generation.raw
            == up.sequence,
{
    if let (opened, Ok((device, endpoints))) = nullfs_device_run(k, mode) {
        lemma_filesystem_is_numbered(
            opened,
            spec,
            endpoints,
            device.grants(),
            nullfs_messages(),
            nullfs_containment(),
        );
    }
}

proof fn lemma_tmpfs_is_numbered(k: kernel::Transcript, spec: ServiceSpec)
    ensures
        tmpfs_run(k, spec).1 matches Ok(up) ==> up.filesystem.generation.raw == up.sequence,
{
    if let (made, Ok(endpoints)) = contained_service::create_endpoints_run(
        k,
        Text::TmpfsServiceBootstrapFailed,
    ) {
        lemma_filesystem_is_numbered(
            made,
            spec,
            endpoints,
            seq![],
            tmpfs_messages(),
            tmpfs_containment(),
        );
    }
}

proof fn lemma_vfs_is_numbered(k: kernel::Transcript, spec: ServiceSpec)
    ensures
        vfs_run(k, spec).1 matches Ok(up) ==> up.filesystem.generation.raw == up.sequence,
{
    if let (made, Ok(endpoints)) = contained_service::create_endpoints_run(
        k,
        Text::VfsServiceBootstrapFailed,
    ) {
        lemma_filesystem_is_numbered(
            made,
            spec,
            endpoints,
            seq![],
            vfs_messages(),
            vfs_containment(),
        );
    }
}

/// Whether the system is in order: the routes lead to the logging service, and each filesystem
/// service has the generation whose number was given out last.
pub open spec fn in_order(running: Running) -> bool {
    &&& logging_supervision::routes_match(running.logging, running.broker.routes)
    &&& running.nullfs.generation.raw == running.numbers.nullfs
    &&& running.tmpfs.generation.raw == running.numbers.tmpfs
    &&& running.vfs.generation.raw == running.numbers.vfs
}

/// Services that were all brought up are in order.
pub proof fn lemma_services_come_up_in_order(
    k: kernel::Transcript,
    mode: InitBootMode,
    specs: ServiceSpecs,
)
    ensures
        services_run(k, mode, specs).1 matches Ok(running) ==> in_order(running),
{
    lemma_logging_is_published(k, specs.logging, mode);
    if let (first, Ok(logging)) = logging_run(k, specs.logging, mode) {
        if let (second, Ok(_)) = devices_run(first, mode) {
            lemma_nullfs_is_numbered(second, specs.nullfs, mode);
            if let (third, Ok((device, nullfs))) = nullfs_run(second, specs.nullfs, mode) {
                lemma_tmpfs_is_numbered(third, specs.tmpfs);
                if let (fourth, Ok(tmpfs)) = tmpfs_run(third, specs.tmpfs) {
                    lemma_vfs_is_numbered(fourth, specs.vfs);
                }
            }
        }
    }
}

proof fn lemma_restart_test_is_numbered(
    k: kernel::Transcript,
    tested: nullfs_restart_probe::Tested,
    generations: Generations,
    vfs_endpoint: CapabilityHandle,
    block_endpoint: CapabilityHandle,
)
    ensures
        restart_test_run(k, tested, generations, vfs_endpoint, block_endpoint).1 matches Ok(
            (next, generation),
        ) ==> generation.raw == next.sequence,
{
    let (first, _) = probe::probe_run(
        k,
        Text::NullfsFullProbeCommand,
        tested.resources.request_endpoint,
        Text::NullfsFullProbeFailed,
        Text::NullfsFullProbePassed,
    );
    let (second, _) = probe::probe_run(
        first,
        Text::VfsFullProbeCommand,
        vfs_endpoint,
        Text::VfsFullProbeFailed,
        Text::VfsFullProbePassed,
    );
    nullfs_restart_probe::lemma_probe_goes_through_two_generations(
        second,
        tested,
        generations,
        vfs_endpoint,
        sending(block_endpoint, NULLFS_BLOCK_HANDLE),
    );
}

proof fn lemma_probed_nullfs_is_numbered(
    k: kernel::Transcript,
    mode: InitBootMode,
    tested: nullfs_restart_probe::Tested,
    generations: Generations,
    vfs_endpoint: CapabilityHandle,
    device: NullfsDevice,
)
    requires
        generations.nullfs.raw == tested.sequence,
    ensures
        mode_probe_run(k, mode, tested, generations, vfs_endpoint, device).1 matches Ok(
            (next, generation),
        ) ==> generation.raw == next.sequence,
{
    match mode {
        InitBootMode::NullfsRestartTest => {
            lemma_restart_test_is_numbered(
                k,
                tested,
                generations,
                vfs_endpoint,
                device.block_endpoint,
            );
        },
        InitBootMode::NullfsCrashRecoveryTest => {
            if let Some(hook) = device.crash_hook {
                nullfs_probes::lemma_recovered_service_has_the_next_generation(
                    k,
                    tested.nullfs(),
                    generations.nullfs,
                    device.grants(),
                    hook,
                );
            }
        },
        _ => {},
    }
}

/// A system that was brought up is in order.
pub proof fn lemma_system_comes_up_in_order(
    k: kernel::Transcript,
    mode: InitBootMode,
    specs: ServiceSpecs,
)
    ensures
        boot_run(k, mode, specs).1 matches Ok((running, _)) ==> in_order(running),
{
    lemma_services_come_up_in_order(k, mode, specs);
    if let (up, Ok(running)) = services_run(k, mode, specs) {
        lemma_probed_nullfs_is_numbered(
            up,
            mode,
            running.tested(),
            running.generations(),
            running.vfs.resources.request_endpoint,
            running.device,
        );
    }
}

/// Whether a filesystem is known to the kernel where it takes requests, in the generation that it
/// has.
pub open spec fn found(
    before: kernel::Transcript,
    after: kernel::Transcript,
    provider: FilesystemProvider,
    filesystem: Filesystem,
) -> bool {
    trace::found(
        before,
        after,
        provider,
        filesystem.resources.request_endpoint,
        filesystem.generation.raw,
    )
}

/// How far the services are when they were all brought up: the points at which each filesystem
/// is up.
proof fn lemma_services_are_found(k: kernel::Transcript, mode: InitBootMode, specs: ServiceSpecs) -> (points:
    (kernel::Transcript, kernel::Transcript, kernel::Transcript))
    requires
        services_run(k, mode, specs).1 is Ok,
    ensures
        ({
            let (after, outcome) = services_run(k, mode, specs);
            let running = outcome->Ok_0;
            let (begun, nullfs, tmpfs) = points;
            &&& trace::fading(k, begun)
            &&& trace::settles(
                begun,
                nullfs,
                FilesystemProvider::Nullfs,
                running.nullfs.resources.request_endpoint,
                running.nullfs.generation.raw,
            )
            &&& trace::settles(
                nullfs,
                tmpfs,
                FilesystemProvider::Tmpfs,
                running.tmpfs.resources.request_endpoint,
                running.tmpfs.generation.raw,
            )
            &&& trace::settles(
                tmpfs,
                after,
                FilesystemProvider::Vfs,
                running.vfs.resources.request_endpoint,
                running.vfs.generation.raw,
            )
        }),
{
    broadcast use {
        trace::group_settles,
        trace::lemma_boot_logging_run,
        trace::lemma_boot_devices_run,
        trace::lemma_boot_nullfs_run_settles,
        trace::lemma_boot_tmpfs_run_settles,
        trace::lemma_boot_vfs_run_settles,
        trace::lemma_service_registry_new_run,
    };

    let (first, logging) = logging_run(k, specs.logging, mode);
    let (second, _) = devices_run(first, mode);
    let (third, nullfs) = nullfs_run(second, specs.nullfs, mode);
    let (fourth, tmpfs) = tmpfs_run(third, specs.tmpfs);
    let (fifth, vfs) = vfs_run(fourth, specs.vfs);
    let (sixth, control) = service_registry::new_run(fifth);
    (second, third, fourth)
}

/// Where the NullFS service is found after it was tested in the way of the mode: it is where it
/// was, or where its new generation is.
proof fn lemma_tested_nullfs_is_found(
    k: kernel::Transcript,
    begun: kernel::Transcript,
    settled: kernel::Transcript,
    up: kernel::Transcript,
    mode: InitBootMode,
    tested: nullfs_restart_probe::Tested,
    generations: Generations,
    vfs_endpoint: CapabilityHandle,
    device: NullfsDevice,
)
    requires
        trace::fading(k, begun),
        trace::settles(
            begun,
            settled,
            FilesystemProvider::Nullfs,
            tested.resources.request_endpoint,
            generations.nullfs.raw,
        ),
        forall|generation: u64| #[trigger]
            trace::spares(settled, up, FilesystemProvider::Nullfs, generation),
        mode_probe_run(up, mode, tested, generations, vfs_endpoint, device).1 is Ok,
    ensures
        ({
            let (probed, outcome) = mode_probe_run(
                up,
                mode,
                tested,
                generations,
                vfs_endpoint,
                device,
            );
            let (next, generation) = outcome->Ok_0;
            trace::found(
                k,
                probed,
                FilesystemProvider::Nullfs,
                next.resources.request_endpoint,
                generation.raw,
            )
        }),
{
    broadcast use {
        trace::group_settles,
        trace::lemma_probe_probe_run,
        trace::lemma_nullfs_probes_device_loss_run,
        trace::lemma_nullfs_probes_crash_recovery_run_settles,
        trace::lemma_nullfs_restart_probe_ordered_run_settles,
        trace::lemma_nullfs_restart_probe_forced_run_settles,
        trace::lemma_boot_restarted_run,
    };

    let nullfs = FilesystemProvider::Nullfs;
    let old_endpoint = tested.resources.request_endpoint;
    let old = generations.nullfs.raw;
    let (probed, outcome) = mode_probe_run(up, mode, tested, generations, vfs_endpoint, device);
    let (next, generation) = outcome->Ok_0;
    let endpoint = next.resources.request_endpoint;
    let number = generation.raw;
    trace::lemma_settled_generation_is_counted(begun, settled, nullfs, old_endpoint, old);
    trace::lemma_fading_spares(k, begun, nullfs, number);
    assert(trace::spares(settled, up, nullfs, number));
    match mode {
        InitBootMode::NullfsRestartTest => {
            let (first, _) = probe::probe_run(
                up,
                Text::NullfsFullProbeCommand,
                old_endpoint,
                Text::NullfsFullProbeFailed,
                Text::NullfsFullProbePassed,
            );
            let (second, _) = probe::probe_run(
                first,
                Text::VfsFullProbeCommand,
                vfs_endpoint,
                Text::VfsFullProbeFailed,
                Text::VfsFullProbePassed,
            );
            let block = sending(device.block_endpoint, NULLFS_BLOCK_HANDLE);
            nullfs_restart_probe::lemma_probe_goes_through_two_generations(
                second,
                tested,
                generations,
                vfs_endpoint,
                block,
            );
            let (third, ordered) = nullfs_restart_probe::ordered_run(
                second,
                tested,
                generations,
                vfs_endpoint,
                block,
            );
            let (middle, between) = ordered->Ok_0;
            let (fourth, forced) = nullfs_restart_probe::forced_run(
                third,
                middle,
                nullfs_restart_probe::with_nullfs(generations, between),
                block,
            );
            assert(trace::fading(up, second));
            trace::lemma_settled_generation_is_counted(
                second,
                third,
                nullfs,
                middle.resources.request_endpoint,
                between.raw,
            );
            trace::lemma_settling_spares_others(
                begun,
                settled,
                nullfs,
                old_endpoint,
                old,
                nullfs,
                number,
            );
            trace::lemma_fading_spares(up, second, nullfs, number);
            trace::lemma_settling_spares_others(
                second,
                third,
                nullfs,
                middle.resources.request_endpoint,
                between.raw,
                nullfs,
                number,
            );
            trace::lemma_fading_spares(fourth, probed, nullfs, number);
            trace::lemma_spares_goes_on(k, begun, settled, nullfs, number);
            trace::lemma_spares_goes_on(k, settled, up, nullfs, number);
            trace::lemma_spares_goes_on(k, up, second, nullfs, number);
            trace::lemma_spares_goes_on(k, second, third, nullfs, number);
            trace::lemma_settled_is_found(k, third, fourth, probed, nullfs, endpoint, number);
        },
        InitBootMode::NullfsCrashRecoveryTest => {
            let hook = device.crash_hook->Some_0;
            nullfs_probes::lemma_recovered_service_has_the_next_generation(
                up,
                tested.nullfs(),
                generations.nullfs,
                device.grants(),
                hook,
            );
            trace::lemma_settling_spares_others(
                begun,
                settled,
                nullfs,
                old_endpoint,
                old,
                nullfs,
                number,
            );
            trace::lemma_spares_goes_on(k, begun, settled, nullfs, number);
            trace::lemma_spares_goes_on(k, settled, up, nullfs, number);
            trace::lemma_fading_spares(probed, probed, nullfs, number);
            trace::lemma_settled_is_found(k, up, probed, probed, nullfs, endpoint, number);
        },
        _ => {
            assert(trace::fading(up, probed));
            trace::lemma_fading_spares(up, probed, nullfs, number);
            trace::lemma_spares_goes_on(settled, up, probed, nullfs, number);
            trace::lemma_settled_is_found(k, begun, settled, probed, nullfs, endpoint, number);
        },
    }
}

/// After a boot, each filesystem is known to the kernel where it takes requests, in the generation
/// that it has: the kernel has agreed to that, and was told of no other endpoint for it. Neither
/// the temporary filesystem nor the router was taken away again.
pub proof fn lemma_filesystems_are_found_where_they_serve(
    k: kernel::Transcript,
    mode: InitBootMode,
    specs: ServiceSpecs,
)
    ensures
        ({
            let (after, outcome) = boot_run(k, mode, specs);
            outcome matches Ok((running, _)) ==> {
                &&& after.follows(k)
                &&& found(k, after, FilesystemProvider::Nullfs, running.nullfs)
                &&& found(k, after, FilesystemProvider::Tmpfs, running.tmpfs)
                &&& found(k, after, FilesystemProvider::Vfs, running.vfs)
                &&& forall|i: int|
                    k.asked.len() <= i < after.asked.len() ==> !trace::takes_away(
                        (#[trigger] after.asked[i]).op,
                    )
            }
        }),
{
    broadcast use {
        trace::group_settles,
        trace::group_mild,
        trace::group_keeps,
        trace::lemma_boot_mode_probe_run,
        trace::lemma_definition_service_load_run,
    };

    let (after, outcome) = boot_run(k, mode, specs);
    if outcome is Ok {
        let (up, services) = services_run(k, mode, specs);
        let running = services->Ok_0;
        let (begun, nullfs, tmpfs) = lemma_services_are_found(k, mode, specs);
        let endpoint = running.vfs.resources.request_endpoint;
        let (probed, tested) = mode_probe_run(
            up,
            mode,
            running.tested(),
            running.generations(),
            endpoint,
            running.device,
        );
        assert forall|generation: u64| #[trigger]
            trace::spares(nullfs, up, FilesystemProvider::Nullfs, generation) by {
            trace::lemma_settling_spares_others(
                nullfs,
                tmpfs,
                FilesystemProvider::Tmpfs,
                running.tmpfs.resources.request_endpoint,
                running.tmpfs.generation.raw,
                FilesystemProvider::Nullfs,
                generation,
            );
            trace::lemma_settling_spares_others(
                tmpfs,
                up,
                FilesystemProvider::Vfs,
                endpoint,
                running.vfs.generation.raw,
                FilesystemProvider::Nullfs,
                generation,
            );
            trace::lemma_spares_goes_on(
                nullfs,
                tmpfs,
                up,
                FilesystemProvider::Nullfs,
                generation,
            );
        }
        lemma_tested_nullfs_is_found(
            k,
            begun,
            nullfs,
            up,
            mode,
            running.tested(),
            running.generations(),
            endpoint,
            running.device,
        );
        let (next, generation) = tested->Ok_0;
        trace::lemma_found_goes_on(
            k,
            probed,
            after,
            FilesystemProvider::Nullfs,
            next.resources.request_endpoint,
            generation.raw,
        );
        lemma_other_is_found(
            k,
            begun,
            nullfs,
            tmpfs,
            up,
            probed,
            running,
        );
        trace::lemma_found_goes_on(
            k,
            probed,
            after,
            FilesystemProvider::Tmpfs,
            running.tmpfs.resources.request_endpoint,
            running.tmpfs.generation.raw,
        );
        trace::lemma_found_goes_on(
            k,
            probed,
            after,
            FilesystemProvider::Vfs,
            endpoint,
            running.vfs.generation.raw,
        );
        trace::lemma_settling_keeps(
            begun,
            nullfs,
            FilesystemProvider::Nullfs,
            running.nullfs.resources.request_endpoint,
            running.nullfs.generation.raw,
        );
        trace::lemma_settling_keeps(
            nullfs,
            tmpfs,
            FilesystemProvider::Tmpfs,
            running.tmpfs.resources.request_endpoint,
            running.tmpfs.generation.raw,
        );
        trace::lemma_settling_keeps(
            tmpfs,
            up,
            FilesystemProvider::Vfs,
            endpoint,
            running.vfs.generation.raw,
        );
        assert(trace::keeps(k, begun) && trace::keeps(up, probed) && trace::keeps(probed, after));
        assert(trace::keeps(k, nullfs));
        assert(trace::keeps(k, tmpfs));
        assert(trace::keeps(k, after));
        reveal(trace::keeps);
    }
}

proof fn lemma_other_is_found(
    k: kernel::Transcript,
    begun: kernel::Transcript,
    nullfs: kernel::Transcript,
    tmpfs: kernel::Transcript,
    up: kernel::Transcript,
    probed: kernel::Transcript,
    running: Running,
)
    requires
        trace::fading(k, begun),
        trace::settles(
            begun,
            nullfs,
            FilesystemProvider::Nullfs,
            running.nullfs.resources.request_endpoint,
            running.nullfs.generation.raw,
        ),
        trace::settles(
            nullfs,
            tmpfs,
            FilesystemProvider::Tmpfs,
            running.tmpfs.resources.request_endpoint,
            running.tmpfs.generation.raw,
        ),
        trace::settles(
            tmpfs,
            up,
            FilesystemProvider::Vfs,
            running.vfs.resources.request_endpoint,
            running.vfs.generation.raw,
        ),
        trace::mild(up, probed),
    ensures
        found(k, probed, FilesystemProvider::Tmpfs, running.tmpfs),
        found(k, probed, FilesystemProvider::Vfs, running.vfs),
{
    let nullfs_endpoint = running.nullfs.resources.request_endpoint;
    let nullfs_number = running.nullfs.generation.raw;
    let tmpfs_endpoint = running.tmpfs.resources.request_endpoint;
    let tmpfs_number = running.tmpfs.generation.raw;
    let vfs_endpoint = running.vfs.resources.request_endpoint;
    let vfs_number = running.vfs.generation.raw;
    let first = FilesystemProvider::Nullfs;
    let second = FilesystemProvider::Tmpfs;
    let third = FilesystemProvider::Vfs;
    trace::lemma_fading_spares(k, begun, second, tmpfs_number);
    trace::lemma_settling_spares_others(
        begun,
        nullfs,
        first,
        nullfs_endpoint,
        nullfs_number,
        second,
        tmpfs_number,
    );
    trace::lemma_spares_goes_on(k, begun, nullfs, second, tmpfs_number);
    trace::lemma_settling_spares_others(
        tmpfs,
        up,
        third,
        vfs_endpoint,
        vfs_number,
        second,
        tmpfs_number,
    );
    trace::lemma_mild_spares(up, probed, second, tmpfs_number);
    trace::lemma_spares_goes_on(tmpfs, up, probed, second, tmpfs_number);
    trace::lemma_settled_is_found(k, nullfs, tmpfs, probed, second, tmpfs_endpoint, tmpfs_number);
    trace::lemma_fading_spares(k, begun, third, vfs_number);
    trace::lemma_settling_spares_others(
        begun,
        nullfs,
        first,
        nullfs_endpoint,
        nullfs_number,
        third,
        vfs_number,
    );
    trace::lemma_spares_goes_on(k, begun, nullfs, third, vfs_number);
    trace::lemma_settling_spares_others(
        nullfs,
        tmpfs,
        second,
        tmpfs_endpoint,
        tmpfs_number,
        third,
        vfs_number,
    );
    trace::lemma_spares_goes_on(k, nullfs, tmpfs, third, vfs_number);
    trace::lemma_mild_spares(up, probed, third, vfs_number);
    trace::lemma_settled_is_found(k, tmpfs, up, probed, third, vfs_endpoint, vfs_number);
}

} // verus!
