//! What the first process does once the system is up: it looks after the services, the shell and
//! the tools that ask for something, step by step.

use crate::boot;
use crate::boot::{Filesystem, System};
use crate::boot_mode::InitBootMode;
use crate::contained_service;
use crate::contained_service::{
    close_contained_endpoint, must_drain, nullfs_containment, nullfs_messages,
    start_contained_service, tmpfs_containment, tmpfs_messages, vfs_containment, vfs_messages,
    ContainedServiceJob, GenerationResources, ServiceContainment, ServiceMessages,
};
use crate::definition_service;
use crate::definition_service::{
    cleanup_definition_service_runtime, converge_definition_service_start,
    poll_definition_service, DefinitionServiceError, DefinitionServiceRuntime, DefinitionState,
    ServiceDefinition,
};
use crate::filesystem_registry;
use crate::filesystem_registry::{
    offline_filesystem_provider, register_nullfs_proxy, register_tmpfs_proxy, register_vfs_router,
};
use crate::identity::{ProviderGeneration, ProviderGenerationSequence};
use crate::init_run;
use crate::init_run::{
    announce, backoff, hear, need, not_yet, rest, BootstrapCapability, Halt, Run,
};
use crate::init_text::Text;
use crate::ipc;
use crate::ipc::CapabilityHandle;
use crate::kernel;
use crate::kernel::{Kernel, Op};
use crate::lifecycle_check;
use crate::lifecycle_check::{ControlSources, FilesystemRecords, LoggingLifecycleCheck};
use crate::logging_probes;
use crate::logging_probes::{run_service_control_probe, spawn_shell};
use crate::logging_supervision;
use crate::logging_supervision::{
    advance_logging_lifecycle, poll_logging_child, sync_logging_routes, LoggingLifecycle,
};
use crate::nullfs_lifecycle;
use crate::nullfs_lifecycle::NullfsLifecycle;
use crate::nullfs_probes;
use crate::nullfs_probes::close_both;
use crate::platform::FilesystemProvider;
use crate::route_broker;
use crate::route_broker::ROUTE_PUMP_BUDGET;
use crate::service_control::{nullfs_service_id, tmpfs_service_id, vfs_service_id};
use crate::service_registry;
use crate::service_registry::{service_record, SERVICE_CONTROL_PUMP_BUDGET};
use crate::supervisor;
use crate::supervisor::{
    shell_status_disposition, ServiceRuntime, ServiceState, ServiceStatusDisposition,
    ShellStatusDisposition,
};
use crate::syscall;
use crate::syscall::{foreground_process_group, try_wait_child, ChildStatus, ProcessId};
use vstd::prelude::*;

verus! {

/// How often a service that is defined in a file has been restarted when it is right.
pub const DEFINED_RESTARTS: u32 = 1;

/// The generation that a service that is defined in a file has when it is right.
pub const DEFINED_GENERATION: u64 = 2;

/// A service that is defined in a file.
pub ghost struct DefinedService {
    pub definition: definition_service::Definition,
    pub state: DefinitionState,
}

/// A service that is defined in a file, if there is one.
pub open spec fn defined_view(runtime: Option<DefinitionServiceRuntime>) -> Option<DefinedService> {
    match runtime {
        None => None,
        Some(runtime) => Some(
            DefinedService { definition: runtime.definition@, state: runtime.state },
        ),
    }
}

/// Whether a service came up as it must: it was restarted once, and has its second generation.
#[verifier::allow_in_spec]
pub fn is_verified(state: DefinitionState) -> bool
    returns
        state.restart_count == DEFINED_RESTARTS && state.generation == Some(
            ProviderGeneration { raw: DEFINED_GENERATION },
        ),
{
    let second = match state.generation {
        Some(generation) => generation.raw == DEFINED_GENERATION,
        None => false,
    };
    state.restart_count == DEFINED_RESTARTS && second
}

/// Giving a service that is defined in a file up: it stays only if it cannot be cleared away.
pub open spec fn discard_run(
    k: kernel::Transcript,
    definition: definition_service::Definition,
    state: DefinitionState,
) -> Run<Option<DefinedService>> {
    init_run::bind(
        definition_service::cleanup_run(
            k,
            DefinitionState { restart_deferred: false, ..state },
        ),
        |k: kernel::Transcript, cleaned: (DefinitionState, bool)|
            init_run::bind(
                init_run::announce_run(k, Text::DefinitionServiceFailed),
                |k: kernel::Transcript, said: ()|
                    init_run::end(
                        k,
                        if cleaned.1 {
                            None
                        } else {
                            Some(DefinedService { definition, state: cleaned.0 })
                        },
                    ),
            ),
    )
}

/// Starting the service that is defined in a file: what there is of it, and the number of its
/// last generation.
pub open spec fn define_run(
    k: kernel::Transcript,
    loaded: Result<definition_service::Definition, DefinitionServiceError>,
) -> Run<(Option<DefinedService>, u64)> {
    match loaded {
        Err(_) => init_run::bind(
            init_run::announce_run(k, Text::DefinitionServiceFailed),
            |k: kernel::Transcript, said: ()| init_run::end(k, (None, 0)),
        ),
        Ok(definition) => init_run::bind(
            definition_service::converge_run(
                k,
                definition,
                definition_service::Defined { state: DefinitionState::new(), generations: 0 },
            ),
            |
                k: kernel::Transcript,
                converged: (definition_service::Defined, Result<bool, DefinitionServiceError>),
            | converged_run(k, definition, converged.0, converged.1),
        ),
    }
}

/// What becomes of the service once its start is over.
pub open spec fn converged_run(
    k: kernel::Transcript,
    definition: definition_service::Definition,
    defined: definition_service::Defined,
    result: Result<bool, DefinitionServiceError>,
) -> Run<(Option<DefinedService>, u64)> {
    let kept = DefinedService { definition, state: defined.state };
    if result == Ok::<bool, DefinitionServiceError>(true) && is_verified(defined.state) {
        init_run::bind(
            init_run::announce_run(k, Text::DefinitionServiceVerified),
            |k: kernel::Transcript, said: ()| init_run::end(k, (Some(kept), defined.generations)),
        )
    } else if result == Ok::<bool, DefinitionServiceError>(false)
        && defined.state.restart_deferred {
        init_run::end(k, (Some(kept), defined.generations))
    } else {
        init_run::bind(
            discard_run(k, definition, defined.state),
            |k: kernel::Transcript, left: Option<DefinedService>|
                init_run::end(k, (left, defined.generations)),
        )
    }
}

/// What a definition that was loaded is to the contracts.
pub open spec fn loaded_view(loaded: Result<ServiceDefinition, DefinitionServiceError>) -> Result<
    definition_service::Definition,
    DefinitionServiceError,
> {
    match loaded {
        Ok(definition) => Ok(definition@),
        Err(error) => Err(error),
    }
}

fn define_service(k: &mut Kernel, loaded: Result<ServiceDefinition, DefinitionServiceError>) -> (result:
    Result<(Option<DefinitionServiceRuntime>, ProviderGenerationSequence), Halt>)
    ensures
        ({
            let (asked, outcome) = define_run(old(k)@, loaded_view(loaded));
            &&& final(k)@ == asked
            &&& outcome == match result {
                Ok((runtime, sequence)) => Ok((defined_view(runtime), sequence@)),
                Err(halt) => Err(halt),
            }
        }),
{
    let mut sequence = ProviderGenerationSequence::new();
    let definition = match loaded {
        Ok(definition) => definition,
        Err(_) => {
            announce(k, Text::DefinitionServiceFailed)?;
            return Ok((None, sequence));
        },
    };
    let mut runtime = DefinitionServiceRuntime::new(definition);
    let converged = converge_definition_service_start(k, &mut runtime, &mut sequence)?;
    if let Ok(ready) = converged {
        if ready && is_verified(runtime.state) {
            announce(k, Text::DefinitionServiceVerified)?;
            return Ok((Some(runtime), sequence));
        }
        if !ready && runtime.state.restart_deferred {
            return Ok((Some(runtime), sequence));
        }
    }
    runtime.state.restart_deferred = false;
    let cleaned = cleanup_definition_service_runtime(k, &mut runtime)?;
    announce(k, Text::DefinitionServiceFailed)?;
    if cleaned {
        Ok((None, sequence))
    } else {
        Ok((Some(runtime), sequence))
    }
}

/// What is said of the filesystems.
pub open spec fn records_of(running: boot::Running) -> FilesystemRecords {
    FilesystemRecords {
        nullfs: service_registry::record_of(
            nullfs_service_id(),
            running.registry.nullfs,
            running.nullfs.generation,
        ),
        tmpfs: service_registry::record_of(
            tmpfs_service_id(),
            running.registry.tmpfs,
            running.tmpfs.generation,
        ),
        vfs: service_registry::record_of(
            vfs_service_id(),
            running.registry.vfs,
            running.vfs.generation,
        ),
    }
}

fn filesystem_records(system: &System) -> (records: FilesystemRecords)
    ensures
        records == records_of(system@),
{
    FilesystemRecords {
        nullfs: service_record(
            nullfs_service_id(),
            &system.services.nullfs,
            system.nullfs.generation,
        ),
        tmpfs: service_record(
            tmpfs_service_id(),
            &system.services.tmpfs,
            system.tmpfs.generation,
        ),
        vfs: service_record(vfs_service_id(), &system.services.vfs, system.vfs.generation),
    }
}

/// The system with everything that the first process looks after.
///
/// A clone owns nothing: it is there to run a procedure again from the same state.
#[derive(Clone, Debug)]
pub struct Supervisor {
    pub system: System,
    pub definition: Option<DefinitionServiceRuntime>,
    pub definition_sequence: ProviderGenerationSequence,
    pub shell_process_id: ProcessId,
    pub check: Option<LoggingLifecycleCheck>,
}

/// The same as the contracts see it.
pub ghost struct Supervised {
    pub running: boot::Running,
    pub definition: Option<DefinedService>,
    pub definition_number: u64,
    pub shell_process_id: ProcessId,
    pub check: Option<lifecycle_check::Check>,
}

impl View for Supervisor {
    type V = Supervised;

    open spec fn view(&self) -> Supervised {
        Supervised {
            running: self.system@,
            definition: defined_view(self.definition),
            definition_number: self.definition_sequence@,
            shell_process_id: self.shell_process_id,
            check: match self.check {
                Some(check) => Some(check@),
                None => None,
            },
        }
    }
}

/// Beginning the check of the logging service's life, in the test of that.
pub open spec fn check_run(k: kernel::Transcript, running: boot::Running) -> Run<
    Option<lifecycle_check::Check>,
> {
    if running.mode == InitBootMode::LoggingLifecycleTest {
        init_run::bind(
            lifecycle_check::new_run(
                k,
                running.registry.logging,
                running.logging,
                running.broker.routes,
                records_of(running),
            ),
            |k: kernel::Transcript, check: lifecycle_check::Check| init_run::end(k, Some(check)),
        )
    } else {
        init_run::end(k, None)
    }
}

/// Asking for the list of services and for the status of one.
pub open spec fn ask_run(k: kernel::Transcript, running: boot::Running) -> Run<()> {
    init_run::bind(
        logging_probes::control_probe_run(
            k,
            Text::SvListCommand,
            Text::SvListPassed,
            running.control,
            running.registry,
            running.generations(),
        ),
        |k: kernel::Transcript, listed: ()|
            logging_probes::control_probe_run(
                k,
                Text::SvStatusLoggingCommand,
                Text::SvStatusLoggingPassed,
                running.control,
                running.registry,
                running.generations(),
            ),
    )
}

/// Running the shell with what it may ask for.
pub open spec fn shell_of_run(k: kernel::Transcript, running: boot::Running) -> Run<ProcessId> {
    logging_probes::shell_run(
        k,
        running.broker.observer_grant_source,
        running.control.observation_source,
        running.control.mutation_source,
    )
}

/// The end of the boot: the service that is defined in a file, the shell, and the check.
pub open spec fn complete_run(
    k: kernel::Transcript,
    running: boot::Running,
    loaded: Result<definition_service::Definition, DefinitionServiceError>,
) -> Run<Supervised> {
    init_run::bind(
        define_run(k, loaded),
        |k: kernel::Transcript, defined: (Option<DefinedService>, u64)|
            init_run::bind(
                ask_run(k, running),
                |k: kernel::Transcript, asked: ()|
                    init_run::bind(
                        shell_of_run(k, running),
                        |k: kernel::Transcript, shell_process_id: u64|
                            init_run::bind(
                                check_run(k, running),
                                |k: kernel::Transcript, check: Option<lifecycle_check::Check>|
                                    init_run::end(
                                        k,
                                        Supervised {
                                            running,
                                            definition: defined.0,
                                            definition_number: defined.1,
                                            shell_process_id,
                                            check,
                                        },
                                    ),
                            ),
                    ),
            ),
    )
}

/// Ends the boot with the definition that the file holds, or the reason why there is none.
pub fn complete_boot(
    k: &mut Kernel,
    system: System,
    loaded: Result<ServiceDefinition, DefinitionServiceError>,
) -> (result: Result<Supervisor, Halt>)
    ensures
        ({
            let (asked, outcome) = complete_run(old(k)@, system@, loaded_view(loaded));
            &&& final(k)@ == asked
            &&& match result {
                Ok(supervisor) => outcome == Ok::<_, Halt>(supervisor@),
                Err(halt) => outcome == Err::<Supervised, _>(halt),
            }
        }),
{
    let ghost running = system@;
    let mut system = system;
    let (definition, definition_sequence) = define_service(k, loaded)?;
    let generations = system.generations();
    run_service_control_probe(
        k,
        Text::SvListCommand,
        Text::SvListPassed,
        &mut system.control,
        &system.services,
        generations,
    )?;
    run_service_control_probe(
        k,
        Text::SvStatusLoggingCommand,
        Text::SvStatusLoggingPassed,
        &mut system.control,
        &system.services,
        generations,
    )?;
    assert(system@ == running);
    let shell_process_id: u64 = spawn_shell(
        k,
        system.route_broker.observer_grant_source,
        system.control.observation_source,
        system.control.mutation_source,
    )?;
    let check = if system.mode == InitBootMode::LoggingLifecycleTest {
        let records = filesystem_records(&system);
        Some(
            LoggingLifecycleCheck::new(
                k,
                &system.services.logging,
                &system.logging,
                &system.route_broker,
                records,
            )?,
        )
    } else {
        None
    };
    Ok(Supervisor { system, definition, definition_sequence, shell_process_id, check })
}

/// The logging service with its routes.
pub open spec fn logging_of(running: boot::Running) -> logging_supervision::Logging {
    logging_supervision::Logging {
        service: running.registry.logging,
        lifecycle: running.logging,
        broker: running.broker,
    }
}

/// The system with another state of the logging service.
pub open spec fn with_logging(
    running: boot::Running,
    logging: logging_supervision::Logging,
) -> boot::Running {
    boot::Running {
        registry: service_registry::Registry { logging: logging.service, ..running.registry },
        logging: logging.lifecycle,
        broker: logging.broker,
        ..running
    }
}

/// The system as those who ask for changes leave it.
pub open spec fn with_held(running: boot::Running, held: service_registry::Held) -> boot::Running {
    boot::Running {
        registry: held.registry,
        control: service_registry::Control { lifecycle: held.lifecycle, ..running.control },
        ..running
    }
}

/// What those who ask for changes can change.
pub open spec fn held_of(running: boot::Running) -> service_registry::Held {
    service_registry::Held { registry: running.registry, lifecycle: running.control.lifecycle }
}

/// Whether a restart of the logging service is through but for those who still wait for it.
pub open spec fn restart_ready(service: supervisor::Service) -> bool {
    service.state == ServiceState::Running && service.restart_pending
}

/// Taking requests for changes: a restart of the logging service that was through is over once
/// nobody waits for it any more.
pub open spec fn requests_run(k: kernel::Transcript, running: boot::Running) -> Run<
    (boot::Running, ()),
> {
    init_run::bind(
        service_registry::pump_mutation_run(
            k,
            running.control.mutation,
            held_of(running),
            running.generations(),
            running.nullfs.resources.request_endpoint,
            0,
        ),
        |k: kernel::Transcript, pumped: (service_registry::Held, usize)|
            init_run::bind(
                logging_supervision::sync_run(
                    k,
                    pumped.0.registry.logging,
                    running.logging,
                    running.broker,
                ),
                |
                    k: kernel::Transcript,
                    synced: ((LoggingLifecycle, route_broker::Broker), ()),
                |
                    init_run::end(
                        k,
                        (
                            settled_requests(
                                boot::Running {
                                    logging: synced.0.0,
                                    broker: synced.0.1,
                                    ..with_held(running, pumped.0)
                                },
                                restart_ready(running.registry.logging) && pumped.1
                                    < SERVICE_CONTROL_PUMP_BUDGET,
                            ),
                            (),
                        ),
                    ),
            ),
    )
}

/// The system when nobody waits for a restart of the logging service any more.
pub open spec fn settled_requests(running: boot::Running, through: bool) -> boot::Running {
    if through && running.registry.logging.state == ServiceState::Running {
        boot::Running {
            registry: service_registry::Registry {
                logging: running.registry.logging.complete_restart(),
                ..running.registry
            },
            ..running
        }
    } else {
        running
    }
}

fn take_requests(k: &mut Kernel, system: &mut System) -> (result: Result<(), Halt>)
    ensures
        ({
            let (asked, outcome) = requests_run(old(k)@, old(system)@);
            &&& final(k)@ == asked
            &&& init_run::came_to(outcome, final(system)@, result)
        }),
{
    let ready = system.services.logging.state() == ServiceState::Running
        && system.services.logging.controlled_restart_pending();
    let generations = system.generations();
    let count: usize = system.control.pump_mutation(
        k,
        &mut system.services,
        generations,
        system.nullfs.resources.request_endpoint,
    )?;
    sync_logging_routes(
        k,
        &system.services.logging,
        &mut system.logging,
        &mut system.route_broker,
    )?;
    if ready && count < SERVICE_CONTROL_PUMP_BUDGET && system.services.logging.state()
        == ServiceState::Running {
        system.services.logging.complete_restart();
    }
    Ok(())
}

/// Looking after the logging service, its routes and those who ask for something.
pub open spec fn logging_step_run(k: kernel::Transcript, running: boot::Running) -> Run<
    (boot::Running, ()),
> {
    init_run::bind(
        logging_supervision::poll_run(k, logging_of(running)),
        |k: kernel::Transcript, polled: (logging_supervision::Logging, ())|
            init_run::bind(
                requests_run(k, with_logging(running, polled.0)),
                |k: kernel::Transcript, taken: (boot::Running, ())|
                    logging_advance_run(k, taken.0),
            ),
    )
}

/// Going on with the life of the logging service, and answering questions.
pub open spec fn logging_advance_run(k: kernel::Transcript, running: boot::Running) -> Run<
    (boot::Running, ()),
> {
    init_run::bind(
        logging_supervision::advance_run(
            k,
            logging_supervision::Advancing {
                logging: logging_of(running),
                generations: running.numbers.logging,
            },
            running.early_log_reader,
            running.mode == InitBootMode::LoggingLifecycleTest,
        ),
        |k: kernel::Transcript, advanced: (logging_supervision::Advancing, ())|
            answer_run(
                k,
                boot::Running {
                    numbers: boot::Numbers {
                        logging: advanced.0.generations,
                        ..running.numbers
                    },
                    ..with_logging(running, advanced.0.logging)
                },
            ),
    )
}

/// Answering questions about services and for routes.
pub open spec fn answer_run(k: kernel::Transcript, running: boot::Running) -> Run<
    (boot::Running, ()),
> {
    init_run::bind(
        service_registry::observation_run(
            k,
            running.control.observation,
            running.registry,
            running.generations(),
            SERVICE_CONTROL_PUMP_BUDGET as nat,
        ),
        |k: kernel::Transcript, observed: ()|
            init_run::bind(
                route_broker::pump_run(k, running.broker, ROUTE_PUMP_BUDGET as nat),
                |k: kernel::Transcript, pumped: ()| init_run::end(k, (running, ())),
            ),
    )
}

fn step_logging(k: &mut Kernel, system: &mut System) -> (result: Result<(), Halt>)
    ensures
        ({
            let (asked, outcome) = logging_step_run(old(k)@, old(system)@);
            &&& final(k)@ == asked
            &&& init_run::came_to(outcome, final(system)@, result)
        }),
{
    poll_logging_child(
        k,
        &mut system.services.logging,
        &mut system.logging,
        &mut system.route_broker,
    )?;
    take_requests(k, system)?;
    let test = system.mode == InitBootMode::LoggingLifecycleTest;
    advance_logging_lifecycle(
        k,
        &mut system.services.logging,
        &mut system.logging,
        &mut system.route_broker,
        &mut system.sequences.logging,
        system.early_log_reader,
        test,
    )?;
    let generations = system.generations();
    system.control.pump_observation(k, &system.services, generations)?;
    system.route_broker.pump(k)
}

/// Starting a service again after it ended.
pub open spec fn start_again_run(
    k: kernel::Transcript,
    up: boot::FilesystemUp,
    backoff_yields: u32,
    grants: Seq<BootstrapCapability>,
    messages: ServiceMessages,
    containment: ServiceContainment,
) -> Run<boot::FilesystemUp> {
    init_run::bind(
        contained_service::create_endpoints_run(k, messages.bootstrap_failed),
        |k: kernel::Transcript, endpoints: (CapabilityHandle, CapabilityHandle)|
            init_run::bind(
                init_run::backoff_run(k, backoff_yields as nat),
                |k: kernel::Transcript, rested: ()|
                    init_run::bind(
                        contained_service::start_run(
                            k,
                            contained_service::Starting {
                                service: up.service,
                                generations: up.sequence,
                                readiness: endpoints.0,
                                request: endpoints.1,
                            },
                            grants,
                            messages,
                            containment,
                        ),
                        |
                            k: kernel::Transcript,
                            started: (
                                contained_service::Starting,
                                (ProviderGeneration, ContainedServiceJob),
                            ),
                        | init_run::end(k, started_again(started.0, started.1.0, started.1.1)),
                    ),
            ),
    )
}

/// A service that was started again.
pub open spec fn started_again(
    started: contained_service::Starting,
    generation: ProviderGeneration,
    job: ContainedServiceJob,
) -> boot::FilesystemUp {
    boot::FilesystemUp {
        service: started.service,
        sequence: started.generations,
        filesystem: Filesystem {
            resources: GenerationResources {
                readiness_endpoint: started.readiness,
                request_endpoint: started.request,
                job,
            },
            generation,
        },
    }
}

fn start_again(
    k: &mut Kernel,
    service: &mut ServiceRuntime,
    sequence: &mut ProviderGenerationSequence,
    filesystem: &mut Filesystem,
    backoff_yields: u32,
    grants: &[BootstrapCapability],
    messages: ServiceMessages,
    containment: ServiceContainment,
) -> (result: Result<(), Halt>)
    ensures
        ({
            let (asked, outcome) = start_again_run(
                old(k)@,
                boot::FilesystemUp {
                    service: old(service)@,
                    sequence: old(sequence)@,
                    filesystem: *old(filesystem),
                },
                backoff_yields,
                grants@,
                messages,
                containment,
            );
            &&& final(k)@ == asked
            &&& match result {
                Ok(_) => outcome == Ok::<_, Halt>(
                    boot::FilesystemUp {
                        service: final(service)@,
                        sequence: final(sequence)@,
                        filesystem: *final(filesystem),
                    },
                ),
                Err(halt) => outcome == Err::<boot::FilesystemUp, _>(halt),
            }
        }),
{
    let (first, second) = contained_service::create_endpoints(k, messages.bootstrap_failed)?;
    let mut readiness_endpoint: u64 = first;
    let mut request_endpoint: u64 = second;
    backoff(k, backoff_yields)?;
    let (generation, job) = start_contained_service(
        k,
        service,
        sequence,
        &mut readiness_endpoint,
        &mut request_endpoint,
        grants,
        messages,
        containment,
    )?;
    *filesystem = Filesystem {
        resources: GenerationResources { readiness_endpoint, request_endpoint, job },
        generation,
    };
    Ok(())
}

/// The NullFS service with what it holds.
pub open spec fn nullfs_of(running: boot::Running) -> boot::FilesystemUp {
    boot::FilesystemUp {
        service: running.registry.nullfs,
        sequence: running.numbers.nullfs,
        filesystem: running.nullfs,
    }
}

/// The system with another state of the NullFS service.
pub open spec fn with_nullfs(running: boot::Running, up: boot::FilesystemUp) -> boot::Running {
    boot::Running {
        registry: service_registry::Registry { nullfs: up.service, ..running.registry },
        numbers: boot::Numbers { nullfs: up.sequence, ..running.numbers },
        nullfs: up.filesystem,
        ..running
    }
}

/// Answering everyone who waits for a restart.
pub open spec fn answer_all_run(k: kernel::Transcript, running: boot::Running) -> Run<
    boot::Running,
> {
    init_run::bind(
        service_registry::drain_mutation_run(
            k,
            running.control.mutation,
            held_of(running),
            running.generations(),
            running.nullfs.resources.request_endpoint,
        ),
        |k: kernel::Transcript, drained: (service_registry::Held, ())|
            init_run::end(k, with_held(running, drained.0)),
    )
}

fn answer_all(k: &mut Kernel, system: &mut System) -> (result: Result<(), Halt>)
    ensures
        ({
            let (asked, outcome) = answer_all_run(old(k)@, old(system)@);
            &&& final(k)@ == asked
            &&& match result {
                Ok(_) => outcome == Ok::<_, Halt>(final(system)@),
                Err(halt) => outcome == Err::<boot::Running, _>(halt),
            }
        }),
{
    let generations = system.generations();
    system.control.drain_mutation(
        k,
        &mut system.services,
        generations,
        system.nullfs.resources.request_endpoint,
    )
}

/// Starting the NullFS service again.
pub open spec fn nullfs_restart_run(
    k: kernel::Transcript,
    running: boot::Running,
    backoff_yields: u32,
) -> Run<(boot::Running, ())> {
    init_run::bind(
        init_run::announce_run(k, Text::NullfsServiceRestarting),
        |k: kernel::Transcript, said: ()|
            init_run::bind(
                nullfs_gone_run(k, running.nullfs),
                |k: kernel::Transcript, gone: ()|
                    init_run::bind(
                        start_again_run(
                            k,
                            nullfs_of(running),
                            backoff_yields,
                            running.device.grants(),
                            nullfs_messages(),
                            nullfs_containment(),
                        ),
                        |k: kernel::Transcript, up: boot::FilesystemUp|
                            init_run::bind(
                                filesystem_registry::register_nullfs_run(
                                    k,
                                    up.filesystem.generation,
                                    up.filesystem.resources.request_endpoint,
                                ),
                                |k: kernel::Transcript, registered: ()|
                                    nullfs_back_run(k, with_nullfs(running, up)),
                            ),
                    ),
            ),
    )
}

/// Taking the NullFS service's volume offline and giving its endpoints back.
pub open spec fn nullfs_gone_run(k: kernel::Transcript, nullfs: Filesystem) -> Run<()> {
    let text = Text::NullfsServiceFailed;
    init_run::bind(
        filesystem_registry::offline_run(
            k,
            FilesystemProvider::Nullfs,
            nullfs.generation,
            text,
        ),
        |k: kernel::Transcript, offline: ()|
            nullfs_probes::close_both_run(
                k,
                nullfs.resources.readiness_endpoint,
                nullfs.resources.request_endpoint,
                text,
            ),
    )
}

/// Being done with a restart of the NullFS service.
pub open spec fn nullfs_back_run(k: kernel::Transcript, running: boot::Running) -> Run<
    (boot::Running, ()),
> {
    init_run::bind(
        answer_all_run(k, running),
        |k: kernel::Transcript, answered: boot::Running|
            init_run::end(
                k,
                (
                    boot::Running {
                        registry: service_registry::Registry {
                            nullfs: answered.registry.nullfs.complete_restart(),
                            ..answered.registry
                        },
                        ..answered
                    },
                    (),
                ),
            ),
    )
}

fn nullfs_gone(k: &mut Kernel, nullfs: &Filesystem) -> (result: Result<(), Halt>)
    ensures
        (final(k)@, result) == nullfs_gone_run(old(k)@, *nullfs),
{
    let text = Text::NullfsServiceFailed;
    offline_filesystem_provider(k, FilesystemProvider::Nullfs, nullfs.generation, text)?;
    close_both(
        k,
        nullfs.resources.readiness_endpoint,
        nullfs.resources.request_endpoint,
        text,
    )
}

fn restart_nullfs(k: &mut Kernel, system: &mut System, backoff_yields: u32) -> (result: Result<
    (),
    Halt,
>)
    ensures
        ({
            let (asked, outcome) = nullfs_restart_run(old(k)@, old(system)@, backoff_yields);
            &&& final(k)@ == asked
            &&& init_run::came_to(outcome, final(system)@, result)
        }),
{
    announce(k, Text::NullfsServiceRestarting)?;
    nullfs_gone(k, &system.nullfs)?;
    let grants = system.device.capabilities();
    start_again(
        k,
        &mut system.services.nullfs,
        &mut system.sequences.nullfs,
        &mut system.nullfs,
        backoff_yields,
        grants.as_slice(),
        nullfs_messages(),
        nullfs_containment(),
    )?;
    register_nullfs_proxy(
        k,
        system.nullfs.generation,
        system.nullfs.resources.request_endpoint,
    )?;
    answer_all(k, system)?;
    system.services.nullfs.complete_restart();
    Ok(())
}

/// Giving up with the NullFS service: what it held is given back first.
pub open spec fn nullfs_lost_run<T>(k: kernel::Transcript, nullfs: Filesystem) -> Run<T> {
    let text = Text::NullfsServiceFailed;
    init_run::bind(
        filesystem_registry::offline_run(
            k,
            FilesystemProvider::Nullfs,
            nullfs.generation,
            text,
        ),
        |k: kernel::Transcript, offline: ()|
            init_run::bind(
                init_run::hear_run(ipc::close_run(k, nullfs.resources.readiness_endpoint)),
                |k: kernel::Transcript, readiness: Result<(), ipc::Error>|
                    init_run::bind(
                        init_run::hear_run(ipc::close_run(k, nullfs.resources.request_endpoint)),
                        |k: kernel::Transcript, request: Result<(), ipc::Error>|
                            init_run::giving_up(k, text),
                    ),
            ),
    )
}

/// What becomes of the NullFS service once its process has ended.
pub open spec fn nullfs_ended_run(k: kernel::Transcript, running: boot::Running, status: u64) -> Run<
    (boot::Running, ()),
> {
    let (service, disposition) = running.registry.nullfs.observe(status);
    let observed = boot::Running {
        registry: service_registry::Registry { nullfs: service, ..running.registry },
        ..running
    };
    match disposition {
        ServiceStatusDisposition::WaitForNextEvent => init_run::end(k, (observed, ())),
        ServiceStatusDisposition::Restart { backoff_yields } => nullfs_restart_run(
            k,
            observed,
            backoff_yields,
        ),
        ServiceStatusDisposition::Stopped => init_run::bind(
            nullfs_gone_run(k, running.nullfs),
            |k: kernel::Transcript, gone: ()| init_run::end(k, (observed, ())),
        ),
        ServiceStatusDisposition::Failed => nullfs_lost_run(k, running.nullfs),
    }
}

/// Looking after the NullFS service.
pub open spec fn nullfs_step_run(k: kernel::Transcript, running: boot::Running) -> Run<
    (boot::Running, ()),
> {
    init_run::bind(
        nullfs_lifecycle::advance_run(
            k,
            running.control.lifecycle,
            running.registry.nullfs.process_id,
            running.nullfs.generation,
            running.nullfs.resources.readiness_endpoint,
            running.nullfs.resources.request_endpoint,
            running.nullfs.resources.job,
        ),
        |k: kernel::Transcript, advanced: (NullfsLifecycle, Option<u64>)|
            {
                let next = boot::Running {
                    control: service_registry::Control {
                        lifecycle: advanced.0,
                        ..running.control
                    },
                    ..running
                };
                match advanced.1 {
                    None => init_run::end(k, (next, ())),
                    Some(status) => nullfs_drained_run(k, next, status),
                }
            },
    )
}

/// Clearing up after the NullFS service's process.
pub open spec fn nullfs_drained_run(k: kernel::Transcript, running: boot::Running, status: u64) -> Run<
    (boot::Running, ()),
> {
    init_run::bind(
        contained_service::must_drain_run(
            k,
            running.nullfs.resources.job,
            Text::NullfsServiceFailed,
        ),
        |k: kernel::Transcript, job: ContainedServiceJob|
            nullfs_ended_run(k, with_nullfs_job(running, job), status),
    )
}

/// The system with what is left of the NullFS service's job.
pub open spec fn with_nullfs_job(running: boot::Running, job: ContainedServiceJob) -> boot::Running {
    boot::Running {
        nullfs: Filesystem {
            resources: GenerationResources { job, ..running.nullfs.resources },
            ..running.nullfs
        },
        ..running
    }
}

fn step_nullfs(k: &mut Kernel, system: &mut System) -> (result: Result<(), Halt>)
    ensures
        ({
            let (asked, outcome) = nullfs_step_run(old(k)@, old(system)@);
            &&& final(k)@ == asked
            &&& init_run::came_to(outcome, final(system)@, result)
        }),
{
    let text = Text::NullfsServiceFailed;
    let process_id = system.services.nullfs.process_id();
    let status: u64 = match system.control.nullfs_lifecycle.advance(
        k,
        process_id,
        system.nullfs.generation,
        system.nullfs.resources.readiness_endpoint,
        system.nullfs.resources.request_endpoint,
        &system.nullfs.resources.job,
    )? {
        None => {
            return Ok(());
        },
        Some(status) => status,
    };
    must_drain(k, &mut system.nullfs.resources.job, text)?;
    match system.services.nullfs.observe_status(status) {
        ServiceStatusDisposition::WaitForNextEvent => Ok(()),
        ServiceStatusDisposition::Restart { backoff_yields } => restart_nullfs(
            k,
            system,
            backoff_yields,
        ),
        ServiceStatusDisposition::Stopped => nullfs_gone(k, &system.nullfs),
        ServiceStatusDisposition::Failed => {
            offline_filesystem_provider(
                k,
                FilesystemProvider::Nullfs,
                system.nullfs.generation,
                text,
            )?;
            let _ = hear(ipc::close(k, system.nullfs.resources.readiness_endpoint))?;
            let _ = hear(ipc::close(k, system.nullfs.resources.request_endpoint))?;
            Err(Halt::Failed(text))
        },
    }
}

/// The filesystem services that are simply started again.
#[derive(Clone, Copy, Debug, PartialEq, Eq, Structural)]
pub enum Plain {
    Tmpfs,
    Vfs,
}

impl Plain {
    #[verifier::allow_in_spec]
    pub fn provider(self) -> FilesystemProvider
        returns
            (match self {
                Plain::Tmpfs => FilesystemProvider::Tmpfs,
                Plain::Vfs => FilesystemProvider::Vfs,
            }),
    {
        match self {
            Plain::Tmpfs => FilesystemProvider::Tmpfs,
            Plain::Vfs => FilesystemProvider::Vfs,
        }
    }

    #[verifier::allow_in_spec]
    pub fn messages(self) -> ServiceMessages
        returns
            (match self {
                Plain::Tmpfs => tmpfs_messages(),
                Plain::Vfs => vfs_messages(),
            }),
    {
        match self {
            Plain::Tmpfs => tmpfs_messages(),
            Plain::Vfs => vfs_messages(),
        }
    }

    #[verifier::allow_in_spec]
    pub fn containment(self) -> ServiceContainment
        returns
            (match self {
                Plain::Tmpfs => tmpfs_containment(),
                Plain::Vfs => vfs_containment(),
            }),
    {
        match self {
            Plain::Tmpfs => tmpfs_containment(),
            Plain::Vfs => vfs_containment(),
        }
    }
}

/// Registering a filesystem service.
pub open spec fn register_run(
    k: kernel::Transcript,
    plain: Plain,
    generation: ProviderGeneration,
    endpoint: CapabilityHandle,
) -> Run<()> {
    match plain {
        Plain::Tmpfs => filesystem_registry::register_tmpfs_run(k, generation, endpoint),
        Plain::Vfs => filesystem_registry::register_vfs_run(k, generation, endpoint),
    }
}

fn register(
    k: &mut Kernel,
    plain: Plain,
    generation: ProviderGeneration,
    endpoint: CapabilityHandle,
) -> (result: Result<(), Halt>)
    ensures
        (final(k)@, result) == register_run(old(k)@, plain, generation, endpoint),
{
    match plain {
        Plain::Tmpfs => register_tmpfs_proxy(k, generation, endpoint),
        Plain::Vfs => register_vfs_router(k, generation, endpoint),
    }
}

/// Taking a filesystem offline and clearing up after it: what is left of its job.
pub open spec fn gone_run(k: kernel::Transcript, plain: Plain, filesystem: Filesystem) -> Run<
    ContainedServiceJob,
> {
    let text = plain.messages().failed;
    init_run::bind(
        filesystem_registry::offline_run(k, plain.provider(), filesystem.generation, text),
        |k: kernel::Transcript, offline: ()|
            init_run::bind(
                contained_service::must_drain_run(k, filesystem.resources.job, text),
                |k: kernel::Transcript, job: ContainedServiceJob|
                    init_run::bind(
                        contained_service::close_endpoint_run(
                            k,
                            plain.containment(),
                            filesystem.resources.readiness_endpoint,
                            text,
                        ),
                        |k: kernel::Transcript, readiness: ()|
                            init_run::bind(
                                contained_service::close_endpoint_run(
                                    k,
                                    plain.containment(),
                                    filesystem.resources.request_endpoint,
                                    text,
                                ),
                                |k: kernel::Transcript, request: ()| init_run::end(k, job),
                            ),
                    ),
            ),
    )
}

fn clear_away(k: &mut Kernel, plain: Plain, filesystem: &mut Filesystem) -> (result: Result<(), Halt>)
    ensures
        ({
            let (asked, outcome) = gone_run(old(k)@, plain, *old(filesystem));
            &&& final(k)@ == asked
            &&& match result {
                Ok(_) => outcome == Ok::<_, Halt>(final(filesystem).resources.job),
                Err(halt) => outcome == Err::<ContainedServiceJob, _>(halt),
            }
        }),
        *final(filesystem) == (Filesystem {
            resources: GenerationResources {
                job: final(filesystem).resources.job,
                ..old(filesystem).resources
            },
            ..*old(filesystem)
        }),
{
    let text = plain.messages().failed;
    offline_filesystem_provider(k, plain.provider(), filesystem.generation, text)?;
    must_drain(k, &mut filesystem.resources.job, text)?;
    close_contained_endpoint(
        k,
        plain.containment(),
        filesystem.resources.readiness_endpoint,
        text,
    )?;
    close_contained_endpoint(
        k,
        plain.containment(),
        filesystem.resources.request_endpoint,
        text,
    )
}

/// A service with what is left of its job.
pub open spec fn with_job(up: boot::FilesystemUp, job: ContainedServiceJob) -> boot::FilesystemUp {
    boot::FilesystemUp {
        filesystem: Filesystem {
            resources: GenerationResources { job, ..up.filesystem.resources },
            ..up.filesystem
        },
        ..up
    }
}

/// Starting a filesystem service again.
pub open spec fn renew_run(
    k: kernel::Transcript,
    plain: Plain,
    up: boot::FilesystemUp,
    backoff_yields: u32,
) -> Run<(boot::FilesystemUp, bool)> {
    init_run::bind(
        init_run::announce_run(k, plain.messages().restarting),
        |k: kernel::Transcript, said: ()|
            init_run::bind(
                gone_run(k, plain, up.filesystem),
                |k: kernel::Transcript, job: ContainedServiceJob|
                    init_run::bind(
                        start_again_run(
                            k,
                            with_job(up, job),
                            backoff_yields,
                            seq![],
                            plain.messages(),
                            plain.containment(),
                        ),
                        |k: kernel::Transcript, next: boot::FilesystemUp|
                            init_run::bind(
                                register_run(
                                    k,
                                    plain,
                                    next.filesystem.generation,
                                    next.filesystem.resources.request_endpoint,
                                ),
                                |k: kernel::Transcript, registered: ()|
                                    init_run::end(k, (next, true)),
                            ),
                    ),
            ),
    )
}

/// What becomes of a filesystem service whose process has changed: whether it was started again.
pub open spec fn changed_run(
    k: kernel::Transcript,
    plain: Plain,
    up: boot::FilesystemUp,
    status: u64,
) -> Run<(boot::FilesystemUp, bool)> {
    let (service, disposition) = up.service.observe(status);
    let observed = boot::FilesystemUp { service, ..up };
    match disposition {
        ServiceStatusDisposition::WaitForNextEvent => init_run::end(k, (observed, false)),
        ServiceStatusDisposition::Restart { backoff_yields } => renew_run(
            k,
            plain,
            observed,
            backoff_yields,
        ),
        ServiceStatusDisposition::Stopped => init_run::bind(
            gone_run(k, plain, up.filesystem),
            |k: kernel::Transcript, job: ContainedServiceJob|
                init_run::end(k, (with_job(observed, job), false)),
        ),
        ServiceStatusDisposition::Failed => init_run::bind(
            gone_run(k, plain, up.filesystem),
            |k: kernel::Transcript, job: ContainedServiceJob|
                init_run::giving_up(k, plain.messages().failed),
        ),
    }
}

/// Looking after a filesystem service: whether it was started again.
pub open spec fn watch_run(k: kernel::Transcript, plain: Plain, up: boot::FilesystemUp) -> Run<
    (boot::FilesystemUp, bool),
> {
    match up.service.process_id {
        None => init_run::end(k, (up, false)),
        Some(process_id) => init_run::bind(
            init_run::hear_run(syscall::try_wait_run(k, process_id)),
            |k: kernel::Transcript, polled: Result<ChildStatus, ipc::Error>|
                match polled {
                    Ok(status) => changed_run(k, plain, up, status.raw),
                    Err(error) => if init_run::not_yet(error) {
                        init_run::end(k, (up, false))
                    } else {
                        init_run::giving_up(k, plain.messages().failed)
                    },
                },
        ),
    }
}

fn watch(
    k: &mut Kernel,
    plain: Plain,
    service: &mut ServiceRuntime,
    sequence: &mut ProviderGenerationSequence,
    filesystem: &mut Filesystem,
) -> (result: Result<bool, Halt>)
    ensures
        ({
            let (asked, outcome) = watch_run(
                old(k)@,
                plain,
                boot::FilesystemUp {
                    service: old(service)@,
                    sequence: old(sequence)@,
                    filesystem: *old(filesystem),
                },
            );
            &&& final(k)@ == asked
            &&& init_run::came_to(
                outcome,
                boot::FilesystemUp {
                    service: final(service)@,
                    sequence: final(sequence)@,
                    filesystem: *final(filesystem),
                },
                result,
            )
        }),
{
    let text = plain.messages().failed;
    let process_id: u64 = match service.process_id() {
        Some(process_id) => process_id,
        None => {
            return Ok(false);
        },
    };
    let status = match hear(try_wait_child(k, process_id))? {
        Ok(status) => status,
        Err(error) => {
            if not_yet(error) {
                return Ok(false);
            }
            return Err(Halt::Failed(text));
        },
    };
    match service.observe_status(status.raw()) {
        ServiceStatusDisposition::WaitForNextEvent => Ok(false),
        ServiceStatusDisposition::Restart { backoff_yields } => {
            announce(k, plain.messages().restarting)?;
            clear_away(k, plain, filesystem)?;
            let grants: [BootstrapCapability; 0] = [];
            assert(grants@ =~= seq![]);
            start_again(
                k,
                service,
                sequence,
                filesystem,
                backoff_yields,
                &grants,
                plain.messages(),
                plain.containment(),
            )?;
            register(
                k,
                plain,
                filesystem.generation,
                filesystem.resources.request_endpoint,
            )?;
            Ok(true)
        },
        ServiceStatusDisposition::Stopped => {
            clear_away(k, plain, filesystem)?;
            Ok(false)
        },
        ServiceStatusDisposition::Failed => {
            clear_away(k, plain, filesystem)?;
            Err(Halt::Failed(text))
        },
    }
}

/// A filesystem service with what it holds.
pub open spec fn plain_of(running: boot::Running, plain: Plain) -> boot::FilesystemUp {
    match plain {
        Plain::Tmpfs => boot::FilesystemUp {
            service: running.registry.tmpfs,
            sequence: running.numbers.tmpfs,
            filesystem: running.tmpfs,
        },
        Plain::Vfs => boot::FilesystemUp {
            service: running.registry.vfs,
            sequence: running.numbers.vfs,
            filesystem: running.vfs,
        },
    }
}

/// The system with another state of a filesystem service.
pub open spec fn with_plain(running: boot::Running, plain: Plain, up: boot::FilesystemUp) -> boot::Running {
    match plain {
        Plain::Tmpfs => boot::Running {
            registry: service_registry::Registry { tmpfs: up.service, ..running.registry },
            numbers: boot::Numbers { tmpfs: up.sequence, ..running.numbers },
            tmpfs: up.filesystem,
            ..running
        },
        Plain::Vfs => boot::Running {
            registry: service_registry::Registry { vfs: up.service, ..running.registry },
            numbers: boot::Numbers { vfs: up.sequence, ..running.numbers },
            vfs: up.filesystem,
            ..running
        },
    }
}

/// The system with a filesystem service whose restart is over.
pub open spec fn plain_back(running: boot::Running, plain: Plain) -> boot::Running {
    match plain {
        Plain::Tmpfs => boot::Running {
            registry: service_registry::Registry {
                tmpfs: running.registry.tmpfs.complete_restart(),
                ..running.registry
            },
            ..running
        },
        Plain::Vfs => boot::Running {
            registry: service_registry::Registry {
                vfs: running.registry.vfs.complete_restart(),
                ..running.registry
            },
            ..running
        },
    }
}

/// Looking after a filesystem service. Once it was started again, everyone who waits for that is
/// answered.
pub open spec fn plain_step_run(k: kernel::Transcript, plain: Plain, running: boot::Running) -> Run<
    (boot::Running, ()),
> {
    init_run::bind(
        watch_run(k, plain, plain_of(running, plain)),
        |k: kernel::Transcript, watched: (boot::FilesystemUp, bool)|
            if watched.1 {
                init_run::bind(
                    answer_all_run(k, with_plain(running, plain, watched.0)),
                    |k: kernel::Transcript, answered: boot::Running|
                        init_run::end(k, (plain_back(answered, plain), ())),
                )
            } else {
                init_run::end(k, (with_plain(running, plain, watched.0), ()))
            },
    )
}

fn step_plain(k: &mut Kernel, plain: Plain, system: &mut System) -> (result: Result<(), Halt>)
    ensures
        ({
            let (asked, outcome) = plain_step_run(old(k)@, plain, old(system)@);
            &&& final(k)@ == asked
            &&& init_run::came_to(outcome, final(system)@, result)
        }),
{
    let started = match plain {
        Plain::Tmpfs => watch(
            k,
            plain,
            &mut system.services.tmpfs,
            &mut system.sequences.tmpfs,
            &mut system.tmpfs,
        )?,
        Plain::Vfs => watch(
            k,
            plain,
            &mut system.services.vfs,
            &mut system.sequences.vfs,
            &mut system.vfs,
        )?,
    };
    if started {
        answer_all(k, system)?;
        match plain {
            Plain::Tmpfs => system.services.tmpfs.complete_restart(),
            Plain::Vfs => system.services.vfs.complete_restart(),
        }
    }
    Ok(())
}

/// Whether what a service that is defined in a file needs is there.
pub open spec fn dependencies_ready(registry: service_registry::Registry) -> bool {
    &&& registry.nullfs.state == ServiceState::Running
    &&& !registry.nullfs.restart_pending
    &&& registry.vfs.state == ServiceState::Running
    &&& !registry.vfs.restart_pending
}

/// Looking after the service that is defined in a file.
pub open spec fn definition_step_run(k: kernel::Transcript, supervised: Supervised) -> Run<
    (Supervised, ()),
> {
    match supervised.definition {
        None => init_run::end(k, (supervised, ())),
        Some(defined) => init_run::bind(
            definition_service::poll_run(
                k,
                defined.definition,
                definition_service::Defined {
                    state: defined.state,
                    generations: supervised.definition_number,
                },
                dependencies_ready(supervised.running.registry),
            ),
            |k: kernel::Transcript, polled: (definition_service::Defined, ())|
                init_run::end(
                    k,
                    (
                        Supervised {
                            definition: Some(
                                DefinedService { state: polled.0.state, ..defined },
                            ),
                            definition_number: polled.0.generations,
                            ..supervised
                        },
                        (),
                    ),
                ),
        ),
    }
}

/// Looking after the shell.
pub open spec fn shell_step_run(k: kernel::Transcript, supervised: Supervised) -> Run<
    (Supervised, ()),
> {
    init_run::bind(
        init_run::hear_run(syscall::try_wait_run(k, supervised.shell_process_id)),
        |k: kernel::Transcript, polled: Result<ChildStatus, ipc::Error>|
            match polled {
                Ok(status) => shell_changed_run(k, supervised, status.raw),
                Err(error) => if init_run::not_yet(error) {
                    init_run::end(k, (supervised, ()))
                } else {
                    init_run::giving_up(k, Text::ShellWaitFailed)
                },
            },
    )
}

/// What becomes of the shell when it has changed: it gets the foreground back, or a new one is
/// run.
pub open spec fn shell_changed_run(k: kernel::Transcript, supervised: Supervised, status: u64) -> Run<
    (Supervised, ()),
> {
    match shell_status_disposition(status) {
        ShellStatusDisposition::WaitForNextEvent => init_run::end(k, (supervised, ())),
        ShellStatusDisposition::RestoreForeground => init_run::bind(
            init_run::need_run(
                ipc::unit_run(
                    k,
                    Op::ForegroundProcessGroup { group: supervised.shell_process_id },
                    seq![],
                ),
                Text::ShellForegroundFailed,
            ),
            |k: kernel::Transcript, restored: ()| init_run::end(k, (supervised, ())),
        ),
        ShellStatusDisposition::RestartShell => init_run::bind(
            init_run::announce_run(k, Text::ShellRestarting),
            |k: kernel::Transcript, said: ()|
                init_run::bind(
                    shell_of_run(k, supervised.running),
                    |k: kernel::Transcript, shell_process_id: u64|
                        init_run::end(k, (Supervised { shell_process_id, ..supervised }, ())),
                ),
        ),
    }
}

/// Going on with the check of the logging service's life.
pub open spec fn check_step_run(k: kernel::Transcript, supervised: Supervised) -> Run<
    (Supervised, ()),
> {
    match supervised.check {
        None => init_run::end(k, (supervised, ())),
        Some(check) => init_run::bind(
            lifecycle_check::advance_run(
                k,
                check,
                lifecycle_check::Seen {
                    service: supervised.running.registry.logging,
                    lifecycle: supervised.running.logging,
                    routes: supervised.running.broker.routes,
                    sources: ControlSources {
                        observation: supervised.running.control.observation_source,
                        mutation: supervised.running.control.mutation_source,
                    },
                    records: records_of(supervised.running),
                },
            ),
            |k: kernel::Transcript, next: lifecycle_check::Check|
                init_run::end(k, (Supervised { check: Some(next), ..supervised }, ())),
        ),
    }
}

/// Looking after the services.
pub open spec fn services_step_run(k: kernel::Transcript, running: boot::Running) -> Run<
    (boot::Running, ()),
> {
    init_run::bind(
        logging_step_run(k, running),
        |k: kernel::Transcript, logging: (boot::Running, ())|
            init_run::bind(
                nullfs_step_run(k, logging.0),
                |k: kernel::Transcript, nullfs: (boot::Running, ())|
                    init_run::bind(
                        plain_step_run(k, Plain::Tmpfs, nullfs.0),
                        |k: kernel::Transcript, tmpfs: (boot::Running, ())|
                            plain_step_run(k, Plain::Vfs, tmpfs.0),
                    ),
            ),
    )
}

fn step_services(k: &mut Kernel, system: &mut System) -> (result: Result<(), Halt>)
    ensures
        ({
            let (asked, outcome) = services_step_run(old(k)@, old(system)@);
            &&& final(k)@ == asked
            &&& init_run::came_to(outcome, final(system)@, result)
        }),
{
    step_logging(k, system)?;
    step_nullfs(k, system)?;
    step_plain(k, Plain::Tmpfs, system)?;
    step_plain(k, Plain::Vfs, system)
}

/// One step of the first process: it looks after everything once, and then yields.
pub open spec fn step_run(k: kernel::Transcript, supervised: Supervised) -> Run<(Supervised, ())> {
    init_run::bind(
        services_step_run(k, supervised.running),
        |k: kernel::Transcript, services: (boot::Running, ())|
            init_run::bind(
                definition_step_run(k, Supervised { running: services.0, ..supervised }),
                |k: kernel::Transcript, definition: (Supervised, ())|
                    init_run::bind(
                        shell_step_run(k, definition.0),
                        |k: kernel::Transcript, shell: (Supervised, ())|
                            init_run::bind(
                                check_step_run(k, shell.0),
                                |k: kernel::Transcript, check: (Supervised, ())|
                                    init_run::bind(
                                        init_run::rest_run(k, Text::ShellWaitFailed),
                                        |k: kernel::Transcript, rested: ()|
                                            init_run::end(k, check),
                                    ),
                            ),
                    ),
            ),
    )
}

impl Supervisor {
    fn step_definition(&mut self, k: &mut Kernel) -> (result: Result<(), Halt>)
        ensures
            ({
                let (asked, outcome) = definition_step_run(old(k)@, old(self)@);
                &&& final(k)@ == asked
                &&& init_run::came_to(outcome, final(self)@, result)
            }),
    {
        let services = &self.system.services;
        let ready = services.nullfs.state() == ServiceState::Running
            && !services.nullfs.controlled_restart_pending() && services.vfs.state()
            == ServiceState::Running && !services.vfs.controlled_restart_pending();
        match self.definition.take() {
            None => Ok(()),
            Some(runtime) => {
                let mut runtime = runtime;
                let result = poll_definition_service(
                    k,
                    &mut runtime,
                    &mut self.definition_sequence,
                    ready,
                );
                self.definition = Some(runtime);
                result
            },
        }
    }

    fn step_shell(&mut self, k: &mut Kernel) -> (result: Result<(), Halt>)
        ensures
            ({
                let (asked, outcome) = shell_step_run(old(k)@, old(self)@);
                &&& final(k)@ == asked
                &&& init_run::came_to(outcome, final(self)@, result)
            }),
    {
        let status = match hear(try_wait_child(k, self.shell_process_id))? {
            Ok(status) => status,
            Err(error) => {
                if not_yet(error) {
                    return Ok(());
                }
                return Err(Halt::Failed(Text::ShellWaitFailed));
            },
        };
        match shell_status_disposition(status.raw()) {
            ShellStatusDisposition::WaitForNextEvent => Ok(()),
            ShellStatusDisposition::RestoreForeground => need(
                foreground_process_group(k, self.shell_process_id),
                Text::ShellForegroundFailed,
            ),
            ShellStatusDisposition::RestartShell => {
                announce(k, Text::ShellRestarting)?;
                self.shell_process_id = spawn_shell(
                    k,
                    self.system.route_broker.observer_grant_source,
                    self.system.control.observation_source,
                    self.system.control.mutation_source,
                )?;
                Ok(())
            },
        }
    }

    fn step_check(&mut self, k: &mut Kernel) -> (result: Result<(), Halt>)
        ensures
            ({
                let (asked, outcome) = check_step_run(old(k)@, old(self)@);
                &&& final(k)@ == asked
                &&& init_run::came_to(outcome, final(self)@, result)
            }),
    {
        let records = filesystem_records(&self.system);
        match self.check.take() {
            None => Ok(()),
            Some(check) => {
                let mut check = check;
                let result = check.advance(
                    k,
                    &self.system.services.logging,
                    &self.system.logging,
                    &self.system.route_broker,
                    ControlSources {
                        observation: self.system.control.observation_source,
                        mutation: self.system.control.mutation_source,
                    },
                    records,
                );
                self.check = Some(check);
                result
            },
        }
    }

    /// One step: everything is looked after once.
    pub fn step(&mut self, k: &mut Kernel) -> (result: Result<(), Halt>)
        ensures
            ({
                let (asked, outcome) = step_run(old(k)@, old(self)@);
                &&& final(k)@ == asked
                &&& init_run::came_to(outcome, final(self)@, result)
            }),
    {
        step_services(k, &mut self.system)?;
        self.step_definition(k)?;
        self.step_shell(k)?;
        self.step_check(k)?;
        rest(k, Text::ShellWaitFailed)
    }
}

/// Whether no filesystem service has a generation beyond the last number that was given out.
pub open spec fn well_numbered(running: boot::Running) -> bool {
    &&& running.nullfs.generation.raw <= running.numbers.nullfs
    &&& running.tmpfs.generation.raw <= running.numbers.tmpfs
    &&& running.vfs.generation.raw <= running.numbers.vfs
}

/// Whether nothing of the logging service and its routes differs.
pub open spec fn same_logging(before: boot::Running, after: boot::Running) -> bool {
    &&& after.logging == before.logging
    &&& after.broker == before.broker
}

/// Whether a filesystem service stayed as it was or has a newer generation.
pub open spec fn newer(before: Filesystem, after: Filesystem, number: u64) -> bool {
    &&& after.generation.raw <= number
    &&& after.generation == before.generation || after.generation.raw > before.generation.raw
}

proof fn lemma_start_again_is_newer(
    k: kernel::Transcript,
    up: boot::FilesystemUp,
    backoff_yields: u32,
    grants: Seq<BootstrapCapability>,
    messages: ServiceMessages,
    containment: ServiceContainment,
)
    ensures
        start_again_run(k, up, backoff_yields, grants, messages, containment).1 matches Ok(next)
            ==> next.filesystem.generation.raw == next.sequence && next.sequence > up.sequence,
{
    let (made, endpoints) = contained_service::create_endpoints_run(k, messages.bootstrap_failed);
    if let Ok(endpoints) = endpoints {
        let (rested, result) = init_run::backoff_run(made, backoff_yields as nat);
        let starting = contained_service::Starting {
            service: up.service,
            generations: up.sequence,
            readiness: endpoints.0,
            request: endpoints.1,
        };
        if result is Ok && contained_service::start_run(
            rested,
            starting,
            grants,
            messages,
            containment,
        ).1 is Ok {
            contained_service::lemma_started_service_has_a_newer_generation(
                rested,
                starting,
                grants,
                messages,
                containment,
            );
        }
    }
}

proof fn lemma_nullfs_restart_is_newer(
    k: kernel::Transcript,
    running: boot::Running,
    backoff_yields: u32,
)
    requires
        well_numbered(running),
    ensures
        nullfs_restart_run(k, running, backoff_yields).1 matches Ok((next, _)) ==> same_logging(
            running,
            next,
        ) && newer(running.nullfs, next.nullfs, next.numbers.nullfs) && next.tmpfs == running.tmpfs
            && next.vfs == running.vfs && well_numbered(next),
{
    if let (said, Ok(_)) = init_run::announce_run(k, Text::NullfsServiceRestarting) {
        if let (gone, Ok(_)) = nullfs_gone_run(said, running.nullfs) {
            lemma_start_again_is_newer(
                gone,
                nullfs_of(running),
                backoff_yields,
                running.device.grants(),
                nullfs_messages(),
                nullfs_containment(),
            );
        }
    }
}

proof fn lemma_nullfs_step_is_newer(k: kernel::Transcript, running: boot::Running)
    requires
        well_numbered(running),
    ensures
        nullfs_step_run(k, running).1 matches Ok((next, _)) ==> same_logging(running, next)
            && newer(running.nullfs, next.nullfs, next.numbers.nullfs) && next.tmpfs
            == running.tmpfs && next.vfs == running.vfs && well_numbered(next),
{
    let (advanced, result) = nullfs_lifecycle::advance_run(
        k,
        running.control.lifecycle,
        running.registry.nullfs.process_id,
        running.nullfs.generation,
        running.nullfs.resources.readiness_endpoint,
        running.nullfs.resources.request_endpoint,
        running.nullfs.resources.job,
    );
    if let Ok((lifecycle, Some(status))) = result {
        let next = boot::Running {
            control: service_registry::Control { lifecycle, ..running.control },
            ..running
        };
        let (drained, job) = contained_service::must_drain_run(
            advanced,
            next.nullfs.resources.job,
            Text::NullfsServiceFailed,
        );
        if let Ok(job) = job {
            let left = with_nullfs_job(next, job);
            let (service, disposition) = left.registry.nullfs.observe(status);
            let observed = boot::Running {
                registry: service_registry::Registry { nullfs: service, ..left.registry },
                ..left
            };
            if let ServiceStatusDisposition::Restart { backoff_yields } = disposition {
                lemma_nullfs_restart_is_newer(drained, observed, backoff_yields);
            }
        }
    }
}

proof fn lemma_watch_is_newer(k: kernel::Transcript, plain: Plain, up: boot::FilesystemUp)
    requires
        up.filesystem.generation.raw <= up.sequence,
    ensures
        watch_run(k, plain, up).1 matches Ok((next, _)) ==> newer(
            up.filesystem,
            next.filesystem,
            next.sequence,
        ),
{
    if let Some(process_id) = up.service.process_id {
        let (waited, polled) = syscall::try_wait_run(k, process_id);
        if let Some(Ok(status)) = polled {
            let (service, disposition) = up.service.observe(status.raw);
            let observed = boot::FilesystemUp { service, ..up };
            if let ServiceStatusDisposition::Restart { backoff_yields } = disposition {
                let (said, result) = init_run::announce_run(waited, plain.messages().restarting);
                if result is Ok {
                    if let (gone, Ok(job)) = gone_run(said, plain, observed.filesystem) {
                        lemma_start_again_is_newer(
                            gone,
                            with_job(observed, job),
                            backoff_yields,
                            seq![],
                            plain.messages(),
                            plain.containment(),
                        );
                    }
                }
            }
        }
    }
}

proof fn lemma_plain_step_is_newer(k: kernel::Transcript, plain: Plain, running: boot::Running)
    requires
        well_numbered(running),
    ensures
        plain_step_run(k, plain, running).1 matches Ok((next, _)) ==> same_logging(running, next)
            && newer(running.nullfs, next.nullfs, next.numbers.nullfs) && newer(
            running.tmpfs,
            next.tmpfs,
            next.numbers.tmpfs,
        ) && newer(running.vfs, next.vfs, next.numbers.vfs),
{
    lemma_watch_is_newer(k, plain, plain_of(running, plain));
}

proof fn lemma_logging_step_keeps_the_routes(k: kernel::Transcript, running: boot::Running)
    requires
        logging_supervision::routes_match(running.logging, running.broker.routes),
    ensures
        logging_step_run(k, running).1 matches Ok((next, _)) ==> logging_supervision::routes_match(
            next.logging,
            next.broker.routes,
        ) && next.nullfs == running.nullfs && next.tmpfs == running.tmpfs && next.vfs
            == running.vfs && next.numbers == (boot::Numbers {
            logging: next.numbers.logging,
            ..running.numbers
        }),
{
    if let (polled, Ok((logging, _))) = logging_supervision::poll_run(k, logging_of(running)) {
        logging_supervision::lemma_poll_keeps_the_routes(k, logging_of(running));
        let first = with_logging(running, logging);
        lemma_requests_keep_the_routes(polled, first);
        if let (taken, Ok((second, _))) = requests_run(polled, first) {
            lemma_advance_keeps_the_routes(taken, second);
        }
    }
}

proof fn lemma_requests_keep_the_routes(k: kernel::Transcript, running: boot::Running)
    requires
        logging_supervision::routes_match(running.logging, running.broker.routes),
    ensures
        requests_run(k, running).1 matches Ok((next, _)) ==> logging_supervision::routes_match(
            next.logging,
            next.broker.routes,
        ) && next.nullfs == running.nullfs && next.tmpfs == running.tmpfs && next.vfs
            == running.vfs && next.numbers == running.numbers,
{
    let (pumped, result) = service_registry::pump_mutation_run(
        k,
        running.control.mutation,
        held_of(running),
        running.generations(),
        running.nullfs.resources.request_endpoint,
        0,
    );
    if let Ok((held, count)) = result {
        if logging_supervision::sync_run(
            pumped,
            held.registry.logging,
            running.logging,
            running.broker,
        ).1 is Ok {
            logging_supervision::lemma_ending_service_has_no_routes(
                pumped,
                held.registry.logging,
                running.logging,
                running.broker,
            );
        }
    }
}

proof fn lemma_advance_keeps_the_routes(k: kernel::Transcript, running: boot::Running)
    requires
        logging_supervision::routes_match(running.logging, running.broker.routes),
    ensures
        logging_advance_run(k, running).1 matches Ok((next, _)) ==> logging_supervision::routes_match(
            next.logging,
            next.broker.routes,
        ) && next.nullfs == running.nullfs && next.tmpfs == running.tmpfs && next.vfs
            == running.vfs && next.numbers == (boot::Numbers {
            logging: next.numbers.logging,
            ..running.numbers
        }),
{
    let advancing = logging_supervision::Advancing {
        logging: logging_of(running),
        generations: running.numbers.logging,
    };
    let test = running.mode == InitBootMode::LoggingLifecycleTest;
    if logging_supervision::advance_run(k, advancing, running.early_log_reader, test).1 is Ok {
        logging_supervision::lemma_step_keeps_the_routes(
            k,
            advancing,
            running.early_log_reader,
            test,
        );
    }
}

/// What holds of the system before a step holds after it: the routes lead to the logging service
/// exactly when it has published them, and no filesystem service has a generation that was not
/// given out. A filesystem service that was started again has a newer generation than before.
pub proof fn lemma_step_keeps_the_system_in_order(k: kernel::Transcript, supervised: Supervised)
    requires
        logging_supervision::routes_match(
            supervised.running.logging,
            supervised.running.broker.routes,
        ),
        well_numbered(supervised.running),
        step_run(k, supervised).1 is Ok,
    ensures
        ({
            let before = supervised.running;
            let after = (step_run(k, supervised).1->Ok_0).0.running;
            &&& logging_supervision::routes_match(after.logging, after.broker.routes)
            &&& well_numbered(after)
            &&& newer(before.nullfs, after.nullfs, after.numbers.nullfs)
            &&& newer(before.tmpfs, after.tmpfs, after.numbers.tmpfs)
            &&& newer(before.vfs, after.vfs, after.numbers.vfs)
        }),
{
    lemma_services_stay_in_order(k, supervised.running);
}

proof fn lemma_services_stay_in_order(k: kernel::Transcript, running: boot::Running)
    requires
        logging_supervision::routes_match(running.logging, running.broker.routes),
        well_numbered(running),
    ensures
        services_step_run(k, running).1 matches Ok((after, _)) ==> logging_supervision::routes_match(
            after.logging,
            after.broker.routes,
        ) && well_numbered(after) && newer(running.nullfs, after.nullfs, after.numbers.nullfs)
            && newer(running.tmpfs, after.tmpfs, after.numbers.tmpfs) && newer(
            running.vfs,
            after.vfs,
            after.numbers.vfs,
        ),
{
    lemma_logging_step_keeps_the_routes(k, running);
    if let (first, Ok((logging, _))) = logging_step_run(k, running) {
        lemma_nullfs_step_is_newer(first, logging);
        if let (second, Ok((nullfs, _))) = nullfs_step_run(first, logging) {
            lemma_plain_step_is_newer(second, Plain::Tmpfs, nullfs);
            if let (third, Ok((tmpfs, _))) = plain_step_run(second, Plain::Tmpfs, nullfs) {
                lemma_plain_step_is_newer(third, Plain::Vfs, tmpfs);
            }
        }
    }
}

} // verus!
