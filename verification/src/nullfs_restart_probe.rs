//! The probe that restarts the NullFS service twice: once in order, and once while it does not
//! answer.

use crate::abi::SIGNAL_STOP;
use crate::contained_service;
use crate::contained_service::{must_drain, ContainedServiceJob, GenerationResources};
use crate::filesystem_registry::kernel_generation;
use crate::identity::{ProviderGeneration, ProviderGenerationSequence};
use crate::init_run;
use crate::init_run::{announce, demand, hear, need, rest, BootstrapCapability, Halt, Run};
use crate::init_text::Text;
use crate::ipc;
use crate::ipc::CapabilityHandle;
use crate::kernel;
use crate::kernel::Kernel;
use crate::lifecycle_check::next_number;
use crate::nullfs_lifecycle;
use crate::nullfs_lifecycle::NullfsLifecycle;
use crate::nullfs_probes;
use crate::nullfs_probes::{
    close_both, launch_pair, object_of, refused_offline, renew, replace, settled,
};
use crate::probe;
use crate::probe::{
    launch_tool, run_probe, sending, still_running, wait_for_message, wait_for_success,
};
use crate::service_control;
use crate::service_registry;
use crate::service_registry::{Generations, ServiceControlState, Services};
use crate::supervisor;
use crate::supervisor::{ServiceRuntime, ServiceState, ServiceStatusDisposition};
use crate::syscall;
use crate::syscall::{signal_process_group, wait_child, ChildStatus, ProcessId};
use vstd::prelude::*;

verus! {

/// How often a requested restart is looked for.
pub const RESTART_LOOKS: usize = 256;

/// The handle under which the control tool finds where changes are asked for.
pub const MUTATION_HANDLE: u64 = 2;

/// What the probe works on.
pub ghost struct Tested {
    pub control: service_registry::Control,
    pub registry: service_registry::Registry,
    pub sequence: u64,
    pub resources: GenerationResources,
}

impl Tested {
    pub open spec fn held(self) -> service_registry::Held {
        service_registry::Held { registry: self.registry, lifecycle: self.control.lifecycle }
    }

    pub open spec fn with_held(self, held: service_registry::Held) -> Tested {
        Tested {
            control: service_registry::Control { lifecycle: held.lifecycle, ..self.control },
            registry: held.registry,
            ..self
        }
    }

    pub open spec fn nullfs(self) -> nullfs_probes::Nullfs {
        nullfs_probes::Nullfs {
            service: self.registry.nullfs,
            generations: self.sequence,
            resources: self.resources,
        }
    }

    pub open spec fn with_nullfs(self, nullfs: nullfs_probes::Nullfs) -> Tested {
        Tested {
            registry: service_registry::Registry { nullfs: nullfs.service, ..self.registry },
            sequence: nullfs.generations,
            resources: nullfs.resources,
            ..self
        }
    }

    pub open spec fn with_lifecycle(self, lifecycle: NullfsLifecycle) -> Tested {
        Tested {
            control: service_registry::Control { lifecycle, ..self.control },
            ..self
        }
    }

    pub open spec fn with_job(self, job: ContainedServiceJob) -> Tested {
        Tested { resources: GenerationResources { job, ..self.resources }, ..self }
    }
}

/// Answering requests until one has the service restarted, while the tool that asks is running.
pub open spec fn requested_run(
    k: kernel::Transcript,
    ingress: service_control::Ingress,
    held: service_registry::Held,
    generations: Generations,
    endpoint: CapabilityHandle,
    tool: Option<ProcessId>,
    looks: nat,
) -> Run<service_registry::Held>
    decreases looks,
{
    let text = Text::NullfsRestartProbeFailed;
    if looks == 0 {
        init_run::giving_up(k, text)
    } else {
        let (looked, result) = requested_step_run(k, ingress, held, generations, endpoint, tool);
        match result {
            Err(halt) => (looked, Err(halt)),
            Ok((next, true)) => init_run::end(looked, next),
            Ok((next, false)) => requested_run(
                looked,
                ingress,
                next,
                generations,
                endpoint,
                tool,
                (looks - 1) as nat,
            ),
        }
    }
}

/// Answering requests once: whether one has the service restarted.
pub open spec fn requested_step_run(
    k: kernel::Transcript,
    ingress: service_control::Ingress,
    held: service_registry::Held,
    generations: Generations,
    endpoint: CapabilityHandle,
    tool: Option<ProcessId>,
) -> Run<(service_registry::Held, bool)> {
    let text = Text::NullfsRestartProbeFailed;
    init_run::bind(
        service_registry::pump_mutation_run(k, ingress, held, generations, endpoint, 0),
        |k: kernel::Transcript, pumped: (service_registry::Held, usize)|
            if pumped.0.registry.nullfs.state == ServiceState::Restarting {
                init_run::end(k, (pumped.0, true))
            } else {
                init_run::bind(
                    probe::still_running_run(k, tool, text),
                    |k: kernel::Transcript, running: ()|
                        init_run::bind(
                            init_run::rest_run(k, text),
                            |k: kernel::Transcript, rested: ()|
                                init_run::end(k, (pumped.0, false)),
                        ),
                )
            },
    )
}

fn wait_for_request(
    k: &mut Kernel,
    control: &mut ServiceControlState,
    services: &mut Services,
    generations: Generations,
    endpoint: CapabilityHandle,
    tool: Option<ProcessId>,
) -> (result: Result<(), Halt>)
    ensures
        ({
            let (asked, outcome) = requested_run(
                old(k)@,
                old(control)@.mutation,
                service_registry::Held {
                    registry: old(services)@,
                    lifecycle: old(control)@.lifecycle,
                },
                generations,
                endpoint,
                tool,
                RESTART_LOOKS as nat,
            );
            &&& final(k)@ == asked
            &&& match result {
                Ok(_) => outcome == Ok::<_, Halt>(
                    service_registry::Held {
                        registry: final(services)@,
                        lifecycle: final(control)@.lifecycle,
                    },
                ),
                Err(halt) => outcome == Err::<service_registry::Held, _>(halt),
            }
        }),
        final(control)@ == (service_registry::Control {
            lifecycle: final(control)@.lifecycle,
            ..old(control)@
        }),
{
    let text = Text::NullfsRestartProbeFailed;
    let mut looks: usize = RESTART_LOOKS;
    while looks > 0
        invariant
            text == Text::NullfsRestartProbeFailed,
            control@ == (service_registry::Control {
                lifecycle: control@.lifecycle,
                ..old(control)@
            }),
            requested_run(
                old(k)@,
                old(control)@.mutation,
                service_registry::Held {
                    registry: old(services)@,
                    lifecycle: old(control)@.lifecycle,
                },
                generations,
                endpoint,
                tool,
                RESTART_LOOKS as nat,
            ) == requested_run(
                k@,
                old(control)@.mutation,
                service_registry::Held { registry: services@, lifecycle: control@.lifecycle },
                generations,
                endpoint,
                tool,
                looks as nat,
            ),
        decreases looks,
    {
        control.pump_mutation(k, services, generations, endpoint)?;
        if services.nullfs.state() == ServiceState::Restarting {
            return Ok(());
        }
        still_running(k, tool, text)?;
        rest(k, text)?;
        looks -= 1;
    }
    Err(Halt::Failed(text))
}

/// One step of the restart, and a rest if it is not over.
pub open spec fn exit_step_run(
    k: kernel::Transcript,
    lifecycle: NullfsLifecycle,
    process_id: Option<ProcessId>,
    generation: ProviderGeneration,
    resources: GenerationResources,
    beside: Option<ProcessId>,
) -> Run<(NullfsLifecycle, Option<u64>)> {
    let text = Text::NullfsRestartProbeFailed;
    init_run::bind(
        nullfs_lifecycle::advance_run(
            k,
            lifecycle,
            process_id,
            generation,
            resources.readiness_endpoint,
            resources.request_endpoint,
            resources.job,
        ),
        |k: kernel::Transcript, advanced: (NullfsLifecycle, Option<u64>)|
            if advanced.1 is Some {
                init_run::end(k, advanced)
            } else {
                init_run::bind(
                    probe::still_running_run(k, beside, text),
                    |k: kernel::Transcript, running: ()|
                        init_run::bind(
                            init_run::rest_run(k, text),
                            |k: kernel::Transcript, rested: ()| init_run::end(k, advanced),
                        ),
                )
            },
    )
}

/// Going on with the restart until the service has exited: its status.
pub open spec fn exit_run(
    k: kernel::Transcript,
    lifecycle: NullfsLifecycle,
    process_id: Option<ProcessId>,
    generation: ProviderGeneration,
    resources: GenerationResources,
    beside: Option<ProcessId>,
) -> Run<(NullfsLifecycle, u64)>
    decreases k.unread(),
    via exit_ends
{
    let (looked, result) = exit_step_run(k, lifecycle, process_id, generation, resources, beside);
    match result {
        Err(halt) => (looked, Err(halt)),
        Ok((next, Some(status))) => init_run::end(looked, (next, status)),
        Ok((next, None)) => exit_run(looked, next, process_id, generation, resources, beside),
    }
}

#[via_fn]
proof fn exit_ends(
    k: kernel::Transcript,
    lifecycle: NullfsLifecycle,
    process_id: Option<ProcessId>,
    generation: ProviderGeneration,
    resources: GenerationResources,
    beside: Option<ProcessId>,
) {
    lemma_exit_step_asks(k, lifecycle, process_id, generation, resources, beside);
}

pub(crate) proof fn lemma_exit_step_asks(
    k: kernel::Transcript,
    lifecycle: NullfsLifecycle,
    process_id: Option<ProcessId>,
    generation: ProviderGeneration,
    resources: GenerationResources,
    beside: Option<ProcessId>,
)
    ensures
        exit_step_run(k, lifecycle, process_id, generation, resources, beside).1 matches Ok(
            (next, None),
        ) ==> 0 <= exit_step_run(
            k,
            lifecycle,
            process_id,
            generation,
            resources,
            beside,
        ).0.unread() < k.unread(),
{
    nullfs_lifecycle::lemma_advance_reads_on(
        k,
        lifecycle,
        process_id,
        generation,
        resources.readiness_endpoint,
        resources.request_endpoint,
        resources.job,
    );
}

fn wait_for_exit(
    k: &mut Kernel,
    lifecycle: &mut NullfsLifecycle,
    process_id: Option<ProcessId>,
    generation: ProviderGeneration,
    resources: &GenerationResources,
    beside: Option<ProcessId>,
) -> (result: Result<u64, Halt>)
    ensures
        ({
            let (asked, outcome) = exit_run(
                old(k)@,
                *old(lifecycle),
                process_id,
                generation,
                *resources,
                beside,
            );
            &&& final(k)@ == asked
            &&& init_run::came_to(outcome, *final(lifecycle), result)
        }),
{
    let text = Text::NullfsRestartProbeFailed;
    loop
        invariant
            text == Text::NullfsRestartProbeFailed,
            exit_run(old(k)@, *old(lifecycle), process_id, generation, *resources, beside)
                == exit_run(k@, *lifecycle, process_id, generation, *resources, beside),
        decreases k@.unread(),
    {
        proof {
            lemma_exit_step_asks(k@, *lifecycle, process_id, generation, *resources, beside);
        }
        if let Some(status) = lifecycle.advance(
            k,
            process_id,
            generation,
            resources.readiness_endpoint,
            resources.request_endpoint,
            &resources.job,
        )? {
            return Ok(status);
        }
        still_running(k, beside, text)?;
        rest(k, text)?;
    }
}

/// Whether the service exited in order: the restart costs nothing.
pub open spec fn exited_clean(
    tested: Tested,
    status: u64,
) -> Result<Tested, Halt> {
    let (service, disposition) = tested.registry.nullfs.observe(status);
    if status != 0 || !tested.control.lifecycle.last_exit_was_clean || disposition
        != (ServiceStatusDisposition::Restart { backoff_yields: 0 }) || service.restart_count
        != tested.registry.nullfs.restart_count || service.process_id is Some
        || tested.registry.nullfs.process_id == Some(0u64) {
        Err(Halt::Failed(Text::NullfsRestartProbeFailed))
    } else {
        Ok(
            Tested {
                registry: service_registry::Registry { nullfs: service, ..tested.registry },
                ..tested
            },
        )
    }
}

/// Whether the service had to be ended: the restart costs nothing either.
pub open spec fn exited_forced(tested: Tested, status: u64) -> Result<Tested, Halt> {
    let (service, disposition) = tested.registry.nullfs.observe(status);
    if status == 0 || tested.control.lifecycle.last_exit_was_clean || disposition != (
    ServiceStatusDisposition::Restart { backoff_yields: 0 }) {
        Err(Halt::Failed(Text::NullfsRestartProbeFailed))
    } else {
        Ok(
            Tested {
                registry: service_registry::Registry { nullfs: service, ..tested.registry },
                ..tested
            },
        )
    }
}

fn is_free_restart(disposition: ServiceStatusDisposition) -> (free: bool)
    ensures
        free == (disposition == (ServiceStatusDisposition::Restart { backoff_yields: 0 })),
{
    match disposition {
        ServiceStatusDisposition::Restart { backoff_yields } => backoff_yields == 0,
        _ => false,
    }
}

fn observe_clean_exit(service: &mut ServiceRuntime, clean: bool, status: u64) -> (result: Result<
    (),
    Halt,
>)
    ensures
        forall|tested: Tested|
            tested.registry.nullfs == old(service)@ && tested.control.lifecycle.last_exit_was_clean
                == clean ==> match result {
                Ok(_) => #[trigger] exited_clean(tested, status) == Ok::<_, Halt>(
                    Tested {
                        registry: service_registry::Registry {
                            nullfs: final(service)@,
                            ..tested.registry
                        },
                        ..tested
                    },
                ),
                Err(halt) => exited_clean(tested, status) == Err::<Tested, _>(halt),
            },
{
    let old_process = service.process_id();
    let restart_count: u32 = service.restart_count();
    let disposition = service.observe_status(status);
    let had_process = match old_process {
        Some(process_id) => process_id != 0,
        None => true,
    };
    demand(
        status == 0 && clean && is_free_restart(disposition) && service.restart_count()
            == restart_count && service.process_id().is_none() && had_process,
        Text::NullfsRestartProbeFailed,
    )
}

fn observe_forced_exit(service: &mut ServiceRuntime, clean: bool, status: u64) -> (result: Result<
    (),
    Halt,
>)
    ensures
        forall|tested: Tested|
            tested.registry.nullfs == old(service)@ && tested.control.lifecycle.last_exit_was_clean
                == clean ==> match result {
                Ok(_) => #[trigger] exited_forced(tested, status) == Ok::<_, Halt>(
                    Tested {
                        registry: service_registry::Registry {
                            nullfs: final(service)@,
                            ..tested.registry
                        },
                        ..tested
                    },
                ),
                Err(halt) => exited_forced(tested, status) == Err::<Tested, _>(halt),
            },
{
    let disposition = service.observe_status(status);
    demand(
        status != 0 && !clean && is_free_restart(disposition),
        Text::NullfsRestartProbeFailed,
    )
}

/// Asking for a restart with the control tool and taking the request.
pub open spec fn ask_run(
    k: kernel::Transcript,
    tested: Tested,
    generations: Generations,
    watched: bool,
) -> Run<(Tested, ProcessId)> {
    let text = Text::NullfsRestartProbeFailed;
    init_run::bind(
        probe::launch_run(
            k,
            Text::SvRestartNullfsCommand,
            false,
            seq![sending(tested.control.mutation_source, MUTATION_HANDLE)],
            text,
        ),
        |k: kernel::Transcript, tool: u64|
            init_run::bind(
                requested_run(
                    k,
                    tested.control.mutation,
                    tested.held(),
                    generations,
                    tested.resources.request_endpoint,
                    if watched {
                        Some(tool)
                    } else {
                        None
                    },
                    RESTART_LOOKS as nat,
                ),
                |k: kernel::Transcript, held: service_registry::Held|
                    init_run::end(k, (tested.with_held(held), tool)),
            ),
    )
}

fn ask(
    k: &mut Kernel,
    control: &mut ServiceControlState,
    services: &mut Services,
    generations: Generations,
    Ghost(sequence): Ghost<u64>,
    resources: &GenerationResources,
    watched: bool,
) -> (result: Result<ProcessId, Halt>)
    ensures
        ({
            let (asked, outcome) = ask_run(
                old(k)@,
                Tested {
                    control: old(control)@,
                    registry: old(services)@,
                    sequence,
                    resources: *resources,
                },
                generations,
                watched,
            );
            &&& final(k)@ == asked
            &&& init_run::came_to(
                outcome,
                Tested {
                    control: final(control)@,
                    registry: final(services)@,
                    sequence,
                    resources: *resources,
                },
                result,
            )
        }),
{
    let text = Text::NullfsRestartProbeFailed;
    let grants: [BootstrapCapability; 1] = [sending(control.mutation_source, MUTATION_HANDLE)];
    assert(grants@ =~= seq![sending(control.mutation_source, MUTATION_HANDLE)]);
    let tool: u64 = launch_tool(k, Text::SvRestartNullfsCommand, false, &grants, text)?;
    let beside = if watched {
        Some(tool)
    } else {
        None
    };
    wait_for_request(k, control, services, generations, resources.request_endpoint, beside)?;
    Ok(tool)
}

/// Waiting for the exit of a service that is restarted.
pub open spec fn exited_run(
    k: kernel::Transcript,
    tested: Tested,
    generation: ProviderGeneration,
    beside: Option<ProcessId>,
) -> Run<(Tested, u64)> {
    init_run::bind(
        exit_run(
            k,
            tested.control.lifecycle,
            tested.registry.nullfs.process_id,
            generation,
            tested.resources,
            beside,
        ),
        |k: kernel::Transcript, exited: (NullfsLifecycle, u64)|
            init_run::end(k, (tested.with_lifecycle(exited.0), exited.1)),
    )
}

/// Clearing up after the exit.
pub open spec fn drained_run(k: kernel::Transcript, tested: Tested) -> Run<Tested> {
    init_run::bind(
        contained_service::must_drain_run(
            k,
            tested.resources.job,
            Text::NullfsRestartProbeFailed,
        ),
        |k: kernel::Transcript, job: ContainedServiceJob| init_run::end(k, tested.with_job(job)),
    )
}

/// Starting the service again with new endpoints.
pub open spec fn replaced_run(
    k: kernel::Transcript,
    tested: Tested,
    old_generation: ProviderGeneration,
    old_object: u64,
    block: BootstrapCapability,
) -> Run<(Tested, ProviderGeneration)> {
    let text = Text::NullfsRestartProbeFailed;
    init_run::bind(
        nullfs_probes::renew_run(k, tested.resources, old_object, text),
        |k: kernel::Transcript, resources: GenerationResources|
            init_run::bind(
                nullfs_probes::replace_run(
                    k,
                    Tested { resources, ..tested }.nullfs(),
                    old_generation,
                    seq![block],
                    text,
                ),
                |
                    k: kernel::Transcript,
                    replaced: (nullfs_probes::Nullfs, ProviderGeneration),
                | init_run::end(k, (tested.with_nullfs(replaced.0), replaced.1)),
            ),
    )
}

fn replace_tested(
    k: &mut Kernel,
    Ghost(control): Ghost<service_registry::Control>,
    services: &mut Services,
    sequence: &mut ProviderGenerationSequence,
    resources: &mut GenerationResources,
    old_generation: ProviderGeneration,
    old_object: u64,
    block: BootstrapCapability,
) -> (result: Result<ProviderGeneration, Halt>)
    ensures
        ({
            let (asked, outcome) = replaced_run(
                old(k)@,
                Tested {
                    control,
                    registry: old(services)@,
                    sequence: old(sequence)@,
                    resources: *old(resources),
                },
                old_generation,
                old_object,
                block,
            );
            &&& final(k)@ == asked
            &&& init_run::came_to(
                outcome,
                Tested {
                    control,
                    registry: final(services)@,
                    sequence: final(sequence)@,
                    resources: *final(resources),
                },
                result,
            )
        }),
{
    let text = Text::NullfsRestartProbeFailed;
    *resources = renew(k, *resources, old_object, text)?;
    let grants: [BootstrapCapability; 1] = [block];
    assert(grants@ =~= seq![block]);
    replace(k, &mut services.nullfs, sequence, resources, old_generation, &grants, text)
}

/// Answering what was asked meanwhile, and then being done with the restart.
pub open spec fn completed_run(
    k: kernel::Transcript,
    tested: Tested,
    generations: Generations,
) -> Run<Tested> {
    init_run::bind(
        service_registry::drain_mutation_run(
            k,
            tested.control.mutation,
            tested.held(),
            generations,
            tested.resources.request_endpoint,
        ),
        |k: kernel::Transcript, drained: (service_registry::Held, ())|
            init_run::end(k, completed(tested.with_held(drained.0))),
    )
}

/// The service when its restart is done.
pub open spec fn completed(tested: Tested) -> Tested {
    Tested {
        registry: service_registry::Registry {
            nullfs: tested.registry.nullfs.complete_restart(),
            ..tested.registry
        },
        ..tested
    }
}

/// The generations with another one of the NullFS service.
#[verifier::allow_in_spec]
pub fn with_nullfs(generations: Generations, nullfs: ProviderGeneration) -> Generations
    returns
        (Generations { nullfs, ..generations }),
{
    Generations { nullfs, ..generations }
}

/// The first half: the service is restarted in order, and a descriptor and a change that was made
/// outlive it.
pub open spec fn ordered_run(
    k: kernel::Transcript,
    tested: Tested,
    generations: Generations,
    vfs_endpoint: CapabilityHandle,
    block: BootstrapCapability,
) -> Run<(Tested, ProviderGeneration)> {
    let text = Text::NullfsRestartProbeFailed;
    init_run::bind(
        nullfs_probes::launch_pair_run(k, Text::NullfsRestartProbeCommand, text),
        |k: kernel::Transcript, launched: (CapabilityHandle, CapabilityHandle, ProcessId)|
            init_run::bind(
                probe::message_run(
                    k,
                    launched.0,
                    launched.2,
                    Text::NullfsRestartProbeReady,
                    text,
                ),
                |k: kernel::Transcript, ready: ()|
                    if tested.registry.nullfs.process_id is None {
                        init_run::giving_up(k, text)
                    } else {
                        init_run::bind(
                            nullfs_probes::object_run(
                                k,
                                tested.resources.request_endpoint,
                                text,
                            ),
                            |k: kernel::Transcript, old_object: u64|
                                ordered_exit_run(
                                    k,
                                    tested,
                                    generations,
                                    vfs_endpoint,
                                    block,
                                    launched,
                                    old_object,
                                ),
                        )
                    },
            ),
    )
}

/// Everything from the request on.
pub open spec fn ordered_exit_run(
    k: kernel::Transcript,
    tested: Tested,
    generations: Generations,
    vfs_endpoint: CapabilityHandle,
    block: BootstrapCapability,
    launched: (CapabilityHandle, CapabilityHandle, ProcessId),
    old_object: u64,
) -> Run<(Tested, ProviderGeneration)> {
    init_run::bind(
        ask_run(k, tested, generations, true),
        |k: kernel::Transcript, asked: (Tested, ProcessId)|
            init_run::bind(
                exited_run(k, asked.0, generations.nullfs, Some(launched.2)),
                |k: kernel::Transcript, exited: (Tested, u64)|
                    match exited_clean(exited.0, exited.1) {
                        Err(halt) => (k, Err(halt)),
                        Ok(stopped) => ordered_start_run(
                            k,
                            stopped,
                            generations,
                            vfs_endpoint,
                            block,
                            launched,
                            old_object,
                            tested.registry.nullfs.restart_count,
                            asked.1,
                        ),
                    },
            ),
    )
}

/// Everything from the exit on: the filesystem works without the service, and then with it.
pub open spec fn ordered_start_run(
    k: kernel::Transcript,
    tested: Tested,
    generations: Generations,
    vfs_endpoint: CapabilityHandle,
    block: BootstrapCapability,
    launched: (CapabilityHandle, CapabilityHandle, ProcessId),
    old_object: u64,
    restart_count: u32,
    tool: ProcessId,
) -> Run<(Tested, ProviderGeneration)> {
    let text = Text::NullfsRestartProbeFailed;
    init_run::bind(
        drained_run(k, tested),
        |k: kernel::Transcript, drained: Tested|
            init_run::bind(
                probe::probe_run(
                    k,
                    Text::VfsBootstrapProbeCommand,
                    vfs_endpoint,
                    Text::VfsFullProbeFailed,
                    Text::VfsBootstrapProbePassed,
                ),
                |k: kernel::Transcript, probed: ()|
                    init_run::bind(
                        init_run::announce_run(k, Text::NullfsServiceRestarting),
                        |k: kernel::Transcript, said: ()|
                            init_run::bind(
                                replaced_run(k, drained, generations.nullfs, old_object, block),
                                |k: kernel::Transcript, replaced: (Tested, ProviderGeneration)|
                                    init_run::bind(
                                        ordered_settled_run(
                                            k,
                                            replaced.0,
                                            generations,
                                            replaced.1,
                                            restart_count,
                                        ),
                                        |k: kernel::Transcript, settled: Tested|
                                            init_run::bind(
                                                ordered_end_run(k, launched, tool),
                                                |k: kernel::Transcript, ended: ()|
                                                    init_run::end(k, (settled, replaced.1)),
                                            ),
                                    ),
                            ),
                    ),
            ),
    )
}

/// The generation before the new one can do nothing any more, and the service is settled.
pub open spec fn ordered_settled_run(
    k: kernel::Transcript,
    tested: Tested,
    generations: Generations,
    generation: ProviderGeneration,
    restart_count: u32,
) -> Run<Tested> {
    let text = Text::NullfsRestartProbeFailed;
    init_run::bind(
        nullfs_probes::refused_offline_run(k, kernel_generation(generations.nullfs), text),
        |k: kernel::Transcript, refused: ()|
            init_run::bind(
                completed_run(k, tested, with_nullfs(generations, generation)),
                |k: kernel::Transcript, done: Tested|
                    if !nullfs_probes::is_settled(done.registry.nullfs, restart_count) {
                        init_run::giving_up(k, text)
                    } else {
                        init_run::end(k, done)
                    },
            ),
    )
}

/// Telling the probe that the service was replaced, and waiting for it and for the tool.
pub open spec fn ordered_end_run(
    k: kernel::Transcript,
    launched: (CapabilityHandle, CapabilityHandle, ProcessId),
    tool: ProcessId,
) -> Run<()> {
    let text = Text::NullfsRestartProbeFailed;
    init_run::bind(
        init_run::need_run(
            ipc::send_run(k, launched.1, Text::NullfsRestartProbeReplacement.bytes(), None),
            text,
        ),
        |k: kernel::Transcript, told: ()|
            init_run::bind(
                probe::wait_run(k, launched.2, text),
                |k: kernel::Transcript, waited: ()|
                    init_run::bind(
                        probe::wait_run(k, tool, text),
                        |k: kernel::Transcript, ended: ()|
                            nullfs_probes::close_both_run(k, launched.0, launched.1, text),
                    ),
            ),
    )
}

fn end_ordered(
    k: &mut Kernel,
    launched: (CapabilityHandle, CapabilityHandle, ProcessId),
    tool: ProcessId,
) -> (result: Result<(), Halt>)
    ensures
        (final(k)@, result) == ordered_end_run(old(k)@, launched, tool),
{
    let text = Text::NullfsRestartProbeFailed;
    need(
        ipc::send(k, launched.1, Text::NullfsRestartProbeReplacement.as_bytes(), None),
        text,
    )?;
    wait_for_success(k, launched.2, text)?;
    wait_for_success(k, tool, text)?;
    close_both(k, launched.0, launched.1, text)
}

fn settle_ordered(
    k: &mut Kernel,
    control: &mut ServiceControlState,
    services: &mut Services,
    Ghost(sequence): Ghost<u64>,
    resources: &GenerationResources,
    generations: Generations,
    generation: ProviderGeneration,
    restart_count: u32,
) -> (result: Result<(), Halt>)
    ensures
        ({
            let (asked, outcome) = ordered_settled_run(
                old(k)@,
                Tested {
                    control: old(control)@,
                    registry: old(services)@,
                    sequence,
                    resources: *resources,
                },
                generations,
                generation,
                restart_count,
            );
            &&& final(k)@ == asked
            &&& match result {
                Ok(_) => outcome == Ok::<_, Halt>(
                    Tested {
                        control: final(control)@,
                        registry: final(services)@,
                        sequence,
                        resources: *resources,
                    },
                ),
                Err(halt) => outcome == Err::<Tested, _>(halt),
            }
        }),
{
    let text = Text::NullfsRestartProbeFailed;
    refused_offline(k, kernel_generation(generations.nullfs), text)?;
    control.drain_mutation(
        k,
        services,
        with_nullfs(generations, generation),
        resources.request_endpoint,
    )?;
    services.nullfs.complete_restart();
    demand(settled(&services.nullfs, restart_count), text)
}

fn restart_in_order(
    k: &mut Kernel,
    control: &mut ServiceControlState,
    services: &mut Services,
    generations: Generations,
    sequence: &mut ProviderGenerationSequence,
    resources: &mut GenerationResources,
    vfs_request_endpoint: CapabilityHandle,
    block_capability: BootstrapCapability,
) -> (result: Result<ProviderGeneration, Halt>)
    ensures
        ({
            let (asked, outcome) = ordered_run(
                old(k)@,
                Tested {
                    control: old(control)@,
                    registry: old(services)@,
                    sequence: old(sequence)@,
                    resources: *old(resources),
                },
                generations,
                vfs_request_endpoint,
                block_capability,
            );
            &&& final(k)@ == asked
            &&& init_run::came_to(
                outcome,
                Tested {
                    control: final(control)@,
                    registry: final(services)@,
                    sequence: final(sequence)@,
                    resources: *final(resources),
                },
                result,
            )
        }),
{
    let text = Text::NullfsRestartProbeFailed;
    let launched = launch_pair(k, Text::NullfsRestartProbeCommand, text)?;
    wait_for_message(k, launched.0, launched.2, Text::NullfsRestartProbeReady, text)?;
    demand(services.nullfs.process_id().is_some(), text)?;
    let old_object: u64 = object_of(k, resources.request_endpoint, text)?;
    let restart_count: u32 = services.nullfs.restart_count();
    let tool: u64 = ask(
        k,
        control,
        services,
        generations,
        Ghost(sequence@),
        resources,
        true,
    )?;
    let process_id = services.nullfs.process_id();
    let status: u64 = wait_for_exit(
        k,
        &mut control.nullfs_lifecycle,
        process_id,
        generations.nullfs,
        resources,
        Some(launched.2),
    )?;
    let ghost exited = Tested {
        control: control@,
        registry: services@,
        sequence: sequence@,
        resources: *resources,
    };
    let clean = control.nullfs_lifecycle.last_exit_was_clean();
    observe_clean_exit(&mut services.nullfs, clean, status)?;
    assert(exited_clean(exited, status) is Ok);
    must_drain(k, &mut resources.job, text)?;
    run_probe(
        k,
        Text::VfsBootstrapProbeCommand,
        vfs_request_endpoint,
        Text::VfsFullProbeFailed,
        Text::VfsBootstrapProbePassed,
    )?;
    announce(k, Text::NullfsServiceRestarting)?;
    let generation = replace_tested(
        k,
        Ghost(control@),
        services,
        sequence,
        resources,
        generations.nullfs,
        old_object,
        block_capability,
    )?;
    settle_ordered(
        k,
        control,
        services,
        Ghost(sequence@),
        resources,
        generations,
        generation,
        restart_count,
    )?;
    end_ordered(k, launched, tool)?;
    Ok(generation)
}

/// Waiting once for the service to be stopped.
pub open spec fn stopped_step_run(
    k: kernel::Transcript,
    service: supervisor::Service,
    process_id: ProcessId,
) -> Run<Option<supervisor::Service>> {
    let text = Text::NullfsRestartProbeFailed;
    init_run::bind(
        init_run::hear_run(syscall::wait_run(k, process_id)),
        |k: kernel::Transcript, waited: Result<ChildStatus, ipc::Error>|
            match waited {
                Ok(status) => if status.stopped_signal() == Some(SIGNAL_STOP) {
                    let (observed, disposition) = service.observe(status.raw);
                    if disposition != ServiceStatusDisposition::WaitForNextEvent {
                        init_run::giving_up(k, text)
                    } else {
                        init_run::end(k, Some(observed))
                    }
                } else if status.continued() || status.stopped_signal() is Some {
                    init_run::end(k, None)
                } else {
                    init_run::giving_up(k, text)
                },
                Err(error) => if error == ipc::Error::interrupted() {
                    init_run::end(k, None)
                } else {
                    init_run::giving_up(k, text)
                },
            },
    )
}

/// Waiting for the service to be stopped.
pub open spec fn stopped_run(
    k: kernel::Transcript,
    service: supervisor::Service,
    process_id: ProcessId,
) -> Run<supervisor::Service>
    decreases k.unread(),
{
    let (waited, result) = stopped_step_run(k, service, process_id);
    match result {
        Err(halt) => (waited, Err(halt)),
        Ok(Some(observed)) => init_run::end(waited, observed),
        Ok(None) => stopped_run(waited, service, process_id),
    }
}

/// Stopping the service, so that it answers nothing.
pub open spec fn stop_run(k: kernel::Transcript, service: supervisor::Service) -> Run<
    supervisor::Service,
> {
    let text = Text::NullfsRestartProbeFailed;
    match service.process_id {
        None => init_run::giving_up(k, text),
        Some(process_id) => init_run::bind(
            init_run::hear_run(syscall::signal_group_run(k, process_id, SIGNAL_STOP)),
            |k: kernel::Transcript, signalled: Result<usize, ipc::Error>|
                if signalled != Ok::<usize, ipc::Error>(1) {
                    init_run::giving_up(k, text)
                } else {
                    stopped_run(k, service, process_id)
                },
        ),
    }
}

fn is_stop(status: ChildStatus) -> (stop: bool)
    ensures
        stop == (status.stopped_signal() == Some(SIGNAL_STOP)),
{
    match status.stopped_signal() {
        Some(signal) => signal == SIGNAL_STOP,
        None => false,
    }
}

fn stop_service(k: &mut Kernel, service: &mut ServiceRuntime) -> (result: Result<(), Halt>)
    ensures
        ({
            let (asked, outcome) = stop_run(old(k)@, old(service)@);
            &&& final(k)@ == asked
            &&& match result {
                Ok(_) => outcome == Ok::<_, Halt>(final(service)@),
                Err(halt) => outcome == Err::<supervisor::Service, _>(halt),
            }
        }),
{
    let text = Text::NullfsRestartProbeFailed;
    let process_id: u64 = match service.process_id() {
        Some(process_id) => process_id,
        None => {
            return Err(Halt::Failed(text));
        },
    };
    match hear(signal_process_group(k, process_id, SIGNAL_STOP))? {
        Ok(count) => demand(count == 1, text)?,
        Err(_) => {
            return Err(Halt::Failed(text));
        },
    }
    loop
        invariant
            text == Text::NullfsRestartProbeFailed,
            service@ == old(service)@,
            stop_run(old(k)@, old(service)@) == stopped_run(k@, service@, process_id),
        decreases k@.unread(),
    {
        match hear(wait_child(k, process_id))? {
            Ok(status) => {
                if is_stop(status) {
                    return demand(
                        service.observe_status(status.raw())
                            == ServiceStatusDisposition::WaitForNextEvent,
                        text,
                    );
                }
                demand(status.continued() || status.stopped_signal().is_some(), text)?;
            },
            Err(error) => {
                demand(error == ipc::Error::interrupted(), text)?;
            },
        }
    }
}

/// The second half: the service is stopped, and has to be ended by force. Its volume recovers.
pub open spec fn forced_run(
    k: kernel::Transcript,
    tested: Tested,
    generations: Generations,
    block: BootstrapCapability,
) -> Run<(Tested, ProviderGeneration)> {
    init_run::bind(
        stop_run(k, tested.registry.nullfs),
        |k: kernel::Transcript, service: supervisor::Service|
            init_run::bind(
                ask_run(
                    k,
                    Tested {
                        registry: service_registry::Registry {
                            nullfs: service,
                            ..tested.registry
                        },
                        ..tested
                    },
                    generations,
                    false,
                ),
                |k: kernel::Transcript, asked: (Tested, ProcessId)|
                    match asked.0.control.lifecycle.hurried() {
                        Err(halt) => (k, Err(halt)),
                        Ok(lifecycle) => forced_exit_run(
                            k,
                            asked.0.with_lifecycle(lifecycle),
                            generations,
                            block,
                            asked.1,
                        ),
                    },
            ),
    )
}

/// Everything from the request on.
pub open spec fn forced_exit_run(
    k: kernel::Transcript,
    tested: Tested,
    generations: Generations,
    block: BootstrapCapability,
    tool: ProcessId,
) -> Run<(Tested, ProviderGeneration)> {
    init_run::bind(
        exited_run(k, tested, generations.nullfs, None),
        |k: kernel::Transcript, exited: (Tested, u64)|
            match exited_forced(exited.0, exited.1) {
                Err(halt) => (k, Err(halt)),
                Ok(stopped) => init_run::bind(
                    drained_run(k, stopped),
                    |k: kernel::Transcript, drained: Tested|
                        forced_start_run(k, drained, generations, block, tool),
                ),
            },
    )
}

/// Everything from the exit on.
pub open spec fn forced_start_run(
    k: kernel::Transcript,
    tested: Tested,
    generations: Generations,
    block: BootstrapCapability,
    tool: ProcessId,
) -> Run<(Tested, ProviderGeneration)> {
    let text = Text::NullfsRestartProbeFailed;
    init_run::bind(
        nullfs_probes::object_run(k, tested.resources.request_endpoint, text),
        |k: kernel::Transcript, old_object: u64|
            init_run::bind(
                replaced_run(k, tested, generations.nullfs, old_object, block),
                |k: kernel::Transcript, replaced: (Tested, ProviderGeneration)|
                    init_run::bind(
                        completed_run(
                            k,
                            replaced.0,
                            with_nullfs(generations, replaced.1),
                        ),
                        |k: kernel::Transcript, done: Tested|
                            init_run::bind(
                                forced_end_run(k, done.resources.request_endpoint, tool),
                                |k: kernel::Transcript, ended: ()|
                                    init_run::end(k, (done, replaced.1)),
                            ),
                    ),
            ),
    )
}

/// Looking whether the service is ready, and waiting for the tool.
pub open spec fn forced_end_run(
    k: kernel::Transcript,
    request_endpoint: CapabilityHandle,
    tool: ProcessId,
) -> Run<()> {
    let text = Text::NullfsRestartProbeFailed;
    init_run::bind(
        probe::probe_run(
            k,
            Text::NullfsReadinessProbeCommand,
            request_endpoint,
            text,
            Text::NullfsDirtyRecoveryPassed,
        ),
        |k: kernel::Transcript, probed: ()| probe::wait_run(k, tool, text),
    )
}

fn restart_by_force(
    k: &mut Kernel,
    control: &mut ServiceControlState,
    services: &mut Services,
    generations: Generations,
    sequence: &mut ProviderGenerationSequence,
    resources: &mut GenerationResources,
    block_capability: BootstrapCapability,
) -> (result: Result<ProviderGeneration, Halt>)
    ensures
        ({
            let (asked, outcome) = forced_run(
                old(k)@,
                Tested {
                    control: old(control)@,
                    registry: old(services)@,
                    sequence: old(sequence)@,
                    resources: *old(resources),
                },
                generations,
                block_capability,
            );
            &&& final(k)@ == asked
            &&& init_run::came_to(
                outcome,
                Tested {
                    control: final(control)@,
                    registry: final(services)@,
                    sequence: final(sequence)@,
                    resources: *final(resources),
                },
                result,
            )
        }),
{
    let text = Text::NullfsRestartProbeFailed;
    stop_service(k, &mut services.nullfs)?;
    let tool: u64 = ask(
        k,
        control,
        services,
        generations,
        Ghost(sequence@),
        resources,
        false,
    )?;
    control.nullfs_lifecycle.shorten_quiesce_grace_for_test()?;
    let process_id = services.nullfs.process_id();
    let status: u64 = wait_for_exit(
        k,
        &mut control.nullfs_lifecycle,
        process_id,
        generations.nullfs,
        resources,
        None,
    )?;
    let ghost exited = Tested {
        control: control@,
        registry: services@,
        sequence: sequence@,
        resources: *resources,
    };
    let clean = control.nullfs_lifecycle.last_exit_was_clean();
    observe_forced_exit(&mut services.nullfs, clean, status)?;
    assert(exited_forced(exited, status) is Ok);
    must_drain(k, &mut resources.job, text)?;
    let old_object: u64 = object_of(k, resources.request_endpoint, text)?;
    let generation = replace_tested(
        k,
        Ghost(control@),
        services,
        sequence,
        resources,
        generations.nullfs,
        old_object,
        block_capability,
    )?;
    control.drain_mutation(
        k,
        services,
        with_nullfs(generations, generation),
        resources.request_endpoint,
    )?;
    services.nullfs.complete_restart();
    run_probe(
        k,
        Text::NullfsReadinessProbeCommand,
        resources.request_endpoint,
        text,
        Text::NullfsDirtyRecoveryPassed,
    )?;
    wait_for_success(k, tool, text)?;
    Ok(generation)
}

/// Restarting the service in order and then by force: the generation that it has in the end.
pub open spec fn restart_probe_run(
    k: kernel::Transcript,
    tested: Tested,
    generations: Generations,
    vfs_endpoint: CapabilityHandle,
    block: BootstrapCapability,
) -> Run<(Tested, ProviderGeneration)> {
    init_run::bind(
        ordered_run(k, tested, generations, vfs_endpoint, block),
        |k: kernel::Transcript, ordered: (Tested, ProviderGeneration)|
            forced_run(k, ordered.0, with_nullfs(generations, ordered.1), block),
    )
}

pub fn run_nullfs_restart_probe(
    k: &mut Kernel,
    control: &mut ServiceControlState,
    services: &mut Services,
    generations: Generations,
    sequence: &mut ProviderGenerationSequence,
    resources: &mut GenerationResources,
    vfs_request_endpoint: CapabilityHandle,
    block_capability: BootstrapCapability,
) -> (result: Result<ProviderGeneration, Halt>)
    ensures
        ({
            let (asked, outcome) = restart_probe_run(
                old(k)@,
                Tested {
                    control: old(control)@,
                    registry: old(services)@,
                    sequence: old(sequence)@,
                    resources: *old(resources),
                },
                generations,
                vfs_request_endpoint,
                block_capability,
            );
            &&& final(k)@ == asked
            &&& init_run::came_to(
                outcome,
                Tested {
                    control: final(control)@,
                    registry: final(services)@,
                    sequence: final(sequence)@,
                    resources: *final(resources),
                },
                result,
            )
        }),
{
    let generation = restart_in_order(
        k,
        control,
        services,
        generations,
        sequence,
        resources,
        vfs_request_endpoint,
        block_capability,
    )?;
    restart_by_force(
        k,
        control,
        services,
        with_nullfs(generations, generation),
        sequence,
        resources,
        block_capability,
    )
}

proof fn lemma_replacement_is_next(
    k: kernel::Transcript,
    tested: Tested,
    old_generation: ProviderGeneration,
    old_object: u64,
    block: BootstrapCapability,
)
    ensures
        replaced_run(k, tested, old_generation, old_object, block).1 matches Ok((next, generation))
            ==> generation.raw == next_number(old_generation) && generation.raw == next.sequence,
{
    let text = Text::NullfsRestartProbeFailed;
    if let (renewed, Ok(resources)) = nullfs_probes::renew_run(
        k,
        tested.resources,
        old_object,
        text,
    ) {
        nullfs_probes::lemma_replacement_is_numbered(
            renewed,
            Tested { resources, ..tested }.nullfs(),
            old_generation,
            seq![block],
            text,
        );
    }
}

/// Each of the two restarts takes the service to the next generation and to no other, and the
/// number of that is the one given out last.
pub proof fn lemma_probe_goes_through_two_generations(
    k: kernel::Transcript,
    tested: Tested,
    generations: Generations,
    vfs_endpoint: CapabilityHandle,
    block: BootstrapCapability,
)
    ensures
        ordered_run(k, tested, generations, vfs_endpoint, block).1 matches Ok((_, generation))
            ==> generation.raw == next_number(generations.nullfs),
        restart_probe_run(k, tested, generations, vfs_endpoint, block).1 matches Ok(
            (next, generation),
        ) ==> generation.raw == next_number(
            ProviderGeneration { raw: next_number(generations.nullfs) },
        ) && generation.raw == next.sequence,
{
    lemma_ordered_is_next(k, tested, generations, vfs_endpoint, block);
    if let (ordered, Ok((next, generation))) = ordered_run(
        k,
        tested,
        generations,
        vfs_endpoint,
        block,
    ) {
        lemma_forced_is_next(ordered, next, with_nullfs(generations, generation), block);
    }
}

proof fn lemma_ordered_is_next(
    k: kernel::Transcript,
    tested: Tested,
    generations: Generations,
    vfs_endpoint: CapabilityHandle,
    block: BootstrapCapability,
)
    ensures
        ordered_run(k, tested, generations, vfs_endpoint, block).1 matches Ok((_, generation))
            ==> generation.raw == next_number(generations.nullfs),
{
}

proof fn lemma_forced_start_is_next(
    k: kernel::Transcript,
    tested: Tested,
    generations: Generations,
    block: BootstrapCapability,
    tool: ProcessId,
)
    ensures
        forced_start_run(k, tested, generations, block, tool).1 matches Ok((next, generation))
            ==> generation.raw == next_number(generations.nullfs) && generation.raw
            == next.sequence,
{
    let (looked, old_object) = nullfs_probes::object_run(
        k,
        tested.resources.request_endpoint,
        Text::NullfsRestartProbeFailed,
    );
    if let Ok(old_object) = old_object {
        lemma_replacement_is_next(looked, tested, generations.nullfs, old_object, block);
    }
}

proof fn lemma_forced_exit_is_next(
    k: kernel::Transcript,
    tested: Tested,
    generations: Generations,
    block: BootstrapCapability,
    tool: ProcessId,
)
    ensures
        forced_exit_run(k, tested, generations, block, tool).1 matches Ok((next, generation))
            ==> generation.raw == next_number(generations.nullfs) && generation.raw
            == next.sequence,
{
    if let (exited, Ok((first, status))) = exited_run(k, tested, generations.nullfs, None) {
        if let Ok(stopped) = exited_forced(first, status) {
            if let (drained, Ok(second)) = drained_run(exited, stopped) {
                lemma_forced_start_is_next(drained, second, generations, block, tool);
            }
        }
    }
}

proof fn lemma_forced_is_next(
    k: kernel::Transcript,
    tested: Tested,
    generations: Generations,
    block: BootstrapCapability,
)
    ensures
        forced_run(k, tested, generations, block).1 matches Ok((next, generation))
            ==> generation.raw == next_number(generations.nullfs) && generation.raw
            == next.sequence,
{
    if let (stopped, Ok(service)) = stop_run(k, tested.registry.nullfs) {
        let first = Tested {
            registry: service_registry::Registry { nullfs: service, ..tested.registry },
            ..tested
        };
        if let (asked, Ok((second, tool))) = ask_run(stopped, first, generations, false) {
            if let Ok(lifecycle) = second.control.lifecycle.hurried() {
                lemma_forced_exit_is_next(
                    asked,
                    second.with_lifecycle(lifecycle),
                    generations,
                    block,
                    tool,
                );
            }
        }
    }
}

} // verus!
