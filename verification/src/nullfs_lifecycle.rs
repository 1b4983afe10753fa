//! How the NullFS service is restarted: it stops taking requests, its volume is unmounted, and it
//! exits. A service that does not keep to that is ended by force.

use crate::abi::MAX_IPC_MESSAGE_BYTES;
use crate::contained_service;
use crate::contained_service::ContainedServiceJob;
use crate::filesystem_registry;
use crate::filesystem_registry::offline_filesystem_provider;
use crate::identity::ProviderGeneration;
use crate::init_run;
use crate::init_run::{announce, hear, not_yet, Halt, Run};
use crate::init_text::Text;
use crate::ipc;
use crate::ipc::CapabilityHandle;
use crate::kernel;
use crate::kernel::{Kernel, Op};
use crate::lifecycle_protocol;
use crate::lifecycle_protocol::{
    LifecycleMessage, MessageDecodeError, CLEAN_UNMOUNTED, QUIESCE, QUIESCED, UNMOUNT,
};
use crate::platform::FilesystemProvider;
use crate::procedure;
use crate::procedure::close_received;
use crate::supervisor;
use crate::supervisor::{RestartRequestError, ServiceRuntime};
use crate::syscall;
use crate::syscall::{try_wait_child, ChildStatus, ProcessId};
use crate::trace;
use crate::trace::Deed;
use vstd::prelude::*;

verus! {

pub const NULLFS_QUIESCE_GRACE_YIELDS: u32 = 2_048;

pub const NULLFS_TEST_QUIESCE_GRACE_YIELDS: u32 = 8;

pub const NULLFS_FORCE_TERMINATION_ATTEMPTS: u32 = 64;

/// How far a restart has come.
#[derive(Clone, Copy, Debug, PartialEq, Eq, Structural)]
pub enum NullfsLifecyclePhase {
    /// No restart is on its way.
    Idle,
    /// The service was told to stop taking requests.
    WaitQuiesced {
        process_id: ProcessId,
        generation: ProviderGeneration,
        transition_id: u64,
        yields_remaining: u32,
    },
    /// The service has stopped, and has not been told to unmount yet.
    QueueUnmount {
        process_id: ProcessId,
        generation: ProviderGeneration,
        transition_id: u64,
        yields_remaining: u32,
    },
    /// The service was told to unmount and to exit.
    WaitCleanExit {
        process_id: ProcessId,
        generation: ProviderGeneration,
        transition_id: u64,
        yields_remaining: u32,
        clean_seen: bool,
        final_status: Option<u64>,
    },
    /// The service is ended by force.
    ForceWait { process_id: ProcessId, generation: ProviderGeneration, attempts_remaining: u32 },
}

impl NullfsLifecyclePhase {
    /// The process and the generation that are restarted.
    #[verifier::allow_in_spec]
    pub fn subject(self) -> Option<(ProcessId, ProviderGeneration)>
        returns
            (match self {
                Self::Idle => None,
                Self::WaitQuiesced { process_id, generation, .. } => Some(
                    (process_id, generation),
                ),
                Self::QueueUnmount { process_id, generation, .. } => Some(
                    (process_id, generation),
                ),
                Self::WaitCleanExit { process_id, generation, .. } => Some(
                    (process_id, generation),
                ),
                Self::ForceWait { process_id, generation, .. } => Some((process_id, generation)),
            }),
    {
        match self {
            Self::Idle => None,
            Self::WaitQuiesced { process_id, generation, .. } => Some((process_id, generation)),
            Self::QueueUnmount { process_id, generation, .. } => Some((process_id, generation)),
            Self::WaitCleanExit { process_id, generation, .. } => Some((process_id, generation)),
            Self::ForceWait { process_id, generation, .. } => Some((process_id, generation)),
        }
    }

    /// How many steps are left, counting the last as none.
    pub open spec fn stage(self) -> nat {
        match self {
            Self::Idle => 0,
            Self::ForceWait { .. } => 1,
            Self::WaitCleanExit { .. } => 2,
            Self::QueueUnmount { .. } => 3,
            Self::WaitQuiesced { .. } => 4,
        }
    }

    /// How much patience is left in the step.
    pub open spec fn patience(self) -> nat {
        match self {
            Self::Idle => 0,
            Self::ForceWait { attempts_remaining, .. } => attempts_remaining as nat,
            Self::WaitCleanExit { yields_remaining, .. } => yields_remaining as nat,
            Self::QueueUnmount { yields_remaining, .. } => yields_remaining as nat,
            Self::WaitQuiesced { yields_remaining, .. } => yields_remaining as nat,
        }
    }
}

/// The restarts of the NullFS service.
#[derive(Clone, Copy, Debug, PartialEq, Eq, Structural)]
pub struct NullfsLifecycle {
    pub phase: NullfsLifecyclePhase,
    pub next_transition_id: u64,
    pub last_exit_was_clean: bool,
}

/// Why a restart was not begun.
#[derive(Clone, Copy, Debug, PartialEq, Eq, Structural)]
pub enum NullfsRestartRequestError {
    AlreadyPending,
    InvalidState,
    Busy,
}

/// A status that ends a process. A process that was stopped or continued has not ended.
#[verifier::allow_in_spec]
pub fn final_status(status: ChildStatus) -> Option<u64>
    returns
        (if status.continued() || status.stopped_signal() is Some {
            None
        } else {
            Some(status.raw)
        }),
{
    if status.continued() || status.stopped_signal().is_some() {
        None
    } else {
        Some(status.raw())
    }
}

/// Looking whether a process has ended.
pub open spec fn final_status_run(k: kernel::Transcript, process_id: ProcessId) -> Run<
    Option<u64>,
> {
    init_run::bind(
        init_run::hear_run(syscall::try_wait_run(k, process_id)),
        |k: kernel::Transcript, polled: Result<ChildStatus, ipc::Error>|
            match polled {
                Ok(status) => init_run::end(k, final_status(status)),
                Err(error) => if init_run::not_yet(error) {
                    init_run::end(k, None)
                } else {
                    init_run::giving_up(k, Text::NullfsServiceFailed)
                },
            },
    )
}

pub fn try_wait_final_status(k: &mut Kernel, process_id: ProcessId) -> (result: Result<
    Option<u64>,
    Halt,
>)
    ensures
        (final(k)@, result) == final_status_run(old(k)@, process_id),
{
    match hear(try_wait_child(k, process_id))? {
        Ok(status) => Ok(final_status(status)),
        Err(error) => {
            if not_yet(error) {
                Ok(None)
            } else {
                Err(Halt::Failed(Text::NullfsServiceFailed))
            }
        },
    }
}

/// Ending the service by force: its volume is taken offline first.
pub open spec fn begin_force_run(
    k: kernel::Transcript,
    lifecycle: NullfsLifecycle,
    process_id: ProcessId,
    generation: ProviderGeneration,
    job: ContainedServiceJob,
) -> Run<NullfsLifecycle> {
    init_run::bind(
        filesystem_registry::offline_run(
            k,
            FilesystemProvider::Nullfs,
            generation,
            Text::NullfsServiceFailed,
        ),
        |k: kernel::Transcript, offline: ()|
            init_run::bind(
                init_run::announce_run(k, Text::NullfsForcingDirtyRecovery),
                |k: kernel::Transcript, said: ()|
                    init_run::bind(
                        init_run::hear_run(contained_service::request_termination_run(k, job)),
                        |k: kernel::Transcript, requested: bool|
                            if !requested {
                                init_run::giving_up(k, Text::NullfsServiceFailed)
                            } else {
                                init_run::end(
                                    k,
                                    NullfsLifecycle {
                                        phase: NullfsLifecyclePhase::ForceWait {
                                            process_id,
                                            generation,
                                            attempts_remaining: NULLFS_FORCE_TERMINATION_ATTEMPTS,
                                        },
                                        last_exit_was_clean: false,
                                        ..lifecycle
                                    },
                                )
                            },
                    ),
            ),
    )
}

/// Ending the service that is restarted by force.
pub open spec fn force_current_run(
    k: kernel::Transcript,
    lifecycle: NullfsLifecycle,
    job: ContainedServiceJob,
) -> Run<NullfsLifecycle> {
    match lifecycle.phase.subject() {
        None => init_run::end(k, lifecycle),
        Some((process_id, generation)) => begin_force_run(
            k,
            lifecycle,
            process_id,
            generation,
            job,
        ),
    }
}

/// Taking a message that comes from the right process and brings nothing else. Anything but the
/// answer that is waited for has the service ended by force.
pub open spec fn take_message_run(
    k: kernel::Transcript,
    lifecycle: NullfsLifecycle,
    decoded: Result<LifecycleMessage, MessageDecodeError>,
    job: ContainedServiceJob,
) -> Run<NullfsLifecycle> {
    match decoded {
        Err(_) => force_current_run(k, lifecycle, job),
        Ok(message) => match lifecycle.phase {
            NullfsLifecyclePhase::WaitQuiesced { process_id, generation, transition_id, .. } =>
            if message.kind == QUIESCED && message.generation == generation.raw
                && message.transition_id == transition_id {
                init_run::bind(
                    filesystem_registry::offline_run(
                        k,
                        FilesystemProvider::Nullfs,
                        generation,
                        Text::NullfsServiceFailed,
                    ),
                    |k: kernel::Transcript, offline: ()|
                        init_run::end(
                            k,
                            NullfsLifecycle {
                                phase: NullfsLifecyclePhase::QueueUnmount {
                                    process_id,
                                    generation,
                                    transition_id,
                                    yields_remaining: NULLFS_QUIESCE_GRACE_YIELDS,
                                },
                                ..lifecycle
                            },
                        ),
                )
            } else {
                force_current_run(k, lifecycle, job)
            },
            NullfsLifecyclePhase::WaitCleanExit {
                process_id,
                generation,
                transition_id,
                yields_remaining,
                final_status,
                ..
            } => if message.kind == CLEAN_UNMOUNTED && message.generation == generation.raw
                && message.transition_id == transition_id {
                init_run::end(
                    k,
                    NullfsLifecycle {
                        phase: NullfsLifecyclePhase::WaitCleanExit {
                            process_id,
                            generation,
                            transition_id,
                            yields_remaining,
                            clean_seen: true,
                            final_status,
                        },
                        ..lifecycle
                    },
                )
            } else {
                force_current_run(k, lifecycle, job)
            },
            _ => force_current_run(k, lifecycle, job),
        },
    }
}

/// Taking what the service says, if it says something.
pub open spec fn receive_event_run(
    k: kernel::Transcript,
    lifecycle: NullfsLifecycle,
    readiness: CapabilityHandle,
    job: ContainedServiceJob,
) -> Run<NullfsLifecycle> {
    init_run::bind(
        init_run::hear_run(ipc::try_receive_run(k, readiness, MAX_IPC_MESSAGE_BYTES)),
        |k: kernel::Transcript, received: Result<ipc::Delivery, ipc::Error>|
            match received {
                Err(error) => if error == ipc::Error::try_again() {
                    init_run::end(k, lifecycle)
                } else {
                    init_run::giving_up(k, Text::NullfsServiceProtocolFailed)
                },
                Ok(delivery) => match lifecycle.phase.subject() {
                    None => init_run::end(k, lifecycle),
                    Some((process_id, generation)) => init_run::bind(
                        init_run::hear_run(
                            procedure::quiet_received_run(k, delivery.message.capability),
                        ),
                        |k: kernel::Transcript, closed: ()|
                            if delivery.message.sender_process_id != process_id
                                || delivery.message.capability is Some {
                                force_current_run(k, lifecycle, job)
                            } else {
                                take_message_run(
                                    k,
                                    lifecycle,
                                    LifecycleMessage::parsed(delivery.payload),
                                    job,
                                )
                            },
                    ),
                },
            },
    )
}

/// Telling the service to unmount, if it has stopped.
pub open spec fn queue_unmount_run(
    k: kernel::Transcript,
    lifecycle: NullfsLifecycle,
    request: CapabilityHandle,
    job: ContainedServiceJob,
) -> Run<NullfsLifecycle> {
    match lifecycle.phase {
        NullfsLifecyclePhase::QueueUnmount {
            process_id,
            generation,
            transition_id,
            yields_remaining,
        } => match LifecycleMessage::built(UNMOUNT, generation.raw, transition_id) {
            None => init_run::giving_up(k, Text::NullfsServiceProtocolFailed),
            Some(message) => init_run::bind(
                init_run::hear_run(ipc::send_run(k, request, message.encoded(), None)),
                |k: kernel::Transcript, sent: Result<(), ipc::Error>|
                    match sent {
                        Ok(_) => init_run::end(
                            k,
                            NullfsLifecycle {
                                phase: NullfsLifecyclePhase::WaitCleanExit {
                                    process_id,
                                    generation,
                                    transition_id,
                                    yields_remaining: NULLFS_QUIESCE_GRACE_YIELDS,
                                    clean_seen: false,
                                    final_status: None,
                                },
                                ..lifecycle
                            },
                        ),
                        Err(error) => if error == ipc::Error::try_again() && yields_remaining
                            != 0 {
                            init_run::end(
                                k,
                                NullfsLifecycle {
                                    phase: NullfsLifecyclePhase::QueueUnmount {
                                        process_id,
                                        generation,
                                        transition_id,
                                        yields_remaining: (yields_remaining - 1) as u32,
                                    },
                                    ..lifecycle
                                },
                            )
                        } else {
                            begin_force_run(k, lifecycle, process_id, generation, job)
                        },
                    },
            ),
        },
        _ => init_run::end(k, lifecycle),
    }
}

/// What the end of the service's process means: the restart is over with that status, or the
/// service has still to say that its volume is clean.
pub open spec fn ended_run(
    k: kernel::Transcript,
    lifecycle: NullfsLifecycle,
    generation: ProviderGeneration,
    status: u64,
) -> Run<(NullfsLifecycle, Option<u64>)> {
    match lifecycle.phase {
        NullfsLifecyclePhase::WaitCleanExit { clean_seen: true, .. } if status == 0 => init_run::end(
            k,
            (
                NullfsLifecycle {
                    phase: NullfsLifecyclePhase::Idle,
                    last_exit_was_clean: true,
                    ..lifecycle
                },
                Some(status),
            ),
        ),
        NullfsLifecyclePhase::WaitCleanExit {
            process_id,
            generation,
            transition_id,
            yields_remaining,
            clean_seen,
            ..
        } if status == 0 => init_run::end(
            k,
            (
                NullfsLifecycle {
                    phase: NullfsLifecyclePhase::WaitCleanExit {
                        process_id,
                        generation,
                        transition_id,
                        yields_remaining,
                        clean_seen,
                        final_status: Some(status),
                    },
                    ..lifecycle
                },
                None,
            ),
        ),
        _ => init_run::bind(
            filesystem_registry::offline_run(
                k,
                FilesystemProvider::Nullfs,
                generation,
                Text::NullfsServiceFailed,
            ),
            |k: kernel::Transcript, offline: ()|
                init_run::end(
                    k,
                    (
                        NullfsLifecycle {
                            phase: NullfsLifecyclePhase::Idle,
                            last_exit_was_clean: false,
                            ..lifecycle
                        },
                        Some(status),
                    ),
                ),
        ),
    }
}

/// Looking whether the service's process has ended, unless that is known.
pub open spec fn observe_exit_run(
    k: kernel::Transcript,
    lifecycle: NullfsLifecycle,
    process_id: ProcessId,
    generation: ProviderGeneration,
) -> Run<(NullfsLifecycle, Option<u64>)> {
    if lifecycle.phase matches NullfsLifecyclePhase::WaitCleanExit {
        final_status: Some(_),
        ..
    } {
        init_run::end(k, (lifecycle, None))
    } else {
        init_run::bind(
            final_status_run(k, process_id),
            |k: kernel::Transcript, status: Option<u64>|
                match status {
                    None => init_run::end(k, (lifecycle, None)),
                    Some(status) => ended_run(k, lifecycle, generation, status),
                },
        )
    }
}

/// Spending patience: a step that has none left is given up.
pub open spec fn spend_run(
    k: kernel::Transcript,
    lifecycle: NullfsLifecycle,
    job: ContainedServiceJob,
) -> Run<(NullfsLifecycle, Option<u64>)> {
    match lifecycle.phase {
        NullfsLifecyclePhase::WaitQuiesced {
            process_id,
            generation,
            transition_id,
            yields_remaining,
        } => if yields_remaining == 0 {
            forced_run(k, lifecycle, process_id, generation, job)
        } else {
            init_run::end(
                k,
                (
                    NullfsLifecycle {
                        phase: NullfsLifecyclePhase::WaitQuiesced {
                            process_id,
                            generation,
                            transition_id,
                            yields_remaining: (yields_remaining - 1) as u32,
                        },
                        ..lifecycle
                    },
                    None,
                ),
            )
        },
        NullfsLifecyclePhase::WaitCleanExit {
            process_id,
            generation,
            transition_id,
            yields_remaining,
            clean_seen,
            final_status,
        } => if yields_remaining == 0 {
            match final_status {
                Some(status) => init_run::end(
                    k,
                    (
                        NullfsLifecycle {
                            phase: NullfsLifecyclePhase::Idle,
                            last_exit_was_clean: false,
                            ..lifecycle
                        },
                        Some(status),
                    ),
                ),
                None => forced_run(k, lifecycle, process_id, generation, job),
            }
        } else {
            init_run::end(
                k,
                (
                    NullfsLifecycle {
                        phase: NullfsLifecyclePhase::WaitCleanExit {
                            process_id,
                            generation,
                            transition_id,
                            yields_remaining: (yields_remaining - 1) as u32,
                            clean_seen,
                            final_status,
                        },
                        ..lifecycle
                    },
                    None,
                ),
            )
        },
        NullfsLifecyclePhase::ForceWait { process_id, generation, attempts_remaining } =>
        if attempts_remaining == 0 {
            init_run::giving_up(k, Text::NullfsServiceFailed)
        } else {
            init_run::bind(
                init_run::hear_run(contained_service::request_termination_run(k, job)),
                |k: kernel::Transcript, requested: bool|
                    if !requested && attempts_remaining == 1 {
                        init_run::giving_up(k, Text::NullfsServiceFailed)
                    } else {
                        init_run::end(
                            k,
                            (
                                NullfsLifecycle {
                                    phase: NullfsLifecyclePhase::ForceWait {
                                        process_id,
                                        generation,
                                        attempts_remaining: (attempts_remaining - 1) as u32,
                                    },
                                    ..lifecycle
                                },
                                None,
                            ),
                        )
                    },
            )
        },
        _ => init_run::end(k, (lifecycle, None)),
    }
}

/// Ending the service by force, which gives no status yet.
pub open spec fn forced_run(
    k: kernel::Transcript,
    lifecycle: NullfsLifecycle,
    process_id: ProcessId,
    generation: ProviderGeneration,
    job: ContainedServiceJob,
) -> Run<(NullfsLifecycle, Option<u64>)> {
    init_run::bind(
        begin_force_run(k, lifecycle, process_id, generation, job),
        |k: kernel::Transcript, forced: NullfsLifecycle| init_run::end(k, (forced, None)),
    )
}

/// Looking at a service that is not restarted: its status, if it has ended by itself.
pub open spec fn idle_run(
    k: kernel::Transcript,
    lifecycle: NullfsLifecycle,
    current_process_id: Option<ProcessId>,
) -> Run<(NullfsLifecycle, Option<u64>)> {
    match current_process_id {
        None => init_run::end(k, (lifecycle, None)),
        Some(process_id) => init_run::bind(
            final_status_run(k, process_id),
            |k: kernel::Transcript, status: Option<u64>|
                init_run::end(
                    k,
                    (
                        NullfsLifecycle {
                            last_exit_was_clean: lifecycle.last_exit_was_clean && status is None,
                            ..lifecycle
                        },
                        status,
                    ),
                ),
        ),
    }
}

/// What is left of one step once the service has been heard.
pub open spec fn act_run(
    k: kernel::Transcript,
    lifecycle: NullfsLifecycle,
    process_id: ProcessId,
    generation: ProviderGeneration,
    request: CapabilityHandle,
    job: ContainedServiceJob,
) -> Run<(NullfsLifecycle, Option<u64>)> {
    if lifecycle.phase matches NullfsLifecyclePhase::WaitCleanExit {
        clean_seen: true,
        final_status: Some(0),
        ..
    } {
        init_run::end(
            k,
            (
                NullfsLifecycle {
                    phase: NullfsLifecyclePhase::Idle,
                    last_exit_was_clean: true,
                    ..lifecycle
                },
                Some(0),
            ),
        )
    } else {
        init_run::bind(
            queue_unmount_run(k, lifecycle, request, job),
            |k: kernel::Transcript, queued: NullfsLifecycle|
                init_run::bind(
                    observe_exit_run(k, queued, process_id, generation),
                    |k: kernel::Transcript, observed: (NullfsLifecycle, Option<u64>)|
                        if observed.1 is Some {
                            init_run::end(k, observed)
                        } else {
                            spend_run(k, observed.0, job)
                        },
                ),
        )
    }
}

/// One step of a restart: what is left of it, and the status of the service's process once the
/// restart is over.
pub open spec fn advance_run(
    k: kernel::Transcript,
    lifecycle: NullfsLifecycle,
    current_process_id: Option<ProcessId>,
    current_generation: ProviderGeneration,
    readiness: CapabilityHandle,
    request: CapabilityHandle,
    job: ContainedServiceJob,
) -> Run<(NullfsLifecycle, Option<u64>)> {
    match lifecycle.phase.subject() {
        None => idle_run(k, lifecycle, current_process_id),
        Some((process_id, generation)) => if current_process_id != Some(process_id)
            || current_generation != generation {
            init_run::giving_up(k, Text::NullfsServiceProtocolFailed)
        } else {
            init_run::bind(
                receive_event_run(k, lifecycle, readiness, job),
                |k: kernel::Transcript, heard: NullfsLifecycle|
                    act_run(k, heard, process_id, generation, request, job),
            )
        },
    }
}

/// Beginning a restart: the service is told to stop taking requests.
pub open spec fn request_restart_run(
    k: kernel::Transcript,
    lifecycle: NullfsLifecycle,
    service: supervisor::Service,
    generation: ProviderGeneration,
    request: CapabilityHandle,
) -> Run<((NullfsLifecycle, supervisor::Service), Result<(), NullfsRestartRequestError>)> {
    if lifecycle.phase != NullfsLifecyclePhase::Idle {
        init_run::end(
            k,
            ((lifecycle, service), Err(NullfsRestartRequestError::AlreadyPending)),
        )
    } else {
        match service.restart() {
            Err(RestartRequestError::AlreadyPending) => init_run::end(
                k,
                ((lifecycle, service), Err(NullfsRestartRequestError::AlreadyPending)),
            ),
            Err(RestartRequestError::InvalidState) => init_run::end(
                k,
                ((lifecycle, service), Err(NullfsRestartRequestError::InvalidState)),
            ),
            Ok((restarting, process_id)) => if lifecycle.next_transition_id == u64::MAX {
                init_run::giving_up(k, Text::NullfsServiceProtocolFailed)
            } else {
                match LifecycleMessage::built(
                    QUIESCE,
                    generation.raw,
                    lifecycle.next_transition_id,
                ) {
                    None => init_run::giving_up(k, Text::NullfsServiceProtocolFailed),
                    Some(message) => quiesce_run(
                        k,
                        lifecycle,
                        restarting,
                        process_id,
                        generation,
                        request,
                        message,
                    ),
                }
            },
        }
    }
}

/// Telling the service to stop taking requests.
pub open spec fn quiesce_run(
    k: kernel::Transcript,
    lifecycle: NullfsLifecycle,
    service: supervisor::Service,
    process_id: ProcessId,
    generation: ProviderGeneration,
    request: CapabilityHandle,
    message: LifecycleMessage,
) -> Run<((NullfsLifecycle, supervisor::Service), Result<(), NullfsRestartRequestError>)> {
    let numbered = NullfsLifecycle {
        next_transition_id: (lifecycle.next_transition_id + 1) as u64,
        ..lifecycle
    };
    init_run::bind(
        init_run::hear_run(ipc::send_run(k, request, message.encoded(), None)),
        |k: kernel::Transcript, sent: Result<(), ipc::Error>|
            match sent {
                Err(_) => init_run::end(
                    k,
                    (
                        (numbered, service.cancel_restart()),
                        Err(NullfsRestartRequestError::Busy),
                    ),
                ),
                Ok(_) => init_run::end(
                    k,
                    (
                        (
                            NullfsLifecycle {
                                phase: NullfsLifecyclePhase::WaitQuiesced {
                                    process_id,
                                    generation,
                                    transition_id: lifecycle.next_transition_id,
                                    yields_remaining: NULLFS_QUIESCE_GRACE_YIELDS,
                                },
                                last_exit_was_clean: false,
                                ..numbered
                            },
                            service,
                        ),
                        Ok(()),
                    ),
                ),
            },
    )
}

impl NullfsLifecycle {
    #[verifier::allow_in_spec]
    pub fn new() -> Self
        returns
            (NullfsLifecycle {
                phase: NullfsLifecyclePhase::Idle,
                next_transition_id: 1,
                last_exit_was_clean: false,
            }),
    {
        NullfsLifecycle {
            phase: NullfsLifecyclePhase::Idle,
            next_transition_id: 1,
            last_exit_was_clean: false,
        }
    }

    pub fn last_exit_was_clean(&self) -> (clean: bool)
        ensures
            clean == self.last_exit_was_clean,
    {
        self.last_exit_was_clean
    }

    /// Begins a restart of a service that runs. A service that cannot be told stays as it was.
    pub fn request_restart(
        &mut self,
        k: &mut Kernel,
        service: &mut ServiceRuntime,
        generation: ProviderGeneration,
        request_endpoint: CapabilityHandle,
    ) -> (result: Result<Result<(), NullfsRestartRequestError>, Halt>)
        ensures
            ({
                let (asked, outcome) = request_restart_run(
                    old(k)@,
                    *old(self),
                    old(service)@,
                    generation,
                    request_endpoint,
                );
                &&& final(k)@ == asked
                &&& init_run::came_to(outcome, (*final(self), final(service)@), result)
            }),
            old(service)@.coherent() ==> final(service)@.coherent(),
    {
        if self.phase != NullfsLifecyclePhase::Idle {
            return Ok(Err(NullfsRestartRequestError::AlreadyPending));
        }
        let process_id = match service.request_restart() {
            Ok(process_id) => process_id,
            Err(RestartRequestError::AlreadyPending) => {
                return Ok(Err(NullfsRestartRequestError::AlreadyPending));
            },
            Err(RestartRequestError::InvalidState) => {
                return Ok(Err(NullfsRestartRequestError::InvalidState));
            },
        };
        let transition_id: u64 = self.next_transition_id;
        if transition_id == u64::MAX {
            return Err(Halt::Failed(Text::NullfsServiceProtocolFailed));
        }
        self.next_transition_id = transition_id + 1;
        let message = match LifecycleMessage::new(QUIESCE, generation.get(), transition_id) {
            Some(message) => message,
            None => {
                return Err(Halt::Failed(Text::NullfsServiceProtocolFailed));
            },
        };
        if hear(ipc::send(k, request_endpoint, &message.encode(), None))?.is_err() {
            service.cancel_restart();
            return Ok(Err(NullfsRestartRequestError::Busy));
        }
        self.last_exit_was_clean = false;
        self.phase = NullfsLifecyclePhase::WaitQuiesced {
            process_id,
            generation,
            transition_id,
            yields_remaining: NULLFS_QUIESCE_GRACE_YIELDS,
        };
        Ok(Ok(()))
    }

    /// Takes one step. The result is the status of the service's process, once it has ended and
    /// the restart, if there was one, is over.
    pub fn advance(
        &mut self,
        k: &mut Kernel,
        current_process_id: Option<ProcessId>,
        current_generation: ProviderGeneration,
        readiness_endpoint: CapabilityHandle,
        request_endpoint: CapabilityHandle,
        job: &ContainedServiceJob,
    ) -> (result: Result<Option<u64>, Halt>)
        ensures
            ({
                let (asked, outcome) = advance_run(
                    old(k)@,
                    *old(self),
                    current_process_id,
                    current_generation,
                    readiness_endpoint,
                    request_endpoint,
                    *job,
                );
                &&& final(k)@ == asked
                &&& init_run::came_to(outcome, *final(self), result)
            }),
    {
        let (process_id, generation) = match self.phase.subject() {
            None => {
                return self.watch_idle(k, current_process_id);
            },
            Some(subject) => subject,
        };
        let same_process = match current_process_id {
            Some(current) => current == process_id,
            None => false,
        };
        if !same_process || current_generation != generation {
            return Err(Halt::Failed(Text::NullfsServiceProtocolFailed));
        }
        self.receive_event(k, readiness_endpoint, job)?;
        if let NullfsLifecyclePhase::WaitCleanExit { clean_seen: true, final_status: Some(0), .. } =
            self.phase {
            self.phase = NullfsLifecyclePhase::Idle;
            self.last_exit_was_clean = true;
            return Ok(Some(0));
        }
        self.queue_unmount(k, request_endpoint, job)?;
        if let Some(status) = self.observe_exit(k, process_id, generation)? {
            return Ok(Some(status));
        }
        self.spend(k, job)
    }

    fn watch_idle(&mut self, k: &mut Kernel, current_process_id: Option<ProcessId>) -> (result:
        Result<Option<u64>, Halt>)
        ensures
            ({
                let (asked, outcome) = idle_run(old(k)@, *old(self), current_process_id);
                &&& final(k)@ == asked
                &&& init_run::came_to(outcome, *final(self), result)
            }),
    {
        match current_process_id {
            None => Ok(None),
            Some(process_id) => {
                let status = try_wait_final_status(k, process_id)?;
                if status.is_some() {
                    self.last_exit_was_clean = false;
                }
                Ok(status)
            },
        }
    }

    fn queue_unmount(
        &mut self,
        k: &mut Kernel,
        request_endpoint: CapabilityHandle,
        job: &ContainedServiceJob,
    ) -> (result: Result<(), Halt>)
        ensures
            changed(
                queue_unmount_run(old(k)@, *old(self), request_endpoint, *job),
                final(k)@,
                *final(self),
                result,
            ),
    {
        let (process_id, generation, transition_id, yields_remaining) = match self.phase {
            NullfsLifecyclePhase::QueueUnmount {
                process_id,
                generation,
                transition_id,
                yields_remaining,
            } => (process_id, generation, transition_id, yields_remaining),
            _ => {
                return Ok(());
            },
        };
        let message = match LifecycleMessage::new(UNMOUNT, generation.get(), transition_id) {
            Some(message) => message,
            None => {
                return Err(Halt::Failed(Text::NullfsServiceProtocolFailed));
            },
        };
        match hear(ipc::send(k, request_endpoint, &message.encode(), None))? {
            Ok(_) => {
                self.phase = NullfsLifecyclePhase::WaitCleanExit {
                    process_id,
                    generation,
                    transition_id,
                    yields_remaining: NULLFS_QUIESCE_GRACE_YIELDS,
                    clean_seen: false,
                    final_status: None,
                };
                Ok(())
            },
            Err(error) => {
                if error == ipc::Error::try_again() && yields_remaining != 0 {
                    self.phase = NullfsLifecyclePhase::QueueUnmount {
                        process_id,
                        generation,
                        transition_id,
                        yields_remaining: yields_remaining - 1,
                    };
                    Ok(())
                } else {
                    self.begin_force(k, process_id, generation, job)
                }
            },
        }
    }

    fn observe_exit(
        &mut self,
        k: &mut Kernel,
        process_id: ProcessId,
        generation: ProviderGeneration,
    ) -> (result: Result<Option<u64>, Halt>)
        ensures
            ({
                let (asked, outcome) = observe_exit_run(
                    old(k)@,
                    *old(self),
                    process_id,
                    generation,
                );
                &&& final(k)@ == asked
                &&& init_run::came_to(outcome, *final(self), result)
            }),
    {
        if let NullfsLifecyclePhase::WaitCleanExit { final_status: Some(_), .. } = self.phase {
            return Ok(None);
        }
        let status = match try_wait_final_status(k, process_id)? {
            Some(status) => status,
            None => {
                return Ok(None);
            },
        };
        match self.phase {
            NullfsLifecyclePhase::WaitCleanExit {
                process_id,
                generation,
                transition_id,
                yields_remaining,
                clean_seen,
                ..
            } if status == 0 => {
                if clean_seen {
                    self.phase = NullfsLifecyclePhase::Idle;
                    self.last_exit_was_clean = true;
                    return Ok(Some(status));
                }
                self.phase = NullfsLifecyclePhase::WaitCleanExit {
                    process_id,
                    generation,
                    transition_id,
                    yields_remaining,
                    clean_seen,
                    final_status: Some(status),
                };
                Ok(None)
            },
            _ => {
                offline_filesystem_provider(
                    k,
                    FilesystemProvider::Nullfs,
                    generation,
                    Text::NullfsServiceFailed,
                )?;
                self.phase = NullfsLifecyclePhase::Idle;
                self.last_exit_was_clean = false;
                Ok(Some(status))
            },
        }
    }

    fn spend(&mut self, k: &mut Kernel, job: &ContainedServiceJob) -> (result: Result<
        Option<u64>,
        Halt,
    >)
        ensures
            ({
                let (asked, outcome) = spend_run(old(k)@, *old(self), *job);
                &&& final(k)@ == asked
                &&& init_run::came_to(outcome, *final(self), result)
            }),
    {
        match self.phase {
            NullfsLifecyclePhase::WaitQuiesced {
                process_id,
                generation,
                transition_id,
                yields_remaining,
            } => {
                if yields_remaining == 0 {
                    self.begin_force(k, process_id, generation, job)?;
                } else {
                    self.phase = NullfsLifecyclePhase::WaitQuiesced {
                        process_id,
                        generation,
                        transition_id,
                        yields_remaining: yields_remaining - 1,
                    };
                }
            },
            NullfsLifecyclePhase::WaitCleanExit {
                process_id,
                generation,
                transition_id,
                yields_remaining,
                clean_seen,
                final_status,
            } => {
                if yields_remaining == 0 {
                    if let Some(status) = final_status {
                        self.phase = NullfsLifecyclePhase::Idle;
                        self.last_exit_was_clean = false;
                        return Ok(Some(status));
                    }
                    self.begin_force(k, process_id, generation, job)?;
                } else {
                    self.phase = NullfsLifecyclePhase::WaitCleanExit {
                        process_id,
                        generation,
                        transition_id,
                        yields_remaining: yields_remaining - 1,
                        clean_seen,
                        final_status,
                    };
                }
            },
            NullfsLifecyclePhase::ForceWait { process_id, generation, attempts_remaining } => {
                if attempts_remaining == 0 {
                    return Err(Halt::Failed(Text::NullfsServiceFailed));
                }
                let requested = hear(job.request_termination(k))?;
                if !requested && attempts_remaining == 1 {
                    return Err(Halt::Failed(Text::NullfsServiceFailed));
                }
                self.phase = NullfsLifecyclePhase::ForceWait {
                    process_id,
                    generation,
                    attempts_remaining: attempts_remaining - 1,
                };
            },
            NullfsLifecyclePhase::Idle | NullfsLifecyclePhase::QueueUnmount { .. } => {},
        }
        Ok(None)
    }

    /// Takes what the service says, if it says something.
    pub fn receive_event(
        &mut self,
        k: &mut Kernel,
        readiness_endpoint: CapabilityHandle,
        job: &ContainedServiceJob,
    ) -> (result: Result<(), Halt>)
        ensures
            changed(
                receive_event_run(old(k)@, *old(self), readiness_endpoint, *job),
                final(k)@,
                *final(self),
                result,
            ),
    {
        let received = match hear(ipc::try_receive(k, readiness_endpoint, MAX_IPC_MESSAGE_BYTES))? {
            Ok(received) => received,
            Err(error) => {
                if error == ipc::Error::try_again() {
                    return Ok(());
                }
                return Err(Halt::Failed(Text::NullfsServiceProtocolFailed));
            },
        };
        let expected_process: u64 = match self.phase.subject() {
            None => {
                return Ok(());
            },
            Some((process_id, _)) => process_id,
        };
        hear(close_received(k, received.message.capability))?;
        if received.message.sender_process_id != expected_process
            || received.message.capability.is_some() {
            return self.force_current(k, job);
        }
        let message = match LifecycleMessage::decode(received.payload.as_slice()) {
            Ok(message) => message,
            Err(_) => {
                return self.force_current(k, job);
            },
        };
        match self.phase {
            NullfsLifecyclePhase::WaitQuiesced { process_id, generation, transition_id, .. } => {
                if message.kind == QUIESCED && message.generation == generation.get()
                    && message.transition_id == transition_id {
                    offline_filesystem_provider(
                        k,
                        FilesystemProvider::Nullfs,
                        generation,
                        Text::NullfsServiceFailed,
                    )?;
                    self.phase = NullfsLifecyclePhase::QueueUnmount {
                        process_id,
                        generation,
                        transition_id,
                        yields_remaining: NULLFS_QUIESCE_GRACE_YIELDS,
                    };
                    return Ok(());
                }
            },
            NullfsLifecyclePhase::WaitCleanExit {
                process_id,
                generation,
                transition_id,
                yields_remaining,
                final_status,
                ..
            } => {
                if message.kind == CLEAN_UNMOUNTED && message.generation == generation.get()
                    && message.transition_id == transition_id {
                    self.phase = NullfsLifecyclePhase::WaitCleanExit {
                        process_id,
                        generation,
                        transition_id,
                        yields_remaining,
                        clean_seen: true,
                        final_status,
                    };
                    return Ok(());
                }
            },
            _ => {},
        }
        self.force_current(k, job)
    }

    /// Has the service that is restarted ended by force.
    pub fn force_current(&mut self, k: &mut Kernel, job: &ContainedServiceJob) -> (result: Result<
        (),
        Halt,
    >)
        ensures
            changed(
                force_current_run(old(k)@, *old(self), *job),
                final(k)@,
                *final(self),
                result,
            ),
    {
        match self.phase.subject() {
            None => Ok(()),
            Some((process_id, generation)) => self.begin_force(k, process_id, generation, job),
        }
    }

    /// Has a service ended by force.
    pub fn begin_force(
        &mut self,
        k: &mut Kernel,
        process_id: ProcessId,
        generation: ProviderGeneration,
        job: &ContainedServiceJob,
    ) -> (result: Result<(), Halt>)
        ensures
            changed(
                begin_force_run(old(k)@, *old(self), process_id, generation, *job),
                final(k)@,
                *final(self),
                result,
            ),
    {
        offline_filesystem_provider(
            k,
            FilesystemProvider::Nullfs,
            generation,
            Text::NullfsServiceFailed,
        )?;
        announce(k, Text::NullfsForcingDirtyRecovery)?;
        if !hear(job.request_termination(k))? {
            return Err(Halt::Failed(Text::NullfsServiceFailed));
        }
        self.phase = NullfsLifecyclePhase::ForceWait {
            process_id,
            generation,
            attempts_remaining: NULLFS_FORCE_TERMINATION_ATTEMPTS,
        };
        self.last_exit_was_clean = false;
        Ok(())
    }

    /// The lifecycle with little patience left for the service to stop.
    pub open spec fn hurried(self) -> Result<NullfsLifecycle, Halt> {
        match self.phase {
            NullfsLifecyclePhase::WaitQuiesced { process_id, generation, transition_id, .. } => Ok(
                NullfsLifecycle {
                    phase: NullfsLifecyclePhase::WaitQuiesced {
                        process_id,
                        generation,
                        transition_id,
                        yields_remaining: NULLFS_TEST_QUIESCE_GRACE_YIELDS,
                    },
                    ..self
                },
            ),
            _ => Err(Halt::Failed(Text::NullfsRestartProbeFailed)),
        }
    }

    pub fn shorten_quiesce_grace_for_test(&mut self) -> (result: Result<(), Halt>)
        ensures
            match result {
                Ok(_) => old(self).hurried() == Ok::<_, Halt>(*final(self)),
                Err(halt) => old(self).hurried() == Err::<NullfsLifecycle, _>(halt) && *final(self)
                    == *old(self),
            },
    {
        match self.phase {
            NullfsLifecyclePhase::WaitQuiesced { process_id, generation, transition_id, .. } => {
                self.phase = NullfsLifecyclePhase::WaitQuiesced {
                    process_id,
                    generation,
                    transition_id,
                    yields_remaining: NULLFS_TEST_QUIESCE_GRACE_YIELDS,
                };
                Ok(())
            },
            _ => Err(Halt::Failed(Text::NullfsRestartProbeFailed)),
        }
    }
}

/// Whether a procedure that only changes the lifecycle came to what its run says.
pub open spec fn changed(
    run: Run<NullfsLifecycle>,
    k: kernel::Transcript,
    lifecycle: NullfsLifecycle,
    result: Result<(), Halt>,
) -> bool {
    &&& k == run.0
    &&& match result {
        Ok(_) => run.1 == Ok::<_, Halt>(lifecycle),
        Err(halt) => run.1 == Err::<NullfsLifecycle, _>(halt),
    }
}

/// A step gives a status exactly when the service is no longer restarted, and a restart that ends
/// is clean only if the service exited with status zero after it said that its volume was clean.
pub proof fn lemma_restart_ends_clean_only_with_status_zero(
    k: kernel::Transcript,
    lifecycle: NullfsLifecycle,
    current_process_id: Option<ProcessId>,
    current_generation: ProviderGeneration,
    readiness: CapabilityHandle,
    request: CapabilityHandle,
    job: ContainedServiceJob,
)
    requires
        lifecycle.phase != NullfsLifecyclePhase::Idle,
        advance_run(
            k,
            lifecycle,
            current_process_id,
            current_generation,
            readiness,
            request,
            job,
        ).1 is Ok,
    ensures
        ({
            let (next, status) = advance_run(
                k,
                lifecycle,
                current_process_id,
                current_generation,
                readiness,
                request,
                job,
            ).1->Ok_0;
            &&& status is Some <==> next.phase == NullfsLifecyclePhase::Idle
            &&& status is Some && next.last_exit_was_clean && !lifecycle.last_exit_was_clean ==> {
                &&& status == Some(0u64)
                &&& lifecycle.phase is WaitCleanExit
            }
            &&& next.next_transition_id == lifecycle.next_transition_id
        }),
{
}

/// Every step of a restart comes nearer to its end: it ends the restart, goes to a later step, or
/// spends patience. Only a service that is already ended by force can be told so again.
pub proof fn lemma_restart_makes_progress(
    k: kernel::Transcript,
    lifecycle: NullfsLifecycle,
    current_process_id: Option<ProcessId>,
    current_generation: ProviderGeneration,
    readiness: CapabilityHandle,
    request: CapabilityHandle,
    job: ContainedServiceJob,
)
    requires
        lifecycle.phase != NullfsLifecyclePhase::Idle,
        !(lifecycle.phase is ForceWait),
        advance_run(
            k,
            lifecycle,
            current_process_id,
            current_generation,
            readiness,
            request,
            job,
        ).1 is Ok,
    ensures
        ({
            let next = advance_run(
                k,
                lifecycle,
                current_process_id,
                current_generation,
                readiness,
                request,
                job,
            ).1->Ok_0.0;
            ||| next.phase.stage() < lifecycle.phase.stage()
            ||| next.phase.stage() == lifecycle.phase.stage() && next.phase.patience()
                < lifecycle.phase.patience()
        }),
{
}

/// A restart that is refused leaves the service as it was, and no two restarts have the same
/// number.
pub proof fn lemma_refused_restart_changes_nothing(
    k: kernel::Transcript,
    lifecycle: NullfsLifecycle,
    service: supervisor::Service,
    generation: ProviderGeneration,
    request: CapabilityHandle,
)
    requires
        request_restart_run(k, lifecycle, service, generation, request).1 is Ok,
    ensures
        ({
            let ((next, left), result) = request_restart_run(
                k,
                lifecycle,
                service,
                generation,
                request,
            ).1->Ok_0;
            &&& result is Err ==> {
                &&& left == service
                &&& next.phase == lifecycle.phase
                &&& next.last_exit_was_clean == lifecycle.last_exit_was_clean
            }
            &&& next.next_transition_id >= lifecycle.next_transition_id
            &&& result is Ok ==> match next.phase {
                NullfsLifecyclePhase::WaitQuiesced { transition_id, .. } => {
                    lifecycle.next_transition_id <= transition_id < next.next_transition_id
                },
                _ => false,
            }
        }),
{
}

/// Whether a run that came to something has taken back none of the answers that were read.
pub open spec fn reads_on<T>(k: kernel::Transcript, run: Run<T>) -> bool {
    run.1 is Ok ==> run.0.unread() <= k.unread()
}

proof fn lemma_force_reads_on(
    k: kernel::Transcript,
    lifecycle: NullfsLifecycle,
    process_id: ProcessId,
    generation: ProviderGeneration,
    job: ContainedServiceJob,
)
    ensures
        reads_on(k, begin_force_run(k, lifecycle, process_id, generation, job)),
        reads_on(k, force_current_run(k, lifecycle, job)),
{
    if let Some((process_id, generation)) = lifecycle.phase.subject() {
        assert(reads_on(k, begin_force_run(k, lifecycle, process_id, generation, job)));
    }
}

proof fn lemma_event_reads_on(
    k: kernel::Transcript,
    lifecycle: NullfsLifecycle,
    readiness: CapabilityHandle,
    job: ContainedServiceJob,
)
    ensures
        reads_on(k, receive_event_run(k, lifecycle, readiness, job)),
{
    let (heard, received) = init_run::hear_run(
        ipc::try_receive_run(k, readiness, MAX_IPC_MESSAGE_BYTES),
    );
    if let (Ok(Ok(delivery)), Some((process_id, generation))) = (
        received,
        lifecycle.phase.subject(),
    ) {
        let (closed, result) = init_run::hear_run(
            procedure::quiet_received_run(heard, delivery.message.capability),
        );
        assert(reads_on(heard, (closed, result)));
        lemma_force_reads_on(closed, lifecycle, process_id, generation, job);
    }
}

proof fn lemma_act_reads_on(
    k: kernel::Transcript,
    lifecycle: NullfsLifecycle,
    process_id: ProcessId,
    generation: ProviderGeneration,
    request: CapabilityHandle,
    job: ContainedServiceJob,
)
    ensures
        reads_on(k, act_run(k, lifecycle, process_id, generation, request, job)),
{
    lemma_unmount_reads_on(k, lifecycle, request, job);
    if let (queued, Ok(next)) = queue_unmount_run(k, lifecycle, request, job) {
        lemma_exit_reads_on(queued, next, process_id, generation);
        if let (observed, Ok((last, None))) = observe_exit_run(
            queued,
            next,
            process_id,
            generation,
        ) {
            lemma_spend_reads_on(observed, last, job);
        }
    }
}

proof fn lemma_unmount_reads_on(
    k: kernel::Transcript,
    lifecycle: NullfsLifecycle,
    request: CapabilityHandle,
    job: ContainedServiceJob,
)
    ensures
        reads_on(k, queue_unmount_run(k, lifecycle, request, job)),
{
    if let NullfsLifecyclePhase::QueueUnmount { process_id, generation, transition_id, .. } =
        lifecycle.phase {
        if let Some(message) = LifecycleMessage::built(UNMOUNT, generation.raw, transition_id) {
            let (sent, result) = ipc::send_run(k, request, message.encoded(), None);
            lemma_force_reads_on(sent, lifecycle, process_id, generation, job);
        }
    }
}

proof fn lemma_exit_reads_on(
    k: kernel::Transcript,
    lifecycle: NullfsLifecycle,
    process_id: ProcessId,
    generation: ProviderGeneration,
)
    ensures
        reads_on(k, observe_exit_run(k, lifecycle, process_id, generation)),
{
}

proof fn lemma_spend_reads_on(
    k: kernel::Transcript,
    lifecycle: NullfsLifecycle,
    job: ContainedServiceJob,
)
    ensures
        reads_on(k, spend_run(k, lifecycle, job)),
{
    if let Some((process_id, generation)) = lifecycle.phase.subject() {
        lemma_force_reads_on(k, lifecycle, process_id, generation, job);
    }
}

/// A step of a restart takes back none of the answers that were read.
pub(crate) proof fn lemma_advance_reads_on(
    k: kernel::Transcript,
    lifecycle: NullfsLifecycle,
    current_process_id: Option<ProcessId>,
    current_generation: ProviderGeneration,
    readiness: CapabilityHandle,
    request: CapabilityHandle,
    job: ContainedServiceJob,
)
    ensures
        ({
            let (advanced, result) = advance_run(
                k,
                lifecycle,
                current_process_id,
                current_generation,
                readiness,
                request,
                job,
            );
            result is Ok ==> advanced.unread() <= k.unread()
        }),
{
    if let Some((process_id, generation)) = lifecycle.phase.subject() {
        lemma_event_reads_on(k, lifecycle, readiness, job);
        if let (heard, Ok(next)) = receive_event_run(k, lifecycle, readiness, job) {
            lemma_act_reads_on(heard, next, process_id, generation, request, job);
        }
    }
}

/// That one generation of NullFS is no longer found.
pub open spec fn taken_offline(generation: ProviderGeneration) -> Deed {
    Deed::Called {
        op: Op::OfflineFilesystem {
            provider: FilesystemProvider::Nullfs.raw(),
            generation: generation.raw,
        },
    }
}

/// Whether a message of the restart protocol went out between two points.
pub open spec fn asked_of_service(
    before: kernel::Transcript,
    after: kernel::Transcript,
    request: CapabilityHandle,
    message: LifecycleMessage,
) -> bool {
    exists|bytes: Seq<u8>|
        #[trigger] trace::did(before, after, Deed::Sent { endpoint: request, message: bytes })
            && LifecycleMessage::parsed(bytes) == Ok::<_, MessageDecodeError>(message)
}

/// Whether a message of the restart protocol came in between two points, from one process.
pub open spec fn told_by_service(
    before: kernel::Transcript,
    after: kernel::Transcript,
    readiness: CapabilityHandle,
    process_id: ProcessId,
    message: LifecycleMessage,
) -> bool {
    exists|bytes: Seq<u8>|
        #[trigger] trace::did(
            before,
            after,
            Deed::Heard { endpoint: readiness, process_id, message: bytes },
        ) && LifecycleMessage::parsed(bytes) == Ok::<_, MessageDecodeError>(message)
}

/// A restart that is taken asks the running service to quiesce, in its generation and under a
/// number that no later restart has.
pub proof fn lemma_restart_asks_the_service_to_quiesce(
    k: kernel::Transcript,
    lifecycle: NullfsLifecycle,
    service: supervisor::Service,
    generation: ProviderGeneration,
    request: CapabilityHandle,
)
    ensures
        ({
            let (after, requested) = request_restart_run(
                k,
                lifecycle,
                service,
                generation,
                request,
            );
            requested matches Ok(((next, restarting), Ok(_))) ==> {
                &&& next.phase matches NullfsLifecyclePhase::WaitQuiesced {
                    process_id,
                    generation: awaited,
                    transition_id,
                    ..
                } && {
                    &&& service.process_id == Some(process_id)
                    &&& awaited == generation
                    &&& transition_id < next.next_transition_id
                    &&& asked_of_service(
                        k,
                        after,
                        request,
                        LifecycleMessage {
                            kind: QUIESCE,
                            generation: generation.raw,
                            transition_id,
                        },
                    )
                }
                &&& lifecycle.next_transition_id < next.next_transition_id
                &&& lifecycle.phase is Idle
                &&& !next.last_exit_was_clean
                &&& after.asked.len() == k.asked.len() + 1
            }
        }),
{
    let (after, requested) = request_restart_run(k, lifecycle, service, generation, request);
    if requested matches Ok(((next, restarting), Ok(_))) {
        let message = LifecycleMessage {
            kind: QUIESCE,
            generation: generation.raw,
            transition_id: lifecycle.next_transition_id,
        };
        lifecycle_protocol::lemma_lifecycle_round_trip(message);
        trace::lemma_sent(k, request, message.encoded());
    }
}

proof fn lemma_taken_offline(k: kernel::Transcript, generation: ProviderGeneration, text: Text)
    requires
        filesystem_registry::offline_run(k, FilesystemProvider::Nullfs, generation, text).1 is Ok,
    ensures
        trace::did(
            k,
            filesystem_registry::offline_run(k, FilesystemProvider::Nullfs, generation, text).0,
            taken_offline(generation),
        ),
{
    trace::lemma_called(k, taken_offline(generation)->Called_op, seq![], seq![]);
}

/// NullFS is recovered by force only once it is no longer found, and it is the same process in
/// the same generation that is then waited for.
pub proof fn lemma_forced_recovery_takes_nullfs_offline(
    k: kernel::Transcript,
    lifecycle: NullfsLifecycle,
    process_id: ProcessId,
    generation: ProviderGeneration,
    job: ContainedServiceJob,
)
    ensures
        ({
            let (after, forced) = begin_force_run(k, lifecycle, process_id, generation, job);
            forced matches Ok(next) ==> {
                &&& next.phase is ForceWait
                &&& next.phase.subject() == Some((process_id, generation))
                &&& next.phase.patience() == NULLFS_FORCE_TERMINATION_ATTEMPTS
                &&& !next.last_exit_was_clean
                &&& next.next_transition_id == lifecycle.next_transition_id
                &&& trace::did(k, after, taken_offline(generation))
            }
        }),
{
    broadcast use {
        trace::group_did,
        trace::lemma_init_run_announce_run,
        trace::lemma_contained_service_request_termination_run,
    };

    let (after, forced) = begin_force_run(k, lifecycle, process_id, generation, job);
    if forced is Ok {
        lemma_taken_offline(k, generation, Text::NullfsServiceFailed);
    }
}

/// A restart goes on only when the service that is restarted says so: with the message that is
/// due, in its own generation and for this restart. Once it has quiesced it is no longer found.
/// Whatever else it says leads to a recovery by force, and then it is no longer found either.
#[verifier::spinoff_prover]
#[verifier::rlimit(30)]
pub proof fn lemma_restart_goes_on_when_the_service_says_so(
    k: kernel::Transcript,
    lifecycle: NullfsLifecycle,
    readiness: CapabilityHandle,
    job: ContainedServiceJob,
)
    ensures
        ({
            let (after, heard) = receive_event_run(k, lifecycle, readiness, job);
            heard matches Ok(next) ==> {
                &&& next.phase.subject() == lifecycle.phase.subject()
                &&& next.phase is QueueUnmount && !(lifecycle.phase is QueueUnmount) ==> {
                    &&& lifecycle.phase matches NullfsLifecyclePhase::WaitQuiesced {
                        process_id,
                        generation,
                        transition_id,
                        ..
                    } && told_by_service(
                        k,
                        after,
                        readiness,
                        process_id,
                        LifecycleMessage {
                            kind: QUIESCED,
                            generation: generation.raw,
                            transition_id,
                        },
                    ) && trace::did(k, after, taken_offline(generation))
                    &&& next.phase->QueueUnmount_transition_id
                        == lifecycle.phase->WaitQuiesced_transition_id
                }
                &&& next.phase is WaitCleanExit ==> {
                    &&& lifecycle.phase is WaitCleanExit
                    &&& next.phase->final_status == lifecycle.phase->final_status
                    &&& next.phase->clean_seen && !lifecycle.phase->clean_seen ==> told_by_service(
                        k,
                        after,
                        readiness,
                        lifecycle.phase.subject()->Some_0.0,
                        LifecycleMessage {
                            kind: CLEAN_UNMOUNTED,
                            generation: lifecycle.phase.subject()->Some_0.1.raw,
                            transition_id: lifecycle.phase->WaitCleanExit_transition_id,
                        },
                    )
                }
                &&& next.phase is WaitQuiesced ==> next == lifecycle
                &&& next.phase is Idle ==> next == lifecycle
                &&& next.phase is ForceWait && next != lifecycle ==> trace::did(
                    k,
                    after,
                    taken_offline(lifecycle.phase.subject()->Some_0.1),
                )
            }
        }),
{
    broadcast use {
        trace::group_did,
        trace::lemma_procedure_quiet_received_run,
        trace::lemma_nullfs_lifecycle_take_message_run,
        trace::lemma_nullfs_lifecycle_force_current_run,
    };

    let (after, heard) = receive_event_run(k, lifecycle, readiness, job);
    let (asked, received) = ipc::try_receive_run(k, readiness, MAX_IPC_MESSAGE_BYTES);
    if heard is Ok && (received matches Some(Ok(_))) && lifecycle.phase.subject() is Some {
        let delivery = received->Some_0->Ok_0;
        let (process_id, generation) = lifecycle.phase.subject()->Some_0;
        let quiet = procedure::quiet_received_run(asked, delivery.message.capability).0;
        assert(trace::mild(asked, quiet));
        lemma_forced_recovery_takes_nullfs_offline(quiet, lifecycle, process_id, generation, job);
        if delivery.message.capability is None {
            trace::lemma_heard(k, readiness, MAX_IPC_MESSAGE_BYTES);
            assert(quiet == asked);
            assert(trace::mild(asked, after));
            assert(trace::did(
                k,
                after,
                Deed::Heard {
                    endpoint: readiness,
                    process_id: delivery.message.sender_process_id,
                    message: delivery.payload,
                },
            ));
            if heard->Ok_0.phase is QueueUnmount {
                lemma_taken_offline(quiet, generation, Text::NullfsServiceFailed);
            }
        }
        assert(trace::mild(k, quiet));
    }
}

/// A service that has quiesced is asked to unmount, in its generation and for this restart, before
/// its clean exit is waited for.
pub proof fn lemma_quiesced_service_is_asked_to_unmount(
    k: kernel::Transcript,
    lifecycle: NullfsLifecycle,
    request: CapabilityHandle,
    job: ContainedServiceJob,
)
    ensures
        ({
            let (after, queued) = queue_unmount_run(k, lifecycle, request, job);
            queued matches Ok(next) ==> {
                &&& next.phase.subject() == lifecycle.phase.subject()
                &&& next.phase is WaitCleanExit && !(lifecycle.phase is WaitCleanExit) ==> {
                    &&& lifecycle.phase is QueueUnmount
                    &&& !next.phase->clean_seen
                    &&& next.phase->final_status is None
                    &&& next.phase->WaitCleanExit_transition_id
                        == lifecycle.phase->QueueUnmount_transition_id
                    &&& asked_of_service(
                        k,
                        after,
                        request,
                        LifecycleMessage {
                            kind: UNMOUNT,
                            generation: lifecycle.phase.subject()->Some_0.1.raw,
                            transition_id: lifecycle.phase->QueueUnmount_transition_id,
                        },
                    )
                }
                &&& !(lifecycle.phase is QueueUnmount) ==> next == lifecycle && after == k
            }
        }),
{
    let (after, queued) = queue_unmount_run(k, lifecycle, request, job);
    if let NullfsLifecyclePhase::QueueUnmount { generation, transition_id, .. } = lifecycle.phase {
        if queued is Ok && queued->Ok_0.phase is WaitCleanExit {
            let message = LifecycleMessage {
                kind: UNMOUNT,
                generation: generation.raw,
                transition_id,
            };
            lifecycle_protocol::lemma_lifecycle_round_trip(message);
            trace::lemma_sent(k, request, message.encoded());
        }
    }
}

/// A service whose restart ended uncleanly is no longer found: it is taken offline where its end
/// is seen, unless it has quiesced and waits for its clean exit.
pub proof fn lemma_unclean_end_takes_nullfs_offline(
    k: kernel::Transcript,
    lifecycle: NullfsLifecycle,
    process_id: ProcessId,
    generation: ProviderGeneration,
)
    ensures
        ({
            let (after, seen) = observe_exit_run(k, lifecycle, process_id, generation);
            seen matches Ok((next, ended)) ==> {
                &&& ended is Some ==> next.phase is Idle
                &&& ended matches Some(status) ==> (next.last_exit_was_clean ==> {
                    &&& status == 0
                    &&& lifecycle.phase is WaitCleanExit
                    &&& lifecycle.phase->clean_seen
                })
                &&& ended is Some && !next.last_exit_was_clean ==> trace::did(
                    k,
                    after,
                    taken_offline(generation),
                )
                &&& ended is None && !(lifecycle.phase is WaitCleanExit) ==> next == lifecycle
            }
        }),
{
    broadcast use {trace::group_did, trace::lemma_nullfs_lifecycle_final_status_run};

    let (after, seen) = observe_exit_run(k, lifecycle, process_id, generation);
    if seen matches Ok((next, ended)) && ended is Some && !next.last_exit_was_clean {
        let looked = final_status_run(k, process_id).0;
        assert(trace::mild(k, looked));
        lemma_taken_offline(looked, generation, Text::NullfsServiceFailed);
    }
}

} // verus!
