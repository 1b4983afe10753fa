//! How the supervisor answers requests about its services: what it says of them, and how it
//! starts, stops and restarts them.

use crate::abi::SIGNAL_TERMINATE;
use crate::control_protocol;
use crate::control_protocol::{
    DesiredState, ListOutcome, ListResponse, ObservedState, ServiceControlFailure,
    ServiceControlRequest, ServiceControlResponse, ServiceRecord, TargetResponse,
};
use crate::identity::{ProviderGeneration, ServiceId};
use crate::init_run;
use crate::init_run::{hear, need, Halt, Run};
use crate::init_text::Text;
use crate::ipc;
use crate::ipc::{CapabilityHandle, Rights};
use crate::kernel;
use crate::kernel::{Kernel, Op};
use crate::nullfs_lifecycle;
use crate::nullfs_lifecycle::{NullfsLifecycle, NullfsRestartRequestError};
use crate::service_control;
use crate::service_control::{
    logging_service_id, nullfs_service_id, tmpfs_service_id, vfs_service_id, ControlIngress,
    IngressError, ReplyError,
};
use crate::supervisor;
use crate::supervisor::{
    RestartRequestError, ServiceRuntime, ServiceState, StartRequestError, StopRequestError,
};
use crate::syscall;
use crate::syscall::{signal_process_group, ProcessId};
use vstd::prelude::*;

verus! {

/// How many requests are taken at a time.
pub const SERVICE_CONTROL_PUMP_BUDGET: usize = 4;

/// The services that the supervisor keeps.
#[derive(Clone, Debug)]
pub struct Services {
    pub logging: ServiceRuntime,
    pub nullfs: ServiceRuntime,
    pub tmpfs: ServiceRuntime,
    pub vfs: ServiceRuntime,
}

/// The services as the contracts see them.
pub ghost struct Registry {
    pub logging: supervisor::Service,
    pub nullfs: supervisor::Service,
    pub tmpfs: supervisor::Service,
    pub vfs: supervisor::Service,
}

impl View for Services {
    type V = Registry;

    open spec fn view(&self) -> Registry {
        Registry {
            logging: self.logging@,
            nullfs: self.nullfs@,
            tmpfs: self.tmpfs@,
            vfs: self.vfs@,
        }
    }
}

/// The newest generation of each service.
#[derive(Clone, Copy, Debug, PartialEq, Eq, Structural)]
pub struct Generations {
    pub logging: ProviderGeneration,
    pub nullfs: ProviderGeneration,
    pub tmpfs: ProviderGeneration,
    pub vfs: ProviderGeneration,
}

/// What is said of a service in this state: what can be seen of it, and the generation that
/// provides it.
#[verifier::allow_in_spec]
pub fn observation(state: ServiceState, managed_generation: ProviderGeneration) -> (
    ObservedState,
    Option<ProviderGeneration>,
)
    returns
        (match state {
            ServiceState::Stopped => (ObservedState::Stopped, None),
            ServiceState::Starting => (ObservedState::Starting, Some(managed_generation)),
            ServiceState::Running => (ObservedState::Ready, Some(managed_generation)),
            ServiceState::Stopping => (ObservedState::Stopping, Some(managed_generation)),
            ServiceState::Restarting => (ObservedState::Terminating, Some(managed_generation)),
            ServiceState::Backoff => (ObservedState::Stopped, None),
            ServiceState::Failed => (ObservedState::Quarantined, None),
        }),
{
    match state {
        ServiceState::Stopped => (ObservedState::Stopped, None),
        ServiceState::Starting => (ObservedState::Starting, Some(managed_generation)),
        ServiceState::Running => (ObservedState::Ready, Some(managed_generation)),
        ServiceState::Stopping => (ObservedState::Stopping, Some(managed_generation)),
        ServiceState::Restarting => (ObservedState::Terminating, Some(managed_generation)),
        ServiceState::Backoff => (ObservedState::Stopped, None),
        ServiceState::Failed => (ObservedState::Quarantined, None),
    }
}

/// The record of a service.
pub open spec fn record_of(
    service: ServiceId,
    runtime: supervisor::Service,
    generation: ProviderGeneration,
) -> ServiceRecord {
    ServiceRecord {
        service,
        generation: observation(runtime.state, generation).1,
        observed: observation(runtime.state, generation).0,
        desired: runtime.desired_state,
    }
}

pub fn service_record(
    service: ServiceId,
    runtime: &ServiceRuntime,
    managed_generation: ProviderGeneration,
) -> (record: ServiceRecord)
    ensures
        record == record_of(service, runtime@, managed_generation),
        ServiceRecord::built(service, record.generation, record.observed, record.desired) == Ok::<
            _,
            control_protocol::InvalidResponse,
        >(record),
{
    let (observed, generation) = observation(runtime.state(), managed_generation);
    ServiceRecord { service, generation, observed, desired: runtime.desired_state() }
}

/// The record of the service with this identity, if there is one.
pub open spec fn status_of(service: ServiceId, registry: Registry, generations: Generations) -> Option<
    ServiceRecord,
> {
    if service == logging_service_id() {
        Some(record_of(service, registry.logging, generations.logging))
    } else if service == nullfs_service_id() {
        Some(record_of(service, registry.nullfs, generations.nullfs))
    } else if service == tmpfs_service_id() {
        Some(record_of(service, registry.tmpfs, generations.tmpfs))
    } else if service == vfs_service_id() {
        Some(record_of(service, registry.vfs, generations.vfs))
    } else {
        None
    }
}

pub fn service_status(service: ServiceId, services: &Services, generations: Generations) -> (record:
    Option<ServiceRecord>)
    ensures
        record == status_of(service, services@, generations),
{
    if service == logging_service_id() {
        Some(service_record(service, &services.logging, generations.logging))
    } else if service == nullfs_service_id() {
        Some(service_record(service, &services.nullfs, generations.nullfs))
    } else if service == tmpfs_service_id() {
        Some(service_record(service, &services.tmpfs, generations.tmpfs))
    } else if service == vfs_service_id() {
        Some(service_record(service, &services.vfs, generations.vfs))
    } else {
        None
    }
}

/// What stands at a cursor of the list: the services in their order, each with the cursor of the
/// next.
pub open spec fn listed(cursor: u32, registry: Registry, generations: Generations) -> ListOutcome {
    if cursor == 0 {
        ListOutcome::Record {
            record: record_of(logging_service_id(), registry.logging, generations.logging),
            next_cursor: 1,
        }
    } else if cursor == 1 {
        ListOutcome::Record {
            record: record_of(nullfs_service_id(), registry.nullfs, generations.nullfs),
            next_cursor: 2,
        }
    } else if cursor == 2 {
        ListOutcome::Record {
            record: record_of(tmpfs_service_id(), registry.tmpfs, generations.tmpfs),
            next_cursor: 3,
        }
    } else if cursor == 3 {
        ListOutcome::Record {
            record: record_of(vfs_service_id(), registry.vfs, generations.vfs),
            next_cursor: 0,
        }
    } else {
        ListOutcome::Failure(ServiceControlFailure::NotFound)
    }
}

/// The answer to a request to observe. Requests to change something are denied.
pub open spec fn observed_response(
    request: ServiceControlRequest,
    registry: Registry,
    generations: Generations,
) -> ServiceControlResponse {
    match request {
        ServiceControlRequest::List { cursor } => ServiceControlResponse::List(
            ListResponse { cursor, outcome: listed(cursor, registry, generations) },
        ),
        ServiceControlRequest::Status { service } => ServiceControlResponse::Status(
            match status_of(service, registry, generations) {
                Some(record) => TargetResponse::success(record),
                None => TargetResponse::failure(service, ServiceControlFailure::NotFound),
            },
        ),
        ServiceControlRequest::Start { service } => ServiceControlResponse::Start(
            TargetResponse::failure(service, ServiceControlFailure::AccessDenied),
        ),
        ServiceControlRequest::Stop { service } => ServiceControlResponse::Stop(
            TargetResponse::failure(service, ServiceControlFailure::AccessDenied),
        ),
        ServiceControlRequest::Restart { service } => ServiceControlResponse::Restart(
            TargetResponse::failure(service, ServiceControlFailure::AccessDenied),
        ),
    }
}

pub fn service_control_response(
    request: ServiceControlRequest,
    services: &Services,
    generations: Generations,
) -> (response: ServiceControlResponse)
    ensures
        response == observed_response(request, services@, generations),
{
    match request {
        ServiceControlRequest::List { cursor } => {
            let outcome = if cursor == 0 {
                ListOutcome::Record {
                    record: service_record(
                        logging_service_id(),
                        &services.logging,
                        generations.logging,
                    ),
                    next_cursor: 1,
                }
            } else if cursor == 1 {
                ListOutcome::Record {
                    record: service_record(
                        nullfs_service_id(),
                        &services.nullfs,
                        generations.nullfs,
                    ),
                    next_cursor: 2,
                }
            } else if cursor == 2 {
                ListOutcome::Record {
                    record: service_record(tmpfs_service_id(), &services.tmpfs, generations.tmpfs),
                    next_cursor: 3,
                }
            } else if cursor == 3 {
                ListOutcome::Record {
                    record: service_record(vfs_service_id(), &services.vfs, generations.vfs),
                    next_cursor: 0,
                }
            } else {
                ListOutcome::Failure(ServiceControlFailure::NotFound)
            };
            ServiceControlResponse::list(ListResponse { cursor, outcome })
        },
        ServiceControlRequest::Status { service } => {
            let response = match service_status(service, services, generations) {
                Some(record) => TargetResponse::success(record),
                None => TargetResponse::failure(service, ServiceControlFailure::NotFound),
            };
            ServiceControlResponse::status(response)
        },
        ServiceControlRequest::Start { service } => ServiceControlResponse::Start(
            TargetResponse::failure(service, ServiceControlFailure::AccessDenied),
        ),
        ServiceControlRequest::Stop { service } => ServiceControlResponse::Stop(
            TargetResponse::failure(service, ServiceControlFailure::AccessDenied),
        ),
        ServiceControlRequest::Restart { service } => ServiceControlResponse::Restart(
            TargetResponse::failure(service, ServiceControlFailure::AccessDenied),
        ),
    }
}

/// Starting a service on request.
pub open spec fn started(
    service: ServiceId,
    runtime: supervisor::Service,
    generation: ProviderGeneration,
) -> (supervisor::Service, TargetResponse) {
    match runtime.start() {
        Ok(next) => (next, TargetResponse::success(record_of(service, next, generation))),
        Err(StartRequestError::InvalidState) => (
            runtime,
            TargetResponse::failure(service, ServiceControlFailure::InvalidState),
        ),
    }
}

pub fn request_service_start(
    service: ServiceId,
    runtime: &mut ServiceRuntime,
    generation: ProviderGeneration,
) -> (response: TargetResponse)
    ensures
        (final(runtime)@, response) == started(service, old(runtime)@, generation),
        old(runtime)@.coherent() ==> final(runtime)@.coherent(),
{
    match runtime.request_start() {
        Ok(_) => TargetResponse::success(service_record(service, runtime, generation)),
        Err(StartRequestError::InvalidState) => TargetResponse::failure(
            service,
            ServiceControlFailure::InvalidState,
        ),
    }
}

/// Asking the processes of a group to end: whether there were any.
pub open spec fn terminate_group_run(k: kernel::Transcript, group: ProcessId) -> Run<bool> {
    init_run::bind(
        init_run::hear_run(syscall::signal_group_run(k, group, SIGNAL_TERMINATE)),
        |k: kernel::Transcript, signaled: Result<usize, ipc::Error>|
            init_run::end(k, signaled is Ok && signaled->Ok_0 != 0),
    )
}

fn terminate_group(k: &mut Kernel, group: ProcessId) -> (result: Result<bool, Halt>)
    ensures
        (final(k)@, result) == terminate_group_run(old(k)@, group),
{
    match hear(signal_process_group(k, group, SIGNAL_TERMINATE))? {
        Ok(signaled) => Ok(signaled != 0),
        Err(_) => Ok(false),
    }
}

/// Stopping a service on request. A service whose processes cannot be signaled stays as it was.
pub open spec fn stop_run(
    k: kernel::Transcript,
    service: ServiceId,
    runtime: supervisor::Service,
    generation: ProviderGeneration,
) -> Run<(supervisor::Service, TargetResponse)> {
    match runtime.stop() {
        Err(StopRequestError::InvalidState) => init_run::end(
            k,
            (runtime, TargetResponse::failure(service, ServiceControlFailure::InvalidState)),
        ),
        Err(StopRequestError::TransitionExhausted) => init_run::end(
            k,
            (runtime, TargetResponse::failure(service, ServiceControlFailure::Exhausted)),
        ),
        Ok((stopping, stop)) => match stop.process_group {
            None => init_run::end(
                k,
                (stopping, TargetResponse::success(record_of(service, stopping, generation))),
            ),
            Some(group) => init_run::bind(
                terminate_group_run(k, group),
                |k: kernel::Transcript, signaled: bool|
                    if signaled {
                        init_run::end(
                            k,
                            (
                                stopping,
                                TargetResponse::success(
                                    record_of(service, stopping, generation),
                                ),
                            ),
                        )
                    } else {
                        match stopping.cancel_stop(stop) {
                            Err(_) => init_run::giving_up(k, Text::ServiceControlProtocolFailed),
                            Ok(restored) => init_run::end(
                                k,
                                (
                                    restored,
                                    TargetResponse::failure(service, ServiceControlFailure::Busy),
                                ),
                            ),
                        }
                    },
            ),
        },
    }
}

pub fn request_service_stop(
    k: &mut Kernel,
    service: ServiceId,
    runtime: &mut ServiceRuntime,
    generation: ProviderGeneration,
) -> (result: Result<TargetResponse, Halt>)
    ensures
        ({
            let (asked, outcome) = stop_run(old(k)@, service, old(runtime)@, generation);
            &&& final(k)@ == asked
            &&& init_run::came_to(outcome, final(runtime)@, result)
        }),
        old(runtime)@.coherent() ==> final(runtime)@.coherent(),
{
    let request = match runtime.request_stop() {
        Ok(request) => request,
        Err(StopRequestError::InvalidState) => {
            return Ok(TargetResponse::failure(service, ServiceControlFailure::InvalidState));
        },
        Err(StopRequestError::TransitionExhausted) => {
            return Ok(TargetResponse::failure(service, ServiceControlFailure::Exhausted));
        },
    };
    if let Some(group) = request.process_group() {
        if !terminate_group(k, group)? {
            if runtime.cancel_stop(request).is_err() {
                return Err(Halt::Failed(Text::ServiceControlProtocolFailed));
            }
            return Ok(TargetResponse::failure(service, ServiceControlFailure::Busy));
        }
    }
    Ok(TargetResponse::success(service_record(service, runtime, generation)))
}

/// Restarting a service on request. A service whose processes cannot be signaled stays as it was.
pub open spec fn restart_run(
    k: kernel::Transcript,
    service: ServiceId,
    runtime: supervisor::Service,
    generation: ProviderGeneration,
) -> Run<(supervisor::Service, TargetResponse)> {
    match runtime.restart() {
        Err(RestartRequestError::AlreadyPending) => init_run::end(
            k,
            (runtime, TargetResponse::failure(service, ServiceControlFailure::Busy)),
        ),
        Err(RestartRequestError::InvalidState) => init_run::end(
            k,
            (runtime, TargetResponse::failure(service, ServiceControlFailure::InvalidState)),
        ),
        Ok((restarting, group)) => init_run::bind(
            terminate_group_run(k, group),
            |k: kernel::Transcript, signaled: bool|
                init_run::end(
                    k,
                    if signaled {
                        (
                            restarting,
                            TargetResponse::success(record_of(service, restarting, generation)),
                        )
                    } else {
                        (
                            restarting.cancel_restart(),
                            TargetResponse::failure(service, ServiceControlFailure::Busy),
                        )
                    },
                ),
        ),
    }
}

pub fn request_service_restart(
    k: &mut Kernel,
    service: ServiceId,
    runtime: &mut ServiceRuntime,
    generation: ProviderGeneration,
) -> (result: Result<TargetResponse, Halt>)
    ensures
        ({
            let (asked, outcome) = restart_run(old(k)@, service, old(runtime)@, generation);
            &&& final(k)@ == asked
            &&& init_run::came_to(outcome, final(runtime)@, result)
        }),
        old(runtime)@.coherent() ==> final(runtime)@.coherent(),
{
    let group: u64 = match runtime.request_restart() {
        Ok(group) => group,
        Err(RestartRequestError::AlreadyPending) => {
            return Ok(TargetResponse::failure(service, ServiceControlFailure::Busy));
        },
        Err(RestartRequestError::InvalidState) => {
            return Ok(TargetResponse::failure(service, ServiceControlFailure::InvalidState));
        },
    };
    if !terminate_group(k, group)? {
        runtime.cancel_restart();
        return Ok(TargetResponse::failure(service, ServiceControlFailure::Busy));
    }
    Ok(TargetResponse::success(service_record(service, runtime, generation)))
}

/// Restarting the NullFS service on request.
pub open spec fn nullfs_restart_run(
    k: kernel::Transcript,
    service: ServiceId,
    runtime: supervisor::Service,
    generation: ProviderGeneration,
    lifecycle: NullfsLifecycle,
    endpoint: CapabilityHandle,
) -> Run<((NullfsLifecycle, supervisor::Service), TargetResponse)> {
    init_run::bind(
        nullfs_lifecycle::request_restart_run(k, lifecycle, runtime, generation, endpoint),
        |
            k: kernel::Transcript,
            asked: ((NullfsLifecycle, supervisor::Service), Result<(), NullfsRestartRequestError>),
        |
            init_run::end(
                k,
                (
                    asked.0,
                    match asked.1 {
                        Ok(_) => TargetResponse::success(
                            record_of(service, asked.0.1, generation),
                        ),
                        Err(NullfsRestartRequestError::InvalidState) => TargetResponse::failure(
                            service,
                            ServiceControlFailure::InvalidState,
                        ),
                        Err(_) => TargetResponse::failure(service, ServiceControlFailure::Busy),
                    },
                ),
            ),
    )
}

pub fn request_nullfs_restart(
    k: &mut Kernel,
    service: ServiceId,
    runtime: &mut ServiceRuntime,
    generation: ProviderGeneration,
    lifecycle: &mut NullfsLifecycle,
    request_endpoint: CapabilityHandle,
) -> (result: Result<TargetResponse, Halt>)
    ensures
        ({
            let (asked, outcome) = nullfs_restart_run(
                old(k)@,
                service,
                old(runtime)@,
                generation,
                *old(lifecycle),
                request_endpoint,
            );
            &&& final(k)@ == asked
            &&& init_run::came_to(outcome, (*final(lifecycle), final(runtime)@), result)
        }),
        old(runtime)@.coherent() ==> final(runtime)@.coherent(),
{
    match lifecycle.request_restart(k, runtime, generation, request_endpoint)? {
        Ok(_) => Ok(TargetResponse::success(service_record(service, runtime, generation))),
        Err(NullfsRestartRequestError::InvalidState) => Ok(
            TargetResponse::failure(service, ServiceControlFailure::InvalidState),
        ),
        Err(_) => Ok(TargetResponse::failure(service, ServiceControlFailure::Busy)),
    }
}

/// What changes when a request is answered.
pub ghost struct Held {
    pub registry: Registry,
    pub lifecycle: NullfsLifecycle,
}

/// What is said of a service that can be neither started nor stopped on request.
#[verifier::allow_in_spec]
pub fn unchangeable(service: ServiceId) -> TargetResponse
    returns
        (if service == nullfs_service_id() || service == tmpfs_service_id() || service
            == vfs_service_id() {
            TargetResponse::failure(service, ServiceControlFailure::Unsupported)
        } else {
            TargetResponse::failure(service, ServiceControlFailure::NotFound)
        }),
{
    if service == nullfs_service_id() || service == tmpfs_service_id() || service
        == vfs_service_id() {
        TargetResponse::failure(service, ServiceControlFailure::Unsupported)
    } else {
        TargetResponse::failure(service, ServiceControlFailure::NotFound)
    }
}

/// A response that has to say what the service is now meant to be.
pub open spec fn checked_run<S>(
    k: kernel::Transcript,
    state: S,
    checked: Result<ServiceControlResponse, control_protocol::InvalidResponse>,
) -> Run<(S, ServiceControlResponse)> {
    match checked {
        Ok(response) => init_run::end(k, (state, response)),
        Err(_) => init_run::giving_up(k, Text::ServiceControlProtocolFailed),
    }
}

fn checked(result: Result<ServiceControlResponse, control_protocol::InvalidResponse>) -> (response:
    Result<ServiceControlResponse, Halt>)
    ensures
        response == match result {
            Ok(response) => Ok::<_, Halt>(response),
            Err(_) => Err(Halt::Failed(Text::ServiceControlProtocolFailed)),
        },
{
    match result {
        Ok(response) => Ok(response),
        Err(_) => Err(Halt::Failed(Text::ServiceControlProtocolFailed)),
    }
}

/// Stopping the service with this identity.
pub open spec fn stop_service_run(
    k: kernel::Transcript,
    service: ServiceId,
    held: Held,
    generations: Generations,
) -> Run<(Held, ServiceControlResponse)> {
    init_run::bind(
        if service == logging_service_id() {
            stop_run(k, service, held.registry.logging, generations.logging)
        } else {
            init_run::end(k, (held.registry.logging, unchangeable(service)))
        },
        |k: kernel::Transcript, stopped: (supervisor::Service, TargetResponse)|
            checked_run(
                k,
                Held { registry: Registry { logging: stopped.0, ..held.registry }, ..held },
                control_protocol::mutated(
                    ServiceControlResponse::Stop(stopped.1),
                    stopped.1,
                    DesiredState::Stopped,
                ),
            ),
    )
}

/// Starting the service with this identity.
pub open spec fn start_service_run(
    k: kernel::Transcript,
    service: ServiceId,
    held: Held,
    generations: Generations,
) -> Run<(Held, ServiceControlResponse)> {
    let (logging, response) = if service == logging_service_id() {
        started(service, held.registry.logging, generations.logging)
    } else {
        (held.registry.logging, unchangeable(service))
    };
    checked_run(
        k,
        Held { registry: Registry { logging, ..held.registry }, ..held },
        control_protocol::mutated(
            ServiceControlResponse::Start(response),
            response,
            DesiredState::Running,
        ),
    )
}

/// Restarting the service with this identity, before the response is checked.
pub open spec fn restart_target_run(
    k: kernel::Transcript,
    service: ServiceId,
    held: Held,
    generations: Generations,
    endpoint: CapabilityHandle,
) -> Run<(Held, TargetResponse)> {
    let registry = held.registry;
    if service == logging_service_id() {
        init_run::bind(
            restart_run(k, service, registry.logging, generations.logging),
            |k: kernel::Transcript, asked: (supervisor::Service, TargetResponse)|
                init_run::end(
                    k,
                    (Held { registry: Registry { logging: asked.0, ..registry }, ..held }, asked.1),
                ),
        )
    } else if service == nullfs_service_id() {
        init_run::bind(
            nullfs_restart_run(
                k,
                service,
                registry.nullfs,
                generations.nullfs,
                held.lifecycle,
                endpoint,
            ),
            |
                k: kernel::Transcript,
                asked: ((NullfsLifecycle, supervisor::Service), TargetResponse),
            |
                init_run::end(
                    k,
                    (
                        Held {
                            registry: Registry { nullfs: asked.0.1, ..registry },
                            lifecycle: asked.0.0,
                        },
                        asked.1,
                    ),
                ),
        )
    } else if service == tmpfs_service_id() {
        init_run::bind(
            restart_run(k, service, registry.tmpfs, generations.tmpfs),
            |k: kernel::Transcript, asked: (supervisor::Service, TargetResponse)|
                init_run::end(
                    k,
                    (Held { registry: Registry { tmpfs: asked.0, ..registry }, ..held }, asked.1),
                ),
        )
    } else if service == vfs_service_id() {
        init_run::bind(
            restart_run(k, service, registry.vfs, generations.vfs),
            |k: kernel::Transcript, asked: (supervisor::Service, TargetResponse)|
                init_run::end(
                    k,
                    (Held { registry: Registry { vfs: asked.0, ..registry }, ..held }, asked.1),
                ),
        )
    } else {
        init_run::end(
            k,
            (held, TargetResponse::failure(service, ServiceControlFailure::NotFound)),
        )
    }
}

/// The answer to a request to change something. Requests to observe are denied.
pub open spec fn mutation_run(
    k: kernel::Transcript,
    request: ServiceControlRequest,
    held: Held,
    generations: Generations,
    endpoint: CapabilityHandle,
) -> Run<(Held, ServiceControlResponse)> {
    match request {
        ServiceControlRequest::List { cursor } => init_run::end(
            k,
            (
                held,
                ServiceControlResponse::List(
                    ListResponse::failure(cursor, ServiceControlFailure::AccessDenied),
                ),
            ),
        ),
        ServiceControlRequest::Status { service } => init_run::end(
            k,
            (
                held,
                ServiceControlResponse::Status(
                    TargetResponse::failure(service, ServiceControlFailure::AccessDenied),
                ),
            ),
        ),
        ServiceControlRequest::Start { service } => start_service_run(
            k,
            service,
            held,
            generations,
        ),
        ServiceControlRequest::Stop { service } => stop_service_run(
            k,
            service,
            held,
            generations,
        ),
        ServiceControlRequest::Restart { service } => init_run::bind(
            restart_target_run(k, service, held, generations, endpoint),
            |k: kernel::Transcript, asked: (Held, TargetResponse)|
                checked_run(
                    k,
                    asked.0,
                    control_protocol::mutated(
                        ServiceControlResponse::Restart(asked.1),
                        asked.1,
                        DesiredState::Running,
                    ),
                ),
        ),
    }
}

pub fn service_mutation_response(
    k: &mut Kernel,
    request: ServiceControlRequest,
    services: &mut Services,
    generations: Generations,
    nullfs_lifecycle: &mut NullfsLifecycle,
    nullfs_request_endpoint: CapabilityHandle,
) -> (result: Result<ServiceControlResponse, Halt>)
    ensures
        ({
            let (asked, outcome) = mutation_run(
                old(k)@,
                request,
                Held { registry: old(services)@, lifecycle: *old(nullfs_lifecycle) },
                generations,
                nullfs_request_endpoint,
            );
            &&& final(k)@ == asked
            &&& init_run::came_to(
                outcome,
                Held { registry: final(services)@, lifecycle: *final(nullfs_lifecycle) },
                result,
            )
        }),
{
    match request {
        ServiceControlRequest::List { cursor } => Ok(
            ServiceControlResponse::list(
                ListResponse::failure(cursor, ServiceControlFailure::AccessDenied),
            ),
        ),
        ServiceControlRequest::Status { service } => Ok(
            ServiceControlResponse::status(
                TargetResponse::failure(service, ServiceControlFailure::AccessDenied),
            ),
        ),
        ServiceControlRequest::Start { service } => {
            let response = if service == logging_service_id() {
                request_service_start(service, &mut services.logging, generations.logging)
            } else {
                unchangeable(service)
            };
            checked(ServiceControlResponse::start(response))
        },
        ServiceControlRequest::Stop { service } => {
            let response = if service == logging_service_id() {
                request_service_stop(k, service, &mut services.logging, generations.logging)?
            } else {
                unchangeable(service)
            };
            checked(ServiceControlResponse::stop(response))
        },
        ServiceControlRequest::Restart { service } => {
            let response = if service == logging_service_id() {
                request_service_restart(k, service, &mut services.logging, generations.logging)?
            } else if service == nullfs_service_id() {
                request_nullfs_restart(
                    k,
                    service,
                    &mut services.nullfs,
                    generations.nullfs,
                    nullfs_lifecycle,
                    nullfs_request_endpoint,
                )?
            } else if service == tmpfs_service_id() {
                request_service_restart(k, service, &mut services.tmpfs, generations.tmpfs)?
            } else if service == vfs_service_id() {
                request_service_restart(k, service, &mut services.vfs, generations.vfs)?
            } else {
                TargetResponse::failure(service, ServiceControlFailure::NotFound)
            };
            checked(ServiceControlResponse::restart(response))
        },
    }
}

/// Where requests come in, and what a restart of the NullFS service has come to.
///
/// A clone owns nothing: it is there to run a procedure again from the same state.
#[derive(Clone, Debug)]
pub struct ServiceControlState {
    pub observation_source: CapabilityHandle,
    pub observation_ingress: ControlIngress,
    pub mutation_source: CapabilityHandle,
    pub mutation_ingress: ControlIngress,
    pub nullfs_lifecycle: NullfsLifecycle,
}

/// The state as the contracts see it.
pub ghost struct Control {
    pub observation_source: CapabilityHandle,
    pub observation: service_control::Ingress,
    pub mutation_source: CapabilityHandle,
    pub mutation: service_control::Ingress,
    pub lifecycle: NullfsLifecycle,
}

impl View for ServiceControlState {
    type V = Control;

    open spec fn view(&self) -> Control {
        Control {
            observation_source: self.observation_source,
            observation: self.observation_ingress@,
            mutation_source: self.mutation_source,
            mutation: self.mutation_ingress@,
            lifecycle: self.nullfs_lifecycle,
        }
    }
}

/// Making an endpoint whose requests come in here.
pub open spec fn open_ingress_run(k: kernel::Transcript) -> Run<
    (CapabilityHandle, service_control::Ingress),
> {
    let text = Text::ServiceControlBootstrapFailed;
    init_run::bind(
        init_run::need_run(ipc::value_run(k, Op::EndpointCreate), text),
        |k: kernel::Transcript, source: u64|
            init_run::bind(
                init_run::need_run(
                    ipc::value_run(
                        k,
                        Op::Duplicate { handle: source, rights: Rights::receive().raw },
                    ),
                    text,
                ),
                |k: kernel::Transcript, receive: u64|
                    init_run::bind(
                        init_run::need_run(service_control::bind_run(k, receive), text),
                        |k: kernel::Transcript, ingress: service_control::Ingress|
                            init_run::end(k, (source, ingress)),
                    ),
            ),
    )
}

fn open_ingress(k: &mut Kernel) -> (result: Result<(CapabilityHandle, ControlIngress), Halt>)
    ensures
        ({
            let (asked, outcome) = open_ingress_run(old(k)@);
            &&& final(k)@ == asked
            &&& match result {
                Ok((source, ingress)) => outcome == Ok::<_, Halt>((source, ingress@)),
                Err(halt) => outcome == Err::<(CapabilityHandle, service_control::Ingress), _>(
                    halt,
                ),
            }
        }),
{
    let source = need(ipc::endpoint_create(k), Text::ServiceControlBootstrapFailed)?;
    let receive = need(
        ipc::duplicate(k, source, Rights::receive()),
        Text::ServiceControlBootstrapFailed,
    )?;
    let ingress = need(ControlIngress::bind(k, receive), Text::ServiceControlBootstrapFailed)?;
    Ok((source, ingress))
}

/// Making both endpoints.
pub open spec fn new_run(k: kernel::Transcript) -> Run<Control> {
    init_run::bind(
        open_ingress_run(k),
        |k: kernel::Transcript, first: (CapabilityHandle, service_control::Ingress)|
            init_run::bind(
                open_ingress_run(k),
                |k: kernel::Transcript, second: (CapabilityHandle, service_control::Ingress)|
                    init_run::end(
                        k,
                        Control {
                            observation_source: first.0,
                            observation: first.1,
                            mutation_source: second.0,
                            mutation: second.1,
                            lifecycle: NullfsLifecycle::new(),
                        },
                    ),
            ),
    )
}

/// What one look for a request to observe comes to: whether there was one.
pub open spec fn observation_step_run(
    k: kernel::Transcript,
    ingress: service_control::Ingress,
    registry: Registry,
    generations: Generations,
) -> Run<bool> {
    init_run::bind(
        init_run::hear_run(service_control::accept_run(k, ingress)),
        |k: kernel::Transcript, accepted: Result<Option<service_control::Pending>, IngressError>|
            match accepted {
                Ok(None) => init_run::end(k, false),
                Err(_) => init_run::end(k, true),
                Ok(Some(pending)) => init_run::bind(
                    init_run::hear_run(
                        service_control::reply_run(
                            k,
                            pending,
                            observed_response(pending.request, registry, generations),
                        ),
                    ),
                    |k: kernel::Transcript, replied: Result<(), ReplyError>| init_run::end(k, true),
                ),
            },
    )
}

/// Answering requests to observe, as many as the budget allows.
pub open spec fn observation_run(
    k: kernel::Transcript,
    ingress: service_control::Ingress,
    registry: Registry,
    generations: Generations,
    budget: nat,
) -> Run<()>
    decreases budget,
{
    if budget == 0 {
        init_run::end(k, ())
    } else {
        let (asked, result) = observation_step_run(k, ingress, registry, generations);
        match result {
            Err(halt) => (asked, Err(halt)),
            Ok(false) => init_run::end(asked, ()),
            Ok(true) => observation_run(
                asked,
                ingress,
                registry,
                generations,
                (budget - 1) as nat,
            ),
        }
    }
}

/// What one look for a request to change something comes to: whether there was one.
pub open spec fn mutation_step_run(
    k: kernel::Transcript,
    ingress: service_control::Ingress,
    held: Held,
    generations: Generations,
    endpoint: CapabilityHandle,
) -> Run<(Held, bool)> {
    init_run::bind(
        init_run::hear_run(service_control::accept_run(k, ingress)),
        |k: kernel::Transcript, accepted: Result<Option<service_control::Pending>, IngressError>|
            match accepted {
                Ok(None) => init_run::end(k, (held, false)),
                Err(_) => init_run::end(k, (held, true)),
                Ok(Some(pending)) => init_run::bind(
                    mutation_run(k, pending.request, held, generations, endpoint),
                    |k: kernel::Transcript, answered: (Held, ServiceControlResponse)|
                        init_run::bind(
                            init_run::hear_run(
                                service_control::reply_run(k, pending, answered.1),
                            ),
                            |k: kernel::Transcript, replied: Result<(), ReplyError>|
                                init_run::end(k, (answered.0, true)),
                        ),
                ),
            },
    )
}

/// Answering requests to change something, as many as the budget allows: how many there were.
pub open spec fn pump_mutation_run(
    k: kernel::Transcript,
    ingress: service_control::Ingress,
    held: Held,
    generations: Generations,
    endpoint: CapabilityHandle,
    processed: usize,
) -> Run<(Held, usize)>
    decreases SERVICE_CONTROL_PUMP_BUDGET - processed,
{
    if processed >= SERVICE_CONTROL_PUMP_BUDGET {
        init_run::end(k, (held, processed))
    } else {
        let (asked, result) = mutation_step_run(k, ingress, held, generations, endpoint);
        match result {
            Err(halt) => (asked, Err(halt)),
            Ok((next, false)) => init_run::end(asked, (next, processed)),
            Ok((next, true)) => pump_mutation_run(
                asked,
                ingress,
                next,
                generations,
                endpoint,
                (processed + 1) as usize,
            ),
        }
    }
}

proof fn lemma_accept_asks(k: kernel::Transcript, ingress: service_control::Ingress)
    requires
        service_control::accept_run(k, ingress).1 is Some,
    ensures
        0 <= service_control::accept_run(k, ingress).0.unread() < k.unread(),
{
}

proof fn lemma_reply_asks(
    k: kernel::Transcript,
    pending: service_control::Pending,
    response: ServiceControlResponse,
)
    requires
        service_control::reply_run(k, pending, response).1 is Some,
    ensures
        0 <= service_control::reply_run(k, pending, response).0.unread() < k.unread(),
{
}

proof fn lemma_restart_asks(
    k: kernel::Transcript,
    service: ServiceId,
    held: Held,
    generations: Generations,
    endpoint: CapabilityHandle,
)
    requires
        restart_target_run(k, service, held, generations, endpoint).1 is Ok,
        0 <= k.unread(),
    ensures
        0 <= restart_target_run(k, service, held, generations, endpoint).0.unread() <= k.unread(),
{
}

proof fn lemma_mutation_asks(
    k: kernel::Transcript,
    request: ServiceControlRequest,
    held: Held,
    generations: Generations,
    endpoint: CapabilityHandle,
)
    requires
        mutation_run(k, request, held, generations, endpoint).1 is Ok,
        0 <= k.unread(),
    ensures
        0 <= mutation_run(k, request, held, generations, endpoint).0.unread() <= k.unread(),
{
    if let ServiceControlRequest::Restart { service } = request {
        lemma_restart_asks(k, service, held, generations, endpoint);
    }
}

/// Looking for a request asks at least once.
proof fn lemma_mutation_step_asks(
    k: kernel::Transcript,
    ingress: service_control::Ingress,
    held: Held,
    generations: Generations,
    endpoint: CapabilityHandle,
)
    requires
        mutation_step_run(k, ingress, held, generations, endpoint).1 is Ok,
    ensures
        0 <= mutation_step_run(k, ingress, held, generations, endpoint).0.unread() < k.unread(),
{
    lemma_accept_asks(k, ingress);
    let (asked, accepted) = service_control::accept_run(k, ingress);
    if let Some(Ok(Some(pending))) = accepted {
        lemma_mutation_asks(asked, pending.request, held, generations, endpoint);
        let (answered, outcome) = mutation_run(
            asked,
            pending.request,
            held,
            generations,
            endpoint,
        );
        lemma_reply_asks(answered, pending, outcome->Ok_0.1);
    }
}

pub(crate) proof fn lemma_pump_asks(
    k: kernel::Transcript,
    ingress: service_control::Ingress,
    held: Held,
    generations: Generations,
    endpoint: CapabilityHandle,
    processed: usize,
)
    requires
        pump_mutation_run(k, ingress, held, generations, endpoint, processed).1 is Ok,
        processed < SERVICE_CONTROL_PUMP_BUDGET,
    ensures
        0 <= pump_mutation_run(k, ingress, held, generations, endpoint, processed).0.unread()
            < k.unread(),
    decreases SERVICE_CONTROL_PUMP_BUDGET - processed,
{
    lemma_mutation_step_asks(k, ingress, held, generations, endpoint);
    let (asked, result) = mutation_step_run(k, ingress, held, generations, endpoint);
    if let Ok((next, true)) = result {
        if processed + 1 < SERVICE_CONTROL_PUMP_BUDGET {
            lemma_pump_asks(
                asked,
                ingress,
                next,
                generations,
                endpoint,
                (processed + 1) as usize,
            );
        }
    }
}

/// Answering requests to change something until none is left.
pub open spec fn drain_mutation_run(
    k: kernel::Transcript,
    ingress: service_control::Ingress,
    held: Held,
    generations: Generations,
    endpoint: CapabilityHandle,
) -> Run<(Held, ())>
    decreases k.unread(),
    via drain_mutation_ends
{
    let (asked, result) = pump_mutation_run(k, ingress, held, generations, endpoint, 0);
    match result {
        Err(halt) => (asked, Err(halt)),
        Ok((next, processed)) => if processed < SERVICE_CONTROL_PUMP_BUDGET {
            init_run::end(asked, (next, ()))
        } else {
            drain_mutation_run(asked, ingress, next, generations, endpoint)
        },
    }
}

#[via_fn]
proof fn drain_mutation_ends(
    k: kernel::Transcript,
    ingress: service_control::Ingress,
    held: Held,
    generations: Generations,
    endpoint: CapabilityHandle,
) {
    if pump_mutation_run(k, ingress, held, generations, endpoint, 0).1 is Ok {
        lemma_pump_asks(k, ingress, held, generations, endpoint, 0);
    }
}

impl ServiceControlState {
    pub fn new(k: &mut Kernel) -> (result: Result<Self, Halt>)
        ensures
            ({
                let (asked, outcome) = new_run(old(k)@);
                &&& final(k)@ == asked
                &&& match result {
                    Ok(state) => outcome == Ok::<_, Halt>(state@),
                    Err(halt) => outcome == Err::<Control, _>(halt),
                }
            }),
    {
        let (observation_source, observation_ingress) = open_ingress(k)?;
        let (mutation_source, mutation_ingress) = open_ingress(k)?;
        Ok(
            ServiceControlState {
                observation_source,
                observation_ingress,
                mutation_source,
                mutation_ingress,
                nullfs_lifecycle: NullfsLifecycle::new(),
            },
        )
    }

    pub fn pump_observation(&mut self, k: &mut Kernel, services: &Services, generations: Generations) -> (result:
        Result<(), Halt>)
        ensures
            (final(k)@, result) == observation_run(
                old(k)@,
                old(self)@.observation,
                services@,
                generations,
                SERVICE_CONTROL_PUMP_BUDGET as nat,
            ),
            final(self)@ == old(self)@,
    {
        let mut budget: usize = SERVICE_CONTROL_PUMP_BUDGET;
        while budget > 0
            invariant
                observation_run(
                    old(k)@,
                    old(self)@.observation,
                    services@,
                    generations,
                    SERVICE_CONTROL_PUMP_BUDGET as nat,
                ) == observation_run(
                    k@,
                    self@.observation,
                    services@,
                    generations,
                    budget as nat,
                ),
                self@ == old(self)@,
            decreases budget,
        {
            match hear(self.observation_ingress.try_accept(k))? {
                Ok(Some(request)) => {
                    let response = service_control_response(
                        request.request(),
                        services,
                        generations,
                    );
                    let _ = hear(request.reply(k, response))?;
                },
                Ok(None) => {
                    return Ok(());
                },
                Err(_) => {},
            }
            budget -= 1;
        }
        Ok(())
    }

    pub fn pump_mutation(
        &mut self,
        k: &mut Kernel,
        services: &mut Services,
        generations: Generations,
        nullfs_request_endpoint: CapabilityHandle,
    ) -> (result: Result<usize, Halt>)
        ensures
            ({
                let (asked, outcome) = pump_mutation_run(
                    old(k)@,
                    old(self)@.mutation,
                    Held { registry: old(services)@, lifecycle: old(self)@.lifecycle },
                    generations,
                    nullfs_request_endpoint,
                    0,
                );
                &&& final(k)@ == asked
                &&& init_run::came_to(
                    outcome,
                    Held { registry: final(services)@, lifecycle: final(self)@.lifecycle },
                    result,
                )
            }),
            final(self)@ == (Control { lifecycle: final(self)@.lifecycle, ..old(self)@ }),
    {
        let mut processed: usize = 0;
        while processed < SERVICE_CONTROL_PUMP_BUDGET
            invariant
                processed <= SERVICE_CONTROL_PUMP_BUDGET,
                pump_mutation_run(
                    old(k)@,
                    old(self)@.mutation,
                    Held { registry: old(services)@, lifecycle: old(self)@.lifecycle },
                    generations,
                    nullfs_request_endpoint,
                    0,
                ) == pump_mutation_run(
                    k@,
                    old(self)@.mutation,
                    Held { registry: services@, lifecycle: self@.lifecycle },
                    generations,
                    nullfs_request_endpoint,
                    processed,
                ),
                self@ == (Control { lifecycle: self@.lifecycle, ..old(self)@ }),
            decreases SERVICE_CONTROL_PUMP_BUDGET - processed,
        {
            match hear(self.mutation_ingress.try_accept(k))? {
                Ok(Some(request)) => {
                    let response = service_mutation_response(
                        k,
                        request.request(),
                        services,
                        generations,
                        &mut self.nullfs_lifecycle,
                        nullfs_request_endpoint,
                    )?;
                    let _ = hear(request.reply(k, response))?;
                },
                Ok(None) => {
                    return Ok(processed);
                },
                Err(_) => {},
            }
            processed += 1;
        }
        Ok(processed)
    }

    pub fn drain_mutation(
        &mut self,
        k: &mut Kernel,
        services: &mut Services,
        generations: Generations,
        nullfs_request_endpoint: CapabilityHandle,
    ) -> (result: Result<(), Halt>)
        ensures
            ({
                let (asked, outcome) = drain_mutation_run(
                    old(k)@,
                    old(self)@.mutation,
                    Held { registry: old(services)@, lifecycle: old(self)@.lifecycle },
                    generations,
                    nullfs_request_endpoint,
                );
                &&& final(k)@ == asked
                &&& init_run::came_to(
                    outcome,
                    Held { registry: final(services)@, lifecycle: final(self)@.lifecycle },
                    result,
                )
            }),
            final(self)@ == (Control { lifecycle: final(self)@.lifecycle, ..old(self)@ }),
    {
        loop
            invariant
                drain_mutation_run(
                    old(k)@,
                    old(self)@.mutation,
                    Held { registry: old(services)@, lifecycle: old(self)@.lifecycle },
                    generations,
                    nullfs_request_endpoint,
                ) == drain_mutation_run(
                    k@,
                    old(self)@.mutation,
                    Held { registry: services@, lifecycle: self@.lifecycle },
                    generations,
                    nullfs_request_endpoint,
                ),
                self@ == (Control { lifecycle: self@.lifecycle, ..old(self)@ }),
            decreases k@.unread(),
        {
            let ghost before = k@;
            let ghost held = Held { registry: services@, lifecycle: self@.lifecycle };
            let processed = self.pump_mutation(k, services, generations, nullfs_request_endpoint)?;
            proof {
                lemma_pump_asks(
                    before,
                    self@.mutation,
                    held,
                    generations,
                    nullfs_request_endpoint,
                    0,
                );
            }
            if processed < SERVICE_CONTROL_PUMP_BUDGET {
                return Ok(());
            }
        }
    }
}

proof fn lemma_record_valid(
    service: ServiceId,
    runtime: supervisor::Service,
    generation: ProviderGeneration,
)
    requires
        service.valid(),
        generation.raw != 0,
    ensures
        record_of(service, runtime, generation).valid(),
{
}

proof fn lemma_services_are_committed()
    ensures
        logging_service_id().valid(),
        nullfs_service_id().valid(),
        tmpfs_service_id().valid(),
        vfs_service_id().valid(),
{
    service_control::lemma_names_map_both_ways(
        service_control::LOGGING_NAME@,
        logging_service_id(),
    );
    service_control::lemma_names_map_both_ways(service_control::NULLFS_NAME@, nullfs_service_id());
    service_control::lemma_names_map_both_ways(service_control::TMPFS_NAME@, tmpfs_service_id());
    service_control::lemma_names_map_both_ways(service_control::VFS_NAME@, vfs_service_id());
}

proof fn lemma_status_valid(service: ServiceId, registry: Registry, generations: Generations)
    requires
        service.valid(),
        generations.logging.raw != 0,
        generations.nullfs.raw != 0,
        generations.tmpfs.raw != 0,
        generations.vfs.raw != 0,
        status_of(service, registry, generations) is Some,
    ensures
        status_of(service, registry, generations)->0.valid(),
        status_of(service, registry, generations)->0.service == service,
{
    lemma_record_valid(service, registry.logging, generations.logging);
    lemma_record_valid(service, registry.nullfs, generations.nullfs);
    lemma_record_valid(service, registry.tmpfs, generations.tmpfs);
    lemma_record_valid(service, registry.vfs, generations.vfs);
}

/// What a service says of itself always goes together, so that every answer about valid
/// generations to a valid request is valid.
pub proof fn lemma_observation_is_valid(
    request: ServiceControlRequest,
    registry: Registry,
    generations: Generations,
)
    requires
        request.valid(),
        generations.logging.raw != 0,
        generations.nullfs.raw != 0,
        generations.tmpfs.raw != 0,
        generations.vfs.raw != 0,
    ensures
        observed_response(request, registry, generations).valid(),
{
    match request {
        ServiceControlRequest::List { cursor } => {
            lemma_services_are_committed();
            lemma_record_valid(logging_service_id(), registry.logging, generations.logging);
            lemma_record_valid(nullfs_service_id(), registry.nullfs, generations.nullfs);
            lemma_record_valid(tmpfs_service_id(), registry.tmpfs, generations.tmpfs);
            lemma_record_valid(vfs_service_id(), registry.vfs, generations.vfs);
        },
        ServiceControlRequest::Status { service } => {
            if status_of(service, registry, generations) is Some {
                lemma_status_valid(service, registry, generations);
            }
        },
        _ => {},
    }
}

/// An answer to a request to observe answers that request.
pub proof fn lemma_observation_answers_the_request(
    request: ServiceControlRequest,
    registry: Registry,
    generations: Generations,
    request_id: control_protocol::RequestId,
)
    ensures
        control_protocol::ServiceControlMessage::response(
            request_id,
            observed_response(request, registry, generations),
        ).correlated(
            control_protocol::ServiceControlMessage::request(request_id, request),
        ) == Ok::<(), control_protocol::CorrelationError>(()),
{
}

/// Walking the list from its start shows every service once.
pub proof fn lemma_list_shows_every_service(registry: Registry, generations: Generations)
    ensures
        listed(0, registry, generations) == (ListOutcome::Record {
            record: status_of(logging_service_id(), registry, generations)->0,
            next_cursor: 1,
        }),
        listed(1, registry, generations) == (ListOutcome::Record {
            record: status_of(nullfs_service_id(), registry, generations)->0,
            next_cursor: 2,
        }),
        listed(2, registry, generations) == (ListOutcome::Record {
            record: status_of(tmpfs_service_id(), registry, generations)->0,
            next_cursor: 3,
        }),
        listed(3, registry, generations) == (ListOutcome::Record {
            record: status_of(vfs_service_id(), registry, generations)->0,
            next_cursor: 0,
        }),
{
}

/// Whether a response refuses what was asked.
pub open spec fn refuses(response: TargetResponse) -> bool {
    response.outcome is Failure
}

/// A service that is not stopped stays as it was, but for the number of the stop that was undone,
/// and a service that is stopped is meant to be.
pub proof fn lemma_refused_stop_leaves_the_service(
    k: kernel::Transcript,
    service: ServiceId,
    runtime: supervisor::Service,
    generation: ProviderGeneration,
)
    ensures
        ({
            let outcome = stop_run(k, service, runtime, generation).1;
            &&& outcome is Ok || outcome == Err::<(supervisor::Service, TargetResponse), _>(
                Halt::Waiting,
            )
            &&& outcome is Ok ==> {
                let (next, response) = outcome->Ok_0;
                &&& response.service == service
                &&& response.desires(DesiredState::Stopped)
                &&& refuses(response) ==> (supervisor::Service {
                    stop_epoch: runtime.stop_epoch,
                    ..next
                }) == runtime
            }
        }),
{
    if let Ok((stopping, stop)) = runtime.stop() {
        if stop.rollback_epoch is Some {
            supervisor::lemma_cancelled_stop_restores_the_service(runtime);
        }
    }
}

/// A service that is not started stays as it was, and a service that is started is meant to be.
pub proof fn lemma_refused_start_leaves_the_service(
    service: ServiceId,
    runtime: supervisor::Service,
    generation: ProviderGeneration,
)
    ensures
        ({
            let (next, response) = started(service, runtime, generation);
            &&& response.service == service
            &&& response.desires(DesiredState::Running)
            &&& refuses(response) ==> next == runtime
        }),
{
}

/// A service that is not restarted stays as it was, and a service that is restarted is meant to
/// run.
pub proof fn lemma_refused_restart_leaves_the_service(
    k: kernel::Transcript,
    service: ServiceId,
    runtime: supervisor::Service,
    generation: ProviderGeneration,
)
    ensures
        ({
            let outcome = restart_run(k, service, runtime, generation).1;
            &&& outcome is Ok || outcome == Err::<(supervisor::Service, TargetResponse), _>(
                Halt::Waiting,
            )
            &&& outcome is Ok ==> {
                let (next, response) = outcome->Ok_0;
                &&& response.service == service
                &&& response.desires(DesiredState::Running)
                &&& refuses(response) ==> next == runtime
            }
        }),
{
    if runtime.restart() is Ok {
        supervisor::lemma_cancelled_restart_restores_the_service(runtime);
    }
}

/// The same of the NullFS service. The only other way it ends is that the numbers of restarts are
/// used up.
pub proof fn lemma_refused_nullfs_restart_leaves_the_service(
    k: kernel::Transcript,
    service: ServiceId,
    runtime: supervisor::Service,
    generation: ProviderGeneration,
    lifecycle: NullfsLifecycle,
    endpoint: CapabilityHandle,
)
    ensures
        ({
            let outcome = nullfs_restart_run(
                k,
                service,
                runtime,
                generation,
                lifecycle,
                endpoint,
            ).1;
            &&& outcome matches Err(halt) ==> (halt == Halt::Waiting || halt == Halt::Failed(
                Text::NullfsServiceProtocolFailed,
            ))
            &&& outcome is Ok ==> {
                let (next, response) = outcome->Ok_0;
                &&& response.service == service
                &&& response.desires(DesiredState::Running)
                &&& refuses(response) ==> next.1 == runtime && next.0.phase == lifecycle.phase
            }
        }),
{
    if nullfs_lifecycle::request_restart_run(k, lifecycle, runtime, generation, endpoint).1 is Ok {
        nullfs_lifecycle::lemma_refused_restart_changes_nothing(
            k,
            lifecycle,
            runtime,
            generation,
            endpoint,
        );
    }
}

/// A request to change something is always answered by what was asked, about the service that was
/// named. The supervisor never gives up because of its own answer.
pub proof fn lemma_change_answers_the_request(
    k: kernel::Transcript,
    request: ServiceControlRequest,
    held: Held,
    generations: Generations,
    endpoint: CapabilityHandle,
)
    ensures
        ({
            let outcome = mutation_run(k, request, held, generations, endpoint).1;
            &&& outcome != Err::<(Held, ServiceControlResponse), _>(
                Halt::Failed(Text::ServiceControlProtocolFailed),
            )
            &&& outcome is Ok ==> {
                let response = outcome->Ok_0.1;
                &&& response.operation() == request.operation()
                &&& control_protocol::named_service(request) == control_protocol::answered_service(
                    response,
                )
            }
        }),
{
    match request {
        ServiceControlRequest::Start { service } => {
            lemma_refused_start_leaves_the_service(
                service,
                held.registry.logging,
                generations.logging,
            );
        },
        ServiceControlRequest::Stop { service } => {
            lemma_refused_stop_leaves_the_service(
                k,
                service,
                held.registry.logging,
                generations.logging,
            );
        },
        ServiceControlRequest::Restart { service } => {
            lemma_restart_target(k, service, held, generations, endpoint);
        },
        _ => {},
    }
}

proof fn lemma_restart_target(
    k: kernel::Transcript,
    service: ServiceId,
    held: Held,
    generations: Generations,
    endpoint: CapabilityHandle,
)
    ensures
        ({
            let outcome = restart_target_run(k, service, held, generations, endpoint).1;
            &&& outcome != Err::<(Held, TargetResponse), _>(
                Halt::Failed(Text::ServiceControlProtocolFailed),
            )
            &&& outcome is Ok ==> {
                &&& outcome->Ok_0.1.service == service
                &&& outcome->Ok_0.1.desires(DesiredState::Running)
            }
        }),
{
    let registry = held.registry;
    if service == logging_service_id() {
        lemma_refused_restart_leaves_the_service(
            k,
            service,
            registry.logging,
            generations.logging,
        );
    } else if service == nullfs_service_id() {
        lemma_refused_nullfs_restart_leaves_the_service(
            k,
            service,
            registry.nullfs,
            generations.nullfs,
            held.lifecycle,
            endpoint,
        );
    } else if service == tmpfs_service_id() {
        lemma_refused_restart_leaves_the_service(k, service, registry.tmpfs, generations.tmpfs);
    } else if service == vfs_service_id() {
        lemma_refused_restart_leaves_the_service(k, service, registry.vfs, generations.vfs);
    }
}

/// Whether a record says of a service what is so: how the service is seen follows from its own
/// state, and its generation is named as long as there is a process of it.
pub open spec fn tells(
    record: ServiceRecord,
    service: ServiceId,
    runtime: supervisor::Service,
    generation: ProviderGeneration,
) -> bool {
    &&& record.service == service
    &&& record.desired == runtime.desired_state
    &&& record.observed == ObservedState::Ready <==> runtime.state == ServiceState::Running
    &&& record.observed == ObservedState::Starting <==> runtime.state == ServiceState::Starting
    &&& record.observed == ObservedState::Stopping <==> runtime.state == ServiceState::Stopping
    &&& record.observed == ObservedState::Terminating <==> runtime.state
        == ServiceState::Restarting
    &&& record.observed == ObservedState::Quarantined <==> runtime.state == ServiceState::Failed
    &&& record.observed == ObservedState::Stopped <==> (runtime.state == ServiceState::Stopped
        || runtime.state == ServiceState::Backoff)
    &&& record.generation is Some <==> runtime.state.has_process()
    &&& record.generation matches Some(told) ==> told == generation
}

/// The four services, by number: who they are, how they are, and their generations.
pub open spec fn service_at(index: int) -> ServiceId {
    if index == 0 {
        logging_service_id()
    } else if index == 1 {
        nullfs_service_id()
    } else if index == 2 {
        tmpfs_service_id()
    } else {
        vfs_service_id()
    }
}

/// See [`service_at`].
pub open spec fn runtime_at(registry: Registry, index: int) -> supervisor::Service {
    if index == 0 {
        registry.logging
    } else if index == 1 {
        registry.nullfs
    } else if index == 2 {
        registry.tmpfs
    } else {
        registry.vfs
    }
}

/// See [`service_at`].
pub open spec fn generation_at(generations: Generations, index: int) -> ProviderGeneration {
    if index == 0 {
        generations.logging
    } else if index == 1 {
        generations.nullfs
    } else if index == 2 {
        generations.tmpfs
    } else {
        generations.vfs
    }
}

proof fn lemma_services_are_apart(left: int, right: int)
    requires
        0 <= left < 4,
        0 <= right < 4,
        left != right,
    ensures
        service_at(left) != service_at(right),
{
}

/// Asking for the status of a service is answered with what is so of that service, whatever the
/// others are doing. The list holds the same at the number of the service and leads on to the
/// next one, from the last one back to its start. Nobody else is known, and nothing stands behind
/// the end of the list.
pub proof fn lemma_each_service_is_told_of_itself(
    registry: Registry,
    generations: Generations,
    index: int,
    service: ServiceId,
    cursor: u32,
)
    requires
        0 <= index < 4,
    ensures
        observed_response(
            ServiceControlRequest::Status { service: service_at(index) },
            registry,
            generations,
        ) matches ServiceControlResponse::Status(response) && {
            &&& response.service == service_at(index)
            &&& response.outcome matches control_protocol::TargetOutcome::Success(record) && tells(
                record,
                service_at(index),
                runtime_at(registry, index),
                generation_at(generations, index),
            )
        },
        observed_response(
            ServiceControlRequest::List { cursor: index as u32 },
            registry,
            generations,
        ) matches ServiceControlResponse::List(response) && {
            &&& response.cursor == index
            &&& response.outcome matches ListOutcome::Record { record, next_cursor } && tells(
                record,
                service_at(index),
                runtime_at(registry, index),
                generation_at(generations, index),
            ) && next_cursor == (index + 1) % 4
        },
        cursor >= 4 ==> (observed_response(
            ServiceControlRequest::List { cursor },
            registry,
            generations,
        ) matches ServiceControlResponse::List(response) && response.outcome
            == ListOutcome::Failure(ServiceControlFailure::NotFound)),
        (forall|i: int| 0 <= i < 4 ==> service != #[trigger] service_at(i)) ==> (observed_response(
            ServiceControlRequest::Status { service },
            registry,
            generations,
        ) matches ServiceControlResponse::Status(response) && response.service == service
            && response.outcome == control_protocol::TargetOutcome::Failure(
            ServiceControlFailure::NotFound,
        )),
{
    if forall|i: int| 0 <= i < 4 ==> service != #[trigger] service_at(i) {
        assert(service != service_at(0) && service != service_at(1) && service != service_at(2)
            && service != service_at(3));
    }
    if index != 0 {
        lemma_services_are_apart(index, 0);
    }
    if index != 1 {
        lemma_services_are_apart(index, 1);
    }
    if index != 2 {
        lemma_services_are_apart(index, 2);
    }
}

/// Why a response refuses what was asked, if it does.
pub open spec fn refusal_of(response: ServiceControlResponse) -> Option<ServiceControlFailure> {
    match response {
        ServiceControlResponse::List(response) => match response.outcome {
            ListOutcome::Failure(failure) => Some(failure),
            _ => None,
        },
        ServiceControlResponse::Status(response)
        | ServiceControlResponse::Start(response)
        | ServiceControlResponse::Stop(response)
        | ServiceControlResponse::Restart(response) => match response.outcome {
            control_protocol::TargetOutcome::Failure(failure) => Some(failure),
            _ => None,
        },
    }
}

/// Whether a request that names a service may change it.
pub open spec fn is_change(request: ServiceControlRequest) -> bool {
    request is Start || request is Stop || request is Restart
}

/// A request to change a service changes that service and no other, and asks nobody to end but its
/// processes. A request to observe changes nothing and asks for nothing here.
pub proof fn lemma_requests_touch_only_the_named_service(
    k: kernel::Transcript,
    request: ServiceControlRequest,
    held: Held,
    generations: Generations,
    endpoint: CapabilityHandle,
    index: int,
)
    requires
        0 <= index < 4,
        is_change(request) ==> control_protocol::named_service(request) != service_at(index),
    ensures
        ({
            let (after, outcome) = mutation_run(k, request, held, generations, endpoint);
            outcome matches Ok((next, response)) ==> {
                &&& runtime_at(next.registry, index) == runtime_at(held.registry, index)
                &&& service_at(index) == nullfs_service_id() ==> next.lifecycle == held.lifecycle
                &&& !is_change(request) ==> next == held && after == k && refusal_of(response)
                    == Some(ServiceControlFailure::AccessDenied)
            }
        }),
{
    lemma_services_are_apart(0, 1);
    lemma_services_are_apart(0, 2);
    lemma_services_are_apart(0, 3);
    lemma_services_are_apart(1, 2);
    lemma_services_are_apart(1, 3);
    lemma_services_are_apart(2, 3);
}

/// What a request to restart a service other than NullFS comes to. A service that runs, is meant
/// to and is not being restarted already is asked to end, once, and the answer is a success exactly
/// if one of its processes heard that; it then is on its way to a restart. Any other service is
/// left alone, without a call.
pub proof fn lemma_restart_ends_the_named_service(
    k: kernel::Transcript,
    held: Held,
    generations: Generations,
    endpoint: CapabilityHandle,
    index: int,
)
    requires
        index == 0 || index == 2 || index == 3,
    ensures
        ({
            let runtime = runtime_at(held.registry, index);
            let (after, outcome) = mutation_run(
                k,
                ServiceControlRequest::Restart { service: service_at(index) },
                held,
                generations,
                endpoint,
            );
            let may = runtime.state == ServiceState::Running && runtime.process_id is Some
                && runtime.desired_state == DesiredState::Running && !runtime.restart_pending;
            &&& !may ==> after == k && (outcome matches Ok((next, response)) && next == held
                && refusal_of(response) is Some)
            &&& may ==> after == k.call(
                Op::SignalProcessGroup {
                    group: runtime.process_id->Some_0,
                    signal: SIGNAL_TERMINATE,
                },
            )
            &&& may && k.reply() is Some ==> {
                let signaled = ipc::decoded(k.reply()->Some_0.result);
                let heard = signaled is Ok && signaled->Ok_0 as usize != 0;
                &&& outcome is Ok
                &&& !heard ==> outcome->Ok_0.0 == held && refusal_of(outcome->Ok_0.1) == Some(
                    ServiceControlFailure::Busy,
                )
                &&& heard ==> {
                    let next = runtime_at(outcome->Ok_0.0.registry, index);
                    &&& next.state == ServiceState::Restarting
                    &&& next.restart_pending
                    &&& next.process_id == runtime.process_id
                    &&& next.restart_count == runtime.restart_count
                    &&& outcome->Ok_0.1 matches ServiceControlResponse::Restart(response)
                        && response.outcome matches control_protocol::TargetOutcome::Success(record)
                        && tells(
                        record,
                        service_at(index),
                        next,
                        generation_at(generations, index),
                    )
                }
            }
        }),
{
    lemma_services_are_apart(0, 1);
    lemma_services_are_apart(0, 2);
    lemma_services_are_apart(0, 3);
    lemma_services_are_apart(1, 2);
    lemma_services_are_apart(1, 3);
    lemma_services_are_apart(2, 3);
}

/// What requests to stop and to start come to. Only the logging service can be stopped and started;
/// of the filesystems that is not supported, and nobody else is known. A running logging service
/// that is stopped is asked to end, once, and goes down if one of its processes heard that. One
/// that is down or failed without a process is due to be started afterwards, with its budget
/// renewed.
pub proof fn lemma_only_logging_is_stopped_and_started(
    k: kernel::Transcript,
    held: Held,
    generations: Generations,
    endpoint: CapabilityHandle,
    service: ServiceId,
)
    ensures
        ({
            let stop = mutation_run(
                k,
                ServiceControlRequest::Stop { service },
                held,
                generations,
                endpoint,
            );
            let start = mutation_run(
                k,
                ServiceControlRequest::Start { service },
                held,
                generations,
                endpoint,
            );
            let runtime = held.registry.logging;
            let refusal = if exists|i: int| 1 <= i < 4 && service == #[trigger] service_at(i) {
                ServiceControlFailure::Unsupported
            } else {
                ServiceControlFailure::NotFound
            };
            &&& start.0 == k
            &&& service != logging_service_id() ==> {
                &&& stop.0 == k
                &&& stop.1 matches Ok((next, response)) && next == held && refusal_of(response)
                    == Some(refusal)
                &&& start.1 matches Ok((next, response)) && next == held && refusal_of(response)
                    == Some(refusal)
            }
            &&& service == logging_service_id() && runtime.desired_state == DesiredState::Running
                && (runtime.state == ServiceState::Running || runtime.state
                == ServiceState::Starting) && runtime.process_id is Some && runtime.stop_epoch
                < u64::MAX ==> {
                let signaled = ipc::decoded(k.reply()->Some_0.result);
                let heard = signaled is Ok && signaled->Ok_0 as usize != 0;
                &&& stop.0 == k.call(
                    Op::SignalProcessGroup {
                        group: runtime.process_id->Some_0,
                        signal: SIGNAL_TERMINATE,
                    },
                )
                &&& k.reply() is Some && heard ==> (stop.1 matches Ok((next, response)) && {
                    &&& next.registry.logging.state == ServiceState::Stopping
                    &&& next.registry.logging.desired_state == DesiredState::Stopped
                    &&& next.registry.logging.process_id == runtime.process_id
                    &&& refusal_of(response) is None
                })
                &&& k.reply() is Some && !heard ==> (stop.1 matches Ok((next, response))
                    && next.registry.logging.state == runtime.state
                    && next.registry.logging.desired_state == DesiredState::Running
                    && refusal_of(response) == Some(ServiceControlFailure::Busy))
            }
            &&& service == logging_service_id() && !runtime.state.has_process()
                && runtime.process_id is None ==> {
                &&& stop.0 == k
                &&& stop.1 matches Ok((next, response)) && !next.registry.logging.should_start()
                    && next.registry.logging.desired_state == DesiredState::Stopped
                    && refusal_of(response) is None
                &&& runtime.desired_state == DesiredState::Stopped || runtime.state
                    == ServiceState::Failed ==> (start.1 matches Ok((next, response))
                    && next.registry.logging.should_start() && next.registry.logging.restart_count
                    == 0 && refusal_of(response) is None)
            }
        }),
{
    lemma_services_are_apart(0, 1);
    lemma_services_are_apart(0, 2);
    lemma_services_are_apart(0, 3);
    assert(service == nullfs_service_id() ==> service == service_at(1));
    assert(service == tmpfs_service_id() ==> service == service_at(2));
    assert(service == vfs_service_id() ==> service == service_at(3));
    if exists|i: int| 1 <= i < 4 && service == #[trigger] service_at(i) {
        let i = choose|i: int| 1 <= i < 4 && service == #[trigger] service_at(i);
        assert(i == 1 || i == 2 || i == 3);
    }
    if let Ok((stopping, stop)) = held.registry.logging.stop() {
        if stop.rollback_epoch is Some {
            supervisor::lemma_cancelled_stop_restores_the_service(held.registry.logging);
        }
    }
}

/// A request to observe that came in is answered once, over the endpoint that came with it, with
/// the identity of the request; then that endpoint is closed, and nothing else is.
pub proof fn lemma_observed_request_is_answered_once(
    k: kernel::Transcript,
    ingress: service_control::Ingress,
    registry: Registry,
    generations: Generations,
)
    ensures
        ({
            let (after, outcome) = observation_step_run(k, ingress, registry, generations);
            service_control::accept_run(k, ingress).1 matches Some(Ok(Some(pending))) ==> (outcome
                is Ok ==> {
                let read = service_control::accept_run(k, ingress).0;
                let answer = control_protocol::ServiceControlMessage::response(
                    pending.request_id,
                    observed_response(pending.request, registry, generations),
                );
                &&& outcome == Ok::<bool, Halt>(true)
                &&& after.asked == read.asked.push(
                    kernel::Asked {
                        op: Op::Send { endpoint: pending.reply, handle: 0, rights: 0 },
                        bytes: answer.encoded(),
                        attached: seq![],
                    },
                ).push(
                    kernel::Asked {
                        op: Op::Close { handle: pending.reply },
                        bytes: seq![],
                        attached: seq![],
                    },
                )
            })
        }),
{
    if let Some(Ok(Some(pending))) = service_control::accept_run(k, ingress).1 {
        lemma_observation_answers_the_request(
            pending.request,
            registry,
            generations,
            pending.request_id,
        );
        let (after, outcome) = observation_step_run(k, ingress, registry, generations);
        let (read, _) = service_control::accept_run(k, ingress);
        if outcome is Ok {
            let answer = control_protocol::ServiceControlMessage::response(
                pending.request_id,
                observed_response(pending.request, registry, generations),
            );
            assert(after.asked =~= read.asked.push(
                kernel::Asked {
                    op: Op::Send { endpoint: pending.reply, handle: 0, rights: 0 },
                    bytes: answer.encoded(),
                    attached: seq![],
                },
            ).push(
                kernel::Asked {
                    op: Op::Close { handle: pending.reply },
                    bytes: seq![],
                    attached: seq![],
                },
            ));
        }
    }
}

} // verus!
