//! A check of the whole life of the logging service: it is stopped, started and restarted on
//! request, the filesystem services are left alone where they should be, and a generation that
//! never says that it is ready is given up in the end.

use crate::abi::INIT_PROCESS_ID;
use crate::boot::SERVICE_RESTART_LIMIT;
use crate::control_protocol;
use crate::control_protocol::{
    DesiredState, ObservedState, Operation, RequestId, ServiceControlFailure,
    ServiceControlMessage, ServiceControlRequest, ServiceControlResponse, ServiceRecord,
    TargetOutcome,
};
use crate::identity::{ProviderGeneration, ServiceId};
use crate::init_run;
use crate::init_run::{announce, demand, hear, need, not_yet, BootstrapCapability, Halt, Run};
use crate::init_text::Text;
use crate::ipc;
use crate::ipc::{CapabilityHandle, Rights};
use crate::kernel;
use crate::kernel::{Kernel, Op};
use crate::logging_supervision::LoggingLifecycle;
use crate::probe;
use crate::probe::launch_tool;
use crate::route_broker;
use crate::route_broker::{
    logging_observer_key, logging_producer_key, published_route, RouteBrokerState,
};
use crate::service_control;
use crate::service_control::{
    logging_service_id, nullfs_service_id, tmpfs_service_id, vfs_service_id, CompleteError,
    ControlExchange, ControlReply,
};
use crate::supervisor;
use crate::supervisor::{ServiceRuntime, ServiceState};
use crate::syscall;
use crate::syscall::{try_wait_child, ChildStatus, ProcessId};
use vstd::prelude::*;

verus! {

/// The numbers under which the control tool finds its endpoints.
pub const SV_OBSERVATION_HANDLE: u64 = 1;

pub const SV_MUTATION_HANDLE: u64 = 2;

/// The number of the first restart that comes too early.
pub const PENDING_RESTART_REQUEST: u64 = 0x4c4f_4747_494e_4701;

/// The number of the second restart that comes too early.
pub const READY_RESTART_REQUEST: u64 = 0x4c4f_4747_494e_4702;

/// The number of the first request that is not supported.
pub const UNSUPPORTED_REQUEST: u64 = 0x4c4f_4747_494e_4710;

/// How many requests are not supported.
pub const UNSUPPORTED_REQUESTS: usize = 6;

/// How far the check has come.
#[derive(Clone, Copy, Debug, PartialEq, Eq, Structural)]
pub enum LoggingLifecycleCheckPhase {
    SpawnStop,
    WaitStopClient(ProcessId),
    WaitStopped,
    WaitStartClient(ProcessId),
    WaitReady,
    WaitReadyStatus(ProcessId),
    WaitRestartPending(ProcessId),
    WaitRestartResults(ProcessId),
    WaitRestartReady,
    WaitReadyDuplicate,
    WaitRestartFence,
    BeginUnsupported(usize),
    WaitUnsupported(usize),
    SpawnTmpfsRestart,
    WaitTmpfsRestartClient(ProcessId),
    WaitTmpfsReady,
    WaitVfsRestartClient(ProcessId),
    WaitVfsReady,
    SpawnReadinessTimeout,
    WaitReadinessRestartClient(ProcessId),
    WaitReadinessFailure,
    Complete,
}

/// What is said of the filesystem services.
#[derive(Clone, Copy, Debug, PartialEq, Eq, Structural)]
pub struct FilesystemRecords {
    pub nullfs: ServiceRecord,
    pub tmpfs: ServiceRecord,
    pub vfs: ServiceRecord,
}

/// The check, but for a request that is on its way.
#[derive(Clone, Copy, Debug, PartialEq, Eq, Structural)]
pub struct CheckState {
    pub phase: LoggingLifecycleCheckPhase,
    pub initial_generation: ProviderGeneration,
    pub initial_producer_object_id: u64,
    pub initial_observer_object_id: u64,
    pub started_generation: Option<ProviderGeneration>,
    pub started_producer_object_id: u64,
    pub started_observer_object_id: u64,
    pub initial_restart_count: u32,
    pub restart_routes_withdrawn: bool,
    pub restart_client_completed: bool,
    pub duplicate_restart_completed: bool,
    pub filesystem_records: FilesystemRecords,
}

/// The check.
///
/// A clone owns nothing: it is there to run a procedure again from the same state.
#[derive(Clone, Debug)]
pub struct LoggingLifecycleCheck {
    pub state: CheckState,
    pub pending_exchange: Option<ControlExchange>,
}

/// The check as the contracts see it.
pub ghost struct Check {
    pub state: CheckState,
    pub pending: Option<service_control::Exchange>,
}

impl View for LoggingLifecycleCheck {
    type V = Check;

    open spec fn view(&self) -> Check {
        Check {
            state: self.state,
            pending: match self.pending_exchange {
                Some(exchange) => Some(exchange@),
                None => None,
            },
        }
    }
}

/// Where the control tool gets its endpoints from.
#[derive(Clone, Copy, Debug, PartialEq, Eq, Structural)]
pub struct ControlSources {
    pub observation: CapabilityHandle,
    pub mutation: CapabilityHandle,
}

/// What the check looks at.
pub ghost struct Seen {
    pub service: supervisor::Service,
    pub lifecycle: LoggingLifecycle,
    pub routes: route_broker::Routes,
    pub sources: ControlSources,
    pub records: FilesystemRecords,
}

/// Giving up because the check has failed.
pub open spec fn failed<T>(k: kernel::Transcript) -> Run<T> {
    init_run::giving_up(k, Text::LoggingLifecycleTestFailed)
}

/// Running the control tool with one endpoint.
pub open spec fn spawn_sv_run(
    k: kernel::Transcript,
    command: Text,
    authority: CapabilityHandle,
    target: CapabilityHandle,
) -> Run<ProcessId> {
    probe::launch_run(
        k,
        command,
        false,
        seq![probe::sending(authority, target)],
        Text::LoggingLifecycleTestFailed,
    )
}

pub fn spawn_sv_command(
    k: &mut Kernel,
    command: Text,
    authority: CapabilityHandle,
    target_handle: CapabilityHandle,
) -> (result: Result<ProcessId, Halt>)
    ensures
        (final(k)@, result) == spawn_sv_run(old(k)@, command, authority, target_handle),
{
    let grants: [BootstrapCapability; 1] = [probe::sending(authority, target_handle)];
    assert(grants@ =~= seq![probe::sending(authority, target_handle)]);
    launch_tool(k, command, false, &grants, Text::LoggingLifecycleTestFailed)
}

/// Looking whether a tool has ended, and whether it was successful.
#[verifier::opaque]
pub open spec fn probe_run(k: kernel::Transcript, process_id: ProcessId) -> Run<Option<bool>> {
    init_run::bind(
        init_run::hear_run(syscall::try_wait_run(k, process_id)),
        |k: kernel::Transcript, polled: Result<ChildStatus, ipc::Error>|
            match polled {
                Ok(status) => init_run::end(
                    k,
                    if status.continued() || status.stopped_signal() is Some {
                        None
                    } else {
                        Some(status.success())
                    },
                ),
                Err(error) => if init_run::not_yet(error) {
                    init_run::end(k, None)
                } else {
                    failed(k)
                },
            },
    )
}

pub fn try_wait_probe(k: &mut Kernel, process_id: ProcessId) -> (result: Result<Option<bool>, Halt>)
    ensures
        (final(k)@, result) == probe_run(old(k)@, process_id),
{
    proof {
        reveal(probe_run);
    }
    match hear(try_wait_child(k, process_id))? {
        Ok(status) => {
            if status.continued() || status.stopped_signal().is_some() {
                Ok(None)
            } else {
                Ok(Some(status.success()))
            }
        },
        Err(error) => {
            if not_yet(error) {
                Ok(None)
            } else {
                Err(Halt::Failed(Text::LoggingLifecycleTestFailed))
            }
        },
    }
}

/// Looking whether both routes lead nowhere.
#[verifier::opaque]
pub open spec fn withdrawn_run(k: kernel::Transcript, routes: route_broker::Routes) -> Run<bool> {
    init_run::bind(
        route_broker::published_run(k, routes, logging_producer_key()),
        |k: kernel::Transcript, producer: Option<(ProviderGeneration, u64)>|
            if producer is Some {
                init_run::end(k, false)
            } else {
                init_run::bind(
                    route_broker::published_run(k, routes, logging_observer_key()),
                    |k: kernel::Transcript, observer: Option<(ProviderGeneration, u64)>|
                        init_run::end(k, observer is None),
                )
            },
    )
}

fn routes_withdrawn(k: &mut Kernel, route_broker: &RouteBrokerState) -> (result: Result<bool, Halt>)
    ensures
        (final(k)@, result) == withdrawn_run(old(k)@, route_broker@.routes),
{
    proof {
        reveal(withdrawn_run);
    }
    if published_route(k, route_broker, logging_producer_key())?.is_some() {
        return Ok(false);
    }
    Ok(published_route(k, route_broker, logging_observer_key())?.is_none())
}

/// Looking whether both routes lead to one generation and its objects.
#[verifier::opaque]
pub open spec fn leading_run(
    k: kernel::Transcript,
    routes: route_broker::Routes,
    generation: ProviderGeneration,
    producer_object: u64,
    observer_object: u64,
) -> Run<bool> {
    init_run::bind(
        route_broker::published_run(k, routes, logging_producer_key()),
        |k: kernel::Transcript, producer: Option<(ProviderGeneration, u64)>|
            if producer != Some((generation, producer_object)) {
                init_run::end(k, false)
            } else {
                init_run::bind(
                    route_broker::published_run(k, routes, logging_observer_key()),
                    |k: kernel::Transcript, observer: Option<(ProviderGeneration, u64)>|
                        init_run::end(k, observer == Some((generation, observer_object))),
                )
            },
    )
}

#[verifier::allow_in_spec]
fn is_route(
    route: Option<(ProviderGeneration, u64)>,
    generation: ProviderGeneration,
    object: u64,
) -> bool
    returns
        route == Some((generation, object)),
{
    match route {
        Some((found, found_object)) => found == generation && found_object == object,
        None => false,
    }
}

fn routes_lead(
    k: &mut Kernel,
    route_broker: &RouteBrokerState,
    generation: ProviderGeneration,
    producer_object: u64,
    observer_object: u64,
) -> (result: Result<bool, Halt>)
    ensures
        (final(k)@, result) == leading_run(
            old(k)@,
            route_broker@.routes,
            generation,
            producer_object,
            observer_object,
        ),
{
    proof {
        reveal(leading_run);
    }
    let producer = published_route(k, route_broker, logging_producer_key())?;
    if !is_route(producer, generation, producer_object) {
        return Ok(false);
    }
    let observer = published_route(k, route_broker, logging_observer_key())?;
    Ok(is_route(observer, generation, observer_object))
}

/// Beginning the check, which needs a logging service that runs and is published.
pub open spec fn new_run(
    k: kernel::Transcript,
    service: supervisor::Service,
    lifecycle: LoggingLifecycle,
    routes: route_broker::Routes,
    records: FilesystemRecords,
) -> Run<Check> {
    match lifecycle.current {
        None => failed(k),
        Some(generation) => if service.state != ServiceState::Running || service.desired_state
            != DesiredState::Running || !generation.routes_published {
            failed(k)
        } else {
            init_run::bind(
                leading_run(
                    k,
                    routes,
                    generation.generation,
                    generation.producer_object_id,
                    generation.observer_object_id,
                ),
                |k: kernel::Transcript, leading: bool|
                    if !leading {
                        failed(k)
                    } else {
                        init_run::end(
                            k,
                            Check {
                                state: CheckState {
                                    phase: LoggingLifecycleCheckPhase::SpawnStop,
                                    initial_generation: generation.generation,
                                    initial_producer_object_id: generation.producer_object_id,
                                    initial_observer_object_id: generation.observer_object_id,
                                    started_generation: None,
                                    started_producer_object_id: 0,
                                    started_observer_object_id: 0,
                                    initial_restart_count: service.restart_count,
                                    restart_routes_withdrawn: false,
                                    restart_client_completed: false,
                                    duplicate_restart_completed: false,
                                    filesystem_records: records,
                                },
                                pending: None,
                            },
                        )
                    },
            )
        },
    }
}

/// Sending a request to change something.
#[verifier::opaque]
pub open spec fn begin_mutation_run(
    k: kernel::Transcript,
    check: Check,
    mutation_source: CapabilityHandle,
    request_id: u64,
    request: ServiceControlRequest,
) -> Run<Check> {
    let text = Text::LoggingLifecycleTestFailed;
    if check.pending is Some {
        failed(k)
    } else {
        init_run::bind(
            init_run::need_run(
                ipc::value_run(
                    k,
                    Op::Duplicate { handle: mutation_source, rights: Rights::send().raw },
                ),
                text,
            ),
            |k: kernel::Transcript, authority: u64|
                match RequestId::new(request_id) {
                    None => failed(k),
                    Some(id) => init_run::bind(
                        init_run::need_run(
                            service_control::begin_run(
                                k,
                                authority,
                                ServiceControlMessage::request(id, request),
                                service_control::ensure_mutation(request),
                            ),
                            text,
                        ),
                        |k: kernel::Transcript, exchange: service_control::Exchange|
                            init_run::bind(
                                init_run::need_run(ipc::close_run(k, authority), text),
                                |k: kernel::Transcript, closed: ()|
                                    init_run::end(
                                        k,
                                        Check { pending: Some(exchange), ..check },
                                    ),
                            ),
                    ),
                },
        )
    }
}

/// Looking for the answer to the request that is on its way.
#[verifier::opaque]
pub open spec fn complete_mutation_run(k: kernel::Transcript, check: Check) -> Run<
    (Check, Option<ServiceControlResponse>),
> {
    match check.pending {
        None => failed(k),
        Some(exchange) => init_run::bind(
            init_run::hear_run(service_control::complete_run(k, exchange)),
            |
                k: kernel::Transcript,
                completed: (
                    service_control::Exchange,
                    Result<Option<ControlReply>, CompleteError>,
                ),
            |
                match completed.1 {
                    Err(_) => failed(k),
                    Ok(None) => init_run::end(
                        k,
                        (Check { pending: Some(completed.0), ..check }, None),
                    ),
                    Ok(Some(reply)) => if reply.server != INIT_PROCESS_ID {
                        failed(k)
                    } else {
                        init_run::end(k, (Check { pending: None, ..check }, Some(reply.answer)))
                    },
                },
        ),
    }
}

/// Whether a response refuses one operation on one service for one reason.
#[verifier::allow_in_spec]
pub fn refuses(
    response: ServiceControlResponse,
    operation: Operation,
    service: ServiceId,
    expected: ServiceControlFailure,
) -> bool
    returns
        (match response.target_response() {
            None => false,
            Some(target) => response.operation() == operation && target.service == service
                && target.outcome == TargetOutcome::Failure(expected),
        }),
{
    match response.target_response() {
        None => false,
        Some(target) => response.operation() == operation && target.service == service
            && target.outcome == TargetOutcome::Failure(expected),
    }
}

/// Gives up unless a response refuses one operation on one service for one reason.
pub fn require_control_failure(
    response: ServiceControlResponse,
    operation: Operation,
    service: ServiceId,
    expected: ServiceControlFailure,
) -> (result: Result<(), Halt>)
    ensures
        result == if refuses(response, operation, service, expected) {
            Ok::<(), Halt>(())
        } else {
            Err(Halt::Failed(Text::LoggingLifecycleTestFailed))
        },
{
    demand(
        refuses(response, operation, service, expected),
        Text::LoggingLifecycleTestFailed,
    )
}

/// The requests that the filesystem services do not support, in order.
#[verifier::allow_in_spec]
pub fn unsupported_request(index: usize) -> Option<ServiceControlRequest>
    returns
        (if index == 0 {
            Some(ServiceControlRequest::Stop { service: nullfs_service_id() })
        } else if index == 1 {
            Some(ServiceControlRequest::Start { service: nullfs_service_id() })
        } else if index == 2 {
            Some(ServiceControlRequest::Stop { service: tmpfs_service_id() })
        } else if index == 3 {
            Some(ServiceControlRequest::Start { service: tmpfs_service_id() })
        } else if index == 4 {
            Some(ServiceControlRequest::Stop { service: vfs_service_id() })
        } else if index == 5 {
            Some(ServiceControlRequest::Start { service: vfs_service_id() })
        } else {
            None
        }),
{
    if index == 0 {
        Some(ServiceControlRequest::Stop { service: nullfs_service_id() })
    } else if index == 1 {
        Some(ServiceControlRequest::Start { service: nullfs_service_id() })
    } else if index == 2 {
        Some(ServiceControlRequest::Stop { service: tmpfs_service_id() })
    } else if index == 3 {
        Some(ServiceControlRequest::Start { service: tmpfs_service_id() })
    } else if index == 4 {
        Some(ServiceControlRequest::Stop { service: vfs_service_id() })
    } else if index == 5 {
        Some(ServiceControlRequest::Start { service: vfs_service_id() })
    } else {
        None
    }
}

/// One request that the filesystem services do not support: what it asks for, of which service.
pub open spec fn unsupported(index: usize) -> Result<
    (Operation, ServiceId, ServiceControlRequest),
    Halt,
> {
    match unsupported_request(index) {
        None => Err(Halt::Failed(Text::LoggingLifecycleTestFailed)),
        Some(request) => Ok(
            (request.operation(), control_protocol::named_service(request), request),
        ),
    }
}

pub fn unsupported_filesystem_request(index: usize) -> (result: Result<
    (Operation, ServiceId, ServiceControlRequest),
    Halt,
>)
    ensures
        result == unsupported(index),
{
    match unsupported_request(index) {
        None => Err(Halt::Failed(Text::LoggingLifecycleTestFailed)),
        Some(request) => Ok(
            (request.operation(), control_protocol::named_service(request), request),
        ),
    }
}

/// The check in another phase.
pub open spec fn in_phase(check: Check, phase: LoggingLifecycleCheckPhase) -> Check {
    Check { state: CheckState { phase, ..check.state }, ..check }
}

/// Running the control tool and waiting for it in the next phase.
pub open spec fn spawn_step(
    k: kernel::Transcript,
    check: Check,
    command: Text,
    authority: CapabilityHandle,
    target: CapabilityHandle,
    next: spec_fn(ProcessId) -> LoggingLifecycleCheckPhase,
) -> Run<Check> {
    init_run::bind(
        spawn_sv_run(k, command, authority, target),
        |k: kernel::Transcript, process_id: u64|
            init_run::end(k, in_phase(check, next(process_id))),
    )
}

/// Waiting for the tool that stops the service.
pub open spec fn stop_client_step(
    k: kernel::Transcript,
    check: Check,
    seen: Seen,
    process_id: ProcessId,
) -> Run<Check> {
    init_run::bind(
        probe_run(k, process_id),
        |k: kernel::Transcript, probed: Option<bool>|
            match probed {
                None => init_run::end(k, check),
                Some(success) => if !success || seen.service.desired_state
                    != DesiredState::Stopped || (seen.service.state != ServiceState::Stopping
                    && seen.service.state != ServiceState::Stopped) {
                    failed(k)
                } else {
                    init_run::bind(
                        withdrawn_run(k, seen.routes),
                        |k: kernel::Transcript, withdrawn: bool|
                            if withdrawn {
                                init_run::end(
                                    k,
                                    in_phase(check, LoggingLifecycleCheckPhase::WaitStopped),
                                )
                            } else {
                                failed(k)
                            },
                    )
                },
            },
    )
}

/// Waiting for the service to be stopped, then starting it.
pub open spec fn stopped_step(k: kernel::Transcript, check: Check, seen: Seen) -> Run<Check> {
    if seen.service.state != ServiceState::Stopped {
        init_run::end(k, check)
    } else if seen.service.desired_state != DesiredState::Stopped || seen.lifecycle.current is Some
        || seen.service.restart_count != check.state.initial_restart_count {
        failed(k)
    } else {
        spawn_step(
            k,
            check,
            Text::SvStartLoggingCommand,
            seen.sources.mutation,
            SV_MUTATION_HANDLE,
            |process_id: ProcessId| LoggingLifecycleCheckPhase::WaitStartClient(process_id),
        )
    }
}

/// Waiting for the tool that starts the service.
pub open spec fn start_client_step(
    k: kernel::Transcript,
    check: Check,
    seen: Seen,
    process_id: ProcessId,
) -> Run<Check> {
    init_run::bind(
        probe_run(k, process_id),
        |k: kernel::Transcript, probed: Option<bool>|
            match probed {
                None => init_run::end(k, check),
                Some(success) => if !success || seen.service.desired_state
                    != DesiredState::Running {
                    failed(k)
                } else {
                    init_run::end(k, in_phase(check, LoggingLifecycleCheckPhase::WaitReady))
                },
            },
    )
}

/// The number after a generation, as far as numbers go.
#[verifier::allow_in_spec]
pub fn next_number(generation: ProviderGeneration) -> u64
    returns
        (if generation.raw == u64::MAX {
            u64::MAX
        } else {
            (generation.raw + 1) as u64
        }),
{
    if generation.raw == u64::MAX {
        u64::MAX
    } else {
        generation.raw + 1
    }
}

/// Waiting for the started service to be ready: it has a newer generation and new objects.
pub open spec fn ready_step(k: kernel::Transcript, check: Check, seen: Seen) -> Run<Check> {
    let state = check.state;
    if seen.service.state != ServiceState::Running {
        init_run::end(k, check)
    } else {
        match seen.lifecycle.current {
            None => failed(k),
            Some(generation) => if seen.service.restart_count != state.initial_restart_count
                || generation.generation.raw != next_number(state.initial_generation)
                || generation.producer_object_id == state.initial_producer_object_id
                || generation.observer_object_id == state.initial_observer_object_id {
                failed(k)
            } else {
                let started = Check {
                    state: CheckState {
                        started_generation: Some(generation.generation),
                        started_producer_object_id: generation.producer_object_id,
                        started_observer_object_id: generation.observer_object_id,
                        ..state
                    },
                    ..check
                };
                init_run::bind(
                    leading_run(
                        k,
                        seen.routes,
                        generation.generation,
                        generation.producer_object_id,
                        generation.observer_object_id,
                    ),
                    |k: kernel::Transcript, leading: bool|
                        if !leading {
                            failed(k)
                        } else {
                            spawn_step(
                                k,
                                started,
                                Text::SvStatusLoggingCommand,
                                seen.sources.observation,
                                SV_OBSERVATION_HANDLE,
                                |process_id: ProcessId|
                                    LoggingLifecycleCheckPhase::WaitReadyStatus(process_id),
                            )
                        },
                )
            },
        }
    }
}

/// Waiting for a tool that has to be successful, then running the next one.
pub open spec fn ready_status_step(
    k: kernel::Transcript,
    check: Check,
    seen: Seen,
    process_id: ProcessId,
) -> Run<Check> {
    init_run::bind(
        probe_run(k, process_id),
        |k: kernel::Transcript, probed: Option<bool>|
            match probed {
                None => init_run::end(k, check),
                Some(false) => failed(k),
                Some(true) => spawn_step(
                    k,
                    check,
                    Text::SvRestartLoggingCommand,
                    seen.sources.mutation,
                    SV_MUTATION_HANDLE,
                    |process_id: ProcessId|
                        LoggingLifecycleCheckPhase::WaitRestartPending(process_id),
                ),
            },
    )
}

/// Taking note of whether the routes were ever withdrawn during the restart.
pub open spec fn note_routes_run(k: kernel::Transcript, check: Check, seen: Seen) -> Run<Check> {
    init_run::bind(
        withdrawn_run(k, seen.routes),
        |k: kernel::Transcript, withdrawn: bool|
            init_run::end(
                k,
                Check {
                    state: CheckState {
                        restart_routes_withdrawn: check.state.restart_routes_withdrawn
                            || withdrawn,
                        ..check.state
                    },
                    ..check
                },
            ),
    )
}

/// Waiting for the restart to be on its way, then asking for another.
pub open spec fn restart_pending_step(
    k: kernel::Transcript,
    check: Check,
    seen: Seen,
    process_id: ProcessId,
) -> Run<Check> {
    init_run::bind(
        note_routes_run(k, check, seen),
        |k: kernel::Transcript, noted: Check|
            if !seen.service.restart_pending {
                init_run::bind(
                    probe_run(k, process_id),
                    |k: kernel::Transcript, probed: Option<bool>|
                        if probed == Some(false) {
                            failed(k)
                        } else {
                            init_run::end(k, noted)
                        },
                )
            } else if seen.service.desired_state != DesiredState::Running {
                failed(k)
            } else {
                init_run::bind(
                    begin_mutation_run(
                        k,
                        noted,
                        seen.sources.mutation,
                        PENDING_RESTART_REQUEST,
                        ServiceControlRequest::Restart { service: logging_service_id() },
                    ),
                    |k: kernel::Transcript, begun: Check|
                        init_run::end(
                            k,
                            in_phase(
                                begun,
                                LoggingLifecycleCheckPhase::WaitRestartResults(process_id),
                            ),
                        ),
                )
            },
    )
}

/// Looking whether the tool that restarts the service has ended, unless that is known.
pub open spec fn restart_client_run(k: kernel::Transcript, check: Check, process_id: ProcessId) -> Run<
    Check,
> {
    if check.state.restart_client_completed {
        init_run::end(k, check)
    } else {
        init_run::bind(
            probe_run(k, process_id),
            |k: kernel::Transcript, probed: Option<bool>|
                match probed {
                    None => init_run::end(k, check),
                    Some(false) => failed(k),
                    Some(true) => init_run::end(
                        k,
                        Check {
                            state: CheckState { restart_client_completed: true, ..check.state },
                            ..check
                        },
                    ),
                },
        )
    }
}

/// Looking whether the restart that came too early was refused, unless that is known.
pub open spec fn duplicate_run(k: kernel::Transcript, check: Check) -> Run<Check> {
    if check.state.duplicate_restart_completed {
        init_run::end(k, check)
    } else {
        init_run::bind(
            complete_mutation_run(k, check),
            |k: kernel::Transcript, completed: (Check, Option<ServiceControlResponse>)|
                match completed.1 {
                    None => init_run::end(k, completed.0),
                    Some(response) => if !refuses(
                        response,
                        Operation::Restart,
                        logging_service_id(),
                        ServiceControlFailure::Busy,
                    ) {
                        failed(k)
                    } else {
                        init_run::end(
                            k,
                            Check {
                                state: CheckState {
                                    duplicate_restart_completed: true,
                                    ..completed.0.state
                                },
                                ..completed.0
                            },
                        )
                    },
                },
        )
    }
}

/// Waiting for both the tool and the answer to the restart that came too early.
pub open spec fn restart_results_step(
    k: kernel::Transcript,
    check: Check,
    seen: Seen,
    process_id: ProcessId,
) -> Run<Check> {
    init_run::bind(
        note_routes_run(k, check, seen),
        |k: kernel::Transcript, noted: Check|
            init_run::bind(
                restart_client_run(k, noted, process_id),
                |k: kernel::Transcript, probed: Check|
                    init_run::bind(
                        duplicate_run(k, probed),
                        |k: kernel::Transcript, answered: Check|
                            init_run::end(
                                k,
                                if answered.state.restart_client_completed
                                    && answered.state.duplicate_restart_completed {
                                    in_phase(
                                        answered,
                                        LoggingLifecycleCheckPhase::WaitRestartReady,
                                    )
                                } else {
                                    answered
                                },
                            ),
                    ),
            ),
    )
}

/// Waiting for the restarted service to be ready: its routes were withdrawn in between, and it
/// has a newer generation and new objects. A restart that comes now is still too early.
pub open spec fn restart_ready_step(k: kernel::Transcript, check: Check, seen: Seen) -> Run<
    Check,
> {
    init_run::bind(
        note_routes_run(k, check, seen),
        |k: kernel::Transcript, noted: Check|
            if seen.service.state != ServiceState::Running {
                init_run::end(k, noted)
            } else {
                restarted_run(k, noted, seen)
            },
    )
}

pub open spec fn restarted_run(k: kernel::Transcript, check: Check, seen: Seen) -> Run<Check> {
    let state = check.state;
    match (state.started_generation, seen.lifecycle.current) {
        (Some(previous), Some(generation)) => if !state.restart_routes_withdrawn
            || !seen.service.restart_pending || seen.service.restart_count
            != state.initial_restart_count || generation.generation.raw != next_number(previous)
            || generation.producer_object_id == state.started_producer_object_id
            || generation.observer_object_id == state.started_observer_object_id {
            failed(k)
        } else {
            init_run::bind(
                leading_run(
                    k,
                    seen.routes,
                    generation.generation,
                    generation.producer_object_id,
                    generation.observer_object_id,
                ),
                |k: kernel::Transcript, leading: bool|
                    if !leading {
                        failed(k)
                    } else {
                        init_run::bind(
                            begin_mutation_run(
                                k,
                                check,
                                seen.sources.mutation,
                                READY_RESTART_REQUEST,
                                ServiceControlRequest::Restart { service: logging_service_id() },
                            ),
                            |k: kernel::Transcript, begun: Check|
                                init_run::end(
                                    k,
                                    in_phase(
                                        begun,
                                        LoggingLifecycleCheckPhase::WaitReadyDuplicate,
                                    ),
                                ),
                        )
                    },
            )
        },
        _ => failed(k),
    }
}

/// Waiting for the second restart that came too early to be refused.
pub open spec fn ready_duplicate_step(k: kernel::Transcript, check: Check) -> Run<Check> {
    init_run::bind(
        complete_mutation_run(k, check),
        |k: kernel::Transcript, completed: (Check, Option<ServiceControlResponse>)|
            match completed.1 {
                None => init_run::end(k, completed.0),
                Some(response) => if !refuses(
                    response,
                    Operation::Restart,
                    logging_service_id(),
                    ServiceControlFailure::Busy,
                ) {
                    failed(k)
                } else {
                    init_run::end(
                        k,
                        in_phase(completed.0, LoggingLifecycleCheckPhase::WaitRestartFence),
                    )
                },
            },
    )
}

/// Sending a request that is not supported.
pub open spec fn begin_unsupported_step(
    k: kernel::Transcript,
    check: Check,
    seen: Seen,
    index: usize,
) -> Run<Check> {
    match unsupported(index) {
        Err(halt) => (k, Err(halt)),
        Ok((operation, service, request)) => init_run::bind(
            begin_mutation_run(
                k,
                check,
                seen.sources.mutation,
                (UNSUPPORTED_REQUEST + index) as u64,
                request,
            ),
            |k: kernel::Transcript, begun: Check|
                init_run::end(
                    k,
                    in_phase(begun, LoggingLifecycleCheckPhase::WaitUnsupported(index)),
                ),
        ),
    }
}

/// Waiting for a request that is not supported to be refused, which changes no service.
pub open spec fn unsupported_step(
    k: kernel::Transcript,
    check: Check,
    seen: Seen,
    index: usize,
) -> Run<Check> {
    init_run::bind(
        complete_mutation_run(k, check),
        |k: kernel::Transcript, completed: (Check, Option<ServiceControlResponse>)|
            match completed.1 {
                None => init_run::end(k, completed.0),
                Some(response) => match unsupported(index) {
                    Err(halt) => (k, Err(halt)),
                    Ok((operation, service, request)) => if !refuses(
                        response,
                        operation,
                        service,
                        ServiceControlFailure::Unsupported,
                    ) || seen.records != check.state.filesystem_records {
                        failed(k)
                    } else {
                        init_run::end(
                            k,
                            in_phase(
                                completed.0,
                                if index + 1 == UNSUPPORTED_REQUESTS {
                                    LoggingLifecycleCheckPhase::SpawnTmpfsRestart
                                } else {
                                    LoggingLifecycleCheckPhase::BeginUnsupported(
                                        (index + 1) as usize,
                                    )
                                },
                            ),
                        )
                    },
                },
            },
    )
}

/// Waiting for a tool that has to be successful.
pub open spec fn client_step(
    k: kernel::Transcript,
    check: Check,
    process_id: ProcessId,
    next: LoggingLifecycleCheckPhase,
) -> Run<Check> {
    init_run::bind(
        probe_run(k, process_id),
        |k: kernel::Transcript, probed: Option<bool>|
            match probed {
                None => init_run::end(k, check),
                Some(false) => failed(k),
                Some(true) => init_run::end(k, in_phase(check, next)),
            },
    )
}

/// Whether a record is the one that follows another: the same service runs with the next
/// generation.
#[verifier::allow_in_spec]
pub fn follows(previous: ServiceRecord, current: ServiceRecord, service: ServiceId) -> bool
    returns
        (match (previous.generation, current.generation) {
            (Some(before), Some(after)) => current.service == service && current.desired
                == DesiredState::Running && after.raw == next_number(before),
            _ => false,
        }),
{
    match (previous.generation, current.generation) {
        (Some(before), Some(after)) => current.service == service && current.desired
            == DesiredState::Running && after.raw == next_number(before),
        _ => false,
    }
}

/// Waiting for the restarted temporary filesystem to be ready, then restarting the router.
pub open spec fn tmpfs_ready_step(k: kernel::Transcript, check: Check, seen: Seen) -> Run<Check> {
    let before = check.state.filesystem_records;
    if seen.records.tmpfs.observed != ObservedState::Ready {
        init_run::end(k, check)
    } else if seen.records.nullfs != before.nullfs || !follows(
        before.tmpfs,
        seen.records.tmpfs,
        tmpfs_service_id(),
    ) {
        failed(k)
    } else {
        spawn_step(
            k,
            Check {
                state: CheckState {
                    filesystem_records: FilesystemRecords {
                        tmpfs: seen.records.tmpfs,
                        ..before
                    },
                    ..check.state
                },
                ..check
            },
            Text::SvRestartVfsCommand,
            seen.sources.mutation,
            SV_MUTATION_HANDLE,
            |process_id: ProcessId| LoggingLifecycleCheckPhase::WaitVfsRestartClient(process_id),
        )
    }
}

/// Waiting for the restarted router to be ready.
pub open spec fn vfs_ready_step(k: kernel::Transcript, check: Check, seen: Seen) -> Run<Check> {
    let before = check.state.filesystem_records;
    if seen.records.vfs.observed != ObservedState::Ready {
        init_run::end(k, check)
    } else if seen.records.nullfs != before.nullfs || seen.records.tmpfs != before.tmpfs
        || !follows(before.vfs, seen.records.vfs, vfs_service_id()) {
        failed(k)
    } else {
        init_run::end(
            k,
            in_phase(
                Check {
                    state: CheckState {
                        filesystem_records: FilesystemRecords {
                            vfs: seen.records.vfs,
                            ..before
                        },
                        ..check.state
                    },
                    ..check
                },
                LoggingLifecycleCheckPhase::SpawnReadinessTimeout,
            ),
        )
    }
}

/// Waiting for the tool that restarts a service which will never be ready.
pub open spec fn readiness_client_step(
    k: kernel::Transcript,
    check: Check,
    seen: Seen,
    process_id: ProcessId,
) -> Run<Check> {
    init_run::bind(
        probe_run(k, process_id),
        |k: kernel::Transcript, probed: Option<bool>|
            match probed {
                None => init_run::end(k, check),
                Some(success) => if !success || seen.service.desired_state
                    != DesiredState::Running || !seen.service.restart_pending {
                    failed(k)
                } else {
                    init_run::bind(
                        withdrawn_run(k, seen.routes),
                        |k: kernel::Transcript, withdrawn: bool|
                            if withdrawn {
                                init_run::end(
                                    k,
                                    in_phase(
                                        check,
                                        LoggingLifecycleCheckPhase::WaitReadinessFailure,
                                    ),
                                )
                            } else {
                                failed(k)
                            },
                    )
                },
            },
    )
}

/// Waiting for a service that is never ready to be given up: its restarts are used up, nothing of
/// it is left, and it has no routes.
pub open spec fn readiness_failure_step(k: kernel::Transcript, check: Check, seen: Seen) -> Run<
    Check,
> {
    let service = seen.service;
    if service.state != ServiceState::Failed {
        init_run::end(k, check)
    } else if service.desired_state != DesiredState::Running || service.process_id is Some
        || service.restart_pending || service.restart_count != SERVICE_RESTART_LIMIT
        || seen.lifecycle.current is Some {
        failed(k)
    } else {
        init_run::bind(
            withdrawn_run(k, seen.routes),
            |k: kernel::Transcript, withdrawn: bool|
                if !withdrawn {
                    failed(k)
                } else {
                    init_run::bind(
                        init_run::announce_run(k, Text::LoggingLifecycleTestPassed),
                        |k: kernel::Transcript, said: ()|
                            init_run::end(
                                k,
                                in_phase(check, LoggingLifecycleCheckPhase::Complete),
                            ),
                    )
                },
        )
    }
}

/// One step of the check.
pub open spec fn advance_run(k: kernel::Transcript, check: Check, seen: Seen) -> Run<Check> {
    match check.state.phase {
        LoggingLifecycleCheckPhase::SpawnStop => spawn_step(
            k,
            check,
            Text::SvStopLoggingCommand,
            seen.sources.mutation,
            SV_MUTATION_HANDLE,
            |process_id: ProcessId| LoggingLifecycleCheckPhase::WaitStopClient(process_id),
        ),
        LoggingLifecycleCheckPhase::WaitStopClient(process_id) => stop_client_step(
            k,
            check,
            seen,
            process_id,
        ),
        LoggingLifecycleCheckPhase::WaitStopped => stopped_step(k, check, seen),
        LoggingLifecycleCheckPhase::WaitStartClient(process_id) => start_client_step(
            k,
            check,
            seen,
            process_id,
        ),
        LoggingLifecycleCheckPhase::WaitReady => ready_step(k, check, seen),
        LoggingLifecycleCheckPhase::WaitReadyStatus(process_id) => ready_status_step(
            k,
            check,
            seen,
            process_id,
        ),
        LoggingLifecycleCheckPhase::WaitRestartPending(process_id) => restart_pending_step(
            k,
            check,
            seen,
            process_id,
        ),
        LoggingLifecycleCheckPhase::WaitRestartResults(process_id) => restart_results_step(
            k,
            check,
            seen,
            process_id,
        ),
        LoggingLifecycleCheckPhase::WaitRestartReady => restart_ready_step(k, check, seen),
        LoggingLifecycleCheckPhase::WaitReadyDuplicate => ready_duplicate_step(k, check),
        LoggingLifecycleCheckPhase::WaitRestartFence => init_run::end(
            k,
            if seen.service.restart_pending {
                check
            } else {
                in_phase(check, LoggingLifecycleCheckPhase::BeginUnsupported(0))
            },
        ),
        LoggingLifecycleCheckPhase::BeginUnsupported(index) => begin_unsupported_step(
            k,
            check,
            seen,
            index,
        ),
        LoggingLifecycleCheckPhase::WaitUnsupported(index) => unsupported_step(
            k,
            check,
            seen,
            index,
        ),
        LoggingLifecycleCheckPhase::SpawnTmpfsRestart => spawn_step(
            k,
            check,
            Text::SvRestartTmpfsCommand,
            seen.sources.mutation,
            SV_MUTATION_HANDLE,
            |process_id: ProcessId| LoggingLifecycleCheckPhase::WaitTmpfsRestartClient(process_id),
        ),
        LoggingLifecycleCheckPhase::WaitTmpfsRestartClient(process_id) => client_step(
            k,
            check,
            process_id,
            LoggingLifecycleCheckPhase::WaitTmpfsReady,
        ),
        LoggingLifecycleCheckPhase::WaitTmpfsReady => tmpfs_ready_step(k, check, seen),
        LoggingLifecycleCheckPhase::WaitVfsRestartClient(process_id) => client_step(
            k,
            check,
            process_id,
            LoggingLifecycleCheckPhase::WaitVfsReady,
        ),
        LoggingLifecycleCheckPhase::WaitVfsReady => vfs_ready_step(k, check, seen),
        LoggingLifecycleCheckPhase::SpawnReadinessTimeout => spawn_step(
            k,
            check,
            Text::SvRestartLoggingCommand,
            seen.sources.mutation,
            SV_MUTATION_HANDLE,
            |process_id: ProcessId|
                LoggingLifecycleCheckPhase::WaitReadinessRestartClient(process_id),
        ),
        LoggingLifecycleCheckPhase::WaitReadinessRestartClient(process_id) =>
        readiness_client_step(k, check, seen, process_id),
        LoggingLifecycleCheckPhase::WaitReadinessFailure => readiness_failure_step(
            k,
            check,
            seen,
        ),
        LoggingLifecycleCheckPhase::Complete => init_run::end(k, check),
    }
}

/// Whether a step came to what its run says.
pub open spec fn stepped(
    run: Run<Check>,
    k: kernel::Transcript,
    check: Check,
    result: Result<(), Halt>,
) -> bool {
    &&& k == run.0
    &&& match result {
        Ok(_) => run.1 == Ok::<_, Halt>(check),
        Err(halt) => run.1 == Err::<Check, _>(halt),
    }
}

impl LoggingLifecycleCheck {
    pub fn new(
        k: &mut Kernel,
        service: &ServiceRuntime,
        lifecycle: &LoggingLifecycle,
        route_broker: &RouteBrokerState,
        filesystem_records: FilesystemRecords,
    ) -> (result: Result<Self, Halt>)
        ensures
            ({
                let (asked, outcome) = new_run(
                    old(k)@,
                    service@,
                    *lifecycle,
                    route_broker@.routes,
                    filesystem_records,
                );
                &&& final(k)@ == asked
                &&& match result {
                    Ok(check) => outcome == Ok::<_, Halt>(check@),
                    Err(halt) => outcome == Err::<Check, _>(halt),
                }
            }),
    {
        let generation = match lifecycle.current {
            Some(generation) => generation,
            None => {
                return Err(Halt::Failed(Text::LoggingLifecycleTestFailed));
            },
        };
        if service.state() != ServiceState::Running || service.desired_state()
            != DesiredState::Running || !generation.routes_published {
            return Err(Halt::Failed(Text::LoggingLifecycleTestFailed));
        }
        let leading = routes_lead(
            k,
            route_broker,
            generation.generation,
            generation.producer_object_id,
            generation.observer_object_id,
        )?;
        demand(leading, Text::LoggingLifecycleTestFailed)?;
        Ok(
            LoggingLifecycleCheck {
                state: CheckState {
                    phase: LoggingLifecycleCheckPhase::SpawnStop,
                    initial_generation: generation.generation,
                    initial_producer_object_id: generation.producer_object_id,
                    initial_observer_object_id: generation.observer_object_id,
                    started_generation: None,
                    started_producer_object_id: 0,
                    started_observer_object_id: 0,
                    initial_restart_count: service.restart_count(),
                    restart_routes_withdrawn: false,
                    restart_client_completed: false,
                    duplicate_restart_completed: false,
                    filesystem_records,
                },
                pending_exchange: None,
            },
        )
    }

    pub fn begin_mutation(
        &mut self,
        k: &mut Kernel,
        sources: ControlSources,
        request_id: u64,
        request: ServiceControlRequest,
    ) -> (result: Result<(), Halt>)
        ensures
            stepped(
                begin_mutation_run(old(k)@, old(self)@, sources.mutation, request_id, request),
                final(k)@,
                final(self)@,
                result,
            ),
    {
        proof {
            reveal(begin_mutation_run);
        }
        let text = Text::LoggingLifecycleTestFailed;
        if self.pending_exchange.is_some() {
            return Err(Halt::Failed(text));
        }
        let authority = need(ipc::duplicate(k, sources.mutation, Rights::send()), text)?;
        let id = match RequestId::new(request_id) {
            Some(id) => id,
            None => {
                return Err(Halt::Failed(text));
            },
        };
        let exchange = need(ControlExchange::begin_mutation(k, authority, id, request), text)?;
        need(ipc::close(k, authority), text)?;
        self.pending_exchange = Some(exchange);
        Ok(())
    }

    pub fn try_complete_mutation(&mut self, k: &mut Kernel) -> (result: Result<
        Option<ServiceControlResponse>,
        Halt,
    >)
        ensures
            ({
                let (asked, outcome) = complete_mutation_run(old(k)@, old(self)@);
                &&& final(k)@ == asked
                &&& init_run::came_to(outcome, final(self)@, result)
            }),
    {
        proof {
            reveal(complete_mutation_run);
        }
        let mut exchange = match self.pending_exchange.take() {
            Some(exchange) => exchange,
            None => {
                return Err(Halt::Failed(Text::LoggingLifecycleTestFailed));
            },
        };
        let reply = match hear(exchange.try_complete(k))? {
            Ok(Some(reply)) => reply,
            Ok(None) => {
                self.pending_exchange = Some(exchange);
                return Ok(None);
            },
            Err(_) => {
                return Err(Halt::Failed(Text::LoggingLifecycleTestFailed));
            },
        };
        if reply.server_process_id() != INIT_PROCESS_ID {
            return Err(Halt::Failed(Text::LoggingLifecycleTestFailed));
        }
        Ok(Some(reply.response()))
    }

    pub fn note_restart_route_state(&mut self, k: &mut Kernel, route_broker: &RouteBrokerState) -> (result:
        Result<(), Halt>)
        ensures
            forall|seen: Seen|
                seen.routes == route_broker@.routes ==> #[trigger] stepped(
                    note_routes_run(old(k)@, old(self)@, seen),
                    final(k)@,
                    final(self)@,
                    result,
                ),
    {
        if routes_withdrawn(k, route_broker)? {
            self.state.restart_routes_withdrawn = true;
        }
        Ok(())
    }

    fn stop_client(
        &mut self,
        k: &mut Kernel,
        service: &ServiceRuntime,
        route_broker: &RouteBrokerState,
        process_id: ProcessId,
        Ghost(seen): Ghost<Seen>,
    ) -> (result: Result<(), Halt>)
        requires
            seen.service == service@,
            seen.routes == route_broker@.routes,
        ensures
            stepped(
                stop_client_step(old(k)@, old(self)@, seen, process_id),
                final(k)@,
                final(self)@,
                result,
            ),
    {
        if let Some(success) = try_wait_probe(k, process_id)? {
            if !success || service.desired_state() != DesiredState::Stopped || (service.state()
                != ServiceState::Stopping && service.state() != ServiceState::Stopped) {
                return Err(Halt::Failed(Text::LoggingLifecycleTestFailed));
            }
            let withdrawn = routes_withdrawn(k, route_broker)?;
            demand(withdrawn, Text::LoggingLifecycleTestFailed)?;
            self.state.phase = LoggingLifecycleCheckPhase::WaitStopped;
        }
        Ok(())
    }

    fn stopped(
        &mut self,
        k: &mut Kernel,
        service: &ServiceRuntime,
        lifecycle: &LoggingLifecycle,
        sources: ControlSources,
        Ghost(seen): Ghost<Seen>,
    ) -> (result: Result<(), Halt>)
        requires
            seen.service == service@,
            seen.lifecycle == *lifecycle,
            seen.sources == sources,
        ensures
            stepped(
                stopped_step(old(k)@, old(self)@, seen),
                final(k)@,
                final(self)@,
                result,
            ),
    {
        if service.state() != ServiceState::Stopped {
            return Ok(());
        }
        if service.desired_state() != DesiredState::Stopped || lifecycle.current.is_some()
            || service.restart_count() != self.state.initial_restart_count {
            return Err(Halt::Failed(Text::LoggingLifecycleTestFailed));
        }
        let process_id = spawn_sv_command(
            k,
            Text::SvStartLoggingCommand,
            sources.mutation,
            SV_MUTATION_HANDLE,
        )?;
        self.state.phase = LoggingLifecycleCheckPhase::WaitStartClient(process_id);
        Ok(())
    }

    fn ready(
        &mut self,
        k: &mut Kernel,
        service: &ServiceRuntime,
        lifecycle: &LoggingLifecycle,
        route_broker: &RouteBrokerState,
        sources: ControlSources,
        Ghost(seen): Ghost<Seen>,
    ) -> (result: Result<(), Halt>)
        requires
            seen.service == service@,
            seen.lifecycle == *lifecycle,
            seen.routes == route_broker@.routes,
            seen.sources == sources,
        ensures
            stepped(ready_step(old(k)@, old(self)@, seen), final(k)@, final(self)@, result),
    {
        if service.state() != ServiceState::Running {
            return Ok(());
        }
        let generation = match lifecycle.current {
            Some(generation) => generation,
            None => {
                return Err(Halt::Failed(Text::LoggingLifecycleTestFailed));
            },
        };
        if service.restart_count() != self.state.initial_restart_count
            || generation.generation.get() != next_number(self.state.initial_generation)
            || generation.producer_object_id == self.state.initial_producer_object_id
            || generation.observer_object_id == self.state.initial_observer_object_id {
            return Err(Halt::Failed(Text::LoggingLifecycleTestFailed));
        }
        let leading = routes_lead(
            k,
            route_broker,
            generation.generation,
            generation.producer_object_id,
            generation.observer_object_id,
        )?;
        demand(leading, Text::LoggingLifecycleTestFailed)?;
        self.state.started_generation = Some(generation.generation);
        self.state.started_producer_object_id = generation.producer_object_id;
        self.state.started_observer_object_id = generation.observer_object_id;
        let process_id = spawn_sv_command(
            k,
            Text::SvStatusLoggingCommand,
            sources.observation,
            SV_OBSERVATION_HANDLE,
        )?;
        self.state.phase = LoggingLifecycleCheckPhase::WaitReadyStatus(process_id);
        Ok(())
    }

    fn restart_pending(
        &mut self,
        k: &mut Kernel,
        service: &ServiceRuntime,
        route_broker: &RouteBrokerState,
        sources: ControlSources,
        process_id: ProcessId,
        Ghost(seen): Ghost<Seen>,
    ) -> (result: Result<(), Halt>)
        requires
            seen.service == service@,
            seen.routes == route_broker@.routes,
            seen.sources == sources,
        ensures
            stepped(
                restart_pending_step(old(k)@, old(self)@, seen, process_id),
                final(k)@,
                final(self)@,
                result,
            ),
    {
        let noted = self.note_restart_route_state(k, route_broker);
        assert(stepped(note_routes_run(old(k)@, old(self)@, seen), k@, self@, noted));
        noted?;
        if !service.controlled_restart_pending() {
            if let Some(success) = try_wait_probe(k, process_id)? {
                demand(success, Text::LoggingLifecycleTestFailed)?;
            }
            return Ok(());
        }
        if service.desired_state() != DesiredState::Running {
            return Err(Halt::Failed(Text::LoggingLifecycleTestFailed));
        }
        self.begin_mutation(
            k,
            sources,
            PENDING_RESTART_REQUEST,
            ServiceControlRequest::Restart { service: logging_service_id() },
        )?;
        self.state.phase = LoggingLifecycleCheckPhase::WaitRestartResults(process_id);
        Ok(())
    }

    fn duplicate(&mut self, k: &mut Kernel) -> (result: Result<(), Halt>)
        ensures
            stepped(duplicate_run(old(k)@, old(self)@), final(k)@, final(self)@, result),
    {
        if self.state.duplicate_restart_completed {
            return Ok(());
        }
        if let Some(response) = self.try_complete_mutation(k)? {
            require_control_failure(
                response,
                Operation::Restart,
                logging_service_id(),
                ServiceControlFailure::Busy,
            )?;
            self.state.duplicate_restart_completed = true;
        }
        Ok(())
    }

    fn restart_client(&mut self, k: &mut Kernel, process_id: ProcessId) -> (result: Result<
        (),
        Halt,
    >)
        ensures
            stepped(
                restart_client_run(old(k)@, old(self)@, process_id),
                final(k)@,
                final(self)@,
                result,
            ),
    {
        if self.state.restart_client_completed {
            return Ok(());
        }
        if let Some(success) = try_wait_probe(k, process_id)? {
            demand(success, Text::LoggingLifecycleTestFailed)?;
            self.state.restart_client_completed = true;
        }
        Ok(())
    }

    fn restart_results(
        &mut self,
        k: &mut Kernel,
        route_broker: &RouteBrokerState,
        process_id: ProcessId,
        Ghost(seen): Ghost<Seen>,
    ) -> (result: Result<(), Halt>)
        requires
            seen.routes == route_broker@.routes,
        ensures
            stepped(
                restart_results_step(old(k)@, old(self)@, seen, process_id),
                final(k)@,
                final(self)@,
                result,
            ),
    {
        let noted = self.note_restart_route_state(k, route_broker);
        assert(stepped(note_routes_run(old(k)@, old(self)@, seen), k@, self@, noted));
        noted?;
        self.restart_client(k, process_id)?;
        self.duplicate(k)?;
        if self.state.restart_client_completed && self.state.duplicate_restart_completed {
            self.state.phase = LoggingLifecycleCheckPhase::WaitRestartReady;
        }
        Ok(())
    }

    fn restart_ready(
        &mut self,
        k: &mut Kernel,
        service: &ServiceRuntime,
        lifecycle: &LoggingLifecycle,
        route_broker: &RouteBrokerState,
        sources: ControlSources,
        Ghost(seen): Ghost<Seen>,
    ) -> (result: Result<(), Halt>)
        requires
            seen.service == service@,
            seen.lifecycle == *lifecycle,
            seen.routes == route_broker@.routes,
            seen.sources == sources,
        ensures
            stepped(
                restart_ready_step(old(k)@, old(self)@, seen),
                final(k)@,
                final(self)@,
                result,
            ),
    {
        let noted = self.note_restart_route_state(k, route_broker);
        assert(stepped(note_routes_run(old(k)@, old(self)@, seen), k@, self@, noted));
        noted?;
        if service.state() != ServiceState::Running {
            return Ok(());
        }
        let (previous, generation) = match (self.state.started_generation, lifecycle.current) {
            (Some(previous), Some(generation)) => (previous, generation),
            _ => {
                return Err(Halt::Failed(Text::LoggingLifecycleTestFailed));
            },
        };
        if !self.state.restart_routes_withdrawn || !service.controlled_restart_pending()
            || service.restart_count() != self.state.initial_restart_count
            || generation.generation.get() != next_number(previous)
            || generation.producer_object_id == self.state.started_producer_object_id
            || generation.observer_object_id == self.state.started_observer_object_id {
            return Err(Halt::Failed(Text::LoggingLifecycleTestFailed));
        }
        let leading = routes_lead(
            k,
            route_broker,
            generation.generation,
            generation.producer_object_id,
            generation.observer_object_id,
        )?;
        demand(leading, Text::LoggingLifecycleTestFailed)?;
        self.begin_mutation(
            k,
            sources,
            READY_RESTART_REQUEST,
            ServiceControlRequest::Restart { service: logging_service_id() },
        )?;
        self.state.phase = LoggingLifecycleCheckPhase::WaitReadyDuplicate;
        Ok(())
    }

    fn ready_duplicate(&mut self, k: &mut Kernel) -> (result: Result<(), Halt>)
        ensures
            stepped(ready_duplicate_step(old(k)@, old(self)@), final(k)@, final(self)@, result),
    {
        if let Some(response) = self.try_complete_mutation(k)? {
            require_control_failure(
                response,
                Operation::Restart,
                logging_service_id(),
                ServiceControlFailure::Busy,
            )?;
            self.state.phase = LoggingLifecycleCheckPhase::WaitRestartFence;
        }
        Ok(())
    }

    fn begin_unsupported(
        &mut self,
        k: &mut Kernel,
        sources: ControlSources,
        index: usize,
        Ghost(seen): Ghost<Seen>,
    ) -> (result: Result<(), Halt>)
        requires
            seen.sources == sources,
        ensures
            stepped(
                begin_unsupported_step(old(k)@, old(self)@, seen, index),
                final(k)@,
                final(self)@,
                result,
            ),
    {
        let (_, _, request) = unsupported_filesystem_request(index)?;
        self.begin_mutation(k, sources, UNSUPPORTED_REQUEST + index as u64, request)?;
        self.state.phase = LoggingLifecycleCheckPhase::WaitUnsupported(index);
        Ok(())
    }

    fn unsupported_refused(
        &mut self,
        k: &mut Kernel,
        records: FilesystemRecords,
        index: usize,
        Ghost(seen): Ghost<Seen>,
    ) -> (result: Result<(), Halt>)
        requires
            seen.records == records,
        ensures
            stepped(
                unsupported_step(old(k)@, old(self)@, seen, index),
                final(k)@,
                final(self)@,
                result,
            ),
    {
        proof {
            lemma_complete_keeps_the_state(k@, self@);
        }
        if let Some(response) = self.try_complete_mutation(k)? {
            let (operation, service, _) = unsupported_filesystem_request(index)?;
            require_control_failure(
                response,
                operation,
                service,
                ServiceControlFailure::Unsupported,
            )?;
            demand(
                records == self.state.filesystem_records,
                Text::LoggingLifecycleTestFailed,
            )?;
            self.state.phase = if index + 1 == UNSUPPORTED_REQUESTS {
                LoggingLifecycleCheckPhase::SpawnTmpfsRestart
            } else {
                LoggingLifecycleCheckPhase::BeginUnsupported(index + 1)
            };
        }
        Ok(())
    }

    fn filesystem_ready(
        &mut self,
        k: &mut Kernel,
        records: FilesystemRecords,
        sources: ControlSources,
        Ghost(seen): Ghost<Seen>,
    ) -> (result: Result<(), Halt>)
        requires
            seen.records == records,
            seen.sources == sources,
        ensures
            stepped(
                tmpfs_ready_step(old(k)@, old(self)@, seen),
                final(k)@,
                final(self)@,
                result,
            ),
    {
        let before = self.state.filesystem_records;
        if records.tmpfs.observed_state() != ObservedState::Ready {
            return Ok(());
        }
        if records.nullfs != before.nullfs || !follows(
            before.tmpfs,
            records.tmpfs,
            tmpfs_service_id(),
        ) {
            return Err(Halt::Failed(Text::LoggingLifecycleTestFailed));
        }
        self.state.filesystem_records.tmpfs = records.tmpfs;
        let process_id = spawn_sv_command(
            k,
            Text::SvRestartVfsCommand,
            sources.mutation,
            SV_MUTATION_HANDLE,
        )?;
        self.state.phase = LoggingLifecycleCheckPhase::WaitVfsRestartClient(process_id);
        Ok(())
    }

    fn router_ready(&mut self, records: FilesystemRecords) -> (result: Result<(), Halt>)
        ensures
            forall|k: kernel::Transcript, seen: Seen|
                seen.records == records ==> #[trigger] stepped(
                    vfs_ready_step(k, old(self)@, seen),
                    k,
                    final(self)@,
                    result,
                ),
    {
        let before = self.state.filesystem_records;
        if records.vfs.observed_state() != ObservedState::Ready {
            return Ok(());
        }
        if records.nullfs != before.nullfs || records.tmpfs != before.tmpfs || !follows(
            before.vfs,
            records.vfs,
            vfs_service_id(),
        ) {
            return Err(Halt::Failed(Text::LoggingLifecycleTestFailed));
        }
        self.state.filesystem_records.vfs = records.vfs;
        self.state.phase = LoggingLifecycleCheckPhase::SpawnReadinessTimeout;
        Ok(())
    }

    fn readiness_client(
        &mut self,
        k: &mut Kernel,
        service: &ServiceRuntime,
        route_broker: &RouteBrokerState,
        process_id: ProcessId,
        Ghost(seen): Ghost<Seen>,
    ) -> (result: Result<(), Halt>)
        requires
            seen.service == service@,
            seen.routes == route_broker@.routes,
        ensures
            stepped(
                readiness_client_step(old(k)@, old(self)@, seen, process_id),
                final(k)@,
                final(self)@,
                result,
            ),
    {
        if let Some(success) = try_wait_probe(k, process_id)? {
            if !success || service.desired_state() != DesiredState::Running
                || !service.controlled_restart_pending() {
                return Err(Halt::Failed(Text::LoggingLifecycleTestFailed));
            }
            let withdrawn = routes_withdrawn(k, route_broker)?;
            demand(withdrawn, Text::LoggingLifecycleTestFailed)?;
            self.state.phase = LoggingLifecycleCheckPhase::WaitReadinessFailure;
        }
        Ok(())
    }

    fn readiness_failure(
        &mut self,
        k: &mut Kernel,
        service: &ServiceRuntime,
        lifecycle: &LoggingLifecycle,
        route_broker: &RouteBrokerState,
        Ghost(seen): Ghost<Seen>,
    ) -> (result: Result<(), Halt>)
        requires
            seen.service == service@,
            seen.lifecycle == *lifecycle,
            seen.routes == route_broker@.routes,
        ensures
            stepped(
                readiness_failure_step(old(k)@, old(self)@, seen),
                final(k)@,
                final(self)@,
                result,
            ),
    {
        if service.state() != ServiceState::Failed {
            return Ok(());
        }
        if service.desired_state() != DesiredState::Running || service.process_id().is_some()
            || service.controlled_restart_pending() || service.restart_count()
            != SERVICE_RESTART_LIMIT || lifecycle.current.is_some() {
            return Err(Halt::Failed(Text::LoggingLifecycleTestFailed));
        }
        let withdrawn = routes_withdrawn(k, route_broker)?;
        demand(withdrawn, Text::LoggingLifecycleTestFailed)?;
        announce(k, Text::LoggingLifecycleTestPassed)?;
        self.state.phase = LoggingLifecycleCheckPhase::Complete;
        Ok(())
    }

    /// Takes one step of the check.
    pub fn advance(
        &mut self,
        k: &mut Kernel,
        service: &ServiceRuntime,
        lifecycle: &LoggingLifecycle,
        route_broker: &RouteBrokerState,
        sources: ControlSources,
        filesystem_records: FilesystemRecords,
    ) -> (result: Result<(), Halt>)
        ensures
            stepped(
                advance_run(
                    old(k)@,
                    old(self)@,
                    Seen {
                        service: service@,
                        lifecycle: *lifecycle,
                        routes: route_broker@.routes,
                        sources,
                        records: filesystem_records,
                    },
                ),
                final(k)@,
                final(self)@,
                result,
            ),
    {
        let ghost seen = Seen {
            service: service@,
            lifecycle: *lifecycle,
            routes: route_broker@.routes,
            sources,
            records: filesystem_records,
        };
        match self.state.phase {
            LoggingLifecycleCheckPhase::SpawnStop => {
                let process_id = spawn_sv_command(
                    k,
                    Text::SvStopLoggingCommand,
                    sources.mutation,
                    SV_MUTATION_HANDLE,
                )?;
                self.state.phase = LoggingLifecycleCheckPhase::WaitStopClient(process_id);
                Ok(())
            },
            LoggingLifecycleCheckPhase::WaitStopClient(process_id) => self.stop_client(
                k,
                service,
                route_broker,
                process_id,
                Ghost(seen),
            ),
            LoggingLifecycleCheckPhase::WaitStopped => self.stopped(
                k,
                service,
                lifecycle,
                sources,
                Ghost(seen),
            ),
            LoggingLifecycleCheckPhase::WaitStartClient(process_id) => {
                if let Some(success) = try_wait_probe(k, process_id)? {
                    if !success || service.desired_state() != DesiredState::Running {
                        return Err(Halt::Failed(Text::LoggingLifecycleTestFailed));
                    }
                    self.state.phase = LoggingLifecycleCheckPhase::WaitReady;
                }
                Ok(())
            },
            LoggingLifecycleCheckPhase::WaitReady => self.ready(
                k,
                service,
                lifecycle,
                route_broker,
                sources,
                Ghost(seen),
            ),
            LoggingLifecycleCheckPhase::WaitReadyStatus(process_id) => {
                if let Some(success) = try_wait_probe(k, process_id)? {
                    demand(success, Text::LoggingLifecycleTestFailed)?;
                    let process_id = spawn_sv_command(
                        k,
                        Text::SvRestartLoggingCommand,
                        sources.mutation,
                        SV_MUTATION_HANDLE,
                    )?;
                    self.state.phase = LoggingLifecycleCheckPhase::WaitRestartPending(process_id);
                }
                Ok(())
            },
            LoggingLifecycleCheckPhase::WaitRestartPending(process_id) => self.restart_pending(
                k,
                service,
                route_broker,
                sources,
                process_id,
                Ghost(seen),
            ),
            LoggingLifecycleCheckPhase::WaitRestartResults(process_id) => self.restart_results(
                k,
                route_broker,
                process_id,
                Ghost(seen),
            ),
            LoggingLifecycleCheckPhase::WaitRestartReady => self.restart_ready(
                k,
                service,
                lifecycle,
                route_broker,
                sources,
                Ghost(seen),
            ),
            LoggingLifecycleCheckPhase::WaitReadyDuplicate => self.ready_duplicate(k),
            LoggingLifecycleCheckPhase::WaitRestartFence => {
                if !service.controlled_restart_pending() {
                    self.state.phase = LoggingLifecycleCheckPhase::BeginUnsupported(0);
                }
                Ok(())
            },
            LoggingLifecycleCheckPhase::BeginUnsupported(index) => self.begin_unsupported(
                k,
                sources,
                index,
                Ghost(seen),
            ),
            LoggingLifecycleCheckPhase::WaitUnsupported(index) => self.unsupported_refused(
                k,
                filesystem_records,
                index,
                Ghost(seen),
            ),
            LoggingLifecycleCheckPhase::SpawnTmpfsRestart => {
                let process_id = spawn_sv_command(
                    k,
                    Text::SvRestartTmpfsCommand,
                    sources.mutation,
                    SV_MUTATION_HANDLE,
                )?;
                self.state.phase = LoggingLifecycleCheckPhase::WaitTmpfsRestartClient(process_id);
                Ok(())
            },
            LoggingLifecycleCheckPhase::WaitTmpfsRestartClient(process_id) => {
                if let Some(success) = try_wait_probe(k, process_id)? {
                    demand(success, Text::LoggingLifecycleTestFailed)?;
                    self.state.phase = LoggingLifecycleCheckPhase::WaitTmpfsReady;
                }
                Ok(())
            },
            LoggingLifecycleCheckPhase::WaitTmpfsReady => self.filesystem_ready(
                k,
                filesystem_records,
                sources,
                Ghost(seen),
            ),
            LoggingLifecycleCheckPhase::WaitVfsRestartClient(process_id) => {
                if let Some(success) = try_wait_probe(k, process_id)? {
                    demand(success, Text::LoggingLifecycleTestFailed)?;
                    self.state.phase = LoggingLifecycleCheckPhase::WaitVfsReady;
                }
                Ok(())
            },
            LoggingLifecycleCheckPhase::WaitVfsReady => {
                let result = self.router_ready(filesystem_records);
                assert(stepped(vfs_ready_step(k@, old(self)@, seen), k@, self@, result));
                result
            },
            LoggingLifecycleCheckPhase::SpawnReadinessTimeout => {
                let process_id = spawn_sv_command(
                    k,
                    Text::SvRestartLoggingCommand,
                    sources.mutation,
                    SV_MUTATION_HANDLE,
                )?;
                self.state.phase =
                LoggingLifecycleCheckPhase::WaitReadinessRestartClient(process_id);
                Ok(())
            },
            LoggingLifecycleCheckPhase::WaitReadinessRestartClient(process_id) =>
            self.readiness_client(k, service, route_broker, process_id, Ghost(seen)),
            LoggingLifecycleCheckPhase::WaitReadinessFailure => self.readiness_failure(
                k,
                service,
                lifecycle,
                route_broker,
                Ghost(seen),
            ),
            LoggingLifecycleCheckPhase::Complete => Ok(()),
        }
    }
}

/// How far along a phase is.
pub open spec fn rank(phase: LoggingLifecycleCheckPhase) -> int {
    match phase {
        LoggingLifecycleCheckPhase::SpawnStop => 0,
        LoggingLifecycleCheckPhase::WaitStopClient(_) => 1,
        LoggingLifecycleCheckPhase::WaitStopped => 2,
        LoggingLifecycleCheckPhase::WaitStartClient(_) => 3,
        LoggingLifecycleCheckPhase::WaitReady => 4,
        LoggingLifecycleCheckPhase::WaitReadyStatus(_) => 5,
        LoggingLifecycleCheckPhase::WaitRestartPending(_) => 6,
        LoggingLifecycleCheckPhase::WaitRestartResults(_) => 7,
        LoggingLifecycleCheckPhase::WaitRestartReady => 8,
        LoggingLifecycleCheckPhase::WaitReadyDuplicate => 9,
        LoggingLifecycleCheckPhase::WaitRestartFence => 10,
        LoggingLifecycleCheckPhase::BeginUnsupported(index) => 11 + 2 * index,
        LoggingLifecycleCheckPhase::WaitUnsupported(index) => 12 + 2 * index,
        LoggingLifecycleCheckPhase::SpawnTmpfsRestart => 11 + 2 * UNSUPPORTED_REQUESTS,
        LoggingLifecycleCheckPhase::WaitTmpfsRestartClient(_) => 12 + 2 * UNSUPPORTED_REQUESTS,
        LoggingLifecycleCheckPhase::WaitTmpfsReady => 13 + 2 * UNSUPPORTED_REQUESTS,
        LoggingLifecycleCheckPhase::WaitVfsRestartClient(_) => 14 + 2 * UNSUPPORTED_REQUESTS,
        LoggingLifecycleCheckPhase::WaitVfsReady => 15 + 2 * UNSUPPORTED_REQUESTS,
        LoggingLifecycleCheckPhase::SpawnReadinessTimeout => 16 + 2 * UNSUPPORTED_REQUESTS,
        LoggingLifecycleCheckPhase::WaitReadinessRestartClient(_) => 17 + 2
            * UNSUPPORTED_REQUESTS,
        LoggingLifecycleCheckPhase::WaitReadinessFailure => 18 + 2 * UNSUPPORTED_REQUESTS,
        LoggingLifecycleCheckPhase::Complete => 19 + 2 * UNSUPPORTED_REQUESTS,
    }
}

/// Whether one phase is another or the next one.
pub open spec fn goes_on(before: Check, run: Run<Check>) -> bool {
    run.1 matches Ok(after) ==> (rank(after.state.phase) == rank(before.state.phase) || rank(
        after.state.phase,
    ) == rank(before.state.phase) + 1)
}

/// The check goes through its phases in order: a step stays in its phase or goes to the next one.
pub proof fn lemma_check_goes_through_its_phases(k: kernel::Transcript, check: Check, seen: Seen)
    ensures
        goes_on(check, advance_run(k, check, seen)),
{
    match check.state.phase {
        LoggingLifecycleCheckPhase::WaitRestartPending(process_id) => {
            lemma_pending_goes_on(k, check, seen, process_id);
        },
        LoggingLifecycleCheckPhase::WaitRestartResults(process_id) => {
            if restart_results_step(k, check, seen, process_id).1 is Ok {
                lemma_results_keep_the_phase(k, check, seen, process_id);
            }
        },
        LoggingLifecycleCheckPhase::WaitRestartReady => {
            lemma_restart_ready_goes_on(k, check, seen);
        },
        LoggingLifecycleCheckPhase::WaitReadyDuplicate => {
            lemma_ready_duplicate_goes_on(k, check);
        },
        LoggingLifecycleCheckPhase::BeginUnsupported(index) => {
            lemma_begin_unsupported_goes_on(k, check, seen, index);
        },
        LoggingLifecycleCheckPhase::WaitUnsupported(index) => {
            lemma_unsupported_goes_on(k, check, seen, index);
        },
        LoggingLifecycleCheckPhase::WaitStopClient(process_id) => {
            lemma_stop_client_goes_on(k, check, seen, process_id);
        },
        LoggingLifecycleCheckPhase::WaitStopped => {
            lemma_stopped_goes_on(k, check, seen);
        },
        LoggingLifecycleCheckPhase::WaitStartClient(process_id) => {
            lemma_start_client_goes_on(k, check, seen, process_id);
        },
        LoggingLifecycleCheckPhase::WaitReady => {
            lemma_ready_goes_on(k, check, seen);
        },
        LoggingLifecycleCheckPhase::WaitReadyStatus(process_id) => {
            lemma_ready_status_goes_on(k, check, seen, process_id);
        },
        LoggingLifecycleCheckPhase::WaitTmpfsReady => {
            lemma_tmpfs_ready_goes_on(k, check, seen);
        },
        LoggingLifecycleCheckPhase::WaitVfsReady => {
            lemma_vfs_ready_goes_on(k, check, seen);
        },
        LoggingLifecycleCheckPhase::WaitReadinessRestartClient(process_id) => {
            lemma_readiness_client_goes_on(k, check, seen, process_id);
        },
        LoggingLifecycleCheckPhase::WaitReadinessFailure => {
            lemma_readiness_failure_goes_on(k, check, seen);
        },
        _ => {},
    }
}

proof fn lemma_stop_client_goes_on(
    k: kernel::Transcript,
    check: Check,
    seen: Seen,
    process_id: ProcessId,
)
    requires
        check.state.phase == LoggingLifecycleCheckPhase::WaitStopClient(process_id),
    ensures
        goes_on(check, stop_client_step(k, check, seen, process_id)),
{
}

proof fn lemma_stopped_goes_on(k: kernel::Transcript, check: Check, seen: Seen)
    requires
        check.state.phase == LoggingLifecycleCheckPhase::WaitStopped,
    ensures
        goes_on(check, stopped_step(k, check, seen)),
{
}

proof fn lemma_start_client_goes_on(
    k: kernel::Transcript,
    check: Check,
    seen: Seen,
    process_id: ProcessId,
)
    requires
        check.state.phase == LoggingLifecycleCheckPhase::WaitStartClient(process_id),
    ensures
        goes_on(check, start_client_step(k, check, seen, process_id)),
{
}

proof fn lemma_ready_goes_on(k: kernel::Transcript, check: Check, seen: Seen)
    requires
        check.state.phase == LoggingLifecycleCheckPhase::WaitReady,
    ensures
        goes_on(check, ready_step(k, check, seen)),
{
}

proof fn lemma_ready_status_goes_on(
    k: kernel::Transcript,
    check: Check,
    seen: Seen,
    process_id: ProcessId,
)
    requires
        check.state.phase == LoggingLifecycleCheckPhase::WaitReadyStatus(process_id),
    ensures
        goes_on(check, ready_status_step(k, check, seen, process_id)),
{
}

proof fn lemma_tmpfs_ready_goes_on(k: kernel::Transcript, check: Check, seen: Seen)
    requires
        check.state.phase == LoggingLifecycleCheckPhase::WaitTmpfsReady,
    ensures
        goes_on(check, tmpfs_ready_step(k, check, seen)),
{
}

proof fn lemma_vfs_ready_goes_on(k: kernel::Transcript, check: Check, seen: Seen)
    requires
        check.state.phase == LoggingLifecycleCheckPhase::WaitVfsReady,
    ensures
        goes_on(check, vfs_ready_step(k, check, seen)),
{
}

proof fn lemma_readiness_client_goes_on(
    k: kernel::Transcript,
    check: Check,
    seen: Seen,
    process_id: ProcessId,
)
    requires
        check.state.phase == LoggingLifecycleCheckPhase::WaitReadinessRestartClient(process_id),
    ensures
        goes_on(check, readiness_client_step(k, check, seen, process_id)),
{
}

proof fn lemma_readiness_failure_goes_on(k: kernel::Transcript, check: Check, seen: Seen)
    requires
        check.state.phase == LoggingLifecycleCheckPhase::WaitReadinessFailure,
    ensures
        goes_on(check, readiness_failure_step(k, check, seen)),
{
}

proof fn lemma_begin_keeps_the_phase(
    k: kernel::Transcript,
    check: Check,
    source: CapabilityHandle,
    request_id: u64,
    request: ServiceControlRequest,
)
    ensures
        begin_mutation_run(k, check, source, request_id, request).1 matches Ok(begun) ==> (
        begun.state == check.state),
{
    reveal(begin_mutation_run);
}

proof fn lemma_complete_keeps_the_state(k: kernel::Transcript, check: Check)
    ensures
        complete_mutation_run(k, check).1 matches Ok(completed) ==> (completed.0.state
            == check.state),
{
    reveal(complete_mutation_run);
}

proof fn lemma_pending_goes_on(
    k: kernel::Transcript,
    check: Check,
    seen: Seen,
    process_id: ProcessId,
)
    requires
        check.state.phase == LoggingLifecycleCheckPhase::WaitRestartPending(process_id),
    ensures
        goes_on(check, restart_pending_step(k, check, seen, process_id)),
{
    let (noted, first) = note_routes_run(k, check, seen);
    if let Ok(check) = first {
        lemma_begin_keeps_the_phase(
            noted,
            check,
            seen.sources.mutation,
            PENDING_RESTART_REQUEST,
            ServiceControlRequest::Restart { service: logging_service_id() },
        );
    }
}

proof fn lemma_restart_ready_goes_on(k: kernel::Transcript, check: Check, seen: Seen)
    requires
        check.state.phase == LoggingLifecycleCheckPhase::WaitRestartReady,
    ensures
        goes_on(check, restart_ready_step(k, check, seen)),
{
    let (noted, first) = note_routes_run(k, check, seen);
    if let Ok(check) = first {
        lemma_restarted_goes_on(noted, check, seen);
    }
}

proof fn lemma_restarted_goes_on(k: kernel::Transcript, check: Check, seen: Seen)
    requires
        check.state.phase == LoggingLifecycleCheckPhase::WaitRestartReady,
    ensures
        goes_on(check, restarted_run(k, check, seen)),
{
    if let Some(generation) = seen.lifecycle.current {
        let led = leading_run(
            k,
            seen.routes,
            generation.generation,
            generation.producer_object_id,
            generation.observer_object_id,
        ).0;
        lemma_begin_keeps_the_phase(
            led,
            check,
            seen.sources.mutation,
            READY_RESTART_REQUEST,
            ServiceControlRequest::Restart { service: logging_service_id() },
        );
    }
}

proof fn lemma_ready_duplicate_goes_on(k: kernel::Transcript, check: Check)
    requires
        check.state.phase == LoggingLifecycleCheckPhase::WaitReadyDuplicate,
    ensures
        goes_on(check, ready_duplicate_step(k, check)),
{
    lemma_complete_keeps_the_state(k, check);
}

proof fn lemma_begin_unsupported_goes_on(
    k: kernel::Transcript,
    check: Check,
    seen: Seen,
    index: usize,
)
    requires
        check.state.phase == LoggingLifecycleCheckPhase::BeginUnsupported(index),
    ensures
        goes_on(check, begin_unsupported_step(k, check, seen, index)),
{
    if let Ok((_, _, request)) = unsupported(index) {
        lemma_begin_keeps_the_phase(
            k,
            check,
            seen.sources.mutation,
            (UNSUPPORTED_REQUEST + index) as u64,
            request,
        );
    }
}

proof fn lemma_unsupported_goes_on(
    k: kernel::Transcript,
    check: Check,
    seen: Seen,
    index: usize,
)
    requires
        check.state.phase == LoggingLifecycleCheckPhase::WaitUnsupported(index),
    ensures
        goes_on(check, unsupported_step(k, check, seen, index)),
{
    lemma_complete_keeps_the_state(k, check);
}

proof fn lemma_results_keep_the_phase(
    k: kernel::Transcript,
    check: Check,
    seen: Seen,
    process_id: ProcessId,
)
    requires
        restart_results_step(k, check, seen, process_id).1 is Ok,
    ensures
        ({
            let next = restart_results_step(k, check, seen, process_id).1->Ok_0.state.phase;
            next == check.state.phase || next == LoggingLifecycleCheckPhase::WaitRestartReady
        }),
{
    let (noted, first) = note_routes_run(k, check, seen);
    let (probed, second) = restart_client_run(noted, first->Ok_0, process_id);
    assert(second->Ok_0.state.phase == check.state.phase);
    lemma_duplicate_keeps_the_phase(probed, second->Ok_0);
}

proof fn lemma_duplicate_keeps_the_phase(k: kernel::Transcript, check: Check)
    requires
        duplicate_run(k, check).1 is Ok,
    ensures
        duplicate_run(k, check).1->Ok_0.state.phase == check.state.phase,
{
    if !check.state.duplicate_restart_completed {
        lemma_complete_keeps_the_state(k, check);
    }
}

/// A request that the filesystem services do not support names one of them, and all of them are
/// asked.
pub proof fn lemma_unsupported_requests_name_filesystems(index: usize)
    ensures
        unsupported(index) is Ok <==> index < UNSUPPORTED_REQUESTS,
        unsupported(index) matches Ok((operation, service, request)) ==> {
            &&& request.operation() == operation
            &&& control_protocol::named_service(request) == service
            &&& operation == Operation::Stop || operation == Operation::Start
            &&& service == nullfs_service_id() || service == tmpfs_service_id() || service
                == vfs_service_id()
        },
{
}

} // verus!
