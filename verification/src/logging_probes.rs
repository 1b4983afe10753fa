//! Probes of the logging service and of the control of services, and how the shell is run.

use crate::abi::{SIGNAL_CONTINUE, SIGNAL_STOP, SIGNAL_TERMINATE};
use crate::contained_service;
use crate::contained_service::{READY_BYTES, READY_HANDLE, REQUEST_HANDLE};
use crate::identity::ProviderGenerationSequence;
use crate::init_run;
use crate::init_run::{
    announce, backoff, demand, hear, is_expected_message, need, not_yet, rest,
    BootstrapCapability, Halt, Run,
};
use crate::init_text::Text;
use crate::ipc;
use crate::ipc::{CapabilityHandle, CapabilityInfo, Rights};
use crate::kernel;
use crate::kernel::Kernel;
use crate::logging_supervision;
use crate::logging_supervision::{start_logging_generation, LoggingGeneration};
use crate::nullfs_probes;
use crate::nullfs_probes::close_both;
use crate::probe;
use crate::probe::{has_ended, launch_tool, receiving, sending};
use crate::route_broker;
use crate::route_broker::{RouteBrokerState, ROUTE_PUMP_BUDGET};
use crate::service_registry;
use crate::service_registry::{
    Generations, ServiceControlState, Services, SERVICE_CONTROL_PUMP_BUDGET,
};
use crate::supervisor;
use crate::supervisor::{ServiceRuntime, ServiceStatusDisposition};
use crate::syscall;
use crate::syscall::{signal_process_group, try_wait_child, ChildStatus, ProcessId};
use vstd::prelude::*;

verus! {

/// How often a probe is waited for.
pub const LOGGING_PROBE_MAX_YIELDS: u32 = 65_536;

/// The handle over which the stress probe says how far it is.
pub const LOGGING_PROBE_STATUS_HANDLE: u64 = 3;

/// The handle over which the stress probe is told to go on.
pub const LOGGING_PROBE_CONTROL_HANDLE: u64 = 4;

/// How many messages the queue of the producer holds when it is full.
pub const FULL_QUEUE: u64 = 8;

pub const SHELL_SERVICE_CONTROL_HANDLE: u64 = 2;

pub const SHELL_SERVICE_CONTROL_MUTATION_HANDLE: u64 = 3;

/// Waiting a little longer, as long as there is patience.
pub open spec fn tire_run(k: kernel::Transcript, remaining: nat, text: Text) -> Run<()> {
    if remaining == 0 {
        init_run::giving_up(k, text)
    } else {
        init_run::rest_run(k, text)
    }
}

/// Waits a little longer: how much patience is left.
pub fn yield_logging_probe(k: &mut Kernel, remaining: u32, text: Text) -> (result: Result<u32, Halt>)
    ensures
        ({
            let (asked, outcome) = tire_run(old(k)@, remaining as nat, text);
            &&& final(k)@ == asked
            &&& match result {
                Ok(left) => outcome == Ok::<(), Halt>(()) && remaining > 0 && left == remaining - 1,
                Err(halt) => outcome == Err::<(), _>(halt),
            }
        }),
{
    if remaining == 0 {
        return Err(Halt::Failed(text));
    }
    rest(k, text)?;
    Ok(remaining - 1)
}

/// Making sure that a process runs: it has neither ended nor stopped.
pub open spec fn running_run(k: kernel::Transcript, process_id: ProcessId) -> Run<()> {
    init_run::bind(
        init_run::hear_run(syscall::try_wait_run(k, process_id)),
        |k: kernel::Transcript, polled: Result<ChildStatus, ipc::Error>|
            init_run::demand_run(
                k,
                match polled {
                    Ok(status) => status.continued(),
                    Err(error) => init_run::not_yet(error),
                },
                Text::LoggingProbeFailed,
            ),
    )
}

pub fn require_process_running(k: &mut Kernel, process_id: ProcessId) -> (result: Result<(), Halt>)
    ensures
        (final(k)@, result) == running_run(old(k)@, process_id),
{
    let running = match hear(try_wait_child(k, process_id))? {
        Ok(status) => status.continued(),
        Err(error) => not_yet(error),
    };
    demand(running, Text::LoggingProbeFailed)
}

/// Making sure that the process of a service runs.
pub open spec fn service_running_run(k: kernel::Transcript, process_id: Option<ProcessId>) -> Run<
    (),
> {
    match process_id {
        None => init_run::giving_up(k, Text::LoggingProbeFailed),
        Some(process_id) => running_run(k, process_id),
    }
}

pub fn require_service_running(k: &mut Kernel, service: &ServiceRuntime) -> (result: Result<
    (),
    Halt,
>)
    ensures
        (final(k)@, result) == service_running_run(old(k)@, service@.process_id),
{
    match service.process_id() {
        None => Err(Halt::Failed(Text::LoggingProbeFailed)),
        Some(process_id) => require_process_running(k, process_id),
    }
}

/// Making sure that nothing waits in an endpoint.
pub open spec fn holds_run(k: kernel::Transcript, endpoint: CapabilityHandle, size: u64) -> Run<()> {
    init_run::bind(
        init_run::hear_run(ipc::info_run(k, endpoint)),
        |k: kernel::Transcript, info: Result<CapabilityInfo, ipc::Error>|
            init_run::demand_run(
                k,
                match info {
                    Ok(info) => info.size == size,
                    Err(_) => false,
                },
                Text::LoggingProbeFailed,
            ),
    )
}

fn require_held(k: &mut Kernel, endpoint: CapabilityHandle, size: u64) -> (result: Result<(), Halt>)
    ensures
        (final(k)@, result) == holds_run(old(k)@, endpoint, size),
{
    let held = match hear(ipc::info(k, endpoint))? {
        Ok(info) => info.size == size,
        Err(_) => false,
    };
    demand(held, Text::LoggingProbeFailed)
}

pub fn require_empty_endpoint(k: &mut Kernel, endpoint: CapabilityHandle) -> (result: Result<
    (),
    Halt,
>)
    ensures
        (final(k)@, result) == holds_run(old(k)@, endpoint, 0),
{
    require_held(k, endpoint, 0)
}

/// Looking after the service and its routes.
pub open spec fn tend_run(
    k: kernel::Transcript,
    service: supervisor::Service,
    broker: route_broker::Broker,
) -> Run<()> {
    init_run::bind(
        service_running_run(k, service.process_id),
        |k: kernel::Transcript, running: ()|
            route_broker::pump_run(k, broker, ROUTE_PUMP_BUDGET as nat),
    )
}

fn tend(k: &mut Kernel, service: &ServiceRuntime, route_broker: &mut RouteBrokerState) -> (result:
    Result<(), Halt>)
    ensures
        (final(k)@, result) == tend_run(old(k)@, service@, old(route_broker)@),
        final(route_broker)@ == old(route_broker)@,
{
    require_service_running(k, service)?;
    route_broker.pump(k)
}

/// Waiting for a tool to end successfully while the service runs.
pub open spec fn tool_ended_run(
    k: kernel::Transcript,
    service: supervisor::Service,
    broker: route_broker::Broker,
    process_id: ProcessId,
    text: Text,
    remaining: nat,
) -> Run<()>
    decreases remaining,
{
    let (looked, result) = tool_step_run(k, service, broker, process_id, text, remaining);
    match result {
        Err(halt) => (looked, Err(halt)),
        Ok(true) => init_run::end(looked, ()),
        Ok(false) => if remaining > 0 {
            tool_ended_run(looked, service, broker, process_id, text, (remaining - 1) as nat)
        } else {
            (looked, Err(Halt::Waiting))
        },
    }
}

/// Looking once whether the tool has ended.
pub open spec fn tool_step_run(
    k: kernel::Transcript,
    service: supervisor::Service,
    broker: route_broker::Broker,
    process_id: ProcessId,
    text: Text,
    remaining: nat,
) -> Run<bool> {
    init_run::bind(
        tend_run(k, service, broker),
        |k: kernel::Transcript, tended: ()|
            init_run::bind(
                probe::ended_run(k, process_id, text),
                |k: kernel::Transcript, ended: bool|
                    if ended {
                        init_run::end(k, true)
                    } else {
                        init_run::bind(
                            tire_run(k, remaining, text),
                            |k: kernel::Transcript, tired: ()| init_run::end(k, false),
                        )
                    },
            ),
    )
}

fn wait_for_tool(
    k: &mut Kernel,
    service: &ServiceRuntime,
    route_broker: &mut RouteBrokerState,
    process_id: ProcessId,
    text: Text,
) -> (result: Result<(), Halt>)
    ensures
        (final(k)@, result) == tool_ended_run(
            old(k)@,
            service@,
            old(route_broker)@,
            process_id,
            text,
            LOGGING_PROBE_MAX_YIELDS as nat,
        ),
        final(route_broker)@ == old(route_broker)@,
{
    let mut remaining: u32 = LOGGING_PROBE_MAX_YIELDS;
    loop
        invariant
            route_broker@ == old(route_broker)@,
            tool_ended_run(
                old(k)@,
                service@,
                old(route_broker)@,
                process_id,
                text,
                LOGGING_PROBE_MAX_YIELDS as nat,
            ) == tool_ended_run(
                k@,
                service@,
                old(route_broker)@,
                process_id,
                text,
                remaining as nat,
            ),
        decreases remaining,
    {
        tend(k, service, route_broker)?;
        if has_ended(k, process_id, text)? {
            return Ok(());
        }
        remaining = yield_logging_probe(k, remaining, text)?;
    }
}

pub fn wait_for_logging_probe_exit(
    k: &mut Kernel,
    service: &ServiceRuntime,
    route_broker: &mut RouteBrokerState,
    probe_process_id: ProcessId,
) -> (result: Result<(), Halt>)
    ensures
        (final(k)@, result) == tool_ended_run(
            old(k)@,
            service@,
            old(route_broker)@,
            probe_process_id,
            Text::LoggingProbeFailed,
            LOGGING_PROBE_MAX_YIELDS as nat,
        ),
        final(route_broker)@ == old(route_broker)@,
{
    wait_for_tool(k, service, route_broker, probe_process_id, Text::LoggingProbeFailed)
}

/// Looking once for a message of the probe, which must be the one that is expected.
pub open spec fn heard_step_run(
    k: kernel::Transcript,
    service: supervisor::Service,
    broker: route_broker::Broker,
    process_id: ProcessId,
    endpoint: CapabilityHandle,
    expected: Text,
    remaining: nat,
) -> Run<bool> {
    let text = Text::LoggingProbeFailed;
    init_run::bind(
        tend_run(k, service, broker),
        |k: kernel::Transcript, tended: ()|
            init_run::bind(
                init_run::hear_run(ipc::try_receive_run(k, endpoint, READY_BYTES)),
                |k: kernel::Transcript, received: Result<ipc::Delivery, ipc::Error>|
                    match received {
                        Ok(delivery) => if init_run::is_expected(
                            delivery,
                            process_id,
                            expected.bytes(),
                        ) {
                            init_run::end(k, true)
                        } else {
                            init_run::giving_up(k, text)
                        },
                        Err(error) => if error != ipc::Error::try_again() {
                            init_run::giving_up(k, text)
                        } else {
                            init_run::bind(
                                running_run(k, process_id),
                                |k: kernel::Transcript, running: ()|
                                    init_run::bind(
                                        tire_run(k, remaining, text),
                                        |k: kernel::Transcript, tired: ()|
                                            init_run::end(k, false),
                                    ),
                            )
                        },
                    },
            ),
    )
}

/// Waiting for a message of the probe while the service runs.
pub open spec fn heard_run(
    k: kernel::Transcript,
    service: supervisor::Service,
    broker: route_broker::Broker,
    process_id: ProcessId,
    endpoint: CapabilityHandle,
    expected: Text,
    remaining: nat,
) -> Run<()>
    decreases remaining,
{
    let (looked, result) = heard_step_run(
        k,
        service,
        broker,
        process_id,
        endpoint,
        expected,
        remaining,
    );
    match result {
        Err(halt) => (looked, Err(halt)),
        Ok(true) => init_run::end(looked, ()),
        Ok(false) => if remaining > 0 {
            heard_run(
                looked,
                service,
                broker,
                process_id,
                endpoint,
                expected,
                (remaining - 1) as nat,
            )
        } else {
            (looked, Err(Halt::Waiting))
        },
    }
}

pub fn wait_for_logging_probe_message(
    k: &mut Kernel,
    service: &ServiceRuntime,
    route_broker: &mut RouteBrokerState,
    probe_process_id: ProcessId,
    endpoint: CapabilityHandle,
    expected: Text,
) -> (result: Result<(), Halt>)
    ensures
        (final(k)@, result) == heard_run(
            old(k)@,
            service@,
            old(route_broker)@,
            probe_process_id,
            endpoint,
            expected,
            LOGGING_PROBE_MAX_YIELDS as nat,
        ),
        final(route_broker)@ == old(route_broker)@,
{
    let text = Text::LoggingProbeFailed;
    let mut remaining: u32 = LOGGING_PROBE_MAX_YIELDS;
    loop
        invariant
            text == Text::LoggingProbeFailed,
            route_broker@ == old(route_broker)@,
            heard_run(
                old(k)@,
                service@,
                old(route_broker)@,
                probe_process_id,
                endpoint,
                expected,
                LOGGING_PROBE_MAX_YIELDS as nat,
            ) == heard_run(
                k@,
                service@,
                old(route_broker)@,
                probe_process_id,
                endpoint,
                expected,
                remaining as nat,
            ),
        decreases remaining,
    {
        tend(k, service, route_broker)?;
        match hear(ipc::try_receive(k, endpoint, READY_BYTES))? {
            Ok(received) => {
                return demand(
                    is_expected_message(&received, probe_process_id, expected.as_bytes()),
                    text,
                );
            },
            Err(error) => {
                demand(error == ipc::Error::try_again(), text)?;
            },
        }
        require_process_running(k, probe_process_id)?;
        remaining = yield_logging_probe(k, remaining, text)?;
    }
}

/// Whether the process of a service has stopped, or goes on again.
#[derive(Clone, Copy, Debug, PartialEq, Eq, Structural)]
pub enum Change {
    Stopped,
    Continued,
}

impl Change {
    /// Whether a status is this change.
    #[verifier::allow_in_spec]
    pub fn is_seen(self, status: ChildStatus) -> bool
        returns
            (match self {
                Change::Stopped => status.stopped_signal() == Some(SIGNAL_STOP),
                Change::Continued => status.continued(),
            }),
    {
        match self {
            Change::Stopped => match status.stopped_signal() {
                Some(signal) => signal == SIGNAL_STOP,
                None => false,
            },
            Change::Continued => status.continued(),
        }
    }
}

/// What a look at the process of a service has shown.
pub ghost enum Seen<T> {
    Done(T),
    Nothing,
}

/// Looking after the routes and waiting a little longer.
pub open spec fn keep_waiting_run<T>(
    k: kernel::Transcript,
    service: supervisor::Service,
    broker: route_broker::Broker,
    remaining: nat,
) -> Run<(supervisor::Service, Seen<T>)> {
    init_run::bind(
        route_broker::pump_run(k, broker, ROUTE_PUMP_BUDGET as nat),
        |k: kernel::Transcript, pumped: ()|
            init_run::bind(
                tire_run(k, remaining, Text::LoggingProbeFailed),
                |k: kernel::Transcript, tired: ()| init_run::end(k, (service, Seen::Nothing)),
            ),
    )
}

fn keep_waiting(k: &mut Kernel, route_broker: &mut RouteBrokerState, remaining: u32) -> (result:
    Result<u32, Halt>)
    ensures
        forall|service: supervisor::Service|
            ({
                let (asked, outcome) = #[trigger] keep_waiting_run::<()>(
                    old(k)@,
                    service,
                    old(route_broker)@,
                    remaining as nat,
                );
                &&& final(k)@ == asked
                &&& match result {
                    Ok(left) => outcome == Ok::<_, Halt>((service, Seen::<()>::Nothing))
                        && remaining > 0 && left == remaining - 1,
                    Err(halt) => outcome == Err::<(supervisor::Service, Seen<()>), _>(halt),
                }
            }),
        forall|service: supervisor::Service|
            ({
                let (asked, outcome) = #[trigger] keep_waiting_run::<u32>(
                    old(k)@,
                    service,
                    old(route_broker)@,
                    remaining as nat,
                );
                &&& final(k)@ == asked
                &&& match result {
                    Ok(left) => outcome == Ok::<_, Halt>((service, Seen::<u32>::Nothing))
                        && remaining > 0 && left == remaining - 1,
                    Err(halt) => outcome == Err::<(supervisor::Service, Seen<u32>), _>(halt),
                }
            }),
        final(route_broker)@ == old(route_broker)@,
{
    route_broker.pump(k)?;
    yield_logging_probe(k, remaining, Text::LoggingProbeFailed)
}

/// Looking once for a change of the service's process.
pub open spec fn change_step_run(
    k: kernel::Transcript,
    service: supervisor::Service,
    broker: route_broker::Broker,
    process_id: ProcessId,
    change: Change,
    remaining: nat,
) -> Run<(supervisor::Service, Seen<()>)> {
    let text = Text::LoggingProbeFailed;
    init_run::bind(
        init_run::hear_run(syscall::try_wait_run(k, process_id)),
        |k: kernel::Transcript, polled: Result<ChildStatus, ipc::Error>|
            match polled {
                Ok(status) => if !status.continued() && status.stopped_signal() is None {
                    init_run::giving_up(k, text)
                } else {
                    let (observed, disposition) = service.observe(status.raw);
                    if disposition != ServiceStatusDisposition::WaitForNextEvent {
                        init_run::giving_up(k, text)
                    } else if change.is_seen(status) {
                        init_run::end(k, (observed, Seen::Done(())))
                    } else {
                        keep_waiting_run(k, observed, broker, remaining)
                    }
                },
                Err(error) => if init_run::not_yet(error) {
                    keep_waiting_run(k, service, broker, remaining)
                } else {
                    init_run::giving_up(k, text)
                },
            },
    )
}

/// Waiting for a change of the service's process.
pub open spec fn change_run(
    k: kernel::Transcript,
    service: supervisor::Service,
    broker: route_broker::Broker,
    process_id: ProcessId,
    change: Change,
    remaining: nat,
) -> Run<(supervisor::Service, ())>
    decreases remaining,
{
    let (looked, result) = change_step_run(k, service, broker, process_id, change, remaining);
    match result {
        Err(halt) => (looked, Err(halt)),
        Ok((next, Seen::Done(_))) => init_run::end(looked, (next, ())),
        Ok((next, Seen::Nothing)) => if remaining > 0 {
            change_run(looked, next, broker, process_id, change, (remaining - 1) as nat)
        } else {
            (looked, Err(Halt::Waiting))
        },
    }
}

/// Waits until the process of the service has stopped, or goes on again.
pub fn wait_for_logging_service_change(
    k: &mut Kernel,
    service: &mut ServiceRuntime,
    route_broker: &mut RouteBrokerState,
    process_id: ProcessId,
    change: Change,
) -> (result: Result<(), Halt>)
    ensures
        ({
            let (asked, outcome) = change_run(
                old(k)@,
                old(service)@,
                old(route_broker)@,
                process_id,
                change,
                LOGGING_PROBE_MAX_YIELDS as nat,
            );
            &&& final(k)@ == asked
            &&& init_run::came_to(outcome, final(service)@, result)
        }),
        final(route_broker)@ == old(route_broker)@,
{
    let text = Text::LoggingProbeFailed;
    let mut remaining: u32 = LOGGING_PROBE_MAX_YIELDS;
    loop
        invariant
            text == Text::LoggingProbeFailed,
            route_broker@ == old(route_broker)@,
            change_run(
                old(k)@,
                old(service)@,
                old(route_broker)@,
                process_id,
                change,
                LOGGING_PROBE_MAX_YIELDS as nat,
            ) == change_run(
                k@,
                service@,
                old(route_broker)@,
                process_id,
                change,
                remaining as nat,
            ),
        decreases remaining,
    {
        match hear(try_wait_child(k, process_id))? {
            Ok(status) => {
                demand(status.continued() || status.stopped_signal().is_some(), text)?;
                let disposition = service.observe_status(status.raw());
                demand(disposition == ServiceStatusDisposition::WaitForNextEvent, text)?;
                if change.is_seen(status) {
                    return Ok(());
                }
            },
            Err(error) => {
                demand(not_yet(error), text)?;
            },
        }
        remaining = keep_waiting(k, route_broker, remaining)?;
    }
}

/// Looking once for the end of the service's process.
pub open spec fn ended_step_run(
    k: kernel::Transcript,
    service: supervisor::Service,
    broker: route_broker::Broker,
    process_id: ProcessId,
    remaining: nat,
) -> Run<(supervisor::Service, Seen<u32>)> {
    let text = Text::LoggingCollectorRestartPolicyFailed;
    init_run::bind(
        init_run::hear_run(syscall::try_wait_run(k, process_id)),
        |k: kernel::Transcript, polled: Result<ChildStatus, ipc::Error>|
            match polled {
                Ok(status) => {
                    let (observed, disposition) = service.observe(status.raw);
                    if status.continued() || status.stopped_signal() is Some {
                        if disposition != ServiceStatusDisposition::WaitForNextEvent {
                            init_run::giving_up(k, text)
                        } else {
                            keep_waiting_run(k, observed, broker, remaining)
                        }
                    } else {
                        match disposition {
                            ServiceStatusDisposition::Restart { backoff_yields } => init_run::end(
                                k,
                                (observed, Seen::Done(backoff_yields)),
                            ),
                            _ => init_run::giving_up(k, text),
                        }
                    }
                },
                Err(error) => if init_run::not_yet(error) {
                    keep_waiting_run(k, service, broker, remaining)
                } else if error == ipc::Error::no_child() {
                    init_run::giving_up(k, Text::LoggingCollectorExitNoChild)
                } else {
                    init_run::giving_up(k, Text::LoggingCollectorExitWaitFailed)
                },
            },
    )
}

/// Waiting for the service to end and to be due for a restart: how long to wait before it.
pub open spec fn ended_run(
    k: kernel::Transcript,
    service: supervisor::Service,
    broker: route_broker::Broker,
    process_id: ProcessId,
    remaining: nat,
) -> Run<(supervisor::Service, u32)>
    decreases remaining,
{
    let (looked, result) = ended_step_run(k, service, broker, process_id, remaining);
    match result {
        Err(halt) => (looked, Err(halt)),
        Ok((next, Seen::Done(yields))) => init_run::end(looked, (next, yields)),
        Ok((next, Seen::Nothing)) => if remaining > 0 {
            ended_run(looked, next, broker, process_id, (remaining - 1) as nat)
        } else {
            (looked, Err(Halt::Waiting))
        },
    }
}

pub fn wait_for_logging_service_restart(
    k: &mut Kernel,
    service: &mut ServiceRuntime,
    route_broker: &mut RouteBrokerState,
    process_id: ProcessId,
) -> (result: Result<u32, Halt>)
    ensures
        ({
            let (asked, outcome) = ended_run(
                old(k)@,
                old(service)@,
                old(route_broker)@,
                process_id,
                LOGGING_PROBE_MAX_YIELDS as nat,
            );
            &&& final(k)@ == asked
            &&& init_run::came_to(outcome, final(service)@, result)
        }),
        final(route_broker)@ == old(route_broker)@,
{
    let text = Text::LoggingCollectorRestartPolicyFailed;
    let mut remaining: u32 = LOGGING_PROBE_MAX_YIELDS;
    loop
        invariant
            text == Text::LoggingCollectorRestartPolicyFailed,
            route_broker@ == old(route_broker)@,
            ended_run(
                old(k)@,
                old(service)@,
                old(route_broker)@,
                process_id,
                LOGGING_PROBE_MAX_YIELDS as nat,
            ) == ended_run(k@, service@, old(route_broker)@, process_id, remaining as nat),
        decreases remaining,
    {
        match hear(try_wait_child(k, process_id))? {
            Ok(status) => {
                let disposition = service.observe_status(status.raw());
                if status.continued() || status.stopped_signal().is_some() {
                    demand(disposition == ServiceStatusDisposition::WaitForNextEvent, text)?;
                } else {
                    return match disposition {
                        ServiceStatusDisposition::Restart { backoff_yields } => Ok(backoff_yields),
                        _ => Err(Halt::Failed(text)),
                    };
                }
            },
            Err(error) => {
                if !not_yet(error) {
                    if error == ipc::Error::no_child() {
                        return Err(Halt::Failed(Text::LoggingCollectorExitNoChild));
                    }
                    return Err(Halt::Failed(Text::LoggingCollectorExitWaitFailed));
                }
            },
        }
        remaining = keep_waiting(k, route_broker, remaining)?;
    }
}

/// The routes that a probe of the logging service gets.
pub open spec fn probe_routes(broker: route_broker::Broker) -> Seq<BootstrapCapability> {
    seq![
        sending(broker.producer_grant_source, READY_HANDLE),
        sending(broker.observer_grant_source, REQUEST_HANDLE),
    ]
}

/// Saying that a probe has passed, if something is to be said.
pub open spec fn praise_run(k: kernel::Transcript, passed: Option<Text>) -> Run<()> {
    match passed {
        None => init_run::end(k, ()),
        Some(text) => init_run::announce_run(k, text),
    }
}

fn praise(k: &mut Kernel, passed: Option<Text>) -> (result: Result<(), Halt>)
    ensures
        (final(k)@, result) == praise_run(old(k)@, passed),
{
    match passed {
        None => Ok(()),
        Some(text) => announce(k, text),
    }
}

/// Running a probe of the logging service.
pub open spec fn logging_probe_run(
    k: kernel::Transcript,
    service: supervisor::Service,
    broker: route_broker::Broker,
    command: Text,
    passed: Option<Text>,
) -> Run<()> {
    let text = Text::LoggingProbeFailed;
    init_run::bind(
        probe::launch_run(k, command, false, probe_routes(broker), text),
        |k: kernel::Transcript, process_id: u64|
            init_run::bind(
                tool_ended_run(
                    k,
                    service,
                    broker,
                    process_id,
                    text,
                    LOGGING_PROBE_MAX_YIELDS as nat,
                ),
                |k: kernel::Transcript, ended: ()| praise_run(k, passed),
            ),
    )
}

pub fn run_logging_probe(
    k: &mut Kernel,
    service: &ServiceRuntime,
    route_broker: &mut RouteBrokerState,
    command: Text,
    passed_message: Option<Text>,
) -> (result: Result<(), Halt>)
    ensures
        (final(k)@, result) == logging_probe_run(
            old(k)@,
            service@,
            old(route_broker)@,
            command,
            passed_message,
        ),
        final(route_broker)@ == old(route_broker)@,
{
    let grants: [BootstrapCapability; 2] = [
        sending(route_broker.producer_grant_source, READY_HANDLE),
        sending(route_broker.observer_grant_source, REQUEST_HANDLE),
    ];
    assert(grants@ =~= probe_routes(route_broker@));
    let process_id: u64 = launch_tool(k, command, false, &grants, Text::LoggingProbeFailed)?;
    wait_for_logging_probe_exit(k, service, route_broker, process_id)?;
    praise(k, passed_message)
}

/// Having the log shown.
pub open spec fn logctl_run(
    k: kernel::Transcript,
    service: supervisor::Service,
    broker: route_broker::Broker,
) -> Run<()> {
    let text = Text::LogctlFailed;
    init_run::bind(
        probe::launch_run(
            k,
            Text::LogctlCommand,
            false,
            seq![sending(broker.observer_grant_source, READY_HANDLE)],
            text,
        ),
        |k: kernel::Transcript, process_id: u64|
            init_run::bind(
                tool_ended_run(
                    k,
                    service,
                    broker,
                    process_id,
                    text,
                    LOGGING_PROBE_MAX_YIELDS as nat,
                ),
                |k: kernel::Transcript, ended: ()| init_run::announce_run(k, Text::LogctlPassed),
            ),
    )
}

pub fn run_logctl_show(
    k: &mut Kernel,
    service: &ServiceRuntime,
    route_broker: &mut RouteBrokerState,
) -> (result: Result<(), Halt>)
    ensures
        (final(k)@, result) == logctl_run(old(k)@, service@, old(route_broker)@),
        final(route_broker)@ == old(route_broker)@,
{
    let text = Text::LogctlFailed;
    let grants: [BootstrapCapability; 1] = [
        sending(route_broker.observer_grant_source, READY_HANDLE),
    ];
    assert(grants@ =~= seq![sending(route_broker@.observer_grant_source, READY_HANDLE)]);
    let process_id: u64 = launch_tool(k, Text::LogctlCommand, false, &grants, text)?;
    wait_for_tool(k, service, route_broker, process_id, text)?;
    announce(k, Text::LogctlPassed)
}

/// Sending a signal to the one process of a group.
pub open spec fn signal_one_run(k: kernel::Transcript, process_id: ProcessId, signal: u64) -> Run<()> {
    init_run::bind(
        init_run::hear_run(syscall::signal_group_run(k, process_id, signal)),
        |k: kernel::Transcript, signalled: Result<usize, ipc::Error>|
            init_run::demand_run(
                k,
                signalled == Ok::<usize, ipc::Error>(1),
                Text::LoggingProbeFailed,
            ),
    )
}

fn signal_one(k: &mut Kernel, process_id: ProcessId, signal: u64) -> (result: Result<(), Halt>)
    ensures
        (final(k)@, result) == signal_one_run(old(k)@, process_id, signal),
{
    let reached = match hear(signal_process_group(k, process_id, signal))? {
        Ok(count) => count == 1,
        Err(_) => false,
    };
    demand(reached, Text::LoggingProbeFailed)
}

/// The stress probe, and what it talks over.
#[derive(Clone, Copy, Debug, PartialEq, Eq, Structural)]
pub struct Stress {
    pub status_endpoint: CapabilityHandle,
    pub control_endpoint: CapabilityHandle,
    pub process_id: ProcessId,
}

/// Running the stress probe.
pub open spec fn stress_run(k: kernel::Transcript, broker: route_broker::Broker) -> Run<Stress> {
    let text = Text::LoggingProbeFailed;
    init_run::bind(
        contained_service::create_endpoints_run(k, text),
        |k: kernel::Transcript, endpoints: (CapabilityHandle, CapabilityHandle)|
            init_run::bind(
                probe::launch_run(
                    k,
                    Text::LoggingStressProbeCommand,
                    false,
                    probe_routes(broker) + seq![
                        sending(endpoints.0, LOGGING_PROBE_STATUS_HANDLE),
                        receiving(endpoints.1, LOGGING_PROBE_CONTROL_HANDLE),
                    ],
                    text,
                ),
                |k: kernel::Transcript, process_id: u64|
                    init_run::end(
                        k,
                        Stress {
                            status_endpoint: endpoints.0,
                            control_endpoint: endpoints.1,
                            process_id,
                        },
                    ),
            ),
    )
}

fn launch_stress(k: &mut Kernel, route_broker: &RouteBrokerState) -> (result: Result<Stress, Halt>)
    ensures
        (final(k)@, result) == stress_run(old(k)@, route_broker@),
{
    let text = Text::LoggingProbeFailed;
    let (status_endpoint, control_endpoint) = contained_service::create_endpoints(k, text)?;
    let grants: [BootstrapCapability; 4] = [
        sending(route_broker.producer_grant_source, READY_HANDLE),
        sending(route_broker.observer_grant_source, REQUEST_HANDLE),
        sending(status_endpoint, LOGGING_PROBE_STATUS_HANDLE),
        receiving(control_endpoint, LOGGING_PROBE_CONTROL_HANDLE),
    ];
    assert(grants@ =~= probe_routes(route_broker@) + seq![
        sending(status_endpoint, LOGGING_PROBE_STATUS_HANDLE),
        receiving(control_endpoint, LOGGING_PROBE_CONTROL_HANDLE),
    ]);
    let process_id: u64 = launch_tool(k, Text::LoggingStressProbeCommand, false, &grants, text)?;
    Ok(Stress { status_endpoint, control_endpoint, process_id })
}

/// The service, its routes and its generations.
pub type Collector = logging_supervision::Starting;

/// Stopping the service: no restart is charged, and nothing is left in its queues.
pub open spec fn pause_run(
    k: kernel::Transcript,
    service: supervisor::Service,
    broker: route_broker::Broker,
    generation: LoggingGeneration,
    process_id: ProcessId,
) -> Run<(supervisor::Service, ())> {
    init_run::bind(
        signal_one_run(k, process_id, SIGNAL_STOP),
        |k: kernel::Transcript, signalled: ()|
            init_run::bind(
                change_run(
                    k,
                    service,
                    broker,
                    process_id,
                    Change::Stopped,
                    LOGGING_PROBE_MAX_YIELDS as nat,
                ),
                |k: kernel::Transcript, stopped: (supervisor::Service, ())|
                    if stopped.0.restart_count != 0 {
                        init_run::giving_up(k, Text::LoggingCollectorRestartPolicyFailed)
                    } else {
                        init_run::bind(
                            holds_run(k, generation.producer_source, 0),
                            |k: kernel::Transcript, producer: ()|
                                init_run::bind(
                                    holds_run(k, generation.observer_source, 0),
                                    |k: kernel::Transcript, observer: ()|
                                        init_run::end(k, stopped),
                                ),
                        )
                    },
            ),
    )
}

fn pause(
    k: &mut Kernel,
    service: &mut ServiceRuntime,
    route_broker: &mut RouteBrokerState,
    generation: &LoggingGeneration,
    process_id: ProcessId,
) -> (result: Result<(), Halt>)
    ensures
        ({
            let (asked, outcome) = pause_run(
                old(k)@,
                old(service)@,
                old(route_broker)@,
                *generation,
                process_id,
            );
            &&& final(k)@ == asked
            &&& init_run::came_to(outcome, final(service)@, result)
        }),
        final(route_broker)@ == old(route_broker)@,
{
    signal_one(k, process_id, SIGNAL_STOP)?;
    wait_for_logging_service_change(k, service, route_broker, process_id, Change::Stopped)?;
    demand(service.restart_count() == 0, Text::LoggingCollectorRestartPolicyFailed)?;
    require_empty_endpoint(k, generation.producer_source)?;
    require_empty_endpoint(k, generation.observer_source)
}

/// Letting the probe fill the queue of the service that is stopped, and then letting the service
/// go on and the probe end.
pub open spec fn pressure_run(
    k: kernel::Transcript,
    service: supervisor::Service,
    broker: route_broker::Broker,
    generation: LoggingGeneration,
    process_id: ProcessId,
    stress: Stress,
) -> Run<(supervisor::Service, ())> {
    let text = Text::LoggingProbeFailed;
    init_run::bind(
        init_run::need_run(
            ipc::send_run(
                k,
                stress.control_endpoint,
                Text::LoggingProbeFillQueue.bytes(),
                None,
            ),
            text,
        ),
        |k: kernel::Transcript, told: ()|
            init_run::bind(
                heard_run(
                    k,
                    service,
                    broker,
                    stress.process_id,
                    stress.status_endpoint,
                    Text::LoggingProbeBackpressure,
                    LOGGING_PROBE_MAX_YIELDS as nat,
                ),
                |k: kernel::Transcript, heard: ()|
                    init_run::bind(
                        holds_run(k, generation.producer_source, FULL_QUEUE),
                        |k: kernel::Transcript, full: ()|
                            init_run::bind(
                                signal_one_run(k, process_id, SIGNAL_CONTINUE),
                                |k: kernel::Transcript, signalled: ()|
                                    resume_run(k, service, broker, process_id, stress),
                            ),
                    ),
            ),
    )
}

/// Waiting until the service goes on and the probe ends.
pub open spec fn resume_run(
    k: kernel::Transcript,
    service: supervisor::Service,
    broker: route_broker::Broker,
    process_id: ProcessId,
    stress: Stress,
) -> Run<(supervisor::Service, ())> {
    init_run::bind(
        change_run(
            k,
            service,
            broker,
            process_id,
            Change::Continued,
            LOGGING_PROBE_MAX_YIELDS as nat,
        ),
        |k: kernel::Transcript, continued: (supervisor::Service, ())|
            init_run::bind(
                tool_ended_run(
                    k,
                    continued.0,
                    broker,
                    stress.process_id,
                    Text::LoggingProbeFailed,
                    LOGGING_PROBE_MAX_YIELDS as nat,
                ),
                |k: kernel::Transcript, ended: ()| init_run::end(k, continued),
            ),
    )
}

fn put_under_pressure(
    k: &mut Kernel,
    service: &mut ServiceRuntime,
    route_broker: &mut RouteBrokerState,
    generation: &LoggingGeneration,
    process_id: ProcessId,
    stress: Stress,
) -> (result: Result<(), Halt>)
    ensures
        ({
            let (asked, outcome) = pressure_run(
                old(k)@,
                old(service)@,
                old(route_broker)@,
                *generation,
                process_id,
                stress,
            );
            &&& final(k)@ == asked
            &&& init_run::came_to(outcome, final(service)@, result)
        }),
        final(route_broker)@ == old(route_broker)@,
{
    let text = Text::LoggingProbeFailed;
    need(
        ipc::send(k, stress.control_endpoint, Text::LoggingProbeFillQueue.as_bytes(), None),
        text,
    )?;
    wait_for_logging_probe_message(
        k,
        service,
        route_broker,
        stress.process_id,
        stress.status_endpoint,
        Text::LoggingProbeBackpressure,
    )?;
    require_held(k, generation.producer_source, FULL_QUEUE)?;
    signal_one(k, process_id, SIGNAL_CONTINUE)?;
    wait_for_logging_service_change(k, service, route_broker, process_id, Change::Continued)?;
    wait_for_logging_probe_exit(k, service, route_broker, stress.process_id)
}

/// Making sure that nothing is left in any queue.
pub open spec fn quiet_run(
    k: kernel::Transcript,
    generation: LoggingGeneration,
    stress: Stress,
) -> Run<()> {
    init_run::bind(
        holds_run(k, generation.readiness_source, 0),
        |k: kernel::Transcript, readiness: ()|
            init_run::bind(
                holds_run(k, generation.producer_source, 0),
                |k: kernel::Transcript, producer: ()|
                    init_run::bind(
                        holds_run(k, generation.observer_source, 0),
                        |k: kernel::Transcript, observer: ()|
                            init_run::bind(
                                holds_run(k, stress.status_endpoint, 0),
                                |k: kernel::Transcript, status: ()|
                                    holds_run(k, stress.control_endpoint, 0),
                            ),
                    ),
            ),
    )
}

fn require_quiet(k: &mut Kernel, generation: &LoggingGeneration, stress: Stress) -> (result: Result<
    (),
    Halt,
>)
    ensures
        (final(k)@, result) == quiet_run(old(k)@, *generation, stress),
{
    require_empty_endpoint(k, generation.readiness_source)?;
    require_empty_endpoint(k, generation.producer_source)?;
    require_empty_endpoint(k, generation.observer_source)?;
    require_empty_endpoint(k, stress.status_endpoint)?;
    require_empty_endpoint(k, stress.control_endpoint)
}

/// Ending the service: one restart is charged, and nothing of the generation is left. How long to
/// wait before the restart.
pub open spec fn terminate_run(
    k: kernel::Transcript,
    service: supervisor::Service,
    broker: route_broker::Broker,
    generation: LoggingGeneration,
    process_id: ProcessId,
) -> Run<((supervisor::Service, route_broker::Broker), u32)> {
    init_run::bind(
        signal_one_run(k, process_id, SIGNAL_TERMINATE),
        |k: kernel::Transcript, signalled: ()|
            init_run::bind(
                ended_run(k, service, broker, process_id, LOGGING_PROBE_MAX_YIELDS as nat),
                |k: kernel::Transcript, ended: (supervisor::Service, u32)|
                    if ended.0.restart_count != 1 {
                        init_run::giving_up(k, Text::LoggingCollectorRestartPolicyFailed)
                    } else {
                        init_run::bind(
                            route_broker::withdraw_run(k, broker.routes, generation.generation),
                            |k: kernel::Transcript, routes: route_broker::Routes|
                                init_run::bind(
                                    clear_run(k, generation),
                                    |k: kernel::Transcript, cleared: ()|
                                        init_run::end(
                                            k,
                                            (
                                                (
                                                    ended.0,
                                                    route_broker::Broker { routes, ..broker },
                                                ),
                                                ended.1,
                                            ),
                                        ),
                                ),
                        )
                    },
            ),
    )
}

/// Clearing up after a generation.
pub open spec fn clear_run(k: kernel::Transcript, generation: LoggingGeneration) -> Run<()> {
    init_run::bind(
        logging_supervision::drain_job_run(k, generation),
        |k: kernel::Transcript, drained: LoggingGeneration|
            logging_supervision::close_run(k, drained),
    )
}

fn terminate(
    k: &mut Kernel,
    service: &mut ServiceRuntime,
    route_broker: &mut RouteBrokerState,
    generation: LoggingGeneration,
    process_id: ProcessId,
) -> (result: Result<u32, Halt>)
    ensures
        ({
            let (asked, outcome) = terminate_run(
                old(k)@,
                old(service)@,
                old(route_broker)@,
                generation,
                process_id,
            );
            &&& final(k)@ == asked
            &&& init_run::came_to(outcome, (final(service)@, final(route_broker)@), result)
        }),
{
    let mut generation = generation;
    signal_one(k, process_id, SIGNAL_TERMINATE)?;
    let yields: u32 = wait_for_logging_service_restart(k, service, route_broker, process_id)?;
    demand(service.restart_count() == 1, Text::LoggingCollectorRestartPolicyFailed)?;
    route_broker.withdraw(k, generation.generation)?;
    generation.drain_job(k)?;
    generation.close(k)?;
    Ok(yields)
}

/// Whether a generation that replaces another shares nothing with it.
pub open spec fn is_fresh(
    service: supervisor::Service,
    old_process: ProcessId,
    old: LoggingGeneration,
    replacement: LoggingGeneration,
) -> bool {
    &&& service.process_id != Some(old_process)
    &&& service.restart_count == 1
    &&& replacement.generation.raw > old.generation.raw
    &&& replacement.producer_object_id != old.producer_object_id
    &&& replacement.observer_object_id != old.observer_object_id
}

fn fresh(
    service: &ServiceRuntime,
    old_process: ProcessId,
    old: &LoggingGeneration,
    replacement: &LoggingGeneration,
) -> (fresh: bool)
    ensures
        fresh == is_fresh(service@, old_process, *old, *replacement),
{
    let same_process = match service.process_id() {
        Some(process_id) => process_id == old_process,
        None => false,
    };
    !same_process && service.restart_count() == 1 && replacement.generation.get()
        > old.generation.get() && replacement.producer_object_id != old.producer_object_id
        && replacement.observer_object_id != old.observer_object_id
}

/// Starting the replacement and looking whether it works.
pub open spec fn revive_run(
    k: kernel::Transcript,
    collector: Collector,
    early_log_reader: CapabilityHandle,
    backoff_yields: u32,
    old_process: ProcessId,
    old: LoggingGeneration,
) -> Run<(Collector, LoggingGeneration)> {
    init_run::bind(
        init_run::announce_run(k, Text::LoggingServiceRestarting),
        |k: kernel::Transcript, said: ()|
            init_run::bind(
                init_run::backoff_run(k, backoff_yields as nat),
                |k: kernel::Transcript, rested: ()|
                    init_run::bind(
                        logging_supervision::start_run(k, collector, early_log_reader),
                        |k: kernel::Transcript, started: (Collector, LoggingGeneration)|
                            if !is_fresh(started.0.service, old_process, old, started.1) {
                                init_run::giving_up(k, Text::LoggingCollectorRestartPolicyFailed)
                            } else {
                                init_run::bind(
                                    prove_run(k, started.0, started.1),
                                    |k: kernel::Transcript, proved: ()|
                                        init_run::end(k, started),
                                )
                            },
                    ),
            ),
    )
}

/// Running the probe on the replacement, which leaves nothing in its queues.
pub open spec fn prove_run(
    k: kernel::Transcript,
    collector: Collector,
    replacement: LoggingGeneration,
) -> Run<()> {
    init_run::bind(
        logging_probe_run(
            k,
            collector.service,
            collector.broker,
            Text::LoggingRestartProbeCommand,
            None,
        ),
        |k: kernel::Transcript, probed: ()|
            init_run::bind(
                holds_run(k, replacement.producer_source, 0),
                |k: kernel::Transcript, producer: ()|
                    holds_run(k, replacement.observer_source, 0),
            ),
    )
}

fn revive(
    k: &mut Kernel,
    service: &mut ServiceRuntime,
    route_broker: &mut RouteBrokerState,
    generations: &mut ProviderGenerationSequence,
    early_log_reader: CapabilityHandle,
    backoff_yields: u32,
    old_process: ProcessId,
    old_generation: &LoggingGeneration,
) -> (result: Result<LoggingGeneration, Halt>)
    ensures
        ({
            let (asked, outcome) = revive_run(
                old(k)@,
                logging_supervision::Starting {
                    service: old(service)@,
                    broker: old(route_broker)@,
                    generations: old(generations)@,
                },
                early_log_reader,
                backoff_yields,
                old_process,
                *old_generation,
            );
            &&& final(k)@ == asked
            &&& init_run::came_to(
                outcome,
                logging_supervision::Starting {
                    service: final(service)@,
                    broker: final(route_broker)@,
                    generations: final(generations)@,
                },
                result,
            )
        }),
{
    announce(k, Text::LoggingServiceRestarting)?;
    backoff(k, backoff_yields)?;
    let replacement = start_logging_generation(
        k,
        service,
        route_broker,
        generations,
        early_log_reader,
    )?;
    demand(
        fresh(service, old_process, old_generation, &replacement),
        Text::LoggingCollectorRestartPolicyFailed,
    )?;
    run_logging_probe(k, service, route_broker, Text::LoggingRestartProbeCommand, None)?;
    require_empty_endpoint(k, replacement.producer_source)?;
    require_empty_endpoint(k, replacement.observer_source)?;
    Ok(replacement)
}

/// Putting the service under pressure, ending it and replacing it.
pub open spec fn collector_test_run(
    k: kernel::Transcript,
    collector: Collector,
    early_log_reader: CapabilityHandle,
    generation: LoggingGeneration,
) -> Run<(Collector, LoggingGeneration)> {
    init_run::bind(
        stress_run(k, collector.broker),
        |k: kernel::Transcript, stress: Stress|
            init_run::bind(
                heard_run(
                    k,
                    collector.service,
                    collector.broker,
                    stress.process_id,
                    stress.status_endpoint,
                    Text::LoggingProbeBound,
                    LOGGING_PROBE_MAX_YIELDS as nat,
                ),
                |k: kernel::Transcript, bound: ()|
                    match collector.service.process_id {
                        None => init_run::giving_up(k, Text::LoggingProbeFailed),
                        Some(process_id) => stressed_run(
                            k,
                            collector,
                            early_log_reader,
                            generation,
                            process_id,
                            stress,
                        ),
                    },
            ),
    )
}

/// Everything from the moment that the probe has its routes.
pub open spec fn stressed_run(
    k: kernel::Transcript,
    collector: Collector,
    early_log_reader: CapabilityHandle,
    generation: LoggingGeneration,
    process_id: ProcessId,
    stress: Stress,
) -> Run<(Collector, LoggingGeneration)> {
    init_run::bind(
        pause_run(k, collector.service, collector.broker, generation, process_id),
        |k: kernel::Transcript, paused: (supervisor::Service, ())|
            init_run::bind(
                pressure_run(k, paused.0, collector.broker, generation, process_id, stress),
                |k: kernel::Transcript, pressed: (supervisor::Service, ())|
                    init_run::bind(
                        quiet_run(k, generation, stress),
                        |k: kernel::Transcript, quiet: ()|
                            renewed_run(
                                k,
                                logging_supervision::Starting { service: pressed.0, ..collector },
                                early_log_reader,
                                generation,
                                process_id,
                                stress,
                            ),
                    ),
            ),
    )
}

/// Everything from the moment that the probe has ended.
pub open spec fn renewed_run(
    k: kernel::Transcript,
    collector: Collector,
    early_log_reader: CapabilityHandle,
    generation: LoggingGeneration,
    process_id: ProcessId,
    stress: Stress,
) -> Run<(Collector, LoggingGeneration)> {
    init_run::bind(
        terminate_run(k, collector.service, collector.broker, generation, process_id),
        |
            k: kernel::Transcript,
            terminated: ((supervisor::Service, route_broker::Broker), u32),
        |
            init_run::bind(
                revive_run(
                    k,
                    logging_supervision::Starting {
                        service: terminated.0.0,
                        broker: terminated.0.1,
                        generations: collector.generations,
                    },
                    early_log_reader,
                    terminated.1,
                    process_id,
                    generation,
                ),
                |k: kernel::Transcript, revived: (Collector, LoggingGeneration)|
                    init_run::bind(
                        nullfs_probes::close_both_run(
                            k,
                            stress.status_endpoint,
                            stress.control_endpoint,
                            Text::LoggingProbeFailed,
                        ),
                        |k: kernel::Transcript, closed: ()|
                            init_run::bind(
                                init_run::announce_run(k, Text::LoggingCollectorTestPassed),
                                |k: kernel::Transcript, said: ()| init_run::end(k, revived),
                            ),
                    ),
            ),
    )
}

pub fn run_logging_collector_restart_test(
    k: &mut Kernel,
    service: &mut ServiceRuntime,
    route_broker: &mut RouteBrokerState,
    generations: &mut ProviderGenerationSequence,
    early_log_reader: CapabilityHandle,
    generation: LoggingGeneration,
) -> (result: Result<LoggingGeneration, Halt>)
    ensures
        ({
            let (asked, outcome) = collector_test_run(
                old(k)@,
                logging_supervision::Starting {
                    service: old(service)@,
                    broker: old(route_broker)@,
                    generations: old(generations)@,
                },
                early_log_reader,
                generation,
            );
            &&& final(k)@ == asked
            &&& init_run::came_to(
                outcome,
                logging_supervision::Starting {
                    service: final(service)@,
                    broker: final(route_broker)@,
                    generations: final(generations)@,
                },
                result,
            )
        }),
{
    let text = Text::LoggingProbeFailed;
    let stress = launch_stress(k, route_broker)?;
    wait_for_logging_probe_message(
        k,
        service,
        route_broker,
        stress.process_id,
        stress.status_endpoint,
        Text::LoggingProbeBound,
    )?;
    let process_id: u64 = match service.process_id() {
        Some(process_id) => process_id,
        None => {
            return Err(Halt::Failed(text));
        },
    };
    pause(k, service, route_broker, &generation, process_id)?;
    put_under_pressure(k, service, route_broker, &generation, process_id, stress)?;
    require_quiet(k, &generation, stress)?;
    let backoff_yields: u32 = terminate(k, service, route_broker, generation, process_id)?;
    let replacement = revive(
        k,
        service,
        route_broker,
        generations,
        early_log_reader,
        backoff_yields,
        process_id,
        &generation,
    )?;
    close_both(k, stress.status_endpoint, stress.control_endpoint, text)?;
    announce(k, Text::LoggingCollectorTestPassed)?;
    Ok(replacement)
}

/// A collector that was replaced in the test shares nothing with its replacement, and exactly one
/// restart was charged for it.
pub proof fn lemma_replacement_is_fresh(
    k: kernel::Transcript,
    collector: Collector,
    early_log_reader: CapabilityHandle,
    backoff_yields: u32,
    old_process: ProcessId,
    old: LoggingGeneration,
)
    ensures
        revive_run(
            k,
            collector,
            early_log_reader,
            backoff_yields,
            old_process,
            old,
        ).1 matches Ok((after, replacement)) ==> is_fresh(
            after.service,
            old_process,
            old,
            replacement,
        ),
{
}

proof fn lemma_revived_is_published(
    k: kernel::Transcript,
    collector: Collector,
    early_log_reader: CapabilityHandle,
    backoff_yields: u32,
    old_process: ProcessId,
    old: LoggingGeneration,
)
    ensures
        revive_run(
            k,
            collector,
            early_log_reader,
            backoff_yields,
            old_process,
            old,
        ).1 matches Ok((after, replacement)) ==> replacement.routes_published
            && logging_supervision::leads_to(after.broker.routes, replacement.generation),
{
    if let (said, Ok(_)) = init_run::announce_run(k, Text::LoggingServiceRestarting) {
        let (rested, _) = init_run::backoff_run(said, backoff_yields as nat);
        logging_supervision::lemma_started_logging_is_published(
            rested,
            collector,
            early_log_reader,
        );
    }
}

proof fn lemma_renewed_is_published(
    k: kernel::Transcript,
    collector: Collector,
    early_log_reader: CapabilityHandle,
    generation: LoggingGeneration,
    process_id: ProcessId,
    stress: Stress,
)
    ensures
        renewed_run(k, collector, early_log_reader, generation, process_id, stress).1 matches Ok(
            (after, replacement),
        ) ==> replacement.routes_published && logging_supervision::leads_to(
            after.broker.routes,
            replacement.generation,
        ),
{
    if let (ended, Ok(((service, broker), yields))) = terminate_run(
        k,
        collector.service,
        collector.broker,
        generation,
        process_id,
    ) {
        lemma_revived_is_published(
            ended,
            logging_supervision::Starting {
                service,
                broker,
                generations: collector.generations,
            },
            early_log_reader,
            yields,
            process_id,
            generation,
        );
    }
}

/// A collector that was replaced in the test is published: both routes lead to the replacement.
pub proof fn lemma_replaced_collector_is_published(
    k: kernel::Transcript,
    collector: Collector,
    early_log_reader: CapabilityHandle,
    generation: LoggingGeneration,
)
    ensures
        collector_test_run(k, collector, early_log_reader, generation).1 matches Ok(
            (after, replacement),
        ) ==> replacement.routes_published && logging_supervision::leads_to(
            after.broker.routes,
            replacement.generation,
        ),
{
    if let (launched, Ok(stress)) = stress_run(k, collector.broker) {
        if let (heard, Ok(_)) = heard_run(
            launched,
            collector.service,
            collector.broker,
            stress.process_id,
            stress.status_endpoint,
            Text::LoggingProbeBound,
            LOGGING_PROBE_MAX_YIELDS as nat,
        ) {
            if let Some(process_id) = collector.service.process_id {
                lemma_stressed_is_published(
                    heard,
                    collector,
                    early_log_reader,
                    generation,
                    process_id,
                    stress,
                );
            }
        }
    }
}

proof fn lemma_stressed_is_published(
    k: kernel::Transcript,
    collector: Collector,
    early_log_reader: CapabilityHandle,
    generation: LoggingGeneration,
    process_id: ProcessId,
    stress: Stress,
)
    ensures
        stressed_run(k, collector, early_log_reader, generation, process_id, stress).1 matches Ok(
            (after, replacement),
        ) ==> replacement.routes_published && logging_supervision::leads_to(
            after.broker.routes,
            replacement.generation,
        ),
{
    if let (paused, Ok((first, _))) = pause_run(
        k,
        collector.service,
        collector.broker,
        generation,
        process_id,
    ) {
        if let (pressed, Ok((second, _))) = pressure_run(
            paused,
            first,
            collector.broker,
            generation,
            process_id,
            stress,
        ) {
            if let (quiet, Ok(_)) = quiet_run(pressed, generation, stress) {
                lemma_renewed_is_published(
                    quiet,
                    logging_supervision::Starting { service: second, ..collector },
                    early_log_reader,
                    generation,
                    process_id,
                    stress,
                );
            }
        }
    }
}

/// Looking once whether the tool that asks about services has ended.
pub open spec fn control_step_run(
    k: kernel::Transcript,
    control: service_registry::Control,
    registry: service_registry::Registry,
    generations: Generations,
    process_id: ProcessId,
    remaining: nat,
) -> Run<bool> {
    let text = Text::ServiceControlProbeFailed;
    init_run::bind(
        service_registry::observation_run(
            k,
            control.observation,
            registry,
            generations,
            SERVICE_CONTROL_PUMP_BUDGET as nat,
        ),
        |k: kernel::Transcript, pumped: ()|
            init_run::bind(
                probe::ended_run(k, process_id, text),
                |k: kernel::Transcript, ended: bool|
                    if ended {
                        init_run::end(k, true)
                    } else {
                        init_run::bind(
                            tire_run(k, remaining, text),
                            |k: kernel::Transcript, tired: ()| init_run::end(k, false),
                        )
                    },
            ),
    )
}

/// Answering questions about services until the tool that asks has ended successfully.
pub open spec fn control_ended_run(
    k: kernel::Transcript,
    control: service_registry::Control,
    registry: service_registry::Registry,
    generations: Generations,
    process_id: ProcessId,
    remaining: nat,
) -> Run<()>
    decreases remaining,
{
    let (looked, result) = control_step_run(
        k,
        control,
        registry,
        generations,
        process_id,
        remaining,
    );
    match result {
        Err(halt) => (looked, Err(halt)),
        Ok(true) => init_run::end(looked, ()),
        Ok(false) => if remaining > 0 {
            control_ended_run(
                looked,
                control,
                registry,
                generations,
                process_id,
                (remaining - 1) as nat,
            )
        } else {
            (looked, Err(Halt::Waiting))
        },
    }
}

/// Running a tool that asks about services.
pub open spec fn control_probe_run(
    k: kernel::Transcript,
    command: Text,
    passed: Text,
    control: service_registry::Control,
    registry: service_registry::Registry,
    generations: Generations,
) -> Run<()> {
    init_run::bind(
        probe::launch_run(
            k,
            command,
            false,
            seq![sending(control.observation_source, READY_HANDLE)],
            Text::ServiceControlProbeFailed,
        ),
        |k: kernel::Transcript, process_id: u64|
            init_run::bind(
                control_ended_run(
                    k,
                    control,
                    registry,
                    generations,
                    process_id,
                    LOGGING_PROBE_MAX_YIELDS as nat,
                ),
                |k: kernel::Transcript, ended: ()| init_run::announce_run(k, passed),
            ),
    )
}

pub fn run_service_control_probe(
    k: &mut Kernel,
    command: Text,
    passed_message: Text,
    control: &mut ServiceControlState,
    services: &Services,
    generations: Generations,
) -> (result: Result<(), Halt>)
    ensures
        (final(k)@, result) == control_probe_run(
            old(k)@,
            command,
            passed_message,
            old(control)@,
            services@,
            generations,
        ),
        final(control)@ == old(control)@,
{
    let text = Text::ServiceControlProbeFailed;
    let grants: [BootstrapCapability; 1] = [sending(control.observation_source, READY_HANDLE)];
    assert(grants@ =~= seq![sending(control@.observation_source, READY_HANDLE)]);
    let process_id: u64 = launch_tool(k, command, false, &grants, text)?;
    let ghost launched = k@;
    let mut remaining: u32 = LOGGING_PROBE_MAX_YIELDS;
    loop
        invariant_except_break
            text == Text::ServiceControlProbeFailed,
            control@ == old(control)@,
            control_ended_run(
                launched,
                old(control)@,
                services@,
                generations,
                process_id,
                LOGGING_PROBE_MAX_YIELDS as nat,
            ) == control_ended_run(
                k@,
                old(control)@,
                services@,
                generations,
                process_id,
                remaining as nat,
            ),
            control_probe_run(
                old(k)@,
                command,
                passed_message,
                old(control)@,
                services@,
                generations,
            ) == init_run::bind(
                control_ended_run(
                    launched,
                    old(control)@,
                    services@,
                    generations,
                    process_id,
                    LOGGING_PROBE_MAX_YIELDS as nat,
                ),
                |k: kernel::Transcript, ended: ()| init_run::announce_run(k, passed_message),
            ),
        ensures
            control@ == old(control)@,
            control_probe_run(
                old(k)@,
                command,
                passed_message,
                old(control)@,
                services@,
                generations,
            ) == init_run::announce_run(k@, passed_message),
        decreases remaining,
    {
        control.pump_observation(k, services, generations)?;
        if has_ended(k, process_id, text)? {
            break;
        }
        remaining = yield_logging_probe(k, remaining, text)?;
    }
    announce(k, passed_message)
}

/// A handle that the shell can use and hand on.
#[verifier::allow_in_spec]
pub fn lending(source: CapabilityHandle, target: CapabilityHandle) -> BootstrapCapability
    returns
        (BootstrapCapability {
            source_handle: source,
            rights: Rights { raw: Rights::send().raw | Rights::duplicate().raw },
            target_handle: target,
        }),
{
    BootstrapCapability {
        source_handle: source,
        rights: Rights::send() | Rights::duplicate(),
        target_handle: target,
    }
}

/// Running the shell in the foreground.
pub open spec fn shell_run(
    k: kernel::Transcript,
    observer_ingress: CapabilityHandle,
    observation: CapabilityHandle,
    mutation: CapabilityHandle,
) -> Run<ProcessId> {
    init_run::bind(
        probe::launch_run(
            k,
            Text::ShellCommand,
            true,
            seq![
                lending(observer_ingress, READY_HANDLE),
                lending(observation, SHELL_SERVICE_CONTROL_HANDLE),
                lending(mutation, SHELL_SERVICE_CONTROL_MUTATION_HANDLE),
            ],
            Text::ShellSpawnFailed,
        ),
        |k: kernel::Transcript, process_id: u64|
            init_run::bind(
                init_run::announce_run(k, Text::ShellLaunched),
                |k: kernel::Transcript, said: ()| init_run::end(k, process_id),
            ),
    )
}

pub fn spawn_shell(
    k: &mut Kernel,
    observer_ingress: CapabilityHandle,
    service_control_observer: CapabilityHandle,
    service_control_mutation: CapabilityHandle,
) -> (result: Result<ProcessId, Halt>)
    ensures
        (final(k)@, result) == shell_run(
            old(k)@,
            observer_ingress,
            service_control_observer,
            service_control_mutation,
        ),
{
    let grants: [BootstrapCapability; 3] = [
        lending(observer_ingress, READY_HANDLE),
        lending(service_control_observer, SHELL_SERVICE_CONTROL_HANDLE),
        lending(service_control_mutation, SHELL_SERVICE_CONTROL_MUTATION_HANDLE),
    ];
    assert(grants@ =~= seq![
        lending(observer_ingress, READY_HANDLE),
        lending(service_control_observer, SHELL_SERVICE_CONTROL_HANDLE),
        lending(service_control_mutation, SHELL_SERVICE_CONTROL_MUTATION_HANDLE),
    ]);
    let process_id: u64 = launch_tool(
        k,
        Text::ShellCommand,
        true,
        &grants,
        Text::ShellSpawnFailed,
    )?;
    announce(k, Text::ShellLaunched)?;
    Ok(process_id)
}

} // verus!
