//! How the logging service is kept: each generation has a job and endpoints of its own, its
//! routes are published once it is ready, and it is ended by force where it does not end by
//! itself.

use crate::activation;
use crate::activation::ActivationAttempt;
use crate::contained_service;
use crate::contained_service::{
    close_contained_endpoint, fail_attempt, launch, logging_containment, logging_messages,
    must_drain, prepare, ContainedServiceJob, GENERATION_HANDOFF_HANDLE, READY_BYTES, READY_HANDLE,
    REQUEST_HANDLE,
};
use crate::identity;
use crate::identity::{ProviderGeneration, ProviderGenerationSequence};
use crate::init_run;
use crate::init_run::{
    announce, backoff, grant_each, hear, is_expected_message, linger, not_yet,
    BootstrapCapability, Halt, Run,
};
use crate::init_text::Text;
use crate::ipc;
use crate::ipc::{CapabilityHandle, CapabilityInfo, Rights};
use crate::kernel;
use crate::kernel::{Kernel, Op};
use crate::route_broker;
use crate::route_broker::{logging_observer_key, logging_producer_key, RouteBrokerState};
use crate::route_protocol;
use crate::service_cleanup::Service;
use crate::supervisor;
use crate::supervisor::{
    ReadyDisposition, ServiceRuntime, ServiceState, ServiceStatusDisposition,
};
use crate::syscall;
use crate::syscall::{try_wait_child, ChildStatus, ProcessId};
use vstd::prelude::*;

verus! {

pub const LOGGING_OBSERVER_INGRESS_HANDLE: u64 = 3;

pub const LOGGING_EARLY_LOG_HANDLE: u64 = 4;

pub const LOGGING_TERMINATION_GRACE_YIELDS: u32 = 64;

pub const LOGGING_READINESS_GRACE_YIELDS: u32 = 2_048;

pub const LOGGING_TEST_READINESS_GRACE_YIELDS: u32 = 64;

pub const LOGGING_FORCE_TERMINATION_ATTEMPTS: u32 = 64;

/// From this generation on a lifecycle test runs a service that never says that it is ready.
pub const LOGGING_TEST_SILENT_GENERATION: u64 = 4;

/// One generation of the logging service.
#[derive(Clone, Copy, Debug, PartialEq, Eq, Structural)]
pub struct LoggingGeneration {
    pub generation: ProviderGeneration,
    pub readiness_source: CapabilityHandle,
    pub producer_source: CapabilityHandle,
    pub observer_source: CapabilityHandle,
    pub producer_object_id: u64,
    pub observer_object_id: u64,
    pub job: Option<CapabilityHandle>,
    pub cleanup_budget_reported: bool,
    pub readiness_received: bool,
    pub child_stopped: bool,
    pub routes_published: bool,
    pub readiness_yields_remaining: u32,
    pub readiness_force_termination_sent: bool,
    pub force_termination_attempts_remaining: u32,
}

/// Draining the job of a generation whose leader is gone.
pub open spec fn drain_job_run(k: kernel::Transcript, generation: LoggingGeneration) -> Run<
    LoggingGeneration,
> {
    init_run::bind(
        contained_service::must_drain_run(
            k,
            ContainedServiceJob {
                containment: logging_containment(),
                job: generation.job,
                cleanup_budget_reported: generation.cleanup_budget_reported,
            },
            Text::LoggingServiceFailed,
        ),
        |k: kernel::Transcript, drained: ContainedServiceJob|
            init_run::end(
                k,
                LoggingGeneration {
                    job: drained.job,
                    cleanup_budget_reported: drained.cleanup_budget_reported,
                    ..generation
                },
            ),
    )
}

/// Closing the endpoints of a generation whose job is gone.
pub open spec fn close_run(k: kernel::Transcript, generation: LoggingGeneration) -> Run<()> {
    let text = Text::LoggingServiceBootstrapFailed;
    if generation.job is Some {
        init_run::giving_up(k, Text::LoggingServiceProtocolFailed)
    } else {
        init_run::bind(
            contained_service::close_endpoint_run(
                k,
                logging_containment(),
                generation.readiness_source,
                text,
            ),
            |k: kernel::Transcript, first: ()|
                init_run::bind(
                    contained_service::close_endpoint_run(
                        k,
                        logging_containment(),
                        generation.producer_source,
                        text,
                    ),
                    |k: kernel::Transcript, second: ()|
                        contained_service::close_endpoint_run(
                            k,
                            logging_containment(),
                            generation.observer_source,
                            text,
                        ),
                ),
        )
    }
}

/// Clearing a generation away.
pub open spec fn retire_run(k: kernel::Transcript, generation: LoggingGeneration) -> Run<()> {
    init_run::bind(
        drain_job_run(k, generation),
        |k: kernel::Transcript, drained: LoggingGeneration| close_run(k, drained),
    )
}

impl LoggingGeneration {
    pub fn drain_job(&mut self, k: &mut Kernel) -> (result: Result<(), Halt>)
        ensures
            ({
                let (asked, outcome) = drain_job_run(old(k)@, *old(self));
                &&& final(k)@ == asked
                &&& match result {
                    Ok(_) => outcome == Ok::<_, Halt>(*final(self)),
                    Err(halt) => outcome == Err::<LoggingGeneration, _>(halt),
                }
            }),
    {
        let mut job = ContainedServiceJob {
            containment: logging_containment(),
            job: self.job,
            cleanup_budget_reported: self.cleanup_budget_reported,
        };
        must_drain(k, &mut job, Text::LoggingServiceFailed)?;
        self.job = job.job;
        self.cleanup_budget_reported = job.cleanup_budget_reported;
        Ok(())
    }

    pub fn close(self, k: &mut Kernel) -> (result: Result<(), Halt>)
        ensures
            (final(k)@, result) == close_run(old(k)@, self),
    {
        if self.job.is_some() {
            return Err(Halt::Failed(Text::LoggingServiceProtocolFailed));
        }
        let text = Text::LoggingServiceBootstrapFailed;
        close_contained_endpoint(k, logging_containment(), self.readiness_source, text)?;
        close_contained_endpoint(k, logging_containment(), self.producer_source, text)?;
        close_contained_endpoint(k, logging_containment(), self.observer_source, text)
    }

    fn retire(self, k: &mut Kernel) -> (result: Result<(), Halt>)
        ensures
            (final(k)@, result) == retire_run(old(k)@, self),
    {
        let mut generation = self;
        generation.drain_job(k)?;
        generation.close(k)
    }
}

/// The logging service between its generations and within one.
#[derive(Clone, Copy, Debug, PartialEq, Eq, Structural)]
pub struct LoggingLifecycle {
    pub current: Option<LoggingGeneration>,
    pub last_generation: ProviderGeneration,
    pub backoff_yields_remaining: u32,
    pub termination_grace_yields_remaining: Option<u32>,
    pub force_termination_sent: bool,
    pub force_termination_attempts_remaining: u32,
}

/// Whether the routes lead to the current generation exactly when it says that they are
/// published, and nowhere otherwise.
pub open spec fn routes_match(lifecycle: LoggingLifecycle, routes: route_broker::Routes) -> bool {
    let producer = route_protocol::active_route(routes, logging_producer_key());
    let observer = route_protocol::active_route(routes, logging_observer_key());
    match lifecycle.current {
        Some(generation) if generation.routes_published => {
            &&& producer is Some && producer->0.generation == generation.generation
            &&& observer is Some && observer->0.generation == generation.generation
        },
        _ => producer is None && observer is None,
    }
}

/// Withdrawing the routes of the current generation, if they are published.
pub open spec fn withdraw_routes_run(
    k: kernel::Transcript,
    lifecycle: LoggingLifecycle,
    broker: route_broker::Broker,
) -> Run<((LoggingLifecycle, route_broker::Broker), ())> {
    match lifecycle.current {
        Some(generation) if generation.routes_published => init_run::bind(
            route_broker::withdraw_run(k, broker.routes, generation.generation),
            |k: kernel::Transcript, routes: route_broker::Routes|
                init_run::end(
                    k,
                    (
                        (
                            LoggingLifecycle {
                                current: Some(
                                    LoggingGeneration { routes_published: false, ..generation },
                                ),
                                ..lifecycle
                            },
                            route_broker::Broker { routes, ..broker },
                        ),
                        (),
                    ),
                ),
        ),
        _ => init_run::end(k, ((lifecycle, broker), ())),
    }
}

/// Clearing the current generation away, if there is one.
pub open spec fn close_current_run(k: kernel::Transcript, lifecycle: LoggingLifecycle) -> Run<
    (LoggingLifecycle, ()),
> {
    let cleared = LoggingLifecycle {
        current: None,
        termination_grace_yields_remaining: None,
        force_termination_sent: false,
        force_termination_attempts_remaining: 0,
        ..lifecycle
    };
    match lifecycle.current {
        None => init_run::end(k, (cleared, ())),
        Some(generation) => init_run::bind(
            retire_run(k, generation),
            |k: kernel::Transcript, retired: ()| init_run::end(k, (cleared, ())),
        ),
    }
}

impl LoggingLifecycle {
    /// The lifecycle of a generation that is ready.
    pub open spec fn of(generation: LoggingGeneration) -> Result<LoggingLifecycle, Halt> {
        if !generation.routes_published {
            Err(Halt::Failed(Text::LoggingServiceProtocolFailed))
        } else {
            Ok(
                LoggingLifecycle {
                    current: Some(generation),
                    last_generation: generation.generation,
                    backoff_yields_remaining: 0,
                    termination_grace_yields_remaining: None,
                    force_termination_sent: false,
                    force_termination_attempts_remaining: 0,
                },
            )
        }
    }

    pub fn running(generation: LoggingGeneration) -> (result: Result<Self, Halt>)
        ensures
            result == Self::of(generation),
    {
        if !generation.routes_published {
            return Err(Halt::Failed(Text::LoggingServiceProtocolFailed));
        }
        Ok(
            LoggingLifecycle {
                current: Some(generation),
                last_generation: generation.generation,
                backoff_yields_remaining: 0,
                termination_grace_yields_remaining: None,
                force_termination_sent: false,
                force_termination_attempts_remaining: 0,
            },
        )
    }

    pub fn generation(&self) -> (generation: ProviderGeneration)
        ensures
            generation == self.last_generation,
    {
        self.last_generation
    }

    pub fn withdraw_routes(&mut self, k: &mut Kernel, route_broker: &mut RouteBrokerState) -> (result:
        Result<(), Halt>)
        ensures
            ({
                let (asked, outcome) = withdraw_routes_run(
                    old(k)@,
                    *old(self),
                    old(route_broker)@,
                );
                &&& final(k)@ == asked
                &&& init_run::came_to(outcome, (*final(self), final(route_broker)@), result)
            }),
    {
        if let Some(generation) = self.current {
            if generation.routes_published {
                route_broker.withdraw(k, generation.generation)?;
                self.current = Some(LoggingGeneration { routes_published: false, ..generation });
            }
        }
        Ok(())
    }

    pub fn close_current(&mut self, k: &mut Kernel) -> (result: Result<(), Halt>)
        ensures
            ({
                let (asked, outcome) = close_current_run(old(k)@, *old(self));
                &&& final(k)@ == asked
                &&& init_run::came_to(outcome, *final(self), result)
            }),
    {
        if let Some(generation) = self.current {
            self.current = None;
            generation.retire(k)?;
        }
        self.termination_grace_yields_remaining = None;
        self.force_termination_sent = false;
        self.force_termination_attempts_remaining = 0;
        Ok(())
    }

    /// The lifecycle with a new generation in the place of none.
    pub open spec fn installed(self, generation: LoggingGeneration) -> Result<
        LoggingLifecycle,
        Halt,
    > {
        if self.current is Some {
            Err(Halt::Failed(Text::LoggingServiceProtocolFailed))
        } else {
            Ok(
                LoggingLifecycle {
                    last_generation: generation.generation,
                    current: Some(generation),
                    ..self
                },
            )
        }
    }

    pub fn install(&mut self, generation: LoggingGeneration) -> (result: Result<(), Halt>)
        ensures
            match result {
                Ok(_) => old(self).installed(generation) == Ok::<_, Halt>(*final(self)),
                Err(halt) => old(self).installed(generation) == Err::<LoggingLifecycle, _>(halt)
                    && *final(self) == *old(self),
            },
    {
        if self.current.is_some() {
            return Err(Halt::Failed(Text::LoggingServiceProtocolFailed));
        }
        self.last_generation = generation.generation;
        self.current = Some(generation);
        Ok(())
    }
}

/// What a generation of the logging service is started with.
#[verifier::allow_in_spec]
pub fn silent_in_test(lifecycle_test: bool, generation: ProviderGeneration) -> bool
    returns
        lifecycle_test && generation.raw >= LOGGING_TEST_SILENT_GENERATION,
{
    lifecycle_test && generation.raw >= LOGGING_TEST_SILENT_GENERATION
}

/// The command of a generation of the logging service.
pub open spec fn command_of(
    service: supervisor::Service,
    lifecycle_test: bool,
    generation: ProviderGeneration,
) -> Seq<u8> {
    if silent_in_test(lifecycle_test, generation) {
        Text::LoggingServiceSuppressReadinessCommand.bytes()
    } else if lifecycle_test {
        Text::LoggingServiceIgnoreTerminateCommand.bytes()
    } else {
        service.spec.command@
    }
}

/// How long a generation may take to be ready.
#[verifier::allow_in_spec]
pub fn readiness_patience(lifecycle_test: bool, generation: ProviderGeneration) -> u32
    returns
        (if silent_in_test(lifecycle_test, generation) {
            LOGGING_TEST_READINESS_GRACE_YIELDS
        } else {
            LOGGING_READINESS_GRACE_YIELDS
        }),
{
    if silent_in_test(lifecycle_test, generation) {
        LOGGING_TEST_READINESS_GRACE_YIELDS
    } else {
        LOGGING_READINESS_GRACE_YIELDS
    }
}

/// Giving up on a generation that is not running yet.
pub open spec fn fail_launch_run<T>(k: kernel::Transcript, attempt: ActivationAttempt) -> Run<T> {
    contained_service::fail_attempt_run(
        k,
        attempt,
        Text::LoggingServiceFailed,
        Text::LoggingServiceBootstrapFailed,
    )
}

fn fail_launch<T>(k: &mut Kernel, attempt: ActivationAttempt) -> (result: Result<T, Halt>)
    ensures
        (final(k)@, result) == fail_launch_run::<T>(old(k)@, attempt),
{
    fail_attempt(k, attempt, Text::LoggingServiceFailed, Text::LoggingServiceBootstrapFailed)
}

/// Making the three endpoints of a generation.
pub open spec fn endpoints_run(k: kernel::Transcript, attempt: ActivationAttempt) -> Run<
    ActivationAttempt,
> {
    init_run::bind(
        endpoint_run(k, attempt),
        |k: kernel::Transcript, readiness: u64|
            producer_endpoint_run(
                k,
                ActivationAttempt { readiness_source: Some(readiness), ..attempt },
            ),
    )
}

pub open spec fn producer_endpoint_run(k: kernel::Transcript, attempt: ActivationAttempt) -> Run<
    ActivationAttempt,
> {
    init_run::bind(
        endpoint_run(k, attempt),
        |k: kernel::Transcript, producer: u64|
            observer_endpoint_run(
                k,
                ActivationAttempt { producer_source: Some(producer), ..attempt },
            ),
    )
}

pub open spec fn observer_endpoint_run(k: kernel::Transcript, attempt: ActivationAttempt) -> Run<
    ActivationAttempt,
> {
    init_run::bind(
        endpoint_run(k, attempt),
        |k: kernel::Transcript, observer: u64|
            init_run::end(
                k,
                ActivationAttempt { observer_source: Some(observer), ..attempt },
            ),
    )
}

/// Making one endpoint of a generation.
pub open spec fn endpoint_run(k: kernel::Transcript, attempt: ActivationAttempt) -> Run<
    CapabilityHandle,
> {
    init_run::bind(
        init_run::hear_run(ipc::value_run(k, Op::EndpointCreate)),
        |k: kernel::Transcript, created: Result<u64, ipc::Error>|
            match created {
                Ok(handle) => init_run::end(k, handle),
                Err(_) => fail_launch_run(k, attempt),
            },
    )
}

fn endpoint(k: &mut Kernel, attempt: ActivationAttempt) -> (result: Result<CapabilityHandle, Halt>)
    ensures
        (final(k)@, result) == endpoint_run(old(k)@, attempt),
{
    match hear(ipc::endpoint_create(k))? {
        Ok(handle) => Ok(handle),
        Err(_) => fail_launch(k, attempt),
    }
}

fn endpoints(k: &mut Kernel, attempt: ActivationAttempt) -> (result: Result<
    ActivationAttempt,
    Halt,
>)
    ensures
        (final(k)@, result) == endpoints_run(old(k)@, attempt),
{
    let mut attempt = attempt;
    attempt.readiness_source = Some(endpoint(k, attempt)?);
    attempt.producer_source = Some(endpoint(k, attempt)?);
    attempt.observer_source = Some(endpoint(k, attempt)?);
    Ok(attempt)
}

/// The object behind one endpoint of a generation.
pub open spec fn object_run(
    k: kernel::Transcript,
    attempt: ActivationAttempt,
    handle: CapabilityHandle,
) -> Run<u64> {
    init_run::bind(
        init_run::hear_run(ipc::info_run(k, handle)),
        |k: kernel::Transcript, inspected: Result<CapabilityInfo, ipc::Error>|
            match inspected {
                Ok(info) => init_run::end(k, info.object_id),
                Err(_) => fail_launch_run(k, attempt),
            },
    )
}

fn object(k: &mut Kernel, attempt: ActivationAttempt, handle: CapabilityHandle) -> (result: Result<
    u64,
    Halt,
>)
    ensures
        (final(k)@, result) == object_run(old(k)@, attempt, handle),
{
    match hear(ipc::info(k, handle))? {
        Ok(info) => Ok(info.object_id),
        Err(_) => fail_launch(k, attempt),
    }
}

/// The objects behind the routes of a generation: both are there, and they differ.
pub open spec fn objects_run(
    k: kernel::Transcript,
    attempt: ActivationAttempt,
    producer: CapabilityHandle,
    observer: CapabilityHandle,
) -> Run<(u64, u64)> {
    init_run::bind(
        object_run(k, attempt, producer),
        |k: kernel::Transcript, producer_object: u64|
            init_run::bind(
                object_run(k, attempt, observer),
                |k: kernel::Transcript, observer_object: u64|
                    if producer_object == 0 || observer_object == 0 || producer_object
                        == observer_object {
                        fail_launch_run(k, attempt)
                    } else {
                        init_run::end(k, (producer_object, observer_object))
                    },
            ),
    )
}

fn objects(
    k: &mut Kernel,
    attempt: ActivationAttempt,
    producer: CapabilityHandle,
    observer: CapabilityHandle,
) -> (result: Result<(u64, u64), Halt>)
    ensures
        (final(k)@, result) == objects_run(old(k)@, attempt, producer, observer),
{
    let producer_object: u64 = object(k, attempt, producer)?;
    let observer_object: u64 = object(k, attempt, observer)?;
    if producer_object == 0 || observer_object == 0 || producer_object == observer_object {
        return fail_launch(k, attempt);
    }
    Ok((producer_object, observer_object))
}

/// What a generation of the logging service gets, in order.
pub open spec fn grants_of(
    readiness: CapabilityHandle,
    producer: CapabilityHandle,
    observer: CapabilityHandle,
    early_log_reader: CapabilityHandle,
    generation_source: CapabilityHandle,
) -> Seq<BootstrapCapability> {
    seq![
        BootstrapCapability {
            source_handle: readiness,
            rights: Rights::send(),
            target_handle: READY_HANDLE,
        },
        BootstrapCapability {
            source_handle: producer,
            rights: Rights::receive(),
            target_handle: REQUEST_HANDLE,
        },
        BootstrapCapability {
            source_handle: observer,
            rights: Rights::receive(),
            target_handle: LOGGING_OBSERVER_INGRESS_HANDLE,
        },
        BootstrapCapability {
            source_handle: early_log_reader,
            rights: Rights::read(),
            target_handle: LOGGING_EARLY_LOG_HANDLE,
        },
        BootstrapCapability {
            source_handle: generation_source,
            rights: Rights::receive(),
            target_handle: GENERATION_HANDOFF_HANDLE,
        },
    ]
}

/// Granting a generation what it needs and letting it go.
pub open spec fn release_run(
    k: kernel::Transcript,
    attempt: ActivationAttempt,
    process_id: ProcessId,
    grants: Seq<BootstrapCapability>,
) -> Run<ActivationAttempt> {
    init_run::bind(
        init_run::grant_each_run(k, process_id, grants, 0),
        |k: kernel::Transcript, given: bool|
            if !given {
                fail_launch_run(k, attempt)
            } else {
                contained_service::release_run(k, attempt, logging_messages())
            },
    )
}

fn release(
    k: &mut Kernel,
    attempt: ActivationAttempt,
    process_id: ProcessId,
    grants: &[BootstrapCapability],
) -> (result: Result<ActivationAttempt, Halt>)
    ensures
        (final(k)@, result) == release_run(old(k)@, attempt, process_id, grants@),
{
    if !grant_each(k, process_id, grants)? {
        return fail_launch(k, attempt);
    }
    let mut attempt = attempt;
    if !hear(attempt.release_child(k))? {
        return fail_launch(k, attempt);
    }
    Ok(attempt)
}

/// A generation that was let go and has not said anything yet.
#[verifier::allow_in_spec]
pub fn fresh_generation(
    generation: ProviderGeneration,
    sources: (CapabilityHandle, CapabilityHandle, CapabilityHandle),
    objects: (u64, u64),
    job: Option<CapabilityHandle>,
    readiness_yields_remaining: u32,
) -> LoggingGeneration
    returns
        (LoggingGeneration {
            generation,
            readiness_source: sources.0,
            producer_source: sources.1,
            observer_source: sources.2,
            producer_object_id: objects.0,
            observer_object_id: objects.1,
            job,
            cleanup_budget_reported: false,
            readiness_received: false,
            child_stopped: false,
            routes_published: false,
            readiness_yields_remaining,
            readiness_force_termination_sent: false,
            force_termination_attempts_remaining: LOGGING_FORCE_TERMINATION_ATTEMPTS,
        }),
{
    LoggingGeneration {
        generation,
        readiness_source: sources.0,
        producer_source: sources.1,
        observer_source: sources.2,
        producer_object_id: objects.0,
        observer_object_id: objects.1,
        job,
        cleanup_budget_reported: false,
        readiness_received: false,
        child_stopped: false,
        routes_published: false,
        readiness_yields_remaining,
        readiness_force_termination_sent: false,
        force_termination_attempts_remaining: LOGGING_FORCE_TERMINATION_ATTEMPTS,
    }
}

/// Making the job, the generation and the endpoints of a generation.
pub open spec fn prepare_run(k: kernel::Transcript, generation: ProviderGeneration) -> Run<
    ActivationAttempt,
> {
    let fresh = ActivationAttempt::new(Service::Logging, Text::LoggingServiceJobDrained);
    init_run::bind(
        init_run::hear_run(activation::create_job_run(k, fresh)),
        |k: kernel::Transcript, created: (ActivationAttempt, bool)|
            if !created.1 {
                fail_launch_run(k, created.0)
            } else {
                init_run::bind(
                    contained_service::prepare_run(
                        k,
                        created.0,
                        false,
                        generation,
                        logging_messages(),
                    ),
                    |k: kernel::Transcript, prepared: ActivationAttempt|
                        endpoints_run(k, prepared),
                )
            },
    )
}

fn prepare_generation(k: &mut Kernel, generation: ProviderGeneration) -> (result: Result<
    ActivationAttempt,
    Halt,
>)
    ensures
        (final(k)@, result) == prepare_run(old(k)@, generation),
        result matches Ok(attempt) ==> {
            &&& attempt.readiness_source is Some
            &&& attempt.producer_source is Some
            &&& attempt.observer_source is Some
            &&& attempt.generation_source is Some
        },
{
    let mut attempt = ActivationAttempt::new(Service::Logging, Text::LoggingServiceJobDrained);
    if !hear(attempt.create_job(k))? {
        return fail_launch(k, attempt);
    }
    let attempt = prepare(k, attempt, false, generation, logging_messages())?;
    endpoints(k, attempt)
}

/// Everything from the prepared endpoints to the generation that was let go.
pub open spec fn launch_prepared_run(
    k: kernel::Transcript,
    prepared: ActivationAttempt,
    generation: ProviderGeneration,
    command: Seq<u8>,
    early_log_reader: CapabilityHandle,
    patience: u32,
) -> Run<(ProcessId, LoggingGeneration)> {
    let readiness = prepared.readiness_source->0;
    let producer = prepared.producer_source->0;
    let observer = prepared.observer_source->0;
    let grants = grants_of(
        readiness,
        producer,
        observer,
        early_log_reader,
        prepared.generation_source->0,
    );
    init_run::bind(
        objects_run(k, prepared, producer, observer),
        |k: kernel::Transcript, objects: (u64, u64)|
            init_run::bind(
                contained_service::launch_run(k, prepared, command, logging_messages()),
                |k: kernel::Transcript, launched: (ActivationAttempt, ProcessId)|
                    init_run::bind(
                        release_run(k, launched.0, launched.1, grants),
                        |k: kernel::Transcript, released: ActivationAttempt|
                            init_run::end(
                                k,
                                (
                                    launched.1,
                                    fresh_generation(
                                        generation,
                                        (readiness, producer, observer),
                                        objects,
                                        released.job,
                                        patience,
                                    ),
                                ),
                            ),
                    ),
            ),
    )
}

/// What is needed to start a generation, and what is left once it was started.
pub ghost struct Launching {
    pub service: supervisor::Service,
    pub generations: u64,
}

/// Starting a generation of the logging service, which takes a number of its own.
pub open spec fn launch_run(
    k: kernel::Transcript,
    launching: Launching,
    early_log_reader: CapabilityHandle,
    lifecycle_test: bool,
) -> Run<(Launching, (ProcessId, LoggingGeneration))> {
    match identity::generation_after(launching.generations) {
        Err(_) => init_run::giving_up(k, Text::LoggingServiceBootstrapFailed),
        Ok(generation) => init_run::bind(
            prepare_run(k, generation),
            |k: kernel::Transcript, prepared: ActivationAttempt|
                init_run::bind(
                    launch_prepared_run(
                        k,
                        prepared,
                        generation,
                        command_of(launching.service, lifecycle_test, generation),
                        early_log_reader,
                        readiness_patience(lifecycle_test, generation),
                    ),
                    |k: kernel::Transcript, launched: (ProcessId, LoggingGeneration)|
                        init_run::end(
                            k,
                            (
                                Launching {
                                    service: launching.service.spawned(launched.0),
                                    generations: identity::sequence_after(launching.generations),
                                },
                                launched,
                            ),
                        ),
                ),
        ),
    }
}

fn launch_prepared(
    k: &mut Kernel,
    prepared: ActivationAttempt,
    generation: ProviderGeneration,
    command: &[u8],
    early_log_reader: CapabilityHandle,
    patience: u32,
) -> (result: Result<(ProcessId, LoggingGeneration), Halt>)
    requires
        prepared.readiness_source is Some,
        prepared.producer_source is Some,
        prepared.observer_source is Some,
        prepared.generation_source is Some,
    ensures
        (final(k)@, result) == launch_prepared_run(
            old(k)@,
            prepared,
            generation,
            command@,
            early_log_reader,
            patience,
        ),
{
    let readiness: u64 = prepared.readiness_source.unwrap();
    let producer: u64 = prepared.producer_source.unwrap();
    let observer: u64 = prepared.observer_source.unwrap();
    let generation_source: u64 = prepared.generation_source.unwrap();
    let both = objects(k, prepared, producer, observer)?;
    let (attempt, process_id) = launch(k, prepared, command, logging_messages())?;
    let grants: [BootstrapCapability; 5] = [
        BootstrapCapability {
            source_handle: readiness,
            rights: Rights::send(),
            target_handle: READY_HANDLE,
        },
        BootstrapCapability {
            source_handle: producer,
            rights: Rights::receive(),
            target_handle: REQUEST_HANDLE,
        },
        BootstrapCapability {
            source_handle: observer,
            rights: Rights::receive(),
            target_handle: LOGGING_OBSERVER_INGRESS_HANDLE,
        },
        BootstrapCapability {
            source_handle: early_log_reader,
            rights: Rights::read(),
            target_handle: LOGGING_EARLY_LOG_HANDLE,
        },
        BootstrapCapability {
            source_handle: generation_source,
            rights: Rights::receive(),
            target_handle: GENERATION_HANDOFF_HANDLE,
        },
    ];
    assert(grants@ =~= grants_of(
        readiness,
        producer,
        observer,
        early_log_reader,
        generation_source,
    ));
    let attempt = release(k, attempt, process_id, &grants)?;
    Ok(
        (
            process_id,
            fresh_generation(
                generation,
                (readiness, producer, observer),
                both,
                attempt.job,
                patience,
            ),
        ),
    )
}

pub fn launch_logging_generation(
    k: &mut Kernel,
    service: &mut ServiceRuntime,
    generations: &mut ProviderGenerationSequence,
    early_log_reader: CapabilityHandle,
    lifecycle_test: bool,
) -> (result: Result<(ProcessId, LoggingGeneration), Halt>)
    ensures
        ({
            let (asked, outcome) = launch_run(
                old(k)@,
                Launching { service: old(service)@, generations: old(generations)@ },
                early_log_reader,
                lifecycle_test,
            );
            &&& final(k)@ == asked
            &&& init_run::came_to(
                outcome,
                Launching { service: final(service)@, generations: final(generations)@ },
                result,
            )
        }),
        old(service)@.coherent() ==> final(service)@.coherent(),
{
    let generation = match generations.next_generation() {
        Ok(generation) => generation,
        Err(_) => {
            return Err(Halt::Failed(Text::LoggingServiceBootstrapFailed));
        },
    };
    let command = if silent_in_test(lifecycle_test, generation) {
        Text::LoggingServiceSuppressReadinessCommand.as_bytes()
    } else if lifecycle_test {
        Text::LoggingServiceIgnoreTerminateCommand.as_bytes()
    } else {
        service.spec().command
    };
    let patience: u32 = readiness_patience(lifecycle_test, generation);
    let prepared = prepare_generation(k, generation)?;
    let (process_id, launched) = launch_prepared(
        k,
        prepared,
        generation,
        command,
        early_log_reader,
        patience,
    )?;
    service.note_spawned(process_id);
    Ok((process_id, launched))
}

/// Asking for the processes of a job to end: how many tries are left, and whether it was taken.
pub open spec fn forced_run(k: kernel::Transcript, job: CapabilityHandle, attempts: u32) -> Run<
    (u32, bool),
> {
    init_run::bind(
        init_run::hear_run(ipc::count_run(k, Op::JobTerminate { job }, seq![])),
        |k: kernel::Transcript, terminated: Result<usize, ipc::Error>|
            if terminated is Ok {
                init_run::end(k, (attempts, true))
            } else if attempts == 0 {
                init_run::giving_up(k, Text::LoggingServiceFailed)
            } else {
                init_run::end(k, ((attempts - 1) as u32, false))
            },
    )
}

pub fn request_forced_termination(
    k: &mut Kernel,
    job: CapabilityHandle,
    attempts_remaining: &mut u32,
) -> (result: Result<bool, Halt>)
    ensures
        ({
            let (asked, outcome) = forced_run(old(k)@, job, *old(attempts_remaining));
            &&& final(k)@ == asked
            &&& init_run::came_to(outcome, *final(attempts_remaining), result)
        }),
{
    if hear(ipc::job_terminate(k, job))?.is_ok() {
        return Ok(true);
    }
    if *attempts_remaining == 0 {
        return Err(Halt::Failed(Text::LoggingServiceFailed));
    }
    *attempts_remaining = *attempts_remaining - 1;
    Ok(false)
}

/// How long a service is still waited for.
#[derive(Clone, Copy, Debug, PartialEq, Eq, Structural)]
pub struct Patience {
    pub yields_remaining: u32,
    pub force_sent: bool,
    pub attempts_remaining: u32,
}

/// Waiting once more for a service to be ready. A service that takes too long is ended by force.
pub open spec fn wait_more_run(
    k: kernel::Transcript,
    patience: Patience,
    job: Option<CapabilityHandle>,
) -> Run<Patience> {
    if patience.yields_remaining != 0 {
        init_run::end(
            k,
            Patience { yields_remaining: (patience.yields_remaining - 1) as u32, ..patience },
        )
    } else if patience.force_sent {
        init_run::end(k, patience)
    } else {
        match job {
            None => init_run::giving_up(k, Text::LoggingServiceProtocolFailed),
            Some(job) => init_run::bind(
                forced_run(k, job, patience.attempts_remaining),
                |k: kernel::Transcript, forced: (u32, bool)|
                    if !forced.1 {
                        init_run::end(
                            k,
                            Patience { attempts_remaining: forced.0, ..patience },
                        )
                    } else {
                        init_run::bind(
                            init_run::announce_run(k, Text::LoggingServiceReadinessTimeout),
                            |k: kernel::Transcript, said: ()|
                                init_run::end(
                                    k,
                                    Patience {
                                        attempts_remaining: forced.0,
                                        force_sent: true,
                                        ..patience
                                    },
                                ),
                        )
                    },
            ),
        }
    }
}

fn wait_more(k: &mut Kernel, patience: Patience, job: Option<CapabilityHandle>) -> (result: Result<
    Patience,
    Halt,
>)
    ensures
        (final(k)@, result) == wait_more_run(old(k)@, patience, job),
{
    let mut patience = patience;
    if patience.yields_remaining != 0 {
        patience.yields_remaining = patience.yields_remaining - 1;
        return Ok(patience);
    }
    if patience.force_sent {
        return Ok(patience);
    }
    let job = match job {
        Some(job) => job,
        None => {
            return Err(Halt::Failed(Text::LoggingServiceProtocolFailed));
        },
    };
    if request_forced_termination(k, job, &mut patience.attempts_remaining)? {
        announce(k, Text::LoggingServiceReadinessTimeout)?;
        patience.force_sent = true;
    }
    Ok(patience)
}

/// What a service that said that it is ready turns out to be.
#[derive(Clone, Copy, Debug, PartialEq, Eq, Structural)]
pub enum Settling {
    /// It has to be looked at once more.
    Again,
    /// It runs.
    Running,
    /// It has ended, and is started again after this many yields.
    Ended { backoff_yields: u32 },
}

/// Looking once at the process of a service that said that it is ready.
pub open spec fn settle_step_run(
    k: kernel::Transcript,
    service: supervisor::Service,
    process_id: ProcessId,
) -> Run<(supervisor::Service, Settling)> {
    init_run::bind(
        init_run::hear_run(syscall::try_wait_run(k, process_id)),
        |k: kernel::Transcript, polled: Result<ChildStatus, ipc::Error>|
            match polled {
                Err(error) => if error == ipc::Error::interrupted() {
                    init_run::end(k, (service, Settling::Again))
                } else if error == ipc::Error::try_again() {
                    init_run::end(k, (service, Settling::Running))
                } else {
                    init_run::giving_up(k, Text::LoggingServiceFailed)
                },
                Ok(status) => {
                    let (next, disposition) = service.observe(status.raw);
                    if status.continued() {
                        if disposition == ServiceStatusDisposition::WaitForNextEvent {
                            init_run::end(k, (next, Settling::Again))
                        } else {
                            init_run::giving_up(k, Text::LoggingServiceProtocolFailed)
                        }
                    } else if status.stopped_signal() is Some {
                        init_run::giving_up(k, Text::LoggingServiceProtocolFailed)
                    } else {
                        match disposition {
                            ServiceStatusDisposition::Restart { backoff_yields } => init_run::end(
                                k,
                                (next, Settling::Ended { backoff_yields }),
                            ),
                            _ => init_run::giving_up(k, Text::LoggingServiceFailed),
                        }
                    }
                },
            },
    )
}

/// Looking at the process of a service that said that it is ready until it is clear what it is.
pub open spec fn settle_run(
    k: kernel::Transcript,
    service: supervisor::Service,
    process_id: ProcessId,
) -> Run<(supervisor::Service, Settling)>
    decreases k.unread(),
{
    let (looked, result) = settle_step_run(k, service, process_id);
    match result {
        Ok((next, Settling::Again)) => settle_run(looked, next, process_id),
        _ => (looked, result),
    }
}

fn settle(k: &mut Kernel, service: &mut ServiceRuntime, process_id: ProcessId) -> (result: Result<
    Settling,
    Halt,
>)
    ensures
        ({
            let (asked, outcome) = settle_run(old(k)@, old(service)@, process_id);
            &&& final(k)@ == asked
            &&& init_run::came_to(outcome, final(service)@, result)
        }),
{
    loop
        invariant
            settle_run(old(k)@, old(service)@, process_id) == settle_run(
                k@,
                service@,
                process_id,
            ),
        decreases k@.unread(),
    {
        match hear(try_wait_child(k, process_id))? {
            Err(error) => {
                if error == ipc::Error::try_again() {
                    return Ok(Settling::Running);
                }
                if error != ipc::Error::interrupted() {
                    return Err(Halt::Failed(Text::LoggingServiceFailed));
                }
            },
            Ok(status) => {
                if status.continued() {
                    if service.observe_status(status.raw())
                        != ServiceStatusDisposition::WaitForNextEvent {
                        return Err(Halt::Failed(Text::LoggingServiceProtocolFailed));
                    }
                } else if status.stopped_signal().is_some() {
                    return Err(Halt::Failed(Text::LoggingServiceProtocolFailed));
                } else {
                    match service.observe_status(status.raw()) {
                        ServiceStatusDisposition::Restart { backoff_yields } => {
                            return Ok(Settling::Ended { backoff_yields });
                        },
                        _ => {
                            return Err(Halt::Failed(Text::LoggingServiceFailed));
                        },
                    }
                }
            },
        }
    }
}

/// What a generation that is started is looked at with.
pub ghost struct Awaiting {
    pub service: supervisor::Service,
    pub broker: route_broker::Broker,
    pub patience: Patience,
}

/// A generation whose routes are published.
#[verifier::allow_in_spec]
pub fn published_generation(generation: LoggingGeneration) -> LoggingGeneration
    returns
        (LoggingGeneration {
            readiness_received: true,
            routes_published: true,
            readiness_yields_remaining: 0,
            force_termination_attempts_remaining: 0,
            ..generation
        }),
{
    LoggingGeneration {
        readiness_received: true,
        routes_published: true,
        readiness_yields_remaining: 0,
        force_termination_attempts_remaining: 0,
        ..generation
    }
}

/// Publishing a service that is ready and runs.
pub open spec fn publish_ready_run(
    k: kernel::Transcript,
    service: supervisor::Service,
    broker: route_broker::Broker,
    generation: LoggingGeneration,
) -> Run<(supervisor::Service, route_broker::Broker)> {
    if !service.accepts_readiness() {
        init_run::giving_up(k, Text::LoggingServiceProtocolFailed)
    } else {
        init_run::bind(
            route_broker::publish_run(
                k,
                broker.routes,
                generation.generation,
                generation.producer_source,
                generation.observer_source,
            ),
            |k: kernel::Transcript, routes: route_broker::Routes|
                init_run::bind(
                    init_run::announce_run(k, Text::LoggingServiceReady),
                    |k: kernel::Transcript, said: ()|
                        init_run::end(
                            k,
                            (service.ready(), route_broker::Broker { routes, ..broker }),
                        ),
                ),
        )
    }
}

fn publish_ready(
    k: &mut Kernel,
    service: &mut ServiceRuntime,
    route_broker: &mut RouteBrokerState,
    generation: LoggingGeneration,
) -> (result: Result<(), Halt>)
    ensures
        ({
            let (asked, outcome) = publish_ready_run(
                old(k)@,
                old(service)@,
                old(route_broker)@,
                generation,
            );
            &&& final(k)@ == asked
            &&& match result {
                Ok(_) => outcome == Ok::<_, Halt>((final(service)@, final(route_broker)@)),
                Err(halt) => outcome == Err::<(supervisor::Service, route_broker::Broker), _>(
                    halt,
                ),
            }
        }),
{
    if service.note_ready() != ReadyDisposition::Accepted {
        return Err(Halt::Failed(Text::LoggingServiceProtocolFailed));
    }
    route_broker.publish(
        k,
        generation.generation,
        generation.producer_source,
        generation.observer_source,
    )?;
    announce(k, Text::LoggingServiceReady)
}

/// Looking for the readiness message of a generation that is started. A generation that said it
/// and runs is published.
pub open spec fn hear_ready_run(
    k: kernel::Transcript,
    awaiting: Awaiting,
    generation: LoggingGeneration,
    process_id: ProcessId,
) -> Run<(Awaiting, Settling)> {
    init_run::bind(
        init_run::hear_run(ipc::try_receive_run(k, generation.readiness_source, READY_BYTES)),
        |k: kernel::Transcript, received: Result<ipc::Delivery, ipc::Error>|
            match received {
                Ok(delivery) => if !init_run::is_expected(
                    delivery,
                    process_id,
                    awaiting.service.spec.ready_message@,
                ) {
                    init_run::giving_up(k, Text::LoggingServiceProtocolFailed)
                } else {
                    settle_ready_run(k, awaiting, generation, process_id)
                },
                Err(error) => if error == ipc::Error::try_again() {
                    init_run::bind(
                        wait_more_run(k, awaiting.patience, generation.job),
                        |k: kernel::Transcript, patience: Patience|
                            init_run::end(
                                k,
                                (Awaiting { patience, ..awaiting }, Settling::Again),
                            ),
                    )
                } else {
                    init_run::giving_up(k, Text::LoggingServiceProtocolFailed)
                },
            },
    )
}

pub open spec fn settle_ready_run(
    k: kernel::Transcript,
    awaiting: Awaiting,
    generation: LoggingGeneration,
    process_id: ProcessId,
) -> Run<(Awaiting, Settling)> {
    init_run::bind(
        settle_run(k, awaiting.service, process_id),
        |k: kernel::Transcript, settled: (supervisor::Service, Settling)|
            match settled.1 {
                Settling::Ended { .. } => init_run::end(
                    k,
                    (Awaiting { service: settled.0, ..awaiting }, settled.1),
                ),
                _ => init_run::bind(
                    publish_ready_run(k, settled.0, awaiting.broker, generation),
                    |
                        k: kernel::Transcript,
                        published: (supervisor::Service, route_broker::Broker),
                    |
                        init_run::end(
                            k,
                            (
                                Awaiting {
                                    service: published.0,
                                    broker: published.1,
                                    ..awaiting
                                },
                                Settling::Running,
                            ),
                        ),
                ),
            },
    )
}

/// Looking whether the process of a generation that is started has changed.
pub open spec fn watch_child_run(
    k: kernel::Transcript,
    service: supervisor::Service,
    process_id: ProcessId,
) -> Run<(supervisor::Service, Settling)> {
    init_run::bind(
        init_run::hear_run(syscall::try_wait_run(k, process_id)),
        |k: kernel::Transcript, polled: Result<ChildStatus, ipc::Error>|
            match polled {
                Ok(status) => {
                    let (next, disposition) = service.observe(status.raw);
                    match disposition {
                        ServiceStatusDisposition::WaitForNextEvent => linger_again_run(k, next),
                        ServiceStatusDisposition::Restart { backoff_yields } => init_run::end(
                            k,
                            (next, Settling::Ended { backoff_yields }),
                        ),
                        _ => init_run::giving_up(k, Text::LoggingServiceFailed),
                    }
                },
                Err(error) => if init_run::not_yet(error) {
                    linger_again_run(k, service)
                } else {
                    init_run::giving_up(k, Text::LoggingServiceFailed)
                },
            },
    )
}

pub open spec fn linger_again_run(k: kernel::Transcript, service: supervisor::Service) -> Run<
    (supervisor::Service, Settling),
> {
    init_run::bind(
        init_run::linger_run(k),
        |k: kernel::Transcript, rested: ()| init_run::end(k, (service, Settling::Again)),
    )
}

/// One look at a generation that is started, while requests for routes are answered.
pub open spec fn look_run(
    k: kernel::Transcript,
    awaiting: Awaiting,
    generation: LoggingGeneration,
    process_id: ProcessId,
) -> Run<(Awaiting, Settling)> {
    init_run::bind(
        route_broker::pump_run(k, awaiting.broker, route_broker::ROUTE_PUMP_BUDGET as nat),
        |k: kernel::Transcript, pumped: ()|
            init_run::bind(
                hear_ready_run(k, awaiting, generation, process_id),
                |k: kernel::Transcript, heard: (Awaiting, Settling)|
                    match heard.1 {
                        Settling::Again => init_run::bind(
                            watch_child_run(k, heard.0.service, process_id),
                            |k: kernel::Transcript, watched: (supervisor::Service, Settling)|
                                init_run::end(
                                    k,
                                    (Awaiting { service: watched.0, ..heard.0 }, watched.1),
                                ),
                        ),
                        _ => init_run::end(k, heard),
                    },
            ),
    )
}

proof fn lemma_pump_ingress_asks(
    k: kernel::Transcript,
    ingress: crate::service_route::Ingress,
    routes: route_broker::Routes,
)
    requires
        route_broker::pump_ingress_run(k, ingress, routes).1 is Ok,
    ensures
        0 <= route_broker::pump_ingress_run(k, ingress, routes).0.unread() < k.unread(),
{
}

proof fn lemma_pump_asks(k: kernel::Transcript, broker: route_broker::Broker, budget: nat)
    requires
        route_broker::pump_run(k, broker, budget).1 is Ok,
        budget > 0 || 0 <= k.unread(),
    ensures
        0 <= route_broker::pump_run(k, broker, budget).0.unread() <= k.unread(),
    decreases budget,
{
    if budget > 0 {
        let (first, _) = route_broker::pump_ingress_run(k, broker.producer, broker.routes);
        lemma_pump_ingress_asks(k, broker.producer, broker.routes);
        lemma_pump_ingress_asks(first, broker.observer, broker.routes);
        let (asked, result) = route_broker::pump_both_run(k, broker);
        if result == Ok::<bool, Halt>(true) {
            lemma_pump_asks(asked, broker, (budget - 1) as nat);
        }
    }
}

proof fn lemma_hear_ready_again_asks(
    k: kernel::Transcript,
    awaiting: Awaiting,
    generation: LoggingGeneration,
    process_id: ProcessId,
)
    requires
        hear_ready_run(k, awaiting, generation, process_id).1 matches Ok((_, Settling::Again)),
    ensures
        0 <= hear_ready_run(k, awaiting, generation, process_id).0.unread() < k.unread(),
{
}

pub(crate) proof fn lemma_look_again_asks(
    k: kernel::Transcript,
    awaiting: Awaiting,
    generation: LoggingGeneration,
    process_id: ProcessId,
)
    requires
        look_run(k, awaiting, generation, process_id).1 matches Ok((_, Settling::Again)),
    ensures
        0 <= look_run(k, awaiting, generation, process_id).0.unread() < k.unread(),
{
    lemma_pump_asks(k, awaiting.broker, route_broker::ROUTE_PUMP_BUDGET as nat);
    let (pumped, _) = route_broker::pump_run(
        k,
        awaiting.broker,
        route_broker::ROUTE_PUMP_BUDGET as nat,
    );
    let (heard, outcome) = hear_ready_run(pumped, awaiting, generation, process_id);
    if let Ok((_, Settling::Again)) = outcome {
        lemma_hear_ready_again_asks(pumped, awaiting, generation, process_id);
    }
}

/// Waiting until a generation is published or has ended.
pub open spec fn await_run(
    k: kernel::Transcript,
    awaiting: Awaiting,
    generation: LoggingGeneration,
    process_id: ProcessId,
) -> Run<(Awaiting, Settling)>
    decreases k.unread(),
    via await_ends
{
    let (looked, result) = look_run(k, awaiting, generation, process_id);
    match result {
        Ok((next, Settling::Again)) => await_run(looked, next, generation, process_id),
        _ => (looked, result),
    }
}

#[via_fn]
proof fn await_ends(
    k: kernel::Transcript,
    awaiting: Awaiting,
    generation: LoggingGeneration,
    process_id: ProcessId,
) {
    if let Ok((_, Settling::Again)) = look_run(k, awaiting, generation, process_id).1 {
        lemma_look_again_asks(k, awaiting, generation, process_id);
    }
}

/// Looks for the readiness message of a generation that is started.
fn hear_ready(
    k: &mut Kernel,
    service: &mut ServiceRuntime,
    route_broker: &mut RouteBrokerState,
    patience: &mut Patience,
    generation: LoggingGeneration,
    process_id: ProcessId,
) -> (result: Result<Settling, Halt>)
    ensures
        ({
            let (asked, outcome) = hear_ready_run(
                old(k)@,
                Awaiting {
                    service: old(service)@,
                    broker: old(route_broker)@,
                    patience: *old(patience),
                },
                generation,
                process_id,
            );
            &&& final(k)@ == asked
            &&& init_run::came_to(
                outcome,
                Awaiting {
                    service: final(service)@,
                    broker: final(route_broker)@,
                    patience: *final(patience),
                },
                result,
            )
        }),
{
    match hear(ipc::try_receive(k, generation.readiness_source, READY_BYTES))? {
        Ok(received) => {
            if !is_expected_message(&received, process_id, service.spec().ready_message) {
                return Err(Halt::Failed(Text::LoggingServiceProtocolFailed));
            }
            let settled = settle(k, service, process_id)?;
            if let Settling::Ended { .. } = settled {
                return Ok(settled);
            }
            publish_ready(k, service, route_broker, generation)?;
            Ok(Settling::Running)
        },
        Err(error) => {
            if error != ipc::Error::try_again() {
                return Err(Halt::Failed(Text::LoggingServiceProtocolFailed));
            }
            *patience = wait_more(k, *patience, generation.job)?;
            Ok(Settling::Again)
        },
    }
}

/// Looks whether the process of a generation that is started has changed.
fn watch_child(k: &mut Kernel, service: &mut ServiceRuntime, process_id: ProcessId) -> (result:
    Result<Settling, Halt>)
    ensures
        ({
            let (asked, outcome) = watch_child_run(old(k)@, old(service)@, process_id);
            &&& final(k)@ == asked
            &&& init_run::came_to(outcome, final(service)@, result)
        }),
{
    match hear(try_wait_child(k, process_id))? {
        Ok(status) => {
            match service.observe_status(status.raw()) {
                ServiceStatusDisposition::WaitForNextEvent => {},
                ServiceStatusDisposition::Restart { backoff_yields } => {
                    return Ok(Settling::Ended { backoff_yields });
                },
                _ => {
                    return Err(Halt::Failed(Text::LoggingServiceFailed));
                },
            }
        },
        Err(error) => {
            if !not_yet(error) {
                return Err(Halt::Failed(Text::LoggingServiceFailed));
            }
        },
    }
    linger(k)?;
    Ok(Settling::Again)
}

/// The patience that the first generation is waited for with.
#[verifier::allow_in_spec]
pub fn first_patience() -> Patience
    returns
        (Patience {
            yields_remaining: LOGGING_READINESS_GRACE_YIELDS,
            force_sent: false,
            attempts_remaining: LOGGING_FORCE_TERMINATION_ATTEMPTS,
        }),
{
    Patience {
        yields_remaining: LOGGING_READINESS_GRACE_YIELDS,
        force_sent: false,
        attempts_remaining: LOGGING_FORCE_TERMINATION_ATTEMPTS,
    }
}

#[verifier::loop_isolation(false)]
fn await_generation(
    k: &mut Kernel,
    service: &mut ServiceRuntime,
    route_broker: &mut RouteBrokerState,
    generation: LoggingGeneration,
    process_id: ProcessId,
) -> (result: Result<Settling, Halt>)
    ensures
        ({
            let (asked, outcome) = await_run(
                old(k)@,
                Awaiting {
                    service: old(service)@,
                    broker: old(route_broker)@,
                    patience: first_patience(),
                },
                generation,
                process_id,
            );
            &&& final(k)@ == asked
            &&& match result {
                Ok(settled) => outcome is Ok && outcome->Ok_0.0.service == final(service)@
                    && outcome->Ok_0.0.broker == final(route_broker)@ && outcome->Ok_0.1
                    == settled,
                Err(halt) => outcome == Err::<(Awaiting, Settling), _>(halt),
            }
        }),
{
    let mut patience = first_patience();
    loop
        invariant
            await_run(
                old(k)@,
                Awaiting {
                    service: old(service)@,
                    broker: old(route_broker)@,
                    patience: first_patience(),
                },
                generation,
                process_id,
            ) == await_run(
                k@,
                Awaiting { service: service@, broker: route_broker@, patience },
                generation,
                process_id,
            ),
        decreases k@.unread(),
    {
        let ghost before = k@;
        let ghost awaiting = Awaiting { service: service@, broker: route_broker@, patience };
        route_broker.pump(k)?;
        let heard = hear_ready(k, service, route_broker, &mut patience, generation, process_id)?;
        if heard != Settling::Again {
            return Ok(heard);
        }
        let watched = watch_child(k, service, process_id)?;
        if watched != Settling::Again {
            return Ok(watched);
        }
        proof {
            lemma_look_again_asks(before, awaiting, generation, process_id);
        }
    }
}

/// What the first generation is started with.
pub ghost struct Starting {
    pub service: supervisor::Service,
    pub broker: route_broker::Broker,
    pub generations: u64,
}

/// One attempt to start a generation until it is published. It takes a number of its own.
pub open spec fn start_attempt_run(
    k: kernel::Transcript,
    starting: Starting,
    early_log_reader: CapabilityHandle,
) -> Run<(Starting, Option<LoggingGeneration>)> {
    init_run::bind(
        launch_run(
            k,
            Launching { service: starting.service, generations: starting.generations },
            early_log_reader,
            false,
        ),
        |k: kernel::Transcript, launched: (Launching, (ProcessId, LoggingGeneration))|
            init_run::bind(
                await_run(
                    k,
                    Awaiting {
                        service: launched.0.service,
                        broker: starting.broker,
                        patience: first_patience(),
                    },
                    launched.1.1,
                    launched.1.0,
                ),
                |k: kernel::Transcript, waited: (Awaiting, Settling)|
                    start_outcome_run(
                        k,
                        Starting {
                            service: waited.0.service,
                            broker: waited.0.broker,
                            generations: launched.0.generations,
                        },
                        launched.1.1,
                        waited.1,
                    ),
            ),
    )
}

/// What follows from how an attempt went.
pub open spec fn start_outcome_run(
    k: kernel::Transcript,
    starting: Starting,
    generation: LoggingGeneration,
    settled: Settling,
) -> Run<(Starting, Option<LoggingGeneration>)> {
    match settled {
        Settling::Ended { backoff_yields } => init_run::bind(
            retire_run(k, generation),
            |k: kernel::Transcript, retired: ()|
                init_run::bind(
                    init_run::announce_run(k, Text::LoggingServiceRestarting),
                    |k: kernel::Transcript, said: ()|
                        init_run::bind(
                            init_run::backoff_run(k, backoff_yields as nat),
                            |k: kernel::Transcript, rested: ()|
                                init_run::end(k, (starting, None)),
                        ),
                ),
        ),
        _ => init_run::end(k, (starting, Some(published_generation(generation)))),
    }
}

/// Starting the first generation until one is published.
pub open spec fn start_run(
    k: kernel::Transcript,
    starting: Starting,
    early_log_reader: CapabilityHandle,
) -> Run<(Starting, LoggingGeneration)>
    decreases u64::MAX - starting.generations,
{
    let (tried, result) = start_attempt_run(k, starting, early_log_reader);
    match result {
        Err(halt) => (tried, Err(halt)),
        Ok((next, Some(generation))) => (tried, Ok((next, generation))),
        Ok((next, None)) => if next.generations > starting.generations {
            start_run(tried, next, early_log_reader)
        } else {
            (tried, Err(Halt::Waiting))
        },
    }
}

/// Starts the logging service and waits until it is published. A generation that ends before that
/// is followed by a newer one, within the restart budget.
#[verifier::loop_isolation(false)]
pub fn start_logging_generation(
    k: &mut Kernel,
    service: &mut ServiceRuntime,
    route_broker: &mut RouteBrokerState,
    generations: &mut ProviderGenerationSequence,
    early_log_reader: CapabilityHandle,
) -> (result: Result<LoggingGeneration, Halt>)
    ensures
        ({
            let (asked, outcome) = start_run(
                old(k)@,
                Starting {
                    service: old(service)@,
                    broker: old(route_broker)@,
                    generations: old(generations)@,
                },
                early_log_reader,
            );
            &&& final(k)@ == asked
            &&& init_run::came_to(
                outcome,
                Starting {
                    service: final(service)@,
                    broker: final(route_broker)@,
                    generations: final(generations)@,
                },
                result,
            )
        }),
{
    loop
        invariant
            start_run(
                old(k)@,
                Starting {
                    service: old(service)@,
                    broker: old(route_broker)@,
                    generations: old(generations)@,
                },
                early_log_reader,
            ) == start_run(
                k@,
                Starting {
                    service: service@,
                    broker: route_broker@,
                    generations: generations@,
                },
                early_log_reader,
            ),
        decreases u64::MAX - generations@,
    {
        let (process_id, generation) = launch_logging_generation(
            k,
            service,
            generations,
            early_log_reader,
            false,
        )?;
        match await_generation(k, service, route_broker, generation, process_id)? {
            Settling::Ended { backoff_yields } => {
                generation.retire(k)?;
                announce(k, Text::LoggingServiceRestarting)?;
                backoff(k, backoff_yields)?;
            },
            _ => {
                return Ok(published_generation(generation));
            },
        }
    }
}

/// The logging service and everything that goes with it.
pub ghost struct Logging {
    pub service: supervisor::Service,
    pub lifecycle: LoggingLifecycle,
    pub broker: route_broker::Broker,
}

/// The lifecycle with the current process stopped or going on.
pub open spec fn child_stopped(lifecycle: LoggingLifecycle, stopped: bool) -> LoggingLifecycle {
    LoggingLifecycle {
        current: match lifecycle.current {
            Some(generation) => Some(LoggingGeneration { child_stopped: stopped, ..generation }),
            None => None,
        },
        ..lifecycle
    }
}

/// Taking note that the process was stopped or goes on.
pub open spec fn note_run(
    k: kernel::Transcript,
    logging: Logging,
    status: u64,
    stopped: bool,
) -> Run<(Logging, ())> {
    let (next, disposition) = logging.service.observe(status);
    if disposition != ServiceStatusDisposition::WaitForNextEvent {
        init_run::giving_up(k, Text::LoggingServiceProtocolFailed)
    } else {
        init_run::end(
            k,
            (
                Logging {
                    service: next,
                    lifecycle: child_stopped(logging.lifecycle, stopped),
                    ..logging
                },
                (),
            ),
        )
    }
}

/// Taking note that the process has ended: its routes are withdrawn and what it left is cleared
/// away.
pub open spec fn ended_run(k: kernel::Transcript, logging: Logging, status: u64) -> Run<
    (Logging, ()),
> {
    let (next, disposition) = logging.service.observe(status);
    init_run::bind(
        withdraw_routes_run(k, logging.lifecycle, logging.broker),
        |k: kernel::Transcript, withdrawn: ((LoggingLifecycle, route_broker::Broker), ())|
            init_run::bind(
                close_current_run(k, withdrawn.0.0),
                |k: kernel::Transcript, closed: (LoggingLifecycle, ())|
                    after_end_run(
                        k,
                        Logging {
                            service: next,
                            lifecycle: closed.0,
                            broker: withdrawn.0.1,
                        },
                        disposition,
                    ),
            ),
    )
}

/// What follows once an ended generation was cleared away.
pub open spec fn after_end_run(
    k: kernel::Transcript,
    logging: Logging,
    disposition: ServiceStatusDisposition,
) -> Run<(Logging, ())> {
    match disposition {
        ServiceStatusDisposition::Restart { backoff_yields } => init_run::bind(
            init_run::announce_run(k, Text::LoggingServiceRestarting),
            |k: kernel::Transcript, said: ()|
                init_run::end(
                    k,
                    (
                        Logging {
                            lifecycle: LoggingLifecycle {
                                backoff_yields_remaining: backoff_yields,
                                ..logging.lifecycle
                            },
                            ..logging
                        },
                        (),
                    ),
                ),
        ),
        ServiceStatusDisposition::WaitForNextEvent => init_run::giving_up(
            k,
            Text::LoggingServiceProtocolFailed,
        ),
        _ => init_run::end(
            k,
            (
                Logging {
                    lifecycle: LoggingLifecycle {
                        backoff_yields_remaining: 0,
                        ..logging.lifecycle
                    },
                    ..logging
                },
                (),
            ),
        ),
    }
}

/// Looking whether the process of the logging service has changed.
pub open spec fn poll_run(k: kernel::Transcript, logging: Logging) -> Run<(Logging, ())> {
    match logging.service.process_id {
        None => init_run::end(k, (logging, ())),
        Some(process_id) => init_run::bind(
            init_run::hear_run(syscall::try_wait_run(k, process_id)),
            |k: kernel::Transcript, polled: Result<ChildStatus, ipc::Error>|
                match polled {
                    Err(error) => if init_run::not_yet(error) {
                        init_run::end(k, (logging, ()))
                    } else {
                        init_run::giving_up(k, Text::LoggingServiceFailed)
                    },
                    Ok(status) => if status.stopped_signal() is Some {
                        note_run(k, logging, status.raw, true)
                    } else if status.continued() {
                        note_run(k, logging, status.raw, false)
                    } else {
                        ended_run(k, logging, status.raw)
                    },
                },
        ),
    }
}

fn note_child(
    service: &mut ServiceRuntime,
    lifecycle: &mut LoggingLifecycle,
    status: u64,
    stopped: bool,
) -> (result: Result<(), Halt>)
    ensures
        ({
            let (next, disposition) = old(service)@.observe(status);
            match result {
                Ok(_) => {
                    &&& disposition == ServiceStatusDisposition::WaitForNextEvent
                    &&& final(service)@ == next
                    &&& *final(lifecycle) == child_stopped(*old(lifecycle), stopped)
                },
                Err(halt) => {
                    &&& disposition != ServiceStatusDisposition::WaitForNextEvent
                    &&& halt == Halt::Failed(Text::LoggingServiceProtocolFailed)
                },
            }
        }),
{
    if service.observe_status(status) != ServiceStatusDisposition::WaitForNextEvent {
        return Err(Halt::Failed(Text::LoggingServiceProtocolFailed));
    }
    if let Some(generation) = lifecycle.current {
        lifecycle.current = Some(LoggingGeneration { child_stopped: stopped, ..generation });
    }
    Ok(())
}

pub fn poll_logging_child(
    k: &mut Kernel,
    service: &mut ServiceRuntime,
    lifecycle: &mut LoggingLifecycle,
    route_broker: &mut RouteBrokerState,
) -> (result: Result<(), Halt>)
    ensures
        ({
            let (asked, outcome) = poll_run(
                old(k)@,
                Logging {
                    service: old(service)@,
                    lifecycle: *old(lifecycle),
                    broker: old(route_broker)@,
                },
            );
            &&& final(k)@ == asked
            &&& init_run::came_to(
                outcome,
                Logging {
                    service: final(service)@,
                    lifecycle: *final(lifecycle),
                    broker: final(route_broker)@,
                },
                result,
            )
        }),
{
    let process_id: u64 = match service.process_id() {
        Some(process_id) => process_id,
        None => {
            return Ok(());
        },
    };
    let status = match hear(try_wait_child(k, process_id))? {
        Ok(status) => status,
        Err(error) => {
            if not_yet(error) {
                return Ok(());
            }
            return Err(Halt::Failed(Text::LoggingServiceFailed));
        },
    };
    if status.stopped_signal().is_some() {
        return note_child(service, lifecycle, status.raw(), true);
    }
    if status.continued() {
        return note_child(service, lifecycle, status.raw(), false);
    }
    let disposition = service.observe_status(status.raw());
    lifecycle.withdraw_routes(k, route_broker)?;
    lifecycle.close_current(k)?;
    match disposition {
        ServiceStatusDisposition::Stopped | ServiceStatusDisposition::Failed => {
            lifecycle.backoff_yields_remaining = 0;
        },
        ServiceStatusDisposition::Restart { backoff_yields } => {
            lifecycle.backoff_yields_remaining = backoff_yields;
            announce(k, Text::LoggingServiceRestarting)?;
        },
        ServiceStatusDisposition::WaitForNextEvent => {
            return Err(Halt::Failed(Text::LoggingServiceProtocolFailed));
        },
    }
    Ok(())
}

/// The lifecycle with no termination on its way.
#[verifier::allow_in_spec]
pub fn at_ease(lifecycle: LoggingLifecycle) -> LoggingLifecycle
    returns
        (LoggingLifecycle {
            termination_grace_yields_remaining: None,
            force_termination_sent: false,
            force_termination_attempts_remaining: 0,
            ..lifecycle
        }),
{
    LoggingLifecycle {
        termination_grace_yields_remaining: None,
        force_termination_sent: false,
        force_termination_attempts_remaining: 0,
        ..lifecycle
    }
}

/// Ending a service by force that was told to end and still runs.
pub open spec fn force_run(k: kernel::Transcript, lifecycle: LoggingLifecycle, job: CapabilityHandle) -> Run<
    LoggingLifecycle,
> {
    init_run::bind(
        forced_run(k, job, lifecycle.force_termination_attempts_remaining),
        |k: kernel::Transcript, forced: (u32, bool)|
            if !forced.1 {
                init_run::end(
                    k,
                    LoggingLifecycle {
                        force_termination_attempts_remaining: forced.0,
                        ..lifecycle
                    },
                )
            } else {
                init_run::bind(
                    init_run::announce_run(k, Text::LoggingServiceForceTerminating),
                    |k: kernel::Transcript, said: ()|
                        init_run::end(
                            k,
                            LoggingLifecycle {
                                force_termination_attempts_remaining: forced.0,
                                force_termination_sent: true,
                                ..lifecycle
                            },
                        ),
                )
            },
    )
}

/// Waiting for a service to end that was told to. One that takes too long is ended by force.
pub open spec fn press_run(k: kernel::Transcript, lifecycle: LoggingLifecycle) -> Run<
    LoggingLifecycle,
> {
    match lifecycle.current {
        Some(LoggingGeneration { job: Some(job), .. }) => match lifecycle.termination_grace_yields_remaining {
            None => init_run::end(
                k,
                LoggingLifecycle {
                    termination_grace_yields_remaining: Some(LOGGING_TERMINATION_GRACE_YIELDS),
                    force_termination_attempts_remaining: LOGGING_FORCE_TERMINATION_ATTEMPTS,
                    ..lifecycle
                },
            ),
            Some(remaining) => if remaining != 0 {
                init_run::end(
                    k,
                    LoggingLifecycle {
                        termination_grace_yields_remaining: Some((remaining - 1) as u32),
                        ..lifecycle
                    },
                )
            } else if lifecycle.force_termination_sent {
                init_run::end(k, lifecycle)
            } else {
                force_run(k, lifecycle, job)
            },
        },
        _ => init_run::giving_up(k, Text::LoggingServiceProtocolFailed),
    }
}

/// Whether a service was told to end.
#[verifier::allow_in_spec]
pub fn is_ending(state: ServiceState) -> bool
    returns
        state == ServiceState::Stopping || state == ServiceState::Restarting,
{
    state == ServiceState::Stopping || state == ServiceState::Restarting
}

/// Withdrawing the routes of a service that was told to end, and pressing it.
pub open spec fn sync_run(
    k: kernel::Transcript,
    service: supervisor::Service,
    lifecycle: LoggingLifecycle,
    broker: route_broker::Broker,
) -> Run<((LoggingLifecycle, route_broker::Broker), ())> {
    if !is_ending(service.state) {
        init_run::end(k, ((at_ease(lifecycle), broker), ()))
    } else {
        init_run::bind(
            withdraw_routes_run(k, lifecycle, broker),
            |k: kernel::Transcript, withdrawn: ((LoggingLifecycle, route_broker::Broker), ())|
                if service.process_id is None {
                    init_run::end(k, ((at_ease(withdrawn.0.0), withdrawn.0.1), ()))
                } else {
                    init_run::bind(
                        press_run(k, withdrawn.0.0),
                        |k: kernel::Transcript, pressed: LoggingLifecycle|
                            init_run::end(k, ((pressed, withdrawn.0.1), ())),
                    )
                },
        )
    }
}

fn press(k: &mut Kernel, lifecycle: &mut LoggingLifecycle) -> (result: Result<(), Halt>)
    ensures
        ({
            let (asked, outcome) = press_run(old(k)@, *old(lifecycle));
            &&& final(k)@ == asked
            &&& match result {
                Ok(_) => outcome == Ok::<_, Halt>(*final(lifecycle)),
                Err(halt) => outcome == Err::<LoggingLifecycle, _>(halt),
            }
        }),
{
    let job: u64 = match lifecycle.current {
        Some(LoggingGeneration { job: Some(job), .. }) => job,
        _ => {
            return Err(Halt::Failed(Text::LoggingServiceProtocolFailed));
        },
    };
    match lifecycle.termination_grace_yields_remaining {
        None => {
            lifecycle.termination_grace_yields_remaining = Some(LOGGING_TERMINATION_GRACE_YIELDS);
            lifecycle.force_termination_attempts_remaining = LOGGING_FORCE_TERMINATION_ATTEMPTS;
        },
        Some(remaining) => {
            if remaining != 0 {
                lifecycle.termination_grace_yields_remaining = Some(remaining - 1);
            } else if !lifecycle.force_termination_sent {
                if request_forced_termination(
                    k,
                    job,
                    &mut lifecycle.force_termination_attempts_remaining,
                )? {
                    announce(k, Text::LoggingServiceForceTerminating)?;
                    lifecycle.force_termination_sent = true;
                }
            }
        },
    }
    Ok(())
}

pub fn sync_logging_routes(
    k: &mut Kernel,
    service: &ServiceRuntime,
    lifecycle: &mut LoggingLifecycle,
    route_broker: &mut RouteBrokerState,
) -> (result: Result<(), Halt>)
    ensures
        ({
            let (asked, outcome) = sync_run(
                old(k)@,
                service@,
                *old(lifecycle),
                old(route_broker)@,
            );
            &&& final(k)@ == asked
            &&& init_run::came_to(outcome, (*final(lifecycle), final(route_broker)@), result)
        }),
{
    if !is_ending(service.state()) {
        *lifecycle = at_ease(*lifecycle);
        return Ok(());
    }
    lifecycle.withdraw_routes(k, route_broker)?;
    if service.process_id().is_none() {
        *lifecycle = at_ease(*lifecycle);
        return Ok(());
    }
    press(k, lifecycle)
}

/// Everything that one step of the logging service changes.
pub ghost struct Advancing {
    pub logging: Logging,
    pub generations: u64,
}

/// What a step does where there is no generation: it waits, and then starts one if the service is
/// meant to run.
pub open spec fn between_run(
    k: kernel::Transcript,
    advancing: Advancing,
    early_log_reader: CapabilityHandle,
    lifecycle_test: bool,
) -> Run<(Advancing, ())> {
    let logging = advancing.logging;
    let lifecycle = logging.lifecycle;
    if lifecycle.backoff_yields_remaining != 0 {
        init_run::end(
            k,
            (
                Advancing {
                    logging: Logging {
                        lifecycle: LoggingLifecycle {
                            backoff_yields_remaining: (lifecycle.backoff_yields_remaining
                                - 1) as u32,
                            ..lifecycle
                        },
                        ..logging
                    },
                    ..advancing
                },
                (),
            ),
        )
    } else if logging.service.should_start() || logging.service.state == ServiceState::Backoff {
        init_run::bind(
            launch_run(
                k,
                Launching { service: logging.service, generations: advancing.generations },
                early_log_reader,
                lifecycle_test,
            ),
            |k: kernel::Transcript, launched: (Launching, (ProcessId, LoggingGeneration))|
                match lifecycle.installed(launched.1.1) {
                    Err(halt) => (k, Err(halt)),
                    Ok(installed) => init_run::end(
                        k,
                        (
                            Advancing {
                                logging: Logging {
                                    service: launched.0.service,
                                    lifecycle: installed,
                                    ..logging
                                },
                                generations: launched.0.generations,
                            },
                            (),
                        ),
                    ),
                },
        )
    } else {
        init_run::end(k, (advancing, ()))
    }
}

/// Looking for the readiness message of the current generation: what is left of it.
pub open spec fn listen_run(
    k: kernel::Transcript,
    generation: LoggingGeneration,
    process_id: ProcessId,
    ready_message: Seq<u8>,
) -> Run<LoggingGeneration> {
    init_run::bind(
        init_run::hear_run(ipc::try_receive_run(k, generation.readiness_source, READY_BYTES)),
        |k: kernel::Transcript, received: Result<ipc::Delivery, ipc::Error>|
            match received {
                Ok(delivery) => if init_run::is_expected(delivery, process_id, ready_message) {
                    init_run::end(
                        k,
                        LoggingGeneration { readiness_received: true, ..generation },
                    )
                } else {
                    init_run::giving_up(k, Text::LoggingServiceProtocolFailed)
                },
                Err(error) => if error == ipc::Error::try_again() {
                    init_run::bind(
                        wait_more_run(k, patience_of(generation), generation.job),
                        |k: kernel::Transcript, patience: Patience|
                            init_run::end(k, with_patience(generation, patience)),
                    )
                } else {
                    init_run::giving_up(k, Text::LoggingServiceProtocolFailed)
                },
            },
    )
}

/// The patience that a generation is waited for with.
#[verifier::allow_in_spec]
pub fn patience_of(generation: LoggingGeneration) -> Patience
    returns
        (Patience {
            yields_remaining: generation.readiness_yields_remaining,
            force_sent: generation.readiness_force_termination_sent,
            attempts_remaining: generation.force_termination_attempts_remaining,
        }),
{
    Patience {
        yields_remaining: generation.readiness_yields_remaining,
        force_sent: generation.readiness_force_termination_sent,
        attempts_remaining: generation.force_termination_attempts_remaining,
    }
}

/// A generation that is waited for with this patience.
#[verifier::allow_in_spec]
pub fn with_patience(generation: LoggingGeneration, patience: Patience) -> LoggingGeneration
    returns
        (LoggingGeneration {
            readiness_yields_remaining: patience.yields_remaining,
            readiness_force_termination_sent: patience.force_sent,
            force_termination_attempts_remaining: patience.attempts_remaining,
            ..generation
        }),
{
    LoggingGeneration {
        readiness_yields_remaining: patience.yields_remaining,
        readiness_force_termination_sent: patience.force_sent,
        force_termination_attempts_remaining: patience.attempts_remaining,
        ..generation
    }
}

fn listen(
    k: &mut Kernel,
    generation: LoggingGeneration,
    process_id: ProcessId,
    ready_message: &[u8],
) -> (result: Result<LoggingGeneration, Halt>)
    ensures
        (final(k)@, result) == listen_run(old(k)@, generation, process_id, ready_message@),
{
    match hear(ipc::try_receive(k, generation.readiness_source, READY_BYTES))? {
        Ok(received) => {
            if !is_expected_message(&received, process_id, ready_message) {
                return Err(Halt::Failed(Text::LoggingServiceProtocolFailed));
            }
            Ok(LoggingGeneration { readiness_received: true, ..generation })
        },
        Err(error) => {
            if error != ipc::Error::try_again() {
                return Err(Halt::Failed(Text::LoggingServiceProtocolFailed));
            }
            let patience = wait_more(k, patience_of(generation), generation.job)?;
            Ok(with_patience(generation, patience))
        },
    }
}

/// What a step does with a generation that is starting: once it has said that it is ready and
/// runs, it is published.
pub open spec fn within_run(
    k: kernel::Transcript,
    logging: Logging,
    generation: LoggingGeneration,
) -> Run<(Logging, ())> {
    let lifecycle = logging.lifecycle;
    if logging.service.state != ServiceState::Starting {
        init_run::end(k, (logging, ()))
    } else {
        match logging.service.process_id {
            None => init_run::giving_up(k, Text::LoggingServiceProtocolFailed),
            Some(process_id) => if !generation.readiness_received {
                init_run::bind(
                    listen_run(
                        k,
                        generation,
                        process_id,
                        logging.service.spec.ready_message@,
                    ),
                    |k: kernel::Transcript, heard: LoggingGeneration|
                        init_run::end(
                            k,
                            (
                                Logging {
                                    lifecycle: LoggingLifecycle {
                                        current: Some(heard),
                                        ..lifecycle
                                    },
                                    ..logging
                                },
                                (),
                            ),
                        ),
                )
            } else if generation.child_stopped {
                init_run::end(k, (logging, ()))
            } else {
                init_run::bind(
                    publish_ready_run(k, logging.service, logging.broker, generation),
                    |
                        k: kernel::Transcript,
                        published: (supervisor::Service, route_broker::Broker),
                    |
                        init_run::end(
                            k,
                            (
                                Logging {
                                    service: published.0,
                                    broker: published.1,
                                    lifecycle: LoggingLifecycle {
                                        current: Some(
                                            LoggingGeneration {
                                                routes_published: true,
                                                ..generation
                                            },
                                        ),
                                        ..lifecycle
                                    },
                                },
                                (),
                            ),
                        ),
                )
            },
        }
    }
}

/// One step of the logging service.
pub open spec fn advance_run(
    k: kernel::Transcript,
    advancing: Advancing,
    early_log_reader: CapabilityHandle,
    lifecycle_test: bool,
) -> Run<(Advancing, ())> {
    match advancing.logging.lifecycle.current {
        None => between_run(k, advancing, early_log_reader, lifecycle_test),
        Some(generation) => init_run::bind(
            within_run(k, advancing.logging, generation),
            |k: kernel::Transcript, stepped: (Logging, ())|
                init_run::end(k, (Advancing { logging: stepped.0, ..advancing }, ())),
        ),
    }
}

/// Starts a generation without waiting for it.
pub fn begin_logging_generation(
    k: &mut Kernel,
    service: &mut ServiceRuntime,
    generations: &mut ProviderGenerationSequence,
    early_log_reader: CapabilityHandle,
    lifecycle_test: bool,
) -> (result: Result<LoggingGeneration, Halt>)
    ensures
        ({
            let (asked, outcome) = launch_run(
                old(k)@,
                Launching { service: old(service)@, generations: old(generations)@ },
                early_log_reader,
                lifecycle_test,
            );
            &&& final(k)@ == asked
            &&& match result {
                Ok(generation) => {
                    &&& outcome is Ok
                    &&& outcome->Ok_0.0 == (Launching {
                        service: final(service)@,
                        generations: final(generations)@,
                    })
                    &&& outcome->Ok_0.1.1 == generation
                },
                Err(halt) => outcome == Err::<(Launching, (ProcessId, LoggingGeneration)), _>(
                    halt,
                ),
            }
        }),
{
    let (_, generation) = launch_logging_generation(
        k,
        service,
        generations,
        early_log_reader,
        lifecycle_test,
    )?;
    Ok(generation)
}

pub fn advance_logging_lifecycle(
    k: &mut Kernel,
    service: &mut ServiceRuntime,
    lifecycle: &mut LoggingLifecycle,
    route_broker: &mut RouteBrokerState,
    generations: &mut ProviderGenerationSequence,
    early_log_reader: CapabilityHandle,
    lifecycle_test: bool,
) -> (result: Result<(), Halt>)
    ensures
        ({
            let (asked, outcome) = advance_run(
                old(k)@,
                Advancing {
                    logging: Logging {
                        service: old(service)@,
                        lifecycle: *old(lifecycle),
                        broker: old(route_broker)@,
                    },
                    generations: old(generations)@,
                },
                early_log_reader,
                lifecycle_test,
            );
            &&& final(k)@ == asked
            &&& init_run::came_to(
                outcome,
                Advancing {
                    logging: Logging {
                        service: final(service)@,
                        lifecycle: *final(lifecycle),
                        broker: final(route_broker)@,
                    },
                    generations: final(generations)@,
                },
                result,
            )
        }),
{
    let generation = match lifecycle.current {
        Some(generation) => generation,
        None => {
            if lifecycle.backoff_yields_remaining != 0 {
                lifecycle.backoff_yields_remaining = lifecycle.backoff_yields_remaining - 1;
                return Ok(());
            }
            if service.should_start() || service.state() == ServiceState::Backoff {
                let generation = begin_logging_generation(
                    k,
                    service,
                    generations,
                    early_log_reader,
                    lifecycle_test,
                )?;
                lifecycle.install(generation)?;
            }
            return Ok(());
        },
    };
    if service.state() != ServiceState::Starting {
        return Ok(());
    }
    let process_id: u64 = match service.process_id() {
        Some(process_id) => process_id,
        None => {
            return Err(Halt::Failed(Text::LoggingServiceProtocolFailed));
        },
    };
    if !generation.readiness_received {
        let heard = listen(k, generation, process_id, service.spec().ready_message)?;
        lifecycle.current = Some(heard);
        return Ok(());
    }
    if generation.child_stopped {
        return Ok(());
    }
    publish_ready(k, service, route_broker, generation)?;
    lifecycle.current = Some(LoggingGeneration { routes_published: true, ..generation });
    Ok(())
}

/// Whatever comes of the process of the logging service, the routes lead to the generation that
/// is published, and nowhere if none is.
pub proof fn lemma_poll_keeps_the_routes(k: kernel::Transcript, logging: Logging)
    requires
        routes_match(logging.lifecycle, logging.broker.routes),
        poll_run(k, logging).1 is Ok,
    ensures
        ({
            let next = poll_run(k, logging).1->Ok_0.0;
            routes_match(next.lifecycle, next.broker.routes)
        }),
{
    if let Some(process_id) = logging.service.process_id {
        let asked = syscall::try_wait_run(k, process_id).0;
        lemma_withdrawal_keeps_the_routes(asked, logging.lifecycle, logging.broker);
    }
}

/// After a withdrawal no route leads anywhere.
pub proof fn lemma_withdrawal_keeps_the_routes(
    k: kernel::Transcript,
    lifecycle: LoggingLifecycle,
    broker: route_broker::Broker,
)
    requires
        routes_match(lifecycle, broker.routes),
    ensures
        withdraw_routes_run(k, lifecycle, broker).1 is Ok ==> {
            let (withdrawn, left) = withdraw_routes_run(k, lifecycle, broker).1->Ok_0.0;
            &&& routes_match(withdrawn, left.routes)
            &&& route_protocol::active_route(left.routes, logging_producer_key()) is None
            &&& route_protocol::active_route(left.routes, logging_observer_key()) is None
            &&& withdrawn.current is Some == lifecycle.current is Some
        },
{
    if let Some(generation) = lifecycle.current {
        if generation.routes_published {
            if route_broker::withdraw_run(k, broker.routes, generation.generation).1 is Ok {
                route_broker::lemma_withdrawn_routes_lead_nowhere(
                    k,
                    broker.routes,
                    generation.generation,
                );
            }
        }
    }
}

/// A service that was told to end has no routes, whether it has ended yet or not.
pub proof fn lemma_ending_service_has_no_routes(
    k: kernel::Transcript,
    service: supervisor::Service,
    lifecycle: LoggingLifecycle,
    broker: route_broker::Broker,
)
    requires
        routes_match(lifecycle, broker.routes),
        sync_run(k, service, lifecycle, broker).1 is Ok,
    ensures
        ({
            let (next, left) = sync_run(k, service, lifecycle, broker).1->Ok_0.0;
            &&& routes_match(next, left.routes)
            &&& is_ending(service.state) ==> {
                &&& route_protocol::active_route(left.routes, logging_producer_key()) is None
                &&& route_protocol::active_route(left.routes, logging_observer_key()) is None
            }
        }),
{
    lemma_withdrawal_keeps_the_routes(k, lifecycle, broker);
}

/// A generation is published only when it is starting, has said that it is ready and runs, and
/// its service is running from then on.
pub proof fn lemma_step_keeps_the_routes(
    k: kernel::Transcript,
    advancing: Advancing,
    early_log_reader: CapabilityHandle,
    lifecycle_test: bool,
)
    requires
        routes_match(advancing.logging.lifecycle, advancing.logging.broker.routes),
        advance_run(k, advancing, early_log_reader, lifecycle_test).1 is Ok,
    ensures
        ({
            let before = advancing.logging;
            let after = advance_run(k, advancing, early_log_reader, lifecycle_test).1->Ok_0.0;
            let next = after.logging;
            &&& routes_match(next.lifecycle, next.broker.routes)
            &&& next.broker.routes != before.broker.routes ==> {
                &&& before.service.state == ServiceState::Starting
                &&& before.lifecycle.current is Some
                &&& before.lifecycle.current->0.readiness_received
                &&& !before.lifecycle.current->0.child_stopped
                &&& next.service.state == ServiceState::Running
            }
            &&& after.generations >= advancing.generations
        }),
{
    if let Some(generation) = advancing.logging.lifecycle.current {
        if route_broker::publish_run(
            k,
            advancing.logging.broker.routes,
            generation.generation,
            generation.producer_source,
            generation.observer_source,
        ).1 is Ok {
            route_broker::lemma_published_routes_lead_to_the_generation(
                k,
                advancing.logging.broker.routes,
                generation.generation,
                generation.producer_source,
                generation.observer_source,
            );
        }
    }
}

/// A service that is meant to stay stopped is not started.
pub proof fn lemma_stopped_logging_stays_stopped(
    k: kernel::Transcript,
    advancing: Advancing,
    early_log_reader: CapabilityHandle,
    lifecycle_test: bool,
)
    requires
        advancing.logging.lifecycle.current is None,
        advancing.logging.lifecycle.backoff_yields_remaining == 0,
        !advancing.logging.service.should_start(),
        advancing.logging.service.state != ServiceState::Backoff,
    ensures
        advance_run(k, advancing, early_log_reader, lifecycle_test) == init_run::end(
            k,
            (advancing, ()),
        ),
{
}

/// Whether both routes lead to a generation.
pub open spec fn leads_to(routes: route_broker::Routes, generation: ProviderGeneration) -> bool {
    let producer = route_protocol::active_route(routes, logging_producer_key());
    let observer = route_protocol::active_route(routes, logging_observer_key());
    &&& producer is Some && producer->0.generation == generation
    &&& observer is Some && observer->0.generation == generation
}

proof fn lemma_settled_is_published(
    k: kernel::Transcript,
    awaiting: Awaiting,
    generation: LoggingGeneration,
    process_id: ProcessId,
)
    ensures
        settle_ready_run(k, awaiting, generation, process_id).1 matches Ok((next, settled))
            ==> settled is Ended || settled is Running && leads_to(
            next.broker.routes,
            generation.generation,
        ),
{
    if let (settled, Ok((service, settling))) = settle_run(k, awaiting.service, process_id) {
        if !(settling is Ended) {
            if route_broker::publish_run(
                settled,
                awaiting.broker.routes,
                generation.generation,
                generation.producer_source,
                generation.observer_source,
            ).1 is Ok {
                route_broker::lemma_published_routes_lead_to_the_generation(
                    settled,
                    awaiting.broker.routes,
                    generation.generation,
                    generation.producer_source,
                    generation.observer_source,
                );
            }
        }
    }
}

proof fn lemma_look_publishes(
    k: kernel::Transcript,
    awaiting: Awaiting,
    generation: LoggingGeneration,
    process_id: ProcessId,
)
    ensures
        look_run(k, awaiting, generation, process_id).1 matches Ok((next, settled)) ==> settled
            is Again || settled is Ended || leads_to(next.broker.routes, generation.generation),
{
    let (pumped, _) = route_broker::pump_run(
        k,
        awaiting.broker,
        route_broker::ROUTE_PUMP_BUDGET as nat,
    );
    let (heard, _) = init_run::hear_run(
        ipc::try_receive_run(pumped, generation.readiness_source, READY_BYTES),
    );
    lemma_settled_is_published(heard, awaiting, generation, process_id);
}

proof fn lemma_await_publishes(
    k: kernel::Transcript,
    awaiting: Awaiting,
    generation: LoggingGeneration,
    process_id: ProcessId,
)
    ensures
        await_run(k, awaiting, generation, process_id).1 matches Ok((next, settled)) ==> settled
            is Ended || leads_to(next.broker.routes, generation.generation),
    decreases k.unread(),
{
    lemma_look_publishes(k, awaiting, generation, process_id);
    if let (looked, Ok((next, Settling::Again))) = look_run(k, awaiting, generation, process_id) {
        lemma_look_again_asks(k, awaiting, generation, process_id);
        lemma_await_publishes(looked, next, generation, process_id);
    }
}

/// A logging service that was started is published: both routes lead to its generation, and to no
/// other.
pub proof fn lemma_started_logging_is_published(
    k: kernel::Transcript,
    starting: Starting,
    early_log_reader: CapabilityHandle,
)
    ensures
        start_run(k, starting, early_log_reader).1 matches Ok((next, generation))
            ==> generation.routes_published && leads_to(
            next.broker.routes,
            generation.generation,
        ),
    decreases u64::MAX - starting.generations,
{
    let launching = Launching {
        service: starting.service,
        generations: starting.generations,
    };
    if let (launched, Ok((next, (process_id, generation)))) = launch_run(
        k,
        launching,
        early_log_reader,
        false,
    ) {
        lemma_await_publishes(
            launched,
            Awaiting {
                service: next.service,
                broker: starting.broker,
                patience: first_patience(),
            },
            generation,
            process_id,
        );
    }
    let (tried, result) = start_attempt_run(k, starting, early_log_reader);
    if let Ok((next, None)) = result {
        if next.generations > starting.generations {
            lemma_started_logging_is_published(tried, next, early_log_reader);
        }
    }
}

} // verus!
