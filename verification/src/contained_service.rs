//! Services that run in a job of their own: starting one, and ending what is left of it.

use crate::activation;
use crate::activation::ActivationAttempt;
use crate::identity;
use crate::identity::{ProviderGeneration, ProviderGenerationSequence};
use crate::init_run;
use crate::init_run::{
    announce, backoff, demand, grant, grant_each, hear, is_expected_message, linger, need, not_yet,
    BootstrapCapability, Halt, Run,
};
use crate::init_text::Text;
use crate::ipc;
use crate::ipc::{CapabilityHandle, Rights};
use crate::kernel;
use crate::kernel::{Kernel, Op};
use crate::managed_startup;
use crate::managed_startup::{ManagedServiceIdentity, ManagedToolCapability};
use crate::process_start::PROCESS_START_BOOTSTRAP_HANDLE;
use crate::procedure;
use crate::route_protocol::ServiceGenerationHandoff;
use crate::service_cleanup::{Observation, Operation, Phase, Service};
use crate::service_launch;
use crate::service_launch::{managed_containment_identity, send_managed_service_process_start};
use crate::service_route;
use crate::service_route::queue_service_generation;
use crate::service_teardown;
use crate::service_teardown::{
    close_cleanup_capability, report_service_cleanup_diagnostic, terminate_and_drain_service_job,
    terminate_job,
};
use crate::startup_record;
use crate::startup_record::{CapabilityRole, StartupRuntimeRole};
use crate::supervisor;
use crate::supervisor::{ReadyDisposition, ServiceRuntime, ServiceStatusDisposition};
use crate::syscall;
use crate::syscall::{try_wait_child, ChildStatus, ProcessId};
use crate::trace;
use crate::trace::Deed;
use vstd::prelude::*;

verus! {

/// The numbers under which a child finds its endpoints.
pub const READY_HANDLE: u64 = 1;

pub const REQUEST_HANDLE: u64 = 2;

pub const GENERATION_HANDOFF_HANDLE: u64 = 5;

/// The largest readiness message.
pub const READY_BYTES: usize = 64;

/// What is said about a service, and what the process gives up with.
#[derive(Debug, Clone, Copy, PartialEq, Eq, Structural)]
pub struct ServiceMessages {
    pub starting: Text,
    pub restarting: Text,
    pub ready: Text,
    pub failed: Text,
    pub bootstrap_failed: Text,
    pub protocol_failed: Text,
}

#[verifier::allow_in_spec]
pub fn logging_messages() -> ServiceMessages
    returns
        (ServiceMessages {
            starting: Text::LoggingServiceStarting,
            restarting: Text::LoggingServiceRestarting,
            ready: Text::LoggingServiceReady,
            failed: Text::LoggingServiceFailed,
            bootstrap_failed: Text::LoggingServiceBootstrapFailed,
            protocol_failed: Text::LoggingServiceProtocolFailed,
        }),
{
    ServiceMessages {
        starting: Text::LoggingServiceStarting,
        restarting: Text::LoggingServiceRestarting,
        ready: Text::LoggingServiceReady,
        failed: Text::LoggingServiceFailed,
        bootstrap_failed: Text::LoggingServiceBootstrapFailed,
        protocol_failed: Text::LoggingServiceProtocolFailed,
    }
}

#[verifier::allow_in_spec]
pub fn nullfs_messages() -> ServiceMessages
    returns
        (ServiceMessages {
            starting: Text::NullfsServiceStarting,
            restarting: Text::NullfsServiceRestarting,
            ready: Text::NullfsServiceReady,
            failed: Text::NullfsServiceFailed,
            bootstrap_failed: Text::NullfsServiceBootstrapFailed,
            protocol_failed: Text::NullfsServiceProtocolFailed,
        }),
{
    ServiceMessages {
        starting: Text::NullfsServiceStarting,
        restarting: Text::NullfsServiceRestarting,
        ready: Text::NullfsServiceReady,
        failed: Text::NullfsServiceFailed,
        bootstrap_failed: Text::NullfsServiceBootstrapFailed,
        protocol_failed: Text::NullfsServiceProtocolFailed,
    }
}

#[verifier::allow_in_spec]
pub fn tmpfs_messages() -> ServiceMessages
    returns
        (ServiceMessages {
            starting: Text::TmpfsServiceStarting,
            restarting: Text::TmpfsServiceRestarting,
            ready: Text::TmpfsServiceReady,
            failed: Text::TmpfsServiceFailed,
            bootstrap_failed: Text::TmpfsServiceBootstrapFailed,
            protocol_failed: Text::TmpfsServiceProtocolFailed,
        }),
{
    ServiceMessages {
        starting: Text::TmpfsServiceStarting,
        restarting: Text::TmpfsServiceRestarting,
        ready: Text::TmpfsServiceReady,
        failed: Text::TmpfsServiceFailed,
        bootstrap_failed: Text::TmpfsServiceBootstrapFailed,
        protocol_failed: Text::TmpfsServiceProtocolFailed,
    }
}

#[verifier::allow_in_spec]
pub fn vfs_messages() -> ServiceMessages
    returns
        (ServiceMessages {
            starting: Text::VfsServiceStarting,
            restarting: Text::VfsServiceRestarting,
            ready: Text::VfsServiceReady,
            failed: Text::VfsServiceFailed,
            bootstrap_failed: Text::VfsServiceBootstrapFailed,
            protocol_failed: Text::VfsServiceProtocolFailed,
        }),
{
    ServiceMessages {
        starting: Text::VfsServiceStarting,
        restarting: Text::VfsServiceRestarting,
        ready: Text::VfsServiceReady,
        failed: Text::VfsServiceFailed,
        bootstrap_failed: Text::VfsServiceBootstrapFailed,
        protocol_failed: Text::VfsServiceProtocolFailed,
    }
}

/// A service that runs in a job, and what is said when the job is empty again.
#[derive(Debug, Clone, Copy, PartialEq, Eq, Structural)]
pub struct ServiceContainment {
    pub service: Service,
    pub drained_message: Text,
}

#[verifier::allow_in_spec]
pub fn logging_containment() -> ServiceContainment
    returns
        (ServiceContainment {
            service: Service::Logging,
            drained_message: Text::LoggingServiceJobDrained,
        }),
{
    ServiceContainment {
        service: Service::Logging,
        drained_message: Text::LoggingServiceJobDrained,
    }
}

#[verifier::allow_in_spec]
pub fn nullfs_containment() -> ServiceContainment
    returns
        (ServiceContainment {
            service: Service::Nullfs,
            drained_message: Text::NullfsServiceJobDrained,
        }),
{
    ServiceContainment {
        service: Service::Nullfs,
        drained_message: Text::NullfsServiceJobDrained,
    }
}

#[verifier::allow_in_spec]
pub fn tmpfs_containment() -> ServiceContainment
    returns
        (ServiceContainment {
            service: Service::Tmpfs,
            drained_message: Text::TmpfsServiceJobDrained,
        }),
{
    ServiceContainment { service: Service::Tmpfs, drained_message: Text::TmpfsServiceJobDrained }
}

#[verifier::allow_in_spec]
pub fn vfs_containment() -> ServiceContainment
    returns
        (ServiceContainment {
            service: Service::Vfs,
            drained_message: Text::VfsServiceJobDrained,
        }),
{
    ServiceContainment { service: Service::Vfs, drained_message: Text::VfsServiceJobDrained }
}

/// The endpoints and the job of one generation of a service.
#[derive(Clone, Copy, Debug, PartialEq, Eq, Structural)]
pub struct GenerationResources {
    pub readiness_endpoint: CapabilityHandle,
    pub request_endpoint: CapabilityHandle,
    pub job: ContainedServiceJob,
}

/// The job of a service that runs.
#[derive(Debug, Clone, Copy, PartialEq, Eq, Structural)]
pub struct ContainedServiceJob {
    pub containment: ServiceContainment,
    pub job: Option<CapabilityHandle>,
    pub cleanup_budget_reported: bool,
}

/// Asking for the processes of a running service to end: whether that was taken.
pub open spec fn request_termination_run(k: kernel::Transcript, job: ContainedServiceJob) -> (
    kernel::Transcript,
    Option<bool>,
) {
    match job.job {
        None => procedure::after(
            service_teardown::report_run(
                k,
                job.containment.service,
                Phase::JobDrain,
                Operation::JobTerminate,
                Observation::MissingHandle,
            ),
            |k: kernel::Transcript, said: ()| procedure::done(k, false),
        ),
        Some(handle) => service_teardown::terminate_run(k, job.containment.service, handle),
    }
}

/// Draining the job of a service whose leader is gone: what is left of the job, and whether that
/// is nothing.
pub open spec fn drain_run(k: kernel::Transcript, job: ContainedServiceJob) -> (
    kernel::Transcript,
    Option<(ContainedServiceJob, bool)>,
) {
    procedure::after(
        service_teardown::drain_run(
            k,
            job.containment.service,
            job.job,
            None,
            job.containment.drained_message,
            job.cleanup_budget_reported,
        ),
        |k: kernel::Transcript, torn: service_teardown::Torn|
            procedure::done(
                k,
                (
                    ContainedServiceJob {
                        job: service_teardown::left(job.job, torn.clean),
                        cleanup_budget_reported: torn.reported,
                        ..job
                    },
                    torn.clean,
                ),
            ),
    )
}

impl ContainedServiceJob {
    pub fn request_termination(&self, k: &mut Kernel) -> (result: Option<bool>)
        ensures
            (final(k)@, result) == request_termination_run(old(k)@, *self),
    {
        match self.job {
            None => {
                report_service_cleanup_diagnostic(
                    k,
                    self.containment.service,
                    Phase::JobDrain,
                    Operation::JobTerminate,
                    Observation::MissingHandle,
                )?;
                Some(false)
            },
            Some(handle) => terminate_job(k, self.containment.service, handle),
        }
    }

    pub fn drain(&mut self, k: &mut Kernel) -> (result: Option<bool>)
        ensures
            ({
                let (asked, outcome) = drain_run(old(k)@, *old(self));
                &&& final(k)@ == asked
                &&& match result {
                    None => outcome is None,
                    Some(clean) => outcome == Some((*final(self), clean)),
                }
            }),
    {
        let mut leader: Option<ProcessId> = None;
        let mut group: Option<ProcessId> = None;
        terminate_and_drain_service_job(
            k,
            self.containment.service,
            &mut self.job,
            &mut leader,
            &mut group,
            self.containment.drained_message,
            &mut self.cleanup_budget_reported,
        )
    }
}

/// Draining a job without which the process gives up.
pub open spec fn must_drain_run(k: kernel::Transcript, job: ContainedServiceJob, text: Text) -> Run<
    ContainedServiceJob,
> {
    init_run::bind(
        init_run::hear_run(drain_run(k, job)),
        |k: kernel::Transcript, drained: (ContainedServiceJob, bool)|
            if drained.1 {
                init_run::end(k, drained.0)
            } else {
                init_run::giving_up(k, text)
            },
    )
}

pub fn must_drain(k: &mut Kernel, job: &mut ContainedServiceJob, text: Text) -> (result: Result<
    (),
    Halt,
>)
    ensures
        ({
            let (asked, outcome) = must_drain_run(old(k)@, *old(job), text);
            &&& final(k)@ == asked
            &&& match result {
                Ok(_) => outcome == Ok::<_, Halt>(*final(job)),
                Err(halt) => outcome == Err::<ContainedServiceJob, _>(halt),
            }
        }),
{
    let clean = hear(job.drain(k))?;
    demand(clean, text)
}

/// Giving up on an attempt: it is aborted first, and what cannot be aborted is what the process
/// gives up with.
pub open spec fn fail_attempt_run<T>(
    k: kernel::Transcript,
    attempt: ActivationAttempt,
    unclean: Text,
    text: Text,
) -> Run<T> {
    init_run::bind(
        init_run::hear_run(activation::abort_run(k, attempt)),
        |k: kernel::Transcript, aborted: (ActivationAttempt, bool)|
            init_run::giving_up(
                k,
                if aborted.1 {
                    text
                } else {
                    unclean
                },
            ),
    )
}

pub fn fail_attempt<T>(k: &mut Kernel, attempt: ActivationAttempt, unclean: Text, text: Text) -> (result:
    Result<T, Halt>)
    ensures
        (final(k)@, result) == fail_attempt_run::<T>(old(k)@, attempt, unclean, text),
{
    let mut attempt = attempt;
    let clean = hear(attempt.abort(k))?;
    if clean {
        Err(Halt::Failed(text))
    } else {
        Err(Halt::Failed(unclean))
    }
}

/// Closing an endpoint of a service, without which the process gives up.
pub open spec fn close_endpoint_run(
    k: kernel::Transcript,
    containment: ServiceContainment,
    handle: CapabilityHandle,
    text: Text,
) -> Run<()> {
    init_run::bind(
        init_run::hear_run(
            service_teardown::close_capability_run(
                k,
                containment.service,
                Phase::ResourceRelease,
                Some(handle),
            ),
        ),
        |k: kernel::Transcript, closed: bool| init_run::demand_run(k, closed, text),
    )
}

pub fn close_contained_endpoint(
    k: &mut Kernel,
    containment: ServiceContainment,
    handle: CapabilityHandle,
    failure_message: Text,
) -> (result: Result<(), Halt>)
    ensures
        (final(k)@, result) == close_endpoint_run(old(k)@, containment, handle, failure_message),
{
    let mut handle = Some(handle);
    let closed = hear(
        close_cleanup_capability(k, containment.service, Phase::ResourceRelease, &mut handle),
    )?;
    demand(closed, failure_message)
}

/// What only a managed start needs, or only a granted one: a bootstrap endpoint, or the endpoint
/// on which the generation waits.
pub open spec fn prepare_run(
    k: kernel::Transcript,
    attempt: ActivationAttempt,
    managed: bool,
    generation: ProviderGeneration,
    messages: ServiceMessages,
) -> Run<ActivationAttempt> {
    if managed {
        init_run::bind(
            init_run::hear_run(ipc::endpoint_create_pair_run(k)),
            |k: kernel::Transcript, pair: Result<(u64, u64), ipc::Error>|
                match pair {
                    Err(_) => fail_attempt_run(
                        k,
                        attempt,
                        messages.failed,
                        messages.bootstrap_failed,
                    ),
                    Ok((sender, receiver)) => init_run::end(
                        k,
                        ActivationAttempt {
                            bootstrap_sender: Some(sender),
                            bootstrap_receiver: Some(receiver),
                            ..attempt
                        },
                    ),
                },
        )
    } else {
        init_run::bind(
            init_run::hear_run(ipc::value_run(k, Op::EndpointCreate)),
            |k: kernel::Transcript, created: Result<u64, ipc::Error>|
                match created {
                    Err(_) => fail_attempt_run(
                        k,
                        attempt,
                        messages.failed,
                        messages.bootstrap_failed,
                    ),
                    Ok(source) => queue_run(
                        k,
                        ActivationAttempt { generation_source: Some(source), ..attempt },
                        source,
                        generation,
                        messages,
                    ),
                },
        )
    }
}

/// Queueing the generation where the child will look for it.
pub open spec fn queue_run(
    k: kernel::Transcript,
    attempt: ActivationAttempt,
    source: CapabilityHandle,
    generation: ProviderGeneration,
    messages: ServiceMessages,
) -> Run<ActivationAttempt> {
    init_run::bind(
        init_run::hear_run(service_route::queue_generation_run(k, source, generation)),
        |k: kernel::Transcript, queued: Result<(), service_route::GenerationHandoffSendError>|
            if queued is Ok {
                init_run::end(k, attempt)
            } else {
                fail_attempt_run(k, attempt, messages.failed, messages.bootstrap_failed)
            },
    )
}

pub(crate) fn prepare(
    k: &mut Kernel,
    attempt: ActivationAttempt,
    managed: bool,
    generation: ProviderGeneration,
    messages: ServiceMessages,
) -> (result: Result<ActivationAttempt, Halt>)
    ensures
        (final(k)@, result) == prepare_run(old(k)@, attempt, managed, generation, messages),
{
    let mut attempt = attempt;
    if managed {
        match hear(ipc::endpoint_create_pair(k))? {
            Err(_) => fail_attempt(k, attempt, messages.failed, messages.bootstrap_failed),
            Ok((sender, receiver)) => {
                attempt.bootstrap_sender = Some(sender);
                attempt.bootstrap_receiver = Some(receiver);
                Ok(attempt)
            },
        }
    } else {
        match hear(ipc::endpoint_create(k))? {
            Err(_) => fail_attempt(k, attempt, messages.failed, messages.bootstrap_failed),
            Ok(source) => {
                attempt.generation_source = Some(source);
                if hear(queue_service_generation(k, source, generation))?.is_err() {
                    return fail_attempt(k, attempt, messages.failed, messages.bootstrap_failed);
                }
                Ok(attempt)
            },
        }
    }
}

/// Starting the child of an attempt and putting it into the job.
pub open spec fn launch_run(
    k: kernel::Transcript,
    attempt: ActivationAttempt,
    command: Seq<u8>,
    messages: ServiceMessages,
) -> Run<(ActivationAttempt, ProcessId)> {
    init_run::bind(
        init_run::announce_run(k, messages.starting),
        |k: kernel::Transcript, said: ()|
            init_run::bind(
                init_run::hear_run(activation::spawn_child_run(k, attempt, command, None)),
                |k: kernel::Transcript, spawned: (ActivationAttempt, Option<ProcessId>)|
                    match spawned.1 {
                        None => fail_attempt_run(k, spawned.0, messages.failed, messages.failed),
                        Some(process_id) => assign_run(k, spawned.0, process_id, messages),
                    },
            ),
    )
}

/// Putting the child of an attempt into the job.
pub open spec fn assign_run(
    k: kernel::Transcript,
    attempt: ActivationAttempt,
    process_id: ProcessId,
    messages: ServiceMessages,
) -> Run<(ActivationAttempt, ProcessId)> {
    match (attempt.job_management, attempt.job) {
        (Some(management), Some(job)) => init_run::bind(
            init_run::hear_run(activation::assign_run(k, attempt, management, job, process_id)),
            |k: kernel::Transcript, assigned: (ActivationAttempt, bool)|
                if assigned.1 {
                    init_run::end(k, (assigned.0, process_id))
                } else {
                    fail_attempt_run(k, assigned.0, messages.failed, messages.bootstrap_failed)
                },
        ),
        _ => fail_attempt_run(k, attempt, messages.failed, messages.bootstrap_failed),
    }
}

pub fn launch(k: &mut Kernel, attempt: ActivationAttempt, command: &[u8], messages: ServiceMessages) -> (result:
    Result<(ActivationAttempt, ProcessId), Halt>)
    ensures
        (final(k)@, result) == launch_run(old(k)@, attempt, command@, messages),
{
    let mut attempt = attempt;
    announce(k, messages.starting)?;
    let process_id = match hear(attempt.spawn_child(k, command, None))? {
        Some(process_id) => process_id,
        None => {
            return fail_attempt(k, attempt, messages.failed, messages.failed);
        },
    };
    match (attempt.job_management, attempt.job) {
        (Some(management), Some(job)) => {
            if !hear(attempt.assign_child(k, management, job, process_id))? {
                return fail_attempt(k, attempt, messages.failed, messages.bootstrap_failed);
            }
            Ok((attempt, process_id))
        },
        _ => fail_attempt(k, attempt, messages.failed, messages.bootstrap_failed),
    }
}

/// What a managed service gets: where it says that it is ready, and where its requests come in.
pub open spec fn managed_capabilities(readiness: CapabilityHandle, request: CapabilityHandle) -> Seq<
    ManagedToolCapability,
> {
    seq![
        ManagedToolCapability {
            source_handle: readiness,
            rights: Rights::send(),
            role: CapabilityRole::readiness(),
        },
        ManagedToolCapability {
            source_handle: request,
            rights: Rights::receive(),
            role: CapabilityRole::service_request(),
        },
    ]
}

/// Telling a managed service what it needs: it finds its bootstrap endpoint, and its start is sent
/// there. It gets nothing else.
pub open spec fn managed_bootstrap_run(
    k: kernel::Transcript,
    attempt: ActivationAttempt,
    process_id: ProcessId,
    generation: ProviderGeneration,
    service: supervisor::Service,
    identity: ManagedServiceIdentity,
    readiness: CapabilityHandle,
    request: CapabilityHandle,
    additional: Seq<BootstrapCapability>,
) -> Run<bool> {
    match (attempt.bootstrap_receiver, attempt.bootstrap_sender) {
        (Some(receiver), Some(sender)) => if additional.len() != 0 {
            init_run::end(k, false)
        } else {
            init_run::bind(
                init_run::grant_run(
                    k,
                    process_id,
                    receiver,
                    Rights::receive(),
                    PROCESS_START_BOOTSTRAP_HANDLE,
                ),
                |k: kernel::Transcript, given: bool|
                    if !given {
                        init_run::end(k, false)
                    } else {
                        init_run::hear_run(
                            service_launch::managed_start_run(
                                k,
                                sender,
                                service.spec.command@,
                                process_id,
                                generation,
                                service.restart_count,
                                identity,
                                managed_capabilities(readiness, request),
                            ),
                        )
                    },
            )
        },
        _ => init_run::end(k, false),
    }
}

fn managed_bootstrap(
    k: &mut Kernel,
    attempt: ActivationAttempt,
    process_id: ProcessId,
    generation: ProviderGeneration,
    service: &ServiceRuntime,
    identity: ManagedServiceIdentity,
    readiness: CapabilityHandle,
    request: CapabilityHandle,
    additional: &[BootstrapCapability],
) -> (result: Result<bool, Halt>)
    ensures
        (final(k)@, result) == managed_bootstrap_run(
            old(k)@,
            attempt,
            process_id,
            generation,
            service@,
            identity,
            readiness,
            request,
            additional@,
        ),
{
    let (receiver, sender) = match (attempt.bootstrap_receiver, attempt.bootstrap_sender) {
        (Some(receiver), Some(sender)) => (receiver, sender),
        _ => {
            return Ok(false);
        },
    };
    if additional.len() != 0 {
        return Ok(false);
    }
    if !grant(k, process_id, receiver, Rights::receive(), PROCESS_START_BOOTSTRAP_HANDLE)? {
        return Ok(false);
    }
    let capabilities: [ManagedToolCapability; 2] = [
        ManagedToolCapability::new(readiness, Rights::send(), CapabilityRole::readiness()),
        ManagedToolCapability::new(request, Rights::receive(), CapabilityRole::service_request()),
    ];
    assert(capabilities@ =~= managed_capabilities(readiness, request));
    hear(
        send_managed_service_process_start(
            k,
            sender,
            service.spec().command,
            process_id,
            generation,
            service.restart_count(),
            identity,
            &capabilities,
        ),
    )
}

/// What a service gets that is not managed, in order.
pub open spec fn granted_endpoints(
    readiness: CapabilityHandle,
    request: CapabilityHandle,
    generation_source: CapabilityHandle,
) -> Seq<BootstrapCapability> {
    seq![
        BootstrapCapability {
            source_handle: readiness,
            rights: Rights::send(),
            target_handle: READY_HANDLE,
        },
        BootstrapCapability {
            source_handle: request,
            rights: Rights::receive(),
            target_handle: REQUEST_HANDLE,
        },
        BootstrapCapability {
            source_handle: generation_source,
            rights: Rights::receive(),
            target_handle: GENERATION_HANDOFF_HANDLE,
        },
    ]
}

/// Granting a service its endpoints and whatever else it gets.
pub open spec fn granted_bootstrap_run(
    k: kernel::Transcript,
    attempt: ActivationAttempt,
    process_id: ProcessId,
    readiness: CapabilityHandle,
    request: CapabilityHandle,
    additional: Seq<BootstrapCapability>,
) -> Run<bool> {
    match attempt.generation_source {
        None => init_run::end(k, false),
        Some(generation_source) => init_run::bind(
            init_run::grant_each_run(
                k,
                process_id,
                granted_endpoints(readiness, request, generation_source),
                0,
            ),
            |k: kernel::Transcript, given: bool|
                if given {
                    init_run::grant_each_run(k, process_id, additional, 0)
                } else {
                    init_run::end(k, false)
                },
        ),
    }
}

fn granted_bootstrap(
    k: &mut Kernel,
    attempt: ActivationAttempt,
    process_id: ProcessId,
    readiness: CapabilityHandle,
    request: CapabilityHandle,
    additional: &[BootstrapCapability],
) -> (result: Result<bool, Halt>)
    ensures
        (final(k)@, result) == granted_bootstrap_run(
            old(k)@,
            attempt,
            process_id,
            readiness,
            request,
            additional@,
        ),
{
    let generation_source = match attempt.generation_source {
        Some(generation_source) => generation_source,
        None => {
            return Ok(false);
        },
    };
    let endpoints: [BootstrapCapability; 3] = [
        BootstrapCapability {
            source_handle: readiness,
            rights: Rights::send(),
            target_handle: READY_HANDLE,
        },
        BootstrapCapability {
            source_handle: request,
            rights: Rights::receive(),
            target_handle: REQUEST_HANDLE,
        },
        BootstrapCapability {
            source_handle: generation_source,
            rights: Rights::receive(),
            target_handle: GENERATION_HANDOFF_HANDLE,
        },
    ];
    assert(endpoints@ =~= granted_endpoints(readiness, request, generation_source));
    if !grant_each(k, process_id, &endpoints)? {
        return Ok(false);
    }
    grant_each(k, process_id, additional)
}

/// Telling a service what it needs and letting it go.
pub open spec fn bootstrap_run(
    k: kernel::Transcript,
    attempt: ActivationAttempt,
    process_id: ProcessId,
    generation: ProviderGeneration,
    service: supervisor::Service,
    identity: Option<ManagedServiceIdentity>,
    readiness: CapabilityHandle,
    request: CapabilityHandle,
    additional: Seq<BootstrapCapability>,
    messages: ServiceMessages,
) -> Run<ActivationAttempt> {
    init_run::bind(
        match identity {
            Some(identity) => managed_bootstrap_run(
                k,
                attempt,
                process_id,
                generation,
                service,
                identity,
                readiness,
                request,
                additional,
            ),
            None => granted_bootstrap_run(k, attempt, process_id, readiness, request, additional),
        },
        |k: kernel::Transcript, told: bool|
            if !told {
                fail_attempt_run(k, attempt, messages.failed, messages.bootstrap_failed)
            } else {
                release_run(k, attempt, messages)
            },
    )
}

/// Letting the child of an attempt go.
pub open spec fn release_run(
    k: kernel::Transcript,
    attempt: ActivationAttempt,
    messages: ServiceMessages,
) -> Run<ActivationAttempt> {
    init_run::bind(
        init_run::hear_run(activation::release_child_run(k, attempt)),
        |k: kernel::Transcript, released: (ActivationAttempt, bool)|
            if released.1 {
                init_run::end(k, released.0)
            } else {
                fail_attempt_run(k, released.0, messages.failed, messages.bootstrap_failed)
            },
    )
}

fn bootstrap(
    k: &mut Kernel,
    attempt: ActivationAttempt,
    process_id: ProcessId,
    generation: ProviderGeneration,
    service: &ServiceRuntime,
    identity: Option<ManagedServiceIdentity>,
    readiness: CapabilityHandle,
    request: CapabilityHandle,
    additional: &[BootstrapCapability],
    messages: ServiceMessages,
) -> (result: Result<ActivationAttempt, Halt>)
    ensures
        (final(k)@, result) == bootstrap_run(
            old(k)@,
            attempt,
            process_id,
            generation,
            service@,
            identity,
            readiness,
            request,
            additional@,
            messages,
        ),
{
    let told = match identity {
        Some(identity) => managed_bootstrap(
            k,
            attempt,
            process_id,
            generation,
            service,
            identity,
            readiness,
            request,
            additional,
        )?,
        None => granted_bootstrap(k, attempt, process_id, readiness, request, additional)?,
    };
    if !told {
        return fail_attempt(k, attempt, messages.failed, messages.bootstrap_failed);
    }
    let mut attempt = attempt;
    if !hear(attempt.release_child(k))? {
        return fail_attempt(k, attempt, messages.failed, messages.bootstrap_failed);
    }
    Ok(attempt)
}

/// What one look at a service that is starting shows.
#[derive(Debug, Clone, Copy, PartialEq, Eq, Structural)]
pub enum StartProgress {
    Ready,
    Again,
    Restart { backoff_yields: u32 },
}

/// Looking for the readiness message of a service.
pub open spec fn look_ready_run(
    k: kernel::Transcript,
    service: supervisor::Service,
    attempt: ActivationAttempt,
    process_id: ProcessId,
    readiness: CapabilityHandle,
    messages: ServiceMessages,
) -> Run<(supervisor::Service, bool)> {
    init_run::bind(
        init_run::hear_run(ipc::try_receive_run(k, readiness, READY_BYTES)),
        |k: kernel::Transcript, received: Result<ipc::Delivery, ipc::Error>|
            match received {
                Ok(delivery) => if !init_run::is_expected(
                    delivery,
                    process_id,
                    service.spec.ready_message@,
                ) || !service.accepts_readiness() {
                    fail_attempt_run(k, attempt, messages.failed, messages.protocol_failed)
                } else {
                    init_run::bind(
                        init_run::announce_run(k, messages.ready),
                        |k: kernel::Transcript, said: ()|
                            init_run::end(k, (service.ready(), true)),
                    )
                },
                Err(error) => if error == ipc::Error::try_again() {
                    init_run::end(k, (service, false))
                } else {
                    fail_attempt_run(k, attempt, messages.failed, messages.protocol_failed)
                },
            },
    )
}

/// Looking whether the process of a starting service has changed.
pub open spec fn look_child_run(
    k: kernel::Transcript,
    service: supervisor::Service,
    attempt: ActivationAttempt,
    process_id: ProcessId,
    messages: ServiceMessages,
) -> Run<(supervisor::Service, StartProgress)> {
    init_run::bind(
        init_run::hear_run(syscall::try_wait_run(k, process_id)),
        |k: kernel::Transcript, polled: Result<ChildStatus, ipc::Error>|
            match polled {
                Ok(status) => {
                    let (next, disposition) = service.observe(status.raw);
                    match disposition {
                        ServiceStatusDisposition::WaitForNextEvent => init_run::bind(
                            init_run::linger_run(k),
                            |k: kernel::Transcript, rested: ()|
                                init_run::end(k, (next, StartProgress::Again)),
                        ),
                        ServiceStatusDisposition::Restart { backoff_yields } => init_run::end(
                            k,
                            (next, StartProgress::Restart { backoff_yields }),
                        ),
                        _ => fail_attempt_run(
                            k,
                            ActivationAttempt { process_id: None, ..attempt },
                            messages.failed,
                            messages.failed,
                        ),
                    }
                },
                Err(error) => if init_run::not_yet(error) {
                    init_run::bind(
                        init_run::linger_run(k),
                        |k: kernel::Transcript, rested: ()|
                            init_run::end(k, (service, StartProgress::Again)),
                    )
                } else {
                    fail_attempt_run(k, attempt, messages.failed, messages.failed)
                },
            },
    )
}

/// One look at a service that is starting.
pub open spec fn look_run(
    k: kernel::Transcript,
    service: supervisor::Service,
    attempt: ActivationAttempt,
    process_id: ProcessId,
    readiness: CapabilityHandle,
    messages: ServiceMessages,
) -> Run<(supervisor::Service, StartProgress)> {
    init_run::bind(
        look_ready_run(k, service, attempt, process_id, readiness, messages),
        |k: kernel::Transcript, looked: (supervisor::Service, bool)|
            if looked.1 {
                init_run::end(k, (looked.0, StartProgress::Ready))
            } else {
                look_child_run(k, looked.0, attempt, process_id, messages)
            },
    )
}

/// Waiting until a service is ready or has to be started again.
pub open spec fn await_run(
    k: kernel::Transcript,
    service: supervisor::Service,
    attempt: ActivationAttempt,
    process_id: ProcessId,
    readiness: CapabilityHandle,
    messages: ServiceMessages,
) -> Run<(supervisor::Service, StartProgress)>
    decreases k.unread(),
{
    let (looked, result) = look_run(k, service, attempt, process_id, readiness, messages);
    match result {
        Ok((next, StartProgress::Again)) => await_run(
            looked,
            next,
            attempt,
            process_id,
            readiness,
            messages,
        ),
        _ => (looked, result),
    }
}

#[verifier::loop_isolation(false)]
fn await_service(
    k: &mut Kernel,
    service: &mut ServiceRuntime,
    attempt: ActivationAttempt,
    process_id: ProcessId,
    readiness: CapabilityHandle,
    messages: ServiceMessages,
) -> (result: Result<StartProgress, Halt>)
    ensures
        ({
            let (asked, outcome) = await_run(
                old(k)@,
                old(service)@,
                attempt,
                process_id,
                readiness,
                messages,
            );
            &&& final(k)@ == asked
            &&& init_run::came_to(outcome, final(service)@, result)
        }),
{
    loop
        invariant
            await_run(old(k)@, old(service)@, attempt, process_id, readiness, messages)
                == await_run(k@, service@, attempt, process_id, readiness, messages),
        decreases k@.unread(),
    {
        match hear(ipc::try_receive(k, readiness, READY_BYTES))? {
            Ok(received) => {
                if !is_expected_message(&received, process_id, service.spec().ready_message) {
                    return fail_attempt(k, attempt, messages.failed, messages.protocol_failed);
                }
                if service.note_ready() != ReadyDisposition::Accepted {
                    return fail_attempt(k, attempt, messages.failed, messages.protocol_failed);
                }
                announce(k, messages.ready)?;
                return Ok(StartProgress::Ready);
            },
            Err(error) => {
                if error != ipc::Error::try_again() {
                    return fail_attempt(k, attempt, messages.failed, messages.protocol_failed);
                }
            },
        }
        match hear(try_wait_child(k, process_id))? {
            Ok(status) => {
                match service.observe_status(status.raw()) {
                    ServiceStatusDisposition::WaitForNextEvent => {},
                    ServiceStatusDisposition::Restart { backoff_yields } => {
                        return Ok(StartProgress::Restart { backoff_yields });
                    },
                    _ => {
                        let mut reaped = attempt;
                        reaped.process_id = None;
                        return fail_attempt(k, reaped, messages.failed, messages.failed);
                    },
                }
            },
            Err(error) => {
                if !not_yet(error) {
                    return fail_attempt(k, attempt, messages.failed, messages.failed);
                }
            },
        }
        linger(k)?;
    }
}

/// Whether an attempt owns exactly what a running service needs.
#[verifier::allow_in_spec]
pub fn is_running_attempt(attempt: ActivationAttempt) -> bool
    returns
        attempt.job_assigned && attempt.process_id is Some && attempt.process_group_id is Some
            && attempt.job is Some && attempt.job_management is None && attempt.generation_source
            is None && attempt.barrier is None,
{
    attempt.job_assigned && attempt.process_id.is_some() && attempt.process_group_id.is_some()
        && attempt.job.is_some() && attempt.job_management.is_none()
        && attempt.generation_source.is_none() && attempt.barrier.is_none()
}

/// Clearing up after a service that ended while it started, so that it can be started again with
/// endpoints of its own.
pub open spec fn renew_run(
    k: kernel::Transcript,
    attempt: ActivationAttempt,
    containment: ServiceContainment,
    readiness: CapabilityHandle,
    request: CapabilityHandle,
    backoff_yields: u32,
    messages: ServiceMessages,
) -> Run<(CapabilityHandle, CapabilityHandle)> {
    init_run::bind(
        init_run::hear_run(
            activation::abort_run(k, ActivationAttempt { process_id: None, ..attempt }),
        ),
        |k: kernel::Transcript, aborted: (ActivationAttempt, bool)|
            if !aborted.1 {
                init_run::giving_up(k, messages.failed)
            } else {
                init_run::bind(
                    init_run::announce_run(k, messages.restarting),
                    |k: kernel::Transcript, said: ()|
                        init_run::bind(
                            init_run::backoff_run(k, backoff_yields as nat),
                            |k: kernel::Transcript, rested: ()|
                                replace_endpoints_run(
                                    k,
                                    containment,
                                    readiness,
                                    request,
                                    messages.bootstrap_failed,
                                    messages.bootstrap_failed,
                                ),
                        ),
                )
            },
    )
}

/// Closing both endpoints of a service and making new ones.
pub open spec fn replace_endpoints_run(
    k: kernel::Transcript,
    containment: ServiceContainment,
    readiness: CapabilityHandle,
    request: CapabilityHandle,
    close_failed: Text,
    create_failed: Text,
) -> Run<(CapabilityHandle, CapabilityHandle)> {
    init_run::bind(
        close_endpoints_run(k, containment, readiness, request, close_failed),
        |k: kernel::Transcript, closed: ()| create_endpoints_run(k, create_failed),
    )
}

/// Closing both endpoints of a service.
pub open spec fn close_endpoints_run(
    k: kernel::Transcript,
    containment: ServiceContainment,
    readiness: CapabilityHandle,
    request: CapabilityHandle,
    text: Text,
) -> Run<()> {
    init_run::bind(
        close_endpoint_run(k, containment, readiness, text),
        |k: kernel::Transcript, closed: ()| close_endpoint_run(k, containment, request, text),
    )
}

/// Making the endpoints of a service.
pub open spec fn create_endpoints_run(k: kernel::Transcript, text: Text) -> Run<
    (CapabilityHandle, CapabilityHandle),
> {
    init_run::bind(
        init_run::need_run(ipc::value_run(k, Op::EndpointCreate), text),
        |k: kernel::Transcript, readiness: u64|
            init_run::bind(
                init_run::need_run(ipc::value_run(k, Op::EndpointCreate), text),
                |k: kernel::Transcript, request: u64| init_run::end(k, (readiness, request)),
            ),
    )
}

pub fn close_endpoints(
    k: &mut Kernel,
    containment: ServiceContainment,
    readiness: CapabilityHandle,
    request: CapabilityHandle,
    text: Text,
) -> (result: Result<(), Halt>)
    ensures
        (final(k)@, result) == close_endpoints_run(old(k)@, containment, readiness, request, text),
{
    close_contained_endpoint(k, containment, readiness, text)?;
    close_contained_endpoint(k, containment, request, text)
}

pub fn create_endpoints(k: &mut Kernel, text: Text) -> (result: Result<
    (CapabilityHandle, CapabilityHandle),
    Halt,
>)
    ensures
        (final(k)@, result) == create_endpoints_run(old(k)@, text),
{
    let readiness = need(ipc::endpoint_create(k), text)?;
    let request = need(ipc::endpoint_create(k), text)?;
    Ok((readiness, request))
}

fn renew(
    k: &mut Kernel,
    attempt: ActivationAttempt,
    containment: ServiceContainment,
    readiness: CapabilityHandle,
    request: CapabilityHandle,
    backoff_yields: u32,
    messages: ServiceMessages,
) -> (result: Result<(CapabilityHandle, CapabilityHandle), Halt>)
    ensures
        (final(k)@, result) == renew_run(
            old(k)@,
            attempt,
            containment,
            readiness,
            request,
            backoff_yields,
            messages,
        ),
{
    let mut attempt = attempt;
    let clean = hear(attempt.finish_reaped(k))?;
    demand(clean, messages.failed)?;
    announce(k, messages.restarting)?;
    backoff(k, backoff_yields)?;
    close_endpoints(k, containment, readiness, request, messages.bootstrap_failed)?;
    create_endpoints(k, messages.bootstrap_failed)
}

/// What a service and its supervisor hold while it is started.
pub ghost struct Starting {
    pub service: supervisor::Service,
    pub generations: u64,
    pub readiness: CapabilityHandle,
    pub request: CapabilityHandle,
}

/// Everything up to the moment at which the child of one attempt runs.
pub open spec fn begin_run(
    k: kernel::Transcript,
    starting: Starting,
    generation: ProviderGeneration,
    additional: Seq<BootstrapCapability>,
    messages: ServiceMessages,
    containment: ServiceContainment,
) -> Run<(ActivationAttempt, ProcessId)> {
    let fresh = ActivationAttempt::new(containment.service, containment.drained_message);
    let identity = service_launch::containment_identity(containment.service);
    init_run::bind(
        init_run::hear_run(activation::create_job_run(k, fresh)),
        |k: kernel::Transcript, created: (ActivationAttempt, bool)|
            if !created.1 {
                fail_attempt_run(k, created.0, messages.failed, messages.bootstrap_failed)
            } else {
                init_run::bind(
                    prepare_run(k, created.0, identity is Some, generation, messages),
                    |k: kernel::Transcript, prepared: ActivationAttempt|
                        init_run::bind(
                            launch_run(k, prepared, starting.service.spec.command@, messages),
                            |k: kernel::Transcript, launched: (ActivationAttempt, ProcessId)|
                                init_run::bind(
                                    bootstrap_run(
                                        k,
                                        launched.0,
                                        launched.1,
                                        generation,
                                        starting.service,
                                        identity,
                                        starting.readiness,
                                        starting.request,
                                        additional,
                                        messages,
                                    ),
                                    |k: kernel::Transcript, released: ActivationAttempt|
                                        init_run::end(k, (released, launched.1)),
                                ),
                        ),
                )
            },
    )
}

fn begin(
    k: &mut Kernel,
    service: &ServiceRuntime,
    readiness: CapabilityHandle,
    request: CapabilityHandle,
    Ghost(generations): Ghost<u64>,
    generation: ProviderGeneration,
    additional: &[BootstrapCapability],
    messages: ServiceMessages,
    containment: ServiceContainment,
) -> (result: Result<(ActivationAttempt, ProcessId), Halt>)
    ensures
        (final(k)@, result) == begin_run(
            old(k)@,
            Starting { service: service@, generations, readiness, request },
            generation,
            additional@,
            messages,
            containment,
        ),
{
    let identity = managed_containment_identity(containment.service);
    let mut attempt = ActivationAttempt::new(containment.service, containment.drained_message);
    if !hear(attempt.create_job(k))? {
        return fail_attempt(k, attempt, messages.failed, messages.bootstrap_failed);
    }
    let attempt = prepare(k, attempt, identity.is_some(), generation, messages)?;
    let (attempt, process_id) = launch(k, attempt, service.spec().command, messages)?;
    let attempt = bootstrap(
        k,
        attempt,
        process_id,
        generation,
        service,
        identity,
        readiness,
        request,
        additional,
        messages,
    )?;
    Ok((attempt, process_id))
}

/// What one attempt to start a service comes to.
pub ghost enum Attempted {
    Running { generation: ProviderGeneration, job: ContainedServiceJob },
    Again,
}

/// One attempt to start a service.
pub open spec fn attempt_run(
    k: kernel::Transcript,
    starting: Starting,
    additional: Seq<BootstrapCapability>,
    messages: ServiceMessages,
    containment: ServiceContainment,
) -> Run<(Starting, Attempted)> {
    match identity::generation_after(starting.generations) {
        Err(_) => init_run::giving_up(k, messages.bootstrap_failed),
        Ok(generation) => {
            let numbered = Starting {
                generations: identity::sequence_after(starting.generations),
                ..starting
            };
            init_run::bind(
                begin_run(k, numbered, generation, additional, messages, containment),
                |k: kernel::Transcript, begun: (ActivationAttempt, ProcessId)|
                    init_run::bind(
                        await_run(
                            k,
                            starting.service.spawned(begun.1),
                            begun.0,
                            begun.1,
                            starting.readiness,
                            messages,
                        ),
                        |k: kernel::Transcript, waited: (supervisor::Service, StartProgress)|
                            outcome_run(
                                k,
                                Starting { service: waited.0, ..numbered },
                                begun.0,
                                waited.1,
                                generation,
                                messages,
                                containment,
                            ),
                    ),
            )
        },
    }
}

/// What follows from how an attempt went.
pub open spec fn outcome_run(
    k: kernel::Transcript,
    starting: Starting,
    attempt: ActivationAttempt,
    progress: StartProgress,
    generation: ProviderGeneration,
    messages: ServiceMessages,
    containment: ServiceContainment,
) -> Run<(Starting, Attempted)> {
    match progress {
        StartProgress::Restart { backoff_yields } => init_run::bind(
            renew_run(
                k,
                attempt,
                containment,
                starting.readiness,
                starting.request,
                backoff_yields,
                messages,
            ),
            |k: kernel::Transcript, endpoints: (CapabilityHandle, CapabilityHandle)|
                init_run::end(
                    k,
                    (
                        Starting { readiness: endpoints.0, request: endpoints.1, ..starting },
                        Attempted::Again,
                    ),
                ),
        ),
        _ => if is_running_attempt(attempt) {
            init_run::end(
                k,
                (
                    starting,
                    Attempted::Running {
                        generation,
                        job: ContainedServiceJob {
                            containment,
                            job: attempt.job,
                            cleanup_budget_reported: false,
                        },
                    },
                ),
            )
        } else {
            init_run::giving_up(k, messages.protocol_failed)
        },
    }
}

/// Starting a service until it runs. Every attempt takes a generation of its own.
pub open spec fn start_run(
    k: kernel::Transcript,
    starting: Starting,
    additional: Seq<BootstrapCapability>,
    messages: ServiceMessages,
    containment: ServiceContainment,
) -> Run<(Starting, (ProviderGeneration, ContainedServiceJob))>
    decreases u64::MAX - starting.generations,
{
    let (tried, result) = attempt_run(k, starting, additional, messages, containment);
    match result {
        Err(halt) => (tried, Err(halt)),
        Ok((next, Attempted::Running { generation, job })) => (
            tried,
            Ok((next, (generation, job))),
        ),
        Ok((next, Attempted::Again)) => if next.generations > starting.generations {
            start_run(tried, next, additional, messages, containment)
        } else {
            (tried, Err(Halt::Waiting))
        },
    }
}

/// Starts a service in a job of its own and waits until it is ready. A service that ends before
/// that is started again, within its restart budget, with a newer generation and new endpoints.
#[verifier::loop_isolation(false)]
pub fn start_contained_service(
    k: &mut Kernel,
    service: &mut ServiceRuntime,
    generations: &mut ProviderGenerationSequence,
    readiness_endpoint: &mut CapabilityHandle,
    request_endpoint: &mut CapabilityHandle,
    additional_capabilities: &[BootstrapCapability],
    messages: ServiceMessages,
    containment: ServiceContainment,
) -> (result: Result<(ProviderGeneration, ContainedServiceJob), Halt>)
    ensures
        ({
            let (asked, outcome) = start_run(
                old(k)@,
                Starting {
                    service: old(service)@,
                    generations: old(generations)@,
                    readiness: *old(readiness_endpoint),
                    request: *old(request_endpoint),
                },
                additional_capabilities@,
                messages,
                containment,
            );
            &&& final(k)@ == asked
            &&& init_run::came_to(
                outcome,
                Starting {
                    service: final(service)@,
                    generations: final(generations)@,
                    readiness: *final(readiness_endpoint),
                    request: *final(request_endpoint),
                },
                result,
            )
        }),
{
    loop
        invariant
            start_run(
                old(k)@,
                Starting {
                    service: old(service)@,
                    generations: old(generations)@,
                    readiness: *old(readiness_endpoint),
                    request: *old(request_endpoint),
                },
                additional_capabilities@,
                messages,
                containment,
            ) == start_run(
                k@,
                Starting {
                    service: service@,
                    generations: generations@,
                    readiness: *readiness_endpoint,
                    request: *request_endpoint,
                },
                additional_capabilities@,
                messages,
                containment,
            ),
        decreases u64::MAX - generations@,
    {
        let generation = match generations.next_generation() {
            Ok(generation) => generation,
            Err(_) => {
                return Err(Halt::Failed(messages.bootstrap_failed));
            },
        };
        let (attempt, process_id) = begin(
            k,
            service,
            *readiness_endpoint,
            *request_endpoint,
            Ghost(generations@),
            generation,
            additional_capabilities,
            messages,
            containment,
        )?;
        service.note_spawned(process_id);
        match await_service(k, service, attempt, process_id, *readiness_endpoint, messages)? {
            StartProgress::Restart { backoff_yields } => {
                let (readiness, request) = renew(
                    k,
                    attempt,
                    containment,
                    *readiness_endpoint,
                    *request_endpoint,
                    backoff_yields,
                    messages,
                )?;
                *readiness_endpoint = readiness;
                *request_endpoint = request;
            },
            _ => {
                if !is_running_attempt(attempt) {
                    return Err(Halt::Failed(messages.protocol_failed));
                }
                return Ok(
                    (
                        generation,
                        ContainedServiceJob {
                            containment,
                            job: attempt.job,
                            cleanup_budget_reported: false,
                        },
                    ),
                );
            },
        }
    }
}

/// A service that was started runs with a generation newer than every one before the start, and
/// with a job that can be ended.
pub proof fn lemma_started_service_has_a_newer_generation(
    k: kernel::Transcript,
    starting: Starting,
    additional: Seq<BootstrapCapability>,
    messages: ServiceMessages,
    containment: ServiceContainment,
)
    requires
        start_run(k, starting, additional, messages, containment).1 is Ok,
    ensures
        ({
            let (next, started) = start_run(
                k,
                starting,
                additional,
                messages,
                containment,
            ).1->Ok_0;
            &&& started.0.raw > starting.generations
            &&& started.0.raw == next.generations
            &&& started.1.job is Some
        }),
    decreases u64::MAX - starting.generations,
{
    let (tried, result) = attempt_run(k, starting, additional, messages, containment);
    if let Ok((next, Attempted::Again)) = result {
        lemma_started_service_has_a_newer_generation(
            tried,
            next,
            additional,
            messages,
            containment,
        );
    }
}

/// That a process gets a handle under a number, with these rights.
pub open spec fn handing(
    process_id: ProcessId,
    handle: CapabilityHandle,
    rights: Rights,
    target: CapabilityHandle,
) -> Deed {
    trace::granting(
        process_id,
        BootstrapCapability { source_handle: handle, rights, target_handle: target },
    )
}

/// Whether a service was brought up between two points: its command was started, the process was
/// given what it needs, and it said over its readiness endpoint that it is ready. A service that
/// is not managed gets its readiness endpoint to send on, its request endpoint to receive from,
/// its generation, and whatever else it is to have. A managed one gets an endpoint to learn all
/// that from.
pub open spec fn brought_up(
    before: kernel::Transcript,
    after: kernel::Transcript,
    starting: Starting,
    generation: ProviderGeneration,
    managed: bool,
    additional: Seq<BootstrapCapability>,
) -> bool {
    exists|process_id: ProcessId|
        {
            &&& #[trigger] trace::did(
                before,
                after,
                Deed::Spawned { command: starting.service.spec.command@, process_id },
            )
            &&& trace::did(
                before,
                after,
                Deed::Heard {
                    endpoint: starting.readiness,
                    process_id,
                    message: starting.service.spec.ready_message@,
                },
            )
            &&& furnished(
                before,
                after,
                process_id,
                starting.readiness,
                starting.request,
                generation,
                managed,
                additional,
            )
        }
}

/// Whether a process was given what it needs between two points.
pub open spec fn furnished(
    before: kernel::Transcript,
    after: kernel::Transcript,
    process_id: ProcessId,
    readiness: CapabilityHandle,
    request: CapabilityHandle,
    generation: ProviderGeneration,
    managed: bool,
    additional: Seq<BootstrapCapability>,
) -> bool {
    if managed {
        exists|receiver: CapabilityHandle|
            trace::did(
                before,
                after,
                #[trigger] handing(
                    process_id,
                    receiver,
                    Rights::receive(),
                    PROCESS_START_BOOTSTRAP_HANDLE,
                ),
            )
    } else {
        &&& trace::did(before, after, handing(process_id, readiness, Rights::send(), READY_HANDLE))
        &&& trace::did(
            before,
            after,
            handing(process_id, request, Rights::receive(), REQUEST_HANDLE),
        )
        &&& exists|source: CapabilityHandle|
            {
                &&& trace::did(
                    before,
                    after,
                    #[trigger] handing(
                        process_id,
                        source,
                        Rights::receive(),
                        GENERATION_HANDOFF_HANDLE,
                    ),
                )
                &&& trace::did(
                    before,
                    after,
                    Deed::Sent {
                        endpoint: source,
                        message: ServiceGenerationHandoff::new(generation).encoded(),
                    },
                )
            }
        &&& trace::granted_all(before, after, process_id, additional)
    }
}

proof fn lemma_generation_is_queued(
    k: kernel::Transcript,
    attempt: ActivationAttempt,
    generation: ProviderGeneration,
    messages: ServiceMessages,
)
    requires
        prepare_run(k, attempt, false, generation, messages).1 is Ok,
    ensures
        ({
            let (after, prepared) = prepare_run(k, attempt, false, generation, messages);
            prepared->Ok_0.generation_source matches Some(source) && trace::did(
                k,
                after,
                Deed::Sent {
                    endpoint: source,
                    message: ServiceGenerationHandoff::new(generation).encoded(),
                },
            )
        }),
{
    broadcast use {trace::group_did, trace::lemma_ipc_info_run};

    let made = ipc::value_run(k, Op::EndpointCreate).0;
    let source = ipc::value_run(k, Op::EndpointCreate).1->Some_0->Ok_0;
    let inspected = ipc::info_run(made, source).0;
    trace::lemma_sent(inspected, source, ServiceGenerationHandoff::new(generation).encoded());
}

#[verifier::rlimit(30)]
proof fn lemma_command_is_started(
    k: kernel::Transcript,
    attempt: ActivationAttempt,
    command: Seq<u8>,
    messages: ServiceMessages,
)
    requires
        launch_run(k, attempt, command, messages).1 is Ok,
    ensures
        ({
            let (after, launched) = launch_run(k, attempt, command, messages);
            &&& launched->Ok_0.0.generation_source == attempt.generation_source
            &&& trace::did(
                k,
                after,
                Deed::Spawned { command, process_id: launched->Ok_0.1 },
            )
        }),
{
    broadcast use {
        trace::group_did,
        trace::lemma_init_run_announce_run,
        trace::lemma_activation_say_if_run,
        trace::lemma_activation_assign_run,
        trace::lemma_contained_service_assign_run,
    };

    reveal(activation::spawn_child_run);
    reveal(activation::assign_run);
    let said = init_run::announce_run(k, messages.starting).0;
    let (barred, barrier) = syscall::barrier_run(said);
    trace::lemma_spawned(barred, false, barrier->Some_0->Ok_0.handle, command);
}

proof fn lemma_granted_service_is_furnished(
    k: kernel::Transcript,
    attempt: ActivationAttempt,
    process_id: ProcessId,
    readiness: CapabilityHandle,
    request: CapabilityHandle,
    additional: Seq<BootstrapCapability>,
)
    requires
        granted_bootstrap_run(k, attempt, process_id, readiness, request, additional).1 == Ok::<
            bool,
            Halt,
        >(true),
    ensures
        ({
            let after = granted_bootstrap_run(
                k,
                attempt,
                process_id,
                readiness,
                request,
                additional,
            ).0;
            &&& trace::did(k, after, handing(process_id, readiness, Rights::send(), READY_HANDLE))
            &&& trace::did(
                k,
                after,
                handing(process_id, request, Rights::receive(), REQUEST_HANDLE),
            )
            &&& attempt.generation_source matches Some(source) && trace::did(
                k,
                after,
                handing(process_id, source, Rights::receive(), GENERATION_HANDOFF_HANDLE),
            )
            &&& trace::granted_all(k, after, process_id, additional)
        }),
{
    broadcast use {trace::group_did, trace::lemma_init_run_grant_each_run};

    let endpoints = granted_endpoints(readiness, request, attempt.generation_source->Some_0);
    let given = init_run::grant_each_run(k, process_id, endpoints, 0).0;
    trace::lemma_grants_are_made(k, process_id, endpoints, 0);
    trace::lemma_grants_are_made(given, process_id, additional, 0);
    assert(trace::did(k, given, trace::granting(process_id, endpoints[0])));
    assert(trace::did(k, given, trace::granting(process_id, endpoints[1])));
    assert(trace::did(k, given, trace::granting(process_id, endpoints[2])));
}

proof fn lemma_ready_service_said_so(
    k: kernel::Transcript,
    service: supervisor::Service,
    attempt: ActivationAttempt,
    process_id: ProcessId,
    readiness: CapabilityHandle,
    messages: ServiceMessages,
)
    requires
        await_run(k, service, attempt, process_id, readiness, messages).1 matches Ok(
            (_, StartProgress::Ready),
        ),
    ensures
        trace::did(
            k,
            await_run(k, service, attempt, process_id, readiness, messages).0,
            Deed::Heard { endpoint: readiness, process_id, message: service.spec.ready_message@ },
        ),
    decreases k.unread(),
{
    broadcast use {
        trace::group_did,
        trace::lemma_init_run_announce_run,
        trace::lemma_contained_service_look_run,
    };

    let (looked, result) = look_run(k, service, attempt, process_id, readiness, messages);
    if let Ok((next, StartProgress::Again)) = result {
        assert(next.spec == service.spec);
        lemma_ready_service_said_so(looked, next, attempt, process_id, readiness, messages);
    } else {
        trace::lemma_heard(k, readiness, READY_BYTES);
    }
}

/// A service that runs was brought up: what its description says was started, it was given the
/// endpoints that its supervisor holds, with the rights that each of them is for, and the process
/// that was started is the one that said it is ready.
#[verifier::spinoff_prover]
#[verifier::rlimit(30)]
pub proof fn lemma_running_service_was_brought_up(
    k: kernel::Transcript,
    starting: Starting,
    additional: Seq<BootstrapCapability>,
    messages: ServiceMessages,
    containment: ServiceContainment,
)
    ensures
        ({
            let (after, result) = attempt_run(k, starting, additional, messages, containment);
            result matches Ok((next, Attempted::Running { generation, .. })) ==> {
                &&& generation.raw > starting.generations
                &&& next.readiness == starting.readiness
                &&& next.request == starting.request
                &&& brought_up(
                    k,
                    after,
                    starting,
                    generation,
                    service_launch::containment_identity(containment.service) is Some,
                    additional,
                )
            }
        }),
{
    let (after, result) = attempt_run(k, starting, additional, messages, containment);
    if let Ok((next, Attempted::Running { generation, .. })) = result {
        let numbered = Starting {
            generations: identity::sequence_after(starting.generations),
            ..starting
        };
        let (begun, began) = begin_run(k, numbered, generation, additional, messages, containment);
        let (attempt, process_id) = began->Ok_0;
        lemma_begun_service_is_furnished(
            k,
            numbered,
            generation,
            additional,
            messages,
            containment,
        );
        let spawned = starting.service.spawned(process_id);
        assert(spawned.spec == starting.service.spec);
        let (waited, ready) = await_run(
            begun,
            spawned,
            attempt,
            process_id,
            starting.readiness,
            messages,
        );
        lemma_await_ends(begun, spawned, attempt, process_id, starting.readiness, messages);
        lemma_ready_service_said_so(
            begun,
            spawned,
            attempt,
            process_id,
            starting.readiness,
            messages,
        );
        broadcast use {trace::group_did, trace::lemma_contained_service_await_run};

        trace::lemma_contained_service_begin_run(
            k,
            numbered,
            generation,
            additional,
            messages,
            containment,
        );
        assert(trace::mild(begun, waited));
        assert(trace::mild(k, begun));
        assert(after == waited);
        assert(trace::did(
            k,
            after,
            Deed::Spawned { command: starting.service.spec.command@, process_id },
        ));
        lemma_furnished_stays(
            k,
            begun,
            after,
            process_id,
            starting.readiness,
            starting.request,
            generation,
            service_launch::containment_identity(containment.service) is Some,
            additional,
        );
    }
}

proof fn lemma_furnished_stays(
    first: kernel::Transcript,
    second: kernel::Transcript,
    third: kernel::Transcript,
    process_id: ProcessId,
    readiness: CapabilityHandle,
    request: CapabilityHandle,
    generation: ProviderGeneration,
    managed: bool,
    additional: Seq<BootstrapCapability>,
)
    requires
        furnished(
            first,
            second,
            process_id,
            readiness,
            request,
            generation,
            managed,
            additional,
        ),
        trace::mild(second, third),
    ensures
        furnished(first, third, process_id, readiness, request, generation, managed, additional),
{
    broadcast use trace::group_did;

    if managed {
        let receiver = choose|receiver: CapabilityHandle|
            trace::did(
                first,
                second,
                #[trigger] handing(
                    process_id,
                    receiver,
                    Rights::receive(),
                    PROCESS_START_BOOTSTRAP_HANDLE,
                ),
            );
        assert(trace::did(
            first,
            third,
            handing(process_id, receiver, Rights::receive(), PROCESS_START_BOOTSTRAP_HANDLE),
        ));
    }
}

proof fn lemma_await_ends(
    k: kernel::Transcript,
    service: supervisor::Service,
    attempt: ActivationAttempt,
    process_id: ProcessId,
    readiness: CapabilityHandle,
    messages: ServiceMessages,
)
    ensures
        !(await_run(k, service, attempt, process_id, readiness, messages).1 matches Ok(
            (_, StartProgress::Again),
        )),
    decreases k.unread(),
{
    let (looked, result) = look_run(k, service, attempt, process_id, readiness, messages);
    if let Ok((next, StartProgress::Again)) = result {
        lemma_await_ends(looked, next, attempt, process_id, readiness, messages);
    }
}

#[verifier::spinoff_prover]
#[verifier::rlimit(30)]
proof fn lemma_begun_service_is_furnished(
    k: kernel::Transcript,
    starting: Starting,
    generation: ProviderGeneration,
    additional: Seq<BootstrapCapability>,
    messages: ServiceMessages,
    containment: ServiceContainment,
)
    requires
        begin_run(k, starting, generation, additional, messages, containment).1 is Ok,
    ensures
        ({
            let (after, begun) = begin_run(
                k,
                starting,
                generation,
                additional,
                messages,
                containment,
            );
            let process_id = begun->Ok_0.1;
            &&& trace::did(
                k,
                after,
                Deed::Spawned { command: starting.service.spec.command@, process_id },
            )
            &&& furnished(
                k,
                after,
                process_id,
                starting.readiness,
                starting.request,
                generation,
                service_launch::containment_identity(containment.service) is Some,
                additional,
            )
        }),
{
    broadcast use {
        trace::group_did,
        trace::lemma_activation_create_job_run,
        trace::lemma_contained_service_prepare_run,
        trace::lemma_contained_service_launch_run,
        trace::lemma_contained_service_bootstrap_run,
        trace::lemma_contained_service_granted_bootstrap_run,
        trace::lemma_contained_service_managed_bootstrap_run,
        trace::lemma_contained_service_release_run,
        trace::lemma_service_launch_managed_start_run,
    };

    let after = begin_run(k, starting, generation, additional, messages, containment).0;
    let identity = service_launch::containment_identity(containment.service);
    let fresh = ActivationAttempt::new(containment.service, containment.drained_message);
    let (created, made) = activation::create_job_run(k, fresh);
    let (prepared, preparing) = prepare_run(
        created,
        made->Some_0.0,
        identity is Some,
        generation,
        messages,
    );
    let command = starting.service.spec.command@;
    let (launched, launching) = launch_run(prepared, preparing->Ok_0, command, messages);
    lemma_command_is_started(prepared, preparing->Ok_0, command, messages);
    let (attempt, process_id) = launching->Ok_0;
    match identity {
        None => {
            lemma_generation_is_queued(created, made->Some_0.0, generation, messages);
            lemma_granted_service_is_furnished(
                launched,
                attempt,
                process_id,
                starting.readiness,
                starting.request,
                additional,
            );
            let source = attempt.generation_source->Some_0;
            assert(trace::did(
                k,
                after,
                handing(process_id, source, Rights::receive(), GENERATION_HANDOFF_HANDLE),
            ));
        },
        Some(identity) => {
            let receiver = attempt.bootstrap_receiver->Some_0;
            let given = init_run::grant_run(
                launched,
                process_id,
                receiver,
                Rights::receive(),
                PROCESS_START_BOOTSTRAP_HANDLE,
            ).0;
            let handed = handing(
                process_id,
                receiver,
                Rights::receive(),
                PROCESS_START_BOOTSTRAP_HANDLE,
            );
            trace::lemma_called(launched, handed->Called_op, seq![], seq![]);
            assert(trace::did(k, after, handed));
        },
    }
}

proof fn lemma_brought_up_later(
    first: kernel::Transcript,
    second: kernel::Transcript,
    third: kernel::Transcript,
    starting: Starting,
    generation: ProviderGeneration,
    managed: bool,
    additional: Seq<BootstrapCapability>,
)
    requires
        trace::mild(first, second),
        brought_up(second, third, starting, generation, managed, additional),
    ensures
        brought_up(first, third, starting, generation, managed, additional),
{
    broadcast use trace::group_did;

    let command = starting.service.spec.command@;
    let process_id = choose|process_id: ProcessId|
        {
            &&& #[trigger] trace::did(second, third, Deed::Spawned { command, process_id })
            &&& trace::did(
                second,
                third,
                Deed::Heard {
                    endpoint: starting.readiness,
                    process_id,
                    message: starting.service.spec.ready_message@,
                },
            )
            &&& furnished(
                second,
                third,
                process_id,
                starting.readiness,
                starting.request,
                generation,
                managed,
                additional,
            )
        };
    if managed {
        let receiver = choose|receiver: CapabilityHandle|
            trace::did(
                second,
                third,
                #[trigger] handing(
                    process_id,
                    receiver,
                    Rights::receive(),
                    PROCESS_START_BOOTSTRAP_HANDLE,
                ),
            );
        assert(trace::did(
            first,
            third,
            handing(process_id, receiver, Rights::receive(), PROCESS_START_BOOTSTRAP_HANDLE),
        ));
    }
    assert(furnished(
        first,
        third,
        process_id,
        starting.readiness,
        starting.request,
        generation,
        managed,
        additional,
    ));
    assert(trace::did(first, third, Deed::Spawned { command, process_id }));
}

proof fn lemma_await_keeps_the_description(
    k: kernel::Transcript,
    service: supervisor::Service,
    attempt: ActivationAttempt,
    process_id: ProcessId,
    readiness: CapabilityHandle,
    messages: ServiceMessages,
)
    ensures
        await_run(k, service, attempt, process_id, readiness, messages).1 matches Ok((next, _))
            ==> next.spec == service.spec,
    decreases k.unread(),
{
    let (looked, result) = look_run(k, service, attempt, process_id, readiness, messages);
    if let Ok((next, StartProgress::Again)) = result {
        lemma_await_keeps_the_description(looked, next, attempt, process_id, readiness, messages);
    }
}

/// However often a service was started again before it ran, it was brought up in the end, over
/// the endpoints that its supervisor then holds and in a generation newer than any before.
#[verifier::spinoff_prover]
#[verifier::rlimit(30)]
pub proof fn lemma_started_service_was_brought_up(
    k: kernel::Transcript,
    starting: Starting,
    additional: Seq<BootstrapCapability>,
    messages: ServiceMessages,
    containment: ServiceContainment,
)
    ensures
        ({
            let (after, result) = start_run(k, starting, additional, messages, containment);
            result matches Ok((next, (generation, job))) ==> {
                &&& generation.raw > starting.generations
                &&& job.containment == containment
                &&& next.service.spec == starting.service.spec
                &&& brought_up(
                    k,
                    after,
                    next,
                    generation,
                    service_launch::containment_identity(containment.service) is Some,
                    additional,
                )
            }
        }),
    decreases u64::MAX - starting.generations,
{
    let (tried, result) = attempt_run(k, starting, additional, messages, containment);
    lemma_running_service_was_brought_up(k, starting, additional, messages, containment);
    if let Ok((next, attempted)) = result {
        let generation = identity::generation_after(starting.generations)->Ok_0;
        let numbered = Starting {
            generations: identity::sequence_after(starting.generations),
            ..starting
        };
        let (begun, began) = begin_run(k, numbered, generation, additional, messages, containment);
        let (attempt, process_id) = began->Ok_0;
        lemma_await_keeps_the_description(
            begun,
            starting.service.spawned(process_id),
            attempt,
            process_id,
            starting.readiness,
            messages,
        );
        assert(next.service.spec == starting.service.spec);
        if attempted is Again {
            if next.generations > starting.generations {
                lemma_started_service_was_brought_up(
                    tried,
                    next,
                    additional,
                    messages,
                    containment,
                );
                let (after, last) = start_run(tried, next, additional, messages, containment);
                if let Ok((end, (generation, job))) = last {
                    broadcast use trace::group_did;

                    trace::lemma_contained_service_attempt_run(
                        k,
                        starting,
                        additional,
                        messages,
                        containment,
                    );
                    assert(trace::mild(k, tried));
                    lemma_brought_up_later(
                        k,
                        tried,
                        after,
                        end,
                        generation,
                        service_launch::containment_identity(containment.service) is Some,
                        additional,
                    );
                }
            }
        }
    }
}

/// Whether a message went out at a point that hands two endpoints over, and says what they are
/// for: one to say that a service is ready on, and one to take its requests from.
pub open spec fn hands_endpoints_over(
    k: kernel::Transcript,
    at: int,
    sender: CapabilityHandle,
    readiness: CapabilityHandle,
    request: CapabilityHandle,
) -> bool {
    let message = k.asked[at];
    &&& 2 <= at < k.asked.len()
    &&& message.op == Op::SendMoveMany { endpoint: sender, count: 2 }
    &&& message.attached.len() == 2
    &&& message.attached[0].1 == Rights::send().raw
    &&& ipc::answered(
        k,
        at - 2,
        Op::Duplicate { handle: readiness, rights: Rights::send().with(Rights::transfer()).raw },
        message.attached[0].0,
    )
    &&& message.attached[1].1 == Rights::receive().raw
    &&& ipc::answered(
        k,
        at - 1,
        Op::Duplicate { handle: request, rights: Rights::receive().with(Rights::transfer()).raw },
        message.attached[1].0,
    )
    &&& forall|capacity: int|
        2 <= capacity ==> (#[trigger] startup_record::parse_startup(
            message.bytes,
            capacity,
        ) matches Ok(plan) && {
            &&& plan.runtime_role == StartupRuntimeRole::Service
            &&& plan.resources.len() == 2
            &&& plan.resources[0].role == CapabilityRole::readiness()
            &&& plan.resources[1].role == CapabilityRole::service_request()
        })
}

/// A managed service that was told what it needs gets a copy of its readiness endpoint to send
/// on and of its request endpoint to receive from, each under the role that it is for.
pub proof fn lemma_managed_service_gets_its_endpoints(
    k: kernel::Transcript,
    attempt: ActivationAttempt,
    process_id: ProcessId,
    generation: ProviderGeneration,
    service: supervisor::Service,
    identity: ManagedServiceIdentity,
    readiness: CapabilityHandle,
    request: CapabilityHandle,
    additional: Seq<BootstrapCapability>,
)
    ensures
        ({
            let (after, told) = managed_bootstrap_run(
                k,
                attempt,
                process_id,
                generation,
                service,
                identity,
                readiness,
                request,
                additional,
            );
            told == Ok::<bool, Halt>(true) ==> {
                &&& additional.len() == 0
                &&& attempt.bootstrap_sender matches Some(sender) && exists|at: int|
                    k.asked.len() <= at && #[trigger] hands_endpoints_over(
                        after,
                        at,
                        sender,
                        readiness,
                        request,
                    )
            }
        }),
{
    let (after, told) = managed_bootstrap_run(
        k,
        attempt,
        process_id,
        generation,
        service,
        identity,
        readiness,
        request,
        additional,
    );
    if told == Ok::<bool, Halt>(true) {
        let sender = attempt.bootstrap_sender->Some_0;
        let receiver = attempt.bootstrap_receiver->Some_0;
        let granted = init_run::grant_run(
            k,
            process_id,
            receiver,
            Rights::receive(),
            PROCESS_START_BOOTSTRAP_HANDLE,
        ).0;
        let capabilities = managed_capabilities(readiness, request);
        let given = managed_startup::send_capabilities_run(
            granted,
            sender,
            StartupRuntimeRole::Service,
            capabilities,
        ).0;
        managed_startup::lemma_sent_capabilities_reach_their_roles(
            granted,
            sender,
            StartupRuntimeRole::Service,
            capabilities,
        );
        let at = granted.asked.len() + 2;
        assert(given.asked.last() == given.asked[at as int]);
        assert(after.follows(given)) by {
            broadcast use {trace::group_idle, trace::lemma_service_launch_describe_run};

            reveal(trace::idle);
        }
        assert(after.asked[at as int] == given.asked[at as int]);
        let message = after.asked[at as int];
        assert(message.attached[0].1 == capabilities[0].rights.raw);
        assert(message.attached[1].1 == capabilities[1].rights.raw);
        assert(after.asked[at - 2] == given.asked[at - 2]);
        assert(after.asked[at - 1] == given.asked[at - 1]);
        let plan = startup_record::StartupPlan {
            runtime_role: StartupRuntimeRole::Service,
            resources: managed_startup::tool_resources(capabilities),
        };
        assert(plan.named());
        assert forall|capacity: int| 2 <= capacity implies (
        #[trigger] startup_record::parse_startup(message.bytes, capacity) matches Ok(plan) && {
            &&& plan.runtime_role == StartupRuntimeRole::Service
            &&& plan.resources.len() == 2
            &&& plan.resources[0].role == CapabilityRole::readiness()
            &&& plan.resources[1].role == CapabilityRole::service_request()
        }) by {
            reveal_with_fuel(startup_record::duplicate_role, 3);
            assert(plan.valid(capacity));
        }
        assert(hands_endpoints_over(after, at as int, sender, readiness, request));
    }
}

} // verus!
