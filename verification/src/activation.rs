//! The attempt to bring up one generation of a service.
//!
//! An attempt owns everything that was made for the generation until the generation runs. An
//! attempt that fails is aborted: its processes are ended first, and only then is what they may
//! still use released. Whatever could not be released stays with the attempt.

use crate::init_text::Text;
use crate::ipc;
use crate::ipc::{CapabilityHandle, CapabilityInfo, ObjectKind, Rights};
use crate::kernel;
use crate::kernel::{Kernel, Op};
use crate::procedure;
use crate::service_cleanup::{Phase, Service};
use crate::service_teardown;
use crate::service_teardown::{
    close_cleanup_capability, close_empty_service_job, release_cleanup_barrier, say,
    terminate_and_drain_service_job, terminate_unassigned_service_process_group,
    SERVICE_JOB_CLEANUP_YIELDS,
};
use crate::syscall;
use crate::syscall::{LaunchBarrier, ProcessId, STDOUT};
use crate::trace;
use crate::trace::Deed;
use vstd::prelude::*;

verus! {

/// What was made so far for one generation of a service.
#[derive(Debug, Clone, Copy, PartialEq, Eq, Structural)]
pub struct ActivationAttempt {
    pub service: Service,
    pub drained_message: Text,
    pub generation_source: Option<CapabilityHandle>,
    pub readiness_source: Option<CapabilityHandle>,
    pub producer_source: Option<CapabilityHandle>,
    pub observer_source: Option<CapabilityHandle>,
    pub bootstrap_sender: Option<CapabilityHandle>,
    pub bootstrap_receiver: Option<CapabilityHandle>,
    pub barrier: Option<LaunchBarrier>,
    pub process_id: Option<ProcessId>,
    pub process_group_id: Option<ProcessId>,
    pub job_management: Option<CapabilityHandle>,
    pub job: Option<CapabilityHandle>,
    pub job_assigned: bool,
    pub cleanup_budget_reported: bool,
}

/// What closing one capability of an attempt comes to.
pub open spec fn close_one_run(
    k: kernel::Transcript,
    service: Service,
    handle: Option<CapabilityHandle>,
) -> (kernel::Transcript, Option<bool>) {
    service_teardown::close_capability_run(k, service, Phase::ResourceRelease, handle)
}

pub type AttemptRun = (kernel::Transcript, Option<(ActivationAttempt, bool)>);

/// Closing where the generation is handed out.
pub open spec fn close_generation_run(k: kernel::Transcript, attempt: ActivationAttempt) -> AttemptRun {
    procedure::after(
        close_one_run(k, attempt.service, attempt.generation_source),
        |k: kernel::Transcript, closed: bool|
            procedure::done(
                k,
                (
                    ActivationAttempt {
                        generation_source: service_teardown::left(attempt.generation_source, closed),
                        ..attempt
                    },
                    closed,
                ),
            ),
    )
}

/// Closing where readiness is told.
pub open spec fn close_readiness_run(k: kernel::Transcript, attempt: ActivationAttempt) -> AttemptRun {
    procedure::after(
        close_one_run(k, attempt.service, attempt.readiness_source),
        |k: kernel::Transcript, closed: bool|
            procedure::done(
                k,
                (
                    ActivationAttempt {
                        readiness_source: service_teardown::left(attempt.readiness_source, closed),
                        ..attempt
                    },
                    closed,
                ),
            ),
    )
}

/// Closing both ends of the bootstrap endpoint.
pub open spec fn close_bootstrap_run(k: kernel::Transcript, attempt: ActivationAttempt) -> AttemptRun {
    procedure::after(
        close_one_run(k, attempt.service, attempt.bootstrap_sender),
        |k: kernel::Transcript, sender_closed: bool|
            procedure::after(
                close_one_run(k, attempt.service, attempt.bootstrap_receiver),
                |k: kernel::Transcript, receiver_closed: bool|
                    procedure::done(
                        k,
                        (
                            ActivationAttempt {
                                bootstrap_sender: service_teardown::left(
                                    attempt.bootstrap_sender,
                                    sender_closed,
                                ),
                                bootstrap_receiver: service_teardown::left(
                                    attempt.bootstrap_receiver,
                                    receiver_closed,
                                ),
                                ..attempt
                            },
                            sender_closed && receiver_closed,
                        ),
                    ),
            ),
    )
}

/// Closing what the routes of the generation would lead to.
pub open spec fn close_routes_run(k: kernel::Transcript, attempt: ActivationAttempt) -> AttemptRun {
    procedure::after(
        close_one_run(k, attempt.service, attempt.producer_source),
        |k: kernel::Transcript, producer_closed: bool|
            procedure::after(
                close_one_run(k, attempt.service, attempt.observer_source),
                |k: kernel::Transcript, observer_closed: bool|
                    procedure::done(
                        k,
                        (
                            ActivationAttempt {
                                producer_source: service_teardown::left(
                                    attempt.producer_source,
                                    producer_closed,
                                ),
                                observer_source: service_teardown::left(
                                    attempt.observer_source,
                                    observer_closed,
                                ),
                                ..attempt
                            },
                            producer_closed && observer_closed,
                        ),
                    ),
            ),
    )
}

/// Closing the authority over the job.
pub open spec fn close_management_run(k: kernel::Transcript, attempt: ActivationAttempt) -> AttemptRun {
    procedure::after(
        close_one_run(k, attempt.service, attempt.job_management),
        |k: kernel::Transcript, closed: bool|
            procedure::done(
                k,
                (
                    ActivationAttempt {
                        job_management: service_teardown::left(attempt.job_management, closed),
                        ..attempt
                    },
                    closed,
                ),
            ),
    )
}

/// Releasing the barrier.
pub open spec fn free_barrier_run(k: kernel::Transcript, attempt: ActivationAttempt) -> AttemptRun {
    procedure::after(
        service_teardown::release_barrier_run(k, attempt.service, attempt.barrier),
        |k: kernel::Transcript, released: bool|
            procedure::done(
                k,
                (
                    ActivationAttempt {
                        barrier: service_teardown::left(attempt.barrier, released),
                        ..attempt
                    },
                    released,
                ),
            ),
    )
}

/// One release after another, both tried whatever comes of the first.
pub open spec fn both(
    first: AttemptRun,
    second: spec_fn(kernel::Transcript, ActivationAttempt) -> AttemptRun,
) -> AttemptRun {
    procedure::after(
        first,
        |k: kernel::Transcript, step: (ActivationAttempt, bool)|
            procedure::after(
                second(k, step.0),
                |k: kernel::Transcript, next: (ActivationAttempt, bool)|
                    procedure::done(k, (next.0, step.1 && next.1)),
            ),
    )
}

/// Letting the child go: what only its launch needed is closed, then the barrier is released.
#[verifier::opaque]
pub open spec fn release_child_run(k: kernel::Transcript, attempt: ActivationAttempt) -> AttemptRun {
    both(
        both(
            close_generation_run(k, attempt),
            |k: kernel::Transcript, attempt: ActivationAttempt| close_bootstrap_run(k, attempt),
        ),
        |k: kernel::Transcript, attempt: ActivationAttempt| free_barrier_run(k, attempt),
    )
}

/// Ending the processes of an attempt: its job is drained, or its group is killed and its job,
/// which then must be empty, is closed.
pub open spec fn end_processes_run(k: kernel::Transcript, attempt: ActivationAttempt) -> AttemptRun {
    if attempt.job_assigned {
        procedure::after(
            service_teardown::drain_run(
                k,
                attempt.service,
                attempt.job,
                attempt.process_id,
                attempt.drained_message,
                attempt.cleanup_budget_reported,
            ),
            |k: kernel::Transcript, torn: service_teardown::Torn|
                procedure::done(
                    k,
                    (
                        ActivationAttempt {
                            job: service_teardown::left(attempt.job, torn.clean),
                            process_id: torn.leader,
                            process_group_id: service_teardown::left(
                                attempt.process_group_id,
                                torn.clean,
                            ),
                            cleanup_budget_reported: torn.reported,
                            job_assigned: !torn.clean,
                            ..attempt
                        },
                        torn.clean,
                    ),
                ),
        )
    } else {
        procedure::after(
            end_group_run(k, attempt),
            |k: kernel::Transcript, step: (ActivationAttempt, bool)|
                if !step.1 {
                    procedure::done(k, step)
                } else {
                    procedure::after(
                        service_teardown::close_job_run(
                            k,
                            attempt.service,
                            step.0.job_management,
                            step.0.job,
                        ),
                        |k: kernel::Transcript, closed: service_teardown::ClosedJob|
                            procedure::done(
                                k,
                                (
                                    ActivationAttempt {
                                        job_management: closed.management,
                                        job: closed.job,
                                        ..step.0
                                    },
                                    closed.clean,
                                ),
                            ),
                    )
                },
        )
    }
}

/// Ending the process group of an attempt that is in no job yet.
pub open spec fn end_group_run(k: kernel::Transcript, attempt: ActivationAttempt) -> AttemptRun {
    match attempt.process_group_id {
        None => procedure::done(k, (attempt, attempt.process_id is None)),
        Some(group) => procedure::after(
            service_teardown::group_run(
                k,
                attempt.service,
                group,
                attempt.process_id,
                false,
                SERVICE_JOB_CLEANUP_YIELDS as nat,
                attempt.cleanup_budget_reported,
            ),
            |k: kernel::Transcript, torn: service_teardown::Torn|
                procedure::done(
                    k,
                    (
                        ActivationAttempt {
                            process_id: torn.leader,
                            process_group_id: service_teardown::left(
                                attempt.process_group_id,
                                torn.clean,
                            ),
                            cleanup_budget_reported: torn.reported,
                            ..attempt
                        },
                        torn.clean,
                    ),
                ),
        ),
    }
}

/// Releasing what the ended processes of an attempt may have used.
pub open spec fn release_rest_run(k: kernel::Transcript, attempt: ActivationAttempt) -> AttemptRun {
    both(
        both(
            both(
                both(
                    both(
                        close_management_run(k, attempt),
                        |k: kernel::Transcript, attempt: ActivationAttempt|
                            close_generation_run(k, attempt),
                    ),
                    |k: kernel::Transcript, attempt: ActivationAttempt|
                        close_readiness_run(k, attempt),
                ),
                |k: kernel::Transcript, attempt: ActivationAttempt| close_routes_run(k, attempt),
            ),
            |k: kernel::Transcript, attempt: ActivationAttempt| close_bootstrap_run(k, attempt),
        ),
        |k: kernel::Transcript, attempt: ActivationAttempt| free_barrier_run(k, attempt),
    )
}

/// Aborting an attempt: nothing is released as long as a process may still use it.
#[verifier::opaque]
pub open spec fn abort_run(k: kernel::Transcript, attempt: ActivationAttempt) -> AttemptRun {
    procedure::after(
        end_processes_run(k, attempt),
        |k: kernel::Transcript, step: (ActivationAttempt, bool)|
            if step.1 {
                release_rest_run(k, step.0)
            } else {
                procedure::done(k, step)
            },
    )
}

/// Closing what the service of a definition could still be told over.
pub open spec fn close_talk_run(k: kernel::Transcript, attempt: ActivationAttempt) -> AttemptRun {
    both(
        both(
            close_generation_run(k, attempt),
            |k: kernel::Transcript, attempt: ActivationAttempt| close_readiness_run(k, attempt),
        ),
        |k: kernel::Transcript, attempt: ActivationAttempt| close_bootstrap_run(k, attempt),
    )
}

/// Aborting an attempt that a definition asked for: its endpoints are closed first, so that a
/// process that hangs on them comes to an end.
#[verifier::opaque]
pub open spec fn abort_definition_run(k: kernel::Transcript, attempt: ActivationAttempt) -> AttemptRun {
    both(
        close_talk_run(k, attempt),
        |k: kernel::Transcript, attempt: ActivationAttempt|
            procedure::after(
                end_processes_run(k, attempt),
                |k: kernel::Transcript, step: (ActivationAttempt, bool)|
                    if step.1 {
                        both(
                            close_management_run(k, step.0),
                            |k: kernel::Transcript, attempt: ActivationAttempt|
                                free_barrier_run(k, attempt),
                        )
                    } else {
                        procedure::done(k, step)
                    },
            ),
    )
}

/// Whether a step of an attempt came to what its run says.
pub open spec fn stepped(
    run: AttemptRun,
    k: kernel::Transcript,
    attempt: ActivationAttempt,
    result: Option<bool>,
) -> bool {
    &&& k == run.0
    &&& match result {
        None => run.1 is None,
        Some(done) => run.1 == Some((attempt, done)),
    }
}

impl ActivationAttempt {
    #[verifier::allow_in_spec]
    pub fn new(service: Service, drained_message: Text) -> Self
        returns
            (ActivationAttempt {
                service,
                drained_message,
                generation_source: None,
                readiness_source: None,
                producer_source: None,
                observer_source: None,
                bootstrap_sender: None,
                bootstrap_receiver: None,
                barrier: None,
                process_id: None,
                process_group_id: None,
                job_management: None,
                job: None,
                job_assigned: false,
                cleanup_budget_reported: false,
            }),
    {
        ActivationAttempt {
            service,
            drained_message,
            generation_source: None,
            readiness_source: None,
            producer_source: None,
            observer_source: None,
            bootstrap_sender: None,
            bootstrap_receiver: None,
            barrier: None,
            process_id: None,
            process_group_id: None,
            job_management: None,
            job: None,
            job_assigned: false,
            cleanup_budget_reported: false,
        }
    }

    fn close_generation_source(&mut self, k: &mut Kernel) -> (result: Option<bool>)
        ensures
            stepped(close_generation_run(old(k)@, *old(self)), final(k)@, *final(self), result),
    {
        close_cleanup_capability(
            k,
            self.service,
            Phase::ResourceRelease,
            &mut self.generation_source,
        )
    }

    fn close_readiness(&mut self, k: &mut Kernel) -> (result: Option<bool>)
        ensures
            stepped(close_readiness_run(old(k)@, *old(self)), final(k)@, *final(self), result),
    {
        close_cleanup_capability(
            k,
            self.service,
            Phase::ResourceRelease,
            &mut self.readiness_source,
        )
    }

    fn close_bootstrap(&mut self, k: &mut Kernel) -> (result: Option<bool>)
        ensures
            stepped(close_bootstrap_run(old(k)@, *old(self)), final(k)@, *final(self), result),
    {
        let sender_closed = close_cleanup_capability(
            k,
            self.service,
            Phase::ResourceRelease,
            &mut self.bootstrap_sender,
        )?;
        let receiver_closed = close_cleanup_capability(
            k,
            self.service,
            Phase::ResourceRelease,
            &mut self.bootstrap_receiver,
        )?;
        Some(sender_closed && receiver_closed)
    }

    fn close_route_sources(&mut self, k: &mut Kernel) -> (result: Option<bool>)
        ensures
            stepped(close_routes_run(old(k)@, *old(self)), final(k)@, *final(self), result),
    {
        let producer_closed = close_cleanup_capability(
            k,
            self.service,
            Phase::ResourceRelease,
            &mut self.producer_source,
        )?;
        let observer_closed = close_cleanup_capability(
            k,
            self.service,
            Phase::ResourceRelease,
            &mut self.observer_source,
        )?;
        Some(producer_closed && observer_closed)
    }

    /// Closes the authority over the job, once the child is in it.
    pub fn close_job_management(&mut self, k: &mut Kernel) -> (result: Option<bool>)
        ensures
            stepped(close_management_run(old(k)@, *old(self)), final(k)@, *final(self), result),
    {
        close_cleanup_capability(k, self.service, Phase::ResourceRelease, &mut self.job_management)
    }

    fn release_barrier(&mut self, k: &mut Kernel) -> (result: Option<bool>)
        ensures
            stepped(free_barrier_run(old(k)@, *old(self)), final(k)@, *final(self), result),
    {
        release_cleanup_barrier(k, self.service, &mut self.barrier)
    }

    /// Lets the child go. Every part is tried, whatever comes of the others.
    pub fn release_child(&mut self, k: &mut Kernel) -> (result: Option<bool>)
        ensures
            stepped(release_child_run(old(k)@, *old(self)), final(k)@, *final(self), result),
    {
        proof {
            reveal(release_child_run);
        }
        let generation_closed = self.close_generation_source(k)?;
        let bootstrap_closed = self.close_bootstrap(k)?;
        let barrier_released = self.release_barrier(k)?;
        Some(generation_closed && bootstrap_closed && barrier_released)
    }

    fn end_group(&mut self, k: &mut Kernel) -> (result: Option<bool>)
        ensures
            stepped(end_group_run(old(k)@, *old(self)), final(k)@, *final(self), result),
    {
        match self.process_group_id {
            None => Some(self.process_id.is_none()),
            Some(group) => {
                let clean = terminate_unassigned_service_process_group(
                    k,
                    self.service,
                    group,
                    &mut self.process_id,
                    &mut self.cleanup_budget_reported,
                )?;
                if clean {
                    self.process_group_id = None;
                }
                Some(clean)
            },
        }
    }

    fn end_processes(&mut self, k: &mut Kernel) -> (result: Option<bool>)
        ensures
            stepped(end_processes_run(old(k)@, *old(self)), final(k)@, *final(self), result),
    {
        if self.job_assigned {
            let clean = terminate_and_drain_service_job(
                k,
                self.service,
                &mut self.job,
                &mut self.process_id,
                &mut self.process_group_id,
                self.drained_message,
                &mut self.cleanup_budget_reported,
            )?;
            if clean {
                self.job_assigned = false;
            }
            return Some(clean);
        }
        if !self.end_group(k)? {
            return Some(false);
        }
        close_empty_service_job(k, self.service, &mut self.job_management, &mut self.job)
    }

    /// Ends the processes of the attempt, then releases everything else. Whether nothing is left.
    pub fn abort(&mut self, k: &mut Kernel) -> (result: Option<bool>)
        ensures
            stepped(abort_run(old(k)@, *old(self)), final(k)@, *final(self), result),
    {
        proof {
            reveal(abort_run);
        }
        if !self.end_processes(k)? {
            return Some(false);
        }
        let management_closed = self.close_job_management(k)?;
        let generation_closed = self.close_generation_source(k)?;
        let readiness_closed = self.close_readiness(k)?;
        let routes_closed = self.close_route_sources(k)?;
        let bootstrap_closed = self.close_bootstrap(k)?;
        let barrier_released = self.release_barrier(k)?;
        Some(
            management_closed && generation_closed && readiness_closed && routes_closed
                && bootstrap_closed && barrier_released,
        )
    }

    /// Aborts an attempt whose leader has been reaped already.
    pub fn finish_reaped(&mut self, k: &mut Kernel) -> (result: Option<bool>)
        ensures
            stepped(
                abort_run(old(k)@, ActivationAttempt { process_id: None, ..*old(self) }),
                final(k)@,
                *final(self),
                result,
            ),
    {
        self.process_id = None;
        self.abort(k)
    }

    /// Aborts an attempt that a definition asked for. Whether nothing is left.
    pub fn abort_definition(&mut self, k: &mut Kernel) -> (result: Option<bool>)
        ensures
            stepped(abort_definition_run(old(k)@, *old(self)), final(k)@, *final(self), result),
    {
        proof {
            reveal(abort_definition_run);
        }
        let generation_closed = self.close_generation_source(k)?;
        let readiness_closed = self.close_readiness(k)?;
        let bootstrap_closed = self.close_bootstrap(k)?;
        let talk_closed = generation_closed && readiness_closed && bootstrap_closed;
        if !self.end_processes(k)? {
            return Some(false);
        }
        let management_closed = self.close_job_management(k)?;
        let barrier_released = self.release_barrier(k)?;
        Some(talk_closed && management_closed && barrier_released)
    }
}

/// An attempt that was aborted cleanly owns nothing any more: no process, no job, no endpoint and
/// no barrier.
pub proof fn lemma_clean_abort_leaves_nothing(k: kernel::Transcript, attempt: ActivationAttempt)
    requires
        abort_run(k, attempt).1 matches Some((_, true)),
    ensures
        ({
            let left = (abort_run(k, attempt).1->0).0;
            &&& left.process_id is None
            &&& left.process_group_id is None
            &&& left.job is None
            &&& left.job_management is None
            &&& left.generation_source is None
            &&& left.readiness_source is None
            &&& left.producer_source is None
            &&& left.observer_source is None
            &&& left.bootstrap_sender is None
            &&& left.bootstrap_receiver is None
            &&& left.barrier is None
        }),
{
    reveal(abort_run);
    reveal(service_teardown::drain_run);
    if attempt.job_assigned {
        if let Some(handle) = attempt.job {
            service_teardown::lemma_clean_drain_leaves_no_leader(
                k,
                attempt.service,
                handle,
                attempt.process_id,
                attempt.drained_message,
                false,
                SERVICE_JOB_CLEANUP_YIELDS as nat,
                attempt.cleanup_budget_reported,
            );
        }
    } else if let Some(group) = attempt.process_group_id {
        service_teardown::lemma_clean_group_leaves_no_leader(
            k,
            attempt.service,
            group,
            attempt.process_id,
            false,
            SERVICE_JOB_CLEANUP_YIELDS as nat,
            attempt.cleanup_budget_reported,
        );
    }
}

/// As long as a process of an attempt could not be ended, nothing that it may use is released.
pub proof fn lemma_nothing_is_released_under_a_process(
    k: kernel::Transcript,
    attempt: ActivationAttempt,
)
    requires
        end_processes_run(k, attempt).1 matches Some((_, false)),
    ensures
        abort_run(k, attempt) == end_processes_run(k, attempt),
        ({
            let left = (abort_run(k, attempt).1->0).0;
            &&& left.generation_source == attempt.generation_source
            &&& left.readiness_source == attempt.readiness_source
            &&& left.producer_source == attempt.producer_source
            &&& left.observer_source == attempt.observer_source
            &&& left.bootstrap_sender == attempt.bootstrap_sender
            &&& left.bootstrap_receiver == attempt.bootstrap_receiver
            &&& left.barrier == attempt.barrier
        }),
{
    reveal(abort_run);
}

/// What the job of a service must look like over one of its handles.
#[verifier::allow_in_spec]
pub fn job_shape(inspected: Result<CapabilityInfo, ipc::Error>, rights: Rights, members: u64) -> bool
    returns
        (match inspected {
            Ok(info) => info.kind == ObjectKind::Job && info.rights == rights && info.size
                == members,
            Err(_) => false,
        }),
{
    match inspected {
        Ok(info) => info.kind == ObjectKind::Job && info.rights == rights && info.size == members,
        Err(_) => false,
    }
}

/// What watches over a job: it may end its processes and wait for them.
#[verifier::allow_in_spec]
pub fn watch_rights() -> Rights
    returns
        Rights::signal().with(Rights::wait()),
{
    Rights::signal().with(Rights::wait())
}

/// Making a job for an attempt, and a handle that watches over it. Whether both are as they must
/// be: the job is new and empty.
#[verifier::opaque]
pub open spec fn create_job_run(k: kernel::Transcript, attempt: ActivationAttempt) -> AttemptRun {
    procedure::after(
        ipc::value_run(k, Op::JobCreate),
        |k: kernel::Transcript, created: Result<u64, ipc::Error>|
            match created {
                Err(_) => procedure::done(k, (attempt, false)),
                Ok(management) => {
                    let managed = ActivationAttempt {
                        job_management: Some(management),
                        ..attempt
                    };
                    procedure::after(
                        ipc::value_run(
                            k,
                            Op::Duplicate { handle: management, rights: watch_rights().raw },
                        ),
                        |k: kernel::Transcript, duplicated: Result<u64, ipc::Error>|
                            match duplicated {
                                Err(_) => procedure::done(k, (managed, false)),
                                Ok(job) => procedure::after(
                                    check_job_run(k, management, job),
                                    |k: kernel::Transcript, valid: bool|
                                        procedure::done(
                                            k,
                                            (
                                                ActivationAttempt { job: Some(job), ..managed },
                                                valid,
                                            ),
                                        ),
                                ),
                            },
                    )
                },
            },
    )
}

/// Checking that both handles of a new job are as they must be, stopping at the first that is not.
pub open spec fn check_job_run(
    k: kernel::Transcript,
    management: CapabilityHandle,
    job: CapabilityHandle,
) -> (kernel::Transcript, Option<bool>) {
    procedure::after(
        ipc::info_run(k, management),
        |k: kernel::Transcript, managed: Result<CapabilityInfo, ipc::Error>|
            if !job_shape(managed, Rights::job(), 0) {
                procedure::done(k, false)
            } else {
                procedure::after(
                    ipc::info_run(k, job),
                    |k: kernel::Transcript, watched: Result<CapabilityInfo, ipc::Error>|
                        if !job_shape(watched, watch_rights(), 0) {
                            procedure::done(k, false)
                        } else {
                            procedure::after(
                                ipc::job_try_wait_run(k, job),
                                |k: kernel::Transcript, polled: Result<ipc::JobExit, ipc::Error>|
                                    procedure::done(
                                        k,
                                        polled == Err::<ipc::JobExit, ipc::Error>(
                                            ipc::Error::no_child(),
                                        ),
                                    ),
                            )
                        },
                )
            },
    )
}

fn check_job(k: &mut Kernel, management: CapabilityHandle, job: CapabilityHandle) -> (result: Option<
    bool,
>)
    ensures
        (final(k)@, result) == check_job_run(old(k)@, management, job),
{
    if !job_shape(ipc::info(k, management)?, Rights::job(), 0) {
        return Some(false);
    }
    if !job_shape(ipc::info(k, job)?, watch_rights(), 0) {
        return Some(false);
    }
    match ipc::job_try_wait(k, job)? {
        Ok(_) => Some(false),
        Err(error) => Some(error == ipc::Error::no_child()),
    }
}

/// Putting the child into the job and giving up the authority over it. Whether the job then holds
/// exactly the child.
#[verifier::opaque]
pub open spec fn assign_run(
    k: kernel::Transcript,
    attempt: ActivationAttempt,
    management: CapabilityHandle,
    job: CapabilityHandle,
    process_id: ProcessId,
) -> AttemptRun {
    procedure::after(
        ipc::value_run(k, Op::JobAssign { job: management, process_id }),
        |k: kernel::Transcript, assigned: Result<u64, ipc::Error>|
            if assigned != Ok::<u64, ipc::Error>(process_id) {
                procedure::done(k, (attempt, false))
            } else {
                let held = ActivationAttempt { job_assigned: true, ..attempt };
                procedure::after(
                    ipc::info_run(k, job),
                    |k: kernel::Transcript, watched: Result<CapabilityInfo, ipc::Error>|
                        if !job_shape(watched, watch_rights(), 1) {
                            procedure::done(k, (held, false))
                        } else {
                            close_management_run(k, held)
                        },
                )
            },
    )
}

/// Saying something, if there is something to say.
pub open spec fn say_if_run(k: kernel::Transcript, announcement: Option<Text>) -> (
    kernel::Transcript,
    Option<()>,
) {
    match announcement {
        None => procedure::done(k, ()),
        Some(text) => service_teardown::say_run(k, STDOUT, text.bytes()),
    }
}

/// Starting the child behind a barrier, with an announcement in between. Whether both were made.
#[verifier::opaque]
pub open spec fn spawn_child_run(
    k: kernel::Transcript,
    attempt: ActivationAttempt,
    command: Seq<u8>,
    announcement: Option<Text>,
) -> (kernel::Transcript, Option<(ActivationAttempt, Option<ProcessId>)>) {
    procedure::after(
        syscall::barrier_run(k),
        |k: kernel::Transcript, made: Result<LaunchBarrier, ipc::Error>|
            match made {
                Err(_) => procedure::done(k, (attempt, None)),
                Ok(barrier) => {
                    let held = ActivationAttempt { barrier: Some(barrier), ..attempt };
                    procedure::after(
                        say_if_run(k, announcement),
                        |k: kernel::Transcript, said: ()|
                            procedure::after(
                                syscall::spawn_run(k, command, false, barrier),
                                |k: kernel::Transcript, spawned: Result<u64, ipc::Error>|
                                    match spawned {
                                        Err(_) => procedure::done(k, (held, None)),
                                        Ok(process_id) => procedure::done(
                                            k,
                                            (
                                                ActivationAttempt {
                                                    process_id: Some(process_id),
                                                    process_group_id: Some(process_id),
                                                    ..held
                                                },
                                                Some(process_id),
                                            ),
                                        ),
                                    },
                            ),
                    )
                },
            },
    )
}

impl ActivationAttempt {
    /// Makes the job of the attempt. Whether it is as it must be.
    pub fn create_job(&mut self, k: &mut Kernel) -> (result: Option<bool>)
        ensures
            stepped(create_job_run(old(k)@, *old(self)), final(k)@, *final(self), result),
            result == Some(true) ==> final(self).job_management is Some && final(self).job is Some,
    {
        proof {
            reveal(create_job_run);
        }
        let management = match ipc::job_create(k)? {
            Ok(management) => management,
            Err(_) => {
                return Some(false);
            },
        };
        self.job_management = Some(management);
        let job = match ipc::duplicate(k, management, watch_rights())? {
            Ok(job) => job,
            Err(_) => {
                return Some(false);
            },
        };
        self.job = Some(job);
        check_job(k, management, job)
    }

    /// Starts the child behind a barrier.
    pub fn spawn_child(
        &mut self,
        k: &mut Kernel,
        command: &[u8],
        announcement: Option<Text>,
    ) -> (result: Option<Option<ProcessId>>)
        ensures
            ({
                let (asked, outcome) = spawn_child_run(
                    old(k)@,
                    *old(self),
                    command@,
                    announcement,
                );
                &&& final(k)@ == asked
                &&& match result {
                    None => outcome is None,
                    Some(process_id) => outcome == Some((*final(self), process_id)),
                }
            }),
    {
        proof {
            reveal(spawn_child_run);
        }
        let barrier = match LaunchBarrier::new(k)? {
            Ok(barrier) => barrier,
            Err(_) => {
                return Some(None);
            },
        };
        self.barrier = Some(barrier);
        if let Some(text) = announcement {
            say(k, STDOUT, text.as_bytes())?;
        }
        match syscall::spawn_command_with_barrier(k, command, false, barrier)? {
            Err(_) => Some(None),
            Ok(process_id) => {
                self.process_id = Some(process_id);
                self.process_group_id = Some(process_id);
                Some(Some(process_id))
            },
        }
    }

    /// Puts the child into the job and gives up the authority over it.
    pub fn assign_child(
        &mut self,
        k: &mut Kernel,
        management: CapabilityHandle,
        job: CapabilityHandle,
        process_id: ProcessId,
    ) -> (result: Option<bool>)
        ensures
            stepped(
                assign_run(old(k)@, *old(self), management, job, process_id),
                final(k)@,
                *final(self),
                result,
            ),
    {
        proof {
            reveal(assign_run);
        }
        match ipc::job_assign(k, management, process_id)? {
            Ok(assigned) => {
                if assigned != process_id {
                    return Some(false);
                }
            },
            Err(_) => {
                return Some(false);
            },
        }
        self.job_assigned = true;
        if !job_shape(ipc::info(k, job)?, watch_rights(), 1) {
            return Some(false);
        }
        self.close_job_management(k)
    }
}

/// Whether a handle is still held, or was closed between two points.
pub open spec fn kept_or_closed(
    before: kernel::Transcript,
    after: kernel::Transcript,
    held: Option<CapabilityHandle>,
    left: Option<CapabilityHandle>,
) -> bool {
    left == held || (left is None && (held matches Some(handle) && trace::did(
        before,
        after,
        service_teardown::closed(handle),
    )))
}

/// Whether nothing that an attempt held got lost between two points: every handle is still held or
/// was closed, and its barrier is still held or was released.
#[verifier::opaque]
pub open spec fn accounts_for(
    before: kernel::Transcript,
    after: kernel::Transcript,
    held: ActivationAttempt,
    left: ActivationAttempt,
) -> bool {
    &&& trace::mild(before, after)
    &&& kept_or_closed(before, after, held.job_management, left.job_management)
    &&& kept_or_closed(before, after, held.job, left.job)
    &&& kept_or_closed(before, after, held.generation_source, left.generation_source)
    &&& kept_or_closed(before, after, held.readiness_source, left.readiness_source)
    &&& kept_or_closed(before, after, held.producer_source, left.producer_source)
    &&& kept_or_closed(before, after, held.observer_source, left.observer_source)
    &&& kept_or_closed(before, after, held.bootstrap_sender, left.bootstrap_sender)
    &&& kept_or_closed(before, after, held.bootstrap_receiver, left.bootstrap_receiver)
    &&& left.barrier == held.barrier || (left.barrier is None && (held.barrier matches Some(barrier)
        && trace::did(
        before,
        after,
        Deed::Called { op: Op::BarrierRelease { barrier: barrier.handle } },
    )))
}

broadcast proof fn lemma_accounts_go_on(
    first: kernel::Transcript,
    second: kernel::Transcript,
    third: kernel::Transcript,
    held: ActivationAttempt,
    some: ActivationAttempt,
    left: ActivationAttempt,
)
    requires
        #[trigger] accounts_for(first, second, held, some),
        #[trigger] accounts_for(second, third, some, left),
    ensures
        accounts_for(first, third, held, left),
{
    broadcast use trace::group_did;

    reveal(accounts_for);
}

proof fn lemma_step_accounts(k: kernel::Transcript, attempt: ActivationAttempt)
    ensures
        ({
            let (after, step) = close_generation_run(k, attempt);
            step matches Some((left, _)) ==> accounts_for(k, after, attempt, left)
        }),
        ({
            let (after, step) = close_readiness_run(k, attempt);
            step matches Some((left, _)) ==> accounts_for(k, after, attempt, left)
        }),
        ({
            let (after, step) = close_management_run(k, attempt);
            step matches Some((left, _)) ==> accounts_for(k, after, attempt, left)
        }),
        ({
            let (after, step) = free_barrier_run(k, attempt);
            step matches Some((left, _)) ==> accounts_for(k, after, attempt, left)
        }),
{
    broadcast use {
        trace::group_did,
        trace::lemma_service_teardown_close_capability_run,
        trace::lemma_service_teardown_release_barrier_run,
    };

    reveal(accounts_for);
    let phase = Phase::ResourceRelease;
    service_teardown::lemma_closed_capability_was_closed(
        k,
        attempt.service,
        phase,
        attempt.generation_source,
    );
    service_teardown::lemma_closed_capability_was_closed(
        k,
        attempt.service,
        phase,
        attempt.readiness_source,
    );
    service_teardown::lemma_closed_capability_was_closed(
        k,
        attempt.service,
        phase,
        attempt.job_management,
    );
    service_teardown::lemma_released_barrier_was_released(k, attempt.service, attempt.barrier);
}

proof fn lemma_pair_accounts(k: kernel::Transcript, attempt: ActivationAttempt)
    ensures
        ({
            let (after, step) = close_bootstrap_run(k, attempt);
            step matches Some((left, _)) ==> accounts_for(k, after, attempt, left)
        }),
        ({
            let (after, step) = close_routes_run(k, attempt);
            step matches Some((left, _)) ==> accounts_for(k, after, attempt, left)
        }),
{
    broadcast use {trace::group_did, trace::lemma_service_teardown_close_capability_run};

    reveal(accounts_for);
    let phase = Phase::ResourceRelease;
    let service = attempt.service;
    service_teardown::lemma_closed_capability_was_closed(
        k,
        service,
        phase,
        attempt.bootstrap_sender,
    );
    service_teardown::lemma_closed_capability_was_closed(
        close_one_run(k, service, attempt.bootstrap_sender).0,
        service,
        phase,
        attempt.bootstrap_receiver,
    );
    service_teardown::lemma_closed_capability_was_closed(
        k,
        service,
        phase,
        attempt.producer_source,
    );
    service_teardown::lemma_closed_capability_was_closed(
        close_one_run(k, service, attempt.producer_source).0,
        service,
        phase,
        attempt.observer_source,
    );
}

proof fn lemma_drained_accounts(k: kernel::Transcript, attempt: ActivationAttempt)
    requires
        attempt.job_assigned,
    ensures
        ({
            let (after, step) = end_processes_run(k, attempt);
            step matches Some((left, _)) ==> accounts_for(k, after, attempt, left)
        }),
{
    reveal(accounts_for);
    reveal(service_teardown::drain_run);
    assert(trace::mild(k, end_processes_run(k, attempt).0)) by {
        broadcast use {trace::group_did, trace::lemma_activation_end_processes_run};

    }
    if let Some(handle) = attempt.job {
        service_teardown::lemma_drained_job_is_over(
            k,
            attempt.service,
            handle,
            attempt.process_id,
            attempt.drained_message,
            false,
            SERVICE_JOB_CLEANUP_YIELDS as nat,
            attempt.cleanup_budget_reported,
        );
    }
}

proof fn lemma_closed_job_accounts(
    first: kernel::Transcript,
    k: kernel::Transcript,
    service: Service,
    management: Option<CapabilityHandle>,
    job: Option<CapabilityHandle>,
)
    requires
        trace::mild(first, k),
    ensures
        ({
            let (after, closed) = service_teardown::close_job_run(k, service, management, job);
            closed matches Some(closed) ==> {
                &&& trace::mild(first, after)
                &&& kept_or_closed(first, after, job, closed.job)
                &&& kept_or_closed(first, after, management, closed.management)
            }
        }),
{
    broadcast use {
        trace::group_did,
        trace::lemma_service_teardown_inspect_job_run,
        trace::lemma_service_teardown_close_capability_run,
    };

    let inspected = service_teardown::inspect_job_run(
        k,
        service,
        service_teardown::inspected_job(job, management),
    ).0;
    let phase = Phase::ResourceRelease;
    let closed = service_teardown::close_capability_run(inspected, service, phase, job).0;
    let last = service_teardown::close_capability_run(closed, service, phase, management).0;
    service_teardown::lemma_closed_capability_was_closed(inspected, service, phase, job);
    service_teardown::lemma_closed_capability_was_closed(closed, service, phase, management);
    assert(trace::mild(first, inspected));
    assert(trace::mild(first, closed));
    assert(trace::mild(closed, last));
    assert(trace::mild(first, last));
}

proof fn lemma_end_accounts(k: kernel::Transcript, attempt: ActivationAttempt)
    ensures
        ({
            let (after, step) = end_processes_run(k, attempt);
            step matches Some((left, _)) ==> accounts_for(k, after, attempt, left)
        }),
{
    if attempt.job_assigned {
        lemma_drained_accounts(k, attempt);
    } else {
        reveal(accounts_for);
        let (grouped, ended) = end_group_run(k, attempt);
        assert(trace::mild(k, grouped)) by {
            broadcast use {trace::group_did, trace::lemma_activation_end_group_run};

        }
        if let Some((rest, true)) = ended {
            lemma_closed_job_accounts(
                k,
                grouped,
                attempt.service,
                rest.job_management,
                rest.job,
            );
        }
    }
}

proof fn lemma_rest_accounts(k: kernel::Transcript, attempt: ActivationAttempt)
    ensures
        ({
            let (after, step) = release_rest_run(k, attempt);
            step matches Some((left, _)) ==> accounts_for(k, after, attempt, left)
        }),
{
    broadcast use lemma_accounts_go_on;

    let (first, one) = close_management_run(k, attempt);
    lemma_step_accounts(k, attempt);
    if let Some((held, _)) = one {
        let (second, two) = close_generation_run(first, held);
        lemma_step_accounts(first, held);
        if let Some((held, _)) = two {
            let (third, three) = close_readiness_run(second, held);
            lemma_step_accounts(second, held);
            if let Some((held, _)) = three {
                let (fourth, four) = close_routes_run(third, held);
                lemma_pair_accounts(third, held);
                if let Some((held, _)) = four {
                    let (fifth, five) = close_bootstrap_run(fourth, held);
                    lemma_pair_accounts(fourth, held);
                    if let Some((held, _)) = five {
                        lemma_step_accounts(fifth, held);
                    }
                }
            }
        }
    }
}

/// An attempt that is given up loses nothing: what it no longer holds was closed, and its barrier
/// was released if it no longer holds that.
#[verifier::spinoff_prover]
#[verifier::rlimit(40)]
pub proof fn lemma_aborted_attempt_accounts_for_its_handles(
    k: kernel::Transcript,
    attempt: ActivationAttempt,
)
    ensures
        ({
            let (after, aborted) = abort_run(k, attempt);
            aborted matches Some((left, _)) ==> accounts_for(k, after, attempt, left)
        }),
{
    broadcast use lemma_accounts_go_on;

    reveal(abort_run);
    let (ended, step) = end_processes_run(k, attempt);
    lemma_end_accounts(k, attempt);
    if let Some((held, true)) = step {
        lemma_rest_accounts(ended, held);
    }
}

proof fn lemma_talk_accounts(k: kernel::Transcript, attempt: ActivationAttempt)
    ensures
        ({
            let (after, step) = close_talk_run(k, attempt);
            step matches Some((left, _)) ==> accounts_for(k, after, attempt, left)
        }),
{
    broadcast use lemma_accounts_go_on;

    let (first, one) = close_generation_run(k, attempt);
    lemma_step_accounts(k, attempt);
    if let Some((held, _)) = one {
        let (second, two) = close_readiness_run(first, held);
        lemma_step_accounts(first, held);
        if let Some((held, _)) = two {
            lemma_pair_accounts(second, held);
        }
    }
}

/// An attempt to run a defined service that is given up loses nothing either.
#[verifier::spinoff_prover]
#[verifier::rlimit(40)]
pub proof fn lemma_aborted_definition_accounts_for_its_handles(
    k: kernel::Transcript,
    attempt: ActivationAttempt,
)
    ensures
        ({
            let (after, aborted) = abort_definition_run(k, attempt);
            aborted matches Some((left, _)) ==> accounts_for(k, after, attempt, left)
        }),
{
    broadcast use lemma_accounts_go_on;

    reveal(abort_definition_run);
    let (first, one) = close_talk_run(k, attempt);
    lemma_talk_accounts(k, attempt);
    if let Some((held, _)) = one {
        let (second, two) = end_processes_run(first, held);
        lemma_end_accounts(first, held);
        if let Some((held, true)) = two {
            let (third, three) = close_management_run(second, held);
            lemma_step_accounts(second, held);
            if let Some((held, _)) = three {
                lemma_step_accounts(third, held);
            }
        }
    }
}

/// A child that is let run has had its barrier released. The supervisor no longer holds its side
/// of the start then, and has closed it.
pub proof fn lemma_released_child_runs(k: kernel::Transcript, attempt: ActivationAttempt)
    ensures
        ({
            let (after, released) = release_child_run(k, attempt);
            released matches Some((left, done)) ==> {
                &&& accounts_for(k, after, attempt, left)
                &&& done ==> {
                    &&& left.barrier is None
                    &&& left.generation_source is None
                    &&& left.bootstrap_sender is None
                    &&& left.bootstrap_receiver is None
                }
                &&& left.readiness_source == attempt.readiness_source
                &&& left.job == attempt.job
                &&& left.process_id == attempt.process_id
            }
        }),
{
    broadcast use lemma_accounts_go_on;

    reveal(release_child_run);
    let (first, one) = close_generation_run(k, attempt);
    lemma_step_accounts(k, attempt);
    if let Some((held, _)) = one {
        let (second, two) = close_bootstrap_run(first, held);
        lemma_pair_accounts(first, held);
        if let Some((held, _)) = two {
            lemma_step_accounts(second, held);
        }
    }
}

} // verus!
