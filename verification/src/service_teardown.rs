//! Tearing a service down: its processes, its job and its capabilities.
//!
//! Nothing here gives up on a handle or a process that it could not get rid of: what remains is
//! handed back, so that a later attempt can go on with it.

use crate::abi::{SIGNAL_KILL};
use crate::init_text::Text;
use crate::ipc;
use crate::ipc::CapabilityHandle;
use crate::kernel;
use crate::kernel::{Kernel, Op};
use crate::procedure;
use crate::service_cleanup;
use crate::service_cleanup::{
    classify_group_signal, classify_job_terminate, classify_job_wait, classify_leader_wait,
    classify_unit, Action, Diagnostic, JobWaitResult, LeaderResult, Observation, Operation, Phase,
    Service,
};
use crate::syscall;
use crate::syscall::{
    signal_process_group, try_wait_child, write_all, yield_now, ChildStatus, LaunchBarrier,
    ProcessId, STDERR, STDOUT,
};
use crate::trace;
use crate::trace::Deed;
use vstd::prelude::*;

verus! {

/// How often a service is given time to go away.
pub const SERVICE_JOB_CLEANUP_YIELDS: u32 = 64;

/// The largest diagnostic line.
pub const DIAGNOSTIC_BYTES: usize = 192;

/// The line that a diagnostic comes to.
pub open spec fn diagnostic_line(diagnostic: Diagnostic) -> Seq<u8> {
    let line = service_cleanup::joined(diagnostic.pieces());
    if line.len() <= DIAGNOSTIC_BYTES {
        line
    } else {
        Text::CleanupDiagnosticFailed.bytes()
    }
}

/// Writing a text without looking at the verdict.
pub open spec fn say_run(k: kernel::Transcript, stream: u64, bytes: Seq<u8>) -> (
    kernel::Transcript,
    Option<()>,
) {
    procedure::after(
        syscall::write_all_run(k, stream, bytes),
        |k: kernel::Transcript, written: Result<(), ipc::Error>| procedure::done(k, ()),
    )
}

/// Writes a text without looking at the verdict.
pub fn say(k: &mut Kernel, stream: u64, bytes: &[u8]) -> (result: Option<()>)
    ensures
        (final(k)@, result) == say_run(old(k)@, stream, bytes@),
{
    let _ = write_all(k, stream, bytes)?;
    Some(())
}

/// Reporting what went wrong in a teardown.
pub open spec fn report_run(
    k: kernel::Transcript,
    service: Service,
    phase: Phase,
    operation: Operation,
    observation: Observation,
) -> (kernel::Transcript, Option<()>) {
    say_run(k, STDERR, diagnostic_line(Diagnostic { service, phase, operation, observation }))
}

pub fn report_service_cleanup_diagnostic(
    k: &mut Kernel,
    service: Service,
    phase: Phase,
    operation: Operation,
    observation: Observation,
) -> (result: Option<()>)
    ensures
        (final(k)@, result) == report_run(old(k)@, service, phase, operation, observation),
{
    let diagnostic = Diagnostic { service, phase, operation, observation };
    let mut output: [u8; DIAGNOSTIC_BYTES] = [0;DIAGNOSTIC_BYTES];
    let ghost blank = output@;
    match diagnostic.encode(&mut output) {
        Some(length) => {
            proof {
                service_cleanup::lemma_diagnostic_is_its_line(blank, diagnostic);
                assert(output@.subrange(0, length as int) =~= service_cleanup::joined(
                    diagnostic.pieces(),
                ));
            }
            say(k, STDERR, &output.as_slice()[0..length])
        },
        None => {
            proof {
                service_cleanup::lemma_diagnostic_is_its_line(blank, diagnostic);
            }
            say(k, STDERR, Text::CleanupDiagnosticFailed.as_bytes())
        },
    }
}

/// Reporting once that a teardown ran out of time.
pub open spec fn report_budget_run(
    k: kernel::Transcript,
    service: Service,
    phase: Phase,
    operation: Operation,
    reported: bool,
) -> (kernel::Transcript, Option<()>) {
    if reported {
        procedure::done(k, ())
    } else {
        report_run(
            k,
            service,
            phase,
            operation,
            Observation::BudgetExhausted { attempts: SERVICE_JOB_CLEANUP_YIELDS },
        )
    }
}

pub fn report_cleanup_budget_exhausted(
    k: &mut Kernel,
    service: Service,
    phase: Phase,
    operation: Operation,
    reported: &mut bool,
) -> (result: Option<()>)
    ensures
        (final(k)@, result) == report_budget_run(old(k)@, service, phase, operation, *old(reported)),
        *final(reported),
{
    if *reported {
        return Some(());
    }
    *reported = true;
    report_service_cleanup_diagnostic(
        k,
        service,
        phase,
        operation,
        Observation::BudgetExhausted { attempts: SERVICE_JOB_CLEANUP_YIELDS },
    )
}

/// The code of a failed result.
pub open spec fn coded<T>(result: Result<T, ipc::Error>) -> Result<T, i32> {
    match result {
        Ok(value) => Ok(value),
        Err(error) => Err(error.raw),
    }
}

fn code_of<T>(result: Result<T, ipc::Error>) -> (coded_result: Result<T, i32>)
    ensures
        coded_result == coded(result),
{
    match result {
        Ok(value) => Ok(value),
        Err(error) => Err(error.code()),
    }
}

/// What polling the leader of a group shows.
#[verifier::allow_in_spec]
pub fn leader_result(result: Result<ChildStatus, ipc::Error>) -> LeaderResult
    returns
        (match result {
            Ok(status) => if status.continued() || status.stopped_signal() is Some {
                LeaderResult::Transitional
            } else {
                LeaderResult::Terminal
            },
            Err(error) => LeaderResult::Error(error.raw),
        }),
{
    match result {
        Ok(status) => {
            if status.continued() || status.stopped_signal().is_some() {
                LeaderResult::Transitional
            } else {
                LeaderResult::Terminal
            }
        },
        Err(error) => LeaderResult::Error(error.code()),
    }
}

/// What polling the leader means for the teardown.
#[verifier::allow_in_spec]
pub fn leader_action(result: Result<ChildStatus, ipc::Error>) -> Action
    returns
        classify_leader_wait(
            leader_result(result),
            ipc::Error::try_again().raw,
            ipc::Error::interrupted().raw,
            ipc::Error::no_child().raw,
        ),
{
    classify_leader_wait(
        leader_result(result),
        ipc::Error::try_again().code(),
        ipc::Error::interrupted().code(),
        ipc::Error::no_child().code(),
    )
}

/// Polling the leader until it is clear whether it is gone.
pub open spec fn reap_run(k: kernel::Transcript, service: Service, process_id: ProcessId) -> (
    kernel::Transcript,
    Option<bool>,
)
    decreases k.unread(),
{
    let (asked, polled) = syscall::try_wait_run(k, process_id);
    match polled {
        None => (asked, None),
        Some(polled) => match leader_action(polled) {
            Action::Complete => procedure::done(asked, true),
            Action::Retry => reap_run(asked, service, process_id),
            Action::Unexpected(observation) => procedure::after(
                report_run(asked, service, Phase::LeaderReap, Operation::TryWaitChild, observation),
                |k: kernel::Transcript, reported: ()| procedure::done(k, false),
            ),
            _ => procedure::done(asked, false),
        },
    }
}

/// Reaping the leader of a service, if there is one left.
pub open spec fn reap_leader_run(
    k: kernel::Transcript,
    service: Service,
    leader: Option<ProcessId>,
) -> (kernel::Transcript, Option<bool>) {
    match leader {
        None => procedure::done(k, true),
        Some(process_id) => reap_run(k, service, process_id),
    }
}

/// The leader that is left after an attempt to reap it.
pub open spec fn left_leader(leader: Option<ProcessId>, reaped: bool) -> Option<ProcessId> {
    if reaped {
        None
    } else {
        leader
    }
}

pub fn reap_service_leader(
    k: &mut Kernel,
    service: Service,
    leader_process_id: &mut Option<ProcessId>,
) -> (result: Option<bool>)
    ensures
        (final(k)@, result) == reap_leader_run(old(k)@, service, *old(leader_process_id)),
        result matches Some(reaped) ==> *final(leader_process_id) == left_leader(
            *old(leader_process_id),
            reaped,
        ),
{
    let process_id: ProcessId = match *leader_process_id {
        Some(process_id) => process_id,
        None => {
            return Some(true);
        },
    };
    loop
        invariant
            *leader_process_id == *old(leader_process_id),
            *leader_process_id == Some(process_id),
            reap_leader_run(old(k)@, service, *old(leader_process_id)) == reap_run(
                k@,
                service,
                process_id,
            ),
        decreases k@.unread(),
    {
        match leader_action(try_wait_child(k, process_id)?) {
            Action::Complete => {
                *leader_process_id = None;
                return Some(true);
            },
            Action::Retry => {},
            Action::Unexpected(observation) => {
                report_service_cleanup_diagnostic(
                    k,
                    service,
                    Phase::LeaderReap,
                    Operation::TryWaitChild,
                    observation,
                )?;
                return Some(false);
            },
            _ => {
                return Some(false);
            },
        }
    }
}

/// Yielding once in a teardown.
pub open spec fn pause_run(k: kernel::Transcript, service: Service, phase: Phase) -> (
    kernel::Transcript,
    Option<bool>,
) {
    procedure::after(
        syscall::yield_run(k),
        |k: kernel::Transcript, yielded: Result<(), ipc::Error>|
            match classify_unit(coded(yielded)) {
                Action::Complete => procedure::done(k, true),
                Action::Unexpected(observation) => procedure::after(
                    report_run(k, service, phase, Operation::YieldNow, observation),
                    |k: kernel::Transcript, reported: ()| procedure::done(k, false),
                ),
                _ => procedure::done(k, false),
            },
    )
}

fn pause(k: &mut Kernel, service: Service, phase: Phase) -> (result: Option<bool>)
    ensures
        (final(k)@, result) == pause_run(old(k)@, service, phase),
{
    match classify_unit(code_of(yield_now(k)?)) {
        Action::Complete => Some(true),
        Action::Unexpected(observation) => {
            report_service_cleanup_diagnostic(k, service, phase, Operation::YieldNow, observation)?;
            Some(false)
        },
        _ => Some(false),
    }
}

/// Killing a process group once: whether it was empty already, or nothing if the teardown has to
/// stop.
pub open spec fn kill_run(k: kernel::Transcript, service: Service, group: ProcessId) -> (
    kernel::Transcript,
    Option<Option<bool>>,
) {
    procedure::after(
        syscall::signal_group_run(k, group, SIGNAL_KILL),
        |k: kernel::Transcript, signaled: Result<usize, ipc::Error>|
            match classify_group_signal(coded(signaled), ipc::Error::no_child().raw) {
                Action::Progress => procedure::done(k, Some(false)),
                Action::Complete => procedure::done(k, Some(true)),
                Action::Unexpected(observation) => procedure::after(
                    report_run(
                        k,
                        service,
                        Phase::UnassignedProcessGroup,
                        Operation::SignalProcessGroup,
                        observation,
                    ),
                    |k: kernel::Transcript, reported: ()| procedure::done(k, None),
                ),
                _ => procedure::done(k, None),
            },
    )
}

fn kill_group(k: &mut Kernel, service: Service, group: ProcessId) -> (result: Option<Option<bool>>)
    ensures
        (final(k)@, result) == kill_run(old(k)@, service, group),
{
    match classify_group_signal(
        code_of(signal_process_group(k, group, SIGNAL_KILL)?),
        ipc::Error::no_child().code(),
    ) {
        Action::Progress => Some(Some(false)),
        Action::Complete => Some(Some(true)),
        Action::Unexpected(observation) => {
            report_service_cleanup_diagnostic(
                k,
                service,
                Phase::UnassignedProcessGroup,
                Operation::SignalProcessGroup,
                observation,
            )?;
            Some(None)
        },
        _ => Some(None),
    }
}

/// What one round of a teardown comes to.
pub ghost enum Round {
    /// The teardown is over, cleanly or not.
    Over { clean: bool, leader: Option<ProcessId> },
    /// Another round is due.
    Again { emptied: bool, leader: Option<ProcessId> },
}

/// One round of ending a process group that is in no job.
pub open spec fn group_round_run(
    k: kernel::Transcript,
    service: Service,
    group: ProcessId,
    leader: Option<ProcessId>,
) -> (kernel::Transcript, Option<Round>) {
    procedure::after(
        kill_run(k, service, group),
        |k: kernel::Transcript, emptied: Option<bool>|
            match emptied {
                None => procedure::done(k, Round::Over { clean: false, leader }),
                Some(emptied) => procedure::after(
                    reap_leader_run(k, service, leader),
                    |k: kernel::Transcript, reaped: bool|
                        if emptied && reaped {
                            procedure::done(k, Round::Over { clean: true, leader: None })
                        } else {
                            procedure::after(
                                pause_run(k, service, Phase::UnassignedProcessGroup),
                                |k: kernel::Transcript, paused: bool|
                                    if paused {
                                        procedure::done(
                                            k,
                                            Round::Again {
                                                emptied,
                                                leader: left_leader(leader, reaped),
                                            },
                                        )
                                    } else {
                                        procedure::done(
                                            k,
                                            Round::Over {
                                                clean: false,
                                                leader: left_leader(leader, reaped),
                                            },
                                        )
                                    },
                            )
                        },
                ),
            },
    )
}

/// What is left of a teardown: whether it is done, the leader if it is still there, and whether
/// the exhausted budget has been reported.
pub ghost struct Torn {
    pub clean: bool,
    pub leader: Option<ProcessId>,
    pub reported: bool,
}

/// Ending a process group that is in no job, within `rounds` rounds.
pub open spec fn group_run(
    k: kernel::Transcript,
    service: Service,
    group: ProcessId,
    leader: Option<ProcessId>,
    emptied: bool,
    rounds: nat,
    reported: bool,
) -> (kernel::Transcript, Option<Torn>)
    decreases rounds,
{
    if rounds == 0 {
        let (phase, operation) = if emptied && leader is Some {
            (Phase::LeaderReap, Operation::TryWaitChild)
        } else {
            (Phase::UnassignedProcessGroup, Operation::SignalProcessGroup)
        };
        procedure::after(
            report_budget_run(k, service, phase, operation, reported),
            |k: kernel::Transcript, said: ()|
                procedure::done(k, Torn { clean: false, leader, reported: true }),
        )
    } else {
        let (asked, round) = group_round_run(k, service, group, leader);
        match round {
            None => (asked, None),
            Some(Round::Over { clean, leader }) => procedure::done(
                asked,
                Torn { clean, leader, reported },
            ),
            Some(Round::Again { emptied, leader }) => group_run(
                asked,
                service,
                group,
                leader,
                emptied,
                (rounds - 1) as nat,
                reported,
            ),
        }
    }
}

/// Kills a process group that is in no job and reaps its leader.
#[verifier::loop_isolation(false)]
pub fn terminate_unassigned_service_process_group(
    k: &mut Kernel,
    service: Service,
    process_group_id: ProcessId,
    leader_process_id: &mut Option<ProcessId>,
    budget_reported: &mut bool,
) -> (result: Option<bool>)
    ensures
        ({
            let (asked, torn) = group_run(
                old(k)@,
                service,
                process_group_id,
                *old(leader_process_id),
                false,
                SERVICE_JOB_CLEANUP_YIELDS as nat,
                *old(budget_reported),
            );
            &&& final(k)@ == asked
            &&& match result {
                None => torn is None,
                Some(clean) => torn == Some(
                    Torn {
                        clean,
                        leader: *final(leader_process_id),
                        reported: *final(budget_reported),
                    },
                ),
            }
        }),
{
    let mut group_empty = false;
    let mut rounds: u32 = SERVICE_JOB_CLEANUP_YIELDS;
    while rounds > 0
        invariant
            *budget_reported == *old(budget_reported),
            group_run(
                old(k)@,
                service,
                process_group_id,
                *old(leader_process_id),
                false,
                SERVICE_JOB_CLEANUP_YIELDS as nat,
                *old(budget_reported),
            ) == group_run(
                k@,
                service,
                process_group_id,
                *leader_process_id,
                group_empty,
                rounds as nat,
                *budget_reported,
            ),
        decreases rounds,
    {
        group_empty = match kill_group(k, service, process_group_id)? {
            Some(emptied) => emptied,
            None => {
                return Some(false);
            },
        };
        let leader_reaped = reap_service_leader(k, service, leader_process_id)?;
        if group_empty && leader_reaped {
            return Some(true);
        }
        if !pause(k, service, Phase::UnassignedProcessGroup)? {
            return Some(false);
        }
        rounds -= 1;
    }
    let (phase, operation) = if group_empty && leader_process_id.is_some() {
        (Phase::LeaderReap, Operation::TryWaitChild)
    } else {
        (Phase::UnassignedProcessGroup, Operation::SignalProcessGroup)
    };
    report_cleanup_budget_exhausted(k, service, phase, operation, budget_reported)?;
    Some(false)
}

/// Closing a capability of a service, if it is still held: whether it is gone.
pub open spec fn close_capability_run(
    k: kernel::Transcript,
    service: Service,
    phase: Phase,
    handle: Option<CapabilityHandle>,
) -> (kernel::Transcript, Option<bool>) {
    match handle {
        None => procedure::done(k, true),
        Some(value) => procedure::after(
            ipc::close_run(k, value),
            |k: kernel::Transcript, closed: Result<(), ipc::Error>|
                match classify_unit(coded(closed)) {
                    Action::Complete => procedure::done(k, true),
                    Action::Unexpected(observation) => procedure::after(
                        report_run(k, service, phase, Operation::CapabilityClose, observation),
                        |k: kernel::Transcript, reported: ()| procedure::done(k, false),
                    ),
                    _ => procedure::done(k, false),
                },
        ),
    }
}

/// What is left of something that may have been released.
pub open spec fn left<T>(held: Option<T>, released: bool) -> Option<T> {
    if released {
        None
    } else {
        held
    }
}

pub fn close_cleanup_capability(
    k: &mut Kernel,
    service: Service,
    phase: Phase,
    handle: &mut Option<CapabilityHandle>,
) -> (result: Option<bool>)
    ensures
        (final(k)@, result) == close_capability_run(old(k)@, service, phase, *old(handle)),
        result matches Some(closed) ==> *final(handle) == left(*old(handle), closed),
{
    let value = match *handle {
        Some(value) => value,
        None => {
            return Some(true);
        },
    };
    match classify_unit(code_of(ipc::close(k, value)?)) {
        Action::Complete => {
            *handle = None;
            Some(true)
        },
        Action::Unexpected(observation) => {
            report_service_cleanup_diagnostic(
                k,
                service,
                phase,
                Operation::CapabilityClose,
                observation,
            )?;
            Some(false)
        },
        _ => Some(false),
    }
}

/// Releasing the barrier of a service, if it is still held: whether it is gone.
pub open spec fn release_barrier_run(
    k: kernel::Transcript,
    service: Service,
    barrier: Option<LaunchBarrier>,
) -> (kernel::Transcript, Option<bool>) {
    match barrier {
        None => procedure::done(k, true),
        Some(value) => procedure::after(
            syscall::release_run(k, value),
            |k: kernel::Transcript, released: Result<(), ipc::Error>|
                match classify_unit(coded(released)) {
                    Action::Complete => procedure::done(k, true),
                    Action::Unexpected(observation) => procedure::after(
                        report_run(
                            k,
                            service,
                            Phase::ResourceRelease,
                            Operation::LaunchBarrierRelease,
                            observation,
                        ),
                        |k: kernel::Transcript, reported: ()| procedure::done(k, false),
                    ),
                    _ => procedure::done(k, false),
                },
        ),
    }
}

pub fn release_cleanup_barrier(
    k: &mut Kernel,
    service: Service,
    barrier: &mut Option<LaunchBarrier>,
) -> (result: Option<bool>)
    ensures
        (final(k)@, result) == release_barrier_run(old(k)@, service, *old(barrier)),
        result matches Some(released) ==> *final(barrier) == left(*old(barrier), released),
{
    let value = match *barrier {
        Some(value) => value,
        None => {
            return Some(true);
        },
    };
    match classify_unit(code_of(value.release(k)?)) {
        Action::Complete => {
            *barrier = None;
            Some(true)
        },
        Action::Unexpected(observation) => {
            report_service_cleanup_diagnostic(
                k,
                service,
                Phase::ResourceRelease,
                Operation::LaunchBarrierRelease,
                observation,
            )?;
            Some(false)
        },
        _ => Some(false),
    }
}

/// What polling a job means for the teardown.
#[verifier::allow_in_spec]
pub fn job_action(polled: Result<ipc::JobExit, ipc::Error>, expect_empty: bool) -> Action
    returns
        classify_job_wait(
            match polled {
                Ok(exit) => JobWaitResult::Exit {
                    process_id: exit.process_id,
                    status: exit.status.raw,
                },
                Err(error) => JobWaitResult::Error(error.raw),
            },
            ipc::Error::try_again().raw,
            ipc::Error::no_child().raw,
            expect_empty,
        ),
{
    let result = match polled {
        Ok(exit) => JobWaitResult::Exit {
            process_id: exit.process_id,
            status: exit.status.raw(),
        },
        Err(error) => JobWaitResult::Error(error.code()),
    };
    classify_job_wait(
        result,
        ipc::Error::try_again().code(),
        ipc::Error::no_child().code(),
        expect_empty,
    )
}

/// The handle over which an empty job is inspected.
#[verifier::allow_in_spec]
pub fn inspected_job(
    job: Option<CapabilityHandle>,
    management: Option<CapabilityHandle>,
) -> Option<CapabilityHandle>
    returns
        (match job {
            Some(handle) => Some(handle),
            None => management,
        }),
{
    match job {
        Some(handle) => Some(handle),
        None => management,
    }
}

/// Making sure that a job is empty.
pub open spec fn inspect_job_run(
    k: kernel::Transcript,
    service: Service,
    handle: Option<CapabilityHandle>,
) -> (kernel::Transcript, Option<bool>) {
    match handle {
        None => procedure::done(k, true),
        Some(handle) => procedure::after(
            ipc::job_try_wait_run(k, handle),
            |k: kernel::Transcript, polled: Result<ipc::JobExit, ipc::Error>|
                match job_action(polled, true) {
                    Action::Complete => procedure::done(k, true),
                    Action::Unexpected(observation) => procedure::after(
                        report_run(
                            k,
                            service,
                            Phase::EmptyJobInspection,
                            Operation::JobTryWait,
                            observation,
                        ),
                        |k: kernel::Transcript, reported: ()| procedure::done(k, false),
                    ),
                    _ => procedure::done(k, false),
                },
        ),
    }
}

/// What is left of a job that was to be closed.
pub ghost struct ClosedJob {
    pub clean: bool,
    pub management: Option<CapabilityHandle>,
    pub job: Option<CapabilityHandle>,
}

/// Closing a job that must be empty.
pub open spec fn close_job_run(
    k: kernel::Transcript,
    service: Service,
    management: Option<CapabilityHandle>,
    job: Option<CapabilityHandle>,
) -> (kernel::Transcript, Option<ClosedJob>) {
    procedure::after(
        inspect_job_run(k, service, inspected_job(job, management)),
        |k: kernel::Transcript, empty: bool|
            if !empty {
                procedure::done(k, ClosedJob { clean: false, management, job })
            } else {
                procedure::after(
                    close_capability_run(k, service, Phase::ResourceRelease, job),
                    |k: kernel::Transcript, job_closed: bool|
                        procedure::after(
                            close_capability_run(k, service, Phase::ResourceRelease, management),
                            |k: kernel::Transcript, management_closed: bool|
                                procedure::done(
                                    k,
                                    ClosedJob {
                                        clean: job_closed && management_closed,
                                        management: left(management, management_closed),
                                        job: left(job, job_closed),
                                    },
                                ),
                        ),
                )
            },
    )
}

pub fn close_empty_service_job(
    k: &mut Kernel,
    service: Service,
    job_management: &mut Option<CapabilityHandle>,
    job: &mut Option<CapabilityHandle>,
) -> (result: Option<bool>)
    ensures
        ({
            let (asked, closed) = close_job_run(
                old(k)@,
                service,
                *old(job_management),
                *old(job),
            );
            &&& final(k)@ == asked
            &&& match result {
                None => closed is None,
                Some(clean) => closed == Some(
                    ClosedJob { clean, management: *final(job_management), job: *final(job) },
                ),
            }
        }),
{
    if let Some(handle) = inspected_job(*job, *job_management) {
        match job_action(ipc::job_try_wait(k, handle)?, true) {
            Action::Complete => {},
            Action::Unexpected(observation) => {
                report_service_cleanup_diagnostic(
                    k,
                    service,
                    Phase::EmptyJobInspection,
                    Operation::JobTryWait,
                    observation,
                )?;
                return Some(false);
            },
            _ => {
                return Some(false);
            },
        }
    }
    let job_closed = close_cleanup_capability(k, service, Phase::ResourceRelease, job)?;
    let management_closed = close_cleanup_capability(
        k,
        service,
        Phase::ResourceRelease,
        job_management,
    )?;
    Some(job_closed && management_closed)
}

/// Asking once for the processes of a job to end: whether that was taken.
pub open spec fn terminate_run(k: kernel::Transcript, service: Service, handle: CapabilityHandle) -> (
    kernel::Transcript,
    Option<bool>,
) {
    procedure::after(
        ipc::count_run(k, Op::JobTerminate { job: handle }, seq![]),
        |k: kernel::Transcript, ended: Result<usize, ipc::Error>|
            match classify_job_terminate(coded(ended)) {
                Action::Progress => procedure::done(k, true),
                Action::Unexpected(observation) => procedure::after(
                    report_run(k, service, Phase::JobDrain, Operation::JobTerminate, observation),
                    |k: kernel::Transcript, reported: ()| procedure::done(k, false),
                ),
                _ => procedure::done(k, false),
            },
    )
}

pub fn terminate_job(k: &mut Kernel, service: Service, handle: CapabilityHandle) -> (result: Option<
    bool,
>)
    ensures
        (final(k)@, result) == terminate_run(old(k)@, service, handle),
{
    match classify_job_terminate(code_of(ipc::job_terminate(k, handle)?)) {
        Action::Progress => Some(true),
        Action::Unexpected(observation) => {
            report_service_cleanup_diagnostic(
                k,
                service,
                Phase::JobDrain,
                Operation::JobTerminate,
                observation,
            )?;
            Some(false)
        },
        _ => Some(false),
    }
}

/// Collecting the exits of a job: whether it is empty now, or nothing if the teardown has to stop.
pub open spec fn collect_run(k: kernel::Transcript, service: Service, handle: CapabilityHandle) -> (
    kernel::Transcript,
    Option<Option<bool>>,
)
    decreases k.unread(),
{
    let (asked, polled) = ipc::job_try_wait_run(k, handle);
    match polled {
        None => (asked, None),
        Some(polled) => match job_action(polled, false) {
            Action::Progress => collect_run(asked, service, handle),
            Action::Pending => procedure::done(asked, Some(false)),
            Action::Complete => procedure::done(asked, Some(true)),
            Action::Unexpected(observation) => procedure::after(
                report_run(asked, service, Phase::JobDrain, Operation::JobTryWait, observation),
                |k: kernel::Transcript, reported: ()| procedure::done(k, None),
            ),
            Action::Retry => procedure::done(asked, None),
        },
    }
}

fn collect_exits(k: &mut Kernel, service: Service, handle: CapabilityHandle) -> (result: Option<
    Option<bool>,
>)
    ensures
        (final(k)@, result) == collect_run(old(k)@, service, handle),
{
    loop
        invariant
            collect_run(old(k)@, service, handle) == collect_run(k@, service, handle),
        decreases k@.unread(),
    {
        match job_action(ipc::job_try_wait(k, handle)?, false) {
            Action::Progress => {},
            Action::Pending => {
                return Some(Some(false));
            },
            Action::Complete => {
                return Some(Some(true));
            },
            Action::Unexpected(observation) => {
                report_service_cleanup_diagnostic(
                    k,
                    service,
                    Phase::JobDrain,
                    Operation::JobTryWait,
                    observation,
                )?;
                return Some(None);
            },
            Action::Retry => {
                return Some(None);
            },
        }
    }
}

/// Closing a job that has been drained, and saying so.
pub open spec fn drained_run(
    k: kernel::Transcript,
    service: Service,
    handle: CapabilityHandle,
    drained: Text,
) -> (kernel::Transcript, Option<bool>) {
    procedure::after(
        close_capability_run(k, service, Phase::ResourceRelease, Some(handle)),
        |k: kernel::Transcript, closed: bool|
            if closed {
                procedure::after(
                    say_run(k, STDOUT, drained.bytes()),
                    |k: kernel::Transcript, said: ()| procedure::done(k, true),
                )
            } else {
                procedure::done(k, false)
            },
    )
}

/// One round of draining a job.
pub open spec fn drain_round_run(
    k: kernel::Transcript,
    service: Service,
    handle: CapabilityHandle,
    leader: Option<ProcessId>,
    drained: Text,
) -> (kernel::Transcript, Option<Round>) {
    procedure::after(
        terminate_run(k, service, handle),
        |k: kernel::Transcript, taken: bool|
            if !taken {
                procedure::done(k, Round::Over { clean: false, leader })
            } else {
                procedure::after(
                    collect_run(k, service, handle),
                    |k: kernel::Transcript, emptied: Option<bool>|
                        match emptied {
                            None => procedure::done(k, Round::Over { clean: false, leader }),
                            Some(emptied) => procedure::after(
                                reap_leader_run(k, service, leader),
                                |k: kernel::Transcript, reaped: bool|
                                    drain_end_run(
                                        k,
                                        service,
                                        handle,
                                        left_leader(leader, reaped),
                                        emptied,
                                        reaped,
                                        drained,
                                    ),
                            ),
                        },
                )
            },
    )
}

/// The end of a round of draining a job.
pub open spec fn drain_end_run(
    k: kernel::Transcript,
    service: Service,
    handle: CapabilityHandle,
    leader: Option<ProcessId>,
    emptied: bool,
    reaped: bool,
    drained: Text,
) -> (kernel::Transcript, Option<Round>) {
    if emptied && reaped {
        procedure::after(
            drained_run(k, service, handle, drained),
            |k: kernel::Transcript, closed: bool|
                procedure::done(k, Round::Over { clean: closed, leader }),
        )
    } else {
        procedure::after(
            pause_run(k, service, Phase::JobDrain),
            |k: kernel::Transcript, paused: bool|
                if paused {
                    procedure::done(k, Round::Again { emptied, leader })
                } else {
                    procedure::done(k, Round::Over { clean: false, leader })
                },
        )
    }
}

/// Draining a job, within `rounds` rounds.
pub open spec fn drain_job_run(
    k: kernel::Transcript,
    service: Service,
    handle: CapabilityHandle,
    leader: Option<ProcessId>,
    drained: Text,
    emptied: bool,
    rounds: nat,
    reported: bool,
) -> (kernel::Transcript, Option<Torn>)
    decreases rounds,
{
    if rounds == 0 {
        let (phase, operation) = if emptied && leader is Some {
            (Phase::LeaderReap, Operation::TryWaitChild)
        } else {
            (Phase::JobDrain, Operation::JobTryWait)
        };
        procedure::after(
            report_budget_run(k, service, phase, operation, reported),
            |k: kernel::Transcript, said: ()|
                procedure::done(k, Torn { clean: false, leader, reported: true }),
        )
    } else {
        let (asked, round) = drain_round_run(k, service, handle, leader, drained);
        match round {
            None => (asked, None),
            Some(Round::Over { clean, leader }) => procedure::done(
                asked,
                Torn { clean, leader, reported },
            ),
            Some(Round::Again { emptied, leader }) => drain_job_run(
                asked,
                service,
                handle,
                leader,
                drained,
                emptied,
                (rounds - 1) as nat,
                reported,
            ),
        }
    }
}

/// Ending every process of a service's job and closing the job. A job that is not held cannot be
/// drained.
#[verifier::opaque]
pub open spec fn drain_run(
    k: kernel::Transcript,
    service: Service,
    job: Option<CapabilityHandle>,
    leader: Option<ProcessId>,
    drained: Text,
    reported: bool,
) -> (kernel::Transcript, Option<Torn>) {
    match job {
        None => procedure::after(
            report_run(
                k,
                service,
                Phase::JobDrain,
                Operation::JobTryWait,
                Observation::MissingHandle,
            ),
            |k: kernel::Transcript, said: ()|
                procedure::done(k, Torn { clean: false, leader, reported }),
        ),
        Some(handle) => drain_job_run(
            k,
            service,
            handle,
            leader,
            drained,
            false,
            SERVICE_JOB_CLEANUP_YIELDS as nat,
            reported,
        ),
    }
}

/// Ends every process of a service's job, reaps the leader and closes the job.
#[verifier::loop_isolation(false)]
pub fn terminate_and_drain_service_job(
    k: &mut Kernel,
    service: Service,
    job: &mut Option<CapabilityHandle>,
    leader_process_id: &mut Option<ProcessId>,
    process_group_id: &mut Option<ProcessId>,
    drained_message: Text,
    budget_reported: &mut bool,
) -> (result: Option<bool>)
    ensures
        ({
            let (asked, torn) = drain_run(
                old(k)@,
                service,
                *old(job),
                *old(leader_process_id),
                drained_message,
                *old(budget_reported),
            );
            &&& final(k)@ == asked
            &&& match result {
                None => torn is None,
                Some(clean) => {
                    &&& torn == Some(
                        Torn {
                            clean,
                            leader: *final(leader_process_id),
                            reported: *final(budget_reported),
                        },
                    )
                    &&& *final(job) == left(*old(job), clean)
                    &&& *final(process_group_id) == left(*old(process_group_id), clean)
                },
            }
        }),
{
    proof {
        reveal(drain_run);
    }
    let handle = match *job {
        Some(handle) => handle,
        None => {
            report_service_cleanup_diagnostic(
                k,
                service,
                Phase::JobDrain,
                Operation::JobTryWait,
                Observation::MissingHandle,
            )?;
            return Some(false);
        },
    };
    let mut job_drained = false;
    let mut rounds: u32 = SERVICE_JOB_CLEANUP_YIELDS;
    while rounds > 0
        invariant
            *budget_reported == *old(budget_reported),
            *job == *old(job),
            *process_group_id == *old(process_group_id),
            drain_run(
                old(k)@,
                service,
                *old(job),
                *old(leader_process_id),
                drained_message,
                *old(budget_reported),
            ) == drain_job_run(
                k@,
                service,
                handle,
                *leader_process_id,
                drained_message,
                job_drained,
                rounds as nat,
                *budget_reported,
            ),
        decreases rounds,
    {
        if !terminate_job(k, service, handle)? {
            return Some(false);
        }
        job_drained = match collect_exits(k, service, handle)? {
            Some(drained) => drained,
            None => {
                return Some(false);
            },
        };
        let leader_reaped = reap_service_leader(k, service, leader_process_id)?;
        if job_drained && leader_reaped {
            if !close_cleanup_capability(k, service, Phase::ResourceRelease, job)? {
                return Some(false);
            }
            *process_group_id = None;
            say(k, STDOUT, drained_message.as_bytes())?;
            return Some(true);
        }
        if !pause(k, service, Phase::JobDrain)? {
            return Some(false);
        }
        rounds -= 1;
    }
    let (phase, operation) = if job_drained && leader_process_id.is_some() {
        (Phase::LeaderReap, Operation::TryWaitChild)
    } else {
        (Phase::JobDrain, Operation::JobTryWait)
    };
    report_cleanup_budget_exhausted(k, service, phase, operation, budget_reported)?;
    Some(false)
}

/// A teardown that is clean has reaped the leader, and a second report of an exhausted budget is
/// never made.
pub proof fn lemma_clean_drain_leaves_no_leader(
    k: kernel::Transcript,
    service: Service,
    handle: CapabilityHandle,
    leader: Option<ProcessId>,
    drained: Text,
    emptied: bool,
    rounds: nat,
    reported: bool,
)
    ensures
        drain_job_run(k, service, handle, leader, drained, emptied, rounds, reported).1 matches Some(
            torn,
        ) ==> ((torn.clean ==> torn.leader is None) && (reported ==> torn.reported) && (torn.leader
            is None || torn.leader == leader)),
    decreases rounds,
{
    if rounds > 0 {
        let (asked, round) = drain_round_run(k, service, handle, leader, drained);
        if let Some(Round::Again { emptied, leader: next }) = round {
            lemma_clean_drain_leaves_no_leader(
                asked,
                service,
                handle,
                next,
                drained,
                emptied,
                (rounds - 1) as nat,
                reported,
            );
        }
    }
}

/// Ending a process group outside a job is clean only when the group is empty and its leader was
/// reaped.
pub proof fn lemma_clean_group_leaves_no_leader(
    k: kernel::Transcript,
    service: Service,
    group: ProcessId,
    leader: Option<ProcessId>,
    emptied: bool,
    rounds: nat,
    reported: bool,
)
    ensures
        group_run(k, service, group, leader, emptied, rounds, reported).1 matches Some(torn) ==> ((
        torn.clean ==> torn.leader is None) && (reported ==> torn.reported) && (torn.leader is None
            || torn.leader == leader)),
    decreases rounds,
{
    if rounds > 0 {
        let (asked, round) = group_round_run(k, service, group, leader);
        if let Some(Round::Again { emptied, leader: next }) = round {
            lemma_clean_group_leaves_no_leader(
                asked,
                service,
                group,
                next,
                emptied,
                (rounds - 1) as nat,
                reported,
            );
        }
    }
}

/// A capability that was closed once is never closed again: closing what is left of it makes no
/// call.
pub proof fn lemma_closed_capability_is_not_closed_again(
    k: kernel::Transcript,
    service: Service,
    phase: Phase,
    handle: Option<CapabilityHandle>,
    later: kernel::Transcript,
)
    requires
        close_capability_run(k, service, phase, handle).1 == Some(true),
    ensures
        close_capability_run(later, service, phase, left(handle, true)) == (later, Some(true)),
{
}

/// Whether a process was waited for between two points.
pub open spec fn waited_for(
    before: kernel::Transcript,
    after: kernel::Transcript,
    process_id: ProcessId,
) -> bool {
    exists|result: Result<u64, ipc::Error>|
        trace::did(before, after, #[trigger] waiting(process_id, result))
}

/// That a process was looked at, and what came of it.
pub open spec fn waiting(process_id: ProcessId, result: Result<u64, ipc::Error>) -> Deed {
    Deed::Answered { op: Op::TryWaitChild { process_id }, result }
}

/// That nobody is left of whom a call speaks.
pub open spec fn found_nobody(op: Op) -> Deed {
    Deed::Answered { op, result: Err(ipc::Error::no_child()) }
}

/// That a handle was closed.
pub open spec fn closed(handle: CapabilityHandle) -> Deed {
    Deed::Called { op: Op::Close { handle } }
}

proof fn lemma_waited_stays(
    first: kernel::Transcript,
    second: kernel::Transcript,
    third: kernel::Transcript,
    fourth: kernel::Transcript,
    process_id: ProcessId,
)
    requires
        trace::mild(first, second),
        waited_for(second, third, process_id),
        trace::mild(third, fourth),
    ensures
        waited_for(first, fourth, process_id),
{
    broadcast use trace::group_did;

    let result = choose|result: Result<u64, ipc::Error>|
        trace::did(second, third, #[trigger] waiting(process_id, result));
    assert(trace::did(second, fourth, waiting(process_id, result)));
    assert(trace::did(first, fourth, waiting(process_id, result)));
}

proof fn lemma_reaped_leader_was_waited_for(
    k: kernel::Transcript,
    service: Service,
    process_id: ProcessId,
)
    requires
        reap_run(k, service, process_id).1 == Some(true),
    ensures
        waited_for(k, reap_run(k, service, process_id).0, process_id),
    decreases k.unread(),
{
    broadcast use {trace::group_did, trace::lemma_syscall_try_wait_run};

    let (asked, polled) = syscall::try_wait_run(k, process_id);
    let after = reap_run(k, service, process_id).0;
    if leader_action(polled->Some_0) == Action::Retry {
        lemma_reaped_leader_was_waited_for(asked, service, process_id);
        lemma_waited_stays(k, asked, after, after, process_id);
    } else {
        trace::lemma_answered(k, Op::TryWaitChild { process_id }, seq![], seq![]);
        assert(trace::did(
            k,
            after,
            waiting(process_id, ipc::decoded(k.reply()->Some_0.result)),
        ));
    }
}

proof fn lemma_collected_job_is_empty(
    k: kernel::Transcript,
    service: Service,
    handle: CapabilityHandle,
)
    requires
        collect_run(k, service, handle).1 == Some(Some(true)),
    ensures
        trace::did(
            k,
            collect_run(k, service, handle).0,
            found_nobody(Op::JobTryWait { job: handle }),
        ),
    decreases k.unread(),
{
    broadcast use trace::group_did;

    let (asked, polled) = ipc::job_try_wait_run(k, handle);
    if job_action(polled->Some_0, false) == Action::Progress {
        lemma_collected_job_is_empty(asked, service, handle);
    } else {
        trace::lemma_answered(k, Op::JobTryWait { job: handle }, seq![], seq![]);
    }
}

/// A capability that counts as closed was closed.
pub proof fn lemma_closed_capability_was_closed(
    k: kernel::Transcript,
    service: Service,
    phase: Phase,
    handle: Option<CapabilityHandle>,
)
    ensures
        close_capability_run(k, service, phase, handle).1 == Some(true) ==> match handle {
            None => close_capability_run(k, service, phase, handle).0 == k,
            Some(value) => trace::did(
                k,
                close_capability_run(k, service, phase, handle).0,
                closed(value),
            ),
        },
{
    if let Some(value) = handle {
        if close_capability_run(k, service, phase, handle).1 == Some(true) {
            trace::lemma_called(k, Op::Close { handle: value }, seq![], seq![]);
        }
    }
}

/// A barrier that counts as released was released.
pub proof fn lemma_released_barrier_was_released(
    k: kernel::Transcript,
    service: Service,
    barrier: Option<LaunchBarrier>,
)
    ensures
        release_barrier_run(k, service, barrier).1 == Some(true) ==> match barrier {
            None => release_barrier_run(k, service, barrier).0 == k,
            Some(value) => trace::did(
                k,
                release_barrier_run(k, service, barrier).0,
                Deed::Called { op: Op::BarrierRelease { barrier: value.handle } },
            ),
        },
{
    if let Some(value) = barrier {
        if release_barrier_run(k, service, barrier).1 == Some(true) {
            trace::lemma_called(k, Op::BarrierRelease { barrier: value.handle }, seq![], seq![]);
        }
    }
}

/// The leader that a round leaves behind.
pub open spec fn round_leader(round: Round) -> Option<ProcessId> {
    match round {
        Round::Over { leader, .. } => leader,
        Round::Again { leader, .. } => leader,
    }
}

#[verifier::spinoff_prover]
#[verifier::rlimit(40)]
proof fn lemma_drain_round_is_over(
    k: kernel::Transcript,
    service: Service,
    handle: CapabilityHandle,
    leader: Option<ProcessId>,
    drained: Text,
)
    ensures
        ({
            let (after, round) = drain_round_run(k, service, handle, leader, drained);
            round matches Some(round) ==> {
                &&& round matches Round::Over { clean: true, .. } ==> {
                    &&& trace::did(
                        k,
                        after,
                        Deed::Called { op: Op::JobTerminate { job: handle } },
                    )
                    &&& trace::did(k, after, found_nobody(Op::JobTryWait { job: handle }))
                    &&& trace::did(k, after, closed(handle))
                }
                &&& round_leader(round) is None ==> (leader matches Some(process_id) ==> waited_for(
                    k,
                    after,
                    process_id,
                ))
            }
        }),
{
    broadcast use {
        trace::group_did,
        trace::lemma_service_teardown_terminate_run,
        trace::lemma_service_teardown_collect_run,
        trace::lemma_service_teardown_reap_leader_run,
        trace::lemma_service_teardown_drain_end_run,
        trace::lemma_service_teardown_say_run,
        trace::lemma_service_teardown_close_capability_run,
    };

    let (after, round) = drain_round_run(k, service, handle, leader, drained);
    let (ended, taken) = terminate_run(k, service, handle);
    if round is Some && taken == Some(true) {
        trace::lemma_called(k, Op::JobTerminate { job: handle }, seq![], seq![]);
        let (collected, empty) = collect_run(ended, service, handle);
        if let Some(Some(emptied)) = empty {
            if emptied {
                lemma_collected_job_is_empty(ended, service, handle);
            }
            let (reaped, gone) = reap_leader_run(collected, service, leader);
            assert(trace::mild(reaped, after));
            if gone == Some(true) && leader is Some {
                lemma_reaped_leader_was_waited_for(collected, service, leader->Some_0);
                assert(trace::mild(k, collected));
                lemma_waited_stays(k, collected, reaped, after, leader->Some_0);
            }
            lemma_closed_capability_was_closed(
                reaped,
                service,
                Phase::ResourceRelease,
                Some(handle),
            );
            assert(trace::mild(k, reaped));
        }
    }
}

#[verifier::spinoff_prover]
#[verifier::rlimit(40)]
proof fn lemma_group_round_is_over(
    k: kernel::Transcript,
    service: Service,
    group: ProcessId,
    leader: Option<ProcessId>,
)
    ensures
        ({
            let (after, round) = group_round_run(k, service, group, leader);
            round matches Some(round) ==> {
                &&& round matches Round::Over { clean: true, .. } ==> trace::did(
                    k,
                    after,
                    found_nobody(Op::SignalProcessGroup { group, signal: SIGNAL_KILL }),
                )
                &&& round_leader(round) is None ==> (leader matches Some(process_id) ==> waited_for(
                    k,
                    after,
                    process_id,
                ))
            }
        }),
{
    broadcast use {
        trace::group_did,
        trace::lemma_service_teardown_kill_run,
        trace::lemma_service_teardown_reap_leader_run,
        trace::lemma_service_teardown_pause_run,
    };

    let (after, round) = group_round_run(k, service, group, leader);
    let (killed, empty) = kill_run(k, service, group);
    if round is Some {
        if let Some(Some(emptied)) = empty {
            if emptied {
                trace::lemma_answered(
                    k,
                    Op::SignalProcessGroup { group, signal: SIGNAL_KILL },
                    seq![],
                    seq![],
                );
            }
            let (reaped, gone) = reap_leader_run(killed, service, leader);
            assert(trace::mild(killed, reaped));
            assert(trace::mild(reaped, after));
            if gone == Some(true) && leader is Some {
                lemma_reaped_leader_was_waited_for(killed, service, leader->Some_0);
                lemma_waited_stays(k, killed, reaped, after, leader->Some_0);
            }
        }
    }
}

/// A job that was drained cleanly was terminated, held no process any more, and was closed, and
/// its leader was waited for.
pub proof fn lemma_drained_job_is_over(
    k: kernel::Transcript,
    service: Service,
    handle: CapabilityHandle,
    leader: Option<ProcessId>,
    drained: Text,
    emptied: bool,
    rounds: nat,
    reported: bool,
)
    ensures
        ({
            let (after, torn) = drain_job_run(
                k,
                service,
                handle,
                leader,
                drained,
                emptied,
                rounds,
                reported,
            );
            torn matches Some(torn) ==> {
                &&& torn.clean ==> {
                    &&& trace::did(
                        k,
                        after,
                        Deed::Called { op: Op::JobTerminate { job: handle } },
                    )
                    &&& trace::did(k, after, found_nobody(Op::JobTryWait { job: handle }))
                    &&& trace::did(k, after, closed(handle))
                }
                &&& torn.leader is None ==> (leader matches Some(process_id) ==> waited_for(
                    k,
                    after,
                    process_id,
                ))
            }
        }),
    decreases rounds,
{
    if rounds > 0 {
        let after = drain_job_run(
            k,
            service,
            handle,
            leader,
            drained,
            emptied,
            rounds,
            reported,
        ).0;
        let (asked, round) = drain_round_run(k, service, handle, leader, drained);
        lemma_drain_round_is_over(k, service, handle, leader, drained);
        if let Some(Round::Again { emptied, leader: next }) = round {
            broadcast use {
                trace::group_did,
                trace::lemma_service_teardown_drain_round_run,
                trace::lemma_service_teardown_drain_job_run,
            };

            lemma_drained_job_is_over(
                asked,
                service,
                handle,
                next,
                drained,
                emptied,
                (rounds - 1) as nat,
                reported,
            );
            lemma_clean_drain_leaves_no_leader(
                asked,
                service,
                handle,
                next,
                drained,
                emptied,
                (rounds - 1) as nat,
                reported,
            );
            assert(trace::mild(k, asked));
            assert(trace::mild(asked, after));
            if let Some(process_id) = leader {
                if next is None {
                    lemma_waited_stays(k, k, asked, after, process_id);
                } else if waited_for(asked, after, process_id) {
                    lemma_waited_stays(k, asked, after, after, process_id);
                }
            }
        }
    }
}

/// A process group that was ended cleanly is empty, and its leader was waited for.
pub proof fn lemma_ended_group_is_over(
    k: kernel::Transcript,
    service: Service,
    group: ProcessId,
    leader: Option<ProcessId>,
    emptied: bool,
    rounds: nat,
    reported: bool,
)
    ensures
        ({
            let (after, torn) = group_run(k, service, group, leader, emptied, rounds, reported);
            torn matches Some(torn) ==> {
                &&& torn.clean ==> trace::did(
                    k,
                    after,
                    found_nobody(Op::SignalProcessGroup { group, signal: SIGNAL_KILL }),
                )
                &&& torn.leader is None ==> (leader matches Some(process_id) ==> waited_for(
                    k,
                    after,
                    process_id,
                ))
            }
        }),
    decreases rounds,
{
    if rounds > 0 {
        let after = group_run(k, service, group, leader, emptied, rounds, reported).0;
        let (asked, round) = group_round_run(k, service, group, leader);
        lemma_group_round_is_over(k, service, group, leader);
        if let Some(Round::Again { emptied, leader: next }) = round {
            broadcast use {
                trace::group_did,
                trace::lemma_service_teardown_group_round_run,
                trace::lemma_service_teardown_group_run,
            };

            lemma_ended_group_is_over(
                asked,
                service,
                group,
                next,
                emptied,
                (rounds - 1) as nat,
                reported,
            );
            assert(trace::mild(k, asked));
            assert(trace::mild(asked, after));
            if let Some(process_id) = leader {
                if next is None {
                    lemma_waited_stays(k, k, asked, after, process_id);
                } else if waited_for(asked, after, process_id) {
                    lemma_waited_stays(k, asked, after, after, process_id);
                }
            }
        }
    }
}

} // verus!
