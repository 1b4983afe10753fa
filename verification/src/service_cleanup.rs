//! Classification and diagnostics for the cleanup operations of the service manager.

use crate::bytes;
use crate::bytes::{copy_into};
use vstd::prelude::*;

verus! {

/// The supervised service a diagnostic is about.
#[derive(Debug, Clone, Copy, PartialEq, Eq, Structural)]
pub enum Service {
    Definition,
    Logging,
    Nullfs,
    Tmpfs,
    Vfs,
}

impl Service {
    pub open spec fn spec_name(self) -> Seq<char> {
        match self {
            Self::Definition => "definition"@,
            Self::Logging => "logging"@,
            Self::Nullfs => "nullfs"@,
            Self::Tmpfs => "tmpfs"@,
            Self::Vfs => "vfs"@,
        }
    }

    /// The name used in diagnostics.
    pub fn name(self) -> (name: &'static str)
        ensures
            name@ == self.spec_name(),
    {
        match self {
            Self::Definition => "definition",
            Self::Logging => "logging",
            Self::Nullfs => "nullfs",
            Self::Tmpfs => "tmpfs",
            Self::Vfs => "vfs",
        }
    }
}

/// The cleanup phase a diagnostic is about.
#[derive(Debug, Clone, Copy, PartialEq, Eq, Structural)]
pub enum Phase {
    LeaderReap,
    UnassignedProcessGroup,
    EmptyJobInspection,
    JobDrain,
    ResourceRelease,
}

impl Phase {
    pub open spec fn spec_name(self) -> Seq<char> {
        match self {
            Self::LeaderReap => "leader-reap"@,
            Self::UnassignedProcessGroup => "unassigned-process-group"@,
            Self::EmptyJobInspection => "empty-job-inspection"@,
            Self::JobDrain => "job-drain"@,
            Self::ResourceRelease => "resource-release"@,
        }
    }

    /// The name used in diagnostics.
    pub fn name(self) -> (name: &'static str)
        ensures
            name@ == self.spec_name(),
    {
        match self {
            Self::LeaderReap => "leader-reap",
            Self::UnassignedProcessGroup => "unassigned-process-group",
            Self::EmptyJobInspection => "empty-job-inspection",
            Self::JobDrain => "job-drain",
            Self::ResourceRelease => "resource-release",
        }
    }
}

/// The kernel operation a diagnostic is about.
#[derive(Debug, Clone, Copy, PartialEq, Eq, Structural)]
pub enum Operation {
    SignalProcessGroup,
    TryWaitChild,
    JobTerminate,
    JobTryWait,
    CapabilityClose,
    LaunchBarrierRelease,
    YieldNow,
}

impl Operation {
    pub open spec fn spec_name(self) -> Seq<char> {
        match self {
            Self::SignalProcessGroup => "signal-process-group"@,
            Self::TryWaitChild => "try-wait-child"@,
            Self::JobTerminate => "job-terminate"@,
            Self::JobTryWait => "job-try-wait"@,
            Self::CapabilityClose => "capability-close"@,
            Self::LaunchBarrierRelease => "launch-barrier-release"@,
            Self::YieldNow => "yield-now"@,
        }
    }

    /// The name used in diagnostics.
    pub fn name(self) -> (name: &'static str)
        ensures
            name@ == self.spec_name(),
    {
        match self {
            Self::SignalProcessGroup => "signal-process-group",
            Self::TryWaitChild => "try-wait-child",
            Self::JobTerminate => "job-terminate",
            Self::JobTryWait => "job-try-wait",
            Self::CapabilityClose => "capability-close",
            Self::LaunchBarrierRelease => "launch-barrier-release",
            Self::YieldNow => "yield-now",
        }
    }
}

/// What was observed instead of the expected outcome.
#[derive(Debug, Clone, Copy, PartialEq, Eq, Structural)]
pub enum Observation {
    UnexpectedSuccess { value: u64, auxiliary: u64 },
    Error { code: i32 },
    MissingHandle,
    BudgetExhausted { attempts: u32 },
}

/// One cleanup diagnostic.
#[derive(Debug, Clone, Copy, PartialEq, Eq, Structural)]
pub struct Diagnostic {
    pub service: Service,
    pub phase: Phase,
    pub operation: Operation,
    pub observation: Observation,
}

/// The decimal digits of `value`, most significant first.
pub open spec fn decimal(value: nat) -> Seq<u8>
    decreases value,
{
    if value < 10 {
        seq![(0x30 + value) as u8]
    } else {
        decimal(value / 10).push((0x30 + value % 10) as u8)
    }
}

/// The bytes of an ASCII literal.
pub open spec fn ascii(text: Seq<char>) -> Seq<u8> {
    vstd::utf8::encode_utf8(text)
}

/// Writes `pieces` one after another into `out` from `at`, and stops at the first that no longer
/// fits. Gives the buffer and, if every piece fitted, the index behind the last.
pub open spec fn emit(out: Seq<u8>, at: nat, pieces: Seq<Seq<u8>>) -> (Seq<u8>, Option<nat>)
    decreases pieces.len(),
{
    if pieces.len() == 0 {
        (out, Some(at))
    } else if at + pieces[0].len() > out.len() {
        (out, None)
    } else {
        emit(
            bytes::overlay(out, at as int, pieces[0]),
            at + pieces[0].len(),
            pieces.drop_first(),
        )
    }
}

/// All pieces in one sequence.
pub open spec fn joined(pieces: Seq<Seq<u8>>) -> Seq<u8>
    decreases pieces.len(),
{
    if pieces.len() == 0 {
        seq![]
    } else {
        pieces[0] + joined(pieces.drop_first())
    }
}

impl Observation {
    /// The pieces of text that describe the observation.
    pub open spec fn pieces(self) -> Seq<Seq<u8>> {
        match self {
            Self::UnexpectedSuccess { value, auxiliary } => seq![
                ascii(" result=unexpected-success value="@),
                decimal(value as nat),
                ascii(" auxiliary="@),
                decimal(auxiliary as nat),
            ],
            Self::Error { code } => if code < 0 {
                seq![ascii(" result=error code="@), ascii("-"@), decimal((-code) as nat)]
            } else {
                seq![ascii(" result=error code="@), decimal(code as nat)]
            },
            Self::MissingHandle => seq![ascii(" result=missing-handle"@)],
            Self::BudgetExhausted { attempts } => seq![
                ascii(" result=budget-exhausted attempts="@),
                decimal(attempts as nat),
            ],
        }
    }
}

impl Diagnostic {
    /// The pieces of text that make up the diagnostic line.
    pub open spec fn pieces(self) -> Seq<Seq<u8>> {
        seq![
            ascii("init: cleanup service="@),
            ascii(self.service.spec_name()),
            ascii(" phase="@),
            ascii(self.phase.spec_name()),
            ascii(" operation="@),
            ascii(self.operation.spec_name()),
        ] + self.observation.pieces() + seq![ascii("\n"@)]
    }

    /// Writes the diagnostic line into `output` and returns its length, or `None` if the buffer
    /// is too small.
    pub fn encode(self, output: &mut [u8]) -> (length: Option<usize>)
        ensures
            final(output)@ == emit(old(output)@, 0, self.pieces()).0,
            match length {
                Some(length) => emit(old(output)@, 0, self.pieces()).1 == Some(length as nat),
                None => emit(old(output)@, 0, self.pieces()).1 is None,
            },
    {
        let ghost all = self.pieces();
        let ghost start = output@;
        proof {
            lemma_emit_step_all(start, 0, all);
        }
        let mut at: usize = 0;
        let ghost mut done: nat = 0;
        at = push(output, at, "init: cleanup service=".as_bytes(), Ghost(all), Ghost(start), Ghost(0))?;
        at = push(output, at, self.service.name().as_bytes(), Ghost(all), Ghost(start), Ghost(1))?;
        at = push(output, at, " phase=".as_bytes(), Ghost(all), Ghost(start), Ghost(2))?;
        at = push(output, at, self.phase.name().as_bytes(), Ghost(all), Ghost(start), Ghost(3))?;
        at = push(output, at, " operation=".as_bytes(), Ghost(all), Ghost(start), Ghost(4))?;
        at = push(output, at, self.operation.name().as_bytes(), Ghost(all), Ghost(start), Ghost(5))?;
        match self.observation {
            Observation::UnexpectedSuccess { value, auxiliary } => {
                at = push(output, at, " result=unexpected-success value=".as_bytes(), Ghost(all), Ghost(start), Ghost(6))?;
                at = push_u64(output, at, value, Ghost(all), Ghost(start), Ghost(7))?;
                at = push(output, at, " auxiliary=".as_bytes(), Ghost(all), Ghost(start), Ghost(8))?;
                at = push_u64(output, at, auxiliary, Ghost(all), Ghost(start), Ghost(9))?;
                proof {
                    done = 10;
                }
            },
            Observation::Error { code } => {
                at = push(output, at, " result=error code=".as_bytes(), Ghost(all), Ghost(start), Ghost(6))?;
                if code < 0 {
                    at = push(output, at, "-".as_bytes(), Ghost(all), Ghost(start), Ghost(7))?;
                    at = push_u64(output, at, (-(code as i64)) as u64, Ghost(all), Ghost(start), Ghost(8))?;
                    proof {
                        done = 9;
                    }
                } else {
                    at = push_u64(output, at, code as u64, Ghost(all), Ghost(start), Ghost(7))?;
                    proof {
                        done = 8;
                    }
                }
            },
            Observation::MissingHandle => {
                at = push(output, at, " result=missing-handle".as_bytes(), Ghost(all), Ghost(start), Ghost(6))?;
                proof {
                    done = 7;
                }
            },
            Observation::BudgetExhausted { attempts } => {
                at = push(output, at, " result=budget-exhausted attempts=".as_bytes(), Ghost(all), Ghost(start), Ghost(6))?;
                at = push_u64(output, at, attempts as u64, Ghost(all), Ghost(start), Ghost(7))?;
                proof {
                    done = 8;
                }
            },
        }
        at = push(output, at, "\n".as_bytes(), Ghost(all), Ghost(start), Ghost(done))?;
        Some(at)
    }
}

/// Emitting the pieces from `index` on, starting at `at` in `out`, gives what emitting all pieces
/// from the start of `start` gives.
pub open spec fn on_course(out: Seq<u8>, at: nat, start: Seq<u8>, all: Seq<Seq<u8>>, index: nat) -> bool {
    &&& index <= all.len()
    &&& at <= out.len()
    &&& emit(out, at, all.skip(index as int)) == emit(start, 0, all)
}

proof fn lemma_emit_step_all(start: Seq<u8>, at: nat, all: Seq<Seq<u8>>)
    ensures
        on_course(start, 0, start, all, 0),
{
    assert(all.skip(0) =~= all);
}

/// Appends one piece of text.
fn push(
    output: &mut [u8],
    at: usize,
    piece: &[u8],
    Ghost(all): Ghost<Seq<Seq<u8>>>,
    Ghost(start): Ghost<Seq<u8>>,
    Ghost(index): Ghost<nat>,
) -> (next: Option<usize>)
    requires
        on_course(old(output)@, at as nat, start, all, index),
        index < all.len(),
        all[index as int] == piece@,
    ensures
        match next {
            Some(next) => {
                &&& on_course(final(output)@, next as nat, start, all, index + 1)
                &&& index + 1 == all.len() ==> emit(start, 0, all) == (
                    final(output)@,
                    Some(next as nat),
                )
            },
            None => emit(start, 0, all) == (final(output)@, None::<nat>),
        },
{
    proof {
        assert(all.skip(index as int)[0] == piece@);
        assert(all.skip(index as int).drop_first() =~= all.skip((index + 1) as int));
    }
    if piece.len() > output.len() - at {
        return None;
    }
    copy_into(output, at, piece);
    Some(at + piece.len())
}

/// Appends the decimal digits of `value`.
fn push_u64(
    output: &mut [u8],
    at: usize,
    value: u64,
    Ghost(all): Ghost<Seq<Seq<u8>>>,
    Ghost(start): Ghost<Seq<u8>>,
    Ghost(index): Ghost<nat>,
) -> (next: Option<usize>)
    requires
        on_course(old(output)@, at as nat, start, all, index),
        index < all.len(),
        all[index as int] == decimal(value as nat),
    ensures
        match next {
            Some(next) => {
                &&& on_course(final(output)@, next as nat, start, all, index + 1)
                &&& index + 1 == all.len() ==> emit(start, 0, all) == (
                    final(output)@,
                    Some(next as nat),
                )
            },
            None => emit(start, 0, all) == (final(output)@, None::<nat>),
        },
{
    let digits: Vec<u8> = decimal_digits(value);
    push(output, at, digits.as_slice(), Ghost(all), Ghost(start), Ghost(index))
}

/// The decimal digits of `value`, most significant first.
pub fn decimal_digits(value: u64) -> (digits: Vec<u8>)
    ensures
        digits@ == decimal(value as nat),
    decreases value,
{
    let digit: u8 = 0x30 + (value % 10) as u8;
    let mut digits: Vec<u8> = if value < 10 { Vec::new() } else { decimal_digits(value / 10) };
    digits.push(digit);
    assert(value < 10 ==> digits@ =~= decimal(value as nat));
    digits
}

/// A diagnostic fits exactly if its whole line does, and then the line stands at the start of the
/// buffer while every byte behind it is untouched.
pub proof fn lemma_diagnostic_is_its_line(out: Seq<u8>, diagnostic: Diagnostic)
    ensures
        ({
            let line = joined(diagnostic.pieces());
            let (written, length) = emit(out, 0, diagnostic.pieces());
            &&& length is Some <==> line.len() <= out.len()
            &&& length matches Some(length) ==> {
                &&& length == line.len()
                &&& written =~= line + out.skip(line.len() as int)
            }
        }),
{
    lemma_emit(out, 0, diagnostic.pieces());
    let line = joined(diagnostic.pieces());
    if line.len() <= out.len() {
        assert(bytes::overlay(out, 0, line) =~= line + out.skip(line.len() as int));
    }
}

proof fn lemma_emit(out: Seq<u8>, at: nat, pieces: Seq<Seq<u8>>)
    requires
        at <= out.len(),
    ensures
        emit(out, at, pieces).1 is Some <==> at + joined(pieces).len() <= out.len(),
        emit(out, at, pieces).1 matches Some(end) ==> {
            &&& end == at + joined(pieces).len()
            &&& emit(out, at, pieces).0 =~= bytes::overlay(out, at as int, joined(pieces))
        },
    decreases pieces.len(),
{
    if pieces.len() == 0 {
        assert(bytes::overlay(out, at as int, joined(pieces)) =~= out);
    } else if at + pieces[0].len() <= out.len() {
        let next = bytes::overlay(out, at as int, pieces[0]);
        let rest = pieces.drop_first();
        lemma_emit(next, at + pieces[0].len(), rest);
        if at + joined(pieces).len() <= out.len() {
            assert(bytes::overlay(next, (at + pieces[0].len()) as int, joined(rest)) =~= bytes::overlay(
                out,
                at as int,
                joined(pieces),
            ));
        }
    }
}

/// What a cleanup loop does next.
#[derive(Debug, Clone, Copy, PartialEq, Eq, Structural)]
pub enum Action {
    Progress,
    Pending,
    Complete,
    Retry,
    Unexpected(Observation),
}

/// Classifies the result of signalling a process group.
#[verifier::allow_in_spec]
pub fn classify_group_signal(result: Result<usize, i32>, no_child: i32) -> Action
    returns
        (match result {
            Ok(count) => if count == 0 {
                Action::Unexpected(Observation::UnexpectedSuccess { value: 0, auxiliary: 0 })
            } else {
                Action::Progress
            },
            Err(code) => if code == no_child {
                Action::Complete
            } else {
                Action::Unexpected(Observation::Error { code })
            },
        }),
{
    match result {
        Ok(0) => Action::Unexpected(Observation::UnexpectedSuccess { value: 0, auxiliary: 0 }),
        Ok(_) => Action::Progress,
        Err(code) => if code == no_child {
            Action::Complete
        } else {
            Action::Unexpected(Observation::Error { code })
        },
    }
}

/// Classifies the result of terminating a job. A job with nothing left to terminate is progress.
#[verifier::allow_in_spec]
pub fn classify_job_terminate(result: Result<usize, i32>) -> Action
    returns
        (match result {
            Ok(_) => Action::Progress,
            Err(code) => Action::Unexpected(Observation::Error { code }),
        }),
{
    match result {
        Ok(_) => Action::Progress,
        Err(code) => Action::Unexpected(Observation::Error { code }),
    }
}

/// The result of polling a job for an exited process.
#[derive(Debug, Clone, Copy, PartialEq, Eq, Structural)]
pub enum JobWaitResult {
    Exit { process_id: u64, status: u64 },
    Error(i32),
}

/// Classifies a job poll, either while draining or where the job must already be empty.
#[verifier::allow_in_spec]
pub fn classify_job_wait(
    result: JobWaitResult,
    try_again: i32,
    no_child: i32,
    expect_empty: bool,
) -> Action
    returns
        (match result {
            JobWaitResult::Exit { process_id, status } => if expect_empty {
                Action::Unexpected(
                    Observation::UnexpectedSuccess { value: process_id, auxiliary: status },
                )
            } else {
                Action::Progress
            },
            JobWaitResult::Error(code) => if code == no_child {
                Action::Complete
            } else if code == try_again && !expect_empty {
                Action::Pending
            } else {
                Action::Unexpected(Observation::Error { code })
            },
        }),
{
    match result {
        JobWaitResult::Exit { process_id, status } => if expect_empty {
            Action::Unexpected(
                Observation::UnexpectedSuccess { value: process_id, auxiliary: status },
            )
        } else {
            Action::Progress
        },
        JobWaitResult::Error(code) => if code == no_child {
            Action::Complete
        } else if code == try_again && !expect_empty {
            Action::Pending
        } else {
            Action::Unexpected(Observation::Error { code })
        },
    }
}

/// The result of polling the leader of a service process group.
#[derive(Debug, Clone, Copy, PartialEq, Eq, Structural)]
pub enum LeaderResult {
    Terminal,
    Transitional,
    Error(i32),
}

/// Classifies a poll of the group leader.
#[verifier::allow_in_spec]
pub fn classify_leader_wait(
    result: LeaderResult,
    try_again: i32,
    interrupted: i32,
    no_child: i32,
) -> Action
    returns
        (match result {
            LeaderResult::Terminal => Action::Complete,
            LeaderResult::Transitional => Action::Pending,
            LeaderResult::Error(code) => if code == interrupted {
                Action::Retry
            } else if code == try_again {
                Action::Pending
            } else if code == no_child {
                Action::Complete
            } else {
                Action::Unexpected(Observation::Error { code })
            },
        }),
{
    match result {
        LeaderResult::Terminal => Action::Complete,
        LeaderResult::Transitional => Action::Pending,
        LeaderResult::Error(code) => if code == interrupted {
            Action::Retry
        } else if code == try_again {
            Action::Pending
        } else if code == no_child {
            Action::Complete
        } else {
            Action::Unexpected(Observation::Error { code })
        },
    }
}

/// Classifies an operation that has no result but success.
#[verifier::allow_in_spec]
pub fn classify_unit(result: Result<(), i32>) -> Action
    returns
        (match result {
            Ok(_) => Action::Complete,
            Err(code) => Action::Unexpected(Observation::Error { code }),
        }),
{
    match result {
        Ok(()) => Action::Complete,
        Err(code) => Action::Unexpected(Observation::Error { code }),
    }
}

} // verus!
