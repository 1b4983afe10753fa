//! Showing the history of the log.

use crate::ipc::CapabilityHandle;
use crate::kernel;
use crate::kernel::Kernel;
use crate::logging_session;
use crate::logging_session::{ClientBootstrap, ClientTransport};
use crate::procedure;
use crate::procedure::close_quietly;
use crate::service_cleanup;
use crate::service_cleanup::decimal_digits;
use crate::syscall;
use crate::syscall::{write_all, yield_now, STDOUT};
use vstd::prelude::*;

verus! {

/// How often something is waited for.
pub const MAX_YIELDS: u32 = 65_536;

/// Why the history was not shown.
#[derive(Clone, Copy, Debug, PartialEq, Eq, Structural)]
pub enum ShowError {
    Connect,
    Query,
    HistoryChanged,
    Output,
}

/// The number of a record, which is never zero.
#[derive(Clone, Copy, Debug, PartialEq, Eq, Structural)]
pub struct RecordId {
    pub raw: u64,
}

/// A number that no record has.
#[derive(Clone, Copy, Debug, PartialEq, Eq, Structural)]
pub struct InvalidRecordId;

impl RecordId {
    #[verifier::allow_in_spec]
    pub fn new(raw: u64) -> Result<Self, InvalidRecordId>
        returns
            (if raw == 0 {
                Err(InvalidRecordId)
            } else {
                Ok(RecordId { raw })
            }),
    {
        if raw == 0 {
            Err(InvalidRecordId)
        } else {
            Ok(RecordId { raw })
        }
    }

    #[verifier::allow_in_spec]
    pub fn get(self) -> u64
        returns
            self.raw,
    {
        self.raw
    }
}

/// What the collector says of itself.
#[derive(Clone, Copy, Debug, PartialEq, Eq, Structural)]
pub struct CollectorStats {
    pub received_records: u64,
    pub retained_records: u64,
    pub capacity_records: u64,
    pub evicted_records: u64,
    pub dropped_records: u64,
    pub redacted_records: u64,
    pub oldest_record_id: Option<RecordId>,
    pub newest_record_id: Option<RecordId>,
}

/// How far a history that was there at one moment has been shown.
#[derive(Clone, Copy, Debug, PartialEq, Eq, Structural)]
pub struct SnapshotProgress {
    pub expected: RecordId,
    pub high_water: RecordId,
    pub remaining: u64,
}

impl SnapshotProgress {
    /// What there is to show: nothing, or a first and a last record. Anything else cannot be.
    #[verifier::allow_in_spec]
    pub fn new(stats: CollectorStats) -> Result<Option<Self>, ShowError>
        returns
            (match (stats.oldest_record_id, stats.newest_record_id) {
                (None, None) => if stats.retained_records == 0 {
                    Ok(None)
                } else {
                    Err(ShowError::Query)
                },
                (Some(expected), Some(high_water)) => if stats.retained_records != 0 {
                    Ok(
                        Some(
                            SnapshotProgress {
                                expected,
                                high_water,
                                remaining: stats.retained_records,
                            },
                        ),
                    )
                } else {
                    Err(ShowError::Query)
                },
                _ => Err(ShowError::Query),
            }),
    {
        match (stats.oldest_record_id, stats.newest_record_id) {
            (None, None) => {
                if stats.retained_records == 0 {
                    Ok(None)
                } else {
                    Err(ShowError::Query)
                }
            },
            (Some(expected), Some(high_water)) => {
                if stats.retained_records != 0 {
                    Ok(
                        Some(
                            SnapshotProgress {
                                expected,
                                high_water,
                                remaining: stats.retained_records,
                            },
                        ),
                    )
                } else {
                    Err(ShowError::Query)
                }
            },
            _ => Err(ShowError::Query),
        }
    }

    /// What is left to show after a record, and whether that was the last one. A record that is
    /// not the expected one means that the history is another by now.
    pub open spec fn accepted(self, record_id: RecordId) -> (SnapshotProgress, Result<
        bool,
        ShowError,
    >) {
        if record_id != self.expected || record_id.raw > self.high_water.raw || self.remaining
            == 0 {
            (self, Err(ShowError::HistoryChanged))
        } else {
            let less = SnapshotProgress { remaining: (self.remaining - 1) as u64, ..self };
            let last = record_id == self.high_water;
            if last && less.remaining == 0 {
                (less, Ok(true))
            } else if last || less.remaining == 0 || record_id.raw == u64::MAX {
                (less, Err(ShowError::HistoryChanged))
            } else {
                (
                    SnapshotProgress {
                        expected: RecordId { raw: (record_id.raw + 1) as u64 },
                        ..less
                    },
                    Ok(false),
                )
            }
        }
    }

    pub fn accept(&mut self, record_id: RecordId) -> (result: Result<bool, ShowError>)
        ensures
            (*final(self), result) == old(self).accepted(record_id),
    {
        if record_id != self.expected || record_id.raw > self.high_water.raw || self.remaining
            == 0 {
            return Err(ShowError::HistoryChanged);
        }
        self.remaining -= 1;
        if record_id == self.high_water {
            return if self.remaining == 0 {
                Ok(true)
            } else {
                Err(ShowError::HistoryChanged)
            };
        }
        if self.remaining == 0 {
            return Err(ShowError::HistoryChanged);
        }
        let next: u64 = match record_id.get().checked_add(1) {
            Some(next) => next,
            None => {
                return Err(ShowError::HistoryChanged);
            },
        };
        match RecordId::new(next) {
            Ok(expected) => {
                self.expected = expected;
                Ok(false)
            },
            Err(_) => Err(ShowError::HistoryChanged),
        }
    }

    /// Whether these records, one after the other, are shown to the end.
    pub open spec fn completed_by(self, records: Seq<RecordId>) -> bool
        decreases records.len(),
    {
        if records.len() == 0 {
            false
        } else {
            match self.accepted(records[0]) {
                (_, Ok(true)) => records.len() == 1,
                (next, Ok(false)) => next.completed_by(records.drop_first()),
                (_, Err(_)) => false,
            }
        }
    }
}

/// A history is shown to its end exactly if it is the one that was there: as many records as were
/// retained, from the oldest to the newest, each one following the one before.
pub proof fn lemma_shown_history_is_the_snapshot(
    progress: SnapshotProgress,
    records: Seq<RecordId>,
)
    ensures
        progress.completed_by(records) <==> {
            &&& records.len() == progress.remaining
            &&& records.len() > 0
            &&& records.last() == progress.high_water
            &&& forall|i: int|
                0 <= i < records.len() ==> (#[trigger] records[i]).raw == progress.expected.raw + i
        },
    decreases records.len(),
{
    if records.len() > 0 {
        let (next, result) = progress.accepted(records[0]);
        let rest = records.drop_first();
        if result == Ok::<bool, ShowError>(false) {
            lemma_shown_history_is_the_snapshot(next, rest);
            if progress.completed_by(records) {
                assert forall|i: int| 0 <= i < records.len() implies (#[trigger] records[i]).raw
                    == progress.expected.raw + i by {
                    if i > 0 {
                        assert(records[i] == rest[i - 1]);
                    }
                }
                assert(rest.last() == records.last());
            }
            if records.len() == progress.remaining && records.last() == progress.high_water && (
            forall|i: int|
                0 <= i < records.len() ==> (#[trigger] records[i]).raw == progress.expected.raw
                    + i) {
                assert(rest.len() == next.remaining);
                assert forall|i: int| 0 <= i < rest.len() implies (#[trigger] rest[i]).raw
                    == next.expected.raw + i by {
                    assert(rest[i] == records[i + 1]);
                }
                assert(rest.last() == records.last());
            }
        } else {
            if records.len() == progress.remaining && records.last() == progress.high_water && (
            forall|i: int|
                0 <= i < records.len() ==> (#[trigger] records[i]).raw == progress.expected.raw
                    + i) {
                assert(records[0].raw == progress.expected.raw);
                assert(records[records.len() - 1].raw == progress.expected.raw + records.len()
                    - 1);
            }
        }
    }
}

/// How severe a record is.
#[derive(Clone, Copy, Debug, PartialEq, Eq, Structural)]
pub enum LogSeverity {
    Trace,
    Debug,
    Info,
    Notice,
    Warning,
    Error,
    Critical,
    Alert,
    Emergency,
}

impl LogSeverity {
    pub open spec fn spelled(self) -> Seq<char> {
        match self {
            LogSeverity::Trace => "trace"@,
            LogSeverity::Debug => "debug"@,
            LogSeverity::Info => "info"@,
            LogSeverity::Notice => "notice"@,
            LogSeverity::Warning => "warning"@,
            LogSeverity::Error => "error"@,
            LogSeverity::Critical => "critical"@,
            LogSeverity::Alert => "alert"@,
            LogSeverity::Emergency => "emergency"@,
        }
    }
}

pub fn severity_name(severity: LogSeverity) -> (name: &'static [u8])
    ensures
        name@ == service_cleanup::ascii(severity.spelled()),
{
    let name = match severity {
        LogSeverity::Trace => "trace",
        LogSeverity::Debug => "debug",
        LogSeverity::Info => "info",
        LogSeverity::Notice => "notice",
        LogSeverity::Warning => "warning",
        LogSeverity::Error => "error",
        LogSeverity::Critical => "critical",
        LogSeverity::Alert => "alert",
        LogSeverity::Emergency => "emergency",
    };
    name.as_bytes()
}

/// Where a record comes from.
#[derive(Clone, Copy, Debug, PartialEq, Eq, Structural)]
pub enum HistorySource {
    Process { process_id: u64 },
    Kernel { sequence: u64 },
}

/// A record of the history.
#[derive(Clone, Debug)]
pub struct HistoryRecord {
    pub record_id: RecordId,
    pub severity: LogSeverity,
    pub source: HistorySource,
    pub subsystem: Vec<u8>,
    pub message: Vec<u8>,
}

impl HistoryRecord {
    /// What is written of the record, piece by piece.
    pub open spec fn pieces(self) -> Seq<Seq<u8>> {
        let (origin, number) = match self.source {
            HistorySource::Process { process_id } => ("pid="@, process_id),
            HistorySource::Kernel { sequence } => ("kernel#"@, sequence),
        };
        seq![
            service_cleanup::decimal(self.record_id.raw as nat),
            service_cleanup::ascii(" "@),
            service_cleanup::ascii(self.severity.spelled()),
            service_cleanup::ascii(" "@),
            service_cleanup::ascii(origin),
            service_cleanup::decimal(number as nat),
            service_cleanup::ascii(" "@),
            self.subsystem@,
            service_cleanup::ascii(": "@),
            self.message@,
            service_cleanup::ascii("\n"@),
        ]
    }
}

/// Writing to the standard output stream.
pub open spec fn literal_run(k: kernel::Transcript, bytes: Seq<u8>) -> (
    kernel::Transcript,
    Option<Result<(), ShowError>>,
) {
    let (asked, written) = syscall::write_all_run(k, STDOUT, bytes);
    (
        asked,
        match written {
            None => None,
            Some(Ok(_)) => Some(Ok(())),
            Some(Err(_)) => Some(Err(ShowError::Output)),
        },
    )
}

/// Writing pieces one after the other, up to the first that cannot be written.
pub open spec fn pieces_run(k: kernel::Transcript, pieces: Seq<Seq<u8>>) -> (
    kernel::Transcript,
    Option<Result<(), ShowError>>,
)
    decreases pieces.len(),
{
    if pieces.len() == 0 {
        (k, Some(Ok(())))
    } else {
        match literal_run(k, pieces[0]) {
            (asked, Some(Ok(_))) => pieces_run(asked, pieces.drop_first()),
            (asked, failed) => (asked, failed),
        }
    }
}

/// Writes to the standard output stream.
pub fn write_literal(k: &mut Kernel, bytes: &[u8]) -> (result: Option<Result<(), ShowError>>)
    ensures
        (final(k)@, result) == literal_run(old(k)@, bytes@),
{
    match write_all(k, STDOUT, bytes)? {
        Ok(_) => Some(Ok(())),
        Err(_) => Some(Err(ShowError::Output)),
    }
}

/// Writes the decimal digits of a number.
pub fn write_decimal(k: &mut Kernel, value: u64) -> (result: Option<Result<(), ShowError>>)
    ensures
        (final(k)@, result) == literal_run(old(k)@, service_cleanup::decimal(value as nat)),
{
    let digits = decimal_digits(value);
    write_literal(k, digits.as_slice())
}

/// Writes a piece that is the next one of those that are left.
fn write_piece(k: &mut Kernel, piece: &[u8], Ghost(left): Ghost<Seq<Seq<u8>>>) -> (result: Option<
    Result<(), ShowError>,
>)
    requires
        left.len() > 0,
        piece@ == left[0],
    ensures
        match result {
            Some(Ok(_)) => pieces_run(old(k)@, left) == pieces_run(final(k)@, left.drop_first()),
            _ => pieces_run(old(k)@, left) == (final(k)@, result),
        },
{
    write_literal(k, piece)
}

/// Writes a record as one line.
pub fn print_record(k: &mut Kernel, record: &HistoryRecord) -> (result: Option<
    Result<(), ShowError>,
>)
    ensures
        (final(k)@, result) == pieces_run(old(k)@, record.pieces()),
{
    let (origin, number) = match record.source {
        HistorySource::Process { process_id } => ("pid=", process_id),
        HistorySource::Kernel { sequence } => ("kernel#", sequence),
    };
    let record_id = decimal_digits(record.record_id.get());
    let number = decimal_digits(number);
    let pieces: [&[u8]; 11] = [
        record_id.as_slice(),
        " ".as_bytes(),
        severity_name(record.severity),
        " ".as_bytes(),
        origin.as_bytes(),
        number.as_slice(),
        " ".as_bytes(),
        record.subsystem.as_slice(),
        ": ".as_bytes(),
        record.message.as_slice(),
        "\n".as_bytes(),
    ];
    assert(pieces@.len() == 11);
    assert(record.pieces().len() == 11);
    assert(forall|i: int| 0 <= i < 11 ==> (#[trigger] pieces@[i])@ == record.pieces()[i]);
    assert(record.pieces().skip(0) =~= record.pieces());
    let mut next: usize = 0;
    while next < 11
        invariant
            next <= 11,
            pieces@.len() == 11,
            record.pieces().len() == 11,
            forall|i: int| 0 <= i < 11 ==> (#[trigger] pieces@[i])@ == record.pieces()[i],
            pieces_run(old(k)@, record.pieces()) == pieces_run(
                k@,
                record.pieces().skip(next as int),
            ),
        decreases 11 - next,
    {
        let ghost left = record.pieces().skip(next as int);
        assert(left[0] == record.pieces()[next as int]);
        match write_piece(k, pieces[next], Ghost(left))? {
            Ok(_) => {},
            Err(error) => {
                return Some(Err(error));
            },
        }
        assert(left.drop_first() =~= record.pieces().skip(next + 1));
        next += 1;
    }
    assert(record.pieces().skip(11) =~= seq![]);
    Some(Ok(()))
}

/// Yielding, as long as there is patience.
pub open spec fn bounded_run(k: kernel::Transcript, remaining: nat, error: ShowError) -> (
    kernel::Transcript,
    Option<Result<(), ShowError>>,
) {
    if remaining == 0 {
        (k, Some(Err(error)))
    } else {
        let (asked, yielded) = syscall::yield_run(k);
        (
            asked,
            match yielded {
                None => None,
                Some(Ok(_)) => Some(Ok(())),
                Some(Err(_)) => Some(Err(error)),
            },
        )
    }
}

/// Yields, as long as there is patience: how much is left.
pub fn yield_bounded(k: &mut Kernel, remaining: u32, error: ShowError) -> (result: Option<
    Result<u32, ShowError>,
>)
    ensures
        ({
            let (asked, outcome) = bounded_run(old(k)@, remaining as nat, error);
            &&& final(k)@ == asked
            &&& match result {
                None => outcome is None,
                Some(Ok(left)) => outcome == Some(Ok::<(), ShowError>(())) && remaining > 0
                    && left == remaining - 1,
                Some(Err(error)) => outcome == Some(Err::<(), _>(error)),
            }
        }),
{
    if remaining == 0 {
        return Some(Err(error));
    }
    match yield_now(k)? {
        Ok(_) => Some(Ok(remaining - 1)),
        Err(_) => Some(Err(error)),
    }
}

/// Opening a session with the collector, for a limited time. A session that does not open leaves
/// nothing behind.
pub open spec fn open_run(
    k: kernel::Transcript,
    bootstrap: logging_session::Bootstrap,
    remaining: nat,
) -> (kernel::Transcript, Option<Result<logging_session::Link, ShowError>>)
    decreases remaining,
{
    let (tried, next, outcome) = bootstrap.try_connect_run(k);
    match outcome {
        None => (tried, None),
        Some(Err(_)) => procedure::fail_after(next.close_run(tried), ShowError::Connect),
        Some(Ok(Some(link))) => (tried, Some(Ok(link))),
        Some(Ok(None)) => match bounded_run(tried, remaining, ShowError::Connect) {
            (rested, None) => (rested, None),
            (rested, Some(Err(error))) => procedure::fail_after(next.close_run(rested), error),
            (rested, Some(Ok(_))) => if remaining > 0 {
                open_run(rested, next, (remaining - 1) as nat)
            } else {
                (rested, None)
            },
        },
    }
}

/// Opening a session with the collector over an endpoint, which is given up if that is not
/// possible.
pub open spec fn connect_run(k: kernel::Transcript, ingress: CapabilityHandle) -> (
    kernel::Transcript,
    Option<Result<logging_session::Link, ShowError>>,
) {
    match logging_session::bootstrap_run(k, ingress) {
        (made, None) => (made, None),
        (made, Some(Err(_))) => procedure::fail_after(
            procedure::quiet_run(made, ingress),
            ShowError::Connect,
        ),
        (made, Some(Ok(bootstrap))) => open_run(made, bootstrap, MAX_YIELDS as nat),
    }
}

/// What a session is to the contracts.
pub open spec fn connect_view(result: Option<Result<ClientTransport, ShowError>>) -> Option<
    Result<logging_session::Link, ShowError>,
> {
    match result {
        None => None,
        Some(Ok(transport)) => Some(Ok(transport@)),
        Some(Err(error)) => Some(Err(error)),
    }
}

pub fn connect_observer(k: &mut Kernel, observer_ingress: CapabilityHandle) -> (result: Option<
    Result<ClientTransport, ShowError>,
>)
    ensures
        (final(k)@, connect_view(result)) == connect_run(old(k)@, observer_ingress),
{
    let mut bootstrap = match ClientBootstrap::new(k, observer_ingress)? {
        Ok(bootstrap) => bootstrap,
        Err(_) => {
            close_quietly(k, observer_ingress)?;
            return Some(Err(ShowError::Connect));
        },
    };
    let mut remaining: u32 = MAX_YIELDS;
    loop
        invariant
            connect_run(old(k)@, observer_ingress) == open_run(k@, bootstrap@, remaining as nat),
        decreases remaining,
    {
        match bootstrap.try_connect(k)? {
            Ok(Some(transport)) => {
                return Some(Ok(transport));
            },
            Ok(None) => {},
            Err(_) => {
                bootstrap.close(k)?;
                return Some(Err(ShowError::Connect));
            },
        }
        match yield_bounded(k, remaining, ShowError::Connect)? {
            Ok(left) => {
                remaining = left;
            },
            Err(error) => {
                bootstrap.close(k)?;
                return Some(Err(error));
            },
        }
    }
}

/// What the conversation with the collector waits for.
#[derive(Clone, Copy, Debug, PartialEq, Eq, Structural)]
pub enum Stage {
    Negotiate,
    Bind,
    AskStats,
    AwaitStats,
    Read { progress: SnapshotProgress, cursor: Option<RecordId> },
    Await { progress: SnapshotProgress },
    Print { progress: SnapshotProgress, record_id: RecordId },
    Over,
}

/// What is to be done next: something with the collector, a rest, or the record that came last is
/// printed. At the end the history is shown, or not.
#[derive(Clone, Copy, Debug, PartialEq, Eq, Structural)]
pub enum Action {
    Negotiate,
    Poll,
    AskStats,
    ReadHistory { after: Option<RecordId> },
    Yield,
    Print,
    Shown,
    Failed(ShowError),
}

/// What came of an action.
#[derive(Clone, Copy, Debug, PartialEq, Eq, Structural)]
pub enum Event {
    /// A request is on its way.
    Sent,
    /// A request cannot be sent yet.
    WouldBlock,
    /// Nothing has come.
    Nothing,
    /// The session is bound to a version of the protocol and to a generation of the service.
    Bound { minor: u16, service_generation: u64 },
    /// The collector says this of itself.
    Stats(CollectorStats),
    /// A record has come.
    Record(RecordId),
    /// There is no record.
    NoRecord,
    /// The process has rested.
    Rested,
    /// The record was printed.
    Printed,
    /// Whatever was done went wrong, or something came that is not understood.
    Failed,
}

impl Stage {
    /// Why the history is not shown if this stage goes wrong.
    #[verifier::allow_in_spec]
    pub fn error(self) -> ShowError
        returns
            (match self {
                Stage::Negotiate | Stage::Bind => ShowError::Connect,
                Stage::Print { .. } => ShowError::Output,
                _ => ShowError::Query,
            }),
    {
        match self {
            Stage::Negotiate | Stage::Bind => ShowError::Connect,
            Stage::Print { .. } => ShowError::Output,
            _ => ShowError::Query,
        }
    }

    /// What this stage asks for.
    #[verifier::allow_in_spec]
    pub fn request(self) -> Action
        returns
            (match self {
                Stage::Negotiate => Action::Negotiate,
                Stage::Bind | Stage::AwaitStats | Stage::Await { .. } => Action::Poll,
                Stage::AskStats => Action::AskStats,
                Stage::Read { cursor, .. } => Action::ReadHistory { after: cursor },
                Stage::Print { .. } => Action::Print,
                Stage::Over => Action::Failed(ShowError::Query),
            }),
    {
        match self {
            Stage::Negotiate => Action::Negotiate,
            Stage::Bind | Stage::AwaitStats | Stage::Await { .. } => Action::Poll,
            Stage::AskStats => Action::AskStats,
            Stage::Read { cursor, .. } => Action::ReadHistory { after: cursor },
            Stage::Print { .. } => Action::Print,
            Stage::Over => Action::Failed(ShowError::Query),
        }
    }
}

/// The conversation with the collector.
#[derive(Clone, Copy, Debug, PartialEq, Eq, Structural)]
pub struct Show {
    pub minor: u16,
    pub service_generation: u64,
    pub stage: Stage,
    pub remaining: u32,
    pub resting: bool,
}

impl Show {
    /// The conversation with the generation of the service that the session was opened with, in
    /// the version of the protocol that knows the history of the kernel.
    #[verifier::allow_in_spec]
    pub fn new(minor: u16, service_generation: u64) -> Self
        returns
            (Show {
                minor,
                service_generation,
                stage: Stage::Negotiate,
                remaining: MAX_YIELDS,
                resting: false,
            }),
    {
        Show {
            minor,
            service_generation,
            stage: Stage::Negotiate,
            remaining: MAX_YIELDS,
            resting: false,
        }
    }

    /// The conversation at the beginning of a stage.
    #[verifier::allow_in_spec]
    pub fn entering(self, stage: Stage) -> (Self, Action)
        returns
            (
                Show { stage, remaining: MAX_YIELDS, resting: false, ..self },
                stage.request(),
            ),
    {
        (Show { stage, remaining: MAX_YIELDS, resting: false, ..self }, stage.request())
    }

    /// The conversation at its end.
    #[verifier::allow_in_spec]
    pub fn ending(self, action: Action) -> (Self, Action)
        returns
            (Show { stage: Stage::Over, resting: false, ..self }, action),
    {
        (Show { stage: Stage::Over, resting: false, ..self }, action)
    }

    /// The conversation while it rests, as long as there is patience.
    #[verifier::allow_in_spec]
    pub fn waiting(self) -> (Self, Action)
        returns
            (if self.remaining == 0 {
                self.ending(Action::Failed(self.stage.error()))
            } else {
                (
                    Show { remaining: (self.remaining - 1) as u32, resting: true, ..self },
                    Action::Yield,
                )
            }),
    {
        if self.remaining == 0 {
            self.ending(Action::Failed(self.stage.error()))
        } else {
            (Show { remaining: self.remaining - 1, resting: true, ..self }, Action::Yield)
        }
    }

    /// What the conversation comes to when the collector has said how much there is.
    pub open spec fn told(self, stats: CollectorStats) -> (Self, Action) {
        match SnapshotProgress::new(stats) {
            Ok(None) => self.ending(Action::Shown),
            Ok(Some(progress)) => self.entering(Stage::Read { progress, cursor: None }),
            Err(error) => self.ending(Action::Failed(error)),
        }
    }

    /// What the conversation comes to when a record has come: only the expected one is printed.
    pub open spec fn brought(self, progress: SnapshotProgress, record_id: RecordId) -> (
        Self,
        Action,
    ) {
        if record_id != progress.expected || record_id.raw > progress.high_water.raw {
            self.ending(Action::Failed(ShowError::HistoryChanged))
        } else {
            self.entering(Stage::Print { progress, record_id })
        }
    }

    /// What the conversation comes to when a record was printed.
    pub open spec fn printed(self, progress: SnapshotProgress, record_id: RecordId) -> (
        Self,
        Action,
    ) {
        match progress.accepted(record_id) {
            (_, Ok(true)) => self.ending(Action::Shown),
            (next, Ok(false)) => self.entering(
                Stage::Read { progress: next, cursor: Some(record_id) },
            ),
            (_, Err(error)) => self.ending(Action::Failed(error)),
        }
    }

    /// What an event leads to.
    pub open spec fn stepped(self, event: Event) -> (Self, Action) {
        if self.resting {
            if event == Event::Rested {
                (Show { resting: false, ..self }, self.stage.request())
            } else {
                self.ending(Action::Failed(self.stage.error()))
            }
        } else {
            match (self.stage, event) {
                (Stage::Negotiate, Event::Sent) => self.entering(Stage::Bind),
                (Stage::AskStats, Event::Sent) => self.entering(Stage::AwaitStats),
                (Stage::Read { progress, .. }, Event::Sent) => self.entering(
                    Stage::Await { progress },
                ),
                (Stage::Negotiate, Event::WouldBlock) => self.waiting(),
                (Stage::AskStats, Event::WouldBlock) => self.waiting(),
                (Stage::Read { .. }, Event::WouldBlock) => self.waiting(),
                (Stage::Bind, Event::Nothing) => self.waiting(),
                (Stage::AwaitStats, Event::Nothing) => self.waiting(),
                (Stage::Await { .. }, Event::Nothing) => self.waiting(),
                (Stage::Bind, Event::Bound { minor, service_generation }) => if minor == self.minor
                    && service_generation == self.service_generation {
                    self.entering(Stage::AskStats)
                } else {
                    self.ending(Action::Failed(ShowError::Connect))
                },
                (Stage::AwaitStats, Event::Stats(stats)) => self.told(stats),
                (Stage::Await { .. }, Event::NoRecord) => self.ending(
                    Action::Failed(ShowError::HistoryChanged),
                ),
                (Stage::Await { progress }, Event::Record(record_id)) => self.brought(
                    progress,
                    record_id,
                ),
                (Stage::Print { progress, record_id }, Event::Printed) => self.printed(
                    progress,
                    record_id,
                ),
                _ => self.ending(Action::Failed(self.stage.error())),
            }
        }
    }

    fn tell(self, stats: CollectorStats) -> (step: (Self, Action))
        ensures
            step == self.told(stats),
    {
        match SnapshotProgress::new(stats) {
            Ok(None) => self.ending(Action::Shown),
            Ok(Some(progress)) => self.entering(Stage::Read { progress, cursor: None }),
            Err(error) => self.ending(Action::Failed(error)),
        }
    }

    fn bring(self, progress: SnapshotProgress, record_id: RecordId) -> (step: (Self, Action))
        ensures
            step == self.brought(progress, record_id),
    {
        if record_id != progress.expected || record_id.raw > progress.high_water.raw {
            self.ending(Action::Failed(ShowError::HistoryChanged))
        } else {
            self.entering(Stage::Print { progress, record_id })
        }
    }

    fn after_print(self, progress: SnapshotProgress, record_id: RecordId) -> (step: (Self, Action))
        ensures
            step == self.printed(progress, record_id),
    {
        let mut progress = progress;
        match progress.accept(record_id) {
            Ok(true) => self.ending(Action::Shown),
            Ok(false) => self.entering(Stage::Read { progress, cursor: Some(record_id) }),
            Err(error) => self.ending(Action::Failed(error)),
        }
    }

    /// Takes an event and tells what is to be done next.
    pub fn step(self, event: Event) -> (step: (Self, Action))
        ensures
            step == self.stepped(event),
    {
        if self.resting {
            if event == Event::Rested {
                return (Show { resting: false, ..self }, self.stage.request());
            }
            return self.ending(Action::Failed(self.stage.error()));
        }
        match (self.stage, event) {
            (Stage::Negotiate, Event::Sent) => self.entering(Stage::Bind),
            (Stage::AskStats, Event::Sent) => self.entering(Stage::AwaitStats),
            (Stage::Read { progress, .. }, Event::Sent) => self.entering(Stage::Await { progress }),
            (Stage::Negotiate, Event::WouldBlock) => self.waiting(),
            (Stage::AskStats, Event::WouldBlock) => self.waiting(),
            (Stage::Read { .. }, Event::WouldBlock) => self.waiting(),
            (Stage::Bind, Event::Nothing) => self.waiting(),
            (Stage::AwaitStats, Event::Nothing) => self.waiting(),
            (Stage::Await { .. }, Event::Nothing) => self.waiting(),
            (Stage::Bind, Event::Bound { minor, service_generation }) => {
                if minor == self.minor && service_generation == self.service_generation {
                    self.entering(Stage::AskStats)
                } else {
                    self.ending(Action::Failed(ShowError::Connect))
                }
            },
            (Stage::AwaitStats, Event::Stats(stats)) => self.tell(stats),
            (Stage::Await { .. }, Event::NoRecord) => self.ending(
                Action::Failed(ShowError::HistoryChanged),
            ),
            (Stage::Await { progress }, Event::Record(record_id)) => self.bring(
                progress,
                record_id,
            ),
            (Stage::Print { progress, record_id }, Event::Printed) => self.after_print(
                progress,
                record_id,
            ),
            _ => self.ending(Action::Failed(self.stage.error())),
        }
    }
}

/// A history counts as shown only when nothing was retained or when its last record was printed,
/// and a rest always costs patience.
pub proof fn lemma_show_ends_with_the_last_record(show: Show, event: Event)
    ensures
        show.stepped(event).1 == Action::Shown ==> {
            ||| show.stage == Stage::AwaitStats && (event matches Event::Stats(stats)
                && stats.retained_records == 0)
            ||| show.stage matches Stage::Print { progress, record_id } && progress.remaining == 1
                && record_id == progress.high_water && record_id == progress.expected
        },
        show.stepped(event).1 == Action::Yield ==> {
            &&& show.stepped(event).0.remaining < show.remaining
            &&& show.stepped(event).0.stage == show.stage
        },
{
}

/// What is printed is what was expected: a record comes to be printed only if it is the next one
/// of the history.
pub proof fn lemma_only_expected_records_are_printed(show: Show, event: Event)
    ensures
        show.stepped(event).1 == Action::Print ==> match show.stepped(event).0.stage {
            Stage::Print { progress, record_id } => show.resting || record_id == progress.expected,
            _ => false,
        },
{
}

} // verus!
