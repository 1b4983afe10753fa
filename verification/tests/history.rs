use userspace::kernel::{Answer, Kernel, Op};
use userspace::logctl::{
    print_record, write_decimal, Action, CollectorStats, Event, HistoryRecord, HistorySource,
    LogSeverity, RecordId, Show, ShowError,
};

fn id(raw: u64) -> RecordId {
    RecordId::new(raw).unwrap()
}

fn stats(oldest: u64, newest: u64, retained: u64) -> CollectorStats {
    CollectorStats {
        received_records: retained,
        retained_records: retained,
        capacity_records: 64,
        evicted_records: 0,
        dropped_records: 0,
        redacted_records: 0,
        oldest_record_id: Some(id(oldest)),
        newest_record_id: Some(id(newest)),
    }
}

fn written(print: impl Fn(&mut Kernel) -> Option<Result<(), ShowError>>) -> Vec<u8> {
    let mut answers: Vec<Answer> = Vec::new();
    loop {
        let mut kernel = Kernel::new(answers);
        if let Some(result) = print(&mut kernel) {
            assert_eq!(result, Ok(()));
            return kernel.calls().iter().flat_map(|call| call.bytes.clone()).collect();
        }
        assert_eq!(kernel.pending().unwrap().op, Op::Write { stream: 1 });
        answers = kernel.into_answers();
        answers.push(Answer { result: 0, words: [0; 4], bytes: Vec::new(), attached: Vec::new() });
    }
}

/// The conversation up to the answer about the collector.
fn asked() -> Show {
    let (show, action) = Show::new(3, 7).step(Event::Sent);
    assert_eq!(action, Action::Poll);
    let (show, action) = show.step(Event::Bound { minor: 3, service_generation: 7 });
    assert_eq!(action, Action::AskStats);
    let (show, action) = show.step(Event::Sent);
    assert_eq!(action, Action::Poll);
    show
}

#[test]
fn a_record_is_one_line() {
    let record = HistoryRecord {
        record_id: id(42),
        severity: LogSeverity::Warning,
        source: HistorySource::Process { process_id: 17 },
        subsystem: b"vfs".to_vec(),
        message: b"slow".to_vec(),
    };
    assert_eq!(written(|kernel| print_record(kernel, &record)), b"42 warning pid=17 vfs: slow\n");
    let record = HistoryRecord {
        source: HistorySource::Kernel { sequence: 5 },
        severity: LogSeverity::Emergency,
        ..record
    };
    assert_eq!(
        written(|kernel| print_record(kernel, &record)),
        b"42 emergency kernel#5 vfs: slow\n"
    );
}

#[test]
fn numbers_are_written_in_decimal() {
    assert_eq!(written(|kernel| write_decimal(kernel, 0)), b"0");
    assert_eq!(written(|kernel| write_decimal(kernel, 1_203)), b"1203");
    assert_eq!(written(|kernel| write_decimal(kernel, u64::MAX)), b"18446744073709551615");
}

#[test]
fn the_history_is_shown_from_the_oldest_record_to_the_newest() {
    let (mut show, mut action) = asked().step(Event::Stats(stats(4, 6, 3)));
    let mut printed = Vec::new();
    for (raw, after) in [(4, None), (5, Some(id(4))), (6, Some(id(5)))] {
        assert_eq!(action, Action::ReadHistory { after });
        (show, action) = show.step(Event::Sent);
        assert_eq!(action, Action::Poll);
        (show, action) = show.step(Event::Record(id(raw)));
        assert_eq!(action, Action::Print);
        printed.push(raw);
        (show, action) = show.step(Event::Printed);
    }
    assert_eq!(printed, [4, 5, 6]);
    assert_eq!(action, Action::Shown);
}

#[test]
fn an_empty_history_is_shown_at_once() {
    let empty = CollectorStats {
        oldest_record_id: None,
        newest_record_id: None,
        ..stats(1, 1, 0)
    };
    assert_eq!(asked().step(Event::Stats(empty)).1, Action::Shown);
    let odd = CollectorStats { oldest_record_id: None, ..stats(1, 1, 0) };
    assert_eq!(asked().step(Event::Stats(odd)).1, Action::Failed(ShowError::Query));
}

#[test]
fn a_history_that_changes_is_not_shown() {
    let (show, _) = asked().step(Event::Stats(stats(4, 6, 3)));
    let (show, _) = show.step(Event::Sent);
    assert_eq!(
        show.step(Event::Record(id(5))).1,
        Action::Failed(ShowError::HistoryChanged)
    );
    assert_eq!(show.step(Event::NoRecord).1, Action::Failed(ShowError::HistoryChanged));
    let (show, _) = show.step(Event::Record(id(4)));
    assert_eq!(show.step(Event::Failed).1, Action::Failed(ShowError::Output));
}

#[test]
fn another_generation_is_not_asked() {
    let (show, _) = Show::new(3, 7).step(Event::Sent);
    assert_eq!(
        show.step(Event::Bound { minor: 3, service_generation: 8 }).1,
        Action::Failed(ShowError::Connect)
    );
    assert_eq!(
        show.step(Event::Bound { minor: 2, service_generation: 7 }).1,
        Action::Failed(ShowError::Connect)
    );
}

#[test]
fn patience_with_the_collector_ends() {
    let mut show = Show::new(3, 7);
    let mut rests = 0_u32;
    loop {
        let (next, action) = show.step(Event::WouldBlock);
        if action != Action::Yield {
            assert_eq!(action, Action::Failed(ShowError::Connect));
            break;
        }
        rests += 1;
        let (next, action) = next.step(Event::Rested);
        assert_eq!(action, Action::Negotiate);
        show = next;
    }
    assert_eq!(rests, 65_536);
}
