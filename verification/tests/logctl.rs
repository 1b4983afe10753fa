use userspace::logctl::{CollectorStats, RecordId, ShowError, SnapshotProgress};

fn stats(oldest: u64, newest: u64, retained: u64) -> CollectorStats {
    CollectorStats {
        received_records: retained,
        retained_records: retained,
        capacity_records: 64,
        evicted_records: 0,
        dropped_records: 0,
        redacted_records: 0,
        oldest_record_id: Some(RecordId::new(oldest).unwrap()),
        newest_record_id: Some(RecordId::new(newest).unwrap()),
    }
}

#[test]
fn snapshot_requires_the_captured_oldest_and_every_successor() {
    let mut progress = SnapshotProgress::new(stats(1, 3, 3)).unwrap().unwrap();
    assert_eq!(
        progress.accept(RecordId::new(2).unwrap()),
        Err(ShowError::HistoryChanged)
    );

    let mut progress = SnapshotProgress::new(stats(1, 3, 3)).unwrap().unwrap();
    assert_eq!(progress.accept(RecordId::new(1).unwrap()), Ok(false));
    assert_eq!(progress.accept(RecordId::new(2).unwrap()), Ok(false));
    assert_eq!(progress.accept(RecordId::new(3).unwrap()), Ok(true));
}

#[test]
fn snapshot_rejects_high_water_before_the_captured_count() {
    let mut progress = SnapshotProgress::new(stats(1, 3, 4)).unwrap().unwrap();
    assert_eq!(progress.accept(RecordId::new(1).unwrap()), Ok(false));
    assert_eq!(progress.accept(RecordId::new(2).unwrap()), Ok(false));
    assert_eq!(
        progress.accept(RecordId::new(3).unwrap()),
        Err(ShowError::HistoryChanged)
    );
}
