use userspace::filesystem_service::{
    Error, SessionTable, MAX_BUFFERS_PER_SESSION, MAX_SESSIONS,
};

#[test]
fn sessions_are_generation_scoped_and_bounded() {
    let mut table = SessionTable::new();
    let first = table.connect(7, 100).expect("first session");
    assert_eq!(table.reply_endpoint(first, 7), Ok(100));
    assert_eq!(table.reply_endpoint(first, 8), Err(Error::StaleSession));
    for handle in 1..MAX_SESSIONS {
        table
            .connect(7, 100 + handle as u64)
            .expect("bounded session");
    }
    assert_eq!(table.connect(7, 999), Err(Error::NoSpace));
}

#[test]
fn buffer_ids_replace_explicitly_and_detach_returns_ownership() {
    let mut table = SessionTable::new();
    let session = table.connect(5, 10).expect("session");
    assert_eq!(table.attach_buffer(session, 5, 1, 20, 4096), Ok(None));
    assert_eq!(table.attach_buffer(session, 5, 1, 21, 8192), Ok(Some(20)));
    let buffer = table.buffer(session, 5, 1).expect("buffer");
    assert_eq!((buffer.handle, buffer.length), (21, 8192));
    assert_eq!(table.detach_buffer(session, 5, 1), Ok(21));
    assert_eq!(table.buffer(session, 5, 1), Err(Error::InvalidBuffer));
}

#[test]
fn buffer_tables_are_bounded() {
    let mut table = SessionTable::new();
    let session = table.connect(9, 10).expect("session");
    for index in 0..MAX_BUFFERS_PER_SESSION {
        table
            .attach_buffer(session, 9, index as u64 + 1, index as u64 + 20, 64)
            .expect("bounded buffer");
    }
    assert_eq!(
        table.attach_buffer(session, 9, 99, 99, 64),
        Err(Error::NoSpace)
    );
}

#[test]
fn disconnect_releases_reply_and_buffer_handles() {
    let mut table = SessionTable::new();
    let session = table.connect(4, 10).expect("session");
    table
        .attach_buffer(session, 4, 1, 20, 64)
        .expect("first buffer");
    table
        .attach_buffer(session, 4, 2, 21, 64)
        .expect("second buffer");
    let released = table.disconnect(session, 4).expect("disconnect");
    assert_eq!(released.reply_endpoint, 10);
    assert_eq!(&released.buffer_handles[..2], &[20, 21]);
    assert_eq!(table.reply_endpoint(session, 4), Err(Error::StaleSession));
    assert!(table.connect(4, 11).is_ok());
}

#[test]
fn live_sessions_never_share_an_identity() {
    let mut table = SessionTable::new();
    let mut live = Vec::new();
    for endpoint in 1..200_u64 {
        if live.len() == MAX_SESSIONS {
            assert_eq!(table.connect(7, endpoint), Err(Error::NoSpace));
            let (id, reply): (u64, u64) = live.remove(0);
            let released = table.disconnect(id, 7).unwrap_or_else(|_| panic!("live session"));
            assert_eq!(released.reply_endpoint, reply);
            assert_eq!(table.reply_endpoint(id, 7), Err(Error::StaleSession));
        }
        let id = table.connect(7, endpoint).expect("free slot");
        assert!(live.iter().all(|(other, _)| *other != id));
        live.push((id, endpoint));
        for (id, reply) in &live {
            assert_eq!(table.reply_endpoint(*id, 7), Ok(*reply));
        }
    }
}

#[test]
fn only_attached_buffers_are_released() {
    let mut table = SessionTable::new();
    let id = table.connect(3, 50).expect("free slot");
    assert_eq!(table.attach_buffer(id, 3, 1, 11, 8), Ok(None));
    assert_eq!(table.attach_buffer(id, 3, 2, 12, 8), Ok(None));
    assert_eq!(table.attach_buffer(id, 3, 3, 13, 8), Ok(None));
    assert_eq!(table.detach_buffer(id, 3, 2), Ok(12));
    let released = table.disconnect(id, 3).unwrap_or_else(|_| panic!("live session"));
    let handles: Vec<u64> =
        released.buffer_handles.iter().copied().filter(|handle| *handle != 0).collect();
    assert_eq!(handles, [11, 13]);
}

#[test]
fn sessions_of_other_generations_do_not_matter() {
    let mut table = SessionTable::new();
    let old = table.connect(u64::MAX, 40).expect("free slot");
    let huge = table.connect(0x8000_0000_0000, 41).expect("free slot");
    let first = table.connect(7, 42).expect("free slot");
    let second = table.connect(7, 43).expect("free slot");
    assert_eq!(huge, 3);
    assert_eq!((first, second), ((7 << 17) ^ 3, (7 << 17) ^ 4));
    assert_eq!(table.reply_endpoint(old, u64::MAX), Ok(40));
    assert_eq!(table.reply_endpoint(huge, 0x8000_0000_0000), Ok(41));
    assert_eq!(table.reply_endpoint(first, 7), Ok(42));
    assert_eq!(table.reply_endpoint(second, 7), Ok(43));
}

#[test]
fn two_sequence_numbers_of_a_generation_can_share_identity_one() {
    let mut table = SessionTable::new();
    for _ in 1..0x2_0000_u64 {
        let id = table.connect(1, 50).expect("free slot");
        assert_ne!(id, 1);
        assert!(table.disconnect(id, 1).is_ok());
    }
    assert_eq!(table.connect(1, 51), Ok(1));
    assert_eq!(table.connect(1, 52), Ok(1));
    assert_eq!(table.reply_endpoint(1, 1), Ok(51));
}
