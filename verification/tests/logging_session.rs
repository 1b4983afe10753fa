use userspace::ipc::{CapabilityInfo, ObjectKind, Rights};
use userspace::logging_session::{
    admission_rejection, exact_endpoint, sender_is_pinned, take_disconnect_record,
    validate_disconnect, ConnectStatus, ControlDecodeError, ControlEncodeError, ControlRecord,
    DisconnectError, DisconnectRequest, PendingInbound, QueuePacketError, SessionRole,
    CONTROL_RECORD_BYTES, CONTROL_WIRE_VERSION, MAX_LOGGING_SESSIONS,
    MAX_LOGGING_SESSIONS_PER_ROLE,
};
use userspace::packet::{PacketBuf, TryRecvError};

fn encoded(record: ControlRecord) -> [u8; CONTROL_RECORD_BYTES] {
    record.encode().unwrap()
}

#[test]
fn admission_bounds_reserve_capacity_for_both_roles() {
    assert_eq!(admission_rejection(0, 0, false), None);
    assert_eq!(
        admission_rejection(1, 1, true),
        Some(ConnectStatus::Rejected)
    );
    assert_eq!(
        admission_rejection(MAX_LOGGING_SESSIONS, 2, false),
        Some(ConnectStatus::CapacityExhausted)
    );
    assert_eq!(
        admission_rejection(3, MAX_LOGGING_SESSIONS_PER_ROLE, false),
        Some(ConnectStatus::CapacityExhausted)
    );
    assert_eq!(admission_rejection(3, 2, false), None);
}

#[test]
fn control_records_have_a_distinct_fixed_canonical_prefix() {
    let connect = encoded(ControlRecord::Connect);
    assert_eq!(connect.len(), CONTROL_RECORD_BYTES);
    assert_eq!(&connect[..4], b"NSLS");
    assert_ne!(&connect[..4], b"NSWP");
    assert_eq!(connect[4], CONTROL_WIRE_VERSION);
    assert_eq!(ControlRecord::decode(&connect), Ok(ControlRecord::Connect));
}

#[test]
fn all_canonical_control_records_round_trip() {
    let records = [
        ControlRecord::Connect,
        ControlRecord::ConnectResponse {
            status: ConnectStatus::Accepted,
            service_generation: 7,
        },
        ControlRecord::ConnectResponse {
            status: ConnectStatus::Unavailable,
            service_generation: 0,
        },
        ControlRecord::ConnectResponse {
            status: ConnectStatus::CapacityExhausted,
            service_generation: 0,
        },
        ControlRecord::ConnectResponse {
            status: ConnectStatus::Rejected,
            service_generation: 0,
        },
        ControlRecord::Disconnect {
            service_generation: u64::MAX,
        },
    ];
    for record in records {
        let bytes = encoded(record);
        assert_eq!(ControlRecord::decode(&bytes), Ok(record));
    }
}

#[test]
fn codec_rejects_every_noncanonical_control_field() {
    let connect = encoded(ControlRecord::Connect);
    assert_eq!(
        ControlRecord::decode(&connect[..15]),
        Err(ControlDecodeError::InvalidLength { bytes: 15 })
    );

    let mut malformed = connect;
    malformed[0] ^= 0xff;
    assert_eq!(
        ControlRecord::decode(&malformed),
        Err(ControlDecodeError::InvalidMagic)
    );

    let mut malformed = connect;
    malformed[4] = CONTROL_WIRE_VERSION + 1;
    assert_eq!(
        ControlRecord::decode(&malformed),
        Err(ControlDecodeError::UnsupportedVersion { version: 2 })
    );

    let mut malformed = connect;
    malformed[5] = 0xff;
    assert_eq!(
        ControlRecord::decode(&malformed),
        Err(ControlDecodeError::UnknownKind { kind: 0xff })
    );

    let mut malformed = connect;
    malformed[6..8].copy_from_slice(&1_u16.to_le_bytes());
    assert_eq!(
        ControlRecord::decode(&malformed),
        Err(ControlDecodeError::UnexpectedStatus { status: 1 })
    );

    let mut malformed = connect;
    malformed[8..16].copy_from_slice(&1_u64.to_le_bytes());
    assert_eq!(
        ControlRecord::decode(&malformed),
        Err(ControlDecodeError::UnexpectedServiceGeneration)
    );
}

#[test]
fn response_codec_rejects_unknown_status_and_bad_generation_pairings() {
    let mut unknown = encoded(ControlRecord::ConnectResponse {
        status: ConnectStatus::Rejected,
        service_generation: 0,
    });
    unknown[6..8].copy_from_slice(&99_u16.to_le_bytes());
    assert_eq!(
        ControlRecord::decode(&unknown),
        Err(ControlDecodeError::UnknownStatus { status: 99 })
    );

    assert_eq!(
        ControlRecord::ConnectResponse {
            status: ConnectStatus::Accepted,
            service_generation: 0,
        }
        .encode(),
        Err(ControlEncodeError::MissingServiceGeneration)
    );
    assert_eq!(
        ControlRecord::ConnectResponse {
            status: ConnectStatus::Rejected,
            service_generation: 1,
        }
        .encode(),
        Err(ControlEncodeError::UnexpectedServiceGeneration)
    );

    let mut accepted_without_generation = encoded(ControlRecord::ConnectResponse {
        status: ConnectStatus::Accepted,
        service_generation: 1,
    });
    accepted_without_generation[8..16].fill(0);
    assert_eq!(
        ControlRecord::decode(&accepted_without_generation),
        Err(ControlDecodeError::MissingServiceGeneration)
    );

    let mut rejected_with_generation = encoded(ControlRecord::ConnectResponse {
        status: ConnectStatus::Rejected,
        service_generation: 0,
    });
    rejected_with_generation[8..16].copy_from_slice(&1_u64.to_le_bytes());
    assert_eq!(
        ControlRecord::decode(&rejected_with_generation),
        Err(ControlDecodeError::UnexpectedServiceGeneration)
    );
}

#[test]
fn disconnect_requires_zero_status_and_nonzero_generation() {
    assert_eq!(
        ControlRecord::Disconnect {
            service_generation: 0,
        }
        .encode(),
        Err(ControlEncodeError::MissingServiceGeneration)
    );

    let mut malformed = encoded(ControlRecord::Disconnect {
        service_generation: 9,
    });
    malformed[6..8].copy_from_slice(&2_u16.to_le_bytes());
    assert_eq!(
        ControlRecord::decode(&malformed),
        Err(ControlDecodeError::UnexpectedStatus { status: 2 })
    );
}

fn endpoint(object_id: u64, rights: Rights) -> CapabilityInfo {
    CapabilityInfo {
        object_id,
        kind: ObjectKind::Endpoint,
        rights,
        size: 0,
    }
}

#[test]
fn session_endpoints_require_exact_rights() {
    assert!(exact_endpoint(endpoint(1, Rights::send()), Rights::send()));
    assert!(exact_endpoint(
        endpoint(2, Rights::receive()),
        Rights::receive()
    ));
    assert!(!exact_endpoint(
        endpoint(1, Rights::send() | Rights::transfer()),
        Rights::send()
    ));
    assert!(!exact_endpoint(
        endpoint(2, Rights::receive() | Rights::duplicate()),
        Rights::receive()
    ));
    assert!(!exact_endpoint(
        CapabilityInfo {
            kind: ObjectKind::Notification,
            ..endpoint(1, Rights::send())
        },
        Rights::send()
    ));
}

#[test]
fn sender_identity_must_be_nonzero_and_remain_pinned() {
    assert!(!sender_is_pinned(0, 0));
    assert!(!sender_is_pinned(0, 7));
    assert!(!sender_is_pinned(7, 0));
    assert!(sender_is_pinned(7, 7));
    assert!(!sender_is_pinned(7, 8));
}

#[test]
fn pending_inbound_is_exactly_one_packet_and_preserves_on_short_output() {
    let first = PacketBuf::from_slice(b"first").unwrap();
    let second = PacketBuf::from_slice(b"second").unwrap();
    let mut pending = PendingInbound::new();
    assert_eq!(pending.receive(&mut [0_u8; 8]), Err(TryRecvError::Empty));
    assert_eq!(pending.push(first), Ok(()));
    assert!(pending.has_packet());
    assert_eq!(pending.push(second), Err(QueuePacketError::Full));

    let mut short = [0_u8; 4];
    assert_eq!(
        pending.receive(&mut short),
        Err(TryRecvError::MessageTooLarge { bytes: 5 })
    );
    assert!(pending.has_packet());

    let mut output = [0_u8; 8];
    assert_eq!(pending.receive(&mut output), Ok(5));
    assert_eq!(&output[..5], b"first");
    assert!(!pending.has_packet());
    assert_eq!(pending.receive(&mut output), Err(TryRecvError::Empty));
}

#[test]
fn disconnect_validation_pins_role_owner_and_generation() {
    let request = DisconnectRequest {
        role: SessionRole::Producer,
        owner_process_id: 41,
        service_generation: 9,
    };
    assert_eq!(
        validate_disconnect(false, SessionRole::Producer, 41, 9, request),
        Ok(())
    );
    assert_eq!(
        validate_disconnect(true, SessionRole::Producer, 41, 9, request),
        Err(DisconnectError::Closed)
    );
    assert_eq!(
        validate_disconnect(false, SessionRole::Observer, 41, 9, request),
        Err(DisconnectError::WrongRole)
    );
    assert_eq!(
        validate_disconnect(false, SessionRole::Producer, 42, 9, request),
        Err(DisconnectError::WrongOwner)
    );
    assert_eq!(
        validate_disconnect(false, SessionRole::Producer, 41, 10, request),
        Err(DisconnectError::WrongServiceGeneration)
    );
}

#[test]
fn client_disconnect_is_canonical_and_emitted_at_most_once() {
    let mut pending = true;
    let first = take_disconnect_record(&mut pending, 77).unwrap();
    assert_eq!(
        ControlRecord::decode(&first),
        Ok(ControlRecord::Disconnect {
            service_generation: 77
        })
    );
    assert_eq!(take_disconnect_record(&mut pending, 77), None);

    let mut invalid = true;
    assert_eq!(take_disconnect_record(&mut invalid, 0), None);
    assert!(!invalid);
}
