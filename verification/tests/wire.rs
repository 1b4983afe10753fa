use userspace::control_protocol::{
    DecodeError as ControlError, DesiredState, InvalidResponse, ListOutcome, ListResponse,
    ObservedState, RequestId, ServiceControlFailure, ServiceControlMessage,
    ServiceControlRequest, ServiceControlResponse, ServiceRecord, TargetResponse,
};
use userspace::identity::{
    InvalidServiceId, ProviderGeneration, ProviderGenerationSequence, RoleId, RouteKey, ServiceId,
};
use userspace::lifecycle_protocol::{
    CrashTestMessage, LifecycleMessage, MessageDecodeError, ARM, MUTATION_REACHED, QUIESCE,
    UNMOUNT,
};
use userspace::process_start::{
    decode_startup_data_end, encode_startup_data_end, encode_startup_data_frame,
    ProcessStartData, StartupDataError, StartupDataFrame, StartupSectionFrames, StartupSectionId,
};
use userspace::route_protocol::{
    DecodeError as RouteError, PublishError, RouteFailure, RouteMessage, RouteTable,
    ServiceGenerationDecodeError, ServiceGenerationHandoff, WithdrawError,
};
use userspace::startup_environment::{
    encode_startup_environment, valid_environment_name, StartupEnvironment,
};
use userspace::startup_record::{
    CapabilityRole, StartupError, StartupMessage, StartupResource, StartupRuntimeRole,
};
use userspace::startup_sections::{
    encode_startup_arguments, StartupArguments, StartupIdentity, StartupLaunch,
    StartupLaunchReason,
};

const UUID: [u8; 16] = [
    0x00, 0x11, 0x22, 0x33, 0x44, 0x55, 0x46, 0x77, 0x88, 0x99, 0xaa, 0xbb, 0xcc, 0xdd, 0xee,
    0xff,
];

fn service() -> ServiceId {
    ServiceId::from_bytes(UUID).unwrap()
}

fn generation(value: u64) -> ProviderGeneration {
    ProviderGeneration::new(value).unwrap()
}

fn key(role: u32) -> RouteKey {
    RouteKey::new(service(), RoleId::new(role).unwrap())
}

fn record() -> ServiceRecord {
    ServiceRecord::new(
        service(),
        Some(generation(3)),
        ObservedState::Ready,
        DesiredState::Running,
    )
    .unwrap()
}

#[test]
fn service_ids_are_the_bytes_of_random_uuids() {
    assert_eq!(service().as_bytes(), UUID);
    let mut bytes = UUID;
    bytes[6] = 0x16;
    assert_eq!(ServiceId::from_bytes(bytes), Err(InvalidServiceId));
    bytes = UUID;
    bytes[8] = 0xc8;
    assert_eq!(ServiceId::from_bytes(bytes), Err(InvalidServiceId));
    assert_eq!(RoleId::new(0), None);
    assert_eq!(ProviderGeneration::new(0), None);
}

#[test]
fn generations_count_from_one() {
    let mut sequence = ProviderGenerationSequence::new();
    assert_eq!(sequence.next_generation(), Ok(generation(1)));
    assert_eq!(sequence.next_generation(), Ok(generation(2)));
    assert_eq!(sequence.next_generation(), Ok(generation(3)));
}

#[test]
fn lifecycle_messages_are_read_back() {
    let message = LifecycleMessage::new(QUIESCE, 7, 9).unwrap();
    let bytes = message.encode();
    assert_eq!(&bytes[..8], b"NFLC\x01\x00\x01\x00");
    assert_eq!(bytes[8..16], 7_u64.to_le_bytes());
    assert_eq!(bytes[16..], 9_u64.to_le_bytes());
    assert_eq!(LifecycleMessage::decode(&bytes), Ok(message));
    assert_eq!(LifecycleMessage::new(0, 7, 9), None);
    assert_eq!(LifecycleMessage::new(5, 7, 9), None);
    assert_eq!(LifecycleMessage::new(UNMOUNT, 0, 9), None);
    assert_eq!(LifecycleMessage::new(UNMOUNT, 7, 0), None);
}

#[test]
fn malformed_lifecycle_messages_are_told_apart() {
    let bytes = LifecycleMessage::new(QUIESCE, 7, 9).unwrap().encode();
    assert_eq!(
        LifecycleMessage::decode(&bytes[..23]),
        Err(MessageDecodeError::InvalidLength)
    );
    let mut wrong = bytes;
    wrong[0] = b'X';
    assert_eq!(LifecycleMessage::decode(&wrong), Err(MessageDecodeError::InvalidMagic));
    wrong = bytes;
    wrong[4] = 2;
    assert_eq!(
        LifecycleMessage::decode(&wrong),
        Err(MessageDecodeError::UnsupportedVersion)
    );
    wrong = bytes;
    wrong[6] = 9;
    assert_eq!(LifecycleMessage::decode(&wrong), Err(MessageDecodeError::InvalidMessage));
}

#[test]
fn crash_test_messages_are_read_back() {
    let armed = CrashTestMessage::new(ARM, 2, 5, 0).unwrap();
    assert_eq!(CrashTestMessage::decode(&armed.encode()), Ok(armed));
    let reached = CrashTestMessage::new(MUTATION_REACHED, 2, 5, 6).unwrap();
    assert_eq!(CrashTestMessage::decode(&reached.encode()), Ok(reached));
    assert_eq!(CrashTestMessage::new(3, 2, 5, 6), None);
    assert_eq!(
        CrashTestMessage::decode(&reached.encode()[..31]),
        Err(MessageDecodeError::InvalidLength)
    );
}

#[test]
fn control_messages_are_read_back() {
    let id = RequestId::new(7).unwrap();
    let requests = [
        ServiceControlRequest::List { cursor: 4 },
        ServiceControlRequest::Status { service: service() },
        ServiceControlRequest::Start { service: service() },
        ServiceControlRequest::Stop { service: service() },
        ServiceControlRequest::Restart { service: service() },
    ];
    for request in requests {
        let message = ServiceControlMessage::request(id, request);
        assert_eq!(ServiceControlMessage::decode(&message.encode()), Ok(message));
    }
    let responses = [
        ServiceControlResponse::list(ListResponse::record(4, record(), 5).unwrap()),
        ServiceControlResponse::list(ListResponse::end(4)),
        ServiceControlResponse::list(ListResponse::failure(
            4,
            ServiceControlFailure::AccessDenied,
        )),
        ServiceControlResponse::status(TargetResponse::success(record())),
        ServiceControlResponse::restart(TargetResponse::failure(
            service(),
            ServiceControlFailure::Busy,
        ))
        .unwrap(),
    ];
    for response in responses {
        let message = ServiceControlMessage::response(id, response);
        assert_eq!(ServiceControlMessage::decode(&message.encode()), Ok(message));
    }
}

#[test]
fn malformed_control_messages_are_told_apart() {
    let message = ServiceControlMessage::request(
        RequestId::new(7).unwrap(),
        ServiceControlRequest::Status { service: service() },
    );
    let bytes = message.encode();
    assert_eq!(&bytes[..8], b"NSVC\x01\x00\x01\x02");
    assert_eq!(
        ServiceControlMessage::decode(&bytes[..63]),
        Err(ControlError::InvalidLength)
    );
    for (index, value, error) in [
        (0, 0, ControlError::InvalidMagic),
        (4, 2, ControlError::UnsupportedVersion),
        (6, 3, ControlError::UnknownKind),
        (7, 9, ControlError::UnknownOperation),
        (8, 0, ControlError::ZeroRequestId),
        (22, 0, ControlError::InvalidService),
        (63, 1, ControlError::NonzeroReserved),
    ] {
        let mut wrong = bytes;
        wrong[index] = value;
        assert_eq!(ServiceControlMessage::decode(&wrong), Err(error));
    }
}

#[test]
fn impossible_records_are_not_built() {
    assert_eq!(
        ServiceRecord::new(service(), None, ObservedState::Ready, DesiredState::Running),
        Err(InvalidResponse::GenerationState)
    );
    assert_eq!(
        ListResponse::record(5, record(), 5),
        Err(InvalidResponse::CursorOrder)
    );
    assert_eq!(
        ServiceControlResponse::stop(TargetResponse::success(record())),
        Err(InvalidResponse::DesiredState)
    );
    assert_eq!(ListResponse::end(2).outcome(), ListOutcome::End);
}

#[test]
fn route_messages_are_read_back() {
    let messages = [
        RouteMessage::Request { key: key(1) },
        RouteMessage::Accepted { key: key(2), generation: generation(9) },
        RouteMessage::Failure { key: key(3), failure: RouteFailure::Unavailable },
    ];
    for message in messages {
        assert_eq!(RouteMessage::decode(&message.encode()), Ok(message));
    }
    let bytes = messages[1].encode();
    assert_eq!(&bytes[..7], b"NSVR\x01\x00\x02");
    assert_eq!(RouteMessage::decode(&bytes[..39]), Err(RouteError::InvalidLength));
    let mut wrong = bytes;
    wrong[6] = 9;
    assert_eq!(RouteMessage::decode(&wrong), Err(RouteError::UnknownKind));
}

#[test]
fn handoffs_are_read_back() {
    let handoff = ServiceGenerationHandoff::new(generation(0x0102));
    let bytes = handoff.encode();
    assert_eq!(bytes, *b"NSGN\x01\x00\x00\x00\x02\x01\x00\x00\x00\x00\x00\x00");
    assert_eq!(ServiceGenerationHandoff::decode(&bytes), Ok(handoff));
    let mut wrong = bytes;
    wrong[8] = 0;
    wrong[9] = 0;
    assert_eq!(
        ServiceGenerationHandoff::decode(&wrong),
        Err(ServiceGenerationDecodeError::ZeroGeneration)
    );
}

#[test]
fn a_route_is_replaced_only_by_a_newer_generation() {
    let mut table: RouteTable<u64, 2> = RouteTable::new();
    assert_eq!(table.publish(key(1), generation(1), 10), Ok(None));
    assert_eq!(table.publish(key(1), generation(2), 20), Ok(Some(10)));
    assert_eq!(
        table.publish(key(1), generation(2), 30),
        Err(PublishError::GenerationNotNewer {
            authority: 30,
            current_generation: generation(2),
        })
    );
    assert_eq!(table.publish(key(2), generation(1), 40), Ok(None));
    assert_eq!(
        table.publish(key(3), generation(1), 50),
        Err(PublishError::Capacity { authority: 50 })
    );
    assert_eq!(table.active_len(), 2);
    assert_eq!(*table.get(key(1)).unwrap().authority, 20);
}

#[test]
fn a_withdrawn_route_is_remembered() {
    let mut table: RouteTable<u64, 2> = RouteTable::new();
    assert_eq!(table.withdraw(key(1), generation(1)), Err(WithdrawError::UnknownRoute));
    assert_eq!(table.publish(key(1), generation(4), 10), Ok(None));
    assert_eq!(
        table.withdraw(key(1), generation(3)),
        Err(WithdrawError::GenerationMismatch { current_generation: generation(4) })
    );
    assert_eq!(table.withdraw(key(1), generation(4)), Ok(10));
    assert_eq!(
        table.withdraw(key(1), generation(4)),
        Err(WithdrawError::AlreadyWithdrawn)
    );
    assert!(table.get(key(1)).is_none());
    assert_eq!(table.generation(key(1)), Some(generation(4)));
    assert_eq!(
        table.publish(key(1), generation(4), 20),
        Err(PublishError::GenerationNotNewer {
            authority: 20,
            current_generation: generation(4),
        })
    );
    assert_eq!(table.publish(key(1), generation(5), 20), Ok(None));
}

#[test]
fn startup_messages_are_read_back() {
    let bootstrap = StartupResource { role: CapabilityRole::bootstrap(), required: true };
    let logging = StartupResource { role: CapabilityRole::logging(), required: false };
    let message =
        StartupMessage::new(StartupRuntimeRole::Service, [Some(bootstrap), Some(logging), None])
            .unwrap();
    let mut output = [0_u8; 64];
    let length = message.encode(&mut output).unwrap();
    assert_eq!(length, 32);
    assert_eq!(&output[..4], b"NSPC");
    let decoded = StartupMessage::<3>::decode(&output[..length]).unwrap();
    assert_eq!(decoded.runtime_role(), StartupRuntimeRole::Service);
    assert_eq!(decoded.resource_count(), 2);
    assert_eq!(decoded.resources(), [Some(bootstrap), Some(logging)]);
    assert_eq!(
        StartupMessage::<1>::decode(&output[..length]).err(),
        Some(StartupError::ResourceLimit)
    );
    assert_eq!(
        StartupMessage::new(StartupRuntimeRole::Tool, [Some(bootstrap), Some(bootstrap)]).err(),
        Some(StartupError::DuplicateRole(CapabilityRole::bootstrap()))
    );
}

#[test]
fn environments_are_read_back() {
    let entries: [(&[u8], &[u8]); 2] = [(b"HOME", b"/"), (b"TERM", b"dumb")];
    let mut output = [0_u8; 128];
    let length = encode_startup_environment(&entries, &mut output).unwrap();
    let environment = StartupEnvironment::decode(&output[..length]).unwrap();
    assert_eq!(environment.len(), 2);
    assert_eq!(environment.get(0), Some(entries[0]));
    assert_eq!(environment.get(1), Some(entries[1]));
    assert_eq!(environment.get(2), None);
    assert_eq!(environment.find(b"TERM"), Some(b"dumb".as_slice()));
    assert_eq!(environment.find(b"PATH"), None);
    assert!(valid_environment_name(b"_A1"));
    assert!(!valid_environment_name(b""));
    assert!(!valid_environment_name(b"1A"));
    let invalid: [(&[u8], &[u8]); 1] = [(b"A=B", b"")];
    assert!(encode_startup_environment(&invalid, &mut output).is_err());
    let twice: [(&[u8], &[u8]); 2] = [(b"A", b"1"), (b"A", b"2")];
    assert!(encode_startup_environment(&twice, &mut output).is_err());
}

#[test]
fn arguments_are_read_back() {
    let words: [&[u8]; 3] = [b"/tool", b"", b"--flag"];
    let mut output = [0_u8; 64];
    let length = encode_startup_arguments(&words, &mut output).unwrap();
    let arguments = StartupArguments::decode(&output[..length]).unwrap();
    assert_eq!(arguments.len(), 3);
    assert_eq!(arguments.iter(), words);
    assert_eq!(arguments.get(2), Some(words[2]));
    assert_eq!(arguments.get(3), None);
    assert!(StartupArguments::decode(&output[..length - 1]).is_err());
}

#[test]
fn identities_and_launches_are_read_back() {
    let identity = StartupIdentity {
        process: 1,
        package: 2,
        package_generation: 3,
        executable: 4,
        application: 5,
        service: 6,
        component: 7,
        user: 8,
        session: 9,
    };
    let bytes = identity.encode();
    assert_eq!(bytes[..8], 1_u64.to_le_bytes());
    assert_eq!(bytes[64..], 9_u64.to_le_bytes());
    assert_eq!(StartupIdentity::decode(&bytes), Ok(identity));
    assert!(StartupIdentity::decode(&bytes[..71]).is_err());
    let launch = StartupLaunch {
        launch: 1,
        manager_generation: 2,
        namespace_profile: 3,
        monotonic_start_ns: 4,
        attempt: 5,
        reason: StartupLaunchReason::Restart,
        flags: 0,
    };
    assert_eq!(StartupLaunch::decode(&launch.encode()), Ok(launch));
    assert_eq!(StartupLaunchReason::from_raw(0), None);
}

#[test]
fn frames_are_read_back() {
    let mut output = [0_u8; 64];
    let id = StartupSectionId::arguments();
    let length = encode_startup_data_frame(id, true, 10, 4, b"abcdef", &mut output).unwrap();
    assert_eq!(length, 30);
    let frame = StartupDataFrame::decode(&output[..length]).unwrap();
    assert_eq!(frame.section, id);
    assert!(frame.required);
    assert_eq!(frame.total_bytes, 10);
    assert_eq!(frame.offset, 4);
    assert_eq!(frame.payload, b"abcdef");
    assert!(frame.final_frame);
    let end = encode_startup_data_end(3).unwrap();
    assert_eq!(decode_startup_data_end(&end), Ok(3));
    assert!(decode_startup_data_end(&end[..15]).is_err());
}

#[test]
fn the_frames_of_a_section_reassemble_it() {
    let payload: Vec<u8> = (0..500_u32).map(|value| (value % 251) as u8).collect();
    let id = StartupSectionId::environment();
    let mut frames = StartupSectionFrames::new(id, true, &payload).unwrap();
    let mut data: ProcessStartData<1024, 2> = ProcessStartData::new();
    let mut output = [0_u8; 256];
    let mut count = 0;
    while let Some(length) = frames.next_frame(&mut output).unwrap() {
        data.push_frame(&output[..length], &[id]).unwrap();
        count += 1;
    }
    assert_eq!(count, 3);
    assert!(data.is_complete());
    assert_eq!(data.section(id), Some(payload.as_slice()));
    assert_eq!(data.section(StartupSectionId::launch()), None);
    assert_eq!(
        data.validate_required(&[StartupSectionId::launch()]),
        Err(StartupDataError::MissingRequiredSection(StartupSectionId::launch()))
    );
    assert_eq!(data.validate_end(&encode_startup_data_end(1).unwrap()), Ok(()));
}

#[test]
fn malformed_route_messages_are_told_apart() {
    let request = RouteMessage::Request { key: key(1) }.encode();
    let accepted = RouteMessage::Accepted { key: key(1), generation: generation(9) }.encode();
    let failed =
        RouteMessage::Failure { key: key(1), failure: RouteFailure::Unauthorized }.encode();
    for (bytes, index, value, error) in [
        (request, 0, 0, RouteError::InvalidMagic),
        (request, 4, 2, RouteError::UnsupportedVersion),
        (request, 14, 0, RouteError::InvalidService),
        (request, 24, 0, RouteError::InvalidRole),
        (request, 28, 1, RouteError::NonzeroReserved),
        (request, 7, 1, RouteError::UnexpectedFailure),
        (request, 32, 1, RouteError::UnexpectedGeneration),
        (accepted, 32, 0, RouteError::GenerationRequired),
        (failed, 7, 0, RouteError::UnknownFailure),
        (failed, 32, 1, RouteError::UnexpectedGeneration),
    ] {
        let mut wrong = bytes;
        wrong[index] = value;
        assert_eq!(RouteMessage::decode(&wrong), Err(error));
    }
}

#[test]
fn malformed_frames_are_told_apart() {
    let id = StartupSectionId::arguments();
    let mut output = [0_u8; 64];
    let length = encode_startup_data_frame(id, true, 6, 0, b"abcdef", &mut output).unwrap();
    assert_eq!(
        StartupDataFrame::decode(&output[..23]).err(),
        Some(StartupDataError::MalformedFrame)
    );
    let mut wrong = output;
    wrong[0] = 0;
    assert_eq!(
        StartupDataFrame::decode(&wrong[..length]).err(),
        Some(StartupDataError::MalformedFrame)
    );
    wrong = output;
    wrong[4] = 2;
    assert_eq!(
        StartupDataFrame::decode(&wrong[..length]).err(),
        Some(StartupDataError::UnsupportedVersion(2))
    );
    let mut data: ProcessStartData<4, 1> = ProcessStartData::new();
    assert_eq!(
        data.push_frame(&output[..length], &[id]),
        Err(StartupDataError::StorageBounds(id))
    );
    let mut data: ProcessStartData<16, 1> = ProcessStartData::new();
    assert_eq!(
        data.push_frame(&output[..length], &[]),
        Err(StartupDataError::UnknownRequiredSection(id))
    );
    assert_eq!(data.push_frame(&output[..length], &[id]), Ok(()));
    assert_eq!(
        data.push_frame(&output[..length], &[id]),
        Err(StartupDataError::SectionOrder(id))
    );
}

#[test]
fn sections_come_in_the_order_of_their_identities() {
    let ids = [
        StartupSectionId::identity(),
        StartupSectionId::arguments(),
        StartupSectionId::launch(),
    ];
    let mut data: ProcessStartData<64, 3> = ProcessStartData::new();
    let mut output = [0_u8; 64];
    for id in ids {
        let length = encode_startup_data_frame(id, true, 2, 0, b"ab", &mut output).unwrap();
        assert_eq!(data.push_frame(&output[..length], &ids), Ok(()));
    }
    let retained: Vec<StartupSectionId> =
        data.sections().iter().map(|section| section.id).collect();
    assert_eq!(retained, ids);
    let length = encode_startup_data_frame(ids[1], true, 2, 0, b"ab", &mut output).unwrap();
    assert_eq!(
        data.push_frame(&output[..length], &ids),
        Err(StartupDataError::SectionOrder(ids[1]))
    );
}

#[test]
fn identities_and_launches_have_one_encoding() {
    let bytes: Vec<u8> = (0..72).collect();
    assert_eq!(StartupIdentity::decode(&bytes).unwrap().encode().as_slice(), bytes);
    let mut bytes: Vec<u8> = (0..40).collect();
    bytes[36] = 3;
    bytes[37] = 0;
    assert_eq!(StartupLaunch::decode(&bytes).unwrap().encode().as_slice(), bytes);
    bytes[36] = 6;
    assert!(StartupLaunch::decode(&bytes).is_err());
}
