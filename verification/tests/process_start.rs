use userspace::abi::MAX_IPC_MESSAGE_BYTES;
use userspace::process_start::{
    encode_startup_data_end, encode_startup_data_frame, ProcessStartData, StartupDataError,
    StartupSectionFrames, StartupSectionId, STARTUP_DATA_FRAME_PAYLOAD_BYTES,
};
use userspace::startup_environment::{
    encode_startup_environment, StartupEnvironment, ValidatedProcessStart,
};
use userspace::startup_sections::{
    encode_startup_arguments, StartupIdentity, StartupLaunch, StartupLaunchReason, IDENTITY_BYTES,
};

fn supported() -> [StartupSectionId; 4] {
    [
    StartupSectionId::identity(),
    StartupSectionId::arguments(),
    StartupSectionId::environment(),
    StartupSectionId::launch(),
    ]
}

fn push_section<const BYTES: usize, const SECTIONS: usize>(
    data: &mut ProcessStartData<BYTES, SECTIONS>,
    id: StartupSectionId,
    payload: &[u8],
) {
    let mut frames = StartupSectionFrames::new(id, true, payload).unwrap();
    let mut frame = [0; MAX_IPC_MESSAGE_BYTES];
    while let Some(length) = frames.next_frame(&mut frame).unwrap() {
        data.push_frame(&frame[..length], &supported()).unwrap();
    }
}

#[test]
fn typed_process_start_round_trips_fragmented_sections() {
    let identity = StartupIdentity {
        process: 31,
        package: 41,
        package_generation: 2,
        executable: 51,
        application: 61,
        service: 0,
        component: 71,
        user: 1000,
        session: 81,
    };
    let launch = StartupLaunch {
        launch: 91,
        manager_generation: 4,
        namespace_profile: 101,
        monotonic_start_ns: 500,
        attempt: 2,
        reason: StartupLaunchReason::Activation,
        flags: 3,
    };
    let long_argument = [b'x'; STARTUP_DATA_FRAME_PAYLOAD_BYTES + 10];
    let mut argument_bytes = [0; 512];
    let argument_length =
        encode_startup_arguments(&[b"program", &long_argument], &mut argument_bytes).unwrap();
    let mut environment_bytes = [0; 128];
    let environment_length = encode_startup_environment(
        &[(b"LANG", b"en_US.UTF-8"), (b"MODE", b"test")],
        &mut environment_bytes,
    )
    .unwrap();

    let mut data = ProcessStartData::<1024, 4>::new();
    push_section(&mut data, StartupSectionId::identity(), &identity.encode());
    push_section(
        &mut data,
        StartupSectionId::arguments(),
        &argument_bytes[..argument_length],
    );
    push_section(
        &mut data,
        StartupSectionId::environment(),
        &environment_bytes[..environment_length],
    );
    push_section(&mut data, StartupSectionId::launch(), &launch.encode());

    let decoded = ValidatedProcessStart::from_data(&data).unwrap();
    assert_eq!(decoded.identity, identity);
    assert_eq!(decoded.arguments.len(), 2);
    assert_eq!(decoded.arguments.get(0), Some(&b"program"[..]));
    assert_eq!(decoded.arguments.get(1), Some(&long_argument[..]));
    assert_eq!(decoded.environment.find(b"LANG"), Some(&b"en_US.UTF-8"[..]));
    assert_eq!(decoded.environment.find(b"MISSING"), None);
    assert_eq!(decoded.launch, launch);
    assert_eq!(data.len(), 4);
    assert_eq!(
        data.validate_end(&encode_startup_data_end(4).unwrap()),
        Ok(())
    );
    assert_eq!(
        data.validate_end(&encode_startup_data_end(3).unwrap()),
        Err(StartupDataError::MalformedFrame)
    );
}

#[test]
fn optional_unknown_sections_are_discarded_but_required_ones_fail() {
    let unknown = StartupSectionId::new(99).unwrap();
    let mut frame = [0; MAX_IPC_MESSAGE_BYTES];
    let length = encode_startup_data_frame(unknown, false, 3, 0, b"new", &mut frame).unwrap();
    let mut data = ProcessStartData::<16, 1>::new();
    data.push_frame(&frame[..length], &supported()).unwrap();
    assert!(data.is_empty());
    assert!(data.is_complete());
    assert_eq!(
        data.validate_end(&encode_startup_data_end(1).unwrap()),
        Ok(())
    );

    let length = encode_startup_data_frame(unknown, true, 3, 0, b"new", &mut frame).unwrap();
    assert_eq!(
        data.push_frame(&frame[..length], &supported()),
        Err(StartupDataError::UnknownRequiredSection(unknown))
    );
}

#[test]
fn assembler_rejects_fragment_gaps_and_section_reordering() {
    let mut frame = [0; MAX_IPC_MESSAGE_BYTES];
    let first =
        encode_startup_data_frame(StartupSectionId::arguments(), true, 8, 0, b"abcd", &mut frame)
            .unwrap();
    let mut data = ProcessStartData::<32, 2>::new();
    data.push_frame(&frame[..first], &supported()).unwrap();

    let gap =
        encode_startup_data_frame(StartupSectionId::arguments(), true, 8, 5, b"xyz", &mut frame)
            .unwrap();
    assert_eq!(
        data.push_frame(&frame[..gap], &supported()),
        Err(StartupDataError::FragmentOrder(StartupSectionId::arguments()))
    );

    let final_frame =
        encode_startup_data_frame(StartupSectionId::arguments(), true, 8, 4, b"efgh", &mut frame)
            .unwrap();
    data.push_frame(&frame[..final_frame], &supported()).unwrap();
    let reordered =
        encode_startup_data_frame(StartupSectionId::identity(), true, 1, 0, b"x", &mut frame)
            .unwrap();
    assert_eq!(
        data.push_frame(&frame[..reordered], &supported()),
        Err(StartupDataError::SectionOrder(StartupSectionId::identity()))
    );
}

#[test]
fn argument_and_environment_validation_is_canonical() {
    let mut output = [0; 128];
    assert_eq!(
        encode_startup_arguments(&[b"bad\0argument"], &mut output),
        Err(StartupDataError::InvalidSection(
            StartupSectionId::arguments()
        ))
    );
    assert_eq!(
        encode_startup_environment(&[(b"1INVALID", b"x")], &mut output),
        Err(StartupDataError::InvalidSection(
            StartupSectionId::environment()
        ))
    );
    assert_eq!(
        encode_startup_environment(&[(b"MODE", b"a"), (b"MODE", b"b")], &mut output),
        Err(StartupDataError::InvalidSection(
            StartupSectionId::environment()
        ))
    );

    let length = encode_startup_environment(&[(b"EMPTY", b"")], &mut output).unwrap();
    let environment = StartupEnvironment::decode(&output[..length]).unwrap();
    assert_eq!(environment.find(b"EMPTY"), Some(&b""[..]));
}

#[test]
fn required_sections_and_storage_bounds_fail_closed() {
    let mut data = ProcessStartData::<8, 1>::new();
    assert_eq!(
        data.validate_required(&[StartupSectionId::identity()]),
        Err(StartupDataError::MissingRequiredSection(
            StartupSectionId::identity()
        ))
    );

    let mut frame = [0; MAX_IPC_MESSAGE_BYTES];
    let length = encode_startup_data_frame(
        StartupSectionId::identity(),
        true,
        IDENTITY_BYTES,
        0,
        &[0; IDENTITY_BYTES],
        &mut frame,
    )
    .unwrap();
    assert_eq!(
        data.push_frame(&frame[..length], &supported()),
        Err(StartupDataError::StorageBounds(StartupSectionId::identity()))
    );
}
