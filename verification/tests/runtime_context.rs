use userspace::abi::{RIGHT_RECEIVE, RIGHT_SEND};
use userspace::handle::{AnyObject, OwnedHandle};
use userspace::ipc::Rights;
use userspace::protocol::{
    validate_message_shape, validate_protocol, ConformanceError, ConnectionLimits,
    MinorVersionProfile, ProtocolDescriptor, ProtocolId, ServiceProtocol,
};
use userspace::runtime_context::{
    ApplicationProcess, ContextCapability, ContextError, ProcessContext, ServiceProcess,
};
use userspace::startup_record::{
    CapabilityRole, StartupError, StartupMessage, StartupResource, StartupRuntimeRole,
};

const TEST_VERSIONS: &[MinorVersionProfile] = &[MinorVersionProfile {
    minor: 0,
    minimum_body_bytes: 1,
    minimum_handles: 0,
}];

struct Conforming;

impl ServiceProtocol for Conforming {
    const NAME: &'static str = "test.runtime";
    const CLIENT_RIGHTS: Rights = Rights { raw: RIGHT_SEND };
    const SERVER_RIGHTS: Rights = Rights { raw: RIGHT_RECEIVE };

    fn contract() -> ProtocolDescriptor {
        Self::descriptor()
    }

    fn descriptor() -> ProtocolDescriptor {
        ProtocolDescriptor {
            protocol_id: ProtocolId::from_bytes([
                0x10, 0x61, 0xa2, 0x41, 0xb6, 0x42, 0x4d, 0x58, 0x80, 0x55, 0x61, 0xf2, 0x8d,
                0xec, 0x93, 0x21,
            ])
            .unwrap(),
            major: 1,
            min_minor: 0,
            max_minor: 0,
            limits: ConnectionLimits {
                max_body_bytes: 64,
                max_handles: 0,
                max_outstanding: 2,
            },
            requested_features: &[],
            available_features: &[],
            versions: TEST_VERSIONS,
            methods: &[],
        }
    }
}

struct InvalidName;

impl ServiceProtocol for InvalidName {
    const NAME: &'static str = "TestRuntime";
    const CLIENT_RIGHTS: Rights = Rights { raw: RIGHT_SEND };
    const SERVER_RIGHTS: Rights = Rights { raw: RIGHT_RECEIVE };

    fn contract() -> ProtocolDescriptor {
        Self::descriptor()
    }

    fn descriptor() -> ProtocolDescriptor {
        Conforming::descriptor()
    }
}

#[test]
fn protocol_conformance_checks_identity_and_message_bounds() {
    assert_eq!(validate_protocol::<Conforming>(), Ok(()));
    assert_eq!(validate_message_shape::<Conforming>(64, 0), Ok(()));
    assert_eq!(
        validate_message_shape::<Conforming>(65, 0),
        Err(ConformanceError::MessageLimit)
    );
    assert_eq!(
        validate_message_shape::<Conforming>(1, 1),
        Err(ConformanceError::HandleLimit)
    );
    assert_eq!(
        validate_protocol::<InvalidName>(),
        Err(ConformanceError::InvalidName)
    );
}

#[test]
fn startup_message_round_trips_canonical_resources() {
    let resources = [
        Some(StartupResource {
            role: CapabilityRole::lifecycle(),
            required: true,
        }),
        Some(StartupResource {
            role: CapabilityRole::logging(),
            required: false,
        }),
        None,
        None,
    ];
    let message = StartupMessage::new(StartupRuntimeRole::Service, resources).unwrap();
    let mut bytes = [0xa5; 64];
    let length = message.encode(&mut bytes).unwrap();
    assert_eq!(length, 32);
    assert_eq!(StartupMessage::<4>::decode(&bytes[..length]), Ok(message));
    assert!(bytes[length..].iter().all(|byte| *byte == 0xa5));
}

#[test]
fn startup_message_rejects_ambiguous_and_noncanonical_resources() {
    let duplicate = [
        Some(StartupResource {
            role: CapabilityRole::logging(),
            required: true,
        }),
        Some(StartupResource {
            role: CapabilityRole::logging(),
            required: false,
        }),
    ];
    assert_eq!(
        StartupMessage::new(StartupRuntimeRole::Service, duplicate),
        Err(StartupError::DuplicateRole(CapabilityRole::logging()))
    );

    let message = StartupMessage::new(
        StartupRuntimeRole::Application,
        [Some(StartupResource {
            role: CapabilityRole::lifecycle(),
            required: true,
        })],
    )
    .unwrap();
    let mut bytes = [0; 24];
    message.encode(&mut bytes).unwrap();
    bytes[22] = 1;
    assert_eq!(
        StartupMessage::<1>::decode(&bytes),
        Err(StartupError::MalformedMessage)
    );
}

#[test]
fn role_specific_context_rejects_ambiguous_authority() {
    let first = OwnedHandle::<AnyObject>::from_raw(101).unwrap();
    let second = OwnedHandle::<AnyObject>::from_raw(102).unwrap();
    let capabilities = [
        Some(ContextCapability::new(CapabilityRole::logging(), first)),
        Some(ContextCapability::new(CapabilityRole::logging(), second)),
    ];
    let (capabilities, error) =
        ProcessContext::<ServiceProcess, 2>::new(capabilities).unwrap_err();
    assert_eq!(error, ContextError::DuplicateRole(CapabilityRole::logging()));
    assert_eq!(capabilities.iter().flatten().count(), 2);
}

#[test]
fn empty_context_retains_its_compile_time_role() {
    let context = ProcessContext::<ApplicationProcess, 3>::default();
    assert_eq!(context.runtime_role(), "application");
    assert!(context.is_empty());
    assert!(!context.contains(CapabilityRole::service_namespace()));
}
