use userspace::control_protocol::{
    CorrelationError, DecodeError, DesiredState, ListResponse, ObservedState, Operation,
    RequestId, ServiceControlFailure, ServiceControlMessage, ServiceControlRequest,
    ServiceControlResponse, ServiceRecord, TargetResponse,
};
use userspace::exchange::{validate_endpoint, EndpointShapeError};
use userspace::identity::{ProviderGeneration, ServiceId};
use userspace::ipc::{CapabilityInfo, Error, ObjectKind, Rights};
use userspace::service_control::{
    ahci_service_id, console_service_id, ensure_mutation, ensure_observation,
    keyboard_service_id, logging_service_id, nullfs_service_id, serial_service_id, service_id,
    service_name, tmpfs_service_id, validate_client_response_envelope, validate_request_envelope,
    vfs_service_id, BeginError, CompleteError, IngressError,
};

const UUID: [u8; 16] = [
    0x00, 0x11, 0x22, 0x33, 0x44, 0x55, 0x46, 0x77, 0x88, 0x99, 0xaa, 0xbb, 0xcc, 0xdd, 0xee,
    0xff,
];

fn service() -> ServiceId {
    ServiceId::from_bytes(UUID).unwrap()
}

fn request_id() -> RequestId {
    RequestId::new(7).unwrap()
}

fn endpoint(object_id: u64, rights: Rights, size: u64) -> CapabilityInfo {
    CapabilityInfo {
        object_id,
        kind: ObjectKind::Endpoint,
        rights,
        size,
    }
}

fn status_request() -> ServiceControlMessage {
    ServiceControlMessage::request(
        request_id(),
        ServiceControlRequest::Status { service: service() },
    )
}

fn status_response() -> ServiceControlMessage {
    let record = ServiceRecord::new(
        service(),
        Some(ProviderGeneration::new(3).unwrap()),
        ObservedState::Ready,
        DesiredState::Running,
    )
    .unwrap();
    ServiceControlMessage::response(
        request_id(),
        ServiceControlResponse::status(TargetResponse::success(record)),
    )
}

#[test]
fn committed_service_ids_are_uuid_v4_and_names_map_both_ways() {
    let known: [(&[u8], ServiceId); 8] = [
        (b"logging", logging_service_id()),
        (b"nullfs", nullfs_service_id()),
        (b"tmpfs", tmpfs_service_id()),
        (b"vfs", vfs_service_id()),
        (b"ahci", ahci_service_id()),
        (b"console", console_service_id()),
        (b"serial", serial_service_id()),
        (b"keyboard", keyboard_service_id()),
    ];
    for (name, service) in known {
        assert_eq!(service.as_bytes()[6] >> 4, 4);
        assert_eq!(service.as_bytes()[8] & 0xc0, 0x80);
        assert_eq!(service_id(name), Some(service));
        assert_eq!(service_name(service), Some(name));
    }
    assert_eq!(service_id(b"unknown"), None);
}

#[test]
fn endpoint_shapes_require_exact_directional_rights_and_empty_replies() {
    assert_eq!(
        validate_endpoint(endpoint(1, Rights::send(), 9), Rights::send(), false),
        Ok(())
    );
    assert_eq!(
        validate_endpoint(endpoint(2, Rights::receive(), 9), Rights::receive(), false),
        Ok(())
    );
    assert_eq!(
        validate_endpoint(
            endpoint(3, Rights::send() | Rights::transfer(), 0),
            Rights::send(),
            true
        ),
        Err(EndpointShapeError::WrongRights {
            expected: Rights::send(),
            actual: Rights::send() | Rights::transfer(),
        })
    );
    assert_eq!(
        validate_endpoint(endpoint(3, Rights::send(), 1), Rights::send(), true),
        Err(EndpointShapeError::NonEmptyQueue { messages: 1 })
    );
    assert_eq!(
        validate_endpoint(endpoint(0, Rights::send(), 0), Rights::send(), true),
        Err(EndpointShapeError::ZeroObjectId)
    );
}

#[test]
fn response_envelope_requires_exact_codec_identity_no_capability_and_correlation() {
    let request = status_request();
    let response = status_response();
    let accepted =
        validate_client_response_envelope(request, &response.encode(), 42, false).unwrap();
    assert_eq!(accepted.server_process_id(), 42);
    assert_eq!(accepted.response().operation(), Operation::Status);

    assert_eq!(
        validate_client_response_envelope(request, &response.encode(), 0, false),
        Err(CompleteError::ZeroServerProcessId)
    );
    assert_eq!(
        validate_client_response_envelope(request, &response.encode(), 42, true),
        Err(CompleteError::UnexpectedCapability)
    );
    assert_eq!(
        validate_client_response_envelope(request, &response.encode()[..63], 42, false),
        Err(CompleteError::Decode(DecodeError::InvalidLength))
    );

    let wrong_id = ServiceControlMessage::response(
        RequestId::new(8).unwrap(),
        ServiceControlResponse::status(TargetResponse::failure(
            service(),
            ServiceControlFailure::NotFound,
        )),
    );
    assert_eq!(
        validate_client_response_envelope(request, &wrong_id.encode(), 42, false),
        Err(CompleteError::Correlation(
            CorrelationError::RequestIdMismatch
        ))
    );
}

#[test]
fn ingress_envelope_requires_observation_request_caller_and_one_exact_send_reply() {
    let request = status_request().encode();
    assert_eq!(
        validate_request_envelope(&request, 9, Some(Rights::send())),
        Ok((
            request_id(),
            ServiceControlRequest::Status { service: service() }
        ))
    );
    assert_eq!(
        validate_request_envelope(&request, 0, Some(Rights::send())),
        Err(IngressError::ZeroCallerProcessId)
    );
    assert_eq!(
        validate_request_envelope(&request, 9, None),
        Err(IngressError::MissingReplyCapability)
    );
    assert_eq!(
        validate_request_envelope(&request, 9, Some(Rights::send() | Rights::transfer())),
        Err(IngressError::InvalidTransferredRights {
            actual: Rights::send() | Rights::transfer(),
        })
    );
    assert_eq!(
        validate_request_envelope(&status_response().encode(), 9, Some(Rights::send())),
        Err(IngressError::ResponseNotAllowed)
    );
}

#[test]
fn observation_client_rejects_mutations_but_server_admits_them_for_policy_denial() {
    for request in [
        ServiceControlRequest::Start { service: service() },
        ServiceControlRequest::Stop { service: service() },
        ServiceControlRequest::Restart { service: service() },
    ] {
        assert_eq!(ensure_observation(request), Err(request.operation()));
        assert_eq!(ensure_mutation(request), Ok(()));
        let message = ServiceControlMessage::request(request_id(), request).encode();
        assert_eq!(
            validate_request_envelope(&message, 9, Some(Rights::send())),
            Ok((request_id(), request))
        );
    }
    for request in [
        ServiceControlRequest::List { cursor: 0 },
        ServiceControlRequest::Status { service: service() },
    ] {
        assert_eq!(ensure_observation(request), Ok(()));
        assert_eq!(ensure_mutation(request), Err(request.operation()));
    }
}

#[test]
fn begin_errors_identify_the_post_send_cleanup_boundary() {
    assert!(!BeginError::Send(Error::try_again()).request_was_sent());
    assert!(BeginError::CloseReplySource(Error::bad_file_descriptor()).request_was_sent());
}

#[test]
fn reply_correlation_covers_list_cursor_and_status_target() {
    let list_request =
        ServiceControlMessage::request(request_id(), ServiceControlRequest::List { cursor: 4 });
    let wrong_cursor = ServiceControlMessage::response(
        request_id(),
        ServiceControlResponse::list(ListResponse::end(5)),
    );
    assert_eq!(
        wrong_cursor.validate_response_to(&list_request),
        Err(CorrelationError::ListCursorMismatch)
    );

    let other = ServiceId::from_bytes([
        0x10, 0x21, 0x32, 0x43, 0x54, 0x65, 0x47, 0x87, 0x98, 0xa9, 0xba, 0xcb, 0xdc, 0xed,
        0xfe, 0x0f,
    ])
    .unwrap();
    let wrong_target = ServiceControlMessage::response(
        request_id(),
        ServiceControlResponse::status(TargetResponse::failure(
            other,
            ServiceControlFailure::NotFound,
        )),
    );
    assert_eq!(
        wrong_target.validate_response_to(&status_request()),
        Err(CorrelationError::TargetServiceMismatch)
    );
}

#[test]
fn device_services_have_their_own_identities() {
    let expected: [(&[u8], [u8; 16]); 4] = [
        (
            b"ahci",
            [
                0x1a, 0x2b, 0x3c, 0x4d, 0x5e, 0x6f, 0x40, 0x81, 0x92, 0xa3, 0xb4, 0xc5, 0xd6,
                0xe7, 0xf8, 0x09,
            ],
        ),
        (
            b"console",
            [
                0x2b, 0x3c, 0x4d, 0x5e, 0x6f, 0x70, 0x41, 0x92, 0xa3, 0xb4, 0xc5, 0xd6, 0xe7,
                0xf8, 0x09, 0x1a,
            ],
        ),
        (
            b"serial",
            [
                0x3c, 0x4d, 0x5e, 0x6f, 0x70, 0x81, 0x42, 0xa3, 0xb4, 0xc5, 0xd6, 0xe7, 0xf8,
                0x09, 0x1a, 0x2b,
            ],
        ),
        (
            b"keyboard",
            [
                0x4d, 0x5e, 0x6f, 0x70, 0x81, 0x92, 0x43, 0xb4, 0x85, 0xd6, 0xe7, 0xf8, 0x09,
                0x1a, 0x2b, 0x3c,
            ],
        ),
    ];
    for (name, bytes) in expected {
        assert_eq!(service_id(name).unwrap().as_bytes(), bytes);
    }
}
