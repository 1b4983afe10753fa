use userspace::abi::{ERRNO_BROKEN_PIPE, KIND_ENDPOINT, RIGHT_RECEIVE, RIGHT_SEND};
use userspace::exchange::{validate_endpoint, EndpointShapeError};
use userspace::identity::{ProviderGeneration, RoleId, RouteKey, ServiceId};
use userspace::ipc::{CapabilityInfo, Error, ObjectKind, Rights};
use userspace::kernel::{Answer, Kernel, Op};
use userspace::route_protocol::{
    DecodeError, RouteFailure, RouteMessage, ServiceGenerationDecodeError,
    ServiceGenerationHandoff, SERVICE_ROUTE_WIRE_BYTES,
};
use userspace::service_route::{
    disposable_provider_rights, provider_source_rights, validate_request_envelope,
    validate_response_envelope, validate_service_generation_envelope, Authorizer,
    GenerationHandoffReceiveError, IngressError, NativePublishError, NativeRouteTable,
    PendingRouteRequest, ResolveError, ResponseDisposition, RouteIngress, RouteReply,
};

const UUID: [u8; 16] = [
    0x00, 0x11, 0x22, 0x33, 0x44, 0x55, 0x46, 0x77, 0x88, 0x99, 0xaa, 0xbb, 0xcc, 0xdd, 0xee,
    0xff,
];

fn key(role: u32) -> RouteKey {
    RouteKey::new(
        ServiceId::from_bytes(UUID).unwrap(),
        RoleId::new(role).unwrap(),
    )
}

fn generation(value: u64) -> ProviderGeneration {
    ProviderGeneration::new(value).unwrap()
}

fn endpoint(object_id: u64, rights: Rights, size: u64) -> CapabilityInfo {
    CapabilityInfo {
        object_id,
        kind: ObjectKind::Endpoint,
        rights,
        size,
    }
}

#[test]
fn generation_handoff_endpoints_have_exact_directional_rights() {
    assert_eq!(
        validate_endpoint(endpoint(1, Rights::endpoint(), 0), Rights::endpoint(), true),
        Ok(())
    );
    assert_eq!(
        validate_endpoint(endpoint(1, Rights::receive(), 1), Rights::receive(), false),
        Ok(())
    );
    assert_eq!(
        validate_endpoint(endpoint(1, Rights::send(), 1), Rights::receive(), false),
        Err(EndpointShapeError::WrongRights {
            expected: Rights::receive(),
            actual: Rights::send(),
        })
    );
}

#[test]
fn generation_handoff_envelope_pins_sender_capability_count_and_codec() {
    let bytes = ServiceGenerationHandoff::new(generation(7)).encode();
    assert_eq!(
        validate_service_generation_envelope(&bytes, 1, 1, false),
        Ok(generation(7))
    );
    assert_eq!(
        validate_service_generation_envelope(&bytes, 2, 1, false),
        Err(GenerationHandoffReceiveError::UnexpectedSender {
            expected: 1,
            actual: 2,
        })
    );
    assert_eq!(
        validate_service_generation_envelope(&bytes, 1, 1, true),
        Err(GenerationHandoffReceiveError::UnexpectedCapability)
    );
    let mut malformed = bytes;
    malformed[6] = 1;
    assert_eq!(
        validate_service_generation_envelope(&malformed, 1, 1, false),
        Err(GenerationHandoffReceiveError::Decode(
            ServiceGenerationDecodeError::NonzeroReserved,
        ))
    );
}

#[test]
fn route_grants_require_exact_send_and_a_nonzero_endpoint_object() {
    assert_eq!(
        validate_endpoint(endpoint(1, Rights::send(), 4), Rights::send(), false),
        Ok(())
    );
    assert_eq!(
        validate_endpoint(
            endpoint(1, Rights::send() | Rights::transfer(), 0),
            Rights::send(),
            false
        ),
        Err(EndpointShapeError::WrongRights {
            expected: Rights::send(),
            actual: Rights::send() | Rights::transfer(),
        })
    );
    assert_eq!(
        validate_endpoint(endpoint(0, Rights::send(), 0), Rights::send(), false),
        Err(EndpointShapeError::ZeroObjectId)
    );
}

#[test]
fn reply_endpoints_require_an_empty_queue_when_inspectable() {
    assert_eq!(
        validate_endpoint(endpoint(2, Rights::send(), 0), Rights::send(), true),
        Ok(())
    );
    assert_eq!(
        validate_endpoint(endpoint(2, Rights::send(), 1), Rights::send(), true),
        Err(EndpointShapeError::NonEmptyQueue { messages: 1 })
    );
}

#[test]
fn provider_publication_shape_is_exact_and_excludes_receive() {
    assert_eq!(
        validate_endpoint(
            endpoint(3, provider_source_rights(), 7),
            provider_source_rights(),
            false
        ),
        Ok(())
    );
    assert_eq!(
        validate_endpoint(
            endpoint(3, Rights::endpoint(), 0),
            provider_source_rights(),
            false
        ),
        Err(EndpointShapeError::WrongRights {
            expected: provider_source_rights(),
            actual: Rights::endpoint(),
        })
    );
    assert_eq!(disposable_provider_rights(), Rights::send() | Rights::transfer());
}

#[test]
fn non_endpoints_are_rejected_even_with_matching_rights() {
    let info = CapabilityInfo {
        object_id: 4,
        kind: ObjectKind::Notification,
        rights: Rights::send(),
        size: 0,
    };
    assert_eq!(
        validate_endpoint(info, Rights::send(), false),
        Err(EndpointShapeError::WrongKind {
            actual: ObjectKind::Notification,
        })
    );
}

#[test]
fn core_table_rules_drive_native_generation_and_tombstones() {
    let mut routes = NativeRouteTable::<u64, 1>::new();
    assert_eq!(
        routes.publish_prevalidated(key(1), generation(2), 20),
        Ok(None)
    );
    assert_eq!(
        routes.publish_prevalidated(key(1), generation(2), 21),
        Err(NativePublishError::GenerationNotNewer {
            authority: 21,
            current_generation: generation(2),
        })
    );
    assert_eq!(routes.withdraw(key(1), generation(2)), Ok(20));
    assert_eq!(routes.generation(key(1)), Some(generation(2)));
    assert_eq!(
        routes.publish_prevalidated(key(2), generation(1), 30),
        Err(NativePublishError::Capacity { authority: 30 })
    );
    assert_eq!(
        routes.publish_prevalidated(key(1), generation(3), 31),
        Ok(None)
    );
    assert_eq!(routes.withdraw(key(1), generation(3)), Ok(31));
}

#[test]
fn replacement_returns_the_displaced_owned_authority() {
    let mut routes = NativeRouteTable::<u64, 1>::new();
    assert_eq!(
        routes.publish_prevalidated(key(1), generation(1), 10),
        Ok(None)
    );
    assert_eq!(
        routes.publish_prevalidated(key(1), generation(2), 20),
        Ok(Some(10))
    );
    assert_eq!(routes.active_len(), 1);
    assert_eq!(routes.withdraw(key(1), generation(2)), Ok(20));
}

#[test]
fn zero_capacity_native_table_preserves_submitted_ownership() {
    let mut routes = NativeRouteTable::<u64, 0>::new();
    let error = routes
        .publish_prevalidated(key(1), generation(1), 9)
        .unwrap_err();
    assert_eq!(error.authority(), &9);
    assert_eq!(error.into_authority(), 9);
    assert!(routes.is_empty());
}

#[test]
fn request_and_response_wire_shapes_remain_exactly_forty_bytes() {
    assert_eq!(SERVICE_ROUTE_WIRE_BYTES, 40);
    assert_eq!(RouteMessage::Request { key: key(1) }.encode().len(), 40);
    assert_eq!(
        RouteMessage::Accepted {
            key: key(1),
            generation: generation(1),
        }
        .encode()
        .len(),
        40
    );
}

#[test]
fn accepted_and_failure_messages_echo_the_requested_key() {
    let accepted = RouteMessage::Accepted {
        key: key(1),
        generation: generation(8),
    };
    let failure = RouteMessage::Failure {
        key: key(1),
        failure: RouteFailure::Unavailable,
    };
    assert_eq!(
        RouteMessage::decode(&accepted.encode()).unwrap().key(),
        key(1)
    );
    assert_eq!(
        RouteMessage::decode(&failure.encode()).unwrap().key(),
        key(1)
    );
    assert_ne!(accepted.key(), key(2));
}

#[test]
fn decode_enforces_nonzero_accepted_generation() {
    let mut accepted = RouteMessage::Accepted {
        key: key(1),
        generation: generation(1),
    }
    .encode();
    accepted[32..40].fill(0);
    assert_eq!(
        RouteMessage::decode(&accepted),
        Err(DecodeError::GenerationRequired)
    );
}

#[test]
fn reply_outcomes_distinguish_acceptance_from_all_canonical_failures() {
    assert_ne!(
        RouteReply::Accepted {
            generation: generation(1)
        },
        RouteReply::Failure(RouteFailure::Unauthorized)
    );
    for failure in [
        RouteFailure::Unauthorized,
        RouteFailure::Unavailable,
        RouteFailure::IssuerCapacity,
    ] {
        let message = RouteMessage::Failure {
            key: key(1),
            failure,
        };
        assert_eq!(RouteMessage::decode(&message.encode()), Ok(message));
    }
}

#[test]
fn client_response_envelope_requires_pid_echo_and_exact_capability_cardinality() {
    let accepted = RouteMessage::Accepted {
        key: key(1),
        generation: generation(5),
    }
    .encode();
    assert_eq!(
        validate_response_envelope(key(1), &accepted, 7, Some(Rights::send())),
        Ok(ResponseDisposition::Accepted(generation(5)))
    );
    assert_eq!(
        validate_response_envelope(key(1), &accepted, 0, Some(Rights::send())),
        Err(ResolveError::ZeroBrokerProcessId)
    );
    assert_eq!(
        validate_response_envelope(key(2), &accepted, 7, Some(Rights::send())),
        Err(ResolveError::KeyMismatch {
            expected: key(2),
            actual: key(1),
        })
    );
    assert_eq!(
        validate_response_envelope(key(1), &accepted, 7, None),
        Err(ResolveError::MissingProviderCapability)
    );
    assert_eq!(
        validate_response_envelope(key(1), &accepted, 7, Some(Rights::send() | Rights::transfer()),),
        Err(ResolveError::InvalidProvider(
            EndpointShapeError::WrongRights {
                expected: Rights::send(),
                actual: Rights::send() | Rights::transfer(),
            }
        ))
    );
}

#[test]
fn failure_responses_forbid_capabilities_and_requests_are_not_responses() {
    let failure = RouteMessage::Failure {
        key: key(1),
        failure: RouteFailure::Unavailable,
    }
    .encode();
    assert_eq!(
        validate_response_envelope(key(1), &failure, 9, None),
        Ok(ResponseDisposition::Failure(RouteFailure::Unavailable))
    );
    assert_eq!(
        validate_response_envelope(key(1), &failure, 9, Some(Rights::send())),
        Err(ResolveError::UnexpectedCapability)
    );
    assert_eq!(
        validate_response_envelope(
            key(1),
            &RouteMessage::Request { key: key(1) }.encode(),
            9,
            None,
        ),
        Err(ResolveError::UnexpectedResponse)
    );
}

#[test]
fn ingress_envelope_requires_granted_key_sender_and_exact_send_reply() {
    let request = RouteMessage::Request { key: key(1) }.encode();
    assert_eq!(
        validate_request_envelope(key(1), &request, 11, Some(Rights::send())),
        Ok(())
    );
    assert_eq!(
        validate_request_envelope(key(2), &request, 11, Some(Rights::send())),
        Err(IngressError::WrongGrantedKey {
            granted: key(2),
            requested: key(1),
        })
    );
    assert_eq!(
        validate_request_envelope(key(1), &request, 0, Some(Rights::send())),
        Err(IngressError::ZeroSenderProcessId)
    );
    assert_eq!(
        validate_request_envelope(key(1), &request, 11, None),
        Err(IngressError::MissingReplyCapability)
    );
    assert_eq!(
        validate_request_envelope(key(1), &request, 11, Some(Rights::send() | Rights::transfer()),),
        Err(IngressError::InvalidTransferredRights {
            actual: Rights::send() | Rights::transfer(),
        })
    );
}

#[test]
fn ingress_rejects_response_kinds_and_malformed_wire_before_availability() {
    let accepted = RouteMessage::Accepted {
        key: key(1),
        generation: generation(1),
    }
    .encode();
    assert_eq!(
        validate_request_envelope(key(1), &accepted, 11, Some(Rights::send())),
        Err(IngressError::UnexpectedMessage)
    );
    assert_eq!(
        validate_request_envelope(key(1), &accepted[..39], 11, Some(Rights::send())),
        Err(IngressError::Decode(DecodeError::InvalidLength))
    );
}

#[test]
fn publication_errors_return_authority_for_every_failure_class() {
    let inspect = NativePublishError::Inspect {
        authority: 1_u64,
        source: Error::io(),
    };
    let invalid = NativePublishError::InvalidAuthority {
        authority: 2_u64,
        source: EndpointShapeError::ZeroObjectId,
    };
    let capacity = NativePublishError::Capacity { authority: 3_u64 };
    let stale = NativePublishError::GenerationNotNewer {
        authority: 4_u64,
        current_generation: generation(7),
    };
    assert_eq!(inspect.into_authority(), 1);
    assert_eq!(invalid.into_authority(), 2);
    assert_eq!(capacity.into_authority(), 3);
    assert_eq!(stale.into_authority(), 4);
}

#[test]
fn malformed_lengths_are_rejected_by_the_core_codec() {
    let request = RouteMessage::Request { key: key(1) }.encode();
    assert_eq!(
        RouteMessage::decode(&request[..SERVICE_ROUTE_WIRE_BYTES - 1]),
        Err(DecodeError::InvalidLength)
    );
}

/// Lets a number of requests pass and remembers who asked.
struct Limited {
    left: usize,
    asked: Vec<(u64, RouteKey)>,
}

impl Authorizer for Limited {
    type Error = &'static str;

    fn verdict(self, _caller: u64, _key: RouteKey) -> Result<(), &'static str> {
        if self.left == 0 {
            Err("spent")
        } else {
            Ok(())
        }
    }

    fn after(mut self, caller: u64, key: RouteKey) -> Self {
        let _ = self.authorize(&caller, key);
        self
    }

    fn authorize(&mut self, caller: &u64, key: RouteKey) -> Result<(), &'static str> {
        self.asked.push((*caller, key));
        if self.left == 0 {
            return Err("spent");
        }
        self.left -= 1;
        Ok(())
    }
}

fn answer(result: u64, words: [u64; 4], bytes: &[u8]) -> Answer {
    Answer { result, words, bytes: bytes.to_vec(), attached: Vec::new() }
}

/// A request of process 11 for the first role, over ingress 5, with reply handle 6. The answers
/// to later calls follow.
fn requested(later: Vec<Answer>) -> (Kernel, PendingRouteRequest) {
    let request = RouteMessage::Request { key: key(1) }.encode();
    let mut answers = vec![
        answer(0, [70, KIND_ENDPOINT, RIGHT_RECEIVE, 0], &[]),
        answer(
            request.len() as u64,
            [11, request.len() as u64, 6, RIGHT_SEND],
            &request,
        ),
        answer(0, [71, KIND_ENDPOINT, RIGHT_SEND, 0], &[]),
    ];
    answers.extend(later);
    let mut kernel = Kernel::new(answers);
    let mut ingress = RouteIngress::bind(&mut kernel, 5, key(1))
        .expect("answers")
        .unwrap_or_else(|_| panic!("receiving endpoint"));
    let request = ingress
        .try_accept(&mut kernel)
        .expect("answers")
        .unwrap_or_else(|_| panic!("request"))
        .expect("queued");
    (kernel, request)
}

#[test]
fn an_authorizer_is_asked_once_and_keeps_what_it_learned() {
    let mut authorizer = Limited { left: 1, asked: Vec::new() };

    let (mut kernel, request) = requested(Vec::new());
    assert_eq!(request.key(), key(1));
    assert_eq!(request.sender_process_id(), 11);
    assert_eq!(request.reply_object_id(), 71);
    let authorized = request
        .authorize(&mut kernel, &mut authorizer)
        .expect("answers")
        .unwrap_or_else(|_| panic!("allowed"));
    assert_eq!(authorized.key(), key(1));
    assert_eq!(authorized.sender_process_id(), 11);
    assert_eq!(authorized.reply_object_id(), 71);
    assert_eq!(kernel.calls().len(), 3);
    assert_eq!(authorizer.left, 0);
    assert_eq!(authorizer.asked, [(11, key(1))]);

    let (mut kernel, request) =
        requested(vec![answer(0, [0; 4], &[]), answer(0, [0; 4], &[])]);
    let denied = request.authorize(&mut kernel, &mut authorizer).expect("answers").err();
    let denied = denied.expect("denied");
    assert_eq!((denied.source, denied.reply_error), ("spent", None));
    assert_eq!(authorizer.asked, [(11, key(1)), (11, key(1))]);
    assert_eq!(kernel.calls().len(), 5);
    assert_eq!(kernel.calls()[3].op, Op::Send { endpoint: 6, handle: 0, rights: 0 });
    assert_eq!(
        kernel.calls()[3].bytes,
        RouteMessage::Failure { key: key(1), failure: RouteFailure::Unauthorized }.encode()
    );
    assert_eq!(kernel.calls()[4].op, Op::Close { handle: 6 });
}

#[test]
fn a_denial_that_cannot_be_sent_says_so() {
    let broken = (-i64::from(ERRNO_BROKEN_PIPE)) as u64;
    let (mut kernel, request) =
        requested(vec![answer(broken, [0; 4], &[]), answer(0, [0; 4], &[])]);
    let mut authorizer = Limited { left: 0, asked: Vec::new() };
    let denied = request.authorize(&mut kernel, &mut authorizer).expect("answers").err();
    let denied = denied.expect("denied");
    assert_eq!(denied.source, "spent");
    assert_eq!(denied.reply_error.map(|error| error.code()), Some(ERRNO_BROKEN_PIPE));
    assert_eq!(kernel.calls()[4].op, Op::Close { handle: 6 });
}
