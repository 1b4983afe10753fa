//! Native transport for service control.
//!
//! A client borrows an exact-`SEND` grant, for observation or for mutation, and owns only a
//! private reply receiver. A server owns an exact-`RECEIVE` ingress, and each request that it
//! accepts owns the reply sender that came with it until it is answered or closed.

use crate::abi::MAX_IPC_MESSAGE_BYTES;
use crate::bytes::equal;
use crate::control_protocol::{
    CorrelationError, DecodeError, Operation, RequestId, ServiceControlMessage,
    ServiceControlRequest, ServiceControlResponse, ServiceId, SERVICE_CONTROL_WIRE_BYTES,
};
use crate::exchange;
use crate::exchange::{
    open_exchange, validate_endpoint, EndpointShapeError, ExchangeError, PrivateReply,
};
use crate::ipc;
use crate::ipc::{CapabilityHandle, CapabilityInfo, ReceivedCapability, Rights};
use crate::kernel;
use crate::kernel::Kernel;
use crate::procedure;
use crate::procedure::{close_option_quietly, close_quietly, close_received};
use vstd::prelude::*;

verus! {

/// `7cbd3f65-50a6-4c30-b195-9fbed633da43`.
#[verifier::allow_in_spec]
pub fn logging_service_id() -> ServiceId
    returns
        (ServiceId { first: 0x304c_a650_653f_bd7c, second: 0x43da_33d6_be9f_95b1 }),
{
    ServiceId { first: 0x304c_a650_653f_bd7c, second: 0x43da_33d6_be9f_95b1 }
}

/// `f842db55-55c1-4dc7-a2dd-88f9e0785666`.
#[verifier::allow_in_spec]
pub fn nullfs_service_id() -> ServiceId
    returns
        (ServiceId { first: 0xc74d_c155_55db_42f8, second: 0x6656_78e0_f988_dda2 }),
{
    ServiceId { first: 0xc74d_c155_55db_42f8, second: 0x6656_78e0_f988_dda2 }
}

/// `522fe44e-98d1-4629-88e6-8b474a681abc`.
#[verifier::allow_in_spec]
pub fn tmpfs_service_id() -> ServiceId
    returns
        (ServiceId { first: 0x2946_d198_4ee4_2f52, second: 0xbc1a_684a_478b_e688 }),
{
    ServiceId { first: 0x2946_d198_4ee4_2f52, second: 0xbc1a_684a_478b_e688 }
}

/// `56c230a6-e18f-4635-9264-930708515b3c`.
#[verifier::allow_in_spec]
pub fn vfs_service_id() -> ServiceId
    returns
        (ServiceId { first: 0x3546_8fe1_a630_c256, second: 0x3c5b_5108_0793_6492 }),
{
    ServiceId { first: 0x3546_8fe1_a630_c256, second: 0x3c5b_5108_0793_6492 }
}

/// `1a2b3c4d-5e6f-4081-92a3-b4c5d6e7f809`.
#[verifier::allow_in_spec]
pub fn ahci_service_id() -> ServiceId
    returns
        (ServiceId { first: 0x8140_6f5e_4d3c_2b1a, second: 0x09f8_e7d6_c5b4_a392 }),
{
    ServiceId { first: 0x8140_6f5e_4d3c_2b1a, second: 0x09f8_e7d6_c5b4_a392 }
}

/// `2b3c4d5e-6f70-4192-a3b4-c5d6e7f8091a`.
#[verifier::allow_in_spec]
pub fn console_service_id() -> ServiceId
    returns
        (ServiceId { first: 0x9241_706f_5e4d_3c2b, second: 0x1a09_f8e7_d6c5_b4a3 }),
{
    ServiceId { first: 0x9241_706f_5e4d_3c2b, second: 0x1a09_f8e7_d6c5_b4a3 }
}

/// `3c4d5e6f-7081-42a3-b4c5-d6e7f8091a2b`.
#[verifier::allow_in_spec]
pub fn serial_service_id() -> ServiceId
    returns
        (ServiceId { first: 0xa342_8170_6f5e_4d3c, second: 0x2b1a_09f8_e7d6_c5b4 }),
{
    ServiceId { first: 0xa342_8170_6f5e_4d3c, second: 0x2b1a_09f8_e7d6_c5b4 }
}

/// `4d5e6f70-8192-43b4-85d6-e7f8091a2b3c`.
#[verifier::allow_in_spec]
pub fn keyboard_service_id() -> ServiceId
    returns
        (ServiceId { first: 0xb443_9281_706f_5e4d, second: 0x3c2b_1a09_f8e7_d685 }),
{
    ServiceId { first: 0xb443_9281_706f_5e4d, second: 0x3c2b_1a09_f8e7_d685 }
}

/// `logging`.
pub const LOGGING_NAME: [u8; 7] = [0x6c, 0x6f, 0x67, 0x67, 0x69, 0x6e, 0x67];

/// `nullfs`.
pub const NULLFS_NAME: [u8; 6] = [0x6e, 0x75, 0x6c, 0x6c, 0x66, 0x73];

/// `tmpfs`.
pub const TMPFS_NAME: [u8; 5] = [0x74, 0x6d, 0x70, 0x66, 0x73];

/// `vfs`.
pub const VFS_NAME: [u8; 3] = [0x76, 0x66, 0x73];

/// `ahci`.
pub const AHCI_NAME: [u8; 4] = [0x61, 0x68, 0x63, 0x69];

/// `console`.
pub const CONSOLE_NAME: [u8; 7] = [0x63, 0x6f, 0x6e, 0x73, 0x6f, 0x6c, 0x65];

/// `serial`.
pub const SERIAL_NAME: [u8; 6] = [0x73, 0x65, 0x72, 0x69, 0x61, 0x6c];

/// `keyboard`.
pub const KEYBOARD_NAME: [u8; 8] = [0x6b, 0x65, 0x79, 0x62, 0x6f, 0x61, 0x72, 0x64];

/// The service with this command name.
pub open spec fn service_named(name: Seq<u8>) -> Option<ServiceId> {
    if name == LOGGING_NAME@ {
        Some(logging_service_id())
    } else if name == NULLFS_NAME@ {
        Some(nullfs_service_id())
    } else if name == TMPFS_NAME@ {
        Some(tmpfs_service_id())
    } else if name == VFS_NAME@ {
        Some(vfs_service_id())
    } else if name == AHCI_NAME@ {
        Some(ahci_service_id())
    } else if name == CONSOLE_NAME@ {
        Some(console_service_id())
    } else if name == SERIAL_NAME@ {
        Some(serial_service_id())
    } else if name == KEYBOARD_NAME@ {
        Some(keyboard_service_id())
    } else {
        None
    }
}

/// The command name of this service.
pub open spec fn name_of(service: ServiceId) -> Option<Seq<u8>> {
    if service == logging_service_id() {
        Some(LOGGING_NAME@)
    } else if service == nullfs_service_id() {
        Some(NULLFS_NAME@)
    } else if service == tmpfs_service_id() {
        Some(TMPFS_NAME@)
    } else if service == vfs_service_id() {
        Some(VFS_NAME@)
    } else if service == ahci_service_id() {
        Some(AHCI_NAME@)
    } else if service == console_service_id() {
        Some(CONSOLE_NAME@)
    } else if service == serial_service_id() {
        Some(SERIAL_NAME@)
    } else if service == keyboard_service_id() {
        Some(KEYBOARD_NAME@)
    } else {
        None
    }
}

/// Maps a stable command name to its committed service.
pub fn service_id(name: &[u8]) -> (service: Option<ServiceId>)
    ensures
        service == service_named(name@),
{
    if equal(name, &LOGGING_NAME) {
        Some(logging_service_id())
    } else if equal(name, &NULLFS_NAME) {
        Some(nullfs_service_id())
    } else if equal(name, &TMPFS_NAME) {
        Some(tmpfs_service_id())
    } else if equal(name, &VFS_NAME) {
        Some(vfs_service_id())
    } else if equal(name, &AHCI_NAME) {
        Some(ahci_service_id())
    } else if equal(name, &CONSOLE_NAME) {
        Some(console_service_id())
    } else if equal(name, &SERIAL_NAME) {
        Some(serial_service_id())
    } else if equal(name, &KEYBOARD_NAME) {
        Some(keyboard_service_id())
    } else {
        None
    }
}

/// Maps a committed service to its stable command name.
pub fn service_name(service: ServiceId) -> (name: Option<&'static [u8]>)
    ensures
        match name {
            Some(name) => name_of(service) == Some(name@),
            None => name_of(service) is None,
        },
{
    if service == logging_service_id() {
        Some(&LOGGING_NAME)
    } else if service == nullfs_service_id() {
        Some(&NULLFS_NAME)
    } else if service == tmpfs_service_id() {
        Some(&TMPFS_NAME)
    } else if service == vfs_service_id() {
        Some(&VFS_NAME)
    } else if service == ahci_service_id() {
        Some(&AHCI_NAME)
    } else if service == console_service_id() {
        Some(&CONSOLE_NAME)
    } else if service == serial_service_id() {
        Some(&SERIAL_NAME)
    } else if service == keyboard_service_id() {
        Some(&KEYBOARD_NAME)
    } else {
        None
    }
}

/// The services that have a command name.
pub open spec fn known_services() -> Seq<ServiceId> {
    seq![
        logging_service_id(),
        nullfs_service_id(),
        tmpfs_service_id(),
        vfs_service_id(),
        ahci_service_id(),
        console_service_id(),
        serial_service_id(),
        keyboard_service_id(),
    ]
}

proof fn lemma_system_services_are_valid()
    ensures
        logging_service_id().valid(),
        nullfs_service_id().valid(),
        tmpfs_service_id().valid(),
        vfs_service_id().valid(),
{
}

proof fn lemma_device_services_are_valid()
    ensures
        ahci_service_id().valid(),
        console_service_id().valid(),
        serial_service_id().valid(),
        keyboard_service_id().valid(),
{
}

proof fn lemma_known_services_have_names(service: ServiceId)
    ensures
        name_of(service) is Some <==> known_services().contains(service),
        known_services().len() == 8,
        known_services().no_duplicates(),
{
    let known = known_services();
    assert(known[0] == logging_service_id());
    assert(known[1] == nullfs_service_id());
    assert(known[2] == tmpfs_service_id());
    assert(known[3] == vfs_service_id());
    assert(known[4] == ahci_service_id());
    assert(known[5] == console_service_id());
    assert(known[6] == serial_service_id());
    assert(known[7] == keyboard_service_id());
    if known.contains(service) {
        let i = choose|i: int| 0 <= i < known.len() && known[i] == service;
        assert(i == 0 || i == 1 || i == 2 || i == 3 || i == 4 || i == 5 || i == 6 || i == 7);
    }
}

proof fn lemma_names_are_distinct()
    ensures
        LOGGING_NAME@.len() == 7 && LOGGING_NAME@[0] == 0x6c,
        CONSOLE_NAME@.len() == 7 && CONSOLE_NAME@[0] == 0x63,
        NULLFS_NAME@.len() == 6 && NULLFS_NAME@[0] == 0x6e,
        SERIAL_NAME@.len() == 6 && SERIAL_NAME@[0] == 0x73,
        TMPFS_NAME@.len() == 5,
        VFS_NAME@.len() == 3,
        AHCI_NAME@.len() == 4,
        KEYBOARD_NAME@.len() == 8,
{
}

/// Names and services map both ways. The services that have a name are the eight known ones: they
/// are distinct, and every one of them is a random UUID.
pub proof fn lemma_names_map_both_ways(name: Seq<u8>, service: ServiceId)
    ensures
        service_named(name) == Some(service) <==> name_of(service) == Some(name),
        name_of(service) is Some <==> known_services().contains(service),
        name_of(service) is Some ==> service.valid(),
        known_services().len() == 8,
        known_services().no_duplicates(),
{
    lemma_known_services_have_names(service);
    lemma_names_are_distinct();
    lemma_system_services_are_valid();
    lemma_device_services_are_valid();
}

/// Why a request was not sent, or not sent cleanly.
#[derive(Clone, Copy, Debug, PartialEq, Eq, Structural)]
pub enum BeginError {
    MutationNotAllowed { operation: Operation },
    InspectGrant(ipc::Error),
    InvalidGrant(EndpointShapeError),
    CreateReplyEndpoint(ipc::Error),
    InspectReplyEndpoint(ipc::Error),
    InvalidReplyEndpoint(EndpointShapeError),
    DuplicateReplyReceiver(ipc::Error),
    InspectReplyReceiver(ipc::Error),
    InvalidReplyReceiver(EndpointShapeError),
    Send(ipc::Error),
    CloseReplySource(ipc::Error),
}

impl BeginError {
    /// Whether the request was queued before this failure.
    pub fn request_was_sent(self) -> (sent: bool)
        ensures
            sent == (self is CloseReplySource),
    {
        match self {
            Self::CloseReplySource(_) => true,
            _ => false,
        }
    }

    fn from_exchange(error: ExchangeError) -> (failure: Self)
        ensures
            failure == begin_failure(error),
    {
        match error {
            ExchangeError::InspectGrant(error) => Self::InspectGrant(error),
            ExchangeError::InvalidGrant(error) => Self::InvalidGrant(error),
            ExchangeError::CreateReplyEndpoint(error) => Self::CreateReplyEndpoint(error),
            ExchangeError::InspectReplyEndpoint(error) => Self::InspectReplyEndpoint(error),
            ExchangeError::InvalidReplyEndpoint(error) => Self::InvalidReplyEndpoint(error),
            ExchangeError::DuplicateReplyReceiver(error) => Self::DuplicateReplyReceiver(error),
            ExchangeError::InspectReplyReceiver(error) => Self::InspectReplyReceiver(error),
            ExchangeError::InvalidReplyReceiver(error) => Self::InvalidReplyReceiver(error),
            ExchangeError::Send(error) => Self::Send(error),
            ExchangeError::CloseReplySource(error) => Self::CloseReplySource(error),
        }
    }
}

/// A failed exchange, as a control client reports it.
pub open spec fn begin_failure(error: ExchangeError) -> BeginError {
    match error {
        ExchangeError::InspectGrant(error) => BeginError::InspectGrant(error),
        ExchangeError::InvalidGrant(error) => BeginError::InvalidGrant(error),
        ExchangeError::CreateReplyEndpoint(error) => BeginError::CreateReplyEndpoint(error),
        ExchangeError::InspectReplyEndpoint(error) => BeginError::InspectReplyEndpoint(error),
        ExchangeError::InvalidReplyEndpoint(error) => BeginError::InvalidReplyEndpoint(error),
        ExchangeError::DuplicateReplyReceiver(error) => BeginError::DuplicateReplyReceiver(error),
        ExchangeError::InspectReplyReceiver(error) => BeginError::InspectReplyReceiver(error),
        ExchangeError::InvalidReplyReceiver(error) => BeginError::InvalidReplyReceiver(error),
        ExchangeError::Send(error) => BeginError::Send(error),
        ExchangeError::CloseReplySource(error) => BeginError::CloseReplySource(error),
    }
}

/// Why a response was not accepted.
#[derive(Clone, Copy, Debug, PartialEq, Eq, Structural)]
pub enum CompleteError {
    Receive(ipc::Error),
    Decode(DecodeError),
    ZeroServerProcessId,
    UnexpectedCapability,
    Correlation(CorrelationError),
}

/// A response and the process that sent it.
#[derive(Clone, Copy, Debug, PartialEq, Eq, Structural)]
pub struct ControlReply {
    pub server: u64,
    pub answer: ServiceControlResponse,
}

impl ControlReply {
    pub fn server_process_id(self) -> (process_id: u64)
        ensures
            process_id == self.server,
    {
        self.server
    }

    pub fn response(self) -> (response: ServiceControlResponse)
        ensures
            response == self.answer,
    {
        self.answer
    }
}

/// A request that waits for its response. Whoever drops it before that has to call
/// [`Self::close`].
///
/// A clone owns nothing: it is there to run a procedure again from the same state.
#[derive(Clone, Debug)]
pub struct ControlExchange {
    request: ServiceControlMessage,
    reply_receive: Option<CapabilityHandle>,
    reply_object_id: u64,
}

/// A request that waits for its response, as the contracts see it.
pub ghost struct Exchange {
    pub request: ServiceControlMessage,
    pub reply_receive: Option<CapabilityHandle>,
    pub reply_object_id: u64,
}

impl View for ControlExchange {
    type V = Exchange;

    closed spec fn view(&self) -> Exchange {
        Exchange {
            request: self.request,
            reply_receive: self.reply_receive,
            reply_object_id: self.reply_object_id,
        }
    }
}

/// Requests that only look are allowed.
#[verifier::allow_in_spec]
pub fn ensure_observation(request: ServiceControlRequest) -> Result<(), Operation>
    returns
        (match request {
            ServiceControlRequest::List { .. } => Ok(()),
            ServiceControlRequest::Status { .. } => Ok(()),
            _ => Err(request.operation()),
        }),
{
    match request {
        ServiceControlRequest::List { .. } => Ok(()),
        ServiceControlRequest::Status { .. } => Ok(()),
        _ => Err(request.operation()),
    }
}

/// Requests that change something are allowed.
#[verifier::allow_in_spec]
pub fn ensure_mutation(request: ServiceControlRequest) -> Result<(), Operation>
    returns
        (match request {
            ServiceControlRequest::List { .. } => Err(request.operation()),
            ServiceControlRequest::Status { .. } => Err(request.operation()),
            _ => Ok(()),
        }),
{
    match request {
        ServiceControlRequest::List { .. } => Err(request.operation()),
        ServiceControlRequest::Status { .. } => Err(request.operation()),
        _ => Ok(()),
    }
}

/// Every request goes with exactly one of the two grants.
pub proof fn lemma_each_request_has_one_grant(request: ServiceControlRequest)
    ensures
        ensure_observation(request) is Ok <==> ensure_mutation(request) is Err,
{
}

/// Sending a request, once it is known to go with its grant.
pub open spec fn begin_run(
    k: kernel::Transcript,
    grant: CapabilityHandle,
    request: ServiceControlMessage,
    allowed: Result<(), Operation>,
) -> (kernel::Transcript, Option<Result<Exchange, BeginError>>) {
    match allowed {
        Err(operation) => procedure::done(k, Err(BeginError::MutationNotAllowed { operation })),
        Ok(_) => procedure::after(
            exchange::exchange_run(k, grant, request.encoded(), true),
            |k: kernel::Transcript, sent: Result<PrivateReply, ExchangeError>|
                match sent {
                    Err(error) => procedure::done(k, Err(begin_failure(error))),
                    Ok(reply) => procedure::done(
                        k,
                        Ok(
                            Exchange {
                                request,
                                reply_receive: Some(reply.receive),
                                reply_object_id: reply.object_id,
                            },
                        ),
                    ),
                },
        ),
    }
}

/// What a begun exchange is to the contracts.
pub open spec fn begun(result: Option<Result<ControlExchange, BeginError>>) -> Option<
    Result<Exchange, BeginError>,
> {
    match result {
        None => None,
        Some(Ok(exchange)) => Some(Ok(exchange@)),
        Some(Err(error)) => Some(Err(error)),
    }
}

/// What a message says in answer to `request`.
pub open spec fn client_verdict(
    request: ServiceControlMessage,
    bytes: Seq<u8>,
    sender_process_id: u64,
    has_capability: bool,
) -> Result<ControlReply, CompleteError> {
    match ServiceControlMessage::parsed(bytes) {
        Err(error) => Err(CompleteError::Decode(error)),
        Ok(message) => if sender_process_id == 0 {
            Err(CompleteError::ZeroServerProcessId)
        } else if has_capability {
            Err(CompleteError::UnexpectedCapability)
        } else {
            match message.correlated(request) {
                Err(error) => Err(CompleteError::Correlation(error)),
                Ok(_) => Ok(
                    ControlReply { server: sender_process_id, answer: message->response },
                ),
            }
        },
    }
}

/// Holds a message against the request that it should answer.
pub fn validate_client_response_envelope(
    request: ServiceControlMessage,
    bytes: &[u8],
    sender_process_id: u64,
    has_capability: bool,
) -> (result: Result<ControlReply, CompleteError>)
    ensures
        result == client_verdict(request, bytes@, sender_process_id, has_capability),
{
    let message = match ServiceControlMessage::decode(bytes) {
        Ok(message) => message,
        Err(error) => {
            return Err(CompleteError::Decode(error));
        },
    };
    if sender_process_id == 0 {
        return Err(CompleteError::ZeroServerProcessId);
    }
    if has_capability {
        return Err(CompleteError::UnexpectedCapability);
    }
    if let Err(error) = message.validate_response_to(&request) {
        return Err(CompleteError::Correlation(error));
    }
    match message {
        ServiceControlMessage::Response { response, .. } => Ok(
            ControlReply { server: sender_process_id, answer: response },
        ),
        ServiceControlMessage::Request { .. } => Err(
            CompleteError::Correlation(CorrelationError::NotAResponse),
        ),
    }
}

/// Looking once for the response. Every outcome but the absence of one closes the receiver.
pub open spec fn complete_run(k: kernel::Transcript, exchange: Exchange) -> (
    kernel::Transcript,
    Option<(Exchange, Result<Option<ControlReply>, CompleteError>)>,
) {
    match exchange.reply_receive {
        None => procedure::done(
            k,
            (exchange, Err(CompleteError::Receive(ipc::Error::bad_file_descriptor()))),
        ),
        Some(receive) => {
            let ended = Exchange { reply_receive: None, ..exchange };
            procedure::after(
                ipc::try_receive_run(k, receive, SERVICE_CONTROL_WIRE_BYTES),
                |k: kernel::Transcript, received: Result<ipc::Delivery, ipc::Error>|
                    match received {
                        Err(error) => if error == ipc::Error::try_again() {
                            procedure::done(k, (exchange, Ok(None)))
                        } else {
                            procedure::after(
                                procedure::quiet_run(k, receive),
                                |k: kernel::Transcript, closed: ()|
                                    procedure::done(k, (ended, Err(CompleteError::Receive(error)))),
                            )
                        },
                        Ok(delivery) => {
                            let verdict = client_verdict(
                                exchange.request,
                                delivery.payload,
                                delivery.message.sender_process_id,
                                delivery.message.capability is Some,
                            );
                            procedure::after(
                                procedure::quiet_received_run(k, delivery.message.capability),
                                |k: kernel::Transcript, closed: ()|
                                    procedure::after(
                                        procedure::quiet_run(k, receive),
                                        |k: kernel::Transcript, closed: ()|
                                            procedure::done(
                                                k,
                                                (
                                                    ended,
                                                    match verdict {
                                                        Ok(reply) => Ok(Some(reply)),
                                                        Err(error) => Err(error),
                                                    },
                                                ),
                                            ),
                                    ),
                            )
                        },
                    },
            )
        },
    }
}

impl ControlExchange {
    /// Sends a request that only looks, with an exact-`SEND` reply capability.
    pub fn begin(
        k: &mut Kernel,
        observation_grant: CapabilityHandle,
        request_id: RequestId,
        request: ServiceControlRequest,
    ) -> (result: Option<Result<Self, BeginError>>)
        ensures
            (final(k)@, begun(result)) == begin_run(
                old(k)@,
                observation_grant,
                ServiceControlMessage::request(request_id, request),
                ensure_observation(request),
            ),
    {
        if let Err(operation) = ensure_observation(request) {
            return Some(Err(BeginError::MutationNotAllowed { operation }));
        }
        Self::begin_authorized(k, observation_grant, request_id, request)
    }

    /// Sends a request that changes something, over its own exact-`SEND` grant.
    pub fn begin_mutation(
        k: &mut Kernel,
        mutation_grant: CapabilityHandle,
        request_id: RequestId,
        request: ServiceControlRequest,
    ) -> (result: Option<Result<Self, BeginError>>)
        ensures
            (final(k)@, begun(result)) == begin_run(
                old(k)@,
                mutation_grant,
                ServiceControlMessage::request(request_id, request),
                ensure_mutation(request),
            ),
    {
        if let Err(operation) = ensure_mutation(request) {
            return Some(Err(BeginError::MutationNotAllowed { operation }));
        }
        Self::begin_authorized(k, mutation_grant, request_id, request)
    }

    fn begin_authorized(
        k: &mut Kernel,
        authority_grant: CapabilityHandle,
        request_id: RequestId,
        request: ServiceControlRequest,
    ) -> (result: Option<Result<Self, BeginError>>)
        ensures
            (final(k)@, begun(result)) == begin_run(
                old(k)@,
                authority_grant,
                ServiceControlMessage::request(request_id, request),
                Ok(()),
            ),
    {
        let request = ServiceControlMessage::request(request_id, request);
        let bytes = request.encode();
        match open_exchange(k, authority_grant, &bytes, true)? {
            Err(error) => Some(Err(BeginError::from_exchange(error))),
            Ok(reply) => Some(
                Ok(
                    ControlExchange {
                        request,
                        reply_receive: Some(reply.receive),
                        reply_object_id: reply.object_id,
                    },
                ),
            ),
        }
    }

    pub fn request(&self) -> (request: ServiceControlMessage)
        ensures
            request == self@.request,
    {
        self.request
    }

    pub fn reply_object_id(&self) -> (object_id: u64)
        ensures
            object_id == self@.reply_object_id,
    {
        self.reply_object_id
    }

    /// Looks once for the response. Any result other than `Ok(None)` is final.
    pub fn try_complete(&mut self, k: &mut Kernel) -> (result: Option<
        Result<Option<ControlReply>, CompleteError>,
    >)
        ensures
            ({
                let (asked, outcome) = complete_run(old(k)@, old(self)@);
                &&& final(k)@ == asked
                &&& match result {
                    Some(result) => outcome == Some((final(self)@, result)),
                    None => outcome is None,
                }
            }),
    {
        let receive = match self.reply_receive {
            Some(receive) => receive,
            None => {
                return Some(Err(CompleteError::Receive(ipc::Error::bad_file_descriptor())));
            },
        };
        let received = match ipc::try_receive(k, receive, SERVICE_CONTROL_WIRE_BYTES)? {
            Ok(received) => received,
            Err(error) => {
                if error == ipc::Error::try_again() {
                    return Some(Ok(None));
                }
                close_quietly(k, receive)?;
                self.reply_receive = None;
                return Some(Err(CompleteError::Receive(error)));
            },
        };
        let verdict = validate_client_response_envelope(
            self.request,
            received.payload.as_slice(),
            received.message.sender_process_id,
            received.message.capability.is_some(),
        );
        close_received(k, received.message.capability)?;
        close_quietly(k, receive)?;
        self.reply_receive = None;
        match verdict {
            Ok(reply) => Some(Ok(Some(reply))),
            Err(error) => Some(Err(error)),
        }
    }

    /// Gives up on the response.
    pub fn close(self, k: &mut Kernel) -> (result: Option<()>)
        ensures
            (final(k)@, result) == procedure::quiet_option_run(old(k)@, self@.reply_receive),
    {
        close_option_quietly(k, self.reply_receive)
    }
}

/// An exchange ends at most once: after a final result its receiver is gone, and asking again
/// makes no call.
pub proof fn lemma_a_finished_exchange_stays_finished(
    k: kernel::Transcript,
    exchange: Exchange,
    later: kernel::Transcript,
)
    requires
        complete_run(k, exchange).1 is Some,
        (complete_run(k, exchange).1->0).1 != Ok::<Option<ControlReply>, CompleteError>(None),
    ensures
        ({
            let ended = (complete_run(k, exchange).1->0).0;
            &&& ended.reply_receive is None
            &&& complete_run(later, ended) == (
                later,
                Some(
                    (
                        ended,
                        Err::<Option<ControlReply>, _>(
                            CompleteError::Receive(ipc::Error::bad_file_descriptor()),
                        ),
                    ),
                ),
            )
        }),
{
}

/// Why an ingress was not bound.
#[derive(Clone, Copy, Debug, PartialEq, Eq, Structural)]
pub enum BindError {
    Inspect(ipc::Error),
    Invalid(EndpointShapeError),
}

/// Why a request was not accepted.
#[derive(Clone, Copy, Debug, PartialEq, Eq, Structural)]
pub enum IngressError {
    Receive(ipc::Error),
    Decode(DecodeError),
    ResponseNotAllowed,
    ZeroCallerProcessId,
    MissingReplyCapability,
    InvalidTransferredRights { actual: Rights },
    InspectReply(ipc::Error),
    InvalidReply(EndpointShapeError),
}

/// Where requests come in: one exact-`RECEIVE` endpoint. Whoever drops it has to call
/// [`Self::close`].
///
/// A clone owns nothing: it is there to run a procedure again from the same state.
#[derive(Clone, Debug)]
pub struct ControlIngress {
    receive: CapabilityHandle,
    object_id: u64,
}

/// An ingress as the contracts see it.
pub ghost struct Ingress {
    pub receive: CapabilityHandle,
    pub object_id: u64,
}

impl View for ControlIngress {
    type V = Ingress;

    closed spec fn view(&self) -> Ingress {
        Ingress { receive: self.receive, object_id: self.object_id }
    }
}

/// Inspecting an endpoint on which requests will come in.
pub open spec fn bind_run(k: kernel::Transcript, receive: CapabilityHandle) -> (
    kernel::Transcript,
    Option<Result<Ingress, BindError>>,
) {
    procedure::after(
        ipc::info_run(k, receive),
        |k: kernel::Transcript, inspected: Result<CapabilityInfo, ipc::Error>|
            match inspected {
                Err(error) => procedure::done(k, Err(BindError::Inspect(error))),
                Ok(info) => match validate_endpoint(info, Rights::receive(), false) {
                    Err(error) => procedure::done(k, Err(BindError::Invalid(error))),
                    Ok(_) => procedure::done(
                        k,
                        Ok(Ingress { receive, object_id: info.object_id }),
                    ),
                },
            },
    )
}

/// What a bound ingress is to the contracts.
pub open spec fn bound(result: Option<Result<ControlIngress, BindError>>) -> Option<
    Result<Ingress, BindError>,
> {
    match result {
        None => None,
        Some(Ok(ingress)) => Some(Ok(ingress@)),
        Some(Err(error)) => Some(Err(error)),
    }
}

/// The request that a message makes, if it comes from a caller with one exact-`SEND` reply.
pub open spec fn request_verdict(
    bytes: Seq<u8>,
    sender_process_id: u64,
    capability_rights: Option<Rights>,
) -> Result<(RequestId, ServiceControlRequest), IngressError> {
    match ServiceControlMessage::parsed(bytes) {
        Err(error) => Err(IngressError::Decode(error)),
        Ok(ServiceControlMessage::Response { .. }) => Err(IngressError::ResponseNotAllowed),
        Ok(ServiceControlMessage::Request { request_id, request }) => if sender_process_id == 0 {
            Err(IngressError::ZeroCallerProcessId)
        } else {
            match capability_rights {
                None => Err(IngressError::MissingReplyCapability),
                Some(actual) => if actual == Rights::send() {
                    Ok((request_id, request))
                } else {
                    Err(IngressError::InvalidTransferredRights { actual })
                },
            }
        },
    }
}

pub fn validate_request_envelope(
    bytes: &[u8],
    sender_process_id: u64,
    capability_rights: Option<Rights>,
) -> (result: Result<(RequestId, ServiceControlRequest), IngressError>)
    ensures
        result == request_verdict(bytes@, sender_process_id, capability_rights),
{
    let message = match ServiceControlMessage::decode(bytes) {
        Ok(message) => message,
        Err(error) => {
            return Err(IngressError::Decode(error));
        },
    };
    match message {
        ServiceControlMessage::Response { .. } => Err(IngressError::ResponseNotAllowed),
        ServiceControlMessage::Request { request_id, request } => {
            if sender_process_id == 0 {
                return Err(IngressError::ZeroCallerProcessId);
            }
            match capability_rights {
                None => Err(IngressError::MissingReplyCapability),
                Some(actual) => {
                    if actual == Rights::send() {
                        Ok((request_id, request))
                    } else {
                        Err(IngressError::InvalidTransferredRights { actual })
                    }
                },
            }
        },
    }
}

/// What a reply endpoint must be beside the ingress that its request came in on.
#[verifier::allow_in_spec]
pub fn reply_shape(info: CapabilityInfo, ingress_object_id: u64) -> Result<(), EndpointShapeError>
    returns
        (match validate_endpoint(info, Rights::send(), true) {
            Err(error) => Err(error),
            Ok(_) => if info.object_id == ingress_object_id {
                Err(EndpointShapeError::SameObject { object_id: info.object_id })
            } else {
                Ok(())
            },
        }),
{
    if let Err(error) = validate_endpoint(info, Rights::send(), true) {
        return Err(error);
    }
    if info.object_id == ingress_object_id {
        return Err(EndpointShapeError::SameObject { object_id: info.object_id });
    }
    Ok(())
}

/// The rights of a capability that may have come.
#[verifier::allow_in_spec]
pub fn rights_of(capability: Option<ReceivedCapability>) -> Option<Rights>
    returns
        (match capability {
            Some(capability) => Some(capability.rights),
            None => None,
        }),
{
    match capability {
        Some(capability) => Some(capability.rights),
        None => None,
    }
}

/// A request that was accepted, as the contracts see it.
pub ghost struct Pending {
    pub request_id: RequestId,
    pub request: ServiceControlRequest,
    pub caller_process_id: u64,
    pub reply: CapabilityHandle,
}

/// Checking a message and the reply endpoint that came with it. A capability that is not kept is
/// closed.
pub open spec fn admit_run(k: kernel::Transcript, ingress: Ingress, delivery: ipc::Delivery) -> (
    kernel::Transcript,
    Option<Result<Pending, IngressError>>,
) {
    let message = delivery.message;
    match request_verdict(
        delivery.payload,
        message.sender_process_id,
        rights_of(message.capability),
    ) {
        Err(error) => procedure::fail_after(
            procedure::quiet_received_run(k, message.capability),
            error,
        ),
        Ok((request_id, request)) => {
            let reply = message.capability->0.handle;
            procedure::after(
                ipc::info_run(k, reply),
                |k: kernel::Transcript, inspected: Result<CapabilityInfo, ipc::Error>|
                    match inspected {
                        Err(error) => procedure::fail_after(
                            procedure::quiet_run(k, reply),
                            IngressError::InspectReply(error),
                        ),
                        Ok(info) => match reply_shape(info, ingress.object_id) {
                            Err(error) => procedure::fail_after(
                                procedure::quiet_run(k, reply),
                                IngressError::InvalidReply(error),
                            ),
                            Ok(_) => procedure::done(
                                k,
                                Ok(
                                    Pending {
                                        request_id,
                                        request,
                                        caller_process_id: message.sender_process_id,
                                        reply,
                                    },
                                ),
                            ),
                        },
                    },
            )
        },
    }
}

/// Looking once for a request.
pub open spec fn accept_run(k: kernel::Transcript, ingress: Ingress) -> (
    kernel::Transcript,
    Option<Result<Option<Pending>, IngressError>>,
) {
    procedure::after(
        ipc::try_receive_run(k, ingress.receive, MAX_IPC_MESSAGE_BYTES),
        |k: kernel::Transcript, received: Result<ipc::Delivery, ipc::Error>|
            match received {
                Err(error) => if error == ipc::Error::try_again() {
                    procedure::done(k, Ok(None))
                } else {
                    procedure::done(k, Err(IngressError::Receive(error)))
                },
                Ok(delivery) => procedure::after(
                    admit_run(k, ingress, delivery),
                    |k: kernel::Transcript, admitted: Result<Pending, IngressError>|
                        match admitted {
                            Ok(pending) => procedure::done(k, Ok(Some(pending))),
                            Err(error) => procedure::done(k, Err(error)),
                        },
                ),
            },
    )
}

/// What an accepted request is to the contracts.
pub open spec fn accepted(
    result: Option<Result<Option<PendingControlRequest>, IngressError>>,
) -> Option<Result<Option<Pending>, IngressError>> {
    match result {
        None => None,
        Some(Ok(None)) => Some(Ok(None)),
        Some(Ok(Some(pending))) => Some(Ok(Some(pending@))),
        Some(Err(error)) => Some(Err(error)),
    }
}

/// What an admitted request is to the contracts.
pub open spec fn admitted(result: Option<Result<PendingControlRequest, IngressError>>) -> Option<
    Result<Pending, IngressError>,
> {
    match result {
        None => None,
        Some(Ok(pending)) => Some(Ok(pending@)),
        Some(Err(error)) => Some(Err(error)),
    }
}

fn validate_ingress_request(
    k: &mut Kernel,
    ingress: &ControlIngress,
    received: &ipc::Received,
) -> (result: Option<Result<PendingControlRequest, IngressError>>)
    ensures
        (final(k)@, admitted(result)) == admit_run(old(k)@, ingress@, received@),
{
    let message = received.message;
    let (request_id, request) = match validate_request_envelope(
        received.payload.as_slice(),
        message.sender_process_id,
        rights_of(message.capability),
    ) {
        Ok(request) => request,
        Err(error) => {
            close_received(k, message.capability)?;
            return Some(Err(error));
        },
    };
    let reply = match message.capability {
        Some(capability) => capability.handle,
        None => {
            return Some(Err(IngressError::MissingReplyCapability));
        },
    };
    let info = match ipc::info(k, reply)? {
        Ok(info) => info,
        Err(error) => {
            close_quietly(k, reply)?;
            return Some(Err(IngressError::InspectReply(error)));
        },
    };
    if let Err(error) = reply_shape(info, ingress.object_id) {
        close_quietly(k, reply)?;
        return Some(Err(IngressError::InvalidReply(error)));
    }
    Some(
        Ok(
            PendingControlRequest {
                request_id,
                request,
                caller_process_id: message.sender_process_id,
                reply,
            },
        ),
    )
}

impl ControlIngress {
    pub fn bind(k: &mut Kernel, receive: CapabilityHandle) -> (result: Option<
        Result<Self, BindError>,
    >)
        ensures
            (final(k)@, bound(result)) == bind_run(old(k)@, receive),
    {
        let info = match ipc::info(k, receive)? {
            Ok(info) => info,
            Err(error) => {
                return Some(Err(BindError::Inspect(error)));
            },
        };
        if let Err(error) = validate_endpoint(info, Rights::receive(), false) {
            return Some(Err(BindError::Invalid(error)));
        }
        Some(Ok(ControlIngress { receive, object_id: info.object_id }))
    }

    pub fn object_id(&self) -> (object_id: u64)
        ensures
            object_id == self@.object_id,
    {
        self.object_id
    }

    /// Looks once for a request. The buffer is as large as a message can be, so that a malformed
    /// message never stays at the head of the queue.
    pub fn try_accept(&mut self, k: &mut Kernel) -> (result: Option<
        Result<Option<PendingControlRequest>, IngressError>,
    >)
        ensures
            (final(k)@, accepted(result)) == accept_run(old(k)@, old(self)@),
            final(self)@ == old(self)@,
    {
        let received = match ipc::try_receive(k, self.receive, MAX_IPC_MESSAGE_BYTES)? {
            Ok(received) => received,
            Err(error) => {
                if error == ipc::Error::try_again() {
                    return Some(Ok(None));
                }
                return Some(Err(IngressError::Receive(error)));
            },
        };
        match validate_ingress_request(k, self, &received)? {
            Ok(pending) => Some(Ok(Some(pending))),
            Err(error) => Some(Err(error)),
        }
    }

    pub fn close(self, k: &mut Kernel) -> (result: Option<()>)
        ensures
            (final(k)@, result) == procedure::quiet_run(old(k)@, self@.receive),
    {
        close_quietly(k, self.receive)
    }
}

/// Why a response was not delivered, or not delivered cleanly.
#[derive(Clone, Copy, Debug, PartialEq, Eq, Structural)]
pub enum ReplyError {
    Correlation(CorrelationError),
    Send(ipc::Error),
    Close(ipc::Error),
}

/// A request that was accepted, with its exact-`SEND` reply endpoint. It ends with
/// [`Self::reply`] or [`Self::close`].
#[derive(Debug)]
pub struct PendingControlRequest {
    request_id: RequestId,
    request: ServiceControlRequest,
    caller_process_id: u64,
    reply: CapabilityHandle,
}

impl View for PendingControlRequest {
    type V = Pending;

    closed spec fn view(&self) -> Pending {
        Pending {
            request_id: self.request_id,
            request: self.request,
            caller_process_id: self.caller_process_id,
            reply: self.reply,
        }
    }
}

/// The outcome of sending a response and then closing the reply endpoint.
pub open spec fn reply_outcome(sent: Result<(), ipc::Error>, closed: Result<(), ipc::Error>) -> Result<
    (),
    ReplyError,
> {
    match (sent, closed) {
        (Err(error), _) => Err(ReplyError::Send(error)),
        (Ok(_), Err(error)) => Err(ReplyError::Close(error)),
        (Ok(_), Ok(_)) => Ok(()),
    }
}

/// Answering a request once. The reply endpoint is closed whatever happens.
pub open spec fn reply_run(
    k: kernel::Transcript,
    pending: Pending,
    response: ServiceControlResponse,
) -> (kernel::Transcript, Option<Result<(), ReplyError>>) {
    let request = ServiceControlMessage::request(pending.request_id, pending.request);
    let message = ServiceControlMessage::response(pending.request_id, response);
    match message.correlated(request) {
        Err(error) => procedure::fail_after(
            procedure::quiet_run(k, pending.reply),
            ReplyError::Correlation(error),
        ),
        Ok(_) => procedure::after(
            ipc::send_run(k, pending.reply, message.encoded(), None),
            |k: kernel::Transcript, sent: Result<(), ipc::Error>|
                procedure::after(
                    ipc::close_run(k, pending.reply),
                    |k: kernel::Transcript, closed: Result<(), ipc::Error>|
                        procedure::done(k, reply_outcome(sent, closed)),
                ),
        ),
    }
}

impl PendingControlRequest {
    pub fn request_id(&self) -> (request_id: RequestId)
        ensures
            request_id == self@.request_id,
    {
        self.request_id
    }

    pub fn request(&self) -> (request: ServiceControlRequest)
        ensures
            request == self@.request,
    {
        self.request
    }

    pub fn caller_process_id(&self) -> (process_id: u64)
        ensures
            process_id == self@.caller_process_id,
    {
        self.caller_process_id
    }

    /// Sends exactly one response that answers the request, without a capability, and closes the
    /// reply endpoint.
    pub fn reply(self, k: &mut Kernel, response: ServiceControlResponse) -> (result: Option<
        Result<(), ReplyError>,
    >)
        ensures
            (final(k)@, result) == reply_run(old(k)@, self@, response),
    {
        let request = ServiceControlMessage::request(self.request_id, self.request);
        let message = ServiceControlMessage::response(self.request_id, response);
        if let Err(error) = message.validate_response_to(&request) {
            close_quietly(k, self.reply)?;
            return Some(Err(ReplyError::Correlation(error)));
        }
        let bytes = message.encode();
        let sent = ipc::send(k, self.reply, &bytes, None)?;
        let closed = ipc::close(k, self.reply)?;
        match (sent, closed) {
            (Err(error), _) => Some(Err(ReplyError::Send(error))),
            (Ok(_), Err(error)) => Some(Err(ReplyError::Close(error))),
            (Ok(_), Ok(_)) => Some(Ok(())),
        }
    }

    /// Drops the request without an answer.
    pub fn close(self, k: &mut Kernel) -> (result: Option<()>)
        ensures
            (final(k)@, result) == procedure::quiet_run(old(k)@, self@.reply),
    {
        close_quietly(k, self.reply)
    }
}

/// What a server sends in answer to a request is what the client accepts: the bytes of a valid
/// response that answers the request give that response back.
pub proof fn lemma_client_accepts_what_the_server_sends(
    request_id: RequestId,
    request: ServiceControlRequest,
    response: ServiceControlResponse,
    server_process_id: u64,
)
    requires
        request_id.raw != 0,
        response.valid(),
        server_process_id != 0,
        ServiceControlMessage::response(request_id, response).correlated(
            ServiceControlMessage::request(request_id, request),
        ) is Ok,
    ensures
        client_verdict(
            ServiceControlMessage::request(request_id, request),
            ServiceControlMessage::response(request_id, response).encoded(),
            server_process_id,
            false,
        ) == Ok::<_, CompleteError>(ControlReply { server: server_process_id, answer: response }),
{
    crate::control_protocol::lemma_control_message_round_trip(
        ServiceControlMessage::response(request_id, response),
    );
}

/// What a client sends is what the server accepts: the bytes of a request give that request back.
pub proof fn lemma_server_accepts_what_the_client_sends(
    request_id: RequestId,
    request: ServiceControlRequest,
    caller_process_id: u64,
)
    requires
        request_id.raw != 0,
        request.valid(),
        caller_process_id != 0,
    ensures
        request_verdict(
            ServiceControlMessage::request(request_id, request).encoded(),
            caller_process_id,
            Some(Rights::send()),
        ) == Ok::<_, IngressError>((request_id, request)),
{
    crate::control_protocol::lemma_control_message_round_trip(
        ServiceControlMessage::request(request_id, request),
    );
}

/// A request that is accepted is what its message says and names who sent it. The endpoint that
/// came with the message is where the answer goes: it is open, may only be sent to, holds nothing
/// and is not the ingress itself.
pub proof fn lemma_accepted_request_can_be_answered(k: kernel::Transcript, ingress: Ingress)
    ensures
        ({
            let (after, outcome) = accept_run(k, ingress);
            outcome matches Some(Ok(Some(pending))) ==> {
                &&& after.follows(k)
                &&& after.asked_since(k, kernel::Op::Info { handle: pending.reply })
                &&& forall|i: int|
                    k.asked.len() <= i < after.asked.len() ==> !((#[trigger] after.asked[i]).op
                        is Close)
                &&& k.reply() matches Some(reply) && {
                    &&& ServiceControlMessage::parsed(reply.bytes) matches Ok(message) && message
                        == ServiceControlMessage::request(pending.request_id, pending.request)
                    &&& reply.words[0] == pending.caller_process_id
                    &&& pending.caller_process_id != 0
                    &&& reply.words[2] == pending.reply
                    &&& reply.words[3] == Rights::send().raw
                }
            }
        }),
{
    let (after, outcome) = accept_run(k, ingress);
    if let Some(Ok(Some(pending))) = outcome {
        assert(after.asked[k.asked.len() as int + 1].op == kernel::Op::Info {
            handle: pending.reply,
        });
    }
}

} // verus!
