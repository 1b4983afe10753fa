//! Native transport for service routes, and the table in which providers publish them.
//!
//! Every operation here handles one message and does not wait: callers fold
//! [`RouteResolution::try_complete`] and [`RouteIngress::try_accept`] into bounded pumps of their
//! own.

use crate::abi::MAX_IPC_MESSAGE_BYTES;
use crate::exchange;
use crate::exchange::{open_exchange, ExchangeError, PrivateReply};
pub use crate::exchange::{validate_endpoint, EndpointShapeError};
pub use crate::identity::{
    GenerationExhausted, ProviderGeneration, ProviderGenerationSequence, RoleId, RouteKey,
    ServiceId,
};
use crate::ipc;
use crate::ipc::{CapabilityHandle, CapabilityInfo, Rights, Transfer};
use crate::kernel;
use crate::kernel::{Kernel, Op};
use crate::procedure;
use crate::procedure::{close_option_quietly, close_quietly, close_received};
use crate::route_protocol;
pub use crate::route_protocol::{
    DecodeError, PublishError, PublishedRoute, RouteFailure, RouteMessage, RouteTable,
    ServiceGenerationDecodeError, ServiceGenerationHandoff, WithdrawError,
    SERVICE_GENERATION_WIRE_BYTES, SERVICE_ROUTE_WIRE_BYTES,
};
use crate::service_control::rights_of;
use vstd::prelude::*;

verus! {

/// What the stable source of a provider allows: `SEND`, `DUPLICATE` and `TRANSFER`.
#[verifier::allow_in_spec]
pub fn provider_source_rights() -> Rights
    returns
        Rights::send().with(Rights::duplicate()).with(Rights::transfer()),
{
    Rights::send().with(Rights::duplicate()).with(Rights::transfer())
}

/// What the copy that travels to a client allows until it arrives: `SEND` and `TRANSFER`.
#[verifier::allow_in_spec]
pub fn disposable_provider_rights() -> Rights
    returns
        Rights::send().with(Rights::transfer()),
{
    Rights::send().with(Rights::transfer())
}

/// What travels is never more than what the source allows, and a client gets `SEND` alone.
pub proof fn lemma_issued_rights_are_contained()
    ensures
        provider_source_rights().contains(disposable_provider_rights()),
        disposable_provider_rights().contains(Rights::send()),
        !provider_source_rights().contains(Rights::receive()),
{
    let send = Rights::send().raw;
    let duplicate = Rights::duplicate().raw;
    let transfer = Rights::transfer().raw;
    let receive = Rights::receive().raw;
    assert((send | duplicate | transfer) & (send | transfer) == send | transfer) by (bit_vector);
    assert((send | transfer) & send == send) by (bit_vector);
    assert((send | duplicate | transfer) & receive != receive) by (bit_vector)
        requires
            send == crate::abi::RIGHT_SEND,
            duplicate == crate::abi::RIGHT_DUPLICATE,
            transfer == crate::abi::RIGHT_TRANSFER,
            receive == crate::abi::RIGHT_RECEIVE,
    ;
}

#[derive(Clone, Copy, Debug, PartialEq, Eq, Structural)]
pub enum GenerationHandoffSendError {
    Inspect(ipc::Error),
    InvalidEndpoint(EndpointShapeError),
    Send(ipc::Error),
}

#[derive(Clone, Copy, Debug, PartialEq, Eq, Structural)]
pub enum GenerationHandoffReceiveError {
    InvalidExpectedSender,
    Inspect(ipc::Error),
    InvalidEndpoint(EndpointShapeError),
    Receive(ipc::Error),
    UnexpectedSender { expected: u64, actual: u64 },
    UnexpectedCapability,
    Decode(ServiceGenerationDecodeError),
    Close(ipc::Error),
}

/// Queueing a generation on an empty full-rights endpoint.
pub open spec fn queue_generation_run(
    k: kernel::Transcript,
    source: CapabilityHandle,
    generation: ProviderGeneration,
) -> (kernel::Transcript, Option<Result<(), GenerationHandoffSendError>>) {
    procedure::after(
        ipc::info_run(k, source),
        |k: kernel::Transcript, inspected: Result<CapabilityInfo, ipc::Error>|
            match inspected {
                Err(error) => procedure::done(k, Err(GenerationHandoffSendError::Inspect(error))),
                Ok(info) => match validate_endpoint(info, Rights::endpoint(), true) {
                    Err(error) => procedure::done(
                        k,
                        Err(GenerationHandoffSendError::InvalidEndpoint(error)),
                    ),
                    Ok(_) => procedure::after(
                        ipc::send_run(
                            k,
                            source,
                            ServiceGenerationHandoff::new(generation).encoded(),
                            None,
                        ),
                        |k: kernel::Transcript, sent: Result<(), ipc::Error>|
                            match sent {
                                Ok(_) => procedure::done(k, Ok(())),
                                Err(error) => procedure::done(
                                    k,
                                    Err(GenerationHandoffSendError::Send(error)),
                                ),
                            },
                    ),
                },
            },
    )
}

/// Queues one generation handoff on an empty full-rights endpoint, which stays with the caller.
/// Sent before the child is released, it is there when the child looks.
pub fn queue_service_generation(
    k: &mut Kernel,
    source: CapabilityHandle,
    generation: ProviderGeneration,
) -> (result: Option<Result<(), GenerationHandoffSendError>>)
    ensures
        (final(k)@, result) == queue_generation_run(old(k)@, source, generation),
{
    let info = match ipc::info(k, source)? {
        Ok(info) => info,
        Err(error) => {
            return Some(Err(GenerationHandoffSendError::Inspect(error)));
        },
    };
    if let Err(error) = validate_endpoint(info, Rights::endpoint(), true) {
        return Some(Err(GenerationHandoffSendError::InvalidEndpoint(error)));
    }
    let bytes = ServiceGenerationHandoff::new(generation).encode();
    match ipc::send(k, source, &bytes, None)? {
        Ok(_) => Some(Ok(())),
        Err(error) => Some(Err(GenerationHandoffSendError::Send(error))),
    }
}

/// The generation that a message hands over, if it comes alone and from the expected process.
pub open spec fn handoff_verdict(
    bytes: Seq<u8>,
    sender_process_id: u64,
    expected_sender: u64,
    has_capability: bool,
) -> Result<ProviderGeneration, GenerationHandoffReceiveError> {
    if has_capability {
        Err(GenerationHandoffReceiveError::UnexpectedCapability)
    } else if sender_process_id != expected_sender {
        Err(
            GenerationHandoffReceiveError::UnexpectedSender {
                expected: expected_sender,
                actual: sender_process_id,
            },
        )
    } else {
        match ServiceGenerationHandoff::parsed(bytes) {
            Ok(handoff) => Ok(handoff.generation),
            Err(error) => Err(GenerationHandoffReceiveError::Decode(error)),
        }
    }
}

pub fn validate_service_generation_envelope(
    bytes: &[u8],
    sender_process_id: u64,
    expected_sender: u64,
    has_capability: bool,
) -> (result: Result<ProviderGeneration, GenerationHandoffReceiveError>)
    ensures
        result == handoff_verdict(bytes@, sender_process_id, expected_sender, has_capability),
{
    if has_capability {
        return Err(GenerationHandoffReceiveError::UnexpectedCapability);
    }
    if sender_process_id != expected_sender {
        return Err(
            GenerationHandoffReceiveError::UnexpectedSender {
                expected: expected_sender,
                actual: sender_process_id,
            },
        );
    }
    match ServiceGenerationHandoff::decode(bytes) {
        Ok(handoff) => Ok(handoff.generation()),
        Err(error) => Err(GenerationHandoffReceiveError::Decode(error)),
    }
}

/// Waiting for the generation on an endpoint.
pub open spec fn handoff_run(
    k: kernel::Transcript,
    receive: CapabilityHandle,
    expected_sender: u64,
) -> (kernel::Transcript, Option<Result<ProviderGeneration, GenerationHandoffReceiveError>>) {
    procedure::after(
        ipc::info_run(k, receive),
        |k: kernel::Transcript, inspected: Result<CapabilityInfo, ipc::Error>|
            match inspected {
                Err(error) => procedure::done(
                    k,
                    Err(GenerationHandoffReceiveError::Inspect(error)),
                ),
                Ok(info) => match validate_endpoint(info, Rights::receive(), false) {
                    Err(error) => procedure::done(
                        k,
                        Err(GenerationHandoffReceiveError::InvalidEndpoint(error)),
                    ),
                    Ok(_) => procedure::after(
                        ipc::receive_run(k, receive, SERVICE_GENERATION_WIRE_BYTES),
                        |k: kernel::Transcript, received: Result<ipc::Delivery, ipc::Error>|
                            match received {
                                Err(error) => procedure::done(
                                    k,
                                    Err(GenerationHandoffReceiveError::Receive(error)),
                                ),
                                Ok(delivery) => procedure::after(
                                    procedure::quiet_received_run(k, delivery.message.capability),
                                    |k: kernel::Transcript, closed: ()|
                                        procedure::done(
                                            k,
                                            handoff_verdict(
                                                delivery.payload,
                                                delivery.message.sender_process_id,
                                                expected_sender,
                                                delivery.message.capability is Some,
                                            ),
                                        ),
                                ),
                            },
                    ),
                },
            },
    )
}

/// Receiving the generation and closing the endpoint, whatever happens.
pub open spec fn receive_generation_run(
    k: kernel::Transcript,
    receive: CapabilityHandle,
    expected_sender: u64,
) -> (kernel::Transcript, Option<Result<ProviderGeneration, GenerationHandoffReceiveError>>) {
    if expected_sender == 0 {
        procedure::fail_after(
            procedure::quiet_run(k, receive),
            GenerationHandoffReceiveError::InvalidExpectedSender,
        )
    } else {
        procedure::after(
            handoff_run(k, receive, expected_sender),
            |
                k: kernel::Transcript,
                handed: Result<ProviderGeneration, GenerationHandoffReceiveError>,
            |
                procedure::after(
                    ipc::close_run(k, receive),
                    |k: kernel::Transcript, closed: Result<(), ipc::Error>|
                        procedure::done(
                            k,
                            match (handed, closed) {
                                (Err(error), _) => Err(error),
                                (Ok(generation), Ok(_)) => Ok(generation),
                                (Ok(_), Err(error)) => Err(
                                    GenerationHandoffReceiveError::Close(error),
                                ),
                            },
                        ),
                ),
        )
    }
}

fn receive_service_generation_inner(
    k: &mut Kernel,
    receive: CapabilityHandle,
    expected_sender: u64,
) -> (result: Option<Result<ProviderGeneration, GenerationHandoffReceiveError>>)
    ensures
        (final(k)@, result) == handoff_run(old(k)@, receive, expected_sender),
{
    let info = match ipc::info(k, receive)? {
        Ok(info) => info,
        Err(error) => {
            return Some(Err(GenerationHandoffReceiveError::Inspect(error)));
        },
    };
    if let Err(error) = validate_endpoint(info, Rights::receive(), false) {
        return Some(Err(GenerationHandoffReceiveError::InvalidEndpoint(error)));
    }
    let received = match ipc::receive(k, receive, SERVICE_GENERATION_WIRE_BYTES)? {
        Ok(received) => received,
        Err(error) => {
            return Some(Err(GenerationHandoffReceiveError::Receive(error)));
        },
    };
    close_received(k, received.message.capability)?;
    Some(
        validate_service_generation_envelope(
            received.payload.as_slice(),
            received.message.sender_process_id,
            expected_sender,
            received.message.capability.is_some(),
        ),
    )
}

/// Receives one generation from an exact-`RECEIVE` endpoint and closes the endpoint on every path.
/// The sender must be the process that hands out generations.
pub fn receive_service_generation(
    k: &mut Kernel,
    receive: CapabilityHandle,
    expected_sender: u64,
) -> (result: Option<Result<ProviderGeneration, GenerationHandoffReceiveError>>)
    ensures
        (final(k)@, result) == receive_generation_run(old(k)@, receive, expected_sender),
{
    if expected_sender == 0 {
        close_quietly(k, receive)?;
        return Some(Err(GenerationHandoffReceiveError::InvalidExpectedSender));
    }
    let handed = receive_service_generation_inner(k, receive, expected_sender)?;
    let closed = ipc::close(k, receive)?;
    match (handed, closed) {
        (Err(error), _) => Some(Err(error)),
        (Ok(generation), Ok(_)) => Some(Ok(generation)),
        (Ok(_), Err(error)) => Some(Err(GenerationHandoffReceiveError::Close(error))),
    }
}

/// What is queued is what is received: the bytes of a handoff from the expected process give the
/// generation back.
pub proof fn lemma_queued_generation_is_received(generation: ProviderGeneration, sender: u64)
    requires
        generation.raw != 0,
    ensures
        handoff_verdict(
            ServiceGenerationHandoff::new(generation).encoded(),
            sender,
            sender,
            false,
        ) == Ok::<_, GenerationHandoffReceiveError>(generation),
{
    route_protocol::lemma_handoff_round_trip(ServiceGenerationHandoff::new(generation));
}

/// Why a route request was not sent.
#[derive(Clone, Copy, Debug, PartialEq, Eq, Structural)]
pub enum BootstrapError {
    InspectRouteGrant(ipc::Error),
    InvalidRouteGrant(EndpointShapeError),
    CreateReplyEndpoint(ipc::Error),
    InspectReplyEndpoint(ipc::Error),
    InvalidReplyEndpoint(EndpointShapeError),
    DuplicateReplyReceiver(ipc::Error),
    InspectReplyReceiver(ipc::Error),
    InvalidReplyReceiver(EndpointShapeError),
    SendRequest(ipc::Error),
    CloseReplySource(ipc::Error),
}

/// A failed exchange, as a route client reports it.
#[verifier::allow_in_spec]
pub fn bootstrap_failure(error: ExchangeError) -> BootstrapError
    returns
        (match error {
            ExchangeError::InspectGrant(error) => BootstrapError::InspectRouteGrant(error),
            ExchangeError::InvalidGrant(error) => BootstrapError::InvalidRouteGrant(error),
            ExchangeError::CreateReplyEndpoint(error) => BootstrapError::CreateReplyEndpoint(
                error,
            ),
            ExchangeError::InspectReplyEndpoint(error) => BootstrapError::InspectReplyEndpoint(
                error,
            ),
            ExchangeError::InvalidReplyEndpoint(error) => BootstrapError::InvalidReplyEndpoint(
                error,
            ),
            ExchangeError::DuplicateReplyReceiver(error) => BootstrapError::DuplicateReplyReceiver(
                error,
            ),
            ExchangeError::InspectReplyReceiver(error) => BootstrapError::InspectReplyReceiver(
                error,
            ),
            ExchangeError::InvalidReplyReceiver(error) => BootstrapError::InvalidReplyReceiver(
                error,
            ),
            ExchangeError::Send(error) => BootstrapError::SendRequest(error),
            ExchangeError::CloseReplySource(error) => BootstrapError::CloseReplySource(error),
        }),
{
    match error {
        ExchangeError::InspectGrant(error) => BootstrapError::InspectRouteGrant(error),
        ExchangeError::InvalidGrant(error) => BootstrapError::InvalidRouteGrant(error),
        ExchangeError::CreateReplyEndpoint(error) => BootstrapError::CreateReplyEndpoint(error),
        ExchangeError::InspectReplyEndpoint(error) => BootstrapError::InspectReplyEndpoint(error),
        ExchangeError::InvalidReplyEndpoint(error) => BootstrapError::InvalidReplyEndpoint(error),
        ExchangeError::DuplicateReplyReceiver(error) => BootstrapError::DuplicateReplyReceiver(
            error,
        ),
        ExchangeError::InspectReplyReceiver(error) => BootstrapError::InspectReplyReceiver(error),
        ExchangeError::InvalidReplyReceiver(error) => BootstrapError::InvalidReplyReceiver(error),
        ExchangeError::Send(error) => BootstrapError::SendRequest(error),
        ExchangeError::CloseReplySource(error) => BootstrapError::CloseReplySource(error),
    }
}

/// Why a route was not resolved.
#[derive(Clone, Copy, Debug, PartialEq, Eq, Structural)]
pub enum ResolveError {
    Receive(ipc::Error),
    Decode(DecodeError),
    ZeroBrokerProcessId,
    UnexpectedResponse,
    KeyMismatch { expected: RouteKey, actual: RouteKey },
    MissingProviderCapability,
    UnexpectedCapability,
    InspectProvider(ipc::Error),
    InvalidProvider(EndpointShapeError),
    BrokerFailure(RouteFailure),
}

/// A route that was asked for. The grant stays with the caller; only the private reply receiver
/// is owned. Whoever drops it before its end has to call [`Self::close`].
#[derive(Debug)]
pub struct RouteResolution {
    key: RouteKey,
    reply_receive: Option<CapabilityHandle>,
    reply_object_id: u64,
}

/// A route that was asked for, as the contracts see it.
pub ghost struct Resolution {
    pub key: RouteKey,
    pub reply_receive: Option<CapabilityHandle>,
    pub reply_object_id: u64,
}

impl View for RouteResolution {
    type V = Resolution;

    closed spec fn view(&self) -> Resolution {
        Resolution {
            key: self.key,
            reply_receive: self.reply_receive,
            reply_object_id: self.reply_object_id,
        }
    }
}

/// Asking for a route.
pub open spec fn begin_run(k: kernel::Transcript, grant: CapabilityHandle, key: RouteKey) -> (
    kernel::Transcript,
    Option<Result<Resolution, BootstrapError>>,
) {
    procedure::after(
        exchange::exchange_run(k, grant, (RouteMessage::Request { key }).encoded(), false),
        |k: kernel::Transcript, sent: Result<PrivateReply, ExchangeError>|
            match sent {
                Err(error) => procedure::done(k, Err(bootstrap_failure(error))),
                Ok(reply) => procedure::done(
                    k,
                    Ok(
                        Resolution {
                            key,
                            reply_receive: Some(reply.receive),
                            reply_object_id: reply.object_id,
                        },
                    ),
                ),
            },
    )
}

/// What a begun resolution is to the contracts.
pub open spec fn begun(result: Option<Result<RouteResolution, BootstrapError>>) -> Option<
    Result<Resolution, BootstrapError>,
> {
    match result {
        None => None,
        Some(Ok(resolution)) => Some(Ok(resolution@)),
        Some(Err(error)) => Some(Err(error)),
    }
}

/// A route that was handed over. The exact-`SEND` provider handle is owned by it until
/// [`Self::into_handle`] or [`Self::close`].
#[derive(Debug)]
pub struct ResolvedRoute {
    key: RouteKey,
    generation: ProviderGeneration,
    broker_process_id: u64,
    object_id: u64,
    handle: CapabilityHandle,
}

/// A route that was handed over, as the contracts see it.
pub ghost struct Resolved {
    pub key: RouteKey,
    pub generation: ProviderGeneration,
    pub broker_process_id: u64,
    pub object_id: u64,
    pub handle: CapabilityHandle,
}

impl View for ResolvedRoute {
    type V = Resolved;

    closed spec fn view(&self) -> Resolved {
        Resolved {
            key: self.key,
            generation: self.generation,
            broker_process_id: self.broker_process_id,
            object_id: self.object_id,
            handle: self.handle,
        }
    }
}

impl ResolvedRoute {
    pub fn key(&self) -> (key: RouteKey)
        ensures
            key == self@.key,
    {
        self.key
    }

    pub fn generation(&self) -> (generation: ProviderGeneration)
        ensures
            generation == self@.generation,
    {
        self.generation
    }

    pub fn broker_process_id(&self) -> (process_id: u64)
        ensures
            process_id == self@.broker_process_id,
    {
        self.broker_process_id
    }

    pub fn object_id(&self) -> (object_id: u64)
        ensures
            object_id == self@.object_id,
    {
        self.object_id
    }

    /// Hands the provider handle to the caller.
    pub fn into_handle(self) -> (handle: CapabilityHandle)
        ensures
            handle == self@.handle,
    {
        self.handle
    }

    pub fn close(self, k: &mut Kernel) -> (result: Option<()>)
        ensures
            (final(k)@, result) == procedure::quiet_run(old(k)@, self@.handle),
    {
        close_quietly(k, self.handle)
    }
}

/// What a broker's answer comes to.
#[derive(Clone, Copy, Debug, PartialEq, Eq, Structural)]
pub enum ResponseDisposition {
    Accepted(ProviderGeneration),
    Failure(RouteFailure),
}

/// What a message says in answer to a request for `expected_key`. A route comes with one
/// exact-`SEND` capability, a failure with none.
pub open spec fn response_verdict(
    expected_key: RouteKey,
    bytes: Seq<u8>,
    sender_process_id: u64,
    capability_rights: Option<Rights>,
) -> Result<ResponseDisposition, ResolveError> {
    match RouteMessage::parsed(bytes) {
        Err(error) => Err(ResolveError::Decode(error)),
        Ok(message) => if sender_process_id == 0 {
            Err(ResolveError::ZeroBrokerProcessId)
        } else if message.key() != expected_key {
            Err(ResolveError::KeyMismatch { expected: expected_key, actual: message.key() })
        } else {
            match message {
                RouteMessage::Accepted { generation, .. } => match capability_rights {
                    None => Err(ResolveError::MissingProviderCapability),
                    Some(actual) => if actual == Rights::send() {
                        Ok(ResponseDisposition::Accepted(generation))
                    } else {
                        Err(
                            ResolveError::InvalidProvider(
                                EndpointShapeError::WrongRights {
                                    expected: Rights::send(),
                                    actual,
                                },
                            ),
                        )
                    },
                },
                RouteMessage::Failure { failure, .. } => if capability_rights is Some {
                    Err(ResolveError::UnexpectedCapability)
                } else {
                    Ok(ResponseDisposition::Failure(failure))
                },
                RouteMessage::Request { .. } => Err(ResolveError::UnexpectedResponse),
            }
        },
    }
}

pub fn validate_response_envelope(
    expected_key: RouteKey,
    bytes: &[u8],
    sender_process_id: u64,
    capability_rights: Option<Rights>,
) -> (result: Result<ResponseDisposition, ResolveError>)
    ensures
        result == response_verdict(expected_key, bytes@, sender_process_id, capability_rights),
{
    let message = match RouteMessage::decode(bytes) {
        Ok(message) => message,
        Err(error) => {
            return Err(ResolveError::Decode(error));
        },
    };
    if sender_process_id == 0 {
        return Err(ResolveError::ZeroBrokerProcessId);
    }
    if message.key() != expected_key {
        return Err(ResolveError::KeyMismatch { expected: expected_key, actual: message.key() });
    }
    match message {
        RouteMessage::Accepted { generation, .. } => match capability_rights {
            None => Err(ResolveError::MissingProviderCapability),
            Some(actual) => {
                if actual == Rights::send() {
                    Ok(ResponseDisposition::Accepted(generation))
                } else {
                    Err(
                        ResolveError::InvalidProvider(
                            EndpointShapeError::WrongRights { expected: Rights::send(), actual },
                        ),
                    )
                }
            },
        },
        RouteMessage::Failure { failure, .. } => {
            if capability_rights.is_some() {
                Err(ResolveError::UnexpectedCapability)
            } else {
                Ok(ResponseDisposition::Failure(failure))
            }
        },
        RouteMessage::Request { .. } => Err(ResolveError::UnexpectedResponse),
    }
}

/// What a provider endpoint must be beside the reply endpoint that it came over.
#[verifier::allow_in_spec]
pub fn provider_shape(info: CapabilityInfo, reply_object_id: u64) -> Result<(), EndpointShapeError>
    returns
        (match validate_endpoint(info, Rights::send(), false) {
            Err(error) => Err(error),
            Ok(_) => if info.object_id == reply_object_id {
                Err(EndpointShapeError::SameObject { object_id: info.object_id })
            } else {
                Ok(())
            },
        }),
{
    if let Err(error) = validate_endpoint(info, Rights::send(), false) {
        return Err(error);
    }
    if info.object_id == reply_object_id {
        return Err(EndpointShapeError::SameObject { object_id: info.object_id });
    }
    Ok(())
}

/// Checking a broker's answer and the provider that came with it. A capability that is not kept
/// is closed.
pub open spec fn resolved_run(
    k: kernel::Transcript,
    resolution: Resolution,
    delivery: ipc::Delivery,
) -> (kernel::Transcript, Option<Result<Resolved, ResolveError>>) {
    let message = delivery.message;
    match response_verdict(
        resolution.key,
        delivery.payload,
        message.sender_process_id,
        rights_of(message.capability),
    ) {
        Err(error) => procedure::fail_after(
            procedure::quiet_received_run(k, message.capability),
            error,
        ),
        Ok(ResponseDisposition::Failure(failure)) => procedure::done(
            k,
            Err(ResolveError::BrokerFailure(failure)),
        ),
        Ok(ResponseDisposition::Accepted(generation)) => {
            let handle = message.capability->0.handle;
            procedure::after(
                ipc::info_run(k, handle),
                |k: kernel::Transcript, inspected: Result<CapabilityInfo, ipc::Error>|
                    match inspected {
                        Err(error) => procedure::fail_after(
                            procedure::quiet_run(k, handle),
                            ResolveError::InspectProvider(error),
                        ),
                        Ok(info) => match provider_shape(info, resolution.reply_object_id) {
                            Err(error) => procedure::fail_after(
                                procedure::quiet_run(k, handle),
                                ResolveError::InvalidProvider(error),
                            ),
                            Ok(_) => procedure::done(
                                k,
                                Ok(
                                    Resolved {
                                        key: resolution.key,
                                        generation,
                                        broker_process_id: message.sender_process_id,
                                        object_id: info.object_id,
                                        handle,
                                    },
                                ),
                            ),
                        },
                    },
            )
        },
    }
}

/// What a resolved route is to the contracts.
pub open spec fn resolved(result: Option<Result<ResolvedRoute, ResolveError>>) -> Option<
    Result<Resolved, ResolveError>,
> {
    match result {
        None => None,
        Some(Ok(route)) => Some(Ok(route@)),
        Some(Err(error)) => Some(Err(error)),
    }
}

/// What the outcome of looking for an answer is to the contracts.
pub open spec fn completed(result: Result<Option<ResolvedRoute>, ResolveError>) -> Result<
    Option<Resolved>,
    ResolveError,
> {
    match result {
        Ok(None) => Ok(None),
        Ok(Some(route)) => Ok(Some(route@)),
        Err(error) => Err(error),
    }
}

/// Looking once for the answer. Every outcome but the absence of one closes the receiver.
pub open spec fn complete_run(k: kernel::Transcript, resolution: Resolution) -> (
    kernel::Transcript,
    Option<(Resolution, Result<Option<Resolved>, ResolveError>)>,
) {
    match resolution.reply_receive {
        None => procedure::done(
            k,
            (resolution, Err(ResolveError::Receive(ipc::Error::bad_file_descriptor()))),
        ),
        Some(receive) => {
            let ended = Resolution { reply_receive: None, ..resolution };
            procedure::after(
                ipc::try_receive_run(k, receive, SERVICE_ROUTE_WIRE_BYTES),
                |k: kernel::Transcript, received: Result<ipc::Delivery, ipc::Error>|
                    match received {
                        Err(error) => if error == ipc::Error::try_again() {
                            procedure::done(k, (resolution, Ok(None)))
                        } else {
                            procedure::after(
                                procedure::quiet_run(k, receive),
                                |k: kernel::Transcript, closed: ()|
                                    procedure::done(k, (ended, Err(ResolveError::Receive(error)))),
                            )
                        },
                        Ok(delivery) => procedure::after(
                            resolved_run(k, resolution, delivery),
                            |k: kernel::Transcript, verdict: Result<Resolved, ResolveError>|
                                procedure::after(
                                    procedure::quiet_run(k, receive),
                                    |k: kernel::Transcript, closed: ()|
                                        procedure::done(
                                            k,
                                            (
                                                ended,
                                                match verdict {
                                                    Ok(route) => Ok(Some(route)),
                                                    Err(error) => Err(error),
                                                },
                                            ),
                                        ),
                                ),
                        ),
                    },
            )
        },
    }
}

impl RouteResolution {
    /// Checks an exact-`SEND` route grant, makes a private reply endpoint and sends one request
    /// with its exact-`SEND` side.
    pub fn begin(k: &mut Kernel, route_grant: CapabilityHandle, key: RouteKey) -> (result: Option<
        Result<Self, BootstrapError>,
    >)
        ensures
            (final(k)@, begun(result)) == begin_run(old(k)@, route_grant, key),
    {
        let request = RouteMessage::Request { key };
        let bytes = request.encode();
        match open_exchange(k, route_grant, &bytes, false)? {
            Err(error) => Some(Err(bootstrap_failure(error))),
            Ok(reply) => Some(
                Ok(
                    RouteResolution {
                        key,
                        reply_receive: Some(reply.receive),
                        reply_object_id: reply.object_id,
                    },
                ),
            ),
        }
    }

    pub fn key(&self) -> (key: RouteKey)
        ensures
            key == self@.key,
    {
        self.key
    }

    pub fn reply_object_id(&self) -> (object_id: u64)
        ensures
            object_id == self@.reply_object_id,
    {
        self.reply_object_id
    }

    fn validate_client_response(&self, k: &mut Kernel, received: &ipc::Received) -> (result: Option<
        Result<ResolvedRoute, ResolveError>,
    >)
        ensures
            (final(k)@, resolved(result)) == resolved_run(old(k)@, self@, received@),
    {
        let message = received.message;
        let disposition = match validate_response_envelope(
            self.key,
            received.payload.as_slice(),
            message.sender_process_id,
            rights_of(message.capability),
        ) {
            Ok(disposition) => disposition,
            Err(error) => {
                close_received(k, message.capability)?;
                return Some(Err(error));
            },
        };
        let generation = match disposition {
            ResponseDisposition::Accepted(generation) => generation,
            ResponseDisposition::Failure(failure) => {
                return Some(Err(ResolveError::BrokerFailure(failure)));
            },
        };
        let handle = match message.capability {
            Some(capability) => capability.handle,
            None => {
                return Some(Err(ResolveError::MissingProviderCapability));
            },
        };
        let info = match ipc::info(k, handle)? {
            Ok(info) => info,
            Err(error) => {
                close_quietly(k, handle)?;
                return Some(Err(ResolveError::InspectProvider(error)));
            },
        };
        if let Err(error) = provider_shape(info, self.reply_object_id) {
            close_quietly(k, handle)?;
            return Some(Err(ResolveError::InvalidProvider(error)));
        }
        Some(
            Ok(
                ResolvedRoute {
                    key: self.key,
                    generation,
                    broker_process_id: message.sender_process_id,
                    object_id: info.object_id,
                    handle,
                },
            ),
        )
    }

    /// Looks once for the answer. `Ok(None)` says that none is there yet; every other result is
    /// final, and a capability that is not handed out is closed.
    pub fn try_complete(&mut self, k: &mut Kernel) -> (result: Option<
        Result<Option<ResolvedRoute>, ResolveError>,
    >)
        ensures
            ({
                let (asked, outcome) = complete_run(old(k)@, old(self)@);
                &&& final(k)@ == asked
                &&& match result {
                    Some(result) => outcome == Some((final(self)@, completed(result))),
                    None => outcome is None,
                }
            }),
    {
        let receive = match self.reply_receive {
            Some(receive) => receive,
            None => {
                return Some(Err(ResolveError::Receive(ipc::Error::bad_file_descriptor())));
            },
        };
        let received = match ipc::try_receive(k, receive, SERVICE_ROUTE_WIRE_BYTES)? {
            Ok(received) => received,
            Err(error) => {
                if error == ipc::Error::try_again() {
                    return Some(Ok(None));
                }
                close_quietly(k, receive)?;
                self.reply_receive = None;
                return Some(Err(ResolveError::Receive(error)));
            },
        };
        let verdict = self.validate_client_response(k, &received)?;
        close_quietly(k, receive)?;
        self.reply_receive = None;
        match verdict {
            Ok(route) => Some(Ok(Some(route))),
            Err(error) => Some(Err(error)),
        }
    }

    /// Gives up on the answer.
    pub fn close(self, k: &mut Kernel) -> (result: Option<()>)
        ensures
            (final(k)@, result) == procedure::quiet_option_run(old(k)@, self@.reply_receive),
    {
        close_option_quietly(k, self.reply_receive)
    }
}

/// Why an ingress was not bound.
#[derive(Clone, Copy, Debug, PartialEq, Eq, Structural)]
pub enum BindError {
    Inspect(ipc::Error),
    Invalid(EndpointShapeError),
}

/// Why a route request was not accepted.
#[derive(Clone, Copy, Debug, PartialEq, Eq, Structural)]
pub enum IngressError {
    Receive(ipc::Error),
    Decode(DecodeError),
    UnexpectedMessage,
    WrongGrantedKey { granted: RouteKey, requested: RouteKey },
    ZeroSenderProcessId,
    MissingReplyCapability,
    InvalidTransferredRights { actual: Rights },
    InspectReply(ipc::Error),
    InvalidReply(EndpointShapeError),
}

/// Where requests for one route key come in: one exact-`RECEIVE` endpoint. It ends with
/// [`Self::into_handle`] or [`Self::close`].
///
/// A clone owns nothing: it is there to run a procedure again from the same state.
#[derive(Clone, Debug)]
pub struct RouteIngress {
    granted_key: RouteKey,
    receive: CapabilityHandle,
    object_id: u64,
}

/// An ingress as the contracts see it.
pub ghost struct Ingress {
    pub granted_key: RouteKey,
    pub receive: CapabilityHandle,
    pub object_id: u64,
}

impl View for RouteIngress {
    type V = Ingress;

    closed spec fn view(&self) -> Ingress {
        Ingress {
            granted_key: self.granted_key,
            receive: self.receive,
            object_id: self.object_id,
        }
    }
}

/// Inspecting an endpoint on which requests for `granted_key` will come in.
pub open spec fn bind_run(
    k: kernel::Transcript,
    receive: CapabilityHandle,
    granted_key: RouteKey,
) -> (kernel::Transcript, Option<Result<Ingress, BindError>>) {
    procedure::after(
        ipc::info_run(k, receive),
        |k: kernel::Transcript, inspected: Result<CapabilityInfo, ipc::Error>|
            match inspected {
                Err(error) => procedure::done(k, Err(BindError::Inspect(error))),
                Ok(info) => match validate_endpoint(info, Rights::receive(), false) {
                    Err(error) => procedure::done(k, Err(BindError::Invalid(error))),
                    Ok(_) => procedure::done(
                        k,
                        Ok(Ingress { granted_key, receive, object_id: info.object_id }),
                    ),
                },
            },
    )
}

/// What a bound ingress is to the contracts.
pub open spec fn bound(result: Option<Result<RouteIngress, BindError>>) -> Option<
    Result<Ingress, BindError>,
> {
    match result {
        None => None,
        Some(Ok(ingress)) => Some(Ok(ingress@)),
        Some(Err(error)) => Some(Err(error)),
    }
}

/// Whether a message is a request for the granted key from a caller with one exact-`SEND` reply.
pub open spec fn request_verdict(
    granted_key: RouteKey,
    bytes: Seq<u8>,
    sender_process_id: u64,
    capability_rights: Option<Rights>,
) -> Result<(), IngressError> {
    match RouteMessage::parsed(bytes) {
        Err(error) => Err(IngressError::Decode(error)),
        Ok(RouteMessage::Request { key }) => if key != granted_key {
            Err(IngressError::WrongGrantedKey { granted: granted_key, requested: key })
        } else if sender_process_id == 0 {
            Err(IngressError::ZeroSenderProcessId)
        } else {
            match capability_rights {
                None => Err(IngressError::MissingReplyCapability),
                Some(actual) => if actual == Rights::send() {
                    Ok(())
                } else {
                    Err(IngressError::InvalidTransferredRights { actual })
                },
            }
        },
        Ok(_) => Err(IngressError::UnexpectedMessage),
    }
}

pub fn validate_request_envelope(
    granted_key: RouteKey,
    bytes: &[u8],
    sender_process_id: u64,
    capability_rights: Option<Rights>,
) -> (result: Result<(), IngressError>)
    ensures
        result == request_verdict(granted_key, bytes@, sender_process_id, capability_rights),
{
    let message = match RouteMessage::decode(bytes) {
        Ok(message) => message,
        Err(error) => {
            return Err(IngressError::Decode(error));
        },
    };
    let requested = match message {
        RouteMessage::Request { key } => key,
        _ => {
            return Err(IngressError::UnexpectedMessage);
        },
    };
    if requested != granted_key {
        return Err(IngressError::WrongGrantedKey { granted: granted_key, requested });
    }
    if sender_process_id == 0 {
        return Err(IngressError::ZeroSenderProcessId);
    }
    match capability_rights {
        None => Err(IngressError::MissingReplyCapability),
        Some(actual) => {
            if actual == Rights::send() {
                Ok(())
            } else {
                Err(IngressError::InvalidTransferredRights { actual })
            }
        },
    }
}

/// A request, as the contracts see it.
pub ghost struct Requested {
    pub key: RouteKey,
    pub sender_process_id: u64,
    pub reply_object_id: u64,
    pub reply: CapabilityHandle,
}

/// Checking a message and the reply endpoint that came with it. A capability that is not kept is
/// closed.
pub open spec fn admit_run(k: kernel::Transcript, ingress: Ingress, delivery: ipc::Delivery) -> (
    kernel::Transcript,
    Option<Result<Requested, IngressError>>,
) {
    let message = delivery.message;
    match request_verdict(
        ingress.granted_key,
        delivery.payload,
        message.sender_process_id,
        rights_of(message.capability),
    ) {
        Err(error) => procedure::fail_after(
            procedure::quiet_received_run(k, message.capability),
            error,
        ),
        Ok(_) => {
            let reply = message.capability->0.handle;
            procedure::after(
                ipc::info_run(k, reply),
                |k: kernel::Transcript, inspected: Result<CapabilityInfo, ipc::Error>|
                    match inspected {
                        Err(error) => procedure::fail_after(
                            procedure::quiet_run(k, reply),
                            IngressError::InspectReply(error),
                        ),
                        Ok(info) => match crate::service_control::reply_shape(
                            info,
                            ingress.object_id,
                        ) {
                            Err(error) => procedure::fail_after(
                                procedure::quiet_run(k, reply),
                                IngressError::InvalidReply(error),
                            ),
                            Ok(_) => procedure::done(
                                k,
                                Ok(
                                    Requested {
                                        key: ingress.granted_key,
                                        sender_process_id: message.sender_process_id,
                                        reply_object_id: info.object_id,
                                        reply,
                                    },
                                ),
                            ),
                        },
                    },
            )
        },
    }
}

/// Looking once for a request.
pub open spec fn accept_run(k: kernel::Transcript, ingress: Ingress) -> (
    kernel::Transcript,
    Option<Result<Option<Requested>, IngressError>>,
) {
    procedure::after(
        ipc::try_receive_run(k, ingress.receive, MAX_IPC_MESSAGE_BYTES),
        |k: kernel::Transcript, received: Result<ipc::Delivery, ipc::Error>|
            match received {
                Err(error) => if error == ipc::Error::try_again() {
                    procedure::done(k, Ok(None))
                } else {
                    procedure::done(k, Err(IngressError::Receive(error)))
                },
                Ok(delivery) => procedure::after(
                    admit_run(k, ingress, delivery),
                    |k: kernel::Transcript, admitted: Result<Requested, IngressError>|
                        match admitted {
                            Ok(request) => procedure::done(k, Ok(Some(request))),
                            Err(error) => procedure::done(k, Err(error)),
                        },
                ),
            },
    )
}

/// What an admitted request is to the contracts.
pub open spec fn admitted(result: Option<Result<PendingRouteRequest, IngressError>>) -> Option<
    Result<Requested, IngressError>,
> {
    match result {
        None => None,
        Some(Ok(request)) => Some(Ok(request@)),
        Some(Err(error)) => Some(Err(error)),
    }
}

/// What an accepted request is to the contracts.
pub open spec fn accepted(
    result: Option<Result<Option<PendingRouteRequest>, IngressError>>,
) -> Option<Result<Option<Requested>, IngressError>> {
    match result {
        None => None,
        Some(Ok(None)) => Some(Ok(None)),
        Some(Ok(Some(request))) => Some(Ok(Some(request@))),
        Some(Err(error)) => Some(Err(error)),
    }
}

impl RouteIngress {
    pub fn bind(k: &mut Kernel, receive: CapabilityHandle, granted_key: RouteKey) -> (result:
        Option<Result<Self, BindError>>)
        ensures
            (final(k)@, bound(result)) == bind_run(old(k)@, receive, granted_key),
    {
        let info = match ipc::info(k, receive)? {
            Ok(info) => info,
            Err(error) => {
                return Some(Err(BindError::Inspect(error)));
            },
        };
        if let Err(error) = validate_endpoint(info, Rights::receive(), false) {
            return Some(Err(BindError::Invalid(error)));
        }
        Some(Ok(RouteIngress { granted_key, receive, object_id: info.object_id }))
    }

    pub fn granted_key(&self) -> (key: RouteKey)
        ensures
            key == self@.granted_key,
    {
        self.granted_key
    }

    pub fn object_id(&self) -> (object_id: u64)
        ensures
            object_id == self@.object_id,
    {
        self.object_id
    }

    fn validate_ingress_request(&self, k: &mut Kernel, received: &ipc::Received) -> (result: Option<
        Result<PendingRouteRequest, IngressError>,
    >)
        ensures
            (final(k)@, admitted(result)) == admit_run(old(k)@, self@, received@),
    {
        let message = received.message;
        if let Err(error) = validate_request_envelope(
            self.granted_key,
            received.payload.as_slice(),
            message.sender_process_id,
            rights_of(message.capability),
        ) {
            close_received(k, message.capability)?;
            return Some(Err(error));
        }
        let reply = match message.capability {
            Some(capability) => capability.handle,
            None => {
                return Some(Err(IngressError::MissingReplyCapability));
            },
        };
        let info = match ipc::info(k, reply)? {
            Ok(info) => info,
            Err(error) => {
                close_quietly(k, reply)?;
                return Some(Err(IngressError::InspectReply(error)));
            },
        };
        if let Err(error) = crate::service_control::reply_shape(info, self.object_id) {
            close_quietly(k, reply)?;
            return Some(Err(IngressError::InvalidReply(error)));
        }
        Some(
            Ok(
                PendingRouteRequest {
                    key: self.granted_key,
                    sender_process_id: message.sender_process_id,
                    reply_object_id: info.object_id,
                    reply,
                },
            ),
        )
    }

    /// Looks once for a request. The buffer is as large as a message can be, so that a malformed
    /// message never stays at the head of the queue.
    pub fn try_accept(&mut self, k: &mut Kernel) -> (result: Option<
        Result<Option<PendingRouteRequest>, IngressError>,
    >)
        ensures
            (final(k)@, accepted(result)) == accept_run(old(k)@, old(self)@),
            final(self)@ == old(self)@,
    {
        let received = match ipc::try_receive(k, self.receive, MAX_IPC_MESSAGE_BYTES)? {
            Ok(received) => received,
            Err(error) => {
                if error == ipc::Error::try_again() {
                    return Some(Ok(None));
                }
                return Some(Err(IngressError::Receive(error)));
            },
        };
        match self.validate_ingress_request(k, &received)? {
            Ok(request) => Some(Ok(Some(request))),
            Err(error) => Some(Err(error)),
        }
    }

    pub fn into_handle(self) -> (handle: CapabilityHandle)
        ensures
            handle == self@.receive,
    {
        self.receive
    }

    pub fn close(self, k: &mut Kernel) -> (result: Option<()>)
        ensures
            (final(k)@, result) == procedure::quiet_run(old(k)@, self@.receive),
    {
        close_quietly(k, self.receive)
    }
}

/// Decides who may have a route.
pub trait Authorizer: Sized {
    type Error;

    /// What is decided for a caller and a key.
    spec fn verdict(self, caller: u64, key: RouteKey) -> Result<(), Self::Error>;

    /// What a decision for a caller and a key leaves behind.
    spec fn after(self, caller: u64, key: RouteKey) -> Self;

    fn authorize(&mut self, caller: &u64, key: RouteKey) -> (result: Result<(), Self::Error>)
        ensures
            result == old(self).verdict(*caller, key),
            *final(self) == old(self).after(*caller, key),
    ;
}

/// A denial. The `Unauthorized` answer was sent once, and the reply endpoint is closed.
#[derive(Debug, PartialEq, Eq)]
pub struct AuthorizationError<E> {
    pub source: E,
    pub reply_error: Option<ipc::Error>,
}

/// A request before it is decided who may have the route. It ends with [`Self::authorize`] or
/// [`Self::close`].
#[derive(Debug)]
pub struct PendingRouteRequest {
    key: RouteKey,
    sender_process_id: u64,
    reply_object_id: u64,
    reply: CapabilityHandle,
}

impl View for PendingRouteRequest {
    type V = Requested;

    closed spec fn view(&self) -> Requested {
        Requested {
            key: self.key,
            sender_process_id: self.sender_process_id,
            reply_object_id: self.reply_object_id,
            reply: self.reply,
        }
    }
}

/// Answering once: the message is sent, then the copy that travelled and the reply endpoint are
/// closed.
pub open spec fn send_reply_run(
    k: kernel::Transcript,
    reply: CapabilityHandle,
    message: RouteMessage,
    temporary: Option<CapabilityHandle>,
) -> (kernel::Transcript, Option<Result<(), ipc::Error>>) {
    let transfer = match temporary {
        Some(handle) => Some(Transfer { handle, rights: Rights::send() }),
        None => None,
    };
    procedure::after(
        ipc::send_run(k, reply, message.encoded(), transfer),
        |k: kernel::Transcript, sent: Result<(), ipc::Error>|
            procedure::after(
                procedure::quiet_option_run(k, temporary),
                |k: kernel::Transcript, closed: ()|
                    procedure::after(
                        procedure::quiet_run(k, reply),
                        |k: kernel::Transcript, closed: ()| procedure::done(k, sent),
                    ),
            ),
    )
}

fn send_reply_once(
    k: &mut Kernel,
    reply: CapabilityHandle,
    message: RouteMessage,
    temporary: Option<CapabilityHandle>,
) -> (result: Option<Result<(), ipc::Error>>)
    ensures
        (final(k)@, result) == send_reply_run(old(k)@, reply, message, temporary),
{
    let bytes = message.encode();
    let transfer = match temporary {
        Some(handle) => Some(Transfer { handle, rights: Rights::send() }),
        None => None,
    };
    let sent = ipc::send(k, reply, &bytes, transfer)?;
    close_option_quietly(k, temporary)?;
    close_quietly(k, reply)?;
    Some(sent)
}

/// The error of a result, if it has one.
#[verifier::allow_in_spec]
pub fn error_of(result: Result<(), ipc::Error>) -> Option<ipc::Error>
    returns
        (match result {
            Ok(_) => None,
            Err(error) => Some(error),
        }),
{
    match result {
        Ok(_) => None,
        Err(error) => Some(error),
    }
}

/// Following a decision: a denial is answered with `Unauthorized`, without a look at the routes.
pub open spec fn authorize_run<E>(
    k: kernel::Transcript,
    request: Requested,
    verdict: Result<(), E>,
) -> (kernel::Transcript, Option<Result<Requested, AuthorizationError<E>>>) {
    match verdict {
        Ok(_) => procedure::done(k, Ok(request)),
        Err(source) => procedure::after(
            send_reply_run(
                k,
                request.reply,
                RouteMessage::Failure { key: request.key, failure: RouteFailure::Unauthorized },
                None,
            ),
            |k: kernel::Transcript, sent: Result<(), ipc::Error>|
                procedure::done(
                    k,
                    Err(AuthorizationError { source, reply_error: error_of(sent) }),
                ),
        ),
    }
}

/// What an authorized request is to the contracts.
pub open spec fn authorized<E>(
    result: Option<Result<AuthorizedRouteRequest, AuthorizationError<E>>>,
) -> Option<Result<Requested, AuthorizationError<E>>> {
    match result {
        None => None,
        Some(Ok(request)) => Some(Ok(request@)),
        Some(Err(error)) => Some(Err(error)),
    }
}

impl PendingRouteRequest {
    pub fn key(&self) -> (key: RouteKey)
        ensures
            key == self@.key,
    {
        self.key
    }

    pub fn sender_process_id(&self) -> (process_id: u64)
        ensures
            process_id == self@.sender_process_id,
    {
        self.sender_process_id
    }

    pub fn reply_object_id(&self) -> (object_id: u64)
        ensures
            object_id == self@.reply_object_id,
    {
        self.reply_object_id
    }

    /// Decides about the granted key before any route is looked up. The authorizer is asked once.
    pub fn authorize<A: Authorizer>(self, k: &mut Kernel, authorizer: &mut A) -> (result: Option<
        Result<AuthorizedRouteRequest, AuthorizationError<A::Error>>,
    >)
        ensures
            (final(k)@, authorized(result)) == authorize_run(
                old(k)@,
                self@,
                old(authorizer).verdict(self@.sender_process_id, self@.key),
            ),
            *final(authorizer) == old(authorizer).after(self@.sender_process_id, self@.key),
    {
        match authorizer.authorize(&self.sender_process_id, self.key) {
            Ok(_) => Some(
                Ok(
                    AuthorizedRouteRequest {
                        key: self.key,
                        sender_process_id: self.sender_process_id,
                        reply_object_id: self.reply_object_id,
                        reply: self.reply,
                    },
                ),
            ),
            Err(source) => {
                let sent = send_reply_once(
                    k,
                    self.reply,
                    RouteMessage::Failure { key: self.key, failure: RouteFailure::Unauthorized },
                    None,
                )?;
                Some(Err(AuthorizationError { source, reply_error: error_of(sent) }))
            },
        }
    }

    /// Drops the request without an answer.
    pub fn close(self, k: &mut Kernel) -> (result: Option<()>)
        ensures
            (final(k)@, result) == procedure::quiet_run(old(k)@, self@.reply),
    {
        close_quietly(k, self.reply)
    }
}

/// What was answered to an authorized request.
#[derive(Clone, Copy, Debug, PartialEq, Eq, Structural)]
pub enum RouteReply {
    Accepted { generation: ProviderGeneration },
    Failure(RouteFailure),
}

/// Why an authorized request was not answered as intended.
#[derive(Clone, Copy, Debug, PartialEq, Eq, Structural)]
pub enum ReplyError {
    IssueProvider { source: ipc::Error, capacity_reply_error: Option<ipc::Error> },
    Send { intended: RouteReply, source: ipc::Error },
}

/// A request that may consult the routes. It ends with [`Self::resolve`] or [`Self::close`].
#[derive(Debug)]
pub struct AuthorizedRouteRequest {
    key: RouteKey,
    sender_process_id: u64,
    reply_object_id: u64,
    reply: CapabilityHandle,
}

impl View for AuthorizedRouteRequest {
    type V = Requested;

    closed spec fn view(&self) -> Requested {
        Requested {
            key: self.key,
            sender_process_id: self.sender_process_id,
            reply_object_id: self.reply_object_id,
            reply: self.reply,
        }
    }
}

/// Answering with `message`, which says `intended`.
pub open spec fn route_reply_run(
    k: kernel::Transcript,
    reply: CapabilityHandle,
    message: RouteMessage,
    temporary: Option<CapabilityHandle>,
    intended: RouteReply,
) -> (kernel::Transcript, Option<Result<RouteReply, ReplyError>>) {
    procedure::after(
        send_reply_run(k, reply, message, temporary),
        |k: kernel::Transcript, sent: Result<(), ipc::Error>|
            match sent {
                Ok(_) => procedure::done(k, Ok(intended)),
                Err(source) => procedure::done(k, Err(ReplyError::Send { intended, source })),
            },
    )
}

/// Answering a request from the routes: a copy of the provider with `SEND` alone if one is
/// published, a failure otherwise.
pub open spec fn resolve_run(
    k: kernel::Transcript,
    request: Requested,
    published: Option<PublishedRoute<CapabilityHandle>>,
) -> (kernel::Transcript, Option<Result<RouteReply, ReplyError>>) {
    let key = request.key;
    match published {
        None => route_reply_run(
            k,
            request.reply,
            RouteMessage::Failure { key, failure: RouteFailure::Unavailable },
            None,
            RouteReply::Failure(RouteFailure::Unavailable),
        ),
        Some(route) => procedure::after(
            ipc::value_run(
                k,
                Op::Duplicate {
                    handle: route.authority,
                    rights: disposable_provider_rights().raw,
                },
            ),
            |k: kernel::Transcript, duplicated: Result<u64, ipc::Error>|
                match duplicated {
                    Err(source) => procedure::after(
                        send_reply_run(
                            k,
                            request.reply,
                            RouteMessage::Failure { key, failure: RouteFailure::IssuerCapacity },
                            None,
                        ),
                        |k: kernel::Transcript, sent: Result<(), ipc::Error>|
                            procedure::done(
                                k,
                                Err(
                                    ReplyError::IssueProvider {
                                        source,
                                        capacity_reply_error: error_of(sent),
                                    },
                                ),
                            ),
                    ),
                    Ok(temporary) => route_reply_run(
                        k,
                        request.reply,
                        RouteMessage::Accepted { key, generation: route.generation },
                        Some(temporary),
                        RouteReply::Accepted { generation: route.generation },
                    ),
                },
        ),
    }
}

fn send_route_reply(
    k: &mut Kernel,
    reply: CapabilityHandle,
    message: RouteMessage,
    temporary: Option<CapabilityHandle>,
    intended: RouteReply,
) -> (result: Option<Result<RouteReply, ReplyError>>)
    ensures
        (final(k)@, result) == route_reply_run(old(k)@, reply, message, temporary, intended),
{
    match send_reply_once(k, reply, message, temporary)? {
        Ok(_) => Some(Ok(intended)),
        Err(source) => Some(Err(ReplyError::Send { intended, source })),
    }
}

impl AuthorizedRouteRequest {
    pub fn key(&self) -> (key: RouteKey)
        ensures
            key == self@.key,
    {
        self.key
    }

    pub fn sender_process_id(&self) -> (process_id: u64)
        ensures
            process_id == self@.sender_process_id,
    {
        self.sender_process_id
    }

    pub fn reply_object_id(&self) -> (object_id: u64)
        ensures
            object_id == self@.reply_object_id,
    {
        self.reply_object_id
    }

    /// Looks the route up and answers exactly once.
    pub fn resolve<const N: usize>(
        self,
        k: &mut Kernel,
        routes: &NativeRouteTable<CapabilityHandle, N>,
    ) -> (result: Option<Result<RouteReply, ReplyError>>)
        ensures
            (final(k)@, result) == resolve_run(
                old(k)@,
                self@,
                route_protocol::active_route(routes@, self@.key),
            ),
    {
        let published = match routes.published(self.key) {
            Some(published) => published,
            None => {
                return send_route_reply(
                    k,
                    self.reply,
                    RouteMessage::Failure { key: self.key, failure: RouteFailure::Unavailable },
                    None,
                    RouteReply::Failure(RouteFailure::Unavailable),
                );
            },
        };
        let generation = published.generation;
        let temporary = match ipc::duplicate(
            k,
            *published.authority,
            disposable_provider_rights(),
        )? {
            Ok(handle) => handle,
            Err(source) => {
                let sent = send_reply_once(
                    k,
                    self.reply,
                    RouteMessage::Failure { key: self.key, failure: RouteFailure::IssuerCapacity },
                    None,
                )?;
                return Some(
                    Err(
                        ReplyError::IssueProvider { source, capacity_reply_error: error_of(sent) },
                    ),
                );
            },
        };
        send_route_reply(
            k,
            self.reply,
            RouteMessage::Accepted { key: self.key, generation },
            Some(temporary),
            RouteReply::Accepted { generation },
        )
    }

    /// Drops the request without an answer.
    pub fn close(self, k: &mut Kernel) -> (result: Option<()>)
        ensures
            (final(k)@, result) == procedure::quiet_run(old(k)@, self@.reply),
    {
        close_quietly(k, self.reply)
    }
}

/// A route was not published. The authority is handed back.
#[allow(inconsistent_fields)]
#[derive(Debug, PartialEq, Eq)]
pub enum NativePublishError<H> {
    Inspect { authority: H, source: ipc::Error },
    InvalidAuthority { authority: H, source: EndpointShapeError },
    Capacity { authority: H },
    GenerationNotNewer { authority: H, current_generation: ProviderGeneration },
}

impl<H> NativePublishError<H> {
    /// The authority that was submitted.
    pub open spec fn submitted(self) -> H {
        match self {
            Self::Inspect { authority, .. } => authority,
            Self::InvalidAuthority { authority, .. } => authority,
            Self::Capacity { authority } => authority,
            Self::GenerationNotNewer { authority, .. } => authority,
        }
    }

    pub fn authority(&self) -> (authority: &H)
        ensures
            *authority == self.submitted(),
    {
        match self {
            Self::Inspect { authority, .. } => authority,
            Self::InvalidAuthority { authority, .. } => authority,
            Self::Capacity { authority } => authority,
            Self::GenerationNotNewer { authority, .. } => authority,
        }
    }

    pub fn into_authority(self) -> (authority: H)
        ensures
            authority == self.submitted(),
    {
        match self {
            Self::Inspect { authority, .. } => authority,
            Self::InvalidAuthority { authority, .. } => authority,
            Self::Capacity { authority } => authority,
            Self::GenerationNotNewer { authority, .. } => authority,
        }
    }
}

/// What the table did, as the native table reports it.
pub open spec fn native_outcome<H>(result: Result<Option<H>, PublishError<H>>) -> Result<
    Option<H>,
    NativePublishError<H>,
> {
    match result {
        Ok(displaced) => Ok(displaced),
        Err(PublishError::Capacity { authority }) => Err(
            NativePublishError::Capacity { authority },
        ),
        Err(PublishError::GenerationNotNewer { authority, current_generation }) => Err(
            NativePublishError::GenerationNotNewer { authority, current_generation },
        ),
    }
}

/// The table in which native providers publish their routes. The table owns the authorities that
/// are published; whoever drops it has to call [`Self::close`].
///
/// A clone owns nothing: it is there to run a procedure again from the same state.
#[derive(Clone, Debug)]
pub struct NativeRouteTable<H: Copy, const N: usize> {
    table: RouteTable<H, N>,
}

impl<H: Copy, const N: usize> View for NativeRouteTable<H, N> {
    type V = Seq<route_protocol::Route<H>>;

    closed spec fn view(&self) -> Seq<route_protocol::Route<H>> {
        self.table@
    }
}

impl<H: Copy, const N: usize> NativeRouteTable<H, N> {
    pub fn new() -> (table: Self)
        ensures
            table@ == Seq::<route_protocol::Route<H>>::empty(),
            route_protocol::table_valid(table@, N as int),
    {
        NativeRouteTable { table: RouteTable::new() }
    }

    pub fn capacity(&self) -> (capacity: usize)
        ensures
            capacity == N,
    {
        self.table.capacity()
    }

    pub fn len(&self) -> (length: usize)
        ensures
            length == self@.len(),
    {
        self.table.len()
    }

    pub fn is_empty(&self) -> (empty: bool)
        ensures
            empty == (self@.len() == 0),
    {
        self.table.is_empty()
    }

    pub fn active_len(&self) -> (count: usize)
        ensures
            count == route_protocol::active_count(self@, self@.len() as int),
    {
        self.table.active_len()
    }

    pub fn generation(&self, key: RouteKey) -> (generation: Option<ProviderGeneration>)
        ensures
            generation == route_protocol::generation_of(self@, key),
    {
        self.table.generation(key)
    }

    pub fn published(&self, key: RouteKey) -> (route: Option<PublishedRoute<&H>>)
        ensures
            match route {
                Some(route) => route_protocol::active_route(self@, key) == Some(
                    PublishedRoute { generation: route.generation, authority: *route.authority },
                ),
                None => route_protocol::active_route(self@, key) is None,
            },
    {
        self.table.get(key)
    }

    /// Publishes an authority that is known to have the right shape.
    pub fn publish_prevalidated(
        &mut self,
        key: RouteKey,
        generation: ProviderGeneration,
        authority: H,
    ) -> (result: Result<Option<H>, NativePublishError<H>>)
        ensures
            ({
                let (next, outcome) = route_protocol::after_publish(
                    old(self)@,
                    N as int,
                    key,
                    generation,
                    authority,
                );
                &&& final(self)@ == next
                &&& result == native_outcome(outcome)
            }),
            route_protocol::table_valid(old(self)@, N as int) ==> route_protocol::table_valid(
                final(self)@,
                N as int,
            ),
    {
        match self.table.publish(key, generation, authority) {
            Ok(displaced) => Ok(displaced),
            Err(PublishError::Capacity { authority }) => Err(
                NativePublishError::Capacity { authority },
            ),
            Err(PublishError::GenerationNotNewer { authority, current_generation }) => Err(
                NativePublishError::GenerationNotNewer { authority, current_generation },
            ),
        }
    }

    pub fn withdraw(&mut self, key: RouteKey, generation: ProviderGeneration) -> (result: Result<
        H,
        WithdrawError,
    >)
        ensures
            (final(self)@, result) == route_protocol::after_withdraw(old(self)@, key, generation),
            route_protocol::table_valid(old(self)@, N as int) ==> route_protocol::table_valid(
                final(self)@,
                N as int,
            ),
    {
        self.table.withdraw(key, generation)
    }
}

/// Publishing an endpoint: it is inspected first, and only an exact provider source is taken.
pub open spec fn publish_run(
    k: kernel::Transcript,
    routes: Seq<route_protocol::Route<CapabilityHandle>>,
    capacity: int,
    key: RouteKey,
    generation: ProviderGeneration,
    authority: CapabilityHandle,
) -> (
    kernel::Transcript,
    Option<
        (
            Seq<route_protocol::Route<CapabilityHandle>>,
            Result<Option<CapabilityHandle>, NativePublishError<CapabilityHandle>>,
        ),
    >,
) {
    procedure::after(
        ipc::info_run(k, authority),
        |k: kernel::Transcript, inspected: Result<CapabilityInfo, ipc::Error>|
            match inspected {
                Err(source) => procedure::done(
                    k,
                    (routes, Err(NativePublishError::Inspect { authority, source })),
                ),
                Ok(info) => match validate_endpoint(info, provider_source_rights(), false) {
                    Err(source) => procedure::done(
                        k,
                        (routes, Err(NativePublishError::InvalidAuthority { authority, source })),
                    ),
                    Ok(_) => {
                        let (next, outcome) = route_protocol::after_publish(
                            routes,
                            capacity,
                            key,
                            generation,
                            authority,
                        );
                        procedure::done(k, (next, native_outcome(outcome)))
                    },
                },
            },
    )
}

/// Closing every authority that is still published, in the order of the table.
pub open spec fn close_routes_run(
    k: kernel::Transcript,
    routes: Seq<route_protocol::Route<CapabilityHandle>>,
) -> (kernel::Transcript, Option<()>)
    decreases routes.len(),
{
    if routes.len() == 0 {
        (k, Some(()))
    } else {
        let (closed, done) = procedure::quiet_option_run(k, routes[0].authority);
        match done {
            None => (closed, None),
            Some(_) => close_routes_run(closed, routes.drop_first()),
        }
    }
}

impl<const N: usize> NativeRouteTable<CapabilityHandle, N> {
    /// Publishes an endpoint source with exactly `SEND`, `DUPLICATE` and `TRANSFER`. An authority
    /// that is displaced is handed to the caller; on failure the submitted one is handed back.
    pub fn publish(
        &mut self,
        k: &mut Kernel,
        key: RouteKey,
        generation: ProviderGeneration,
        authority: CapabilityHandle,
    ) -> (result: Option<Result<Option<CapabilityHandle>, NativePublishError<CapabilityHandle>>>)
        ensures
            ({
                let (asked, outcome) = publish_run(
                    old(k)@,
                    old(self)@,
                    N as int,
                    key,
                    generation,
                    authority,
                );
                &&& final(k)@ == asked
                &&& match result {
                    Some(result) => outcome == Some((final(self)@, result)),
                    None => outcome is None && final(self)@ == old(self)@,
                }
            }),
    {
        let info = match ipc::info(k, authority)? {
            Ok(info) => info,
            Err(source) => {
                return Some(Err(NativePublishError::Inspect { authority, source }));
            },
        };
        if let Err(source) = validate_endpoint(info, provider_source_rights(), false) {
            return Some(Err(NativePublishError::InvalidAuthority { authority, source }));
        }
        Some(self.publish_prevalidated(key, generation, authority))
    }

    /// Closes every authority that is still published.
    #[verifier::loop_isolation(false)]
    pub fn close(self, k: &mut Kernel) -> (result: Option<()>)
        ensures
            (final(k)@, result) == close_routes_run(old(k)@, self@),
    {
        let routes = self.table.into_routes();
        let mut index: usize = 0;
        assert(routes@.skip(0) =~= routes@);
        while index < routes.len()
            invariant
                index <= routes@.len(),
                close_routes_run(old(k)@, routes@) == close_routes_run(
                    k@,
                    routes@.skip(index as int),
                ),
            decreases routes@.len() - index,
        {
            assert(routes@.skip(index as int)[0] == routes@[index as int]);
            assert(routes@.skip(index as int).drop_first() =~= routes@.skip(index + 1));
            close_option_quietly(k, routes[index].authority)?;
            index += 1;
        }
        Some(())
    }
}

impl<const N: usize> Default for NativeRouteTable<CapabilityHandle, N> {
    fn default() -> (table: Self)
        ensures
            table@ == Seq::<route_protocol::Route<CapabilityHandle>>::empty(),
    {
        Self::new()
    }
}

/// A denied request never learns whether the route exists: the calls and the answer are the same
/// whatever the routes hold, and the answer says `Unauthorized`.
pub proof fn lemma_denial_says_nothing_of_the_routes<E>(
    k: kernel::Transcript,
    request: Requested,
    source: E,
)
    ensures
        authorize_run(k, request, Err::<(), E>(source)).0.asked.len() > k.asked.len(),
        authorize_run(k, request, Err::<(), E>(source)).0.asked[k.asked.len() as int].bytes == (
        RouteMessage::Failure {
            key: request.key,
            failure: RouteFailure::Unauthorized,
        }).encoded(),
        authorize_run(k, request, Err::<(), E>(source)).1 matches Some(outcome) ==> outcome is Err,
{
}

/// An answered request names its key and, where a route is handed over, the generation that is
/// published: the client that asked for the key gets that generation back.
pub proof fn lemma_client_gets_the_published_generation(
    key: RouteKey,
    generation: ProviderGeneration,
    broker_process_id: u64,
)
    requires
        key.valid(),
        generation.raw != 0,
        broker_process_id != 0,
    ensures
        response_verdict(
            key,
            (RouteMessage::Accepted { key, generation }).encoded(),
            broker_process_id,
            Some(Rights::send()),
        ) == Ok::<_, ResolveError>(ResponseDisposition::Accepted(generation)),
{
    route_protocol::lemma_route_message_round_trip(RouteMessage::Accepted { key, generation });
}

/// What a client asks for is what the ingress of that key accepts, and no other ingress does.
pub proof fn lemma_only_the_granted_ingress_accepts(
    key: RouteKey,
    granted: RouteKey,
    sender_process_id: u64,
)
    requires
        key.valid(),
        sender_process_id != 0,
    ensures
        request_verdict(
            granted,
            (RouteMessage::Request { key }).encoded(),
            sender_process_id,
            Some(Rights::send()),
        ) is Ok <==> granted == key,
{
    route_protocol::lemma_route_message_round_trip(RouteMessage::Request { key });
}

/// Looking for the answer of a broker comes to a route only with an answer that accepts the key
/// and brings one endpoint. The route is what came: the handle that travelled with the message is
/// handed out and is closed by nobody, while the receiver is closed.
pub proof fn lemma_resolved_route_is_open(k: kernel::Transcript, resolution: Resolution)
    ensures
        ({
            let (after, outcome) = complete_run(k, resolution);
            outcome matches Some((ended, Ok(Some(route)))) ==> {
                &&& after.follows(k)
                &&& resolution.reply_receive matches Some(receive) && {
                    &&& after.asked_since(k, Op::Close { handle: receive })
                    &&& receive != route.handle ==> !after.asked_since(
                        k,
                        Op::Close { handle: route.handle },
                    )
                }
                &&& ended.reply_receive is None
                &&& k.reply() matches Some(reply) && {
                    &&& RouteMessage::parsed(reply.bytes) == Ok::<_, DecodeError>(
                        RouteMessage::Accepted { key: route.key, generation: route.generation },
                    )
                    &&& route.key == resolution.key
                    &&& reply.words[0] == route.broker_process_id
                    &&& reply.words[2] == route.handle
                    &&& reply.words[3] == Rights::send().raw
                }
                &&& route.broker_process_id != 0
                &&& route.object_id != resolution.reply_object_id
            }
        }),
{
    let (after, outcome) = complete_run(k, resolution);
    if let Some((ended, Ok(Some(route)))) = outcome {
        let receive = resolution.reply_receive->Some_0;
        assert(after.asked[k.asked.len() as int + 2].op == Op::Close { handle: receive });
    }
}

/// An endpoint that came with an answer and is not handed out is closed, and so is the receiver,
/// once there was an answer at all. As long as there is none, nothing is closed.
pub proof fn lemma_unresolved_route_leaves_no_handle(k: kernel::Transcript, resolution: Resolution)
    requires
        resolution.reply_receive is Some,
    ensures
        ({
            let (after, outcome) = complete_run(k, resolution);
            let receive = resolution.reply_receive->Some_0;
            &&& outcome matches Some((ended, Ok(None))) ==> {
                &&& ended == resolution
                &&& after.follows(k)
                &&& forall|handle: u64| !after.asked_since(k, #[trigger] kernel::closing(handle))
            }
            &&& outcome matches Some((ended, Err(error))) ==> {
                &&& ended.reply_receive is None
                &&& after.follows(k)
                &&& after.asked_since(k, Op::Close { handle: receive })
                &&& ipc::delivered(
                    k.reply()->Some_0,
                    SERVICE_ROUTE_WIRE_BYTES as nat,
                ) matches Ok(delivery) ==> (delivery.message.capability matches Some(capability)
                    ==> after.asked_since(k, Op::Close { handle: capability.handle }))
            }
        }),
{
    let (after, outcome) = complete_run(k, resolution);
    let receive = resolution.reply_receive->Some_0;
    if let Some((ended, Err(error))) = outcome {
        assert(after.asked.last().op == Op::Close { handle: receive });
        if let Ok(delivery) = ipc::delivered(k.reply()->Some_0, SERVICE_ROUTE_WIRE_BYTES as nat) {
            if let Some(capability) = delivery.message.capability {
                assert(after.asked[after.asked.len() - 2].op == Op::Close {
                    handle: capability.handle,
                });
            }
        }
    }
}

/// A request that is accepted is for the key of the ingress, and its message says so. Its answer
/// goes over the endpoint that came with it, which is open.
pub proof fn lemma_accepted_request_can_be_answered(k: kernel::Transcript, ingress: Ingress)
    ensures
        ({
            let (after, outcome) = accept_run(k, ingress);
            outcome matches Some(Ok(Some(request))) ==> {
                &&& after.follows(k)
                &&& forall|i: int|
                    k.asked.len() <= i < after.asked.len() ==> !((#[trigger] after.asked[i]).op
                        is Close)
                &&& request.key == ingress.granted_key
                &&& request.reply_object_id != ingress.object_id
                &&& k.reply() matches Some(reply) && {
                    &&& RouteMessage::parsed(reply.bytes) == Ok::<_, DecodeError>(
                        RouteMessage::Request { key: request.key },
                    )
                    &&& reply.words[0] == request.sender_process_id
                    &&& request.sender_process_id != 0
                    &&& reply.words[2] == request.reply
                    &&& reply.words[3] == Rights::send().raw
                }
            }
        }),
{
}

/// How a broker answers a request that it may answer: one message, over the endpoint that came with
/// the request. Where a route is published, a copy of its authority that was made for this answer
/// travels with the message, to be sent to and no more, and the message names the generation of the
/// route. Where none is, or no copy can be made, nothing travels. What travelled and the endpoint
/// of the answer are closed, and nothing else: the authority stays with the table.
pub proof fn lemma_broker_answers_from_the_published_route(
    k: kernel::Transcript,
    request: Requested,
    published: Option<PublishedRoute<CapabilityHandle>>,
    copy: CapabilityHandle,
)
    requires
        resolve_run(k, request, published).1 is Some,
        published matches Some(route) ==> k.reply() is Some && (ipc::decoded(
            k.reply()->Some_0.result,
        ) is Ok ==> ipc::decoded(k.reply()->Some_0.result)->Ok_0 == copy),
    ensures
        ({
            let (after, outcome) = resolve_run(k, request, published);
            let copied = published is Some && ipc::decoded(k.reply()->Some_0.result) is Ok;
            let first = k.asked.len() as int + if published is Some {
                1int
            } else {
                0int
            };
            &&& after.follows(k)
            &&& published matches Some(route) ==> (after.asked[k.asked.len() as int].op
                matches Op::Duplicate { handle, rights } && handle == route.authority && rights
                == Rights::send().raw | Rights::transfer().raw)
            &&& copied ==> {
                &&& after.asked[first].op == Op::Send {
                    endpoint: request.reply,
                    handle: copy,
                    rights: Rights::send().raw,
                }
                &&& after.asked[first].bytes == (RouteMessage::Accepted {
                    key: request.key,
                    generation: published->Some_0.generation,
                }).encoded()
                &&& after.asked_since(k, Op::Close { handle: copy })
            }
            &&& !copied ==> {
                &&& after.asked[first].op == Op::Send {
                    endpoint: request.reply,
                    handle: 0,
                    rights: 0,
                }
                &&& after.asked[first].bytes == (RouteMessage::Failure {
                    key: request.key,
                    failure: if published is Some {
                        RouteFailure::IssuerCapacity
                    } else {
                        RouteFailure::Unavailable
                    },
                }).encoded()
            }
            &&& after.asked_since(k, Op::Close { handle: request.reply })
            &&& forall|i: int|
                k.asked.len() <= i < after.asked.len() ==> {
                    &&& (#[trigger] after.asked[i]).op is Send ==> i == first
                    &&& after.asked[i].op matches Op::Close { handle } ==> (handle == request.reply
                        || copied && handle == copy)
                }
            &&& outcome matches Some(Ok(RouteReply::Accepted { generation })) ==> copied
                && generation == published->Some_0.generation
            &&& outcome matches Some(Ok(RouteReply::Failure(failure))) ==> published is None
                && failure == RouteFailure::Unavailable
        }),
{
    let (after, outcome) = resolve_run(k, request, published);
    let m = after.asked.len() as int;
    assert(after.asked[m - 1].op == Op::Close { handle: request.reply });
    if published is Some && ipc::decoded(k.reply()->Some_0.result) is Ok {
        assert(after.asked[m - 2].op == Op::Close { handle: copy });
    }
}

/// A client that has asked for a route has sent one request for exactly that route over its grant.
pub proof fn lemma_begun_resolution_asks_for_its_key(
    k: kernel::Transcript,
    grant: CapabilityHandle,
    key: RouteKey,
)
    requires
        key.valid(),
        begin_run(k, grant, key).1 matches Some(Ok(_)),
    ensures
        ({
            let (after, outcome) = begin_run(k, grant, key);
            let resolution = outcome->Some_0->Ok_0;
            &&& after.follows(k)
            &&& resolution.key == key
            &&& resolution.reply_receive is Some
            &&& resolution.reply_object_id != 0
            &&& exists|i: int|
                {
                    &&& k.asked.len() <= i < after.asked.len()
                    &&& (#[trigger] after.asked[i]).op matches Op::Send { endpoint, rights, .. }
                        && endpoint == grant && rights == Rights::send().raw
                    &&& RouteMessage::parsed(after.asked[i].bytes) == Ok::<_, DecodeError>(
                        RouteMessage::Request { key },
                    )
                }
        }),
{
    let request = RouteMessage::Request { key };
    route_protocol::lemma_route_message_round_trip(request);
    exchange::lemma_sent_exchange_keeps_its_receiver(k, grant, request.encoded(), false);
    exchange::lemma_sent_exchange_has_a_reply_endpoint(k, grant, request.encoded(), false);
    let after = begin_run(k, grant, key).0;
    assert(after.asked[k.asked.len() as int + 5].op is Send);
}

} // verus!
