//! Logging sessions: how they are opened, used and ended.
//!
//! A logging service has one shared ingress endpoint for each [`SessionRole`]. Holding a role's
//! ingress capability is the authority to ask for that role; no role appears in the records. An
//! accepted session uses the shared ingress towards the service and a private endpoint of its own
//! towards the client.

use crate::abi::{INVALID_HANDLE, MAX_IPC_MESSAGE_BYTES};
use crate::bytes;
use crate::bytes::{copy_into, equal, get_u16, get_u64, put_u16, put_u64, starts_with};
use crate::handle;
use crate::ipc;
use crate::ipc::{
    CapabilityHandle, CapabilityInfo, ObjectKind, ReceivedCapability, Rights, Transfer,
};
use crate::kernel;
use crate::kernel::{Kernel, Op};
use crate::packet::{PacketBuf, TryRecvError, TrySendError, MAX_PACKET_BYTES};
use crate::procedure;
use crate::syscall;
use crate::syscall::yield_now;
use vstd::prelude::*;

verus! {

pub const CONTROL_RECORD_BYTES: usize = 16;

/// `NSLS`.
pub const CONTROL_MAGIC: [u8; 4] = [0x4e, 0x53, 0x4c, 0x53];

pub const CONTROL_WIRE_VERSION: u8 = 1;

pub const MAX_LOGGING_SESSIONS: usize = 4;

pub const MAX_LOGGING_SESSIONS_PER_ROLE: usize = 3;

pub const CONTROL_KIND_CONNECT: u8 = 1;

pub const CONTROL_KIND_CONNECT_RESPONSE: u8 = 2;

pub const CONTROL_KIND_DISCONNECT: u8 = 3;

/// The authority that a shared ingress endpoint stands for.
#[derive(Clone, Copy, Debug, PartialEq, Eq, Structural)]
pub enum SessionRole {
    Producer,
    Observer,
}

/// What the service says to a request to connect.
#[derive(Clone, Copy, Debug, PartialEq, Eq, Structural)]
pub enum ConnectStatus {
    Accepted,
    Unavailable,
    CapacityExhausted,
    Rejected,
}

impl ConnectStatus {
    #[verifier::allow_in_spec]
    pub fn raw(self) -> u16
        returns
            (match self {
                Self::Accepted => 0u16,
                Self::Unavailable => 1u16,
                Self::CapacityExhausted => 2u16,
                Self::Rejected => 3u16,
            }),
    {
        match self {
            Self::Accepted => 0,
            Self::Unavailable => 1,
            Self::CapacityExhausted => 2,
            Self::Rejected => 3,
        }
    }

    #[verifier::allow_in_spec]
    pub fn from_raw(raw: u16) -> Option<Self>
        returns
            (if raw == 0 {
                Some(Self::Accepted)
            } else if raw == 1 {
                Some(Self::Unavailable)
            } else if raw == 2 {
                Some(Self::CapacityExhausted)
            } else if raw == 3 {
                Some(Self::Rejected)
            } else {
                None
            }),
    {
        match raw {
            0 => Some(Self::Accepted),
            1 => Some(Self::Unavailable),
            2 => Some(Self::CapacityExhausted),
            3 => Some(Self::Rejected),
            _ => None,
        }
    }
}

/// Why a new session is not admitted. An owner has at most one session, and neither role can
/// take every session.
#[verifier::allow_in_spec]
pub fn admission_rejection(
    total_sessions: usize,
    role_sessions: usize,
    duplicate_owner: bool,
) -> Option<ConnectStatus>
    returns
        (if duplicate_owner {
            Some(ConnectStatus::Rejected)
        } else if total_sessions >= MAX_LOGGING_SESSIONS || role_sessions
            >= MAX_LOGGING_SESSIONS_PER_ROLE {
            Some(ConnectStatus::CapacityExhausted)
        } else {
            None
        }),
{
    if duplicate_owner {
        Some(ConnectStatus::Rejected)
    } else if total_sessions >= MAX_LOGGING_SESSIONS || role_sessions
        >= MAX_LOGGING_SESSIONS_PER_ROLE {
        Some(ConnectStatus::CapacityExhausted)
    } else {
        None
    }
}

/// As long as sessions are admitted this way, one of each role always finds room beside the
/// other role's sessions.
pub proof fn lemma_neither_role_takes_every_session(own: usize, other: usize)
    requires
        own == 0,
        other <= MAX_LOGGING_SESSIONS_PER_ROLE,
    ensures
        admission_rejection((own + other) as usize, own, false) is None,
{
}

/// A record that opens or ends a session.
#[derive(Clone, Copy, Debug, PartialEq, Eq, Structural)]
pub enum ControlRecord {
    Connect,
    ConnectResponse { status: ConnectStatus, service_generation: u64 },
    Disconnect { service_generation: u64 },
}

#[derive(Clone, Copy, Debug, PartialEq, Eq, Structural)]
pub enum ControlEncodeError {
    MissingServiceGeneration,
    UnexpectedServiceGeneration,
}

#[derive(Clone, Copy, Debug, PartialEq, Eq, Structural)]
pub enum ControlDecodeError {
    InvalidLength { bytes: usize },
    InvalidMagic,
    UnsupportedVersion { version: u8 },
    UnknownKind { kind: u8 },
    UnknownStatus { status: u16 },
    UnexpectedStatus { status: u16 },
    MissingServiceGeneration,
    UnexpectedServiceGeneration,
}

/// The bytes of a record of this kind.
pub open spec fn record_bytes(kind: u8, status: u16, generation: u64) -> Seq<u8> {
    CONTROL_MAGIC@ + seq![CONTROL_WIRE_VERSION, kind] + bytes::u16_bytes(status)
        + bytes::u64_bytes(generation)
}

impl ControlRecord {
    /// The bytes of the record, if its generation goes with its kind.
    pub open spec fn encoded(self) -> Result<Seq<u8>, ControlEncodeError> {
        match self {
            ControlRecord::Connect => Ok(record_bytes(CONTROL_KIND_CONNECT, 0, 0)),
            ControlRecord::ConnectResponse { status, service_generation } => if status
                == ConnectStatus::Accepted && service_generation == 0 {
                Err(ControlEncodeError::MissingServiceGeneration)
            } else if status != ConnectStatus::Accepted && service_generation != 0 {
                Err(ControlEncodeError::UnexpectedServiceGeneration)
            } else {
                Ok(record_bytes(CONTROL_KIND_CONNECT_RESPONSE, status.raw(), service_generation))
            },
            ControlRecord::Disconnect { service_generation } => if service_generation == 0 {
                Err(ControlEncodeError::MissingServiceGeneration)
            } else {
                Ok(record_bytes(CONTROL_KIND_DISCONNECT, 0, service_generation))
            },
        }
    }

    /// The record that bytes hold.
    pub open spec fn parsed(input: Seq<u8>) -> Result<ControlRecord, ControlDecodeError> {
        if input.len() != CONTROL_RECORD_BYTES {
            Err(ControlDecodeError::InvalidLength { bytes: input.len() as usize })
        } else if input.take(4) != CONTROL_MAGIC@ {
            Err(ControlDecodeError::InvalidMagic)
        } else if input[4] != CONTROL_WIRE_VERSION {
            Err(ControlDecodeError::UnsupportedVersion { version: input[4] })
        } else {
            let kind = input[5];
            let status = bytes::u16_at(input, 6);
            let generation = bytes::u64_at(input, 8);
            if kind == CONTROL_KIND_CONNECT {
                if status != 0 {
                    Err(ControlDecodeError::UnexpectedStatus { status })
                } else if generation != 0 {
                    Err(ControlDecodeError::UnexpectedServiceGeneration)
                } else {
                    Ok(ControlRecord::Connect)
                }
            } else if kind == CONTROL_KIND_CONNECT_RESPONSE {
                match ConnectStatus::from_raw(status) {
                    None => Err(ControlDecodeError::UnknownStatus { status }),
                    Some(status) => if status == ConnectStatus::Accepted && generation == 0 {
                        Err(ControlDecodeError::MissingServiceGeneration)
                    } else if status != ConnectStatus::Accepted && generation != 0 {
                        Err(ControlDecodeError::UnexpectedServiceGeneration)
                    } else {
                        Ok(
                            ControlRecord::ConnectResponse {
                                status,
                                service_generation: generation,
                            },
                        )
                    },
                }
            } else if kind == CONTROL_KIND_DISCONNECT {
                if status != 0 {
                    Err(ControlDecodeError::UnexpectedStatus { status })
                } else if generation == 0 {
                    Err(ControlDecodeError::MissingServiceGeneration)
                } else {
                    Ok(ControlRecord::Disconnect { service_generation: generation })
                }
            } else {
                Err(ControlDecodeError::UnknownKind { kind })
            }
        }
    }

    pub fn encode(self) -> (result: Result<[u8; CONTROL_RECORD_BYTES], ControlEncodeError>)
        ensures
            match result {
                Ok(output) => self.encoded() == Ok::<_, ControlEncodeError>(output@),
                Err(error) => self.encoded() == Err::<Seq<u8>, _>(error),
            },
    {
        let (kind, status, generation): (u8, u16, u64) = match self {
            Self::Connect => (CONTROL_KIND_CONNECT, 0, 0),
            Self::ConnectResponse { status, service_generation } => {
                if status == ConnectStatus::Accepted && service_generation == 0 {
                    return Err(ControlEncodeError::MissingServiceGeneration);
                }
                if status != ConnectStatus::Accepted && service_generation != 0 {
                    return Err(ControlEncodeError::UnexpectedServiceGeneration);
                }
                (CONTROL_KIND_CONNECT_RESPONSE, status.raw(), service_generation)
            },
            Self::Disconnect { service_generation } => {
                if service_generation == 0 {
                    return Err(ControlEncodeError::MissingServiceGeneration);
                }
                (CONTROL_KIND_DISCONNECT, 0, service_generation)
            },
        };
        let mut output: [u8; CONTROL_RECORD_BYTES] = [0;CONTROL_RECORD_BYTES];
        copy_into(&mut output, 0, &CONTROL_MAGIC);
        output[4] = CONTROL_WIRE_VERSION;
        output[5] = kind;
        put_u16(&mut output, 6, status);
        put_u64(&mut output, 8, generation);
        proof {
            bytes::lemma_u64_round_trip(generation);
            assert(output@ =~= record_bytes(kind, status, generation));
        }
        Ok(output)
    }

    pub fn decode(input: &[u8]) -> (result: Result<Self, ControlDecodeError>)
        ensures
            result == Self::parsed(input@),
    {
        if input.len() != CONTROL_RECORD_BYTES {
            return Err(ControlDecodeError::InvalidLength { bytes: input.len() });
        }
        assert(input@.subrange(0, 4) =~= input@.take(4));
        if !equal(&input[0..4], &CONTROL_MAGIC) {
            return Err(ControlDecodeError::InvalidMagic);
        }
        if input[4] != CONTROL_WIRE_VERSION {
            return Err(ControlDecodeError::UnsupportedVersion { version: input[4] });
        }
        let status: u16 = get_u16(input, 6);
        let generation: u64 = get_u64(input, 8);
        let kind: u8 = input[5];
        if kind == CONTROL_KIND_CONNECT {
            if status != 0 {
                return Err(ControlDecodeError::UnexpectedStatus { status });
            }
            if generation != 0 {
                return Err(ControlDecodeError::UnexpectedServiceGeneration);
            }
            Ok(Self::Connect)
        } else if kind == CONTROL_KIND_CONNECT_RESPONSE {
            let status = match ConnectStatus::from_raw(status) {
                Some(status) => status,
                None => {
                    return Err(ControlDecodeError::UnknownStatus { status });
                },
            };
            if status == ConnectStatus::Accepted && generation == 0 {
                return Err(ControlDecodeError::MissingServiceGeneration);
            }
            if status != ConnectStatus::Accepted && generation != 0 {
                return Err(ControlDecodeError::UnexpectedServiceGeneration);
            }
            Ok(Self::ConnectResponse { status, service_generation: generation })
        } else if kind == CONTROL_KIND_DISCONNECT {
            if status != 0 {
                return Err(ControlDecodeError::UnexpectedStatus { status });
            }
            if generation == 0 {
                return Err(ControlDecodeError::MissingServiceGeneration);
            }
            Ok(Self::Disconnect { service_generation: generation })
        } else {
            Err(ControlDecodeError::UnknownKind { kind })
        }
    }
}

proof fn lemma_record_fields(kind: u8, status: u16, generation: u64)
    ensures
        ({
            let record = record_bytes(kind, status, generation);
            &&& record.len() == CONTROL_RECORD_BYTES
            &&& record.take(4) =~= CONTROL_MAGIC@
            &&& record[4] == CONTROL_WIRE_VERSION
            &&& record[5] == kind
            &&& bytes::u16_at(record, 6) == status
            &&& bytes::u64_at(record, 8) == generation
        }),
{
    let record = record_bytes(kind, status, generation);
    bytes::lemma_u16_round_trip(status);
    bytes::lemma_u64_round_trip(generation);
    assert(record.subrange(6, 8) =~= bytes::u16_bytes(status));
    bytes::lemma_u16_at_window(record, 6, bytes::u16_bytes(status));
    assert(record.subrange(8, 16) =~= bytes::u64_bytes(generation));
    bytes::lemma_u64_at_window(record, 8, bytes::u64_bytes(generation));
}

/// Decoding an encoded record gives the record back.
pub proof fn lemma_control_round_trip(record: ControlRecord)
    requires
        record.encoded() is Ok,
    ensures
        ControlRecord::parsed(record.encoded()->Ok_0) == Ok::<_, ControlDecodeError>(record),
{
    match record {
        ControlRecord::Connect => lemma_record_fields(CONTROL_KIND_CONNECT, 0, 0),
        ControlRecord::ConnectResponse { status, service_generation } => lemma_record_fields(
            CONTROL_KIND_CONNECT_RESPONSE,
            status.raw(),
            service_generation,
        ),
        ControlRecord::Disconnect { service_generation } => lemma_record_fields(
            CONTROL_KIND_DISCONNECT,
            0,
            service_generation,
        ),
    }
}

/// Only the canonical record decodes: encoding what was decoded gives the same bytes.
pub proof fn lemma_control_is_canonical(input: Seq<u8>)
    requires
        ControlRecord::parsed(input) is Ok,
    ensures
        ControlRecord::parsed(input)->Ok_0.encoded() == Ok::<_, ControlEncodeError>(input),
{
    bytes::lemma_u16_at_bytes(input, 6);
    bytes::lemma_u64_at_bytes(input, 8);
    assert(input =~= input.take(4) + seq![input[4], input[5]] + input.subrange(6, 8)
        + input.subrange(8, 16));
}

#[derive(Clone, Copy, Debug, PartialEq, Eq, Structural)]
pub enum ClientConnectError {
    Ipc(ipc::Error),
    YieldFailed,
    InvalidIngress,
    InvalidPrivateEndpoint,
    Closed,
    InvalidServiceProcessId,
    UnexpectedCapability,
    UnexpectedControlRecord,
    MalformedControl(ControlDecodeError),
    Rejected(ConnectStatus),
}

/// Whether a capability is an endpoint with exactly these rights.
#[verifier::allow_in_spec]
pub fn exact_endpoint(info: CapabilityInfo, rights: Rights) -> bool
    returns
        info.kind == ObjectKind::Endpoint && info.rights == rights,
{
    info.kind == ObjectKind::Endpoint && info.rights == rights
}

/// Whether a sender is the one that is expected.
#[verifier::allow_in_spec]
pub fn sender_is_pinned(expected: u64, actual: u64) -> bool
    returns
        expected != 0 && actual == expected,
{
    expected != 0 && actual == expected
}

/// Closing a handle, if it is one.
pub open spec fn close_valid_run(k: kernel::Transcript, handle: CapabilityHandle) -> (
    kernel::Transcript,
    Option<()>,
) {
    if handle == INVALID_HANDLE {
        (k, Some(()))
    } else {
        handle::discard_run(k, Some(handle))
    }
}

/// Closing handles in order.
pub open spec fn close_each_run(k: kernel::Transcript, handles: Seq<CapabilityHandle>) -> (
    kernel::Transcript,
    Option<()>,
)
    decreases handles.len(),
{
    if handles.len() == 0 {
        (k, Some(()))
    } else {
        let (closed, done) = close_valid_run(k, handles[0]);
        match done {
            None => (closed, None),
            Some(_) => close_each_run(closed, handles.drop_first()),
        }
    }
}

fn close_valid(k: &mut Kernel, handle: CapabilityHandle) -> (result: Option<()>)
    ensures
        (final(k)@, result) == close_valid_run(old(k)@, handle),
{
    if handle != INVALID_HANDLE {
        let _ = ipc::close(k, handle)?;
    }
    Some(())
}

fn close_each(k: &mut Kernel, handles: &[CapabilityHandle]) -> (result: Option<()>)
    ensures
        (final(k)@, result) == close_each_run(old(k)@, handles@),
{
    let mut index: usize = 0;
    assert(handles@.skip(0) =~= handles@);
    while index < handles.len()
        invariant
            index <= handles@.len(),
            close_each_run(old(k)@, handles@) == close_each_run(k@, handles@.skip(index as int)),
        decreases handles@.len() - index,
    {
        assert(handles@.skip(index as int)[0] == handles@[index as int]);
        assert(handles@.skip(index as int).drop_first() =~= handles@.skip(index + 1));
        close_valid(k, handles[index])?;
        index += 1;
    }
    Some(())
}

/// The client's side of opening a session. Whoever drops it has to call [`Self::close`].
///
/// A clone owns nothing: it is there to run a procedure again from the same state.
#[derive(Clone, Debug)]
pub struct ClientBootstrap {
    ingress_handle: CapabilityHandle,
    reply_source_handle: CapabilityHandle,
    receive_handle: CapabilityHandle,
    connect_sent: bool,
    closed: bool,
}

/// The client's side of opening a session as the contracts see it.
pub ghost struct Bootstrap {
    pub ingress: CapabilityHandle,
    pub reply_source: CapabilityHandle,
    pub receive: CapabilityHandle,
    pub connect_sent: bool,
    pub closed: bool,
}

impl View for ClientBootstrap {
    type V = Bootstrap;

    closed spec fn view(&self) -> Bootstrap {
        Bootstrap {
            ingress: self.ingress_handle,
            reply_source: self.reply_source_handle,
            receive: self.receive_handle,
            connect_sent: self.connect_sent,
            closed: self.closed,
        }
    }
}

impl Bootstrap {
    /// The bootstrap once every handle is closed.
    pub open spec fn shut(self) -> Bootstrap {
        if self.closed {
            self
        } else {
            Bootstrap {
                ingress: INVALID_HANDLE,
                reply_source: INVALID_HANDLE,
                receive: INVALID_HANDLE,
                closed: true,
                ..self
            }
        }
    }

    /// Closing every handle: the private endpoint first, the ingress last.
    pub open spec fn close_run(self, k: kernel::Transcript) -> (kernel::Transcript, Option<()>) {
        if self.closed {
            (k, Some(()))
        } else {
            close_each_run(k, seq![self.reply_source, self.receive, self.ingress])
        }
    }

    /// Failing for good.
    pub open spec fn fail_run(self, k: kernel::Transcript, error: ClientConnectError) -> (
        kernel::Transcript,
        Bootstrap,
        Option<Result<Option<Link>, ClientConnectError>>,
    ) {
        let (closed, result) = procedure::fail_after(self.close_run(k), error);
        (closed, self.shut(), result)
    }

    /// Asking to connect, once.
    pub open spec fn request_run(self, k: kernel::Transcript) -> (
        kernel::Transcript,
        Bootstrap,
        Option<Result<bool, ClientConnectError>>,
    ) {
        if self.connect_sent {
            (k, self, Some(Ok(true)))
        } else {
            let (sent, result) = ipc::send_run(
                k,
                self.ingress,
                record_bytes(CONTROL_KIND_CONNECT, 0, 0),
                Some(Transfer { handle: self.reply_source, rights: Rights::send() }),
            );
            match result {
                None => (sent, self, None),
                Some(Err(error)) => if error == ipc::Error::try_again() {
                    (sent, self, Some(Ok(false)))
                } else {
                    let (closed, failure) = procedure::fail_after(
                        self.close_run(sent),
                        ClientConnectError::Ipc(error),
                    );
                    (closed, self.shut(), failure)
                },
                Some(Ok(_)) => {
                    let (closed, done) = handle::discard_run(sent, Some(self.reply_source));
                    (
                        closed,
                        Bootstrap { connect_sent: true, reply_source: INVALID_HANDLE, ..self },
                        match done {
                            None => None,
                            Some(_) => Some(Ok(true)),
                        },
                    )
                },
            }
        }
    }

    /// Taking the service's answer, if it is there.
    pub open spec fn answer_run(self, k: kernel::Transcript) -> (
        kernel::Transcript,
        Bootstrap,
        Option<Result<Option<Link>, ClientConnectError>>,
    ) {
        let (asked, message) = ipc::try_receive_run(k, self.receive, CONTROL_RECORD_BYTES);
        match message {
            None => (asked, self, None),
            Some(Err(error)) => if error == ipc::Error::try_again() {
                (asked, self, Some(Ok(None)))
            } else {
                self.fail_run(asked, ClientConnectError::Ipc(error))
            },
            Some(Ok(delivery)) => match delivery.message.capability {
                Some(capability) => {
                    let (closed, done) = handle::discard_run(asked, Some(capability.handle));
                    match done {
                        None => (closed, self, None),
                        Some(_) => self.fail_run(
                            closed,
                            ClientConnectError::UnexpectedCapability,
                        ),
                    }
                },
                None => if delivery.message.sender_process_id == 0 {
                    self.fail_run(asked, ClientConnectError::InvalidServiceProcessId)
                } else {
                    match ControlRecord::parsed(delivery.payload) {
                        Err(error) => self.fail_run(
                            asked,
                            ClientConnectError::MalformedControl(error),
                        ),
                        Ok(ControlRecord::ConnectResponse { status, service_generation }) => if status
                            != ConnectStatus::Accepted {
                            self.fail_run(asked, ClientConnectError::Rejected(status))
                        } else {
                            (
                                asked,
                                Bootstrap {
                                    ingress: INVALID_HANDLE,
                                    receive: INVALID_HANDLE,
                                    closed: true,
                                    ..self
                                },
                                Some(
                                    Ok(
                                        Some(
                                            Link {
                                                ingress: self.ingress,
                                                receive: self.receive,
                                                service: delivery.message.sender_process_id,
                                                generation: service_generation,
                                                disconnect_pending: true,
                                                closed: false,
                                            },
                                        ),
                                    ),
                                ),
                            )
                        },
                        Ok(_) => self.fail_run(asked, ClientConnectError::UnexpectedControlRecord),
                    }
                },
            },
        }
    }

    /// One step of opening the session.
    pub open spec fn try_connect_run(self, k: kernel::Transcript) -> (
        kernel::Transcript,
        Bootstrap,
        Option<Result<Option<Link>, ClientConnectError>>,
    ) {
        if self.closed {
            (k, self, Some(Err(ClientConnectError::Closed)))
        } else {
            let (sent, requested, outcome) = self.request_run(k);
            match outcome {
                None => (sent, requested, None),
                Some(Err(error)) => (sent, requested, Some(Err(error))),
                Some(Ok(false)) => (sent, requested, Some(Ok(None))),
                Some(Ok(true)) => requested.answer_run(sent),
            }
        }
    }

    /// Opening the session, yielding while either endpoint is not ready.
    pub open spec fn connect_run(self, k: kernel::Transcript) -> (
        kernel::Transcript,
        Option<Result<Link, ClientConnectError>>,
    )
        decreases k.unread(),
    {
        let (tried, next, outcome) = self.try_connect_run(k);
        match outcome {
            None => (tried, None),
            Some(Err(error)) => procedure::fail_after(next.close_run(tried), error),
            Some(Ok(Some(link))) => (tried, Some(Ok(link))),
            Some(Ok(None)) => {
                let (yielded, result) = syscall::yield_run(tried);
                match result {
                    None => (yielded, None),
                    Some(Err(_)) => procedure::fail_after(
                        next.close_run(yielded),
                        ClientConnectError::YieldFailed,
                    ),
                    Some(Ok(_)) => next.connect_run(yielded),
                }
            },
        }
    }
}

/// Creating the client's side of a session.
pub open spec fn bootstrap_run(k: kernel::Transcript, ingress: CapabilityHandle) -> (
    kernel::Transcript,
    Option<Result<Bootstrap, ClientConnectError>>,
) {
    let (asked, info) = ipc::info_run(k, ingress);
    match info {
        None => (asked, None),
        Some(Err(error)) => (asked, Some(Err(ClientConnectError::Ipc(error)))),
        Some(Ok(info)) => if !exact_endpoint(info, Rights::send()) {
            (asked, Some(Err(ClientConnectError::InvalidIngress)))
        } else {
            let (created, source) = ipc::value_run(asked, Op::EndpointCreate);
            match source {
                None => (created, None),
                Some(Err(error)) => (created, Some(Err(ClientConnectError::Ipc(error)))),
                Some(Ok(source)) => private_endpoint_run(created, ingress, source),
            }
        },
    }
}

/// Deriving the receiving side of the private endpoint.
pub open spec fn private_endpoint_run(
    k: kernel::Transcript,
    ingress: CapabilityHandle,
    source: CapabilityHandle,
) -> (kernel::Transcript, Option<Result<Bootstrap, ClientConnectError>>) {
    let (duplicated, receive) = ipc::value_run(
        k,
        Op::Duplicate { handle: source, rights: Rights::receive().raw },
    );
    match receive {
        None => (duplicated, None),
        Some(Err(error)) => procedure::fail_after(
            handle::discard_run(duplicated, Some(source)),
            ClientConnectError::Ipc(error),
        ),
        Some(Ok(receive)) => {
            let (asked, info) = ipc::info_run(duplicated, receive);
            match info {
                None => (asked, None),
                Some(verdict) => if verdict is Ok && exact_endpoint(
                    verdict->Ok_0,
                    Rights::receive(),
                ) {
                    (
                        asked,
                        Some(
                            Ok(
                                Bootstrap {
                                    ingress,
                                    reply_source: source,
                                    receive,
                                    connect_sent: false,
                                    closed: false,
                                },
                            ),
                        ),
                    )
                } else {
                    let (first, done) = handle::discard_run(asked, Some(receive));
                    match done {
                        None => (first, None),
                        Some(_) => procedure::fail_after(
                            handle::discard_run(first, Some(source)),
                            ClientConnectError::InvalidPrivateEndpoint,
                        ),
                    }
                },
            }
        },
    }
}

/// What a bootstrap is to the contracts.
pub open spec fn bootstrap_view(
    result: Option<Result<ClientBootstrap, ClientConnectError>>,
) -> Option<Result<Bootstrap, ClientConnectError>> {
    match result {
        None => None,
        Some(Ok(bootstrap)) => Some(Ok(bootstrap@)),
        Some(Err(error)) => Some(Err(error)),
    }
}

/// What a step of opening a session is to the contracts.
pub open spec fn step_view(
    result: Option<Result<Option<ClientTransport>, ClientConnectError>>,
) -> Option<Result<Option<Link>, ClientConnectError>> {
    match result {
        None => None,
        Some(Ok(None)) => Some(Ok(None)),
        Some(Ok(Some(transport))) => Some(Ok(Some(transport@))),
        Some(Err(error)) => Some(Err(error)),
    }
}

impl ClientBootstrap {
    /// Takes over `ingress_handle` only when it succeeds.
    pub fn new(k: &mut Kernel, ingress_handle: CapabilityHandle) -> (result: Option<
        Result<Self, ClientConnectError>,
    >)
        ensures
            (final(k)@, bootstrap_view(result)) == bootstrap_run(old(k)@, ingress_handle),
    {
        match ipc::info(k, ingress_handle)? {
            Err(error) => {
                return Some(Err(ClientConnectError::Ipc(error)));
            },
            Ok(info) => {
                if !exact_endpoint(info, Rights::send()) {
                    return Some(Err(ClientConnectError::InvalidIngress));
                }
            },
        }
        let reply_source_handle: u64 = match ipc::endpoint_create(k)? {
            Ok(handle) => handle,
            Err(error) => {
                return Some(Err(ClientConnectError::Ipc(error)));
            },
        };
        let receive_handle: u64 = match ipc::duplicate(k, reply_source_handle, Rights::receive())? {
            Ok(handle) => handle,
            Err(error) => {
                let _ = ipc::close(k, reply_source_handle)?;
                return Some(Err(ClientConnectError::Ipc(error)));
            },
        };
        let receive_is_exact = match ipc::info(k, receive_handle)? {
            Ok(info) => exact_endpoint(info, Rights::receive()),
            Err(_) => false,
        };
        if !receive_is_exact {
            let _ = ipc::close(k, receive_handle)?;
            let _ = ipc::close(k, reply_source_handle)?;
            return Some(Err(ClientConnectError::InvalidPrivateEndpoint));
        }
        Some(
            Ok(
                Self {
                    ingress_handle,
                    reply_source_handle,
                    receive_handle,
                    connect_sent: false,
                    closed: false,
                },
            ),
        )
    }

    /// Closes every handle, once.
    pub fn close(&mut self, k: &mut Kernel) -> (result: Option<()>)
        ensures
            (final(k)@, result) == old(self)@.close_run(old(k)@),
            final(self)@ == old(self)@.shut(),
    {
        if self.closed {
            return Some(());
        }
        self.closed = true;
        let handles: [CapabilityHandle; 3] = [
            self.reply_source_handle,
            self.receive_handle,
            self.ingress_handle,
        ];
        assert(handles@ =~= seq![
            old(self)@.reply_source,
            old(self)@.receive,
            old(self)@.ingress,
        ]);
        self.reply_source_handle = INVALID_HANDLE;
        self.receive_handle = INVALID_HANDLE;
        self.ingress_handle = INVALID_HANDLE;
        close_each(k, &handles)
    }

    fn fail(&mut self, k: &mut Kernel, error: ClientConnectError) -> (result: Option<
        Result<Option<ClientTransport>, ClientConnectError>,
    >)
        ensures
            ({
                let (closed, next, outcome) = old(self)@.fail_run(old(k)@, error);
                &&& final(k)@ == closed
                &&& final(self)@ == next
                &&& step_view(result) == outcome
            }),
    {
        self.close(k)?;
        Some(Err(error))
    }

    /// Goes on without blocking. `Ok(None)` means that an endpoint is not ready yet. After a
    /// failure every handle is closed.
    pub fn try_connect(&mut self, k: &mut Kernel) -> (result: Option<
        Result<Option<ClientTransport>, ClientConnectError>,
    >)
        ensures
            ({
                let (tried, next, outcome) = old(self)@.try_connect_run(old(k)@);
                &&& final(k)@ == tried
                &&& step_view(result) == outcome
                &&& result is Some ==> final(self)@ == next
            }),
    {
        if self.closed {
            return Some(Err(ClientConnectError::Closed));
        }
        if !self.connect_sent {
            let record = match ControlRecord::Connect.encode() {
                Ok(record) => record,
                Err(_) => {
                    return None;
                },
            };
            match ipc::send(
                k,
                self.ingress_handle,
                &record,
                Some(Transfer { handle: self.reply_source_handle, rights: Rights::send() }),
            )? {
                Ok(()) => {
                    self.connect_sent = true;
                    let _ = ipc::close(k, self.reply_source_handle)?;
                    self.reply_source_handle = INVALID_HANDLE;
                },
                Err(error) => {
                    if error == ipc::Error::try_again() {
                        return Some(Ok(None));
                    }
                    return self.fail(k, ClientConnectError::Ipc(error));
                },
            }
        }
        let received = match ipc::try_receive(k, self.receive_handle, CONTROL_RECORD_BYTES)? {
            Ok(received) => received,
            Err(error) => {
                if error == ipc::Error::try_again() {
                    return Some(Ok(None));
                }
                return self.fail(k, ClientConnectError::Ipc(error));
            },
        };
        if let Some(capability) = received.message.capability {
            let _ = ipc::close(k, capability.handle)?;
            return self.fail(k, ClientConnectError::UnexpectedCapability);
        }
        if received.message.sender_process_id == 0 {
            return self.fail(k, ClientConnectError::InvalidServiceProcessId);
        }
        match ControlRecord::decode(received.payload.as_slice()) {
            Err(error) => self.fail(k, ClientConnectError::MalformedControl(error)),
            Ok(ControlRecord::ConnectResponse { status, service_generation }) => {
                if status != ConnectStatus::Accepted {
                    return self.fail(k, ClientConnectError::Rejected(status));
                }
                let transport = ClientTransport {
                    ingress_handle: self.ingress_handle,
                    receive_handle: self.receive_handle,
                    service_process_id: received.message.sender_process_id,
                    service_generation,
                    disconnect_pending: true,
                    closed: false,
                };
                self.ingress_handle = INVALID_HANDLE;
                self.receive_handle = INVALID_HANDLE;
                self.closed = true;
                Some(Ok(Some(transport)))
            },
            Ok(_) => self.fail(k, ClientConnectError::UnexpectedControlRecord),
        }
    }

    /// Opens the session, yielding while either endpoint is not ready.
    pub fn connect(self, k: &mut Kernel) -> (result: Option<
        Result<ClientTransport, ClientConnectError>,
    >)
        ensures
            ({
                let (connected, outcome) = self@.connect_run(old(k)@);
                &&& final(k)@ == connected
                &&& match (result, outcome) {
                    (None, None) => true,
                    (Some(Ok(transport)), Some(Ok(link))) => transport@ == link,
                    (Some(Err(error)), Some(Err(expected))) => error == expected,
                    _ => false,
                }
            }),
    {
        let mut bootstrap = self;
        loop
            invariant
                self@.connect_run(old(k)@) == bootstrap@.connect_run(k@),
            decreases k@.unread(),
        {
            match bootstrap.try_connect(k)? {
                Err(error) => {
                    bootstrap.close(k)?;
                    return Some(Err(error));
                },
                Ok(Some(transport)) => {
                    return Some(Ok(transport));
                },
                Ok(None) => {
                    if yield_now(k)?.is_err() {
                        bootstrap.close(k)?;
                        return Some(Err(ClientConnectError::YieldFailed));
                    }
                },
            }
        }
    }
}

/// An open session on the client's side. Whoever drops it has to call [`Self::disconnect`].
///
/// A clone owns nothing: it is there to run a procedure again from the same state.
#[derive(Clone, Debug)]
pub struct ClientTransport {
    ingress_handle: CapabilityHandle,
    receive_handle: CapabilityHandle,
    service_process_id: u64,
    service_generation: u64,
    disconnect_pending: bool,
    closed: bool,
}

/// An open session on the client's side as the contracts see it.
pub ghost struct Link {
    pub ingress: CapabilityHandle,
    pub receive: CapabilityHandle,
    pub service: u64,
    pub generation: u64,
    pub disconnect_pending: bool,
    pub closed: bool,
}

impl View for ClientTransport {
    type V = Link;

    closed spec fn view(&self) -> Link {
        Link {
            ingress: self.ingress_handle,
            receive: self.receive_handle,
            service: self.service_process_id,
            generation: self.service_generation,
            disconnect_pending: self.disconnect_pending,
            closed: self.closed,
        }
    }
}

/// The record that ends a session, if it is still to be sent.
pub open spec fn disconnect_record(pending: bool, generation: u64) -> Option<Seq<u8>> {
    if pending && generation != 0 {
        Some(record_bytes(CONTROL_KIND_DISCONNECT, 0, generation))
    } else {
        None
    }
}

/// Takes the record that ends a session. It is handed out at most once.
pub fn take_disconnect_record(pending: &mut bool, service_generation: u64) -> (record: Option<
    [u8; CONTROL_RECORD_BYTES],
>)
    ensures
        !*final(pending),
        match record {
            Some(record) => disconnect_record(*old(pending), service_generation) == Some(record@),
            None => disconnect_record(*old(pending), service_generation) is None,
        },
{
    if !*pending {
        return None;
    }
    *pending = false;
    match (ControlRecord::Disconnect { service_generation }).encode() {
        Ok(record) => Some(record),
        Err(_) => None,
    }
}

impl Link {
    /// The session once it has ended.
    pub open spec fn shut(self) -> Link {
        if self.closed {
            self
        } else {
            Link {
                ingress: INVALID_HANDLE,
                receive: INVALID_HANDLE,
                disconnect_pending: false,
                closed: true,
                ..self
            }
        }
    }

    /// Ending the session: telling the service, then closing both handles.
    pub open spec fn close_run(self, k: kernel::Transcript) -> (kernel::Transcript, Option<()>) {
        if self.closed {
            (k, Some(()))
        } else {
            match disconnect_record(self.disconnect_pending, self.generation) {
                None => close_each_run(k, seq![self.receive, self.ingress]),
                Some(record) => {
                    let (sent, result) = ipc::send_run(k, self.ingress, record, None);
                    match result {
                        None => (sent, None),
                        Some(_) => close_each_run(sent, seq![self.receive, self.ingress]),
                    }
                },
            }
        }
    }

    /// Sending a packet. Anything but a full queue ends the session.
    pub open spec fn send_run(self, k: kernel::Transcript, packet: Seq<u8>) -> (
        kernel::Transcript,
        Link,
        Option<Result<(), TrySendError>>,
    ) {
        if self.closed || packet.len() > MAX_PACKET_BYTES {
            let (closed, result) = procedure::fail_after(self.close_run(k), TrySendError::PeerClosed);
            (closed, self.shut(), result)
        } else {
            let (sent, result) = ipc::send_run(k, self.ingress, packet, None);
            match result {
                None => (sent, self, None),
                Some(Ok(_)) => (sent, self, Some(Ok(()))),
                Some(Err(error)) => if error == ipc::Error::try_again() {
                    (sent, self, Some(Err(TrySendError::Full)))
                } else {
                    let (closed, failure) = procedure::fail_after(
                        self.close_run(sent),
                        TrySendError::PeerClosed,
                    );
                    (closed, self.shut(), failure)
                },
            }
        }
    }

    /// Receiving a packet from the service, and from nobody else.
    pub open spec fn receive_run(self, k: kernel::Transcript, capacity: usize) -> (
        kernel::Transcript,
        Link,
        Option<Result<Seq<u8>, TryRecvError>>,
    ) {
        if self.closed || capacity > MAX_IPC_MESSAGE_BYTES {
            let (closed, result) = procedure::fail_after(self.close_run(k), TryRecvError::PeerClosed);
            (closed, self.shut(), result)
        } else {
            let (asked, message) = ipc::try_receive_run(k, self.receive, capacity);
            match message {
                None => (asked, self, None),
                Some(Err(error)) => if error == ipc::Error::try_again() {
                    (asked, self, Some(Err(TryRecvError::Empty)))
                } else if error == ipc::Error::range() {
                    (
                        asked,
                        self,
                        Some(
                            Err(TryRecvError::MessageTooLarge { bytes: (capacity + 1) as usize }),
                        ),
                    )
                } else {
                    let (closed, failure) = procedure::fail_after(
                        self.close_run(asked),
                        TryRecvError::PeerClosed,
                    );
                    (closed, self.shut(), failure)
                },
                Some(Ok(delivery)) => match delivery.message.capability {
                    Some(capability) => {
                        let (dropped, done) = handle::discard_run(asked, Some(capability.handle));
                        match done {
                            None => (dropped, self, None),
                            Some(_) => {
                                let (closed, failure) = procedure::fail_after(
                                    self.close_run(dropped),
                                    TryRecvError::PeerClosed,
                                );
                                (closed, self.shut(), failure)
                            },
                        }
                    },
                    None => if sender_is_pinned(
                        self.service,
                        delivery.message.sender_process_id,
                    ) {
                        (asked, self, Some(Ok(delivery.payload)))
                    } else {
                        let (closed, failure) = procedure::fail_after(
                            self.close_run(asked),
                            TryRecvError::PeerClosed,
                        );
                        (closed, self.shut(), failure)
                    },
                },
            }
        }
    }
}

/// What a received packet is to the contracts.
pub open spec fn packet_view(result: Option<Result<Vec<u8>, TryRecvError>>) -> Option<
    Result<Seq<u8>, TryRecvError>,
> {
    match result {
        None => None,
        Some(Ok(packet)) => Some(Ok(packet@)),
        Some(Err(error)) => Some(Err(error)),
    }
}

impl ClientTransport {
    pub fn service_process_id(&self) -> (process_id: u64)
        ensures
            process_id == self@.service,
    {
        self.service_process_id
    }

    pub fn service_generation(&self) -> (generation: u64)
        ensures
            generation == self@.generation,
    {
        self.service_generation
    }

    /// Ends the session, once: tells the service and closes both handles.
    pub fn disconnect(&mut self, k: &mut Kernel) -> (result: Option<()>)
        ensures
            (final(k)@, result) == old(self)@.close_run(old(k)@),
            result is Some ==> final(self)@ == old(self)@.shut(),
    {
        if self.closed {
            return Some(());
        }
        let mut pending = self.disconnect_pending;
        let record = take_disconnect_record(&mut pending, self.service_generation);
        self.disconnect_pending = pending;
        if let Some(record) = record {
            let _ = ipc::send(k, self.ingress_handle, &record, None)?;
        }
        self.closed = true;
        let handles: [CapabilityHandle; 2] = [self.receive_handle, self.ingress_handle];
        assert(handles@ =~= seq![old(self)@.receive, old(self)@.ingress]);
        self.receive_handle = INVALID_HANDLE;
        self.ingress_handle = INVALID_HANDLE;
        close_each(k, &handles)
    }

    /// Sends a packet without blocking.
    pub fn try_send(&mut self, k: &mut Kernel, packet: &[u8]) -> (result: Option<
        Result<(), TrySendError>,
    >)
        ensures
            ({
                let (sent, next, outcome) = old(self)@.send_run(old(k)@, packet@);
                &&& final(k)@ == sent
                &&& result == outcome
                &&& result is Some ==> final(self)@ == next
            }),
    {
        if self.closed || packet.len() > MAX_PACKET_BYTES {
            self.disconnect(k)?;
            return Some(Err(TrySendError::PeerClosed));
        }
        match ipc::send(k, self.ingress_handle, packet, None)? {
            Ok(()) => Some(Ok(())),
            Err(error) => {
                if error == ipc::Error::try_again() {
                    return Some(Err(TrySendError::Full));
                }
                self.disconnect(k)?;
                Some(Err(TrySendError::PeerClosed))
            },
        }
    }

    /// Receives a packet of at most `capacity` bytes without blocking.
    pub fn try_recv(&mut self, k: &mut Kernel, capacity: usize) -> (result: Option<
        Result<Vec<u8>, TryRecvError>,
    >)
        ensures
            ({
                let (asked, next, outcome) = old(self)@.receive_run(old(k)@, capacity);
                &&& final(k)@ == asked
                &&& packet_view(result) == outcome
                &&& result is Some ==> final(self)@ == next
            }),
    {
        if self.closed || capacity > MAX_IPC_MESSAGE_BYTES {
            self.disconnect(k)?;
            return Some(Err(TryRecvError::PeerClosed));
        }
        let received = match ipc::try_receive(k, self.receive_handle, capacity)? {
            Ok(received) => received,
            Err(error) => {
                if error == ipc::Error::try_again() {
                    return Some(Err(TryRecvError::Empty));
                }
                if error == ipc::Error::range() {
                    return Some(Err(TryRecvError::MessageTooLarge { bytes: capacity + 1 }));
                }
                self.disconnect(k)?;
                return Some(Err(TryRecvError::PeerClosed));
            },
        };
        if let Some(capability) = received.message.capability {
            let _ = ipc::close(k, capability.handle)?;
            self.disconnect(k)?;
            return Some(Err(TryRecvError::PeerClosed));
        }
        if !sender_is_pinned(self.service_process_id, received.message.sender_process_id) {
            self.disconnect(k)?;
            return Some(Err(TryRecvError::PeerClosed));
        }
        Some(Ok(received.payload))
    }
}

#[derive(Clone, Copy, Debug, PartialEq, Eq, Structural)]
pub enum ServerIngressError {
    Ipc(ipc::Error),
    InvalidIngress,
    InvalidOwnerProcessId,
    MalformedControl(ControlDecodeError),
    UnexpectedControlRecord,
    MissingReplyCapability,
    UnexpectedCapability,
    InvalidReplyCapability,
}

/// The receiving side of a role's shared ingress. Whoever drops it has to call [`Self::close`].
///
/// A clone owns nothing: it is there to run a procedure again from the same state.
#[derive(Clone, Debug)]
pub struct ServerIngress {
    role: SessionRole,
    receive_handle: CapabilityHandle,
    object_id: u64,
    closed: bool,
}

/// The receiving side of a role's shared ingress as the contracts see it.
pub ghost struct Ingress {
    pub role: SessionRole,
    pub receive: CapabilityHandle,
    pub object_id: u64,
    pub closed: bool,
}

impl View for ServerIngress {
    type V = Ingress;

    closed spec fn view(&self) -> Ingress {
        Ingress {
            role: self.role,
            receive: self.receive_handle,
            object_id: self.object_id,
            closed: self.closed,
        }
    }
}

/// What arrived at a shared ingress.
pub enum ServerIngressEvent {
    Connect(PendingConnect),
    Disconnect(DisconnectRequest),
    Packet(InboundPacket),
}

/// What arrived at a shared ingress as the contracts see it.
pub ghost enum Arrival {
    Connect { role: SessionRole, owner: u64, reply: CapabilityHandle },
    Disconnect { role: SessionRole, owner: u64, generation: u64 },
    Packet { role: SessionRole, owner: u64, packet: Seq<u8> },
}

impl View for ServerIngressEvent {
    type V = Arrival;

    open spec fn view(&self) -> Arrival {
        match self {
            ServerIngressEvent::Connect(connect) => Arrival::Connect {
                role: connect@.role,
                owner: connect@.owner,
                reply: connect@.reply,
            },
            ServerIngressEvent::Disconnect(request) => request@,
            ServerIngressEvent::Packet(packet) => packet@,
        }
    }
}

/// Closing a handle that came with a refused message, if there is one.
pub open spec fn refuse_run<T>(
    k: kernel::Transcript,
    capability: Option<ReceivedCapability>,
    error: ServerIngressError,
) -> (kernel::Transcript, Option<Result<T, ServerIngressError>>) {
    match capability {
        None => (k, Some(Err(error))),
        Some(capability) => procedure::fail_after(
            handle::discard_run(k, Some(capability.handle)),
            error,
        ),
    }
}

impl Ingress {
    pub open spec fn shut(self) -> Ingress {
        if self.closed {
            self
        } else {
            Ingress { receive: INVALID_HANDLE, closed: true, ..self }
        }
    }

    pub open spec fn close_run(self, k: kernel::Transcript) -> (kernel::Transcript, Option<()>) {
        if self.closed {
            (k, Some(()))
        } else {
            close_valid_run(k, self.receive)
        }
    }

    /// Taking a request to connect: its reply endpoint must be another endpoint than the
    /// ingress, with the right to send and no other.
    pub open spec fn connect_run(
        self,
        k: kernel::Transcript,
        owner: u64,
        capability: Option<ReceivedCapability>,
    ) -> (kernel::Transcript, Option<Result<Option<Arrival>, ServerIngressError>>) {
        match capability {
            None => (k, Some(Err(ServerIngressError::MissingReplyCapability))),
            Some(given) => if given.rights != Rights::send() {
                refuse_run(k, capability, ServerIngressError::InvalidReplyCapability)
            } else {
                let (asked, info) = ipc::info_run(k, given.handle);
                match info {
                    None => (asked, None),
                    Some(Err(_)) => refuse_run(
                        asked,
                        capability,
                        ServerIngressError::InvalidReplyCapability,
                    ),
                    Some(Ok(info)) => if exact_endpoint(info, Rights::send()) && info.object_id
                        != self.object_id {
                        (
                            asked,
                            Some(
                                Ok(
                                    Some(
                                        Arrival::Connect {
                                            role: self.role,
                                            owner,
                                            reply: given.handle,
                                        },
                                    ),
                                ),
                            ),
                        )
                    } else {
                        refuse_run(
                            asked,
                            capability,
                            ServerIngressError::InvalidReplyCapability,
                        )
                    },
                }
            },
        }
    }

    /// Taking a record.
    pub open spec fn control_run(
        self,
        k: kernel::Transcript,
        owner: u64,
        capability: Option<ReceivedCapability>,
        control: ControlRecord,
    ) -> (kernel::Transcript, Option<Result<Option<Arrival>, ServerIngressError>>) {
        match control {
            ControlRecord::Connect => self.connect_run(k, owner, capability),
            ControlRecord::Disconnect { service_generation } => if capability is Some {
                refuse_run(k, capability, ServerIngressError::UnexpectedCapability)
            } else {
                (
                    k,
                    Some(
                        Ok(
                            Some(
                                Arrival::Disconnect {
                                    role: self.role,
                                    owner,
                                    generation: service_generation,
                                },
                            ),
                        ),
                    ),
                )
            },
            ControlRecord::ConnectResponse { .. } => refuse_run(
                k,
                capability,
                ServerIngressError::UnexpectedControlRecord,
            ),
        }
    }

    /// Taking one message, if there is one.
    pub open spec fn receive_run(self, k: kernel::Transcript) -> (
        kernel::Transcript,
        Option<Result<Option<Arrival>, ServerIngressError>>,
    ) {
        if self.closed {
            (k, Some(Err(ServerIngressError::Ipc(ipc::Error::bad_file_descriptor()))))
        } else {
            let (asked, message) = ipc::try_receive_run(k, self.receive, MAX_PACKET_BYTES);
            match message {
                None => (asked, None),
                Some(Err(error)) => if error == ipc::Error::try_again() {
                    (asked, Some(Ok(None)))
                } else {
                    (asked, Some(Err(ServerIngressError::Ipc(error))))
                },
                Some(Ok(delivery)) => {
                    let owner = delivery.message.sender_process_id;
                    let capability = delivery.message.capability;
                    if owner == 0 {
                        refuse_run(asked, capability, ServerIngressError::InvalidOwnerProcessId)
                    } else if CONTROL_MAGIC@.is_prefix_of(delivery.payload) {
                        match ControlRecord::parsed(delivery.payload) {
                            Err(error) => refuse_run(
                                asked,
                                capability,
                                ServerIngressError::MalformedControl(error),
                            ),
                            Ok(control) => self.control_run(asked, owner, capability, control),
                        }
                    } else if capability is Some {
                        refuse_run(asked, capability, ServerIngressError::UnexpectedCapability)
                    } else {
                        (
                            asked,
                            Some(
                                Ok(
                                    Some(
                                        Arrival::Packet {
                                            role: self.role,
                                            owner,
                                            packet: delivery.payload,
                                        },
                                    ),
                                ),
                            ),
                        )
                    }
                },
            }
        }
    }
}

/// Taking over an endpoint as an ingress.
pub open spec fn ingress_run(
    k: kernel::Transcript,
    role: SessionRole,
    receive: CapabilityHandle,
) -> (kernel::Transcript, Option<Result<Ingress, ServerIngressError>>) {
    let (asked, info) = ipc::info_run(k, receive);
    (
        asked,
        match info {
            None => None,
            Some(Err(error)) => Some(Err(ServerIngressError::Ipc(error))),
            Some(Ok(info)) => if exact_endpoint(info, Rights::receive()) {
                Some(Ok(Ingress { role, receive, object_id: info.object_id, closed: false }))
            } else {
                Some(Err(ServerIngressError::InvalidIngress))
            },
        },
    )
}

/// What an ingress is to the contracts.
pub open spec fn ingress_view(result: Option<Result<ServerIngress, ServerIngressError>>) -> Option<
    Result<Ingress, ServerIngressError>,
> {
    match result {
        None => None,
        Some(Ok(ingress)) => Some(Ok(ingress@)),
        Some(Err(error)) => Some(Err(error)),
    }
}

/// What arrived, to the contracts.
pub open spec fn arrival_view(
    result: Option<Result<Option<ServerIngressEvent>, ServerIngressError>>,
) -> Option<Result<Option<Arrival>, ServerIngressError>> {
    match result {
        None => None,
        Some(Ok(None)) => Some(Ok(None)),
        Some(Ok(Some(event))) => Some(Ok(Some(event@))),
        Some(Err(error)) => Some(Err(error)),
    }
}

fn refuse(k: &mut Kernel, capability: Option<ReceivedCapability>, error: ServerIngressError) -> (result:
    Option<Result<Option<ServerIngressEvent>, ServerIngressError>>)
    ensures
        (final(k)@, arrival_view(result)) == refuse_run::<Option<Arrival>>(
            old(k)@,
            capability,
            error,
        ),
{
    if let Some(capability) = capability {
        let _ = ipc::close(k, capability.handle)?;
    }
    Some(Err(error))
}

impl ServerIngress {
    /// Takes over `receive_handle` only when it succeeds.
    pub fn new(k: &mut Kernel, role: SessionRole, receive_handle: CapabilityHandle) -> (result:
        Option<Result<Self, ServerIngressError>>)
        ensures
            (final(k)@, ingress_view(result)) == ingress_run(old(k)@, role, receive_handle),
    {
        match ipc::info(k, receive_handle)? {
            Err(error) => Some(Err(ServerIngressError::Ipc(error))),
            Ok(info) => {
                if !exact_endpoint(info, Rights::receive()) {
                    return Some(Err(ServerIngressError::InvalidIngress));
                }
                Some(
                    Ok(Self { role, receive_handle, object_id: info.object_id, closed: false }),
                )
            },
        }
    }

    pub fn role(&self) -> (role: SessionRole)
        ensures
            role == self@.role,
    {
        self.role
    }

    /// Receives one record or packet without blocking.
    pub fn try_receive(&mut self, k: &mut Kernel) -> (result: Option<
        Result<Option<ServerIngressEvent>, ServerIngressError>,
    >)
        ensures
            (final(k)@, arrival_view(result)) == old(self)@.receive_run(old(k)@),
            final(self)@ == old(self)@,
    {
        if self.closed {
            return Some(Err(ServerIngressError::Ipc(ipc::Error::bad_file_descriptor())));
        }
        let received = match ipc::try_receive(k, self.receive_handle, MAX_PACKET_BYTES)? {
            Ok(received) => received,
            Err(error) => {
                if error == ipc::Error::try_again() {
                    return Some(Ok(None));
                }
                return Some(Err(ServerIngressError::Ipc(error)));
            },
        };
        let owner: u64 = received.message.sender_process_id;
        let capability = received.message.capability;
        if owner == 0 {
            return refuse(k, capability, ServerIngressError::InvalidOwnerProcessId);
        }
        if starts_with(received.payload.as_slice(), &CONTROL_MAGIC) {
            return match ControlRecord::decode(received.payload.as_slice()) {
                Err(error) => refuse(k, capability, ServerIngressError::MalformedControl(error)),
                Ok(control) => self.control_event(k, owner, capability, control),
            };
        }
        if capability.is_some() {
            return refuse(k, capability, ServerIngressError::UnexpectedCapability);
        }
        match PacketBuf::from_slice(received.payload.as_slice()) {
            Some(packet) => Some(
                Ok(
                    Some(
                        ServerIngressEvent::Packet(
                            InboundPacket { role: self.role, owner_process_id: owner, packet },
                        ),
                    ),
                ),
            ),
            None => None,
        }
    }

    fn control_event(
        &self,
        k: &mut Kernel,
        owner_process_id: u64,
        capability: Option<ReceivedCapability>,
        control: ControlRecord,
    ) -> (result: Option<Result<Option<ServerIngressEvent>, ServerIngressError>>)
        ensures
            (final(k)@, arrival_view(result)) == self@.control_run(
                old(k)@,
                owner_process_id,
                capability,
                control,
            ),
    {
        match control {
            ControlRecord::Connect => {
                let given = match capability {
                    Some(given) => given,
                    None => {
                        return Some(Err(ServerIngressError::MissingReplyCapability));
                    },
                };
                if given.rights != Rights::send() {
                    return refuse(k, capability, ServerIngressError::InvalidReplyCapability);
                }
                let valid = match ipc::info(k, given.handle)? {
                    Ok(info) => exact_endpoint(info, Rights::send()) && info.object_id
                        != self.object_id,
                    Err(_) => false,
                };
                if !valid {
                    return refuse(k, capability, ServerIngressError::InvalidReplyCapability);
                }
                Some(
                    Ok(
                        Some(
                            ServerIngressEvent::Connect(
                                PendingConnect {
                                    role: self.role,
                                    owner_process_id,
                                    reply_handle: given.handle,
                                },
                            ),
                        ),
                    ),
                )
            },
            ControlRecord::Disconnect { service_generation } => {
                if capability.is_some() {
                    return refuse(k, capability, ServerIngressError::UnexpectedCapability);
                }
                Some(
                    Ok(
                        Some(
                            ServerIngressEvent::Disconnect(
                                DisconnectRequest {
                                    role: self.role,
                                    owner_process_id,
                                    service_generation,
                                },
                            ),
                        ),
                    ),
                )
            },
            ControlRecord::ConnectResponse { .. } => refuse(
                k,
                capability,
                ServerIngressError::UnexpectedControlRecord,
            ),
        }
    }

    /// Closes the endpoint, once.
    pub fn close(&mut self, k: &mut Kernel) -> (result: Option<()>)
        ensures
            (final(k)@, result) == old(self)@.close_run(old(k)@),
            final(self)@ == old(self)@.shut(),
    {
        if self.closed {
            return Some(());
        }
        self.closed = true;
        let handle: CapabilityHandle = self.receive_handle;
        self.receive_handle = INVALID_HANDLE;
        close_valid(k, handle)
    }
}

#[derive(Clone, Copy, Debug, PartialEq, Eq, Structural)]
pub enum AcceptError {
    InvalidServiceGeneration,
    InvalidStatus,
    WouldBlock,
    Ipc(ipc::Error),
    Completed,
}

/// A request to connect that waits for an answer. Whoever drops it has to call [`Self::close`].
///
/// A clone owns nothing: it is there to run a procedure again from the same state.
#[derive(Clone, Debug)]
pub struct PendingConnect {
    role: SessionRole,
    owner_process_id: u64,
    reply_handle: CapabilityHandle,
}

/// A request to connect as the contracts see it.
pub ghost struct Connect {
    pub role: SessionRole,
    pub owner: u64,
    pub reply: CapabilityHandle,
}

impl View for PendingConnect {
    type V = Connect;

    closed spec fn view(&self) -> Connect {
        Connect { role: self.role, owner: self.owner_process_id, reply: self.reply_handle }
    }
}

/// Sending a record: a full queue can be tried again.
pub open spec fn send_control_run(
    k: kernel::Transcript,
    endpoint: CapabilityHandle,
    record: Seq<u8>,
) -> (kernel::Transcript, Option<Result<(), AcceptError>>) {
    let (sent, result) = ipc::send_run(k, endpoint, record, None);
    (
        sent,
        match result {
            None => None,
            Some(Ok(_)) => Some(Ok(())),
            Some(Err(error)) => if error == ipc::Error::try_again() {
                Some(Err(AcceptError::WouldBlock))
            } else {
                Some(Err(AcceptError::Ipc(error)))
            },
        },
    )
}

fn send_control(k: &mut Kernel, endpoint: CapabilityHandle, record: &[u8; CONTROL_RECORD_BYTES]) -> (result:
    Option<Result<(), AcceptError>>)
    ensures
        (final(k)@, result) == send_control_run(old(k)@, endpoint, record@),
{
    match ipc::send(k, endpoint, record, None)? {
        Ok(()) => Some(Ok(())),
        Err(error) => {
            if error == ipc::Error::try_again() {
                Some(Err(AcceptError::WouldBlock))
            } else {
                Some(Err(AcceptError::Ipc(error)))
            }
        },
    }
}

impl Connect {
    /// The request once it has been answered.
    pub open spec fn answered(self) -> Connect {
        Connect { reply: INVALID_HANDLE, ..self }
    }

    /// Accepting the request.
    pub open spec fn accept_run(self, k: kernel::Transcript, generation: u64) -> (
        kernel::Transcript,
        Connect,
        Option<Result<Session, AcceptError>>,
    ) {
        if generation == 0 {
            (k, self, Some(Err(AcceptError::InvalidServiceGeneration)))
        } else if self.reply == INVALID_HANDLE {
            (k, self, Some(Err(AcceptError::Completed)))
        } else {
            let (sent, result) = send_control_run(
                k,
                self.reply,
                record_bytes(CONTROL_KIND_CONNECT_RESPONSE, 0, generation),
            );
            match result {
                None => (sent, self, None),
                Some(Err(error)) => (sent, self, Some(Err(error))),
                Some(Ok(_)) => (
                    sent,
                    self.answered(),
                    Some(
                        Ok(
                            Session {
                                role: self.role,
                                owner: self.owner,
                                generation,
                                reply: self.reply,
                                pending: None,
                                closed: false,
                            },
                        ),
                    ),
                ),
            }
        }
    }

    /// Rejecting the request.
    pub open spec fn reject_run(self, k: kernel::Transcript, status: ConnectStatus) -> (
        kernel::Transcript,
        Connect,
        Option<Result<(), AcceptError>>,
    ) {
        if status == ConnectStatus::Accepted {
            (k, self, Some(Err(AcceptError::InvalidStatus)))
        } else if self.reply == INVALID_HANDLE {
            (k, self, Some(Err(AcceptError::Completed)))
        } else {
            let (sent, result) = send_control_run(
                k,
                self.reply,
                record_bytes(CONTROL_KIND_CONNECT_RESPONSE, status.raw(), 0),
            );
            match result {
                None => (sent, self, None),
                Some(Err(error)) => (sent, self, Some(Err(error))),
                Some(Ok(_)) => {
                    let (closed, done) = close_valid_run(sent, self.reply);
                    (
                        closed,
                        self.answered(),
                        match done {
                            None => None,
                            Some(_) => Some(Ok(())),
                        },
                    )
                },
            }
        }
    }
}

/// What an accepted session is to the contracts.
pub open spec fn session_view(result: Option<Result<ServerTransport, AcceptError>>) -> Option<
    Result<Session, AcceptError>,
> {
    match result {
        None => None,
        Some(Ok(transport)) => Some(Ok(transport@)),
        Some(Err(error)) => Some(Err(error)),
    }
}

impl PendingConnect {
    pub fn role(&self) -> (role: SessionRole)
        ensures
            role == self@.role,
    {
        self.role
    }

    pub fn owner_process_id(&self) -> (process_id: u64)
        ensures
            process_id == self@.owner,
    {
        self.owner_process_id
    }

    /// Accepts the request. A full queue leaves it for another try.
    pub fn try_accept(&mut self, k: &mut Kernel, service_generation: u64) -> (result: Option<
        Result<ServerTransport, AcceptError>,
    >)
        ensures
            ({
                let (sent, next, outcome) = old(self)@.accept_run(old(k)@, service_generation);
                &&& final(k)@ == sent
                &&& session_view(result) == outcome
                &&& result is Some ==> final(self)@ == next
            }),
    {
        if service_generation == 0 {
            return Some(Err(AcceptError::InvalidServiceGeneration));
        }
        if self.reply_handle == INVALID_HANDLE {
            return Some(Err(AcceptError::Completed));
        }
        let response = match (ControlRecord::ConnectResponse {
            status: ConnectStatus::Accepted,
            service_generation,
        }).encode() {
            Ok(response) => response,
            Err(_) => {
                return None;
            },
        };
        if let Err(error) = send_control(k, self.reply_handle, &response)? {
            return Some(Err(error));
        }
        let reply_handle: CapabilityHandle = self.reply_handle;
        self.reply_handle = INVALID_HANDLE;
        Some(
            Ok(
                ServerTransport {
                    role: self.role,
                    owner_process_id: self.owner_process_id,
                    service_generation,
                    reply_handle,
                    pending: PendingInbound::new(),
                    closed: false,
                },
            ),
        )
    }

    /// Rejects the request and closes its reply endpoint. A full queue leaves it for another try.
    pub fn try_reject(&mut self, k: &mut Kernel, status: ConnectStatus) -> (result: Option<
        Result<(), AcceptError>,
    >)
        ensures
            ({
                let (sent, next, outcome) = old(self)@.reject_run(old(k)@, status);
                &&& final(k)@ == sent
                &&& result == outcome
                &&& result is Some ==> final(self)@ == next
            }),
    {
        if status == ConnectStatus::Accepted {
            return Some(Err(AcceptError::InvalidStatus));
        }
        if self.reply_handle == INVALID_HANDLE {
            return Some(Err(AcceptError::Completed));
        }
        let response = match (ControlRecord::ConnectResponse {
            status,
            service_generation: 0,
        }).encode() {
            Ok(response) => response,
            Err(_) => {
                return None;
            },
        };
        if let Err(error) = send_control(k, self.reply_handle, &response)? {
            return Some(Err(error));
        }
        let reply_handle: CapabilityHandle = self.reply_handle;
        self.reply_handle = INVALID_HANDLE;
        close_valid(k, reply_handle)?;
        Some(Ok(()))
    }

    /// Closes the reply endpoint, if the request has not been answered.
    pub fn close(&mut self, k: &mut Kernel) -> (result: Option<()>)
        ensures
            (final(k)@, result) == close_valid_run(old(k)@, old(self)@.reply),
            final(self)@ == old(self)@.answered(),
    {
        let reply_handle: CapabilityHandle = self.reply_handle;
        self.reply_handle = INVALID_HANDLE;
        close_valid(k, reply_handle)
    }
}

/// A client's wish to end its session.
#[derive(Clone, Copy, Debug, PartialEq, Eq, Structural)]
pub struct DisconnectRequest {
    pub role: SessionRole,
    pub owner_process_id: u64,
    pub service_generation: u64,
}

impl View for DisconnectRequest {
    type V = Arrival;

    open spec fn view(&self) -> Arrival {
        Arrival::Disconnect {
            role: self.role,
            owner: self.owner_process_id,
            generation: self.service_generation,
        }
    }
}

impl DisconnectRequest {
    pub fn role(self) -> (role: SessionRole)
        ensures
            role == self.role,
    {
        self.role
    }

    pub fn owner_process_id(self) -> (process_id: u64)
        ensures
            process_id == self.owner_process_id,
    {
        self.owner_process_id
    }

    pub fn service_generation(self) -> (generation: u64)
        ensures
            generation == self.service_generation,
    {
        self.service_generation
    }
}

/// A packet that a client has sent.
#[derive(Clone, Copy, Debug, PartialEq, Eq)]
pub struct InboundPacket {
    role: SessionRole,
    owner_process_id: u64,
    packet: PacketBuf,
}

impl View for InboundPacket {
    type V = Arrival;

    closed spec fn view(&self) -> Arrival {
        Arrival::Packet {
            role: self.role,
            owner: self.owner_process_id,
            packet: self.packet@,
        }
    }
}

impl InboundPacket {
    pub fn role(&self) -> (role: SessionRole)
        ensures
            self@ matches Arrival::Packet { role: expected, .. } && role == expected,
    {
        self.role
    }

    pub fn owner_process_id(&self) -> (process_id: u64)
        ensures
            self@ matches Arrival::Packet { owner, .. } && process_id == owner,
    {
        self.owner_process_id
    }

    pub fn bytes(&self) -> (bytes: &[u8])
        ensures
            self@ matches Arrival::Packet { packet, .. } && bytes@ == packet,
    {
        self.packet.as_slice()
    }
}

#[derive(Clone, Copy, Debug, PartialEq, Eq, Structural)]
pub enum QueuePacketError {
    Closed,
    WrongRole,
    WrongOwner,
    Full,
}

#[derive(Clone, Copy, Debug, PartialEq, Eq, Structural)]
pub enum DisconnectError {
    Closed,
    WrongRole,
    WrongOwner,
    WrongServiceGeneration,
}

/// Whether a request ends a session: the session is open, and role, owner and generation agree.
#[verifier::allow_in_spec]
pub fn validate_disconnect(
    closed: bool,
    role: SessionRole,
    owner_process_id: u64,
    service_generation: u64,
    request: DisconnectRequest,
) -> Result<(), DisconnectError>
    returns
        (if closed {
            Err(DisconnectError::Closed)
        } else if request.role != role {
            Err(DisconnectError::WrongRole)
        } else if !sender_is_pinned(owner_process_id, request.owner_process_id) {
            Err(DisconnectError::WrongOwner)
        } else if request.service_generation != service_generation {
            Err(DisconnectError::WrongServiceGeneration)
        } else {
            Ok(())
        }),
{
    if closed {
        return Err(DisconnectError::Closed);
    }
    if request.role != role {
        return Err(DisconnectError::WrongRole);
    }
    if !sender_is_pinned(owner_process_id, request.owner_process_id) {
        return Err(DisconnectError::WrongOwner);
    }
    if request.service_generation != service_generation {
        return Err(DisconnectError::WrongServiceGeneration);
    }
    Ok(())
}

/// Room for one packet that has arrived.
#[derive(Clone, Copy, Debug, PartialEq, Eq)]
pub struct PendingInbound {
    packet: Option<PacketBuf>,
}

impl View for PendingInbound {
    type V = Option<Seq<u8>>;

    closed spec fn view(&self) -> Option<Seq<u8>> {
        match self.packet {
            Some(packet) => Some(packet@),
            None => None,
        }
    }
}

impl PendingInbound {
    pub fn new() -> (pending: Self)
        ensures
            pending@ is None,
    {
        Self { packet: None }
    }

    pub fn has_packet(&self) -> (pending: bool)
        ensures
            pending == (self@ is Some),
    {
        self.packet.is_some()
    }

    /// Keeps a packet, if there is room.
    pub fn push(&mut self, packet: PacketBuf) -> (result: Result<(), QueuePacketError>)
        ensures
            match old(self)@ {
                Some(_) => result == Err::<(), _>(QueuePacketError::Full) && final(self)@ == old(
                    self,
                )@,
                None => result == Ok::<(), QueuePacketError>(()) && final(self)@ == Some(packet@),
            },
    {
        if self.packet.is_some() {
            return Err(QueuePacketError::Full);
        }
        self.packet = Some(packet);
        Ok(())
    }

    /// Hands the packet out. One that does not fit stays.
    pub fn receive(&mut self, output: &mut [u8]) -> (result: Result<usize, TryRecvError>)
        ensures
            match old(self)@ {
                None => {
                    &&& result == Err::<usize, _>(TryRecvError::Empty)
                    &&& final(self)@ == old(self)@
                    &&& final(output)@ == old(output)@
                },
                Some(packet) => if old(output)@.len() < packet.len() {
                    &&& result == Err::<usize, _>(
                        TryRecvError::MessageTooLarge { bytes: packet.len() as usize },
                    )
                    &&& final(self)@ == old(self)@
                    &&& final(output)@ == old(output)@
                } else {
                    &&& result matches Ok(length) && length == packet.len()
                    &&& final(self)@ is None
                    &&& final(output)@ == bytes::overlay(old(output)@, 0, packet)
                },
            },
    {
        match self.packet {
            None => Err(TryRecvError::Empty),
            Some(packet) => {
                let length: usize = packet.len();
                if output.len() < length {
                    return Err(TryRecvError::MessageTooLarge { bytes: length });
                }
                copy_into(output, 0, packet.as_slice());
                self.packet = None;
                Ok(length)
            },
        }
    }

    pub fn clear(&mut self)
        ensures
            final(self)@ is None,
    {
        self.packet = None;
    }
}

/// An open session on the service's side. Whoever drops it has to call [`Self::close`].
///
/// A clone owns nothing: it is there to run a procedure again from the same state.
#[derive(Clone, Debug)]
pub struct ServerTransport {
    role: SessionRole,
    owner_process_id: u64,
    service_generation: u64,
    reply_handle: CapabilityHandle,
    pending: PendingInbound,
    closed: bool,
}

/// An open session on the service's side as the contracts see it.
#[verifier::ext_equal]
pub ghost struct Session {
    pub role: SessionRole,
    pub owner: u64,
    pub generation: u64,
    pub reply: CapabilityHandle,
    pub pending: Option<Seq<u8>>,
    pub closed: bool,
}

impl View for ServerTransport {
    type V = Session;

    closed spec fn view(&self) -> Session {
        Session {
            role: self.role,
            owner: self.owner_process_id,
            generation: self.service_generation,
            reply: self.reply_handle,
            pending: self.pending@,
            closed: self.closed,
        }
    }
}

impl Session {
    pub open spec fn shut(self) -> Session {
        if self.closed {
            self
        } else {
            Session { reply: INVALID_HANDLE, pending: None, closed: true, ..self }
        }
    }

    pub open spec fn close_run(self, k: kernel::Transcript) -> (kernel::Transcript, Option<()>) {
        if self.closed {
            (k, Some(()))
        } else {
            close_valid_run(k, self.reply)
        }
    }

    /// Keeping a packet: only one of the session's own role and owner, and one at a time.
    pub open spec fn queue(self, role: SessionRole, owner: u64, packet: Seq<u8>) -> Result<
        Session,
        QueuePacketError,
    > {
        if self.closed {
            Err(QueuePacketError::Closed)
        } else if role != self.role {
            Err(QueuePacketError::WrongRole)
        } else if !sender_is_pinned(self.owner, owner) {
            Err(QueuePacketError::WrongOwner)
        } else if self.pending is Some {
            Err(QueuePacketError::Full)
        } else {
            Ok(Session { pending: Some(packet), ..self })
        }
    }

    /// Sending a packet. Anything but a full queue ends the session.
    pub open spec fn send_run(self, k: kernel::Transcript, packet: Seq<u8>) -> (
        kernel::Transcript,
        Session,
        Option<Result<(), TrySendError>>,
    ) {
        if self.closed || packet.len() > MAX_PACKET_BYTES {
            let (closed, result) = procedure::fail_after(self.close_run(k), TrySendError::PeerClosed);
            (closed, self.shut(), result)
        } else {
            let (sent, result) = ipc::send_run(k, self.reply, packet, None);
            match result {
                None => (sent, self, None),
                Some(Ok(_)) => (sent, self, Some(Ok(()))),
                Some(Err(error)) => if error == ipc::Error::try_again() {
                    (sent, self, Some(Err(TrySendError::Full)))
                } else {
                    let (closed, failure) = procedure::fail_after(
                        self.close_run(sent),
                        TrySendError::PeerClosed,
                    );
                    (closed, self.shut(), failure)
                },
            }
        }
    }
}

impl ServerTransport {
    pub fn role(&self) -> (role: SessionRole)
        ensures
            role == self@.role,
    {
        self.role
    }

    pub fn owner_process_id(&self) -> (process_id: u64)
        ensures
            process_id == self@.owner,
    {
        self.owner_process_id
    }

    pub fn service_generation(&self) -> (generation: u64)
        ensures
            generation == self@.generation,
    {
        self.service_generation
    }

    pub fn has_pending_packet(&self) -> (pending: bool)
        ensures
            pending == (self@.pending is Some),
    {
        self.pending.has_packet()
    }

    /// Keeps one packet of the session's own role and owner.
    pub fn try_queue_packet(&mut self, packet: &InboundPacket) -> (result: Result<
        (),
        QueuePacketError,
    >)
        ensures
            packet@ matches Arrival::Packet { role, owner, packet: payload } && match old(
                self,
            )@.queue(role, owner, payload) {
                Ok(session) => result == Ok::<(), QueuePacketError>(()) && final(self)@ == session,
                Err(error) => result == Err::<(), _>(error) && final(self)@ == old(self)@,
            },
    {
        if self.closed {
            return Err(QueuePacketError::Closed);
        }
        if packet.role != self.role {
            return Err(QueuePacketError::WrongRole);
        }
        if !sender_is_pinned(self.owner_process_id, packet.owner_process_id) {
            return Err(QueuePacketError::WrongOwner);
        }
        self.pending.push(packet.packet)
    }

    /// Ends the session at its own client's wish.
    pub fn handle_disconnect(&mut self, k: &mut Kernel, request: DisconnectRequest) -> (result:
        Option<Result<(), DisconnectError>>)
        ensures
            match validate_disconnect(
                old(self)@.closed,
                old(self)@.role,
                old(self)@.owner,
                old(self)@.generation,
                request,
            ) {
                Err(error) => {
                    &&& result == Some(Err::<(), _>(error))
                    &&& final(self)@ == old(self)@
                    &&& final(k)@ == old(k)@
                },
                Ok(_) => {
                    let (closed, done) = old(self)@.close_run(old(k)@);
                    &&& final(k)@ == closed
                    &&& final(self)@ == old(self)@.shut()
                    &&& result == match done {
                        None => None,
                        Some(_) => Some(Ok::<(), DisconnectError>(())),
                    }
                },
            },
    {
        if let Err(error) = validate_disconnect(
            self.closed,
            self.role,
            self.owner_process_id,
            self.service_generation,
            request,
        ) {
            return Some(Err(error));
        }
        self.close(k)?;
        Some(Ok(()))
    }

    /// Ends the session, once.
    pub fn close(&mut self, k: &mut Kernel) -> (result: Option<()>)
        ensures
            (final(k)@, result) == old(self)@.close_run(old(k)@),
            final(self)@ == old(self)@.shut(),
    {
        if self.closed {
            return Some(());
        }
        self.closed = true;
        self.pending.clear();
        let reply_handle: CapabilityHandle = self.reply_handle;
        self.reply_handle = INVALID_HANDLE;
        close_valid(k, reply_handle)
    }

    /// Sends a packet without blocking.
    pub fn try_send(&mut self, k: &mut Kernel, packet: &[u8]) -> (result: Option<
        Result<(), TrySendError>,
    >)
        ensures
            ({
                let (sent, next, outcome) = old(self)@.send_run(old(k)@, packet@);
                &&& final(k)@ == sent
                &&& result == outcome
                &&& result is Some ==> final(self)@ == next
            }),
    {
        if self.closed || packet.len() > MAX_PACKET_BYTES {
            self.close(k)?;
            return Some(Err(TrySendError::PeerClosed));
        }
        match ipc::send(k, self.reply_handle, packet, None)? {
            Ok(()) => Some(Ok(())),
            Err(error) => {
                if error == ipc::Error::try_again() {
                    return Some(Err(TrySendError::Full));
                }
                self.close(k)?;
                Some(Err(TrySendError::PeerClosed))
            },
        }
    }

    /// Hands out the packet that has arrived, if there is one.
    pub fn try_recv(&mut self, output: &mut [u8]) -> (result: Result<usize, TryRecvError>)
        ensures
            if old(self)@.closed {
                &&& result == Err::<usize, _>(TryRecvError::PeerClosed)
                &&& final(self)@ == old(self)@
                &&& final(output)@ == old(output)@
            } else {
                match old(self)@.pending {
                    None => {
                        &&& result == Err::<usize, _>(TryRecvError::Empty)
                        &&& final(self)@ == old(self)@
                        &&& final(output)@ == old(output)@
                    },
                    Some(packet) => if old(output)@.len() < packet.len() {
                        &&& result == Err::<usize, _>(
                            TryRecvError::MessageTooLarge { bytes: packet.len() as usize },
                        )
                        &&& final(self)@ == old(self)@
                        &&& final(output)@ == old(output)@
                    } else {
                        &&& result matches Ok(length) && length == packet.len()
                        &&& final(self)@ == (Session { pending: None, ..old(self)@ })
                        &&& final(output)@ == bytes::overlay(old(output)@, 0, packet)
                    },
                }
            },
    {
        if self.closed {
            return Err(TryRecvError::PeerClosed);
        }
        self.pending.receive(output)
    }
}

/// A session ends once: ending it again asks nothing of the kernel and changes nothing.
pub proof fn lemma_sessions_end_once(link: Link, session: Session, k: kernel::Transcript)
    ensures
        link.shut().shut() == link.shut(),
        link.shut().close_run(k) == (k, Some(())),
        session.shut().shut() == session.shut(),
        session.shut().close_run(k) == (k, Some(())),
{
}

/// A session whose client is pinned never takes a packet, nor an end, from another process or
/// for another role.
pub proof fn lemma_sessions_are_pinned(
    session: Session,
    role: SessionRole,
    owner: u64,
    packet: Seq<u8>,
    request: DisconnectRequest,
)
    ensures
        session.queue(role, owner, packet) is Ok ==> role == session.role && owner
            == session.owner && owner != 0,
        validate_disconnect(
            session.closed,
            session.role,
            session.owner,
            session.generation,
            request,
        ) is Ok ==> request.role == session.role && request.owner_process_id == session.owner
            && request.service_generation == session.generation,
{
}

/// A request that a client sends is one that the service's ingress takes, and the service's
/// answer is one that the client takes.
pub proof fn lemma_connect_records_are_understood(generation: u64)
    requires
        generation != 0,
    ensures
        ControlRecord::parsed(record_bytes(CONTROL_KIND_CONNECT, 0, 0)) == Ok::<
            _,
            ControlDecodeError,
        >(ControlRecord::Connect),
        ControlRecord::parsed(record_bytes(CONTROL_KIND_CONNECT_RESPONSE, 0, generation)) == Ok::<
            _,
            ControlDecodeError,
        >(
            ControlRecord::ConnectResponse {
                status: ConnectStatus::Accepted,
                service_generation: generation,
            },
        ),
        disconnect_record(true, generation) matches Some(record) && ControlRecord::parsed(record)
            == Ok::<_, ControlDecodeError>(
            ControlRecord::Disconnect { service_generation: generation },
        ),
{
    lemma_record_fields(CONTROL_KIND_CONNECT, 0, 0);
    lemma_record_fields(CONTROL_KIND_CONNECT_RESPONSE, 0, generation);
    lemma_record_fields(CONTROL_KIND_DISCONNECT, 0, generation);
}

/// Whether a handle, unless it is no handle, was closed after a point.
pub open spec fn let_go(
    before: kernel::Transcript,
    after: kernel::Transcript,
    handle: CapabilityHandle,
) -> bool {
    handle != INVALID_HANDLE ==> after.asked_since(before, kernel::closing(handle))
}

/// Whether nothing but one handle was closed between two points.
pub open spec fn closes_at_most(
    before: kernel::Transcript,
    after: kernel::Transcript,
    handle: CapabilityHandle,
) -> bool {
    forall|i: int, other: CapabilityHandle|
        before.asked.len() <= i < after.asked.len() && (#[trigger] after.asked[i]).op
            == #[trigger] kernel::closing(other) ==> other == handle
}

/// Whether a message went out at a point, over an endpoint and without a capability.
pub open spec fn wrote(
    k: kernel::Transcript,
    at: int,
    endpoint: CapabilityHandle,
    message: Seq<u8>,
) -> bool {
    &&& 0 <= at < k.asked.len()
    &&& k.asked[at].op == Op::Send { endpoint, handle: INVALID_HANDLE, rights: 0 }
    &&& k.asked[at].bytes == message
}

proof fn lemma_each_is_closed(k: kernel::Transcript, handles: Seq<CapabilityHandle>)
    requires
        close_each_run(k, handles).1 is Some,
    ensures
        close_each_run(k, handles).0.follows(k),
        forall|i: int|
            0 <= i < handles.len() ==> let_go(
                k,
                close_each_run(k, handles).0,
                #[trigger] handles[i],
            ),
    decreases handles.len(),
{
    if handles.len() > 0 {
        let first = close_valid_run(k, handles[0]).0;
        let after = close_each_run(k, handles).0;
        lemma_each_is_closed(first, handles.drop_first());
        assert forall|i: int| 0 <= i < k.asked.len() implies after.asked[i]
            == #[trigger] k.asked[i] by {
            assert(first.asked[i] == k.asked[i]);
        }
        assert forall|i: int| 0 <= i < handles.len() implies let_go(
            k,
            after,
            #[trigger] handles[i],
        ) by {
            if i == 0 {
                if handles[0] != INVALID_HANDLE {
                    assert(first.asked[k.asked.len() as int].op == kernel::closing(handles[0]));
                    assert(after.asked[k.asked.len() as int] == first.asked[k.asked.len() as int]);
                }
            } else {
                assert(handles.drop_first()[i - 1] == handles[i]);
                assert(let_go(first, after, handles[i]));
            }
        }
    }
}

proof fn lemma_let_go_since(
    first: kernel::Transcript,
    second: kernel::Transcript,
    third: kernel::Transcript,
    handle: CapabilityHandle,
)
    requires
        second.follows(first),
        third.follows(second),
        let_go(second, third, handle),
    ensures
        third.follows(first),
        let_go(first, third, handle),
{
    assert forall|i: int| 0 <= i < first.asked.len() implies third.asked[i]
        == #[trigger] first.asked[i] by {
        assert(second.asked[i] == first.asked[i]);
    }
}

proof fn lemma_shut_bootstrap_is_let_go(
    bootstrap: Bootstrap,
    first: kernel::Transcript,
    k: kernel::Transcript,
)
    requires
        !bootstrap.closed,
        k.follows(first),
        bootstrap.close_run(k).1 is Some,
    ensures
        ({
            let after = bootstrap.close_run(k).0;
            &&& after.follows(first)
            &&& after.follows(k)
            &&& let_go(first, after, bootstrap.ingress)
            &&& let_go(first, after, bootstrap.receive)
            &&& let_go(first, after, bootstrap.reply_source)
        }),
{
    let handles = seq![bootstrap.reply_source, bootstrap.receive, bootstrap.ingress];
    let after = bootstrap.close_run(k).0;
    lemma_each_is_closed(k, handles);
    assert(let_go(k, after, handles[0]));
    assert(let_go(k, after, handles[1]));
    assert(let_go(k, after, handles[2]));
    lemma_let_go_since(first, k, after, bootstrap.ingress);
    lemma_let_go_since(first, k, after, bootstrap.receive);
    lemma_let_go_since(first, k, after, bootstrap.reply_source);
}

/// A client that could not connect has let go of every handle it held, and is done.
#[verifier::rlimit(30)]
pub proof fn lemma_failed_connection_leaves_no_handle(bootstrap: Bootstrap, k: kernel::Transcript)
    requires
        !bootstrap.closed,
    ensures
        ({
            let (after, next, outcome) = bootstrap.try_connect_run(k);
            outcome matches Some(Err(_)) ==> {
                &&& next.closed
                &&& after.follows(k)
                &&& let_go(k, after, bootstrap.ingress)
                &&& let_go(k, after, bootstrap.receive)
                &&& let_go(k, after, bootstrap.reply_source)
            }
        }),
{
    let (after, next, outcome) = bootstrap.try_connect_run(k);
    if outcome matches Some(Err(_)) {
        let (sent, requested, asked) = bootstrap.request_run(k);
        if asked matches Some(Err(_)) {
            let tried = ipc::send_run(
                k,
                bootstrap.ingress,
                record_bytes(CONTROL_KIND_CONNECT, 0, 0),
                Some(Transfer { handle: bootstrap.reply_source, rights: Rights::send() }),
            ).0;
            assert(tried.follows(k));
            lemma_shut_bootstrap_is_let_go(bootstrap, k, tried);
        } else {
            assert(sent.follows(k));
            if !bootstrap.connect_sent {
                assert(sent.asked[k.asked.len() + 1int].op == kernel::closing(
                    bootstrap.reply_source,
                ));
            }
            let (heard, message) = ipc::try_receive_run(sent, requested.receive, CONTROL_RECORD_BYTES);
            assert(heard.follows(k));
            let last = match message {
                Some(Ok(delivery)) => match delivery.message.capability {
                    Some(capability) => handle::discard_run(heard, Some(capability.handle)).0,
                    None => heard,
                },
                _ => heard,
            };
            assert(last.follows(k));
            lemma_shut_bootstrap_is_let_go(requested, k, last);
            if !bootstrap.connect_sent {
                assert(after.asked[k.asked.len() + 1int] == last.asked[k.asked.len() + 1int]);
            }
        }
    }
}

/// A client that is connected holds on to its two endpoints, and is bound to the process that
/// accepted it: the one whose message says so. What it hands over it no longer holds.
pub proof fn lemma_connected_client_is_bound_to_its_service(
    bootstrap: Bootstrap,
    k: kernel::Transcript,
    later: kernel::Transcript,
)
    ensures
        ({
            let (after, next, outcome) = bootstrap.try_connect_run(k);
            outcome matches Some(Ok(Some(link))) ==> {
                let reply = after.replies[after.asked.len() - 1];
                &&& !bootstrap.closed
                &&& after.follows(k)
                &&& link.ingress == bootstrap.ingress
                &&& link.receive == bootstrap.receive
                &&& !link.closed
                &&& link.disconnect_pending
                &&& after.asked.last().op == (Op::TryReceive {
                    endpoint: bootstrap.receive,
                    capacity: CONTROL_RECORD_BYTES as u64,
                })
                &&& link.service == reply.words[0]
                &&& link.service != 0
                &&& ControlRecord::parsed(reply.bytes) == Ok::<_, ControlDecodeError>(
                    ControlRecord::ConnectResponse {
                        status: ConnectStatus::Accepted,
                        service_generation: link.generation,
                    },
                )
                &&& closes_at_most(k, after, bootstrap.reply_source)
                &&& next.closed
                &&& next.close_run(later) == (later, Some(()))
            }
        }),
{
    let (after, next, outcome) = bootstrap.try_connect_run(k);
    if outcome matches Some(Ok(Some(link))) {
        let (sent, requested, asked) = bootstrap.request_run(k);
        assert(sent.follows(k));
    }
}

/// A client asks for its session once. It asks with a record that says so, and gives the service
/// an endpoint to answer on, with the right to send and no other.
pub proof fn lemma_session_is_asked_for_once(bootstrap: Bootstrap, k: kernel::Transcript)
    ensures
        ({
            let (after, next, outcome) = bootstrap.request_run(k);
            &&& bootstrap.connect_sent ==> after == k && next == bootstrap
            &&& outcome == Some(Ok::<bool, ClientConnectError>(true)) ==> next.connect_sent
                && next.ingress == bootstrap.ingress && next.receive == bootstrap.receive
                && next.closed == bootstrap.closed
            &&& !bootstrap.connect_sent ==> {
                let message = after.asked[k.asked.len() as int];
                &&& k.asked.len() < after.asked.len()
                &&& message.op == (Op::Send {
                    endpoint: bootstrap.ingress,
                    handle: bootstrap.reply_source,
                    rights: Rights::send().raw,
                })
                &&& ControlRecord::parsed(message.bytes) == Ok::<_, ControlDecodeError>(
                    ControlRecord::Connect,
                )
            }
            &&& outcome == Some(Ok::<bool, ClientConnectError>(false)) ==> next == bootstrap
                && after.asked.len() == k.asked.len() + 1
        }),
{
    lemma_record_fields(CONTROL_KIND_CONNECT, 0, 0);
    let after = bootstrap.request_run(k).0;
    if !bootstrap.connect_sent {
        let (sent, result) = ipc::send_run(
            k,
            bootstrap.ingress,
            record_bytes(CONTROL_KIND_CONNECT, 0, 0),
            Some(Transfer { handle: bootstrap.reply_source, rights: Rights::send() }),
        );
        assert(sent.asked[k.asked.len() as int].bytes == record_bytes(CONTROL_KIND_CONNECT, 0, 0));
        if result matches Some(Err(error)) && error != ipc::Error::try_again() {
            if bootstrap.close_run(sent).1 is Some && !bootstrap.closed {
                lemma_shut_bootstrap_is_let_go(bootstrap, sent, sent);
            }
        }
        lemma_close_each_follows(
            sent,
            seq![bootstrap.reply_source, bootstrap.receive, bootstrap.ingress],
        );
        assert(after.follows(sent));
        assert(after.asked[k.asked.len() as int] == sent.asked[k.asked.len() as int]);
    }
}

proof fn lemma_close_each_follows(k: kernel::Transcript, handles: Seq<CapabilityHandle>)
    ensures
        close_each_run(k, handles).0.follows(k),
    decreases handles.len(),
{
    if handles.len() > 0 {
        let first = close_valid_run(k, handles[0]).0;
        let after = close_each_run(k, handles).0;
        lemma_close_each_follows(first, handles.drop_first());
        assert forall|i: int| 0 <= i < k.asked.len() implies after.asked[i]
            == #[trigger] k.asked[i] by {
            assert(first.asked[i] == k.asked[i]);
        }
    }
}

/// A client's own endpoint is a fresh one: it keeps a copy that can only receive, and what it was
/// copied from is what it gives away. Where that does not come about, nothing fresh stays open.
pub proof fn lemma_client_receives_on_its_own_endpoint(
    k: kernel::Transcript,
    ingress: CapabilityHandle,
)
    ensures
        ({
            let (after, made) = bootstrap_run(k, ingress);
            let n = k.asked.len() as int;
            &&& made matches Some(Ok(bootstrap)) ==> {
                &&& bootstrap.ingress == ingress
                &&& !bootstrap.connect_sent
                &&& !bootstrap.closed
                &&& after.asked.len() == n + 4
                &&& ipc::answered(after, n + 1, Op::EndpointCreate, bootstrap.reply_source)
                &&& ipc::answered(
                    after,
                    n + 2,
                    Op::Duplicate { handle: bootstrap.reply_source, rights: Rights::receive().raw },
                    bootstrap.receive,
                )
            }
            &&& made matches Some(Err(_)) ==> forall|i: int, handle: CapabilityHandle|
                (n <= i <= n + 2 && i < after.asked.len() && ((
                #[trigger] after.asked[i]).op is EndpointCreate || after.asked[i].op is Duplicate)
                    && ipc::decoded(after.replies[i].result) == Ok::<u64, ipc::Error>(handle)
                    ==> after.asked_since(k, #[trigger] kernel::closing(handle)))
        }),
{
    let (after, made) = bootstrap_run(k, ingress);
    let n = k.asked.len() as int;
    if made matches Some(Err(_)) {
        let asked = ipc::info_run(k, ingress).0;
        let (created, source) = ipc::value_run(asked, Op::EndpointCreate);
        if after != asked && source matches Some(Ok(_)) {
            let source = source->Some_0->Ok_0;
            let (copied, receive) = ipc::value_run(
                created,
                Op::Duplicate { handle: source, rights: Rights::receive().raw },
            );
            assert(after.asked.last().op == kernel::closing(source));
            assert(after.asked[after.asked.len() - 1].op == kernel::closing(source));
            if receive matches Some(Ok(_)) {
                assert(after.asked[n + 4].op == kernel::closing(receive->Some_0->Ok_0));
            }
        }
    }
}

/// An ended session has told its service, once and in its generation, and holds no handle.
pub proof fn lemma_ended_session_is_let_go(link: Link, k: kernel::Transcript)
    requires
        !link.closed,
        link.close_run(k).1 is Some,
    ensures
        ({
            let after = link.close_run(k).0;
            &&& after.follows(k)
            &&& let_go(k, after, link.ingress)
            &&& let_go(k, after, link.receive)
            &&& link.disconnect_pending && link.generation != 0 ==> exists|record: Seq<u8>|
                #[trigger] wrote(after, k.asked.len() as int, link.ingress, record)
                    && ControlRecord::parsed(record) == Ok::<_, ControlDecodeError>(
                    ControlRecord::Disconnect { service_generation: link.generation },
                )
            &&& link.shut().closed
            &&& link.shut().ingress == INVALID_HANDLE
            &&& link.shut().receive == INVALID_HANDLE
        }),
{
    let after = link.close_run(k).0;
    let handles = seq![link.receive, link.ingress];
    match disconnect_record(link.disconnect_pending, link.generation) {
        None => {
            lemma_each_is_closed(k, handles);
            assert(let_go(k, after, handles[0]));
            assert(let_go(k, after, handles[1]));
        },
        Some(record) => {
            lemma_record_fields(CONTROL_KIND_DISCONNECT, 0, link.generation);
            let sent = ipc::send_run(k, link.ingress, record, None).0;
            assert(sent.follows(k));
            lemma_each_is_closed(sent, handles);
            assert(let_go(sent, after, handles[0]));
            assert(let_go(sent, after, handles[1]));
            lemma_let_go_since(k, sent, after, link.receive);
            lemma_let_go_since(k, sent, after, link.ingress);
            assert(after.asked[k.asked.len() as int] == sent.asked[k.asked.len() as int]);
            assert(wrote(after, k.asked.len() as int, link.ingress, record));
        },
    }
}

/// A packet that a client sends goes to its service as it is, and the session stays as it was. A
/// full queue changes nothing either. Any other fault ends the session.
pub proof fn lemma_sent_packet_goes_to_the_service(
    link: Link,
    k: kernel::Transcript,
    packet: Seq<u8>,
)
    requires
        !link.closed,
    ensures
        ({
            let (after, next, outcome) = link.send_run(k, packet);
            &&& outcome matches Some(Ok(_)) ==> {
                &&& next == link
                &&& after.asked.len() == k.asked.len() + 1
                &&& wrote(after, k.asked.len() as int, link.ingress, packet)
            }
            &&& outcome matches Some(Err(TrySendError::Full)) ==> {
                &&& next == link
                &&& after.asked.len() == k.asked.len() + 1
            }
            &&& outcome matches Some(Err(TrySendError::PeerClosed)) ==> {
                &&& next.closed
                &&& let_go(k, after, link.ingress)
                &&& let_go(k, after, link.receive)
            }
        }),
{
    let (after, next, outcome) = link.send_run(k, packet);
    if outcome matches Some(Err(TrySendError::PeerClosed)) {
        let tried = if packet.len() > MAX_PACKET_BYTES {
            k
        } else {
            ipc::send_run(k, link.ingress, packet, None).0
        };
        assert(tried.follows(k));
        lemma_ended_session_is_let_go(link, tried);
        lemma_let_go_since(k, tried, after, link.ingress);
        lemma_let_go_since(k, tried, after, link.receive);
    }
}

/// A packet that a client takes came from its service, as it is and without a capability.
/// Whatever another process sends ends the session, and a capability that came along is closed.
#[verifier::rlimit(30)]
pub proof fn lemma_received_packet_is_the_services(
    link: Link,
    k: kernel::Transcript,
    capacity: usize,
)
    requires
        !link.closed,
    ensures
        ({
            let (after, next, outcome) = link.receive_run(k, capacity);
            let n = k.asked.len() as int;
            &&& outcome matches Some(Ok(packet)) ==> {
                &&& next == link
                &&& after.asked.len() == n + 1
                &&& after.asked[n].op == (Op::TryReceive {
                    endpoint: link.receive,
                    capacity: capacity as u64,
                })
                &&& packet == after.replies[n].bytes
                &&& packet.len() <= capacity
                &&& after.replies[n].words[0] == link.service
                &&& after.replies[n].words[2] == INVALID_HANDLE
            }
            &&& outcome matches Some(Err(TryRecvError::PeerClosed)) ==> {
                &&& next.closed
                &&& let_go(k, after, link.ingress)
                &&& let_go(k, after, link.receive)
            }
            &&& outcome matches Some(Err(error)) ==> (error != TryRecvError::PeerClosed ==> next
                == link && after.asked.len() == n + 1)
            &&& capacity <= MAX_IPC_MESSAGE_BYTES && outcome is Some ==> (ipc::try_receive_run(
                k,
                link.receive,
                capacity,
            ).1 matches Some(Ok(delivery)) ==> (delivery.message.capability matches Some(given)
                ==> let_go(k, after, given.handle)))
        }),
{
    let (after, next, outcome) = link.receive_run(k, capacity);
    if capacity > MAX_IPC_MESSAGE_BYTES {
        if outcome is Some {
            lemma_ended_session_is_let_go(link, k);
        }
    } else {
        let (asked, message) = ipc::try_receive_run(k, link.receive, capacity);
        assert(asked.follows(k));
        if outcome matches Some(Err(TryRecvError::PeerClosed)) {
            let last = match message {
                Some(Ok(delivery)) => match delivery.message.capability {
                    Some(given) => handle::discard_run(asked, Some(given.handle)).0,
                    None => asked,
                },
                _ => asked,
            };
            assert(last.follows(k));
            lemma_ended_session_is_let_go(link, last);
            lemma_let_go_since(k, last, after, link.ingress);
            lemma_let_go_since(k, last, after, link.receive);
            if message matches Some(Ok(delivery)) && delivery.message.capability is Some {
                let given = message->Some_0->Ok_0.message.capability->Some_0;
                assert(last.asked[asked.asked.len() as int].op == kernel::closing(given.handle));
                assert(after.asked[asked.asked.len() as int] == last.asked[
                    asked.asked.len() as int]);
            }
        }
    }
}

/// What arrives at a service is what was sent there, by the process that sent it and for the role
/// of the endpoint. What is refused leaves no capability behind.
#[verifier::rlimit(30)]
pub proof fn lemma_arrivals_are_what_was_sent(ingress: Ingress, k: kernel::Transcript)
    requires
        !ingress.closed,
    ensures
        ({
            let (after, outcome) = ingress.receive_run(k);
            let reply = after.replies[k.asked.len() as int];
            &&& after.follows(k)
            &&& outcome matches Some(Ok(Some(arrival))) ==> {
                &&& reply.words[0] != 0
                &&& match arrival {
                    Arrival::Connect { role, owner, reply: handle } => {
                        &&& role == ingress.role
                        &&& owner == reply.words[0]
                        &&& handle == reply.words[2]
                        &&& handle != INVALID_HANDLE
                        &&& reply.words[3] == Rights::send().raw
                        &&& ControlRecord::parsed(reply.bytes) == Ok::<_, ControlDecodeError>(
                            ControlRecord::Connect,
                        )
                        &&& !after.asked_since(k, kernel::closing(handle))
                    },
                    Arrival::Disconnect { role, owner, generation } => {
                        &&& role == ingress.role
                        &&& owner == reply.words[0]
                        &&& reply.words[2] == INVALID_HANDLE
                        &&& ControlRecord::parsed(reply.bytes) == Ok::<_, ControlDecodeError>(
                            ControlRecord::Disconnect { service_generation: generation },
                        )
                    },
                    Arrival::Packet { role, owner, packet } => {
                        &&& role == ingress.role
                        &&& owner == reply.words[0]
                        &&& reply.words[2] == INVALID_HANDLE
                        &&& packet == reply.bytes
                        &&& ControlRecord::parsed(packet) is Err
                    },
                }
            }
            &&& outcome matches Some(Err(_)) ==> (ipc::try_receive_run(
                k,
                ingress.receive,
                MAX_PACKET_BYTES,
            ).1 matches Some(Ok(delivery)) ==> (delivery.message.capability matches Some(given)
                ==> after.asked_since(k, kernel::closing(given.handle))))
        }),
{
    let (after, outcome) = ingress.receive_run(k);
    let (asked, message) = ipc::try_receive_run(k, ingress.receive, MAX_PACKET_BYTES);
    assert(asked.follows(k));
    if let Some(Ok(delivery)) = message {
        if let Some(given) = delivery.message.capability {
            if outcome matches Some(Err(_)) {
                assert(after.asked[after.asked.len() - 1].op == kernel::closing(given.handle));
            }
        }
    }
}

/// An accepted client learns the generation of its service, and its session answers to that client
/// alone. A rejected one learns why, and the service keeps nothing of it. Either is answered once.
pub proof fn lemma_requests_are_answered_once(
    connect: Connect,
    k: kernel::Transcript,
    later: kernel::Transcript,
    generation: u64,
    status: ConnectStatus,
)
    ensures
        ({
            let (after, next, outcome) = connect.accept_run(k, generation);
            &&& outcome matches Some(Ok(session)) ==> {
                &&& after.asked.len() == k.asked.len() + 1
                &&& session.role == connect.role
                &&& session.owner == connect.owner
                &&& session.generation == generation
                &&& session.reply == connect.reply
                &&& session.pending is None
                &&& !session.closed
                &&& exists|record: Seq<u8>|
                    #[trigger] wrote(after, k.asked.len() as int, connect.reply, record)
                        && ControlRecord::parsed(record) == Ok::<_, ControlDecodeError>(
                        ControlRecord::ConnectResponse {
                            status: ConnectStatus::Accepted,
                            service_generation: generation,
                        },
                    )
                &&& generation != 0 ==> next.accept_run(later, generation).2 == Some(
                    Err::<Session, AcceptError>(AcceptError::Completed),
                )
                &&& status != ConnectStatus::Accepted ==> next.reject_run(later, status).2 == Some(
                    Err::<(), AcceptError>(AcceptError::Completed),
                )
            }
            &&& outcome matches Some(Err(_)) ==> next == connect && after.asked.len()
                <= k.asked.len() + 1
        }),
        ({
            let (after, next, outcome) = connect.reject_run(k, status);
            &&& outcome matches Some(Ok(_)) ==> {
                &&& let_go(k, after, connect.reply)
                &&& exists|record: Seq<u8>|
                    #[trigger] wrote(after, k.asked.len() as int, connect.reply, record)
                        && ControlRecord::parsed(record) == Ok::<_, ControlDecodeError>(
                        ControlRecord::ConnectResponse { status, service_generation: 0 },
                    )
                &&& generation != 0 ==> next.accept_run(later, generation).2 == Some(
                    Err::<Session, AcceptError>(AcceptError::Completed),
                )
            }
            &&& outcome matches Some(Err(_)) ==> next == connect && after.asked.len()
                <= k.asked.len() + 1
        }),
{
    lemma_record_fields(CONTROL_KIND_CONNECT_RESPONSE, 0, generation);
    lemma_record_fields(CONTROL_KIND_CONNECT_RESPONSE, status.raw(), 0);
    let (after, next, outcome) = connect.accept_run(k, generation);
    if outcome matches Some(Ok(_)) {
        assert(wrote(
            after,
            k.asked.len() as int,
            connect.reply,
            record_bytes(CONTROL_KIND_CONNECT_RESPONSE, 0, generation),
        ));
    }
    let (after, next, outcome) = connect.reject_run(k, status);
    if outcome matches Some(Ok(_)) {
        assert(after.asked[k.asked.len() + 1int].op == kernel::closing(connect.reply));
        assert(wrote(
            after,
            k.asked.len() as int,
            connect.reply,
            record_bytes(CONTROL_KIND_CONNECT_RESPONSE, status.raw(), 0),
        ));
    }
}

/// A packet that a service sends goes to the session's client as it is, and the session stays as it
/// was. A full queue changes nothing either. Any other fault ends the session.
pub proof fn lemma_sent_packet_goes_to_the_client(
    session: Session,
    k: kernel::Transcript,
    packet: Seq<u8>,
)
    requires
        !session.closed,
    ensures
        ({
            let (after, next, outcome) = session.send_run(k, packet);
            &&& outcome matches Some(Ok(_)) ==> {
                &&& next == session
                &&& after.asked.len() == k.asked.len() + 1
                &&& wrote(after, k.asked.len() as int, session.reply, packet)
            }
            &&& outcome matches Some(Err(TrySendError::Full)) ==> {
                &&& next == session
                &&& after.asked.len() == k.asked.len() + 1
            }
            &&& outcome matches Some(Err(TrySendError::PeerClosed)) ==> {
                &&& next.closed
                &&& next.pending is None
                &&& let_go(k, after, session.reply)
            }
        }),
{
    let (after, next, outcome) = session.send_run(k, packet);
    if outcome matches Some(Err(TrySendError::PeerClosed)) {
        if session.reply != INVALID_HANDLE {
            assert(after.asked[after.asked.len() - 1].op == kernel::closing(session.reply));
        }
    }
}

} // verus!
