//! The service-control protocol: what is asked of a supervisor, what it answers, and the
//! 64-byte messages that carry both.

use crate::bytes;
use crate::bytes::{all_zero, copy_into, equal, get_u16, get_u32, get_u64, put_u16, put_u32, put_u64};
use crate::identity;
pub use crate::identity::{ProviderGeneration, ServiceId};
use vstd::prelude::*;

verus! {

pub const SERVICE_CONTROL_WIRE_BYTES: usize = 64;

/// `NSVC`.
pub const CONTROL_MAGIC: [u8; 4] = [0x4e, 0x53, 0x56, 0x43];

pub const CONTROL_WIRE_VERSION: u16 = 1;

pub const KIND_REQUEST: u8 = 1;

pub const KIND_RESPONSE: u8 = 2;

/// Names one request, so that its response can be told apart. Zero names none.
#[derive(Clone, Copy, Debug, PartialEq, Eq, Structural)]
pub struct RequestId {
    pub raw: u64,
}

impl RequestId {
    #[verifier::allow_in_spec]
    pub fn new(raw: u64) -> Option<Self>
        returns
            (if raw == 0 {
                None
            } else {
                Some(RequestId { raw })
            }),
    {
        if raw == 0 {
            None
        } else {
            Some(RequestId { raw })
        }
    }

    pub fn get(self) -> (raw: u64)
        ensures
            raw == self.raw,
    {
        self.raw
    }
}

#[derive(Clone, Copy, Debug, PartialEq, Eq, Structural)]
pub enum Operation {
    List,
    Status,
    Start,
    Stop,
    Restart,
}

impl Operation {
    #[verifier::allow_in_spec]
    pub fn raw(self) -> u8
        returns
            (match self {
                Self::List => 1u8,
                Self::Status => 2u8,
                Self::Start => 3u8,
                Self::Stop => 4u8,
                Self::Restart => 5u8,
            }),
    {
        match self {
            Self::List => 1,
            Self::Status => 2,
            Self::Start => 3,
            Self::Stop => 4,
            Self::Restart => 5,
        }
    }

    #[verifier::allow_in_spec]
    pub fn from_raw(raw: u8) -> Option<Self>
        returns
            (if raw == 1 {
                Some(Self::List)
            } else if raw == 2 {
                Some(Self::Status)
            } else if raw == 3 {
                Some(Self::Start)
            } else if raw == 4 {
                Some(Self::Stop)
            } else if raw == 5 {
                Some(Self::Restart)
            } else {
                None
            }),
    {
        match raw {
            1 => Some(Self::List),
            2 => Some(Self::Status),
            3 => Some(Self::Start),
            4 => Some(Self::Stop),
            5 => Some(Self::Restart),
            _ => None,
        }
    }
}

/// What is asked of the supervisor.
#[derive(Clone, Copy, Debug, PartialEq, Eq, Structural)]
pub enum ServiceControlRequest {
    List { cursor: u32 },
    Status { service: ServiceId },
    Start { service: ServiceId },
    Stop { service: ServiceId },
    Restart { service: ServiceId },
}

impl ServiceControlRequest {
    #[verifier::allow_in_spec]
    pub fn operation(self) -> Operation
        returns
            (match self {
                Self::List { .. } => Operation::List,
                Self::Status { .. } => Operation::Status,
                Self::Start { .. } => Operation::Start,
                Self::Stop { .. } => Operation::Stop,
                Self::Restart { .. } => Operation::Restart,
            }),
    {
        match self {
            Self::List { .. } => Operation::List,
            Self::Status { .. } => Operation::Status,
            Self::Start { .. } => Operation::Start,
            Self::Stop { .. } => Operation::Stop,
            Self::Restart { .. } => Operation::Restart,
        }
    }

    /// Whether a service that is named is a committed one.
    pub open spec fn valid(self) -> bool {
        match self {
            Self::List { .. } => true,
            Self::Status { service } => service.valid(),
            Self::Start { service } => service.valid(),
            Self::Stop { service } => service.valid(),
            Self::Restart { service } => service.valid(),
        }
    }
}

/// The state a service is meant to be in.
#[derive(Clone, Copy, Debug, PartialEq, Eq, Structural)]
pub enum DesiredState {
    Stopped,
    Running,
}

impl DesiredState {
    #[verifier::allow_in_spec]
    pub fn raw(self) -> u8
        returns
            (match self {
                Self::Stopped => 1u8,
                Self::Running => 2u8,
            }),
    {
        match self {
            Self::Stopped => 1,
            Self::Running => 2,
        }
    }

    #[verifier::allow_in_spec]
    pub fn from_raw(raw: u8) -> Option<Self>
        returns
            (if raw == 1 {
                Some(Self::Stopped)
            } else if raw == 2 {
                Some(Self::Running)
            } else {
                None
            }),
    {
        match raw {
            1 => Some(Self::Stopped),
            2 => Some(Self::Running),
            _ => None,
        }
    }
}

/// The state a service is seen in.
#[derive(Clone, Copy, Debug, PartialEq, Eq, Structural)]
pub enum ObservedState {
    Stopped,
    Starting,
    Ready,
    Stopping,
    Terminating,
    Quarantined,
}

impl ObservedState {
    #[verifier::allow_in_spec]
    pub fn raw(self) -> u8
        returns
            (match self {
                Self::Stopped => 1u8,
                Self::Starting => 2u8,
                Self::Ready => 3u8,
                Self::Stopping => 4u8,
                Self::Terminating => 5u8,
                Self::Quarantined => 6u8,
            }),
    {
        match self {
            Self::Stopped => 1,
            Self::Starting => 2,
            Self::Ready => 3,
            Self::Stopping => 4,
            Self::Terminating => 5,
            Self::Quarantined => 6,
        }
    }

    #[verifier::allow_in_spec]
    pub fn from_raw(raw: u8) -> Option<Self>
        returns
            (if raw == 1 {
                Some(Self::Stopped)
            } else if raw == 2 {
                Some(Self::Starting)
            } else if raw == 3 {
                Some(Self::Ready)
            } else if raw == 4 {
                Some(Self::Stopping)
            } else if raw == 5 {
                Some(Self::Terminating)
            } else if raw == 6 {
                Some(Self::Quarantined)
            } else {
                None
            }),
    {
        match raw {
            1 => Some(Self::Stopped),
            2 => Some(Self::Starting),
            3 => Some(Self::Ready),
            4 => Some(Self::Stopping),
            5 => Some(Self::Terminating),
            6 => Some(Self::Quarantined),
            _ => None,
        }
    }

    /// Whether a process provides the service in this state.
    #[verifier::allow_in_spec]
    pub fn has_provider(self) -> bool
        returns
            !(self is Stopped || self is Quarantined),
    {
        match self {
            Self::Stopped | Self::Quarantined => false,
            _ => true,
        }
    }
}

/// Why the supervisor did not do what was asked.
#[derive(Clone, Copy, Debug, PartialEq, Eq, Structural)]
pub enum ServiceControlFailure {
    NotFound,
    AccessDenied,
    Unsupported,
    Busy,
    InvalidState,
    Exhausted,
}

impl ServiceControlFailure {
    #[verifier::allow_in_spec]
    pub fn raw(self) -> u8
        returns
            (match self {
                Self::NotFound => 1u8,
                Self::AccessDenied => 2u8,
                Self::Unsupported => 3u8,
                Self::Busy => 4u8,
                Self::InvalidState => 5u8,
                Self::Exhausted => 6u8,
            }),
    {
        match self {
            Self::NotFound => 1,
            Self::AccessDenied => 2,
            Self::Unsupported => 3,
            Self::Busy => 4,
            Self::InvalidState => 5,
            Self::Exhausted => 6,
        }
    }

    #[verifier::allow_in_spec]
    pub fn from_raw(raw: u8) -> Option<Self>
        returns
            (if raw == 1 {
                Some(Self::NotFound)
            } else if raw == 2 {
                Some(Self::AccessDenied)
            } else if raw == 3 {
                Some(Self::Unsupported)
            } else if raw == 4 {
                Some(Self::Busy)
            } else if raw == 5 {
                Some(Self::InvalidState)
            } else if raw == 6 {
                Some(Self::Exhausted)
            } else {
                None
            }),
    {
        match raw {
            1 => Some(Self::NotFound),
            2 => Some(Self::AccessDenied),
            3 => Some(Self::Unsupported),
            4 => Some(Self::Busy),
            5 => Some(Self::InvalidState),
            6 => Some(Self::Exhausted),
            _ => None,
        }
    }
}

/// A response that says contradictory things.
#[derive(Clone, Copy, Debug, PartialEq, Eq, Structural)]
pub enum InvalidResponse {
    /// A generation goes with the states that have a provider, and with no other.
    GenerationState,
    /// The next cursor lies after the current one, or is zero at the end.
    CursorOrder,
    /// A started or restarted service is meant to run, a stopped one to be stopped.
    DesiredState,
}

/// What the supervisor says of one service.
#[derive(Clone, Copy, Debug, PartialEq, Eq, Structural)]
pub struct ServiceRecord {
    pub service: ServiceId,
    pub generation: Option<ProviderGeneration>,
    pub observed: ObservedState,
    pub desired: DesiredState,
}

impl ServiceRecord {
    /// The record of these parts, if they go together.
    pub open spec fn built(
        service: ServiceId,
        generation: Option<ProviderGeneration>,
        observed: ObservedState,
        desired: DesiredState,
    ) -> Result<ServiceRecord, InvalidResponse> {
        if generation is Some == observed.has_provider() {
            Ok(ServiceRecord { service, generation, observed, desired })
        } else {
            Err(InvalidResponse::GenerationState)
        }
    }

    /// Whether the parts of the record go together and each is valid.
    pub open spec fn valid(self) -> bool {
        &&& self.service.valid()
        &&& self.generation is Some == self.observed.has_provider()
        &&& self.generation is Some ==> self.generation->0.raw != 0
    }

    pub fn new(
        service: ServiceId,
        generation: Option<ProviderGeneration>,
        observed: ObservedState,
        desired: DesiredState,
    ) -> (result: Result<Self, InvalidResponse>)
        ensures
            result == Self::built(service, generation, observed, desired),
    {
        if generation.is_some() == observed.has_provider() {
            Ok(ServiceRecord { service, generation, observed, desired })
        } else {
            Err(InvalidResponse::GenerationState)
        }
    }

    pub fn service(self) -> (service: ServiceId)
        ensures
            service == self.service,
    {
        self.service
    }

    pub fn generation(self) -> (generation: Option<ProviderGeneration>)
        ensures
            generation == self.generation,
    {
        self.generation
    }

    pub fn observed_state(self) -> (observed: ObservedState)
        ensures
            observed == self.observed,
    {
        self.observed
    }

    pub fn desired_state(self) -> (desired: DesiredState)
        ensures
            desired == self.desired,
    {
        self.desired
    }
}

/// What stands at one cursor of the list.
#[derive(Clone, Copy, Debug, PartialEq, Eq, Structural)]
pub enum ListOutcome {
    /// A service, and the cursor of the next one, zero at the last.
    Record { record: ServiceRecord, next_cursor: u32 },
    End,
    Failure(ServiceControlFailure),
}

#[derive(Clone, Copy, Debug, PartialEq, Eq, Structural)]
pub struct ListResponse {
    pub cursor: u32,
    pub outcome: ListOutcome,
}

impl ListResponse {
    pub open spec fn valid(self) -> bool {
        self.outcome matches ListOutcome::Record { record, next_cursor } ==> (record.valid() && (
        next_cursor == 0 || next_cursor > self.cursor))
    }

    pub open spec fn recorded(cursor: u32, record: ServiceRecord, next_cursor: u32) -> Result<
        ListResponse,
        InvalidResponse,
    > {
        if next_cursor == 0 || next_cursor > cursor {
            Ok(ListResponse { cursor, outcome: ListOutcome::Record { record, next_cursor } })
        } else {
            Err(InvalidResponse::CursorOrder)
        }
    }

    pub fn record(cursor: u32, record: ServiceRecord, next_cursor: u32) -> (result: Result<
        Self,
        InvalidResponse,
    >)
        ensures
            result == Self::recorded(cursor, record, next_cursor),
    {
        if next_cursor == 0 || next_cursor > cursor {
            Ok(ListResponse { cursor, outcome: ListOutcome::Record { record, next_cursor } })
        } else {
            Err(InvalidResponse::CursorOrder)
        }
    }

    #[verifier::allow_in_spec]
    pub fn end(cursor: u32) -> Self
        returns
            (ListResponse { cursor, outcome: ListOutcome::End }),
    {
        ListResponse { cursor, outcome: ListOutcome::End }
    }

    #[verifier::allow_in_spec]
    pub fn failure(cursor: u32, failure: ServiceControlFailure) -> Self
        returns
            (ListResponse { cursor, outcome: ListOutcome::Failure(failure) }),
    {
        ListResponse { cursor, outcome: ListOutcome::Failure(failure) }
    }

    pub fn cursor(self) -> (cursor: u32)
        ensures
            cursor == self.cursor,
    {
        self.cursor
    }

    pub fn outcome(self) -> (outcome: ListOutcome)
        ensures
            outcome == self.outcome,
    {
        self.outcome
    }
}

#[derive(Clone, Copy, Debug, PartialEq, Eq, Structural)]
pub enum TargetOutcome {
    Success(ServiceRecord),
    Failure(ServiceControlFailure),
}

/// What the supervisor answers to a request that names a service.
#[derive(Clone, Copy, Debug, PartialEq, Eq, Structural)]
pub struct TargetResponse {
    pub service: ServiceId,
    pub outcome: TargetOutcome,
}

impl TargetResponse {
    pub open spec fn valid(self) -> bool {
        &&& self.service.valid()
        &&& self.outcome matches TargetOutcome::Success(record) ==> (record.valid()
            && record.service == self.service)
    }

    /// Whether a success says that the service is meant to be in this state.
    pub open spec fn desires(self, desired: DesiredState) -> bool {
        self.outcome matches TargetOutcome::Success(record) ==> record.desired == desired
    }

    #[verifier::allow_in_spec]
    pub fn success(record: ServiceRecord) -> Self
        returns
            (TargetResponse { service: record.service, outcome: TargetOutcome::Success(record) }),
    {
        TargetResponse { service: record.service, outcome: TargetOutcome::Success(record) }
    }

    #[verifier::allow_in_spec]
    pub fn failure(service: ServiceId, failure: ServiceControlFailure) -> Self
        returns
            (TargetResponse { service, outcome: TargetOutcome::Failure(failure) }),
    {
        TargetResponse { service, outcome: TargetOutcome::Failure(failure) }
    }

    pub fn service(self) -> (service: ServiceId)
        ensures
            service == self.service,
    {
        self.service
    }

    pub fn outcome(self) -> (outcome: TargetOutcome)
        ensures
            outcome == self.outcome,
    {
        self.outcome
    }

    fn success_desires(self, desired: DesiredState) -> (agrees: bool)
        ensures
            agrees == self.desires(desired),
    {
        match self.outcome {
            TargetOutcome::Success(record) => record.desired == desired,
            TargetOutcome::Failure(_) => true,
        }
    }
}

/// What the supervisor answers.
#[derive(Clone, Copy, Debug, PartialEq, Eq, Structural)]
pub enum ServiceControlResponse {
    List(ListResponse),
    Status(TargetResponse),
    Start(TargetResponse),
    Stop(TargetResponse),
    Restart(TargetResponse),
}

/// The response to an operation that leaves a service meant to be in `desired`.
pub open spec fn mutated(
    response: ServiceControlResponse,
    target: TargetResponse,
    desired: DesiredState,
) -> Result<ServiceControlResponse, InvalidResponse> {
    if target.desires(desired) {
        Ok(response)
    } else {
        Err(InvalidResponse::DesiredState)
    }
}

impl ServiceControlResponse {
    pub open spec fn valid(self) -> bool {
        match self {
            Self::List(list) => list.valid(),
            Self::Status(target) => target.valid(),
            Self::Start(target) => target.valid() && target.desires(DesiredState::Running),
            Self::Stop(target) => target.valid() && target.desires(DesiredState::Stopped),
            Self::Restart(target) => target.valid() && target.desires(DesiredState::Running),
        }
    }

    #[verifier::allow_in_spec]
    pub fn list(response: ListResponse) -> Self
        returns
            Self::List(response),
    {
        Self::List(response)
    }

    #[verifier::allow_in_spec]
    pub fn status(response: TargetResponse) -> Self
        returns
            Self::Status(response),
    {
        Self::Status(response)
    }

    pub fn start(response: TargetResponse) -> (result: Result<Self, InvalidResponse>)
        ensures
            result == mutated(Self::Start(response), response, DesiredState::Running),
    {
        if response.success_desires(DesiredState::Running) {
            Ok(Self::Start(response))
        } else {
            Err(InvalidResponse::DesiredState)
        }
    }

    pub fn stop(response: TargetResponse) -> (result: Result<Self, InvalidResponse>)
        ensures
            result == mutated(Self::Stop(response), response, DesiredState::Stopped),
    {
        if response.success_desires(DesiredState::Stopped) {
            Ok(Self::Stop(response))
        } else {
            Err(InvalidResponse::DesiredState)
        }
    }

    pub fn restart(response: TargetResponse) -> (result: Result<Self, InvalidResponse>)
        ensures
            result == mutated(Self::Restart(response), response, DesiredState::Running),
    {
        if response.success_desires(DesiredState::Running) {
            Ok(Self::Restart(response))
        } else {
            Err(InvalidResponse::DesiredState)
        }
    }

    #[verifier::allow_in_spec]
    pub fn operation(self) -> Operation
        returns
            (match self {
                Self::List(_) => Operation::List,
                Self::Status(_) => Operation::Status,
                Self::Start(_) => Operation::Start,
                Self::Stop(_) => Operation::Stop,
                Self::Restart(_) => Operation::Restart,
            }),
    {
        match self {
            Self::List(_) => Operation::List,
            Self::Status(_) => Operation::Status,
            Self::Start(_) => Operation::Start,
            Self::Stop(_) => Operation::Stop,
            Self::Restart(_) => Operation::Restart,
        }
    }

    /// The response about one service, if this is one.
    #[verifier::allow_in_spec]
    pub fn target_response(self) -> Option<TargetResponse>
        returns
            (match self {
                Self::List(_) => None,
                Self::Status(target) => Some(target),
                Self::Start(target) => Some(target),
                Self::Stop(target) => Some(target),
                Self::Restart(target) => Some(target),
            }),
    {
        match self {
            Self::List(_) => None,
            Self::Status(target) => Some(target),
            Self::Start(target) => Some(target),
            Self::Stop(target) => Some(target),
            Self::Restart(target) => Some(target),
        }
    }
}

/// Why a message is not the response to a request.
#[derive(Clone, Copy, Debug, PartialEq, Eq, Structural)]
pub enum CorrelationError {
    NotARequest,
    NotAResponse,
    RequestIdMismatch,
    OperationMismatch,
    ListCursorMismatch,
    TargetServiceMismatch,
}

/// Why bytes are no message.
#[derive(Clone, Copy, Debug, PartialEq, Eq, Structural)]
pub enum DecodeError {
    InvalidLength,
    InvalidMagic,
    UnsupportedVersion,
    UnknownKind,
    UnknownOperation,
    ZeroRequestId,
    InvalidService,
    UnknownOutcome,
    UnknownFailure,
    UnknownObservedState,
    UnknownDesiredState,
    InvalidResponse,
    NonzeroReserved,
}

/// A request or a response, and the request that it is or belongs to.
#[derive(Clone, Copy, Debug, PartialEq, Eq, Structural)]
pub enum ServiceControlMessage {
    Request { request_id: RequestId, request: ServiceControlRequest },
    Response { request_id: RequestId, response: ServiceControlResponse },
}

/// The fields of a message, as they stand in it.
#[derive(Clone, Copy, Debug, PartialEq, Eq, Structural)]
pub struct Fields {
    pub kind: u8,
    pub operation: u8,
    pub request_id: u64,
    pub service: ServiceId,
    pub cursor: u32,
    pub next_cursor: u32,
    pub outcome: u8,
    pub failure: u8,
    pub observed: u8,
    pub desired: u8,
    pub generation: u64,
}

/// A response about no service in particular names this one.
#[verifier::allow_in_spec]
pub fn no_service() -> ServiceId
    returns
        (ServiceId { first: 0, second: 0 }),
{
    ServiceId { first: 0, second: 0 }
}

pub const OUTCOME_NONE: u8 = 0;

pub const OUTCOME_RECORD: u8 = 1;

pub const OUTCOME_FAILURE: u8 = 2;

pub const OUTCOME_END: u8 = 3;

impl Fields {
    /// The fields of a message that only names a kind, an operation and a request.
    #[verifier::allow_in_spec]
    pub fn blank(kind: u8, operation: u8, request_id: u64) -> Self
        returns
            (Fields {
                kind,
                operation,
                request_id,
                service: no_service(),
                cursor: 0,
                next_cursor: 0,
                outcome: OUTCOME_NONE,
                failure: 0,
                observed: 0,
                desired: 0,
                generation: 0,
            }),
    {
        Fields {
            kind,
            operation,
            request_id,
            service: no_service(),
            cursor: 0,
            next_cursor: 0,
            outcome: OUTCOME_NONE,
            failure: 0,
            observed: 0,
            desired: 0,
            generation: 0,
        }
    }

    /// These fields with what a record says.
    #[verifier::allow_in_spec]
    pub fn with_record(self, record: ServiceRecord) -> Self
        returns
            (Fields {
                service: record.service,
                outcome: OUTCOME_RECORD,
                observed: record.observed.raw(),
                desired: record.desired.raw(),
                generation: match record.generation {
                    Some(generation) => generation.raw,
                    None => 0,
                },
                ..self
            }),
    {
        Fields {
            service: record.service,
            outcome: OUTCOME_RECORD,
            observed: record.observed.raw(),
            desired: record.desired.raw(),
            generation: match record.generation {
                Some(generation) => generation.get(),
                None => 0,
            },
            ..self
        }
    }

    /// The 64 bytes of the message.
    pub open spec fn encoded(self) -> Seq<u8> {
        CONTROL_MAGIC@ + bytes::u16_bytes(CONTROL_WIRE_VERSION) + seq![self.kind, self.operation]
            + bytes::u64_bytes(self.request_id) + self.service.bytes() + bytes::u32_bytes(
            self.cursor,
        ) + bytes::u32_bytes(self.next_cursor) + seq![
            self.outcome,
            self.failure,
            self.observed,
            self.desired,
        ] + bytes::zeros(4) + bytes::u64_bytes(self.generation) + bytes::zeros(8)
    }

    /// The fields that stand in 64 bytes.
    pub open spec fn at(input: Seq<u8>) -> Fields {
        Fields {
            kind: input[6],
            operation: input[7],
            request_id: bytes::u64_at(input, 8),
            service: ServiceId::at(input, 16),
            cursor: bytes::u32_at(input, 32),
            next_cursor: bytes::u32_at(input, 36),
            outcome: input[40],
            failure: input[41],
            observed: input[42],
            desired: input[43],
            generation: bytes::u64_at(input, 48),
        }
    }

    /// The fields of a message, if the bytes have its frame.
    pub open spec fn parsed(input: Seq<u8>) -> Result<Fields, DecodeError> {
        if input.len() != SERVICE_CONTROL_WIRE_BYTES {
            Err(DecodeError::InvalidLength)
        } else if input.take(4) != CONTROL_MAGIC@ {
            Err(DecodeError::InvalidMagic)
        } else if bytes::u16_at(input, 4) != CONTROL_WIRE_VERSION {
            Err(DecodeError::UnsupportedVersion)
        } else if input.subrange(44, 48) != bytes::zeros(4) || input.subrange(56, 64)
            != bytes::zeros(8) {
            Err(DecodeError::NonzeroReserved)
        } else {
            Ok(Self::at(input))
        }
    }

    fn encode(self) -> (output: [u8; SERVICE_CONTROL_WIRE_BYTES])
        ensures
            output@ == self.encoded(),
    {
        let service = self.service.as_bytes();
        let mut output: [u8; SERVICE_CONTROL_WIRE_BYTES] = [0;SERVICE_CONTROL_WIRE_BYTES];
        copy_into(&mut output, 0, &CONTROL_MAGIC);
        put_u16(&mut output, 4, CONTROL_WIRE_VERSION);
        output[6] = self.kind;
        output[7] = self.operation;
        put_u64(&mut output, 8, self.request_id);
        copy_into(&mut output, 16, &service);
        put_u32(&mut output, 32, self.cursor);
        put_u32(&mut output, 36, self.next_cursor);
        output[40] = self.outcome;
        output[41] = self.failure;
        output[42] = self.observed;
        output[43] = self.desired;
        put_u64(&mut output, 48, self.generation);
        proof {
            lemma_field_lengths(self);
            assert(output@ =~= self.encoded());
        }
        output
    }

    fn decode(input: &[u8]) -> (result: Result<Self, DecodeError>)
        ensures
            result == Self::parsed(input@),
    {
        if input.len() != SERVICE_CONTROL_WIRE_BYTES {
            return Err(DecodeError::InvalidLength);
        }
        assert(input@.subrange(0, 4) =~= input@.take(4));
        if !equal(&input[0..4], &CONTROL_MAGIC) {
            return Err(DecodeError::InvalidMagic);
        }
        if get_u16(input, 4) != CONTROL_WIRE_VERSION {
            return Err(DecodeError::UnsupportedVersion);
        }
        if !all_zero(input, 44, 48) || !all_zero(input, 56, 64) {
            return Err(DecodeError::NonzeroReserved);
        }
        Ok(
            Fields {
                kind: input[6],
                operation: input[7],
                request_id: get_u64(input, 8),
                service: ServiceId { first: get_u64(input, 16), second: get_u64(input, 24) },
                cursor: get_u32(input, 32),
                next_cursor: get_u32(input, 36),
                outcome: input[40],
                failure: input[41],
                observed: input[42],
                desired: input[43],
                generation: get_u64(input, 48),
            },
        )
    }
}

proof fn lemma_field_lengths(fields: Fields)
    ensures
        bytes::u16_bytes(CONTROL_WIRE_VERSION).len() == 2,
        bytes::u64_bytes(fields.request_id).len() == 8,
        fields.service.bytes().len() == 16,
        bytes::u32_bytes(fields.cursor).len() == 4,
        bytes::u32_bytes(fields.next_cursor).len() == 4,
        bytes::u64_bytes(fields.generation).len() == 8,
        fields.encoded().len() == SERVICE_CONTROL_WIRE_BYTES,
{
    assert(fields.service.bytes().len() == 16) by {
        bytes::lemma_integer_lengths(0, 0, fields.service.first);
        bytes::lemma_integer_lengths(0, 0, fields.service.second);
    }
    bytes::lemma_integer_lengths(CONTROL_WIRE_VERSION, fields.cursor, fields.request_id);
    bytes::lemma_integer_lengths(CONTROL_WIRE_VERSION, fields.next_cursor, fields.generation);
}

/// The bytes of a message are its fields, one after another.
proof fn lemma_message_parts(input: Seq<u8>)
    requires
        input.len() == SERVICE_CONTROL_WIRE_BYTES,
    ensures
        input == input.take(4) + input.subrange(4, 6) + seq![input[6], input[7]] + input.subrange(
            8,
            16,
        ) + input.subrange(16, 32) + input.subrange(32, 36) + input.subrange(36, 40) + seq![
            input[40],
            input[41],
            input[42],
            input[43],
        ] + input.subrange(44, 48) + input.subrange(48, 56) + input.subrange(56, 64),
{
}

proof fn lemma_fields_round_trip(fields: Fields)
    ensures
        Fields::parsed(fields.encoded()) == Ok::<_, DecodeError>(fields),
{
    let output = fields.encoded();
    lemma_field_lengths(fields);
    assert(output.take(4) =~= CONTROL_MAGIC@);
    assert(bytes::u16_at(output, 4) == CONTROL_WIRE_VERSION) by {
        bytes::lemma_u16_round_trip(CONTROL_WIRE_VERSION);
        assert(output.subrange(4, 6) =~= bytes::u16_bytes(CONTROL_WIRE_VERSION));
        bytes::lemma_u16_at_window(output, 4, bytes::u16_bytes(CONTROL_WIRE_VERSION));
    }
    assert(bytes::u64_at(output, 8) == fields.request_id) by {
        bytes::lemma_u64_round_trip(fields.request_id);
        assert(output.subrange(8, 16) =~= bytes::u64_bytes(fields.request_id));
        bytes::lemma_u64_at_window(output, 8, bytes::u64_bytes(fields.request_id));
    }
    assert(ServiceId::at(output, 16) == fields.service) by {
        assert(output.subrange(16, 32) =~= fields.service.bytes());
        identity::lemma_service_at_window(output, 16, fields.service);
    }
    assert(bytes::u32_at(output, 32) == fields.cursor) by {
        bytes::lemma_u32_round_trip(fields.cursor);
        assert(output.subrange(32, 36) =~= bytes::u32_bytes(fields.cursor));
        bytes::lemma_u32_at_window(output, 32, bytes::u32_bytes(fields.cursor));
    }
    assert(bytes::u32_at(output, 36) == fields.next_cursor) by {
        bytes::lemma_u32_round_trip(fields.next_cursor);
        assert(output.subrange(36, 40) =~= bytes::u32_bytes(fields.next_cursor));
        bytes::lemma_u32_at_window(output, 36, bytes::u32_bytes(fields.next_cursor));
    }
    assert(bytes::u64_at(output, 48) == fields.generation) by {
        bytes::lemma_u64_round_trip(fields.generation);
        assert(output.subrange(48, 56) =~= bytes::u64_bytes(fields.generation));
        bytes::lemma_u64_at_window(output, 48, bytes::u64_bytes(fields.generation));
    }
    assert(output.subrange(44, 48) =~= bytes::zeros(4));
    assert(output.subrange(56, 64) =~= bytes::zeros(8));
}

proof fn lemma_fields_are_canonical(input: Seq<u8>)
    requires
        Fields::parsed(input) is Ok,
    ensures
        Fields::parsed(input)->Ok_0.encoded() == input,
{
    let fields = Fields::at(input);
    assert(bytes::u16_bytes(CONTROL_WIRE_VERSION) == input.subrange(4, 6)) by {
        bytes::lemma_u16_at_bytes(input, 4);
    }
    assert(bytes::u64_bytes(fields.request_id) == input.subrange(8, 16)) by {
        bytes::lemma_u64_at_bytes(input, 8);
    }
    assert(fields.service.bytes() == input.subrange(16, 32)) by {
        identity::lemma_service_at_bytes(input, 16);
    }
    assert(bytes::u32_bytes(fields.cursor) == input.subrange(32, 36)) by {
        bytes::lemma_u32_at_bytes(input, 32);
    }
    assert(bytes::u32_bytes(fields.next_cursor) == input.subrange(36, 40)) by {
        bytes::lemma_u32_at_bytes(input, 36);
    }
    assert(bytes::u64_bytes(fields.generation) == input.subrange(48, 56)) by {
        bytes::lemma_u64_at_bytes(input, 48);
    }
    lemma_message_parts(input);
}

/// What the fields of a success say of a service.
pub open spec fn record_in(fields: Fields) -> Result<ServiceRecord, DecodeError> {
    match (ObservedState::from_raw(fields.observed), DesiredState::from_raw(fields.desired)) {
        (None, _) => Err(DecodeError::UnknownObservedState),
        (_, None) => Err(DecodeError::UnknownDesiredState),
        (Some(observed), Some(desired)) => match ServiceRecord::built(
            fields.service,
            ProviderGeneration::new(fields.generation),
            observed,
            desired,
        ) {
            Ok(record) => Ok(record),
            Err(_) => Err(DecodeError::InvalidResponse),
        },
    }
}

/// The request that fields hold.
pub open spec fn request_in(fields: Fields, operation: Operation) -> ServiceControlRequest {
    match operation {
        Operation::List => ServiceControlRequest::List { cursor: fields.cursor },
        Operation::Status => ServiceControlRequest::Status { service: fields.service },
        Operation::Start => ServiceControlRequest::Start { service: fields.service },
        Operation::Stop => ServiceControlRequest::Stop { service: fields.service },
        Operation::Restart => ServiceControlRequest::Restart { service: fields.service },
    }
}

/// The response about the list that fields hold.
pub open spec fn list_in(fields: Fields) -> Result<ListResponse, DecodeError> {
    if fields.outcome == OUTCOME_RECORD {
        match record_in(fields) {
            Err(error) => Err(error),
            Ok(record) => if !record.service.valid() {
                Err(DecodeError::InvalidService)
            } else {
                match ListResponse::recorded(fields.cursor, record, fields.next_cursor) {
                    Ok(list) => Ok(list),
                    Err(_) => Err(DecodeError::InvalidResponse),
                }
            },
        }
    } else if fields.outcome == OUTCOME_FAILURE {
        match ServiceControlFailure::from_raw(fields.failure) {
            Some(failure) => Ok(ListResponse::failure(fields.cursor, failure)),
            None => Err(DecodeError::UnknownFailure),
        }
    } else if fields.outcome == OUTCOME_END {
        Ok(ListResponse::end(fields.cursor))
    } else {
        Err(DecodeError::UnknownOutcome)
    }
}

/// The response about one service that fields hold.
pub open spec fn target_in(fields: Fields) -> Result<TargetResponse, DecodeError> {
    if !fields.service.valid() {
        Err(DecodeError::InvalidService)
    } else if fields.outcome == OUTCOME_RECORD {
        match record_in(fields) {
            Err(error) => Err(error),
            Ok(record) => Ok(TargetResponse::success(record)),
        }
    } else if fields.outcome == OUTCOME_FAILURE {
        match ServiceControlFailure::from_raw(fields.failure) {
            Some(failure) => Ok(TargetResponse::failure(fields.service, failure)),
            None => Err(DecodeError::UnknownFailure),
        }
    } else {
        Err(DecodeError::UnknownOutcome)
    }
}

/// A response that is either allowed or contradicts itself.
pub open spec fn allowed(result: Result<ServiceControlResponse, InvalidResponse>) -> Result<
    ServiceControlResponse,
    DecodeError,
> {
    match result {
        Ok(response) => Ok(response),
        Err(_) => Err(DecodeError::InvalidResponse),
    }
}

/// The response that fields hold.
pub open spec fn response_in(fields: Fields, operation: Operation) -> Result<
    ServiceControlResponse,
    DecodeError,
> {
    if operation == Operation::List {
        match list_in(fields) {
            Ok(list) => Ok(ServiceControlResponse::List(list)),
            Err(error) => Err(error),
        }
    } else {
        match target_in(fields) {
            Err(error) => Err(error),
            Ok(target) => match operation {
                Operation::Start => allowed(
                    mutated(ServiceControlResponse::Start(target), target, DesiredState::Running),
                ),
                Operation::Stop => allowed(
                    mutated(ServiceControlResponse::Stop(target), target, DesiredState::Stopped),
                ),
                Operation::Restart => allowed(
                    mutated(ServiceControlResponse::Restart(target), target, DesiredState::Running),
                ),
                _ => Ok(ServiceControlResponse::Status(target)),
            },
        }
    }
}

/// The message that fields hold. Fields that its kind does not use are zero.
pub open spec fn message_in(fields: Fields) -> Result<ServiceControlMessage, DecodeError> {
    match Operation::from_raw(fields.operation) {
        None => Err(DecodeError::UnknownOperation),
        Some(operation) => match RequestId::new(fields.request_id) {
            None => Err(DecodeError::ZeroRequestId),
            Some(request_id) => if fields.kind == KIND_REQUEST {
                let request = request_in(fields, operation);
                if !request.valid() {
                    Err(DecodeError::InvalidService)
                } else {
                    canonical(ServiceControlMessage::Request { request_id, request }, fields)
                }
            } else if fields.kind == KIND_RESPONSE {
                match response_in(fields, operation) {
                    Err(error) => Err(error),
                    Ok(response) => canonical(
                        ServiceControlMessage::Response { request_id, response },
                        fields,
                    ),
                }
            } else {
                Err(DecodeError::UnknownKind)
            },
        },
    }
}

/// The message, if the fields hold nothing else.
pub open spec fn canonical(message: ServiceControlMessage, fields: Fields) -> Result<
    ServiceControlMessage,
    DecodeError,
> {
    if message.fields() == fields {
        Ok(message)
    } else {
        Err(DecodeError::NonzeroReserved)
    }
}

fn read_record(fields: Fields) -> (result: Result<ServiceRecord, DecodeError>)
    ensures
        result == record_in(fields),
{
    let observed = match ObservedState::from_raw(fields.observed) {
        Some(observed) => observed,
        None => {
            return Err(DecodeError::UnknownObservedState);
        },
    };
    let desired = match DesiredState::from_raw(fields.desired) {
        Some(desired) => desired,
        None => {
            return Err(DecodeError::UnknownDesiredState);
        },
    };
    match ServiceRecord::new(
        fields.service,
        ProviderGeneration::new(fields.generation),
        observed,
        desired,
    ) {
        Ok(record) => Ok(record),
        Err(_) => Err(DecodeError::InvalidResponse),
    }
}

fn read_list(fields: Fields) -> (result: Result<ListResponse, DecodeError>)
    ensures
        result == list_in(fields),
{
    if fields.outcome == OUTCOME_RECORD {
        let record = read_record(fields)?;
        if !record.service.is_valid() {
            return Err(DecodeError::InvalidService);
        }
        match ListResponse::record(fields.cursor, record, fields.next_cursor) {
            Ok(list) => Ok(list),
            Err(_) => Err(DecodeError::InvalidResponse),
        }
    } else if fields.outcome == OUTCOME_FAILURE {
        match ServiceControlFailure::from_raw(fields.failure) {
            Some(failure) => Ok(ListResponse::failure(fields.cursor, failure)),
            None => Err(DecodeError::UnknownFailure),
        }
    } else if fields.outcome == OUTCOME_END {
        Ok(ListResponse::end(fields.cursor))
    } else {
        Err(DecodeError::UnknownOutcome)
    }
}

fn read_target(fields: Fields) -> (result: Result<TargetResponse, DecodeError>)
    ensures
        result == target_in(fields),
{
    if !fields.service.is_valid() {
        return Err(DecodeError::InvalidService);
    }
    if fields.outcome == OUTCOME_RECORD {
        let record = read_record(fields)?;
        Ok(TargetResponse::success(record))
    } else if fields.outcome == OUTCOME_FAILURE {
        match ServiceControlFailure::from_raw(fields.failure) {
            Some(failure) => Ok(TargetResponse::failure(fields.service, failure)),
            None => Err(DecodeError::UnknownFailure),
        }
    } else {
        Err(DecodeError::UnknownOutcome)
    }
}

fn read_response(fields: Fields, operation: Operation) -> (result: Result<
    ServiceControlResponse,
    DecodeError,
>)
    ensures
        result == response_in(fields, operation),
{
    if operation == Operation::List {
        let list = read_list(fields)?;
        return Ok(ServiceControlResponse::List(list));
    }
    let target = read_target(fields)?;
    let response = match operation {
        Operation::Start => ServiceControlResponse::start(target),
        Operation::Stop => ServiceControlResponse::stop(target),
        Operation::Restart => ServiceControlResponse::restart(target),
        _ => Ok(ServiceControlResponse::Status(target)),
    };
    match response {
        Ok(response) => Ok(response),
        Err(_) => Err(DecodeError::InvalidResponse),
    }
}

impl ServiceControlMessage {
    /// Whether the message names a request and says nothing contradictory.
    pub open spec fn valid(self) -> bool {
        match self {
            Self::Request { request_id, request } => request_id.raw != 0 && request.valid(),
            Self::Response { request_id, response } => request_id.raw != 0 && response.valid(),
        }
    }

    /// The fields of the message.
    pub open spec fn fields(self) -> Fields {
        match self {
            Self::Request { request_id, request } => {
                let blank = Fields::blank(KIND_REQUEST, request.operation().raw(), request_id.raw);
                match request {
                    ServiceControlRequest::List { cursor } => Fields { cursor, ..blank },
                    ServiceControlRequest::Status { service } => Fields { service, ..blank },
                    ServiceControlRequest::Start { service } => Fields { service, ..blank },
                    ServiceControlRequest::Stop { service } => Fields { service, ..blank },
                    ServiceControlRequest::Restart { service } => Fields { service, ..blank },
                }
            },
            Self::Response { request_id, response } => {
                let blank = Fields::blank(
                    KIND_RESPONSE,
                    response.operation().raw(),
                    request_id.raw,
                );
                match (response, response.target_response()) {
                    (ServiceControlResponse::List(list), _) => match list.outcome {
                        ListOutcome::Record { record, next_cursor } => Fields {
                            cursor: list.cursor,
                            next_cursor,
                            ..blank
                        }.with_record(record),
                        ListOutcome::End => Fields {
                            cursor: list.cursor,
                            outcome: OUTCOME_END,
                            ..blank
                        },
                        ListOutcome::Failure(failure) => Fields {
                            cursor: list.cursor,
                            outcome: OUTCOME_FAILURE,
                            failure: failure.raw(),
                            ..blank
                        },
                    },
                    (_, Some(target)) => match target.outcome {
                        TargetOutcome::Success(record) => blank.with_record(record),
                        TargetOutcome::Failure(failure) => Fields {
                            service: target.service,
                            outcome: OUTCOME_FAILURE,
                            failure: failure.raw(),
                            ..blank
                        },
                    },
                    _ => blank,
                }
            },
        }
    }

    /// The 64 bytes of the message.
    pub open spec fn encoded(self) -> Seq<u8> {
        self.fields().encoded()
    }

    /// The message that bytes hold.
    pub open spec fn parsed(input: Seq<u8>) -> Result<ServiceControlMessage, DecodeError> {
        match Fields::parsed(input) {
            Err(error) => Err(error),
            Ok(fields) => message_in(fields),
        }
    }

    /// Whether this is a response that answers `request`, and if not why.
    pub open spec fn correlated(self, request: ServiceControlMessage) -> Result<
        (),
        CorrelationError,
    > {
        match (request, self) {
            (Self::Response { .. }, _) => Err(CorrelationError::NotARequest),
            (_, Self::Request { .. }) => Err(CorrelationError::NotAResponse),
            (
                Self::Request { request_id: asked, request },
                Self::Response { request_id: answered, response },
            ) => if asked != answered {
                Err(CorrelationError::RequestIdMismatch)
            } else if request.operation() != response.operation() {
                Err(CorrelationError::OperationMismatch)
            } else {
                match (request, response) {
                    (
                        ServiceControlRequest::List { cursor },
                        ServiceControlResponse::List(list),
                    ) => if cursor == list.cursor {
                        Ok(())
                    } else {
                        Err(CorrelationError::ListCursorMismatch)
                    },
                    _ => if named_service(request) == answered_service(response) {
                        Ok(())
                    } else {
                        Err(CorrelationError::TargetServiceMismatch)
                    },
                }
            },
        }
    }

    #[verifier::allow_in_spec]
    pub fn request(request_id: RequestId, request: ServiceControlRequest) -> Self
        returns
            (ServiceControlMessage::Request { request_id, request }),
    {
        Self::Request { request_id, request }
    }

    #[verifier::allow_in_spec]
    pub fn response(request_id: RequestId, response: ServiceControlResponse) -> Self
        returns
            (ServiceControlMessage::Response { request_id, response }),
    {
        Self::Response { request_id, response }
    }

    fn to_fields(self) -> (fields: Fields)
        ensures
            fields == self.fields(),
    {
        match self {
            Self::Request { request_id, request } => {
                let blank = Fields::blank(
                    KIND_REQUEST,
                    request.operation().raw(),
                    request_id.get(),
                );
                match request {
                    ServiceControlRequest::List { cursor } => Fields { cursor, ..blank },
                    ServiceControlRequest::Status { service } => Fields { service, ..blank },
                    ServiceControlRequest::Start { service } => Fields { service, ..blank },
                    ServiceControlRequest::Stop { service } => Fields { service, ..blank },
                    ServiceControlRequest::Restart { service } => Fields { service, ..blank },
                }
            },
            Self::Response { request_id, response } => {
                let blank = Fields::blank(
                    KIND_RESPONSE,
                    response.operation().raw(),
                    request_id.get(),
                );
                match (response, response.target_response()) {
                    (ServiceControlResponse::List(list), _) => match list.outcome {
                        ListOutcome::Record { record, next_cursor } => {
                            let placed = Fields { cursor: list.cursor, next_cursor, ..blank };
                            placed.with_record(record)
                        },
                        ListOutcome::End => Fields {
                            cursor: list.cursor,
                            outcome: OUTCOME_END,
                            ..blank
                        },
                        ListOutcome::Failure(failure) => Fields {
                            cursor: list.cursor,
                            outcome: OUTCOME_FAILURE,
                            failure: failure.raw(),
                            ..blank
                        },
                    },
                    (_, Some(target)) => match target.outcome {
                        TargetOutcome::Success(record) => blank.with_record(record),
                        TargetOutcome::Failure(failure) => Fields {
                            service: target.service,
                            outcome: OUTCOME_FAILURE,
                            failure: failure.raw(),
                            ..blank
                        },
                    },
                    _ => blank,
                }
            },
        }
    }

    pub fn encode(self) -> (output: [u8; SERVICE_CONTROL_WIRE_BYTES])
        ensures
            output@ == self.encoded(),
    {
        self.to_fields().encode()
    }

    pub fn decode(input: &[u8]) -> (result: Result<Self, DecodeError>)
        ensures
            result == Self::parsed(input@),
    {
        let fields = Fields::decode(input)?;
        let operation = match Operation::from_raw(fields.operation) {
            Some(operation) => operation,
            None => {
                return Err(DecodeError::UnknownOperation);
            },
        };
        let request_id = match RequestId::new(fields.request_id) {
            Some(request_id) => request_id,
            None => {
                return Err(DecodeError::ZeroRequestId);
            },
        };
        let message = if fields.kind == KIND_REQUEST {
            let service = fields.service;
            let request = match operation {
                Operation::List => ServiceControlRequest::List { cursor: fields.cursor },
                Operation::Status => ServiceControlRequest::Status { service },
                Operation::Start => ServiceControlRequest::Start { service },
                Operation::Stop => ServiceControlRequest::Stop { service },
                Operation::Restart => ServiceControlRequest::Restart { service },
            };
            if operation != Operation::List && !service.is_valid() {
                return Err(DecodeError::InvalidService);
            }
            Self::Request { request_id, request }
        } else if fields.kind == KIND_RESPONSE {
            Self::Response { request_id, response: read_response(fields, operation)? }
        } else {
            return Err(DecodeError::UnknownKind);
        };
        if message.to_fields() == fields {
            Ok(message)
        } else {
            Err(DecodeError::NonzeroReserved)
        }
    }

    pub fn validate_response_to(self, request: &Self) -> (result: Result<(), CorrelationError>)
        ensures
            result == self.correlated(*request),
    {
        match (*request, self) {
            (Self::Response { .. }, _) => Err(CorrelationError::NotARequest),
            (_, Self::Request { .. }) => Err(CorrelationError::NotAResponse),
            (
                Self::Request { request_id: asked, request },
                Self::Response { request_id: answered, response },
            ) => {
                if asked != answered {
                    return Err(CorrelationError::RequestIdMismatch);
                }
                if request.operation() != response.operation() {
                    return Err(CorrelationError::OperationMismatch);
                }
                match (request, response) {
                    (
                        ServiceControlRequest::List { cursor },
                        ServiceControlResponse::List(list),
                    ) => if cursor == list.cursor {
                        Ok(())
                    } else {
                        Err(CorrelationError::ListCursorMismatch)
                    },
                    _ => if named_service(request) == answered_service(response) {
                        Ok(())
                    } else {
                        Err(CorrelationError::TargetServiceMismatch)
                    },
                }
            },
        }
    }
}

/// The service that a request names.
#[verifier::allow_in_spec]
pub fn named_service(request: ServiceControlRequest) -> ServiceId
    returns
        (match request {
            ServiceControlRequest::List { .. } => no_service(),
            ServiceControlRequest::Status { service } => service,
            ServiceControlRequest::Start { service } => service,
            ServiceControlRequest::Stop { service } => service,
            ServiceControlRequest::Restart { service } => service,
        }),
{
    match request {
        ServiceControlRequest::List { .. } => no_service(),
        ServiceControlRequest::Status { service } => service,
        ServiceControlRequest::Start { service } => service,
        ServiceControlRequest::Stop { service } => service,
        ServiceControlRequest::Restart { service } => service,
    }
}

/// The service that a response is about.
#[verifier::allow_in_spec]
pub fn answered_service(response: ServiceControlResponse) -> ServiceId
    returns
        (match response.target_response() {
            Some(target) => target.service,
            None => no_service(),
        }),
{
    match response.target_response() {
        Some(target) => target.service,
        None => no_service(),
    }
}

/// Decoding an encoded message gives the message back.
pub proof fn lemma_control_message_round_trip(message: ServiceControlMessage)
    requires
        message.valid(),
    ensures
        message.encoded().len() == SERVICE_CONTROL_WIRE_BYTES,
        ServiceControlMessage::parsed(message.encoded()) == Ok::<_, DecodeError>(message),
{
    lemma_field_lengths(message.fields());
    lemma_fields_round_trip(message.fields());
}

#[verifier::spinoff_prover]
#[verifier::rlimit(40)]
proof fn lemma_message_keeps_the_fields(fields: Fields)
    ensures
        message_in(fields) matches Ok(message) ==> message.fields() == fields && message.valid(),
{
}

/// Only the canonical bytes of a message decode, and only to a valid message: encoding what was
/// decoded gives the same bytes.
pub proof fn lemma_control_message_is_canonical(input: Seq<u8>)
    requires
        ServiceControlMessage::parsed(input) is Ok,
    ensures
        ServiceControlMessage::parsed(input)->Ok_0.encoded() == input,
        ServiceControlMessage::parsed(input)->Ok_0.valid(),
{
    lemma_fields_are_canonical(input);
    lemma_message_keeps_the_fields(Fields::at(input));
}

/// A message answers a request only with the request's own number, operation and target.
pub proof fn lemma_correlated_response_answers_the_request(
    message: ServiceControlMessage,
    request: ServiceControlMessage,
)
    requires
        message.correlated(request) is Ok,
    ensures
        request matches ServiceControlMessage::Request { request_id, request } && (message
            == ServiceControlMessage::Response { request_id, response: message->response }
            && message->response.operation() == request.operation() && answered_service(
            message->response,
        ) == named_service(request)),
{
}

} // verus!
