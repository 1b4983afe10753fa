//! Service routes: the messages that ask for one and hand one over, and the table of providers.
//!
//! A provider publishes a route under a key and a generation. Generations of a key only grow, and
//! a withdrawn route leaves a tombstone: what was withdrawn can never be published again.

use crate::bytes;
use crate::bytes::{all_zero, copy_into, equal, get_u16, get_u32, get_u64, put_u16, put_u32, put_u64};
use crate::identity;
use crate::identity::{ProviderGeneration, RoleId, RouteKey, ServiceId};
use vstd::prelude::*;

verus! {

pub const SERVICE_ROUTE_WIRE_BYTES: usize = 40;

/// `NSVR`.
pub const ROUTE_MAGIC: [u8; 4] = [0x4e, 0x53, 0x56, 0x52];

pub const ROUTE_WIRE_VERSION: u16 = 1;

pub const ROUTE_KIND_REQUEST: u8 = 1;

pub const ROUTE_KIND_ACCEPTED: u8 = 2;

pub const ROUTE_KIND_FAILURE: u8 = 3;

/// Why a broker does not hand over a route.
#[derive(Clone, Copy, Debug, PartialEq, Eq, Structural)]
pub enum RouteFailure {
    Unauthorized,
    Unavailable,
    IssuerCapacity,
}

impl RouteFailure {
    #[verifier::allow_in_spec]
    pub fn raw(self) -> u8
        returns
            (match self {
                Self::Unauthorized => 1u8,
                Self::Unavailable => 2u8,
                Self::IssuerCapacity => 3u8,
            }),
    {
        match self {
            Self::Unauthorized => 1,
            Self::Unavailable => 2,
            Self::IssuerCapacity => 3,
        }
    }

    #[verifier::allow_in_spec]
    pub fn from_raw(raw: u8) -> Option<Self>
        returns
            (if raw == 1 {
                Some(Self::Unauthorized)
            } else if raw == 2 {
                Some(Self::Unavailable)
            } else if raw == 3 {
                Some(Self::IssuerCapacity)
            } else {
                None
            }),
    {
        match raw {
            1 => Some(Self::Unauthorized),
            2 => Some(Self::Unavailable),
            3 => Some(Self::IssuerCapacity),
            _ => None,
        }
    }
}

/// Why bytes are no route message.
#[derive(Clone, Copy, Debug, PartialEq, Eq, Structural)]
pub enum DecodeError {
    InvalidLength,
    InvalidMagic,
    UnsupportedVersion,
    UnknownKind,
    InvalidService,
    InvalidRole,
    NonzeroReserved,
    UnknownFailure,
    UnexpectedFailure,
    GenerationRequired,
    UnexpectedGeneration,
}

/// A request for a route, or the answer to one. Every message names the route.
#[derive(Clone, Copy, Debug, PartialEq, Eq, Structural)]
pub enum RouteMessage {
    Request { key: RouteKey },
    Accepted { key: RouteKey, generation: ProviderGeneration },
    Failure { key: RouteKey, failure: RouteFailure },
}

/// The bytes of a message with these fields.
pub open spec fn route_bytes(kind: u8, failure: u8, key: RouteKey, generation: u64) -> Seq<u8> {
    ROUTE_MAGIC@ + bytes::u16_bytes(ROUTE_WIRE_VERSION) + seq![kind, failure] + key.service.bytes()
        + bytes::u32_bytes(key.role.raw) + bytes::zeros(4) + bytes::u64_bytes(generation)
}

impl RouteMessage {
    #[verifier::allow_in_spec]
    pub fn key(self) -> RouteKey
        returns
            (match self {
                Self::Request { key } => key,
                Self::Accepted { key, .. } => key,
                Self::Failure { key, .. } => key,
            }),
    {
        match self {
            Self::Request { key } => key,
            Self::Accepted { key, .. } => key,
            Self::Failure { key, .. } => key,
        }
    }

    /// Whether the message names a route, and a generation where one is due.
    pub open spec fn valid(self) -> bool {
        &&& self.key().valid()
        &&& self matches Self::Accepted { generation, .. } ==> generation.raw != 0
    }

    /// The bytes of the message.
    pub open spec fn encoded(self) -> Seq<u8> {
        match self {
            Self::Request { key } => route_bytes(ROUTE_KIND_REQUEST, 0, key, 0),
            Self::Accepted { key, generation } => route_bytes(
                ROUTE_KIND_ACCEPTED,
                0,
                key,
                generation.raw,
            ),
            Self::Failure { key, failure } => route_bytes(
                ROUTE_KIND_FAILURE,
                failure.raw(),
                key,
                0,
            ),
        }
    }

    /// The message that bytes hold.
    pub open spec fn parsed(input: Seq<u8>) -> Result<RouteMessage, DecodeError> {
        if input.len() != SERVICE_ROUTE_WIRE_BYTES {
            Err(DecodeError::InvalidLength)
        } else if input.take(4) != ROUTE_MAGIC@ {
            Err(DecodeError::InvalidMagic)
        } else if bytes::u16_at(input, 4) != ROUTE_WIRE_VERSION {
            Err(DecodeError::UnsupportedVersion)
        } else if !ServiceId::at(input, 8).valid() {
            Err(DecodeError::InvalidService)
        } else if bytes::u32_at(input, 24) == 0 {
            Err(DecodeError::InvalidRole)
        } else if input.subrange(28, 32) != bytes::zeros(4) {
            Err(DecodeError::NonzeroReserved)
        } else {
            let key = RouteKey {
                service: ServiceId::at(input, 8),
                role: RoleId { raw: bytes::u32_at(input, 24) },
            };
            let failure = input[7];
            let generation = bytes::u64_at(input, 32);
            if input[6] == ROUTE_KIND_REQUEST {
                if failure != 0 {
                    Err(DecodeError::UnexpectedFailure)
                } else if generation != 0 {
                    Err(DecodeError::UnexpectedGeneration)
                } else {
                    Ok(Self::Request { key })
                }
            } else if input[6] == ROUTE_KIND_ACCEPTED {
                if failure != 0 {
                    Err(DecodeError::UnexpectedFailure)
                } else if generation == 0 {
                    Err(DecodeError::GenerationRequired)
                } else {
                    Ok(Self::Accepted { key, generation: ProviderGeneration { raw: generation } })
                }
            } else if input[6] == ROUTE_KIND_FAILURE {
                match RouteFailure::from_raw(failure) {
                    None => Err(DecodeError::UnknownFailure),
                    Some(failure) => if generation != 0 {
                        Err(DecodeError::UnexpectedGeneration)
                    } else {
                        Ok(Self::Failure { key, failure })
                    },
                }
            } else {
                Err(DecodeError::UnknownKind)
            }
        }
    }

    pub fn encode(self) -> (output: [u8; SERVICE_ROUTE_WIRE_BYTES])
        ensures
            output@ == self.encoded(),
    {
        let (kind, failure, generation): (u8, u8, u64) = match self {
            Self::Request { .. } => (ROUTE_KIND_REQUEST, 0, 0),
            Self::Accepted { generation, .. } => (ROUTE_KIND_ACCEPTED, 0, generation.get()),
            Self::Failure { failure, .. } => (ROUTE_KIND_FAILURE, failure.raw(), 0),
        };
        let key = self.key();
        let service = key.service.as_bytes();
        let mut output: [u8; SERVICE_ROUTE_WIRE_BYTES] = [0;SERVICE_ROUTE_WIRE_BYTES];
        copy_into(&mut output, 0, &ROUTE_MAGIC);
        put_u16(&mut output, 4, ROUTE_WIRE_VERSION);
        output[6] = kind;
        output[7] = failure;
        copy_into(&mut output, 8, &service);
        put_u32(&mut output, 24, key.role.get());
        put_u64(&mut output, 32, generation);
        proof {
            lemma_route_lengths(kind, failure, key, generation);
            assert(output@ =~= route_bytes(kind, failure, key, generation));
        }
        output
    }

    pub fn decode(input: &[u8]) -> (result: Result<Self, DecodeError>)
        ensures
            result == Self::parsed(input@),
    {
        if input.len() != SERVICE_ROUTE_WIRE_BYTES {
            return Err(DecodeError::InvalidLength);
        }
        assert(input@.subrange(0, 4) =~= input@.take(4));
        if !equal(&input[0..4], &ROUTE_MAGIC) {
            return Err(DecodeError::InvalidMagic);
        }
        if get_u16(input, 4) != ROUTE_WIRE_VERSION {
            return Err(DecodeError::UnsupportedVersion);
        }
        let service = ServiceId { first: get_u64(input, 8), second: get_u64(input, 16) };
        if !service.is_valid() {
            return Err(DecodeError::InvalidService);
        }
        let role = match RoleId::new(get_u32(input, 24)) {
            Some(role) => role,
            None => {
                return Err(DecodeError::InvalidRole);
            },
        };
        if !all_zero(input, 28, 32) {
            return Err(DecodeError::NonzeroReserved);
        }
        let key = RouteKey::new(service, role);
        let kind: u8 = input[6];
        let failure: u8 = input[7];
        let generation: u64 = get_u64(input, 32);
        if kind == ROUTE_KIND_REQUEST {
            if failure != 0 {
                return Err(DecodeError::UnexpectedFailure);
            }
            if generation != 0 {
                return Err(DecodeError::UnexpectedGeneration);
            }
            Ok(Self::Request { key })
        } else if kind == ROUTE_KIND_ACCEPTED {
            if failure != 0 {
                return Err(DecodeError::UnexpectedFailure);
            }
            match ProviderGeneration::new(generation) {
                None => Err(DecodeError::GenerationRequired),
                Some(generation) => Ok(Self::Accepted { key, generation }),
            }
        } else if kind == ROUTE_KIND_FAILURE {
            match RouteFailure::from_raw(failure) {
                None => Err(DecodeError::UnknownFailure),
                Some(failure) => {
                    if generation != 0 {
                        return Err(DecodeError::UnexpectedGeneration);
                    }
                    Ok(Self::Failure { key, failure })
                },
            }
        } else {
            Err(DecodeError::UnknownKind)
        }
    }
}

proof fn lemma_route_lengths(kind: u8, failure: u8, key: RouteKey, generation: u64)
    ensures
        bytes::u16_bytes(ROUTE_WIRE_VERSION).len() == 2,
        key.service.bytes().len() == 16,
        bytes::u32_bytes(key.role.raw).len() == 4,
        bytes::u64_bytes(generation).len() == 8,
        route_bytes(kind, failure, key, generation).len() == SERVICE_ROUTE_WIRE_BYTES,
{
    assert(key.service.bytes().len() == 16) by {
        bytes::lemma_integer_lengths(0, 0, key.service.first);
        bytes::lemma_integer_lengths(0, 0, key.service.second);
    }
    bytes::lemma_integer_lengths(ROUTE_WIRE_VERSION, key.role.raw, generation);
}

proof fn lemma_route_fields(kind: u8, failure: u8, key: RouteKey, generation: u64)
    ensures
        ({
            let output = route_bytes(kind, failure, key, generation);
            &&& output.len() == SERVICE_ROUTE_WIRE_BYTES
            &&& output.take(4) == ROUTE_MAGIC@
            &&& bytes::u16_at(output, 4) == ROUTE_WIRE_VERSION
            &&& output[6] == kind
            &&& output[7] == failure
            &&& ServiceId::at(output, 8) == key.service
            &&& bytes::u32_at(output, 24) == key.role.raw
            &&& output.subrange(28, 32) == bytes::zeros(4)
            &&& bytes::u64_at(output, 32) == generation
        }),
{
    let output = route_bytes(kind, failure, key, generation);
    lemma_route_lengths(kind, failure, key, generation);
    assert(output.take(4) =~= ROUTE_MAGIC@);
    assert(bytes::u16_at(output, 4) == ROUTE_WIRE_VERSION) by {
        bytes::lemma_u16_round_trip(ROUTE_WIRE_VERSION);
        assert(output.subrange(4, 6) =~= bytes::u16_bytes(ROUTE_WIRE_VERSION));
        bytes::lemma_u16_at_window(output, 4, bytes::u16_bytes(ROUTE_WIRE_VERSION));
    }
    assert(ServiceId::at(output, 8) == key.service) by {
        assert(output.subrange(8, 24) =~= key.service.bytes());
        identity::lemma_service_at_window(output, 8, key.service);
    }
    assert(bytes::u32_at(output, 24) == key.role.raw) by {
        bytes::lemma_u32_round_trip(key.role.raw);
        assert(output.subrange(24, 28) =~= bytes::u32_bytes(key.role.raw));
        bytes::lemma_u32_at_window(output, 24, bytes::u32_bytes(key.role.raw));
    }
    assert(output.subrange(28, 32) =~= bytes::zeros(4));
    assert(bytes::u64_at(output, 32) == generation) by {
        bytes::lemma_u64_round_trip(generation);
        assert(output.subrange(32, 40) =~= bytes::u64_bytes(generation));
        bytes::lemma_u64_at_window(output, 32, bytes::u64_bytes(generation));
    }
}

/// Decoding an encoded message gives the message back.
pub proof fn lemma_route_message_round_trip(message: RouteMessage)
    requires
        message.valid(),
    ensures
        message.encoded().len() == SERVICE_ROUTE_WIRE_BYTES,
        RouteMessage::parsed(message.encoded()) == Ok::<_, DecodeError>(message),
{
    match message {
        RouteMessage::Request { key } => lemma_route_fields(ROUTE_KIND_REQUEST, 0, key, 0),
        RouteMessage::Accepted { key, generation } => lemma_route_fields(
            ROUTE_KIND_ACCEPTED,
            0,
            key,
            generation.raw,
        ),
        RouteMessage::Failure { key, failure } => lemma_route_fields(
            ROUTE_KIND_FAILURE,
            failure.raw(),
            key,
            0,
        ),
    }
}

proof fn lemma_route_parts(input: Seq<u8>)
    requires
        input.len() == SERVICE_ROUTE_WIRE_BYTES,
    ensures
        input == input.take(4) + input.subrange(4, 6) + seq![input[6], input[7]] + input.subrange(
            8,
            24,
        ) + input.subrange(24, 28) + input.subrange(28, 32) + input.subrange(32, 40),
{
}

/// Only the canonical bytes of a message decode, and only to a valid message: encoding what was
/// decoded gives the same bytes.
pub proof fn lemma_route_message_is_canonical(input: Seq<u8>)
    requires
        RouteMessage::parsed(input) is Ok,
    ensures
        RouteMessage::parsed(input)->Ok_0.valid(),
        RouteMessage::parsed(input)->Ok_0.encoded() == input,
{
    let service = ServiceId::at(input, 8);
    let role = bytes::u32_at(input, 24);
    let generation = bytes::u64_at(input, 32);
    assert(bytes::u16_bytes(ROUTE_WIRE_VERSION) == input.subrange(4, 6)) by {
        bytes::lemma_u16_at_bytes(input, 4);
    }
    assert(service.bytes() == input.subrange(8, 24)) by {
        identity::lemma_service_at_bytes(input, 8);
    }
    assert(bytes::u32_bytes(role) == input.subrange(24, 28)) by {
        bytes::lemma_u32_at_bytes(input, 24);
    }
    assert(bytes::u64_bytes(generation) == input.subrange(32, 40)) by {
        bytes::lemma_u64_at_bytes(input, 32);
    }
    lemma_route_parts(input);
}

pub const SERVICE_GENERATION_WIRE_BYTES: usize = 16;

/// `NSGN`.
pub const HANDOFF_MAGIC: [u8; 4] = [0x4e, 0x53, 0x47, 0x4e];

pub const HANDOFF_WIRE_VERSION: u16 = 1;

/// Why bytes are no generation handoff.
#[derive(Clone, Copy, Debug, PartialEq, Eq, Structural)]
pub enum ServiceGenerationDecodeError {
    InvalidLength,
    InvalidMagic,
    UnsupportedVersion,
    NonzeroReserved,
    ZeroGeneration,
}

/// Tells a service which generation it provides.
#[derive(Clone, Copy, Debug, PartialEq, Eq, Structural)]
pub struct ServiceGenerationHandoff {
    pub generation: ProviderGeneration,
}

impl ServiceGenerationHandoff {
    /// The bytes of the handoff.
    pub open spec fn encoded(self) -> Seq<u8> {
        HANDOFF_MAGIC@ + bytes::u16_bytes(HANDOFF_WIRE_VERSION) + bytes::zeros(2)
            + bytes::u64_bytes(self.generation.raw)
    }

    /// The handoff that bytes hold.
    pub open spec fn parsed(input: Seq<u8>) -> Result<
        ServiceGenerationHandoff,
        ServiceGenerationDecodeError,
    > {
        if input.len() != SERVICE_GENERATION_WIRE_BYTES {
            Err(ServiceGenerationDecodeError::InvalidLength)
        } else if input.take(4) != HANDOFF_MAGIC@ {
            Err(ServiceGenerationDecodeError::InvalidMagic)
        } else if bytes::u16_at(input, 4) != HANDOFF_WIRE_VERSION {
            Err(ServiceGenerationDecodeError::UnsupportedVersion)
        } else if input.subrange(6, 8) != bytes::zeros(2) {
            Err(ServiceGenerationDecodeError::NonzeroReserved)
        } else if bytes::u64_at(input, 8) == 0 {
            Err(ServiceGenerationDecodeError::ZeroGeneration)
        } else {
            Ok(
                ServiceGenerationHandoff {
                    generation: ProviderGeneration { raw: bytes::u64_at(input, 8) },
                },
            )
        }
    }

    #[verifier::allow_in_spec]
    pub fn new(generation: ProviderGeneration) -> Self
        returns
            (ServiceGenerationHandoff { generation }),
    {
        ServiceGenerationHandoff { generation }
    }

    pub fn generation(self) -> (generation: ProviderGeneration)
        ensures
            generation == self.generation,
    {
        self.generation
    }

    pub fn encode(self) -> (output: [u8; SERVICE_GENERATION_WIRE_BYTES])
        ensures
            output@ == self.encoded(),
    {
        let mut output: [u8; SERVICE_GENERATION_WIRE_BYTES] = [0;SERVICE_GENERATION_WIRE_BYTES];
        copy_into(&mut output, 0, &HANDOFF_MAGIC);
        put_u16(&mut output, 4, HANDOFF_WIRE_VERSION);
        put_u64(&mut output, 8, self.generation.get());
        proof {
            bytes::lemma_integer_lengths(HANDOFF_WIRE_VERSION, 0, self.generation.raw);
            assert(output@ =~= self.encoded());
        }
        output
    }

    pub fn decode(input: &[u8]) -> (result: Result<Self, ServiceGenerationDecodeError>)
        ensures
            result == Self::parsed(input@),
    {
        if input.len() != SERVICE_GENERATION_WIRE_BYTES {
            return Err(ServiceGenerationDecodeError::InvalidLength);
        }
        assert(input@.subrange(0, 4) =~= input@.take(4));
        if !equal(&input[0..4], &HANDOFF_MAGIC) {
            return Err(ServiceGenerationDecodeError::InvalidMagic);
        }
        if get_u16(input, 4) != HANDOFF_WIRE_VERSION {
            return Err(ServiceGenerationDecodeError::UnsupportedVersion);
        }
        if !all_zero(input, 6, 8) {
            return Err(ServiceGenerationDecodeError::NonzeroReserved);
        }
        match ProviderGeneration::new(get_u64(input, 8)) {
            Some(generation) => Ok(ServiceGenerationHandoff { generation }),
            None => Err(ServiceGenerationDecodeError::ZeroGeneration),
        }
    }
}

/// Decoding an encoded handoff gives the handoff back.
pub proof fn lemma_handoff_round_trip(handoff: ServiceGenerationHandoff)
    requires
        handoff.generation.raw != 0,
    ensures
        handoff.encoded().len() == SERVICE_GENERATION_WIRE_BYTES,
        ServiceGenerationHandoff::parsed(handoff.encoded()) == Ok::<
            _,
            ServiceGenerationDecodeError,
        >(handoff),
{
    let output = handoff.encoded();
    let generation = handoff.generation.raw;
    bytes::lemma_integer_lengths(HANDOFF_WIRE_VERSION, 0, generation);
    assert(output.take(4) =~= HANDOFF_MAGIC@);
    assert(bytes::u16_at(output, 4) == HANDOFF_WIRE_VERSION) by {
        bytes::lemma_u16_round_trip(HANDOFF_WIRE_VERSION);
        assert(output.subrange(4, 6) =~= bytes::u16_bytes(HANDOFF_WIRE_VERSION));
        bytes::lemma_u16_at_window(output, 4, bytes::u16_bytes(HANDOFF_WIRE_VERSION));
    }
    assert(output.subrange(6, 8) =~= bytes::zeros(2));
    assert(bytes::u64_at(output, 8) == generation) by {
        bytes::lemma_u64_round_trip(generation);
        assert(output.subrange(8, 16) =~= bytes::u64_bytes(generation));
        bytes::lemma_u64_at_window(output, 8, bytes::u64_bytes(generation));
    }
}

/// Only the canonical bytes of a handoff decode.
pub proof fn lemma_handoff_is_canonical(input: Seq<u8>)
    requires
        ServiceGenerationHandoff::parsed(input) is Ok,
    ensures
        ServiceGenerationHandoff::parsed(input)->Ok_0.generation.raw != 0,
        ServiceGenerationHandoff::parsed(input)->Ok_0.encoded() == input,
{
    let generation = bytes::u64_at(input, 8);
    assert(bytes::u16_bytes(HANDOFF_WIRE_VERSION) == input.subrange(4, 6)) by {
        bytes::lemma_u16_at_bytes(input, 4);
    }
    assert(bytes::u64_bytes(generation) == input.subrange(8, 16)) by {
        bytes::lemma_u64_at_bytes(input, 8);
    }
    assert(input =~= input.take(4) + input.subrange(4, 6) + input.subrange(6, 8) + input.subrange(
        8,
        16,
    ));
}

/// What the table remembers of a key: the newest generation, and its authority until that is
/// withdrawn.
#[derive(Clone, Copy, Debug, PartialEq, Eq)]
pub struct Route<H> {
    pub key: RouteKey,
    pub generation: ProviderGeneration,
    pub authority: Option<H>,
}

/// A route that can be handed out.
#[derive(Clone, Copy, Debug, PartialEq, Eq)]
pub struct PublishedRoute<H> {
    pub generation: ProviderGeneration,
    pub authority: H,
}

/// Why a route was not published. The authority is handed back.
#[derive(Clone, Copy, Debug, PartialEq, Eq)]
pub enum PublishError<H> {
    Capacity { authority: H },
    GenerationNotNewer { authority: H, current_generation: ProviderGeneration },
}

/// Why a route was not withdrawn.
#[derive(Clone, Copy, Debug, PartialEq, Eq, Structural)]
pub enum WithdrawError {
    UnknownRoute,
    GenerationMismatch { current_generation: ProviderGeneration },
    AlreadyWithdrawn,
}

/// Where the key stands, looking from `from`, or the number of routes.
pub open spec fn place_of<H>(routes: Seq<Route<H>>, key: RouteKey, from: int) -> int
    decreases routes.len() - from,
{
    if from >= routes.len() {
        routes.len() as int
    } else if routes[from].key == key {
        from
    } else {
        place_of(routes, key, from + 1)
    }
}

/// What the table remembers of `key`.
pub open spec fn route_of<H>(routes: Seq<Route<H>>, key: RouteKey) -> Option<Route<H>> {
    let place = place_of(routes, key, 0);
    if place < routes.len() {
        Some(routes[place])
    } else {
        None
    }
}

/// The newest generation of `key` that the table has seen.
pub open spec fn generation_of<H>(routes: Seq<Route<H>>, key: RouteKey) -> Option<
    ProviderGeneration,
> {
    match route_of(routes, key) {
        Some(route) => Some(route.generation),
        None => None,
    }
}

/// The route under `key`, unless it was withdrawn or never published.
pub open spec fn active_route<H>(routes: Seq<Route<H>>, key: RouteKey) -> Option<
    PublishedRoute<H>,
> {
    match route_of(routes, key) {
        Some(route) => match route.authority {
            Some(authority) => Some(PublishedRoute { generation: route.generation, authority }),
            None => None,
        },
        None => None,
    }
}

/// How many routes are published among the first `count`.
pub open spec fn active_count<H>(routes: Seq<Route<H>>, count: int) -> nat
    decreases count,
{
    if count <= 0 {
        0
    } else {
        active_count(routes, count - 1) + if routes[count - 1].authority is Some {
            1nat
        } else {
            0nat
        }
    }
}

/// The table after a route was offered, and what came of it.
pub open spec fn after_publish<H>(
    routes: Seq<Route<H>>,
    capacity: int,
    key: RouteKey,
    generation: ProviderGeneration,
    authority: H,
) -> (Seq<Route<H>>, Result<Option<H>, PublishError<H>>) {
    let place = place_of(routes, key, 0);
    let route = Route { key, generation, authority: Some(authority) };
    if place < routes.len() {
        let current_generation = routes[place].generation;
        if generation.raw > current_generation.raw {
            (routes.update(place, route), Ok(routes[place].authority))
        } else {
            (routes, Err(PublishError::GenerationNotNewer { authority, current_generation }))
        }
    } else if routes.len() >= capacity {
        (routes, Err(PublishError::Capacity { authority }))
    } else {
        (routes.push(route), Ok(None))
    }
}

/// The table after a route was withdrawn, and the authority that it had.
pub open spec fn after_withdraw<H>(
    routes: Seq<Route<H>>,
    key: RouteKey,
    generation: ProviderGeneration,
) -> (Seq<Route<H>>, Result<H, WithdrawError>) {
    let place = place_of(routes, key, 0);
    if place >= routes.len() {
        (routes, Err(WithdrawError::UnknownRoute))
    } else {
        let route = routes[place];
        if route.generation != generation {
            (
                routes,
                Err(WithdrawError::GenerationMismatch { current_generation: route.generation }),
            )
        } else {
            match route.authority {
                None => (routes, Err(WithdrawError::AlreadyWithdrawn)),
                Some(authority) => (
                    routes.update(place, Route { authority: None, ..route }),
                    Ok(authority),
                ),
            }
        }
    }
}

/// What holds of every table: it is not over its capacity, and no key stands in it twice.
pub open spec fn table_valid<H>(routes: Seq<Route<H>>, capacity: int) -> bool {
    &&& routes.len() <= capacity
    &&& forall|i: int, j: int|
        0 <= i < j < routes.len() ==> #[trigger] routes[i].key != #[trigger] routes[j].key
}

proof fn lemma_place<H>(routes: Seq<Route<H>>, key: RouteKey, from: int)
    requires
        0 <= from <= routes.len(),
    ensures
        from <= place_of(routes, key, from) <= routes.len(),
        place_of(routes, key, from) < routes.len() ==> routes[place_of(routes, key, from)].key
            == key,
        forall|i: int| from <= i < place_of(routes, key, from) ==> #[trigger] routes[i].key != key,
    decreases routes.len() - from,
{
    if from < routes.len() && routes[from].key != key {
        lemma_place(routes, key, from + 1);
    }
}

proof fn lemma_place_is_first<H>(routes: Seq<Route<H>>, key: RouteKey, from: int, place: int)
    requires
        0 <= from <= place <= routes.len(),
        place < routes.len() ==> routes[place].key == key,
        forall|i: int| from <= i < place ==> #[trigger] routes[i].key != key,
    ensures
        place_of(routes, key, from) == place,
    decreases place - from,
{
    if from < place {
        lemma_place_is_first(routes, key, from + 1, place);
    }
}

/// Publishing keeps the table within its capacity and without a second entry for a key.
pub proof fn lemma_publish_keeps_the_table_valid<H>(
    routes: Seq<Route<H>>,
    capacity: int,
    key: RouteKey,
    generation: ProviderGeneration,
    authority: H,
)
    requires
        table_valid(routes, capacity),
    ensures
        table_valid(after_publish(routes, capacity, key, generation, authority).0, capacity),
{
    lemma_place(routes, key, 0);
}

/// Withdrawing keeps the table within its capacity and without a second entry for a key.
pub proof fn lemma_withdraw_keeps_the_table_valid<H>(
    routes: Seq<Route<H>>,
    capacity: int,
    key: RouteKey,
    generation: ProviderGeneration,
)
    requires
        table_valid(routes, capacity),
    ensures
        table_valid(after_withdraw(routes, key, generation).0, capacity),
{
    lemma_place(routes, key, 0);
}

/// A published route is the one that is found, the authority that was there before is handed
/// back, and every other route stays as it was.
pub proof fn lemma_publish_replaces_one_route<H>(
    routes: Seq<Route<H>>,
    capacity: int,
    key: RouteKey,
    generation: ProviderGeneration,
    authority: H,
    other: RouteKey,
)
    requires
        after_publish(routes, capacity, key, generation, authority).1 is Ok,
    ensures
        ({
            let (next, result) = after_publish(routes, capacity, key, generation, authority);
            &&& active_route(next, key) == Some(PublishedRoute { generation, authority })
            &&& result->Ok_0 == match active_route(routes, key) {
                Some(previous) => Some(previous.authority),
                None => None,
            }
            &&& other != key ==> route_of(next, other) == route_of(routes, other)
        }),
{
    let next = after_publish(routes, capacity, key, generation, authority).0;
    lemma_place(routes, key, 0);
    let place = place_of(routes, key, 0);
    assert forall|i: int| 0 <= i < place implies #[trigger] next[i].key != key by {
        assert(next[i] == routes[i]);
    }
    lemma_place_is_first(next, key, 0, place);
    if other != key {
        lemma_place(routes, other, 0);
        let at = place_of(routes, other, 0);
        assert forall|i: int| 0 <= i < at implies #[trigger] next[i].key != other by {
            if i != place {
                assert(next[i] == routes[i]);
            }
        }
        if at < routes.len() {
            lemma_place_is_first(next, other, 0, at);
        } else {
            assert forall|i: int| 0 <= i < next.len() implies #[trigger] next[i].key != other by {
                if i != place {
                    assert(next[i] == routes[i]);
                }
            }
            lemma_place_is_first(next, other, 0, next.len() as int);
        }
    }
}

/// A withdrawn route leaves a tombstone: the route is gone, its generation is remembered, and
/// every other route stays as it was.
pub proof fn lemma_withdraw_leaves_a_tombstone<H>(
    routes: Seq<Route<H>>,
    key: RouteKey,
    generation: ProviderGeneration,
    other: RouteKey,
)
    requires
        after_withdraw(routes, key, generation).1 is Ok,
    ensures
        ({
            let (next, result) = after_withdraw(routes, key, generation);
            &&& active_route(routes, key) == Some(
                PublishedRoute { generation, authority: result->Ok_0 },
            )
            &&& active_route(next, key) is None
            &&& generation_of(next, key) == Some(generation)
            &&& other != key ==> route_of(next, other) == route_of(routes, other)
        }),
{
    let next = after_withdraw(routes, key, generation).0;
    lemma_place(routes, key, 0);
    let place = place_of(routes, key, 0);
    assert forall|i: int| 0 <= i < routes.len() implies #[trigger] next[i].key
        == routes[i].key by {}
    lemma_place_is_first(next, key, 0, place);
    lemma_place(routes, other, 0);
    lemma_place_is_first(next, other, 0, place_of(routes, other, 0));
}

/// What was withdrawn is never published again: a generation that is not newer than the newest
/// one of its key is refused, withdrawn or not.
pub proof fn lemma_generations_of_a_key_only_grow<H>(
    routes: Seq<Route<H>>,
    capacity: int,
    key: RouteKey,
    generation: ProviderGeneration,
    authority: H,
)
    requires
        generation_of(routes, key) is Some,
    ensures
        ({
            let (next, result) = after_publish(routes, capacity, key, generation, authority);
            let current = generation_of(routes, key)->0;
            &&& result is Ok <==> generation.raw > current.raw
            &&& generation.raw <= current.raw ==> next == routes && result == Err::<Option<H>, _>(
                PublishError::GenerationNotNewer { authority, current_generation: current },
            )
        }),
{
}

/// Routes by key, at most `N` of them, tombstones among them.
#[derive(Clone, Debug)]
pub struct RouteTable<H, const N: usize> {
    routes: Vec<Route<H>>,
}

impl<H, const N: usize> View for RouteTable<H, N> {
    type V = Seq<Route<H>>;

    closed spec fn view(&self) -> Seq<Route<H>> {
        self.routes@
    }
}

impl<H: Copy, const N: usize> RouteTable<H, N> {
    pub fn new() -> (table: Self)
        ensures
            table@ == Seq::<Route<H>>::empty(),
            table_valid(table@, N as int),
    {
        RouteTable { routes: Vec::new() }
    }

    pub fn capacity(&self) -> (capacity: usize)
        ensures
            capacity == N,
    {
        N
    }

    /// The routes, tombstones among them.
    pub fn into_routes(self) -> (routes: Vec<Route<H>>)
        ensures
            routes@ == self@,
    {
        self.routes
    }

    /// How many keys the table remembers.
    pub fn len(&self) -> (length: usize)
        ensures
            length == self@.len(),
    {
        self.routes.len()
    }

    pub fn is_empty(&self) -> (empty: bool)
        ensures
            empty == (self@.len() == 0),
    {
        self.routes.len() == 0
    }

    /// How many routes are published.
    pub fn active_len(&self) -> (count: usize)
        ensures
            count == active_count(self@, self@.len() as int),
    {
        let mut index: usize = 0;
        let mut count: usize = 0;
        while index < self.routes.len()
            invariant
                index <= self.routes@.len(),
                count <= index,
                count == active_count(self@, index as int),
            decreases self.routes@.len() - index,
        {
            if self.routes[index].authority.is_some() {
                count += 1;
            }
            index += 1;
        }
        count
    }

    fn place(&self, key: RouteKey) -> (place: usize)
        ensures
            place == place_of(self@, key, 0),
            place <= self@.len(),
    {
        let mut index: usize = 0;
        while index < self.routes.len()
            invariant
                index <= self.routes@.len(),
                place_of(self@, key, 0) == place_of(self@, key, index as int),
            decreases self.routes@.len() - index,
        {
            if self.routes[index].key == key {
                return index;
            }
            index += 1;
        }
        index
    }

    /// The newest generation seen under `key`.
    pub fn generation(&self, key: RouteKey) -> (generation: Option<ProviderGeneration>)
        ensures
            generation == generation_of(self@, key),
    {
        let place: usize = self.place(key);
        if place < self.routes.len() {
            Some(self.routes[place].generation)
        } else {
            None
        }
    }

    /// The route that is published under `key`.
    pub fn get(&self, key: RouteKey) -> (route: Option<PublishedRoute<&H>>)
        ensures
            match route {
                Some(route) => active_route(self@, key) == Some(
                    PublishedRoute { generation: route.generation, authority: *route.authority },
                ),
                None => active_route(self@, key) is None,
            },
    {
        let place: usize = self.place(key);
        if place < self.routes.len() {
            let route = &self.routes[place];
            match &route.authority {
                Some(authority) => Some(
                    PublishedRoute { generation: route.generation, authority },
                ),
                None => None,
            }
        } else {
            None
        }
    }

    /// Publishes a route and gives back the authority that it displaced.
    pub fn publish(&mut self, key: RouteKey, generation: ProviderGeneration, authority: H) -> (result:
        Result<Option<H>, PublishError<H>>)
        ensures
            (final(self)@, result) == after_publish(
                old(self)@,
                N as int,
                key,
                generation,
                authority,
            ),
            table_valid(old(self)@, N as int) ==> table_valid(final(self)@, N as int),
    {
        proof {
            if table_valid(self@, N as int) {
                lemma_publish_keeps_the_table_valid(self@, N as int, key, generation, authority);
            }
        }
        let place: usize = self.place(key);
        let route = Route { key, generation, authority: Some(authority) };
        if place < self.routes.len() {
            let current = self.routes[place];
            if generation.get() > current.generation.get() {
                self.routes.set(place, route);
                Ok(current.authority)
            } else {
                Err(
                    PublishError::GenerationNotNewer {
                        authority,
                        current_generation: current.generation,
                    },
                )
            }
        } else if self.routes.len() >= N {
            Err(PublishError::Capacity { authority })
        } else {
            self.routes.push(route);
            Ok(None)
        }
    }

    /// Withdraws a route and gives its authority back. The generation stays remembered.
    pub fn withdraw(&mut self, key: RouteKey, generation: ProviderGeneration) -> (result: Result<
        H,
        WithdrawError,
    >)
        ensures
            (final(self)@, result) == after_withdraw(old(self)@, key, generation),
            table_valid(old(self)@, N as int) ==> table_valid(final(self)@, N as int),
    {
        proof {
            if table_valid(self@, N as int) {
                lemma_withdraw_keeps_the_table_valid(self@, N as int, key, generation);
            }
        }
        let place: usize = self.place(key);
        if place >= self.routes.len() {
            return Err(WithdrawError::UnknownRoute);
        }
        let current = self.routes[place];
        if current.generation != generation {
            return Err(
                WithdrawError::GenerationMismatch { current_generation: current.generation },
            );
        }
        match current.authority {
            None => Err(WithdrawError::AlreadyWithdrawn),
            Some(authority) => {
                self.routes.set(
                    place,
                    Route { key: current.key, generation: current.generation, authority: None },
                );
                Ok(authority)
            },
        }
    }
}

} // verus!
