//! Identities of services, of their roles, and of the generations that provide them.

use crate::bytes;
use crate::bytes::{get_u64, put_u64};
use vstd::prelude::*;

verus! {

pub const SERVICE_ID_BYTES: usize = 16;

/// Whether sixteen bytes are a random UUID of the RFC 4122 variant.
pub open spec fn is_uuid_v4(bytes: Seq<u8>) -> bool {
    &&& bytes.len() == SERVICE_ID_BYTES
    &&& bytes[6] / 0x10 == 4
    &&& bytes[8] / 0x40 == 2
}

/// The bytes are no random UUID.
#[derive(Clone, Copy, Debug, PartialEq, Eq, Structural)]
pub struct InvalidServiceId;

/// The identity of a service: a random UUID, held as two little-endian halves.
#[derive(Clone, Copy, Debug, PartialEq, Eq, Structural)]
pub struct ServiceId {
    pub first: u64,
    pub second: u64,
}

impl ServiceId {
    /// The sixteen bytes of the identity.
    pub open spec fn bytes(self) -> Seq<u8> {
        bytes::u64_bytes(self.first) + bytes::u64_bytes(self.second)
    }

    /// Whether this is a committed identity.
    pub open spec fn valid(self) -> bool {
        is_uuid_v4(self.bytes())
    }

    /// The identity that stands at `at`, whether it is a committed one or not.
    pub open spec fn at(s: Seq<u8>, at: int) -> ServiceId {
        ServiceId { first: bytes::u64_at(s, at), second: bytes::u64_at(s, at + 8) }
    }

    pub fn as_bytes(self) -> (bytes: [u8; SERVICE_ID_BYTES])
        ensures
            bytes@ == self.bytes(),
    {
        let mut output: [u8; SERVICE_ID_BYTES] = [0;SERVICE_ID_BYTES];
        put_u64(&mut output, 0, self.first);
        put_u64(&mut output, 8, self.second);
        proof {
            bytes::lemma_u64_round_trip(self.first);
            bytes::lemma_u64_round_trip(self.second);
            assert(output@ =~= self.bytes());
        }
        output
    }

    pub fn is_valid(self) -> (valid: bool)
        ensures
            valid == self.valid(),
    {
        let bytes = self.as_bytes();
        bytes[6] / 0x10 == 4 && bytes[8] / 0x40 == 2
    }

    pub fn from_bytes(bytes: [u8; SERVICE_ID_BYTES]) -> (result: Result<Self, InvalidServiceId>)
        ensures
            match result {
                Ok(service) => service.valid() && service.bytes() == bytes@,
                Err(_) => !is_uuid_v4(bytes@),
            },
    {
        let service = ServiceId { first: get_u64(&bytes, 0), second: get_u64(&bytes, 8) };
        proof {
            lemma_service_at_bytes(bytes@, 0);
            assert(bytes@.subrange(0, 16) =~= bytes@);
        }
        if service.is_valid() {
            Ok(service)
        } else {
            Err(InvalidServiceId)
        }
    }
}

/// The bytes of the identity read at `at` are the bytes that stand there.
pub proof fn lemma_service_at_bytes(s: Seq<u8>, at: int)
    requires
        0 <= at,
        at + 16 <= s.len(),
    ensures
        ServiceId::at(s, at).bytes() == s.subrange(at, at + 16),
{
    let first = bytes::u64_bytes(bytes::u64_at(s, at));
    let second = bytes::u64_bytes(bytes::u64_at(s, at + 8));
    assert(first == s.subrange(at, at + 8)) by {
        bytes::lemma_u64_at_bytes(s, at);
    }
    assert(second == s.subrange(at + 8, at + 16)) by {
        bytes::lemma_u64_at_bytes(s, at + 8);
    }
    lemma_halves(s, at);
}

proof fn lemma_halves(s: Seq<u8>, at: int)
    requires
        0 <= at,
        at + 16 <= s.len(),
    ensures
        s.subrange(at, at + 16) == s.subrange(at, at + 8) + s.subrange(at + 8, at + 16),
{
}

/// Reading an identity where its bytes stand gives it back.
pub proof fn lemma_service_at_window(s: Seq<u8>, at: int, service: ServiceId)
    requires
        0 <= at,
        at + 16 <= s.len(),
        s.subrange(at, at + 16) =~= service.bytes(),
    ensures
        ServiceId::at(s, at) == service,
{
    bytes::lemma_u64_round_trip(service.first);
    bytes::lemma_u64_round_trip(service.second);
    let window = service.bytes();
    assert(s.subrange(at, at + 8) =~= window.subrange(0, 8));
    assert(window.subrange(0, 8) =~= bytes::u64_bytes(service.first));
    assert(s.subrange(at + 8, at + 16) =~= window.subrange(8, 16));
    assert(window.subrange(8, 16) =~= bytes::u64_bytes(service.second));
    bytes::lemma_u64_at_window(s, at, bytes::u64_bytes(service.first));
    bytes::lemma_u64_at_window(s, at + 8, bytes::u64_bytes(service.second));
}

/// Two services with the same bytes are the same service.
pub proof fn lemma_service_bytes_are_injective(left: ServiceId, right: ServiceId)
    requires
        left.bytes() == right.bytes(),
    ensures
        left == right,
{
    bytes::lemma_u64_round_trip(left.first);
    bytes::lemma_u64_round_trip(left.second);
    let window = left.bytes();
    assert(window.subrange(0, 16) =~= window);
    lemma_service_at_window(window, 0, left);
    lemma_service_at_window(window, 0, right);
}

/// A role that a service offers. Zero names no role.
#[derive(Clone, Copy, Debug, PartialEq, Eq, Structural)]
pub struct RoleId {
    pub raw: u32,
}

impl RoleId {
    #[verifier::allow_in_spec]
    pub fn new(raw: u32) -> Option<Self>
        returns
            (if raw == 0 {
                None
            } else {
                Some(RoleId { raw })
            }),
    {
        if raw == 0 {
            None
        } else {
            Some(RoleId { raw })
        }
    }

    pub fn get(self) -> (raw: u32)
        ensures
            raw == self.raw,
    {
        self.raw
    }
}

/// One generation of a provider. Zero names no generation.
#[derive(Clone, Copy, Debug, PartialEq, Eq, Structural)]
pub struct ProviderGeneration {
    pub raw: u64,
}

impl ProviderGeneration {
    #[verifier::allow_in_spec]
    pub fn new(raw: u64) -> Option<Self>
        returns
            (if raw == 0 {
                None
            } else {
                Some(ProviderGeneration { raw })
            }),
    {
        if raw == 0 {
            None
        } else {
            Some(ProviderGeneration { raw })
        }
    }

    pub fn get(self) -> (raw: u64)
        ensures
            raw == self.raw,
    {
        self.raw
    }
}

/// Every generation number has been used.
#[derive(Clone, Copy, Debug, PartialEq, Eq, Structural)]
pub struct GenerationExhausted;

/// Hands out generations, each newer than every one before it, until none is left.
///
/// A clone would hand out the same ones: it is there to run a procedure again from the same state.
#[derive(Clone, Debug)]
pub struct ProviderGenerationSequence {
    last: u64,
}

impl View for ProviderGenerationSequence {
    type V = u64;

    /// The newest generation handed out, or zero.
    closed spec fn view(&self) -> u64 {
        self.last
    }
}

impl ProviderGenerationSequence {
    pub fn new() -> (sequence: Self)
        ensures
            sequence@ == 0,
    {
        ProviderGenerationSequence { last: 0 }
    }

    /// The next generation, which is newer than every one before it.
    pub fn next_generation(&mut self) -> (result: Result<ProviderGeneration, GenerationExhausted>)
        ensures
            result == generation_after(old(self)@),
            final(self)@ == sequence_after(old(self)@),
    {
        if self.last == u64::MAX {
            return Err(GenerationExhausted);
        }
        self.last = self.last + 1;
        Ok(ProviderGeneration { raw: self.last })
    }
}

/// The generation that follows `last`, unless the numbers are used up.
pub open spec fn generation_after(last: u64) -> Result<ProviderGeneration, GenerationExhausted> {
    if last == u64::MAX {
        Err(GenerationExhausted)
    } else {
        Ok(ProviderGeneration { raw: (last + 1) as u64 })
    }
}

/// What the newest generation is after one more was asked for.
pub open spec fn sequence_after(last: u64) -> u64 {
    if last == u64::MAX {
        last
    } else {
        (last + 1) as u64
    }
}

/// A generation that is handed out is nonzero and newer than every one before it.
pub proof fn lemma_generations_only_grow(last: u64)
    requires
        generation_after(last) is Ok,
    ensures
        generation_after(last)->Ok_0.raw != 0,
        generation_after(last)->Ok_0.raw > last,
        sequence_after(last) == generation_after(last)->Ok_0.raw,
{
}

/// A role of a service, as routes name it.
#[derive(Clone, Copy, Debug, PartialEq, Eq, Structural)]
pub struct RouteKey {
    pub service: ServiceId,
    pub role: RoleId,
}

impl RouteKey {
    #[verifier::allow_in_spec]
    pub fn new(service: ServiceId, role: RoleId) -> Self
        returns
            (RouteKey { service, role }),
    {
        RouteKey { service, role }
    }

    /// Whether the key names a committed service and a role.
    pub open spec fn valid(self) -> bool {
        self.service.valid() && self.role.raw != 0
    }
}

} // verus!
