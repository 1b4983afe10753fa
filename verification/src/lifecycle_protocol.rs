//! What the first process and a filesystem service say to each other beside file operations: how
//! a volume is unmounted, and how a crash is set up for a test.

use crate::bytes;
use crate::bytes::{copy_into, equal, get_u16, get_u64, put_u16, put_u64};
use vstd::prelude::*;

verus! {

pub const LIFECYCLE_MESSAGE_BYTES: usize = 24;

/// `NFLC`.
pub const LIFECYCLE_MAGIC: [u8; 4] = [0x4e, 0x46, 0x4c, 0x43];

pub const LIFECYCLE_WIRE_VERSION: u16 = 1;

/// Stop taking requests.
pub const QUIESCE: u16 = 1;

/// No more requests are taken.
pub const QUIESCED: u16 = 2;

/// Write everything back and exit.
pub const UNMOUNT: u16 = 3;

/// Everything is written back.
pub const CLEAN_UNMOUNTED: u16 = 4;

/// Why bytes are no message.
#[derive(Clone, Copy, Debug, PartialEq, Eq, Structural)]
pub enum MessageDecodeError {
    InvalidLength,
    InvalidMagic,
    UnsupportedVersion,
    InvalidMessage,
}

/// One step of unmounting a volume.
#[derive(Clone, Copy, Debug, PartialEq, Eq, Structural)]
pub struct LifecycleMessage {
    pub kind: u16,
    pub generation: u64,
    pub transition_id: u64,
}

impl LifecycleMessage {
    /// Whether the message has a known kind and names a generation and a transition.
    pub open spec fn valid(self) -> bool {
        QUIESCE <= self.kind <= CLEAN_UNMOUNTED && self.generation != 0 && self.transition_id != 0
    }

    pub open spec fn encoded(self) -> Seq<u8> {
        LIFECYCLE_MAGIC@ + bytes::u16_bytes(LIFECYCLE_WIRE_VERSION) + bytes::u16_bytes(self.kind)
            + bytes::u64_bytes(self.generation) + bytes::u64_bytes(self.transition_id)
    }

    pub open spec fn parsed(input: Seq<u8>) -> Result<LifecycleMessage, MessageDecodeError> {
        let message = LifecycleMessage {
            kind: bytes::u16_at(input, 6),
            generation: bytes::u64_at(input, 8),
            transition_id: bytes::u64_at(input, 16),
        };
        if input.len() != LIFECYCLE_MESSAGE_BYTES {
            Err(MessageDecodeError::InvalidLength)
        } else if input.take(4) != LIFECYCLE_MAGIC@ {
            Err(MessageDecodeError::InvalidMagic)
        } else if bytes::u16_at(input, 4) != LIFECYCLE_WIRE_VERSION {
            Err(MessageDecodeError::UnsupportedVersion)
        } else if !message.valid() {
            Err(MessageDecodeError::InvalidMessage)
        } else {
            Ok(message)
        }
    }

    pub open spec fn built(kind: u16, generation: u64, transition_id: u64) -> Option<
        LifecycleMessage,
    > {
        let message = LifecycleMessage { kind, generation, transition_id };
        if message.valid() {
            Some(message)
        } else {
            None
        }
    }

    pub fn new(kind: u16, generation: u64, transition_id: u64) -> (message: Option<Self>)
        ensures
            message == Self::built(kind, generation, transition_id),
    {
        if kind < QUIESCE || kind > CLEAN_UNMOUNTED || generation == 0 || transition_id == 0 {
            None
        } else {
            Some(LifecycleMessage { kind, generation, transition_id })
        }
    }

    pub fn encode(self) -> (output: [u8; LIFECYCLE_MESSAGE_BYTES])
        ensures
            output@ == self.encoded(),
    {
        let mut output: [u8; LIFECYCLE_MESSAGE_BYTES] = [0;LIFECYCLE_MESSAGE_BYTES];
        copy_into(&mut output, 0, &LIFECYCLE_MAGIC);
        put_u16(&mut output, 4, LIFECYCLE_WIRE_VERSION);
        put_u16(&mut output, 6, self.kind);
        put_u64(&mut output, 8, self.generation);
        put_u64(&mut output, 16, self.transition_id);
        proof {
            bytes::lemma_integer_lengths(LIFECYCLE_WIRE_VERSION, 0, self.generation);
            bytes::lemma_integer_lengths(self.kind, 0, self.transition_id);
            assert(output@ =~= self.encoded());
        }
        output
    }

    pub fn decode(input: &[u8]) -> (result: Result<Self, MessageDecodeError>)
        ensures
            result == Self::parsed(input@),
    {
        if input.len() != LIFECYCLE_MESSAGE_BYTES {
            return Err(MessageDecodeError::InvalidLength);
        }
        assert(input@.subrange(0, 4) =~= input@.take(4));
        if !equal(&input[0..4], &LIFECYCLE_MAGIC) {
            return Err(MessageDecodeError::InvalidMagic);
        }
        if get_u16(input, 4) != LIFECYCLE_WIRE_VERSION {
            return Err(MessageDecodeError::UnsupportedVersion);
        }
        match LifecycleMessage::new(get_u16(input, 6), get_u64(input, 8), get_u64(input, 16)) {
            Some(message) => Ok(message),
            None => Err(MessageDecodeError::InvalidMessage),
        }
    }
}

/// Decoding an encoded message gives the message back.
pub proof fn lemma_lifecycle_round_trip(message: LifecycleMessage)
    requires
        message.valid(),
    ensures
        message.encoded().len() == LIFECYCLE_MESSAGE_BYTES,
        LifecycleMessage::parsed(message.encoded()) == Ok::<_, MessageDecodeError>(message),
{
    let output = message.encoded();
    bytes::lemma_integer_lengths(LIFECYCLE_WIRE_VERSION, 0, message.generation);
    bytes::lemma_integer_lengths(message.kind, 0, message.transition_id);
    assert(output.take(4) =~= LIFECYCLE_MAGIC@);
    assert(bytes::u16_at(output, 4) == LIFECYCLE_WIRE_VERSION) by {
        bytes::lemma_u16_round_trip(LIFECYCLE_WIRE_VERSION);
        assert(output.subrange(4, 6) =~= bytes::u16_bytes(LIFECYCLE_WIRE_VERSION));
        bytes::lemma_u16_at_window(output, 4, bytes::u16_bytes(LIFECYCLE_WIRE_VERSION));
    }
    assert(bytes::u16_at(output, 6) == message.kind) by {
        bytes::lemma_u16_round_trip(message.kind);
        assert(output.subrange(6, 8) =~= bytes::u16_bytes(message.kind));
        bytes::lemma_u16_at_window(output, 6, bytes::u16_bytes(message.kind));
    }
    assert(bytes::u64_at(output, 8) == message.generation) by {
        bytes::lemma_u64_round_trip(message.generation);
        assert(output.subrange(8, 16) =~= bytes::u64_bytes(message.generation));
        bytes::lemma_u64_at_window(output, 8, bytes::u64_bytes(message.generation));
    }
    assert(bytes::u64_at(output, 16) == message.transition_id) by {
        bytes::lemma_u64_round_trip(message.transition_id);
        assert(output.subrange(16, 24) =~= bytes::u64_bytes(message.transition_id));
        bytes::lemma_u64_at_window(output, 16, bytes::u64_bytes(message.transition_id));
    }
}

pub const CRASH_TEST_MESSAGE_BYTES: usize = 32;

/// `NFCT`.
pub const CRASH_TEST_MAGIC: [u8; 4] = [0x4e, 0x46, 0x43, 0x54];

/// Stop at the next change to the volume.
pub const ARM: u16 = 1;

/// A change to the volume was reached.
pub const MUTATION_REACHED: u16 = 2;

/// One step of a crash test.
#[derive(Clone, Copy, Debug, PartialEq, Eq, Structural)]
pub struct CrashTestMessage {
    pub kind: u16,
    pub generation: u64,
    pub nonce: u64,
    pub request_id: u64,
}

impl CrashTestMessage {
    /// Whether the message has a known kind, names a generation and a nonce, and names a request
    /// exactly where one was reached.
    pub open spec fn valid(self) -> bool {
        &&& ARM <= self.kind <= MUTATION_REACHED
        &&& self.generation != 0
        &&& self.nonce != 0
        &&& (self.kind == ARM) == (self.request_id == 0)
    }

    pub open spec fn encoded(self) -> Seq<u8> {
        CRASH_TEST_MAGIC@ + bytes::u16_bytes(LIFECYCLE_WIRE_VERSION) + bytes::u16_bytes(self.kind)
            + bytes::u64_bytes(self.generation) + bytes::u64_bytes(self.nonce)
            + bytes::u64_bytes(self.request_id)
    }

    pub open spec fn parsed(input: Seq<u8>) -> Result<CrashTestMessage, MessageDecodeError> {
        let message = CrashTestMessage {
            kind: bytes::u16_at(input, 6),
            generation: bytes::u64_at(input, 8),
            nonce: bytes::u64_at(input, 16),
            request_id: bytes::u64_at(input, 24),
        };
        if input.len() != CRASH_TEST_MESSAGE_BYTES {
            Err(MessageDecodeError::InvalidLength)
        } else if input.take(4) != CRASH_TEST_MAGIC@ {
            Err(MessageDecodeError::InvalidMagic)
        } else if bytes::u16_at(input, 4) != LIFECYCLE_WIRE_VERSION {
            Err(MessageDecodeError::UnsupportedVersion)
        } else if !message.valid() {
            Err(MessageDecodeError::InvalidMessage)
        } else {
            Ok(message)
        }
    }

    pub open spec fn built(kind: u16, generation: u64, nonce: u64, request_id: u64) -> Option<
        CrashTestMessage,
    > {
        let message = CrashTestMessage { kind, generation, nonce, request_id };
        if message.valid() {
            Some(message)
        } else {
            None
        }
    }

    pub fn new(kind: u16, generation: u64, nonce: u64, request_id: u64) -> (message: Option<Self>)
        ensures
            message == Self::built(kind, generation, nonce, request_id),
    {
        if kind < ARM || kind > MUTATION_REACHED || generation == 0 || nonce == 0 || (kind == ARM)
            != (request_id == 0) {
            None
        } else {
            Some(CrashTestMessage { kind, generation, nonce, request_id })
        }
    }

    pub fn encode(self) -> (output: [u8; CRASH_TEST_MESSAGE_BYTES])
        ensures
            output@ == self.encoded(),
    {
        let mut output: [u8; CRASH_TEST_MESSAGE_BYTES] = [0;CRASH_TEST_MESSAGE_BYTES];
        copy_into(&mut output, 0, &CRASH_TEST_MAGIC);
        put_u16(&mut output, 4, LIFECYCLE_WIRE_VERSION);
        put_u16(&mut output, 6, self.kind);
        put_u64(&mut output, 8, self.generation);
        put_u64(&mut output, 16, self.nonce);
        put_u64(&mut output, 24, self.request_id);
        proof {
            bytes::lemma_integer_lengths(LIFECYCLE_WIRE_VERSION, 0, self.generation);
            bytes::lemma_integer_lengths(self.kind, 0, self.nonce);
            bytes::lemma_integer_lengths(self.kind, 0, self.request_id);
            assert(output@ =~= self.encoded());
        }
        output
    }

    pub fn decode(input: &[u8]) -> (result: Result<Self, MessageDecodeError>)
        ensures
            result == Self::parsed(input@),
    {
        if input.len() != CRASH_TEST_MESSAGE_BYTES {
            return Err(MessageDecodeError::InvalidLength);
        }
        assert(input@.subrange(0, 4) =~= input@.take(4));
        if !equal(&input[0..4], &CRASH_TEST_MAGIC) {
            return Err(MessageDecodeError::InvalidMagic);
        }
        if get_u16(input, 4) != LIFECYCLE_WIRE_VERSION {
            return Err(MessageDecodeError::UnsupportedVersion);
        }
        match CrashTestMessage::new(
            get_u16(input, 6),
            get_u64(input, 8),
            get_u64(input, 16),
            get_u64(input, 24),
        ) {
            Some(message) => Ok(message),
            None => Err(MessageDecodeError::InvalidMessage),
        }
    }
}

/// Decoding an encoded message gives the message back.
pub proof fn lemma_crash_test_round_trip(message: CrashTestMessage)
    requires
        message.valid(),
    ensures
        message.encoded().len() == CRASH_TEST_MESSAGE_BYTES,
        CrashTestMessage::parsed(message.encoded()) == Ok::<_, MessageDecodeError>(message),
{
    let output = message.encoded();
    bytes::lemma_integer_lengths(LIFECYCLE_WIRE_VERSION, 0, message.generation);
    bytes::lemma_integer_lengths(message.kind, 0, message.nonce);
    bytes::lemma_integer_lengths(message.kind, 0, message.request_id);
    assert(output.take(4) =~= CRASH_TEST_MAGIC@);
    assert(bytes::u16_at(output, 4) == LIFECYCLE_WIRE_VERSION) by {
        bytes::lemma_u16_round_trip(LIFECYCLE_WIRE_VERSION);
        assert(output.subrange(4, 6) =~= bytes::u16_bytes(LIFECYCLE_WIRE_VERSION));
        bytes::lemma_u16_at_window(output, 4, bytes::u16_bytes(LIFECYCLE_WIRE_VERSION));
    }
    assert(bytes::u16_at(output, 6) == message.kind) by {
        bytes::lemma_u16_round_trip(message.kind);
        assert(output.subrange(6, 8) =~= bytes::u16_bytes(message.kind));
        bytes::lemma_u16_at_window(output, 6, bytes::u16_bytes(message.kind));
    }
    assert(bytes::u64_at(output, 8) == message.generation) by {
        bytes::lemma_u64_round_trip(message.generation);
        assert(output.subrange(8, 16) =~= bytes::u64_bytes(message.generation));
        bytes::lemma_u64_at_window(output, 8, bytes::u64_bytes(message.generation));
    }
    assert(bytes::u64_at(output, 16) == message.nonce) by {
        bytes::lemma_u64_round_trip(message.nonce);
        assert(output.subrange(16, 24) =~= bytes::u64_bytes(message.nonce));
        bytes::lemma_u64_at_window(output, 16, bytes::u64_bytes(message.nonce));
    }
    assert(bytes::u64_at(output, 24) == message.request_id) by {
        bytes::lemma_u64_round_trip(message.request_id);
        assert(output.subrange(24, 32) =~= bytes::u64_bytes(message.request_id));
        bytes::lemma_u64_at_window(output, 24, bytes::u64_bytes(message.request_id));
    }
}

} // verus!
