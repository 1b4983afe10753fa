//! Packets of a connection, and what can go wrong when one is sent or received.

use crate::bytes;
use crate::bytes::copy_into;
use vstd::prelude::*;

verus! {

/// The largest packet.
pub const MAX_PACKET_BYTES: usize = 256;

/// A packet that holds its bytes itself.
#[derive(Debug, Clone, Copy, PartialEq, Eq)]
pub struct PacketBuf {
    bytes: [u8; MAX_PACKET_BYTES],
    length: usize,
}

impl View for PacketBuf {
    type V = Seq<u8>;

    closed spec fn view(&self) -> Seq<u8> {
        self.bytes@.take(self.length as int)
    }
}

impl PacketBuf {
    #[verifier::type_invariant]
    spec fn well_formed(self) -> bool {
        self.length <= MAX_PACKET_BYTES
    }

    /// A packet of these bytes, if there are not too many.
    pub fn from_slice(payload: &[u8]) -> (packet: Option<Self>)
        ensures
            match packet {
                Some(packet) => payload@.len() <= MAX_PACKET_BYTES && packet@ == payload@,
                None => payload@.len() > MAX_PACKET_BYTES,
            },
    {
        if payload.len() > MAX_PACKET_BYTES {
            return None;
        }
        let mut bytes: [u8; MAX_PACKET_BYTES] = [0;MAX_PACKET_BYTES];
        copy_into(&mut bytes, 0, payload);
        let packet = PacketBuf { bytes, length: payload.len() };
        assert(packet@ =~= payload@);
        Some(packet)
    }

    pub fn len(&self) -> (length: usize)
        ensures
            length == self@.len(),
            length <= MAX_PACKET_BYTES,
    {
        proof {
            use_type_invariant(self);
        }
        self.length
    }

    pub fn is_empty(&self) -> (empty: bool)
        ensures
            empty == (self@.len() == 0),
    {
        self.len() == 0
    }

    pub fn as_slice(&self) -> (bytes: &[u8])
        ensures
            bytes@ == self@,
    {
        proof {
            use_type_invariant(self);
        }
        let bytes = &self.bytes.as_slice()[0..self.length];
        assert(bytes@ =~= self@);
        bytes
    }
}

/// Why a packet was not sent.
#[derive(Debug, Clone, Copy, PartialEq, Eq, Structural)]
pub enum TrySendError {
    Full,
    PeerClosed,
}

/// Why no packet was received.
#[derive(Debug, Clone, Copy, PartialEq, Eq, Structural)]
pub enum TryRecvError {
    Empty,
    MessageTooLarge { bytes: usize },
    PeerClosed,
}

} // verus!
