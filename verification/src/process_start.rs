//! Data sections of the process-start contract.
//!
//! Capability attachments travel in the envelope of [`crate::runtime_context`]. This module
//! carries the descriptive part of a process start as ordered frames, so that arguments and
//! environment data can exceed one bounded IPC message without becoming authority.

use crate::abi::MAX_ARGUMENT_BYTES;
use crate::bytes;
use crate::bytes::{all_zero, copy_into, equal, fill_zero, get_u16, get_u32, put_u16, put_u32};
pub use crate::startup_environment::{
    encode_startup_environment, StartupEnvironment, ValidatedProcessStart,
};
pub use crate::startup_sections::{
    encode_startup_arguments, StartupArguments, StartupIdentity, StartupLaunch, StartupLaunchReason,
};
pub use crate::startup_transport::{
    receive_process_start_data, send_process_start_data, StartupSectionPayload,
    StartupTransportError,
};
use vstd::prelude::*;

verus! {

/// `NSPD`, the first bytes of a data frame.
pub const FRAME_MAGIC: [u8; 4] = [0x4e, 0x53, 0x50, 0x44];

/// Size of a frame header.
pub const FRAME_HEADER_BYTES: usize = 24;

/// Flag of a frame whose section the receiver must support.
pub const FRAME_REQUIRED: u16 = 1;

/// Flag of the last frame of a section.
pub const FRAME_FINAL: u16 = 2;

/// First supported version of the data-frame format.
pub const STARTUP_DATA_VERSION: u16 = 1;

/// Well-known capability-table slot used by managed-launch bootstrap.
pub const PROCESS_START_BOOTSTRAP_HANDLE: u64 = 1;

/// Largest payload carried by one data frame.
pub const STARTUP_DATA_FRAME_PAYLOAD_BYTES: usize = 232;

/// Stable identity of one descriptive section.
#[derive(Debug, Clone, Copy, PartialEq, Eq, Structural)]
pub struct StartupSectionId {
    pub raw: u16,
}

impl StartupSectionId {
    /// A section identity is never zero.
    pub open spec fn valid(self) -> bool {
        self.raw != 0
    }

    #[verifier::allow_in_spec]
    pub fn identity() -> Self
        returns
            (StartupSectionId { raw: 1 }),
    {
        StartupSectionId { raw: 1 }
    }

    #[verifier::allow_in_spec]
    pub fn arguments() -> Self
        returns
            (StartupSectionId { raw: 2 }),
    {
        StartupSectionId { raw: 2 }
    }

    #[verifier::allow_in_spec]
    pub fn environment() -> Self
        returns
            (StartupSectionId { raw: 3 }),
    {
        StartupSectionId { raw: 3 }
    }

    #[verifier::allow_in_spec]
    pub fn launch() -> Self
        returns
            (StartupSectionId { raw: 4 }),
    {
        StartupSectionId { raw: 4 }
    }

    /// Stable application principal and installation provenance.
    #[verifier::allow_in_spec]
    pub fn application_identity() -> Self
        returns
            (StartupSectionId { raw: 5 }),
    {
        StartupSectionId { raw: 5 }
    }

    pub fn new(value: u16) -> (id: Option<Self>)
        ensures
            id == (if value == 0 {
                None
            } else {
                Some(StartupSectionId { raw: value })
            }),
    {
        if value == 0 {
            None
        } else {
            Some(StartupSectionId { raw: value })
        }
    }

    pub fn value(self) -> (value: u16)
        ensures
            value == self.raw,
    {
        self.raw
    }
}

/// Why encoding, assembly or typed validation of process-start data failed.
#[derive(Debug, Clone, Copy, PartialEq, Eq, Structural)]
pub enum StartupDataError {
    MalformedFrame,
    UnsupportedVersion(u16),
    FrameBounds,
    SectionBounds(StartupSectionId),
    SectionOrder(StartupSectionId),
    FragmentOrder(StartupSectionId),
    StorageBounds(StartupSectionId),
    UnknownRequiredSection(StartupSectionId),
    MissingRequiredSection(StartupSectionId),
    InvalidSection(StartupSectionId),
    IncompleteSection,
}

/// What one frame says: a part of a section, or all of it.
#[verifier::ext_equal]
pub ghost struct Fragment {
    pub section: StartupSectionId,
    pub required: bool,
    pub total: nat,
    pub offset: nat,
    pub payload: Seq<u8>,
}

impl Fragment {
    /// The index behind the fragment's last byte in its section.
    pub open spec fn end(self) -> nat {
        self.offset + self.payload.len()
    }

    /// The bounds that every frame on the wire keeps.
    pub open spec fn in_bounds(self) -> bool {
        &&& 0 < self.total <= MAX_ARGUMENT_BYTES
        &&& 0 < self.payload.len() <= STARTUP_DATA_FRAME_PAYLOAD_BYTES
        &&& self.end() <= self.total
    }

    pub open spec fn flags(self) -> u16 {
        let required: int = if self.required { 1 } else { 0 };
        let last: int = if self.end() == self.total { 2 } else { 0 };
        (required + last) as u16
    }

    /// The fragment as it stands on the wire.
    pub open spec fn frame(self) -> Seq<u8> {
        FRAME_MAGIC@ + bytes::u16_bytes(STARTUP_DATA_VERSION) + bytes::u16_bytes(self.section.raw) + bytes::u16_bytes(
            self.flags(),
        ) + bytes::u16_bytes(FRAME_HEADER_BYTES as u16) + bytes::u32_bytes(self.total as u32) + bytes::u32_bytes(
            self.offset as u32,
        ) + bytes::u16_bytes(self.payload.len() as u16) + bytes::u16_bytes(0) + self.payload
    }
}

/// The fragment that a frame holds, or why the bytes are no frame.
pub open spec fn frame_fragment(bytes: Seq<u8>) -> Result<Fragment, StartupDataError> {
    if bytes.len() < FRAME_HEADER_BYTES || bytes.take(4) != FRAME_MAGIC@ {
        Err(StartupDataError::MalformedFrame)
    } else if bytes::u16_at(bytes, 4) != STARTUP_DATA_VERSION {
        Err(StartupDataError::UnsupportedVersion(bytes::u16_at(bytes, 4)))
    } else {
        let fragment = Fragment {
            section: StartupSectionId { raw: bytes::u16_at(bytes, 6) },
            required: bytes::u16_at(bytes, 8) % 2 == 1,
            total: bytes::u32_at(bytes, 12) as nat,
            offset: bytes::u32_at(bytes, 16) as nat,
            payload: bytes.skip(FRAME_HEADER_BYTES as int),
        };
        if fragment.section.valid() && bytes::u16_at(bytes, 8) == fragment.flags() && bytes::u16_at(bytes, 10)
            == FRAME_HEADER_BYTES && bytes::u16_at(bytes, 20) == fragment.payload.len() && bytes::u16_at(
            bytes,
            22,
        ) == 0 && fragment.in_bounds() {
            Ok(fragment)
        } else {
            Err(StartupDataError::MalformedFrame)
        }
    }
}

/// One decoded frame borrowed from a received IPC message.
#[derive(Debug, Clone, Copy, PartialEq, Eq)]
pub struct StartupDataFrame<'a> {
    pub section: StartupSectionId,
    pub required: bool,
    pub total_bytes: usize,
    pub offset: usize,
    pub payload: &'a [u8],
    pub final_frame: bool,
}

impl<'a> StartupDataFrame<'a> {
    pub open spec fn fragment(self) -> Fragment {
        Fragment {
            section: self.section,
            required: self.required,
            total: self.total_bytes as nat,
            offset: self.offset as nat,
            payload: self.payload@,
        }
    }

    pub fn decode(bytes: &'a [u8]) -> (frame: Result<StartupDataFrame<'a>, StartupDataError>)
        ensures
            match frame {
                Ok(frame) => {
                    &&& frame_fragment(bytes@) == Ok::<_, StartupDataError>(frame.fragment())
                    &&& frame.final_frame == (frame.fragment().end() == frame.total_bytes)
                },
                Err(error) => frame_fragment(bytes@) == Err::<Fragment, _>(error),
            },
    {
        if bytes.len() < FRAME_HEADER_BYTES {
            return Err(StartupDataError::MalformedFrame);
        }
        assert(bytes@.take(4) =~= bytes@.subrange(0, 4));
        if !equal(&bytes[0..4], &FRAME_MAGIC) {
            return Err(StartupDataError::MalformedFrame);
        }
        let version: u16 = get_u16(bytes, 4);
        if version != STARTUP_DATA_VERSION {
            return Err(StartupDataError::UnsupportedVersion(version));
        }
        let section = match StartupSectionId::new(get_u16(bytes, 6)) {
            Some(section) => section,
            None => {
                return Err(StartupDataError::MalformedFrame);
            },
        };
        let flags: u16 = get_u16(bytes, 8);
        let header_bytes: u16 = get_u16(bytes, 10);
        let total_bytes: usize = get_u32(bytes, 12) as usize;
        let offset: usize = get_u32(bytes, 16) as usize;
        let payload_bytes: usize = get_u16(bytes, 20) as usize;
        let payload = &bytes[FRAME_HEADER_BYTES..bytes.len()];
        assert(payload@ =~= bytes@.skip(FRAME_HEADER_BYTES as int));
        let required: bool = flags % 2 == 1;
        let ghost fragment = Fragment {
            section,
            required,
            total: total_bytes as nat,
            offset: offset as nat,
            payload: payload@,
        };
        if flags > 3 || header_bytes as usize != FRAME_HEADER_BYTES || get_u16(bytes, 22) != 0
            || payload_bytes == 0 || payload_bytes > STARTUP_DATA_FRAME_PAYLOAD_BYTES || bytes.len()
            != FRAME_HEADER_BYTES + payload_bytes {
            return Err(StartupDataError::MalformedFrame);
        }
        let end: usize = match offset.checked_add(payload_bytes) {
            Some(end) => end,
            None => {
                return Err(StartupDataError::MalformedFrame);
            },
        };
        let final_frame: bool = flags / 2 == 1;
        if total_bytes == 0 || total_bytes > MAX_ARGUMENT_BYTES || end > total_bytes || final_frame
            != (end == total_bytes) {
            return Err(StartupDataError::MalformedFrame);
        }
        Ok(StartupDataFrame { section, required, total_bytes, offset, payload, final_frame })
    }
}

/// Writes one canonical process-start data frame.
pub fn encode_startup_data_frame(
    section: StartupSectionId,
    required: bool,
    total_bytes: usize,
    offset: usize,
    payload: &[u8],
    output: &mut [u8],
) -> (length: Result<usize, StartupDataError>)
    ensures
        ({
            let fragment = Fragment {
                section,
                required,
                total: total_bytes as nat,
                offset: offset as nat,
                payload: payload@,
            };
            let size = FRAME_HEADER_BYTES + payload@.len();
            if fragment.in_bounds() && size <= old(output)@.len() {
                &&& length == Ok::<usize, StartupDataError>(size as usize)
                &&& final(output)@ == bytes::overlay(old(output)@, 0, fragment.frame())
            } else {
                &&& length == Err::<usize, StartupDataError>(StartupDataError::FrameBounds)
                &&& final(output)@ == old(output)@
            }
        }),
{
    let ghost fragment = Fragment {
        section,
        required,
        total: total_bytes as nat,
        offset: offset as nat,
        payload: payload@,
    };
    let payload_bytes: usize = payload.len();
    let end: usize = match offset.checked_add(payload_bytes) {
        Some(end) => end,
        None => {
            return Err(StartupDataError::FrameBounds);
        },
    };
    if total_bytes == 0 || total_bytes > MAX_ARGUMENT_BYTES || payload_bytes == 0 || payload_bytes
        > STARTUP_DATA_FRAME_PAYLOAD_BYTES || end > total_bytes {
        return Err(StartupDataError::FrameBounds);
    }
    let length: usize = FRAME_HEADER_BYTES + payload_bytes;
    if output.len() < length {
        return Err(StartupDataError::FrameBounds);
    }
    fill_zero(output, length);
    copy_into(output, 0, &FRAME_MAGIC);
    put_u16(output, 4, STARTUP_DATA_VERSION);
    put_u16(output, 6, section.value());
    let mut flags: u16 = if required { FRAME_REQUIRED } else { 0 };
    if end == total_bytes {
        flags = flags + FRAME_FINAL;
    }
    put_u16(output, 8, flags);
    put_u16(output, 10, FRAME_HEADER_BYTES as u16);
    put_u32(output, 12, total_bytes as u32);
    put_u32(output, 16, offset as u32);
    put_u16(output, 20, payload_bytes as u16);
    copy_into(output, FRAME_HEADER_BYTES, payload);
    assert(output@ =~= bytes::overlay(old(output)@, 0, fragment.frame()));
    Ok(length)
}

/// Decoding the frame of a fragment gives the fragment back.
pub proof fn lemma_frame_round_trip(fragment: Fragment)
    requires
        fragment.section.valid(),
        fragment.in_bounds(),
    ensures
        frame_fragment(fragment.frame()) == Ok::<_, StartupDataError>(fragment),
{
    let bytes = fragment.frame();
    let total = fragment.total as u32;
    let offset = fragment.offset as u32;
    bytes::lemma_u32_round_trip(total);
    bytes::lemma_u32_round_trip(offset);
    assert(bytes.take(4) =~= FRAME_MAGIC@);
    assert(bytes.skip(FRAME_HEADER_BYTES as int) =~= fragment.payload);
    bytes::lemma_u32_at_window(bytes, 12, bytes::u32_bytes(total));
    bytes::lemma_u32_at_window(bytes, 16, bytes::u32_bytes(offset));
    assert(bytes::u16_at(bytes, 4) == STARTUP_DATA_VERSION);
    assert(bytes::u16_at(bytes, 6) == fragment.section.raw);
    assert(bytes::u16_at(bytes, 8) == fragment.flags());
    assert(bytes::u16_at(bytes, 10) == FRAME_HEADER_BYTES);
    assert(bytes::u16_at(bytes, 20) == fragment.payload.len());
    assert(bytes::u16_at(bytes, 22) == 0);
}

/// Bytes that decode to a fragment are that fragment's frame: there is one encoding of each.
pub proof fn lemma_frame_is_canonical(bytes: Seq<u8>)
    requires
        frame_fragment(bytes) is Ok,
    ensures
        frame_fragment(bytes)->Ok_0.frame() =~= bytes,
{
    let fragment = frame_fragment(bytes)->Ok_0;
    bytes::lemma_u16_at_bytes(bytes, 4);
    bytes::lemma_u16_at_bytes(bytes, 6);
    bytes::lemma_u16_at_bytes(bytes, 8);
    bytes::lemma_u16_at_bytes(bytes, 10);
    bytes::lemma_u32_at_bytes(bytes, 12);
    bytes::lemma_u32_at_bytes(bytes, 16);
    bytes::lemma_u16_at_bytes(bytes, 20);
    bytes::lemma_u16_at_bytes(bytes, 22);
    assert(bytes =~= bytes.take(4) + bytes.subrange(4, 6) + bytes.subrange(6, 8) + bytes.subrange(
        8,
        10,
    ) + bytes.subrange(10, 12) + bytes.subrange(12, 16) + bytes.subrange(16, 20)
        + bytes.subrange(20, 22) + bytes.subrange(22, 24) + bytes.skip(24));
}

/// Fragments one complete section into frames.
#[derive(Debug)]
pub struct StartupSectionFrames<'a> {
    section: StartupSectionId,
    required: bool,
    payload: &'a [u8],
    offset: usize,
}

/// The fragment of a section that starts at `offset`.
pub open spec fn fragment_at(
    section: StartupSectionId,
    required: bool,
    payload: Seq<u8>,
    offset: nat,
) -> Fragment {
    let rest = payload.len() - offset;
    let size = if rest < STARTUP_DATA_FRAME_PAYLOAD_BYTES {
        rest
    } else {
        STARTUP_DATA_FRAME_PAYLOAD_BYTES as int
    };
    Fragment {
        section,
        required,
        total: payload.len(),
        offset,
        payload: payload.subrange(offset as int, offset + size),
    }
}

/// The fragments of a section from `offset` on.
pub open spec fn fragments_from(
    section: StartupSectionId,
    required: bool,
    payload: Seq<u8>,
    offset: nat,
) -> Seq<Fragment>
    decreases payload.len() - offset,
{
    if offset >= payload.len() {
        seq![]
    } else {
        let fragment = fragment_at(section, required, payload, offset);
        seq![fragment] + fragments_from(section, required, payload, fragment.end())
    }
}

impl<'a> StartupSectionFrames<'a> {
    pub closed spec fn section(self) -> StartupSectionId {
        self.section
    }

    pub closed spec fn required(self) -> bool {
        self.required
    }

    pub closed spec fn payload(self) -> Seq<u8> {
        self.payload@
    }

    pub closed spec fn offset(self) -> nat {
        self.offset as nat
    }

    pub open spec fn wf(self) -> bool {
        &&& 0 < self.payload().len() <= MAX_ARGUMENT_BYTES
        &&& self.offset() <= self.payload().len()
    }

    /// The fragments that are still to be written.
    pub open spec fn remaining(self) -> Seq<Fragment> {
        fragments_from(self.section(), self.required(), self.payload(), self.offset())
    }

    pub fn new(section: StartupSectionId, required: bool, payload: &'a [u8]) -> (frames: Result<
        Self,
        StartupDataError,
    >)
        ensures
            match frames {
                Ok(frames) => {
                    &&& 0 < payload@.len() <= MAX_ARGUMENT_BYTES
                    &&& frames.wf()
                    &&& frames.section() == section
                    &&& frames.required() == required
                    &&& frames.payload() == payload@
                    &&& frames.offset() == 0
                },
                Err(error) => {
                    &&& payload@.len() == 0 || payload@.len() > MAX_ARGUMENT_BYTES
                    &&& error == StartupDataError::SectionBounds(section)
                },
            },
    {
        if payload.len() == 0 || payload.len() > MAX_ARGUMENT_BYTES {
            return Err(StartupDataError::SectionBounds(section));
        }
        Ok(StartupSectionFrames { section, required, payload, offset: 0 })
    }

    /// Writes the next frame, returning `None` after the section is complete.
    pub fn next_frame(&mut self, output: &mut [u8]) -> (length: Result<
        Option<usize>,
        StartupDataError,
    >)
        requires
            old(self).wf(),
        ensures
            final(self).wf(),
            final(self).section() == old(self).section(),
            final(self).required() == old(self).required(),
            final(self).payload() == old(self).payload(),
            ({
                let fragments = old(self).remaining();
                if fragments.len() == 0 {
                    &&& length == Ok::<Option<usize>, StartupDataError>(None)
                    &&& final(self).offset() == old(self).offset()
                    &&& final(output)@ == old(output)@
                } else if FRAME_HEADER_BYTES + fragments[0].payload.len() > old(output)@.len() {
                    &&& length == Err::<Option<usize>, _>(StartupDataError::FrameBounds)
                    &&& final(self).offset() == old(self).offset()
                    &&& final(output)@ == old(output)@
                } else {
                    &&& length == Ok::<_, StartupDataError>(
                        Some((FRAME_HEADER_BYTES + fragments[0].payload.len()) as usize),
                    )
                    &&& final(self).remaining() == fragments.drop_first()
                    &&& final(output)@ == bytes::overlay(old(output)@, 0, fragments[0].frame())
                }
            }),
    {
        if self.offset == self.payload.len() {
            return Ok(None);
        }
        let rest: usize = self.payload.len() - self.offset;
        let size: usize = if rest < STARTUP_DATA_FRAME_PAYLOAD_BYTES {
            rest
        } else {
            STARTUP_DATA_FRAME_PAYLOAD_BYTES
        };
        let end: usize = self.offset + size;
        let part = &self.payload[self.offset..end];
        let ghost fragments = self.remaining();
        proof {
            assert(fragments[0] =~= fragment_at(
                self.section,
                self.required,
                self.payload@,
                self.offset as nat,
            ));
        }
        let length: usize = match encode_startup_data_frame(
            self.section,
            self.required,
            self.payload.len(),
            self.offset,
            part,
            output,
        ) {
            Ok(length) => length,
            Err(error) => {
                return Err(error);
            },
        };
        self.offset = end;
        assert(self.remaining() =~= fragments.drop_first());
        Ok(Some(length))
    }
}

/// The frames of a section are in bounds, each starts where the one before ended, and together
/// they carry the payload.
pub proof fn lemma_fragments_cover_the_payload(
    section: StartupSectionId,
    required: bool,
    payload: Seq<u8>,
    offset: nat,
)
    requires
        0 < payload.len() <= MAX_ARGUMENT_BYTES,
        offset <= payload.len(),
    ensures
        ({
            let fragments = fragments_from(section, required, payload, offset);
            &&& forall|i: int| 0 <= i < fragments.len() ==> #[trigger] fragments[i].in_bounds()
            &&& carried(fragments) =~= payload.skip(offset as int)
        }),
    decreases payload.len() - offset,
{
    if offset < payload.len() {
        let fragment = fragment_at(section, required, payload, offset);
        let rest = fragments_from(section, required, payload, fragment.end());
        lemma_fragments_cover_the_payload(section, required, payload, fragment.end());
        let fragments = fragments_from(section, required, payload, offset);
        assert(fragments.drop_first() =~= rest);
        assert forall|i: int| 0 <= i < fragments.len() implies #[trigger] fragments[i].in_bounds() by {
            if i > 0 {
                assert(fragments[i] == rest[i - 1]);
            }
        }
    }
}

/// The payloads of `fragments`, one after another.
pub open spec fn carried(fragments: Seq<Fragment>) -> Seq<u8>
    decreases fragments.len(),
{
    if fragments.len() == 0 {
        seq![]
    } else {
        fragments[0].payload + carried(fragments.drop_first())
    }
}

/// `NSPX`, the first bytes of the end record.
pub const END_MAGIC: [u8; 4] = [0x4e, 0x53, 0x50, 0x58];

/// Size of the end record.
pub const END_BYTES: usize = 16;

/// The end record of a stream of `count` sections.
pub open spec fn end_record(count: nat) -> Seq<u8> {
    END_MAGIC@ + bytes::u16_bytes(STARTUP_DATA_VERSION) + bytes::u16_bytes(count as u16) + bytes::zeros(8)
}

/// The section count of an end record, or why the bytes are none.
pub open spec fn end_record_count(bytes: Seq<u8>) -> Result<nat, StartupDataError> {
    if bytes.len() != END_BYTES || bytes.take(4) != END_MAGIC@ {
        Err(StartupDataError::MalformedFrame)
    } else if bytes::u16_at(bytes, 4) != STARTUP_DATA_VERSION {
        Err(StartupDataError::UnsupportedVersion(bytes::u16_at(bytes, 4)))
    } else if bytes::u16_at(bytes, 6) == 0 || bytes.skip(8) != bytes::zeros(8) {
        Err(StartupDataError::MalformedFrame)
    } else {
        Ok(bytes::u16_at(bytes, 6) as nat)
    }
}

pub fn encode_startup_data_end(section_count: usize) -> (record: Result<
    [u8; END_BYTES],
    StartupDataError,
>)
    ensures
        match record {
            Ok(record) => {
                &&& 0 < section_count <= u16::MAX
                &&& record@ == end_record(section_count as nat)
            },
            Err(error) => {
                &&& section_count == 0 || section_count > u16::MAX
                &&& error == StartupDataError::IncompleteSection
            },
        },
{
    if section_count == 0 || section_count > u16::MAX as usize {
        return Err(StartupDataError::IncompleteSection);
    }
    let mut output: [u8; END_BYTES] = [0; END_BYTES];
    copy_into(&mut output, 0, &END_MAGIC);
    put_u16(&mut output, 4, STARTUP_DATA_VERSION);
    put_u16(&mut output, 6, section_count as u16);
    assert(output@ =~= end_record(section_count as nat));
    Ok(output)
}

pub fn decode_startup_data_end(bytes: &[u8]) -> (count: Result<usize, StartupDataError>)
    ensures
        match count {
            Ok(count) => end_record_count(bytes@) == Ok::<_, StartupDataError>(count as nat),
            Err(error) => end_record_count(bytes@) == Err::<nat, _>(error),
        },
{
    if bytes.len() != END_BYTES {
        return Err(StartupDataError::MalformedFrame);
    }
    assert(bytes@.take(4) =~= bytes@.subrange(0, 4));
    assert(bytes@.skip(8) =~= bytes@.subrange(8, 16));
    if !equal(&bytes[0..4], &END_MAGIC) {
        return Err(StartupDataError::MalformedFrame);
    }
    let version: u16 = get_u16(bytes, 4);
    if version != STARTUP_DATA_VERSION {
        return Err(StartupDataError::UnsupportedVersion(version));
    }
    let section_count: usize = get_u16(bytes, 6) as usize;
    if section_count == 0 || !all_zero(bytes, 8, END_BYTES) {
        return Err(StartupDataError::MalformedFrame);
    }
    Ok(section_count)
}

/// Decoding an end record gives the count that was encoded.
pub proof fn lemma_end_record_round_trip(count: nat)
    requires
        0 < count <= u16::MAX,
    ensures
        end_record_count(end_record(count)) == Ok::<_, StartupDataError>(count),
{
    let bytes = end_record(count);
    assert(bytes.take(4) =~= END_MAGIC@);
    assert(bytes.skip(8) =~= bytes::zeros(8));
    assert(bytes::u16_at(bytes, 4) == STARTUP_DATA_VERSION);
    assert(bytes::u16_at(bytes, 6) == count);
}

/// A complete section.
#[verifier::ext_equal]
pub ghost struct Section {
    pub id: StartupSectionId,
    pub required: bool,
    pub payload: Seq<u8>,
}

/// A section of which some fragments have arrived.
#[verifier::ext_equal]
pub ghost struct Incoming {
    pub id: StartupSectionId,
    pub required: bool,
    pub total: nat,
    pub received: nat,
    pub retained: bool,
    pub payload: Seq<u8>,
}

/// What an assembler holds: the retained sections in order, the section that is being received,
/// how many sections were completed, retained or not, and the last of them.
#[verifier::ext_equal]
pub ghost struct Assembly {
    pub sections: Seq<Section>,
    pub incoming: Option<Incoming>,
    pub completed: nat,
    pub last: Option<StartupSectionId>,
}

/// Bytes needed to store `sections`.
pub open spec fn stored(sections: Seq<Section>) -> nat
    decreases sections.len(),
{
    if sections.len() == 0 {
        0
    } else {
        stored(sections.drop_last()) + sections.last().payload.len()
    }
}

/// The payload of the first section with identity `id`.
pub open spec fn lookup(sections: Seq<Section>, id: StartupSectionId) -> Option<Seq<u8>>
    decreases sections.len(),
{
    if sections.len() == 0 {
        None
    } else if sections[0].id == id {
        Some(sections[0].payload)
    } else {
        lookup(sections.drop_first(), id)
    }
}

impl Assembly {
    pub open spec fn empty() -> Assembly {
        Assembly { sections: seq![], incoming: None, completed: 0, last: None }
    }

    /// Sections come in the order of their identities, each one once: those that are retained are
    /// at most the last one that was completed, and what is being received comes behind it.
    pub open spec fn ordered(self) -> bool {
        &&& forall|i: int, j: int|
            0 <= i < j < self.sections.len() ==> (#[trigger] self.sections[i]).id.raw < (
            #[trigger] self.sections[j]).id.raw
        &&& self.sections.len() > 0 ==> self.last is Some
        &&& forall|i: int|
            0 <= i < self.sections.len() ==> (#[trigger] self.sections[i]).id.raw
                <= self.last->0.raw
        &&& self.incoming is Some && self.last is Some ==> self.last->0.raw
            < self.incoming->0.id.raw
    }

    /// The assembly after `fragment` has continued `incoming`.
    pub open spec fn advance(self, incoming: Incoming, fragment: Fragment) -> Assembly {
        let payload = if incoming.retained {
            incoming.payload + fragment.payload
        } else {
            incoming.payload
        };
        if fragment.end() == fragment.total {
            Assembly {
                sections: if incoming.retained {
                    self.sections.push(
                        Section { id: incoming.id, required: incoming.required, payload },
                    )
                } else {
                    self.sections
                },
                incoming: None,
                completed: self.completed + 1,
                last: Some(incoming.id),
            }
        } else {
            Assembly {
                incoming: Some(
                    Incoming {
                        received: incoming.received + fragment.payload.len(),
                        payload,
                        ..incoming
                    },
                ),
                ..self
            }
        }
    }

    /// The assembly after the next fragment, for storage of `capacity` bytes and `slots` sections,
    /// or why the fragment is refused. An optional section that the receiver does not support is
    /// received and discarded.
    pub open spec fn accept(
        self,
        fragment: Fragment,
        supported: bool,
        capacity: nat,
        slots: nat,
    ) -> Result<Assembly, StartupDataError> {
        if !supported && fragment.required {
            Err(StartupDataError::UnknownRequiredSection(fragment.section))
        } else {
            match self.incoming {
                Some(incoming) => if incoming.id != fragment.section || incoming.required
                    != fragment.required || incoming.total != fragment.total || incoming.received
                    != fragment.offset {
                    Err(StartupDataError::FragmentOrder(fragment.section))
                } else {
                    Ok(self.advance(incoming, fragment))
                },
                None => if fragment.offset != 0 || (self.last is Some && fragment.section.raw
                    <= self.last->0.raw) {
                    Err(StartupDataError::SectionOrder(fragment.section))
                } else if supported && (self.sections.len() == slots || stored(self.sections)
                    + fragment.total > capacity) {
                    Err(StartupDataError::StorageBounds(fragment.section))
                } else {
                    Ok(
                        self.advance(
                            Incoming {
                                id: fragment.section,
                                required: fragment.required,
                                total: fragment.total,
                                received: 0,
                                retained: supported,
                                payload: seq![],
                            },
                            fragment,
                        ),
                    )
                },
            }
        }
    }

    /// The assembly after all of `fragments`, which belong to supported sections.
    pub open spec fn accept_all(self, fragments: Seq<Fragment>, capacity: nat, slots: nat) -> Result<
        Assembly,
        StartupDataError,
    >
        decreases fragments.len(),
    {
        if fragments.len() == 0 {
            Ok(self)
        } else {
            match self.accept(fragments[0], true, capacity, slots) {
                Ok(next) => next.accept_all(fragments.drop_first(), capacity, slots),
                Err(error) => Err(error),
            }
        }
    }
}

/// Receiving every fragment of a section retains the section with its whole payload, however many
/// frames it took.
pub proof fn lemma_fragments_reassemble(
    assembly: Assembly,
    section: StartupSectionId,
    required: bool,
    payload: Seq<u8>,
    capacity: nat,
    slots: nat,
)
    requires
        assembly.incoming is None,
        assembly.last is Some ==> assembly.last->0.raw < section.raw,
        assembly.sections.len() < slots,
        stored(assembly.sections) + payload.len() <= capacity,
        0 < payload.len() <= MAX_ARGUMENT_BYTES,
    ensures
        assembly.accept_all(fragments_from(section, required, payload, 0), capacity, slots) == Ok::<
            Assembly,
            StartupDataError,
        >(
            Assembly {
                sections: assembly.sections.push(Section { id: section, required, payload }),
                incoming: None,
                completed: assembly.completed + 1,
                last: Some(section),
            },
        ),
{
    let fragments = fragments_from(section, required, payload, 0);
    let first = fragment_at(section, required, payload, 0);
    assert(fragments[0] == first);
    assert(fragments.drop_first() =~= fragments_from(section, required, payload, first.end()));
    let incoming = Incoming {
        id: section,
        required,
        total: payload.len(),
        received: 0,
        retained: true,
        payload: seq![],
    };
    assert(seq![] + first.payload =~= payload.take(first.end() as int));
    if first.end() == payload.len() {
        assert(payload.take(first.end() as int) =~= payload);
        let next = assembly.advance(incoming, first);
        assert(fragments.drop_first() =~= seq![]);
        assert(next.accept_all(seq![], capacity, slots) == Ok::<Assembly, StartupDataError>(next));
    } else {
        lemma_fragments_continue(
            assembly.advance(incoming, first),
            section,
            required,
            payload,
            first.end(),
            capacity,
            slots,
        );
    }
}

proof fn lemma_fragments_continue(
    assembly: Assembly,
    section: StartupSectionId,
    required: bool,
    payload: Seq<u8>,
    offset: nat,
    capacity: nat,
    slots: nat,
)
    requires
        0 < offset < payload.len(),
        payload.len() <= MAX_ARGUMENT_BYTES,
        assembly.incoming == Some(
            Incoming {
                id: section,
                required,
                total: payload.len(),
                received: offset,
                retained: true,
                payload: payload.take(offset as int),
            },
        ),
    ensures
        assembly.accept_all(fragments_from(section, required, payload, offset), capacity, slots)
            == Ok::<Assembly, StartupDataError>(
            Assembly {
                sections: assembly.sections.push(Section { id: section, required, payload }),
                incoming: None,
                completed: assembly.completed + 1,
                last: Some(section),
            },
        ),
    decreases payload.len() - offset,
{
    let fragments = fragments_from(section, required, payload, offset);
    let first = fragment_at(section, required, payload, offset);
    assert(fragments[0] == first);
    assert(fragments.drop_first() =~= fragments_from(section, required, payload, first.end()));
    let incoming = assembly.incoming->0;
    assert(incoming.payload + first.payload =~= payload.take(first.end() as int));
    if first.end() == payload.len() {
        assert(payload.take(first.end() as int) =~= payload);
        let next = assembly.advance(incoming, first);
        assert(fragments.drop_first() =~= seq![]);
        assert(next.accept_all(seq![], capacity, slots) == Ok::<Assembly, StartupDataError>(next));
    } else {
        lemma_fragments_continue(
            assembly.advance(incoming, first),
            section,
            required,
            payload,
            first.end(),
            capacity,
            slots,
        );
    }
}

proof fn lemma_advance_keeps_the_order(assembly: Assembly, incoming: Incoming, fragment: Fragment)
    requires
        assembly.ordered(),
        assembly.last is Some ==> assembly.last->0.raw < incoming.id.raw,
    ensures
        assembly.advance(incoming, fragment).ordered(),
{
    let next = assembly.advance(incoming, fragment);
    let kept = assembly.sections.len();
    assert forall|i: int| 0 <= i < next.sections.len() implies (
    #[trigger] next.sections[i]).id.raw <= next.last->0.raw by {
        if i < kept {
            assert(next.sections[i] == assembly.sections[i]);
        }
    }
    assert forall|i: int, j: int| 0 <= i < j < next.sections.len() implies (
    #[trigger] next.sections[i]).id.raw < (#[trigger] next.sections[j]).id.raw by {
        assert(next.sections[i] == assembly.sections[i]);
        if j < kept {
            assert(next.sections[j] == assembly.sections[j]);
        }
    }
}

/// A fragment that is accepted keeps the sections in order.
pub proof fn lemma_accept_keeps_the_order(
    assembly: Assembly,
    fragment: Fragment,
    supported: bool,
    capacity: nat,
    slots: nat,
)
    requires
        assembly.ordered(),
    ensures
        assembly.accept(fragment, supported, capacity, slots) matches Ok(next) ==> next.ordered(),
{
    if assembly.accept(fragment, supported, capacity, slots) is Ok {
        let incoming = match assembly.incoming {
            Some(incoming) => incoming,
            None => Incoming {
                id: fragment.section,
                required: fragment.required,
                total: fragment.total,
                received: 0,
                retained: supported,
                payload: seq![],
            },
        };
        lemma_advance_keeps_the_order(assembly, incoming, fragment);
    }
}

proof fn lemma_lookup_finds(sections: Seq<Section>, index: int)
    requires
        0 <= index < sections.len(),
        forall|i: int| 0 <= i < index ==> (#[trigger] sections[i]).id != sections[index].id,
    ensures
        lookup(sections, sections[index].id) == Some(sections[index].payload),
    decreases index,
{
    if index > 0 {
        assert(sections[0].id != sections[index].id);
        let rest = sections.drop_first();
        assert forall|i: int| 0 <= i < index - 1 implies (#[trigger] rest[i]).id != rest[index
            - 1].id by {
            assert(rest[i] == sections[i + 1]);
        }
        assert(rest[index - 1] == sections[index]);
        lemma_lookup_finds(rest, index - 1);
    }
}

proof fn lemma_lookup_of_others(sections: Seq<Section>, section: Section, id: StartupSectionId)
    requires
        id != section.id,
    ensures
        lookup(sections.push(section), id) == lookup(sections, id),
    decreases sections.len(),
{
    let pushed = sections.push(section);
    if sections.len() == 0 {
        assert(lookup(pushed.drop_first(), id) is None);
    } else {
        assert(pushed[0] == sections[0]);
        assert(pushed.drop_first() =~= sections.drop_first().push(section));
        lemma_lookup_of_others(sections.drop_first(), section, id);
    }
}

/// Once every fragment of a section has been received, the section is found with its whole
/// payload, one more section is retained, every other one is found as before, and the sections are
/// still in order.
pub proof fn lemma_reassembled_section_is_found(
    assembly: Assembly,
    section: StartupSectionId,
    required: bool,
    payload: Seq<u8>,
    capacity: nat,
    slots: nat,
)
    requires
        assembly.ordered(),
        assembly.incoming is None,
        assembly.last is Some ==> assembly.last->0.raw < section.raw,
        assembly.sections.len() < slots,
        stored(assembly.sections) + payload.len() <= capacity,
        0 < payload.len() <= MAX_ARGUMENT_BYTES,
    ensures
        assembly.accept_all(
            fragments_from(section, required, payload, 0),
            capacity,
            slots,
        ) matches Ok(after) && {
            &&& lookup(after.sections, section) == Some(payload)
            &&& after.sections.len() == assembly.sections.len() + 1
            &&& after.incoming is None
            &&& forall|other: StartupSectionId|
                other != section ==> (#[trigger] lookup(after.sections, other)) == lookup(
                    assembly.sections,
                    other,
                )
            &&& after.ordered()
        },
{
    lemma_fragments_reassemble(assembly, section, required, payload, capacity, slots);
    let whole = Section { id: section, required, payload };
    let after = assembly.sections.push(whole);
    lemma_lookup_finds(after, assembly.sections.len() as int);
    assert forall|other: StartupSectionId| other != section implies (
    #[trigger] lookup(after, other)) == lookup(assembly.sections, other) by {
        lemma_lookup_of_others(assembly.sections, whole, other);
    }
}

/// A retained, complete section in a decoded process-start record.
#[derive(Debug, Clone, Copy, PartialEq, Eq, Structural)]
pub struct StartupSection {
    pub id: StartupSectionId,
    pub required: bool,
    offset: usize,
    length: usize,
}

impl StartupSection {
    /// The section, with its payload read from `storage`.
    pub closed spec fn in_storage(self, storage: Seq<u8>) -> Section {
        Section {
            id: self.id,
            required: self.required,
            payload: storage.subrange(self.offset as int, self.offset + self.length),
        }
    }

    pub closed spec fn identity(self) -> StartupSectionId {
        self.id
    }

    pub closed spec fn is_required(self) -> bool {
        self.required
    }

    pub closed spec fn size(self) -> nat {
        self.length as nat
    }

    /// Whether this describes `section`: the same identity, the same demand, the same size.
    pub open spec fn describes(self, section: Section) -> bool {
        &&& self.identity() == section.id
        &&& self.is_required() == section.required
        &&& self.size() == section.payload.len()
    }

    spec fn fits(self, used: int) -> bool {
        self.offset + self.length <= used
    }
}

#[derive(Debug, Clone, Copy)]
struct PartialSection {
    id: StartupSectionId,
    required: bool,
    total_bytes: usize,
    start: usize,
    received: usize,
    retained: bool,
}

impl PartialSection {
    spec fn in_storage(self, storage: Seq<u8>) -> Incoming {
        Incoming {
            id: self.id,
            required: self.required,
            total: self.total_bytes as nat,
            received: self.received as nat,
            retained: self.retained,
            payload: if self.retained {
                storage.subrange(self.start as int, self.start + self.received)
            } else {
                seq![]
            },
        }
    }
}

/// Fixed-capacity assembler for ordered, possibly fragmented startup sections.
#[derive(Debug)]
pub struct ProcessStartData<const BYTES: usize, const SECTIONS: usize> {
    bytes: [u8; BYTES],
    sections: [Option<StartupSection>; SECTIONS],
    used: usize,
    section_count: usize,
    completed_section_count: usize,
    partial: Option<PartialSection>,
    last_section: Option<StartupSectionId>,
}

impl<const BYTES: usize, const SECTIONS: usize> View for ProcessStartData<BYTES, SECTIONS> {
    type V = Assembly;

    closed spec fn view(&self) -> Assembly {
        Assembly {
            sections: Seq::new(
                self.section_count as nat,
                |i: int| self.sections@[i]->0.in_storage(self.bytes@),
            ),
            incoming: match self.partial {
                Some(partial) => Some(partial.in_storage(self.bytes@)),
                None => None,
            },
            completed: self.completed_section_count as nat,
            last: self.last_section,
        }
    }
}

impl<const BYTES: usize, const SECTIONS: usize> ProcessStartData<BYTES, SECTIONS> {
    /// What holds of every assembler that only [`Self::push_frame`] has changed.
    pub closed spec fn wf(self) -> bool {
        &&& self.used <= BYTES
        &&& self.section_count <= SECTIONS
        &&& self.used == stored(self@.sections)
        &&& self@.ordered()
        &&& forall|i: int|
            0 <= i < self.section_count ==> (#[trigger] self.sections@[i]) is Some
                && self.sections@[i]->0.fits(self.used as int)
        &&& forall|i: int|
            self.section_count <= i < SECTIONS ==> (#[trigger] self.sections@[i]) is None
        &&& self.completed_section_count <= (match self.last_section {
            Some(last) => last.raw as int,
            None => 0,
        })
        &&& self.partial matches Some(partial) ==> {
            &&& partial.received < partial.total_bytes <= MAX_ARGUMENT_BYTES
            &&& self.last_section matches Some(last) ==> last.raw < partial.id.raw
            &&& partial.id.valid()
            &&& partial.retained ==> {
                &&& partial.start == self.used
                &&& self.used + partial.total_bytes <= BYTES
                &&& self.section_count < SECTIONS
            }
        }
    }

    /// The sections of an assembler are in order.
    pub proof fn lemma_sections_are_ordered(self)
        requires
            self.wf(),
        ensures
            self@.ordered(),
    {
    }

    pub fn new() -> (data: Self)
        ensures
            data.wf(),
            data@ == Assembly::empty(),
    {
        let data = ProcessStartData {
            bytes: vstd::array::array_fill_for_copy_types(0u8),
            sections: vstd::array::array_fill_for_copy_types(None),
            used: 0,
            section_count: 0,
            completed_section_count: 0,
            partial: None,
            last_section: None,
        };
        assert(data@.sections =~= seq![]);
        data
    }

    /// Accepts the next frame in canonical section and fragment order.
    ///
    /// Unsupported optional sections are validated and discarded. Unsupported required sections
    /// fail immediately. A frame that is refused changes nothing.
    pub fn push_frame(&mut self, bytes: &[u8], supported: &[StartupSectionId]) -> (result: Result<
        (),
        StartupDataError,
    >)
        requires
            old(self).wf(),
        ensures
            final(self).wf(),
            final(self)@.ordered(),
            match frame_fragment(bytes@) {
                Err(error) => result == Err::<(), _>(error) && final(self)@ == old(self)@,
                Ok(fragment) => match old(self)@.accept(
                    fragment,
                    supported@.contains(fragment.section),
                    BYTES as nat,
                    SECTIONS as nat,
                ) {
                    Err(error) => result == Err::<(), _>(error) && final(self)@ == old(self)@,
                    Ok(next) => result is Ok && final(self)@ == next,
                },
            },
    {
        let frame = match StartupDataFrame::decode(bytes) {
            Ok(frame) => frame,
            Err(error) => {
                return Err(error);
            },
        };
        let ghost fragment = frame.fragment();
        let known: bool = contains_section(supported, frame.section);
        if !known && frame.required {
            return Err(StartupDataError::UnknownRequiredSection(frame.section));
        }
        let mut partial: PartialSection = match self.partial {
            Some(partial) => {
                if partial.id != frame.section || partial.required != frame.required
                    || partial.total_bytes != frame.total_bytes || partial.received != frame.offset {
                    return Err(StartupDataError::FragmentOrder(frame.section));
                }
                partial
            },
            None => {
                let late: bool = match self.last_section {
                    Some(last) => frame.section.raw <= last.raw,
                    None => false,
                };
                if frame.offset != 0 || late {
                    return Err(StartupDataError::SectionOrder(frame.section));
                }
                if known && (self.section_count == SECTIONS || frame.total_bytes > BYTES
                    - self.used) {
                    return Err(StartupDataError::StorageBounds(frame.section));
                }
                PartialSection {
                    id: frame.section,
                    required: frame.required,
                    total_bytes: frame.total_bytes,
                    start: self.used,
                    received: 0,
                    retained: known,
                }
            },
        };
        let ghost before = self@;
        let ghost incoming = partial.in_storage(self.bytes@);
        let ghost sections = before.sections;
        proof {
            lemma_accept_keeps_the_order(before, fragment, known, BYTES as nat, SECTIONS as nat);
        }
        if partial.retained {
            let ghost storage = self.bytes@;
            copy_into(&mut self.bytes, partial.start + partial.received, frame.payload);
            proof {
                assert(self.bytes@.subrange(
                    partial.start as int,
                    partial.start + partial.received + frame.payload@.len(),
                ) =~= incoming.payload + frame.payload@);
                assert forall|i: int| 0 <= i < self.section_count implies (
                #[trigger] self.sections@[i])->0.in_storage(self.bytes@) == sections[i] by {
                    let section = self.sections@[i]->0;
                    assert(sections[i] == section.in_storage(storage));
                    assert(section.fits(self.used as int));
                    assert(self.bytes@.subrange(
                        section.offset as int,
                        section.offset + section.length,
                    ) =~= storage.subrange(section.offset as int, section.offset + section.length));
                }
                assert(self@.sections =~= sections);
            }
        }
        partial.received = partial.received + frame.payload.len();
        if frame.final_frame {
            let ghost expected = before.advance(incoming, fragment);
            if partial.retained {
                self.sections[self.section_count] = Some(
                    StartupSection {
                        id: partial.id,
                        required: partial.required,
                        offset: partial.start,
                        length: partial.total_bytes,
                    },
                );
                self.section_count = self.section_count + 1;
                self.used = self.used + partial.total_bytes;
                proof {
                    assert forall|i: int| 0 <= i < self.section_count implies (
                    #[trigger] self.sections@[i])->0.fits(self.used as int) by {
                        if i < self.section_count - 1 {
                            assert(self.sections@[i]->0.fits(old(self).used as int));
                        }
                    }
                    assert(self@.sections =~= expected.sections);
                    assert(expected.sections.drop_last() =~= sections);
                }
            }
            self.last_section = Some(partial.id);
            self.completed_section_count = self.completed_section_count + 1;
            self.partial = None;
            assert(self@.sections =~= expected.sections);
            assert(self@ =~= expected);
        } else {
            self.partial = Some(partial);
            assert(self@.sections =~= sections);
            assert(self@ =~= before.advance(incoming, fragment));
        }
        Ok(())
    }

    pub fn is_complete(&self) -> (complete: bool)
        ensures
            complete == (self@.incoming is None),
    {
        self.partial.is_none()
    }

    pub fn len(&self) -> (length: usize)
        ensures
            length == self@.sections.len(),
    {
        self.section_count
    }

    pub fn is_empty(&self) -> (empty: bool)
        ensures
            empty == (self@.sections.len() == 0),
    {
        self.section_count == 0
    }

    pub fn section(&self, id: StartupSectionId) -> (payload: Option<&[u8]>)
        requires
            self.wf(),
        ensures
            match payload {
                Some(payload) => lookup(self@.sections, id) == Some(payload@),
                None => lookup(self@.sections, id) is None,
            },
    {
        let mut index: usize = 0;
        assert(self@.sections.skip(0) =~= self@.sections);
        while index < self.section_count
            invariant
                self.wf(),
                index <= self.section_count,
                lookup(self@.sections, id) == lookup(self@.sections.skip(index as int), id),
            decreases self.section_count - index,
        {
            assert(self@.sections.skip(index as int)[0] == self@.sections[index as int]);
            assert(self@.sections.skip(index as int).drop_first() =~= self@.sections.skip(
                index + 1,
            ));
            assert(self.sections@[index as int] is Some);
            if let Some(section) = self.sections[index] {
                assert(section.fits(self.used as int));
                if section.id == id {
                    return Some(&self.bytes.as_slice()[section.offset..section.offset + section.length]);
                }
            }
            index = index + 1;
        }
        assert(self@.sections.skip(index as int) =~= seq![]);
        None
    }

    /// The retained sections in the order in which they arrived, which is that of their identities.
    pub fn sections(&self) -> (sections: Vec<StartupSection>)
        requires
            self.wf(),
        ensures
            sections@.len() == self@.sections.len(),
            forall|i: int, j: int|
                0 <= i < j < sections@.len() ==> (#[trigger] sections@[i]).identity().raw < (
                #[trigger] sections@[j]).identity().raw,
            forall|i: int|
                0 <= i < sections@.len() ==> (#[trigger] sections@[i]).describes(
                    self@.sections[i],
                ),
    {
        let mut sections: Vec<StartupSection> = Vec::new();
        let mut index: usize = 0;
        while index < self.section_count
            invariant
                self.wf(),
                index <= self.section_count,
                sections@.len() == index,
                forall|i: int|
                    0 <= i < index ==> (#[trigger] sections@[i]).describes(self@.sections[i]),
            decreases self.section_count - index,
        {
            assert(self.sections@[index as int] is Some);
            if let Some(section) = self.sections[index] {
                assert(section.fits(self.used as int));
                sections.push(section);
            }
            index = index + 1;
        }
        assert forall|i: int, j: int| 0 <= i < j < sections@.len() implies (
        #[trigger] sections@[i]).identity().raw < (#[trigger] sections@[j]).identity().raw by {
            assert(sections@[i].describes(self@.sections[i]));
            assert(sections@[j].describes(self@.sections[j]));
        }
        sections
    }

    pub fn validate_required(&self, required: &[StartupSectionId]) -> (result: Result<
        (),
        StartupDataError,
    >)
        requires
            self.wf(),
        ensures
            result == required_sections(self@, required@),
    {
        if !self.is_complete() {
            return Err(StartupDataError::IncompleteSection);
        }
        let mut index: usize = 0;
        assert(required@.skip(0) =~= required@);
        while index < required.len()
            invariant
                self.wf(),
                self@.incoming is None,
                index <= required@.len(),
                required_sections(self@, required@) == required_sections(
                    self@,
                    required@.skip(index as int),
                ),
            decreases required@.len() - index,
        {
            assert(required@.skip(index as int)[0] == required@[index as int]);
            assert(required@.skip(index as int).drop_first() =~= required@.skip(index + 1));
            if self.section(required[index]).is_none() {
                return Err(StartupDataError::MissingRequiredSection(required[index]));
            }
            index = index + 1;
        }
        assert(required@.skip(index as int) =~= seq![]);
        Ok(())
    }

    pub fn validate_end(&self, bytes: &[u8]) -> (result: Result<(), StartupDataError>)
        requires
            self.wf(),
        ensures
            result == end_of_sections(self@, bytes@),
    {
        if !self.is_complete() {
            return Err(StartupDataError::IncompleteSection);
        }
        match decode_startup_data_end(bytes) {
            Ok(count) => {
                if count != self.completed_section_count {
                    return Err(StartupDataError::MalformedFrame);
                }
                Ok(())
            },
            Err(error) => Err(error),
        }
    }
}

impl<const BYTES: usize, const SECTIONS: usize> Default for ProcessStartData<BYTES, SECTIONS> {
    fn default() -> (data: Self)
        ensures
            data.wf(),
            data@ == Assembly::empty(),
    {
        Self::new()
    }
}

/// Whether the assembly is complete and holds every section of `required`; the first that is
/// missing is reported.
pub open spec fn required_sections(
    assembly: Assembly,
    required: Seq<StartupSectionId>,
) -> Result<(), StartupDataError>
    decreases required.len(),
{
    if assembly.incoming is Some {
        Err(StartupDataError::IncompleteSection)
    } else if required.len() == 0 {
        Ok(())
    } else if lookup(assembly.sections, required[0]) is None {
        Err(StartupDataError::MissingRequiredSection(required[0]))
    } else {
        required_sections(assembly, required.drop_first())
    }
}

/// Whether `bytes` is the end record of exactly the sections that were completed.
pub open spec fn end_of_sections(assembly: Assembly, bytes: Seq<u8>) -> Result<
    (),
    StartupDataError,
> {
    if assembly.incoming is Some {
        Err(StartupDataError::IncompleteSection)
    } else {
        match end_record_count(bytes) {
            Err(error) => Err(error),
            Ok(count) => if count == assembly.completed {
                Ok(())
            } else {
                Err(StartupDataError::MalformedFrame)
            },
        }
    }
}

/// Whether `ids` holds `id`.
pub fn contains_section(ids: &[StartupSectionId], id: StartupSectionId) -> (found: bool)
    ensures
        found == ids@.contains(id),
{
    let mut index: usize = 0;
    while index < ids.len()
        invariant
            index <= ids@.len(),
            forall|i: int| 0 <= i < index ==> ids@[i] != id,
        decreases ids@.len() - index,
    {
        if ids[index] == id {
            return true;
        }
        index = index + 1;
    }
    false
}

} // verus!
