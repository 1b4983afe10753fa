//! Sending and receiving a process start over an endpoint.

use crate::abi::{MAX_ARGUMENT_BYTES, MAX_IPC_MESSAGE_BYTES};
use crate::bytes;
use crate::bytes::starts_with;
use crate::handle;
use crate::handle::{AnyObject, Endpoint, OwnedHandle};
use crate::ipc;
use crate::ipc::{ObjectKind, Rights, Transfer};
use crate::kernel;
use crate::kernel::Kernel;
use crate::process_start;
use crate::process_start::{
    encode_startup_data_end, ProcessStartData, StartupDataError, StartupSectionFrames,
    StartupSectionId, END_MAGIC,
};
use crate::runtime_context;
use crate::runtime_context::{ProcessContext, RuntimeRole, StartupCapabilityPolicy};
use crate::slots::empty_slots;
use crate::startup_record;
use crate::startup_record::{StartupError, StartupMessage};
use crate::syscall;
use crate::syscall::yield_now;
use vstd::prelude::*;

verus! {

/// A complete section that is to be sent.
#[derive(Debug, Clone, Copy)]
pub struct StartupSectionPayload<'a> {
    pub id: StartupSectionId,
    pub required: bool,
    pub bytes: &'a [u8],
}

/// Why the sections of a process start could not be sent or received.
#[derive(Debug, Clone, Copy, PartialEq, Eq, Structural)]
pub enum StartupTransportError {
    Data(StartupDataError),
    Ipc(ipc::Error),
    InvalidEndpoint,
    WrongSender,
    UnexpectedCapability,
}

impl From<StartupDataError> for StartupTransportError {
    fn from(error: StartupDataError) -> (converted: Self) {
        StartupTransportError::Data(error)
    }
}

impl vstd::std_specs::convert::FromSpecImpl<StartupDataError> for StartupTransportError {
    open spec fn obeys_from_spec() -> bool {
        true
    }

    open spec fn from_spec(error: StartupDataError) -> Self {
        StartupTransportError::Data(error)
    }
}

/// The section that a payload stands for.
pub open spec fn section_of(payload: StartupSectionPayload<'_>) -> process_start::Section {
    process_start::Section {
        id: payload.id,
        required: payload.required,
        payload: payload.bytes@,
    }
}

/// The sections that payloads stand for.
pub open spec fn sections_of(payloads: Seq<StartupSectionPayload<'_>>) -> Seq<
    process_start::Section,
> {
    payloads.map_values(|payload: StartupSectionPayload<'_>| section_of(payload))
}

/// The first section at or after `from` that is empty or out of order.
pub open spec fn misplaced(sections: Seq<process_start::Section>, from: int) -> Option<
    StartupSectionId,
>
    decreases sections.len() - from,
{
    if from >= sections.len() {
        None
    } else if sections[from].payload.len() == 0 || (from > 0 && sections[from].id.raw
        <= sections[from - 1].id.raw) {
        Some(sections[from].id)
    } else {
        misplaced(sections, from + 1)
    }
}

/// Sending the fragments of one section in order.
pub open spec fn send_fragments_run(
    k: kernel::Transcript,
    endpoint: u64,
    fragments: Seq<process_start::Fragment>,
) -> (kernel::Transcript, Option<Result<(), ipc::Error>>)
    decreases fragments.len(),
{
    if fragments.len() == 0 {
        (k, Some(Ok(())))
    } else {
        let (sent, result) = ipc::send_run(k, endpoint, fragments[0].frame(), None);
        match result {
            Some(Ok(_)) => send_fragments_run(sent, endpoint, fragments.drop_first()),
            _ => (sent, result),
        }
    }
}

/// Every fragment of a section.
pub open spec fn fragments_of(section: process_start::Section) -> Seq<process_start::Fragment> {
    process_start::fragments_from(section.id, section.required, section.payload, 0)
}

/// Sending the sections from `i` on, and the end record.
pub open spec fn send_sections_run(
    k: kernel::Transcript,
    endpoint: u64,
    sections: Seq<process_start::Section>,
    i: int,
) -> (kernel::Transcript, Option<Result<(), StartupTransportError>>)
    decreases sections.len() - i,
{
    if i >= sections.len() {
        let (sent, result) = ipc::send_run(
            k,
            endpoint,
            process_start::end_record(sections.len()),
            None,
        );
        (sent, transport(result))
    } else if sections[i].payload.len() > MAX_ARGUMENT_BYTES {
        (
            k,
            Some(
                Err(
                    StartupTransportError::Data(StartupDataError::SectionBounds(sections[i].id)),
                ),
            ),
        )
    } else {
        let (sent, result) = send_fragments_run(k, endpoint, fragments_of(sections[i]));
        match result {
            Some(Ok(_)) => send_sections_run(sent, endpoint, sections, i + 1),
            _ => (sent, transport(result)),
        }
    }
}

/// A verdict of the kernel as one of the transport.
pub open spec fn transport(result: Option<Result<(), ipc::Error>>) -> Option<
    Result<(), StartupTransportError>,
> {
    match result {
        None => None,
        Some(Ok(_)) => Some(Ok(())),
        Some(Err(error)) => Some(Err(StartupTransportError::Ipc(error))),
    }
}

/// Sending the sections of a process start.
pub open spec fn send_data_run(
    k: kernel::Transcript,
    endpoint: u64,
    sections: Seq<process_start::Section>,
) -> (kernel::Transcript, Option<Result<(), StartupTransportError>>) {
    if endpoint == 0 || sections.len() == 0 || sections.len() > u16::MAX {
        (k, Some(Err(StartupTransportError::Data(StartupDataError::IncompleteSection))))
    } else {
        match misplaced(sections, 0) {
            Some(id) => (
                k,
                Some(Err(StartupTransportError::Data(StartupDataError::SectionOrder(id)))),
            ),
            None => send_sections_run(k, endpoint, sections, 0),
        }
    }
}

fn send_section(k: &mut Kernel, endpoint: u64, payload: StartupSectionPayload<'_>) -> (result:
    Option<Result<(), StartupTransportError>>)
    requires
        0 < payload.bytes@.len() <= MAX_ARGUMENT_BYTES,
    ensures
        ({
            let (sent, verdict) = send_fragments_run(
                old(k)@,
                endpoint,
                fragments_of(section_of(payload)),
            );
            &&& final(k)@ == sent
            &&& result == transport(verdict)
        }),
{
    let mut frames = match StartupSectionFrames::new(payload.id, payload.required, payload.bytes) {
        Ok(frames) => frames,
        Err(error) => {
            return Some(Err(StartupTransportError::Data(error)));
        },
    };
    let ghost all = fragments_of(section_of(payload));
    let mut output: [u8; MAX_IPC_MESSAGE_BYTES] = [0;MAX_IPC_MESSAGE_BYTES];
    loop
        invariant
            frames.wf(),
            send_fragments_run(old(k)@, endpoint, all) == send_fragments_run(
                k@,
                endpoint,
                frames.remaining(),
            ),
            all == fragments_of(section_of(payload)),
        decreases frames.remaining().len(),
    {
        let ghost fragments = frames.remaining();
        proof {
            lemma_first_fragment_fits(frames.section(), frames.required(), frames.payload(), frames.offset());
        }
        match frames.next_frame(&mut output) {
            Err(error) => {
                return Some(Err(StartupTransportError::Data(error)));
            },
            Ok(None) => {
                return Some(Ok(()));
            },
            Ok(Some(length)) => {
                let frame = &output[0..length];
                assert(frame@ =~= fragments[0].frame());
                if let Err(error) = ipc::send(k, endpoint, frame, None)? {
                    return Some(Err(StartupTransportError::Ipc(error)));
                }
            },
        }
    }
}

proof fn lemma_first_fragment_fits(
    section: StartupSectionId,
    required: bool,
    payload: Seq<u8>,
    offset: nat,
)
    requires
        payload.len() <= MAX_ARGUMENT_BYTES,
    ensures
        ({
            let fragments = process_start::fragments_from(section, required, payload, offset);
            fragments.len() > 0 ==> {
                &&& process_start::FRAME_HEADER_BYTES + fragments[0].payload.len()
                    <= MAX_IPC_MESSAGE_BYTES
                &&& fragments[0].frame().len() == process_start::FRAME_HEADER_BYTES
                    + fragments[0].payload.len()
            }
        }),
{
    let fragments = process_start::fragments_from(section, required, payload, offset);
    if fragments.len() > 0 {
        bytes::lemma_u32_round_trip(fragments[0].total as u32);
        bytes::lemma_u32_round_trip(fragments[0].offset as u32);
    }
}

/// Sends the sections of a process start in order, and a record that ends them.
///
/// The receiver is kept behind its launch barrier while the whole sequence fits its queue.
pub fn send_process_start_data(
    k: &mut Kernel,
    endpoint: u64,
    sections: &[StartupSectionPayload<'_>],
) -> (result: Option<Result<(), StartupTransportError>>)
    ensures
        (final(k)@, result) == send_data_run(old(k)@, endpoint, sections_of(sections@)),
{
    let ghost all = sections_of(sections@);
    if endpoint == 0 || sections.len() == 0 || sections.len() > u16::MAX as usize {
        return Some(Err(StartupTransportError::Data(StartupDataError::IncompleteSection)));
    }
    let mut index: usize = 0;
    while index < sections.len()
        invariant
            index <= sections@.len(),
            all == sections_of(sections@),
            0 < all.len() <= u16::MAX,
            endpoint != 0,
            k@ == old(k)@,
            misplaced(all, 0) == misplaced(all, index as int),
            forall|i: int| 0 <= i < index ==> (#[trigger] sections@[i]).bytes@.len() > 0,
        decreases sections@.len() - index,
    {
        assert(all[index as int] == section_of(sections@[index as int]));
        let section = sections[index];
        if section.bytes.len() == 0 {
            return Some(
                Err(StartupTransportError::Data(StartupDataError::SectionOrder(section.id))),
            );
        }
        if index > 0 {
            assert(all[index - 1] == section_of(sections@[index - 1]));
            if section.id.value() <= sections[index - 1].id.value() {
                return Some(
                    Err(StartupTransportError::Data(StartupDataError::SectionOrder(section.id))),
                );
            }
        }
        index += 1;
    }
    index = 0;
    while index < sections.len()
        invariant
            index <= sections@.len(),
            all == sections_of(sections@),
            0 < all.len() <= u16::MAX,
            forall|i: int| 0 <= i < sections@.len() ==> (#[trigger] sections@[i]).bytes@.len() > 0,
            send_data_run(old(k)@, endpoint, all) == send_sections_run(
                k@,
                endpoint,
                all,
                index as int,
            ),
        decreases sections@.len() - index,
    {
        assert(all[index as int] == section_of(sections@[index as int]));
        let section = sections[index];
        if section.bytes.len() > MAX_ARGUMENT_BYTES {
            return Some(
                Err(StartupTransportError::Data(StartupDataError::SectionBounds(section.id))),
            );
        }
        if let Err(error) = send_section(k, endpoint, section)? {
            return Some(Err(error));
        }
        index += 1;
    }
    match encode_startup_data_end(sections.len()) {
        Err(error) => Some(Err(StartupTransportError::Data(error))),
        Ok(end) => match ipc::send(k, endpoint, &end, None)? {
            Ok(()) => Some(Ok(())),
            Err(error) => Some(Err(StartupTransportError::Ipc(error))),
        },
    }
}

/// Waiting for a message of a process start, yielding while there is none.
pub open spec fn receive_message_run(k: kernel::Transcript, endpoint: u64) -> (
    kernel::Transcript,
    Option<Result<ipc::Delivery, ipc::Error>>,
)
    decreases k.unread(),
{
    let (asked, result) = ipc::try_receive_run(k, endpoint, MAX_IPC_MESSAGE_BYTES);
    match result {
        Some(Err(error)) => if error == ipc::Error::try_again() {
            let (yielded, outcome) = syscall::yield_run(asked);
            match outcome {
                None => (yielded, None),
                Some(Err(_)) => (yielded, Some(Err(error))),
                Some(Ok(_)) => receive_message_run(yielded, endpoint),
            }
        } else {
            (asked, result)
        },
        _ => (asked, result),
    }
}

/// Receiving asks for more calls, uses answers in order, and gives a message only from an answer.
pub proof fn lemma_receive_message_progress(k: kernel::Transcript, endpoint: u64)
    ensures
        ({
            let (asked, result) = receive_message_run(k, endpoint);
            &&& asked.replies == k.replies
            &&& asked.asked.len() > k.asked.len()
            &&& result is Some ==> asked.asked.len() <= asked.replies.len()
        }),
    decreases k.unread(),
{
    let (asked, result) = ipc::try_receive_run(k, endpoint, MAX_IPC_MESSAGE_BYTES);
    if let Some(Err(error)) = result {
        if error == ipc::Error::try_again() {
            let (yielded, outcome) = syscall::yield_run(asked);
            if let Some(Ok(_)) = outcome {
                lemma_receive_message_progress(yielded, endpoint);
            }
        }
    }
}

/// The handle that came with a message.
pub open spec fn attached(delivery: ipc::Delivery) -> Option<u64> {
    match delivery.message.capability {
        Some(capability) => Some(capability.handle),
        None => None,
    }
}

/// Closing the handle that came with a refused message, if there is one.
pub open spec fn refuse_run(
    k: kernel::Transcript,
    delivery: ipc::Delivery,
    error: StartupTransportError,
) -> (kernel::Transcript, Option<Result<process_start::Assembly, StartupTransportError>>) {
    let (closed, done) = handle::discard_run(k, attached(delivery));
    (
        closed,
        match done {
            None => None,
            Some(_) => Some(Err(error)),
        },
    )
}

/// What one message of a process start does to what has been received so far.
pub ghost enum Progress {
    Continue(process_start::Assembly),
    Finished(Result<process_start::Assembly, StartupDataError>),
}

/// Taking one message.
pub open spec fn take_message(
    assembly: process_start::Assembly,
    message: Seq<u8>,
    supported: Seq<StartupSectionId>,
    required: Seq<StartupSectionId>,
    capacity: nat,
    slots: nat,
) -> Progress {
    if END_MAGIC@.is_prefix_of(message) {
        match process_start::end_of_sections(assembly, message) {
            Err(error) => Progress::Finished(Err(error)),
            Ok(_) => match process_start::required_sections(assembly, required) {
                Err(error) => Progress::Finished(Err(error)),
                Ok(_) => Progress::Finished(Ok(assembly)),
            },
        }
    } else {
        match process_start::frame_fragment(message) {
            Err(error) => Progress::Finished(Err(error)),
            Ok(fragment) => match assembly.accept(
                fragment,
                supported.contains(fragment.section),
                capacity,
                slots,
            ) {
                Err(error) => Progress::Finished(Err(error)),
                Ok(next) => Progress::Continue(next),
            },
        }
    }
}

/// Receiving messages until the end record or a fault.
pub open spec fn receive_data_run(
    k: kernel::Transcript,
    endpoint: u64,
    sender: u64,
    assembly: process_start::Assembly,
    supported: Seq<StartupSectionId>,
    required: Seq<StartupSectionId>,
    capacity: nat,
    slots: nat,
) -> (kernel::Transcript, Option<Result<process_start::Assembly, StartupTransportError>>)
    decreases k.unread(),
{
    proof {
        lemma_receive_message_progress(k, endpoint);
    }
    let (asked, message) = receive_message_run(k, endpoint);
    match message {
        None => (asked, None),
        Some(Err(error)) => (asked, Some(Err(StartupTransportError::Ipc(error)))),
        Some(Ok(delivery)) => if delivery.message.sender_process_id != sender {
            refuse_run(asked, delivery, StartupTransportError::WrongSender)
        } else if delivery.message.capability is Some {
            refuse_run(asked, delivery, StartupTransportError::UnexpectedCapability)
        } else {
            match take_message(
                assembly,
                delivery.payload,
                supported,
                required,
                capacity,
                slots,
            ) {
                Progress::Finished(Err(error)) => (
                    asked,
                    Some(Err(StartupTransportError::Data(error))),
                ),
                Progress::Finished(Ok(assembly)) => (asked, Some(Ok(assembly))),
                Progress::Continue(next) => receive_data_run(
                    asked,
                    endpoint,
                    sender,
                    next,
                    supported,
                    required,
                    capacity,
                    slots,
                ),
            }
        },
    }
}

/// Receiving a process start over an endpoint that is checked first.
pub open spec fn receive_start_run(
    k: kernel::Transcript,
    endpoint: u64,
    sender: u64,
    supported: Seq<StartupSectionId>,
    required: Seq<StartupSectionId>,
    capacity: nat,
    slots: nat,
) -> (kernel::Transcript, Option<Result<process_start::Assembly, StartupTransportError>>) {
    if sender == 0 {
        (k, Some(Err(StartupTransportError::InvalidEndpoint)))
    } else {
        let (asked, info) = ipc::info_run(k, endpoint);
        match info {
            None => (asked, None),
            Some(Ok(info)) => if info.kind == ObjectKind::Endpoint && info.rights
                == Rights::receive() {
                receive_data_run(
                    asked,
                    endpoint,
                    sender,
                    process_start::Assembly::empty(),
                    supported,
                    required,
                    capacity,
                    slots,
                )
            } else {
                (asked, Some(Err(StartupTransportError::InvalidEndpoint)))
            },
            Some(Err(_)) => (asked, Some(Err(StartupTransportError::InvalidEndpoint))),
        }
    }
}

fn receive_message(k: &mut Kernel, endpoint: &OwnedHandle<Endpoint>) -> (result: Option<
    Result<(handle::ReceivedMessage, Vec<u8>), ipc::Error>,
>)
    requires
        endpoint@ is Some,
    ensures
        final(k)@ == receive_message_run(old(k)@, endpoint@->Some_0).0,
        handle::received(result, receive_message_run(old(k)@, endpoint@->Some_0).1),
{
    loop
        invariant
            endpoint@ is Some,
            receive_message_run(old(k)@, endpoint@->Some_0) == receive_message_run(
                k@,
                endpoint@->Some_0,
            ),
        decreases k@.unread(),
    {
        match endpoint.try_receive(k, MAX_IPC_MESSAGE_BYTES)? {
            Ok(message) => {
                return Some(Ok(message));
            },
            Err(error) => {
                if error == ipc::Error::try_again() {
                    if yield_now(k)?.is_err() {
                        return Some(Err(error));
                    }
                } else {
                    return Some(Err(error));
                }
            },
        }
    }
}

/// Whether received data is what came out.
pub open spec fn received_data<const BYTES: usize, const SECTIONS: usize>(
    result: Option<Result<ProcessStartData<BYTES, SECTIONS>, StartupTransportError>>,
    outcome: Option<Result<process_start::Assembly, StartupTransportError>>,
) -> bool {
    match (result, outcome) {
        (None, None) => true,
        (Some(Ok(data)), Some(Ok(assembly))) => data.wf() && data@ == assembly,
        (Some(Err(error)), Some(Err(expected))) => error == expected,
        _ => false,
    }
}

/// Receives the sections of a process start from one trusted launcher.
pub fn receive_process_start_data<const BYTES: usize, const SECTIONS: usize>(
    k: &mut Kernel,
    endpoint: &OwnedHandle<Endpoint>,
    expected_sender: u64,
    supported: &[StartupSectionId],
    required: &[StartupSectionId],
) -> (result: Option<Result<ProcessStartData<BYTES, SECTIONS>, StartupTransportError>>)
    requires
        endpoint@ is Some,
    ensures
        final(k)@ == receive_start_run(
            old(k)@,
            endpoint@->Some_0,
            expected_sender,
            supported@,
            required@,
            BYTES as nat,
            SECTIONS as nat,
        ).0,
        received_data(
            result,
            receive_start_run(
                old(k)@,
                endpoint@->Some_0,
                expected_sender,
                supported@,
                required@,
                BYTES as nat,
                SECTIONS as nat,
            ).1,
        ),
{
    let ghost run = receive_start_run(
        old(k)@,
        endpoint@->Some_0,
        expected_sender,
        supported@,
        required@,
        BYTES as nat,
        SECTIONS as nat,
    );
    if expected_sender == 0 {
        return Some(Err(StartupTransportError::InvalidEndpoint));
    }
    match endpoint.info(k)? {
        Ok(info) => {
            if info.kind != ObjectKind::Endpoint || info.rights != Rights::receive() {
                return Some(Err(StartupTransportError::InvalidEndpoint));
            }
        },
        Err(_) => {
            return Some(Err(StartupTransportError::InvalidEndpoint));
        },
    }
    let mut data: ProcessStartData<BYTES, SECTIONS> = ProcessStartData::new();
    loop
        invariant
            endpoint@ is Some,
            data.wf(),
            run == receive_data_run(
                k@,
                endpoint@->Some_0,
                expected_sender,
                data@,
                supported@,
                required@,
                BYTES as nat,
                SECTIONS as nat,
            ),
            run == receive_start_run(
                old(k)@,
                endpoint@->Some_0,
                expected_sender,
                supported@,
                required@,
                BYTES as nat,
                SECTIONS as nat,
            ),
        decreases k@.unread(),
    {
        proof {
            lemma_receive_message_progress(k@, endpoint@->Some_0);
        }
        let (message, payload) = match receive_message(k, endpoint)? {
            Ok(message) => message,
            Err(error) => {
                return Some(Err(StartupTransportError::Ipc(error)));
            },
        };
        if message.sender_process_id != expected_sender {
            if let Some(capability) = message.capability {
                capability.handle.discard(k)?;
            }
            return Some(Err(StartupTransportError::WrongSender));
        }
        if let Some(capability) = message.capability {
            capability.handle.discard(k)?;
            return Some(Err(StartupTransportError::UnexpectedCapability));
        }
        if starts_with(payload.as_slice(), &END_MAGIC) {
            if let Err(error) = data.validate_end(payload.as_slice()) {
                return Some(Err(StartupTransportError::Data(error)));
            }
            if let Err(error) = data.validate_required(required) {
                return Some(Err(StartupTransportError::Data(error)));
            }
            return Some(Ok(data));
        }
        if let Err(error) = data.push_frame(payload.as_slice(), supported) {
            return Some(Err(StartupTransportError::Data(error)));
        }
    }
}

/// Taking messages one after the other. `None` when they end too early.
pub open spec fn take_messages(
    assembly: process_start::Assembly,
    messages: Seq<Seq<u8>>,
    supported: Seq<StartupSectionId>,
    required: Seq<StartupSectionId>,
    capacity: nat,
    slots: nat,
) -> Option<Result<process_start::Assembly, StartupDataError>>
    decreases messages.len(),
{
    if messages.len() == 0 {
        None
    } else {
        match take_message(assembly, messages[0], supported, required, capacity, slots) {
            Progress::Finished(result) => Some(result),
            Progress::Continue(next) => take_messages(
                next,
                messages.drop_first(),
                supported,
                required,
                capacity,
                slots,
            ),
        }
    }
}

/// The frames of fragments.
pub open spec fn frames_of(fragments: Seq<process_start::Fragment>) -> Seq<Seq<u8>> {
    fragments.map_values(|fragment: process_start::Fragment| fragment.frame())
}

/// The messages of the sections from `i` on, and the end record.
pub open spec fn stream_from(sections: Seq<process_start::Section>, i: int) -> Seq<Seq<u8>>
    decreases sections.len() - i,
{
    if i >= sections.len() {
        seq![process_start::end_record(sections.len())]
    } else {
        frames_of(fragments_of(sections[i])) + stream_from(sections, i + 1)
    }
}

/// Whether sections can be sent as one process start, and received by a receiver that supports
/// them and has room for them.
pub open spec fn sendable(
    sections: Seq<process_start::Section>,
    supported: Seq<StartupSectionId>,
    capacity: nat,
    slots: nat,
) -> bool {
    &&& 0 < sections.len() <= u16::MAX
    &&& sections.len() <= slots
    &&& process_start::stored(sections) <= capacity
    &&& misplaced(sections, 0) is None
    &&& forall|i: int|
        0 <= i < sections.len() ==> {
            &&& (#[trigger] sections[i]).payload.len() <= MAX_ARGUMENT_BYTES
            &&& sections[i].id.valid()
            &&& supported.contains(sections[i].id)
        }
}

proof fn lemma_placed(sections: Seq<process_start::Section>, from: int, i: int)
    requires
        0 <= from <= i < sections.len(),
        misplaced(sections, from) is None,
    ensures
        sections[i].payload.len() > 0,
        i > 0 ==> sections[i - 1].id.raw < sections[i].id.raw,
    decreases i - from,
{
    if from < i {
        lemma_placed(sections, from + 1, i);
    }
}

/// Fragments of supported sections are taken one by one, before what follows them.
#[verifier::spinoff_prover]
#[verifier::rlimit(40)]
proof fn lemma_fragments_are_taken(
    assembly: process_start::Assembly,
    section: StartupSectionId,
    required_section: bool,
    payload: Seq<u8>,
    offset: nat,
    rest: Seq<Seq<u8>>,
    supported: Seq<StartupSectionId>,
    required: Seq<StartupSectionId>,
    capacity: nat,
    slots: nat,
)
    requires
        section.valid(),
        supported.contains(section),
        payload.len() <= MAX_ARGUMENT_BYTES,
        assembly.accept_all(
            process_start::fragments_from(section, required_section, payload, offset),
            capacity,
            slots,
        ) is Ok,
    ensures
        take_messages(
            assembly,
            frames_of(
                process_start::fragments_from(section, required_section, payload, offset),
            ) + rest,
            supported,
            required,
            capacity,
            slots,
        ) == take_messages(
            assembly.accept_all(
                process_start::fragments_from(section, required_section, payload, offset),
                capacity,
                slots,
            )->Ok_0,
            rest,
            supported,
            required,
            capacity,
            slots,
        ),
    decreases payload.len() - offset,
{
    let fragments = process_start::fragments_from(section, required_section, payload, offset);
    let messages = frames_of(fragments) + rest;
    if offset >= payload.len() {
        assert(messages =~= rest);
    } else {
        let first = process_start::fragment_at(section, required_section, payload, offset);
        assert(fragments[0] == first);
        let later = process_start::fragments_from(
            section,
            required_section,
            payload,
            first.end(),
        );
        assert(fragments.drop_first() =~= later);
        process_start::lemma_frame_round_trip(first);
        assert(messages[0] == first.frame());
        assert(messages.drop_first() =~= frames_of(later) + rest);
        assert(!END_MAGIC@.is_prefix_of(first.frame())) by {
            assert(first.frame()[3] == process_start::FRAME_MAGIC@[3]);
            assert(END_MAGIC@[3] != process_start::FRAME_MAGIC@[3]);
        }
        let next = assembly.accept(first, true, capacity, slots)->Ok_0;
        lemma_fragments_are_taken(
            next,
            section,
            required_section,
            payload,
            first.end(),
            rest,
            supported,
            required,
            capacity,
            slots,
        );
    }
}

/// The assembly once the first `i` sections have been received.
spec fn received_sections(sections: Seq<process_start::Section>, i: int) -> process_start::Assembly {
    process_start::Assembly {
        sections: sections.take(i),
        incoming: None,
        completed: i as nat,
        last: if i == 0 {
            None
        } else {
            Some(sections[i - 1].id)
        },
    }
}

proof fn lemma_stored_prefix(sections: Seq<process_start::Section>, i: int)
    requires
        0 <= i < sections.len(),
    ensures
        process_start::stored(sections.take(i)) + sections[i].payload.len()
            <= process_start::stored(sections),
    decreases sections.len(),
{
    if i == sections.len() - 1 {
        assert(sections.take(i) =~= sections.drop_last());
    } else {
        lemma_stored_prefix(sections.drop_last(), i);
        assert(sections.drop_last().take(i) =~= sections.take(i));
    }
}

proof fn lemma_stream_is_taken(
    sections: Seq<process_start::Section>,
    i: int,
    supported: Seq<StartupSectionId>,
    required: Seq<StartupSectionId>,
    capacity: nat,
    slots: nat,
)
    requires
        0 <= i <= sections.len(),
        sendable(sections, supported, capacity, slots),
        process_start::required_sections(
            received_sections(sections, sections.len() as int),
            required,
        ) is Ok,
    ensures
        take_messages(
            received_sections(sections, i),
            stream_from(sections, i),
            supported,
            required,
            capacity,
            slots,
        ) == Some(
            Ok::<_, StartupDataError>(received_sections(sections, sections.len() as int)),
        ),
    decreases sections.len() - i,
{
    let assembly = received_sections(sections, i);
    if i == sections.len() {
        let end = process_start::end_record(sections.len());
        process_start::lemma_end_record_round_trip(sections.len());
        assert(END_MAGIC@.is_prefix_of(end)) by {
            assert(end.subrange(0, 4) =~= END_MAGIC@);
        }
        assert(stream_from(sections, i)[0] == end);
    } else {
        let section = sections[i];
        lemma_placed(sections, 0, i);
        lemma_stored_prefix(sections, i);
        process_start::lemma_fragments_reassemble(
            assembly,
            section.id,
            section.required,
            section.payload,
            capacity,
            slots,
        );
        lemma_fragments_are_taken(
            assembly,
            section.id,
            section.required,
            section.payload,
            0,
            stream_from(sections, i + 1),
            supported,
            required,
            capacity,
            slots,
        );
        assert(sections.take(i).push(section) =~= sections.take(i + 1));
        lemma_stream_is_taken(sections, i + 1, supported, required, capacity, slots);
    }
}

/// A receiver that takes the messages of a process start in order ends with exactly the sections
/// that were sent.
pub proof fn lemma_stream_round_trip(
    sections: Seq<process_start::Section>,
    supported: Seq<StartupSectionId>,
    required: Seq<StartupSectionId>,
    capacity: nat,
    slots: nat,
)
    requires
        sendable(sections, supported, capacity, slots),
        forall|i: int|
            0 <= i < required.len() ==> process_start::lookup(
                sections,
                #[trigger] required[i],
            ) is Some,
    ensures
        take_messages(
            process_start::Assembly::empty(),
            stream_from(sections, 0),
            supported,
            required,
            capacity,
            slots,
        ) matches Some(Ok(assembly)) && assembly.sections == sections && assembly.incoming is None,
{
    assert(sections.take(0) =~= seq![]);
    assert(received_sections(sections, 0) =~= process_start::Assembly::empty());
    let whole = received_sections(sections, sections.len() as int);
    assert(whole.sections =~= sections);
    lemma_all_required(whole, required);
    lemma_stream_is_taken(sections, 0, supported, required, capacity, slots);
}

pub(crate) proof fn lemma_all_required(assembly: process_start::Assembly, required: Seq<StartupSectionId>)
    requires
        assembly.incoming is None,
        forall|i: int|
            0 <= i < required.len() ==> process_start::lookup(
                assembly.sections,
                #[trigger] required[i],
            ) is Some,
    ensures
        process_start::required_sections(assembly, required) is Ok,
    decreases required.len(),
{
    if required.len() > 0 {
        assert(process_start::lookup(assembly.sections, required[0]) is Some);
        assert forall|i: int| 0 <= i < required.drop_first().len() implies process_start::lookup(
            assembly.sections,
            #[trigger] required.drop_first()[i],
        ) is Some by {
            assert(required.drop_first()[i] == required[i + 1]);
        }
        lemma_all_required(assembly, required.drop_first());
    }
}

/// Messages that were sent to an endpoint, with no capability.
pub open spec fn sent(k: kernel::Transcript, endpoint: u64, messages: Seq<Seq<u8>>) -> Seq<
    kernel::Asked,
> {
    k.asked + messages.map_values(
        |message: Seq<u8>|
            kernel::Asked { op: ipc::send_op(endpoint, None), bytes: message, attached: seq![] },
    )
}

proof fn lemma_sent_fragments(
    k: kernel::Transcript,
    endpoint: u64,
    fragments: Seq<process_start::Fragment>,
)
    requires
        send_fragments_run(k, endpoint, fragments).1 matches Some(Ok(_)),
    ensures
        send_fragments_run(k, endpoint, fragments).0.asked =~= sent(
            k,
            endpoint,
            frames_of(fragments),
        ),
    decreases fragments.len(),
{
    if fragments.len() > 0 {
        let (first, _) = ipc::send_run(k, endpoint, fragments[0].frame(), None);
        lemma_sent_fragments(first, endpoint, fragments.drop_first());
        assert(frames_of(fragments) =~= seq![fragments[0].frame()] + frames_of(
            fragments.drop_first(),
        ));
    }
}

proof fn lemma_sent_sections(
    k: kernel::Transcript,
    endpoint: u64,
    sections: Seq<process_start::Section>,
    i: int,
)
    requires
        0 <= i <= sections.len(),
        send_sections_run(k, endpoint, sections, i).1 matches Some(Ok(_)),
    ensures
        send_sections_run(k, endpoint, sections, i).0.asked =~= sent(
            k,
            endpoint,
            stream_from(sections, i),
        ),
    decreases sections.len() - i,
{
    if i < sections.len() {
        let fragments = fragments_of(sections[i]);
        let (after, _) = send_fragments_run(k, endpoint, fragments);
        lemma_sent_fragments(k, endpoint, fragments);
        lemma_sent_sections(after, endpoint, sections, i + 1);
    }
}

/// A send that succeeds has sent exactly the messages of the process start, in order, and nothing
/// else. Together with the round trip of those messages, the receiver gets the sections back.
pub proof fn lemma_successful_send_sends_the_stream(
    k: kernel::Transcript,
    endpoint: u64,
    sections: Seq<process_start::Section>,
)
    requires
        send_data_run(k, endpoint, sections).1 matches Some(Ok(_)),
    ensures
        send_data_run(k, endpoint, sections).0.asked == sent(
            k,
            endpoint,
            stream_from(sections, 0),
        ),
{
    lemma_sent_sections(k, endpoint, sections, 0);
}

/// Why the capabilities of a process start could not be sent.
#[derive(Debug, Clone, Copy, PartialEq, Eq, Structural)]
pub enum StartupSendError {
    Startup(StartupError),
    Ipc(ipc::Error),
}

/// Why the capabilities of a process start could not be received.
#[derive(Debug, Clone, Copy, PartialEq, Eq, Structural)]
pub enum StartupReceiveError {
    Ipc(ipc::Error),
    WrongSender,
    Startup(StartupError),
}

/// Sending the record of a process start with its capabilities.
pub open spec fn send_record_run(
    k: kernel::Transcript,
    endpoint: u64,
    plan: startup_record::StartupPlan,
    transfers: Seq<Transfer>,
) -> (kernel::Transcript, Option<Result<(), StartupSendError>>) {
    if transfers.len() != plan.resources.len() {
        (k, Some(Err(StartupSendError::Startup(StartupError::ResourceLimit))))
    } else {
        let (asked, result) = ipc::send_move_many_run(k, endpoint, plan.record(), transfers);
        (
            asked,
            match result {
                None => None,
                Some(Ok(_)) => Some(Ok(())),
                Some(Err(error)) => Some(Err(StartupSendError::Ipc(error))),
            },
        )
    }
}

/// Sends the record of a process start and moves one capability for each of its entries.
pub fn send_startup_message<const N: usize>(
    k: &mut Kernel,
    endpoint: u64,
    message: &StartupMessage<N>,
    transfers: &[Transfer],
) -> (result: Option<Result<(), StartupSendError>>)
    ensures
        (final(k)@, result) == send_record_run(old(k)@, endpoint, message@, transfers@),
{
    if transfers.len() != message.resource_count() {
        return Some(Err(StartupSendError::Startup(StartupError::ResourceLimit)));
    }
    let mut bytes: [u8; MAX_IPC_MESSAGE_BYTES] = [0;MAX_IPC_MESSAGE_BYTES];
    proof {
        startup_record::lemma_record_length(message@);
    }
    let length: usize = match message.encode(&mut bytes) {
        Ok(length) => length,
        Err(error) => {
            return Some(Err(StartupSendError::Startup(error)));
        },
    };
    let record = &bytes[0..length];
    assert(record@ =~= message@.record());
    match ipc::send_move_many(k, endpoint, record, transfers)? {
        Ok(()) => Some(Ok(())),
        Err(error) => Some(Err(StartupSendError::Ipc(error))),
    }
}

/// Waiting for the record of a process start, yielding while there is none.
pub open spec fn receive_record_run(k: kernel::Transcript, endpoint: u64, handles: usize) -> (
    kernel::Transcript,
    Option<Result<ipc::DeliveryMany, ipc::Error>>,
)
    decreases k.unread(),
{
    let (asked, result) = ipc::try_receive_many_run(
        k,
        endpoint,
        MAX_IPC_MESSAGE_BYTES,
        handles,
    );
    match result {
        None => (asked, None),
        Some(Ok(delivery)) => (asked, Some(Ok(delivery))),
        Some(Err(error)) => if error.error == ipc::Error::try_again() {
            let (yielded, outcome) = syscall::yield_run(asked);
            match outcome {
                None => (yielded, None),
                Some(Err(_)) => (yielded, Some(Err(ipc::Error::io()))),
                Some(Ok(_)) => receive_record_run(yielded, endpoint, handles),
            }
        } else {
            (asked, Some(Err(error.error)))
        },
    }
}

/// Whether a received record is what came out.
pub open spec fn received_record<const N: usize>(
    result: Option<Result<(handle::ReceivedMessageMany<N>, Vec<u8>), ipc::Error>>,
    outcome: Option<Result<ipc::DeliveryMany, ipc::Error>>,
) -> bool {
    match (result, outcome) {
        (None, None) => true,
        (Some(Ok((message, payload))), Some(Ok(delivery))) => {
            &&& message.sender_process_id == delivery.sender_process_id
            &&& payload@ == delivery.payload
            &&& handle::adopted_all(message.capabilities@, delivery.capabilities)
            &&& delivery.capabilities.len() <= N
        },
        (Some(Err(error)), Some(Err(expected))) => error == expected,
        _ => false,
    }
}

/// Receives the record of a process start with at most `N` capabilities.
pub fn receive_record<const N: usize>(k: &mut Kernel, endpoint: &OwnedHandle<Endpoint>) -> (result:
    Option<Result<(handle::ReceivedMessageMany<N>, Vec<u8>), ipc::Error>>)
    requires
        endpoint@ is Some,
    ensures
        final(k)@ == receive_record_run(old(k)@, endpoint@->Some_0, N).0,
        received_record(result, receive_record_run(old(k)@, endpoint@->Some_0, N).1),
{
    loop
        invariant
            endpoint@ is Some,
            receive_record_run(old(k)@, endpoint@->Some_0, N) == receive_record_run(
                k@,
                endpoint@->Some_0,
                N,
            ),
        decreases k@.unread(),
    {
        match endpoint.try_receive_many::<N>(k, MAX_IPC_MESSAGE_BYTES)? {
            Ok(message) => {
                return Some(Ok(message));
            },
            Err(error) => {
                if error.error() == ipc::Error::try_again() {
                    if yield_now(k)?.is_err() {
                        return Some(Err(ipc::Error::io()));
                    }
                } else {
                    return Some(Err(error.error()));
                }
            },
        }
    }
}

/// The handles of received capabilities, in `capacity` slots.
pub open spec fn capability_slots(
    capabilities: Seq<ipc::ReceivedCapability>,
    capacity: nat,
) -> Seq<Option<Option<u64>>> {
    Seq::new(
        capacity,
        |i: int|
            if i < capabilities.len() {
                Some(Some(capabilities[i].handle))
            } else {
                None
            },
    )
}

/// Puts the handles of received capabilities into slots.
pub(crate) fn into_slots<const N: usize>(
    capabilities: Vec<handle::ReceivedCapability>,
    Ghost(delivered): Ghost<Seq<ipc::ReceivedCapability>>,
) -> (slots: [Option<OwnedHandle<AnyObject>>; N])
    requires
        handle::adopted_all(capabilities@, delivered),
        delivered.len() <= N,
    ensures
        runtime_context::handle_slots(slots@) == capability_slots(delivered, N as nat),
        runtime_context::all_live(runtime_context::handle_slots(slots@)),
{
    let mut capabilities = capabilities;
    let mut slots: [Option<OwnedHandle<AnyObject>>; N] = empty_slots();
    while capabilities.len() > 0
        invariant
            capabilities@.len() <= delivered.len() <= N,
            handle::adopted_all(capabilities@, delivered.take(capabilities@.len() as int)),
            forall|i: int|
                0 <= i < N ==> {
                    if capabilities@.len() <= i < delivered.len() {
                        (#[trigger] slots@[i]) is Some && slots@[i]->Some_0@ == Some(
                            delivered[i].handle,
                        )
                    } else {
                        slots@[i] is None
                    }
                },
        decreases capabilities@.len(),
    {
        let ghost before = capabilities@;
        if let Some(capability) = capabilities.pop() {
            let index: usize = capabilities.len();
            assert(before[index as int] == capability);
            assert(delivered.take(before.len() as int)[index as int] == delivered[index as int]);
            slots[index] = Some(capability.handle);
            assert forall|i: int| 0 <= i < capabilities@.len() implies {
                &&& (#[trigger] capabilities@[i]).handle@ == Some(
                    delivered.take(index as int)[i].handle,
                )
                &&& capabilities@[i].rights == delivered.take(index as int)[i].rights
            } by {
                assert(capabilities@[i] == before[i]);
                assert(delivered.take(before.len() as int)[i] == delivered[i]);
            }
        }
    }
    assert(runtime_context::handle_slots(slots@) =~= capability_slots(delivered, N as nat));
    slots
}

/// Closing received capabilities one after the other.
pub open spec fn discard_all_run(k: kernel::Transcript, handles: Seq<Option<Option<u64>>>, i: int) -> (
    kernel::Transcript,
    Option<()>,
)
    decreases handles.len() - i,
{
    if i >= handles.len() {
        (k, Some(()))
    } else {
        match handles[i] {
            None => discard_all_run(k, handles, i + 1),
            Some(raw) => {
                let (closed, done) = handle::discard_run(k, raw);
                match done {
                    None => (closed, None),
                    Some(_) => discard_all_run(closed, handles, i + 1),
                }
            },
        }
    }
}

/// Closes every handle in the slots.
pub fn discard_all<const N: usize>(
    k: &mut Kernel,
    slots: [Option<OwnedHandle<AnyObject>>; N],
) -> (result: Option<()>)
    ensures
        (final(k)@, result) == discard_all_run(
            old(k)@,
            runtime_context::handle_slots(slots@),
            0,
        ),
{
    let mut handles = slots;
    let ghost all = runtime_context::handle_slots(slots@);
    let mut index: usize = 0;
    while index < N
        invariant
            index <= N,
            all == runtime_context::handle_slots(slots@),
            forall|i: int| index <= i < N ==> (#[trigger] handles@[i]) == slots@[i],
            discard_all_run(old(k)@, all, 0) == discard_all_run(k@, all, index as int),
        decreases N - index,
    {
        assert(handles@[index as int] == slots@[index as int]);
        if let Some(handle) = handles[index].take() {
            handle.discard(k)?;
        }
        index += 1;
    }
    Some(())
}

/// Receiving the capabilities of a process start from one trusted sender.
pub open spec fn receive_startup_run(
    k: kernel::Transcript,
    endpoint: u64,
    sender: u64,
    policy: Seq<StartupCapabilityPolicy>,
    role: startup_record::StartupRuntimeRole,
    capacity: usize,
) -> (
    kernel::Transcript,
    Option<Result<Seq<runtime_context::ContextSlot>, StartupReceiveError>>,
) {
    let (asked, message) = receive_record_run(k, endpoint, capacity);
    match message {
        None => (asked, None),
        Some(Err(error)) => (asked, Some(Err(StartupReceiveError::Ipc(error)))),
        Some(Ok(delivery)) => {
            let handles = capability_slots(delivery.capabilities, capacity as nat);
            if delivery.sender_process_id != sender {
                let (closed, done) = discard_all_run(asked, handles, 0);
                (
                    closed,
                    match done {
                        None => None,
                        Some(_) => Some(Err(StartupReceiveError::WrongSender)),
                    },
                )
            } else {
                adopt_record_run(asked, delivery.payload, handles, policy, role)
            }
        },
    }
}

/// Adopting received capabilities, or closing them when the start is rejected.
pub open spec fn adopt_record_run(
    k: kernel::Transcript,
    record: Seq<u8>,
    handles: Seq<Option<Option<u64>>>,
    policy: Seq<StartupCapabilityPolicy>,
    role: startup_record::StartupRuntimeRole,
) -> (
    kernel::Transcript,
    Option<Result<Seq<runtime_context::ContextSlot>, StartupReceiveError>>,
) {
    let (adopted, outcome) = runtime_context::from_startup_run(k, record, handles, policy, role);
    match outcome {
        None => (adopted, None),
        Some(runtime_context::Adoption::Context(slots)) => (adopted, Some(Ok(slots))),
        Some(runtime_context::Adoption::Rejected(error, rejected)) => {
            let (closed, done) = discard_all_run(adopted, rejected, 0);
            (
                closed,
                match done {
                    None => None,
                    Some(_) => Some(Err(StartupReceiveError::Startup(error))),
                },
            )
        },
    }
}

/// Whether a received context is what came out.
pub open spec fn received_context<R: RuntimeRole, const N: usize>(
    result: Option<Result<ProcessContext<R, N>, StartupReceiveError>>,
    outcome: Option<Result<Seq<runtime_context::ContextSlot>, StartupReceiveError>>,
) -> bool {
    match (result, outcome) {
        (None, None) => true,
        (Some(Ok(context)), Some(Ok(slots))) => context@ == slots,
        (Some(Err(error)), Some(Err(expected))) => error == expected,
        _ => false,
    }
}

/// Adopts received capabilities, or closes them when the start is rejected.
pub fn adopt_record<R: RuntimeRole, const N: usize>(
    k: &mut Kernel,
    record: &[u8],
    handles: [Option<OwnedHandle<AnyObject>>; N],
    policies: &[StartupCapabilityPolicy],
) -> (result: Option<Result<ProcessContext<R, N>, StartupReceiveError>>)
    requires
        runtime_context::all_live(runtime_context::handle_slots(handles@)),
    ensures
        final(k)@ == adopt_record_run(
            old(k)@,
            record@,
            runtime_context::handle_slots(handles@),
            policies@,
            R::startup_role_of(),
        ).0,
        received_context(
            result,
            adopt_record_run(
                old(k)@,
                record@,
                runtime_context::handle_slots(handles@),
                policies@,
                R::startup_role_of(),
            ).1,
        ),
{
    match ProcessContext::<R, N>::from_startup(k, record, handles, policies)? {
        Ok(context) => Some(Ok(context)),
        Err(failure) => {
            let (handles, error) = failure.into_parts();
            discard_all(k, handles)?;
            Some(Err(StartupReceiveError::Startup(error)))
        },
    }
}

impl<R: RuntimeRole, const N: usize> ProcessContext<R, N> {
    /// Receives the capabilities of a process start from one trusted sender. Those of a start
    /// that is refused are closed.
    pub fn receive_startup(
        k: &mut Kernel,
        endpoint: &OwnedHandle<Endpoint>,
        expected_sender: u64,
        policies: &[StartupCapabilityPolicy],
    ) -> (result: Option<Result<Self, StartupReceiveError>>)
        requires
            endpoint@ is Some,
        ensures
            final(k)@ == receive_startup_run(
                old(k)@,
                endpoint@->Some_0,
                expected_sender,
                policies@,
                R::startup_role_of(),
                N,
            ).0,
            received_context(
                result,
                receive_startup_run(
                    old(k)@,
                    endpoint@->Some_0,
                    expected_sender,
                    policies@,
                    R::startup_role_of(),
                    N,
                ).1,
            ),
    {
        let (message, payload) = match receive_record::<N>(k, endpoint)? {
            Ok(message) => message,
            Err(error) => {
                return Some(Err(StartupReceiveError::Ipc(error)));
            },
        };
        let ghost delivered = receive_record_run(
            old(k)@,
            endpoint@->Some_0,
            N,
        ).1->Some_0->Ok_0.capabilities;
        let handles = into_slots::<N>(message.capabilities, Ghost(delivered));
        if message.sender_process_id != expected_sender {
            discard_all(k, handles)?;
            return Some(Err(StartupReceiveError::WrongSender));
        }
        adopt_record::<R, N>(k, payload.as_slice(), handles, policies)
    }
}

/// Whether whatever arrived between two points came from one process.
pub open spec fn told_only_by(
    before: kernel::Transcript,
    after: kernel::Transcript,
    sender: u64,
) -> bool {
    forall|i: int|
        before.asked.len() <= i < after.asked.len() && i < after.replies.len() && (
        #[trigger] after.asked[i]).op is TryReceive && ipc::decoded(after.replies[i].result) is Ok
            ==> after.replies[i].words[0] == sender
}

proof fn lemma_message_is_its_senders(k: kernel::Transcript, endpoint: u64)
    requires
        receive_message_run(k, endpoint).1 matches Some(Ok(_)),
    ensures
        receive_message_run(k, endpoint).0.follows(k),
        told_only_by(
            k,
            receive_message_run(k, endpoint).0,
            receive_message_run(k, endpoint).1->Some_0->Ok_0.message.sender_process_id,
        ),
    decreases k.unread(),
{
    let (asked, result) = ipc::try_receive_run(k, endpoint, MAX_IPC_MESSAGE_BYTES);
    if let Some(Err(error)) = result {
        let (yielded, _) = syscall::yield_run(asked);
        lemma_message_is_its_senders(yielded, endpoint);
        let after = receive_message_run(k, endpoint).0;
        assert(after.asked[asked.asked.len() as int] == yielded.asked[asked.asked.len() as int]);
        assert(after.asked[k.asked.len() as int] == yielded.asked[k.asked.len() as int]);
        assert forall|i: int| 0 <= i < k.asked.len() implies after.asked[i]
            == #[trigger] k.asked[i] by {
            assert(yielded.asked[i] == k.asked[i]);
        }
    }
}

proof fn lemma_data_is_its_senders(
    k: kernel::Transcript,
    endpoint: u64,
    sender: u64,
    assembly: process_start::Assembly,
    supported: Seq<StartupSectionId>,
    required: Seq<StartupSectionId>,
    capacity: nat,
    slots: nat,
)
    requires
        receive_data_run(
            k,
            endpoint,
            sender,
            assembly,
            supported,
            required,
            capacity,
            slots,
        ).1 matches Some(Ok(_)),
    ensures
        ({
            let after = receive_data_run(
                k,
                endpoint,
                sender,
                assembly,
                supported,
                required,
                capacity,
                slots,
            ).0;
            &&& after.follows(k)
            &&& told_only_by(k, after, sender)
        }),
    decreases k.unread(),
{
    lemma_receive_message_progress(k, endpoint);
    let (asked, message) = receive_message_run(k, endpoint);
    let delivery = message->Some_0->Ok_0;
    lemma_message_is_its_senders(k, endpoint);
    match take_message(assembly, delivery.payload, supported, required, capacity, slots) {
        Progress::Finished(_) => {},
        Progress::Continue(next) => {
            lemma_data_is_its_senders(
                asked,
                endpoint,
                sender,
                next,
                supported,
                required,
                capacity,
                slots,
            );
            let after = receive_data_run(
                k,
                endpoint,
                sender,
                assembly,
                supported,
                required,
                capacity,
                slots,
            ).0;
            assert forall|i: int| 0 <= i < k.asked.len() implies after.asked[i]
                == #[trigger] k.asked[i] by {
                assert(asked.asked[i] == k.asked[i]);
            }
            assert forall|i: int|
                k.asked.len() <= i < asked.asked.len() implies #[trigger] after.asked[i]
                == asked.asked[i] by {}
        },
    }
}

/// A process start that is taken was told by its sender alone, over an endpoint that its
/// receiver could only receive from.
pub proof fn lemma_received_start_is_its_senders(
    k: kernel::Transcript,
    endpoint: u64,
    sender: u64,
    supported: Seq<StartupSectionId>,
    required: Seq<StartupSectionId>,
    capacity: nat,
    slots: nat,
)
    ensures
        ({
            let (after, start) = receive_start_run(
                k,
                endpoint,
                sender,
                supported,
                required,
                capacity,
                slots,
            );
            start matches Some(Ok(_)) ==> {
                &&& sender != 0
                &&& after.follows(k)
                &&& told_only_by(k, after, sender)
                &&& ipc::info_run(k, endpoint).1 matches Some(Ok(info)) && info.kind
                    == ObjectKind::Endpoint && info.rights == Rights::receive()
            }
        }),
{
    let (after, start) = receive_start_run(
        k,
        endpoint,
        sender,
        supported,
        required,
        capacity,
        slots,
    );
    if start matches Some(Ok(_)) {
        let asked = ipc::info_run(k, endpoint).0;
        lemma_data_is_its_senders(
            asked,
            endpoint,
            sender,
            process_start::Assembly::empty(),
            supported,
            required,
            capacity,
            slots,
        );
        assert(after.asked[k.asked.len() as int] == asked.asked[k.asked.len() as int]);
        assert forall|i: int| 0 <= i < k.asked.len() implies after.asked[i]
            == #[trigger] k.asked[i] by {
            assert(asked.asked[i] == k.asked[i]);
        }
    }
}

proof fn lemma_discarded_handles_are_closed(
    k: kernel::Transcript,
    handles: Seq<Option<Option<u64>>>,
    i: int,
)
    requires
        0 <= i <= handles.len(),
        discard_all_run(k, handles, i).1 is Some,
    ensures
        discard_all_run(k, handles, i).0.follows(k),
        forall|j: int|
            i <= j < handles.len() ==> ((#[trigger] handles[j]) matches Some(Some(handle)) ==> {
                discard_all_run(k, handles, i).0.asked_since(k, kernel::closing(handle))
            }),
    decreases handles.len() - i,
{
    if i < handles.len() {
        let after = discard_all_run(k, handles, i).0;
        match handles[i] {
            None => lemma_discarded_handles_are_closed(k, handles, i + 1),
            Some(raw) => {
                let closed = handle::discard_run(k, raw).0;
                lemma_discarded_handles_are_closed(closed, handles, i + 1);
                assert forall|j: int| 0 <= j < k.asked.len() implies after.asked[j]
                    == #[trigger] k.asked[j] by {
                    assert(closed.asked[j] == k.asked[j]);
                }
                if raw is Some {
                    assert(after.asked[k.asked.len() as int] == closed.asked[k.asked.len() as int]);
                }
                assert forall|j: int| i <= j < handles.len() implies ((
                #[trigger] handles[j]) matches Some(Some(handle)) ==> {
                    after.asked_since(k, kernel::closing(handle))
                }) by {
                    if let Some(Some(handle)) = handles[j] {
                        if j > i {
                            assert(after.asked_since(closed, kernel::closing(handle)));
                        }
                    }
                }
            },
        }
    }
}

/// The capabilities of a process start are taken from its sender alone. What another process
/// sent is closed, all of it.
pub proof fn lemma_received_capabilities_are_their_senders(
    k: kernel::Transcript,
    endpoint: u64,
    sender: u64,
    policy: Seq<StartupCapabilityPolicy>,
    role: startup_record::StartupRuntimeRole,
    capacity: usize,
)
    ensures
        ({
            let (asked, message) = receive_record_run(k, endpoint, capacity);
            let (after, context) = receive_startup_run(k, endpoint, sender, policy, role, capacity);
            &&& context matches Some(Ok(_)) ==> message matches Some(Ok(delivery))
                && delivery.sender_process_id == sender
            &&& message matches Some(Ok(delivery)) ==> (delivery.sender_process_id != sender
                && context is Some && delivery.capabilities.len() <= capacity ==> {
                &&& context == Some::<Result<Seq<runtime_context::ContextSlot>, _>>(
                    Err(StartupReceiveError::WrongSender),
                )
                &&& forall|i: int|
                    0 <= i < delivery.capabilities.len() ==> after.asked_since(
                        asked,
                        kernel::closing((#[trigger] delivery.capabilities[i]).handle),
                    )
            })
        }),
{
    let (asked, message) = receive_record_run(k, endpoint, capacity);
    let (after, context) = receive_startup_run(k, endpoint, sender, policy, role, capacity);
    if let Some(Ok(delivery)) = message {
        if delivery.sender_process_id != sender && context is Some && delivery.capabilities.len()
            <= capacity {
            let handles = capability_slots(delivery.capabilities, capacity as nat);
            lemma_discarded_handles_are_closed(asked, handles, 0);
            assert forall|i: int| 0 <= i < delivery.capabilities.len() implies after.asked_since(
                asked,
                kernel::closing((#[trigger] delivery.capabilities[i]).handle),
            ) by {
                assert(handles[i] == Some(Some(delivery.capabilities[i].handle)));
            }
        }
    }
}

} // verus!
