//! Capability handles and bounded IPC primitives.
//!
//! Kernel operations do not block. [`receive`], [`notification_wait`], [`job_wait`] and
//! [`wait_for_handle`] add cooperative blocking by yielding whenever the requested state is not
//! ready.

use crate::abi;
use crate::bytes::to_vec;
use crate::kernel::{Attachment, Kernel, Op};
use crate::kernel;
use crate::syscall;
use crate::syscall::{yield_now, ChildStatus};
use vstd::prelude::*;

verus! {

pub type CapabilityHandle = u64;

/// A kernel error, by its positive code.
#[derive(Debug, Clone, Copy, PartialEq, Eq, Structural)]
pub struct Error {
    pub raw: i32,
}

impl Error {
    #[verifier::allow_in_spec]
    pub fn no_entry() -> Self
        returns
            (Error { raw: abi::ERRNO_NO_ENTRY }),
    {
        Error { raw: abi::ERRNO_NO_ENTRY }
    }

    #[verifier::allow_in_spec]
    pub fn no_process() -> Self
        returns
            (Error { raw: abi::ERRNO_NO_PROCESS }),
    {
        Error { raw: abi::ERRNO_NO_PROCESS }
    }

    #[verifier::allow_in_spec]
    pub fn io() -> Self
        returns
            (Error { raw: abi::ERRNO_IO }),
    {
        Error { raw: abi::ERRNO_IO }
    }

    #[verifier::allow_in_spec]
    pub fn bad_file_descriptor() -> Self
        returns
            (Error { raw: abi::ERRNO_BAD_FILE_DESCRIPTOR }),
    {
        Error { raw: abi::ERRNO_BAD_FILE_DESCRIPTOR }
    }

    #[verifier::allow_in_spec]
    pub fn no_child() -> Self
        returns
            (Error { raw: abi::ERRNO_NO_CHILD }),
    {
        Error { raw: abi::ERRNO_NO_CHILD }
    }

    #[verifier::allow_in_spec]
    pub fn try_again() -> Self
        returns
            (Error { raw: abi::ERRNO_TRY_AGAIN }),
    {
        Error { raw: abi::ERRNO_TRY_AGAIN }
    }

    #[verifier::allow_in_spec]
    pub fn permission() -> Self
        returns
            (Error { raw: abi::ERRNO_PERMISSION }),
    {
        Error { raw: abi::ERRNO_PERMISSION }
    }

    #[verifier::allow_in_spec]
    pub fn bad_address() -> Self
        returns
            (Error { raw: abi::ERRNO_BAD_ADDRESS }),
    {
        Error { raw: abi::ERRNO_BAD_ADDRESS }
    }

    #[verifier::allow_in_spec]
    pub fn invalid_argument() -> Self
        returns
            (Error { raw: abi::ERRNO_INVALID_ARGUMENT }),
    {
        Error { raw: abi::ERRNO_INVALID_ARGUMENT }
    }

    #[verifier::allow_in_spec]
    pub fn no_space() -> Self
        returns
            (Error { raw: abi::ERRNO_NO_SPACE }),
    {
        Error { raw: abi::ERRNO_NO_SPACE }
    }

    #[verifier::allow_in_spec]
    pub fn range() -> Self
        returns
            (Error { raw: abi::ERRNO_RANGE }),
    {
        Error { raw: abi::ERRNO_RANGE }
    }

    #[verifier::allow_in_spec]
    pub fn not_implemented() -> Self
        returns
            (Error { raw: abi::ERRNO_NOT_IMPLEMENTED }),
    {
        Error { raw: abi::ERRNO_NOT_IMPLEMENTED }
    }

    #[verifier::allow_in_spec]
    pub fn timed_out() -> Self
        returns
            (Error { raw: abi::ERRNO_TIMED_OUT }),
    {
        Error { raw: abi::ERRNO_TIMED_OUT }
    }

    #[verifier::allow_in_spec]
    pub fn interrupted() -> Self
        returns
            (Error { raw: abi::ERRNO_INTERRUPTED }),
    {
        Error { raw: abi::ERRNO_INTERRUPTED }
    }

    pub fn code(self) -> (code: i32)
        ensures
            code == self.raw,
    {
        self.raw
    }
}

/// What a result register says: a negative value, read as a signed integer, is an error.
pub open spec fn decoded(raw: u64) -> Result<u64, Error> {
    if raw >= 0x8000_0000_0000_0000 {
        Err(Error { raw: ((u64::MAX - raw + 1) as u64) as i32 })
    } else {
        Ok(raw)
    }
}

pub fn decode(raw: u64) -> (result: Result<u64, Error>)
    ensures
        result == decoded(raw),
{
    if raw >= 0x8000_0000_0000_0000 {
        let code: u64 = u64::MAX - raw + 1;
        Err(Error { raw: code as i32 })
    } else {
        Ok(raw)
    }
}

/// The rights of a capability.
#[derive(Debug, Clone, Copy, PartialEq, Eq, Structural)]
pub struct Rights {
    pub raw: u64,
}

impl Rights {
    #[verifier::allow_in_spec]
    pub fn empty() -> Self
        returns
            (Rights { raw: 0 }),
    {
        Rights { raw: 0 }
    }

    #[verifier::allow_in_spec]
    pub fn duplicate() -> Self
        returns
            (Rights { raw: abi::RIGHT_DUPLICATE }),
    {
        Rights { raw: abi::RIGHT_DUPLICATE }
    }

    #[verifier::allow_in_spec]
    pub fn transfer() -> Self
        returns
            (Rights { raw: abi::RIGHT_TRANSFER }),
    {
        Rights { raw: abi::RIGHT_TRANSFER }
    }

    #[verifier::allow_in_spec]
    pub fn send() -> Self
        returns
            (Rights { raw: abi::RIGHT_SEND }),
    {
        Rights { raw: abi::RIGHT_SEND }
    }

    #[verifier::allow_in_spec]
    pub fn receive() -> Self
        returns
            (Rights { raw: abi::RIGHT_RECEIVE }),
    {
        Rights { raw: abi::RIGHT_RECEIVE }
    }

    #[verifier::allow_in_spec]
    pub fn signal() -> Self
        returns
            (Rights { raw: abi::RIGHT_SIGNAL }),
    {
        Rights { raw: abi::RIGHT_SIGNAL }
    }

    #[verifier::allow_in_spec]
    pub fn wait() -> Self
        returns
            (Rights { raw: abi::RIGHT_WAIT }),
    {
        Rights { raw: abi::RIGHT_WAIT }
    }

    #[verifier::allow_in_spec]
    pub fn read() -> Self
        returns
            (Rights { raw: abi::RIGHT_READ }),
    {
        Rights { raw: abi::RIGHT_READ }
    }

    #[verifier::allow_in_spec]
    pub fn write() -> Self
        returns
            (Rights { raw: abi::RIGHT_WRITE }),
    {
        Rights { raw: abi::RIGHT_WRITE }
    }

    #[verifier::allow_in_spec]
    pub fn manage() -> Self
        returns
            (Rights { raw: abi::RIGHT_MANAGE }),
    {
        Rights { raw: abi::RIGHT_MANAGE }
    }

    #[verifier::allow_in_spec]
    pub fn endpoint() -> Self
        returns
            (Rights { raw: abi::ENDPOINT_RIGHTS }),
    {
        Rights { raw: abi::ENDPOINT_RIGHTS }
    }

    #[verifier::allow_in_spec]
    pub fn notification() -> Self
        returns
            (Rights { raw: abi::NOTIFICATION_RIGHTS }),
    {
        Rights { raw: abi::NOTIFICATION_RIGHTS }
    }

    #[verifier::allow_in_spec]
    pub fn shared_memory() -> Self
        returns
            (Rights { raw: abi::SHARED_MEMORY_RIGHTS }),
    {
        Rights { raw: abi::SHARED_MEMORY_RIGHTS }
    }

    #[verifier::allow_in_spec]
    pub fn kernel_early_log_reader() -> Self
        returns
            (Rights { raw: abi::KERNEL_EARLY_LOG_READER_RIGHTS }),
    {
        Rights { raw: abi::KERNEL_EARLY_LOG_READER_RIGHTS }
    }

    #[verifier::allow_in_spec]
    pub fn job() -> Self
        returns
            (Rights { raw: abi::JOB_RIGHTS }),
    {
        Rights { raw: abi::JOB_RIGHTS }
    }

    #[verifier::allow_in_spec]
    pub fn wait_set() -> Self
        returns
            (Rights { raw: abi::WAIT_SET_RIGHTS }),
    {
        Rights { raw: abi::WAIT_SET_RIGHTS }
    }

    #[verifier::allow_in_spec]
    pub fn event_port() -> Self
        returns
            (Rights { raw: abi::EVENT_PORT_RIGHTS }),
    {
        Rights { raw: abi::EVENT_PORT_RIGHTS }
    }

    #[verifier::allow_in_spec]
    pub fn timer() -> Self
        returns
            (Rights { raw: abi::TIMER_RIGHTS }),
    {
        Rights { raw: abi::TIMER_RIGHTS }
    }

    #[verifier::allow_in_spec]
    pub fn event() -> Self
        returns
            (Rights { raw: abi::EVENT_RIGHTS }),
    {
        Rights { raw: abi::EVENT_RIGHTS }
    }

    /// Rights from their bits, if every bit is a known right.
    #[verifier::allow_in_spec]
    pub fn from_bits(bits: u64) -> Option<Self>
        returns
            (if bits & !abi::ALL_RIGHTS == 0 {
                Some(Rights { raw: bits })
            } else {
                None
            }),
    {
        if bits & !abi::ALL_RIGHTS == 0 {
            Some(Rights { raw: bits })
        } else {
            None
        }
    }

    pub fn bits(self) -> (bits: u64)
        ensures
            bits == self.raw,
    {
        self.raw
    }

    /// Whether every right of `other` is among these.
    #[verifier::allow_in_spec]
    pub fn contains(self, other: Self) -> bool
        returns
            self.raw & other.raw == other.raw,
    {
        self.raw & other.raw == other.raw
    }

    /// These rights and those of `other`.
    #[verifier::allow_in_spec]
    pub fn with(self, other: Self) -> Self
        returns
            (Rights { raw: self.raw | other.raw }),
    {
        Rights { raw: self.raw | other.raw }
    }

    /// The rights that both have.
    #[verifier::allow_in_spec]
    pub fn common(self, other: Self) -> Self
        returns
            (Rights { raw: self.raw & other.raw }),
    {
        Rights { raw: self.raw & other.raw }
    }
}

impl core::ops::BitOr for Rights {
    type Output = Self;

    fn bitor(self, rhs: Self) -> (rights: Self) {
        Rights { raw: self.raw | rhs.raw }
    }
}

impl vstd::std_specs::ops::BitOrSpecImpl for Rights {
    open spec fn obeys_bitor_spec() -> bool {
        true
    }

    open spec fn bitor_req(self, rhs: Self) -> bool {
        true
    }

    open spec fn bitor_spec(self, rhs: Self) -> Self {
        Rights { raw: self.raw | rhs.raw }
    }
}

/// Combining rights keeps what either side had: the result contains both.
pub proof fn lemma_rights_union_contains_both(left: Rights, right: Rights)
    ensures
        left.with(right).contains(left),
        left.with(right).contains(right),
{
    let a = left.raw;
    let b = right.raw;
    assert((a | b) & a == a) by (bit_vector);
    assert((a | b) & b == b) by (bit_vector);
}

/// Tightening rights to a ceiling never adds a right: the result is contained in both sides.
pub proof fn lemma_common_rights_are_contained(delivered: Rights, ceiling: Rights)
    ensures
        delivered.contains(delivered.common(ceiling)),
        ceiling.contains(delivered.common(ceiling)),
{
    let a = delivered.raw;
    let b = ceiling.raw;
    assert(a & (a & b) == a & b) by (bit_vector);
    assert(b & (a & b) == a & b) by (bit_vector);
}

/// The state of an object.
#[derive(Debug, Clone, Copy, PartialEq, Eq, Structural)]
pub struct Signals {
    pub raw: u64,
}

impl Signals {
    #[verifier::allow_in_spec]
    pub fn empty() -> Self
        returns
            (Signals { raw: 0 }),
    {
        Signals { raw: 0 }
    }

    #[verifier::allow_in_spec]
    pub fn readable() -> Self
        returns
            (Signals { raw: abi::SIGNAL_READABLE }),
    {
        Signals { raw: abi::SIGNAL_READABLE }
    }

    #[verifier::allow_in_spec]
    pub fn writable() -> Self
        returns
            (Signals { raw: abi::SIGNAL_WRITABLE }),
    {
        Signals { raw: abi::SIGNAL_WRITABLE }
    }

    #[verifier::allow_in_spec]
    pub fn peer_closed() -> Self
        returns
            (Signals { raw: abi::SIGNAL_PEER_CLOSED }),
    {
        Signals { raw: abi::SIGNAL_PEER_CLOSED }
    }

    #[verifier::allow_in_spec]
    pub fn signaled() -> Self
        returns
            (Signals { raw: abi::SIGNAL_SIGNALED }),
    {
        Signals { raw: abi::SIGNAL_SIGNALED }
    }

    #[verifier::allow_in_spec]
    pub fn terminated() -> Self
        returns
            (Signals { raw: abi::SIGNAL_TERMINATED }),
    {
        Signals { raw: abi::SIGNAL_TERMINATED }
    }

    #[verifier::allow_in_spec]
    pub fn timer_fired() -> Self
        returns
            (Signals { raw: abi::SIGNAL_TIMER_FIRED }),
    {
        Signals { raw: abi::SIGNAL_TIMER_FIRED }
    }

    /// Signals from their bits, if every bit is a known signal.
    #[verifier::allow_in_spec]
    pub fn from_bits(bits: u64) -> Option<Self>
        returns
            (if bits & !abi::ALL_SIGNALS == 0 {
                Some(Signals { raw: bits })
            } else {
                None
            }),
    {
        if bits & !abi::ALL_SIGNALS == 0 {
            Some(Signals { raw: bits })
        } else {
            None
        }
    }

    pub fn bits(self) -> (bits: u64)
        ensures
            bits == self.raw,
    {
        self.raw
    }

    /// Whether every signal of `other` is among these.
    #[verifier::allow_in_spec]
    pub fn contains(self, other: Self) -> bool
        returns
            self.raw & other.raw == other.raw,
    {
        self.raw & other.raw == other.raw
    }
}

impl core::ops::BitOr for Signals {
    type Output = Self;

    fn bitor(self, rhs: Self) -> (signals: Self) {
        Signals { raw: self.raw | rhs.raw }
    }
}

impl vstd::std_specs::ops::BitOrSpecImpl for Signals {
    open spec fn obeys_bitor_spec() -> bool {
        true
    }

    open spec fn bitor_req(self, rhs: Self) -> bool {
        true
    }

    open spec fn bitor_spec(self, rhs: Self) -> Self {
        Signals { raw: self.raw | rhs.raw }
    }
}

/// An absolute point in monotonic time.
#[derive(Debug, Clone, Copy, PartialEq, Eq, Structural)]
pub struct Deadline {
    pub nanoseconds: u64,
}

impl Deadline {
    #[verifier::allow_in_spec]
    pub fn immediate() -> Self
        returns
            (Deadline { nanoseconds: abi::DEADLINE_IMMEDIATE }),
    {
        Deadline { nanoseconds: abi::DEADLINE_IMMEDIATE }
    }

    #[verifier::allow_in_spec]
    pub fn infinite() -> Self
        returns
            (Deadline { nanoseconds: abi::DEADLINE_INFINITE }),
    {
        Deadline { nanoseconds: abi::DEADLINE_INFINITE }
    }

    pub fn from_monotonic_ns(nanoseconds: u64) -> (deadline: Self)
        ensures
            deadline == (Deadline { nanoseconds }),
    {
        Deadline { nanoseconds }
    }

    pub fn as_monotonic_ns(self) -> (nanoseconds: u64)
        ensures
            nanoseconds == self.nanoseconds,
    {
        self.nanoseconds
    }
}

/// The kind of a kernel object.
#[derive(Debug, Clone, Copy, PartialEq, Eq, Structural)]
pub enum ObjectKind {
    Endpoint,
    Notification,
    SharedMemory,
    KernelEarlyLogReader,
    Job,
    WaitSet,
    EventPort,
    Timer,
    Event,
}

impl ObjectKind {
    #[verifier::allow_in_spec]
    pub fn from_raw(raw: u64) -> Option<Self>
        returns
            (if raw == abi::KIND_ENDPOINT {
                Some(Self::Endpoint)
            } else if raw == abi::KIND_NOTIFICATION {
                Some(Self::Notification)
            } else if raw == abi::KIND_SHARED_MEMORY {
                Some(Self::SharedMemory)
            } else if raw == abi::KIND_KERNEL_EARLY_LOG_READER {
                Some(Self::KernelEarlyLogReader)
            } else if raw == abi::KIND_JOB {
                Some(Self::Job)
            } else if raw == abi::KIND_WAIT_SET {
                Some(Self::WaitSet)
            } else if raw == abi::KIND_EVENT_PORT {
                Some(Self::EventPort)
            } else if raw == abi::KIND_TIMER {
                Some(Self::Timer)
            } else if raw == abi::KIND_EVENT {
                Some(Self::Event)
            } else {
                None
            }),
    {
        if raw == abi::KIND_ENDPOINT {
            Some(Self::Endpoint)
        } else if raw == abi::KIND_NOTIFICATION {
            Some(Self::Notification)
        } else if raw == abi::KIND_SHARED_MEMORY {
            Some(Self::SharedMemory)
        } else if raw == abi::KIND_KERNEL_EARLY_LOG_READER {
            Some(Self::KernelEarlyLogReader)
        } else if raw == abi::KIND_JOB {
            Some(Self::Job)
        } else if raw == abi::KIND_WAIT_SET {
            Some(Self::WaitSet)
        } else if raw == abi::KIND_EVENT_PORT {
            Some(Self::EventPort)
        } else if raw == abi::KIND_TIMER {
            Some(Self::Timer)
        } else if raw == abi::KIND_EVENT {
            Some(Self::Event)
        } else {
            None
        }
    }
}

/// What the kernel says of a capability.
#[derive(Debug, Clone, Copy, PartialEq, Eq, Structural)]
pub struct CapabilityInfo {
    pub object_id: u64,
    pub kind: ObjectKind,
    pub rights: Rights,
    pub size: u64,
}

/// A capability attached to a message.
#[derive(Debug, Clone, Copy, PartialEq, Eq, Structural)]
pub struct Transfer {
    pub handle: CapabilityHandle,
    pub rights: Rights,
}

/// A capability that came with a message.
#[derive(Debug, Clone, Copy, PartialEq, Eq, Structural)]
pub struct ReceivedCapability {
    pub handle: CapabilityHandle,
    pub rights: Rights,
}

/// What came with a message besides its bytes.
#[derive(Debug, Clone, Copy, PartialEq, Eq, Structural)]
pub struct ReceivedMessage {
    pub sender_process_id: u64,
    pub bytes: usize,
    pub capability: Option<ReceivedCapability>,
}

/// A message and its bytes.
#[derive(Debug)]
pub struct Received {
    pub message: ReceivedMessage,
    pub payload: Vec<u8>,
}

/// A message as the contracts see it.
#[verifier::ext_equal]
pub ghost struct Delivery {
    pub message: ReceivedMessage,
    pub payload: Seq<u8>,
}

impl View for Received {
    type V = Delivery;

    open spec fn view(&self) -> Delivery {
        Delivery { message: self.message, payload: self.payload@ }
    }
}

/// A process that left a job.
#[derive(Debug, Clone, Copy, PartialEq, Eq, Structural)]
pub struct JobExit {
    pub process_id: u64,
    pub status: ChildStatus,
}

/// A call whose answer is its result register.
pub open spec fn value_run(k: kernel::Transcript, op: Op) -> (
    kernel::Transcript,
    Option<Result<u64, Error>>,
) {
    (
        k.call(op),
        match k.reply() {
            Some(reply) => Some(decoded(reply.result)),
            None => None,
        },
    )
}

/// A call whose answer is success or an error.
pub open spec fn unit_run(k: kernel::Transcript, op: Op, bytes: Seq<u8>) -> (
    kernel::Transcript,
    Option<Result<(), Error>>,
) {
    (
        k.ask(op, bytes),
        match k.reply() {
            Some(reply) => Some(
                match decoded(reply.result) {
                    Ok(_) => Ok(()),
                    Err(error) => Err(error),
                },
            ),
            None => None,
        },
    )
}

fn value_call(k: &mut Kernel, op: Op) -> (result: Option<Result<u64, Error>>)
    ensures
        (final(k)@, result) == value_run(old(k)@, op),
{
    let answer = k.call(op)?;
    Some(decode(answer.result))
}

fn unit_call(k: &mut Kernel, op: Op, bytes: Vec<u8>) -> (result: Option<Result<(), Error>>)
    ensures
        (final(k)@, result) == unit_run(old(k)@, op, bytes@),
{
    let answer = k.ask(op, bytes)?;
    match decode(answer.result) {
        Ok(_) => Some(Ok(())),
        Err(error) => Some(Err(error)),
    }
}

pub fn duplicate(k: &mut Kernel, handle: CapabilityHandle, rights: Rights) -> (result: Option<
    Result<CapabilityHandle, Error>,
>)
    ensures
        (final(k)@, result) == value_run(old(k)@, Op::Duplicate { handle, rights: rights.raw }),
{
    value_call(k, Op::Duplicate { handle, rights: rights.bits() })
}

pub fn replace(k: &mut Kernel, handle: CapabilityHandle, rights: Rights) -> (result: Option<
    Result<CapabilityHandle, Error>,
>)
    ensures
        (final(k)@, result) == value_run(old(k)@, Op::Replace { handle, rights: rights.raw }),
{
    value_call(k, Op::Replace { handle, rights: rights.bits() })
}

pub fn grant_child(
    k: &mut Kernel,
    child_process_id: u64,
    source_handle: CapabilityHandle,
    rights: Rights,
    requested_child_handle: CapabilityHandle,
) -> (result: Option<Result<CapabilityHandle, Error>>)
    ensures
        (final(k)@, result) == value_run(
            old(k)@,
            Op::GrantChild {
                process_id: child_process_id,
                handle: source_handle,
                rights: rights.raw,
                target: requested_child_handle,
            },
        ),
{
    value_call(
        k,
        Op::GrantChild {
            process_id: child_process_id,
            handle: source_handle,
            rights: rights.bits(),
            target: requested_child_handle,
        },
    )
}

/// Closing a handle.
pub open spec fn close_run(k: kernel::Transcript, handle: CapabilityHandle) -> (
    kernel::Transcript,
    Option<Result<(), Error>>,
) {
    unit_run(k, Op::Close { handle }, seq![])
}

pub fn close(k: &mut Kernel, handle: CapabilityHandle) -> (result: Option<Result<(), Error>>)
    ensures
        (final(k)@, result) == close_run(old(k)@, handle),
{
    unit_call(k, Op::Close { handle }, Vec::new())
}

/// The capability that an answer describes: object, kind, rights and size, in this order.
pub open spec fn described(reply: kernel::Reply) -> Result<CapabilityInfo, Error> {
    match decoded(reply.result) {
        Err(error) => Err(error),
        Ok(_) => match (ObjectKind::from_raw(reply.words[1]), Rights::from_bits(reply.words[2])) {
            (Some(kind), Some(rights)) => Ok(
                CapabilityInfo {
                    object_id: reply.words[0],
                    kind,
                    rights,
                    size: reply.words[3],
                },
            ),
            _ => Err(Error::io()),
        },
    }
}

pub open spec fn info_run(k: kernel::Transcript, handle: CapabilityHandle) -> (
    kernel::Transcript,
    Option<Result<CapabilityInfo, Error>>,
) {
    (
        k.call(Op::Info { handle }),
        match k.reply() {
            Some(reply) => Some(described(reply)),
            None => None,
        },
    )
}

pub fn info(k: &mut Kernel, handle: CapabilityHandle) -> (result: Option<
    Result<CapabilityInfo, Error>,
>)
    ensures
        (final(k)@, result) == info_run(old(k)@, handle),
{
    let answer = k.call(Op::Info { handle })?;
    if let Err(error) = decode(answer.result) {
        return Some(Err(error));
    }
    let kind = match ObjectKind::from_raw(answer.words[1]) {
        Some(kind) => kind,
        None => {
            return Some(Err(Error::io()));
        },
    };
    let rights = match Rights::from_bits(answer.words[2]) {
        Some(rights) => rights,
        None => {
            return Some(Err(Error::io()));
        },
    };
    Some(Ok(CapabilityInfo { object_id: answer.words[0], kind, rights, size: answer.words[3] }))
}

/// A call whose answer is a set of signals.
pub open spec fn signals_run(k: kernel::Transcript, op: Op) -> (
    kernel::Transcript,
    Option<Result<Signals, Error>>,
) {
    (
        k.call(op),
        match k.reply() {
            Some(reply) => Some(
                match decoded(reply.result) {
                    Err(error) => Err(error),
                    Ok(bits) => match Signals::from_bits(bits) {
                        Some(signals) => Ok(signals),
                        None => Err(Error::io()),
                    },
                },
            ),
            None => None,
        },
    )
}

fn signals_call(k: &mut Kernel, op: Op) -> (result: Option<Result<Signals, Error>>)
    ensures
        (final(k)@, result) == signals_run(old(k)@, op),
{
    let answer = k.call(op)?;
    match decode(answer.result) {
        Err(error) => Some(Err(error)),
        Ok(bits) => match Signals::from_bits(bits) {
            Some(signals) => Some(Ok(signals)),
            None => Some(Err(Error::io())),
        },
    }
}

pub fn signal_state(k: &mut Kernel, handle: CapabilityHandle) -> (result: Option<
    Result<Signals, Error>,
>)
    ensures
        (final(k)@, result) == signals_run(old(k)@, Op::SignalState { handle }),
{
    signals_call(k, Op::SignalState { handle })
}

pub fn wait_one(
    k: &mut Kernel,
    handle: CapabilityHandle,
    requested: Signals,
    deadline: Deadline,
) -> (result: Option<Result<Signals, Error>>)
    ensures
        (final(k)@, result) == signals_run(
            old(k)@,
            Op::WaitOne { handle, signals: requested.raw, deadline: deadline.nanoseconds },
        ),
{
    signals_call(
        k,
        Op::WaitOne {
            handle,
            signals: requested.bits(),
            deadline: deadline.as_monotonic_ns(),
        },
    )
}

/// Inspecting a handle until it is there, yielding in between.
pub open spec fn wait_for_handle_run(k: kernel::Transcript, handle: CapabilityHandle) -> (
    kernel::Transcript,
    Option<Result<CapabilityInfo, Error>>,
)
    decreases k.unread(),
{
    let (asked, result) = info_run(k, handle);
    match result {
        None => (asked, None),
        Some(Ok(info)) => (asked, Some(Ok(info))),
        Some(Err(error)) => if error == Error::bad_file_descriptor() || error
            == Error::try_again() {
            let (yielded, outcome) = syscall::yield_run(asked);
            match outcome {
                None => (yielded, None),
                Some(Err(_)) => (yielded, Some(Err(Error::io()))),
                Some(Ok(_)) => wait_for_handle_run(yielded, handle),
            }
        } else {
            (asked, Some(Err(error)))
        },
    }
}

pub fn wait_for_handle(k: &mut Kernel, handle: CapabilityHandle) -> (result: Option<
    Result<CapabilityInfo, Error>,
>)
    ensures
        (final(k)@, result) == wait_for_handle_run(old(k)@, handle),
{
    loop
        invariant
            wait_for_handle_run(old(k)@, handle) == wait_for_handle_run(k@, handle),
        decreases k@.unread(),
    {
        match info(k, handle)? {
            Ok(info) => {
                return Some(Ok(info));
            },
            Err(error) => {
                if error == Error::bad_file_descriptor() || error == Error::try_again() {
                    if yield_now(k)?.is_err() {
                        return Some(Err(Error::io()));
                    }
                } else {
                    return Some(Err(error));
                }
            },
        }
    }
}

pub fn endpoint_create(k: &mut Kernel) -> (result: Option<Result<CapabilityHandle, Error>>)
    ensures
        (final(k)@, result) == value_run(old(k)@, Op::EndpointCreate),
{
    value_call(k, Op::EndpointCreate)
}

pub open spec fn endpoint_create_pair_run(k: kernel::Transcript) -> (
    kernel::Transcript,
    Option<Result<(CapabilityHandle, CapabilityHandle), Error>>,
) {
    (
        k.call(Op::EndpointCreatePair),
        match k.reply() {
            Some(reply) => Some(
                match decoded(reply.result) {
                    Err(error) => Err(error),
                    Ok(_) => Ok((reply.words[0], reply.words[1])),
                },
            ),
            None => None,
        },
    )
}

/// Creates two connected endpoint handles: a sender and a receiver.
pub fn endpoint_create_pair(k: &mut Kernel) -> (result: Option<
    Result<(CapabilityHandle, CapabilityHandle), Error>,
>)
    ensures
        (final(k)@, result) == endpoint_create_pair_run(old(k)@),
{
    let answer = k.call(Op::EndpointCreatePair)?;
    match decode(answer.result) {
        Err(error) => Some(Err(error)),
        Ok(_) => Some(Ok((answer.words[0], answer.words[1]))),
    }
}

/// The operation that sends a message with at most one capability.
pub open spec fn send_op(endpoint: CapabilityHandle, transfer: Option<Transfer>) -> Op {
    match transfer {
        Some(transfer) => Op::Send {
            endpoint,
            handle: transfer.handle,
            rights: transfer.rights.raw,
        },
        None => Op::Send { endpoint, handle: abi::INVALID_HANDLE, rights: 0 },
    }
}

pub open spec fn send_run(
    k: kernel::Transcript,
    endpoint: CapabilityHandle,
    bytes: Seq<u8>,
    transfer: Option<Transfer>,
) -> (kernel::Transcript, Option<Result<(), Error>>) {
    unit_run(k, send_op(endpoint, transfer), bytes)
}

pub fn send(
    k: &mut Kernel,
    endpoint: CapabilityHandle,
    bytes: &[u8],
    transfer: Option<Transfer>,
) -> (result: Option<Result<(), Error>>)
    ensures
        (final(k)@, result) == send_run(old(k)@, endpoint, bytes@, transfer),
{
    let op = match transfer {
        Some(transfer) => Op::Send {
            endpoint,
            handle: transfer.handle,
            rights: transfer.rights.bits(),
        },
        None => Op::Send { endpoint, handle: abi::INVALID_HANDLE, rights: 0 },
    };
    unit_call(k, op, to_vec(bytes))
}

pub fn send_move(
    k: &mut Kernel,
    endpoint: CapabilityHandle,
    bytes: &[u8],
    transfer: Transfer,
) -> (result: Option<Result<(), Error>>)
    ensures
        (final(k)@, result) == unit_run(
            old(k)@,
            Op::SendMove { endpoint, handle: transfer.handle, rights: transfer.rights.raw },
            bytes@,
        ),
{
    unit_call(
        k,
        Op::SendMove { endpoint, handle: transfer.handle, rights: transfer.rights.bits() },
        to_vec(bytes),
    )
}

/// The message that an answer to a receive holds. Its record gives the sender, the byte count,
/// the attached handle and that handle's rights.
pub open spec fn delivered(reply: kernel::Reply, capacity: nat) -> Result<Delivery, Error> {
    match decoded(reply.result) {
        Err(error) => Err(error),
        Ok(count) => if count != reply.words[1] || count > capacity || reply.bytes.len() != count {
            Err(Error::io())
        } else if reply.words[2] == abi::INVALID_HANDLE {
            if reply.words[3] != 0 {
                Err(Error::io())
            } else {
                Ok(
                    Delivery {
                        message: ReceivedMessage {
                            sender_process_id: reply.words[0],
                            bytes: reply.bytes.len() as usize,
                            capability: None,
                        },
                        payload: reply.bytes,
                    },
                )
            }
        } else {
            match Rights::from_bits(reply.words[3]) {
                Some(rights) => Ok(
                    Delivery {
                        message: ReceivedMessage {
                            sender_process_id: reply.words[0],
                            bytes: reply.bytes.len() as usize,
                            capability: Some(
                                ReceivedCapability { handle: reply.words[2], rights },
                            ),
                        },
                        payload: reply.bytes,
                    },
                ),
                None => Err(Error::io()),
            }
        },
    }
}

pub open spec fn try_receive_run(
    k: kernel::Transcript,
    endpoint: CapabilityHandle,
    capacity: usize,
) -> (kernel::Transcript, Option<Result<Delivery, Error>>) {
    (
        k.call(Op::TryReceive { endpoint, capacity: capacity as u64 }),
        match k.reply() {
            Some(reply) => Some(delivered(reply, capacity as nat)),
            None => None,
        },
    )
}

/// What a received message is to the contracts.
pub open spec fn received_view(result: Option<Result<Received, Error>>) -> Option<
    Result<Delivery, Error>,
> {
    match result {
        None => None,
        Some(Ok(received)) => Some(Ok(received@)),
        Some(Err(error)) => Some(Err(error)),
    }
}

/// Receives one message of at most `capacity` bytes, if one is queued.
pub fn try_receive(k: &mut Kernel, endpoint: CapabilityHandle, capacity: usize) -> (result: Option<
    Result<Received, Error>,
>)
    ensures
        (final(k)@, received_view(result)) == try_receive_run(old(k)@, endpoint, capacity),
        result matches Some(Ok(received)) ==> {
            &&& received.message.bytes == received.payload@.len()
            &&& received.payload@.len() <= capacity
        },
{
    let answer = k.call(Op::TryReceive { endpoint, capacity: capacity as u64 })?;
    let count: u64 = match decode(answer.result) {
        Ok(count) => count,
        Err(error) => {
            return Some(Err(error));
        },
    };
    let bytes: usize = answer.bytes.len();
    if count != answer.words[1] || count > capacity as u64 || bytes as u64 != count {
        return Some(Err(Error::io()));
    }
    let capability: Option<ReceivedCapability> = if answer.words[2] == abi::INVALID_HANDLE {
        if answer.words[3] != 0 {
            return Some(Err(Error::io()));
        }
        None
    } else {
        match Rights::from_bits(answer.words[3]) {
            Some(rights) => Some(ReceivedCapability { handle: answer.words[2], rights }),
            None => {
                return Some(Err(Error::io()));
            },
        }
    };
    let message = ReceivedMessage { sender_process_id: answer.words[0], bytes, capability };
    Some(Ok(Received { message, payload: answer.bytes }))
}

/// Receiving until a message is there, yielding in between.
pub open spec fn receive_run(
    k: kernel::Transcript,
    endpoint: CapabilityHandle,
    capacity: usize,
) -> (kernel::Transcript, Option<Result<Delivery, Error>>)
    decreases k.unread(),
{
    let (asked, result) = try_receive_run(k, endpoint, capacity);
    match result {
        None => (asked, None),
        Some(Ok(delivery)) => (asked, Some(Ok(delivery))),
        Some(Err(error)) => if error == Error::try_again() {
            let (yielded, outcome) = syscall::yield_run(asked);
            match outcome {
                None => (yielded, None),
                Some(Err(_)) => (yielded, Some(Err(Error::io()))),
                Some(Ok(_)) => receive_run(yielded, endpoint, capacity),
            }
        } else {
            (asked, Some(Err(error)))
        },
    }
}

pub fn receive(k: &mut Kernel, endpoint: CapabilityHandle, capacity: usize) -> (result: Option<
    Result<Received, Error>,
>)
    ensures
        (final(k)@, received_view(result)) == receive_run(old(k)@, endpoint, capacity),
        result matches Some(Ok(received)) ==> {
            &&& received.message.bytes == received.payload@.len()
            &&& received.payload@.len() <= capacity
        },
{
    loop
        invariant
            receive_run(old(k)@, endpoint, capacity) == receive_run(k@, endpoint, capacity),
        decreases k@.unread(),
    {
        match try_receive(k, endpoint, capacity)? {
            Ok(received) => {
                return Some(Ok(received));
            },
            Err(error) => {
                if error == Error::try_again() {
                    if yield_now(k)?.is_err() {
                        return Some(Err(Error::io()));
                    }
                } else {
                    return Some(Err(error));
                }
            },
        }
    }
}

pub fn notification_create(k: &mut Kernel) -> (result: Option<Result<CapabilityHandle, Error>>)
    ensures
        (final(k)@, result) == value_run(old(k)@, Op::NotificationCreate),
{
    value_call(k, Op::NotificationCreate)
}

pub fn notification_signal(k: &mut Kernel, handle: CapabilityHandle, amount: u64) -> (result:
    Option<Result<u64, Error>>)
    ensures
        (final(k)@, result) == value_run(old(k)@, Op::NotificationSignal { handle, amount }),
{
    value_call(k, Op::NotificationSignal { handle, amount })
}

pub fn notification_try_wait(k: &mut Kernel, handle: CapabilityHandle) -> (result: Option<
    Result<u64, Error>,
>)
    ensures
        (final(k)@, result) == value_run(old(k)@, Op::NotificationTryWait { handle }),
{
    value_call(k, Op::NotificationTryWait { handle })
}

/// Waiting for a notification, yielding while it is not signalled.
pub open spec fn notification_wait_run(k: kernel::Transcript, handle: CapabilityHandle) -> (
    kernel::Transcript,
    Option<Result<u64, Error>>,
)
    decreases k.unread(),
{
    let (asked, result) = value_run(k, Op::NotificationTryWait { handle });
    match result {
        None => (asked, None),
        Some(Ok(remaining)) => (asked, Some(Ok(remaining))),
        Some(Err(error)) => if error == Error::try_again() {
            let (yielded, outcome) = syscall::yield_run(asked);
            match outcome {
                None => (yielded, None),
                Some(Err(_)) => (yielded, Some(Err(Error::io()))),
                Some(Ok(_)) => notification_wait_run(yielded, handle),
            }
        } else {
            (asked, Some(Err(error)))
        },
    }
}

pub fn notification_wait(k: &mut Kernel, handle: CapabilityHandle) -> (result: Option<
    Result<u64, Error>,
>)
    ensures
        (final(k)@, result) == notification_wait_run(old(k)@, handle),
{
    loop
        invariant
            notification_wait_run(old(k)@, handle) == notification_wait_run(k@, handle),
        decreases k@.unread(),
    {
        match notification_try_wait(k, handle)? {
            Ok(remaining) => {
                return Some(Ok(remaining));
            },
            Err(error) => {
                if error == Error::try_again() {
                    if yield_now(k)?.is_err() {
                        return Some(Err(Error::io()));
                    }
                } else {
                    return Some(Err(error));
                }
            },
        }
    }
}

pub fn shared_memory_create(k: &mut Kernel, length: usize) -> (result: Option<
    Result<CapabilityHandle, Error>,
>)
    ensures
        (final(k)@, result) == value_run(old(k)@, Op::SharedMemoryCreate { length: length as u64 }),
{
    value_call(k, Op::SharedMemoryCreate { length: length as u64 })
}

/// A call whose answer counts bytes or processes.
pub open spec fn count_run(k: kernel::Transcript, op: Op, bytes: Seq<u8>) -> (
    kernel::Transcript,
    Option<Result<usize, Error>>,
) {
    (
        k.ask(op, bytes),
        match k.reply() {
            Some(reply) => Some(
                match decoded(reply.result) {
                    Ok(count) => Ok(count as usize),
                    Err(error) => Err(error),
                },
            ),
            None => None,
        },
    )
}

fn count_call(k: &mut Kernel, op: Op, bytes: Vec<u8>) -> (result: Option<Result<usize, Error>>)
    ensures
        (final(k)@, result) == count_run(old(k)@, op, bytes@),
{
    let answer = k.ask(op, bytes)?;
    match decode(answer.result) {
        Ok(count) => Some(Ok(count as usize)),
        Err(error) => Some(Err(error)),
    }
}

/// What reading shared memory asks for and gives. The bytes stand beside the count that the
/// kernel reports.
pub open spec fn memory_read(
    k: kernel::Transcript,
    after: kernel::Transcript,
    handle: CapabilityHandle,
    offset: usize,
    capacity: usize,
    result: Option<Result<(usize, Vec<u8>), Error>>,
) -> bool {
    &&& after == k.call(
        Op::SharedMemoryRead { handle, offset: offset as u64, capacity: capacity as u64 },
    )
    &&& match (result, k.reply()) {
        (None, None) => true,
        (Some(Ok((count, bytes))), Some(reply)) => {
            &&& decoded(reply.result) matches Ok(raw) && count == raw as usize
            &&& bytes@ == reply.bytes
        },
        (Some(Err(error)), Some(reply)) => decoded(reply.result) == Err::<u64, _>(error),
        _ => false,
    }
}

/// Reads shared memory.
pub fn shared_memory_read(
    k: &mut Kernel,
    handle: CapabilityHandle,
    offset: usize,
    capacity: usize,
) -> (result: Option<Result<(usize, Vec<u8>), Error>>)
    ensures
        memory_read(old(k)@, final(k)@, handle, offset, capacity, result),
{
    let answer = k.call(
        Op::SharedMemoryRead { handle, offset: offset as u64, capacity: capacity as u64 },
    )?;
    match decode(answer.result) {
        Ok(count) => Some(Ok((count as usize, answer.bytes))),
        Err(error) => Some(Err(error)),
    }
}

pub fn shared_memory_write(
    k: &mut Kernel,
    handle: CapabilityHandle,
    offset: usize,
    bytes: &[u8],
) -> (result: Option<Result<usize, Error>>)
    ensures
        (final(k)@, result) == count_run(
            old(k)@,
            Op::SharedMemoryWrite { handle, offset: offset as u64 },
            bytes@,
        ),
{
    count_call(k, Op::SharedMemoryWrite { handle, offset: offset as u64 }, to_vec(bytes))
}

pub fn job_create(k: &mut Kernel) -> (result: Option<Result<CapabilityHandle, Error>>)
    ensures
        (final(k)@, result) == value_run(old(k)@, Op::JobCreate),
{
    value_call(k, Op::JobCreate)
}

pub fn job_create_child(k: &mut Kernel, parent: CapabilityHandle) -> (result: Option<
    Result<CapabilityHandle, Error>,
>)
    ensures
        (final(k)@, result) == value_run(old(k)@, Op::JobCreateChild { parent }),
{
    value_call(k, Op::JobCreateChild { parent })
}

pub fn job_set_process_limit(k: &mut Kernel, handle: CapabilityHandle, limit: usize) -> (result:
    Option<Result<usize, Error>>)
    ensures
        (final(k)@, result) == count_run(
            old(k)@,
            Op::JobSetProcessLimit { job: handle, limit: limit as u64 },
            seq![],
        ),
{
    count_call(k, Op::JobSetProcessLimit { job: handle, limit: limit as u64 }, Vec::new())
}

pub fn job_get_process_limit(k: &mut Kernel, handle: CapabilityHandle) -> (result: Option<
    Result<usize, Error>,
>)
    ensures
        (final(k)@, result) == count_run(old(k)@, Op::JobGetProcessLimit { job: handle }, seq![]),
{
    count_call(k, Op::JobGetProcessLimit { job: handle }, Vec::new())
}

pub fn job_retire(k: &mut Kernel, handle: CapabilityHandle) -> (result: Option<Result<(), Error>>)
    ensures
        (final(k)@, result) == unit_run(old(k)@, Op::JobRetire { job: handle }, seq![]),
{
    unit_call(k, Op::JobRetire { job: handle }, Vec::new())
}

pub fn job_assign(k: &mut Kernel, handle: CapabilityHandle, child_process_id: u64) -> (result:
    Option<Result<u64, Error>>)
    ensures
        (final(k)@, result) == value_run(
            old(k)@,
            Op::JobAssign { job: handle, process_id: child_process_id },
        ),
{
    value_call(k, Op::JobAssign { job: handle, process_id: child_process_id })
}

/// Polling a job: the answer's record gives the process and its status.
pub open spec fn job_try_wait_run(k: kernel::Transcript, handle: CapabilityHandle) -> (
    kernel::Transcript,
    Option<Result<JobExit, Error>>,
) {
    (
        k.call(Op::JobTryWait { job: handle }),
        match k.reply() {
            Some(reply) => Some(
                match decoded(reply.result) {
                    Err(error) => Err(error),
                    Ok(_) => if reply.words[0] == 0 {
                        Err(Error::io())
                    } else {
                        Ok(
                            JobExit {
                                process_id: reply.words[0],
                                status: ChildStatus { raw: reply.words[1] },
                            },
                        )
                    },
                },
            ),
            None => None,
        },
    )
}

pub fn job_try_wait(k: &mut Kernel, handle: CapabilityHandle) -> (result: Option<
    Result<JobExit, Error>,
>)
    ensures
        (final(k)@, result) == job_try_wait_run(old(k)@, handle),
{
    let answer = k.call(Op::JobTryWait { job: handle })?;
    match decode(answer.result) {
        Err(error) => Some(Err(error)),
        Ok(_) => if answer.words[0] == 0 {
            Some(Err(Error::io()))
        } else {
            Some(
                Ok(
                    JobExit {
                        process_id: answer.words[0],
                        status: ChildStatus::from_raw(answer.words[1]),
                    },
                ),
            )
        },
    }
}

/// Waiting for a process of a job, yielding while none has left.
pub open spec fn job_wait_run(k: kernel::Transcript, handle: CapabilityHandle) -> (
    kernel::Transcript,
    Option<Result<JobExit, Error>>,
)
    decreases k.unread(),
{
    let (asked, result) = job_try_wait_run(k, handle);
    match result {
        None => (asked, None),
        Some(Ok(exit)) => (asked, Some(Ok(exit))),
        Some(Err(error)) => if error == Error::try_again() {
            let (yielded, outcome) = syscall::yield_run(asked);
            match outcome {
                None => (yielded, None),
                Some(Err(_)) => (yielded, Some(Err(Error::io()))),
                Some(Ok(_)) => job_wait_run(yielded, handle),
            }
        } else {
            (asked, Some(Err(error)))
        },
    }
}

pub fn job_wait(k: &mut Kernel, handle: CapabilityHandle) -> (result: Option<
    Result<JobExit, Error>,
>)
    ensures
        (final(k)@, result) == job_wait_run(old(k)@, handle),
{
    loop
        invariant
            job_wait_run(old(k)@, handle) == job_wait_run(k@, handle),
        decreases k@.unread(),
    {
        match job_try_wait(k, handle)? {
            Ok(exit) => {
                return Some(Ok(exit));
            },
            Err(error) => {
                if error == Error::try_again() {
                    if yield_now(k)?.is_err() {
                        return Some(Err(Error::io()));
                    }
                } else {
                    return Some(Err(error));
                }
            },
        }
    }
}

pub fn job_terminate(k: &mut Kernel, handle: CapabilityHandle) -> (result: Option<
    Result<usize, Error>,
>)
    ensures
        (final(k)@, result) == count_run(old(k)@, Op::JobTerminate { job: handle }, seq![]),
{
    count_call(k, Op::JobTerminate { job: handle }, Vec::new())
}

/// What travels with a message, for the kernel.
pub open spec fn attachments(transfers: Seq<Transfer>) -> Seq<Attachment> {
    Seq::new(transfers.len(), |i: int| (transfers[i].handle, transfers[i].rights.raw))
}

pub open spec fn send_move_many_run(
    k: kernel::Transcript,
    endpoint: CapabilityHandle,
    bytes: Seq<u8>,
    transfers: Seq<Transfer>,
) -> (kernel::Transcript, Option<Result<(), Error>>) {
    (
        k.ask_with(
            Op::SendMoveMany { endpoint, count: transfers.len() as u64 },
            bytes,
            attachments(transfers),
        ),
        match k.reply() {
            Some(reply) => Some(
                match decoded(reply.result) {
                    Ok(_) => Ok(()),
                    Err(error) => Err(error),
                },
            ),
            None => None,
        },
    )
}

/// Sends a message that moves every one of `transfers`, or none of them.
pub fn send_move_many(
    k: &mut Kernel,
    endpoint: CapabilityHandle,
    bytes: &[u8],
    transfers: &[Transfer],
) -> (result: Option<Result<(), Error>>)
    ensures
        (final(k)@, result) == send_move_many_run(old(k)@, endpoint, bytes@, transfers@),
{
    let mut attached: Vec<Attachment> = Vec::new();
    let mut index: usize = 0;
    while index < transfers.len()
        invariant
            index <= transfers@.len(),
            attached@ =~= attachments(transfers@).take(index as int),
        decreases transfers@.len() - index,
    {
        attached.push((transfers[index].handle, transfers[index].rights.bits()));
        index += 1;
    }
    assert(attached@ =~= attachments(transfers@));
    let answer = k.ask_with(
        Op::SendMoveMany { endpoint, count: transfers.len() as u64 },
        to_vec(bytes),
        attached,
    )?;
    match decode(answer.result) {
        Ok(_) => Some(Ok(())),
        Err(error) => Some(Err(error)),
    }
}

/// Why a message with several handles was not received.
#[derive(Debug, Clone, Copy, PartialEq, Eq, Structural)]
pub struct ReceiveManyError {
    pub error: Error,
}

impl ReceiveManyError {
    #[verifier::allow_in_spec]
    pub fn from_error(error: Error) -> Self
        returns
            (ReceiveManyError { error }),
    {
        ReceiveManyError { error }
    }

    pub fn error(self) -> (error: Error)
        ensures
            error == self.error,
    {
        self.error
    }
}

/// A message with several handles.
#[derive(Debug)]
pub struct ReceivedMany {
    pub sender_process_id: u64,
    pub payload: Vec<u8>,
    pub capabilities: Vec<ReceivedCapability>,
}

/// A message with several handles as the contracts see it.
#[verifier::ext_equal]
pub ghost struct DeliveryMany {
    pub sender_process_id: u64,
    pub payload: Seq<u8>,
    pub capabilities: Seq<ReceivedCapability>,
}

impl View for ReceivedMany {
    type V = DeliveryMany;

    open spec fn view(&self) -> DeliveryMany {
        DeliveryMany {
            sender_process_id: self.sender_process_id,
            payload: self.payload@,
            capabilities: self.capabilities@,
        }
    }
}

/// Whether every attached handle is a handle with known rights.
pub open spec fn valid_attachments(attached: Seq<Attachment>) -> bool {
    forall|i: int|
        0 <= i < attached.len() ==> (#[trigger] attached[i]).0 != abi::INVALID_HANDLE
            && Rights::from_bits(attached[i].1) is Some
}

/// The message that an answer to such a receive holds. Its record gives the sender, the byte
/// count and the handle count.
pub open spec fn delivered_many(reply: kernel::Reply, capacity: nat, handles: nat) -> Result<
    DeliveryMany,
    ReceiveManyError,
> {
    match decoded(reply.result) {
        Err(error) => Err(ReceiveManyError { error }),
        Ok(count) => if count != reply.words[1] || count > capacity || reply.bytes.len() != count
            || reply.attached.len() != reply.words[2] || reply.attached.len() > handles
            || !valid_attachments(reply.attached) {
            Err(ReceiveManyError { error: Error::io() })
        } else {
            Ok(
                DeliveryMany {
                    sender_process_id: reply.words[0],
                    payload: reply.bytes,
                    capabilities: Seq::new(
                        reply.attached.len(),
                        |i: int|
                            ReceivedCapability {
                                handle: reply.attached[i].0,
                                rights: Rights { raw: reply.attached[i].1 },
                            },
                    ),
                },
            )
        },
    }
}

pub open spec fn try_receive_many_run(
    k: kernel::Transcript,
    endpoint: CapabilityHandle,
    capacity: usize,
    handles: usize,
) -> (kernel::Transcript, Option<Result<DeliveryMany, ReceiveManyError>>) {
    (
        k.call(
            Op::TryReceiveMany { endpoint, capacity: capacity as u64, handles: handles as u64 },
        ),
        match k.reply() {
            Some(reply) => Some(delivered_many(reply, capacity as nat, handles as nat)),
            None => None,
        },
    )
}

pub open spec fn received_many_view(
    result: Option<Result<ReceivedMany, ReceiveManyError>>,
) -> Option<Result<DeliveryMany, ReceiveManyError>> {
    match result {
        None => None,
        Some(Ok(received)) => Some(Ok(received@)),
        Some(Err(error)) => Some(Err(error)),
    }
}

/// Receives one message of at most `capacity` bytes and `handles` handles, if one is queued.
#[verifier::loop_isolation(false)]
pub fn try_receive_many(
    k: &mut Kernel,
    endpoint: CapabilityHandle,
    capacity: usize,
    handles: usize,
) -> (result: Option<Result<ReceivedMany, ReceiveManyError>>)
    ensures
        (final(k)@, received_many_view(result)) == try_receive_many_run(
            old(k)@,
            endpoint,
            capacity,
            handles,
        ),
        result matches Some(Ok(received)) ==> {
            &&& received.payload@.len() <= capacity
            &&& received.capabilities@.len() <= handles
            &&& forall|i: int|
                0 <= i < received.capabilities@.len() ==> (
                #[trigger] received.capabilities@[i]).handle != abi::INVALID_HANDLE
        },
{
    let answer = k.call(
        Op::TryReceiveMany { endpoint, capacity: capacity as u64, handles: handles as u64 },
    )?;
    let count: u64 = match decode(answer.result) {
        Ok(count) => count,
        Err(error) => {
            return Some(Err(ReceiveManyError { error }));
        },
    };
    if count != answer.words[1] || count > capacity as u64 || answer.bytes.len() as u64 != count
        || answer.attached.len() as u64 != answer.words[2] || answer.attached.len() > handles {
        return Some(Err(ReceiveManyError { error: Error::io() }));
    }
    let mut capabilities: Vec<ReceivedCapability> = Vec::new();
    let mut index: usize = 0;
    while index < answer.attached.len()
        invariant
            index <= answer.attached@.len(),
            capabilities@.len() == index,
            forall|i: int|
                0 <= i < index ==> {
                    &&& (#[trigger] answer.attached@[i]).0 != abi::INVALID_HANDLE
                    &&& Rights::from_bits(answer.attached@[i].1) is Some
                    &&& capabilities@[i] == ReceivedCapability {
                        handle: answer.attached@[i].0,
                        rights: Rights { raw: answer.attached@[i].1 },
                    }
                },
        decreases answer.attached@.len() - index,
    {
        let (handle, bits) = answer.attached[index];
        let rights = match Rights::from_bits(bits) {
            Some(rights) => rights,
            None => {
                assert(!valid_attachments(answer.attached@));
                return Some(Err(ReceiveManyError { error: Error::io() }));
            },
        };
        if handle == abi::INVALID_HANDLE {
            assert(!valid_attachments(answer.attached@));
            return Some(Err(ReceiveManyError { error: Error::io() }));
        }
        capabilities.push(ReceivedCapability { handle, rights });
        index += 1;
    }
    let received = ReceivedMany {
        sender_process_id: answer.words[0],
        payload: answer.bytes,
        capabilities,
    };
    assert(received@ =~= delivered_many(
        old(k)@.reply()->Some_0,
        capacity as nat,
        handles as nat,
    )->Ok_0);
    Some(Ok(received))
}

/// One handle and the signals to wait for on it.
#[derive(Debug, Clone, Copy, PartialEq, Eq, Structural)]
pub struct WaitItem {
    pub handle: CapabilityHandle,
    pub requested: Signals,
}

impl WaitItem {
    pub fn new(handle: CapabilityHandle, requested: Signals) -> (item: Self)
        ensures
            item == (WaitItem { handle, requested }),
    {
        WaitItem { handle, requested }
    }
}

/// A registration of a wait set that is ready.
#[derive(Debug, Clone, Copy, PartialEq, Eq, Structural)]
pub struct WaitSetEvent {
    pub key: u64,
    pub signals: Signals,
}

/// An edge taken from an event port.
#[derive(Debug, Clone, Copy, PartialEq, Eq, Structural)]
pub struct EventPortEvent {
    pub key: u64,
    pub signals: Signals,
}

/// A call whose answer's record gives a key and signals.
pub open spec fn keyed_run(k: kernel::Transcript, op: Op) -> (
    kernel::Transcript,
    Option<Result<(u64, Signals), Error>>,
) {
    (
        k.call(op),
        match k.reply() {
            Some(reply) => Some(
                match decoded(reply.result) {
                    Err(error) => Err(error),
                    Ok(_) => match Signals::from_bits(reply.words[1]) {
                        Some(signals) => Ok((reply.words[0], signals)),
                        None => Err(Error::io()),
                    },
                },
            ),
            None => None,
        },
    )
}

fn keyed_call(k: &mut Kernel, op: Op) -> (result: Option<Result<(u64, Signals), Error>>)
    ensures
        (final(k)@, result) == keyed_run(old(k)@, op),
{
    let answer = k.call(op)?;
    match decode(answer.result) {
        Err(error) => Some(Err(error)),
        Ok(_) => match Signals::from_bits(answer.words[1]) {
            Some(signals) => Some(Ok((answer.words[0], signals))),
            None => Some(Err(Error::io())),
        },
    }
}

pub fn wait_set_create(k: &mut Kernel) -> (result: Option<Result<CapabilityHandle, Error>>)
    ensures
        (final(k)@, result) == value_run(old(k)@, Op::WaitSetCreate),
{
    value_call(k, Op::WaitSetCreate)
}

pub fn wait_set_add(
    k: &mut Kernel,
    set: CapabilityHandle,
    handle: CapabilityHandle,
    requested: Signals,
    key: u64,
) -> (result: Option<Result<(), Error>>)
    ensures
        (final(k)@, result) == unit_run(
            old(k)@,
            Op::WaitSetAdd { set, handle, signals: requested.raw, key },
            seq![],
        ),
{
    unit_call(k, Op::WaitSetAdd { set, handle, signals: requested.bits(), key }, Vec::new())
}

pub fn wait_set_remove(k: &mut Kernel, set: CapabilityHandle, key: u64) -> (result: Option<
    Result<(), Error>,
>)
    ensures
        (final(k)@, result) == unit_run(old(k)@, Op::WaitSetRemove { set, key }, seq![]),
{
    unit_call(k, Op::WaitSetRemove { set, key }, Vec::new())
}

pub fn wait_set_wait(k: &mut Kernel, set: CapabilityHandle, deadline: Deadline) -> (result: Option<
    Result<WaitSetEvent, Error>,
>)
    ensures
        ({
            let (asked, event) = keyed_run(
                old(k)@,
                Op::WaitSetWait { set, deadline: deadline.nanoseconds },
            );
            &&& final(k)@ == asked
            &&& match result {
                None => event is None,
                Some(Ok(ready)) => event == Some(Ok::<_, Error>((ready.key, ready.signals))),
                Some(Err(error)) => event == Some(Err::<(u64, Signals), _>(error)),
            }
        }),
{
    match keyed_call(k, Op::WaitSetWait { set, deadline: deadline.as_monotonic_ns() })? {
        Ok((key, signals)) => Some(Ok(WaitSetEvent { key, signals })),
        Err(error) => Some(Err(error)),
    }
}

pub fn event_port_create(k: &mut Kernel) -> (result: Option<Result<CapabilityHandle, Error>>)
    ensures
        (final(k)@, result) == value_run(old(k)@, Op::EventPortCreate),
{
    value_call(k, Op::EventPortCreate)
}

pub fn event_port_add(
    k: &mut Kernel,
    port: CapabilityHandle,
    handle: CapabilityHandle,
    requested: Signals,
    key: u64,
) -> (result: Option<Result<(), Error>>)
    ensures
        (final(k)@, result) == unit_run(
            old(k)@,
            Op::EventPortAdd { port, handle, signals: requested.raw, key },
            seq![],
        ),
{
    unit_call(k, Op::EventPortAdd { port, handle, signals: requested.bits(), key }, Vec::new())
}

pub fn event_port_remove(k: &mut Kernel, port: CapabilityHandle, key: u64) -> (result: Option<
    Result<(), Error>,
>)
    ensures
        (final(k)@, result) == unit_run(old(k)@, Op::EventPortRemove { port, key }, seq![]),
{
    unit_call(k, Op::EventPortRemove { port, key }, Vec::new())
}

pub fn event_port_wait(k: &mut Kernel, port: CapabilityHandle, deadline: Deadline) -> (result:
    Option<Result<EventPortEvent, Error>>)
    ensures
        ({
            let (asked, event) = keyed_run(
                old(k)@,
                Op::EventPortWait { port, deadline: deadline.nanoseconds },
            );
            &&& final(k)@ == asked
            &&& match result {
                None => event is None,
                Some(Ok(edge)) => event == Some(Ok::<_, Error>((edge.key, edge.signals))),
                Some(Err(error)) => event == Some(Err::<(u64, Signals), _>(error)),
            }
        }),
{
    match keyed_call(k, Op::EventPortWait { port, deadline: deadline.as_monotonic_ns() })? {
        Ok((key, signals)) => Some(Ok(EventPortEvent { key, signals })),
        Err(error) => Some(Err(error)),
    }
}

pub fn timer_create(k: &mut Kernel) -> (result: Option<Result<CapabilityHandle, Error>>)
    ensures
        (final(k)@, result) == value_run(old(k)@, Op::TimerCreate),
{
    value_call(k, Op::TimerCreate)
}

pub fn timer_arm(k: &mut Kernel, timer: CapabilityHandle, deadline: Deadline) -> (result: Option<
    Result<(), Error>,
>)
    ensures
        (final(k)@, result) == unit_run(
            old(k)@,
            Op::TimerArm { timer, deadline: deadline.nanoseconds },
            seq![],
        ),
{
    unit_call(k, Op::TimerArm { timer, deadline: deadline.as_monotonic_ns() }, Vec::new())
}

pub fn timer_cancel(k: &mut Kernel, timer: CapabilityHandle) -> (result: Option<Result<(), Error>>)
    ensures
        (final(k)@, result) == unit_run(old(k)@, Op::TimerCancel { timer }, seq![]),
{
    unit_call(k, Op::TimerCancel { timer }, Vec::new())
}

pub fn event_create(k: &mut Kernel) -> (result: Option<Result<CapabilityHandle, Error>>)
    ensures
        (final(k)@, result) == value_run(old(k)@, Op::EventCreate),
{
    value_call(k, Op::EventCreate)
}

pub fn event_set(k: &mut Kernel, event: CapabilityHandle) -> (result: Option<Result<(), Error>>)
    ensures
        (final(k)@, result) == unit_run(old(k)@, Op::EventSet { event }, seq![]),
{
    unit_call(k, Op::EventSet { event }, Vec::new())
}

pub fn event_reset(k: &mut Kernel, event: CapabilityHandle) -> (result: Option<Result<(), Error>>)
    ensures
        (final(k)@, result) == unit_run(old(k)@, Op::EventReset { event }, seq![]),
{
    unit_call(k, Op::EventReset { event }, Vec::new())
}

/// Whether the kernel answered the call at this point with a value.
pub open spec fn answered(k: kernel::Transcript, i: int, op: Op, value: u64) -> bool {
    &&& 0 <= i < k.asked.len()
    &&& i < k.replies.len()
    &&& k.asked[i].op == op
    &&& decoded(k.replies[i].result) == Ok::<u64, Error>(value)
}

/// Whether the kernel answered such a call with a value after an earlier point.
pub open spec fn given(
    before: kernel::Transcript,
    after: kernel::Transcript,
    op: Op,
    value: u64,
) -> bool {
    exists|i: int| before.asked.len() <= i && #[trigger] answered(after, i, op, value)
}

} // verus!
