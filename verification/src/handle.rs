//! Ownership of process-local capability handles.
//!
//! [`crate::ipc`] is the raw layer. Here an [`OwnedHandle`] stands for one entry of the process's
//! capability table, a [`BorrowedHandle`] cannot outlive its owner, and marker types keep the
//! validated kind of the object. Whoever ends up with an owned handle closes it, moves it or
//! gives its number away; [`OwnedHandle::discard`] closes it and ignores the kernel's verdict.

use crate::ipc;
use crate::ipc::{
    CapabilityHandle, CapabilityInfo, Deadline, EventPortEvent, ObjectKind, Rights, Signals,
    WaitSetEvent,
};
use crate::kernel;
use crate::kernel::{Kernel, Op};
use crate::sealed::Sealed;
use core::marker::PhantomData;
use vstd::prelude::*;

verus! {

/// The object kind that an owned or borrowed handle carries.
pub trait ObjectType: Sealed {

}

/// An object kind that is known.
pub trait KnownObjectType: ObjectType {
    /// The kind, for contracts.
    spec fn kind_of() -> ObjectKind;

    fn kind() -> (kind: ObjectKind)
        ensures
            kind == Self::kind_of(),
    ;
}

/// A capability whose object kind has not been validated yet.
#[derive(Debug)]
pub enum AnyObject {
    Marker,
}

impl Sealed for AnyObject {

}

impl ObjectType for AnyObject {

}

/// A mailbox or one end of a channel.
#[derive(Debug)]
pub enum Endpoint {
    Marker,
}

impl Sealed for Endpoint {

}

impl ObjectType for Endpoint {

}

impl KnownObjectType for Endpoint {
    open spec fn kind_of() -> ObjectKind {
        ObjectKind::Endpoint
    }

    fn kind() -> ObjectKind {
        ObjectKind::Endpoint
    }
}

/// A counted notification.
#[derive(Debug)]
pub enum Notification {
    Marker,
}

impl Sealed for Notification {

}

impl ObjectType for Notification {

}

impl KnownObjectType for Notification {
    open spec fn kind_of() -> ObjectKind {
        ObjectKind::Notification
    }

    fn kind() -> ObjectKind {
        ObjectKind::Notification
    }
}

/// Copied shared memory.
#[derive(Debug)]
pub enum SharedMemory {
    Marker,
}

impl Sealed for SharedMemory {

}

impl ObjectType for SharedMemory {

}

impl KnownObjectType for SharedMemory {
    open spec fn kind_of() -> ObjectKind {
        ObjectKind::SharedMemory
    }

    fn kind() -> ObjectKind {
        ObjectKind::SharedMemory
    }
}

/// A reader of the kernel's early log.
#[derive(Debug)]
pub enum KernelEarlyLogReader {
    Marker,
}

impl Sealed for KernelEarlyLogReader {

}

impl ObjectType for KernelEarlyLogReader {

}

impl KnownObjectType for KernelEarlyLogReader {
    open spec fn kind_of() -> ObjectKind {
        ObjectKind::KernelEarlyLogReader
    }

    fn kind() -> ObjectKind {
        ObjectKind::KernelEarlyLogReader
    }
}

/// A hierarchical job.
#[derive(Debug)]
pub enum Job {
    Marker,
}

impl Sealed for Job {

}

impl ObjectType for Job {

}

impl KnownObjectType for Job {
    open spec fn kind_of() -> ObjectKind {
        ObjectKind::Job
    }

    fn kind() -> ObjectKind {
        ObjectKind::Job
    }
}

/// A bounded, persistent set of tagged signal registrations.
#[derive(Debug)]
pub enum WaitSet {
    Marker,
}

impl Sealed for WaitSet {

}

impl ObjectType for WaitSet {

}

impl KnownObjectType for WaitSet {
    open spec fn kind_of() -> ObjectKind {
        ObjectKind::WaitSet
    }

    fn kind() -> ObjectKind {
        ObjectKind::WaitSet
    }
}

/// A bounded queue of coalesced signal edges.
#[derive(Debug)]
pub enum EventPort {
    Marker,
}

impl Sealed for EventPort {

}

impl ObjectType for EventPort {

}

impl KnownObjectType for EventPort {
    open spec fn kind_of() -> ObjectKind {
        ObjectKind::EventPort
    }

    fn kind() -> ObjectKind {
        ObjectKind::EventPort
    }
}

/// A one-shot timer on absolute monotonic time.
#[derive(Debug)]
pub enum Timer {
    Marker,
}

impl Sealed for Timer {

}

impl ObjectType for Timer {

}

impl KnownObjectType for Timer {
    open spec fn kind_of() -> ObjectKind {
        ObjectKind::Timer
    }

    fn kind() -> ObjectKind {
        ObjectKind::Timer
    }
}

/// A persistent event that its user sets and resets.
#[derive(Debug)]
pub enum Event {
    Marker,
}

impl Sealed for Event {

}

impl ObjectType for Event {

}

impl KnownObjectType for Event {
    open spec fn kind_of() -> ObjectKind {
        ObjectKind::Event
    }

    fn kind() -> ObjectKind {
        ObjectKind::Event
    }
}

/// One entry of the process's capability table. It is `None` once the entry is gone.
#[derive(Debug)]
pub struct OwnedHandle<T: ObjectType = AnyObject> {
    raw: Option<u64>,
    object_type: PhantomData<T>,
}

/// A capability that someone else owns.
#[derive(Debug)]
pub struct BorrowedHandle<'a, T: ObjectType = AnyObject> {
    raw: u64,
    owner: PhantomData<&'a OwnedHandle<T>>,
}

impl<T: ObjectType> View for OwnedHandle<T> {
    type V = Option<u64>;

    closed spec fn view(&self) -> Option<u64> {
        self.raw
    }
}

impl<'a, T: ObjectType> View for BorrowedHandle<'a, T> {
    type V = u64;

    closed spec fn view(&self) -> u64 {
        self.raw
    }
}

impl<'a, T: ObjectType> Copy for BorrowedHandle<'a, T> {

}

impl<'a, T: ObjectType> Clone for BorrowedHandle<'a, T> {
    fn clone(&self) -> (copy: Self)
        ensures
            copy == *self,
    {
        *self
    }
}

/// A capability that came with a message.
#[derive(Debug)]
pub struct ReceivedCapability {
    pub handle: OwnedHandle<AnyObject>,
    pub rights: Rights,
}

/// What came with a message besides its bytes.
#[derive(Debug)]
pub struct ReceivedMessage {
    pub sender_process_id: u64,
    pub bytes: usize,
    pub capability: Option<ReceivedCapability>,
}

/// One capability to be moved by a message.
#[derive(Debug)]
pub struct MoveHandle {
    handle: OwnedHandle<AnyObject>,
    rights: Rights,
}

impl View for MoveHandle {
    type V = (Option<u64>, Rights);

    closed spec fn view(&self) -> (Option<u64>, Rights) {
        (self.handle@, self.rights)
    }
}

impl MoveHandle {
    pub fn new<T: ObjectType>(handle: OwnedHandle<T>, rights: Rights) -> (moved: Self)
        ensures
            moved@ == (handle@, rights),
    {
        Self { handle: handle.erase(), rights }
    }

    pub fn handle(&self) -> (handle: &OwnedHandle<AnyObject>)
        ensures
            handle@ == self@.0,
    {
        &self.handle
    }

    pub fn rights(&self) -> (rights: Rights)
        ensures
            rights == self@.1,
    {
        self.rights
    }

    pub fn into_handle(self) -> (handle: OwnedHandle<AnyObject>)
        ensures
            handle@ == self@.0,
    {
        self.handle
    }
}

/// What came with a message that carried several capabilities. There are at most `N`.
#[derive(Debug)]
pub struct ReceivedMessageMany<const N: usize> {
    pub sender_process_id: u64,
    pub bytes: usize,
    pub capabilities: Vec<ReceivedCapability>,
    pub capability_count: usize,
}

/// A send that failed. The kernel leaves the capability where it was, so it is handed back.
#[derive(Debug)]
pub struct SendMoveError<T: ObjectType> {
    error: ipc::Error,
    handle: OwnedHandle<T>,
}

/// A send of several capabilities that failed. They are handed back in their order.
#[derive(Debug)]
pub struct SendMoveManyError<const N: usize> {
    error: ipc::Error,
    handles: [MoveHandle; N],
}

impl<const N: usize> SendMoveManyError<N> {
    pub closed spec fn error_of(self) -> ipc::Error {
        self.error
    }

    pub closed spec fn handles_of(self) -> [MoveHandle; N] {
        self.handles
    }

    pub(crate) fn new(error: ipc::Error, handles: [MoveHandle; N]) -> (failure: Self)
        ensures
            failure.error_of() == error,
            failure.handles_of() == handles,
    {
        Self { error, handles }
    }

    pub fn error(&self) -> (error: ipc::Error)
        ensures
            error == self.error_of(),
    {
        self.error
    }

    pub fn into_handles(self) -> (handles: [MoveHandle; N])
        ensures
            handles == self.handles_of(),
    {
        self.handles
    }

    pub fn into_parts(self) -> (parts: (ipc::Error, [MoveHandle; N]))
        ensures
            parts == (self.error_of(), self.handles_of()),
    {
        (self.error, self.handles)
    }
}

impl<T: ObjectType> SendMoveError<T> {
    pub closed spec fn error_of(self) -> ipc::Error {
        self.error
    }

    pub closed spec fn handle_of(self) -> OwnedHandle<T> {
        self.handle
    }

    pub(crate) fn new(error: ipc::Error, handle: OwnedHandle<T>) -> (failure: Self)
        ensures
            failure.error_of() == error,
            failure.handle_of() == handle,
    {
        Self { error, handle }
    }

    pub fn error(&self) -> (error: ipc::Error)
        ensures
            error == self.error_of(),
    {
        self.error
    }

    pub fn into_handle(self) -> (handle: OwnedHandle<T>)
        ensures
            handle == self.handle_of(),
    {
        self.handle
    }

    pub fn into_parts(self) -> (parts: (ipc::Error, OwnedHandle<T>))
        ensures
            parts == (self.error_of(), self.handle_of()),
    {
        (self.error, self.handle)
    }
}

/// A number the kernel gave as a new handle: zero is no handle.
pub open spec fn adopted(value: Result<u64, ipc::Error>) -> Result<u64, ipc::Error> {
    match value {
        Ok(raw) => if raw == 0 {
            Err(ipc::Error::io())
        } else {
            Ok(raw)
        },
        Err(error) => Err(error),
    }
}

/// The call that gives a new handle, and the handle that it gives.
pub open spec fn adopt_run(k: kernel::Transcript, op: Op) -> (
    kernel::Transcript,
    Option<Result<u64, ipc::Error>>,
) {
    let (asked, value) = ipc::value_run(k, op);
    (
        asked,
        match value {
            Some(value) => Some(adopted(value)),
            None => None,
        },
    )
}

/// Whether an owned handle is what came out.
pub open spec fn owns<T: ObjectType>(
    result: Option<Result<OwnedHandle<T>, ipc::Error>>,
    outcome: Option<Result<u64, ipc::Error>>,
) -> bool {
    match (result, outcome) {
        (None, None) => true,
        (Some(Ok(handle)), Some(Ok(raw))) => handle@ == Some(raw) && raw != 0,
        (Some(Err(error)), Some(Err(expected))) => error == expected,
        _ => false,
    }
}

/// Closing a handle without looking at the verdict.
pub open spec fn discard_run(k: kernel::Transcript, raw: Option<u64>) -> (
    kernel::Transcript,
    Option<()>,
) {
    match raw {
        None => (k, Some(())),
        Some(raw) => {
            let (closed, result) = ipc::close_run(k, raw);
            (
                closed,
                match result {
                    Some(_) => Some(()),
                    None => None,
                },
            )
        },
    }
}

impl<T: ObjectType> OwnedHandle<T> {
    /// Takes over a handle by its number. Zero is no handle. Whoever calls this owns `raw`, takes
    /// it over only once, and knows that the object has the kind of the marker.
    pub fn from_raw(raw: CapabilityHandle) -> (result: Result<Self, ipc::Error>)
        ensures
            match result {
                Ok(handle) => raw != 0 && handle@ == Some(raw),
                Err(error) => raw == 0 && error == ipc::Error::invalid_argument(),
            },
    {
        if raw == 0 {
            Err(ipc::Error::invalid_argument())
        } else {
            Ok(Self::entry(raw))
        }
    }

    fn entry(raw: u64) -> (handle: Self)
        ensures
            handle@ == Some(raw),
    {
        Self { raw: Some(raw), object_type: PhantomData }
    }

    fn adopt(raw: CapabilityHandle) -> (result: Result<Self, ipc::Error>)
        ensures
            match result {
                Ok(handle) => raw != 0 && handle@ == Some(raw),
                Err(error) => raw == 0 && error == ipc::Error::io(),
            },
    {
        if raw == 0 {
            Err(ipc::Error::io())
        } else {
            Ok(Self::entry(raw))
        }
    }

    fn adopt_result(value: Result<u64, ipc::Error>) -> (result: Result<Self, ipc::Error>)
        ensures
            owns(Some(result), Some(adopted(value))),
    {
        match value {
            Ok(raw) => Self::adopt(raw),
            Err(error) => Err(error),
        }
    }

    pub fn as_raw(&self) -> (raw: CapabilityHandle)
        requires
            self@ is Some,
        ensures
            self@ == Some(raw),
    {
        self.raw.unwrap()
    }

    pub fn borrow(&self) -> (handle: BorrowedHandle<'_, T>)
        requires
            self@ is Some,
        ensures
            self@ == Some(handle@),
    {
        BorrowedHandle { raw: self.raw.unwrap(), owner: PhantomData }
    }

    /// Gives the number away. Whoever gets it closes or moves the handle.
    pub fn into_raw(self) -> (raw: CapabilityHandle)
        requires
            self@ is Some,
        ensures
            self@ == Some(raw),
    {
        self.raw.unwrap()
    }

    /// Closes the handle.
    pub fn close(self, k: &mut Kernel) -> (result: Option<Result<(), ipc::Error>>)
        requires
            self@ is Some,
        ensures
            (final(k)@, result) == ipc::close_run(old(k)@, self@->Some_0),
    {
        ipc::close(k, self.raw.unwrap())
    }

    /// Closes the handle, whatever the kernel says to it.
    pub fn discard(self, k: &mut Kernel) -> (result: Option<()>)
        ensures
            (final(k)@, result) == discard_run(old(k)@, self@),
    {
        match self.raw {
            Some(raw) => {
                let _ = ipc::close(k, raw)?;
                Some(())
            },
            None => Some(()),
        }
    }

    pub fn info(&self, k: &mut Kernel) -> (result: Option<Result<CapabilityInfo, ipc::Error>>)
        requires
            self@ is Some,
        ensures
            (final(k)@, result) == ipc::info_run(old(k)@, self@->Some_0),
    {
        ipc::info(k, self.as_raw())
    }

    pub fn signal_state(&self, k: &mut Kernel) -> (result: Option<Result<Signals, ipc::Error>>)
        requires
            self@ is Some,
        ensures
            (final(k)@, result) == ipc::signals_run(
                old(k)@,
                Op::SignalState { handle: self@->Some_0 },
            ),
    {
        ipc::signal_state(k, self.as_raw())
    }

    pub fn wait(&self, k: &mut Kernel, requested: Signals, deadline: Deadline) -> (result: Option<
        Result<Signals, ipc::Error>,
    >)
        requires
            self@ is Some,
        ensures
            (final(k)@, result) == ipc::signals_run(
                old(k)@,
                Op::WaitOne {
                    handle: self@->Some_0,
                    signals: requested.raw,
                    deadline: deadline.nanoseconds,
                },
            ),
    {
        ipc::wait_one(k, self.as_raw(), requested, deadline)
    }

    /// A second handle to the same object, with reduced rights.
    pub fn duplicate(&self, k: &mut Kernel, rights: Rights) -> (result: Option<
        Result<Self, ipc::Error>,
    >)
        requires
            self@ is Some,
        ensures
            final(k)@ == adopt_run(
                old(k)@,
                Op::Duplicate { handle: self@->Some_0, rights: rights.raw },
            ).0,
            owns(
                result,
                adopt_run(old(k)@, Op::Duplicate { handle: self@->Some_0, rights: rights.raw }).1,
            ),
    {
        let value = ipc::duplicate(k, self.as_raw(), rights)?;
        Some(Self::adopt_result(value))
    }

    /// Replaces the entry by one with reduced rights. A failed call leaves the handle as it was.
    /// A replacement without a number leaves no handle, because the old entry is gone.
    pub fn replace_rights(&mut self, k: &mut Kernel, rights: Rights) -> (result: Option<
        Result<(), ipc::Error>,
    >)
        requires
            old(self)@ is Some,
        ensures
            ({
                let (asked, value) = ipc::value_run(
                    old(k)@,
                    Op::Replace { handle: old(self)@->Some_0, rights: rights.raw },
                );
                &&& final(k)@ == asked
                &&& match value {
                    None => result is None && final(self)@ == old(self)@,
                    Some(Err(error)) => result == Some(Err::<(), _>(error)) && final(self)@ == old(
                        self,
                    )@,
                    Some(Ok(raw)) => if raw == 0 {
                        result == Some(Err::<(), _>(ipc::Error::io())) && final(self)@ is None
                    } else {
                        result == Some(Ok::<(), ipc::Error>(())) && final(self)@ == Some(raw)
                    },
                }
            }),
    {
        match ipc::replace(k, self.as_raw(), rights)? {
            Err(error) => Some(Err(error)),
            Ok(replacement) => {
                if replacement == 0 {
                    self.raw = None;
                    Some(Err(ipc::Error::io()))
                } else {
                    self.raw = Some(replacement);
                    Some(Ok(()))
                }
            },
        }
    }

    /// Forgets the kind of the object.
    pub fn erase(self) -> (handle: OwnedHandle<AnyObject>)
        ensures
            handle@ == self@,
    {
        OwnedHandle { raw: self.raw, object_type: PhantomData }
    }

    /// Gives the handle a kind after checking it. A handle of another kind is handed back.
    pub fn try_cast<U: KnownObjectType>(self, k: &mut Kernel) -> (result: Option<
        Result<OwnedHandle<U>, (ipc::Error, Self)>,
    >)
        requires
            self@ is Some,
        ensures
            ({
                let (asked, info) = ipc::info_run(old(k)@, self@->Some_0);
                &&& final(k)@ == asked
                &&& match info {
                    None => result is None,
                    Some(Err(error)) => result matches Some(Err((cause, handle))) && cause == error
                        && handle@ == self@,
                    Some(Ok(info)) => if info.kind == U::kind_of() {
                        result matches Some(Ok(handle)) && handle@ == self@
                    } else {
                        result matches Some(Err((cause, handle))) && cause
                            == ipc::Error::invalid_argument() && handle@ == self@
                    },
                }
            }),
    {
        match self.info(k)? {
            Ok(info) => {
                if info.kind == U::kind() {
                    Some(Ok(OwnedHandle { raw: self.raw, object_type: PhantomData }))
                } else {
                    Some(Err((ipc::Error::invalid_argument(), self)))
                }
            },
            Err(error) => Some(Err((error, self))),
        }
    }
}

/// Creating two connected endpoints: the second one without a number closes the first.
pub open spec fn create_pair_run(k: kernel::Transcript) -> (
    kernel::Transcript,
    Option<Result<(u64, u64), ipc::Error>>,
) {
    let (asked, pair) = ipc::endpoint_create_pair_run(k);
    match pair {
        None => (asked, None),
        Some(Err(error)) => (asked, Some(Err(error))),
        Some(Ok((first, second))) => if first == 0 {
            (asked, Some(Err(ipc::Error::io())))
        } else if second == 0 {
            let (closed, done) = discard_run(asked, Some(first));
            (
                closed,
                match done {
                    Some(_) => Some(Err(ipc::Error::io())),
                    None => None,
                },
            )
        } else {
            (asked, Some(Ok((first, second))))
        },
    }
}

impl OwnedHandle<Endpoint> {
    pub fn create(k: &mut Kernel) -> (result: Option<Result<Self, ipc::Error>>)
        ensures
            final(k)@ == adopt_run(old(k)@, Op::EndpointCreate).0,
            owns(result, adopt_run(old(k)@, Op::EndpointCreate).1),
    {
        let value = ipc::endpoint_create(k)?;
        Some(Self::adopt_result(value))
    }

    pub fn create_pair(k: &mut Kernel) -> (result: Option<Result<(Self, Self), ipc::Error>>)
        ensures
            final(k)@ == create_pair_run(old(k)@).0,
            match (result, create_pair_run(old(k)@).1) {
                (None, None) => true,
                (Some(Ok((first, second))), Some(Ok(pair))) => first@ == Some(pair.0) && second@
                    == Some(pair.1),
                (Some(Err(error)), Some(Err(expected))) => error == expected,
                _ => false,
            },
    {
        match ipc::endpoint_create_pair(k)? {
            Err(error) => Some(Err(error)),
            Ok((first, second)) => {
                let first = match Self::adopt(first) {
                    Ok(first) => first,
                    Err(error) => {
                        return Some(Err(error));
                    },
                };
                match Self::adopt(second) {
                    Ok(second) => Some(Ok((first, second))),
                    Err(error) => {
                        first.discard(k)?;
                        Some(Err(error))
                    },
                }
            },
        }
    }

    pub fn send(&self, k: &mut Kernel, bytes: &[u8]) -> (result: Option<Result<(), ipc::Error>>)
        requires
            self@ is Some,
        ensures
            (final(k)@, result) == ipc::send_run(old(k)@, self@->Some_0, bytes@, None),
    {
        self.borrow().send(k, bytes)
    }

    /// Sends a message that moves `handle`. A failed send hands the handle back.
    pub fn send_move<T: ObjectType>(
        &self,
        k: &mut Kernel,
        bytes: &[u8],
        handle: OwnedHandle<T>,
        rights: Rights,
    ) -> (result: Option<Result<(), SendMoveError<T>>>)
        requires
            self@ is Some,
            handle@ is Some,
        ensures
            final(k)@ == send_move_run(
                old(k)@,
                self@->Some_0,
                bytes@,
                handle@->Some_0,
                rights,
            ).0,
            kept(
                result,
                send_move_run(old(k)@, self@->Some_0, bytes@, handle@->Some_0, rights).1,
                handle,
            ),
    {
        self.borrow().send_move(k, bytes, handle, rights)
    }

    /// Sends a message that moves all of `handles`, or hands all of them back.
    pub fn send_move_many<const N: usize>(
        &self,
        k: &mut Kernel,
        bytes: &[u8],
        handles: [MoveHandle; N],
    ) -> (result: Option<Result<(), SendMoveManyError<N>>>)
        requires
            self@ is Some,
            forall|i: int| 0 <= i < N ==> (#[trigger] handles@[i])@.0 is Some,
        ensures
            final(k)@ == ipc::send_move_many_run(
                old(k)@,
                self@->Some_0,
                bytes@,
                transfers_of(handles@),
            ).0,
            kept_many(
                result,
                ipc::send_move_many_run(
                    old(k)@,
                    self@->Some_0,
                    bytes@,
                    transfers_of(handles@),
                ).1,
                handles,
            ),
    {
        self.borrow().send_move_many(k, bytes, handles)
    }

    pub fn try_receive(&self, k: &mut Kernel, capacity: usize) -> (result: Option<
        Result<(ReceivedMessage, Vec<u8>), ipc::Error>,
    >)
        requires
            self@ is Some,
        ensures
            final(k)@ == ipc::try_receive_run(old(k)@, self@->Some_0, capacity).0,
            received(result, ipc::try_receive_run(old(k)@, self@->Some_0, capacity).1),
    {
        self.borrow().try_receive(k, capacity)
    }

    pub fn try_receive_many<const N: usize>(&self, k: &mut Kernel, capacity: usize) -> (result:
        Option<Result<(ReceivedMessageMany<N>, Vec<u8>), ipc::ReceiveManyError>>)
        requires
            self@ is Some,
        ensures
            final(k)@ == ipc::try_receive_many_run(old(k)@, self@->Some_0, capacity, N).0,
            received_many(
                result,
                ipc::try_receive_many_run(old(k)@, self@->Some_0, capacity, N).1,
            ),
    {
        self.borrow().try_receive_many(k, capacity)
    }
}

impl OwnedHandle<Notification> {
    pub fn create(k: &mut Kernel) -> (result: Option<Result<Self, ipc::Error>>)
        ensures
            final(k)@ == adopt_run(old(k)@, Op::NotificationCreate).0,
            owns(result, adopt_run(old(k)@, Op::NotificationCreate).1),
    {
        let value = ipc::notification_create(k)?;
        Some(Self::adopt_result(value))
    }

    pub fn signal(&self, k: &mut Kernel, amount: u64) -> (result: Option<Result<u64, ipc::Error>>)
        requires
            self@ is Some,
        ensures
            (final(k)@, result) == ipc::value_run(
                old(k)@,
                Op::NotificationSignal { handle: self@->Some_0, amount },
            ),
    {
        ipc::notification_signal(k, self.as_raw(), amount)
    }

    pub fn try_wait(&self, k: &mut Kernel) -> (result: Option<Result<u64, ipc::Error>>)
        requires
            self@ is Some,
        ensures
            (final(k)@, result) == ipc::value_run(
                old(k)@,
                Op::NotificationTryWait { handle: self@->Some_0 },
            ),
    {
        ipc::notification_try_wait(k, self.as_raw())
    }
}

impl OwnedHandle<SharedMemory> {
    pub fn create(k: &mut Kernel, length: usize) -> (result: Option<Result<Self, ipc::Error>>)
        ensures
            final(k)@ == adopt_run(
                old(k)@,
                Op::SharedMemoryCreate { length: length as u64 },
            ).0,
            owns(
                result,
                adopt_run(old(k)@, Op::SharedMemoryCreate { length: length as u64 }).1,
            ),
    {
        let value = ipc::shared_memory_create(k, length)?;
        Some(Self::adopt_result(value))
    }

    pub fn read(&self, k: &mut Kernel, offset: usize, capacity: usize) -> (result: Option<
        Result<(usize, Vec<u8>), ipc::Error>,
    >)
        requires
            self@ is Some,
        ensures
            ipc::memory_read(
                old(k)@,
                final(k)@,
                self@->Some_0,
                offset,
                capacity,
                result,
            ),
    {
        ipc::shared_memory_read(k, self.as_raw(), offset, capacity)
    }

    pub fn write(&self, k: &mut Kernel, offset: usize, bytes: &[u8]) -> (result: Option<
        Result<usize, ipc::Error>,
    >)
        requires
            self@ is Some,
        ensures
            (final(k)@, result) == ipc::count_run(
                old(k)@,
                Op::SharedMemoryWrite { handle: self@->Some_0, offset: offset as u64 },
                bytes@,
            ),
    {
        ipc::shared_memory_write(k, self.as_raw(), offset, bytes)
    }
}

impl OwnedHandle<Job> {
    pub fn create(k: &mut Kernel) -> (result: Option<Result<Self, ipc::Error>>)
        ensures
            final(k)@ == adopt_run(old(k)@, Op::JobCreate).0,
            owns(result, adopt_run(old(k)@, Op::JobCreate).1),
    {
        let value = ipc::job_create(k)?;
        Some(Self::adopt_result(value))
    }

    pub fn create_child(&self, k: &mut Kernel) -> (result: Option<Result<Self, ipc::Error>>)
        requires
            self@ is Some,
        ensures
            final(k)@ == adopt_run(old(k)@, Op::JobCreateChild { parent: self@->Some_0 }).0,
            owns(result, adopt_run(old(k)@, Op::JobCreateChild { parent: self@->Some_0 }).1),
    {
        let value = ipc::job_create_child(k, self.as_raw())?;
        Some(Self::adopt_result(value))
    }
}

impl OwnedHandle<WaitSet> {
    pub fn create(k: &mut Kernel) -> (result: Option<Result<Self, ipc::Error>>)
        ensures
            final(k)@ == adopt_run(old(k)@, Op::WaitSetCreate).0,
            owns(result, adopt_run(old(k)@, Op::WaitSetCreate).1),
    {
        let value = ipc::wait_set_create(k)?;
        Some(Self::adopt_result(value))
    }

    pub fn add<T: ObjectType>(
        &self,
        k: &mut Kernel,
        target: BorrowedHandle<'_, T>,
        requested: Signals,
        key: u64,
    ) -> (result: Option<Result<(), ipc::Error>>)
        requires
            self@ is Some,
        ensures
            (final(k)@, result) == ipc::unit_run(
                old(k)@,
                Op::WaitSetAdd {
                    set: self@->Some_0,
                    handle: target@,
                    signals: requested.raw,
                    key,
                },
                seq![],
            ),
    {
        ipc::wait_set_add(k, self.as_raw(), target.as_raw(), requested, key)
    }

    pub fn remove(&self, k: &mut Kernel, key: u64) -> (result: Option<Result<(), ipc::Error>>)
        requires
            self@ is Some,
        ensures
            (final(k)@, result) == ipc::unit_run(
                old(k)@,
                Op::WaitSetRemove { set: self@->Some_0, key },
                seq![],
            ),
    {
        ipc::wait_set_remove(k, self.as_raw(), key)
    }

    pub fn wait_next(&self, k: &mut Kernel, deadline: Deadline) -> (result: Option<
        Result<WaitSetEvent, ipc::Error>,
    >)
        requires
            self@ is Some,
        ensures
            ({
                let (asked, event) = ipc::keyed_run(
                    old(k)@,
                    Op::WaitSetWait { set: self@->Some_0, deadline: deadline.nanoseconds },
                );
                &&& final(k)@ == asked
                &&& match result {
                    None => event is None,
                    Some(Ok(ready)) => event == Some(
                        Ok::<_, ipc::Error>((ready.key, ready.signals)),
                    ),
                    Some(Err(error)) => event == Some(Err::<(u64, Signals), _>(error)),
                }
            }),
    {
        ipc::wait_set_wait(k, self.as_raw(), deadline)
    }
}

impl OwnedHandle<EventPort> {
    pub fn create(k: &mut Kernel) -> (result: Option<Result<Self, ipc::Error>>)
        ensures
            final(k)@ == adopt_run(old(k)@, Op::EventPortCreate).0,
            owns(result, adopt_run(old(k)@, Op::EventPortCreate).1),
    {
        let value = ipc::event_port_create(k)?;
        Some(Self::adopt_result(value))
    }

    pub fn add<T: ObjectType>(
        &self,
        k: &mut Kernel,
        target: BorrowedHandle<'_, T>,
        requested: Signals,
        key: u64,
    ) -> (result: Option<Result<(), ipc::Error>>)
        requires
            self@ is Some,
        ensures
            (final(k)@, result) == ipc::unit_run(
                old(k)@,
                Op::EventPortAdd {
                    port: self@->Some_0,
                    handle: target@,
                    signals: requested.raw,
                    key,
                },
                seq![],
            ),
    {
        ipc::event_port_add(k, self.as_raw(), target.as_raw(), requested, key)
    }

    pub fn remove(&self, k: &mut Kernel, key: u64) -> (result: Option<Result<(), ipc::Error>>)
        requires
            self@ is Some,
        ensures
            (final(k)@, result) == ipc::unit_run(
                old(k)@,
                Op::EventPortRemove { port: self@->Some_0, key },
                seq![],
            ),
    {
        ipc::event_port_remove(k, self.as_raw(), key)
    }

    pub fn wait_next(&self, k: &mut Kernel, deadline: Deadline) -> (result: Option<
        Result<EventPortEvent, ipc::Error>,
    >)
        requires
            self@ is Some,
        ensures
            ({
                let (asked, event) = ipc::keyed_run(
                    old(k)@,
                    Op::EventPortWait { port: self@->Some_0, deadline: deadline.nanoseconds },
                );
                &&& final(k)@ == asked
                &&& match result {
                    None => event is None,
                    Some(Ok(edge)) => event == Some(Ok::<_, ipc::Error>((edge.key, edge.signals))),
                    Some(Err(error)) => event == Some(Err::<(u64, Signals), _>(error)),
                }
            }),
    {
        ipc::event_port_wait(k, self.as_raw(), deadline)
    }
}

impl OwnedHandle<Timer> {
    pub fn create(k: &mut Kernel) -> (result: Option<Result<Self, ipc::Error>>)
        ensures
            final(k)@ == adopt_run(old(k)@, Op::TimerCreate).0,
            owns(result, adopt_run(old(k)@, Op::TimerCreate).1),
    {
        let value = ipc::timer_create(k)?;
        Some(Self::adopt_result(value))
    }

    pub fn arm(&self, k: &mut Kernel, deadline: Deadline) -> (result: Option<
        Result<(), ipc::Error>,
    >)
        requires
            self@ is Some,
        ensures
            (final(k)@, result) == ipc::unit_run(
                old(k)@,
                Op::TimerArm { timer: self@->Some_0, deadline: deadline.nanoseconds },
                seq![],
            ),
    {
        ipc::timer_arm(k, self.as_raw(), deadline)
    }

    pub fn cancel(&self, k: &mut Kernel) -> (result: Option<Result<(), ipc::Error>>)
        requires
            self@ is Some,
        ensures
            (final(k)@, result) == ipc::unit_run(
                old(k)@,
                Op::TimerCancel { timer: self@->Some_0 },
                seq![],
            ),
    {
        ipc::timer_cancel(k, self.as_raw())
    }
}

impl OwnedHandle<Event> {
    pub fn create(k: &mut Kernel) -> (result: Option<Result<Self, ipc::Error>>)
        ensures
            final(k)@ == adopt_run(old(k)@, Op::EventCreate).0,
            owns(result, adopt_run(old(k)@, Op::EventCreate).1),
    {
        let value = ipc::event_create(k)?;
        Some(Self::adopt_result(value))
    }

    pub fn set(&self, k: &mut Kernel) -> (result: Option<Result<(), ipc::Error>>)
        requires
            self@ is Some,
        ensures
            (final(k)@, result) == ipc::unit_run(
                old(k)@,
                Op::EventSet { event: self@->Some_0 },
                seq![],
            ),
    {
        ipc::event_set(k, self.as_raw())
    }

    pub fn reset(&self, k: &mut Kernel) -> (result: Option<Result<(), ipc::Error>>)
        requires
            self@ is Some,
        ensures
            (final(k)@, result) == ipc::unit_run(
                old(k)@,
                Op::EventReset { event: self@->Some_0 },
                seq![],
            ),
    {
        ipc::event_reset(k, self.as_raw())
    }
}

impl<'a, T: ObjectType> BorrowedHandle<'a, T> {
    pub fn as_raw(self) -> (raw: CapabilityHandle)
        ensures
            raw == self@,
    {
        self.raw
    }

    pub fn info(self, k: &mut Kernel) -> (result: Option<Result<CapabilityInfo, ipc::Error>>)
        ensures
            (final(k)@, result) == ipc::info_run(old(k)@, self@),
    {
        ipc::info(k, self.as_raw())
    }

    pub fn signal_state(self, k: &mut Kernel) -> (result: Option<Result<Signals, ipc::Error>>)
        ensures
            (final(k)@, result) == ipc::signals_run(old(k)@, Op::SignalState { handle: self@ }),
    {
        ipc::signal_state(k, self.as_raw())
    }

    pub fn wait(self, k: &mut Kernel, requested: Signals, deadline: Deadline) -> (result: Option<
        Result<Signals, ipc::Error>,
    >)
        ensures
            (final(k)@, result) == ipc::signals_run(
                old(k)@,
                Op::WaitOne {
                    handle: self@,
                    signals: requested.raw,
                    deadline: deadline.nanoseconds,
                },
            ),
    {
        ipc::wait_one(k, self.as_raw(), requested, deadline)
    }

    pub fn duplicate(self, k: &mut Kernel, rights: Rights) -> (result: Option<
        Result<OwnedHandle<T>, ipc::Error>,
    >)
        ensures
            final(k)@ == adopt_run(old(k)@, Op::Duplicate { handle: self@, rights: rights.raw }).0,
            owns(
                result,
                adopt_run(old(k)@, Op::Duplicate { handle: self@, rights: rights.raw }).1,
            ),
    {
        let value = ipc::duplicate(k, self.as_raw(), rights)?;
        Some(OwnedHandle::adopt_result(value))
    }

    pub fn wait_item(self, requested: Signals) -> (item: ipc::WaitItem)
        ensures
            item == (ipc::WaitItem { handle: self@, requested }),
    {
        ipc::WaitItem::new(self.as_raw(), requested)
    }
}

/// A send that moves one handle.
pub open spec fn send_move_run(
    k: kernel::Transcript,
    endpoint: CapabilityHandle,
    bytes: Seq<u8>,
    handle: CapabilityHandle,
    rights: Rights,
) -> (kernel::Transcript, Option<Result<(), ipc::Error>>) {
    ipc::unit_run(k, Op::SendMove { endpoint, handle, rights: rights.raw }, bytes)
}

/// Whether a send that moves a handle hands it back exactly when it failed.
pub open spec fn kept<T: ObjectType>(
    result: Option<Result<(), SendMoveError<T>>>,
    outcome: Option<Result<(), ipc::Error>>,
    handle: OwnedHandle<T>,
) -> bool {
    match (result, outcome) {
        (None, None) => true,
        (Some(Ok(_)), Some(Ok(_))) => true,
        (Some(Err(failure)), Some(Err(error))) => failure.error_of() == error
            && failure.handle_of() == handle,
        _ => false,
    }
}

/// The handles that a send moves.
pub open spec fn transfers_of(handles: Seq<MoveHandle>) -> Seq<ipc::Transfer> {
    Seq::new(
        handles.len(),
        |i: int| ipc::Transfer { handle: handles[i]@.0->Some_0, rights: handles[i]@.1 },
    )
}

/// Whether a send that moves several handles hands all of them back exactly when it failed.
pub open spec fn kept_many<const N: usize>(
    result: Option<Result<(), SendMoveManyError<N>>>,
    outcome: Option<Result<(), ipc::Error>>,
    handles: [MoveHandle; N],
) -> bool {
    match (result, outcome) {
        (None, None) => true,
        (Some(Ok(_)), Some(Ok(_))) => true,
        (Some(Err(failure)), Some(Err(error))) => failure.error_of() == error
            && failure.handles_of() == handles,
        _ => false,
    }
}

/// Whether a received message and its bytes are what came out. The capability is owned.
pub open spec fn received(
    result: Option<Result<(ReceivedMessage, Vec<u8>), ipc::Error>>,
    outcome: Option<Result<ipc::Delivery, ipc::Error>>,
) -> bool {
    match (result, outcome) {
        (None, None) => true,
        (Some(Ok((message, payload))), Some(Ok(delivery))) => {
            &&& message.sender_process_id == delivery.message.sender_process_id
            &&& message.bytes == delivery.message.bytes
            &&& payload@ == delivery.payload
            &&& match (message.capability, delivery.message.capability) {
                (None, None) => true,
                (Some(owned), Some(capability)) => owned.handle@ == Some(capability.handle)
                    && owned.rights == capability.rights,
                _ => false,
            }
        },
        (Some(Err(error)), Some(Err(expected))) => error == expected,
        _ => false,
    }
}

/// Whether a received message with several capabilities is what came out.
pub open spec fn received_many<const N: usize>(
    result: Option<Result<(ReceivedMessageMany<N>, Vec<u8>), ipc::ReceiveManyError>>,
    outcome: Option<Result<ipc::DeliveryMany, ipc::ReceiveManyError>>,
) -> bool {
    match (result, outcome) {
        (None, None) => true,
        (Some(Ok((message, payload))), Some(Ok(delivery))) => {
            &&& message.sender_process_id == delivery.sender_process_id
            &&& message.bytes == delivery.payload.len()
            &&& payload@ == delivery.payload
            &&& message.capability_count == delivery.capabilities.len()
            &&& adopted_all(message.capabilities@, delivery.capabilities)
        },
        (Some(Err(error)), Some(Err(expected))) => error == expected,
        _ => false,
    }
}

/// Whether every received capability is owned, in order.
pub open spec fn adopted_all(
    owned: Seq<ReceivedCapability>,
    capabilities: Seq<ipc::ReceivedCapability>,
) -> bool {
    &&& owned.len() == capabilities.len()
    &&& forall|i: int|
        0 <= i < owned.len() ==> {
            &&& (#[trigger] owned[i]).handle@ == Some(capabilities[i].handle)
            &&& owned[i].rights == capabilities[i].rights
        }
}

impl<'a> BorrowedHandle<'a, Endpoint> {
    pub fn send(self, k: &mut Kernel, bytes: &[u8]) -> (result: Option<Result<(), ipc::Error>>)
        ensures
            (final(k)@, result) == ipc::send_run(old(k)@, self@, bytes@, None),
    {
        ipc::send(k, self.as_raw(), bytes, None)
    }

    /// Sends a message that moves `handle`. A failed send hands the handle back.
    pub fn send_move<T: ObjectType>(
        self,
        k: &mut Kernel,
        bytes: &[u8],
        handle: OwnedHandle<T>,
        rights: Rights,
    ) -> (result: Option<Result<(), SendMoveError<T>>>)
        requires
            handle@ is Some,
        ensures
            final(k)@ == send_move_run(old(k)@, self@, bytes@, handle@->Some_0, rights).0,
            kept(
                result,
                send_move_run(old(k)@, self@, bytes@, handle@->Some_0, rights).1,
                handle,
            ),
    {
        let transfer = ipc::Transfer { handle: handle.as_raw(), rights };
        match ipc::send_move(k, self.as_raw(), bytes, transfer)? {
            Ok(()) => Some(Ok(())),
            Err(error) => Some(Err(SendMoveError::new(error, handle))),
        }
    }

    /// Sends a message that moves all of `handles`, or hands all of them back.
    pub fn send_move_many<const N: usize>(
        self,
        k: &mut Kernel,
        bytes: &[u8],
        handles: [MoveHandle; N],
    ) -> (result: Option<Result<(), SendMoveManyError<N>>>)
        requires
            forall|i: int| 0 <= i < N ==> (#[trigger] handles@[i])@.0 is Some,
        ensures
            final(k)@ == ipc::send_move_many_run(
                old(k)@,
                self@,
                bytes@,
                transfers_of(handles@),
            ).0,
            kept_many(
                result,
                ipc::send_move_many_run(old(k)@, self@, bytes@, transfers_of(handles@)).1,
                handles,
            ),
    {
        let mut transfers: Vec<ipc::Transfer> = Vec::new();
        let mut index: usize = 0;
        while index < N
            invariant
                index <= N,
                forall|i: int| 0 <= i < N ==> (#[trigger] handles@[i])@.0 is Some,
                transfers@ =~= transfers_of(handles@).take(index as int),
            decreases N - index,
        {
            let handle = &handles[index];
            transfers.push(
                ipc::Transfer { handle: handle.handle().as_raw(), rights: handle.rights() },
            );
            index += 1;
        }
        assert(transfers@ =~= transfers_of(handles@));
        match ipc::send_move_many(k, self.as_raw(), bytes, transfers.as_slice())? {
            Ok(()) => Some(Ok(())),
            Err(error) => Some(Err(SendMoveManyError::new(error, handles))),
        }
    }

    pub fn try_receive(self, k: &mut Kernel, capacity: usize) -> (result: Option<
        Result<(ReceivedMessage, Vec<u8>), ipc::Error>,
    >)
        ensures
            final(k)@ == ipc::try_receive_run(old(k)@, self@, capacity).0,
            received(result, ipc::try_receive_run(old(k)@, self@, capacity).1),
    {
        match ipc::try_receive(k, self.as_raw(), capacity)? {
            Err(error) => Some(Err(error)),
            Ok(delivery) => {
                let capability = match delivery.message.capability {
                    Some(capability) => Some(
                        ReceivedCapability {
                            handle: OwnedHandle::entry(capability.handle),
                            rights: capability.rights,
                        },
                    ),
                    None => None,
                };
                Some(
                    Ok(
                        (
                            ReceivedMessage {
                                sender_process_id: delivery.message.sender_process_id,
                                bytes: delivery.message.bytes,
                                capability,
                            },
                            delivery.payload,
                        ),
                    ),
                )
            },
        }
    }

    pub fn try_receive_many<const N: usize>(self, k: &mut Kernel, capacity: usize) -> (result:
        Option<Result<(ReceivedMessageMany<N>, Vec<u8>), ipc::ReceiveManyError>>)
        ensures
            final(k)@ == ipc::try_receive_many_run(old(k)@, self@, capacity, N).0,
            received_many(result, ipc::try_receive_many_run(old(k)@, self@, capacity, N).1),
    {
        let message = match ipc::try_receive_many(k, self.as_raw(), capacity, N)? {
            Err(error) => {
                return Some(Err(error));
            },
            Ok(message) => message,
        };
        let mut capabilities: Vec<ReceivedCapability> = Vec::new();
        let mut index: usize = 0;
        while index < message.capabilities.len()
            invariant
                index <= message.capabilities@.len(),
                adopted_all(capabilities@, message.capabilities@.take(index as int)),
            decreases message.capabilities@.len() - index,
        {
            let capability = message.capabilities[index];
            capabilities.push(
                ReceivedCapability {
                    handle: OwnedHandle::entry(capability.handle),
                    rights: capability.rights,
                },
            );
            index += 1;
        }
        assert(message.capabilities@.take(index as int) =~= message.capabilities@);
        let bytes: usize = message.payload.len();
        Some(
            Ok(
                (
                    ReceivedMessageMany {
                        sender_process_id: message.sender_process_id,
                        bytes,
                        capabilities,
                        capability_count: index,
                    },
                    message.payload,
                ),
            ),
        )
    }
}

} // verus!
