//! Bounded state of a filesystem service: its sessions and their shared buffers.

use crate::ipc::CapabilityHandle;
use vstd::prelude::*;

verus! {

pub const MAX_SESSIONS: usize = 4;

pub const MAX_BUFFERS_PER_SESSION: usize = 4;

/// The largest generation whose rotation leaves the low bits of an identity zero.
pub const MAX_PLAIN_GENERATION: u64 = 0x7fff_ffff_ffff;

/// The first sequence number that reaches into the bits of such a generation.
pub const PLAIN_SEQUENCES: u32 = 0x2_0000;

#[derive(Debug, Clone, Copy, PartialEq, Eq, Structural)]
pub enum Error {
    NoSpace,
    StaleSession,
    InvalidBuffer,
}

/// A shared buffer that a session has attached. An identity of zero marks a free slot.
#[derive(Debug, Clone, Copy, PartialEq, Eq, Structural)]
pub struct BufferSlot {
    pub id: u64,
    pub handle: CapabilityHandle,
    pub length: u64,
}

impl BufferSlot {
    /// The free slot.
    pub open spec fn free() -> BufferSlot {
        BufferSlot { id: 0, handle: 0, length: 0 }
    }

    /// A slot is free, or everything in it is nonzero.
    pub open spec fn well_formed(self) -> bool {
        self == BufferSlot::free() || (self.id != 0 && self.handle != 0 && self.length != 0)
    }
}

/// An identity of zero marks a free slot.
#[derive(Clone, Copy)]
struct SessionSlot {
    id: u64,
    generation: u64,
    reply_endpoint: CapabilityHandle,
    buffers: [BufferSlot; MAX_BUFFERS_PER_SESSION],
}

/// A session as the contracts see it.
#[verifier::ext_equal]
pub ghost struct Session {
    pub id: u64,
    pub generation: u64,
    pub reply_endpoint: CapabilityHandle,
    pub buffers: Seq<BufferSlot>,
}

impl Session {
    /// The free slot.
    pub open spec fn free() -> Session {
        Session {
            id: 0,
            generation: 0,
            reply_endpoint: 0,
            buffers: Seq::new(MAX_BUFFERS_PER_SESSION as nat, |i: int| BufferSlot::free()),
        }
    }

    /// A slot of buffers is free, or it holds a buffer with an identity, a handle and a length. No
    /// two buffers share an identity. A slot of sessions is free, or it holds a session with a
    /// generation and a reply endpoint.
    pub open spec fn well_formed(self) -> bool {
        &&& self.buffers.len() == MAX_BUFFERS_PER_SESSION
        &&& forall|i: int| 0 <= i < self.buffers.len() ==> (#[trigger] self.buffers[i]).well_formed()
        &&& forall|i: int, j: int|
            0 <= i < j < self.buffers.len() && (#[trigger] self.buffers[i]).id != 0
                ==> self.buffers[i].id != (#[trigger] self.buffers[j]).id
        &&& self.id == 0 ==> self == Session::free()
        &&& self.id != 0 ==> self.generation != 0 && self.reply_endpoint != 0
    }

    /// The first slot whose buffer has this identity.
    pub open spec fn position(self, buffer_id: u64) -> Option<int> {
        first_buffer(self.buffers, buffer_id, 0)
    }

    /// The handles of the buffers, slot by slot. A free slot has none.
    pub open spec fn handles(self) -> Seq<CapabilityHandle> {
        self.buffers.map_values(|buffer: BufferSlot| buffer.handle)
    }

    /// The session with one buffer slot replaced.
    pub open spec fn with_buffer(self, index: int, buffer: BufferSlot) -> Session {
        Session { buffers: self.buffers.update(index, buffer), ..self }
    }

    /// Attaching a buffer: the new session and the handle it replaces.
    pub open spec fn attach(self, buffer: BufferSlot) -> Result<
        (Session, Option<CapabilityHandle>),
        Error,
    > {
        match self.position(buffer.id) {
            Some(index) => Ok(
                (self.with_buffer(index, buffer), Some(self.buffers[index].handle)),
            ),
            None => match self.position(0) {
                Some(index) => Ok((self.with_buffer(index, buffer), None)),
                None => Err(Error::NoSpace),
            },
        }
    }
}

/// The first slot at or after `from` with this identity.
pub open spec fn first_buffer(buffers: Seq<BufferSlot>, id: u64, from: int) -> Option<int>
    decreases buffers.len() - from,
{
    if from >= buffers.len() {
        None
    } else if buffers[from].id == id {
        Some(from)
    } else {
        first_buffer(buffers, id, from + 1)
    }
}

/// The first slot at or after `from` with this identity and generation.
pub open spec fn first_session(
    sessions: Seq<Session>,
    id: u64,
    generation: u64,
    from: int,
) -> Option<int>
    decreases sessions.len() - from,
{
    if from >= sessions.len() {
        None
    } else if sessions[from].id == id && sessions[from].generation == generation {
        Some(from)
    } else {
        first_session(sessions, id, generation, from + 1)
    }
}

/// The first free slot at or after `from`.
pub open spec fn first_free(sessions: Seq<Session>, from: int) -> Option<int>
    decreases sessions.len() - from,
{
    if from >= sessions.len() {
        None
    } else if sessions[from].id == 0 {
        Some(from)
    } else {
        first_free(sessions, from + 1)
    }
}

/// The generation, its bits rotated by seventeen places towards the high end.
pub open spec fn rotated(generation: u64) -> u64 {
    (generation << 17) | (generation >> 47)
}

/// The rotated generation mixed with the sequence number.
pub open spec fn mixed(generation: u64, sequence: u32) -> u64 {
    rotated(generation) ^ (sequence as u64)
}

/// The identity of a session: never zero.
pub open spec fn session_id(generation: u64, sequence: u32) -> u64 {
    if mixed(generation, sequence) == 0 {
        1
    } else {
        mixed(generation, sequence)
    }
}

/// The number that follows a sequence number: never zero.
pub open spec fn next_sequence(sequence: u32) -> u32 {
    if sequence == u32::MAX {
        1
    } else {
        (sequence + 1) as u32
    }
}

/// What a session held when it was disconnected. Handles that are zero were free slots.
pub struct ReleasedSession {
    pub reply_endpoint: CapabilityHandle,
    pub buffer_handles: [CapabilityHandle; MAX_BUFFERS_PER_SESSION],
}

/// The sessions of a service.
pub struct SessionTable {
    sessions: [SessionSlot; MAX_SESSIONS],
    next_id: u32,
}

/// The sessions of a service as the contracts see them.
#[verifier::ext_equal]
pub ghost struct Sessions {
    pub slots: Seq<Session>,
    pub next: u32,
}

impl Sessions {
    /// The session with this identity and generation.
    pub open spec fn find(self, id: u64, generation: u64) -> Option<int> {
        if id == 0 {
            None
        } else {
            first_session(self.slots, id, generation, 0)
        }
    }

    /// The table with one slot replaced.
    pub open spec fn with_slot(self, index: int, session: Session) -> Sessions {
        Sessions { slots: self.slots.update(index, session), ..self }
    }

    /// Connecting a session: the new table and the session's identity.
    pub open spec fn connect(self, generation: u64, reply_endpoint: CapabilityHandle) -> Result<
        (Sessions, u64),
        Error,
    > {
        if generation == 0 || reply_endpoint == 0 {
            Err(Error::StaleSession)
        } else {
            match first_free(self.slots, 0) {
                None => Err(Error::NoSpace),
                Some(index) => {
                    let id = session_id(generation, self.next);
                    Ok(
                        (
                            Sessions {
                                slots: self.slots.update(
                                    index,
                                    Session { id, generation, reply_endpoint, ..Session::free() },
                                ),
                                next: next_sequence(self.next),
                            },
                            id,
                        ),
                    )
                },
            }
        }
    }

    /// Attaching a buffer to a session: the new table and the handle that it replaces.
    pub open spec fn attach(self, id: u64, generation: u64, buffer: BufferSlot) -> Result<
        (Sessions, Option<CapabilityHandle>),
        Error,
    > {
        if buffer.id == 0 || buffer.handle == 0 || buffer.length == 0 {
            Err(Error::InvalidBuffer)
        } else {
            match self.find(id, generation) {
                None => Err(Error::StaleSession),
                Some(index) => match self.slots[index].attach(buffer) {
                    Err(error) => Err(error),
                    Ok((session, replaced)) => Ok((self.with_slot(index, session), replaced)),
                },
            }
        }
    }

    /// The buffer of a session: its slots, session first.
    pub open spec fn locate(self, id: u64, generation: u64, buffer_id: u64) -> Result<
        (int, int),
        Error,
    > {
        match self.find(id, generation) {
            None => Err(Error::StaleSession),
            Some(index) => if buffer_id == 0 {
                Err(Error::InvalidBuffer)
            } else {
                match self.slots[index].position(buffer_id) {
                    None => Err(Error::InvalidBuffer),
                    Some(slot) => Ok((index, slot)),
                }
            },
        }
    }

    /// Detaching a buffer: the new table and the handle given back.
    pub open spec fn detach(self, id: u64, generation: u64, buffer_id: u64) -> Result<
        (Sessions, CapabilityHandle),
        Error,
    > {
        match self.locate(id, generation, buffer_id) {
            Err(error) => Err(error),
            Ok((index, slot)) => Ok(
                (
                    self.with_slot(
                        index,
                        self.slots[index].with_buffer(slot, BufferSlot::free()),
                    ),
                    self.slots[index].buffers[slot].handle,
                ),
            ),
        }
    }

    /// Every slot is in order, and sequence numbers start at one.
    pub open spec fn well_formed(self) -> bool {
        &&& self.slots.len() == MAX_SESSIONS
        &&& forall|i: int| 0 <= i < self.slots.len() ==> (#[trigger] self.slots[i]).well_formed()
        &&& self.next >= 1
    }

    /// Whether a slot holds a session that was opened by an earlier connection: its identity is
    /// that of a sequence number before the next one.
    pub open spec fn numbered(self, index: int) -> bool {
        exists|sequence: u32|
            1 <= sequence < self.next && self.slots[index].id == #[trigger] session_id(
                self.slots[index].generation,
                sequence,
            )
    }

    /// Whether the next connection of a generation gets an identity of its own. Only the identity
    /// that stands for zero belongs to two sequence numbers of one generation.
    pub open spec fn fresh(self, generation: u64) -> bool {
        session_id(generation, self.next) == 1 ==> self.find(1, generation) is None
    }

    /// The table as long as its identities are known to be apart: sequence numbers have not
    /// started again, every live session has an earlier one, and no two of them are alike.
    pub open spec fn orderly(self) -> bool {
        &&& self.well_formed()
        &&& forall|i: int|
            0 <= i < self.slots.len() && (#[trigger] self.slots[i]).id != 0 ==> self.numbered(i)
        &&& self.distinct()
    }

    /// No two live sessions share identity and generation.
    pub open spec fn distinct(self) -> bool {
        forall|i: int, j: int|
            0 <= i < j < self.slots.len() && self.slots[i].id != 0 ==> !(#[trigger] self.slots[i].id
                == #[trigger] self.slots[j].id && self.slots[i].generation
                == self.slots[j].generation)
    }
}

impl SessionSlot {
    spec fn model(self) -> Session {
        Session {
            id: self.id,
            generation: self.generation,
            reply_endpoint: self.reply_endpoint,
            buffers: self.buffers@,
        }
    }

    fn empty() -> (slot: Self)
        ensures
            slot.model() == Session::free(),
    {
        let slot = SessionSlot {
            id: 0,
            generation: 0,
            reply_endpoint: 0,
            buffers: [BufferSlot { id: 0, handle: 0, length: 0 };MAX_BUFFERS_PER_SESSION],
        };
        assert(slot.buffers@ =~= Session::free().buffers);
        slot
    }

    fn position(&self, buffer_id: u64) -> (index: Option<usize>)
        ensures
            match index {
                Some(index) => self.model().position(buffer_id) == Some(index as int) && index
                    < MAX_BUFFERS_PER_SESSION,
                None => self.model().position(buffer_id) is None,
            },
    {
        let mut index: usize = 0;
        while index < MAX_BUFFERS_PER_SESSION
            invariant
                index <= MAX_BUFFERS_PER_SESSION,
                self.model().position(buffer_id) == first_buffer(
                    self.buffers@,
                    buffer_id,
                    index as int,
                ),
            decreases MAX_BUFFERS_PER_SESSION - index,
        {
            if self.buffers[index].id == buffer_id {
                return Some(index);
            }
            index += 1;
        }
        None
    }
}

impl View for SessionTable {
    type V = Sessions;

    closed spec fn view(&self) -> Sessions {
        Sessions {
            slots: Seq::new(MAX_SESSIONS as nat, |i: int| self.sessions@[i].model()),
            next: self.next_id,
        }
    }
}

impl SessionTable {
    #[verifier::type_invariant]
    spec fn in_order(self) -> bool {
        self@.well_formed()
    }

    pub fn new() -> (table: Self)
        ensures
            table@.slots == Seq::new(MAX_SESSIONS as nat, |i: int| Session::free()),
            table@.next == 1,
            table@.orderly(),
    {
        let empty = SessionSlot::empty();
        proof {
            assert(empty.model().well_formed());
        }
        let table = Self { sessions: [empty;MAX_SESSIONS], next_id: 1 };
        assert(table@.slots =~= Seq::new(MAX_SESSIONS as nat, |i: int| Session::free()));
        table
    }

    /// The table with one slot replaced.
    fn holding(
        sessions: [SessionSlot; MAX_SESSIONS],
        next_id: u32,
        Ghost(before): Ghost<Sessions>,
        index: usize,
        slot: SessionSlot,
    ) -> (table: Self)
        requires
            before.well_formed(),
            index < MAX_SESSIONS,
            slot.model().well_formed(),
            next_id >= 1,
            sessions@[index as int] == slot,
            forall|i: int|
                0 <= i < MAX_SESSIONS && i != index ==> (#[trigger] sessions@[i]).model()
                    == before.slots[i],
        ensures
            table@ == (Sessions {
                slots: before.slots.update(index as int, slot.model()),
                next: next_id,
            }),
            table@.well_formed(),
    {
        let ghost after = Sessions {
            slots: Seq::new(MAX_SESSIONS as nat, |i: int| sessions@[i].model()),
            next: next_id,
        };
        assert(after.slots =~= before.slots.update(index as int, slot.model()));
        assert forall|i: int| 0 <= i < after.slots.len() implies (
        #[trigger] after.slots[i]).well_formed() by {
            assert(i != index ==> after.slots[i] == before.slots[i]);
        }
        SessionTable { sessions, next_id }
    }

    /// Opens a session of a generation. Its replies go to `reply_endpoint`.
    pub fn connect(&mut self, generation: u64, reply_endpoint: CapabilityHandle) -> (result: Result<
        u64,
        Error,
    >)
        ensures
            match old(self)@.connect(generation, reply_endpoint) {
                Ok((table, id)) => result == Ok::<_, Error>(id) && final(self)@ == table,
                Err(error) => result == Err::<u64, _>(error) && final(self)@ == old(self)@,
            },
            final(self)@.well_formed(),
            old(self)@.orderly() && old(self)@.fresh(generation) ==> final(self)@.distinct(),
            old(self)@.orderly() && old(self)@.fresh(generation) && old(self)@.next < u32::MAX
                ==> final(self)@.orderly(),
    {
        proof {
            use_type_invariant(&*self);
            if old(self)@.orderly() && old(self)@.fresh(generation) {
                lemma_connect_keeps_sessions_apart(old(self)@, generation, reply_endpoint);
            }
        }
        if generation == 0 || reply_endpoint == 0 {
            return Err(Error::StaleSession);
        }
        let mut index: usize = 0;
        while index < MAX_SESSIONS && self.sessions[index].id != 0
            invariant
                index <= MAX_SESSIONS,
                *self == *old(self),
                first_free(self@.slots, 0) == first_free(self@.slots, index as int),
            decreases MAX_SESSIONS - index,
        {
            index += 1;
        }
        if index == MAX_SESSIONS {
            return Err(Error::NoSpace);
        }
        let sequence: u32 = self.next_id;
        let next_id: u32 = if sequence == u32::MAX {
            1
        } else {
            sequence + 1
        };
        let mixed: u64 = ((generation << 17) | (generation >> 47)) ^ (sequence as u64);
        let id: u64 = if mixed == 0 {
            1
        } else {
            mixed
        };
        let empty = SessionSlot::empty();
        let slot = SessionSlot { id, generation, reply_endpoint, buffers: empty.buffers };
        let mut sessions = self.sessions;
        sessions[index] = slot;
        let connected = Self::holding(sessions, next_id, Ghost(self@), index, slot);
        *self = connected;
        assert(self@ =~= old(self)@.connect(generation, reply_endpoint)->Ok_0.0);
        Ok(id)
    }

    fn find(&self, id: u64, generation: u64) -> (index: Option<usize>)
        ensures
            match index {
                Some(index) => self@.find(id, generation) == Some(index as int) && index
                    < MAX_SESSIONS,
                None => self@.find(id, generation) is None,
            },
    {
        if id == 0 {
            return None;
        }
        let mut index: usize = 0;
        while index < MAX_SESSIONS
            invariant
                id != 0,
                index <= MAX_SESSIONS,
                self@.find(id, generation) == first_session(
                    self@.slots,
                    id,
                    generation,
                    index as int,
                ),
            decreases MAX_SESSIONS - index,
        {
            if self.sessions[index].id == id && self.sessions[index].generation == generation {
                return Some(index);
            }
            index += 1;
        }
        None
    }

    pub fn reply_endpoint(&self, id: u64, generation: u64) -> (result: Result<
        CapabilityHandle,
        Error,
    >)
        ensures
            result == match self@.find(id, generation) {
                Some(index) => Ok(self@.slots[index].reply_endpoint),
                None => Err(Error::StaleSession),
            },
    {
        match self.find(id, generation) {
            Some(index) => Ok(self.sessions[index].reply_endpoint),
            None => Err(Error::StaleSession),
        }
    }

    /// Attaches a shared buffer to a session. A buffer of the same identity is replaced, and its
    /// handle given back.
    pub fn attach_buffer(
        &mut self,
        id: u64,
        generation: u64,
        buffer_id: u64,
        handle: CapabilityHandle,
        length: u64,
    ) -> (result: Result<Option<CapabilityHandle>, Error>)
        ensures
            match old(self)@.attach(
                id,
                generation,
                BufferSlot { id: buffer_id, handle, length },
            ) {
                Ok((table, replaced)) => result == Ok::<_, Error>(replaced) && final(self)@
                    == table,
                Err(error) => result == Err::<Option<CapabilityHandle>, _>(error) && final(self)@
                    == old(self)@,
            },
            final(self)@.well_formed(),
            old(self)@.orderly() ==> final(self)@.orderly(),
    {
        proof {
            use_type_invariant(&*self);
            lemma_attach_keeps_the_table(old(self)@, id, generation, BufferSlot { id: buffer_id, handle, length });
        }
        if buffer_id == 0 || handle == 0 || length == 0 {
            return Err(Error::InvalidBuffer);
        }
        let buffer = BufferSlot { id: buffer_id, handle, length };
        let index: usize = match self.find(id, generation) {
            Some(index) => index,
            None => {
                return Err(Error::StaleSession);
            },
        };
        let mut slot = self.sessions[index];
        let (position, replaced): (usize, Option<CapabilityHandle>) = match slot.position(
            buffer_id,
        ) {
            Some(position) => (position, Some(slot.buffers[position].handle)),
            None => match slot.position(0) {
                Some(position) => (position, None),
                None => {
                    return Err(Error::NoSpace);
                },
            },
        };
        slot.buffers[position] = buffer;
        let mut sessions = self.sessions;
        sessions[index] = slot;
        let ghost attached = old(self)@.attach(id, generation, buffer)->Ok_0.0;
        assert(attached.slots[index as int] =~= slot.model());
        let table = Self::holding(sessions, self.next_id, Ghost(self@), index, slot);
        *self = table;
        assert(self@ =~= attached);
        Ok(replaced)
    }

    /// Detaches a buffer and gives its handle back.
    pub fn detach_buffer(&mut self, id: u64, generation: u64, buffer_id: u64) -> (result: Result<
        CapabilityHandle,
        Error,
    >)
        ensures
            match old(self)@.detach(id, generation, buffer_id) {
                Ok((table, handle)) => result == Ok::<_, Error>(handle) && final(self)@ == table,
                Err(error) => result == Err::<CapabilityHandle, _>(error) && final(self)@ == old(
                    self,
                )@,
            },
            final(self)@.well_formed(),
            old(self)@.orderly() ==> final(self)@.orderly(),
    {
        proof {
            use_type_invariant(&*self);
            lemma_detach_keeps_the_table(old(self)@, id, generation, buffer_id);
        }
        let index: usize = match self.find(id, generation) {
            Some(index) => index,
            None => {
                return Err(Error::StaleSession);
            },
        };
        if buffer_id == 0 {
            return Err(Error::InvalidBuffer);
        }
        let mut slot = self.sessions[index];
        let position: usize = match slot.position(buffer_id) {
            Some(position) => position,
            None => {
                return Err(Error::InvalidBuffer);
            },
        };
        let handle: CapabilityHandle = slot.buffers[position].handle;
        slot.buffers[position] = BufferSlot { id: 0, handle: 0, length: 0 };
        let mut sessions = self.sessions;
        sessions[index] = slot;
        let ghost detached = old(self)@.detach(id, generation, buffer_id)->Ok_0.0;
        assert(detached.slots[index as int] =~= slot.model());
        let table = Self::holding(sessions, self.next_id, Ghost(self@), index, slot);
        *self = table;
        assert(self@ =~= detached);
        Ok(handle)
    }

    pub fn buffer(&self, id: u64, generation: u64, buffer_id: u64) -> (result: Result<
        BufferSlot,
        Error,
    >)
        ensures
            result == match self@.locate(id, generation, buffer_id) {
                Ok((index, slot)) => Ok(self@.slots[index].buffers[slot]),
                Err(error) => Err(error),
            },
    {
        let index: usize = match self.find(id, generation) {
            Some(index) => index,
            None => {
                return Err(Error::StaleSession);
            },
        };
        if buffer_id == 0 {
            return Err(Error::InvalidBuffer);
        }
        match self.sessions[index].position(buffer_id) {
            Some(position) => Ok(self.sessions[index].buffers[position]),
            None => Err(Error::InvalidBuffer),
        }
    }

    /// Ends a session and gives back every handle that it held.
    pub fn disconnect(&mut self, id: u64, generation: u64) -> (result: Result<
        ReleasedSession,
        Error,
    >)
        ensures
            match old(self)@.find(id, generation) {
                Some(index) => {
                    let session = old(self)@.slots[index];
                    &&& result matches Ok(released) && {
                        &&& released.reply_endpoint == session.reply_endpoint
                        &&& released.buffer_handles@ == session.handles()
                    }
                    &&& session.well_formed()
                    &&& final(self)@ == old(self)@.with_slot(index, Session::free())
                },
                None => result matches Err(Error::StaleSession) && final(self)@ == old(self)@,
            },
            final(self)@.well_formed(),
            old(self)@.orderly() ==> final(self)@.orderly(),
    {
        proof {
            use_type_invariant(&*self);
            lemma_first_session(self@.slots, id, generation, 0);
            if self@.find(id, generation) is Some {
                lemma_disconnect_keeps_the_table(self@, id, generation);
            }
        }
        let index: usize = match self.find(id, generation) {
            Some(index) => index,
            None => {
                return Err(Error::StaleSession);
            },
        };
        let slot = self.sessions[index];
        let buffer_handles: [CapabilityHandle; MAX_BUFFERS_PER_SESSION] = [
            slot.buffers[0].handle,
            slot.buffers[1].handle,
            slot.buffers[2].handle,
            slot.buffers[3].handle,
        ];
        let released = ReleasedSession { reply_endpoint: slot.reply_endpoint, buffer_handles };
        assert(released.buffer_handles@ =~= slot.model().handles());
        let empty = SessionSlot::empty();
        let mut sessions = self.sessions;
        sessions[index] = empty;
        let table = Self::holding(sessions, self.next_id, Ghost(self@), index, empty);
        *self = table;
        assert(self@ =~= old(self)@.with_slot(index as int, Session::free()));
        Ok(released)
    }
}

impl Default for SessionTable {
    fn default() -> (table: Self)
        ensures
            table@.slots == Seq::new(MAX_SESSIONS as nat, |i: int| Session::free()),
            table@.next == 1,
            table@.orderly(),
    {
        Self::new()
    }
}

proof fn lemma_first_session(sessions: Seq<Session>, id: u64, generation: u64, from: int)
    requires
        0 <= from,
    ensures
        match first_session(sessions, id, generation, from) {
            Some(index) => {
                &&& from <= index < sessions.len()
                &&& sessions[index].id == id
                &&& sessions[index].generation == generation
            },
            None => forall|i: int|
                from <= i < sessions.len() ==> !((#[trigger] sessions[i]).id == id
                    && sessions[i].generation == generation),
        },
    decreases sessions.len() - from,
{
    if from < sessions.len() && !(sessions[from].id == id && sessions[from].generation
        == generation) {
        lemma_first_session(sessions, id, generation, from + 1);
    }
}

proof fn lemma_first_buffer(buffers: Seq<BufferSlot>, id: u64, from: int)
    requires
        0 <= from,
    ensures
        match first_buffer(buffers, id, from) {
            Some(index) => {
                &&& from <= index < buffers.len()
                &&& buffers[index].id == id
                &&& forall|i: int| from <= i < index ==> (#[trigger] buffers[i]).id != id
            },
            None => forall|i: int| from <= i < buffers.len() ==> (#[trigger] buffers[i]).id != id,
        },
    decreases buffers.len() - from,
{
    if from < buffers.len() && buffers[from].id != id {
        lemma_first_buffer(buffers, id, from + 1);
    }
}

/// If slot `index` is the first with an identity, it is found.
proof fn lemma_first_buffer_is(buffers: Seq<BufferSlot>, id: u64, from: int, index: int)
    requires
        0 <= from <= index < buffers.len(),
        buffers[index].id == id,
        forall|i: int| from <= i < index ==> (#[trigger] buffers[i]).id != id,
    ensures
        first_buffer(buffers, id, from) == Some(index),
    decreases index - from,
{
    if from < index {
        lemma_first_buffer_is(buffers, id, from + 1, index);
    }
}

/// Replacing one session's buffers does not change which sessions are found.
proof fn lemma_find_ignores_buffers(
    sessions: Seq<Session>,
    index: int,
    session: Session,
    id: u64,
    generation: u64,
    from: int,
)
    requires
        0 <= index < sessions.len(),
        0 <= from,
        session.id == sessions[index].id,
        session.generation == sessions[index].generation,
    ensures
        first_session(sessions.update(index, session), id, generation, from) == first_session(
            sessions,
            id,
            generation,
            from,
        ),
    decreases sessions.len() - from,
{
    if from < sessions.len() {
        lemma_find_ignores_buffers(sessions, index, session, id, generation, from + 1);
    }
}

/// An attached buffer is what a later look-up gives, and detaching it gives its handle back.
pub proof fn lemma_attached_buffer_is_found(
    table: Sessions,
    id: u64,
    generation: u64,
    buffer: BufferSlot,
)
    requires
        table.well_formed(),
        table.attach(id, generation, buffer) is Ok,
    ensures
        ({
            let attached = table.attach(id, generation, buffer)->Ok_0.0;
            &&& attached.locate(id, generation, buffer.id) matches Ok((index, slot))
                && attached.slots[index].buffers[slot] == buffer
            &&& attached.detach(id, generation, buffer.id) matches Ok((_, handle)) && handle
                == buffer.handle
        }),
{
    lemma_first_session(table.slots, id, generation, 0);
    let index = table.find(id, generation)->Some_0;
    let session = table.slots[index];
    lemma_first_buffer(session.buffers, buffer.id, 0);
    lemma_first_buffer(session.buffers, 0, 0);
    let after = session.attach(buffer)->Ok_0.0;
    let attached = table.attach(id, generation, buffer)->Ok_0.0;
    assert(attached.slots =~= table.slots.update(index, after));
    lemma_find_ignores_buffers(table.slots, index, after, id, generation, 0);
    let slot = match session.position(buffer.id) {
        Some(slot) => slot,
        None => session.position(0)->Some_0,
    };
    assert(after.buffers =~= session.buffers.update(slot, buffer));
    lemma_first_buffer_is(after.buffers, buffer.id, 0, slot);
}

/// A session that has been disconnected is stale, as long as no two live sessions shared its
/// identity and generation. Its slot is free for another, and every other session is found as
/// before.
pub proof fn lemma_disconnected_session_is_stale(table: Sessions, id: u64, generation: u64)
    requires
        table.well_formed(),
        table.distinct(),
        table.find(id, generation) is Some,
    ensures
        ({
            let index = table.find(id, generation)->Some_0;
            let after = table.with_slot(index, Session::free());
            &&& after.find(id, generation) is None
            &&& first_free(after.slots, 0) is Some
            &&& forall|other: u64, its: u64|
                !(other == id && its == generation) ==> {
                    &&& (#[trigger] after.find(other, its)) == table.find(other, its)
                    &&& table.find(other, its) matches Some(found) ==> after.slots[found]
                        == table.slots[found]
                }
        }),
{
    lemma_first_session(table.slots, id, generation, 0);
    let index = table.find(id, generation)->Some_0;
    let after = table.with_slot(index, Session::free());
    lemma_first_session(after.slots, id, generation, 0);
    if let Some(other) = after.find(id, generation) {
        assert(other != index);
        assert(table.slots[other].id == id && table.slots[other].generation == generation);
    }
    lemma_first_free(after.slots, 0);
    assert(after.slots[index].id == 0);
    assert forall|other: u64, its: u64| !(other == id && its == generation) implies {
        &&& (#[trigger] after.find(other, its)) == table.find(other, its)
        &&& table.find(other, its) matches Some(found) ==> after.slots[found] == table.slots[found]
    } by {
        if other != 0 {
            lemma_find_elsewhere(table.slots, index, Session::free(), other, its, 0);
            lemma_first_session(table.slots, other, its, 0);
        }
    }
}

proof fn lemma_first_free(sessions: Seq<Session>, from: int)
    requires
        0 <= from,
    ensures
        match first_free(sessions, from) {
            Some(index) => from <= index < sessions.len() && sessions[index].id == 0,
            None => forall|i: int| from <= i < sessions.len() ==> (#[trigger] sessions[i]).id != 0,
        },
    decreases sessions.len() - from,
{
    if from < sessions.len() && sessions[from].id != 0 {
        lemma_first_free(sessions, from + 1);
    }
}

/// If slot `index` is the only one with an identity and generation, it is found.
proof fn lemma_first_session_is(
    sessions: Seq<Session>,
    id: u64,
    generation: u64,
    from: int,
    index: int,
)
    requires
        0 <= from <= index < sessions.len(),
        sessions[index].id == id,
        sessions[index].generation == generation,
        forall|i: int|
            from <= i < index ==> !((#[trigger] sessions[i]).id == id && sessions[i].generation
                == generation),
    ensures
        first_session(sessions, id, generation, from) == Some(index),
    decreases index - from,
{
    if from < index {
        lemma_first_session_is(sessions, id, generation, from + 1, index);
    }
}

/// Replacing a slot changes nothing for a session that stands neither there before nor after.
proof fn lemma_find_elsewhere(
    sessions: Seq<Session>,
    index: int,
    session: Session,
    id: u64,
    generation: u64,
    from: int,
)
    requires
        0 <= index < sessions.len(),
        0 <= from,
        !(session.id == id && session.generation == generation),
        !(sessions[index].id == id && sessions[index].generation == generation),
    ensures
        first_session(sessions.update(index, session), id, generation, from) == first_session(
            sessions,
            id,
            generation,
            from,
        ),
    decreases sessions.len() - from,
{
    if from < sessions.len() {
        lemma_find_elsewhere(sessions, index, session, id, generation, from + 1);
    }
}

/// A generation that reaches beyond the sequence numbers, or one whose low bits are left to
/// sequence numbers that stay below its own, gives every connection an identity of its own.
pub proof fn lemma_plain_connections_are_fresh(table: Sessions, generation: u64)
    requires
        table.well_formed(),
        rotated(generation) > u32::MAX || {
            &&& 1 <= generation <= MAX_PLAIN_GENERATION
            &&& table.next < PLAIN_SEQUENCES
        },
    ensures
        table.fresh(generation),
{
    let s = table.next as u64;
    let g = generation;
    assert((((g << 17) | (g >> 47)) ^ s) > 1) by (bit_vector)
        requires
            1 <= s <= 0xffff_ffffu64,
            ((g << 17) | (g >> 47)) > 0xffff_ffffu64 || (1 <= g <= 0x7fff_ffff_ffffu64 && s
                < 0x2_0000u64),
    ;
}

/// A connection succeeds exactly if there is a generation, a reply endpoint and a free slot. Until
/// sequence numbers start again, its identity is one that no live session of the generation has,
/// whatever generations the other sessions have: it is found afterwards, with no buffer, and every
/// other session is found as before.
pub proof fn lemma_connect_keeps_sessions_apart(
    table: Sessions,
    generation: u64,
    reply_endpoint: CapabilityHandle,
)
    requires
        table.orderly(),
        table.fresh(generation),
    ensures
        match table.connect(generation, reply_endpoint) {
            Err(Error::StaleSession) => generation == 0 || reply_endpoint == 0,
            Err(Error::NoSpace) => {
                &&& generation != 0 && reply_endpoint != 0
                &&& forall|i: int| 0 <= i < table.slots.len() ==> (#[trigger] table.slots[i]).id != 0
            },
            Err(_) => false,
            Ok((after, id)) => {
                &&& generation != 0 && reply_endpoint != 0
                &&& id != 0
                &&& table.find(id, generation) is None
                &&& after.distinct()
                &&& table.next < u32::MAX ==> after.orderly()
                &&& after.find(id, generation) matches Some(index) && after.slots[index] == (
                Session { id, generation, reply_endpoint, ..Session::free() })
                &&& forall|other: u64, its: u64|
                    !(other == id && its == generation) ==> {
                        &&& (#[trigger] after.find(other, its)) == table.find(other, its)
                        &&& table.find(other, its) matches Some(index) ==> after.slots[index]
                            == table.slots[index]
                    }
            },
        },
{
    lemma_first_free(table.slots, 0);
    if generation != 0 && reply_endpoint != 0 && first_free(table.slots, 0) is Some {
        let index = first_free(table.slots, 0)->Some_0;
        let (after, id) = table.connect(generation, reply_endpoint)->Ok_0;
        let session = Session { id, generation, reply_endpoint, ..Session::free() };
        assert(after.slots =~= table.slots.update(index, session));
        assert forall|i: int|
            0 <= i < table.slots.len() implies !((#[trigger] table.slots[i]).id == id
            && table.slots[i].generation == generation) by {
            if table.slots[i].id == id && table.slots[i].generation == generation {
                assert(table.numbered(i));
                let sequence = choose|sequence: u32|
                    1 <= sequence < table.next && table.slots[i].id == #[trigger] session_id(
                        table.slots[i].generation,
                        sequence,
                    );
                if id != 1 {
                    lemma_sequences_give_distinct_identities(generation, sequence, table.next);
                }
                lemma_first_session(table.slots, 1, generation, 0);
            }
        }
        lemma_first_session(table.slots, id, generation, 0);
        lemma_first_session_is(after.slots, id, generation, 0, index);
        assert forall|i: int|
            table.next < u32::MAX && 0 <= i < after.slots.len() && (#[trigger] after.slots[i]).id
                != 0 implies after.numbered(i) by {
            if i == index {
                assert(after.slots[i].id == session_id(generation, table.next));
            } else {
                assert(table.slots[i].id != 0 && table.numbered(i));
                let sequence = choose|sequence: u32|
                    1 <= sequence < table.next && table.slots[i].id == #[trigger] session_id(
                        table.slots[i].generation,
                        sequence,
                    );
                assert(after.slots[i].id == session_id(after.slots[i].generation, sequence));
            }
        }
        assert(session.well_formed());
        assert forall|i: int| 0 <= i < after.slots.len() implies (
        #[trigger] after.slots[i]).well_formed() by {
            assert(i != index ==> after.slots[i] == table.slots[i]);
        }
        assert forall|other: u64, its: u64| !(other == id && its == generation) implies {
            &&& (#[trigger] after.find(other, its)) == table.find(other, its)
            &&& table.find(other, its) matches Some(found) ==> after.slots[found]
                == table.slots[found]
        } by {
            if other != 0 {
                lemma_find_elsewhere(table.slots, index, session, other, its, 0);
                lemma_first_session(table.slots, other, its, 0);
            }
        }
    }
}

/// A session with the same identity and generation in its place keeps the table in order.
proof fn lemma_same_session_keeps_the_table(table: Sessions, index: int, session: Session)
    requires
        table.well_formed(),
        0 <= index < table.slots.len(),
        session.well_formed(),
        session.id == table.slots[index].id,
        session.generation == table.slots[index].generation,
    ensures
        table.with_slot(index, session).well_formed(),
        table.orderly() ==> table.with_slot(index, session).orderly(),
{
    let after = table.with_slot(index, session);
    assert forall|i: int| 0 <= i < after.slots.len() implies (
    #[trigger] after.slots[i]).well_formed() by {
        assert(i != index ==> after.slots[i] == table.slots[i]);
    }
    if table.orderly() {
        assert forall|i: int| 0 <= i < after.slots.len() && (#[trigger] after.slots[i]).id
            != 0 implies after.numbered(i) by {
            assert(table.slots[i].id != 0 && table.numbered(i));
            let sequence = choose|sequence: u32|
                1 <= sequence < table.next && table.slots[i].id == #[trigger] session_id(
                    table.slots[i].generation,
                    sequence,
                );
            assert(after.slots[i].id == session_id(after.slots[i].generation, sequence));
        }
        assert forall|i: int, j: int|
            0 <= i < j < after.slots.len() && after.slots[i].id != 0 implies !(
        #[trigger] after.slots[i].id == #[trigger] after.slots[j].id && after.slots[i].generation
            == after.slots[j].generation) by {
            assert(after.slots[i].id == table.slots[i].id);
            assert(after.slots[j].id == table.slots[j].id);
        }
    }
}

proof fn lemma_attach_keeps_the_table(
    table: Sessions,
    id: u64,
    generation: u64,
    buffer: BufferSlot,
)
    requires
        table.well_formed(),
    ensures
        table.attach(id, generation, buffer) matches Ok((after, _)) ==> {
            &&& after.well_formed()
            &&& table.orderly() ==> after.orderly()
            &&& table.find(id, generation) matches Some(index) && after.slots[index].well_formed()
        },
{
    lemma_first_session(table.slots, id, generation, 0);
    if table.attach(id, generation, buffer) is Ok {
        let index = table.find(id, generation)->Some_0;
        let session = table.slots[index];
        lemma_first_buffer(session.buffers, buffer.id, 0);
        lemma_first_buffer(session.buffers, 0, 0);
        let after = session.attach(buffer)->Ok_0.0;
        let slot = match session.position(buffer.id) {
            Some(slot) => slot,
            None => session.position(0)->Some_0,
        };
        assert(after.buffers =~= session.buffers.update(slot, buffer));
        assert forall|i: int, j: int|
            0 <= i < j < after.buffers.len() && (#[trigger] after.buffers[i]).id
                != 0 implies after.buffers[i].id != (#[trigger] after.buffers[j]).id by {
            assert(session.buffers[i].id != 0 ==> session.buffers[i].id != session.buffers[j].id);
        }
        assert(after.well_formed());
        lemma_same_session_keeps_the_table(table, index, after);
    }
}

proof fn lemma_detach_keeps_the_table(
    table: Sessions,
    id: u64,
    generation: u64,
    buffer_id: u64,
)
    requires
        table.well_formed(),
    ensures
        table.detach(id, generation, buffer_id) matches Ok((after, _)) ==> {
            &&& after.well_formed()
            &&& table.orderly() ==> after.orderly()
            &&& table.find(id, generation) matches Some(index) && after.slots[index].well_formed()
        },
{
    lemma_first_session(table.slots, id, generation, 0);
    if table.detach(id, generation, buffer_id) is Ok {
        let index = table.find(id, generation)->Some_0;
        let session = table.slots[index];
        lemma_first_buffer(session.buffers, buffer_id, 0);
        let slot = session.position(buffer_id)->Some_0;
        let after = session.with_buffer(slot, BufferSlot::free());
        assert forall|i: int, j: int|
            0 <= i < j < after.buffers.len() && (#[trigger] after.buffers[i]).id
                != 0 implies after.buffers[i].id != (#[trigger] after.buffers[j]).id by {
            assert(session.buffers[i].id != 0 ==> session.buffers[i].id != session.buffers[j].id);
        }
        assert(after.well_formed());
        lemma_same_session_keeps_the_table(table, index, after);
    }
}

proof fn lemma_disconnect_keeps_the_table(table: Sessions, id: u64, generation: u64)
    requires
        table.well_formed(),
        table.find(id, generation) is Some,
    ensures
        ({
            let after = table.with_slot(table.find(id, generation)->Some_0, Session::free());
            &&& after.well_formed()
            &&& table.orderly() ==> after.orderly()
        }),
{
    lemma_first_session(table.slots, id, generation, 0);
    let index = table.find(id, generation)->Some_0;
    let after = table.with_slot(index, Session::free());
    assert(Session::free().well_formed());
    assert forall|i: int| 0 <= i < after.slots.len() implies (
    #[trigger] after.slots[i]).well_formed() by {
        assert(i != index ==> after.slots[i] == table.slots[i]);
    }
    if table.orderly() {
        assert forall|i: int| 0 <= i < after.slots.len() && (#[trigger] after.slots[i]).id
            != 0 implies after.numbered(i) by {
            assert(table.slots[i].id != 0 && table.numbered(i));
            let sequence = choose|sequence: u32|
                1 <= sequence < table.next && table.slots[i].id == #[trigger] session_id(
                    table.slots[i].generation,
                    sequence,
                );
            assert(after.slots[i].id == session_id(after.slots[i].generation, sequence));
        }
    }
}

/// The nonzero handles that a disconnected session gives back are exactly those of its attached
/// buffers, each of them once: every attached buffer is found in a slot with its handle, and every
/// slot with a handle is the one where its buffer is found.
pub proof fn lemma_disconnect_releases_the_attached_buffers(
    table: Sessions,
    id: u64,
    generation: u64,
)
    requires
        table.well_formed(),
        table.find(id, generation) is Some,
    ensures
        ({
            let index = table.find(id, generation)->Some_0;
            let session = table.slots[index];
            let handles = session.handles();
            &&& handles.len() == MAX_BUFFERS_PER_SESSION
            &&& forall|buffer_id: u64|
                (#[trigger] table.locate(id, generation, buffer_id)) matches Ok((_, slot)) ==> 0
                    <= slot < handles.len() && handles[slot] == session.buffers[slot].handle
                    && handles[slot] != 0
            &&& forall|slot: int|
                0 <= slot < handles.len() && #[trigger] handles[slot] != 0 ==> table.locate(
                    id,
                    generation,
                    session.buffers[slot].id,
                ) == Ok::<_, Error>((index, slot))
        }),
{
    lemma_first_session(table.slots, id, generation, 0);
    let index = table.find(id, generation)->Some_0;
    let session = table.slots[index];
    let handles = session.handles();
    assert forall|buffer_id: u64| (
    #[trigger] table.locate(id, generation, buffer_id)) is Ok implies ({
        let slot = table.locate(id, generation, buffer_id)->Ok_0.1;
        0 <= slot < handles.len() && handles[slot] == session.buffers[slot].handle && handles[slot]
            != 0
    }) by {
        lemma_first_buffer(session.buffers, buffer_id, 0);
    }
    assert forall|slot: int|
        0 <= slot < handles.len() && #[trigger] handles[slot] != 0 implies table.locate(
        id,
        generation,
        session.buffers[slot].id,
    ) == Ok::<_, Error>((index, slot)) by {
        assert(session.buffers[slot].well_formed());
        lemma_first_buffer_is(session.buffers, session.buffers[slot].id, 0, slot);
    }
}

/// Two connections of one generation get different identities, unless one of them was mixed to
/// zero.
pub proof fn lemma_sequences_give_distinct_identities(generation: u64, left: u32, right: u32)
    requires
        left != right,
        mixed(generation, left) != 0,
        mixed(generation, right) != 0,
    ensures
        session_id(generation, left) != session_id(generation, right),
{
    let a = left as u64;
    let b = right as u64;
    let g = (generation << 17) | (generation >> 47);
    assert(a != b ==> g ^ a != g ^ b) by (bit_vector);
}

} // verus!
