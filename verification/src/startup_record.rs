//! The record that names the capabilities attached to a process start.

use crate::abi::MAX_IPC_MESSAGE_HANDLES;
use crate::bytes;
use crate::bytes::{all_zero, copy_into, equal, fill_zero, get_u16, get_u32, put_u16, put_u32};
use crate::ipc;
use crate::slots::empty_slots;
use vstd::prelude::*;

verus! {

/// `NSPC`.
pub const STARTUP_MAGIC: [u8; 4] = [0x4e, 0x53, 0x50, 0x43];

pub const STARTUP_HEADER_BYTES: usize = 16;

pub const STARTUP_RESOURCE_BYTES: usize = 8;

/// The one supported version of the record.
pub const STARTUP_VERSION: u16 = 1;

/// Stable identity of one capability role in a process start.
#[derive(Debug, Clone, Copy, PartialEq, Eq, Structural)]
pub struct CapabilityRole {
    pub raw: u32,
}

impl CapabilityRole {
    #[verifier::allow_in_spec]
    pub fn bootstrap() -> Self
        returns
            (CapabilityRole { raw: 1 }),
    {
        CapabilityRole { raw: 1 }
    }

    #[verifier::allow_in_spec]
    pub fn lifecycle() -> Self
        returns
            (CapabilityRole { raw: 2 }),
    {
        CapabilityRole { raw: 2 }
    }

    #[verifier::allow_in_spec]
    pub fn logging() -> Self
        returns
            (CapabilityRole { raw: 3 }),
    {
        CapabilityRole { raw: 3 }
    }

    #[verifier::allow_in_spec]
    pub fn configuration() -> Self
        returns
            (CapabilityRole { raw: 4 }),
    {
        CapabilityRole { raw: 4 }
    }

    #[verifier::allow_in_spec]
    pub fn service_namespace() -> Self
        returns
            (CapabilityRole { raw: 5 }),
    {
        CapabilityRole { raw: 5 }
    }

    #[verifier::allow_in_spec]
    pub fn private_storage() -> Self
        returns
            (CapabilityRole { raw: 6 }),
    {
        CapabilityRole { raw: 6 }
    }

    #[verifier::allow_in_spec]
    pub fn job() -> Self
        returns
            (CapabilityRole { raw: 7 }),
    {
        CapabilityRole { raw: 7 }
    }

    #[verifier::allow_in_spec]
    pub fn service_generation() -> Self
        returns
            (CapabilityRole { raw: 8 }),
    {
        CapabilityRole { raw: 8 }
    }

    #[verifier::allow_in_spec]
    pub fn readiness() -> Self
        returns
            (CapabilityRole { raw: 9 }),
    {
        CapabilityRole { raw: 9 }
    }

    #[verifier::allow_in_spec]
    pub fn service_request() -> Self
        returns
            (CapabilityRole { raw: 10 }),
    {
        CapabilityRole { raw: 10 }
    }

    /// A role from its number. Zero names no role.
    #[verifier::allow_in_spec]
    pub fn new(value: u32) -> Option<Self>
        returns
            (if value == 0 {
                None
            } else {
                Some(CapabilityRole { raw: value })
            }),
    {
        if value == 0 {
            None
        } else {
            Some(CapabilityRole { raw: value })
        }
    }

    pub fn value(self) -> (value: u32)
        ensures
            value == self.raw,
    {
        self.raw
    }
}

/// The role that the process manager selected for a process.
#[derive(Debug, Clone, Copy, PartialEq, Eq, Structural)]
pub enum StartupRuntimeRole {
    Application,
    Service,
    Driver,
    Tool,
}

impl StartupRuntimeRole {
    /// The number of the role on the wire.
    #[verifier::allow_in_spec]
    pub fn raw(self) -> u16
        returns
            (match self {
                Self::Application => 1u16,
                Self::Service => 2u16,
                Self::Driver => 3u16,
                Self::Tool => 4u16,
            }),
    {
        match self {
            Self::Application => 1,
            Self::Service => 2,
            Self::Driver => 3,
            Self::Tool => 4,
        }
    }

    #[verifier::allow_in_spec]
    pub fn from_raw(raw: u16) -> Option<Self>
        returns
            (if raw == 1 {
                Some(Self::Application)
            } else if raw == 2 {
                Some(Self::Service)
            } else if raw == 3 {
                Some(Self::Driver)
            } else if raw == 4 {
                Some(Self::Tool)
            } else {
                None
            }),
    {
        match raw {
            1 => Some(Self::Application),
            2 => Some(Self::Service),
            3 => Some(Self::Driver),
            4 => Some(Self::Tool),
            _ => None,
        }
    }
}

/// The capability at one position of a process start.
#[derive(Debug, Clone, Copy, PartialEq, Eq, Structural)]
pub struct StartupResource {
    pub role: CapabilityRole,
    pub required: bool,
}

/// Why a record or one of its capabilities was rejected.
#[derive(Debug, Clone, Copy, PartialEq, Eq, Structural)]
pub enum StartupError {
    MalformedMessage,
    UnsupportedVersion(u16),
    MessageBounds,
    ResourceLimit,
    RuntimeRoleMismatch,
    DuplicateRole(CapabilityRole),
    InvalidPolicy(CapabilityRole),
    UnknownRequiredRole(CapabilityRole),
    MissingRequiredRole(CapabilityRole),
    WrongObjectKind(CapabilityRole),
    InsufficientRights(CapabilityRole),
    Kernel(CapabilityRole, ipc::Error),
}

/// The record: a role and the capabilities in their order.
#[derive(Debug, Clone, Copy, PartialEq, Eq)]
pub struct StartupMessage<const N: usize> {
    runtime_role: StartupRuntimeRole,
    resources: [Option<StartupResource>; N],
    resource_count: usize,
}

/// The record as the contracts see it.
#[verifier::ext_equal]
pub ghost struct StartupPlan {
    pub runtime_role: StartupRuntimeRole,
    pub resources: Seq<StartupResource>,
}

impl<const N: usize> View for StartupMessage<N> {
    type V = StartupPlan;

    closed spec fn view(&self) -> StartupPlan {
        StartupPlan {
            runtime_role: self.runtime_role,
            resources: Seq::new(
                self.resource_count as nat,
                |i: int| self.resources@[i]->Some_0,
            ),
        }
    }
}

/// How many slots are filled.
pub open spec fn filled<T>(slots: Seq<Option<T>>) -> nat
    decreases slots.len(),
{
    if slots.len() == 0 {
        0
    } else {
        filled(slots.drop_last()) + if slots.last() is Some {
            1nat
        } else {
            0nat
        }
    }
}

/// Whether exactly the first `count` slots are filled.
pub open spec fn packed<T>(slots: Seq<Option<T>>, count: int) -> bool {
    forall|i: int| 0 <= i < slots.len() ==> ((#[trigger] slots[i]) is Some <==> i < count)
}

/// The resources in the first `count` slots.
pub open spec fn contents(slots: Seq<Option<StartupResource>>, count: nat) -> Seq<
    StartupResource,
> {
    Seq::new(count, |i: int| slots[i]->Some_0)
}

/// Whether a role occurs before position `end`.
pub open spec fn role_before(
    resources: Seq<StartupResource>,
    role: CapabilityRole,
    end: int,
) -> bool {
    exists|i: int| 0 <= i < end && (#[trigger] resources[i]).role == role
}

/// The first role, at or after `from`, that occurs a second time.
pub open spec fn duplicate_role(resources: Seq<StartupResource>, from: int) -> Option<
    CapabilityRole,
>
    decreases resources.len() - from,
{
    if from >= resources.len() {
        None
    } else if role_before(resources, resources[from].role, from) {
        Some(resources[from].role)
    } else {
        duplicate_role(resources, from + 1)
    }
}

/// One entry of the record.
pub open spec fn resource_record(resource: StartupResource) -> Seq<u8> {
    bytes::u32_bytes(resource.role.raw) + bytes::u16_bytes(
        if resource.required {
            1
        } else {
            0
        },
    ) + bytes::zeros(2)
}

/// The entries of the record.
pub open spec fn resource_records(resources: Seq<StartupResource>) -> Seq<u8>
    decreases resources.len(),
{
    if resources.len() == 0 {
        seq![]
    } else {
        resource_records(resources.drop_last()) + resource_record(resources.last())
    }
}

/// The header of the record.
pub open spec fn record_header(role: StartupRuntimeRole, count: int) -> Seq<u8> {
    STARTUP_MAGIC@ + bytes::u16_bytes(STARTUP_VERSION) + bytes::u16_bytes(role.raw())
        + bytes::u16_bytes(count as u16) + bytes::u16_bytes(STARTUP_RESOURCE_BYTES as u16)
        + bytes::zeros(4)
}

impl StartupPlan {
    /// The bytes of the record.
    pub open spec fn record(self) -> Seq<u8> {
        record_header(self.runtime_role, self.resources.len() as int) + resource_records(
            self.resources,
        )
    }

    /// What holds of every record that can be made: few enough entries, and no role twice.
    pub open spec fn valid(self, capacity: int) -> bool {
        &&& self.resources.len() <= capacity
        &&& self.resources.len() <= MAX_IPC_MESSAGE_HANDLES
        &&& duplicate_role(self.resources, 0) is None
    }

    /// Whether every entry names a role.
    pub open spec fn named(self) -> bool {
        forall|i: int| 0 <= i < self.resources.len() ==> (#[trigger] self.resources[i]).role.raw != 0
    }
}

/// Whether an entry stands at `at`.
pub open spec fn resource_valid(input: Seq<u8>, at: int) -> bool {
    &&& bytes::u32_at(input, at) != 0
    &&& bytes::u16_at(input, at + 4) <= 1
    &&& input.subrange(at + 6, at + 8) == bytes::zeros(2)
}

/// The entry at `at`.
pub open spec fn resource_at(input: Seq<u8>, at: int) -> StartupResource {
    StartupResource {
        role: CapabilityRole { raw: bytes::u32_at(input, at) },
        required: bytes::u16_at(input, at + 4) == 1,
    }
}

/// The place of an entry.
pub open spec fn resource_offset(index: int) -> int {
    STARTUP_HEADER_BYTES + STARTUP_RESOURCE_BYTES * index
}

/// Whether the first `count` entries are well formed.
pub open spec fn resources_valid(input: Seq<u8>, count: int) -> bool {
    forall|i: int| 0 <= i < count ==> #[trigger] resource_valid(input, resource_offset(i))
}

/// The record that `input` holds, for a receiver of at most `capacity` capabilities.
pub open spec fn parse_startup(input: Seq<u8>, capacity: int) -> Result<StartupPlan, StartupError> {
    if input.len() < STARTUP_HEADER_BYTES || input.take(4) != STARTUP_MAGIC@ {
        Err(StartupError::MalformedMessage)
    } else if bytes::u16_at(input, 4) != STARTUP_VERSION {
        Err(StartupError::UnsupportedVersion(bytes::u16_at(input, 4)))
    } else {
        let count = bytes::u16_at(input, 8) as int;
        match StartupRuntimeRole::from_raw(bytes::u16_at(input, 6)) {
            None => Err(StartupError::MalformedMessage),
            Some(runtime_role) => if count > capacity || count > MAX_IPC_MESSAGE_HANDLES {
                Err(StartupError::ResourceLimit)
            } else if bytes::u16_at(input, 10) != STARTUP_RESOURCE_BYTES || input.subrange(12, 16)
                != bytes::zeros(4) || input.len() != resource_offset(count) || !resources_valid(
                input,
                count,
            ) {
                Err(StartupError::MalformedMessage)
            } else {
                let resources = Seq::new(
                    count as nat,
                    |i: int| resource_at(input, resource_offset(i)),
                );
                match duplicate_role(resources, 0) {
                    Some(role) => Err(StartupError::DuplicateRole(role)),
                    None => Ok(StartupPlan { runtime_role, resources }),
                }
            },
        }
    }
}

/// What a decoded record is to the contracts.
pub open spec fn plan_of<const N: usize>(
    result: Result<StartupMessage<N>, StartupError>,
) -> Result<StartupPlan, StartupError> {
    match result {
        Ok(message) => Ok(message@),
        Err(error) => Err(error),
    }
}

proof fn lemma_resource_records_length(resources: Seq<StartupResource>)
    ensures
        resource_records(resources).len() == STARTUP_RESOURCE_BYTES * resources.len(),
    decreases resources.len(),
{
    if resources.len() > 0 {
        lemma_resource_records_length(resources.drop_last());
        bytes::lemma_u32_round_trip(resources.last().role.raw);
    }
}

/// The length of a record.
pub proof fn lemma_record_length(plan: StartupPlan)
    ensures
        plan.record().len() == resource_offset(plan.resources.len() as int),
{
    lemma_resource_records_length(plan.resources);
}

fn duplicate_in<const N: usize>(slots: &[Option<StartupResource>; N], count: usize) -> (role:
    Option<CapabilityRole>)
    requires
        count <= N,
        packed(slots@, count as int),
    ensures
        role == duplicate_role(contents(slots@, count as nat), 0),
{
    let ghost resources = contents(slots@, count as nat);
    let mut index: usize = 0;
    while index < count
        invariant
            index <= count <= N,
            packed(slots@, count as int),
            resources == contents(slots@, count as nat),
            duplicate_role(resources, 0) == duplicate_role(resources, index as int),
        decreases count - index,
    {
        if let Some(candidate) = slots[index] {
            let mut before: usize = 0;
            let mut found = false;
            while before < index
                invariant
                    before <= index < count <= N,
                    packed(slots@, count as int),
                    resources == contents(slots@, count as nat),
                    found == role_before(resources, candidate.role, before as int),
                decreases index - before,
            {
                if let Some(current) = slots[before] {
                    assert(resources[before as int] == current);
                    if current.role == candidate.role {
                        found = true;
                    }
                }
                before += 1;
            }
            assert(resources[index as int] == candidate);
            if found {
                return Some(candidate.role);
            }
        }
        index += 1;
    }
    None
}

impl<const N: usize> StartupMessage<N> {
    #[verifier::type_invariant]
    spec fn well_formed(self) -> bool {
        &&& self.resource_count <= N
        &&& packed(self.resources@, self.resource_count as int)
        &&& self@.valid(N as int)
    }

    pub fn new(
        runtime_role: StartupRuntimeRole,
        resources: [Option<StartupResource>; N],
    ) -> (result: Result<Self, StartupError>)
        ensures
            ({
                let count = filled(resources@);
                plan_of(result) == if count > MAX_IPC_MESSAGE_HANDLES || !packed(
                    resources@,
                    count as int,
                ) {
                    Err(StartupError::ResourceLimit)
                } else {
                    match duplicate_role(contents(resources@, count), 0) {
                        Some(role) => Err(StartupError::DuplicateRole(role)),
                        None => Ok(
                            StartupPlan { runtime_role, resources: contents(resources@, count) },
                        ),
                    }
                }
            }),
    {
        let mut resource_count: usize = 0;
        let mut index: usize = 0;
        while index < N
            invariant
                index <= N,
                resource_count <= index,
                resource_count == filled(resources@.take(index as int)),
            decreases N - index,
        {
            assert(resources@.take(index + 1).drop_last() =~= resources@.take(index as int));
            if resources[index].is_some() {
                resource_count += 1;
            }
            index += 1;
        }
        assert(resources@.take(index as int) =~= resources@);
        let ghost count = filled(resources@);
        let mut is_packed = true;
        index = 0;
        while index < N
            invariant
                index <= N,
                is_packed == forall|i: int|
                    0 <= i < index ==> ((#[trigger] resources@[i]) is Some <==> i
                        < resource_count),
            decreases N - index,
        {
            if resources[index].is_some() != (index < resource_count) {
                is_packed = false;
            }
            index += 1;
        }
        if resource_count > MAX_IPC_MESSAGE_HANDLES || !is_packed {
            return Err(StartupError::ResourceLimit);
        }
        match duplicate_in(&resources, resource_count) {
            Some(role) => Err(StartupError::DuplicateRole(role)),
            None => {
                assert(contents(resources@, count).len() <= N);
                proof {
                    let plan = StartupPlan {
                        runtime_role,
                        resources: Seq::new(
                            resource_count as nat,
                            |i: int| resources@[i]->Some_0,
                        ),
                    };
                    assert(plan.resources =~= contents(resources@, count));
                }
                Ok(StartupMessage { runtime_role, resources, resource_count })
            },
        }
    }

    pub fn runtime_role(&self) -> (role: StartupRuntimeRole)
        ensures
            role == self@.runtime_role,
    {
        self.runtime_role
    }

    pub fn resource_count(&self) -> (count: usize)
        ensures
            count == self@.resources.len(),
            self@.valid(N as int),
    {
        proof {
            use_type_invariant(self);
        }
        self.resource_count
    }

    pub fn resources(&self) -> (slots: &[Option<StartupResource>])
        ensures
            slots@ == self@.resources.map_values(|resource: StartupResource| Some(resource)),
    {
        proof {
            use_type_invariant(self);
        }
        let slots = &self.resources.as_slice()[0..self.resource_count];
        assert(slots@ =~= self@.resources.map_values(|resource: StartupResource| Some(resource)));
        slots
    }

    /// Writes the record to the start of `output` and gives its length.
    pub fn encode(&self, output: &mut [u8]) -> (result: Result<usize, StartupError>)
        ensures
            if old(output)@.len() < self@.record().len() {
                &&& result == Err::<usize, _>(StartupError::MessageBounds)
                &&& final(output)@ == old(output)@
            } else {
                &&& result matches Ok(length) && length == self@.record().len()
                &&& final(output)@ == bytes::overlay(old(output)@, 0, self@.record())
            },
    {
        proof {
            use_type_invariant(self);
            lemma_resource_records_length(self@.resources);
        }
        let ghost plan = self@;
        let ghost before = output@;
        let length: usize = STARTUP_HEADER_BYTES + self.resource_count * STARTUP_RESOURCE_BYTES;
        if output.len() < length {
            return Err(StartupError::MessageBounds);
        }
        fill_zero(output, length);
        copy_into(output, 0, &STARTUP_MAGIC);
        put_u16(output, 4, STARTUP_VERSION);
        put_u16(output, 6, self.runtime_role.raw());
        put_u16(output, 8, self.resource_count as u16);
        put_u16(output, 10, STARTUP_RESOURCE_BYTES as u16);
        let ghost header = record_header(plan.runtime_role, plan.resources.len() as int);
        let mut index: usize = 0;
        assert(plan.resources.take(0) =~= seq![]);
        assert(output@ =~= bytes::overlay(
            before,
            0,
            header + resource_records(plan.resources.take(0)) + bytes::zeros(
                (STARTUP_RESOURCE_BYTES * plan.resources.len()) as nat,
            ),
        ));
        while index < self.resource_count
            invariant
                index <= self.resource_count == plan.resources.len(),
                self.resource_count <= N,
                self.resource_count <= MAX_IPC_MESSAGE_HANDLES,
                packed(self.resources@, self.resource_count as int),
                plan == self@,
                header == record_header(plan.runtime_role, plan.resources.len() as int),
                before.len() == output@.len(),
                before.len() >= STARTUP_HEADER_BYTES + STARTUP_RESOURCE_BYTES
                    * self.resource_count,
                output@ == bytes::overlay(
                    before,
                    0,
                    header + resource_records(plan.resources.take(index as int)) + bytes::zeros(
                        (STARTUP_RESOURCE_BYTES * (plan.resources.len() - index)) as nat,
                    ),
                ),
            decreases self.resource_count - index,
        {
            if let Some(resource) = self.resources[index] {
                let ghost done = plan.resources.take(index as int);
                let ghost next = plan.resources.take(index + 1);
                proof {
                    assert(plan.resources[index as int] == resource);
                    assert(next.drop_last() =~= done);
                    lemma_resource_records_length(done);
                    lemma_resource_records_length(next);
                    bytes::lemma_u32_round_trip(resource.role.raw);
                    assert(header.len() == STARTUP_HEADER_BYTES);
                    assert(output.len() == before.len());
                }
                let offset: usize = STARTUP_HEADER_BYTES + index * STARTUP_RESOURCE_BYTES;
                put_u32(output, offset, resource.role.value());
                put_u16(
                    output,
                    offset + 4,
                    if resource.required {
                        1
                    } else {
                        0
                    },
                );
                assert(output@ =~= bytes::overlay(
                    before,
                    0,
                    header + resource_records(next) + bytes::zeros(
                        (STARTUP_RESOURCE_BYTES * (plan.resources.len() - index - 1)) as nat,
                    ),
                ));
            }
            index += 1;
        }
        assert(plan.resources.take(index as int) =~= plan.resources);
        assert(header + resource_records(plan.resources) + bytes::zeros(0) =~= plan.record());
        assert(header.len() == STARTUP_HEADER_BYTES);
        Ok(length)
    }

    /// Reads a record. Anything but the exact record is rejected.
    pub fn decode(input: &[u8]) -> (result: Result<Self, StartupError>)
        ensures
            plan_of(result) == parse_startup(input@, N as int),
    {
        if input.len() < STARTUP_HEADER_BYTES {
            return Err(StartupError::MalformedMessage);
        }
        assert(input@.subrange(0, 4) =~= input@.take(4));
        if !equal(&input[0..4], &STARTUP_MAGIC) {
            return Err(StartupError::MalformedMessage);
        }
        let version: u16 = get_u16(input, 4);
        if version != STARTUP_VERSION {
            return Err(StartupError::UnsupportedVersion(version));
        }
        let runtime_role = match StartupRuntimeRole::from_raw(get_u16(input, 6)) {
            Some(role) => role,
            None => {
                return Err(StartupError::MalformedMessage);
            },
        };
        let count: usize = get_u16(input, 8) as usize;
        if count > N || count > MAX_IPC_MESSAGE_HANDLES {
            return Err(StartupError::ResourceLimit);
        }
        if get_u16(input, 10) as usize != STARTUP_RESOURCE_BYTES || !all_zero(
            input,
            12,
            STARTUP_HEADER_BYTES,
        ) || input.len() != STARTUP_HEADER_BYTES + count * STARTUP_RESOURCE_BYTES {
            return Err(StartupError::MalformedMessage);
        }
        let mut resources: [Option<StartupResource>; N] = empty_slots();
        let mut index: usize = 0;
        while index < count
            invariant
                index <= count <= N,
                count <= MAX_IPC_MESSAGE_HANDLES,
                input@.len() == STARTUP_HEADER_BYTES + count * STARTUP_RESOURCE_BYTES,
                packed(resources@, index as int),
                resources_valid(input@, index as int),
                !resources_valid(input@, count as int) ==> parse_startup(input@, N as int)
                    == Err::<StartupPlan, _>(StartupError::MalformedMessage),
                forall|i: int|
                    0 <= i < index ==> (#[trigger] resources@[i]) == Some(
                        resource_at(input@, resource_offset(i)),
                    ),
            ensures
                index == count,
            decreases count - index,
        {
            let offset: usize = STARTUP_HEADER_BYTES + index * STARTUP_RESOURCE_BYTES;
            assert(offset + 8 <= input.len());
            assert(offset == resource_offset(index as int));
            let flags: u16 = get_u16(input, offset + 4);
            if flags > 1 || !all_zero(input, offset + 6, offset + STARTUP_RESOURCE_BYTES) {
                assert(!resource_valid(input@, resource_offset(index as int)));
                assert(!resources_valid(input@, count as int));
                return Err(StartupError::MalformedMessage);
            }
            match CapabilityRole::new(get_u32(input, offset)) {
                None => {
                    assert(!resource_valid(input@, resource_offset(index as int)));
                    assert(!resources_valid(input@, count as int));
                    return Err(StartupError::MalformedMessage);
                },
                Some(role) => {
                    resources[index] = Some(StartupResource { role, required: flags == 1 });
                },
            }
            index += 1;
        }
        let ghost parsed = Seq::new(
            count as nat,
            |i: int| resource_at(input@, resource_offset(i)),
        );
        assert(contents(resources@, count as nat) =~= parsed);
        match duplicate_in(&resources, count) {
            Some(role) => Err(StartupError::DuplicateRole(role)),
            None => {
                proof {
                    let plan = StartupPlan {
                        runtime_role,
                        resources: Seq::new(count as nat, |i: int| resources@[i]->Some_0),
                    };
                    assert(plan.resources =~= parsed);
                }
                Ok(StartupMessage { runtime_role, resources, resource_count: count })
            },
        }
    }
}

/// An entry of the record, wherever it stands, reads back as what was written.
proof fn lemma_resource_reads_back(input: Seq<u8>, at: int, resource: StartupResource)
    requires
        0 <= at,
        at + 8 <= input.len(),
        input.subrange(at, at + 8) == resource_record(resource),
        resource.role.raw != 0,
    ensures
        resource_valid(input, at),
        resource_at(input, at) == resource,
{
    let flags: u16 = if resource.required {
        1
    } else {
        0
    };
    let entry = resource_record(resource);
    bytes::lemma_u32_round_trip(resource.role.raw);
    bytes::lemma_u16_round_trip(flags);
    assert(input.subrange(at, at + 4) =~= entry.subrange(0, 4));
    assert(entry.subrange(0, 4) =~= bytes::u32_bytes(resource.role.raw));
    bytes::lemma_u32_at_window(input, at, bytes::u32_bytes(resource.role.raw));
    assert(input.subrange(at + 4, at + 6) =~= entry.subrange(4, 6));
    assert(entry.subrange(4, 6) =~= bytes::u16_bytes(flags));
    bytes::lemma_u16_at_window(input, at + 4, bytes::u16_bytes(flags));
    assert(input.subrange(at + 6, at + 8) =~= entry.subrange(6, 8));
    assert(entry.subrange(6, 8) =~= bytes::zeros(2));
}

proof fn lemma_entry_of_records(resources: Seq<StartupResource>, index: int)
    requires
        0 <= index < resources.len(),
    ensures
        resource_records(resources).len() == STARTUP_RESOURCE_BYTES * resources.len(),
        resource_records(resources).subrange(8 * index, 8 * index + 8) =~= resource_record(
            resources[index],
        ),
    decreases resources.len(),
{
    lemma_resource_records_length(resources);
    lemma_resource_records_length(resources.drop_last());
    bytes::lemma_u32_round_trip(resources.last().role.raw);
    let records = resource_records(resources);
    if index < resources.len() - 1 {
        lemma_entry_of_records(resources.drop_last(), index);
        assert(records.subrange(8 * index, 8 * index + 8) =~= resource_records(
            resources.drop_last(),
        ).subrange(8 * index, 8 * index + 8));
    }
}

/// Decoding an encoded record gives the record back.
pub proof fn lemma_startup_record_round_trip(plan: StartupPlan, capacity: int)
    requires
        plan.valid(capacity),
        plan.named(),
    ensures
        parse_startup(plan.record(), capacity) == Ok::<_, StartupError>(plan),
{
    let count = plan.resources.len() as int;
    let header = record_header(plan.runtime_role, count);
    let record = plan.record();
    lemma_resource_records_length(plan.resources);
    bytes::lemma_u16_round_trip(STARTUP_VERSION);
    bytes::lemma_u16_round_trip(plan.runtime_role.raw());
    bytes::lemma_u16_round_trip(count as u16);
    bytes::lemma_u16_round_trip(STARTUP_RESOURCE_BYTES as u16);
    assert(record.take(4) =~= STARTUP_MAGIC@);
    assert(record.subrange(4, 6) =~= bytes::u16_bytes(STARTUP_VERSION));
    bytes::lemma_u16_at_window(record, 4, bytes::u16_bytes(STARTUP_VERSION));
    assert(record.subrange(6, 8) =~= bytes::u16_bytes(plan.runtime_role.raw()));
    bytes::lemma_u16_at_window(record, 6, bytes::u16_bytes(plan.runtime_role.raw()));
    assert(record.subrange(8, 10) =~= bytes::u16_bytes(count as u16));
    bytes::lemma_u16_at_window(record, 8, bytes::u16_bytes(count as u16));
    assert(record.subrange(10, 12) =~= bytes::u16_bytes(STARTUP_RESOURCE_BYTES as u16));
    bytes::lemma_u16_at_window(record, 10, bytes::u16_bytes(STARTUP_RESOURCE_BYTES as u16));
    assert(record.subrange(12, 16) =~= bytes::zeros(4));
    assert(header.len() == 16);
    assert forall|i: int| 0 <= i < count implies #[trigger] resource_valid(
        record,
        resource_offset(i),
    ) && resource_at(record, resource_offset(i)) == plan.resources[i] by {
        lemma_entry_of_records(plan.resources, i);
        assert(record.subrange(16 + 8 * i, 16 + 8 * i + 8) =~= resource_records(
            plan.resources,
        ).subrange(8 * i, 8 * i + 8));
        lemma_resource_reads_back(record, 16 + 8 * i, plan.resources[i]);
    }
    assert forall|i: int| 0 <= i < count implies resource_at(record, resource_offset(i))
        == plan.resources[i] by {
        assert(resource_valid(record, resource_offset(i)));
    }
    let parsed = Seq::new(count as nat, |i: int| resource_at(record, resource_offset(i)));
    assert(parsed =~= plan.resources);
}

/// The bytes of a well-formed entry are those of the entry read from them.
proof fn lemma_resource_is_canonical(input: Seq<u8>, at: int)
    requires
        0 <= at,
        at + 8 <= input.len(),
        resource_valid(input, at),
    ensures
        resource_record(resource_at(input, at)) =~= input.subrange(at, at + 8),
{
    bytes::lemma_u32_at_bytes(input, at);
    bytes::lemma_u16_at_bytes(input, at + 4);
    let whole = input.subrange(at, at + 8);
    assert(whole =~= input.subrange(at, at + 4) + input.subrange(at + 4, at + 6) + input.subrange(
        at + 6,
        at + 8,
    ));
}

proof fn lemma_records_are_canonical(input: Seq<u8>, count: int)
    requires
        0 <= count,
        input.len() >= resource_offset(count),
        resources_valid(input, count),
    ensures
        resource_records(
            Seq::new(count as nat, |i: int| resource_at(input, resource_offset(i))),
        ) =~= input.subrange(16, resource_offset(count)),
    decreases count,
{
    let resources = Seq::new(count as nat, |i: int| resource_at(input, resource_offset(i)));
    if count > 0 {
        let front = Seq::new(
            (count - 1) as nat,
            |i: int| resource_at(input, resource_offset(i)),
        );
        assert(resources.drop_last() =~= front);
        assert(resources_valid(input, count - 1));
        lemma_records_are_canonical(input, count - 1);
        assert(resource_valid(input, resource_offset(count - 1)));
        lemma_resource_is_canonical(input, resource_offset(count - 1));
        assert(input.subrange(16, resource_offset(count)) =~= input.subrange(
            16,
            resource_offset(count - 1),
        ) + input.subrange(resource_offset(count - 1), resource_offset(count)));
    }
}

/// Only the canonical record decodes: encoding what was decoded gives the same bytes.
pub proof fn lemma_startup_record_is_canonical(input: Seq<u8>, capacity: int)
    requires
        parse_startup(input, capacity) is Ok,
    ensures
        parse_startup(input, capacity)->Ok_0.record() == input,
        parse_startup(input, capacity)->Ok_0.valid(capacity),
        parse_startup(input, capacity)->Ok_0.named(),
{
    let plan = parse_startup(input, capacity)->Ok_0;
    let count = plan.resources.len() as int;
    bytes::lemma_u16_at_bytes(input, 4);
    bytes::lemma_u16_at_bytes(input, 6);
    bytes::lemma_u16_at_bytes(input, 8);
    bytes::lemma_u16_at_bytes(input, 10);
    lemma_records_are_canonical(input, count);
    assert(input.take(4) =~= input.subrange(0, 4));
    assert(input =~= input.subrange(0, 4) + input.subrange(4, 6) + input.subrange(6, 8)
        + input.subrange(8, 10) + input.subrange(10, 12) + input.subrange(12, 16)
        + input.subrange(16, resource_offset(count)));
    assert(plan.runtime_role.raw() == bytes::u16_at(input, 6));
    assert(plan.record() =~= input);
    assert forall|i: int| 0 <= i < plan.resources.len() implies (
    #[trigger] plan.resources[i]).role.raw != 0 by {
        assert(resource_valid(input, resource_offset(i)));
    }
}

} // verus!
