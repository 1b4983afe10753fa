//! Typed sections of a process start: identity, launch, arguments and environment.

use crate::abi::{MAX_ARGUMENTS, MAX_ARGUMENT_BYTES};
use crate::bytes;
use crate::bytes::{
    contains, copy_into, fill_zero, get_u16, get_u32, get_u64, put_u16, put_u32, put_words,
};
use crate::process_start::{StartupDataError, StartupSectionId};
use vstd::prelude::*;

verus! {

/// Size of the identity section.
pub const IDENTITY_BYTES: usize = 72;

/// Size of the launch section.
pub const LAUNCH_BYTES: usize = 40;

/// Size of the header of the arguments section.
pub const ARGUMENTS_HEADER_BYTES: usize = 4;

/// Size of the header of the environment section.
pub const ENVIRONMENT_HEADER_BYTES: usize = 4;

/// Descriptive identities supplied by the process manager.
#[derive(Debug, Clone, Copy, PartialEq, Eq, Structural)]
pub struct StartupIdentity {
    pub process: u64,
    pub package: u64,
    pub package_generation: u64,
    pub executable: u64,
    pub application: u64,
    pub service: u64,
    pub component: u64,
    pub user: u64,
    pub session: u64,
}

impl StartupIdentity {
    /// The fields in wire order.
    pub open spec fn fields(self) -> Seq<u64> {
        seq![
            self.process,
            self.package,
            self.package_generation,
            self.executable,
            self.application,
            self.service,
            self.component,
            self.user,
            self.session,
        ]
    }

    /// The identity that `bytes` holds.
    pub open spec fn at(bytes: Seq<u8>) -> StartupIdentity {
        StartupIdentity {
            process: bytes::u64_at(bytes, 0),
            package: bytes::u64_at(bytes, 8),
            package_generation: bytes::u64_at(bytes, 16),
            executable: bytes::u64_at(bytes, 24),
            application: bytes::u64_at(bytes, 32),
            service: bytes::u64_at(bytes, 40),
            component: bytes::u64_at(bytes, 48),
            user: bytes::u64_at(bytes, 56),
            session: bytes::u64_at(bytes, 64),
        }
    }

    pub fn encode(self) -> (output: [u8; IDENTITY_BYTES])
        ensures
            output@ == bytes::words(self.fields()),
    {
        let mut output: [u8; IDENTITY_BYTES] = [0; IDENTITY_BYTES];
        let fields: [u64; 9] = [
            self.process,
            self.package,
            self.package_generation,
            self.executable,
            self.application,
            self.service,
            self.component,
            self.user,
            self.session,
        ];
        put_words(&mut output, &fields);
        proof {
            assert(fields@ =~= self.fields());
            bytes::lemma_words_round_trip(self.fields(), seq![]);
            assert(output@ =~= bytes::words(self.fields()));
        }
        output
    }

    pub fn decode(bytes: &[u8]) -> (identity: Result<Self, StartupDataError>)
        ensures
            identity == (if bytes@.len() == IDENTITY_BYTES {
                Ok(StartupIdentity::at(bytes@))
            } else {
                Err(StartupDataError::InvalidSection(StartupSectionId::identity()))
            }),
    {
        if bytes.len() != IDENTITY_BYTES {
            return Err(StartupDataError::InvalidSection(StartupSectionId::identity()));
        }
        Ok(
            StartupIdentity {
                process: get_u64(bytes, 0),
                package: get_u64(bytes, 8),
                package_generation: get_u64(bytes, 16),
                executable: get_u64(bytes, 24),
                application: get_u64(bytes, 32),
                service: get_u64(bytes, 40),
                component: get_u64(bytes, 48),
                user: get_u64(bytes, 56),
                session: get_u64(bytes, 64),
            },
        )
    }
}

/// Decoding an encoded identity gives the identity back.
pub proof fn lemma_identity_round_trip(identity: StartupIdentity)
    ensures
        bytes::words(identity.fields()).len() == IDENTITY_BYTES,
        StartupIdentity::at(bytes::words(identity.fields())) == identity,
{
    let fields = identity.fields();
    bytes::lemma_words_round_trip(fields, seq![]);
    assert(bytes::words(fields) + seq![] =~= bytes::words(fields));
    assert(fields[0] == identity.process);
    assert(fields[1] == identity.package);
    assert(fields[2] == identity.package_generation);
    assert(fields[3] == identity.executable);
    assert(fields[4] == identity.application);
    assert(fields[5] == identity.service);
    assert(fields[6] == identity.component);
    assert(fields[7] == identity.user);
    assert(fields[8] == identity.session);
}

/// A section that decodes to an identity is the encoding of that identity: there is one encoding
/// of each.
pub proof fn lemma_identity_is_canonical(section: Seq<u8>)
    requires
        section.len() == IDENTITY_BYTES,
    ensures
        bytes::words(StartupIdentity::at(section).fields()) == section,
{
    let fields = StartupIdentity::at(section).fields();
    assert(fields.len() == 9);
    bytes::lemma_words_at_bytes(fields, section);
    assert(section.take(72) =~= section);
}

/// Why a process instance was launched.
#[derive(Debug, Clone, Copy, PartialEq, Eq, Structural)]
pub enum StartupLaunchReason {
    Boot,
    Activation,
    Restart,
    User,
    Recovery,
}

impl StartupLaunchReason {
    pub open spec fn spec_raw(self) -> u16 {
        match self {
            Self::Boot => 1,
            Self::Activation => 2,
            Self::Restart => 3,
            Self::User => 4,
            Self::Recovery => 5,
        }
    }

    pub open spec fn spec_from_raw(value: u16) -> Option<Self> {
        if value == 1 {
            Some(Self::Boot)
        } else if value == 2 {
            Some(Self::Activation)
        } else if value == 3 {
            Some(Self::Restart)
        } else if value == 4 {
            Some(Self::User)
        } else if value == 5 {
            Some(Self::Recovery)
        } else {
            None
        }
    }

    pub fn raw(self) -> (value: u16)
        ensures
            value == self.spec_raw(),
    {
        match self {
            Self::Boot => 1,
            Self::Activation => 2,
            Self::Restart => 3,
            Self::User => 4,
            Self::Recovery => 5,
        }
    }

    pub fn from_raw(value: u16) -> (reason: Option<Self>)
        ensures
            reason == Self::spec_from_raw(value),
    {
        match value {
            1 => Some(Self::Boot),
            2 => Some(Self::Activation),
            3 => Some(Self::Restart),
            4 => Some(Self::User),
            5 => Some(Self::Recovery),
            _ => None,
        }
    }
}

/// Descriptive launch metadata; none of these fields grants authority.
#[derive(Debug, Clone, Copy, PartialEq, Eq, Structural)]
pub struct StartupLaunch {
    pub launch: u64,
    pub manager_generation: u64,
    pub namespace_profile: u64,
    pub monotonic_start_ns: u64,
    pub attempt: u32,
    pub reason: StartupLaunchReason,
    pub flags: u16,
}

impl StartupLaunch {
    pub open spec fn word_fields(self) -> Seq<u64> {
        seq![
            self.launch,
            self.manager_generation,
            self.namespace_profile,
            self.monotonic_start_ns,
        ]
    }

    /// The launch section.
    pub open spec fn section(self) -> Seq<u8> {
        bytes::words(self.word_fields()) + bytes::u32_bytes(self.attempt) + bytes::u16_bytes(
            self.reason.spec_raw(),
        ) + bytes::u16_bytes(self.flags)
    }

    /// The launch that a section holds, if it is one.
    pub open spec fn at(bytes: Seq<u8>) -> Option<StartupLaunch> {
        if bytes.len() != LAUNCH_BYTES {
            None
        } else {
            match StartupLaunchReason::spec_from_raw(bytes::u16_at(bytes, 36)) {
                Some(reason) => Some(
                    StartupLaunch {
                        launch: bytes::u64_at(bytes, 0),
                        manager_generation: bytes::u64_at(bytes, 8),
                        namespace_profile: bytes::u64_at(bytes, 16),
                        monotonic_start_ns: bytes::u64_at(bytes, 24),
                        attempt: bytes::u32_at(bytes, 32),
                        reason,
                        flags: bytes::u16_at(bytes, 38),
                    },
                ),
                None => None,
            }
        }
    }

    pub fn encode(self) -> (output: [u8; LAUNCH_BYTES])
        ensures
            output@ == self.section(),
    {
        let mut output: [u8; LAUNCH_BYTES] = [0; LAUNCH_BYTES];
        let fields: [u64; 4] = [
            self.launch,
            self.manager_generation,
            self.namespace_profile,
            self.monotonic_start_ns,
        ];
        put_words(&mut output, &fields);
        put_u32(&mut output, 32, self.attempt);
        put_u16(&mut output, 36, self.reason.raw());
        put_u16(&mut output, 38, self.flags);
        proof {
            assert(fields@ =~= self.word_fields());
            bytes::lemma_words_round_trip(self.word_fields(), seq![]);
            assert(output@ =~= self.section());
        }
        output
    }

    pub fn decode(bytes: &[u8]) -> (launch: Result<Self, StartupDataError>)
        ensures
            launch == (match StartupLaunch::at(bytes@) {
                Some(launch) => Ok(launch),
                None => Err(StartupDataError::InvalidSection(StartupSectionId::launch())),
            }),
    {
        if bytes.len() != LAUNCH_BYTES {
            return Err(StartupDataError::InvalidSection(StartupSectionId::launch()));
        }
        let reason = match StartupLaunchReason::from_raw(get_u16(bytes, 36)) {
            Some(reason) => reason,
            None => {
                return Err(StartupDataError::InvalidSection(StartupSectionId::launch()));
            },
        };
        Ok(
            StartupLaunch {
                launch: get_u64(bytes, 0),
                manager_generation: get_u64(bytes, 8),
                namespace_profile: get_u64(bytes, 16),
                monotonic_start_ns: get_u64(bytes, 24),
                attempt: get_u32(bytes, 32),
                reason,
                flags: get_u16(bytes, 38),
            },
        )
    }
}

/// Decoding an encoded launch gives the launch back.
pub proof fn lemma_launch_round_trip(launch: StartupLaunch)
    ensures
        StartupLaunch::at(launch.section()) == Some(launch),
{
    let fields = launch.word_fields();
    let tail = bytes::u32_bytes(launch.attempt) + bytes::u16_bytes(launch.reason.spec_raw())
        + bytes::u16_bytes(launch.flags);
    let section = launch.section();
    bytes::lemma_words_round_trip(fields, tail);
    assert(section =~= bytes::words(fields) + tail);
    assert(fields[0] == launch.launch);
    assert(fields[1] == launch.manager_generation);
    assert(fields[2] == launch.namespace_profile);
    assert(fields[3] == launch.monotonic_start_ns);
    bytes::lemma_u32_round_trip(launch.attempt);
    assert(section.subrange(32, 36) =~= bytes::u32_bytes(launch.attempt));
    bytes::lemma_u32_at_window(section, 32, bytes::u32_bytes(launch.attempt));
    assert(bytes::u16_at(section, 36) == launch.reason.spec_raw());
    assert(bytes::u16_at(section, 38) == launch.flags);
}

/// A section that decodes to a launch is the encoding of that launch: there is one encoding of
/// each.
pub proof fn lemma_launch_is_canonical(section: Seq<u8>)
    ensures
        StartupLaunch::at(section) matches Some(launch) ==> launch.section() == section,
{
    if let Some(launch) = StartupLaunch::at(section) {
        let fields = launch.word_fields();
        assert(fields.len() == 4);
        bytes::lemma_words_at_bytes(fields, section);
        bytes::lemma_u32_at_bytes(section, 32);
        bytes::lemma_u16_at_bytes(section, 36);
        bytes::lemma_u16_at_bytes(section, 38);
        assert(launch.reason.spec_raw() == bytes::u16_at(section, 36));
        assert(section =~= section.take(32) + section.subrange(32, 36) + section.subrange(36, 38)
            + section.subrange(38, 40));
    }
}

/// The contents of the borrowed arguments.
pub open spec fn argument_views(arguments: Seq<&[u8]>) -> Seq<Seq<u8>> {
    Seq::new(arguments.len(), |i: int| arguments[i]@)
}

/// The arguments, each behind its length.
pub open spec fn arguments_body(arguments: Seq<Seq<u8>>) -> Seq<u8>
    decreases arguments.len(),
{
    if arguments.len() == 0 {
        seq![]
    } else {
        bytes::u16_bytes(arguments[0].len() as u16) + arguments[0] + arguments_body(
            arguments.drop_first(),
        )
    }
}

/// The whole arguments section.
pub open spec fn arguments_section(arguments: Seq<Seq<u8>>) -> Seq<u8> {
    bytes::u16_bytes(arguments.len() as u16) + bytes::u16_bytes(0) + arguments_body(arguments)
}

/// Size of the arguments as a process receives them: each with one terminator.
pub open spec fn arguments_size(arguments: Seq<Seq<u8>>) -> nat
    decreases arguments.len(),
{
    if arguments.len() == 0 {
        0
    } else {
        arguments[0].len() + 1 + arguments_size(arguments.drop_first())
    }
}

/// No argument holds a terminator and all fit into the argument space.
pub open spec fn valid_arguments(arguments: Seq<Seq<u8>>) -> bool {
    &&& arguments_size(arguments) <= MAX_ARGUMENT_BYTES
    &&& forall|i: int| 0 <= i < arguments.len() ==> !(#[trigger] arguments[i]).contains(0)
}

proof fn lemma_arguments_append(arguments: Seq<Seq<u8>>, last: Seq<u8>)
    ensures
        arguments_body(arguments.push(last)) =~= arguments_body(arguments) + bytes::u16_bytes(
            last.len() as u16,
        ) + last,
        arguments_size(arguments.push(last)) == arguments_size(arguments) + last.len() + 1,
    decreases arguments.len(),
{
    let pushed = arguments.push(last);
    if arguments.len() == 0 {
        assert(pushed.drop_first() =~= seq![]);
        assert(arguments_body(seq![]) =~= seq![]);
        assert(arguments_size(seq![]) == 0);
    } else {
        assert(pushed.drop_first() =~= arguments.drop_first().push(last));
        lemma_arguments_append(arguments.drop_first(), last);
    }
}

/// How far `count` arguments can be written into `capacity` bytes.
pub open spec fn arguments_fit(arguments: Seq<Seq<u8>>, count: int, capacity: int) -> bool {
    &&& valid_arguments(arguments.take(count as int))
    &&& ARGUMENTS_HEADER_BYTES + arguments_body(arguments.take(count as int)).len() <= capacity
}

/// The buffer once `count` of the arguments have been written over `capacity` zero bytes.
pub open spec fn arguments_written(arguments: Seq<Seq<u8>>, count: int, capacity: int) -> Seq<u8> {
    let body = arguments_body(arguments.take(count as int));
    bytes::u16_bytes(arguments.len() as u16) + bytes::u16_bytes(0) + body + bytes::zeros(
        (capacity - ARGUMENTS_HEADER_BYTES - body.len()) as nat,
    )
}

/// Writes a bounded argument-vector section.
pub fn encode_startup_arguments(arguments: &[&[u8]], output: &mut [u8]) -> (length: Result<
    usize,
    StartupDataError,
>)
    ensures
        ({
            let views = argument_views(arguments@);
            let capacity = old(output)@.len() as int;
            if views.len() > MAX_ARGUMENTS || capacity < ARGUMENTS_HEADER_BYTES {
                &&& length == Err::<usize, _>(
                    StartupDataError::InvalidSection(StartupSectionId::arguments()),
                )
                &&& final(output)@ == old(output)@
            } else if arguments_fit(views, views.len() as int, capacity) {
                &&& length matches Ok(length) && length == arguments_section(views).len()
                &&& final(output)@ == arguments_section(views) + bytes::zeros(
                    (capacity - arguments_section(views).len()) as nat,
                )
            } else {
                &&& length == Err::<usize, _>(
                    StartupDataError::InvalidSection(StartupSectionId::arguments()),
                )
                &&& exists|count: int|
                    0 <= count < views.len() && #[trigger] arguments_fit(views, count, capacity)
                        && !arguments_fit(views, count + 1, capacity) && final(output)@
                        == arguments_written(views, count, capacity)
            }
        }),
{
    let ghost views = argument_views(arguments@);
    let ghost capacity = output@.len() as int;
    if arguments.len() > MAX_ARGUMENTS || output.len() < ARGUMENTS_HEADER_BYTES {
        return Err(StartupDataError::InvalidSection(StartupSectionId::arguments()));
    }
    let size: usize = output.len();
    fill_zero(output, size);
    put_u16(output, 0, arguments.len() as u16);
    let mut cursor: usize = ARGUMENTS_HEADER_BYTES;
    let mut argument_bytes: usize = 0;
    let mut index: usize = 0;
    proof {
        assert(views.take(0) =~= seq![]);
        assert(output@ =~= arguments_written(views, 0, capacity));
    }
    while index < arguments.len()
        invariant
            index <= arguments@.len() <= MAX_ARGUMENTS,
            views == argument_views(arguments@),
            capacity == old(output)@.len() == output@.len() == size,
            capacity >= ARGUMENTS_HEADER_BYTES,
            arguments_fit(views, index as int, capacity),
            cursor == ARGUMENTS_HEADER_BYTES + arguments_body(views.take(index as int)).len(),
            argument_bytes == arguments_size(views.take(index as int)),
            output@ == arguments_written(views, index as int, capacity),
        decreases arguments@.len() - index,
    {
        let argument = arguments[index];
        proof {
            let next = views.take(index + 1);
            assert(next =~= views.take(index as int).push(argument@));
            lemma_arguments_append(views.take(index as int), argument@);
            assert(next[index as int] == argument@);
        }
        if argument.len() > MAX_ARGUMENT_BYTES || contains(argument, 0) || argument_bytes
            + argument.len() + 1 > MAX_ARGUMENT_BYTES || argument.len() + 2 > size - cursor {
            proof {
                if argument@.contains(0) {
                    assert(views.take(index + 1)[index as int].contains(0));
                }
                assert(!arguments_fit(views, (index + 1) as int, capacity));
                lemma_arguments_fit_prefix(views, index + 1, views.len() as int, capacity);
            }
            return Err(StartupDataError::InvalidSection(StartupSectionId::arguments()));
        }
        put_u16(output, cursor, argument.len() as u16);
        copy_into(output, cursor + 2, argument);
        cursor = cursor + 2 + argument.len();
        argument_bytes = argument_bytes + argument.len() + 1;
        proof {
            assert forall|i: int| 0 <= i < index + 1 implies !(#[trigger] views.take(index + 1)[i]).contains(
                0,
            ) by {
                if i < index {
                    assert(views.take(index as int)[i] == views.take(index + 1)[i]);
                }
            }
            assert(output@ =~= arguments_written(views, (index + 1) as int, capacity));
        }
        index = index + 1;
    }
    proof {
        assert(views.take(index as int) =~= views);
        assert(output@ =~= arguments_section(views) + bytes::zeros(
            (capacity - arguments_section(views).len()) as nat,
        ));
    }
    Ok(cursor)
}

proof fn lemma_arguments_take(arguments: Seq<Seq<u8>>, count: int)
    requires
        0 <= count < arguments.len(),
    ensures
        arguments_body(arguments.take(count as int)).len() <= arguments_body(
            arguments.take(count + 1),
        ).len(),
        arguments_size(arguments.take(count as int)) <= arguments_size(arguments.take(count + 1)),
{
    assert(arguments.take(count + 1) =~= arguments.take(count as int).push(arguments[count as int]));
    lemma_arguments_append(arguments.take(count as int), arguments[count as int]);
}

proof fn lemma_arguments_fit_prefix(
    arguments: Seq<Seq<u8>>,
    count: int,
    longer: int,
    capacity: int,
)
    requires
        0 <= count <= longer <= arguments.len(),
    ensures
        arguments_fit(arguments, longer, capacity) ==> arguments_fit(arguments, count, capacity),
    decreases longer - count,
{
    if count < longer {
        let shorter = (longer - 1) as int;
        lemma_arguments_take(arguments, shorter);
        lemma_arguments_fit_prefix(arguments, count, shorter, capacity);
        if arguments_fit(arguments, longer, capacity) {
            assert forall|i: int| 0 <= i < shorter implies !(#[trigger] arguments.take(
                shorter as int,
            )[i]).contains(0) by {
                assert(arguments.take(longer as int)[i] == arguments.take(shorter as int)[i]);
            }
        }
    }
}

/// The `count` arguments that stand at `cursor`, if the bytes end right behind them.
pub open spec fn arguments_at(bytes: Seq<u8>, cursor: int, count: int) -> Option<Seq<Seq<u8>>>
    decreases count,
{
    if count <= 0 {
        if cursor == bytes.len() {
            Some(seq![])
        } else {
            None
        }
    } else if cursor + 2 > bytes.len() {
        None
    } else {
        let end = cursor + 2 + bytes::u16_at(bytes, cursor as int);
        if end > bytes.len() {
            None
        } else {
            match arguments_at(bytes, end as int, (count - 1) as int) {
                Some(rest) => Some(seq![bytes.subrange(cursor + 2, end)] + rest),
                None => None,
            }
        }
    }
}

/// The arguments that a section holds, if it is a valid one.
pub open spec fn parse_arguments(bytes: Seq<u8>) -> Option<Seq<Seq<u8>>> {
    if bytes.len() < ARGUMENTS_HEADER_BYTES || bytes::u16_at(bytes, 2) != 0 || bytes::u16_at(
        bytes,
        0,
    ) > MAX_ARGUMENTS {
        None
    } else {
        match arguments_at(
            bytes,
            ARGUMENTS_HEADER_BYTES as int,
            bytes::u16_at(bytes, 0) as int,
        ) {
            Some(arguments) => if valid_arguments(arguments) {
                Some(arguments)
            } else {
                None
            },
            None => None,
        }
    }
}

/// Parsing an encoded argument section gives the arguments back.
pub proof fn lemma_arguments_round_trip(arguments: Seq<Seq<u8>>)
    requires
        arguments.len() <= MAX_ARGUMENTS,
        valid_arguments(arguments),
    ensures
        parse_arguments(arguments_section(arguments)) == Some(arguments),
{
    let section = arguments_section(arguments);
    assert(section.skip(4) =~= arguments_body(arguments));
    assert(bytes::u16_at(section, 0) == arguments.len());
    assert(bytes::u16_at(section, 2) == 0);
    lemma_arguments_at(section, 4, arguments);
}

proof fn lemma_arguments_at(bytes: Seq<u8>, cursor: int, arguments: Seq<Seq<u8>>)
    requires
        0 <= cursor <= bytes.len(),
        bytes.skip(cursor as int) == arguments_body(arguments),
        arguments_size(arguments) <= MAX_ARGUMENT_BYTES,
    ensures
        arguments_at(bytes, cursor, arguments.len() as int) == Some(arguments),
    decreases arguments.len(),
{
    if arguments.len() == 0 {
        assert(bytes.skip(cursor as int).len() == 0);
        assert(arguments =~= seq![]);
    } else {
        let first = arguments[0];
        let rest = arguments.drop_first();
        let body = bytes.skip(cursor as int);
        let length = first.len() as int;
        let end = cursor + 2 + length;
        assert(body.len() == 2 + length + arguments_body(rest).len());
        assert(body[0] == bytes[cursor as int]);
        assert(body[1] == bytes[cursor + 1]);
        bytes::lemma_u16_round_trip(first.len() as u16);
        assert(bytes::u16_at(bytes, cursor as int) == first.len());
        assert(bytes.subrange(cursor + 2, end as int) =~= body.subrange(2, 2 + length));
        assert(body.subrange(2, 2 + length) =~= first);
        assert(bytes.skip(end as int) =~= arguments_body(rest)) by {
            assert(bytes.skip(end as int) =~= body.skip(2 + length));
            assert(body.skip(2 + length) =~= arguments_body(rest));
        }
        lemma_arguments_at(bytes, end as int, rest);
        assert(seq![first] + rest =~= arguments);
    }
}

/// A section that parses is the encoding of what it parses to: there is one encoding of each
/// argument vector.
pub proof fn lemma_arguments_are_canonical(bytes: Seq<u8>)
    requires
        parse_arguments(bytes) is Some,
    ensures
        arguments_section(parse_arguments(bytes)->0) =~= bytes,
{
    let arguments = parse_arguments(bytes)->0;
    let count = bytes::u16_at(bytes, 0) as int;
    lemma_arguments_at_canonical(bytes, 4, count);
    bytes::lemma_u16_at_bytes(bytes, 0);
    bytes::lemma_u16_at_bytes(bytes, 2);
    assert(bytes =~= bytes.subrange(0, 2) + bytes.subrange(2, 4) + bytes.skip(4));
}

proof fn lemma_arguments_at_canonical(bytes: Seq<u8>, cursor: int, count: int)
    requires
        0 <= cursor <= bytes.len(),
        0 <= count,
        arguments_at(bytes, cursor, count) is Some,
    ensures
        arguments_at(bytes, cursor, count)->0.len() == count,
        arguments_body(arguments_at(bytes, cursor, count)->0) =~= bytes.skip(cursor as int),
    decreases count,
{
    let arguments = arguments_at(bytes, cursor, count)->0;
    if count == 0 {
        assert(bytes.skip(cursor as int) =~= seq![]);
    } else {
        let end = cursor + 2 + bytes::u16_at(bytes, cursor as int);
        let rest = arguments_at(bytes, end as int, (count - 1) as int)->0;
        lemma_arguments_at_canonical(bytes, end as int, (count - 1) as int);
        assert(arguments.drop_first() =~= rest);
        bytes::lemma_u16_at_bytes(bytes, cursor as int);
        assert(bytes.skip(cursor as int) =~= bytes.subrange(cursor as int, cursor + 2)
            + bytes.subrange(cursor + 2, end as int) + bytes.skip(end as int));
    }
}

/// Validated, borrowed argument-vector section.
#[derive(Debug, Clone, Copy)]
pub struct StartupArguments<'a> {
    bytes: &'a [u8],
    count: usize,
}

impl<'a> View for StartupArguments<'a> {
    type V = Seq<Seq<u8>>;

    closed spec fn view(&self) -> Seq<Seq<u8>> {
        parse_arguments(self.bytes@)->0
    }
}

impl<'a> StartupArguments<'a> {
    pub closed spec fn wf(self) -> bool {
        &&& parse_arguments(self.bytes@) is Some
        &&& self.count == parse_arguments(self.bytes@)->0.len()
        &&& self.count == bytes::u16_at(self.bytes@, 0)
    }

    pub fn decode(bytes: &'a [u8]) -> (arguments: Result<Self, StartupDataError>)
        ensures
            match arguments {
                Ok(arguments) => {
                    &&& arguments.wf()
                    &&& parse_arguments(bytes@) == Some(arguments@)
                },
                Err(error) => {
                    &&& parse_arguments(bytes@) is None
                    &&& error == StartupDataError::InvalidSection(StartupSectionId::arguments())
                },
            },
    {
        if bytes.len() < ARGUMENTS_HEADER_BYTES || get_u16(bytes, 2) != 0 {
            return Err(StartupDataError::InvalidSection(StartupSectionId::arguments()));
        }
        let count: usize = get_u16(bytes, 0) as usize;
        if count > MAX_ARGUMENTS {
            return Err(StartupDataError::InvalidSection(StartupSectionId::arguments()));
        }
        let ghost whole = arguments_at(bytes@, ARGUMENTS_HEADER_BYTES as int, count as int);
        let mut cursor: usize = ARGUMENTS_HEADER_BYTES;
        let mut argument_bytes: usize = 0;
        let mut index: usize = 0;
        let ghost mut seen: Seq<Seq<u8>> = seq![];
        while index < count
            invariant
                index <= count <= MAX_ARGUMENTS,
                ARGUMENTS_HEADER_BYTES <= cursor <= bytes@.len(),
                seen.len() == index,
                argument_bytes == arguments_size(seen) <= MAX_ARGUMENT_BYTES,
                forall|i: int| 0 <= i < index ==> !(#[trigger] seen[i]).contains(0),
                ({
                    let rest = arguments_at(bytes@, cursor as int, (count - index) as int);
                    &&& rest is None ==> whole is None
                    &&& rest is Some ==> whole == Some(seen + rest->0)
                }),
                bytes@.len() >= ARGUMENTS_HEADER_BYTES,
                bytes::u16_at(bytes@, 2) == 0,
                bytes::u16_at(bytes@, 0) == count,
                whole == arguments_at(bytes@, ARGUMENTS_HEADER_BYTES as int, count as int),
            decreases count - index,
        {
            if bytes.len() - cursor < 2 {
                return Err(StartupDataError::InvalidSection(StartupSectionId::arguments()));
            }
            let length: usize = get_u16(bytes, cursor) as usize;
            cursor = cursor + 2;
            if length > bytes.len() - cursor {
                return Err(StartupDataError::InvalidSection(StartupSectionId::arguments()));
            }
            let argument = &bytes[cursor..cursor + length];
            let ghost rest = arguments_at(
                bytes@,
                (cursor + length) as int,
                (count - index - 1) as int,
            );
            proof {
                lemma_arguments_append(seen, argument@);
                if rest is Some {
                    assert(whole->0 =~= seen.push(argument@) + rest->0);
                    assert(whole->0[index as int] == argument@);
                    lemma_arguments_size_split(seen.push(argument@), rest->0);
                }
            }
            if contains(argument, 0) || argument_bytes + length + 1 > MAX_ARGUMENT_BYTES {
                return Err(StartupDataError::InvalidSection(StartupSectionId::arguments()));
            }
            argument_bytes = argument_bytes + length + 1;
            cursor = cursor + length;
            proof {
                seen = seen.push(argument@);
            }
            index = index + 1;
        }
        if cursor != bytes.len() {
            return Err(StartupDataError::InvalidSection(StartupSectionId::arguments()));
        }
        proof {
            assert(seen + seq![] =~= seen);
        }
        Ok(StartupArguments { bytes, count })
    }

    pub fn len(self) -> (length: usize)
        requires
            self.wf(),
        ensures
            length == self@.len(),
    {
        self.count
    }

    pub fn is_empty(self) -> (empty: bool)
        requires
            self.wf(),
        ensures
            empty == (self@.len() == 0),
    {
        self.count == 0
    }

    pub fn get(self, index: usize) -> (argument: Option<&'a [u8]>)
        requires
            self.wf(),
        ensures
            match argument {
                Some(argument) => index < self@.len() && argument@ == self@[index as int],
                None => index >= self@.len(),
            },
    {
        if index >= self.count {
            return None;
        }
        proof {
            lemma_arguments_at_canonical(self.bytes@, 4, self.count as int);
        }
        let mut cursor: usize = ARGUMENTS_HEADER_BYTES;
        let mut current: usize = 0;
        while current < index
            invariant
                self.wf(),
                current <= index < self.count,
                cursor <= self.bytes@.len(),
                arguments_at(self.bytes@, cursor as int, (self.count - current) as int) is Some,
                arguments_at(self.bytes@, cursor as int, (self.count - current) as int)->0
                    =~= self@.skip(current as int),
                self@.len() == self.count,
            decreases index - current,
        {
            let ghost here = arguments_at(
                self.bytes@,
                cursor as int,
                (self.count - current) as int,
            )->0;
            let length: usize = get_u16(self.bytes, cursor) as usize;
            assert(cursor + 2 + length <= self.bytes.len());
            cursor = cursor + 2 + length;
            assert(arguments_at(
                self.bytes@,
                cursor as int,
                (self.count - current - 1) as int,
            )->0 =~= here.drop_first());
            current = current + 1;
        }
        let length: usize = get_u16(self.bytes, cursor) as usize;
        let ghost here = arguments_at(self.bytes@, cursor as int, (self.count - index) as int)->0;
        assert(here[0] == self@[index as int]);
        assert(cursor + 2 + length <= self.bytes.len());
        Some(&self.bytes[cursor + 2..cursor + 2 + length])
    }

    /// The arguments in order.
    pub fn iter(self) -> (arguments: Vec<&'a [u8]>)
        requires
            self.wf(),
        ensures
            argument_views(arguments@) == self@,
    {
        let mut arguments: Vec<&'a [u8]> = Vec::new();
        let mut index: usize = 0;
        while index < self.count
            invariant
                self.wf(),
                index <= self.count,
                self.count == self@.len(),
                arguments@.len() == index,
                forall|i: int| 0 <= i < index ==> (#[trigger] arguments@[i])@ == self@[i],
            decreases self.count - index,
        {
            if let Some(argument) = self.get(index) {
                arguments.push(argument);
            }
            index = index + 1;
        }
        assert(argument_views(arguments@) =~= self@);
        arguments
    }
}

proof fn lemma_arguments_size_split(front: Seq<Seq<u8>>, back: Seq<Seq<u8>>)
    ensures
        arguments_size(front + back) == arguments_size(front) + arguments_size(back),
    decreases front.len(),
{
    if front.len() == 0 {
        assert(front + back =~= back);
    } else {
        assert((front + back).drop_first() =~= front.drop_first() + back);
        lemma_arguments_size_split(front.drop_first(), back);
    }
}

} // verus!
