//! The environment section of a process start, and the typed view of a whole start.

use crate::abi::{MAX_ENVIRONMENT_BYTES, MAX_ENVIRONMENT_NAME_BYTES, MAX_ENVIRONMENT_VARIABLES};
use crate::bytes;
use crate::bytes::{contains, copy_into, equal, fill_zero, get_u16, put_u16};
use crate::process_start;
use crate::process_start::{ProcessStartData, StartupDataError, StartupSectionId};
use crate::startup_sections;
use crate::startup_sections::{
    StartupArguments, StartupIdentity, StartupLaunch, ENVIRONMENT_HEADER_BYTES,
};
use vstd::prelude::*;

verus! {

/// The contents of the borrowed name and value pairs.
pub open spec fn entry_views(environment: Seq<(&[u8], &[u8])>) -> Seq<(Seq<u8>, Seq<u8>)> {
    Seq::new(environment.len(), |i: int| (environment[i].0@, environment[i].1@))
}

/// One entry: both lengths, then the name and the value.
pub open spec fn entry_bytes(entry: (Seq<u8>, Seq<u8>)) -> Seq<u8> {
    bytes::u16_bytes(entry.0.len() as u16) + bytes::u16_bytes(entry.1.len() as u16) + entry.0
        + entry.1
}

/// The entries one after another.
pub open spec fn environment_body(entries: Seq<(Seq<u8>, Seq<u8>)>) -> Seq<u8>
    decreases entries.len(),
{
    if entries.len() == 0 {
        seq![]
    } else {
        entry_bytes(entries[0]) + environment_body(entries.drop_first())
    }
}

/// The whole environment section.
pub open spec fn environment_section(entries: Seq<(Seq<u8>, Seq<u8>)>) -> Seq<u8> {
    bytes::u16_bytes(entries.len() as u16) + bytes::u16_bytes(0) + environment_body(entries)
}

/// Size of the environment as a process receives it: each entry with two separators.
pub open spec fn environment_size(entries: Seq<(Seq<u8>, Seq<u8>)>) -> nat
    decreases entries.len(),
{
    if entries.len() == 0 {
        0
    } else {
        entries[0].0.len() + entries[0].1.len() + 2 + environment_size(entries.drop_first())
    }
}

pub open spec fn name_start(byte: u8) -> bool {
    0x41 <= byte <= 0x5a || 0x61 <= byte <= 0x7a || byte == 0x5f
}

pub open spec fn name_part(byte: u8) -> bool {
    name_start(byte) || 0x30 <= byte <= 0x39
}

/// A letter or underscore followed by letters, digits and underscores.
pub open spec fn valid_name(name: Seq<u8>) -> bool {
    &&& 0 < name.len() <= MAX_ENVIRONMENT_NAME_BYTES
    &&& name_start(name[0])
    &&& forall|i: int| 0 < i < name.len() ==> name_part(#[trigger] name[i])
}

pub open spec fn valid_entry(entry: (Seq<u8>, Seq<u8>)) -> bool {
    valid_name(entry.0) && !entry.1.contains(0)
}

/// Every entry is valid, no name occurs twice, and all fit into the environment space.
pub open spec fn valid_environment(entries: Seq<(Seq<u8>, Seq<u8>)>) -> bool {
    &&& environment_size(entries) <= MAX_ENVIRONMENT_BYTES
    &&& forall|i: int| 0 <= i < entries.len() ==> valid_entry(#[trigger] entries[i])
    &&& forall|i: int, j: int|
        #![trigger entries[i], entries[j]]
        0 <= i < j < entries.len() ==> entries[i].0 != entries[j].0
}

proof fn lemma_environment_append(entries: Seq<(Seq<u8>, Seq<u8>)>, last: (Seq<u8>, Seq<u8>))
    ensures
        environment_body(entries.push(last)) =~= environment_body(entries) + entry_bytes(last),
        environment_size(entries.push(last)) == environment_size(entries) + last.0.len()
            + last.1.len() + 2,
    decreases entries.len(),
{
    let pushed = entries.push(last);
    if entries.len() == 0 {
        assert(pushed.drop_first() =~= seq![]);
        assert(environment_body(seq![]) =~= seq![]);
        assert(environment_size(seq![]) == 0);
    } else {
        assert(pushed.drop_first() =~= entries.drop_first().push(last));
        lemma_environment_append(entries.drop_first(), last);
    }
}

proof fn lemma_environment_size_split(
    front: Seq<(Seq<u8>, Seq<u8>)>,
    back: Seq<(Seq<u8>, Seq<u8>)>,
)
    ensures
        environment_size(front + back) == environment_size(front) + environment_size(back),
    decreases front.len(),
{
    if front.len() == 0 {
        assert(front + back =~= back);
    } else {
        assert((front + back).drop_first() =~= front.drop_first() + back);
        lemma_environment_size_split(front.drop_first(), back);
    }
}

/// How far `count` entries can be written into `capacity` bytes.
pub open spec fn environment_fits(
    entries: Seq<(Seq<u8>, Seq<u8>)>,
    count: int,
    capacity: int,
) -> bool {
    &&& valid_environment(entries.take(count))
    &&& ENVIRONMENT_HEADER_BYTES + environment_body(entries.take(count)).len() <= capacity
}

/// The buffer once `count` of the entries have been written over `capacity` zero bytes.
pub open spec fn environment_written(
    entries: Seq<(Seq<u8>, Seq<u8>)>,
    count: int,
    capacity: int,
) -> Seq<u8> {
    let body = environment_body(entries.take(count));
    bytes::u16_bytes(entries.len() as u16) + bytes::u16_bytes(0) + body + bytes::zeros(
        (capacity - ENVIRONMENT_HEADER_BYTES - body.len()) as nat,
    )
}

proof fn lemma_environment_fits_prefix(
    entries: Seq<(Seq<u8>, Seq<u8>)>,
    count: int,
    longer: int,
    capacity: int,
)
    requires
        0 <= count <= longer <= entries.len(),
    ensures
        environment_fits(entries, longer, capacity) ==> environment_fits(entries, count, capacity),
    decreases longer - count,
{
    if count < longer {
        let shorter = longer - 1;
        assert(entries.take(longer) =~= entries.take(shorter).push(entries[shorter]));
        lemma_environment_append(entries.take(shorter), entries[shorter]);
        lemma_environment_fits_prefix(entries, count, shorter, capacity);
        if environment_fits(entries, longer, capacity) {
            assert forall|i: int| 0 <= i < shorter implies valid_entry(
                #[trigger] entries.take(shorter)[i],
            ) by {
                assert(entries.take(longer)[i] == entries.take(shorter)[i]);
            }
            assert forall|i: int, j: int|
                #![trigger entries.take(shorter)[i], entries.take(shorter)[j]]
                0 <= i < j < shorter implies entries.take(shorter)[i].0 != entries.take(
                shorter,
            )[j].0 by {
                assert(entries.take(longer)[i] == entries.take(shorter)[i]);
                assert(entries.take(longer)[j] == entries.take(shorter)[j]);
            }
        }
    }
}

/// Writes a bounded compatibility-environment section.
pub fn encode_startup_environment(environment: &[(&[u8], &[u8])], output: &mut [u8]) -> (length:
    Result<usize, StartupDataError>)
    ensures
        ({
            let views = entry_views(environment@);
            let capacity = old(output)@.len() as int;
            if views.len() > MAX_ENVIRONMENT_VARIABLES || capacity < ENVIRONMENT_HEADER_BYTES {
                &&& length == Err::<usize, _>(
                    StartupDataError::InvalidSection(StartupSectionId::environment()),
                )
                &&& final(output)@ == old(output)@
            } else if environment_fits(views, views.len() as int, capacity) {
                &&& length matches Ok(length) && length == environment_section(views).len()
                &&& final(output)@ == environment_section(views) + bytes::zeros(
                    (capacity - environment_section(views).len()) as nat,
                )
            } else {
                &&& length == Err::<usize, _>(
                    StartupDataError::InvalidSection(StartupSectionId::environment()),
                )
                &&& exists|count: int|
                    0 <= count < views.len() && #[trigger] environment_fits(views, count, capacity)
                        && !environment_fits(views, count + 1, capacity) && final(output)@
                        == environment_written(views, count, capacity)
            }
        }),
{
    let ghost views = entry_views(environment@);
    let ghost capacity = output@.len() as int;
    if environment.len() > MAX_ENVIRONMENT_VARIABLES || output.len() < ENVIRONMENT_HEADER_BYTES {
        return Err(StartupDataError::InvalidSection(StartupSectionId::environment()));
    }
    let size: usize = output.len();
    fill_zero(output, size);
    put_u16(output, 0, environment.len() as u16);
    let mut cursor: usize = ENVIRONMENT_HEADER_BYTES;
    let mut environment_bytes: usize = 0;
    let mut index: usize = 0;
    proof {
        assert(views.take(0) =~= seq![]);
        assert(output@ =~= environment_written(views, 0, capacity));
    }
    while index < environment.len()
        invariant
            index <= environment@.len() <= MAX_ENVIRONMENT_VARIABLES,
            views == entry_views(environment@),
            capacity == old(output)@.len() == output@.len() == size,
            capacity >= ENVIRONMENT_HEADER_BYTES,
            environment_fits(views, index as int, capacity),
            cursor == ENVIRONMENT_HEADER_BYTES + environment_body(views.take(index as int)).len(),
            environment_bytes == environment_size(views.take(index as int)),
            output@ == environment_written(views, index as int, capacity),
        decreases environment@.len() - index,
    {
        let name = environment[index].0;
        let value = environment[index].1;
        let known: bool = name_occurs(environment, index, name);
        proof {
            let next = views.take(index + 1);
            assert(next =~= views.take(index as int).push((name@, value@)));
            lemma_environment_append(views.take(index as int), (name@, value@));
            assert(next[index as int] == (name@, value@));
        }
        if !valid_environment_name(name) || contains(value, 0) || known || value.len()
            > MAX_ENVIRONMENT_BYTES || environment_bytes + name.len() + value.len() + 2
            > MAX_ENVIRONMENT_BYTES || 4 + name.len() + value.len() > size - cursor {
            proof {
                let next = views.take(index + 1);
                if environment_fits(views, index + 1, capacity) {
                    assert(valid_entry(next[index as int]));
                    if known {
                        let j = choose|j: int| 0 <= j < index && #[trigger] environment@[j].0@ == name@;
                        assert(next[j].0 == name@);
                        assert(next[j].0 != next[index as int].0);
                    }
                    assert(false);
                }
                lemma_environment_fits_prefix(views, index + 1, views.len() as int, capacity);
            }
            return Err(StartupDataError::InvalidSection(StartupSectionId::environment()));
        }
        put_u16(output, cursor, name.len() as u16);
        put_u16(output, cursor + 2, value.len() as u16);
        copy_into(output, cursor + 4, name);
        copy_into(output, cursor + 4 + name.len(), value);
        cursor = cursor + 4 + name.len() + value.len();
        environment_bytes = environment_bytes + name.len() + value.len() + 2;
        proof {
            let next = views.take(index + 1);
            assert forall|i: int| 0 <= i < index + 1 implies valid_entry(#[trigger] next[i]) by {
                if i < index {
                    assert(views.take(index as int)[i] == next[i]);
                }
            }
            assert forall|i: int, j: int|
                #![trigger next[i], next[j]]
                0 <= i < j < index + 1 implies next[i].0 != next[j].0 by {
                assert(views.take(index as int)[i] == next[i]);
                if j < index {
                    assert(views.take(index as int)[j] == next[j]);
                } else {
                    assert(environment@[i].0@ == next[i].0);
                }
            }
            assert(output@ =~= environment_written(views, index + 1, capacity));
        }
        index = index + 1;
    }
    proof {
        assert(views.take(index as int) =~= views);
        assert(output@ =~= environment_section(views) + bytes::zeros(
            (capacity - environment_section(views).len()) as nat,
        ));
    }
    Ok(cursor)
}

/// Whether one of the first `count` entries has the name `name`.
fn name_occurs(environment: &[(&[u8], &[u8])], count: usize, name: &[u8]) -> (occurs: bool)
    requires
        count <= environment@.len(),
    ensures
        occurs == (exists|j: int| 0 <= j < count && #[trigger] environment@[j].0@ == name@),
{
    let mut index: usize = 0;
    while index < count
        invariant
            index <= count <= environment@.len(),
            forall|j: int| 0 <= j < index ==> #[trigger] environment@[j].0@ != name@,
        decreases count - index,
    {
        if equal(environment[index].0, name) {
            assert(environment@[index as int].0@ == name@);
            return true;
        }
        index = index + 1;
    }
    false
}

pub fn valid_environment_name(name: &[u8]) -> (valid: bool)
    ensures
        valid == valid_name(name@),
{
    if name.len() == 0 || name.len() > MAX_ENVIRONMENT_NAME_BYTES {
        return false;
    }
    if !is_name_start(name[0]) {
        return false;
    }
    let mut index: usize = 1;
    while index < name.len()
        invariant
            1 <= index <= name@.len() <= MAX_ENVIRONMENT_NAME_BYTES,
            forall|i: int| 0 < i < index ==> name_part(#[trigger] name@[i]),
        decreases name@.len() - index,
    {
        let byte: u8 = name[index];
        if !is_name_start(byte) && !(0x30 <= byte && byte <= 0x39) {
            assert(!name_part(name@[index as int]));
            return false;
        }
        index = index + 1;
    }
    true
}

fn is_name_start(byte: u8) -> (start: bool)
    ensures
        start == name_start(byte),
{
    (0x41 <= byte && byte <= 0x5a) || (0x61 <= byte && byte <= 0x7a) || byte == 0x5f
}

/// The name, the value and the end of the entry at `cursor`, if the bytes hold all of it.
pub open spec fn entry_at(bytes: Seq<u8>, cursor: int) -> Option<(Seq<u8>, Seq<u8>, int)> {
    if cursor + 4 > bytes.len() {
        None
    } else {
        let middle = cursor + 4 + bytes::u16_at(bytes, cursor);
        let end = middle + bytes::u16_at(bytes, cursor + 2);
        if end > bytes.len() {
            None
        } else {
            Some((bytes.subrange(cursor + 4, middle), bytes.subrange(middle, end), end))
        }
    }
}

/// The `count` entries that stand at `cursor`, if the bytes end right behind them.
pub open spec fn entries_at(bytes: Seq<u8>, cursor: int, count: int) -> Option<
    Seq<(Seq<u8>, Seq<u8>)>,
>
    decreases count,
{
    if count <= 0 {
        if cursor == bytes.len() {
            Some(seq![])
        } else {
            None
        }
    } else {
        match entry_at(bytes, cursor) {
            None => None,
            Some((name, value, end)) => match entries_at(bytes, end, count - 1) {
                Some(rest) => Some(seq![(name, value)] + rest),
                None => None,
            },
        }
    }
}

/// The entries that a section holds, if it is a valid one.
pub open spec fn parse_environment(bytes: Seq<u8>) -> Option<Seq<(Seq<u8>, Seq<u8>)>> {
    if bytes.len() < ENVIRONMENT_HEADER_BYTES || bytes::u16_at(bytes, 2) != 0 || bytes::u16_at(
        bytes,
        0,
    ) > MAX_ENVIRONMENT_VARIABLES {
        None
    } else {
        match entries_at(
            bytes,
            ENVIRONMENT_HEADER_BYTES as int,
            bytes::u16_at(bytes, 0) as int,
        ) {
            Some(entries) => if valid_environment(entries) {
                Some(entries)
            } else {
                None
            },
            None => None,
        }
    }
}

/// The value of the first entry called `name`.
pub open spec fn value_of(entries: Seq<(Seq<u8>, Seq<u8>)>, name: Seq<u8>) -> Option<Seq<u8>>
    decreases entries.len(),
{
    if entries.len() == 0 {
        None
    } else if entries[0].0 == name {
        Some(entries[0].1)
    } else {
        value_of(entries.drop_first(), name)
    }
}

/// Parsing an encoded environment section gives the entries back.
pub proof fn lemma_environment_round_trip(entries: Seq<(Seq<u8>, Seq<u8>)>)
    requires
        entries.len() <= MAX_ENVIRONMENT_VARIABLES,
        valid_environment(entries),
    ensures
        parse_environment(environment_section(entries)) == Some(entries),
{
    let section = environment_section(entries);
    assert(section.skip(4) =~= environment_body(entries));
    assert(bytes::u16_at(section, 0) == entries.len());
    assert(bytes::u16_at(section, 2) == 0);
    lemma_entries_at(section, 4, entries);
}

proof fn lemma_entries_at(bytes: Seq<u8>, cursor: int, entries: Seq<(Seq<u8>, Seq<u8>)>)
    requires
        0 <= cursor <= bytes.len(),
        bytes.skip(cursor) == environment_body(entries),
        environment_size(entries) <= MAX_ENVIRONMENT_BYTES,
    ensures
        entries_at(bytes, cursor, entries.len() as int) == Some(entries),
    decreases entries.len(),
{
    if entries.len() == 0 {
        assert(bytes.skip(cursor).len() == 0);
        assert(entries =~= seq![]);
    } else {
        let (name, value) = entries[0];
        let rest = entries.drop_first();
        let body = bytes.skip(cursor);
        let middle = cursor + 4 + name.len() as int;
        let end = middle + value.len() as int;
        assert(body.len() == 4 + name.len() + value.len() + environment_body(rest).len());
        assert(forall|i: int| 0 <= i < body.len() ==> body[i] == bytes[cursor + i]);
        assert(body[0] == bytes[cursor] && body[1] == bytes[cursor + 1]);
        assert(body[2] == bytes[cursor + 2] && body[3] == bytes[cursor + 3]);
        bytes::lemma_u16_round_trip(name.len() as u16);
        bytes::lemma_u16_round_trip(value.len() as u16);
        assert(bytes::u16_at(bytes, cursor) == name.len());
        assert(bytes::u16_at(bytes, cursor + 2) == value.len());
        assert(bytes.subrange(cursor + 4, middle) =~= name) by {
            assert(body.subrange(4, 4 + name.len() as int) =~= name);
            assert(bytes.subrange(cursor + 4, middle) =~= body.subrange(4, 4 + name.len() as int));
        }
        assert(bytes.subrange(middle, end) =~= value) by {
            let from = 4 + name.len() as int;
            assert(body.subrange(from, from + value.len() as int) =~= value);
            assert(bytes.subrange(middle, end) =~= body.subrange(from, from + value.len() as int));
        }
        assert(bytes.skip(end) =~= environment_body(rest)) by {
            let from = 4 + name.len() as int + value.len() as int;
            assert(bytes.skip(end) =~= body.skip(from));
            assert(body.skip(from) =~= environment_body(rest));
        }
        lemma_entries_at(bytes, end, rest);
        assert(seq![(name, value)] + rest =~= entries);
    }
}

/// A section that parses is the encoding of what it parses to: there is one encoding of each
/// environment.
pub proof fn lemma_environment_is_canonical(bytes: Seq<u8>)
    requires
        parse_environment(bytes) is Some,
    ensures
        environment_section(parse_environment(bytes)->0) =~= bytes,
{
    lemma_entries_at_canonical(bytes, 4, bytes::u16_at(bytes, 0) as int);
    bytes::lemma_u16_at_bytes(bytes, 0);
    bytes::lemma_u16_at_bytes(bytes, 2);
    assert(bytes =~= bytes.subrange(0, 2) + bytes.subrange(2, 4) + bytes.skip(4));
}

proof fn lemma_entries_at_canonical(bytes: Seq<u8>, cursor: int, count: int)
    requires
        0 <= cursor <= bytes.len(),
        0 <= count,
        entries_at(bytes, cursor, count) is Some,
    ensures
        entries_at(bytes, cursor, count)->0.len() == count,
        environment_body(entries_at(bytes, cursor, count)->0) =~= bytes.skip(cursor),
    decreases count,
{
    let entries = entries_at(bytes, cursor, count)->0;
    if count == 0 {
        assert(bytes.skip(cursor) =~= seq![]);
    } else {
        let (name, value, end) = entry_at(bytes, cursor)->0;
        let rest = entries_at(bytes, end, count - 1)->0;
        lemma_entries_at_canonical(bytes, end, count - 1);
        assert(entries.drop_first() =~= rest);
        bytes::lemma_u16_at_bytes(bytes, cursor);
        bytes::lemma_u16_at_bytes(bytes, cursor + 2);
        let middle = cursor + 4 + bytes::u16_at(bytes, cursor);
        assert(bytes.skip(cursor) =~= bytes.subrange(cursor, cursor + 2) + bytes.subrange(
            cursor + 2,
            cursor + 4,
        ) + bytes.subrange(cursor + 4, middle) + bytes.subrange(middle, end) + bytes.skip(end));
    }
}

/// Reads the entry at `cursor`.
fn environment_entry(bytes: &[u8], cursor: usize) -> (entry: Option<(&[u8], &[u8], usize)>)
    ensures
        match entry {
            Some((name, value, end)) => entry_at(bytes@, cursor as int) == Some(
                (name@, value@, end as int),
            ),
            None => entry_at(bytes@, cursor as int) is None,
        },
{
    if cursor > bytes.len() || bytes.len() - cursor < 4 {
        return None;
    }
    let name_length: usize = get_u16(bytes, cursor) as usize;
    let value_length: usize = get_u16(bytes, cursor + 2) as usize;
    let rest: usize = bytes.len() - cursor - 4;
    if name_length > rest || value_length > rest - name_length {
        return None;
    }
    let middle: usize = cursor + 4 + name_length;
    let end: usize = middle + value_length;
    Some((&bytes[cursor + 4..middle], &bytes[middle..end], end))
}

/// Validated, borrowed compatibility-environment section.
#[derive(Debug, Clone, Copy)]
pub struct StartupEnvironment<'a> {
    bytes: &'a [u8],
    count: usize,
}

impl<'a> View for StartupEnvironment<'a> {
    type V = Seq<(Seq<u8>, Seq<u8>)>;

    closed spec fn view(&self) -> Seq<(Seq<u8>, Seq<u8>)> {
        parse_environment(self.bytes@)->0
    }
}

impl<'a> StartupEnvironment<'a> {
    pub closed spec fn wf(self) -> bool {
        &&& parse_environment(self.bytes@) is Some
        &&& self.count == parse_environment(self.bytes@)->0.len()
        &&& self.count == bytes::u16_at(self.bytes@, 0)
    }

    pub fn decode(bytes: &'a [u8]) -> (environment: Result<Self, StartupDataError>)
        ensures
            match environment {
                Ok(environment) => {
                    &&& environment.wf()
                    &&& parse_environment(bytes@) == Some(environment@)
                },
                Err(error) => {
                    &&& parse_environment(bytes@) is None
                    &&& error == StartupDataError::InvalidSection(StartupSectionId::environment())
                },
            },
    {
        if bytes.len() < ENVIRONMENT_HEADER_BYTES || get_u16(bytes, 2) != 0 {
            return Err(StartupDataError::InvalidSection(StartupSectionId::environment()));
        }
        let count: usize = get_u16(bytes, 0) as usize;
        if count > MAX_ENVIRONMENT_VARIABLES {
            return Err(StartupDataError::InvalidSection(StartupSectionId::environment()));
        }
        let ghost whole = entries_at(bytes@, ENVIRONMENT_HEADER_BYTES as int, count as int);
        let mut cursor: usize = ENVIRONMENT_HEADER_BYTES;
        let mut environment_bytes: usize = 0;
        let mut index: usize = 0;
        let mut names: Vec<(&'a [u8], &'a [u8])> = Vec::new();
        let ghost mut seen: Seq<(Seq<u8>, Seq<u8>)> = seq![];
        while index < count
            invariant
                index <= count <= MAX_ENVIRONMENT_VARIABLES,
                ENVIRONMENT_HEADER_BYTES <= cursor <= bytes@.len(),
                seen.len() == index,
                names@.len() == index,
                entry_views(names@) =~= seen,
                environment_bytes == environment_size(seen) <= MAX_ENVIRONMENT_BYTES,
                valid_environment(seen),
                ({
                    let rest = entries_at(bytes@, cursor as int, count - index);
                    &&& rest is None ==> whole is None
                    &&& rest is Some ==> whole == Some(seen + rest->0)
                }),
                bytes@.len() >= ENVIRONMENT_HEADER_BYTES,
                bytes::u16_at(bytes@, 2) == 0,
                bytes::u16_at(bytes@, 0) == count,
                whole == entries_at(bytes@, ENVIRONMENT_HEADER_BYTES as int, count as int),
            decreases count - index,
        {
            let (name, value, next) = match environment_entry(bytes, cursor) {
                Some(entry) => entry,
                None => {
                    return Err(StartupDataError::InvalidSection(StartupSectionId::environment()));
                },
            };
            let known: bool = name_occurs(names.as_slice(), index, name);
            let ghost rest = entries_at(bytes@, next as int, count - index - 1);
            let ghost grown = seen.push((name@, value@));
            proof {
                lemma_environment_append(seen, (name@, value@));
                if rest is Some {
                    assert(whole->0 =~= grown + rest->0);
                    assert(whole->0[index as int] == (name@, value@));
                    lemma_environment_size_split(grown, rest->0);
                    if known {
                        let j = choose|j: int| 0 <= j < index && #[trigger] names@[j].0@ == name@;
                        assert(entry_views(names@)[j].0 == name@);
                        assert(seen[j].0 == name@);
                        assert(whole->0[j] == seen[j]);
                        assert(!valid_environment(whole->0)) by {
                            if valid_environment(whole->0) {
                                assert(whole->0[j].0 != whole->0[index as int].0);
                            }
                        }
                    }
                    if !valid_entry((name@, value@)) {
                        assert(!valid_entry(whole->0[index as int]));
                    }
                }
            }
            if !valid_environment_name(name) || contains(value, 0) || known || environment_bytes
                + name.len() + value.len() + 2 > MAX_ENVIRONMENT_BYTES {
                return Err(StartupDataError::InvalidSection(StartupSectionId::environment()));
            }
            environment_bytes = environment_bytes + name.len() + value.len() + 2;
            names.push((name, value));
            cursor = next;
            proof {
                assert forall|i: int| 0 <= i < grown.len() implies valid_entry(
                    #[trigger] grown[i],
                ) by {
                    if i < seen.len() {
                        assert(grown[i] == seen[i]);
                    }
                }
                assert forall|i: int, j: int|
                    #![trigger grown[i], grown[j]]
                    0 <= i < j < grown.len() implies grown[i].0 != grown[j].0 by {
                    assert(grown[i] == seen[i]);
                    if j < seen.len() {
                        assert(grown[j] == seen[j]);
                    } else {
                        assert(entry_views(names@)[i].0 == names@[i].0@);
                    }
                }
                assert(entry_views(names@) =~= grown);
                seen = grown;
            }
            index = index + 1;
        }
        if cursor != bytes.len() {
            return Err(StartupDataError::InvalidSection(StartupSectionId::environment()));
        }
        proof {
            assert(seen + seq![] =~= seen);
        }
        Ok(StartupEnvironment { bytes, count })
    }

    pub fn len(self) -> (length: usize)
        requires
            self.wf(),
        ensures
            length == self@.len(),
    {
        self.count
    }

    pub fn is_empty(self) -> (empty: bool)
        requires
            self.wf(),
        ensures
            empty == (self@.len() == 0),
    {
        self.count == 0
    }

    pub fn get(self, index: usize) -> (entry: Option<(&'a [u8], &'a [u8])>)
        requires
            self.wf(),
        ensures
            match entry {
                Some((name, value)) => index < self@.len() && self@[index as int] == (
                    name@,
                    value@,
                ),
                None => index >= self@.len(),
            },
    {
        if index >= self.count {
            return None;
        }
        proof {
            lemma_entries_at_canonical(self.bytes@, 4, self.count as int);
        }
        let mut cursor: usize = ENVIRONMENT_HEADER_BYTES;
        let mut current: usize = 0;
        while current < index
            invariant
                self.wf(),
                current <= index < self.count,
                entries_at(self.bytes@, cursor as int, self.count - current) is Some,
                entries_at(self.bytes@, cursor as int, self.count - current)->0 =~= self@.skip(
                    current as int,
                ),
                self@.len() == self.count,
            decreases index - current,
        {
            let ghost here = entries_at(self.bytes@, cursor as int, self.count - current)->0;
            match environment_entry(self.bytes, cursor) {
                Some((_, _, next)) => {
                    cursor = next;
                },
                None => {
                    return None;
                },
            }
            assert(entries_at(self.bytes@, cursor as int, self.count - current - 1)->0
                =~= here.drop_first());
            current = current + 1;
        }
        let ghost here = entries_at(self.bytes@, cursor as int, self.count - index)->0;
        assert(here[0] == self@[index as int]);
        match environment_entry(self.bytes, cursor) {
            Some((name, value, _)) => Some((name, value)),
            None => None,
        }
    }

    pub fn find(self, name: &[u8]) -> (value: Option<&'a [u8]>)
        requires
            self.wf(),
        ensures
            match value {
                Some(value) => value_of(self@, name@) == Some(value@),
                None => value_of(self@, name@) is None,
            },
    {
        let mut index: usize = 0;
        assert(self@.skip(0) =~= self@);
        while index < self.count
            invariant
                self.wf(),
                index <= self.count,
                self@.len() == self.count,
                value_of(self@, name@) == value_of(self@.skip(index as int), name@),
            decreases self.count - index,
        {
            assert(self@.skip(index as int)[0] == self@[index as int]);
            assert(self@.skip(index as int).drop_first() =~= self@.skip(index + 1));
            if let Some((candidate, value)) = self.get(index) {
                if equal(candidate, name) {
                    return Some(value);
                }
            }
            index = index + 1;
        }
        assert(self@.skip(index as int) =~= seq![]);
        None
    }
}

/// The contents of a validated process start.
#[verifier::ext_equal]
pub ghost struct ProcessStart {
    pub identity: StartupIdentity,
    pub arguments: Seq<Seq<u8>>,
    pub environment: Seq<(Seq<u8>, Seq<u8>)>,
    pub launch: StartupLaunch,
}

/// The sections that every process start must hold.
pub open spec fn standard_sections() -> Seq<StartupSectionId> {
    seq![
        StartupSectionId::identity(),
        StartupSectionId::arguments(),
        StartupSectionId::environment(),
        StartupSectionId::launch(),
    ]
}

/// The process start that an assembly holds, or the first thing that is wrong with it.
pub open spec fn process_start_of(assembly: process_start::Assembly) -> Result<
    ProcessStart,
    StartupDataError,
> {
    match process_start::required_sections(assembly, standard_sections()) {
        Err(error) => Err(error),
        Ok(_) => {
            let identity = process_start::lookup(assembly.sections, StartupSectionId::identity())->0;
            let arguments = process_start::lookup(
                assembly.sections,
                StartupSectionId::arguments(),
            )->0;
            let environment = process_start::lookup(
                assembly.sections,
                StartupSectionId::environment(),
            )->0;
            let launch = process_start::lookup(assembly.sections, StartupSectionId::launch())->0;
            if identity.len() != startup_sections::IDENTITY_BYTES {
                Err(StartupDataError::InvalidSection(StartupSectionId::identity()))
            } else if startup_sections::parse_arguments(arguments) is None {
                Err(StartupDataError::InvalidSection(StartupSectionId::arguments()))
            } else if parse_environment(environment) is None {
                Err(StartupDataError::InvalidSection(StartupSectionId::environment()))
            } else if StartupLaunch::at(launch) is None {
                Err(StartupDataError::InvalidSection(StartupSectionId::launch()))
            } else {
                Ok(
                    ProcessStart {
                        identity: StartupIdentity::at(identity),
                        arguments: startup_sections::parse_arguments(arguments)->0,
                        environment: parse_environment(environment)->0,
                        launch: StartupLaunch::at(launch)->0,
                    },
                )
            }
        },
    }
}

/// Typed view of all standard startup sections.
#[derive(Debug, Clone, Copy)]
pub struct ValidatedProcessStart<'a> {
    pub identity: StartupIdentity,
    pub arguments: StartupArguments<'a>,
    pub environment: StartupEnvironment<'a>,
    pub launch: StartupLaunch,
}

impl<'a> View for ValidatedProcessStart<'a> {
    type V = ProcessStart;

    open spec fn view(&self) -> ProcessStart {
        ProcessStart {
            identity: self.identity,
            arguments: self.arguments@,
            environment: self.environment@,
            launch: self.launch,
        }
    }
}

impl<'a> ValidatedProcessStart<'a> {
    pub open spec fn wf(self) -> bool {
        self.arguments.wf() && self.environment.wf()
    }

    pub fn from_data<const BYTES: usize, const SECTIONS: usize>(
        data: &'a ProcessStartData<BYTES, SECTIONS>,
    ) -> (start: Result<Self, StartupDataError>)
        requires
            data.wf(),
        ensures
            match start {
                Ok(start) => start.wf() && process_start_of(data@) == Ok::<_, StartupDataError>(
                    start@,
                ),
                Err(error) => process_start_of(data@) == Err::<ProcessStart, _>(error),
            },
    {
        let required: [StartupSectionId; 4] = [
            StartupSectionId::identity(),
            StartupSectionId::arguments(),
            StartupSectionId::environment(),
            StartupSectionId::launch(),
        ];
        assert(required@ =~= standard_sections());
        if let Err(error) = data.validate_required(&required) {
            return Err(error);
        }
        proof {
            lemma_standard_sections_present(data@);
        }
        let identity_section = match data.section(StartupSectionId::identity()) {
            Some(section) => section,
            None => {
                return Err(StartupDataError::IncompleteSection);
            },
        };
        let arguments_section = match data.section(StartupSectionId::arguments()) {
            Some(section) => section,
            None => {
                return Err(StartupDataError::IncompleteSection);
            },
        };
        let environment_section = match data.section(StartupSectionId::environment()) {
            Some(section) => section,
            None => {
                return Err(StartupDataError::IncompleteSection);
            },
        };
        let launch_section = match data.section(StartupSectionId::launch()) {
            Some(section) => section,
            None => {
                return Err(StartupDataError::IncompleteSection);
            },
        };
        let identity = match StartupIdentity::decode(identity_section) {
            Ok(identity) => identity,
            Err(error) => {
                return Err(error);
            },
        };
        let arguments = match StartupArguments::decode(arguments_section) {
            Ok(arguments) => arguments,
            Err(error) => {
                return Err(error);
            },
        };
        let environment = match StartupEnvironment::decode(environment_section) {
            Ok(environment) => environment,
            Err(error) => {
                return Err(error);
            },
        };
        let launch = match StartupLaunch::decode(launch_section) {
            Ok(launch) => launch,
            Err(error) => {
                return Err(error);
            },
        };
        Ok(ValidatedProcessStart { identity, arguments, environment, launch })
    }
}

proof fn lemma_standard_sections_present(assembly: process_start::Assembly)
    requires
        process_start::required_sections(assembly, standard_sections()) is Ok,
    ensures
        process_start::lookup(assembly.sections, StartupSectionId::identity()) is Some,
        process_start::lookup(assembly.sections, StartupSectionId::arguments()) is Some,
        process_start::lookup(assembly.sections, StartupSectionId::environment()) is Some,
        process_start::lookup(assembly.sections, StartupSectionId::launch()) is Some,
{
    let all = standard_sections();
    let three = all.drop_first();
    let two = three.drop_first();
    let one = two.drop_first();
    assert(process_start::required_sections(assembly, three) is Ok);
    assert(process_start::required_sections(assembly, two) is Ok);
    assert(process_start::required_sections(assembly, one) is Ok);
    assert(three[0] == StartupSectionId::arguments());
    assert(two[0] == StartupSectionId::environment());
    assert(one[0] == StartupSectionId::launch());
}

} // verus!
