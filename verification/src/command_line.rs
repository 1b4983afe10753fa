//! Commands: their words, their executable's canonical path, and its number.

use crate::abi::MAX_ARGUMENTS;
use crate::bytes;
use crate::bytes::{contains, equal, get_u64};
use vstd::prelude::*;

verus! {

/// The deepest path that can be canonicalised.
pub const MAX_PATH_COMPONENTS: usize = 32;

/// ASCII white space.
pub open spec fn is_space(byte: u8) -> bool {
    byte == 0x20 || byte == 0x09 || byte == 0x0a || byte == 0x0c || byte == 0x0d
}

/// Where the word that starts at `from` ends.
pub open spec fn word_end(command: Seq<u8>, from: int) -> int
    decreases command.len() - from,
{
    if from >= command.len() || is_space(command[from]) {
        from
    } else {
        word_end(command, from + 1)
    }
}

/// The words of a command from `from` on, parted by white space.
pub open spec fn words_from(command: Seq<u8>, from: int) -> Seq<Seq<u8>>
    decreases command.len() - from,
{
    if from < 0 || from >= command.len() {
        seq![]
    } else if is_space(command[from]) {
        words_from(command, from + 1)
    } else {
        proof {
            lemma_word_end(command, from);
        }
        seq![command.subrange(from, word_end(command, from))] + words_from(
            command,
            word_end(command, from),
        )
    }
}

/// A word ends after it starts, and within the command.
pub proof fn lemma_word_end(command: Seq<u8>, from: int)
    requires
        0 <= from <= command.len(),
    ensures
        from <= word_end(command, from) <= command.len(),
        from < command.len() && !is_space(command[from]) ==> from < word_end(command, from),
    decreases command.len() - from,
{
    if from < command.len() && !is_space(command[from]) {
        lemma_word_end(command, from + 1);
    }
}

fn space(byte: u8) -> (result: bool)
    ensures
        result == is_space(byte),
{
    byte == 0x20 || byte == 0x09 || byte == 0x0a || byte == 0x0c || byte == 0x0d
}

/// What words are to the contracts.
pub open spec fn word_views(words: Seq<&[u8]>) -> Seq<Seq<u8>> {
    words.map_values(|word: &[u8]| word@)
}

/// The words of a command. There must be at least one, and no more than a process can have
/// arguments.
pub fn split_command<'a>(command: &'a [u8]) -> (words: Option<Vec<&'a [u8]>>)
    ensures
        match words {
            Some(words) => word_views(words@) == words_from(command@, 0) && 0 < words@.len()
                <= MAX_ARGUMENTS,
            None => words_from(command@, 0).len() == 0 || words_from(command@, 0).len()
                > MAX_ARGUMENTS,
        },
{
    let mut words: Vec<&'a [u8]> = Vec::new();
    let mut index: usize = 0;
    assert(word_views(words@) + words_from(command@, 0) =~= words_from(command@, 0));
    while index < command.len()
        invariant
            index <= command@.len(),
            words@.len() <= MAX_ARGUMENTS,
            words_from(command@, 0) == word_views(words@) + words_from(command@, index as int),
        decreases command@.len() - index,
    {
        if space(command[index]) {
            index += 1;
        } else {
            let start: usize = index;
            proof {
                lemma_word_end(command@, start as int);
            }
            while index < command.len() && !space(command[index])
                invariant
                    start <= index <= command@.len(),
                    word_end(command@, start as int) == word_end(command@, index as int),
                decreases command@.len() - index,
            {
                index += 1;
            }
            let ghost before = words@;
            let ghost rest = words_from(command@, start as int);
            assert(rest.len() > 0);
            if words.len() == MAX_ARGUMENTS {
                return None;
            }
            let word = &command[start..index];
            words.push(word);
            assert(word_views(words@) =~= word_views(before).push(word@));
            assert(words_from(command@, 0) =~= word_views(words@) + words_from(
                command@,
                index as int,
            ));
        }
    }
    assert(word_views(words@) + words_from(command@, index as int) =~= word_views(words@));
    if words.len() == 0 {
        None
    } else {
        Some(words)
    }
}

/// A path given by its components.
pub open spec fn rendered(components: Seq<Seq<u8>>) -> Seq<u8>
    decreases components.len(),
{
    if components.len() == 0 {
        seq![0x2f]
    } else if components.len() == 1 {
        seq![0x2f] + components[0]
    } else {
        rendered(components.drop_last()) + seq![0x2f] + components.last()
    }
}

/// Where the path component that starts at `from` ends.
pub open spec fn component_end(path: Seq<u8>, from: int) -> int
    decreases path.len() - from,
{
    if from >= path.len() || path[from] == 0x2f {
        from
    } else {
        component_end(path, from + 1)
    }
}

/// Entering one component: empty ones and `.` stay, `..` leaves the last one, any other is added
/// if depth and length allow.
pub open spec fn enter(components: Seq<Seq<u8>>, component: Seq<u8>, capacity: int) -> Option<
    Seq<Seq<u8>>,
> {
    if component.len() == 0 || component == seq![0x2eu8] {
        Some(components)
    } else if component == seq![0x2eu8, 0x2eu8] {
        if components.len() == 0 {
            Some(components)
        } else {
            Some(components.drop_last())
        }
    } else if components.len() == MAX_PATH_COMPONENTS || rendered(
        components.push(component),
    ).len() > capacity {
        None
    } else {
        Some(components.push(component))
    }
}

/// Entering the components of a path from `from` on.
pub open spec fn walk(
    components: Seq<Seq<u8>>,
    path: Seq<u8>,
    from: int,
    capacity: int,
) -> Option<Seq<Seq<u8>>>
    decreases path.len() - from,
{
    if from < 0 || from > path.len() {
        None
    } else {
        proof {
            lemma_component_end(path, from);
        }
        let end = component_end(path, from);
        match enter(components, path.subrange(from, end), capacity) {
            None => None,
            Some(next) => if end >= path.len() {
                Some(next)
            } else {
                walk(next, path, end + 1, capacity)
            },
        }
    }
}

/// A component ends within the path.
pub proof fn lemma_component_end(path: Seq<u8>, from: int)
    requires
        0 <= from <= path.len(),
    ensures
        from <= component_end(path, from) <= path.len(),
    decreases path.len() - from,
{
    if from < path.len() && path[from] != 0x2f {
        lemma_component_end(path, from + 1);
    }
}

/// Whether an executable is named relative to the working directory: with a slash, but not at
/// its start.
pub open spec fn is_relative(argument: Seq<u8>) -> bool {
    argument.len() > 0 && argument[0] != 0x2f && argument.contains(0x2f)
}

/// The canonical path of an executable, in at most `capacity` bytes.
pub open spec fn canonical_path(
    argument: Seq<u8>,
    working_directory: Seq<u8>,
    capacity: int,
) -> Option<Seq<u8>> {
    if argument.len() == 0 || capacity == 0 || working_directory.len() == 0
        || working_directory[0] != 0x2f {
        None
    } else {
        let base = if is_relative(argument) {
            walk(seq![], working_directory, 0, capacity)
        } else {
            Some(seq![])
        };
        match base {
            None => None,
            Some(base) => match walk(base, argument, 0, capacity) {
                None => None,
                Some(components) => Some(rendered(components)),
            },
        }
    }
}

/// Every prefix of the components, rendered, is as long as the recorded offset.
spec fn offsets_of(components: Seq<Seq<u8>>, offsets: Seq<usize>) -> bool {
    &&& offsets.len() == components.len()
    &&& forall|i: int|
        0 <= i < offsets.len() ==> #[trigger] offsets[i] == rendered(components.take(i)).len()
}

proof fn lemma_rendered_prefix(components: Seq<Seq<u8>>)
    requires
        components.len() > 0,
    ensures
        rendered(components).len() == rendered(components.drop_last()).len() + components.last().len()
            + (if components.len() == 1 {
            0int
        } else {
            1int
        }),
        rendered(components).take(rendered(components.drop_last()).len() as int) =~= rendered(
            components.drop_last(),
        ),
        rendered(components.drop_last()).len() >= 1,
    decreases components.len(),
{
    if components.len() > 1 {
        lemma_rendered_prefix(components.drop_last());
    }
}

/// Whether no component is empty.
spec fn nonempty(components: Seq<Seq<u8>>) -> bool {
    forall|i: int| 0 <= i < components.len() ==> (#[trigger] components[i]).len() > 0
}

proof fn lemma_rendered_root(components: Seq<Seq<u8>>)
    requires
        nonempty(components),
    ensures
        rendered(components).len() >= 1,
        rendered(components).len() == 1 <==> components.len() == 0,
    decreases components.len(),
{
    if components.len() > 0 {
        assert(components.last().len() > 0);
        assert(components[0].len() > 0);
        if components.len() > 1 {
            assert(nonempty(components.drop_last()));
            lemma_rendered_root(components.drop_last());
        }
    }
}

fn append_canonical_path(
    path: &[u8],
    output: &mut Vec<u8>,
    offsets: &mut Vec<usize>,
    capacity: usize,
    Ghost(components): Ghost<Seq<Seq<u8>>>,
) -> (entered: Option<Ghost<Seq<Seq<u8>>>>)
    requires
        old(output)@ == rendered(components),
        offsets_of(components, old(offsets)@),
        nonempty(components),
        old(output)@.len() <= capacity,
    ensures
        match entered {
            None => walk(components, path@, 0, capacity as int) is None,
            Some(entered) => {
                &&& walk(components, path@, 0, capacity as int) == Some(entered@)
                &&& final(output)@ == rendered(entered@)
                &&& offsets_of(entered@, final(offsets)@)
                &&& nonempty(entered@)
                &&& final(output)@.len() <= capacity
            },
        },
{
    let ghost mut stack = components;
    let mut from: usize = 0;
    let here: [u8; 1] = [0x2e];
    let parent: [u8; 2] = [0x2e, 0x2e];
    assert(here@ =~= seq![0x2eu8]);
    assert(parent@ =~= seq![0x2eu8, 0x2eu8]);
    loop
        invariant
            here@ == seq![0x2eu8],
            parent@ == seq![0x2eu8, 0x2eu8],
            from <= path@.len(),
            output@ == rendered(stack),
            offsets_of(stack, offsets@),
            nonempty(stack),
            output@.len() <= capacity,
            walk(components, path@, 0, capacity as int) == walk(
                stack,
                path@,
                from as int,
                capacity as int,
            ),
        decreases path@.len() - from,
    {
        let mut end: usize = from;
        while end < path.len() && path[end] != 0x2f
            invariant
                from <= end <= path@.len(),
                component_end(path@, from as int) == component_end(path@, end as int),
            decreases path@.len() - end,
        {
            end += 1;
        }
        let component = &path[from..end];
        assert(component@ == path@.subrange(from as int, component_end(path@, from as int)));
        if component.len() == 0 || equal(component, &here) {
        } else if equal(component, &parent) {
            if let Some(length) = offsets.pop() {
                proof {
                    lemma_rendered_prefix(stack);
                    assert(stack.take(stack.len() - 1) =~= stack.drop_last());
                }
                output.truncate(length);
                proof {
                    let shorter = stack.drop_last();
                    assert(output@ =~= rendered(shorter));
                    assert forall|i: int| 0 <= i < offsets@.len() implies #[trigger] offsets@[i]
                        == rendered(shorter.take(i)).len() by {
                        assert(shorter.take(i) =~= stack.take(i));
                    }
                    stack = shorter;
                }
            }
        } else {
            let ghost longer = stack.push(component@);
            proof {
                assert(longer.drop_last() =~= stack);
                lemma_rendered_prefix(longer);
                lemma_rendered_root(stack);
            }
            if offsets.len() == MAX_PATH_COMPONENTS {
                return None;
            }
            let length: usize = output.len();
            let separator: usize = if length != 1 {
                1
            } else {
                0
            };
            if component.len() > capacity - length || separator > capacity - length
                - component.len() {
                return None;
            }
            offsets.push(length);
            if separator != 0 {
                output.push(0x2f);
            }
            let mut index: usize = 0;
            let ghost head = output@;
            while index < component.len()
                invariant
                    index <= component@.len(),
                    output@ =~= head + component@.take(index as int),
                decreases component@.len() - index,
            {
                output.push(component[index]);
                index += 1;
            }
            proof {
                assert(component@.take(index as int) =~= component@);
                assert(output@ =~= rendered(longer));
                assert forall|i: int| 0 <= i < offsets@.len() implies #[trigger] offsets@[i]
                    == rendered(longer.take(i)).len() by {
                    assert(longer.take(i) =~= stack.take(i));
                    assert(stack.take(stack.len() as int) =~= stack);
                }
                stack = longer;
            }
        }
        if end == path.len() {
            return Some(Ghost(stack));
        }
        from = end + 1;
    }
}

/// The canonical path of an executable, in at most `capacity` bytes. A name without a slash is
/// looked up at the root; one with a slash that is not absolute starts at the working directory.
pub fn canonical_executable_argument(
    argument: &[u8],
    working_directory: &[u8],
    capacity: usize,
) -> (path: Option<Vec<u8>>)
    ensures
        match path {
            Some(path) => canonical_path(argument@, working_directory@, capacity as int) == Some(
                path@,
            ),
            None => canonical_path(argument@, working_directory@, capacity as int) is None,
        },
{
    if argument.len() == 0 || capacity == 0 || working_directory.len() == 0 || working_directory[0]
        != 0x2f {
        return None;
    }
    let mut output: Vec<u8> = Vec::new();
    output.push(0x2f);
    let mut offsets: Vec<usize> = Vec::new();
    let ghost mut components: Seq<Seq<u8>> = seq![];
    assert(output@ =~= rendered(components));
    if argument[0] != 0x2f && contains(argument, 0x2f) {
        match append_canonical_path(
            working_directory,
            &mut output,
            &mut offsets,
            capacity,
            Ghost(components),
        ) {
            None => {
                return None;
            },
            Some(entered) => {
                proof {
                    components = entered@;
                }
            },
        }
    }
    match append_canonical_path(
        argument,
        &mut output,
        &mut offsets,
        capacity,
        Ghost(components),
    ) {
        None => None,
        Some(_) => Some(output),
    }
}

/// Mixing the bytes of a spelling into a hash, from `from` on.
pub open spec fn mixed(hash: u64, spelling: Seq<u8>, from: int) -> u64
    decreases spelling.len() - from,
{
    if from < 0 || from >= spelling.len() {
        hash
    } else {
        mixed(
            (hash ^ (spelling[from] as u64)).wrapping_mul(0x0000_0100_0000_01b3),
            spelling,
            from + 1,
        )
    }
}

/// The number of an executable's spelling: never zero.
pub open spec fn executable_number(spelling: Seq<u8>) -> u64 {
    let hash = mixed(0xcbf2_9ce4_8422_2325, spelling, 0);
    if hash == 0 {
        1
    } else {
        hash
    }
}

/// The number of an executable's spelling. It describes a launch and grants nothing.
pub fn numeric_executable_id(path: &[u8]) -> (number: u64)
    ensures
        number == executable_number(path@),
        number != 0,
{
    let mut hash: u64 = 0xcbf2_9ce4_8422_2325;
    let mut index: usize = 0;
    while index < path.len()
        invariant
            index <= path@.len(),
            mixed(0xcbf2_9ce4_8422_2325, path@, 0) == mixed(hash, path@, index as int),
        decreases path@.len() - index,
    {
        hash = (hash ^ (path[index] as u64)).wrapping_mul(0x0000_0100_0000_01b3);
        index += 1;
    }
    if hash == 0 {
        1
    } else {
        hash
    }
}

/// The number of a service: the first eight bytes of its identity.
pub fn numeric_service_id(bytes: [u8; 16]) -> (number: u64)
    ensures
        number == bytes::u64_at(bytes@, 0),
{
    get_u64(bytes.as_slice(), 0)
}

proof fn lemma_component_end_is_past(path: Seq<u8>, from: int, i: int)
    requires
        0 <= from <= i < component_end(path, from),
        component_end(path, from) <= path.len(),
    ensures
        path[i] != 0x2f,
    decreases path.len() - from,
{
    if from < i {
        lemma_component_end_is_past(path, from + 1, i);
    }
}

/// Whether a component is a name: it is neither empty nor `.` nor `..` and holds no slash.
pub open spec fn is_name(component: Seq<u8>) -> bool {
    &&& component.len() > 0
    &&& component != seq![0x2eu8]
    &&& component != seq![0x2eu8, 0x2eu8]
    &&& !component.contains(0x2f)
}

/// Whether every component is a name.
pub open spec fn all_names(components: Seq<Seq<u8>>) -> bool {
    forall|i: int| 0 <= i < components.len() ==> is_name(#[trigger] components[i])
}

/// A canonical path has no empty component, no `.` and no `..`, and is no deeper than allowed.
pub proof fn lemma_walk_gives_names(
    components: Seq<Seq<u8>>,
    path: Seq<u8>,
    from: int,
    capacity: int,
)
    requires
        0 <= from <= path.len(),
        all_names(components),
        components.len() <= MAX_PATH_COMPONENTS,
    ensures
        walk(components, path, from, capacity) matches Some(entered) ==> all_names(entered)
            && entered.len() <= MAX_PATH_COMPONENTS,
    decreases path.len() - from,
{
    lemma_component_end(path, from);
    let end = component_end(path, from);
    let component = path.subrange(from, end);
    assert(!component.contains(0x2f)) by {
        if component.contains(0x2f) {
            let i = choose|i: int| 0 <= i < component.len() && component[i] == 0x2f;
            lemma_component_end_is_past(path, from, from + i);
        }
    }
    if let Some(next) = enter(components, component, capacity) {
        assert(all_names(next));
        if end < path.len() {
            lemma_walk_gives_names(next, path, end + 1, capacity);
        }
    }
}

} // verus!
