//! Little-endian integers and byte-slice helpers shared by the wire formats.

use vstd::prelude::*;

verus! {

/// The 16-bit integer stored little-endian at `at`.
pub open spec fn u16_at(s: Seq<u8>, at: int) -> u16 {
    (s[at] + 0x100 * s[at + 1]) as u16
}

/// The 32-bit integer stored little-endian at `at`.
pub open spec fn u32_at(s: Seq<u8>, at: int) -> u32 {
    (u16_at(s, at) + 0x1_0000 * u16_at(s, at + 2)) as u32
}

/// The 64-bit integer stored little-endian at `at`.
pub open spec fn u64_at(s: Seq<u8>, at: int) -> u64 {
    (u32_at(s, at) + 0x1_0000_0000 * u32_at(s, at + 4)) as u64
}

/// The two bytes of `value`, least significant first.
pub open spec fn u16_bytes(value: u16) -> Seq<u8> {
    seq![(value % 0x100) as u8, (value / 0x100) as u8]
}

/// The four bytes of `value`, least significant first.
pub open spec fn u32_bytes(value: u32) -> Seq<u8> {
    u16_bytes((value % 0x1_0000) as u16) + u16_bytes((value / 0x1_0000) as u16)
}

/// The eight bytes of `value`, least significant first.
pub open spec fn u64_bytes(value: u64) -> Seq<u8> {
    u32_bytes((value % 0x1_0000_0000) as u32) + u32_bytes((value / 0x1_0000_0000) as u32)
}

/// `out` with `piece` written over it from index `at`.
pub open spec fn overlay(out: Seq<u8>, at: int, piece: Seq<u8>) -> Seq<u8> {
    Seq::new(
        out.len(),
        |i: int| if at <= i < at + piece.len() { piece[i - at] } else { out[i] },
    )
}

/// `count` zero bytes.
pub open spec fn zeros(count: nat) -> Seq<u8> {
    Seq::new(count, |i: int| 0u8)
}

/// How many bytes the integers have.
pub proof fn lemma_integer_lengths(value16: u16, value32: u32, value64: u64)
    ensures
        u16_bytes(value16).len() == 2,
        u32_bytes(value32).len() == 4,
        u64_bytes(value64).len() == 8,
{
}

/// Reading back a 16-bit integer gives the value that was written.
pub proof fn lemma_u16_round_trip(value: u16)
    ensures
        u16_bytes(value).len() == 2,
        u16_at(u16_bytes(value), 0) == value,
{
}

/// Reading back a 32-bit integer gives the value that was written.
pub proof fn lemma_u32_round_trip(value: u32)
    ensures
        u32_bytes(value).len() == 4,
        u32_at(u32_bytes(value), 0) == value,
{
    let low = (value % 0x1_0000) as u16;
    let high = (value / 0x1_0000) as u16;
    lemma_u16_round_trip(low);
    lemma_u16_round_trip(high);
    assert(u16_at(u32_bytes(value), 0) == u16_at(u16_bytes(low), 0));
    assert(u16_at(u32_bytes(value), 2) == u16_at(u16_bytes(high), 0));
}

/// Reading back a 64-bit integer gives the value that was written.
pub proof fn lemma_u64_round_trip(value: u64)
    ensures
        u64_bytes(value).len() == 8,
        u64_at(u64_bytes(value), 0) == value,
{
    let low = (value % 0x1_0000_0000) as u32;
    let high = (value / 0x1_0000_0000) as u32;
    lemma_u32_round_trip(low);
    lemma_u32_round_trip(high);
    lemma_u32_at_window(u64_bytes(value), 0, u32_bytes(low));
    lemma_u32_at_window(u64_bytes(value), 4, u32_bytes(high));
}

/// An integer read inside a window of a sequence is the integer read in the window alone.
pub proof fn lemma_u16_at_window(s: Seq<u8>, at: int, window: Seq<u8>)
    requires
        window.len() == 2,
        0 <= at,
        at + 2 <= s.len(),
        s.subrange(at, at + 2) == window,
    ensures
        u16_at(s, at) == u16_at(window, 0),
{
    assert(s.subrange(at, at + 2)[0] == s[at]);
    assert(s.subrange(at, at + 2)[1] == s[at + 1]);
}

/// The 32-bit form of [`lemma_u16_at_window`].
pub proof fn lemma_u32_at_window(s: Seq<u8>, at: int, window: Seq<u8>)
    requires
        window.len() == 4,
        0 <= at,
        at + 4 <= s.len(),
        s.subrange(at, at + 4) =~= window,
    ensures
        u32_at(s, at) == u32_at(window, 0),
{
    assert(s.subrange(at, at + 4)[0] == s[at]);
    assert(s.subrange(at, at + 4)[1] == s[at + 1]);
    assert(s.subrange(at, at + 4)[2] == s[at + 2]);
    assert(s.subrange(at, at + 4)[3] == s[at + 3]);
}

/// The 64-bit form of [`lemma_u16_at_window`].
pub proof fn lemma_u64_at_window(s: Seq<u8>, at: int, window: Seq<u8>)
    requires
        window.len() == 8,
        0 <= at,
        at + 8 <= s.len(),
        s.subrange(at, at + 8) =~= window,
    ensures
        u64_at(s, at) == u64_at(window, 0),
{
    assert(s.subrange(at, at + 4) =~= window.subrange(0, 4));
    assert(s.subrange(at + 4, at + 8) =~= window.subrange(4, 8));
    lemma_u32_at_window(s, at, window.subrange(0, 4));
    lemma_u32_at_window(s, at + 4, window.subrange(4, 8));
    lemma_u32_at_window(window, 0, window.subrange(0, 4));
    lemma_u32_at_window(window, 4, window.subrange(4, 8));
}

proof fn lemma_u32_halves(low: u16, high: u16)
    ensures
        ({
            let value = (low + 0x1_0000 * high) as u32;
            &&& (value % 0x1_0000) as u16 == low
            &&& (value / 0x1_0000) as u16 == high
        }),
{
}

proof fn lemma_u64_halves(low: u32, high: u32)
    ensures
        ({
            let value = (low + 0x1_0000_0000 * high) as u64;
            &&& (value % 0x1_0000_0000) as u32 == low
            &&& (value / 0x1_0000_0000) as u32 == high
        }),
{
}

/// The bytes of the 16-bit integer read at `at` are the bytes that stand there.
pub proof fn lemma_u16_at_bytes(s: Seq<u8>, at: int)
    requires
        0 <= at,
        at + 2 <= s.len(),
    ensures
        u16_bytes(u16_at(s, at)) =~= s.subrange(at, at + 2),
{
}

/// The bytes of the 32-bit integer read at `at` are the bytes that stand there.
pub proof fn lemma_u32_at_bytes(s: Seq<u8>, at: int)
    requires
        0 <= at,
        at + 4 <= s.len(),
    ensures
        u32_bytes(u32_at(s, at)) =~= s.subrange(at, at + 4),
{
    lemma_u16_at_bytes(s, at);
    lemma_u16_at_bytes(s, at + 2);
    lemma_u32_halves(u16_at(s, at), u16_at(s, at + 2));
    assert(s.subrange(at, at + 4) =~= s.subrange(at, at + 2) + s.subrange(at + 2, at + 4));
}

/// The bytes of the 64-bit integer read at `at` are the bytes that stand there.
pub proof fn lemma_u64_at_bytes(s: Seq<u8>, at: int)
    requires
        0 <= at,
        at + 8 <= s.len(),
    ensures
        u64_bytes(u64_at(s, at)) =~= s.subrange(at, at + 8),
{
    lemma_u32_at_bytes(s, at);
    lemma_u32_at_bytes(s, at + 4);
    lemma_u64_halves(u32_at(s, at), u32_at(s, at + 4));
    assert(s.subrange(at, at + 8) =~= s.subrange(at, at + 4) + s.subrange(at + 4, at + 8));
}

/// Reads the 16-bit integer stored little-endian at `offset`.
pub fn get_u16(input: &[u8], offset: usize) -> (value: u16)
    requires
        offset + 2 <= input@.len(),
    ensures
        value == u16_at(input@, offset as int),
{
    input[offset] as u16 + 0x100 * (input[offset + 1] as u16)
}

/// Reads the 32-bit integer stored little-endian at `offset`.
pub fn get_u32(input: &[u8], offset: usize) -> (value: u32)
    requires
        offset + 4 <= input@.len(),
    ensures
        value == u32_at(input@, offset as int),
{
    assert(offset + 4 <= input.len());
    get_u16(input, offset) as u32 + 0x1_0000 * (get_u16(input, offset + 2) as u32)
}

/// Reads the 64-bit integer stored little-endian at `offset`.
pub fn get_u64(input: &[u8], offset: usize) -> (value: u64)
    requires
        offset + 8 <= input@.len(),
    ensures
        value == u64_at(input@, offset as int),
{
    assert(offset + 8 <= input.len());
    get_u32(input, offset) as u64 + 0x1_0000_0000 * (get_u32(input, offset + 4) as u64)
}

/// Writes `value` little-endian at `offset`.
pub fn put_u16(output: &mut [u8], offset: usize, value: u16)
    requires
        offset + 2 <= old(output)@.len(),
    ensures
        final(output)@ == overlay(old(output)@, offset as int, u16_bytes(value)),
{
    output[offset] = (value % 0x100) as u8;
    output[offset + 1] = (value / 0x100) as u8;
    assert(output@ =~= overlay(old(output)@, offset as int, u16_bytes(value)));
}

/// Writes `value` little-endian at `offset`.
pub fn put_u32(output: &mut [u8], offset: usize, value: u32)
    requires
        offset + 4 <= old(output)@.len(),
    ensures
        final(output)@ == overlay(old(output)@, offset as int, u32_bytes(value)),
{
    assert(offset + 4 <= output.len());
    put_u16(output, offset, (value % 0x1_0000) as u16);
    put_u16(output, offset + 2, (value / 0x1_0000) as u16);
    assert(output@ =~= overlay(old(output)@, offset as int, u32_bytes(value)));
}

/// Writes `value` little-endian at `offset`.
pub fn put_u64(output: &mut [u8], offset: usize, value: u64)
    requires
        offset + 8 <= old(output)@.len(),
    ensures
        final(output)@ == overlay(old(output)@, offset as int, u64_bytes(value)),
{
    assert(offset + 8 <= output.len());
    put_u32(output, offset, (value % 0x1_0000_0000) as u32);
    put_u32(output, offset + 4, (value / 0x1_0000_0000) as u32);
    assert(output@ =~= overlay(old(output)@, offset as int, u64_bytes(value)));
}

/// Copies `piece` over `output` from index `offset`.
pub fn copy_into(output: &mut [u8], offset: usize, piece: &[u8])
    requires
        offset + piece@.len() <= old(output)@.len(),
    ensures
        final(output)@ == overlay(old(output)@, offset as int, piece@),
{
    let mut index: usize = 0;
    while index < piece.len()
        invariant
            index <= piece@.len(),
            offset + piece@.len() <= old(output)@.len(),
            output@ =~= overlay(old(output)@, offset as int, piece@.take(index as int)),
        decreases piece@.len() - index,
    {
        assert(offset + index < output.len());
        output[offset + index] = piece[index];
        index += 1;
    }
    assert(piece@.take(index as int) =~= piece@);
}

/// Sets the first `count` bytes of `output` to zero.
pub fn fill_zero(output: &mut [u8], count: usize)
    requires
        count <= old(output)@.len(),
    ensures
        final(output)@ == overlay(old(output)@, 0, zeros(count as nat)),
{
    let mut index: usize = 0;
    while index < count
        invariant
            index <= count <= old(output)@.len(),
            output@ =~= overlay(old(output)@, 0, zeros(index as nat)),
        decreases count - index,
    {
        output[index] = 0;
        index += 1;
    }
}

/// Whether two slices hold the same bytes.
pub fn equal(left: &[u8], right: &[u8]) -> (same: bool)
    ensures
        same == (left@ == right@),
{
    if left.len() != right.len() {
        return false;
    }
    let mut index: usize = 0;
    while index < left.len()
        invariant
            index <= left@.len() == right@.len(),
            forall|i: int| 0 <= i < index ==> left@[i] == right@[i],
        decreases left@.len() - index,
    {
        if left[index] != right[index] {
            return false;
        }
        index += 1;
    }
    assert(left@ =~= right@);
    true
}

/// Whether `bytes` begins with `prefix`.
pub fn starts_with(bytes: &[u8], prefix: &[u8]) -> (found: bool)
    ensures
        found == prefix@.is_prefix_of(bytes@),
{
    if bytes.len() < prefix.len() {
        return false;
    }
    let found = equal(&bytes[0..prefix.len()], prefix);
    found
}

/// Whether `bytes` holds `value`.
pub fn contains(bytes: &[u8], value: u8) -> (found: bool)
    ensures
        found == bytes@.contains(value),
{
    let mut index: usize = 0;
    while index < bytes.len()
        invariant
            index <= bytes@.len(),
            forall|i: int| 0 <= i < index ==> bytes@[i] != value,
        decreases bytes@.len() - index,
    {
        if bytes[index] == value {
            return true;
        }
        index += 1;
    }
    false
}

/// Whether every byte from `start` up to `end` is zero.
pub fn all_zero(bytes: &[u8], start: usize, end: usize) -> (zero: bool)
    requires
        start <= end <= bytes@.len(),
    ensures
        zero == (bytes@.subrange(start as int, end as int) == zeros((end - start) as nat)),
{
    let mut index: usize = start;
    while index < end
        invariant
            start <= index <= end <= bytes@.len(),
            forall|i: int| start <= i < index ==> bytes@[i] == 0,
        decreases end - index,
    {
        if bytes[index] != 0 {
            assert(bytes@.subrange(start as int, end as int)[index - start] != 0);
            return false;
        }
        index += 1;
    }
    assert(bytes@.subrange(start as int, end as int) =~= zeros((end - start) as nat));
    true
}

/// A vector with the bytes of `bytes`.
pub fn to_vec(bytes: &[u8]) -> (copy: Vec<u8>)
    ensures
        copy@ == bytes@,
{
    let mut copy: Vec<u8> = Vec::new();
    let mut index: usize = 0;
    while index < bytes.len()
        invariant
            index <= bytes@.len(),
            copy@ =~= bytes@.take(index as int),
        decreases bytes@.len() - index,
    {
        copy.push(bytes[index]);
        index += 1;
    }
    assert(bytes@.take(index as int) =~= bytes@);
    copy
}

/// The bytes of several 64-bit integers, one after another.
pub open spec fn words(values: Seq<u64>) -> Seq<u8>
    decreases values.len(),
{
    if values.len() == 0 {
        seq![]
    } else {
        words(values.drop_last()) + u64_bytes(values.last())
    }
}

/// The integers written by [`words`] can be read back, each at its place, whatever follows them.
pub proof fn lemma_words_round_trip(values: Seq<u64>, tail: Seq<u8>)
    ensures
        words(values).len() == 8 * values.len(),
        forall|i: int|
            0 <= i < values.len() ==> u64_at(words(values) + tail, 8 * i) == #[trigger] values[i],
    decreases values.len(),
{
    if values.len() > 0 {
        let front = values.drop_last();
        let bytes = words(values) + tail;
        let last_tail = u64_bytes(values.last()) + tail;
        lemma_words_round_trip(front, last_tail);
        lemma_u64_round_trip(values.last());
        assert(bytes =~= words(front) + last_tail);
        assert forall|i: int| 0 <= i < values.len() implies u64_at(bytes, 8 * i)
            == #[trigger] values[i] by {
            if i < front.len() {
                assert(front[i] == values[i]);
            } else {
                assert(bytes.subrange(8 * i, 8 * i + 8) =~= u64_bytes(values.last()));
                lemma_u64_at_window(bytes, 8 * i, u64_bytes(values.last()));
            }
        }
    }
}

/// The bytes of the integers that stand at the start of a sequence are the bytes that stand there.
pub proof fn lemma_words_at_bytes(values: Seq<u64>, s: Seq<u8>)
    requires
        8 * values.len() <= s.len(),
        forall|i: int| 0 <= i < values.len() ==> #[trigger] values[i] == u64_at(s, 8 * i),
    ensures
        words(values) =~= s.take(8 * values.len() as int),
    decreases values.len(),
{
    if values.len() > 0 {
        let front = values.drop_last();
        let last = values.len() - 1;
        assert forall|i: int| 0 <= i < front.len() implies #[trigger] front[i] == u64_at(
            s,
            8 * i,
        ) by {
            assert(front[i] == values[i]);
        }
        lemma_words_at_bytes(front, s);
        lemma_u64_at_bytes(s, 8 * last);
        assert(values[last] == u64_at(s, 8 * last));
        assert(s.take(8 * values.len() as int) =~= s.take(8 * last) + s.subrange(
            8 * last,
            8 * last + 8,
        ));
    }
}

/// Writes `values` one after another from the start of `output`.
pub fn put_words(output: &mut [u8], values: &[u64])
    requires
        8 * values@.len() <= old(output)@.len(),
    ensures
        final(output)@ == overlay(old(output)@, 0, words(values@)),
{
    let mut index: usize = 0;
    assert(values@.take(0) =~= seq![]);
    while index < values.len()
        invariant
            index <= values@.len(),
            8 * values@.len() <= old(output)@.len(),
            output@ =~= overlay(old(output)@, 0, words(values@.take(index as int))),
        decreases values@.len() - index,
    {
        proof {
            let next = values@.take(index + 1);
            assert(next.drop_last() =~= values@.take(index as int));
            lemma_words_round_trip(values@.take(index as int), seq![]);
            lemma_u64_round_trip(values@[index as int]);
            assert(8 * index + 8 <= output.len());
        }
        put_u64(output, 8 * index, values[index]);
        index += 1;
    }
    assert(values@.take(index as int) =~= values@);
}

} // verus!
