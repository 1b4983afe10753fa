//! A bounded bump heap.

use crate::bytes::copy_into;
use vstd::prelude::*;

verus! {

/// A bounded, resettable bump heap backed by memory of its own.
///
/// Allocations are carved one after the other from the backing array. The whole heap can be reset
/// once no returned reference is used any more, which mutable access guarantees.
pub struct BumpHeap<const BYTES: usize> {
    storage: [u8; BYTES],
    cursor: usize,
}

/// A power of two.
pub open spec fn power_of_two(value: int) -> bool
    decreases value,
{
    value == 1 || (value > 1 && value % 2 == 0 && power_of_two(value / 2))
}

/// The least multiple of `alignment` that is at least `address`.
pub open spec fn align_up(address: int, alignment: int) -> int {
    address + alignment - 1 - (address + alignment - 1) % alignment
}

/// Where an allocation would start, counted from the start of a backing array at address `base`.
pub open spec fn allocation_start(base: int, cursor: int, alignment: int) -> int {
    align_up(base + cursor, alignment) - base
}

/// Whether an allocation fits: the alignment is a power of two, no address overflows, and the
/// end is within the heap.
pub open spec fn fits(
    base: int,
    cursor: int,
    capacity: int,
    length: int,
    alignment: int,
) -> bool {
    &&& power_of_two(alignment)
    &&& base + cursor + alignment - 1 <= usize::MAX
    &&& allocation_start(base, cursor, alignment) + length <= capacity
}

fn is_power_of_two(value: usize) -> (result: bool)
    ensures
        result == power_of_two(value as int),
{
    if value == 0 {
        return false;
    }
    let mut rest: usize = value;
    while rest % 2 == 0
        invariant
            rest > 0,
            power_of_two(value as int) == power_of_two(rest as int),
        decreases rest,
    {
        rest = rest / 2;
    }
    rest == 1
}

/// Whether an allocation fits wherever the backing array lies: there is room for it even if all
/// of the padding is needed.
pub open spec fn roomy(cursor: int, capacity: int, length: int, alignment: int) -> bool {
    &&& power_of_two(alignment)
    &&& cursor + alignment - 1 + length <= capacity
}

/// An allocation with room for all of its padding fits wherever the backing array lies.
pub proof fn lemma_roomy_allocation_fits(
    base: int,
    cursor: int,
    capacity: int,
    length: int,
    alignment: int,
)
    requires
        0 <= base,
        0 <= cursor,
        0 <= length,
        base + capacity <= usize::MAX,
        roomy(cursor, capacity, length, alignment),
    ensures
        fits(base, cursor, capacity, length, alignment),
{
    lemma_align_up(base + cursor, alignment);
}

/// The address of the first byte of a slice, as `slice::as_ptr` gives it. Where memory lies is up
/// to the machine; all that is claimed is that a slice does not wrap around the address space.
#[verifier::external_body]
fn address_of(storage: &[u8]) -> (address: usize)
    ensures
        address + storage@.len() <= usize::MAX,
{
    storage.as_ptr() as usize
}

impl<const BYTES: usize> BumpHeap<BYTES> {
    /// The bytes of the backing array.
    pub closed spec fn contents(self) -> Seq<u8> {
        self.storage@
    }

    /// How many bytes are used.
    pub closed spec fn cursor(self) -> usize {
        self.cursor
    }

    #[verifier::type_invariant]
    spec fn in_bounds(self) -> bool {
        self.cursor <= BYTES
    }

    /// The backing array has as many bytes as the heap.
    pub proof fn lemma_contents_fill_the_heap(self)
        ensures
            self.contents().len() == BYTES,
    {
    }

    pub fn new() -> (heap: Self)
        ensures
            heap.cursor() == 0,
            heap.contents() == Seq::new(BYTES as nat, |i: int| 0u8),
    {
        let heap = Self { storage: vstd::array::array_fill_for_copy_types(0), cursor: 0 };
        assert(heap.contents() =~= Seq::new(BYTES as nat, |i: int| 0u8));
        heap
    }

    pub fn capacity(&self) -> (capacity: usize)
        ensures
            capacity == BYTES,
    {
        BYTES
    }

    pub fn used(&self) -> (used: usize)
        ensures
            used == self.cursor(),
            used <= BYTES,
    {
        proof {
            use_type_invariant(self);
        }
        self.cursor
    }

    pub fn remaining(&self) -> (remaining: usize)
        ensures
            remaining == BYTES - self.cursor(),
    {
        BYTES.saturating_sub(self.used())
    }

    /// Takes the next range of `length` bytes whose address is a multiple of `alignment`, for a
    /// backing array that lies at address `base`. The range counts from the start of the array.
    pub fn reserve(&mut self, base: usize, length: usize, alignment: usize) -> (range: Option<
        (usize, usize),
    >)
        ensures
            final(self).contents() == old(self).contents(),
            match range {
                Some((start, end)) => {
                    &&& fits(
                        base as int,
                        old(self).cursor() as int,
                        BYTES as int,
                        length as int,
                        alignment as int,
                    )
                    &&& start == allocation_start(
                        base as int,
                        old(self).cursor() as int,
                        alignment as int,
                    )
                    &&& end == start + length
                    &&& final(self).cursor() == end
                },
                None => {
                    &&& !fits(
                        base as int,
                        old(self).cursor() as int,
                        BYTES as int,
                        length as int,
                        alignment as int,
                    )
                    &&& final(self).cursor() == old(self).cursor()
                },
            },
    {
        if !is_power_of_two(alignment) {
            return None;
        }
        let mask: usize = alignment - 1;
        let current: usize = base.checked_add(self.cursor)?;
        let limit: usize = current.checked_add(mask)?;
        let aligned: usize = limit - limit % alignment;
        proof {
            lemma_align_up(base + self.cursor, alignment as int);
        }
        let start: usize = aligned - base;
        let end: usize = start.checked_add(length)?;
        if end > BYTES {
            return None;
        }
        self.cursor = end;
        Some((start, end))
    }

    /// Takes the next `length` bytes whose address is a multiple of `alignment`. The bytes keep
    /// what they held.
    pub fn allocate(&mut self, length: usize, alignment: usize) -> (result: Option<&mut [u8]>)
        ensures
            roomy(
                old(self).cursor() as int,
                BYTES as int,
                length as int,
                alignment as int,
            ) ==> result is Some,
            result matches Some(slice) ==> slice@.len() == length,
            old(self).contents().len() == BYTES,
            final(self).contents().len() == BYTES,
            old(self).cursor() <= final(self).cursor() <= BYTES,
            exists|base: usize|
                base + BYTES <= usize::MAX && match result {
                    Some(slice) => {
                        let start = allocation_start(
                            base as int,
                            old(self).cursor() as int,
                            alignment as int,
                        );
                        &&& #[trigger] fits(
                            base as int,
                            old(self).cursor() as int,
                            BYTES as int,
                            length as int,
                            alignment as int,
                        )
                        &&& final(self).cursor() == start + length
                        &&& slice@ == old(self).contents().subrange(start, start + length)
                        &&& final(self).contents() == old(self).contents().subrange(0, start)
                            + final(slice)@ + old(self).contents().subrange(
                            start + length,
                            BYTES as int,
                        )
                    },
                    None => {
                        &&& !fits(
                            base as int,
                            old(self).cursor() as int,
                            BYTES as int,
                            length as int,
                            alignment as int,
                        )
                        &&& final(self).cursor() == old(self).cursor()
                        &&& final(self).contents() == old(self).contents()
                    },
                },
    {
        proof {
            use_type_invariant(&*self);
        }
        let base: usize = address_of(self.storage.as_slice());
        let (start, end) = match self.reserve(base, length, alignment) {
            Some(range) => range,
            None => {
                proof {
                    let cursor = old(self).cursor as int;
                    if roomy(cursor, BYTES as int, length as int, alignment as int) {
                        lemma_roomy_allocation_fits(
                            base as int,
                            cursor,
                            BYTES as int,
                            length as int,
                            alignment as int,
                        );
                    }
                }
                return None;
            },
        };
        proof {
            lemma_align_up(base + old(self).cursor, alignment as int);
        }
        let storage: &mut [u8] = &mut self.storage;
        let (_, tail) = storage.split_at_mut(start);
        let (slice, _) = tail.split_at_mut(length);
        Some(slice)
    }

    /// Allocates as many bytes as `bytes` holds and copies them there.
    pub fn copy_bytes(&mut self, bytes: &[u8], alignment: usize) -> (result: Option<&mut [u8]>)
        ensures
            roomy(
                old(self).cursor() as int,
                BYTES as int,
                bytes@.len() as int,
                alignment as int,
            ) ==> result is Some,
            result matches Some(slice) ==> slice@.len() == bytes@.len(),
            old(self).contents().len() == BYTES,
            final(self).contents().len() == BYTES,
            old(self).cursor() <= final(self).cursor() <= BYTES,
            exists|base: usize|
                base + BYTES <= usize::MAX && match result {
                    Some(slice) => {
                        let start = allocation_start(
                            base as int,
                            old(self).cursor() as int,
                            alignment as int,
                        );
                        &&& #[trigger] fits(
                            base as int,
                            old(self).cursor() as int,
                            BYTES as int,
                            bytes@.len() as int,
                            alignment as int,
                        )
                        &&& final(self).cursor() == start + bytes@.len()
                        &&& slice@ == bytes@
                        &&& final(self).contents() == old(self).contents().subrange(0, start)
                            + final(slice)@ + old(self).contents().subrange(
                            start + bytes@.len(),
                            BYTES as int,
                        )
                    },
                    None => {
                        &&& !fits(
                            base as int,
                            old(self).cursor() as int,
                            BYTES as int,
                            bytes@.len() as int,
                            alignment as int,
                        )
                        &&& final(self).cursor() == old(self).cursor()
                        &&& final(self).contents() == old(self).contents()
                    },
                },
    {
        match self.allocate(bytes.len(), alignment) {
            Some(destination) => {
                copy_into(destination, 0, bytes);
                Some(destination)
            },
            None => None,
        }
    }

    pub fn reset(&mut self)
        ensures
            final(self).cursor() == 0,
            final(self).contents() == old(self).contents(),
    {
        self.cursor = 0;
    }
}

impl<const BYTES: usize> Default for BumpHeap<BYTES> {
    fn default() -> (heap: Self)
        ensures
            heap.cursor() == 0,
            heap.contents() == Seq::new(BYTES as nat, |i: int| 0u8),
    {
        Self::new()
    }
}

proof fn lemma_align_up(address: int, alignment: int)
    requires
        0 < alignment,
        0 <= address,
    ensures
        address <= align_up(address, alignment) < address + alignment,
        align_up(address, alignment) % alignment == 0,
{
    let limit = address + alignment - 1;
    vstd::arithmetic::div_mod::lemma_fundamental_div_mod(limit, alignment);
    assert(align_up(address, alignment) == alignment * (limit / alignment));
    vstd::arithmetic::div_mod::lemma_mod_multiples_basic(limit / alignment, alignment);
    assert(alignment * (limit / alignment) == (limit / alignment) * alignment) by (nonlinear_arith);
}

/// Two allocations in a row are aligned and do not overlap: the second starts at or after the
/// end of the first, both within the heap.
pub proof fn lemma_allocations_are_aligned_and_disjoint(
    base: int,
    cursor: int,
    capacity: int,
    first_length: int,
    first_alignment: int,
    second_length: int,
    second_alignment: int,
)
    requires
        0 <= base,
        0 <= cursor,
        0 <= first_length,
        0 <= second_length,
        fits(base, cursor, capacity, first_length, first_alignment),
        fits(
            base,
            allocation_start(base, cursor, first_alignment) + first_length,
            capacity,
            second_length,
            second_alignment,
        ),
    ensures
        ({
            let first = allocation_start(base, cursor, first_alignment);
            let second = allocation_start(base, first + first_length, second_alignment);
            &&& (base + first) % first_alignment == 0
            &&& (base + second) % second_alignment == 0
            &&& cursor <= first
            &&& first + first_length <= second
            &&& second + second_length <= capacity
        }),
{
    lemma_align_up(base + cursor, first_alignment);
    let first = allocation_start(base, cursor, first_alignment);
    lemma_align_up(base + first + first_length, second_alignment);
}

} // verus!
