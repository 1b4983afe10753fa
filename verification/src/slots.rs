//! Arrays of slots that start out empty.

use vstd::prelude::*;

verus! {

fn absent<T>() -> (none: Option<T>)
    ensures
        none is None,
{
    None
}

/// An array of empty slots. `core::array::from_fn` fills an array by calling a function once for
/// each index, and the function called here gives an empty slot.
#[verifier::external_body]
pub(crate) fn empty_slots<T, const N: usize>() -> (slots: [Option<T>; N])
    ensures
        forall|i: int| 0 <= i < N ==> (#[trigger] slots@[i]) is None,
{
    core::array::from_fn(|_| absent())
}

} // verus!
