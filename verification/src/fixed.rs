//! Accessors for fixed-size arrays, whose capacity is a compile-time
//! constant.
//!
//! Each accessor takes a token whose constants name the element or range, and
//! demands through its precondition that the matching validity predicate
//! holds of those constants. The predicate is therefore discharged before the
//! program runs — an access whose constants do not fit the capacity fails to
//! verify — and the bodies perform no bounds check of their own beyond the
//! checks the proofs make redundant.

use crate::bounds::{index_is_valid, range_is_valid, spliced};
use crate::tokens::{StaticIndex, StaticRangeIndex};
use vstd::array::array_index_get;
use vstd::prelude::*;

verus! {

/// Read the element at `INDEX` of a fixed-size array.
///
/// The index must be proven valid for the array's capacity; no run-time
/// branch remains in the access.
pub fn fixed_index<T, const N: usize, const INDEX: usize>(
    arr: &[T; N],
    _token: StaticIndex<INDEX>,
) -> (r: &T)
    requires
        index_is_valid(N as nat, INDEX as nat),
    ensures
        *r == arr@[INDEX as int],
{
    array_index_get(arr, INDEX)
}

/// Replace the element at `INDEX` of a fixed-size array.
///
/// Exactly the named element changes; every other element keeps its value.
pub fn fixed_write<T, const N: usize, const INDEX: usize>(
    arr: &mut [T; N],
    _token: StaticIndex<INDEX>,
    value: T,
)
    requires
        index_is_valid(N as nat, INDEX as nat),
    ensures
        final(arr)@ == old(arr)@.update(INDEX as int, value),
{
    arr[INDEX] = value;
}

/// Read the `LENGTH` elements starting at `START` of a fixed-size array, as
/// an array whose length is part of its type.
///
/// The range must be proven valid for the array's capacity. The result holds
/// the source's elements at `[START, START + LENGTH)`, in order.
pub fn fixed_range<T: Copy, const N: usize, const START: usize, const LENGTH: usize>(
    arr: &[T; N],
    _token: StaticRangeIndex<START, LENGTH>,
) -> (r: [T; LENGTH])
    requires
        range_is_valid(N as nat, START as nat, LENGTH as nat),
    ensures
        r@ == arr@.subrange(START as int, START as int + LENGTH as int),
{
    let seed: T = *array_index_get(arr, START);
    let mut out: [T; LENGTH] = [seed; LENGTH];
    for i in 0..LENGTH
        invariant
            range_is_valid(N as nat, START as nat, LENGTH as nat),
            forall|j: int| 0 <= j < i ==> out@[j] == arr@[START + j],
    {
        out[i] = *array_index_get(arr, START + i);
    }
    assert(out@ =~= arr@.subrange(START as int, START as int + LENGTH as int));
    out
}

/// Replace the `LENGTH` elements starting at `START` of a fixed-size array
/// with the given values.
///
/// Exactly the elements of the range change, to the given values in order;
/// every element outside the range keeps its value.
pub fn fixed_write_range<T: Copy, const N: usize, const START: usize, const LENGTH: usize>(
    arr: &mut [T; N],
    _token: StaticRangeIndex<START, LENGTH>,
    values: [T; LENGTH],
)
    requires
        range_is_valid(N as nat, START as nat, LENGTH as nat),
    ensures
        final(arr)@ == spliced(old(arr)@, START as int, values@),
{
    for i in 0..LENGTH
        invariant
            range_is_valid(N as nat, START as nat, LENGTH as nat),
            forall|j: int| 0 <= j < i ==> arr@[START + j] == values@[j],
            forall|j: int|
                0 <= j < N && !(START <= j < START + i) ==> arr@[j] == old(arr)@[j],
    {
        arr[START + i] = *array_index_get(&values, i);
    }
    assert(arr@ =~= spliced(old(arr)@, START as int, values@));
}

/// Fixed-size collections supporting whole-container copies from other
/// collections of the identical type.
///
/// The lengths of destination and source agree because they share one type:
/// a mismatch is a type error, never a run-time check.
pub trait FixedSizeCopy<T>: Sized where T: Copy {
    /// The elements the collection holds, as a sequence.
    spec fn copy_view(&self) -> Seq<T>;

    /// Overwrite `self` with the contents of `input`, wholly: afterwards the
    /// destination holds exactly the source's elements.
    fn copy_from(&mut self, input: Self)
        ensures
            final(self).copy_view() == input.copy_view(),
    ;
}

impl<T, const N: usize> FixedSizeCopy<T> for [T; N] where T: Copy {
    open spec fn copy_view(&self) -> Seq<T> {
        self@
    }

    fn copy_from(&mut self, input: Self) {
        *self = input;
    }
}

} // verus!
