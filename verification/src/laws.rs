//! Laws relating the accessors to one another, stated over the sequence
//! model that every accessor's contract uses.
//!
//! The read accessors pin their result to the container's contents at the
//! selected positions, so two equal reads agree by their contracts alone.
//! These laws state the remaining relations: what a full-range view is, what
//! a read observes after a write, and that repeating a write changes nothing
//! further.

use crate::bounds::spliced;
use vstd::prelude::*;

verus! {

/// A full-range view — start zero, length the whole capacity — equals the
/// entire container, element for element.
pub proof fn lemma_full_range_is_whole<T>(s: Seq<T>)
    ensures
        s.subrange(0, s.len() as int) == s,
{
    assert(s.subrange(0, s.len() as int) =~= s);
}

/// Writing one element and then reading the container observes exactly the
/// write: the written position holds the new value, every other element and
/// the length are unaltered.
pub proof fn lemma_write_then_read<T>(s: Seq<T>, i: int, v: T)
    requires
        0 <= i < s.len(),
    ensures
        s.update(i, v).len() == s.len(),
        s.update(i, v)[i] == v,
        forall|j: int| 0 <= j < s.len() && j != i ==> s.update(i, v)[j] == s[j],
{
}

/// Writing a range and then reading the container observes exactly the
/// write: the range holds the written values in order — so reading the same
/// range back yields them — and every element outside the range and the
/// length are unaltered.
pub proof fn lemma_write_range_then_read<T>(s: Seq<T>, start: int, vals: Seq<T>)
    requires
        0 <= start,
        start + vals.len() <= s.len(),
    ensures
        spliced(s, start, vals).len() == s.len(),
        forall|j: int| 0 <= j < vals.len() ==> spliced(s, start, vals)[start + j] == vals[j],
        forall|j: int|
            0 <= j < s.len() && !(start <= j < start + vals.len())
                ==> spliced(s, start, vals)[j] == s[j],
        spliced(s, start, vals).subrange(start, start + vals.len() as int) == vals,
{
    assert(spliced(s, start, vals).subrange(start, start + vals.len() as int) =~= vals);
}

/// Performing the same single-element write twice leaves the container in
/// the same state as performing it once.
pub proof fn lemma_write_idempotent<T>(s: Seq<T>, i: int, v: T)
    requires
        0 <= i < s.len(),
    ensures
        s.update(i, v).update(i, v) == s.update(i, v),
{
    assert(s.update(i, v).update(i, v) =~= s.update(i, v));
}

/// Performing the same range write twice leaves the container in the same
/// state as performing it once.
pub proof fn lemma_write_range_idempotent<T>(s: Seq<T>, start: int, vals: Seq<T>)
    requires
        0 <= start,
        start + vals.len() <= s.len(),
    ensures
        spliced(spliced(s, start, vals), start, vals) == spliced(s, start, vals),
{
    lemma_write_range_then_read(s, start, vals);
    assert(spliced(spliced(s, start, vals), start, vals) =~= spliced(s, start, vals));
}

} // verus!
