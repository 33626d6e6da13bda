//! Validity predicates: the rules that decide whether a single index or a
//! (start, length) range fits inside a container of a given capacity.
//!
//! A range is valid only when its start lies strictly inside the container,
//! so an empty range whose start equals the capacity is rejected; this keeps
//! the rule `start < n && n - start >= length` free of underflow without a
//! special case.

use vstd::prelude::*;

verus! {

/// A single index is valid for capacity `n` exactly when it lies below `n`.
pub open spec fn index_is_valid(n: nat, index: nat) -> bool {
    index < n
}

/// A range `[start, start + length)` is valid for capacity `n` exactly when
/// its start lies strictly below `n` and at least `length` elements remain
/// from `start` on.
pub open spec fn range_is_valid(n: nat, start: nat, length: nat) -> bool {
    start < n && n - start >= length
}

/// Run-time evaluation of the single-index rule, for containers whose length
/// is only known at the moment of access.
pub fn check_index(n: usize, index: usize) -> (r: bool)
    ensures
        r == index_is_valid(n as nat, index as nat),
{
    index < n
}

/// Run-time evaluation of the range rule. The subtraction is reached only
/// after `start < n` has been confirmed, so it can never underflow.
pub fn check_range(n: usize, start: usize, length: usize) -> (r: bool)
    ensures
        r == range_is_valid(n as nat, start as nat, length as nat),
{
    start < n && n - start >= length
}

/// The result of writing a block of values over the range of a sequence that
/// starts at `start`: the prefix and the suffix are kept, the block replaces
/// what stood between them.
pub open spec fn spliced<T>(s: Seq<T>, start: int, vals: Seq<T>) -> Seq<T>
    recommends
        0 <= start,
        start + vals.len() <= s.len(),
{
    s.subrange(0, start) + vals + s.subrange(start + vals.len(), s.len() as int)
}

} // verus!
