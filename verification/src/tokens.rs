//! Index tokens: zero-size values whose constants select, through their type,
//! which element or range of a container an accessor reaches.

use vstd::prelude::*;

verus! {

/// An index that exists entirely at compile time.
///
/// A value of this type carries no data; the constant `INDEX` selects the
/// element. Two tokens with the same constant are interchangeable.
pub struct StaticIndex<const INDEX: usize>;

/// A range index that exists entirely at compile time.
///
/// A value of this type carries no data; the constants select the half-open
/// interval `[START, START + LENGTH)`. Two tokens with the same constants are
/// interchangeable.
pub struct StaticRangeIndex<const START: usize, const LENGTH: usize>;

} // verus!
