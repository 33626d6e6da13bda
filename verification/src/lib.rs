//! Statically checked indexing and sub-slicing of contiguous containers.
//!
//! A [`StaticIndex`] selects one element and a [`StaticRangeIndex`] selects a
//! fixed-length contiguous range, both through compile-time constants. For
//! fixed-size arrays the accessors in [`fixed`] demand the matching validity
//! predicate of [`bounds`] as a precondition, so the bounds are established
//! before the program runs and no runtime check remains. For containers whose
//! length is known only at run time, [`SliceWrapper`] adapts anything that
//! presents itself as a contiguous sequence — a fixed array, a vector, a
//! borrowed slice — and offers the same access shapes, either against a
//! proven precondition or through `try_` accessors that evaluate the same
//! predicate at the moment of access. [`FixedSizeCopy`] copies a whole array
//! onto another of the identical type, the equal lengths enforced by the type
//! system. The laws in [`laws`] relate the accessors: what a full-range view
//! is, what a read observes after a write, and that repeating a write changes
//! nothing further.

pub mod bounds;
pub mod fixed;
pub mod laws;
pub mod tokens;
pub mod wrapper;

pub use bounds::{check_index, check_range, index_is_valid, range_is_valid, spliced};
pub use fixed::{fixed_index, fixed_range, fixed_write, fixed_write_range, FixedSizeCopy};
pub use tokens::{StaticIndex, StaticRangeIndex};
pub use wrapper::{ContiguousStorage, ContiguousStorageMut, SliceWrapper};
