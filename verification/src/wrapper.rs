//! The adapter for containers whose length is known only at run time.
//!
//! [`SliceWrapper`] gives any contiguous, randomly addressable container the
//! same two access shapes as fixed-size arrays. The validity predicate is
//! evaluated against the container's current length at the moment of access:
//! the `try_` accessors report an invalid access as `None` or `false` and
//! never return a truncated or wrapped result, while the plain accessors
//! demand validity as a precondition and perform no check at run time.

use crate::bounds::{check_index, check_range, index_is_valid, range_is_valid, spliced};
use crate::tokens::{StaticIndex, StaticRangeIndex};
use core::marker::PhantomData;
use vstd::array::array_index_get;
use vstd::prelude::*;

verus! {

/// Read access to a container that presents itself as a contiguous,
/// randomly addressable sequence of elements.
pub trait ContiguousStorage<I>: Sized {
    /// The elements the container currently holds, as a sequence.
    spec fn contents(&self) -> Seq<I>;

    /// The number of elements the container currently holds.
    fn storage_len(&self) -> (n: usize)
        ensures
            n as nat == self.contents().len(),
    ;

    /// A reference to the element at `i`.
    fn storage_index(&self, i: usize) -> (r: &I)
        requires
            (i as nat) < self.contents().len(),
        ensures
            *r == self.contents()[i as int],
    ;
}

/// Write access to a contiguous container: replacing one element, leaving
/// every other element and the length unchanged.
pub trait ContiguousStorageMut<I>: ContiguousStorage<I> {
    /// Replace the element at `i` with `value`.
    fn storage_set(&mut self, i: usize, value: I)
        requires
            (i as nat) < old(self).contents().len(),
        ensures
            final(self).contents() == old(self).contents().update(i as int, value),
    ;
}

impl<I> ContiguousStorage<I> for Vec<I> {
    open spec fn contents(&self) -> Seq<I> {
        self@
    }

    fn storage_len(&self) -> (n: usize) {
        self.len()
    }

    fn storage_index(&self, i: usize) -> (r: &I) {
        &self[i]
    }
}

impl<I> ContiguousStorageMut<I> for Vec<I> {
    fn storage_set(&mut self, i: usize, value: I) {
        self[i] = value;
    }
}

impl<I, const N: usize> ContiguousStorage<I> for [I; N] {
    open spec fn contents(&self) -> Seq<I> {
        self@
    }

    fn storage_len(&self) -> (n: usize) {
        N
    }

    fn storage_index(&self, i: usize) -> (r: &I) {
        array_index_get(self, i)
    }
}

impl<I, const N: usize> ContiguousStorageMut<I> for [I; N] {
    fn storage_set(&mut self, i: usize, value: I) {
        self[i] = value;
    }
}

impl<'a, I> ContiguousStorage<I> for &'a [I] {
    open spec fn contents(&self) -> Seq<I> {
        self@
    }

    fn storage_len(&self) -> (n: usize) {
        self.len()
    }

    fn storage_index(&self, i: usize) -> (r: &I) {
        vstd::slice::slice_index_get(self, i)
    }
}

/// Wrapper that adapts a dynamically sized container to the static index
/// tokens.
///
/// The wrapper owns nothing beyond what it wraps and adds no state of its
/// own; the wrapped container stays reachable through [`SliceWrapper::inner`],
/// [`SliceWrapper::inner_mut`] and [`SliceWrapper::into_inner`].
pub struct SliceWrapper<I, T> {
    /// The wrapped container.
    data: T,
    /// Ties the element type to the wrapper's type, so that the storage
    /// bound can name it.
    element: PhantomData<I>,
}

impl<I, T: ContiguousStorage<I>> SliceWrapper<I, T> {
    /// The elements of the wrapped container, as a sequence.
    pub closed spec fn contents(&self) -> Seq<I> {
        self.data.contents()
    }

    /// Wrap a container. The wrapper holds exactly the container's elements.
    pub fn new(data: T) -> (r: Self)
        ensures
            r.contents() == data.contents(),
    {
        SliceWrapper { data, element: PhantomData }
    }

    /// The wrapped container's current length.
    pub fn len(&self) -> (n: usize)
        ensures
            n as nat == self.contents().len(),
    {
        self.data.storage_len()
    }

    /// A shared borrow of the wrapped container.
    pub fn inner(&self) -> (r: &T)
        ensures
            r.contents() == self.contents(),
    {
        &self.data
    }

    /// A mutable borrow of the wrapped container: everything the container
    /// offers stays available through it, unchanged.
    pub fn inner_mut(&mut self) -> (r: &mut T)
        ensures
            r.contents() == old(self).contents(),
            final(self).contents() == final(r).contents(),
    {
        &mut self.data
    }

    /// Take the wrapped container back out.
    pub fn into_inner(self) -> (r: T)
        ensures
            r.contents() == self.contents(),
    {
        self.data
    }

    /// Read the element at `INDEX`, the index having been proven valid for
    /// the container's current length.
    pub fn index<const INDEX: usize>(&self, _token: StaticIndex<INDEX>) -> (r: &I)
        requires
            index_is_valid(self.contents().len(), INDEX as nat),
        ensures
            *r == self.contents()[INDEX as int],
    {
        self.data.storage_index(INDEX)
    }

    /// Read the element at `INDEX`, checking the index against the
    /// container's current length at the moment of access: `None` exactly
    /// when the index does not fit.
    pub fn try_index<const INDEX: usize>(&self, _token: StaticIndex<INDEX>) -> (r: Option<&I>)
        ensures
            match r {
                Some(v) => index_is_valid(self.contents().len(), INDEX as nat)
                    && *v == self.contents()[INDEX as int],
                None => !index_is_valid(self.contents().len(), INDEX as nat),
            },
    {
        let n = self.data.storage_len();
        if check_index(n, INDEX) {
            Some(self.data.storage_index(INDEX))
        } else {
            None
        }
    }

    /// Read the `LENGTH` elements starting at `START`, the range having been
    /// proven valid for the container's current length. The result holds the
    /// container's elements at `[START, START + LENGTH)`, in order, as an
    /// array whose length is part of its type.
    pub fn range<const START: usize, const LENGTH: usize>(
        &self,
        _token: StaticRangeIndex<START, LENGTH>,
    ) -> (r: [I; LENGTH]) where I: Copy
        requires
            range_is_valid(self.contents().len(), START as nat, LENGTH as nat),
        ensures
            r@ == self.contents().subrange(START as int, START as int + LENGTH as int),
    {
        let n = self.data.storage_len();
        let seed: I = *self.data.storage_index(START);
        let mut out: [I; LENGTH] = [seed; LENGTH];
        for i in 0..LENGTH
            invariant
                n as nat == self.contents().len(),
                range_is_valid(self.contents().len(), START as nat, LENGTH as nat),
                forall|j: int| 0 <= j < i ==> out@[j] == self.contents()[START + j],
        {
            out[i] = *self.data.storage_index(START + i);
        }
        assert(out@ =~= self.contents().subrange(START as int, START as int + LENGTH as int));
        out
    }

    /// Read the `LENGTH` elements starting at `START`, checking the range
    /// against the container's current length at the moment of access:
    /// `None` exactly when the range does not fit.
    pub fn try_range<const START: usize, const LENGTH: usize>(
        &self,
        token: StaticRangeIndex<START, LENGTH>,
    ) -> (r: Option<[I; LENGTH]>) where I: Copy
        ensures
            match r {
                Some(v) => range_is_valid(self.contents().len(), START as nat, LENGTH as nat)
                    && v@ == self.contents().subrange(
                    START as int,
                    START as int + LENGTH as int,
                ),
                None => !range_is_valid(self.contents().len(), START as nat, LENGTH as nat),
            },
    {
        let n = self.data.storage_len();
        if check_range(n, START, LENGTH) {
            Some(self.range(token))
        } else {
            None
        }
    }
}

impl<I, T: ContiguousStorageMut<I>> SliceWrapper<I, T> {
    /// Replace the element at `INDEX`, the index having been proven valid
    /// for the container's current length. Exactly the named element
    /// changes.
    pub fn set_index<const INDEX: usize>(&mut self, _token: StaticIndex<INDEX>, value: I)
        requires
            index_is_valid(old(self).contents().len(), INDEX as nat),
        ensures
            final(self).contents() == old(self).contents().update(INDEX as int, value),
    {
        self.data.storage_set(INDEX, value);
    }

    /// Replace the element at `INDEX`, checking the index against the
    /// container's current length at the moment of access. Returns whether
    /// the write happened; on `false` the container is unchanged.
    pub fn try_set_index<const INDEX: usize>(
        &mut self,
        _token: StaticIndex<INDEX>,
        value: I,
    ) -> (ok: bool)
        ensures
            ok == index_is_valid(old(self).contents().len(), INDEX as nat),
            ok ==> final(self).contents() == old(self).contents().update(INDEX as int, value),
            !ok ==> final(self).contents() == old(self).contents(),
    {
        let n = self.data.storage_len();
        if check_index(n, INDEX) {
            self.data.storage_set(INDEX, value);
            true
        } else {
            false
        }
    }

    /// Replace the `LENGTH` elements starting at `START` with the given
    /// values, the range having been proven valid for the container's
    /// current length. Exactly the elements of the range change, to the
    /// given values in order.
    pub fn set_range<const START: usize, const LENGTH: usize>(
        &mut self,
        _token: StaticRangeIndex<START, LENGTH>,
        values: [I; LENGTH],
    ) where I: Copy
        requires
            range_is_valid(old(self).contents().len(), START as nat, LENGTH as nat),
        ensures
            final(self).contents() == spliced(old(self).contents(), START as int, values@),
    {
        let n = self.data.storage_len();
        for i in 0..LENGTH
            invariant
                n as nat == self.contents().len(),
                self.contents().len() == old(self).contents().len(),
                range_is_valid(old(self).contents().len(), START as nat, LENGTH as nat),
                forall|j: int| 0 <= j < i ==> self.contents()[START + j] == values@[j],
                forall|j: int|
                    0 <= j < self.contents().len() && !(START <= j < START + i)
                        ==> self.contents()[j] == old(self).contents()[j],
        {
            self.data.storage_set(START + i, *array_index_get(&values, i));
        }
        assert(self.contents() =~= spliced(old(self).contents(), START as int, values@));
    }

    /// Replace the `LENGTH` elements starting at `START`, checking the range
    /// against the container's current length at the moment of access.
    /// Returns whether the write happened; on `false` the container is
    /// unchanged.
    pub fn try_set_range<const START: usize, const LENGTH: usize>(
        &mut self,
        token: StaticRangeIndex<START, LENGTH>,
        values: [I; LENGTH],
    ) -> (ok: bool) where I: Copy
        ensures
            ok == range_is_valid(old(self).contents().len(), START as nat, LENGTH as nat),
            ok ==> final(self).contents() == spliced(
                old(self).contents(),
                START as int,
                values@,
            ),
            !ok ==> final(self).contents() == old(self).contents(),
    {
        let n = self.data.storage_len();
        if check_range(n, START, LENGTH) {
            self.set_range(token, values);
            true
        } else {
            false
        }
    }
}

} // verus!
