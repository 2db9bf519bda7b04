//! Length-carrying buffers that cross the boundary into the bridge.
//!
//! A `NativeBuffer` stands for the contiguous run of elements a caller hands
//! in (text bytes, token ids, handles). It carries its elements by value, so
//! reading it is always safe and its length is exact by construction. The
//! read-only / writable distinction of the boundary protocol is recorded in
//! the buffer itself.

use vstd::prelude::*;

verus! {

/// A contiguous run of elements with an exact length, either read-only or
/// writable, as handed across the boundary.
pub struct NativeBuffer<T> {
    data: Vec<T>,
    writable: bool,
}

impl<T> View for NativeBuffer<T> {
    type V = Seq<T>;

    closed spec fn view(&self) -> Seq<T> {
        self.data@
    }
}

impl<T> NativeBuffer<T> {
    /// Whether the caller is allowed to write through this buffer.
    pub closed spec fn spec_writable(&self) -> bool {
        self.writable
    }

    /// The canonical empty buffer: zero elements, nothing to read.
    pub fn empty() -> (r: Self)
        ensures
            r@ == Seq::<T>::empty(),
            !r.spec_writable(),
    {
        NativeBuffer { data: Vec::new(), writable: false }
    }

    /// A writable buffer that takes over the given elements, for slots the
    /// caller may fill in place.
    pub fn from_mutable_vec(vec: Vec<T>) -> (r: Self)
        ensures
            r@ == vec@,
            r.spec_writable(),
    {
        NativeBuffer { data: vec, writable: true }
    }

    /// The buffer's elements, read back as a slice.
    pub fn as_slice(&self) -> (r: &[T])
        ensures
            r@ == self@,
    {
        self.data.as_slice()
    }

    /// The element at the given position.
    pub fn get(&self, i: usize) -> (r: &T)
        requires
            i < self@.len(),
        ensures
            *r == self@[i as int],
    {
        &self.data[i]
    }

    /// The element count.
    pub fn len(&self) -> (r: usize)
        ensures
            r == self@.len(),
    {
        self.data.len()
    }
}

impl<T: Copy> NativeBuffer<T> {
    /// A read-only buffer over a copy of the given slice.
    pub fn from_slice(slice: &[T]) -> (r: Self)
        ensures
            r@ == slice@,
            !r.spec_writable(),
    {
        NativeBuffer { data: vstd::slice::slice_to_vec(slice), writable: false }
    }

    /// A writable buffer over a copy of the given slice.
    pub fn from_mutable_slice(slice: &mut Vec<T>) -> (r: Self)
        ensures
            r@ == old(slice)@,
            final(slice)@ == old(slice)@,
            r.spec_writable(),
    {
        NativeBuffer { data: vstd::slice::slice_to_vec(slice.as_slice()), writable: true }
    }

    /// A read-only buffer over a copy of the given vector.
    pub fn from_vec(vec: &Vec<T>) -> (r: Self)
        ensures
            r@ == vec@,
            !r.spec_writable(),
    {
        NativeBuffer { data: vstd::slice::slice_to_vec(vec.as_slice()), writable: false }
    }
}

} // verus!
