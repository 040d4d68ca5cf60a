//! An owning dynamic array with a fixed layout at the boundary.
//!
//! The array takes ownership of a grown sequence when it is built and gives
//! the elements back to the allocator exactly once, when it is dropped, by
//! dropping the sequence it owns; there is no path that could leak the
//! elements or free them twice.

use vstd::prelude::*;

verus! {

/// An owning dynamic array of elements, built once from a `Vec` and
/// released as a whole when dropped.
#[derive(Debug)]
pub struct RawArray<T> {
    items: Vec<T>,
}

impl<T> View for RawArray<T> {
    type V = Seq<T>;

    closed spec fn view(&self) -> Seq<T> {
        self.items@
    }
}

impl<T> RawArray<T> {
    /// Wraps an owned, contiguous, growable sequence, taking ownership of
    /// its elements.
    pub fn from_vec(vector: Vec<T>) -> (r: Self)
        ensures
            r@ == vector@,
    {
        RawArray { items: vector }
    }

    /// The number of elements held.
    pub fn len(&self) -> (r: usize)
        ensures
            r == self@.len(),
    {
        self.items.len()
    }

    /// Reads the element at `index`.
    pub fn get(&self, index: usize) -> (r: &T)
        requires
            index < self@.len(),
        ensures
            *r == self@[index as int],
    {
        &self.items[index]
    }
}

} // verus!
