//! Validated capacities.
//!
//! A capacity is fixed when a container is built and never changes
//! afterwards.  The stored count is bounded by `isize::MAX` so that
//! `capacity * size_of::<T>()` stays within the range of pointer offsets,
//! and it collapses to zero for zero-sized element types, which never
//! allocate.

use vstd::prelude::*;

verus! {

use vstd::layout::size_of;

/// Largest count a capacity may store: `isize::MAX`.
pub const MAX_CAPACITY: usize = isize::MAX as usize;

/// A validated element-count bound for a buffer.
///
/// The stored value is zero whenever the element type is zero-sized: such
/// a buffer owns no allocation, while the container built over it still
/// reports `usize::MAX` available slots.
#[derive(Clone, Copy, Debug, PartialEq, Eq, Structural)]
pub struct Cap(usize);

/// Whether a requested count may be stored for elements of type `T`:
/// always for a zero-sized type (nothing is ever allocated), otherwise
/// only within `isize::MAX`.
pub open spec fn storable<T>(requested: usize) -> bool {
    size_of::<T>() == 0 || requested <= MAX_CAPACITY
}

/// The count that validation stores: zero for a zero-sized element type,
/// the requested count otherwise.
pub open spec fn stored_count<T>(requested: usize) -> usize {
    if size_of::<T>() == 0 {
        0
    } else {
        requested
    }
}

impl Cap {
    /// The stored count.
    pub closed spec fn spec_get(&self) -> usize {
        self.0
    }

    /// Validates a requested count for elements of type `T`.
    ///
    /// A zero-sized element type always validates, to the zero capacity;
    /// any other type validates exactly the counts up to `isize::MAX`.
    pub fn new<T>(requested: usize) -> (r: Option<Cap>)
        ensures
            r is Some <==> storable::<T>(requested),
            r matches Some(c) ==> c.spec_get() == stored_count::<T>(requested),
    {
        if core::mem::size_of::<T>() == 0 {
            Some(Cap(0))
        } else if requested <= MAX_CAPACITY {
            Some(Cap(requested))
        } else {
            None
        }
    }

    /// Stores a count already known to be valid for elements of type `T`.
    pub fn new_unchecked<T>(requested: usize) -> (r: Cap)
        requires
            storable::<T>(requested),
        ensures
            r.spec_get() == stored_count::<T>(requested),
    {
        if core::mem::size_of::<T>() == 0 {
            Cap(0)
        } else {
            Cap(requested)
        }
    }

    /// The stored count as a primitive value.
    pub fn get(self) -> (r: usize)
        ensures
            r == self.spec_get(),
    {
        self.0
    }
}

} // verus!
