//! Error types surfaced by construction and by the fallible append.

use vstd::prelude::*;

verus! {

/// The byte layout of an allocation request: how many bytes were asked
/// for and at which alignment.
#[derive(Clone, Copy, Debug, PartialEq, Eq, Hash, Structural)]
pub struct AllocLayout {
    /// Total size of the request, in bytes.
    pub size: usize,
    /// Alignment of the request, in bytes.
    pub align: usize,
}

/// Error type for the `try_with_capacity` constructors.
#[derive(Clone, Copy, Debug, PartialEq, Eq, Hash, Structural)]
pub enum TryReserveError {
    /// The requested capacity, in bytes, would exceed `isize::MAX`.
    CapacityOverflow,
    /// The allocator declined a valid request; the layout that failed is
    /// carried along.
    AllocError(AllocLayout),
}

impl TryReserveError {
    /// The text this error prints.
    pub fn message(&self) -> (r: &'static str)
        ensures
            self is CapacityOverflow ==> r@ == "memory allocation failed because capacity exceeded maximum"@,
            self is AllocError ==> r@ == "memory allocation failed because allocator returned an error"@,
    {
        match self {
            TryReserveError::CapacityOverflow => "memory allocation failed because capacity exceeded maximum",
            TryReserveError::AllocError(_) => "memory allocation failed because allocator returned an error",
        }
    }
}

impl From<AllocLayout> for TryReserveError {
    fn from(layout: AllocLayout) -> (r: Self) {
        TryReserveError::AllocError(layout)
    }
}

impl vstd::std_specs::convert::FromSpecImpl<AllocLayout> for TryReserveError {
    open spec fn obeys_from_spec() -> bool {
        true
    }

    open spec fn from_spec(layout: AllocLayout) -> Self {
        TryReserveError::AllocError(layout)
    }
}

/// Error type for the fallible append: the container was already full.
#[derive(Clone, Copy, Debug, PartialEq, Eq, Hash, Default, Structural)]
pub struct LengthError;

impl LengthError {
    /// The text this error prints.
    pub fn message(&self) -> (r: &'static str)
        ensures
            r@ == "tried to push to the `GrowLock`, but the `GrowLock` is already full"@,
    {
        "tried to push to the `GrowLock`, but the `GrowLock` is already full"
    }
}

} // verus!
