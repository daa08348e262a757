//! The backing storage of the container.
//!
//! A [`RawGrowLock`] owns the initialized elements, the validated capacity
//! the buffer was sized for, and the allocator capability it was built
//! with.  It knows nothing about locking: the container layer decides who
//! may append.  All layout arithmetic is checked here, so the layers above
//! only ever see a capacity whose byte size fits in `isize::MAX`.

use crate::cap::{Cap, MAX_CAPACITY};
use crate::error::{AllocLayout, TryReserveError};
use vstd::prelude::*;

verus! {

use vstd::layout::size_of;

/// Storage for up to `cap` elements of type `T`, of which the prefix
/// `data` is initialized.
///
/// The allocator capability `alloc` is carried as a value and handed back
/// on decomposition.
#[derive(Debug)]
pub(crate) struct RawGrowLock<T, A> {
    pub(crate) data: Vec<T>,
    pub(crate) cap: Cap,
    pub(crate) alloc: A,
}

impl<T, A> RawGrowLock<T, A> {
    /// Always: a zero-sized element type stores the zero capacity; any
    /// other type keeps `cap * size_of::<T>()` within `isize::MAX`; and
    /// the initialized prefix never exceeds the reported capacity.
    #[verifier::type_invariant]
    pub(crate) open spec fn inv(&self) -> bool {
        &&& if size_of::<T>() == 0 {
            self.cap.spec_get() == 0
        } else {
            self.cap.spec_get() * size_of::<T>() <= MAX_CAPACITY
        }
        &&& self.data@.len() <= self.spec_capacity()
    }

    /// The initialized prefix.
    pub(crate) open spec fn spec_data(&self) -> Seq<T> {
        self.data@
    }

    /// The stored capacity.
    pub(crate) open spec fn spec_cap(&self) -> usize {
        self.cap.spec_get()
    }

    /// The capacity the buffer reports: unbounded (the platform maximum)
    /// for a zero-sized element type, the stored count otherwise.
    pub(crate) open spec fn spec_capacity(&self) -> usize {
        if size_of::<T>() == 0 {
            usize::MAX
        } else {
            self.cap.spec_get()
        }
    }

    /// The allocator capability.
    pub(crate) open spec fn spec_alloc(&self) -> A {
        self.alloc
    }

    /// Builds a buffer for `cap` elements, reporting failure.
    ///
    /// A zero stored capacity never touches the allocator.  Otherwise the
    /// byte layout is computed and checked, and the storage is reserved:
    /// a layout beyond `isize::MAX` bytes is a `CapacityOverflow`, a
    /// declined reservation an `AllocError` carrying the attempted layout.
    pub(crate) fn try_with_capacity_in(cap: Cap, alloc: A) -> (r: Result<Self, TryReserveError>)
        requires
            size_of::<T>() == 0 ==> cap.spec_get() == 0,
            cap.spec_get() <= MAX_CAPACITY,
        ensures
            (r == Err::<Self, TryReserveError>(TryReserveError::CapacityOverflow)) <==> cap.spec_get()
                * size_of::<T>() > MAX_CAPACITY,
            cap.spec_get() == 0 ==> r is Ok,
            r matches Ok(b) ==> b.spec_data() == Seq::<T>::empty() && b.spec_cap()
                == cap.spec_get() && b.spec_alloc() == alloc,
            r matches Err(TryReserveError::AllocError(l)) ==> cap.spec_get() > 0
                && cap.spec_get() * size_of::<T>() <= MAX_CAPACITY && l.size == cap.spec_get()
                * size_of::<T>() && l.align == vstd::layout::align_of::<T>(),
    {
        let count = cap.get();
        if count == 0 {
            return Ok(RawGrowLock { data: Vec::new(), cap, alloc });
        }
        let size = core::mem::size_of::<T>();
        let bytes = match size.checked_mul(count) {
            Some(b) => b,
            None => {
                return Err(TryReserveError::CapacityOverflow);
            },
        };
        if bytes > MAX_CAPACITY {
            return Err(TryReserveError::CapacityOverflow);
        }
        let mut data: Vec<T> = Vec::new();
        match data.try_reserve(count) {
            Ok(()) => Ok(RawGrowLock { data, cap, alloc }),
            Err(_) => Err(
                TryReserveError::AllocError(
                    AllocLayout { size: bytes, align: core::mem::align_of::<T>() },
                ),
            ),
        }
    }

    /// Builds a buffer for `cap` elements whose byte layout is already
    /// known to fit; a declined allocation aborts inside the allocator.
    pub(crate) fn with_capacity_in(cap: Cap, alloc: A) -> (r: Self)
        requires
            size_of::<T>() == 0 ==> cap.spec_get() == 0,
            cap.spec_get() * size_of::<T>() <= MAX_CAPACITY,
        ensures
            r.spec_data() == Seq::<T>::empty(),
            r.spec_cap() == cap.spec_get(),
            r.spec_alloc() == alloc,
    {
        let count = cap.get();
        if count == 0 {
            return RawGrowLock { data: Vec::new(), cap, alloc };
        }
        let data: Vec<T> = Vec::with_capacity(count);
        RawGrowLock { data, cap, alloc }
    }

    /// Reassembles a buffer from an already-initialized prefix, a
    /// validated capacity and an allocator capability.
    pub(crate) fn from_vec_in(data: Vec<T>, cap: Cap, alloc: A) -> (r: Self)
        requires
            size_of::<T>() == 0 ==> cap.spec_get() == 0,
            cap.spec_get() * size_of::<T>() <= MAX_CAPACITY,
            size_of::<T>() != 0 ==> data@.len() <= cap.spec_get(),
        ensures
            r.spec_data() == data@,
            r.spec_cap() == cap.spec_get(),
            r.spec_alloc() == alloc,
    {
        proof {
            vstd::std_specs::vec::axiom_spec_len(&data);
        }
        RawGrowLock { data, cap, alloc }
    }

    /// The number of initialized elements.
    pub(crate) fn len(&self) -> (r: usize)
        ensures
            r == self.spec_data().len(),
            self.spec_data().len() <= self.spec_capacity(),
    {
        proof {
            use_type_invariant(&*self);
        }
        self.data.len()
    }

    /// The capacity the buffer reports: the platform maximum for a
    /// zero-sized element type, the stored count otherwise.
    pub(crate) fn capacity(&self) -> (r: usize)
        ensures
            r == self.spec_capacity(),
    {
        if core::mem::size_of::<T>() == 0 {
            usize::MAX
        } else {
            self.cap.get()
        }
    }

    /// The stored capacity itself.
    pub(crate) fn raw_cap(&self) -> (r: Cap)
        ensures
            r.spec_get() == self.spec_cap(),
    {
        self.cap
    }

    /// The allocator capability.
    pub(crate) fn allocator(&self) -> (r: &A)
        ensures
            *r == self.spec_alloc(),
    {
        &self.alloc
    }

    /// Appends one element to the initialized prefix.
    pub(crate) fn push(&mut self, value: T)
        requires
            old(self).spec_data().len() < old(self).spec_capacity(),
        ensures
            final(self).spec_data() == old(self).spec_data().push(value),
            final(self).spec_cap() == old(self).spec_cap(),
            final(self).spec_alloc() == old(self).spec_alloc(),
    {
        proof {
            use_type_invariant(&*self);
        }
        let mut data: Vec<T> = Vec::new();
        core::mem::swap(&mut data, &mut self.data);
        data.push(value);
        core::mem::swap(&mut data, &mut self.data);
    }
}

} // verus!
