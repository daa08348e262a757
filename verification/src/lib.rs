//! A fixed-capacity, append-only sequence container whose already-written
//! prefix can be read at any time, while writers go through an exclusive
//! guard.
//!
//! A [`GrowLock`] is built with an immutable capacity.  Reading the length
//! or the initialized prefix needs no guard; appending does:
//! [`GrowLock::write`] hands the container to a [`guard::GrowGuard`], the
//! only value that may push elements, and releasing the guard hands the
//! container back.  A guard released abnormally leaves the container
//! poisoned, and every later lock attempt reports that.
//!
//! The capacity is validated once, at construction: for a sized element
//! type, `capacity * size_of::<T>()` must fit in `isize::MAX`; a
//! zero-sized element type never allocates and reports `usize::MAX` slots.

pub mod cap;
pub mod error;
pub mod guard;
mod raw;

use crate::cap::{Cap, MAX_CAPACITY};
use crate::error::TryReserveError;
use crate::guard::{GrowGuard, PoisonError, TryWriteError};
use crate::raw::RawGrowLock;
use vstd::prelude::*;

verus! {

use vstd::layout::size_of;

/// The default allocator capability: the global allocator.
#[derive(Clone, Copy, Debug)]
pub struct Global;

/// Whether `requested` elements of type `T` can be given storage: always
/// for a zero-sized type, otherwise only while the total byte size stays
/// within `isize::MAX`.
pub open spec fn valid_capacity<T>(requested: usize) -> bool {
    size_of::<T>() == 0 || requested * size_of::<T>() <= MAX_CAPACITY
}

/// A fixed-capacity, append-only sequence container.
///
/// The initialized prefix is readable at any time; appending needs the
/// exclusive [`GrowGuard`], taken with [`GrowLock::write`] or
/// [`GrowLock::try_write`].  The length never decreases and never exceeds
/// the capacity fixed at construction.
#[derive(Debug)]
pub struct GrowLock<T, A = Global> {
    pub(crate) buf: RawGrowLock<T, A>,
    pub(crate) poisoned: bool,
}

impl<T, A> View for GrowLock<T, A> {
    type V = Seq<T>;

    closed spec fn view(&self) -> Seq<T> {
        self.buf.spec_data()
    }
}

impl<T, A> GrowLock<T, A> {
    /// The capacity the container reports: `usize::MAX` for a zero-sized
    /// element type, the validated bound otherwise.
    pub closed spec fn spec_capacity(&self) -> usize {
        self.buf.spec_capacity()
    }

    /// Whether a previous guard holder released the container abnormally.
    pub closed spec fn is_poisoned(&self) -> bool {
        self.poisoned
    }

    /// The allocator capability the container carries.
    pub closed spec fn spec_allocator(&self) -> A {
        self.buf.spec_alloc()
    }

    /// Whether no element has been appended yet.
    pub fn is_empty(&self) -> (r: bool)
        ensures
            r == (self@.len() == 0),
    {
        self.len() == 0
    }

    /// Whether the initialized prefix has reached the capacity.
    pub fn is_full(&self) -> (r: bool)
        ensures
            r == (self@.len() == self.spec_capacity()),
    {
        self.len() == self.capacity()
    }

    /// The fixed capacity: `usize::MAX` for a zero-sized element type,
    /// the validated bound otherwise.
    pub fn capacity(&self) -> (r: usize)
        ensures
            r == self.spec_capacity(),
            size_of::<T>() == 0 ==> r == usize::MAX,
    {
        self.buf.capacity()
    }

    /// The number of initialized elements; never more than the capacity.
    pub fn len(&self) -> (r: usize)
        ensures
            r == self@.len(),
            self@.len() <= self.spec_capacity(),
    {
        self.buf.len()
    }

    /// The allocator capability.
    pub fn allocator(&self) -> (r: &A)
        ensures
            *r == self.spec_allocator(),
    {
        self.buf.allocator()
    }

    /// The initialized prefix, in push order.
    pub fn as_slice(&self) -> (r: &[T])
        ensures
            r@ == self@,
    {
        self.buf.data.as_slice()
    }

    /// Builds an empty container for `capacity` elements in the given
    /// allocator capability, reporting failure.
    ///
    /// The error is `CapacityOverflow` exactly when the requested byte
    /// size exceeds `isize::MAX`; a declined allocation is an
    /// `AllocError` carrying the attempted layout.  A zero-sized element
    /// type or a zero capacity never allocates and always succeeds.
    pub fn try_with_capacity_in(capacity: usize, alloc: A) -> (r: Result<Self, TryReserveError>)
        ensures
            (r == Err::<Self, TryReserveError>(TryReserveError::CapacityOverflow)) <==> !valid_capacity::<
                T,
            >(capacity),
            r matches Ok(l) ==> l@ == Seq::<T>::empty() && !l.is_poisoned() && (size_of::<T>() == 0
                ==> l.spec_capacity() == usize::MAX) && (size_of::<T>() != 0 ==> l.spec_capacity()
                == capacity) && l.spec_allocator() == alloc,
            r matches Err(TryReserveError::AllocError(l)) ==> valid_capacity::<T>(capacity)
                && size_of::<T>() != 0 && capacity > 0 && l.size == capacity * size_of::<T>()
                && l.align == vstd::layout::align_of::<T>(),
            size_of::<T>() == 0 || capacity == 0 ==> r is Ok,
    {
        let cap = match Cap::new::<T>(capacity) {
            Some(c) => c,
            None => {
                proof {
                    assert(capacity * size_of::<T>() >= capacity) by (nonlinear_arith)
                        requires
                            size_of::<T>() >= 1,
                    ;
                }
                return Err(TryReserveError::CapacityOverflow);
            },
        };
        match RawGrowLock::try_with_capacity_in(cap, alloc) {
            Ok(buf) => Ok(GrowLock { buf, poisoned: false }),
            Err(e) => Err(e),
        }
    }

    /// Builds an empty container for `capacity` elements in the given
    /// allocator capability; the capacity must already be valid, and a
    /// declined allocation aborts inside the allocator.
    pub fn with_capacity_in(capacity: usize, alloc: A) -> (r: Self)
        requires
            valid_capacity::<T>(capacity),
        ensures
            r@ == Seq::<T>::empty(),
            !r.is_poisoned(),
            size_of::<T>() == 0 ==> r.spec_capacity() == usize::MAX,
            size_of::<T>() != 0 ==> r.spec_capacity() == capacity,
            r.spec_allocator() == alloc,
    {
        proof {
            if size_of::<T>() != 0 {
                assert(capacity * size_of::<T>() >= capacity) by (nonlinear_arith)
                    requires
                        size_of::<T>() >= 1,
                ;
            }
        }
        let cap = Cap::new_unchecked::<T>(capacity);
        let buf = RawGrowLock::with_capacity_in(cap, alloc);
        GrowLock { buf, poisoned: false }
    }

    /// Reassembles a container from an already-initialized prefix, a
    /// valid capacity it fits in, and an allocator capability.
    pub fn from_parts_in(data: Vec<T>, capacity: usize, alloc: A) -> (r: Self)
        requires
            valid_capacity::<T>(capacity),
            size_of::<T>() != 0 ==> data@.len() <= capacity,
        ensures
            r@ == data@,
            !r.is_poisoned(),
            size_of::<T>() == 0 ==> r.spec_capacity() == usize::MAX,
            size_of::<T>() != 0 ==> r.spec_capacity() == capacity,
            r.spec_allocator() == alloc,
    {
        proof {
            if size_of::<T>() != 0 {
                assert(capacity * size_of::<T>() >= capacity) by (nonlinear_arith)
                    requires
                        size_of::<T>() >= 1,
                ;
            }
        }
        let cap = Cap::new_unchecked::<T>(capacity);
        let buf = RawGrowLock::from_vec_in(data, cap, alloc);
        GrowLock { buf, poisoned: false }
    }

    /// Takes the lock, consuming the container into a guard.
    ///
    /// On a poisoned container the guard is still produced, but wrapped
    /// in a [`PoisonError`] so the caller must acknowledge the poisoning
    /// before recovering it.
    pub fn write(self) -> (r: Result<GrowGuard<T, A>, PoisonError<T, A>>)
        ensures
            !self.is_poisoned() ==> (r matches Ok(g) && g.spec_lock() == self && g@ == self@
                && g.spec_capacity() == self.spec_capacity() && !g.is_poisoned()
                && g.spec_allocator() == self.spec_allocator()),
            self.is_poisoned() ==> (r matches Err(e) && e.spec_guard().spec_lock() == self
                && e.spec_guard()@ == self@ && e.spec_guard().is_poisoned()
                && e.spec_guard().spec_capacity() == self.spec_capacity()
                && e.spec_guard().spec_allocator() == self.spec_allocator()),
    {
        if self.poisoned {
            Err(PoisonError::new(GrowGuard::new(self)))
        } else {
            Ok(GrowGuard::new(self))
        }
    }

    /// The non-blocking lock attempt.
    ///
    /// Holding the container by value is already exclusive access, so the
    /// attempt never has to wait: it reports either the guard or the
    /// poisoning.
    pub fn try_write(self) -> (r: Result<GrowGuard<T, A>, TryWriteError<T, A>>)
        ensures
            !self.is_poisoned() ==> (r matches Ok(g) && g.spec_lock() == self && g@ == self@
                && g.spec_capacity() == self.spec_capacity() && !g.is_poisoned()
                && g.spec_allocator() == self.spec_allocator()),
            self.is_poisoned() ==> (r matches Err(TryWriteError::Poisoned(e))
                && e.spec_guard().spec_lock() == self && e.spec_guard()@ == self@
                && e.spec_guard().is_poisoned()
                && e.spec_guard().spec_capacity() == self.spec_capacity()
                && e.spec_guard().spec_allocator() == self.spec_allocator()),
    {
        if self.poisoned {
            Err(TryWriteError::Poisoned(PoisonError::new(GrowGuard::new(self))))
        } else {
            Ok(GrowGuard::new(self))
        }
    }

    /// Decomposes the container into its initialized elements, its
    /// reported capacity, and its allocator capability.
    pub fn into_parts_with_alloc(self) -> (r: (Vec<T>, usize, A))
        ensures
            r.0@ == self@,
            r.1 == self.spec_capacity(),
            r.2 == self.spec_allocator(),
    {
        let capacity = self.capacity();
        let GrowLock { buf, poisoned: _ } = self;
        let RawGrowLock { data, cap: _, alloc } = buf;
        (data, capacity, alloc)
    }

    /// Releases the container as a plain vector of its initialized
    /// elements, in push order.
    pub fn into_vec(self) -> (r: Vec<T>)
        ensures
            r@ == self@,
    {
        let parts = self.into_parts_with_alloc();
        parts.0
    }

    /// Appends one element; reachable only through the guard.
    pub(crate) fn push_value(&mut self, value: T)
        requires
            old(self)@.len() < old(self).spec_capacity(),
        ensures
            final(self)@ == old(self)@.push(value),
            final(self).spec_capacity() == old(self).spec_capacity(),
            final(self).is_poisoned() == old(self).is_poisoned(),
            final(self).spec_allocator() == old(self).spec_allocator(),
    {
        self.buf.push(value);
    }

    /// Marks the container poisoned; reachable only through the guard.
    pub(crate) fn mark_poisoned(&mut self)
        ensures
            final(self)@ == old(self)@,
            final(self).spec_capacity() == old(self).spec_capacity(),
            final(self).is_poisoned(),
            final(self).spec_allocator() == old(self).spec_allocator(),
    {
        self.poisoned = true;
    }
}

impl<T> GrowLock<T> {
    /// Builds an empty container for `capacity` elements in the global
    /// allocator, reporting failure as [`GrowLock::try_with_capacity_in`]
    /// does.
    pub fn try_with_capacity(capacity: usize) -> (r: Result<Self, TryReserveError>)
        ensures
            (r == Err::<Self, TryReserveError>(TryReserveError::CapacityOverflow)) <==> !valid_capacity::<
                T,
            >(capacity),
            r matches Ok(l) ==> l@ == Seq::<T>::empty() && !l.is_poisoned() && (size_of::<T>() == 0
                ==> l.spec_capacity() == usize::MAX) && (size_of::<T>() != 0 ==> l.spec_capacity()
                == capacity),
            r matches Err(TryReserveError::AllocError(l)) ==> valid_capacity::<T>(capacity)
                && size_of::<T>() != 0 && capacity > 0 && l.size == capacity * size_of::<T>()
                && l.align == vstd::layout::align_of::<T>(),
            size_of::<T>() == 0 || capacity == 0 ==> r is Ok,
    {
        Self::try_with_capacity_in(capacity, Global)
    }

    /// Builds an empty container for `capacity` elements in the global
    /// allocator; the capacity must already be valid.
    pub fn with_capacity(capacity: usize) -> (r: Self)
        requires
            valid_capacity::<T>(capacity),
        ensures
            r@ == Seq::<T>::empty(),
            !r.is_poisoned(),
            size_of::<T>() == 0 ==> r.spec_capacity() == usize::MAX,
            size_of::<T>() != 0 ==> r.spec_capacity() == capacity,
    {
        Self::with_capacity_in(capacity, Global)
    }

    /// Reassembles a container from an already-initialized prefix and a
    /// valid capacity it fits in, in the global allocator.
    pub fn from_parts(data: Vec<T>, capacity: usize) -> (r: Self)
        requires
            valid_capacity::<T>(capacity),
            size_of::<T>() != 0 ==> data@.len() <= capacity,
        ensures
            r@ == data@,
            !r.is_poisoned(),
            size_of::<T>() == 0 ==> r.spec_capacity() == usize::MAX,
            size_of::<T>() != 0 ==> r.spec_capacity() == capacity,
    {
        Self::from_parts_in(data, capacity, Global)
    }

    /// Takes over a vector without copying: same elements, in order, and
    /// the vector's allocated capacity as the container's bound.
    pub fn from_vec(v: Vec<T>) -> (r: Self)
        ensures
            r@ == v@,
            !r.is_poisoned(),
            v@.len() <= r.spec_capacity(),
            size_of::<T>() == 0 ==> r.spec_capacity() == usize::MAX,
    {
        let capacity = vec_capacity(&v);
        Self::from_parts(v, capacity)
    }

    /// Decomposes the container into its initialized elements and its
    /// reported capacity.
    pub fn into_parts(self) -> (r: (Vec<T>, usize))
        ensures
            r.0@ == self@,
            r.1 == self.spec_capacity(),
    {
        let parts = self.into_parts_with_alloc();
        (parts.0, parts.1)
    }
}

/// Relies on `Vec::capacity`: the allocated slot count is at least the
/// length, is `usize::MAX` for a zero-sized element type, and for a sized
/// element type never exceeds `isize::MAX` bytes in total.
#[verifier::external_body]
fn vec_capacity<T>(v: &Vec<T>) -> (r: usize)
    ensures
        v@.len() <= r,
        size_of::<T>() == 0 ==> r == usize::MAX,
        size_of::<T>() != 0 ==> r * size_of::<T>() <= MAX_CAPACITY,
{
    v.capacity()
}

impl<T> Default for GrowLock<T> {
    /// The empty container of capacity zero.
    fn default() -> (r: Self)
        ensures
            r@ == Seq::<T>::empty(),
            !r.is_poisoned(),
    {
        Self::with_capacity(0)
    }
}

impl<T> From<Vec<T>> for GrowLock<T> {
    /// Takes over the vector as [`GrowLock::from_vec`] does.
    fn from(v: Vec<T>) -> (r: Self) {
        GrowLock::from_vec(v)
    }
}

/// `From` itself carries no specification: the capacity of the result
/// depends on what the allocator handed the vector, which no spec-level
/// function of the vector can express.  [`GrowLock::from_vec`] is the
/// contracted entry point.
impl<T> vstd::std_specs::convert::FromSpecImpl<Vec<T>> for GrowLock<T> {
    open spec fn obeys_from_spec() -> bool {
        false
    }

    open spec fn from_spec(v: Vec<T>) -> Self {
        arbitrary()
    }
}

impl<T, A> From<GrowLock<T, A>> for Vec<T> {
    /// Releases the container as [`GrowLock::into_vec`] does.
    fn from(lock: GrowLock<T, A>) -> (r: Self) {
        lock.into_vec()
    }
}

/// `From` itself carries no specification; [`GrowLock::into_vec`] is the
/// contracted entry point.
impl<T, A> vstd::std_specs::convert::FromSpecImpl<GrowLock<T, A>> for Vec<T> {
    open spec fn obeys_from_spec() -> bool {
        false
    }

    open spec fn from_spec(lock: GrowLock<T, A>) -> Self {
        arbitrary()
    }
}

/// Law: appending only extends.  One pushed element, or a bulk append,
/// leaves every element of the old prefix in place and only lengthens
/// the view: what a reader has already seen can never change or shrink.
pub proof fn lemma_append_preserves_prefix<T>(s: Seq<T>, v: T, vs: Seq<T>)
    ensures
        s.push(v).len() == s.len() + 1,
        forall|i: int| 0 <= i < s.len() ==> s.push(v)[i] == s[i],
        (s + vs).len() == s.len() + vs.len(),
        forall|i: int| 0 <= i < s.len() ==> (s + vs)[i] == s[i],
{
}

/// Law: a freshly built container filled with `values` holds exactly
/// `values`.  Construction gives the empty view and each append extends
/// it, so appending `values` to the empty view must give back `values`
/// itself: same length, same elements, in push order.
pub proof fn lemma_fill_from_empty<T>(values: Seq<T>)
    ensures
        Seq::<T>::empty() + values == values,
{
    assert(Seq::<T>::empty() + values =~= values);
}

} // verus!

