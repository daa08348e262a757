//! Exclusive write access to the container.
//!
//! A [`GrowGuard`] is the only value that may append: taking it through
//! [`GrowLock::write`] or [`GrowLock::try_write`] is taking the writer
//! lock, and it owns the container until [`GrowGuard::unlock`] hands the
//! container back.  [`GrowGuard::poison`] releases the container the way
//! an abnormal exit of the holder would: the container comes back marked
//! poisoned, and every later lock attempt reports that.

use crate::error::LengthError;
use crate::{Global, GrowLock};
use vstd::prelude::*;

verus! {

/// The exclusive write guard of a [`GrowLock`].
///
/// While the guard lives, nothing else holds the container, so appends
/// are serialized by construction.  The guard also passes the container's
/// read operations through, letting a writer inspect the current state
/// without releasing its own lock.
#[derive(Debug)]
pub struct GrowGuard<T, A = Global> {
    pub(crate) lock: GrowLock<T, A>,
}

impl<T, A> View for GrowGuard<T, A> {
    type V = Seq<T>;

    closed spec fn view(&self) -> Seq<T> {
        self.lock@
    }
}

impl<T, A> GrowGuard<T, A> {
    /// The container the guard holds.
    pub closed spec fn spec_lock(&self) -> GrowLock<T, A> {
        self.lock
    }

    /// The held container's capacity.
    pub closed spec fn spec_capacity(&self) -> usize {
        self.lock.spec_capacity()
    }

    /// Whether the held container is poisoned.
    pub closed spec fn is_poisoned(&self) -> bool {
        self.lock.is_poisoned()
    }

    /// The held container's allocator capability.
    pub closed spec fn spec_allocator(&self) -> A {
        self.lock.spec_allocator()
    }

    /// Wraps the container; reachable only through the lock operations.
    pub(crate) fn new(lock: GrowLock<T, A>) -> (r: Self)
        ensures
            r.spec_lock() == lock,
            r@ == lock@,
            r.spec_capacity() == lock.spec_capacity(),
            r.is_poisoned() == lock.is_poisoned(),
            r.spec_allocator() == lock.spec_allocator(),
    {
        GrowGuard { lock }
    }

    /// The initialized prefix, in push order.
    pub fn as_slice(&self) -> (r: &[T])
        ensures
            r@ == self@,
    {
        self.lock.as_slice()
    }

    /// Whether no element has been appended yet.
    pub fn is_empty(&self) -> (r: bool)
        ensures
            r == (self@.len() == 0),
    {
        self.lock.is_empty()
    }

    /// Whether the initialized prefix has reached the capacity.
    pub fn is_full(&self) -> (r: bool)
        ensures
            r == (self@.len() == self.spec_capacity()),
    {
        self.lock.is_full()
    }

    /// The held container's fixed capacity.
    pub fn capacity(&self) -> (r: usize)
        ensures
            r == self.spec_capacity(),
    {
        self.lock.capacity()
    }

    /// The number of initialized elements; never more than the capacity.
    pub fn len(&self) -> (r: usize)
        ensures
            r == self@.len(),
            self@.len() <= self.spec_capacity(),
    {
        self.lock.len()
    }

    /// Appends one element; the container must not be full.
    pub fn push(&mut self, value: T)
        requires
            old(self)@.len() < old(self).spec_capacity(),
        ensures
            final(self)@ == old(self)@.push(value),
            final(self).spec_capacity() == old(self).spec_capacity(),
            final(self).is_poisoned() == old(self).is_poisoned(),
            final(self).spec_allocator() == old(self).spec_allocator(),
    {
        self.lock.push_value(value);
    }

    /// Appends one element, or reports that the container is full and
    /// leaves it unchanged.
    pub fn try_push(&mut self, value: T) -> (r: Result<(), LengthError>)
        ensures
            old(self)@.len() < old(self).spec_capacity() ==> r == Ok::<(), LengthError>(())
                && final(self)@ == old(self)@.push(value),
            old(self)@.len() >= old(self).spec_capacity() ==> r == Err::<(), LengthError>(
                LengthError,
            ) && final(self)@ == old(self)@,
            final(self).spec_capacity() == old(self).spec_capacity(),
            final(self).is_poisoned() == old(self).is_poisoned(),
            final(self).spec_allocator() == old(self).spec_allocator(),
    {
        let len = self.len();
        let cap = self.capacity();
        if len >= cap {
            Err(LengthError)
        } else {
            self.lock.push_value(value);
            Ok(())
        }
    }

    /// Appends every element of `values`, in order; they must all fit in
    /// the remaining capacity.
    pub fn extend(&mut self, values: Vec<T>)
        requires
            old(self)@.len() + values@.len() <= old(self).spec_capacity(),
        ensures
            final(self)@ == old(self)@ + values@,
            final(self).spec_capacity() == old(self).spec_capacity(),
            final(self).is_poisoned() == old(self).is_poisoned(),
            final(self).spec_allocator() == old(self).spec_allocator(),
    {
        let ghost init = *self;
        let ghost all = values@;
        let mut rest = values;
        while rest.len() > 0
            invariant
                rest@ == all.subrange(all.len() - rest@.len(), all.len() as int),
                self@ == init@ + all.subrange(0, all.len() - rest@.len()),
                self@.len() + rest@.len() == init@.len() + all.len(),
                self.spec_capacity() == init.spec_capacity(),
                self.is_poisoned() == init.is_poisoned(),
                self.spec_allocator() == init.spec_allocator(),
                init@.len() + all.len() <= self.spec_capacity(),
            decreases rest@.len(),
        {
            let ghost done = all.len() - rest@.len();
            let v = rest.remove(0);
            self.push(v);
            proof {
                assert(self@ == init@ + all.subrange(0, done + 1)) by {
                    assert(all.subrange(0, done).push(all[done]) =~= all.subrange(0, done + 1));
                    assert(init@ + all.subrange(0, done).push(all[done]) =~= (init@ + all.subrange(
                        0,
                        done,
                    )).push(all[done]));
                }
                assert(rest@ =~= all.subrange(all.len() - rest@.len(), all.len() as int));
            }
        }
        proof {
            assert(all.subrange(0, all.len() as int) =~= all);
            assert(self@ == init@ + all);
        }
    }

    /// Releases the lock, handing the container back unchanged.
    pub fn unlock(self) -> (r: GrowLock<T, A>)
        ensures
            r == self.spec_lock(),
            r@ == self@,
            r.spec_capacity() == self.spec_capacity(),
            r.is_poisoned() == self.is_poisoned(),
            r.spec_allocator() == self.spec_allocator(),
    {
        self.lock
    }

    /// Releases the lock the way an abnormal exit of the holder would:
    /// the container comes back poisoned, its elements untouched.
    pub fn poison(self) -> (r: GrowLock<T, A>)
        ensures
            r@ == self@,
            r.spec_capacity() == self.spec_capacity(),
            r.is_poisoned(),
            r.spec_allocator() == self.spec_allocator(),
    {
        let mut lock = self.lock;
        lock.mark_poisoned();
        lock
    }
}

/// The poisoned outcome of a lock attempt.
///
/// A previous holder released the container abnormally, so its state may
/// not be what that writer intended; the guard is still carried along,
/// and [`PoisonError::into_inner`] recovers it once the caller has
/// acknowledged the condition.
#[derive(Debug)]
pub struct PoisonError<T, A = Global> {
    pub(crate) guard: GrowGuard<T, A>,
}

impl<T, A> PoisonError<T, A> {
    /// The guard the error carries.
    pub closed spec fn spec_guard(&self) -> GrowGuard<T, A> {
        self.guard
    }

    /// Wraps a guard; reachable only through the lock operations.
    pub(crate) fn new(guard: GrowGuard<T, A>) -> (r: Self)
        ensures
            r.spec_guard() == guard,
    {
        PoisonError { guard }
    }

    /// Recovers the guard despite the poisoning.
    pub fn into_inner(self) -> (r: GrowGuard<T, A>)
        ensures
            r == self.spec_guard(),
    {
        self.guard
    }
}

/// Error of the non-blocking lock attempt.
#[derive(Debug)]
pub enum TryWriteError<T, A = Global> {
    /// The container is poisoned; the guard is still carried along for
    /// recovery.
    Poisoned(PoisonError<T, A>),
    /// The lock is held elsewhere and the attempt would have had to
    /// wait.  Holding a container by value is already exclusive access,
    /// so [`GrowLock::try_write`] never reports this; the variant stands
    /// for the full set of outcomes a non-blocking attempt can signal.
    WouldBlock,
}

} // verus!
