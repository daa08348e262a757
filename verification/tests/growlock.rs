//! Construction, append, conversion and locking behaviour of the
//! container.

use growlock::GrowLock;
use growlock::cap::Cap;
use growlock::error::{AllocLayout, LengthError, TryReserveError};
use growlock::guard::TryWriteError;
use std::alloc::System;
use std::collections::HashMap;
use std::rc::Rc;
use std::sync::Arc;
use std::sync::atomic::{AtomicUsize, Ordering};

/// Helper struct whose destructor counts how often it ran.
struct AddOnDrop<'a>(&'a AtomicUsize);
impl Drop for AddOnDrop<'_> {
    fn drop(&mut self) {
        self.0.fetch_add(1, Ordering::Relaxed);
    }
}

struct MyZst;

static ZST_COUNTER: AtomicUsize = AtomicUsize::new(0);
struct AddZst;
impl Drop for AddZst {
    fn drop(&mut self) {
        ZST_COUNTER.fetch_add(1, Ordering::Relaxed);
    }
}

// ------------------- constructors -------------------

/// Drop with different capacities, constructors and types that implement
/// copy.
#[test]
fn new_empty_copy() {
    let _ = GrowLock::<u32>::try_with_capacity(0);
    let _ = GrowLock::<char>::with_capacity(1 << 20);
    let _ = GrowLock::<(i64, usize)>::with_capacity(12);
    let _ = GrowLock::<bool, _>::with_capacity_in(5, System);
    let _ = GrowLock::<[i8; 12], _>::try_with_capacity_in(23, System);
}

/// Drop with different capacities, constructors and types that need drop.
#[test]
fn new_empty_drop_heap() {
    let _ = GrowLock::<String>::try_with_capacity(0);
    let _ = GrowLock::<Vec<u16>>::with_capacity(3);
    let _ = GrowLock::<HashMap<u32, &'static str>>::with_capacity(1 << 30);
    let _ = GrowLock::<Arc<u64>>::with_capacity(46);
    let _ = GrowLock::<Rc<i64>>::with_capacity(46);
}

/// Drop with different capacities, constructors and zero-sized types.
#[test]
fn new_empty_drop_zst() {
    let _ = GrowLock::<()>::with_capacity(0);
    let _ = GrowLock::<MyZst>::try_with_capacity(1 << 60);
    let _ = GrowLock::<(), _>::try_with_capacity_in(isize::MAX as usize, System);
    let v = GrowLock::<MyZst, _>::with_capacity_in(usize::MAX, System);
    assert_eq!(v.capacity(), usize::MAX);
    let stored = Cap::new::<MyZst>(usize::MAX).unwrap();
    assert_eq!(stored.get(), 0);
}

/// Tests if constructing a `GrowLock` from a `Vec` works.
#[test]
fn from_vec() {
    let vec = vec![1u32, 2, 3, 4, 5];
    let lock = GrowLock::from(vec);
    assert_eq!(lock.as_slice(), &[1, 2, 3, 4, 5]);
}

// ------------------- literal-style construction -------------------

/// A container taken over from an array-literal vector is exactly full.
#[test]
fn array_full_macro() {
    let lock: GrowLock<char> = GrowLock::from(vec!['a', 'b', 'c']);
    assert_eq!(lock.as_slice(), &['a', 'b', 'c']);
    assert!(lock.is_full());
}

/// A container filled with a repeated element up to its capacity is
/// exactly full.
#[test]
fn repeat_full_macro() {
    let lock = GrowLock::<String>::with_capacity(4);
    let mut guard = lock.write().unwrap();
    for _ in 0..4 {
        guard.push("hello".to_owned());
    }
    let lock = guard.unlock();
    for s in &lock.as_slice()[..4] {
        assert_eq!(s, "hello");
    }
    assert!(lock.is_full());
}

// ------------------- push -------------------

/// `try_push` should return an error on length overflow.
#[test]
fn try_push_overflow() {
    let lock = GrowLock::with_capacity(5);
    let mut guard = lock.write().unwrap();
    for i in 0..5_i32 {
        assert!(guard.try_push(i).is_ok());
    }
    assert!(guard.try_push(6).is_err());
}

/// After pushing `k` of `c` elements: the length is `k`, the capacity is
/// still `c`, and the first `k` elements are the pushed values in push
/// order.
#[test]
fn push_in_order() {
    let lock = GrowLock::<&str>::with_capacity(10);
    let mut guard = lock.write().unwrap();
    guard.push("a");
    guard.push("b");
    guard.push("c");
    guard.push("d");
    let lock = guard.unlock();
    assert_eq!(lock.len(), 4);
    assert_eq!(lock.capacity(), 10);
    assert_eq!(lock.as_slice(), &["a", "b", "c", "d"]);
    assert!(!lock.is_full());
    assert!(!lock.is_empty());
}

/// The fallible push reports `Full` exactly on the `(capacity+1)`-th
/// attempt and leaves the length unchanged.
#[test]
fn full_is_reported_once_capacity_is_reached() {
    let lock = GrowLock::<u8>::with_capacity(5);
    let mut guard = lock.write().unwrap();
    for i in 0..5_u8 {
        assert_eq!(guard.try_push(i), Ok(()));
    }
    assert_eq!(guard.len(), 5);
    assert_eq!(guard.try_push(99), Err(LengthError));
    assert_eq!(guard.len(), 5);
    assert_eq!(guard.as_slice(), &[0, 1, 2, 3, 4]);
}

/// A zero-sized element type reports the platform maximum capacity and
/// still counts pushes.
#[test]
fn zst_push_advances_length() {
    let lock = GrowLock::<()>::with_capacity(3);
    assert_eq!(lock.capacity(), usize::MAX);
    let mut guard = lock.write().unwrap();
    for _ in 0..5 {
        guard.push(());
    }
    let lock = guard.unlock();
    assert_eq!(lock.len(), 5);
    assert_eq!(lock.capacity(), usize::MAX);
}

/// Bulk append keeps the element order and counts against the capacity.
#[test]
fn extend_appends_in_order() {
    let lock = GrowLock::<&str>::with_capacity(10);
    let mut guard = lock.write().unwrap();
    guard.push("hi");
    guard.extend(vec!["hello", "world"]);
    let lock = guard.unlock();
    assert_eq!(lock.as_slice(), &["hi", "hello", "world"]);
    assert_eq!(lock.len(), 3);
}

// ------------------- test drop -------------------

/// Tests if elements are correctly dropped when the `GrowLock` is
/// dropped.
#[test]
fn initialized_drop() {
    let counter = AtomicUsize::new(0);
    {
        let lock = GrowLock::with_capacity(200);
        let mut guard = lock.write().ok().unwrap();
        for _ in 0..100 {
            guard.push(AddOnDrop(&counter));
        }
        let _lock = guard.unlock();
    }
    assert_eq!(counter.load(Ordering::Relaxed), 100);
}

/// Tests if zero-sized elements are correctly dropped when the
/// `GrowLock` is dropped.
#[test]
fn zst_drop() {
    {
        let lock = GrowLock::with_capacity(200);
        let mut guard = lock.write().ok().unwrap();
        for _ in 0..150 {
            guard.push(AddZst);
        }
        let _lock = guard.unlock();
    }
    assert_eq!(ZST_COUNTER.load(Ordering::Relaxed), 150);
}

// ------------------- read -------------------

/// Tests that the holder of the guard can still read what it wrote.
#[test]
fn read_while_locked() {
    let lock = GrowLock::with_capacity(5);
    let mut guard = lock.write().unwrap();
    guard.push("hi");
    guard.push("there");
    assert_eq!(&guard.as_slice()[0..2], ["hi", "there"]);
    guard.push("still locked");
    let lock = guard.unlock();
    assert_eq!(lock.len(), 3);
}

// ------------------- errors -------------------

/// A capacity whose byte size cannot fit reports `CapacityOverflow`.
#[test]
fn capacity_overflow_reported() {
    let r = GrowLock::<u64>::try_with_capacity(usize::MAX);
    assert!(matches!(r, Err(TryReserveError::CapacityOverflow)));
    let r = GrowLock::<u16>::try_with_capacity(isize::MAX as usize);
    assert!(matches!(r, Err(TryReserveError::CapacityOverflow)));
}

/// A valid layout the allocator declines reports `AllocError` carrying
/// the attempted layout.
#[test]
fn alloc_error_reported() {
    let r = GrowLock::<u8>::try_with_capacity(isize::MAX as usize);
    match r {
        Err(TryReserveError::AllocError(layout)) => {
            assert_eq!(layout.size, isize::MAX as usize);
            assert_eq!(layout.align, 1);
        },
        other => panic!("expected an allocation failure, got {:?}", other.map(|_| ())),
    }
}

/// The error texts.
#[test]
fn error_messages() {
    assert_eq!(
        TryReserveError::CapacityOverflow.message(),
        "memory allocation failed because capacity exceeded maximum"
    );
    let layout = AllocLayout { size: 16, align: 8 };
    let e = TryReserveError::from(layout);
    assert_eq!(e, TryReserveError::AllocError(layout));
    assert_eq!(
        e.message(),
        "memory allocation failed because allocator returned an error"
    );
    assert_eq!(
        LengthError.message(),
        "tried to push to the `GrowLock`, but the `GrowLock` is already full"
    );
}

// ------------------- capacities -------------------

/// Validation accepts counts up to `isize::MAX` for sized element types
/// and collapses every count to zero for zero-sized ones.
#[test]
fn cap_validation() {
    assert_eq!(Cap::new::<u64>(isize::MAX as usize).unwrap().get(), isize::MAX as usize);
    assert!(Cap::new::<u64>(usize::MAX).is_none());
    assert_eq!(Cap::new::<u32>(7).unwrap().get(), 7);
    assert_eq!(Cap::new_unchecked::<u32>(7).get(), 7);
    assert_eq!(Cap::new::<()>(usize::MAX).unwrap().get(), 0);
}
