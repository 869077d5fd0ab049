use pin_rc::counter::Counter;
use pin_rc::protocol::{
    decrement_underflows, grants_exclusive_access, increment_overflows, MAX_REFCOUNT, SATURATED,
};
use pin_rc::{abort, PinArcStorage, PinRcStorage};
use std::borrow::Borrow;
use std::cell::Cell;
use std::collections::hash_map::DefaultHasher;
use std::hash::{Hash, Hasher};
use std::sync::atomic::{AtomicUsize, Ordering};

#[test]
fn single_rc() {
    let mut x = PinRcStorage::new(1);
    assert_eq!(x.ref_count(), 0);
    let h = x.create_handle();
    assert_eq!(h.ref_count(), 1);
    assert_eq!(*h, 1);
    drop(h);
    assert_eq!(*x.get_pin_mut().unwrap(), 1);
}

#[test]
fn no_rc() {
    PinRcStorage::new(1);
}

#[test]
fn fresh_storage_counts_no_handle() {
    let a = PinRcStorage::new("a");
    let b = PinArcStorage::new(7u64);
    assert_eq!(a.ref_count(), 0);
    assert_eq!(b.ref_count(), 0);
}

#[test]
fn create_handle_counts_one() {
    let s = PinArcStorage::new(42);
    let h = s.create_handle();
    assert_eq!(s.ref_count(), 1);
    assert_eq!(h.ref_count(), 1);
    assert_eq!(*h, 42);
    assert_eq!(*h.get(), 42);
    assert_eq!(*s, 42);
}

#[test]
fn clone_and_drop_move_count_by_one() {
    let s = PinRcStorage::new(5);
    let h1 = s.create_handle();
    let h2 = h1.clone();
    assert_eq!(s.ref_count(), 2);
    let h3 = h2.clone();
    assert_eq!(h1.ref_count(), 3);
    drop(h2);
    assert_eq!(s.ref_count(), 2);
    drop(h1);
    assert_eq!(h3.ref_count(), 1);
    assert_eq!(*h3, 5);
    drop(h3);
    assert_eq!(s.ref_count(), 0);
}

#[test]
fn atomic_clone_and_drop_move_count_by_one() {
    let s = PinArcStorage::new(String::from("v"));
    let h1 = s.create_handle();
    let h2 = h1.clone();
    assert_eq!(s.ref_count(), 2);
    drop(h1);
    assert_eq!(h2.ref_count(), 1);
    assert_eq!(h2.as_str(), "v");
    drop(h2);
    assert_eq!(s.ref_count(), 0);
}

#[test]
fn live_handle_blocks_exclusive_access() {
    let mut s = PinRcStorage::new(3);
    std::mem::forget(s.create_handle());
    assert_eq!(s.ref_count(), 1);
    assert!(s.get_pin_mut().is_none());
}

#[test]
fn exclusive_access_after_last_drop_sees_last_write() {
    let mut s = PinArcStorage::new(1);
    *s.get_pin_mut().unwrap() = 9;
    let h = s.create_handle();
    let h2 = h.clone();
    assert_eq!(*h2, 9);
    drop(h);
    drop(h2);
    let m = s.get_pin_mut().unwrap();
    assert_eq!(*m, 9);
    *m = 10;
    assert_eq!(*s, 10);
}

#[test]
fn handles_compare_as_values() {
    let s = PinRcStorage::new(4);
    let t = PinRcStorage::new(6);
    let a = s.create_handle();
    let b = s.create_handle();
    let c = t.create_handle();
    assert!(a == b);
    assert_eq!(a.partial_cmp(&b), Some(std::cmp::Ordering::Equal));
    assert!(a < c);
    assert!(c > b);
    assert!(s < t);
    assert!(s == PinRcStorage::new(4));
}

#[test]
fn atomic_handles_compare_as_values() {
    let s = PinArcStorage::new(2.5f64);
    let t = PinArcStorage::new(f64::NAN);
    let a = s.create_handle();
    let b = a.clone();
    assert!(a == b);
    let n1 = t.create_handle();
    let n2 = t.create_handle();
    assert!(n1 != n2);
    assert_eq!(n1.partial_cmp(&n2), None);
}

#[test]
fn increment_overflow_threshold() {
    assert!(!increment_overflows(0));
    assert!(!increment_overflows(MAX_REFCOUNT));
    assert!(increment_overflows(MAX_REFCOUNT + 1));
    assert!(increment_overflows(usize::MAX));
    assert_eq!(MAX_REFCOUNT, usize::MAX / 2);
}

#[test]
fn decrement_underflow_threshold() {
    assert!(decrement_underflows(0));
    assert!(!decrement_underflows(1));
    assert!(!decrement_underflows(MAX_REFCOUNT + 1));
    assert!(decrement_underflows(MAX_REFCOUNT + 2));
    assert!(decrement_underflows(SATURATED));
}

#[test]
fn exclusive_access_only_at_zero() {
    assert!(grants_exclusive_access(0));
    assert!(!grants_exclusive_access(1));
    assert!(!grants_exclusive_access(SATURATED));
}

#[test]
fn abort_parks_the_count() {
    let c = Cell::new(3usize);
    abort(&c);
    assert_eq!(c.get(), SATURATED);
    let a = AtomicUsize::new(0);
    abort(&a);
    assert_eq!(a.load(Ordering::Relaxed), SATURATED);
    assert!(SATURATED > MAX_REFCOUNT + 1);
}

#[test]
fn counters_step_by_one() {
    let c = <Cell<usize> as Counter>::with_value(4);
    assert_eq!(c.increment(), 4);
    assert_eq!(c.load_relaxed(), 5);
    assert_eq!(c.load_acquire(), 5);
    c.overwrite(2);
    assert_eq!(c.get(), 2);
    let a = <AtomicUsize as Counter>::with_value(usize::MAX);
    assert_eq!(a.increment(), usize::MAX);
    assert_eq!(a.load_relaxed(), 0);
}

#[test]
fn inner_record_reads() {
    let s = PinRcStorage::new(8);
    let h = s.create_handle();
    assert_eq!(*s.inner().value_unpin(), 8);
    assert_eq!(s.inner().count(), 1);
    drop(h);
    assert_eq!(s.inner().count(), 0);
}

#[test]
fn borrow_reaches_the_value() {
    let s = PinRcStorage::new(11);
    let h = s.create_handle();
    let by_handle: &i32 = h.borrow();
    let by_storage: &i32 = s.borrow();
    assert_eq!(*by_handle, 11);
    assert_eq!(*by_storage, 11);
}

fn hash_of<V: Hash>(v: &V) -> u64 {
    let mut state = DefaultHasher::new();
    v.hash(&mut state);
    state.finish()
}

#[test]
fn handles_hash_as_values() {
    let s = PinRcStorage::new(String::from("key"));
    let a = s.create_handle();
    let b = a.clone();
    assert_eq!(hash_of(&a), hash_of(&String::from("key")));
    assert_eq!(hash_of(&a), hash_of(&b));
    assert_eq!(hash_of(&s), hash_of(&b));
    let t = PinArcStorage::new(17u32);
    let c = t.create_handle();
    assert_eq!(hash_of(&c), hash_of(&17u32));
    assert_ne!(hash_of(&c), hash_of(&18u32));
}

#[test]
fn deref_reads_the_stored_value() {
    let mut s = PinRcStorage::new(1);
    assert_eq!(*s, 1);
    *s.get_pin_mut().unwrap() = 6;
    assert_eq!(*s, 6);
    let h = s.create_handle();
    assert_eq!(*h, 6);
    assert!(std::ptr::eq(&*h, &*s));
}
