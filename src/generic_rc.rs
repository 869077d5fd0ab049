//! Storages and handles, generic over the counter.
use crate::counter::{atomic_fetch_sub, atomic_store, cell_fetch_sub, cell_store, Counter};
use crate::protocol::{decrement_underflows, grants_exclusive_access, increment_overflows, SATURATED};
use core::cell::Cell;
use core::sync::atomic::AtomicUsize;
use core::sync::atomic::Ordering;
use vstd::prelude::*;

verus! {

/// The record a storage owns: the value and the count of handles to it.
pub struct Inner<T, C: Counter> {
    count: C,
    value: T,
}

/// Abandons `count`: parks it at `SATURATED`, where it no longer tracks
/// handles and never again reads as zero, so that the storage never again
/// grants exclusive access.
pub fn abort<C: Counter>(count: &C) {
    count.overwrite(SATURATED);
}

/// Counts one more handle on `count`, abandoning the count where it leaves
/// the counted range.
fn count_handle<C: Counter>(count: &C) {
    let previous = count.increment();
    if increment_overflows(previous) {
        abort(count);
    }
}

/// Releases one handle on an unsynchronised count, abandoning the count
/// where it leaves the counted range. A handle's drop runs this, and a drop
/// may not unwind: the calls go to the counter directly, not through
/// `Counter`.
fn release_cell(count: &Cell<usize>)
    opens_invariants none
    no_unwind
{
    let previous = cell_fetch_sub(count, 1, Ordering::Release);
    if decrement_underflows(previous) {
        cell_store(count, SATURATED, Ordering::Relaxed);
    }
}

/// Releases one handle on an atomic count, abandoning the count where it
/// leaves the counted range.
fn release_atomic(count: &AtomicUsize)
    opens_invariants none
    no_unwind
{
    let previous = atomic_fetch_sub(count, 1, Ordering::Release);
    if decrement_underflows(previous) {
        atomic_store(count, SATURATED, Ordering::Relaxed);
    }
}

impl<T, C: Counter> Inner<T, C> {
    /// The value held.
    pub closed spec fn contents(&self) -> T {
        self.value
    }

    /// A snapshot of the number of handles, read with relaxed ordering.
    pub fn count(&self) -> usize {
        self.count.load_relaxed()
    }

    /// The value held.
    pub fn value_unpin(&self) -> (r: &T)
        ensures
            *r == self.contents(),
    {
        &self.value
    }

    /// A new handle to this record, counted.
    pub(crate) fn create_handle(&self) -> (r: PinRcGeneric<'_, T, C>)
        ensures
            r.record() == *self,
    {
        count_handle(&self.count);
        PinRcGeneric { inner: self }
    }
}

/// The storage: sole owner of a value and of the count of handles to it.
///
/// Its handles borrow it, so it cannot be moved, mutably borrowed or dropped
/// while one of them is alive.
pub struct PinRcGenericStorage<T, C: Counter> {
    inner: Inner<T, C>,
}

impl<T, C: Counter> PinRcGenericStorage<T, C> {
    /// The record held.
    pub closed spec fn record(&self) -> Inner<T, C> {
        self.inner
    }

    /// The value held.
    pub open spec fn contents(&self) -> T {
        self.record().contents()
    }

    /// A storage holding `value`, with no handle counted.
    pub fn new(value: T) -> (r: Self)
        ensures
            r.contents() == value,
    {
        PinRcGenericStorage { inner: Inner { value, count: C::with_value(0) } }
    }

    /// The value, mutably, where the count reads zero.
    ///
    /// Handles borrow the storage, so none is alive here; the count reads
    /// otherwise only where a handle was forgotten without being dropped, or
    /// where the count was abandoned.
    pub fn get_pin_mut(&mut self) -> (r: Option<&mut T>)
        ensures
            r matches Some(m) ==> *m == old(self).contents()
                && final(self).contents() == *final(m),
            r is None ==> *final(self) == *old(self),
    {
        if grants_exclusive_access(self.inner.count.load_acquire()) {
            Some(&mut self.inner.value)
        } else {
            None
        }
    }

    /// A snapshot of the number of handles to this storage, read with
    /// relaxed ordering: other handles may change it at any moment.
    pub fn ref_count(&self) -> usize {
        self.inner.count()
    }

    /// The record held.
    pub fn inner(&self) -> (r: &Inner<T, C>)
        ensures
            *r == self.record(),
    {
        &self.inner
    }

    /// The value held.
    pub fn get(&self) -> (r: &T)
        ensures
            *r == self.contents(),
    {
        self.inner.value_unpin()
    }
}

/// A counted borrow of a storage's record: what a handle holds, whatever
/// its counter.
pub struct PinRcGeneric<'a, T, C: Counter> {
    inner: &'a Inner<T, C>,
}

impl<'a, T, C: Counter> PinRcGeneric<'a, T, C> {
    /// The record this handle refers to.
    pub closed spec fn record(&self) -> Inner<T, C> {
        *self.inner
    }

    /// The value this handle refers to.
    pub open spec fn contents(&self) -> T {
        self.record().contents()
    }

    /// The record this handle refers to.
    pub fn inner(&self) -> (r: &'a Inner<T, C>)
        ensures
            *r == self.record(),
    {
        self.inner
    }

    /// The value this handle refers to.
    pub fn get(&self) -> (r: &'a T)
        ensures
            *r == self.contents(),
    {
        self.inner.value_unpin()
    }

    /// A snapshot of the number of handles to the same storage, this one
    /// included, read with relaxed ordering.
    pub fn ref_count(&self) -> usize {
        self.inner.count()
    }
}

/// A handle whose count is unsynchronised: for use on one thread.
pub struct PinRc<'a, T> {
    handle: PinRcGeneric<'a, T, Cell<usize>>,
}

/// A handle whose count is atomic: it may be shared with other threads where
/// the value may.
pub struct PinArc<'a, T> {
    handle: PinRcGeneric<'a, T, AtomicUsize>,
}

/// A storage whose count is unsynchronised.
pub type PinRcStorage<T> = PinRcGenericStorage<T, Cell<usize>>;

/// A storage whose count is atomic.
pub type PinArcStorage<T> = PinRcGenericStorage<T, AtomicUsize>;

impl<T> PinRcGenericStorage<T, Cell<usize>> {
    /// A new handle to this storage, counted.
    pub fn create_handle(&self) -> (r: PinRc<'_, T>)
        ensures
            r.contents() == self.contents(),
    {
        PinRc { handle: self.inner.create_handle() }
    }
}

impl<T> PinRcGenericStorage<T, AtomicUsize> {
    /// A new handle to this storage, counted.
    pub fn create_handle(&self) -> (r: PinArc<'_, T>)
        ensures
            r.contents() == self.contents(),
    {
        PinArc { handle: self.inner.create_handle() }
    }
}

impl<'a, T> PinRc<'a, T> {
    /// The value this handle refers to.
    pub closed spec fn contents(&self) -> T {
        self.handle.contents()
    }

    /// The value this handle refers to.
    pub fn get(&self) -> (r: &'a T)
        ensures
            *r == self.contents(),
    {
        self.handle.get()
    }

    /// A snapshot of the number of handles to the same storage, this one
    /// included.
    pub fn ref_count(&self) -> usize {
        self.handle.ref_count()
    }
}

impl<'a, T> PinArc<'a, T> {
    /// The value this handle refers to.
    pub closed spec fn contents(&self) -> T {
        self.handle.contents()
    }

    /// The value this handle refers to.
    pub fn get(&self) -> (r: &'a T)
        ensures
            *r == self.contents(),
    {
        self.handle.get()
    }

    /// A snapshot of the number of handles to the same storage, this one
    /// included.
    pub fn ref_count(&self) -> usize {
        self.handle.ref_count()
    }
}

impl<'a, T> Clone for PinRc<'a, T> {
    /// Another handle to the same storage, counted.
    fn clone(&self) -> (r: Self)
        ensures
            r.contents() == self.contents(),
    {
        PinRc { handle: self.handle.inner.create_handle() }
    }
}

impl<'a, T> Clone for PinArc<'a, T> {
    /// Another handle to the same storage, counted.
    fn clone(&self) -> (r: Self)
        ensures
            r.contents() == self.contents(),
    {
        PinArc { handle: self.handle.inner.create_handle() }
    }
}

impl<'a, T> Drop for PinRc<'a, T> {
    fn drop(&mut self)
        opens_invariants none
        no_unwind
    {
        release_cell(&self.handle.inner.count);
    }
}

impl<'a, T> Drop for PinArc<'a, T> {
    fn drop(&mut self)
        opens_invariants none
        no_unwind
    {
        release_atomic(&self.handle.inner.count);
    }
}

impl<'a, T> core::ops::Deref for PinRc<'a, T> {
    type Target = T;

    fn deref(&self) -> (r: &T)
        ensures
            *r == self.contents(),
    {
        self.handle.get()
    }
}

impl<'a, T> core::ops::Deref for PinArc<'a, T> {
    type Target = T;

    fn deref(&self) -> (r: &T)
        ensures
            *r == self.contents(),
    {
        self.handle.get()
    }
}

impl<T, C: Counter> core::ops::Deref for PinRcGenericStorage<T, C> {
    type Target = T;

    fn deref(&self) -> (r: &T)
        ensures
            *r == self.contents(),
    {
        self.get()
    }
}

// `borrow` returns what `get` returns, whose contract states the value. A
// named result on an impl of the generic `Borrow` is ambiguous to Verus (it
// also matches `impl<T> Borrow<T> for T`), so these impls carry no `ensures`.
impl<'a, T> core::borrow::Borrow<T> for PinRc<'a, T> {
    fn borrow(&self) -> &T {
        self.handle.get()
    }
}

impl<'a, T> core::borrow::Borrow<T> for PinArc<'a, T> {
    fn borrow(&self) -> &T {
        self.handle.get()
    }
}

impl<T, C: Counter> core::borrow::Borrow<T> for PinRcGenericStorage<T, C> {
    fn borrow(&self) -> &T {
        self.get()
    }
}

} // verus!
