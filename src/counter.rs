//! The counter capability that storages and handles are generic over.
use core::cell::Cell;
use core::sync::atomic::AtomicUsize;
use core::sync::atomic::Ordering;
use radium::Radium;
use vstd::prelude::*;

verus! {

/// `core::cell::Cell`, which holds the unsynchronised counter; opaque here.
#[verifier::external_type_specification]
#[verifier::external_body]
#[verifier::reject_recursive_types(T)]
pub struct ExCell<T: ?Sized>(Cell<T>);

/// A shared counter of live handles.
///
/// Every operation goes through a shared reference: other handles may change
/// the count at any moment, so nothing is promised about the values read.
pub trait Counter: Sized {
    /// A counter that holds `value`.
    fn with_value(value: usize) -> Self;

    /// Reads the count with relaxed ordering.
    fn load_relaxed(&self) -> usize;

    /// Reads the count with acquire ordering.
    fn load_acquire(&self) -> usize;

    /// Adds one, wrapping, with relaxed ordering; returns the previous count.
    fn increment(&self) -> usize;

    /// Overwrites the count with relaxed ordering.
    fn overwrite(&self, value: usize);
}

/// Relies on radium's `Radium::new` for `Cell<usize>`: an unsynchronised
/// counter holding `value`.
#[verifier::external_body]
fn cell_new(value: usize) -> Cell<usize> {
    <Cell<usize> as Radium>::new(value)
}

/// Relies on radium's `Radium::load` for `Cell<usize>`, which ignores the
/// ordering.
#[verifier::external_body]
fn cell_load(c: &Cell<usize>, order: Ordering) -> usize
    requires
        order == Ordering::Relaxed || order == Ordering::Acquire,
{
    <Cell<usize> as Radium>::load(c, order)
}

/// Relies on radium's `Radium::fetch_add` for `Cell<usize>`: a wrapping add that
/// returns the previous value.
#[verifier::external_body]
fn cell_fetch_add(c: &Cell<usize>, value: usize, order: Ordering) -> usize {
    <Cell<usize> as Radium>::fetch_add(c, value, order)
}

/// Relies on radium's `Radium::fetch_sub` for `Cell<usize>`: a wrapping subtraction
/// that returns the previous value and does not panic.
#[verifier::external_body]
pub(crate) fn cell_fetch_sub(c: &Cell<usize>, value: usize, order: Ordering) -> usize
    opens_invariants none
    no_unwind
{
    <Cell<usize> as Radium>::fetch_sub(c, value, order)
}

/// Relies on radium's `Radium::store` for `Cell<usize>`, which ignores the
/// ordering and does not panic.
#[verifier::external_body]
pub(crate) fn cell_store(c: &Cell<usize>, value: usize, order: Ordering)
    requires
        order == Ordering::Relaxed || order == Ordering::Release,
    opens_invariants none
    no_unwind
{
    <Cell<usize> as Radium>::store(c, value, order)
}

impl Counter for Cell<usize> {
    fn with_value(value: usize) -> Self {
        cell_new(value)
    }

    fn load_relaxed(&self) -> usize {
        cell_load(self, Ordering::Relaxed)
    }

    fn load_acquire(&self) -> usize {
        cell_load(self, Ordering::Acquire)
    }

    fn increment(&self) -> usize {
        cell_fetch_add(self, 1, Ordering::Relaxed)
    }

    fn overwrite(&self, value: usize) {
        cell_store(self, value, Ordering::Relaxed)
    }
}

/// Relies on radium's `Radium::new` for `AtomicUsize`: an atomic counter
/// holding `value`.
#[verifier::external_body]
fn atomic_new(value: usize) -> AtomicUsize {
    <AtomicUsize as Radium>::new(value)
}

/// Relies on radium's `Radium::load` for `AtomicUsize`, which panics on a
/// release ordering: the orderings it is given are relaxed or acquire.
#[verifier::external_body]
fn atomic_load(c: &AtomicUsize, order: Ordering) -> usize
    requires
        order == Ordering::Relaxed || order == Ordering::Acquire,
{
    <AtomicUsize as Radium>::load(c, order)
}

/// Relies on radium's `Radium::fetch_add` for `AtomicUsize`: a wrapping add that
/// returns the previous value.
#[verifier::external_body]
fn atomic_fetch_add(c: &AtomicUsize, value: usize, order: Ordering) -> usize {
    <AtomicUsize as Radium>::fetch_add(c, value, order)
}

/// Relies on radium's `Radium::fetch_sub` for `AtomicUsize`: a wrapping subtraction
/// that returns the previous value and does not panic.
#[verifier::external_body]
pub(crate) fn atomic_fetch_sub(c: &AtomicUsize, value: usize, order: Ordering) -> usize
    opens_invariants none
    no_unwind
{
    <AtomicUsize as Radium>::fetch_sub(c, value, order)
}

/// Relies on radium's `Radium::store` for `AtomicUsize`, which panics on an
/// acquire ordering: the orderings it is given are relaxed or release.
#[verifier::external_body]
pub(crate) fn atomic_store(c: &AtomicUsize, value: usize, order: Ordering)
    requires
        order == Ordering::Relaxed || order == Ordering::Release,
    opens_invariants none
    no_unwind
{
    <AtomicUsize as Radium>::store(c, value, order)
}

impl Counter for AtomicUsize {
    fn with_value(value: usize) -> Self {
        atomic_new(value)
    }

    fn load_relaxed(&self) -> usize {
        atomic_load(self, Ordering::Relaxed)
    }

    fn load_acquire(&self) -> usize {
        atomic_load(self, Ordering::Acquire)
    }

    fn increment(&self) -> usize {
        atomic_fetch_add(self, 1, Ordering::Relaxed)
    }

    fn overwrite(&self, value: usize) {
        atomic_store(self, value, Ordering::Relaxed)
    }
}

} // verus!
