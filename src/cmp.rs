//! Comparison and hashing of handles and storages go by the value held.
use crate::counter::Counter;
use crate::generic_rc::{PinArc, PinRc, PinRcGenericStorage};
use core::cell::Cell;
use core::cmp::Ordering;
use core::hash::{Hash, Hasher};
use core::sync::atomic::AtomicUsize;
use vstd::prelude::*;
use vstd::std_specs::cmp::{PartialEqSpec, PartialOrdSpec};

verus! {

/// Relies on `Hash::hash` of the value's type: it feeds `value` to `state`.
/// What it feeds is up to that type, so nothing is stated of `state`.
#[verifier::external_body]
fn hash_value<T: Hash, H: Hasher>(value: &T, state: &mut H) {
    value.hash(state)
}

impl<'a, T: Hash> Hash for PinRc<'a, T> {
    fn hash<H: Hasher>(&self, state: &mut H) {
        hash_value(self.get(), state)
    }
}

impl<'a, T: Hash> Hash for PinArc<'a, T> {
    fn hash<H: Hasher>(&self, state: &mut H) {
        hash_value(self.get(), state)
    }
}

impl<T: Hash, C: Counter> Hash for PinRcGenericStorage<T, C> {
    fn hash<H: Hasher>(&self, state: &mut H) {
        hash_value(self.get(), state)
    }
}

impl<'a, T: PartialEq> PartialEq for PinRc<'a, T> {
    fn eq(&self, other: &Self) -> (r: bool) {
        self.get().eq(other.get())
    }
}

impl<'a, T: PartialEq> vstd::std_specs::cmp::PartialEqSpecImpl for PinRc<'a, T> {
    open spec fn obeys_eq_spec() -> bool {
        <T as PartialEqSpec>::obeys_eq_spec()
    }

    open spec fn eq_spec(&self, other: &Self) -> bool {
        self.contents().eq_spec(&other.contents())
    }
}

impl<'a, T: Eq> Eq for PinRc<'a, T> {
}

impl<'a, T: PartialOrd> PartialOrd for PinRc<'a, T> {
    fn partial_cmp(&self, other: &Self) -> (r: Option<Ordering>) {
        self.get().partial_cmp(other.get())
    }
}

impl<'a, T: PartialOrd> vstd::std_specs::cmp::PartialOrdSpecImpl for PinRc<'a, T> {
    open spec fn obeys_partial_cmp_spec() -> bool {
        <T as PartialOrdSpec>::obeys_partial_cmp_spec()
    }

    open spec fn partial_cmp_spec(&self, other: &Self) -> Option<Ordering> {
        self.contents().partial_cmp_spec(&other.contents())
    }
}

impl<'a, T: PartialEq> PartialEq for PinArc<'a, T> {
    fn eq(&self, other: &Self) -> (r: bool) {
        self.get().eq(other.get())
    }
}

impl<'a, T: PartialEq> vstd::std_specs::cmp::PartialEqSpecImpl for PinArc<'a, T> {
    open spec fn obeys_eq_spec() -> bool {
        <T as PartialEqSpec>::obeys_eq_spec()
    }

    open spec fn eq_spec(&self, other: &Self) -> bool {
        self.contents().eq_spec(&other.contents())
    }
}

impl<'a, T: Eq> Eq for PinArc<'a, T> {
}

impl<'a, T: PartialOrd> PartialOrd for PinArc<'a, T> {
    fn partial_cmp(&self, other: &Self) -> (r: Option<Ordering>) {
        self.get().partial_cmp(other.get())
    }
}

impl<'a, T: PartialOrd> vstd::std_specs::cmp::PartialOrdSpecImpl for PinArc<'a, T> {
    open spec fn obeys_partial_cmp_spec() -> bool {
        <T as PartialOrdSpec>::obeys_partial_cmp_spec()
    }

    open spec fn partial_cmp_spec(&self, other: &Self) -> Option<Ordering> {
        self.contents().partial_cmp_spec(&other.contents())
    }
}

impl<T: PartialEq, C: Counter> PartialEq for PinRcGenericStorage<T, C> {
    fn eq(&self, other: &Self) -> (r: bool) {
        self.get().eq(other.get())
    }
}

impl<T: PartialEq, C: Counter> vstd::std_specs::cmp::PartialEqSpecImpl for PinRcGenericStorage<T, C> {
    open spec fn obeys_eq_spec() -> bool {
        <T as PartialEqSpec>::obeys_eq_spec()
    }

    open spec fn eq_spec(&self, other: &Self) -> bool {
        self.contents().eq_spec(&other.contents())
    }
}

impl<T: Eq, C: Counter> Eq for PinRcGenericStorage<T, C> {
}

impl<T: PartialOrd, C: Counter> PartialOrd for PinRcGenericStorage<T, C> {
    fn partial_cmp(&self, other: &Self) -> (r: Option<Ordering>) {
        self.get().partial_cmp(other.get())
    }
}

impl<T: PartialOrd, C: Counter> vstd::std_specs::cmp::PartialOrdSpecImpl for PinRcGenericStorage<T, C> {
    open spec fn obeys_partial_cmp_spec() -> bool {
        <T as PartialOrdSpec>::obeys_partial_cmp_spec()
    }

    open spec fn partial_cmp_spec(&self, other: &Self) -> Option<Ordering> {
        self.contents().partial_cmp_spec(&other.contents())
    }
}

/// Two handles to the same unsynchronised storage compare with each other
/// exactly as the storage's value compares with itself.
pub proof fn lemma_rc_handles_compare_as_value<'a, T: PartialOrd>(
    s: PinRcGenericStorage<T, Cell<usize>>,
    h1: PinRc<'a, T>,
    h2: PinRc<'a, T>,
)
    requires
        h1.contents() == s.contents(),
        h2.contents() == s.contents(),
    ensures
        h1.eq_spec(&h2) == s.contents().eq_spec(&s.contents()),
        h1.eq_spec(&h2) == s.eq_spec(&s),
        h1.partial_cmp_spec(&h2) == s.contents().partial_cmp_spec(&s.contents()),
        h1.partial_cmp_spec(&h2) == s.partial_cmp_spec(&s),
{
}

/// Two handles to the same atomic storage compare with each other exactly as
/// the storage's value compares with itself.
pub proof fn lemma_arc_handles_compare_as_value<'a, T: PartialOrd>(
    s: PinRcGenericStorage<T, AtomicUsize>,
    h1: PinArc<'a, T>,
    h2: PinArc<'a, T>,
)
    requires
        h1.contents() == s.contents(),
        h2.contents() == s.contents(),
    ensures
        h1.eq_spec(&h2) == s.contents().eq_spec(&s.contents()),
        h1.eq_spec(&h2) == s.eq_spec(&s),
        h1.partial_cmp_spec(&h2) == s.contents().partial_cmp_spec(&s.contents()),
        h1.partial_cmp_spec(&h2) == s.partial_cmp_spec(&s),
{
}

} // verus!
