//! Reference-counted handles to a value that lives in storage owned by the
//! caller, with no heap allocation.
//!
//! A storage owns the value and a count of the handles that refer to it.
//! Handles borrow the storage, so the compiler refuses to move or drop a
//! storage while a handle to it is alive. The count decides whether the
//! storage may hand out exclusive access to its value.
//!
//! Nothing here ends the process. Where the count would leave the range in
//! which it tracks handles (more than `usize::MAX / 2` handles, or a handle
//! released when the count is zero), the count is abandoned instead: it is
//! parked at `protocol::SATURATED`, far from both ends, where it never again
//! reads as zero. The storage then never again grants exclusive access, and
//! since handles borrow it, dropping it stays safe. `abort` is that step.
//! Comparison, ordering and hashing of handles and storages go by the value.
pub mod cmp;
pub mod counter;
pub mod generic_rc;
pub mod protocol;

pub use generic_rc::{
    abort, Inner, PinArc, PinArcStorage, PinRc, PinRcGeneric, PinRcGenericStorage, PinRcStorage,
};
