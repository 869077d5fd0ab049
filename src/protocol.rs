//! The counting protocol on plain values: when a count leaves the range in
//! which it tracks handles, and when it lets a storage grant exclusive access.
use vstd::prelude::*;

verus! {

/// The largest count from which another handle may be counted.
pub const MAX_REFCOUNT: usize = usize::MAX / 2;

/// Where an abandoned count is parked: far above any count of live handles,
/// and far enough from both ends that concurrent steps cannot move it out.
pub const SATURATED: usize = usize::MAX / 4 * 3;

/// The count after one more handle is counted, where `previous` was read.
pub open spec fn count_after_increment(previous: int) -> int {
    if 0 <= previous <= MAX_REFCOUNT {
        previous + 1
    } else {
        SATURATED as int
    }
}

/// The count after one handle is released, where `previous` was read.
pub open spec fn count_after_decrement(previous: int) -> int {
    if 1 <= previous <= MAX_REFCOUNT + 1 {
        previous - 1
    } else {
        SATURATED as int
    }
}

/// Whether a storage whose count is `count` may hand out its value mutably.
pub open spec fn grants_exclusive(count: int) -> bool {
    count == 0
}

/// Whether an increment that read `previous` left the counted range; the
/// count must then be abandoned.
pub fn increment_overflows(previous: usize) -> (r: bool)
    ensures
        r == (previous > MAX_REFCOUNT),
        !r ==> previous + 1 == count_after_increment(previous as int),
        r ==> SATURATED == count_after_increment(previous as int),
    opens_invariants none
    no_unwind
{
    previous > MAX_REFCOUNT
}

/// Whether a decrement that read `previous` left the counted range (the
/// count was zero, so a handle was released twice, or it had already been
/// abandoned); the count must then be abandoned.
pub fn decrement_underflows(previous: usize) -> (r: bool)
    ensures
        r == (previous == 0 || previous > MAX_REFCOUNT + 1),
        !r ==> previous - 1 == count_after_decrement(previous as int),
        r ==> SATURATED == count_after_decrement(previous as int),
    opens_invariants none
    no_unwind
{
    previous == 0 || previous > MAX_REFCOUNT + 1
}

/// Whether a storage whose count reads `count` may hand out its value mutably.
pub fn grants_exclusive_access(count: usize) -> (r: bool)
    ensures
        r == grants_exclusive(count as int),
{
    count == 0
}

/// The number of live handles after `steps`, starting from a fresh storage:
/// a `true` step counts a new handle (created or cloned), a `false` step
/// releases one.
pub open spec fn live_after(steps: Seq<bool>) -> int
    decreases steps.len(),
{
    if steps.len() == 0 {
        0
    } else if steps.last() {
        live_after(steps.drop_last()) + 1
    } else {
        live_after(steps.drop_last()) - 1
    }
}

/// The count after `steps`, starting from the zero a fresh storage holds.
pub open spec fn count_after(steps: Seq<bool>) -> int
    decreases steps.len(),
{
    if steps.len() == 0 {
        0
    } else if steps.last() {
        count_after_increment(count_after(steps.drop_last()))
    } else {
        count_after_decrement(count_after(steps.drop_last()))
    }
}

/// Steps that a program can take: a handle is released only while one is
/// alive, and at most `MAX_REFCOUNT + 1` handles are alive at once.
pub open spec fn feasible(steps: Seq<bool>) -> bool {
    forall|i: int|
        0 <= i <= steps.len() ==> 0 <= #[trigger] live_after(steps.take(i)) <= MAX_REFCOUNT + 1
}

/// Over any feasible sequence of creations, clones and drops, the count
/// equals the number of live handles.
pub proof fn lemma_count_is_live_handles(steps: Seq<bool>)
    requires
        feasible(steps),
    ensures
        count_after(steps) == live_after(steps),
    decreases steps.len(),
{
    if steps.len() > 0 {
        let prefix = steps.drop_last();
        assert forall|i: int| 0 <= i <= prefix.len() implies 0 <= #[trigger] live_after(
            prefix.take(i),
        ) <= MAX_REFCOUNT + 1 by {
            assert(prefix.take(i) =~= steps.take(i));
        }
        lemma_count_is_live_handles(prefix);
        assert(steps.take(steps.len() as int) =~= steps);
        assert(steps.take(prefix.len() as int) =~= prefix);
    }
}

/// Over any feasible sequence of creations, clones and drops, a storage
/// grants exclusive access exactly when no handle to it is alive.
pub proof fn lemma_exclusive_iff_no_live_handle(steps: Seq<bool>)
    requires
        feasible(steps),
    ensures
        grants_exclusive(count_after(steps)) <==> live_after(steps) == 0,
{
    lemma_count_is_live_handles(steps);
}

/// Counting one more handle raises the count by exactly one, and releasing
/// it lowers the count back by exactly one, wherever the count tracks
/// handles.
pub proof fn lemma_clone_then_drop(count: int)
    requires
        0 <= count <= MAX_REFCOUNT,
    ensures
        count_after_increment(count) == count + 1,
        count_after_decrement(count_after_increment(count)) == count,
{
}

/// An abandoned count stays abandoned: it never again reads as zero,
/// whatever steps follow.
pub proof fn lemma_abandoned_count_stays(count: int)
    requires
        count == SATURATED,
    ensures
        count_after_increment(count) == SATURATED,
        count_after_decrement(count) == SATURATED,
        !grants_exclusive(count),
{
}

} // verus!
