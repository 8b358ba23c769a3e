//! The growth and shrink policies that each state attaches to a buffer, and the
//! markers that enable draining and consuming iteration.
use crate::raw::{array_fits, is_zst, lemma_array_fits_mono, RawSec};
use vstd::prelude::*;

verus! {

/// Adds `step` to `cap` at least once, and again until `target` is reached.
pub open spec fn step_up(cap: nat, step: nat, target: nat) -> nat
    decreases target - cap,
{
    if step == 0 || cap + step >= target {
        cap + step
    } else {
        step_up(cap + step, step, target)
    }
}

/// `step_up` adds the step at least once.
pub proof fn lemma_step_up_ge(cap: nat, step: nat, target: nat)
    ensures
        step_up(cap, step, target) >= cap + step,
    decreases target - cap,
{
    if step == 0 || cap + step >= target {
    } else {
        lemma_step_up_ge(cap + step, step, target);
    }
}

/// The capacity left by the doubling policy: when the buffer is full, it adds the
/// old length (at least one) repeatedly until the new length fits.
pub open spec fn doubling_cap(cap: nat, old_len: nat, new_len: nat) -> nat {
    if old_len == cap {
        step_up(cap, if old_len == 0 {
            1
        } else {
            old_len
        }, new_len)
    } else {
        cap
    }
}

/// The doubling growth shared by the `Normal` and `Dynamic` states.
pub fn grow_doubling<T>(buf: &mut RawSec<T>, old_len: usize, new_len: usize)
    requires
        old(buf).wf(),
        old(buf)@.len() == old_len,
        old_len <= new_len,
        !is_zst::<T>() ==> array_fits::<T>(
            doubling_cap(old(buf).spec_cap(), old_len as nat, new_len as nat) as int,
        ),
    ensures
        final(buf).wf(),
        final(buf)@ == old(buf)@,
        final(buf).spec_cap() == if is_zst::<T>() {
            old(buf).spec_cap()
        } else {
            doubling_cap(old(buf).spec_cap(), old_len as nat, new_len as nat)
        },
{
    if old_len == buf.cap && core::mem::size_of::<T>() != 0 {
        let step: usize = if old_len == 0 {
            1
        } else {
            old_len
        };
        let ghost target = step_up(buf.cap as nat, step as nat, new_len as nat);
        proof {
            lemma_step_up_ge(buf.cap as nat, step as nat, new_len as nat);
            lemma_array_fits_mono::<T>(buf.cap + step, target as int);
        }
        buf.grow_by(step);
        while buf.cap < new_len
            invariant
                buf.wf(),
                buf@ == old(buf)@,
                step >= 1,
                !is_zst::<T>(),
                array_fits::<T>(target as int),
                buf.cap <= target,
                buf.cap >= new_len ==> buf.cap == target,
                buf.cap < new_len ==> step_up(buf.cap as nat, step as nat, new_len as nat) == target,
            decreases target - buf.cap,
        {
            proof {
                lemma_step_up_ge(buf.cap as nat, step as nat, new_len as nat);
                lemma_array_fits_mono::<T>(buf.cap + step, target as int);
            }
            buf.grow_by(step);
        }
    }
}

/// The capacity left by the hysteresis policy of the `Dynamic` state: once the
/// length is at most half of a capacity of at least four, the capacity drops to
/// three quarters of it (rounded down) plus the remainder of the division by four.
pub open spec fn hysteresis_cap(cap: nat, new_len: nat) -> nat {
    if new_len <= cap / 2 && cap >= 4 {
        cap / 4 * 3 + cap % 4
    } else {
        cap
    }
}

/// The shrinking of the `Dynamic` state.
pub fn shrink_hysteresis<T>(buf: &mut RawSec<T>, new_len: usize)
    requires
        old(buf).wf(),
        old(buf)@.len() == new_len,
    ensures
        final(buf).wf(),
        final(buf)@ == old(buf)@,
        final(buf).spec_cap() == if is_zst::<T>() {
            old(buf).spec_cap()
        } else {
            hysteresis_cap(old(buf).spec_cap(), new_len as nat)
        },
{
    let cap = buf.cap;
    if new_len <= cap / 2 && cap >= 4 && core::mem::size_of::<T>() != 0 {
        let new_cap = cap / 4 * 3 + cap % 4;
        buf.shrink_by(cap - new_cap);
    }
}

/// The capacity left by exact growth: a full buffer gains exactly the missing room.
pub open spec fn exact_grown_cap(cap: nat, old_len: nat, new_len: nat) -> nat {
    if old_len == cap {
        (cap + new_len - old_len) as nat
    } else {
        cap
    }
}

/// The growth of the `Tight` state.
pub fn grow_exact<T>(buf: &mut RawSec<T>, old_len: usize, new_len: usize)
    requires
        old(buf).wf(),
        old(buf)@.len() == old_len,
        old_len <= new_len,
        !is_zst::<T>() ==> array_fits::<T>(
            exact_grown_cap(old(buf).spec_cap(), old_len as nat, new_len as nat) as int,
        ),
    ensures
        final(buf).wf(),
        final(buf)@ == old(buf)@,
        final(buf).spec_cap() == if is_zst::<T>() {
            old(buf).spec_cap()
        } else {
            exact_grown_cap(old(buf).spec_cap(), old_len as nat, new_len as nat)
        },
{
    if old_len == buf.cap && core::mem::size_of::<T>() != 0 {
        buf.grow_by(new_len - old_len);
    }
}

/// The capacity left by exact shrinking: it gives back as much as the length lost.
pub open spec fn exact_shrunk_cap(cap: nat, old_len: nat, new_len: nat) -> nat {
    if old_len > new_len {
        (cap - (old_len - new_len)) as nat
    } else {
        cap
    }
}

/// The shrinking of the `Tight` state.
pub fn shrink_exact<T>(buf: &mut RawSec<T>, old_len: usize, new_len: usize)
    requires
        old(buf).wf(),
        old(buf)@.len() == new_len,
        new_len <= old_len,
        old_len <= old(buf).spec_cap(),
    ensures
        final(buf).wf(),
        final(buf)@ == old(buf)@,
        final(buf).spec_cap() == if is_zst::<T>() {
            old(buf).spec_cap()
        } else {
            exact_shrunk_cap(old(buf).spec_cap(), old_len as nat, new_len as nat)
        },
{
    if old_len > new_len && core::mem::size_of::<T>() != 0 {
        buf.shrink_by(old_len - new_len);
    }
}

/// Decides how much a buffer grows before a write takes its length from `old_len`
/// to `new_len`.
pub trait Grow {
    /// The capacity that growing leaves, for an element type that is not zero-sized.
    spec fn grown_cap(cap: nat, old_len: nat, new_len: nat) -> nat;

    fn grow<T>(buf: &mut RawSec<T>, old_len: usize, new_len: usize)
        requires
            old(buf).wf(),
            old(buf)@.len() == old_len,
            old_len <= new_len,
            !is_zst::<T>() ==> array_fits::<T>(
                Self::grown_cap(old(buf).spec_cap(), old_len as nat, new_len as nat) as int,
            ),
        ensures
            final(buf).wf(),
            final(buf)@ == old(buf)@,
            final(buf).spec_cap() == if is_zst::<T>() {
                old(buf).spec_cap()
            } else {
                Self::grown_cap(old(buf).spec_cap(), old_len as nat, new_len as nat)
            },
    ;
}

/// Decides how much a buffer shrinks after a write took its length from `old_len`
/// down to `new_len`.
pub trait Shrink {
    /// The capacity that shrinking leaves, for an element type that is not zero-sized.
    spec fn shrunk_cap(cap: nat, old_len: nat, new_len: nat) -> nat;

    fn shrink<T>(buf: &mut RawSec<T>, old_len: usize, new_len: usize)
        requires
            old(buf).wf(),
            old(buf)@.len() == new_len,
            new_len <= old_len,
            old_len <= old(buf).spec_cap(),
        ensures
            final(buf).wf(),
            final(buf)@ == old(buf)@,
            final(buf).spec_cap() == if is_zst::<T>() {
                old(buf).spec_cap()
            } else {
                Self::shrunk_cap(old(buf).spec_cap(), old_len as nat, new_len as nat)
            },
    ;
}

/// Marks a state whose containers can be drained.
pub trait DefaultDrain {

}

/// Marks a state whose containers can be consumed by iteration.
pub trait DefaultIter {

}

} // verus!
