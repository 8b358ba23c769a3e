//! `Manual`: the capacity changes only when the caller grows or shrinks it.
use crate::components::{DefaultDrain, DefaultIter, Grow, Shrink};
use crate::raw::{array_fits, is_zst, RawSec};
use crate::Sector;
use vstd::prelude::*;

verus! {

/// Leaves the capacity to explicit `grow` and `shrink` calls; writes into a full
/// container hand the element back.
pub struct Manual;

impl DefaultIter for Manual {

}

impl DefaultDrain for Manual {

}

impl Grow for Manual {
    open spec fn grown_cap(cap: nat, old_len: nat, new_len: nat) -> nat {
        cap
    }

    fn grow<T>(buf: &mut RawSec<T>, old_len: usize, new_len: usize) {
    }
}

impl Shrink for Manual {
    open spec fn shrunk_cap(cap: nat, old_len: nat, new_len: nat) -> nat {
        cap
    }

    fn shrink<T>(buf: &mut RawSec<T>, old_len: usize, new_len: usize) {
    }
}

/// How much `shrink(n)` takes off a capacity `cap`: `n`, at most the whole
/// capacity, and nothing for a zero-sized element type.
pub open spec fn manual_shrink_amount<T>(cap: nat, n: nat) -> nat {
    if n == 0 || is_zst::<T>() || cap == 0 {
        0
    } else if n <= cap {
        n
    } else {
        cap
    }
}

impl<T> Sector<Manual, T> {
    /// Appends `elem` if there is room; a full container stays as it was and
    /// hands `elem` back.
    pub fn push(&mut self, elem: T) -> (r: Result<(), T>)
        requires
            old(self).wf(),
        ensures
            final(self).wf(),
            final(self).spec_capacity() == old(self).spec_capacity(),
            old(self)@.len() < old(self).spec_capacity() ==> r is Ok && final(self)@ == old(self)@.push(elem),
            old(self)@.len() >= old(self).spec_capacity() ==> r == Err::<(), T>(elem) && final(self)@ == old(self)@,
    {
        proof {
            old(self).lemma_wf();
        }
        if self.capacity() == self.len() {
            Err(elem)
        } else {
            self.raw_push(elem);
            Ok(())
        }
    }

    /// Removes and returns the last element; the capacity stays.
    pub fn pop(&mut self) -> (r: Option<T>)
        requires
            old(self).wf(),
        ensures
            final(self).wf(),
            final(self).spec_capacity() == old(self).spec_capacity(),
            old(self)@.len() == 0 ==> r is None && final(self)@ == old(self)@,
            old(self)@.len() > 0 ==> r == Some(old(self)@.last()) && final(self)@ == old(self)@.drop_last(),
    {
        self.raw_pop()
    }

    /// Inserts `elem` at `index` if there is room; a full container stays as it
    /// was and hands `elem` back.
    pub fn insert(&mut self, index: usize, elem: T) -> (r: Result<(), T>)
        requires
            old(self).wf(),
            index <= old(self)@.len(),
        ensures
            final(self).wf(),
            final(self).spec_capacity() == old(self).spec_capacity(),
            old(self)@.len() < old(self).spec_capacity() ==> r is Ok && final(self)@ == old(self)@.insert(index as int, elem),
            old(self)@.len() >= old(self).spec_capacity() ==> r == Err::<(), T>(elem) && final(self)@ == old(self)@,
    {
        proof {
            old(self).lemma_wf();
        }
        if self.capacity() == self.len() {
            Err(elem)
        } else {
            self.raw_insert(index, elem);
            Ok(())
        }
    }

    /// Removes and returns the element at `index`, shifting the later elements
    /// left; the capacity stays.
    pub fn remove(&mut self, index: usize) -> (r: T)
        requires
            old(self).wf(),
            index < old(self)@.len(),
        ensures
            final(self).wf(),
            r == old(self)@[index as int],
            final(self)@ == old(self)@.remove(index as int),
            final(self).spec_capacity() == old(self).spec_capacity(),
    {
        self.raw_remove(index)
    }

    /// The element at `index`, or `None` past the end.
    pub fn get(&self, index: usize) -> (r: Option<&T>)
        ensures
            r == if index < self@.len() {
                Some(&self@[index as int])
            } else {
                None::<&T>
            },
    {
        self.raw_get(index)
    }

    /// The element at `index` for writing, or `None` past the end.
    pub fn get_mut(&mut self, index: usize) -> (r: Option<&mut T>)
        ensures
            index >= old(self)@.len() ==> r is None && *final(self) == *old(self),
            index < old(self)@.len() ==> (r matches Some(e) && *e == old(self)@[index as int]
                && final(self)@ == old(self)@.update(index as int, *final(e))
                && final(self).spec_capacity() == old(self).spec_capacity()
                && final(self).wf() == old(self).wf()),
    {
        self.raw_get_mut(index)
    }

    /// Grows the capacity by exactly `cap_to_grow` and returns it, or returns 0
    /// and changes nothing: always for a zero-sized element type, for 0, and for
    /// a capacity that would pass the addressable limit; otherwise when the
    /// allocator fails.
    pub fn grow(&mut self, cap_to_grow: usize) -> (r: usize)
        requires
            old(self).wf(),
        ensures
            final(self).wf(),
            final(self)@ == old(self)@,
            r == 0 || r == cap_to_grow,
            final(self).spec_capacity() == old(self).spec_capacity() + r,
            cap_to_grow == 0 || is_zst::<T>() || !array_fits::<T>(
                old(self).spec_capacity() + cap_to_grow,
            ) ==> r == 0,
    {
        if cap_to_grow == 0 || core::mem::size_of::<T>() == 0 || self.capacity()
            >= isize::MAX as usize {
            proof {
                old(self).lemma_wf();
            }
            return 0;
        }
        match self.raw_try_grow(cap_to_grow) {
            Ok(()) => cap_to_grow,
            Err(_) => 0,
        }
    }

    /// Shrinks the capacity by `cap_to_shrink`, at most down to 0, and returns the
    /// amount. Elements at or past the new capacity are dropped first. A
    /// zero-sized element type, or an empty capacity, gives 0 and no change.
    pub fn shrink(&mut self, cap_to_shrink: usize) -> (r: usize)
        requires
            old(self).wf(),
        ensures
            final(self).wf(),
            r == manual_shrink_amount::<T>(old(self).spec_capacity(), cap_to_shrink as nat),
            final(self).spec_capacity() == old(self).spec_capacity() - r,
            final(self)@ == if old(self)@.len() <= final(self).spec_capacity() {
                old(self)@
            } else {
                old(self)@.take(final(self).spec_capacity() as int)
            },
    {
        proof {
            old(self).lemma_wf();
        }
        if cap_to_shrink == 0 || core::mem::size_of::<T>() == 0 || self.capacity() == 0 {
            return 0;
        }
        let cap = self.capacity();
        let amount = if cap >= cap_to_shrink {
            cap_to_shrink
        } else {
            cap
        };
        let new_cap = cap - amount;
        if new_cap < self.len() {
            self.raw_truncate(new_cap);
        }
        match self.raw_try_shrink(amount) {
            Ok(()) => amount,
            Err(_) => 0,
        }
    }
}

} // verus!
