//! `Dynamic`: grows by doubling when full and gives memory back once the length
//! falls to half of the capacity.
use crate::components::{
    doubling_cap, grow_doubling, hysteresis_cap, shrink_hysteresis, DefaultDrain, DefaultIter,
    Grow, Shrink,
};
use crate::raw::{array_fits, is_zst, RawSec};
use crate::states::doubled;
use crate::Sector;
use vstd::prelude::*;

verus! {

/// Grows by doubling when full; shrinks to three quarters once the length is at
/// most half of a capacity of at least four.
pub struct Dynamic;

impl DefaultIter for Dynamic {

}

impl DefaultDrain for Dynamic {

}

impl Grow for Dynamic {
    open spec fn grown_cap(cap: nat, old_len: nat, new_len: nat) -> nat {
        doubling_cap(cap, old_len, new_len)
    }

    fn grow<T>(buf: &mut RawSec<T>, old_len: usize, new_len: usize) {
        grow_doubling(buf, old_len, new_len);
    }
}

impl Shrink for Dynamic {
    open spec fn shrunk_cap(cap: nat, old_len: nat, new_len: nat) -> nat {
        hysteresis_cap(cap, new_len)
    }

    fn shrink<T>(buf: &mut RawSec<T>, old_len: usize, new_len: usize) {
        shrink_hysteresis(buf, new_len);
    }
}

impl<T> Sector<Dynamic, T> {
    /// Appends `elem`, doubling the capacity first when the container is full.
    pub fn push(&mut self, elem: T)
        requires
            old(self).wf(),
            old(self)@.len() < old(self).spec_capacity() || (!is_zst::<T>() && array_fits::<T>(
                doubled(old(self).spec_capacity()) as int,
            )),
        ensures
            final(self).wf(),
            final(self)@ == old(self)@.push(elem),
            final(self).spec_capacity() == if old(self)@.len() == old(self).spec_capacity() {
                doubled(old(self).spec_capacity())
            } else {
                old(self).spec_capacity()
            },
    {
        proof {
            old(self).lemma_wf();
        }
        self.raw_push(elem);
    }

    /// Removes and returns the last element, then shrinks by the hysteresis rule.
    pub fn pop(&mut self) -> (r: Option<T>)
        requires
            old(self).wf(),
        ensures
            final(self).wf(),
            old(self)@.len() == 0 ==> r is None && final(self)@ == old(self)@
                && final(self).spec_capacity() == old(self).spec_capacity(),
            old(self)@.len() > 0 ==> r == Some(old(self)@.last()) && final(self)@ == old(
                self,
            )@.drop_last() && final(self).spec_capacity() == if is_zst::<T>() {
                old(self).spec_capacity()
            } else {
                hysteresis_cap(old(self).spec_capacity(), final(self)@.len())
            },
    {
        self.raw_pop()
    }

    /// Inserts `elem` at `index`, shifting the later elements right; grows as
    /// `push` does.
    pub fn insert(&mut self, index: usize, elem: T)
        requires
            old(self).wf(),
            index <= old(self)@.len(),
            old(self)@.len() < old(self).spec_capacity() || (!is_zst::<T>() && array_fits::<T>(
                doubled(old(self).spec_capacity()) as int,
            )),
        ensures
            final(self).wf(),
            final(self)@ == old(self)@.insert(index as int, elem),
            final(self).spec_capacity() == if old(self)@.len() == old(self).spec_capacity() {
                doubled(old(self).spec_capacity())
            } else {
                old(self).spec_capacity()
            },
    {
        proof {
            old(self).lemma_wf();
        }
        self.raw_insert(index, elem);
    }

    /// Removes and returns the element at `index`, shifting the later elements
    /// left, then shrinks by the hysteresis rule.
    pub fn remove(&mut self, index: usize) -> (r: T)
        requires
            old(self).wf(),
            index < old(self)@.len(),
        ensures
            final(self).wf(),
            r == old(self)@[index as int],
            final(self)@ == old(self)@.remove(index as int),
            final(self).spec_capacity() == if is_zst::<T>() {
                old(self).spec_capacity()
            } else {
                hysteresis_cap(old(self).spec_capacity(), final(self)@.len())
            },
    {
        self.raw_remove(index)
    }

    /// The element at `index`, or `None` past the end.
    pub fn get(&self, index: usize) -> (r: Option<&T>)
        ensures
            r == if index < self@.len() {
                Some(&self@[index as int])
            } else {
                None::<&T>
            },
    {
        self.raw_get(index)
    }

    /// The element at `index` for writing, or `None` past the end.
    pub fn get_mut(&mut self, index: usize) -> (r: Option<&mut T>)
        ensures
            index >= old(self)@.len() ==> r is None && *final(self) == *old(self),
            index < old(self)@.len() ==> (r matches Some(e) && *e == old(self)@[index as int]
                && final(self)@ == old(self)@.update(index as int, *final(e))
                && final(self).spec_capacity() == old(self).spec_capacity()
                && final(self).wf() == old(self).wf()),
    {
        self.raw_get_mut(index)
    }
}

} // verus!
