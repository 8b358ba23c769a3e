//! `Fixed`: the capacity set at construction is a ceiling; a write into a full
//! container is refused.
use crate::components::{DefaultDrain, DefaultIter, Grow, Shrink};
use crate::raw::RawSec;
use crate::Sector;
use vstd::prelude::*;

verus! {

/// Never grows nor shrinks; writes into a full container fail. The ceiling is the
/// capacity itself, so for a zero-sized element type it is `usize::MAX`.
pub struct Fixed;

impl DefaultIter for Fixed {

}

impl DefaultDrain for Fixed {

}

impl Grow for Fixed {
    open spec fn grown_cap(cap: nat, old_len: nat, new_len: nat) -> nat {
        cap
    }

    fn grow<T>(buf: &mut RawSec<T>, old_len: usize, new_len: usize) {
    }
}

impl Shrink for Fixed {
    open spec fn shrunk_cap(cap: nat, old_len: nat, new_len: nat) -> nat {
        cap
    }

    fn shrink<T>(buf: &mut RawSec<T>, old_len: usize, new_len: usize) {
    }
}

impl<T> Sector<Fixed, T> {
    /// Appends `elem` if there is room; returns whether it did. A full container
    /// stays as it was.
    pub fn push(&mut self, elem: T) -> (r: bool)
        requires
            old(self).wf(),
        ensures
            final(self).wf(),
            final(self).spec_capacity() == old(self).spec_capacity(),
            r == (old(self)@.len() < old(self).spec_capacity()),
            r ==> final(self)@ == old(self)@.push(elem),
            !r ==> final(self)@ == old(self)@,
    {
        proof {
            old(self).lemma_wf();
        }
        if self.capacity() == self.len() {
            false
        } else {
            self.raw_push(elem);
            true
        }
    }

    /// Removes and returns the last element; the capacity stays.
    pub fn pop(&mut self) -> (r: Option<T>)
        requires
            old(self).wf(),
        ensures
            final(self).wf(),
            final(self).spec_capacity() == old(self).spec_capacity(),
            old(self)@.len() == 0 ==> r is None && final(self)@ == old(self)@,
            old(self)@.len() > 0 ==> r == Some(old(self)@.last()) && final(self)@ == old(
                self,
            )@.drop_last(),
    {
        self.raw_pop()
    }

    /// Inserts `elem` at `index` if there is room; returns whether it did. A full
    /// container stays as it was.
    pub fn insert(&mut self, index: usize, elem: T) -> (r: bool)
        requires
            old(self).wf(),
            index <= old(self)@.len(),
        ensures
            final(self).wf(),
            final(self).spec_capacity() == old(self).spec_capacity(),
            r == (old(self)@.len() < old(self).spec_capacity()),
            r ==> final(self)@ == old(self)@.insert(index as int, elem),
            !r ==> final(self)@ == old(self)@,
    {
        proof {
            old(self).lemma_wf();
        }
        if self.capacity() == self.len() {
            false
        } else {
            self.raw_insert(index, elem);
            true
        }
    }

    /// Removes and returns the element at `index`, shifting the later elements
    /// left; the capacity stays.
    pub fn remove(&mut self, index: usize) -> (r: T)
        requires
            old(self).wf(),
            index < old(self)@.len(),
        ensures
            final(self).wf(),
            r == old(self)@[index as int],
            final(self)@ == old(self)@.remove(index as int),
            final(self).spec_capacity() == old(self).spec_capacity(),
    {
        self.raw_remove(index)
    }

    /// The element at `index`, or `None` past the end.
    pub fn get(&self, index: usize) -> (r: Option<&T>)
        ensures
            r == if index < self@.len() {
                Some(&self@[index as int])
            } else {
                None::<&T>
            },
    {
        self.raw_get(index)
    }

    /// The element at `index` for writing, or `None` past the end.
    pub fn get_mut(&mut self, index: usize) -> (r: Option<&mut T>)
        ensures
            index >= old(self)@.len() ==> r is None && *final(self) == *old(self),
            index < old(self)@.len() ==> (r matches Some(e) && *e == old(self)@[index as int]
                && final(self)@ == old(self)@.update(index as int, *final(e))
                && final(self).spec_capacity() == old(self).spec_capacity()
                && final(self).wf() == old(self).wf()),
    {
        self.raw_get_mut(index)
    }
}

} // verus!
