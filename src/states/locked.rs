//! `Locked`: a read-only snapshot; only reads and transitions are offered.
use crate::components::{DefaultDrain, DefaultIter, Grow, Shrink};
use crate::raw::RawSec;
use crate::Sector;
use vstd::prelude::*;

verus! {

/// Offers no operation that changes the length or the capacity.
pub struct Locked;

impl DefaultIter for Locked {

}

impl DefaultDrain for Locked {

}

impl Grow for Locked {
    open spec fn grown_cap(cap: nat, old_len: nat, new_len: nat) -> nat {
        cap
    }

    fn grow<T>(buf: &mut RawSec<T>, old_len: usize, new_len: usize) {
    }
}

impl Shrink for Locked {
    open spec fn shrunk_cap(cap: nat, old_len: nat, new_len: nat) -> nat {
        cap
    }

    fn shrink<T>(buf: &mut RawSec<T>, old_len: usize, new_len: usize) {
    }
}

impl<T> Sector<Locked, T> {
    /// The element at `index`, or `None` past the end.
    pub fn get(&self, index: usize) -> (r: Option<&T>)
        ensures
            r == if index < self@.len() {
                Some(&self@[index as int])
            } else {
                None::<&T>
            },
    {
        self.raw_get(index)
    }

    /// The element at `index` for writing, or `None` past the end.
    pub fn get_mut(&mut self, index: usize) -> (r: Option<&mut T>)
        ensures
            index >= old(self)@.len() ==> r is None && *final(self) == *old(self),
            index < old(self)@.len() ==> (r matches Some(e) && *e == old(self)@[index as int]
                && final(self)@ == old(self)@.update(index as int, *final(e))
                && final(self).spec_capacity() == old(self).spec_capacity()
                && final(self).wf() == old(self).wf()),
    {
        self.raw_get_mut(index)
    }
}

} // verus!
