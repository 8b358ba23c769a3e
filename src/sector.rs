//! The container: a buffer, its elements, and a state tag with no runtime footprint.
use crate::components::{DefaultDrain, DefaultIter, Grow, Shrink};
use crate::raw::{array_fits, is_zst, lemma_array_fits_mono, RawSec, ReserveError};
use vstd::prelude::*;

verus! {

/// A growable array whose capacity is managed by the policy of `State`.
pub struct Sector<State, T> {
    buf: RawSec<T>,
    _state: core::marker::PhantomData<State>,
}

impl<State, T> View for Sector<State, T> {
    type V = Seq<T>;

    closed spec fn view(&self) -> Seq<T> {
        self.buf@
    }
}

impl<State, T> Sector<State, T> {
    /// The number of elements the current allocation can hold.
    pub closed spec fn spec_capacity(&self) -> nat {
        self.buf.spec_cap()
    }

    /// The length stays within the capacity; a zero-sized element type has the
    /// unbounded capacity `usize::MAX`; otherwise the capacity's array fits the
    /// addressable limit.
    pub closed spec fn wf(&self) -> bool {
        self.buf.wf()
    }

    /// What well-formedness says in terms of the view and the capacity.
    pub proof fn lemma_wf(&self)
        requires
            self.wf(),
        ensures
            self@.len() <= self.spec_capacity(),
            is_zst::<T>() ==> self.spec_capacity() == usize::MAX,
            !is_zst::<T>() ==> array_fits::<T>(self.spec_capacity() as int),
    {
        self.buf.lemma_wf();
    }

    /// The capacity that a request for `n` gives: `n`, or the unbounded capacity
    /// for a zero-sized element type.
    pub open spec fn initial_capacity(n: nat) -> nat {
        if is_zst::<T>() {
            usize::MAX as nat
        } else {
            n
        }
    }

    /// An empty container that has allocated nothing.
    pub fn new() -> (r: Sector<State, T>)
        ensures
            r.wf(),
            r@ == Seq::<T>::empty(),
            r.spec_capacity() == Self::initial_capacity(0),
    {
        Sector { buf: RawSec::new(), _state: core::marker::PhantomData }
    }

    /// An empty container with room for `capacity` elements.
    pub fn with_capacity(capacity: usize) -> (r: Sector<State, T>)
        requires
            is_zst::<T>() || array_fits::<T>(capacity as int),
        ensures
            r.wf(),
            r@ == Seq::<T>::empty(),
            r.spec_capacity() == Self::initial_capacity(capacity as nat),
    {
        Sector { buf: RawSec::with_capacity(capacity), _state: core::marker::PhantomData }
    }

    /// An empty container with room for `capacity` elements, or the layout error
    /// when that many elements would not fit the addressable limit.
    pub fn try_with_capacity(capacity: usize) -> (r: Result<
        Sector<State, T>,
        core::alloc::LayoutError,
    >)
        ensures
            r is Ok <==> (is_zst::<T>() || array_fits::<T>(capacity as int)),
            r matches Ok(s) ==> s.wf() && s@ == Seq::<T>::empty() && s.spec_capacity()
                == Self::initial_capacity(capacity as nat),
    {
        match RawSec::try_with_capacity(capacity) {
            Ok(buf) => Ok(Sector { buf, _state: core::marker::PhantomData }),
            Err(e) => Err(e),
        }
    }

    /// The number of elements.
    pub fn len(&self) -> (r: usize)
        ensures
            r == self@.len(),
    {
        self.buf.items.len()
    }

    /// Whether there are no elements.
    pub fn is_empty(&self) -> (r: bool)
        ensures
            r == (self@.len() == 0),
    {
        self.buf.items.len() == 0
    }

    /// The capacity; `usize::MAX` for a zero-sized element type.
    pub fn capacity(&self) -> (r: usize)
        ensures
            r == self.spec_capacity(),
    {
        self.buf.cap
    }

    /// The elements as a contiguous slice.
    pub fn as_slice(&self) -> (r: &[T])
        ensures
            r@ == self@,
    {
        self.buf.items.as_slice()
    }

    /// Relabels the container with another state; the buffer and the elements
    /// move over untouched.
    pub fn to_custom<Target>(self) -> (r: Sector<Target, T>)
        ensures
            r@ == self@,
            r.spec_capacity() == self.spec_capacity(),
            r.wf() == self.wf(),
    {
        Sector { buf: self.buf, _state: core::marker::PhantomData }
    }
}

impl<State: DefaultDrain, T> Sector<State, T> {
    /// Detaches every element: the container is empty at once and keeps its
    /// capacity, and the returned drain yields the elements.
    pub fn drain(&mut self) -> (d: Drain<'_, T>)
        requires
            old(self).wf(),
        ensures
            final(self).wf(),
            final(self)@ == Seq::<T>::empty(),
            final(self).spec_capacity() == old(self).spec_capacity(),
            d@ == old(self)@,
    {
        let items = self.buf.items.split_off(0);
        Drain { items, _source: core::marker::PhantomData }
    }
}

impl<State: DefaultIter, T> Sector<State, T> {
    /// Consumes the container into an iterator over its elements.
    pub fn into_iter(self) -> (r: IntoIter<T>)
        ensures
            r@ == self@,
    {
        IntoIter { items: self.buf.items }
    }
}

impl<State: Grow + Shrink, T> Sector<State, T> {
    /// The capacity after the policy has made room for one more element.
    pub open spec fn capacity_for_one_more(&self) -> nat {
        if is_zst::<T>() || self@.len() < self.spec_capacity() {
            self.spec_capacity()
        } else {
            State::grown_cap(self.spec_capacity(), self@.len(), self@.len() + 1)
        }
    }

    /// The policy leaves room for one more element, within the addressable limit.
    pub open spec fn can_grow_by_one(&self) -> bool {
        &&& self@.len() < self.capacity_for_one_more()
        &&& !is_zst::<T>() ==> array_fits::<T>(self.capacity_for_one_more() as int)
    }

    /// The capacity after the policy has reacted to the length dropping by one.
    pub open spec fn capacity_for_one_less(&self) -> nat {
        if is_zst::<T>() {
            self.spec_capacity()
        } else {
            State::shrunk_cap(self.spec_capacity(), self@.len(), (self@.len() - 1) as nat)
        }
    }

    /// Appends `elem`, letting the policy grow a full buffer first; the policy's
    /// duty to leave room is part of the precondition, so it is checked statically.
    pub(crate) fn raw_push(&mut self, elem: T)
        requires
            old(self).wf(),
            old(self).can_grow_by_one(),
        ensures
            final(self).wf(),
            final(self)@ == old(self)@.push(elem),
            final(self).spec_capacity() == old(self).capacity_for_one_more(),
    {
        proof {
            self.buf.lemma_wf();
            lemma_array_fits_mono::<T>(self.buf.cap as int, self.buf.cap as int);
        }
        let len = self.buf.items.len();
        if len == self.buf.cap {
            State::grow(&mut self.buf, len, len + 1);
        }
        self.buf.items.push(elem);
    }

    /// Inserts `elem` at `index`, letting the policy grow a full buffer first.
    pub(crate) fn raw_insert(&mut self, index: usize, elem: T)
        requires
            old(self).wf(),
            old(self).can_grow_by_one(),
            index <= old(self)@.len(),
        ensures
            final(self).wf(),
            final(self)@ == old(self)@.insert(index as int, elem),
            final(self).spec_capacity() == old(self).capacity_for_one_more(),
    {
        proof {
            self.buf.lemma_wf();
            lemma_array_fits_mono::<T>(self.buf.cap as int, self.buf.cap as int);
        }
        let len = self.buf.items.len();
        if len == self.buf.cap {
            State::grow(&mut self.buf, len, len + 1);
        }
        self.buf.items.insert(index, elem);
    }

    /// Removes the last element, then lets the policy shrink the buffer.
    pub(crate) fn raw_pop(&mut self) -> (r: Option<T>)
        requires
            old(self).wf(),
        ensures
            final(self).wf(),
            old(self)@.len() == 0 ==> r is None && final(self)@ == old(self)@
                && final(self).spec_capacity() == old(self).spec_capacity(),
            old(self)@.len() > 0 ==> r == Some(old(self)@.last()) && final(self)@ == old(
                self,
            )@.drop_last() && final(self).spec_capacity() == old(self).capacity_for_one_less(),
    {
        proof {
            self.buf.lemma_wf();
        }
        let len = self.buf.items.len();
        if len == 0 {
            None
        } else {
            let r = self.buf.items.pop();
            State::shrink(&mut self.buf, len, len - 1);
            r
        }
    }

    /// Removes the element at `index`, then lets the policy shrink the buffer.
    pub(crate) fn raw_remove(&mut self, index: usize) -> (r: T)
        requires
            old(self).wf(),
            index < old(self)@.len(),
        ensures
            final(self).wf(),
            r == old(self)@[index as int],
            final(self)@ == old(self)@.remove(index as int),
            final(self).spec_capacity() == old(self).capacity_for_one_less(),
    {
        proof {
            self.buf.lemma_wf();
        }
        let len = self.buf.items.len();
        let r = self.buf.items.remove(index);
        State::shrink(&mut self.buf, len, len - 1);
        r
    }
}

impl<State, T> Sector<State, T> {
    /// The element at `index`, or `None` past the end.
    pub(crate) fn raw_get(&self, index: usize) -> (r: Option<&T>)
        ensures
            r == if index < self@.len() {
                Some(&self@[index as int])
            } else {
                None::<&T>
            },
    {
        if index < self.buf.items.len() {
            Some(&self.buf.items[index])
        } else {
            None
        }
    }

    /// Grows the capacity by `delta` through the fallible primitive.
    pub(crate) fn raw_try_grow(&mut self, delta: usize) -> (r: Result<(), ReserveError>)
        requires
            old(self).wf(),
        ensures
            final(self).wf(),
            final(self)@ == old(self)@,
            is_zst::<T>() ==> r is Err,
            !is_zst::<T>() && delta > 0 && !array_fits::<T>(old(self).spec_capacity() + delta)
                ==> r is Err,
            r is Ok ==> final(self).spec_capacity() == old(self).spec_capacity() + delta,
            r is Err ==> final(self).spec_capacity() == old(self).spec_capacity(),
    {
        self.buf.try_grow_by(delta)
    }

    /// Shrinks the capacity by `delta`, which leaves room for the elements.
    pub(crate) fn raw_try_shrink(&mut self, delta: usize) -> (r: Result<(), ReserveError>)
        requires
            old(self).wf(),
            !is_zst::<T>(),
            old(self)@.len() + delta <= old(self).spec_capacity(),
        ensures
            final(self).wf(),
            final(self)@ == old(self)@,
            r is Ok,
            final(self).spec_capacity() == old(self).spec_capacity() - delta,
    {
        self.buf.try_shrink_by(delta)
    }

    /// Drops every element from `new_len` on.
    pub(crate) fn raw_truncate(&mut self, new_len: usize)
        requires
            old(self).wf(),
            new_len <= old(self)@.len(),
        ensures
            final(self).wf(),
            final(self)@ == old(self)@.take(new_len as int),
            final(self).spec_capacity() == old(self).spec_capacity(),
    {
        self.buf.items.truncate(new_len);
    }

    /// The element at `index` for writing, or `None` past the end.
    pub(crate) fn raw_get_mut(&mut self, index: usize) -> (r: Option<&mut T>)
        ensures
            index >= old(self)@.len() ==> r is None && *final(self) == *old(self),
            index < old(self)@.len() ==> (r matches Some(e) && *e == old(self)@[index as int]
                && final(self)@ == old(self)@.update(index as int, *final(e))
                && final(self).spec_capacity() == old(self).spec_capacity()
                && final(self).wf() == old(self).wf()),
    {
        if index < self.buf.items.len() {
            Some(&mut self.buf.items[index])
        } else {
            None
        }
    }
}

impl<State, T> core::ops::Deref for Sector<State, T> {
    type Target = [T];

    fn deref(&self) -> (r: &[T])
        ensures
            r@ == self@,
    {
        self.buf.items.as_slice()
    }
}

impl<State, T> core::ops::DerefMut for Sector<State, T> {
    fn deref_mut(&mut self) -> (r: &mut [T])
        ensures
            r@ == old(self)@,
            final(self)@ == final(r)@,
            final(self).spec_capacity() == old(self).spec_capacity(),
    {
        self.buf.items.as_mut_slice()
    }
}

/// Yields the elements detached from a container, from either end, while the
/// container stays borrowed. Whatever it has not yielded is dropped with it; the
/// container is already empty, so nothing is dropped twice even if the drain is
/// leaked.
pub struct Drain<'a, T> {
    items: Vec<T>,
    _source: core::marker::PhantomData<&'a mut Vec<T>>,
}

impl<'a, T> View for Drain<'a, T> {
    type V = Seq<T>;

    closed spec fn view(&self) -> Seq<T> {
        self.items@
    }
}

impl<'a, T> Drain<'a, T> {
    /// Takes the first element left, or `None` when none is left.
    pub fn next(&mut self) -> (r: Option<T>)
        ensures
            old(self)@.len() == 0 ==> r is None && final(self)@ == old(self)@,
            old(self)@.len() > 0 ==> r == Some(old(self)@[0]) && final(self)@ == old(
                self,
            )@.drop_first(),
    {
        if self.items.len() == 0 {
            None
        } else {
            Some(self.items.remove(0))
        }
    }

    /// Takes the last element left, or `None` when none is left.
    pub fn next_back(&mut self) -> (r: Option<T>)
        ensures
            old(self)@.len() == 0 ==> r is None && final(self)@ == old(self)@,
            old(self)@.len() > 0 ==> r == Some(old(self)@.last()) && final(self)@ == old(
                self,
            )@.drop_last(),
    {
        self.items.pop()
    }

    /// The exact number of elements left, as both bounds.
    pub fn size_hint(&self) -> (r: (usize, Option<usize>))
        ensures
            r == (self@.len() as usize, Some(self@.len() as usize)),
    {
        let n = self.items.len();
        (n, Some(n))
    }
}

/// Yields the elements of a consumed container, from either end. Whatever it
/// has not yielded is dropped with it, and so is the allocation.
pub struct IntoIter<T> {
    items: Vec<T>,
}

impl<T> View for IntoIter<T> {
    type V = Seq<T>;

    closed spec fn view(&self) -> Seq<T> {
        self.items@
    }
}

impl<T> IntoIter<T> {
    /// Takes the first element left, or `None` when none is left.
    pub fn next(&mut self) -> (r: Option<T>)
        ensures
            old(self)@.len() == 0 ==> r is None && final(self)@ == old(self)@,
            old(self)@.len() > 0 ==> r == Some(old(self)@[0]) && final(self)@ == old(
                self,
            )@.drop_first(),
    {
        if self.items.len() == 0 {
            None
        } else {
            Some(self.items.remove(0))
        }
    }

    /// Takes the last element left, or `None` when none is left.
    pub fn next_back(&mut self) -> (r: Option<T>)
        ensures
            old(self)@.len() == 0 ==> r is None && final(self)@ == old(self)@,
            old(self)@.len() > 0 ==> r == Some(old(self)@.last()) && final(self)@ == old(
                self,
            )@.drop_last(),
    {
        self.items.pop()
    }

    /// The exact number of elements left, as both bounds.
    pub fn size_hint(&self) -> (r: (usize, Option<usize>))
        ensures
            r == (self@.len() as usize, Some(self@.len() as usize)),
    {
        let n = self.items.len();
        (n, Some(n))
    }
}

} // verus!
