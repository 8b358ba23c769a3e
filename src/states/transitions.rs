//! Relabelling a container with another state: the buffer, the capacity and the
//! elements move over untouched, and only the policy changes. A transition into
//! `Tight` may leave room beyond the length; the next write corrects it.
use crate::states::{Dynamic, Fixed, Locked, Manual, Normal, Tight};
use crate::Sector;
use vstd::prelude::*;

verus! {

impl<T> Sector<Normal, T> {
    pub fn to_dynamic(self) -> (r: Sector<Dynamic, T>)
        ensures
            r@ == self@,
            r.spec_capacity() == self.spec_capacity(),
            r.wf() == self.wf(),
    {
        self.to_custom()
    }

    pub fn to_fixed(self) -> (r: Sector<Fixed, T>)
        ensures
            r@ == self@,
            r.spec_capacity() == self.spec_capacity(),
            r.wf() == self.wf(),
    {
        self.to_custom()
    }

    pub fn to_tight(self) -> (r: Sector<Tight, T>)
        ensures
            r@ == self@,
            r.spec_capacity() == self.spec_capacity(),
            r.wf() == self.wf(),
    {
        self.to_custom()
    }

    pub fn to_locked(self) -> (r: Sector<Locked, T>)
        ensures
            r@ == self@,
            r.spec_capacity() == self.spec_capacity(),
            r.wf() == self.wf(),
    {
        self.to_custom()
    }

    pub fn to_manual(self) -> (r: Sector<Manual, T>)
        ensures
            r@ == self@,
            r.spec_capacity() == self.spec_capacity(),
            r.wf() == self.wf(),
    {
        self.to_custom()
    }
}

impl<T> Sector<Dynamic, T> {
    pub fn to_normal(self) -> (r: Sector<Normal, T>)
        ensures
            r@ == self@,
            r.spec_capacity() == self.spec_capacity(),
            r.wf() == self.wf(),
    {
        self.to_custom()
    }

    pub fn to_fixed(self) -> (r: Sector<Fixed, T>)
        ensures
            r@ == self@,
            r.spec_capacity() == self.spec_capacity(),
            r.wf() == self.wf(),
    {
        self.to_custom()
    }

    pub fn to_tight(self) -> (r: Sector<Tight, T>)
        ensures
            r@ == self@,
            r.spec_capacity() == self.spec_capacity(),
            r.wf() == self.wf(),
    {
        self.to_custom()
    }

    pub fn to_locked(self) -> (r: Sector<Locked, T>)
        ensures
            r@ == self@,
            r.spec_capacity() == self.spec_capacity(),
            r.wf() == self.wf(),
    {
        self.to_custom()
    }

    pub fn to_manual(self) -> (r: Sector<Manual, T>)
        ensures
            r@ == self@,
            r.spec_capacity() == self.spec_capacity(),
            r.wf() == self.wf(),
    {
        self.to_custom()
    }
}

impl<T> Sector<Fixed, T> {
    pub fn to_normal(self) -> (r: Sector<Normal, T>)
        ensures
            r@ == self@,
            r.spec_capacity() == self.spec_capacity(),
            r.wf() == self.wf(),
    {
        self.to_custom()
    }

    pub fn to_dynamic(self) -> (r: Sector<Dynamic, T>)
        ensures
            r@ == self@,
            r.spec_capacity() == self.spec_capacity(),
            r.wf() == self.wf(),
    {
        self.to_custom()
    }

    pub fn to_tight(self) -> (r: Sector<Tight, T>)
        ensures
            r@ == self@,
            r.spec_capacity() == self.spec_capacity(),
            r.wf() == self.wf(),
    {
        self.to_custom()
    }

    pub fn to_locked(self) -> (r: Sector<Locked, T>)
        ensures
            r@ == self@,
            r.spec_capacity() == self.spec_capacity(),
            r.wf() == self.wf(),
    {
        self.to_custom()
    }

    pub fn to_manual(self) -> (r: Sector<Manual, T>)
        ensures
            r@ == self@,
            r.spec_capacity() == self.spec_capacity(),
            r.wf() == self.wf(),
    {
        self.to_custom()
    }
}

impl<T> Sector<Tight, T> {
    pub fn to_normal(self) -> (r: Sector<Normal, T>)
        ensures
            r@ == self@,
            r.spec_capacity() == self.spec_capacity(),
            r.wf() == self.wf(),
    {
        self.to_custom()
    }

    pub fn to_dynamic(self) -> (r: Sector<Dynamic, T>)
        ensures
            r@ == self@,
            r.spec_capacity() == self.spec_capacity(),
            r.wf() == self.wf(),
    {
        self.to_custom()
    }

    pub fn to_fixed(self) -> (r: Sector<Fixed, T>)
        ensures
            r@ == self@,
            r.spec_capacity() == self.spec_capacity(),
            r.wf() == self.wf(),
    {
        self.to_custom()
    }

    pub fn to_locked(self) -> (r: Sector<Locked, T>)
        ensures
            r@ == self@,
            r.spec_capacity() == self.spec_capacity(),
            r.wf() == self.wf(),
    {
        self.to_custom()
    }

    pub fn to_manual(self) -> (r: Sector<Manual, T>)
        ensures
            r@ == self@,
            r.spec_capacity() == self.spec_capacity(),
            r.wf() == self.wf(),
    {
        self.to_custom()
    }
}

impl<T> Sector<Locked, T> {
    pub fn to_normal(self) -> (r: Sector<Normal, T>)
        ensures
            r@ == self@,
            r.spec_capacity() == self.spec_capacity(),
            r.wf() == self.wf(),
    {
        self.to_custom()
    }

    pub fn to_dynamic(self) -> (r: Sector<Dynamic, T>)
        ensures
            r@ == self@,
            r.spec_capacity() == self.spec_capacity(),
            r.wf() == self.wf(),
    {
        self.to_custom()
    }

    pub fn to_tight(self) -> (r: Sector<Tight, T>)
        ensures
            r@ == self@,
            r.spec_capacity() == self.spec_capacity(),
            r.wf() == self.wf(),
    {
        self.to_custom()
    }

    pub fn to_fixed(self) -> (r: Sector<Fixed, T>)
        ensures
            r@ == self@,
            r.spec_capacity() == self.spec_capacity(),
            r.wf() == self.wf(),
    {
        self.to_custom()
    }

    pub fn to_manual(self) -> (r: Sector<Manual, T>)
        ensures
            r@ == self@,
            r.spec_capacity() == self.spec_capacity(),
            r.wf() == self.wf(),
    {
        self.to_custom()
    }
}

impl<T> Sector<Manual, T> {
    pub fn to_normal(self) -> (r: Sector<Normal, T>)
        ensures
            r@ == self@,
            r.spec_capacity() == self.spec_capacity(),
            r.wf() == self.wf(),
    {
        self.to_custom()
    }

    pub fn to_dynamic(self) -> (r: Sector<Dynamic, T>)
        ensures
            r@ == self@,
            r.spec_capacity() == self.spec_capacity(),
            r.wf() == self.wf(),
    {
        self.to_custom()
    }

    pub fn to_tight(self) -> (r: Sector<Tight, T>)
        ensures
            r@ == self@,
            r.spec_capacity() == self.spec_capacity(),
            r.wf() == self.wf(),
    {
        self.to_custom()
    }

    pub fn to_fixed(self) -> (r: Sector<Fixed, T>)
        ensures
            r@ == self@,
            r.spec_capacity() == self.spec_capacity(),
            r.wf() == self.wf(),
    {
        self.to_custom()
    }

    pub fn to_locked(self) -> (r: Sector<Locked, T>)
        ensures
            r@ == self@,
            r.spec_capacity() == self.spec_capacity(),
            r.wf() == self.wf(),
    {
        self.to_custom()
    }
}

} // verus!
