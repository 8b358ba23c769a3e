use vstd::layout::size_of;
use vstd::prelude::*;

verus! {

#[verifier::external_type_specification]
#[verifier::external_body]
pub struct ExLayout(core::alloc::Layout);

#[verifier::external_type_specification]
#[verifier::external_body]
pub struct ExLayoutError(core::alloc::LayoutError);

/// True when the element type occupies no memory.
pub open spec fn is_zst<T>() -> bool {
    size_of::<T>() == 0
}

/// True when an array of `n` elements of `T` stays within the addressable limit.
pub open spec fn array_fits<T>(n: int) -> bool {
    n * size_of::<T>() <= isize::MAX
}

/// An array that fits has a fitting prefix; for a sized type its length fits in `isize`.
pub proof fn lemma_array_fits_mono<T>(a: int, b: int)
    requires
        0 <= a,
        array_fits::<T>(b),
        a <= b,
    ensures
        array_fits::<T>(a),
        !is_zst::<T>() ==> b <= isize::MAX,
{
    let s = size_of::<T>();
    assert(a * s <= b * s) by (nonlinear_arith)
        requires
            0 <= a <= b,
    ;
    if s != 0 {
        assert(b <= b * s) by (nonlinear_arith)
            requires
                s >= 1,
                b >= 0,
        ;
    }
}

/// The two ways a reservation can fail.
#[derive(Debug, Clone, Copy, PartialEq, Eq, Structural)]
pub enum ReserveError {
    /// The requested capacity overflows `usize` or the addressable limit.
    CapacityOverflow,
    /// The allocator could not provide the memory.
    AllocError,
}

/// Relies on `Layout::array`: it fails exactly when `n` elements of `T` take more
/// than `isize::MAX` bytes.
#[verifier::external_body]
fn array_layout<T>(n: usize) -> (r: Result<core::alloc::Layout, core::alloc::LayoutError>)
    ensures
        r is Ok <==> array_fits::<T>(n as int),
{
    core::alloc::Layout::array::<T>(n)
}

/// Relies on `Vec::reserve_exact`: the contents stay; it panics only when the new
/// capacity overflows `usize` or exceeds `isize::MAX` bytes, and aborts when the
/// allocator fails.
#[verifier::external_body]
fn reserve_exact<T>(v: &mut Vec<T>, additional: usize)
    requires
        old(v)@.len() + additional <= usize::MAX,
        array_fits::<T>(old(v)@.len() + additional),
    ensures
        final(v)@ == old(v)@,
{
    v.reserve_exact(additional)
}

/// Relies on `Vec::try_reserve_exact`: the contents stay, whether or not it succeeds.
#[verifier::external_body]
fn try_reserve_exact<T>(v: &mut Vec<T>, additional: usize) -> (r: Result<
    (),
    std::collections::TryReserveError,
>)
    ensures
        final(v)@ == old(v)@,
{
    v.try_reserve_exact(additional)
}

/// Relies on `Vec::shrink_to`: the contents stay; the allocation may get smaller.
#[verifier::external_body]
fn shrink_to<T>(v: &mut Vec<T>, min_capacity: usize)
    ensures
        final(v)@ == old(v)@,
{
    v.shrink_to(min_capacity)
}

/// One contiguous buffer: the live elements and the capacity that the allocation
/// is sized for. The capacity is the only source for resizing the allocation.
pub struct RawSec<T> {
    pub items: Vec<T>,
    pub cap: usize,
}

impl<T> View for RawSec<T> {
    type V = Seq<T>;

    open spec fn view(&self) -> Seq<T> {
        self.items@
    }
}

impl<T> RawSec<T> {
    pub open spec fn spec_cap(&self) -> nat {
        self.cap as nat
    }

    /// The length never exceeds the capacity; a zero-sized type always has the
    /// unbounded capacity; any other type has a capacity whose array fits.
    pub open spec fn wf(&self) -> bool {
        &&& self.items@.len() <= self.cap
        &&& is_zst::<T>() ==> self.cap == usize::MAX
        &&& !is_zst::<T>() ==> array_fits::<T>(self.cap as int)
    }

    pub proof fn lemma_wf(&self)
        requires
            self.wf(),
        ensures
            self@.len() <= self.spec_cap(),
            is_zst::<T>() ==> self.spec_cap() == usize::MAX,
            !is_zst::<T>() ==> array_fits::<T>(self.spec_cap() as int),
    {
    }

    /// The capacity a fresh buffer gets for a request of `n`.
    pub open spec fn initial_cap(n: nat) -> nat {
        if is_zst::<T>() {
            usize::MAX as nat
        } else {
            n
        }
    }

    fn create(capacity: usize) -> (r: Result<RawSec<T>, core::alloc::LayoutError>)
        ensures
            r is Ok <==> (is_zst::<T>() || array_fits::<T>(capacity as int)),
            r matches Ok(b) ==> b.wf() && b@ == Seq::<T>::empty() && b.spec_cap()
                == Self::initial_cap(capacity as nat),
    {
        if core::mem::size_of::<T>() == 0 {
            return Ok(RawSec { items: Vec::new(), cap: usize::MAX });
        }
        if capacity == 0 {
            return Ok(RawSec { items: Vec::new(), cap: 0 });
        }
        match array_layout::<T>(capacity) {
            Err(e) => Err(e),
            Ok(_) => Ok(RawSec { items: Vec::with_capacity(capacity), cap: capacity }),
        }
    }

    pub fn new() -> (r: RawSec<T>)
        ensures
            r.wf(),
            r@ == Seq::<T>::empty(),
            r.spec_cap() == Self::initial_cap(0),
    {
        match Self::create(0) {
            Ok(b) => b,
            Err(_) => {
                assert(false);
                RawSec { items: Vec::new(), cap: 0 }
            },
        }
    }

    pub fn with_capacity(capacity: usize) -> (r: RawSec<T>)
        requires
            is_zst::<T>() || array_fits::<T>(capacity as int),
        ensures
            r.wf(),
            r@ == Seq::<T>::empty(),
            r.spec_cap() == Self::initial_cap(capacity as nat),
    {
        match Self::create(capacity) {
            Ok(b) => b,
            Err(_) => {
                assert(false);
                RawSec { items: Vec::new(), cap: 0 }
            },
        }
    }

    pub fn try_with_capacity(capacity: usize) -> (r: Result<RawSec<T>, core::alloc::LayoutError>)
        ensures
            r is Ok <==> (is_zst::<T>() || array_fits::<T>(capacity as int)),
            r matches Ok(b) ==> b.wf() && b@ == Seq::<T>::empty() && b.spec_cap()
                == Self::initial_cap(capacity as nat),
    {
        Self::create(capacity)
    }
    /// Grows the capacity by `delta`, reporting failure instead of aborting.
    /// A zero-sized element type is refused: its capacity is already unbounded.
    pub fn try_grow_by(&mut self, delta: usize) -> (r: Result<(), ReserveError>)
        requires
            old(self).wf(),
        ensures
            final(self).wf(),
            final(self)@ == old(self)@,
            is_zst::<T>() ==> r == Err::<(), ReserveError>(ReserveError::CapacityOverflow),
            !is_zst::<T>() && delta == 0 ==> r is Ok,
            !is_zst::<T>() && delta > 0 && !array_fits::<T>(old(self).spec_cap() + delta) ==> r
                == Err::<(), ReserveError>(ReserveError::CapacityOverflow),
            !is_zst::<T>() && delta > 0 && array_fits::<T>(old(self).spec_cap() + delta) ==> (r is Ok
                || r == Err::<(), ReserveError>(ReserveError::AllocError)),
            r is Ok ==> final(self).spec_cap() == old(self).spec_cap() + delta,
            r is Err ==> final(self).spec_cap() == old(self).spec_cap(),
    {
        if core::mem::size_of::<T>() == 0 {
            return Err(ReserveError::CapacityOverflow);
        }
        if delta == 0 {
            return Ok(());
        }
        let new_cap = match self.cap.checked_add(delta) {
            Some(c) => c,
            None => {
                proof {
                    let n = self.cap + delta;
                    let s = size_of::<T>();
                    assert(n <= n * s) by (nonlinear_arith)
                        requires
                            s >= 1,
                            n >= 0,
                    ;
                }
                return Err(ReserveError::CapacityOverflow);
            },
        };
        match array_layout::<T>(new_cap) {
            Err(_) => {
                return Err(ReserveError::CapacityOverflow);
            },
            Ok(_) => {},
        }
        let len = self.items.len();
        match try_reserve_exact(&mut self.items, new_cap - len) {
            Ok(()) => {
                self.cap = new_cap;
                Ok(())
            },
            Err(_) => Err(ReserveError::AllocError),
        }
    }

    /// Grows the capacity by `delta`; allocator failure aborts the process.
    pub fn grow_by(&mut self, delta: usize)
        requires
            old(self).wf(),
            !is_zst::<T>(),
            array_fits::<T>(old(self).spec_cap() + delta),
        ensures
            final(self).wf(),
            final(self)@ == old(self)@,
            final(self).spec_cap() == old(self).spec_cap() + delta,
    {
        proof {
            lemma_array_fits_mono::<T>(
                old(self).spec_cap() + delta,
                old(self).spec_cap() + delta,
            );
        }
        if delta == 0 {
            return;
        }
        let new_cap = self.cap + delta;
        let len = self.items.len();
        reserve_exact(&mut self.items, new_cap - len);
        self.cap = new_cap;
    }

    /// Shrinks the capacity by `delta`. A zero-sized element type, or a `delta`
    /// above the capacity, is refused.
    pub fn try_shrink_by(&mut self, delta: usize) -> (r: Result<(), ReserveError>)
        requires
            old(self).wf(),
            delta <= old(self).spec_cap() ==> old(self)@.len() + delta <= old(self).spec_cap(),
        ensures
            final(self).wf(),
            final(self)@ == old(self)@,
            (is_zst::<T>() || delta > old(self).spec_cap()) ==> r == Err::<(), ReserveError>(
                ReserveError::CapacityOverflow,
            ) && final(self).spec_cap() == old(self).spec_cap(),
            !(is_zst::<T>() || delta > old(self).spec_cap()) ==> r is Ok && final(self).spec_cap()
                == old(self).spec_cap() - delta,
    {
        if core::mem::size_of::<T>() == 0 || delta > self.cap {
            return Err(ReserveError::CapacityOverflow);
        }
        let new_cap = self.cap - delta;
        proof {
            lemma_array_fits_mono::<T>(new_cap as int, self.cap as int);
        }
        shrink_to(&mut self.items, new_cap);
        self.cap = new_cap;
        Ok(())
    }

    /// Shrinks the capacity by `delta`, which must leave room for the elements.
    pub fn shrink_by(&mut self, delta: usize)
        requires
            old(self).wf(),
            !is_zst::<T>(),
            old(self)@.len() + delta <= old(self).spec_cap(),
        ensures
            final(self).wf(),
            final(self)@ == old(self)@,
            final(self).spec_cap() == old(self).spec_cap() - delta,
    {
        let r = self.try_shrink_by(delta);
    }
}

} // verus!
