//! What holds across calls: the laws that the contracts of the operations add up to.
use crate::components::hysteresis_cap;
use crate::raw::is_zst;
use crate::states::{doubled, manual_shrink_amount, Dynamic, Manual, Normal};
use crate::Sector;
use vstd::arithmetic::power2::{lemma_pow2_unfold, pow2};
use vstd::prelude::*;

verus! {

/// Pushes the elements of `xs` one by one, in order, as `push` changes the view.
pub open spec fn push_all<T>(s: Seq<T>, xs: Seq<T>) -> Seq<T>
    decreases xs.len(),
{
    if xs.len() == 0 {
        s
    } else {
        push_all(s.push(xs[0]), xs.drop_first())
    }
}

/// Pops `n` times, as `pop` changes the view: what is left, and what came out in
/// the order it came out.
pub open spec fn pop_times<T>(s: Seq<T>, n: nat) -> (Seq<T>, Seq<T>)
    decreases n,
{
    if n == 0 || s.len() == 0 {
        (s, Seq::empty())
    } else {
        let (rest, out) = pop_times(s.drop_last(), (n - 1) as nat);
        (rest, seq![s.last()] + out)
    }
}

proof fn lemma_push_all_appends<T>(s: Seq<T>, xs: Seq<T>)
    ensures
        push_all(s, xs) == s + xs,
    decreases xs.len(),
{
    if xs.len() > 0 {
        lemma_push_all_appends(s.push(xs[0]), xs.drop_first());
        assert(s.push(xs[0]) + xs.drop_first() =~= s + xs);
    } else {
        assert(s + xs =~= s);
    }
}

proof fn lemma_pop_times_appended<T>(s: Seq<T>, xs: Seq<T>)
    ensures
        pop_times(s + xs, xs.len()) == (s, xs.reverse()),
    decreases xs.len(),
{
    if xs.len() == 0 {
        assert(s + xs =~= s);
        assert(xs.reverse() =~= Seq::<T>::empty());
    } else {
        let ys = xs.drop_last();
        assert((s + xs).drop_last() =~= s + ys);
        assert((s + xs).last() == xs.last());
        lemma_pop_times_appended(s, ys);
        assert(seq![xs.last()] + ys.reverse() =~= xs.reverse());
    }
}

/// Round trip: pushing `xs` onto a container holding `s`, then popping as many
/// times, yields the elements of `xs` last first and leaves `s`; from an empty
/// container, the container is empty again.
pub proof fn lemma_push_pop_round_trip<T>(s: Seq<T>, xs: Seq<T>)
    ensures
        pop_times(push_all(s, xs), xs.len()) == (s, xs.reverse()),
{
    lemma_push_all_appends(s, xs);
    lemma_pop_times_appended(s, xs);
}

/// The capacity of a `Normal` container of a sized element type, created with
/// capacity 0, after `n` single pushes: each push onto a full container doubles it.
pub open spec fn normal_capacity_after_pushes(n: nat) -> nat
    decreases n,
{
    if n == 0 {
        0
    } else {
        let c = normal_capacity_after_pushes((n - 1) as nat);
        if (n - 1) as nat == c {
            doubled(c)
        } else {
            c
        }
    }
}

/// After `n >= 1` single pushes onto a `Normal` container that started with
/// capacity 0, the capacity is the least power of two that holds `n`.
pub proof fn lemma_normal_capacity_power_of_two(n: nat) -> (e: nat)
    requires
        n >= 1,
    ensures
        normal_capacity_after_pushes(n) == pow2(e),
        n <= pow2(e) < 2 * n,
    decreases n,
{
    if n == 1 {
        assert(normal_capacity_after_pushes(0) == 0);
        assert(pow2(0) == 1) by {
            vstd::arithmetic::power2::lemma2_to64();
        }
        0
    } else {
        let e0 = lemma_normal_capacity_power_of_two((n - 1) as nat);
        if (n - 1) as nat == pow2(e0) {
            lemma_pow2_unfold(e0 + 1);
            e0 + 1
        } else {
            e0
        }
    }
}

/// The `Dynamic` policy shrinks only a capacity of at least four, takes it to no
/// less than three, and keeps room for the remaining elements; a capacity above
/// twice the length stays.
pub proof fn lemma_dynamic_shrink_bounds(cap: nat, new_len: nat)
    requires
        new_len <= cap,
    ensures
        hysteresis_cap(cap, new_len) <= cap,
        hysteresis_cap(cap, new_len) >= new_len,
        hysteresis_cap(cap, new_len) < cap ==> cap >= 4 && hysteresis_cap(cap, new_len) >= 3,
        new_len > cap / 2 ==> hysteresis_cap(cap, new_len) == cap,
{
}

/// Every operation keeps a container well formed, so its length never exceeds
/// its capacity.
pub proof fn lemma_length_within_capacity<S, T>(s: &Sector<S, T>)
    requires
        s.wf(),
    ensures
        s@.len() <= s.spec_capacity(),
{
    s.lemma_wf();
}

/// A container of a zero-sized element type always reports the unbounded
/// capacity, and an explicit shrink takes nothing off it.
pub proof fn lemma_zero_sized_unbounded<S, T>(s: &Sector<S, T>, n: nat)
    requires
        s.wf(),
        is_zst::<T>(),
    ensures
        s.spec_capacity() == usize::MAX,
        manual_shrink_amount::<T>(s.spec_capacity(), n) == 0,
{
    s.lemma_wf();
}

/// After a `Manual` grow by `r` slots, `r` more pushes find room.
pub proof fn lemma_manual_grown_slots_usable<T>(
    before: &Sector<Manual, T>,
    after: &Sector<Manual, T>,
    r: nat,
)
    requires
        before.wf(),
        after@ == before@,
        after.spec_capacity() == before.spec_capacity() + r,
    ensures
        after@.len() + r <= after.spec_capacity(),
{
    before.lemma_wf();
}

/// Going from `Normal` to `Dynamic` and back keeps the elements, the length and
/// the capacity.
pub proof fn lemma_normal_dynamic_round_trip<T>(
    a: &Sector<Normal, T>,
    b: &Sector<Dynamic, T>,
    c: &Sector<Normal, T>,
)
    requires
        b@ == a@ && b.spec_capacity() == a.spec_capacity(),
        c@ == b@ && c.spec_capacity() == b.spec_capacity(),
    ensures
        c@ == a@,
        c@.len() == a@.len(),
        c.spec_capacity() == a.spec_capacity(),
{
}

} // verus!
