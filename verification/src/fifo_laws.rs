//! Queue laws, stated over the abstract model that the operation contracts
//! use: a queue's state is the sequence of its live elements, oldest first.
//! `TypedQueue::push` promises exactly `push_step` on that sequence and
//! `TypedQueue::pop` promises to return the first element and keep the rest,
//! so these lemmas describe whole call sequences against those contracts.

use vstd::prelude::*;

verus! {

/// Abstract effect of one non-overwriting push with capacity `cap`, exactly
/// as the contract of `TypedQueue::push` describes it: append when there is
/// room, leave the queue unchanged (and fail) when full.
pub open spec fn push_step<T>(s: Seq<T>, v: T, cap: nat) -> Seq<T> {
    if s.len() < cap {
        s.push(v)
    } else {
        s
    }
}

/// Queue contents after pushing each element of `vs`, in order, starting
/// from contents `s`.
pub open spec fn push_all<T>(s: Seq<T>, vs: Seq<T>, cap: nat) -> Seq<T>
    decreases vs.len(),
{
    if vs.len() == 0 {
        s
    } else {
        push_all(push_step(s, vs[0], cap), vs.skip(1), cap)
    }
}

/// While there is room for all of them, pushes append in order.
pub proof fn lemma_push_all_appends<T>(s: Seq<T>, vs: Seq<T>, cap: nat)
    requires
        s.len() + vs.len() <= cap,
    ensures
        push_all(s, vs, cap) == s + vs,
    decreases vs.len(),
{
    if vs.len() == 0 {
        assert(push_all(s, vs, cap) =~= s + vs);
    } else {
        lemma_push_all_appends(s.push(vs[0]), vs.skip(1), cap);
        assert(s.push(vs[0]) + vs.skip(1) =~= s + vs);
    }
}

/// FIFO order: pushing `v0 .. v(k-1)` (with `k` at most the capacity) into
/// an empty queue and then popping `k` times yields `v0 .. v(k-1)` in the
/// same order. After `i` pops the queue holds `vs` with the first `i`
/// elements removed, so the value the next pop returns is `vs[i]`.
pub proof fn lemma_fifo_order<T>(vs: Seq<T>, cap: nat)
    requires
        vs.len() <= cap,
    ensures
        push_all(Seq::empty(), vs, cap) == vs,
        forall|i: int|
            0 <= i < vs.len() ==> push_all(Seq::empty(), vs, cap).skip(i)[0] == vs[i],
{
    lemma_push_all_appends(Seq::empty(), vs, cap);
    assert(Seq::empty() + vs =~= vs);
}

/// Wraparound: push one batch, drain the queue fully, push a second batch
/// (whose slots wrap around the end of the circular storage), and drain
/// again — each drain yields its own batch in push order.
pub proof fn lemma_wraparound_refill<T>(first: Seq<T>, second: Seq<T>, cap: nat)
    requires
        first.len() <= cap,
        second.len() <= cap,
    ensures
        push_all(Seq::empty(), first, cap) == first,
        push_all(push_all(Seq::empty(), first, cap).skip(first.len() as int), second, cap)
            == second,
{
    lemma_fifo_order(first, cap);
    assert(first.skip(first.len() as int) =~= Seq::<T>::empty());
    lemma_fifo_order(second, cap);
}

/// Overwrite then pop: a queue just filled by pushes has overwrite cursor 0,
/// so an overwriting push replaces the oldest element in place. The next pop
/// therefore yields the overwriting value, and the pops after it yield the
/// surviving original elements in their original order.
pub proof fn lemma_overwrite_then_pop<T>(s: Seq<T>, v: T)
    requires
        s.len() > 0,
    ensures
        s.update(0, v)[0] == v,
        s.update(0, v).skip(1) == s.skip(1),
{
    assert(s.update(0, v).skip(1) =~= s.skip(1));
}

} // verus!
