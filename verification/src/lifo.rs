//! The sequence model shared by the lists of this crate, and its laws.
//!
//! A list is modelled by the sequence of its elements, top first. Pushing
//! puts an element in front, popping takes the front element away, and a
//! traversal is a run of pops on the sequence that is still to be visited.

use vstd::prelude::*;

verus! {

/// The sequence after `elem` has been put on top of `s`.
pub open spec fn pushed<T>(s: Seq<T>, elem: T) -> Seq<T> {
    seq![elem] + s
}

/// The top element of `s`, or `None` where `s` is empty.
pub open spec fn top<T>(s: Seq<T>) -> Option<T> {
    if s.len() == 0 {
        None
    } else {
        Some(s[0])
    }
}

/// What is left of `s` once its top element is gone; an empty `s` stays as it is.
pub open spec fn rest<T>(s: Seq<T>) -> Seq<T> {
    if s.len() == 0 {
        s
    } else {
        s.skip(1)
    }
}

/// The sequence after the elements of `elems` have been pushed on `s`, `elems[0]` first.
pub open spec fn pushed_all<T>(s: Seq<T>, elems: Seq<T>) -> Seq<T>
    decreases elems.len(),
{
    if elems.len() == 0 {
        s
    } else {
        pushed(pushed_all(s, elems.drop_last()), elems.last())
    }
}

/// What is left of `s` after `n` pops.
pub open spec fn drained<T>(s: Seq<T>, n: nat) -> Seq<T>
    decreases n,
{
    if n == 0 {
        s
    } else {
        rest(drained(s, (n - 1) as nat))
    }
}

/// A push followed by a pop gives the pushed element back and restores the sequence.
pub proof fn lemma_push_then_pop<T>(s: Seq<T>, elem: T)
    ensures
        top(pushed(s, elem)) == Some(elem),
        rest(pushed(s, elem)) == s,
        pushed(s, elem).len() == s.len() + 1,
{
}

/// Pushing a run of elements on a sequence puts them in front of it in reverse order.
pub proof fn lemma_pushed_all<T>(s: Seq<T>, elems: Seq<T>)
    ensures
        pushed_all(s, elems) == elems.reverse() + s,
    decreases elems.len(),
{
    if elems.len() > 0 {
        lemma_pushed_all(s, elems.drop_last());
    }
}

/// After `n` pops the first `n` elements are gone, and nothing else; once the
/// sequence is empty it stays empty.
pub proof fn lemma_drained<T>(s: Seq<T>, n: nat)
    ensures
        n <= s.len() ==> drained(s, n) == s.skip(n as int),
        n >= s.len() ==> drained(s, n) == Seq::<T>::empty(),
    decreases n,
{
    if n > 0 {
        lemma_drained(s, (n - 1) as nat);
    }
}

/// A traversal of `s` yields `s[0]`, `s[1]`, ... in this order, one element
/// per step, and yields nothing from step `s.len()` on.
pub proof fn lemma_traversal_order<T>(s: Seq<T>, k: nat)
    ensures
        k < s.len() ==> top(drained(s, k)) == Some(s[k as int]),
        k >= s.len() ==> top(drained(s, k)) == None::<T>,
{
    lemma_drained(s, k);
}

/// Last in, first out: after `elems[0]`, `elems[1]`, ... have been pushed in
/// this order on an empty stack, pop number `k` (counted from 0) returns
/// the element pushed `k` places before the last one, and every pop from
/// number `elems.len()` on returns nothing.
pub proof fn lemma_lifo_order<T>(elems: Seq<T>, k: nat)
    ensures
        k < elems.len() ==> top(drained(pushed_all(Seq::empty(), elems), k)) == Some(
            elems[elems.len() - 1 - k],
        ),
        k >= elems.len() ==> top(drained(pushed_all(Seq::empty(), elems), k)) == None::<T>,
{
    let s = pushed_all(Seq::empty(), elems);
    lemma_pushed_all(Seq::empty(), elems);
    lemma_traversal_order(s, k);
}

/// An empty sequence has no top, and popping it changes nothing, however often.
pub proof fn lemma_empty_stays_empty<T>(n: nat)
    ensures
        top(Seq::<T>::empty()) == None::<T>,
        rest(Seq::<T>::empty()) == Seq::<T>::empty(),
        drained(Seq::<T>::empty(), n) == Seq::<T>::empty(),
{
    lemma_drained(Seq::<T>::empty(), n);
}

/// Once a step on `s` has yielded nothing, the sequence is left as it was
/// and every later step yields nothing either.
pub proof fn lemma_exhausted_stays_exhausted<T>(s: Seq<T>, n: nat)
    requires
        top(s) == None::<T>,
    ensures
        rest(s) == s,
        drained(s, n) == s,
        top(drained(s, n)) == None::<T>,
{
    lemma_drained(s, n);
}

/// Writing `elem` over the top of a non-empty sequence makes `elem` the top
/// and leaves everything below it as it was.
pub proof fn lemma_write_top<T>(s: Seq<T>, elem: T)
    requires
        s.len() > 0,
    ensures
        top(s.update(0, elem)) == Some(elem),
        rest(s.update(0, elem)) == rest(s),
        s.update(0, elem) == pushed(rest(s), elem),
{
}

} // verus!
