//! Set semantics over sequences: membership, duplicate-freedom, and the
//! insert/remove operations the control handler applies to the filter sets.
//! Ordering inside the sequences is insignificant; membership is what the
//! filter reads.

use vstd::prelude::*;

verus! {

/// Membership of a value in a sequence.
pub open spec fn member<A>(xs: Seq<A>, x: A) -> bool {
    exists|i: int| 0 <= i < xs.len() && xs[i] == x
}

/// The index a present value sits at (meaningful when `member` holds; unique
/// when the sequence is duplicate-free).
pub open spec fn member_index<A>(xs: Seq<A>, x: A) -> int {
    choose|i: int| 0 <= i < xs.len() && xs[i] == x
}

/// No value occurs twice.
pub open spec fn distinct_members<A>(xs: Seq<A>) -> bool {
    forall|a: int, b: int| 0 <= a < b < xs.len() ==> xs[a] != xs[b]
}

/// Idempotent insertion: a present value leaves the sequence unchanged.
pub open spec fn with_member<A>(xs: Seq<A>, x: A) -> Seq<A> {
    if member(xs, x) {
        xs
    } else {
        xs.push(x)
    }
}

/// Idempotent removal: an absent value leaves the sequence unchanged.
pub open spec fn without_member<A>(xs: Seq<A>, x: A) -> Seq<A> {
    if member(xs, x) {
        xs.remove(member_index(xs, x))
    } else {
        xs
    }
}

/// A duplicate-free sequence stays duplicate-free when a fresh value is pushed.
pub proof fn lemma_distinct_push<A>(xs: Seq<A>, x: A)
    requires
        distinct_members(xs),
        !member(xs, x),
    ensures
        distinct_members(xs.push(x)),
{
    let ys = xs.push(x);
    assert forall|a: int, b: int| 0 <= a < b < ys.len() implies ys[a] != ys[b] by {
        if b < xs.len() {
            assert(xs[a] != xs[b]);
        } else {
            assert(ys[b] == x);
            assert(ys[a] == xs[a]);
        }
    }
}

/// A duplicate-free sequence stays duplicate-free when an index is removed.
pub proof fn lemma_distinct_remove<A>(xs: Seq<A>, i: int)
    requires
        distinct_members(xs),
        0 <= i < xs.len(),
    ensures
        distinct_members(xs.remove(i)),
{
    let ys = xs.remove(i);
    assert forall|a: int, b: int| 0 <= a < b < ys.len() implies ys[a] != ys[b] by {
        assert(ys[a] == if a < i {
            xs[a]
        } else {
            xs[a + 1]
        });
        assert(ys[b] == if b < i {
            xs[b]
        } else {
            xs[b + 1]
        });
    }
}

/// In a duplicate-free sequence, a matching index is the member's index.
pub proof fn lemma_member_index<A>(xs: Seq<A>, x: A, i: int)
    requires
        distinct_members(xs),
        0 <= i < xs.len(),
        xs[i] == x,
    ensures
        member(xs, x),
        member_index(xs, x) == i,
{
    assert(member(xs, x));
    let k = member_index(xs, x);
    assert(0 <= k < xs.len() && xs[k] == x);
    if k < i {
        assert(xs[k] != xs[i]);
    } else if k > i {
        assert(xs[i] != xs[k]);
    }
}

/// Inserting a member puts it in and moves nothing else in or out.
pub proof fn lemma_with_member<A>(xs: Seq<A>, x: A)
    ensures
        member(with_member(xs, x), x),
        forall|y: A| y != x ==> member(with_member(xs, x), y) == member(xs, y),
{
    if !member(xs, x) {
        let ys = xs.push(x);
        assert(ys[xs.len() as int] == x);
        assert forall|y: A| y != x implies member(ys, y) == member(xs, y) by {
            if member(ys, y) {
                let a = choose|a: int| 0 <= a < ys.len() && ys[a] == y;
                assert(a < xs.len());
                assert(xs[a] == y);
            }
            if member(xs, y) {
                let a = choose|a: int| 0 <= a < xs.len() && xs[a] == y;
                assert(ys[a] == y);
            }
        }
    }
}

} // verus!
