//! Stable sorting by a total preorder.

use vstd::prelude::*;

verus! {

/// A way to put values in order: a total preorder with an executable test.
pub trait Precedence<T> {
    /// `a` may stand before `b`.
    spec fn le(a: T, b: T) -> bool;

    /// Any two values can be ordered.
    proof fn total(a: T, b: T)
        ensures
            Self::le(a, b) || Self::le(b, a),
    ;

    /// The order carries over.
    proof fn transitive(a: T, b: T, c: T)
        requires
            Self::le(a, b),
            Self::le(b, c),
        ensures
            Self::le(a, c),
    ;

    /// Tests whether `a` may stand before `b`.
    fn at_most(a: &T, b: &T) -> (r: bool)
        ensures
            r == Self::le(*a, *b),
    ;
}

/// Two values that the order does not tell apart.
pub open spec fn tied<T, P: Precedence<T>>(a: T, b: T) -> bool {
    P::le(a, b) && P::le(b, a)
}

/// The values that are tied with `x`, in their order.
pub open spec fn ties<T, P: Precedence<T>>(s: Seq<T>, x: T) -> Seq<T> {
    s.filter(|y: T| tied::<T, P>(y, x))
}

/// Every value may stand before every later one.
pub open spec fn in_order<T, P: Precedence<T>>(s: Seq<T>) -> bool {
    forall|i: int, j: int| 0 <= i <= j < s.len() ==> P::le(s[i], s[j])
}

/// `after` is the stable sort of `before`: it is in order, and of the values that are tied with any
/// one value both hold the same ones in the same order.
pub open spec fn stably_sorted<T, P: Precedence<T>>(before: Seq<T>, after: Seq<T>) -> bool {
    &&& in_order::<T, P>(after)
    &&& after.to_multiset() == before.to_multiset()
    &&& forall|x: T| #[trigger] ties::<T, P>(after, x) == ties::<T, P>(before, x)
}

proof fn filter_of_sum<T>(a: Seq<T>, b: Seq<T>, keep: spec_fn(T) -> bool)
    ensures
        (a + b).filter(keep) == a.filter(keep) + b.filter(keep),
{
    Seq::filter_distributes_over_add(a, b, keep);
}

proof fn filter_of_one<T>(x: T, keep: spec_fn(T) -> bool)
    ensures
        seq![x].filter(keep) == (if keep(x) {
            seq![x]
        } else {
            Seq::<T>::empty()
        }),
{
    let s = seq![x];
    reveal(Seq::filter);
    assert(s.drop_last() =~= Seq::<T>::empty());
    assert(s.drop_last().filter(keep) =~= Seq::<T>::empty());
    assert(Seq::<T>::empty().push(x) =~= s);
}

proof fn filter_of_none<T>(s: Seq<T>, keep: spec_fn(T) -> bool)
    requires
        forall|i: int| 0 <= i < s.len() ==> !keep(#[trigger] s[i]),
    ensures
        s.filter(keep) == Seq::<T>::empty(),
    decreases s.len(),
{
    reveal(Seq::filter);
    if s.len() > 0 {
        filter_of_none(s.drop_last(), keep);
    }
}

/// Moving a value in front of values that it strictly precedes keeps every group of tied values.
proof fn moving_keeps_ties<T, P: Precedence<T>>(front: Seq<T>, back: Seq<T>, x: T, rest: Seq<T>)
    requires
        forall|i: int| 0 <= i < back.len() ==> !P::le(#[trigger] back[i], x),
    ensures
        forall|y: T| #[trigger]
            ties::<T, P>(front + seq![x] + back + rest, y) == ties::<T, P>(
                front + back + seq![x] + rest,
                y,
            ),
{
    assert forall|y: T| #[trigger]
        ties::<T, P>(front + seq![x] + back + rest, y) == ties::<T, P>(
            front + back + seq![x] + rest,
            y,
        ) by {
        let keep = |z: T| tied::<T, P>(z, y);
        filter_of_sum(front + seq![x] + back, rest, keep);
        filter_of_sum(front + seq![x], back, keep);
        filter_of_sum(front, seq![x], keep);
        filter_of_sum(front + back + seq![x], rest, keep);
        filter_of_sum(front + back, seq![x], keep);
        filter_of_sum(front, back, keep);
        filter_of_one(x, keep);
        if keep(x) {
            assert forall|i: int| 0 <= i < back.len() implies !keep(#[trigger] back[i]) by {
                if keep(back[i]) {
                    P::transitive(back[i], y, x);
                }
            }
            filter_of_none(back, keep);
        }
        assert(front.filter(keep) + seq![x].filter(keep) + back.filter(keep) + rest.filter(keep)
            =~= front.filter(keep) + back.filter(keep) + seq![x].filter(keep) + rest.filter(keep));
    }
}

/// Two sequences of the same values that are both in order are the same sequence, where values that
/// are tied are the same value.
pub proof fn sorted_is_unique<T, P: Precedence<T>>(a: Seq<T>, b: Seq<T>)
    requires
        in_order::<T, P>(a),
        in_order::<T, P>(b),
        a.to_multiset() == b.to_multiset(),
        forall|i: int, j: int|
            0 <= i < a.len() && 0 <= j < a.len() && tied::<T, P>(a[i], a[j]) ==> a[i] == a[j],
    ensures
        a == b,
    decreases a.len(),
{
    broadcast use vstd::seq_lib::group_to_multiset_ensures;

    assert(a.len() == a.to_multiset().len() && b.len() == b.to_multiset().len());
    if a.len() == 0 {
        assert(a =~= b);
    } else {
        let x = a[0];
        let y = b[0];
        assert(b.to_multiset().count(x) > 0) by {
            assert(a.contains(x));
        }
        assert(b.contains(x));
        let i = choose|i: int| 0 <= i < b.len() && b[i] == x;
        assert(P::le(b[0], b[i]));
        assert(a.to_multiset().count(y) > 0) by {
            assert(b.contains(y));
        }
        assert(a.contains(y));
        let j = choose|j: int| 0 <= j < a.len() && a[j] == y;
        assert(P::le(a[0], a[j]));
        assert(tied::<T, P>(a[0], a[j]));
        assert(x == y);
        let at = a.remove(0);
        let bt = b.remove(0);
        vstd::seq_lib::to_multiset_remove(a, 0);
        vstd::seq_lib::to_multiset_remove(b, 0);
        assert forall|p: int, q: int| 0 <= p <= q < at.len() implies P::le(at[p], at[q]) by {
            assert(at[p] == a[p + 1] && at[q] == a[q + 1]);
        }
        assert forall|p: int, q: int| 0 <= p <= q < bt.len() implies P::le(bt[p], bt[q]) by {
            assert(bt[p] == b[p + 1] && bt[q] == b[q + 1]);
        }
        assert forall|p: int, q: int|
            0 <= p < at.len() && 0 <= q < at.len() && tied::<T, P>(at[p], at[q]) implies at[p]
            == at[q] by {
            assert(at[p] == a[p + 1] && at[q] == a[q + 1]);
        }
        sorted_is_unique::<T, P>(at, bt);
        assert(a =~= seq![x] + at);
        assert(b =~= seq![y] + bt);
    }
}

/// Sorts values in place; values that are tied keep their order.
pub fn stable_sort<T, P: Precedence<T>>(items: &mut Vec<T>)
    ensures
        stably_sorted::<T, P>(old(items)@, final(items)@),
{
    let ghost before = items@;
    let n: usize = items.len();
    let mut i: usize = 0;
    while i < n
        invariant
            i <= n == items.len(),
            in_order::<T, P>(items@.take(i as int)),
            items@.to_multiset() == before.to_multiset(),
            forall|x: T| #[trigger] ties::<T, P>(items@, x) == ties::<T, P>(before, x),
        decreases n - i,
    {
        let ghost now = items@;
        let mut j: usize = i;
        while j > 0 && !P::at_most(&items[j - 1], &items[i])
            invariant
                j <= i < n == items.len(),
                items@ == now,
                in_order::<T, P>(now.take(i as int)),
                forall|k: int| j <= k < i ==> !P::le(#[trigger] now[k], now[i as int]),
            decreases j,
        {
            j = j - 1;
        }
        let x = items.remove(i);
        items.insert(j, x);
        proof {
            let front = now.take(j as int);
            let back = now.subrange(j as int, i as int);
            let rest = now.skip(i + 1);
            assert(now =~= front + back + seq![x] + rest);
            assert(items@ =~= front + seq![x] + back + rest);
            moving_keeps_ties::<T, P>(front, back, x, rest);
            assert(items@.to_multiset() == now.to_multiset()) by {
                broadcast use vstd::seq_lib::group_to_multiset_ensures;
                assert(now.remove(i as int).insert(j as int, x) =~= items@);
                vstd::seq_lib::to_multiset_remove(now, i as int);
                vstd::seq_lib::to_multiset_insert(now.remove(i as int), j as int, x);
                assert(now.to_multiset().remove(x).insert(x) =~= now.to_multiset());
            }
            let sorted = items@.take(i + 1);
            assert forall|a: int, b: int| 0 <= a <= b < sorted.len() implies P::le(
                sorted[a],
                sorted[b],
            ) by {
                let old_front = now.take(i as int);
                if a == b {
                    P::total(sorted[a], sorted[a]);
                } else if b < j {
                    assert(sorted[a] == old_front[a] && sorted[b] == old_front[b]);
                } else if b == j {
                    assert(sorted[a] == old_front[a]);
                    P::transitive(old_front[a], old_front[j - 1], x);
                } else if a < j {
                    assert(sorted[a] == old_front[a] && sorted[b] == old_front[b - 1]);
                } else if a == j {
                    assert(sorted[b] == now[b - 1]);
                    P::total(now[b - 1], x);
                } else {
                    assert(sorted[a] == old_front[a - 1] && sorted[b] == old_front[b - 1]);
                }
            }
        }
        i = i + 1;
    }
    proof {
        assert(items@.take(n as int) =~= items@);
    }
}

} // verus!
