//! Searching and filtering vectors with a test whose meaning is given as a spec function.

use vstd::prelude::*;

verus! {

/// The first value that passes a test.
pub open spec fn find_first<T>(s: Seq<T>, p: spec_fn(T) -> bool) -> Option<T>
    decreases s.len(),
{
    if s.len() == 0 {
        None
    } else if p(s[0]) {
        Some(s[0])
    } else {
        find_first(s.skip(1), p)
    }
}

/// The position of the first value that passes a test.
pub open spec fn first_at<T>(s: Seq<T>, p: spec_fn(T) -> bool) -> Option<int>
    decreases s.len(),
{
    if s.len() == 0 {
        None
    } else if p(s[0]) {
        Some(0)
    } else {
        match first_at(s.skip(1), p) {
            Some(i) => Some(i + 1),
            None => None,
        }
    }
}

/// Some value passes a test.
pub open spec fn some_passes<T>(s: Seq<T>, p: spec_fn(T) -> bool) -> bool {
    exists|i: int| 0 <= i < s.len() && p(#[trigger] s[i])
}

/// The search stops at the first position that passes; everything before it fails.
pub proof fn search_meaning<T>(s: Seq<T>, p: spec_fn(T) -> bool)
    ensures
        match first_at(s, p) {
            Some(i) => 0 <= i < s.len() && p(s[i]) && find_first(s, p) == Some(s[i]) && (forall|j: int|
                0 <= j < i ==> !p(#[trigger] s[j])),
            None => find_first(s, p) is None && (forall|j: int|
                0 <= j < s.len() ==> !p(#[trigger] s[j])),
        },
        some_passes(s, p) == first_at(s, p) is Some,
    decreases s.len(),
{
    if s.len() > 0 && !p(s[0]) {
        let t = s.skip(1);
        search_meaning(t, p);
        assert forall|j: int| 0 < j < s.len() implies s[j] == t[j - 1] by {}
        if first_at(t, p) is Some {
            let i = first_at(t, p)->0;
            assert(p(s[i + 1]));
            assert forall|j: int| 0 <= j < i + 1 implies !p(#[trigger] s[j]) by {
                if j > 0 {
                    assert(!p(t[j - 1]));
                }
            }
        } else {
            assert forall|j: int| 0 <= j < s.len() implies !p(#[trigger] s[j]) by {
                if j > 0 {
                    assert(!p(t[j - 1]));
                }
            }
        }
    }
}

/// A position that passes, with everything before it failing, is where the search stops.
pub proof fn search_stops_at<T>(s: Seq<T>, p: spec_fn(T) -> bool, i: int)
    requires
        0 <= i < s.len(),
        p(s[i]),
        forall|j: int| 0 <= j < i ==> !p(#[trigger] s[j]),
    ensures
        first_at(s, p) == Some(i),
        find_first(s, p) == Some(s[i]),
{
    search_meaning(s, p);
    let k = first_at(s, p)->0;
    if k < i {
        assert(!p(s[k]));
    }
    if i < k {
        assert(!p(s[i]));
    }
}

/// Finds the position of the first value that passes the test.
pub(crate) fn position<T, F: Fn(&T) -> bool>(
    items: &[T],
    test: F,
    Ghost(p): Ghost<spec_fn(T) -> bool>,
) -> (r: Option<usize>)
    requires
        forall|x: &T| call_requires(test, (x,)),
        forall|x: &T, b: bool| call_ensures(test, (x,), b) ==> b == p(*x),
    ensures
        match r {
            Some(i) => i < items.len() && first_at(items@, p) == Some(i as int) && find_first(
                items@,
                p,
            ) == Some(items@[i as int]) && p(items@[i as int]),
            None => first_at(items@, p) is None && find_first(items@, p) is None,
        },
        r is Some == some_passes(items@, p),
{
    let mut i: usize = 0;
    while i < items.len()
        invariant
            i <= items.len(),
            forall|x: &T| call_requires(test, (x,)),
            forall|x: &T, b: bool| call_ensures(test, (x,), b) ==> b == p(*x),
            forall|j: int| 0 <= j < i ==> !p(#[trigger] items@[j]),
        decreases items.len() - i,
    {
        if test(&items[i]) {
            proof {
                search_stops_at(items@, p, i as int);
            }
            return Some(i);
        }
        i = i + 1;
    }
    proof {
        search_meaning(items@, p);
    }
    None
}

/// Whether some value passes the test.
pub(crate) fn any<T, F: Fn(&T) -> bool>(
    items: &[T],
    test: F,
    Ghost(p): Ghost<spec_fn(T) -> bool>,
) -> (r: bool)
    requires
        forall|x: &T| call_requires(test, (x,)),
        forall|x: &T, b: bool| call_ensures(test, (x,), b) ==> b == p(*x),
    ensures
        r == some_passes(items@, p),
{
    position(items, test, Ghost(p)).is_some()
}

/// Finds the first value that passes the test.
pub(crate) fn find<'a, T, F: Fn(&T) -> bool>(
    items: &'a [T],
    test: F,
    Ghost(p): Ghost<spec_fn(T) -> bool>,
) -> (r: Option<&'a T>)
    requires
        forall|x: &T| call_requires(test, (x,)),
        forall|x: &T, b: bool| call_ensures(test, (x,), b) ==> b == p(*x),
    ensures
        pointee(r) == find_first(items@, p),
{
    match position(items, test, Ghost(p)) {
        Some(i) => Some(&items[i]),
        None => None,
    }
}

/// A test that everything passes filters nothing.
pub proof fn filter_of_all<T>(s: Seq<T>, p: spec_fn(T) -> bool)
    requires
        forall|k: int| 0 <= k < s.len() ==> p(#[trigger] s[k]),
    ensures
        s.filter(p) == s,
    decreases s.len(),
{
    reveal(Seq::filter);
    if s.len() > 0 {
        filter_of_all(s.drop_last(), p);
        assert(s.drop_last().push(s.last()) =~= s);
    } else {
        assert(s.filter(p) =~= s);
    }
}

/// The value behind an optional reference.
pub open spec fn pointee<T>(r: Option<&T>) -> Option<T> {
    match r {
        Some(x) => Some(*x),
        None => None,
    }
}

/// The values behind a sequence of references.
pub open spec fn pointees<T>(s: Seq<&T>) -> Seq<T> {
    s.map_values(|x: &T| *x)
}

/// Removes the values that fail the test.
pub(crate) fn retain<T, F: Fn(&T) -> bool>(
    items: &mut Vec<T>,
    test: F,
    Ghost(p): Ghost<spec_fn(T) -> bool>,
)
    requires
        forall|x: &T| call_requires(test, (x,)),
        forall|x: &T, b: bool| call_ensures(test, (x,), b) ==> b == p(*x),
    ensures
        final(items)@ == old(items)@.filter(p),
{
    let ghost before = items@;
    let mut i: usize = 0;
    let ghost mut seen: int = 0;
    proof {
        reveal(Seq::filter);
        assert(before.take(0) =~= Seq::<T>::empty());
        assert(items@.take(0) =~= Seq::<T>::empty());
        assert(items@.skip(0) =~= before.skip(0));
    }
    while i < items.len()
        invariant
            0 <= seen <= before.len(),
            i <= items.len(),
            items.len() - i == before.len() - seen,
            items@.take(i as int) == before.take(seen).filter(p),
            items@.skip(i as int) == before.skip(seen),
            forall|x: &T| call_requires(test, (x,)),
            forall|x: &T, b: bool| call_ensures(test, (x,), b) ==> b == p(*x),
        decreases items.len() - i,
    {
        let ghost now = items@;
        proof {
            assert(now.skip(i as int)[0] == before.skip(seen)[0]);
            assert(before.take(seen + 1) =~= before.take(seen).push(before[seen]));
            before.take(seen).lemma_filter_push(before[seen], p);
        }
        if test(&items[i]) {
            i = i + 1;
            proof {
                assert(now.take(i as int) =~= now.take(i - 1).push(before[seen]));
                assert(now.skip(i as int) =~= now.skip(i - 1).skip(1));
                assert(before.skip(seen + 1) =~= before.skip(seen).skip(1));
            }
        } else {
            items.remove(i);
            proof {
                assert(items@.take(i as int) =~= now.take(i as int));
                assert(items@.skip(i as int) =~= now.skip(i as int).skip(1));
                assert(before.skip(seen + 1) =~= before.skip(seen).skip(1));
            }
        }
        proof {
            seen = seen + 1;
        }
    }
    proof {
        assert(items@.take(i as int) =~= items@);
        assert(before.take(seen) =~= before);
    }
}

/// References to the values that pass the test, in order.
pub(crate) fn select<'a, T, F: Fn(&T) -> bool>(
    items: &'a [T],
    test: F,
    Ghost(p): Ghost<spec_fn(T) -> bool>,
) -> (out: Vec<&'a T>)
    requires
        forall|x: &T| call_requires(test, (x,)),
        forall|x: &T, b: bool| call_ensures(test, (x,), b) ==> b == p(*x),
    ensures
        pointees(out@) == items@.filter(p),
{
    let mut out: Vec<&'a T> = Vec::new();
    let mut i: usize = 0;
    proof {
        reveal(Seq::filter);
        assert(items@.take(0) =~= Seq::<T>::empty());
        assert(pointees(out@) =~= Seq::<T>::empty());
    }
    while i < items.len()
        invariant
            i <= items.len(),
            pointees(out@) == items@.take(i as int).filter(p),
            forall|x: &T| call_requires(test, (x,)),
            forall|x: &T, b: bool| call_ensures(test, (x,), b) ==> b == p(*x),
        decreases items.len() - i,
    {
        proof {
            assert(items@.take(i + 1) =~= items@.take(i as int).push(items@[i as int]));
            items@.take(i as int).lemma_filter_push(items@[i as int], p);
        }
        if test(&items[i]) {
            let ghost before = out@;
            out.push(&items[i]);
            proof {
                assert(pointees(out@) =~= pointees(before).push(items@[i as int]));
            }
        }
        i = i + 1;
    }
    proof {
        assert(items@.take(i as int) =~= items@);
    }
    out
}

} // verus!
