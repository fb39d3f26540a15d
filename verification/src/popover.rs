//! Reducers shared by every picker and menu: loading slots, keyboard navigation and ranked search.

use crate::lists::pointee;
use crate::text;
use crate::text::{lowercase, trimmed, uppercase};
use vstd::prelude::*;

verus! {

/// What gets the keyboard focus.
#[derive(Debug, Clone, Copy, PartialEq, Eq, Structural)]
pub enum FocusTarget {
    /// The text input inside the frame.
    Search,
    /// The frame itself.
    Frame,
}

// ---------------------------------------------------------------------------
// Loading slots
// ---------------------------------------------------------------------------

/// One slot that is loaded in the background: never requested, requested, there, or failed.
#[derive(Debug, PartialEq)]
pub enum Loadable<T> {
    Idle,
    Loading,
    Ready(T),
    Error(String),
}

impl<T> Loadable<T> {
    /// The value, once it is there.
    pub open spec fn value(self) -> Option<T> {
        match self {
            Loadable::Ready(value) => Some(value),
            _ => None,
        }
    }

    pub fn ready(&self) -> (r: Option<&T>)
        ensures
            pointee(r) == self.value(),
    {
        match self {
            Loadable::Ready(value) => Some(value),
            _ => None,
        }
    }

    pub fn is_loading(&self) -> (r: bool)
        ensures
            r == (self is Loading),
    {
        matches!(self, Loadable::Loading)
    }

    pub fn error(&self) -> (r: Option<&str>)
        ensures
            match *self {
                Loadable::Error(message) => r matches Some(shown) && shown@ == message@,
                _ => r is None,
            },
    {
        match self {
            Loadable::Error(message) => Some(message.as_str()),
            _ => None,
        }
    }
}

impl<T> Default for Loadable<T> {
    fn default() -> (l: Self)
        ensures
            l is Idle,
    {
        Loadable::Idle
    }
}

// ---------------------------------------------------------------------------
// Keyboard navigation
// ---------------------------------------------------------------------------

/// The active row after a step: it wraps at both ends, and a step from nothing enters at the edge that
/// matches the direction. An empty menu has no active row.
pub open spec fn stepped(active: Option<usize>, count: usize, delta: int) -> Option<usize> {
    if count == 0 {
        None
    } else {
        match active {
            None => if delta >= 0 {
                Some(0)
            } else {
                Some((count - 1) as usize)
            },
            Some(at) => Some(((at + delta) % (count as int)) as usize),
        }
    }
}

proof fn negative_remainder(y: int, n: int)
    requires
        y > 0,
        n > 0,
    ensures
        (-y) % n == (if y % n == 0 {
            0
        } else {
            n - y % n
        }),
{
    let q = y / n;
    let r = y % n;
    vstd::arithmetic::div_mod::lemma_fundamental_div_mod(y, n);
    if r == 0 {
        assert(-y == n * (-q)) by (nonlinear_arith)
            requires
                y == n * q,
        ;
        vstd::arithmetic::div_mod::lemma_fundamental_div_mod_converse(-y, n, -q, 0);
    } else {
        assert(-y == n * (-q - 1) + (n - r)) by (nonlinear_arith)
            requires
                y == n * q + r,
        ;
        vstd::arithmetic::div_mod::lemma_fundamental_div_mod_converse(-y, n, -q - 1, n - r);
    }
}

/// Steps the active row of a menu.
pub fn menu_step(active: Option<usize>, count: usize, delta: isize) -> (r: Option<usize>)
    ensures
        r == stepped(active, count, delta as int),
{
    if count == 0 {
        return None;
    }
    match active {
        None => if delta >= 0 {
            Some(0)
        } else {
            Some(count - 1)
        },
        Some(at) => {
            let n: i128 = count as i128;
            let x: i128 = at as i128 + delta as i128;
            let next: i128 = if x >= 0 {
                x % n
            } else {
                let y: i128 = -x;
                let m: i128 = y % n;
                proof {
                    negative_remainder(y as int, n as int);
                }
                if m == 0 {
                    0
                } else {
                    n - m
                }
            };
            Some(next as usize)
        },
    }
}

/// A step stays in the menu, and the step back undoes it.
pub proof fn step_back_undoes_step(at: usize, count: usize, delta: int)
    requires
        at < count,
    ensures
        stepped(Some(at), count, delta) matches Some(next) && next < count && stepped(
            Some(next),
            count,
            -delta,
        ) == Some(at),
{
    let n = count as int;
    let q = (at + delta) / n;
    let next = (at + delta) % n;
    vstd::arithmetic::div_mod::lemma_mod_bound(at + delta, n);
    vstd::arithmetic::div_mod::lemma_fundamental_div_mod(at + delta, n);
    assert(next - delta == n * (-q) + at) by (nonlinear_arith)
        requires
            at + delta == n * q + next,
    ;
    vstd::arithmetic::div_mod::lemma_fundamental_div_mod_converse(next - delta, n, -q, at as int);
}

/// Keys that menus care about.
#[derive(Debug, Clone, Copy, PartialEq, Eq, Structural)]
pub enum MenuKey {
    Up,
    Down,
    /// Enter alone: activate the highlighted row.
    Enter,
    /// Enter with a modifier: pick the shown folder.
    ModEnter,
    Escape,
    Backspace,
    Other,
}

/// The menu key of a keystroke.
pub open spec fn menu_key(key: Seq<char>, modified: bool) -> MenuKey {
    if key == "up"@ {
        MenuKey::Up
    } else if key == "down"@ {
        MenuKey::Down
    } else if key == "enter"@ {
        if modified {
            MenuKey::ModEnter
        } else {
            MenuKey::Enter
        }
    } else if key == "escape"@ {
        MenuKey::Escape
    } else if key == "backspace"@ {
        MenuKey::Backspace
    } else {
        MenuKey::Other
    }
}

/// Classifies a keystroke.
pub fn classify_key(key: &str, cmd: bool, ctrl: bool) -> (r: MenuKey)
    ensures
        r == menu_key(key@, cmd || ctrl),
{
    if text::same(key, "up") {
        MenuKey::Up
    } else if text::same(key, "down") {
        MenuKey::Down
    } else if text::same(key, "enter") {
        if cmd || ctrl {
            MenuKey::ModEnter
        } else {
            MenuKey::Enter
        }
    } else if text::same(key, "escape") {
        MenuKey::Escape
    } else if text::same(key, "backspace") {
        MenuKey::Backspace
    } else {
        MenuKey::Other
    }
}

// ---------------------------------------------------------------------------
// Ranked search
// ---------------------------------------------------------------------------

/// A text starts with another.
pub open spec fn starts(s: Seq<char>, front: Seq<char>) -> bool {
    front.len() <= s.len() && s.take(front.len() as int) == front
}

/// A text holds another somewhere.
pub open spec fn holds(s: Seq<char>, part: Seq<char>) -> bool {
    exists|i: int| 0 <= i <= s.len() - part.len() && #[trigger] s.subrange(i, i + part.len()) == part
}

/// The rank of a label for a query, both in lowercase: 0 where the label starts with the query, 1 where it
/// holds it or the query is empty.
pub open spec fn rank_of(query: Seq<char>, label: Seq<char>) -> Option<usize> {
    if query.len() == 0 {
        Some(1)
    } else if starts(label, query) {
        Some(0)
    } else if holds(label, query) {
        Some(1)
    } else {
        None
    }
}

fn matches_at(s: &[char], part: &[char], at: usize) -> (r: bool)
    requires
        at + part.len() <= s.len(),
    ensures
        r == (s@.subrange(at as int, at + part.len()) == part@),
{
    let mut k: usize = 0;
    while k < part.len()
        invariant
            k <= part.len(),
            at + part.len() <= s.len(),
            forall|m: int| 0 <= m < k ==> s@[at + m] == part@[m],
        decreases part.len() - k,
    {
        if s[at + k] != part[k] {
            assert(s@.subrange(at as int, at + part.len())[k as int] != part@[k as int]);
            return false;
        }
        k = k + 1;
    }
    assert(s@.subrange(at as int, at + part.len()) =~= part@);
    true
}

/// Whether a text starts with another.
pub fn starts_with(s: &str, front: &str) -> (r: bool)
    ensures
        r == starts(s@, front@),
{
    let a = text::chars_of(s);
    let b = text::chars_of(front);
    if b.len() > a.len() {
        return false;
    }
    assert(a@.subrange(0, 0 + b.len()) =~= a@.take(b.len() as int));
    matches_at(&a, &b, 0)
}

/// Whether a text holds another somewhere.
pub fn contains(s: &str, part: &str) -> (r: bool)
    ensures
        r == holds(s@, part@),
{
    let a = text::chars_of(s);
    let b = text::chars_of(part);
    if b.len() > a.len() {
        return false;
    }
    let last: usize = a.len() - b.len();
    let mut i: usize = 0;
    loop
        invariant
            i <= last,
            last == a.len() - b.len(),
            b.len() <= a.len(),
            a@ == s@,
            b@ == part@,
            forall|k: int| 0 <= k < i ==> #[trigger] a@.subrange(k, k + b.len()) != b@,
        decreases last - i,
    {
        if matches_at(&a, &b, i) {
            return true;
        }
        if i == last {
            return false;
        }
        i = i + 1;
    }
}

/// The rank of a label for a query, given both in lowercase.
pub fn rank_lowered(query: &str, label: &str) -> (r: Option<usize>)
    ensures
        r == rank_of(query@, label@),
{
    if text::empty(query) {
        Some(1)
    } else if starts_with(label, query) {
        Some(0)
    } else if contains(label, query) {
        Some(1)
    } else {
        None
    }
}

/// The rank of a label for a query, without regard to case.
pub open spec fn rank_in(query: Seq<char>, label: Seq<char>) -> Option<usize> {
    rank_of(lowercase(trimmed(query)), lowercase(label))
}

/// Match rank of a label against a query: 0 for a prefix match, 1 for a match inside, `None` for none.
pub fn match_rank(query: &str, label: &str) -> (r: Option<usize>)
    ensures
        r == rank_in(query@, label@),
{
    let query = text::trim(query);
    let query = text::to_lower(query.as_str());
    let label = text::to_lower(label);
    rank_lowered(query.as_str(), label.as_str())
}

/// The positions of a rank, in order.
pub open spec fn ranked(ranks: Seq<Option<usize>>, rank: usize) -> Seq<int> {
    Seq::new(ranks.len(), |i: int| i).filter(|i: int| ranks[i] == Some(rank))
}

/// The positions of both ranks: those of rank 0 first, then those of rank 1, each in order.
pub open spec fn by_rank(ranks: Seq<Option<usize>>) -> Seq<int> {
    ranked(ranks, 0) + ranked(ranks, 1)
}

/// Positions as whole numbers.
pub open spec fn as_ints(s: Seq<usize>) -> Seq<int> {
    s.map_values(|i: usize| i as int)
}

fn push_ranked(ranks: &[Option<usize>], rank: usize, out: &mut Vec<usize>)
    ensures
        as_ints(final(out)@) == as_ints(old(out)@) + ranked(ranks@, rank),
{
    let ghost before = as_ints(out@);
    let ghost p = |i: int| ranks@[i] == Some(rank);
    let ghost all = Seq::new(ranks@.len(), |i: int| i);
    let mut i: usize = 0;
    proof {
        reveal(Seq::filter);
        assert(all.take(0) =~= Seq::<int>::empty());
        assert(before + all.take(0).filter(p) =~= before);
    }
    while i < ranks.len()
        invariant
            i <= ranks.len(),
            all == Seq::new(ranks@.len(), |i: int| i),
            p == (|i: int| ranks@[i] == Some(rank)),
            as_ints(out@) == before + all.take(i as int).filter(p),
        decreases ranks.len() - i,
    {
        let ghost now = out@;
        proof {
            assert(all.take(i + 1) =~= all.take(i as int).push(i as int));
            all.take(i as int).lemma_filter_push(i as int, p);
        }
        let hit = match ranks[i] {
            Some(r) => r == rank,
            None => false,
        };
        if hit {
            out.push(i);
            proof {
                assert(as_ints(out@) =~= as_ints(now).push(i as int));
                assert(as_ints(out@) =~= before + all.take(i + 1).filter(p));
            }
        }
        i = i + 1;
    }
    proof {
        assert(all.take(i as int) =~= all);
    }
}

/// The positions of matches by rank, then in order.
pub fn order_by_rank(ranks: &[Option<usize>]) -> (out: Vec<usize>)
    ensures
        as_ints(out@) == by_rank(ranks@),
{
    let mut out: Vec<usize> = Vec::new();
    push_ranked(ranks, 0, &mut out);
    push_ranked(ranks, 1, &mut out);
    proof {
        assert(as_ints(Seq::<usize>::empty()) + ranked(ranks@, 0) =~= ranked(ranks@, 0));
    }
    out
}

/// The ranks of labels for a query.
pub open spec fn ranks_for(query: Seq<char>, labels: Seq<String>) -> Seq<Option<usize>> {
    Seq::new(labels.len(), |i: int| rank_in(query, labels[i]@))
}

/// Every rank is 0 or 1.
pub proof fn ranks_are_small(query: Seq<char>, labels: Seq<String>)
    ensures
        forall|i: int|
            0 <= i < labels.len() ==> (#[trigger] ranks_for(query, labels)[i] matches Some(r) ==> r
                <= 1),
{
}

/// Filters and ranks labels for a query: prefix matches first, then matches inside, each in order. Returns
/// positions in `labels`.
pub fn filter_indices(query: &str, labels: &[String]) -> (out: Vec<usize>)
    ensures
        as_ints(out@) == by_rank(ranks_for(query@, labels@)),
{
    let mut ranks: Vec<Option<usize>> = Vec::new();
    let mut i: usize = 0;
    while i < labels.len()
        invariant
            i <= labels.len(),
            ranks.len() == i,
            forall|k: int| 0 <= k < i ==> #[trigger] ranks@[k] == rank_in(query@, labels@[k]@),
        decreases labels.len() - i,
    {
        ranks.push(match_rank(query, labels[i].as_str()));
        i = i + 1;
    }
    proof {
        assert(ranks@ =~= ranks_for(query@, labels@));
    }
    order_by_rank(&ranks)
}

/// Every position of the filtered list is one of a match, every match is in it once, and prefix matches
/// come before the others.
pub proof fn filter_lists_each_match_once(ranks: Seq<Option<usize>>)
    requires
        forall|i: int| 0 <= i < ranks.len() ==> (#[trigger] ranks[i] matches Some(r) ==> r <= 1),
    ensures
        by_rank(ranks).no_duplicates(),
        forall|i: int| by_rank(ranks).contains(i) <==> 0 <= i < ranks.len() && ranks[i] is Some,
        forall|a: int, b: int|
            0 <= a < b < by_rank(ranks).len() ==> (ranks[by_rank(ranks)[a]]->0
                < ranks[by_rank(ranks)[b]]->0 || (ranks[by_rank(ranks)[a]]
                == ranks[by_rank(ranks)[b]] && by_rank(ranks)[a] < by_rank(ranks)[b])),
{
    let all = by_rank(ranks);
    let zero = ranked(ranks, 0);
    let one = ranked(ranks, 1);
    ranked_meaning(ranks, 0);
    ranked_meaning(ranks, 1);
    assert forall|i: int| all.contains(i) <==> 0 <= i < ranks.len() && ranks[i] is Some by {
        if all.contains(i) {
            let k = choose|k: int| 0 <= k < all.len() && all[k] == i;
            if k < zero.len() {
                assert(zero.contains(zero[k]));
            } else {
                assert(one.contains(one[k - zero.len()]));
            }
        }
        if 0 <= i < ranks.len() && ranks[i] is Some {
            if ranks[i] == Some(0usize) {
                assert(zero.contains(i));
                let k = choose|k: int| 0 <= k < zero.len() && zero[k] == i;
                assert(all[k] == i);
            } else {
                assert(one.contains(i));
                let k = choose|k: int| 0 <= k < one.len() && one[k] == i;
                assert(all[zero.len() + k] == i);
            }
        }
    }
    assert forall|a: int, b: int| 0 <= a < b < all.len() implies (ranks[all[a]]->0
        < ranks[all[b]]->0 || (ranks[all[a]] == ranks[all[b]] && all[a] < all[b])) by {
        if a < zero.len() {
            assert(zero.contains(zero[a]));
        } else {
            assert(one.contains(one[a - zero.len()]));
        }
        if b < zero.len() {
            assert(zero.contains(zero[b]));
        } else {
            assert(one.contains(one[b - zero.len()]));
        }
    }
    assert forall|a: int, b: int| 0 <= a < all.len() && 0 <= b < all.len() && a != b implies all[a]
        != all[b] by {
        if a < b {
            assert(ranks[all[a]]->0 < ranks[all[b]]->0 || all[a] < all[b]);
        } else {
            assert(ranks[all[b]]->0 < ranks[all[a]]->0 || all[b] < all[a]);
        }
    }
}

proof fn ranked_meaning(ranks: Seq<Option<usize>>, rank: usize)
    ensures
        forall|i: int|
            ranked(ranks, rank).contains(i) <==> 0 <= i < ranks.len() && ranks[i] == Some(rank),
        forall|a: int, b: int|
            0 <= a < b < ranked(ranks, rank).len() ==> ranked(ranks, rank)[a] < ranked(
                ranks,
                rank,
            )[b],
{
    let p = |i: int| ranks[i] == Some(rank);
    let all = Seq::new(ranks.len(), |i: int| i);
    increasing_filter(all, p);
    assert forall|i: int| ranked(ranks, rank).contains(i) <==> 0 <= i < ranks.len() && ranks[i]
        == Some(rank) by {
        if ranked(ranks, rank).contains(i) {
            all.lemma_filter_contains_rev(p, i);
            let k = choose|k: int|
                0 <= k < all.filter(p).len() && all.filter(p)[k] == i;
            all.lemma_filter_pred(p, k);
        }
        if 0 <= i < ranks.len() && ranks[i] == Some(rank) {
            assert(all[i] == i);
            all.lemma_filter_contains(p, i);
        }
    }
}

proof fn increasing_filter(s: Seq<int>, p: spec_fn(int) -> bool)
    requires
        forall|a: int, b: int| 0 <= a < b < s.len() ==> s[a] < s[b],
    ensures
        forall|a: int, b: int| 0 <= a < b < s.filter(p).len() ==> s.filter(p)[a] < s.filter(p)[b],
    decreases s.len(),
{
    reveal(Seq::filter);
    if s.len() > 0 {
        let front = s.drop_last();
        increasing_filter(front, p);
        assert forall|a: int, b: int| 0 <= a < b < s.filter(p).len() implies s.filter(p)[a]
            < s.filter(p)[b] by {
            if p(s.last()) && b == s.filter(p).len() - 1 {
                assert(front.filter(p).contains(front.filter(p)[a]));
                front.lemma_filter_contains_rev(p, front.filter(p)[a]);
            }
        }
    }
}

// ---------------------------------------------------------------------------
// Headings
// ---------------------------------------------------------------------------

/// The hair space that stands between the letters of a heading.
pub const HAIR_SPACE: char = '\u{200A}';

/// A text with a hair space between its characters.
pub open spec fn spaced(s: Seq<char>) -> Seq<char>
    decreases s.len(),
{
    if s.len() <= 1 {
        s
    } else {
        spaced(s.drop_last()).push(HAIR_SPACE).push(s.last())
    }
}

/// Puts a hair space between the characters of a text.
pub fn space_letters(s: &str) -> (out: String)
    ensures
        out@ == spaced(s@),
{
    let chars = text::chars_of(s);
    let mut out = String::new();
    let mut i: usize = 0;
    proof {
        assert(chars@.take(0) =~= Seq::<char>::empty());
    }
    while i < chars.len()
        invariant
            i <= chars.len(),
            out@ == spaced(chars@.take(i as int)),
        decreases chars.len() - i,
    {
        proof {
            assert(chars@.take(i + 1).drop_last() =~= chars@.take(i as int));
        }
        if i > 0 {
            out.push(HAIR_SPACE);
        }
        out.push(chars[i]);
        proof {
            if i == 0 {
                assert(out@ =~= chars@.take(1));
            }
        }
        i = i + 1;
    }
    proof {
        assert(chars@.take(i as int) =~= chars@);
    }
    out
}

/// Uppercase with a hair space between the letters.
pub fn tracked_upper(label: &str) -> (out: String)
    ensures
        out@ == spaced(uppercase(label@)),
{
    let upper = text::to_upper(label);
    space_letters(upper.as_str())
}

} // verus!
