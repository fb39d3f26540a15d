//! The order of repositories in the picker.

use crate::gate::{name_at_most, names_le, names_le_is_total_order};
use crate::lists;
use crate::lists::{first_at, search_meaning, some_passes};
use crate::model::{Chat, Repo};
use crate::sorting::{stable_sort, stably_sorted, Precedence};
use crate::text;
use crate::text::{lowercase, texts};
use vstd::prelude::*;

verus! {

/// The folders of chats in order, without blanks and repetitions.
pub open spec fn distinct_cwds(chats: Seq<Chat>) -> Seq<Seq<char>>
    decreases chats.len(),
{
    if chats.len() == 0 {
        Seq::empty()
    } else {
        let before = distinct_cwds(chats.drop_last());
        match chats.last().cwd {
            Some(cwd) => if cwd@.len() > 0 && !before.contains(cwd@) {
                before.push(cwd@)
            } else {
                before
            },
            None => before,
        }
    }
}

/// Whether a text is among texts.
pub(crate) fn among(items: &[String], s: &str) -> (r: bool)
    ensures
        r == texts(items@).contains(s@),
{
    let ghost p = |t: String| t@ == s@;
    let equal = |t: &String| -> (b: bool)
        ensures
            b == p(*t),
        { text::same(t.as_str(), s) };
    let r = lists::any(items, equal, Ghost(p));
    proof {
        if some_passes(items@, p) {
            let i = choose|i: int| 0 <= i < items@.len() && p(items@[i]);
            assert(texts(items@)[i] == s@);
        }
        if texts(items@).contains(s@) {
            let i = choose|i: int| 0 <= i < texts(items@).len() && texts(items@)[i] == s@;
            assert(p(items@[i]));
        }
    }
    r
}

/// Folders of recent chats, most recent first, each once.
pub fn recent_cwds(chats: &[Chat]) -> (out: Vec<String>)
    ensures
        texts(out@) == distinct_cwds(chats@),
{
    let mut out: Vec<String> = Vec::new();
    let mut i: usize = 0;
    proof {
        assert(chats@.take(0) =~= Seq::<Chat>::empty());
        assert(texts(out@) =~= Seq::<Seq<char>>::empty());
    }
    while i < chats.len()
        invariant
            i <= chats.len(),
            texts(out@) == distinct_cwds(chats@.take(i as int)),
        decreases chats.len() - i,
    {
        proof {
            assert(chats@.take(i + 1).drop_last() =~= chats@.take(i as int));
        }
        if let Some(cwd) = &chats[i].cwd {
            if !text::empty(cwd.as_str()) && !among(&out, cwd.as_str()) {
                let ghost before = out@;
                out.push(cwd.clone());
                proof {
                    assert(texts(out@) =~= texts(before).push(cwd@));
                }
            }
        }
        i = i + 1;
    }
    proof {
        assert(chats@.take(i as int) =~= chats@);
    }
    out
}

/// No folder is listed twice, and none is blank.
pub proof fn recents_are_distinct(chats: Seq<Chat>)
    ensures
        distinct_cwds(chats).no_duplicates(),
        forall|i: int|
            0 <= i < distinct_cwds(chats).len() ==> (#[trigger] distinct_cwds(chats)[i]).len() > 0,
    decreases chats.len(),
{
    if chats.len() > 0 {
        recents_are_distinct(chats.drop_last());
    }
}

/// Repositories by name without regard to case, then by path.
pub struct RepoOrder;

impl Precedence<Repo> for RepoOrder {
    open spec fn le(a: Repo, b: Repo) -> bool {
        names_le(lowercase(a.name@), a.path@, lowercase(b.name@), b.path@)
    }

    proof fn total(a: Repo, b: Repo) {
        names_le_is_total_order(
            lowercase(a.name@),
            a.path@,
            lowercase(b.name@),
            b.path@,
            lowercase(b.name@),
            b.path@,
        );
    }

    proof fn transitive(a: Repo, b: Repo, c: Repo) {
        names_le_is_total_order(
            lowercase(a.name@),
            a.path@,
            lowercase(b.name@),
            b.path@,
            lowercase(c.name@),
            c.path@,
        );
    }

    fn at_most(a: &Repo, b: &Repo) -> bool {
        let al = text::to_lower(a.name.as_str());
        let bl = text::to_lower(b.name.as_str());
        name_at_most(al.as_str(), a.path.as_str(), bl.as_str(), b.path.as_str())
    }
}

/// The test for the repository at a path.
pub open spec fn repo_at(path: Seq<char>) -> spec_fn(Repo) -> bool {
    |r: Repo| r.path@ == path
}

/// Repositories with those at recent folders first, in the order of the folders; the rest follows in its
/// order.
pub open spec fn recents_first(repos: Seq<Repo>, recents: Seq<String>) -> Seq<Repo>
    decreases recents.len(),
{
    if recents.len() == 0 {
        repos
    } else {
        match first_at(repos, repo_at(recents[0]@)) {
            Some(i) => seq![repos[i]] + recents_first(repos.remove(i), recents.skip(1)),
            None => recents_first(repos, recents.skip(1)),
        }
    }
}

/// Moves the repositories at recent folders to the front.
pub fn pull_recents(repos: Vec<Repo>, recents: &[String]) -> (out: Vec<Repo>)
    ensures
        out@ == recents_first(repos@, recents@),
{
    let ghost all = repos@;
    let mut rest = repos;
    let mut out: Vec<Repo> = Vec::new();
    let mut i: usize = 0;
    proof {
        assert(recents@.skip(0) =~= recents@);
        assert(out@ + recents_first(rest@, recents@.skip(0)) =~= recents_first(all, recents@));
    }
    while i < recents.len()
        invariant
            i <= recents.len(),
            out@ + recents_first(rest@, recents@.skip(i as int)) == recents_first(all, recents@),
        decreases recents.len() - i,
    {
        let cwd = &recents[i];
        let ghost p = repo_at(cwd@);
        let here = |r: &Repo| -> (b: bool)
            ensures
                b == p(*r),
            { text::same(r.path.as_str(), cwd.as_str()) };
        proof {
            assert(recents@.skip(i as int)[0] == recents@[i as int]);
            assert(recents@.skip(i as int).skip(1) =~= recents@.skip(i + 1));
        }
        let ghost before = out@;
        let ghost now = rest@;
        match lists::position(&rest, here, Ghost(p)) {
            Some(at) => {
                let repo = rest.remove(at);
                out.push(repo);
                proof {
                    let tail = recents_first(rest@, recents@.skip(i + 1));
                    assert(before + (seq![now[at as int]] + tail) =~= out@ + tail);
                }
            },
            None => {},
        }
        i = i + 1;
    }
    proof {
        assert(recents@.skip(i as int).len() == 0);
    }
    let ghost front = out@;
    let ghost back = rest@;
    out.append(&mut rest);
    proof {
        assert(out@ =~= front + back);
    }
    out
}

/// Recents-first repository order: the rest follows by name.
pub fn order_repos(repos: Vec<Repo>, recents: &[String]) -> (out: Vec<Repo>)
    ensures
        exists|sorted: Seq<Repo>| #[trigger]
            stably_sorted::<Repo, RepoOrder>(repos@, sorted) && out@ == recents_first(
                sorted,
                recents@,
            ),
{
    let mut rows = repos;
    stable_sort::<Repo, RepoOrder>(&mut rows);
    pull_recents(rows, recents)
}

/// Pulling recents forward keeps the same repositories.
pub proof fn recents_first_keeps_repos(repos: Seq<Repo>, recents: Seq<String>)
    ensures
        recents_first(repos, recents).to_multiset() == repos.to_multiset(),
    decreases recents.len(),
{
    if recents.len() > 0 {
        let p = repo_at(recents[0]@);
        search_meaning(repos, p);
        match first_at(repos, p) {
            Some(i) => {
                let rest = repos.remove(i);
                recents_first_keeps_repos(rest, recents.skip(1));
                let tail = recents_first(rest, recents.skip(1));
                vstd::seq_lib::to_multiset_remove(repos, i);
                vstd::seq_lib::lemma_multiset_commutative(seq![repos[i]], tail);
                assert(seq![repos[i]].to_multiset() =~= vstd::multiset::Multiset::singleton(
                    repos[i],
                )) by {
                    vstd::seq_lib::to_multiset_build(Seq::<Repo>::empty(), repos[i]);
                    assert(Seq::<Repo>::empty().push(repos[i]) =~= seq![repos[i]]);
                    assert(Seq::<Repo>::empty().to_multiset() =~= vstd::multiset::Multiset::empty()) by {
                        vstd::seq_lib::to_multiset_len(Seq::<Repo>::empty());
                    }
                }
                vstd::seq_lib::to_multiset_contains(repos, repos[i]);
                assert(repos.contains(repos[i]));
                assert(recents_first(repos, recents).to_multiset() =~= repos.to_multiset());
            },
            None => {
                recents_first_keeps_repos(repos, recents.skip(1));
            },
        }
    }
}

} // verus!
