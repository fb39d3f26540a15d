//! Folder paths and the folder browser.

use crate::lists;
use crate::lists::pointees;
use crate::model::{FolderEntry, FolderListing};
use crate::project::{last_at, last_at_meaning};
use crate::text;
use crate::text::{text_opt, texts};
use vstd::prelude::*;

verus! {

/// A path without the slashes it ends with.
pub open spec fn without_slashes(s: Seq<char>) -> Seq<char>
    decreases s.len(),
{
    if s.len() > 0 && s.last() == '/' {
        without_slashes(s.drop_last())
    } else {
        s
    }
}

/// The parent of an absolute path; the root and a bare name have none.
pub open spec fn parent_of(path: Seq<char>) -> Option<Seq<char>> {
    let trimmed = without_slashes(path);
    let slash = last_at(trimmed, '/');
    if trimmed.len() == 0 || slash < 0 {
        None
    } else if slash == 0 {
        Some("/"@)
    } else {
        Some(trimmed.take(slash))
    }
}

/// Parent of an absolute path; `None` at the root.
pub fn parent_path(path: &str) -> (r: Option<String>)
    ensures
        text_opt(r) == parent_of(path@),
{
    let chars = text::chars_of(path);
    let mut to: usize = chars.len();
    proof {
        assert(chars@.take(to as int) =~= path@);
    }
    while to > 0 && chars[to - 1] == '/'
        invariant
            to <= chars.len(),
            without_slashes(path@) == without_slashes(chars@.take(to as int)),
        decreases to,
    {
        proof {
            assert(chars@.take(to as int).drop_last() =~= chars@.take(to - 1));
        }
        to = to - 1;
    }
    let ghost trimmed = chars@.take(to as int);
    if to == 0 {
        return None;
    }
    let mut at: usize = to;
    proof {
        assert(trimmed.take(to as int) =~= trimmed);
    }
    while at > 0 && chars[at - 1] != '/'
        invariant
            at <= to <= chars.len(),
            trimmed == chars@.take(to as int),
            last_at(trimmed, '/') == last_at(trimmed.take(at as int), '/'),
        decreases at,
    {
        proof {
            assert(trimmed.take(at as int).drop_last() =~= trimmed.take(at - 1));
        }
        at = at - 1;
    }
    if at == 0 {
        None
    } else if at == 1 {
        Some("/".to_owned())
    } else {
        proof {
            assert(chars@.subrange(0, at - 1) =~= trimmed.take(at - 1));
        }
        Some(text::string_of(&chars, 0, at - 1))
    }
}

/// A listing's path and the name of one of its entries.
pub open spec fn child_of(base: Seq<char>, name: Seq<char>) -> Seq<char> {
    if base.len() > 0 && base.last() == '/' {
        base + name
    } else {
        base + "/"@ + name
    }
}

/// Joins a listing's path and the name of an entry.
pub fn child_path(base: &str, name: &str) -> (r: String)
    ensures
        r@ == child_of(base@, name@),
{
    let n: usize = base.unicode_len();
    if n > 0 && base.get_char(n - 1) == '/' {
        text::joined(base, name)
    } else {
        text::joined3(base, "/", name)
    }
}

proof fn nothing_to_strip(s: Seq<char>)
    requires
        s.len() > 0,
        s.last() != '/',
    ensures
        without_slashes(s) == s,
{
}

proof fn last_at_is(s: Seq<char>, i: int)
    requires
        0 <= i < s.len(),
        s[i] == '/',
        forall|k: int| i < k < s.len() ==> s[k] != '/',
    ensures
        last_at(s, '/') == i,
{
    last_at_meaning(s, '/');
    let k = last_at(s, '/');
    if k < i {
        assert(s[i] != '/');
    }
}

/// Going into an entry and back up leads to where it started.
pub proof fn parent_undoes_child(base: Seq<char>, name: Seq<char>)
    requires
        base == "/"@ || (base.len() > 0 && base.last() != '/'),
        name.len() > 0,
        !name.contains('/'),
    ensures
        parent_of(child_of(base, name)) == Some(base),
{
    reveal_strlit("/");
    let path = child_of(base, name);
    assert forall|k: int| 0 <= k < name.len() implies name[k] != '/' by {
        if name[k] == '/' {
            assert(name.contains('/'));
        }
    }
    assert(path.last() == name.last());
    nothing_to_strip(path);
    if base == "/"@ {
        assert(path =~= "/"@ + name);
        last_at_is(path, 0);
    } else {
        assert(path =~= base + "/"@ + name);
        last_at_is(path, base.len() as int);
        assert(path.take(base.len() as int) =~= base);
    }
}

/// The names in a path.
pub open spec fn segments(path: Seq<char>) -> Seq<Seq<char>>
    decreases path.len(),
    via segments_decreases
{
    if path.len() == 0 {
        Seq::empty()
    } else {
        let slash = last_at(path, '/');
        let last = path.skip(slash + 1);
        let before = if slash < 0 {
            Seq::empty()
        } else {
            segments(path.take(slash))
        };
        if last.len() > 0 {
            before.push(last)
        } else {
            before
        }
    }
}

#[via_fn]
proof fn segments_decreases(path: Seq<char>) {
    last_at_meaning(path, '/');
}

/// The absolute path of the first names.
pub open spec fn path_of(names: Seq<Seq<char>>) -> Seq<char>
    decreases names.len(),
{
    if names.len() == 0 {
        Seq::empty()
    } else {
        path_of(names.drop_last()).push('/') + names.last()
    }
}

/// The crumb of each name of a path with the path up to it, after the root.
pub open spec fn crumbs_of(names: Seq<Seq<char>>) -> Seq<(Seq<char>, Seq<char>)>
    decreases names.len(),
{
    if names.len() == 0 {
        seq![("/"@, "/"@)]
    } else {
        crumbs_of(names.drop_last()).push((names.last(), path_of(names)))
    }
}

/// The contents of crumbs.
pub open spec fn crumb_views(crumbs: Seq<(String, String)>) -> Seq<(Seq<char>, Seq<char>)> {
    crumbs.map_values(|c: (String, String)| (c.0@, c.1@))
}

/// The names before the last slash, and what follows it.
spec fn split_names(path: Seq<char>) -> (Seq<Seq<char>>, Seq<char>) {
    let slash = last_at(path, '/');
    (
        if slash < 0 {
            Seq::empty()
        } else {
            segments(path.take(slash))
        },
        path.skip(slash + 1),
    )
}

proof fn split_step(path: Seq<char>, c: char)
    ensures
        segments(path) == (if split_names(path).1.len() > 0 {
            split_names(path).0.push(split_names(path).1)
        } else {
            split_names(path).0
        }),
        c == '/' ==> split_names(path.push(c)) == (segments(path), Seq::<char>::empty()),
        c != '/' ==> split_names(path.push(c)) == (
            split_names(path).0,
            split_names(path).1.push(c),
        ),
{
    last_at_meaning(path, '/');
    let next = path.push(c);
    last_at_meaning(next, '/');
    assert(next.drop_last() =~= path);
    if path.len() == 0 {
        assert(path.skip(last_at(path, '/') + 1) =~= Seq::<char>::empty());
    }
    if c == '/' {
        assert(last_at(next, '/') == path.len());
        assert(next.take(path.len() as int) =~= path);
        assert(next.skip((path.len() + 1) as int) =~= Seq::<char>::empty());
    } else {
        let slash = last_at(path, '/');
        assert(last_at(next, '/') == slash);
        assert(next.skip(slash + 1) =~= path.skip(slash + 1).push(c));
        if slash >= 0 {
            assert(next.take(slash) =~= path.take(slash));
        }
    }
}

fn path_names(path: &str) -> (names: Vec<String>)
    ensures
        texts(names@) == segments(path@),
{
    let chars = text::chars_of(path);
    let mut names: Vec<String> = Vec::new();
    let mut current = String::new();
    let mut i: usize = 0;
    proof {
        let none = chars@.take(0);
        assert(none =~= Seq::<char>::empty());
        assert(none.skip(0) =~= Seq::<char>::empty());
        assert(texts(names@) =~= split_names(none).0);
        assert(current@ =~= split_names(none).1);
    }
    while i < chars.len()
        invariant
            i <= chars.len(),
            texts(names@) == split_names(chars@.take(i as int)).0,
            current@ == split_names(chars@.take(i as int)).1,
        decreases chars.len() - i,
    {
        let c: char = chars[i];
        let ghost before = names@;
        proof {
            assert(chars@.take(i + 1) =~= chars@.take(i as int).push(c));
            split_step(chars@.take(i as int), c);
        }
        if c == '/' {
            if !text::empty(current.as_str()) {
                names.push(current);
                proof {
                    assert(texts(names@) =~= texts(before).push(current@));
                }
            }
            current = String::new();
            proof {
                assert(current@ =~= Seq::<char>::empty());
            }
        } else {
            current.push(c);
        }
        i = i + 1;
    }
    proof {
        assert(chars@.take(i as int) =~= path@);
        split_step(path@, '/');
    }
    let ghost before = names@;
    if !text::empty(current.as_str()) {
        names.push(current);
        proof {
            assert(texts(names@) =~= texts(before).push(
                current@,
            ));
        }
    }
    names
}

/// Breadcrumbs of a path: a label and the full path for each, the root first.
pub fn breadcrumbs(path: &str) -> (out: Vec<(String, String)>)
    ensures
        crumb_views(out@) == crumbs_of(segments(path@)),
{
    let names = path_names(path);
    let ghost all = segments(path@);
    let mut out: Vec<(String, String)> = Vec::new();
    out.push(("/".to_owned(), "/".to_owned()));
    let mut full = String::new();
    let mut i: usize = 0;
    proof {
        assert(all.take(0) =~= Seq::<Seq<char>>::empty());
        assert(crumb_views(out@) =~= seq![("/"@, "/"@)]);
    }
    while i < names.len()
        invariant
            i <= names.len(),
            texts(names@) == all,
            crumb_views(out@) == crumbs_of(all.take(i as int)),
            full@ == path_of(all.take(i as int)),
        decreases names.len() - i,
    {
        let ghost before = out@;
        proof {
            assert(all.take(i + 1).drop_last() =~= all.take(i as int));
            assert(all[i as int] == names@[i as int]@);
        }
        full.push('/');
        full.append(names[i].as_str());
        out.push((names[i].clone(), full.clone()));
        proof {
            assert(crumb_views(out@) =~= crumb_views(before).push(
                (names@[i as int]@, full@),
            ));
        }
        i = i + 1;
    }
    proof {
        assert(all.take(i as int) =~= all);
    }
    out
}

/// The trail starts at the root and has one crumb more than the path has names.
pub proof fn trail_starts_at_root(names: Seq<Seq<char>>)
    ensures
        crumbs_of(names).len() == names.len() + 1,
        crumbs_of(names)[0] == ("/"@, "/"@),
        forall|k: int|
            0 <= k < names.len() ==> (#[trigger] crumbs_of(names)[k + 1]) == (
                names[k],
                path_of(names.take(k + 1)),
            ),
    decreases names.len(),
{
    if names.len() > 0 {
        let front = names.drop_last();
        trail_starts_at_root(front);
        assert forall|k: int| 0 <= k < names.len() implies (#[trigger] crumbs_of(names)[k + 1]) == (
            names[k],
            path_of(names.take(k + 1)),
        ) by {
            if k < front.len() {
                assert(crumbs_of(front)[k + 1] == (front[k], path_of(front.take(k + 1))));
                assert(front.take(k + 1) =~= names.take(k + 1));
            } else {
                assert(names.take(k + 1) =~= names);
            }
        }
    }
}

/// What Enter does on the active browser row.
#[derive(Debug, PartialEq, Eq)]
pub enum BrowseEnter {
    /// Go into a plain directory.
    Descend(String),
    /// The entry is a repository: pick it.
    Pick(String),
}

/// The test for a directory.
pub open spec fn is_folder() -> spec_fn(FolderEntry) -> bool {
    |e: FolderEntry| e.is_dir
}

/// The rows of a listing: its directories.
pub open spec fn folder_rows(listing: FolderListing) -> Seq<FolderEntry> {
    listing.entries@.filter(is_folder())
}

/// Directory rows of a listing; files never show.
pub fn browser_rows(listing: &FolderListing) -> (rows: Vec<&FolderEntry>)
    ensures
        pointees(rows@) == folder_rows(*listing),
{
    let ghost p = is_folder();
    let folder = |e: &FolderEntry| -> (b: bool)
        ensures
            b == p(*e),
        { e.is_dir };
    lists::select(&listing.entries, folder, Ghost(p))
}

/// What Enter means on a row: a repository is picked, a plain directory is gone into.
pub open spec fn entered(listing: FolderListing, active: int, r: Option<BrowseEnter>) -> bool {
    let rows = folder_rows(listing);
    if 0 <= active < rows.len() {
        let full = child_of(listing.path@, rows[active].name@);
        match r {
            Some(BrowseEnter::Pick(path)) => rows[active].is_repo && path@ == full,
            Some(BrowseEnter::Descend(path)) => !rows[active].is_repo && path@ == full,
            None => false,
        }
    } else {
        r is None
    }
}

/// Resolves Enter on a row of a listing.
pub fn browse_enter(listing: &FolderListing, active: usize) -> (r: Option<BrowseEnter>)
    ensures
        entered(*listing, active as int, r),
{
    let rows = browser_rows(listing);
    proof {
        assert(pointees(rows@).len() == rows@.len());
    }
    if active >= rows.len() {
        return None;
    }
    let entry = rows[active];
    proof {
        assert(pointees(rows@)[active as int] == *entry);
    }
    let full = child_path(listing.path.as_str(), entry.name.as_str());
    if entry.is_repo {
        Some(BrowseEnter::Pick(full))
    } else {
        Some(BrowseEnter::Descend(full))
    }
}

} // verus!
