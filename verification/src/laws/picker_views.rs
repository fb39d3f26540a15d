//! What the pickers and the popovers show.

use crate::laws::ground::filtered_members;
use crate::lists::pointees;
use crate::model::{
    Chat, ChatConfig, FolderEntry, FolderListing, HarnessDescriptor, HarnessId, Model, ModelOption,
    ReasoningLevel, Repo, SandboxLevel,
};
use crate::pickers::browse;
use crate::pickers::browse::{
    browser_rows, child_path, folder_rows, is_folder, parent_path, BrowseEnter,
};
use crate::pickers::draft;
use crate::pickers::draft::{is_real, visible_harnesses, DraftConfig};
use crate::pickers::repos;
use crate::pickers::repos::{distinct_cwds, order_repos, recent_cwds, RepoOrder};
use crate::pickers::state::{
    repo_names, search_repos, search_texts, PickerContext, PickerKind, Pickers, RepoPane,
};
use crate::pickers::views::{
    option_row, BranchPopover, BrowserView, Chips, ListBody, ModelPopover, OptionRow, RepoPopover,
    TraitsPopover,
};
use crate::popover;
use crate::popover::{by_rank, ranks_for, Loadable, MenuKey};
use crate::sorting::stably_sorted;
use crate::text;
use crate::text::{lowercase, texts};
use vstd::prelude::*;

verus! {

/// A row lies at this place of a list.
pub open spec fn lies_at(label: Seq<char>, query: Seq<char>, at: int) -> bool {
    &&& 0 <= at
    &&& at + query.len() <= label.len()
    &&& forall|k: int| 0 <= k < query.len() ==> label[at + k] == #[trigger] query[k]
}

/// A label is found by the plain query: at its start it ranks first, within it second, and a blank query
/// finds every label.
pub proof fn a_query_ranks_by_where_it_is_found(
    query: &str,
    label: &str,
    r: Option<usize>,
    plain: String,
    at: int,
)
    requires
        call_ensures(popover::match_rank, (query, label), r),
        call_ensures(text::trim, (query,), plain),
    ensures
        lowercase(plain@).len() == 0 ==> r == Some(1usize),
        lowercase(plain@).len() > 0 && lies_at(lowercase(label@), lowercase(plain@), 0) ==> r == Some(
            0usize,
        ),
        lies_at(lowercase(label@), lowercase(plain@), at) ==> r is Some,
        r == Some(0usize) ==> lies_at(lowercase(label@), lowercase(plain@), 0),
        r == Some(1usize) && lowercase(plain@).len() > 0 ==> !lies_at(
            lowercase(label@),
            lowercase(plain@),
            0,
        ) && exists|i: int| #[trigger] lies_at(lowercase(label@), lowercase(plain@), i),
{
    let q = lowercase(plain@);
    let l = lowercase(label@);
    if lies_at(l, q, 0) {
        assert(l.take(q.len() as int) =~= q);
    }
    if popover::starts(l, q) {
        assert forall|k: int| 0 <= k < q.len() implies l[0 + k] == #[trigger] q[k] by {
            assert(l.take(q.len() as int)[k] == l[k]);
        }
        assert(lies_at(l, q, 0));
    }
    if lies_at(l, q, at) {
        assert(l.subrange(at, at + q.len()) =~= q);
        assert(popover::holds(l, q));
    }
    if popover::holds(l, q) {
        let i = choose|i: int| 0 <= i <= l.len() - q.len() && #[trigger] l.subrange(i, i + q.len()) == q;
        assert forall|k: int| 0 <= k < q.len() implies l[i + k] == #[trigger] q[k] by {
            assert(l.subrange(i, i + q.len())[k] == l[i + k]);
        }
        assert(lies_at(l, q, i));
    }
}

/// The highlight steps on by one and wraps at both ends; an empty list has none.
pub proof fn the_highlight_wraps(active: Option<usize>, count: usize, down: Option<usize>, up: Option<usize>)
    requires
        call_ensures(popover::menu_step, (active, count, 1isize), down),
        call_ensures(popover::menu_step, (active, count, -1isize), up),
    ensures
        count == 0 ==> down is None && up is None,
        count > 0 && active is None ==> down == Some(0usize) && up == Some((count - 1) as usize),
        active matches Some(at) ==> (at < count ==> {
            &&& down == (if at + 1 == count {
                Some(0usize)
            } else {
                Some((at + 1) as usize)
            })
            &&& up == (if at == 0 {
                Some((count - 1) as usize)
            } else {
                Some((at - 1) as usize)
            })
        }),
{
    if count > 0 && active is Some && active->0 < count {
        let at = active->0 as int;
        let n = count as int;
        assert((at + 1) % n == (if at + 1 == n {
            0
        } else {
            at + 1
        })) by (nonlinear_arith)
            requires
                0 <= at < n,
        ;
        assert((at - 1) % n == (if at == 0 {
            n - 1
        } else {
            at - 1
        })) by (nonlinear_arith)
            requires
                0 <= at < n,
        ;
    }
}

/// The keys of a menu by their names; a modifier makes another Enter.
pub proof fn keys_are_told_by_name(key: &str, cmd: bool, ctrl: bool, r: MenuKey)
    requires
        call_ensures(popover::classify_key, (key, cmd, ctrl), r),
    ensures
        key@ == "up"@ ==> r == MenuKey::Up,
        key@ == "down"@ ==> r == MenuKey::Down,
        key@ == "enter"@ ==> r == (if cmd || ctrl {
            MenuKey::ModEnter
        } else {
            MenuKey::Enter
        }),
        key@ == "escape"@ ==> r == MenuKey::Escape,
        key@ == "backspace"@ ==> r == MenuKey::Backspace,
        r == MenuKey::Other <==> !(key@ == "up"@ || key@ == "down"@ || key@ == "enter"@ || key@
            == "escape"@ || key@ == "backspace"@),
{
    reveal_strlit("up");
    reveal_strlit("down");
    reveal_strlit("enter");
    reveal_strlit("escape");
    reveal_strlit("backspace");
    assert("up"@.len() == 2 && "down"@.len() == 4 && "enter"@.len() == 5 && "escape"@.len() == 6
        && "backspace"@.len() == 9);
}

/// What a slot holds: a value while it is ready, a message after a failure.
pub proof fn a_slot_shows_what_it_holds(
    slot: &Loadable<Vec<String>>,
    value: Option<&Vec<String>>,
    loading: bool,
    error: Option<&str>,
)
    requires
        call_ensures(Loadable::<Vec<String>>::ready, (slot,), value),
        call_ensures(Loadable::<Vec<String>>::is_loading, (slot,), loading),
        call_ensures(Loadable::<Vec<String>>::error, (slot,), error),
    ensures
        *slot is Idle ==> value is None && !loading && error is None,
        *slot is Loading ==> value is None && loading && error is None,
        *slot matches Loadable::Ready(v) ==> (value matches Some(got) && *got == v) && !loading
            && error is None,
        *slot matches Loadable::Error(m) ==> value is None && !loading && (error matches Some(shown)
            && shown@ == m@),
{
}

/// A search of texts leaves exactly those that the query finds.
pub proof fn a_search_leaves_what_it_finds(
    items: &[String],
    query: &str,
    out: Vec<String>,
    i: int,
    label: &str,
    rank: Option<usize>,
)
    requires
        call_ensures(search_texts, (items, query), out),
        0 <= i < items@.len(),
        label@ == items@[i]@,
        call_ensures(popover::match_rank, (query, label), rank),
    ensures
        rank is Some ==> out@.contains(items@[i]),
        forall|k: int| 0 <= k < out@.len() ==> items@.contains(#[trigger] out@[k]),
        out@.len() <= items@.len(),
{
    let ranks = ranks_for(query@, items@);
    popover::ranks_are_small(query@, items@);
    popover::filter_lists_each_match_once(ranks);
    let ints = by_rank(ranks);
    assert(ranks[i] == rank);
    if rank is Some {
        assert(ints.contains(i));
        let k = choose|k: int| 0 <= k < ints.len() && ints[k] == i;
        assert(out@[k] == items@[i]);
    }
    assert forall|k: int| 0 <= k < out@.len() implies items@.contains(#[trigger] out@[k]) by {
        assert(ints.contains(ints[k]));
        assert(out@[k] == items@[ints[k]]);
    }
    ranked_is_no_longer(ranks, items@.len() as int);
}

/// A search lists no more than there is.
pub proof fn ranked_is_no_longer(ranks: Seq<Option<usize>>, n: int)
    requires
        ranks.len() == n,
        forall|i: int| 0 <= i < ranks.len() ==> (#[trigger] ranks[i] matches Some(r) ==> r <= 1),
    ensures
        by_rank(ranks).len() <= n,
{
    popover::filter_lists_each_match_once(ranks);
    let ints = by_rank(ranks);
    ints.unique_seq_to_set();
    let all = vstd::set_lib::set_int_range(0, n);
    vstd::set_lib::lemma_int_range(0, n);
    assert(ints.to_set().subset_of(all)) by {
        assert forall|x: int| ints.to_set().contains(x) implies all.contains(x) by {
            assert(ints.contains(x));
        }
    }
    vstd::set_lib::lemma_len_subset(ints.to_set(), all);
}

/// A search of repositories leaves exactly those whose names the query finds.
pub proof fn a_search_finds_repositories_by_name(
    items: &[Repo],
    query: &str,
    out: Vec<Repo>,
    i: int,
    label: &str,
    rank: Option<usize>,
)
    requires
        call_ensures(search_repos, (items, query), out),
        0 <= i < items@.len(),
        label@ == items@[i].name@,
        call_ensures(popover::match_rank, (query, label), rank),
    ensures
        rank is Some ==> out@.contains(items@[i]),
        forall|k: int| 0 <= k < out@.len() ==> items@.contains(#[trigger] out@[k]),
        out@.len() <= items@.len(),
{
    let names = repo_names(items@);
    let ranks = ranks_for(query@, names);
    popover::ranks_are_small(query@, names);
    popover::filter_lists_each_match_once(ranks);
    let ints = by_rank(ranks);
    assert(ranks[i] == rank);
    if rank is Some {
        assert(ints.contains(i));
        let k = choose|k: int| 0 <= k < ints.len() && ints[k] == i;
        assert(out@[k] == items@[i]);
    }
    assert forall|k: int| 0 <= k < out@.len() implies items@.contains(#[trigger] out@[k]) by {
        assert(ints.contains(ints[k]));
        assert(out@[k] == items@[ints[k]]);
    }
    ranked_is_no_longer(ranks, items@.len() as int);
}

/// What a search shows was found by its query.
pub proof fn what_is_shown_was_found(
    items: &[String],
    repos: &[Repo],
    query: &str,
    out: Vec<String>,
    rows: Vec<Repo>,
    k: int,
    text: &str,
    name: &str,
    r: Option<usize>,
    s: Option<usize>,
)
    requires
        call_ensures(search_texts, (items, query), out),
        call_ensures(search_repos, (repos, query), rows),
        0 <= k < out@.len() ==> text@ == out@[k]@,
        0 <= k < rows@.len() ==> name@ == rows@[k].name@,
        call_ensures(popover::match_rank, (query, text), r),
        call_ensures(popover::match_rank, (query, name), s),
    ensures
        0 <= k < out@.len() ==> r is Some,
        0 <= k < rows@.len() ==> s is Some,
{
    let ranks = ranks_for(query@, items@);
    popover::ranks_are_small(query@, items@);
    popover::filter_lists_each_match_once(ranks);
    let ints = by_rank(ranks);
    if 0 <= k < out@.len() {
        assert(ints.contains(ints[k]));
        assert(out@[k] == items@[ints[k]]);
        assert(ranks[ints[k]] == r);
    }
    let names = repo_names(repos@);
    let others = ranks_for(query@, names);
    popover::ranks_are_small(query@, names);
    popover::filter_lists_each_match_once(others);
    let found = by_rank(others);
    if 0 <= k < rows@.len() {
        assert(found.contains(found[k]));
        assert(rows@[k] == repos@[found[k]]);
        assert(others[found[k]] == s);
    }
}

/// What is found at its start stands before what is found within, and equal finds keep their order.
pub proof fn finds_are_ordered_by_rank(
    query: &str,
    labels: &[String],
    out: Vec<usize>,
    a: int,
    b: int,
    first: &str,
    second: &str,
    r: Option<usize>,
    s: Option<usize>,
)
    requires
        call_ensures(popover::filter_indices, (query, labels), out),
        0 <= a < b < out@.len(),
        out@[a] < labels@.len() ==> first@ == labels@[out@[a] as int]@,
        out@[b] < labels@.len() ==> second@ == labels@[out@[b] as int]@,
        call_ensures(popover::match_rank, (query, first), r),
        call_ensures(popover::match_rank, (query, second), s),
    ensures
        out@[a] < labels@.len() && out@[b] < labels@.len() && out@[a] != out@[b],
        r is Some && s is Some,
        r->0 <= s->0,
        r == s ==> out@[a] < out@[b],
{
    let ranks = ranks_for(query@, labels@);
    popover::ranks_are_small(query@, labels@);
    popover::filter_lists_each_match_once(ranks);
    let ints = by_rank(ranks);
    assert(popover::as_ints(out@)[a] == out@[a] as int);
    assert(popover::as_ints(out@)[b] == out@[b] as int);
    assert(ints.contains(ints[a]) && ints.contains(ints[b]));
    assert(ranks[ints[a]] == r);
    assert(ranks[ints[b]] == s);
}

/// A name within a folder is reached by the folder's path, one slash and the name.
pub proof fn a_child_lies_below_its_folder(base: &str, name: &str, r: String)
    requires
        call_ensures(child_path, (base, name), r),
    ensures
        base@.len() > 0 && base@.last() == '/' ==> r@ == base@ + name@,
        base@.len() == 0 || base@.last() != '/' ==> r@ == base@ + seq!['/'] + name@,
{
    reveal_strlit("/");
    assert("/"@ =~= seq!['/']);
}

/// Going down a folder and up again leads back.
pub proof fn up_leads_back_from_down(base: &str, name: &str, full: String, path: &str, up: Option<String>)
    requires
        call_ensures(child_path, (base, name), full),
        path@ == full@,
        call_ensures(parent_path, (path,), up),
        base@.len() > 0 && base@.last() != '/',
        name@.len() > 0,
        !name@.contains('/'),
    ensures
        up matches Some(p) && p@ == base@,
{
    browse::parent_undoes_child(base@, name@);
}

/// The parent of a path: none without a slash, the root for what lies in the root, and slashes at the end make
/// no difference.
pub proof fn a_parent_is_found_by_the_last_slash(
    path: &str,
    up: Option<String>,
    longer: &str,
    same: Option<String>,
    name: Seq<char>,
)
    requires
        call_ensures(parent_path, (path,), up),
        longer@ == path@.push('/'),
        call_ensures(parent_path, (longer,), same),
    ensures
        text::text_opt(up) == text::text_opt(same),
        !path@.contains('/') ==> up is None,
        path@ == seq!['/'] + name && name.len() > 0 && !name.contains('/') ==> (up matches Some(p) && p@ == "/"@),
        path@ == seq!['/'] ==> up is None,
{
    assert(longer@.drop_last() =~= path@);
    assert(browse::without_slashes(longer@) == browse::without_slashes(path@));
    if !path@.contains('/') {
        if path@.len() > 0 {
            assert(path@.contains(path@.last()));
        }
        crate::project::last_at_meaning(path@, '/');
        let at = crate::project::last_at(path@, '/');
        if at >= 0 {
            assert(path@.contains(path@[at]));
        }
    }
    if path@ == seq!['/'] + name && name.len() > 0 && !name.contains('/') {
        assert(path@.last() == name.last());
        assert(name.contains(name.last()));
        crate::project::last_at_meaning(path@, '/');
        let at = crate::project::last_at(path@, '/');
        assert(path@[0] == '/');
        if at > 0 {
            assert(path@[at] == name[at - 1]);
            assert(name.contains(name[at - 1]));
        }
    }
    if path@ == seq!['/'] {
        assert(path@.drop_last() =~= Seq::<char>::empty());
        reveal_with_fuel(browse::without_slashes, 2);
    }
}

/// The browser lists the folders of a listing, and nothing else.
pub proof fn the_browser_lists_folders(listing: &FolderListing, rows: Vec<&FolderEntry>, e: FolderEntry)
    requires
        call_ensures(browser_rows, (listing,), rows),
    ensures
        pointees(rows@).contains(e) <==> listing.entries@.contains(e) && e.is_dir,
{
    filtered_members(listing.entries@, is_folder());
}

/// Enter takes a repository and goes into any other folder, by the full path.
pub proof fn enter_takes_or_goes_into(
    listing: &FolderListing,
    active: usize,
    rows: Vec<&FolderEntry>,
    r: Option<BrowseEnter>,
    base: &str,
    name: &str,
    full: String,
)
    requires
        call_ensures(browser_rows, (listing,), rows),
        call_ensures(browse::browse_enter, (listing, active), r),
        base@ == listing.path@,
        active < rows@.len() ==> name@ == rows@[active as int].name@,
        call_ensures(child_path, (base, name), full),
    ensures
        r is None <==> active >= rows@.len(),
        r matches Some(BrowseEnter::Pick(path)) ==> rows@[active as int].is_repo && path@ == full@,
        r matches Some(BrowseEnter::Descend(path)) ==> !rows@[active as int].is_repo && path@ == full@,
{
    assert(pointees(rows@).len() == rows@.len());
    if active < rows@.len() {
        assert(pointees(rows@)[active as int] == *rows@[active as int]);
    }
}

/// The trail begins at the root, and every step names the folder that it leads to.
pub proof fn the_trail_begins_at_the_root(path: &str, out: Vec<(String, String)>, k: int)
    requires
        call_ensures(browse::breadcrumbs, (path,), out),
    ensures
        out@.len() >= 1,
        out@[0].0@ == "/"@ && out@[0].1@ == "/"@,
        1 <= k < out@.len() ==> out@[k].1@.len() > out@[k].0@.len() && out@[k].1@.skip(
            out@[k].1@.len() - out@[k].0@.len(),
        ) == out@[k].0@ && out@[k].1@[out@[k].1@.len() - out@[k].0@.len() - 1] == '/',
{
    let names = browse::segments(path@);
    browse::trail_starts_at_root(names);
    assert(browse::crumb_views(out@).len() == out@.len());
    assert(browse::crumb_views(out@)[0] == (out@[0].0@, out@[0].1@));
    if 1 <= k < out@.len() {
        assert(browse::crumb_views(out@)[k] == (out@[k].0@, out@[k].1@));
        assert(browse::crumbs_of(names)[(k - 1) + 1] == (names[k - 1], browse::path_of(names.take(k))));
        let front = names.take(k);
        assert(front.last() == names[k - 1]);
        let whole = browse::path_of(front);
        let head = browse::path_of(front.drop_last()).push('/');
        assert(whole == head + front.last());
        assert(whole.skip(head.len() as int) =~= front.last());
        assert(whole[head.len() - 1] == '/');
    }
}

/// A new chat is configured with what was picked, and may write in its workspace.
pub proof fn a_chat_is_configured_as_picked(d: &DraftConfig, r: Option<ChatConfig>)
    requires
        call_ensures(DraftConfig::chat_config, (d,), r),
    ensures
        d.harness is None <==> r is None,
        r matches Some(c) ==> d.harness == Some(c.harness) && c.model == d.model && c.reasoning
            == d.reasoning && c.model_options == d.model_options && c.sandbox
            == SandboxLevel::WorkspaceWrite,
{
}

/// The test harness is offered only where there is no other.
pub proof fn the_mock_is_offered_last(list: &[HarnessDescriptor], out: Vec<&HarnessDescriptor>, d: HarnessDescriptor)
    requires
        call_ensures(visible_harnesses, (list,), out),
    ensures
        (exists|i: int| 0 <= i < list@.len() && (#[trigger] list@[i]).id != HarnessId::Mock) ==> (
        pointees(out@).contains(d) <==> list@.contains(d) && d.id != HarnessId::Mock),
        (forall|i: int| 0 <= i < list@.len() ==> (#[trigger] list@[i]).id == HarnessId::Mock)
            ==> pointees(out@) == list@,
{
    let p = is_real();
    filtered_members(list@, p);
    if exists|i: int| 0 <= i < list@.len() && (#[trigger] list@[i]).id != HarnessId::Mock {
        let i = choose|i: int| 0 <= i < list@.len() && (#[trigger] list@[i]).id != HarnessId::Mock;
        assert(list@.contains(list@[i]));
        assert(p(list@[i]));
        assert(list@.filter(p).contains(list@[i]));
    }
    if list@.filter(p).len() > 0 {
        let x = list@.filter(p)[0];
        assert(p(x) && list@.contains(x));
    }
}

/// The words of the levels.
pub proof fn levels_have_their_words(level: ReasoningLevel, r: &'static str)
    requires
        call_ensures(draft::reasoning_label, (level,), r),
    ensures
        level == ReasoningLevel::Minimal ==> r@ == "Minimal"@,
        level == ReasoningLevel::Low ==> r@ == "Low"@,
        level == ReasoningLevel::Medium ==> r@ == "Medium"@,
        level == ReasoningLevel::High ==> r@ == "High"@,
        level == ReasoningLevel::XHigh ==> r@ == "X-High"@,
        level == ReasoningLevel::Max ==> r@ == "Max"@,
        level == ReasoningLevel::Ultra ==> r@ == "Ultra"@,
        level == ReasoningLevel::Ultracode ==> r@ == "Ultracode"@,
        level == ReasoningLevel::Ultrathink ==> r@ == "Ultrathink"@,
{
}

/// A choice is summed up by its label, unless it is the default or unknown.
pub proof fn a_choice_is_summed_up_by_its_label(option: &ModelOption, chosen: Option<String>, r: Option<String>)
    requires
        call_ensures(draft::option_label, (option, chosen), r),
    ensures
        chosen is None ==> r is None,
        chosen matches Some(id) ==> (id@ == option.default_choice@ ==> r is None),
        r matches Some(label) ==> exists|i: int|
            0 <= i < option.choices@.len() && (#[trigger] option.choices@[i]).id@ == chosen->0@
                && option.choices@[i].label@ == label@,
        chosen matches Some(id) ==> (id@ != option.default_choice@ && r is None ==> forall|i: int|
            0 <= i < option.choices@.len() ==> (#[trigger] option.choices@[i]).id@ != id@),
{
    if chosen is Some {
        let p = draft::choice_is(chosen->0@);
        crate::laws::ground::searched(option.choices@, p);
        if r is None && chosen->0@ != option.default_choice@ {
            assert forall|i: int| 0 <= i < option.choices@.len() implies (
            #[trigger] option.choices@[i]).id@ != chosen->0@ by {
                assert(!p(option.choices@[i]));
            }
        }
    }
}

/// A summary begins with the level, and there is none where neither a level nor an option was picked.
pub proof fn a_summary_begins_with_the_level(
    model: Option<&Model>,
    reasoning: Option<ReasoningLevel>,
    selections: &serde_json::Map<String, serde_json::Value>,
    r: Option<String>,
    level: ReasoningLevel,
    words: &'static str,
)
    requires
        call_ensures(draft::traits_summary, (model, reasoning, selections), r),
        reasoning == Some(level),
        call_ensures(draft::reasoning_label, (level,), words),
    ensures
        r is Some,
        model is None ==> r->0@ == words@,
        r->0@.len() >= words@.len() && r->0@.take(words@.len() as int) == words@,
{
    let contents = crate::options::option_texts(*selections);
    let parts = draft::all_parts(crate::lists::pointee(model), reasoning, contents);
    assert(parts.len() > 0 && parts[0] == words@);
    joined_begins_with_the_first(parts, " · "@);
    if model is None {
        assert(parts =~= seq![words@]);
    }
}

/// A summary joins the level and the options that differ from their defaults, in the order of the model.
pub proof fn a_summary_names_what_differs(
    model: &Model,
    reasoning: Option<ReasoningLevel>,
    selections: &serde_json::Map<String, serde_json::Value>,
    r: Option<String>,
    words: &'static str,
    first: &ModelOption,
    one: Option<String>,
    a: Option<String>,
    second: &ModelOption,
    two: Option<String>,
    b: Option<String>,
)
    requires
        call_ensures(draft::traits_summary, (Some(model), reasoning, selections), r),
        reasoning is Some ==> call_ensures(draft::reasoning_label, (reasoning->0,), words),
        model.options@.len() == 2,
        *first == model.options@[0] && *second == model.options@[1],
        text::text_opt(one) == crate::options::chosen_in(crate::options::option_texts(*selections), first.id@),
        text::text_opt(two) == crate::options::chosen_in(crate::options::option_texts(*selections), second.id@),
        call_ensures(draft::option_label, (first, one), a),
        call_ensures(draft::option_label, (second, two), b),
    ensures
        reasoning is None && a is None && b is None ==> r is None,
        reasoning is None && a is Some && b is None ==> (r matches Some(s) && s@ == a->0@),
        reasoning is None && a is None && b is Some ==> (r matches Some(s) && s@ == b->0@),
        reasoning is None && a is Some && b is Some ==> (r matches Some(s) && s@ == a->0@ + " · "@ + b->0@),
        reasoning is Some && a is None && b is None ==> (r matches Some(s) && s@ == words@),
        reasoning is Some && a is Some && b is None ==> (r matches Some(s) && s@ == words@ + " · "@ + a->0@),
        reasoning is Some && a is Some && b is Some ==> (r matches Some(s) && s@ == words@ + " · "@ + a->0@
            + " · "@ + b->0@),
{
    let contents = crate::options::option_texts(*selections);
    let options = model.options@;
    reveal_with_fuel(draft::summary_parts, 3);
    reveal_with_fuel(draft::joined_by, 4);
    assert(options.drop_last().last() == options[0]);
    assert(options.drop_last().drop_last().len() == 0);
    let parts = draft::all_parts(Some(*model), reasoning, contents);
    let want = (if reasoning is Some {
        seq![words@]
    } else {
        Seq::<Seq<char>>::empty()
    }) + (if a is Some {
        seq![a->0@]
    } else {
        Seq::<Seq<char>>::empty()
    }) + (if b is Some {
        seq![b->0@]
    } else {
        Seq::<Seq<char>>::empty()
    });
    assert(parts =~= want);
    if parts.len() == 2 {
        assert(parts.drop_last()[0] == parts[0]);
    }
    if parts.len() == 3 {
        assert(parts.drop_last().drop_last()[0] == parts[0]);
        assert(parts.drop_last().last() == parts[1]);
    }
}

proof fn joined_begins_with_the_first(parts: Seq<Seq<char>>, by: Seq<char>)
    requires
        parts.len() > 0,
    ensures
        draft::joined_by(parts, by).len() >= parts[0].len(),
        draft::joined_by(parts, by).take(parts[0].len() as int) == parts[0],
    decreases parts.len(),
{
    if parts.len() == 1 {
        assert(parts[0].take(parts[0].len() as int) =~= parts[0]);
    } else {
        joined_begins_with_the_first(parts.drop_last(), by);
        let head = draft::joined_by(parts.drop_last(), by);
        assert(draft::joined_by(parts, by) =~= head + by + parts.last());
        assert(draft::joined_by(parts, by).take(parts[0].len() as int) =~= head.take(
            parts[0].len() as int,
        ));
    }
}

/// Parts are joined by the separator and nothing else.
pub proof fn two_parts_are_joined_by_the_separator(parts: &[String], by: &str, out: String)
    requires
        call_ensures(draft::join, (parts, by), out),
    ensures
        parts@.len() == 0 ==> out@.len() == 0,
        parts@.len() == 1 ==> out@ == parts@[0]@,
        parts@.len() == 2 ==> out@ == parts@[0]@ + by@ + parts@[1]@,
        parts@.len() == 3 ==> out@ == parts@[0]@ + by@ + parts@[1]@ + by@ + parts@[2]@,
{
    let t = texts(parts@);
    reveal_with_fuel(draft::joined_by, 4);
    if parts@.len() >= 1 {
        assert(t[0] == parts@[0]@);
    }
    if parts@.len() == 2 {
        assert(t.drop_last()[0] == t[0] && t.last() == parts@[1]@);
    }
    if parts@.len() == 3 {
        assert(t.drop_last().last() == parts@[1]@ && t.last() == parts@[2]@);
        assert(t.drop_last().drop_last()[0] == t[0]);
    }
}

/// Recent folders are those of chats, each once, and none is left out.
pub proof fn recent_folders_are_those_of_chats(chats: &[Chat], out: Vec<String>)
    requires
        call_ensures(recent_cwds, (chats,), out),
    ensures
        forall|i: int, j: int|
            0 <= i < j < out@.len() ==> (#[trigger] out@[i])@ != (#[trigger] out@[j])@,
        forall|k: int| 0 <= k < out@.len() ==> (#[trigger] out@[k])@.len() > 0,
        forall|k: int|
            0 <= k < out@.len() ==> exists|i: int|
                0 <= i < chats@.len() && ((#[trigger] chats@[i]).cwd matches Some(cwd) && cwd@ == (
                #[trigger] out@[k])@),
        forall|i: int|
            0 <= i < chats@.len() ==> ((#[trigger] chats@[i]).cwd matches Some(cwd) ==> (cwd@.len() > 0
                ==> texts(out@).contains(cwd@))),
{
    repos::recents_are_distinct(chats@);
    cwds_are_those_of_chats(chats@);
    let t = texts(out@);
    assert forall|k: int| 0 <= k < out@.len() implies (#[trigger] out@[k])@.len() > 0 by {
        assert(t[k] == out@[k]@);
    }
    assert forall|i: int, j: int| 0 <= i < j < out@.len() implies (#[trigger] out@[i])@ != (
    #[trigger] out@[j])@ by {
        assert(t[i] != t[j]);
    }
    assert forall|k: int| 0 <= k < out@.len() implies exists|i: int|
        0 <= i < chats@.len() && ((#[trigger] chats@[i]).cwd matches Some(cwd) && cwd@ == (
        #[trigger] out@[k])@) by {
        assert(t[k] == out@[k]@);
        assert(distinct_cwds(chats@).contains(t[k]));
    }
}

proof fn cwds_are_those_of_chats(chats: Seq<Chat>)
    ensures
        forall|s: Seq<char>| #[trigger]
            distinct_cwds(chats).contains(s) ==> exists|i: int|
                0 <= i < chats.len() && ((#[trigger] chats[i]).cwd matches Some(cwd) && cwd@ == s),
        forall|i: int|
            0 <= i < chats.len() ==> ((#[trigger] chats[i]).cwd matches Some(cwd) ==> (cwd@.len() > 0
                ==> distinct_cwds(chats).contains(cwd@))),
    decreases chats.len(),
{
    if chats.len() > 0 {
        let front = chats.drop_last();
        cwds_are_those_of_chats(front);
        let before = distinct_cwds(front);
        let all = distinct_cwds(chats);
        assert forall|s: Seq<char>| #[trigger] all.contains(s) implies exists|i: int|
            0 <= i < chats.len() && ((#[trigger] chats[i]).cwd matches Some(cwd) && cwd@ == s) by {
            if before.contains(s) {
                let i = choose|i: int|
                    0 <= i < front.len() && ((#[trigger] front[i]).cwd matches Some(cwd) && cwd@ == s);
                assert(chats[i] == front[i]);
            } else {
                let k = choose|k: int| 0 <= k < all.len() && all[k] == s;
                if k < before.len() {
                    assert(before[k] == s);
                }
                assert(chats[chats.len() - 1] == chats.last());
            }
        }
        assert forall|i: int| 0 <= i < chats.len() implies ((#[trigger] chats[i]).cwd matches Some(cwd)
            ==> (cwd@.len() > 0 ==> all.contains(cwd@))) by {
            if chats[i].cwd is Some && chats[i].cwd->0@.len() > 0 {
                let s = chats[i].cwd->0@;
                if i < front.len() {
                    assert(front[i] == chats[i]);
                    assert(before.contains(s));
                    let k = choose|k: int| 0 <= k < before.len() && before[k] == s;
                    assert(all[k] == s);
                } else if !before.contains(s) {
                    assert(all[before.len() as int] == s);
                }
            }
        }
    }
}

/// The repository list keeps every repository and puts the most recent folder first.
pub proof fn the_most_recent_repository_comes_first(list: Vec<Repo>, recents: &[String], out: Vec<Repo>, i: int)
    requires
        call_ensures(order_repos, (list, recents), out),
    ensures
        out@.to_multiset() == list@.to_multiset(),
        recents@.len() > 0 && 0 <= i < list@.len() && list@[i].path@ == recents@[0]@ ==> out@.len() > 0
            && out@[0].path@ == recents@[0]@,
{
    let sorted = choose|sorted: Seq<Repo>| #[trigger]
        stably_sorted::<Repo, RepoOrder>(list@, sorted) && out@ == repos::recents_first(sorted, recents@);
    repos::recents_first_keeps_repos(sorted, recents@);
    if recents@.len() > 0 && 0 <= i < list@.len() && list@[i].path@ == recents@[0]@ {
        crate::laws::ground::same_members(sorted, list@);
        let p = repos::repo_at(recents@[0]@);
        crate::lists::search_meaning(sorted, p);
        let k = choose|k: int| 0 <= k < sorted.len() && sorted[k] == list@[i];
        assert(p(sorted[k]));
    }
}

/// The chips say what was picked, and show which popover is open. A selected chat has a folder already.
pub proof fn chips_say_what_was_picked(
    p: &Pickers,
    ctx: PickerContext,
    chips: Chips,
    model: Option<&Model>,
    harness: Option<&HarnessDescriptor>,
    options: &serde_json::Map<String, serde_json::Value>,
    summary: Option<String>,
)
    requires
        call_ensures(Pickers::chips, (p, ctx), chips),
        *options == p.config.model_options,
        call_ensures(draft::traits_summary, (model, p.config.reasoning, options), summary),
        call_ensures(Pickers::selected_model, (p, ctx), model),
        call_ensures(Pickers::effective_descriptor, (p, ctx), harness),
    ensures
        ctx.chat_selected ==> chips.repo is None && chips.branch is None,
        !ctx.chat_selected ==> chips.repo is Some && chips.branch is Some,
        chips.repo matches Some(c) ==> {
            &&& p.config.repo matches Some(repo) ==> c.label@ == repo.name@ && c.set
            &&& p.config.repo is None ==> c.label@ == "Repo"@ && !c.set
            &&& c.open <==> p.open == Some(PickerKind::Repo)
        },
        chips.branch matches Some(c) ==> {
            &&& p.config.branch matches Some(branch) ==> c.label@ == branch@ && c.set
            &&& p.config.branch is None ==> c.label@ == "Branch"@ && !c.set
            &&& c.open <==> p.open == Some(PickerKind::Branch)
        },
        match (harness, model) {
            (Some(h), Some(m)) => chips.model.label@ == h.name@ + " · "@ + m.label@,
            (Some(h), None) => chips.model.label@ == h.name@,
            (None, _) => chips.model.label@ == "Model"@,
        },
        chips.model.set <==> p.config.model is Some,
        chips.model.open <==> p.open == Some(PickerKind::HarnessModel),
        chips.traits.set <==> summary is Some,
        summary matches Some(s) ==> chips.traits.label@ == s@,
        summary is None ==> chips.traits.label@ == "Traits"@,
        chips.traits.open <==> p.open == Some(PickerKind::Traits),
{
}

/// A list shows a skeleton while it loads, what went wrong, or its rows; the form says which form it is.
pub proof fn a_popover_shows_the_state_of_its_list(p: &Pickers, chats: &[Chat], view: RepoPopover)
    requires
        call_ensures(Pickers::repo_popover, (p, chats), view),
    ensures
        view is List <==> p.repo_pane == RepoPane::List,
        view is Browser <==> p.repo_pane == RepoPane::Browser,
        view is Form <==> p.repo_pane == RepoPane::CloneUrl || p.repo_pane == RepoPane::CreateName,
        view matches RepoPopover::List(body, active) ==> active == p.active && match p.repos {
            Loadable::Idle | Loadable::Loading => body is Skeleton,
            Loadable::Error(m) => body == ListBody::<Repo>::Failed(m),
            Loadable::Ready(_) => body is Nothing || (body matches ListBody::Rows(rows) && rows@.len()
                > 0),
        },
        view matches RepoPopover::Form(f) ==> {
            &&& p.repo_pane == RepoPane::CloneUrl ==> f.title@ == "Clone from URL"@
            &&& p.repo_pane == RepoPane::CreateName ==> f.title@ == "Create new repo"@
            &&& p.form_busy ==> f.submit_label@ == "Working…"@
            &&& !p.form_busy && p.repo_pane == RepoPane::CloneUrl ==> f.submit_label@ == "Clone"@
            &&& !p.form_busy && p.repo_pane == RepoPane::CreateName ==> f.submit_label@ == "Create"@
            &&& f.error == p.form_error
            &&& f.busy == p.form_busy
        },
{
}

/// The browser shows the folders of its listing in order, with one of them highlighted, and offers the folder
/// itself.
pub proof fn the_browser_shows_its_folder(p: &Pickers, view: BrowserView)
    requires
        call_ensures(Pickers::browser_view, (p,), view),
    ensures
        view.error == p.form_error,
        match p.browser {
            Loadable::Ready(listing) => {
                &&& view.use_this == Some(listing.path)
                &&& view.truncated == listing.truncated
                &&& view.crumbs@.len() >= 1
                &&& view.body matches ListBody::Rows(rows) ==> forall|i: int|
                    0 <= i < rows@.len() ==> {
                        &&& ((#[trigger] rows@[i]).highlighted <==> i == p.active)
                        &&& exists|k: int|
                            0 <= k < listing.entries@.len() && (#[trigger] listing.entries@[k]).is_dir
                                && listing.entries@[k].name == rows@[i].name && listing.entries@[k].is_repo
                                == rows@[i].is_repo
                    }
                &&& view.body is Nothing <==> forall|k: int|
                    0 <= k < listing.entries@.len() ==> !(#[trigger] listing.entries@[k]).is_dir
            },
            Loadable::Error(m) => view.body == ListBody::<crate::pickers::views::FolderRow>::Failed(m)
                && view.use_this is None,
            _ => view.body is Skeleton && view.use_this is None,
        },
{
    if p.browser is Ready {
        let listing = p.browser->Ready_0;
        filtered_members(listing.entries@, is_folder());
        browse::trail_starts_at_root(browse::segments(listing.path@));
        assert(browse::crumb_views(view.crumbs@).len() == view.crumbs@.len());
        let rows = folder_rows(listing);
        if view.body is Rows {
            assert forall|i: int| 0 <= i < view.body->Rows_0@.len() implies {
                &&& ((#[trigger] view.body->Rows_0@[i]).highlighted <==> i == p.active)
                &&& exists|k: int|
                    0 <= k < listing.entries@.len() && (#[trigger] listing.entries@[k]).is_dir
                        && listing.entries@[k].name == view.body->Rows_0@[i].name
                        && listing.entries@[k].is_repo == view.body->Rows_0@[i].is_repo
            } by {
                assert(is_folder()(rows[i]) && listing.entries@.contains(rows[i]));
                let k = choose|k: int| 0 <= k < listing.entries@.len() && listing.entries@[k] == rows[i];
                assert(listing.entries@[k].is_dir);
            }
        }
        if rows.len() == 0 {
            assert forall|k: int| 0 <= k < listing.entries@.len() implies !(
            #[trigger] listing.entries@[k]).is_dir by {
                if listing.entries@[k].is_dir {
                    assert(is_folder()(listing.entries@[k]));
                    assert(listing.entries@.contains(listing.entries@[k]));
                    assert(rows.contains(listing.entries@[k]));
                }
            }
        } else {
            assert(is_folder()(rows[0]) && listing.entries@.contains(rows[0]));
            let k = choose|k: int| 0 <= k < listing.entries@.len() && listing.entries@[k] == rows[0];
            assert(listing.entries@[k].is_dir);
        }
    }
}

/// The branch popover needs a repository. It marks the picked branch and the highlighted row.
pub proof fn the_branch_popover_marks_the_picked_branch(
    p: &Pickers,
    view: Option<BranchPopover>,
    found: Vec<String>,
)
    requires
        call_ensures(Pickers::branch_popover, (p,), view),
        call_ensures(Pickers::filtered_branch_rows, (p,), found),
    ensures
        view is Some <==> p.config.repo is Some,
        view matches Some(v) ==> {
            &&& v.isolated == p.config.isolated_worktree
            &&& p.branches matches Loadable::Error(m) ==> v.body == ListBody::<
                crate::pickers::views::BranchRow,
            >::Failed(m)
            &&& p.branches is Idle || p.branches is Loading ==> v.body is Skeleton
            &&& p.branches is Ready ==> (v.body is Nothing <==> found@.len() == 0)
            &&& v.body matches ListBody::Rows(rows) ==> rows@.len() == found@.len() && forall|i: int|
                0 <= i < rows@.len() ==> {
                    &&& (#[trigger] rows@[i]).name == found@[i]
                    &&& rows@[i].highlighted <==> i == p.active
                    &&& rows@[i].selected <==> (p.config.branch matches Some(b) && b@ == found@[i]@)
                }
        },
{
}

/// The rail marks the harness in effect, and the models are those of it, with one selected.
pub proof fn the_model_popover_marks_what_is_in_effect(
    p: &Pickers,
    ctx: PickerContext,
    view: ModelPopover,
    harness: Option<HarnessId>,
    slots: &crate::pickers::state::ModelSlots,
    slot: Option<&Loadable<Vec<Model>>>,
    listed: &[HarnessDescriptor],
    offered: Vec<&HarnessDescriptor>,
)
    requires
        call_ensures(Pickers::model_popover, (p, ctx), view),
        *slots == p.models,
        harness is Some ==> call_ensures(crate::pickers::state::ModelSlots::get, (slots, harness->0), slot),
        p.harnesses matches Loadable::Ready(list) ==> listed@ == list@,
        call_ensures(visible_harnesses, (listed,), offered),
        call_ensures(Pickers::effective_harness, (p, ctx), harness),
    ensures
        view.locked == ctx.chat_selected,
        view.rail matches ListBody::Rows(rows) ==> forall|i: int|
            0 <= i < rows@.len() ==> ((#[trigger] rows@[i]).active <==> harness == Some(rows@[i].id)),
        p.harnesses is Ready ==> view.rail is Rows,
        p.harnesses is Idle || p.harnesses is Loading ==> view.rail is Skeleton,
        p.harnesses matches Loadable::Error(m) ==> view.rail == ListBody::<
            crate::pickers::views::HarnessRow,
        >::Failed(m),
        harness is None ==> view.models is Skeleton,
        harness is Some ==> (slot matches Some(Loadable::Ready(list)) ==> (
        view.models matches ListBody::Rows(rows) && rows@.len() == list@.len() && forall|i: int|
            0 <= i < rows@.len() ==> (#[trigger] rows@[i]).id == list@[i].id && rows@[i].label
                == list@[i].label)),
        harness is Some ==> (slot matches Some(Loadable::Error(m)) ==> view.models == ListBody::<
            crate::pickers::views::ModelRow,
        >::Failed(*m)),
        harness is Some && (slot is None || *slot->0 is Loading || *slot->0 is Idle) ==> view.models is Skeleton,
        view.rail matches ListBody::Rows(rows) ==> rows@.len() == offered@.len() && forall|i: int|
            0 <= i < rows@.len() ==> (#[trigger] rows@[i]).id == offered@[i].id && rows@[i].name
                == offered@[i].name,
        view.models matches ListBody::Rows(rows) ==> forall|i: int|
            0 <= i < rows@.len() ==> ((#[trigger] rows@[i]).selected <==> match p.config.model {
                Some(id) => rows@[i].id@ == id@,
                None => i == 0,
            }),
{
    assert(pointees(offered@).len() == offered@.len());
    if view.rail is Rows {
        assert forall|i: int| 0 <= i < view.rail->Rows_0@.len() implies (
        #[trigger] view.rail->Rows_0@[i]).id == offered@[i].id && view.rail->Rows_0@[i].name
            == offered@[i].name by {
            assert(pointees(offered@)[i] == *offered@[i]);
        }
    }
}

/// The traits popover marks the picked level, and in each option the choice that holds.
pub proof fn the_traits_popover_marks_the_picked_level(
    p: &Pickers,
    ctx: PickerContext,
    view: Option<TraitsPopover>,
    model: Option<&Model>,
    harness: Option<&HarnessDescriptor>,
)
    requires
        call_ensures(Pickers::traits_popover, (p, ctx), view),
        call_ensures(Pickers::selected_model, (p, ctx), model),
        call_ensures(Pickers::effective_descriptor, (p, ctx), harness),
    ensures
        view is Some <==> model is Some,
        view matches Some(v) ==> {
            let m = model->0;
            &&& m.reasoning_levels@.len() > 0 ==> v.levels@.len() == m.reasoning_levels@.len()
                && forall|i: int|
                0 <= i < v.levels@.len() ==> (#[trigger] v.levels@[i]).level == m.reasoning_levels@[i]
            &&& m.reasoning_levels@.len() == 0 && harness is None ==> v.levels@.len() == 0
            &&& m.reasoning_levels@.len() == 0 && harness is Some ==> v.levels@.len()
                == harness->0.reasoning_levels@.len() && forall|i: int|
                0 <= i < v.levels@.len() ==> (#[trigger] v.levels@[i]).level
                    == harness->0.reasoning_levels@[i]
            &&& forall|i: int|
                0 <= i < v.levels@.len() && v.levels@[i].level == ReasoningLevel::XHigh ==> (
                #[trigger] v.levels@[i]).label@ == "X-High"@
            &&& forall|i: int|
                0 <= i < v.levels@.len() ==> ((#[trigger] v.levels@[i]).active <==> p.config.reasoning
                    == Some(v.levels@[i].level))
            &&& v.options@.len() == m.options@.len()
            &&& forall|i: int|
                0 <= i < v.options@.len() ==> (#[trigger] v.options@[i]).id == m.options@[i].id
                    && v.options@[i].label == m.options@[i].label
        },
{
}

/// In an option the choice that was made holds, and without one the default does.
pub proof fn an_option_marks_the_choice_that_holds(option: &ModelOption, chosen: Option<String>, row: OptionRow)
    requires
        call_ensures(option_row, (option, chosen), row),
    ensures
        row.id == option.id && row.label == option.label,
        row.choices@.len() == option.choices@.len(),
        forall|i: int|
            0 <= i < row.choices@.len() ==> {
                &&& (#[trigger] row.choices@[i]).id == option.choices@[i].id
                &&& row.choices@[i].label == option.choices@[i].label
                &&& row.choices@[i].is_default <==> option.choices@[i].id@ == option.default_choice@
                &&& chosen is None ==> (row.choices@[i].active <==> row.choices@[i].is_default)
                &&& chosen matches Some(id) ==> (row.choices@[i].active <==> option.choices@[i].id@
                    == id@)
            },
{
}

} // verus!
