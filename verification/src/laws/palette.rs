//! The palette that adds a space.

use crate::laws::ground::filtered_members;
use crate::lists::{first_at, pointees, search_meaning};
use crate::model::{Chat, Device, FolderEntry, FolderListing, Space};
use crate::pickers::browse::{child_path, folder_rows, is_folder, parent_path};
use crate::popover;
use crate::popover::{by_rank, ranks_for, Loadable};
use crate::shell::frame::{Mutation, Route, Shell};
use crate::shell::palette;
use crate::shell::palette::{
    at_place, space_is, space_is_not, FolderCall, PaletteList, PaletteOutcome, PaletteView, SubmitPlan,
    Submitted,
};
use crate::state::AppState;
use crate::text::text_opt;
use crate::time::Timestamp;
use vstd::prelude::*;

verus! {

/// A folder is asked for on the picked device; this device needs no address.
pub open spec fn asks_on_device(call: FolderCall, device: Option<Device>, local: Option<String>) -> bool {
    match device {
        None => call.target_device is None,
        Some(d) => if local matches Some(l) && l@ == d.id@ {
            call.target_device is None
        } else {
            call.target_device matches Some(t) && t@ == d.id@
        },
    }
}

/// The palette opens on this device, or the first, at its home folder, with nothing typed.
pub proof fn the_palette_opens_at_home(
    s: &mut Shell,
    state: &AppState,
    call: Option<FolderCall>,
    device: Option<&Device>,
)
    requires
        call_ensures(Shell::open_add_space, (s, state), call),
        call_ensures(AppState::palette_device, (state,), device),
    ensures
        final(s).add_space matches Some(flow) && flow.query@.len() == 0 && flow.active == 0 && !flow.submit_busy
            && flow.error is None && flow.focus_pending && flow.browser_path is None && (match (
            flow.device,
            device,
        ) {
            (Some(a), Some(b)) => a == *b,
            (None, None) => true,
            _ => false,
        }),
        call is Some <==> device is Some && state.engine_attached,
        call matches Some(c) ==> c.path is None && asks_on_device(
            c,
            final(s).add_space->0.device,
            state.local_device_id,
        ) && final(s).add_space->0.browser is Loading,
        final(s).route == old(s).route,
{
}

/// Closing forgets the palette; typing starts the highlight over; an answer fills the list.
pub proof fn typing_and_answers(
    a: &mut Shell,
    b: &mut Shell,
    query: String,
    c: &mut Shell,
    result: Result<FolderListing, String>,
)
    requires
        call_ensures(Shell::close_add_space, (a,), ()),
        call_ensures(Shell::search_edited, (b, query), ()),
        call_ensures(Shell::folders_loaded, (c, result), ()),
    ensures
        final(a).add_space is None && final(a).route == old(a).route,
        old(b).add_space matches Some(was) ==> (final(b).add_space matches Some(flow) && flow.query == query
            && flow.active == 0 && flow.browser == was.browser && flow.device == was.device),
        old(b).add_space is None ==> final(b).add_space is None,
        old(c).add_space matches Some(was) ==> (final(c).add_space matches Some(flow) && flow.query
            == was.query && flow.active == was.active && (match result {
            Ok(listing) => flow.browser == Loadable::Ready(listing),
            Err(m) => flow.browser == Loadable::<FolderListing>::Error(m),
        })),
        old(c).add_space is None ==> final(c).add_space is None,
{
}

/// Another device starts at its home folder; the same one changes nothing.
pub proof fn another_device_starts_at_home(
    s: &mut Shell,
    state: &AppState,
    device: Device,
    call: Option<FolderCall>,
)
    requires
        call_ensures(Shell::add_space_pick_device, (s, state, device), call),
        old(s).add_space is Some,
    ensures
        (old(s).add_space->0.device matches Some(d) && d.id@ == device.id@) ==> *final(s) == *old(s)
            && call is None,
        (old(s).add_space->0.device matches Some(d) ==> d.id@ != device.id@) ==> {
            &&& final(s).add_space matches Some(flow) && flow.device == Some(device) && flow.query@.len() == 0
                && flow.active == 0 && flow.error is None && !flow.browser_repo
            &&& call is Some <==> state.engine_attached
            &&& call matches Some(c) ==> c.path is None && asks_on_device(
                c,
                Some(device),
                state.local_device_id,
            )
        },
{
}

/// Going into a folder, along the trail, or trying again asks for that folder.
pub proof fn folders_are_asked_for_by_path(
    a: &mut Shell,
    state: &AppState,
    full: String,
    is_repo: bool,
    down: Option<FolderCall>,
    b: &mut Shell,
    crumb: Option<FolderCall>,
    c: &mut Shell,
    again: Option<FolderCall>,
    d: &mut Shell,
    path: Option<String>,
    load: Option<FolderCall>,
)
    requires
        call_ensures(Shell::add_space_descend, (a, state, full, is_repo), down),
        call_ensures(Shell::add_space_crumb, (b, state, full), crumb),
        call_ensures(Shell::add_space_retry, (c, state), again),
        call_ensures(Shell::load_space_folders, (d, state, path), load),
        old(a).add_space is Some && old(b).add_space is Some && old(c).add_space is Some && old(d).add_space is Some,
    ensures
        down is Some <==> state.engine_attached,
        crumb is Some <==> state.engine_attached,
        again is Some <==> state.engine_attached,
        load is Some <==> state.engine_attached,
        down matches Some(f) ==> (f.path matches Some(p) && p@ == full@) && asks_on_device(
            f,
            old(a).add_space->0.device,
            state.local_device_id,
        ),
        final(a).add_space matches Some(flow) && flow.query@.len() == 0 && flow.browser_repo == is_repo,
        crumb matches Some(f) ==> (f.path matches Some(p) && p@ == full@),
        final(b).add_space matches Some(flow) && !flow.browser_repo && flow.query@ == old(b).add_space->0.query@,
        again matches Some(f) ==> text_opt(f.path) == text_opt(old(c).add_space->0.browser_path),
        final(c).add_space matches Some(flow) && flow.browser_repo == old(c).add_space->0.browser_repo,
        load matches Some(f) ==> text_opt(f.path) == text_opt(path),
        state.engine_attached ==> final(a).add_space->0.browser is Loading && final(a).add_space->0.active == 0,
{
}

/// Without a palette nothing is asked for.
pub proof fn a_closed_palette_asks_for_nothing(
    a: &mut Shell,
    state: &AppState,
    full: String,
    is_repo: bool,
    down: Option<FolderCall>,
    b: &mut Shell,
    crumb: Option<FolderCall>,
    c: &mut Shell,
    again: Option<FolderCall>,
    d: &mut Shell,
    path: Option<String>,
    load: Option<FolderCall>,
    e: &mut Shell,
    device: Device,
    pick: Option<FolderCall>,
    f: &mut Shell,
    up: Option<FolderCall>,
    g: &mut Shell,
    open: Option<FolderCall>,
    h: &Shell,
    rows: Vec<&FolderEntry>,
)
    requires
        call_ensures(Shell::add_space_descend, (a, state, full, is_repo), down),
        call_ensures(Shell::add_space_crumb, (b, state, full), crumb),
        call_ensures(Shell::add_space_retry, (c, state), again),
        call_ensures(Shell::load_space_folders, (d, state, path), load),
        call_ensures(Shell::add_space_pick_device, (e, state, device), pick),
        call_ensures(Shell::add_space_go_up, (f, state), up),
        call_ensures(Shell::add_space_open_active, (g, state), open),
        call_ensures(Shell::add_space_filtered, (h,), rows),
    ensures
        old(a).add_space is None ==> down is None && *final(a) == *old(a),
        old(b).add_space is None ==> crumb is None && *final(b) == *old(b),
        old(c).add_space is None ==> again is None && *final(c) == *old(c),
        old(d).add_space is None ==> load is None && *final(d) == *old(d),
        old(e).add_space is None ==> pick is None && *final(e) == *old(e),
        (old(f).add_space matches Some(flow) ==> !(flow.browser is Ready)) ==> up is None && *final(f) == *old(f),
        (old(g).add_space matches Some(flow) ==> !(flow.browser is Ready)) ==> open is None && *final(g)
            == *old(g),
        (h.add_space matches Some(flow) ==> !(flow.browser is Ready)) ==> rows@.len() == 0,
{
    assert(pointees(rows@).len() == rows@.len());
}

/// Up leads to the parent folder, and nowhere from the root.
pub proof fn up_leads_to_the_parent(
    s: &mut Shell,
    state: &AppState,
    call: Option<FolderCall>,
    listing: FolderListing,
    path: &str,
    up: Option<String>,
)
    requires
        call_ensures(Shell::add_space_go_up, (s, state), call),
        old(s).add_space matches Some(flow) && flow.browser == Loadable::Ready(listing),
        path@ == listing.path@,
        call_ensures(parent_path, (path,), up),
    ensures
        up is None ==> call is None && *final(s) == *old(s),
        up matches Some(parent) ==> {
            &&& call is Some <==> state.engine_attached
            &&& call matches Some(c) ==> (c.path matches Some(p) && p@ == parent@)
            &&& final(s).add_space matches Some(flow) && !flow.browser_repo && flow.query@
                == old(s).add_space->0.query@
        },
{
}

/// The highlighted folder is gone into by its full path, and it is remembered whether it is a repository.
pub proof fn the_highlighted_folder_is_gone_into(
    s: &mut Shell,
    state: &AppState,
    call: Option<FolderCall>,
    listing: FolderListing,
    view: &Shell,
    rows: Vec<&FolderEntry>,
    base: &str,
    name: &str,
    full: String,
)
    requires
        call_ensures(Shell::add_space_open_active, (s, state), call),
        old(s).add_space matches Some(flow) && flow.browser == Loadable::Ready(listing),
        *view == *old(s),
        call_ensures(Shell::add_space_filtered, (view,), rows),
        base@ == listing.path@,
        old(s).add_space->0.active < rows@.len() ==> name@ == rows@[old(s).add_space->0.active as int].name@,
        call_ensures(child_path, (base, name), full),
    ensures
        old(s).add_space->0.active >= rows@.len() ==> call is None && *final(s) == *old(s),
        old(s).add_space->0.active < rows@.len() ==> {
            &&& call is Some <==> state.engine_attached
            &&& call matches Some(c) ==> (c.path matches Some(p) && p@ == full@)
            &&& final(s).add_space matches Some(flow) && flow.browser_repo == rows@[old(s).add_space->0.active as int].is_repo && flow.query@.len() == 0
        },
{
    assert(pointees(rows@).len() == rows@.len());
    let at = old(s).add_space->0.active as int;
    if at < rows@.len() {
        assert(pointees(rows@)[at] == *rows@[at]);
    }
}

/// The palette lists the folders that the query finds, and only folders.
pub proof fn the_palette_lists_found_folders(
    s: &Shell,
    rows: Vec<&FolderEntry>,
    listing: FolderListing,
    i: int,
    query: &str,
    label: &str,
    rank: Option<usize>,
    k: int,
    shown: &str,
    found: Option<usize>,
)
    requires
        call_ensures(Shell::add_space_filtered, (s,), rows),
        s.add_space matches Some(flow) && flow.browser == Loadable::Ready(listing) && query@ == flow.query@,
        0 <= i < listing.entries@.len(),
        label@ == listing.entries@[i].name@,
        call_ensures(popover::match_rank, (query, label), rank),
        0 <= k < rows@.len() ==> shown@ == rows@[k].name@,
        call_ensures(popover::match_rank, (query, shown), found),
    ensures
        0 <= k < rows@.len() ==> rows@[k].is_dir && listing.entries@.contains(*rows@[k]) && found is Some,
        listing.entries@[i].is_dir && rank is Some ==> pointees(rows@).contains(listing.entries@[i]),
{
    let folders = folder_rows(listing);
    filtered_members(listing.entries@, is_folder());
    let names = palette::entry_names(folders);
    let ranks = ranks_for(query@, names);
    popover::ranks_are_small(query@, names);
    popover::filter_lists_each_match_once(ranks);
    let ints = by_rank(ranks);
    assert(pointees(rows@).len() == rows@.len());
    if 0 <= k < rows@.len() {
        assert(pointees(rows@)[k] == *rows@[k]);
        assert(ints.contains(ints[k]));
        assert(*rows@[k] == folders[ints[k]]);
        assert(is_folder()(folders[ints[k]]));
        assert(ranks[ints[k]] == found);
    }
    if listing.entries@[i].is_dir && rank is Some {
        assert(is_folder()(listing.entries@[i]));
        assert(listing.entries@.contains(listing.entries@[i]));
        assert(folders.contains(listing.entries@[i]));
        let m = choose|m: int| 0 <= m < folders.len() && folders[m] == listing.entries@[i];
        assert(ranks[m] == rank);
        assert(ints.contains(m));
        let n = choose|n: int| 0 <= n < ints.len() && ints[n] == m;
        assert(pointees(rows@)[n] == folders[m]);
    }
}

/// A folder that is a space already is switched to; any other becomes one, on its device, at its path. Nothing
/// happens without an engine, while a request is under way, or before a folder is shown.
pub proof fn a_folder_becomes_one_space(s: &Shell, state: &AppState, plan: SubmitPlan)
    requires
        call_ensures(Shell::submit_plan, (s, state), plan),
    ensures
        s.add_space is None || !state.engine_attached ==> plan is Nothing,
        s.add_space matches Some(flow) ==> {
            &&& flow.submit_busy || flow.device is None || !(flow.browser is Ready) ==> plan is Nothing
            &&& state.engine_attached && !flow.submit_busy && flow.device is Some && flow.browser is Ready
                ==> !(plan is Nothing)
            &&& plan matches SubmitPlan::Switch(id) ==> exists|i: int|
                0 <= i < state.spaces@.len() && (#[trigger] state.spaces@[i]).id == id
                    && state.spaces@[i].device_id@ == flow.device->0.id@ && state.spaces@[i].path@
                    == flow.browser->Ready_0.path@
            &&& plan matches SubmitPlan::Create { device_id, path, git_detected } ==> {
                &&& device_id == flow.device->0.id
                &&& path == flow.browser->Ready_0.path
                &&& git_detected == flow.browser_repo
                &&& forall|i: int|
                    0 <= i < state.spaces@.len() ==> (#[trigger] state.spaces@[i]).device_id@
                        != flow.device->0.id@ || state.spaces@[i].path@ != flow.browser->Ready_0.path@
            }
        },
{
    if s.add_space is Some && s.add_space->0.device is Some && s.add_space->0.browser is Ready {
        let flow = s.add_space->0;
        let device = flow.device->0;
        let listing = flow.browser->Ready_0;
        let p = at_place(device.id@, listing.path@);
        search_meaning(state.spaces@, p);
        if plan is Switch {
            let i = first_at(state.spaces@, p)->0;
            assert(p(state.spaces@[i]));
            assert(state.spaces@[i].id == plan->Switch_0);
        }
        if plan is Create {
            assert forall|i: int| 0 <= i < state.spaces@.len() implies (#[trigger] state.spaces@[i]).device_id@
                != device.id@ || state.spaces@[i].path@ != listing.path@ by {
                assert(!p(state.spaces@[i]));
            }
        }
    }
}

/// A new space is shown at once, at the end, and is asked for as it is shown.
pub proof fn a_new_space_is_shown_at_once(
    s: &mut Shell,
    state: &mut AppState,
    id: String,
    device: String,
    path: String,
    git: bool,
    name: &str,
    now: Timestamp,
    call: Mutation,
)
    requires
        old(s).add_space is Some,
        call_ensures(Shell::ask_space, (s, state, id, device, path, git, name, now), call),
        forall|i: int| 0 <= i < old(state).spaces@.len() ==> (#[trigger] old(state).spaces@[i]).id@ != id@,
    ensures
        call == (Mutation::CreateSpace { space_id: id, device_id: device, path, git_detected: git }),
        final(state).spaces@.len() == old(state).spaces@.len() + 1,
        final(state).spaces@.drop_last() == old(state).spaces@,
        final(state).spaces@.last().id == id && final(state).spaces@.last().device_id == device && final(state).spaces@.last().path == path && final(state).spaces@.last().display_name@ == name@ && final(state).spaces@.last().git_detected == git && final(state).spaces@.last().created_at == now,
        final(s).add_space matches Some(flow) && flow.submit_busy && flow.error is None,
        final(state).chats == old(state).chats && final(state).selected_space == old(state).selected_space,
{
    let p = space_is(id@);
    search_meaning(old(state).spaces@, p);
    if first_at(old(state).spaces@, p) is Some {
        assert(p(old(state).spaces@[first_at(old(state).spaces@, p)->0]));
    }
}

/// A refused space disappears and the palette says why; a made one is activated and the palette closes.
pub proof fn a_refused_space_disappears(
    s: &mut Shell,
    state: &mut AppState,
    id: String,
    result: Result<(), String>,
    now: Timestamp,
    seen: Option<String>,
    x: Space,
)
    requires
        call_ensures(Shell::space_answered, (s, state, id, result, now), seen),
    ensures
        result matches Err(m) ==> {
            &&& seen is None
            &&& final(state).spaces@.contains(x) <==> old(state).spaces@.contains(x) && x.id@ != id@
            &&& final(state).selected_space == old(state).selected_space
            &&& old(s).add_space is Some ==> (final(s).add_space matches Some(flow) && flow.error == Some(m)
                && !flow.submit_busy)
            &&& final(s).route == old(s).route
        },
        result is Ok ==> final(s).add_space is None && final(s).route == Route::Chat && final(s).settings.last_space_id == Some(id),
{
    filtered_members(old(state).spaces@, space_is_not(id@));
}

/// Enter does what was planned.
pub proof fn enter_does_what_was_planned(
    s: &mut Shell,
    state: &mut AppState,
    name: &str,
    now: Timestamp,
    r: Submitted,
    view: &Shell,
    before: &AppState,
    plan: SubmitPlan,
)
    requires
        call_ensures(Shell::submit_add_space, (s, state, name, now), r),
        *view == *old(s) && *before == *old(state),
        call_ensures(Shell::submit_plan, (view, before), plan),
    ensures
        plan is Nothing <==> r is Nothing,
        plan is Switch <==> r is Switched,
        plan is Create <==> r is Create,
        r is Nothing ==> *final(s) == *old(s) && *final(state) == *old(state),
        r is Switched ==> final(s).add_space is None && final(s).route == Route::Chat && (
        plan matches SubmitPlan::Switch(id) && final(s).settings.last_space_id == Some(id)),
        r matches Submitted::Create { call } ==> (plan matches SubmitPlan::Create {
            device_id,
            path,
            git_detected,
        } && (call matches Mutation::CreateSpace { device_id: d, path: p, git_detected: g, .. } && d
            == device_id && p == path && g == git_detected)) && (
        final(s).add_space matches Some(flow) && flow.submit_busy),
{
    let mine = choose|mine: SubmitPlan| #[trigger]
        palette::plan_is(*old(s), *old(state), mine) && match mine {
            SubmitPlan::Nothing => r is Nothing && *final(s) == *old(s) && *final(state) == *old(state),
            SubmitPlan::Switch(id) => r matches Submitted::Switched { send_seen }
                && crate::shell::spaces::activated(
                Shell { add_space: None, ..*old(s) },
                *old(state),
                id,
                now,
                *final(s),
                *final(state),
                text_opt(send_seen),
            ),
            SubmitPlan::Create { device_id, path, git_detected } => r matches Submitted::Create { call }
                && palette::space_asked(*old(s), *old(state), *final(s), *final(state), call, name@, now) && (
            call matches Mutation::CreateSpace { space_id, device_id: d, path: p, git_detected: g } && d
                == device_id && p == path && g == git_detected),
        };
    assert(palette::plan_is(*old(s), *old(state), plan));
}

/// The keys of the palette: right goes in, left goes up, escape closes, the arrows move, Enter submits, and
/// Backspace goes up only where nothing is typed.
pub proof fn the_palette_is_worked_by_keys(
    s: &mut Shell,
    state: &mut AppState,
    key: &str,
    cmd: bool,
    ctrl: bool,
    name: &str,
    now: Timestamp,
    r: PaletteOutcome,
)
    requires
        call_ensures(Shell::add_space_key, (s, state, key, cmd, ctrl, name, now), r),
        old(s).add_space is Some,
    ensures
        key@ == "right"@ || key@ == "left"@ ==> r is Browse && *final(state) == *old(state),
        key@ == "escape"@ ==> final(s).add_space is None && r is Nothing && *final(state) == *old(state),
        key@ == "up"@ || key@ == "down"@ ==> *final(state) == *old(state) && (
        r matches PaletteOutcome::Highlight(Some(at)) && final(s).add_space matches Some(flow) && flow.active
            == at && flow.query == old(s).add_space->0.query),
        key@ == "enter"@ ==> r is Submit,
        key@ == "backspace"@ ==> (if old(s).add_space->0.query@.len() == 0 {
            r is Browse && *final(state) == *old(state)
        } else {
            r is Nothing && *final(s) == *old(s) && *final(state) == *old(state)
        }),
        !(key@ == "right"@ || key@ == "left"@ || key@ == "escape"@ || key@ == "up"@ || key@ == "down"@ || key@
            == "enter"@ || key@ == "backspace"@) ==> r is Nothing && *final(s) == *old(s) && *final(state)
            == *old(state),
{
    reveal_strlit("right");
    reveal_strlit("left");
    reveal_strlit("escape");
    reveal_strlit("up");
    reveal_strlit("down");
    reveal_strlit("enter");
    reveal_strlit("backspace");
    assert("right"@.len() == 5 && "left"@.len() == 4 && "escape"@.len() == 6 && "up"@.len() == 2
        && "down"@.len() == 4 && "enter"@.len() == 5 && "backspace"@.len() == 9);
    assert("right"@[0] == 'r' && "enter"@[0] == 'e' && "left"@[0] == 'l' && "down"@[0] == 'd');
}

/// The arrows step through the folders that are shown.
pub proof fn the_arrows_step_through_the_folders(
    s: &mut Shell,
    state: &mut AppState,
    key: &str,
    name: &str,
    now: Timestamp,
    r: PaletteOutcome,
    view: &Shell,
    rows: Vec<&FolderEntry>,
    count: usize,
    by: isize,
    to: Option<usize>,
)
    requires
        call_ensures(Shell::add_space_key, (s, state, key, false, false, name, now), r),
        old(s).add_space is Some,
        key@ == "up"@ && by == -1 || key@ == "down"@ && by == 1,
        *view == *old(s),
        call_ensures(Shell::add_space_filtered, (view,), rows),
        count == rows@.len(),
        call_ensures(popover::menu_step, (Some(old(s).add_space->0.active), count, by), to),
    ensures
        to matches Some(at) ==> final(s).add_space->0.active == at,
        to is None ==> final(s).add_space->0.active == 0,
{
    reveal_strlit("right");
    reveal_strlit("left");
    reveal_strlit("escape");
    reveal_strlit("up");
    reveal_strlit("down");
    assert("right"@.len() == 5 && "left"@.len() == 4 && "up"@.len() == 2 && "down"@.len() == 4);
    assert("left"@[0] == 'l' && "down"@[0] == 'd');
    assert(pointees(rows@).len() == rows@.len());
}

/// Right and left go where the highlight and the trail say.
pub proof fn right_goes_in_and_left_goes_up(
    s: &mut Shell,
    state: &mut AppState,
    key: &str,
    name: &str,
    now: Timestamp,
    r: PaletteOutcome,
    t: &mut Shell,
    view: &AppState,
    down: Option<FolderCall>,
    u: &mut Shell,
    up: Option<FolderCall>,
)
    requires
        call_ensures(Shell::add_space_key, (s, state, key, false, false, name, now), r),
        old(s).add_space is Some,
        *old(t) == *old(s) && *old(u) == *old(s) && *view == *old(state),
        call_ensures(Shell::add_space_open_active, (t, view), down),
        call_ensures(Shell::add_space_go_up, (u, view), up),
    ensures
        key@ == "right"@ ==> (r matches PaletteOutcome::Browse(call) && (call is Some <==> down is Some) && (
        call matches Some(c) ==> text_opt(c.path) == text_opt(down->0.path))),
        key@ == "left"@ ==> (r matches PaletteOutcome::Browse(call) && (call is Some <==> up is Some) && (
        call matches Some(c) ==> text_opt(c.path) == text_opt(up->0.path))),
        key@ == "backspace"@ && old(s).add_space->0.query@.len() == 0 ==> (r matches PaletteOutcome::Browse(call)
            && (call is Some <==> up is Some)),
{
    reveal_strlit("right");
    reveal_strlit("left");
    reveal_strlit("escape");
    reveal_strlit("up");
    reveal_strlit("down");
    reveal_strlit("enter");
    reveal_strlit("backspace");
    assert("right"@.len() == 5 && "left"@.len() == 4 && "backspace"@.len() == 9 && "up"@.len() == 2
        && "down"@.len() == 4 && "enter"@.len() == 5 && "escape"@.len() == 6);
    assert("left"@[0] == 'l' && "right"@[0] == 'r');
}

/// The overlay shows the devices, the trail and the folders, says what went wrong, and takes the focus once.
pub proof fn the_overlay_shows_the_palette(
    s: &mut Shell,
    state: &AppState,
    r: (Option<PaletteView>, bool),
    t: &mut Shell,
    again: (Option<PaletteView>, bool),
    before: &Shell,
    rows: Vec<&FolderEntry>,
    path: &str,
    trail: Vec<(String, String)>,
)
    requires
        old(s).add_space matches Some(flow) ==> (flow.browser matches Loadable::Ready(listing) ==> path@
            == listing.path@),
        call_ensures(crate::pickers::browse::breadcrumbs, (path,), trail),
        call_ensures(Shell::add_space_overlay, (s, state), r),
        *old(t) == *final(s),
        call_ensures(Shell::add_space_overlay, (t, state), again),
        *before == *old(s),
        call_ensures(Shell::add_space_filtered, (before,), rows),
    ensures
        r.0 is Some <==> old(s).add_space is Some,
        r.1 <==> (old(s).add_space matches Some(flow) && flow.focus_pending),
        !again.1,
        r.0 matches Some(v) ==> {
            let flow = old(s).add_space->0;
            &&& v.error == flow.error
            &&& v.submit_ready <==> !flow.submit_busy && flow.browser is Ready
            &&& flow.submit_busy ==> v.submit_label@ == "Adding…"@
            &&& !flow.submit_busy ==> v.submit_label@ == "Enter"@
            &&& v.tabs@.len() == state.devices@.len()
            &&& forall|i: int|
                0 <= i < v.tabs@.len() ==> {
                    &&& (#[trigger] v.tabs@[i]).name == state.devices@[i].name
                    &&& v.tabs@[i].active <==> (flow.device matches Some(d) && d.id@ == state.devices@[i].id@)
                    &&& v.tabs@[i].local <==> (state.local_device_id matches Some(l) && l@
                        == state.devices@[i].id@)
                }
            &&& flow.browser is Idle || flow.browser is Loading ==> v.list is Skeleton
            &&& flow.browser matches Loadable::Error(m) ==> (v.list matches PaletteList::Failed(line) && (
            match flow.device {
                Some(d) => line@ == d.name@ + " didn't respond — is it online?"@,
                None => line@ == m@,
            }))
            &&& flow.browser is Ready && rows@.len() == 0 ==> (v.list matches PaletteList::Nothing(words)
                && words@ == (if flow.query@.len() == 0 {
                "No folders here"@
            } else {
                "No folders match"@
            }))
            &&& flow.browser is Ready && rows@.len() > 0 ==> (v.list matches PaletteList::Rows(shown)
                && shown@.len() == rows@.len() && forall|i: int|
                0 <= i < shown@.len() ==> (#[trigger] shown@[i]).name == rows@[i].name && shown@[i].is_repo
                    == rows@[i].is_repo && (shown@[i].active <==> i == flow.active))
            &&& !(flow.browser is Ready) ==> v.crumbs@.len() == 0
            &&& flow.browser is Ready ==> v.crumbs@.len() == trail@.len() - 1 && forall|i: int|
                0 <= i < v.crumbs@.len() ==> (#[trigger] v.crumbs@[i]).label@ == trail@[i + 1].0@
                    && v.crumbs@[i].path@ == trail@[i + 1].1@
            &&& forall|i: int|
                0 <= i < v.crumbs@.len() ==> ((#[trigger] v.crumbs@[i]).last <==> i == v.crumbs@.len() - 1)
        },
{
    assert(pointees(rows@).len() == rows@.len());
    if r.0 is Some && old(s).add_space->0.browser is Ready {
        let v = r.0->0;
        let all = crate::pickers::browse::crumb_views(trail@);
        assert(all.len() == trail@.len());
        assert forall|i: int| 0 <= i < v.crumbs@.len() implies (#[trigger] v.crumbs@[i]).label@
            == trail@[i + 1].0@ && v.crumbs@[i].path@ == trail@[i + 1].1@ by {
            assert(all[i + 1] == (trail@[i + 1].0@, trail@[i + 1].1@));
        }
    }
    if r.0 is Some && old(s).add_space->0.browser is Ready && rows@.len() > 0 {
        let v = r.0->0;
        assert forall|i: int| 0 <= i < v.list->Rows_0@.len() implies (
        #[trigger] v.list->Rows_0@[i]).name == rows@[i].name && v.list->Rows_0@[i].is_repo == rows@[i].is_repo
            && (v.list->Rows_0@[i].active <==> i == old(s).add_space->0.active) by {
            assert(pointees(rows@)[i] == *rows@[i]);
        }
    }
}

} // verus!
