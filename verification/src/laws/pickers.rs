//! The pickers: what is in effect, what is asked of the engine and what a choice does.

use crate::laws::ground::searched;
use crate::model::{Chat, FolderListing, HarnessDescriptor, HarnessId, Model, ReasoningLevel, Repo};
use crate::options::{nothing_chosen, option_texts};
use crate::pickers::browse::{child_path, parent_path};
use crate::pickers::state::{
    describes, model_is, ModelSlots, PickerCall, PickerContext, PickerKind, Pickers, Placeholder,
    RepoPane,
};
use crate::popover::{FocusTarget, Loadable, MenuKey};
use crate::text;
use vstd::prelude::*;

verus! {

/// The picked harness is in effect; where none is picked, that of the selected chat; and only where there is
/// none either, the first that is listed.
pub proof fn a_pick_wins_over_the_chat_and_the_list(p: &Pickers, ctx: PickerContext, r: Option<HarnessId>)
    requires
        call_ensures(Pickers::effective_harness, (p, ctx), r),
    ensures
        p.config.harness is Some ==> r == p.config.harness,
        p.config.harness is None && ctx.chat_harness is Some ==> r == ctx.chat_harness,
        p.config.harness is None && ctx.chat_harness is None ==> match p.harnesses {
            Loadable::Ready(list) => if list@.len() > 0 {
                r == Some(list@[0].id)
            } else {
                r is None
            },
            _ => r is None,
        },
{
}

/// Which list of harnesses is loaded makes no difference where one is picked or configured.
pub proof fn a_configured_harness_needs_no_list(
    p: &Pickers,
    q: &Pickers,
    ctx: PickerContext,
    r: Option<HarnessId>,
    s: Option<HarnessId>,
)
    requires
        call_ensures(Pickers::effective_harness, (p, ctx), r),
        call_ensures(Pickers::effective_harness, (q, ctx), s),
        p.config.harness == q.config.harness,
        p.config.harness is Some || ctx.chat_harness is Some,
    ensures
        r == s,
        r is Some,
{
}

/// The models of one harness are kept apart from those of another.
pub proof fn models_are_kept_by_harness(
    slots: &mut ModelSlots,
    harness: HarnessId,
    value: Loadable<Vec<Model>>,
    other: HarnessId,
    before: &ModelSlots,
    was: Option<&Loadable<Vec<Model>>>,
    after: &ModelSlots,
    now: Option<&Loadable<Vec<Model>>>,
)
    requires
        call_ensures(ModelSlots::insert, (slots, harness, value), ()),
        *before == *old(slots),
        *after == *final(slots),
        call_ensures(ModelSlots::get, (before, other), was),
        call_ensures(ModelSlots::get, (after, other), now),
    ensures
        other == harness ==> (now matches Some(slot) && *slot == value),
        other != harness ==> (match (was, now) {
            (Some(a), Some(b)) => *a == *b,
            (None, None) => true,
            _ => false,
        }),
{
}

/// The model in effect is the picked one of the models of the harness in effect, or else the first of them.
pub proof fn the_model_is_one_of_its_harness(
    p: &Pickers,
    ctx: PickerContext,
    harness: Option<HarnessId>,
    slots: &ModelSlots,
    slot: Option<&Loadable<Vec<Model>>>,
    r: Option<&Model>,
)
    requires
        call_ensures(Pickers::effective_harness, (p, ctx), harness),
        *slots == p.models,
        harness is Some ==> call_ensures(ModelSlots::get, (slots, harness->0), slot),
        call_ensures(Pickers::selected_model, (p, ctx), r),
    ensures
        harness is None ==> r is None,
        harness is Some && !(slot matches Some(Loadable::Ready(_))) ==> r is None,
        harness is Some ==> (slot matches Some(Loadable::Ready(models)) ==> match r {
            Some(m) => models@.contains(*m) && match p.config.model {
                Some(id) => m.id@ == id@,
                None => *m == models@[0],
            },
            None => match p.config.model {
                Some(id) => forall|i: int| 0 <= i < models@.len() ==> (#[trigger] models@[i]).id@ != id@,
                None => models@.len() == 0,
            },
        }),
{
    if harness is Some && slot is Some && *slot->0 is Ready {
        let models = (*slot->0)->Ready_0;
        if p.config.model is Some {
            let q = model_is(p.config.model->0@);
            searched(models@, q);
            if r is None {
                assert forall|i: int| 0 <= i < models@.len() implies (#[trigger] models@[i]).id@
                    != p.config.model->0@ by {
                    assert(!q(models@[i]));
                }
            }
        } else if models@.len() > 0 {
            assert(models@.contains(models@[0]));
        }
    }
}

/// The descriptor in effect describes the harness in effect.
pub proof fn the_descriptor_is_of_the_harness_in_effect(
    p: &Pickers,
    ctx: PickerContext,
    harness: Option<HarnessId>,
    r: Option<&HarnessDescriptor>,
)
    requires
        call_ensures(Pickers::effective_harness, (p, ctx), harness),
        call_ensures(Pickers::effective_descriptor, (p, ctx), r),
    ensures
        r matches Some(d) ==> harness == Some(d.id) && (p.harnesses matches Loadable::Ready(list)
            && list@.contains(*d)),
        r is None ==> (p.harnesses matches Loadable::Ready(list) ==> forall|i: int|
            0 <= i < list@.len() ==> harness != Some((#[trigger] list@[i]).id)),
{
    if harness is Some && p.harnesses is Ready {
        let list = p.harnesses->Ready_0;
        let q = describes(harness->0);
        searched(list@, q);
        if r is None {
            assert forall|i: int| 0 <= i < list@.len() implies harness != Some(
                (#[trigger] list@[i]).id,
            ) by {
                assert(!q(list@[i]));
            }
        }
    }
}

/// A list is asked for once: not while it is there or under way, and not without an engine.
pub proof fn lists_are_asked_for_once(
    a: &mut Pickers,
    attached: bool,
    asked: Option<PickerCall>,
    b: &mut Pickers,
    force: bool,
    repos: Option<PickerCall>,
    c: &mut Pickers,
    harness: HarnessId,
    models: Option<PickerCall>,
)
    requires
        call_ensures(Pickers::ensure_harnesses, (a, attached), asked),
        call_ensures(Pickers::ensure_repos, (b, force, attached), repos),
        call_ensures(Pickers::ensure_models, (c, harness, attached), models),
    ensures
        !attached ==> asked is None && repos is None && models is None,
        asked is Some <==> attached && (old(a).harnesses is Idle || old(a).harnesses is Error),
        asked is Some ==> asked == Some(PickerCall::ListHarnesses) && final(a).harnesses is Loading,
        asked is None ==> *final(a) == *old(a),
        final(a).config == old(a).config && final(a).models == old(a).models && final(a).open == old(a).open,
        repos is Some <==> attached && (force || old(b).repos is Idle || old(b).repos is Error),
        repos is Some ==> repos == Some(PickerCall::ListRepos) && final(b).repos is Loading,
        repos is None ==> *final(b) == *old(b),
        final(b).config == old(b).config && final(b).open == old(b).open && final(b).search == old(b).search,
        models is Some ==> models == Some(PickerCall::ListModels(harness)),
        models is None ==> *final(c) == *old(c),
        final(c).config == old(c).config && final(c).harnesses == old(c).harnesses,
{
}

/// The models of a harness are asked for where they are neither there nor under way.
pub proof fn missing_models_are_asked_for(
    p: &mut Pickers,
    harness: HarnessId,
    attached: bool,
    call: Option<PickerCall>,
    before: &ModelSlots,
    was: Option<&Loadable<Vec<Model>>>,
    after: &ModelSlots,
    now: Option<&Loadable<Vec<Model>>>,
)
    requires
        call_ensures(Pickers::ensure_models, (p, harness, attached), call),
        *before == old(p).models,
        *after == final(p).models,
        call_ensures(ModelSlots::get, (before, harness), was),
        call_ensures(ModelSlots::get, (after, harness), now),
    ensures
        call is Some <==> attached && match was {
            Some(slot) => *slot is Idle || *slot is Error,
            None => true,
        },
        call is Some ==> (now matches Some(slot) && *slot is Loading),
{
}

/// Branches belong to the picked repository: those of another one are asked for anew.
pub proof fn branches_are_those_of_the_repository(
    p: &mut Pickers,
    force: bool,
    attached: bool,
    call: Option<PickerCall>,
)
    requires
        call_ensures(Pickers::ensure_branches, (p, force, attached), call),
    ensures
        old(p).config.repo is None || !attached ==> call is None,
        old(p).config.repo matches Some(repo) ==> {
            let known = old(p).branches_repo matches Some(path) && path@ == repo.path@;
            let there = old(p).branches is Ready || old(p).branches is Loading;
            &&& attached ==> (call is Some <==> force || !known || !there)
            &&& call matches Some(c) ==> c == PickerCall::ListBranches(repo.path) && final(p).branches is Loading && final(p).branches_repo == Some(repo.path)
        },
        call is None ==> *final(p) == *old(p),
        final(p).config == old(p).config,
{
}

/// An answer fills its own list: the value is shown, or what went wrong.
pub proof fn an_answer_fills_its_own_list(
    a: &mut Pickers,
    repos: Result<Vec<Repo>, String>,
    b: &mut Pickers,
    branches: Result<Vec<String>, String>,
    c: &mut Pickers,
    folder: Result<FolderListing, String>,
)
    requires
        call_ensures(Pickers::repos_loaded, (a, repos), ()),
        call_ensures(Pickers::branches_loaded, (b, branches), ()),
        call_ensures(Pickers::folders_loaded, (c, folder), ()),
    ensures
        repos matches Ok(v) ==> final(a).repos == Loadable::Ready(v),
        repos matches Err(m) ==> final(a).repos == Loadable::<Vec<Repo>>::Error(m),
        final(a).branches == old(a).branches && final(a).browser == old(a).browser && final(a).config
            == old(a).config,
        branches matches Ok(v) ==> final(b).branches == Loadable::Ready(v),
        branches matches Err(m) ==> final(b).branches == Loadable::<Vec<String>>::Error(m),
        final(b).repos == old(b).repos && final(b).branches_repo == old(b).branches_repo,
        folder matches Ok(v) ==> final(c).browser == Loadable::Ready(v),
        folder matches Err(m) ==> final(c).browser == Loadable::<FolderListing>::Error(m),
        final(c).repos == old(c).repos && final(c).browser_path == old(c).browser_path,
{
}

/// The models that arrive are those of their harness.
pub proof fn models_arrive_at_their_harness(
    p: &mut Pickers,
    harness: HarnessId,
    result: Result<Vec<Model>, String>,
    after: &ModelSlots,
    other: HarnessId,
    slot: Option<&Loadable<Vec<Model>>>,
    before: &ModelSlots,
    was: Option<&Loadable<Vec<Model>>>,
)
    requires
        call_ensures(Pickers::models_loaded, (p, harness, result), ()),
        *after == final(p).models,
        *before == old(p).models,
        call_ensures(ModelSlots::get, (after, other), slot),
        call_ensures(ModelSlots::get, (before, other), was),
    ensures
        other == harness ==> (slot matches Some(l) && match result {
            Ok(models) => *l == Loadable::Ready(models),
            Err(message) => *l == Loadable::<Vec<Model>>::Error(message),
        }),
        other != harness ==> (match (was, slot) {
            (Some(a), Some(b)) => *a == *b,
            (None, None) => true,
            _ => false,
        }),
        final(p).config == old(p).config,
{
}

/// When the harnesses arrive, the models of the harness that is then in effect are asked for.
pub proof fn harnesses_bring_their_models(
    p: &mut Pickers,
    result: Result<Vec<HarnessDescriptor>, String>,
    ctx: PickerContext,
    call: Option<PickerCall>,
    after: &Pickers,
    harness: Option<HarnessId>,
    slots: &ModelSlots,
    slot: Option<&Loadable<Vec<Model>>>,
)
    requires
        call_ensures(Pickers::harnesses_loaded, (p, result, ctx), call),
        *slots == old(p).models,
        harness is Some ==> call_ensures(ModelSlots::get, (slots, harness->0), slot),
        *after == *final(p),
        call_ensures(Pickers::effective_harness, (after, ctx), harness),
    ensures
        match result {
            Ok(list) => final(p).harnesses == Loadable::Ready(list),
            Err(message) => final(p).harnesses == Loadable::<Vec<HarnessDescriptor>>::Error(message),
        },
        call matches Some(c) ==> ctx.engine_attached && harness is Some && c == PickerCall::ListModels(
            harness->0,
        ),
        !ctx.engine_attached || harness is None ==> call is None,
        ctx.engine_attached && harness is Some ==> (call is Some <==> match slot {
            Some(s) => *s is Idle || *s is Error,
            None => true,
        }),
        final(p).config == old(p).config,
{
}

/// A folder is asked for by its path, with the highlight back at the top.
pub proof fn a_folder_is_asked_for_by_its_path(
    p: &mut Pickers,
    path: Option<String>,
    attached: bool,
    call: Option<PickerCall>,
)
    requires
        call_ensures(Pickers::load_folders, (p, path, attached), call),
    ensures
        attached ==> call == Some(PickerCall::ListFolders(path)) && final(p).browser_path == path && final(p).browser is Loading && final(p).active == 0,
        !attached ==> call is None && *final(p) == *old(p),
        final(p).repo_pane == old(p).repo_pane && final(p).config == old(p).config && final(p).open
            == old(p).open,
{
}

/// A popover that a click outside closed does not open again by the same click, and opens again by a later
/// one.
pub proof fn a_dismissed_popover_stays_shut_for_a_moment(
    p: &mut Pickers,
    closed_at: u64,
    q: &mut Pickers,
    kind: PickerKind,
    ctx: PickerContext,
    now: u64,
    calls: Vec<PickerCall>,
)
    requires
        old(p).open == Some(kind),
        call_ensures(Pickers::close, (p, closed_at), ()),
        *old(q) == *final(p),
        call_ensures(Pickers::toggle, (q, kind, ctx, now), calls),
    ensures
        final(p).open is None && final(p).form_error is None && !final(p).form_busy,
        final(p).config == old(p).config,
        now < closed_at + 400 ==> final(q).open is None && calls@.len() == 0,
        now >= closed_at + 400 ==> final(q).open == Some(kind),
{
}

/// A trigger opens its popover afresh, or closes it where it is open.
pub proof fn a_trigger_opens_and_closes(
    p: &mut Pickers,
    kind: PickerKind,
    ctx: PickerContext,
    now: u64,
    calls: Vec<PickerCall>,
    q: &mut Pickers,
    later: u64,
    again: Vec<PickerCall>,
)
    requires
        call_ensures(Pickers::toggle, (p, kind, ctx, now), calls),
        old(p).suppressed is None,
        *old(q) == *final(p),
        call_ensures(Pickers::toggle, (q, kind, ctx, later), again),
    ensures
        old(p).open == Some(kind) ==> final(p).open is None && calls@.len() == 0,
        old(p).open != Some(kind) ==> {
            &&& final(p).open == Some(kind)
            &&& final(p).repo_pane == RepoPane::List
            &&& final(p).active == 0
            &&& final(p).form_error is None
            &&& final(p).search@.len() == 0
            &&& final(p).placeholder == Placeholder::Search
            &&& final(q).open is None
            &&& again@.len() == 0
        },
        final(p).config == old(p).config,
        !ctx.engine_attached ==> calls@.len() == 0,
{
    if old(p).open != Some(kind) {
        let mid = choose|mid: Pickers| #[trigger]
            Pickers::opened(*old(p), mid, kind) && Pickers::asked_on_open(
                mid,
                *final(p),
                kind,
                ctx,
                calls@,
            );
        assert(Pickers::asked_on_open(mid, *final(p), kind, ctx, calls@));
    }
}

/// A popover asks for what it shows.
pub proof fn a_popover_asks_for_what_it_shows(
    p: &mut Pickers,
    kind: PickerKind,
    ctx: PickerContext,
    now: u64,
    calls: Vec<PickerCall>,
    view: &Pickers,
    harness: Option<HarnessId>,
    slots: &ModelSlots,
    slot: Option<&Loadable<Vec<Model>>>,
)
    requires
        call_ensures(Pickers::toggle, (p, kind, ctx, now), calls),
        old(p).suppressed is None,
        old(p).open is None,
        ctx.engine_attached,
        *view == *old(p),
        call_ensures(Pickers::effective_harness, (view, ctx), harness),
        *slots == old(p).models,
        harness is Some ==> call_ensures(ModelSlots::get, (slots, harness->0), slot),
    ensures
        kind == PickerKind::Repo ==> (if old(p).repos is Ready || old(p).repos is Loading {
            calls@.len() == 0
        } else {
            calls@ == seq![PickerCall::ListRepos] && final(p).repos is Loading
        }),
        kind == PickerKind::Branch ==> (calls@.len() == 0 || (old(p).config.repo matches Some(repo)
            && calls@ == seq![PickerCall::ListBranches(repo.path)])),
        kind == PickerKind::Branch ==> (old(p).config.repo matches Some(repo) ==> (calls@.len() == 0 <==> (
        old(p).branches_repo matches Some(path) && path@ == repo.path@) && (old(p).branches is Ready
            || old(p).branches is Loading))),
        (kind == PickerKind::HarnessModel || kind == PickerKind::Traits) && (old(p).harnesses is Ready
            || old(p).harnesses is Loading) ==> (match harness {
            Some(h) => if slot matches Some(s) && (*s is Ready || *s is Loading) {
                calls@.len() == 0
            } else {
                calls@ == seq![PickerCall::ListModels(h)]
            },
            None => calls@.len() == 0,
        }),
        (kind == PickerKind::HarnessModel || kind == PickerKind::Traits) && (old(p).harnesses is Idle
            || old(p).harnesses is Error) ==> calls@.len() > 0 && calls@[0] == PickerCall::ListHarnesses,
        (kind == PickerKind::HarnessModel || kind == PickerKind::Traits) ==> forall|k: int|
            0 <= k < calls@.len() ==> (#[trigger] calls@[k] == PickerCall::ListHarnesses
                || calls@[k] is ListModels),
{
    let mid = choose|mid: Pickers| #[trigger]
        Pickers::opened(*old(p), mid, kind) && Pickers::asked_on_open(
            mid,
            *final(p),
            kind,
            ctx,
            calls@,
        );
    assert(Pickers::asked_on_open(mid, *final(p), kind, ctx, calls@));
}

/// Another repository drops the branch that was picked in the old one; the same repository keeps it.
pub proof fn another_repository_drops_the_branch(p: &mut Pickers, repo: Repo)
    requires
        call_ensures(Pickers::pick_repo, (p, repo), ()),
    ensures
        final(p).config.repo == Some(repo),
        final(p).open is None,
        (old(p).config.repo matches Some(r) && r.path@ == repo.path@) ==> final(p).config.branch
            == old(p).config.branch && final(p).branches == old(p).branches,
        (old(p).config.repo matches Some(r) ==> r.path@ != repo.path@) ==> final(p).config.branch is None
            && final(p).branches is Idle && final(p).branches_repo is None,
        final(p).config.harness == old(p).config.harness && final(p).config.model
            == old(p).config.model && final(p).config.isolated_worktree
            == old(p).config.isolated_worktree,
{
}

/// A form sends its own input, once, and only where there is something to send.
pub proof fn a_form_sends_its_own_input(
    p: &mut Pickers,
    attached: bool,
    call: Option<PickerCall>,
    input: &str,
    plain: String,
)
    requires
        call_ensures(Pickers::submit_repo_form, (p, attached), call),
        input@ == old(p).search@,
        call_ensures(text::trim, (input,), plain),
    ensures
        call is Some <==> attached && plain@.len() > 0 && !old(p).form_busy && (old(p).repo_pane
            == RepoPane::CloneUrl || old(p).repo_pane == RepoPane::CreateName),
        call matches Some(c) ==> match c {
            PickerCall::CloneRepo(url) => old(p).repo_pane == RepoPane::CloneUrl && url@ == plain@,
            PickerCall::CreateRepo(name) => old(p).repo_pane == RepoPane::CreateName && name@ == plain@,
            _ => false,
        },
        call is Some ==> final(p).form_busy && final(p).form_error is None,
        call is None ==> *final(p) == *old(p),
        final(p).search == old(p).search && final(p).config == old(p).config,
{
}

/// A folder is added by its path.
pub proof fn a_folder_is_added_by_its_path(
    p: &mut Pickers,
    path: String,
    attached: bool,
    call: Option<PickerCall>,
)
    requires
        call_ensures(Pickers::add_repo_path, (p, path, attached), call),
    ensures
        attached ==> call == Some(PickerCall::AddRepo(path)) && final(p).form_busy && final(p).form_error is None,
        !attached ==> call is None && *final(p) == *old(p),
        final(p).config == old(p).config && final(p).open == old(p).open,
{
}

/// A form that succeeded picks its repository; one that failed says so and leaves the choice alone.
pub proof fn a_form_picks_its_repository(
    p: &mut Pickers,
    result: Result<Repo, String>,
    clears: bool,
    attached: bool,
    call: Option<PickerCall>,
)
    requires
        call_ensures(Pickers::form_answered, (p, result, clears, attached), call),
    ensures
        !final(p).form_busy,
        match result {
            Ok(repo) => {
                &&& final(p).config.repo == Some(repo)
                &&& final(p).open is None
                &&& final(p).form_error == old(p).form_error
                &&& attached ==> call == Some(PickerCall::ListRepos) && final(p).repos is Loading
                &&& !attached ==> call is None && final(p).repos == old(p).repos
                &&& clears ==> final(p).search@.len() == 0
                &&& !clears ==> final(p).search == old(p).search
            },
            Err(message) => {
                &&& final(p).form_error == Some(message)
                &&& call is None
                &&& final(p).config == old(p).config
                &&& final(p).open == old(p).open
                &&& final(p).search == old(p).search
            },
        },
{
}

/// A pick is what is chosen then, and the popover is done.
pub proof fn a_pick_is_what_is_chosen(
    a: &mut Pickers,
    branch: String,
    b: &mut Pickers,
    model: String,
    c: &mut Pickers,
    d: &mut Pickers,
    search: String,
)
    requires
        call_ensures(Pickers::pick_branch, (a, branch), ()),
        call_ensures(Pickers::pick_model, (b, model), ()),
        call_ensures(Pickers::toggle_isolated, (c,), ()),
        call_ensures(Pickers::search_edited, (d, search), ()),
    ensures
        final(a).config.branch == Some(branch) && final(a).open is None && final(a).config.repo == old(a).config.repo,
        final(b).config.model == Some(model) && final(b).open is None && final(b).config.harness == old(b).config.harness,
        final(c).config.isolated_worktree != old(c).config.isolated_worktree && final(c).open == old(c).open,
        final(d).search == search && final(d).active == 0 && final(d).config == old(d).config
            && final(d).open == old(d).open && final(d).repo_pane == old(d).repo_pane,
{
}

/// A picked harness is in effect. Another one drops the model and the traits of the old; the harness of a
/// selected chat is locked.
pub proof fn another_harness_drops_the_model(
    p: &mut Pickers,
    harness: HarnessId,
    ctx: PickerContext,
    call: Option<PickerCall>,
    after: &Pickers,
    effect: Option<HarnessId>,
    slots: &ModelSlots,
    slot: Option<&Loadable<Vec<Model>>>,
    later: &ModelSlots,
    then: Option<&Loadable<Vec<Model>>>,
)
    requires
        call_ensures(Pickers::pick_harness, (p, harness, ctx), call),
        *later == final(p).models,
        call_ensures(ModelSlots::get, (later, harness), then),
        *slots == old(p).models,
        call_ensures(ModelSlots::get, (slots, harness), slot),
        *after == *final(p),
        call_ensures(Pickers::effective_harness, (after, ctx), effect),
    ensures
        ctx.chat_selected ==> call is None && *final(p) == *old(p),
        !ctx.chat_selected ==> {
            &&& final(p).config.harness == Some(harness)
            &&& effect == Some(harness)
            &&& old(p).config.harness == Some(harness) ==> final(p).config == old(p).config
            &&& old(p).config.harness != Some(harness) ==> final(p).config.model is None && final(p).config.reasoning is None && option_texts(final(p).config.model_options) == nothing_chosen()
            &&& call matches Some(c) ==> c == PickerCall::ListModels(harness) && (then matches Some(s)
                && *s is Loading)
            &&& call is None ==> final(p).models == old(p).models
            &&& call is Some <==> ctx.engine_attached && match slot {
                Some(s) => *s is Idle || *s is Error,
                None => true,
            }
        },
        final(p).config.repo == old(p).config.repo && final(p).config.branch == old(p).config.branch
            && final(p).config.isolated_worktree == old(p).config.isolated_worktree,
        final(p).open == old(p).open,
{
}

/// Picking a level twice goes back to no level; picking another one replaces it.
pub proof fn a_level_is_switched(
    p: &mut Pickers,
    level: ReasoningLevel,
    q: &mut Pickers,
    next: ReasoningLevel,
)
    requires
        old(p).config.reasoning != Some(level),
        call_ensures(Pickers::pick_reasoning, (p, level), ()),
        *old(q) == *final(p),
        call_ensures(Pickers::pick_reasoning, (q, next), ()),
    ensures
        final(p).config.reasoning == Some(level),
        next == level ==> final(q).config.reasoning is None,
        next != level ==> final(q).config.reasoning == Some(next),
        final(q).open == old(p).open && final(q).config.model == old(p).config.model,
{
}

/// A choice of an option is kept unless it is the default; other options keep theirs.
pub proof fn a_choice_is_kept_by_its_option(
    p: &mut Pickers,
    option: String,
    choice: String,
    is_default: bool,
    other: Seq<char>,
)
    requires
        call_ensures(Pickers::pick_option, (p, option, choice, is_default), ()),
        other != option@,
    ensures
        !is_default ==> option_texts(final(p).config.model_options).contains_key(option@)
            && option_texts(final(p).config.model_options)[option@] == Some(choice@),
        is_default ==> !option_texts(final(p).config.model_options).contains_key(option@),
        option_texts(final(p).config.model_options).contains_key(other) <==> option_texts(
            old(p).config.model_options,
        ).contains_key(other),
        option_texts(old(p).config.model_options).contains_key(other) ==> option_texts(
            final(p).config.model_options,
        )[other] == option_texts(old(p).config.model_options)[other],
        final(p).config.model == old(p).config.model && final(p).open == old(p).open,
{
}

/// A pane starts empty, and the browser asks for the home folder where it shows none.
pub proof fn a_pane_starts_empty(
    p: &mut Pickers,
    pane: RepoPane,
    attached: bool,
    call: Option<PickerCall>,
    shown: Placeholder,
)
    requires
        call_ensures(Pickers::show_pane, (p, pane, attached), call),
        call_ensures(RepoPane::placeholder, (pane,), shown),
    ensures
        final(p).repo_pane == pane,
        final(p).search@.len() == 0,
        final(p).active == 0,
        final(p).form_error is None,
        final(p).placeholder == shown,
        call is Some <==> pane == RepoPane::Browser && !(old(p).browser is Ready) && attached,
        call matches Some(c) ==> c == PickerCall::ListFolders(None) && final(p).browser is Loading,
        call is None ==> final(p).browser == old(p).browser,
        final(p).config == old(p).config && final(p).open == old(p).open,
{
}

/// Leaving a pane leads back to the list; a form also gives up its input.
pub proof fn panes_lead_back_to_the_list(a: &mut Pickers, b: &mut Pickers)
    requires
        call_ensures(Pickers::leave_form, (a,), ()),
        call_ensures(Pickers::leave_browser, (b,), ()),
    ensures
        final(a).repo_pane == RepoPane::List && final(a).search@.len() == 0 && final(a).form_error is None && final(a).placeholder == Placeholder::Search && final(a).open == old(a).open,
        final(b).repo_pane == RepoPane::List && final(b).search == old(b).search && final(b).open
            == old(b).open && final(b).browser == old(b).browser,
{
}

/// A retry asks again for the list that its popover shows.
pub proof fn a_retry_asks_again(p: &mut Pickers, kind: PickerKind, attached: bool, call: Option<PickerCall>)
    requires
        call_ensures(Pickers::retry, (p, kind, attached), call),
    ensures
        !attached ==> call is None,
        kind == PickerKind::Repo && attached && old(p).repo_pane == RepoPane::Browser ==> call == Some(
            PickerCall::ListFolders(old(p).browser_path),
        ),
        kind == PickerKind::Repo && attached && old(p).repo_pane != RepoPane::Browser ==> call == Some(
            PickerCall::ListRepos,
        ),
        kind == PickerKind::Branch && attached ==> (match old(p).config.repo {
            Some(repo) => call == Some(PickerCall::ListBranches(repo.path)),
            None => call is None,
        }),
        (kind == PickerKind::HarnessModel || kind == PickerKind::Traits) && attached ==> call == Some(
            PickerCall::ListHarnesses,
        ),
        final(p).config == old(p).config && final(p).open == old(p).open,
{
}

/// What can be searched gets the focus in its input; everything else is worked by the keys of the frame.
pub proof fn the_focus_goes_where_typing_helps(
    kind: PickerKind,
    r: FocusTarget,
    pane: RepoPane,
    s: FocusTarget,
    asks: Placeholder,
    words: &'static str,
)
    requires
        call_ensures(PickerKind::focus, (kind,), r),
        call_ensures(RepoPane::focus, (pane,), s),
        call_ensures(RepoPane::placeholder, (pane,), asks),
        call_ensures(Placeholder::text, (asks,), words),
    ensures
        r == FocusTarget::Search <==> kind == PickerKind::Repo || kind == PickerKind::Branch,
        s == FocusTarget::Frame <==> pane == RepoPane::Browser,
        pane == RepoPane::CloneUrl ==> words@ == "https://github.com/owner/repo.git"@,
        pane == RepoPane::CreateName ==> words@ == "New repo name"@,
        pane == RepoPane::List || pane == RepoPane::Browser ==> words@ == "Search…"@,
{
}

/// Escape goes back to the list first, and closes the popover from there.
pub proof fn escape_goes_back_a_step(
    p: &mut Pickers,
    focused: bool,
    chats: &[Chat],
    attached: bool,
    call: Option<PickerCall>,
)
    requires
        call_ensures(Pickers::on_key_down, (p, MenuKey::Escape, focused, chats, attached), call),
    ensures
        call is None,
        old(p).open == Some(PickerKind::Repo) && old(p).repo_pane != RepoPane::List ==> final(p).open
            == old(p).open && final(p).repo_pane == RepoPane::List && final(p).form_error is None,
        !(old(p).open == Some(PickerKind::Repo) && old(p).repo_pane != RepoPane::List) ==> final(p).open is None,
        final(p).config == old(p).config,
{
}

/// The arrows move the highlight by one and leave everything else alone.
pub proof fn the_arrows_move_the_highlight_only(
    p: &mut Pickers,
    key: MenuKey,
    focused: bool,
    chats: &[Chat],
    attached: bool,
    call: Option<PickerCall>,
)
    requires
        call_ensures(Pickers::on_key_down, (p, key, focused, chats, attached), call),
        key == MenuKey::Up || key == MenuKey::Down,
    ensures
        call is None,
        *final(p) == (Pickers { active: final(p).active, ..*old(p) }),
        old(p).open is None ==> final(p).active == 0,
        key == MenuKey::Down ==> final(p).active == 0 || final(p).active == old(p).active + 1 || final(p).active < old(p).active,
        key == MenuKey::Up && old(p).active > 0 ==> final(p).active == 0 || final(p).active + 1
            <= old(p).active,
{
    let d: int = if key == MenuKey::Up {
        -1
    } else {
        1
    };
    let count = choose|count: nat| #[trigger]
        crate::pickers::keys::row_count(*old(p), chats@, count) && count <= usize::MAX && *final(p) == (
        Pickers {
            active: crate::pickers::keys::highlight_stepped(old(p).active, count, if key
                == MenuKey::Up {
                -1
            } else {
                1
            }),
            ..*old(p)
        });
    if count > 0 {
        let n = count as int;
        let x = old(p).active + d;
        assert(0 <= x % n < n) by (nonlinear_arith)
            requires
                n > 0,
        ;
        if 0 <= x {
            assert(x % n <= x) by (nonlinear_arith)
                requires
                    n > 0,
                    x >= 0,
            ;
            if x < n {
                assert(x % n == x) by (nonlinear_arith)
                    requires
                        0 <= x < n,
                ;
            } else if x == n {
                assert(x % n == 0) by (nonlinear_arith)
                    requires
                        n > 0,
                        x == n,
                ;
            }
        }
    }
}

/// The arrows step through the rows that are shown.
pub proof fn the_arrows_step_through_the_rows(
    p: &mut Pickers,
    key: MenuKey,
    focused: bool,
    chats: &[Chat],
    attached: bool,
    call: Option<PickerCall>,
    view: &Pickers,
    branches: Vec<String>,
    listing: FolderListing,
    shown: &FolderListing,
    folders: Vec<&crate::model::FolderEntry>,
    count: usize,
    by: isize,
    to: Option<usize>,
)
    requires
        call_ensures(Pickers::on_key_down, (p, key, focused, chats, attached), call),
        key == MenuKey::Up && by == -1 || key == MenuKey::Down && by == 1,
        *view == *old(p),
        call_ensures(Pickers::filtered_branch_rows, (view,), branches),
        *shown == listing,
        call_ensures(crate::pickers::browse::browser_rows, (shown,), folders),
        old(p).open == Some(PickerKind::Branch) && count == branches@.len() || (old(p).open == Some(
            PickerKind::Repo,
        ) && old(p).repo_pane == RepoPane::Browser && old(p).browser == Loadable::Ready(listing) && count
            == folders@.len()),
        call_ensures(crate::popover::menu_step, (Some(old(p).active), count, by), to),
    ensures
        to matches Some(at) ==> final(p).active == at,
        to is None ==> final(p).active == 0,
        call is None,
{
    assert(crate::lists::pointees(folders@).len() == folders@.len());
    let n = choose|n: nat| #[trigger]
        crate::pickers::keys::row_count(*old(p), chats@, n) && n <= usize::MAX && *final(p) == (Pickers {
            active: crate::pickers::keys::highlight_stepped(old(p).active, n, if key == MenuKey::Up {
                -1
            } else {
                1
            }),
            ..*old(p)
        });
    assert(n == count);
}

/// The list shows the repositories that the search finds, and Enter picks one of them.
pub proof fn enter_picks_a_repository_that_was_found(
    p: &mut Pickers,
    chats: &[Chat],
    attached: bool,
    call: Option<PickerCall>,
    repos: Vec<Repo>,
    query: &str,
    name: &str,
    rank: Option<usize>,
)
    requires
        call_ensures(Pickers::on_search_submit, (p, chats, attached), call),
        old(p).open == Some(PickerKind::Repo),
        old(p).repo_pane == RepoPane::List,
        old(p).repos == Loadable::Ready(repos),
        query@ == old(p).search@,
        final(p).config.repo is Some ==> name@ == final(p).config.repo->0.name@,
        call_ensures(crate::popover::match_rank, (query, name), rank),
    ensures
        call is None,
        *final(p) == *old(p) || (final(p).open is None && (final(p).config.repo matches Some(r) && repos@.contains(
            r,
        )) && rank is Some && old(p).active < repos@.len()),
{
    if *final(p) != *old(p) {
        let rows = choose|rows: Seq<Repo>| #[trigger]
            crate::pickers::keys::listed(*old(p), chats@, rows) && *final(p) == (if old(p).active < rows.len() {
                old(p).repo_picked(rows[old(p).active as int])
            } else {
                *old(p)
            });
        listed_was_found(*old(p), repos, chats@, rows, old(p).active as int);
    }
}

proof fn listed_was_found(p: Pickers, repos: Vec<Repo>, chats: Seq<Chat>, rows: Seq<Repo>, k: int)
    requires
        p.repos == Loadable::Ready(repos),
        crate::pickers::keys::listed(p, chats, rows),
        0 <= k < rows.len(),
    ensures
        repos@.contains(rows[k]),
        crate::popover::rank_in(p.search@, rows[k].name@) is Some,
        rows.len() <= repos@.len(),
{
    let (sorted, recents) = choose|sorted: Seq<Repo>, recents: Seq<String>|
        #![trigger crate::pickers::repos::recents_first(sorted, recents)]
        crate::sorting::stably_sorted::<Repo, crate::pickers::repos::RepoOrder>(repos@, sorted)
            && crate::text::texts(recents) == crate::pickers::repos::distinct_cwds(chats) && rows
            == crate::pickers::state::searched_repos(
            crate::pickers::repos::recents_first(sorted, recents),
            p.search@,
        );
    let all = crate::pickers::repos::recents_first(sorted, recents);
    crate::pickers::repos::recents_first_keeps_repos(sorted, recents);
    crate::laws::ground::same_members(all, sorted);
    crate::laws::ground::same_members(sorted, repos@);
    let names = crate::pickers::state::repo_names(all);
    let ranks = crate::popover::ranks_for(p.search@, names);
    crate::popover::ranks_are_small(p.search@, names);
    crate::popover::filter_lists_each_match_once(ranks);
    let ints = crate::popover::by_rank(ranks);
    assert(ints.contains(ints[k]));
    assert(rows[k] == all[ints[k]]);
    assert(sorted.contains(all[ints[k]]));
    crate::laws::picker_views::ranked_is_no_longer(ranks, all.len() as int);
}

/// The repository list shows what is found, every one of it, and nothing before the repositories are there.
pub proof fn the_repository_list_shows_what_is_found(
    p: &Pickers,
    chats: &[Chat],
    rows: Vec<Repo>,
    repos: Vec<Repo>,
    i: int,
    query: &str,
    name: &str,
    rank: Option<usize>,
)
    requires
        call_ensures(Pickers::filtered_repo_rows, (p, chats), rows),
        p.repos == Loadable::Ready(repos),
        0 <= i < repos@.len(),
        query@ == p.search@,
        name@ == repos@[i].name@,
        call_ensures(crate::popover::match_rank, (query, name), rank),
    ensures
        rank is Some ==> rows@.contains(repos@[i]),
        forall|k: int| 0 <= k < rows@.len() ==> repos@.contains(#[trigger] rows@[k]),
        rows@.len() <= repos@.len(),
{
    assert forall|k: int| 0 <= k < rows@.len() implies repos@.contains(#[trigger] rows@[k]) by {
        listed_was_found(*p, repos, chats@, rows@, k);
    }
    if rows@.len() > 0 {
        listed_was_found(*p, repos, chats@, rows@, 0);
    }
    if rank is Some {
        let (sorted, recents) = choose|sorted: Seq<Repo>, recents: Seq<String>|
            #![trigger crate::pickers::repos::recents_first(sorted, recents)]
            crate::sorting::stably_sorted::<Repo, crate::pickers::repos::RepoOrder>(repos@, sorted)
                && crate::text::texts(recents) == crate::pickers::repos::distinct_cwds(chats@) && rows@
                == crate::pickers::state::searched_repos(
                crate::pickers::repos::recents_first(sorted, recents),
                p.search@,
            );
        let all = crate::pickers::repos::recents_first(sorted, recents);
        crate::pickers::repos::recents_first_keeps_repos(sorted, recents);
        crate::laws::ground::same_members(all, sorted);
        crate::laws::ground::same_members(sorted, repos@);
        let names = crate::pickers::state::repo_names(all);
        let ranks = crate::popover::ranks_for(p.search@, names);
        crate::popover::ranks_are_small(p.search@, names);
        crate::popover::filter_lists_each_match_once(ranks);
        let ints = crate::popover::by_rank(ranks);
        assert(sorted.contains(repos@[i]));
        assert(all.contains(repos@[i]));
        let m = choose|m: int| 0 <= m < all.len() && all[m] == repos@[i];
        assert(ranks[m] == rank);
        assert(ints.contains(m));
        let n = choose|n: int| 0 <= n < ints.len() && ints[n] == m;
        assert(rows@[n] == repos@[i]);
    }
}

/// Nothing is listed that is not there.
pub proof fn nothing_is_listed_before_it_is_there(p: &Pickers, chats: &[Chat], rows: Vec<Repo>, branches: Vec<String>)
    requires
        call_ensures(Pickers::filtered_repo_rows, (p, chats), rows),
        call_ensures(Pickers::filtered_branch_rows, (p,), branches),
    ensures
        !(p.repos is Ready) ==> rows@.len() == 0,
        !(p.branches is Ready) ==> branches@.len() == 0,
{
}

/// Enter outside the search picks the highlighted branch and sends the forms as well.
pub proof fn enter_works_outside_the_search(
    p: &mut Pickers,
    chats: &[Chat],
    attached: bool,
    call: Option<PickerCall>,
    view: &Pickers,
    rows: Vec<String>,
    input: &str,
    plain: String,
)
    requires
        call_ensures(Pickers::on_key_down, (p, MenuKey::Enter, false, chats, attached), call),
        *view == *old(p),
        call_ensures(Pickers::filtered_branch_rows, (view,), rows),
        input@ == old(p).search@,
        call_ensures(text::trim, (input,), plain),
    ensures
        old(p).open == Some(PickerKind::Branch) && old(p).active < rows@.len() ==> final(p).config.branch == Some(
            rows@[old(p).active as int],
        ) && final(p).open is None && call is None,
        old(p).open == Some(PickerKind::Repo) && old(p).repo_pane == RepoPane::CloneUrl && attached && !old(p).form_busy && plain@.len() > 0 ==> (call matches Some(PickerCall::CloneRepo(url)) && url@ == plain@),
        old(p).open == Some(PickerKind::Repo) && old(p).repo_pane == RepoPane::CreateName && attached && !old(p).form_busy && plain@.len() > 0 ==> (call matches Some(PickerCall::CreateRepo(name)) && name@ == plain@),
        old(p).open is None ==> call is None && *final(p) == *old(p),
{
}

/// The pickers begin closed, with nothing chosen and nothing loaded.
pub proof fn the_pickers_begin_closed(p: Pickers, h: HarnessId, slots: &ModelSlots, slot: Option<&Loadable<Vec<Model>>>)
    requires
        call_ensures(Pickers::new, (), p),
        *slots == p.models,
        call_ensures(ModelSlots::get, (slots, h), slot),
    ensures
        p.open is None && p.repo_pane == RepoPane::List && p.active == 0 && p.search@.len() == 0,
        p.config.harness is None && p.config.model is None && p.config.repo is None && p.config.branch is None,
        p.config.reasoning is None && !p.config.isolated_worktree,
        p.harnesses is Idle && p.repos is Idle && p.branches is Idle && p.browser is Idle && slot is None,
        p.branches_repo is None && p.browser_path is None,
        !p.form_busy && p.form_error is None && p.suppressed is None && p.placeholder == Placeholder::Search,
{
}

/// In the browser, Backspace in an empty search goes up a folder, Enter goes down or picks, and Enter with a
/// modifier takes the folder itself.
pub proof fn the_browser_is_walked_by_keys(
    p: &mut Pickers,
    key: MenuKey,
    focused: bool,
    chats: &[Chat],
    attached: bool,
    call: Option<PickerCall>,
    listing: FolderListing,
    path: &str,
    up: Option<String>,
)
    requires
        call_ensures(Pickers::on_key_down, (p, key, focused, chats, attached), call),
        old(p).open == Some(PickerKind::Repo),
        old(p).repo_pane == RepoPane::Browser,
        old(p).browser == Loadable::Ready(listing),
        path@ == listing.path@,
        call_ensures(parent_path, (path,), up),
    ensures
        !attached && key != MenuKey::Escape && key != MenuKey::Up && key != MenuKey::Down ==> call is None
            && *final(p) == *old(p),
        key == MenuKey::ModEnter && attached ==> call == Some(PickerCall::AddRepo(listing.path)) && final(p).form_busy,
        key == MenuKey::Backspace && attached && (!focused || old(p).search@.len() == 0) ==> match up {
            Some(parent) => call matches Some(PickerCall::ListFolders(Some(asked))) && asked@ == parent@
                && final(p).browser is Loading,
            None => call is None && *final(p) == *old(p),
        },
        key == MenuKey::Backspace && focused && old(p).search@.len() > 0 ==> call is None && *final(p)
            == *old(p),
        key == MenuKey::Enter && focused ==> call is None && *final(p) == *old(p),
        key == MenuKey::Other ==> call is None && *final(p) == *old(p),
{
    if key == MenuKey::Backspace && (!focused || old(p).search@.len() == 0) && up is Some {
        let parent = choose|parent: String|
            parent@ == crate::pickers::browse::parent_of(listing.path@)->0
                && #[trigger] Pickers::folder_asked(*old(p), *final(p), Some(parent), attached, call);
        assert(Pickers::folder_asked(*old(p), *final(p), Some(parent), attached, call));
    }
}

/// Enter on a folder goes into it, or takes it where it is a repository.
pub proof fn enter_goes_into_the_highlighted_folder(
    p: &mut Pickers,
    attached: bool,
    call: Option<PickerCall>,
    listing: FolderListing,
    view: &FolderListing,
    rows: Vec<&crate::model::FolderEntry>,
    base: &str,
    name: &str,
    full: String,
)
    requires
        call_ensures(Pickers::browser_activate, (p, attached), call),
        old(p).browser == Loadable::Ready(listing),
        *view == listing,
        call_ensures(crate::pickers::browse::browser_rows, (view,), rows),
        base@ == listing.path@,
        old(p).active < rows@.len() ==> name@ == rows@[old(p).active as int].name@,
        call_ensures(child_path, (base, name), full),
    ensures
        old(p).active >= rows@.len() || !attached ==> call is None && *final(p) == *old(p),
        old(p).active < rows@.len() && attached ==> (if rows@[old(p).active as int].is_repo {
            call matches Some(PickerCall::AddRepo(path)) && path@ == full@ && final(p).form_busy
        } else {
            call matches Some(PickerCall::ListFolders(Some(path))) && path@ == full@ && final(p).browser is Loading
        }),
{
    assert(crate::lists::pointees(rows@).len() == rows@.len());
    if old(p).active < rows@.len() {
        assert(crate::lists::pointees(rows@)[old(p).active as int] == *rows@[old(p).active as int]);
    }
}

/// Enter in a search picks the highlighted branch, or sends the form, and does nothing past the list.
pub proof fn enter_picks_the_highlighted_branch(
    p: &mut Pickers,
    chats: &[Chat],
    attached: bool,
    call: Option<PickerCall>,
    view: &Pickers,
    rows: Vec<String>,
)
    requires
        call_ensures(Pickers::on_search_submit, (p, chats, attached), call),
        *view == *old(p),
        call_ensures(Pickers::filtered_branch_rows, (view,), rows),
    ensures
        old(p).open == Some(PickerKind::Branch) ==> call is None && (if old(p).active < rows@.len() {
            final(p).config.branch == Some(rows@[old(p).active as int]) && final(p).open is None
        } else {
            *final(p) == *old(p)
        }),
        old(p).open is None || old(p).open == Some(PickerKind::HarnessModel) || old(p).open == Some(
            PickerKind::Traits,
        ) ==> call is None && *final(p) == *old(p),
        old(p).open == Some(PickerKind::Repo) && old(p).repo_pane == RepoPane::Browser ==> call is None
            && *final(p) == *old(p),
        old(p).open == Some(PickerKind::Repo) && old(p).repo_pane == RepoPane::List ==> call is None && (
        *final(p) == *old(p) || (final(p).open is None && final(p).config.repo is Some)),
        call matches Some(c) ==> c is CloneRepo || c is CreateRepo,
{
}

} // verus!
