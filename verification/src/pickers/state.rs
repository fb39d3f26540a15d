//! The pickers as a state machine. It decides what is shown and what to ask of the engine; the caller
//! asks and reports back.

use crate::lists;
use crate::lists::{find_first, pointee};
use crate::model::{
    Chat, FolderListing, HarnessDescriptor, HarnessId, Model, ReasoningLevel, Repo,
};
use crate::options::{clear_options, nothing_chosen, option_texts, set_option, unset_option};
use crate::pickers::draft::DraftConfig;
use crate::pickers::repos::{distinct_cwds, order_repos, recent_cwds, recents_first, RepoOrder};
use crate::popover;
use crate::popover::{as_ints, by_rank, ranks_for, FocusTarget, Loadable};
use crate::sorting::stably_sorted;
use crate::text;
use crate::text::{text_opt, texts, trimmed};
use vstd::prelude::*;

verus! {

/// Which picker popover is open.
#[derive(Debug, Clone, Copy, PartialEq, Eq, Structural)]
pub enum PickerKind {
    Repo,
    Branch,
    HarnessModel,
    Traits,
}

/// Sub-view of the repository popover.
#[derive(Debug, Clone, Copy, PartialEq, Eq, Structural)]
pub enum RepoPane {
    List,
    Browser,
    CloneUrl,
    CreateName,
}

/// What the empty input of the pickers asks for.
#[derive(Debug, Clone, Copy, PartialEq, Eq, Structural)]
pub enum Placeholder {
    Search,
    CloneUrl,
    RepoName,
}

impl Placeholder {
    /// The words of a placeholder.
    pub open spec fn words(self) -> Seq<char> {
        match self {
            Placeholder::Search => "Search…"@,
            Placeholder::CloneUrl => "https://github.com/owner/repo.git"@,
            Placeholder::RepoName => "New repo name"@,
        }
    }

    /// The words that the empty input shows.
    pub fn text(self) -> (r: &'static str)
        ensures
            r@ == self.words(),
    {
        match self {
            Placeholder::Search => "Search…",
            Placeholder::CloneUrl => "https://github.com/owner/repo.git",
            Placeholder::RepoName => "New repo name",
        }
    }
}

impl PickerKind {
    /// What gets the focus when a popover opens: the input where there is something to search, which lets
    /// the arrows and Enter through to the frame, and else the frame.
    pub fn focus(self) -> (r: FocusTarget)
        ensures
            r == (if self == PickerKind::Repo || self == PickerKind::Branch {
                FocusTarget::Search
            } else {
                FocusTarget::Frame
            }),
    {
        match self {
            PickerKind::Repo | PickerKind::Branch => FocusTarget::Search,
            PickerKind::HarnessModel | PickerKind::Traits => FocusTarget::Frame,
        }
    }
}

impl RepoPane {
    /// What gets the focus when a pane is shown: the browser is worked by the keys of the frame, and every
    /// other pane has an input.
    pub fn focus(self) -> (r: FocusTarget)
        ensures
            r == (if self == RepoPane::Browser {
                FocusTarget::Frame
            } else {
                FocusTarget::Search
            }),
    {
        match self {
            RepoPane::Browser => FocusTarget::Frame,
            RepoPane::List | RepoPane::CloneUrl | RepoPane::CreateName => FocusTarget::Search,
        }
    }

    /// The placeholder that a pane is shown with.
    pub open spec fn asks_for(self) -> Placeholder {
        match self {
            RepoPane::CloneUrl => Placeholder::CloneUrl,
            RepoPane::CreateName => Placeholder::RepoName,
            RepoPane::List | RepoPane::Browser => Placeholder::Search,
        }
    }

    /// The placeholder that a pane is shown with.
    pub fn placeholder(self) -> (r: Placeholder)
        ensures
            r == self.asks_for(),
    {
        match self {
            RepoPane::CloneUrl => Placeholder::CloneUrl,
            RepoPane::CreateName => Placeholder::RepoName,
            RepoPane::List | RepoPane::Browser => Placeholder::Search,
        }
    }
}

/// What the pickers ask of the engine.
#[derive(Debug, PartialEq, Eq)]
pub enum PickerCall {
    ListHarnesses,
    ListModels(HarnessId),
    ListRepos,
    ListBranches(String),
    ListFolders(Option<String>),
    AddRepo(String),
    CloneRepo(String),
    CreateRepo(String),
}

/// How long, in milliseconds, the click that dismissed a popover must not open it again.
pub const REOPEN_GUARD_MS: u64 = 400;

/// The models of each harness, where they were asked for.
pub struct ModelSlots {
    pub claude_code: Option<Loadable<Vec<Model>>>,
    pub codex: Option<Loadable<Vec<Model>>>,
    pub cursor: Option<Loadable<Vec<Model>>>,
    pub mock: Option<Loadable<Vec<Model>>>,
}

impl ModelSlots {
    /// The slot of a harness.
    pub open spec fn slot(self, harness: HarnessId) -> Option<Loadable<Vec<Model>>> {
        match harness {
            HarnessId::ClaudeCode => self.claude_code,
            HarnessId::Codex => self.codex,
            HarnessId::Cursor => self.cursor,
            HarnessId::Mock => self.mock,
        }
    }

    /// The slots with that of one harness filled.
    pub open spec fn filled(self, harness: HarnessId, value: Loadable<Vec<Model>>) -> ModelSlots {
        match harness {
            HarnessId::ClaudeCode => ModelSlots { claude_code: Some(value), ..self },
            HarnessId::Codex => ModelSlots { codex: Some(value), ..self },
            HarnessId::Cursor => ModelSlots { cursor: Some(value), ..self },
            HarnessId::Mock => ModelSlots { mock: Some(value), ..self },
        }
    }

    pub fn new() -> (s: Self)
        ensures
            forall|h: HarnessId| #[trigger] s.slot(h) is None,
    {
        ModelSlots { claude_code: None, codex: None, cursor: None, mock: None }
    }

    pub fn get(&self, harness: HarnessId) -> (r: Option<&Loadable<Vec<Model>>>)
        ensures
            pointee(r) == self.slot(harness),
    {
        let slot = match harness {
            HarnessId::ClaudeCode => &self.claude_code,
            HarnessId::Codex => &self.codex,
            HarnessId::Cursor => &self.cursor,
            HarnessId::Mock => &self.mock,
        };
        match slot {
            Some(value) => Some(value),
            None => None,
        }
    }

    pub fn insert(&mut self, harness: HarnessId, value: Loadable<Vec<Model>>)
        ensures
            *final(self) == old(self).filled(harness, value),
    {
        match harness {
            HarnessId::ClaudeCode => {
                self.claude_code = Some(value);
            },
            HarnessId::Codex => {
                self.codex = Some(value);
            },
            HarnessId::Cursor => {
                self.cursor = Some(value);
            },
            HarnessId::Mock => {
                self.mock = Some(value);
            },
        }
    }
}

/// What the pickers read of the application around them.
#[derive(Debug, Clone, Copy, PartialEq, Eq, Structural)]
pub struct PickerContext {
    /// A chat is selected: its harness is locked.
    pub chat_selected: bool,
    /// The harness that the selected chat is configured with.
    pub chat_harness: Option<HarnessId>,
    /// An engine is connected.
    pub engine_attached: bool,
}

/// The pickers.
pub struct Pickers {
    pub config: DraftConfig,
    pub open: Option<PickerKind>,
    pub repo_pane: RepoPane,
    pub harnesses: Loadable<Vec<HarnessDescriptor>>,
    pub models: ModelSlots,
    pub repos: Loadable<Vec<Repo>>,
    pub branches: Loadable<Vec<String>>,
    /// The repository that the branches belong to.
    pub branches_repo: Option<String>,
    pub browser: Loadable<FolderListing>,
    /// The folder that the browser asked for; none is the home folder.
    pub browser_path: Option<String>,
    /// Highlighted row of the open list.
    pub active: usize,
    /// The text of the shared search, address or name input.
    pub search: String,
    /// What that input shows while it is empty.
    pub placeholder: Placeholder,
    pub form_busy: bool,
    pub form_error: Option<String>,
    /// The popover that a click outside dismissed, and when in milliseconds.
    pub suppressed: Option<(PickerKind, u64)>,
}

/// A slot that needs no new request.
pub open spec fn settled<T>(slot: Loadable<T>) -> bool {
    slot is Ready || slot is Loading
}

fn is_settled<T>(slot: &Loadable<T>) -> (r: bool)
    ensures
        r == settled(*slot),
{
    matches!(slot, Loadable::Ready(_) | Loadable::Loading)
}

/// A slot after its request was answered.
pub open spec fn answered<T>(result: Result<T, String>) -> Loadable<T> {
    match result {
        Ok(value) => Loadable::Ready(value),
        Err(message) => Loadable::Error(message),
    }
}

fn answer<T>(result: Result<T, String>) -> (slot: Loadable<T>)
    ensures
        slot == answered(result),
{
    match result {
        Ok(value) => Loadable::Ready(value),
        Err(message) => Loadable::Error(message),
    }
}

/// The test for the model with an id.
pub open spec fn model_is(id: Seq<char>) -> spec_fn(Model) -> bool {
    |m: Model| m.id@ == id
}

/// The test for the descriptor of a harness.
pub open spec fn describes(harness: HarnessId) -> spec_fn(HarnessDescriptor) -> bool {
    |d: HarnessDescriptor| d.id == harness
}

/// The rows of the repository list: ordered with the folders of recent chats first, then searched by name.
pub open spec fn repo_rows(
    repos: Seq<Repo>,
    chats: Seq<Chat>,
    query: Seq<char>,
    rows: Seq<Repo>,
) -> bool {
    exists|sorted: Seq<Repo>, recents: Seq<String>|
        #![trigger recents_first(sorted, recents)]
        stably_sorted::<Repo, RepoOrder>(repos, sorted) && texts(recents) == distinct_cwds(chats)
            && rows == searched_repos(recents_first(sorted, recents), query)
}

/// The names of repositories.
pub open spec fn repo_names(repos: Seq<Repo>) -> Seq<String> {
    repos.map_values(|r: Repo| r.name)
}

/// Repositories that a query finds by name, best matches first.
pub open spec fn searched_repos(repos: Seq<Repo>, query: Seq<char>) -> Seq<Repo> {
    by_rank(ranks_for(query, repo_names(repos))).map_values(|ix: int| repos[ix])
}

/// Texts that a query finds, best matches first.
pub open spec fn searched(items: Seq<String>, query: Seq<char>) -> Seq<String> {
    by_rank(ranks_for(query, items)).map_values(|ix: int| items[ix])
}

fn copy_repos(repos: &[Repo]) -> (out: Vec<Repo>)
    ensures
        out@ == repos@,
{
    let mut out: Vec<Repo> = Vec::new();
    let mut i: usize = 0;
    while i < repos.len()
        invariant
            i <= repos.len(),
            out@ == repos@.take(i as int),
        decreases repos.len() - i,
    {
        out.push(repos[i].clone());
        proof {
            assert(repos@.take(i + 1) =~= repos@.take(i as int).push(repos@[i as int]));
        }
        i = i + 1;
    }
    proof {
        assert(repos@.take(i as int) =~= repos@);
    }
    out
}

/// Finds repositories by name, best matches first.
pub fn search_repos(repos: &[Repo], query: &str) -> (out: Vec<Repo>)
    ensures
        out@ == searched_repos(repos@, query@),
{
    let mut names: Vec<String> = Vec::new();
    let mut i: usize = 0;
    while i < repos.len()
        invariant
            i <= repos.len(),
            names@ == repo_names(repos@).take(i as int),
        decreases repos.len() - i,
    {
        names.push(repos[i].name.clone());
        proof {
            assert(repo_names(repos@).take(i + 1) =~= repo_names(repos@).take(i as int).push(
                repos@[i as int].name,
            ));
        }
        i = i + 1;
    }
    proof {
        assert(names@ =~= repo_names(repos@));
    }
    let order = popover::filter_indices(query, &names);
    let ghost ints = by_rank(ranks_for(query@, names@));
    proof {
        popover::ranks_are_small(query@, names@);
        popover::filter_lists_each_match_once(ranks_for(query@, names@));
    }
    let mut out: Vec<Repo> = Vec::new();
    let mut k: usize = 0;
    while k < order.len()
        invariant
            k <= order.len(),
            as_ints(order@) == ints,
            forall|m: int| ints.contains(m) ==> 0 <= m < repos@.len(),
            out@ == ints.take(k as int).map_values(|ix: int| repos@[ix]),
        decreases order.len() - k,
    {
        proof {
            assert(ints[k as int] == order@[k as int] as int);
            assert(ints.contains(ints[k as int]));
        }
        let ix: usize = order[k];
        out.push(repos[ix].clone());
        proof {
            assert(out@ =~= ints.take(k + 1).map_values(|ix: int| repos@[ix]));
        }
        k = k + 1;
    }
    proof {
        assert(ints.take(k as int) =~= ints);
    }
    out
}

/// Finds texts, best matches first.
pub fn search_texts(items: &[String], query: &str) -> (out: Vec<String>)
    ensures
        out@ == searched(items@, query@),
{
    let order = popover::filter_indices(query, items);
    let ghost ints = by_rank(ranks_for(query@, items@));
    proof {
        popover::ranks_are_small(query@, items@);
        popover::filter_lists_each_match_once(ranks_for(query@, items@));
    }
    let mut out: Vec<String> = Vec::new();
    let mut k: usize = 0;
    while k < order.len()
        invariant
            k <= order.len(),
            as_ints(order@) == ints,
            forall|m: int| ints.contains(m) ==> 0 <= m < items@.len(),
            out@ == ints.take(k as int).map_values(|ix: int| items@[ix]),
        decreases order.len() - k,
    {
        proof {
            assert(ints[k as int] == order@[k as int] as int);
            assert(ints.contains(ints[k as int]));
        }
        let ix: usize = order[k];
        out.push(items[ix].clone());
        proof {
            assert(out@ =~= ints.take(k + 1).map_values(|ix: int| items@[ix]));
        }
        k = k + 1;
    }
    proof {
        assert(ints.take(k as int) =~= ints);
    }
    out
}

impl Pickers {
    /// Closed pickers with nothing loaded and nothing chosen.
    pub fn new() -> (p: Self)
        ensures
            p.config.harness is None,
            p.config.model is None,
            p.config.reasoning is None,
            option_texts(p.config.model_options) == nothing_chosen(),
            p.config.repo is None,
            p.config.branch is None,
            !p.config.isolated_worktree,
            p.open is None,
            p.repo_pane == RepoPane::List,
            p.harnesses is Idle,
            forall|h: HarnessId| #[trigger] p.models.slot(h) is None,
            p.repos is Idle,
            p.branches is Idle,
            p.branches_repo is None,
            p.browser is Idle,
            p.browser_path is None,
            p.active == 0,
            p.search@.len() == 0,
            p.placeholder == Placeholder::Search,
            !p.form_busy,
            p.form_error is None,
            p.suppressed is None,
    {
        Pickers {
            config: DraftConfig::default(),
            open: None,
            repo_pane: RepoPane::List,
            harnesses: Loadable::Idle,
            models: ModelSlots::new(),
            repos: Loadable::Idle,
            branches: Loadable::Idle,
            branches_repo: None,
            browser: Loadable::Idle,
            browser_path: None,
            active: 0,
            search: String::new(),
            placeholder: Placeholder::Search,
            form_busy: false,
            form_error: None,
            suppressed: None,
        }
    }

    pub fn draft(&self) -> (r: &DraftConfig)
        ensures
            *r == self.config,
    {
        &self.config
    }

    /// The harness in effect: the picked one, or the chat's, or the first listed.
    pub open spec fn harness_in_effect(self, ctx: PickerContext) -> Option<HarnessId> {
        if self.config.harness is Some {
            self.config.harness
        } else if ctx.chat_harness is Some {
            ctx.chat_harness
        } else {
            match self.harnesses {
                Loadable::Ready(list) => if list@.len() > 0 {
                    Some(list@[0].id)
                } else {
                    None
                },
                _ => None,
            }
        }
    }

    pub fn effective_harness(&self, ctx: PickerContext) -> (r: Option<HarnessId>)
        ensures
            r == self.harness_in_effect(ctx),
    {
        if self.config.harness.is_some() {
            return self.config.harness;
        }
        if ctx.chat_harness.is_some() {
            return ctx.chat_harness;
        }
        match &self.harnesses {
            Loadable::Ready(list) => if list.len() > 0 {
                Some(list[0].id)
            } else {
                None
            },
            _ => None,
        }
    }

    /// The models of the harness in effect, once they are there.
    pub open spec fn models_in_effect(self, ctx: PickerContext) -> Option<Vec<Model>> {
        match self.harness_in_effect(ctx) {
            Some(h) => match self.models.slot(h) {
                Some(slot) => slot.value(),
                None => None,
            },
            None => None,
        }
    }

    /// The model in effect: the picked one, or the first of the harness in effect.
    pub open spec fn model_in_effect(self, ctx: PickerContext) -> Option<Model> {
        match self.models_in_effect(ctx) {
            Some(models) => match self.config.model {
                Some(id) => find_first(models@, model_is(id@)),
                None => if models@.len() > 0 {
                    Some(models@[0])
                } else {
                    None
                },
            },
            None => None,
        }
    }

    pub fn selected_model(&self, ctx: PickerContext) -> (r: Option<&Model>)
        ensures
            pointee(r) == self.model_in_effect(ctx),
    {
        match self.effective_harness(ctx) {
            Some(h) => match self.models.get(h) {
                Some(slot) => match slot.ready() {
                    Some(models) => match &self.config.model {
                        Some(id) => {
                            let ghost p = model_is(id@);
                            let same_id = |m: &Model| -> (b: bool)
                                ensures
                                    b == p(*m),
                                { text::same(m.id.as_str(), id.as_str()) };
                            lists::find(models, same_id, Ghost(p))
                        },
                        None => if models.len() > 0 {
                            Some(&models[0])
                        } else {
                            None
                        },
                    },
                    None => None,
                },
                None => None,
            },
            None => None,
        }
    }

    /// The descriptor of the harness in effect.
    pub open spec fn described(self, ctx: PickerContext) -> Option<HarnessDescriptor> {
        match (self.harness_in_effect(ctx), self.harnesses.value()) {
            (Some(h), Some(list)) => find_first(list@, describes(h)),
            _ => None,
        }
    }

    pub fn effective_descriptor(&self, ctx: PickerContext) -> (r: Option<&HarnessDescriptor>)
        ensures
            pointee(r) == self.described(ctx),
    {
        match (self.effective_harness(ctx), self.harnesses.ready()) {
            (Some(h), Some(list)) => {
                let ghost p = describes(h);
                let same_id = |d: &HarnessDescriptor| -> (b: bool)
                    ensures
                        b == p(*d),
                    { d.id == h };
                lists::find(list, same_id, Ghost(p))
            },
            _ => None,
        }
    }

    // ---- requests ----

    /// Asks for the harnesses, unless they are there or asked for.
    pub fn ensure_harnesses(&mut self, engine_attached: bool) -> (call: Option<PickerCall>)
        ensures
            call == (if !settled(old(self).harnesses) && engine_attached {
                Some(PickerCall::ListHarnesses)
            } else {
                None
            }),
            *final(self) == (if call is Some {
                Pickers { harnesses: Loadable::Loading, ..*old(self) }
            } else {
                *old(self)
            }),
    {
        if is_settled(&self.harnesses) || !engine_attached {
            return None;
        }
        self.harnesses = Loadable::Loading;
        Some(PickerCall::ListHarnesses)
    }

    /// The models of a harness still have to be asked for.
    pub open spec fn models_wanted(self, harness: HarnessId) -> bool {
        match self.models.slot(harness) {
            Some(slot) => !settled(slot),
            None => true,
        }
    }

    /// Asks for the models of a harness, unless they are there or asked for.
    pub fn ensure_models(&mut self, harness: HarnessId, engine_attached: bool) -> (call: Option<
        PickerCall,
    >)
        ensures
            call == (if old(self).models_wanted(harness) && engine_attached {
                Some(PickerCall::ListModels(harness))
            } else {
                None
            }),
            *final(self) == (if call is Some {
                Pickers { models: old(self).models.filled(harness, Loadable::Loading), ..*old(self) }
            } else {
                *old(self)
            }),
    {
        let there = match self.models.get(harness) {
            Some(slot) => is_settled(slot),
            None => false,
        };
        if there || !engine_attached {
            return None;
        }
        self.models.insert(harness, Loadable::Loading);
        Some(PickerCall::ListModels(harness))
    }

    /// Asks for the repositories, unless they are there or asked for; `force` asks in any case.
    pub fn ensure_repos(&mut self, force: bool, engine_attached: bool) -> (call: Option<PickerCall>)
        ensures
            call == (if (force || !settled(old(self).repos)) && engine_attached {
                Some(PickerCall::ListRepos)
            } else {
                None
            }),
            *final(self) == (if call is Some {
                Pickers { repos: Loadable::Loading, ..*old(self) }
            } else {
                *old(self)
            }),
    {
        if (!force && is_settled(&self.repos)) || !engine_attached {
            return None;
        }
        self.repos = Loadable::Loading;
        Some(PickerCall::ListRepos)
    }

    /// The branches that are there, or asked for, are those of a repository.
    pub open spec fn branches_fresh(self, repo: Repo) -> bool {
        text_opt(self.branches_repo) == Some(repo.path@) && settled(self.branches)
    }

    /// Asks for the branches of the picked repository, unless those are there or asked for; `force` asks in
    /// any case.
    pub fn ensure_branches(&mut self, force: bool, engine_attached: bool) -> (call: Option<PickerCall>)
        ensures
            call == (match old(self).config.repo {
                Some(repo) => if (force || !old(self).branches_fresh(repo)) && engine_attached {
                    Some(PickerCall::ListBranches(repo.path))
                } else {
                    None
                },
                None => None,
            }),
            *final(self) == (if call is Some {
                Pickers {
                    branches: Loadable::Loading,
                    branches_repo: Some(old(self).config.repo->0.path),
                    ..*old(self)
                }
            } else {
                *old(self)
            }),
    {
        let path = match &self.config.repo {
            Some(repo) => repo.path.clone(),
            None => {
                return None;
            },
        };
        let same_repo = match &self.branches_repo {
            Some(known) => text::same(known.as_str(), path.as_str()),
            None => false,
        };
        if (!force && same_repo && is_settled(&self.branches)) || !engine_attached {
            return None;
        }
        self.branches = Loadable::Loading;
        self.branches_repo = Some(path.clone());
        Some(PickerCall::ListBranches(path))
    }

    /// A folder is asked for, where an engine is connected.
    pub open spec fn folder_asked(
        before: Pickers,
        after: Pickers,
        path: Option<String>,
        engine_attached: bool,
        call: Option<PickerCall>,
    ) -> bool {
        if engine_attached {
            &&& after == (Pickers {
                browser_path: path,
                browser: Loadable::Loading,
                active: 0,
                ..before
            })
            &&& call == Some(PickerCall::ListFolders(path))
        } else {
            after == before && call is None
        }
    }

    /// Asks for a folder; none is the home folder.
    pub fn load_folders(&mut self, path: Option<String>, engine_attached: bool) -> (call: Option<
        PickerCall,
    >)
        ensures
            Self::folder_asked(*old(self), *final(self), path, engine_attached, call),
    {
        if !engine_attached {
            return None;
        }
        self.browser_path = text::copied(&path);
        self.browser = Loadable::Loading;
        self.active = 0;
        Some(PickerCall::ListFolders(path))
    }

    // ---- answers ----

    /// Takes the harnesses, and asks for the models of the harness that is then in effect.
    pub fn harnesses_loaded(
        &mut self,
        result: Result<Vec<HarnessDescriptor>, String>,
        ctx: PickerContext,
    ) -> (call: Option<PickerCall>)
        ensures
            ({
                let mid = Pickers { harnesses: answered(result), ..*old(self) };
                match mid.harness_in_effect(ctx) {
                    Some(h) if mid.models_wanted(h) && ctx.engine_attached => call == Some(
                        PickerCall::ListModels(h),
                    ) && *final(self) == (Pickers {
                        models: mid.models.filled(h, Loadable::Loading),
                        ..mid
                    }),
                    _ => call is None && *final(self) == mid,
                }
            }),
    {
        self.harnesses = answer(result);
        match self.effective_harness(ctx) {
            Some(h) => self.ensure_models(h, ctx.engine_attached),
            None => None,
        }
    }

    /// Takes the models of a harness.
    pub fn models_loaded(&mut self, harness: HarnessId, result: Result<Vec<Model>, String>)
        ensures
            *final(self) == (Pickers {
                models: old(self).models.filled(harness, answered(result)),
                ..*old(self)
            }),
    {
        self.models.insert(harness, answer(result));
    }

    /// Takes the repositories.
    pub fn repos_loaded(&mut self, result: Result<Vec<Repo>, String>)
        ensures
            *final(self) == (Pickers { repos: answered(result), ..*old(self) }),
    {
        self.repos = answer(result);
    }

    /// Takes the branches.
    pub fn branches_loaded(&mut self, result: Result<Vec<String>, String>)
        ensures
            *final(self) == (Pickers { branches: answered(result), ..*old(self) }),
    {
        self.branches = answer(result);
    }

    /// Takes a folder.
    pub fn folders_loaded(&mut self, result: Result<FolderListing, String>)
        ensures
            *final(self) == (Pickers { browser: answered(result), ..*old(self) }),
    {
        self.browser = answer(result);
    }

    // ---- open and close ----

    /// Takes a click outside: the popover closes, and its trigger is guarded for a moment.
    pub fn close(&mut self, now_ms: u64)
        ensures
            *final(self) == (Pickers {
                open: None,
                suppressed: match old(self).open {
                    Some(kind) => Some((kind, now_ms)),
                    None => old(self).suppressed,
                },
                form_error: None,
                form_busy: false,
                ..*old(self)
            }),
    {
        if let Some(kind) = self.open {
            self.open = None;
            self.suppressed = Some((kind, now_ms));
        }
        self.form_error = None;
        self.form_busy = false;
    }

    /// The click that dismissed a popover would open it again.
    pub open spec fn guarded(self, kind: PickerKind, now_ms: u64) -> bool {
        self.suppressed matches Some((k, at)) && k == kind && now_ms - at < REOPEN_GUARD_MS
    }

    /// The pickers right after a popover opened, before anything is asked for.
    pub open spec fn opened(before: Pickers, mid: Pickers, kind: PickerKind) -> bool {
        &&& mid == (Pickers {
            open: Some(kind),
            suppressed: None,
            repo_pane: RepoPane::List,
            active: 0,
            form_error: None,
            search: mid.search,
            placeholder: Placeholder::Search,
            ..before
        })
        &&& mid.search@.len() == 0
    }

    /// Opens or closes a popover by its trigger. Returns what to ask of the engine.
    pub fn toggle(&mut self, kind: PickerKind, ctx: PickerContext, now_ms: u64) -> (calls: Vec<
        PickerCall,
    >)
        ensures
            old(self).open == Some(kind) ==> calls@.len() == 0 && *final(self) == (Pickers {
                open: None,
                ..*old(self)
            }),
            old(self).open != Some(kind) && old(self).guarded(kind, now_ms) ==> calls@.len() == 0
                && *final(self) == (Pickers { suppressed: None, ..*old(self) }),
            old(self).open != Some(kind) && !old(self).guarded(kind, now_ms) ==> exists|mid: Pickers|
                #[trigger] Self::opened(*old(self), mid, kind) && Self::asked_on_open(
                    mid,
                    *final(self),
                    kind,
                    ctx,
                    calls@,
                ),
    {
        let ghost before = *self;
        if self.open == Some(kind) {
            self.open = None;
            return Vec::new();
        }
        let guarded = match self.suppressed {
            Some((k, at)) => k == kind && (now_ms < at || now_ms - at < REOPEN_GUARD_MS),
            None => false,
        };
        self.suppressed = None;
        if guarded {
            return Vec::new();
        }
        self.open = Some(kind);
        self.repo_pane = RepoPane::List;
        self.active = 0;
        self.form_error = None;
        self.search = String::new();
        self.placeholder = Placeholder::Search;
        let ghost mid = *self;
        proof {
            assert(Self::opened(before, mid, kind));
        }
        let mut calls: Vec<PickerCall> = Vec::new();
        match kind {
            PickerKind::Repo => {
                if let Some(call) = self.ensure_repos(false, ctx.engine_attached) {
                    calls.push(call);
                }
            },
            PickerKind::Branch => {
                if let Some(call) = self.ensure_branches(false, ctx.engine_attached) {
                    calls.push(call);
                }
            },
            PickerKind::HarnessModel | PickerKind::Traits => {
                if let Some(call) = self.ensure_harnesses(ctx.engine_attached) {
                    calls.push(call);
                }
                if let Some(h) = self.effective_harness(ctx) {
                    if let Some(call) = self.ensure_models(h, ctx.engine_attached) {
                        calls.push(call);
                    }
                }
            },
        }
        proof {
            assert(Self::asked_on_open(mid, *self, kind, ctx, calls@));
        }
        calls
    }

    /// What an opened popover asks for: what it shows, where that is neither there nor asked for.
    pub open spec fn asked_on_open(
        before: Pickers,
        after: Pickers,
        kind: PickerKind,
        ctx: PickerContext,
        calls: Seq<PickerCall>,
    ) -> bool {
        match kind {
            PickerKind::Repo => if !settled(before.repos) && ctx.engine_attached {
                calls == seq![PickerCall::ListRepos] && after == (Pickers {
                    repos: Loadable::Loading,
                    ..before
                })
            } else {
                calls.len() == 0 && after == before
            },
            PickerKind::Branch => match before.config.repo {
                Some(repo) if !before.branches_fresh(repo) && ctx.engine_attached => calls == seq![
                    PickerCall::ListBranches(repo.path),
                ] && after == (Pickers {
                    branches: Loadable::Loading,
                    branches_repo: Some(repo.path),
                    ..before
                }),
                _ => calls.len() == 0 && after == before,
            },
            PickerKind::HarnessModel | PickerKind::Traits => {
                let asks = !settled(before.harnesses) && ctx.engine_attached;
                let mid = if asks {
                    Pickers { harnesses: Loadable::Loading, ..before }
                } else {
                    before
                };
                let first = if asks {
                    seq![PickerCall::ListHarnesses]
                } else {
                    Seq::empty()
                };
                match mid.harness_in_effect(ctx) {
                    Some(h) if mid.models_wanted(h) && ctx.engine_attached => calls == first.push(
                        PickerCall::ListModels(h),
                    ) && after == (Pickers {
                        models: mid.models.filled(h, Loadable::Loading),
                        ..mid
                    }),
                    _ => calls == first && after == mid,
                }
            },
        }
    }

    // ---- choices ----

    /// The pickers after a repository was picked: another repository drops the branch and its list.
    pub open spec fn repo_picked(self, repo: Repo) -> Pickers {
        let same = self.config.repo matches Some(r) && r.path@ == repo.path@;
        if same {
            Pickers {
                config: DraftConfig { repo: Some(repo), ..self.config },
                open: None,
                ..self
            }
        } else {
            Pickers {
                config: DraftConfig { repo: Some(repo), branch: None, ..self.config },
                branches: Loadable::Idle,
                branches_repo: None,
                open: None,
                ..self
            }
        }
    }

    pub fn pick_repo(&mut self, repo: Repo)
        ensures
            *final(self) == old(self).repo_picked(repo),
    {
        let same = match &self.config.repo {
            Some(r) => text::same(r.path.as_str(), repo.path.as_str()),
            None => false,
        };
        if !same {
            self.config.branch = None;
            self.branches = Loadable::Idle;
            self.branches_repo = None;
        }
        self.config.repo = Some(repo);
        self.open = None;
    }

    /// A form is sent, where an engine is connected.
    pub open spec fn form_sent(
        before: Pickers,
        after: Pickers,
        engine_attached: bool,
        sent: PickerCall,
        call: Option<PickerCall>,
    ) -> bool {
        if engine_attached {
            after == (Pickers { form_busy: true, form_error: None, ..before }) && call == Some(sent)
        } else {
            after == before && call is None
        }
    }

    /// Asks for a folder to be added as a repository.
    pub fn add_repo_path(&mut self, path: String, engine_attached: bool) -> (call: Option<PickerCall>)
        ensures
            Self::form_sent(
                *old(self),
                *final(self),
                engine_attached,
                PickerCall::AddRepo(path),
                call,
            ),
    {
        if !engine_attached {
            return None;
        }
        self.form_busy = true;
        self.form_error = None;
        Some(PickerCall::AddRepo(path))
    }

    /// Takes the answer to a form: the repository is picked and the list asked for again, or the error is
    /// shown. The address and name forms also clear the input.
    pub fn form_answered(
        &mut self,
        result: Result<Repo, String>,
        clears_input: bool,
        engine_attached: bool,
    ) -> (call: Option<PickerCall>)
        ensures
            match result {
                Ok(repo) => {
                    let mid = Pickers {
                        form_busy: false,
                        repos: if engine_attached {
                            Loadable::Loading
                        } else {
                            old(self).repos
                        },
                        search: final(self).search,
                        ..*old(self)
                    };
                    &&& *final(self) == mid.repo_picked(repo)
                    &&& if clears_input {
                        final(self).search@.len() == 0
                    } else {
                        final(self).search == old(self).search
                    }
                    &&& call == (if engine_attached {
                        Some(PickerCall::ListRepos)
                    } else {
                        None
                    })
                },
                Err(message) => call is None && *final(self) == (Pickers {
                    form_busy: false,
                    form_error: Some(message),
                    ..*old(self)
                }),
            },
    {
        self.form_busy = false;
        match result {
            Ok(repo) => {
                let call = self.ensure_repos(true, engine_attached);
                if clears_input {
                    self.search = String::new();
                }
                self.pick_repo(repo);
                call
            },
            Err(message) => {
                self.form_error = Some(message);
                None
            },
        }
    }

    /// What the address or name form sends: the input without surrounding whitespace.
    pub open spec fn form_call(self, call: PickerCall) -> bool {
        match self.repo_pane {
            RepoPane::CloneUrl => call matches PickerCall::CloneRepo(url) && url@ == trimmed(
                self.search@,
            ),
            RepoPane::CreateName => call matches PickerCall::CreateRepo(name) && name@ == trimmed(
                self.search@,
            ),
            _ => false,
        }
    }

    /// The form can be sent: it is an address or a name that is not blank, and none is on its way.
    pub open spec fn form_ready(self) -> bool {
        trimmed(self.search@).len() > 0 && !self.form_busy && (self.repo_pane == RepoPane::CloneUrl
            || self.repo_pane == RepoPane::CreateName)
    }

    /// Sends the address or name form.
    pub fn submit_repo_form(&mut self, engine_attached: bool) -> (call: Option<PickerCall>)
        ensures
            call is Some <==> old(self).form_ready() && engine_attached,
            call matches Some(sent) ==> old(self).form_call(sent) && *final(self) == (Pickers {
                form_busy: true,
                form_error: None,
                ..*old(self)
            }),
            call is None ==> *final(self) == *old(self),
    {
        let text = text::trim(self.search.as_str());
        if text::empty(text.as_str()) || self.form_busy {
            return None;
        }
        let call = match self.repo_pane {
            RepoPane::CloneUrl => PickerCall::CloneRepo(text),
            RepoPane::CreateName => PickerCall::CreateRepo(text),
            _ => {
                return None;
            },
        };
        if !engine_attached {
            return None;
        }
        self.form_busy = true;
        self.form_error = None;
        Some(call)
    }

    pub fn pick_branch(&mut self, branch: String)
        ensures
            *final(self) == (Pickers {
                config: DraftConfig { branch: Some(branch), ..old(self).config },
                open: None,
                ..*old(self)
            }),
    {
        self.config.branch = Some(branch);
        self.open = None;
    }

    /// Picks a harness, unless it is locked. Another harness drops the model and its traits. Asks for its
    /// models, where they are neither there nor asked for.
    pub fn pick_harness(&mut self, harness: HarnessId, ctx: PickerContext) -> (call: Option<PickerCall>)
        ensures
            ctx.chat_selected ==> call is None && *final(self) == *old(self),
            !ctx.chat_selected ==> {
                let config = final(self).config;
                &&& *final(self) == (Pickers {
                    config,
                    models: final(self).models,
                    ..*old(self)
                })
                &&& if old(self).config.harness == Some(harness) {
                    config == old(self).config
                } else {
                    config == (DraftConfig {
                        harness: Some(harness),
                        model: None,
                        reasoning: None,
                        model_options: config.model_options,
                        ..old(self).config
                    }) && option_texts(config.model_options) == nothing_chosen()
                }
                &&& call == (if old(self).models_wanted(harness) && ctx.engine_attached {
                    Some(PickerCall::ListModels(harness))
                } else {
                    None
                })
                &&& final(self).models == (if call is Some {
                    old(self).models.filled(harness, Loadable::Loading)
                } else {
                    old(self).models
                })
            },
    {
        if ctx.chat_selected {
            return None;
        }
        if self.config.harness != Some(harness) {
            self.config.model = None;
            self.config.reasoning = None;
            clear_options(&mut self.config.model_options);
        }
        self.config.harness = Some(harness);
        self.ensure_models(harness, ctx.engine_attached)
    }

    pub fn pick_model(&mut self, model_id: String)
        ensures
            *final(self) == (Pickers {
                config: DraftConfig { model: Some(model_id), ..old(self).config },
                open: None,
                ..*old(self)
            }),
    {
        self.config.model = Some(model_id);
        self.open = None;
    }

    /// Picks a reasoning level; picking the active one goes back to the default of the model.
    pub fn pick_reasoning(&mut self, level: ReasoningLevel)
        ensures
            *final(self) == (Pickers {
                config: DraftConfig {
                    reasoning: if old(self).config.reasoning == Some(level) {
                        None
                    } else {
                        Some(level)
                    },
                    ..old(self).config
                },
                ..*old(self)
            }),
    {
        if self.config.reasoning == Some(level) {
            self.config.reasoning = None;
        } else {
            self.config.reasoning = Some(level);
        }
    }

    /// Picks a choice of an option; the default choice is not kept.
    pub fn pick_option(&mut self, option_id: String, choice_id: String, is_default: bool)
        ensures
            *final(self) == (Pickers {
                config: DraftConfig {
                    model_options: final(self).config.model_options,
                    ..old(self).config
                },
                ..*old(self)
            }),
            option_texts(final(self).config.model_options) == (if is_default {
                option_texts(old(self).config.model_options).remove(option_id@)
            } else {
                option_texts(old(self).config.model_options).insert(option_id@, Some(choice_id@))
            }),
    {
        if is_default {
            unset_option(&mut self.config.model_options, option_id.as_str());
        } else {
            set_option(&mut self.config.model_options, option_id, choice_id);
        }
    }

    /// Turns the isolated worktree on or off.
    pub fn toggle_isolated(&mut self)
        ensures
            *final(self) == (Pickers {
                config: DraftConfig {
                    isolated_worktree: !old(self).config.isolated_worktree,
                    ..old(self).config
                },
                ..*old(self)
            }),
    {
        self.config.isolated_worktree = !self.config.isolated_worktree;
    }

    /// Takes an edit of the search: the highlight starts over.
    pub fn search_edited(&mut self, search: String)
        ensures
            *final(self) == (Pickers { search, active: 0, ..*old(self) }),
    {
        self.search = search;
        self.active = 0;
    }

    /// Goes to another pane of the repository popover. The browser asks for the home folder, where no folder
    /// is there yet.
    pub fn show_pane(&mut self, pane: RepoPane, engine_attached: bool) -> (call: Option<PickerCall>)
        ensures
            ({
                let mid = Pickers {
                    repo_pane: pane,
                    active: 0,
                    form_error: None,
                    search: final(self).search,
                    placeholder: pane.asks_for(),
                    ..*old(self)
                };
                &&& final(self).search@.len() == 0
                &&& if pane == RepoPane::Browser && !(old(self).browser is Ready) {
                    Self::folder_asked(mid, *final(self), None, engine_attached, call)
                } else {
                    *final(self) == mid && call is None
                }
            }),
    {
        self.repo_pane = pane;
        self.active = 0;
        self.form_error = None;
        self.search = String::new();
        self.placeholder = pane.placeholder();
        if pane == RepoPane::Browser && self.browser.ready().is_none() {
            self.load_folders(None, engine_attached)
        } else {
            None
        }
    }

    /// Goes back from a form to the list.
    pub fn leave_form(&mut self)
        ensures
            *final(self) == (Pickers {
                repo_pane: RepoPane::List,
                form_error: None,
                search: final(self).search,
                placeholder: Placeholder::Search,
                ..*old(self)
            }),
            final(self).search@.len() == 0,
    {
        self.repo_pane = RepoPane::List;
        self.form_error = None;
        self.search = String::new();
        self.placeholder = Placeholder::Search;
    }

    /// Goes back from the browser to the list.
    pub fn leave_browser(&mut self)
        ensures
            *final(self) == (Pickers { repo_pane: RepoPane::List, ..*old(self) }),
    {
        self.repo_pane = RepoPane::List;
    }

    /// Asks again for what a popover could not show.
    pub fn retry(&mut self, kind: PickerKind, engine_attached: bool) -> (call: Option<PickerCall>)
        ensures
            match kind {
                PickerKind::Repo => if old(self).repo_pane == RepoPane::Browser {
                    Self::folder_asked(
                        *old(self),
                        *final(self),
                        old(self).browser_path,
                        engine_attached,
                        call,
                    )
                } else if engine_attached {
                    call == Some(PickerCall::ListRepos) && *final(self) == (Pickers {
                        repos: Loadable::Loading,
                        ..*old(self)
                    })
                } else {
                    call is None && *final(self) == *old(self)
                },
                PickerKind::Branch => match old(self).config.repo {
                    Some(repo) if engine_attached => call == Some(
                        PickerCall::ListBranches(repo.path),
                    ) && *final(self) == (Pickers {
                        branches: Loadable::Loading,
                        branches_repo: Some(repo.path),
                        ..*old(self)
                    }),
                    _ => call is None && *final(self) == *old(self),
                },
                PickerKind::HarnessModel | PickerKind::Traits => if engine_attached {
                    call == Some(PickerCall::ListHarnesses) && *final(self) == (Pickers {
                        harnesses: Loadable::Loading,
                        ..*old(self)
                    })
                } else {
                    call is None && *final(self) == (Pickers {
                        harnesses: Loadable::Idle,
                        ..*old(self)
                    })
                },
            },
    {
        match kind {
            PickerKind::Repo => {
                if self.repo_pane == RepoPane::Browser {
                    let path = text::copied(&self.browser_path);
                    self.load_folders(path, engine_attached)
                } else {
                    self.ensure_repos(true, engine_attached)
                }
            },
            PickerKind::Branch => self.ensure_branches(true, engine_attached),
            PickerKind::HarnessModel | PickerKind::Traits => {
                self.harnesses = Loadable::Idle;
                self.ensure_harnesses(engine_attached)
            },
        }
    }

    // ---- lists ----

    /// The rows of the repository list, as the search finds them.
    pub fn filtered_repo_rows(&self, chats: &[Chat]) -> (rows: Vec<Repo>)
        ensures
            match self.repos {
                Loadable::Ready(repos) => repo_rows(repos@, chats@, self.search@, rows@),
                _ => rows@.len() == 0,
            },
    {
        match &self.repos {
            Loadable::Ready(repos) => {
                let recents = recent_cwds(chats);
                let copy = copy_repos(repos);
                let ordered = order_repos(copy, &recents);
                let rows = search_repos(&ordered, self.search.as_str());
                proof {
                    let sorted = choose|sorted: Seq<Repo>| #[trigger]
                        stably_sorted::<Repo, RepoOrder>(repos@, sorted) && ordered@
                            == recents_first(sorted, recents@);
                    assert(recents_first(sorted, recents@) == ordered@);
                }
                rows
            },
            _ => Vec::new(),
        }
    }

    /// The rows of the branch list, as the search finds them.
    pub open spec fn branch_rows(self) -> Seq<String> {
        match self.branches {
            Loadable::Ready(branches) => searched(branches@, self.search@),
            _ => Seq::empty(),
        }
    }

    pub fn filtered_branch_rows(&self) -> (rows: Vec<String>)
        ensures
            rows@ == self.branch_rows(),
    {
        match &self.branches {
            Loadable::Ready(branches) => search_texts(branches, self.search.as_str()),
            _ => Vec::new(),
        }
    }
}

} // verus!
