//! What the picker chips and popovers show.

use crate::lists::pointees;
use crate::model::{
    Chat, FolderEntry, HarnessDescriptor, HarnessId, Model, ModelOption, ReasoningLevel, Repo,
};
use crate::options::{chosen_in, option_text, option_texts};
use crate::pickers::browse::{
    breadcrumbs, browser_rows, crumb_views, crumbs_of, folder_rows, segments,
};
use crate::pickers::draft::{
    level_label, offered, reasoning_label, summary_of, traits_summary, visible_harnesses,
};
use crate::pickers::keys::listed;
use crate::pickers::state::{PickerContext, PickerKind, Pickers, RepoPane};
use crate::popover::Loadable;
use crate::text;
use crate::text::text_opt;
use vstd::prelude::*;

verus! {

/// A trigger chip.
#[derive(Debug, PartialEq, Eq)]
pub struct Chip {
    pub label: String,
    /// Something was chosen.
    pub set: bool,
    /// Its popover is open.
    pub open: bool,
}

/// The chips of the composer. Repository and branch can only be chosen for a new chat.
#[derive(Debug, PartialEq, Eq)]
pub struct Chips {
    pub repo: Option<Chip>,
    pub branch: Option<Chip>,
    pub model: Chip,
    pub traits: Chip,
}

/// A list that is loading, failed, has nothing to show, or has rows.
#[derive(Debug, PartialEq, Eq)]
pub enum ListBody<T> {
    /// Placeholder rows.
    Skeleton(usize),
    /// The error, with a way to try again.
    Failed(String),
    Nothing,
    Rows(Vec<T>),
}

/// A chip shows a label.
pub open spec fn chip_shows(chip: Chip, label: Seq<char>, set: bool, open: bool) -> bool {
    chip.label@ == label && chip.set == set && chip.open == open
}

/// The label of the model chip: harness and model as far as they are known.
pub open spec fn model_label(harness: Option<HarnessDescriptor>, model: Option<Model>) -> Seq<char> {
    match (harness, model) {
        (Some(h), Some(m)) => h.name@ + " · "@ + m.label@,
        (Some(h), None) => h.name@,
        _ => "Model"@,
    }
}

/// The text of an optional text, or another one.
pub open spec fn text_or(s: Option<Seq<char>>, other: Seq<char>) -> Seq<char> {
    match s {
        Some(t) => t,
        None => other,
    }
}

impl Pickers {
    /// The trigger chips.
    pub fn chips(&self, ctx: PickerContext) -> (chips: Chips)
        ensures
            chips.repo is Some <==> !ctx.chat_selected,
            chips.branch is Some <==> !ctx.chat_selected,
            chips.repo matches Some(chip) ==> chip_shows(
                chip,
                match self.config.repo {
                    Some(repo) => repo.name@,
                    None => "Repo"@,
                },
                self.config.repo is Some,
                self.open == Some(PickerKind::Repo),
            ),
            chips.branch matches Some(chip) ==> chip_shows(
                chip,
                text_or(text_opt(self.config.branch), "Branch"@),
                self.config.branch is Some,
                self.open == Some(PickerKind::Branch),
            ),
            chip_shows(
                chips.model,
                model_label(self.described(ctx), self.model_in_effect(ctx)),
                self.config.model is Some,
                self.open == Some(PickerKind::HarnessModel),
            ),
            ({
                let summary = summary_of(
                    self.model_in_effect(ctx),
                    self.config.reasoning,
                    option_texts(self.config.model_options),
                );
                chip_shows(
                    chips.traits,
                    text_or(summary, "Traits"@),
                    summary is Some,
                    self.open == Some(PickerKind::Traits),
                )
            }),
    {
        let repo = if ctx.chat_selected {
            None
        } else {
            Some(
                Chip {
                    label: match &self.config.repo {
                        Some(repo) => repo.name.clone(),
                        None => "Repo".to_owned(),
                    },
                    set: self.config.repo.is_some(),
                    open: self.open == Some(PickerKind::Repo),
                },
            )
        };
        let branch = if ctx.chat_selected {
            None
        } else {
            Some(
                Chip {
                    label: match &self.config.branch {
                        Some(branch) => branch.clone(),
                        None => "Branch".to_owned(),
                    },
                    set: self.config.branch.is_some(),
                    open: self.open == Some(PickerKind::Branch),
                },
            )
        };
        let model = self.selected_model(ctx);
        let label = match (self.effective_descriptor(ctx), model) {
            (Some(h), Some(m)) => text::joined3(h.name.as_str(), " · ", m.label.as_str()),
            (Some(h), None) => h.name.clone(),
            _ => "Model".to_owned(),
        };
        let summary = traits_summary(model, self.config.reasoning, &self.config.model_options);
        let set = summary.is_some();
        let traits_label = match summary {
            Some(s) => s,
            None => "Traits".to_owned(),
        };
        Chips {
            repo,
            branch,
            model: Chip {
                label,
                set: self.config.model.is_some(),
                open: self.open == Some(PickerKind::HarnessModel),
            },
            traits: Chip {
                label: traits_label,
                set,
                open: self.open == Some(PickerKind::Traits),
            },
        }
    }
}

// ---------------------------------------------------------------------------
// Repository popover
// ---------------------------------------------------------------------------

/// One folder of the browser.
#[derive(Debug, PartialEq, Eq)]
pub struct FolderRow {
    pub name: String,
    pub is_repo: bool,
    pub highlighted: bool,
}

/// The folder browser.
#[derive(Debug, PartialEq, Eq)]
pub struct BrowserView {
    /// Label and full path of each crumb.
    pub crumbs: Vec<(String, String)>,
    pub body: ListBody<FolderRow>,
    /// There are more entries than the listing holds.
    pub truncated: bool,
    pub error: Option<String>,
    /// The folder that can be used as it is.
    pub use_this: Option<String>,
}

/// The address or name form.
#[derive(Debug, PartialEq, Eq)]
pub struct FormView {
    pub title: String,
    pub submit_label: String,
    pub error: Option<String>,
    pub busy: bool,
}

/// The repository popover.
#[derive(Debug, PartialEq, Eq)]
pub enum RepoPopover {
    /// The list, with the highlighted row.
    List(ListBody<Repo>, usize),
    Browser(BrowserView),
    Form(FormView),
}

/// A body that shows the rows of a list, once they are there.
pub open spec fn body_shows<S, T>(
    body: ListBody<T>,
    slot: Loadable<S>,
    skeleton: usize,
    rows: Seq<T>,
) -> bool {
    match slot {
        Loadable::Idle | Loadable::Loading => body == ListBody::<T>::Skeleton(skeleton),
        Loadable::Error(message) => body == ListBody::<T>::Failed(message),
        Loadable::Ready(_) => if rows.len() == 0 {
            body is Nothing
        } else {
            body matches ListBody::Rows(shown) && shown@ == rows
        },
    }
}

/// A row of the browser shows an entry.
pub open spec fn folder_shown(row: FolderRow, entry: FolderEntry, highlighted: bool) -> bool {
    row.name == entry.name && row.is_repo == entry.is_repo && row.highlighted == highlighted
}

/// The browser shows its folder.
pub open spec fn browser_shows(view: BrowserView, p: Pickers) -> bool {
    &&& view.error == p.form_error
    &&& match p.browser {
        Loadable::Ready(listing) => {
            &&& crumb_views(view.crumbs@) == crumbs_of(segments(listing.path@))
            &&& view.truncated == listing.truncated
            &&& view.use_this == Some(listing.path)
            &&& if folder_rows(listing).len() == 0 {
                view.body is Nothing
            } else {
                view.body matches ListBody::Rows(rows) && rows@.len() == folder_rows(listing).len()
                    && forall|i: int|
                    0 <= i < rows@.len() ==> folder_shown(
                        #[trigger] rows@[i],
                        folder_rows(listing)[i],
                        i == p.active,
                    )
            }
        },
        Loadable::Error(message) => view.crumbs@.len() == 0 && !view.truncated
            && view.use_this is None && view.body == ListBody::<FolderRow>::Failed(message),
        _ => view.crumbs@.len() == 0 && !view.truncated && view.use_this is None && view.body
            == ListBody::<FolderRow>::Skeleton(6),
    }
}

/// The form shows what it asks for.
pub open spec fn form_shows(view: FormView, p: Pickers) -> bool {
    let clone = p.repo_pane == RepoPane::CloneUrl;
    &&& view.title@ == (if clone {
        "Clone from URL"@
    } else {
        "Create new repo"@
    })
    &&& view.submit_label@ == (if p.form_busy {
        "Working…"@
    } else if clone {
        "Clone"@
    } else {
        "Create"@
    })
    &&& view.error == p.form_error
    &&& view.busy == p.form_busy
}

impl Pickers {
    /// The folder browser.
    pub fn browser_view(&self) -> (view: BrowserView)
        ensures
            browser_shows(view, *self),
    {
        match &self.browser {
            Loadable::Ready(listing) => {
                let entries = browser_rows(listing);
                let ghost all = folder_rows(*listing);
                let mut rows: Vec<FolderRow> = Vec::new();
                let mut i: usize = 0;
                proof {
                    assert(pointees(entries@).len() == entries@.len());
                }
                while i < entries.len()
                    invariant
                        i <= entries.len(),
                        pointees(entries@) == all,
                        entries@.len() == all.len(),
                        rows.len() == i,
                        forall|k: int|
                            0 <= k < i ==> folder_shown(
                                #[trigger] rows@[k],
                                all[k],
                                k == self.active,
                            ),
                    decreases entries.len() - i,
                {
                    proof {
                        assert(pointees(entries@)[i as int] == *entries@[i as int]);
                    }
                    rows.push(
                        FolderRow {
                            name: entries[i].name.clone(),
                            is_repo: entries[i].is_repo,
                            highlighted: i == self.active,
                        },
                    );
                    i = i + 1;
                }
                let body = if rows.len() == 0 {
                    ListBody::Nothing
                } else {
                    ListBody::Rows(rows)
                };
                BrowserView {
                    crumbs: breadcrumbs(listing.path.as_str()),
                    body,
                    truncated: listing.truncated,
                    error: text::copied(&self.form_error),
                    use_this: Some(listing.path.clone()),
                }
            },
            Loadable::Error(message) => BrowserView {
                crumbs: Vec::new(),
                body: ListBody::Failed(message.clone()),
                truncated: false,
                error: text::copied(&self.form_error),
                use_this: None,
            },
            _ => BrowserView {
                crumbs: Vec::new(),
                body: ListBody::Skeleton(6),
                truncated: false,
                error: text::copied(&self.form_error),
                use_this: None,
            },
        }
    }

    /// The repository popover.
    pub fn repo_popover(&self, chats: &[Chat]) -> (view: RepoPopover)
        ensures
            match self.repo_pane {
                RepoPane::List => view matches RepoPopover::List(body, active) && active
                    == self.active && exists|rows: Seq<Repo>| #[trigger]
                    listed(*self, chats@, rows) && body_shows(body, self.repos, 4, rows),
                RepoPane::Browser => view matches RepoPopover::Browser(b) && browser_shows(b, *self),
                RepoPane::CloneUrl | RepoPane::CreateName => view matches RepoPopover::Form(f)
                    && form_shows(f, *self),
            },
    {
        match self.repo_pane {
            RepoPane::List => {
                let rows = self.filtered_repo_rows(chats);
                proof {
                    assert(listed(*self, chats@, rows@));
                }
                let body = match &self.repos {
                    Loadable::Idle | Loadable::Loading => ListBody::Skeleton(4),
                    Loadable::Error(message) => ListBody::Failed(message.clone()),
                    Loadable::Ready(_) => if rows.len() == 0 {
                        ListBody::Nothing
                    } else {
                        ListBody::Rows(rows)
                    },
                };
                RepoPopover::List(body, self.active)
            },
            RepoPane::Browser => RepoPopover::Browser(self.browser_view()),
            RepoPane::CloneUrl | RepoPane::CreateName => {
                let clone = self.repo_pane == RepoPane::CloneUrl;
                let title = if clone {
                    "Clone from URL"
                } else {
                    "Create new repo"
                };
                let submit = if self.form_busy {
                    "Working…"
                } else if clone {
                    "Clone"
                } else {
                    "Create"
                };
                RepoPopover::Form(
                    FormView {
                        title: title.to_owned(),
                        submit_label: submit.to_owned(),
                        error: text::copied(&self.form_error),
                        busy: self.form_busy,
                    },
                )
            },
        }
    }
}

// ---------------------------------------------------------------------------
// Branch popover
// ---------------------------------------------------------------------------

/// A branch of the list.
#[derive(Debug, PartialEq, Eq)]
pub struct BranchRow {
    pub name: String,
    pub highlighted: bool,
    pub selected: bool,
}

/// The branch popover.
#[derive(Debug, PartialEq, Eq)]
pub struct BranchPopover {
    pub body: ListBody<BranchRow>,
    pub isolated: bool,
}

/// A row shows a branch.
pub open spec fn branch_shown(row: BranchRow, name: String, p: Pickers, ix: int) -> bool {
    row.name == name && row.highlighted == (ix == p.active) && row.selected == (text_opt(
        p.config.branch,
    ) == Some(name@))
}

impl Pickers {
    /// The branch popover; there is none without a repository.
    pub fn branch_popover(&self) -> (view: Option<BranchPopover>)
        ensures
            view is Some <==> self.config.repo is Some,
            view matches Some(v) ==> v.isolated == self.config.isolated_worktree && (match
                self.branches {
                Loadable::Idle | Loadable::Loading => v.body == ListBody::<BranchRow>::Skeleton(4),
                Loadable::Error(message) => v.body == ListBody::<BranchRow>::Failed(message),
                Loadable::Ready(_) => if self.branch_rows().len() == 0 {
                    v.body is Nothing
                } else {
                    v.body matches ListBody::Rows(rows) && rows@.len() == self.branch_rows().len()
                        && forall|i: int|
                        0 <= i < rows@.len() ==> branch_shown(
                            #[trigger] rows@[i],
                            self.branch_rows()[i],
                            *self,
                            i,
                        )
                },
            }),
    {
        if self.config.repo.is_none() {
            return None;
        }
        let body = match &self.branches {
            Loadable::Idle | Loadable::Loading => ListBody::Skeleton(4),
            Loadable::Error(message) => ListBody::Failed(message.clone()),
            Loadable::Ready(_) => {
                let names = self.filtered_branch_rows();
                let mut rows: Vec<BranchRow> = Vec::new();
                let mut i: usize = 0;
                while i < names.len()
                    invariant
                        i <= names.len(),
                        names@ == self.branch_rows(),
                        rows.len() == i,
                        forall|k: int|
                            0 <= k < i ==> branch_shown(#[trigger] rows@[k], names@[k], *self, k),
                    decreases names.len() - i,
                {
                    let selected = match &self.config.branch {
                        Some(branch) => text::same(branch.as_str(), names[i].as_str()),
                        None => false,
                    };
                    rows.push(
                        BranchRow {
                            name: names[i].clone(),
                            highlighted: i == self.active,
                            selected,
                        },
                    );
                    i = i + 1;
                }
                if rows.len() == 0 {
                    ListBody::Nothing
                } else {
                    ListBody::Rows(rows)
                }
            },
        };
        Some(BranchPopover { body, isolated: self.config.isolated_worktree })
    }
}

// ---------------------------------------------------------------------------
// Harness and model popover
// ---------------------------------------------------------------------------

/// A harness of the rail.
#[derive(Debug, PartialEq, Eq)]
pub struct HarnessRow {
    pub id: HarnessId,
    pub name: String,
    pub active: bool,
}

/// A model of the list.
#[derive(Debug, PartialEq, Eq)]
pub struct ModelRow {
    pub id: String,
    pub label: String,
    pub selected: bool,
}

/// The harness and model popover.
#[derive(Debug, PartialEq, Eq)]
pub struct ModelPopover {
    pub rail: ListBody<HarnessRow>,
    /// The harness of a chat that exists cannot be changed.
    pub locked: bool,
    pub models: ListBody<ModelRow>,
}

/// The rail shows the offered harnesses and marks the one in effect.
pub open spec fn rail_shows(
    rail: ListBody<HarnessRow>,
    slot: Loadable<Vec<HarnessDescriptor>>,
    effective: Option<HarnessId>,
) -> bool {
    match slot {
        Loadable::Idle | Loadable::Loading => rail == ListBody::<HarnessRow>::Skeleton(3),
        Loadable::Error(message) => rail == ListBody::<HarnessRow>::Failed(message),
        Loadable::Ready(list) => rail matches ListBody::Rows(rows) && rows@.len() == offered(
            list@,
        ).len() && forall|i: int|
            0 <= i < rows@.len() ==> harness_shown(
                #[trigger] rows@[i],
                offered(list@)[i],
                effective,
            ),
    }
}

/// A row shows a harness.
pub open spec fn harness_shown(
    row: HarnessRow,
    d: HarnessDescriptor,
    effective: Option<HarnessId>,
) -> bool {
    row.id == d.id && row.name == d.name && row.active == (effective == Some(d.id))
}

/// A row shows a model; with none picked the first one counts as picked.
pub open spec fn model_shown(row: ModelRow, m: Model, picked: Option<Seq<char>>, ix: int) -> bool {
    row.id == m.id && row.label == m.label && row.selected == (picked == Some(m.id@) || (
    picked is None && ix == 0))
}

/// The models of the harness in effect.
pub open spec fn models_show(models: ListBody<ModelRow>, p: Pickers, ctx: PickerContext) -> bool {
    let slot = match p.harness_in_effect(ctx) {
        Some(h) => p.models.slot(h),
        None => None,
    };
    match slot {
        Some(Loadable::Ready(list)) => models matches ListBody::Rows(rows) && rows@.len()
            == list@.len() && forall|i: int|
            0 <= i < rows@.len() ==> model_shown(
                #[trigger] rows@[i],
                list@[i],
                text_opt(p.config.model),
                i,
            ),
        Some(Loadable::Error(message)) => models == ListBody::<ModelRow>::Failed(message),
        _ => models == ListBody::<ModelRow>::Skeleton(4),
    }
}

impl Pickers {
    fn harness_rail(&self, effective: Option<HarnessId>) -> (rail: ListBody<HarnessRow>)
        ensures
            rail_shows(rail, self.harnesses, effective),
    {
        match &self.harnesses {
            Loadable::Idle | Loadable::Loading => ListBody::Skeleton(3),
            Loadable::Error(message) => ListBody::Failed(message.clone()),
            Loadable::Ready(list) => {
                let shown = visible_harnesses(list);
                let ghost all = offered(list@);
                let mut rows: Vec<HarnessRow> = Vec::new();
                let mut i: usize = 0;
                proof {
                    assert(pointees(shown@).len() == shown@.len());
                }
                while i < shown.len()
                    invariant
                        i <= shown.len(),
                        pointees(shown@) == all,
                        shown@.len() == all.len(),
                        rows.len() == i,
                        forall|k: int|
                            0 <= k < i ==> harness_shown(#[trigger] rows@[k], all[k], effective),
                    decreases shown.len() - i,
                {
                    proof {
                        assert(pointees(shown@)[i as int] == *shown@[i as int]);
                    }
                    let d = shown[i];
                    rows.push(
                        HarnessRow {
                            id: d.id,
                            name: d.name.clone(),
                            active: effective == Some(d.id),
                        },
                    );
                    i = i + 1;
                }
                ListBody::Rows(rows)
            },
        }
    }

    fn model_list(&self, ctx: PickerContext) -> (models: ListBody<ModelRow>)
        ensures
            models_show(models, *self, ctx),
    {
        let slot = match self.effective_harness(ctx) {
            Some(h) => self.models.get(h),
            None => None,
        };
        match slot {
            Some(Loadable::Ready(list)) => {
                let mut rows: Vec<ModelRow> = Vec::new();
                let mut i: usize = 0;
                while i < list.len()
                    invariant
                        i <= list.len(),
                        rows.len() == i,
                        forall|k: int|
                            0 <= k < i ==> model_shown(
                                #[trigger] rows@[k],
                                list@[k],
                                text_opt(self.config.model),
                                k,
                            ),
                    decreases list.len() - i,
                {
                    let selected = match &self.config.model {
                        Some(id) => text::same(id.as_str(), list[i].id.as_str()),
                        None => i == 0,
                    };
                    rows.push(
                        ModelRow {
                            id: list[i].id.clone(),
                            label: list[i].label.clone(),
                            selected,
                        },
                    );
                    i = i + 1;
                }
                ListBody::Rows(rows)
            },
            Some(Loadable::Error(message)) => ListBody::Failed(message.clone()),
            _ => ListBody::Skeleton(4),
        }
    }

    /// The harness and model popover.
    pub fn model_popover(&self, ctx: PickerContext) -> (view: ModelPopover)
        ensures
            view.locked == ctx.chat_selected,
            rail_shows(view.rail, self.harnesses, self.harness_in_effect(ctx)),
            models_show(view.models, *self, ctx),
    {
        let effective = self.effective_harness(ctx);
        ModelPopover {
            rail: self.harness_rail(effective),
            locked: ctx.chat_selected,
            models: self.model_list(ctx),
        }
    }
}

// ---------------------------------------------------------------------------
// Traits popover
// ---------------------------------------------------------------------------

/// A reasoning level of the ladder.
#[derive(Debug, PartialEq, Eq)]
pub struct LevelRow {
    pub level: ReasoningLevel,
    pub label: String,
    pub active: bool,
}

/// A choice of an option.
#[derive(Debug, PartialEq, Eq)]
pub struct ChoiceChip {
    pub id: String,
    pub label: String,
    pub active: bool,
    pub is_default: bool,
}

/// An option with its choices.
#[derive(Debug, PartialEq, Eq)]
pub struct OptionRow {
    pub id: String,
    pub label: String,
    pub choices: Vec<ChoiceChip>,
}

/// The traits popover.
#[derive(Debug, PartialEq, Eq)]
pub struct TraitsPopover {
    pub levels: Vec<LevelRow>,
    pub options: Vec<OptionRow>,
}

/// The levels of the ladder: those of the model, or those of its harness where the model names none.
pub open spec fn ladder(model: Model, harness: Option<HarnessDescriptor>) -> Seq<ReasoningLevel> {
    if model.reasoning_levels@.len() > 0 {
        model.reasoning_levels@
    } else {
        match harness {
            Some(d) => d.reasoning_levels@,
            None => Seq::empty(),
        }
    }
}

/// A row shows a level.
pub open spec fn level_shown(
    row: LevelRow,
    level: ReasoningLevel,
    current: Option<ReasoningLevel>,
) -> bool {
    row.level == level && row.label@ == level_label(level) && row.active == (current == Some(level))
}

/// A row shows an option: the chosen choice is active, or the default one where none is chosen.
pub open spec fn option_shown(row: OptionRow, option: ModelOption, chosen: Option<Seq<char>>) -> bool {
    &&& row.id == option.id
    &&& row.label == option.label
    &&& row.choices@.len() == option.choices@.len()
    &&& forall|i: int|
        0 <= i < row.choices@.len() ==> {
            let chip = #[trigger] row.choices@[i];
            let choice = option.choices@[i];
            &&& chip.id == choice.id
            &&& chip.label == choice.label
            &&& chip.active == (text_or(chosen, option.default_choice@) == choice.id@)
            &&& chip.is_default == (choice.id@ == option.default_choice@)
        }
}

/// The choices of an option, given the chosen one.
pub fn option_row(option: &ModelOption, chosen: Option<String>) -> (row: OptionRow)
    ensures
        option_shown(row, *option, text_opt(chosen)),
{
    let selected = match chosen {
        Some(id) => id,
        None => option.default_choice.clone(),
    };
    let mut choices: Vec<ChoiceChip> = Vec::new();
    let mut i: usize = 0;
    while i < option.choices.len()
        invariant
            i <= option.choices.len(),
            choices.len() == i,
            forall|k: int|
                0 <= k < i ==> {
                    let chip = #[trigger] choices@[k];
                    let choice = option.choices@[k];
                    &&& chip.id == choice.id
                    &&& chip.label == choice.label
                    &&& chip.active == (selected@ == choice.id@)
                    &&& chip.is_default == (choice.id@ == option.default_choice@)
                },
        decreases option.choices.len() - i,
    {
        let choice = &option.choices[i];
        choices.push(
            ChoiceChip {
                id: choice.id.clone(),
                label: choice.label.clone(),
                active: text::same(selected.as_str(), choice.id.as_str()),
                is_default: text::same(choice.id.as_str(), option.default_choice.as_str()),
            },
        );
        i = i + 1;
    }
    OptionRow { id: option.id.clone(), label: option.label.clone(), choices }
}

fn level_rows(levels: &[ReasoningLevel], current: Option<ReasoningLevel>) -> (rows: Vec<LevelRow>)
    ensures
        rows@.len() == levels@.len(),
        forall|i: int|
            0 <= i < rows@.len() ==> level_shown(#[trigger] rows@[i], levels@[i], current),
{
    let mut rows: Vec<LevelRow> = Vec::new();
    let mut i: usize = 0;
    while i < levels.len()
        invariant
            i <= levels.len(),
            rows.len() == i,
            forall|k: int| 0 <= k < i ==> level_shown(#[trigger] rows@[k], levels@[k], current),
        decreases levels.len() - i,
    {
        let level = levels[i];
        rows.push(
            LevelRow {
                level,
                label: reasoning_label(level).to_owned(),
                active: current == Some(level),
            },
        );
        i = i + 1;
    }
    rows
}

impl Pickers {
    /// The traits popover; there is none while no model is known.
    pub fn traits_popover(&self, ctx: PickerContext) -> (view: Option<TraitsPopover>)
        ensures
            view is Some <==> self.model_in_effect(ctx) is Some,
            view matches Some(v) ==> {
                let model = self.model_in_effect(ctx)->0;
                let levels = ladder(model, self.described(ctx));
                let contents = option_texts(self.config.model_options);
                &&& v.levels@.len() == levels.len()
                &&& forall|i: int|
                    0 <= i < levels.len() ==> level_shown(
                        #[trigger] v.levels@[i],
                        levels[i],
                        self.config.reasoning,
                    )
                &&& v.options@.len() == model.options@.len()
                &&& forall|i: int|
                    0 <= i < model.options@.len() ==> option_shown(
                        #[trigger] v.options@[i],
                        model.options@[i],
                        chosen_in(contents, model.options@[i].id@),
                    )
            },
    {
        let model = match self.selected_model(ctx) {
            Some(model) => model,
            None => {
                return None;
            },
        };
        let levels = if model.reasoning_levels.len() > 0 {
            level_rows(&model.reasoning_levels, self.config.reasoning)
        } else {
            match self.effective_descriptor(ctx) {
                Some(d) => level_rows(&d.reasoning_levels, self.config.reasoning),
                None => Vec::new(),
            }
        };
        let mut options: Vec<OptionRow> = Vec::new();
        let mut i: usize = 0;
        while i < model.options.len()
            invariant
                i <= model.options.len(),
                options.len() == i,
                forall|k: int|
                    0 <= k < i ==> option_shown(
                        #[trigger] options@[k],
                        model.options@[k],
                        chosen_in(
                            option_texts(self.config.model_options),
                            model.options@[k].id@,
                        ),
                    ),
            decreases model.options.len() - i,
        {
            let option = &model.options[i];
            let chosen = option_text(&self.config.model_options, option.id.as_str());
            options.push(option_row(option, chosen));
            i = i + 1;
        }
        Some(TraitsPopover { levels, options })
    }
}

} // verus!
