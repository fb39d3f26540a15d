use comet_ui::model::{
    Chat, FolderEntry, FolderListing, HarnessDescriptor, HarnessId, Model, ModelOption,
    ModelOptionChoice, ReasoningLevel, Repo,
};
use comet_ui::pickers::state::{
    search_repos, search_texts, PickerCall, PickerContext, PickerKind, Pickers, RepoPane,
};
use comet_ui::pickers::views::{ListBody, RepoPopover};
use comet_ui::popover::{FocusTarget, Loadable, MenuKey};

fn ctx() -> PickerContext {
    PickerContext { chat_selected: false, chat_harness: None, engine_attached: true }
}

fn repo(name: &str) -> Repo {
    Repo { path: format!("/r/{name}"), name: name.into(), default_branch: None }
}

fn model(id: &str) -> Model {
    let choice = |id: &str, label: &str| ModelOptionChoice { id: id.into(), label: label.into() };
    Model {
        id: id.into(),
        label: id.to_uppercase(),
        reasoning_levels: vec![ReasoningLevel::Low, ReasoningLevel::High],
        options: vec![ModelOption {
            id: "speed".into(),
            label: "Speed".into(),
            choices: vec![choice("normal", "Normal"), choice("fast", "Fast")],
            default_choice: "normal".into(),
        }],
    }
}

fn harness(id: HarnessId, name: &str) -> HarnessDescriptor {
    HarnessDescriptor {
        id,
        name: name.into(),
        supports_steering: true,
        reasoning_levels: vec![ReasoningLevel::Medium],
    }
}

fn listing(path: &str) -> FolderListing {
    let entry = |name: &str, is_dir: bool, is_repo: bool| FolderEntry {
        name: name.into(),
        is_dir,
        is_repo,
    };
    FolderListing {
        path: path.into(),
        entries: vec![
            entry("dev", true, false),
            entry("comet", true, true),
            entry("notes", false, false),
        ],
        truncated: true,
    }
}

const NO_CHATS: &[Chat] = &[];

fn open_repos() -> Pickers {
    let mut p = Pickers::new();
    assert_eq!(p.toggle(PickerKind::Repo, ctx(), 0), vec![PickerCall::ListRepos]);
    p.repos_loaded(Ok(vec![repo("zebra"), repo("alpha"), repo("mango")]));
    p
}

#[test]
fn a_popover_asks_for_what_it_shows_once() {
    let mut p = open_repos();
    // Its trigger closes it.
    assert!(p.toggle(PickerKind::Repo, ctx(), 0).is_empty());
    assert_eq!(p.open, None);
    // What is there is not asked for again.
    assert!(p.toggle(PickerKind::Repo, ctx(), 0).is_empty());
    assert_eq!(p.open, Some(PickerKind::Repo));
    // Branches need a repository.
    assert!(p.toggle(PickerKind::Branch, ctx(), 0).is_empty());
}

#[test]
fn a_popover_gives_the_focus_to_its_input_or_frame() {
    assert_eq!(PickerKind::Repo.focus(), FocusTarget::Search);
    assert_eq!(PickerKind::Branch.focus(), FocusTarget::Search);
    assert_eq!(PickerKind::HarnessModel.focus(), FocusTarget::Frame);
    assert_eq!(PickerKind::Traits.focus(), FocusTarget::Frame);
    assert_eq!(RepoPane::Browser.focus(), FocusTarget::Frame);
    assert_eq!(RepoPane::List.focus(), FocusTarget::Search);
    assert_eq!(RepoPane::CloneUrl.focus(), FocusTarget::Search);
    assert_eq!(RepoPane::CreateName.focus(), FocusTarget::Search);
}

#[test]
fn the_input_says_what_it_asks_for() {
    let mut p = Pickers::new();
    assert_eq!(p.placeholder.text(), "Search…");
    p.toggle(PickerKind::Repo, ctx(), 0);
    p.show_pane(RepoPane::CloneUrl, true);
    assert_eq!(p.placeholder.text(), "https://github.com/owner/repo.git");
    p.show_pane(RepoPane::CreateName, true);
    assert_eq!(p.placeholder.text(), "New repo name");
    p.leave_form();
    assert_eq!(p.placeholder.text(), "Search…");
    p.show_pane(RepoPane::CloneUrl, true);
    p.show_pane(RepoPane::Browser, true);
    assert_eq!(p.placeholder.text(), "Search…");
    // A popover opens with the search, whatever the last one asked for.
    p.show_pane(RepoPane::CreateName, true);
    p.toggle(PickerKind::Branch, ctx(), 0);
    assert_eq!(p.placeholder.text(), "Search…");
}

#[test]
fn the_dismissing_click_does_not_open_again() {
    let mut p = open_repos();
    p.close(1000);
    assert_eq!(p.open, None);
    p.toggle(PickerKind::Repo, ctx(), 1399);
    assert_eq!(p.open, None);
    p.toggle(PickerKind::Repo, ctx(), 1399);
    assert_eq!(p.open, Some(PickerKind::Repo));
    p.close(2000);
    // Another trigger is not guarded.
    p.toggle(PickerKind::Traits, ctx(), 2001);
    assert_eq!(p.open, Some(PickerKind::Traits));
    p.close(3000);
    p.toggle(PickerKind::Traits, ctx(), 3400);
    assert_eq!(p.open, Some(PickerKind::Traits));
}

#[test]
fn repositories_are_searched_and_picked() {
    let mut p = open_repos();
    let names = |p: &Pickers| -> Vec<String> {
        p.filtered_repo_rows(NO_CHATS).into_iter().map(|r| r.name).collect()
    };
    assert_eq!(names(&p), ["alpha", "mango", "zebra"]);
    p.search_edited("A".into());
    assert_eq!(names(&p), ["alpha", "mango", "zebra"]);
    p.search_edited("z".into());
    assert_eq!(names(&p), ["zebra"]);
    assert!(p.on_search_submit(NO_CHATS, true).is_none());
    assert_eq!(p.config.repo.as_ref().unwrap().name, "zebra");
    assert_eq!(p.open, None);
    assert_eq!(search_texts(&["b".into(), "ab".into()], "b"), ["b", "ab"]);
    assert_eq!(search_repos(&[repo("x")], "y").len(), 0);
}

#[test]
fn another_repository_drops_the_branch() {
    let mut p = Pickers::new();
    p.pick_repo(repo("a"));
    assert_eq!(
        p.toggle(PickerKind::Branch, ctx(), 0),
        vec![PickerCall::ListBranches("/r/a".into())]
    );
    p.branches_loaded(Ok(vec!["main".into(), "dev".into()]));
    p.search_edited("dev".into());
    p.on_key_down(MenuKey::Enter, false, NO_CHATS, true);
    assert_eq!(p.config.branch.as_deref(), Some("dev"));
    let chips = p.chips(ctx());
    assert_eq!(chips.branch.unwrap().label, "dev");
    // The same repository keeps it.
    p.pick_repo(repo("a"));
    assert_eq!(p.config.branch.as_deref(), Some("dev"));
    p.pick_repo(repo("b"));
    assert_eq!(p.config.branch, None);
    assert!(matches!(p.branches, Loadable::Idle));
    p.toggle_isolated();
    assert!(p.config.isolated_worktree);
}

#[test]
fn keys_walk_the_open_list() {
    let mut p = open_repos();
    p.on_key_down(MenuKey::Down, false, NO_CHATS, true);
    assert_eq!(p.active, 1);
    p.on_key_down(MenuKey::Up, false, NO_CHATS, true);
    p.on_key_down(MenuKey::Up, false, NO_CHATS, true);
    assert_eq!(p.active, 2);
    p.on_key_down(MenuKey::Down, false, NO_CHATS, true);
    assert_eq!(p.active, 0);
    // Enter in the search is left to the search.
    p.on_key_down(MenuKey::Enter, true, NO_CHATS, true);
    assert_eq!(p.open, Some(PickerKind::Repo));
    p.on_key_down(MenuKey::Other, false, NO_CHATS, true);
    p.on_key_down(MenuKey::Escape, false, NO_CHATS, true);
    assert_eq!(p.open, None);
}

#[test]
fn the_browser_goes_in_up_and_picks() {
    let mut p = open_repos();
    assert_eq!(p.show_pane(RepoPane::Browser, true), Some(PickerCall::ListFolders(None)));
    p.folders_loaded(Ok(listing("/home")));
    let view = p.browser_view();
    assert_eq!(view.use_this.as_deref(), Some("/home"));
    assert!(view.truncated);
    let ListBody::Rows(rows) = view.body else {
        panic!("expected rows");
    };
    assert!(rows[0].highlighted && rows[1].is_repo);
    // A plain directory is gone into.
    assert_eq!(
        p.on_key_down(MenuKey::Enter, false, NO_CHATS, true),
        Some(PickerCall::ListFolders(Some("/home/dev".into())))
    );
    p.folders_loaded(Ok(listing("/home/dev")));
    // Backspace on an empty search goes up.
    assert_eq!(
        p.on_key_down(MenuKey::Backspace, true, NO_CHATS, true),
        Some(PickerCall::ListFolders(Some("/home".into())))
    );
    p.folders_loaded(Ok(listing("/home")));
    p.on_key_down(MenuKey::Down, false, NO_CHATS, true);
    // A repository is added.
    assert_eq!(
        p.on_key_down(MenuKey::Enter, false, NO_CHATS, true),
        Some(PickerCall::AddRepo("/home/comet".into()))
    );
    assert!(p.form_busy);
    assert_eq!(
        p.form_answered(Ok(repo("comet")), false, true),
        Some(PickerCall::ListRepos)
    );
    assert_eq!(p.config.repo.as_ref().unwrap().name, "comet");
}

#[test]
fn the_shown_folder_can_be_used() {
    let mut p = open_repos();
    p.show_pane(RepoPane::Browser, true);
    assert_eq!(p.on_key_down(MenuKey::ModEnter, false, NO_CHATS, true), None);
    p.folders_loaded(Ok(listing("/home")));
    assert_eq!(
        p.on_key_down(MenuKey::ModEnter, false, NO_CHATS, true),
        Some(PickerCall::AddRepo("/home".into()))
    );
    p.form_answered(Err("no git".into()), false, true);
    assert_eq!(p.browser_view().error.as_deref(), Some("no git"));
    p.on_key_down(MenuKey::Escape, false, NO_CHATS, true);
    assert_eq!(p.repo_pane, RepoPane::List);
    assert_eq!(p.open, Some(PickerKind::Repo));
}

#[test]
fn forms_send_what_was_typed() {
    let mut p = open_repos();
    p.show_pane(RepoPane::CloneUrl, true);
    p.search_edited("  ".into());
    assert_eq!(p.submit_repo_form(true), None);
    p.search_edited(" git@x ".into());
    assert_eq!(p.submit_repo_form(true), Some(PickerCall::CloneRepo("git@x".into())));
    assert_eq!(p.submit_repo_form(true), None);
    match p.repo_popover(NO_CHATS) {
        RepoPopover::Form(form) => {
            assert_eq!(form.title, "Clone from URL");
            assert_eq!(form.submit_label, "Working…");
        }
        other => panic!("unexpected {other:?}"),
    }
    p.form_answered(Ok(repo("x")), true, true);
    assert!(p.search.is_empty());
    // Picking closed the popover.
    assert_eq!(p.open, None);
    p.toggle(PickerKind::Repo, ctx(), 0);
    p.show_pane(RepoPane::CreateName, true);
    p.search_edited("new".into());
    assert_eq!(
        p.on_search_submit(NO_CHATS, true),
        Some(PickerCall::CreateRepo("new".into()))
    );
    p.leave_form();
    assert_eq!(p.repo_pane, RepoPane::List);
}

#[test]
fn a_harness_brings_its_models() {
    let mut p = Pickers::new();
    assert_eq!(
        p.toggle(PickerKind::HarnessModel, ctx(), 0),
        vec![PickerCall::ListHarnesses]
    );
    let call = p.harnesses_loaded(
        Ok(vec![harness(HarnessId::Codex, "Codex"), harness(HarnessId::Cursor, "Cursor")]),
        ctx(),
    );
    assert_eq!(call, Some(PickerCall::ListModels(HarnessId::Codex)));
    p.models_loaded(HarnessId::Codex, Ok(vec![model("m1"), model("m2")]));
    let view = p.model_popover(ctx());
    assert!(!view.locked);
    let ListBody::Rows(rail) = view.rail else {
        panic!("expected harnesses");
    };
    assert!(rail[0].active && !rail[1].active);
    p.pick_model("m2".into());
    assert_eq!(p.chips(ctx()).model.label, "Codex · M2");
    // Another harness drops the model and its traits.
    p.pick_option("speed".into(), "fast".into(), false);
    p.pick_reasoning(ReasoningLevel::High);
    assert_eq!(
        p.pick_harness(HarnessId::Cursor, ctx()),
        Some(PickerCall::ListModels(HarnessId::Cursor))
    );
    assert_eq!(p.config.model, None);
    assert_eq!(p.config.reasoning, None);
    assert!(p.config.model_options.is_empty());
    // A chat locks its harness.
    let locked = PickerContext {
        chat_selected: true,
        chat_harness: Some(HarnessId::Codex),
        engine_attached: true,
    };
    assert_eq!(p.pick_harness(HarnessId::Codex, locked), None);
    assert_eq!(p.config.harness, Some(HarnessId::Cursor));
    assert!(p.chips(locked).repo.is_none());
}

#[test]
fn the_default_choice_of_an_option_is_not_kept() {
    let mut p = Pickers::new();
    p.harnesses_loaded(Ok(vec![harness(HarnessId::Codex, "Codex")]), ctx());
    p.models_loaded(HarnessId::Codex, Ok(vec![model("m1")]));
    p.pick_model("m1".into());
    p.pick_option("speed".into(), "fast".into(), false);
    assert_eq!(
        p.config.model_options.get("speed").and_then(|v| v.as_str()),
        Some("fast")
    );
    let view = p.traits_popover(ctx()).unwrap();
    assert!(view.options[0].choices[1].active && view.options[0].choices[0].is_default);
    assert_eq!(p.chips(ctx()).traits.label, "Fast");
    p.pick_reasoning(ReasoningLevel::High);
    assert_eq!(p.chips(ctx()).traits.label, "High · Fast");
    p.pick_option("speed".into(), "normal".into(), true);
    assert!(p.config.model_options.is_empty());
    // The same level again takes it back.
    p.pick_reasoning(ReasoningLevel::High);
    assert_eq!(p.chips(ctx()).traits.label, "Traits");
    assert_eq!(p.draft().chat_config().is_none(), p.config.harness.is_none());
}

#[test]
fn failures_can_be_retried() {
    let mut p = Pickers::new();
    p.toggle(PickerKind::Repo, ctx(), 0);
    p.repos_loaded(Err("down".into()));
    match p.repo_popover(NO_CHATS) {
        RepoPopover::List(ListBody::Failed(message), _) => assert_eq!(message, "down"),
        other => panic!("unexpected {other:?}"),
    }
    assert_eq!(p.retry(PickerKind::Repo, true), Some(PickerCall::ListRepos));
    assert_eq!(p.retry(PickerKind::Branch, true), None);
    assert_eq!(p.retry(PickerKind::Traits, true), Some(PickerCall::ListHarnesses));
    p.show_pane(RepoPane::Browser, true);
    p.folders_loaded(Err("gone".into()));
    assert_eq!(p.retry(PickerKind::Repo, true), Some(PickerCall::ListFolders(None)));
    p.leave_browser();
    assert_eq!(p.repo_pane, RepoPane::List);
    assert!(p.branch_popover().is_none());
    assert!(p.traits_popover(ctx()).is_none());
}

#[test]
fn without_an_engine_nothing_is_asked() {
    let offline = PickerContext { engine_attached: false, ..ctx() };
    let mut p = Pickers::new();
    assert!(p.toggle(PickerKind::Repo, offline, 0).is_empty());
    assert!(matches!(p.repos, Loadable::Idle));
    assert!(p.ensure_models(HarnessId::Codex, false).is_none());
}
