use comet_ui::gate::{ConnectionStatus, EngineMode, GatePhase};
use comet_ui::json::Json;
use comet_ui::model::{
    Chat, ChatIndicator, Device, FolderEntry, FolderListing, Session, SessionStatus, Space,
    UserProfile,
};
use comet_ui::order::Indicator;
use comet_ui::popover::Loadable;
use comet_ui::settings::accounts::AccountRequest;
use comet_ui::settings::shortcuts::KeymapConfig;
use comet_ui::shell::frame::{
    fallback_combo, main_title, status_strip, strip_label, user_lines, valid_or_default, LastChat,
    LayoutFlags, Mutation, RootView, Route, SettingsSection, Shell, ShellAction, SplashPhase,
    StatusStrip,
};
use comet_ui::shell::org::{Memberships, OrgGateUi};
use comet_ui::shell::overlays::{gate_card, MenuItem, Overlay};
use comet_ui::shell::palette::{FolderCall, PaletteList, PaletteOutcome, SubmitPlan, Submitted};
use comet_ui::shell::sidebar::{chat_sidebar, SidebarItem};
use comet_ui::shell::spaces::{active_rows, removal_warning, spaces_section};
use comet_ui::shell::tabs::next_after_close;
use comet_ui::state::AppState;
use comet_ui::time::Timestamp;

const BASE: i64 = 1784462400;

fn at(min: i64) -> Timestamp {
    Timestamp::from_parts(BASE + min * 60, 0)
}

fn flags() -> LayoutFlags {
    LayoutFlags {
        sidebar_collapsed: false,
        sidebar_grouped: false,
        right_pane_open: false,
        terminal_open: false,
        last_space_id: None,
    }
}

fn shell() -> Shell {
    Shell::new(flags())
}

fn chat(id: &str, created_min: i64, space: Option<&str>) -> Chat {
    Chat {
        id: id.into(),
        device_id: "dev".into(),
        title: None,
        title_line: None,
        archived: false,
        cwd: None,
        branch: None,
        checkout_id: None,
        config: None,
        last_message_preview: None,
        last_message_at: None,
        created_at: at(created_min),
        harness_session_id: None,
        harness_session_cwd: None,
        space_id: space.map(|s| s.to_string()),
        last_seen_at: None,
    }
}

fn space(id: &str, device_id: &str, path: &str, created_min: i64) -> Space {
    Space {
        id: id.into(),
        device_id: device_id.into(),
        path: path.into(),
        name: None,
        display_name: format!("<{path}>"),
        git_detected: true,
        git_checked_at: None,
        checkout_id: None,
        created_at: at(created_min),
    }
}

fn device(id: &str, name: &str) -> Device {
    Device { id: id.into(), name: name.into(), last_seen_at: None }
}

fn session(chat_id: &str, status: SessionStatus) -> Session {
    Session {
        chat_id: chat_id.into(),
        device_id: "dev".into(),
        status,
        started_at: Some(at(0)),
        updated_at: at(10),
    }
}

/// Two spaces: `s1` with chats `a`, `b`, `c`, and `s2` with `z`.
fn state() -> AppState {
    let mut state = AppState::new();
    state.attach_engine();
    state.apply_devices(vec![device("dev", "Desk"), device("far", "Server")]);
    state.local_device_id = Some("dev".into());
    state.apply_spaces(vec![space("s1", "dev", "/a", 1), space("s2", "far", "/b", 2)]);
    state.apply_chats(vec![
        chat("a", 1, Some("s1")),
        chat("b", 2, Some("s1")),
        chat("c", 3, Some("s1")),
        chat("z", 4, Some("s2")),
    ]);
    state
}

fn ids(list: &[&str]) -> Vec<String> {
    list.iter().map(|s| s.to_string()).collect()
}

// ---- tabs ----

#[test]
fn close_selects_next_then_previous_then_canvas() {
    let order = ids(&["a", "b", "c"]);
    assert_eq!(next_after_close(&order, "a").as_deref(), Some("b"));
    assert_eq!(next_after_close(&order, "b").as_deref(), Some("c"));
    // Last tab: fall back to the previous one.
    assert_eq!(next_after_close(&order, "c").as_deref(), Some("b"));
    // Only tab: canvas.
    assert_eq!(next_after_close(&ids(&["solo"]), "solo"), None);
    // Unknown id: no opinion.
    assert_eq!(next_after_close(&order, "zz"), None);
}

#[test]
fn closing_the_open_tab_moves_to_its_neighbor() {
    let mut shell = shell();
    let mut state = state();
    state.select_chat(Some("b".into()), at(9));
    let closed = shell.close_session_tab(&mut state, "b".into(), at(9));
    assert_eq!(
        closed.call,
        Some(Mutation::SetChatArchived { chat_id: "b".into(), archived: true })
    );
    assert_eq!(state.selected_chat.as_deref(), Some("c"));
    // Another tab leaves the selection alone.
    shell.close_session_tab(&mut state, "a".into(), at(9));
    assert_eq!(state.selected_chat.as_deref(), Some("c"));
    // The last one leads to the canvas.
    state.select_chat(Some("z".into()), at(9));
    shell.close_session_tab(&mut state, "z".into(), at(9));
    assert_eq!(state.selected_chat, None);
}

#[test]
fn the_strip_shows_the_tabs_of_the_space() {
    let mut shell = shell();
    let mut state = state();
    state.select_chat(Some("b".into()), at(10));
    state.apply_sessions(vec![session("c", SessionStatus::Working)]);
    shell.tab_hovered("a".into(), true);
    for chat in state.chats.iter_mut().filter(|c| c.id == "b") {
        chat.title = Some("Fix\nit".into());
        chat.title_line = Some("Fix it".into());
    }
    let strip = shell.session_tab_strip(&state, at(10));
    let order: Vec<&str> = strip.tabs.iter().map(|t| t.chat_id.as_str()).collect();
    assert_eq!(order, ["a", "b", "c"]);
    assert!(strip.tabs[1].selected && !strip.tabs[0].selected);
    assert!(strip.tabs[0].hovered && !strip.tabs[0].dot);
    assert_eq!(strip.tabs[2].status, ChatIndicator::Working);
    assert!(strip.tabs[2].dot);
    assert_eq!(strip.tabs[0].title, "New session");
    assert_eq!(strip.tabs[1].title, "Fix it");
    assert!(strip.new_tab && !strip.new_tab_active && strip.toggle_changes);
    shell.tab_hovered("b".into(), false);
    assert_eq!(shell.tab_hover.as_deref(), Some("a"));
    shell.tab_hovered("a".into(), false);
    assert_eq!(shell.tab_hover, None);
    assert!(shell.new_session(&mut state, at(10)).notify);
    // Nothing shows differently where no chat was selected.
    assert!(!shell.new_session(&mut state, at(10)).notify);
    assert!(shell.session_tab_strip(&state, at(10)).new_tab_active);
}

// ---- spaces ----

#[test]
fn landing_in_a_space_remembers_its_chat() {
    let mut shell = shell();
    let mut state = state();
    shell.route = Route::Settings(SettingsSection::Devices);
    shell.activate_space(&mut state, "s1".into(), at(9));
    assert_eq!(shell.route, Route::Chat);
    assert_eq!(shell.settings.last_space_id.as_deref(), Some("s1"));
    // The most recent chat of the space.
    assert_eq!(state.selected_chat.as_deref(), Some("c"));
    shell.space_last_chat =
        vec![LastChat { space_id: "s1".into(), chat_id: "a".into() }];
    shell.activate_space(&mut state, "s2".into(), at(9));
    shell.activate_space(&mut state, "s1".into(), at(9));
    assert_eq!(state.selected_chat.as_deref(), Some("a"));
    // A remembered chat that is gone does not count.
    shell.space_last_chat =
        vec![LastChat { space_id: "s1".into(), chat_id: "z".into() }];
    shell.activate_space(&mut state, "s1".into(), at(9));
    assert_eq!(state.selected_chat.as_deref(), Some("c"));
    // A space without chats leads to the canvas.
    shell.activate_space(&mut state, "empty".into(), at(9));
    assert_eq!(state.selected_chat, None);
    assert_eq!(state.selected_space.as_deref(), Some("empty"));
}

#[test]
fn space_rows_show_device_and_attention() {
    let mut state = state();
    state.apply_sessions(vec![
        session("a", SessionStatus::Working),
        session("b", SessionStatus::AwaitingInput),
    ]);
    let rows = spaces_section(&state, &[], at(10));
    assert_eq!(rows[0].name, "</a>");
    assert_eq!(rows[0].device_line, "@ Desk");
    assert!(rows[0].selected && !rows[0].offline);
    assert_eq!(rows[0].attention, Some(ChatIndicator::AwaitingInput));
    assert_eq!(rows[1].device_line, "@ Server · offline");
    assert_eq!(rows[1].attention, None);
    let rows = spaces_section(&state, &ids(&["far"]), at(10));
    assert_eq!(rows[1].device_line, "@ Server");
    state.apply_sessions(vec![session("a", SessionStatus::Working)]);
    let rows = spaces_section(&state, &[], at(10));
    assert_eq!(rows[0].attention, Some(ChatIndicator::Working));
}

#[test]
fn session_rows_say_where_they_live() {
    let mut state = state();
    state.chats[0].branch = Some("main".into());
    state.chats[0].title = Some("Fix\nit".into());
    state.chats[0].title_line = Some("Fix it".into());
    let rows = active_rows(&state, &[], at(64));
    assert_eq!(rows.len(), 4);
    assert_eq!(rows[0].chat_id, "z");
    assert_eq!(rows[0].title, "Fix it");
    assert_eq!(rows[1].title, "New session");
    assert_eq!(rows[0].location, "</b> · main · Server (offline)");
    assert_eq!(rows[0].time_ago, "1h");
    assert_eq!(rows[1].location, "</a> · Desk");
}

#[test]
fn removing_a_space_warns_of_its_sessions() {
    let state = state();
    assert_eq!(
        removal_warning(&state, "s1"),
        "Removing “</a>” permanently deletes its 3 sessions on Desk. This can’t be undone."
    );
    assert_eq!(
        removal_warning(&state, "s2"),
        "Removing “</b>” permanently deletes its 1 session on Server. This can’t be undone."
    );
    assert_eq!(
        removal_warning(&state, "x"),
        "Removing “this space” permanently deletes its 0 sessions on its device. This can’t be undone."
    );
}

#[test]
fn spaces_are_renamed_and_removed() {
    let mut shell = shell();
    let state = state();
    shell.open_space_menu("s1".into());
    assert_eq!(
        shell.space_overlays(&state).0,
        vec![Overlay::SpaceMenu {
            space_id: "s1".into(),
            items: vec![MenuItem::Rename, MenuItem::Remove],
        }]
    );
    assert_eq!(shell.open_rename_space(&state, "s1".into()), "</a>");
    assert!(shell.space_menu.is_none());
    assert_eq!(shell.submit_rename_space("  ", true), None);
    shell.open_rename_space(&state, "s1".into());
    assert_eq!(
        shell.submit_rename_space(" New ", true),
        Some(Mutation::RenameSpace { space_id: "s1".into(), name: "New".into() })
    );
    assert_eq!(shell.submit_rename_space("again", true), None);
    shell.ask_delete_space("s1".into());
    match &shell.space_overlays(&state).0[0] {
        Overlay::RemoveSpace { title, body, .. } => {
            assert_eq!(title, "Remove space?");
            assert!(body.contains("3 sessions"));
        }
        other => panic!("unexpected {other:?}"),
    }
    assert_eq!(
        shell.delete_space("s1".into(), true),
        Some(Mutation::DeleteSpace { space_id: "s1".into() })
    );
    assert!(shell.delete_space_confirm.is_none());
    shell.ask_delete_space("s1".into());
    shell.cancel_delete_space();
    shell.open_rename_space(&state, "s1".into());
    shell.cancel_rename_space();
    shell.open_space_menu("s1".into());
    shell.close_space_menu();
    assert!(shell.space_overlays(&state).0.is_empty());
    // Without an engine the sidebar says so.
    assert_eq!(shell.delete_space("s1".into(), false), None);
    assert_eq!(shell.sidebar_notice.as_deref(), Some("Engine not connected"));
}

#[test]
fn a_rename_dialog_takes_the_focus_once() {
    let mut shell = shell();
    let state = state();
    assert_eq!(shell.space_overlays(&state), (vec![], false));
    shell.ask_delete_space("s2".into());
    shell.open_rename_space(&state, "s1".into());
    let (layers, focus) = shell.space_overlays(&state);
    assert!(focus);
    assert_eq!(
        layers[0],
        Overlay::RenameSpace { space_id: "s1".into(), title: "Rename space".into() }
    );
    assert_eq!(layers.len(), 2);
    // The dialog stays; the focus is given once.
    let (again, focus) = shell.space_overlays(&state);
    assert!(!focus);
    assert_eq!(again, layers);
    assert_eq!(shell.rename_space_dialog.as_ref().unwrap().space_id, "s1");
    shell.cancel_rename_space();
    assert!(!shell.space_overlays(&state).1);
    // Opened again, it takes the focus again.
    shell.open_rename_space(&state, "s1".into());
    assert!(shell.space_overlays(&state).1);
}

// ---- the palette ----

fn listing(path: &str) -> FolderListing {
    let entry = |name: &str, is_dir: bool, is_repo: bool| FolderEntry {
        name: name.into(),
        is_dir,
        is_repo,
    };
    FolderListing {
        path: path.into(),
        entries: vec![
            entry("notes.txt", false, false),
            entry("dev", true, false),
            entry("comet", true, true),
        ],
        truncated: false,
    }
}

fn palette(path: &str) -> (Shell, AppState) {
    let mut shell = shell();
    let state = state();
    let call = shell.open_add_space(&state).unwrap();
    // This device is asked without the relay.
    assert_eq!(call, FolderCall { path: None, target_device: None });
    shell.folders_loaded(Ok(listing(path)));
    (shell, state)
}

#[test]
fn the_palette_browses_devices() {
    let (mut shell, state) = palette("/home/w");
    let view = shell.add_space_overlay(&state).0.unwrap();
    assert_eq!(view.tabs[0].name, "Desk");
    assert!(view.tabs[0].active && view.tabs[0].local);
    assert!(!view.tabs[1].active && !view.tabs[1].local);
    let crumbs: Vec<&str> = view.crumbs.iter().map(|c| c.label.as_str()).collect();
    assert_eq!(crumbs, ["home", "w"]);
    assert!(!view.crumbs[0].last && view.crumbs[1].last);
    assert!(view.submit_ready);
    assert_eq!(view.submit_label, "Enter");
    // Another device is named, and browsed from its home folder.
    let call = shell.add_space_pick_device(&state, device("far", "Server")).unwrap();
    assert_eq!(call, FolderCall { path: None, target_device: Some("far".into()) });
    assert!(shell.add_space_pick_device(&state, device("far", "Server")).is_none());
    shell.folders_loaded(Err("timeout".into()));
    let view = shell.add_space_overlay(&state).0.unwrap();
    assert_eq!(
        view.list,
        PaletteList::Failed("Server didn't respond — is it online?".into())
    );
    assert!(!view.submit_ready);
    let call = shell.add_space_retry(&state).unwrap();
    assert_eq!(call.path, None);
    assert_eq!(shell.add_space_overlay(&state).0.unwrap().list, PaletteList::Skeleton);
    shell.close_add_space();
    assert!(shell.add_space_overlay(&state).0.is_none());
    assert!(shell.add_space_filtered().is_empty());
}

#[test]
fn the_palette_takes_the_focus_once() {
    let (mut shell, mut state) = palette("/home/w");
    // Browsing before the first drawing leaves the focus pending.
    shell.search_edited("m".into());
    shell.add_space_key(&mut state, "down", false, false, "", at(9));
    shell.add_space_pick_device(&state, device("far", "Server"));
    assert!(shell.add_space.as_ref().unwrap().focus_pending);
    assert!(shell.add_space_overlay(&state).1);
    let (view, focus) = shell.add_space_overlay(&state);
    assert!(view.is_some() && !focus);
    shell.folders_loaded(Ok(listing("/home/w")));
    assert!(!shell.add_space_overlay(&state).1);
    shell.close_add_space();
    assert_eq!(shell.add_space_overlay(&state), (None, false));
    // Opened again, it takes the focus again.
    shell.open_add_space(&state);
    assert!(shell.add_space_overlay(&state).1);
}

#[test]
fn the_palette_filters_and_walks_folders() {
    let (mut shell, mut state) = palette("/home/w");
    let names = |shell: &Shell| -> Vec<String> {
        shell.add_space_filtered().iter().map(|e| e.name.clone()).collect()
    };
    assert_eq!(names(&shell), ["dev", "comet"]);
    let key = |shell: &mut Shell, state: &mut AppState, key: &str| {
        shell.add_space_key(state, key, false, false, "", at(9))
    };
    // The highlighted row has to be in view.
    assert_eq!(key(&mut shell, &mut state, "down"), PaletteOutcome::Highlight(Some(1)));
    assert_eq!(shell.add_space.as_ref().unwrap().active, 1);
    key(&mut shell, &mut state, "down");
    assert_eq!(shell.add_space.as_ref().unwrap().active, 0);
    key(&mut shell, &mut state, "up");
    assert_eq!(shell.add_space.as_ref().unwrap().active, 1);
    shell.search_edited("m".into());
    assert_eq!(names(&shell), ["comet"]);
    assert_eq!(shell.add_space.as_ref().unwrap().active, 0);
    // Backspace edits the search while there is one.
    assert_eq!(key(&mut shell, &mut state, "backspace"), PaletteOutcome::Nothing);
    // Right opens the highlighted folder.
    let opened = key(&mut shell, &mut state, "right");
    assert_eq!(
        opened,
        PaletteOutcome::Browse(Some(FolderCall {
            path: Some("/home/w/comet".into()),
            target_device: None,
        }))
    );
    let flow = shell.add_space.as_ref().unwrap();
    assert!(flow.browser_repo && flow.query.is_empty());
    // Nothing is there yet, so nothing opens.
    assert_eq!(key(&mut shell, &mut state, "right"), PaletteOutcome::Browse(None));
    shell.folders_loaded(Ok(listing("/home/w/comet")));
    let up = key(&mut shell, &mut state, "left");
    assert_eq!(
        up,
        PaletteOutcome::Browse(Some(FolderCall {
            path: Some("/home/w".into()),
            target_device: None,
        }))
    );
    assert!(!shell.add_space.as_ref().unwrap().browser_repo);
    shell.folders_loaded(Ok(listing("/home/w")));
    // With an empty search backspace goes up too.
    assert!(matches!(
        key(&mut shell, &mut state, "backspace"),
        PaletteOutcome::Browse(Some(_))
    ));
    shell.folders_loaded(Ok(listing("/")));
    assert_eq!(key(&mut shell, &mut state, "left"), PaletteOutcome::Browse(None));
    shell.search_edited("zzz".into());
    assert_eq!(
        shell.add_space_overlay(&state).0.unwrap().list,
        PaletteList::Nothing("No folders match".into())
    );
    assert!(shell.add_space_crumb(&state, "/home".into()).is_some());
    key(&mut shell, &mut state, "escape");
    assert!(shell.add_space.is_none());
}

#[test]
fn a_new_space_shows_at_once_and_goes_when_it_fails() {
    let (mut shell, mut state) = palette("/new");
    let before = state.spaces.len();
    let Submitted::Create { call } = shell.submit_add_space(&mut state, "new", at(9)) else {
        panic!("expected a request");
    };
    let Mutation::CreateSpace { space_id, device_id, path, git_detected } = call else {
        panic!("expected a space");
    };
    assert_eq!((device_id.as_str(), path.as_str(), git_detected), ("dev", "/new", false));
    // A random id in its usual form.
    assert_eq!(space_id.len(), 36);
    assert_eq!(state.spaces.len(), before + 1);
    assert_eq!(state.spaces.last().unwrap().display_name, "new");
    assert_eq!(shell.add_space_overlay(&state).0.unwrap().submit_label, "Adding…");
    // The palette waits for the answer.
    assert_eq!(shell.submit_add_space(&mut state, "new", at(9)), Submitted::Nothing);
    shell.space_answered(&mut state, space_id.clone(), Err("denied".into()), at(9));
    assert_eq!(state.spaces.len(), before);
    assert_eq!(shell.add_space_overlay(&state).0.unwrap().error.as_deref(), Some("denied"));
    let Submitted::Create { call } = shell.submit_add_space(&mut state, "new", at(9)) else {
        panic!("expected a request");
    };
    let Mutation::CreateSpace { space_id: second, .. } = call else {
        panic!("expected a space");
    };
    assert_ne!(second, space_id);
    shell.space_answered(&mut state, second.clone(), Ok(()), at(9));
    assert!(shell.add_space.is_none());
    assert_eq!(state.selected_space, Some(second));
}

#[test]
fn a_folder_that_has_a_space_is_switched_to() {
    let (mut shell, mut state) = palette("/a");
    assert_eq!(shell.submit_plan(&state), SubmitPlan::Switch("s1".into()));
    let r = shell.add_space_key(&mut state, "enter", false, false, "", at(9));
    assert!(matches!(r, PaletteOutcome::Submit(Submitted::Switched { .. })));
    assert!(shell.add_space.is_none());
    assert_eq!(state.selected_space.as_deref(), Some("s1"));
    assert_eq!(state.spaces.len(), 2);
    // The same path on another device is another space.
    let (mut shell, state) = palette("/b");
    assert!(matches!(shell.submit_plan(&state), SubmitPlan::Create { .. }));
    let mut offline = AppState::new();
    assert_eq!(shell.submit_plan(&offline), SubmitPlan::Nothing);
    offline.engine_attached = false;
    assert!(shell.load_space_folders(&offline, None).is_none());
}

// ---- the frame ----

#[test]
fn the_splash_fades_once() {
    let mut shell = shell();
    assert!(!shell.on_state_changed(&ConnectionStatus::Connecting));
    assert_eq!(shell.splash, SplashPhase::Visible);
    assert!(shell.on_state_changed(&ConnectionStatus::Ready));
    assert!(!shell.on_state_changed(&ConnectionStatus::Ready));
    shell.splash_faded();
    assert!(!shell.on_state_changed(&ConnectionStatus::Ready));
    assert_eq!(shell.splash, SplashPhase::Gone);
    let mut failed = Shell::new(flags());
    assert!(!failed.on_state_changed(&ConnectionStatus::Failed("x".into())));
    assert_eq!(failed.splash, SplashPhase::Gone);
}

#[test]
fn panes_toggle_with_a_new_animation_each() {
    let mut shell = shell();
    shell.toggle_sidebar();
    assert!(shell.settings.sidebar_collapsed);
    assert_eq!(shell.sidebar_tween.unwrap().opening, false);
    assert_eq!(shell.sidebar_tween.unwrap().epoch, 1);
    shell.sidebar_dragged();
    assert!(!shell.settings.sidebar_collapsed && shell.sidebar_tween.is_none());
    assert!(shell.toggle_right_pane());
    assert!(shell.changes && shell.right_pane());
    assert_eq!(shell.right_tween.unwrap().epoch, 2);
    shell.right_pane_dragged();
    assert!(shell.right_tween.is_none());
    assert!(!shell.toggle_right_pane());
    assert!(shell.changes && !shell.right_pane());
    shell.toggle_grouped();
    assert!(shell.settings.sidebar_grouped);
}

#[test]
fn the_terminal_is_made_when_it_first_opens() {
    let mut shell = shell();
    let selected = Some("a".to_string());
    assert_eq!(shell.terminal_dock(&selected, true), (false, None));
    let start = shell.toggle_terminal(&selected, true).unwrap();
    assert_eq!(start.chat, "a");
    assert!(shell.terminal.is_some());
    // Closing keeps the panel, and it shows until the animation is over.
    assert!(shell.toggle_terminal(&selected, true).is_none());
    assert!(shell.terminal_dock(&selected, true).0);
    shell.terminal_settled();
    assert!(!shell.terminal_dock(&selected, true).0);
    // A panel that was open at boot is made when it is drawn.
    let mut restored = Shell::new(LayoutFlags { terminal_open: true, ..flags() });
    let (shown, start) = restored.terminal_dock(&selected, true);
    assert!(shown);
    assert_eq!(start.unwrap().chat, "a");
    assert_eq!(restored.terminal_dock(&selected, true), (true, None));
}

#[test]
fn settings_pages_are_kept() {
    let mut shell = shell();
    shell.open_chat_menu("a".into());
    shell.open_settings(SettingsSection::Archived);
    assert!(shell.chat_menu.is_none());
    let none = || KeymapConfig { bindings: vec![] };
    shell.settings_outlet(SettingsSection::Archived, none(), true);
    shell.archived_page.as_mut().unwrap().error = Some("x".into());
    shell.settings_outlet(SettingsSection::Archived, none(), true);
    assert_eq!(shell.archived_page.as_ref().unwrap().error.as_deref(), Some("x"));
    // A new accounts page asks for its accounts, one that is there does not.
    let call = shell.settings_outlet(SettingsSection::Agents, none(), true).unwrap();
    assert_eq!(call.request, AccountRequest::List { force_usage: false });
    assert!(shell.settings_outlet(SettingsSection::Agents, none(), true).is_none());
    shell.settings_outlet(SettingsSection::Shortcuts, none(), true);
    shell.settings_outlet(SettingsSection::Devices, none(), true);
    assert!(shell.accounts_page.is_some() && shell.shortcuts_page.is_some());
    assert!(shell.devices_page);
    let nav: Vec<(&str, bool)> = Shell::settings_nav(SettingsSection::Agents)
        .into_iter()
        .map(|(section, open)| (section.label(), open))
        .collect();
    assert_eq!(
        nav,
        [("Devices", false), ("Agents", true), ("Shortcuts", false), ("Archived", false)]
    );
    shell.close_settings();
    assert_eq!(shell.route, Route::Chat);
}

#[test]
fn chats_are_renamed_archived_and_deleted() {
    let mut shell = shell();
    let mut state = state();
    state.chats[0].title = Some("Old".into());
    let first = state.chats[0].id.clone();
    shell.open_chat_menu(first.clone());
    assert_eq!(shell.chat_overlays().len(), 1);
    assert_eq!(shell.open_rename_chat(&state, first.clone()), "Old");
    assert!(shell.chat_menu.is_none());
    assert_eq!(
        shell.submit_rename_chat(" New ", true),
        Some(Mutation::RenameChat { chat_id: first.clone(), title: "New".into() })
    );
    assert_eq!(shell.open_rename_chat(&state, "a".into()), "");
    assert_eq!(shell.submit_rename_chat("  ", true), None);
    assert!(shell.rename_dialog.is_none());
    shell.open_rename_chat(&state, "a".into());
    shell.cancel_rename_chat();
    state.select_chat(Some("a".into()), at(9));
    shell.ask_delete_chat("a".into());
    match &shell.chat_overlays()[0] {
        Overlay::DeleteChat { chat_id, title, .. } => {
            assert_eq!(chat_id, "a");
            assert_eq!(title, "Delete this session?");
        }
        other => panic!("unexpected {other:?}"),
    }
    assert_eq!(
        shell.delete_chat(&mut state, "a".into(), at(9)),
        Some(Mutation::DeleteChat { chat_id: "a".into() })
    );
    assert_eq!(state.selected_chat, None);
    assert!(shell.delete_confirm.is_none());
    shell.ask_delete_chat("b".into());
    shell.cancel_delete_chat();
    shell.open_chat_menu("b".into());
    shell.close_chat_menu();
    assert!(shell.chat_overlays().is_empty());
    shell.mutate_failed("denied".into());
    assert_eq!(shell.sidebar_notice.as_deref(), Some("denied"));
    shell.dismiss_notice();
    assert!(shell.sidebar_notice.is_none());
    assert_eq!(MenuItem::Archive.label(), "Archive");
}

#[test]
fn the_dismissing_click_keeps_the_user_menu_closed() {
    let mut shell = shell();
    shell.toggle_user_menu(1000);
    assert!(shell.user_menu_open);
    shell.dismiss_user_menu(2000);
    shell.toggle_user_menu(2399);
    assert!(!shell.user_menu_open);
    shell.toggle_user_menu(2400);
    assert!(shell.user_menu_open);
    shell.dismiss_user_menu(3000);
    shell.toggle_user_menu(3400);
    assert!(shell.user_menu_open);
    assert!(shell.sign_out(true));
    assert!(!shell.user_menu_open);
}

#[test]
fn signing_in_and_out_reports_failures() {
    let mut shell = shell();
    shell.sign_out_failed("x");
    assert_eq!(shell.sidebar_notice.as_deref(), Some("Sign out failed: x"));
    let reply = Json::Object(vec![("url".to_string(), Json::Text("https://y".into()))]);
    assert_eq!(shell.sign_in_answered(Ok(reply)).as_deref(), Some("https://y"));
    assert_eq!(shell.sign_in_answered(Ok(Json::Null)), None);
    assert_eq!(shell.sign_in_answered(Err("z".into())), None);
    assert_eq!(shell.sidebar_notice.as_deref(), Some("Sign in failed: z"));
}

#[test]
fn the_user_line_falls_back() {
    assert_eq!(user_lines(None), ("Not signed in".to_string(), None));
    let mut user = UserProfile { id: "u".into(), email: "w@example.com".into(), name: None };
    assert_eq!(
        user_lines(Some(&user)),
        ("w@example.com".to_string(), Some("w@example.com".to_string()))
    );
    user.name = Some("W".into());
    let mut shell = shell();
    assert_eq!(shell.user_menu(Some(&user)).line, "W");
    assert_eq!(shell.user_menu(Some(&user)).plan, None);
    shell.toggle_user_menu(0);
    assert_eq!(shell.user_menu(Some(&user)).plan.as_deref(), Some("Plan: Alpha"));
}

#[test]
fn the_workspace_form_creates_and_joins() {
    let mut shell = shell();
    assert!(shell.ensure_org_ui(true));
    assert!(!shell.ensure_org_ui(true));
    let org = shell.org.as_mut().unwrap();
    assert_eq!(org.memberships(), Memberships::Skeleton);
    org.orgs_loaded(Err("down".into()));
    assert_eq!(org.memberships(), Memberships::Failed("down".into()));
    assert!(org.load_orgs(true));
    let row = |organization: &str, name: &str| {
        Json::Object(vec![
            ("id".to_string(), Json::Text("m".into())),
            ("organizationId".to_string(), Json::Text(organization.into())),
            ("name".to_string(), Json::Text(name.into())),
        ])
    };
    org.orgs_loaded(Ok(Json::Array(vec![row("o2", "beta"), row("o1", "Alpha")])));
    assert_eq!(
        org.memberships(),
        Memberships::Rows(vec![
            ("o1".to_string(), "Alpha".to_string()),
            ("o2".to_string(), "beta".to_string()),
        ])
    );
    org.orgs_loaded(Ok(Json::Array(vec![])));
    assert_eq!(org.memberships(), Memberships::Nothing);
    assert_eq!(org.create_org("  ", true), None);
    assert_eq!(org.error.as_deref(), Some("Enter a workspace name"));
    assert_eq!(org.create_org(" Acme ", true).as_deref(), Some("Acme"));
    assert_eq!(org.create_label(), "Creating…");
    assert_eq!(org.create_org("Acme", true), None);
    org.answered(Err("taken".into()));
    assert_eq!(org.error.as_deref(), Some("taken"));
    assert!(org.select_org(true));
    assert!(org.submitting);
    org.answered(Ok(()));
    assert_eq!(org.create_label(), "Create workspace");
    assert!(!OrgGateUi::new().select_org(false));
}

#[test]
fn the_window_shows_what_the_connection_allows() {
    let shell = shell();
    let mut state = AppState::new();
    state.begin_bootstrap("/data".into());
    assert_eq!(shell.root_view(&state), RootView::Blank);
    state.bootstrap_failed("refused".into());
    assert_eq!(
        shell.root_view(&state),
        RootView::Unreachable { error: "refused".into() }
    );
    let card = gate_card(&GatePhase::Failed("refused".into()));
    assert_eq!((card.title.as_str(), card.body.as_str()), ("Backend unreachable", "refused"));
    assert_eq!(gate_card(&GatePhase::SignIn).action, "Sign in with browser");
    state.attach_engine();
    assert_eq!(shell.root_view(&state), RootView::Panes { right_handle: false });
}

#[test]
fn the_status_strip_follows_the_run() {
    let mut state = state();
    let remote = EngineMode::Remote { url: "ws://h".into() };
    state.selected_chat = None;
    assert_eq!(
        status_strip(&state, Some(&EngineMode::InProcess), false, at(10)),
        StatusStrip::Mode("engine: in-process".into())
    );
    assert_eq!(
        status_strip(&state, Some(&remote), true, at(10)),
        StatusStrip::Mode("engine: ws://h".into())
    );
    state.select_chat(Some("a".into()), at(10));
    assert_eq!(
        status_strip(&state, None, true, at(10)),
        StatusStrip::Sending
    );
    assert_eq!(
        status_strip(&state, None, false, at(10)),
        StatusStrip::Mode(String::new())
    );
    state.apply_sessions(vec![session("a", SessionStatus::Working)]);
    assert_eq!(
        status_strip(&state, None, false, at(10)),
        StatusStrip::Working { elapsed_secs: 600 }
    );
    assert!(Shell::ticks(&state, at(10)));
    state.apply_sessions(vec![session("a", SessionStatus::AwaitingInput)]);
    let strip = status_strip(&state, None, false, at(10));
    assert_eq!(strip_label(&strip), Some("Awaiting your input"));
    state.apply_sessions(vec![session("a", SessionStatus::Errored)]);
    let strip = status_strip(&state, None, false, at(10));
    assert_eq!(strip_label(&strip), Some("Run failed"));
    assert_eq!(strip_label(&StatusStrip::Sending), Some("Sending…"));
    state.apply_sessions(vec![]);
    assert!(!Shell::ticks(&state, at(10)));
}

#[test]
fn the_main_title_names_the_chat() {
    let mut state = state();
    state.selected_chat = None;
    assert_eq!(main_title(&state), "comet");
    state.chats[0].title = Some("Fix".into());
    let id = state.chats[0].id.clone();
    state.select_chat(Some(id), at(9));
    assert_eq!(main_title(&state), "Fix");
}

#[test]
fn the_sidebar_lists_flat_or_by_project() {
    let mut state = state();
    state.chats[0].cwd = Some("/dev/comet".into());
    state.chats[2].cwd = Some("/dev/comet".into());
    state.chats[3].archived = true;
    state.select_chat(Some("z".into()), at(9));
    state.apply_sessions(vec![session("b", SessionStatus::Errored)]);
    let flat = chat_sidebar(&state, false, at(10));
    assert_eq!(flat.len(), 3);
    match &flat[0] {
        SidebarItem::Row(row) => {
            assert_eq!(row.chat_id, "z");
            assert!(row.selected);
            assert_eq!(row.title, "New session");
        }
        other => panic!("unexpected {other:?}"),
    }
    let lines: Vec<String> = chat_sidebar(&state, true, at(10))
        .into_iter()
        .map(|item| match item {
            SidebarItem::Header(label) => format!("[{label}]"),
            SidebarItem::Row(row) => {
                if row.indicator == Indicator::Errored {
                    format!("{}!", row.chat_id)
                } else {
                    row.chat_id
                }
            }
        })
        .collect();
    assert_eq!(lines, ["[comet]", "z", "b!", "[No project]", "c"]);
}

#[test]
fn unreadable_combinations_fall_back() {
    assert_eq!(fallback_combo(ShellAction::ToggleSidebar), "mod-s");
    assert_eq!(fallback_combo(ShellAction::ToggleChanges), "mod-b");
    assert_eq!(fallback_combo(ShellAction::ToggleTerminal), "mod-j");
    assert_eq!(valid_or_default("x".into(), true, "y".into()), "x");
    assert_eq!(valid_or_default("x".into(), false, "y".into()), "y");
}

#[test]
fn an_open_palette_without_devices_asks_nothing() {
    let mut shell = shell();
    let mut state = AppState::new();
    state.attach_engine();
    assert!(shell.open_add_space(&state).is_none());
    assert!(matches!(shell.add_space.as_ref().unwrap().browser, Loadable::Idle));
    assert_eq!(shell.submit_add_space(&mut state, "", at(0)), Submitted::Nothing);
}
