use comet_ui::model::{
    Chat, FolderEntry, FolderListing, HarnessDescriptor, HarnessId, Model, ModelOption,
    ModelOptionChoice, ReasoningLevel, Repo, SandboxLevel,
};
use comet_ui::pickers::browse::{
    breadcrumbs, browse_enter, browser_rows, child_path, parent_path, BrowseEnter,
};
use comet_ui::pickers::draft::{reasoning_label, traits_summary, visible_harnesses, DraftConfig};
use comet_ui::pickers::repos::{order_repos, recent_cwds};
use comet_ui::time::Timestamp;

fn repo(name: &str, path: &str) -> Repo {
    Repo { path: path.into(), name: name.into(), default_branch: Some("main".into()) }
}

#[test]
fn repos_order_recents_first_then_alphabetical() {
    let repos = vec![
        repo("zebra", "/r/zebra"),
        repo("Alpha", "/r/alpha"),
        repo("mango", "/r/mango"),
    ];
    let recents = vec!["/r/mango".to_string(), "/r/missing".to_string()];
    let ordered = order_repos(repos, &recents);
    let names: Vec<&str> = ordered.iter().map(|r| r.name.as_str()).collect();
    assert_eq!(names, ["mango", "Alpha", "zebra"]);
    // Without recents the order is purely alphabetical, whatever the case.
    let ordered = order_repos(vec![repo("b", "/b"), repo("A", "/a")], &[]);
    assert_eq!(ordered[0].name, "A");
}

#[test]
fn ordering_loses_no_repository() {
    let repos = vec![repo("b", "/b2"), repo("b", "/b1"), repo("a", "/a")];
    let recents = vec!["/b2".to_string(), "/b2".to_string(), "/a".to_string()];
    let ordered = order_repos(repos, &recents);
    let paths: Vec<&str> = ordered.iter().map(|r| r.path.as_str()).collect();
    assert_eq!(paths, ["/b2", "/a", "/b1"]);
}

fn chat(id: &str, cwd: Option<&str>, min: i64) -> Chat {
    Chat {
        id: id.into(),
        device_id: "d".into(),
        title: None,
        title_line: None,
        archived: false,
        cwd: cwd.map(|s| s.to_string()),
        branch: None,
        checkout_id: None,
        config: None,
        last_message_preview: None,
        last_message_at: None,
        created_at: Timestamp::from_parts(1784462400 + min * 60, 0),
        harness_session_id: None,
        harness_session_cwd: None,
        space_id: None,
        last_seen_at: None,
    }
}

#[test]
fn recent_cwds_dedupe_in_recency_order() {
    // The chats are already in sidebar order.
    let chats = vec![
        chat("a", Some("/dev/comet"), 3),
        chat("b", Some("/dev/zed"), 2),
        chat("c", Some("/dev/comet"), 1),
        chat("d", None, 0),
        chat("e", Some(""), 0),
    ];
    assert_eq!(recent_cwds(&chats), vec!["/dev/comet".to_string(), "/dev/zed".to_string()]);
}

fn choice(id: &str, label: &str) -> ModelOptionChoice {
    ModelOptionChoice { id: id.into(), label: label.into() }
}

fn opus() -> Model {
    Model {
        id: "opus".into(),
        label: "Opus".into(),
        reasoning_levels: vec![ReasoningLevel::Medium, ReasoningLevel::High],
        options: vec![
            ModelOption {
                id: "context".into(),
                label: "Context window".into(),
                choices: vec![choice("standard", "Standard"), choice("1m", "1M")],
                default_choice: "standard".into(),
            },
            ModelOption {
                id: "speed".into(),
                label: "Speed".into(),
                choices: vec![choice("normal", "Normal"), choice("fast", "Fast")],
                default_choice: "normal".into(),
            },
        ],
    }
}

fn picks(pairs: &[(&str, &str)]) -> serde_json::Map<String, serde_json::Value> {
    let mut map = serde_json::Map::new();
    for (id, value) in pairs {
        map.insert(id.to_string(), serde_json::Value::String(value.to_string()));
    }
    map
}

#[test]
fn traits_summary_formats_non_defaults() {
    let model = opus();
    let selections = picks(&[("context", "1m"), ("speed", "fast")]);
    assert_eq!(
        traits_summary(Some(&model), Some(ReasoningLevel::High), &selections),
        Some("High · 1M · Fast".to_string())
    );
    // All defaults: no summary.
    assert_eq!(traits_summary(Some(&model), None, &serde_json::Map::new()), None);
    // A choice of the default does not count.
    let defaults = picks(&[("speed", "normal")]);
    assert_eq!(traits_summary(Some(&model), None, &defaults), None);
    // Reasoning shows without a model too.
    assert_eq!(
        traits_summary(None, Some(ReasoningLevel::Ultrathink), &serde_json::Map::new()),
        Some("Ultrathink".to_string())
    );
}

#[test]
fn options_that_are_no_texts_count_as_unset() {
    let mut map = serde_json::Map::new();
    map.insert("speed".to_string(), serde_json::Value::Bool(true));
    assert_eq!(traits_summary(Some(&opus()), None, &map), None);
    // A choice that the model does not offer does not show.
    let unknown = picks(&[("speed", "warp")]);
    assert_eq!(traits_summary(Some(&opus()), None, &unknown), None);
}

#[test]
fn levels_have_labels() {
    assert_eq!(reasoning_label(ReasoningLevel::XHigh), "X-High");
    assert_eq!(reasoning_label(ReasoningLevel::Minimal), "Minimal");
}

#[test]
fn folder_paths_and_breadcrumbs() {
    assert_eq!(parent_path("/home/w/dev"), Some("/home/w".to_string()));
    assert_eq!(parent_path("/home"), Some("/".to_string()));
    assert_eq!(parent_path("/home/"), Some("/".to_string()));
    assert_eq!(parent_path("/"), None);
    assert_eq!(parent_path(""), None);
    assert_eq!(child_path("/home", "w"), "/home/w");
    assert_eq!(child_path("/", "home"), "/home");
    let crumbs = breadcrumbs("/home/w/dev");
    let labels: Vec<&str> = crumbs.iter().map(|(l, _)| l.as_str()).collect();
    assert_eq!(labels, ["/", "home", "w", "dev"]);
    assert_eq!(crumbs[2].1, "/home/w");
    assert_eq!(breadcrumbs("/").len(), 1);
}

#[test]
fn the_parent_of_a_child_is_the_folder() {
    for base in ["/home/w", "/", "/a"] {
        let child = child_path(base, "x");
        assert_eq!(parent_path(&child).as_deref(), Some(base));
    }
    let crumbs = breadcrumbs("//home//w/");
    assert_eq!(crumbs.last().unwrap(), &("w".to_string(), "/home/w".to_string()));
}

fn listing() -> FolderListing {
    let entry = |name: &str, is_dir: bool, is_repo: bool| FolderEntry {
        name: name.into(),
        is_dir,
        is_repo,
    };
    FolderListing {
        path: "/home/w".into(),
        entries: vec![
            entry("notes.txt", false, false),
            entry("dev", true, false),
            entry("comet", true, true),
        ],
        truncated: false,
    }
}

#[test]
fn browser_navigation_reducer() {
    let listing = listing();
    // Files never show as rows.
    assert_eq!(browser_rows(&listing).len(), 2);
    // Enter on a plain directory goes into it; on a repository it picks it.
    assert_eq!(browse_enter(&listing, 0), Some(BrowseEnter::Descend("/home/w/dev".into())));
    assert_eq!(browse_enter(&listing, 1), Some(BrowseEnter::Pick("/home/w/comet".into())));
    // Out of range.
    assert_eq!(browse_enter(&listing, 5), None);
}

#[test]
fn draft_chat_config_requires_harness() {
    let mut draft = DraftConfig::default();
    assert!(draft.chat_config().is_none());
    draft.harness = Some(HarnessId::ClaudeCode);
    draft.model = Some("opus".into());
    draft.reasoning = Some(ReasoningLevel::High);
    let config = draft.chat_config().expect("harness set");
    assert_eq!(config.harness, HarnessId::ClaudeCode);
    assert_eq!(config.model.as_deref(), Some("opus"));
    assert_eq!(config.sandbox, SandboxLevel::WorkspaceWrite);
}

#[test]
fn a_draft_hands_its_options_on() {
    let mut draft = DraftConfig::default();
    draft.harness = Some(HarnessId::Codex);
    draft.model_options = picks(&[("speed", "fast")]);
    let config = draft.chat_config().unwrap();
    assert_eq!(config.model_options, picks(&[("speed", "fast")]));
}

#[test]
fn mock_harness_hidden_unless_alone() {
    let descriptor = |id: HarnessId, name: &str| HarnessDescriptor {
        id,
        name: name.into(),
        supports_steering: true,
        reasoning_levels: vec![],
    };
    let mixed = vec![
        descriptor(HarnessId::Mock, "Mock"),
        descriptor(HarnessId::ClaudeCode, "Code"),
    ];
    let visible = visible_harnesses(&mixed);
    assert_eq!(visible.len(), 1);
    assert_eq!(visible[0].id, HarnessId::ClaudeCode);
    let only_mock = vec![descriptor(HarnessId::Mock, "Mock")];
    assert_eq!(visible_harnesses(&only_mock).len(), 1);
}
