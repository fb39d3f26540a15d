use comet_ui::gate::{
    dedupe_orgs, engine_mode, gate_phase, org_name_valid, parse_auth_state, parse_orgs,
    sort_memberships, ConnectionStatus, EngineMode, GatePhase, OrgRow,
};
use comet_ui::json::Json;
use comet_ui::model::{
    AuthState, Chat, ChatConfig, ChatIndicator, Device, HarnessId, MessageRole, ReasoningLevel,
    SandboxLevel, Session, SessionMessageEntry, SessionStatus, Space, UserProfile,
};
use comet_ui::order::{
    attention_rank, display_status, effective_indicator, sort_active, sort_chats, sort_spaces,
    sort_tabs, Indicator,
};
use comet_ui::project::{chat_location, format_time_ago, group_chats, project_label};
use comet_ui::state::AppState;
use comet_ui::time::Timestamp;

/// 2026-07-19T12:00:00Z.
const BASE: i64 = 1784462400;

fn at(min: i64) -> Timestamp {
    Timestamp::from_parts(BASE + min * 60, 0)
}

fn now() -> Timestamp {
    at(0)
}

fn before_now(secs: i64) -> Timestamp {
    Timestamp::from_parts(BASE - secs, 0)
}

fn chat(id: &str, created_min: i64, last_msg_min: Option<i64>) -> Chat {
    Chat {
        id: id.into(),
        device_id: "dev".into(),
        title: None,
        title_line: None,
        archived: false,
        cwd: None,
        branch: None,
        checkout_id: None,
        config: None,
        last_message_preview: None,
        last_message_at: last_msg_min.map(at),
        created_at: at(created_min),
        harness_session_id: None,
        harness_session_cwd: None,
        space_id: None,
        last_seen_at: None,
    }
}

fn space(id: &str, device_id: &str, path: &str, created_min: i64) -> Space {
    Space {
        id: id.into(),
        device_id: device_id.into(),
        path: path.into(),
        name: None,
        display_name: path.into(),
        git_detected: false,
        git_checked_at: None,
        checkout_id: None,
        created_at: at(created_min),
    }
}

fn session(chat_id: &str, status: SessionStatus, updated_secs_ago: i64) -> Session {
    Session {
        chat_id: chat_id.into(),
        device_id: "dev".into(),
        status,
        started_at: None,
        updated_at: before_now(updated_secs_ago),
    }
}

fn text(s: &str) -> Json {
    Json::Text(s.into())
}

fn object(members: Vec<(&str, Json)>) -> Json {
    Json::Object(members.into_iter().map(|(k, v)| (k.to_string(), v)).collect())
}

fn ids<'a>(chats: &[&'a Chat]) -> Vec<&'a str> {
    chats.iter().map(|c| c.id.as_str()).collect()
}

#[test]
fn chats_sort_by_last_message_desc_with_created_fallback() {
    let mut chats = vec![
        chat("a", 0, Some(10)),
        chat("b", 5, None), // no messages: keys on created_at (+5min)
        chat("c", 1, Some(30)),
        chat("d", 40, None), // created after every message
    ];
    sort_chats(&mut chats);
    let order: Vec<&str> = chats.iter().map(|c| c.id.as_str()).collect();
    assert_eq!(order, ["d", "c", "a", "b"]);
}

#[test]
fn chat_sort_ties_are_deterministic() {
    let mut chats = vec![chat("z", 0, Some(10)), chat("a", 0, Some(10))];
    sort_chats(&mut chats);
    assert_eq!(chats[0].id, "a");
}

#[test]
fn sorting_from_any_order_gives_the_same_list() {
    let mut one = vec![chat("a", 0, Some(10)), chat("b", 2, Some(10)), chat("c", 2, Some(10))];
    let mut other = vec![chat("c", 2, Some(10)), chat("a", 0, Some(10)), chat("b", 2, Some(10))];
    sort_chats(&mut one);
    sort_chats(&mut other);
    let first: Vec<&str> = one.iter().map(|c| c.id.as_str()).collect();
    let second: Vec<&str> = other.iter().map(|c| c.id.as_str()).collect();
    assert_eq!(first, ["b", "c", "a"]);
    assert_eq!(first, second);
    let mut spaces = vec![space("s2", "d", "/b", 1), space("s1", "d", "/a", 1)];
    sort_spaces(&mut spaces);
    assert_eq!(spaces[0].id, "s1");
}

#[test]
fn working_indicator_staleness() {
    let now = now();
    let fresh = session("c", SessionStatus::Working, 10);
    assert_eq!(effective_indicator(Some(&fresh), now), Indicator::Working);
    let stale = session("c", SessionStatus::Working, 46);
    assert_eq!(effective_indicator(Some(&stale), now), Indicator::Nothing);
    // Exactly at the boundary still shows.
    let edge = session("c", SessionStatus::Working, 45);
    assert_eq!(effective_indicator(Some(&edge), now), Indicator::Working);
    // Future timestamps count as fresh.
    let skewed = session("c", SessionStatus::Working, -30);
    assert_eq!(effective_indicator(Some(&skewed), now), Indicator::Working);
}

#[test]
fn staleness_counts_milliseconds() {
    let updated = Session {
        updated_at: Timestamp::from_parts(BASE - 46, 999_000_000),
        ..session("c", SessionStatus::Working, 0)
    };
    // 45.001 s old.
    assert_eq!(effective_indicator(Some(&updated), now()), Indicator::Nothing);
    let updated = Session {
        updated_at: Timestamp::from_parts(BASE - 46, 999_500_000),
        ..session("c", SessionStatus::Working, 0)
    };
    // 45.0005 s old: the fraction of a millisecond does not count.
    assert_eq!(effective_indicator(Some(&updated), now()), Indicator::Working);
}

#[test]
fn indicator_kinds() {
    let now = now();
    assert_eq!(effective_indicator(None, now), Indicator::Nothing);
    let idle = session("c", SessionStatus::Idle, 0);
    assert_eq!(effective_indicator(Some(&idle), now), Indicator::Nothing);
    // Errored is not staleness-gated: the error stays visible.
    let errored = session("c", SessionStatus::Errored, 600);
    assert_eq!(effective_indicator(Some(&errored), now), Indicator::Errored);
    let awaiting = session("c", SessionStatus::AwaitingInput, 5);
    assert_eq!(effective_indicator(Some(&awaiting), now), Indicator::AwaitingInput);
    let awaiting_stale = session("c", SessionStatus::AwaitingInput, 300);
    assert_eq!(effective_indicator(Some(&awaiting_stale), now), Indicator::Nothing);
}

#[test]
fn display_status_derivation() {
    let now = now();
    let mut c = chat("c", 0, Some(10));
    let working = session("c", SessionStatus::Working, 5);
    assert_eq!(display_status(&c, Some(&working), now), ChatIndicator::Working);
    let awaiting = session("c", SessionStatus::AwaitingInput, 5);
    assert_eq!(display_status(&c, Some(&awaiting), now), ChatIndicator::AwaitingInput);
    // Finished and unseen, without a session row.
    assert_eq!(display_status(&c, None, now), ChatIndicator::Completed);
    let idle = session("c", SessionStatus::Idle, 5);
    assert_eq!(display_status(&c, Some(&idle), now), ChatIndicator::Completed);
    // A stale run falls back to the seen check.
    let stale = session("c", SessionStatus::Working, 300);
    assert_eq!(display_status(&c, Some(&stale), now), ChatIndicator::Completed);
    // Seen after the last message.
    c.last_seen_at = Some(at(11));
    assert_eq!(display_status(&c, Some(&idle), now), ChatIndicator::Idle);
    // Errored and unseen; seen clears it.
    let errored = session("c", SessionStatus::Errored, 600);
    assert_eq!(display_status(&c, Some(&errored), now), ChatIndicator::Idle);
    c.last_seen_at = None;
    assert_eq!(display_status(&c, Some(&errored), now), ChatIndicator::Errored);
    // No messages at all: nothing to see.
    let fresh = chat("f", 0, None);
    assert_eq!(display_status(&fresh, None, now), ChatIndicator::Idle);
}

#[test]
fn active_list_sorts_by_attention_then_recency() {
    let a = chat("a", 0, Some(10)); // Completed (older)
    let b = chat("b", 0, Some(20)); // Completed (newer)
    let c = chat("c", 0, Some(5)); // AwaitingInput
    let d = chat("d", 0, Some(1)); // Working
    let mut rows = vec![
        (ChatIndicator::Completed, &a),
        (ChatIndicator::Completed, &b),
        (ChatIndicator::AwaitingInput, &c),
        (ChatIndicator::Working, &d),
    ];
    sort_active(&mut rows);
    let order: Vec<&str> = rows.iter().map(|(_, c)| c.id.as_str()).collect();
    assert_eq!(order, ["c", "d", "b", "a"]);
}

#[test]
fn attention_ranks_are_fixed() {
    assert_eq!(attention_rank(ChatIndicator::AwaitingInput), 0);
    assert_eq!(attention_rank(ChatIndicator::Errored), 1);
    assert_eq!(attention_rank(ChatIndicator::Working), 2);
    assert_eq!(attention_rank(ChatIndicator::Completed), 3);
    assert_eq!(attention_rank(ChatIndicator::Idle), 4);
}

#[test]
fn tabs_order_by_creation_not_activity() {
    let a = chat("a", 5, Some(100)); // created later, very active
    let b = chat("b", 1, Some(2));
    let mut tabs = vec![&a, &b];
    sort_tabs(&mut tabs);
    assert_eq!(ids(&tabs), ["b", "a"]);
}

#[test]
fn apply_spaces_sorts_and_heals_selection() {
    let mut state = AppState::new();
    state.apply_spaces(vec![space("s2", "dev", "/b", 2), space("s1", "dev", "/a", 1)]);
    let order: Vec<&str> = state.spaces.iter().map(|s| s.id.as_str()).collect();
    assert_eq!(order, ["s1", "s2"]);
    // The first frame selects the first space.
    assert_eq!(state.selected_space.as_deref(), Some("s1"));
    state.selected_space = Some("s2".into());
    // A vanished selection heals to the first space.
    state.apply_spaces(vec![space("s1", "dev", "/a", 1)]);
    assert_eq!(state.selected_space.as_deref(), Some("s1"));
    // No spaces at all: the selection clears.
    state.apply_spaces(vec![]);
    assert_eq!(state.selected_space, None);
}

#[test]
fn chats_in_space_filters_and_orders() {
    let mut state = AppState::new();
    state.apply_spaces(vec![space("s1", "dev", "/a", 1)]);
    let mut in_space_new = chat("new", 5, None);
    in_space_new.space_id = Some("s1".into());
    let mut in_space_old = chat("old", 1, Some(50)); // active but created first
    in_space_old.space_id = Some("s1".into());
    let mut other = chat("other", 2, None);
    other.space_id = Some("s2".into());
    let mut archived = chat("gone", 0, None);
    archived.space_id = Some("s1".into());
    archived.archived = true;
    let dangling = chat("dangling", 3, None); // no space id
    state.apply_chats(vec![in_space_new, in_space_old, other, archived, dangling]);
    assert_eq!(ids(&state.chats_in_space("s1")), ["old", "new"]);
    // Every chat of a known space shows, idle ones included; chats of unknown spaces stay hidden.
    let overview: Vec<&str> =
        state.overview_chats(now()).iter().map(|(_, c)| c.id.as_str()).collect();
    assert_eq!(overview, ["old", "new"]);
}

#[test]
fn apply_chats_drops_vanished_selection() {
    let mut state = AppState::new();
    state.apply_chats(vec![chat("a", 0, None), chat("b", 1, None)]);
    state.selected_chat = Some("a".into());
    state.transcript = vec![];
    state.apply_chats(vec![chat("b", 1, None)]);
    assert_eq!(state.selected_chat, None);
    // A selection that is still there survives.
    state.selected_chat = Some("b".into());
    state.apply_chats(vec![chat("b", 1, None), chat("c", 2, None)]);
    assert_eq!(state.selected_chat.as_deref(), Some("b"));
}

fn config(model: Option<&str>, reasoning: Option<ReasoningLevel>) -> ChatConfig {
    ChatConfig {
        harness: HarnessId::ClaudeCode,
        model: model.map(|m| m.to_string()),
        reasoning,
        model_options: serde_json::Map::new(),
        sandbox: SandboxLevel::WorkspaceWrite,
    }
}

#[test]
fn apply_chat_config_stamps_the_row() {
    let mut state = AppState::new();
    state.apply_chats(vec![chat("a", 0, None), chat("b", 1, None)]);
    let stamped = config(Some("fable-5"), Some(ReasoningLevel::XHigh));
    state.apply_chat_config("a", stamped.clone());
    assert_eq!(state.chats.iter().find(|c| c.id == "a").unwrap().config, Some(stamped));
    assert!(state.chats.iter().find(|c| c.id == "b").unwrap().config.is_none());
    // An unknown chat changes nothing.
    state.apply_chat_config("missing", config(None, None));
    assert_eq!(state.chats.len(), 2);
}

#[test]
fn visible_chats_filters_archived() {
    let mut state = AppState::new();
    let mut archived = chat("a", 0, Some(99));
    archived.archived = true;
    state.apply_chats(vec![archived, chat("b", 1, None)]);
    assert_eq!(ids(&state.visible_chats()), ["b"]);
}

fn echo(id: &str) -> SessionMessageEntry {
    SessionMessageEntry {
        id: id.into(),
        role: MessageRole::User,
        parts: vec![],
        created_at: 0,
        device_id: "local".into(),
        status: None,
        continuation_of: None,
    }
}

#[test]
fn echoes_show_until_doc_frame_confirms() {
    let mut state = AppState::new();
    state.selected_chat = Some("c1".into());
    state.push_echo("c1", echo("m1"));
    // A second push of the same message adds nothing.
    state.push_echo("c1", echo("m1"));
    assert_eq!(state.pending_echoes().len(), 1);
    // Frames without the id keep the echo.
    state.apply_transcript(vec![]);
    assert_eq!(state.pending_echoes().len(), 1);
    // The confirming frame prunes it.
    state.apply_transcript(vec![echo("m1")]);
    assert!(state.pending_echoes().is_empty());
    // Failure: explicit removal.
    state.push_echo("c1", echo("m2"));
    state.remove_echo("c1", "m2");
    assert!(state.pending_echoes().is_empty());
    // Echoes are per chat.
    state.push_echo("other", echo("m3"));
    assert!(state.pending_echoes().is_empty());
}

#[test]
fn frames_of_another_chat_are_dropped() {
    let mut state = AppState::new();
    state.engine_attached = true;
    state.select_chat(Some("c1".into()), now());
    assert!(!state.apply_transcript_frame("c2", vec![echo("x")]));
    assert!(state.transcript.is_empty());
    assert!(state.apply_transcript_frame("c1", vec![echo("x")]));
    assert_eq!(state.transcript.len(), 1);
}

fn user() -> UserProfile {
    UserProfile { id: "u".into(), email: "w@example.com".into(), name: None }
}

#[test]
fn gate_phases() {
    assert_eq!(gate_phase(&ConnectionStatus::Connecting, None), GatePhase::Loading);
    assert_eq!(
        gate_phase(&ConnectionStatus::Failed("boom".into()), None),
        GatePhase::Failed("boom".into())
    );
    // An unknown sign-in state gates nothing.
    assert_eq!(gate_phase(&ConnectionStatus::Ready, None), GatePhase::Ready);
    assert_eq!(
        gate_phase(&ConnectionStatus::Ready, Some(&AuthState::SignedOut)),
        GatePhase::SignIn
    );
    assert_eq!(
        gate_phase(
            &ConnectionStatus::Ready,
            Some(&AuthState::SignedIn { user: user(), org_id: None })
        ),
        GatePhase::Ready
    );
    // No organization yet.
    assert_eq!(
        gate_phase(
            &ConnectionStatus::Ready,
            Some(&AuthState::NeedsOrganization { user: user() })
        ),
        GatePhase::OrgGate
    );
}

#[test]
fn auth_frames_parse_both_wire_shapes() {
    let proto = object(vec![("state", text("signedOut"))]);
    assert_eq!(parse_auth_state(&proto), Some(AuthState::SignedOut));
    let engine = object(vec![
        ("_tag", text("SignedIn")),
        ("user", object(vec![("id", text("u1")), ("email", text("w@example.com"))])),
        ("orgId", text("org-1")),
    ]);
    let Some(AuthState::SignedIn { user, org_id }) = parse_auth_state(&engine) else {
        panic!("expected SignedIn");
    };
    assert_eq!(user.email, "w@example.com");
    assert_eq!(org_id.as_deref(), Some("org-1"));
    let needs = object(vec![
        ("_tag", text("NeedsOrganization")),
        (
            "user",
            object(vec![
                ("id", text("u1")),
                ("email", text("w@example.com")),
                ("name", text("W")),
            ]),
        ),
    ]);
    assert!(matches!(parse_auth_state(&needs), Some(AuthState::NeedsOrganization { .. })));
    // What is not understood is dropped.
    assert_eq!(parse_auth_state(&object(vec![("_tag", text("Wat"))])), None);
    assert_eq!(parse_auth_state(&Json::Natural(42)), None);
}

#[test]
fn auth_frames_reach_the_state() {
    let mut state = AppState::new();
    assert!(!state.apply_auth_value(&Json::Null));
    assert!(state.auth.is_none());
    assert!(state.apply_auth_value(&object(vec![("state", text("signedOut"))])));
    assert_eq!(state.auth, Some(AuthState::SignedOut));
    assert!(state.auth_user().is_none());
    state.apply_auth(AuthState::SignedIn { user: user(), org_id: None });
    assert_eq!(state.auth_user().map(|u| u.email.as_str()), Some("w@example.com"));
}

#[test]
fn the_engine_is_embedded_unless_a_daemon_listens() {
    assert_eq!(engine_mode(27654, false), EngineMode::InProcess);
    assert_eq!(
        engine_mode(27654, true),
        EngineMode::Remote { url: "ws://127.0.0.1:27654".into() }
    );
}

fn chat_with_cwd(id: &str, created_min: i64, cwd: Option<&str>) -> Chat {
    let mut c = chat(id, created_min, None);
    c.cwd = cwd.map(|s| s.to_string());
    c
}

#[test]
fn project_labels_from_cwd() {
    assert_eq!(project_label(Some("/home/w/dev/comet")), "comet");
    assert_eq!(project_label(Some("/home/w/dev/comet/")), "comet");
    assert_eq!(project_label(None), "No project");
    assert_eq!(project_label(Some("   ")), "No project");
    assert_eq!(project_label(Some("/")), "/");
}

#[test]
fn grouped_sidebar_preserves_recency_order() {
    let chats = [
        chat_with_cwd("a", 9, Some("/dev/comet")),
        chat_with_cwd("b", 8, Some("/dev/zed")),
        chat_with_cwd("c", 7, Some("/dev/comet")),
        chat_with_cwd("d", 6, None),
    ];
    let rows: Vec<&Chat> = chats.iter().collect();
    let groups = group_chats(&rows);
    let labels: Vec<&str> = groups.iter().map(|g| g.label.as_str()).collect();
    // Groups are ordered by their most recent chat; rows keep their order.
    assert_eq!(labels, ["comet", "zed", "No project"]);
    assert_eq!(ids(&groups[0].chats), ["a", "c"]);
    assert!(group_chats(&[]).is_empty());
}

#[test]
fn relative_times_match_comet_format() {
    let now = now();
    let ago = before_now;
    assert_eq!(format_time_ago(ago(0), now), "now");
    assert_eq!(format_time_ago(ago(59), now), "now");
    assert_eq!(format_time_ago(ago(60), now), "1m");
    assert_eq!(format_time_ago(ago(59 * 60), now), "59m");
    assert_eq!(format_time_ago(ago(60 * 60), now), "1h");
    assert_eq!(format_time_ago(ago(23 * 3600 + 3599), now), "23h");
    assert_eq!(format_time_ago(ago(24 * 3600), now), "1d");
    assert_eq!(format_time_ago(ago(6 * 86400), now), "6d");
    assert_eq!(format_time_ago(ago(7 * 86400), now), "1w");
    assert_eq!(format_time_ago(ago(30 * 86400), now), "4w");
    assert_eq!(format_time_ago(ago(35 * 86400), now), "1mo");
    assert_eq!(format_time_ago(ago(400 * 86400), now), "1y");
    // An instant in the future counts as now.
    assert_eq!(format_time_ago(ago(-2 * 3600), now), "now");
}

#[test]
fn chat_location_joins_project_and_branch() {
    let mut c = chat_with_cwd("x", 1, Some("/home/w/dev/soccertcg"));
    c.branch = Some("comet/rebalance".into());
    assert_eq!(chat_location(&c).as_deref(), Some("soccertcg · comet/rebalance"));
    c.branch = None;
    assert_eq!(chat_location(&c).as_deref(), Some("soccertcg"));
    c.cwd = None;
    c.branch = Some("main".into());
    assert_eq!(chat_location(&c).as_deref(), Some("main"));
    c.branch = Some("   ".into());
    assert_eq!(chat_location(&c), None);
    c.branch = None;
    assert_eq!(chat_location(&c), None);
}

fn org(id: &str, organization: &str, name: &str) -> Json {
    object(vec![
        ("id", text(id)),
        ("organizationId", text(organization)),
        ("name", text(name)),
    ])
}

#[test]
fn org_gate_reducers() {
    assert!(org_name_valid("Acme"));
    assert!(org_name_valid("  padded  "));
    assert!(!org_name_valid(""));
    assert!(!org_name_valid("   "));
    assert!(!org_name_valid(&"x".repeat(65)));

    let rows = parse_orgs(&object(vec![(
        "orgs",
        Json::Array(vec![
            org("m2", "o2", "beta"),
            org("m1", "o1", "Alpha"),
            org("m3", "o1", "Alpha"),
        ]),
    )]));
    assert_eq!(rows.len(), 3);
    let sorted = sort_memberships(rows);
    let names: Vec<&str> = sorted.iter().map(|o| o.name.as_str()).collect();
    assert_eq!(names, ["Alpha", "beta"], "case-insensitive sort + dedupe by org id");
    // A bare array parses too; anything else yields nothing.
    assert_eq!(parse_orgs(&Json::Array(vec![org("m", "o", "n")])).len(), 1);
    assert!(parse_orgs(&text("nope")).is_empty());
}

#[test]
fn one_organization_under_two_names_stays_once() {
    let row = |organization: &str, name: &str| OrgRow {
        organization_id: organization.into(),
        name: name.into(),
    };
    let sorted = sort_memberships(vec![row("o1", "beta"), row("o2", "Alpha"), row("o1", "gamma")]);
    let names: Vec<&str> = sorted.iter().map(|o| o.name.as_str()).collect();
    assert_eq!(names, ["Alpha", "beta"]);
    assert_eq!(dedupe_orgs(vec![row("o1", "a"), row("o1", "b")]).len(), 1);
    assert!(org_name_valid(&"x".repeat(64)));
}

#[test]
fn selecting_a_chat_lands_in_its_space_and_marks_it_seen() {
    let mut state = AppState::new();
    state.engine_attached = true;
    state.apply_spaces(vec![space("s1", "dev", "/a", 1), space("s2", "dev", "/b", 2)]);
    let mut c = chat("c", 0, Some(5));
    c.space_id = Some("s2".into());
    state.apply_chats(vec![c]);
    let fx = state.select_chat(Some("c".into()), at(9));
    assert!(fx.notify);
    assert_eq!(fx.send_seen.as_deref(), Some("c"));
    assert_eq!(state.selected_space.as_deref(), Some("s2"));
    assert_eq!(state.transcript_watch.as_deref(), Some("c"));
    assert_eq!(state.chats[0].last_seen_at, Some(at(9)));
    // Seeing it again changes nothing.
    let fx = state.select_chat(Some("c".into()), at(10));
    assert!(!fx.notify);
    assert_eq!(fx.send_seen, None);
    assert_eq!(state.chats[0].last_seen_at, Some(at(9)));
}

#[test]
fn the_first_frame_selects_the_most_recent_chat_once() {
    let mut state = AppState::new();
    let fx = state.apply_chats_frame(vec![chat("a", 0, None), chat("b", 5, None)], at(9));
    assert!(fx.notify);
    assert_eq!(state.selected_chat.as_deref(), Some("b"));
    // Once somebody went to the canvas, frames leave them there.
    state.select_chat(None, at(9));
    state.apply_chats_frame(vec![chat("a", 0, None), chat("b", 5, None)], at(9));
    assert_eq!(state.selected_chat, None);
}

#[test]
fn spaces_can_be_selected() {
    let mut state = AppState::new();
    assert!(state.select_space(Some("s".into())));
    assert!(!state.select_space(Some("s".into())));
    assert!(state.select_space(None));
}

#[test]
fn devices_are_online_with_a_fresh_heartbeat_or_the_benefit_of_the_doubt() {
    let mut state = AppState::new();
    state.apply_devices(vec![Device { id: "d".into(), name: "Desk".into(), last_seen_at: None }]);
    assert_eq!(state.device_name("d"), Some("Desk"));
    assert_eq!(state.device_name("x"), None);
    assert!(!state.device_online("d", false));
    assert!(state.device_online("d", true));
    assert!(state.device_online("unknown", false));
    state.apply_local_device(&object(vec![("deviceId", text("d"))]));
    assert_eq!(state.local_device_id.as_deref(), Some("d"));
    assert!(state.device_online("d", false));
}

#[test]
fn the_engine_comes_and_goes() {
    let mut state = AppState::new();
    state.begin_bootstrap("/data".into());
    assert_eq!(state.connection, ConnectionStatus::Connecting);
    assert_eq!(state.gate(), GatePhase::Loading);
    state.bootstrap_failed("refused".into());
    assert_eq!(state.gate(), GatePhase::Failed("refused".into()));
    state.selected_chat = Some("c".into());
    state.attach_engine();
    assert_eq!(state.gate(), GatePhase::Ready);
    assert_eq!(state.transcript_watch.as_deref(), Some("c"));
}

#[test]
fn sessions_belong_to_their_chats() {
    let mut state = AppState::new();
    state.apply_sessions(vec![session("c", SessionStatus::Working, 1)]);
    assert_eq!(state.indicator_for("c", now()), Indicator::Working);
    assert_eq!(state.indicator_for("d", now()), Indicator::Nothing);
    assert!(state.session_for("d").is_none());
}
