use comet_ui::json::Json;
use comet_ui::model::{Chat, Device, HarnessId, ReasoningLevel};
use comet_ui::popover::{FocusTarget, Loadable};
use comet_ui::settings::accounts::{
    format_reset, provider_accounts, AccountAction, AccountCards, AccountRequest, AccountWarning,
    AccountsPage, AgentAccount, AgentAccountsSnapshot, AgentLoginMode, AgentLoginPoll,
    AgentLoginStart, AgentLoginStatus, LoginDialog, LoginFlow, PollReply, ProviderTitles,
    UsageLevel, UsageWindow,
};
use comet_ui::settings::archived::{archived_chats, ArchivedPage};
use comet_ui::settings::composer::ComposerDefaults;
use comet_ui::settings::encryption::{
    member_title, page_subtitle, pending_title, phase_copy, wants_pending, EncryptionPage,
    SetupReply, StatusAction, VaultCall,
};
use comet_ui::settings::shortcuts::{
    conflict_owner, description, group, group_order, group_rows, record_key, Binding, KeymapConfig,
    RecordOutcome, ShortcutId, ShortcutsPage,
};
use comet_ui::shell::frame::Mutation;
use comet_ui::time::Timestamp;

const BASE: i64 = 1784462400;

fn at(min: i64) -> Timestamp {
    Timestamp::from_parts(BASE + min * 60, 0)
}

fn text(s: &str) -> Json {
    Json::Text(s.into())
}

fn object(members: Vec<(&str, Json)>) -> Json {
    Json::Object(members.into_iter().map(|(k, v)| (k.to_string(), v)).collect())
}

// ---- composer defaults ----

#[test]
fn remember_model_updates_harness_and_row() {
    let mut defaults = ComposerDefaults::default();
    defaults.remember_model(HarnessId::Codex, "m1".into(), "One".into());
    defaults.remember_model(HarnessId::Codex, "m2".into(), "Two".into());
    assert_eq!(defaults.harness, Some(HarnessId::Codex));
    assert_eq!(defaults.model_for(HarnessId::Codex).map(|m| &*m.id), Some("m2"));
    assert!(defaults.model_for(HarnessId::ClaudeCode).is_none());
}

#[test]
fn a_reading_that_failed_yields_the_defaults() {
    assert_eq!(ComposerDefaults::or_default(None), ComposerDefaults::default());
    let mut kept = ComposerDefaults::default();
    kept.reasoning = Some(ReasoningLevel::XHigh);
    kept.remember_model(HarnessId::Codex, "gpt-5.2-codex".into(), "GPT-5.2".into());
    let loaded = ComposerDefaults::or_default(Some(kept));
    assert_eq!(loaded.reasoning, Some(ReasoningLevel::XHigh));
    assert_eq!(loaded.model_for(HarnessId::Codex).map(|m| &*m.label), Some("GPT-5.2"));
}

// ---- accounts ----

#[test]
fn reset_formatting() {
    let now = at(0);
    assert_eq!(format_reset(None, now), None);
    assert_eq!(format_reset(Some(at(12)), now), Some("resets in 12m".into()));
    assert_eq!(format_reset(Some(at(125)), now), Some("resets in 2h 05m".into()));
    assert_eq!(format_reset(Some(at(-1)), now), Some("resets soon".into()));
}

fn account(id: &str, harness: HarnessId, active: bool) -> AgentAccount {
    AgentAccount {
        id: id.into(),
        harness,
        email: None,
        plan_label: None,
        active,
        usage_windows: vec![],
        display_name: None,
        organization: None,
        auth_kind: None,
        switchable: true,
        saved_at: None,
    }
}

fn snapshot() -> AgentAccountsSnapshot {
    AgentAccountsSnapshot {
        accounts: vec![
            account("c1", HarnessId::ClaudeCode, false),
            account("x1", HarnessId::Codex, false),
            account("c2", HarnessId::ClaudeCode, true),
        ],
        warnings: vec![],
    }
}

#[test]
fn provider_grouping_puts_active_first() {
    let snapshot = snapshot();
    let first = provider_accounts(&snapshot, HarnessId::ClaudeCode);
    let ids: Vec<&str> = first.iter().map(|a| a.id.as_str()).collect();
    assert_eq!(ids, ["c2", "c1"], "active account leads");
    assert_eq!(provider_accounts(&snapshot, HarnessId::Codex).len(), 1);
    assert!(provider_accounts(&snapshot, HarnessId::Cursor).is_empty());
}

fn titles() -> ProviderTitles {
    ProviderTitles::new("First".into())
}

#[test]
fn provider_cards_show_accounts_and_warnings() {
    let (mut page, call) = AccountsPage::new(true);
    assert_eq!(page.cards(&titles(), at(0)), AccountCards::Skeleton);
    // Opening the page asks for the accounts of this device.
    let call = call.unwrap();
    assert_eq!(call.request, AccountRequest::List { force_usage: false });
    assert_eq!(call.target_device, None);
    let mut loaded = snapshot();
    loaded.accounts[1].email = Some("w@example.com".into());
    loaded.accounts[1].usage_windows = vec![UsageWindow {
        label: "5h".into(),
        percent: 42,
        level: UsageLevel::Normal,
        resets_at: Some(at(12)),
    }];
    loaded.warnings = vec![AccountWarning { harness: HarnessId::Codex, message: "stale".into() }];
    page.loaded(Ok(loaded));
    let AccountCards::Cards(cards) = page.cards(&titles(), at(0)) else {
        panic!("expected cards");
    };
    assert_eq!(cards[0].name, "First");
    assert_eq!(cards[0].rows[0].id, "c2");
    assert!(!cards[0].rows[0].can_switch && cards[0].rows[1].can_switch);
    assert_eq!(cards[0].rows[0].name, "Unknown account");
    assert_eq!(cards[1].warning.as_deref(), Some("stale"));
    assert_eq!(cards[1].rows[0].name, "w@example.com");
    assert!(cards[1].rows[0].meters[0].line.contains("resets in 12m"));
    page.loaded(Err("boom".into()));
    assert_eq!(page.cards(&titles(), at(0)), AccountCards::Failed("boom".into()));
}

#[test]
fn accounts_need_an_engine() {
    let (mut page, call) = AccountsPage::new(false);
    assert!(call.is_none());
    assert_eq!(page.snapshot.error(), Some("Engine not connected"));
    assert!(page.load(true, true).is_some());
    assert!(page.load(true, false).is_none());
    assert_eq!(page.snapshot.error(), Some("Engine not connected"));
}

#[test]
fn an_account_action_is_busy_until_it_is_answered() {
    let (mut page, _) = AccountsPage::new(true);
    let id = "c1".to_string();
    let call =
        page.account_action(AccountAction::Activate, &id, HarnessId::ClaudeCode, true).unwrap();
    assert_eq!(
        call.request,
        AccountRequest::Act {
            action: AccountAction::Activate,
            id: id.clone(),
            harness: HarnessId::ClaudeCode,
        }
    );
    assert_eq!(page.busy_account.as_deref(), Some("c1"));
    page.action_answered(Err("nope".into()), true);
    assert_eq!(page.busy_account, None);
    assert!(page.error.as_deref().unwrap().contains("nope"));
    page.dismiss_error();
    assert_eq!(page.error, None);
}

fn start(mode: AgentLoginMode) -> AgentLoginStart {
    AgentLoginStart { login_id: "l1".into(), url: "https://x".into(), mode }
}

#[test]
fn a_pasted_code_is_sent_once() {
    let (mut page, _) = AccountsPage::new(true);
    page.start_login(HarnessId::ClaudeCode, true).unwrap();
    assert_eq!(page.login_dialog(), Some(LoginDialog::Starting));
    let next = page.login_started(Ok(start(AgentLoginMode::PasteCode)), true);
    assert_eq!(next.open_url.as_deref(), Some("https://x"));
    assert!(next.poll.is_none());
    // A blank code is not sent.
    page.code = "   ".into();
    assert!(page.submit_code(true).is_none());
    page.code = " abc ".into();
    let call = page.submit_code(true).unwrap();
    assert_eq!(
        call.request,
        AccountRequest::CompleteLogin { login_id: "l1".into(), code: "abc".into() }
    );
    assert!(page.submit_code(true).is_none());
    page.code_answered(Err("bad code".into()), true);
    match page.login_dialog() {
        Some(LoginDialog::PasteCode { error, submit_label, .. }) => {
            assert_eq!(error.as_deref(), Some("bad code"));
            assert_eq!(submit_label, "Continue");
        }
        other => panic!("unexpected {other:?}"),
    }
    page.submit_code(true).unwrap();
    assert!(page.code_answered(Ok(()), true).is_some());
    assert!(page.login.is_none());
}

#[test]
fn a_browser_login_is_asked_about_until_it_lands() {
    let (mut page, _) = AccountsPage::new(true);
    page.start_login(HarnessId::Codex, true);
    let next = page.login_started(Ok(start(AgentLoginMode::Browser)), true);
    assert_eq!(
        next.poll.unwrap().request,
        AccountRequest::PollLogin { login_id: "l1".into() }
    );
    let pending =
        AgentLoginPoll { status: AgentLoginStatus::Pending, message: Some("approve".into()) };
    assert_eq!(page.poll_answered(PollReply::Answer(pending), true), (false, None));
    match page.login_dialog() {
        Some(LoginDialog::Browser { waiting, .. }) => assert_eq!(waiting, "approve"),
        other => panic!("unexpected {other:?}"),
    }
    let done = AgentLoginPoll { status: AgentLoginStatus::Done, message: None };
    let (over, call) = page.poll_answered(PollReply::Answer(done), true);
    assert!(over);
    assert_eq!(call.unwrap().request, AccountRequest::List { force_usage: true });
    assert!(page.login.is_none());
    // Nobody waits any more.
    assert_eq!(page.poll_answered(PollReply::Malformed, true), (true, None));
}

#[test]
fn failed_polls_show_why() {
    for (reply, shown) in [
        (PollReply::Failed("gone".into()), "Poll failed: gone"),
        (PollReply::Malformed, "Poll failed: malformed reply"),
        (
            PollReply::Answer(AgentLoginPoll { status: AgentLoginStatus::Error, message: None }),
            "Login failed",
        ),
    ] {
        let (mut page, _) = AccountsPage::new(true);
        page.login_started(Ok(start(AgentLoginMode::Browser)), true);
        assert_eq!(page.poll_answered(reply, true), (true, None));
        match &page.login {
            Some(LoginFlow::Browser { error, .. }) => assert_eq!(error.as_deref(), Some(shown)),
            other => panic!("unexpected {other:?}"),
        }
    }
    let (mut page, _) = AccountsPage::new(true);
    page.login_started(Err("x".into()), true);
    assert_eq!(page.error.as_deref(), Some("Login failed to start: x"));
}

#[test]
fn a_login_can_be_cancelled() {
    let (mut page, _) = AccountsPage::new(true);
    page.login_started(Ok(start(AgentLoginMode::Browser)), true);
    let call = page.cancel_login(true).unwrap();
    assert_eq!(call.request, AccountRequest::CancelLogin { login_id: "l1".into() });
    assert!(page.login.is_none() && !page.polling);
    assert!(page.cancel_login(true).is_none());
}

#[test]
fn a_login_that_was_given_up_is_not_waited_for() {
    let (mut page, _) = AccountsPage::new(true);
    assert!(!page.waits_for("l1"));
    page.login_started(Ok(start(AgentLoginMode::Browser)), true);
    assert!(page.waits_for("l1") && !page.waits_for("l2"));
    page.cancel_login(true);
    assert!(!page.waits_for("l1"));
    // Another login is waited for in its place.
    let second = AgentLoginStart { login_id: "l2".into(), ..start(AgentLoginMode::Browser) };
    page.login_started(Ok(second), true);
    assert!(page.waits_for("l2") && !page.waits_for("l1"));
    // A code that is pasted back is not asked about.
    page.login_started(Ok(start(AgentLoginMode::PasteCode)), true);
    assert!(!page.waits_for("l1"));
}

#[test]
fn another_device_is_asked_under_its_id() {
    let devices = vec![Device { id: "d".into(), name: "Desk".into(), last_seen_at: None }];
    let (mut page, _) = AccountsPage::new(true);
    assert_eq!(page.device_label(&devices), "This device");
    page.toggle_device_menu();
    assert!(page.device_menu_open);
    let call = page.set_target_device(Some("d".into()), true).unwrap();
    assert_eq!(call.target_device.as_deref(), Some("d"));
    assert_eq!(page.device_label(&devices), "Desk");
    let choices = page.device_choices(&devices);
    assert!(!choices[0].selected && choices[1].selected);
    // The same device again changes nothing.
    assert!(page.set_target_device(Some("d".into()), true).is_none());
}

// ---- archived ----

fn chat(id: &str, archived: bool) -> Chat {
    Chat {
        id: id.into(),
        device_id: "d".into(),
        title: None,
        title_line: None,
        archived,
        cwd: None,
        branch: None,
        checkout_id: None,
        config: None,
        last_message_preview: None,
        last_message_at: None,
        created_at: at(0),
        harness_session_id: None,
        harness_session_cwd: None,
        space_id: None,
        last_seen_at: None,
    }
}

#[test]
fn only_archived_rows_show() {
    let chats = vec![chat("a", false), chat("b", true), chat("c", true)];
    let rows = archived_chats(&chats);
    let ids: Vec<&str> = rows.iter().map(|c| c.id.as_str()).collect();
    assert_eq!(ids, ["b", "c"]);
}

#[test]
fn the_archived_page_brings_chats_back() {
    let chats = vec![chat("a", false), chat("b", true)];
    let devices = vec![
        Device { id: "d".into(), name: "Old".into(), last_seen_at: None },
        Device { id: "d".into(), name: "Desk".into(), last_seen_at: None },
    ];
    let mut page = ArchivedPage::new();
    let view = page.view(&chats, &devices, at(90));
    assert_eq!(view.count, Some(1));
    assert_eq!(view.rows[0].title, "Untitled session");
    // The last row under an id names the device.
    assert_eq!(view.rows[0].device, "Desk");
    assert_eq!(view.rows[0].time_ago, "1h");
    assert_eq!(view.rows[0].action_label, "Unarchive");
    assert_eq!(page.view(&chats, &[], at(90)).rows[0].device, "d");
    assert_eq!(page.view(&[], &[], at(90)).count, None);

    assert_eq!(page.unarchive("b".into(), false), None);
    assert_eq!(page.busy, None);
    assert_eq!(
        page.unarchive("b".into(), true),
        Some(Mutation::SetChatArchived { chat_id: "b".into(), archived: false })
    );
    let view = page.view(&chats, &devices, at(90));
    assert!(view.rows[0].busy);
    assert_eq!(view.rows[0].action_label, "Unarchiving…");
    page.unarchive_answered(Err("gone".into()));
    assert_eq!(page.error.as_deref(), Some("Unarchive failed: gone"));
    assert_eq!(page.busy, None);
    page.dismiss_error();
    assert_eq!(page.error, None);
}

// ---- encryption ----

fn phase(name: &str) -> Json {
    object(vec![("phase", text(name))])
}

#[test]
fn phase_copy_never_promises_encryption_before_ready() {
    let not_enrolled =
        object(vec![("phase", text("notEnrolled")), ("remoteVault", Json::Bool(false))]);
    assert_eq!(phase_copy(&not_enrolled).0, "Not set up");
    let existing =
        object(vec![("phase", text("notEnrolled")), ("remoteVault", Json::Bool(true))]);
    assert_eq!(phase_copy(&existing).0, "Approve this device");
    let locked = object(vec![("phase", text("locked")), ("reason", text("no keychain"))]);
    assert!(phase_copy(&locked).1.contains("no keychain"));
    assert_eq!(phase_copy(&phase("ready")).0, "Encrypted");
    assert_eq!(phase_copy(&phase("keyUpdateRequired")).0, "Waiting for encryption keys");
}

#[test]
fn other_phases_have_their_own_copy() {
    for (name, title) in [
        ("pending", "Waiting for approval"),
        ("verificationFailed", "Sync paused"),
        ("revoked", "Removed"),
        ("unavailable", "Not available"),
        ("", "Unknown"),
    ] {
        assert_eq!(phase_copy(&phase(name)).0, title);
    }
    assert_eq!(phase_copy(&Json::Null).0, "Unknown");
    assert_eq!(phase_copy(&Json::Null).1, "");
}

fn loaded(status: Json, reply: Option<Json>) -> EncryptionPage {
    let (mut page, ask) = EncryptionPage::new(true);
    // Opening the page asks for the status.
    assert!(ask && page.status.is_loading());
    page.loaded(Ok(status), reply);
    page
}

#[test]
fn each_phase_offers_its_actions() {
    let actions = |status: Json| loaded(status, None).status_card().unwrap().actions;
    assert_eq!(
        actions(object(vec![("phase", text("notEnrolled")), ("remoteVault", Json::Bool(true))])),
        [StatusAction::RequestEnrollment, StatusAction::OpenRecover, StatusAction::Refresh]
    );
    assert_eq!(actions(phase("notEnrolled")), [StatusAction::Setup, StatusAction::Refresh]);
    assert_eq!(
        actions(phase("pending")),
        [StatusAction::CancelEnrollment, StatusAction::Refresh]
    );
    assert_eq!(
        actions(phase("revoked")),
        [StatusAction::RequestEnrollment, StatusAction::Refresh]
    );
    assert_eq!(actions(phase("ready")), [StatusAction::Refresh]);
    assert_eq!(StatusAction::Setup.label(), "Set up encryption");
    assert!(StatusAction::Setup.is_primary() && !StatusAction::Refresh.is_primary());
}

#[test]
fn the_status_card_shows_keys_code_and_badge() {
    let page = loaded(
        object(vec![
            ("phase", text("ready")),
            ("epoch", Json::Natural(3)),
            ("protection", text("keyFile")),
        ]),
        None,
    );
    let card = page.status_card().unwrap();
    assert!(card.on && card.enabled);
    assert_eq!(card.badge, "On");
    assert_eq!(
        card.keys.as_deref(),
        Some("Key epoch 3 · keys protected by an operator key file (unattended)")
    );
    let page = loaded(
        object(vec![("phase", text("pending")), ("pairingCode", text("1234"))]),
        None,
    );
    let card = page.status_card().unwrap();
    assert_eq!(card.code.as_deref(), Some("1234"));
    assert_eq!(card.badge, "Waiting for approval");
    assert_eq!(card.keys, None);
    assert!(EncryptionPage::new(true).0.status_card().is_none());
}

fn requests() -> Json {
    object(vec![(
        "requests",
        Json::Array(vec![object(vec![
            ("requestId", text("r1")),
            ("pairingCode", text("9")),
            ("deviceId", text("dev")),
        ])]),
    )])
}

#[test]
fn requests_show_only_to_a_member() {
    let page = loaded(phase("ready"), Some(requests()));
    let rows = page.pending_rows();
    assert_eq!(rows.len(), 1);
    assert_eq!(
        rows[0].approve(),
        VaultCall::Approve { request_id: "r1".into(), code: "9".into() }
    );
    assert_eq!(rows[0].reject(), VaultCall::Reject { request_id: "r1".into() });
    assert!(loaded(phase("pending"), Some(requests())).pending_rows().is_empty());
    assert!(loaded(phase("ready"), Some(Json::Null)).pending_rows().is_empty());
    assert!(wants_pending(&Ok(phase("ready"))));
    assert!(!wants_pending(&Err("x".into())));
    assert_eq!(pending_title("abcd"), "Device abcd");
    assert_eq!(member_title("abcd"), "Vault member abcd");
}

#[test]
fn only_another_approved_device_can_be_removed() {
    let device = |id: &str, status: &str, this: bool| {
        object(vec![
            ("deviceId", text(id)),
            ("status", text(status)),
            ("thisDevice", Json::Bool(this)),
        ])
    };
    let page = loaded(
        object(vec![
            ("phase", text("ready")),
            (
                "devices",
                Json::Array(vec![
                    device("a", "active", true),
                    device("b", "active", false),
                    device("c", "revoked", false),
                ]),
            ),
        ]),
        None,
    );
    let rows = page.member_rows();
    let removable: Vec<bool> = rows.iter().map(|r| r.removable).collect();
    assert_eq!(removable, [false, true, false]);
    assert_eq!(rows[2].standing, "Removed");
    assert_eq!(rows[1].revoke(), VaultCall::Revoke { device_id: "b".into() });
}

#[test]
fn setup_shows_the_kit_once() {
    let (mut page, _) = EncryptionPage::new(true);
    assert_eq!(page.action(VaultCall::Setup, false), None);
    assert!(!page.busy);
    assert_eq!(page.action(VaultCall::Setup, true), Some(VaultCall::Setup));
    assert!(page.busy);
    let mut file = serde_json::Map::new();
    file.insert("v".to_string(), serde_json::Value::from(1));
    let mut reply = serde_json::Map::new();
    reply.insert("kit".to_string(), serde_json::Value::from("AAAAA-BBBBB"));
    reply.insert("recoveryFile".to_string(), serde_json::Value::Object(file));
    assert!(page.setup_answered(Ok(serde_json::Value::Object(reply)), true));
    assert!(!page.busy);
    assert_eq!(page.kit_card().unwrap(), ("AAAAA-BBBBB".to_string(), "Copy key and file"));
    let copied = page.copy_kit().unwrap();
    assert_eq!(
        copied,
        "Zeron recovery key: AAAAA-BBBBB\n\nRecovery file:\n{\n  \"v\": 1\n}\n"
    );
    assert_eq!(page.kit_card().unwrap().1, "Copied");
    page.copy_note_over();
    assert_eq!(page.kit_card().unwrap().1, "Copy key and file");
    page.kit_saved();
    assert!(page.kit_card().is_none());
    assert!(page.copy_kit().is_none());
}

#[test]
fn a_setup_without_a_file_keeps_an_empty_one() {
    let (mut page, _) = EncryptionPage::new(true);
    page.setup_answered(Ok(serde_json::Value::Null), true);
    let kit = page.kit.as_ref().unwrap();
    assert_eq!((kit.kit.as_str(), kit.file.as_str()), ("", ""));
    // A key that is no text counts as none.
    let mut reply = serde_json::Map::new();
    reply.insert("kit".to_string(), serde_json::Value::from(7));
    reply.insert("recoveryFile".to_string(), serde_json::Value::Null);
    page.setup_answered(Ok(serde_json::Value::Object(reply)), true);
    let kit = page.kit.as_ref().unwrap();
    assert_eq!((kit.kit.as_str(), kit.file.as_str()), ("", "null"));
    page.setup_replied(Ok(SetupReply { kit: Some("K".into()), file: None }), true);
    let kit = page.kit.as_ref().unwrap();
    assert_eq!((kit.kit.as_str(), kit.file.as_str()), ("K", ""));
    assert!(!page.setup_answered(Err("no".into()), false));
    assert_eq!(page.error.as_deref(), Some("no"));
    assert_eq!(page.kit.as_ref().unwrap().kit, "K");
}

#[test]
fn the_recovery_prompt_takes_a_key() {
    let (mut page, _) = EncryptionPage::new(true);
    assert!(page.submit_prompt("key", true).is_none());
    page.open_recover();
    assert!(page.submit_prompt("   ", true).is_none());
    assert!(page.prompt.is_none());
    page.open_recover();
    assert_eq!(
        page.submit_prompt(" key ", true),
        Some(VaultCall::Recover { kit: "key".into() })
    );
    assert!(page.busy);
    assert!(page.action_answered(Err("bad".into()), true));
    assert_eq!(page.error.as_deref(), Some("bad"));
    page.open_recover();
    page.cancel_prompt();
    assert!(page.prompt.is_none());
}

#[test]
fn a_failed_status_shows_why() {
    let (mut page, ask) = EncryptionPage::new(false);
    assert!(!ask && !page.load(false));
    assert!(matches!(page.status, Loadable::Idle));
    page.loaded(Err("offline".into()), None);
    assert_eq!(page.load_error().as_deref(), Some("offline"));
    assert!(page_subtitle(true).starts_with("This workspace is local-only"));
    assert!(page_subtitle(false).ends_with("stores ciphertext."));
}

// ---- shortcuts ----

fn binding(id: ShortcutId, label: &str, combo: &str) -> Binding {
    Binding { id, label: label.into(), combo: combo.into(), default_combo: combo.into() }
}

fn keymap() -> KeymapConfig {
    KeymapConfig {
        bindings: vec![
            binding(ShortcutId::ToggleSidebar, "Toggle sidebar", "mod-s"),
            binding(ShortcutId::ToggleChanges, "Toggle changes", "mod-r"),
            binding(ShortcutId::ToggleTerminal, "Toggle terminal", "mod-j"),
        ],
    }
}

fn combo(s: &str) -> Option<String> {
    Some(s.to_string())
}

#[test]
fn recording_outcomes() {
    assert_eq!(record_key("escape", None), RecordOutcome::Cancelled);
    assert_eq!(record_key("Escape", combo("mod-escape")), RecordOutcome::Cancelled);
    assert_eq!(record_key("s", combo("mod-s")), RecordOutcome::Assigned("mod-s".into()));
    assert_eq!(
        record_key("k", combo("mod-alt-shift-k")),
        RecordOutcome::Assigned("mod-alt-shift-k".into())
    );
    assert_eq!(
        record_key("tab", combo("ctrl-shift-tab")),
        RecordOutcome::Assigned("ctrl-shift-tab".into())
    );
    // Bare modifiers make no combination: recording goes on.
    assert_eq!(record_key("shift", None), RecordOutcome::Ignored);
    assert_eq!(record_key("ctrl", None), RecordOutcome::Ignored);
}

fn all_ids() -> Vec<ShortcutId> {
    let mut ids = vec![
        ShortcutId::SaveFile,
        ShortcutId::ToggleSidebar,
        ShortcutId::ToggleChanges,
        ShortcutId::ToggleTerminal,
        ShortcutId::NewSession,
        ShortcutId::NextSession,
        ShortcutId::PrevSession,
        ShortcutId::ArchiveSession,
    ];
    ids.extend((1..=9).map(ShortcutId::JumpSession));
    ids
}

#[test]
fn every_shortcut_lands_in_a_rendered_group() {
    let order = group_order();
    for id in all_ids() {
        assert!(
            order.contains(&group(id)),
            "{:?} is grouped under {:?}, which no section shows",
            id,
            group(id)
        );
        assert!(!description(id).is_empty());
    }
    // And every named group has at least one row.
    for name in order {
        assert!(
            all_ids().into_iter().any(|id| group(id) == name),
            "group {:?} would show an empty card",
            name
        );
    }
}

#[test]
fn conflicting_records_are_refused() {
    let keymap = keymap();
    let RecordOutcome::Assigned(combo) = record_key("r", combo("mod-r")) else {
        panic!("expected a combination");
    };
    assert_eq!(
        conflict_owner(&keymap, ShortcutId::ToggleSidebar, &combo),
        Some(ShortcutId::ToggleChanges)
    );
    // A shortcut's own combination is no conflict.
    assert_eq!(conflict_owner(&keymap, ShortcutId::ToggleChanges, &combo), None);
    // A free combination conflicts with nothing.
    assert_eq!(conflict_owner(&keymap, ShortcutId::ToggleSidebar, "mod-shift-x"), None);
}

#[test]
fn recording_binds_a_free_combination() {
    let mut page = ShortcutsPage::new(keymap());
    // Nothing is recorded yet.
    let effect = page.on_key_down("x", combo("mod-x"), "Ctrl X");
    assert!(!effect.handled && !effect.changed);
    // The page takes the focus, so that it sees the keys.
    assert_eq!(page.record(ShortcutId::ToggleSidebar), FocusTarget::Frame);
    assert_eq!(page.helper(), "Press Escape to cancel.");
    // A bare modifier goes on recording.
    let effect = page.on_key_down("shift", None, "");
    assert!(effect.handled && !effect.changed);
    assert!(page.recording.is_some());
    let effect = page.on_key_down("x", combo("mod-x"), "Ctrl X");
    assert!(effect.handled && effect.changed);
    assert_eq!(page.keymap.get(ShortcutId::ToggleSidebar).as_deref(), Some("mod-x"));
    assert!(page.can_restore());
    assert_eq!(page.row(&page.keymap.bindings[0], "Ctrl X"), ("Ctrl X".to_string(), true));
    page.reset_row(ShortcutId::ToggleSidebar);
    assert_eq!(page.keymap, keymap());
    assert!(!page.can_restore());
}

#[test]
fn a_taken_combination_is_refused_by_name() {
    let mut page = ShortcutsPage::new(keymap());
    page.record(ShortcutId::ToggleSidebar);
    assert_eq!(page.row(&page.keymap.bindings[0], "Ctrl S").0, "Press keys…");
    let effect = page.on_key_down("r", combo("mod-r"), "Ctrl R");
    assert!(effect.handled && !effect.changed);
    assert_eq!(page.helper(), "Ctrl R is already assigned to Toggle changes.");
    assert_eq!(page.keymap, keymap());
    page.record(ShortcutId::ToggleSidebar);
    page.on_key_down("ESCAPE", None, "");
    assert!(page.recording.is_none());
    assert_eq!(page.helper(), "Shortcuts must be unique.");
}

#[test]
fn defaults_can_be_restored() {
    let mut page = ShortcutsPage::new(keymap());
    page.keymap.set(ShortcutId::ToggleTerminal, "mod-k".into());
    page.keymap.set(ShortcutId::SaveFile, "mod-q".into());
    assert!(page.keymap.customized());
    page.restore_defaults();
    assert_eq!(page.keymap, keymap());
    assert_eq!(page.keymap.get(ShortcutId::SaveFile), None);
    let map = keymap();
    let panels = group_rows(&map, "Panels");
    assert_eq!(panels.len(), 3);
    assert!(group_rows(&map, "Files").is_empty());
}
