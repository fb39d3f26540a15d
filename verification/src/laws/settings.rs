//! The settings pages: accounts, archived chats, defaults, encryption and shortcuts.

use crate::json::Json;
use crate::laws::ground::filtered_members;
use crate::lists::{find_first, first_at, pointees, search_meaning, search_stops_at};
use crate::model::{Chat, Device, HarnessId};
use crate::popover::{FocusTarget, Loadable};
use crate::settings::accounts;
use crate::settings::accounts::{
    AccountAction, AccountCall, AccountCards, AccountRequest, AccountRow, AccountsPage, AgentAccount,
    AgentAccountsSnapshot, AgentLoginMode, AgentLoginStart, AgentLoginStatus, DeviceChoice, LoginDialog,
    LoginFlow, LoginStarted, PollReply, ProviderTitles,
};
use crate::settings::archived;
use crate::settings::archived::{ArchivedPage, ArchivedView};
use crate::settings::composer::{ComposerDefaults, RememberedModel};
use crate::settings::encryption;
use crate::settings::encryption::{
    EncryptionPage, MemberRow, PendingRow, Prompt, SetupReply, StatusAction, StatusCard, VaultCall,
};
use crate::settings::shortcuts;
use crate::settings::shortcuts::{
    bound_to, clashes, Binding, KeyEffect, KeymapConfig, RecordOutcome, ShortcutId, ShortcutsPage,
};
use crate::shell::frame::Mutation;
use crate::text;
use crate::text::{decimal_text, text_opt};
use crate::time::Timestamp;
use vstd::prelude::*;

verus! {

// ---------------------------------------------------------------------------
// Accounts
// ---------------------------------------------------------------------------

/// A window says how long until it starts over: soon, in minutes, or in hours and minutes.
pub proof fn a_reset_is_told_in_hours_and_minutes(at: Timestamp, now: Timestamp, r: Option<String>, mins: int)
    requires
        call_ensures(accounts::format_reset, (Some(at), now), r),
        mins >= 0,
        mins * 60_000_000_000 <= at@ - now@ < (mins + 1) * 60_000_000_000,
    ensures
        r is Some,
        mins == 0 ==> r->0@ == "resets soon"@,
        1 <= mins < 60 ==> r->0@ == "resets in "@ + decimal_text(mins as nat) + "m"@,
        mins >= 60 && mins % 60 < 10 ==> r->0@ == "resets in "@ + decimal_text((mins / 60) as nat) + "h "@ + (
        "0"@ + decimal_text((mins % 60) as nat)) + "m"@,
        mins >= 60 && mins % 60 >= 10 ==> r->0@ == "resets in "@ + decimal_text((mins / 60) as nat) + "h "@
            + decimal_text((mins % 60) as nat) + "m"@,
{
    let d = at@ - now@;
    assert((d / 1_000_000_000) / 60 == mins);
}

/// A window that is over starts over soon, and one without an end says nothing.
pub proof fn a_past_reset_is_soon(at: Timestamp, now: Timestamp, r: Option<String>, none: Option<String>)
    requires
        call_ensures(accounts::format_reset, (Some(at), now), r),
        at@ <= now@,
        call_ensures(accounts::format_reset, (None, now), none),
    ensures
        r matches Some(s) && s@ == "resets soon"@,
        none is None,
{
}

/// A provider lists its own accounts, the active ones first.
pub proof fn a_provider_lists_its_own_accounts(
    snapshot: &AgentAccountsSnapshot,
    harness: HarnessId,
    out: Vec<&AgentAccount>,
    a: AgentAccount,
)
    requires
        call_ensures(accounts::provider_accounts, (snapshot, harness), out),
    ensures
        pointees(out@).contains(a) <==> snapshot.accounts@.contains(a) && a.harness == harness,
        forall|i: int, j: int|
            0 <= i < j < out@.len() && (#[trigger] out@[j]).active ==> (#[trigger] out@[i]).active,
{
    accounts::provider_lists_its_accounts(snapshot.accounts@, harness, a);
    let on = accounts::of_provider(harness, true);
    let off = accounts::of_provider(harness, false);
    filtered_members(snapshot.accounts@, on);
    filtered_members(snapshot.accounts@, off);
    let x = snapshot.accounts@.filter(on);
    let y = snapshot.accounts@.filter(off);
    assert forall|i: int, j: int| 0 <= i < j < out@.len() && (#[trigger] out@[j]).active implies (
    #[trigger] out@[i]).active by {
        assert(pointees(out@)[i] == *out@[i] && pointees(out@)[j] == *out@[j]);
        if j >= x.len() {
            assert(pointees(out@)[j] == y[j - x.len()]);
            assert(off(y[j - x.len()]));
        }
        if i < x.len() {
            assert(pointees(out@)[i] == x[i]);
            assert(on(x[i]));
        }
    }
}

/// The list is asked for on the chosen device; without an engine the page says so.
pub proof fn the_list_is_asked_for_on_the_chosen_device(
    p: &mut AccountsPage,
    force: bool,
    attached: bool,
    call: Option<AccountCall>,
    q: &mut AccountsPage,
    target: Option<String>,
    moved: Option<AccountCall>,
)
    requires
        call_ensures(AccountsPage::load, (p, force, attached), call),
        call_ensures(AccountsPage::set_target_device, (q, target, attached), moved),
    ensures
        attached ==> final(p).snapshot is Loading && (call matches Some(c) && c.request == (
        AccountRequest::List { force_usage: force }) && c.target_device == old(p).target_device),
        !attached ==> call is None && (final(p).snapshot matches Loadable::Error(m) && m@
            == "Engine not connected"@),
        final(p).login == old(p).login && final(p).target_device == old(p).target_device,
        !final(q).device_menu_open,
        text_opt(old(q).target_device) == text_opt(target) ==> moved is None && final(q).login == old(q).login
            && final(q).snapshot == old(q).snapshot,
        text_opt(old(q).target_device) != text_opt(target) ==> final(q).target_device == target && final(q).login is None && !final(q).polling && (moved is Some <==> attached) && (moved matches Some(c)
            ==> c.target_device == target),
{
}

/// What arrives is shown; a menu toggles; an error is dismissed.
pub proof fn what_arrives_is_shown(
    p: &mut AccountsPage,
    result: Result<AgentAccountsSnapshot, String>,
    q: &mut AccountsPage,
    r: &mut AccountsPage,
)
    requires
        call_ensures(AccountsPage::loaded, (p, result), ()),
        call_ensures(AccountsPage::toggle_device_menu, (q,), ()),
        call_ensures(AccountsPage::dismiss_error, (r,), ()),
    ensures
        result matches Ok(s) ==> final(p).snapshot == Loadable::Ready(s),
        result matches Err(m) ==> final(p).snapshot == Loadable::<AgentAccountsSnapshot>::Error(m),
        final(p).login == old(p).login,
        final(q).device_menu_open != old(q).device_menu_open && final(q).snapshot == old(q).snapshot,
        final(r).error is None && final(r).snapshot == old(r).snapshot,
{
}

/// An action is for the account that it was started on, which is busy until it is answered.
pub proof fn an_action_is_for_its_account(
    p: &mut AccountsPage,
    action: AccountAction,
    id: &String,
    harness: HarnessId,
    attached: bool,
    call: Option<AccountCall>,
    q: &mut AccountsPage,
    result: Result<(), String>,
    next: Option<AccountCall>,
)
    requires
        call_ensures(AccountsPage::account_action, (p, action, id, harness, attached), call),
        call_ensures(AccountsPage::action_answered, (q, result, attached), next),
    ensures
        !attached ==> call is None && *final(p) == *old(p),
        attached ==> final(p).busy_account == Some(*id) && final(p).error is None && (call matches Some(c)
            && c.target_device == old(p).target_device && c.request == (AccountRequest::Act {
            action,
            id: *id,
            harness,
        })),
        final(q).busy_account is None,
        result matches Err(m) ==> next is None && final(q).error == Some(m) && final(q).snapshot
            == old(q).snapshot,
        result is Ok ==> (next is Some <==> attached) && final(q).error == old(q).error && (
        next matches Some(c) ==> c.request == (AccountRequest::List { force_usage: false })),
{
}

/// A login starts for its harness; its page is opened; a code is pasted or the browser polled.
pub proof fn a_login_starts_for_its_harness(
    p: &mut AccountsPage,
    harness: HarnessId,
    attached: bool,
    call: Option<AccountCall>,
    q: &mut AccountsPage,
    result: Result<AgentLoginStart, String>,
    next: LoginStarted,
)
    requires
        call_ensures(AccountsPage::start_login, (p, harness, attached), call),
        call_ensures(AccountsPage::login_started, (q, result, attached), next),
    ensures
        !attached ==> call is None && *final(p) == *old(p),
        attached ==> final(p).login == Some(LoginFlow::Starting) && final(p).error is None && (
        call matches Some(c) && c.request == (AccountRequest::StartLogin { harness }) && c.target_device
            == old(p).target_device),
        result matches Ok(start) ==> {
            &&& next.open_url == Some(start.url)
            &&& start.mode == AgentLoginMode::PasteCode ==> next.poll is None && final(q).code@.len() == 0 && (
            final(q).login matches Some(LoginFlow::PasteCode { start: s, submitting, error }) && s == start
                && !submitting && error is None)
            &&& start.mode == AgentLoginMode::Browser ==> (final(q).login matches Some(
                LoginFlow::Browser { start: s, message, error },
            ) && s == start && message is None && error is None) && (next.poll is Some <==> attached) && (
            next.poll matches Some(c) ==> c.request == (AccountRequest::PollLogin {
                login_id: start.login_id,
            }))
        },
        result matches Err(m) ==> next.open_url is None && next.poll is None && final(q).login is None && (
        final(q).error matches Some(e) && e@ == "Login failed to start: "@ + m@),
{
}

/// A pasted code is sent once, without surrounding spaces, for the login under way.
pub proof fn a_pasted_code_is_sent_once(
    p: &mut AccountsPage,
    attached: bool,
    call: Option<AccountCall>,
    code: &str,
    plain: String,
    start: AgentLoginStart,
    submitting: bool,
    error: Option<String>,
)
    requires
        call_ensures(AccountsPage::submit_code, (p, attached), call),
        code@ == old(p).code@,
        call_ensures(text::trim, (code,), plain),
        old(p).login == Some(LoginFlow::PasteCode { start, submitting, error }),
    ensures
        call is Some <==> attached && !submitting && plain@.len() > 0,
        call matches Some(c) ==> c.target_device == old(p).target_device && (
        c.request matches AccountRequest::CompleteLogin { login_id, code: sent } && login_id == start.login_id
            && sent@ == plain@),
        submitting || plain@.len() == 0 ==> *final(p) == *old(p),
        !submitting && plain@.len() > 0 ==> (final(p).login matches Some(
            LoginFlow::PasteCode { start: s, submitting: busy, .. },
        ) && s == start && busy),
{
}

/// A code that was taken ends the login and asks for the list with its usage; one that was refused says so and
/// can be sent again.
pub proof fn a_refused_code_can_be_sent_again(
    p: &mut AccountsPage,
    result: Result<(), String>,
    attached: bool,
    call: Option<AccountCall>,
)
    requires
        call_ensures(AccountsPage::code_answered, (p, result, attached), call),
    ensures
        result is Ok ==> final(p).login is None && (call is Some <==> attached) && (call matches Some(c)
            ==> c.request == (AccountRequest::List { force_usage: true })),
        result matches Err(m) ==> call is None && (old(p).login matches Some(
            LoginFlow::PasteCode { start, .. },
        ) ==> (final(p).login matches Some(LoginFlow::PasteCode { start: s, submitting, error }) && s == start
            && !submitting && error == Some(m))),
        result is Err && !(old(p).login matches Some(LoginFlow::PasteCode { .. })) ==> *final(p) == *old(p),
{
}

/// Polling goes on while the login is pending, ends it when it is done, and shows what went wrong.
pub proof fn polling_goes_on_while_pending(
    p: &mut AccountsPage,
    reply: PollReply,
    attached: bool,
    r: (bool, Option<AccountCall>),
    start: AgentLoginStart,
    message: Option<String>,
    error: Option<String>,
)
    requires
        call_ensures(AccountsPage::poll_answered, (p, reply, attached), r),
        old(p).login == Some(LoginFlow::Browser { start, message, error }),
    ensures
        !r.0 <==> (reply matches PollReply::Answer(poll) && poll.status == AgentLoginStatus::Pending),
        (reply matches PollReply::Answer(poll) && poll.status == AgentLoginStatus::Done) ==> final(p).login is None && (r.1 is Some <==> attached) && (r.1 matches Some(c) ==> c.request == (
        AccountRequest::List { force_usage: true })),
        (reply matches PollReply::Answer(poll) && poll.status == AgentLoginStatus::Pending) ==> r.1 is None && (
        final(p).login matches Some(LoginFlow::Browser { start: s, message: m, error: e }) && s == start && e
            == error && (reply->Answer_0.message is Some ==> m == reply->Answer_0.message) && (
        reply->Answer_0.message is None ==> m == message)),
        reply matches PollReply::Failed(m) ==> (final(p).login matches Some(
            LoginFlow::Browser { error: Some(e), .. },
        ) && e@ == "Poll failed: "@ + m@),
        reply is Malformed ==> (final(p).login matches Some(LoginFlow::Browser { error: Some(e), .. }) && e@
            == "Poll failed: malformed reply"@),
        (reply matches PollReply::Answer(poll) && poll.status == AgentLoginStatus::Error) ==> (final(p).login matches Some(LoginFlow::Browser { error: Some(e), .. }) && (match reply->Answer_0.message {
            Some(m) => e@ == m@,
            None => e@ == "Login failed"@,
        })),
{
}

/// A reply that nobody waits for is dropped, and a page waits only for the login that it shows.
pub proof fn a_page_waits_for_the_login_it_shows(
    p: &mut AccountsPage,
    reply: PollReply,
    attached: bool,
    r: (bool, Option<AccountCall>),
    q: &AccountsPage,
    id: &str,
    waits: bool,
)
    requires
        call_ensures(AccountsPage::poll_answered, (p, reply, attached), r),
        call_ensures(AccountsPage::waits_for, (q, id), waits),
    ensures
        !(old(p).login matches Some(LoginFlow::Browser { .. })) ==> r.0 && r.1 is None && *final(p) == *old(p),
        waits <==> (q.login matches Some(LoginFlow::Browser { start, .. }) && start.login_id@ == id@),
{
}

/// Cancelling ends the login that is under way, with the engine too.
pub proof fn cancelling_ends_the_login(p: &mut AccountsPage, attached: bool, call: Option<AccountCall>)
    requires
        call_ensures(AccountsPage::cancel_login, (p, attached), call),
    ensures
        final(p).login is None && !final(p).polling,
        old(p).login is None || old(p).login == Some(LoginFlow::Starting) || !attached ==> call is None,
        old(p).login matches Some(LoginFlow::PasteCode { start, .. }) ==> (attached ==> (call matches Some(c)
            && c.request == (AccountRequest::CancelLogin { login_id: start.login_id }))),
        old(p).login matches Some(LoginFlow::Browser { start, .. }) ==> (attached ==> (call matches Some(c)
            && c.request == (AccountRequest::CancelLogin { login_id: start.login_id }))),
        final(p).snapshot == old(p).snapshot,
{
}

/// The dialog shows the login under way.
pub proof fn the_dialog_shows_the_login(p: &AccountsPage, dialog: Option<LoginDialog>)
    requires
        call_ensures(AccountsPage::login_dialog, (p,), dialog),
    ensures
        dialog is Some <==> p.login is Some,
        p.login == Some(LoginFlow::Starting) ==> dialog == Some(LoginDialog::Starting),
        p.login matches Some(LoginFlow::PasteCode { start, submitting, error }) ==> (dialog matches Some(
            LoginDialog::PasteCode { url, error: e, submitting: busy, submit_label },
        ) && url == start.url && e == error && busy == submitting && submit_label@ == (if submitting {
            "Verifying…"@
        } else {
            "Continue"@
        })),
        p.login matches Some(LoginFlow::Browser { start, message, error }) ==> (dialog matches Some(
            LoginDialog::Browser { url, waiting, error: e },
        ) && url == start.url && e == error && (match message {
            Some(m) => waiting@ == m@,
            None => waiting@ == "Waiting…"@,
        })),
{
}

/// A device is named, or shown by its id where it is unknown; the choices mark the chosen one.
pub proof fn devices_are_chosen_by_name(p: &AccountsPage, devices: &[Device], r: String, rows: Vec<DeviceChoice>, i: int)
    requires
        call_ensures(AccountsPage::device_label, (p, devices), r),
        call_ensures(AccountsPage::device_choices, (p, devices), rows),
    ensures
        p.target_device is None ==> r@ == "This device"@,
        p.target_device matches Some(id) ==> (forall|k: int|
            0 <= k < devices@.len() ==> (#[trigger] devices@[k]).id@ != id@) ==> r@ == id@,
        p.target_device matches Some(id) ==> (0 <= i < devices@.len() && devices@[i].id@ == id@ && (forall|
            k: int,
        |
            0 <= k < i ==> (#[trigger] devices@[k]).id@ != id@) ==> r@ == devices@[i].name@),
        rows@.len() == devices@.len() + 1,
        rows@[0].id is None && (rows@[0].selected <==> p.target_device is None),
        0 <= i < devices@.len() ==> rows@[i + 1].id == Some(devices@[i].id) && rows@[i + 1].name
            == devices@[i].name && (rows@[i + 1].selected <==> (p.target_device matches Some(id) && id@
            == devices@[i].id@)),
{
    if p.target_device is Some {
        let id = p.target_device->0@;
        let q = accounts::device_is(id);
        search_meaning(devices@, q);
        if first_at(devices@, q) is Some {
            assert(q(devices@[first_at(devices@, q)->0]));
        }
        if 0 <= i < devices@.len() && devices@[i].id@ == id && (forall|k: int|
            0 <= k < i ==> (#[trigger] devices@[k]).id@ != id) {
            assert(q(devices@[i]));
            assert forall|k: int| 0 <= k < i implies !q(#[trigger] devices@[k]) by {
                assert(devices@[k].id@ != id);
            }
            search_stops_at(devices@, q, i);
        }
    }
}

/// A row tells of its account: by address, else by name; it can be switched to where it is not active.
pub proof fn a_row_tells_of_its_account(account: &AgentAccount, busy: &Option<String>, now: Timestamp, row: AccountRow)
    requires
        call_ensures(accounts::account_row, (account, busy, now), row),
    ensures
        row.id == account.id && row.harness == account.harness && row.plan == account.plan_label,
        row.active == account.active,
        row.can_switch <==> account.switchable && !account.active,
        row.busy <==> (*busy matches Some(b) && b@ == account.id@),
        account.email matches Some(e) ==> row.name@ == e@,
        account.email is None ==> (account.display_name matches Some(n) ==> row.name@ == n@),
        account.email is None && account.display_name is None ==> row.name@ == "Unknown account"@,
        row.meters@.len() == account.usage_windows@.len(),
        forall|i: int|
            0 <= i < row.meters@.len() ==> (#[trigger] row.meters@[i]).percent
                == account.usage_windows@[i].percent && row.meters@[i].level
                == account.usage_windows@[i].level && row.meters@[i].label
                == account.usage_windows@[i].label,
        forall|i: int|
            0 <= i < row.meters@.len() && account.usage_windows@[i].resets_at is None ==> (
            #[trigger] row.meters@[i]).line@ == decimal_text(account.usage_windows@[i].percent as nat)
                + "%"@,
{
}

/// A meter tells how much is used and when it starts over.
pub proof fn a_meter_tells_when_it_starts_over(
    account: &AgentAccount,
    busy: &Option<String>,
    now: Timestamp,
    row: AccountRow,
    i: int,
    reset: Option<String>,
)
    requires
        call_ensures(accounts::account_row, (account, busy, now), row),
        0 <= i < account.usage_windows@.len(),
        call_ensures(accounts::format_reset, (account.usage_windows@[i].resets_at, now), reset),
    ensures
        reset matches Some(s) ==> row.meters@[i].line@ == decimal_text(
            account.usage_windows@[i].percent as nat,
        ) + "%"@ + " · "@ + s@,
{
    let m = row.meters@[i];
}

/// The pages begin blank.
pub proof fn pages_begin_blank(
    attached: bool,
    r: (AccountsPage, Option<AccountCall>),
    e: (EncryptionPage, bool),
    a: ArchivedPage,
    keymap: KeymapConfig,
    s: ShortcutsPage,
    first: String,
    titles: ProviderTitles,
)
    requires
        call_ensures(AccountsPage::new, (attached,), r),
        call_ensures(EncryptionPage::new, (attached,), e),
        call_ensures(ArchivedPage::new, (), a),
        call_ensures(ShortcutsPage::new, (keymap,), s),
        call_ensures(ProviderTitles::new, (first,), titles),
    ensures
        r.0.target_device is None && r.0.login is None && r.0.busy_account is None && r.0.error is None
            && !r.0.polling && !r.0.device_menu_open,
        attached ==> r.0.snapshot is Loading && (r.1 matches Some(c) && c.target_device is None && c.request == (
        AccountRequest::List { force_usage: false })),
        !attached ==> r.0.snapshot is Error && r.1 is None,
        e.1 == attached && (attached ==> e.0.status is Loading) && (!attached ==> e.0.status is Idle),
        e.0.kit is None && e.0.pending@.len() == 0 && e.0.prompt is None && !e.0.busy,
        a.error is None && a.busy is None,
        s.keymap == keymap && s.recording is None && s.conflict_notice is None,
        titles.claude_code == first && titles.codex@ == "Codex"@,
{
}

/// The cards are those of the two providers, each with its own accounts and its own warning.
pub proof fn each_provider_has_its_card(
    p: &AccountsPage,
    titles: &ProviderTitles,
    now: Timestamp,
    cards: AccountCards,
    snapshot: AgentAccountsSnapshot,
    view: &AgentAccountsSnapshot,
    own: Vec<&AgentAccount>,
    k: int,
)
    requires
        call_ensures(AccountsPage::cards, (p, titles, now), cards),
        p.snapshot == Loadable::Ready(snapshot),
        *view == snapshot,
        call_ensures(accounts::provider_accounts, (view, HarnessId::Codex), own),
    ensures
        cards matches AccountCards::Cards(list) && list@.len() == 2 && list@[0].harness
            == HarnessId::ClaudeCode && list@[1].harness == HarnessId::Codex && list@[0].name@
            == titles.claude_code@ && list@[1].name@ == titles.codex@ && list@[1].rows@.len() == own@.len(),
        cards matches AccountCards::Cards(list) ==> (0 <= k < own@.len() ==> list@[1].rows@[k].id
            == own@[k].id),
        cards matches AccountCards::Cards(list) ==> (list@[1].warning matches Some(w) ==> exists|i: int|
            0 <= i < snapshot.warnings@.len() && (#[trigger] snapshot.warnings@[i]).harness == HarnessId::Codex
                && snapshot.warnings@[i].message == w),
{
    let list = cards->Cards_0@;
    let c = list[1];
    assert(list[0].harness == HarnessId::ClaudeCode);
    assert(pointees(own@).len() == own@.len());
    if 0 <= k < own@.len() {
        assert(pointees(own@)[k] == *own@[k]);
        let row = c.rows@[k];
    }
    let q = accounts::warns_of(HarnessId::Codex);
    search_meaning(snapshot.warnings@, q);
    if c.warning is Some {
        let i = first_at(snapshot.warnings@, q)->0;
        assert(q(snapshot.warnings@[i]));
    }
}

/// The page without its accounts: a skeleton while they load, or what went wrong.
pub proof fn cards_wait_for_the_accounts(p: &AccountsPage, titles: &ProviderTitles, now: Timestamp, cards: AccountCards)
    requires
        call_ensures(AccountsPage::cards, (p, titles, now), cards),
    ensures
        p.snapshot is Idle || p.snapshot is Loading ==> cards is Skeleton,
        p.snapshot matches Loadable::Error(m) ==> cards == AccountCards::Failed(m),
        p.snapshot is Ready ==> cards is Cards,
{
}

// ---------------------------------------------------------------------------
// Archived chats
// ---------------------------------------------------------------------------

/// The page lists the archived chats, and only those.
pub proof fn the_page_lists_archived_chats(
    chats: &[Chat],
    rows: Vec<&Chat>,
    c: Chat,
    p: &ArchivedPage,
    devices: &[Device],
    now: Timestamp,
    view: ArchivedView,
    k: int,
)
    requires
        call_ensures(archived::archived_chats, (chats,), rows),
        call_ensures(ArchivedPage::view, (p, chats, devices, now), view),
    ensures
        pointees(rows@).contains(c) <==> chats@.contains(c) && c.archived,
        view.rows@.len() == rows@.len(),
        view.error == p.error,
        rows@.len() == 0 <==> view.count is None,
        view.count matches Some(n) ==> n == rows@.len(),
        0 <= k < rows@.len() ==> {
            let row = view.rows@[k];
            &&& row.chat_id == rows@[k].id
            &&& match rows@[k].title {
                Some(title) => row.title@ == title@,
                None => row.title@ == "Untitled session"@,
            }
            &&& row.busy <==> (p.busy matches Some(b) && b@ == rows@[k].id@)
            &&& row.busy ==> row.action_label@ == "Unarchiving…"@
            &&& !row.busy ==> row.action_label@ == "Unarchive"@
        },
        0 <= k < rows@.len() && (forall|i: int|
            0 <= i < devices@.len() ==> (#[trigger] devices@[i]).id@ != rows@[k].device_id@)
            ==> view.rows@[k].device@ == rows@[k].device_id@,
{
    filtered_members(chats@, archived::is_archived());
    assert(pointees(rows@).len() == rows@.len());
    assert(rows.len() == rows@.len());
    if 0 <= k < rows@.len() {
        assert(pointees(rows@)[k] == *rows@[k]);
        let row = view.rows@[k];
        if forall|i: int| 0 <= i < devices@.len() ==> (#[trigger] devices@[i]).id@ != rows@[k].device_id@ {
            unknown_device_is_its_id(devices@, rows@[k].device_id@);
        }
    }
}

proof fn unknown_device_is_its_id(devices: Seq<Device>, id: Seq<char>)
    requires
        forall|i: int| 0 <= i < devices.len() ==> (#[trigger] devices[i]).id@ != id,
    ensures
        archived::device_label(devices, id) == id,
    decreases devices.len(),
{
    if devices.len() > 0 {
        assert(devices[devices.len() - 1].id@ != id);
        let front = devices.drop_last();
        assert forall|i: int| 0 <= i < front.len() implies (#[trigger] front[i]).id@ != id by {
            assert(front[i] == devices[i]);
        }
        unknown_device_is_its_id(front, id);
    }
}

/// An archived chat is told by its age, its place and its device.
pub proof fn an_archived_chat_is_told_by_age_place_and_device(
    chats: &[Chat],
    rows: Vec<&Chat>,
    p: &ArchivedPage,
    devices: &[Device],
    now: Timestamp,
    view: ArchivedView,
    k: int,
    chat: &Chat,
    recent: Timestamp,
    age: String,
    place: Option<String>,
    d: int,
)
    requires
        call_ensures(archived::archived_chats, (chats,), rows),
        call_ensures(ArchivedPage::view, (p, chats, devices, now), view),
        0 <= k < rows@.len(),
        *chat == *rows@[k],
        call_ensures(Chat::recent_at, (chat,), recent),
        call_ensures(crate::project::format_time_ago, (recent, now), age),
        call_ensures(crate::project::chat_location, (chat,), place),
    ensures
        view.rows@[k].time_ago@ == age@,
        text_opt(view.rows@[k].location) == text_opt(place),
        0 <= d < devices@.len() && devices@[d].id@ == chat.device_id@ && (forall|j: int|
            0 <= j < devices@.len() && j != d ==> (#[trigger] devices@[j]).id@ != chat.device_id@)
            ==> view.rows@[k].device@ == devices@[d].name@,
{
    assert(pointees(rows@)[k] == *rows@[k]);
    let row = view.rows@[k];
    if 0 <= d < devices@.len() && devices@[d].id@ == chat.device_id@ && (forall|j: int|
        0 <= j < devices@.len() && j != d ==> (#[trigger] devices@[j]).id@ != chat.device_id@) {
        known_device_is_named(devices@, chat.device_id@, d);
    }
}

proof fn known_device_is_named(devices: Seq<Device>, id: Seq<char>, d: int)
    requires
        0 <= d < devices.len(),
        devices[d].id@ == id,
        forall|j: int| 0 <= j < devices.len() && j != d ==> (#[trigger] devices[j]).id@ != id,
    ensures
        archived::device_label(devices, id) == devices[d].name@,
    decreases devices.len(),
{
    if d < devices.len() - 1 {
        assert(devices[devices.len() - 1].id@ != id);
        let front = devices.drop_last();
        assert forall|j: int| 0 <= j < front.len() && j != d implies (#[trigger] front[j]).id@ != id by {
            assert(front[j] == devices[j]);
        }
        known_device_is_named(front, id, d);
    }
}

/// A chat is taken out of the archive, one at a time.
pub proof fn a_chat_is_taken_out_of_the_archive(
    p: &mut ArchivedPage,
    id: String,
    attached: bool,
    call: Option<Mutation>,
    q: &mut ArchivedPage,
    result: Result<(), String>,
    r: &mut ArchivedPage,
)
    requires
        call_ensures(ArchivedPage::unarchive, (p, id, attached), call),
        call_ensures(ArchivedPage::unarchive_answered, (q, result), ()),
        call_ensures(ArchivedPage::dismiss_error, (r,), ()),
    ensures
        !attached ==> call is None && *final(p) == *old(p),
        attached ==> call == Some(Mutation::SetChatArchived { chat_id: id, archived: false }) && final(p).busy
            == Some(id) && final(p).error is None,
        final(q).busy is None,
        result is Ok ==> final(q).error == old(q).error,
        result matches Err(m) ==> (final(q).error matches Some(e) && e@ == "Unarchive failed: "@ + m@),
        final(r).error is None && final(r).busy == old(r).busy,
{
}

// ---------------------------------------------------------------------------
// Defaults
// ---------------------------------------------------------------------------

/// A remembered model is remembered for its harness, and those of the others stay.
pub proof fn a_model_is_remembered_for_its_harness(
    d: &mut ComposerDefaults,
    harness: HarnessId,
    id: String,
    label: String,
    other: HarnessId,
    before: &ComposerDefaults,
    was: Option<&RememberedModel>,
    after: &ComposerDefaults,
    now: Option<&RememberedModel>,
)
    requires
        call_ensures(ComposerDefaults::remember_model, (d, harness, id, label), ()),
        *before == *old(d),
        *after == *final(d),
        call_ensures(ComposerDefaults::model_for, (before, other), was),
        call_ensures(ComposerDefaults::model_for, (after, other), now),
    ensures
        other == harness ==> (now matches Some(m) && m.id == id && m.label == label),
        other != harness ==> (match (was, now) {
            (Some(a), Some(b)) => *a == *b,
            (None, None) => true,
            _ => false,
        }),
        final(d).harness == Some(harness),
        final(d).reasoning == old(d).reasoning,
{
}

/// What cannot be read counts as nothing chosen.
pub proof fn unreadable_defaults_are_empty(
    read: Option<ComposerDefaults>,
    d: ComposerDefaults,
    view: &ComposerDefaults,
    h: HarnessId,
    m: Option<&RememberedModel>,
)
    requires
        call_ensures(ComposerDefaults::or_default, (read,), d),
        *view == d,
        call_ensures(ComposerDefaults::model_for, (view, h), m),
    ensures
        read matches Some(r) ==> d == r,
        read is None ==> d.harness is None && d.reasoning is None && m is None,
{
}

// ---------------------------------------------------------------------------
// Encryption
// ---------------------------------------------------------------------------

/// A phase has its title.
pub proof fn a_phase_has_its_title(
    status: &Json,
    r: (&'static str, String),
    kp: &str,
    phase: String,
    kv: &str,
    remote: bool,
    kr: &str,
    reason: String,
)
    requires
        call_ensures(encryption::phase_copy, (status,), r),
        kp@ == "phase"@ && kv@ == "remoteVault"@ && kr@ == "reason"@,
        call_ensures(Json::get_text_or_empty, (status, kp), phase),
        call_ensures(Json::get_flag, (status, kv), remote),
        call_ensures(Json::get_text_or_empty, (status, kr), reason),
    ensures
        phase@ == "ready"@ ==> r.0@ == "Encrypted"@,
        phase@ == "notEnrolled"@ && remote ==> r.0@ == "Approve this device"@,
        phase@ == "notEnrolled"@ && !remote ==> r.0@ == "Not set up"@,
        phase@ == "pending"@ ==> r.0@ == "Waiting for approval"@,
        phase@ == "locked"@ ==> r.0@ == "Unlock this device"@ && r.1@
            == "Secure key storage is unavailable: "@ + reason@,
        phase@ == "keyUpdateRequired"@ ==> r.0@ == "Waiting for encryption keys"@,
        phase@ == "verificationFailed"@ ==> r.0@ == "Sync paused"@ && r.1@ == "Data could not be verified: "@
            + reason@,
        phase@ == "revoked"@ ==> r.0@ == "Removed"@,
        phase@ == "unavailable"@ ==> r.0@ == "Not available"@ && r.1@ == reason@,
{
    reveal_strlit("ready");
    reveal_strlit("notEnrolled");
    reveal_strlit("pending");
    reveal_strlit("locked");
    reveal_strlit("keyUpdateRequired");
    reveal_strlit("verificationFailed");
    reveal_strlit("revoked");
    reveal_strlit("unavailable");
    assert("ready"@.len() == 5 && "notEnrolled"@.len() == 11 && "pending"@.len() == 7 && "locked"@.len() == 6
        && "keyUpdateRequired"@.len() == 17 && "verificationFailed"@.len() == 18 && "revoked"@.len() == 7
        && "unavailable"@.len() == 11);
    assert("pending"@[0] == 'p' && "revoked"@[0] == 'r' && "notEnrolled"@[0] == 'n' && "unavailable"@[0]
        == 'u');
}

/// The page asks a connected engine, keeps what it shows while it does, and shows requests of others only once
/// this device is in the vault.
pub proof fn requests_are_shown_to_members_only(
    p: &mut EncryptionPage,
    attached: bool,
    ask: bool,
    q: &mut EncryptionPage,
    status: Result<Json, String>,
    reply: Option<Json>,
    view: &Result<Json, String>,
    wants: bool,
    value: &Json,
    kp: &str,
    phase: Option<String>,
)
    requires
        call_ensures(EncryptionPage::load, (p, attached), ask),
        call_ensures(EncryptionPage::loaded, (q, status, reply), ()),
        *view == status,
        call_ensures(encryption::wants_pending, (view,), wants),
        kp@ == "phase"@,
        status matches Ok(v) ==> *value == v,
        call_ensures(Json::get_text, (value, kp), phase),
    ensures
        ask == attached,
        attached && old(p).status is Idle ==> final(p).status is Loading,
        !(attached && old(p).status is Idle) ==> *final(p) == *old(p),
        wants <==> status is Ok && (phase matches Some(s) && s@ == "ready"@),
        !wants ==> final(q).pending@.len() == 0,
        status matches Ok(v) ==> final(q).status == Loadable::Ready(v),
        status matches Err(m) ==> final(q).status == Loadable::<Json>::Error(m),
        final(q).kit == old(q).kit && final(q).busy == old(q).busy,
{
}

/// An action goes to a connected engine as it is; the page is busy until it is answered.
pub proof fn an_action_makes_the_page_busy(
    p: &mut EncryptionPage,
    call: VaultCall,
    attached: bool,
    r: Option<VaultCall>,
    q: &mut EncryptionPage,
    result: Result<(), String>,
    ask: bool,
)
    requires
        call_ensures(EncryptionPage::action, (p, call, attached), r),
        call_ensures(EncryptionPage::action_answered, (q, result, attached), ask),
    ensures
        attached ==> r == Some(call) && final(p).busy && final(p).error is None,
        !attached ==> r is None && *final(p) == *old(p),
        !final(q).busy && ask == attached,
        result matches Err(m) ==> final(q).error == Some(m),
        result is Ok ==> final(q).error == old(q).error,
        final(p).kit == old(p).kit && final(q).kit == old(q).kit,
{
}

/// A set-up brings the recovery key and its file, to be copied together and shown until they are saved.
pub proof fn a_recovery_key_is_shown_until_saved(
    p: &mut EncryptionPage,
    reply: SetupReply,
    attached: bool,
    ask: bool,
    q: &mut EncryptionPage,
    copied: Option<String>,
    r: &mut EncryptionPage,
    s: &mut EncryptionPage,
    view: &EncryptionPage,
    card: Option<(String, &'static str)>,
)
    requires
        call_ensures(EncryptionPage::setup_replied, (p, Ok(reply), attached), ask),
        *old(q) == *final(p),
        call_ensures(EncryptionPage::copy_kit, (q,), copied),
        call_ensures(EncryptionPage::copy_note_over, (r,), ()),
        call_ensures(EncryptionPage::kit_saved, (s,), ()),
        *view == *final(q),
        call_ensures(EncryptionPage::kit_card, (view,), card),
    ensures
        !final(p).busy && !final(p).kit_copied,
        final(p).kit matches Some(k) && (match reply.kit {
            Some(key) => k.kit@ == key@,
            None => k.kit@.len() == 0,
        }) && (match reply.file {
            Some(file) => k.file@ == file@,
            None => k.file@.len() == 0,
        }),
        copied matches Some(c) && c@ == "Zeron recovery key: "@ + final(p).kit->0.kit@
            + "\n\nRecovery file:\n"@ + final(p).kit->0.file@ + "\n"@,
        final(q).kit_copied,
        card matches Some(c) && c.0@ == final(p).kit->0.kit@ && c.1@ == "Copied"@,
        !final(r).kit_copied && final(r).kit == old(r).kit,
        final(s).kit is None,
{
}

/// A set-up that failed says so and leaves an earlier key alone.
pub proof fn a_failed_setup_keeps_the_key(
    p: &mut EncryptionPage,
    message: String,
    attached: bool,
    ask: bool,
)
    requires
        call_ensures(EncryptionPage::setup_replied, (p, Err(message), attached), ask),
    ensures
        final(p).error matches Some(e) && e@ == message@,
        final(p).kit == old(p).kit && final(p).kit_copied == old(p).kit_copied && !final(p).busy,
        ask == attached,
{
}

/// A recovery key is sent without surrounding spaces, and only where one was typed.
pub proof fn a_recovery_key_is_sent_plain(
    a: &mut EncryptionPage,
    b: &mut EncryptionPage,
    typed: &str,
    plain: String,
    attached: bool,
    call: Option<VaultCall>,
    c: &mut EncryptionPage,
)
    requires
        call_ensures(EncryptionPage::open_recover, (a,), ()),
        *old(b) == *final(a),
        call_ensures(EncryptionPage::submit_prompt, (b, typed, attached), call),
        call_ensures(text::trim, (typed,), plain),
        call_ensures(EncryptionPage::cancel_prompt, (c,), ()),
    ensures
        final(a).prompt == Some(Prompt::Recover),
        final(b).prompt is None && final(c).prompt is None,
        call is Some <==> attached && plain@.len() > 0,
        call matches Some(v) ==> (v matches VaultCall::Recover { kit } && kit@ == plain@) && final(b).busy,
        call is None ==> final(b).busy == old(b).busy,
{
}

/// The card says whether encryption is on, shows the code to compare while a request waits, and offers what the
/// phase allows.
pub proof fn the_card_offers_what_the_phase_allows(
    p: &EncryptionPage,
    card: Option<StatusCard>,
    status: Json,
    view: &Json,
    kp: &str,
    phase: String,
    kv: &str,
    remote: bool,
    kc: &str,
    code: Option<String>,
    words: (&'static str, String),
)
    requires
        call_ensures(EncryptionPage::status_card, (p,), card),
        p.status == Loadable::Ready(status),
        *view == status,
        kp@ == "phase"@ && kv@ == "remoteVault"@ && kc@ == "pairingCode"@,
        call_ensures(Json::get_text_or_empty, (view, kp), phase),
        call_ensures(Json::get_flag, (view, kv), remote),
        call_ensures(Json::get_text, (view, kc), code),
        call_ensures(encryption::phase_copy, (view,), words),
    ensures
        card is Some,
        card->0.on <==> phase@ == "ready"@,
        card->0.on ==> card->0.badge@ == "On"@,
        !card->0.on ==> card->0.badge@ == words.0@,
        card->0.copy@ == words.1@,
        phase@ == "pending"@ ==> text_opt(card->0.code) == text_opt(code),
        phase@ != "pending"@ ==> card->0.code is None,
        card->0.enabled <==> !p.busy,
        card->0.actions@.len() > 0 && card->0.actions@.last() == StatusAction::Refresh,
        card->0.actions@.contains(StatusAction::Setup) <==> phase@ == "notEnrolled"@ && !remote,
        card->0.actions@.contains(StatusAction::OpenRecover) <==> phase@ == "notEnrolled"@ && remote,
        card->0.actions@.contains(StatusAction::CancelEnrollment) <==> phase@ == "pending"@,
        card->0.actions@.contains(StatusAction::RequestEnrollment) <==> phase@ == "revoked"@ || (phase@
            == "notEnrolled"@ && remote),
{
    reveal_strlit("notEnrolled");
    reveal_strlit("pending");
    reveal_strlit("revoked");
    assert("pending"@[0] == 'p' && "revoked"@[0] == 'r' && "notEnrolled"@[0] == 'n');
    let a = card->0.actions@;
    assert(a.len() >= 1 && a.len() <= 3);
    assert(a.contains(a[0]));
    if a.len() > 1 {
        assert(a.contains(a[1]));
    }
    if a.len() > 2 {
        assert(a.contains(a[2]));
    }
}

/// The card tells by what the keys are protected, and since which epoch.
pub proof fn the_card_tells_what_protects_the_keys(
    p: &EncryptionPage,
    card: Option<StatusCard>,
    status: Json,
    view: &Json,
    ke: &str,
    epoch: Option<u64>,
    kp: &str,
    protection: String,
)
    requires
        call_ensures(EncryptionPage::status_card, (p,), card),
        p.status == Loadable::Ready(status),
        *view == status,
        ke@ == "epoch"@ && kp@ == "protection"@,
        call_ensures(Json::get_natural, (view, ke), epoch),
        call_ensures(Json::get_text_or_empty, (view, kp), protection),
    ensures
        card is Some,
        epoch is None ==> card->0.keys is None,
        epoch matches Some(n) ==> {
            let front = "Key epoch "@ + decimal_text(n as nat) + " · keys protected by "@;
            &&& card->0.keys is Some
            &&& protection@ == "keychain"@ ==> card->0.keys->0@ == front + "the macOS Keychain"@
            &&& protection@ == "systemdCredential"@ ==> card->0.keys->0@ == front
                + "a systemd credential (unattended)"@
            &&& protection@ == "keyFile"@ ==> card->0.keys->0@ == front + "an operator key file (unattended)"@
            &&& protection@.len() == 0 ==> card->0.keys->0@ == front + "this process only"@
        },
{
    reveal_strlit("keychain");
    reveal_strlit("systemdCredential");
    reveal_strlit("keyFile");
    assert("keychain"@.len() == 8 && "systemdCredential"@.len() == 17 && "keyFile"@.len() == 7);
}

/// The phases are explained.
pub proof fn phases_are_explained(
    status: &Json,
    r: (&'static str, String),
    kp: &str,
    phase: String,
    kv: &str,
    remote: bool,
)
    requires
        call_ensures(encryption::phase_copy, (status,), r),
        kp@ == "phase"@ && kv@ == "remoteVault"@,
        call_ensures(Json::get_text_or_empty, (status, kp), phase),
        call_ensures(Json::get_flag, (status, kv), remote),
    ensures
        phase@ == "ready"@ ==> r.1@
            == "Synced content is encrypted on your devices. Only approved devices, or someone with your recovery key, can read it."@,
        phase@ == "notEnrolled"@ && remote ==> r.1@
            == "This account already has an encrypted vault. Approve this device from another device, or use your recovery key."@,
        phase@ == "notEnrolled"@ && !remote ==> r.1@
            == "Sessions, files and workspace details are sent to the sync backend in the clear until you set up encryption."@,
        phase@ == "pending"@ ==> r.1@
            == "Open Settings → Encryption on an approved device and compare the code below before approving."@,
        phase@ == "keyUpdateRequired"@ ==> r.1@
            == "Another device changed the vault's keys; sync resumes once the new keys arrive."@,
        phase@ == "revoked"@ ==> r.1@
            == "This device was removed from the vault. Approve it again from another device to resume."@,
{
    reveal_strlit("ready");
    reveal_strlit("notEnrolled");
    reveal_strlit("pending");
    reveal_strlit("locked");
    reveal_strlit("keyUpdateRequired");
    reveal_strlit("verificationFailed");
    reveal_strlit("revoked");
    assert("ready"@.len() == 5 && "notEnrolled"@.len() == 11 && "pending"@.len() == 7 && "locked"@.len() == 6
        && "keyUpdateRequired"@.len() == 17 && "verificationFailed"@.len() == 18 && "revoked"@.len() == 7);
    assert("pending"@[0] == 'p' && "revoked"@[0] == 'r');
}

/// The requests of others arrive as the reply lists them.
pub proof fn requests_arrive_as_listed(
    p: &mut EncryptionPage,
    status: Json,
    reply: Json,
    view: &Result<Json, String>,
    list: &Json,
    key: &str,
    items: Option<&Vec<Json>>,
)
    requires
        call_ensures(EncryptionPage::loaded, (p, Ok(status), Some(reply)), ()),
        *view == Ok::<Json, String>(status),
        call_ensures(encryption::wants_pending, (view,), true),
        *list == reply && key@ == "requests"@,
        call_ensures(Json::get_array, (list, key), items),
    ensures
        items matches Some(v) ==> final(p).pending@ == v@,
        items is None ==> final(p).pending@.len() == 0,
{
}

/// A status that is not there has no card; an error is told.
pub proof fn a_missing_status_has_no_card(p: &EncryptionPage, card: Option<StatusCard>, error: Option<String>)
    requires
        call_ensures(EncryptionPage::status_card, (p,), card),
        call_ensures(EncryptionPage::load_error, (p,), error),
    ensures
        !(p.status is Ready) ==> card is None,
        p.status matches Loadable::Error(m) ==> error == Some(m),
        !(p.status is Error) ==> error is None,
{
}

/// The actions by their words; only those that lead into the vault are primary.
pub proof fn actions_have_their_words(action: StatusAction, words: &'static str, primary: bool)
    requires
        call_ensures(StatusAction::label, (action,), words),
        call_ensures(StatusAction::is_primary, (action,), primary),
    ensures
        action == StatusAction::RequestEnrollment ==> words@ == "Approve from another device"@,
        action == StatusAction::OpenRecover ==> words@ == "Use recovery key"@,
        action == StatusAction::Setup ==> words@ == "Set up encryption"@,
        action == StatusAction::CancelEnrollment ==> words@ == "Cancel request"@,
        action == StatusAction::Refresh ==> words@ == "Refresh"@,
        primary <==> action == StatusAction::RequestEnrollment || action == StatusAction::Setup,
{
}

/// A request is approved with the code that was shown, or rejected, by its own id.
pub proof fn a_request_is_answered_by_its_id(
    p: &EncryptionPage,
    rows: Vec<PendingRow>,
    i: int,
    request: &Json,
    ki: &str,
    id: String,
    kc: &str,
    code: String,
    kd: &str,
    device: String,
    row: &PendingRow,
    yes: VaultCall,
    no: VaultCall,
)
    requires
        call_ensures(EncryptionPage::pending_rows, (p,), rows),
        0 <= i < p.pending@.len(),
        *request == p.pending@[i],
        ki@ == "requestId"@ && kc@ == "pairingCode"@ && kd@ == "deviceId"@,
        call_ensures(Json::get_text_or_empty, (request, kd), device),
        call_ensures(Json::get_text_or_empty, (request, ki), id),
        call_ensures(Json::get_text_or_empty, (request, kc), code),
        i < rows@.len() ==> *row == rows@[i],
        call_ensures(PendingRow::approve, (row,), yes),
        call_ensures(PendingRow::reject, (row,), no),
    ensures
        rows@.len() == p.pending@.len(),
        rows@[i].device_id@ == device@ && rows@[i].code@ == code@,
        yes matches VaultCall::Approve { request_id, code: c } && request_id@ == id@ && c@ == code@,
        no matches VaultCall::Reject { request_id } && request_id@ == id@,
{
    let r = rows@[i];
}

/// A member can be removed unless it is this device or removed already.
pub proof fn this_device_cannot_be_removed(
    p: &EncryptionPage,
    rows: Vec<MemberRow>,
    status: Json,
    value: &Json,
    kd: &str,
    items: Option<&Vec<Json>>,
    i: int,
    device: &Json,
    ks: &str,
    standing: Option<String>,
    kt: &str,
    here: bool,
    ki: &str,
    id: String,
    row: &MemberRow,
    call: VaultCall,
)
    requires
        call_ensures(EncryptionPage::member_rows, (p,), rows),
        p.status == Loadable::Ready(status),
        *value == status,
        kd@ == "devices"@ && ks@ == "status"@ && kt@ == "thisDevice"@ && ki@ == "deviceId"@,
        call_ensures(Json::get_array, (value, kd), items),
        items matches Some(list) && 0 <= i < list@.len() && *device == list@[i],
        call_ensures(Json::get_text, (device, ks), standing),
        call_ensures(Json::get_flag, (device, kt), here),
        call_ensures(Json::get_text_or_empty, (device, ki), id),
        i < rows@.len() ==> *row == rows@[i],
        call_ensures(MemberRow::revoke, (row,), call),
    ensures
        rows@.len() == items->0@.len(),
        rows@[i].device_id@ == id@,
        rows@[i].active <==> (standing matches Some(s) && s@ == "active"@),
        rows@[i].this_device == here,
        rows@[i].removable <==> rows@[i].active && !here,
        rows@[i].active ==> rows@[i].standing@ == "Approved"@,
        !rows@[i].active ==> rows@[i].standing@ == "Removed"@,
        call matches VaultCall::Revoke { device_id } && device_id@ == id@,
{
    let r = rows@[i];
}

/// The words of the page.
pub proof fn the_page_has_its_words(
    short: &str,
    pending: String,
    member: String,
    local: bool,
    subtitle: &'static str,
)
    requires
        call_ensures(encryption::pending_title, (short,), pending),
        call_ensures(encryption::member_title, (short,), member),
        call_ensures(encryption::page_subtitle, (local,), subtitle),
    ensures
        pending@ == "Device "@ + short@,
        member@ == "Vault member "@ + short@,
        local ==> subtitle@ == "This workspace is local-only; nothing is sent to a sync backend."@,
{
}

// ---------------------------------------------------------------------------
// Shortcuts
// ---------------------------------------------------------------------------

/// A combination that was set is the one that counts, and no other shortcut changes.
pub proof fn a_set_combination_counts(
    k: &mut KeymapConfig,
    id: ShortcutId,
    combo: String,
    other: ShortcutId,
    before: &KeymapConfig,
    was: Option<String>,
    after: &KeymapConfig,
    now: Option<String>,
    i: int,
)
    requires
        old(k).wf(),
        call_ensures(KeymapConfig::set, (k, id, combo), ()),
        *before == *old(k),
        *after == *final(k),
        call_ensures(KeymapConfig::get, (before, other), was),
        call_ensures(KeymapConfig::get, (after, other), now),
        0 <= i < old(k).bindings@.len() && old(k).bindings@[i].id == id,
    ensures
        other == id ==> (now matches Some(c) && c@ == combo@),
        other != id ==> text_opt(now) == text_opt(was),
        final(k).bindings@.len() == old(k).bindings@.len(),
{
    binding_is_found(*old(k), id, i);
    rebinding_keeps_the_others(old(k).bindings@, final(k).bindings@, i, id, other, combo@);
}

proof fn binding_is_found(k: KeymapConfig, id: ShortcutId, i: int)
    requires
        k.wf(),
        0 <= i < k.bindings@.len(),
        k.bindings@[i].id == id,
    ensures
        first_at(k.bindings@, bound_to(id)) == Some(i),
{
    let p = bound_to(id);
    assert(p(k.bindings@[i]));
    assert forall|j: int| 0 <= j < i implies !p(#[trigger] k.bindings@[j]) by {
        assert(k.bindings@[j].id != k.bindings@[i].id);
    }
    search_stops_at(k.bindings@, p, i);
}

proof fn rebinding_keeps_the_others(
    before: Seq<Binding>,
    after: Seq<Binding>,
    i: int,
    id: ShortcutId,
    other: ShortcutId,
    combo: Seq<char>,
)
    requires
        0 <= i < before.len(),
        KeymapConfig::rebound(before, after, i, combo),
        first_at(before, bound_to(id)) == Some(i),
        before[i].id == id,
    ensures
        other == id ==> (find_first(after, bound_to(other)) matches Some(b) && b.combo@ == combo),
        other != id ==> find_first(after, bound_to(other)) == find_first(before, bound_to(other)),
{
    let p = bound_to(other);
    search_meaning(before, p);
    search_meaning(after, p);
    assert(after.len() == before.len());
    assert(forall|k: int| 0 <= k < before.len() && k != i ==> after[k] == before[k]);
    if other == id {
        assert(p(after[i]));
        assert forall|j: int| 0 <= j < i implies !p(#[trigger] after[j]) by {
            assert(!p(before[j]));
        }
        search_stops_at(after, p, i);
    } else {
        assert(!p(after[i]) && !p(before[i]));
        if first_at(before, p) is Some {
            let m = first_at(before, p)->0;
            assert(p(before[m]));
            assert(p(after[m]));
            assert forall|j: int| 0 <= j < m implies !p(#[trigger] after[j]) by {
                assert(!p(before[j]));
            }
            search_stops_at(after, p, m);
        } else if first_at(after, p) is Some {
            let m = first_at(after, p)->0;
            assert(p(after[m]));
            assert(p(before[m]));
        }
    }
}

/// A reset brings a shortcut's default back; restoring brings back all of them.
pub proof fn a_reset_brings_the_default_back(
    k: &mut KeymapConfig,
    id: ShortcutId,
    i: int,
    after: &KeymapConfig,
    now: Option<String>,
    m: &mut KeymapConfig,
    restored: &KeymapConfig,
    custom: bool,
)
    requires
        old(k).wf(),
        call_ensures(KeymapConfig::reset, (k, id), ()),
        0 <= i < old(k).bindings@.len() && old(k).bindings@[i].id == id,
        *after == *final(k),
        call_ensures(KeymapConfig::get, (after, id), now),
        call_ensures(KeymapConfig::restore, (m,), ()),
        *restored == *final(m),
        call_ensures(KeymapConfig::customized, (restored,), custom),
    ensures
        now matches Some(c) && c@ == old(k).bindings@[i].default_combo@,
        !custom,
        final(m).bindings@.len() == old(m).bindings@.len(),
        forall|j: int|
            0 <= j < final(m).bindings@.len() ==> (#[trigger] final(m).bindings@[j]).id == old(m).bindings@[j].id && final(m).bindings@[j].combo@ == old(m).bindings@[j].default_combo@,
{
    binding_is_found(*old(k), id, i);
    rebinding_keeps_the_others(
        old(k).bindings@,
        final(k).bindings@,
        i,
        id,
        id,
        old(k).bindings@[i].default_combo@,
    );
    let p = shortcuts::is_custom();
    search_meaning(final(m).bindings@, p);
    if first_at(final(m).bindings@, p) is Some {
        let j = first_at(final(m).bindings@, p)->0;
        assert(p(final(m).bindings@[j]));
        assert(final(m).bindings@[j].combo@ == old(m).bindings@[j].default_combo@);
    }
}

/// The keymap counts as customized where some combination is not its default.
pub proof fn a_changed_combination_is_custom(k: &KeymapConfig, r: bool, p: &ShortcutsPage, can: bool)
    requires
        call_ensures(KeymapConfig::customized, (k,), r),
        *k == p.keymap,
        call_ensures(ShortcutsPage::can_restore, (p,), can),
    ensures
        r <==> exists|i: int|
            0 <= i < k.bindings@.len() && (#[trigger] k.bindings@[i]).combo@ != k.bindings@[i].default_combo@,
        can <==> r && p.recording is None,
{
    let q = shortcuts::is_custom();
    search_meaning(k.bindings@, q);
    if exists|i: int|
        0 <= i < k.bindings@.len() && (#[trigger] k.bindings@[i]).combo@ != k.bindings@[i].default_combo@ {
        let i = choose|i: int|
            0 <= i < k.bindings@.len() && (#[trigger] k.bindings@[i]).combo@ != k.bindings@[i].default_combo@;
        assert(q(k.bindings@[i]));
    }
    if first_at(k.bindings@, q) is Some {
        let i = first_at(k.bindings@, q)->0;
        assert(q(k.bindings@[i]));
        assert(k.bindings@[i].combo@ != k.bindings@[i].default_combo@);
    }
}

/// A combination conflicts with another shortcut that has it, never with its own.
pub proof fn a_conflict_is_with_another_shortcut(k: &KeymapConfig, id: ShortcutId, combo: &str, r: Option<ShortcutId>)
    requires
        call_ensures(shortcuts::conflict_owner, (k, id, combo), r),
    ensures
        r matches Some(owner) ==> owner != id && exists|i: int|
            0 <= i < k.bindings@.len() && (#[trigger] k.bindings@[i]).id == owner && k.bindings@[i].combo@
                == combo@,
        r is None ==> forall|i: int|
            0 <= i < k.bindings@.len() && (#[trigger] k.bindings@[i]).combo@ == combo@ ==> k.bindings@[i].id
                == id,
{
    let p = clashes(id, combo@);
    search_meaning(k.bindings@, p);
    if first_at(k.bindings@, p) is Some {
        assert(p(k.bindings@[first_at(k.bindings@, p)->0]));
    } else {
        assert forall|i: int| 0 <= i < k.bindings@.len() && (#[trigger] k.bindings@[i]).combo@ == combo@
            implies k.bindings@[i].id == id by {
            assert(!p(k.bindings@[i]));
        }
    }
}

/// Escape gives up a recording; a combination ends it; anything else is waited through.
pub proof fn a_recording_ends_with_a_combination(key: &str, combo: Option<String>, r: RecordOutcome)
    requires
        call_ensures(shortcuts::record_key, (key, combo), r),
    ensures
        key@ == "escape"@ || key@ == "Escape"@ || key@ == "ESCAPE"@ ==> r is Cancelled,
        r is Cancelled ==> key@.len() == 6,
        key@ == "return"@ ==> !(r is Cancelled),
        key@.len() != 6 ==> (match combo {
            Some(c) => r == RecordOutcome::Assigned(c),
            None => r is Ignored,
        }),
{
    reveal_strlit("escape");
    reveal_strlit("Escape");
    reveal_strlit("ESCAPE");
    reveal_strlit("return");
    assert("return"@[0] == 'r' && "escape"@[0] == 'e');
    if key@ == "return"@ {
        assert(shortcuts::ascii_small(key@[0]) != shortcuts::ascii_small("escape"@[0]));
    }
}

/// A recorded combination is taken unless another shortcut has it; then the page says whose it is. Escape and
/// keys that make no combination change no shortcut.
pub proof fn a_recorded_combination_is_taken_unless_in_use(
    p: &mut ShortcutsPage,
    key: &str,
    combo: Option<String>,
    shown: &str,
    effect: KeyEffect,
    view: &KeymapConfig,
    id: ShortcutId,
    text: &str,
    owner: Option<ShortcutId>,
    i: int,
    after: &KeymapConfig,
    now: Option<String>,
)
    requires
        call_ensures(ShortcutsPage::on_key_down, (p, key, combo, shown), effect),
        old(p).keymap.wf(),
        old(p).recording == Some(id),
        *view == old(p).keymap,
        combo is Some ==> text@ == combo->0@,
        call_ensures(shortcuts::conflict_owner, (view, id, text), owner),
        0 <= i < old(p).keymap.bindings@.len() && old(p).keymap.bindings@[i].id == id,
        *after == final(p).keymap,
        call_ensures(KeymapConfig::get, (after, id), now),
    ensures
        effect.handled,
        key@ == "escape"@ ==> final(p).keymap == old(p).keymap && final(p).recording is None
            && !effect.changed,
        key@.len() != 6 && combo is None ==> *final(p) == *old(p) && !effect.changed,
        key@.len() != 6 && combo is Some && owner is Some ==> final(p).keymap == old(p).keymap && final(p).recording is None && !effect.changed && exists|j: int|
            0 <= j < old(p).keymap.bindings@.len() && (#[trigger] old(p).keymap.bindings@[j]).id == owner->0 && (
            final(p).conflict_notice matches Some(n) && n@ == shown@ + " is already assigned to "@ + old(p).keymap.bindings@[j].label@ + "."@),
        key@.len() != 6 && combo is Some && owner is None ==> effect.changed && final(p).recording is None
            && final(p).conflict_notice is None && (now matches Some(c) && c@ == combo->0@),
{
    reveal_strlit("escape");
    binding_is_found(old(p).keymap, id, i);
    if combo is Some {
        let q = clashes(id, combo->0@);
        search_meaning(old(p).keymap.bindings@, q);
        if owner is Some {
            let j = first_at(old(p).keymap.bindings@, q)->0;
            assert(old(p).keymap.bindings@[j].id == owner->0);
        }
    }
    if key@.len() != 6 && combo is Some && owner is None {
        rebinding_keeps_the_others(
            old(p).keymap.bindings@,
            final(p).keymap.bindings@,
            i,
            id,
            id,
            combo->0@,
        );
    }
}

/// Outside a recording keys are left alone; a recording begins on its row, with the keys to the frame.
pub proof fn keys_are_recorded_on_their_row(
    p: &mut ShortcutsPage,
    key: &str,
    combo: Option<String>,
    shown: &str,
    effect: KeyEffect,
    q: &mut ShortcutsPage,
    id: ShortcutId,
    focus: FocusTarget,
    view: &ShortcutsPage,
    binding: &Binding,
    row: (String, bool),
    helper: String,
)
    requires
        call_ensures(ShortcutsPage::on_key_down, (p, key, combo, shown), effect),
        old(p).recording is None,
        call_ensures(ShortcutsPage::record, (q, id), focus),
        *view == *final(q),
        call_ensures(ShortcutsPage::row, (view, binding, shown), row),
        call_ensures(ShortcutsPage::helper, (view,), helper),
    ensures
        !effect.handled && !effect.changed && *final(p) == *old(p),
        final(q).recording == Some(id) && final(q).conflict_notice is None && final(q).keymap == old(q).keymap,
        focus == FocusTarget::Frame,
        binding.id == id ==> row.0@ == "Press keys…"@ && !row.1,
        binding.id != id ==> row.0@ == shown@ && (row.1 <==> binding.combo@ != binding.default_combo@),
        helper@ == "Press Escape to cancel."@,
{
}

/// Outside a recording the helper shows a conflict, or the rule.
pub proof fn the_helper_shows_a_conflict(p: &ShortcutsPage, helper: String)
    requires
        call_ensures(ShortcutsPage::helper, (p,), helper),
        p.recording is None,
    ensures
        p.conflict_notice matches Some(n) ==> helper@ == n@,
        p.conflict_notice is None ==> helper@ == "Shortcuts must be unique."@,
{
}

/// A row resets to its default and the page to all of them; a recording ends.
pub proof fn rows_and_pages_reset(
    p: &mut ShortcutsPage,
    id: ShortcutId,
    i: int,
    after: &KeymapConfig,
    now: Option<String>,
    q: &mut ShortcutsPage,
    restored: &KeymapConfig,
    custom: bool,
)
    requires
        old(p).keymap.wf(),
        call_ensures(ShortcutsPage::reset_row, (p, id), ()),
        0 <= i < old(p).keymap.bindings@.len() && old(p).keymap.bindings@[i].id == id,
        *after == final(p).keymap,
        call_ensures(KeymapConfig::get, (after, id), now),
        call_ensures(ShortcutsPage::restore_defaults, (q,), ()),
        *restored == final(q).keymap,
        call_ensures(KeymapConfig::customized, (restored,), custom),
    ensures
        final(p).recording is None,
        now matches Some(c) && c@ == old(p).keymap.bindings@[i].default_combo@,
        final(q).recording is None && final(q).conflict_notice is None && !custom,
{
    binding_is_found(old(p).keymap, id, i);
    rebinding_keeps_the_others(
        old(p).keymap.bindings@,
        final(p).keymap.bindings@,
        i,
        id,
        id,
        old(p).keymap.bindings@[i].default_combo@,
    );
    let c = shortcuts::is_custom();
    search_meaning(final(q).keymap.bindings@, c);
    if first_at(final(q).keymap.bindings@, c) is Some {
        let j = first_at(final(q).keymap.bindings@, c)->0;
        assert(c(final(q).keymap.bindings@[j]));
        assert(final(q).keymap.bindings@[j].combo@ == old(q).keymap.bindings@[j].default_combo@);
    }
}

/// The sections of the page, and which shortcut stands in which.
pub proof fn shortcuts_stand_in_their_sections(id: ShortcutId, r: &'static str, all: Vec<&'static str>)
    requires
        call_ensures(shortcuts::group, (id,), r),
        call_ensures(shortcuts::group_order, (), all),
    ensures
        all@.len() == 4 && all@[0]@ == "Files"@ && all@[1]@ == "Panels"@ && all@[2]@ == "Sessions"@
            && all@[3]@ == "Jump to session"@,
        id == ShortcutId::SaveFile ==> r@ == "Files"@,
        id == ShortcutId::ToggleSidebar || id == ShortcutId::ToggleChanges || id == ShortcutId::ToggleTerminal
            ==> r@ == "Panels"@,
        id == ShortcutId::NewSession || id == ShortcutId::NextSession || id == ShortcutId::PrevSession || id
            == ShortcutId::ArchiveSession ==> r@ == "Sessions"@,
        id is JumpSession ==> r@ == "Jump to session"@,
{
}

/// A section lists its own shortcuts, and every one of them.
pub proof fn a_section_lists_its_own_shortcuts(
    k: &KeymapConfig,
    name: &str,
    rows: Vec<&Binding>,
    b: Binding,
    own: &'static str,
)
    requires
        call_ensures(shortcuts::group_rows, (k, name), rows),
        call_ensures(shortcuts::group, (b.id,), own),
    ensures
        pointees(rows@).contains(b) <==> k.bindings@.contains(b) && own@ == name@,
{
    filtered_members(k.bindings@, shortcuts::in_group(name@));
}

/// What each shortcut is for.
pub proof fn shortcuts_say_what_they_are_for(id: ShortcutId, r: &'static str)
    requires
        call_ensures(shortcuts::description, (id,), r),
    ensures
        id == ShortcutId::SaveFile ==> r@ == "Save the active workspace file."@,
        id == ShortcutId::ToggleSidebar ==> r@ == "Show or hide sessions and settings navigation."@,
        id == ShortcutId::ToggleChanges ==> r@ == "Show or hide the right sidebar for the current session."@,
        id == ShortcutId::ToggleTerminal ==> r@ == "Show or hide the terminal for the current session."@,
        id == ShortcutId::NewSession ==> r@ == "Open a blank session canvas to start a new session."@,
        id == ShortcutId::NextSession ==> r@
            == "Select the next session in the sidebar, wrapping at the end."@,
        id == ShortcutId::PrevSession ==> r@
            == "Select the previous session in the sidebar, wrapping at the start."@,
        id == ShortcutId::ArchiveSession ==> r@ == "Move the current session to the archived shelf."@,
        id is JumpSession ==> r@ == "Open the session at this place in the sidebar list."@,
{
}

} // verus!
