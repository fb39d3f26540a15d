//! The window around the sessions: panes, routes, menus, dialogs and lists.

use crate::gate;
use crate::gate::{ConnectionStatus, EngineMode, GatePhase, OrgRow};
use crate::json::Json;
use crate::laws::ground::filtered_members;
use crate::lists::{first_at, pointees, search_meaning, search_stops_at};
use crate::model::{AuthState, Chat, ChatIndicator, Device, Session, Space, UserProfile};
use crate::order;
use crate::order::Indicator;
use crate::settings::accounts::{AccountCall, AccountRequest};
use crate::settings::shortcuts::KeymapConfig;
use crate::shell::frame;
use crate::shell::frame::{
    LayoutFlags, Mutation, RootView, Route, SettingsSection, Shell, ShellAction, SplashPhase,
    StatusStrip,
};
use crate::shell::org::{Memberships, OrgGateUi};
use crate::shell::overlays;
use crate::shell::overlays::{GateCard, MenuItem, Overlay, UserMenu};
use crate::shell::sidebar::{chat_sidebar, SidebarItem};
use crate::shell::spaces;
use crate::shell::spaces::{SessionRow, SpaceRow};
use crate::shell::tabs;
use crate::shell::tabs::{TabClosed, TabStrip};
use crate::state;
use crate::state::{chat_is, AppState, Effects};
use crate::terminal::panel::TabRef;
use crate::text;
use crate::text::text_opt;
use crate::time::Timestamp;
use vstd::prelude::*;

verus! {

// ---------------------------------------------------------------------------
// Splash and panes
// ---------------------------------------------------------------------------

/// The splash fades when the engine answers, goes at once where it fails, and never comes back.
pub proof fn the_splash_fades_once(
    s: &mut Shell,
    connection: &ConnectionStatus,
    fades: bool,
    t: &mut Shell,
)
    requires
        call_ensures(Shell::on_state_changed, (s, connection), fades),
        call_ensures(Shell::splash_faded, (t,), ()),
    ensures
        *connection is Ready && old(s).splash == SplashPhase::Visible ==> fades && final(s).splash
            == SplashPhase::FadingOut,
        *connection is Ready && old(s).splash != SplashPhase::Visible ==> !fades && final(s).splash
            == old(s).splash,
        *connection is Failed ==> !fades && final(s).splash == SplashPhase::Gone,
        *connection is Connecting ==> !fades && final(s).splash == old(s).splash,
        final(s).route == old(s).route && final(s).settings == old(s).settings,
        final(t).splash == SplashPhase::Gone,
{
}

/// Toggling a pane twice brings it back; each change runs its own animation.
pub proof fn toggling_twice_brings_a_pane_back(
    a: &mut Shell,
    b: &mut Shell,
    c: &mut Shell,
    watch: bool,
    d: &mut Shell,
)
    requires
        old(a).tween_epoch < usize::MAX,
        call_ensures(Shell::toggle_sidebar, (a,), ()),
        *old(b) == *final(a),
        old(b).tween_epoch < usize::MAX,
        call_ensures(Shell::toggle_sidebar, (b,), ()),
        old(c).tween_epoch < usize::MAX,
        call_ensures(Shell::toggle_right_pane, (c,), watch),
        call_ensures(Shell::toggle_grouped, (d,), ()),
    ensures
        final(a).settings.sidebar_collapsed != old(a).settings.sidebar_collapsed,
        final(b).settings.sidebar_collapsed == old(a).settings.sidebar_collapsed,
        final(a).sidebar_tween matches Some(t) && t.opening == old(a).settings.sidebar_collapsed && t.epoch
            == old(a).tween_epoch + 1,
        final(a).settings.right_pane_open == old(a).settings.right_pane_open,
        final(a).settings.terminal_open == old(a).settings.terminal_open,
        final(c).settings.right_pane_open != old(c).settings.right_pane_open,
        watch == final(c).settings.right_pane_open,
        watch ==> final(c).changes,
        !watch ==> final(c).changes == old(c).changes,
        final(c).right_tween matches Some(t) && t.opening == watch && t.epoch == old(c).tween_epoch + 1,
        final(a).tween_epoch == old(a).tween_epoch + 1 && final(c).tween_epoch == old(c).tween_epoch + 1,
        final(c).settings.sidebar_collapsed == old(c).settings.sidebar_collapsed,
        final(d).settings.sidebar_grouped != old(d).settings.sidebar_grouped,
        final(d).settings.sidebar_collapsed == old(d).settings.sidebar_collapsed,
{
}

/// A dragged pane is open and rests.
pub proof fn a_dragged_pane_rests(a: &mut Shell, b: &mut Shell, c: &mut Shell, d: &mut Shell, shown: bool)
    requires
        call_ensures(Shell::sidebar_dragged, (a,), ()),
        call_ensures(Shell::right_pane_dragged, (b,), ()),
        call_ensures(Shell::terminal_settled, (c,), ()),
        call_ensures(Shell::right_pane, (d,), shown),
    ensures
        !final(a).settings.sidebar_collapsed && final(a).sidebar_tween is None,
        final(b).right_tween is None && final(b).settings == old(b).settings,
        final(c).terminal_tween is None && final(c).settings == old(c).settings && final(c).terminal
            == old(c).terminal,
        shown <==> old(d).settings.right_pane_open,
        shown ==> final(d).changes,
        final(d).settings == old(d).settings,
{
}

/// Opening the terminal opens its panel, and gives a chat without a tab its first one; closing opens none.
pub proof fn the_terminal_opens_with_its_panel(
    s: &mut Shell,
    selected: &Option<String>,
    attached: bool,
    start: Option<TabRef>,
)
    requires
        old(s).wf(),
        old(s).has_room(),
        old(s).tween_epoch < usize::MAX,
        call_ensures(Shell::toggle_terminal, (s, selected, attached), start),
    ensures
        final(s).settings.terminal_open != old(s).settings.terminal_open,
        final(s).terminal matches Some(p) && p.open == final(s).settings.terminal_open,
        old(s).settings.terminal_open ==> start is None,
        !attached || *selected is None ==> start is None,
        start matches Some(t) ==> (*selected matches Some(c) && t.chat@ == c@),
        final(s).terminal_tween matches Some(t) && t.opening == final(s).settings.terminal_open && t.epoch
            == old(s).tween_epoch + 1,
        final(s).tween_epoch == old(s).tween_epoch + 1,
        final(s).settings.sidebar_collapsed == old(s).settings.sidebar_collapsed,
        final(s).settings.right_pane_open == old(s).settings.right_pane_open,
        final(s).route == old(s).route,
        (old(s).terminal is None && !old(s).settings.terminal_open && *selected is Some && attached)
            ==> start is Some,
{
    let opening = !old(s).settings.terminal_open;
    let panel = choose|panel: crate::terminal::panel::TerminalPanel| #[trigger]
        panel.wf() && Shell::was_panel(old(s).terminal, panel) && (match final(s).terminal {
            Some(a) => Shell::panel_opened(panel, a, opening, text_opt(*selected), attached, start),
            None => false,
        });
    if *selected is Some {
        search_meaning(panel.chats@, crate::terminal::panel::tabs_for(selected->0@));
    }
}

/// The dock shows a panel while the terminal is open or moving, and makes one where there is none.
pub proof fn the_dock_shows_an_open_terminal(
    s: &mut Shell,
    selected: &Option<String>,
    attached: bool,
    r: (bool, Option<TabRef>),
)
    requires
        old(s).wf(),
        old(s).has_room(),
        call_ensures(Shell::terminal_dock, (s, selected, attached), r),
    ensures
        old(s).settings.terminal_open ==> r.0 && final(s).terminal is Some,
        !old(s).settings.terminal_open && old(s).terminal_tween is None ==> !r.0,
        !old(s).settings.terminal_open ==> final(s).terminal == old(s).terminal && r.1 is None,
        old(s).terminal is Some ==> final(s).terminal == old(s).terminal && r.1 is None,
        final(s).settings == old(s).settings && final(s).route == old(s).route,
{
}

// ---------------------------------------------------------------------------
// Routes and settings
// ---------------------------------------------------------------------------

/// Settings open at their section and close to the chat; a new session leads to the chat without one.
pub proof fn routes_lead_where_they_say(
    a: &mut Shell,
    section: SettingsSection,
    b: &mut Shell,
    c: &mut Shell,
    state: &mut AppState,
    now: Timestamp,
    fx: Effects,
)
    requires
        call_ensures(Shell::open_settings, (a, section), ()),
        call_ensures(Shell::close_settings, (b,), ()),
        call_ensures(Shell::new_session, (c, state, now), fx),
    ensures
        final(a).route == Route::Settings(section) && !final(a).user_menu_open && final(a).chat_menu is None,
        final(b).route == Route::Chat,
        final(c).route == Route::Chat && final(state).selected_chat is None && final(state).chats@
            == old(state).chats@ && final(state).selected_space == old(state).selected_space,
        fx.notify <==> old(state).selected_chat is Some,
        fx.send_seen is None,
{
}

/// A section makes its own page, once, and leaves the other pages alone.
pub proof fn a_section_makes_its_own_page(
    s: &mut Shell,
    section: SettingsSection,
    keymap: KeymapConfig,
    attached: bool,
    call: Option<AccountCall>,
)
    requires
        call_ensures(Shell::settings_outlet, (s, section, keymap, attached), call),
    ensures
        section == SettingsSection::Devices ==> final(s).devices_page,
        section != SettingsSection::Devices ==> final(s).devices_page == old(s).devices_page,
        section == SettingsSection::Agents ==> final(s).accounts_page is Some,
        old(s).accounts_page is Some || section != SettingsSection::Agents ==> final(s).accounts_page
            == old(s).accounts_page && call is None,
        section == SettingsSection::Agents && old(s).accounts_page is None ==> (call is Some <==> attached) && (
        call matches Some(c) ==> c.target_device is None && c.request == (AccountRequest::List {
            force_usage: false,
        })),
        section == SettingsSection::Shortcuts ==> final(s).shortcuts_page is Some,
        section == SettingsSection::Shortcuts && old(s).shortcuts_page is None ==> final(s).shortcuts_page->0.keymap == keymap && final(s).shortcuts_page->0.recording is None,
        old(s).shortcuts_page is Some || section != SettingsSection::Shortcuts ==> final(s).shortcuts_page
            == old(s).shortcuts_page,
        section == SettingsSection::Archived ==> final(s).archived_page is Some,
        old(s).archived_page is Some || section != SettingsSection::Archived ==> final(s).archived_page
            == old(s).archived_page,
        final(s).route == old(s).route,
{
}

/// The sections are listed in one order, with the open one marked.
pub proof fn sections_are_listed_in_order(
    section: SettingsSection,
    rows: Vec<(SettingsSection, bool)>,
    all: Vec<SettingsSection>,
    words: &'static str,
)
    requires
        call_ensures(Shell::settings_nav, (section,), rows),
        call_ensures(SettingsSection::all, (), all),
        call_ensures(SettingsSection::label, (section,), words),
    ensures
        all@ == seq![
            SettingsSection::Devices,
            SettingsSection::Agents,
            SettingsSection::Shortcuts,
            SettingsSection::Archived,
        ],
        rows@.len() == 4,
        forall|i: int|
            0 <= i < rows@.len() ==> (#[trigger] rows@[i]).0 == all@[i] && (rows@[i].1 <==> all@[i]
                == section),
        section == SettingsSection::Devices ==> words@ == "Devices"@,
        section == SettingsSection::Agents ==> words@ == "Agents"@,
        section == SettingsSection::Shortcuts ==> words@ == "Shortcuts"@,
        section == SettingsSection::Archived ==> words@ == "Archived"@,
{
}

// ---------------------------------------------------------------------------
// Changes
// ---------------------------------------------------------------------------

/// A change goes to a connected engine as it is; without one a notice says why nothing happened.
pub proof fn a_change_goes_to_a_connected_engine(
    s: &mut Shell,
    op: Mutation,
    attached: bool,
    call: Option<Mutation>,
    t: &mut Shell,
    message: String,
    u: &mut Shell,
)
    requires
        call_ensures(Shell::mutate, (s, op, attached), call),
        call_ensures(Shell::mutate_failed, (t, message), ()),
        call_ensures(Shell::dismiss_notice, (u,), ()),
    ensures
        attached ==> call == Some(op) && final(s).sidebar_notice == old(s).sidebar_notice,
        !attached ==> call is None && (final(s).sidebar_notice matches Some(n) && n@
            == "Engine not connected"@),
        final(t).sidebar_notice == Some(message),
        final(u).sidebar_notice is None,
        final(s).chat_menu == old(s).chat_menu && final(t).route == old(t).route,
{
}

/// The menu of a chat leads to its dialogs.
pub proof fn a_chat_menu_leads_to_its_dialogs(
    a: &mut Shell,
    id: String,
    b: &mut Shell,
    c: &mut Shell,
    d: &mut Shell,
    e: &mut Shell,
)
    requires
        call_ensures(Shell::open_chat_menu, (a, id), ()),
        call_ensures(Shell::close_chat_menu, (b,), ()),
        call_ensures(Shell::cancel_rename_chat, (c,), ()),
        call_ensures(Shell::ask_delete_chat, (d, id), ()),
        call_ensures(Shell::cancel_delete_chat, (e,), ()),
    ensures
        final(a).chat_menu == Some(id),
        final(b).chat_menu is None && final(b).rename_dialog == old(b).rename_dialog,
        final(c).rename_dialog is None && final(c).delete_confirm == old(c).delete_confirm,
        final(d).delete_confirm == Some(id) && final(d).chat_menu is None,
        final(e).delete_confirm is None && final(e).rename_dialog == old(e).rename_dialog,
{
}

/// A rename begins with the title that the chat has, and sends the new one without surrounding spaces; a
/// blank one renames nothing.
pub proof fn a_rename_sends_what_was_typed(
    a: &mut Shell,
    state: &AppState,
    id: String,
    key: &str,
    row: Option<&Chat>,
    current: String,
    b: &mut Shell,
    typed: &str,
    plain: String,
    attached: bool,
    call: Option<Mutation>,
)
    requires
        call_ensures(Shell::open_rename_chat, (a, state, id), current),
        key@ == id@,
        call_ensures(AppState::chat_row, (state, key), row),
        *old(b) == *final(a),
        call_ensures(Shell::submit_rename_chat, (b, typed, attached), call),
        call_ensures(text::trim, (typed,), plain),
    ensures
        final(a).rename_dialog == Some(id) && final(a).chat_menu is None,
        row matches Some(c) ==> (match c.title {
            Some(title) => current@ == title@,
            None => current@.len() == 0,
        }),
        row is None ==> current@.len() == 0,
        final(b).rename_dialog is None,
        call is Some <==> plain@.len() > 0 && attached,
        call matches Some(m) ==> (m matches Mutation::RenameChat { chat_id, title } && chat_id == id && title@
            == plain@),
        plain@.len() > 0 && !attached ==> (final(b).sidebar_notice matches Some(n) && n@
            == "Engine not connected"@),
        plain@.len() == 0 ==> final(b).sidebar_notice == old(b).sidebar_notice,
{
}

/// Archiving and deleting are for the chat that was asked about; a deleted chat is no longer selected, and no
/// other selection changes.
pub proof fn archiving_and_deleting_touch_their_chat(
    a: &mut Shell,
    id: String,
    attached: bool,
    archived: Option<Mutation>,
    b: &mut Shell,
    state: &mut AppState,
    now: Timestamp,
    deleted: Option<Mutation>,
)
    requires
        call_ensures(Shell::archive_chat, (a, id, attached), archived),
        call_ensures(Shell::delete_chat, (b, state, id, now), deleted),
    ensures
        attached ==> archived == Some(Mutation::SetChatArchived { chat_id: id, archived: true }),
        !attached ==> archived is None && final(a).sidebar_notice is Some,
        final(a).chat_menu is None,
        old(state).engine_attached ==> deleted == Some(Mutation::DeleteChat { chat_id: id }),
        !old(state).engine_attached ==> deleted is None && final(b).sidebar_notice is Some,
        final(b).delete_confirm is None,
        (old(state).selected_chat matches Some(c) && c@ == id@) ==> final(state).selected_chat is None,
        (old(state).selected_chat matches Some(c) ==> c@ != id@) ==> *final(state) == *old(state),
        final(state).chats@ == old(state).chats@,
{
}

/// Signing out and in, and what is said where it fails.
pub proof fn signing_in_and_out(
    a: &mut Shell,
    attached: bool,
    ask: bool,
    b: &mut Shell,
    message: &str,
    c: &mut Shell,
    reply: Json,
    url: Option<String>,
    view: &Json,
    key: &str,
    said: Option<String>,
    d: &mut Shell,
    error: String,
    none: Option<String>,
)
    requires
        call_ensures(Shell::sign_out, (a, attached), ask),
        call_ensures(Shell::sign_out_failed, (b, message), ()),
        call_ensures(Shell::sign_in_answered, (c, Ok(reply)), url),
        *view == reply && key@ == "url"@,
        call_ensures(Json::get_text, (view, key), said),
        call_ensures(Shell::sign_in_answered, (d, Err(error)), none),
    ensures
        ask == attached && !final(a).user_menu_open,
        final(b).sidebar_notice matches Some(n) && n@ == "Sign out failed: "@ + message@,
        text_opt(url) == text_opt(said) && *final(c) == *old(c),
        none is None && (final(d).sidebar_notice matches Some(n) && n@ == "Sign in failed: "@ + error@),
{
}

/// The user menu opens and closes by its trigger; the click that closed it does not open it again.
pub proof fn the_user_menu_does_not_bounce(a: &mut Shell, at: u64, b: &mut Shell, now: u64, c: &mut Shell, t: u64)
    requires
        call_ensures(Shell::dismiss_user_menu, (a, at), ()),
        *old(b) == *final(a),
        call_ensures(Shell::toggle_user_menu, (b, now), ()),
        old(c).user_menu_dismissed_at is None,
        call_ensures(Shell::toggle_user_menu, (c, t), ()),
    ensures
        !final(a).user_menu_open,
        now < at + 400 ==> !final(b).user_menu_open,
        now >= at + 400 ==> final(b).user_menu_open,
        final(c).user_menu_open != old(c).user_menu_open,
        final(b).route == old(a).route,
{
}

/// The workspace gate is made once and asks for the workspaces of a connected engine.
pub proof fn the_workspace_gate_is_made_once(s: &mut Shell, attached: bool, ask: bool)
    requires
        call_ensures(Shell::ensure_org_ui, (s, attached), ask),
    ensures
        final(s).org is Some,
        old(s).org is Some ==> !ask && final(s).org == old(s).org,
        old(s).org is None ==> ask == attached && !final(s).org->0.submitting && final(s).org->0.error is None && (final(s).org->0.orgs is Loading <==> attached),
{
}

/// What a key that cannot be read falls back to.
pub proof fn keys_fall_back(action: ShellAction, r: &'static str, candidate: String, readable: bool, fallback: String, s: String)
    requires
        call_ensures(frame::fallback_combo, (action,), r),
        call_ensures(frame::valid_or_default, (candidate, readable, fallback), s),
    ensures
        action == ShellAction::ToggleSidebar ==> r@ == "mod-s"@,
        action == ShellAction::ToggleChanges ==> r@ == "mod-b"@,
        action == ShellAction::ToggleTerminal ==> r@ == "mod-j"@,
        readable ==> s == candidate,
        !readable ==> s == fallback,
{
}

/// The strip says what the selected chat's session does: it counts the seconds of a run, asks for input, tells
/// of a failure, and otherwise of a message on its way or of the engine.
pub proof fn the_strip_says_what_the_session_does(
    state: &AppState,
    mode: Option<&EngineMode>,
    sending: bool,
    now: Timestamp,
    strip: StatusStrip,
    id: &str,
    session: Option<&Session>,
    r: Indicator,
    view: &StatusStrip,
    words: Option<&'static str>,
)
    requires
        call_ensures(frame::status_strip, (state, mode, sending, now), strip),
        state.selected_chat is Some ==> id@ == state.selected_chat->0@,
        call_ensures(AppState::session_for, (state, id), session),
        call_ensures(order::effective_indicator, (session, now), r),
        *view == strip,
        call_ensures(frame::strip_label, (view,), words),
    ensures
        state.selected_chat is None ==> strip is Mode,
        state.selected_chat is Some ==> {
            &&& strip is Working <==> r == Indicator::Working
            &&& strip is AwaitingInput <==> r == Indicator::AwaitingInput
            &&& strip is Errored <==> r == Indicator::Errored
            &&& r == Indicator::Nothing ==> (strip is Sending <==> sending) && (strip is Mode <==> !sending)
        },
        strip matches StatusStrip::Mode(line) ==> match mode {
            None => line@.len() == 0,
            Some(m) => match *m {
                EngineMode::InProcess => line@ == "engine: in-process"@,
                EngineMode::Remote { url } => line@ == "engine: "@ + url@,
            },
        },
        strip matches StatusStrip::Working { elapsed_secs } ==> (session matches Some(s) ==> (
        s.started_at matches Some(t) ==> (t@ <= now@ ==> elapsed_secs * 1_000_000_000 <= now@ - t@ < (
        elapsed_secs + 1) * 1_000_000_000))),
        strip is AwaitingInput ==> (words matches Some(w) && w@ == "Awaiting your input"@),
        strip is Errored ==> (words matches Some(w) && w@ == "Run failed"@),
        strip is Sending ==> (words matches Some(w) && w@ == "Sending…"@),
        strip is Mode || strip is Working ==> words is None,
{
}

/// The window is titled by the selected chat.
pub proof fn the_window_is_titled_by_the_chat(state: &AppState, r: String, chat: Option<&Chat>)
    requires
        call_ensures(frame::main_title, (state,), r),
        call_ensures(AppState::selected_chat_row, (state,), chat),
    ensures
        chat is None ==> r@ == "comet"@,
        chat matches Some(c) ==> match c.title {
            Some(title) => r@ == title@,
            None => r@ == "comet"@,
        },
{
}

/// A chat ticks while its session shows something.
pub proof fn a_running_chat_ticks(
    state: &AppState,
    now: Timestamp,
    ticks: bool,
    id: &str,
    session: Option<&Session>,
    r: Indicator,
)
    requires
        call_ensures(Shell::ticks, (state, now), ticks),
        state.selected_chat is Some ==> id@ == state.selected_chat->0@,
        call_ensures(AppState::session_for, (state, id), session),
        call_ensures(order::effective_indicator, (session, now), r),
    ensures
        state.selected_chat is None ==> !ticks,
        state.selected_chat is Some ==> (ticks <==> r != Indicator::Nothing),
{
}

/// The window shows what its phase asks for.
pub proof fn the_window_shows_its_phase(
    s: &Shell,
    state: &AppState,
    view: RootView,
    connection: &ConnectionStatus,
    auth: Option<&AuthState>,
    phase: GatePhase,
)
    requires
        call_ensures(Shell::root_view, (s, state), view),
        *connection == state.connection,
        match (state.auth, auth) {
            (Some(a), Some(b)) => a == *b,
            (None, None) => true,
            _ => false,
        },
        call_ensures(gate::gate_phase, (connection, auth), phase),
    ensures
        phase == GatePhase::Ready ==> view == (RootView::Panes { right_handle: s.settings.right_pane_open }),
        phase == GatePhase::Loading ==> view == RootView::Blank,
        phase == GatePhase::OrgGate ==> view == RootView::OrgGate,
        phase == GatePhase::SignIn ==> view == RootView::SignIn,
        phase matches GatePhase::Failed(m) ==> view == (RootView::Unreachable { error: m }),
{
}

/// A user is shown by name, or else by address.
pub proof fn a_user_is_shown_by_name(
    user: Option<&UserProfile>,
    r: (String, Option<String>),
    s: &Shell,
    menu: UserMenu,
)
    requires
        call_ensures(frame::user_lines, (user,), r),
        call_ensures(Shell::user_menu, (s, user), menu),
    ensures
        user is None ==> r.0@ == "Not signed in"@ && r.1 is None,
        user matches Some(u) ==> r.1 == Some(u.email) && (match u.name {
            Some(name) => r.0 == name,
            None => r.0 == u.email,
        }),
        menu.line@ == r.0@ && menu.email == r.1,
        menu.badge@ == "Alpha"@,
        menu.plan is Some <==> s.user_menu_open,
{
}

// ---------------------------------------------------------------------------
// Overlays
// ---------------------------------------------------------------------------

/// What lies over the window: for each open menu or dialog one layer, for the thing that it was opened on.
pub proof fn each_open_dialog_has_its_layer(s: &Shell, layers: Vec<Overlay>)
    requires
        call_ensures(Shell::chat_overlays, (s,), layers),
    ensures
        s.chat_menu is None && s.rename_dialog is None && s.delete_confirm is None ==> layers@.len() == 0,
        s.chat_menu matches Some(id) ==> layers@.len() > 0 && (layers@[0] matches Overlay::ChatMenu {
            chat_id,
            items,
        } && chat_id == id && items@ == seq![MenuItem::Rename, MenuItem::Archive, MenuItem::Delete]),
        s.delete_confirm matches Some(id) ==> layers@.len() > 0 && (
        layers@.last() matches Overlay::DeleteChat { chat_id, title, .. } && chat_id == id && title@
            == "Delete this session?"@),
        s.chat_menu is None ==> (s.rename_dialog matches Some(id) ==> layers@.len() > 0 && (
        layers@[0] matches Overlay::RenameChat { chat_id, title } && chat_id == id && title@
            == "Rename session"@)),
        layers@.len() <= 3,
{
}

/// The layers of spaces, with the warning of a removal; a fresh rename takes the focus once.
pub proof fn each_space_dialog_has_its_layer(
    s: &mut Shell,
    state: &AppState,
    r: (Vec<Overlay>, bool),
    t: &mut Shell,
    again: (Vec<Overlay>, bool),
    id: &str,
    warning: String,
)
    requires
        call_ensures(Shell::space_overlays, (s, state), r),
        *old(t) == *final(s),
        call_ensures(Shell::space_overlays, (t, state), again),
        old(s).delete_space_confirm is Some ==> id@ == old(s).delete_space_confirm->0@,
        call_ensures(spaces::removal_warning, (state, id), warning),
    ensures
        r.1 <==> (old(s).rename_space_dialog matches Some(d) && d.focus_pending),
        !again.1,
        old(s).space_menu matches Some(space) ==> r.0@.len() > 0 && (r.0@[0] matches Overlay::SpaceMenu {
            space_id,
            items,
        } && space_id == space && items@ == seq![MenuItem::Rename, MenuItem::Remove]),
        old(s).delete_space_confirm matches Some(space) ==> r.0@.len() > 0 && (
        r.0@.last() matches Overlay::RemoveSpace { space_id, title, body } && space_id == space && title@
            == "Remove space?"@ && body@ == warning@),
        old(s).space_menu is None ==> (old(s).rename_space_dialog matches Some(d) ==> r.0@.len() > 0 && (
        r.0@[0] matches Overlay::RenameSpace { space_id, title } && space_id == d.space_id && title@
            == "Rename space"@)),
        old(s).space_menu is None && old(s).rename_space_dialog is None && old(s).delete_space_confirm is None ==> r.0@.len() == 0,
{
}

/// The words of the menus and of the cards before sign-in.
pub proof fn menus_and_cards_have_their_words(item: MenuItem, words: &'static str, phase: &GatePhase, card: GateCard)
    requires
        call_ensures(MenuItem::label, (item,), words),
        call_ensures(overlays::gate_card, (phase,), card),
    ensures
        item == MenuItem::Rename ==> words@ == "Rename…"@,
        item == MenuItem::Archive ==> words@ == "Archive"@,
        item == MenuItem::Delete ==> words@ == "Delete…"@,
        item == MenuItem::Remove ==> words@ == "Remove…"@,
        *phase matches GatePhase::Failed(m) ==> card.title@ == "Backend unreachable"@ && card.body == m
            && card.action@ == "Retry"@,
        !(*phase is Failed) ==> card.title@ == "Sign in"@ && card.action@ == "Sign in with browser"@,
{
}

// ---------------------------------------------------------------------------
// Workspaces
// ---------------------------------------------------------------------------

/// The workspace page asks a connected engine, once at a time, and only for names that are valid.
pub proof fn workspaces_are_asked_for_by_valid_names(
    a: &mut OrgGateUi,
    typed: &str,
    plain: String,
    attached: bool,
    name: Option<String>,
    b: &mut OrgGateUi,
    asked: bool,
    c: &mut OrgGateUi,
    chosen: bool,
    d: &mut OrgGateUi,
    result: Result<(), String>,
)
    requires
        call_ensures(OrgGateUi::create_org, (a, typed, attached), name),
        call_ensures(text::trim, (typed,), plain),
        call_ensures(OrgGateUi::load_orgs, (b, attached), asked),
        call_ensures(OrgGateUi::select_org, (c, attached), chosen),
        call_ensures(OrgGateUi::answered, (d, result), ()),
    ensures
        name is Some ==> attached && !old(a).submitting && name->0@ == plain@ && final(a).submitting && final(a).error is None,
        plain@.len() == 0 ==> name is None,
        !attached || old(a).submitting ==> name is None && *final(a) == *old(a),
        plain@.len() == 0 && attached && !old(a).submitting ==> (final(a).error matches Some(e) && e@
            == "Enter a workspace name"@),
        asked == attached && (attached ==> final(b).orgs is Loading) && (!attached ==> *final(b) == *old(b)),
        chosen == attached && (attached ==> final(c).submitting && final(c).error is None) && (!attached
            ==> *final(c) == *old(c)),
        !final(d).submitting && (result matches Err(m) ==> final(d).error == Some(m)) && (result is Ok
            ==> final(d).error == old(d).error),
        final(a).orgs == old(a).orgs && final(c).orgs == old(c).orgs && final(d).orgs == old(d).orgs,
{
    if plain@.len() == 0 {
        trimmed_blank_is_blank(typed@);
    }
}

proof fn trimmed_blank_is_blank(s: Seq<char>)
    requires
        text::trimmed(s).len() == 0,
    ensures
        text::trimmed(text::trimmed(s)).len() == 0,
{
    assert(text::trimmed(s) =~= Seq::<char>::empty());
    assert(text::trim_front(Seq::<char>::empty()) == Seq::<char>::empty());
    assert(text::trim_back(Seq::<char>::empty()) == Seq::<char>::empty());
}

/// The workspaces that arrive are shown, each once; what went wrong is shown as it is.
pub proof fn workspaces_arrive_once(
    g: &mut OrgGateUi,
    result: Result<Json, String>,
    view: &OrgGateUi,
    shown: Memberships,
    words: &'static str,
)
    requires
        call_ensures(OrgGateUi::orgs_loaded, (g, result), ()),
        *view == *final(g),
        call_ensures(OrgGateUi::memberships, (view,), shown),
        call_ensures(OrgGateUi::create_label, (view,), words),
    ensures
        result matches Err(m) ==> shown == Memberships::Failed(m),
        result is Ok ==> shown is Nothing || shown is Rows,
        shown matches Memberships::Rows(rows) ==> rows@.len() > 0 && forall|i: int, j: int|
            0 <= i < j < rows@.len() ==> (#[trigger] rows@[i]).0@ != (#[trigger] rows@[j]).0@,
        view.submitting ==> words@ == "Creating…"@,
        !view.submitting ==> words@ == "Create workspace"@,
        final(g).submitting == old(g).submitting && final(g).error == old(g).error,
{
    if result is Ok && shown is Rows {
        let rows = final(g).orgs->Ready_0@;
        let parsed = choose|parsed: Seq<OrgRow>| #[trigger]
            gate::org_views(parsed) == gate::orgs_in(result->Ok_0) && exists|sorted: Seq<OrgRow>| #[trigger]
                crate::sorting::stably_sorted::<OrgRow, gate::MembershipOrder>(parsed, sorted) && rows
                    == gate::first_of_each_org(sorted);
        let sorted = choose|sorted: Seq<OrgRow>| #[trigger]
            crate::sorting::stably_sorted::<OrgRow, gate::MembershipOrder>(parsed, sorted) && rows
                == gate::first_of_each_org(sorted);
        gate::each_org_stays_once(sorted);
        assert forall|i: int, j: int| 0 <= i < j < shown->Rows_0@.len() implies (
        #[trigger] shown->Rows_0@[i]).0@ != (#[trigger] shown->Rows_0@[j]).0@ by {
            assert(rows[i].organization_id@ != rows[j].organization_id@);
        }
    }
}

// ---------------------------------------------------------------------------
// Session tabs
// ---------------------------------------------------------------------------

/// Closing a tab leads to the next one, or from the last to the one before; a single tab leads to none.
pub proof fn closing_leads_to_the_neighbour(order: &[String], closed: &str, r: Option<String>, i: int)
    requires
        call_ensures(tabs::next_after_close, (order, closed), r),
    ensures
        0 <= i < order@.len() && order@[i]@ == closed@ && (forall|k: int|
            0 <= k < i ==> (#[trigger] order@[k])@ != closed@) ==> {
            &&& i + 1 < order@.len() ==> r == Some(order@[i + 1])
            &&& i + 1 == order@.len() && i > 0 ==> r == Some(order@[i - 1])
            &&& order@.len() == 1 ==> r is None
        },
        (forall|k: int| 0 <= k < order@.len() ==> (#[trigger] order@[k])@ != closed@) ==> r is None,
{
    let p = tabs::id_is(closed@);
    search_meaning(order@, p);
    if 0 <= i < order@.len() && order@[i]@ == closed@ && (forall|k: int|
        0 <= k < i ==> (#[trigger] order@[k])@ != closed@) {
        assert(p(order@[i]));
        assert forall|k: int| 0 <= k < i implies !p(#[trigger] order@[k]) by {
            assert(order@[k]@ != closed@);
        }
        search_stops_at(order@, p, i);
    }
    if forall|k: int| 0 <= k < order@.len() ==> (#[trigger] order@[k])@ != closed@ {
        if first_at(order@, p) is Some {
            assert(p(order@[first_at(order@, p)->0]));
        }
    }
}

/// A closed tab is archived. Another tab stays selected; the selected one hands over to its neighbour.
pub proof fn a_closed_tab_is_archived(
    s: &mut Shell,
    state: &mut AppState,
    id: String,
    now: Timestamp,
    r: TabClosed,
    before: &AppState,
    space: &str,
    rows: Vec<&Chat>,
    order: &[String],
    closed: &str,
    next: Option<String>,
)
    requires
        call_ensures(Shell::close_session_tab, (s, state, id, now), r),
        forall|i: int, j: int|
            0 <= i < j < old(state).chats@.len() ==> (#[trigger] old(state).chats@[i]).id@ != (
            #[trigger] old(state).chats@[j]).id@,
        *before == *old(state),
        before.selected_space is Some ==> space@ == before.selected_space->0@,
        call_ensures(AppState::chats_in_space, (before, space), rows),
        order@.len() == rows@.len(),
        forall|k: int| 0 <= k < rows@.len() ==> #[trigger] order@[k] == rows@[k].id,
        closed@ == id@,
        call_ensures(tabs::next_after_close, (order, closed), next),
    ensures
        old(state).engine_attached ==> r.call == Some(Mutation::SetChatArchived { chat_id: id, archived: true }),
        !old(state).engine_attached ==> r.call is None && r.send_seen is None,
        (old(state).selected_chat matches Some(c) ==> c@ != id@) ==> *final(state) == *old(state)
            && r.send_seen is None,
        (old(state).selected_chat matches Some(c) && c@ == id@) && old(state).selected_space is Some ==> text_opt(
            final(state).selected_chat,
        ) == text_opt(next),
        (old(state).selected_chat matches Some(c) && c@ == id@) && old(state).selected_space is None ==> final(state).selected_chat is None,
        final(s).chat_menu is None && final(s).route == old(s).route,
{
    if old(state).selected_chat is Some && old(state).selected_chat->0@ == id@ {
        let strip = choose|strip: Seq<&Chat>| #[trigger]
            tabs::strip_tabs(*old(state), strip) && AppState::chat_selected(
                *old(state),
                tabs::tab_after(tabs::ids_of(strip), id@),
                now,
                *final(state),
                text_opt(r.send_seen),
            );
        if old(state).selected_space is Some {
            tab_order_is_one(*old(state), old(state).selected_space->0, strip, rows@);
            assert(order@ =~= tabs::ids_of(strip));
        } else {
            search_meaning(tabs::ids_of(strip), tabs::id_is(id@));
        }
    }
}

proof fn tab_order_is_one(state: AppState, space: String, a: Seq<&Chat>, b: Seq<&Chat>)
    requires
        state.in_tab_order(space@, a),
        state.in_tab_order(space@, b),
        forall|i: int, j: int|
            0 <= i < j < state.chats@.len() ==> (#[trigger] state.chats@[i]).id@ != (
            #[trigger] state.chats@[j]).id@,
    ensures
        a == b,
{
    let p = choose|rows: Seq<&Chat>|
        pointees(rows) == state.chats@.filter(|c: Chat| state::shown_in(c, space@))
            && #[trigger] crate::sorting::stably_sorted::<&Chat, order::CreationOrder>(rows, a);
    let q = choose|rows: Seq<&Chat>|
        pointees(rows) == state.chats@.filter(|c: Chat| state::shown_in(c, space@))
            && #[trigger] crate::sorting::stably_sorted::<&Chat, order::CreationOrder>(rows, b);
    assert(pointees(p) == pointees(q));
    assert(p.len() == pointees(p).len() && q.len() == pointees(q).len());
    assert forall|k: int| 0 <= k < p.len() implies p[k] == q[k] by {
        assert(pointees(p)[k] == *p[k]);
        assert(pointees(q)[k] == *q[k]);
    }
    assert(p =~= q);
    tabs_lie_in_the_space(state, space, a);
    assert forall|i: int, j: int|
        0 <= i < a.len() && 0 <= j < a.len() && crate::sorting::tied::<&Chat, order::CreationOrder>(
            a[i],
            a[j],
        ) implies a[i] == a[j] by {
        text::text_at_most_is_total_order(a[i].id@, a[j].id@, a[i].id@);
        assert(a[i].id@ == a[j].id@);
        let x = choose|x: int| 0 <= x < state.chats@.len() && state.chats@[x] == *a[i];
        let y = choose|y: int| 0 <= y < state.chats@.len() && state.chats@[y] == *a[j];
        if x < y {
            assert(state.chats@[x].id@ != state.chats@[y].id@);
        }
        if y < x {
            assert(state.chats@[y].id@ != state.chats@[x].id@);
        }
    }
    crate::sorting::sorted_is_unique::<&Chat, order::CreationOrder>(a, b);
}

/// The pointer hovers over one tab; leaving another does not matter.
pub proof fn the_pointer_hovers_over_one_tab(s: &mut Shell, id: String, inside: bool)
    requires
        call_ensures(Shell::tab_hovered, (s, id, inside), ()),
    ensures
        inside ==> final(s).tab_hover == Some(id),
        !inside && (old(s).tab_hover matches Some(h) && h@ == id@) ==> final(s).tab_hover is None,
        !inside && (old(s).tab_hover matches Some(h) ==> h@ != id@) ==> final(s).tab_hover == old(s).tab_hover,
{
}

/// The strip shows the chats of the selected space that are not archived, as they were made, with the selected
/// one marked and a dot on those that need attention.
pub proof fn the_strip_shows_the_tabs_of_the_space(s: &Shell, state: &AppState, now: Timestamp, strip: TabStrip)
    requires
        call_ensures(Shell::session_tab_strip, (s, state, now), strip),
    ensures
        state.selected_space is None ==> strip.tabs@.len() == 0 && !strip.new_tab,
        strip.new_tab <==> state.selected_space is Some,
        strip.new_tab_active <==> state.selected_space is Some && state.selected_chat is None,
        s.settings.right_pane_open ==> !strip.toggle_changes,
        forall|k: int|
            0 <= k < strip.tabs@.len() ==> {
                &&& (#[trigger] strip.tabs@[k]).selected <==> (state.selected_chat matches Some(c) && c@
                    == strip.tabs@[k].chat_id@)
                &&& strip.tabs@[k].hovered <==> (s.tab_hover matches Some(h) && h@
                    == strip.tabs@[k].chat_id@)
                &&& strip.tabs@[k].dot <==> !strip.tabs@[k].hovered && strip.tabs@[k].status
                    != ChatIndicator::Idle
                &&& exists|i: int|
                    0 <= i < state.chats@.len() && (#[trigger] state.chats@[i]).id == strip.tabs@[k].chat_id
                        && !state.chats@[i].archived && (state.chats@[i].space_id matches Some(sp) && sp@
                        == state.selected_space->0@)
            },
{
    let tabs = choose|tabs: Seq<&Chat>| #[trigger]
        tabs::strip_tabs(*state, tabs) && strip.tabs@.len() == tabs.len() && (forall|i: int|
            0 <= i < strip.tabs@.len() ==> tabs::tab_shows(
                #[trigger] strip.tabs@[i],
                *tabs[i],
                *state,
                text_opt(s.tab_hover),
                now,
            ));
    if state.selected_space is Some {
        let space = state.selected_space->0;
        tabs_lie_in_the_space(*state, space, tabs);
        assert forall|k: int| 0 <= k < strip.tabs@.len() implies {
            &&& (#[trigger] strip.tabs@[k]).selected <==> (state.selected_chat matches Some(c) && c@
                == strip.tabs@[k].chat_id@)
            &&& strip.tabs@[k].hovered <==> (s.tab_hover matches Some(h) && h@ == strip.tabs@[k].chat_id@)
            &&& strip.tabs@[k].dot <==> !strip.tabs@[k].hovered && strip.tabs@[k].status
                != ChatIndicator::Idle
            &&& exists|i: int|
                0 <= i < state.chats@.len() && (#[trigger] state.chats@[i]).id == strip.tabs@[k].chat_id
                    && !state.chats@[i].archived && (state.chats@[i].space_id matches Some(sp) && sp@
                    == state.selected_space->0@)
        } by {
            let c = *tabs[k];
            let i = choose|i: int| 0 <= i < state.chats@.len() && state.chats@[i] == c;
            assert(state.chats@[i].id == strip.tabs@[k].chat_id);
        }
    }
}

proof fn tabs_lie_in_the_space(state: AppState, space: String, tabs: Seq<&Chat>)
    requires
        state.in_tab_order(space@, tabs),
    ensures
        forall|k: int|
            0 <= k < tabs.len() ==> state.chats@.contains(*(#[trigger] tabs[k])) && !tabs[k].archived && (
            tabs[k].space_id matches Some(id) && id@ == space@),
{
    let p = |c: Chat| state::shown_in(c, space@);
    let picked = choose|picked: Seq<&Chat>|
        pointees(picked) == state.chats@.filter(|c: Chat| state::shown_in(c, space@))
            && #[trigger] crate::sorting::stably_sorted::<&Chat, order::CreationOrder>(picked, tabs);
    crate::laws::ground::same_members(tabs, picked);
    filtered_members(state.chats@, p);
    assert forall|k: int| 0 <= k < tabs.len() implies state.chats@.contains(*(#[trigger] tabs[k]))
        && !tabs[k].archived && (tabs[k].space_id matches Some(id) && id@ == space@) by {
        let m = choose|m: int| 0 <= m < picked.len() && picked[m] == tabs[k];
        assert(pointees(picked)[m] == *tabs[k]);
        assert(p(state.chats@.filter(p)[m]));
    }
}

// ---------------------------------------------------------------------------
// Sidebar
// ---------------------------------------------------------------------------

/// Ungrouped, the sidebar lists every chat that is not archived, in their order, with the selected one marked.
pub proof fn the_sidebar_lists_every_open_chat(
    state: &AppState,
    now: Timestamp,
    items: Vec<SidebarItem>,
    shown: Vec<&Chat>,
    k: int,
    id: &str,
    indicator: Indicator,
)
    requires
        0 <= k < shown@.len() ==> id@ == shown@[k].id@,
        call_ensures(AppState::indicator_for, (state, id, now), indicator),
        call_ensures(chat_sidebar, (state, false, now), items),
        call_ensures(AppState::visible_chats, (state,), shown),
    ensures
        items@.len() == shown@.len(),
        forall|i: int|
            0 <= i < items@.len() ==> (#[trigger] items@[i] matches SidebarItem::Row(row) && row.chat_id
                == shown@[i].id && (match shown@[i].title {
                Some(title) => row.title@ == title@,
                None => row.title@ == "New session"@,
            }) && (row.selected <==> (state.selected_chat matches Some(c) && c@ == shown@[i].id@))),
        0 <= k < items@.len() ==> (items@[k] matches SidebarItem::Row(row) && row.indicator == indicator),
{
    let lines = choose|lines: Seq<Result<Chat, Seq<char>>>| #[trigger]
        crate::shell::sidebar::sidebar_lines(*state, false, lines) && crate::shell::sidebar::items_show(
            items@,
            lines,
            *state,
            now,
        );
    let chats = state.chats@.filter(|c: Chat| !c.archived);
    assert(pointees(shown@) == chats);
    assert(lines == crate::shell::sidebar::chat_lines(chats));
    assert(lines.len() == chats.len());
    if 0 <= k < items@.len() {
        assert(pointees(shown@)[k] == *shown@[k]);
        assert(lines[k] == Ok::<Chat, Seq<char>>(chats[k]));
        assert(crate::shell::sidebar::item_shows(items@[k], lines[k], *state, now));
    }
    assert forall|i: int| 0 <= i < items@.len() implies (#[trigger] items@[i] matches SidebarItem::Row(row)
        && row.chat_id == shown@[i].id && (match shown@[i].title {
        Some(title) => row.title@ == title@,
        None => row.title@ == "New session"@,
    }) && (row.selected <==> (state.selected_chat matches Some(c) && c@ == shown@[i].id@))) by {
        assert(pointees(shown@)[i] == *shown@[i]);
        assert(lines[i] == Ok::<Chat, Seq<char>>(chats[i]));
        assert(crate::shell::sidebar::item_shows(items@[i], lines[i], *state, now));
    }
}

/// A row of a space names its device, says whether that is there, and shows the most urgent of its chats.
pub proof fn a_space_row_tells_of_its_device(
    state: &AppState,
    fresh: &[String],
    now: Timestamp,
    rows: Vec<SpaceRow>,
    i: int,
    device: &str,
    row: Option<&Device>,
)
    requires
        call_ensures(spaces::spaces_section, (state, fresh, now), rows),
        0 <= i < state.spaces@.len(),
        device@ == state.spaces@[i].device_id@,
        call_ensures(AppState::device_row, (state, device), row),
    ensures
        rows@.len() == state.spaces@.len(),
        rows@[i].space_id == state.spaces@[i].id && rows@[i].name == state.spaces@[i].display_name,
        rows@[i].selected <==> (state.selected_space matches Some(s) && s@ == state.spaces@[i].id@),
        row matches Some(d) ==> rows@[i].device_line@ == (if rows@[i].offline {
            "@ "@ + d.name@ + " · offline"@
        } else {
            "@ "@ + d.name@
        }),
        row is None ==> !rows@[i].offline && rows@[i].device_line@ == "@ "@ + "Unknown device"@,
        (state.local_device_id matches Some(l) && l@ == device@) ==> !rows@[i].offline,
        (forall|k: int| 0 <= k < fresh@.len() ==> (#[trigger] fresh@[k])@ != device@) && row is Some && (
        state.local_device_id matches Some(l) ==> l@ != device@) ==> rows@[i].offline,
        (exists|k: int| 0 <= k < fresh@.len() && (#[trigger] fresh@[k])@ == device@) ==> !rows@[i].offline,
        rows@[i].attention is None || rows@[i].attention == Some(ChatIndicator::AwaitingInput)
            || rows@[i].attention == Some(ChatIndicator::Working),
{
    let p = |s: String| s@ == device@;
    search_meaning(fresh@, p);
    let shown = rows@[i];
    if exists|k: int| 0 <= k < fresh@.len() && (#[trigger] fresh@[k])@ == device@ {
        let k = choose|k: int| 0 <= k < fresh@.len() && (#[trigger] fresh@[k])@ == device@;
        assert(p(fresh@[k]));
    }
    if forall|k: int| 0 <= k < fresh@.len() ==> (#[trigger] fresh@[k])@ != device@ {
        if first_at(fresh@, p) is Some {
            assert(p(fresh@[first_at(fresh@, p)->0]));
        }
    }
}

/// A space shows that one of its chats waits, before that one runs.
pub proof fn a_space_shows_its_most_urgent_chat(
    state: &AppState,
    fresh: &[String],
    now: Timestamp,
    rows: Vec<SpaceRow>,
    i: int,
    k: int,
    chat: &Chat,
    status: ChatIndicator,
)
    requires
        call_ensures(spaces::spaces_section, (state, fresh, now), rows),
        0 <= i < state.spaces@.len(),
        0 <= k < state.chats@.len(),
        *chat == state.chats@[k],
        call_ensures(AppState::display_status_for, (state, chat, now), status),
        !chat.archived,
        chat.space_id matches Some(s) && s@ == state.spaces@[i].id@,
    ensures
        status == ChatIndicator::AwaitingInput ==> rows@[i].attention == Some(ChatIndicator::AwaitingInput),
        status == ChatIndicator::Working ==> rows@[i].attention is Some,
{
    let shown = rows@[i];
    if status == ChatIndicator::AwaitingInput || status == ChatIndicator::Working {
        spaces::attention_is_the_most_urgent(*state, now, state.spaces@[i].id@, k);
    }
}

/// What a space shows, one of its open chats shows.
pub proof fn a_space_shows_what_one_of_its_chats_shows(
    state: &AppState,
    fresh: &[String],
    now: Timestamp,
    rows: Vec<SpaceRow>,
    i: int,
)
    requires
        call_ensures(spaces::spaces_section, (state, fresh, now), rows),
        0 <= i < state.spaces@.len(),
    ensures
        rows@[i].attention matches Some(dot) ==> exists|k: int|
            0 <= k < state.chats@.len() && !(#[trigger] state.chats@[k]).archived && (
            state.chats@[k].space_id matches Some(sp) && sp@ == state.spaces@[i].id@) && state.shown_status(
                state.chats@[k],
                now,
            ) == dot,
{
    let row = rows@[i];
    let id = state.spaces@[i].id@;
    let waits = spaces::shows_in(*state, now, id, ChatIndicator::AwaitingInput);
    let runs = spaces::shows_in(*state, now, id, ChatIndicator::Working);
    search_meaning(state.chats@, waits);
    search_meaning(state.chats@, runs);
    if row.attention == Some(ChatIndicator::AwaitingInput) {
        let k = first_at(state.chats@, waits)->0;
        assert(waits(state.chats@[k]));
        assert(!state.chats@[k].archived);
    } else if row.attention is Some {
        let k = first_at(state.chats@, runs)->0;
        assert(runs(state.chats@[k]));
        assert(!state.chats@[k].archived);
    }
}

// ---------------------------------------------------------------------------
// Spaces
// ---------------------------------------------------------------------------

/// Activating a space shows the chat, selects the space, and lands on one of its open chats where it has any.
pub proof fn activating_a_space_lands_in_it(
    s: &mut Shell,
    state: &mut AppState,
    id: String,
    now: Timestamp,
    seen: Option<String>,
)
    requires
        call_ensures(Shell::activate_space, (s, state, id, now), seen),
        forall|i: int, j: int|
            0 <= i < j < old(state).chats@.len() ==> (#[trigger] old(state).chats@[i]).id@ != (
            #[trigger] old(state).chats@[j]).id@,
    ensures
        final(s).route == Route::Chat,
        final(s).settings.last_space_id == Some(id),
        (exists|k: int|
            0 <= k < old(state).chats@.len() && !(#[trigger] old(state).chats@[k]).archived && (old(state).chats@[k].space_id matches Some(sp) && sp@ == id@)) ==> final(state).selected_chat is Some,
        final(state).selected_chat matches Some(c) ==> exists|k: int|
            0 <= k < old(state).chats@.len() && (#[trigger] old(state).chats@[k]).id@ == c@ && !old(state).chats@[k].archived && (old(state).chats@[k].space_id matches Some(sp) && sp@ == id@),
        final(state).selected_space matches Some(sp) && sp@ == id@,
{
    let target = choose|target: Option<String>| #[trigger]
        AppState::chat_selected(
            AppState::space_selected(*old(state), Some(id)),
            target,
            now,
            *final(state),
            text_opt(seen),
        ) && text_opt(target) == spaces::landing(old(state).chats@, old(s).space_last_chat@, id@);
    spaces::landing_stays_in_the_space(old(state).chats@, old(s).space_last_chat@, id@);
    let chats = old(state).chats@;
    let here = spaces::open_in(id@);
    search_meaning(chats, here);
    if exists|k: int|
        0 <= k < chats.len() && !(#[trigger] chats[k]).archived && (chats[k].space_id matches Some(sp) && sp@
            == id@) {
        let k = choose|k: int|
            0 <= k < chats.len() && !(#[trigger] chats[k]).archived && (chats[k].space_id matches Some(sp)
                && sp@ == id@);
        assert(here(chats[k]));
    }
    if target is Some {
        let t = target->0;
        let q = spaces::open_as(t@, id@);
        search_meaning(chats, q);
        let k = first_at(chats, q)->0;
        assert(q(chats[k]));
        let w = chat_is(t@);
        search_meaning(chats, w);
        assert(w(chats[k]));
        let m = first_at(chats, w)->0;
        assert(w(chats[m]));
        if m < k {
            assert(chats[m].id@ != chats[k].id@);
        }
    }
}

/// A space is landed in where one was last: on its last chat while that is open there, and else on the first
/// of its open chats in the list.
pub proof fn a_space_is_landed_in_where_one_was_last(
    s: &mut Shell,
    state: &mut AppState,
    id: String,
    now: Timestamp,
    seen: Option<String>,
    m: int,
    k: int,
)
    requires
        call_ensures(Shell::activate_space, (s, state, id, now), seen),
    ensures
        0 <= m < old(s).space_last_chat@.len() && old(s).space_last_chat@[m].space_id@ == id@ && (forall|j: int|
            0 <= j < m ==> (#[trigger] old(s).space_last_chat@[j]).space_id@ != id@) && 0 <= k < old(state).chats@.len() && old(state).chats@[k].id@ == old(s).space_last_chat@[m].chat_id@ && !old(state).chats@[k].archived && (old(state).chats@[k].space_id matches Some(sp) && sp@ == id@) ==> (final(state).selected_chat matches Some(c) && c@ == old(s).space_last_chat@[m].chat_id@),
        (forall|j: int|
            0 <= j < old(s).space_last_chat@.len() ==> (#[trigger] old(s).space_last_chat@[j]).space_id@ != id@)
            && 0 <= k < old(state).chats@.len() && !old(state).chats@[k].archived && (old(state).chats@[k].space_id matches Some(sp) && sp@ == id@) && (forall|j: int|
            0 <= j < k ==> (#[trigger] old(state).chats@[j]).archived || !(old(state).chats@[j].space_id matches Some(sp) && sp@ == id@)) ==> (final(state).selected_chat matches Some(c)
            && c@ == old(state).chats@[k].id@),
{
    let target = choose|target: Option<String>| #[trigger]
        AppState::chat_selected(
            AppState::space_selected(*old(state), Some(id)),
            target,
            now,
            *final(state),
            text_opt(seen),
        ) && text_opt(target) == spaces::landing(old(state).chats@, old(s).space_last_chat@, id@);
    let chats = old(state).chats@;
    let memory = old(s).space_last_chat@;
    let p = spaces::memory_of(id@);
    search_meaning(memory, p);
    if 0 <= m < memory.len() && memory[m].space_id@ == id@ && (forall|j: int|
        0 <= j < m ==> (#[trigger] memory[j]).space_id@ != id@) {
        assert(p(memory[m]));
        assert forall|j: int| 0 <= j < m implies !p(#[trigger] memory[j]) by {
            assert(memory[j].space_id@ != id@);
        }
        search_stops_at(memory, p, m);
        let q = spaces::open_as(memory[m].chat_id@, id@);
        search_meaning(chats, q);
        if 0 <= k < chats.len() && chats[k].id@ == memory[m].chat_id@ && !chats[k].archived && (
        chats[k].space_id matches Some(sp) && sp@ == id@) {
            assert(q(chats[k]));
        }
    }
    if forall|j: int| 0 <= j < memory.len() ==> (#[trigger] memory[j]).space_id@ != id@ {
        if first_at(memory, p) is Some {
            assert(p(memory[first_at(memory, p)->0]));
        }
        let w = spaces::open_in(id@);
        if 0 <= k < chats.len() && !chats[k].archived && (chats[k].space_id matches Some(sp) && sp@ == id@) && (
        forall|j: int|
            0 <= j < k ==> (#[trigger] chats[j]).archived || !(chats[j].space_id matches Some(sp) && sp@ == id@)) {
            assert(w(chats[k]));
            assert forall|j: int| 0 <= j < k implies !w(#[trigger] chats[j]) by {
                assert(chats[j].archived || !(chats[j].space_id matches Some(sp) && sp@ == id@));
            }
            search_stops_at(chats, w, k);
        }
    }
}

/// The menu of a space leads to its dialogs.
pub proof fn a_space_menu_leads_to_its_dialogs(
    a: &mut Shell,
    id: String,
    b: &mut Shell,
    c: &mut Shell,
    d: &mut Shell,
    e: &mut Shell,
    f: &mut Shell,
    attached: bool,
    call: Option<Mutation>,
)
    requires
        call_ensures(Shell::open_space_menu, (a, id), ()),
        call_ensures(Shell::close_space_menu, (b,), ()),
        call_ensures(Shell::cancel_rename_space, (c,), ()),
        call_ensures(Shell::ask_delete_space, (d, id), ()),
        call_ensures(Shell::cancel_delete_space, (e,), ()),
        call_ensures(Shell::delete_space, (f, id, attached), call),
    ensures
        final(a).space_menu == Some(id),
        final(b).space_menu is None,
        final(c).rename_space_dialog is None,
        final(d).delete_space_confirm == Some(id) && final(d).space_menu is None,
        final(e).delete_space_confirm is None,
        final(f).delete_space_confirm is None,
        attached ==> call == Some(Mutation::DeleteSpace { space_id: id }),
        !attached ==> call is None && final(f).sidebar_notice is Some,
{
}

/// A rename of a space begins with its name and sends the new one without surrounding spaces.
pub proof fn a_space_is_renamed_to_what_was_typed(
    a: &mut Shell,
    state: &AppState,
    id: String,
    key: &str,
    row: Option<&Space>,
    current: String,
    b: &mut Shell,
    typed: &str,
    plain: String,
    attached: bool,
    call: Option<Mutation>,
)
    requires
        call_ensures(Shell::open_rename_space, (a, state, id), current),
        key@ == id@,
        call_ensures(AppState::space_row, (state, key), row),
        *old(b) == *final(a),
        call_ensures(Shell::submit_rename_space, (b, typed, attached), call),
        call_ensures(text::trim, (typed,), plain),
    ensures
        final(a).rename_space_dialog matches Some(d) && d.space_id == id && d.focus_pending,
        row matches Some(s) ==> current@ == s.display_name@,
        row is None ==> current@.len() == 0,
        final(b).rename_space_dialog is None,
        call is Some <==> plain@.len() > 0 && attached,
        call matches Some(m) ==> (m matches Mutation::RenameSpace { space_id, name } && space_id == id && name@
            == plain@),
{
}

/// The rows of the sessions mark the selected chat and name each by its title.
pub proof fn session_rows_name_their_chats(
    state: &AppState,
    fresh: &[String],
    now: Timestamp,
    rows: Vec<SessionRow>,
)
    requires
        call_ensures(spaces::active_rows, (state, fresh, now), rows),
    ensures
        forall|k: int|
            0 <= k < rows@.len() ==> {
                &&& (#[trigger] rows@[k]).selected <==> (state.selected_chat matches Some(c) && c@
                    == rows@[k].chat_id@)
                &&& exists|i: int|
                    0 <= i < state.chats@.len() && (#[trigger] state.chats@[i]).id == rows@[k].chat_id
                        && !state.chats@[i].archived && (match state.chats@[i].title_line {
                        Some(title) => rows@[k].title@ == title@,
                        None => rows@[k].title@ == "New session"@,
                    })
            },
        forall|i: int, j: int|
            0 <= i < j < rows@.len() && (#[trigger] rows@[j]).status == ChatIndicator::AwaitingInput ==> (
            #[trigger] rows@[i]).status == ChatIndicator::AwaitingInput,
{
    let order = choose|list: Seq<(ChatIndicator, &Chat)>| #[trigger]
        state.in_attention_order(now, list) && rows@.len() == list.len() && (forall|i: int|
            0 <= i < rows@.len() ==> spaces::session_row_shows(
                #[trigger] rows@[i],
                list[i].0,
                *list[i].1,
                *state,
                fresh@,
                now,
            ));
    let p = |c: Chat| state::shown_somewhere(c, state.spaces@);
    let picked = choose|picked: Seq<(ChatIndicator, &Chat)>|
        picked.map_values(|row: (ChatIndicator, &Chat)| *row.1) == state.chats@.filter(
            |c: Chat| state::shown_somewhere(c, state.spaces@),
        ) && (forall|i: int|
            0 <= i < picked.len() ==> (#[trigger] picked[i]).0 == state.shown_status(*picked[i].1, now))
            && #[trigger] crate::sorting::stably_sorted::<(ChatIndicator, &Chat), order::AttentionOrder>(
            picked,
            order,
        );
    crate::laws::ground::same_members(order, picked);
    filtered_members(state.chats@, p);
    let all = picked.map_values(|row: (ChatIndicator, &Chat)| *row.1);
    assert forall|k: int| 0 <= k < rows@.len() implies {
        &&& (#[trigger] rows@[k]).selected <==> (state.selected_chat matches Some(c) && c@
            == rows@[k].chat_id@)
        &&& exists|i: int|
            0 <= i < state.chats@.len() && (#[trigger] state.chats@[i]).id == rows@[k].chat_id
                && !state.chats@[i].archived && (match state.chats@[i].title_line {
                Some(title) => rows@[k].title@ == title@,
                None => rows@[k].title@ == "New session"@,
            })
    } by {
        let m = choose|m: int| 0 <= m < picked.len() && picked[m] == order[k];
        assert(all[m] == *picked[m].1);
        assert(p(state.chats@.filter(p)[m]));
        let c = *order[k].1;
        let i = choose|i: int| 0 <= i < state.chats@.len() && state.chats@[i] == c;
        assert(state.chats@[i].id == rows@[k].chat_id);
    }
    assert(crate::sorting::in_order::<(ChatIndicator, &Chat), order::AttentionOrder>(order));
    assert forall|i: int, j: int|
        0 <= i < j < rows@.len() && (#[trigger] rows@[j]).status == ChatIndicator::AwaitingInput implies (
    #[trigger] rows@[i]).status == ChatIndicator::AwaitingInput by {
        assert(<order::AttentionOrder as crate::sorting::Precedence<(ChatIndicator, &Chat)>>::le(
            order[i],
            order[j],
        ));
    }
}

/// A warning names the space, its device and how many sessions go with it.
pub proof fn a_warning_counts_what_goes(
    state: &AppState,
    id: &str,
    r: String,
    space: Option<&Space>,
    device: &str,
    name: Option<&str>,
    rows: Vec<&Chat>,
)
    requires
        call_ensures(spaces::removal_warning, (state, id), r),
        call_ensures(AppState::space_row, (state, id), space),
        space is Some ==> device@ == space->0.device_id@,
        call_ensures(AppState::device_name, (state, device), name),
        call_ensures(AppState::chats_in_space, (state, id), rows),
    ensures
        ({
            let what = match space {
                Some(s) => s.display_name@,
                None => "this space"@,
            };
            let place = if space is Some && name is Some {
                name->0@
            } else {
                "its device"@
            };
            let sessions = if rows@.len() == 1 {
                "1 session"@
            } else {
                text::decimal_text(rows@.len()) + " sessions"@
            };
            r@ == "Removing “"@ + what + "” permanently deletes its "@ + sessions + " on "@ + place
                + ". This can’t be undone."@
        }),
{
    let picked = choose|picked: Seq<&Chat>|
        pointees(picked) == state.chats@.filter(|c: Chat| state::shown_in(c, id@))
            && #[trigger] crate::sorting::stably_sorted::<&Chat, order::CreationOrder>(picked, rows@);
    crate::laws::ground::same_members(rows@, picked);
    assert(pointees(picked).len() == picked.len());
    let p = |c: Chat| state::shown_in(c, id@);
    let q = spaces::open_in(id@);
    assert(state.chats@.filter(p) == state.chats@.filter(q)) by {
        assert(p =~= q);
    }
}

/// A row says where its session runs: the space, the branch where there is one, and the device, which may be
/// away.
pub proof fn a_row_says_where_its_session_runs(
    state: &AppState,
    fresh: &[String],
    now: Timestamp,
    rows: Vec<SessionRow>,
    k: int,
    chat: &Chat,
    space: Option<&Space>,
    device: &str,
    name: Option<&str>,
    heard: bool,
    online: bool,
    branch: &str,
    on: String,
    recent: Timestamp,
    age: String,
)
    requires
        call_ensures(spaces::active_rows, (state, fresh, now), rows),
        0 <= k < rows@.len(),
        forall|i: int, j: int|
            0 <= i < j < state.chats@.len() ==> (#[trigger] state.chats@[i]).id@ != (
            #[trigger] state.chats@[j]).id@,
        state.chats@.contains(*chat) && chat.id@ == rows@[k].chat_id@,
        call_ensures(AppState::space_for_chat, (state, chat), space),
        space is Some ==> device@ == space->0.device_id@,
        call_ensures(AppState::device_name, (state, device), name),
        heard <==> exists|m: int| 0 <= m < fresh@.len() && (#[trigger] fresh@[m])@ == device@,
        call_ensures(AppState::device_online, (state, device, heard), online),
        chat.branch is Some ==> branch@ == chat.branch->0@,
        call_ensures(text::trim, (branch,), on),
        call_ensures(Chat::recent_at, (chat,), recent),
        call_ensures(crate::project::format_time_ago, (recent, now), age),
    ensures
        rows@[k].time_ago@ == age@,
        space matches Some(s) ==> {
            let place = (match name {
                Some(n) => n@,
                None => "Unknown device"@,
            }) + (if online {
                Seq::<char>::empty()
            } else {
                " (offline)"@
            });
            &&& chat.branch is Some && on@.len() > 0 ==> rows@[k].location@ == s.display_name@ + " · "@ + branch@
                + " · "@ + place
            &&& chat.branch is None || on@.len() == 0 ==> rows@[k].location@ == s.display_name@ + " · "@ + place
        },
{
    let list = choose|list: Seq<(ChatIndicator, &Chat)>| #[trigger]
        state.in_attention_order(now, list) && rows@.len() == list.len() && (forall|i: int|
            0 <= i < rows@.len() ==> spaces::session_row_shows(
                #[trigger] rows@[i],
                list[i].0,
                *list[i].1,
                *state,
                fresh@,
                now,
            ));
    let row = rows@[k];
    listed_chats_are_chats(*state, now, list, k);
    let own = *list[k].1;
    let x = choose|x: int| 0 <= x < state.chats@.len() && state.chats@[x] == own;
    let y = choose|y: int| 0 <= y < state.chats@.len() && state.chats@[y] == *chat;
    if x < y {
        assert(state.chats@[x].id@ != state.chats@[y].id@);
    }
    if y < x {
        assert(state.chats@[y].id@ != state.chats@[x].id@);
    }
    assert(own == *chat);
    let p = |s: String| s@ == device@;
    search_meaning(fresh@, p);
    if heard {
        let m = choose|m: int| 0 <= m < fresh@.len() && (#[trigger] fresh@[m])@ == device@;
        assert(p(fresh@[m]));
    } else if first_at(fresh@, p) is Some {
        assert(p(fresh@[first_at(fresh@, p)->0]));
    }
    if space is Some {
        let n = match name {
            Some(n) => n@,
            None => "Unknown device"@,
        };
        assert(n + Seq::<char>::empty() =~= n);
    }
}

proof fn listed_chats_are_chats(state: AppState, now: Timestamp, list: Seq<(ChatIndicator, &Chat)>, k: int)
    requires
        state.in_attention_order(now, list),
        0 <= k < list.len(),
    ensures
        state.chats@.contains(*list[k].1),
        list[k].0 == state.shown_status(*list[k].1, now),
{
    let p = |c: Chat| state::shown_somewhere(c, state.spaces@);
    let picked = choose|picked: Seq<(ChatIndicator, &Chat)>|
        picked.map_values(|row: (ChatIndicator, &Chat)| *row.1) == state.chats@.filter(
            |c: Chat| state::shown_somewhere(c, state.spaces@),
        ) && (forall|i: int|
            0 <= i < picked.len() ==> (#[trigger] picked[i]).0 == state.shown_status(*picked[i].1, now))
            && #[trigger] crate::sorting::stably_sorted::<(ChatIndicator, &Chat), order::AttentionOrder>(
            picked,
            list,
        );
    crate::laws::ground::same_members(list, picked);
    filtered_members(state.chats@, p);
    let all = picked.map_values(|row: (ChatIndicator, &Chat)| *row.1);
    let m = choose|m: int| 0 <= m < picked.len() && picked[m] == list[k];
    assert(all[m] == *picked[m].1);
    assert(p(state.chats@.filter(p)[m]));
}

/// The tabs are those of the space, in their order: titles, harnesses and states are those of their chats, and
/// the changes can be shown where the folder is under version control.
pub proof fn tabs_tell_of_their_chats(
    s: &Shell,
    state: &AppState,
    now: Timestamp,
    strip: TabStrip,
    space: &str,
    rows: Vec<&Chat>,
    k: int,
    chat: &Chat,
    status: ChatIndicator,
    git: bool,
)
    requires
        call_ensures(Shell::session_tab_strip, (s, state, now), strip),
        state.selected_space is Some,
        space@ == state.selected_space->0@,
        call_ensures(AppState::chats_in_space, (state, space), rows),
        forall|i: int, j: int|
            0 <= i < j < state.chats@.len() ==> (#[trigger] state.chats@[i]).id@ != (
            #[trigger] state.chats@[j]).id@,
        0 <= k < rows@.len(),
        *chat == *rows@[k],
        call_ensures(AppState::display_status_for, (state, chat, now), status),
        call_ensures(AppState::selected_space_git, (state,), git),
    ensures
        strip.tabs@.len() == rows@.len(),
        strip.tabs@[k].chat_id == chat.id,
        chat.title_line matches Some(title) ==> strip.tabs@[k].title@ == title@,
        chat.title_line is None ==> strip.tabs@[k].title@ == "New session"@,
        strip.tabs@[k].status == status,
        chat.config matches Some(c) ==> strip.tabs@[k].harness == Some(c.harness),
        chat.config is None ==> strip.tabs@[k].harness is None,
        strip.toggle_changes <==> git && !s.settings.right_pane_open,
{
    let order = choose|tabs: Seq<&Chat>| #[trigger]
        tabs::strip_tabs(*state, tabs) && strip.tabs@.len() == tabs.len() && (forall|i: int|
            0 <= i < strip.tabs@.len() ==> tabs::tab_shows(
                #[trigger] strip.tabs@[i],
                *tabs[i],
                *state,
                text_opt(s.tab_hover),
                now,
            ));
    tab_order_is_one(*state, state.selected_space->0, order, rows@);
    let tab = strip.tabs@[k];
}

/// Grouped, the sidebar shows a header for each project and below it the open chats of that project.
pub proof fn the_grouped_sidebar_shows_every_open_chat(
    state: &AppState,
    now: Timestamp,
    items: Vec<SidebarItem>,
    c: Chat,
)
    requires
        call_ensures(chat_sidebar, (state, true, now), items),
        state.chats@.contains(c) && !c.archived,
    ensures
        exists|i: int|
            0 <= i < items@.len() && (#[trigger] items@[i] matches SidebarItem::Row(row) && row.chat_id == c.id),
        items@.len() > 0 && items@[0] is Header,
        forall|i: int|
            0 <= i < items@.len() ==> (#[trigger] items@[i] matches SidebarItem::Row(row) ==> exists|j: int|
                0 <= j < state.chats@.len() && (#[trigger] state.chats@[j]).id == row.chat_id
                    && !state.chats@[j].archived),
{
    let lines = choose|lines: Seq<Result<Chat, Seq<char>>>| #[trigger]
        crate::shell::sidebar::sidebar_lines(*state, true, lines) && crate::shell::sidebar::items_show(
            items@,
            lines,
            *state,
            now,
        );
    let p = |c: Chat| !c.archived;
    let chats = state.chats@.filter(|c: Chat| !c.archived);
    filtered_members(state.chats@, p);
    assert(chats.contains(c));
    let groups = choose|groups: Seq<crate::project::ChatGroup<'_>>| #[trigger]
        crate::project::grouped(groups, chats) && lines == crate::shell::sidebar::group_lines(groups);
    let labels = crate::project::labels_in_order(chats);
    crate::project::labels_are_distinct(chats);
    let x = choose|x: int| 0 <= x < chats.len() && chats[x] == c;
    assert(crate::project::chat_label(chats[x]) == crate::project::chat_label(c));
    assert(labels.contains(crate::project::chat_label(c)));
    let g = choose|g: int| 0 <= g < labels.len() && labels[g] == crate::project::chat_label(c);
    let own = |d: Chat| crate::project::chat_label(d) == labels[g];
    filtered_members(chats, own);
    assert(own(c));
    assert(groups[g].label@ == labels[g]);
    assert(pointees(groups[g].chats@) == chats.filter(own));
    assert(pointees(groups[g].chats@).contains(c));
    lines_hold_their_groups(groups);
    assert(lines.contains(Ok::<Chat, Seq<char>>(c)));
    let i = choose|i: int| 0 <= i < lines.len() && lines[i] == Ok::<Chat, Seq<char>>(c);
    assert(crate::shell::sidebar::item_shows(items@[i], lines[i], *state, now));
    assert(crate::shell::sidebar::item_shows(items@[0], lines[0], *state, now));
    assert forall|i: int| 0 <= i < items@.len() implies (#[trigger] items@[i] matches SidebarItem::Row(row)
        ==> exists|j: int|
        0 <= j < state.chats@.len() && (#[trigger] state.chats@[j]).id == row.chat_id
            && !state.chats@[j].archived) by {
        assert(crate::shell::sidebar::item_shows(items@[i], lines[i], *state, now));
        if items@[i] is Row {
            let d = lines[i]->Ok_0;
            let h = choose|h: int|
                0 <= h < groups.len() && pointees((#[trigger] groups[h]).chats@).contains(d);
            let of = |e: Chat| crate::project::chat_label(e) == labels[h];
            filtered_members(chats, of);
            assert(groups[h].label@ == labels[h]);
            assert(pointees(groups[h].chats@) == chats.filter(of));
            assert(chats.contains(d));
            assert(state.chats@.contains(d));
            let j = choose|j: int| 0 <= j < state.chats@.len() && state.chats@[j] == d;
            assert(state.chats@[j].id == items@[i]->Row_0.chat_id);
        }
    }
}

proof fn lines_hold_their_groups(groups: Seq<crate::project::ChatGroup<'_>>)
    ensures
        ({
            let lines = crate::shell::sidebar::group_lines(groups);
            &&& groups.len() > 0 ==> lines.len() > 0 && lines[0] is Err
            &&& forall|g: int, c: Chat|
                0 <= g < groups.len() && #[trigger] pointees(groups[g].chats@).contains(c) ==> lines.contains(
                    Ok::<Chat, Seq<char>>(c),
                )
            &&& forall|i: int|
                0 <= i < lines.len() && #[trigger] lines[i] is Ok ==> exists|g: int|
                    0 <= g < groups.len() && pointees((#[trigger] groups[g]).chats@).contains(lines[i]->Ok_0)
        }),
    decreases groups.len(),
{
    if groups.len() > 0 {
        let front = groups.drop_last();
        lines_hold_their_groups(front);
        let before = crate::shell::sidebar::group_lines(front);
        let head = before.push(Err::<Chat, Seq<char>>(groups.last().label@));
        let tail = crate::shell::sidebar::chat_lines(pointees(groups.last().chats@));
        let lines = crate::shell::sidebar::group_lines(groups);
        assert(lines == head + tail);
        assert(tail.len() == groups.last().chats@.len());
        if front.len() == 0 {
            assert(before.len() == 0);
            assert(lines[0] == head[0]);
        } else {
            assert(lines[0] == before[0]);
        }
        assert forall|g: int, c: Chat|
            0 <= g < groups.len() && #[trigger] pointees(groups[g].chats@).contains(c) implies lines.contains(
            Ok::<Chat, Seq<char>>(c),
        ) by {
            if g < front.len() {
                assert(front[g] == groups[g]);
                assert(pointees(front[g].chats@).contains(c));
                assert(before.contains(Ok::<Chat, Seq<char>>(c)));
                let i = choose|i: int| 0 <= i < before.len() && before[i] == Ok::<Chat, Seq<char>>(c);
                assert(lines[i] == before[i]);
            } else {
                let chats = pointees(groups.last().chats@);
                let i = choose|i: int| 0 <= i < chats.len() && chats[i] == c;
                assert(tail[i] == Ok::<Chat, Seq<char>>(c));
                assert(lines[head.len() + i] == tail[i]);
            }
        }
        assert forall|i: int| 0 <= i < lines.len() && #[trigger] lines[i] is Ok implies exists|g: int|
            0 <= g < groups.len() && pointees((#[trigger] groups[g]).chats@).contains(lines[i]->Ok_0) by {
            if i < before.len() {
                assert(before[i] == lines[i]);
                let g = choose|g: int|
                    0 <= g < front.len() && pointees((#[trigger] front[g]).chats@).contains(before[i]->Ok_0);
                assert(groups[g] == front[g]);
                assert(pointees(groups[g].chats@).contains(lines[i]->Ok_0));
            } else {
                let m = i - head.len();
                assert(lines[i] == tail[m]);
                let chats = pointees(groups.last().chats@);
                assert(tail[m] == Ok::<Chat, Seq<char>>(chats[m]));
                assert(chats.contains(chats[m]));
                assert(pointees(groups[groups.len() - 1].chats@).contains(lines[i]->Ok_0));
            }
        }
    } else {
        assert(crate::shell::sidebar::group_lines(groups).len() == 0);
    }
}

/// The window begins with the chat, under the splash, with nothing open.
pub proof fn the_window_begins_under_the_splash(settings: LayoutFlags, s: Shell, g: OrgGateUi)
    requires
        call_ensures(Shell::new, (settings,), s),
        call_ensures(OrgGateUi::new, (), g),
    ensures
        s.route == Route::Chat && s.splash == SplashPhase::Visible && s.settings == settings,
        s.chat_menu is None && s.rename_dialog is None && s.delete_confirm is None && !s.user_menu_open,
        s.add_space is None && s.space_menu is None && s.terminal is None && s.space_last_chat@.len() == 0,
        g.orgs is Idle && !g.submitting && g.error is None,
{
}

} // verus!
