//! The frame of the window: routes, panes, the splash, menus and dialogs, and the requests they make.

use crate::gate::{phase_of, ConnectionStatus, EngineMode, GatePhase};
use crate::json::{text_member, Json};
use crate::model::{Chat, UserProfile};
use crate::order::{indicator_at, Indicator};
use crate::settings::accounts::{AccountCall, AccountsPage};
use crate::settings::archived::ArchivedPage;
use crate::settings::shortcuts::{KeymapConfig, ShortcutsPage};
use crate::shell::org::OrgGateUi;
use crate::shell::palette::AddSpaceFlow;
use crate::state::{chat_with, session_of, AppState, Effects};
use crate::terminal::panel::{TabRef, TerminalPanel};
use crate::text;
use crate::text::{text_opt, trimmed};
use crate::time::{truncated_div, Timestamp};
use vstd::prelude::*;

verus! {

/// The settings sections.
#[derive(Debug, Clone, Copy, PartialEq, Eq, Structural)]
pub enum SettingsSection {
    Devices,
    Agents,
    Shortcuts,
    Archived,
}

impl SettingsSection {
    /// Every section, in display order.
    pub open spec fn in_order() -> Seq<SettingsSection> {
        seq![
            SettingsSection::Devices,
            SettingsSection::Agents,
            SettingsSection::Shortcuts,
            SettingsSection::Archived,
        ]
    }

    /// Every section, in display order.
    pub fn all() -> (r: Vec<SettingsSection>)
        ensures
            r@ == Self::in_order(),
    {
        let mut r: Vec<SettingsSection> = Vec::new();
        r.push(SettingsSection::Devices);
        r.push(SettingsSection::Agents);
        r.push(SettingsSection::Shortcuts);
        r.push(SettingsSection::Archived);
        r
    }

    /// The words that stand for a section.
    pub open spec fn words(self) -> Seq<char> {
        match self {
            SettingsSection::Devices => "Devices"@,
            SettingsSection::Agents => "Agents"@,
            SettingsSection::Shortcuts => "Shortcuts"@,
            SettingsSection::Archived => "Archived"@,
        }
    }

    pub fn label(self) -> (r: &'static str)
        ensures
            r@ == self.words(),
    {
        match self {
            SettingsSection::Devices => "Devices",
            SettingsSection::Agents => "Agents",
            SettingsSection::Shortcuts => "Shortcuts",
            SettingsSection::Archived => "Archived",
        }
    }
}

/// What the main outlet shows.
#[derive(Debug, Clone, Copy, PartialEq, Eq, Structural)]
pub enum Route {
    Chat,
    Settings(SettingsSection),
}

/// The splash that covers the boot.
#[derive(Debug, Clone, Copy, PartialEq, Eq, Structural)]
pub enum SplashPhase {
    Visible,
    FadingOut,
    Gone,
}

/// A pane that opens or closes. The epoch tells one animation from the next.
#[derive(Debug, Clone, Copy, PartialEq, Eq, Structural)]
pub struct PaneTween {
    pub opening: bool,
    pub epoch: usize,
}

/// The persisted flags of the layout.
#[derive(Debug, PartialEq, Eq)]
pub struct LayoutFlags {
    pub sidebar_collapsed: bool,
    pub sidebar_grouped: bool,
    pub right_pane_open: bool,
    pub terminal_open: bool,
    pub last_space_id: Option<String>,
}

/// A change to synced rows.
#[derive(Debug, PartialEq, Eq)]
pub enum Mutation {
    RenameChat { chat_id: String, title: String },
    SetChatArchived { chat_id: String, archived: bool },
    DeleteChat { chat_id: String },
    CreateSpace { space_id: String, device_id: String, path: String, git_detected: bool },
    RenameSpace { space_id: String, name: String },
    DeleteSpace { space_id: String },
}

/// The chat that was last open in a space.
#[derive(Debug, PartialEq, Eq)]
pub struct LastChat {
    pub space_id: String,
    pub chat_id: String,
}

/// The rename dialog of a space.
#[derive(Debug, PartialEq, Eq)]
pub struct RenameSpaceDialog {
    pub space_id: String,
    /// The input gets the focus when the dialog is drawn for the first time.
    pub focus_pending: bool,
}

/// The shell.
pub struct Shell {
    pub route: Route,
    /// The terminal panel, once it was opened.
    pub terminal: Option<TerminalPanel>,
    /// Whether the changes pane was ever opened.
    pub changes: bool,
    pub devices_page: bool,
    pub archived_page: Option<ArchivedPage>,
    pub shortcuts_page: Option<ShortcutsPage>,
    pub accounts_page: Option<AccountsPage>,
    /// The chat whose context menu is open.
    pub chat_menu: Option<String>,
    /// The chat that is being renamed.
    pub rename_dialog: Option<String>,
    /// The chat that waits for its deletion to be confirmed.
    pub delete_confirm: Option<String>,
    pub user_menu_open: bool,
    /// When a click outside closed the user menu, in milliseconds of a steady clock.
    pub user_menu_dismissed_at: Option<u64>,
    pub sidebar_notice: Option<String>,
    pub org: Option<OrgGateUi>,
    pub settings: LayoutFlags,
    pub sidebar_tween: Option<PaneTween>,
    pub right_tween: Option<PaneTween>,
    pub terminal_tween: Option<PaneTween>,
    pub tween_epoch: usize,
    pub splash: SplashPhase,
    pub add_space: Option<AddSpaceFlow>,
    /// The space whose context menu is open.
    pub space_menu: Option<String>,
    /// The space that is being renamed.
    pub rename_space_dialog: Option<RenameSpaceDialog>,
    /// The space that waits for its removal to be confirmed.
    pub delete_space_confirm: Option<String>,
    /// The tab under the pointer.
    pub tab_hover: Option<String>,
    pub space_last_chat: Vec<LastChat>,
}

/// A click on the trigger within this time after a click outside does not open the menu again.
pub const MENU_REOPEN_MS: u64 = 400;

impl Shell {
    /// What a shell always satisfies.
    pub open spec fn wf(self) -> bool {
        self.terminal matches Some(panel) ==> panel.wf()
    }

    /// The terminal panel has room for one more tab.
    pub open spec fn has_room(self) -> bool {
        self.terminal matches Some(panel) ==> panel.tab_seq < u64::MAX && (forall|i: int|
            0 <= i < panel.chats@.len() ==> (#[trigger] panel.chats@[i]).tabs@.len() < usize::MAX)
    }

    /// A shell at boot, with the flags that were kept.
    pub fn new(settings: LayoutFlags) -> (s: Self)
        ensures
            s.wf(),
            s.route == Route::Chat,
            s.terminal is None,
            !s.changes,
            !s.devices_page,
            s.archived_page is None,
            s.shortcuts_page is None,
            s.accounts_page is None,
            s.chat_menu is None,
            s.rename_dialog is None,
            s.delete_confirm is None,
            !s.user_menu_open,
            s.user_menu_dismissed_at is None,
            s.sidebar_notice is None,
            s.org is None,
            s.settings == settings,
            s.sidebar_tween is None,
            s.right_tween is None,
            s.terminal_tween is None,
            s.tween_epoch == 0,
            s.splash == SplashPhase::Visible,
            s.add_space is None,
            s.space_menu is None,
            s.rename_space_dialog is None,
            s.delete_space_confirm is None,
            s.tab_hover is None,
            s.space_last_chat@.len() == 0,
    {
        Shell {
            route: Route::Chat,
            terminal: None,
            changes: false,
            devices_page: false,
            archived_page: None,
            shortcuts_page: None,
            accounts_page: None,
            chat_menu: None,
            rename_dialog: None,
            delete_confirm: None,
            user_menu_open: false,
            user_menu_dismissed_at: None,
            sidebar_notice: None,
            org: None,
            settings,
            sidebar_tween: None,
            right_tween: None,
            terminal_tween: None,
            tween_epoch: 0,
            splash: SplashPhase::Visible,
            add_space: None,
            space_menu: None,
            rename_space_dialog: None,
            delete_space_confirm: None,
            tab_hover: None,
            space_last_chat: Vec::new(),
        }
    }

    /// Whether the heartbeat of the working indicator has anything to refresh.
    pub fn ticks(state: &AppState, now: Timestamp) -> (r: bool)
        ensures
            r == (state.selected_chat matches Some(id) && indicator_at(
                session_of(state.sessions@, id@),
                now,
            ) != Indicator::Nothing),
    {
        match &state.selected_chat {
            Some(id) => state.indicator_for(id.as_str(), now) != Indicator::Nothing,
            None => false,
        }
    }

    // ---- splash ----

    /// The splash after the connection changed. It never comes back.
    pub open spec fn splash_after(splash: SplashPhase, connection: ConnectionStatus) -> SplashPhase {
        match connection {
            ConnectionStatus::Ready => if splash == SplashPhase::Visible {
                SplashPhase::FadingOut
            } else {
                splash
            },
            ConnectionStatus::Failed(_) => SplashPhase::Gone,
            ConnectionStatus::Connecting => splash,
        }
    }

    /// Takes a change of the connection. Returns whether the splash starts to fade.
    pub fn on_state_changed(&mut self, connection: &ConnectionStatus) -> (fades: bool)
        ensures
            *final(self) == (Shell {
                splash: Self::splash_after(old(self).splash, *connection),
                ..*old(self)
            }),
            fades == (*connection is Ready && old(self).splash == SplashPhase::Visible),
    {
        match connection {
            ConnectionStatus::Ready => {
                if self.splash == SplashPhase::Visible {
                    self.splash = SplashPhase::FadingOut;
                    true
                } else {
                    false
                }
            },
            ConnectionStatus::Failed(_) => {
                self.splash = SplashPhase::Gone;
                false
            },
            ConnectionStatus::Connecting => false,
        }
    }

    /// The splash has faded.
    pub fn splash_faded(&mut self)
        ensures
            *final(self) == (Shell { splash: SplashPhase::Gone, ..*old(self) }),
    {
        self.splash = SplashPhase::Gone;
    }

    // ---- panes ----

    /// Shows or hides the sidebar.
    pub fn toggle_sidebar(&mut self)
        requires
            old(self).tween_epoch < usize::MAX,
        ensures
            *final(self) == (Shell {
                settings: LayoutFlags {
                    sidebar_collapsed: !old(self).settings.sidebar_collapsed,
                    ..old(self).settings
                },
                tween_epoch: (old(self).tween_epoch + 1) as usize,
                sidebar_tween: Some(
                    PaneTween {
                        opening: old(self).settings.sidebar_collapsed,
                        epoch: (old(self).tween_epoch + 1) as usize,
                    },
                ),
                ..*old(self)
            }),
    {
        let opening = self.settings.sidebar_collapsed;
        self.settings.sidebar_collapsed = !opening;
        self.tween_epoch = self.tween_epoch + 1;
        self.sidebar_tween = Some(PaneTween { opening, epoch: self.tween_epoch });
    }

    /// The sidebar edge is dragged: the sidebar shows, and follows the pointer without an animation.
    pub fn sidebar_dragged(&mut self)
        ensures
            *final(self) == (Shell {
                settings: LayoutFlags { sidebar_collapsed: false, ..old(self).settings },
                sidebar_tween: None,
                ..*old(self)
            }),
    {
        self.settings.sidebar_collapsed = false;
        self.sidebar_tween = None;
    }

    /// Shows or hides the right pane. The pane is made when it first opens. Returns whether it has to
    /// watch for changes.
    pub fn toggle_right_pane(&mut self) -> (watch: bool)
        requires
            old(self).tween_epoch < usize::MAX,
        ensures
            watch == !old(self).settings.right_pane_open,
            *final(self) == (Shell {
                settings: LayoutFlags { right_pane_open: watch, ..old(self).settings },
                tween_epoch: (old(self).tween_epoch + 1) as usize,
                right_tween: Some(
                    PaneTween { opening: watch, epoch: (old(self).tween_epoch + 1) as usize },
                ),
                changes: old(self).changes || watch,
                ..*old(self)
            }),
    {
        let opening = !self.settings.right_pane_open;
        self.settings.right_pane_open = opening;
        self.tween_epoch = self.tween_epoch + 1;
        self.right_tween = Some(PaneTween { opening, epoch: self.tween_epoch });
        if opening {
            self.changes = true;
        }
        opening
    }

    /// The edge of the right pane is dragged.
    pub fn right_pane_dragged(&mut self)
        ensures
            *final(self) == (Shell { right_tween: None, ..*old(self) }),
    {
        self.right_tween = None;
    }

    /// Draws the right pane; one that was open at boot is made now. Returns whether it shows anything.
    pub fn right_pane(&mut self) -> (shown: bool)
        ensures
            shown == old(self).settings.right_pane_open,
            *final(self) == (Shell { changes: old(self).changes || shown, ..*old(self) }),
    {
        if self.settings.right_pane_open {
            self.changes = true;
        }
        self.settings.right_pane_open
    }

    /// The panel was opened or closed; one that was never opened is made first.
    pub open spec fn panel_set(
        before: Option<TerminalPanel>,
        after: Option<TerminalPanel>,
        open: bool,
        selected: Option<Seq<char>>,
        engine_attached: bool,
        start: Option<TabRef>,
    ) -> bool {
        exists|panel: TerminalPanel| #[trigger]
            panel.wf() && Self::was_panel(before, panel) && (match after {
                Some(a) => Self::panel_opened(panel, a, open, selected, engine_attached, start),
                None => false,
            })
    }

    /// The panel that was there, or a new one.
    pub open spec fn was_panel(before: Option<TerminalPanel>, panel: TerminalPanel) -> bool {
        match before {
            Some(b) => panel == b,
            None => panel.chats@.len() == 0 && !panel.open && panel.tab_seq == 0 && panel.drag is None
                && panel.last_selected is None,
        }
    }

    /// A panel was opened or closed; opening makes the first tab of the selected chat.
    pub open spec fn panel_opened(
        panel: TerminalPanel,
        after: TerminalPanel,
        open: bool,
        selected: Option<Seq<char>>,
        engine_attached: bool,
        start: Option<TabRef>,
    ) -> bool {
        &&& after.wf()
        &&& start is Some <==> open && panel.needs_tab(selected) && engine_attached
        &&& match start {
            None => after == (TerminalPanel { open, ..panel }),
            Some(r) => TerminalPanel::tab_opened(
                TerminalPanel { open, ..panel },
                after,
                r.chat@,
            ) && selected == Some(r.chat@) && r.key == panel.tab_seq + 1,
        }
    }

    fn set_panel_open(
        &mut self,
        open: bool,
        selected: &Option<String>,
        engine_attached: bool,
    ) -> (start: Option<TabRef>)
        requires
            old(self).wf(),
            old(self).has_room(),
        ensures
            final(self).wf(),
            Self::panel_set(
                old(self).terminal,
                final(self).terminal,
                open,
                text_opt(*selected),
                engine_attached,
                start,
            ),
            *final(self) == (Shell { terminal: final(self).terminal, ..*old(self) }),
    {
        let mut panel = match self.terminal.take() {
            Some(panel) => panel,
            None => TerminalPanel::new(),
        };
        let ghost before = panel;
        let start = panel.set_open(open, selected, engine_attached);
        self.terminal = Some(panel);
        proof {
            assert(before.wf());
        }
        start
    }

    /// Shows or hides the terminal. Closing keeps every session alive. Returns the session to start.
    pub fn toggle_terminal(&mut self, selected: &Option<String>, engine_attached: bool) -> (start: Option<
        TabRef,
    >)
        requires
            old(self).wf(),
            old(self).has_room(),
            old(self).tween_epoch < usize::MAX,
        ensures
            final(self).wf(),
            ({
                let opening = !old(self).settings.terminal_open;
                &&& Self::panel_set(
                    old(self).terminal,
                    final(self).terminal,
                    opening,
                    text_opt(*selected),
                    engine_attached,
                    start,
                )
                &&& *final(self) == (Shell {
                    settings: LayoutFlags { terminal_open: opening, ..old(self).settings },
                    tween_epoch: (old(self).tween_epoch + 1) as usize,
                    terminal_tween: Some(
                        PaneTween { opening, epoch: (old(self).tween_epoch + 1) as usize },
                    ),
                    terminal: final(self).terminal,
                    ..*old(self)
                })
            }),
    {
        let opening = !self.settings.terminal_open;
        self.settings.terminal_open = opening;
        self.tween_epoch = self.tween_epoch + 1;
        self.terminal_tween = Some(PaneTween { opening, epoch: self.tween_epoch });
        self.set_panel_open(opening, selected, engine_attached)
    }

    /// The animation of the terminal is over, or its edge is dragged.
    pub fn terminal_settled(&mut self)
        ensures
            *final(self) == (Shell { terminal_tween: None, ..*old(self) }),
    {
        self.terminal_tween = None;
    }

    /// Draws the terminal; one that was open at boot is made now. Returns whether it shows, and the
    /// session to start.
    pub fn terminal_dock(&mut self, selected: &Option<String>, engine_attached: bool) -> (r: (
        bool,
        Option<TabRef>,
    ))
        requires
            old(self).wf(),
            old(self).has_room(),
        ensures
            final(self).wf(),
            ({
                let wanted = old(self).settings.terminal_open || old(self).terminal_tween is Some;
                let made = old(self).settings.terminal_open && old(self).terminal is None;
                &&& r.0 == (wanted && (made || old(self).terminal is Some))
                &&& made ==> Self::panel_set(
                    None,
                    final(self).terminal,
                    true,
                    text_opt(*selected),
                    engine_attached,
                    r.1,
                )
                &&& !made ==> r.1 is None && final(self).terminal == old(self).terminal
                &&& *final(self) == (Shell { terminal: final(self).terminal, ..*old(self) })
            }),
    {
        if !self.settings.terminal_open && self.terminal_tween.is_none() {
            return (false, None);
        }
        let mut start: Option<TabRef> = None;
        if self.settings.terminal_open && self.terminal.is_none() {
            start = self.set_panel_open(true, selected, engine_attached);
        }
        (self.terminal.is_some(), start)
    }

    /// Switches between a flat list and one grouped by project.
    pub fn toggle_grouped(&mut self)
        ensures
            *final(self) == (Shell {
                settings: LayoutFlags {
                    sidebar_grouped: !old(self).settings.sidebar_grouped,
                    ..old(self).settings
                },
                ..*old(self)
            }),
    {
        self.settings.sidebar_grouped = !self.settings.sidebar_grouped;
    }

    // ---- routes ----

    /// Opens a section of the settings.
    pub fn open_settings(&mut self, section: SettingsSection)
        ensures
            *final(self) == (Shell {
                route: Route::Settings(section),
                user_menu_open: false,
                chat_menu: None,
                ..*old(self)
            }),
    {
        self.route = Route::Settings(section);
        self.user_menu_open = false;
        self.chat_menu = None;
    }

    /// Goes back to the chats.
    pub fn close_settings(&mut self)
        ensures
            *final(self) == (Shell { route: Route::Chat, ..*old(self) }),
    {
        self.route = Route::Chat;
    }

    /// Goes to the canvas of a new session.
    pub fn new_session(&mut self, state: &mut AppState, now: Timestamp) -> (fx: Effects)
        ensures
            *final(self) == (Shell { route: Route::Chat, ..*old(self) }),
            AppState::chat_selected(
                *old(state),
                None,
                now,
                *final(state),
                text_opt(fx.send_seen),
            ),
            fx.notify == old(state).selected_chat is Some,
    {
        self.route = Route::Chat;
        state.select_chat(None, now)
    }

    /// Makes the page of a section where it is not there yet; a page that is there stays as it is. Returns
    /// what a new page asks of the engine.
    pub fn settings_outlet(
        &mut self,
        section: SettingsSection,
        keymap: KeymapConfig,
        engine_attached: bool,
    ) -> (call: Option<AccountCall>)
        ensures
            *final(self) == (Shell {
                devices_page: final(self).devices_page,
                archived_page: final(self).archived_page,
                shortcuts_page: final(self).shortcuts_page,
                accounts_page: final(self).accounts_page,
                ..*old(self)
            }),
            final(self).devices_page == (old(self).devices_page || section
                == SettingsSection::Devices),
            if section == SettingsSection::Agents && old(self).accounts_page is None {
                final(self).accounts_page matches Some(page) && AccountsPage::just_opened(
                    page,
                    engine_attached,
                    call,
                )
            } else {
                final(self).accounts_page == old(self).accounts_page && call is None
            },
            final(self).shortcuts_page == (if section == SettingsSection::Shortcuts && old(
                self,
            ).shortcuts_page is None {
                Some(ShortcutsPage { keymap, recording: None, conflict_notice: None })
            } else {
                old(self).shortcuts_page
            }),
            final(self).archived_page == (if section == SettingsSection::Archived && old(
                self,
            ).archived_page is None {
                Some(ArchivedPage { error: None, busy: None })
            } else {
                old(self).archived_page
            }),
    {
        let mut call: Option<AccountCall> = None;
        match section {
            SettingsSection::Devices => {
                self.devices_page = true;
            },
            SettingsSection::Agents => {
                if self.accounts_page.is_none() {
                    let (page, asked) = AccountsPage::new(engine_attached);
                    self.accounts_page = Some(page);
                    call = asked;
                }
            },
            SettingsSection::Shortcuts => {
                if self.shortcuts_page.is_none() {
                    self.shortcuts_page = Some(ShortcutsPage::new(keymap));
                }
            },
            SettingsSection::Archived => {
                if self.archived_page.is_none() {
                    self.archived_page = Some(ArchivedPage::new());
                }
            },
        }
        call
    }

    // ---- mutations ----

    /// The notice after a mutation was asked for.
    pub open spec fn notice_after(self, engine_attached: bool, notice: Option<String>) -> bool {
        if engine_attached {
            notice == self.sidebar_notice
        } else {
            text_opt(notice) == Some("Engine not connected"@)
        }
    }

    /// Asks for a change; without an engine the sidebar says so.
    pub fn mutate(&mut self, op: Mutation, engine_attached: bool) -> (call: Option<Mutation>)
        ensures
            call == (if engine_attached {
                Some(op)
            } else {
                None
            }),
            old(self).notice_after(engine_attached, final(self).sidebar_notice),
            *final(self) == (Shell { sidebar_notice: final(self).sidebar_notice, ..*old(self) }),
    {
        if !engine_attached {
            self.sidebar_notice = Some("Engine not connected".to_owned());
            return None;
        }
        Some(op)
    }

    /// A change was refused.
    pub fn mutate_failed(&mut self, message: String)
        ensures
            *final(self) == (Shell { sidebar_notice: Some(message), ..*old(self) }),
    {
        self.sidebar_notice = Some(message);
    }

    /// Takes a click on the notice.
    pub fn dismiss_notice(&mut self)
        ensures
            *final(self) == (Shell { sidebar_notice: None, ..*old(self) }),
    {
        self.sidebar_notice = None;
    }

    /// Opens the context menu of a chat.
    pub fn open_chat_menu(&mut self, chat_id: String)
        ensures
            *final(self) == (Shell { chat_menu: Some(chat_id), ..*old(self) }),
    {
        self.chat_menu = Some(chat_id);
    }

    /// Closes the context menu of a chat.
    pub fn close_chat_menu(&mut self)
        ensures
            *final(self) == (Shell { chat_menu: None, ..*old(self) }),
    {
        self.chat_menu = None;
    }

    /// Opens the rename dialog of a chat. Returns the title to start with.
    pub fn open_rename_chat(&mut self, state: &AppState, chat_id: String) -> (current: String)
        ensures
            *final(self) == (Shell { chat_menu: None, rename_dialog: Some(chat_id), ..*old(self) }),
            current@ == (match chat_with(state.chats@, chat_id@) {
                Some(c) => match c.title {
                    Some(title) => title@,
                    None => Seq::empty(),
                },
                None => Seq::empty(),
            }),
    {
        self.chat_menu = None;
        let current = match state.chat_row(chat_id.as_str()) {
            Some(c) => match &c.title {
                Some(title) => title.clone(),
                None => String::new(),
            },
            None => String::new(),
        };
        self.rename_dialog = Some(chat_id);
        current
    }

    /// Closes the rename dialog of a chat.
    pub fn cancel_rename_chat(&mut self)
        ensures
            *final(self) == (Shell { rename_dialog: None, ..*old(self) }),
    {
        self.rename_dialog = None;
    }

    /// Takes the typed title: the dialog closes, and white space alone changes nothing.
    pub fn submit_rename_chat(&mut self, typed: &str, engine_attached: bool) -> (call: Option<Mutation>)
        ensures
            ({
                let asks = old(self).rename_dialog is Some && trimmed(typed@).len() > 0;
                let closed = Shell { rename_dialog: None, ..*old(self) };
                &&& *final(self) == (Shell { sidebar_notice: final(self).sidebar_notice, ..closed })
                &&& if asks {
                    closed.notice_after(engine_attached, final(self).sidebar_notice)
                } else {
                    final(self).sidebar_notice == old(self).sidebar_notice
                }
                &&& match call {
                    Some(Mutation::RenameChat { chat_id, title }) => asks && engine_attached && Some(
                        chat_id,
                    ) == old(self).rename_dialog && title@ == trimmed(typed@),
                    Some(_) => false,
                    None => !(asks && engine_attached),
                }
            }),
    {
        match self.rename_dialog.take() {
            Some(chat_id) => {
                let title = text::trim(typed);
                if text::empty(title.as_str()) {
                    return None;
                }
                self.mutate(Mutation::RenameChat { chat_id, title }, engine_attached)
            },
            None => None,
        }
    }

    /// Archives a chat.
    pub fn archive_chat(&mut self, chat_id: String, engine_attached: bool) -> (call: Option<Mutation>)
        ensures
            call == (if engine_attached {
                Some(Mutation::SetChatArchived { chat_id, archived: true })
            } else {
                None
            }),
            old(self).notice_after(engine_attached, final(self).sidebar_notice),
            *final(self) == (Shell {
                chat_menu: None,
                sidebar_notice: final(self).sidebar_notice,
                ..*old(self)
            }),
    {
        self.chat_menu = None;
        self.mutate(Mutation::SetChatArchived { chat_id, archived: true }, engine_attached)
    }

    /// Asks whether to delete a chat.
    pub fn ask_delete_chat(&mut self, chat_id: String)
        ensures
            *final(self) == (Shell { chat_menu: None, delete_confirm: Some(chat_id), ..*old(self) }),
    {
        self.chat_menu = None;
        self.delete_confirm = Some(chat_id);
    }

    /// Closes the question.
    pub fn cancel_delete_chat(&mut self)
        ensures
            *final(self) == (Shell { delete_confirm: None, ..*old(self) }),
    {
        self.delete_confirm = None;
    }

    /// Deletes a chat. A chat that is open is left first.
    pub fn delete_chat(&mut self, state: &mut AppState, chat_id: String, now: Timestamp) -> (call: Option<
        Mutation,
    >)
        ensures
            call == (if old(state).engine_attached {
                Some(Mutation::DeleteChat { chat_id })
            } else {
                None
            }),
            old(self).notice_after(old(state).engine_attached, final(self).sidebar_notice),
            *final(self) == (Shell {
                delete_confirm: None,
                sidebar_notice: final(self).sidebar_notice,
                ..*old(self)
            }),
            if text_opt(old(state).selected_chat) == Some(chat_id@) {
                AppState::chat_selected(*old(state), None, now, *final(state), None)
            } else {
                *final(state) == *old(state)
            },
    {
        self.delete_confirm = None;
        let open = match &state.selected_chat {
            Some(id) => text::same(id.as_str(), chat_id.as_str()),
            None => false,
        };
        if open {
            state.select_chat(None, now);
        }
        self.mutate(Mutation::DeleteChat { chat_id }, state.engine_attached)
    }

    // ---- sign-in ----

    /// Signs out. Returns whether there is an engine to ask.
    pub fn sign_out(&mut self, engine_attached: bool) -> (ask: bool)
        ensures
            ask == engine_attached,
            *final(self) == (Shell { user_menu_open: false, ..*old(self) }),
    {
        self.user_menu_open = false;
        engine_attached
    }

    /// Signing out failed.
    pub fn sign_out_failed(&mut self, message: &str)
        ensures
            text_opt(final(self).sidebar_notice) == Some("Sign out failed: "@ + message@),
            *final(self) == (Shell { sidebar_notice: final(self).sidebar_notice, ..*old(self) }),
    {
        self.sidebar_notice = Some(text::joined("Sign out failed: ", message));
    }

    /// Takes the answer to signing in. Returns the address to open.
    pub fn sign_in_answered(&mut self, result: Result<Json, String>) -> (url: Option<String>)
        ensures
            match result {
                Ok(reply) => text_opt(url) == text_member(reply, "url"@) && *final(self) == *old(self),
                Err(message) => url is None && text_opt(final(self).sidebar_notice) == Some(
                    "Sign in failed: "@ + message@,
                ) && *final(self) == (Shell {
                    sidebar_notice: final(self).sidebar_notice,
                    ..*old(self)
                }),
            },
    {
        match result {
            Ok(reply) => reply.get_text("url"),
            Err(message) => {
                self.sidebar_notice = Some(text::joined("Sign in failed: ", message.as_str()));
                None
            },
        }
    }

    // ---- user menu ----

    /// The menu was dismissed so recently that a click on its trigger belongs to the same click.
    pub open spec fn just_dismissed(self, now_ms: u64) -> bool {
        self.user_menu_dismissed_at matches Some(at) && now_ms - at < MENU_REOPEN_MS
    }

    /// Takes a click on the trigger of the user menu.
    pub fn toggle_user_menu(&mut self, now_ms: u64)
        ensures
            *final(self) == (Shell {
                user_menu_open: !old(self).user_menu_open && !old(self).just_dismissed(now_ms),
                user_menu_dismissed_at: None,
                ..*old(self)
            }),
    {
        let just_dismissed = match self.user_menu_dismissed_at {
            Some(at) => now_ms < at || now_ms - at < MENU_REOPEN_MS,
            None => false,
        };
        self.user_menu_open = !self.user_menu_open && !just_dismissed;
        self.user_menu_dismissed_at = None;
    }

    /// Takes a click outside the user menu.
    pub fn dismiss_user_menu(&mut self, now_ms: u64)
        ensures
            *final(self) == (Shell {
                user_menu_open: false,
                user_menu_dismissed_at: Some(now_ms),
                ..*old(self)
            }),
    {
        self.user_menu_open = false;
        self.user_menu_dismissed_at = Some(now_ms);
    }

    // ---- workspace gate ----

    /// Makes the workspace gate where it is not there yet, and loads its memberships. Returns whether to
    /// ask for them.
    pub fn ensure_org_ui(&mut self, engine_attached: bool) -> (ask: bool)
        ensures
            ask == (old(self).org is None && engine_attached),
            *final(self) == (Shell { org: final(self).org, ..*old(self) }),
            old(self).org is Some ==> final(self).org == old(self).org,
            old(self).org is None ==> (final(self).org matches Some(gate) && gate.error is None
                && !gate.submitting && (if engine_attached {
                gate.orgs is Loading
            } else {
                gate.orgs is Idle
            })),
    {
        if self.org.is_some() {
            return false;
        }
        let mut gate = OrgGateUi::new();
        let ask = gate.load_orgs(engine_attached);
        self.org = Some(gate);
        ask
    }
}

/// A click outside the user menu followed at once by a click on its trigger leaves the menu closed, and
/// a later click opens it.
pub proof fn dismissing_click_keeps_the_menu_closed(dismissed: Shell, at: u64, clicked: u64)
    requires
        dismissed.user_menu_dismissed_at == Some(at),
        !dismissed.user_menu_open,
    ensures
        (!dismissed.user_menu_open && !dismissed.just_dismissed(clicked)) == (clicked - at
            >= MENU_REOPEN_MS),
{
}

/// The splash never returns: once it is gone, no change of the connection brings it back.
pub proof fn splash_never_returns(splash: SplashPhase, connection: ConnectionStatus)
    ensures
        splash == SplashPhase::Gone ==> Shell::splash_after(splash, connection) == SplashPhase::Gone,
        splash != SplashPhase::Visible ==> Shell::splash_after(splash, connection)
            != SplashPhase::Visible,
{
}

// ---------------------------------------------------------------------------
// Keys
// ---------------------------------------------------------------------------

/// An action that a key combination can trigger anywhere.
#[derive(Debug, Clone, Copy, PartialEq, Eq, Structural)]
pub enum ShellAction {
    ToggleSidebar,
    ToggleChanges,
    ToggleTerminal,
}

/// The combination that an action falls back to.
pub open spec fn fallback_of(action: ShellAction) -> Seq<char> {
    match action {
        ShellAction::ToggleSidebar => "mod-s"@,
        ShellAction::ToggleChanges => "mod-b"@,
        ShellAction::ToggleTerminal => "mod-j"@,
    }
}

/// The combination that an action falls back to.
pub fn fallback_combo(action: ShellAction) -> (r: &'static str)
    ensures
        r@ == fallback_of(action),
{
    match action {
        ShellAction::ToggleSidebar => "mod-s",
        ShellAction::ToggleChanges => "mod-b",
        ShellAction::ToggleTerminal => "mod-j",
    }
}

/// The combination to bind: the kept one where it can be read, and the fallback otherwise.
pub fn valid_or_default(candidate: String, readable: bool, fallback: String) -> (r: String)
    ensures
        r == (if readable {
            candidate
        } else {
            fallback
        }),
{
    if readable {
        candidate
    } else {
        fallback
    }
}

// ---------------------------------------------------------------------------
// What the window shows
// ---------------------------------------------------------------------------

/// What fills the window.
#[derive(Debug, PartialEq, Eq)]
pub enum RootView {
    /// Nothing but the splash.
    Blank,
    /// The sidebar, the main panel and the right pane, with a handle for the pane where it is open.
    Panes { right_handle: bool },
    /// The workspace gate.
    OrgGate,
    /// The backend could not be reached.
    Unreachable { error: String },
    /// The sign-in card.
    SignIn,
}

/// The status strip under the transcript.
#[derive(Debug, PartialEq, Eq)]
pub enum StatusStrip {
    /// How the engine was reached.
    Mode(String),
    /// A run is going on, for this many seconds.
    Working { elapsed_secs: i128 },
    AwaitingInput,
    Errored,
    Sending,
}

/// The line on how the engine was reached.
pub open spec fn mode_text(mode: Option<EngineMode>) -> Seq<char> {
    match mode {
        Some(EngineMode::InProcess) => "engine: in-process"@,
        Some(EngineMode::Remote { url }) => "engine: "@ + url@,
        None => Seq::empty(),
    }
}

/// How long a run has been going on, in seconds.
pub open spec fn elapsed_in(state: AppState, chat_id: Seq<char>, now: Timestamp) -> int {
    match session_of(state.sessions@, chat_id) {
        Some(s) => match s.started_at {
            Some(t) => truncated_div(now@ - t@, 1_000_000_000),
            None => 0,
        },
        None => 0,
    }
}

/// The strip shows a state.
pub open spec fn strip_shows(
    strip: StatusStrip,
    state: AppState,
    mode: Option<EngineMode>,
    sending: bool,
    now: Timestamp,
) -> bool {
    match state.selected_chat {
        None => strip matches StatusStrip::Mode(line) && line@ == mode_text(mode),
        Some(id) => match indicator_at(session_of(state.sessions@, id@), now) {
            Indicator::Working => strip matches StatusStrip::Working { elapsed_secs } && elapsed_secs
                == elapsed_in(state, id@, now),
            Indicator::AwaitingInput => strip is AwaitingInput,
            Indicator::Errored => strip is Errored,
            Indicator::Nothing => if sending {
                strip is Sending
            } else {
                strip matches StatusStrip::Mode(line) && line@ == mode_text(mode)
            },
        },
    }
}

/// The words of a strip that has fixed ones.
pub fn strip_label(strip: &StatusStrip) -> (r: Option<&'static str>)
    ensures
        match *strip {
            StatusStrip::AwaitingInput => r matches Some(s) && s@ == "Awaiting your input"@,
            StatusStrip::Errored => r matches Some(s) && s@ == "Run failed"@,
            StatusStrip::Sending => r matches Some(s) && s@ == "Sending…"@,
            _ => r is None,
        },
{
    match strip {
        StatusStrip::AwaitingInput => Some("Awaiting your input"),
        StatusStrip::Errored => Some("Run failed"),
        StatusStrip::Sending => Some("Sending…"),
        _ => None,
    }
}

/// The status strip.
pub fn status_strip(
    state: &AppState,
    mode: Option<&EngineMode>,
    sending: bool,
    now: Timestamp,
) -> (strip: StatusStrip)
    ensures
        strip_shows(
            strip,
            *state,
            match mode {
                Some(m) => Some(*m),
                None => None,
            },
            sending,
            now,
        ),
{
    let line = match mode {
        Some(EngineMode::InProcess) => "engine: in-process".to_owned(),
        Some(EngineMode::Remote { url }) => text::joined("engine: ", url.as_str()),
        None => String::new(),
    };
    match &state.selected_chat {
        None => StatusStrip::Mode(line),
        Some(id) => match state.indicator_for(id.as_str(), now) {
            Indicator::Working => {
                let elapsed_secs: i128 = match state.session_for(id.as_str()) {
                    Some(s) => match s.started_at {
                        Some(t) => now.seconds_since(&t),
                        None => 0,
                    },
                    None => 0,
                };
                StatusStrip::Working { elapsed_secs }
            },
            Indicator::AwaitingInput => StatusStrip::AwaitingInput,
            Indicator::Errored => StatusStrip::Errored,
            Indicator::Nothing => {
                if sending {
                    StatusStrip::Sending
                } else {
                    StatusStrip::Mode(line)
                }
            },
        },
    }
}

/// The title of the main panel.
pub fn main_title(state: &AppState) -> (r: String)
    ensures
        r@ == (match state.current_chat() {
            Some(c) => match c.title {
                Some(title) => title@,
                None => "comet"@,
            },
            None => "comet"@,
        }),
{
    match state.selected_chat_row() {
        Some(c) => match &c.title {
            Some(title) => title.clone(),
            None => "comet".to_owned(),
        },
        None => "comet".to_owned(),
    }
}

impl Shell {
    /// What fills the window.
    pub fn root_view(&self, state: &AppState) -> (view: RootView)
        ensures
            view == (match phase_of(state.connection, state.auth) {
                GatePhase::Ready => RootView::Panes { right_handle: self.settings.right_pane_open },
                GatePhase::Loading => RootView::Blank,
                GatePhase::OrgGate => RootView::OrgGate,
                GatePhase::Failed(error) => RootView::Unreachable { error },
                GatePhase::SignIn => RootView::SignIn,
            }),
    {
        match state.gate() {
            GatePhase::Ready => RootView::Panes { right_handle: self.settings.right_pane_open },
            GatePhase::Loading => RootView::Blank,
            GatePhase::OrgGate => RootView::OrgGate,
            GatePhase::Failed(error) => RootView::Unreachable { error },
            GatePhase::SignIn => RootView::SignIn,
        }
    }

    /// The rows of the settings navigation: each section, and whether it is open.
    pub fn settings_nav(section: SettingsSection) -> (rows: Vec<(SettingsSection, bool)>)
        ensures
            rows@.len() == SettingsSection::in_order().len(),
            forall|i: int|
                0 <= i < rows@.len() ==> (#[trigger] rows@[i]).0 == SettingsSection::in_order()[i]
                    && rows@[i].1 == (rows@[i].0 == section),
    {
        let all = SettingsSection::all();
        let mut rows: Vec<(SettingsSection, bool)> = Vec::new();
        let mut i: usize = 0;
        while i < all.len()
            invariant
                i <= all.len(),
                all@ == SettingsSection::in_order(),
                rows.len() == i,
                forall|k: int|
                    0 <= k < i ==> (#[trigger] rows@[k]).0 == all@[k] && rows@[k].1 == (rows@[k].0
                        == section),
            decreases all.len() - i,
        {
            rows.push((all[i], all[i] == section));
            i = i + 1;
        }
        rows
    }
}

/// The user line and the address under it.
pub fn user_lines(user: Option<&UserProfile>) -> (r: (String, Option<String>))
    ensures
        match user {
            Some(u) => r.0 == (match u.name {
                Some(name) => name,
                None => u.email,
            }) && r.1 == Some(u.email),
            None => r.0@ == "Not signed in"@ && r.1 is None,
        },
{
    match user {
        Some(u) => {
            let line = match &u.name {
                Some(name) => name.clone(),
                None => u.email.clone(),
            };
            (line, Some(u.email.clone()))
        },
        None => ("Not signed in".to_owned(), None),
    }
}

} // verus!
