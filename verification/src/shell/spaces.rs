//! Spaces: switching between them, their sidebar rows, and the sessions across all of them.

use crate::lists;
use crate::lists::{find_first, some_passes};
use crate::model::{recency, Chat, ChatIndicator, Space};
use crate::order::bucket;
use crate::project::{age_text, format_time_ago, seconds_between};
use crate::shell::frame::{LastChat, LayoutFlags, Mutation, RenameSpaceDialog, Route, Shell};
use crate::state::{shown_in, space_with, AppState};
use crate::text;
use crate::text::{decimal_text, text_opt, trimmed};
use crate::time::Timestamp;
use vstd::prelude::*;

verus! {

// ---------------------------------------------------------------------------
// Switching
// ---------------------------------------------------------------------------

/// The test for the memory of a space.
pub open spec fn memory_of(space_id: Seq<char>) -> spec_fn(LastChat) -> bool {
    |l: LastChat| l.space_id@ == space_id
}

/// The test for a chat of a space that is not archived.
pub open spec fn open_in(space_id: Seq<char>) -> spec_fn(Chat) -> bool {
    |c: Chat| shown_in(c, space_id)
}

/// The test for one chat of a space that is not archived.
pub open spec fn open_as(chat_id: Seq<char>, space_id: Seq<char>) -> spec_fn(Chat) -> bool {
    |c: Chat| c.id@ == chat_id && shown_in(c, space_id)
}

/// The most recent chat of a space.
pub open spec fn latest_in(chats: Seq<Chat>, space_id: Seq<char>) -> Option<Seq<char>> {
    match find_first(chats, open_in(space_id)) {
        Some(c) => Some(c.id@),
        None => None,
    }
}

/// The chat to land on in a space: the one that was open there last, while it is alive, else the most
/// recent one, else none.
pub open spec fn landing(
    chats: Seq<Chat>,
    memory: Seq<LastChat>,
    space_id: Seq<char>,
) -> Option<Seq<char>> {
    match find_first(memory, memory_of(space_id)) {
        Some(l) => if some_passes(chats, open_as(l.chat_id@, space_id)) {
            Some(l.chat_id@)
        } else {
            latest_in(chats, space_id)
        },
        None => latest_in(chats, space_id),
    }
}

/// A space was landed in.
pub open spec fn activated(
    before: Shell,
    state: AppState,
    space_id: String,
    now: Timestamp,
    after: Shell,
    state_after: AppState,
    sent: Option<Seq<char>>,
) -> bool {
    &&& after == (Shell {
        route: Route::Chat,
        settings: LayoutFlags { last_space_id: Some(space_id), ..before.settings },
        ..before
    })
    &&& exists|target: Option<String>| #[trigger]
        AppState::chat_selected(
            AppState::space_selected(state, Some(space_id)),
            target,
            now,
            state_after,
            sent,
        ) && text_opt(target) == landing(state.chats@, before.space_last_chat@, space_id@)
}

impl Shell {
    fn landing_chat(&self, state: &AppState, space_id: &str) -> (r: Option<String>)
        ensures
            text_opt(r) == landing(state.chats@, self.space_last_chat@, space_id@),
    {
        let ghost p = memory_of(space_id@);
        let here = |l: &LastChat| -> (b: bool)
            ensures
                b == p(*l),
            { text::same(l.space_id.as_str(), space_id) };
        if let Some(last) = lists::find(&self.space_last_chat, here, Ghost(p)) {
            let ghost q = open_as(last.chat_id@, space_id@);
            let alive = |c: &Chat| -> (b: bool)
                ensures
                    b == q(*c),
                { text::same(c.id.as_str(), last.chat_id.as_str()) && is_in(c, space_id) };
            if lists::any(&state.chats, alive, Ghost(q)) {
                return Some(last.chat_id.clone());
            }
        }
        let ghost o = open_in(space_id@);
        let inside = |c: &Chat| -> (b: bool)
            ensures
                b == o(*c),
            { is_in(c, space_id) };
        match lists::find(&state.chats, inside, Ghost(o)) {
            Some(c) => Some(c.id.clone()),
            None => None,
        }
    }

    /// Lands in a space: on the chat that was open there last while it is alive, else on its most recent
    /// one, else on the canvas of a new session. Returns the chat that was not seen before.
    pub fn activate_space(&mut self, state: &mut AppState, space_id: String, now: Timestamp) -> (send_seen:
        Option<String>)
        ensures
            activated(
                *old(self),
                *old(state),
                space_id,
                now,
                *final(self),
                *final(state),
                text_opt(send_seen),
            ),
    {
        self.route = Route::Chat;
        state.select_space(Some(space_id.clone()));
        let target = self.landing_chat(state, space_id.as_str());
        let fx = state.select_chat(target, now);
        self.settings.last_space_id = Some(space_id);
        fx.send_seen
    }
}

fn is_in(chat: &Chat, space_id: &str) -> (r: bool)
    ensures
        r == shown_in(*chat, space_id@),
{
    !chat.archived && (match &chat.space_id {
        Some(id) => text::same(id.as_str(), space_id),
        None => false,
    })
}

/// Landing in a space selects a chat of that space, or none.
pub proof fn landing_stays_in_the_space(
    chats: Seq<Chat>,
    memory: Seq<LastChat>,
    space_id: Seq<char>,
)
    ensures
        landing(chats, memory, space_id) matches Some(id) ==> some_passes(
            chats,
            open_as(id, space_id),
        ),
        landing(chats, memory, space_id) is None <==> !some_passes(chats, open_in(space_id)),
{
    lists::search_meaning(chats, open_in(space_id));
    lists::search_meaning(memory, memory_of(space_id));
    if find_first(chats, open_in(space_id)) is Some {
        let c = find_first(chats, open_in(space_id))->0;
        let i = lists::first_at(chats, open_in(space_id))->0;
        assert(open_as(c.id@, space_id)(chats[i]));
    }
    if let Some(l) = find_first(memory, memory_of(space_id)) {
        if some_passes(chats, open_as(l.chat_id@, space_id)) {
            lists::search_meaning(chats, open_as(l.chat_id@, space_id));
            let i = lists::first_at(chats, open_as(l.chat_id@, space_id))->0;
            assert(open_in(space_id)(chats[i]));
        }
    }
}

// ---------------------------------------------------------------------------
// Sidebar rows
// ---------------------------------------------------------------------------

/// The test for an id in a list of ids.
pub open spec fn lists_id(ids: Seq<String>, id: Seq<char>) -> bool {
    some_passes(ids, |s: String| s@ == id)
}

/// A device is there: it is this one, it is not known, or its heartbeat is fresh.
pub open spec fn is_online(state: AppState, fresh: Seq<String>, device_id: Seq<char>) -> bool {
    text_opt(state.local_device_id) == Some(device_id) || AppState::device_with(
        state.devices@,
        device_id,
    ) is None || lists_id(fresh, device_id)
}

fn online(state: &AppState, fresh: &[String], device_id: &str) -> (r: bool)
    ensures
        r == is_online(*state, fresh@, device_id@),
{
    let ghost p = |s: String| s@ == device_id@;
    let same = |s: &String| -> (b: bool)
        ensures
            b == p(*s),
        { text::same(s.as_str(), device_id) };
    let heard = lists::any(fresh, same, Ghost(p));
    state.device_online(device_id, heard)
}

/// The name of a device, or words where it is not known.
pub open spec fn device_words(state: AppState, device_id: Seq<char>) -> Seq<char> {
    match AppState::device_with(state.devices@, device_id) {
        Some(d) => d.name@,
        None => "Unknown device"@,
    }
}

fn name_device(state: &AppState, device_id: &str) -> (r: String)
    ensures
        r@ == device_words(*state, device_id@),
{
    match state.device_name(device_id) {
        Some(name) => name.to_owned(),
        None => "Unknown device".to_owned(),
    }
}

/// The test for a chat of a space with a status.
pub open spec fn shows_in(
    state: AppState,
    now: Timestamp,
    space_id: Seq<char>,
    status: ChatIndicator,
) -> spec_fn(Chat) -> bool {
    |c: Chat| shown_in(c, space_id) && state.shown_status(c, now) == status
}

/// The dot of a space: the most urgent of its sessions that wait for an answer or run.
pub open spec fn attention_in(state: AppState, now: Timestamp, space_id: Seq<char>) -> Option<
    ChatIndicator,
> {
    if some_passes(state.chats@, shows_in(state, now, space_id, ChatIndicator::AwaitingInput)) {
        Some(ChatIndicator::AwaitingInput)
    } else if some_passes(state.chats@, shows_in(state, now, space_id, ChatIndicator::Working)) {
        Some(ChatIndicator::Working)
    } else {
        None
    }
}

fn has_status(state: &AppState, now: Timestamp, space_id: &str, status: ChatIndicator) -> (r: bool)
    ensures
        r == some_passes(state.chats@, shows_in(*state, now, space_id@, status)),
{
    let ghost p = shows_in(*state, now, space_id@, status);
    let shows = |c: &Chat| -> (b: bool)
        ensures
            b == p(*c),
        { is_in(c, space_id) && state.display_status_for(c, now) == status };
    lists::any(&state.chats, shows, Ghost(p))
}

/// The dot of a space is at least as urgent as every session of the space that waits or runs.
pub proof fn attention_is_the_most_urgent(
    state: AppState,
    now: Timestamp,
    space_id: Seq<char>,
    i: int,
)
    requires
        0 <= i < state.chats@.len(),
        shown_in(state.chats@[i], space_id),
        state.shown_status(state.chats@[i], now) == ChatIndicator::Working || state.shown_status(
            state.chats@[i],
            now,
        ) == ChatIndicator::AwaitingInput,
    ensures
        attention_in(state, now, space_id) matches Some(dot) && bucket(dot) <= bucket(
            state.shown_status(state.chats@[i], now),
        ),
{
    let status = state.shown_status(state.chats@[i], now);
    assert(shows_in(state, now, space_id, status)(state.chats@[i]));
}

/// One space row.
#[derive(Debug, PartialEq, Eq)]
pub struct SpaceRow {
    pub space_id: String,
    pub name: String,
    /// The device, with a note where it cannot be reached.
    pub device_line: String,
    pub offline: bool,
    pub selected: bool,
    pub attention: Option<ChatIndicator>,
}

/// A row shows a space.
pub open spec fn space_row_shows(
    row: SpaceRow,
    space: Space,
    state: AppState,
    fresh: Seq<String>,
    now: Timestamp,
) -> bool {
    &&& row.space_id == space.id
    &&& row.name == space.display_name
    &&& row.offline == !is_online(state, fresh, space.device_id@)
    &&& row.device_line@ == (if row.offline {
        "@ "@ + device_words(state, space.device_id@) + " · offline"@
    } else {
        "@ "@ + device_words(state, space.device_id@)
    })
    &&& row.selected == (text_opt(state.selected_space) == Some(space.id@))
    &&& row.attention == attention_in(state, now, space.id@)
}

/// The rows of the spaces section, in order; without any there is an offer to add one. `fresh` lists the
/// devices whose heartbeat is fresh.
pub fn spaces_section(state: &AppState, fresh: &[String], now: Timestamp) -> (rows: Vec<SpaceRow>)
    ensures
        rows@.len() == state.spaces@.len(),
        forall|i: int|
            0 <= i < rows@.len() ==> space_row_shows(
                #[trigger] rows@[i],
                state.spaces@[i],
                *state,
                fresh@,
                now,
            ),
{
    let mut rows: Vec<SpaceRow> = Vec::new();
    let mut i: usize = 0;
    while i < state.spaces.len()
        invariant
            i <= state.spaces.len(),
            rows.len() == i,
            forall|k: int|
                0 <= k < i ==> space_row_shows(
                    #[trigger] rows@[k],
                    state.spaces@[k],
                    *state,
                    fresh@,
                    now,
                ),
        decreases state.spaces.len() - i,
    {
        let space = &state.spaces[i];
        let offline = !online(state, fresh, space.device_id.as_str());
        let device = name_device(state, space.device_id.as_str());
        let device_line = if offline {
            text::joined3("@ ", device.as_str(), " · offline")
        } else {
            text::joined("@ ", device.as_str())
        };
        let selected = match &state.selected_space {
            Some(id) => text::same(id.as_str(), space.id.as_str()),
            None => false,
        };
        let attention = if has_status(state, now, space.id.as_str(), ChatIndicator::AwaitingInput) {
            Some(ChatIndicator::AwaitingInput)
        } else if has_status(state, now, space.id.as_str(), ChatIndicator::Working) {
            Some(ChatIndicator::Working)
        } else {
            None
        };
        rows.push(
            SpaceRow {
                space_id: space.id.clone(),
                name: space.display_name.clone(),
                device_line,
                offline,
                selected,
                attention,
            },
        );
        i = i + 1;
    }
    rows
}

/// One row of the sessions across all spaces.
#[derive(Debug, PartialEq, Eq)]
pub struct SessionRow {
    pub chat_id: String,
    pub title: String,
    pub time_ago: String,
    pub location: String,
    pub status: ChatIndicator,
    pub selected: bool,
}

/// The space of a chat.
pub open spec fn home_of(state: AppState, chat: Chat) -> Option<Space> {
    match chat.space_id {
        Some(id) => space_with(state.spaces@, id@),
        None => None,
    }
}

/// Where a session lives: folder, branch where it has one, and device.
pub open spec fn session_place(state: AppState, fresh: Seq<String>, chat: Chat) -> Seq<char> {
    let folder = match home_of(state, chat) {
        Some(s) => s.display_name@,
        None => "?"@,
    };
    let device = match home_of(state, chat) {
        Some(s) => if is_online(state, fresh, s.device_id@) {
            device_words(state, s.device_id@)
        } else {
            device_words(state, s.device_id@) + " (offline)"@
        },
        None => Seq::empty(),
    };
    match chat.branch {
        Some(branch) => if trimmed(branch@).len() > 0 {
            folder + " · "@ + branch@ + " · "@ + device
        } else {
            folder + " · "@ + device
        },
        None => folder + " · "@ + device,
    }
}

fn place_session(state: &AppState, fresh: &[String], chat: &Chat) -> (r: String)
    ensures
        r@ == session_place(*state, fresh@, *chat),
{
    let home = state.space_for_chat(chat);
    let folder = match home {
        Some(s) => s.display_name.clone(),
        None => "?".to_owned(),
    };
    let device = match home {
        Some(s) => {
            let name = name_device(state, s.device_id.as_str());
            if online(state, fresh, s.device_id.as_str()) {
                name
            } else {
                text::joined(name.as_str(), " (offline)")
            }
        },
        None => String::new(),
    };
    proof {
        assert(home is None ==> device@ =~= Seq::<char>::empty());
    }
    if let Some(branch) = &chat.branch {
        let bare = text::trim(branch.as_str());
        if !text::empty(bare.as_str()) {
            let head = text::joined3(folder.as_str(), " · ", branch.as_str());
            return text::joined3(head.as_str(), " · ", device.as_str());
        }
    }
    text::joined3(folder.as_str(), " · ", device.as_str())
}

/// A row shows a session.
pub open spec fn session_row_shows(
    row: SessionRow,
    status: ChatIndicator,
    chat: Chat,
    state: AppState,
    fresh: Seq<String>,
    now: Timestamp,
) -> bool {
    &&& row.chat_id == chat.id
    &&& row.title@ == (match chat.title_line {
        Some(title) => title@,
        None => "New session"@,
    })
    &&& row.time_ago@ == age_text(seconds_between(recency(chat), now@))
    &&& row.location@ == session_place(state, fresh, chat)
    &&& row.status == status
    &&& row.selected == (text_opt(state.selected_chat) == Some(chat.id@))
}

/// The sessions across all spaces, the most urgent first.
pub fn active_rows(state: &AppState, fresh: &[String], now: Timestamp) -> (rows: Vec<SessionRow>)
    ensures
        exists|list: Seq<(ChatIndicator, &Chat)>| #[trigger]
            state.in_attention_order(now, list) && rows@.len() == list.len() && (forall|i: int|
                0 <= i < rows@.len() ==> session_row_shows(
                    #[trigger] rows@[i],
                    list[i].0,
                    *list[i].1,
                    *state,
                    fresh@,
                    now,
                )),
{
    let list = state.overview_chats(now);
    let mut rows: Vec<SessionRow> = Vec::new();
    let mut i: usize = 0;
    while i < list.len()
        invariant
            i <= list.len(),
            rows.len() == i,
            forall|k: int|
                0 <= k < i ==> session_row_shows(
                    #[trigger] rows@[k],
                    list@[k].0,
                    *list@[k].1,
                    *state,
                    fresh@,
                    now,
                ),
        decreases list.len() - i,
    {
        let status = list[i].0;
        let chat = list[i].1;
        let title = match &chat.title_line {
            Some(title) => title.clone(),
            None => "New session".to_owned(),
        };
        let selected = match &state.selected_chat {
            Some(id) => text::same(id.as_str(), chat.id.as_str()),
            None => false,
        };
        rows.push(
            SessionRow {
                chat_id: chat.id.clone(),
                title,
                time_ago: format_time_ago(chat.recent_at(), now),
                location: place_session(state, fresh, chat),
                status,
                selected,
            },
        );
        i = i + 1;
    }
    proof {
        assert(state.in_attention_order(now, list@));
    }
    rows
}

// ---------------------------------------------------------------------------
// Menus and dialogs
// ---------------------------------------------------------------------------

impl Shell {
    /// Opens the context menu of a space.
    pub fn open_space_menu(&mut self, space_id: String)
        ensures
            *final(self) == (Shell { space_menu: Some(space_id), ..*old(self) }),
    {
        self.space_menu = Some(space_id);
    }

    /// Closes the context menu of a space.
    pub fn close_space_menu(&mut self)
        ensures
            *final(self) == (Shell { space_menu: None, ..*old(self) }),
    {
        self.space_menu = None;
    }

    /// Opens the rename dialog of a space. Returns the name to start with.
    pub fn open_rename_space(&mut self, state: &AppState, space_id: String) -> (current: String)
        ensures
            *final(self) == (Shell {
                space_menu: None,
                rename_space_dialog: Some(RenameSpaceDialog { space_id, focus_pending: true }),
                ..*old(self)
            }),
            current@ == (match space_with(state.spaces@, space_id@) {
                Some(s) => s.display_name@,
                None => Seq::empty(),
            }),
    {
        self.space_menu = None;
        let current = match state.space_row(space_id.as_str()) {
            Some(s) => s.display_name.clone(),
            None => String::new(),
        };
        self.rename_space_dialog = Some(RenameSpaceDialog { space_id, focus_pending: true });
        current
    }

    /// Closes the rename dialog of a space.
    pub fn cancel_rename_space(&mut self)
        ensures
            *final(self) == (Shell { rename_space_dialog: None, ..*old(self) }),
    {
        self.rename_space_dialog = None;
    }

    /// Takes the typed name: the dialog closes, and white space alone changes nothing.
    pub fn submit_rename_space(&mut self, typed: &str, engine_attached: bool) -> (call: Option<Mutation>)
        ensures
            ({
                let asks = old(self).rename_space_dialog is Some && trimmed(typed@).len() > 0;
                let closed = Shell { rename_space_dialog: None, ..*old(self) };
                &&& *final(self) == (Shell { sidebar_notice: final(self).sidebar_notice, ..closed })
                &&& if asks {
                    closed.notice_after(engine_attached, final(self).sidebar_notice)
                } else {
                    final(self).sidebar_notice == old(self).sidebar_notice
                }
                &&& match call {
                    Some(Mutation::RenameSpace { space_id, name }) => asks && engine_attached
                        && space_id == old(self).rename_space_dialog->0.space_id && name@ == trimmed(
                        typed@,
                    ),
                    Some(_) => false,
                    None => !(asks && engine_attached),
                }
            }),
    {
        match self.rename_space_dialog.take() {
            Some(dialog) => {
                let space_id = dialog.space_id;
                let name = text::trim(typed);
                if text::empty(name.as_str()) {
                    return None;
                }
                self.mutate(Mutation::RenameSpace { space_id, name }, engine_attached)
            },
            None => None,
        }
    }

    /// Asks whether to remove a space.
    pub fn ask_delete_space(&mut self, space_id: String)
        ensures
            *final(self) == (Shell {
                space_menu: None,
                delete_space_confirm: Some(space_id),
                ..*old(self)
            }),
    {
        self.space_menu = None;
        self.delete_space_confirm = Some(space_id);
    }

    /// Closes the question.
    pub fn cancel_delete_space(&mut self)
        ensures
            *final(self) == (Shell { delete_space_confirm: None, ..*old(self) }),
    {
        self.delete_space_confirm = None;
    }

    /// Removes a space.
    pub fn delete_space(&mut self, space_id: String, engine_attached: bool) -> (call: Option<Mutation>)
        ensures
            call == (if engine_attached {
                Some(Mutation::DeleteSpace { space_id })
            } else {
                None
            }),
            old(self).notice_after(engine_attached, final(self).sidebar_notice),
            *final(self) == (Shell {
                delete_space_confirm: None,
                sidebar_notice: final(self).sidebar_notice,
                ..*old(self)
            }),
    {
        self.delete_space_confirm = None;
        self.mutate(Mutation::DeleteSpace { space_id }, engine_attached)
    }
}

/// The warning before a space is removed.
pub open spec fn removal_text(state: AppState, space_id: Seq<char>) -> Seq<char> {
    let name = match space_with(state.spaces@, space_id) {
        Some(s) => s.display_name@,
        None => "this space"@,
    };
    let device = match space_with(state.spaces@, space_id) {
        Some(s) => match AppState::device_with(state.devices@, s.device_id@) {
            Some(d) => d.name@,
            None => "its device"@,
        },
        None => "its device"@,
    };
    let count = state.chats@.filter(open_in(space_id)).len();
    let sessions = if count == 1 {
        "1 session"@
    } else {
        decimal_text(count) + " sessions"@
    };
    "Removing “"@ + name + "” permanently deletes its "@ + sessions + " on "@ + device
        + ". This can’t be undone."@
}

/// The warning before a space is removed: how many sessions go with it, and where.
pub fn removal_warning(state: &AppState, space_id: &str) -> (r: String)
    ensures
        r@ == removal_text(*state, space_id@),
{
    let space = state.space_row(space_id);
    let name = match space {
        Some(s) => s.display_name.clone(),
        None => "this space".to_owned(),
    };
    let device = match space {
        Some(s) => match state.device_name(s.device_id.as_str()) {
            Some(d) => d.to_owned(),
            None => "its device".to_owned(),
        },
        None => "its device".to_owned(),
    };
    let ghost p = open_in(space_id@);
    let inside = |c: &Chat| -> (b: bool)
        ensures
            b == p(*c),
        { is_in(c, space_id) };
    let members = lists::select(&state.chats, inside, Ghost(p));
    proof {
        assert(lists::pointees(members@).len() == members@.len());
    }
    let count: usize = members.len();
    let sessions = if count == 1 {
        "1 session".to_owned()
    } else {
        let number = text::decimal(count as u64);
        text::joined(number.as_str(), " sessions")
    };
    let head = text::joined3("Removing “", name.as_str(), "” permanently deletes its ");
    let middle = text::joined3(head.as_str(), sessions.as_str(), " on ");
    text::joined3(middle.as_str(), device.as_str(), ". This can’t be undone.")
}

} // verus!
