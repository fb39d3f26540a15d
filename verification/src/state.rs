//! Application state: the entity lists, the selection and the transcript that the shell renders from.

use crate::gate::{
    auth_in, auth_opt_view, gate_phase, parse_auth_state, phase_of, ConnectionStatus, GatePhase,
};
use crate::json::{member, text_in, Json};
use crate::lists;
use crate::lists::{
    filter_of_all, find_first, first_at, pointee, pointees, search_meaning, search_stops_at, some_passes,
};
use crate::model::{
    is_unseen, AuthState, Chat, ChatConfig, ChatIndicator, Device, Session, SessionMessageEntry,
    Space, UserProfile,
};
use crate::order::{
    display_status, effective_indicator, indicator_at, sort_active, sort_chats, sort_spaces,
    sort_tabs, status_at, AttentionOrder, CreationOrder, Indicator, RecencyOrder,
};
use crate::sorting::stably_sorted;
use crate::text;
use crate::text::text_opt;
use crate::time::Timestamp;
use vstd::prelude::*;

verus! {

/// The unconfirmed messages of one chat.
#[derive(Debug, PartialEq)]
pub struct EchoList {
    pub chat_id: String,
    pub entries: Vec<SessionMessageEntry>,
}

/// Root application state.
#[derive(Debug, PartialEq)]
pub struct AppState {
    pub connection: ConnectionStatus,
    /// Sign-in state; `None` until the engine reports one.
    pub auth: Option<AuthState>,
    pub devices: Vec<Device>,
    /// Sorted (see [`sort_spaces`]).
    pub spaces: Vec<Space>,
    /// Sorted (see [`sort_chats`]); archived rows are here too and views filter them.
    pub chats: Vec<Chat>,
    pub sessions: Vec<Session>,
    /// The space whose tabs fill the main area.
    pub selected_space: Option<String>,
    pub selected_chat: Option<String>,
    /// The first selection happened, by itself or by hand.
    pub auto_selected: bool,
    /// Transcript of the selected chat.
    pub transcript: Vec<SessionMessageEntry>,
    /// Optimistic user messages per chat, shown until a transcript carries the same message id.
    pub echoes: Vec<EchoList>,
    /// The device id of this engine, once it is known.
    pub local_device_id: Option<String>,
    /// Directory of the small preference files.
    pub data_dir: Option<String>,
    /// Whether an engine is connected.
    pub engine_attached: bool,
    /// The chat whose transcript is subscribed to.
    pub transcript_watch: Option<String>,
}

/// What a change of the selection asks of the engine and of the views.
#[derive(Debug, PartialEq, Eq)]
pub struct Effects {
    /// Something that views show changed.
    pub notify: bool,
    /// Tell the engine that this chat was seen.
    pub send_seen: Option<String>,
}

/// The test for the list of a chat.
pub open spec fn list_of(chat_id: Seq<char>) -> spec_fn(EchoList) -> bool {
    |l: EchoList| l.chat_id@ == chat_id
}

/// The unconfirmed messages of a chat.
pub open spec fn echoes_in(lists: Seq<EchoList>, chat_id: Seq<char>) -> Seq<SessionMessageEntry> {
    match find_first(lists, list_of(chat_id)) {
        Some(l) => l.entries@,
        None => Seq::empty(),
    }
}

/// No chat has two lists.
pub open spec fn one_list_each(lists: Seq<EchoList>) -> bool {
    forall|i: int, j: int|
        0 <= i < j < lists.len() ==> (#[trigger] lists[i]).chat_id@ != (#[trigger] lists[j]).chat_id@
}

/// The position of the list of a chat.
pub open spec fn echo_list_at(lists: Seq<EchoList>, chat_id: Seq<char>) -> Option<int> {
    first_at(lists, list_of(chat_id))
}

/// Some message has an id.
pub open spec fn holds_message(entries: Seq<SessionMessageEntry>, id: Seq<char>) -> bool {
    some_passes(entries, |e: SessionMessageEntry| e.id@ == id)
}

/// The messages without those that a list of messages confirms.
pub open spec fn unconfirmed(
    echoes: Seq<SessionMessageEntry>,
    confirmed: Seq<SessionMessageEntry>,
) -> Seq<SessionMessageEntry> {
    echoes.filter(|e: SessionMessageEntry| !holds_message(confirmed, e.id@))
}

/// The test for the chat with an id.
pub open spec fn chat_is(id: Seq<char>) -> spec_fn(Chat) -> bool {
    |c: Chat| c.id@ == id
}

/// Some chat has an id.
pub open spec fn holds_chat(chats: Seq<Chat>, id: Seq<char>) -> bool {
    some_passes(chats, chat_is(id))
}

/// The chat with an id.
pub open spec fn chat_with(chats: Seq<Chat>, id: Seq<char>) -> Option<Chat> {
    find_first(chats, chat_is(id))
}

/// The position of the chat with an id.
pub open spec fn chat_at(chats: Seq<Chat>, id: Seq<char>) -> Option<int> {
    first_at(chats, chat_is(id))
}

/// The space with an id.
pub open spec fn space_with(spaces: Seq<Space>, id: Seq<char>) -> Option<Space> {
    find_first(spaces, |s: Space| s.id@ == id)
}

/// The session of a chat.
pub open spec fn session_of(sessions: Seq<Session>, chat_id: Seq<char>) -> Option<Session> {
    find_first(sessions, |s: Session| s.chat_id@ == chat_id)
}

/// The id of the first space.
pub open spec fn first_space(spaces: Seq<Space>) -> Option<String> {
    if spaces.len() > 0 {
        Some(spaces[0].id)
    } else {
        None
    }
}

/// The selection after the list of spaces changed: it stays while its space is there, and falls back
/// to the first space.
pub open spec fn healed_space(selected: Option<String>, spaces: Seq<Space>) -> Option<String> {
    match selected {
        Some(id) if some_passes(spaces, |s: Space| s.id@ == id@) => selected,
        _ => first_space(spaces),
    }
}

/// A chat of a space, not archived.
pub open spec fn shown_in(chat: Chat, space_id: Seq<char>) -> bool {
    !chat.archived && text_opt(chat.space_id) == Some(space_id)
}

/// A chat of some known space, not archived.
pub open spec fn shown_somewhere(chat: Chat, spaces: Seq<Space>) -> bool {
    !chat.archived && (chat.space_id matches Some(id) && space_with(spaces, id@) is Some)
}

fn same_opt(a: &Option<String>, b: &Option<String>) -> (r: bool)
    ensures
        r == (text_opt(*a) == text_opt(*b)),
{
    match (a, b) {
        (Some(x), Some(y)) => text::same(x.as_str(), y.as_str()),
        (None, None) => true,
        _ => false,
    }
}

/// Changing the list of one chat leaves the lists of all others.
proof fn replacing_one_list(
    before: Seq<EchoList>,
    after: Seq<EchoList>,
    at: int,
    chat_id: Seq<char>,
    entries: Seq<SessionMessageEntry>,
)
    requires
        echo_list_at(before, chat_id) == Some(at),
        0 <= at < before.len(),
        after.len() == before.len(),
        after[at].chat_id@ == chat_id,
        after[at].entries@ == entries,
        forall|k: int| 0 <= k < before.len() && k != at ==> after[k] == before[k],
    ensures
        forall|c: Seq<char>| #[trigger]
            echoes_in(after, c) == (if c == chat_id {
                entries
            } else {
                echoes_in(before, c)
            }),
{
    let mine = list_of(chat_id);
    search_meaning(before, mine);
    assert(mine(before[at]));
    assert forall|c: Seq<char>| #[trigger]
        echoes_in(after, c) == (if c == chat_id {
            entries
        } else {
            echoes_in(before, c)
        }) by {
        let p = list_of(c);
        search_meaning(before, p);
        search_meaning(after, p);
        if c == chat_id {
            assert forall|j: int| 0 <= j < at implies !p(#[trigger] after[j]) by {
                assert(!mine(before[j]));
            }
            search_stops_at(after, p, at);
        } else if first_at(before, p) is Some {
            let i = first_at(before, p)->0;
            assert(i != at);
            assert forall|j: int| 0 <= j < i implies !p(#[trigger] after[j]) by {
                assert(!p(before[j]));
            }
            search_stops_at(after, p, i);
        } else if first_at(after, p) is Some {
            let i = first_at(after, p)->0;
            assert(p(after[i]));
            assert(i != at);
            assert(p(before[i]));
        }
    }
}

/// Adding a list for a chat that has none leaves the lists of all others.
proof fn adding_one_list(before: Seq<EchoList>, list: EchoList)
    requires
        echo_list_at(before, list.chat_id@) is None,
    ensures
        one_list_each(before) ==> one_list_each(before.push(list)),
        forall|c: Seq<char>| #[trigger]
            echoes_in(before.push(list), c) == (if c == list.chat_id@ {
                list.entries@
            } else {
                echoes_in(before, c)
            }),
{
    let after = before.push(list);
    let mine = list_of(list.chat_id@);
    search_meaning(before, mine);
    assert forall|k: int| 0 <= k < before.len() implies (#[trigger] before[k]).chat_id@
        != list.chat_id@ by {
        assert(!mine(before[k]));
    }
    assert forall|c: Seq<char>| #[trigger]
        echoes_in(after, c) == (if c == list.chat_id@ {
            list.entries@
        } else {
            echoes_in(before, c)
        }) by {
        let p = list_of(c);
        search_meaning(before, p);
        search_meaning(after, p);
        if c == list.chat_id@ {
            assert forall|j: int| 0 <= j < before.len() implies !p(#[trigger] after[j]) by {
                assert(!mine(before[j]));
            }
            search_stops_at(after, p, before.len() as int);
        } else if first_at(before, p) is Some {
            let i = first_at(before, p)->0;
            assert forall|j: int| 0 <= j < i implies !p(#[trigger] after[j]) by {
                assert(!p(before[j]));
            }
            search_stops_at(after, p, i);
        } else if first_at(after, p) is Some {
            let i = first_at(after, p)->0;
            assert(p(after[i]));
            assert(p(before[i]));
        }
    }
}

fn message_known(entries: &[SessionMessageEntry], id: &str) -> (r: bool)
    ensures
        r == holds_message(entries@, id@),
{
    let ghost p = |e: SessionMessageEntry| e.id@ == id@;
    let same_id = |e: &SessionMessageEntry| -> (b: bool)
        ensures
            b == p(*e),
        { text::same(e.id.as_str(), id) };
    lists::any(entries, same_id, Ghost(p))
}

fn list_position(echoes: &[EchoList], chat_id: &str) -> (r: Option<usize>)
    ensures
        match r {
            Some(i) => i < echoes.len() && echo_list_at(echoes@, chat_id@) == Some(i as int)
                && echoes_in(echoes@, chat_id@) == echoes@[i as int].entries@
                && echoes@[i as int].chat_id@ == chat_id@,
            None => echo_list_at(echoes@, chat_id@) is None && echoes_in(echoes@, chat_id@)
                == Seq::<SessionMessageEntry>::empty(),
        },
{
    let ghost p = list_of(chat_id@);
    let same_chat = |l: &EchoList| -> (b: bool)
        ensures
            b == p(*l),
        { text::same(l.chat_id.as_str(), chat_id) };
    lists::position(echoes, same_chat, Ghost(p))
}

fn find_chat_at(chats: &[Chat], id: &str) -> (r: Option<usize>)
    ensures
        match r {
            Some(i) => i < chats.len() && chat_at(chats@, id@) == Some(i as int) && chat_with(
                chats@,
                id@,
            ) == Some(chats@[i as int]),
            None => chat_at(chats@, id@) is None && chat_with(chats@, id@) is None,
        },
        r is Some == holds_chat(chats@, id@),
{
    let ghost p = chat_is(id@);
    let same_id = |c: &Chat| -> (b: bool)
        ensures
            b == p(*c),
        { text::same(c.id.as_str(), id) };
    lists::position(chats, same_id, Ghost(p))
}

fn first_space_id(spaces: &[Space]) -> (r: Option<String>)
    ensures
        r == first_space(spaces@),
{
    if spaces.len() > 0 {
        Some(spaces[0].id.clone())
    } else {
        None
    }
}

/// The device id that an answer about the local device names: its member `id`, or else `deviceId`.
pub open spec fn local_device_in(value: Json) -> Option<Seq<char>> {
    match member(value, "id"@) {
        Some(id) => text_in(Some(id)),
        None => text_in(member(value, "deviceId"@)),
    }
}

impl AppState {
    /// Nothing is known yet.
    pub open spec fn nothing_known(self) -> bool {
        &&& self.connection == ConnectionStatus::Connecting
        &&& self.auth is None
        &&& self.devices@.len() == 0
        &&& self.spaces@.len() == 0
        &&& self.chats@.len() == 0
        &&& self.sessions@.len() == 0
        &&& self.selected_space is None
        &&& self.selected_chat is None
        &&& !self.auto_selected
        &&& self.transcript@.len() == 0
        &&& self.echoes@.len() == 0
        &&& self.local_device_id is None
        &&& self.data_dir is None
        &&& !self.engine_attached
        &&& self.transcript_watch is None
    }

    /// The state before anything is known.
    pub fn new() -> (s: Self)
        ensures
            s.nothing_known(),
    {
        AppState {
            connection: ConnectionStatus::Connecting,
            auth: None,
            devices: Vec::new(),
            spaces: Vec::new(),
            chats: Vec::new(),
            sessions: Vec::new(),
            selected_space: None,
            selected_chat: None,
            auto_selected: false,
            transcript: Vec::new(),
            echoes: Vec::new(),
            local_device_id: None,
            data_dir: None,
            engine_attached: false,
            transcript_watch: None,
        }
    }

    // ---- reducers ----

    /// The selected chat is not among the chats.
    pub open spec fn selection_gone(self, chats: Seq<Chat>) -> bool {
        self.selected_chat matches Some(id) && !holds_chat(chats, id@)
    }

    /// A list of chats is taken: it is sorted, and a selected chat that is not in it drops the selection
    /// and its transcript.
    pub open spec fn chats_applied(before: AppState, chats: Seq<Chat>, after: AppState) -> bool {
        &&& stably_sorted::<Chat, RecencyOrder>(chats, after.chats@)
        &&& if before.selection_gone(after.chats@) {
            &&& after.transcript@.len() == 0
            &&& after == (AppState {
                chats: after.chats,
                selected_chat: None,
                transcript: after.transcript,
                transcript_watch: None,
                ..before
            })
        } else {
            after == (AppState { chats: after.chats, ..before })
        }
    }

    /// Takes a new list of chats. A selected chat that vanished drops the selection and its transcript.
    pub fn apply_chats(&mut self, chats: Vec<Chat>)
        ensures
            Self::chats_applied(*old(self), chats@, *final(self)),
    {
        let mut sorted = chats;
        sort_chats(&mut sorted);
        self.chats = sorted;
        let gone = match &self.selected_chat {
            Some(id) => find_chat_at(&self.chats, id.as_str()).is_none(),
            None => false,
        };
        if gone {
            self.selected_chat = None;
            self.transcript = Vec::new();
            self.transcript_watch = None;
        }
    }

    pub fn apply_sessions(&mut self, sessions: Vec<Session>)
        ensures
            *final(self) == (AppState { sessions, ..*old(self) }),
    {
        self.sessions = sessions;
    }

    /// Takes a new list of spaces. A vanished or missing selection falls back to the first space.
    pub fn apply_spaces(&mut self, spaces: Vec<Space>)
        ensures
            stably_sorted::<Space, CreationOrder>(spaces@, final(self).spaces@),
            *final(self) == (AppState {
                spaces: final(self).spaces,
                selected_space: healed_space(old(self).selected_space, final(self).spaces@),
                ..*old(self)
            }),
    {
        let mut sorted = spaces;
        sort_spaces(&mut sorted);
        self.spaces = sorted;
        let keep = match &self.selected_space {
            Some(id) => {
                let ghost p = |s: Space| s.id@ == id@;
                let same_id = |s: &Space| -> (b: bool)
                    ensures
                        b == p(*s),
                    { text::same(s.id.as_str(), id.as_str()) };
                lists::any(&self.spaces, same_id, Ghost(p))
            },
            None => false,
        };
        if !keep {
            self.selected_space = first_space_id(&self.spaces);
        }
    }

    /// Stamps a configuration on a chat before the engine confirms it. An unknown chat is left alone.
    pub fn apply_chat_config(&mut self, chat_id: &str, config: ChatConfig)
        ensures
            *final(self) == (AppState { chats: final(self).chats, ..*old(self) }),
            match chat_at(old(self).chats@, chat_id@) {
                Some(i) => final(self).chats@ == old(self).chats@.update(
                    i,
                    Chat { config: Some(config), ..old(self).chats@[i] },
                ),
                None => final(self).chats@ == old(self).chats@,
            },
    {
        match find_chat_at(&self.chats, chat_id) {
            Some(i) => {
                self.chats[i].config = Some(config);
            },
            None => {},
        }
    }

    pub fn apply_devices(&mut self, devices: Vec<Device>)
        ensures
            *final(self) == (AppState { devices, ..*old(self) }),
    {
        self.devices = devices;
    }

    pub fn apply_auth(&mut self, auth: AuthState)
        ensures
            *final(self) == (AppState { auth: Some(auth), ..*old(self) }),
    {
        self.auth = Some(auth);
    }

    /// Takes a sign-in frame; one that holds no state is dropped. Returns whether it was taken.
    pub fn apply_auth_value(&mut self, value: &Json) -> (taken: bool)
        ensures
            *final(self) == (AppState { auth: final(self).auth, ..*old(self) }),
            taken == auth_in(*value) is Some,
            taken ==> auth_opt_view(final(self).auth) == auth_in(*value),
            !taken ==> final(self).auth == old(self).auth,
    {
        match parse_auth_state(value) {
            Some(auth) => {
                self.apply_auth(auth);
                true
            },
            None => false,
        }
    }

    /// Takes the answer about the local device.
    pub fn apply_local_device(&mut self, value: &Json)
        ensures
            *final(self) == (AppState { local_device_id: final(self).local_device_id, ..*old(self) }),
            match local_device_in(*value) {
                Some(id) => text_opt(final(self).local_device_id) == Some(id),
                None => final(self).local_device_id == old(self).local_device_id,
            },
    {
        let found = match value.get("id") {
            Some(Json::Text(id)) => Some(id.clone()),
            Some(_) => None,
            None => value.get_text("deviceId"),
        };
        match found {
            Some(id) => {
                self.local_device_id = Some(id);
            },
            None => {},
        }
    }

    /// The user behind a sign-in state.
    pub open spec fn user_of(auth: Option<AuthState>) -> Option<UserProfile> {
        match auth {
            Some(AuthState::SignedIn { user, .. }) => Some(user),
            Some(AuthState::NeedsOrganization { user }) => Some(user),
            _ => None,
        }
    }

    /// The signed-in user, if the engine reports one.
    pub fn auth_user(&self) -> (r: Option<&UserProfile>)
        ensures
            pointee(r) == Self::user_of(self.auth),
    {
        match &self.auth {
            Some(AuthState::SignedIn { user, .. }) => Some(user),
            Some(AuthState::NeedsOrganization { user }) => Some(user),
            Some(AuthState::SignedOut) => None,
            None => None,
        }
    }

    /// Takes a new transcript of the selected chat. Messages in it confirm the echoes with their ids.
    pub fn apply_transcript(&mut self, entries: Vec<SessionMessageEntry>)
        ensures
            *final(self) == (AppState {
                transcript: entries,
                echoes: final(self).echoes,
                ..*old(self)
            }),
            one_list_each(old(self).echoes@) ==> one_list_each(final(self).echoes@),
            forall|c: Seq<char>| #[trigger]
                echoes_in(final(self).echoes@, c) == (if text_opt(old(self).selected_chat) == Some(
                    c,
                ) {
                    unconfirmed(echoes_in(old(self).echoes@, c), entries@)
                } else {
                    echoes_in(old(self).echoes@, c)
                }),
    {
        let at = match &self.selected_chat {
            Some(id) => list_position(&self.echoes, id.as_str()),
            None => None,
        };
        match at {
            Some(i) => {
                let ghost before = self.echoes@;
                let ghost p = |e: SessionMessageEntry| !holds_message(entries@, e.id@);
                let open = |e: &SessionMessageEntry| -> (b: bool)
                    ensures
                        b == p(*e),
                    { !message_known(&entries, e.id.as_str()) };
                let mut list = self.echoes.remove(i);
                lists::retain(&mut list.entries, open, Ghost(p));
                proof {
                    assert(list.entries@ == unconfirmed(before[i as int].entries@, entries@));
                }
                self.echoes.insert(i, list);
                proof {
                    replacing_one_list(
                        before,
                        self.echoes@,
                        i as int,
                        self.selected_chat->0@,
                        list.entries@,
                    );
                }
            },
            None => {
                proof {
                    let none = Seq::<SessionMessageEntry>::empty();
                    reveal(Seq::filter);
                    assert(unconfirmed(none, entries@) =~= none);
                }
            },
        }
        self.transcript = entries;
    }

    /// Takes a transcript frame of a subscription; one of a chat that is no longer selected is dropped.
    pub fn apply_transcript_frame(&mut self, chat_id: &str, entries: Vec<SessionMessageEntry>) -> (taken:
        bool)
        ensures
            taken == (text_opt(old(self).selected_chat) == Some(chat_id@)),
            !taken ==> *final(self) == *old(self),
            taken ==> *final(self) == (AppState {
                transcript: entries,
                echoes: final(self).echoes,
                ..*old(self)
            }),
            one_list_each(old(self).echoes@) ==> one_list_each(final(self).echoes@),
            taken ==> forall|c: Seq<char>| #[trigger]
                echoes_in(final(self).echoes@, c) == (if c == chat_id@ {
                    unconfirmed(echoes_in(old(self).echoes@, c), entries@)
                } else {
                    echoes_in(old(self).echoes@, c)
                }),
    {
        let current = match &self.selected_chat {
            Some(id) => text::same(id.as_str(), chat_id),
            None => false,
        };
        if current {
            self.apply_transcript(entries);
        }
        current
    }

    /// Adds an optimistic user message; a message id that is already there is not added again.
    pub fn push_echo(&mut self, chat_id: &str, entry: SessionMessageEntry)
        ensures
            *final(self) == (AppState { echoes: final(self).echoes, ..*old(self) }),
            one_list_each(old(self).echoes@) ==> one_list_each(final(self).echoes@),
            forall|c: Seq<char>| #[trigger]
                echoes_in(final(self).echoes@, c) == (if c == chat_id@ && !holds_message(
                    echoes_in(old(self).echoes@, c),
                    entry.id@,
                ) {
                    echoes_in(old(self).echoes@, c).push(entry)
                } else {
                    echoes_in(old(self).echoes@, c)
                }),
    {
        let ghost before = self.echoes@;
        match list_position(&self.echoes, chat_id) {
            Some(i) => {
                if !message_known(&self.echoes[i].entries, entry.id.as_str()) {
                    let mut list = self.echoes.remove(i);
                    list.entries.push(entry);
                    self.echoes.insert(i, list);
                    proof {
                        replacing_one_list(
                            before,
                            self.echoes@,
                            i as int,
                            chat_id@,
                            list.entries@,
                        );
                    }
                }
            },
            None => {
                let mut entries: Vec<SessionMessageEntry> = Vec::new();
                entries.push(entry);
                let list = EchoList { chat_id: chat_id.to_owned(), entries };
                self.echoes.push(list);
                proof {
                    adding_one_list(before, list);
                    assert(list.entries@ =~= Seq::<SessionMessageEntry>::empty().push(entry));
                }
            },
        }
    }

    /// Drops an echo, after its send failed.
    pub fn remove_echo(&mut self, chat_id: &str, message_id: &str)
        ensures
            *final(self) == (AppState { echoes: final(self).echoes, ..*old(self) }),
            one_list_each(old(self).echoes@) ==> one_list_each(final(self).echoes@),
            forall|c: Seq<char>| #[trigger]
                echoes_in(final(self).echoes@, c) == (if c == chat_id@ {
                    echoes_in(old(self).echoes@, c).filter(
                        |e: SessionMessageEntry| e.id@ != message_id@,
                    )
                } else {
                    echoes_in(old(self).echoes@, c)
                }),
    {
        let ghost before = self.echoes@;
        match list_position(&self.echoes, chat_id) {
            Some(i) => {
                let ghost p = |e: SessionMessageEntry| e.id@ != message_id@;
                let other = |e: &SessionMessageEntry| -> (b: bool)
                    ensures
                        b == p(*e),
                    { !text::same(e.id.as_str(), message_id) };
                let mut list = self.echoes.remove(i);
                lists::retain(&mut list.entries, other, Ghost(p));
                self.echoes.insert(i, list);
                proof {
                    replacing_one_list(before, self.echoes@, i as int, chat_id@, list.entries@);
                }
            },
            None => {
                proof {
                    let none = Seq::<SessionMessageEntry>::empty();
                    reveal(Seq::filter);
                    assert(none.filter(|e: SessionMessageEntry| e.id@ != message_id@) =~= none);
                }
            },
        }
    }

    /// Unconfirmed messages of the selected chat, in the order in which they were sent.
    pub fn pending_echoes(&self) -> (r: &[SessionMessageEntry])
        ensures
            r@ == (match self.selected_chat {
                Some(id) => echoes_in(self.echoes@, id@),
                None => Seq::empty(),
            }),
    {
        let at = match &self.selected_chat {
            Some(id) => list_position(&self.echoes, id.as_str()),
            None => None,
        };
        match at {
            Some(i) => self.echoes[i].entries.as_slice(),
            None => &[],
        }
    }

    // ---- queries ----

    /// Chats that are not archived, in sidebar order.
    pub fn visible_chats(&self) -> (r: Vec<&Chat>)
        ensures
            pointees(r@) == self.chats@.filter(|c: Chat| !c.archived),
    {
        let ghost p = |c: Chat| !c.archived;
        let visible = |c: &Chat| -> (b: bool)
            ensures
                b == p(*c),
            { !c.archived };
        lists::select(&self.chats, visible, Ghost(p))
    }

    pub fn space_row(&self, space_id: &str) -> (r: Option<&Space>)
        ensures
            pointee(r) == space_with(self.spaces@, space_id@),
    {
        let ghost p = |s: Space| s.id@ == space_id@;
        let same_id = |s: &Space| -> (b: bool)
            ensures
                b == p(*s),
            { text::same(s.id.as_str(), space_id) };
        lists::find(&self.spaces, same_id, Ghost(p))
    }

    /// The selected space.
    pub open spec fn current_space(self) -> Option<Space> {
        match self.selected_space {
            Some(id) => space_with(self.spaces@, id@),
            None => None,
        }
    }

    pub fn selected_space_row(&self) -> (r: Option<&Space>)
        ensures
            pointee(r) == self.current_space(),
    {
        match &self.selected_space {
            Some(id) => self.space_row(id.as_str()),
            None => None,
        }
    }

    pub fn space_for_chat(&self, chat: &Chat) -> (r: Option<&Space>)
        ensures
            pointee(r) == (match chat.space_id {
                Some(id) => space_with(self.spaces@, id@),
                None => None,
            }),
    {
        match &chat.space_id {
            Some(id) => self.space_row(id.as_str()),
            None => None,
        }
    }

    /// The chats of a space that are not archived, in tab order.
    pub open spec fn in_tab_order(self, space_id: Seq<char>, tabs: Seq<&Chat>) -> bool {
        exists|rows: Seq<&Chat>|
            pointees(rows) == self.chats@.filter(|c: Chat| shown_in(c, space_id))
                && #[trigger] stably_sorted::<&Chat, CreationOrder>(rows, tabs)
    }

    /// Chats of a space that are not archived, in tab order. A chat without a space is in none.
    pub fn chats_in_space(&self, space_id: &str) -> (r: Vec<&Chat>)
        ensures
            self.in_tab_order(space_id@, r@),
    {
        let ghost p = |c: Chat| shown_in(c, space_id@);
        let inside = |c: &Chat| -> (b: bool)
            ensures
                b == p(*c),
            {
                !c.archived && (match &c.space_id {
                    Some(id) => text::same(id.as_str(), space_id),
                    None => false,
                })
            };
        let mut rows = lists::select(&self.chats, inside, Ghost(p));
        sort_tabs(&mut rows);
        rows
    }

    /// The device with an id.
    pub open spec fn device_with(devices: Seq<Device>, id: Seq<char>) -> Option<Device> {
        find_first(devices, |d: Device| d.id@ == id)
    }

    /// The device with an id.
    pub fn device_row(&self, device_id: &str) -> (r: Option<&Device>)
        ensures
            pointee(r) == Self::device_with(self.devices@, device_id@),
    {
        let ghost p = |d: Device| d.id@ == device_id@;
        let same_id = |d: &Device| -> (b: bool)
            ensures
                b == p(*d),
            { text::same(d.id.as_str(), device_id) };
        lists::find(&self.devices, same_id, Ghost(p))
    }

    /// This device, or the first one where it is not listed.
    pub open spec fn first_device(devices: Seq<Device>, local: Option<Seq<char>>) -> Option<Device> {
        match find_first(devices, |d: Device| local == Some(d.id@)) {
            Some(d) => Some(d),
            None => if devices.len() > 0 {
                Some(devices[0])
            } else {
                None
            },
        }
    }

    /// The device that a list of devices opens on.
    pub fn palette_device(&self) -> (r: Option<&Device>)
        ensures
            pointee(r) == Self::first_device(self.devices@, text_opt(self.local_device_id)),
    {
        let ghost local = text_opt(self.local_device_id);
        let ghost p = |d: Device| local == Some(d.id@);
        let here = |d: &Device| -> (b: bool)
            ensures
                b == p(*d),
            {
                match &self.local_device_id {
                    Some(id) => text::same(id.as_str(), d.id.as_str()),
                    None => false,
                }
            };
        match lists::find(&self.devices, here, Ghost(p)) {
            Some(d) => Some(d),
            None => {
                if self.devices.len() > 0 {
                    Some(&self.devices[0])
                } else {
                    None
                }
            },
        }
    }

    /// The name of a device, where it is known.
    pub fn device_name(&self, device_id: &str) -> (r: Option<&str>)
        ensures
            match Self::device_with(self.devices@, device_id@) {
                Some(d) => r matches Some(name) && name@ == d.name@,
                None => r is None,
            },
    {
        match self.device_row(device_id) {
            Some(d) => Some(d.name.as_str()),
            None => None,
        }
    }

    /// Whether a device is there, given whether its last heartbeat is fresh: the local device always
    /// is, and an unknown one gets the benefit of the doubt.
    pub fn device_online(&self, device_id: &str, heartbeat_fresh: bool) -> (r: bool)
        ensures
            r == (text_opt(self.local_device_id) == Some(device_id@) || Self::device_with(
                self.devices@,
                device_id@,
            ) is None || heartbeat_fresh),
    {
        let local = match &self.local_device_id {
            Some(id) => text::same(id.as_str(), device_id),
            None => false,
        };
        if local {
            return true;
        }
        match self.device_row(device_id) {
            Some(_) => heartbeat_fresh,
            None => true,
        }
    }

    /// Whether the folder of the selected space has git.
    pub fn selected_space_git(&self) -> (r: bool)
        ensures
            r == (self.current_space() matches Some(s) && s.git_detected),
    {
        match self.selected_space_row() {
            Some(s) => s.git_detected,
            None => false,
        }
    }

    pub fn session_for(&self, chat_id: &str) -> (r: Option<&Session>)
        ensures
            pointee(r) == session_of(self.sessions@, chat_id@),
    {
        let ghost p = |s: Session| s.chat_id@ == chat_id@;
        let same_chat = |s: &Session| -> (b: bool)
            ensures
                b == p(*s),
            { text::same(s.chat_id.as_str(), chat_id) };
        lists::find(&self.sessions, same_chat, Ghost(p))
    }

    /// The status that a chat shows.
    pub open spec fn shown_status(self, chat: Chat, now: Timestamp) -> ChatIndicator {
        status_at(chat, session_of(self.sessions@, chat.id@), now)
    }

    /// Full display status for a chat.
    pub fn display_status_for(&self, chat: &Chat, now: Timestamp) -> (r: ChatIndicator)
        ensures
            r == self.shown_status(*chat, now),
    {
        display_status(chat, self.session_for(chat.id.as_str()), now)
    }

    /// Every chat of a known space that is not archived, with its status, in attention order.
    pub open spec fn in_attention_order(self, now: Timestamp, list: Seq<(ChatIndicator, &Chat)>) -> bool {
        exists|rows: Seq<(ChatIndicator, &Chat)>|
            rows.map_values(|row: (ChatIndicator, &Chat)| *row.1) == self.chats@.filter(
                |c: Chat| shown_somewhere(c, self.spaces@),
            ) && (forall|i: int|
                0 <= i < rows.len() ==> (#[trigger] rows[i]).0 == self.shown_status(*rows[i].1, now))
                && #[trigger] stably_sorted::<(ChatIndicator, &Chat), AttentionOrder>(rows, list)
    }

    /// The sidebar's Sessions list: every chat of a known space that is not archived, idle ones
    /// included, in attention order.
    pub fn overview_chats(&self, now: Timestamp) -> (r: Vec<(ChatIndicator, &Chat)>)
        ensures
            self.in_attention_order(now, r@),
    {
        let ghost p = |c: Chat| shown_somewhere(c, self.spaces@);
        let live = |c: &Chat| -> (b: bool)
            ensures
                b == p(*c),
            {
                !c.archived && (match &c.space_id {
                    Some(id) => self.space_row(id.as_str()).is_some(),
                    None => false,
                })
            };
        let chats = lists::select(&self.chats, live, Ghost(p));
        let mut rows: Vec<(ChatIndicator, &Chat)> = Vec::new();
        let mut i: usize = 0;
        while i < chats.len()
            invariant
                i <= chats.len(),
                rows.len() == i,
                forall|k: int|
                    0 <= k < i ==> (#[trigger] rows@[k]).1 == chats@[k] && rows@[k].0
                        == self.shown_status(*rows@[k].1, now),
            decreases chats.len() - i,
        {
            let chat = chats[i];
            rows.push((self.display_status_for(chat, now), chat));
            i = i + 1;
        }
        proof {
            assert(rows@.map_values(|row: (ChatIndicator, &Chat)| *row.1) =~= pointees(chats@));
        }
        sort_active(&mut rows);
        rows
    }

    /// Staleness-checked status dot for a chat row.
    pub fn indicator_for(&self, chat_id: &str, now: Timestamp) -> (r: Indicator)
        ensures
            r == indicator_at(session_of(self.sessions@, chat_id@), now),
    {
        effective_indicator(self.session_for(chat_id), now)
    }

    /// The selected chat.
    pub open spec fn current_chat(self) -> Option<Chat> {
        match self.selected_chat {
            Some(id) => chat_with(self.chats@, id@),
            None => None,
        }
    }

    /// The chat with an id.
    pub fn chat_row(&self, chat_id: &str) -> (r: Option<&Chat>)
        ensures
            pointee(r) == chat_with(self.chats@, chat_id@),
    {
        match find_chat_at(&self.chats, chat_id) {
            Some(i) => Some(&self.chats[i]),
            None => None,
        }
    }

    pub fn selected_chat_row(&self) -> (r: Option<&Chat>)
        ensures
            pointee(r) == self.current_chat(),
    {
        match &self.selected_chat {
            Some(id) => match find_chat_at(&self.chats, id.as_str()) {
                Some(i) => Some(&self.chats[i]),
                None => None,
            },
            None => None,
        }
    }

    pub fn gate(&self) -> (r: GatePhase)
        ensures
            r == phase_of(self.connection, self.auth),
    {
        match &self.auth {
            Some(auth) => gate_phase(&self.connection, Some(auth)),
            None => gate_phase(&self.connection, None),
        }
    }

    // ---- engine lifecycle ----

    /// Starts, or starts again, to reach an engine.
    pub fn begin_bootstrap(&mut self, data_dir: String)
        ensures
            *final(self) == (AppState {
                connection: ConnectionStatus::Connecting,
                data_dir: Some(data_dir),
                ..*old(self)
            }),
    {
        self.connection = ConnectionStatus::Connecting;
        self.data_dir = Some(data_dir);
    }

    /// Takes the failure to reach an engine.
    pub fn bootstrap_failed(&mut self, message: String)
        ensures
            *final(self) == (AppState {
                connection: ConnectionStatus::Failed(message),
                ..*old(self)
            }),
    {
        self.connection = ConnectionStatus::Failed(message);
    }

    /// Takes the connected engine. A chat that is already selected is subscribed to again.
    pub fn attach_engine(&mut self)
        ensures
            *final(self) == (AppState {
                connection: ConnectionStatus::Ready,
                engine_attached: true,
                transcript_watch: if old(self).selected_chat is Some {
                    old(self).selected_chat
                } else {
                    old(self).transcript_watch
                },
                ..*old(self)
            }),
    {
        self.connection = ConnectionStatus::Ready;
        self.engine_attached = true;
        if self.selected_chat.is_some() {
            self.transcript_watch = text::copied(&self.selected_chat);
        }
    }

    // ---- selection ----

    /// Looking at a chat stamps its seen marker, where a message is newer than the marker.
    pub open spec fn seen_rows(chats: Seq<Chat>, chat_id: Seq<char>, now: Timestamp) -> Seq<Chat> {
        match chat_at(chats, chat_id) {
            Some(i) => if is_unseen(chats[i]) {
                chats.update(i, Chat { last_seen_at: Some(now), ..chats[i] })
            } else {
                chats
            },
            None => chats,
        }
    }

    /// Looking at a chat changes its row.
    pub open spec fn looks_new(chats: Seq<Chat>, chat_id: Seq<char>) -> bool {
        chat_with(chats, chat_id) matches Some(c) && is_unseen(c)
    }

    /// Marks a chat as seen. Only an unseen chat is stamped, and only then is the engine told.
    pub fn mark_chat_seen(&mut self, chat_id: &str, now: Timestamp) -> (fx: Effects)
        ensures
            *final(self) == (AppState { chats: final(self).chats, ..*old(self) }),
            final(self).chats@ == Self::seen_rows(old(self).chats@, chat_id@, now),
            fx.notify == Self::looks_new(old(self).chats@, chat_id@),
            text_opt(fx.send_seen) == (if fx.notify && old(self).engine_attached {
                Some(chat_id@)
            } else {
                None
            }),
    {
        match find_chat_at(&self.chats, chat_id) {
            Some(i) => {
                if self.chats[i].unseen() {
                    self.chats[i].last_seen_at = Some(now);
                    let send_seen = if self.engine_attached {
                        Some(chat_id.to_owned())
                    } else {
                        None
                    };
                    Effects { notify: true, send_seen }
                } else {
                    Effects { notify: false, send_seen: None }
                }
            },
            None => Effects { notify: false, send_seen: None },
        }
    }

    /// The space that selecting a chat leads to: the chat's own, where it names one.
    pub open spec fn space_after(self, chat_id: Option<String>) -> Option<String> {
        match chat_id {
            Some(id) => match chat_with(self.chats@, id@) {
                Some(c) => if c.space_id is Some {
                    c.space_id
                } else {
                    self.selected_space
                },
                None => self.selected_space,
            },
            None => self.selected_space,
        }
    }

    /// A chat, or none, was selected. Selecting another chat lands in its space, drops the old
    /// transcript and subscribes to the new one; selecting any chat marks it seen, and tells the engine
    /// where it was not.
    pub open spec fn chat_selected(
        before: AppState,
        chat_id: Option<String>,
        now: Timestamp,
        after: AppState,
        sent: Option<Seq<char>>,
    ) -> bool {
        &&& after.chats@ == (match chat_id {
            Some(id) => Self::seen_rows(before.chats@, id@, now),
            None => before.chats@,
        })
        &&& sent == (match chat_id {
            Some(id) => if Self::looks_new(before.chats@, id@) && before.engine_attached {
                Some(id@)
            } else {
                None
            },
            None => None,
        })
        &&& text_opt(before.selected_chat) == text_opt(chat_id) ==> after == (AppState {
            chats: after.chats,
            ..before
        })
        &&& text_opt(before.selected_chat) != text_opt(chat_id) ==> after == (AppState {
            chats: after.chats,
            selected_chat: chat_id,
            auto_selected: true,
            transcript: after.transcript,
            transcript_watch: if before.engine_attached {
                chat_id
            } else {
                None
            },
            selected_space: before.space_after(chat_id),
            ..before
        }) && after.transcript@.len() == 0
    }

    /// Selects a chat, or none.
    pub fn select_chat(&mut self, chat_id: Option<String>, now: Timestamp) -> (fx: Effects)
        ensures
            Self::chat_selected(*old(self), chat_id, now, *final(self), text_opt(fx.send_seen)),
            fx.notify == (text_opt(old(self).selected_chat) != text_opt(chat_id) || (chat_id matches Some(
                id,
            ) && Self::looks_new(old(self).chats@, id@))),
    {
        if same_opt(&self.selected_chat, &chat_id) {
            return match chat_id {
                Some(id) => self.mark_chat_seen(id.as_str(), now),
                None => Effects { notify: false, send_seen: None },
            };
        }
        self.selected_chat = text::copied(&chat_id);
        self.auto_selected = true;
        self.transcript = Vec::new();
        self.transcript_watch = None;
        let mut send_seen: Option<String> = None;
        if let Some(id) = &chat_id {
            match find_chat_at(&self.chats, id.as_str()) {
                Some(i) => {
                    if self.chats[i].space_id.is_some() {
                        self.selected_space = text::copied(&self.chats[i].space_id);
                    }
                },
                None => {},
            }
            let fx = self.mark_chat_seen(id.as_str(), now);
            send_seen = fx.send_seen;
        }
        if self.engine_attached {
            self.transcript_watch = chat_id;
        }
        Effects { notify: true, send_seen }
    }

    /// A space was selected.
    pub open spec fn space_selected(before: AppState, space_id: Option<String>) -> AppState {
        if text_opt(before.selected_space) == text_opt(space_id) {
            before
        } else {
            AppState { selected_space: space_id, ..before }
        }
    }

    /// Selects a space; the caller decides which chat to land on. Returns whether anything changed.
    pub fn select_space(&mut self, space_id: Option<String>) -> (changed: bool)
        ensures
            changed == (text_opt(old(self).selected_space) != text_opt(space_id)),
            *final(self) == Self::space_selected(*old(self), space_id),
    {
        if same_opt(&self.selected_space, &space_id) {
            return false;
        }
        self.selected_space = space_id;
        true
    }

    /// The chat that the first frame selects by itself: the most recent one that is not archived.
    pub open spec fn first_choice(chats: Seq<Chat>) -> Option<Chat> {
        find_first(chats, |c: Chat| !c.archived)
    }

    /// Takes a frame of the chats subscription: applies it, and on the first frame with nothing selected
    /// yet selects the most recent chat.
    pub fn apply_chats_frame(&mut self, chats: Vec<Chat>, now: Timestamp) -> (fx: Effects)
        ensures
            exists|mid: AppState| #[trigger]
                Self::chats_applied(*old(self), chats@, mid) && Self::first_selected(
                    mid,
                    *final(self),
                    now,
                    text_opt(fx.send_seen),
                ),
            fx.notify,
    {
        let ghost before = *self;
        self.apply_chats(chats);
        let ghost mid = *self;
        let mut send_seen: Option<String> = None;
        if self.selected_chat.is_none() && !self.auto_selected {
            let ghost p = |c: Chat| !c.archived;
            let open = |c: &Chat| -> (b: bool)
                ensures
                    b == p(*c),
                { !c.archived };
            let choice = match lists::find(&self.chats, open, Ghost(p)) {
                Some(c) => Some(c.id.clone()),
                None => None,
            };
            if let Some(id) = choice {
                self.auto_selected = true;
                let fx = self.select_chat(Some(id), now);
                send_seen = fx.send_seen;
            }
        }
        proof {
            assert(Self::chats_applied(before, chats@, mid));
        }
        Effects { notify: true, send_seen }
    }

    /// The first selection: where nothing is selected and nothing ever was, the most recent chat is
    /// selected and marked seen.
    pub open spec fn first_selected(
        before: AppState,
        after: AppState,
        now: Timestamp,
        sent: Option<Seq<char>>,
    ) -> bool {
        match Self::first_choice(before.chats@) {
            Some(c) if before.selected_chat is None && !before.auto_selected => {
                &&& after == (AppState {
                    chats: after.chats,
                    selected_chat: Some(c.id),
                    auto_selected: true,
                    transcript: after.transcript,
                    transcript_watch: if before.engine_attached {
                        Some(c.id)
                    } else {
                        None
                    },
                    selected_space: before.space_after(Some(c.id)),
                    ..before
                })
                &&& after.chats@ == Self::seen_rows(before.chats@, c.id@, now)
                &&& after.transcript@.len() == 0
                &&& sent == (if Self::looks_new(before.chats@, c.id@) && before.engine_attached {
                    Some(c.id@)
                } else {
                    None
                })
            },
            _ => after == before && sent is None,
        }
    }
}

/// After a list of spaces is taken, a space is selected exactly where there is one, and the selected
/// space is in the list.
pub proof fn selected_space_is_always_known(selected: Option<String>, spaces: Seq<Space>)
    ensures
        healed_space(selected, spaces) is Some <==> spaces.len() > 0,
        healed_space(selected, spaces) matches Some(id) ==> some_passes(
            spaces,
            |s: Space| s.id@ == id@,
        ),
{
    if spaces.len() > 0 && healed_space(selected, spaces) == first_space(spaces) {
        let p = |s: Space| s.id@ == spaces[0].id@;
        assert(p(spaces[0]));
    }
}

/// After a list of chats is taken, a selected chat is in the list.
pub proof fn selected_chat_is_always_known(before: AppState, chats: Seq<Chat>, after: AppState)
    requires
        AppState::chats_applied(before, chats, after),
    ensures
        after.selected_chat matches Some(id) ==> holds_chat(after.chats@, id@),
        before.selected_chat matches Some(id) && holds_chat(after.chats@, id@)
            ==> after.selected_chat == before.selected_chat && after.transcript
            == before.transcript,
{
}

/// A message that a transcript carries is no longer pending, and every other one still is.
pub proof fn confirmed_echoes_go(
    echoes: Seq<SessionMessageEntry>,
    confirmed: Seq<SessionMessageEntry>,
    e: SessionMessageEntry,
)
    ensures
        unconfirmed(echoes, confirmed).contains(e) <==> (echoes.contains(e) && !holds_message(
            confirmed,
            e.id@,
        )),
{
    let p = |e: SessionMessageEntry| !holds_message(confirmed, e.id@);
    if unconfirmed(echoes, confirmed).contains(e) {
        echoes.lemma_filter_contains_rev(p, e);
        let k = choose|k: int|
            0 <= k < echoes.filter(p).len() && echoes.filter(p)[k] == e;
        echoes.lemma_filter_pred(p, k);
    }
    if echoes.contains(e) && p(e) {
        let k = choose|k: int| 0 <= k < echoes.len() && echoes[k] == e;
        echoes.lemma_filter_contains(p, k);
    }
}

/// What a send adds, its failure takes away again.
pub proof fn failed_send_undoes_the_echo(echoes: Seq<SessionMessageEntry>, e: SessionMessageEntry)
    requires
        !holds_message(echoes, e.id@),
    ensures
        echoes.push(e).filter(|x: SessionMessageEntry| x.id@ != e.id@) == echoes,
{
    let p = |x: SessionMessageEntry| x.id@ != e.id@;
    let same = |x: SessionMessageEntry| x.id@ == e.id@;
    echoes.lemma_filter_push(e, p);
    assert forall|k: int| 0 <= k < echoes.len() implies p(#[trigger] echoes[k]) by {
        assert(!same(echoes[k]));
    }
    filter_of_all(echoes, p);
}

/// No two messages have the same id.
pub open spec fn ids_differ(entries: Seq<SessionMessageEntry>) -> bool {
    forall|i: int, j: int|
        0 <= i < j < entries.len() ==> (#[trigger] entries[i]).id@ != (#[trigger] entries[j]).id@
}

/// A message waits once at most: sending, confirming and failing keep the ids of the waiting messages
/// apart.
pub proof fn echoes_wait_once(
    echoes: Seq<SessionMessageEntry>,
    e: SessionMessageEntry,
    confirmed: Seq<SessionMessageEntry>,
    failed: Seq<char>,
)
    requires
        ids_differ(echoes),
    ensures
        !holds_message(echoes, e.id@) ==> ids_differ(echoes.push(e)),
        ids_differ(unconfirmed(echoes, confirmed)),
        ids_differ(echoes.filter(|x: SessionMessageEntry| x.id@ != failed)),
{
    if !holds_message(echoes, e.id@) {
        let same = |x: SessionMessageEntry| x.id@ == e.id@;
        assert forall|i: int| 0 <= i < echoes.len() implies (#[trigger] echoes[i]).id@ != e.id@ by {
            assert(!same(echoes[i]));
        }
    }
    filter_keeps_ids_apart(echoes, |x: SessionMessageEntry| !holds_message(confirmed, x.id@));
    filter_keeps_ids_apart(echoes, |x: SessionMessageEntry| x.id@ != failed);
}

proof fn filter_keeps_ids_apart(
    entries: Seq<SessionMessageEntry>,
    p: spec_fn(SessionMessageEntry) -> bool,
)
    requires
        ids_differ(entries),
    ensures
        ids_differ(entries.filter(p)),
    decreases entries.len(),
{
    reveal(Seq::filter);
    if entries.len() > 0 {
        let front = entries.drop_last();
        let last = entries.last();
        filter_keeps_ids_apart(front, p);
        assert forall|i: int| 0 <= i < front.filter(p).len() implies (#[trigger] front.filter(
            p,
        )[i]).id@ != last.id@ by {
            front.lemma_filter_contains_rev(p, front.filter(p)[i]);
            let k = choose|k: int| 0 <= k < front.len() && front[k] == front.filter(p)[i];
            assert(entries[k].id@ != entries[entries.len() - 1].id@);
        }
    }
}

/// Selecting another chat lands in the space that the chat names, and shows nothing of the transcript of
/// the chat before it; selecting the same chat again keeps the transcript and the space.
pub proof fn a_chat_implies_its_space(
    before: AppState,
    id: String,
    now: Timestamp,
    after: AppState,
    sent: Option<Seq<char>>,
)
    requires
        AppState::chat_selected(before, Some(id), now, after, sent),
    ensures
        text_opt(after.selected_chat) == Some(id@),
        text_opt(before.selected_chat) != Some(id@) && (chat_with(before.chats@, id@) matches Some(c)
            && c.space_id is Some) ==> after.selected_space == chat_with(before.chats@, id@)->0.space_id
            && after.transcript@.len() == 0,
        text_opt(before.selected_chat) == Some(id@) ==> after.selected_space == before.selected_space
            && after.transcript == before.transcript,
{
}

/// Once a chat was looked at, at or after its last message, looking again changes nothing.
pub proof fn seeing_twice_is_seeing_once(
    chats: Seq<Chat>,
    chat_id: Seq<char>,
    now: Timestamp,
    later: Timestamp,
)
    requires
        chat_with(chats, chat_id) matches Some(c) ==> (c.last_message_at matches Some(t) ==> t@
            <= now@),
    ensures
        !AppState::looks_new(AppState::seen_rows(chats, chat_id, now), chat_id),
        AppState::seen_rows(AppState::seen_rows(chats, chat_id, now), chat_id, later)
            == AppState::seen_rows(chats, chat_id, now),
{
    let p = chat_is(chat_id);
    let after = AppState::seen_rows(chats, chat_id, now);
    search_meaning(chats, p);
    if first_at(chats, p) is Some {
        let i = first_at(chats, p)->0;
        assert forall|j: int| 0 <= j < i implies !p(#[trigger] after[j]) by {
            assert(!p(chats[j]));
        }
        search_stops_at(after, p, i);
    }
}

impl Default for AppState {
    fn default() -> (s: Self)
        ensures
            s.nothing_known(),
    {
        AppState::new()
    }
}

} // verus!
