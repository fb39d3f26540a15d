//! The session tab strip: a tab per chat of the selected space that is not archived.

use crate::lists;
use crate::lists::first_at;
use crate::model::{Chat, ChatIndicator, HarnessId};
use crate::shell::frame::{Mutation, Shell};
use crate::state::AppState;
use crate::text;
use crate::text::text_opt;
use crate::time::Timestamp;
use vstd::prelude::*;

verus! {

/// The test for an id.
pub open spec fn id_is(id: Seq<char>) -> spec_fn(String) -> bool {
    |s: String| s@ == id
}

/// The tab to select after one was closed: the next, else the previous, else none.
pub open spec fn tab_after(order: Seq<String>, closed: Seq<char>) -> Option<String> {
    match first_at(order, id_is(closed)) {
        None => None,
        Some(i) => if order.len() <= 1 {
            None
        } else if i + 1 < order.len() {
            Some(order[i + 1])
        } else {
            Some(order[i - 1])
        },
    }
}

/// The neighbor to select after closing a tab: the next tab, else the previous, else `None`, which is
/// the canvas of a new session.
pub fn next_after_close(order: &[String], closed: &str) -> (r: Option<String>)
    ensures
        r == tab_after(order@, closed@),
{
    let mut i: usize = 0;
    while i < order.len()
        invariant
            i <= order.len(),
            forall|k: int| 0 <= k < i ==> !id_is(closed@)(#[trigger] order@[k]),
        decreases order.len() - i,
    {
        if text::same(order[i].as_str(), closed) {
            proof {
                lists::search_stops_at(order@, id_is(closed@), i as int);
            }
            if order.len() <= 1 {
                return None;
            }
            return if i + 1 < order.len() {
                Some(order[i + 1].clone())
            } else {
                Some(order[i - 1].clone())
            };
        }
        i = i + 1;
    }
    proof {
        lists::search_meaning(order@, id_is(closed@));
    }
    None
}

/// Closing a tab never selects the tab that was closed, and what it selects is another tab of the strip.
pub proof fn closing_selects_another_tab(order: Seq<String>, closed: Seq<char>)
    requires
        forall|i: int, j: int| 0 <= i < j < order.len() ==> order[i]@ != order[j]@,
    ensures
        tab_after(order, closed) matches Some(next) ==> next@ != closed && order.contains(next),
{
    lists::search_meaning(order, id_is(closed));
    if first_at(order, id_is(closed)) is Some && order.len() > 1 {
        let i = first_at(order, id_is(closed))->0;
        assert(id_is(closed)(order[i]));
    }
}

/// Closing a tab leads to the canvas exactly where it was the last one, or not on the strip.
pub proof fn closing_the_last_tab_leads_to_the_canvas(order: Seq<String>, closed: Seq<char>)
    ensures
        tab_after(order, closed) is None <==> order.len() <= 1 || !lists::some_passes(
            order,
            id_is(closed),
        ),
{
    lists::search_meaning(order, id_is(closed));
}

/// The tabs of a list of chats.
pub open spec fn ids_of(tabs: Seq<&Chat>) -> Seq<String> {
    tabs.map_values(|c: &Chat| c.id)
}

/// The tabs of the strip: those of the selected space.
pub open spec fn strip_tabs(state: AppState, tabs: Seq<&Chat>) -> bool {
    match state.selected_space {
        Some(space) => state.in_tab_order(space@, tabs),
        None => tabs.len() == 0,
    }
}

fn tabs_of<'a>(state: &'a AppState) -> (tabs: Vec<&'a Chat>)
    ensures
        strip_tabs(*state, tabs@),
{
    match &state.selected_space {
        Some(space) => state.chats_in_space(space.as_str()),
        None => Vec::new(),
    }
}

/// What closing a tab asks of the engine.
#[derive(Debug, PartialEq, Eq)]
pub struct TabClosed {
    pub call: Option<Mutation>,
    /// The chat that was selected in its place and was not seen before.
    pub send_seen: Option<String>,
}

/// One tab of the strip.
#[derive(Debug, PartialEq, Eq)]
pub struct SessionTab {
    pub chat_id: String,
    pub title: String,
    pub harness: Option<HarnessId>,
    pub status: ChatIndicator,
    pub selected: bool,
    /// The pointer is over the tab: a close button stands in place of the dot.
    pub hovered: bool,
    /// Whether the status dot shows.
    pub dot: bool,
}

/// The tab strip.
#[derive(Debug, PartialEq, Eq)]
pub struct TabStrip {
    pub tabs: Vec<SessionTab>,
    /// Whether there is a button for a new tab.
    pub new_tab: bool,
    /// Whether the canvas of a new session shows, so that the button stands for the open tab.
    pub new_tab_active: bool,
    /// Whether there is a button for the changes.
    pub toggle_changes: bool,
}

/// A tab shows a chat.
pub open spec fn tab_shows(
    tab: SessionTab,
    chat: Chat,
    state: AppState,
    hover: Option<Seq<char>>,
    now: Timestamp,
) -> bool {
    &&& tab.chat_id == chat.id
    &&& tab.title@ == (match chat.title_line {
        Some(title) => title@,
        None => "New session"@,
    })
    &&& tab.harness == (match chat.config {
        Some(c) => Some(c.harness),
        None => None,
    })
    &&& tab.status == state.shown_status(chat, now)
    &&& tab.selected == (text_opt(state.selected_chat) == Some(chat.id@))
    &&& tab.hovered == (hover == Some(chat.id@))
    &&& tab.dot == (!tab.hovered && tab.status != ChatIndicator::Idle)
}

fn is_text(value: &Option<String>, id: &str) -> (r: bool)
    ensures
        r == (text_opt(*value) == Some(id@)),
{
    match value {
        Some(v) => text::same(v.as_str(), id),
        None => false,
    }
}

impl Shell {
    /// Closes a tab: its chat is archived. Where it was open the selection moves to a neighbor first,
    /// and from the last tab to the canvas of a new session.
    pub fn close_session_tab(&mut self, state: &mut AppState, chat_id: String, now: Timestamp) -> (r:
        TabClosed)
        ensures
            r.call == (if old(state).engine_attached {
                Some(Mutation::SetChatArchived { chat_id, archived: true })
            } else {
                None
            }),
            old(self).notice_after(old(state).engine_attached, final(self).sidebar_notice),
            *final(self) == (Shell {
                chat_menu: None,
                sidebar_notice: final(self).sidebar_notice,
                ..*old(self)
            }),
            if text_opt(old(state).selected_chat) == Some(chat_id@) {
                exists|tabs: Seq<&Chat>| #[trigger]
                    strip_tabs(*old(state), tabs) && AppState::chat_selected(
                        *old(state),
                        tab_after(ids_of(tabs), chat_id@),
                        now,
                        *final(state),
                        text_opt(r.send_seen),
                    )
            } else {
                *final(state) == *old(state) && r.send_seen is None
            },
    {
        let mut send_seen: Option<String> = None;
        if is_text(&state.selected_chat, chat_id.as_str()) {
            let next: Option<String>;
            let ghost shown: Seq<&Chat>;
            {
                let tabs = tabs_of(state);
                let mut order: Vec<String> = Vec::new();
                let mut i: usize = 0;
                while i < tabs.len()
                    invariant
                        i <= tabs.len(),
                        order.len() == i,
                        forall|k: int| 0 <= k < i ==> #[trigger] order@[k] == tabs@[k].id,
                    decreases tabs.len() - i,
                {
                    order.push(tabs[i].id.clone());
                    i = i + 1;
                }
                proof {
                    shown = tabs@;
                    assert(order@ =~= ids_of(tabs@));
                }
                next = next_after_close(order.as_slice(), chat_id.as_str());
            }
            let fx = state.select_chat(next, now);
            send_seen = fx.send_seen;
            proof {
                assert(strip_tabs(*old(state), shown));
            }
        }
        let call = self.archive_chat(chat_id, state.engine_attached);
        TabClosed { call, send_seen }
    }

    /// The pointer enters or leaves a tab.
    pub fn tab_hovered(&mut self, chat_id: String, inside: bool)
        ensures
            *final(self) == (Shell {
                tab_hover: if inside {
                    Some(chat_id)
                } else if text_opt(old(self).tab_hover) == Some(chat_id@) {
                    None
                } else {
                    old(self).tab_hover
                },
                ..*old(self)
            }),
    {
        if inside {
            self.tab_hover = Some(chat_id);
        } else if is_text(&self.tab_hover, chat_id.as_str()) {
            self.tab_hover = None;
        }
    }

    /// The tab strip.
    pub fn session_tab_strip(&self, state: &AppState, now: Timestamp) -> (strip: TabStrip)
        ensures
            exists|tabs: Seq<&Chat>| #[trigger]
                strip_tabs(*state, tabs) && strip.tabs@.len() == tabs.len() && (forall|i: int|
                    0 <= i < strip.tabs@.len() ==> tab_shows(
                        #[trigger] strip.tabs@[i],
                        *tabs[i],
                        *state,
                        text_opt(self.tab_hover),
                        now,
                    )),
            strip.new_tab == state.selected_space is Some,
            strip.new_tab_active == (state.selected_space is Some && state.selected_chat is None),
            strip.toggle_changes == (!self.settings.right_pane_open && (state.current_space() matches Some(
                s,
            ) && s.git_detected)),
    {
        let chats = tabs_of(state);
        let mut tabs: Vec<SessionTab> = Vec::new();
        let mut i: usize = 0;
        while i < chats.len()
            invariant
                i <= chats.len(),
                tabs.len() == i,
                forall|k: int|
                    0 <= k < i ==> tab_shows(
                        #[trigger] tabs@[k],
                        *chats@[k],
                        *state,
                        text_opt(self.tab_hover),
                        now,
                    ),
            decreases chats.len() - i,
        {
            let chat = chats[i];
            let title = match &chat.title_line {
                Some(title) => title.clone(),
                None => "New session".to_owned(),
            };
            let harness = match &chat.config {
                Some(c) => Some(c.harness),
                None => None,
            };
            let status = state.display_status_for(chat, now);
            let hovered = is_text(&self.tab_hover, chat.id.as_str());
            tabs.push(
                SessionTab {
                    chat_id: chat.id.clone(),
                    title,
                    harness,
                    status,
                    selected: is_text(&state.selected_chat, chat.id.as_str()),
                    hovered,
                    dot: !hovered && status != ChatIndicator::Idle,
                },
            );
            i = i + 1;
        }
        proof {
            assert(strip_tabs(*state, chats@));
        }
        let has_space = state.selected_space.is_some();
        TabStrip {
            tabs,
            new_tab: has_space,
            new_tab_active: has_space && state.selected_chat.is_none(),
            toggle_changes: !self.settings.right_pane_open && state.selected_space_git(),
        }
    }
}

} // verus!
