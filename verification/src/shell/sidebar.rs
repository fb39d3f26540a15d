//! The chat sidebar: the session list, flat or grouped by project.

use crate::lists::pointees;
use crate::model::Chat;
use crate::order::{indicator_at, Indicator};
use crate::project::{group_chats, grouped, ChatGroup};
use crate::state::{session_of, AppState};
use crate::text;
use crate::text::text_opt;
use crate::time::Timestamp;
use vstd::prelude::*;

verus! {

/// One session row.
#[derive(Debug, PartialEq, Eq)]
pub struct SidebarRow {
    pub chat_id: String,
    pub title: String,
    pub indicator: Indicator,
    pub selected: bool,
}

/// One line of the list.
#[derive(Debug, PartialEq, Eq)]
pub enum SidebarItem {
    /// The label of a project.
    Header(String),
    Row(SidebarRow),
}

/// A row shows a chat.
pub open spec fn sidebar_row_shows(row: SidebarRow, chat: Chat, state: AppState, now: Timestamp) -> bool {
    &&& row.chat_id == chat.id
    &&& row.title@ == (match chat.title {
        Some(title) => title@,
        None => "New session"@,
    })
    &&& row.indicator == indicator_at(session_of(state.sessions@, chat.id@), now)
    &&& row.selected == (text_opt(state.selected_chat) == Some(chat.id@))
}

/// An item shows a chat, or the label of a project.
pub open spec fn item_shows(
    item: SidebarItem,
    line: Result<Chat, Seq<char>>,
    state: AppState,
    now: Timestamp,
) -> bool {
    match line {
        Ok(chat) => item matches SidebarItem::Row(row) && sidebar_row_shows(row, chat, state, now),
        Err(label) => item matches SidebarItem::Header(shown) && shown@ == label,
    }
}

/// Chats as lines.
pub open spec fn chat_lines(chats: Seq<Chat>) -> Seq<Result<Chat, Seq<char>>> {
    chats.map_values(|c: Chat| Ok::<Chat, Seq<char>>(c))
}

/// Sections as lines: each label, then the chats under it.
pub open spec fn group_lines(groups: Seq<ChatGroup<'_>>) -> Seq<Result<Chat, Seq<char>>>
    decreases groups.len(),
{
    if groups.len() == 0 {
        Seq::empty()
    } else {
        group_lines(groups.drop_last()).push(Err(groups.last().label@)) + chat_lines(
            pointees(groups.last().chats@),
        )
    }
}

/// The lines of the sidebar: the chats that are not archived, in one list or under their projects.
pub open spec fn sidebar_lines(
    state: AppState,
    by_project: bool,
    lines: Seq<Result<Chat, Seq<char>>>,
) -> bool {
    let chats = state.chats@.filter(|c: Chat| !c.archived);
    if by_project {
        exists|groups: Seq<ChatGroup<'_>>| #[trigger]
            grouped(groups, chats) && lines == group_lines(groups)
    } else {
        lines == chat_lines(chats)
    }
}

/// Items show lines.
pub open spec fn items_show(
    items: Seq<SidebarItem>,
    lines: Seq<Result<Chat, Seq<char>>>,
    state: AppState,
    now: Timestamp,
) -> bool {
    items.len() == lines.len() && forall|i: int|
        0 <= i < items.len() ==> item_shows(#[trigger] items[i], lines[i], state, now)
}

fn row_of(state: &AppState, chat: &Chat, now: Timestamp) -> (row: SidebarRow)
    ensures
        sidebar_row_shows(row, *chat, *state, now),
{
    let title = match &chat.title {
        Some(title) => title.clone(),
        None => "New session".to_owned(),
    };
    let selected = match &state.selected_chat {
        Some(id) => text::same(id.as_str(), chat.id.as_str()),
        None => false,
    };
    SidebarRow {
        chat_id: chat.id.clone(),
        title,
        indicator: state.indicator_for(chat.id.as_str(), now),
        selected,
    }
}

fn push_rows(
    items: &mut Vec<SidebarItem>,
    state: &AppState,
    chats: &[&Chat],
    now: Timestamp,
    Ghost(lines): Ghost<Seq<Result<Chat, Seq<char>>>>,
)
    requires
        items_show(old(items)@, lines, *state, now),
    ensures
        items_show(final(items)@, lines + chat_lines(pointees(chats@)), *state, now),
{
    let ghost all = lines + chat_lines(pointees(chats@));
    let mut i: usize = 0;
    while i < chats.len()
        invariant
            i <= chats.len(),
            all == lines + chat_lines(pointees(chats@)),
            items@.len() == lines.len() + i,
            forall|k: int|
                0 <= k < items@.len() ==> item_shows(#[trigger] items@[k], all[k], *state, now),
        decreases chats.len() - i,
    {
        proof {
            assert(all[lines.len() + i] == Ok::<Chat, Seq<char>>(*chats@[i as int]));
        }
        items.push(SidebarItem::Row(row_of(state, chats[i], now)));
        i = i + 1;
    }
}

/// The lines of the chat sidebar.
pub fn chat_sidebar(state: &AppState, by_project: bool, now: Timestamp) -> (items: Vec<SidebarItem>)
    ensures
        exists|lines: Seq<Result<Chat, Seq<char>>>| #[trigger]
            sidebar_lines(*state, by_project, lines) && items_show(items@, lines, *state, now),
{
    let chats = state.visible_chats();
    let mut items: Vec<SidebarItem> = Vec::new();
    let ghost none: Seq<Result<Chat, Seq<char>>> = Seq::empty();
    if !by_project {
        push_rows(&mut items, state, &chats, now, Ghost(none));
        proof {
            assert(none + chat_lines(pointees(chats@)) =~= chat_lines(pointees(chats@)));
            assert(sidebar_lines(*state, by_project, chat_lines(pointees(chats@))));
        }
        return items;
    }
    let groups = group_chats(&chats);
    let mut i: usize = 0;
    proof {
        assert(groups@.take(0) =~= Seq::<ChatGroup<'_>>::empty());
    }
    while i < groups.len()
        invariant
            i <= groups.len(),
            items_show(items@, group_lines(groups@.take(i as int)), *state, now),
        decreases groups.len() - i,
    {
        let ghost before = group_lines(groups@.take(i as int));
        let ghost with_label = before.push(Err::<Chat, Seq<char>>(groups@[i as int].label@));
        items.push(SidebarItem::Header(groups[i].label.clone()));
        proof {
            assert(items_show(items@, with_label, *state, now));
        }
        push_rows(&mut items, state, &groups[i].chats, now, Ghost(with_label));
        proof {
            assert(groups@.take(i + 1).drop_last() =~= groups@.take(i as int));
            assert(groups@.take(i + 1).last() == groups@[i as int]);
        }
        i = i + 1;
    }
    proof {
        assert(groups@.take(i as int) =~= groups@);
        assert(grouped(groups@, state.chats@.filter(|c: Chat| !c.archived)));
        assert(sidebar_lines(*state, by_project, group_lines(groups@)));
    }
    items
}

} // verus!
