//! The application state in step with the engine.

use crate::json::Json;
use crate::laws::ground::{filtered_members, news, same_members, searched};
use crate::lists::{first_at, pointees, search_meaning, search_stops_at};
use crate::model::{
    AuthState, Chat, ChatConfig, ChatIndicator, Device, Session, SessionMessageEntry, Space,
    UserProfile,
};
use crate::order;
use crate::order::{AttentionOrder, CreationOrder, RecencyOrder};
use crate::sorting::{in_order, stably_sorted, Precedence};
use crate::state;
use crate::state::{chat_is, AppState, Effects};
use crate::text;
use crate::time::Timestamp;
use vstd::prelude::*;

verus! {

/// The instant that a chat ranks by.
pub open spec fn latest(c: Chat) -> int {
    match c.last_message_at {
        Some(t) => t@,
        None => c.created_at@,
    }
}

/// A chat stands before another one in the sidebar: the newer first, among those the later made, and among
/// those by id.
pub open spec fn stands_before(a: Chat, b: Chat) -> bool {
    ||| latest(a) > latest(b)
    ||| latest(a) == latest(b) && a.created_at@ > b.created_at@
    ||| latest(a) == latest(b) && a.created_at@ == b.created_at@ && text::text_less(a.id@, b.id@)
}

/// Newer chats stand before older ones.
pub open spec fn newest_first(chats: Seq<Chat>) -> bool {
    forall|i: int, j: int|
        0 <= i < j < chats.len() ==> latest(#[trigger] chats[i]) >= latest(#[trigger] chats[j])
}

proof fn recency_means_newest_first(before: Seq<Chat>, after: Seq<Chat>)
    requires
        stably_sorted::<Chat, RecencyOrder>(before, after),
    ensures
        newest_first(after),
        after.to_multiset() == before.to_multiset(),
{
    assert(in_order::<Chat, RecencyOrder>(after));
    assert forall|i: int, j: int| 0 <= i < j < after.len() implies latest(#[trigger] after[i])
        >= latest(#[trigger] after[j]) by {
        assert(RecencyOrder::le(after[i], after[j]));
    }
}

/// Sorting keeps every chat and puts the newer before the older.
pub proof fn chats_sort_newest_first(chats: &mut Vec<Chat>)
    requires
        call_ensures(order::sort_chats, (chats,), ()),
    ensures
        newest_first(final(chats)@),
        final(chats)@.to_multiset() == old(chats)@.to_multiset(),
        forall|i: int, j: int|
            0 <= i < j < final(chats)@.len() && latest(final(chats)@[i]) == latest(final(chats)@[j])
                ==> (#[trigger] final(chats)@[i]).created_at@ >= (#[trigger] final(chats)@[j]).created_at@,
        forall|i: int, j: int|
            0 <= i < j < final(chats)@.len() ==> !stands_before(
                #[trigger] final(chats)@[j],
                #[trigger] final(chats)@[i],
            ),
{
    recency_means_newest_first(old(chats)@, final(chats)@);
    assert(in_order::<Chat, RecencyOrder>(final(chats)@));
    assert forall|i: int, j: int| 0 <= i < j < final(chats)@.len() implies !stands_before(
        #[trigger] final(chats)@[j],
        #[trigger] final(chats)@[i],
    ) by {
        assert(RecencyOrder::le(final(chats)@[i], final(chats)@[j]));
    }
    assert forall|i: int, j: int|
        0 <= i < j < final(chats)@.len() && latest(final(chats)@[i]) == latest(
            final(chats)@[j],
        ) implies (#[trigger] final(chats)@[i]).created_at@ >= (#[trigger] final(chats)@[j]).created_at@ by {
        assert(RecencyOrder::le(final(chats)@[i], final(chats)@[j]));
    }
}

/// Spaces are listed as they were made.
pub proof fn spaces_sort_oldest_first(spaces: &mut Vec<Space>)
    requires
        call_ensures(order::sort_spaces, (spaces,), ()),
    ensures
        final(spaces)@.to_multiset() == old(spaces)@.to_multiset(),
        forall|i: int, j: int|
            0 <= i < j < final(spaces)@.len() ==> (#[trigger] final(spaces)@[i]).created_at@ <= (
            #[trigger] final(spaces)@[j]).created_at@,
        forall|i: int, j: int|
            0 <= i < j < final(spaces)@.len() && (#[trigger] final(spaces)@[i]).created_at@ == (
            #[trigger] final(spaces)@[j]).created_at@ ==> !text::text_less(
                final(spaces)@[j].id@,
                final(spaces)@[i].id@,
            ),
{
    assert(in_order::<Space, CreationOrder>(final(spaces)@));
    assert forall|i: int, j: int| 0 <= i < j < final(spaces)@.len() implies (
    #[trigger] final(spaces)@[i]).created_at@ <= (#[trigger] final(spaces)@[j]).created_at@ && (
    final(spaces)@[i].created_at@ == final(spaces)@[j].created_at@ ==> !text::text_less(
        final(spaces)@[j].id@,
        final(spaces)@[i].id@,
    )) by {
        assert(<CreationOrder as Precedence<Space>>::le(final(spaces)@[i], final(spaces)@[j]));
    }
}

/// A frame of chats holds what the list shows then, and a selected chat stays selected exactly while the
/// frame holds it.
pub proof fn a_frame_replaces_the_chats(s: &mut AppState, chats: Vec<Chat>)
    requires
        call_ensures(AppState::apply_chats, (s, chats), ()),
    ensures
        newest_first(final(s).chats@),
        final(s).chats@.to_multiset() == chats@.to_multiset(),
        old(s).selected_chat matches Some(id) ==> if exists|i: int|
            0 <= i < chats@.len() && (#[trigger] chats@[i]).id@ == id@ {
            final(s).selected_chat == old(s).selected_chat && final(s).transcript == old(s).transcript
        } else {
            final(s).selected_chat is None && final(s).transcript@.len() == 0 && final(s).transcript_watch is None
        },
        old(s).selected_chat is None ==> final(s).selected_chat is None,
        final(s).selected_space == old(s).selected_space,
        final(s).auto_selected == old(s).auto_selected,
{
    recency_means_newest_first(chats@, final(s).chats@);
    same_members(final(s).chats@, chats@);
    if old(s).selected_chat is Some {
        let id = old(s).selected_chat->0;
        let p = chat_is(id@);
        searched(final(s).chats@, p);
        search_meaning(final(s).chats@, p);
        if exists|i: int| 0 <= i < chats@.len() && (#[trigger] chats@[i]).id@ == id@ {
            let i = choose|i: int| 0 <= i < chats@.len() && (#[trigger] chats@[i]).id@ == id@;
            let k = choose|k: int| 0 <= k < final(s).chats@.len() && final(s).chats@[k] == chats@[i];
            assert(p(final(s).chats@[k]));
        } else {
            assert forall|k: int| 0 <= k < final(s).chats@.len() implies !p(
                #[trigger] final(s).chats@[k],
            ) by {
                assert(chats@.contains(final(s).chats@[k]));
            }
        }
    }
}

/// At start-up the newest chat that is not archived is opened, and none where all are archived. A chat that
/// was selected before, or a selection that was given up, is left alone.
pub proof fn the_first_frame_opens_the_newest_open_chat(
    s: &mut AppState,
    chats: Vec<Chat>,
    now: Timestamp,
    fx: Effects,
)
    requires
        call_ensures(AppState::apply_chats_frame, (s, chats, now), fx),
        old(s).selected_chat is None,
    ensures
        fx.notify,
        old(s).auto_selected ==> final(s).selected_chat is None,
        (forall|i: int| 0 <= i < chats@.len() ==> (#[trigger] chats@[i]).archived) ==> final(s).selected_chat is None && fx.send_seen is None,
        !old(s).auto_selected && (exists|i: int|
            0 <= i < chats@.len() && !(#[trigger] chats@[i]).archived) ==> (final(s).selected_chat matches Some(id) && exists|i: int|
            {
                &&& 0 <= i < chats@.len()
                &&& (#[trigger] chats@[i]).id == id
                &&& !chats@[i].archived
                &&& forall|j: int|
                    0 <= j < chats@.len() && !(#[trigger] chats@[j]).archived ==> !stands_before(
                        chats@[j],
                        chats@[i],
                    )
                &&& chats@[i].space_id is Some && (forall|j: int|
                    0 <= j < chats@.len() && j != i ==> (#[trigger] chats@[j]).id@ != chats@[i].id@)
                    ==> final(s).selected_space == chats@[i].space_id
            }),
        final(s).selected_chat is Some ==> final(s).auto_selected && final(s).transcript@.len() == 0,
        final(s).selected_chat is Some && old(s).engine_attached ==> final(s).transcript_watch == final(s).selected_chat,
        fx.send_seen is Some ==> old(s).engine_attached && fx.send_seen->0@ == final(s).selected_chat->0@,
{
    let mid = choose|mid: AppState| #[trigger]
        AppState::chats_applied(*old(s), chats@, mid) && AppState::first_selected(
            mid,
            *final(s),
            now,
            crate::text::text_opt(fx.send_seen),
        );
    recency_means_newest_first(chats@, mid.chats@);
    same_members(mid.chats@, chats@);
    let open = |c: Chat| !c.archived;
    search_meaning(mid.chats@, open);
    if first_at(mid.chats@, open) is Some {
        let k = first_at(mid.chats@, open)->0;
        let c = mid.chats@[k];
        assert(open(c));
        let i = choose|i: int| 0 <= i < chats@.len() && chats@[i] == c;
        assert(!chats@[i].archived);
        assert(in_order::<Chat, RecencyOrder>(mid.chats@));
        assert forall|j: int| 0 <= j < chats@.len() && !(#[trigger] chats@[j]).archived implies !stands_before(
            chats@[j],
            chats@[i],
        ) by {
            let m = choose|m: int| 0 <= m < mid.chats@.len() && mid.chats@[m] == chats@[j];
            assert(open(mid.chats@[m]));
            if m < k {
                assert(!open(mid.chats@[m]));
            }
            if k < m {
                assert(RecencyOrder::le(mid.chats@[k], mid.chats@[m]));
            }
            text::text_order_is_strict(c.id@, c.id@);
        }
        if chats@[i].space_id is Some && (forall|j: int|
            0 <= j < chats@.len() && j != i ==> (#[trigger] chats@[j]).id@ != chats@[i].id@) {
            let w = chat_is(c.id@);
            search_meaning(mid.chats@, w);
            assert(w(mid.chats@[k]));
            let f = first_at(mid.chats@, w)->0;
            assert(w(mid.chats@[f]));
            let y = choose|y: int| 0 <= y < chats@.len() && chats@[y] == mid.chats@[f];
            assert(chats@[y].id@ == c.id@);
        }
    } else {
        assert forall|i: int| 0 <= i < chats@.len() implies (#[trigger] chats@[i]).archived by {
            let m = choose|m: int| 0 <= m < mid.chats@.len() && mid.chats@[m] == chats@[i];
            assert(!open(mid.chats@[m]));
        }
    }
}

/// A selection that is still in the frame stays through it.
pub proof fn a_selection_survives_a_frame(
    s: &mut AppState,
    chats: Vec<Chat>,
    now: Timestamp,
    fx: Effects,
    i: int,
)
    requires
        call_ensures(AppState::apply_chats_frame, (s, chats, now), fx),
        0 <= i < chats@.len(),
        old(s).selected_chat matches Some(id) && chats@[i].id@ == id@,
    ensures
        final(s).selected_chat == old(s).selected_chat,
        final(s).transcript == old(s).transcript,
        final(s).chats@.to_multiset() == chats@.to_multiset(),
        fx.send_seen is None,
{
    let mid = choose|mid: AppState| #[trigger]
        AppState::chats_applied(*old(s), chats@, mid) && AppState::first_selected(
            mid,
            *final(s),
            now,
            crate::text::text_opt(fx.send_seen),
        );
    recency_means_newest_first(chats@, mid.chats@);
    same_members(mid.chats@, chats@);
    let p = chat_is(old(s).selected_chat->0@);
    let k = choose|k: int| 0 <= k < mid.chats@.len() && mid.chats@[k] == chats@[i];
    assert(p(mid.chats@[k]));
    search_meaning(mid.chats@, p);
}

/// A frame of spaces keeps the selected space while it is there, and else falls back to the oldest one.
pub proof fn a_frame_replaces_the_spaces(s: &mut AppState, spaces: Vec<Space>)
    requires
        call_ensures(AppState::apply_spaces, (s, spaces), ()),
    ensures
        final(s).spaces@.to_multiset() == spaces@.to_multiset(),
        forall|i: int, j: int|
            0 <= i < j < final(s).spaces@.len() ==> (#[trigger] final(s).spaces@[i]).created_at@ <= (
            #[trigger] final(s).spaces@[j]).created_at@,
        spaces@.len() == 0 <==> final(s).selected_space is None,
        (old(s).selected_space matches Some(id) && exists|i: int|
            0 <= i < spaces@.len() && (#[trigger] spaces@[i]).id@ == id@) ==> final(s).selected_space
            == old(s).selected_space,
        final(s).selected_space != old(s).selected_space && spaces@.len() > 0 ==> (final(s).selected_space matches Some(id) && exists|i: int|
            0 <= i < spaces@.len() && (#[trigger] spaces@[i]).id == id && forall|j: int|
                0 <= j < spaces@.len() ==> spaces@[i].created_at@ <= (#[trigger] spaces@[j]).created_at@),
        final(s).selected_chat == old(s).selected_chat && final(s).chats == old(s).chats,
{
    let after = final(s).spaces@;
    same_members(after, spaces@);
    assert(in_order::<Space, CreationOrder>(after));
    assert forall|i: int, j: int| 0 <= i < j < after.len() implies (#[trigger] after[i]).created_at@ <= (
    #[trigger] after[j]).created_at@ by {
        assert(<CreationOrder as Precedence<Space>>::le(after[i], after[j]));
    }
    if old(s).selected_space is Some {
        let id = old(s).selected_space->0;
        let p = |x: Space| x.id@ == id@;
        if exists|i: int| 0 <= i < spaces@.len() && (#[trigger] spaces@[i]).id@ == id@ {
            let i = choose|i: int| 0 <= i < spaces@.len() && (#[trigger] spaces@[i]).id@ == id@;
            let k = choose|k: int| 0 <= k < after.len() && after[k] == spaces@[i];
            assert(p(after[k]));
        }
    }
    if after.len() > 0 {
        let i = choose|i: int| 0 <= i < spaces@.len() && spaces@[i] == after[0];
        assert(spaces@[i].id == after[0].id);
        assert forall|j: int| 0 <= j < spaces@.len() implies spaces@[i].created_at@ <= (
        #[trigger] spaces@[j]).created_at@ by {
            let k = choose|k: int| 0 <= k < after.len() && after[k] == spaces@[j];
            if k > 0 {
                assert(after[0].created_at@ <= after[k].created_at@);
            }
        }
    }
}

/// A configuration lands on the chat that it is for, and on nothing else.
pub proof fn a_configuration_lands_on_its_chat(s: &mut AppState, chat_id: &str, config: ChatConfig)
    requires
        call_ensures(AppState::apply_chat_config, (s, chat_id, config), ()),
    ensures
        final(s).chats@.len() == old(s).chats@.len(),
        forall|i: int|
            0 <= i < old(s).chats@.len() && old(s).chats@[i].id@ != chat_id@ ==> #[trigger] final(s).chats@[i] == old(s).chats@[i],
        forall|i: int|
            0 <= i < old(s).chats@.len() ==> final(s).chats@[i] == old(s).chats@[i] || #[trigger] final(s).chats@[i] == (Chat { config: Some(config), ..old(s).chats@[i] }),
        (exists|i: int| 0 <= i < old(s).chats@.len() && (#[trigger] old(s).chats@[i]).id@ == chat_id@)
            ==> exists|i: int|
            0 <= i < final(s).chats@.len() && (#[trigger] final(s).chats@[i]).id@ == chat_id@ && final(s).chats@[i].config == Some(config),
        final(s).selected_chat == old(s).selected_chat,
{
    let p = chat_is(chat_id@);
    search_meaning(old(s).chats@, p);
    if first_at(old(s).chats@, p) is Some {
        let k = first_at(old(s).chats@, p)->0;
        assert(p(old(s).chats@[k]));
        assert(final(s).chats@[k].id@ == chat_id@);
    } else {
        assert forall|i: int| 0 <= i < old(s).chats@.len() implies (#[trigger] old(s).chats@[i]).id@
            != chat_id@ by {
            assert(!p(old(s).chats@[i]));
        }
    }
}

/// A transcript that arrives for a chat that is no longer selected changes nothing; one of the selected chat
/// is shown as it came.
pub proof fn a_transcript_shows_its_own_chat_only(
    s: &mut AppState,
    chat_id: &str,
    entries: Vec<SessionMessageEntry>,
    taken: bool,
)
    requires
        call_ensures(AppState::apply_transcript_frame, (s, chat_id, entries), taken),
    ensures
        taken <==> (old(s).selected_chat matches Some(id) && id@ == chat_id@),
        !taken ==> *final(s) == *old(s),
        taken ==> final(s).transcript == entries,
        final(s).selected_chat == old(s).selected_chat && final(s).chats == old(s).chats,
{
}

/// A message is pending from its send until a transcript carries its id.
pub proof fn a_message_is_pending_until_it_is_confirmed(
    s: &mut AppState,
    entries: Vec<SessionMessageEntry>,
    before: &AppState,
    pending: &[SessionMessageEntry],
    after: &AppState,
    left: &[SessionMessageEntry],
    e: SessionMessageEntry,
)
    requires
        call_ensures(AppState::apply_transcript, (s, entries), ()),
        *before == *old(s),
        *after == *final(s),
        call_ensures(AppState::pending_echoes, (before,), pending),
        call_ensures(AppState::pending_echoes, (after,), left),
    ensures
        left@.contains(e) <==> pending@.contains(e) && forall|i: int|
            0 <= i < entries@.len() ==> (#[trigger] entries@[i]).id@ != e.id@,
        after.transcript == entries,
{
    if old(s).selected_chat is Some {
        let c = old(s).selected_chat->0@;
        let was = state::echoes_in(old(s).echoes@, c);
        let p = |x: SessionMessageEntry| !state::holds_message(entries@, x.id@);
        filtered_members(was, p);
        assert(state::echoes_in(final(s).echoes@, c) == was.filter(p));
        let same = |x: SessionMessageEntry| x.id@ == e.id@;
        if !state::holds_message(entries@, e.id@) {
            assert forall|i: int| 0 <= i < entries@.len() implies (#[trigger] entries@[i]).id@
                != e.id@ by {
                assert(!same(entries@[i]));
            }
        } else {
            let k = choose|k: int| 0 <= k < entries@.len() && same(#[trigger] entries@[k]);
            assert(entries@[k].id@ == e.id@);
        }
    }
}

/// What is sent in the selected chat is pending, once; what failed is not.
pub proof fn a_send_waits_and_a_failure_does_not(
    s: &mut AppState,
    chat_id: &str,
    entry: SessionMessageEntry,
    before: &AppState,
    pending: &[SessionMessageEntry],
    after: &AppState,
    more: &[SessionMessageEntry],
)
    requires
        call_ensures(AppState::push_echo, (s, chat_id, entry), ()),
        *before == *old(s),
        *after == *final(s),
        before.selected_chat matches Some(id) && id@ == chat_id@,
        call_ensures(AppState::pending_echoes, (before,), pending),
        call_ensures(AppState::pending_echoes, (after,), more),
    ensures
        (exists|i: int| 0 <= i < pending@.len() && (#[trigger] pending@[i]).id@ == entry.id@)
            ==> more@ == pending@,
        (forall|i: int| 0 <= i < pending@.len() ==> (#[trigger] pending@[i]).id@ != entry.id@)
            ==> more@ == pending@.push(entry),
        after.transcript == before.transcript,
{
    let was = state::echoes_in(old(s).echoes@, chat_id@);
    let same = |x: SessionMessageEntry| x.id@ == entry.id@;
    assert(state::echoes_in(final(s).echoes@, chat_id@) == more@);
    if exists|i: int| 0 <= i < pending@.len() && (#[trigger] pending@[i]).id@ == entry.id@ {
        let i = choose|i: int| 0 <= i < pending@.len() && (#[trigger] pending@[i]).id@ == entry.id@;
        assert(same(was[i]));
    }
    if state::holds_message(was, entry.id@) {
        let k = choose|k: int| 0 <= k < was.len() && same(#[trigger] was[k]);
        assert(pending@[k].id@ == entry.id@);
    }
}

/// A failed message leaves the pending ones, and no other does.
pub proof fn a_failed_message_is_taken_back(
    s: &mut AppState,
    chat_id: &str,
    message_id: &str,
    before: &AppState,
    pending: &[SessionMessageEntry],
    after: &AppState,
    left: &[SessionMessageEntry],
    e: SessionMessageEntry,
)
    requires
        call_ensures(AppState::remove_echo, (s, chat_id, message_id), ()),
        *before == *old(s),
        *after == *final(s),
        before.selected_chat is Some,
        call_ensures(AppState::pending_echoes, (before,), pending),
        call_ensures(AppState::pending_echoes, (after,), left),
    ensures
        before.selected_chat->0@ == chat_id@ ==> (left@.contains(e) <==> pending@.contains(e) && e.id@
            != message_id@),
        before.selected_chat->0@ != chat_id@ ==> left@ == pending@,
{
    let c = before.selected_chat->0@;
    let was = state::echoes_in(old(s).echoes@, c);
    let p = |x: SessionMessageEntry| x.id@ != message_id@;
    filtered_members(was, p);
    assert(state::echoes_in(final(s).echoes@, c) == left@);
}

/// A row that is asked for by an id has that id; where none is returned, none has it.
pub proof fn rows_are_found_by_their_id(
    s: &AppState,
    id: &str,
    chat: Option<&Chat>,
    space: Option<&Space>,
    device: Option<&Device>,
    session: Option<&Session>,
    name: Option<&str>,
)
    requires
        call_ensures(AppState::chat_row, (s, id), chat),
        call_ensures(AppState::space_row, (s, id), space),
        call_ensures(AppState::device_row, (s, id), device),
        call_ensures(AppState::session_for, (s, id), session),
        call_ensures(AppState::device_name, (s, id), name),
    ensures
        match chat {
            Some(c) => c.id@ == id@ && s.chats@.contains(*c),
            None => forall|i: int| 0 <= i < s.chats@.len() ==> (#[trigger] s.chats@[i]).id@ != id@,
        },
        match space {
            Some(c) => c.id@ == id@ && s.spaces@.contains(*c),
            None => forall|i: int| 0 <= i < s.spaces@.len() ==> (#[trigger] s.spaces@[i]).id@ != id@,
        },
        match device {
            Some(c) => c.id@ == id@ && s.devices@.contains(*c) && (name matches Some(n) && n@
                == c.name@),
            None => name is None && forall|i: int|
                0 <= i < s.devices@.len() ==> (#[trigger] s.devices@[i]).id@ != id@,
        },
        match session {
            Some(c) => c.chat_id@ == id@ && s.sessions@.contains(*c),
            None => forall|i: int|
                0 <= i < s.sessions@.len() ==> (#[trigger] s.sessions@[i]).chat_id@ != id@,
        },
{
    let pc = chat_is(id@);
    let ps = |x: Space| x.id@ == id@;
    let pd = |x: Device| x.id@ == id@;
    let pn = |x: Session| x.chat_id@ == id@;
    searched(s.chats@, pc);
    searched(s.spaces@, ps);
    searched(s.devices@, pd);
    searched(s.sessions@, pn);
    if chat is None {
        assert forall|i: int| 0 <= i < s.chats@.len() implies (#[trigger] s.chats@[i]).id@ != id@ by {
            assert(!pc(s.chats@[i]));
        }
    }
    if space is None {
        assert forall|i: int| 0 <= i < s.spaces@.len() implies (#[trigger] s.spaces@[i]).id@ != id@ by {
            assert(!ps(s.spaces@[i]));
        }
    }
    if device is None {
        assert forall|i: int| 0 <= i < s.devices@.len() implies (#[trigger] s.devices@[i]).id@ != id@ by {
            assert(!pd(s.devices@[i]));
        }
    }
    if session is None {
        assert forall|i: int| 0 <= i < s.sessions@.len() implies (#[trigger] s.sessions@[i]).chat_id@
            != id@ by {
            assert(!pn(s.sessions@[i]));
        }
    }
}

/// The selected rows are those whose ids are selected.
pub proof fn the_selected_rows_are_the_selected_ones(
    s: &AppState,
    chat: Option<&Chat>,
    space: Option<&Space>,
    git: bool,
)
    requires
        call_ensures(AppState::selected_chat_row, (s,), chat),
        call_ensures(AppState::selected_space_row, (s,), space),
        call_ensures(AppState::selected_space_git, (s,), git),
    ensures
        chat matches Some(c) ==> (s.selected_chat matches Some(id) && c.id@ == id@) && s.chats@.contains(
            *c,
        ),
        space matches Some(c) ==> (s.selected_space matches Some(id) && c.id@ == id@)
            && s.spaces@.contains(*c),
        git <==> (space matches Some(c) && c.git_detected),
        s.selected_chat matches Some(id) ==> (chat is None ==> forall|i: int|
            0 <= i < s.chats@.len() ==> (#[trigger] s.chats@[i]).id@ != id@),
{
    if s.selected_chat is Some {
        let p = chat_is(s.selected_chat->0@);
        searched(s.chats@, p);
        if chat is None {
            assert forall|i: int| 0 <= i < s.chats@.len() implies (#[trigger] s.chats@[i]).id@
                != s.selected_chat->0@ by {
                assert(!p(s.chats@[i]));
            }
        }
    }
    if s.selected_space is Some {
        a_space_is_found(s.spaces@, s.selected_space->0);
    }
}

proof fn a_space_is_found(spaces: Seq<Space>, id: String)
    ensures
        match state::space_with(spaces, id@) {
            Some(x) => x.id@ == id@ && spaces.contains(x),
            None => forall|i: int| 0 <= i < spaces.len() ==> (#[trigger] spaces[i]).id@ != id@,
        },
{
    let p = |s: Space| s.id@ == id@;
    searched(spaces, p);
    if state::space_with(spaces, id@) is None {
        assert forall|i: int| 0 <= i < spaces.len() implies (#[trigger] spaces[i]).id@ != id@ by {
            assert(!p(spaces[i]));
        }
    }
}

/// Archived chats are not shown, and every other one is.
pub proof fn archived_chats_are_not_shown(s: &AppState, rows: Vec<&Chat>, c: Chat)
    requires
        call_ensures(AppState::visible_chats, (s,), rows),
    ensures
        pointees(rows@).contains(c) <==> s.chats@.contains(c) && !c.archived,
{
    filtered_members(s.chats@, |c: Chat| !c.archived);
}

/// The tabs of a space are its chats that are not archived, in the order in which they were made.
pub proof fn tabs_are_the_chats_of_the_space(s: &AppState, space_id: &str, rows: Vec<&Chat>)
    requires
        call_ensures(AppState::chats_in_space, (s, space_id), rows),
    ensures
        forall|k: int|
            0 <= k < rows@.len() ==> {
                &&& s.chats@.contains(*(#[trigger] rows@[k]))
                &&& !rows@[k].archived
                &&& rows@[k].space_id matches Some(id) && id@ == space_id@
            },
        forall|i: int|
            0 <= i < s.chats@.len() && !s.chats@[i].archived && (s.chats@[i].space_id matches Some(id)
                && id@ == space_id@) ==> exists|k: int|
                0 <= k < rows@.len() && *(#[trigger] rows@[k]) == #[trigger] s.chats@[i],
        forall|i: int, j: int|
            0 <= i < j < rows@.len() ==> (#[trigger] rows@[i]).created_at@ <= (
            #[trigger] rows@[j]).created_at@,
{
    let p = |c: Chat| state::shown_in(c, space_id@);
    let picked = choose|picked: Seq<&Chat>|
        pointees(picked) == s.chats@.filter(|c: Chat| state::shown_in(c, space_id@))
            && #[trigger] stably_sorted::<&Chat, CreationOrder>(picked, rows@);
    same_members(rows@, picked);
    filtered_members(s.chats@, p);
    assert(in_order::<&Chat, CreationOrder>(rows@));
    assert forall|k: int| 0 <= k < rows@.len() implies {
        &&& s.chats@.contains(*(#[trigger] rows@[k]))
        &&& !rows@[k].archived
        &&& rows@[k].space_id matches Some(id) && id@ == space_id@
    } by {
        let m = choose|m: int| 0 <= m < picked.len() && picked[m] == rows@[k];
        assert(pointees(picked)[m] == *rows@[k]);
        assert(p(s.chats@.filter(p)[m]));
    }
    assert forall|i: int|
        0 <= i < s.chats@.len() && !s.chats@[i].archived && (s.chats@[i].space_id matches Some(id)
            && id@ == space_id@) implies exists|k: int|
        0 <= k < rows@.len() && *(#[trigger] rows@[k]) == #[trigger] s.chats@[i] by {
        assert(p(s.chats@[i]));
        assert(s.chats@.contains(s.chats@[i]));
        assert(s.chats@.filter(p).contains(s.chats@[i]));
        let m = choose|m: int| 0 <= m < s.chats@.filter(p).len() && s.chats@.filter(p)[m] == s.chats@[i];
        assert(pointees(picked)[m] == *picked[m]);
        assert(rows@.contains(picked[m]));
        let k = choose|k: int| 0 <= k < rows@.len() && rows@[k] == picked[m];
        assert(*rows@[k] == s.chats@[i]);
    }
    assert forall|i: int, j: int| 0 <= i < j < rows@.len() implies (#[trigger] rows@[i]).created_at@ <= (
    #[trigger] rows@[j]).created_at@ by {
        assert(<CreationOrder as Precedence<&Chat>>::le(rows@[i], rows@[j]));
    }
}

/// The palette opens on this device, or else on the first.
pub proof fn the_palette_opens_here(s: &AppState, r: Option<&Device>)
    requires
        call_ensures(AppState::palette_device, (s,), r),
    ensures
        r is None <==> s.devices@.len() == 0,
        r matches Some(d) ==> s.devices@.contains(*d),
        forall|i: int|
            0 <= i < s.devices@.len() && (s.local_device_id matches Some(id) && id@ == (
            #[trigger] s.devices@[i]).id@) ==> (r matches Some(d) && Some(d.id@) == Some(
                s.local_device_id->0@,
            )),
        (forall|i: int|
            0 <= i < s.devices@.len() ==> (s.local_device_id matches Some(id) ==> id@ != (
            #[trigger] s.devices@[i]).id@)) && s.devices@.len() > 0 ==> (r matches Some(d) && *d
            == s.devices@[0]),
{
    let local = crate::text::text_opt(s.local_device_id);
    let p = |d: Device| local == Some(d.id@);
    searched(s.devices@, p);
    search_meaning(s.devices@, p);
    if r is Some {
        if first_at(s.devices@, p) is None {
            assert forall|i: int|
                0 <= i < s.devices@.len() && (s.local_device_id matches Some(id) && id@ == (
                #[trigger] s.devices@[i]).id@) implies false by {
                assert(!p(s.devices@[i]));
            }
        }
    }
}

/// This device is there, and so is one that nothing is known of; any other is while it was heard of.
pub proof fn a_device_is_there_while_it_is_heard_of(
    s: &AppState,
    device_id: &str,
    fresh: bool,
    online: bool,
)
    requires
        call_ensures(AppState::device_online, (s, device_id, fresh), online),
    ensures
        fresh ==> online,
        (s.local_device_id matches Some(id) && id@ == device_id@) ==> online,
        (forall|i: int| 0 <= i < s.devices@.len() ==> (#[trigger] s.devices@[i]).id@ != device_id@)
            ==> online,
        !fresh && online ==> (s.local_device_id matches Some(id) && id@ == device_id@) || (forall|i: int|
            0 <= i < s.devices@.len() ==> (#[trigger] s.devices@[i]).id@ != device_id@),
{
    let p = |x: Device| x.id@ == device_id@;
    searched(s.devices@, p);
    search_meaning(s.devices@, p);
    if first_at(s.devices@, p) is None {
        assert forall|i: int| 0 <= i < s.devices@.len() implies (#[trigger] s.devices@[i]).id@
            != device_id@ by {
            assert(!p(s.devices@[i]));
        }
    }
}

/// The sidebar's list holds every chat of a known space that is not archived, the urgent first.
pub proof fn the_sidebar_lists_what_is_open(
    s: &AppState,
    now: Timestamp,
    list: Vec<(ChatIndicator, &Chat)>,
)
    requires
        call_ensures(AppState::overview_chats, (s, now), list),
    ensures
        forall|k: int|
            0 <= k < list@.len() ==> s.chats@.contains(*(#[trigger] list@[k]).1) && !list@[k].1.archived
                && list@[k].1.space_id is Some && list@[k].0 == s.shown_status(*list@[k].1, now),
        forall|i: int, m: int|
            #![trigger s.chats@[i], s.spaces@[m]]
            0 <= i < s.chats@.len() && 0 <= m < s.spaces@.len() && !s.chats@[i].archived && (
            s.chats@[i].space_id matches Some(id) && id@ == s.spaces@[m].id@) ==> exists|k: int|
                0 <= k < list@.len() && *(#[trigger] list@[k]).1 == s.chats@[i],
        forall|i: int, j: int|
            0 <= i < j < list@.len() && (#[trigger] list@[j]).0 == ChatIndicator::AwaitingInput
                ==> (#[trigger] list@[i]).0 == ChatIndicator::AwaitingInput,
        forall|i: int, j: int|
            0 <= i < j < list@.len() && (#[trigger] list@[i]).0 == ChatIndicator::Idle ==> (
            #[trigger] list@[j]).0 == ChatIndicator::Idle,
        forall|i: int, j: int|
            0 <= i < j < list@.len() && (#[trigger] list@[i]).0 == (#[trigger] list@[j]).0 ==> latest(
                *list@[i].1,
            ) >= latest(*list@[j].1),
{
    let p = |c: Chat| state::shown_somewhere(c, s.spaces@);
    let rows = choose|rows: Seq<(ChatIndicator, &Chat)>|
        rows.map_values(|row: (ChatIndicator, &Chat)| *row.1) == s.chats@.filter(
            |c: Chat| state::shown_somewhere(c, s.spaces@),
        ) && (forall|i: int|
            0 <= i < rows.len() ==> (#[trigger] rows[i]).0 == s.shown_status(*rows[i].1, now))
            && #[trigger] stably_sorted::<(ChatIndicator, &Chat), AttentionOrder>(rows, list@);
    same_members(list@, rows);
    filtered_members(s.chats@, p);
    assert(in_order::<(ChatIndicator, &Chat), AttentionOrder>(list@));
    let all = rows.map_values(|row: (ChatIndicator, &Chat)| *row.1);
    assert forall|k: int| 0 <= k < list@.len() implies s.chats@.contains(*(#[trigger] list@[k]).1)
        && !list@[k].1.archived && list@[k].1.space_id is Some && list@[k].0 == s.shown_status(
        *list@[k].1,
        now,
    ) by {
        let m = choose|m: int| 0 <= m < rows.len() && rows[m] == list@[k];
        assert(all[m] == *rows[m].1);
        assert(p(s.chats@.filter(p)[m]));
    }
    assert forall|i: int, m: int|
        #![trigger s.chats@[i], s.spaces@[m]]
        0 <= i < s.chats@.len() && 0 <= m < s.spaces@.len() && !s.chats@[i].archived && (
        s.chats@[i].space_id matches Some(id) && id@ == s.spaces@[m].id@) implies exists|k: int|
        0 <= k < list@.len() && *(#[trigger] list@[k]).1 == s.chats@[i] by {
        a_space_is_found(s.spaces@, s.chats@[i].space_id->0);
        assert(p(s.chats@[i]));
        assert(s.chats@.contains(s.chats@[i]));
        assert(s.chats@.filter(p).contains(s.chats@[i]));
        let n = choose|n: int| 0 <= n < all.len() && all[n] == s.chats@[i];
        assert(*rows[n].1 == s.chats@[i]);
        assert(list@.contains(rows[n]));
        let k = choose|k: int| 0 <= k < list@.len() && list@[k] == rows[n];
        assert(*list@[k].1 == s.chats@[i]);
    }
    assert forall|i: int, j: int| 0 <= i < j < list@.len() implies AttentionOrder::le(
        #[trigger] list@[i],
        #[trigger] list@[j],
    ) by {
    }
}

/// The status of a chat is that of its own session.
pub proof fn a_chat_shows_its_own_session(
    s: &AppState,
    chat: &Chat,
    now: Timestamp,
    shown: ChatIndicator,
    id: &str,
    session: Option<&Session>,
    again: ChatIndicator,
)
    requires
        call_ensures(AppState::display_status_for, (s, chat, now), shown),
        id@ == chat.id@,
        call_ensures(AppState::session_for, (s, id), session),
        call_ensures(order::display_status, (chat, session, now), again),
    ensures
        shown == again,
        session is None ==> (shown == ChatIndicator::Completed <==> news(*chat)),
{
}

/// Looking at a chat stamps it where a message is newer than the last look, and touches no other row.
pub proof fn looking_stamps_what_is_new(s: &mut AppState, chat_id: &str, now: Timestamp, fx: Effects)
    requires
        call_ensures(AppState::mark_chat_seen, (s, chat_id, now), fx),
    ensures
        final(s).chats@.len() == old(s).chats@.len(),
        forall|i: int|
            0 <= i < old(s).chats@.len() ==> #[trigger] final(s).chats@[i] == old(s).chats@[i] || (
            old(s).chats@[i].id@ == chat_id@ && news(old(s).chats@[i]) && final(s).chats@[i] == (Chat {
                last_seen_at: Some(now),
                ..old(s).chats@[i]
            })),
        !fx.notify ==> final(s).chats@ == old(s).chats@ && fx.send_seen is None,
        fx.notify ==> exists|i: int|
            0 <= i < old(s).chats@.len() && (#[trigger] old(s).chats@[i]).id@ == chat_id@ && news(
                old(s).chats@[i],
            ) && final(s).chats@[i].last_seen_at == Some(now),
        fx.notify && old(s).engine_attached ==> (fx.send_seen matches Some(id) && id@ == chat_id@),
        !old(s).engine_attached ==> fx.send_seen is None,
        (exists|i: int| 0 <= i < old(s).chats@.len() && (#[trigger] old(s).chats@[i]).id@ == chat_id@)
            && (forall|i: int|
            0 <= i < old(s).chats@.len() && (#[trigger] old(s).chats@[i]).id@ == chat_id@ ==> news(
                old(s).chats@[i],
            )) ==> fx.notify,
        final(s).selected_chat == old(s).selected_chat,
{
    let p = chat_is(chat_id@);
    search_meaning(old(s).chats@, p);
    if first_at(old(s).chats@, p) is Some {
        let k = first_at(old(s).chats@, p)->0;
        assert(p(old(s).chats@[k]));
        assert(old(s).chats@[k].id@ == chat_id@);
    } else {
        assert forall|i: int| 0 <= i < old(s).chats@.len() implies (#[trigger] old(s).chats@[i]).id@
            != chat_id@ by {
            assert(!p(old(s).chats@[i]));
        }
    }
}

/// A chat that is selected is the selected one: its transcript is watched and the old one is gone.
pub proof fn the_selected_chat_is_the_one_asked_for(
    s: &mut AppState,
    chat_id: Option<String>,
    now: Timestamp,
    fx: Effects,
)
    requires
        call_ensures(AppState::select_chat, (s, chat_id, now), fx),
    ensures
        match chat_id {
            Some(id) => final(s).selected_chat matches Some(selected) && selected@ == id@,
            None => final(s).selected_chat is None,
        },
        match (old(s).selected_chat, chat_id) {
            (Some(a), Some(b)) => if a@ == b@ {
                final(s).transcript == old(s).transcript && final(s).transcript_watch == old(s).transcript_watch
            } else {
                final(s).transcript@.len() == 0 && final(s).auto_selected && fx.notify
            },
            (None, None) => final(s).transcript == old(s).transcript && !fx.notify,
            _ => final(s).transcript@.len() == 0 && final(s).auto_selected && fx.notify,
        },
        text::text_opt(old(s).selected_chat) != text::text_opt(chat_id) ==> final(s).transcript_watch == (
        if old(s).engine_attached {
            chat_id
        } else {
            None::<String>
        }),
        !old(s).engine_attached ==> fx.send_seen is None,
        fx.send_seen is Some ==> chat_id is Some && fx.send_seen->0@ == chat_id->0@,
        chat_id is None ==> final(s).chats@ == old(s).chats@ && final(s).selected_space == old(s).selected_space,
        final(s).chats@.len() == old(s).chats@.len(),
        forall|i: int|
            0 <= i < old(s).chats@.len() ==> #[trigger] final(s).chats@[i] == old(s).chats@[i] || (
            chat_id is Some && old(s).chats@[i].id@ == chat_id->0@ && final(s).chats@[i] == (Chat {
                last_seen_at: Some(now),
                ..old(s).chats@[i]
            })),
{
    if chat_id is Some {
        let p = chat_is(chat_id->0@);
        search_meaning(old(s).chats@, p);
        if first_at(old(s).chats@, p) is Some {
            assert(p(old(s).chats@[first_at(old(s).chats@, p)->0]));
        }
    }
}

/// Selecting another chat leads to the space that the chat lies in, and stays where it lies in none.
pub proof fn a_chat_leads_to_its_space(
    s: &mut AppState,
    id: String,
    now: Timestamp,
    fx: Effects,
    i: int,
)
    requires
        call_ensures(AppState::select_chat, (s, Some(id), now), fx),
        old(s).selected_chat matches Some(was) ==> was@ != id@,
        0 <= i < old(s).chats@.len(),
        old(s).chats@[i].id@ == id@,
        forall|j: int| 0 <= j < i ==> (#[trigger] old(s).chats@[j]).id@ != id@,
    ensures
        old(s).chats@[i].space_id is Some ==> final(s).selected_space == old(s).chats@[i].space_id,
        old(s).chats@[i].space_id is None ==> final(s).selected_space == old(s).selected_space,
        news(old(s).chats@[i]) ==> final(s).chats@[i].last_seen_at == Some(now),
        news(old(s).chats@[i]) && old(s).engine_attached ==> (fx.send_seen matches Some(told) && told@
            == id@),
{
    let p = chat_is(id@);
    assert(p(old(s).chats@[i]));
    assert forall|j: int| 0 <= j < i implies !p(#[trigger] old(s).chats@[j]) by {
        assert(old(s).chats@[j].id@ != id@);
    }
    search_stops_at(old(s).chats@, p, i);
}

/// Selecting a space selects that space and no chat.
pub proof fn a_selected_space_is_the_one_asked_for(
    s: &mut AppState,
    space_id: Option<String>,
    changed: bool,
)
    requires
        call_ensures(AppState::select_space, (s, space_id), changed),
    ensures
        match space_id {
            Some(id) => final(s).selected_space matches Some(selected) && selected@ == id@,
            None => final(s).selected_space is None,
        },
        !changed ==> *final(s) == *old(s),
        changed ==> final(s).selected_space == space_id,
        final(s).selected_chat == old(s).selected_chat && final(s).chats == old(s).chats,
{
}

/// The user is the one who signed in, also while a workspace is still to be chosen.
pub proof fn the_user_is_who_signed_in(s: &AppState, user: Option<&UserProfile>)
    requires
        call_ensures(AppState::auth_user, (s,), user),
    ensures
        s.auth is None ==> user is None,
        s.auth == Some(AuthState::SignedOut) ==> user is None,
        s.auth matches Some(AuthState::SignedIn { user: who, .. }) ==> (user matches Some(u) && *u == who),
        s.auth matches Some(AuthState::NeedsOrganization { user: who }) ==> (user matches Some(u) && *u
            == who),
{
}

/// A connected engine is connected, and the transcript of the selected chat is watched from then on.
pub proof fn an_engine_is_reached_or_not(
    a: &mut AppState,
    data_dir: String,
    b: &mut AppState,
    message: String,
    c: &mut AppState,
)
    requires
        call_ensures(AppState::begin_bootstrap, (a, data_dir), ()),
        call_ensures(AppState::bootstrap_failed, (b, message), ()),
        call_ensures(AppState::attach_engine, (c,), ()),
    ensures
        final(a).connection == crate::gate::ConnectionStatus::Connecting,
        final(a).data_dir == Some(data_dir),
        final(a).engine_attached == old(a).engine_attached,
        final(b).connection == crate::gate::ConnectionStatus::Failed(message),
        final(b).engine_attached == old(b).engine_attached,
        final(c).connection == crate::gate::ConnectionStatus::Ready,
        final(c).engine_attached,
        old(c).selected_chat is Some ==> final(c).transcript_watch == old(c).selected_chat,
        final(c).selected_chat == old(c).selected_chat && final(c).transcript == old(c).transcript,
{
}

/// The device is named by the text member `id` of the answer.
pub proof fn the_local_device_is_named_by_its_id(s: &mut AppState, value: &Json, id: Seq<char>)
    requires
        call_ensures(AppState::apply_local_device, (s, value), ()),
        value matches Json::Object(members) && members@.len() > 0 && members@[0].0@ == "id"@ && (
        members@[0].1 matches Json::Text(t) && t@ == id),
    ensures
        final(s).local_device_id matches Some(local) && local@ == id,
        final(s).devices == old(s).devices,
{
    let members = value->Object_0@;
    let p = |m: (String, Json)| m.0@ == "id"@;
    assert(p(members[0]));
    search_stops_at(members, p, 0);
}

/// The member `deviceId` names the device where there is no `id`.
pub proof fn the_local_device_may_be_named_by_device_id(
    s: &mut AppState,
    value: &Json,
    ki: &str,
    id: Option<&Json>,
    kd: &str,
    device: Option<String>,
)
    requires
        call_ensures(AppState::apply_local_device, (s, value), ()),
        ki@ == "id"@ && kd@ == "deviceId"@,
        call_ensures(Json::get, (value, ki), id),
        call_ensures(Json::get_text, (value, kd), device),
    ensures
        id is None && device is Some ==> (final(s).local_device_id matches Some(local) && local@ == device->0@),
        id matches Some(v) ==> (*v matches Json::Text(t) ==> (final(s).local_device_id matches Some(local)
            && local@ == t@)),
        final(s).chats == old(s).chats,
{
}

/// A sign-in frame is taken where it can be read, and then says who is signed in; any other changes nothing.
pub proof fn a_sign_in_frame_is_taken_where_it_is_read(
    s: &mut AppState,
    value: &Json,
    taken: bool,
    read: Option<AuthState>,
)
    requires
        call_ensures(AppState::apply_auth_value, (s, value), taken),
        call_ensures(crate::gate::parse_auth_state, (value,), read),
    ensures
        taken <==> read is Some,
        !taken ==> final(s).auth == old(s).auth,
        read == Some(AuthState::SignedOut) ==> final(s).auth == Some(AuthState::SignedOut),
        read matches Some(AuthState::SignedIn { user, .. }) ==> (final(s).auth matches Some(
            AuthState::SignedIn { user: u, .. },
        ) && u.id@ == user.id@ && u.email@ == user.email@),
        read matches Some(AuthState::NeedsOrganization { user }) ==> (final(s).auth matches Some(
            AuthState::NeedsOrganization { user: u },
        ) && u.id@ == user.id@),
        final(s).chats == old(s).chats && final(s).connection == old(s).connection,
{
}

/// The space of a chat is that of its id; the phase and the indicator are those of the state.
pub proof fn what_is_derived_comes_from_the_state(
    s: &AppState,
    chat: &Chat,
    space: Option<&Space>,
    id: &str,
    row: Option<&Space>,
    phase: crate::gate::GatePhase,
    connection: &crate::gate::ConnectionStatus,
    auth: Option<&AuthState>,
    same: crate::gate::GatePhase,
    key: &str,
    now: Timestamp,
    shown: order::Indicator,
    session: Option<&Session>,
    own: order::Indicator,
)
    requires
        call_ensures(AppState::space_for_chat, (s, chat), space),
        chat.space_id is Some ==> id@ == chat.space_id->0@,
        call_ensures(AppState::space_row, (s, id), row),
        call_ensures(AppState::gate, (s,), phase),
        *connection == s.connection,
        match (s.auth, auth) {
            (Some(a), Some(b)) => a == *b,
            (None, None) => true,
            _ => false,
        },
        call_ensures(crate::gate::gate_phase, (connection, auth), same),
        call_ensures(AppState::indicator_for, (s, key, now), shown),
        call_ensures(AppState::session_for, (s, key), session),
        call_ensures(order::effective_indicator, (session, now), own),
    ensures
        chat.space_id is None ==> space is None,
        chat.space_id is Some ==> (match (space, row) {
            (Some(a), Some(b)) => *a == *b,
            (None, None) => true,
            _ => false,
        }),
        phase == same,
        shown == own,
{
}

/// Nothing is known at first.
pub proof fn nothing_is_known_at_first(s: AppState)
    requires
        call_ensures(AppState::new, (), s),
    ensures
        s.connection == crate::gate::ConnectionStatus::Connecting && s.auth is None && !s.engine_attached,
        s.chats@.len() == 0 && s.spaces@.len() == 0 && s.devices@.len() == 0 && s.sessions@.len() == 0,
        s.selected_chat is None && s.selected_space is None && !s.auto_selected && s.transcript@.len() == 0,
{
}

/// The rows of the frames are the rows that are shown.
pub proof fn frames_are_taken_as_they_come(
    a: &mut AppState,
    sessions: Vec<Session>,
    b: &mut AppState,
    devices: Vec<Device>,
    c: &mut AppState,
    auth: AuthState,
)
    requires
        call_ensures(AppState::apply_sessions, (a, sessions), ()),
        call_ensures(AppState::apply_devices, (b, devices), ()),
        call_ensures(AppState::apply_auth, (c, auth), ()),
    ensures
        final(a).sessions == sessions && final(a).chats == old(a).chats && final(a).selected_chat == old(a).selected_chat,
        final(b).devices == devices && final(b).spaces == old(b).spaces,
        final(c).auth == Some(auth) && final(c).chats == old(c).chats,
{
}

} // verus!
