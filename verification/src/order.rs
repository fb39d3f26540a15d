//! Status indicators of chats and the orders of the lists that show them.

use crate::lists::pointee;
use crate::model::{
    chat_indicator, indicator_of, recency, Chat, ChatIndicator, Session, SessionStatus, Space,
};
use crate::sorting::{
    in_order, sorted_is_unique, stable_sort, stably_sorted, tied, Precedence,
};
use crate::text;
use crate::text::{text_at_most, text_at_most_is_total_order};
use crate::time::{truncated_div, Timestamp};
use vstd::prelude::*;

verus! {

/// What a chat's status dot or working indicator should show right now.
#[derive(Debug, Clone, Copy, PartialEq, Eq, Structural)]
pub enum Indicator {
    Nothing,
    Working,
    AwaitingInput,
    Errored,
}

/// A run in progress that was last updated longer ago than this counts as dead: a crashed backend
/// must never show as working for ever.
pub const SESSION_STALE_MS: i64 = 45_000;

/// A session whose last update is older than the staleness window.
pub open spec fn is_stale(session: Session, now: Timestamp) -> bool {
    truncated_div(now@ - session.updated_at@, 1_000_000) > SESSION_STALE_MS
}

/// What a session shows: nothing when it is absent, idle or a stale run; an error at any age.
pub open spec fn indicator_at(session: Option<Session>, now: Timestamp) -> Indicator {
    match session {
        None => Indicator::Nothing,
        Some(s) => match s.status {
            SessionStatus::Idle => Indicator::Nothing,
            SessionStatus::Errored => Indicator::Errored,
            SessionStatus::Working => if is_stale(s, now) {
                Indicator::Nothing
            } else {
                Indicator::Working
            },
            SessionStatus::AwaitingInput => if is_stale(s, now) {
                Indicator::Nothing
            } else {
                Indicator::AwaitingInput
            },
        },
    }
}

/// The indicator of a session row, checked for staleness.
pub fn effective_indicator(session: Option<&Session>, now: Timestamp) -> (r: Indicator)
    ensures
        r == indicator_at(pointee(session), now),
{
    match session {
        None => Indicator::Nothing,
        Some(s) => match s.status {
            SessionStatus::Idle => Indicator::Nothing,
            SessionStatus::Errored => Indicator::Errored,
            SessionStatus::Working | SessionStatus::AwaitingInput => {
                if now.millis_since(&s.updated_at) > SESSION_STALE_MS as i128 {
                    Indicator::Nothing
                } else if s.status == SessionStatus::Working {
                    Indicator::Working
                } else {
                    Indicator::AwaitingInput
                }
            },
        },
    }
}

/// The session that counts: one that shows something.
pub open spec fn live_session(session: Option<Session>, now: Timestamp) -> Option<Session> {
    if indicator_at(session, now) == Indicator::Nothing {
        None
    } else {
        session
    }
}

/// The full display status of a chat.
pub open spec fn status_at(chat: Chat, session: Option<Session>, now: Timestamp) -> ChatIndicator {
    indicator_of(chat, live_session(session, now))
}

/// The full display status for a chat row or a tab dot: live states win, then the synced seen marker
/// decides between completed and idle.
pub fn display_status(chat: &Chat, session: Option<&Session>, now: Timestamp) -> (r: ChatIndicator)
    ensures
        r == status_at(*chat, pointee(session), now),
{
    let live = if effective_indicator(session, now) == Indicator::Nothing {
        None
    } else {
        session
    };
    chat_indicator(chat, live)
}

/// A stale run never shows as working or as waiting for input.
pub proof fn stale_runs_never_show(chat: Chat, session: Session, now: Timestamp)
    requires
        is_stale(session, now),
    ensures
        indicator_at(Some(session), now) != Indicator::Working,
        indicator_at(Some(session), now) != Indicator::AwaitingInput,
        status_at(chat, Some(session), now) != ChatIndicator::Working,
        status_at(chat, Some(session), now) != ChatIndicator::AwaitingInput,
{
}

/// An instant in the future counts as fresh.
pub proof fn future_updates_are_fresh(session: Session, now: Timestamp)
    requires
        now@ <= session.updated_at@,
    ensures
        !is_stale(session, now),
{
}

/// The attention bucket of a status; lower is more urgent.
pub open spec fn bucket(status: ChatIndicator) -> u8 {
    match status {
        ChatIndicator::AwaitingInput => 0,
        ChatIndicator::Errored => 1,
        ChatIndicator::Working => 2,
        ChatIndicator::Completed => 3,
        ChatIndicator::Idle => 4,
    }
}

/// Attention bucket for the sidebar's Active list; lower is more urgent.
pub fn attention_rank(status: ChatIndicator) -> (r: u8)
    ensures
        r == bucket(status),
{
    match status {
        ChatIndicator::AwaitingInput => 0,
        ChatIndicator::Errored => 1,
        ChatIndicator::Working => 2,
        ChatIndicator::Completed => 3,
        ChatIndicator::Idle => 4,
    }
}

/// Attention buckets, newest first within a bucket, then by id.
pub struct AttentionOrder;

/// Creation, then id.
pub struct CreationOrder;

/// Newest first, then latest creation first, then by id.
pub struct RecencyOrder;

/// The attention order of two rows.
pub open spec fn attention_le(a: (ChatIndicator, Chat), b: (ChatIndicator, Chat)) -> bool {
    if bucket(a.0) != bucket(b.0) {
        bucket(a.0) < bucket(b.0)
    } else if recency(a.1) != recency(b.1) {
        recency(a.1) > recency(b.1)
    } else {
        text_at_most(a.1.id@, b.1.id@)
    }
}

/// The order by creation, then id.
pub open spec fn creation_le(
    a_created: Timestamp,
    a_id: Seq<char>,
    b_created: Timestamp,
    b_id: Seq<char>,
) -> bool {
    if a_created@ != b_created@ {
        a_created@ < b_created@
    } else {
        text_at_most(a_id, b_id)
    }
}

/// The sidebar order of two chats.
pub open spec fn recency_le(a: Chat, b: Chat) -> bool {
    if recency(a) != recency(b) {
        recency(a) > recency(b)
    } else if a.created_at@ != b.created_at@ {
        a.created_at@ > b.created_at@
    } else {
        text_at_most(a.id@, b.id@)
    }
}

impl<'a> Precedence<(ChatIndicator, &'a Chat)> for AttentionOrder {
    open spec fn le(a: (ChatIndicator, &'a Chat), b: (ChatIndicator, &'a Chat)) -> bool {
        attention_le((a.0, *a.1), (b.0, *b.1))
    }

    proof fn total(a: (ChatIndicator, &'a Chat), b: (ChatIndicator, &'a Chat)) {
        text_at_most_is_total_order(a.1.id@, b.1.id@, b.1.id@);
    }

    proof fn transitive(
        a: (ChatIndicator, &'a Chat),
        b: (ChatIndicator, &'a Chat),
        c: (ChatIndicator, &'a Chat),
    ) {
        text_at_most_is_total_order(a.1.id@, b.1.id@, c.1.id@);
    }

    fn at_most(a: &(ChatIndicator, &'a Chat), b: &(ChatIndicator, &'a Chat)) -> bool {
        let ra: u8 = attention_rank(a.0);
        let rb: u8 = attention_rank(b.0);
        if ra != rb {
            return ra < rb;
        }
        let ta = a.1.recent_at();
        let tb = b.1.recent_at();
        if tb.before(&ta) {
            true
        } else if ta.before(&tb) {
            false
        } else {
            !text::less(b.1.id.as_str(), a.1.id.as_str())
        }
    }
}

fn created_at_most(a_created: &Timestamp, a_id: &str, b_created: &Timestamp, b_id: &str) -> (r: bool)
    ensures
        r == creation_le(*a_created, a_id@, *b_created, b_id@),
{
    if a_created.before(b_created) {
        true
    } else if b_created.before(a_created) {
        false
    } else {
        !text::less(b_id, a_id)
    }
}

impl<'a> Precedence<&'a Chat> for CreationOrder {
    open spec fn le(a: &'a Chat, b: &'a Chat) -> bool {
        creation_le(a.created_at, a.id@, b.created_at, b.id@)
    }

    proof fn total(a: &'a Chat, b: &'a Chat) {
        text_at_most_is_total_order(a.id@, b.id@, b.id@);
    }

    proof fn transitive(a: &'a Chat, b: &'a Chat, c: &'a Chat) {
        text_at_most_is_total_order(a.id@, b.id@, c.id@);
    }

    fn at_most(a: &&'a Chat, b: &&'a Chat) -> bool {
        created_at_most(&a.created_at, a.id.as_str(), &b.created_at, b.id.as_str())
    }
}

impl Precedence<Space> for CreationOrder {
    open spec fn le(a: Space, b: Space) -> bool {
        creation_le(a.created_at, a.id@, b.created_at, b.id@)
    }

    proof fn total(a: Space, b: Space) {
        text_at_most_is_total_order(a.id@, b.id@, b.id@);
    }

    proof fn transitive(a: Space, b: Space, c: Space) {
        text_at_most_is_total_order(a.id@, b.id@, c.id@);
    }

    fn at_most(a: &Space, b: &Space) -> bool {
        created_at_most(&a.created_at, a.id.as_str(), &b.created_at, b.id.as_str())
    }
}

impl Precedence<Chat> for RecencyOrder {
    open spec fn le(a: Chat, b: Chat) -> bool {
        recency_le(a, b)
    }

    proof fn total(a: Chat, b: Chat) {
        text_at_most_is_total_order(a.id@, b.id@, b.id@);
    }

    proof fn transitive(a: Chat, b: Chat, c: Chat) {
        text_at_most_is_total_order(a.id@, b.id@, c.id@);
    }

    fn at_most(a: &Chat, b: &Chat) -> bool {
        let ta = a.recent_at();
        let tb = b.recent_at();
        if tb.before(&ta) {
            true
        } else if ta.before(&tb) {
            false
        } else {
            if b.created_at.before(&a.created_at) {
                true
            } else if a.created_at.before(&b.created_at) {
                false
            } else {
                !text::less(b.id.as_str(), a.id.as_str())
            }
        }
    }
}

/// Active-list order: attention buckets (awaiting, errored, working, completed, idle), recency within
/// a bucket, id tiebreak so that the order is total.
pub fn sort_active(rows: &mut Vec<(ChatIndicator, &Chat)>)
    ensures
        stably_sorted::<(ChatIndicator, &Chat), AttentionOrder>(old(rows)@, final(rows)@),
{
    stable_sort::<(ChatIndicator, &Chat), AttentionOrder>(rows);
}

/// Session-tab order for a space: creation order (activity never reorders tabs), id tiebreak.
pub fn sort_tabs(chats: &mut Vec<&Chat>)
    ensures
        stably_sorted::<&Chat, CreationOrder>(old(chats)@, final(chats)@),
{
    stable_sort::<&Chat, CreationOrder>(chats);
}

/// Spaces list order: creation order, id tiebreak.
pub fn sort_spaces(spaces: &mut Vec<Space>)
    ensures
        stably_sorted::<Space, CreationOrder>(old(spaces)@, final(spaces)@),
{
    stable_sort::<Space, CreationOrder>(spaces);
}

/// Sidebar order: last message first, falling back to creation; ties break by latest creation, then id.
pub fn sort_chats(chats: &mut Vec<Chat>)
    ensures
        stably_sorted::<Chat, RecencyOrder>(old(chats)@, final(chats)@),
{
    stable_sort::<Chat, RecencyOrder>(chats);
}

/// The sidebar order does not depend on the order in which the rows came: two lists of the same chats
/// with distinct ids sort to the same list.
pub proof fn chat_order_is_deterministic(
    before_a: Seq<Chat>,
    before_b: Seq<Chat>,
    after_a: Seq<Chat>,
    after_b: Seq<Chat>,
)
    requires
        before_a.to_multiset() == before_b.to_multiset(),
        stably_sorted::<Chat, RecencyOrder>(before_a, after_a),
        stably_sorted::<Chat, RecencyOrder>(before_b, after_b),
        forall|i: int, j: int|
            0 <= i < after_a.len() && 0 <= j < after_a.len() && after_a[i].id@ == after_a[j].id@
                ==> after_a[i] == after_a[j],
    ensures
        after_a == after_b,
{
    assert forall|i: int, j: int|
        0 <= i < after_a.len() && 0 <= j < after_a.len() && tied::<Chat, RecencyOrder>(
            after_a[i],
            after_a[j],
        ) implies after_a[i] == after_a[j] by {
        text_at_most_is_total_order(after_a[i].id@, after_a[j].id@, after_a[j].id@);
    }
    sorted_is_unique::<Chat, RecencyOrder>(after_a, after_b);
}

/// The spaces list does not depend on the order in which the rows came.
pub proof fn space_order_is_deterministic(
    before_a: Seq<Space>,
    before_b: Seq<Space>,
    after_a: Seq<Space>,
    after_b: Seq<Space>,
)
    requires
        before_a.to_multiset() == before_b.to_multiset(),
        stably_sorted::<Space, CreationOrder>(before_a, after_a),
        stably_sorted::<Space, CreationOrder>(before_b, after_b),
        forall|i: int, j: int|
            0 <= i < after_a.len() && 0 <= j < after_a.len() && after_a[i].id@ == after_a[j].id@
                ==> after_a[i] == after_a[j],
    ensures
        after_a == after_b,
{
    assert forall|i: int, j: int|
        0 <= i < after_a.len() && 0 <= j < after_a.len() && tied::<Space, CreationOrder>(
            after_a[i],
            after_a[j],
        ) implies after_a[i] == after_a[j] by {
        text_at_most_is_total_order(after_a[i].id@, after_a[j].id@, after_a[j].id@);
    }
    sorted_is_unique::<Space, CreationOrder>(after_a, after_b);
}

/// In the Active list a more urgent status always stands first, and within one status the more recent
/// chat does.
pub proof fn active_list_puts_urgent_first(
    before: Seq<(ChatIndicator, &Chat)>,
    after: Seq<(ChatIndicator, &Chat)>,
    i: int,
    j: int,
)
    requires
        stably_sorted::<(ChatIndicator, &Chat), AttentionOrder>(before, after),
        0 <= i < j < after.len(),
    ensures
        bucket(after[i].0) <= bucket(after[j].0),
        after[i].0 == after[j].0 ==> recency(*after[i].1) >= recency(*after[j].1),
{
    assert(in_order::<(ChatIndicator, &Chat), AttentionOrder>(after));
    assert(AttentionOrder::le(after[i], after[j]));
}

/// Activity never moves a tab: the order of two chats by creation does not look at their messages.
pub proof fn activity_never_reorders_tabs(a: Chat, b: Chat, message: Option<Timestamp>)
    ensures
        <CreationOrder as Precedence<&Chat>>::le(&a, &b) == <CreationOrder as Precedence<&Chat>>::le(
            &(Chat { last_message_at: message, ..a }),
            &b,
        ),
{
}

} // verus!
