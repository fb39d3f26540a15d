//! The message rail: a minimap of the user's prompts with previews of the replies.

use crate::lists;
use crate::lists::{find_first, first_at, some_passes};
use crate::model::{MessagePart, MessageRole, SessionMessageEntry};
use crate::pickers::draft::{join, joined_by};
use crate::text;
use crate::text::{text_opt, texts, trim_back, trimmed};
use vstd::prelude::*;

verus! {

/// Longest preview of a prompt, in characters.
pub const PREVIEW_PROMPT_CHARS: usize = 160;

/// Longest preview of a reply, in characters.
pub const PREVIEW_REPLY_CHARS: usize = 200;

/// A rail with fewer marks than this is not shown.
pub const RAIL_MIN_MARKS: usize = 2;

/// One rail tick: a user prompt and the opening of the reply that followed.
#[derive(Debug, PartialEq)]
pub struct RailTick {
    pub message_id: String,
    pub prompt: String,
    pub reply: Option<String>,
}

/// The contents of a tick.
pub struct TickView {
    pub message_id: Seq<char>,
    pub prompt: Seq<char>,
    pub reply: Option<Seq<char>>,
}

/// The contents of a tick.
pub open spec fn tick_view(tick: RailTick) -> TickView {
    TickView { message_id: tick.message_id@, prompt: tick.prompt@, reply: text_opt(tick.reply) }
}

/// The contents of ticks.
pub open spec fn tick_views(ticks: Seq<RailTick>) -> Seq<TickView> {
    ticks.map_values(|t: RailTick| tick_view(t))
}

/// The texts of a message, in order.
pub open spec fn text_parts(parts: Seq<MessagePart>) -> Seq<Seq<char>>
    decreases parts.len(),
{
    if parts.len() == 0 {
        Seq::empty()
    } else {
        match parts.last() {
            MessagePart::Text { text } => text_parts(parts.drop_last()).push(text@),
            MessagePart::Other => text_parts(parts.drop_last()),
        }
    }
}

/// The text of a message: its texts, with a blank line between them.
pub open spec fn message_text(entry: SessionMessageEntry) -> Seq<char> {
    joined_by(text_parts(entry.parts@), "\n\n"@)
}

fn user_text(entry: &SessionMessageEntry) -> (r: String)
    ensures
        r@ == message_text(*entry),
{
    let mut found: Vec<String> = Vec::new();
    let mut i: usize = 0;
    proof {
        assert(entry.parts@.take(0) =~= Seq::<MessagePart>::empty());
        assert(texts(found@) =~= Seq::<Seq<char>>::empty());
    }
    while i < entry.parts.len()
        invariant
            i <= entry.parts.len(),
            texts(found@) == text_parts(entry.parts@.take(i as int)),
        decreases entry.parts.len() - i,
    {
        let ghost before = found@;
        proof {
            assert(entry.parts@.take(i + 1).drop_last() =~= entry.parts@.take(i as int));
        }
        match &entry.parts[i] {
            MessagePart::Text { text } => {
                found.push(text.clone());
                proof {
                    assert(texts(found@) =~= texts(before).push(text@));
                }
            },
            MessagePart::Other => {},
        }
        i = i + 1;
    }
    proof {
        assert(entry.parts@.take(i as int) =~= entry.parts@);
    }
    join(&found, "\n\n")
}

/// The test for a text that is not blank.
pub open spec fn says_something() -> spec_fn(MessagePart) -> bool {
    |p: MessagePart| p matches MessagePart::Text { text } && trimmed(text@).len() > 0
}

/// The test for a message of the assistant.
pub open spec fn is_reply() -> spec_fn(SessionMessageEntry) -> bool {
    |e: SessionMessageEntry| e.role == MessageRole::Assistant
}

/// The opening of the first reply among messages: its first text that is not blank.
pub open spec fn opening_of_reply(entries: Seq<SessionMessageEntry>) -> Option<Seq<char>> {
    match find_first(entries, is_reply()) {
        Some(entry) => match find_first(entry.parts@, says_something()) {
            Some(MessagePart::Text { text }) => Some(trimmed(text@)),
            _ => None,
        },
        None => None,
    }
}

fn first_reply_text(entries: &[SessionMessageEntry], from: usize) -> (r: Option<String>)
    requires
        from <= entries.len(),
    ensures
        text_opt(r) == opening_of_reply(entries@.skip(from as int)),
{
    let mut i: usize = from;
    while i < entries.len() && entries[i].role != MessageRole::Assistant
        invariant
            from <= i <= entries.len(),
            find_first(entries@.skip(from as int), is_reply()) == find_first(
                entries@.skip(i as int),
                is_reply(),
            ),
        decreases entries.len() - i,
    {
        proof {
            assert(entries@.skip(i as int)[0] == entries@[i as int]);
            assert(entries@.skip(i as int).skip(1) =~= entries@.skip(i + 1));
        }
        i = i + 1;
    }
    if i == entries.len() {
        return None;
    }
    proof {
        assert(entries@.skip(i as int)[0] == entries@[i as int]);
    }
    let ghost p = says_something();
    let spoken = |part: &MessagePart| -> (b: bool)
        ensures
            b == p(*part),
        {
            match part {
                MessagePart::Text { text } => {
                    let t = text::trim(text.as_str());
                    !text::empty(t.as_str())
                },
                MessagePart::Other => false,
            }
        };
    match lists::find(&entries[i].parts, spoken, Ghost(p)) {
        Some(MessagePart::Text { text }) => Some(text::trim(text.as_str())),
        _ => None,
    }
}

/// The tick of a user message: its text and the opening of the first reply after it.
pub open spec fn tick_of(entries: Seq<SessionMessageEntry>, ix: int) -> TickView {
    TickView {
        message_id: entries[ix].id@,
        prompt: message_text(entries[ix]),
        reply: opening_of_reply(entries.skip(ix + 1)),
    }
}

/// The ticks of the user messages among the first `n` messages.
pub open spec fn ticks_up_to(entries: Seq<SessionMessageEntry>, n: nat) -> Seq<TickView>
    decreases n,
{
    if n == 0 {
        Seq::empty()
    } else {
        let before = ticks_up_to(entries, (n - 1) as nat);
        if entries[n - 1].role == MessageRole::User {
            before.push(tick_of(entries, n - 1))
        } else {
            before
        }
    }
}

/// Some tick has a message id.
pub open spec fn has_tick(ticks: Seq<TickView>, id: Seq<char>) -> bool {
    exists|i: int| 0 <= i < ticks.len() && (#[trigger] ticks[i]).message_id == id
}

/// Ticks with those of unconfirmed user messages that have none yet.
pub open spec fn with_echoes(ticks: Seq<TickView>, echoes: Seq<SessionMessageEntry>) -> Seq<TickView>
    decreases echoes.len(),
{
    if echoes.len() == 0 {
        ticks
    } else {
        let before = with_echoes(ticks, echoes.drop_last());
        let echo = echoes.last();
        if echo.role == MessageRole::User && !has_tick(before, echo.id@) {
            before.push(
                TickView { message_id: echo.id@, prompt: message_text(echo), reply: None },
            )
        } else {
            before
        }
    }
}

/// The ticks of a transcript and its unconfirmed messages.
pub open spec fn ticks_of(
    entries: Seq<SessionMessageEntry>,
    echoes: Seq<SessionMessageEntry>,
) -> Seq<TickView> {
    with_echoes(ticks_up_to(entries, entries.len()), echoes)
}

fn tick_known(ticks: &[RailTick], id: &str) -> (r: bool)
    ensures
        r == has_tick(tick_views(ticks@), id@),
{
    let ghost p = |t: RailTick| t.message_id@ == id@;
    let same_id = |t: &RailTick| -> (b: bool)
        ensures
            b == p(*t),
        { text::same(t.message_id.as_str(), id) };
    let r = lists::any(ticks, same_id, Ghost(p));
    proof {
        if some_passes(ticks@, p) {
            let i = choose|i: int| 0 <= i < ticks@.len() && p(ticks@[i]);
            assert(tick_views(ticks@)[i].message_id == id@);
        }
        if has_tick(tick_views(ticks@), id@) {
            let i = choose|i: int|
                0 <= i < tick_views(ticks@).len() && (
                #[trigger] tick_views(ticks@)[i]).message_id == id@;
            assert(p(ticks@[i]));
        }
    }
    r
}

/// Extracts the ticks of a transcript: one per user message, then one per unconfirmed user message that
/// has none yet.
pub fn rail_ticks(
    entries: &[SessionMessageEntry],
    echoes: &[SessionMessageEntry],
) -> (ticks: Vec<RailTick>)
    ensures
        tick_views(ticks@) == ticks_of(entries@, echoes@),
{
    let mut ticks: Vec<RailTick> = Vec::new();
    let mut i: usize = 0;
    proof {
        assert(tick_views(ticks@) =~= Seq::<TickView>::empty());
    }
    while i < entries.len()
        invariant
            i <= entries.len(),
            tick_views(ticks@) == ticks_up_to(entries@, i as nat),
        decreases entries.len() - i,
    {
        if entries[i].role == MessageRole::User {
            let ghost before = ticks@;
            let tick = RailTick {
                message_id: entries[i].id.clone(),
                prompt: user_text(&entries[i]),
                reply: first_reply_text(entries, i + 1),
            };
            ticks.push(tick);
            proof {
                assert(tick_views(ticks@) =~= tick_views(before).push(tick_view(tick)));
                assert(tick_view(tick) == tick_of(entries@, i as int));
            }
        }
        i = i + 1;
    }
    let ghost doc = tick_views(ticks@);
    let ghost all = echoes@;
    let mut k: usize = 0;
    proof {
        assert(all.take(0) =~= Seq::<SessionMessageEntry>::empty());
    }
    while k < echoes.len()
        invariant
            k <= echoes.len(),
            all == echoes@,
            tick_views(ticks@) == with_echoes(doc, all.take(k as int)),
        decreases echoes.len() - k,
    {
        let echo = &echoes[k];
        proof {
            assert(all.take(k + 1).drop_last() =~= all.take(k as int));
            assert(all.take(k + 1).last() == *echo);
        }
        if echo.role == MessageRole::User && !tick_known(&ticks, echo.id.as_str()) {
            let ghost before = ticks@;
            let tick = RailTick {
                message_id: echo.id.clone(),
                prompt: user_text(echo),
                reply: None,
            };
            ticks.push(tick);
            proof {
                assert(tick_views(ticks@) =~= tick_views(before).push(tick_view(tick)));
            }
        }
        k = k + 1;
    }
    proof {
        assert(all.take(k as int) =~= all);
    }
    ticks
}

/// An unconfirmed message adds no second tick for a message id.
pub proof fn echoes_add_no_duplicates(ticks: Seq<TickView>, echoes: Seq<SessionMessageEntry>)
    requires
        forall|i: int, j: int|
            0 <= i < j < ticks.len() ==> ticks[i].message_id != ticks[j].message_id,
    ensures
        forall|i: int, j: int|
            0 <= i < j < with_echoes(ticks, echoes).len() ==> with_echoes(
                ticks,
                echoes,
            )[i].message_id != with_echoes(ticks, echoes)[j].message_id,
        with_echoes(ticks, echoes).len() >= ticks.len(),
        with_echoes(ticks, echoes).take(ticks.len() as int) == ticks,
    decreases echoes.len(),
{
    if echoes.len() > 0 {
        echoes_add_no_duplicates(ticks, echoes.drop_last());
        let before = with_echoes(ticks, echoes.drop_last());
        let after = with_echoes(ticks, echoes);
        assert(after.take(ticks.len() as int) =~= before.take(ticks.len() as int));
    } else {
        assert(ticks.take(ticks.len() as int) =~= ticks);
    }
}

/// The last position whose row is at or above the top row, or -1.
pub open spec fn last_reached(tick_rows: Seq<usize>, top_row: usize) -> int
    decreases tick_rows.len(),
{
    if tick_rows.len() == 0 {
        -1
    } else if tick_rows.last() <= top_row {
        tick_rows.len() - 1
    } else {
        last_reached(tick_rows.drop_last(), top_row)
    }
}

/// The active tick: the last one that is reached, or the first before any is.
pub open spec fn tick_at(tick_rows: Seq<usize>, top_row: usize) -> Option<int> {
    if tick_rows.len() == 0 {
        None
    } else if last_reached(tick_rows, top_row) >= 0 {
        Some(last_reached(tick_rows, top_row))
    } else {
        Some(0)
    }
}

/// The active tick for a scroll position: the prompt whose section is being read.
pub fn active_tick(tick_rows: &[usize], top_row: usize) -> (r: Option<usize>)
    ensures
        match r {
            Some(i) => tick_at(tick_rows@, top_row) == Some(i as int) && i < tick_rows.len(),
            None => tick_at(tick_rows@, top_row) is None,
        },
{
    if tick_rows.len() == 0 {
        return None;
    }
    let mut i: usize = tick_rows.len();
    proof {
        assert(tick_rows@.take(i as int) =~= tick_rows@);
    }
    while i > 0
        invariant
            i <= tick_rows.len(),
            tick_rows.len() > 0,
            last_reached(tick_rows@, top_row) == last_reached(tick_rows@.take(i as int), top_row),
        decreases i,
    {
        if tick_rows[i - 1] <= top_row {
            return Some(i - 1);
        }
        proof {
            assert(tick_rows@.take(i as int).drop_last() =~= tick_rows@.take(i - 1));
        }
        i = i - 1;
    }
    Some(0)
}

/// A preview: the text without surrounding whitespace, cut with an ellipsis where it is too long.
pub open spec fn preview_of(s: Seq<char>, max_chars: nat) -> Seq<char> {
    let t = trimmed(s);
    if t.len() <= max_chars {
        t
    } else {
        trim_back(
            t.take(
                if max_chars > 0 {
                    max_chars - 1
                } else {
                    0
                },
            ),
        ) + "…"@
    }
}

/// Caps a preview with an ellipsis.
pub fn truncate_preview(s: &str, max_chars: usize) -> (r: String)
    ensures
        r@ == preview_of(s@, max_chars as nat),
{
    let t = text::trim(s);
    let chars = text::chars_of(t.as_str());
    if chars.len() <= max_chars {
        return t;
    }
    let keep: usize = if max_chars > 0 {
        max_chars - 1
    } else {
        0
    };
    let cut = text::string_of(&chars, 0, keep);
    proof {
        assert(cut@ =~= t@.take(keep as int));
    }
    let cut = text::trim_end(cut.as_str());
    text::joined(cut.as_str(), "…")
}

proof fn trim_back_shortens(s: Seq<char>)
    ensures
        trim_back(s).len() <= s.len(),
    decreases s.len(),
{
    if s.len() > 0 {
        trim_back_shortens(s.drop_last());
    }
}

/// A preview never exceeds its cap of at least one character.
pub proof fn preview_fits(s: Seq<char>, max_chars: nat)
    requires
        max_chars >= 1,
    ensures
        preview_of(s, max_chars).len() <= max_chars,
{
    let t = trimmed(s);
    if t.len() > max_chars {
        reveal_strlit("…");
        trim_back_shortens(t.take(max_chars - 1));
    }
}

// ---------------------------------------------------------------------------
// What the rail shows
// ---------------------------------------------------------------------------

/// One mark of the rail.
#[derive(Debug, PartialEq)]
pub struct RailMark {
    /// The transcript row that a click scrolls to.
    pub row: usize,
    pub active: bool,
    pub hovered: bool,
    pub prompt: String,
    pub reply: Option<String>,
}

/// The test for a text.
pub open spec fn text_is(s: Seq<char>) -> spec_fn(String) -> bool {
    |t: String| t@ == s
}

/// Ticks with the transcript row of each; a tick without a row is left out.
pub open spec fn located(ticks: Seq<TickView>, row_ids: Seq<String>) -> Seq<(TickView, int)>
    decreases ticks.len(),
{
    if ticks.len() == 0 {
        Seq::empty()
    } else {
        let before = located(ticks.drop_last(), row_ids);
        match first_at(row_ids, text_is(ticks.last().message_id)) {
            Some(row) => before.push((ticks.last(), row)),
            None => before,
        }
    }
}

/// The rows of located ticks.
pub open spec fn rows_of(pairs: Seq<(TickView, int)>) -> Seq<usize> {
    pairs.map_values(|p: (TickView, int)| p.1 as usize)
}

/// The preview of an optional text.
pub open spec fn preview_opt(s: Option<Seq<char>>, max_chars: nat) -> Option<Seq<char>> {
    match s {
        Some(t) => Some(preview_of(t, max_chars)),
        None => None,
    }
}

/// A mark shows a located tick.
pub open spec fn mark_shows(
    mark: RailMark,
    pair: (TickView, int),
    ix: int,
    active: Option<int>,
    hover: Option<usize>,
) -> bool {
    &&& mark.row == pair.1
    &&& mark.active == (active == Some(ix))
    &&& mark.hovered == (hover matches Some(h) && h == ix)
    &&& mark.prompt@ == preview_of(pair.0.prompt, PREVIEW_PROMPT_CHARS as nat)
    &&& text_opt(mark.reply) == preview_opt(pair.0.reply, PREVIEW_REPLY_CHARS as nat)
}

/// The marks of the rail, given the ids of the transcript rows, the row at the top of the view and the mark
/// under the pointer. A rail that is not enabled or has fewer than two marks is not shown.
pub fn rail_marks(
    enabled: bool,
    ticks: &[RailTick],
    row_ids: &[String],
    top_row: usize,
    hover: Option<usize>,
) -> (marks: Vec<RailMark>)
    ensures
        ({
            let pairs = located(tick_views(ticks@), row_ids@);
            if !enabled || pairs.len() < RAIL_MIN_MARKS {
                marks@.len() == 0
            } else {
                &&& marks@.len() == pairs.len()
                &&& forall|i: int|
                    0 <= i < marks@.len() ==> mark_shows(
                        #[trigger] marks@[i],
                        pairs[i],
                        i,
                        tick_at(rows_of(pairs), top_row),
                        hover,
                    )
            }
        }),
{
    if !enabled {
        return Vec::new();
    }
    let ghost all = tick_views(ticks@);
    let mut at: Vec<usize> = Vec::new();
    let mut rows: Vec<usize> = Vec::new();
    let mut i: usize = 0;
    proof {
        assert(all.take(0) =~= Seq::<TickView>::empty());
    }
    while i < ticks.len()
        invariant
            i <= ticks.len(),
            all == tick_views(ticks@),
            at.len() == rows.len() == located(all.take(i as int), row_ids@).len(),
            forall|k: int|
                0 <= k < at.len() ==> #[trigger] at@[k] < ticks.len() && (
                all[at@[k] as int],
                rows@[k] as int,
                ) == located(all.take(i as int), row_ids@)[k],
        decreases ticks.len() - i,
    {
        let id = &ticks[i].message_id;
        let ghost p = text_is(id@);
        let same_id = |t: &String| -> (b: bool)
            ensures
                b == p(*t),
            { text::same(t.as_str(), id.as_str()) };
        proof {
            assert(all.take(i + 1).drop_last() =~= all.take(i as int));
            assert(all.take(i + 1).last() == tick_view(ticks@[i as int]));
        }
        match lists::position(row_ids, same_id, Ghost(p)) {
            Some(row) => {
                at.push(i);
                rows.push(row);
            },
            None => {},
        }
        i = i + 1;
    }
    let ghost pairs = located(all, row_ids@);
    proof {
        assert(all.take(i as int) =~= all);
        assert(rows@ =~= rows_of(pairs)) by {
            assert forall|k: int| 0 <= k < rows@.len() implies rows@[k] == rows_of(pairs)[k] by {
                assert(at@[k] < ticks.len());
            }
        }
    }
    if at.len() < RAIL_MIN_MARKS {
        return Vec::new();
    }
    let active = active_tick(&rows, top_row);
    let mut marks: Vec<RailMark> = Vec::new();
    let mut k: usize = 0;
    while k < at.len()
        invariant
            k <= at.len(),
            at.len() == rows.len() == pairs.len(),
            all == tick_views(ticks@),
            forall|m: int|
                0 <= m < at.len() ==> #[trigger] at@[m] < ticks.len() && (
                all[at@[m] as int],
                rows@[m] as int,
                ) == pairs[m],
            match active {
                Some(a) => tick_at(rows_of(pairs), top_row) == Some(a as int),
                None => tick_at(rows_of(pairs), top_row) is None,
            },
            marks.len() == k,
            forall|m: int|
                0 <= m < k ==> mark_shows(
                    #[trigger] marks@[m],
                    pairs[m],
                    m,
                    tick_at(rows_of(pairs), top_row),
                    hover,
                ),
        decreases at.len() - k,
    {
        let tick = &ticks[at[k]];
        proof {
            assert(at@[k as int] < ticks.len());
            assert(all[at@[k as int] as int] == tick_view(*tick));
        }
        let reply = match &tick.reply {
            Some(r) => Some(truncate_preview(r.as_str(), PREVIEW_REPLY_CHARS)),
            None => None,
        };
        let is_active = match active {
            Some(a) => a == k,
            None => false,
        };
        let hovered = match hover {
            Some(h) => h == k,
            None => false,
        };
        marks.push(
            RailMark {
                row: rows[k],
                active: is_active,
                hovered,
                prompt: truncate_preview(tick.prompt.as_str(), PREVIEW_PROMPT_CHARS),
                reply,
            },
        );
        k = k + 1;
    }
    marks
}

} // verus!
