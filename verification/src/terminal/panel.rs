//! The terminal panel: tabs per chat over engine terminals.
//!
//! Tabs belong to the chat that was selected when they were opened and come back with it. The panel
//! decides; the caller performs what it asks for and reports back.

use crate::lists;
use crate::lists::{first_at, pointee, search_meaning};
use crate::terminal::emulator::{
    after_bytes, at_least, at_most, clamped, cursor_in_view, cursor_kept, events_raised, grid_size,
    history_size, modes_set, responses_in, row_cells, same_grid, scrolled_back, title_after,
    view_in_grid, CellSnapshot, CursorSnapshot, Emulator, EventView, History, TermOp,
    SCROLLBACK_LINES,
};
use crate::terminal::tabs;
use crate::terminal::tabs::{
    active_closed, active_moved, base64_encoded, base64_padded, base64_unpadded, exit_text,
    first_decoded, moved, numbered_title, open_failed_text, slide_of, title_of_shell,
};
use crate::text;
use crate::text::text_opt;
use vstd::prelude::*;
use vstd::utf8::encode_utf8;

verus! {

/// Columns of a terminal that nothing has measured yet.
pub const DEFAULT_COLS: u16 = 80;

/// Rows of a terminal that nothing has measured yet.
pub const DEFAULT_ROWS: u16 = 24;

/// A frame of a terminal's stream.
#[derive(Debug, PartialEq, Eq)]
pub enum TerminalEvent {
    Data { seq: u64, data: String },
    Exit { seq: u64, exit_code: i32, signal: Option<String> },
}

/// A terminal that the engine opened.
#[derive(Debug, PartialEq, Eq)]
pub struct TerminalSession {
    pub id: String,
    pub cwd: String,
    pub shell: String,
}

/// Keyboard bytes that wait to be written.
#[derive(Debug, PartialEq, Eq)]
pub struct InputCoalescer {
    pub buffer: Vec<u8>,
}

impl InputCoalescer {
    pub fn new() -> (c: Self)
        ensures
            c.buffer@.len() == 0,
    {
        InputCoalescer { buffer: Vec::new() }
    }

    /// Adds bytes. Returns whether they start a new wait.
    pub fn push(&mut self, bytes: &[u8]) -> (starts: bool)
        ensures
            final(self).buffer@ == old(self).buffer@ + bytes@,
            starts == (old(self).buffer@.len() == 0 && bytes@.len() > 0),
    {
        let starts = self.buffer.len() == 0 && bytes.len() > 0;
        self.buffer.extend_from_slice(bytes);
        starts
    }

    pub fn is_empty(&self) -> (r: bool)
        ensures
            r == (self.buffer@.len() == 0),
    {
        self.buffer.len() == 0
    }

    /// Takes everything that waits.
    pub fn take(&mut self) -> (bytes: Vec<u8>)
        ensures
            bytes@ == old(self).buffer@,
            final(self).buffer@.len() == 0,
    {
        let mut empty: Vec<u8> = Vec::new();
        std::mem::swap(&mut self.buffer, &mut empty);
        empty
    }
}

/// What happens to waiting input: bytes are added, or everything is taken and sent.
pub enum InputStep {
    Typed(Seq<u8>),
    Sent,
}

/// What has been sent and what waits after some steps, as `push` and `take` have it.
pub open spec fn sent_and_waiting(steps: Seq<InputStep>) -> (Seq<u8>, Seq<u8>)
    decreases steps.len(),
{
    if steps.len() == 0 {
        (Seq::empty(), Seq::empty())
    } else {
        let (sent, waiting) = sent_and_waiting(steps.drop_last());
        match steps.last() {
            InputStep::Typed(bytes) => (sent, waiting + bytes),
            InputStep::Sent => (sent + waiting, Seq::empty()),
        }
    }
}

/// All the bytes that some steps added.
pub open spec fn bytes_typed(steps: Seq<InputStep>) -> Seq<u8>
    decreases steps.len(),
{
    if steps.len() == 0 {
        Seq::empty()
    } else {
        match steps.last() {
            InputStep::Typed(bytes) => bytes_typed(steps.drop_last()) + bytes,
            InputStep::Sent => bytes_typed(steps.drop_last()),
        }
    }
}

/// Typed bytes are sent in the order in which they were typed, each once: what was sent, followed by what
/// still waits, is what was typed.
pub proof fn typing_keeps_its_order(steps: Seq<InputStep>)
    ensures
        sent_and_waiting(steps).0 + sent_and_waiting(steps).1 == bytes_typed(steps),
    decreases steps.len(),
{
    if steps.len() > 0 {
        typing_keeps_its_order(steps.drop_last());
        let (sent, waiting) = sent_and_waiting(steps.drop_last());
        match steps.last() {
            InputStep::Typed(bytes) => {
                assert(sent + (waiting + bytes) =~= (sent + waiting) + bytes);
            },
            InputStep::Sent => {
                assert((sent + waiting) + Seq::<u8>::empty() =~= sent + waiting);
            },
        }
    }
}

/// One terminal tab.
pub struct TerminalTab {
    pub key: u64,
    pub title: String,
    pub terminal_id: Option<String>,
    pub emulator: Emulator,
    pub exited: Option<i32>,
    pub last_seq: u64,
    pub coalescer: InputCoalescer,
}

/// The tabs of one chat.
pub struct ChatTabs {
    pub chat_id: String,
    pub tabs: Vec<TerminalTab>,
    pub active: usize,
}

/// A tab that is dragged; the epoch restarts the slide animation.
#[derive(Debug, Clone, Copy, PartialEq, Eq, Structural)]
pub struct DragState {
    pub from: usize,
    pub over: usize,
    pub epoch: usize,
    pub prev_over: usize,
}

/// A grid snapshot for painting.
#[derive(Debug, PartialEq)]
pub struct GridSnapshot {
    pub lines: Vec<Vec<CellSnapshot>>,
    pub cursor: Option<CursorSnapshot>,
}

/// A tab, by its chat and key.
#[derive(Debug, PartialEq, Eq)]
pub struct TabRef {
    pub chat: String,
    pub key: u64,
}

/// Bytes, in base64, to be written to a terminal.
#[derive(Debug, PartialEq, Eq)]
pub struct TerminalWrite {
    pub terminal_id: String,
    pub data: String,
}

/// Whether a stream goes on.
#[derive(Debug, Clone, Copy, PartialEq, Eq, Structural)]
pub enum StreamDisposition {
    Continue,
    Stop,
}

/// What a flush of waiting bytes leads to.
#[derive(Debug, PartialEq, Eq)]
pub enum FlushOutcome {
    Nothing,
    /// The terminal is still being opened: try again after the wait.
    Retry,
    Write(TerminalWrite),
}

/// What becomes of a key.
#[derive(Debug, PartialEq, Eq)]
pub enum KeyRoute {
    /// The clipboard has to be pasted.
    Paste,
    /// The key was taken; the tab whose flush has to be scheduled, where one has.
    Typed { flush: Option<TabRef> },
    /// The key goes on to others.
    Ignored,
}

/// How a tab moves while one is dragged, in tab widths.
#[derive(Debug, Clone, Copy, PartialEq, Eq, Structural)]
pub enum TabMotion {
    Rests,
    Dragged,
    Slides { start: i32, target: i32, epoch: usize },
}

/// One tab of the tab bar.
#[derive(Debug, PartialEq, Eq)]
pub struct TabChip {
    pub key: u64,
    pub title: String,
    pub selected: bool,
    pub exited: bool,
    pub motion: TabMotion,
}

/// The terminal panel.
pub struct TerminalPanel {
    pub chats: Vec<ChatTabs>,
    /// While the panel is closed no terminal is opened.
    pub open: bool,
    pub tab_seq: u64,
    pub drag: Option<DragState>,
    pub last_selected: Option<String>,
}

// ---------------------------------------------------------------------------
// Lookups
// ---------------------------------------------------------------------------

/// The test for the tabs of a chat.
pub open spec fn tabs_for(chat: Seq<char>) -> spec_fn(ChatTabs) -> bool {
    |c: ChatTabs| c.chat_id@ == chat
}

/// The position of the tabs of a chat.
pub open spec fn chat_at(chats: Seq<ChatTabs>, chat: Seq<char>) -> Option<int> {
    first_at(chats, tabs_for(chat))
}

/// The test for the tab with a key.
pub open spec fn keyed(key: u64) -> spec_fn(TerminalTab) -> bool {
    |t: TerminalTab| t.key == key
}

/// The position of a tab: that of its chat, and its own among the chat's tabs.
pub open spec fn tab_at(chats: Seq<ChatTabs>, chat: Seq<char>, key: u64) -> Option<(int, int)> {
    match chat_at(chats, chat) {
        Some(i) => match first_at(chats[i].tabs@, keyed(key)) {
            Some(j) => Some((i, j)),
            None => None,
        },
        None => None,
    }
}

/// The position of the active tab of a chat.
pub open spec fn active_at(chats: Seq<ChatTabs>, chat: Option<Seq<char>>) -> Option<(int, int)> {
    match chat {
        Some(c) => match chat_at(chats, c) {
            Some(i) => if chats[i].active < chats[i].tabs@.len() {
                Some((i, chats[i].active as int))
            } else {
                None
            },
            None => None,
        },
        None => None,
    }
}

/// `after` is `before` with one tab replaced.
pub open spec fn with_tab(
    before: Seq<ChatTabs>,
    after: Seq<ChatTabs>,
    at: (int, int),
    tab: TerminalTab,
) -> bool {
    &&& after.len() == before.len()
    &&& forall|k: int| 0 <= k < before.len() && k != at.0 ==> after[k] == before[k]
    &&& after[at.0].chat_id == before[at.0].chat_id
    &&& after[at.0].active == before[at.0].active
    &&& after[at.0].tabs@ == before[at.0].tabs@.update(at.1, tab)
}

/// `after` is what an emulator becomes by bytes, and `responses` is what it answers.
pub open spec fn fed(before: Emulator, after: Emulator, bytes: Seq<u8>, responses: Seq<u8>) -> bool {
    let h = after_bytes(before.been_through(), bytes);
    &&& after.wf()
    &&& after.been_through() == h
    &&& responses == responses_in(events_raised(h))
    &&& after.title_set() == title_after(before.title_set(), events_raised(h))
    &&& after.bell_rang() == (before.bell_rang() || events_raised(h).contains(EventView::Bell))
}

/// `after` is `before` pinned to the live screen.
pub open spec fn pinned(before: Emulator, after: Emulator) -> bool {
    if scrolled_back(before.been_through()) > 0 {
        &&& after.wf()
        &&& after.been_through() == before.been_through().then_done(TermOp::Bottom)
        &&& scrolled_back(after.been_through()) == 0
        &&& same_grid(before.been_through(), after.been_through())
        &&& after.title_set() == before.title_set()
        &&& after.bell_rang() == before.bell_rang()
    } else {
        after == before
    }
}

/// A tab as it is opened.
pub open spec fn fresh_tab(tab: TerminalTab, key: u64, number: nat) -> bool {
    &&& tab.key == key
    &&& tab.title@ == numbered_title(number)
    &&& tab.terminal_id is None
    &&& tab.emulator.wf()
    &&& tab.emulator.been_through() == (History {
        cols: DEFAULT_COLS as nat,
        rows: DEFAULT_ROWS as nat,
        scrollback: SCROLLBACK_LINES as nat,
        ops: Seq::empty(),
    })
    &&& scrolled_back(tab.emulator.been_through()) == 0
    &&& history_size(tab.emulator.been_through()) == 0
    &&& tab.emulator.title_set() is None
    &&& !tab.emulator.bell_rang()
    &&& tab.exited is None
    &&& tab.last_seq == 0
    &&& tab.coalescer.buffer@.len() == 0
}

fn new_tab(key: u64, number: usize) -> (tab: TerminalTab)
    ensures
        fresh_tab(tab, key, number as nat),
{
    TerminalTab {
        key,
        title: tabs::new_tab_title(number),
        terminal_id: None,
        emulator: Emulator::new(DEFAULT_COLS, DEFAULT_ROWS),
        exited: None,
        last_seq: 0,
        coalescer: InputCoalescer::new(),
    }
}

/// Changing one tab, but not its key, is a change of that tab alone and keeps the panel in order.
proof fn one_tab_changed(before: TerminalPanel, after: TerminalPanel, i: int, j: int)
    requires
        before.wf(),
        0 <= i < before.chats@.len(),
        0 <= j < before.chats@[i].tabs@.len(),
        after.tab_seq == before.tab_seq,
        after.chats@.len() == before.chats@.len(),
        forall|k: int| 0 <= k < before.chats@.len() && k != i ==> after.chats@[k] == before.chats@[k],
        after.chats@[i].chat_id == before.chats@[i].chat_id,
        after.chats@[i].active == before.chats@[i].active,
        after.chats@[i].tabs@.len() == before.chats@[i].tabs@.len(),
        forall|k: int|
            0 <= k < before.chats@[i].tabs@.len() && k != j ==> after.chats@[i].tabs@[k]
                == before.chats@[i].tabs@[k],
        after.chats@[i].tabs@[j].key == before.chats@[i].tabs@[j].key,
        after.chats@[i].tabs@[j].emulator.wf(),
    ensures
        with_tab(before.chats@, after.chats@, (i, j), after.chats@[i].tabs@[j]),
        after.wf(),
{
    assert(after.chats@[i].tabs@ =~= before.chats@[i].tabs@.update(j, after.chats@[i].tabs@[j]));
    assert forall|a: int, b: int|
        #![trigger after.chats@[a].tabs@[b]]
        0 <= a < after.chats@.len() && 0 <= b < after.chats@[a].tabs@.len() implies (
    after.chats@[a].tabs@[b].key == before.chats@[a].tabs@[b].key && (
    after.chats@[a].tabs@[b].emulator.wf() && after.chats@[a].tabs@[b].key <= after.tab_seq)) by {
        if a == i && b == j {
            assert(before.chats@[a].tabs@[b].key <= before.tab_seq);
        } else if a == i {
            assert(after.chats@[a].tabs@[b] == before.chats@[a].tabs@[b]);
        } else {
            assert(after.chats@[a] == before.chats@[a]);
            assert(before.chats@[a].tabs@[b].emulator.wf());
        }
    }
}

/// What the bar shows of a tab: the title that the program set, or its own.
pub open spec fn chip_of(
    chip: TabChip,
    tab: TerminalTab,
    ix: int,
    active: int,
    drag: Option<DragState>,
) -> bool {
    &&& chip.key == tab.key
    &&& chip.title@ == (match tab.emulator.title_set() {
        Some(title) => title,
        None => tab.title@,
    })
    &&& chip.selected == (ix == active)
    &&& chip.exited == tab.exited is Some
    &&& match drag {
        None => chip.motion == TabMotion::Rests,
        Some(d) => if ix == d.from {
            chip.motion == TabMotion::Dragged
        } else {
            chip.motion matches TabMotion::Slides { start, target, epoch } && start == slide_of(
                ix,
                d.from as int,
                d.prev_over as int,
            ) && target == slide_of(ix, d.from as int, d.over as int) && epoch == d.epoch
        },
    }
}

/// Closing a tab keeps the panel in order.
proof fn removal_keeps_wf(before: TerminalPanel, after: TerminalPanel, i: int, j: int)
    requires
        before.wf(),
        0 <= i < before.chats@.len(),
        0 <= j < before.chats@[i].tabs@.len(),
        after.tab_seq == before.tab_seq,
        after.chats@.len() == before.chats@.len(),
        forall|k: int| 0 <= k < before.chats@.len() && k != i ==> after.chats@[k] == before.chats@[k],
        after.chats@[i].chat_id == before.chats@[i].chat_id,
        after.chats@[i].tabs@ == before.chats@[i].tabs@.remove(j),
    ensures
        after.wf(),
{
    let back = |a: int, b: int| if a == i && b >= j {
        b + 1
    } else {
        b
    };
    assert forall|a: int, b: int|
        #![trigger after.chats@[a].tabs@[b]]
        0 <= a < after.chats@.len() && 0 <= b < after.chats@[a].tabs@.len() implies (0 <= back(a, b)
        < before.chats@[a].tabs@.len() && after.chats@[a].tabs@[b] == before.chats@[a].tabs@[back(
        a,
        b,
    )]) by {
        if a != i {
            assert(after.chats@[a] == before.chats@[a]);
        }
    }
    assert forall|a: int, b: int, c: int, d: int|
        #![trigger after.chats@[a].tabs@[b], after.chats@[c].tabs@[d]]
        0 <= a < after.chats@.len() && 0 <= b < after.chats@[a].tabs@.len() && 0 <= c
            < after.chats@.len() && 0 <= d < after.chats@[c].tabs@.len() && (a != c || b
            != d) implies after.chats@[a].tabs@[b].key != after.chats@[c].tabs@[d].key by {
        assert(before.chats@[a].tabs@[back(a, b)].key != before.chats@[c].tabs@[back(c, d)].key);
    }
}

/// Moving a tab keeps the panel in order.
proof fn move_keeps_wf(before: TerminalPanel, after: TerminalPanel, i: int, from: int, to: int)
    requires
        before.wf(),
        0 <= i < before.chats@.len(),
        after.tab_seq == before.tab_seq,
        after.chats@.len() == before.chats@.len(),
        forall|k: int| 0 <= k < before.chats@.len() && k != i ==> after.chats@[k] == before.chats@[k],
        after.chats@[i].chat_id == before.chats@[i].chat_id,
        after.chats@[i].tabs@ == moved(before.chats@[i].tabs@, from, to),
    ensures
        after.wf(),
{
    let n = before.chats@[i].tabs@.len();
    let back = |a: int, b: int| if a == i && 0 <= from < n && 0 <= to < n {
        active_moved(b, to, from)
    } else {
        b
    };
    assert forall|a: int, b: int|
        #![trigger after.chats@[a].tabs@[b]]
        0 <= a < after.chats@.len() && 0 <= b < after.chats@[a].tabs@.len() implies (0 <= back(a, b)
        < before.chats@[a].tabs@.len() && after.chats@[a].tabs@[b] == before.chats@[a].tabs@[back(
        a,
        b,
    )]) by {
        if a != i {
            assert(after.chats@[a] == before.chats@[a]);
        }
    }
    assert forall|a: int, b: int, c: int, d: int|
        #![trigger after.chats@[a].tabs@[b], after.chats@[c].tabs@[d]]
        0 <= a < after.chats@.len() && 0 <= b < after.chats@[a].tabs@.len() && 0 <= c
            < after.chats@.len() && 0 <= d < after.chats@[c].tabs@.len() && (a != c || b
            != d) implies after.chats@[a].tabs@[b].key != after.chats@[c].tabs@[d].key by {
        assert(before.chats@[a].tabs@[back(a, b)].key != before.chats@[c].tabs@[back(c, d)].key);
    }
}

/// A data frame feeds its decoded bytes and hands the answer back, where the terminal is known; an exit
/// frame notes the code and shows it, and ends the stream.
pub open spec fn frame_taken(
    before: Seq<ChatTabs>,
    after: Seq<ChatTabs>,
    at: (int, int),
    event: TerminalEvent,
    goes_on: StreamDisposition,
    write: Option<TerminalWrite>,
) -> bool {
    let old_tab = before[at.0].tabs@[at.1];
    let tab = after[at.0].tabs@[at.1];
    match event {
        TerminalEvent::Data { seq, data } => {
            let bytes = first_decoded(base64_padded(data@), base64_unpadded(data@));
            let answer = responses_in(
                events_raised(after_bytes(old_tab.emulator.been_through(), bytes)),
            );
            &&& goes_on == StreamDisposition::Continue
            &&& with_tab(
                before,
                after,
                at,
                TerminalTab { last_seq: seq, emulator: tab.emulator, ..old_tab },
            )
            &&& fed(old_tab.emulator, tab.emulator, bytes, answer)
            &&& match write {
                Some(w) => answer.len() > 0 && old_tab.terminal_id == Some(w.terminal_id)
                    && w.data@ == base64_encoded(answer) && first_decoded(
                    base64_padded(w.data@),
                    base64_unpadded(w.data@),
                ) == answer,
                None => answer.len() == 0 || old_tab.terminal_id is None,
            }
        },
        TerminalEvent::Exit { seq, exit_code, .. } => {
            &&& goes_on == StreamDisposition::Stop
            &&& with_tab(
                before,
                after,
                at,
                TerminalTab {
                    last_seq: seq,
                    exited: Some(exit_code),
                    emulator: tab.emulator,
                    ..old_tab
                },
            )
            &&& exists|answer: Seq<u8>| #[trigger]
                fed(
                    old_tab.emulator,
                    tab.emulator,
                    encode_utf8(exit_text(exit_code as int)),
                    answer,
                )
            &&& write is None
        },
    }
}

impl TerminalPanel {
    /// Every emulator is in order, every key was handed out, no key occurs twice, and no chat does.
    pub open spec fn wf(self) -> bool {
        &&& forall|i: int, j: int|
            #![trigger self.chats@[i].tabs@[j]]
            0 <= i < self.chats@.len() && 0 <= j < self.chats@[i].tabs@.len()
                ==> self.chats@[i].tabs@[j].emulator.wf() && self.chats@[i].tabs@[j].key
                <= self.tab_seq
        &&& forall|i: int, j: int, k: int, l: int|
            #![trigger self.chats@[i].tabs@[j], self.chats@[k].tabs@[l]]
            0 <= i < self.chats@.len() && 0 <= j < self.chats@[i].tabs@.len() && 0 <= k
                < self.chats@.len() && 0 <= l < self.chats@[k].tabs@.len() && (i != k || j != l)
                ==> self.chats@[i].tabs@[j].key != self.chats@[k].tabs@[l].key
        &&& forall|i: int, k: int|
            #![trigger self.chats@[i].chat_id, self.chats@[k].chat_id]
            0 <= i < k < self.chats@.len() ==> self.chats@[i].chat_id@ != self.chats@[k].chat_id@
    }

    /// A closed panel without tabs.
    pub fn new() -> (p: Self)
        ensures
            p.wf(),
            p.chats@.len() == 0,
            !p.open,
            p.tab_seq == 0,
            p.drag is None,
            p.last_selected is None,
    {
        TerminalPanel {
            chats: Vec::new(),
            open: false,
            tab_seq: 0,
            drag: None,
            last_selected: None,
        }
    }

    fn chat_pos(&self, chat: &str) -> (r: Option<usize>)
        ensures
            match r {
                Some(i) => i < self.chats.len() && chat_at(self.chats@, chat@) == Some(i as int)
                    && self.chats@[i as int].chat_id@ == chat@,
                None => chat_at(self.chats@, chat@) is None,
            },
    {
        let ghost p = tabs_for(chat@);
        let same = |c: &ChatTabs| -> (b: bool)
            ensures
                b == p(*c),
            { text::same(c.chat_id.as_str(), chat) };
        lists::position(&self.chats, same, Ghost(p))
    }

    fn tab_pos(&self, chat: &str, key: u64) -> (r: Option<(usize, usize)>)
        ensures
            match r {
                Some((i, j)) => i < self.chats.len() && j < self.chats@[i as int].tabs@.len()
                    && tab_at(self.chats@, chat@, key) == Some((i as int, j as int)),
                None => tab_at(self.chats@, chat@, key) is None,
            },
    {
        match self.chat_pos(chat) {
            Some(i) => {
                let ghost p = keyed(key);
                let same = |t: &TerminalTab| -> (b: bool)
                    ensures
                        b == p(*t),
                    { t.key == key };
                match lists::position(&self.chats[i].tabs, same, Ghost(p)) {
                    Some(j) => Some((i, j)),
                    None => None,
                }
            },
            None => None,
        }
    }

    fn active_pos(&self, selected: &Option<String>) -> (r: Option<(usize, usize)>)
        ensures
            match r {
                Some((i, j)) => i < self.chats.len() && j < self.chats@[i as int].tabs@.len()
                    && active_at(self.chats@, text_opt(*selected)) == Some((i as int, j as int))
                    && text_opt(*selected) == Some(self.chats@[i as int].chat_id@),
                None => active_at(self.chats@, text_opt(*selected)) is None,
            },
    {
        match selected {
            Some(chat) => match self.chat_pos(chat.as_str()) {
                Some(i) => {
                    let j: usize = self.chats[i].active;
                    if j < self.chats[i].tabs.len() {
                        Some((i, j))
                    } else {
                        None
                    }
                },
                None => None,
            },
            None => None,
        }
    }

    /// The active tab of the selected chat.
    pub fn active_tab(&self, selected: &Option<String>) -> (r: Option<&TerminalTab>)
        ensures
            pointee(r) == (match active_at(self.chats@, text_opt(*selected)) {
                Some((i, j)) => Some(self.chats@[i].tabs@[j]),
                None => None,
            }),
    {
        match self.active_pos(selected) {
            Some((i, j)) => Some(&self.chats[i].tabs[j]),
            None => None,
        }
    }

    // ---- opening ----

    /// The panel after a new tab of a chat: it comes last, is active, and has the next key.
    pub open spec fn tab_opened(before: TerminalPanel, after: TerminalPanel, chat: Seq<char>) -> bool {
        let key = (before.tab_seq + 1) as u64;
        &&& after == (TerminalPanel { chats: after.chats, tab_seq: key, ..before })
        &&& match chat_at(before.chats@, chat) {
            Some(i) => {
                &&& after.chats@.len() == before.chats@.len()
                &&& forall|k: int|
                    0 <= k < before.chats@.len() && k != i ==> after.chats@[k] == before.chats@[k]
                &&& after.chats@[i].chat_id == before.chats@[i].chat_id
                &&& after.chats@[i].active == before.chats@[i].tabs@.len()
                &&& after.chats@[i].tabs@ == before.chats@[i].tabs@.push(
                    after.chats@[i].tabs@.last(),
                )
                &&& fresh_tab(
                    after.chats@[i].tabs@.last(),
                    key,
                    before.chats@[i].tabs@.len() + 1,
                )
            },
            None => {
                &&& after.chats@ == before.chats@.push(after.chats@.last())
                &&& after.chats@.last().chat_id@ == chat
                &&& after.chats@.last().active == 0
                &&& after.chats@.last().tabs@.len() == 1
                &&& fresh_tab(after.chats@.last().tabs@[0], key, 1)
            },
        }
    }

    /// Opens a tab for a chat, where an engine is connected. The caller starts its session.
    pub fn open_tab(&mut self, chat: &str, engine_attached: bool) -> (start: Option<TabRef>)
        requires
            old(self).wf(),
            old(self).tab_seq < u64::MAX,
            forall|i: int|
                0 <= i < old(self).chats@.len() ==> (#[trigger] old(self).chats@[i]).tabs@.len()
                    < usize::MAX,
        ensures
            final(self).wf(),
            !engine_attached ==> *final(self) == *old(self) && start is None,
            engine_attached ==> Self::tab_opened(*old(self), *final(self), chat@) && (
            start matches Some(r) && r.chat@ == chat@ && r.key == old(self).tab_seq + 1),
    {
        if !engine_attached {
            return None;
        }
        let ghost before = *self;
        self.tab_seq = self.tab_seq + 1;
        let key: u64 = self.tab_seq;
        match self.chat_pos(chat) {
            Some(i) => {
                let n: usize = self.chats[i].tabs.len();
                let tab = new_tab(key, n + 1);
                self.chats[i].tabs.push(tab);
                self.chats[i].active = n;
                proof {
                    assert(forall|a: int, b: int|
                        #![trigger self.chats@[a].tabs@[b]]
                        0 <= a < before.chats@.len() && 0 <= b < before.chats@[a].tabs@.len()
                            ==> self.chats@[a].tabs@[b] == before.chats@[a].tabs@[b]);
                }
            },
            None => {
                let mut rows: Vec<TerminalTab> = Vec::new();
                rows.push(new_tab(key, 1));
                proof {
                    search_meaning(self.chats@, tabs_for(chat@));
                }
                self.chats.push(ChatTabs { chat_id: chat.to_owned(), tabs: rows, active: 0 });
                proof {
                    assert forall|a: int, c: int|
                        #![trigger self.chats@[a].chat_id, self.chats@[c].chat_id]
                        0 <= a < c < self.chats@.len() implies self.chats@[a].chat_id@
                        != self.chats@[c].chat_id@ by {
                        assert(!tabs_for(chat@)(before.chats@[a]));
                    }
                }
            },
        }
        Some(TabRef { chat: chat.to_owned(), key })
    }

    /// The selected chat has no tab yet.
    pub open spec fn needs_tab(self, selected: Option<Seq<char>>) -> bool {
        match selected {
            Some(chat) => match chat_at(self.chats@, chat) {
                Some(i) => self.chats@[i].tabs@.len() == 0,
                None => true,
            },
            None => false,
        }
    }

    /// Opens the first tab of the selected chat, where it has none.
    pub fn ensure_tab(&mut self, selected: &Option<String>, engine_attached: bool) -> (start: Option<
        TabRef,
    >)
        requires
            old(self).wf(),
            old(self).tab_seq < u64::MAX,
            forall|i: int|
                0 <= i < old(self).chats@.len() ==> (#[trigger] old(self).chats@[i]).tabs@.len()
                    < usize::MAX,
        ensures
            final(self).wf(),
            start is Some <==> old(self).needs_tab(text_opt(*selected)) && engine_attached,
            start is None ==> *final(self) == *old(self),
            start matches Some(r) ==> Self::tab_opened(*old(self), *final(self), r.chat@)
                && text_opt(*selected) == Some(r.chat@) && r.key == old(self).tab_seq + 1,
    {
        match selected {
            Some(chat) => {
                let needs = match self.chat_pos(chat.as_str()) {
                    Some(i) => self.chats[i].tabs.len() == 0,
                    None => true,
                };
                if needs {
                    self.open_tab(chat.as_str(), engine_attached)
                } else {
                    None
                }
            },
            None => None,
        }
    }

    /// Opens or closes the panel. Opening makes the first tab of the selected chat; closing keeps every
    /// session alive.
    pub fn set_open(&mut self, open: bool, selected: &Option<String>, engine_attached: bool) -> (start:
        Option<TabRef>)
        requires
            old(self).wf(),
            old(self).tab_seq < u64::MAX,
            forall|i: int|
                0 <= i < old(self).chats@.len() ==> (#[trigger] old(self).chats@[i]).tabs@.len()
                    < usize::MAX,
        ensures
            final(self).wf(),
            start is Some <==> open && old(self).needs_tab(text_opt(*selected)) && engine_attached,
            start is None ==> *final(self) == (TerminalPanel { open, ..*old(self) }),
            start matches Some(r) ==> Self::tab_opened(
                TerminalPanel { open, ..*old(self) },
                *final(self),
                r.chat@,
            ) && text_opt(*selected) == Some(r.chat@) && r.key == old(self).tab_seq + 1,
    {
        self.open = open;
        if open {
            self.ensure_tab(selected, engine_attached)
        } else {
            None
        }
    }

    /// Takes a change of the state. Another selected chat ends a drag; an open panel makes the first tab
    /// of a chat that has none. Returns whether the selection changed, and the session to start.
    pub fn on_state_changed(&mut self, selected: &Option<String>, engine_attached: bool) -> (r: (
        bool,
        Option<TabRef>,
    ))
        requires
            old(self).wf(),
            old(self).tab_seq < u64::MAX,
            forall|i: int|
                0 <= i < old(self).chats@.len() ==> (#[trigger] old(self).chats@[i]).tabs@.len()
                    < usize::MAX,
        ensures
            final(self).wf(),
            r.0 == (text_opt(old(self).last_selected) != text_opt(*selected)),
            r.1 is Some <==> old(self).open && old(self).needs_tab(text_opt(*selected))
                && engine_attached,
            r.1 is None ==> *final(self) == old(self).noticed(*selected),
            r.1 matches Some(t) ==> Self::tab_opened(
                old(self).noticed(*selected),
                *final(self),
                t.chat@,
            ) && text_opt(*selected) == Some(t.chat@) && t.key == old(self).tab_seq + 1,
    {
        let switched = match (&self.last_selected, selected) {
            (Some(a), Some(b)) => !text::same(a.as_str(), b.as_str()),
            (None, None) => false,
            _ => true,
        };
        if switched {
            self.last_selected = text::copied(selected);
            self.drag = None;
        }
        let start = if self.open {
            self.ensure_tab(selected, engine_attached)
        } else {
            None
        };
        (switched, start)
    }

    /// The panel with a selection noted.
    pub open spec fn noticed(self, selected: Option<String>) -> TerminalPanel {
        if text_opt(self.last_selected) != text_opt(selected) {
            TerminalPanel { last_selected: selected, drag: None, ..self }
        } else {
            self
        }
    }

    // ---- stream ----

    /// Takes a frame of a tab's stream. Returns whether the stream goes on, and what to write back.
    pub fn apply_stream_event(&mut self, chat: &str, key: u64, event: TerminalEvent) -> (r: (
        StreamDisposition,
        Option<TerminalWrite>,
    ))
        requires
            old(self).wf(),
        ensures
            final(self).wf(),
            *final(self) == (TerminalPanel { chats: final(self).chats, ..*old(self) }),
            match tab_at(old(self).chats@, chat@, key) {
                None => *final(self) == *old(self) && r.0 == StreamDisposition::Stop && r.1 is None,
                Some(at) => frame_taken(
                    old(self).chats@,
                    final(self).chats@,
                    at,
                    event,
                    r.0,
                    r.1,
                ),
            },
    {
        let (i, j) = match self.tab_pos(chat, key) {
            Some(at) => at,
            None => {
                return (StreamDisposition::Stop, None);
            },
        };
        let ghost before = *self;
        match event {
            TerminalEvent::Data { seq, data } => {
                let bytes = tabs::decode_base64(data.as_str());
                self.chats[i].tabs[j].last_seq = seq;
                let responses = self.chats[i].tabs[j].emulator.feed(bytes.as_slice());
                let write = if responses.len() > 0 {
                    match &self.chats[i].tabs[j].terminal_id {
                        Some(id) => Some(
                            TerminalWrite {
                                terminal_id: id.clone(),
                                data: tabs::encode_base64(responses.as_slice()),
                            },
                        ),
                        None => None,
                    }
                } else {
                    None
                };
                proof {
                    one_tab_changed(before, *self, i as int, j as int);
                }
                (StreamDisposition::Continue, write)
            },
            TerminalEvent::Exit { seq, exit_code, signal: _ } => {
                let message = tabs::exit_message(exit_code);
                self.chats[i].tabs[j].last_seq = seq;
                self.chats[i].tabs[j].exited = Some(exit_code);
                let _answer = self.chats[i].tabs[j].emulator.feed(message.as_slice());
                proof {
                    one_tab_changed(before, *self, i as int, j as int);
                    assert(fed(
                        before.chats@[i as int].tabs@[j as int].emulator,
                        self.chats@[i as int].tabs@[j as int].emulator,
                        encode_utf8(exit_text(exit_code as int)),
                        _answer@,
                    ));
                }
                (StreamDisposition::Stop, None)
            },
        }
    }

    /// The size of a tab's terminal, or the default where the tab is gone.
    pub fn open_size(&self, chat: &str, key: u64) -> (size: (u16, u16))
        requires
            self.wf(),
        ensures
            match tab_at(self.chats@, chat@, key) {
                Some((i, j)) => (size.0 as nat, size.1 as nat) == grid_size(
                    self.chats@[i].tabs@[j].emulator.been_through(),
                ),
                None => size == (DEFAULT_COLS, DEFAULT_ROWS),
            },
    {
        match self.tab_pos(chat, key) {
            Some((i, j)) => {
                let e = &self.chats[i].tabs[j].emulator;
                assert(self.chats@[i as int].tabs@[j as int].emulator.wf());
                e.size()
            },
            None => (DEFAULT_COLS, DEFAULT_ROWS),
        }
    }

    /// The number of the last frame of a tab.
    pub fn tab_seq_of(&self, chat: &str, key: u64) -> (r: Option<u64>)
        ensures
            r == (match tab_at(self.chats@, chat@, key) {
                Some((i, j)) => Some(self.chats@[i].tabs@[j].last_seq),
                None => None,
            }),
    {
        match self.tab_pos(chat, key) {
            Some((i, j)) => Some(self.chats[i].tabs[j].last_seq),
            None => None,
        }
    }

    /// Whether a tab is gone or its process has exited.
    pub fn tab_done(&self, chat: &str, key: u64) -> (r: bool)
        ensures
            r == (match tab_at(self.chats@, chat@, key) {
                Some((i, j)) => self.chats@[i].tabs@[j].exited is Some,
                None => true,
            }),
    {
        match self.tab_pos(chat, key) {
            Some((i, j)) => self.chats[i].tabs[j].exited.is_some(),
            None => true,
        }
    }

    /// Takes the terminal that the engine opened for a tab. Returns whether the tab is still there.
    pub fn attach_session(&mut self, chat: &str, key: u64, session: &TerminalSession) -> (attached: bool)
        requires
            old(self).wf(),
        ensures
            final(self).wf(),
            *final(self) == (TerminalPanel { chats: final(self).chats, ..*old(self) }),
            match tab_at(old(self).chats@, chat@, key) {
                Some(at) => attached && ({
                    let tab = final(self).chats@[at.0].tabs@[at.1];
                    with_tab(
                        old(self).chats@,
                        final(self).chats@,
                        at,
                        TerminalTab {
                            terminal_id: Some(session.id),
                            title: tab.title,
                            ..old(self).chats@[at.0].tabs@[at.1]
                        },
                    ) && tab.title@ == title_of_shell(session.shell@)
                }),
                None => !attached && *final(self) == *old(self),
            },
    {
        match self.tab_pos(chat, key) {
            Some((i, j)) => {
                let ghost before = *self;
                assert(self.chats@[i as int].tabs@[j as int].emulator.wf());
                self.chats[i].tabs[j].terminal_id = Some(session.id.clone());
                self.chats[i].tabs[j].title = tabs::shell_title(session.shell.as_str());
                proof {
                    one_tab_changed(before, *self, i as int, j as int);
                }
                true
            },
            None => false,
        }
    }

    /// Takes the failure to open a tab's terminal: the tab shows it and counts as exited.
    pub fn open_failed(&mut self, chat: &str, key: u64, error: &str)
        requires
            old(self).wf(),
        ensures
            final(self).wf(),
            *final(self) == (TerminalPanel { chats: final(self).chats, ..*old(self) }),
            match tab_at(old(self).chats@, chat@, key) {
                Some(at) => {
                    let old_tab = old(self).chats@[at.0].tabs@[at.1];
                    let tab = final(self).chats@[at.0].tabs@[at.1];
                    with_tab(
                        old(self).chats@,
                        final(self).chats@,
                        at,
                        TerminalTab { exited: Some(-1i32), emulator: tab.emulator, ..old_tab },
                    ) && exists|answer: Seq<u8>| #[trigger]
                        fed(
                            old_tab.emulator,
                            tab.emulator,
                            encode_utf8(open_failed_text(error@)),
                            answer,
                        )
                },
                None => *final(self) == *old(self),
            },
    {
        match self.tab_pos(chat, key) {
            Some((i, j)) => {
                let ghost before = *self;
                assert(self.chats@[i as int].tabs@[j as int].emulator.wf());
                let message = tabs::open_failed_message(error);
                let _answer = self.chats[i].tabs[j].emulator.feed(message.as_slice());
                self.chats[i].tabs[j].exited = Some(-1);
                proof {
                    one_tab_changed(before, *self, i as int, j as int);
                }
                assert(fed(
                    before.chats@[i as int].tabs@[j as int].emulator,
                    self.chats@[i as int].tabs@[j as int].emulator,
                    encode_utf8(open_failed_text(error@)),
                    _answer@,
                ));
            },
            None => {},
        }
    }

    // ---- input ----

    /// Bytes were queued on the active tab, unless it has exited. A view that is scrolled back is pinned
    /// to the live screen. A flush is due where nothing waited before.
    pub open spec fn input_queued(
        before: TerminalPanel,
        selected: Option<Seq<char>>,
        bytes: Seq<u8>,
        after: TerminalPanel,
        flush: Option<TabRef>,
    ) -> bool {
        &&& after == (TerminalPanel { chats: after.chats, ..before })
        &&& match active_at(before.chats@, selected) {
            Some(at) => {
                let old_tab = before.chats@[at.0].tabs@[at.1];
                let tab = after.chats@[at.0].tabs@[at.1];
                if old_tab.exited is Some {
                    after == before && flush is None
                } else {
                    &&& with_tab(
                        before.chats@,
                        after.chats@,
                        at,
                        TerminalTab { emulator: tab.emulator, coalescer: tab.coalescer, ..old_tab },
                    )
                    &&& pinned(old_tab.emulator, tab.emulator)
                    &&& tab.coalescer.buffer@ == old_tab.coalescer.buffer@ + bytes
                    &&& flush is Some <==> old_tab.coalescer.buffer@.len() == 0 && bytes.len() > 0
                    &&& flush matches Some(r) ==> r.key == old_tab.key && Some(r.chat@) == selected
                }
            },
            None => after == before && flush is None,
        }
    }

    /// Queues bytes on the active tab, unless it has exited. A key pressed while the view is scrolled
    /// back pins it to the live screen. Returns the tab whose flush has to be scheduled.
    pub fn queue_input(&mut self, selected: &Option<String>, bytes: &[u8]) -> (flush: Option<TabRef>)
        requires
            old(self).wf(),
        ensures
            final(self).wf(),
            Self::input_queued(*old(self), text_opt(*selected), bytes@, *final(self), flush),
    {
        match self.active_pos(selected) {
            Some((i, j)) => {
                let ghost before = *self;
                assert(self.chats@[i as int].tabs@[j as int].emulator.wf());
                if self.chats[i].tabs[j].exited.is_some() {
                    return None;
                }
                if self.chats[i].tabs[j].emulator.display_offset() > 0 {
                    self.chats[i].tabs[j].emulator.scroll_to_bottom();
                }
                let starts = self.chats[i].tabs[j].coalescer.push(bytes);
                let key: u64 = self.chats[i].tabs[j].key;
                proof {
                    one_tab_changed(before, *self, i as int, j as int);
                }
                if starts {
                    Some(TabRef { chat: self.chats[i].chat_id.clone(), key })
                } else {
                    None
                }
            },
            None => None,
        }
    }

    /// Takes a key. Paste is left to the caller, who has the clipboard; any other key is queued as the
    /// bytes that it stands for, where it stands for any.
    pub fn on_key_down(
        &mut self,
        selected: &Option<String>,
        key: &str,
        cmd: bool,
        ctrl: bool,
        shift: bool,
        bytes: Option<Vec<u8>>,
    ) -> (r: KeyRoute)
        requires
            old(self).wf(),
        ensures
            final(self).wf(),
            if key@ == "v"@ && (cmd || (ctrl && shift)) {
                r is Paste && *final(self) == *old(self)
            } else {
                match bytes {
                    Some(b) => r matches KeyRoute::Typed { flush } && Self::input_queued(
                        *old(self),
                        text_opt(*selected),
                        b@,
                        *final(self),
                        flush,
                    ),
                    None => r is Ignored && *final(self) == *old(self),
                }
            },
    {
        if text::same(key, "v") && (cmd || (ctrl && shift)) {
            return KeyRoute::Paste;
        }
        match bytes {
            Some(b) => KeyRoute::Typed { flush: self.queue_input(selected, b.as_slice()) },
            None => KeyRoute::Ignored,
        }
    }

    /// Writes what waits on a tab. While the terminal is still being opened the bytes are kept and the
    /// flush is tried again, unless the tab has exited.
    pub fn flush_input(&mut self, chat: &str, key: u64, engine_attached: bool) -> (r: FlushOutcome)
        requires
            old(self).wf(),
        ensures
            final(self).wf(),
            *final(self) == (TerminalPanel { chats: final(self).chats, ..*old(self) }),
            match tab_at(old(self).chats@, chat@, key) {
                Some(at) if engine_attached => {
                    let old_tab = old(self).chats@[at.0].tabs@[at.1];
                    let tab = final(self).chats@[at.0].tabs@[at.1];
                    if old_tab.coalescer.buffer@.len() == 0 {
                        *final(self) == *old(self) && r is Nothing
                    } else {
                        match old_tab.terminal_id {
                            Some(id) => {
                                &&& with_tab(
                                    old(self).chats@,
                                    final(self).chats@,
                                    at,
                                    TerminalTab { coalescer: tab.coalescer, ..old_tab },
                                )
                                &&& tab.coalescer.buffer@.len() == 0
                                &&& r matches FlushOutcome::Write(w)
                                &&& w.terminal_id == id
                                &&& w.data@ == base64_encoded(old_tab.coalescer.buffer@)
                                &&& first_decoded(
                                    base64_padded(w.data@),
                                    base64_unpadded(w.data@),
                                ) == old_tab.coalescer.buffer@
                            },
                            None => *final(self) == *old(self) && (if old_tab.exited is None {
                                r is Retry
                            } else {
                                r is Nothing
                            }),
                        }
                    }
                },
                _ => *final(self) == *old(self) && r is Nothing,
            },
    {
        if !engine_attached {
            return FlushOutcome::Nothing;
        }
        match self.tab_pos(chat, key) {
            Some((i, j)) => {
                let ghost before = *self;
                assert(self.chats@[i as int].tabs@[j as int].emulator.wf());
                if self.chats[i].tabs[j].coalescer.is_empty() {
                    return FlushOutcome::Nothing;
                }
                let id = text::copied(&self.chats[i].tabs[j].terminal_id);
                match id {
                    Some(terminal_id) => {
                        let bytes = self.chats[i].tabs[j].coalescer.take();
                        proof {
                            one_tab_changed(before, *self, i as int, j as int);
                        }
                        FlushOutcome::Write(
                            TerminalWrite {
                                terminal_id,
                                data: tabs::encode_base64(bytes.as_slice()),
                            },
                        )
                    },
                    None => {
                        if self.chats[i].tabs[j].exited.is_none() {
                            FlushOutcome::Retry
                        } else {
                            FlushOutcome::Nothing
                        }
                    },
                }
            },
            None => FlushOutcome::Nothing,
        }
    }

    /// Whether the active tab wants pastes to be bracketed.
    pub fn paste_is_bracketed(&self, selected: &Option<String>) -> (r: bool)
        requires
            self.wf(),
        ensures
            r == (match active_at(self.chats@, text_opt(*selected)) {
                Some((i, j)) => modes_set(
                    self.chats@[i].tabs@[j].emulator.been_through(),
                ).bracketed_paste,
                None => false,
            }),
    {
        match self.active_pos(selected) {
            Some((i, j)) => {
                assert(self.chats@[i as int].tabs@[j as int].emulator.wf());
                self.chats[i].tabs[j].emulator.bracketed_paste_mode()
            },
            None => false,
        }
    }

    /// Whether the active tab wants application cursor keys.
    pub fn cursor_keys_are_application(&self, selected: &Option<String>) -> (r: bool)
        requires
            self.wf(),
        ensures
            r == (match active_at(self.chats@, text_opt(*selected)) {
                Some((i, j)) => modes_set(
                    self.chats@[i].tabs@[j].emulator.been_through(),
                ).app_cursor,
                None => false,
            }),
    {
        match self.active_pos(selected) {
            Some((i, j)) => {
                assert(self.chats@[i as int].tabs@[j as int].emulator.wf());
                self.chats[i].tabs[j].emulator.app_cursor_mode()
            },
            None => false,
        }
    }

    // ---- grid ----

    /// Takes the measured size of the view. The emulator of the active tab is resized at once; the tab
    /// whose terminal has to be told comes back, where an engine is connected.
    pub fn on_grid_metrics(
        &mut self,
        selected: &Option<String>,
        cols: u16,
        rows: u16,
        engine_attached: bool,
    ) -> (tell: Option<TabRef>)
        requires
            old(self).wf(),
        ensures
            final(self).wf(),
            *final(self) == (TerminalPanel { chats: final(self).chats, ..*old(self) }),
            match active_at(old(self).chats@, text_opt(*selected)) {
                Some(at) => {
                    let old_tab = old(self).chats@[at.0].tabs@[at.1];
                    let tab = final(self).chats@[at.0].tabs@[at.1];
                    if grid_size(old_tab.emulator.been_through()) == (cols as nat, rows as nat) {
                        *final(self) == *old(self) && tell is None
                    } else {
                        &&& with_tab(
                            old(self).chats@,
                            final(self).chats@,
                            at,
                            TerminalTab { emulator: tab.emulator, ..old_tab },
                        )
                        &&& tab.emulator.been_through()
                            == old_tab.emulator.been_through().then_done(
                            TermOp::Resize(
                                at_least(cols, 2) as nat,
                                at_least(rows, 1) as nat,
                            ),
                        )
                        &&& tab.emulator.title_set() == old_tab.emulator.title_set()
                        &&& tab.emulator.bell_rang() == old_tab.emulator.bell_rang()
                        &&& tell is Some <==> engine_attached
                        &&& tell matches Some(r) ==> r.key == old_tab.key && Some(r.chat@)
                            == text_opt(*selected)
                    }
                },
                None => *final(self) == *old(self) && tell is None,
            },
    {
        match self.active_pos(selected) {
            Some((i, j)) => {
                let ghost before = *self;
                assert(self.chats@[i as int].tabs@[j as int].emulator.wf());
                if self.chats[i].tabs[j].emulator.cols() == cols as usize
                    && self.chats[i].tabs[j].emulator.rows() == rows as usize {
                    return None;
                }
                self.chats[i].tabs[j].emulator.resize(cols, rows);
                let key: u64 = self.chats[i].tabs[j].key;
                proof {
                    one_tab_changed(before, *self, i as int, j as int);
                }
                if engine_attached {
                    Some(TabRef { chat: self.chats[i].chat_id.clone(), key })
                } else {
                    None
                }
            },
            None => None,
        }
    }

    /// What to tell the terminal of a tab once its size has settled: its id, where one is known by now or
    /// was known before, and its current size.
    pub fn settled_size(&self, chat: &str, key: u64, known_id: Option<String>) -> (r: Option<
        (String, usize, usize),
    >)
        requires
            self.wf(),
        ensures
            match tab_at(self.chats@, chat@, key) {
                Some((i, j)) => {
                    let tab = self.chats@[i].tabs@[j];
                    let id = if tab.terminal_id is Some {
                        tab.terminal_id
                    } else {
                        known_id
                    };
                    match r {
                        Some((told, cols, rows)) => id == Some(told) && (cols as nat, rows as nat)
                            == grid_size(tab.emulator.been_through()),
                        None => id is None,
                    }
                },
                None => r is None,
            },
    {
        match self.tab_pos(chat, key) {
            Some((i, j)) => {
                assert(self.chats@[i as int].tabs@[j as int].emulator.wf());
                let cols: usize = self.chats[i].tabs[j].emulator.cols();
                let rows: usize = self.chats[i].tabs[j].emulator.rows();
                let id = match text::copied(&self.chats[i].tabs[j].terminal_id) {
                    Some(id) => Some(id),
                    None => known_id,
                };
                match id {
                    Some(id) => Some((id, cols, rows)),
                    None => None,
                }
            },
            None => None,
        }
    }

    /// Snapshot of the active tab, where there is one and its view lies in the grid.
    pub fn active_grid_snapshot(&self, selected: &Option<String>) -> (r: Option<GridSnapshot>)
        requires
            self.wf(),
        ensures
            match active_at(self.chats@, text_opt(*selected)) {
                Some((i, j)) => {
                    let h = self.chats@[i].tabs@[j].emulator.been_through();
                    match r {
                        Some(g) => {
                            &&& view_in_grid(h)
                            &&& g.lines@.len() == grid_size(h).1
                            &&& forall|k: int|
                                0 <= k < g.lines@.len() ==> (#[trigger] g.lines@[k])@ == row_cells(
                                    h,
                                    k,
                                )
                            &&& g.cursor == cursor_in_view(
                                cursor_kept(h),
                                scrolled_back(h) as int,
                                grid_size(h).1 as int,
                            )
                        },
                        None => !view_in_grid(h),
                    }
                },
                None => r is None,
            },
    {
        match self.active_pos(selected) {
            Some((i, j)) => {
                assert(self.chats@[i as int].tabs@[j as int].emulator.wf());
                let emulator = &self.chats[i].tabs[j].emulator;
                match emulator.try_lines() {
                    Some(lines) => Some(GridSnapshot { lines, cursor: emulator.cursor() }),
                    None => None,
                }
            },
            None => None,
        }
    }

    /// Scrolls the active tab. Returns whether there was anything to scroll.
    pub fn scroll_active(&mut self, selected: &Option<String>, delta_lines: i32) -> (scrolled: bool)
        requires
            old(self).wf(),
        ensures
            final(self).wf(),
            *final(self) == (TerminalPanel { chats: final(self).chats, ..*old(self) }),
            match active_at(old(self).chats@, text_opt(*selected)) {
                Some(at) if delta_lines != 0 => {
                    let old_tab = old(self).chats@[at.0].tabs@[at.1];
                    let tab = final(self).chats@[at.0].tabs@[at.1];
                    &&& scrolled
                    &&& with_tab(
                        old(self).chats@,
                        final(self).chats@,
                        at,
                        TerminalTab { emulator: tab.emulator, ..old_tab },
                    )
                    &&& scrolled_back(tab.emulator.been_through()) == clamped(
                        scrolled_back(old_tab.emulator.been_through()) + delta_lines,
                        history_size(old_tab.emulator.been_through()) as int,
                    )
                    &&& tab.emulator.been_through() == old_tab.emulator.been_through().then_done(
                        TermOp::Scroll(
                            at_most(
                                delta_lines as int,
                                i32::MAX - scrolled_back(old_tab.emulator.been_through()),
                            ),
                        ),
                    )
                    &&& same_grid(old_tab.emulator.been_through(), tab.emulator.been_through())
                    &&& grid_size(tab.emulator.been_through()) == grid_size(
                        old_tab.emulator.been_through(),
                    )
                    &&& tab.emulator.title_set() == old_tab.emulator.title_set()
                    &&& tab.emulator.bell_rang() == old_tab.emulator.bell_rang()
                },
                _ => !scrolled && *final(self) == *old(self),
            },
    {
        if delta_lines == 0 {
            return false;
        }
        match self.active_pos(selected) {
            Some((i, j)) => {
                let ghost before = *self;
                assert(self.chats@[i as int].tabs@[j as int].emulator.wf());
                self.chats[i].tabs[j].emulator.scroll(delta_lines);
                proof {
                    one_tab_changed(before, *self, i as int, j as int);
                }
                true
            },
            None => false,
        }
    }

    // ---- tab management ----

    /// Makes a tab active, where there is one at that place.
    pub fn select_tab(&mut self, chat: &str, ix: usize) -> (changed: bool)
        requires
            old(self).wf(),
        ensures
            final(self).wf(),
            *final(self) == (TerminalPanel { chats: final(self).chats, ..*old(self) }),
            match chat_at(old(self).chats@, chat@) {
                Some(i) if ix < old(self).chats@[i].tabs@.len() => changed
                    && final(self).chats@ == old(self).chats@.update(
                    i,
                    ChatTabs { active: ix, ..old(self).chats@[i] },
                ),
                _ => !changed && *final(self) == *old(self),
            },
    {
        match self.chat_pos(chat) {
            Some(i) => {
                if ix < self.chats[i].tabs.len() {
                    let ghost before = *self;
                    self.chats[i].active = ix;
                    proof {
                        assert(forall|a: int, b: int|
                            #![trigger self.chats@[a].tabs@[b]]
                            0 <= a < before.chats@.len() && 0 <= b < before.chats@[a].tabs@.len()
                                ==> self.chats@[a].tabs@[b] == before.chats@[a].tabs@[b]);
                    }
                    true
                } else {
                    false
                }
            },
            None => false,
        }
    }

    /// Closes a tab and ends a drag. Returns the terminal to be closed, where one is known and an engine
    /// is connected.
    pub fn close_tab(&mut self, chat: &str, key: u64, engine_attached: bool) -> (close: Option<String>)
        requires
            old(self).wf(),
        ensures
            final(self).wf(),
            match tab_at(old(self).chats@, chat@, key) {
                Some((i, j)) => {
                    let before = old(self).chats@[i];
                    &&& *final(self) == (TerminalPanel {
                        chats: final(self).chats,
                        drag: None,
                        ..*old(self)
                    })
                    &&& final(self).chats@.len() == old(self).chats@.len()
                    &&& forall|k: int|
                        0 <= k < old(self).chats@.len() && k != i ==> final(self).chats@[k]
                            == old(self).chats@[k]
                    &&& final(self).chats@[i].chat_id == before.chat_id
                    &&& final(self).chats@[i].tabs@ == before.tabs@.remove(j)
                    &&& final(self).chats@[i].active == active_closed(
                        before.active as int,
                        j,
                        before.tabs@.len() - 1,
                    )
                    &&& close == (if engine_attached {
                        before.tabs@[j].terminal_id
                    } else {
                        None
                    })
                },
                None => *final(self) == *old(self) && close is None,
            },
    {
        match self.tab_pos(chat, key) {
            Some((i, j)) => {
                let ghost before = *self;
                let tab = self.chats[i].tabs.remove(j);
                let active: usize = self.chats[i].active;
                let len_after: usize = self.chats[i].tabs.len();
                self.chats[i].active = tabs::active_after_close(active, j, len_after);
                self.drag = None;
                proof {
                    assert(self.chats@[i as int].tabs@ =~= before.chats@[i as int].tabs@.remove(
                        j as int,
                    ));
                    removal_keeps_wf(before, *self, i as int, j as int);
                }
                if engine_attached {
                    tab.terminal_id
                } else {
                    None
                }
            },
            None => None,
        }
    }

    /// Finishes a drag: moves a tab and keeps the active one active.
    pub fn commit_reorder(&mut self, chat: &str, from: usize, to: usize)
        requires
            old(self).wf(),
        ensures
            final(self).wf(),
            *final(self) == (TerminalPanel { chats: final(self).chats, drag: None, ..*old(self) }),
            match chat_at(old(self).chats@, chat@) {
                Some(i) => {
                    &&& final(self).chats@.len() == old(self).chats@.len()
                    &&& forall|k: int|
                        0 <= k < old(self).chats@.len() && k != i ==> final(self).chats@[k]
                            == old(self).chats@[k]
                    &&& final(self).chats@[i].chat_id == old(self).chats@[i].chat_id
                    &&& final(self).chats@[i].tabs@ == moved(
                        old(self).chats@[i].tabs@,
                        from as int,
                        to as int,
                    )
                    &&& final(self).chats@[i].active == active_moved(
                        old(self).chats@[i].active as int,
                        from as int,
                        to as int,
                    )
                },
                None => final(self).chats == old(self).chats,
            },
    {
        match self.chat_pos(chat) {
            Some(i) => {
                let ghost before = *self;
                let active: usize = self.chats[i].active;
                tabs::reorder_tabs(&mut self.chats[i].tabs, from, to);
                self.chats[i].active = tabs::active_after_reorder(active, from, to);
                proof {
                    move_keeps_wf(before, *self, i as int, from as int, to as int);
                }
            },
            None => {},
        }
        self.drag = None;
    }

    /// Takes where a dragged tab hovers. Returns whether the tabs have to slide.
    pub fn update_drag_over(&mut self, from: usize, over: usize) -> (changed: bool)
        requires
            old(self).drag matches Some(d) ==> d.epoch < usize::MAX,
        ensures
            *final(self) == (TerminalPanel { drag: final(self).drag, ..*old(self) }),
            match old(self).drag {
                Some(d) => if d.over != over {
                    changed && final(self).drag == Some(
                        DragState {
                            from: d.from,
                            over,
                            epoch: (d.epoch + 1) as usize,
                            prev_over: d.over,
                        },
                    )
                } else {
                    !changed && final(self).drag == old(self).drag
                },
                None => changed && final(self).drag == Some(
                    DragState { from, over, epoch: 0, prev_over: from },
                ),
            },
    {
        match self.drag {
            Some(d) => {
                if d.over != over {
                    self.drag = Some(
                        DragState { from: d.from, over, epoch: d.epoch + 1, prev_over: d.over },
                    );
                    true
                } else {
                    false
                }
            },
            None => {
                self.drag = Some(DragState { from, over, epoch: 0, prev_over: from });
                true
            },
        }
    }

    /// Ends a drag that the pointer no longer holds.
    pub fn heal_drag(&mut self, pointer_drags: bool)
        ensures
            *final(self) == (TerminalPanel {
                drag: if pointer_drags {
                    old(self).drag
                } else {
                    None
                },
                ..*old(self)
            }),
    {
        if self.drag.is_some() && !pointer_drags {
            self.drag = None;
        }
    }

    /// Takes the drop of a tab on the bar of a chat: a tab of another chat only ends the drag, a tab of
    /// this chat moves to where it hovered.
    pub fn drop_tab(&mut self, bar_chat: &str, tab_chat: &str, from: usize)
        requires
            old(self).wf(),
        ensures
            final(self).wf(),
            *final(self) == (TerminalPanel { chats: final(self).chats, drag: None, ..*old(self) }),
            match chat_at(old(self).chats@, bar_chat@) {
                Some(i) if bar_chat@ == tab_chat@ => {
                    let to = match old(self).drag {
                        Some(d) => d.over,
                        None => from,
                    };
                    &&& final(self).chats@.len() == old(self).chats@.len()
                    &&& forall|k: int|
                        0 <= k < old(self).chats@.len() && k != i ==> final(self).chats@[k]
                            == old(self).chats@[k]
                    &&& final(self).chats@[i].chat_id == old(self).chats@[i].chat_id
                    &&& final(self).chats@[i].tabs@ == moved(
                        old(self).chats@[i].tabs@,
                        from as int,
                        to as int,
                    )
                    &&& final(self).chats@[i].active == active_moved(
                        old(self).chats@[i].active as int,
                        from as int,
                        to as int,
                    )
                },
                _ => final(self).chats == old(self).chats,
            },
    {
        if !text::same(bar_chat, tab_chat) {
            self.drag = None;
            return;
        }
        let to: usize = match self.drag {
            Some(d) => d.over,
            None => from,
        };
        self.commit_reorder(bar_chat, from, to);
    }

    // ---- tab bar ----

    /// The tab bar of a chat.
    pub fn tab_bar(&self, chat: &str) -> (bar: Vec<TabChip>)
        requires
            self.wf(),
        ensures
            match chat_at(self.chats@, chat@) {
                Some(i) => bar@.len() == self.chats@[i].tabs@.len() && forall|j: int|
                    0 <= j < bar@.len() ==> chip_of(
                        #[trigger] bar@[j],
                        self.chats@[i].tabs@[j],
                        j,
                        self.chats@[i].active as int,
                        self.drag,
                    ),
                None => bar@.len() == 0,
            },
    {
        let mut bar: Vec<TabChip> = Vec::new();
        match self.chat_pos(chat) {
            Some(i) => {
                let n: usize = self.chats[i].tabs.len();
                let mut j: usize = 0;
                while j < n
                    invariant
                        j <= n,
                        i < self.chats.len(),
                        n == self.chats@[i as int].tabs@.len(),
                        self.wf(),
                        bar.len() == j,
                        forall|k: int|
                            0 <= k < j ==> chip_of(
                                #[trigger] bar@[k],
                                self.chats@[i as int].tabs@[k],
                                k,
                                self.chats@[i as int].active as int,
                                self.drag,
                            ),
                    decreases n - j,
                {
                    let tab = &self.chats[i].tabs[j];
                    assert(self.chats@[i as int].tabs@[j as int].emulator.wf());
                    let title = match tab.emulator.title() {
                        Some(title) => title.to_owned(),
                        None => tab.title.clone(),
                    };
                    let motion = match self.drag {
                        Some(d) => if j != d.from {
                            TabMotion::Slides {
                                start: tabs::slide_offset(j, d.from, d.prev_over),
                                target: tabs::slide_offset(j, d.from, d.over),
                                epoch: d.epoch,
                            }
                        } else {
                            TabMotion::Dragged
                        },
                        None => TabMotion::Rests,
                    };
                    bar.push(
                        TabChip {
                            key: tab.key,
                            title,
                            selected: j == self.chats[i].active,
                            exited: tab.exited.is_some(),
                            motion,
                        },
                    );
                    j = j + 1;
                }
            },
            None => {},
        }
        bar
    }
}

} // verus!
