//! The terminal panel: what reaches a terminal, what comes back, and which tab it belongs to.

use crate::lists::search_meaning;
use crate::project::last_at_meaning;
use crate::terminal::emulator::{CellSnapshot, CursorSnapshot, Emulator};
use crate::terminal::panel::{
    active_at, chat_at, keyed, tab_at, tabs_for, DragState, FlushOutcome, GridSnapshot, InputCoalescer,
    KeyRoute, StreamDisposition, TabChip, TabMotion, TabRef, TerminalEvent, TerminalPanel,
    TerminalSession, TerminalTab, TerminalWrite,
};
use crate::terminal::session::{Opened, SessionLoop};
use crate::terminal::tabs;
use crate::text::text_opt;
use vstd::prelude::*;
use vstd::utf8::encode_utf8;

verus! {

/// The tab of a chat with a key stands at these places.
pub open spec fn stands_at(p: TerminalPanel, chat: Seq<char>, key: u64, i: int, j: int) -> bool {
    &&& 0 <= i < p.chats@.len()
    &&& p.chats@[i].chat_id@ == chat
    &&& 0 <= j < p.chats@[i].tabs@.len()
    &&& p.chats@[i].tabs@[j].key == key
}

/// No tab of the chat has the key.
pub open spec fn is_gone(p: TerminalPanel, chat: Seq<char>, key: u64) -> bool {
    forall|i: int, j: int|
        #![trigger p.chats@[i].tabs@[j]]
        0 <= i < p.chats@.len() && 0 <= j < p.chats@[i].tabs@.len() ==> p.chats@[i].chat_id@ != chat
            || p.chats@[i].tabs@[j].key != key
}

/// The active tab of a chat stands at these places.
pub open spec fn is_active(p: TerminalPanel, chat: Option<String>, i: int, j: int) -> bool {
    &&& 0 <= i < p.chats@.len()
    &&& chat matches Some(c) && p.chats@[i].chat_id@ == c@
    &&& 0 <= j < p.chats@[i].tabs@.len()
    &&& p.chats@[i].active == j
}

/// Nothing but one tab differs.
pub open spec fn only_one_differs(a: TerminalPanel, b: TerminalPanel, i: int, j: int) -> bool {
    &&& b.open == a.open && b.tab_seq == a.tab_seq && b.drag == a.drag && b.last_selected == a.last_selected
    &&& b.chats@.len() == a.chats@.len()
    &&& forall|k: int| 0 <= k < a.chats@.len() && k != i ==> #[trigger] b.chats@[k] == a.chats@[k]
    &&& b.chats@[i].chat_id == a.chats@[i].chat_id
    &&& b.chats@[i].active == a.chats@[i].active
    &&& b.chats@[i].tabs@.len() == a.chats@[i].tabs@.len()
    &&& forall|k: int|
        0 <= k < a.chats@[i].tabs@.len() && k != j ==> #[trigger] b.chats@[i].tabs@[k]
            == a.chats@[i].tabs@[k]
    &&& b.chats@[i].tabs@[j].key == a.chats@[i].tabs@[j].key
}

proof fn tab_is_found(p: TerminalPanel, chat: Seq<char>, key: u64, i: int, j: int)
    requires
        p.wf(),
        stands_at(p, chat, key, i, j),
    ensures
        tab_at(p.chats@, chat, key) == Some((i, j)),
        chat_at(p.chats@, chat) == Some(i),
{
    chat_is_found(p, chat, i);
    let q = keyed(key);
    search_meaning(p.chats@[i].tabs@, q);
    assert(q(p.chats@[i].tabs@[j]));
    let m = crate::lists::first_at(p.chats@[i].tabs@, q)->0;
    assert(q(p.chats@[i].tabs@[m]));
    if m != j {
        assert(p.chats@[i].tabs@[m].key != p.chats@[i].tabs@[j].key);
    }
}

proof fn chat_is_found(p: TerminalPanel, chat: Seq<char>, i: int)
    requires
        p.wf(),
        0 <= i < p.chats@.len(),
        p.chats@[i].chat_id@ == chat,
    ensures
        chat_at(p.chats@, chat) == Some(i),
{
    let q = tabs_for(chat);
    search_meaning(p.chats@, q);
    assert(q(p.chats@[i]));
    let m = crate::lists::first_at(p.chats@, q)->0;
    assert(q(p.chats@[m]));
    if m < i {
        assert(p.chats@[m].chat_id@ != p.chats@[i].chat_id@);
    }
    if i < m {
        assert(p.chats@[i].chat_id@ != p.chats@[m].chat_id@);
    }
}

proof fn active_is_found(p: TerminalPanel, chat: Option<String>, i: int, j: int)
    requires
        p.wf(),
        is_active(p, chat, i, j),
    ensures
        active_at(p.chats@, text_opt(chat)) == Some((i, j)),
{
    chat_is_found(p, chat->0@, i);
}

proof fn gone_is_not_found(p: TerminalPanel, chat: Seq<char>, key: u64)
    requires
        is_gone(p, chat, key),
    ensures
        tab_at(p.chats@, chat, key) is None,
{
    let q = tabs_for(chat);
    search_meaning(p.chats@, q);
    if chat_at(p.chats@, chat) is Some {
        let i = chat_at(p.chats@, chat)->0;
        assert(q(p.chats@[i]));
        let t = keyed(key);
        search_meaning(p.chats@[i].tabs@, t);
        if crate::lists::first_at(p.chats@[i].tabs@, t) is Some {
            let j = crate::lists::first_at(p.chats@[i].tabs@, t)->0;
            assert(t(p.chats@[i].tabs@[j]));
            assert(p.chats@[i].tabs@[j].key == key);
        }
    }
}

/// A data frame is answered with what the emulator answers to its bytes: the write decodes to those answers
/// and goes to the tab's own terminal. Where the emulator answers nothing, or the terminal is not open yet,
/// nothing is written.
pub proof fn a_write_carries_the_answers(
    p: &mut TerminalPanel,
    chat: &str,
    key: u64,
    seq: u64,
    data: String,
    r: (StreamDisposition, Option<TerminalWrite>),
    i: int,
    j: int,
    text: &str,
    bytes: Vec<u8>,
    e: &mut Emulator,
    fed: &[u8],
    answers: Vec<u8>,
    written: &str,
    sent: Vec<u8>,
)
    requires
        old(p).wf(),
        stands_at(*old(p), chat@, key, i, j),
        call_ensures(
            TerminalPanel::apply_stream_event,
            (p, chat, key, TerminalEvent::Data { seq, data }),
            r,
        ),
        text@ == data@,
        call_ensures(tabs::decode_base64, (text,), bytes),
        *old(e) == old(p).chats@[i].tabs@[j].emulator,
        fed@ == bytes@,
        call_ensures(Emulator::feed, (e, fed), answers),
        r.1 is Some ==> written@ == r.1->0.data@,
        call_ensures(tabs::decode_base64, (written,), sent),
    ensures
        r.1 is Some <==> answers@.len() > 0 && old(p).chats@[i].tabs@[j].terminal_id is Some,
        r.1 is Some ==> sent@ == answers@ && old(p).chats@[i].tabs@[j].terminal_id == Some(
            r.1->0.terminal_id,
        ),
        r.0 == StreamDisposition::Continue,
        only_one_differs(*old(p), *final(p), i, j),
        final(p).chats@[i].tabs@[j].last_seq == seq,
        final(p).chats@[i].tabs@[j].exited == old(p).chats@[i].tabs@[j].exited,
        final(p).chats@[i].tabs@[j].coalescer == old(p).chats@[i].tabs@[j].coalescer,
        final(p).chats@[i].tabs@[j].terminal_id == old(p).chats@[i].tabs@[j].terminal_id,
        final(p).chats@[i].tabs@[j].title == old(p).chats@[i].tabs@[j].title,
        final(p).chats@[i].tabs@[j].emulator.been_through() == final(e).been_through(),
{
    tab_is_found(*old(p), chat@, key, i, j);
}

/// Two frames that raise the same answers are answered alike, whatever bytes they carry.
pub proof fn a_write_depends_on_the_answers_only(
    p: &mut TerminalPanel,
    q: &mut TerminalPanel,
    chat: &str,
    key: u64,
    first: TerminalEvent,
    second: TerminalEvent,
    r: (StreamDisposition, Option<TerminalWrite>),
    s: (StreamDisposition, Option<TerminalWrite>),
    i: int,
    j: int,
    a: &mut Emulator,
    one: &[u8],
    answers: Vec<u8>,
    b: &mut Emulator,
    two: &[u8],
    others: Vec<u8>,
    ta: &str,
    da: Vec<u8>,
    tb: &str,
    db: Vec<u8>,
)
    requires
        old(p).wf() && *old(q) == *old(p),
        stands_at(*old(p), chat@, key, i, j),
        first is Data && second is Data,
        call_ensures(TerminalPanel::apply_stream_event, (p, chat, key, first), r),
        call_ensures(TerminalPanel::apply_stream_event, (q, chat, key, second), s),
        ta@ == first->data@ && tb@ == second->data@,
        call_ensures(tabs::decode_base64, (ta,), da),
        call_ensures(tabs::decode_base64, (tb,), db),
        one@ == da@ && two@ == db@,
        *old(a) == old(p).chats@[i].tabs@[j].emulator && *old(b) == *old(a),
        call_ensures(Emulator::feed, (a, one), answers),
        call_ensures(Emulator::feed, (b, two), others),
        answers@ == others@,
    ensures
        r.1 is Some <==> s.1 is Some,
        r.1 is Some ==> r.1->0.data@ == s.1->0.data@ && r.1->0.terminal_id == s.1->0.terminal_id,
{
    tab_is_found(*old(p), chat@, key, i, j);
}

/// The last frame of a process ends the stream and keeps the exit code; nothing is written to a process that
/// is gone.
pub proof fn the_last_frame_ends_the_stream(
    p: &mut TerminalPanel,
    chat: &str,
    key: u64,
    seq: u64,
    code: i32,
    signal: Option<String>,
    r: (StreamDisposition, Option<TerminalWrite>),
    i: int,
    j: int,
    done: bool,
    after: &TerminalPanel,
    message: Vec<u8>,
    e: &mut Emulator,
    shown: &[u8],
    answers: Vec<u8>,
)
    requires
        old(p).wf(),
        call_ensures(tabs::exit_message, (code,), message),
        *old(e) == old(p).chats@[i].tabs@[j].emulator,
        shown@ == message@,
        call_ensures(Emulator::feed, (e, shown), answers),
        stands_at(*old(p), chat@, key, i, j),
        call_ensures(
            TerminalPanel::apply_stream_event,
            (p, chat, key, TerminalEvent::Exit { seq, exit_code: code, signal }),
            r,
        ),
        *after == *final(p),
        call_ensures(TerminalPanel::tab_done, (after, chat, key), done),
    ensures
        r.0 == StreamDisposition::Stop && r.1 is None,
        only_one_differs(*old(p), *final(p), i, j),
        final(p).chats@[i].tabs@[j].exited == Some(code),
        final(p).chats@[i].tabs@[j].last_seq == seq,
        final(p).chats@[i].tabs@[j].terminal_id == old(p).chats@[i].tabs@[j].terminal_id,
        final(p).chats@[i].tabs@[j].emulator.been_through() == final(e).been_through(),
        done,
{
    tab_is_found(*old(p), chat@, key, i, j);
    tab_is_found(*after, chat@, key, i, j);
}

/// A frame for a tab that was closed stops its stream and changes nothing.
pub proof fn a_frame_for_a_closed_tab_changes_nothing(
    p: &mut TerminalPanel,
    chat: &str,
    key: u64,
    event: TerminalEvent,
    r: (StreamDisposition, Option<TerminalWrite>),
    before: &TerminalPanel,
    done: bool,
    seq: Option<u64>,
    size: (u16, u16),
)
    requires
        is_gone(*old(p), chat@, key),
        call_ensures(TerminalPanel::apply_stream_event, (p, chat, key, event), r),
        *before == *old(p),
        call_ensures(TerminalPanel::tab_done, (before, chat, key), done),
        call_ensures(TerminalPanel::tab_seq_of, (before, chat, key), seq),
        call_ensures(TerminalPanel::open_size, (before, chat, key), size),
    ensures
        *final(p) == *old(p),
        r.0 == StreamDisposition::Stop && r.1 is None,
        done,
        seq is None,
        size == (80u16, 24u16),
{
    gone_is_not_found(*old(p), chat@, key);
}

/// What is asked of a tab is answered from that tab.
pub proof fn a_tab_answers_for_itself(
    p: &TerminalPanel,
    chat: &str,
    key: u64,
    i: int,
    j: int,
    done: bool,
    seq: Option<u64>,
    e: &Emulator,
    cols: usize,
    rows: usize,
    size: (u16, u16),
    known: Option<String>,
    settled: Option<(String, usize, usize)>,
)
    requires
        p.wf(),
        stands_at(*p, chat@, key, i, j),
        call_ensures(TerminalPanel::tab_done, (p, chat, key), done),
        call_ensures(TerminalPanel::tab_seq_of, (p, chat, key), seq),
        call_ensures(TerminalPanel::open_size, (p, chat, key), size),
        *e == p.chats@[i].tabs@[j].emulator,
        call_ensures(Emulator::cols, (e,), cols),
        call_ensures(Emulator::rows, (e,), rows),
        call_ensures(TerminalPanel::settled_size, (p, chat, key, known), settled),
    ensures
        done <==> p.chats@[i].tabs@[j].exited is Some,
        seq == Some(p.chats@[i].tabs@[j].last_seq),
        size.0 == cols && size.1 == rows,
        p.chats@[i].tabs@[j].terminal_id matches Some(id) ==> settled == Some((id, cols, rows)),
        p.chats@[i].tabs@[j].terminal_id is None ==> match known {
            Some(id) => settled == Some((id, cols, rows)),
            None => settled is None,
        },
{
    tab_is_found(*p, chat@, key, i, j);
}

/// What is typed in one go and then in another is sent in one write, in that order, to the terminal of the
/// active tab; then nothing waits any more.
pub proof fn typing_is_sent_in_order(
    p: &mut TerminalPanel,
    selected: &Option<String>,
    first: &[u8],
    f: Option<TabRef>,
    q: &mut TerminalPanel,
    second: &[u8],
    g: Option<TabRef>,
    s: &mut TerminalPanel,
    chat: &str,
    key: u64,
    out: FlushOutcome,
    i: int,
    j: int,
    written: &str,
    sent: Vec<u8>,
)
    requires
        old(p).wf(),
        is_active(*old(p), *selected, i, j),
        old(p).chats@[i].tabs@[j].exited is None,
        old(p).chats@[i].tabs@[j].terminal_id is Some,
        call_ensures(TerminalPanel::queue_input, (p, selected, first), f),
        *old(q) == *final(p),
        call_ensures(TerminalPanel::queue_input, (q, selected, second), g),
        *old(s) == *final(q),
        chat@ == old(p).chats@[i].chat_id@,
        key == old(p).chats@[i].tabs@[j].key,
        call_ensures(TerminalPanel::flush_input, (s, chat, key, true), out),
        out is Write ==> written@ == out->Write_0.data@,
        call_ensures(tabs::decode_base64, (written,), sent),
    ensures
        old(p).chats@[i].tabs@[j].coalescer.buffer@.len() + first@.len() + second@.len() > 0 <==> out is Write,
        out is Write ==> {
            &&& sent@ == old(p).chats@[i].tabs@[j].coalescer.buffer@ + first@ + second@
            &&& old(p).chats@[i].tabs@[j].terminal_id == Some(out->Write_0.terminal_id)
            &&& final(s).chats@[i].tabs@[j].coalescer.buffer@.len() == 0
        },
        out is Nothing ==> *final(s) == *old(s),
        !(out is Retry),
        only_one_differs(*old(p), *final(s), i, j),
        f is Some <==> old(p).chats@[i].tabs@[j].coalescer.buffer@.len() == 0 && first@.len() > 0,
        f matches Some(t) ==> t.chat@ == chat@ && t.key == key,
        first@.len() > 0 ==> g is None,
{
    active_is_found(*old(p), *selected, i, j);
    active_is_found(*old(q), *selected, i, j);
    assert(stands_at(*old(s), chat@, key, i, j));
    tab_is_found(*old(s), chat@, key, i, j);
}

/// Typing brings the view back to the bottom.
pub proof fn typing_brings_the_view_back(
    p: &mut TerminalPanel,
    selected: &Option<String>,
    bytes: &[u8],
    flush: Option<TabRef>,
    i: int,
    j: int,
    after: &Emulator,
    offset: usize,
)
    requires
        old(p).wf(),
        is_active(*old(p), *selected, i, j),
        old(p).chats@[i].tabs@[j].exited is None,
        call_ensures(TerminalPanel::queue_input, (p, selected, bytes), flush),
        *after == final(p).chats@[i].tabs@[j].emulator,
        call_ensures(Emulator::display_offset, (after,), offset),
    ensures
        offset == 0,
{
    active_is_found(*old(p), *selected, i, j);
}

/// Typing is kept while the terminal is not open, and is not sent without an engine.
pub proof fn typing_waits_for_its_terminal(
    p: &mut TerminalPanel,
    chat: &str,
    key: u64,
    attached: bool,
    out: FlushOutcome,
    i: int,
    j: int,
)
    requires
        old(p).wf(),
        stands_at(*old(p), chat@, key, i, j),
        call_ensures(TerminalPanel::flush_input, (p, chat, key, attached), out),
    ensures
        !attached || old(p).chats@[i].tabs@[j].coalescer.buffer@.len() == 0 ==> out is Nothing && *final(p)
            == *old(p),
        old(p).chats@[i].tabs@[j].terminal_id is None ==> !(out is Write) && *final(p) == *old(p),
        attached && old(p).chats@[i].tabs@[j].coalescer.buffer@.len() > 0 && old(p).chats@[i].tabs@[j].terminal_id is None ==> (out is Retry <==> old(p).chats@[i].tabs@[j].exited is None),
{
    tab_is_found(*old(p), chat@, key, i, j);
}

/// A process that is gone takes no input, and neither does a chat without a tab.
pub proof fn nothing_is_typed_to_a_process_that_is_gone(
    p: &mut TerminalPanel,
    selected: &Option<String>,
    bytes: &[u8],
    flush: Option<TabRef>,
    i: int,
    j: int,
)
    requires
        old(p).wf(),
        call_ensures(TerminalPanel::queue_input, (p, selected, bytes), flush),
        *selected is None || (is_active(*old(p), *selected, i, j) && old(p).chats@[i].tabs@[j].exited is Some),
    ensures
        flush is None,
        *final(p) == *old(p),
{
    if *selected is Some {
        active_is_found(*old(p), *selected, i, j);
    }
}

/// The paste keys paste; every other key types its bytes, or does nothing where it has none.
pub proof fn keys_type_or_paste(
    p: &mut TerminalPanel,
    selected: &Option<String>,
    key: &str,
    cmd: bool,
    ctrl: bool,
    shift: bool,
    bytes: Option<Vec<u8>>,
    r: KeyRoute,
    i: int,
    j: int,
)
    requires
        old(p).wf(),
        is_active(*old(p), *selected, i, j),
        old(p).chats@[i].tabs@[j].exited is None,
        call_ensures(TerminalPanel::on_key_down, (p, selected, key, cmd, ctrl, shift, bytes), r),
    ensures
        r is Paste <==> key@ == "v"@ && (cmd || (ctrl && shift)),
        r is Typed <==> !(r is Paste) && bytes is Some,
        r is Paste || r is Ignored ==> *final(p) == *old(p),
        r is Typed ==> final(p).chats@[i].tabs@[j].coalescer.buffer@ == old(p).chats@[i].tabs@[j].coalescer.buffer@ + bytes->0@,
{
    active_is_found(*old(p), *selected, i, j);
}

/// A new tab is the last of its chat and the active one, with a key of its own; without an engine none opens.
pub proof fn a_new_tab_is_last_and_active(
    p: &mut TerminalPanel,
    chat: &str,
    attached: bool,
    start: Option<TabRef>,
    i: int,
)
    requires
        old(p).wf(),
        0 <= i < old(p).chats@.len(),
        old(p).chats@[i].chat_id@ == chat@,
        old(p).tab_seq < u64::MAX,
        call_ensures(TerminalPanel::open_tab, (p, chat, attached), start),
    ensures
        !attached ==> start is None && *final(p) == *old(p),
        attached ==> {
            let tabs = final(p).chats@[i].tabs@;
            &&& start matches Some(t) && t.chat@ == chat@ && t.key == tabs.last().key
            &&& tabs.len() == old(p).chats@[i].tabs@.len() + 1
            &&& tabs.drop_last() == old(p).chats@[i].tabs@
            &&& final(p).chats@[i].active == tabs.len() - 1
            &&& forall|k: int| 0 <= k < tabs.len() - 1 ==> (#[trigger] tabs[k]).key != tabs.last().key
            &&& tabs.last().terminal_id is None && tabs.last().exited is None && tabs.last().last_seq == 0
            &&& tabs.last().coalescer.buffer@.len() == 0
            &&& forall|k: int|
                0 <= k < old(p).chats@.len() && k != i ==> #[trigger] final(p).chats@[k] == old(p).chats@[k]
            &&& final(p).open == old(p).open && final(p).drag == old(p).drag
        },
{
    chat_is_found(*old(p), chat@, i);
    if attached {
        assert(final(p).chats@[i].tabs@.drop_last() =~= old(p).chats@[i].tabs@);
        assert forall|k: int| 0 <= k < final(p).chats@[i].tabs@.len() - 1 implies (
        #[trigger] final(p).chats@[i].tabs@[k]).key != final(p).chats@[i].tabs@.last().key by {
            assert(final(p).chats@[i].tabs@[k] == old(p).chats@[i].tabs@[k]);
            assert(old(p).chats@[i].tabs@[k].key <= old(p).tab_seq);
        }
    }
}

/// A new tab is numbered and begins with the default size; a chat without tabs gets its first.
pub proof fn a_new_tab_begins_afresh(
    p: &mut TerminalPanel,
    chat: &str,
    start: Option<TabRef>,
    i: int,
    number: usize,
    title: String,
    e: &Emulator,
    size: (u16, u16),
    first: String,
)
    requires
        old(p).wf(),
        old(p).tab_seq < u64::MAX,
        call_ensures(TerminalPanel::open_tab, (p, chat, true), start),
        0 <= i < old(p).chats@.len() ==> number == old(p).chats@[i].tabs@.len() + 1,
        call_ensures(tabs::new_tab_title, (number,), title),
        call_ensures(tabs::new_tab_title, (1usize,), first),
        *e == final(p).chats@[i].tabs@.last().emulator,
        call_ensures(Emulator::size, (e,), size),
    ensures
        0 <= i < old(p).chats@.len() && old(p).chats@[i].chat_id@ == chat@ ==> final(p).chats@[i].tabs@.last().title@ == title@ && size == (80u16, 24u16),
        (forall|k: int| 0 <= k < old(p).chats@.len() ==> (#[trigger] old(p).chats@[k]).chat_id@ != chat@) ==> {
            &&& final(p).chats@.len() == old(p).chats@.len() + 1
            &&& final(p).chats@.drop_last() == old(p).chats@
            &&& final(p).chats@.last().chat_id@ == chat@ && final(p).chats@.last().active == 0
            &&& final(p).chats@.last().tabs@.len() == 1
            &&& final(p).chats@.last().tabs@[0].title@ == first@
            &&& start matches Some(t) && t.chat@ == chat@ && t.key == final(p).chats@.last().tabs@[0].key
        },
{
    let q = tabs_for(chat@);
    search_meaning(old(p).chats@, q);
    if 0 <= i < old(p).chats@.len() && old(p).chats@[i].chat_id@ == chat@ {
        chat_is_found(*old(p), chat@, i);
    }
    if forall|k: int| 0 <= k < old(p).chats@.len() ==> (#[trigger] old(p).chats@[k]).chat_id@ != chat@ {
        if chat_at(old(p).chats@, chat@) is Some {
            assert(q(old(p).chats@[chat_at(old(p).chats@, chat@)->0]));
        }
        assert(final(p).chats@.drop_last() =~= old(p).chats@);
    }
}

/// The panel and a session loop begin empty.
pub proof fn panels_and_loops_begin_empty(p: TerminalPanel, chat: &str, key: u64, s: SessionLoop, c: InputCoalescer)
    requires
        call_ensures(TerminalPanel::new, (), p),
        call_ensures(SessionLoop::new, (chat, key), s),
        call_ensures(InputCoalescer::new, (), c),
    ensures
        p.chats@.len() == 0 && !p.open && p.drag is None && p.last_selected is None,
        s.chat@ == chat@ && s.key == key && s.attempt == 0 && s.terminal_id is None,
        c.buffer@.len() == 0,
{
}

/// A chat that has a tab gets no second one of itself; one without gets its first while the panel is open.
pub proof fn a_chat_gets_its_first_tab(
    p: &mut TerminalPanel,
    selected: &Option<String>,
    attached: bool,
    start: Option<TabRef>,
    q: &mut TerminalPanel,
    open: bool,
    started: Option<TabRef>,
    i: int,
)
    requires
        old(p).wf(),
        old(q).wf(),
        old(p).chats@ == old(q).chats@,
        call_ensures(TerminalPanel::ensure_tab, (p, selected, attached), start),
        call_ensures(TerminalPanel::set_open, (q, open, selected, attached), started),
    ensures
        *selected is None ==> start is None && started is None,
        !attached ==> start is None && started is None,
        !open ==> started is None,
        final(q).open == open,
        (*selected matches Some(c) && 0 <= i < old(p).chats@.len() && old(p).chats@[i].chat_id@ == c@ && old(p).chats@[i].tabs@.len() > 0) ==> start is None && started is None,
        (*selected matches Some(c) && attached && forall|k: int|
            0 <= k < old(p).chats@.len() ==> (#[trigger] old(p).chats@[k]).chat_id@ != c@) ==> start is Some
            && (open ==> started is Some),
        start matches Some(t) ==> (*selected matches Some(c) && t.chat@ == c@) && t.key == old(p).tab_seq + 1
            && final(p).tab_seq == t.key,
        started matches Some(t) ==> (*selected matches Some(c) && t.chat@ == c@) && t.key == old(q).tab_seq + 1
            && final(q).tab_seq == t.key,
        start is None ==> *final(p) == *old(p),
        started is None ==> final(q).chats == old(q).chats,
{
    if *selected is Some {
        let c = selected->0;
        let q2 = tabs_for(c@);
        search_meaning(old(p).chats@, q2);
        if 0 <= i < old(p).chats@.len() && old(p).chats@[i].chat_id@ == c@ {
            chat_is_found(*old(p), c@, i);
        }
        if chat_at(old(p).chats@, c@) is Some {
            assert(q2(old(p).chats@[chat_at(old(p).chats@, c@)->0]));
        }
    }
}

/// Another selected chat is noticed once, and ends a drag.
pub proof fn another_chat_is_noticed_once(
    p: &mut TerminalPanel,
    selected: &Option<String>,
    attached: bool,
    r: (bool, Option<TabRef>),
    q: &mut TerminalPanel,
    s: (bool, Option<TabRef>),
)
    requires
        old(p).wf(),
        call_ensures(TerminalPanel::on_state_changed, (p, selected, attached), r),
        *old(q) == *final(p),
        call_ensures(TerminalPanel::on_state_changed, (q, selected, attached), s),
    ensures
        match (old(p).last_selected, *selected) {
            (Some(a), Some(b)) => r.0 <==> a@ != b@,
            (None, None) => !r.0,
            _ => r.0,
        },
        !s.0,
        r.0 ==> final(p).drag is None && final(p).last_selected == *selected,
        !r.0 ==> final(p).drag == old(p).drag && final(p).last_selected == old(p).last_selected,
        !old(p).open || !attached || *selected is None ==> r.1 is None,
        r.1 is None ==> final(p).chats == old(p).chats,
        r.1 matches Some(t) ==> (*selected matches Some(c) && t.chat@ == c@) && t.key == old(p).tab_seq + 1,
        final(p).open == old(p).open,
{
}

/// A session that opened belongs to its tab, which takes the shell's title.
pub proof fn a_session_belongs_to_its_tab(
    p: &mut TerminalPanel,
    chat: &str,
    key: u64,
    session: &TerminalSession,
    attached: bool,
    i: int,
    j: int,
    shell: &str,
    title: String,
)
    requires
        old(p).wf(),
        call_ensures(TerminalPanel::attach_session, (p, chat, key, session), attached),
        shell@ == session.shell@,
        call_ensures(tabs::shell_title, (shell,), title),
    ensures
        is_gone(*old(p), chat@, key) ==> !attached && *final(p) == *old(p),
        stands_at(*old(p), chat@, key, i, j) ==> {
            &&& attached
            &&& only_one_differs(*old(p), *final(p), i, j)
            &&& final(p).chats@[i].tabs@[j].terminal_id == Some(session.id)
            &&& final(p).chats@[i].tabs@[j].title@ == title@
            &&& final(p).chats@[i].tabs@[j].exited == old(p).chats@[i].tabs@[j].exited
            &&& final(p).chats@[i].tabs@[j].last_seq == old(p).chats@[i].tabs@[j].last_seq
            &&& final(p).chats@[i].tabs@[j].coalescer == old(p).chats@[i].tabs@[j].coalescer
            &&& final(p).chats@[i].tabs@[j].emulator == old(p).chats@[i].tabs@[j].emulator
        },
{
    if is_gone(*old(p), chat@, key) {
        gone_is_not_found(*old(p), chat@, key);
    }
    if stands_at(*old(p), chat@, key, i, j) {
        tab_is_found(*old(p), chat@, key, i, j);
    }
}

/// A terminal that did not open counts as gone.
pub proof fn a_terminal_that_did_not_open_is_gone(
    p: &mut TerminalPanel,
    chat: &str,
    key: u64,
    error: &str,
    i: int,
    j: int,
    message: Vec<u8>,
    e: &mut Emulator,
    shown: &[u8],
    answers: Vec<u8>,
)
    requires
        old(p).wf(),
        call_ensures(TerminalPanel::open_failed, (p, chat, key, error), ()),
        stands_at(*old(p), chat@, key, i, j),
        call_ensures(tabs::open_failed_message, (error,), message),
        *old(e) == old(p).chats@[i].tabs@[j].emulator,
        shown@ == message@,
        call_ensures(Emulator::feed, (e, shown), answers),
    ensures
        only_one_differs(*old(p), *final(p), i, j),
        final(p).chats@[i].tabs@[j].exited == Some(-1i32),
        final(p).chats@[i].tabs@[j].terminal_id == old(p).chats@[i].tabs@[j].terminal_id,
        final(p).chats@[i].tabs@[j].emulator.been_through() == final(e).been_through(),
{
    tab_is_found(*old(p), chat@, key, i, j);
}

/// Pastes and cursor keys go by the modes of the active tab's terminal.
pub proof fn the_active_terminal_sets_the_modes(
    p: &TerminalPanel,
    selected: &Option<String>,
    i: int,
    j: int,
    e: &Emulator,
    brackets: bool,
    paste: bool,
    app: bool,
    keys: bool,
    tab: Option<&TerminalTab>,
)
    requires
        p.wf(),
        call_ensures(TerminalPanel::paste_is_bracketed, (p, selected), paste),
        call_ensures(TerminalPanel::cursor_keys_are_application, (p, selected), keys),
        call_ensures(TerminalPanel::active_tab, (p, selected), tab),
        is_active(*p, *selected, i, j) ==> *e == p.chats@[i].tabs@[j].emulator,
        call_ensures(Emulator::bracketed_paste_mode, (e,), brackets),
        call_ensures(Emulator::app_cursor_mode, (e,), app),
    ensures
        is_active(*p, *selected, i, j) ==> paste == brackets && keys == app && (tab matches Some(t) && *t
            == p.chats@[i].tabs@[j]),
        *selected is None ==> !paste && !keys && tab is None,
{
    if is_active(*p, *selected, i, j) {
        active_is_found(*p, *selected, i, j);
    }
}

/// A terminal takes the size of its grid, never less than two columns and a row, and the engine is told of a
/// new size only.
pub proof fn a_terminal_takes_the_size_of_its_grid(
    p: &mut TerminalPanel,
    selected: &Option<String>,
    cols: u16,
    rows: u16,
    attached: bool,
    tell: Option<TabRef>,
    i: int,
    j: int,
    before: &Emulator,
    was: (u16, u16),
    after: &Emulator,
    now: (u16, u16),
)
    requires
        old(p).wf(),
        is_active(*old(p), *selected, i, j),
        call_ensures(TerminalPanel::on_grid_metrics, (p, selected, cols, rows, attached), tell),
        *before == old(p).chats@[i].tabs@[j].emulator,
        call_ensures(Emulator::size, (before,), was),
        *after == final(p).chats@[i].tabs@[j].emulator,
        call_ensures(Emulator::size, (after,), now),
    ensures
        was == (cols, rows) ==> tell is None && *final(p) == *old(p),
        was != (cols, rows) ==> {
            &&& tell is Some <==> attached
            &&& tell matches Some(t) ==> t.key == old(p).chats@[i].tabs@[j].key && t.chat@ == old(p).chats@[i].chat_id@
            &&& cols >= 2 ==> now.0 == cols
            &&& cols < 2 ==> now.0 == 2
            &&& rows >= 1 ==> now.1 == rows
            &&& rows == 0 ==> now.1 == 1
            &&& only_one_differs(*old(p), *final(p), i, j)
            &&& final(p).chats@[i].tabs@[j].coalescer == old(p).chats@[i].tabs@[j].coalescer
        },
{
    active_is_found(*old(p), *selected, i, j);
    if was != (cols, rows) {
        let c: nat = if cols >= 2 { cols as nat } else { 2 };
        let r: nat = if rows >= 1 { rows as nat } else { 1 };
        crate::terminal::emulator::resized_to(old(p).chats@[i].tabs@[j].emulator.been_through(), c, r);
    }
}

/// The shown grid is that of the active tab's terminal.
pub proof fn the_active_grid_is_shown(
    p: &TerminalPanel,
    selected: &Option<String>,
    r: Option<GridSnapshot>,
    i: int,
    j: int,
    e: &Emulator,
    rows: Option<Vec<Vec<CellSnapshot>>>,
    cursor: Option<CursorSnapshot>,
)
    requires
        p.wf(),
        call_ensures(TerminalPanel::active_grid_snapshot, (p, selected), r),
        is_active(*p, *selected, i, j) ==> *e == p.chats@[i].tabs@[j].emulator,
        call_ensures(Emulator::try_lines, (e,), rows),
        call_ensures(Emulator::cursor, (e,), cursor),
    ensures
        *selected is None ==> r is None,
        is_active(*p, *selected, i, j) ==> match (r, rows) {
            (Some(g), Some(lines)) => g.cursor == cursor && g.lines@.len() == lines@.len() && forall|k: int|
                0 <= k < lines@.len() ==> (#[trigger] g.lines@[k])@ == lines@[k]@,
            (None, None) => true,
            _ => false,
        },
{
    if is_active(*p, *selected, i, j) {
        active_is_found(*p, *selected, i, j);
        if r is Some && rows is Some {
            assert forall|k: int| 0 <= k < rows->0@.len() implies (#[trigger] r->0.lines@[k])@
                == rows->0@[k]@ by {
                let a = rows->0@[k];
            }
        }
    }
}

/// Scrolling moves the view of the active tab within what its terminal kept, and nothing else.
pub proof fn scrolling_moves_the_view_only(
    p: &mut TerminalPanel,
    selected: &Option<String>,
    delta: i32,
    scrolled: bool,
    i: int,
    j: int,
    before: &Emulator,
    was: usize,
    kept: usize,
    after: &Emulator,
    now: usize,
)
    requires
        old(p).wf(),
        is_active(*old(p), *selected, i, j),
        call_ensures(TerminalPanel::scroll_active, (p, selected, delta), scrolled),
        *before == old(p).chats@[i].tabs@[j].emulator,
        call_ensures(Emulator::display_offset, (before,), was),
        call_ensures(Emulator::history_lines, (before,), kept),
        *after == final(p).chats@[i].tabs@[j].emulator,
        call_ensures(Emulator::display_offset, (after,), now),
    ensures
        scrolled <==> delta != 0,
        delta == 0 ==> *final(p) == *old(p),
        delta != 0 ==> {
            &&& was + delta < 0 ==> now == 0
            &&& 0 <= was + delta <= kept ==> now == was + delta
            &&& was + delta > kept && was + delta >= 0 ==> now == kept
            &&& only_one_differs(*old(p), *final(p), i, j)
            &&& final(p).chats@[i].tabs@[j].coalescer == old(p).chats@[i].tabs@[j].coalescer
            &&& final(p).chats@[i].tabs@[j].last_seq == old(p).chats@[i].tabs@[j].last_seq
        },
{
    active_is_found(*old(p), *selected, i, j);
}

/// A selected tab is the active one; a place past the tabs selects nothing.
pub proof fn a_selected_tab_is_active(p: &mut TerminalPanel, chat: &str, ix: usize, changed: bool, i: int)
    requires
        old(p).wf(),
        0 <= i < old(p).chats@.len(),
        old(p).chats@[i].chat_id@ == chat@,
        call_ensures(TerminalPanel::select_tab, (p, chat, ix), changed),
    ensures
        changed <==> ix < old(p).chats@[i].tabs@.len(),
        !changed ==> *final(p) == *old(p),
        changed ==> final(p).chats@[i].active == ix && final(p).chats@[i].tabs == old(p).chats@[i].tabs,
        forall|k: int|
            0 <= k < old(p).chats@.len() && k != i ==> #[trigger] final(p).chats@[k] == old(p).chats@[k],
{
    chat_is_found(*old(p), chat@, i);
}

/// Closing takes its own tab away, closes that tab's terminal, and the active tab stays active.
pub proof fn closing_takes_its_own_tab_away(
    p: &mut TerminalPanel,
    chat: &str,
    key: u64,
    attached: bool,
    close: Option<String>,
    i: int,
    j: int,
)
    requires
        old(p).wf(),
        stands_at(*old(p), chat@, key, i, j),
        call_ensures(TerminalPanel::close_tab, (p, chat, key, attached), close),
    ensures
        close == (if attached {
            old(p).chats@[i].tabs@[j].terminal_id
        } else {
            None::<String>
        }),
        is_gone(*final(p), chat@, key),
        final(p).chats@[i].tabs@ == old(p).chats@[i].tabs@.remove(j),
        old(p).chats@[i].active < old(p).chats@[i].tabs@.len() && old(p).chats@[i].active != j ==> final(p).chats@[i].active < final(p).chats@[i].tabs@.len() && final(p).chats@[i].tabs@[final(p).chats@[i].active as int] == old(p).chats@[i].tabs@[old(p).chats@[i].active as int],
        old(p).chats@[i].active == j && j + 1 < old(p).chats@[i].tabs@.len() ==> final(p).chats@[i].active
            == j,
        old(p).chats@[i].active == j && j + 1 == old(p).chats@[i].tabs@.len() && j > 0 ==> final(p).chats@[i].active == j - 1,
        old(p).chats@[i].tabs@.len() == 1 ==> final(p).chats@[i].active == 0,
        forall|k: int|
            0 <= k < old(p).chats@.len() && k != i ==> #[trigger] final(p).chats@[k] == old(p).chats@[k],
        final(p).drag is None && final(p).open == old(p).open,
{
    tab_is_found(*old(p), chat@, key, i, j);
    let a = old(p).chats@[i].active as int;
    if a < old(p).chats@[i].tabs@.len() {
        tabs::close_keeps_active_tab(old(p).chats@[i].tabs@, a, j);
    }
    assert forall|k: int, l: int|
        #![trigger final(p).chats@[k].tabs@[l]]
        0 <= k < final(p).chats@.len() && 0 <= l < final(p).chats@[k].tabs@.len() implies final(p).chats@[k].chat_id@ != chat@ || final(p).chats@[k].tabs@[l].key != key by {
        if k != i {
            assert(final(p).chats@[k] == old(p).chats@[k]);
            assert(old(p).chats@[k].tabs@[l].key != old(p).chats@[i].tabs@[j].key);
        } else {
            let m = if l < j { l } else { l + 1 };
            assert(final(p).chats@[i].tabs@[l] == old(p).chats@[i].tabs@[m]);
            assert(old(p).chats@[i].tabs@[m].key != old(p).chats@[i].tabs@[j].key);
        }
    }
}

/// A dragged tab lands where it was dropped, no tab is lost, and the active tab stays active.
pub proof fn a_dragged_tab_lands_where_it_was_dropped(
    p: &mut TerminalPanel,
    chat: &str,
    from: usize,
    to: usize,
    i: int,
)
    requires
        old(p).wf(),
        0 <= i < old(p).chats@.len(),
        old(p).chats@[i].chat_id@ == chat@,
        from < old(p).chats@[i].tabs@.len(),
        to < old(p).chats@[i].tabs@.len(),
        old(p).chats@[i].active < old(p).chats@[i].tabs@.len(),
        call_ensures(TerminalPanel::commit_reorder, (p, chat, from, to), ()),
    ensures
        final(p).drag is None,
        final(p).chats@[i].chat_id == old(p).chats@[i].chat_id && final(p).chats@.len() == old(p).chats@.len(),
        final(p).chats@[i].tabs@.len() == old(p).chats@[i].tabs@.len(),
        final(p).chats@[i].tabs@[to as int] == old(p).chats@[i].tabs@[from as int],
        final(p).chats@[i].tabs@.to_multiset() == old(p).chats@[i].tabs@.to_multiset(),
        final(p).chats@[i].active < final(p).chats@[i].tabs@.len(),
        final(p).chats@[i].tabs@[final(p).chats@[i].active as int] == old(p).chats@[i].tabs@[old(p).chats@[i].active as int],
        forall|k: int|
            0 <= k < old(p).chats@.len() && k != i ==> #[trigger] final(p).chats@[k] == old(p).chats@[k],
{
    chat_is_found(*old(p), chat@, i);
    tabs::reordering_keeps_tabs(old(p).chats@[i].tabs@, from as int, to as int);
    tabs::reorder_keeps_active_tab(
        old(p).chats@[i].tabs@,
        old(p).chats@[i].active as int,
        from as int,
        to as int,
    );
}

/// A drop on the own bar moves the tab to where it hovered; a drop from another chat moves nothing. Either
/// way the drag is over.
pub proof fn a_drop_ends_the_drag(
    p: &mut TerminalPanel,
    bar: &str,
    tab: &str,
    from: usize,
    i: int,
    d: DragState,
)
    requires
        old(p).wf(),
        0 <= i < old(p).chats@.len(),
        old(p).chats@[i].chat_id@ == bar@,
        old(p).drag == Some(d),
        from < old(p).chats@[i].tabs@.len(),
        d.over < old(p).chats@[i].tabs@.len(),
        call_ensures(TerminalPanel::drop_tab, (p, bar, tab, from), ()),
    ensures
        final(p).drag is None,
        bar@ != tab@ ==> final(p).chats == old(p).chats,
        bar@ == tab@ ==> final(p).chats@[i].tabs@[d.over as int] == old(p).chats@[i].tabs@[from as int]
            && final(p).chats@[i].tabs@.to_multiset() == old(p).chats@[i].tabs@.to_multiset(),
{
    chat_is_found(*old(p), bar@, i);
    tabs::reordering_keeps_tabs(old(p).chats@[i].tabs@, from as int, d.over as int);
}

/// A drag remembers where it began, where it hovers and where it hovered before; it ends with the pointer.
pub proof fn a_drag_remembers_where_it_was(
    p: &mut TerminalPanel,
    from: usize,
    over: usize,
    changed: bool,
    q: &mut TerminalPanel,
    drags: bool,
)
    requires
        call_ensures(TerminalPanel::update_drag_over, (p, from, over), changed),
        call_ensures(TerminalPanel::heal_drag, (q, drags), ()),
    ensures
        old(p).drag is None ==> changed && (final(p).drag matches Some(d) && d.from == from && d.over == over
            && d.prev_over == from && d.epoch == 0),
        old(p).drag matches Some(d) ==> (d.over == over ==> !changed && final(p).drag == old(p).drag),
        old(p).drag matches Some(d) ==> (d.over != over && d.epoch < usize::MAX ==> changed && (final(p).drag matches Some(e) && e.from == d.from && e.over == over && e.prev_over == d.over && e.epoch
            == d.epoch + 1)),
        final(p).chats == old(p).chats && final(p).open == old(p).open,
        drags ==> *final(q) == *old(q),
        !drags ==> final(q).drag is None && final(q).chats == old(q).chats && final(q).open == old(q).open,
{
}

/// The bar shows every tab with its own title, the active one selected, and the others making room for a
/// dragged one.
pub proof fn the_bar_shows_every_tab(
    p: &TerminalPanel,
    chat: &str,
    bar: Vec<TabChip>,
    i: int,
    j: int,
    e: &Emulator,
    title: Option<&str>,
)
    requires
        p.wf(),
        0 <= i < p.chats@.len(),
        p.chats@[i].chat_id@ == chat@,
        call_ensures(TerminalPanel::tab_bar, (p, chat), bar),
        0 <= j < p.chats@[i].tabs@.len(),
        *e == p.chats@[i].tabs@[j].emulator,
        call_ensures(Emulator::title, (e,), title),
    ensures
        bar@.len() == p.chats@[i].tabs@.len(),
        bar@[j].key == p.chats@[i].tabs@[j].key,
        bar@[j].selected <==> j == p.chats@[i].active,
        bar@[j].exited <==> p.chats@[i].tabs@[j].exited is Some,
        title matches Some(t) ==> bar@[j].title@ == t@,
        title is None ==> bar@[j].title@ == p.chats@[i].tabs@[j].title@,
        p.drag is None ==> bar@[j].motion == TabMotion::Rests,
        p.drag matches Some(d) ==> (d.from == j ==> bar@[j].motion == TabMotion::Dragged),
        p.drag matches Some(d) ==> (d.from < j && j <= d.over ==> (bar@[j].motion matches TabMotion::Slides {
            target,
            ..
        } && target == -1)),
        p.drag matches Some(d) ==> (d.over <= j && j < d.from ==> (bar@[j].motion matches TabMotion::Slides {
            target,
            ..
        } && target == 1)),
        p.drag matches Some(d) ==> ((j > d.over && j > d.from) || (j < d.over && j < d.from) ==> (
        bar@[j].motion matches TabMotion::Slides { target, .. } && target == 0)),
        p.drag matches Some(d) ==> (bar@[j].motion matches TabMotion::Slides { epoch, .. } ==> epoch
            == d.epoch),
        p.drag matches Some(d) ==> (d.prev_over == d.over ==> (bar@[j].motion matches TabMotion::Slides {
            start,
            target,
            ..
        } ==> start == target)),
{
    chat_is_found(*p, chat@, i);
    let chip = bar@[j];
}

/// Input gathers in order and is taken once.
pub proof fn input_gathers_and_is_taken_once(
    c: &mut InputCoalescer,
    bytes: &[u8],
    starts: bool,
    d: &mut InputCoalescer,
    taken: Vec<u8>,
    rest: &InputCoalescer,
    empty: bool,
)
    requires
        call_ensures(InputCoalescer::push, (c, bytes), starts),
        *old(d) == *final(c),
        call_ensures(InputCoalescer::take, (d,), taken),
        *rest == *final(d),
        call_ensures(InputCoalescer::is_empty, (rest,), empty),
    ensures
        taken@ == old(c).buffer@ + bytes@,
        empty,
        starts <==> old(c).buffer@.len() == 0 && bytes@.len() > 0,
{
}

/// A stream that breaks is tried again after a pause that doubles up to eight seconds.
pub proof fn pauses_double(attempt: u32, next: u32, a: u64, b: u64)
    requires
        next == attempt + 1,
        call_ensures(tabs::backoff_ms, (attempt,), a),
        call_ensures(tabs::backoff_ms, (next,), b),
    ensures
        attempt == 0 ==> a == 500,
        2 * a <= 8000 ==> b == 2 * a,
        2 * a > 8000 ==> b == 8000,
        500 <= a <= 8000,
{
    tabs::backoff_is_bounded(attempt as nat);
}

/// A moved value lies where it was put, and the others keep their order.
pub proof fn a_moved_tab_lies_where_it_was_put(v: &mut Vec<u64>, from: usize, to: usize, k: int)
    requires
        call_ensures(tabs::reorder_tabs::<u64>, (v, from, to), ()),
    ensures
        from >= old(v)@.len() || to >= old(v)@.len() ==> final(v)@ == old(v)@,
        from < old(v)@.len() && to < old(v)@.len() ==> {
            &&& final(v)@.len() == old(v)@.len()
            &&& final(v)@[to as int] == old(v)@[from as int]
            &&& from < k <= to ==> final(v)@[k - 1] == old(v)@[k]
            &&& to <= k < from ==> final(v)@[k + 1] == old(v)@[k]
            &&& 0 <= k < old(v)@.len() && ((k < from && k < to) || (k > from && k > to)) ==> final(v)@[k]
                == old(v)@[k]
        },
{
}

/// The active tab stays active when tabs move or close.
pub proof fn the_active_tab_stays_active(
    v: &mut Vec<u64>,
    from: usize,
    to: usize,
    active: usize,
    r: usize,
    closed: usize,
    left: usize,
    s: usize,
)
    requires
        call_ensures(tabs::reorder_tabs::<u64>, (v, from, to), ()),
        from < old(v)@.len() && to < old(v)@.len() && active < old(v)@.len(),
        call_ensures(tabs::active_after_reorder, (active, from, to), r),
        left == old(v)@.len() - 1,
        closed < old(v)@.len(),
        call_ensures(tabs::active_after_close, (active, closed, left), s),
    ensures
        r < old(v)@.len() && final(v)@[r as int] == old(v)@[active as int],
        closed != active ==> s < left && old(v)@.remove(closed as int)[s as int] == old(v)@[active as int],
        closed == active && closed < left ==> s == closed,
        closed == active && closed == left && left > 0 ==> s == left - 1,
        left == 0 ==> s == 0,
{
    tabs::reorder_keeps_active_tab(old(v)@, active as int, from as int, to as int);
    tabs::close_keeps_active_tab(old(v)@, active as int, closed as int);
}

/// Tabs slide by one to make room between where a tab comes from and where it hovers.
pub proof fn tabs_make_room(ix: usize, from: usize, over: usize, r: i32)
    requires
        call_ensures(tabs::slide_offset, (ix, from, over), r),
    ensures
        r == -1 <==> from < ix && ix <= over,
        r == 1 <==> over <= ix && ix < from,
        r == -1 || r == 0 || r == 1,
{
}

/// What a terminal shows at its end names the code, and what it shows after a failure names the error.
pub proof fn messages_name_what_happened(code: i32, bytes: Vec<u8>, error: &str, failed: Vec<u8>)
    requires
        call_ensures(tabs::exit_message, (code,), bytes),
        call_ensures(tabs::open_failed_message, (error,), failed),
    ensures
        code >= 0 ==> bytes@ == encode_utf8(
            "\r\n\x1b[90m[process exited "@ + crate::text::decimal_text(code as nat) + "]\x1b[0m\r\n"@,
        ),
        code < 0 ==> bytes@ == encode_utf8(
            "\r\n\x1b[90m[process exited "@ + ("-"@ + crate::text::decimal_text((-code) as nat))
                + "]\x1b[0m\r\n"@,
        ),
        failed@ == encode_utf8("\x1b[31mfailed to open terminal: "@ + error@ + "\x1b[0m\r\n"@),
{
}

/// Encoded bytes decode to themselves; text in neither alphabet decodes to nothing.
pub proof fn encoded_bytes_decode_to_themselves(
    bytes: &[u8],
    data: String,
    text: &str,
    back: Vec<u8>,
    padded: Option<Vec<u8>>,
    plain: Option<Vec<u8>>,
    picked: Vec<u8>,
)
    requires
        call_ensures(tabs::encode_base64, (bytes,), data),
        text@ == data@,
        call_ensures(tabs::decode_base64, (text,), back),
        call_ensures(tabs::pick_decoded, (padded, plain), picked),
    ensures
        back@ == bytes@,
        padded matches Some(b) ==> picked@ == b@,
        padded is None ==> (plain matches Some(b) ==> picked@ == b@),
        padded is None && plain is None ==> picked@.len() == 0,
{
}

/// A new tab is numbered.
pub proof fn new_tabs_are_numbered(n: usize, title: String)
    requires
        call_ensures(tabs::new_tab_title, (n,), title),
    ensures
        title@ == "Terminal "@ + crate::text::decimal_text(n as nat),
{
}

/// A shell is titled by the name at the end of its path.
pub proof fn a_shell_is_titled_by_its_name(
    dir: Seq<char>,
    name: Seq<char>,
    shell: &str,
    title: String,
    plain: &str,
    own: String,
)
    requires
        shell@ == dir.push('/') + name,
        !name.contains('/') && !name.contains('\\'),
        call_ensures(tabs::shell_title, (shell,), title),
        plain@ == name,
        call_ensures(tabs::shell_title, (plain,), own),
    ensures
        title@ == own@,
{
    name_is_after_the_separators(shell@, dir, name);
    name_has_no_separators(name);
}

proof fn name_is_after_the_separators(s: Seq<char>, dir: Seq<char>, name: Seq<char>)
    requires
        s == dir.push('/') + name,
        !name.contains('/') && !name.contains('\\'),
    ensures
        tabs::after_separators(s) == name,
{
    let at = dir.len() as int;
    last_at_meaning(s, '/');
    last_at_meaning(s, '\\');
    assert(s[at] == '/');
    assert forall|k: int| at < k < s.len() implies #[trigger] s[k] != '/' && s[k] != '\\' by {
        assert(s[k] == name[k - at - 1]);
        assert(name.contains(name[k - at - 1]));
    }
    assert(s.skip(at + 1) =~= name);
}

proof fn name_has_no_separators(name: Seq<char>)
    requires
        !name.contains('/') && !name.contains('\\'),
    ensures
        tabs::after_separators(name) == name,
{
    last_at_meaning(name, '/');
    last_at_meaning(name, '\\');
    assert(name.skip(0) =~= name);
}

// ---------------------------------------------------------------------------
// Session loop
// ---------------------------------------------------------------------------

/// A session streams while its tab is there, and is released where the tab was closed meanwhile.
pub proof fn a_session_streams_while_its_tab_is_there(
    s: &mut SessionLoop,
    p: &mut TerminalPanel,
    session: &TerminalSession,
    next: Opened,
    i: int,
    j: int,
)
    requires
        old(p).wf(),
        call_ensures(SessionLoop::opened, (s, p, session), next),
    ensures
        is_gone(*old(p), old(s).chat@, old(s).key) ==> next == Opened::Release && *final(p) == *old(p)
            && *final(s) == *old(s),
        stands_at(*old(p), old(s).chat@, old(s).key, i, j) ==> next == Opened::Stream && final(s).terminal_id
            == Some(session.id) && final(p).chats@[i].tabs@[j].terminal_id == Some(session.id)
            && only_one_differs(*old(p), *final(p), i, j),
        final(s).attempt == old(s).attempt && final(s).key == old(s).key && final(s).chat == old(s).chat,
{
    if is_gone(*old(p), old(s).chat@, old(s).key) {
        gone_is_not_found(*old(p), old(s).chat@, old(s).key);
    }
    if stands_at(*old(p), old(s).chat@, old(s).key, i, j) {
        tab_is_found(*old(p), old(s).chat@, old(s).key, i, j);
    }
}

/// A stream resumes after the last frame that arrived.
pub proof fn a_stream_resumes_after_the_last_frame(
    s: &SessionLoop,
    p: &TerminalPanel,
    r: Option<(String, u64)>,
    i: int,
    j: int,
)
    requires
        p.wf(),
        call_ensures(SessionLoop::subscription, (s, p), r),
    ensures
        s.terminal_id is None || is_gone(*p, s.chat@, s.key) ==> r is None,
        stands_at(*p, s.chat@, s.key, i, j) && s.terminal_id is Some ==> r == Some(
            (s.terminal_id->0, p.chats@[i].tabs@[j].last_seq),
        ),
{
    if is_gone(*p, s.chat@, s.key) {
        gone_is_not_found(*p, s.chat@, s.key);
    }
    if stands_at(*p, s.chat@, s.key, i, j) {
        tab_is_found(*p, s.chat@, s.key, i, j);
    }
}

/// A frame resets the pause, and is taken as the panel takes it.
pub proof fn a_frame_resets_the_pause(
    s: &mut SessionLoop,
    p: &mut TerminalPanel,
    event: TerminalEvent,
    r: (StreamDisposition, Option<TerminalWrite>),
    after: &mut SessionLoop,
    wait: u64,
    i: int,
    j: int,
)
    requires
        old(p).wf(),
        call_ensures(SessionLoop::frame, (s, p, event), r),
        *old(after) == *final(s),
        call_ensures(SessionLoop::subscribe_failed, (after,), wait),
    ensures
        wait == 500,
        final(s).terminal_id == old(s).terminal_id && final(s).key == old(s).key,
        stands_at(*old(p), old(s).chat@, old(s).key, i, j) ==> {
            &&& r.0 == StreamDisposition::Stop <==> event is Exit
            &&& event is Exit ==> r.1 is None
            &&& only_one_differs(*old(p), *final(p), i, j)
        },
        is_gone(*old(p), old(s).chat@, old(s).key) ==> r.0 == StreamDisposition::Stop && *final(p) == *old(p),
{
    if is_gone(*old(p), old(s).chat@, old(s).key) {
        gone_is_not_found(*old(p), old(s).chat@, old(s).key);
    }
    if stands_at(*old(p), old(s).chat@, old(s).key, i, j) {
        tab_is_found(*old(p), old(s).chat@, old(s).key, i, j);
    }
}

/// A stream that ended is tried again only while its process runs, each time after the pause of its attempt.
pub proof fn an_ended_stream_is_tried_again_while_the_process_runs(
    s: &mut SessionLoop,
    p: &TerminalPanel,
    wait: Option<u64>,
    chat: &str,
    key: u64,
    done: bool,
    attempt: u32,
    pause: u64,
)
    requires
        p.wf(),
        call_ensures(SessionLoop::stream_ended, (s, p), wait),
        chat@ == old(s).chat@,
        key == old(s).key,
        call_ensures(TerminalPanel::tab_done, (p, chat, key), done),
        attempt == old(s).attempt,
        call_ensures(tabs::backoff_ms, (attempt,), pause),
    ensures
        done ==> wait is None && *final(s) == *old(s),
        !done ==> wait == Some(pause),
        !done && old(s).attempt < u32::MAX ==> final(s).attempt == old(s).attempt + 1,
{
}

} // verus!
