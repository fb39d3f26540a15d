//! The emulator: answers, titles, bells, colours, cells and the guard in front of it.

use crate::laws::ground::filtered_members;
use crate::terminal::emulator;
use crate::terminal::emulator::{
    event_view, event_views, events_raised, responses_in, title_after, CellColor, CellSnapshot,
    CursorSnapshot, Emulator, EventView, RawCell, RawColor, RawCursor, Signals, TermEvent,
};
use crate::terminal::guard::{Number, Scan};
use vstd::prelude::*;
use vstd::utf8::encode_utf8;

verus! {

/// The texts to send back, first to last.
pub open spec fn answers(events: Seq<EventView>) -> Seq<u8>
    decreases events.len(),
{
    if events.len() == 0 {
        Seq::empty()
    } else {
        (match events[0] {
            EventView::PtyWrite(text) => encode_utf8(text),
            _ => Seq::empty(),
        }) + answers(events.skip(1))
    }
}

proof fn answers_are_the_responses(events: Seq<EventView>)
    ensures
        responses_in(events) == answers(events),
    decreases events.len(),
{
    if events.len() > 0 {
        responses_split(events.take(1), events.skip(1));
        assert(events =~= events.take(1) + events.skip(1));
        answers_are_the_responses(events.skip(1));
        assert(events.take(1).drop_last() =~= Seq::<EventView>::empty());
        assert(events.take(1).last() == events[0]);
        assert(responses_in(events.take(1).drop_last()) =~= Seq::<u8>::empty());
        assert(responses_in(events.take(1)) =~= (match events[0] {
            EventView::PtyWrite(text) => encode_utf8(text),
            _ => Seq::empty(),
        }));
    }
}

proof fn responses_split(a: Seq<EventView>, b: Seq<EventView>)
    ensures
        responses_in(a + b) == responses_in(a) + responses_in(b),
    decreases b.len(),
{
    if b.len() == 0 {
        assert(a + b =~= a);
        assert(responses_in(a) + responses_in(b) =~= responses_in(a));
    } else {
        assert((a + b).drop_last() =~= a + b.drop_last());
        assert((a + b).last() == b.last());
        responses_split(a, b.drop_last());
        let last = match b.last() {
            EventView::PtyWrite(text) => encode_utf8(text),
            _ => Seq::<u8>::empty(),
        };
        assert(responses_in(a) + (responses_in(b.drop_last()) + last) =~= responses_in(a)
            + responses_in(b.drop_last()) + last);
    }
}

/// What the emulator returns for fed bytes are the texts that its terminal wants to send back, in the order
/// in which they were raised, and nothing else.
pub proof fn feeding_returns_the_answers(e: &mut Emulator, bytes: &[u8], responses: Vec<u8>)
    requires
        call_ensures(Emulator::feed, (e, bytes), responses),
    ensures
        responses@ == answers(events_raised(final(e).been_through())),
        (forall|i: int|
            0 <= i < events_raised(final(e).been_through()).len() ==> !(#[trigger] events_raised(
                final(e).been_through(),
            )[i] is PtyWrite)) ==> responses@.len() == 0,
        (forall|i: int|
            0 <= i < events_raised(final(e).been_through()).len() ==> #[trigger] events_raised(
                final(e).been_through(),
            )[i] != EventView::Bell) ==> final(e).bell_rang() == old(e).bell_rang(),
        old(e).bell_rang() ==> final(e).bell_rang(),
{
    let events = events_raised(final(e).been_through());
    answers_are_the_responses(events);
    if forall|i: int| 0 <= i < events.len() ==> !(#[trigger] events[i] is PtyWrite) {
        no_answers(events);
    }
}

proof fn no_answers(events: Seq<EventView>)
    requires
        forall|i: int| 0 <= i < events.len() ==> !(#[trigger] events[i] is PtyWrite),
    ensures
        responses_in(events).len() == 0,
    decreases events.len(),
{
    if events.len() > 0 {
        assert(!(events[events.len() - 1] is PtyWrite));
        let front = events.drop_last();
        assert forall|i: int| 0 <= i < front.len() implies !(#[trigger] front[i] is PtyWrite) by {
            assert(front[i] == events[i]);
        }
        no_answers(front);
    }
}

/// Events are absorbed one after the other: answers are appended, the last title wins, and a bell rings on
/// until it is taken.
pub proof fn events_are_absorbed_in_order(
    s: &mut Signals,
    first: &[TermEvent],
    a: Vec<u8>,
    t: &mut Signals,
    second: &[TermEvent],
    b: Vec<u8>,
    u: &mut Signals,
    both: &[TermEvent],
    c: Vec<u8>,
)
    requires
        call_ensures(Signals::absorb, (s, first), a),
        *old(t) == *final(s),
        call_ensures(Signals::absorb, (t, second), b),
        *old(u) == *old(s),
        both@ == first@ + second@,
        call_ensures(Signals::absorb, (u, both), c),
    ensures
        c@ == a@ + b@,
        crate::text::text_opt(final(u).title) == crate::text::text_opt(final(t).title),
        final(u).bell == final(t).bell,
        old(s).bell ==> final(s).bell,
{
    let x = event_views(first@);
    let y = event_views(second@);
    assert(event_views(both@) =~= x + y);
    responses_split(x, y);
    titles_split(crate::text::text_opt(old(s).title), x, y);
    let all = x + y;
    if x.contains(EventView::Bell) {
        let i = choose|i: int| 0 <= i < x.len() && x[i] == EventView::Bell;
        assert(all[i] == EventView::Bell);
    }
    if y.contains(EventView::Bell) {
        let i = choose|i: int| 0 <= i < y.len() && y[i] == EventView::Bell;
        assert(all[x.len() + i] == EventView::Bell);
    }
    if all.contains(EventView::Bell) {
        let i = choose|i: int| 0 <= i < all.len() && all[i] == EventView::Bell;
        if i < x.len() {
            assert(x[i] == EventView::Bell);
        } else {
            assert(y[i - x.len()] == EventView::Bell);
        }
    }
}

proof fn titles_split(title: Option<Seq<char>>, a: Seq<EventView>, b: Seq<EventView>)
    ensures
        title_after(title, a + b) == title_after(title_after(title, a), b),
    decreases b.len(),
{
    if b.len() == 0 {
        assert(a + b =~= a);
    } else {
        assert((a + b).drop_last() =~= a + b.drop_last());
        assert((a + b).last() == b.last());
        titles_split(title, a, b.drop_last());
    }
}

/// What one event does.
pub proof fn one_event_does_one_thing(s: &mut Signals, events: &[TermEvent], event: TermEvent, r: Vec<u8>)
    requires
        call_ensures(Signals::absorb, (s, events), r),
        events@ == seq![event],
    ensures
        event matches TermEvent::PtyWrite(text) ==> r@ == encode_utf8(text@),
        !(event is PtyWrite) ==> r@.len() == 0,
        event matches TermEvent::Title(text) ==> (final(s).title matches Some(t) && t@ == text@),
        event is ResetTitle ==> final(s).title is None,
        !(event is Title) && !(event is ResetTitle) ==> crate::text::text_opt(final(s).title)
            == crate::text::text_opt(old(s).title),
        event is Bell ==> final(s).bell,
        !(event is Bell) ==> final(s).bell == old(s).bell,
{
    let v = event_views(events@);
    assert(v =~= seq![event_view(event)]);
    assert(v.drop_last() =~= Seq::<EventView>::empty());
    assert(v.last() == event_view(event));
    reveal_with_fuel(responses_in, 2);
    reveal_with_fuel(title_after, 2);
    assert(r@ =~= (match event_view(event) {
        EventView::PtyWrite(text) => encode_utf8(text),
        _ => Seq::<u8>::empty(),
    }));
    if event is Bell {
        assert(v[0] == EventView::Bell);
    } else {
        assert forall|i: int| 0 <= i < v.len() implies v[i] != EventView::Bell by {}
    }
}

/// The title is the last one that was set and not taken back.
pub proof fn the_title_is_the_last_one_set(
    e: &mut Emulator,
    bytes: &[u8],
    responses: Vec<u8>,
    after: &Emulator,
    title: Option<&str>,
    fresh: Emulator,
    view: &Emulator,
    none: Option<&str>,
)
    requires
        call_ensures(Emulator::feed, (e, bytes), responses),
        *after == *final(e),
        call_ensures(Emulator::title, (after,), title),
        call_ensures(Emulator::new, (80u16, 24u16), fresh),
        *view == fresh,
        call_ensures(Emulator::title, (view,), none),
    ensures
        none is None,
        ({
            let events = events_raised(final(e).been_through());
            &&& events.len() > 0 ==> (events.last() matches EventView::Title(text) ==> (title matches Some(t) && t@
                == text))
            &&& events.len() > 0 && events.last() is ResetTitle ==> title is None
            &&& events.len() == 0 ==> (match title {
                Some(t) => old(e).title_set() == Some(t@),
                None => old(e).title_set() is None,
            })
        }),
{
}

/// A size has at least two columns and a row.
pub proof fn a_size_has_room(cols: u16, rows: u16, size: emulator::GridSize)
    requires
        call_ensures(emulator::GridSize::new, (cols, rows), size),
    ensures
        size.cols >= 2 && size.rows >= 1,
        cols >= 2 ==> size.cols == cols,
        rows >= 1 ==> size.rows == rows,
        cols < 2 ==> size.cols == 2,
{
}

/// A bell is heard once.
pub proof fn a_bell_is_heard_once(e: &mut Emulator, rang: bool, f: &mut Emulator, again: bool)
    requires
        call_ensures(Emulator::take_bell, (e,), rang),
        *old(f) == *final(e),
        call_ensures(Emulator::take_bell, (f,), again),
    ensures
        rang == old(e).bell_rang(),
        !again,
        final(e).been_through() == old(e).been_through(),
        final(e).title_set() == old(e).title_set(),
{
}

/// A new emulator has the size that was asked for, at least two columns and a row; a resize sets it anew.
pub proof fn an_emulator_has_the_size_asked_for(
    cols: u16,
    rows: u16,
    e: Emulator,
    view: &Emulator,
    size: (u16, u16),
    f: &mut Emulator,
    wide: u16,
    high: u16,
    after: &Emulator,
    now: (u16, u16),
    offset: usize,
)
    requires
        call_ensures(Emulator::new, (cols, rows), e),
        *view == e,
        call_ensures(Emulator::size, (view,), size),
        call_ensures(Emulator::resize, (f, wide, high), ()),
        *after == *final(f),
        call_ensures(Emulator::size, (after,), now),
        call_ensures(Emulator::display_offset, (view,), offset),
    ensures
        size.0 == (if cols < 2 {
            2u16
        } else {
            cols
        }) && size.1 == (if rows < 1 {
            1u16
        } else {
            rows
        }),
        now.0 == (if wide < 2 {
            2u16
        } else {
            wide
        }) && now.1 == (if high < 1 {
            1u16
        } else {
            high
        }),
        offset == 0,
        final(f).title_set() == old(f).title_set() && final(f).bell_rang() == old(f).bell_rang(),
        e.title_set() is None && !e.bell_rang(),
{
    let c: nat = if wide < 2 { 2 } else { wide as nat };
    let r: nat = if high < 1 { 1 } else { high as nat };
    emulator::resized_to(old(f).been_through(), c, r);
}

/// The view scrolls within what was kept, and comes back to the bottom.
pub proof fn the_view_scrolls_within_what_was_kept(
    e: &mut Emulator,
    delta: i32,
    before: &Emulator,
    was: usize,
    kept: usize,
    after: &Emulator,
    now: usize,
    f: &mut Emulator,
    bottom: &Emulator,
    down: usize,
)
    requires
        call_ensures(Emulator::scroll, (e, delta), ()),
        *before == *old(e),
        call_ensures(Emulator::display_offset, (before,), was),
        call_ensures(Emulator::history_lines, (before,), kept),
        *after == *final(e),
        call_ensures(Emulator::display_offset, (after,), now),
        call_ensures(Emulator::scroll_to_bottom, (f,), ()),
        *bottom == *final(f),
        call_ensures(Emulator::display_offset, (bottom,), down),
    ensures
        was + delta < 0 ==> now == 0,
        0 <= was + delta <= kept ==> now == was + delta,
        was + delta >= 0 && was + delta > kept ==> now == kept,
        down == 0,
        final(e).title_set() == old(e).title_set() && final(e).bell_rang() == old(e).bell_rang(),
        final(f).title_set() == old(f).title_set() && final(f).bell_rang() == old(f).bell_rang(),
{
}

/// A shown row is made of the cells of the line that the view has scrolled to.
pub proof fn a_row_shows_the_cells_of_its_line(
    e: &Emulator,
    row: usize,
    cells: Option<Vec<CellSnapshot>>,
    offset: usize,
    cols: usize,
    rows: usize,
    column: int,
)
    requires
        call_ensures(Emulator::try_line, (e, row), cells),
        call_ensures(Emulator::display_offset, (e,), offset),
        call_ensures(Emulator::cols, (e,), cols),
        call_ensures(Emulator::rows, (e,), rows),
    ensures
        row >= rows ==> cells is None,
        cells matches Some(c) ==> c@.len() == cols && (0 <= column < cols ==> {
            let line = row - offset;
            let flags = emulator::cell_flags(e.been_through(), line, column);
            &&& c@[column].ch == emulator::cell_char(e.been_through(), line, column)
            &&& c@[column].bold == flags.bold && c@[column].inverse == flags.inverse && c@[column].hidden
                == flags.hidden
        }),
{
}

/// The cursor lies where the terminal has it, one to the left on the second half of a wide character, and is
/// hidden where the terminal hides it.
pub proof fn the_cursor_lies_where_the_terminal_has_it(
    e: &Emulator,
    r: Option<CursorSnapshot>,
    offset: usize,
    rows: usize,
    cols: usize,
)
    requires
        call_ensures(Emulator::cursor, (e,), r),
        call_ensures(Emulator::display_offset, (e,), offset),
        call_ensures(Emulator::rows, (e,), rows),
        call_ensures(Emulator::cols, (e,), cols),
    ensures
        ({
            let h = e.been_through();
            let at = emulator::cursor_point(h);
            let half = 0 <= at.line < rows && at.column < cols && emulator::cell_flags(
                h,
                at.line as int,
                at.column as int,
            ).wide_spacer;
            &&& !emulator::modes_set(h).show_cursor || emulator::shape_hidden(h) ==> r is None
            &&& r matches Some(c) ==> c.row == at.line + offset && c.row < rows
            &&& r matches Some(c) ==> (!half ==> c.col == at.column)
            &&& r matches Some(c) ==> (half && at.column > 0 ==> c.col == at.column - 1)
            &&& emulator::modes_set(h).show_cursor && !emulator::shape_hidden(h) && 0 <= at.line + offset
                < rows ==> r is Some
        }),
{
}

/// The modes are those that the terminal set, and the rows can be shown while the view lies in the grid.
pub proof fn modes_and_view_are_those_of_the_terminal(
    e: &Emulator,
    app: bool,
    brackets: bool,
    inside: bool,
    rows: Option<Vec<Vec<CellSnapshot>>>,
    offset: usize,
    kept: usize,
    high: usize,
    k: usize,
    line: Option<Vec<CellSnapshot>>,
)
    requires
        call_ensures(Emulator::app_cursor_mode, (e,), app),
        call_ensures(Emulator::bracketed_paste_mode, (e,), brackets),
        call_ensures(Emulator::view_is_in_grid, (e,), inside),
        call_ensures(Emulator::try_lines, (e,), rows),
        call_ensures(Emulator::display_offset, (e,), offset),
        call_ensures(Emulator::history_lines, (e,), kept),
        call_ensures(Emulator::rows, (e,), high),
        call_ensures(Emulator::try_line, (e, k), line),
    ensures
        app <==> emulator::modes_set(e.been_through()).app_cursor,
        brackets <==> emulator::modes_set(e.been_through()).bracketed_paste,
        inside <==> offset <= kept,
        rows is Some <==> inside,
        line is Some <==> inside && k < high,
        rows matches Some(all) ==> all@.len() == high && (k < high ==> all@[k as int]@ == line->0@),
{
    if rows is Some && k < high {
        let shown = rows->0@[k as int];
    }
}

/// The text of a row is the text of its cells.
pub proof fn a_rows_text_is_that_of_its_cells(
    e: &Emulator,
    row: usize,
    text: String,
    cells: Vec<CellSnapshot>,
    slice: &[CellSnapshot],
    own: String,
)
    requires
        call_ensures(Emulator::row_text, (e, row), text),
        call_ensures(Emulator::line, (e, row), cells),
        slice@ == cells@,
        call_ensures(emulator::cells_text, (slice,), own),
    ensures
        text@ == own@,
{
}

/// Colours: the sixteen named ones by number, dim ones as their plain ones, and all the others as they are.
pub proof fn colours_are_mapped(color: RawColor, r: CellColor)
    requires
        call_ensures(emulator::map_color, (color,), r),
    ensures
        color matches RawColor::Spec(x, y, z) ==> r == CellColor::Rgb(x, y, z),
        color matches RawColor::Indexed(ix) ==> r == CellColor::Indexed(ix),
        color matches RawColor::Named(n) ==> {
            &&& n < 16 ==> r == CellColor::Indexed(n as u8)
            &&& n == 257 ==> r == CellColor::Background
            &&& 259 <= n <= 266 ==> r == CellColor::Indexed((n - 259) as u8)
            &&& !(n < 16) && n != 257 && !(259 <= n <= 266) ==> r == CellColor::Foreground
        },
{
}

/// A cell keeps its character and its flags; both kinds of spacers are spacers.
pub proof fn a_cell_keeps_its_flags(raw: RawCell, cell: CellSnapshot, fg: CellColor, bg: CellColor)
    requires
        call_ensures(emulator::render_cell, (raw,), cell),
        call_ensures(emulator::map_color, (raw.fg,), fg),
        call_ensures(emulator::map_color, (raw.bg,), bg),
    ensures
        cell.ch == raw.ch && cell.fg == fg && cell.bg == bg,
        cell.bold == raw.flags.bold && cell.dim == raw.flags.dim && cell.italic == raw.flags.italic,
        cell.underline == raw.flags.underline && cell.inverse == raw.flags.inverse && cell.hidden
            == raw.flags.hidden && cell.wide == raw.flags.wide,
        cell.wide_spacer <==> raw.flags.wide_spacer || raw.flags.leading_spacer,
{
}

/// An inverse cell swaps its colours, and a hidden one shows its background only.
pub proof fn cells_are_painted(cell: &CellSnapshot, r: (CellColor, CellColor))
    requires
        call_ensures(CellSnapshot::display_colors, (cell,), r),
    ensures
        !cell.inverse ==> r.1 == cell.bg,
        cell.inverse ==> r.1 == cell.fg,
        !cell.hidden && !cell.inverse ==> r.0 == cell.fg,
        !cell.hidden && cell.inverse ==> r.0 == cell.bg,
        cell.hidden ==> r.0 == r.1,
{
}

/// The cursor is shown where it lies in the view.
pub proof fn the_cursor_is_shown_in_the_view(raw: RawCursor, offset: usize, rows: usize, r: Option<CursorSnapshot>)
    requires
        call_ensures(emulator::place_cursor, (raw, offset, rows), r),
    ensures
        raw.hidden ==> r is None,
        r matches Some(c) ==> c.row == raw.line + offset && c.row < rows && c.col == raw.column,
        !raw.hidden && 0 <= raw.line + offset < rows ==> r is Some,
{
}

/// The text of a row leaves out spacers and ends without spaces.
pub proof fn a_row_ends_without_spaces(cells: &[CellSnapshot], text: String)
    requires
        call_ensures(emulator::cells_text, (cells,), text),
    ensures
        text@.len() > 0 ==> text@.last() != ' ',
        forall|k: int|
            0 <= k < text@.len() ==> exists|i: int|
                0 <= i < cells@.len() && !(#[trigger] cells@[i]).wide_spacer && cells@[i].ch
                    == #[trigger] text@[k],
{
    let p = |c: CellSnapshot| !c.wide_spacer;
    let kept = cells@.filter(p);
    let chars = emulator::cell_chars(cells@);
    filtered_members(cells@, p);
    ends_are_cut(chars);
    assert forall|k: int| 0 <= k < text@.len() implies exists|i: int|
        0 <= i < cells@.len() && !(#[trigger] cells@[i]).wide_spacer && cells@[i].ch
            == #[trigger] text@[k] by {
        assert(text@[k] == chars[k]);
        assert(chars[k] == kept[k].ch);
        assert(p(kept[k]) && cells@.contains(kept[k]));
        let i = choose|i: int| 0 <= i < cells@.len() && cells@[i] == kept[k];
        assert(!cells@[i].wide_spacer);
    }
}

proof fn ends_are_cut(s: Seq<char>)
    ensures
        ({
            let t = emulator::without_end_spaces(s);
            &&& t.len() <= s.len()
            &&& t.len() > 0 ==> t.last() != ' '
            &&& forall|k: int| 0 <= k < t.len() ==> #[trigger] t[k] == s[k]
            &&& forall|k: int| t.len() <= k < s.len() ==> #[trigger] s[k] == ' '
        }),
    decreases s.len(),
{
    if s.len() > 0 && s.last() == ' ' {
        ends_are_cut(s.drop_last());
        let t = emulator::without_end_spaces(s);
        assert forall|k: int| t.len() <= k < s.len() implies #[trigger] s[k] == ' ' by {
            if k < s.len() - 1 {
                assert(s.drop_last()[k] == s[k]);
            }
        }
    }
}

/// A row that has no spacers and no space at its end is shown whole.
pub proof fn a_plain_row_is_shown_whole(cells: &[CellSnapshot], text: String)
    requires
        call_ensures(emulator::cells_text, (cells,), text),
        forall|i: int| 0 <= i < cells@.len() ==> !(#[trigger] cells@[i]).wide_spacer,
        cells@.len() > 0 ==> cells@.last().ch != ' ',
    ensures
        text@.len() == cells@.len(),
        forall|i: int| 0 <= i < cells@.len() ==> #[trigger] text@[i] == cells@[i].ch,
{
    let p = |c: CellSnapshot| !c.wide_spacer;
    assert forall|k: int| 0 <= k < cells@.len() implies p(#[trigger] cells@[k]) by {}
    crate::lists::filter_of_all(cells@, p);
    ends_are_cut(emulator::cell_chars(cells@));
}

/// The guard reads: an escape begins anew, control bytes are passed over, a command ends at its end, and only
/// a colour that is longer than any colour is too long.
pub proof fn the_guard_reads_byte_by_byte(scan: Scan, byte: u8, next: Scan)
    requires
        call_ensures(Scan::step, (scan, byte), next),
        !(scan is TooLong),
    ensures
        byte == 0x1b ==> next is Escape,
        byte != 0x1b && scan is Plain ==> next is Plain,
        scan is Escape && byte == 0x5d ==> next == Scan::Number(Number::Nothing),
        scan is Escape && (byte <= 0x17 || byte == 0x19 || 0x1c <= byte <= 0x1f || byte >= 0x7f)
            ==> next is Escape,
        scan is Escape && (byte == 0x18 || byte == 0x1a) ==> next is Plain,
        scan is Escape && 0x20 <= byte <= 0x7e && byte != 0x5d ==> next is Plain,
        next is TooLong ==> (scan matches Scan::Color(n) && n >= 22) && byte >= 0x20 && byte != 0x3b,
        scan == Scan::Color(22) && byte >= 0x20 && byte != 0x3b ==> next is TooLong,
        !(scan is Plain) && !(scan is Escape) && (byte == 0x07 || byte == 0x18 || byte == 0x1a)
            ==> next is Plain,
        !(scan is Plain) && !(scan is Escape) && (byte <= 0x06 || byte == 0x0a || byte == 0x0d || byte
            == 0x19 || 0x1c <= byte <= 0x1f) ==> next == scan,
        scan == Scan::Number(Number::Nothing) && byte == 0x34 ==> next == Scan::Number(Number::SetsColors),
        scan == Scan::Number(Number::Nothing) && byte == 0x31 ==> next == Scan::Number(Number::One),
        scan == Scan::Number(Number::One) && (byte == 0x30 || byte == 0x31 || byte == 0x32) ==> next
            == Scan::Number(Number::SetsColors),
        scan == Scan::Number(Number::SetsColors) && byte == 0x3b ==> next is Value,
        scan is Value && byte == 0x23 ==> next == Scan::Color(0),
        (scan is Color || scan is OtherValue || scan is Value) && byte == 0x3b ==> next is Value,
        scan matches Scan::Color(n) ==> (n < 22 && byte >= 0x20 && byte != 0x3b ==> next == Scan::Color(
            (n + 1) as usize,
        )),
        scan is Command && byte >= 0x20 ==> next is Command,
{
}

/// Bytes without an escape pass the guard as they are, and never more comes out than goes in.
pub proof fn plain_bytes_pass_the_guard(scan: &mut Scan, bytes: &[u8], out: Vec<u8>)
    requires
        call_ensures(Scan::hand_on, (scan, bytes), out),
        !(*old(scan) is TooLong),
    ensures
        out@.len() <= bytes@.len(),
        *old(scan) is Plain && !bytes@.contains(0x1b) ==> out@ == bytes@ && *final(scan) is Plain,
        forall|i: int| 0 <= i < out@.len() ==> bytes@.contains(#[trigger] out@[i]),
        !(*final(scan) is TooLong),
{
    handed_is_part(*old(scan), bytes@);
    if *old(scan) is Plain && !bytes@.contains(0x1b) {
        crate::terminal::guard::plain_text_passes(bytes@);
    }
}

proof fn handed_is_part(scan: Scan, bytes: Seq<u8>)
    ensures
        crate::terminal::guard::handed(scan, bytes).len() <= bytes.len(),
        forall|i: int|
            0 <= i < crate::terminal::guard::handed(scan, bytes).len() ==> bytes.contains(
                #[trigger] crate::terminal::guard::handed(scan, bytes)[i],
            ),
    decreases bytes.len(),
{
    if bytes.len() > 0 {
        let front = bytes.drop_last();
        handed_is_part(scan, front);
        let all = crate::terminal::guard::handed(scan, bytes);
        let before = crate::terminal::guard::handed(scan, front);
        assert forall|i: int| 0 <= i < all.len() implies bytes.contains(#[trigger] all[i]) by {
            if i < before.len() {
                assert(all[i] == before[i]);
                let k = choose|k: int| 0 <= k < front.len() && front[k] == before[i];
                assert(bytes[k] == all[i]);
            } else {
                assert(bytes[bytes.len() - 1] == all[i]);
            }
        }
    }
}

} // verus!
