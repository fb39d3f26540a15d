//! The terminal emulator core: the `Term` of `alacritty_terminal` and the ANSI `Processor` of `vte`,
//! driven as a state machine. Bytes in, grid snapshots out; no I/O and no timers.

use alacritty_terminal::event::{Event, EventListener};
use alacritty_terminal::grid::{Dimensions, Scroll};
use alacritty_terminal::index::{Column, Line};
use alacritty_terminal::term::cell::Flags;
use alacritty_terminal::term::test::TermSize;
use alacritty_terminal::term::{Config, Term, TermMode};
use alacritty_terminal::vte::ansi::{Color, CursorShape, Processor, Rgb};
use std::sync::mpsc::{Receiver, Sender};
use crate::terminal::guard::{handed, scanned, Scan};
use crate::text;
use crate::text::text_opt;
use vstd::prelude::*;
use vstd::utf8::encode_utf8;

verus! {

/// An event of `alacritty_terminal`.
#[verifier::external_type_specification]
#[verifier::external_body]
pub struct ExEvent(Event);

/// The terminal of `alacritty_terminal`.
#[verifier::external_type_specification]
#[verifier::external_body]
#[verifier::reject_recursive_types(T)]
pub struct ExTerm<T>(Term<T>);

/// Holds the ANSI parser of `vte`, whose type parameter is bound by a trait of that crate.
#[verifier::external_body]
pub struct AnsiParser {
    processor: Processor,
}

/// The sending half of a channel of the standard library.
#[verifier::external_type_specification]
#[verifier::external_body]
#[verifier::reject_recursive_types(T)]
pub struct ExSender<T>(Sender<T>);

/// The receiving half of a channel of the standard library.
#[verifier::external_type_specification]
#[verifier::external_body]
#[verifier::reject_recursive_types(T)]
pub struct ExReceiver<T>(Receiver<T>);

/// Hands the events of the terminal on.
pub struct EventCapture {
    sender: Sender<Event>,
}

impl EventListener for EventCapture {
    /// `Sender::send`: queues the event for the receiving half.
    #[verifier::external_body]
    fn send_event(&self, event: Event) {
        let _ = self.sender.send(event);
    }
}

/// Scrollback history kept on this side (lines).
pub const SCROLLBACK_LINES: usize = 10_000;

/// The numbers that `vte` gives to the named colors beyond the sixteen of the palette.
pub const NAMED_BACKGROUND: u16 = 257;

pub const NAMED_DIM_BLACK: u16 = 259;

pub const NAMED_DIM_WHITE: u16 = 266;

// ---------------------------------------------------------------------------
// Plain values
// ---------------------------------------------------------------------------

/// Viewport dimensions in cells.
#[derive(Debug, Clone, Copy, PartialEq, Eq, Structural)]
pub struct GridSize {
    pub cols: u16,
    pub rows: u16,
}

/// The larger of two numbers.
pub open spec fn at_least(n: u16, least: u16) -> u16 {
    if n < least {
        least
    } else {
        n
    }
}

impl GridSize {
    /// Dimensions of at least two columns and one row.
    pub fn new(cols: u16, rows: u16) -> (size: Self)
        ensures
            size == (GridSize { cols: at_least(cols, 2), rows: at_least(rows, 1) }),
    {
        GridSize {
            cols: if cols < 2 {
                2
            } else {
                cols
            },
            rows: if rows < 1 {
                1
            } else {
                rows
            },
        }
    }
}

/// A cell's paint color, apart from the palette.
#[derive(Debug, Clone, Copy, PartialEq, Eq, Structural)]
pub enum CellColor {
    /// Default foreground.
    Foreground,
    /// Default background.
    Background,
    /// Indexed color: 0-15 ANSI, 16-231 color cube, 232-255 grayscale ramp.
    Indexed(u8),
    /// Direct 24-bit color.
    Rgb(u8, u8, u8),
}

/// A color as the terminal keeps it.
#[derive(Debug, Clone, Copy, PartialEq, Eq, Structural)]
pub enum RawColor {
    /// Direct color.
    Spec(u8, u8, u8),
    /// Palette index.
    Indexed(u8),
    /// The number of a named color.
    Named(u16),
}

/// The attributes of a cell as the terminal keeps them.
#[derive(Debug, Clone, Copy, PartialEq, Eq, Structural)]
pub struct RawFlags {
    pub bold: bool,
    pub dim: bool,
    pub italic: bool,
    pub underline: bool,
    pub inverse: bool,
    pub hidden: bool,
    pub wide: bool,
    /// The second half of a wide character.
    pub wide_spacer: bool,
    /// The end of a row that a wide character did not fit into.
    pub leading_spacer: bool,
}

/// A cell as the terminal keeps it.
#[derive(Debug, Clone, Copy, PartialEq, Eq, Structural)]
pub struct RawCell {
    pub ch: char,
    pub fg: RawColor,
    pub bg: RawColor,
    pub flags: RawFlags,
}

/// Where the cursor stands; line 0 is the top of the live screen.
#[derive(Debug, Clone, Copy, PartialEq, Eq, Structural)]
pub struct RawPoint {
    pub line: i32,
    pub column: usize,
}

/// The cursor as it is drawn; line 0 is the top of the live screen.
#[derive(Debug, Clone, Copy, PartialEq, Eq, Structural)]
pub struct RawCursor {
    pub hidden: bool,
    pub line: i32,
    pub column: usize,
}

/// The modes of the terminal that input and the cursor read.
#[derive(Debug, Clone, Copy, PartialEq, Eq, Structural)]
pub struct RawModes {
    pub app_cursor: bool,
    pub bracketed_paste: bool,
    pub show_cursor: bool,
}

/// What the terminal asks for or reports.
#[derive(Debug, PartialEq, Eq)]
pub enum TermEvent {
    /// Text to be written back.
    PtyWrite(String),
    Title(String),
    ResetTitle,
    Bell,
    Other,
}

/// The paint color of a terminal color: the palette and its dim variants by index, the default
/// background by name, and every other name as the default foreground.
pub open spec fn color_of(color: RawColor) -> CellColor {
    match color {
        RawColor::Spec(r, g, b) => CellColor::Rgb(r, g, b),
        RawColor::Indexed(ix) => CellColor::Indexed(ix),
        RawColor::Named(n) => if n < 16 {
            CellColor::Indexed(n as u8)
        } else if n == NAMED_BACKGROUND {
            CellColor::Background
        } else if NAMED_DIM_BLACK <= n <= NAMED_DIM_WHITE {
            CellColor::Indexed((n - NAMED_DIM_BLACK) as u8)
        } else {
            CellColor::Foreground
        },
    }
}

/// The paint color of a terminal color.
pub fn map_color(color: RawColor) -> (r: CellColor)
    ensures
        r == color_of(color),
{
    match color {
        RawColor::Spec(r, g, b) => CellColor::Rgb(r, g, b),
        RawColor::Indexed(ix) => CellColor::Indexed(ix),
        RawColor::Named(n) => {
            if n < 16 {
                CellColor::Indexed(n as u8)
            } else if n == NAMED_BACKGROUND {
                CellColor::Background
            } else if NAMED_DIM_BLACK <= n && n <= NAMED_DIM_WHITE {
                CellColor::Indexed((n - NAMED_DIM_BLACK) as u8)
            } else {
                CellColor::Foreground
            }
        },
    }
}

/// One rendered cell: character, colors and the attributes that paint cares about.
#[derive(Debug, Clone, Copy, PartialEq, Eq, Structural)]
pub struct CellSnapshot {
    pub ch: char,
    pub fg: CellColor,
    pub bg: CellColor,
    pub bold: bool,
    pub dim: bool,
    pub italic: bool,
    pub underline: bool,
    pub inverse: bool,
    pub hidden: bool,
    /// A double-width character (occupies this cell and the next spacer cell).
    pub wide: bool,
    /// The spacer half of a wide character: only its background is painted.
    pub wide_spacer: bool,
}

/// The colors that a cell is painted with: inverse swaps them, hidden paints background on background.
pub open spec fn painted(cell: CellSnapshot) -> (CellColor, CellColor) {
    let back = if cell.inverse {
        cell.fg
    } else {
        cell.bg
    };
    let front = if cell.inverse {
        cell.bg
    } else {
        cell.fg
    };
    (if cell.hidden {
        back
    } else {
        front
    }, back)
}

impl CellSnapshot {
    /// Effective paint colors.
    pub fn display_colors(&self) -> (r: (CellColor, CellColor))
        ensures
            r == painted(*self),
    {
        let (fg, bg) = if self.inverse {
            (self.bg, self.fg)
        } else {
            (self.fg, self.bg)
        };
        if self.hidden {
            (bg, bg)
        } else {
            (fg, bg)
        }
    }
}

/// A hidden cell shows nothing, and a second inversion undoes the first.
pub proof fn hidden_cells_show_nothing(cell: CellSnapshot)
    ensures
        cell.hidden ==> painted(cell).0 == painted(cell).1,
        !cell.hidden ==> painted(CellSnapshot { inverse: !cell.inverse, ..cell }) == (
            painted(cell).1,
            painted(cell).0,
        ),
{
}

/// The rendered form of a terminal cell.
pub open spec fn rendered(raw: RawCell) -> CellSnapshot {
    CellSnapshot {
        ch: raw.ch,
        fg: color_of(raw.fg),
        bg: color_of(raw.bg),
        bold: raw.flags.bold,
        dim: raw.flags.dim,
        italic: raw.flags.italic,
        underline: raw.flags.underline,
        inverse: raw.flags.inverse,
        hidden: raw.flags.hidden,
        wide: raw.flags.wide,
        wide_spacer: raw.flags.wide_spacer || raw.flags.leading_spacer,
    }
}

/// Renders a terminal cell.
pub fn render_cell(raw: RawCell) -> (cell: CellSnapshot)
    ensures
        cell == rendered(raw),
{
    CellSnapshot {
        ch: raw.ch,
        fg: map_color(raw.fg),
        bg: map_color(raw.bg),
        bold: raw.flags.bold,
        dim: raw.flags.dim,
        italic: raw.flags.italic,
        underline: raw.flags.underline,
        inverse: raw.flags.inverse,
        hidden: raw.flags.hidden,
        wide: raw.flags.wide,
        wide_spacer: raw.flags.wide_spacer || raw.flags.leading_spacer,
    }
}

/// Cursor position in viewport coordinates (row 0 is the top of the visible grid).
#[derive(Debug, Clone, Copy, PartialEq, Eq, Structural)]
pub struct CursorSnapshot {
    pub row: usize,
    pub col: usize,
}

/// Where the cursor shows in a viewport that is scrolled back: nowhere when it is hidden or outside.
pub open spec fn cursor_in_view(raw: RawCursor, offset: int, rows: int) -> Option<CursorSnapshot> {
    if raw.hidden || raw.line + offset < 0 || raw.line + offset >= rows {
        None
    } else {
        Some(CursorSnapshot { row: (raw.line + offset) as usize, col: raw.column })
    }
}

/// Places the cursor in a viewport that is scrolled back by `offset` lines.
pub fn place_cursor(raw: RawCursor, offset: usize, rows: usize) -> (r: Option<CursorSnapshot>)
    ensures
        r == cursor_in_view(raw, offset as int, rows as int),
{
    if raw.hidden {
        return None;
    }
    let row: i128 = raw.line as i128 + offset as i128;
    if row < 0 || row >= rows as i128 {
        return None;
    }
    Some(CursorSnapshot { row: row as usize, col: raw.column })
}

/// The characters of cells, without the spacers of wide characters.
pub open spec fn cell_chars(cells: Seq<CellSnapshot>) -> Seq<char> {
    cells.filter(|c: CellSnapshot| !c.wide_spacer).map_values(|c: CellSnapshot| c.ch)
}

/// A text without the spaces it ends with.
pub open spec fn without_end_spaces(s: Seq<char>) -> Seq<char>
    decreases s.len(),
{
    if s.len() > 0 && s.last() == ' ' {
        without_end_spaces(s.drop_last())
    } else {
        s
    }
}

/// Cells as trimmed text.
pub fn cells_text(cells: &[CellSnapshot]) -> (text: String)
    ensures
        text@ == without_end_spaces(cell_chars(cells@)),
{
    let mut chars: Vec<char> = Vec::new();
    let mut i: usize = 0;
    proof {
        reveal(Seq::filter);
        assert(cells@.take(0) =~= Seq::<CellSnapshot>::empty());
        assert(cell_chars(cells@.take(0)) =~= Seq::<char>::empty());
    }
    while i < cells.len()
        invariant
            i <= cells.len(),
            chars@ == cell_chars(cells@.take(i as int)),
        decreases cells.len() - i,
    {
        let ghost front = cells@.take(i as int);
        let ghost before = chars@;
        let cell = cells[i];
        proof {
            let keep = |c: CellSnapshot| !c.wide_spacer;
            assert(cells@.take(i + 1) =~= front.push(cell));
            front.lemma_filter_push(cell, keep);
        }
        if !cell.wide_spacer {
            chars.push(cell.ch);
        }
        proof {
            assert(chars@ =~= cell_chars(cells@.take(i + 1)));
        }
        i = i + 1;
    }
    proof {
        assert(cells@.take(i as int) =~= cells@);
    }
    let mut to: usize = chars.len();
    proof {
        assert(chars@.take(to as int) =~= chars@);
    }
    while to > 0 && chars[to - 1] == ' '
        invariant
            to <= chars.len(),
            without_end_spaces(chars@) == without_end_spaces(chars@.take(to as int)),
        decreases to,
    {
        proof {
            assert(chars@.take(to as int).drop_last() =~= chars@.take(to - 1));
        }
        to = to - 1;
    }
    proof {
        assert(chars@.subrange(0, to as int) =~= chars@.take(to as int));
    }
    text::string_of(&chars, 0, to)
}

// ---------------------------------------------------------------------------
// Title and bell
// ---------------------------------------------------------------------------

/// The contents of an event.
pub enum EventView {
    PtyWrite(Seq<char>),
    Title(Seq<char>),
    ResetTitle,
    Bell,
    Other,
}

/// The contents of an event.
pub open spec fn event_view(event: TermEvent) -> EventView {
    match event {
        TermEvent::PtyWrite(text) => EventView::PtyWrite(text@),
        TermEvent::Title(text) => EventView::Title(text@),
        TermEvent::ResetTitle => EventView::ResetTitle,
        TermEvent::Bell => EventView::Bell,
        TermEvent::Other => EventView::Other,
    }
}

/// The contents of events.
pub open spec fn event_views(events: Seq<TermEvent>) -> Seq<EventView> {
    events.map_values(|e: TermEvent| event_view(e))
}

/// The bytes that events ask to be written back, in order.
pub open spec fn responses_in(events: Seq<EventView>) -> Seq<u8>
    decreases events.len(),
{
    if events.len() == 0 {
        Seq::empty()
    } else {
        responses_in(events.drop_last()) + (match events.last() {
            EventView::PtyWrite(text) => encode_utf8(text),
            _ => Seq::empty(),
        })
    }
}

/// The title after events: the last one that was set, unless it was reset since.
pub open spec fn title_after(title: Option<Seq<char>>, events: Seq<EventView>) -> Option<Seq<char>>
    decreases events.len(),
{
    if events.len() == 0 {
        title
    } else {
        match events.last() {
            EventView::Title(text) => Some(text),
            EventView::ResetTitle => None,
            _ => title_after(title, events.drop_last()),
        }
    }
}

/// The title that a program set and whether the bell rang.
#[derive(Debug, PartialEq, Eq)]
pub struct Signals {
    pub title: Option<String>,
    pub bell: bool,
}

impl Signals {
    /// Takes events and returns the bytes to be written back.
    pub fn absorb(&mut self, events: &[TermEvent]) -> (responses: Vec<u8>)
        ensures
            responses@ == responses_in(event_views(events@)),
            text_opt(final(self).title) == title_after(
                text_opt(old(self).title),
                event_views(events@),
            ),
            final(self).bell == (old(self).bell || event_views(events@).contains(EventView::Bell)),
    {
        let mut responses: Vec<u8> = Vec::new();
        let mut i: usize = 0;
        let ghost all = event_views(events@);
        let ghost title = text_opt(self.title);
        let ghost bell = self.bell;
        proof {
            assert(all.take(0) =~= Seq::<EventView>::empty());
        }
        while i < events.len()
            invariant
                i <= events.len(),
                all == event_views(events@),
                responses@ == responses_in(all.take(i as int)),
                text_opt(self.title) == title_after(title, all.take(i as int)),
                self.bell == (bell || exists|k: int| 0 <= k < i && all[k] == EventView::Bell),
            decreases events.len() - i,
        {
            proof {
                assert(all.take(i + 1).drop_last() =~= all.take(i as int));
                assert(all.take(i + 1).last() == event_view(events@[i as int]));
                assert(all[i as int] == event_view(events@[i as int]));
            }
            match &events[i] {
                TermEvent::PtyWrite(text) => {
                    responses.extend_from_slice(text.as_str().as_bytes());
                },
                TermEvent::Title(text) => {
                    self.title = Some(text.clone());
                },
                TermEvent::ResetTitle => {
                    self.title = None;
                },
                TermEvent::Bell => {
                    self.bell = true;
                },
                TermEvent::Other => {},
            }
            i = i + 1;
        }
        proof {
            assert(all.take(i as int) =~= all);
            if exists|k: int| 0 <= k < i && all[k] == EventView::Bell {
                let k = choose|k: int| 0 <= k < i && all[k] == EventView::Bell;
                assert(all.contains(EventView::Bell));
            }
        }
        responses
    }

    /// Whether the bell rang; asking stops it.
    pub fn take_bell(&mut self) -> (rang: bool)
        ensures
            rang == old(self).bell,
            *final(self) == (Signals { bell: false, ..*old(self) }),
    {
        let rang = self.bell;
        self.bell = false;
        rang
    }
}

// ---------------------------------------------------------------------------
// The terminal behind the emulator
// ---------------------------------------------------------------------------

/// A terminal, its parser and the queue of its events. The three are made together and always used
/// together, so that the terminal has seen exactly the bytes that the parser has.
pub struct Screen {
    term: Term<EventCapture>,
    parser: AnsiParser,
    events: Receiver<Event>,
}

/// One thing done to a terminal.
pub enum TermOp {
    Feed(Seq<u8>),
    Resize(nat, nat),
    Scroll(int),
    Bottom,
}

/// What a terminal has been through: how it was made, and what was done to it since.
pub struct History {
    pub cols: nat,
    pub rows: nat,
    pub scrollback: nat,
    pub ops: Seq<TermOp>,
}

impl History {
    /// The history with one thing more.
    pub open spec fn then_done(self, op: TermOp) -> History {
        History { ops: self.ops.push(op), ..self }
    }
}

/// Columns and rows after what a terminal has been through: those it was last given.
pub open spec fn grid_size(h: History) -> (nat, nat)
    decreases h.ops.len(),
{
    if h.ops.len() == 0 {
        (h.cols, h.rows)
    } else {
        match h.ops.last() {
            TermOp::Resize(cols, rows) => (cols, rows),
            _ => grid_size(History { ops: h.ops.drop_last(), ..h }),
        }
    }
}

/// What a screen has been through.
pub uninterp spec fn history_of(screen: Screen) -> History;

/// The events that `Processor::advance` raises with the last bytes of a history, with those that
/// were still queued.
pub uninterp spec fn events_raised(h: History) -> Seq<EventView>;

/// What `Grid::display_offset` returns.
pub uninterp spec fn scrolled_back(h: History) -> nat;

/// What `Grid::history_size` returns.
pub uninterp spec fn history_size(h: History) -> nat;

/// The character of the cell at a line and a column of the grid.
pub uninterp spec fn cell_char(h: History, line: int, column: int) -> char;

/// The foreground of the cell at a line and a column of the grid.
pub uninterp spec fn cell_foreground(h: History, line: int, column: int) -> RawColor;

/// The background of the cell at a line and a column of the grid.
pub uninterp spec fn cell_background(h: History, line: int, column: int) -> RawColor;

/// The attributes of the cell at a line and a column of the grid.
pub uninterp spec fn cell_flags(h: History, line: int, column: int) -> RawFlags;

/// The point of `Grid::cursor`.
pub uninterp spec fn cursor_point(h: History) -> RawPoint;

/// Whether the shape of `Term::cursor_style` is the hidden one.
pub uninterp spec fn shape_hidden(h: History) -> bool;

/// The modes of `Term::mode`.
pub uninterp spec fn modes_set(h: History) -> RawModes;

/// A line that the grid holds: the lines of the screen count from 0, the scrollback above is negative.
pub open spec fn holds_line(h: History, line: int) -> bool {
    -(history_size(h) as int) <= line < grid_size(h).1
}

/// The grid, its cursor and the modes are the same in both: at most what the view shows of them differs.
pub open spec fn same_grid(before: History, after: History) -> bool {
    &&& history_size(after) == history_size(before)
    &&& forall|line: int, column: int|
        #![trigger cell_char(after, line, column)]
        #![trigger cell_foreground(after, line, column)]
        #![trigger cell_background(after, line, column)]
        #![trigger cell_flags(after, line, column)]
        holds_line(before, line) && 0 <= column < grid_size(before).0 ==> {
            &&& cell_char(after, line, column) == cell_char(before, line, column)
            &&& cell_foreground(after, line, column) == cell_foreground(before, line, column)
            &&& cell_background(after, line, column) == cell_background(before, line, column)
            &&& cell_flags(after, line, column) == cell_flags(before, line, column)
        }
    &&& cursor_point(after) == cursor_point(before)
    &&& shape_hidden(after) == shape_hidden(before)
    &&& modes_set(after) == modes_set(before)
}

/// Where the bytes that a terminal has been through lead, as far as colors go.
pub open spec fn read_so_far(h: History) -> Scan
    decreases h.ops.len(),
{
    if h.ops.len() == 0 {
        Scan::Plain
    } else {
        let before = read_so_far(History { ops: h.ops.drop_last(), ..h });
        match h.ops.last() {
            TermOp::Feed(bytes) => scanned(before, bytes),
            _ => before,
        }
    }
}

impl Screen {
    /// `Term::new` and `Processor::new`: a terminal of the given size that has been through nothing and
    /// is not scrolled back.
    #[verifier::external_body]
    fn open(cols: usize, rows: usize, scrollback: usize) -> (screen: Screen)
        requires
            cols >= 2,
            rows >= 1,
        ensures
            history_of(screen) == (History {
                cols: cols as nat,
                rows: rows as nat,
                scrollback: scrollback as nat,
                ops: Seq::empty(),
            }),
            scrolled_back(history_of(screen)) == 0,
            history_size(history_of(screen)) == 0,
    {
        let (sender, events) = std::sync::mpsc::channel();
        let config = Config { scrolling_history: scrollback, ..Config::default() };
        let term = Term::new(config, &TermSize::new(cols, rows), EventCapture { sender });
        let parser = AnsiParser { processor: Processor::new() };
        Screen { term, parser, events }
    }

    /// `Processor::advance`: the terminal goes through the bytes. The events that it raises on the way
    /// come out of the queue in the order in which they were raised. A color that is too long to be shifted
    /// by its length is left out by the precondition.
    #[verifier::external_body]
    fn advance(&mut self, bytes: &[u8]) -> (events: Vec<TermEvent>)
        requires
            !(scanned(read_so_far(history_of(*old(self))), bytes@) is TooLong),
        ensures
            history_of(*final(self)) == history_of(*old(self)).then_done(TermOp::Feed(bytes@)),
            event_views(events@) == events_raised(history_of(*final(self))),
    {
        self.parser.processor.advance(&mut self.term, bytes);
        let convert = |event: Event| match event {
            Event::PtyWrite(text) => TermEvent::PtyWrite(text),
            Event::Title(text) => TermEvent::Title(text),
            Event::ResetTitle => TermEvent::ResetTitle,
            Event::Bell => TermEvent::Bell,
            _ => TermEvent::Other,
        };
        self.events.try_iter().map(convert).collect()
    }

    /// `Term::resize`: the grid gets new dimensions.
    #[verifier::external_body]
    fn resize(&mut self, cols: usize, rows: usize)
        requires
            cols >= 2,
            rows >= 1,
        ensures
            history_of(*final(self)) == history_of(*old(self)).then_done(
                TermOp::Resize(cols as nat, rows as nat),
            ),
    {
        self.term.resize(TermSize::new(cols, rows));
    }

    /// `Term::scroll_display` by a number of lines: the offset moves by as much, but not below the live
    /// screen nor above the oldest line. The cells, the cursor and the modes stay as they are.
    #[verifier::external_body]
    fn scroll(&mut self, delta: i32)
        requires
            scrolled_back(history_of(*old(self))) + delta <= i32::MAX,
        ensures
            history_of(*final(self)) == history_of(*old(self)).then_done(TermOp::Scroll(delta as int)),
            same_grid(history_of(*old(self)), history_of(*final(self))),
            scrolled_back(history_of(*final(self))) == clamped(
                scrolled_back(history_of(*old(self))) + delta,
                history_size(history_of(*old(self))) as int,
            ),
    {
        self.term.scroll_display(Scroll::Delta(delta));
    }

    /// `Term::scroll_display` to the bottom: the view is pinned to the live screen. The cells, the cursor
    /// and the modes stay as they are.
    #[verifier::external_body]
    fn scroll_to_bottom(&mut self)
        ensures
            history_of(*final(self)) == history_of(*old(self)).then_done(TermOp::Bottom),
            same_grid(history_of(*old(self)), history_of(*final(self))),
            scrolled_back(history_of(*final(self))) == 0,
    {
        self.term.scroll_display(Scroll::Bottom);
    }

    /// `Dimensions::columns` of the terminal: the columns it was last given.
    #[verifier::external_body]
    fn columns(&self) -> (r: usize)
        ensures
            r == grid_size(history_of(*self)).0,
    {
        self.term.columns()
    }

    /// `Dimensions::screen_lines` of the terminal: the rows it was last given.
    #[verifier::external_body]
    fn screen_lines(&self) -> (r: usize)
        ensures
            r == grid_size(history_of(*self)).1,
    {
        self.term.screen_lines()
    }

    /// `Grid::display_offset`: how far the view is scrolled back, never beyond the scrollback that the
    /// terminal was made with.
    #[verifier::external_body]
    fn display_offset(&self) -> (r: usize)
        ensures
            r == scrolled_back(history_of(*self)),
            r <= history_of(*self).scrollback,
    {
        self.term.grid().display_offset()
    }

    /// `Dimensions::history_size`: the lines above the screen, never more than the scrollback that the
    /// terminal was made with.
    #[verifier::external_body]
    fn history_size(&self) -> (r: usize)
        ensures
            r == history_size(history_of(*self)),
            r <= history_of(*self).scrollback,
    {
        self.term.grid().history_size()
    }

    /// The character of a cell, by `Index` of the grid.
    #[verifier::external_body]
    fn char_at(&self, line: i32, column: usize) -> (r: char)
        requires
            holds_line(history_of(*self), line as int),
            column < grid_size(history_of(*self)).0,
        ensures
            r == cell_char(history_of(*self), line as int, column as int),
    {
        self.term.grid()[Line(line)][Column(column)].c
    }

    /// The foreground of a cell, by `Index` of the grid.
    #[verifier::external_body]
    fn foreground_at(&self, line: i32, column: usize) -> (r: RawColor)
        requires
            holds_line(history_of(*self), line as int),
            column < grid_size(history_of(*self)).0,
        ensures
            r == cell_foreground(history_of(*self), line as int, column as int),
    {
        match self.term.grid()[Line(line)][Column(column)].fg {
            Color::Spec(Rgb { r, g, b }) => RawColor::Spec(r, g, b),
            Color::Indexed(ix) => RawColor::Indexed(ix),
            Color::Named(named) => RawColor::Named(named as u16),
        }
    }

    /// The background of a cell, by `Index` of the grid.
    #[verifier::external_body]
    fn background_at(&self, line: i32, column: usize) -> (r: RawColor)
        requires
            holds_line(history_of(*self), line as int),
            column < grid_size(history_of(*self)).0,
        ensures
            r == cell_background(history_of(*self), line as int, column as int),
    {
        match self.term.grid()[Line(line)][Column(column)].bg {
            Color::Spec(Rgb { r, g, b }) => RawColor::Spec(r, g, b),
            Color::Indexed(ix) => RawColor::Indexed(ix),
            Color::Named(named) => RawColor::Named(named as u16),
        }
    }

    /// The attributes of a cell, by `Index` of the grid and `Flags::intersects`.
    #[verifier::external_body]
    fn flags_at(&self, line: i32, column: usize) -> (r: RawFlags)
        requires
            holds_line(history_of(*self), line as int),
            column < grid_size(history_of(*self)).0,
        ensures
            r == cell_flags(history_of(*self), line as int, column as int),
    {
        let flags = self.term.grid()[Line(line)][Column(column)].flags;
        RawFlags {
            bold: flags.intersects(Flags::BOLD),
            dim: flags.intersects(Flags::DIM),
            italic: flags.intersects(Flags::ITALIC),
            underline: flags.intersects(Flags::ALL_UNDERLINES),
            inverse: flags.intersects(Flags::INVERSE),
            hidden: flags.intersects(Flags::HIDDEN),
            wide: flags.intersects(Flags::WIDE_CHAR),
            wide_spacer: flags.intersects(Flags::WIDE_CHAR_SPACER),
            leading_spacer: flags.intersects(Flags::LEADING_WIDE_CHAR_SPACER),
        }
    }

    /// The point of `Grid::cursor`.
    #[verifier::external_body]
    fn cursor_point(&self) -> (r: RawPoint)
        ensures
            r == cursor_point(history_of(*self)),
    {
        let point = self.term.grid().cursor.point;
        RawPoint { line: point.line.0, column: point.column.0 }
    }

    /// The shape of `Term::cursor_style`: whether it is the hidden one.
    #[verifier::external_body]
    fn shape_hidden(&self) -> (r: bool)
        ensures
            r == shape_hidden(history_of(*self)),
    {
        self.term.cursor_style().shape == CursorShape::Hidden
    }

    /// The modes of `Term::mode` that input and the cursor read.
    #[verifier::external_body]
    fn modes(&self) -> (r: RawModes)
        ensures
            r == modes_set(history_of(*self)),
    {
        let mode = self.term.mode();
        RawModes {
            app_cursor: mode.contains(TermMode::APP_CURSOR),
            bracketed_paste: mode.contains(TermMode::BRACKETED_PASTE),
            show_cursor: mode.contains(TermMode::SHOW_CURSOR),
        }
    }
}

/// A number, but at least 0 and at most `most`.
pub open spec fn clamped(n: int, most: int) -> int {
    if n < 0 {
        0
    } else if n > most {
        most
    } else {
        n
    }
}

// ---------------------------------------------------------------------------
// The emulator
// ---------------------------------------------------------------------------

/// The emulator: a fold of output bytes into a grid that can be rendered.
pub struct Emulator {
    screen: Screen,
    signals: Signals,
    /// Where the bytes so far have led, as far as colors go.
    scan: Scan,
}

/// A terminal that goes through output bytes: through all but those that would make a color too long.
pub open spec fn after_bytes(h: History, bytes: Seq<u8>) -> History {
    h.then_done(TermOp::Feed(handed(read_so_far(h), bytes)))
}

/// A cell of the grid is the second half of a wide character.
pub open spec fn on_spacer(h: History, point: RawPoint) -> bool {
    &&& 0 <= point.line < grid_size(h).1
    &&& point.column < grid_size(h).0
    &&& cell_flags(h, point.line as int, point.column as int).wide_spacer
}

/// The cursor as it is drawn: on the first half of a wide character, where it stands on the second.
pub open spec fn cursor_kept(h: History) -> RawCursor {
    let point = cursor_point(h);
    RawCursor {
        hidden: !modes_set(h).show_cursor || shape_hidden(h),
        line: point.line,
        column: if point.column > 0 && on_spacer(h, point) {
            (point.column - 1) as usize
        } else {
            point.column
        },
    }
}

/// The cell at a line and a column of the grid.
pub open spec fn raw_cell(h: History, line: int, column: int) -> RawCell {
    RawCell {
        ch: cell_char(h, line, column),
        fg: cell_foreground(h, line, column),
        bg: cell_background(h, line, column),
        flags: cell_flags(h, line, column),
    }
}

/// The line of the grid that a viewport row shows.
pub open spec fn shown_line(h: History, viewport_row: int) -> int {
    viewport_row - scrolled_back(h)
}

/// The cells of a viewport row.
pub open spec fn row_cells(h: History, viewport_row: int) -> Seq<CellSnapshot> {
    Seq::new(
        grid_size(h).0,
        |column: int| rendered(raw_cell(h, shown_line(h, viewport_row), column)),
    )
}

/// Scrolling moves the view over a grid that stays as it is: two rows that show the same line, one
/// before and one after, have the same cells. The cursor stands where it stood.
pub proof fn scrolling_shows_the_same_lines(
    before: History,
    after: History,
    row_before: int,
    row_after: int,
)
    requires
        same_grid(before, after),
        grid_size(after) == grid_size(before),
        holds_line(before, shown_line(before, row_before)),
        shown_line(after, row_after) == shown_line(before, row_before),
    ensures
        row_cells(after, row_after) == row_cells(before, row_before),
        cursor_kept(after) == cursor_kept(before),
{
    assert(row_cells(after, row_after) =~= row_cells(before, row_before));
}

/// Every viewport row lies in the grid: the view is not scrolled back beyond the oldest line.
pub open spec fn view_in_grid(h: History) -> bool {
    scrolled_back(h) <= history_size(h)
}

/// The smaller of two numbers.
pub open spec fn at_most(n: int, most: int) -> int {
    if n > most {
        most
    } else {
        n
    }
}

/// A number of lines that moves the offset as far as `delta` would and that can be added to it.
fn safe_delta(offset: usize, delta: i32) -> (r: i32)
    requires
        offset <= SCROLLBACK_LINES,
    ensures
        r == at_most(delta as int, i32::MAX - offset),
{
    let most: i32 = i32::MAX - offset as i32;
    if delta > most {
        most
    } else {
        delta
    }
}

impl Emulator {
    /// What the terminal has been through.
    pub closed spec fn been_through(self) -> History {
        history_of(self.screen)
    }

    /// The title that the program set.
    pub closed spec fn title_set(self) -> Option<Seq<char>> {
        text_opt(self.signals.title)
    }

    /// The bell rang since it was last asked about.
    pub closed spec fn bell_rang(self) -> bool {
        self.signals.bell
    }

    /// The terminal was made with the scrollback and with dimensions that emulators have.
    pub closed spec fn wf(self) -> bool {
        &&& history_of(self.screen).scrollback == SCROLLBACK_LINES
        &&& 2 <= grid_size(history_of(self.screen)).0 <= u16::MAX
        &&& 1 <= grid_size(history_of(self.screen)).1 <= u16::MAX
        &&& self.scan == read_so_far(history_of(self.screen))
        &&& !(self.scan is TooLong)
    }

    /// A blank terminal of at least two columns and one row.
    pub fn new(cols: u16, rows: u16) -> (e: Self)
        ensures
            e.wf(),
            e.been_through() == (History {
                cols: at_least(cols, 2) as nat,
                rows: at_least(rows, 1) as nat,
                scrollback: SCROLLBACK_LINES as nat,
                ops: Seq::empty(),
            }),
            scrolled_back(e.been_through()) == 0,
            history_size(e.been_through()) == 0,
            e.title_set() is None,
            !e.bell_rang(),
    {
        let size = GridSize::new(cols, rows);
        let screen = Screen::open(size.cols as usize, size.rows as usize, SCROLLBACK_LINES);
        Emulator { screen, signals: Signals { title: None, bell: false }, scan: Scan::Plain }
    }

    /// Goes through output bytes, but for the end of a color that is too long. Returns the bytes that the
    /// terminal wants written back.
    pub fn feed(&mut self, bytes: &[u8]) -> (responses: Vec<u8>)
        requires
            old(self).wf(),
        ensures
            final(self).wf(),
            final(self).been_through() == after_bytes(old(self).been_through(), bytes@),
            responses@ == responses_in(events_raised(final(self).been_through())),
            final(self).title_set() == title_after(
                old(self).title_set(),
                events_raised(final(self).been_through()),
            ),
            final(self).bell_rang() == (old(self).bell_rang() || events_raised(
                final(self).been_through(),
            ).contains(EventView::Bell)),
    {
        let out = self.scan.hand_on(bytes);
        proof {
            done_keeps_size(history_of(self.screen), TermOp::Feed(out@));
            done_reads_on(history_of(self.screen), TermOp::Feed(out@));
        }
        let events = self.screen.advance(out.as_slice());
        self.signals.absorb(&events)
    }

    /// Gives the grid new dimensions, of at least two columns and one row.
    pub fn resize(&mut self, cols: u16, rows: u16)
        requires
            old(self).wf(),
        ensures
            final(self).wf(),
            final(self).been_through() == old(self).been_through().then_done(
                TermOp::Resize(at_least(cols, 2) as nat, at_least(rows, 1) as nat),
            ),
            final(self).title_set() == old(self).title_set(),
            final(self).bell_rang() == old(self).bell_rang(),
    {
        let size = GridSize::new(cols, rows);
        proof {
            done_reads_on(
                history_of(self.screen),
                TermOp::Resize(size.cols as nat, size.rows as nat),
            );
        }
        self.screen.resize(size.cols as usize, size.rows as usize);
    }

    pub fn cols(&self) -> (r: usize)
        requires
            self.wf(),
        ensures
            r == grid_size(self.been_through()).0,
    {
        self.screen.columns()
    }

    pub fn rows(&self) -> (r: usize)
        requires
            self.wf(),
        ensures
            r == grid_size(self.been_through()).1,
    {
        self.screen.screen_lines()
    }

    /// Columns and rows.
    pub fn size(&self) -> (size: (u16, u16))
        requires
            self.wf(),
        ensures
            (size.0 as nat, size.1 as nat) == grid_size(self.been_through()),
    {
        (self.screen.columns() as u16, self.screen.screen_lines() as u16)
    }

    /// The title, if the running program set one.
    pub fn title(&self) -> (r: Option<&str>)
        requires
            self.wf(),
        ensures
            match r {
                Some(title) => self.title_set() == Some(title@),
                None => self.title_set() is None,
            },
    {
        match &self.signals.title {
            Some(title) => Some(title.as_str()),
            None => None,
        }
    }

    /// Whether a bell arrived; reading clears it.
    pub fn take_bell(&mut self) -> (rang: bool)
        requires
            old(self).wf(),
        ensures
            final(self).wf(),
            rang == old(self).bell_rang(),
            !final(self).bell_rang(),
            final(self).title_set() == old(self).title_set(),
            final(self).been_through() == old(self).been_through(),
    {
        self.signals.take_bell()
    }

    /// Arrow keys should send SS3 (`ESC O A`) instead of CSI.
    pub fn app_cursor_mode(&self) -> (r: bool)
        requires
            self.wf(),
        ensures
            r == modes_set(self.been_through()).app_cursor,
    {
        self.screen.modes().app_cursor
    }

    /// Pastes should be wrapped in `ESC [200~` and `ESC [201~`.
    pub fn bracketed_paste_mode(&self) -> (r: bool)
        requires
            self.wf(),
        ensures
            r == modes_set(self.been_through()).bracketed_paste,
    {
        self.screen.modes().bracketed_paste
    }

    /// Lines scrolled back into history (0 is pinned to the live bottom).
    pub fn display_offset(&self) -> (r: usize)
        requires
            self.wf(),
        ensures
            r == scrolled_back(self.been_through()),
            r <= SCROLLBACK_LINES,
    {
        self.screen.display_offset()
    }

    /// Lines available above the viewport.
    pub fn history_lines(&self) -> (r: usize)
        requires
            self.wf(),
        ensures
            r == history_size(self.been_through()),
            r <= SCROLLBACK_LINES,
    {
        self.screen.history_size()
    }

    /// Scrolls the view: positive is up into history, negative toward the live screen.
    pub fn scroll(&mut self, delta: i32)
        requires
            old(self).wf(),
        ensures
            final(self).wf(),
            scrolled_back(final(self).been_through()) == clamped(
                scrolled_back(old(self).been_through()) + delta,
                history_size(old(self).been_through()) as int,
            ),
            same_grid(old(self).been_through(), final(self).been_through()),
            final(self).been_through() == old(self).been_through().then_done(
                TermOp::Scroll(
                    at_most(delta as int, i32::MAX - scrolled_back(old(self).been_through())),
                ),
            ),
            grid_size(final(self).been_through()) == grid_size(old(self).been_through()),
            final(self).title_set() == old(self).title_set(),
            final(self).bell_rang() == old(self).bell_rang(),
    {
        let offset: usize = self.screen.display_offset();
        // The scrollback is bounded, so a step that is cut short ends at the same line.
        let _above: usize = self.screen.history_size();
        let step: i32 = safe_delta(offset, delta);
        proof {
            done_keeps_size(history_of(self.screen), TermOp::Scroll(step as int));
            done_reads_on(history_of(self.screen), TermOp::Scroll(step as int));
        }
        self.screen.scroll(step);
    }

    pub fn scroll_to_bottom(&mut self)
        requires
            old(self).wf(),
        ensures
            final(self).wf(),
            scrolled_back(final(self).been_through()) == 0,
            same_grid(old(self).been_through(), final(self).been_through()),
            final(self).been_through() == old(self).been_through().then_done(TermOp::Bottom),
            grid_size(final(self).been_through()) == grid_size(old(self).been_through()),
            final(self).title_set() == old(self).title_set(),
            final(self).bell_rang() == old(self).bell_rang(),
    {
        proof {
            done_keeps_size(history_of(self.screen), TermOp::Bottom);
            done_reads_on(history_of(self.screen), TermOp::Bottom);
        }
        self.screen.scroll_to_bottom();
    }

    /// Snapshot of one viewport row (0 is the top), honoring the scrollback offset.
    pub fn line(&self, viewport_row: usize) -> (cells: Vec<CellSnapshot>)
        requires
            self.wf(),
            viewport_row < grid_size(self.been_through()).1,
            view_in_grid(self.been_through()),
        ensures
            cells@ == row_cells(self.been_through(), viewport_row as int),
    {
        let offset: usize = self.screen.display_offset();
        let line: i32 = viewport_row as i32 - offset as i32;
        let cols: usize = self.screen.columns();
        let ghost h = self.been_through();
        let mut cells: Vec<CellSnapshot> = Vec::new();
        let mut column: usize = 0;
        while column < cols
            invariant
                column <= cols,
                cols == grid_size(h).0,
                self.wf(),
                h == self.been_through(),
                holds_line(h, line as int),
                line == shown_line(h, viewport_row as int),
                cells.len() == column,
                forall|k: int|
                    0 <= k < column ==> #[trigger] cells@[k] == rendered(
                        raw_cell(h, line as int, k),
                    ),
            decreases cols - column,
        {
            let raw = RawCell {
                ch: self.screen.char_at(line, column),
                fg: self.screen.foreground_at(line, column),
                bg: self.screen.background_at(line, column),
                flags: self.screen.flags_at(line, column),
            };
            cells.push(render_cell(raw));
            column = column + 1;
        }
        proof {
            assert(cells@ =~= row_cells(h, viewport_row as int));
        }
        cells
    }

    /// All viewport rows, top to bottom.
    pub fn lines(&self) -> (rows: Vec<Vec<CellSnapshot>>)
        requires
            self.wf(),
            view_in_grid(self.been_through()),
        ensures
            rows@.len() == grid_size(self.been_through()).1,
            forall|i: int|
                0 <= i < rows@.len() ==> (#[trigger] rows@[i])@ == row_cells(
                    self.been_through(),
                    i,
                ),
    {
        let n: usize = self.screen.screen_lines();
        let mut rows: Vec<Vec<CellSnapshot>> = Vec::new();
        let mut i: usize = 0;
        while i < n
            invariant
                i <= n,
                n == grid_size(self.been_through()).1,
                self.wf(),
                view_in_grid(self.been_through()),
                rows.len() == i,
                forall|k: int|
                    0 <= k < i ==> (#[trigger] rows@[k])@ == row_cells(self.been_through(), k),
            decreases n - i,
        {
            rows.push(self.line(i));
            i = i + 1;
        }
        rows
    }

    /// Whether every viewport row lies in the grid.
    pub fn view_is_in_grid(&self) -> (r: bool)
        requires
            self.wf(),
        ensures
            r == view_in_grid(self.been_through()),
    {
        self.screen.display_offset() <= self.screen.history_size()
    }

    /// Snapshot of one viewport row, where there is such a row and the view lies in the grid.
    pub fn try_line(&self, viewport_row: usize) -> (cells: Option<Vec<CellSnapshot>>)
        requires
            self.wf(),
        ensures
            cells is Some <==> (viewport_row < grid_size(self.been_through()).1 && view_in_grid(
                self.been_through(),
            )),
            cells matches Some(c) ==> c@ == row_cells(self.been_through(), viewport_row as int),
    {
        if viewport_row < self.screen.screen_lines() && self.view_is_in_grid() {
            Some(self.line(viewport_row))
        } else {
            None
        }
    }

    /// All viewport rows, where the view lies in the grid.
    pub fn try_lines(&self) -> (rows: Option<Vec<Vec<CellSnapshot>>>)
        requires
            self.wf(),
        ensures
            rows is Some <==> view_in_grid(self.been_through()),
            rows matches Some(r) ==> r@.len() == grid_size(self.been_through()).1 && forall|i: int|
                0 <= i < r@.len() ==> (#[trigger] r@[i])@ == row_cells(self.been_through(), i),
    {
        if self.view_is_in_grid() {
            Some(self.lines())
        } else {
            None
        }
    }

    /// Cursor in viewport coordinates; `None` when it is hidden or scrolled out.
    pub fn cursor(&self) -> (r: Option<CursorSnapshot>)
        requires
            self.wf(),
        ensures
            r == cursor_in_view(
                cursor_kept(self.been_through()),
                scrolled_back(self.been_through()) as int,
                grid_size(self.been_through()).1 as int,
            ),
    {
        let rows: usize = self.screen.screen_lines();
        let cols: usize = self.screen.columns();
        let point = self.screen.cursor_point();
        let modes = self.screen.modes();
        let mut column: usize = point.column;
        // A wide character can leave its second half in the first column.
        if column > 0 && column < cols && 0 <= point.line && (point.line as usize) < rows {
            if self.screen.flags_at(point.line, column).wide_spacer {
                column = column - 1;
            }
        }
        let raw = RawCursor {
            hidden: !modes.show_cursor || self.screen.shape_hidden(),
            line: point.line,
            column,
        };
        place_cursor(raw, self.screen.display_offset(), rows)
    }

    /// A viewport row as trimmed text, without the spacers of wide characters.
    pub fn row_text(&self, viewport_row: usize) -> (text: String)
        requires
            self.wf(),
            viewport_row < grid_size(self.been_through()).1,
            view_in_grid(self.been_through()),
        ensures
            text@ == without_end_spaces(
                cell_chars(row_cells(self.been_through(), viewport_row as int)),
            ),
    {
        let cells = self.line(viewport_row);
        cells_text(&cells)
    }
}

/// Whatever is done to a terminal but resizing it, its size stays.
pub proof fn done_keeps_size(h: History, op: TermOp)
    requires
        !(op is Resize),
    ensures
        grid_size(h.then_done(op)) == grid_size(h),
{
    assert(h.then_done(op).ops.drop_last() =~= h.ops);
}

/// Whatever is done to a terminal, it reads on from the bytes that it has been through: behind more of them,
/// or where it was.
pub proof fn done_reads_on(h: History, op: TermOp)
    ensures
        read_so_far(h.then_done(op)) == (match op {
            TermOp::Feed(bytes) => scanned(read_so_far(h), bytes),
            _ => read_so_far(h),
        }),
{
    assert(h.then_done(op).ops.drop_last() =~= h.ops);
}

/// After a resize the grid has the given size, whatever it was before.
pub proof fn resized_to(h: History, cols: nat, rows: nat)
    ensures
        grid_size(h.then_done(TermOp::Resize(cols, rows))) == (cols, rows),
{
}

/// A view that lies in the grid stays in it under scrolling.
pub proof fn scrolling_stays_in_grid(offset: nat, above: nat, delta: int)
    ensures
        0 <= clamped(offset + delta, above as int) <= above,
        offset <= above && 0 <= offset + delta <= above ==> clamped(
            clamped(offset + delta, above as int) - delta,
            above as int,
        ) == offset,
{
}

} // verus!
