use comet_ui::terminal::emulator::{
    map_color, CellColor, CursorSnapshot, Emulator, GridSize, RawColor,
};
use comet_ui::terminal::guard::{Number, Scan, MAX_COLOR};
use comet_ui::terminal::panel::{
    FlushOutcome, InputCoalescer, KeyRoute, StreamDisposition, TabMotion, TerminalEvent,
    TerminalPanel, TerminalSession,
};
use comet_ui::terminal::session::{Opened, SessionLoop};
use comet_ui::terminal::tabs::{
    active_after_close, active_after_reorder, backoff_ms, decode_base64, encode_base64,
    exit_message, new_tab_title, open_failed_message, pick_decoded, reorder_tabs, shell_title,
    slide_offset,
};

fn emu(cols: u16, rows: u16) -> Emulator {
    Emulator::new(cols, rows)
}

#[test]
fn plain_text_lands_on_row_zero() {
    let mut e = emu(20, 5);
    e.feed(b"hello");
    assert_eq!(e.row_text(0), "hello");
    assert_eq!(e.cursor(), Some(CursorSnapshot { row: 0, col: 5 }));
}

#[test]
fn crlf_moves_lines_and_cr_returns_to_column_zero() {
    let mut e = emu(20, 5);
    e.feed(b"one\r\ntwo\r\nthree");
    assert_eq!(e.row_text(0), "one");
    assert_eq!(e.row_text(1), "two");
    assert_eq!(e.row_text(2), "three");
    e.feed(b"\rXX");
    assert_eq!(e.row_text(2), "XXree");
}

#[test]
fn long_line_wraps_at_the_grid_width() {
    let mut e = emu(10, 4);
    e.feed(b"abcdefghijKLM");
    assert_eq!(e.row_text(0), "abcdefghij");
    assert_eq!(e.row_text(1), "KLM");
}

#[test]
fn sgr_colors_and_attributes() {
    let mut e = emu(40, 4);
    e.feed(b"\x1b[31mred\x1b[0m plain \x1b[1;44mboldbg\x1b[0m");
    let line = e.line(0);
    assert_eq!(line[0].fg, CellColor::Indexed(1));
    assert_eq!(line[0].bg, CellColor::Background);
    // After reset: defaults.
    assert_eq!(line[4].fg, CellColor::Foreground);
    // Bold + blue background segment starts at col 10 ("red plain " = 10).
    let bold_cell = line[10];
    assert!(bold_cell.bold);
    assert_eq!(bold_cell.bg, CellColor::Indexed(4));
}

#[test]
fn bright_256_and_truecolor_sgr() {
    let mut e = emu(40, 2);
    e.feed(b"\x1b[95mA\x1b[38;5;196mB\x1b[38;2;10;20;30mC");
    let line = e.line(0);
    assert_eq!(line[0].fg, CellColor::Indexed(13)); // bright magenta
    assert_eq!(line[1].fg, CellColor::Indexed(196));
    assert_eq!(line[2].fg, CellColor::Rgb(10, 20, 30));
}

#[test]
fn inverse_and_hidden_resolve_in_display_colors() {
    let mut e = emu(10, 2);
    e.feed(b"\x1b[7mI\x1b[0m\x1b[8mH");
    let inv = e.line(0)[0];
    assert!(inv.inverse);
    assert_eq!(
        inv.display_colors(),
        (CellColor::Background, CellColor::Foreground)
    );
    let hid = e.line(0)[1];
    assert!(hid.hidden);
    let (fg, bg) = hid.display_colors();
    assert_eq!(fg, bg, "hidden text paints foreground as background");
}

#[test]
fn cursor_addressing_and_relative_moves() {
    let mut e = emu(20, 6);
    e.feed(b"\x1b[3;5Hx");
    // CSI H is 1-based; cell written at row 2, col 4; cursor advanced by 1.
    assert_eq!(e.line(2)[4].ch, 'x');
    assert_eq!(e.cursor(), Some(CursorSnapshot { row: 2, col: 5 }));
    e.feed(b"\x1b[2D"); // left twice
    assert_eq!(e.cursor(), Some(CursorSnapshot { row: 2, col: 3 }));
    e.feed(b"\x1b[A"); // up
    assert_eq!(e.cursor(), Some(CursorSnapshot { row: 1, col: 3 }));
}

#[test]
fn clear_screen_and_home() {
    let mut e = emu(20, 4);
    e.feed(b"aaa\r\nbbb\r\nccc");
    e.feed(b"\x1b[2J\x1b[H");
    for row in 0..4 {
        assert_eq!(e.row_text(row), "");
    }
    assert_eq!(e.cursor(), Some(CursorSnapshot { row: 0, col: 0 }));
    e.feed(b"fresh");
    assert_eq!(e.row_text(0), "fresh");
}

#[test]
fn erase_line_variants() {
    let mut e = emu(20, 2);
    e.feed(b"abcdef\x1b[3D\x1b[K"); // erase from cursor (col 3) to end
    assert_eq!(e.row_text(0), "abc");
}

#[test]
fn scrollback_history_and_scrolling() {
    let mut e = emu(10, 3);
    for i in 1..=8 {
        e.feed(format!("line{i}\r\n").as_bytes());
    }
    // Viewport shows the tail (line7, line8, then the blank prompt row).
    assert_eq!(e.row_text(0), "line7");
    assert_eq!(e.history_lines(), 6);
    assert_eq!(e.display_offset(), 0);
    // Scroll up into history.
    e.scroll(2);
    assert_eq!(e.display_offset(), 2);
    assert_eq!(e.row_text(0), "line5");
    // Cursor is below the viewport while scrolled back.
    assert_eq!(e.cursor(), None);
    // Over-scroll clamps to the top of history.
    e.scroll(100);
    assert_eq!(e.display_offset(), 6);
    assert_eq!(e.row_text(0), "line1");
    e.scroll_to_bottom();
    assert_eq!(e.display_offset(), 0);
    assert_eq!(e.row_text(0), "line7");
}

#[test]
fn alt_screen_restores_primary_content() {
    let mut e = emu(20, 4);
    e.feed(b"primary");
    // Enter the alt screen; 1049 keeps the cursor position, so home first.
    e.feed(b"\x1b[?1049h\x1b[H");
    e.feed(b"alt-content");
    assert_eq!(e.row_text(0), "alt-content");
    e.feed(b"\x1b[?1049l"); // leave
    assert_eq!(e.row_text(0), "primary");
}

#[test]
fn dsr_cursor_report_produces_pty_response() {
    let mut e = emu(20, 4);
    e.feed(b"\x1b[2;3H");
    let responses = e.feed(b"\x1b[6n");
    assert_eq!(String::from_utf8_lossy(&responses), "\x1b[2;3R");
}

#[test]
fn osc_title_and_bell() {
    let mut e = emu(20, 2);
    assert_eq!(e.title(), None);
    e.feed(b"\x1b]0;my title\x07");
    assert_eq!(e.title(), Some("my title"));
    assert!(!e.take_bell());
    e.feed(b"\x07");
    assert!(e.take_bell());
    assert!(!e.take_bell(), "bell reads clear it");
}

#[test]
fn app_cursor_and_bracketed_paste_modes_toggle() {
    let mut e = emu(10, 2);
    assert!(!e.app_cursor_mode());
    e.feed(b"\x1b[?1h");
    assert!(e.app_cursor_mode());
    e.feed(b"\x1b[?1l");
    assert!(!e.app_cursor_mode());
    e.feed(b"\x1b[?2004h");
    assert!(e.bracketed_paste_mode());
}

#[test]
fn hidden_cursor_mode() {
    let mut e = emu(10, 2);
    e.feed(b"\x1b[?25l");
    assert_eq!(e.cursor(), None);
    e.feed(b"\x1b[?25h");
    assert!(e.cursor().is_some());
}

#[test]
fn resize_preserves_content_and_reflows_cursor() {
    let mut e = emu(20, 5);
    e.feed(b"keepme\r\nsecond");
    e.resize(30, 3);
    assert_eq!(e.cols(), 30);
    assert_eq!(e.rows(), 3);
    assert_eq!(e.row_text(0), "keepme");
    assert_eq!(e.row_text(1), "second");
}

#[test]
fn wide_chars_occupy_two_cells_with_spacer() {
    let mut e = emu(10, 2);
    e.feed("宽w".as_bytes());
    let line = e.line(0);
    assert!(line[0].wide);
    assert_eq!(line[0].ch, '宽');
    assert!(line[1].wide_spacer);
    assert_eq!(line[2].ch, 'w');
    assert_eq!(e.row_text(0), "宽w");
    assert_eq!(e.cursor(), Some(CursorSnapshot { row: 0, col: 3 }));
}

#[test]
fn utf8_split_across_feeds_reassembles() {
    let mut e = emu(10, 2);
    let bytes = "é".as_bytes();
    e.feed(&bytes[..1]);
    e.feed(&bytes[1..]);
    assert_eq!(e.row_text(0), "é");
}

#[test]
fn a_grid_has_at_least_two_columns_and_one_row() {
    assert_eq!(GridSize::new(0, 0), GridSize { cols: 2, rows: 1 });
    assert_eq!(GridSize::new(80, 24), GridSize { cols: 80, rows: 24 });
    let e = emu(0, 0);
    assert_eq!((e.cols(), e.rows()), (2, 1));
    assert_eq!(e.size(), (2, 1));
}

#[test]
fn named_colors_map_to_the_palette() {
    assert_eq!(map_color(RawColor::Spec(1, 2, 3)), CellColor::Rgb(1, 2, 3));
    let mut e = emu(20, 2);
    // Dim black and dim white fold back to the palette.
    e.feed(b"\x1b[2;30mB\x1b[2;37mW\x1b[39;49mD");
    let line = e.line(0);
    assert_eq!(line[0].fg, CellColor::Indexed(0));
    assert_eq!(line[1].fg, CellColor::Indexed(7));
    assert_eq!(line[2].fg, CellColor::Foreground);
    assert_eq!(line[2].bg, CellColor::Background);
}

#[test]
fn attributes_reach_the_cells() {
    let mut e = emu(20, 2);
    e.feed(b"\x1b[3mi\x1b[0m\x1b[4mu\x1b[0m\x1b[2md");
    let line = e.line(0);
    assert!(line[0].italic && !line[0].underline);
    assert!(line[1].underline && !line[1].italic);
    assert!(line[2].dim && !line[2].bold);
    assert_eq!(line[3].ch, ' ');
}

#[test]
fn lines_can_be_read_in_any_view() {
    let mut e = emu(10, 3);
    for i in 1..=8 {
        e.feed(format!("line{i}\r\n").as_bytes());
    }
    e.scroll(3);
    assert!(e.view_is_in_grid());
    let rows = e.try_lines().unwrap();
    assert_eq!(rows.len(), 3);
    assert_eq!(rows[0], e.line(0));
    assert_eq!(e.try_line(1), Some(e.line(1)));
    // Scrolling back down never passes the live screen.
    e.scroll(-100);
    assert_eq!(e.display_offset(), 0);
}

#[test]
fn the_cursor_stays_in_the_grid_on_half_a_wide_character() {
    let mut e = emu(10, 2);
    e.feed("宽\r".as_bytes());
    assert_eq!(e.cursor(), Some(CursorSnapshot { row: 0, col: 0 }));
    // Deleting its first half leaves the second one under the cursor, in the first column.
    e.feed(b"\x1b[P");
    assert!(e.line(0)[0].wide_spacer);
    assert_eq!(e.cursor(), Some(CursorSnapshot { row: 0, col: 0 }));
    // On the second half of a whole one the cursor is drawn on the first.
    let mut e = emu(10, 2);
    e.feed("a宽\x1b[1;3H".as_bytes());
    assert_eq!(e.cursor(), Some(CursorSnapshot { row: 0, col: 1 }));
    // A hidden cursor is drawn nowhere.
    e.feed(b"\x1b[?25l");
    assert_eq!(e.cursor(), None);
}

#[test]
fn a_color_that_is_too_long_does_no_harm() {
    let zeros = "0".repeat(47);
    for number in ["4;0", "10", "11", "12", "4;1;#fff;0"] {
        let mut e = emu(20, 2);
        e.feed(format!("\x1b]{number};#{zeros}\x07").as_bytes());
        e.feed(b"after");
        assert_eq!(e.row_text(0), "after");
    }
    // In pieces, and ended by an escape.
    let mut e = emu(20, 2);
    e.feed(b"\x1b");
    e.feed(b"]1");
    e.feed(b"0;#");
    for byte in zeros.bytes() {
        e.feed(&[byte]);
    }
    e.feed(b"\x1b\\after");
    assert_eq!(e.row_text(0), "after");
    // Inside of a synchronized update.
    let mut e = emu(20, 2);
    e.feed(format!("\x1b[?2026h\x1b]4;0;#{zeros}\x07after\x1b[?2026l").as_bytes());
    assert_eq!(e.row_text(0), "after");
}

#[test]
fn titles_and_text_are_handed_on_whole() {
    let long = "#".repeat(100);
    let mut e = emu(120, 2);
    e.feed(format!("\x1b]2;{long}\x07{long}").as_bytes());
    assert_eq!(e.title(), Some(long.as_str()));
    assert_eq!(e.row_text(0), long);
}

#[test]
fn a_color_is_cut_where_it_gets_too_long() {
    let hand_on = |text: &str| {
        let mut scan = Scan::Plain;
        let out = scan.hand_on(text.as_bytes());
        (String::from_utf8(out).unwrap(), scan)
    };
    let digits = "0123456789abcdef0123456789abcdef";
    let (out, scan) = hand_on(&format!("\x1b]4;0;#{digits};1;#fff\x07x"));
    assert_eq!(out, format!("\x1b]4;0;#{};1;#fff\x07x", &digits[..MAX_COLOR]));
    assert_eq!(scan, Scan::Plain);
    for passes in [
        format!("\x1b]4;0;rgb:{digits}\x07"),
        format!("\x1b]8;;#{digits}\x07"),
        format!("\x1b]13;#{digits}\x07"),
        format!("\x1b]44;#{digits}\x07"),
        format!("\x1b]104;#{digits}\x07"),
        format!("\x1b[4;#{digits}"),
        format!("]4;0;#{digits}"),
        format!("\x1b]4;0;#{}\x07", &digits[..MAX_COLOR]),
    ] {
        assert_eq!(hand_on(&passes).0, passes);
    }
    assert_eq!(hand_on("\x1b]12;#0f").1, Scan::Color(2));
    assert_eq!(hand_on("\x1b]1").1, Scan::Number(Number::One));
    assert_eq!(hand_on("\x1b").1, Scan::Escape);
    assert_eq!(hand_on("\x1b]4;").1, Scan::Value);
    assert_eq!(hand_on("\x1b]4;1").1, Scan::OtherValue);
    assert_eq!(hand_on("\x1b]0").1, Scan::Command);
}

#[test]
fn scrolling_leaves_the_grid_alone() {
    let mut e = emu(10, 3);
    e.feed(b"\x1b[?2004h\x1b[31m");
    for i in 1..=8 {
        e.feed(format!("line{i}\r\n").as_bytes());
    }
    let (live, cursor) = (e.try_lines().unwrap(), e.cursor());
    e.scroll(1);
    // The rows that show the same lines have the same cells.
    let back = e.try_lines().unwrap();
    assert_eq!(back[1], live[0]);
    assert_eq!(back[2], live[1]);
    assert_eq!(back[1][0].fg, CellColor::Indexed(1));
    assert!(e.bracketed_paste_mode());
    e.scroll_to_bottom();
    assert_eq!(e.try_lines().unwrap(), live);
    assert_eq!(e.cursor(), cursor);
    assert!(e.bracketed_paste_mode());
}

#[test]
fn a_resize_keeps_the_smallest_grid() {
    let mut e = emu(10, 3);
    e.resize(1, 0);
    assert_eq!((e.cols(), e.rows()), (2, 1));
}

#[test]
fn answers_come_in_the_order_of_the_questions() {
    let mut e = emu(20, 4);
    let responses = e.feed(b"\x1b[6n\x1b[2;3H\x1b[6n");
    assert_eq!(String::from_utf8_lossy(&responses), "\x1b[1;1R\x1b[2;3R");
}

#[test]
fn backoff_doubles_and_caps() {
    assert_eq!(backoff_ms(0), 500);
    assert_eq!(backoff_ms(1), 1000);
    assert_eq!(backoff_ms(2), 2000);
    assert_eq!(backoff_ms(3), 4000);
    assert_eq!(backoff_ms(4), 8000);
    assert_eq!(backoff_ms(10), 8000);
    assert_eq!(backoff_ms(u32::MAX), 8000);
}

#[test]
fn reorder_moves_forward_and_backward() {
    let mut v = vec!["a", "b", "c", "d"];
    reorder_tabs(&mut v, 0, 2);
    assert_eq!(v, ["b", "c", "a", "d"]);
    reorder_tabs(&mut v, 3, 0);
    assert_eq!(v, ["d", "b", "c", "a"]);
    // Out-of-range and no-op moves leave the list untouched.
    reorder_tabs(&mut v, 9, 0);
    reorder_tabs(&mut v, 1, 1);
    assert_eq!(v, ["d", "b", "c", "a"]);
}

#[test]
fn slide_offsets_shift_toward_the_gap() {
    let slide = |ix: usize, from: usize, over: usize| slide_offset(ix, from, over) as f32;
    // Dragging 0 over 2: tabs 1 and 2 slide left one slot.
    assert_eq!(slide(0, 0, 2), 0.0);
    assert_eq!(slide(1, 0, 2), -1.0);
    assert_eq!(slide(2, 0, 2), -1.0);
    assert_eq!(slide(3, 0, 2), 0.0);
    // Dragging 3 over 1: tabs 1 and 2 slide right.
    assert_eq!(slide(0, 3, 1), 0.0);
    assert_eq!(slide(1, 3, 1), 1.0);
    assert_eq!(slide(2, 3, 1), 1.0);
    assert_eq!(slide(3, 3, 1), 0.0);
    // Hovering the origin: nothing moves.
    for ix in 0..4 {
        assert_eq!(slide(ix, 2, 2), 0.0);
    }
}

#[test]
fn active_index_tracks_reorders() {
    // The active tab itself moves.
    assert_eq!(active_after_reorder(1, 1, 3), 3);
    // A tab hopping over the active one from the left shifts it down.
    assert_eq!(active_after_reorder(2, 0, 3), 1);
    // From the right it shifts it up.
    assert_eq!(active_after_reorder(1, 3, 0), 2);
    // Disjoint moves leave it alone.
    assert_eq!(active_after_reorder(0, 2, 3), 0);
}

#[test]
fn active_index_tracks_closes() {
    assert_eq!(active_after_close(2, 0, 3), 1); // left of the active one
    assert_eq!(active_after_close(1, 1, 2), 1); // the active one, mid-list
    assert_eq!(active_after_close(2, 2, 2), 1); // the active one, at the tail
    assert_eq!(active_after_close(0, 0, 0), 0); // the last tab
}

#[test]
fn exit_message_format() {
    let text = String::from_utf8(exit_message(0)).unwrap();
    assert!(text.contains("[process exited 0]"));
    let text = String::from_utf8(exit_message(137)).unwrap();
    assert!(text.contains("[process exited 137]"));
    assert!(text.starts_with("\r\n"));
    assert!(text.ends_with("\r\n"));
}

#[test]
fn exit_message_shows_negative_codes() {
    assert_eq!(exit_message(-1), b"\r\n\x1b[90m[process exited -1]\x1b[0m\r\n".to_vec());
    let lowest = String::from_utf8(exit_message(i32::MIN)).unwrap();
    assert!(lowest.contains("[process exited -2147483648]"));
}

#[test]
fn shell_titles() {
    assert_eq!(shell_title("/bin/zsh"), "zsh");
    assert_eq!(shell_title("/usr/local/bin/fish"), "fish");
    assert_eq!(shell_title("C:\\Windows\\System32\\cmd.exe"), "cmd.exe");
    assert_eq!(shell_title("bash"), "bash");
    assert_eq!(shell_title(""), "terminal");
}

#[test]
fn base64_round_trip_and_tolerance() {
    assert_eq!(decode_base64("aGk="), b"hi".to_vec());
    assert_eq!(decode_base64("aGk"), b"hi".to_vec(), "unpadded input tolerated");
    assert_eq!(decode_base64("!!!"), Vec::<u8>::new(), "garbage decodes to nothing");
    assert_eq!(encode_base64(b"hi"), "aGk=");
}

#[test]
fn base64_gives_back_every_length() {
    for n in 0..20u8 {
        let bytes: Vec<u8> = (0..n).map(|b| b.wrapping_mul(37)).collect();
        assert_eq!(decode_base64(&encode_base64(&bytes)), bytes);
    }
    assert_eq!(pick_decoded(None, Some(vec![1])), vec![1]);
    assert_eq!(pick_decoded(Some(vec![2]), Some(vec![1])), vec![2]);
    assert_eq!(pick_decoded(None, None), Vec::<u8>::new());
}

#[test]
fn exit_message_feeds_cleanly_through_the_emulator() {
    let mut emulator = Emulator::new(40, 4);
    emulator.feed(b"$ done");
    emulator.feed(&exit_message(1));
    assert_eq!(emulator.row_text(1), "[process exited 1]");
}

// ---- the panel ----

fn some(id: &str) -> Option<String> {
    Some(id.to_string())
}

fn opened() -> (TerminalPanel, u64) {
    let mut panel = TerminalPanel::new();
    let start = panel.set_open(true, &some("c"), true).unwrap();
    assert_eq!(start.chat, "c");
    (panel, start.key)
}

fn attached() -> (TerminalPanel, u64) {
    let (mut panel, key) = opened();
    let session = TerminalSession {
        id: "t1".into(),
        cwd: "/w".into(),
        shell: "/bin/zsh".into(),
    };
    assert!(panel.attach_session("c", key, &session));
    (panel, key)
}

#[test]
fn opening_the_panel_makes_one_tab() {
    let (mut panel, key) = opened();
    assert_eq!(key, 1);
    assert_eq!(panel.tab_bar("c").len(), 1);
    assert_eq!(panel.tab_bar("c")[0].title, new_tab_title(1));
    // A second opening finds the tab.
    assert!(panel.set_open(true, &some("c"), true).is_none());
    // Closing keeps it.
    assert!(panel.set_open(false, &some("c"), true).is_none());
    assert_eq!(panel.tab_bar("c").len(), 1);
    // Without an engine nothing starts.
    assert!(panel.set_open(true, &some("d"), false).is_none());
    assert_eq!(panel.tab_bar("d").len(), 0);
}

#[test]
fn a_change_of_selection_makes_the_first_tab_of_an_open_panel() {
    let (mut panel, _) = opened();
    let (changed, start) = panel.on_state_changed(&some("d"), true);
    assert!(changed);
    assert_eq!(start.unwrap().chat, "d");
    let (changed, start) = panel.on_state_changed(&some("d"), true);
    assert!(!changed);
    assert!(start.is_none());
}

#[test]
fn attaching_names_the_tab_after_its_shell() {
    let (panel, _) = attached();
    assert_eq!(panel.tab_bar("c")[0].title, "zsh");
}

#[test]
fn stream_events_reach_the_screen() {
    let (mut panel, key) = attached();
    let (disposition, answer) = panel.apply_stream_event(
        "c",
        key,
        TerminalEvent::Data { seq: 7, data: "aGk=".into() },
    );
    assert_eq!(disposition, StreamDisposition::Continue);
    assert!(answer.is_none());
    assert_eq!(panel.tab_seq_of("c", key), Some(7));
    assert_eq!(panel.active_tab(&some("c")).unwrap().emulator.row_text(0), "hi");
    // A question of the program is answered.
    let (_, answer) = panel.apply_stream_event(
        "c",
        key,
        TerminalEvent::Data { seq: 8, data: encode_base64(b"\x1b[6n") },
    );
    assert!(answer.is_some());
    let (disposition, _) = panel.apply_stream_event(
        "c",
        key,
        TerminalEvent::Exit { seq: 9, exit_code: 130, signal: None },
    );
    assert_eq!(disposition, StreamDisposition::Stop);
    assert!(panel.tab_done("c", key));
    assert_eq!(panel.active_tab(&some("c")).unwrap().exited, Some(130));
}

#[test]
fn events_of_a_closed_tab_stop_the_stream() {
    let (mut panel, key) = attached();
    assert_eq!(panel.close_tab("c", key, true).as_deref(), Some("t1"));
    let (disposition, _) = panel.apply_stream_event(
        "c",
        key,
        TerminalEvent::Data { seq: 1, data: "aGk=".into() },
    );
    assert_eq!(disposition, StreamDisposition::Stop);
    assert!(panel.tab_done("c", key));
}

#[test]
fn typed_bytes_wait_for_one_flush() {
    let (mut panel, key) = opened();
    let flush = panel.queue_input(&some("c"), b"ls").unwrap();
    assert_eq!(flush.key, key);
    // More bytes join the ones that wait.
    assert!(panel.queue_input(&some("c"), b"\r").is_none());
    // The terminal is still being opened.
    assert!(matches!(panel.flush_input("c", key, true), FlushOutcome::Retry));
    let session = TerminalSession {
        id: "t1".into(),
        cwd: "/w".into(),
        shell: "/bin/zsh".into(),
    };
    panel.attach_session("c", key, &session);
    match panel.flush_input("c", key, true) {
        FlushOutcome::Write(write) => {
            assert_eq!(write.terminal_id, "t1");
            assert_eq!(decode_base64(&write.data), b"ls\r".to_vec());
        }
        other => panic!("expected a write, got {other:?}"),
    }
    assert!(matches!(panel.flush_input("c", key, true), FlushOutcome::Nothing));
}

#[test]
fn keys_are_routed() {
    let (mut panel, _) = attached();
    let route = panel.on_key_down(&some("c"), "v", true, false, false, Some(vec![b'v']));
    assert_eq!(route, KeyRoute::Paste);
    let route = panel.on_key_down(&some("c"), "v", false, true, true, None);
    assert_eq!(route, KeyRoute::Paste);
    let route = panel.on_key_down(&some("c"), "v", false, true, false, Some(vec![0x16]));
    assert!(matches!(route, KeyRoute::Typed { flush: Some(_) }));
    let route = panel.on_key_down(&some("c"), "shift", false, false, true, None);
    assert_eq!(route, KeyRoute::Ignored);
}

#[test]
fn a_failed_opening_ends_the_tab() {
    let (mut panel, key) = opened();
    panel.open_failed("c", key, "no pty");
    let tab = panel.active_tab(&some("c")).unwrap();
    assert_eq!(tab.exited, Some(-1));
    let shown: Vec<String> = (0..3).map(|r| tab.emulator.row_text(r)).collect();
    assert!(shown.iter().any(|row| row.contains("no pty")));
    assert!(String::from_utf8(open_failed_message("x")).unwrap().contains('x'));
    // Nothing more is typed into it.
    assert!(panel.queue_input(&some("c"), b"a").is_none());
}

#[test]
fn tabs_are_selected_closed_and_moved() {
    let (mut panel, first) = opened();
    let second = panel.open_tab("c", true).unwrap().key;
    let third = panel.open_tab("c", true).unwrap().key;
    let keys = |p: &TerminalPanel| -> Vec<u64> {
        p.tab_bar("c").iter().map(|chip| chip.key).collect()
    };
    assert_eq!(keys(&panel), [first, second, third]);
    assert!(panel.tab_bar("c")[2].selected);
    assert!(panel.select_tab("c", 0));
    assert!(!panel.select_tab("c", 9));
    panel.commit_reorder("c", 0, 2);
    assert_eq!(keys(&panel), [second, third, first]);
    // The active tab stays active where it went.
    assert!(panel.tab_bar("c")[2].selected);
    panel.close_tab("c", second, true);
    assert_eq!(keys(&panel), [third, first]);
    assert!(panel.tab_bar("c")[1].selected);
}

#[test]
fn a_drag_slides_the_tabs_between() {
    let (mut panel, _) = opened();
    panel.open_tab("c", true);
    panel.open_tab("c", true);
    assert!(panel.update_drag_over(0, 2));
    assert!(!panel.update_drag_over(0, 2));
    let bar = panel.tab_bar("c");
    match bar[1].motion {
        TabMotion::Slides { target, .. } => assert_eq!(target, -1),
        other => panic!("expected a slide, got {other:?}"),
    }
    panel.drop_tab("c", "c", 0);
    assert!(panel.drag.is_none());
    panel.update_drag_over(0, 1);
    panel.heal_drag(false);
    assert!(panel.drag.is_none());
}

#[test]
fn the_view_reports_its_size() {
    let (mut panel, key) = attached();
    let told = panel.on_grid_metrics(&some("c"), 100, 30, true).unwrap();
    assert_eq!(told.key, key);
    // The same size again changes nothing.
    assert!(panel.on_grid_metrics(&some("c"), 100, 30, true).is_none());
    assert_eq!(panel.open_size("c", key), (100, 30));
    let snapshot = panel.active_grid_snapshot(&some("c")).unwrap();
    assert_eq!(snapshot.lines.len(), 30);
    assert!(panel.active_grid_snapshot(&some("x")).is_none());
}

#[test]
fn scrolled_views_pin_to_the_live_screen_on_input() {
    let (mut panel, key) = attached();
    for i in 0..100 {
        panel.apply_stream_event(
            "c",
            key,
            TerminalEvent::Data { seq: i, data: encode_base64(b"row\r\n") },
        );
    }
    assert!(panel.scroll_active(&some("c"), 5));
    assert_eq!(panel.active_tab(&some("c")).unwrap().emulator.display_offset(), 5);
    panel.queue_input(&some("c"), b"x");
    assert_eq!(panel.active_tab(&some("c")).unwrap().emulator.display_offset(), 0);
}

#[test]
fn modes_of_the_active_tab_can_be_asked_for() {
    let (mut panel, key) = attached();
    assert!(!panel.paste_is_bracketed(&some("c")));
    assert!(!panel.cursor_keys_are_application(&some("c")));
    panel.apply_stream_event(
        "c",
        key,
        TerminalEvent::Data { seq: 1, data: encode_base64(b"\x1b[?2004h\x1b[?1h") },
    );
    assert!(panel.paste_is_bracketed(&some("c")));
    assert!(panel.cursor_keys_are_application(&some("c")));
}

#[test]
fn waiting_bytes_are_taken_at_once() {
    let mut waiting = InputCoalescer::new();
    assert!(waiting.is_empty());
    assert!(waiting.push(b"a"));
    assert!(!waiting.push(b"b"));
    assert_eq!(waiting.take(), b"ab".to_vec());
    assert!(waiting.is_empty());
}

// ---- the session of a tab ----

fn zsh() -> TerminalSession {
    TerminalSession { id: "t1".into(), cwd: "/w".into(), shell: "/bin/zsh".into() }
}

#[test]
fn a_session_streams_from_where_it_stopped() {
    let (mut panel, key) = opened();
    let mut session = SessionLoop::new("c", key);
    assert_eq!(session.subscription(&panel), None);
    assert_eq!(session.opened(&mut panel, &zsh()), Opened::Stream);
    assert_eq!(session.subscription(&panel), Some(("t1".to_string(), 0)));
    let (disposition, _) =
        session.frame(&mut panel, TerminalEvent::Data { seq: 5, data: "aGk=".into() });
    assert_eq!(disposition, StreamDisposition::Continue);
    assert_eq!(session.subscription(&panel), Some(("t1".to_string(), 5)));
}

#[test]
fn the_delay_grows_until_a_frame_comes() {
    let (mut panel, key) = opened();
    let mut session = SessionLoop::new("c", key);
    session.opened(&mut panel, &zsh());
    assert_eq!(session.stream_ended(&panel), Some(500));
    assert_eq!(session.stream_ended(&panel), Some(1000));
    assert_eq!(session.subscribe_failed(), 2000);
    session.frame(&mut panel, TerminalEvent::Data { seq: 1, data: "aGk=".into() });
    assert_eq!(session.stream_ended(&panel), Some(500));
    session.frame(&mut panel, TerminalEvent::Exit { seq: 2, exit_code: 0, signal: None });
    assert_eq!(session.stream_ended(&panel), None);
}

#[test]
fn a_terminal_of_a_closed_tab_is_released() {
    let (mut panel, key) = opened();
    let mut session = SessionLoop::new("c", key);
    panel.close_tab("c", key, true);
    assert_eq!(session.opened(&mut panel, &zsh()), Opened::Release);
}

#[test]
fn a_settled_size_goes_to_a_known_terminal() {
    let (panel, key) = opened();
    assert_eq!(panel.settled_size("c", key, None), None);
    assert_eq!(panel.settled_size("c", key, some("t0")), Some(("t0".into(), 80, 24)));
    let (mut panel, key) = attached();
    assert!(panel.on_grid_metrics(&some("c"), 100, 30, true).is_some());
    assert_eq!(panel.settled_size("c", key, None), Some(("t1".into(), 100, 30)));
    assert_eq!(panel.settled_size("other", key, some("t0")), None);
}

#[test]
fn typed_bytes_leave_in_order() {
    let mut input = InputCoalescer::new();
    assert!(input.push(b"ab"));
    assert!(!input.push(b"cd"));
    let mut sent = input.take();
    assert!(input.push(b"e"));
    sent.extend(input.take());
    assert_eq!(sent, b"abcde");
    assert!(input.is_empty());
}
