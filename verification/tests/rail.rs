use comet_ui::model::{MessagePart, MessageRole, SessionMessageEntry};
use comet_ui::rail::{active_tick, rail_marks, rail_ticks, truncate_preview};

fn entry(id: &str, role: MessageRole, text: &str) -> SessionMessageEntry {
    SessionMessageEntry {
        id: id.into(),
        role,
        parts: vec![MessagePart::Text { text: text.into() }],
        created_at: 0,
        device_id: "d".into(),
        status: Some("complete".into()),
        continuation_of: None,
    }
}

#[test]
fn ticks_map_user_prompts_with_reply_openings() {
    let entries = vec![
        entry("u1", MessageRole::User, "first question"),
        entry("a1", MessageRole::Assistant, "first answer"),
        entry("u2", MessageRole::User, "second question"),
        entry("a2", MessageRole::Assistant, "second answer"),
    ];
    let ticks = rail_ticks(&entries, &[]);
    assert_eq!(ticks.len(), 2);
    assert_eq!(ticks[0].message_id, "u1");
    assert_eq!(ticks[0].prompt, "first question");
    assert_eq!(ticks[0].reply.as_deref(), Some("first answer"));
    assert_eq!(ticks[1].reply.as_deref(), Some("second answer"));
}

#[test]
fn ticks_include_echoes_deduped() {
    let entries = vec![entry("u1", MessageRole::User, "sent")];
    let echoes = vec![
        entry("u1", MessageRole::User, "sent"), // confirmed already
        entry("u2", MessageRole::User, "pending"),
    ];
    let ticks = rail_ticks(&entries, &echoes);
    assert_eq!(ticks.len(), 2);
    assert_eq!(ticks[1].message_id, "u2");
    assert_eq!(ticks[1].reply, None);
}

#[test]
fn tick_without_reply_yet() {
    let entries = vec![
        entry("u1", MessageRole::User, "q"),
        entry("a1", MessageRole::Assistant, "reply to first"),
        entry("u2", MessageRole::User, "latest"),
    ];
    let ticks = rail_ticks(&entries, &[]);
    // The last prompt has no assistant entry after it.
    assert_eq!(ticks[1].reply, None);
    // An empty transcript has no ticks.
    assert!(rail_ticks(&[], &[]).is_empty());
}

#[test]
fn echoes_of_an_echo_add_no_second_tick() {
    let echoes = vec![
        entry("u1", MessageRole::User, "one"),
        entry("u1", MessageRole::User, "again"),
        entry("a1", MessageRole::Assistant, "not a prompt"),
    ];
    let ticks = rail_ticks(&[], &echoes);
    assert_eq!(ticks.len(), 1);
    assert_eq!(ticks[0].prompt, "one");
}

#[test]
fn active_tick_tracks_viewport_top() {
    let tick_rows = [0, 5, 9];
    assert_eq!(active_tick(&tick_rows, 0), Some(0));
    assert_eq!(active_tick(&tick_rows, 4), Some(0));
    assert_eq!(active_tick(&tick_rows, 5), Some(1));
    assert_eq!(active_tick(&tick_rows, 8), Some(1));
    assert_eq!(active_tick(&tick_rows, 100), Some(2));
    // Above the first tick row the first tick is still active.
    assert_eq!(active_tick(&[3, 7], 1), Some(0));
    assert_eq!(active_tick(&[], 4), None);
}

#[test]
fn preview_truncation() {
    assert_eq!(truncate_preview("short", 10), "short");
    assert_eq!(truncate_preview("  padded  ", 10), "padded");
    let long = "x".repeat(50);
    let cut = truncate_preview(&long, 10);
    assert!(cut.chars().count() <= 10);
    assert!(cut.ends_with('…'));
    // Letters of several bytes.
    let uni = "héllo wörld attaché case overflowing";
    let cut = truncate_preview(uni, 12);
    assert!(cut.ends_with('…'));
    assert_eq!(cut, "héllo wörld…");
}

#[test]
fn a_preview_of_nothing_is_a_mark() {
    assert_eq!(truncate_preview("abc", 0), "…");
    assert_eq!(truncate_preview("abc", 1), "…");
    assert_eq!(truncate_preview("a   b", 3), "a…");
    assert_eq!(truncate_preview("", 0), "");
}

#[test]
fn marks_point_at_their_rows() {
    let entries = vec![
        entry("u1", MessageRole::User, "first question"),
        entry("a1", MessageRole::Assistant, "first answer"),
        entry("u2", MessageRole::User, "second question"),
        entry("u3", MessageRole::User, "not shown yet"),
    ];
    let ticks = rail_ticks(&entries, &[]);
    let rows: Vec<String> = ["u1", "a1", "u2"].iter().map(|id| id.to_string()).collect();
    let marks = rail_marks(true, &ticks, &rows, 1, Some(1));
    assert_eq!(marks.len(), 2);
    assert_eq!((marks[0].row, marks[0].active, marks[0].hovered), (0, true, false));
    assert_eq!((marks[1].row, marks[1].active, marks[1].hovered), (2, false, true));
    assert_eq!(marks[0].prompt, "first question");
    assert_eq!(marks[0].reply.as_deref(), Some("first answer"));
    // A single mark is no rail, and a rail can be off.
    assert!(rail_marks(true, &ticks, &rows[..1], 0, None).is_empty());
    assert!(rail_marks(false, &ticks, &rows, 0, None).is_empty());
}
