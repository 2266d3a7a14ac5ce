use crow::ids::{SessionId, Timestamp};
use crow::tui::ChatEntry;
use crow::ui::{
    compute_scroll, epoch_to_civil, format_timestamp, render_history, short_path, short_path_for_picker,
    short_session_id, truncate, Span, Tone,
};

#[test]
fn scroll_follows_the_tail_and_clamps() {
    assert_eq!(compute_scroll(5, 10, 0), 0);
    assert_eq!(compute_scroll(100, 10, 0), 90);
    assert_eq!(compute_scroll(100, 10, 5), 85);
    assert_eq!(compute_scroll(100, 10, 500), 0);
}

#[test]
fn truncate_respects_display_width() {
    assert_eq!(truncate("short", 60), "short");
    assert_eq!(truncate("abcdef", 4), "abc…");
    assert_eq!(truncate("日本語テキスト", 6), "日本…");
    assert_eq!(truncate("abc", 0), "…");
}

#[test]
fn paths_keep_their_tail() {
    assert_eq!(short_path("/tmp/a.jsonl"), "/tmp/a.jsonl");
    let long = format!("/{}/session.jsonl", "d".repeat(60));
    let s = short_path(&long);
    assert!(s.starts_with('…'));
    assert_eq!(s.len(), '…'.len_utf8() + 47);
    assert!(s.ends_with("/session.jsonl"));
    let p = short_path_for_picker(&long);
    assert_eq!(p.len(), '…'.len_utf8() + 39);
}

#[test]
fn session_ids_are_cut_to_eight_characters() {
    assert_eq!(short_session_id(&SessionId(0)), "00000000");
}

#[test]
fn civil_time_matches_known_dates() {
    assert_eq!(epoch_to_civil(0), "1970-01-01T00:00:00Z");
    assert_eq!(epoch_to_civil(1_700_000_000), "2023-11-14T22:13:20Z");
    assert_eq!(epoch_to_civil(951_782_400), "2000-02-29T00:00:00Z");
    assert_eq!(epoch_to_civil(253_402_300_799), "9999-12-31T23:59:59Z");
    assert_eq!(format_timestamp(Timestamp(1_700_000_000_999)), "2023-11-14T22:13:20Z");
}

#[test]
fn history_renders_entry_by_entry() {
    let span = |t: &str, tone: Tone| Span { text: t.to_string(), tone, bold: false, italic: false };
    let history = vec![
        ChatEntry::UserMessage("hi".into()),
        ChatEntry::AssistantText("a\nb".into()),
        ChatEntry::ToolCard {
            name: "read".into(),
            args: serde_json::from_str("{\"path\":\"x\"}").unwrap(),
            output: "done".into(),
            is_error: false,
            truncated: true,
            stdout: String::new(),
            stderr: "warn".into(),
        },
        ChatEntry::StatusLine("note".into()),
    ];
    let lines = render_history(&history);
    let blank = vec![span("", Tone::Plain)];
    assert_eq!(lines[0], vec![span(" ❯ ", Tone::Green), span("hi", Tone::White)]);
    assert_eq!(lines[1], blank);
    assert_eq!(lines[2], vec![span("a", Tone::White)]);
    assert_eq!(lines[3], vec![span("b", Tone::White)]);
    assert_eq!(lines[4], blank);
    assert_eq!(
        lines[5],
        vec![
            span(" ✓ ", Tone::Green),
            Span { text: "read".into(), tone: Tone::Cyan, bold: true, italic: false },
            span("({\"path\":\"x\"})", Tone::DarkGray),
        ]
    );
    assert_eq!(lines[6], vec![span("    ⎿ warn", Tone::Yellow)]);
    assert_eq!(lines[7], vec![span("    ↳ done", Tone::DarkGray)]);
    assert_eq!(lines[8], vec![Span { text: "    … (output truncated)".into(), tone: Tone::Yellow, bold: false, italic: true }]);
    assert_eq!(lines[9], blank);
    assert_eq!(lines[10], vec![span(" note", Tone::DarkGray)]);
    assert_eq!(lines.len(), 11);
}
