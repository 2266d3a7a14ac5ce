use crow::read::{
    apply_offset_limit, format_lines, looks_binary, read_file_outcome, render_read_output,
    truncate_to_bytes, ReadArgs, ReadTool,
};
use crow::tool::{ToolError, ToolOutcome};

#[test]
fn format_lines_adds_one_based_prefix() {
    let s = format_lines("a\nb\nc\n", 0);
    assert_eq!(s, "     1\ta\n     2\tb\n     3\tc\n\n");
}

#[test]
fn format_lines_honours_start_offset() {
    let s = format_lines("a\nb\n", 9);
    assert_eq!(s, "    10\ta\n    11\tb\n\n");
}

#[test]
fn apply_offset_limit_truncates_by_lines() {
    let text = "l1\nl2\nl3\nl4\n";
    let (out, start) = apply_offset_limit(text, Some(1), Some(2));
    assert_eq!(out, "l2\nl3");
    assert_eq!(start, 1);
}

#[test]
fn apply_offset_limit_returns_empty_for_past_eof() {
    let text = "l1\nl2\n";
    let (out, start) = apply_offset_limit(text, Some(99), None);
    assert_eq!(out, "");
    assert_eq!(start, 99);
}

#[test]
fn truncate_to_bytes_preserves_char_boundaries() {
    let s = "héllo";
    let (out, truncated) = truncate_to_bytes(s, 3);
    assert!(truncated);
    assert!(out.starts_with('h'));
    assert!(out.ends_with("…[truncated]"));
}

#[test]
fn truncate_to_bytes_no_op_when_under_limit() {
    let s = "hello";
    let (out, truncated) = truncate_to_bytes(s, 100);
    assert_eq!(out, "hello");
    assert!(!truncated);
}

#[test]
fn looks_binary_returns_true_for_nul_bytes() {
    let mut bytes = vec![b'a'; 100];
    bytes[50] = 0;
    assert!(looks_binary(&bytes));
}

#[test]
fn looks_binary_returns_false_for_ascii() {
    assert!(!looks_binary(b"hello world\n"));
}

#[test]
fn tool_name_is_read() {
    assert_eq!(ReadTool.name(), "read");
    assert!(!ReadTool.description().is_empty());
}

#[test]
fn looks_binary_ignores_nul_past_the_sniff_window() {
    let mut bytes = vec![b'a'; 9000];
    bytes[8500] = 0;
    assert!(!looks_binary(&bytes));
    bytes[8191] = 0;
    assert!(looks_binary(&bytes));
}

#[test]
fn truncate_to_bytes_cuts_exactly_at_the_limit() {
    let (out, truncated) = truncate_to_bytes("abcdef", 4);
    assert_eq!(out, "abcd\n…[truncated]");
    assert!(truncated);
    let (out, truncated) = truncate_to_bytes("héllo", 2);
    assert_eq!(out, "h\n…[truncated]");
    assert!(truncated);
}

#[test]
fn format_lines_of_empty_text_is_empty() {
    assert_eq!(format_lines("", 0), "");
    assert_eq!(format_lines("x", 0), "     1\tx\n");
}

#[test]
fn format_lines_widens_labels_past_six_digits() {
    let s = format_lines("a\n", 9_999_999);
    assert_eq!(s, "10000000\ta\n\n");
}

#[test]
fn apply_offset_limit_keeps_trailing_newline_without_limit() {
    let (out, start) = apply_offset_limit("l1\nl2\nl3\n", Some(1), None);
    assert_eq!(out, "l2\nl3\n");
    assert_eq!(start, 1);
    let (out, start) = apply_offset_limit("l1\nl2", None, Some(10));
    assert_eq!(out, "l1\nl2");
    assert_eq!(start, 0);
}

#[test]
fn render_read_output_numbers_and_caps() {
    let (out, truncated) = render_read_output("one\ntwo\nthree\n", Some(1), Some(1), 1024);
    assert_eq!(out, "     2\ttwo\n");
    assert!(!truncated);
    let (out, truncated) = render_read_output("one\ntwo\n", None, None, 5);
    assert_eq!(out, "     \n…[truncated]");
    assert!(truncated);
}

#[test]
fn read_file_outcome_rejects_binary_bytes() {
    let args = ReadArgs { path: "x.bin".to_string(), offset: None, limit: None };
    let r = read_file_outcome("/root/x.bin".to_string(), &[1, 0, 2], &args, 1024);
    match r {
        Err(ToolError::Binary(p)) => assert_eq!(p, "/root/x.bin"),
        other => panic!("expected Binary, got {other:?}"),
    }
}

#[test]
fn read_file_outcome_decodes_lossily_and_formats() {
    let args = ReadArgs { path: "x.txt".to_string(), offset: None, limit: None };
    let r = read_file_outcome("x.txt".to_string(), b"fn main() {}\n", &args, 1024);
    assert_eq!(
        r.unwrap(),
        ToolOutcome::Success { output: "     1\tfn main() {}\n\n".to_string(), truncated: false }
    );
    let r = read_file_outcome("y.txt".to_string(), &[b'a', 0xff, b'b'], &args, 1024);
    assert_eq!(
        r.unwrap(),
        ToolOutcome::Success { output: "     1\ta\u{fffd}b\n".to_string(), truncated: false }
    );
}
