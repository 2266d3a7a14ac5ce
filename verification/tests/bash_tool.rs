use crow::bash::{command_outcome, effective_timeout_ms, BashArgs, BashTool, Captured, CommandEnd};
use crow::tool::{ToolContext, ToolOutcome};

fn ctx() -> ToolContext {
    ToolContext { project_root: "/tmp".into(), max_output_bytes: 4096, command_timeout_ms: 30_000 }
}

#[test]
fn bash_tool_identity() {
    assert_eq!(BashTool.name(), "bash");
    assert!(BashTool.description().contains("/bin/sh -c"));
}

#[test]
fn timeout_defaults_to_the_context() {
    let args = BashArgs { command: "ls".into(), timeout_ms: None };
    assert_eq!(effective_timeout_ms(&args, &ctx()), 30_000);
    let args = BashArgs { command: "ls".into(), timeout_ms: Some(5) };
    assert_eq!(effective_timeout_ms(&args, &ctx()), 5);
}

#[test]
fn capture_stops_at_the_byte_cap_with_a_marker() {
    let mut c = Captured::new(8);
    c.push_line("abc");
    c.push_line("defg");
    assert_eq!(c.body, "abc\n…[truncated]\n");
    assert!(c.truncated);
    c.push_line("x");
    assert_eq!(c.body, "abc\n…[truncated]\n");
    let mut d = Captured::new(8);
    d.push_line("abc");
    d.push_line("def");
    assert_eq!(d.body, "abc\ndef\n");
    assert!(!d.truncated);
}

#[test]
fn echoes_input() {
    let mut out = Captured::new(4096);
    out.push_line("hello");
    let err = Captured::new(4096);
    let o = command_outcome(&out, &err, CommandEnd::Exited { success: true, code: Some(0) });
    match o {
        ToolOutcome::Success { output, .. } => assert!(output.contains("hello")),
        other => panic!("expected Success, got {other:?}"),
    }
}

#[test]
fn nonzero_exit_is_reported() {
    let out = Captured::new(4096);
    let err = Captured::new(4096);
    let o = command_outcome(&out, &err, CommandEnd::Exited { success: false, code: Some(1) });
    match o {
        ToolOutcome::Success { output, .. } => assert!(output.contains("exit code 1")),
        other => panic!("expected Success with exit code, got {other:?}"),
    }
}

#[test]
fn outcome_joins_streams_and_notes_the_end() {
    let mut out = Captured::new(4096);
    out.push_line("o");
    let mut err = Captured::new(3);
    err.push_line("long line");
    let o = command_outcome(&out, &err, CommandEnd::TimedOut { timeout_ms: 2500 });
    assert_eq!(
        o,
        ToolOutcome::Success { output: "o\n…[truncated]\n\n[command killed after 2s timeout]".into(), truncated: true }
    );
    let o = command_outcome(&Captured::new(1), &Captured::new(1), CommandEnd::Exited { success: false, code: None });
    assert_eq!(o, ToolOutcome::Success { output: "\n[exit code -1]".into(), truncated: false });
}
