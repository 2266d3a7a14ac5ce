use crow::event::{AgentEvent, ErrorCode, ToolOutcome as EventOutcome, ToolStream};
use crow::ids::{MessageId, RunId, SessionId, Timestamp, ToolCallId};
use crow::message::{Message, Part, Role};
use crow::tui::{
    resolve_session_prefix, short_args, App, ChatEntry, KeyCode, KeyModifiers, PickerEntry, RunPhase, SLASH_HELP,
};

fn app() -> App {
    App::new("test-model".to_string(), "/tmp/s.jsonl".to_string(), Vec::new())
}

fn none() -> KeyModifiers {
    KeyModifiers { shift: false, control: false, alt: false, other: false }
}

fn ctrl() -> KeyModifiers {
    KeyModifiers { shift: false, control: true, alt: false, other: false }
}

fn text_of(e: &ChatEntry) -> String {
    match e {
        ChatEntry::UserMessage(t) | ChatEntry::AssistantText(t) | ChatEntry::Reasoning(t) | ChatEntry::StatusLine(t) => t.clone(),
        ChatEntry::ToolCard { output, .. } => output.clone(),
    }
}

#[test]
fn streamed_text_merges_into_one_entry() {
    let mut a = app();
    a.apply_event(AgentEvent::RunStarted { run_id: RunId(1), session_id: SessionId(9), started_at: Timestamp(0) });
    assert_eq!(a.phase, RunPhase::Running);
    assert_eq!(a.session_id, SessionId(9));
    a.apply_event(AgentEvent::TextDelta { text: "Hel".into() });
    a.apply_event(AgentEvent::TextDelta { text: "lo".into() });
    a.apply_event(AgentEvent::ReasoningDelta { text: "hm".into() });
    a.apply_event(AgentEvent::TextDelta { text: "!".into() });
    assert_eq!(a.history.len(), 3);
    assert_eq!(text_of(&a.history[0]), "Hello");
    assert!(matches!(a.history[1], ChatEntry::Reasoning(_)));
    assert_eq!(text_of(&a.history[2]), "!");
    a.apply_event(AgentEvent::RunFinished { message: "done".into() });
    assert_eq!(a.phase, RunPhase::Done);
}

#[test]
fn tool_events_become_a_card() {
    let mut a = app();
    let id = ToolCallId(5);
    let args: serde_json::Value = serde_json::from_str("{\"path\":\"/tmp/x\"}").unwrap();
    a.apply_event(AgentEvent::ToolStarted { call_id: id, name: "read".into(), args: args.clone() });
    assert_eq!(text_of(&a.history[0]), "  ▷ read({\"path\":\"/tmp/x\"})");
    a.apply_event(AgentEvent::ToolOutput { call_id: id, stream: ToolStream::Stdout, chunk: b"out".to_vec() });
    a.apply_event(AgentEvent::ToolOutput { call_id: id, stream: ToolStream::Stderr, chunk: b"err".to_vec() });
    a.apply_event(AgentEvent::ToolOutput { call_id: ToolCallId(99), stream: ToolStream::Stdout, chunk: b"lost".to_vec() });
    a.apply_event(AgentEvent::ToolFinished {
        call_id: id,
        result: EventOutcome::Error { code: ErrorCode("tool_error".into()), message: "boom".into(), truncated: false },
    });
    assert_eq!(a.history.len(), 2);
    match &a.history[1] {
        ChatEntry::ToolCard { name, args: card_args, output, is_error, truncated, stdout, stderr } => {
            assert_eq!(name, "read");
            assert_eq!(card_args, &args);
            assert_eq!(output, "boom");
            assert!(*is_error);
            assert!(!*truncated);
            assert_eq!(stdout, "out");
            assert_eq!(stderr, "err");
        }
        other => panic!("expected a card, got {other:?}"),
    }
    assert!(a.in_flight_tools.is_empty());
    a.apply_event(AgentEvent::ToolFinished {
        call_id: id,
        result: EventOutcome::Success { output: "again".into(), truncated: false },
    });
    assert_eq!(a.history.len(), 2, "a second finish for the same call shows nothing");
}

#[test]
fn run_failure_sets_the_status_error() {
    let mut a = app();
    a.apply_event(AgentEvent::RunFailed { code: ErrorCode("max_turns".into()), retryable: true, message: "too long".into() });
    assert_eq!(a.phase, RunPhase::Failed);
    assert_eq!(a.last_error.as_deref(), Some("max_turns (retryable): too long"));
    a.apply_event(AgentEvent::RunCancelled);
    assert_eq!(a.phase, RunPhase::Cancelled);
}

#[test]
fn worker_loss_fails_a_running_run() {
    let mut a = app();
    a.phase = RunPhase::Running;
    a.mark_worker_gone();
    assert!(!a.worker_alive);
    assert_eq!(a.phase, RunPhase::Failed);
    assert_eq!(a.last_error.as_deref(), Some("worker connection lost"));
    let mut b = app();
    b.mark_worker_gone();
    assert_eq!(b.phase, RunPhase::Idle);
}

#[test]
fn resumed_history_is_replayed() {
    let id = ToolCallId(1);
    let history = vec![
        Message { id: MessageId(1), role: Role::User, parts: vec![Part::Text { text: "hi".into() }] },
        Message {
            id: MessageId(2),
            role: Role::Assistant,
            parts: vec![
                Part::Text { text: "let me look".into() },
                Part::ToolCall { id, name: "read".into(), args: serde_json::Value::Null },
            ],
        },
        Message {
            id: MessageId(3),
            role: Role::ToolResult,
            parts: vec![Part::ToolResult { call_id: id, output: "contents".into(), is_error: false, truncated: true, display: None }],
        },
    ];
    let a = App::new("m".into(), "p".into(), history);
    assert_eq!(a.history.len(), 3);
    assert!(matches!(a.history[0], ChatEntry::UserMessage(ref t) if t == "hi"));
    assert!(matches!(a.history[1], ChatEntry::AssistantText(ref t) if t == "let me look"));
    assert!(matches!(a.history[2], ChatEntry::ToolCard { ref output, truncated: true, .. } if output == "contents"));
}

#[test]
fn keys_drive_the_model() {
    let mut a = app();
    assert!(!a.handle_key(KeyCode::Enter, none(), false));
    assert!(a.take_submit());
    assert!(!a.take_submit());
    assert!(a.handle_key(KeyCode::Enter, KeyModifiers { shift: true, ..none() }, false));
    assert!(a.handle_key(KeyCode::Char('x'), none(), false));
    assert!(!a.handle_key(KeyCode::PageUp, none(), false));
    assert_eq!(a.scroll_back, 10);
    assert!(!a.following_tail);
    a.handle_key(KeyCode::PageDown, none(), false);
    assert_eq!(a.scroll_back, 0);
    assert!(a.following_tail);
    a.phase = RunPhase::Running;
    assert!(!a.handle_key(KeyCode::Esc, none(), false));
    assert_eq!(a.phase, RunPhase::Cancelled);
    assert_eq!(a.last_error.as_deref(), Some("interrupted"));
    assert!(a.handle_key(KeyCode::Char('d'), ctrl(), false), "Ctrl+D with text goes to the editor");
    assert!(!a.should_quit());
    a.handle_key(KeyCode::Char('c'), ctrl(), false);
    assert!(a.should_quit());
}

#[test]
fn picker_keys_select_and_resume() {
    let mut a = app();
    let entry = |id: &str| PickerEntry { session_id: id.into(), started_at: String::new(), path_tail: String::new() };
    a.open_picker(vec![entry("a"), entry("b"), entry("c")]);
    assert!(a.picker_is_open());
    a.handle_key(KeyCode::Down, none(), false);
    a.handle_key(KeyCode::Char('j'), none(), false);
    a.handle_key(KeyCode::Down, none(), false);
    assert_eq!(a.picker.as_ref().unwrap().selected, 2);
    a.handle_key(KeyCode::Char('k'), none(), false);
    assert!(!a.handle_key(KeyCode::Enter, none(), true));
    assert_eq!(a.pending_resume.as_deref(), Some("b"));
    assert!(a.should_quit());
    assert!(!a.picker_is_open());
}

#[test]
fn local_slash_commands_add_status_lines() {
    let mut a = app();
    a.record_user_message("hello");
    a.apply_local_slash("model", "");
    assert_eq!(text_of(&a.history[1]), "current model: test-model");
    a.apply_local_slash("help", "");
    assert_eq!(text_of(&a.history[2]), SLASH_HELP);
    a.apply_local_slash("doctor", "");
    assert_eq!(text_of(&a.history[3]), "model=test-model session=\"/tmp/s.jsonl\"");
    a.apply_local_slash("resume", "01AB");
    assert_eq!(text_of(&a.history[4]), "resume: use `crow tui --resume 01AB` from the shell");
    a.apply_local_slash("frobnicate", "");
    assert_eq!(a.history.len(), 5);
    a.apply_local_slash("clear", "");
    assert!(a.history.is_empty());
}

#[test]
fn spinner_moves_only_while_running() {
    let mut a = app();
    assert!(!a.spinner_needs_tick(500));
    a.phase = RunPhase::Running;
    assert!(!a.spinner_needs_tick(100));
    assert!(a.spinner_needs_tick(120));
    assert_eq!(a.spinner_frame, 1);
}

#[test]
fn short_args_clips_wide_arguments() {
    let small: serde_json::Value = serde_json::from_str("{\"a\":1}").unwrap();
    assert_eq!(short_args(&small), "{\"a\":1}");
    let long = format!("\"{}\"", "x".repeat(100));
    let big: serde_json::Value = serde_json::from_str(&long).unwrap();
    let s = short_args(&big);
    assert_eq!(s.chars().count(), 58);
    assert!(s.ends_with('…'));
}

#[test]
fn session_prefixes_resolve_uniquely() {
    let ids = vec!["01ABC".to_string(), "01ABD".to_string(), "02XYZ".to_string()];
    assert_eq!(resolve_session_prefix(&ids, "02"), Ok(2));
    assert_eq!(
        resolve_session_prefix(&ids, "01AB"),
        Err("session id prefix \"01AB\" matched 2 sessions; be more specific".to_string())
    );
    assert_eq!(resolve_session_prefix(&ids, "9"), Err("no session matched \"9\"".to_string()));
}

#[test]
fn doctor_shows_the_session_path_as_a_path() {
    let mut a = App::new("m".to_string(), "/tmp/it's.jsonl".to_string(), Vec::new());
    a.apply_local_slash("doctor", "");
    assert_eq!(text_of(&a.history[0]), format!("model=m session={:?}", std::path::PathBuf::from("/tmp/it's.jsonl")));
}
