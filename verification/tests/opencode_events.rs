use crow::mcp::{mcp_route, McpRoute, OpencodeEvent};

#[test]
fn parses_text_delta() {
    let line = r#"{"type":"text_delta","text":"hello"}"#;
    match OpencodeEvent::parse_line(line).expect("parse") {
        OpencodeEvent::TextDelta { text } => assert_eq!(text, "hello"),
        other => panic!("expected TextDelta, got {other:?}"),
    }
}

#[test]
fn parses_done() {
    let line = r#"{"type":"done","message":"all good"}"#;
    match OpencodeEvent::parse_line(line).expect("parse") {
        OpencodeEvent::Done { message } => assert_eq!(message, "all good"),
        other => panic!("expected Done, got {other:?}"),
    }
}

#[test]
fn parses_tool_call_and_result() {
    let call = r#"{"type":"tool_call","id":"c1","name":"read","args":{"path":"x"}}"#;
    let res = r#"{"type":"tool_result","id":"c1","output":"...","error":false}"#;
    assert!(matches!(OpencodeEvent::parse_line(call), Some(OpencodeEvent::ToolCall { .. })));
    assert!(matches!(OpencodeEvent::parse_line(res), Some(OpencodeEvent::ToolResult { .. })));
}

#[test]
fn unknown_event_kind_falls_through() {
    let line = r#"{"type":"something_new","whatever":42}"#;
    assert!(matches!(OpencodeEvent::parse_line(line), Some(OpencodeEvent::Unknown)));
}

#[test]
fn non_object_line_is_rejected() {
    assert!(OpencodeEvent::parse_line("   ▄").is_none());
    assert!(OpencodeEvent::parse_line("hello world").is_none());
    assert!(OpencodeEvent::parse_line("42").is_none());
}

#[test]
fn is_terminal_recognises_done_and_error() {
    let done = r#"{"type":"done","message":"x"}"#;
    let err = r#"{"type":"error","message":"x"}"#;
    let txt = r#"{"type":"text_delta","text":"x"}"#;
    assert!(OpencodeEvent::parse_line(done).unwrap().is_terminal());
    assert!(OpencodeEvent::parse_line(err).unwrap().is_terminal());
    assert!(!OpencodeEvent::parse_line(txt).unwrap().is_terminal());
}

#[test]
fn tool_result_error_flag_defaults_and_must_be_boolean() {
    match OpencodeEvent::parse_line(r#"{"type":"tool_result","id":"c","output":"o"}"#) {
        Some(OpencodeEvent::ToolResult { id, output, error }) => {
            assert_eq!(id, "c");
            assert_eq!(output, "o");
            assert!(!error);
        }
        other => panic!("expected ToolResult, got {other:?}"),
    }
    assert!(matches!(
        OpencodeEvent::parse_line(r#"{"type":"tool_result","id":"c","output":"o","error":"yes"}"#),
        Some(OpencodeEvent::Unknown)
    ));
    assert!(matches!(
        OpencodeEvent::parse_line(r#"{"type":"tool_call","id":"c","name":"n"}"#),
        Some(OpencodeEvent::Unknown)
    ));
    assert!(matches!(OpencodeEvent::parse_line(r#"{"kind":"done"}"#), Some(OpencodeEvent::Unknown)));
}

#[test]
fn mcp_methods_route_by_name_and_id() {
    assert_eq!(mcp_route("initialize", true), McpRoute::Initialize);
    assert_eq!(mcp_route("initialize", false), McpRoute::Silent);
    assert_eq!(mcp_route("notifications/initialized", true), McpRoute::Silent);
    assert_eq!(mcp_route("ping", true), McpRoute::Ping);
    assert_eq!(mcp_route("tools/list", true), McpRoute::ToolsList);
    assert_eq!(mcp_route("tools/call", true), McpRoute::ToolsCall);
    assert_eq!(mcp_route("tools/call", false), McpRoute::Silent);
    assert_eq!(mcp_route("frobnicate", true), McpRoute::UnknownMethod("unknown method: frobnicate".to_string()));
}
