use crow::event::{AgentEvent, ErrorCode, StopReason, Usage};
use crow::ids::{new_id, ToolCallId};
use crow::stream::{decode_tool_args, ProviderChunk, StreamAccumulator, StreamError};

fn call_id() -> ToolCallId {
    ToolCallId(new_id())
}

fn json(text: &str) -> serde_json::Value {
    serde_json::from_str(text).expect("valid JSON in test")
}

#[test]
fn text_delta_emits_one_event_per_chunk() {
    let mut acc = StreamAccumulator::new();
    let out = acc.push_chunk(ProviderChunk::TextDelta { text: "Hel".into() }).expect("text delta should be valid");
    assert_eq!(out, vec![AgentEvent::TextDelta { text: "Hel".into() }], "TextDelta must surface its text verbatim");
    let out = acc.push_chunk(ProviderChunk::TextDelta { text: "lo".into() }).expect("text delta should be valid");
    assert_eq!(out, vec![AgentEvent::TextDelta { text: "lo".into() }]);
    assert_eq!(acc.text(), "Hello");
}

#[test]
fn reasoning_delta_emits_one_event_per_chunk() {
    let mut acc = StreamAccumulator::new();
    let out = acc
        .push_chunk(ProviderChunk::ReasoningDelta { text: "thinking ".into() })
        .expect("reasoning delta should be valid");
    assert_eq!(out, vec![AgentEvent::ReasoningDelta { text: "thinking ".into() }]);
    assert_eq!(acc.reasoning(), "thinking ");
}

#[test]
fn tool_call_complete_concatenates_json_fragments() {
    let mut acc = StreamAccumulator::new();
    let cid = call_id();
    let out = acc
        .push_chunk(ProviderChunk::ToolCallStart { call_id: cid, name: "shell".into() })
        .expect("start should be accepted");
    assert!(out.is_empty(), "ToolCallStart must NOT emit an event yet");
    assert_eq!(acc.pending_len(), 1, "tool call must be pending");
    for frag in ["{\"na", "me\":\"shi", "nya\"}"] {
        let out = acc
            .push_chunk(ProviderChunk::ToolArgumentsDelta { call_id: cid, fragment: frag.into() })
            .expect("delta should append");
        assert!(out.is_empty(), "delta must not emit an event");
    }
    let out = acc.push_chunk(ProviderChunk::ToolCallComplete { call_id: cid }).expect("complete should parse");
    assert_eq!(
        out,
        vec![AgentEvent::ToolStarted { call_id: cid, name: "shell".into(), args: json("{\"name\": \"shinya\"}") }],
    );
    assert_eq!(acc.pending_len(), 0, "tool call must be cleared");
}

#[test]
fn tool_call_with_no_args_delta_emits_null() {
    let mut acc = StreamAccumulator::new();
    let cid = call_id();
    acc.push_chunk(ProviderChunk::ToolCallStart { call_id: cid, name: "noop".into() }).expect("start accepted");
    let out = acc.push_chunk(ProviderChunk::ToolCallComplete { call_id: cid }).expect("complete accepted");
    assert_eq!(
        out,
        vec![AgentEvent::ToolStarted { call_id: cid, name: "noop".into(), args: serde_json::Value::Null }],
        "empty args_buf must round-trip as Null",
    );
}

#[test]
fn utf8_variant_has_stable_display_message() {
    let err = StreamError::Utf8;
    let msg = err.message();
    assert_eq!(msg, "UTF-8 boundary error in stream", "Utf8 display message is pinned to the spec verbatim");
    let debug = format!("{err:?}");
    assert!(debug.contains("Utf8"), "Debug impl must name the variant, got {debug}");
}

#[test]
fn utf8_via_byte_path_rejected() {
    let bad: Vec<u8> = vec![0xC3, 0x28];
    let s = std::str::from_utf8(&bad).map_err(|_| StreamError::Utf8);
    assert!(matches!(s, Err(StreamError::Utf8)), "byte-level conversion must surface Utf8 on invalid input");
    let good = "héllo".as_bytes().to_vec();
    let s = std::str::from_utf8(&good).map_err(|_| StreamError::Utf8);
    assert!(s.is_ok(), "valid UTF-8 must convert cleanly");
}

#[test]
fn double_completed_returns_error_on_second() {
    let mut acc = StreamAccumulator::new();
    let usage = Usage { input_tokens: 1, output_tokens: 2 };
    let first = acc
        .push_chunk(ProviderChunk::Completed { usage, stop_reason: StopReason::EndTurn })
        .expect("first Completed should succeed");
    assert_eq!(first, vec![AgentEvent::ModelFinished { usage, stop_reason: StopReason::EndTurn }]);
    let second = acc.push_chunk(ProviderChunk::Completed {
        usage: Usage { input_tokens: 0, output_tokens: 0 },
        stop_reason: StopReason::EndTurn,
    });
    assert!(matches!(second, Err(StreamError::DoubleCompleted)), "second Completed must surface DoubleCompleted, got {second:?}");
}

#[test]
fn finish_without_completed_errors() {
    let mut acc = StreamAccumulator::new();
    let result = acc.finish();
    assert!(matches!(result, Err(StreamError::Invalid(_))), "finish on empty stream must error, got {result:?}");
}

#[test]
fn finish_with_pending_tool_call_returns_error() {
    let mut acc = StreamAccumulator::new();
    let cid = call_id();
    acc.push_chunk(ProviderChunk::ToolCallStart { call_id: cid, name: "shell".into() }).expect("start accepted");
    match acc.finish() {
        Err(StreamError::PendingToolCall(dangling)) => assert_eq!(dangling, cid, "error must carry the dangling call_id"),
        other => panic!("expected PendingToolCall, got {other:?}"),
    }
}

#[test]
fn failed_emits_run_failed_with_spec_field_order() {
    let mut acc = StreamAccumulator::new();
    let out = acc
        .push_chunk(ProviderChunk::Failed {
            code: "stream_invalid".into(),
            message: "upstream said no".into(),
            retryable: true,
        })
        .expect("Failed should be accepted");
    assert_eq!(
        out,
        vec![AgentEvent::RunFailed {
            code: ErrorCode("stream_invalid".into()),
            retryable: true,
            message: "upstream said no".into(),
        }],
    );
    let follow_up = acc.push_chunk(ProviderChunk::TextDelta { text: "ignored".into() });
    assert!(matches!(follow_up, Err(StreamError::Invalid(_))), "post-terminal chunks must error, got {follow_up:?}");
    let terminal = acc.finish().expect("finish after Failed succeeds");
    assert!(matches!(
        terminal,
        AgentEvent::RunFailed { ref code, .. } if code == &ErrorCode("stream_invalid".into())
    ));
}

#[test]
fn started_then_completed_emits_clean_pair() {
    let mut acc = StreamAccumulator::new();
    let usage = Usage { input_tokens: 0, output_tokens: 0 };
    let started = acc.push_chunk(ProviderChunk::Started).expect("Started accepted");
    assert_eq!(started, vec![AgentEvent::ModelStarted]);
    let completed = acc
        .push_chunk(ProviderChunk::Completed { usage, stop_reason: StopReason::EndTurn })
        .expect("Completed accepted");
    assert_eq!(completed, vec![AgentEvent::ModelFinished { usage, stop_reason: StopReason::EndTurn }]);
    let terminal = acc.finish().expect("finish on completed stream");
    assert!(matches!(terminal, AgentEvent::ModelFinished { .. }));
}

#[test]
fn multiple_tool_calls_assemble_independently() {
    let mut acc = StreamAccumulator::new();
    let a = call_id();
    let b = call_id();
    acc.push_chunk(ProviderChunk::ToolCallStart { call_id: a, name: "read".into() }).expect("start a accepted");
    acc.push_chunk(ProviderChunk::ToolCallStart { call_id: b, name: "edit".into() }).expect("start b accepted");
    assert_eq!(acc.pending_len(), 2);
    acc.push_chunk(ProviderChunk::ToolArgumentsDelta { call_id: a, fragment: "{\"path\":\"/".into() }).expect("delta a-1");
    acc.push_chunk(ProviderChunk::ToolArgumentsDelta { call_id: b, fragment: "{\"old\":\"".to_string() }).expect("delta b-1");
    acc.push_chunk(ProviderChunk::ToolArgumentsDelta { call_id: a, fragment: "tmp/x\"}".into() }).expect("delta a-2");
    acc.push_chunk(ProviderChunk::ToolArgumentsDelta { call_id: b, fragment: "foo\"}".into() }).expect("delta b-2");
    let out_b = acc.push_chunk(ProviderChunk::ToolCallComplete { call_id: b }).expect("complete b");
    assert_eq!(out_b, vec![AgentEvent::ToolStarted { call_id: b, name: "edit".into(), args: json("{\"old\": \"foo\"}") }]);
    let out_a = acc.push_chunk(ProviderChunk::ToolCallComplete { call_id: a }).expect("complete a");
    assert_eq!(out_a, vec![AgentEvent::ToolStarted { call_id: a, name: "read".into(), args: json("{\"path\": \"/tmp/x\"}") }]);
    assert_eq!(acc.pending_len(), 0);
}

#[test]
fn tool_arguments_delta_with_unknown_call_id_errors() {
    let mut acc = StreamAccumulator::new();
    let ghost = call_id();
    let result = acc.push_chunk(ProviderChunk::ToolArgumentsDelta { call_id: ghost, fragment: "{}".into() });
    match result {
        Err(StreamError::Invalid(msg)) => {
            assert!(msg.contains(&ghost.label()["tool_call:".len()..]), "error must name the offending call_id, got {msg}");
        }
        other => panic!("expected Invalid, got {other:?}"),
    }
}

#[test]
fn duplicate_tool_call_start_errors() {
    let mut acc = StreamAccumulator::new();
    let cid = call_id();
    acc.push_chunk(ProviderChunk::ToolCallStart { call_id: cid, name: "shell".into() }).expect("first start accepted");
    let result = acc.push_chunk(ProviderChunk::ToolCallStart { call_id: cid, name: "shell".into() });
    assert!(matches!(result, Err(StreamError::Invalid(_))), "duplicate start must error, got {result:?}");
}

#[test]
fn tool_call_complete_with_invalid_args_errors() {
    let mut acc = StreamAccumulator::new();
    let cid = call_id();
    acc.push_chunk(ProviderChunk::ToolCallStart { call_id: cid, name: "shell".into() }).expect("start accepted");
    acc.push_chunk(ProviderChunk::ToolArgumentsDelta { call_id: cid, fragment: "not json".into() }).expect("delta accepted");
    let result = acc.push_chunk(ProviderChunk::ToolCallComplete { call_id: cid });
    match result {
        Err(StreamError::Invalid(msg)) => {
            assert!(msg.contains("not valid JSON"), "error message must explain the failure, got {msg}");
        }
        other => panic!("expected Invalid, got {other:?}"),
    }
}

#[test]
fn provider_chunk_variants_are_struct_shaped() {
    let cid = call_id();
    let cases: Vec<ProviderChunk> = vec![
        ProviderChunk::Started,
        ProviderChunk::TextDelta { text: "x".into() },
        ProviderChunk::ReasoningDelta { text: "y".into() },
        ProviderChunk::ToolCallStart { call_id: cid, name: "n".into() },
        ProviderChunk::ToolArgumentsDelta { call_id: cid, fragment: "f".into() },
        ProviderChunk::ToolCallComplete { call_id: cid },
        ProviderChunk::Completed { usage: Usage { input_tokens: 0, output_tokens: 0 }, stop_reason: StopReason::EndTurn },
        ProviderChunk::Failed { code: "c".into(), message: "m".into(), retryable: false },
    ];
    for c in &cases {
        let debug = format!("{c:?}");
        assert!(!debug.is_empty(), "Debug impl must be non-empty");
    }
    assert_eq!(cases.len(), 8);
}

#[test]
fn decode_tool_args_unwraps_a_json_encoded_object() {
    assert_eq!(decode_tool_args("  ").unwrap(), serde_json::Value::Null);
    assert_eq!(decode_tool_args("{\"a\":1}").unwrap(), json("{\"a\":1}"));
    assert_eq!(decode_tool_args("\"{\\\"a\\\":1}\"").unwrap(), json("{\"a\":1}"));
    assert_eq!(decode_tool_args("\"plain\"").unwrap(), json("\"plain\""));
    assert!(decode_tool_args("{oops").is_err());
}
