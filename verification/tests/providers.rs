use crow::event::{AgentEvent, StopReason, Usage};
use crow::provider::{
    default_context_size, fixture_line_error, fixture_lines, missing_api_key_error, GenaiProvider,
    ProviderError, ScriptCursor, ScriptedProvider,
};

#[test]
fn with_api_key_constructs() {
    let provider = GenaiProvider::with_api_key("https://example.invalid/v1", "test-model", "test-key".to_owned());
    let _ = provider;
}

#[test]
fn with_api_key_keeps_its_configuration() {
    let p = GenaiProvider::with_api_key("https://example.invalid/v1", "test-model", "test-key".to_owned());
    assert_eq!(p.base_url(), "https://example.invalid/v1");
    assert_eq!(p.model(), "test-model");
    assert_eq!(p.api_key(), "test-key");
    assert_eq!(
        p.stream_error(false),
        ProviderError::Upstream {
            code: "genai_not_implemented".to_string(),
            message: "genai streaming is not implemented".to_string(),
            retryable: false,
        }
    );
    assert_eq!(p.stream_error(true), ProviderError::Cancelled);
}

#[test]
fn missing_key_error_names_the_variable() {
    let e = missing_api_key_error("CROW_TEST_KEY");
    assert_eq!(e.message(), "upstream error: missing_api_key env var CROW_TEST_KEY not set");
}

#[test]
fn from_events_replays_in_memory_list() {
    let events = vec![
        AgentEvent::ModelStarted,
        AgentEvent::TextDelta { text: "hi".into() },
        AgentEvent::ModelFinished {
            usage: Usage { input_tokens: 1, output_tokens: 1 },
            stop_reason: StopReason::EndTurn,
        },
    ];
    let p = ScriptedProvider::from_events(events.clone());
    let mut cursor = ScriptCursor::new(p.events().clone());
    let mut seen = Vec::new();
    while let Some(item) = cursor.next(false) {
        seen.push(item.expect("no error"));
    }
    assert_eq!(seen, events);
    assert!(cursor.next(false).is_none(), "an ended stream stays ended");
}

#[test]
fn pre_cancelled_token_returns_cancelled_error() {
    let mut cursor = ScriptCursor::new(vec![AgentEvent::ModelStarted]);
    assert!(matches!(cursor.next(true), Some(Err(ProviderError::Cancelled))));
    assert!(cursor.next(false).is_none(), "after cancellation the stream ends");
}

#[test]
fn empty_file_fails_loudly() {
    match fixture_lines("") {
        Err(ProviderError::StreamInvalid(m)) => assert!(m.contains("empty")),
        other => panic!("expected StreamInvalid, got {other:?}"),
    }
}

#[test]
fn whitespace_only_file_fails_loudly() {
    let err = fixture_lines("   \n\t\n  \n").unwrap_err();
    assert!(matches!(err, ProviderError::StreamInvalid(_)));
}

#[test]
fn fixture_lines_skip_blanks_and_keep_line_numbers() {
    let lines = fixture_lines("{\"a\":1}\r\n\n  \n{\"b\":2}\n").unwrap();
    assert_eq!(lines, vec![(1, "{\"a\":1}".to_string()), (4, "{\"b\":2}".to_string())]);
}

#[test]
fn malformed_line_error_names_the_line() {
    let e = fixture_line_error(3, "expected value");
    assert_eq!(e, ProviderError::StreamInvalid("fixture line 3: expected value".to_string()));
}

#[test]
fn provider_error_messages() {
    assert_eq!(ProviderError::StreamInvalid("x".into()).message(), "stream invalid: x");
    assert_eq!(ProviderError::Cancelled.message(), "cancelled");
    assert_eq!(default_context_size(), 32_768);
}
