use crow::event::{AgentEvent, ErrorCode, ToolOutcome as EventOutcome};
use crow::ids::ToolCallId;
use crow::tool::{
    sorted_names, tool_dispatch, tool_finished_event, tool_started_event, ToolCall, ToolDispatch,
    invalid_args_outcome, settle_tool_result, to_event_outcome, unknown_tool_outcome, validate_args, ToolError,
    ToolOutcome,
};

fn json(text: &str) -> serde_json::Value {
    serde_json::from_str(text).expect("valid JSON in test")
}

fn echo_schema() -> serde_json::Value {
    json(r#"{"type":"object","required":["msg"],"properties":{"msg":{"type":"string"}}}"#)
}

#[test]
fn validate_args_reports_useful_error_message() {
    let schema = echo_schema();
    let err = validate_args(&json("{}"), &schema).expect_err("missing required field");
    assert!(!err.is_empty());
    assert!(
        err.to_lowercase().contains("msg") || err.contains("required"),
        "expected error to mention `msg` or `required`, got: {err}",
    );
}

#[test]
fn validate_args_accepts_well_formed_input() {
    let schema = echo_schema();
    validate_args(&json(r#"{"msg": "hi"}"#), &schema).expect("valid input must validate");
}

#[test]
fn validate_args_rejects_wrong_type() {
    let schema = echo_schema();
    let err = validate_args(&json(r#"{"msg": 42}"#), &schema).expect_err("number for string must fail");
    assert!(!err.is_empty());
}

#[test]
fn validate_args_reports_an_invalid_schema() {
    let err = validate_args(&json("{}"), &json(r#"{"type": 12}"#)).expect_err("bad schema");
    assert!(err.starts_with("schema is not a valid JSON Schema: "), "got {err}");
}

#[test]
fn execute_unknown_tool_returns_structured_error() {
    assert_eq!(
        unknown_tool_outcome("nope"),
        ToolOutcome::Error { code: ErrorCode("unknown_tool".into()), message: "no tool named nope".into(), truncated: false }
    );
}

#[test]
fn execute_tool_error_maps_to_tool_error_code() {
    assert_eq!(
        settle_tool_result(Err(ToolError::Cancelled)),
        ToolOutcome::Error { code: ErrorCode("tool_error".into()), message: "cancelled".into(), truncated: false }
    );
    assert_eq!(
        settle_tool_result(Err(ToolError::TooLarge { actual: 10, limit: 4 })),
        ToolOutcome::Error {
            code: ErrorCode("tool_error".into()),
            message: "output too large (10 > 4 bytes)".into(),
            truncated: false
        }
    );
    let ok = ToolOutcome::Success { output: "x".into(), truncated: true };
    assert_eq!(settle_tool_result(Ok(ok.clone())), ok);
}

#[test]
fn invalid_args_and_event_forms() {
    let o = invalid_args_outcome("bad".into());
    assert_eq!(o, ToolOutcome::Error { code: ErrorCode("invalid_args".into()), message: "bad".into(), truncated: false });
    assert_eq!(
        to_event_outcome(&o),
        EventOutcome::Error { code: ErrorCode("invalid_args".into()), message: "bad".into(), truncated: false }
    );
}

#[test]
fn dispatch_decides_unknown_invalid_and_run() {
    assert_eq!(
        tool_dispatch("nope", false, Ok(())),
        ToolDispatch::Unknown(ToolOutcome::Error {
            code: ErrorCode("unknown_tool".into()),
            message: "no tool named nope".into(),
            truncated: false,
        })
    );
    assert_eq!(
        tool_dispatch("echo", true, Err("\"msg\" is a required property".into())),
        ToolDispatch::Invalid(ToolOutcome::Error {
            code: ErrorCode("invalid_args".into()),
            message: "\"msg\" is a required property".into(),
            truncated: false,
        })
    );
    assert_eq!(tool_dispatch("echo", true, Ok(())), ToolDispatch::Run);
}

#[test]
fn started_and_finished_events_carry_the_call() {
    let call = ToolCall { call_id: ToolCallId(5), name: "echo".into(), args: json(r#"{"msg":"hi"}"#) };
    assert_eq!(
        tool_started_event(&call, "echo"),
        AgentEvent::ToolStarted { call_id: ToolCallId(5), name: "echo".into(), args: json(r#"{"msg":"hi"}"#) }
    );
    let outcome = ToolOutcome::Success { output: "hi".into(), truncated: false };
    assert_eq!(
        tool_finished_event(ToolCallId(5), &outcome),
        AgentEvent::ToolFinished {
            call_id: ToolCallId(5),
            result: EventOutcome::Success { output: "hi".into(), truncated: false },
        }
    );
}

#[test]
fn tool_names_sort_lexicographically() {
    let names: Vec<String> = ["zeta", "alpha", "mid", "alpha", "Beta", "é"].iter().map(|s| s.to_string()).collect();
    let mut expected = names.clone();
    expected.sort();
    assert_eq!(sorted_names(names), expected);
    assert_eq!(sorted_names(vec!["read".into(), "bash".into()]), vec!["bash".to_string(), "read".to_string()]);
    assert!(sorted_names(Vec::new()).is_empty());
}
