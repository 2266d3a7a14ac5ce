use crow::agent::{
    next_turn, turn_action, LoopAction,
    after_model_finished, ask_reply_outcome, assistant_parts, charge_tool_calls, context_limit_failure,
    exceeds_context, history_from_entries, map_provider_error, max_turns_failure, on_stream_item, open_failure,
    policy_step, text_content, tool_calls_of, tool_result_message, AgentError, AskReply, FailureNotice,
    PolicyStep, StreamStep, TurnAccumulator, TurnEnd,
};
use crow::event::{AgentEvent, ErrorCode, StopReason, ToolOutcome as EventOutcome, Usage};
use crow::ids::{MessageId, SessionId, Timestamp, ToolCallId};
use crow::message::{Message, Part, Role};
use crow::policy::{AskResponse, Decision};
use crow::provider::ProviderError;
use crow::session_entry::SessionEntry;
use crow::tool::ToolOutcome;

fn ts() -> Timestamp {
    Timestamp(0)
}

#[test]
fn resume_history_has_user_then_assistant() {
    let entries = vec![
        SessionEntry::SessionStarted { schema_version: 1, session_id: SessionId(7), started_at: ts(), cwd: "/p".into() },
        SessionEntry::UserMessage { id: MessageId(1), content: "hello".into(), timestamp: ts() },
        SessionEntry::AssistantMessage {
            id: MessageId(2),
            parts: vec![Part::Text { text: "Hi".into() }],
            usage: Some(Usage { input_tokens: 1, output_tokens: 1 }),
            stop_reason: Some(StopReason::EndTurn),
            timestamp: ts(),
        },
        SessionEntry::RunFinished { message: "Hi".into(), timestamp: ts() },
    ];
    let history = history_from_entries(&entries);
    assert_eq!(history.len(), 2);
    assert_eq!(history[0], Message { id: MessageId(1), role: Role::User, parts: vec![Part::Text { text: "hello".into() }] });
    assert_eq!(history[1].role, Role::Assistant);
    assert_eq!(history[1].id, MessageId(2));
}

#[test]
fn finished_tool_calls_become_results_and_orphans_do_not() {
    let done = ToolCallId(10);
    let orphan = ToolCallId(11);
    let entries = vec![
        SessionEntry::ToolStarted { call_id: done, name: "read".into(), args: serde_json::Value::Null, timestamp: ts() },
        SessionEntry::ToolFinished {
            call_id: done,
            outcome: EventOutcome::Error { code: ErrorCode("tool_error".into()), message: "boom".into(), truncated: true },
            timestamp: ts(),
        },
        SessionEntry::ToolStarted { call_id: orphan, name: "bash".into(), args: serde_json::Value::Null, timestamp: ts() },
        SessionEntry::RunInterrupted { active_call: Some(orphan), timestamp: ts() },
        SessionEntry::ToolFinished {
            call_id: orphan,
            outcome: EventOutcome::Success { output: "late".into(), truncated: false },
            timestamp: ts(),
        },
    ];
    let history = history_from_entries(&entries);
    assert_eq!(history.len(), 1);
    assert_eq!(history[0].role, Role::ToolResult);
    assert_eq!(
        history[0].parts,
        vec![Part::ToolResult { call_id: done, output: "boom".into(), is_error: true, truncated: true, display: None }]
    );
}

#[test]
fn finish_without_a_start_still_becomes_a_result() {
    let entries = vec![
        SessionEntry::UserMessage { id: MessageId(1), content: "hi".into(), timestamp: ts() },
        SessionEntry::ToolFinished {
            call_id: ToolCallId(3),
            outcome: EventOutcome::Error { code: ErrorCode("tool_error".into()), message: "boom".into(), truncated: false },
            timestamp: ts(),
        },
    ];
    let history = history_from_entries(&entries);
    assert_eq!(history.len(), 2);
    assert_eq!(history[0], Message { id: MessageId(1), role: Role::User, parts: vec![Part::Text { text: "hi".into() }] });
    assert_eq!(history[1].role, Role::ToolResult);
    assert_eq!(
        history[1].parts,
        vec![Part::ToolResult { call_id: ToolCallId(3), output: "boom".into(), is_error: true, truncated: false, display: None }]
    );
}

#[test]
fn text_content_joins_text_parts_only() {
    let m = Message {
        id: MessageId(1),
        role: Role::User,
        parts: vec![
            Part::Text { text: "a".into() },
            Part::Reasoning { text: "x".into() },
            Part::Text { text: "b".into() },
        ],
    };
    assert_eq!(text_content(&m), "ab");
}

#[test]
fn stream_items_build_the_turn() {
    let mut acc = TurnAccumulator::new();
    assert!(matches!(on_stream_item(&mut acc, Some(Ok(AgentEvent::ModelStarted))), StreamStep::Continue { forward: Some(AgentEvent::ModelStarted) }));
    on_stream_item(&mut acc, Some(Ok(AgentEvent::TextDelta { text: "Hel".into() })));
    on_stream_item(&mut acc, Some(Ok(AgentEvent::TextDelta { text: "lo".into() })));
    on_stream_item(&mut acc, Some(Ok(AgentEvent::ReasoningDelta { text: "hmm".into() })));
    let cid = ToolCallId(3);
    on_stream_item(&mut acc, Some(Ok(AgentEvent::ToolStarted { call_id: cid, name: "read".into(), args: serde_json::Value::Null })));
    let step = on_stream_item(
        &mut acc,
        Some(Ok(AgentEvent::ModelFinished { usage: Usage { input_tokens: 2, output_tokens: 3 }, stop_reason: StopReason::ToolUse })),
    );
    assert!(matches!(step, StreamStep::Finished { stop_reason: StopReason::ToolUse, .. }));
    assert_eq!(acc.text, "Hello");
    let parts = assistant_parts(acc);
    assert_eq!(parts.len(), 3);
    assert_eq!(parts[0], Part::Text { text: "Hello".into() });
    assert_eq!(parts[1], Part::Reasoning { text: "hmm".into() });
    let calls = tool_calls_of(&parts);
    assert_eq!(calls.len(), 1);
    assert_eq!(calls[0].call_id, cid);
    assert_eq!(calls[0].name, "read");
}

#[test]
fn empty_stream_fails_the_run() {
    let mut acc = TurnAccumulator::new();
    match on_stream_item(&mut acc, None) {
        StreamStep::Fail(f) => {
            assert_eq!(f.code, ErrorCode("empty_stream".into()));
            assert!(f.retryable);
            assert_eq!(f.message, "provider stream ended with no events");
            assert_eq!(f.notice, FailureNotice::EmitFirst);
            assert_eq!(f.error, AgentError::Provider("provider stream ended with no events".into()));
        }
        _ => panic!("expected a failure"),
    }
    let mut acc = TurnAccumulator::new();
    on_stream_item(&mut acc, Some(Ok(AgentEvent::RunStarted { run_id: crow::ids::RunId(1), session_id: SessionId(1), started_at: ts() })));
    assert!(matches!(on_stream_item(&mut acc, None), StreamStep::Ended));
}

#[test]
fn stream_errors_and_provider_failures() {
    let mut acc = TurnAccumulator::new();
    match on_stream_item(&mut acc, Some(Err(ProviderError::StreamInvalid("bad".into())))) {
        StreamStep::Fail(f) => {
            assert_eq!(f.code, ErrorCode("stream_error".into()));
            assert_eq!(f.message, "stream invalid: bad");
            assert_eq!(f.error, AgentError::Provider("stream invalid: bad".into()));
        }
        _ => panic!("expected a failure"),
    }
    match on_stream_item(&mut acc, Some(Ok(AgentEvent::RunFailed { code: ErrorCode("x".into()), retryable: false, message: "m".into() }))) {
        StreamStep::Fail(f) => {
            assert_eq!(f.notice, FailureNotice::Silent);
            assert_eq!(f.error, AgentError::Provider("m".into()));
        }
        _ => panic!("expected a failure"),
    }
    assert!(matches!(on_stream_item(&mut acc, Some(Ok(AgentEvent::RunCancelled))), StreamStep::Interrupt));
    assert_eq!(map_provider_error(ProviderError::Cancelled), AgentError::Cancelled);
}

#[test]
fn open_failure_codes_follow_the_error_kind() {
    let f = open_failure(ProviderError::Upstream { code: "429".into(), message: "slow down".into(), retryable: true });
    assert_eq!(f.code, ErrorCode("provider_upstream".into()));
    assert!(f.retryable);
    assert_eq!(f.message, "upstream error: 429 slow down");
    assert_eq!(f.notice, FailureNotice::EmitAfter(ErrorCode("provider_error".into())));
    assert_eq!(f.error, AgentError::Provider("upstream error: 429 slow down".into()));
    let f = open_failure(ProviderError::Cancelled);
    assert_eq!(f.code, ErrorCode("cancelled".into()));
    assert_eq!(f.error, AgentError::Cancelled);
}

#[test]
fn stop_reasons_decide_the_turn() {
    match after_model_finished(StopReason::MaxTokens) {
        TurnEnd::Fail(f) => {
            assert_eq!(f.code, ErrorCode("max_tokens".into()));
            assert!(f.retryable);
            assert_eq!(f.message, "provider error: provider returned stop_reason=MaxTokens");
        }
        _ => panic!("expected a failure"),
    }
    assert!(matches!(after_model_finished(StopReason::Cancellation), TurnEnd::Interrupt));
    assert!(matches!(after_model_finished(StopReason::EndTurn), TurnEnd::Proceed));
}

#[test]
fn budgets_and_limits() {
    assert_eq!(charge_tool_calls(1, 2, 3).unwrap(), 3);
    let f = charge_tool_calls(1, 3, 3).unwrap_err();
    assert_eq!(f.message, "max tool calls (3) exceeded");
    assert_eq!(f.error, AgentError::MaxToolCallsExceeded(3));
    assert_eq!(charge_tool_calls(u32::MAX, 5, u32::MAX).unwrap(), u32::MAX);
    assert!(!exceeds_context(100_000, 28_000));
    assert!(exceeds_context(100_000, 28_001));
    assert!(exceeds_context(usize::MAX, 1));
    assert_eq!(max_turns_failure(50).message, "max turns (50) exceeded");
    assert_eq!(context_limit_failure().message, "context size exceeds model limit");
    assert_eq!(AgentError::SessionWrite("disk".into()).message(), "session append failed: disk");
}

#[test]
fn policy_decisions_gate_tool_calls() {
    assert!(matches!(policy_step(Decision::Allow, false), PolicyStep::Run));
    match policy_step(Decision::Deny { reason: "no".into() }, true) {
        PolicyStep::Synthetic(o) => assert_eq!(o, ToolOutcome::Error { code: ErrorCode("policy_denied".into()), message: "no".into(), truncated: false }),
        _ => panic!("expected a synthetic outcome"),
    }
    match policy_step(Decision::Ask { ask_id: "bash-1".into() }, false) {
        PolicyStep::Abort(e) => assert_eq!(e, AgentError::Provider("policy requested Ask for bash-1 but no resolver is configured".into())),
        _ => panic!("expected an abort"),
    }
    assert!(matches!(policy_step(Decision::Ask { ask_id: "a".into() }, true), PolicyStep::AskUser(ref s) if s == "a"));
    assert_eq!(ask_reply_outcome(AskReply::Answered(AskResponse::Allow)), None);
    assert_eq!(
        ask_reply_outcome(AskReply::Answered(AskResponse::Deny)),
        Some(ToolOutcome::Error { code: ErrorCode("policy_denied".into()), message: "denied by user".into(), truncated: false })
    );
    assert_eq!(
        ask_reply_outcome(AskReply::Dropped),
        Some(ToolOutcome::Error { code: ErrorCode("policy_ask_closed".into()), message: "ask responder dropped without answering".into(), truncated: false })
    );
}

#[test]
fn tool_result_message_carries_the_outcome() {
    let m = tool_result_message(ToolCallId(4), &ToolOutcome::Success { output: "ok".into(), truncated: false });
    assert_eq!(m.role, Role::ToolResult);
    assert_eq!(m.parts, vec![Part::ToolResult { call_id: ToolCallId(4), output: "ok".into(), is_error: false, truncated: false, display: None }]);
}

#[test]
fn turns_count_up_to_the_limit() {
    assert_eq!(next_turn(0, 2), Some(1));
    assert_eq!(next_turn(1, 2), Some(2));
    assert_eq!(next_turn(2, 2), None);
    assert_eq!(next_turn(0, 0), None);
}

#[test]
fn turn_actions_follow_the_stop_reason_and_the_call_budget() {
    assert!(matches!(turn_action(None, 3, 0, 10), LoopAction::Resample));
    assert!(matches!(turn_action(Some(StopReason::EndTurn), 0, 4, 10), LoopAction::Finish));
    assert!(matches!(turn_action(Some(StopReason::ToolUse), 2, 4, 10), LoopAction::RunTools { total: 6 }));
    assert!(matches!(turn_action(Some(StopReason::Cancellation), 2, 4, 10), LoopAction::Interrupt));
    match turn_action(Some(StopReason::ToolUse), 7, 4, 10) {
        LoopAction::Fail(f) => {
            assert_eq!(f.code, ErrorCode("max_tool_calls".into()));
            assert_eq!(f.error, AgentError::MaxToolCallsExceeded(10));
        }
        _ => panic!("expected the call budget to fail the run"),
    }
    match turn_action(Some(StopReason::Error), 0, 0, 10) {
        LoopAction::Fail(f) => assert_eq!(f.code, ErrorCode("provider_error".into())),
        _ => panic!("expected a provider failure"),
    }
}

/// Drive a run with the loop's step functions: the `k`-th sampling ends
/// as `model(k)` says. Returns how many times the model was sampled, the
/// calls run per turn, and the last action.
fn drive(max_turns: u32, max_tool_calls: u32, model: impl Fn(u32) -> (Option<StopReason>, usize)) -> (u32, Vec<usize>, Option<LoopAction>) {
    let (mut turn, mut total, mut sampled, mut ran) = (0u32, 0u32, 0u32, Vec::new());
    while let Some(next) = next_turn(turn, max_turns) {
        let (stop, n) = model(turn);
        turn = next;
        sampled += 1;
        match turn_action(stop, n, total, max_tool_calls) {
            LoopAction::Resample => {}
            LoopAction::RunTools { total: t } => {
                total = t;
                ran.push(n);
            }
            other => return (sampled, ran, Some(other)),
        }
    }
    (sampled, ran, None)
}

#[test]
fn max_turns_bound_a_run_that_never_finishes() {
    let (sampled, ran, last) = drive(1, 0, |_| (None, 0));
    assert_eq!(sampled, 1);
    assert!(ran.is_empty());
    assert!(last.is_none());
    assert_eq!(max_turns_failure(1).error, AgentError::MaxTurnsExceeded(1));
    let (sampled, _, last) = drive(5, 10, |_| (None, 0));
    assert_eq!((sampled, last), (5, None));
}

#[test]
fn tool_budget_spans_turns() {
    let (sampled, ran, last) =
        drive(10, 3, |k| if k == 0 { (Some(StopReason::ToolUse), 3) } else { (Some(StopReason::EndTurn), 0) });
    assert_eq!(sampled, 2);
    assert_eq!(ran, vec![3]);
    assert_eq!(last, Some(LoopAction::Finish));
    let (sampled, ran, last) = drive(10, 0, |_| (Some(StopReason::ToolUse), 1));
    assert_eq!(sampled, 1);
    assert!(ran.is_empty());
    match last {
        Some(LoopAction::Fail(f)) => assert_eq!(f.error, AgentError::MaxToolCallsExceeded(0)),
        other => panic!("expected the budget to fail the run, got {other:?}"),
    }
}
