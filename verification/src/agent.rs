//! The provider-neutral agent: its errors and states, history
//! reconstruction from a session log, and the decisions of the run
//! loop.
//!
//! The loop itself awaits the provider stream, the session writer and
//! the tools, so it runs in the application; every decision it makes
//! (what an incoming stream item does to the turn, when a run fails and
//! with which code, what a policy decision turns into) is a function
//! here.

use vstd::prelude::*;

use crate::event::{AgentEvent, ErrorCode, StopReason, ToolOutcome as EventToolOutcome, Usage};
use crate::ids::{new_id, MessageId, ToolCallId};
use crate::provider::{provider_error_text, ProviderError};
use crate::policy::{AskResponse, Decision, DecisionView};
use crate::read::{dec_digits, push_decimal};
use crate::tool::{event_outcome_of, to_event_outcome, ToolCall, ToolOutcome};
use crate::message::{duplicate_parts, Message, Part, Role};
use crate::session_entry::SessionEntry;

verus! {

/// A terminal failure from the agent loop.
#[derive(Debug, Clone, PartialEq, Eq)]
pub enum AgentError {
    MaxTurnsExceeded(u32),
    MaxToolCallsExceeded(u32),
    ContextLimit,
    SessionWrite(String),
    Provider(String),
    Tool(String),
    Cancelled,
}

/// Current phase of the agent state machine.
#[derive(Debug, Clone, Copy, PartialEq, Eq, Structural)]
pub enum AgentState {
    Idle,
    Sampling { turn: u32 },
    ExecutingTool { turn: u32, call_id: ToolCallId },
    Completing,
    Cancelling,
    Finished,
    Failed,
}

/// The text of every `Text` part of `parts`, concatenated in order.
pub open spec fn text_of_parts(parts: Seq<Part>) -> Seq<char>
    decreases parts.len(),
{
    if parts.len() == 0 {
        Seq::<char>::empty()
    } else {
        text_of_parts(parts.drop_last()) + match parts.last() {
            Part::Text { text } => text@,
            _ => Seq::<char>::empty(),
        }
    }
}

/// The concatenated text parts of a message (what is logged as the
/// user message's content).
pub fn text_content(message: &Message) -> (s: String)
    ensures
        s@ == text_of_parts(message.parts@),
{
    let mut out = String::new();
    let mut i: usize = 0;
    while i < message.parts.len()
        invariant
            i <= message.parts@.len(),
            out@ == text_of_parts(message.parts@.take(i as int)),
        decreases message.parts@.len() - i,
    {
        assert(message.parts@.take(i + 1).drop_last() =~= message.parts@.take(i as int));
        if let Part::Text { text } = &message.parts[i] {
            out.append(text.as_str());
        }
        i = i + 1;
    }
    assert(message.parts@.take(i as int) =~= message.parts@);
    out
}

/// A message of reconstructed history, up to its id: `id` is `None`
/// where the message gets a fresh id.
pub struct MessageShape {
    pub id: Option<MessageId>,
    pub role: Role,
    pub parts: Seq<Part>,
}

/// Whether `m` is a message of shape `s`.
pub open spec fn conforms(m: Message, s: MessageShape) -> bool {
    &&& (s.id matches Some(id) ==> m.id == id)
    &&& m.role == s.role
    &&& m.parts@ == s.parts
}

/// Where a replay of session entries stands: the tool calls started and
/// not yet finished or orphaned, and the history rebuilt so far.
pub struct ReplayState {
    pub pending: Seq<ToolCallId>,
    pub dropped: Seq<ToolCallId>,
    pub history: Seq<MessageShape>,
}

/// Index of the first occurrence of `x` in `s`, or `s.len()`.
pub open spec fn first_index(s: Seq<ToolCallId>, x: ToolCallId) -> int
    decreases s.len(),
{
    if s.len() == 0 {
        0
    } else if s[0] == x {
        0
    } else {
        1 + first_index(s.drop_first(), x)
    }
}

/// `s` without the first occurrence of `x` (unchanged when absent).
pub open spec fn remove_first(s: Seq<ToolCallId>, x: ToolCallId) -> Seq<ToolCallId> {
    if first_index(s, x) < s.len() {
        s.remove(first_index(s, x))
    } else {
        s
    }
}

/// The tool-result part recording `outcome` for `call_id`: the output
/// of a success, the message of an error.
pub open spec fn result_part(call_id: ToolCallId, outcome: EventToolOutcome) -> Part {
    match outcome {
        EventToolOutcome::Success { output, truncated } => Part::ToolResult {
            call_id,
            output,
            is_error: false,
            truncated,
            display: None,
        },
        EventToolOutcome::Error { message, truncated, .. } => Part::ToolResult {
            call_id,
            output: message,
            is_error: true,
            truncated,
            display: None,
        },
    }
}

/// One entry's effect on the replay.
///
/// A user entry becomes a user message with one text part; an assistant
/// entry becomes an assistant message with its parts verbatim; a
/// started tool call is buffered. A finished call becomes a tool-result
/// message and closes its buffered call, except the finish of a call an
/// interruption dropped, which adds nothing (the resumed run starts a
/// fresh turn). An interruption drops the buffered call it names.
/// Session metadata and the other terminal markers add nothing.
pub open spec fn replay_step(st: ReplayState, e: SessionEntry) -> ReplayState {
    match e {
        SessionEntry::UserMessage { id, content, .. } => ReplayState {
            history: st.history.push(
                MessageShape { id: Some(id), role: Role::User, parts: seq![Part::Text { text: content }] },
            ),
            ..st
        },
        SessionEntry::AssistantMessage { id, parts, .. } => ReplayState {
            history: st.history.push(MessageShape { id: Some(id), role: Role::Assistant, parts: parts@ }),
            ..st
        },
        SessionEntry::ToolStarted { call_id, .. } => ReplayState { pending: st.pending.push(call_id), ..st },
        SessionEntry::ToolFinished { call_id, outcome, .. } => {
            let result = MessageShape {
                id: None,
                role: Role::ToolResult,
                parts: seq![result_part(call_id, outcome)],
            };
            if first_index(st.pending, call_id) < st.pending.len() {
                ReplayState {
                    pending: remove_first(st.pending, call_id),
                    history: st.history.push(result),
                    ..st
                }
            } else if first_index(st.dropped, call_id) < st.dropped.len() {
                ReplayState { dropped: remove_first(st.dropped, call_id), ..st }
            } else {
                ReplayState { history: st.history.push(result), ..st }
            }
        },
        SessionEntry::RunInterrupted { active_call, .. } => match active_call {
            Some(call) => if first_index(st.pending, call) < st.pending.len() {
                ReplayState {
                    pending: remove_first(st.pending, call),
                    dropped: st.dropped.push(call),
                    ..st
                }
            } else {
                st
            },
            None => st,
        },
        _ => st,
    }
}

/// The replay of a whole log, entry by entry from an empty state.
pub open spec fn replay(entries: Seq<SessionEntry>) -> ReplayState
    decreases entries.len(),
{
    if entries.len() == 0 {
        ReplayState { pending: Seq::empty(), dropped: Seq::empty(), history: Seq::empty() }
    } else {
        replay_step(replay(entries.drop_last()), entries.last())
    }
}

/// Whether `msgs` is, message by message, the history of shapes `hs`.
pub open spec fn history_conforms(msgs: Seq<Message>, hs: Seq<MessageShape>) -> bool {
    &&& msgs.len() == hs.len()
    &&& forall|i: int| 0 <= i < msgs.len() ==> conforms(#[trigger] msgs[i], hs[i])
}

/// The first index found by scanning is [`first_index`].
proof fn lemma_first_index(s: Seq<ToolCallId>, x: ToolCallId, i: int)
    requires
        0 <= i <= s.len(),
        forall|j: int| 0 <= j < i ==> s[j] != x,
        i < s.len() ==> s[i] == x,
    ensures
        first_index(s, x) == i,
    decreases i,
{
    if i > 0 {
        assert forall|j: int| 0 <= j < i - 1 implies s.drop_first()[j] != x by {
            assert(s.drop_first()[j] == s[j + 1]);
        }
        lemma_first_index(s.drop_first(), x, i - 1);
    }
}

/// Removes the first occurrence of `x` from `pending`; returns whether
/// there was one.
fn take_pending(pending: &mut Vec<ToolCallId>, x: ToolCallId) -> (found: bool)
    ensures
        found == (first_index(old(pending)@, x) < old(pending)@.len()),
        final(pending)@ == remove_first(old(pending)@, x),
{
    let mut i: usize = 0;
    while i < pending.len()
        invariant
            i <= pending@.len(),
            pending@ == old(pending)@,
            forall|j: int| 0 <= j < i ==> pending@[j] != x,
        decreases pending@.len() - i,
    {
        if pending[i] == x {
            proof {
                lemma_first_index(pending@, x, i as int);
            }
            pending.remove(i);
            return true;
        }
        i = i + 1;
    }
    proof {
        lemma_first_index(pending@, x, i as int);
    }
    false
}

/// The tool-result part for `outcome` (the executable [`result_part`]).
fn make_result_part(call_id: ToolCallId, outcome: &EventToolOutcome) -> (p: Part)
    ensures
        p == result_part(call_id, *outcome),
{
    match outcome {
        EventToolOutcome::Success { output, truncated } => Part::ToolResult {
            call_id,
            output: output.clone(),
            is_error: false,
            truncated: *truncated,
            display: None,
        },
        EventToolOutcome::Error { message, truncated, .. } => Part::ToolResult {
            call_id,
            output: message.clone(),
            is_error: true,
            truncated: *truncated,
            display: None,
        },
    }
}

/// Whether the logged message of entry `e`, if it holds one, is in
/// `out` verbatim: a user entry as a user message with its text as the
/// one text part, an assistant entry as an assistant message with its
/// id and its parts.
pub open spec fn keeps_logged_message(out: Seq<Message>, e: SessionEntry) -> bool {
    match e {
        SessionEntry::UserMessage { id, content, .. } => exists|j: int|
            0 <= j < out.len() && #[trigger] out[j].id == id && out[j].role == Role::User && out[j].parts@
                == seq![Part::Text { text: content }],
        SessionEntry::AssistantMessage { id, parts, .. } => exists|j: int|
            0 <= j < out.len() && #[trigger] out[j].id == id && out[j].role == Role::Assistant && out[j].parts@
                == parts@,
        _ => true,
    }
}

/// Pushing a message keeps every logged message found before.
proof fn lemma_keeps_after_push(out: Seq<Message>, m: Message, e: SessionEntry)
    requires
        keeps_logged_message(out, e),
    ensures
        keeps_logged_message(out.push(m), e),
{
    match e {
        SessionEntry::UserMessage { id, content, .. } => {
            let j = choose|j: int|
                0 <= j < out.len() && #[trigger] out[j].id == id && out[j].role == Role::User && out[j].parts@
                    == seq![Part::Text { text: content }];
            assert(out.push(m)[j] == out[j]);
        },
        SessionEntry::AssistantMessage { id, parts, .. } => {
            let j = choose|j: int|
                0 <= j < out.len() && #[trigger] out[j].id == id && out[j].role == Role::Assistant
                    && out[j].parts@ == parts@;
            assert(out.push(m)[j] == out[j]);
        },
        _ => {},
    }
}

/// Reconstruct model-visible history from a session log (see
/// [`replay_step`] for the rules). Tool-result messages get fresh ids;
/// every other message keeps the id it was logged with.
pub fn history_from_entries(entries: &[SessionEntry]) -> (out: Vec<Message>)
    ensures
        history_conforms(out@, replay(entries@).history),
        forall|k: int| 0 <= k < entries@.len() ==> keeps_logged_message(out@, #[trigger] entries@[k]),
        entries@.len() > 0 ==> match entries@.last() {
            SessionEntry::AssistantMessage { id, parts, .. } => out@.len() > 0 && out@.last().id == id
                && out@.last().role == Role::Assistant && out@.last().parts@ == parts@,
            SessionEntry::UserMessage { id, content, .. } => out@.len() > 0 && out@.last().id == id
                && out@.last().role == Role::User && out@.last().parts@ == seq![Part::Text { text: content }],
            _ => true,
        },
{
    let mut out: Vec<Message> = Vec::new();
    let mut pending: Vec<ToolCallId> = Vec::new();
    let mut dropped: Vec<ToolCallId> = Vec::new();
    let mut k: usize = 0;
    while k < entries.len()
        invariant
            k <= entries@.len(),
            pending@ == replay(entries@.take(k as int)).pending,
            dropped@ == replay(entries@.take(k as int)).dropped,
            history_conforms(out@, replay(entries@.take(k as int)).history),
            forall|j: int| 0 <= j < k ==> keeps_logged_message(out@, #[trigger] entries@[j]),
            k > 0 ==> match entries@[k - 1] {
                SessionEntry::AssistantMessage { id, parts, .. } => out@.len() > 0 && out@.last().id == id
                    && out@.last().role == Role::Assistant && out@.last().parts@ == parts@,
                SessionEntry::UserMessage { id, content, .. } => out@.len() > 0 && out@.last().id == id
                    && out@.last().role == Role::User && out@.last().parts@ == seq![Part::Text { text: content }],
                _ => true,
            },
        decreases entries@.len() - k,
    {
        let ghost before = replay(entries@.take(k as int));
        assert(entries@.take(k + 1).drop_last() =~= entries@.take(k as int));
        assert(entries@.take(k + 1).last() == entries@[k as int]);
        let ghost after = replay(entries@.take(k + 1));
        assert(after == replay_step(before, entries@[k as int]));
        let ghost before_out = out@;
        match &entries[k] {
            SessionEntry::UserMessage { id, content, .. } => {
                let mut parts: Vec<Part> = Vec::new();
                parts.push(Part::Text { text: content.clone() });
                assert(parts@ =~= seq![Part::Text { text: *content }]);
                out.push(Message { id: *id, role: Role::User, parts });
                proof {
                    let j = out@.len() - 1;
                    assert(out@[j].id == *id);
                    assert(keeps_logged_message(out@, entries@[k as int]));
                }
            },
            SessionEntry::AssistantMessage { id, parts, .. } => {
                let copy = duplicate_parts(parts);
                out.push(Message { id: *id, role: Role::Assistant, parts: copy });
                proof {
                    let j = out@.len() - 1;
                    assert(out@[j].id == *id);
                    assert(keeps_logged_message(out@, entries@[k as int]));
                }
            },
            SessionEntry::ToolStarted { call_id, .. } => {
                pending.push(*call_id);
            },
            SessionEntry::ToolFinished { call_id, outcome, .. } => {
                let found = take_pending(&mut pending, *call_id);
                let was_dropped = if found {
                    false
                } else {
                    take_pending(&mut dropped, *call_id)
                };
                if !was_dropped {
                    let mut parts: Vec<Part> = Vec::new();
                    parts.push(make_result_part(*call_id, outcome));
                    assert(parts@ =~= seq![result_part(*call_id, *outcome)]);
                    out.push(Message { id: MessageId(new_id()), role: Role::ToolResult, parts });
                }
            },
            SessionEntry::RunInterrupted { active_call, .. } => {
                if let Some(call) = active_call {
                    if take_pending(&mut pending, *call) {
                        dropped.push(*call);
                    }
                }
            },
            _ => {},
        }
        proof {
            assert forall|j: int| 0 <= j < k implies keeps_logged_message(out@, #[trigger] entries@[j]) by {
                if out@.len() > before_out.len() {
                    assert(out@ == before_out.push(out@.last()));
                    lemma_keeps_after_push(before_out, out@.last(), entries@[j]);
                }
            }
        }
        k = k + 1;
    }
    assert(entries@.take(k as int) =~= entries@);
    out
}

} // verus!

verus! {

/// The display text of an [`AgentError`].
pub open spec fn agent_error_text(e: AgentError) -> Seq<char> {
    match e {
        AgentError::MaxTurnsExceeded(n) => "max turns ("@ + dec_digits(n as nat) + ") exceeded"@,
        AgentError::MaxToolCallsExceeded(n) => "max tool calls ("@ + dec_digits(n as nat)
            + ") exceeded"@,
        AgentError::ContextLimit => "context size exceeds model limit"@,
        AgentError::SessionWrite(m) => "session append failed: "@ + m@,
        AgentError::Provider(m) => "provider error: "@ + m@,
        AgentError::Tool(m) => "tool error: "@ + m@,
        AgentError::Cancelled => "cancelled"@,
    }
}

impl AgentError {
    /// The human-readable message of this error (its display text).
    pub fn message(&self) -> (text: String)
        ensures
            text@ == agent_error_text(*self),
    {
        match self {
            AgentError::MaxTurnsExceeded(n) => {
                let mut out = String::from_str("max turns (");
                push_decimal(&mut out, *n as u64);
                out.append(") exceeded");
                out
            },
            AgentError::MaxToolCallsExceeded(n) => {
                let mut out = String::from_str("max tool calls (");
                push_decimal(&mut out, *n as u64);
                out.append(") exceeded");
                out
            },
            AgentError::ContextLimit => String::from_str("context size exceeds model limit"),
            AgentError::SessionWrite(m) => {
                let mut out = String::from_str("session append failed: ");
                out.append(m.as_str());
                out
            },
            AgentError::Provider(m) => {
                let mut out = String::from_str("provider error: ");
                out.append(m.as_str());
                out
            },
            AgentError::Tool(m) => {
                let mut out = String::from_str("tool error: ");
                out.append(m.as_str());
                out
            },
            AgentError::Cancelled => String::from_str("cancelled"),
        }
    }
}

/// Whether `a` is the agent error a provider error `e` becomes:
/// cancellation stays cancellation, anything else is a provider error
/// carrying the error's text.
pub open spec fn is_provider_failure(a: AgentError, e: ProviderError) -> bool {
    match e {
        ProviderError::Cancelled => a is Cancelled,
        _ => a matches AgentError::Provider(m) && m@ == provider_error_text(e),
    }
}

/// Map a provider error into the agent's error type.
pub fn map_provider_error(error: ProviderError) -> (a: AgentError)
    ensures
        is_provider_failure(a, error),
{
    match error {
        ProviderError::Cancelled => AgentError::Cancelled,
        other => AgentError::Provider(other.message()),
    }
}

/// How a failing run reports itself on the live event stream, beside
/// the `RunFailed` entry it always logs.
#[derive(Debug, Clone, PartialEq, Eq)]
pub enum FailureNotice {
    /// No live event (the provider already sent its own).
    Silent,
    /// A `RunFailed` event with the logged code, before the log entry.
    EmitFirst,
    /// A `RunFailed` event with this code, after the log entry.
    EmitAfter(ErrorCode),
}

/// A failing end of a run: the `RunFailed` entry to log (code,
/// retryable flag, message), how it is announced live, and the error
/// the run returns.
#[derive(Debug, Clone, PartialEq, Eq)]
pub struct RunFailure {
    pub code: ErrorCode,
    pub retryable: bool,
    pub message: String,
    pub notice: FailureNotice,
    pub error: AgentError,
}

/// Whether `f` logs `code`/`retryable`/`message`, is announced by
/// `notice`, and returns `error`.
pub open spec fn failure_is(
    f: RunFailure,
    code: Seq<char>,
    retryable: bool,
    message: Seq<char>,
    notice: FailureNotice,
    error: AgentError,
) -> bool {
    &&& f.code.0@ == code
    &&& f.retryable == retryable
    &&& f.message@ == message
    &&& f.notice == notice
    &&& f.error == error
}

fn code(text: &str) -> (c: ErrorCode)
    ensures
        c.0@ == text@,
{
    ErrorCode(String::from_str(text))
}

/// The most history plus system text, in bytes, a request may carry.
pub const CONTEXT_LIMIT_BYTES: usize = 128_000;

/// Whether a request whose serialized history takes `history_bytes` and
/// whose system text takes `context_bytes` is over the context limit
/// (the sum saturates).
pub fn exceeds_context(history_bytes: usize, context_bytes: usize) -> (b: bool)
    ensures
        b == (history_bytes + context_bytes > CONTEXT_LIMIT_BYTES),
{
    history_bytes.saturating_add(context_bytes) > CONTEXT_LIMIT_BYTES
}

/// The failure for a request over the context limit.
pub fn context_limit_failure() -> (f: RunFailure)
    ensures
        failure_is(
            f,
            "context_limit"@,
            false,
            agent_error_text(AgentError::ContextLimit),
            FailureNotice::EmitFirst,
            AgentError::ContextLimit,
        ),
{
    let error = AgentError::ContextLimit;
    RunFailure { code: code("context_limit"), retryable: false, message: error.message(), notice: FailureNotice::EmitFirst, error }
}

/// The failure when `max_turns` turns passed without the run finishing.
pub fn max_turns_failure(max_turns: u32) -> (f: RunFailure)
    ensures
        failure_is(
            f,
            "max_turns"@,
            false,
            agent_error_text(AgentError::MaxTurnsExceeded(max_turns)),
            FailureNotice::EmitFirst,
            AgentError::MaxTurnsExceeded(max_turns),
        ),
{
    let error = AgentError::MaxTurnsExceeded(max_turns);
    RunFailure { code: code("max_turns"), retryable: false, message: error.message(), notice: FailureNotice::EmitFirst, error }
}

/// The logged code and retryable flag of a provider that failed to open
/// its stream.
pub open spec fn open_failure_code(e: ProviderError) -> (Seq<char>, bool) {
    match e {
        ProviderError::Upstream { retryable, .. } => ("provider_upstream"@, retryable),
        ProviderError::StreamInvalid(_) => ("stream_invalid"@, true),
        ProviderError::Cancelled => ("cancelled"@, false),
    }
}

/// The failure when the provider cannot open a stream: logged with a
/// code by the kind of error, announced afterwards as `provider_error`.
pub fn open_failure(error: ProviderError) -> (f: RunFailure)
    ensures
        f.code.0@ == open_failure_code(error).0,
        f.retryable == open_failure_code(error).1,
        f.message@ == provider_error_text(error),
        f.notice matches FailureNotice::EmitAfter(c) && c.0@ == "provider_error"@,
        is_provider_failure(f.error, error),
{
    let (c, retryable) = match &error {
        ProviderError::Upstream { retryable, .. } => (code("provider_upstream"), *retryable),
        ProviderError::StreamInvalid(_) => (code("stream_invalid"), true),
        ProviderError::Cancelled => (code("cancelled"), false),
    };
    let message = error.message();
    RunFailure {
        code: c,
        retryable,
        message,
        notice: FailureNotice::EmitAfter(code("provider_error")),
        error: map_provider_error(error),
    }
}

/// What the loop accumulates while it reads one turn's stream: the
/// assistant text, the non-text parts in arrival order, and whether any
/// event was seen.
pub struct TurnAccumulator {
    pub text: String,
    pub parts: Vec<Part>,
    pub seen: bool,
}

impl TurnAccumulator {
    /// Nothing read yet.
    pub fn new() -> (t: Self)
        ensures
            t.text@ == Seq::<char>::empty(),
            t.parts@ == Seq::<Part>::empty(),
            !t.seen,
    {
        TurnAccumulator { text: String::new(), parts: Vec::new(), seen: false }
    }
}

/// What one item of the provider stream does to the run.
pub enum StreamStep {
    /// Keep reading; pass `forward` to the live sink first, if any.
    Continue { forward: Option<AgentEvent> },
    /// The model finished the turn.
    Finished { usage: Usage, stop_reason: StopReason },
    /// The stream ended without a terminal event: go on to the next turn.
    Ended,
    /// The run is interrupted.
    Interrupt,
    /// The run fails.
    Fail(RunFailure),
}

/// The message of the failure for a stream that ended with no events.
pub open spec fn empty_stream_text() -> Seq<char> {
    "provider stream ended with no events"@
}

/// Fold one stream item (`None` when the stream ended) into the turn.
///
/// Text deltas extend the text; reasoning deltas and tool calls become
/// parts; both are forwarded, as is `ModelStarted`. `ModelFinished` is
/// forwarded and finishes the turn. Tool output, tool results, stray
/// run starts and finishes are only noted as seen. A cancellation
/// interrupts; a `RunFailed` from the provider fails the run silently
/// with its own code; a stream error fails it with `stream_error`; and a
/// stream that ends before any event fails it with `empty_stream`.
pub fn on_stream_item(acc: &mut TurnAccumulator, item: Option<Result<AgentEvent, ProviderError>>) -> (step: StreamStep)
    ensures
        match item {
            Some(Ok(AgentEvent::ModelStarted)) => step == (StreamStep::Continue {
                forward: Some(AgentEvent::ModelStarted),
            }) && final(acc).text@ == old(acc).text@ && final(acc).parts@ == old(acc).parts@
                && final(acc).seen,
            Some(Ok(AgentEvent::TextDelta { text })) => step == (StreamStep::Continue {
                forward: Some(AgentEvent::TextDelta { text }),
            }) && final(acc).text@ == old(acc).text@ + text@ && final(acc).parts@ == old(acc).parts@
                && final(acc).seen,
            Some(Ok(AgentEvent::ReasoningDelta { text })) => step == (StreamStep::Continue {
                forward: Some(AgentEvent::ReasoningDelta { text }),
            }) && final(acc).text@ == old(acc).text@ && final(acc).parts@ == old(acc).parts@.push(
                Part::Reasoning { text },
            ) && final(acc).seen,
            Some(Ok(AgentEvent::ToolStarted { call_id, name, args })) => step == (StreamStep::Continue {
                forward: Some(AgentEvent::ToolStarted { call_id, name, args }),
            }) && final(acc).text@ == old(acc).text@ && final(acc).parts@ == old(acc).parts@.push(
                Part::ToolCall { id: call_id, name, args },
            ) && final(acc).seen,
            Some(Ok(AgentEvent::ModelFinished { usage, stop_reason })) => step == (StreamStep::Finished {
                usage,
                stop_reason,
            }) && *final(acc) == *old(acc),
            Some(Ok(AgentEvent::RunCancelled)) => step is Interrupt && *final(acc) == *old(acc),
            Some(Ok(AgentEvent::RunFailed { code, retryable, message })) => step matches StreamStep::Fail(f)
                && f.code == code && f.retryable == retryable && f.message == message && f.notice
                is Silent && f.error == AgentError::Provider(message) && *final(acc) == *old(acc),
            Some(Ok(_)) => step == (StreamStep::Continue { forward: None })
                && final(acc).text@ == old(acc).text@ && final(acc).parts@ == old(acc).parts@
                && final(acc).seen,
            Some(Err(e)) => step matches StreamStep::Fail(f) && f.code.0@ == "stream_error"@
                && f.retryable && f.message@ == provider_error_text(e) && f.notice is EmitFirst
                && is_provider_failure(f.error, e) && *final(acc) == *old(acc),
            None => if !old(acc).seen && old(acc).text@.len() == 0 && old(acc).parts@.len() == 0 {
                step matches StreamStep::Fail(f) && failure_is(
                    f,
                    "empty_stream"@,
                    true,
                    empty_stream_text(),
                    FailureNotice::EmitFirst,
                    AgentError::Provider(f.message),
                ) && *final(acc) == *old(acc)
            } else {
                step is Ended && *final(acc) == *old(acc)
            },
        },
{
    match item {
        Some(Ok(event)) => match event {
            AgentEvent::ModelStarted => {
                acc.seen = true;
                StreamStep::Continue { forward: Some(AgentEvent::ModelStarted) }
            },
            AgentEvent::TextDelta { text } => {
                acc.text.append(text.as_str());
                acc.seen = true;
                StreamStep::Continue { forward: Some(AgentEvent::TextDelta { text }) }
            },
            AgentEvent::ReasoningDelta { text } => {
                acc.parts.push(Part::Reasoning { text: text.clone() });
                acc.seen = true;
                StreamStep::Continue { forward: Some(AgentEvent::ReasoningDelta { text }) }
            },
            AgentEvent::ToolStarted { call_id, name, args } => {
                acc.parts.push(Part::ToolCall { id: call_id, name: name.clone(), args: args.clone() });
                acc.seen = true;
                StreamStep::Continue { forward: Some(AgentEvent::ToolStarted { call_id, name, args }) }
            },
            AgentEvent::ModelFinished { usage, stop_reason } => StreamStep::Finished { usage, stop_reason },
            AgentEvent::RunCancelled => StreamStep::Interrupt,
            AgentEvent::RunFailed { code, retryable, message } => {
                let m = message.clone();
                StreamStep::Fail(
                    RunFailure { code, retryable, message, notice: FailureNotice::Silent, error: AgentError::Provider(m) },
                )
            },
            _ => {
                acc.seen = true;
                StreamStep::Continue { forward: None }
            },
        },
        Some(Err(error)) => {
            let message = error.message();
            StreamStep::Fail(
                RunFailure {
                    code: code("stream_error"),
                    retryable: true,
                    message,
                    notice: FailureNotice::EmitFirst,
                    error: map_provider_error(error),
                },
            )
        },
        None => {
            if !acc.seen && acc.text.as_str().is_empty() && acc.parts.len() == 0 {
                let message = String::from_str("provider stream ended with no events");
                let m = message.clone();
                StreamStep::Fail(
                    RunFailure {
                        code: code("empty_stream"),
                        retryable: true,
                        message,
                        notice: FailureNotice::EmitFirst,
                        error: AgentError::Provider(m),
                    },
                )
            } else {
                StreamStep::Ended
            }
        },
    }
}

} // verus!

verus! {

/// The parts of a finished turn's assistant message.
pub fn assistant_parts(acc: TurnAccumulator) -> (parts: Vec<Part>)
    ensures
        acc.text@.len() > 0 ==> parts@.len() == acc.parts@.len() + 1 && parts@[0] == (Part::Text {
            text: acc.text,
        }) && parts@.drop_first() == acc.parts@,
        acc.text@.len() == 0 ==> parts@ == acc.parts@,
{
    let TurnAccumulator { text, parts, .. } = acc;
    if text.as_str().is_empty() {
        parts
    } else {
        let mut out = parts;
        out.insert(0, Part::Text { text });
        assert(out@.drop_first() =~= acc.parts@);
        out
    }
}

/// How a turn ends once the model finished it.
pub enum TurnEnd {
    /// Run the turn's tool calls, or finish the run when there are none.
    Proceed,
    /// The run is interrupted.
    Interrupt,
    /// The run fails.
    Fail(RunFailure),
}

/// Whether `end` is how a turn that stopped for `stop_reason` ends (see
/// [`after_model_finished`]).
pub open spec fn ends_as(stop_reason: StopReason, end: TurnEnd) -> bool {
    &&& stop_reason is Error ==> (end matches TurnEnd::Fail(f) && f.code.0@ == "provider_error"@ && !f.retryable
        && f.message@ == agent_error_text(f.error) && (f.notice matches FailureNotice::EmitAfter(c)
        && c.0@ == "provider_error"@) && (f.error matches AgentError::Provider(m) && m@
        == "provider returned stop_reason=Error"@))
    &&& stop_reason is MaxTokens ==> (end matches TurnEnd::Fail(f) && f.code.0@ == "max_tokens"@ && f.retryable
        && f.message@ == agent_error_text(f.error) && (f.notice matches FailureNotice::EmitAfter(c)
        && c.0@ == "max_tokens"@) && (f.error matches AgentError::Provider(m) && m@
        == "provider returned stop_reason=MaxTokens"@))
    &&& stop_reason is Cancellation ==> end is Interrupt
    &&& (stop_reason is EndTurn || stop_reason is ToolUse) ==> end is Proceed
}

/// What a stop reason means for the run: an error or a token limit
/// fails it (the latter retryably), a cancellation interrupts it, and
/// an ordinary end of turn or a tool-use stop proceeds.
pub fn after_model_finished(stop_reason: StopReason) -> (end: TurnEnd)
    ensures
        ends_as(stop_reason, end),
{
    match stop_reason {
        StopReason::Error => {
            let error = AgentError::Provider(String::from_str("provider returned stop_reason=Error"));
            let message = error.message();
            let c = code("provider_error");
            let notice = FailureNotice::EmitAfter(code("provider_error"));
            TurnEnd::Fail(RunFailure { code: c, retryable: false, message, notice, error })
        },
        StopReason::MaxTokens => {
            let error = AgentError::Provider(String::from_str("provider returned stop_reason=MaxTokens"));
            let message = error.message();
            let c = code("max_tokens");
            let notice = FailureNotice::EmitAfter(code("max_tokens"));
            TurnEnd::Fail(RunFailure { code: c, retryable: true, message, notice, error })
        },
        StopReason::Cancellation => TurnEnd::Interrupt,
        StopReason::EndTurn | StopReason::ToolUse => TurnEnd::Proceed,
    }
}

/// The tool calls among `parts`, in order.
pub open spec fn tool_calls_spec(parts: Seq<Part>) -> Seq<ToolCall>
    decreases parts.len(),
{
    if parts.len() == 0 {
        Seq::empty()
    } else {
        tool_calls_spec(parts.drop_last()) + match parts.last() {
            Part::ToolCall { id, name, args } => seq![ToolCall { call_id: id, name, args }],
            _ => Seq::empty(),
        }
    }
}

/// The tool-call parts among `parts`, in order.
pub open spec fn tool_call_parts(parts: Seq<Part>) -> Seq<Part> {
    parts.filter(|p: Part| p is ToolCall)
}

/// Whether `call` is the call the tool-call part `part` asks for.
pub open spec fn call_of_part(call: ToolCall, part: Part) -> bool {
    part matches Part::ToolCall { id, name, args } && call.call_id == id && call.name == name && call.args == args
}

/// A turn's tool calls are exactly its tool-call parts, in order: one
/// call per `ToolCall` part, the `k`-th carrying the `k`-th part's id,
/// name and arguments.
pub proof fn law_tool_calls_are_the_tool_call_parts(parts: Seq<Part>)
    ensures
        tool_calls_spec(parts).len() == tool_call_parts(parts).len(),
        forall|k: int|
            0 <= k < tool_calls_spec(parts).len() ==> call_of_part(
                #[trigger] tool_calls_spec(parts)[k],
                tool_call_parts(parts)[k],
            ),
    decreases parts.len(),
{
    if parts.len() > 0 {
        law_tool_calls_are_the_tool_call_parts(parts.drop_last());
        let prev = tool_calls_spec(parts.drop_last());
        let prev_parts = tool_call_parts(parts.drop_last());
        reveal(Seq::filter);
        assert(tool_call_parts(parts) == (if parts.last() is ToolCall {
            prev_parts.push(parts.last())
        } else {
            prev_parts
        }));
        assert forall|k: int| 0 <= k < tool_calls_spec(parts).len() implies call_of_part(
            #[trigger] tool_calls_spec(parts)[k],
            tool_call_parts(parts)[k],
        ) by {
            if k < prev.len() {
                assert(tool_calls_spec(parts)[k] == prev[k]);
                assert(tool_call_parts(parts)[k] == prev_parts[k]);
            }
        }
    }
}

/// The tool calls the assistant message `parts` asks for, in order.
pub fn tool_calls_of(parts: &Vec<Part>) -> (calls: Vec<ToolCall>)
    ensures
        calls@ == tool_calls_spec(parts@),
        calls@.len() == tool_call_parts(parts@).len(),
        forall|k: int| 0 <= k < calls@.len() ==> call_of_part(#[trigger] calls@[k], tool_call_parts(parts@)[k]),
{
    proof {
        law_tool_calls_are_the_tool_call_parts(parts@);
    }
    let mut calls: Vec<ToolCall> = Vec::new();
    let mut i: usize = 0;
    while i < parts.len()
        invariant
            i <= parts@.len(),
            calls@ == tool_calls_spec(parts@.take(i as int)),
        decreases parts@.len() - i,
    {
        assert(parts@.take(i + 1).drop_last() =~= parts@.take(i as int));
        if let Part::ToolCall { id, name, args } = &parts[i] {
            calls.push(ToolCall { call_id: *id, name: name.clone(), args: args.clone() });
        }
        proof {
            let p = parts@.take(i + 1);
            assert(p.last() == parts@[i as int]);
        }
        i = i + 1;
        assert(calls@ =~= tool_calls_spec(parts@.take(i as int)));
    }
    assert(parts@.take(i as int) =~= parts@);
    calls
}

/// The run's tool-call count after charging `n` more calls to `total`:
/// `n` taken as a `u32`, the sum saturating at `u32::MAX`.
pub open spec fn charged_calls(total: u32, n: usize) -> int {
    let sum = total + (n as u32);
    if sum > u32::MAX {
        u32::MAX as int
    } else {
        sum
    }
}

/// Whether `r` is what charging `n` more calls to a run at `total`
/// gives under the limit `max_tool_calls` (see [`charge_tool_calls`]).
pub open spec fn charge_is(total: u32, n: usize, max_tool_calls: u32, r: Result<u32, RunFailure>) -> bool {
    let charged = charged_calls(total, n);
    &&& charged <= max_tool_calls ==> r == Ok::<u32, RunFailure>(charged as u32)
    &&& charged > max_tool_calls ==> (r matches Err(f) && failure_is(
        f,
        "max_tool_calls"@,
        false,
        agent_error_text(AgentError::MaxToolCallsExceeded(max_tool_calls)),
        FailureNotice::EmitFirst,
        AgentError::MaxToolCallsExceeded(max_tool_calls),
    ))
}

/// The run's tool-call count after a turn asking for `n` more calls
/// (`n` taken as a `u32`, the sum saturating), or the failure when it
/// passes `max_tool_calls`.
pub fn charge_tool_calls(total: u32, n: usize, max_tool_calls: u32) -> (r: Result<u32, RunFailure>)
    ensures
        charge_is(total, n, max_tool_calls, r),
{
    #[verifier::truncate]
    let k = n as u32;
    let charged = total.saturating_add(k);
    if charged > max_tool_calls {
        let error = AgentError::MaxToolCallsExceeded(max_tool_calls);
        Err(
            RunFailure {
                code: code("max_tool_calls"),
                retryable: false,
                message: error.message(),
                notice: FailureNotice::EmitFirst,
                error,
            },
        )
    } else {
        Ok(charged)
    }
}

/// What the loop does once a turn's stream is over.
#[derive(Debug, Clone, PartialEq, Eq)]
pub enum LoopAction {
    /// The stream ended without the model finishing: sample again.
    Resample,
    /// Run the turn's tool calls, then sample again; `total` calls are
    /// now charged to the run.
    RunTools { total: u32 },
    /// The model finished without asking for tools: the run is done.
    Finish,
    /// The run is interrupted.
    Interrupt,
    /// The run fails.
    Fail(RunFailure),
}

/// The kind of a [`LoopAction`]: failures told apart by their cause.
#[derive(PartialEq, Eq, Structural)]
pub enum ActionKind {
    Resample,
    RunTools(u32),
    Finish,
    Interrupt,
    /// The stop reason failed the run.
    StopFailure,
    /// The tool-call budget failed the run.
    BudgetFailure,
}

/// The kind of `a`.
pub open spec fn kind_of(a: LoopAction) -> ActionKind {
    match a {
        LoopAction::Resample => ActionKind::Resample,
        LoopAction::RunTools { total } => ActionKind::RunTools(total),
        LoopAction::Finish => ActionKind::Finish,
        LoopAction::Interrupt => ActionKind::Interrupt,
        LoopAction::Fail(f) => if f.error is MaxToolCallsExceeded {
            ActionKind::BudgetFailure
        } else {
            ActionKind::StopFailure
        },
    }
}

/// What [`turn_action`] does, by kind.
pub open spec fn action_kind(stop: Option<StopReason>, n_calls: usize, total: u32, max_tool_calls: u32) -> ActionKind {
    match stop {
        None => ActionKind::Resample,
        Some(s) => if s is Cancellation {
            ActionKind::Interrupt
        } else if s is Error || s is MaxTokens {
            ActionKind::StopFailure
        } else if n_calls == 0 {
            ActionKind::Finish
        } else if charged_calls(total, n_calls) <= max_tool_calls {
            ActionKind::RunTools(charged_calls(total, n_calls) as u32)
        } else {
            ActionKind::BudgetFailure
        },
    }
}

/// The turn after `turn` (0 before the first), while fewer than
/// `max_turns` have been sampled.
pub open spec fn next_turn_spec(turn: u32, max_turns: u32) -> Option<u32> {
    if turn < max_turns {
        Some((turn + 1) as u32)
    } else {
        None
    }
}

/// The next turn's number after `turn` (0 before the first), or `None`
/// once `max_turns` turns have been sampled.
pub fn next_turn(turn: u32, max_turns: u32) -> (r: Option<u32>)
    ensures
        r == next_turn_spec(turn, max_turns),
{
    if turn < max_turns {
        Some(turn + 1)
    } else {
        None
    }
}

/// What the loop does after a turn whose stream finished with `stop`
/// (`None` when it ended without finishing) and asked for `n_calls` tool
/// calls, `total` calls having been charged to the run so far: an
/// unfinished stream is sampled again; a finished one ends as its stop
/// reason says ([`ends_as`]); a turn that proceeds runs its calls,
/// charged against `max_tool_calls` ([`charge_is`]), or finishes the run
/// when there are none.
pub fn turn_action(stop: Option<StopReason>, n_calls: usize, total: u32, max_tool_calls: u32) -> (a: LoopAction)
    ensures
        kind_of(a) == action_kind(stop, n_calls, total, max_tool_calls),
        match stop {
            None => a is Resample,
            Some(s) => {
                &&& s is Cancellation ==> a is Interrupt
                &&& (s is Error || s is MaxTokens) ==> (a matches LoopAction::Fail(f) && ends_as(
                    s,
                    TurnEnd::Fail(f),
                ))
                &&& (s is EndTurn || s is ToolUse) ==> if n_calls == 0 {
                    a is Finish
                } else {
                    (a matches LoopAction::RunTools { total: t } && charge_is(
                        total,
                        n_calls,
                        max_tool_calls,
                        Ok::<u32, RunFailure>(t),
                    )) || (a matches LoopAction::Fail(f) && charge_is(
                        total,
                        n_calls,
                        max_tool_calls,
                        Err::<u32, RunFailure>(f),
                    ))
                }
            },
        },
{
    let s = match stop {
        None => return LoopAction::Resample,
        Some(s) => s,
    };
    match after_model_finished(s) {
        TurnEnd::Fail(f) => LoopAction::Fail(f),
        TurnEnd::Interrupt => LoopAction::Interrupt,
        TurnEnd::Proceed => {
            if n_calls == 0 {
                LoopAction::Finish
            } else {
                match charge_tool_calls(total, n_calls, max_tool_calls) {
                    Ok(t) => LoopAction::RunTools { total: t },
                    Err(f) => LoopAction::Fail(f),
                }
            }
        },
    }
}

/// What a policy decision means for a tool call about to run.
pub enum PolicyStep {
    /// Run the tool.
    Run,
    /// Do not run it; record this outcome instead.
    Synthetic(ToolOutcome),
    /// Ask the resolver about the call, under this ask id.
    AskUser(String),
    /// The policy asked but nobody can answer: the run ends with this
    /// error.
    Abort(AgentError),
}

/// Whether `o` is the untruncated error outcome with `code` and
/// `message`.
pub open spec fn is_synthetic(o: ToolOutcome, code: Seq<char>, message: Seq<char>) -> bool {
    o matches ToolOutcome::Error { code: c, message: m, truncated } && c.0@ == code && m@ == message
        && !truncated
}

/// The step for a policy decision: allow runs the tool, deny records a
/// `policy_denied` outcome with the reason, and an ask goes to the
/// resolver, or aborts the run when no resolver is configured.
pub fn policy_step(decision: Decision, has_resolver: bool) -> (s: PolicyStep)
    ensures
        match decision@ {
            DecisionView::Allow => s is Run,
            DecisionView::Deny(reason) => s matches PolicyStep::Synthetic(o) && is_synthetic(
                o,
                "policy_denied"@,
                reason,
            ),
            DecisionView::Ask(ask_id) => if has_resolver {
                s matches PolicyStep::AskUser(a) && a@ == ask_id
            } else {
                s matches PolicyStep::Abort(AgentError::Provider(m)) && m@ == "policy requested Ask for "@
                    + ask_id + " but no resolver is configured"@
            },
        },
{
    match decision {
        Decision::Allow => PolicyStep::Run,
        Decision::Deny { reason } => PolicyStep::Synthetic(
            ToolOutcome::Error { code: code("policy_denied"), message: reason, truncated: false },
        ),
        Decision::Ask { ask_id } => {
            if has_resolver {
                PolicyStep::AskUser(ask_id)
            } else {
                let mut m = String::from_str("policy requested Ask for ");
                m.append(ask_id.as_str());
                m.append(" but no resolver is configured");
                PolicyStep::Abort(AgentError::Provider(m))
            }
        },
    }
}

/// How a forwarded ask was answered.
pub enum AskReply {
    /// The request could not be handed to the resolver.
    SendFailed,
    /// The human answered.
    Answered(AskResponse),
    /// The responder went away without answering.
    Dropped,
}

/// The outcome an ask's reply leads to: `None` runs the tool; a denial
/// records `policy_denied`; a lost request or responder records
/// `policy_ask_closed`.
pub fn ask_reply_outcome(reply: AskReply) -> (o: Option<ToolOutcome>)
    ensures
        match reply {
            AskReply::SendFailed => o matches Some(x) && is_synthetic(
                x,
                "policy_ask_closed"@,
                "ask resolver dropped before responding"@,
            ),
            AskReply::Answered(AskResponse::Allow) => o is None,
            AskReply::Answered(AskResponse::Deny) => o matches Some(x) && is_synthetic(
                x,
                "policy_denied"@,
                "denied by user"@,
            ),
            AskReply::Dropped => o matches Some(x) && is_synthetic(
                x,
                "policy_ask_closed"@,
                "ask responder dropped without answering"@,
            ),
        },
{
    match reply {
        AskReply::SendFailed => Some(
            ToolOutcome::Error {
                code: code("policy_ask_closed"),
                message: String::from_str("ask resolver dropped before responding"),
                truncated: false,
            },
        ),
        AskReply::Answered(AskResponse::Allow) => None,
        AskReply::Answered(AskResponse::Deny) => Some(
            ToolOutcome::Error {
                code: code("policy_denied"),
                message: String::from_str("denied by user"),
                truncated: false,
            },
        ),
        AskReply::Dropped => Some(
            ToolOutcome::Error {
                code: code("policy_ask_closed"),
                message: String::from_str("ask responder dropped without answering"),
                truncated: false,
            },
        ),
    }
}

/// The history message recording a tool's outcome: a tool-result
/// message (with a fresh id) holding the single result part.
pub fn tool_result_message(call_id: ToolCallId, outcome: &ToolOutcome) -> (m: Message)
    ensures
        m.role == Role::ToolResult,
        m.parts@ == seq![result_part(call_id, event_outcome_of(*outcome))],
{
    let event = to_event_outcome(outcome);
    let mut parts: Vec<Part> = Vec::new();
    parts.push(make_result_part(call_id, &event));
    assert(parts@ =~= seq![result_part(call_id, event_outcome_of(*outcome))]);
    Message { id: MessageId(new_id()), role: Role::ToolResult, parts }
}

} // verus!

verus! {

/// How a run driven by [`next_turn`] and [`turn_action`] ends.
#[derive(PartialEq, Eq, Structural)]
pub enum RunEnd {
    /// `max_turns` turns were sampled without the run ending.
    MaxTurns,
    Finished,
    Interrupted,
    /// A stop reason failed the run.
    StopFailed,
    /// The tool-call budget failed the run.
    OverBudget,
}

/// What a run did: how many times it sampled the model, how many tool
/// calls it ran in each turn that ran tools (in order), and how it ended.
pub struct RunTrace {
    pub sampled: nat,
    pub ran: Seq<usize>,
    pub end: RunEnd,
}

/// The run from turn `turn` (that many sampled so far) with `total`
/// tool calls charged, when the `k`-th sampling of the model (from 0)
/// ends with the stop reason and call count `model(k)`: each turn is
/// begun by [`next_turn`] and closed by [`turn_action`].
pub open spec fn run_from(
    turn: u32,
    total: u32,
    max_turns: u32,
    max_tool_calls: u32,
    model: spec_fn(nat) -> (Option<StopReason>, usize),
) -> RunTrace
    decreases max_turns - turn,
{
    match next_turn_spec(turn, max_turns) {
        None => RunTrace { sampled: 0, ran: Seq::empty(), end: RunEnd::MaxTurns },
        Some(next) => {
            let (stop, n) = model(turn as nat);
            match action_kind(stop, n, total, max_tool_calls) {
                ActionKind::Resample => {
                    let r = run_from(next, total, max_turns, max_tool_calls, model);
                    RunTrace { sampled: r.sampled + 1, ran: r.ran, end: r.end }
                },
                ActionKind::RunTools(t) => {
                    let r = run_from(next, t, max_turns, max_tool_calls, model);
                    RunTrace { sampled: r.sampled + 1, ran: seq![n] + r.ran, end: r.end }
                },
                ActionKind::Finish => RunTrace { sampled: 1, ran: Seq::empty(), end: RunEnd::Finished },
                ActionKind::Interrupt => RunTrace { sampled: 1, ran: Seq::empty(), end: RunEnd::Interrupted },
                ActionKind::StopFailure => RunTrace { sampled: 1, ran: Seq::empty(), end: RunEnd::StopFailed },
                ActionKind::BudgetFailure => RunTrace { sampled: 1, ran: Seq::empty(), end: RunEnd::OverBudget },
            }
        },
    }
}

/// A whole run, from no turns and no tool calls.
pub open spec fn run_trace(
    max_turns: u32,
    max_tool_calls: u32,
    model: spec_fn(nat) -> (Option<StopReason>, usize),
) -> RunTrace {
    run_from(0, 0, max_turns, max_tool_calls, model)
}

/// The sum of `s`.
pub open spec fn total_of(s: Seq<usize>) -> int
    decreases s.len(),
{
    if s.len() == 0 {
        0
    } else {
        s[0] + total_of(s.drop_first())
    }
}

proof fn lemma_turns_from(
    turn: u32,
    total: u32,
    max_turns: u32,
    max_tool_calls: u32,
    model: spec_fn(nat) -> (Option<StopReason>, usize),
)
    requires
        turn <= max_turns,
    ensures
        ({
            let r = run_from(turn, total, max_turns, max_tool_calls, model);
            &&& turn + r.sampled <= max_turns
            &&& r.end is MaxTurns ==> turn + r.sampled == max_turns
            &&& (forall|k: nat| turn <= k < max_turns ==> (#[trigger] model(k)).0 is None) ==> (r.end is MaxTurns
                && turn + r.sampled == max_turns)
        }),
    decreases max_turns - turn,
{
    if turn < max_turns {
        let next = (turn + 1) as u32;
        let (stop, n) = model(turn as nat);
        match action_kind(stop, n, total, max_tool_calls) {
            ActionKind::Resample => lemma_turns_from(next, total, max_turns, max_tool_calls, model),
            ActionKind::RunTools(t) => lemma_turns_from(next, t, max_turns, max_tool_calls, model),
            _ => {},
        }
    }
}

/// A run samples the model at most `max_turns` times, and ends for want
/// of turns only after exactly `max_turns`; when no sampling ever
/// finishes, the run samples exactly `max_turns` times and ends for want
/// of turns (the loop then fails with [`max_turns_failure`]).
pub proof fn law_turns_bounded(
    max_turns: u32,
    max_tool_calls: u32,
    model: spec_fn(nat) -> (Option<StopReason>, usize),
)
    ensures
        run_trace(max_turns, max_tool_calls, model).sampled <= max_turns,
        run_trace(max_turns, max_tool_calls, model).end is MaxTurns ==> run_trace(
            max_turns,
            max_tool_calls,
            model,
        ).sampled == max_turns,
        (forall|k: nat| k < max_turns ==> (#[trigger] model(k)).0 is None) ==> run_trace(
            max_turns,
            max_tool_calls,
            model,
        ).end is MaxTurns && run_trace(max_turns, max_tool_calls, model).sampled == max_turns,
{
    lemma_turns_from(0, 0, max_turns, max_tool_calls, model);
}

proof fn lemma_budget_from(
    turn: u32,
    total: u32,
    max_turns: u32,
    max_tool_calls: u32,
    model: spec_fn(nat) -> (Option<StopReason>, usize),
)
    requires
        turn <= max_turns,
        total <= max_tool_calls < u32::MAX,
        forall|k: nat| (#[trigger] model(k)).1 <= u32::MAX,
    ensures
        ({
            let r = run_from(turn, total, max_turns, max_tool_calls, model);
            &&& total + total_of(r.ran) <= max_tool_calls
            &&& forall|i: int| 0 <= i < r.ran.len() ==> #[trigger] r.ran[i] > 0
            &&& r.end is OverBudget ==> r.sampled >= 1 && total + total_of(r.ran) + model(
                (turn + r.sampled - 1) as nat,
            ).1 > max_tool_calls
        }),
    decreases max_turns - turn,
{
    if turn < max_turns {
        let next = (turn + 1) as u32;
        let (stop, n) = model(turn as nat);
        assert(model(turn as nat).1 <= u32::MAX);
        match action_kind(stop, n, total, max_tool_calls) {
            ActionKind::Resample => lemma_budget_from(next, total, max_turns, max_tool_calls, model),
            ActionKind::RunTools(t) => {
                lemma_budget_from(next, t, max_turns, max_tool_calls, model);
                let r = run_from(next, t, max_turns, max_tool_calls, model);
                assert((seq![n] + r.ran).drop_first() =~= r.ran);
                assert((n as u32) == n);
                assert forall|i: int| 0 <= i < (seq![n] + r.ran).len() implies #[trigger] (seq![n]
                    + r.ran)[i] > 0 by {
                    if i > 0 {
                        assert((seq![n] + r.ran)[i] == r.ran[i - 1]);
                    }
                }
            },
            ActionKind::BudgetFailure => {
                assert((n as u32) == n);
            },
            _ => {},
        }
    }
}

/// The tool-call budget holds across turns: the calls the run lets run
/// never add up to more than `max_tool_calls`, each turn that runs tools
/// runs all the calls it asked for (`ran` holds those counts, in turn
/// order), and a run that fails on the budget does so at the first turn
/// whose calls would take the sum past `max_tool_calls`, running none of
/// them. (Stated for counts that fit a `u32` and a limit below
/// `u32::MAX`, where the charge does not wrap or saturate.)
pub proof fn law_tool_budget(
    max_turns: u32,
    max_tool_calls: u32,
    model: spec_fn(nat) -> (Option<StopReason>, usize),
)
    requires
        max_tool_calls < u32::MAX,
        forall|k: nat| (#[trigger] model(k)).1 <= u32::MAX,
    ensures
        total_of(run_trace(max_turns, max_tool_calls, model).ran) <= max_tool_calls,
        run_trace(max_turns, max_tool_calls, model).end is OverBudget ==> total_of(
            run_trace(max_turns, max_tool_calls, model).ran,
        ) + model((run_trace(max_turns, max_tool_calls, model).sampled - 1) as nat).1 > max_tool_calls,
{
    lemma_budget_from(0, 0, max_turns, max_tool_calls, model);
}

} // verus!

verus! {

/// Replaying more entries only adds messages after those already rebuilt.
proof fn lemma_replay_extends(entries: Seq<SessionEntry>, m: int, n: int)
    requires
        0 <= m <= n <= entries.len(),
    ensures
        replay(entries.take(m)).history.len() <= replay(entries.take(n)).history.len(),
        replay(entries.take(n)).history.take(replay(entries.take(m)).history.len() as int) == replay(
            entries.take(m),
        ).history,
    decreases n - m,
{
    if m < n {
        lemma_replay_extends(entries, m, n - 1);
        assert(entries.take(n).drop_last() =~= entries.take(n - 1));
        let prev = replay(entries.take(n - 1)).history;
        let next = replay(entries.take(n)).history;
        let base = replay(entries.take(m)).history;
        assert(next == prev || next == prev.push(next.last()));
        assert(next.take(base.len() as int) =~= base);
    } else {
        assert(replay(entries.take(n)).history.take(replay(entries.take(m)).history.len() as int)
            =~= replay(entries.take(m)).history);
    }
}

/// Resuming keeps every logged message where it was logged: if entry
/// `k` of a log is an assistant message, the rebuilt history holds,
/// right after what the entries before it rebuild, a message with its id,
/// the assistant role and its parts verbatim; a user entry likewise
/// gives a user message with its text as the one part.
pub proof fn law_resume_keeps_logged_messages(entries: Seq<SessionEntry>, k: int)
    requires
        0 <= k < entries.len(),
    ensures
        ({
            let i = replay(entries.take(k)).history.len() as int;
            let h = replay(entries).history;
            match entries[k] {
                SessionEntry::AssistantMessage { id, parts, .. } => i < h.len() && h[i] == MessageShape {
                    id: Some(id),
                    role: Role::Assistant,
                    parts: parts@,
                },
                SessionEntry::UserMessage { id, content, .. } => i < h.len() && h[i] == MessageShape {
                    id: Some(id),
                    role: Role::User,
                    parts: seq![Part::Text { text: content }],
                },
                _ => true,
            }
        }),
{
    lemma_replay_extends(entries, k + 1, entries.len() as int);
    assert(entries.take(k + 1).drop_last() =~= entries.take(k));
    assert(entries.take(entries.len() as int) =~= entries);
    let i = replay(entries.take(k)).history.len() as int;
    let hk = replay(entries.take(k + 1)).history;
    let h = replay(entries).history;
    match entries[k] {
        SessionEntry::AssistantMessage { .. } => {
            assert(entries.take(k + 1).last() == entries[k]);
            assert(hk.len() == i + 1);
            assert(h.take(hk.len() as int)[i] == h[i]);
        },
        SessionEntry::UserMessage { .. } => {
            assert(entries.take(k + 1).last() == entries[k]);
            assert(hk.len() == i + 1);
            assert(h.take(hk.len() as int)[i] == h[i]);
        },
        _ => {},
    }
}

} // verus!
