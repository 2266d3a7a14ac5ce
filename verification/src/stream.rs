//! Provider-neutral stream accumulator.
//!
//! [`StreamAccumulator`] is the only layer that turns
//! provider chunk streams into the project-owned [`AgentEvent`]
//! sequence. It buffers fragmented tool-call arguments and yields
//! events in source order.
//!
//! The accumulator is specified by a state model ([`AccState`]) and
//! two pure transition functions, [`push_state`] / [`push_events`] for
//! [`StreamAccumulator::push_chunk`] and [`finish_state`] /
//! [`finish_event`] for [`StreamAccumulator::finish`].

use vstd::prelude::*;

use crate::event::{AgentEvent, ErrorCode, StopReason, Usage};
use crate::ids::{spec_ulid_text, ulid_text, ToolCallId};
use crate::json::{json_as_str, json_error_text, json_null, json_parse, spec_json_as_str, spec_json_parse};
use crate::text::{all_ws, chars_of, first_non_ws, is_blank, trim_start_spec};

verus! {

/// A single chunk from any provider.
#[derive(Debug, Clone)]
pub enum ProviderChunk {
    /// The model invocation has begun.
    Started,
    /// Fragment of assistant text output.
    TextDelta { text: String },
    /// Fragment of assistant reasoning output.
    ReasoningDelta { text: String },
    /// Opens a tool-call assembly window.
    ToolCallStart { call_id: ToolCallId, name: String },
    /// Appends a JSON fragment to the matching open tool call.
    ToolArgumentsDelta { call_id: ToolCallId, fragment: String },
    /// Closes a tool-call assembly window.
    ToolCallComplete { call_id: ToolCallId },
    /// Terminal: the model invocation succeeded.
    Completed { usage: Usage, stop_reason: StopReason },
    /// Terminal: the model invocation failed.
    Failed { code: String, message: String, retryable: bool },
}

/// Errors an accumulator can surface.
#[derive(Debug)]
pub enum StreamError {
    /// The chunk stream violated an invariant.
    Invalid(String),
    /// A chunk held an incomplete UTF-8 sequence (unreachable with
    /// `String` payloads; kept for byte-level adapters).
    Utf8,
    /// Two `Completed` chunks were pushed in the same stream.
    DoubleCompleted,
    /// `finish` was called with a tool call still open.
    PendingToolCall(ToolCallId),
}

/// The display text of a [`StreamError`].
pub open spec fn stream_error_text(e: StreamError) -> Seq<char> {
    match e {
        StreamError::Invalid(m) => "stream invalid: "@ + m@,
        StreamError::Utf8 => "UTF-8 boundary error in stream"@,
        StreamError::DoubleCompleted => "double Completed"@,
        StreamError::PendingToolCall(id) => "stream ended with pending tool call: tool_call:"@
            + spec_ulid_text(id.0),
    }
}

impl StreamError {
    /// The human-readable message of this error (its display text).
    pub fn message(&self) -> (text: String)
        ensures
            text@ == stream_error_text(*self),
    {
        match self {
            StreamError::Invalid(m) => {
                let mut out = String::from_str("stream invalid: ");
                out.append(m.as_str());
                out
            },
            StreamError::Utf8 => String::from_str("UTF-8 boundary error in stream"),
            StreamError::DoubleCompleted => String::from_str("double Completed"),
            StreamError::PendingToolCall(id) => {
                let mut out = String::from_str("stream ended with pending tool call: tool_call:");
                let t = ulid_text(id.0);
                out.append(t.as_str());
                out
            },
        }
    }
}

/// A tool call still being assembled.
#[derive(Debug)]
struct PendingToolCall {
    call_id: ToolCallId,
    name: String,
    args_buf: String,
}

/// Model of one open tool call: its id, its name and the argument text
/// received so far.
pub struct PendingEntry {
    pub call_id: ToolCallId,
    pub name: String,
    pub args: Seq<char>,
}

/// Model of an accumulator.
pub struct AccState {
    /// Open tool calls, in `ToolCallStart` order.
    pub pending: Seq<PendingEntry>,
    /// All assistant text seen so far.
    pub text: Seq<char>,
    /// All reasoning text seen so far.
    pub reasoning: Seq<char>,
    /// Whether a terminal chunk has been accepted.
    pub finished: bool,
    /// The terminal event not yet handed out by `finish`.
    pub terminal: Option<AgentEvent>,
}

/// Whether a tool call with `id` is open.
pub open spec fn has_call(p: Seq<PendingEntry>, id: ToolCallId) -> bool {
    exists|i: int| 0 <= i < p.len() && (#[trigger] p[i]).call_id == id
}

/// The position of the open call `id` (meaningful when [`has_call`]).
pub open spec fn call_index(p: Seq<PendingEntry>, id: ToolCallId) -> int {
    choose|i: int| 0 <= i < p.len() && (#[trigger] p[i]).call_id == id
}

/// No two open calls share an id.
pub open spec fn unique_calls(p: Seq<PendingEntry>) -> bool {
    forall|i: int, j: int|
        0 <= i < p.len() && 0 <= j < p.len() && i != j ==> (#[trigger] p[i]).call_id != (
        #[trigger] p[j]).call_id
}

/// The JSON text `null`.
pub open spec fn null_text() -> Seq<char> {
    seq!['n', 'u', 'l', 'l']
}

/// The arguments value a completed tool call carries, given the
/// concatenated argument text: `null` for blank text, otherwise the
/// parsed JSON; a JSON string whose content starts (after leading
/// whitespace) with `{` is parsed once more, keeping the string if that
/// second parse fails. `None` when the text is not JSON.
pub open spec fn decode_args(buf: Seq<char>) -> Option<serde_json::Value> {
    if all_ws(buf) {
        spec_json_parse(null_text())
    } else {
        match spec_json_parse(buf) {
            None => None,
            Some(parsed) => match spec_json_as_str(parsed) {
                Some(inner) => if trim_start_spec(inner).len() > 0 && trim_start_spec(inner)[0]
                    == '{' {
                    match spec_json_parse(inner) {
                        Some(v) => Some(v),
                        None => Some(parsed),
                    }
                } else {
                    Some(parsed)
                },
                None => Some(parsed),
            },
        }
    }
}

/// The state after pushing `c` into `s`.
pub open spec fn push_state(s: AccState, c: ProviderChunk) -> AccState {
    if s.finished {
        s
    } else {
        match c {
            ProviderChunk::Started => s,
            ProviderChunk::TextDelta { text } => AccState { text: s.text + text@, ..s },
            ProviderChunk::ReasoningDelta { text } => AccState {
                reasoning: s.reasoning + text@,
                ..s
            },
            ProviderChunk::ToolCallStart { call_id, name } => if has_call(s.pending, call_id) {
                s
            } else {
                AccState {
                    pending: s.pending.push(PendingEntry { call_id, name, args: seq![] }),
                    ..s
                }
            },
            ProviderChunk::ToolArgumentsDelta { call_id, fragment } => if has_call(
                s.pending,
                call_id,
            ) {
                let i = call_index(s.pending, call_id);
                AccState {
                    pending: s.pending.update(
                        i,
                        PendingEntry { args: s.pending[i].args + fragment@, ..s.pending[i] },
                    ),
                    ..s
                }
            } else {
                s
            },
            ProviderChunk::ToolCallComplete { call_id } => if has_call(s.pending, call_id) {
                AccState { pending: s.pending.remove(call_index(s.pending, call_id)), ..s }
            } else {
                s
            },
            ProviderChunk::Completed { usage, stop_reason } => AccState {
                finished: true,
                terminal: Some(AgentEvent::ModelFinished { usage, stop_reason }),
                ..s
            },
            ProviderChunk::Failed { code, message, retryable } => AccState {
                finished: true,
                terminal: Some(AgentEvent::RunFailed { code: ErrorCode(code), retryable, message }),
                ..s
            },
        }
    }
}

/// The events pushing `c` into `s` yields, or `None` when the push is
/// rejected.
pub open spec fn push_events(s: AccState, c: ProviderChunk) -> Option<Seq<AgentEvent>> {
    if s.finished {
        None
    } else {
        match c {
            ProviderChunk::Started => Some(seq![AgentEvent::ModelStarted]),
            ProviderChunk::TextDelta { text } => Some(seq![AgentEvent::TextDelta { text }]),
            ProviderChunk::ReasoningDelta { text } => Some(
                seq![AgentEvent::ReasoningDelta { text }],
            ),
            ProviderChunk::ToolCallStart { call_id, name } => if has_call(s.pending, call_id) {
                None
            } else {
                Some(seq![])
            },
            ProviderChunk::ToolArgumentsDelta { call_id, fragment } => if has_call(
                s.pending,
                call_id,
            ) {
                Some(seq![])
            } else {
                None
            },
            ProviderChunk::ToolCallComplete { call_id } => if has_call(s.pending, call_id) {
                let e = s.pending[call_index(s.pending, call_id)];
                match decode_args(e.args) {
                    Some(args) => Some(
                        seq![AgentEvent::ToolStarted { call_id, name: e.name, args }],
                    ),
                    None => None,
                }
            } else {
                None
            },
            ProviderChunk::Completed { usage, stop_reason } => Some(
                seq![AgentEvent::ModelFinished { usage, stop_reason }],
            ),
            ProviderChunk::Failed { code, message, retryable } => Some(
                seq![AgentEvent::RunFailed { code: ErrorCode(code), retryable, message }],
            ),
        }
    }
}

/// The error a rejected push reports.
pub open spec fn push_error(s: AccState, c: ProviderChunk, e: StreamError) -> bool {
    if s.finished {
        if c is Completed {
            e is DoubleCompleted
        } else {
            e matches StreamError::Invalid(m) && m@ == "push_chunk called after stream terminated"@
        }
    } else {
        match c {
            ProviderChunk::ToolCallStart { call_id, .. } => e matches StreamError::Invalid(m)
                && m@ == "duplicate ToolCallStart for call_id "@ + spec_ulid_text(call_id.0),
            ProviderChunk::ToolArgumentsDelta { call_id, .. } => e matches StreamError::Invalid(m)
                && m@ == "ToolArgumentsDelta for unknown call_id "@ + spec_ulid_text(call_id.0),
            ProviderChunk::ToolCallComplete { call_id } => if has_call(s.pending, call_id) {
                e matches StreamError::Invalid(m) && ("tool call "@ + spec_ulid_text(call_id.0)
                    + " arguments are not valid JSON: "@).is_prefix_of(m@)
            } else {
                e matches StreamError::Invalid(m) && m@ == "ToolCallComplete for unknown call_id "@
                    + spec_ulid_text(call_id.0)
            },
            _ => false,
        }
    }
}

/// The state after `finish`.
pub open spec fn finish_state(s: AccState) -> AccState {
    if s.pending.len() == 0 && s.finished {
        AccState { terminal: None, ..s }
    } else {
        s
    }
}

/// The terminal event `finish` hands out, or `None` when it fails.
pub open spec fn finish_event(s: AccState) -> Option<AgentEvent> {
    if s.pending.len() == 0 && s.finished {
        s.terminal
    } else {
        None
    }
}

/// The error a failing `finish` reports.
pub open spec fn finish_error(s: AccState, e: StreamError) -> bool {
    if s.pending.len() > 0 {
        e == StreamError::PendingToolCall(s.pending[0].call_id)
    } else if s.finished {
        e matches StreamError::Invalid(m) && m@ == "finish called twice after Completed"@
    } else {
        e matches StreamError::Invalid(m) && m@
            == "finish called before any Completed chunk was pushed"@
    }
}


/// Whether `c` is a terminal chunk.
pub open spec fn is_terminal_chunk(c: ProviderChunk) -> bool {
    c is Completed || c is Failed
}

/// Once a terminal chunk (`Completed` or `Failed`) has been accepted,
/// every later chunk is rejected and leaves the accumulator unchanged.
pub proof fn law_terminal_closes_stream(s: AccState, terminal: ProviderChunk, later: ProviderChunk)
    requires
        !s.finished,
        is_terminal_chunk(terminal),
    ensures
        push_events(s, terminal) is Some,
        push_state(s, terminal).finished,
        push_events(push_state(s, terminal), later) is None,
        push_state(push_state(s, terminal), later) == push_state(s, terminal),
{
}

/// The terminal event is handed out exactly once more by `finish`: the
/// event a terminal chunk emits is what the next `finish` returns, and a
/// second `finish` fails.
pub proof fn law_terminal_reported_once(s: AccState, terminal: ProviderChunk)
    requires
        !s.finished,
        s.pending.len() == 0,
        is_terminal_chunk(terminal),
    ensures
        push_events(s, terminal) matches Some(events) && events.len() == 1 && finish_event(
            push_state(s, terminal),
        ) == Some(events[0]),
        finish_event(finish_state(push_state(s, terminal))) is None,
{
}

/// Tool-call arguments arrive in fragments and are assembled in arrival
/// order: start, two argument fragments and complete yield one
/// `ToolStarted` carrying the arguments decoded from the concatenated
/// text, and leave the open calls as they were.
pub proof fn law_tool_call_assembles_fragments(
    s: AccState,
    id: ToolCallId,
    name: String,
    first: String,
    second: String,
)
    requires
        !s.finished,
        unique_calls(s.pending),
        !has_call(s.pending, id),
        decode_args(first@ + second@) is Some,
    ensures
        ({
            let s1 = push_state(s, ProviderChunk::ToolCallStart { call_id: id, name });
            let s2 = push_state(s1, ProviderChunk::ToolArgumentsDelta { call_id: id, fragment: first });
            let s3 = push_state(s2, ProviderChunk::ToolArgumentsDelta { call_id: id, fragment: second });
            &&& push_events(s, ProviderChunk::ToolCallStart { call_id: id, name }) == Some(
                Seq::<AgentEvent>::empty(),
            )
            &&& push_events(s1, ProviderChunk::ToolArgumentsDelta { call_id: id, fragment: first })
                == Some(Seq::<AgentEvent>::empty())
            &&& push_events(s2, ProviderChunk::ToolArgumentsDelta { call_id: id, fragment: second })
                == Some(Seq::<AgentEvent>::empty())
            &&& push_events(s3, ProviderChunk::ToolCallComplete { call_id: id }) == Some(
                seq![
                    AgentEvent::ToolStarted {
                        call_id: id,
                        name,
                        args: decode_args(first@ + second@)->0,
                    },
                ],
            )
            &&& push_state(s3, ProviderChunk::ToolCallComplete { call_id: id }).pending == s.pending
        }),
{
    let n = s.pending.len() as int;
    let s1 = push_state(s, ProviderChunk::ToolCallStart { call_id: id, name });
    assert(s1.pending[n].call_id == id);
    assert(has_call(s1.pending, id));
    let k1 = call_index(s1.pending, id);
    if k1 != n {
        assert(s1.pending[k1] == s.pending[k1]);
    }
    assert(k1 == n);
    let s2 = push_state(s1, ProviderChunk::ToolArgumentsDelta { call_id: id, fragment: first });
    assert(s2.pending[n].call_id == id);
    assert(s2.pending.len() == n + 1);
    let k2 = call_index(s2.pending, id);
    if k2 != n {
        assert(s2.pending[k2] == s.pending[k2]);
    }
    assert(k2 == n);
    let s3 = push_state(s2, ProviderChunk::ToolArgumentsDelta { call_id: id, fragment: second });
    assert(s3.pending[n].call_id == id);
    assert(s3.pending.len() == n + 1);
    let k3 = call_index(s3.pending, id);
    if k3 != n {
        assert(s3.pending[k3] == s.pending[k3]);
    }
    assert(k3 == n);
    assert(seq![].add(first@).add(second@) =~= first@ + second@);
    assert(s3.pending[n].args =~= first@ + second@);
    assert(s3.pending.remove(n) =~= s.pending);
}

/// Buffers fragmented provider chunks and yields [`AgentEvent`]s in
/// source order.
#[derive(Debug)]
pub struct StreamAccumulator {
    pending: Vec<PendingToolCall>,
    text_buf: String,
    reasoning_buf: String,
    finished: bool,
    terminal: Option<AgentEvent>,
}

/// The model of one open call.
spec fn entry_model(p: PendingToolCall) -> PendingEntry {
    PendingEntry { call_id: p.call_id, name: p.name, args: p.args_buf@ }
}

impl StreamAccumulator {
    /// The accumulator's state model.
    pub closed spec fn model(&self) -> AccState {
        AccState {
            pending: self.pending@.map_values(|p: PendingToolCall| entry_model(p)),
            text: self.text_buf@,
            reasoning: self.reasoning_buf@,
            finished: self.finished,
            terminal: self.terminal,
        }
    }

    /// Well-formedness: open calls have distinct ids.
    pub open spec fn wf(&self) -> bool {
        unique_calls(self.model().pending)
    }

    /// An empty accumulator.
    pub fn new() -> (acc: StreamAccumulator)
        ensures
            acc.wf(),
            acc.model().pending.len() == 0,
            acc.model().text.len() == 0,
            acc.model().reasoning.len() == 0,
            !acc.model().finished,
            acc.model().terminal is None,
    {
        let acc = StreamAccumulator {
            pending: Vec::new(),
            text_buf: String::new(),
            reasoning_buf: String::new(),
            finished: false,
            terminal: None,
        };
        assert(acc.model().pending =~= Seq::<PendingEntry>::empty());
        acc
    }

    /// Number of tool calls still being assembled.
    pub fn pending_len(&self) -> (n: usize)
        ensures
            n == self.model().pending.len(),
    {
        self.pending.len()
    }

    /// The assistant text accumulated so far.
    pub fn text(&self) -> (t: &str)
        ensures
            t@ == self.model().text,
    {
        self.text_buf.as_str()
    }

    /// The reasoning text accumulated so far.
    pub fn reasoning(&self) -> (t: &str)
        ensures
            t@ == self.model().reasoning,
    {
        self.reasoning_buf.as_str()
    }

    /// Position of the open call `id`, if any.
    fn find_pending(&self, id: ToolCallId) -> (r: Option<usize>)
        requires
            self.wf(),
        ensures
            match r {
                Some(i) => i < self.model().pending.len() && call_index(self.model().pending, id)
                    == i && has_call(self.model().pending, id),
                None => !has_call(self.model().pending, id),
            },
    {
        let mut i: usize = 0;
        while i < self.pending.len()
            invariant
                i <= self.pending@.len(),
                self.wf(),
                self.model().pending.len() == self.pending@.len(),
                forall|j: int| 0 <= j < i ==> (#[trigger] self.pending@[j]).call_id != id,
            decreases self.pending@.len() - i,
        {
            if self.pending[i].call_id == id {
                proof {
                    let p = self.model().pending;
                    assert(p[i as int] == entry_model(self.pending@[i as int]));
                    assert(has_call(p, id));
                    let k = call_index(p, id);
                    assert(p[k].call_id == id);
                    if k != i {
                        assert(p[k].call_id != p[i as int].call_id);
                    }
                }
                return Some(i);
            }
            i = i + 1;
        }
        proof {
            let p = self.model().pending;
            assert forall|j: int| 0 <= j < p.len() implies (#[trigger] p[j]).call_id != id by {
                assert(p[j] == entry_model(self.pending@[j]));
            }
        }
        None
    }

    /// Push one provider chunk. Returns the events to emit, or an error
    /// if the chunk is malformed or out of order.
    pub fn push_chunk(&mut self, chunk: ProviderChunk) -> (r: Result<Vec<AgentEvent>, StreamError>)
        requires
            old(self).wf(),
        ensures
            final(self).wf(),
            final(self).model() == push_state(old(self).model(), chunk),
            r is Ok <==> push_events(old(self).model(), chunk) is Some,
            r matches Ok(events) ==> push_events(old(self).model(), chunk) == Some(events@),
            r matches Err(e) ==> push_error(old(self).model(), chunk, e),
    {
        let ghost s0 = self.model();
        if self.finished {
            if matches!(chunk, ProviderChunk::Completed { .. }) {
                return Err(StreamError::DoubleCompleted);
            }
            return Err(StreamError::Invalid(String::from_str("push_chunk called after stream terminated")));
        }
        match chunk {
            ProviderChunk::Started => {
                let mut v = Vec::new();
                v.push(AgentEvent::ModelStarted);
                assert(v@ =~= seq![AgentEvent::ModelStarted]);
                Ok(v)
            },
            ProviderChunk::TextDelta { text } => {
                self.text_buf.append(text.as_str());
                let mut v = Vec::new();
                v.push(AgentEvent::TextDelta { text });
                assert(self.model().pending =~= s0.pending);
                assert(v@ =~= seq![AgentEvent::TextDelta { text }]);
                Ok(v)
            },
            ProviderChunk::ReasoningDelta { text } => {
                self.reasoning_buf.append(text.as_str());
                let mut v = Vec::new();
                v.push(AgentEvent::ReasoningDelta { text });
                assert(self.model().pending =~= s0.pending);
                assert(v@ =~= seq![AgentEvent::ReasoningDelta { text }]);
                Ok(v)
            },
            ProviderChunk::ToolCallStart { call_id, name } => {
                if self.find_pending(call_id).is_some() {
                    let mut m = String::from_str("duplicate ToolCallStart for call_id ");
                    let t = ulid_text(call_id.0);
                    m.append(t.as_str());
                    return Err(StreamError::Invalid(m));
                }
                self.pending.push(PendingToolCall { call_id, name, args_buf: String::new() });
                proof {
                    let p = self.model().pending;
                    assert(p =~= s0.pending.push(PendingEntry { call_id, name, args: seq![] }));
                    assert forall|i: int, j: int|
                        0 <= i < p.len() && 0 <= j < p.len() && i != j implies (#[trigger] p[i]).call_id
                        != (#[trigger] p[j]).call_id by {
                        if i < s0.pending.len() && j < s0.pending.len() {
                            assert(p[i] == s0.pending[i]);
                            assert(p[j] == s0.pending[j]);
                        } else if i < s0.pending.len() {
                            assert(p[i] == s0.pending[i]);
                        } else {
                            assert(p[j] == s0.pending[j]);
                        }
                    }
                }
                let v: Vec<AgentEvent> = Vec::new();
                assert(v@ =~= Seq::<AgentEvent>::empty());
                Ok(v)
            },
            ProviderChunk::ToolArgumentsDelta { call_id, fragment } => {
                match self.find_pending(call_id) {
                    None => {
                        let mut m = String::from_str("ToolArgumentsDelta for unknown call_id ");
                        let t = ulid_text(call_id.0);
                        m.append(t.as_str());
                        Err(StreamError::Invalid(m))
                    },
                    Some(idx) => {
                        let mut entry = self.pending.remove(idx);
                        entry.args_buf.append(fragment.as_str());
                        self.pending.insert(idx, entry);
                        proof {
                            let p = self.model().pending;
                            let upd = s0.pending.update(
                                idx as int,
                                PendingEntry {
                                    args: s0.pending[idx as int].args + fragment@,
                                    ..s0.pending[idx as int]
                                },
                            );
                            assert(p =~= upd);
                            assert forall|i: int, j: int|
                                0 <= i < p.len() && 0 <= j < p.len() && i != j implies (
                                #[trigger] p[i]).call_id != (#[trigger] p[j]).call_id by {
                                assert(p[i].call_id == s0.pending[i].call_id);
                                assert(p[j].call_id == s0.pending[j].call_id);
                            }
                        }
                        let v: Vec<AgentEvent> = Vec::new();
                        assert(v@ =~= Seq::<AgentEvent>::empty());
                        Ok(v)
                    },
                }
            },
            ProviderChunk::ToolCallComplete { call_id } => {
                match self.find_pending(call_id) {
                    None => {
                        let mut m = String::from_str("ToolCallComplete for unknown call_id ");
                        let t = ulid_text(call_id.0);
                        m.append(t.as_str());
                        Err(StreamError::Invalid(m))
                    },
                    Some(idx) => {
                        let entry = self.pending.remove(idx);
                        proof {
                            let p = self.model().pending;
                            assert(p =~= s0.pending.remove(idx as int));
                            assert(entry_model(entry) == s0.pending[idx as int]);
                            assert forall|i: int, j: int|
                                0 <= i < p.len() && 0 <= j < p.len() && i != j implies (
                                #[trigger] p[i]).call_id != (#[trigger] p[j]).call_id by {
                                let i0 = if i < idx { i } else { i + 1 };
                                let j0 = if j < idx { j } else { j + 1 };
                                assert(p[i] == s0.pending[i0]);
                                assert(p[j] == s0.pending[j0]);
                            }
                        }
                        let PendingToolCall { call_id: _, name, args_buf } = entry;
                        match decode_tool_args(args_buf.as_str()) {
                            Ok(args) => {
                                let mut v = Vec::new();
                                v.push(AgentEvent::ToolStarted { call_id, name, args });
                                assert(v@ =~= seq![AgentEvent::ToolStarted { call_id, name, args }]);
                                Ok(v)
                            },
                            Err(detail) => {
                                let mut m = String::from_str("tool call ");
                                let t = ulid_text(call_id.0);
                                m.append(t.as_str());
                                m.append(" arguments are not valid JSON: ");
                                let ghost prefix = m@;
                                m.append(detail.as_str());
                                assert(prefix.is_prefix_of(m@)) by {
                                    assert(m@.subrange(0, prefix.len() as int) =~= prefix);
                                }
                                Err(StreamError::Invalid(m))
                            },
                        }
                    },
                }
            },
            ProviderChunk::Completed { usage, stop_reason } => {
                self.finished = true;
                self.terminal = Some(AgentEvent::ModelFinished { usage, stop_reason });
                let mut v = Vec::new();
                v.push(AgentEvent::ModelFinished { usage, stop_reason });
                assert(self.model().pending =~= s0.pending);
                assert(v@ =~= seq![AgentEvent::ModelFinished { usage, stop_reason }]);
                Ok(v)
            },
            ProviderChunk::Failed { code, message, retryable } => {
                self.finished = true;
                let event = AgentEvent::RunFailed {
                    code: ErrorCode(code.clone()),
                    retryable,
                    message: message.clone(),
                };
                self.terminal = Some(event);
                let mut v = Vec::new();
                v.push(AgentEvent::RunFailed { code: ErrorCode(code), retryable, message });
                assert(self.model().pending =~= s0.pending);
                assert(v@ =~= seq![AgentEvent::RunFailed { code: ErrorCode(code), retryable, message }]);
                Ok(v)
            },
        }
    }

    /// Signal end of stream. Returns the terminal event the accumulator
    /// was holding, or an error if the stream ended in an invalid state.
    pub fn finish(&mut self) -> (r: Result<AgentEvent, StreamError>)
        requires
            old(self).wf(),
        ensures
            final(self).wf(),
            final(self).model() == finish_state(old(self).model()),
            r is Ok <==> finish_event(old(self).model()) is Some,
            r matches Ok(e) ==> finish_event(old(self).model()) == Some(e),
            r matches Err(e) ==> finish_error(old(self).model(), e),
    {
        if self.pending.len() > 0 {
            let dangling = self.pending[0].call_id;
            proof {
                assert(self.model().pending[0] == entry_model(self.pending@[0]));
            }
            return Err(StreamError::PendingToolCall(dangling));
        }
        if self.finished {
            let t = self.terminal.take();
            assert(self.model().pending =~= old(self).model().pending);
            return match t {
                Some(event) => Ok(event),
                None => Err(StreamError::Invalid(String::from_str("finish called twice after Completed"))),
            };
        }
        Err(StreamError::Invalid(String::from_str("finish called before any Completed chunk was pushed")))
    }
}

/// Decodes the concatenated argument text of a completed tool call.
/// On failure returns the JSON parser's error text.
pub fn decode_tool_args(buf: &str) -> (r: Result<serde_json::Value, String>)
    ensures
        match r {
            Ok(v) => decode_args(buf@) == Some(v),
            Err(_) => decode_args(buf@) is None,
        },
{
    if is_blank(buf) {
        return Ok(json_null());
    }
    match json_parse(buf) {
        Err(e) => Err(json_error_text(&e)),
        Ok(parsed) => match json_as_str(&parsed) {
            Some(inner) => {
                let cs = chars_of(inner.as_str());
                let k = first_non_ws(cs.as_slice());
                if k < cs.len() && cs[k] == '{' {
                    match json_parse(inner.as_str()) {
                        Ok(v) => Ok(v),
                        Err(_) => Ok(parsed),
                    }
                } else {
                    Ok(parsed)
                }
            },
            None => Ok(parsed),
        },
    }
}

} // verus!
