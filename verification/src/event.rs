//! The project-owned event vocabulary the agent loop emits.

use vstd::prelude::*;

use crate::ids::{RunId, SessionId, Timestamp, ToolCallId};

verus! {

/// Version of the session log schema written in `SessionStarted`.
pub const SCHEMA_VERSION: u32 = 1;

/// Stable, machine-readable error code (e.g. `"max_turns"`).
#[derive(Debug, Clone, PartialEq, Eq)]
pub struct ErrorCode(pub String);

/// Token accounting for one model invocation.
#[derive(Debug, Clone, Copy, PartialEq, Eq, Structural)]
pub struct Usage {
    pub input_tokens: u32,
    pub output_tokens: u32,
}

/// Why the model stopped generating.
#[derive(Debug, Clone, Copy, PartialEq, Eq, Structural)]
pub enum StopReason {
    EndTurn,
    ToolUse,
    MaxTokens,
    Error,
    Cancellation,
}

/// Which output stream a tool chunk came from.
#[derive(Debug, Clone, Copy, PartialEq, Eq, Structural)]
pub enum ToolStream {
    Stdout,
    Stderr,
}

/// A tool's result as it appears on the event stream and in the log.
#[derive(Debug, Clone, PartialEq, Eq)]
pub enum ToolOutcome {
    Success { output: String, truncated: bool },
    Error { code: ErrorCode, message: String, truncated: bool },
}

/// One observable step of an agent run.
#[derive(Debug, Clone, PartialEq)]
pub enum AgentEvent {
    RunStarted { run_id: RunId, session_id: SessionId, started_at: Timestamp },
    ModelStarted,
    TextDelta { text: String },
    ReasoningDelta { text: String },
    ToolStarted { call_id: ToolCallId, name: String, args: serde_json::Value },
    ToolOutput { call_id: ToolCallId, stream: ToolStream, chunk: Vec<u8> },
    ToolFinished { call_id: ToolCallId, result: ToolOutcome },
    ModelFinished { usage: Usage, stop_reason: StopReason },
    RunFinished { message: String },
    RunCancelled,
    RunFailed { code: ErrorCode, retryable: bool, message: String },
}

} // verus!
