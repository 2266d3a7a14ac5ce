//! The durable session log's entries.
//!
//! A session log is a sequence of [`SessionEntry`] values, one per
//! line. The agent appends them as a run progresses; resuming a session
//! replays them into model-visible history.

use vstd::prelude::*;

use crate::event::{ErrorCode, StopReason, ToolOutcome, Usage};
use crate::ids::{MessageId, SessionId, Timestamp, ToolCallId};
use crate::message::Part;

verus! {

/// One line of a session log.
#[derive(Debug, Clone, PartialEq)]
pub enum SessionEntry {
    /// First entry of every log: session metadata.
    SessionStarted {
        schema_version: u32,
        session_id: SessionId,
        started_at: Timestamp,
        cwd: String,
    },
    /// A user prompt.
    UserMessage { id: MessageId, content: String, timestamp: Timestamp },
    /// A completed assistant turn.
    AssistantMessage {
        id: MessageId,
        parts: Vec<Part>,
        usage: Option<Usage>,
        stop_reason: Option<StopReason>,
        timestamp: Timestamp,
    },
    /// A tool call about to run.
    ToolStarted {
        call_id: ToolCallId,
        name: String,
        args: serde_json::Value,
        timestamp: Timestamp,
    },
    /// A tool call's result.
    ToolFinished { call_id: ToolCallId, outcome: ToolOutcome, timestamp: Timestamp },
    /// The run was interrupted, possibly while `active_call` ran.
    RunInterrupted { active_call: Option<ToolCallId>, timestamp: Timestamp },
    /// The run finished with the final assistant text.
    RunFinished { message: String, timestamp: Timestamp },
    /// The run failed.
    RunFailed { code: ErrorCode, retryable: bool, message: String, timestamp: Timestamp },
}

} // verus!
