//! Conversation messages as the model sees them.

use vstd::prelude::*;

use crate::ids::{MessageId, ToolCallId};

verus! {

/// Who authored a message.
#[derive(Debug, Clone, Copy, PartialEq, Eq, Structural)]
pub enum Role {
    User,
    Assistant,
    ToolResult,
}

/// One piece of a message.
#[derive(Debug, Clone, PartialEq)]
pub enum Part {
    Text { text: String },
    Reasoning { text: String },
    ToolCall { id: ToolCallId, name: String, args: serde_json::Value },
    ToolResult {
        call_id: ToolCallId,
        output: String,
        is_error: bool,
        truncated: bool,
        display: Option<String>,
    },
}

/// A message in the conversation history.
#[derive(Debug, Clone, PartialEq)]
pub struct Message {
    pub id: MessageId,
    pub role: Role,
    pub parts: Vec<Part>,
}

impl Part {
    /// An equal copy of this part.
    pub fn duplicate(&self) -> (r: Part)
        ensures
            r == *self,
    {
        match self {
            Part::Text { text } => Part::Text { text: text.clone() },
            Part::Reasoning { text } => Part::Reasoning { text: text.clone() },
            Part::ToolCall { id, name, args } => Part::ToolCall {
                id: *id,
                name: name.clone(),
                args: args.clone(),
            },
            Part::ToolResult { call_id, output, is_error, truncated, display } => {
                let d = match display {
                    Some(s) => Some(s.clone()),
                    None => None,
                };
                Part::ToolResult {
                    call_id: *call_id,
                    output: output.clone(),
                    is_error: *is_error,
                    truncated: *truncated,
                    display: d,
                }
            },
        }
    }
}

/// An equal copy of a list of parts.
pub fn duplicate_parts(parts: &Vec<Part>) -> (r: Vec<Part>)
    ensures
        r@ == parts@,
{
    let mut out: Vec<Part> = Vec::new();
    let mut i: usize = 0;
    while i < parts.len()
        invariant
            i <= parts@.len(),
            out@ == parts@.take(i as int),
        decreases parts@.len() - i,
    {
        out.push(parts[i].duplicate());
        i = i + 1;
        assert(out@ =~= parts@.take(i as int));
    }
    assert(out@ =~= parts@);
    out
}

} // verus!
