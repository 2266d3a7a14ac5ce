//! The `opencode` bridge's wire formats: the JSON event lines that
//! `opencode run --format json` prints, and the routing of the MCP
//! JSON-RPC methods the bridge serves.
//!
//! Spawning `opencode` and the stdio loop live in the application.

use vstd::prelude::*;

use crate::json::{
    json_as_bool, json_as_str, json_get, json_is_object, json_parse, spec_json_as_bool,
    spec_json_as_str, spec_json_get, spec_json_is_object, spec_json_parse,
};
use crate::text::str_eq;

verus! {

/// MCP protocol version the bridge advertises.
pub const PROTOCOL_VERSION: &'static str = "2025-06-18";

/// JSON-RPC error code for protocol and method errors.
pub const SERVER_ERROR_CODE: i32 = -32000;

/// One event line from `opencode run --format json`.
#[derive(Debug, Clone)]
pub enum OpencodeEvent {
    /// Streamed assistant text.
    TextDelta { text: String },
    /// A tool call the model wants to make.
    ToolCall { id: String, name: String, args: serde_json::Value },
    /// Result of a tool invocation, matched to a call by `id`.
    ToolResult { id: String, output: String, error: bool },
    /// Final assistant message of a successful run.
    Done { message: String },
    /// An error event.
    Error { message: String },
    /// An event kind this bridge does not model.
    Unknown,
}

/// An [`OpencodeEvent`] as plain text values.
pub enum EventView {
    TextDelta(Seq<char>),
    ToolCall { id: Seq<char>, name: Seq<char>, args: serde_json::Value },
    ToolResult { id: Seq<char>, output: Seq<char>, error: bool },
    Done(Seq<char>),
    Error(Seq<char>),
    Unknown,
}

impl View for OpencodeEvent {
    type V = EventView;

    open spec fn view(&self) -> EventView {
        match self {
            OpencodeEvent::TextDelta { text } => EventView::TextDelta(text@),
            OpencodeEvent::ToolCall { id, name, args } => EventView::ToolCall { id: id@, name: name@, args: *args },
            OpencodeEvent::ToolResult { id, output, error } => EventView::ToolResult {
                id: id@,
                output: output@,
                error: *error,
            },
            OpencodeEvent::Done { message } => EventView::Done(message@),
            OpencodeEvent::Error { message } => EventView::Error(message@),
            OpencodeEvent::Unknown => EventView::Unknown,
        }
    }
}

/// The string under `key` of a JSON object, if it is one.
pub open spec fn str_field(v: serde_json::Value, key: Seq<char>) -> Option<Seq<char>> {
    match spec_json_get(v, key) {
        Some(x) => spec_json_as_str(x),
        None => None,
    }
}

/// The `error` flag of a tool result: `false` when absent, the boolean
/// when present, `None` when present but not a boolean.
pub open spec fn error_flag(v: serde_json::Value) -> Option<bool> {
    match spec_json_get(v, "error"@) {
        None => Some(false),
        Some(e) => spec_json_as_bool(e),
    }
}

/// The event a JSON object denotes: its string `type` names the kind,
/// whose fields must be present with the right types; anything else
/// (no string `type`, an unknown kind, a missing or mistyped field) is
/// `Unknown`.
pub open spec fn decode_event(v: serde_json::Value) -> EventView {
    match str_field(v, "type"@) {
        Some(t) => if t == "text_delta"@ {
            match str_field(v, "text"@) {
                Some(x) => EventView::TextDelta(x),
                None => EventView::Unknown,
            }
        } else if t == "tool_call"@ {
            match (str_field(v, "id"@), str_field(v, "name"@), spec_json_get(v, "args"@)) {
                (Some(i), Some(n), Some(a)) => EventView::ToolCall { id: i, name: n, args: a },
                _ => EventView::Unknown,
            }
        } else if t == "tool_result"@ {
            match (str_field(v, "id"@), str_field(v, "output"@), error_flag(v)) {
                (Some(i), Some(o), Some(e)) => EventView::ToolResult { id: i, output: o, error: e },
                _ => EventView::Unknown,
            }
        } else if t == "done"@ {
            match str_field(v, "message"@) {
                Some(m) => EventView::Done(m),
                None => EventView::Unknown,
            }
        } else if t == "error"@ {
            match str_field(v, "message"@) {
                Some(m) => EventView::Error(m),
                None => EventView::Unknown,
            }
        } else {
            EventView::Unknown
        },
        None => EventView::Unknown,
    }
}

fn get_str(v: &serde_json::Value, key: &str) -> (r: Option<String>)
    ensures
        match r {
            Some(s) => str_field(*v, key@) == Some(s@),
            None => str_field(*v, key@) is None,
        },
{
    match json_get(v, key) {
        Some(x) => json_as_str(&x),
        None => None,
    }
}

impl OpencodeEvent {
    /// The event on one stdout line: `None` for a line that is not a
    /// JSON object (a banner or log line), otherwise the decoded event.
    pub fn parse_line(line: &str) -> (e: Option<Self>)
        ensures
            match spec_json_parse(line@) {
                Some(v) => if spec_json_is_object(v) {
                    e matches Some(ev) && ev@ == decode_event(v)
                } else {
                    e is None
                },
                None => e is None,
            },
    {
        let v = match json_parse(line) {
            Ok(v) => v,
            Err(_) => {
                return None;
            },
        };
        if !json_is_object(&v) {
            return None;
        }
        let kind = match get_str(&v, "type") {
            Some(t) => t,
            None => {
                return Some(OpencodeEvent::Unknown);
            },
        };
        let k = kind.as_str();
        if str_eq(k, "text_delta") {
            match get_str(&v, "text") {
                Some(text) => Some(OpencodeEvent::TextDelta { text }),
                None => Some(OpencodeEvent::Unknown),
            }
        } else if str_eq(k, "tool_call") {
            match (get_str(&v, "id"), get_str(&v, "name"), json_get(&v, "args")) {
                (Some(id), Some(name), Some(args)) => Some(OpencodeEvent::ToolCall { id, name, args }),
                _ => Some(OpencodeEvent::Unknown),
            }
        } else if str_eq(k, "tool_result") {
            let error = match json_get(&v, "error") {
                None => Some(false),
                Some(e) => json_as_bool(&e),
            };
            match (get_str(&v, "id"), get_str(&v, "output"), error) {
                (Some(id), Some(output), Some(error)) => Some(OpencodeEvent::ToolResult { id, output, error }),
                _ => Some(OpencodeEvent::Unknown),
            }
        } else if str_eq(k, "done") {
            match get_str(&v, "message") {
                Some(message) => Some(OpencodeEvent::Done { message }),
                None => Some(OpencodeEvent::Unknown),
            }
        } else if str_eq(k, "error") {
            match get_str(&v, "message") {
                Some(message) => Some(OpencodeEvent::Error { message }),
                None => Some(OpencodeEvent::Unknown),
            }
        } else {
            Some(OpencodeEvent::Unknown)
        }
    }

    /// Whether this event ends a run: `Done` or `Error`.
    pub fn is_terminal(&self) -> (b: bool)
        ensures
            b == (self@ is Done || self@ is Error),
    {
        match self {
            OpencodeEvent::Done { .. } | OpencodeEvent::Error { .. } => true,
            _ => false,
        }
    }
}

/// How the bridge answers one JSON-RPC request.
#[derive(Debug, Clone, PartialEq, Eq)]
pub enum McpRoute {
    /// Handshake: server info and capabilities.
    Initialize,
    /// Liveness: an empty object.
    Ping,
    /// The tool schemas.
    ToolsList,
    /// Dispatch a tool call; the response carries the tool's result.
    ToolsCall,
    /// No response (a notification).
    Silent,
    /// An error envelope with this message.
    UnknownMethod(String),
}

/// How `method` is answered, given whether the request has an `id`:
/// lifecycle notifications and every request without an id (a
/// notification) get no response; otherwise each known method has its
/// answer, and an unknown method is an error.
pub fn mcp_route(method: &str, has_id: bool) -> (r: McpRoute)
    ensures
        if method@ == "notifications/initialized"@ || method@ == "notifications/cancelled"@ {
            r == McpRoute::Silent
        } else if !has_id {
            r == McpRoute::Silent
        } else if method@ == "tools/call"@ {
            r == McpRoute::ToolsCall
        } else if method@ == "initialize"@ {
            r == McpRoute::Initialize
        } else if method@ == "ping"@ {
            r == McpRoute::Ping
        } else if method@ == "tools/list"@ {
            r == McpRoute::ToolsList
        } else {
            r matches McpRoute::UnknownMethod(m) && m@ == "unknown method: "@ + method@
        },
{
    if str_eq(method, "notifications/initialized") || str_eq(method, "notifications/cancelled") {
        return McpRoute::Silent;
    }
    if !has_id {
        return McpRoute::Silent;
    }
    if str_eq(method, "tools/call") {
        McpRoute::ToolsCall
    } else if str_eq(method, "initialize") {
        McpRoute::Initialize
    } else if str_eq(method, "ping") {
        McpRoute::Ping
    } else if str_eq(method, "tools/list") {
        McpRoute::ToolsList
    } else {
        let mut m = String::from_str("unknown method: ");
        m.append(method);
        McpRoute::UnknownMethod(m)
    }
}

} // verus!
