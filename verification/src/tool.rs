//! The tool subsystem's data: calls, outcomes and errors, and the rules
//! that turn a tool's result into the outcome the model sees.
//!
//! Dispatch (looking a tool up, validating its arguments against its
//! schema, running it) is asynchronous and lives in the application;
//! it calls the functions here to decide what each step produces.

use vstd::prelude::*;

use crate::event::{AgentEvent, ErrorCode, ToolOutcome as EventToolOutcome};
use crate::ids::ToolCallId;
use crate::read::{dec_digits, push_decimal};

verus! {

/// Per-invocation context handed to a tool.
#[derive(Debug, Clone, PartialEq, Eq)]
pub struct ToolContext {
    /// Absolute path that bounds every filesystem tool.
    pub project_root: String,
    /// Soft cap on the size of a tool's returned `output`, in bytes.
    pub max_output_bytes: usize,
    /// Per-command wall-clock timeout for shell-style tools, in
    /// milliseconds.
    pub command_timeout_ms: u64,
}

/// Errors a tool can return. Paths are carried as their display text
/// and I/O errors as their message.
#[derive(Debug, Clone, PartialEq, Eq)]
pub enum ToolError {
    InvalidArgs(String),
    PathEscape(String),
    NotAFile(String),
    Binary(String),
    Io(String),
    Cancelled,
    TooLarge { actual: u64, limit: usize },
}

/// The display text of a [`ToolError`].
pub open spec fn tool_error_text(e: ToolError) -> Seq<char> {
    match e {
        ToolError::InvalidArgs(m) => "invalid arguments: "@ + m@,
        ToolError::PathEscape(p) => "path escapes project root: "@ + p@,
        ToolError::NotAFile(p) => "path is not a regular file: "@ + p@,
        ToolError::Binary(p) => "file is binary: "@ + p@,
        ToolError::Io(m) => "read failed: "@ + m@,
        ToolError::Cancelled => "cancelled"@,
        ToolError::TooLarge { actual, limit } => "output too large ("@ + dec_digits(actual as nat)
            + " > "@ + dec_digits(limit as nat) + " bytes)"@,
    }
}

impl ToolError {
    /// The human-readable message of this error (its display text).
    pub fn message(&self) -> (text: String)
        ensures
            text@ == tool_error_text(*self),
    {
        match self {
            ToolError::InvalidArgs(m) => {
                let mut out = String::from_str("invalid arguments: ");
                out.append(m.as_str());
                out
            },
            ToolError::PathEscape(p) => {
                let mut out = String::from_str("path escapes project root: ");
                out.append(p.as_str());
                out
            },
            ToolError::NotAFile(p) => {
                let mut out = String::from_str("path is not a regular file: ");
                out.append(p.as_str());
                out
            },
            ToolError::Binary(p) => {
                let mut out = String::from_str("file is binary: ");
                out.append(p.as_str());
                out
            },
            ToolError::Io(m) => {
                let mut out = String::from_str("read failed: ");
                out.append(m.as_str());
                out
            },
            ToolError::Cancelled => String::from_str("cancelled"),
            ToolError::TooLarge { actual, limit } => {
                let mut out = String::from_str("output too large (");
                push_decimal(&mut out, *actual);
                out.append(" > ");
                push_decimal(&mut out, *limit as u64);
                out.append(" bytes)");
                out
            },
        }
    }
}

/// What a tool produced.
#[derive(Debug, Clone, PartialEq, Eq)]
pub enum ToolOutcome {
    Success { output: String, truncated: bool },
    Error { code: ErrorCode, message: String, truncated: bool },
}

/// A tool's return value.
pub type ToolResult = Result<ToolOutcome, ToolError>;

/// A single tool invocation as parsed from the model output.
#[derive(Debug, Clone, PartialEq)]
pub struct ToolCall {
    pub call_id: ToolCallId,
    pub name: String,
    pub args: serde_json::Value,
}

/// Whether `o` is the untruncated error outcome with `code` and
/// `message`.
pub open spec fn is_error_outcome(o: ToolOutcome, code: Seq<char>, message: Seq<char>) -> bool {
    o matches ToolOutcome::Error { code: c, message: m, truncated } && c.0@ == code && m@ == message
        && !truncated
}

/// The outcome for a call naming a tool the registry does not hold.
pub fn unknown_tool_outcome(name: &str) -> (o: ToolOutcome)
    ensures
        is_error_outcome(o, "unknown_tool"@, "no tool named "@ + name@),
{
    let mut message = String::from_str("no tool named ");
    message.append(name);
    ToolOutcome::Error {
        code: ErrorCode(String::from_str("unknown_tool")),
        message,
        truncated: false,
    }
}

/// The outcome for a call whose arguments fail schema validation with
/// `message`.
pub fn invalid_args_outcome(message: String) -> (o: ToolOutcome)
    ensures
        is_error_outcome(o, "invalid_args"@, message@),
{
    ToolOutcome::Error { code: ErrorCode(String::from_str("invalid_args")), message, truncated: false }
}

/// The outcome recorded for a tool's result: the tool's own outcome, or
/// a `tool_error` outcome carrying the error's message.
pub fn settle_tool_result(result: ToolResult) -> (o: ToolOutcome)
    ensures
        match result {
            Ok(out) => o == out,
            Err(e) => is_error_outcome(o, "tool_error"@, tool_error_text(e)),
        },
{
    match result {
        Ok(out) => out,
        Err(e) => ToolOutcome::Error {
            code: ErrorCode(String::from_str("tool_error")),
            message: e.message(),
            truncated: false,
        },
    }
}

/// The event-stream form of a tool outcome (same variant, same fields).
pub open spec fn event_outcome_of(o: ToolOutcome) -> EventToolOutcome {
    match o {
        ToolOutcome::Success { output, truncated } => EventToolOutcome::Success { output, truncated },
        ToolOutcome::Error { code, message, truncated } => EventToolOutcome::Error {
            code,
            message,
            truncated,
        },
    }
}

/// Converts a tool outcome to its event-stream form.
pub fn to_event_outcome(o: &ToolOutcome) -> (e: EventToolOutcome)
    ensures
        e == event_outcome_of(*o),
{
    match o {
        ToolOutcome::Success { output, truncated } => EventToolOutcome::Success {
            output: output.clone(),
            truncated: *truncated,
        },
        ToolOutcome::Error { code, message, truncated } => EventToolOutcome::Error {
            code: ErrorCode(code.0.clone()),
            message: message.clone(),
            truncated: *truncated,
        },
    }
}

/// The body, error flag and truncation flag a tool result message
/// carries for an outcome: the output for a success, the message for an
/// error.
pub open spec fn result_fields(o: EventToolOutcome) -> (Seq<char>, bool, bool) {
    match o {
        EventToolOutcome::Success { output, truncated } => (output@, false, truncated),
        EventToolOutcome::Error { message, truncated, .. } => (message@, true, truncated),
    }
}

/// What checking arguments against a JSON Schema found.
#[derive(Debug, Clone, PartialEq, Eq)]
pub enum SchemaCheck {
    /// The schema does not compile; the compiler's error text.
    BadSchema(String),
    /// The arguments satisfy the schema.
    Valid,
    /// The arguments violate the schema; the first violation's text,
    /// when one is reported.
    Violated(Option<String>),
}

/// The result of checking `args` against `schema`, as plain text.
pub uninterp spec fn spec_schema_check(schema: serde_json::Value, args: serde_json::Value) -> (
    u8,
    Option<Seq<char>>,
);

/// The plain-text form of a [`SchemaCheck`]: a tag (0 bad schema, 1
/// valid, 2 violated) and the text it carries.
pub open spec fn schema_check_view(c: SchemaCheck) -> (u8, Option<Seq<char>>) {
    match c {
        SchemaCheck::BadSchema(m) => (0, Some(m@)),
        SchemaCheck::Valid => (1, None),
        SchemaCheck::Violated(m) => (
            2,
            match m {
                Some(t) => Some(t@),
                None => None,
            },
        ),
    }
}

/// `jsonschema::JSONSchema::compile` followed by `validate`: compiles
/// `schema` (its error shown as text) and checks `args` against it,
/// keeping the first reported violation's text. A function of the two
/// values alone.
#[verifier::external_body]
fn check_against_schema(schema: &serde_json::Value, args: &serde_json::Value) -> (c: SchemaCheck)
    ensures
        schema_check_view(c) == spec_schema_check(*schema, *args),
{
    match jsonschema::JSONSchema::compile(schema) {
        Err(e) => SchemaCheck::BadSchema(e.to_string()),
        Ok(compiled) => match compiled.validate(args) {
            Ok(()) => SchemaCheck::Valid,
            Err(mut errors) => SchemaCheck::Violated(errors.next().map(|e| e.to_string())),
        },
    }
}

/// Validate a call's arguments against its tool's JSON Schema: `Ok` when
/// they satisfy it; otherwise the message the model sees, which is the
/// first violation's text, a generic note when none is reported, or the
/// compiler's complaint about an invalid schema.
pub fn validate_args(args: &serde_json::Value, schema: &serde_json::Value) -> (r: Result<(), String>)
    ensures
        ({
            let (tag, text) = spec_schema_check(*schema, *args);
            &&& tag == 1 ==> r is Ok
            &&& tag == 0 ==> (r matches Err(m) && m@ == "schema is not a valid JSON Schema: "@
                + text.unwrap_or(Seq::empty()))
            &&& (tag == 2 && text is Some) ==> (r matches Err(m) && m@ == text->0)
            &&& (tag == 2 && text is None) ==> (r matches Err(m) && m@
                == "arguments do not match the tool schema"@)
            &&& tag <= 2
        }),
{
    let check = check_against_schema(schema, args);
    match check {
        SchemaCheck::BadSchema(e) => {
            let mut m = String::from_str("schema is not a valid JSON Schema: ");
            m.append(e.as_str());
            Err(m)
        },
        SchemaCheck::Valid => Ok(()),
        SchemaCheck::Violated(Some(text)) => Err(text),
        SchemaCheck::Violated(None) => Err(String::from_str("arguments do not match the tool schema")),
    }
}

} // verus!

verus! {

/// How the registry handles a call before running it.
#[derive(Debug, Clone, PartialEq, Eq)]
pub enum ToolDispatch {
    /// No tool has the call's name: this outcome, and no event.
    Unknown(ToolOutcome),
    /// The call is announced, its arguments fail the schema: it finishes
    /// with this outcome.
    Invalid(ToolOutcome),
    /// The call is announced and the tool runs; it finishes with the
    /// settled result ([`settle_tool_result`]).
    Run,
}

/// How a call to the tool `name` is handled, given whether the registry
/// holds such a tool and, if so, how its arguments fared against the
/// tool's schema ([`validate_args`]).
pub fn tool_dispatch(name: &str, known: bool, check: Result<(), String>) -> (d: ToolDispatch)
    ensures
        !known ==> (d matches ToolDispatch::Unknown(o) && is_error_outcome(
            o,
            "unknown_tool"@,
            "no tool named "@ + name@,
        )),
        known ==> match check {
            Ok(()) => d is Run,
            Err(m) => d matches ToolDispatch::Invalid(o) && is_error_outcome(o, "invalid_args"@, m@),
        },
{
    if !known {
        return ToolDispatch::Unknown(unknown_tool_outcome(name));
    }
    match check {
        Ok(()) => ToolDispatch::Run,
        Err(m) => ToolDispatch::Invalid(invalid_args_outcome(m)),
    }
}

/// The event announcing `call` to the tool named `name`.
pub fn tool_started_event(call: &ToolCall, name: &str) -> (e: AgentEvent)
    ensures
        e matches AgentEvent::ToolStarted { call_id, name: n, args } && call_id == call.call_id && n@ == name@
            && args == call.args,
{
    AgentEvent::ToolStarted { call_id: call.call_id, name: name.to_owned(), args: call.args.clone() }
}

/// The event closing call `call_id` with `outcome`.
pub fn tool_finished_event(call_id: ToolCallId, outcome: &ToolOutcome) -> (e: AgentEvent)
    ensures
        e == (AgentEvent::ToolFinished { call_id, result: event_outcome_of(*outcome) }),
{
    AgentEvent::ToolFinished { call_id, result: to_event_outcome(outcome) }
}

} // verus!

verus! {

/// Whether the name `a` sorts before or equal to `b`: lexicographic
/// order of their characters' code points, the order of `str`.
pub open spec fn name_le(a: Seq<char>, b: Seq<char>) -> bool
    decreases a.len(),
{
    if a.len() == 0 {
        true
    } else if b.len() == 0 {
        false
    } else if (a[0] as u32) != (b[0] as u32) {
        (a[0] as u32) < (b[0] as u32)
    } else {
        name_le(a.drop_first(), b.drop_first())
    }
}

proof fn lemma_name_le_total(a: Seq<char>, b: Seq<char>)
    ensures
        name_le(a, b) || name_le(b, a),
    decreases a.len(),
{
    if a.len() > 0 && b.len() > 0 && (a[0] as u32) == (b[0] as u32) {
        lemma_name_le_total(a.drop_first(), b.drop_first());
    }
}

proof fn lemma_name_le_trans(a: Seq<char>, b: Seq<char>, c: Seq<char>)
    requires
        name_le(a, b),
        name_le(b, c),
    ensures
        name_le(a, c),
    decreases a.len(),
{
    if a.len() > 0 && b.len() > 0 && c.len() > 0 && (a[0] as u32) == (b[0] as u32) && (b[0] as u32) == (
        c[0] as u32) {
        lemma_name_le_trans(a.drop_first(), b.drop_first(), c.drop_first());
    }
}

/// Past a prefix of length `i` whose code points agree, the order is
/// that of the rests.
proof fn lemma_name_le_skip(a: Seq<char>, b: Seq<char>, i: int)
    requires
        0 <= i <= a.len(),
        i <= b.len(),
        forall|j: int| 0 <= j < i ==> (a[j] as u32) == (b[j] as u32),
    ensures
        name_le(a, b) == name_le(a.skip(i), b.skip(i)),
    decreases i,
{
    if i > 0 {
        assert(a[0] as u32 == b[0] as u32);
        assert forall|j: int| 0 <= j < i - 1 implies (a.drop_first()[j] as u32) == (b.drop_first()[j] as u32) by {
            assert(a.drop_first()[j] == a[j + 1]);
            assert(b.drop_first()[j] == b[j + 1]);
        }
        lemma_name_le_skip(a.drop_first(), b.drop_first(), i - 1);
        assert(a.drop_first().skip(i - 1) =~= a.skip(i));
        assert(b.drop_first().skip(i - 1) =~= b.skip(i));
    } else {
        assert(a.skip(0) =~= a);
        assert(b.skip(0) =~= b);
    }
}

/// Whether `a` sorts before or equal to `b` ([`name_le`]).
fn names_in_order(a: &str, b: &str) -> (r: bool)
    ensures
        r == name_le(a@, b@),
{
    let x = crate::text::chars_of(a);
    let y = crate::text::chars_of(b);
    let mut i: usize = 0;
    while i < x.len() && i < y.len() && x[i] as u32 == y[i] as u32
        invariant
            i <= x@.len(),
            i <= y@.len(),
            x@ == a@,
            y@ == b@,
            forall|j: int| 0 <= j < i ==> (x@[j] as u32) == (y@[j] as u32),
        decreases x@.len() - i,
    {
        i = i + 1;
    }
    proof {
        lemma_name_le_skip(x@, y@, i as int);
    }
    if i == x.len() {
        true
    } else if i == y.len() {
        false
    } else {
        (x[i] as u32) < (y[i] as u32)
    }
}

/// Whether `s` is in [`name_le`] order.
pub open spec fn names_sorted(s: Seq<String>) -> bool {
    forall|i: int, j: int| 0 <= i < j < s.len() ==> name_le(#[trigger] s[i]@, #[trigger] s[j]@)
}

/// The tool names `names` in order ([`name_le`]): the same names, each as
/// often, sorted.
pub fn sorted_names(names: Vec<String>) -> (out: Vec<String>)
    ensures
        out@.to_multiset() == names@.to_multiset(),
        names_sorted(out@),
{
    let mut out: Vec<String> = Vec::new();
    let mut k: usize = 0;
    assert(names@.take(0) =~= out@);
    while k < names.len()
        invariant
            k <= names@.len(),
            out@.to_multiset() == names@.take(k as int).to_multiset(),
            names_sorted(out@),
        decreases names@.len() - k,
    {
        let x = names[k].clone();
        let mut pos: usize = 0;
        while pos < out.len() && !names_in_order(x.as_str(), out[pos].as_str())
            invariant
                pos <= out@.len(),
                k < names@.len(),
                x == names@[k as int],
                out@.to_multiset() == names@.take(k as int).to_multiset(),
                names_sorted(out@),
                forall|j: int| 0 <= j < pos ==> name_le(#[trigger] out@[j]@, x@),
            decreases out@.len() - pos,
        {
            proof {
                lemma_name_le_total(x@, out@[pos as int]@);
            }
            pos = pos + 1;
        }
        let ghost before = out@;
        out.insert(pos, x);
        proof {
            assert(names@.take(k + 1) =~= names@.take(k as int).push(names@[k as int]));
            vstd::seq_lib::to_multiset_build(names@.take(k as int), names@[k as int]);
            assert(out@ == before.insert(pos as int, names@[k as int]));
            vstd::seq_lib::to_multiset_insert(before, pos as int, names@[k as int]);
            assert forall|i: int, j: int| 0 <= i < j < out@.len() implies name_le(
                #[trigger] out@[i]@,
                #[trigger] out@[j]@,
            ) by {
                if j < pos {
                    assert(out@[i] == before[i] && out@[j] == before[j]);
                } else if j == pos {
                    assert(out@[i] == before[i]);
                } else if i == pos {
                    assert(out@[j] == before[j - 1]);
                    if j - 1 > pos {
                        assert(name_le(before[pos as int]@, before[j - 1]@));
                        lemma_name_le_trans(x@, before[pos as int]@, before[j - 1]@);
                    }
                } else if i < pos {
                    assert(out@[i] == before[i] && out@[j] == before[j - 1]);
                    if i < j - 1 {
                        assert(name_le(before[i]@, before[j - 1]@));
                    } else {
                        assert(name_le(before[i]@, before[j - 1]@)) by {
                            assert(false);
                        }
                    }
                } else {
                    assert(out@[i] == before[i - 1] && out@[j] == before[j - 1]);
                }
            }
        }
        k = k + 1;
    }
    assert(names@.take(k as int) =~= names@);
    out
}

} // verus!
