//! Identifier and timestamp newtypes used throughout the agent.
//!
//! Every persistent object carries a 128-bit ULID value. ULIDs are
//! k-sortable and encode a millisecond timestamp, which gives a total
//! order without coordination. [`Timestamp`] holds Unix milliseconds.

use vstd::prelude::*;

verus! {

/// Identifier for a top-level conversation.
#[derive(Debug, Clone, Copy, PartialEq, Eq, Hash, Structural)]
pub struct SessionId(pub u128);

/// Identifier for a single agent run within a session.
#[derive(Debug, Clone, Copy, PartialEq, Eq, Hash, Structural)]
pub struct RunId(pub u128);

/// Identifier for a single message in a session.
#[derive(Debug, Clone, Copy, PartialEq, Eq, Hash, Structural)]
pub struct MessageId(pub u128);

/// Identifier for a tool invocation requested by the model.
#[derive(Debug, Clone, Copy, PartialEq, Eq, Hash, Structural)]
pub struct ToolCallId(pub u128);

/// Identifier for a tool result matching a [`ToolCallId`].
#[derive(Debug, Clone, Copy, PartialEq, Eq, Hash, Structural)]
pub struct ToolResultId(pub u128);

/// Wall-clock instant as whole milliseconds since the Unix epoch.
#[derive(Debug, Clone, Copy, PartialEq, Eq, Hash, Structural)]
pub struct Timestamp(pub u64);

/// A fresh ULID value (`ulid::Ulid::new`). It depends on the clock and on
/// randomness, so nothing is promised of it.
#[verifier::external_body]
pub fn new_id() -> u128 {
    ulid::Ulid::new().0
}

/// The Crockford base32 digit for `d` (0 ≤ d < 32): `0`–`9`, then the
/// capitals without `I`, `L`, `O` and `U`.
pub open spec fn crockford_digit(d: int) -> char {
    seq![
        '0', '1', '2', '3', '4', '5', '6', '7', '8', '9', 'A', 'B', 'C', 'D', 'E', 'F',
        'G', 'H', 'J', 'K', 'M', 'N', 'P', 'Q', 'R', 'S', 'T', 'V', 'W', 'X', 'Y', 'Z',
    ][d]
}

/// The canonical text of a ULID value: 26 Crockford base32 digits, most
/// significant first; digit `i` holds bits `5 * (25 - i)` up.
pub open spec fn spec_ulid_text(value: u128) -> Seq<char> {
    Seq::new(26, |i: int| crockford_digit(((value >> ((5 * (25 - i)) as u128)) & 31u128) as int))
}

/// `ulid::Ulid`'s `Display`: the canonical text of `value`
/// ([`spec_ulid_text`]).
#[verifier::external_body]
pub(crate) fn ulid_text(value: u128) -> (text: String)
    ensures
        text@ == spec_ulid_text(value),
{
    ulid::Ulid(value).to_string()
}

/// The current wall-clock time in Unix milliseconds
/// (`std::time::SystemTime::now`). Times before the epoch read as 0.
#[verifier::external_body]
fn unix_millis_now() -> u64 {
    std::time::SystemTime::now()
        .duration_since(std::time::UNIX_EPOCH)
        .unwrap_or_default()
        .as_millis() as u64
}

impl Timestamp {
    /// Capture the current wall-clock time, truncated to millisecond
    /// precision.
    pub fn now() -> Timestamp {
        Timestamp(unix_millis_now())
    }
}

/// `prefix` followed by the ULID text of `value`: the text `Display`
/// gives for the identifier newtypes.
pub open spec fn id_label(prefix: Seq<char>, value: u128) -> Seq<char> {
    prefix + spec_ulid_text(value)
}

impl ToolCallId {
    /// The identifier as displayed: `tool_call:<ulid>`.
    pub fn label(&self) -> (text: String)
        ensures
            text@ == id_label("tool_call:"@, self.0),
    {
        let mut out = String::from_str("tool_call:");
        let id = ulid_text(self.0);
        out.append(id.as_str());
        out
    }
}

impl SessionId {
    /// The identifier as displayed: `session:<ulid>`.
    pub fn label(&self) -> (text: String)
        ensures
            text@ == id_label("session:"@, self.0),
    {
        let mut out = String::from_str("session:");
        let id = ulid_text(self.0);
        out.append(id.as_str());
        out
    }
}

} // verus!
