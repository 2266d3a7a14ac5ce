//! The provider boundary: what a model provider can fail with, the
//! scripted provider that replays a fixed list of events, and the
//! configuration of the OpenAI-compatible provider.
//!
//! Streaming itself is asynchronous and lives in the application; the
//! replay order, the fixture format and the error texts are here.

use vstd::prelude::*;

use crate::event::AgentEvent;
use crate::read::{dec_digits, push_decimal};
use crate::text::{
    all_ws, chars_of, content_lines, is_blank, lemma_split_nl_shape, lines_view, push_chars, split_lines,
};

verus! {

/// Errors a provider can surface to the agent loop.
#[derive(Debug, Clone, PartialEq, Eq)]
pub enum ProviderError {
    /// The provider returned malformed or contradictory data.
    StreamInvalid(String),
    /// The upstream service returned an error; `retryable` says whether
    /// the same request may be tried again.
    Upstream { code: String, message: String, retryable: bool },
    /// The cancellation token fired before or during the stream.
    Cancelled,
}

/// The display text of a [`ProviderError`].
pub open spec fn provider_error_text(e: ProviderError) -> Seq<char> {
    match e {
        ProviderError::StreamInvalid(m) => "stream invalid: "@ + m@,
        ProviderError::Upstream { code, message, .. } => "upstream error: "@ + code@ + " "@ + message@,
        ProviderError::Cancelled => "cancelled"@,
    }
}

impl ProviderError {
    /// The human-readable message of this error (its display text).
    pub fn message(&self) -> (text: String)
        ensures
            text@ == provider_error_text(*self),
    {
        match self {
            ProviderError::StreamInvalid(m) => {
                let mut out = String::from_str("stream invalid: ");
                out.append(m.as_str());
                out
            },
            ProviderError::Upstream { code, message, .. } => {
                let mut out = String::from_str("upstream error: ");
                out.append(code.as_str());
                out.append(" ");
                out.append(message.as_str());
                out
            },
            ProviderError::Cancelled => String::from_str("cancelled"),
        }
    }
}

/// A provider that replays a pre-loaded sequence of events.
#[derive(Debug, Clone)]
pub struct ScriptedProvider {
    events: Vec<AgentEvent>,
}

impl ScriptedProvider {
    /// The events this provider replays, in order.
    pub closed spec fn script(&self) -> Seq<AgentEvent> {
        self.events@
    }

    /// Build a provider from an in-memory sequence of events.
    pub fn from_events(events: Vec<AgentEvent>) -> (p: Self)
        ensures
            p.script() == events@,
    {
        ScriptedProvider { events }
    }

    /// The events this provider replays.
    pub fn events(&self) -> (e: &Vec<AgentEvent>)
        ensures
            e@ == self.script(),
    {
        &self.events
    }
}

/// The replay of one scripted stream: the events still to come, and
/// whether the stream has ended.
pub struct ScriptCursor {
    remaining: Vec<AgentEvent>,
    finished: bool,
}

impl ScriptCursor {
    /// The events not yet handed out.
    pub closed spec fn rest(&self) -> Seq<AgentEvent> {
        self.remaining@
    }

    /// Whether the stream has ended (after which it only yields `None`).
    pub closed spec fn ended(&self) -> bool {
        self.finished
    }

    /// A stream that will hand out `events` in order.
    pub fn new(events: Vec<AgentEvent>) -> (c: Self)
        ensures
            c.rest() == events@,
            !c.ended(),
    {
        ScriptCursor { remaining: events, finished: false }
    }

    /// The next item of the stream, given whether the cancellation token
    /// has fired. An ended stream yields `None`; a cancelled one yields a
    /// `Cancelled` error once and then ends; otherwise the next event
    /// comes out, and `None` ends the stream when none is left.
    pub fn next(&mut self, cancelled: bool) -> (item: Option<Result<AgentEvent, ProviderError>>)
        ensures
            old(self).ended() ==> item is None && final(self).ended() && final(self).rest() == old(
                self,
            ).rest(),
            !old(self).ended() && cancelled ==> item == Some(
                Err::<AgentEvent, ProviderError>(ProviderError::Cancelled),
            ) && final(self).ended() && final(self).rest() == old(self).rest(),
            !old(self).ended() && !cancelled && old(self).rest().len() > 0 ==> item == Some(
                Ok::<AgentEvent, ProviderError>(old(self).rest()[0]),
            ) && !final(self).ended() && final(self).rest() == old(self).rest().drop_first(),
            !old(self).ended() && !cancelled && old(self).rest().len() == 0 ==> item is None
                && final(self).ended() && final(self).rest() == old(self).rest(),
    {
        if self.finished {
            return None;
        }
        if cancelled {
            self.finished = true;
            return Some(Err(ProviderError::Cancelled));
        }
        if self.remaining.len() > 0 {
            let event = self.remaining.remove(0);
            assert(self.remaining@ =~= old(self).rest().drop_first());
            Some(Ok(event))
        } else {
            self.finished = true;
            None
        }
    }
}

/// A line as `str::lines` yields it: without one trailing carriage
/// return.
pub open spec fn strip_cr(line: Seq<char>) -> Seq<char> {
    if line.len() > 0 && line.last() == '\r' {
        line.drop_last()
    } else {
        line
    }
}

/// The lines of a fixture that carry an event: each non-blank line with
/// its 1-based line number, in order.
pub open spec fn event_lines(content: Seq<char>) -> Seq<(nat, Seq<char>)> {
    event_lines_from(content_lines(content), 1)
}

/// The non-blank lines among `ls`, numbered from `first`.
pub open spec fn event_lines_from(ls: Seq<Seq<char>>, first: nat) -> Seq<(nat, Seq<char>)>
    decreases ls.len(),
{
    if ls.len() == 0 {
        Seq::empty()
    } else {
        let rest = event_lines_from(ls.drop_first(), first + 1);
        let line = strip_cr(ls[0]);
        if all_ws(line) {
            rest
        } else {
            seq![(first, line)] + rest
        }
    }
}

/// The message of the error for an empty fixture.
pub open spec fn empty_fixture_text() -> Seq<char> {
    "fixture file is empty"@
}

/// The event-carrying lines of a JSONL fixture, each with its 1-based
/// line number. A fixture that is empty or holds only whitespace is a
/// `StreamInvalid` error.
pub fn fixture_lines(content: &str) -> (r: Result<Vec<(usize, String)>, ProviderError>)
    ensures
        all_ws(content@) ==> (r matches Err(ProviderError::StreamInvalid(m)) && m@ == empty_fixture_text()),
        !all_ws(content@) ==> (r matches Ok(v) && v@.len() == event_lines(content@).len() && forall|
            i: int,
        |
            0 <= i < v@.len() ==> (#[trigger] v@[i]).0 == event_lines(content@)[i].0 && v@[i].1@
                == event_lines(content@)[i].1),
{
    if is_blank(content) {
        return Err(ProviderError::StreamInvalid(String::from_str("fixture file is empty")));
    }
    let cs = chars_of(content);
    let mut lines = split_lines(cs.as_slice());
    proof {
        lemma_split_nl_shape(content@);
    }
    if lines[lines.len() - 1].len() == 0 {
        lines.pop();
    }
    assert(lines_view(lines@) =~= content_lines(content@));
    let ghost ls = content_lines(content@);
    let mut out: Vec<(usize, String)> = Vec::new();
    let mut idx: usize = lines.len();
    let ghost mut acc: Seq<(nat, Seq<char>)> = Seq::empty();
    // Walk backwards so the result is built by prepending.
    let mut rev: Vec<(usize, String)> = Vec::new();
    while idx > 0
        invariant
            idx <= lines@.len(),
            ls == lines_view(lines@),
            lines@.len() <= usize::MAX,
            rev@.len() == acc.len(),
            acc == event_lines_from(ls.skip(idx as int), (idx + 1) as nat),
            forall|i: int| 0 <= i < rev@.len() ==> (#[trigger] rev@[i]).0 == acc[acc.len() - 1 - i].0
                && rev@[i].1@ == acc[acc.len() - 1 - i].1,
        decreases idx,
    {
        idx = idx - 1;
        let line = &lines[idx];
        let mut end = line.len();
        if end > 0 && line[end - 1] == '\r' {
            end = end - 1;
        }
        let mut text = String::new();
        push_chars(&mut text, line.as_slice(), 0, end);
        assert(text@ == strip_cr(ls[idx as int])) by {
            assert(ls[idx as int] == line@);
            assert(text@ =~= line@.subrange(0, end as int));
            if line@.len() > 0 && line@.last() == '\r' {
                assert(line@.subrange(0, end as int) =~= line@.drop_last());
            } else {
                assert(line@.subrange(0, end as int) =~= line@);
            }
        }
        assert(ls.skip(idx as int).drop_first() =~= ls.skip(idx + 1));
        assert(ls.skip(idx as int)[0] == ls[idx as int]);
        let blank = is_blank(text.as_str());
        if !blank {
            proof {
                acc = seq![((idx + 1) as nat, text@)] + acc;
            }
            rev.push((idx + 1, text));
        }
    }
    assert(ls.skip(0) =~= ls);
    let n = rev.len();
    let mut k: usize = 0;
    while k < n
        invariant
            k <= n,
            n == rev@.len(),
            n == acc.len(),
            out@.len() == k,
            forall|i: int| 0 <= i < rev@.len() ==> (#[trigger] rev@[i]).0 == acc[acc.len() - 1 - i].0
                && rev@[i].1@ == acc[acc.len() - 1 - i].1,
            forall|i: int| 0 <= i < k ==> (#[trigger] out@[i]).0 == acc[i].0 && out@[i].1@ == acc[i].1,
        decreases n - k,
    {
        let pos = n - 1 - k;
        let item = (rev[pos].0, rev[pos].1.clone());
        out.push(item);
        k = k + 1;
    }
    Ok(out)
}

/// The error for a fixture line that is not a valid event:
/// `fixture line <n>: <detail>`.
pub fn fixture_line_error(line_no: usize, detail: &str) -> (e: ProviderError)
    ensures
        e matches ProviderError::StreamInvalid(m) && m@ == "fixture line "@ + dec_digits(
            line_no as nat,
        ) + ": "@ + detail@,
{
    let mut m = String::from_str("fixture line ");
    push_decimal(&mut m, line_no as u64);
    m.append(": ");
    m.append(detail);
    ProviderError::StreamInvalid(m)
}

/// The OpenAI-compatible provider's configuration: where to send
/// requests, which model to ask, and the key to authenticate with.
#[derive(Debug, Clone)]
pub struct GenaiProvider {
    base_url: String,
    model: String,
    api_key: String,
}

impl GenaiProvider {
    /// The endpoint requests go to.
    pub closed spec fn url(&self) -> Seq<char> {
        self.base_url@
    }

    /// The model requests ask for.
    pub closed spec fn model_name(&self) -> Seq<char> {
        self.model@
    }

    /// The API key requests authenticate with.
    pub closed spec fn key(&self) -> Seq<char> {
        self.api_key@
    }

    /// A provider for `model` at `base_url`, authenticating with
    /// `api_key`.
    pub fn with_api_key(base_url: &str, model: &str, api_key: String) -> (p: Self)
        ensures
            p.url() == base_url@,
            p.model_name() == model@,
            p.key() == api_key@,
    {
        GenaiProvider { base_url: base_url.to_owned(), model: model.to_owned(), api_key }
    }

    /// The endpoint requests go to.
    pub fn base_url(&self) -> (u: &str)
        ensures
            u@ == self.url(),
    {
        self.base_url.as_str()
    }

    /// The model requests ask for.
    pub fn model(&self) -> (m: &str)
        ensures
            m@ == self.model_name(),
    {
        self.model.as_str()
    }

    /// The API key requests authenticate with.
    pub fn api_key(&self) -> (k: &str)
        ensures
            k@ == self.key(),
    {
        self.api_key.as_str()
    }

    /// What opening a stream yields, given whether the request's
    /// cancellation had already fired: a fired request is `Cancelled`, as
    /// for every provider; otherwise, streaming not being implemented
    /// yet, a non-retryable upstream error.
    pub fn stream_error(&self, cancelled: bool) -> (e: ProviderError)
        ensures
            cancelled ==> e == ProviderError::Cancelled,
            !cancelled ==> (e matches ProviderError::Upstream { code, message, retryable } && code@
                == "genai_not_implemented"@ && message@ == "genai streaming is not implemented"@
                && !retryable),
    {
        if cancelled {
            return ProviderError::Cancelled;
        }
        ProviderError::Upstream {
            code: String::from_str("genai_not_implemented"),
            message: String::from_str("genai streaming is not implemented"),
            retryable: false,
        }
    }
}

/// The error when the API key's environment variable `env_name` is not
/// set.
pub fn missing_api_key_error(env_name: &str) -> (e: ProviderError)
    ensures
        e matches ProviderError::Upstream { code, message, retryable } && code@ == "missing_api_key"@
            && message@ == "env var "@ + env_name@ + " not set"@ && !retryable,
{
    let mut message = String::from_str("env var ");
    message.append(env_name);
    message.append(" not set");
    ProviderError::Upstream { code: String::from_str("missing_api_key"), message, retryable: false }
}

/// Context window, in tokens, assumed for a model whose pricing entry
/// does not give one.
pub fn default_context_size() -> (n: u32)
    ensures
        n == 32_768,
{
    32_768
}

} // verus!
