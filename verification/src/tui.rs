//! The terminal UI's model: chat history, run phase, scroll position,
//! the session picker, and how agent events, resumed history, keys and
//! local slash commands change them.
//!
//! The model is single-threaded: [`App::apply_event`] is the only path
//! that folds agent output in, and [`App::handle_key`] the only one that
//! folds keyboard input in. The text editor and the clock belong to the
//! application; the model is told what it needs of them (whether the
//! editor is empty, how long since the spinner last moved).

use vstd::prelude::*;

use std::collections::HashMap;

use crate::event::{AgentEvent, ToolOutcome as EventToolOutcome, ToolStream};
use crate::ids::{new_id, SessionId, ToolCallId};
use crate::json::{json_text, spec_json_text};
use crate::message::{Message, Part, Role};
use crate::read::{dec_digits, push_decimal, spec_utf8_lossy, utf8_lossy};
use crate::commands::{local_name, parse_slash_spec, SlashCommand};
use crate::text::{starts_with, str_eq};
use crate::ui::{clip, clip_to_width, spec_str_width, str_width};

verus! {

broadcast use vstd::std_specs::hash::group_hash_axioms;

/// What the input is currently focused on.
#[derive(Debug, Clone, Copy, PartialEq, Eq, Structural)]
pub enum InputMode {
    /// Typing in the composer.
    Editing,
    /// An overlay has focus.
    Overlay(Overlay),
}

/// Overlay kinds.
#[derive(Debug, Clone, Copy, PartialEq, Eq, Structural)]
pub enum Overlay {
    Approval,
    CommandPalette,
    SessionPicker,
}

/// Current phase of the agent run; drives the spinner and the status
/// bar.
#[derive(Debug, Clone, Copy, PartialEq, Eq, Structural)]
pub enum RunPhase {
    /// No run in flight.
    Idle,
    /// Model is generating or a tool is executing.
    Running,
    /// Last run completed cleanly.
    Done,
    /// Last run was cancelled.
    Cancelled,
    /// Last run failed.
    Failed,
}

/// One rendered entry in the chat scrollback.
#[derive(Debug, Clone)]
pub enum ChatEntry {
    /// Echo of the user's prompt.
    UserMessage(String),
    /// Model-authored text, possibly streamed in chunks.
    AssistantText(String),
    /// Model reasoning.
    Reasoning(String),
    /// A completed tool invocation.
    ToolCard {
        name: String,
        args: serde_json::Value,
        output: String,
        is_error: bool,
        truncated: bool,
        stdout: String,
        stderr: String,
    },
    /// A short status line.
    StatusLine(String),
}

/// A chat entry as plain text values.
pub enum EntryView {
    User(Seq<char>),
    Assistant(Seq<char>),
    Reasoning(Seq<char>),
    Card {
        name: Seq<char>,
        args: serde_json::Value,
        output: Seq<char>,
        is_error: bool,
        truncated: bool,
        stdout: Seq<char>,
        stderr: Seq<char>,
    },
    Status(Seq<char>),
}

/// The plain-text form of a chat entry.
pub open spec fn entry_view(e: ChatEntry) -> EntryView {
    match e {
        ChatEntry::UserMessage(t) => EntryView::User(t@),
        ChatEntry::AssistantText(t) => EntryView::Assistant(t@),
        ChatEntry::Reasoning(t) => EntryView::Reasoning(t@),
        ChatEntry::ToolCard { name, args, output, is_error, truncated, stdout, stderr } => EntryView::Card {
            name: name@,
            args,
            output: output@,
            is_error,
            truncated,
            stdout: stdout@,
            stderr: stderr@,
        },
        ChatEntry::StatusLine(t) => EntryView::Status(t@),
    }
}

/// The plain-text form of a whole scrollback.
pub open spec fn entries_view(h: Seq<ChatEntry>) -> Seq<EntryView> {
    h.map_values(|e: ChatEntry| entry_view(e))
}

/// A tool call between its start and its result.
#[derive(Debug, Clone)]
pub struct PendingTool {
    pub name: String,
    pub args: serde_json::Value,
    pub stdout: String,
    pub stderr: String,
}

/// A pending tool call as plain text values.
pub struct PendingView {
    pub name: Seq<char>,
    pub args: serde_json::Value,
    pub stdout: Seq<char>,
    pub stderr: Seq<char>,
}

/// The plain-text form of a pending tool call.
pub open spec fn pending_view(p: PendingTool) -> PendingView {
    PendingView { name: p.name@, args: p.args, stdout: p.stdout@, stderr: p.stderr@ }
}

/// The plain-text form of the in-flight tool table.
pub open spec fn flight_view(m: Map<u128, PendingTool>) -> Map<u128, PendingView> {
    m.map_values(|p: PendingTool| pending_view(p))
}

/// A row of the session picker.
#[derive(Debug, Clone)]
pub struct PickerEntry {
    pub session_id: String,
    pub started_at: String,
    pub path_tail: String,
}

/// The session picker overlay: its rows and the selected row.
#[derive(Debug, Clone)]
pub struct SessionPicker {
    pub entries: Vec<PickerEntry>,
    pub selected: usize,
}

impl SessionPicker {
    /// Whether the selection is a row (or 0 for an empty list).
    pub open spec fn wf(&self) -> bool {
        self.entries@.len() == 0 && self.selected == 0 || self.selected < self.entries@.len()
    }

    /// A picker over `entries` with the first row selected.
    pub fn new(entries: Vec<PickerEntry>) -> (p: Self)
        ensures
            p.entries@ == entries@,
            p.selected == 0,
            p.wf(),
    {
        SessionPicker { entries, selected: 0 }
    }

    /// The index of the last row (0 for an empty list).
    pub open spec fn last_index(&self) -> nat {
        if self.entries@.len() == 0 {
            0
        } else {
            (self.entries@.len() - 1) as nat
        }
    }

    /// Move the selection down by `n` rows, stopping at the last.
    pub fn page_down(&mut self, n: usize)
        requires
            old(self).wf(),
        ensures
            final(self).wf(),
            final(self).entries@ == old(self).entries@,
            final(self).selected == if old(self).selected + n > old(self).last_index() {
                old(self).last_index()
            } else {
                (old(self).selected + n) as nat
            },
    {
        let last = if self.entries.len() == 0 {
            0
        } else {
            self.entries.len() - 1
        };
        if n > last - self.selected {
            self.selected = last;
        } else {
            self.selected = self.selected + n;
        }
    }

    /// Move the selection up by `n` rows, stopping at the first.
    pub fn page_up(&mut self, n: usize)
        requires
            old(self).wf(),
        ensures
            final(self).wf(),
            final(self).entries@ == old(self).entries@,
            final(self).selected == if old(self).selected >= n {
                (old(self).selected - n) as nat
            } else {
                0
            },
    {
        self.selected = self.selected.saturating_sub(n);
    }

    /// Select the next row (stays on the last).
    pub fn select_next(&mut self)
        requires
            old(self).wf(),
        ensures
            final(self).wf(),
            final(self).entries@ == old(self).entries@,
            final(self).selected == if old(self).selected + 1 > old(self).last_index() {
                old(self).last_index()
            } else {
                (old(self).selected + 1) as nat
            },
    {
        self.page_down(1);
    }

    /// Select the previous row (stays on the first).
    pub fn select_prev(&mut self)
        requires
            old(self).wf(),
        ensures
            final(self).wf(),
            final(self).entries@ == old(self).entries@,
            final(self).selected == if old(self).selected >= 1 {
                (old(self).selected - 1) as nat
            } else {
                0
            },
    {
        self.page_up(1);
    }

    /// Select the first row.
    pub fn select_first(&mut self)
        requires
            old(self).wf(),
        ensures
            final(self).wf(),
            final(self).entries@ == old(self).entries@,
            final(self).selected == 0,
    {
        self.selected = 0;
    }

    /// Select the last row.
    pub fn select_last(&mut self)
        requires
            old(self).wf(),
        ensures
            final(self).wf(),
            final(self).entries@ == old(self).entries@,
            final(self).selected == old(self).last_index(),
    {
        self.selected = if self.entries.len() == 0 {
            0
        } else {
            self.entries.len() - 1
        };
    }

    /// The selected row, if the list is not empty.
    pub fn selected(&self) -> (e: Option<&PickerEntry>)
        requires
            self.wf(),
        ensures
            self.entries@.len() == 0 ==> e is None,
            self.entries@.len() > 0 ==> e == Some(&self.entries@[self.selected as int]),
    {
        if self.entries.len() == 0 {
            None
        } else {
            Some(&self.entries[self.selected])
        }
    }
}

/// The TUI model.
#[derive(Debug)]
pub struct App {
    /// Path of the session log backing this session (display text).
    pub session_path: String,
    /// Session id we resume into or have started.
    pub session_id: SessionId,
    /// Where focus currently is.
    pub input_mode: InputMode,
    /// Ordered chat history; renders top to bottom.
    pub history: Vec<ChatEntry>,
    /// Lines from the bottom to anchor the view to; 0 follows the tail.
    pub scroll_back: u16,
    /// Whether new content scrolls into view.
    pub following_tail: bool,
    /// Current run phase.
    pub phase: RunPhase,
    /// Spinner frame counter.
    pub spinner_frame: usize,
    /// Whether the worker task is still alive.
    pub worker_alive: bool,
    /// Last error to surface in the status bar.
    pub last_error: Option<String>,
    /// Set when the user pressed Enter.
    pub submit_pending: bool,
    /// Set when the user asked to quit.
    pub quit: bool,
    /// Model display string for the status bar.
    pub model_label: String,
    /// In-flight tool calls by call id: started, not yet finished.
    pub in_flight_tools: HashMap<u128, PendingTool>,
    /// The session picker overlay, when open.
    pub picker: Option<SessionPicker>,
    /// Session id the user picked from the picker.
    pub pending_resume: Option<String>,
}

/// `chunk` added to the trailing assistant text entry, or a new one when
/// the trailing entry is something else.
pub open spec fn append_assistant(h: Seq<EntryView>, chunk: Seq<char>) -> Seq<EntryView> {
    if h.len() > 0 && h.last() is Assistant {
        h.update(h.len() - 1, EntryView::Assistant(h.last()->Assistant_0 + chunk))
    } else {
        h.push(EntryView::Assistant(chunk))
    }
}

/// `chunk` added to the trailing reasoning entry, or a new one when the
/// trailing entry is something else.
pub open spec fn append_reasoning(h: Seq<EntryView>, chunk: Seq<char>) -> Seq<EntryView> {
    if h.len() > 0 && h.last() is Reasoning {
        h.update(h.len() - 1, EntryView::Reasoning(h.last()->Reasoning_0 + chunk))
    } else {
        h.push(EntryView::Reasoning(chunk))
    }
}

/// The card a finished tool call becomes.
pub open spec fn card_for(p: PendingView, output: Seq<char>, is_error: bool, truncated: bool) -> EntryView {
    EntryView::Card {
        name: p.name,
        args: p.args,
        output,
        is_error,
        truncated,
        stdout: p.stdout,
        stderr: p.stderr,
    }
}

/// A call's arguments as shown on its status line: the compact JSON
/// text when it is at most 60 columns wide, otherwise cut to 57 columns
/// and marked with `…`.
pub open spec fn short_args_spec(args: serde_json::Value) -> Seq<char> {
    let s = spec_json_text(args);
    if spec_str_width(s) <= 60 {
        s
    } else {
        clip(s, 0, 57)
    }
}

/// The status line shown when a tool call starts.
pub open spec fn tool_start_line(name: Seq<char>, args: serde_json::Value) -> Seq<char> {
    "  ▷ "@ + name + "("@ + short_args_spec(args) + ")"@
}

/// The status-bar error text of a failed run.
pub open spec fn failure_line(code: Seq<char>, retryable: bool, message: Seq<char>) -> Seq<char> {
    code + (if retryable {
        " (retryable)"@
    } else {
        Seq::empty()
    }) + ": "@ + message
}

/// Render a call's arguments compactly for its status line.
pub fn short_args(args: &serde_json::Value) -> (s: String)
    ensures
        s@ == short_args_spec(*args),
{
    let s = json_text(args);
    if str_width(s.as_str()) <= 60 {
        s
    } else {
        clip_to_width(s.as_str(), 57)
    }
}

/// The state a replay of persisted messages moves through.
pub struct ChatState {
    pub history: Seq<EntryView>,
    pub flight: Map<u128, PendingView>,
}

/// One persisted part's effect on the chat, given its message's role.
///
/// User text becomes a prompt echo; assistant text and reasoning become
/// entries; an assistant's tool call is held until its result; a result
/// in a tool-result message closes its held call into a card (a result
/// with no held call shows nothing).
pub open spec fn replay_part(st: ChatState, role: Role, part: Part) -> ChatState {
    match role {
        Role::User => match part {
            Part::Text { text } => ChatState { history: st.history.push(EntryView::User(text@)), flight: st.flight },
            _ => st,
        },
        Role::Assistant => match part {
            Part::Text { text } => ChatState {
                history: st.history.push(EntryView::Assistant(text@)),
                flight: st.flight,
            },
            Part::Reasoning { text } => ChatState {
                history: st.history.push(EntryView::Reasoning(text@)),
                flight: st.flight,
            },
            Part::ToolCall { id, name, args } => ChatState {
                history: st.history,
                flight: st.flight.insert(
                    id.0,
                    PendingView { name: name@, args, stdout: Seq::empty(), stderr: Seq::empty() },
                ),
            },
            _ => st,
        },
        Role::ToolResult => match part {
            Part::ToolResult { call_id, output, is_error, truncated, .. } => if st.flight.contains_key(
                call_id.0,
            ) {
                ChatState {
                    history: st.history.push(card_for(st.flight[call_id.0], output@, is_error, truncated)),
                    flight: st.flight.remove(call_id.0),
                }
            } else {
                st
            },
            _ => st,
        },
    }
}

/// The effect of a message's parts, in order.
pub open spec fn replay_parts(st: ChatState, role: Role, parts: Seq<Part>) -> ChatState
    decreases parts.len(),
{
    if parts.len() == 0 {
        st
    } else {
        replay_part(replay_parts(st, role, parts.drop_last()), role, parts.last())
    }
}

/// The effect of a list of persisted messages, in order.
pub open spec fn replay_messages(st: ChatState, msgs: Seq<Message>) -> ChatState
    decreases msgs.len(),
{
    if msgs.len() == 0 {
        st
    } else {
        let prev = replay_messages(st, msgs.drop_last());
        replay_parts(prev, msgs.last().role, msgs.last().parts@)
    }
}

/// Help text shown by `/help`.
pub const SLASH_HELP: &'static str = "Available commands:
  /help        show this help
  /clear       clear the scrollback
  /model       show the active model
  /doctor      show config snapshot
  /resume <id> resume an existing session (handled by CLI flag for now)
  /plan        reserved, no effect yet (start with `crow tui --plan`)
  /cost        reserved, no effect yet
  /status      reserved, no effect yet
  /add-dir     reserved, no effect yet
  /quit        exit the TUI (also /exit, /q; Ctrl+D on empty input also quits)

Shortcuts:
  Enter          submit the current input
  Shift+Enter    insert a newline
  PageUp/PageDown  scroll the chat
  Esc / Ctrl+C   interrupt the current run (twice to quit)
  End            jump to the latest message";

/// The text `Debug` gives a string: quoted, with escapes.
pub uninterp spec fn spec_debug_text(s: Seq<char>) -> Seq<char>;

/// `<str as Debug>::fmt`: the quoted, escaped form of `s`, a function of
/// `s` alone.
#[verifier::external_body]
fn debug_text(s: &str) -> (d: String)
    ensures
        d@ == spec_debug_text(s@),
{
    format!("{s:?}")
}

/// The text `Debug` gives the path `s`: quoted, with escapes.
pub uninterp spec fn spec_path_debug_text(s: Seq<char>) -> Seq<char>;

/// `<std::path::Path as Debug>::fmt` on the path `s`: a function of `s`
/// alone.
#[verifier::external_body]
fn path_debug_text(s: &str) -> (d: String)
    ensures
        d@ == spec_path_debug_text(s@),
{
    format!("{:?}", std::path::Path::new(s))
}

impl App {
    /// The chat state the model is in.
    pub open spec fn chat(&self) -> ChatState {
        ChatState { history: entries_view(self.history@), flight: flight_view(self.in_flight_tools@) }
    }

    /// Whether the picker, when open, selects one of its rows.
    pub open spec fn wf(&self) -> bool {
        self.picker matches Some(p) ==> p.wf()
    }

    /// Whether every field but the history, the in-flight table and those
    /// named is as in `o`.
    pub open spec fn same_settings(&self, o: &App) -> bool {
        &&& self.session_path == o.session_path
        &&& self.session_id == o.session_id
        &&& self.input_mode == o.input_mode
        &&& self.scroll_back == o.scroll_back
        &&& self.following_tail == o.following_tail
        &&& self.spinner_frame == o.spinner_frame
        &&& self.worker_alive == o.worker_alive
        &&& self.submit_pending == o.submit_pending
        &&& self.quit == o.quit
        &&& self.model_label == o.model_label
        &&& self.picker == o.picker
        &&& self.pending_resume == o.pending_resume
    }

    fn push_entry(&mut self, e: ChatEntry)
        ensures
            final(self).history@ == old(self).history@.push(e),
            final(self).in_flight_tools == old(self).in_flight_tools,
            final(self).phase == old(self).phase,
            final(self).last_error == old(self).last_error,
            final(self).same_settings(old(self)),
            entries_view(final(self).history@) == entries_view(old(self).history@).push(entry_view(e)),
    {
        self.history.push(e);
        assert(entries_view(self.history@) =~= entries_view(old(self).history@).push(entry_view(e)));
    }

    /// A fresh model for `model_label` backed by the log at
    /// `session_path`, with `history` (from a resumed session) replayed
    /// into the scrollback.
    pub fn new(model_label: String, session_path: String, history: Vec<Message>) -> (app: App)
        ensures
            app.wf(),
            app.chat() == replay_messages(
                ChatState { history: Seq::empty(), flight: Map::empty() },
                history@,
            ),
            app.session_path == session_path,
            app.model_label == model_label,
            app.input_mode == InputMode::Editing,
            app.scroll_back == 0,
            app.following_tail,
            app.phase == RunPhase::Idle,
            app.spinner_frame == 0,
            app.worker_alive,
            app.last_error is None,
            !app.submit_pending,
            !app.quit,
            app.picker is None,
            app.pending_resume is None,
    {
        let mut app = App {
            session_path,
            session_id: SessionId(new_id()),
            input_mode: InputMode::Editing,
            history: Vec::new(),
            scroll_back: 0,
            following_tail: true,
            phase: RunPhase::Idle,
            spinner_frame: 0,
            worker_alive: true,
            last_error: None,
            submit_pending: false,
            quit: false,
            model_label,
            in_flight_tools: HashMap::new(),
            picker: None,
            pending_resume: None,
        };
        assert(entries_view(app.history@) =~= Seq::<EntryView>::empty());
        assert(flight_view(app.in_flight_tools@) =~= Map::<u128, PendingView>::empty());
        let ghost start = app;
        let mut i: usize = 0;
        while i < history.len()
            invariant
                i <= history@.len(),
                app.chat() == replay_messages(
                    ChatState { history: Seq::empty(), flight: Map::empty() },
                    history@.take(i as int),
                ),
                app.same_settings(&start),
                app.phase == RunPhase::Idle,
                app.last_error is None,
                app.session_path == start.session_path,
                app.model_label == start.model_label,
            decreases history@.len() - i,
        {
            assert(history@.take(i + 1).drop_last() =~= history@.take(i as int));
            assert(history@.take(i + 1).last() == history@[i as int]);
            replay_message(&mut app, &history[i]);
            i = i + 1;
        }
        assert(history@.take(i as int) =~= history@);
        app
    }
}

/// Fold one persisted message into the chat.
fn replay_message(app: &mut App, msg: &Message)
    ensures
        final(app).chat() == replay_parts(old(app).chat(), msg.role, msg.parts@),
        final(app).same_settings(old(app)),
        final(app).phase == old(app).phase,
        final(app).last_error == old(app).last_error,
{
    let mut k: usize = 0;
    while k < msg.parts.len()
        invariant
            k <= msg.parts@.len(),
            app.chat() == replay_parts(old(app).chat(), msg.role, msg.parts@.take(k as int)),
            app.same_settings(old(app)),
            app.phase == old(app).phase,
            app.last_error == old(app).last_error,
        decreases msg.parts@.len() - k,
    {
        assert(msg.parts@.take(k + 1).drop_last() =~= msg.parts@.take(k as int));
        assert(msg.parts@.take(k + 1).last() == msg.parts@[k as int]);
        replay_one_part(app, msg.role, &msg.parts[k]);
        k = k + 1;
    }
    assert(msg.parts@.take(k as int) =~= msg.parts@);
}

/// Fold one persisted part into the chat.
fn replay_one_part(app: &mut App, role: Role, part: &Part)
    ensures
        final(app).chat() == replay_part(old(app).chat(), role, *part),
        final(app).same_settings(old(app)),
        final(app).phase == old(app).phase,
        final(app).last_error == old(app).last_error,
{
    match role {
        Role::User => {
            if let Part::Text { text } = part {
                app.push_entry(ChatEntry::UserMessage(text.clone()));
            }
        },
        Role::Assistant => match part {
            Part::Text { text } => {
                app.push_entry(ChatEntry::AssistantText(text.clone()));
            },
            Part::Reasoning { text } => {
                app.push_entry(ChatEntry::Reasoning(text.clone()));
            },
            Part::ToolCall { id, name, args } => {
                let p = PendingTool {
                    name: name.clone(),
                    args: args.clone(),
                    stdout: String::new(),
                    stderr: String::new(),
                };
                app.in_flight_tools.insert(id.0, p);
                assert(flight_view(app.in_flight_tools@) =~= flight_view(old(app).in_flight_tools@).insert(
                    id.0,
                    pending_view(p),
                ));
            },
            _ => {},
        },
        Role::ToolResult => {
            if let Part::ToolResult { call_id, output, is_error, truncated, .. } = part {
                let removed = app.in_flight_tools.remove(&call_id.0);
                match removed {
                    Some(p) => {
                        assert(old(app).in_flight_tools@.contains_key(call_id.0));
                        assert(old(app).in_flight_tools@[call_id.0] == p);
                        assert(flight_view(old(app).in_flight_tools@)[call_id.0] == pending_view(p));
                        assert(flight_view(app.in_flight_tools@) =~= flight_view(
                            old(app).in_flight_tools@,
                        ).remove(call_id.0));
                        app.push_entry(
                            ChatEntry::ToolCard {
                                name: p.name,
                                args: p.args,
                                output: output.clone(),
                                is_error: *is_error,
                                truncated: *truncated,
                                stdout: p.stdout,
                                stderr: p.stderr,
                            },
                        );
                    },
                    None => {
                        assert(app.in_flight_tools@ =~= old(app).in_flight_tools@);
                    },
                }
            }
        },
    }
}

} // verus!

verus! {

/// A key as the model sees it.
#[derive(Debug, Clone, Copy, PartialEq, Eq, Structural)]
pub enum KeyCode {
    Char(char),
    Enter,
    Esc,
    PageUp,
    PageDown,
    Home,
    End,
    Up,
    Down,
    /// Any other key (the editor may still use it).
    Other,
}

/// The modifier keys held with a key: shift, control, alt, and any
/// other (super, hyper, meta).
#[derive(Debug, Clone, Copy, PartialEq, Eq, Structural)]
pub struct KeyModifiers {
    pub shift: bool,
    pub control: bool,
    pub alt: bool,
    pub other: bool,
}

impl KeyModifiers {
    /// No modifier held.
    pub open spec fn none(self) -> bool {
        !self.shift && !self.control && !self.alt && !self.other
    }

    /// Control alone.
    pub open spec fn control_only(self) -> bool {
        !self.shift && self.control && !self.alt && !self.other
    }

    /// Shift alone.
    pub open spec fn shift_only(self) -> bool {
        self.shift && !self.control && !self.alt && !self.other
    }
}

fn mods_none(m: KeyModifiers) -> (b: bool)
    ensures
        b == m.none(),
{
    !m.shift && !m.control && !m.alt && !m.other
}

fn mods_control_only(m: KeyModifiers) -> (b: bool)
    ensures
        b == m.control_only(),
{
    !m.shift && m.control && !m.alt && !m.other
}

fn mods_shift_only(m: KeyModifiers) -> (b: bool)
    ensures
        b == m.shift_only(),
{
    m.shift && !m.control && !m.alt && !m.other
}

/// The status-bar note set when a run is interrupted from the keyboard.
pub open spec fn interrupted_text() -> Seq<char> {
    "interrupted"@
}

/// Whether the status-bar error of `a` is the text `t`.
pub open spec fn error_is(a: &App, t: Seq<char>) -> bool {
    a.last_error matches Some(e) && e@ == t
}

impl App {
    /// Add a chunk of assistant text to the trailing assistant entry, or
    /// start one.
    fn append_assistant_text(&mut self, chunk: &str)
        ensures
            entries_view(final(self).history@) == append_assistant(
                entries_view(old(self).history@),
                chunk@,
            ),
            final(self).in_flight_tools == old(self).in_flight_tools,
            final(self).phase == old(self).phase,
            final(self).last_error == old(self).last_error,
            final(self).same_settings(old(self)),
    {
        let n = self.history.len();
        if n > 0 {
            if let ChatEntry::AssistantText(_) = &self.history[n - 1] {
                let mut slot = ChatEntry::StatusLine(String::new());
                self.history.set_and_swap(n - 1, &mut slot);
                let merged = match slot {
                    ChatEntry::AssistantText(t) => {
                        let mut t = t;
                        t.append(chunk);
                        ChatEntry::AssistantText(t)
                    },
                    other => other,
                };
                self.history.set(n - 1, merged);
                assert(entries_view(self.history@) =~= append_assistant(
                    entries_view(old(self).history@),
                    chunk@,
                ));
                return;
            }
        }
        self.push_entry(ChatEntry::AssistantText(chunk.to_owned()));
    }

    /// Add a chunk of reasoning to the trailing reasoning entry, or start
    /// one.
    fn append_reasoning(&mut self, chunk: &str)
        ensures
            entries_view(final(self).history@) == append_reasoning(
                entries_view(old(self).history@),
                chunk@,
            ),
            final(self).in_flight_tools == old(self).in_flight_tools,
            final(self).phase == old(self).phase,
            final(self).last_error == old(self).last_error,
            final(self).same_settings(old(self)),
    {
        let n = self.history.len();
        if n > 0 {
            if let ChatEntry::Reasoning(_) = &self.history[n - 1] {
                let mut slot = ChatEntry::StatusLine(String::new());
                self.history.set_and_swap(n - 1, &mut slot);
                let merged = match slot {
                    ChatEntry::Reasoning(t) => {
                        let mut t = t;
                        t.append(chunk);
                        ChatEntry::Reasoning(t)
                    },
                    other => other,
                };
                self.history.set(n - 1, merged);
                assert(entries_view(self.history@) =~= append_reasoning(
                    entries_view(old(self).history@),
                    chunk@,
                ));
                return;
            }
        }
        self.push_entry(ChatEntry::Reasoning(chunk.to_owned()));
    }

    /// Apply one agent event to the model.
    ///
    /// A run start records the session and starts the spinner; text and
    /// reasoning deltas extend the scrollback; a tool start shows a status
    /// line and holds the call; tool output is added to the held call's
    /// stdout or stderr; a tool finish turns the held call into a card; the
    /// terminal events set the phase (a failure also sets the status-bar
    /// error). Everything else leaves the model as it was.
    pub fn apply_event(&mut self, event: AgentEvent)
        ensures
            final(self).wf() == old(self).wf(),
            final(self).same_settings_but_session(old(self)),
            match event {
                AgentEvent::RunStarted { session_id, .. } => final(self).session_id == session_id
                    && final(self).phase == RunPhase::Running && final(self).last_error is None
                    && final(self).chat() == old(self).chat(),
                AgentEvent::TextDelta { text } => final(self).unchanged_but_history(old(self))
                    && final(self).chat().history == append_assistant(old(self).chat().history, text@)
                    && final(self).chat().flight == old(self).chat().flight,
                AgentEvent::ReasoningDelta { text } => final(self).unchanged_but_history(old(self))
                    && final(self).chat().history == append_reasoning(old(self).chat().history, text@)
                    && final(self).chat().flight == old(self).chat().flight,
                AgentEvent::ToolStarted { call_id, name, args } => final(self).unchanged_but_history(
                    old(self),
                ) && final(self).chat().history == old(self).chat().history.push(
                    EntryView::Status(tool_start_line(name@, args)),
                ) && final(self).chat().flight == old(self).chat().flight.insert(
                    call_id.0,
                    PendingView { name: name@, args, stdout: Seq::empty(), stderr: Seq::empty() },
                ),
                AgentEvent::ToolOutput { call_id, stream, chunk } => final(self).unchanged_but_history(
                    old(self),
                ) && final(self).chat().history == old(self).chat().history && if old(
                    self,
                ).chat().flight.contains_key(call_id.0) {
                    let p = old(self).chat().flight[call_id.0];
                    final(self).chat().flight == old(self).chat().flight.insert(
                        call_id.0,
                        match stream {
                            ToolStream::Stdout => PendingView {
                                stdout: p.stdout + spec_utf8_lossy(chunk@),
                                ..p
                            },
                            ToolStream::Stderr => PendingView {
                                stderr: p.stderr + spec_utf8_lossy(chunk@),
                                ..p
                            },
                        },
                    )
                } else {
                    final(self).chat().flight == old(self).chat().flight
                },
                AgentEvent::ToolFinished { call_id, result } => final(self).unchanged_but_history(
                    old(self),
                ) && if old(self).chat().flight.contains_key(call_id.0) {
                    let p = old(self).chat().flight[call_id.0];
                    &&& final(self).chat().flight == old(self).chat().flight.remove(call_id.0)
                    &&& final(self).chat().history == old(self).chat().history.push(
                        match result {
                            EventToolOutcome::Success { output, truncated } => card_for(
                                p,
                                output@,
                                false,
                                truncated,
                            ),
                            EventToolOutcome::Error { message, truncated, .. } => card_for(
                                p,
                                message@,
                                true,
                                truncated,
                            ),
                        },
                    )
                } else {
                    final(self).chat() == old(self).chat()
                },
                AgentEvent::RunFinished { .. } => final(self).phase == RunPhase::Done
                    && final(self).last_error == old(self).last_error && final(self).chat() == old(
                    self,
                ).chat() && final(self).session_id == old(self).session_id,
                AgentEvent::RunCancelled => final(self).phase == RunPhase::Cancelled
                    && final(self).last_error == old(self).last_error && final(self).chat() == old(
                    self,
                ).chat() && final(self).session_id == old(self).session_id,
                AgentEvent::RunFailed { code, retryable, message } => final(self).phase
                    == RunPhase::Failed && error_is(final(self), failure_line(code.0@, retryable, message@))
                    && final(self).chat() == old(self).chat() && final(self).session_id == old(
                    self,
                ).session_id,
                _ => final(self).unchanged_but_history(old(self)) && final(self).chat() == old(
                    self,
                ).chat(),
            },
    {
        match event {
            AgentEvent::RunStarted { session_id, .. } => {
                self.session_id = session_id;
                self.phase = RunPhase::Running;
                self.last_error = None;
            },
            AgentEvent::TextDelta { text } => {
                self.append_assistant_text(text.as_str());
            },
            AgentEvent::ReasoningDelta { text } => {
                self.append_reasoning(text.as_str());
            },
            AgentEvent::ToolStarted { call_id, name, args } => {
                let mut line = String::from_str("  ▷ ");
                line.append(name.as_str());
                line.append("(");
                let summary = short_args(&args);
                line.append(summary.as_str());
                line.append(")");
                self.push_entry(ChatEntry::StatusLine(line));
                let p = PendingTool { name, args, stdout: String::new(), stderr: String::new() };
                self.in_flight_tools.insert(call_id.0, p);
                assert(flight_view(self.in_flight_tools@) =~= flight_view(old(self).in_flight_tools@).insert(
                    call_id.0,
                    pending_view(p),
                ));
            },
            AgentEvent::ToolOutput { call_id, stream, chunk } => {
                let slot = self.in_flight_tools.remove(&call_id.0);
                match slot {
                    Some(p) => {
                        assert(old(self).in_flight_tools@[call_id.0] == p);
                        let s = utf8_lossy(chunk.as_slice());
                        let mut p = p;
                        match stream {
                            ToolStream::Stdout => p.stdout.append(s.as_str()),
                            ToolStream::Stderr => p.stderr.append(s.as_str()),
                        }
                        self.in_flight_tools.insert(call_id.0, p);
                        assert(self.in_flight_tools@ =~= old(self).in_flight_tools@.insert(call_id.0, p));
                        assert(flight_view(self.in_flight_tools@) =~= flight_view(
                            old(self).in_flight_tools@,
                        ).insert(call_id.0, pending_view(p)));
                    },
                    None => {
                        assert(self.in_flight_tools@ =~= old(self).in_flight_tools@);
                    },
                }
            },
            AgentEvent::ToolFinished { call_id, result } => {
                let pending = self.in_flight_tools.remove(&call_id.0);
                let (output, is_error, truncated) = match result {
                    EventToolOutcome::Success { output, truncated } => (output, false, truncated),
                    EventToolOutcome::Error { message, truncated, .. } => (message, true, truncated),
                };
                match pending {
                    Some(p) => {
                        assert(old(self).in_flight_tools@[call_id.0] == p);
                        assert(flight_view(old(self).in_flight_tools@)[call_id.0] == pending_view(p));
                        assert(flight_view(self.in_flight_tools@) =~= flight_view(
                            old(self).in_flight_tools@,
                        ).remove(call_id.0));
                        self.push_entry(
                            ChatEntry::ToolCard {
                                name: p.name,
                                args: p.args,
                                output,
                                is_error,
                                truncated,
                                stdout: p.stdout,
                                stderr: p.stderr,
                            },
                        );
                    },
                    None => {
                        assert(self.in_flight_tools@ =~= old(self).in_flight_tools@);
                    },
                }
            },
            AgentEvent::RunFinished { .. } => {
                self.phase = RunPhase::Done;
            },
            AgentEvent::RunCancelled => {
                self.phase = RunPhase::Cancelled;
            },
            AgentEvent::RunFailed { code, retryable, message } => {
                self.phase = RunPhase::Failed;
                let mut line = code.0;
                if retryable {
                    line.append(" (retryable)");
                }
                line.append(": ");
                line.append(message.as_str());
                self.last_error = Some(line);
            },
            _ => {},
        }
    }

    /// Whether every field but the history, the in-flight table, the
    /// phase, the status-bar error and the session id is as in `o`.
    pub open spec fn same_settings_but_session(&self, o: &App) -> bool {
        &&& self.session_path == o.session_path
        &&& self.input_mode == o.input_mode
        &&& self.scroll_back == o.scroll_back
        &&& self.following_tail == o.following_tail
        &&& self.spinner_frame == o.spinner_frame
        &&& self.worker_alive == o.worker_alive
        &&& self.submit_pending == o.submit_pending
        &&& self.quit == o.quit
        &&& self.model_label == o.model_label
        &&& self.picker == o.picker
        &&& self.pending_resume == o.pending_resume
    }

    /// Whether only the history and the in-flight table may differ from
    /// `o`.
    pub open spec fn unchanged_but_history(&self, o: &App) -> bool {
        &&& self.same_settings(o)
        &&& self.phase == o.phase
        &&& self.last_error == o.last_error
    }

    /// Note that the worker has gone (its event channel closed): a run
    /// still marked running fails with `worker connection lost`.
    pub fn mark_worker_gone(&mut self)
        ensures
            !final(self).worker_alive,
            old(self).phase == RunPhase::Running ==> final(self).phase == RunPhase::Failed
                && error_is(final(self), "worker connection lost"@),
            old(self).phase != RunPhase::Running ==> final(self).phase == old(self).phase
                && final(self).last_error == old(self).last_error,
            final(self).history == old(self).history,
            final(self).in_flight_tools == old(self).in_flight_tools,
            final(self).quit == old(self).quit,
    {
        self.worker_alive = false;
        if self.phase == RunPhase::Running {
            self.phase = RunPhase::Failed;
            self.last_error = Some(String::from_str("worker connection lost"));
        }
    }

    /// True if the model is currently generating.
    pub fn is_running(&self) -> (b: bool)
        ensures
            b == (self.phase == RunPhase::Running),
    {
        self.phase == RunPhase::Running
    }

    /// Advance the spinner when a run is in flight and at least 120 ms
    /// passed since it last moved; returns whether it moved.
    pub fn spinner_needs_tick(&mut self, elapsed_ms: u64) -> (moved: bool)
        ensures
            moved == (old(self).phase == RunPhase::Running && elapsed_ms >= 120),
            moved ==> final(self).spinner_frame == (if old(self).spinner_frame == usize::MAX {
                0
            } else {
                old(self).spinner_frame + 1
            }),
            !moved ==> final(self).spinner_frame == old(self).spinner_frame,
            final(self).phase == old(self).phase,
            final(self).history == old(self).history,
    {
        if self.is_running() && elapsed_ms >= 120 {
            self.spinner_frame = if self.spinner_frame == usize::MAX {
                0
            } else {
                self.spinner_frame + 1
            };
            return true;
        }
        false
    }

    /// Whether the user pressed Enter since the last call; clears the
    /// flag.
    pub fn take_submit(&mut self) -> (was: bool)
        ensures
            was == old(self).submit_pending,
            !final(self).submit_pending,
            final(self).history == old(self).history,
            final(self).quit == old(self).quit,
    {
        let was = self.submit_pending;
        self.submit_pending = false;
        was
    }

    /// Echo the user's prompt into the scrollback.
    pub fn record_user_message(&mut self, text: &str)
        ensures
            final(self).chat().history == old(self).chat().history.push(EntryView::User(text@)),
            final(self).chat().flight == old(self).chat().flight,
            final(self).unchanged_but_history(old(self)),
    {
        self.push_entry(ChatEntry::UserMessage(text.to_owned()));
    }

    /// Whether the user has asked to quit.
    pub fn should_quit(&self) -> (b: bool)
        ensures
            b == self.quit,
    {
        self.quit
    }

    /// Open the session picker over `entries` (replacing any open one).
    pub fn open_picker(&mut self, entries: Vec<PickerEntry>)
        ensures
            final(self).picker matches Some(p) && p.entries@ == entries@ && p.selected == 0,
            final(self).wf(),
            final(self).history == old(self).history,
            final(self).quit == old(self).quit,
    {
        self.picker = Some(SessionPicker::new(entries));
    }

    /// Close the picker without selecting anything.
    pub fn close_picker(&mut self)
        ensures
            final(self).picker is None,
            final(self).wf(),
            final(self).history == old(self).history,
            final(self).quit == old(self).quit,
    {
        self.picker = None;
    }

    /// True if the picker overlay is visible.
    pub fn picker_is_open(&self) -> (b: bool)
        ensures
            b == self.picker is Some,
    {
        self.picker.is_some()
    }

    /// Handle one key. Returns whether the key goes on to the text editor.
    ///
    /// With the picker open only picker keys apply (see
    /// [`App::handle_picker_key`]). Otherwise Ctrl+C interrupts a running
    /// run and quits an idle one; Ctrl+D quits on an empty editor; Esc
    /// interrupts a running run; Enter submits (Shift+Enter is the
    /// editor's newline); PageUp/PageDown scroll by ten lines and End
    /// returns to the tail. Every other key goes to the editor.
    pub fn handle_key(&mut self, code: KeyCode, modifiers: KeyModifiers, input_empty: bool) -> (forward: bool)
        requires
            old(self).wf(),
        ensures
            final(self).wf(),
            final(self).history == old(self).history,
            final(self).in_flight_tools == old(self).in_flight_tools,
            old(self).picker is None ==> final(self).picker is None && final(self).pending_resume
                == old(self).pending_resume && key_effect(
                *old(self),
                *final(self),
                code,
                modifiers,
                input_empty,
                forward,
            ),
            old(self).picker is Some ==> !forward && picker_key_effect(*old(self), *final(self), code, modifiers),
    {
        if self.picker.is_some() {
            self.handle_picker_key(code, modifiers);
            return false;
        }
        match code {
            KeyCode::Char(c) => {
                if c == 'c' && mods_control_only(modifiers) {
                    if self.is_running() {
                        self.phase = RunPhase::Cancelled;
                        self.last_error = Some(String::from_str("interrupted"));
                        return false;
                    }
                    self.quit = true;
                    return false;
                }
                if c == 'd' && mods_control_only(modifiers) && input_empty {
                    self.quit = true;
                    return false;
                }
                true
            },
            KeyCode::Esc => {
                if self.is_running() {
                    self.phase = RunPhase::Cancelled;
                    self.last_error = Some(String::from_str("interrupted"));
                    return false;
                }
                true
            },
            KeyCode::Enter => {
                if mods_none(modifiers) {
                    self.submit_pending = true;
                    return false;
                }
                true
            },
            KeyCode::PageUp => {
                self.scroll_back = self.scroll_back.saturating_add(10);
                self.following_tail = false;
                false
            },
            KeyCode::PageDown => {
                self.scroll_back = self.scroll_back.saturating_sub(10);
                if self.scroll_back == 0 {
                    self.following_tail = true;
                }
                false
            },
            KeyCode::End => {
                self.scroll_back = 0;
                self.following_tail = true;
                false
            },
            _ => true,
        }
    }

    /// Keymap of the session picker: Ctrl+C closes it and quits; Esc or
    /// `q` closes it; Down/`j` and Up/`k` move by one row, PageDown and
    /// PageUp by ten, Home and End to the ends; Enter closes it, records
    /// the selected session (if any) for resuming, and quits.
    pub fn handle_picker_key(&mut self, code: KeyCode, modifiers: KeyModifiers)
        requires
            old(self).wf(),
            old(self).picker is Some,
        ensures
            final(self).wf(),
            final(self).history == old(self).history,
            final(self).in_flight_tools == old(self).in_flight_tools,
            picker_key_effect(*old(self), *final(self), code, modifiers),
    {
        if code == KeyCode::Char('c') && mods_control_only(modifiers) {
            self.picker = None;
            self.quit = true;
            return ;
        }
        match code {
            KeyCode::Esc | KeyCode::Char('q') => {
                self.picker = None;
            },
            KeyCode::Down | KeyCode::Char('j') => {
                let mut p = self.picker.take().unwrap();
                p.select_next();
                self.picker = Some(p);
            },
            KeyCode::Up | KeyCode::Char('k') => {
                let mut p = self.picker.take().unwrap();
                p.select_prev();
                self.picker = Some(p);
            },
            KeyCode::PageDown => {
                let mut p = self.picker.take().unwrap();
                p.page_down(10);
                self.picker = Some(p);
            },
            KeyCode::PageUp => {
                let mut p = self.picker.take().unwrap();
                p.page_up(10);
                self.picker = Some(p);
            },
            KeyCode::Home => {
                let mut p = self.picker.take().unwrap();
                p.select_first();
                self.picker = Some(p);
            },
            KeyCode::End => {
                let mut p = self.picker.take().unwrap();
                p.select_last();
                self.picker = Some(p);
            },
            KeyCode::Enter => {
                let p = self.picker.take().unwrap();
                match p.selected() {
                    Some(entry) => {
                        self.pending_resume = Some(entry.session_id.clone());
                    },
                    None => {},
                }
                self.quit = true;
            },
            _ => {},
        }
    }
}

/// What a key does with the picker closed (see [`App::handle_key`]):
/// how `b` differs from `a`, and whether the key goes to the editor.
pub open spec fn key_effect(
    a: App,
    b: App,
    code: KeyCode,
    modifiers: KeyModifiers,
    input_empty: bool,
    forward: bool,
) -> bool {
    let running = a.phase == RunPhase::Running;
    if code == KeyCode::Char('c') && modifiers.control_only() {
        &&& !forward
        &&& running ==> b.phase == RunPhase::Cancelled && error_is(&b, interrupted_text()) && b.quit == a.quit
        &&& !running ==> b.quit && b.phase == a.phase && b.last_error == a.last_error
        &&& b.scroll_back == a.scroll_back && b.following_tail == a.following_tail
        &&& b.submit_pending == a.submit_pending
    } else if code == KeyCode::Char('d') && modifiers.control_only() && input_empty {
        !forward && b.quit && b.phase == a.phase && b.last_error == a.last_error && b.scroll_back
            == a.scroll_back && b.following_tail == a.following_tail && b.submit_pending
            == a.submit_pending
    } else if code == KeyCode::Esc && running {
        !forward && b.phase == RunPhase::Cancelled && error_is(&b, interrupted_text()) && b.quit
            == a.quit && b.scroll_back == a.scroll_back && b.following_tail == a.following_tail
            && b.submit_pending == a.submit_pending
    } else if code == KeyCode::Enter && modifiers.none() {
        !forward && b.submit_pending && b.quit == a.quit && b.phase == a.phase && b.last_error
            == a.last_error && b.scroll_back == a.scroll_back && b.following_tail == a.following_tail
    } else if code == KeyCode::PageUp || code == KeyCode::PageDown || code == KeyCode::End {
        &&& !forward
        &&& b.quit == a.quit && b.phase == a.phase && b.last_error == a.last_error
        &&& b.submit_pending == a.submit_pending
        &&& code == KeyCode::PageUp ==> b.scroll_back == (if a.scroll_back + 10 > u16::MAX {
            u16::MAX as int
        } else {
            a.scroll_back + 10
        }) && !b.following_tail
        &&& code == KeyCode::PageDown ==> b.scroll_back == (if a.scroll_back >= 10 {
            a.scroll_back - 10
        } else {
            0
        }) && b.following_tail == (b.scroll_back == 0 || a.following_tail)
        &&& code == KeyCode::End ==> b.scroll_back == 0 && b.following_tail
    } else {
        forward && b.quit == a.quit && b.phase == a.phase && b.last_error == a.last_error
            && b.scroll_back == a.scroll_back && b.following_tail == a.following_tail
            && b.submit_pending == a.submit_pending
    }
}

/// What a key does with the picker open (see [`App::handle_picker_key`]).
pub open spec fn picker_key_effect(a: App, b: App, code: KeyCode, modifiers: KeyModifiers) -> bool {
    let p = a.picker->0;
    &&& b.phase == a.phase && b.last_error == a.last_error
    &&& b.scroll_back == a.scroll_back && b.following_tail == a.following_tail
    &&& b.submit_pending == a.submit_pending
    &&& if code == KeyCode::Char('c') && modifiers.control_only() {
        b.picker is None && b.quit && b.pending_resume == a.pending_resume
    } else if code == KeyCode::Esc || code == KeyCode::Char('q') {
        b.picker is None && b.quit == a.quit && b.pending_resume == a.pending_resume
    } else if code == KeyCode::Enter {
        &&& b.picker is None && b.quit
        &&& p.entries@.len() > 0 ==> (b.pending_resume matches Some(id) && id == p.entries@[p.selected as int].session_id)
        &&& p.entries@.len() == 0 ==> b.pending_resume == a.pending_resume
    } else {
        &&& b.quit == a.quit && b.pending_resume == a.pending_resume
        &&& b.picker matches Some(q) && q.entries@ == p.entries@ && q.selected == if code == KeyCode::Down
            || code == KeyCode::Char('j') {
            if p.selected + 1 > p.last_index() { p.last_index() } else { (p.selected + 1) as nat }
        } else if code == KeyCode::Up || code == KeyCode::Char('k') {
            if p.selected >= 1 { (p.selected - 1) as nat } else { 0 }
        } else if code == KeyCode::PageDown {
            if p.selected + 10 > p.last_index() { p.last_index() } else { (p.selected + 10) as nat }
        } else if code == KeyCode::PageUp {
            if p.selected >= 10 { (p.selected - 10) as nat } else { 0 }
        } else if code == KeyCode::Home {
            0
        } else if code == KeyCode::End {
            p.last_index()
        } else {
            p.selected as nat
        }
    }
}

/// The status line a local slash command adds, if any: `/help` shows
/// the help text, `/doctor` the model and session path, `/model` the
/// model, and `/resume` a hint (the driver normally handles it).
pub open spec fn slash_line(a: App, name: Seq<char>, args: Seq<char>) -> Option<Seq<char>> {
    if name == "help"@ {
        Some(SLASH_HELP@)
    } else if name == "doctor"@ {
        Some("model="@ + a.model_label@ + " session="@ + spec_path_debug_text(a.session_path@))
    } else if name == "model"@ {
        Some("current model: "@ + a.model_label@)
    } else if name == "resume"@ {
        if args.len() == 0 {
            Some("resume: pick a session with the picker overlay"@)
        } else {
            Some("resume: use `crow tui --resume "@ + args + "` from the shell"@)
        }
    } else {
        None
    }
}

impl App {
    /// Apply the side effect of a local slash command (already classified
    /// by `parse_slash`): `/clear` empties the scrollback, the others add
    /// their status line ([`slash_line`]); unknown names do nothing.
    pub fn apply_local_slash(&mut self, name: &str, args: &str)
        ensures
            final(self).unchanged_but_history(old(self)),
            final(self).chat().flight == old(self).chat().flight,
            name@ == "clear"@ ==> final(self).chat().history == Seq::<EntryView>::empty(),
            name@ != "clear"@ ==> match slash_line(*old(self), name@, args@) {
                Some(line) => final(self).chat().history == old(self).chat().history.push(
                    EntryView::Status(line),
                ),
                None => final(self).chat().history == old(self).chat().history,
            },
    {
        if str_eq(name, "clear") {
            self.history.clear();
            assert(entries_view(self.history@) =~= Seq::<EntryView>::empty());
        } else if str_eq(name, "help") {
            self.push_entry(ChatEntry::StatusLine(String::from_str(SLASH_HELP)));
        } else if str_eq(name, "doctor") {
            let mut line = String::from_str("model=");
            line.append(self.model_label.as_str());
            line.append(" session=");
            let d = path_debug_text(self.session_path.as_str());
            line.append(d.as_str());
            self.push_entry(ChatEntry::StatusLine(line));
        } else if str_eq(name, "model") {
            let mut line = String::from_str("current model: ");
            line.append(self.model_label.as_str());
            self.push_entry(ChatEntry::StatusLine(line));
        } else if str_eq(name, "resume") {
            if args.is_empty() {
                self.push_entry(
                    ChatEntry::StatusLine(String::from_str("resume: pick a session with the picker overlay")),
                );
            } else {
                let mut line = String::from_str("resume: use `crow tui --resume ");
                line.append(args);
                line.append("` from the shell");
                self.push_entry(ChatEntry::StatusLine(line));
            }
        }
    }
}

/// How many of `ids` start with `prefix`.
pub open spec fn prefix_matches(ids: Seq<String>, prefix: Seq<char>) -> Seq<int>
    decreases ids.len(),
{
    if ids.len() == 0 {
        Seq::empty()
    } else {
        let rest = prefix_matches(ids.drop_last(), prefix);
        let last = ids.last()@;
        if prefix.len() <= last.len() && last.take(prefix.len() as int) == prefix {
            rest.push(ids.len() - 1)
        } else {
            rest
        }
    }
}

/// Resolve a session id or id prefix against the known session ids: the
/// index of the one session it matches, or an error when it matches none
/// or several.
pub fn resolve_session_prefix(ids: &Vec<String>, prefix: &str) -> (r: Result<usize, String>)
    ensures
        prefix_matches(ids@, prefix@).len() == 1 ==> r == Ok::<usize, String>(
            prefix_matches(ids@, prefix@)[0] as usize,
        ),
        prefix_matches(ids@, prefix@).len() > 1 ==> (r matches Err(m) && m@ == "session id prefix "@
            + spec_debug_text(prefix@) + " matched "@ + dec_digits(prefix_matches(ids@, prefix@).len())
            + " sessions; be more specific"@),
        prefix_matches(ids@, prefix@).len() == 0 ==> (r matches Err(m) && m@ == "no session matched "@
            + spec_debug_text(prefix@)),
{
    let mut found: Vec<usize> = Vec::new();
    let mut i: usize = 0;
    while i < ids.len()
        invariant
            i <= ids@.len(),
            found@.len() <= i,
            found@.map_values(|k: usize| k as int) == prefix_matches(ids@.take(i as int), prefix@),
        decreases ids@.len() - i,
    {
        assert(ids@.take(i + 1).drop_last() =~= ids@.take(i as int));
        assert(ids@.take(i + 1).last() == ids@[i as int]);
        let ghost before = found@;
        if starts_with(ids[i].as_str(), prefix) {
            found.push(i);
            assert(found@.map_values(|k: usize| k as int) =~= before.map_values(|k: usize| k as int).push(i as int));
        }
        i = i + 1;
    }
    assert(ids@.take(i as int) =~= ids@);
    let n = found.len();
    if n == 1 {
        assert(found@.map_values(|k: usize| k as int)[0] == found@[0] as int);
        Ok(found[0])
    } else if n > 1 {
        let mut m = String::from_str("session id prefix ");
        let d = debug_text(prefix);
        m.append(d.as_str());
        m.append(" matched ");
        push_decimal(&mut m, n as u64);
        m.append(" sessions; be more specific");
        Err(m)
    } else {
        let mut m = String::from_str("no session matched ");
        let d = debug_text(prefix);
        m.append(d.as_str());
        Err(m)
    }
}

} // verus!

verus! {

/// Whether the help text lists the command `/name`.
pub open spec fn help_lists(name: Seq<char>) -> bool {
    exists|i: int| 0 <= i && i + name.len() + 1 <= SLASH_HELP@.len() && #[trigger] SLASH_HELP@.subrange(i, i + name.len() + 1) == seq!['/'] + name
}

/// The help text lists `/name`, at `i`.
proof fn lemma_listed(name: Seq<char>, i: int)
    requires
        0 <= i,
        i + name.len() + 1 <= SLASH_HELP@.len(),
        SLASH_HELP@.subrange(i, i + name.len() + 1) == seq!['/'] + name,
    ensures
        help_lists(name),
{
    assert(SLASH_HELP@.subrange(i, i + name.len() + 1) == seq!['/'] + name);
}

/// `/help` stays truthful: every command `parse_slash` accepts as local
/// is listed under its name, and so are `/quit` and `/exit`.
pub proof fn law_help_lists_every_command(input: Seq<char>)
    ensures
        match parse_slash_spec(input) {
            Some((c, _)) => !(c is Quit || c is Exit) ==> help_lists(local_name(c)),
            None => true,
        },
        help_lists("quit"@),
        help_lists("exit"@),
{
    reveal_strlit("Available commands:\n  /help        show this help\n  /clear       clear the scrollback\n  /model       show the active model\n  /doctor      show config snapshot\n  /resume <id> resume an existing session (handled by CLI flag for now)\n  /plan        reserved, no effect yet (start with `crow tui --plan`)\n  /cost        reserved, no effect yet\n  /status      reserved, no effect yet\n  /add-dir     reserved, no effect yet\n  /quit        exit the TUI (also /exit, /q; Ctrl+D on empty input also quits)\n\nShortcuts:\n  Enter          submit the current input\n  Shift+Enter    insert a newline\n  PageUp/PageDown  scroll the chat\n  Esc / Ctrl+C   interrupt the current run (twice to quit)\n  End            jump to the latest message");
    assert(SLASH_HELP@ == "Available commands:\n  /help        show this help\n  /clear       clear the scrollback\n  /model       show the active model\n  /doctor      show config snapshot\n  /resume <id> resume an existing session (handled by CLI flag for now)\n  /plan        reserved, no effect yet (start with `crow tui --plan`)\n  /cost        reserved, no effect yet\n  /status      reserved, no effect yet\n  /add-dir     reserved, no effect yet\n  /quit        exit the TUI (also /exit, /q; Ctrl+D on empty input also quits)\n\nShortcuts:\n  Enter          submit the current input\n  Shift+Enter    insert a newline\n  PageUp/PageDown  scroll the chat\n  Esc / Ctrl+C   interrupt the current run (twice to quit)\n  End            jump to the latest message"@);
    reveal_strlit("quit");
    assert(SLASH_HELP@.subrange(420, 425) =~= seq!['/'] + "quit"@);
    lemma_listed("quit"@, 420);
    reveal_strlit("exit");
    assert(SLASH_HELP@.subrange(452, 457) =~= seq!['/'] + "exit"@);
    lemma_listed("exit"@, 452);
    if let Some((c, _)) = parse_slash_spec(input) {
        match c {
            SlashCommand::Help => {
                reveal_strlit("help");
                assert(SLASH_HELP@.subrange(22, 27) =~= seq!['/'] + "help"@);
                lemma_listed("help"@, 22);
            },
            SlashCommand::Clear => {
                reveal_strlit("clear");
                assert(SLASH_HELP@.subrange(52, 58) =~= seq!['/'] + "clear"@);
                lemma_listed("clear"@, 52);
            },
            SlashCommand::Doctor => {
                reveal_strlit("doctor");
                assert(SLASH_HELP@.subrange(125, 132) =~= seq!['/'] + "doctor"@);
                lemma_listed("doctor"@, 125);
            },
            SlashCommand::Model => {
                reveal_strlit("model");
                assert(SLASH_HELP@.subrange(88, 94) =~= seq!['/'] + "model"@);
                lemma_listed("model"@, 88);
            },
            SlashCommand::Resume => {
                reveal_strlit("resume");
                assert(SLASH_HELP@.subrange(161, 168) =~= seq!['/'] + "resume"@);
                lemma_listed("resume"@, 161);
            },
            SlashCommand::Plan => {
                reveal_strlit("plan");
                assert(SLASH_HELP@.subrange(233, 238) =~= seq!['/'] + "plan"@);
                lemma_listed("plan"@, 233);
            },
            SlashCommand::Cost => {
                reveal_strlit("cost");
                assert(SLASH_HELP@.subrange(303, 308) =~= seq!['/'] + "cost"@);
                lemma_listed("cost"@, 303);
            },
            SlashCommand::Status => {
                reveal_strlit("status");
                assert(SLASH_HELP@.subrange(342, 349) =~= seq!['/'] + "status"@);
                lemma_listed("status"@, 342);
            },
            SlashCommand::AddDir => {
                reveal_strlit("add-dir");
                assert(SLASH_HELP@.subrange(381, 389) =~= seq!['/'] + "add-dir"@);
                lemma_listed("add-dir"@, 381);
            },
            SlashCommand::Quit | SlashCommand::Exit => {},
        }
    }
}

} // verus!

verus! {

/// A resumed session shows a finished tool call as the card the result
/// describes: a tool-result message whose one part closes a held call
/// adds one card, with the held call's name, arguments and captured
/// output, and the part's own output, error flag and truncation flag; the
/// call is no longer held.
pub proof fn law_resumed_result_becomes_its_card(
    st: ChatState,
    msgs: Seq<Message>,
    m: Message,
    call_id: ToolCallId,
    output: String,
    is_error: bool,
    truncated: bool,
    display: Option<String>,
)
    requires
        m.role == Role::ToolResult,
        m.parts@ == seq![Part::ToolResult { call_id, output, is_error, truncated, display }],
        replay_messages(st, msgs).flight.contains_key(call_id.0),
    ensures
        ({
            let before = replay_messages(st, msgs);
            let after = replay_messages(st, msgs.push(m));
            let p = before.flight[call_id.0];
            &&& after.history == before.history.push(
                EntryView::Card {
                    name: p.name,
                    args: p.args,
                    output: output@,
                    is_error: is_error,
                    truncated: truncated,
                    stdout: p.stdout,
                    stderr: p.stderr,
                },
            )
            &&& after.flight == before.flight.remove(call_id.0)
        }),
{
    let before = replay_messages(st, msgs);
    assert(msgs.push(m).drop_last() =~= msgs);
    assert(msgs.push(m).last() == m);
    assert(replay_messages(st, msgs.push(m)) == replay_parts(before, m.role, m.parts@));
    assert(m.parts@.drop_last() =~= Seq::<Part>::empty());
    assert(m.parts@.last() == Part::ToolResult { call_id, output, is_error, truncated, display });
    assert(replay_parts(before, m.role, m.parts@.drop_last()) == before);
    assert(replay_parts(before, m.role, m.parts@) == replay_part(
        before,
        Role::ToolResult,
        Part::ToolResult { call_id, output, is_error, truncated, display },
    ));
}

} // verus!
