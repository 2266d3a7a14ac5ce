//! Slash-command parsing.
//!
//! Slash commands (`/help`, `/quit`, `/clear`, ...) are intercepted by
//! the TUI driver before any text reaches the agent. [`parse_slash`]
//! classifies an input line; the driver pattern-matches on the
//! [`SlashOutcome`].

use vstd::prelude::*;

use crate::text::{all_ws, chars_of, first_non_ws, is_blank, is_whitespace, is_ws, str_eq, string_from_chars, trim_start_spec};

verus! {

/// What the TUI driver should do with a parsed slash command.
#[derive(Debug, Clone, PartialEq, Eq)]
pub enum SlashOutcome {
    /// Pure UI side-effect, dispatched by name with its arguments.
    Local { name: String, args: String },
    /// Submit `text` as the next agent prompt.
    Submit(String),
    /// Quit the TUI.
    Quit,
}

/// The slash commands the TUI knows.
#[derive(Debug, Clone, Copy, PartialEq, Eq, Structural)]
pub enum SlashCommand {
    Help,
    Clear,
    Quit,
    Exit,
    Doctor,
    Model,
    Resume,
    Plan,
    Cost,
    Status,
    AddDir,
}

/// The command a name (without the slash) denotes, aliases included.
pub open spec fn command_spec(name: Seq<char>) -> Option<SlashCommand> {
    if name == "help"@ || name == "?"@ {
        Some(SlashCommand::Help)
    } else if name == "clear"@ || name == "cls"@ {
        Some(SlashCommand::Clear)
    } else if name == "quit"@ || name == "exit"@ || name == "q"@ {
        Some(SlashCommand::Quit)
    } else if name == "doctor"@ {
        Some(SlashCommand::Doctor)
    } else if name == "model"@ {
        Some(SlashCommand::Model)
    } else if name == "resume"@ {
        Some(SlashCommand::Resume)
    } else if name == "plan"@ {
        Some(SlashCommand::Plan)
    } else if name == "cost"@ {
        Some(SlashCommand::Cost)
    } else if name == "status"@ {
        Some(SlashCommand::Status)
    } else if name == "add-dir"@ || name == "adddir"@ {
        Some(SlashCommand::AddDir)
    } else {
        None
    }
}

/// The canonical name a local command is dispatched under.
pub open spec fn local_name(c: SlashCommand) -> Seq<char> {
    match c {
        SlashCommand::Help => "help"@,
        SlashCommand::Clear => "clear"@,
        SlashCommand::Doctor => "doctor"@,
        SlashCommand::Model => "model"@,
        SlashCommand::Resume => "resume"@,
        SlashCommand::Plan => "plan"@,
        SlashCommand::Cost => "cost"@,
        SlashCommand::Status => "status"@,
        SlashCommand::AddDir => "add-dir"@,
        SlashCommand::Quit | SlashCommand::Exit => Seq::<char>::empty(),
    }
}

/// Whether `o` is the outcome of command `c` with arguments `args`:
/// `Quit` for the quit commands, otherwise `Local` with the canonical
/// name and the arguments.
pub open spec fn outcome_is(o: SlashOutcome, c: SlashCommand, args: Seq<char>) -> bool {
    if c is Quit || c is Exit {
        o is Quit
    } else {
        o matches SlashOutcome::Local { name, args: a } && name@ == local_name(c) && a@ == args
    }
}

/// Index of the first whitespace character of `s`, or its length.
pub open spec fn ws_index(s: Seq<char>) -> int
    decreases s.len(),
{
    if s.len() == 0 {
        0
    } else if is_ws(s[0]) {
        0
    } else {
        1 + ws_index(s.drop_first())
    }
}

/// A command body split at its first whitespace: the name before it and
/// the arguments after it with leading whitespace removed.
pub open spec fn split_command_spec(body: Seq<char>) -> (Seq<char>, Seq<char>) {
    let i = ws_index(body);
    (body.take(i), trim_start_spec(body.skip(i)))
}

/// What [`parse_slash`] classifies `input` as: `None` unless the input,
/// after leading whitespace, starts with `/` followed by a known command
/// name; otherwise the command and its arguments.
pub open spec fn parse_slash_spec(input: Seq<char>) -> Option<(SlashCommand, Seq<char>)> {
    let t = trim_start_spec(input);
    if t.len() == 0 || t[0] != '/' {
        None
    } else {
        let (name, args) = split_command_spec(t.skip(1));
        match command_spec(name) {
            Some(c) => Some((c, args)),
            None => None,
        }
    }
}

/// Whether `cs[from..to]` spells `lit`.
fn span_is(cs: &[char], from: usize, to: usize, lit: &str) -> (b: bool)
    requires
        from <= to <= cs@.len(),
    ensures
        b == (cs@.subrange(from as int, to as int) == lit@),
{
    let l = chars_of(lit);
    if l.len() != to - from {
        return false;
    }
    let mut i: usize = 0;
    while i < l.len()
        invariant
            l@ == lit@,
            l@.len() == to - from,
            from <= to <= cs@.len(),
            i <= l@.len(),
            forall|j: int| 0 <= j < i ==> cs@[from + j] == l@[j],
        decreases l@.len() - i,
    {
        if cs[from + i] != l[i] {
            assert(cs@.subrange(from as int, to as int)[i as int] != lit@[i as int]);
            return false;
        }
        i = i + 1;
    }
    assert(cs@.subrange(from as int, to as int) =~= lit@);
    true
}

/// The command spelled by `cs[from..to]`, if any.
fn command_of(cs: &[char], from: usize, to: usize) -> (c: Option<SlashCommand>)
    requires
        from <= to <= cs@.len(),
    ensures
        c == command_spec(cs@.subrange(from as int, to as int)),
{
    if span_is(cs, from, to, "help") || span_is(cs, from, to, "?") {
        Some(SlashCommand::Help)
    } else if span_is(cs, from, to, "clear") || span_is(cs, from, to, "cls") {
        Some(SlashCommand::Clear)
    } else if span_is(cs, from, to, "quit") || span_is(cs, from, to, "exit") || span_is(
        cs,
        from,
        to,
        "q",
    ) {
        Some(SlashCommand::Quit)
    } else if span_is(cs, from, to, "doctor") {
        Some(SlashCommand::Doctor)
    } else if span_is(cs, from, to, "model") {
        Some(SlashCommand::Model)
    } else if span_is(cs, from, to, "resume") {
        Some(SlashCommand::Resume)
    } else if span_is(cs, from, to, "plan") {
        Some(SlashCommand::Plan)
    } else if span_is(cs, from, to, "cost") {
        Some(SlashCommand::Cost)
    } else if span_is(cs, from, to, "status") {
        Some(SlashCommand::Status)
    } else if span_is(cs, from, to, "add-dir") || span_is(cs, from, to, "adddir") {
        Some(SlashCommand::AddDir)
    } else {
        None
    }
}

impl SlashCommand {
    /// Map the command to the action the driver should take.
    pub fn outcome(self, args: &str) -> (o: SlashOutcome)
        ensures
            outcome_is(o, self, args@),
    {
        let name = match self {
            SlashCommand::Help => "help",
            SlashCommand::Clear => "clear",
            SlashCommand::Doctor => "doctor",
            SlashCommand::Model => "model",
            SlashCommand::Resume => "resume",
            SlashCommand::Plan => "plan",
            SlashCommand::Cost => "cost",
            SlashCommand::Status => "status",
            SlashCommand::AddDir => "add-dir",
            SlashCommand::Quit | SlashCommand::Exit => {
                return SlashOutcome::Quit;
            },
        };
        SlashOutcome::Local { name: String::from_str(name), args: String::from_str(args) }
    }

    /// The command a name denotes, if any (`"q"` and `"exit"` are
    /// aliases of `quit`, `"?"` of `help`, and so on).
    pub fn from_name(name: &str) -> (c: Option<SlashCommand>)
        ensures
            c == command_spec(name@),
    {
        let cs = chars_of(name);
        assert(cs@.subrange(0, cs@.len() as int) =~= name@);
        command_of(cs.as_slice(), 0, cs.len())
    }
}

/// Index of the first whitespace character in `cs[from..]`, as an
/// absolute index (or `cs.len()`).
fn find_ws(cs: &[char], from: usize) -> (e: usize)
    requires
        from <= cs@.len(),
    ensures
        from <= e <= cs@.len(),
        e - from == ws_index(cs@.skip(from as int)),
{
    let mut e = from;
    while e < cs.len() && !is_whitespace(cs[e])
        invariant
            from <= e <= cs@.len(),
            ws_index(cs@.skip(from as int)) == (e - from) + ws_index(cs@.skip(e as int)),
        decreases cs@.len() - e,
    {
        assert(cs@.skip(e as int).drop_first() =~= cs@.skip(e + 1));
        e = e + 1;
    }
    e
}

/// Splits a command body at its first whitespace into the name and the
/// arguments (leading whitespace of the arguments removed).
pub fn split_command(body: &str) -> (r: (String, String))
    ensures
        (r.0@, r.1@) == split_command_spec(body@),
{
    let cs = chars_of(body);
    let e = find_ws(cs.as_slice(), 0);
    assert(cs@.skip(0) =~= cs@);
    let name = string_from_chars(slice_prefix(&cs, e));
    let rest = slice_from(&cs, e);
    let k = first_non_ws(rest.as_slice());
    let args = string_from_chars(slice_from(&rest, k).as_slice());
    assert(rest@ =~= body@.skip(e as int));
    (name, args)
}

/// The first `n` characters of `cs`.
fn slice_prefix(cs: &Vec<char>, n: usize) -> (r: &[char])
    requires
        n <= cs@.len(),
    ensures
        r@ == cs@.take(n as int),
{
    let r = vstd::slice::slice_subrange(cs.as_slice(), 0, n);
    assert(r@ =~= cs@.take(n as int));
    r
}

/// The characters of `cs` from index `n` on.
fn slice_from(cs: &Vec<char>, n: usize) -> (r: Vec<char>)
    requires
        n <= cs@.len(),
    ensures
        r@ == cs@.skip(n as int),
{
    let mut out: Vec<char> = Vec::new();
    let mut i = n;
    while i < cs.len()
        invariant
            n <= i <= cs@.len(),
            out@ == cs@.subrange(n as int, i as int),
        decreases cs@.len() - i,
    {
        out.push(cs[i]);
        i = i + 1;
        assert(out@ =~= cs@.subrange(n as int, i as int));
    }
    assert(out@ =~= cs@.skip(n as int));
    out
}

/// Classify `input` as either a plain prompt (`None`) or a slash
/// command. Leading whitespace is tolerated; unknown commands are not
/// slash commands.
pub fn parse_slash(input: &str) -> (r: Option<SlashOutcome>)
    ensures
        match parse_slash_spec(input@) {
            None => r is None,
            Some((c, args)) => r matches Some(o) && outcome_is(o, c, args),
        },
{
    let cs = chars_of(input);
    let k = first_non_ws(cs.as_slice());
    if k >= cs.len() || cs[k] != '/' {
        return None;
    }
    let b = k + 1;
    let e = find_ws(cs.as_slice(), b);
    let cmd = command_of(cs.as_slice(), b, e);
    let rest = slice_from(&cs, e);
    let j = first_non_ws(rest.as_slice());
    let args = string_from_chars(slice_from(&rest, j).as_slice());
    proof {
        let t = trim_start_spec(input@);
        assert(t =~= cs@.skip(k as int));
        assert(t.skip(1) =~= cs@.skip(b as int));
        let body = t.skip(1);
        let i = ws_index(body);
        assert(body.take(i) =~= cs@.subrange(b as int, e as int));
        assert(body.skip(i) =~= rest@);
    }
    match cmd {
        None => None,
        Some(c) => Some(c.outcome(args.as_str())),
    }
}

/// Removing leading whitespace first does not change the classification
/// of an input: `"   /quit"` and `"/quit"` parse alike.
pub proof fn law_leading_whitespace_ignored(ws: Seq<char>, s: Seq<char>)
    requires
        all_ws(ws),
    ensures
        parse_slash_spec(ws + s) == parse_slash_spec(s),
    decreases ws.len(),
{
    lemma_trim_ws_prefix(ws, s);
}

/// Trimming a whitespace prefix off `ws + s` trims it off `s` alone.
proof fn lemma_trim_ws_prefix(ws: Seq<char>, s: Seq<char>)
    requires
        all_ws(ws),
    ensures
        trim_start_spec(ws + s) == trim_start_spec(s),
    decreases ws.len(),
{
    if ws.len() > 0 {
        let rest = ws.drop_first();
        assert(all_ws(rest)) by {
            assert forall|i: int| 0 <= i < rest.len() implies is_ws(#[trigger] rest[i]) by {
                assert(rest[i] == ws[i + 1]);
            }
        }
        assert(is_ws(ws[0]));
        assert((ws + s)[0] == ws[0]);
        assert((ws + s).drop_first() =~= rest + s);
        lemma_trim_ws_prefix(rest, s);
    } else {
        assert(ws + s =~= s);
    }
}

} // verus!

verus! {

/// What the TUI does with the editor's text when the user submits it.
#[derive(Debug, Clone, PartialEq, Eq)]
pub enum SubmitAction {
    /// Blank input: nothing happens.
    Ignore,
    /// Echo the text into the scrollback and send it to the agent.
    Send(String),
    /// Quit the TUI.
    Quit,
    /// `/resume` without arguments: open the session picker.
    OpenPicker,
    /// A local command with its arguments.
    Local { name: String, args: String },
}

/// Of the local command names, only `/resume`'s is `resume`.
proof fn lemma_only_resume_is_named_resume(c: SlashCommand)
    ensures
        local_name(c) == "resume"@ <==> c is Resume,
{
    reveal_strlit("resume");
    reveal_strlit("help");
    reveal_strlit("clear");
    reveal_strlit("doctor");
    reveal_strlit("model");
    reveal_strlit("plan");
    reveal_strlit("cost");
    reveal_strlit("status");
    reveal_strlit("add-dir");
    if !(c is Resume) {
        assert(local_name(c).len() != 6 || local_name(c)[0] != 'r');
    }
}

/// Classify submitted text: blank text is ignored; a slash command
/// quits, opens the session picker (`/resume` alone) or runs locally;
/// anything else is sent to the agent as it is.
pub fn submit_action(input: &str) -> (a: SubmitAction)
    ensures
        all_ws(input@) ==> a is Ignore,
        !all_ws(input@) ==> match parse_slash_spec(input@) {
            None => a matches SubmitAction::Send(t) && t@ == input@,
            Some((c, args)) => if c is Quit || c is Exit {
                a is Quit
            } else if c is Resume && args.len() == 0 {
                a is OpenPicker
            } else {
                a matches SubmitAction::Local { name, args: x } && name@ == local_name(c) && x@ == args
            },
        },
{
    if is_blank(input) {
        return SubmitAction::Ignore;
    }
    match parse_slash(input) {
        None => SubmitAction::Send(input.to_owned()),
        Some(SlashOutcome::Quit) => SubmitAction::Quit,
        Some(SlashOutcome::Submit(text)) => SubmitAction::Send(text),
        Some(SlashOutcome::Local { name, args }) => {
            proof {
                let (c, x) = parse_slash_spec(input@)->0;
                lemma_only_resume_is_named_resume(c);
            }
            let is_resume = str_eq(name.as_str(), "resume");
            let no_args = args.as_str().unicode_len() == 0;
            if is_resume && no_args {
                SubmitAction::OpenPicker
            } else {
                SubmitAction::Local { name, args }
            }
        },
    }
}

} // verus!

verus! {

/// Every name the parser recognises for a local command is that
/// command's own name, except the aliases `?` (help), `cls` (clear) and
/// `adddir` (add-dir).
pub proof fn law_command_names_are_their_own(name: Seq<char>)
    ensures
        match command_spec(name) {
            Some(c) => (c is Quit || c is Exit) || local_name(c) == name || (name == "?"@ && c is Help) || (
            name == "cls"@ && c is Clear) || (name == "adddir"@ && c is AddDir),
            None => true,
        },
{
}

/// Each local command's name parses back to that command.
pub proof fn law_command_name_round_trip(c: SlashCommand)
    requires
        !(c is Quit || c is Exit),
    ensures
        command_spec(local_name(c)) == Some(c),
{
    reveal_strlit("help");
    reveal_strlit("?");
    reveal_strlit("clear");
    reveal_strlit("cls");
    reveal_strlit("quit");
    reveal_strlit("exit");
    reveal_strlit("q");
    reveal_strlit("doctor");
    reveal_strlit("model");
    reveal_strlit("resume");
    reveal_strlit("plan");
    reveal_strlit("cost");
    reveal_strlit("status");
    reveal_strlit("add-dir");
    reveal_strlit("adddir");
    match c {
        SlashCommand::Help => {

        },
        SlashCommand::Clear => {
            assert("clear"@.len() != "help"@.len());
            assert("clear"@.len() != "?"@.len());
        },
        SlashCommand::Doctor => {
            assert("doctor"@.len() != "help"@.len());
            assert("doctor"@.len() != "?"@.len());
            assert("doctor"@.len() != "clear"@.len());
            assert("doctor"@.len() != "cls"@.len());
            assert("doctor"@.len() != "quit"@.len());
            assert("doctor"@.len() != "exit"@.len());
            assert("doctor"@.len() != "q"@.len());
        },
        SlashCommand::Model => {
            assert("model"@.len() != "help"@.len());
            assert("model"@.len() != "?"@.len());
            assert("model"@[0] != "clear"@[0]);
            assert("model"@.len() != "cls"@.len());
            assert("model"@.len() != "quit"@.len());
            assert("model"@.len() != "exit"@.len());
            assert("model"@.len() != "q"@.len());
            assert("model"@.len() != "doctor"@.len());
        },
        SlashCommand::Resume => {
            assert("resume"@.len() != "help"@.len());
            assert("resume"@.len() != "?"@.len());
            assert("resume"@.len() != "clear"@.len());
            assert("resume"@.len() != "cls"@.len());
            assert("resume"@.len() != "quit"@.len());
            assert("resume"@.len() != "exit"@.len());
            assert("resume"@.len() != "q"@.len());
            assert("resume"@[0] != "doctor"@[0]);
            assert("resume"@.len() != "model"@.len());
        },
        SlashCommand::Plan => {
            assert("plan"@[0] != "help"@[0]);
            assert("plan"@.len() != "?"@.len());
            assert("plan"@.len() != "clear"@.len());
            assert("plan"@.len() != "cls"@.len());
            assert("plan"@[0] != "quit"@[0]);
            assert("plan"@[0] != "exit"@[0]);
            assert("plan"@.len() != "q"@.len());
            assert("plan"@.len() != "doctor"@.len());
            assert("plan"@.len() != "model"@.len());
            assert("plan"@.len() != "resume"@.len());
        },
        SlashCommand::Cost => {
            assert("cost"@[0] != "help"@[0]);
            assert("cost"@.len() != "?"@.len());
            assert("cost"@.len() != "clear"@.len());
            assert("cost"@.len() != "cls"@.len());
            assert("cost"@[0] != "quit"@[0]);
            assert("cost"@[0] != "exit"@[0]);
            assert("cost"@.len() != "q"@.len());
            assert("cost"@.len() != "doctor"@.len());
            assert("cost"@.len() != "model"@.len());
            assert("cost"@.len() != "resume"@.len());
            assert("cost"@[0] != "plan"@[0]);
        },
        SlashCommand::Status => {
            assert("status"@.len() != "help"@.len());
            assert("status"@.len() != "?"@.len());
            assert("status"@.len() != "clear"@.len());
            assert("status"@.len() != "cls"@.len());
            assert("status"@.len() != "quit"@.len());
            assert("status"@.len() != "exit"@.len());
            assert("status"@.len() != "q"@.len());
            assert("status"@[0] != "doctor"@[0]);
            assert("status"@.len() != "model"@.len());
            assert("status"@[0] != "resume"@[0]);
            assert("status"@.len() != "plan"@.len());
            assert("status"@.len() != "cost"@.len());
        },
        SlashCommand::AddDir => {
            assert("add-dir"@.len() != "help"@.len());
            assert("add-dir"@.len() != "?"@.len());
            assert("add-dir"@.len() != "clear"@.len());
            assert("add-dir"@.len() != "cls"@.len());
            assert("add-dir"@.len() != "quit"@.len());
            assert("add-dir"@.len() != "exit"@.len());
            assert("add-dir"@.len() != "q"@.len());
            assert("add-dir"@.len() != "doctor"@.len());
            assert("add-dir"@.len() != "model"@.len());
            assert("add-dir"@.len() != "resume"@.len());
            assert("add-dir"@.len() != "plan"@.len());
            assert("add-dir"@.len() != "cost"@.len());
            assert("add-dir"@.len() != "status"@.len());
        },
        _ => {},
    }
}

} // verus!
