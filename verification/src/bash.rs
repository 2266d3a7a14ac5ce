//! The `bash` tool's rules: its arguments, the bounded capture of each
//! output stream, and how the captured streams and the exit status
//! become the tool's outcome.
//!
//! Spawning the shell, racing it against the timeout and killing its
//! process group are I/O and live in the application.

use vstd::prelude::*;
use vstd::string::StringSliceAdditionalSpecFns;

use crate::read::{dec_digits, push_decimal};
use crate::text::push_char;
use crate::tool::{ToolContext, ToolOutcome};

verus! {

/// Arguments for the `bash` tool.
#[derive(Debug, Clone, PartialEq, Eq)]
pub struct BashArgs {
    /// Shell command to execute (passed to `/bin/sh -c`).
    pub command: String,
    /// Optional override for the per-command timeout in milliseconds.
    pub timeout_ms: Option<u64>,
}

/// The bash tool.
#[derive(Debug, Default, Clone, Copy)]
pub struct BashTool;

impl BashTool {
    /// The tool's name.
    pub const NAME: &'static str = "bash";

    /// The description the model is shown.
    pub const DESCRIPTION: &'static str = "Execute a shell command (`/bin/sh -c <command>`) inside the project root. Output is captured up to the configured byte cap and streamed live. Optional `timeout_ms` overrides the per-command default. Timeouts kill the entire process group.";

    /// The tool's name (`bash`).
    pub fn name(&self) -> (n: &'static str)
        ensures
            n@ == Self::NAME@,
    {
        Self::NAME
    }

    /// The tool's description for the model.
    pub fn description(&self) -> (d: &'static str)
        ensures
            d@ == Self::DESCRIPTION@,
    {
        Self::DESCRIPTION
    }
}

/// The command's timeout: the call's own, or the context's default.
pub fn effective_timeout_ms(args: &BashArgs, ctx: &ToolContext) -> (ms: u64)
    ensures
        ms == match args.timeout_ms {
            Some(t) => t,
            None => ctx.command_timeout_ms,
        },
{
    match args.timeout_ms {
        Some(t) => t,
        None => ctx.command_timeout_ms,
    }
}

/// The marker that ends a capture cut at its byte cap.
pub open spec fn capture_marker() -> Seq<char> {
    "…[truncated]\n"@
}

/// Output captured from one stream, bounded by a byte cap: the kept
/// text, whether something was cut, and the bytes kept so far.
#[derive(Debug, Clone)]
pub struct Captured {
    pub body: String,
    pub truncated: bool,
    pub total: usize,
    pub cap: usize,
}

impl Captured {
    /// The bytes of kept lines so far (each with its newline).
    pub open spec fn kept(&self) -> nat {
        self.total as nat
    }

    /// The byte cap.
    pub open spec fn byte_cap(&self) -> nat {
        self.cap as nat
    }

    /// The kept bytes never pass the cap.
    pub open spec fn wf(&self) -> bool {
        self.total <= self.cap
    }

    /// An empty capture bounded by `cap` bytes.
    pub fn new(cap: usize) -> (c: Self)
        ensures
            c.wf(),
            c.body@ == Seq::<char>::empty(),
            !c.truncated,
            c.kept() == 0,
            c.byte_cap() == cap,
    {
        Captured { body: String::new(), truncated: false, total: 0, cap }
    }

    /// Record one line read from the stream (without its newline).
    ///
    /// The line is kept, with a newline, while the kept bytes stay within
    /// the cap. The first line that would pass it appends the truncation
    /// marker instead, and nothing is kept after that.
    pub fn push_line(&mut self, line: &str)
        requires
            old(self).wf(),
            line.spec_bytes().len() < usize::MAX,
        ensures
            final(self).wf(),
            final(self).byte_cap() == old(self).byte_cap(),
            ({
                let n = line.spec_bytes().len() + 1;
                let over = old(self).kept() + n > old(self).byte_cap();
                if old(self).truncated {
                    *final(self) == *old(self)
                } else if over {
                    &&& final(self).truncated
                    &&& final(self).body@ == old(self).body@ + capture_marker()
                    &&& final(self).kept() == old(self).kept()
                } else {
                    &&& !final(self).truncated
                    &&& final(self).body@ == old(self).body@ + line@ + seq!['\n']
                    &&& final(self).kept() == old(self).kept() + n
                }
            }),
    {
        if self.truncated {
            return ;
        }
        let n = line.len() + 1;
        if n > self.cap - self.total {
            self.body.append("…[truncated]\n");
            self.truncated = true;
        } else {
            self.body.append(line);
            push_char(&mut self.body, '\n');
            self.total = self.total + n;
        }
    }
}

/// How the command ended.
#[derive(Debug, Clone, Copy, PartialEq, Eq, Structural)]
pub enum CommandEnd {
    /// Killed after running for `timeout_ms` milliseconds.
    TimedOut { timeout_ms: u64 },
    /// Exited by itself; `code` is absent when a signal ended it.
    Exited { success: bool, code: Option<i32> },
}

/// The decimal text of a signed number.
pub open spec fn signed_text(n: int) -> Seq<char> {
    if n < 0 {
        seq!['-'] + dec_digits((-n) as nat)
    } else {
        dec_digits(n as nat)
    }
}

/// The stdout body followed by a newline when it does not end with one
/// (nothing when it is empty), then the stderr body.
pub open spec fn joined_output(stdout: Seq<char>, stderr: Seq<char>) -> Seq<char> {
    if stdout.len() == 0 {
        stderr
    } else if stdout.last() == '\n' {
        stdout + stderr
    } else {
        stdout + seq!['\n'] + stderr
    }
}

/// The note appended for how the command ended: the timeout in whole
/// seconds, the exit code of a failure (-1 when there is none), or
/// nothing for a success.
pub open spec fn end_note(end: CommandEnd) -> Seq<char> {
    match end {
        CommandEnd::TimedOut { timeout_ms } => "\n[command killed after "@ + dec_digits(
            (timeout_ms / 1000) as nat,
        ) + "s timeout]"@,
        CommandEnd::Exited { success, code } => if success {
            Seq::empty()
        } else {
            "\n[exit code "@ + signed_text(
                match code {
                    Some(c) => c as int,
                    None => -1,
                },
            ) + "]"@
        },
    }
}

/// Appends the decimal text of a signed number.
fn push_signed(out: &mut String, n: i32)
    ensures
        final(out)@ == old(out)@ + signed_text(n as int),
{
    if n < 0 {
        push_char(out, '-');
        let magnitude: u64 = (-(n as i64)) as u64;
        push_decimal(out, magnitude);
    } else {
        push_decimal(out, n as u64);
    }
}

/// The bash tool's outcome from its captured streams and how the command
/// ended: always a success whose output is the joined streams followed
/// by the ending's note, truncated when either stream was cut.
pub fn command_outcome(stdout: &Captured, stderr: &Captured, end: CommandEnd) -> (o: ToolOutcome)
    ensures
        o matches ToolOutcome::Success { output, truncated } && output@ == joined_output(
            stdout.body@,
            stderr.body@,
        ) + end_note(end) && truncated == (stdout.truncated || stderr.truncated),
{
    let mut output = String::new();
    let out_chars = crate::text::chars_of(stdout.body.as_str());
    if out_chars.len() > 0 {
        output.append(stdout.body.as_str());
        if out_chars[out_chars.len() - 1] != '\n' {
            push_char(&mut output, '\n');
        }
    }
    output.append(stderr.body.as_str());
    match end {
        CommandEnd::TimedOut { timeout_ms } => {
            output.append("\n[command killed after ");
            push_decimal(&mut output, timeout_ms / 1000);
            output.append("s timeout]");
        },
        CommandEnd::Exited { success, code } => {
            if !success {
                output.append("\n[exit code ");
                let c: i32 = match code {
                    Some(c) => c,
                    None => -1,
                };
                push_signed(&mut output, c);
                output.append("]");
            }
        },
    }
    ToolOutcome::Success { output, truncated: stdout.truncated || stderr.truncated }
}

} // verus!
