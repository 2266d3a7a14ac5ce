//! The `read` tool's text handling: line slicing, line numbering and the
//! output byte cap.
//!
//! The tool itself (path confinement, metadata, reading bytes from disk)
//! lives in the application; once the bytes are in hand, everything the
//! tool returns is computed here.

use vstd::prelude::*;

use crate::tool::{ToolError, ToolOutcome, ToolResult};
use crate::text::{
    char_utf8_width, chars_of, content_lines, join_nl, lemma_join_split, lemma_split_join,
    lemma_split_nl_last, lemma_split_nl_shape, lemma_utf8_len_push, lines_view, newline_free,
    push_char, push_chars, split_lines, split_nl, utf8_len, utf8_width,
};

verus! {

/// Arguments for the `read` tool.
#[derive(Debug, Clone, PartialEq, Eq)]
pub struct ReadArgs {
    /// Path to the file to read, relative to the project root or
    /// absolute under it.
    pub path: String,
    /// 0-based line index to start at (default 0).
    pub offset: Option<u64>,
    /// Maximum number of lines to return, starting at `offset`.
    pub limit: Option<u64>,
}

/// The read tool. Stateless.
#[derive(Debug, Default, Clone, Copy)]
pub struct ReadTool;

impl ReadTool {
    /// The tool's stable name.
    pub const NAME: &'static str = "read";

    /// The description the model is shown.
    pub const DESCRIPTION: &'static str = "Read the contents of a file. `path` is relative to the project root or absolute-under-root. `offset` is the 0-based line to start at (default 0). `limit` is the max number of lines to return (default: until EOF). Directories, binary files, and paths outside the root are rejected.";

    /// The tool's name, `"read"`.
    pub fn name(&self) -> (n: &'static str)
        ensures
            n@ == Self::NAME@,
    {
        Self::NAME
    }

    /// Human-readable description shown to the model.
    pub fn description(&self) -> (d: &'static str)
        ensures
            d@ == Self::DESCRIPTION@,
    {
        Self::DESCRIPTION
    }
}

/// The decimal digit character for `d` (0 ≤ d ≤ 9).
pub open spec fn digit_char(d: int) -> char {
    if d == 0 {
        '0'
    } else if d == 1 {
        '1'
    } else if d == 2 {
        '2'
    } else if d == 3 {
        '3'
    } else if d == 4 {
        '4'
    } else if d == 5 {
        '5'
    } else if d == 6 {
        '6'
    } else if d == 7 {
        '7'
    } else if d == 8 {
        '8'
    } else {
        '9'
    }
}

/// The decimal text of `n`, without leading zeros.
pub open spec fn dec_digits(n: nat) -> Seq<char>
    decreases n,
{
    if n < 10 {
        seq![digit_char(n as int)]
    } else {
        dec_digits(n / 10).push(digit_char((n % 10) as int))
    }
}

/// `s` right-justified in a field of `width` characters, padded with
/// spaces (what `format!("{s:>width$}")` gives).
pub open spec fn pad_left(s: Seq<char>, width: nat) -> Seq<char> {
    if s.len() >= width {
        s
    } else {
        Seq::new((width - s.len()) as nat, |i: int| ' ') + s
    }
}

/// The exec side of [`digit_char`].
fn digit(d: u64) -> (c: char)
    requires
        d < 10,
    ensures
        c == digit_char(d as int),
{
    if d == 0 {
        '0'
    } else if d == 1 {
        '1'
    } else if d == 2 {
        '2'
    } else if d == 3 {
        '3'
    } else if d == 4 {
        '4'
    } else if d == 5 {
        '5'
    } else if d == 6 {
        '6'
    } else if d == 7 {
        '7'
    } else if d == 8 {
        '8'
    } else {
        '9'
    }
}

/// Appends the decimal text of `n` to `out`.
pub fn push_decimal(out: &mut String, n: u64)
    ensures
        final(out)@ == old(out)@ + dec_digits(n as nat),
    decreases n,
{
    if n >= 10 {
        push_decimal(out, n / 10);
    }
    push_char(out, digit(n % 10));
    proof {
        if n >= 10 {
            assert(old(out)@ + dec_digits((n / 10) as nat) + seq![digit_char((n % 10) as int)]
                =~= old(out)@ + dec_digits(n as nat));
        } else {
            assert(old(out)@.push(digit_char((n % 10) as int)) =~= old(out)@ + dec_digits(n as nat));
        }
    }
}

/// The number of decimal digits of `n`.
pub fn decimal_len(n: u64) -> (len: usize)
    ensures
        len == dec_digits(n as nat).len(),
        1 <= len <= 20,
    decreases n,
{
    proof {
        assert(pow10(20) == 100_000_000_000_000_000_000nat) by {
            reveal_with_fuel(pow10, 21);
        }
        lemma_dec_len_bound_gen(n as nat, 20);
    }
    if n >= 10 {
        let l = decimal_len(n / 10);
        l + 1
    } else {
        1
    }
}

/// `n < 10^k` (with `bound == 10^k`) has at most `k` digits.
proof fn lemma_dec_len_bound_gen(n: nat, k: nat)
    requires
        k >= 1,
        n < pow10(k),
    ensures
        dec_digits(n).len() <= k,
    decreases n,
{
    if n >= 10 {
        assert(k >= 2) by {
            if k == 1 {
                assert(pow10(1) == 10) by {
                    reveal_with_fuel(pow10, 2);
                }
            }
        }
        assert(n / 10 < pow10((k - 1) as nat)) by {
            assert(pow10(k) == 10 * pow10((k - 1) as nat));
        }
        lemma_dec_len_bound_gen(n / 10, (k - 1) as nat);
    }
}

/// 10 to the power `k`.
pub open spec fn pow10(k: nat) -> nat
    decreases k,
{
    if k == 0 {
        1
    } else {
        10 * pow10((k - 1) as nat)
    }
}

/// Appends `n` right-justified in `width` columns.
fn push_padded(out: &mut String, n: u64, width: usize)
    ensures
        final(out)@ == old(out)@ + pad_left(dec_digits(n as nat), width as nat),
{
    let len = decimal_len(n);
    let mut k: usize = len;
    let ghost start = out@;
    while k < width
        invariant
            len <= k,
            k == len || k <= width,
            len == dec_digits(n as nat).len(),
            out@ == start + Seq::new((k - len) as nat, |i: int| ' '),
        decreases width - k,
    {
        push_char(out, ' ');
        k = k + 1;
        assert(out@ =~= start + Seq::new((k - len) as nat, |i: int| ' '));
    }
    push_decimal(out, n);
    proof {
        if len >= width {
            assert(k == len);
            assert(Seq::new(0nat, |i: int| ' ') =~= Seq::<char>::empty());
            assert(out@ =~= start + pad_left(dec_digits(n as nat), width as nat));
        } else {
            assert(k == width);
            assert(out@ =~= start + pad_left(dec_digits(n as nat), width as nat));
        }
    }
}

/// The label width: the digits of the largest line number, at least 6.
pub open spec fn label_width(last_number: nat) -> nat {
    if dec_digits(last_number).len() > 6 {
        dec_digits(last_number).len()
    } else {
        6
    }
}

/// `ls` numbered from `offset + 1`: each line becomes its number
/// right-justified in `width` columns, a tab, the line and a newline.
pub open spec fn numbered_lines(ls: Seq<Seq<char>>, offset: nat, width: nat) -> Seq<char>
    decreases ls.len(),
{
    if ls.len() == 0 {
        Seq::<char>::empty()
    } else {
        numbered_lines(ls.drop_last(), offset, width) + pad_left(
            dec_digits(offset + ls.len()),
            width,
        ) + seq!['\t'] + ls.last() + seq!['\n']
    }
}

/// What [`format_lines`] returns: every line of `text` numbered from
/// `offset + 1`, and one more newline when `text` ends with one.
pub open spec fn format_lines_spec(text: Seq<char>, offset: nat) -> Seq<char> {
    if text.len() == 0 || content_lines(text).len() == 0 {
        Seq::<char>::empty()
    } else {
        let ls = content_lines(text);
        numbered_lines(ls, offset, label_width(offset + ls.len())) + if text.last() == '\n' {
            seq!['\n']
        } else {
            Seq::<char>::empty()
        }
    }
}

/// Format `text` with line numbers starting at `start_offset + 1`.
///
/// Each line is prefixed with its number right-justified to a width of
/// at least 6, then a tab. A trailing newline in `text` yields one extra
/// newline at the end.
pub fn format_lines(text: &str, start_offset: u64) -> (out: String)
    requires
        start_offset + content_lines(text@).len() <= u64::MAX,
    ensures
        out@ == format_lines_spec(text@, start_offset as nat),
{
    let cs = chars_of(text);
    if cs.len() == 0 {
        return String::new();
    }
    let mut lines = split_lines(cs.as_slice());
    proof {
        lemma_split_nl_shape(text@);
        lemma_split_nl_last(text@);
    }
    let trailing_newline = lines[lines.len() - 1].len() == 0;
    if trailing_newline {
        lines.pop();
    }
    assert(lines_view(lines@) =~= content_lines(text@));
    if lines.len() == 0 {
        return String::new();
    }
    let count = lines.len() as u64;
    let max_n = start_offset + count;
    let dl = decimal_len(max_n);
    let width: usize = if dl > 6 {
        dl
    } else {
        6
    };
    let ghost ls = content_lines(text@);
    let mut out = String::new();
    let mut i: usize = 0;
    while i < lines.len()
        invariant
            ls == lines_view(lines@),
            i <= lines@.len(),
            start_offset + lines@.len() <= u64::MAX,
            out@ == numbered_lines(ls.take(i as int), start_offset as nat, width as nat),
        decreases lines@.len() - i,
    {
        let n = start_offset + (i as u64) + 1;
        let ghost before = out@;
        push_padded(&mut out, n, width);
        push_char(&mut out, '\t');
        let line = &lines[i];
        push_chars(&mut out, line.as_slice(), 0, line.len());
        push_char(&mut out, '\n');
        proof {
            let t = ls.take(i + 1);
            assert(t.drop_last() =~= ls.take(i as int));
            assert(t.last() == lines@[i as int]@);
            assert(lines@[i as int]@.subrange(0, lines@[i as int]@.len() as int) =~= lines@[i as int]@);
            assert(out@ =~= numbered_lines(t, start_offset as nat, width as nat));
        }
        i = i + 1;
    }
    assert(ls.take(lines@.len() as int) =~= ls);
    if trailing_newline {
        push_char(&mut out, '\n');
        assert(out@ =~= format_lines_spec(text@, start_offset as nat));
    } else {
        assert(out@ =~= format_lines_spec(text@, start_offset as nat));
    }
    out
}

/// What [`apply_offset_limit`] returns: lines `start..end` of `text`
/// joined with newlines (`start` is `offset` or 0, `end` is `start +
/// limit` capped at the line count, or the line count without a limit),
/// plus a trailing newline when `text` had one and no limit was given;
/// empty past the end. The second component is `start`.
pub open spec fn offset_limit_spec(text: Seq<char>, offset: Option<u64>, limit: Option<u64>) -> (
    Seq<char>,
    u64,
) {
    let ls = content_lines(text);
    let start: u64 = match offset {
        Some(o) => o,
        None => 0u64,
    };
    if start >= ls.len() {
        (Seq::<char>::empty(), start)
    } else {
        let end: int = match limit {
            Some(n) => if start + n < ls.len() {
                start + n
            } else {
                ls.len() as int
            },
            None => ls.len() as int,
        };
        let body = join_nl(ls.subrange(start as int, end));
        let out = if text.len() > 0 && text.last() == '\n' && limit is None {
            body.push('\n')
        } else {
            body
        };
        (out, start)
    }
}

/// Slice `text` by line offset / limit. `offset` is 0-based; `limit:
/// None` means the rest of the file. Returns the slice and the 0-based
/// number of its first line.
pub fn apply_offset_limit(text: &str, offset: Option<u64>, limit: Option<u64>) -> (r: (String, u64))
    ensures
        (r.0@, r.1) == offset_limit_spec(text@, offset, limit),
        content_lines(text@).len() <= usize::MAX,
{
    let cs = chars_of(text);
    let mut lines = split_lines(cs.as_slice());
    proof {
        lemma_split_nl_shape(text@);
    }
    if lines[lines.len() - 1].len() == 0 {
        lines.pop();
    }
    assert(lines_view(lines@) =~= content_lines(text@));
    let ghost ls = content_lines(text@);
    let total = lines.len();
    let start: u64 = match offset {
        Some(o) => o,
        None => 0,
    };
    if start >= total as u64 {
        return (String::new(), start);
    }
    let s = start as usize;
    let end: usize = match limit {
        Some(n) => if n < (total - s) as u64 {
            s + n as usize
        } else {
            total
        },
        None => total,
    };
    let mut out = String::new();
    let mut j: usize = s;
    while j < end
        invariant
            ls == lines_view(lines@),
            s <= end <= lines@.len(),
            s <= j <= end,
            j > s ==> out@ == join_nl(ls.subrange(s as int, j as int)),
            j == s ==> out@.len() == 0,
        decreases end - j,
    {
        if j > s {
            push_char(&mut out, '\n');
        }
        let line = &lines[j];
        let ghost before = out@;
        push_chars(&mut out, line.as_slice(), 0, line.len());
        proof {
            let sub = ls.subrange(s as int, j + 1);
            assert(line@.subrange(0, line@.len() as int) =~= line@);
            assert(sub.last() == ls[j as int]);
            if j > s {
                assert(sub.drop_last() =~= ls.subrange(s as int, j as int));
            } else {
                assert(sub.len() == 1);
            }
            assert(out@ =~= join_nl(sub));
        }
        j = j + 1;
    }
    if end == s {
        assert(ls.subrange(s as int, end as int) =~= Seq::<Seq<char>>::empty());
        assert(out@ =~= Seq::<char>::empty());
    }
    let ends_nl = cs.len() > 0 && cs[cs.len() - 1] == '\n';
    if ends_nl && limit.is_none() {
        push_char(&mut out, '\n');
    }
    (out, start)
}

/// Bytes of `s` that fit in `budget`: the length of the longest prefix
/// whose UTF-8 encoding is at most `budget` bytes.
pub open spec fn fit_len(s: Seq<char>, budget: int) -> nat
    decreases s.len(),
{
    if s.len() == 0 || utf8_width(s[0]) > budget {
        0
    } else {
        1 + fit_len(s.drop_first(), budget - utf8_width(s[0]))
    }
}

/// The marker appended to a truncated output: `"\n…[truncated]"`.
pub open spec fn truncation_marker() -> Seq<char> {
    seq!['\n', '…', '[', 't', 'r', 'u', 'n', 'c', 'a', 't', 'e', 'd', ']']
}

/// Whether a prefix is at most `budget` bytes long.
proof fn lemma_fit_len_step(s: Seq<char>, k: int, budget: int)
    requires
        0 <= k < s.len(),
        utf8_width(s[k]) <= budget,
    ensures
        fit_len(s.skip(k), budget) == 1 + fit_len(s.skip(k + 1), budget - utf8_width(s[k])),
{
    assert(s.skip(k).drop_first() =~= s.skip(k + 1));
}

/// Truncate `s` so it fits within `limit` bytes without splitting a
/// character, appending the truncation marker. Returns the (possibly
/// shortened) string and whether truncation happened.
pub fn truncate_to_bytes(s: &str, limit: usize) -> (r: (String, bool))
    ensures
        utf8_len(s@) <= limit ==> r.0@ == s@ && !r.1,
        utf8_len(s@) > limit ==> r.1 && r.0@ == s@.take(fit_len(s@, limit as int) as int)
            + truncation_marker() && utf8_len(s@.take(fit_len(s@, limit as int) as int))
            <= limit,
{
    let cs = chars_of(s);
    let n = cs.len();
    let mut k: usize = 0;
    let mut acc: usize = 0;
    assert(s@.take(0) =~= Seq::<char>::empty());
    assert(s@.skip(0) =~= s@);
    while k < n && char_utf8_width(cs[k]) <= limit - acc
        invariant
            n == s@.len(),
            cs@ == s@,
            k <= n,
            acc <= limit,
            acc == utf8_len(s@.take(k as int)),
            fit_len(s@, limit as int) == k + fit_len(s@.skip(k as int), limit - acc),
        decreases n - k,
    {
        let w = char_utf8_width(cs[k]);
        proof {
            lemma_fit_len_step(s@, k as int, limit - acc);
            assert(s@.take(k + 1) =~= s@.take(k as int).push(s@[k as int]));
            lemma_utf8_len_push(s@.take(k as int), s@[k as int]);
        }
        acc = acc + w;
        k = k + 1;
    }
    assert(fit_len(s@.skip(k as int), limit - acc) == 0);
    if k == n {
        assert(s@.take(k as int) =~= s@);
        return (string_from_chars_prefix(&cs, n), false);
    }
    // Here the text does not fit: `k < n` and one more character overflows.
    proof {
        lemma_utf8_len_prefix_grows(s@, k as int);
    }
    let mut out = string_from_chars_prefix(&cs, k);
    out.append("\n…[truncated]");
    proof {
        reveal_strlit("\n…[truncated]");
        assert("\n…[truncated]"@ =~= truncation_marker());
    }
    (out, true)
}

/// The UTF-8 length of the whole is at least that of any prefix plus the
/// next character.
proof fn lemma_utf8_len_prefix_grows(s: Seq<char>, k: int)
    requires
        0 <= k < s.len(),
    ensures
        utf8_len(s) >= utf8_len(s.take(k)) + utf8_width(s[k]),
{
    crate::text::lemma_utf8_len_prefix(s, k + 1);
    assert(s.take(k + 1) =~= s.take(k).push(s[k]));
    lemma_utf8_len_push(s.take(k), s[k]);
}

/// A `String` holding the first `k` characters of `cs`.
fn string_from_chars_prefix(cs: &Vec<char>, k: usize) -> (out: String)
    requires
        k <= cs@.len(),
    ensures
        out@ == cs@.take(k as int),
{
    let mut out = String::new();
    push_chars(&mut out, cs.as_slice(), 0, k);
    assert(cs@.subrange(0, k as int) =~= cs@.take(k as int));
    out
}

/// How many leading bytes [`looks_binary`] inspects.
pub const BINARY_SNIFF_BYTES: usize = 8192;

/// Whether `bytes` look binary: a NUL byte among the first
/// [`BINARY_SNIFF_BYTES`] bytes.
pub open spec fn looks_binary_spec(bytes: Seq<u8>) -> bool {
    exists|i: int| 0 <= i < bytes.len() && i < BINARY_SNIFF_BYTES && bytes[i] == 0
}

/// Whether a file's bytes look binary (a NUL byte near the start).
pub fn looks_binary(bytes: &[u8]) -> (b: bool)
    ensures
        b == looks_binary_spec(bytes@),
{
    let mut i: usize = 0;
    while i < bytes.len() && i < BINARY_SNIFF_BYTES
        invariant
            i <= bytes@.len(),
            i <= BINARY_SNIFF_BYTES,
            forall|j: int| 0 <= j < i ==> bytes@[j] != 0,
        decreases bytes@.len() - i,
    {
        if bytes[i] == 0 {
            return true;
        }
        i = i + 1;
    }
    false
}

/// What the read tool returns for a file's text: the requested lines,
/// numbered, capped at `max_output_bytes` (with the truncation flag).
pub open spec fn read_output_spec(
    text: Seq<char>,
    offset: Option<u64>,
    limit: Option<u64>,
    max_output_bytes: usize,
) -> (Seq<char>, bool) {
    let sliced = offset_limit_spec(text, offset, limit);
    let formatted = format_lines_spec(sliced.0, sliced.1 as nat);
    if utf8_len(formatted) <= max_output_bytes {
        (formatted, false)
    } else {
        (formatted.take(fit_len(formatted, max_output_bytes as int) as int) + truncation_marker(), true)
    }
}

/// A slice never has more lines than the range it was cut from.
proof fn lemma_slice_line_count(text: Seq<char>, offset: Option<u64>, limit: Option<u64>)
    requires
        content_lines(text).len() <= usize::MAX,
    ensures
        offset_limit_spec(text, offset, limit).1 + content_lines(offset_limit_spec(text, offset, limit).0).len()
            <= u64::MAX,
{
    let ls = content_lines(text);
    let r = offset_limit_spec(text, offset, limit);
    lemma_split_nl_shape(text);
    let p = split_nl(text);
    assert(ls.len() <= p.len());
    if r.1 >= ls.len() {
        assert(r.0 =~= Seq::<char>::empty());
        assert(content_lines(r.0).len() == 0);
    } else {
        let start = r.1 as int;
        let end: int = match limit {
            Some(n) => if r.1 + n < ls.len() {
                r.1 + n
            } else {
                ls.len() as int
            },
            None => ls.len() as int,
        };
        let sub = ls.subrange(start, end);
        assert(newline_free(ls)) by {
            assert forall|i: int, j: int| 0 <= i < ls.len() && 0 <= j < ls[i].len() implies ls[i][j]
                != '\n' by {
                assert(ls[i] == p[i]);
            }
        }
        if sub.len() == 0 {
            assert(join_nl(sub) =~= Seq::<char>::empty());
            lemma_split_nl_shape(r.0);
            assert(content_lines(r.0).len() <= 1);
        } else {
            assert(newline_free(sub)) by {
                assert forall|i: int, j: int| 0 <= i < sub.len() && 0 <= j < sub[i].len() implies sub[i][j]
                    != '\n' by {
                    assert(sub[i] == ls[start + i]);
                }
            }
            lemma_split_join(sub);
            if r.0 == join_nl(sub) {
                assert(content_lines(r.0).len() <= sub.len());
            } else {
                assert(r.0 == join_nl(sub).push('\n'));
                crate::text::lemma_split_append_line(join_nl(sub), Seq::<char>::empty());
                assert(join_nl(sub) + seq!['\n'] + Seq::<char>::empty() =~= join_nl(sub).push('\n'));
                assert(content_lines(r.0) =~= sub);
            }
        }
    }
}

/// The lines of `text` selected by `offset`/`limit`, numbered and capped
/// at `max_output_bytes`. Returns the output and whether it was
/// truncated.
pub fn render_read_output(
    text: &str,
    offset: Option<u64>,
    limit: Option<u64>,
    max_output_bytes: usize,
) -> (r: (String, bool))
    ensures
        (r.0@, r.1) == read_output_spec(text@, offset, limit, max_output_bytes),
{
    let (sliced, start) = apply_offset_limit(text, offset, limit);
    proof {
        lemma_slice_line_count(text@, offset, limit);
    }
    let formatted = format_lines(sliced.as_str(), start);
    truncate_to_bytes(formatted.as_str(), max_output_bytes)
}

/// The text `String::from_utf8_lossy` decodes `bytes` into.
pub uninterp spec fn spec_utf8_lossy(bytes: Seq<u8>) -> Seq<char>;

/// `String::from_utf8_lossy`: valid UTF-8 decodes unchanged; invalid
/// sequences become U+FFFD (which is not stated).
#[verifier::external_body]
pub(crate) fn utf8_lossy(bytes: &[u8]) -> (s: String)
    ensures
        s@ == spec_utf8_lossy(bytes@),
        vstd::utf8::valid_utf8(bytes@) ==> s@ == vstd::utf8::decode_utf8(bytes@),
{
    String::from_utf8_lossy(bytes).into_owned()
}

/// The read tool's result for a regular file at `path` (its display
/// text) holding `bytes`: a binary error when the bytes look binary,
/// otherwise the requested, numbered and capped lines of the lossily
/// decoded text.
pub fn read_file_outcome(path: String, bytes: &[u8], args: &ReadArgs, max_output_bytes: usize) -> (r:
    ToolResult)
    ensures
        looks_binary_spec(bytes@) ==> r == Err::<ToolOutcome, ToolError>(ToolError::Binary(path)),
        !looks_binary_spec(bytes@) ==> (r matches Ok(ToolOutcome::Success { output, truncated })
            && (output@, truncated) == read_output_spec(
            spec_utf8_lossy(bytes@),
            args.offset,
            args.limit,
            max_output_bytes,
        )),
{
    if looks_binary(bytes) {
        return Err(ToolError::Binary(path));
    }
    let text = utf8_lossy(bytes);
    let (output, truncated) = render_read_output(text.as_str(), args.offset, args.limit, max_output_bytes);
    Ok(ToolOutcome::Success { output, truncated })
}

} // verus!
