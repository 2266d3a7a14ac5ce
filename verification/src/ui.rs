//! The text the terminal UI shows, apart from drawing it: scrolling,
//! width-bounded truncation, shortened paths and ids, timestamps.
//!
//! Display widths come from `unicode-width`; the rest is computed here.

use vstd::prelude::*;

use crate::ids::{spec_ulid_text, ulid_text, SessionId, Timestamp};
use crate::read::{dec_digits, decimal_len, push_decimal};
use crate::json::{json_text, spec_json_text};
use crate::text::{
    char_utf8_width, chars_of, lines_view, push_char, push_chars, split_lines, split_nl, utf8_len, utf8_width,
};
use crate::tui::{entries_view, entry_view, ChatEntry, EntryView};

verus! {

/// The displayed width of a string, in terminal columns.
pub uninterp spec fn spec_str_width(s: Seq<char>) -> nat;

/// `UnicodeWidthStr::width`: the displayed width of `s` in columns (a
/// function of the text alone).
#[verifier::external_body]
pub(crate) fn str_width(s: &str) -> (w: usize)
    ensures
        w == spec_str_width(s@),
{
    unicode_width::UnicodeWidthStr::width(s)
}

/// The displayed width of a character, `None` for a control character.
pub uninterp spec fn spec_char_width(c: char) -> Option<nat>;

/// `UnicodeWidthChar::width`: the displayed width of `c` in columns, or
/// `None` for a control character (a function of the character alone).
#[verifier::external_body]
pub(crate) fn char_width(c: char) -> (w: Option<usize>)
    ensures
        match w {
            Some(n) => spec_char_width(c) == Some(n as nat),
            None => spec_char_width(c) is None,
        },
{
    unicode_width::UnicodeWidthChar::width(c)
}

/// The width a character takes when laid out: control characters count
/// as zero.
pub open spec fn cell_width(c: char) -> nat {
    match spec_char_width(c) {
        Some(n) => n,
        None => 0,
    }
}

/// The longest prefix of `s` whose cell widths, added to `used`, stay
/// within `limit`, followed by `…` when a character had to be cut.
pub open spec fn clip(s: Seq<char>, used: nat, limit: nat) -> Seq<char>
    decreases s.len(),
{
    if s.len() == 0 {
        Seq::empty()
    } else if used + cell_width(s[0]) > limit {
        seq!['…']
    } else {
        seq![s[0]] + clip(s.drop_first(), used + cell_width(s[0]), limit)
    }
}

/// `s` cut to fit `limit` columns, with `…` appended where it was cut.
pub fn clip_to_width(s: &str, limit: usize) -> (out: String)
    ensures
        out@ == clip(s@, 0, limit as nat),
{
    let cs = chars_of(s);
    let mut out = String::new();
    let mut used: usize = 0;
    let mut i: usize = 0;
    assert(cs@.skip(0) =~= cs@);
    while i < cs.len()
        invariant
            cs@ == s@,
            i <= cs@.len(),
            used <= limit,
            clip(s@, 0, limit as nat) == out@ + clip(s@.skip(i as int), used as nat, limit as nat),
        decreases cs@.len() - i,
    {
        let c = cs[i];
        let w: usize = match char_width(c) {
            Some(n) => n,
            None => 0,
        };
        assert(s@.skip(i as int)[0] == c);
        assert(s@.skip(i as int).drop_first() =~= s@.skip(i + 1));
        if w > limit - used {
            push_char(&mut out, '…');
            assert(clip(s@.skip(i as int), used as nat, limit as nat) == seq!['…']);
            assert(clip(s@, 0, limit as nat) =~= out@);
            return out;
        }
        push_char(&mut out, c);
        used = used + w;
        i = i + 1;
    }
    assert(s@.skip(i as int) =~= Seq::<char>::empty());
    assert(clip(s@, 0, limit as nat) =~= out@);
    out
}

/// What [`truncate`] shows for `s` in `max_width` columns: `s` itself
/// when it fits, otherwise its prefix that fits in one column less,
/// followed by `…`.
pub open spec fn truncate_spec(s: Seq<char>, max_width: nat) -> Seq<char> {
    if spec_str_width(s) <= max_width {
        s
    } else {
        clip(s, 0, if max_width > 0 { (max_width - 1) as nat } else { 0 })
    }
}

/// Truncate a string to a display-width budget, appending `…` if it does
/// not fit.
pub fn truncate(s: &str, max_width: usize) -> (out: String)
    ensures
        out@ == truncate_spec(s@, max_width as nat),
{
    if str_width(s) <= max_width {
        return s.to_owned();
    }
    clip_to_width(s, max_width.saturating_sub(1))
}

/// The first line to show so that the view ends `scroll_back` lines
/// above the bottom of `total` lines in a `viewport` of lines: 0 when
/// everything fits, the last page when following the tail.
pub open spec fn scroll_spec(total: nat, viewport: nat, scroll_back: nat) -> nat {
    if total <= viewport {
        0
    } else if scroll_back == 0 {
        (total - viewport) as nat
    } else if scroll_back >= total - viewport {
        0
    } else {
        (total - viewport - scroll_back) as nat
    }
}

/// Map `(total, viewport, scroll_back)` to the absolute line index to
/// start the chat view at.
pub fn compute_scroll(total: usize, viewport: usize, scroll_back: usize) -> (start: usize)
    ensures
        start == scroll_spec(total as nat, viewport as nat, scroll_back as nat),
        start + viewport >= total || scroll_back > 0,
{
    if total <= viewport {
        return 0;
    }
    let max = total.saturating_sub(viewport);
    if scroll_back == 0 {
        return max;
    }
    let s = max.saturating_sub(scroll_back);
    if s < max {
        s
    } else {
        max
    }
}

/// The first index from which the rest of `s` takes at most `n` bytes.
pub open spec fn suffix_start(s: Seq<char>, n: nat) -> int
    decreases s.len(),
{
    if utf8_len(s) <= n {
        0
    } else {
        1 + suffix_start(s.drop_first(), n)
    }
}

/// Whether the last `n` bytes of `s` start on a character boundary.
pub open spec fn has_byte_suffix(s: Seq<char>, n: nat) -> bool {
    utf8_len(s.skip(suffix_start(s, n))) == n
}

/// What [`shorten_path`] shows: the text itself when it takes at most
/// `max` bytes, otherwise `…` and its last `max - 1` bytes.
pub open spec fn shorten_spec(s: Seq<char>, max: nat) -> Seq<char> {
    if utf8_len(s) <= max {
        s
    } else {
        seq!['…'] + s.skip(suffix_start(s, (max - 1) as nat))
    }
}

/// The byte length of `cs[from..]`.
fn bytes_from(cs: &Vec<char>, from: usize) -> (n: usize)
    requires
        from <= cs@.len(),
        utf8_len(cs@) <= usize::MAX,
    ensures
        n == utf8_len(cs@.skip(from as int)),
{
    let mut total: usize = 0;
    let mut i: usize = cs.len();
    assert(cs@.skip(i as int) =~= Seq::<char>::empty());
    while i > from
        invariant
            from <= i <= cs@.len(),
            total == utf8_len(cs@.skip(i as int)),
            utf8_len(cs@) <= usize::MAX,
        decreases i,
    {
        i = i - 1;
        assert(cs@.skip(i as int) =~= seq![cs@[i as int]] + cs@.skip(i + 1));
        proof {
            crate::text::lemma_utf8_len_concat(seq![cs@[i as int]], cs@.skip(i + 1));
            lemma_utf8_len_single(cs@[i as int]);
            lemma_utf8_len_suffix_le(cs@, i as int);
        }
        total = total + char_utf8_width(cs[i]);
    }
    total
}

proof fn lemma_utf8_len_single(c: char)
    ensures
        utf8_len(seq![c]) == utf8_width(c),
{
    assert(seq![c].drop_first() =~= Seq::<char>::empty());
    assert(seq![c].drop_last() =~= Seq::<char>::empty());
    reveal_with_fuel(utf8_len, 2);
}

/// A suffix never takes more bytes than the whole.
proof fn lemma_utf8_len_suffix_le(s: Seq<char>, i: int)
    requires
        0 <= i <= s.len(),
    ensures
        utf8_len(s.skip(i)) <= utf8_len(s),
{
    assert(s =~= s.take(i) + s.skip(i));
    crate::text::lemma_utf8_len_concat(s.take(i), s.skip(i));
}

/// Show only the tail of a path so it fits in `max` bytes: the path
/// itself when short enough, otherwise `…` and its last `max - 1` bytes
/// (which must start on a character boundary).
pub fn shorten_path(s: &str, max: usize) -> (out: String)
    requires
        max >= 1,
        utf8_len(s@) > max ==> has_byte_suffix(s@, (max - 1) as nat),
        utf8_len(s@) <= usize::MAX,
    ensures
        out@ == shorten_spec(s@, max as nat),
{
    let cs = chars_of(s);
    let total = bytes_from(&cs, 0);
    assert(cs@.skip(0) =~= cs@);
    if total <= max {
        return s.to_owned();
    }
    let n = max - 1;
    let len = cs.len();
    let mut k: usize = 0;
    let mut rest = total;
    while rest > n
        invariant
            cs@ == s@,
            len == cs@.len(),
            k <= cs@.len(),
            rest == utf8_len(s@.skip(k as int)),
            utf8_len(s@) <= usize::MAX,
            suffix_start(s@, n as nat) == k + suffix_start(s@.skip(k as int), n as nat),
        decreases cs@.len() - k,
    {
        assert(s@.skip(k as int).len() > 0) by {
            if s@.skip(k as int).len() == 0 {
                assert(s@.skip(k as int) =~= Seq::<char>::empty());
            }
        }
        assert(k < cs@.len());
        assert(s@.skip(k as int).drop_first() =~= s@.skip(k + 1));
        k = k + 1;
        rest = bytes_from(&cs, k);
    }
    let mut out = String::new();
    push_char(&mut out, '…');
    push_chars(&mut out, cs.as_slice(), k, cs.len());
    assert(cs@.subrange(k as int, cs@.len() as int) =~= s@.skip(k as int));
    assert(suffix_start(s@.skip(k as int), n as nat) == 0);
    out
}

/// Show the tail of a session path in the header (at most 48 bytes).
pub fn short_path(s: &str) -> (out: String)
    requires
        utf8_len(s@) > 48 ==> has_byte_suffix(s@, 47),
        utf8_len(s@) <= usize::MAX,
    ensures
        out@ == shorten_spec(s@, 48),
{
    shorten_path(s, 48)
}

/// Show the tail of a session path in a picker row (at most 40 bytes).
pub fn short_path_for_picker(s: &str) -> (out: String)
    requires
        utf8_len(s@) > 40 ==> has_byte_suffix(s@, 39),
        utf8_len(s@) <= usize::MAX,
    ensures
        out@ == shorten_spec(s@, 40),
{
    shorten_path(s, 40)
}

/// The first 8 characters of a session id's ULID text (enough to tell
/// sessions apart in the status bar).
pub fn short_session_id(id: &SessionId) -> (out: String)
    ensures
        out@ == spec_ulid_text(id.0).take(8),
{
    let text = ulid_text(id.0);
    let cs = chars_of(text.as_str());
    let mut out = String::new();
    push_chars(&mut out, cs.as_slice(), 0, 8);
    assert(cs@.subrange(0, 8) =~= spec_ulid_text(id.0).take(8));
    out
}

/// `s` padded on the left with zeros to `width` characters.
pub open spec fn zero_pad(s: Seq<char>, width: nat) -> Seq<char> {
    if s.len() >= width {
        s
    } else {
        Seq::new((width - s.len()) as nat, |i: int| '0') + s
    }
}

/// Appends the decimal text of `n`, zero-padded to `width` characters.
fn push_zero_padded(out: &mut String, n: u64, width: usize)
    ensures
        final(out)@ == old(out)@ + zero_pad(dec_digits(n as nat), width as nat),
{
    let len = decimal_len(n);
    let mut k: usize = len;
    let ghost start = out@;
    while k < width
        invariant
            len <= k,
            len == dec_digits(n as nat).len(),
            k <= width || k == len,
            out@ == start + Seq::new((k - len) as nat, |i: int| '0'),
        decreases width - k,
    {
        push_char(out, '0');
        k = k + 1;
        assert(out@ =~= start + Seq::new((k - len) as nat, |i: int| '0'));
    }
    push_decimal(out, n);
    if len >= width {
        assert(out@ =~= start + zero_pad(dec_digits(n as nat), width as nat));
    } else {
        assert(out@ =~= start + zero_pad(dec_digits(n as nat), width as nat));
    }
}

/// What `{:04}` renders an `i32` as: zero-padded to four characters,
/// the sign counted among them.
pub open spec fn year_text(y: i32) -> Seq<char> {
    if y >= 0 {
        zero_pad(dec_digits(y as nat), 4)
    } else {
        seq!['-'] + zero_pad(dec_digits((-(y as int)) as nat), 3)
    }
}

/// The proleptic Gregorian date (year, month, day) of the day `days`
/// days after 1970-01-01, by the civil-from-days construction: the day
/// is placed in its 400-year era, its year of the era and its day of a
/// March-based year, from which the month and day follow.
pub open spec fn civil_from_days(days: nat) -> (int, int, int) {
    let z = days + 719_468;
    let era = z / 146_097;
    let doe = z - era * 146_097;
    let yoe = (doe - doe / 1460 + doe / 36_524 - doe / 146_096) / 365;
    let y = yoe + era * 400;
    let doy = doe - (365 * yoe + yoe / 4 - yoe / 100);
    let mp = (5 * doy + 2) / 153;
    let d = doy - (153 * mp + 2) / 5 + 1;
    let m = if mp < 10 { mp + 3 } else { mp - 9 };
    (if m <= 2 { y + 1 } else { y }, m, d)
}

/// Every day number maps to a real calendar position: a month from 1
/// to 12 and a day of the month from 1 to 31.
pub proof fn law_civil_date_in_range(days: nat)
    ensures
        1 <= civil_from_days(days).1 <= 12,
        1 <= civil_from_days(days).2 <= 31,
{
    let z = days + 719_468;
    let era = z / 146_097;
    let doe = z - era * 146_097;
    assert(0 <= doe < 146_097);
    let yoe = (doe - doe / 1460 + doe / 36_524 - doe / 146_096) / 365;
    assert(0 <= yoe <= 399) by (nonlinear_arith)
        requires
            0 <= doe < 146_097,
            yoe == (doe - doe / 1460 + doe / 36_524 - doe / 146_096) / 365,
    ;
    let doy = doe - (365 * yoe + yoe / 4 - yoe / 100);
    assert(0 <= doy <= 365) by (nonlinear_arith)
        requires
            0 <= doe < 146_097,
            yoe == (doe - doe / 1460 + doe / 36_524 - doe / 146_096) / 365,
            doy == doe - (365 * yoe + yoe / 4 - yoe / 100),
    ;
    let mp = (5 * doy + 2) / 153;
    let d = doy - (153 * mp + 2) / 5 + 1;
    assert(0 <= mp <= 11 && 1 <= d <= 31) by (nonlinear_arith)
        requires
            0 <= doy <= 365,
            mp == (5 * doy + 2) / 153,
            d == doy - (153 * mp + 2) / 5 + 1,
    ;
}

/// The number of days from 1970-01-01 to the proleptic Gregorian date
/// `year`-`month`-`day` (days-from-civil: years counted from March, in
/// 400-year eras of 146097 days).
pub open spec fn days_from_civil(year: int, month: int, day: int) -> int {
    let y = if month <= 2 { year - 1 } else { year };
    let era = (if y >= 0 { y } else { y - 399 }) / 400;
    let yoe = y - era * 400;
    let doy = (153 * (if month > 2 { month - 3 } else { month + 9 }) + 2) / 5 + day - 1;
    let doe = yoe * 365 + yoe / 4 - yoe / 100 + doy;
    era * 146_097 + doe - 719_468
}

/// Formatting a day and reading it back agree: the date
/// [`civil_from_days`] gives for a day number counts back to that day.
pub proof fn law_civil_round_trip(days: nat)
    ensures
        days_from_civil(civil_from_days(days).0, civil_from_days(days).1, civil_from_days(days).2)
            == days,
{
    law_civil_date_in_range(days);
    let z = days + 719_468;
    let era = z / 146_097;
    let doe = z - era * 146_097;
    let yoe = (doe - doe / 1460 + doe / 36_524 - doe / 146_096) / 365;
    assert(0 <= yoe <= 399) by (nonlinear_arith)
        requires
            0 <= doe < 146_097,
            yoe == (doe - doe / 1460 + doe / 36_524 - doe / 146_096) / 365,
    ;
    let y = yoe + era * 400;
    assert(era >= 0);
    assert(y / 400 == era) by (nonlinear_arith)
        requires
            0 <= yoe <= 399,
            era >= 0,
            y == yoe + era * 400,
    ;
}

/// `YYYY-MM-DDTHH:MM:SSZ` for `secs` seconds after the Unix epoch (the
/// year rendered as a truncated `i32`).
pub open spec fn civil_text(secs: nat) -> Seq<char> {
    let (y, m, d) = civil_from_days(secs / 86_400);
    let rem = secs % 86_400;
    year_text(y as i32) + seq!['-'] + zero_pad(dec_digits(m as nat), 2) + seq!['-'] + zero_pad(
        dec_digits(d as nat),
        2,
    ) + seq!['T'] + zero_pad(dec_digits(rem / 3600), 2) + seq![':'] + zero_pad(
        dec_digits((rem % 3600) / 60),
        2,
    ) + seq![':'] + zero_pad(dec_digits(rem % 60), 2) + seq!['Z']
}

/// Format `secs` seconds after the Unix epoch as `YYYY-MM-DDTHH:MM:SSZ`.
#[verifier::rlimit(40)]
pub fn epoch_to_civil(secs: u64) -> (out: String)
    ensures
        out@ == civil_text(secs as nat),
{
    let days: u64 = secs / 86_400;
    let rem: u64 = secs % 86_400;
    let z: u64 = days + 719_468;
    let era: u64 = z / 146_097;
    let doe: u64 = z - era * 146_097;
    let yoe: u64 = (doe - doe / 1460 + doe / 36_524 - doe / 146_096) / 365;
    let y: u64 = yoe + era * 400;
    let doy: u64 = doe - (365 * yoe + yoe / 4 - yoe / 100);
    let mp: u64 = (5 * doy + 2) / 153;
    let d: u64 = doy - (153 * mp + 2) / 5 + 1;
    let m: u64 = if mp < 10 {
        mp + 3
    } else {
        mp - 9
    };
    let full_year: u64 = if m <= 2 {
        y + 1
    } else {
        y
    };
    #[verifier::truncate]
    let year: i32 = full_year as i32;
    let mut out = String::new();
    if year >= 0 {
        push_zero_padded(&mut out, year as u64, 4);
    } else {
        push_char(&mut out, '-');
        let magnitude: u64 = (-(year as i64)) as u64;
        push_zero_padded(&mut out, magnitude, 3);
    }
    push_char(&mut out, '-');
    push_zero_padded(&mut out, m, 2);
    push_char(&mut out, '-');
    push_zero_padded(&mut out, d, 2);
    push_char(&mut out, 'T');
    push_zero_padded(&mut out, rem / 3600, 2);
    push_char(&mut out, ':');
    push_zero_padded(&mut out, (rem % 3600) / 60, 2);
    push_char(&mut out, ':');
    push_zero_padded(&mut out, rem % 60, 2);
    push_char(&mut out, 'Z');
    out
}

/// Format a timestamp (milliseconds since the Unix epoch) as
/// `YYYY-MM-DDTHH:MM:SSZ`, dropping the milliseconds.
pub fn format_timestamp(ts: Timestamp) -> (out: String)
    ensures
        out@ == civil_text((ts.0 / 1000) as nat),
{
    epoch_to_civil(ts.0 / 1000)
}

/// The colour a span is drawn in.
#[derive(Debug, Clone, Copy, PartialEq, Eq, Structural)]
pub enum Tone {
    /// The terminal's default.
    Plain,
    White,
    Green,
    Red,
    Yellow,
    Cyan,
    DarkGray,
}

/// A run of text drawn in one style.
#[derive(Debug, Clone, PartialEq, Eq)]
pub struct Span {
    pub text: String,
    pub tone: Tone,
    pub bold: bool,
    pub italic: bool,
}

/// A span as plain values.
pub struct SpanView {
    pub text: Seq<char>,
    pub tone: Tone,
    pub bold: bool,
    pub italic: bool,
}

/// The plain form of a span.
pub open spec fn span_view(s: Span) -> SpanView {
    SpanView { text: s.text@, tone: s.tone, bold: s.bold, italic: s.italic }
}

/// The plain form of rendered lines.
pub open spec fn lines_of(v: Seq<Vec<Span>>) -> Seq<Seq<SpanView>> {
    v.map_values(|l: Vec<Span>| l@.map_values(|s: Span| span_view(s)))
}

/// A span of `text` in `tone`, neither bold nor italic.
pub open spec fn sv(text: Seq<char>, tone: Tone) -> SpanView {
    SpanView { text, tone, bold: false, italic: false }
}

/// An empty line.
pub open spec fn blank_line() -> Seq<SpanView> {
    seq![sv(Seq::empty(), Tone::Plain)]
}

/// One line per `'\n'`-separated piece of `text`, each `prefix` then the
/// piece, in `tone`.
pub open spec fn prefixed_lines(text: Seq<char>, prefix: Seq<char>, tone: Tone) -> Seq<Seq<SpanView>> {
    split_nl(text).map_values(|l: Seq<char>| seq![sv(prefix + l, tone)])
}

/// The lines of a tool card: a header with a status mark, the tool's
/// name and its (width-capped) arguments, then the stdout, stderr and
/// result bodies line by line (each only when non-empty), a truncation
/// note, and a blank line.
pub open spec fn card_lines(
    name: Seq<char>,
    args: serde_json::Value,
    output: Seq<char>,
    is_error: bool,
    truncated: bool,
    stdout: Seq<char>,
    stderr: Seq<char>,
) -> Seq<Seq<SpanView>> {
    let dot = if is_error { "✗"@ } else { "✓"@ };
    let header = seq![
        sv(" "@ + dot + " "@, if is_error { Tone::Red } else { Tone::Green }),
        SpanView { text: name, tone: Tone::Cyan, bold: true, italic: false },
        sv("("@ + truncate_spec(spec_json_text(args), 60) + ")"@, Tone::DarkGray),
    ];
    seq![header] + (if stdout.len() > 0 {
        prefixed_lines(stdout, "    │ "@, Tone::White)
    } else {
        Seq::empty()
    }) + (if stderr.len() > 0 {
        prefixed_lines(stderr, "    ⎿ "@, Tone::Yellow)
    } else {
        Seq::empty()
    }) + (if output.len() > 0 {
        prefixed_lines(output, "    ↳ "@, Tone::DarkGray)
    } else {
        Seq::empty()
    }) + (if truncated {
        seq![seq![SpanView { text: "    … (output truncated)"@, tone: Tone::Yellow, bold: false, italic: true }]]
    } else {
        Seq::empty()
    }) + seq![blank_line()]
}

/// The lines one chat entry renders as.
pub open spec fn entry_lines(e: EntryView) -> Seq<Seq<SpanView>> {
    match e {
        EntryView::User(t) => seq![seq![sv(" ❯ "@, Tone::Green), sv(t, Tone::White)], blank_line()],
        EntryView::Assistant(t) => prefixed_lines(t, Seq::empty(), Tone::White).push(blank_line()),
        EntryView::Reasoning(t) => seq![
            seq![SpanView { text: "  ⌥ "@ + t, tone: Tone::DarkGray, bold: false, italic: true }],
        ],
        EntryView::Card { name, args, output, is_error, truncated, stdout, stderr } => card_lines(
            name,
            args,
            output,
            is_error,
            truncated,
            stdout,
            stderr,
        ),
        EntryView::Status(t) => seq![seq![sv(" "@ + t, Tone::DarkGray)]],
    }
}

/// The lines of a whole scrollback, entry after entry.
pub open spec fn history_lines_spec(h: Seq<EntryView>) -> Seq<Seq<SpanView>>
    decreases h.len(),
{
    if h.len() == 0 {
        Seq::empty()
    } else {
        history_lines_spec(h.drop_last()) + entry_lines(h.last())
    }
}

fn span(text: String, tone: Tone) -> (s: Span)
    ensures
        span_view(s) == sv(text@, tone),
{
    Span { text, tone, bold: false, italic: false }
}

fn blank() -> (l: Vec<Span>)
    ensures
        l@.map_values(|s: Span| span_view(s)) == blank_line(),
{
    let mut l: Vec<Span> = Vec::new();
    l.push(span(String::new(), Tone::Plain));
    assert(l@.map_values(|s: Span| span_view(s)) =~= blank_line());
    l
}

/// Appends one line per piece of `text` (split at newlines), each
/// `prefix` then the piece, in `tone`.
fn push_prefixed(out: &mut Vec<Vec<Span>>, text: &str, prefix: &str, tone: Tone)
    ensures
        lines_of(final(out)@) == lines_of(old(out)@) + prefixed_lines(text@, prefix@, tone),
{
    let cs = chars_of(text);
    let pieces = split_lines(cs.as_slice());
    let ghost target = prefixed_lines(text@, prefix@, tone);
    let mut i: usize = 0;
    while i < pieces.len()
        invariant
            i <= pieces@.len(),
            lines_view(pieces@) == split_nl(text@),
            target == prefixed_lines(text@, prefix@, tone),
            lines_of(out@) == lines_of(old(out)@) + target.take(i as int),
        decreases pieces@.len() - i,
    {
        let mut t = prefix.to_owned();
        let piece = &pieces[i];
        push_chars(&mut t, piece.as_slice(), 0, piece.len());
        assert(piece@.subrange(0, piece@.len() as int) =~= piece@);
        assert(lines_view(pieces@)[i as int] == piece@);
        let mut line: Vec<Span> = Vec::new();
        line.push(span(t, tone));
        let ghost before = out@;
        out.push(line);
        assert(lines_of(out@) =~~= lines_of(before).push(seq![sv(prefix@ + piece@, tone)]));
        assert(target[i as int] == seq![sv(prefix@ + piece@, tone)]);
        assert(target.take(i + 1) =~= target.take(i as int).push(target[i as int]));
        i = i + 1;
    }
    assert(target.take(i as int) =~= target);
}

/// Appends a single line holding one span.
fn push_single(out: &mut Vec<Vec<Span>>, s: Span)
    ensures
        lines_of(final(out)@) == lines_of(old(out)@).push(seq![span_view(s)]),
{
    let mut line: Vec<Span> = Vec::new();
    line.push(s);
    let ghost before = out@;
    out.push(line);
    assert(lines_of(out@) =~~= lines_of(before).push(seq![span_view(s)]));
}

/// Appends the lines of a tool card.
#[verifier::rlimit(30)]
fn push_card_lines(
    out: &mut Vec<Vec<Span>>,
    name: &String,
    args: &serde_json::Value,
    output: &String,
    is_error: bool,
    truncated: bool,
    stdout: &String,
    stderr: &String,
)
    ensures
        lines_of(final(out)@) == lines_of(old(out)@) + card_lines(
            name@,
            *args,
            output@,
            is_error,
            truncated,
            stdout@,
            stderr@,
        ),
{
    let ghost start = lines_of(out@);
    let mut header: Vec<Span> = Vec::new();
    let dot = if is_error {
        "✗"
    } else {
        "✓"
    };
    let mut mark = String::from_str(" ");
    mark.append(dot);
    mark.append(" ");
    header.push(span(mark, if is_error { Tone::Red } else { Tone::Green }));
    header.push(Span { text: name.clone(), tone: Tone::Cyan, bold: true, italic: false });
    let mut shown = String::from_str("(");
    let text = json_text(args);
    let capped = truncate(text.as_str(), 60);
    shown.append(capped.as_str());
    shown.append(")");
    header.push(span(shown, Tone::DarkGray));
    let ghost before = out@;
    out.push(header);
    let ghost l1 = lines_of(out@);
    assert(l1 =~~= start + seq![card_lines(name@, *args, output@, is_error, truncated, stdout@, stderr@)[0]]);
    if !stdout.as_str().is_empty() {
        push_prefixed(out, stdout.as_str(), "    │ ", Tone::White);
    }
    let ghost l2 = lines_of(out@);
    if !stderr.as_str().is_empty() {
        push_prefixed(out, stderr.as_str(), "    ⎿ ", Tone::Yellow);
    }
    let ghost l3 = lines_of(out@);
    if !output.as_str().is_empty() {
        push_prefixed(out, output.as_str(), "    ↳ ", Tone::DarkGray);
    }
    let ghost l4 = lines_of(out@);
    if truncated {
        push_single(
            out,
            Span { text: String::from_str("    … (output truncated)"), tone: Tone::Yellow, bold: false, italic: true },
        );
    }
    let ghost l5 = lines_of(out@);
    let ghost mid = out@;
    out.push(blank());
    assert(lines_of(out@) =~~= lines_of(mid).push(blank_line()));
    let ghost a = if stdout@.len() > 0 {
        prefixed_lines(stdout@, "    │ "@, Tone::White)
    } else {
        Seq::empty()
    };
    let ghost b = if stderr@.len() > 0 {
        prefixed_lines(stderr@, "    ⎿ "@, Tone::Yellow)
    } else {
        Seq::empty()
    };
    let ghost c = if output@.len() > 0 {
        prefixed_lines(output@, "    ↳ "@, Tone::DarkGray)
    } else {
        Seq::empty()
    };
    let ghost d = if truncated {
        seq![seq![SpanView { text: "    … (output truncated)"@, tone: Tone::Yellow, bold: false, italic: true }]]
    } else {
        Seq::<Seq<SpanView>>::empty()
    };
    assert(l2 =~~= l1 + a);
    assert(l3 =~~= l1 + a + b);
    assert(l4 =~~= l1 + a + b + c);
    assert(l5 =~~= l1 + a + b + c + d);
    assert(lines_of(out@) =~~= start + card_lines(name@, *args, output@, is_error, truncated, stdout@, stderr@));
        }

/// Appends the lines of one chat entry.
fn push_entry_lines(out: &mut Vec<Vec<Span>>, e: &ChatEntry)
    ensures
        lines_of(final(out)@) == lines_of(old(out)@) + entry_lines(entry_view(*e)),
{
    let ghost start = lines_of(out@);
    match e {
        ChatEntry::UserMessage(t) => {
            let mut line: Vec<Span> = Vec::new();
            line.push(span(String::from_str(" ❯ "), Tone::Green));
            line.push(span(t.clone(), Tone::White));
            let ghost before = out@;
            out.push(line);
            assert(lines_of(out@) =~~= lines_of(before).push(seq![sv(" ❯ "@, Tone::Green), sv(t@, Tone::White)]));
            let ghost mid = out@;
            out.push(blank());
            assert(lines_of(out@) =~~= lines_of(mid).push(blank_line()));
            assert(lines_of(out@) =~~= start + entry_lines(entry_view(*e)));
        },
        ChatEntry::AssistantText(t) => {
            push_prefixed(out, t.as_str(), "", Tone::White);
            let ghost mid = out@;
            out.push(blank());
            assert(lines_of(out@) =~~= lines_of(mid).push(blank_line()));
            assert(""@ =~= Seq::<char>::empty()) by {
                reveal_strlit("");
            }
            assert(lines_of(out@) =~~= start + entry_lines(entry_view(*e)));
        },
        ChatEntry::Reasoning(t) => {
            let mut text = String::from_str("  ⌥ ");
            text.append(t.as_str());
            push_single(out, Span { text, tone: Tone::DarkGray, bold: false, italic: true });
            assert(lines_of(out@) =~~= start + entry_lines(entry_view(*e)));
        },
        ChatEntry::ToolCard { name, args, output, is_error, truncated, stdout, stderr } => {
            push_card_lines(out, name, args, output, *is_error, *truncated, stdout, stderr);
        },
        ChatEntry::StatusLine(t) => {
            let mut text = String::from_str(" ");
            text.append(t.as_str());
            push_single(out, span(text, Tone::DarkGray));
            assert(lines_of(out@) =~~= start + entry_lines(entry_view(*e)));
        },
    }
}

/// Project the chat history into styled lines, entry after entry.
pub fn render_history(history: &Vec<ChatEntry>) -> (lines: Vec<Vec<Span>>)
    ensures
        lines_of(lines@) == history_lines_spec(entries_view(history@)),
{
    let mut out: Vec<Vec<Span>> = Vec::new();
    let mut i: usize = 0;
    assert(lines_of(out@) =~~= Seq::<Seq<SpanView>>::empty());
    while i < history.len()
        invariant
            i <= history@.len(),
            lines_of(out@) == history_lines_spec(entries_view(history@.take(i as int))),
        decreases history@.len() - i,
    {
        assert(entries_view(history@.take(i + 1)).drop_last() =~= entries_view(history@.take(i as int)));
        assert(entries_view(history@.take(i + 1)).last() == entry_view(history@[i as int]));
        push_entry_lines(&mut out, &history[i]);
        i = i + 1;
    }
    assert(history@.take(i as int) =~= history@);
    out
}

} // verus!

verus! {

/// Drawing more entries only adds lines after those already drawn.
proof fn lemma_history_lines_extend(h: Seq<EntryView>, m: int, n: int)
    requires
        0 <= m <= n <= h.len(),
    ensures
        history_lines_spec(h.take(m)).len() <= history_lines_spec(h.take(n)).len(),
        history_lines_spec(h.take(n)).take(history_lines_spec(h.take(m)).len() as int) == history_lines_spec(
            h.take(m),
        ),
    decreases n - m,
{
    if m < n {
        lemma_history_lines_extend(h, m, n - 1);
        assert(h.take(n).drop_last() =~= h.take(n - 1));
        let prev = history_lines_spec(h.take(n - 1));
        let base = history_lines_spec(h.take(m));
        assert(history_lines_spec(h.take(n)) == prev + entry_lines(h.take(n).last()));
        assert(history_lines_spec(h.take(n)).take(base.len() as int) =~= base);
    } else {
        assert(history_lines_spec(h.take(n)).take(history_lines_spec(h.take(m)).len() as int)
            =~= history_lines_spec(h.take(m)));
    }
}

/// A tool card is drawn with its outcome's mark: the first span of its
/// header line is ` ✗ ` in red for a failed call and ` ✓ ` in green for
/// a successful one, wherever the card stands in the scrollback.
pub proof fn law_card_mark_shows_the_outcome(h: Seq<EntryView>, k: int)
    requires
        0 <= k < h.len(),
        h[k] is Card,
    ensures
        ({
            let i = history_lines_spec(h.take(k)).len() as int;
            let lines = history_lines_spec(h);
            let failed = h[k]->Card_is_error;
            &&& i < lines.len()
            &&& lines[i].len() > 0
            &&& lines[i][0] == (if failed {
                SpanView { text: " ✗ "@, tone: Tone::Red, bold: false, italic: false }
            } else {
                SpanView { text: " ✓ "@, tone: Tone::Green, bold: false, italic: false }
            })
        }),
{
    reveal_strlit(" ");
    reveal_strlit("✗");
    reveal_strlit("✓");
    reveal_strlit(" ✗ ");
    reveal_strlit(" ✓ ");
    assert(" "@ + "✗"@ + " "@ =~= " ✗ "@);
    assert(" "@ + "✓"@ + " "@ =~= " ✓ "@);
    lemma_history_lines_extend(h, k + 1, h.len() as int);
    assert(h.take(k + 1).drop_last() =~= h.take(k));
    assert(h.take(k + 1).last() == h[k]);
    assert(h.take(h.len() as int) =~= h);
    let i = history_lines_spec(h.take(k)).len() as int;
    let hk = history_lines_spec(h.take(k + 1));
    assert(hk == history_lines_spec(h.take(k)) + entry_lines(h[k]));
    assert(hk[i] == entry_lines(h[k])[0]);
    assert(history_lines_spec(h).take(hk.len() as int)[i] == history_lines_spec(h)[i]);
}

} // verus!
