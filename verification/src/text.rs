//! Character-level text helpers shared by the rest of the crate.
//!
//! Strings are specified through their `Seq<char>` view. Byte lengths
//! are the UTF-8 encoded lengths of those characters.

use vstd::prelude::*;

verus! {

/// The Unicode `White_Space` property, which is what `char::is_whitespace`
/// tests.
pub open spec fn is_ws(c: char) -> bool {
    let u = c as u32;
    ||| 0x09 <= u <= 0x0D
    ||| u == 0x20
    ||| u == 0x85
    ||| u == 0xA0
    ||| u == 0x1680
    ||| 0x2000 <= u <= 0x200A
    ||| u == 0x2028
    ||| u == 0x2029
    ||| u == 0x202F
    ||| u == 0x205F
    ||| u == 0x3000
}

/// Whether `c` is Unicode whitespace.
pub fn is_whitespace(c: char) -> (b: bool)
    ensures
        b == is_ws(c),
{
    let u = c as u32;
    (0x09 <= u && u <= 0x0D) || u == 0x20 || u == 0x85 || u == 0xA0 || u == 0x1680 || (0x2000
        <= u && u <= 0x200A) || u == 0x2028 || u == 0x2029 || u == 0x202F || u == 0x205F || u
        == 0x3000
}

/// Number of bytes `c` takes in UTF-8.
pub open spec fn utf8_width(c: char) -> nat {
    let u = c as u32;
    if u < 0x80 {
        1
    } else if u < 0x800 {
        2
    } else if u < 0x10000 {
        3
    } else {
        4
    }
}

/// Number of bytes `s` takes in UTF-8.
pub open spec fn utf8_len(s: Seq<char>) -> nat
    decreases s.len(),
{
    if s.len() == 0 {
        0
    } else {
        utf8_len(s.drop_last()) + utf8_width(s.last())
    }
}

/// Exec counterpart of [`utf8_width`].
pub fn char_utf8_width(c: char) -> (w: usize)
    ensures
        w as nat == utf8_width(c),
        1 <= w <= 4,
{
    let u = c as u32;
    if u < 0x80 {
        1
    } else if u < 0x800 {
        2
    } else if u < 0x10000 {
        3
    } else {
        4
    }
}

/// Appending one character grows the UTF-8 length by its width.
pub proof fn lemma_utf8_len_push(s: Seq<char>, c: char)
    ensures
        utf8_len(s.push(c)) == utf8_len(s) + utf8_width(c),
{
    assert(s.push(c).drop_last() =~= s);
}

/// The UTF-8 length of a concatenation is the sum of the lengths.
pub proof fn lemma_utf8_len_concat(a: Seq<char>, b: Seq<char>)
    ensures
        utf8_len(a + b) == utf8_len(a) + utf8_len(b),
    decreases b.len(),
{
    if b.len() == 0 {
        assert(a + b =~= a);
    } else {
        lemma_utf8_len_concat(a, b.drop_last());
        assert((a + b).drop_last() =~= a + b.drop_last());
        assert((a + b).last() == b.last());
    }
}

/// A prefix is never longer in bytes than the whole.
pub proof fn lemma_utf8_len_prefix(s: Seq<char>, n: int)
    requires
        0 <= n <= s.len(),
    ensures
        utf8_len(s.take(n)) <= utf8_len(s),
    decreases s.len() - n,
{
    if n < s.len() {
        lemma_utf8_len_prefix(s, n + 1);
        assert(s.take(n + 1).drop_last() =~= s.take(n));
    } else {
        assert(s.take(n) =~= s);
    }
}

/// Appends `c` to `s` (std's `String::push`).
#[verifier::external_body]
pub(crate) fn push_char(s: &mut String, c: char)
    ensures
        final(s)@ == old(s)@.push(c),
{
    s.push(c);
}

/// The characters of `s`, in order.
pub fn chars_of(s: &str) -> (v: Vec<char>)
    ensures
        v@ == s@,
{
    broadcast use vstd::string::group_string_axioms;

    let mut v: Vec<char> = Vec::new();
    for c in it: s.chars()
        invariant
            it.seq() == s@,
            v@ == s@.take(it.index() as int),
    {
        v.push(c);
        assert(v@ =~= s@.take(it.index() + 1));
    }
    assert(v@ =~= s@);
    v
}

/// Builds a `String` holding exactly `cs`.
pub fn string_from_chars(cs: &[char]) -> (s: String)
    ensures
        s@ == cs@,
{
    let mut s = String::new();
    let mut i: usize = 0;
    while i < cs.len()
        invariant
            i <= cs@.len(),
            s@ == cs@.take(i as int),
        decreases cs@.len() - i,
    {
        push_char(&mut s, cs[i]);
        i = i + 1;
        assert(s@ =~= cs@.take(i as int));
    }
    assert(s@ =~= cs@);
    s
}

/// Appends every character of `cs[from..to]` to `s`.
pub fn push_chars(s: &mut String, cs: &[char], from: usize, to: usize)
    requires
        from <= to <= cs@.len(),
    ensures
        final(s)@ == old(s)@ + cs@.subrange(from as int, to as int),
{
    let mut i: usize = from;
    while i < to
        invariant
            from <= i <= to <= cs@.len(),
            s@ == old(s)@ + cs@.subrange(from as int, i as int),
        decreases to - i,
    {
        push_char(s, cs[i]);
        i = i + 1;
        assert(s@ =~= old(s)@ + cs@.subrange(from as int, i as int));
    }
}

/// Whether `a` and `b` hold the same characters.
pub fn str_eq(a: &str, b: &str) -> (r: bool)
    ensures
        r == (a@ == b@),
{
    let x = chars_of(a);
    let y = chars_of(b);
    if x.len() != y.len() {
        return false;
    }
    let mut i: usize = 0;
    while i < x.len()
        invariant
            x@ == a@,
            y@ == b@,
            x@.len() == y@.len(),
            i <= x@.len(),
            forall|j: int| 0 <= j < i ==> x@[j] == y@[j],
        decreases x@.len() - i,
    {
        if x[i] != y[i] {
            return false;
        }
        i = i + 1;
    }
    assert(x@ =~= y@);
    true
}

/// Whether `s` starts with `prefix`.
pub fn starts_with(s: &str, prefix: &str) -> (r: bool)
    ensures
        r == (prefix@.len() <= s@.len() && s@.take(prefix@.len() as int) == prefix@),
{
    let x = chars_of(s);
    let p = chars_of(prefix);
    if p.len() > x.len() {
        return false;
    }
    let mut i: usize = 0;
    while i < p.len()
        invariant
            x@ == s@,
            p@ == prefix@,
            p@.len() <= x@.len(),
            i <= p@.len(),
            forall|j: int| 0 <= j < i ==> x@[j] == p@[j],
        decreases p@.len() - i,
    {
        if x[i] != p[i] {
            assert(s@.take(prefix@.len() as int)[i as int] != prefix@[i as int]);
            return false;
        }
        i = i + 1;
    }
    assert(s@.take(prefix@.len() as int) =~= prefix@);
    true
}

/// `s` with its leading whitespace removed (what `str::trim_start` gives).
pub open spec fn trim_start_spec(s: Seq<char>) -> Seq<char>
    decreases s.len(),
{
    if s.len() > 0 && is_ws(s[0]) {
        trim_start_spec(s.drop_first())
    } else {
        s
    }
}

/// Whether every character of `s` is whitespace (what `s.trim().is_empty()` tests).
pub open spec fn all_ws(s: Seq<char>) -> bool {
    forall|i: int| 0 <= i < s.len() ==> is_ws(#[trigger] s[i])
}

/// Index of the first non-whitespace character of `cs`, or its length.
pub fn first_non_ws(cs: &[char]) -> (k: usize)
    ensures
        k <= cs@.len(),
        all_ws(cs@.take(k as int)),
        k < cs@.len() ==> !is_ws(cs@[k as int]),
        trim_start_spec(cs@) == cs@.skip(k as int),
{
    let mut k: usize = 0;
    assert(cs@.skip(0) =~= cs@);
    while k < cs.len() && is_whitespace(cs[k])
        invariant
            k <= cs@.len(),
            all_ws(cs@.take(k as int)),
            trim_start_spec(cs@) == trim_start_spec(cs@.skip(k as int)),
        decreases cs@.len() - k,
    {
        assert(cs@.skip(k as int).drop_first() =~= cs@.skip(k + 1));
        k = k + 1;
    }
    if k < cs.len() {
        assert(cs@.skip(k as int)[0] == cs@[k as int]);
    }
    k
}

/// Whether `s` holds only whitespace.
pub fn is_blank(s: &str) -> (b: bool)
    ensures
        b == all_ws(s@),
{
    let cs = chars_of(s);
    let k = first_non_ws(cs.as_slice());
    if k == cs.len() {
        assert(cs@.take(k as int) =~= cs@);
    }
    k == cs.len()
}

} // verus!

verus! {

/// `s` split at every `'\n'`, as `str::split('\n')` does: always at least
/// one (possibly empty) piece.
pub open spec fn split_nl(s: Seq<char>) -> Seq<Seq<char>>
    decreases s.len(),
{
    if s.len() == 0 {
        seq![Seq::<char>::empty()]
    } else {
        let r = split_nl(s.drop_last());
        if s.last() == '\n' {
            r.push(Seq::<char>::empty())
        } else {
            r.update(r.len() - 1, r.last().push(s.last()))
        }
    }
}

/// The lines of `s`: its `'\n'`-separated pieces without the empty piece
/// a trailing newline leaves behind.
pub open spec fn content_lines(s: Seq<char>) -> Seq<Seq<char>> {
    let p = split_nl(s);
    if p.last().len() == 0 {
        p.drop_last()
    } else {
        p
    }
}

/// `ls` joined with `'\n'` between consecutive lines.
pub open spec fn join_nl(ls: Seq<Seq<char>>) -> Seq<char>
    decreases ls.len(),
{
    if ls.len() == 0 {
        Seq::<char>::empty()
    } else if ls.len() == 1 {
        ls[0]
    } else {
        join_nl(ls.drop_last()) + seq!['\n'] + ls.last()
    }
}

/// Whether no line of `ls` holds a newline.
pub open spec fn newline_free(ls: Seq<Seq<char>>) -> bool {
    forall|i: int, j: int| 0 <= i < ls.len() && 0 <= j < ls[i].len() ==> ls[i][j] != '\n'
}

/// `split_nl` always yields at least one piece, and no piece holds a
/// newline.
pub proof fn lemma_split_nl_shape(s: Seq<char>)
    ensures
        split_nl(s).len() >= 1,
        newline_free(split_nl(s)),
        split_nl(s).len() <= s.len() + 1,
    decreases s.len(),
{
    if s.len() > 0 {
        lemma_split_nl_shape(s.drop_last());
        let r = split_nl(s.drop_last());
        let t = split_nl(s);
        if s.last() != '\n' {
            assert forall|i: int, j: int| 0 <= i < t.len() && 0 <= j < t[i].len() implies t[i][j]
                != '\n' by {
                if i == r.len() - 1 && j == r.last().len() {
                } else if i == r.len() - 1 {
                    assert(t[i][j] == r[i][j]);
                } else {
                    assert(t[i] == r[i]);
                }
            }
        } else {
            assert forall|i: int, j: int| 0 <= i < t.len() && 0 <= j < t[i].len() implies t[i][j]
                != '\n' by {
                assert(t[i] == r[i]);
            }
        }
    }
}

/// The last piece of `split_nl(s)` is empty exactly when `s` is empty or
/// ends with a newline.
pub proof fn lemma_split_nl_last(s: Seq<char>)
    ensures
        split_nl(s).last().len() == 0 <==> (s.len() == 0 || s.last() == '\n'),
{
    if s.len() > 0 {
        lemma_split_nl_shape(s.drop_last());
    }
}

/// Joining the pieces of a split gives the text back.
pub proof fn lemma_join_split(s: Seq<char>)
    ensures
        join_nl(split_nl(s)) == s,
    decreases s.len(),
{
    if s.len() > 0 {
        lemma_join_split(s.drop_last());
        lemma_split_nl_shape(s.drop_last());
        let r = split_nl(s.drop_last());
        let t = split_nl(s);
        if s.last() == '\n' {
            assert(t.drop_last() =~= r);
            assert(join_nl(t) =~= s);
        } else {
            assert(t.drop_last() =~= r.drop_last());
            assert(t.last() == r.last().push(s.last()));
            if r.len() == 1 {
                assert(join_nl(t) == t[0]);
                assert(join_nl(r) == r[0]);
                assert(t[0] == r[0].push(s.last()));
                assert(s.drop_last().push(s.last()) =~= s);
                assert(join_nl(t) =~= s);
            } else {
                assert(join_nl(r) == join_nl(r.drop_last()) + seq!['\n'] + r.last());
                assert(join_nl(t) == join_nl(t.drop_last()) + seq!['\n'] + t.last());
                let a = join_nl(r.drop_last()) + seq!['\n'];
                assert(a + r.last().push(s.last()) =~= (a + r.last()).push(s.last()));
                assert(s.drop_last().push(s.last()) =~= s);
                assert(join_nl(t) =~= s);
            }
        }
    }
}

/// Splitting the join of newline-free lines gives the lines back.
pub proof fn lemma_split_join(ls: Seq<Seq<char>>)
    requires
        ls.len() >= 1,
        newline_free(ls),
    ensures
        split_nl(join_nl(ls)) == ls,
    decreases ls.len(),
{
    if ls.len() == 1 {
        lemma_split_newline_free(ls[0]);
        assert(split_nl(ls[0]) =~= ls);
    } else {
        let init = ls.drop_last();
        assert(newline_free(init)) by {
            assert forall|i: int, j: int| 0 <= i < init.len() && 0 <= j < init[i].len() implies init[i][j]
                != '\n' by {
                assert(init[i] == ls[i]);
            }
        }
        lemma_split_join(init);
        let last = ls.last();
        assert(forall|j: int| 0 <= j < last.len() ==> last[j] != '\n') by {
            assert forall|j: int| 0 <= j < last.len() implies last[j] != '\n' by {
                assert(ls[ls.len() - 1][j] != '\n');
            }
        }
        lemma_split_append_line(join_nl(init), last);
        assert(init.push(last) =~= ls);
    }
}

/// A newline-free text splits into itself.
pub proof fn lemma_split_newline_free(s: Seq<char>)
    requires
        forall|j: int| 0 <= j < s.len() ==> s[j] != '\n',
    ensures
        split_nl(s) == seq![s],
    decreases s.len(),
{
    if s.len() > 0 {
        let d = s.drop_last();
        assert(forall|j: int| 0 <= j < d.len() ==> d[j] == s[j]);
        lemma_split_newline_free(d);
        assert(s.last() != '\n');
        assert(d.push(s.last()) =~= s);
        assert(split_nl(s) =~= seq![s]);
    } else {
        assert(s =~= Seq::<char>::empty());
    }
}

/// Appending a newline and a newline-free line adds that line as a new
/// piece.
pub proof fn lemma_split_append_line(s: Seq<char>, line: Seq<char>)
    requires
        forall|j: int| 0 <= j < line.len() ==> line[j] != '\n',
    ensures
        split_nl(s + seq!['\n'] + line) == split_nl(s).push(line),
    decreases line.len(),
{
    if line.len() == 0 {
        let t = s + seq!['\n'] + line;
        assert(t.drop_last() =~= s);
        assert(t.last() == '\n');
        assert(line =~= Seq::<char>::empty());
        assert(split_nl(t) == split_nl(s).push(Seq::<char>::empty()));
    } else {
        let d = line.drop_last();
        assert(forall|j: int| 0 <= j < d.len() ==> d[j] == line[j]);
        lemma_split_append_line(s, d);
        let t = s + seq!['\n'] + line;
        assert(t.drop_last() =~= s + seq!['\n'] + d);
        assert(t.last() == line.last());
        assert(line.last() != '\n');
        let r = split_nl(s + seq!['\n'] + d);
        assert(r == split_nl(s).push(d));
        assert(split_nl(t) == r.update(r.len() - 1, r.last().push(line.last())));
        assert(d.push(line.last()) =~= line);
        assert(split_nl(t) =~= split_nl(s).push(line));
    }
}

/// The views of a list of character vectors.
pub open spec fn lines_view(v: Seq<Vec<char>>) -> Seq<Seq<char>> {
    v.map_values(|l: Vec<char>| l@)
}

/// `cs` split at every newline (the exec side of [`split_nl`]).
pub fn split_lines(cs: &[char]) -> (lines: Vec<Vec<char>>)
    ensures
        lines_view(lines@) == split_nl(cs@),
{
    let mut lines: Vec<Vec<char>> = Vec::new();
    let mut cur: Vec<char> = Vec::new();
    let mut i: usize = 0;
    assert(cs@.take(0) =~= Seq::<char>::empty());
    assert(lines_view(lines@).push(cur@) =~= split_nl(cs@.take(0)));
    while i < cs.len()
        invariant
            i <= cs@.len(),
            lines_view(lines@).push(cur@) == split_nl(cs@.take(i as int)),
        decreases cs@.len() - i,
    {
        let c = cs[i];
        let ghost before = lines_view(lines@);
        let ghost cur0 = cur@;
        assert(cs@.take(i + 1).drop_last() =~= cs@.take(i as int));
        assert(cs@.take(i + 1).last() == c);
        if c == '\n' {
            let done = cur;
            lines.push(done);
            cur = Vec::new();
            assert(lines_view(lines@) =~= before.push(cur0));
            assert(lines_view(lines@).push(cur@) =~= split_nl(cs@.take(i + 1)));
        } else {
            cur.push(c);
            assert(lines_view(lines@).push(cur@) =~= before.push(cur0).update(
                before.len() as int,
                cur0.push(c),
            ));
        }
        i = i + 1;
    }
    assert(cs@.take(cs@.len() as int) =~= cs@);
    let ghost before = lines_view(lines@);
    lines.push(cur);
    assert(lines_view(lines@) =~= before.push(cur@));
    lines
}

} // verus!
