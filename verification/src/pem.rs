//! Normalising PEM text that was pasted, quoted or escaped on its way here.
//!
//! A key that travelled through an environment variable or a configuration
//! file often arrives with a byte-order mark, wrapped in quotes, with its line
//! breaks written as `\n`, or with carriage returns. [`normalize_pem`] undoes
//! all of that and keeps only the armoured block where one is present.

use vstd::prelude::*;

verus! {

/// The byte-order mark.
pub const BOM: char = '\u{feff}';

/// The line feed, the only line break that the normal form knows.
pub const LF: char = '\n';

/// The carriage return.
pub const CR: char = '\r';

/// The backslash that opens an escaped line break.
pub const BACKSLASH: char = '\\';

// ---------------------------------------------------------------------------
// The normal form, stated on sequences of characters
// ---------------------------------------------------------------------------

/// `s` without the byte-order marks it starts with.
pub open spec fn strip_bom(s: Seq<char>) -> Seq<char>
    decreases s.len(),
{
    if s.len() > 0 && s[0] == BOM {
        strip_bom(s.skip(1))
    } else {
        s
    }
}

/// Whether `c` opens and closes a quoted value.
pub open spec fn is_quote(c: char) -> bool {
    c == '"' || c == '\''
}

/// `s` without the pair of equal quotes around it, if there is one.
pub open spec fn strip_quotes(s: Seq<char>) -> Seq<char> {
    if s.len() >= 2 && is_quote(s.first()) && s.first() == s.last() {
        s.subrange(1, s.len() - 1)
    } else {
        s
    }
}

/// How many characters of the escaped line break that `s` starts with: 4 for
/// `\r\n`, 2 for `\n` or `\r` (each written with a backslash), 0 if `s` starts
/// with none.
pub open spec fn escaped_break_len(s: Seq<char>) -> int {
    if s.len() >= 4 && s[0] == BACKSLASH && s[1] == 'r' && s[2] == BACKSLASH && s[3] == 'n' {
        4
    } else if s.len() >= 2 && s[0] == BACKSLASH && (s[1] == 'n' || s[1] == 'r') {
        2
    } else {
        0
    }
}

/// `s` with every escaped line break, read from the left, replaced by a line feed.
pub open spec fn unescape_breaks(s: Seq<char>) -> Seq<char>
    decreases s.len(),
{
    if s.len() == 0 {
        s
    } else if escaped_break_len(s) > 0 {
        seq![LF] + unescape_breaks(s.skip(escaped_break_len(s)))
    } else {
        seq![s[0]] + unescape_breaks(s.skip(1))
    }
}

/// How many characters of the carriage-return line break that `s` starts with:
/// 2 for CR LF, 1 for a lone CR, 0 if `s` does not start with a CR.
pub open spec fn cr_break_len(s: Seq<char>) -> int {
    if s.len() >= 2 && s[0] == CR && s[1] == LF {
        2
    } else if s.len() >= 1 && s[0] == CR {
        1
    } else {
        0
    }
}

/// `s` with every CR LF and every lone CR replaced by a line feed.
pub open spec fn unify_breaks(s: Seq<char>) -> Seq<char>
    decreases s.len(),
{
    if s.len() == 0 {
        s
    } else if cr_break_len(s) > 0 {
        seq![LF] + unify_breaks(s.skip(cr_break_len(s)))
    } else {
        seq![s[0]] + unify_breaks(s.skip(1))
    }
}

/// The length of the first line of `s`: the number of characters before its
/// first line feed, or all of them.
pub open spec fn line_end(s: Seq<char>) -> nat
    decreases s.len(),
{
    if s.len() == 0 || s[0] == LF {
        0
    } else {
        1 + line_end(s.skip(1))
    }
}

/// The lines of `s`: the pieces between its line feeds, one more than there are
/// line feeds.
pub open spec fn split_lines(s: Seq<char>) -> Seq<Seq<char>>
    decreases s.len(),
{
    let k = line_end(s) as int;
    if k >= s.len() {
        seq![s]
    } else {
        seq![s.take(k)] + split_lines(s.skip(k + 1))
    }
}

/// Whether `c` is white space, by the Unicode property `White_Space`.
pub open spec fn is_space(c: char) -> bool {
    let u = c as u32;
    ||| 0x09 <= u <= 0x0D
    ||| u == 0x20
    ||| u == 0x85
    ||| u == 0xA0
    ||| u == 0x1680
    ||| 0x2000 <= u <= 0x200A
    ||| u == 0x2028
    ||| u == 0x2029
    ||| u == 0x202F
    ||| u == 0x205F
    ||| u == 0x3000
}

/// `s` without the white space it starts with.
pub open spec fn trim_start(s: Seq<char>) -> Seq<char>
    decreases s.len(),
{
    if s.len() > 0 && is_space(s.first()) {
        trim_start(s.skip(1))
    } else {
        s
    }
}

/// `s` without the white space it ends with.
pub open spec fn trim_end(s: Seq<char>) -> Seq<char>
    decreases s.len(),
{
    if s.len() > 0 && is_space(s.last()) {
        trim_end(s.drop_last())
    } else {
        s
    }
}

/// `s` without white space at either end.
pub open spec fn trim(s: Seq<char>) -> Seq<char> {
    trim_end(trim_start(s))
}

/// Each line trimmed.
pub open spec fn trim_all(lines: Seq<Seq<char>>) -> Seq<Seq<char>> {
    Seq::new(lines.len(), |i: int| trim(lines[i]))
}

/// The five dashes that close a boundary line.
pub open spec fn dashes() -> Seq<char> {
    seq!['-', '-', '-', '-', '-']
}

/// What a line that opens an armoured block starts with.
pub open spec fn begin_word() -> Seq<char> {
    dashes() + seq!['B', 'E', 'G', 'I', 'N', ' ']
}

/// What a line that closes an armoured block starts with.
pub open spec fn end_word() -> Seq<char> {
    dashes() + seq!['E', 'N', 'D', ' ']
}

/// Whether `line` is a boundary line that starts with `word`.
pub open spec fn is_boundary(line: Seq<char>, word: Seq<char>) -> bool {
    word.is_prefix_of(line) && dashes().is_suffix_of(line)
}

/// The index of the first boundary line for `word` at or after `from`.
pub open spec fn first_boundary(lines: Seq<Seq<char>>, from: int, word: Seq<char>) -> Option<int>
    decreases lines.len() - from,
{
    if from < 0 || from >= lines.len() {
        None
    } else if is_boundary(lines[from], word) {
        Some(from)
    } else {
        first_boundary(lines, from + 1, word)
    }
}

/// The lines that are not empty, in their order.
pub open spec fn non_empty(lines: Seq<Seq<char>>) -> Seq<Seq<char>>
    decreases lines.len(),
{
    if lines.len() == 0 {
        lines
    } else if lines.last().len() > 0 {
        non_empty(lines.drop_last()).push(lines.last())
    } else {
        non_empty(lines.drop_last())
    }
}

/// The lines that the normal form keeps: from the first opening boundary to
/// the first closing boundary after it, both included; without such a pair,
/// every line that is not empty.
pub open spec fn select_lines(lines: Seq<Seq<char>>) -> Seq<Seq<char>> {
    match first_boundary(lines, 0, begin_word()) {
        Some(b) => match first_boundary(lines, b + 1, end_word()) {
            Some(e) => lines.subrange(b, e + 1),
            None => non_empty(lines),
        },
        None => non_empty(lines),
    }
}

/// The lines with one line feed between each two.
pub open spec fn join_lines(lines: Seq<Seq<char>>) -> Seq<char>
    decreases lines.len(),
{
    if lines.len() == 0 {
        Seq::empty()
    } else if lines.len() == 1 {
        lines[0]
    } else {
        join_lines(lines.drop_last()) + seq![LF] + lines.last()
    }
}

/// The normal form of PEM text: byte-order marks and wrapping quotes removed,
/// every kind of line break turned into a line feed, each line trimmed, only
/// the armoured block kept where there is one, and a line feed at the end.
pub open spec fn normalized_pem(raw: Seq<char>) -> Seq<char> {
    let text = unify_breaks(unescape_breaks(strip_quotes(strip_bom(raw))));
    join_lines(select_lines(trim_all(split_lines(text)))) + seq![LF]
}

/// The views of a vector of lines.
pub open spec fn views(lines: Seq<Vec<char>>) -> Seq<Seq<char>> {
    Seq::new(lines.len(), |i: int| lines[i]@)
}

// ---------------------------------------------------------------------------
// What holds of the first line
// ---------------------------------------------------------------------------

/// The first line ends within the text, holds no line feed, and is followed
/// by a line feed unless it is the whole text.
pub proof fn lemma_first_line(s: Seq<char>)
    ensures
        line_end(s) <= s.len(),
        forall|j: int| 0 <= j < line_end(s) ==> s[j] != LF,
        line_end(s) < s.len() ==> s[line_end(s) as int] == LF,
    decreases s.len(),
{
    if s.len() > 0 && s[0] != LF {
        let t = s.skip(1);
        lemma_first_line(t);
        assert forall|j: int| 0 <= j < line_end(s) implies s[j] != LF by {
            if j > 0 {
                assert(s[j] == t[j - 1]);
            }
        }
        assert(line_end(t) < t.len() ==> t[line_end(t) as int] == s[line_end(s) as int]);
    }
}

// ---------------------------------------------------------------------------
// Characters in and out of strings
// ---------------------------------------------------------------------------

/// The characters of a string, one by one.
pub fn chars_of(s: &str) -> (out: Vec<char>)
    ensures
        out@ == s@,
{
    let mut out: Vec<char> = Vec::new();
    for c in it: s.chars()
        invariant
            out@ == it.seq().take(it.index() as int),
            it.seq() == s@,
    {
        out.push(c);
    }
    out
}

/// Appends one character to a string. Calls `String::push`, which the standard
/// library documents to do exactly that.
#[verifier::external_body]
fn push_char(s: &mut String, c: char)
    ensures
        final(s)@ == old(s)@.push(c),
{
    s.push(c)
}

/// The string made of the given characters.
pub fn string_of(chars: &Vec<char>) -> (out: String)
    ensures
        out@ == chars@,
{
    let mut out = String::new();
    let mut i: usize = 0;
    while i < chars.len()
        invariant
            i <= chars.len(),
            out@ == chars@.take(i as int),
        decreases chars.len() - i,
    {
        push_char(&mut out, chars[i]);
        proof {
            assert(chars@.take(i as int).push(chars@[i as int]) == chars@.take(i + 1));
        }
        i += 1;
    }
    proof {
        assert(chars@.take(chars.len() as int) == chars@);
    }
    out
}

/// Whether `c` is white space.
pub fn is_whitespace(c: char) -> (b: bool)
    ensures
        b == is_space(c),
{
    let u: u32 = c as u32;
    (0x09 <= u && u <= 0x0D) || u == 0x20 || u == 0x85 || u == 0xA0 || u == 0x1680 || (0x2000 <= u
        && u <= 0x200A) || u == 0x2028 || u == 0x2029 || u == 0x202F || u == 0x205F || u == 0x3000
}

/// The characters of `s` from `lo` up to `hi`.
fn copy_range(s: &Vec<char>, lo: usize, hi: usize) -> (out: Vec<char>)
    requires
        lo <= hi <= s.len(),
    ensures
        out@ == s@.subrange(lo as int, hi as int),
{
    let mut out: Vec<char> = Vec::new();
    let mut i: usize = lo;
    while i < hi
        invariant
            lo <= i <= hi <= s.len(),
            out@ == s@.subrange(lo as int, i as int),
        decreases hi - i,
    {
        out.push(s[i]);
        proof {
            assert(s@.subrange(lo as int, i as int).push(s@[i as int]) == s@.subrange(
                lo as int,
                i + 1,
            ));
        }
        i += 1;
    }
    out
}

// ---------------------------------------------------------------------------
// The passes
// ---------------------------------------------------------------------------

/// Removes leading byte-order marks, then one pair of wrapping quotes.
fn strip_wrapping(s: &Vec<char>) -> (out: Vec<char>)
    ensures
        out@ == strip_quotes(strip_bom(s@)),
{
    let n = s.len();
    let mut lo: usize = 0;
    assert(s@.skip(0) == s@);
    while lo < n && s[lo] == BOM
        invariant
            lo <= n == s.len(),
            strip_bom(s@) == strip_bom(s@.skip(lo as int)),
        decreases n - lo,
    {
        proof {
            assert(s@.skip(lo as int).skip(1) == s@.skip(lo + 1));
        }
        lo += 1;
    }
    let ghost body = s@.skip(lo as int);
    assert(strip_bom(s@) == body);
    assert(body == s@.subrange(lo as int, n as int));
    if n - lo >= 2 && (s[lo] == '"' || s[lo] == '\'') && s[lo] == s[n - 1] {
        let out = copy_range(s, lo + 1, n - 1);
        proof {
            assert(body.subrange(1, body.len() - 1) == s@.subrange(lo + 1, n - 1));
        }
        out
    } else {
        copy_range(s, lo, n)
    }
}

/// Replaces each escaped line break by a line feed.
fn unescape(s: &Vec<char>) -> (out: Vec<char>)
    ensures
        out@ == unescape_breaks(s@),
{
    let n = s.len();
    let mut out: Vec<char> = Vec::new();
    let mut i: usize = 0;
    assert(s@.skip(0) == s@ && out@ + s@ == s@);
    while i < n
        invariant
            i <= n == s.len(),
            unescape_breaks(s@) == out@ + unescape_breaks(s@.skip(i as int)),
        decreases n - i,
    {
        let ghost rest = s@.skip(i as int);
        let ghost before = out@;
        let step: usize = if s[i] == BACKSLASH && n - i >= 2 && (s[i + 1] == 'n' || s[i + 1]
            == 'r') {
            if n - i >= 4 && s[i + 1] == 'r' && s[i + 2] == BACKSLASH && s[i + 3] == 'n' {
                4
            } else {
                2
            }
        } else {
            0
        };
        assert(step == escaped_break_len(rest));
        if step > 0 {
            out.push(LF);
            proof {
                assert(rest.skip(step as int) == s@.skip(i + step));
                assert(before + (seq![LF] + unescape_breaks(rest.skip(step as int))) == before.push(
                    LF,
                ) + unescape_breaks(rest.skip(step as int)));
            }
            i += step;
        } else {
            out.push(s[i]);
            proof {
                assert(rest.skip(1) == s@.skip(i + 1));
                assert(before + (seq![rest[0]] + unescape_breaks(rest.skip(1))) == before.push(
                    rest[0],
                ) + unescape_breaks(rest.skip(1)));
            }
            i += 1;
        }
    }
    proof {
        assert(out@ + Seq::<char>::empty() == out@);
    }
    out
}

/// Replaces each CR LF and each lone CR by a line feed.
fn unify(s: &Vec<char>) -> (out: Vec<char>)
    ensures
        out@ == unify_breaks(s@),
{
    let n = s.len();
    let mut out: Vec<char> = Vec::new();
    let mut i: usize = 0;
    assert(s@.skip(0) == s@ && out@ + s@ == s@);
    while i < n
        invariant
            i <= n == s.len(),
            unify_breaks(s@) == out@ + unify_breaks(s@.skip(i as int)),
        decreases n - i,
    {
        let ghost rest = s@.skip(i as int);
        let ghost before = out@;
        let step: usize = if s[i] == CR {
            if n - i >= 2 && s[i + 1] == LF {
                2
            } else {
                1
            }
        } else {
            0
        };
        assert(step == cr_break_len(rest));
        if step > 0 {
            out.push(LF);
            proof {
                assert(rest.skip(step as int) == s@.skip(i + step));
                assert(before + (seq![LF] + unify_breaks(rest.skip(step as int))) == before.push(
                    LF,
                ) + unify_breaks(rest.skip(step as int)));
            }
            i += step;
        } else {
            out.push(s[i]);
            proof {
                assert(rest.skip(1) == s@.skip(i + 1));
                assert(before + (seq![rest[0]] + unify_breaks(rest.skip(1))) == before.push(
                    rest[0],
                ) + unify_breaks(rest.skip(1)));
            }
            i += 1;
        }
    }
    proof {
        assert(out@ + Seq::<char>::empty() == out@);
    }
    out
}

/// The part of `s` between `lo` and `hi`, trimmed.
fn trim_range(s: &Vec<char>, lo: usize, hi: usize) -> (out: Vec<char>)
    requires
        lo <= hi <= s.len(),
    ensures
        out@ == trim(s@.subrange(lo as int, hi as int)),
{
    let ghost whole = s@.subrange(lo as int, hi as int);
    let mut a: usize = lo;
    while a < hi && is_whitespace(s[a])
        invariant
            lo <= a <= hi <= s.len(),
            trim_start(whole) == trim_start(s@.subrange(a as int, hi as int)),
        decreases hi - a,
    {
        proof {
            assert(s@.subrange(a as int, hi as int).skip(1) == s@.subrange(a + 1, hi as int));
        }
        a += 1;
    }
    assert(trim_start(whole) == s@.subrange(a as int, hi as int));
    let mut b: usize = hi;
    while b > a && is_whitespace(s[b - 1])
        invariant
            a <= b <= hi <= s.len(),
            trim(whole) == trim_end(s@.subrange(a as int, b as int)),
        decreases b - a,
    {
        proof {
            assert(s@.subrange(a as int, b as int).drop_last() == s@.subrange(a as int, b - 1));
        }
        b -= 1;
    }
    copy_range(s, a, b)
}

/// A prefix without a line feed, followed by a line feed or by the end, is the
/// first line.
proof fn lemma_line_end(s: Seq<char>, k: int)
    requires
        0 <= k <= s.len(),
        forall|j: int| 0 <= j < k ==> s[j] != LF,
        k == s.len() || s[k] == LF,
    ensures
        line_end(s) == k,
{
    lemma_first_line(s);
}

/// Splits at the line feeds and trims each line.
fn split_trimmed(s: &Vec<char>) -> (lines: Vec<Vec<char>>)
    ensures
        views(lines@) == trim_all(split_lines(s@)),
{
    let n = s.len();
    let mut lines: Vec<Vec<char>> = Vec::new();
    let mut start: usize = 0;
    let mut i: usize = 0;
    assert(s@.skip(0) == s@);
    assert(views(lines@) + trim_all(split_lines(s@)) == trim_all(split_lines(s@)));
    while i < n
        invariant
            start <= i <= n == s.len(),
            forall|j: int| start <= j < i ==> s@[j] != LF,
            trim_all(split_lines(s@)) == views(lines@) + trim_all(
                split_lines(s@.skip(start as int)),
            ),
        decreases n - i,
    {
        if s[i] == LF {
            let line = trim_range(s, start, i);
            proof {
                let rest = s@.skip(start as int);
                let k = i - start;
                assert forall|j: int| 0 <= j < k implies rest[j] != LF by {
                    assert(rest[j] == s@[start + j]);
                }
                lemma_line_end(rest, k);
                assert(rest.take(k) == s@.subrange(start as int, i as int));
                assert(rest.skip(k + 1) == s@.skip(i + 1));
                let tail = split_lines(s@.skip(i + 1));
                assert(split_lines(rest) == seq![rest.take(k)] + tail);
                assert(trim_all(seq![rest.take(k)] + tail) == seq![line@] + trim_all(tail));
                assert(views(lines@.push(line)) == views(lines@).push(line@));
                assert(views(lines@) + (seq![line@] + trim_all(tail)) == views(lines@).push(line@)
                    + trim_all(tail));
            }
            lines.push(line);
            start = i + 1;
        }
        i += 1;
    }
    let line = trim_range(s, start, n);
    proof {
        let rest = s@.skip(start as int);
        assert forall|j: int| 0 <= j < n - start implies rest[j] != LF by {
            assert(rest[j] == s@[start + j]);
        }
        lemma_line_end(rest, n - start);
        assert(rest == s@.subrange(start as int, n as int));
        assert(trim_all(seq![rest]) == seq![line@]);
        assert(views(lines@.push(line)) == views(lines@).push(line@));
        assert(views(lines@) + seq![line@] == views(lines@).push(line@));
    }
    lines.push(line);
    lines
}

/// Whether `line` starts with `word`.
fn has_prefix(line: &Vec<char>, word: &Vec<char>) -> (b: bool)
    ensures
        b == word@.is_prefix_of(line@),
{
    if word.len() > line.len() {
        return false;
    }
    let mut i: usize = 0;
    while i < word.len()
        invariant
            i <= word.len() <= line.len(),
            forall|j: int| 0 <= j < i ==> word@[j] == line@[j],
        decreases word.len() - i,
    {
        if word[i] != line[i] {
            proof {
                assert(line@.subrange(0, word.len() as int)[i as int] == line@[i as int]);
            }
            return false;
        }
        i += 1;
    }
    proof {
        assert(word@ =~= line@.subrange(0, word.len() as int));
    }
    true
}

/// Whether `line` ends with `word`.
fn has_suffix(line: &Vec<char>, word: &Vec<char>) -> (b: bool)
    ensures
        b == word@.is_suffix_of(line@),
{
    if word.len() > line.len() {
        return false;
    }
    let off: usize = line.len() - word.len();
    let mut i: usize = 0;
    while i < word.len()
        invariant
            i <= word.len() <= line.len(),
            off == line.len() - word.len(),
            forall|j: int| 0 <= j < i ==> word@[j] == line@[off + j],
        decreases word.len() - i,
    {
        if word[i] != line[off + i] {
            proof {
                assert(line@.subrange(off as int, line.len() as int)[i as int] == line@[off + i]);
            }
            return false;
        }
        i += 1;
    }
    proof {
        assert(word@ =~= line@.subrange(off as int, line.len() as int));
    }
    true
}

/// Finds the first boundary line for `word` at or after `from`.
fn find_boundary(lines: &Vec<Vec<char>>, from: usize, word: &Vec<char>, closing: &Vec<char>) -> (res:
    Option<usize>)
    requires
        closing@ == dashes(),
    ensures
        match res {
            Some(i) => from <= i < lines.len() && first_boundary(
                views(lines@),
                from as int,
                word@,
            ) == Some(i as int),
            None => first_boundary(views(lines@), from as int, word@) is None,
        },
{
    let mut i: usize = from;
    while i < lines.len()
        invariant
            from <= i,
            closing@ == dashes(),
            first_boundary(views(lines@), from as int, word@) == first_boundary(
                views(lines@),
                i as int,
                word@,
            ),
        decreases lines.len() - i,
    {
        if has_prefix(&lines[i], word) && has_suffix(&lines[i], closing) {
            return Some(i);
        }
        i += 1;
    }
    None
}

/// Appends `line` to `out`, after a line feed unless it is the first line.
fn append_line(out: &mut Vec<char>, line: &Vec<char>, first: bool)
    ensures
        final(out)@ == if first {
            old(out)@ + line@
        } else {
            old(out)@ + seq![LF] + line@
        },
{
    if !first {
        out.push(LF);
    }
    let ghost base = out@;
    let mut i: usize = 0;
    assert(base + line@.take(0) == base);
    while i < line.len()
        invariant
            i <= line.len(),
            out@ == base + line@.take(i as int),
        decreases line.len() - i,
    {
        out.push(line[i]);
        proof {
            assert((base + line@.take(i as int)).push(line@[i as int]) == base + line@.take(i + 1));
        }
        i += 1;
    }
    proof {
        assert(line@.take(line.len() as int) == line@);
        assert(old(out)@.push(LF) == old(out)@ + seq![LF]);
    }
}

/// Joins the lines from `lo` up to `hi`.
fn join_range(lines: &Vec<Vec<char>>, lo: usize, hi: usize) -> (out: Vec<char>)
    requires
        lo <= hi <= lines.len(),
    ensures
        out@ == join_lines(views(lines@).subrange(lo as int, hi as int)),
{
    let mut out: Vec<char> = Vec::new();
    let mut i: usize = lo;
    while i < hi
        invariant
            lo <= i <= hi <= lines.len(),
            out@ == join_lines(views(lines@).subrange(lo as int, i as int)),
        decreases hi - i,
    {
        let ghost before = views(lines@).subrange(lo as int, i as int);
        let ghost after = views(lines@).subrange(lo as int, i + 1);
        append_line(&mut out, &lines[i], i == lo);
        proof {
            assert(after.drop_last() == before);
            assert(after.last() == lines@[i as int]@);
            assert(Seq::<char>::empty() + lines@[i as int]@ == lines@[i as int]@);
        }
        i += 1;
    }
    out
}

/// Joins the lines that are not empty.
fn join_non_empty(lines: &Vec<Vec<char>>) -> (out: Vec<char>)
    ensures
        out@ == join_lines(non_empty(views(lines@))),
{
    let mut out: Vec<char> = Vec::new();
    let mut first = true;
    let mut i: usize = 0;
    while i < lines.len()
        invariant
            i <= lines.len(),
            out@ == join_lines(non_empty(views(lines@).take(i as int))),
            first == (non_empty(views(lines@).take(i as int)).len() == 0),
        decreases lines.len() - i,
    {
        let ghost before = views(lines@).take(i as int);
        let ghost after = views(lines@).take(i + 1);
        proof {
            assert(after.drop_last() == before);
            assert(after.last() == lines@[i as int]@);
        }
        if lines[i].len() > 0 {
            append_line(&mut out, &lines[i], first);
            proof {
                let kept = non_empty(before).push(lines@[i as int]@);
                assert(non_empty(after) == kept);
                assert(kept.drop_last() == non_empty(before));
                assert(Seq::<char>::empty() + lines@[i as int]@ == lines@[i as int]@);
            }
            first = false;
        }
        i += 1;
    }
    proof {
        assert(views(lines@).take(lines.len() as int) == views(lines@));
    }
    out
}

/// Brings PEM text into its normal form.
///
/// Leading byte-order marks and one pair of wrapping quotes go. Line breaks
/// written as `\r\n`, `\n` or `\r` with backslashes, then CR LF and lone CR,
/// become line feeds. Each line is trimmed. Where a `-----BEGIN ` line is
/// followed by an `-----END ` line, only the lines from the one to the other
/// stay; otherwise every line that is not empty stays. The result ends with a
/// line feed.
pub fn normalize_pem(raw: &str) -> (out: String)
    ensures
        out@ == normalized_pem(raw@),
        out@.len() > 0 && out@.last() == LF,
{
    let text = unify(&unescape(&strip_wrapping(&chars_of(raw))));
    let lines = split_trimmed(&text);
    let closing = chars_of("-----");
    let begin = chars_of("-----BEGIN ");
    let end = chars_of("-----END ");
    proof {
        reveal_strlit("-----");
        reveal_strlit("-----BEGIN ");
        reveal_strlit("-----END ");
        assert(closing@ =~= dashes());
        assert(begin@ =~= begin_word());
        assert(end@ =~= end_word());
    }
    let mut joined = match find_boundary(&lines, 0, &begin, &closing) {
        Some(b) => match find_boundary(&lines, b + 1, &end, &closing) {
            Some(e) => join_range(&lines, b, e + 1),
            None => join_non_empty(&lines),
        },
        None => join_non_empty(&lines),
    };
    let ghost body = joined@;
    joined.push(LF);
    proof {
        assert(joined@ == body + seq![LF]);
    }
    string_of(&joined)
}

} // verus!
