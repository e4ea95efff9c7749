//! What the rule needs of `str`: trimming, prefix tests and splitting into lines.
//!
//! Each operation here is the standard library's own, reached through a small
//! trusted wrapper whose contract restates the documented behaviour over the
//! characters of the string.
use vstd::prelude::*;

verus! {

/// Unicode `White_Space` (PropList.txt), the set that `char::is_whitespace`
/// and `str::trim` use.
pub open spec fn is_white_space(c: char) -> bool {
    let u = c as u32;
    ||| 0x09 <= u <= 0x0D
    ||| u == 0x20
    ||| u == 0x85
    ||| u == 0xA0
    ||| u == 0x1680
    ||| 0x2000 <= u <= 0x200A
    ||| u == 0x2028
    ||| u == 0x2029
    ||| u == 0x202F
    ||| u == 0x205F
    ||| u == 0x3000
}

/// `s` without its leading white space.
pub open spec fn trim_start_chars(s: Seq<char>) -> Seq<char>
    decreases s.len(),
{
    if s.len() > 0 && is_white_space(s[0]) {
        trim_start_chars(s.drop_first())
    } else {
        s
    }
}

/// `s` without its trailing white space.
pub open spec fn trim_end_chars(s: Seq<char>) -> Seq<char>
    decreases s.len(),
{
    if s.len() > 0 && is_white_space(s.last()) {
        trim_end_chars(s.drop_last())
    } else {
        s
    }
}

/// `s` without leading and trailing white space.
pub open spec fn trim_chars(s: Seq<char>) -> Seq<char> {
    trim_end_chars(trim_start_chars(s))
}

/// `s` with every leading copy of `pat` removed, one after another.
pub open spec fn strip_repeated(s: Seq<char>, pat: Seq<char>) -> Seq<char>
    decreases s.len(),
{
    if pat.len() > 0 && pat.is_prefix_of(s) {
        strip_repeated(s.skip(pat.len() as int), pat)
    } else {
        s
    }
}

/// Index of the first `'\n'` in `s`, or `s.len()` when there is none.
pub open spec fn line_end(s: Seq<char>) -> nat
    decreases s.len(),
{
    if s.len() == 0 || s[0] == '\n' {
        0
    } else {
        1 + line_end(s.drop_first())
    }
}

/// A line that ended in `"\r\n"` loses its `'\r'` too.
pub open spec fn strip_carriage_return(line: Seq<char>) -> Seq<char> {
    if line.len() > 0 && line.last() == '\r' {
        line.drop_last()
    } else {
        line
    }
}

/// The lines of `s` as `str::lines` splits them: at each `'\n'` (dropping a `'\r'`
/// just before it); the last line needs no terminator, and a final terminator
/// does not start an empty line.
pub open spec fn split_lines(s: Seq<char>) -> Seq<Seq<char>>
    decreases s.len(),
{
    if s.len() == 0 {
        seq![]
    } else {
        let e = line_end(s);
        if e >= s.len() {
            seq![s]
        } else {
            seq![strip_carriage_return(s.take(e as int))] + split_lines(s.skip(e as int + 1))
        }
    }
}

/// Leading white space does not survive `trim_start_chars`.
pub proof fn law_trim_start_drops_white_space(w: Seq<char>, r: Seq<char>)
    requires
        forall|i: int| 0 <= i < w.len() ==> is_white_space(#[trigger] w[i]),
    ensures
        trim_start_chars(w + r) == trim_start_chars(r),
    decreases w.len(),
{
    if w.len() > 0 {
        assert((w + r)[0] == w[0]);
        assert((w + r).drop_first() =~= w.drop_first() + r);
        law_trim_start_drops_white_space(w.drop_first(), r);
    } else {
        assert(w + r =~= r);
    }
}

/// `trim_end_chars` only removes white space at the end: a prefix that ends in
/// something other than white space survives it.
pub proof fn law_trim_end_keeps_a_solid_prefix(q: Seq<char>, s: Seq<char>)
    requires
        q.len() > 0,
        !is_white_space(q.last()),
    ensures
        q.is_prefix_of(trim_end_chars(q + s)),
    decreases s.len(),
{
    if s.len() > 0 {
        if is_white_space((q + s).last()) {
            assert((q + s).drop_last() =~= q + s.drop_last());
            law_trim_end_keeps_a_solid_prefix(q, s.drop_last());
        } else {
            assert((q + s).subrange(0, q.len() as int) =~= q);
        }
    } else {
        assert(q + s =~= q);
        assert(q.subrange(0, q.len() as int) =~= q);
    }
}

/// Stripping a pattern from a text that starts with it is stripping it from the rest.
pub proof fn law_strip_repeated_drops_a_leading_copy(p: Seq<char>, r: Seq<char>)
    requires
        p.len() > 0,
    ensures
        strip_repeated(p + r, p) == strip_repeated(r, p),
{
    assert((p + r).subrange(0, p.len() as int) =~= p);
    assert((p + r).skip(p.len() as int) =~= r);
}

/// A text that differs from the pattern at some position within both is left alone.
pub proof fn law_strip_repeated_stops_at_a_mismatch(s: Seq<char>, p: Seq<char>, i: int)
    requires
        0 <= i < s.len(),
        i < p.len(),
        s[i] != p[i],
    ensures
        strip_repeated(s, p) == s,
{
    if p.is_prefix_of(s) {
        assert(s.subrange(0, p.len() as int)[i] == s[i]);
    }
}

/// A line without `'\n'` ends where its terminator stands.
proof fn lemma_line_end(l: Seq<char>, rest: Seq<char>)
    requires
        forall|i: int| 0 <= i < l.len() ==> l[i] != '\n',
    ensures
        line_end(l.push('\n') + rest) == l.len(),
    decreases l.len(),
{
    let s = l.push('\n') + rest;
    if l.len() > 0 {
        assert(s[0] == l[0]);
        assert(s.drop_first() =~= l.drop_first().push('\n') + rest);
        lemma_line_end(l.drop_first(), rest);
    } else {
        assert(s[0] == '\n');
    }
}

/// A text without `'\n'` has no terminator to reach.
proof fn lemma_line_end_none(l: Seq<char>)
    requires
        forall|i: int| 0 <= i < l.len() ==> l[i] != '\n',
    ensures
        line_end(l) == l.len(),
    decreases l.len(),
{
    if l.len() > 0 {
        lemma_line_end_none(l.drop_first());
    }
}

/// How a text splits into lines: no text has no lines; a text without `'\n'` is
/// one line; otherwise the first line is everything before the first `'\n'`
/// (without a `'\r'` just before it), and the lines after it are the lines of
/// the rest.
pub proof fn law_lines_split_at_each_newline(l: Seq<char>, rest: Seq<char>)
    requires
        forall|i: int| 0 <= i < l.len() ==> l[i] != '\n',
    ensures
        split_lines(Seq::<char>::empty()) == Seq::<Seq<char>>::empty(),
        l.len() > 0 ==> split_lines(l) == seq![l],
        (l.len() == 0 || l.last() != '\r') ==> split_lines(l.push('\n') + rest) == seq![l]
            + split_lines(rest),
        split_lines(l.push('\r').push('\n') + rest) == seq![l] + split_lines(rest),
{
    lemma_line_end_none(l);
    let s = l.push('\n') + rest;
    lemma_line_end(l, rest);
    assert(s.take(l.len() as int) =~= l);
    assert(s.skip(l.len() as int + 1) =~= rest);
    let m = l.push('\r');
    assert forall|i: int| 0 <= i < m.len() implies m[i] != '\n' by {
        if i < l.len() {
            assert(m[i] == l[i]);
        }
    }
    let s2 = m.push('\n') + rest;
    lemma_line_end(m, rest);
    assert(s2.take(m.len() as int) =~= m);
    assert(m.drop_last() =~= l);
    assert(s2.skip(m.len() as int + 1) =~= rest);
    assert(l.push('\r').push('\n') + rest == s2);
}

/// `trim_chars` removes exactly the white space at both ends: the result is a
/// stretch of the text with only white space before and after it, and when it
/// is not empty it starts and ends with something other than white space.
pub proof fn law_trim_removes_only_outer_white_space(s: Seq<char>)
    ensures
        exists|i: int, j: int|
            {
                &&& 0 <= i <= j <= s.len()
                &&& trim_chars(s) == s.subrange(i, j)
                &&& forall|k: int| 0 <= k < i ==> is_white_space(#[trigger] s[k])
                &&& forall|k: int| j <= k < s.len() ==> is_white_space(#[trigger] s[k])
                &&& i < j ==> !is_white_space(s[i]) && !is_white_space(s[j - 1])
            },
{
    let i = lemma_trim_start_index(s);
    let u = s.skip(i);
    let j0 = lemma_trim_end_index(u);
    let j = i + j0;
    assert(trim_chars(s) =~= s.subrange(i, j));
    assert forall|k: int| j <= k < s.len() implies is_white_space(#[trigger] s[k]) by {
        assert(s[k] == u[k - i]);
    }
    if i < j {
        assert(s[j - 1] == u[j0 - 1]);
    }
}

proof fn lemma_trim_start_index(s: Seq<char>) -> (i: int)
    ensures
        0 <= i <= s.len(),
        trim_start_chars(s) == s.skip(i),
        forall|k: int| 0 <= k < i ==> is_white_space(#[trigger] s[k]),
        i < s.len() ==> !is_white_space(s[i]),
    decreases s.len(),
{
    if s.len() > 0 && is_white_space(s[0]) {
        let i0 = lemma_trim_start_index(s.drop_first());
        assert(s.drop_first().skip(i0) =~= s.skip(i0 + 1));
        assert forall|k: int| 0 <= k < i0 + 1 implies is_white_space(#[trigger] s[k]) by {
            if k > 0 {
                assert(s[k] == s.drop_first()[k - 1]);
            }
        }
        i0 + 1
    } else {
        assert(s.skip(0) =~= s);
        0
    }
}

proof fn lemma_trim_end_index(s: Seq<char>) -> (j: int)
    ensures
        0 <= j <= s.len(),
        trim_end_chars(s) == s.take(j),
        forall|k: int| j <= k < s.len() ==> is_white_space(#[trigger] s[k]),
        j > 0 ==> !is_white_space(s[j - 1]),
    decreases s.len(),
{
    if s.len() > 0 && is_white_space(s.last()) {
        let j0 = lemma_trim_end_index(s.drop_last());
        assert(s.drop_last().take(j0) =~= s.take(j0));
        assert forall|k: int| j0 <= k < s.len() implies is_white_space(#[trigger] s[k]) by {
            if k < s.len() - 1 {
                assert(s[k] == s.drop_last()[k]);
            }
        }
        if j0 > 0 {
            assert(s[j0 - 1] == s.drop_last()[j0 - 1]);
        }
        j0
    } else {
        assert(s.take(s.len() as int) =~= s);
        s.len() as int
    }
}

/// Tab, line feed, carriage return and space are white space; the characters
/// that mark comments and fences are not.
pub proof fn law_white_space_examples()
    ensures
        is_white_space('\t') && is_white_space('\n') && is_white_space('\r') && is_white_space(' '),
        is_white_space('\u{a0}') && is_white_space('\u{3000}'),
        !is_white_space('/') && !is_white_space('!') && !is_white_space('`') && !is_white_space('#'),
        !is_white_space('a') && !is_white_space('\u{200b}'),
{
}

/// The characters of each string slice.
pub open spec fn texts(ls: Seq<&str>) -> Seq<Seq<char>> {
    ls.map_values(|l: &str| l@)
}

/// `str::trim`: the slice without leading and trailing Unicode white space.
#[verifier::external_body]
pub(crate) fn trim<'a>(s: &'a str) -> (r: &'a str)
    ensures
        r@ == trim_chars(s@),
{
    s.trim()
}

/// `str::trim_start_matches` with a non-empty string pattern: every prefix that
/// matches `pat` is removed, repeatedly.
#[verifier::external_body]
pub(crate) fn trim_start_matches<'a>(s: &'a str, pat: &str) -> (r: &'a str)
    requires
        pat@.len() > 0,
    ensures
        r@ == strip_repeated(s@, pat@),
{
    s.trim_start_matches(pat)
}

/// `str::starts_with` with a string pattern: whether `pat` is a prefix of `s`.
#[verifier::external_body]
pub(crate) fn has_prefix(s: &str, pat: &str) -> (r: bool)
    ensures
        r == pat@.is_prefix_of(s@),
{
    s.starts_with(pat)
}

/// `str::lines`, collected: the lines of `s` without their terminators.
#[verifier::external_body]
pub(crate) fn lines(s: &str) -> (r: Vec<&str>)
    ensures
        texts(r@) == split_lines(s@),
{
    s.lines().collect()
}

/// `texts` keeps the lines in order, one text per slice.
pub proof fn law_texts_are_the_lines(ls: Seq<&str>)
    ensures
        texts(ls).len() == ls.len(),
        forall|i: int| 0 <= i < ls.len() ==> #[trigger] texts(ls)[i] == ls[i]@,
{
}

} // verus!
