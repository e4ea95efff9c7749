//! How the lines of a file body are classified and counted.
//!
//! A line's *kind* comes from its trimmed text. Inside a fenced example of a
//! doc comment (between two lines that start with three backticks once the doc
//! marker is gone), doc lines are example code, and so are the fence lines
//! themselves. Counts and runs are taken over these effective kinds.
use vstd::prelude::*;
use crate::kind::{Kind, fence_text, kind_of_bytes, law_kind_of_bytes_reads_the_markers, lemma_encode_utf8_empty};
use vstd::utf8::{encode_scalar, encode_utf8, has_width_1_encoding, has_width_2_encoding, has_width_3_encoding};
use crate::text::trim_chars;
use crate::kind::{all_white_space, law_backticks_after_the_marker_make_a_fence};

verus! {

/// The kind of a line, read from its trimmed text.
pub open spec fn line_kind(line: Seq<char>) -> Kind {
    kind_of_bytes(vstd::utf8::encode_utf8(trim_chars(line)))
}

/// A doc line that opens or closes a fenced example.
pub open spec fn is_fence_line(line: Seq<char>) -> bool {
    line_kind(line) == Kind::Doc && fence_text(trim_chars(line))
}

/// How many fence lines there are among the first `n` lines.
pub open spec fn fences_before(ls: Seq<Seq<char>>, n: int) -> nat
    decreases n,
{
    if n <= 0 {
        0
    } else {
        fences_before(ls, n - 1) + if is_fence_line(ls[n - 1]) {
            1nat
        } else {
            0nat
        }
    }
}

/// Whether line `i` lies inside a fenced example: an odd number of fences precede it.
pub open spec fn in_example(ls: Seq<Seq<char>>, i: int) -> bool {
    fences_before(ls, i) % 2 == 1
}

/// The kind line `i` is counted as: a doc line that is a fence, or that lies
/// inside a fenced example, is code; every other line keeps its own kind.
pub open spec fn effective_kind(ls: Seq<Seq<char>>, i: int) -> Kind {
    let k = line_kind(ls[i]);
    if k == Kind::Doc && (is_fence_line(ls[i]) || in_example(ls, i)) {
        Kind::Code
    } else {
        k
    }
}

/// How many of the first `n` lines are counted as kind `k`.
pub open spec fn count_kind(ls: Seq<Seq<char>>, k: Kind, n: int) -> nat
    decreases n,
{
    if n <= 0 {
        0
    } else {
        count_kind(ls, k, n - 1) + if effective_kind(ls, n - 1) == k {
            1nat
        } else {
            0nat
        }
    }
}

/// How many adjacent lines of kind `k` end with line `n - 1`.
pub open spec fn run_len(ls: Seq<Seq<char>>, k: Kind, n: int) -> nat
    decreases n,
{
    if n <= 0 {
        0
    } else if effective_kind(ls, n - 1) == k {
        run_len(ls, k, n - 1) + 1
    } else {
        0
    }
}

/// The longest run of kind `k` within the first `n` lines.
pub open spec fn longest_run(ls: Seq<Seq<char>>, k: Kind, n: int) -> nat
    decreases n,
{
    if n <= 0 {
        0
    } else {
        let prev = longest_run(ls, k, n - 1);
        let r = run_len(ls, k, n);
        if r > prev {
            r
        } else {
            prev
        }
    }
}

/// The (1-based) line on which the first of the longest runs of kind `k`
/// within the first `n` lines ends; `0` when there is no such line.
pub open spec fn longest_run_end(ls: Seq<Seq<char>>, k: Kind, n: int) -> nat
    decreases n,
{
    if n <= 0 {
        0
    } else if run_len(ls, k, n) > longest_run(ls, k, n - 1) {
        n as nat
    } else {
        longest_run_end(ls, k, n - 1)
    }
}

/// Comment lines among the first `n`: plain comments, and doc lines when they count.
pub open spec fn comment_lines(ls: Seq<Seq<char>>, count_doc: bool, n: int) -> nat {
    count_kind(ls, Kind::Plain, n) + if count_doc {
        count_kind(ls, Kind::Doc, n)
    } else {
        0nat
    }
}

/// Code lines among the first `n`: code, and doc lines when they do not count as comments.
pub open spec fn code_lines(ls: Seq<Seq<char>>, count_doc: bool, n: int) -> nat {
    count_kind(ls, Kind::Code, n) + if count_doc {
        0nat
    } else {
        count_kind(ls, Kind::Doc, n)
    }
}

/// How many of the first `n` lines are not blank.
pub open spec fn nonblank_lines(ls: Seq<Seq<char>>, n: int) -> nat
    decreases n,
{
    if n <= 0 {
        0
    } else {
        nonblank_lines(ls, n - 1) + if line_kind(ls[n - 1]) != Kind::Blank {
            1nat
        } else {
            0nat
        }
    }
}

/// A run of adjacent comment lines: its length and the (1-based) line it ends on.
#[derive(Clone, Copy, PartialEq, Eq, Structural, Debug)]
pub struct Run {
    pub len: usize,
    pub end: usize,
}

/// What the rule measures in a file body.
#[derive(Clone, Copy, PartialEq, Eq, Structural, Debug)]
pub struct Counts {
    pub comments: usize,
    pub code: usize,
    pub worst_plain: Run,
    pub worst_doc: Run,
}

/// `c` is what a body with lines `ls` measures.
pub open spec fn measures(c: Counts, ls: Seq<Seq<char>>, count_doc: bool) -> bool {
    let n = ls.len() as int;
    &&& c.comments == comment_lines(ls, count_doc, n)
    &&& c.code == code_lines(ls, count_doc, n)
    &&& c.worst_plain.len == longest_run(ls, Kind::Plain, n)
    &&& c.worst_plain.end == longest_run_end(ls, Kind::Plain, n)
    &&& c.worst_doc.len == longest_run(ls, Kind::Doc, n)
    &&& c.worst_doc.end == longest_run_end(ls, Kind::Doc, n)
}

/// A run of kind `k` ending with line `n - 1` is made of lines of kind `k`.
pub proof fn law_run_lines_have_its_kind(ls: Seq<Seq<char>>, k: Kind, n: int, t: int)
    requires
        0 <= t < run_len(ls, k, n),
    ensures
        0 <= n - 1 - t,
        effective_kind(ls, n - 1 - t) == k,
    decreases n,
{
    if t > 0 {
        law_run_lines_have_its_kind(ls, k, n - 1, t - 1);
    }
}

/// A run is never longer than the lines before it.
pub proof fn lemma_run_len_bounded(ls: Seq<Seq<char>>, k: Kind, n: int)
    ensures
        n >= 0 ==> run_len(ls, k, n) <= n,
        n >= 0 ==> run_len(ls, k, n) <= count_kind(ls, k, n),
    decreases n,
{
    if n > 0 {
        lemma_run_len_bounded(ls, k, n - 1);
    }
}

/// `longest_run` is the length of the longest run among the first `n` lines, and
/// `longest_run_end` is the line on which the first run of that length ends:
/// every run ending before it is shorter.
pub proof fn law_longest_run_is_the_first_longest(ls: Seq<Seq<char>>, k: Kind, n: int)
    requires
        0 <= n,
    ensures
        forall|j: int| 0 <= j <= n ==> run_len(ls, k, j) <= longest_run(ls, k, n),
        longest_run(ls, k, n) == 0 ==> longest_run_end(ls, k, n) == 0,
        longest_run(ls, k, n) > 0 ==> {
            let e = longest_run_end(ls, k, n) as int;
            &&& 1 <= e <= n
            &&& run_len(ls, k, e) == longest_run(ls, k, n)
            &&& forall|j: int| 0 <= j < e ==> run_len(ls, k, j) < longest_run(ls, k, n)
        },
    decreases n,
{
    if n > 0 {
        law_longest_run_is_the_first_longest(ls, k, n - 1);
    }
}

/// No run of plain (or doc) comments is longer than the number of such lines.
pub proof fn law_longest_run_within_count(ls: Seq<Seq<char>>, k: Kind, n: int)
    requires
        0 <= n,
    ensures
        longest_run(ls, k, n) <= count_kind(ls, k, n),
    decreases n,
{
    lemma_run_len_bounded(ls, k, n);
    if n > 0 {
        law_longest_run_within_count(ls, k, n - 1);
    }
}

/// A blank line breaks every run: no run ends on or spans it.
pub proof fn law_blank_line_breaks_runs(ls: Seq<Seq<char>>, k: Kind, i: int)
    requires
        0 <= i < ls.len(),
        line_kind(ls[i]) == Kind::Blank,
        k != Kind::Blank,
    ensures
        run_len(ls, k, i + 1) == 0,
{
}

/// Inside a fenced example, and on its fence lines, doc lines count as code; a line
/// counted as a doc comment is a doc line outside any example.
pub proof fn law_example_lines_are_code(ls: Seq<Seq<char>>, i: int)
    requires
        0 <= i < ls.len(),
        line_kind(ls[i]) == Kind::Doc,
    ensures
        (in_example(ls, i) || is_fence_line(ls[i])) <==> effective_kind(ls, i) == Kind::Code,
        effective_kind(ls, i) == Kind::Doc <==> !in_example(ls, i) && !is_fence_line(ls[i]),
{
}

/// Comment and code lines together are exactly the non-blank lines, whether or
/// not doc comments count as comments.
pub proof fn law_counted_lines_are_the_nonblank_lines(ls: Seq<Seq<char>>, count_doc: bool, n: int)
    requires
        0 <= n <= ls.len(),
    ensures
        comment_lines(ls, count_doc, n) + code_lines(ls, count_doc, n) == nonblank_lines(ls, n),
    decreases n,
{
    if n > 0 {
        law_counted_lines_are_the_nonblank_lines(ls, count_doc, n - 1);
    }
}

/// Excluding doc comments from the ratio moves exactly the doc lines from the
/// comment count to the code count.
pub proof fn law_doc_lines_move_between_counts(ls: Seq<Seq<char>>, n: int)
    ensures
        comment_lines(ls, true, n) == comment_lines(ls, false, n) + count_kind(ls, Kind::Doc, n),
        code_lines(ls, false, n) == code_lines(ls, true, n) + count_kind(ls, Kind::Doc, n),
        comment_lines(ls, true, n) + code_lines(ls, true, n) == comment_lines(ls, false, n)
            + code_lines(ls, false, n),
{
}

/// A run of kind `k` is the whole block of adjacent lines of that kind: each
/// line of kind `k` extends the run ending on the line before it by one, any other
/// line ends every run of kind `k`, and the line just before a run is not of its kind.
pub proof fn law_runs_are_maximal_blocks(ls: Seq<Seq<char>>, k: Kind, n: int)
    requires
        0 < n <= ls.len(),
    ensures
        effective_kind(ls, n - 1) == k ==> run_len(ls, k, n) == run_len(ls, k, n - 1) + 1,
        effective_kind(ls, n - 1) != k ==> run_len(ls, k, n) == 0,
        run_len(ls, k, 0) == 0,
        forall|t: int| 0 <= t < run_len(ls, k, n) ==> #[trigger] effective_kind(ls, n - 1 - t) == k,
        run_len(ls, k, n) < n ==> effective_kind(ls, n - 1 - run_len(ls, k, n)) != k,
    decreases n,
{
    assert forall|t: int| 0 <= t < run_len(ls, k, n) implies #[trigger] effective_kind(ls, n - 1 - t) == k by {
        law_run_lines_have_its_kind(ls, k, n, t);
    }
    if n > 1 && effective_kind(ls, n - 1) == k {
        law_runs_are_maximal_blocks(ls, k, n - 1);
    }
}

/// Lines keep their own kind except doc lines that fence or lie inside an example;
/// the first line lies in no example, and each fence line toggles whether the
/// lines after it do.
pub proof fn law_fences_toggle_examples(ls: Seq<Seq<char>>, i: int)
    requires
        0 <= i < ls.len(),
    ensures
        line_kind(ls[i]) != Kind::Doc ==> effective_kind(ls, i) == line_kind(ls[i]),
        !in_example(ls, 0),
        in_example(ls, i + 1) <==> (in_example(ls, i) != is_fence_line(ls[i])),
        is_fence_line(ls[i]) ==> line_kind(ls[i]) == Kind::Doc,
{
}

/// Counting lines of a kind: none among no lines, and each line adds one exactly
/// when it is counted as that kind.
pub proof fn law_count_adds_lines_of_its_kind(ls: Seq<Seq<char>>, k: Kind, n: int)
    requires
        0 <= n < ls.len(),
    ensures
        count_kind(ls, k, 0) == 0,
        count_kind(ls, k, n + 1) == count_kind(ls, k, n) + if effective_kind(ls, n) == k {
            1int
        } else {
            0int
        },
{
}

/// Plain comments are always comments and code always code; doc lines are
/// comments when they count toward the ratio and code otherwise.
pub proof fn law_what_counts_as_comment_and_code(ls: Seq<Seq<char>>, n: int)
    ensures
        comment_lines(ls, true, n) == count_kind(ls, Kind::Plain, n) + count_kind(ls, Kind::Doc, n),
        comment_lines(ls, false, n) == count_kind(ls, Kind::Plain, n),
        code_lines(ls, true, n) == count_kind(ls, Kind::Code, n),
        code_lines(ls, false, n) == count_kind(ls, Kind::Code, n) + count_kind(ls, Kind::Doc, n),
{
}

/// The first UTF-8 byte of a text is `/` (or `!`) exactly when its first
/// character is; after such an ASCII character the rest of the bytes encode the
/// rest of the text.
proof fn lemma_first_byte(t: Seq<char>)
    requires
        t.len() > 0,
    ensures
        encode_utf8(t).len() > 0,
        (encode_utf8(t)[0] == 0x2Fu8) <==> t[0] == '/',
        (encode_utf8(t)[0] == 0x21u8) <==> t[0] == '!',
        (t[0] == '/' || t[0] == '!') ==> encode_utf8(t).skip(1) == encode_utf8(t.drop_first()),
{
    let c = t[0] as u32;
    let e = encode_scalar(c);
    let rest = encode_utf8(t.drop_first());
    assert(encode_utf8(t) == e + rest);
    vstd::utf8::char_u32_cast(t[0], c);
    vstd::utf8::char_u32_cast('/', 0x2F);
    vstd::utf8::char_u32_cast('!', 0x21);
    if has_width_1_encoding(c) {
        assert((c & 0x7F) as u8 == c as u8 && (c as u8 == 0x2Fu8 <==> c == 0x2F) && (c as u8 == 0x21u8 <==> c == 0x21))
            by (bit_vector)
            requires
                c <= 0x7F,
        ;
        assert(e =~= seq![c as u8]);
        assert((e + rest).skip(1) =~= rest);
    } else if has_width_2_encoding(c) {
        assert((0xC0u8 | ((c >> 6) & 0x1F) as u8) >= 0xC0u8) by (bit_vector);
    } else if has_width_3_encoding(c) {
        assert((0xE0u8 | ((c >> 12) & 0x0F) as u8) >= 0xC0u8) by (bit_vector);
    } else {
        assert((0xF0u8 | ((c >> 18) & 0x7) as u8) >= 0xC0u8) by (bit_vector);
    }
}

/// Reading the kind of a line from its trimmed characters: nothing left is
/// blank; `///` or `//!` starts a doc comment; `//` followed by anything else
/// (or by nothing) starts a plain comment; anything else is code.
pub proof fn law_line_kind_reads_the_markers(l: Seq<char>)
    ensures
        ({
            let t = trim_chars(l);
            &&& t.len() == 0 <==> line_kind(l) == Kind::Blank
            &&& (t.len() >= 3 && t[0] == '/' && t[1] == '/' && (t[2] == '/' || t[2] == '!'))
                <==> line_kind(l) == Kind::Doc
            &&& (t.len() >= 2 && t[0] == '/' && t[1] == '/' && !(t.len() >= 3 && (t[2] == '/'
                || t[2] == '!'))) <==> line_kind(l) == Kind::Plain
            &&& (t.len() > 0 && !(t.len() >= 2 && t[0] == '/' && t[1] == '/')) <==> line_kind(l)
                == Kind::Code
        }),
{
    let t = trim_chars(l);
    let b = encode_utf8(t);
    law_kind_of_bytes_reads_the_markers(b);
    lemma_encode_utf8_empty(t);
    if t.len() > 0 {
        lemma_first_byte(t);
        if t[0] == '/' {
            let t1 = t.drop_first();
            lemma_encode_utf8_empty(t1);
            assert(b.len() == 1 + encode_utf8(t1).len());
            if t1.len() > 0 {
                lemma_first_byte(t1);
                assert(b[1] == encode_utf8(t1)[0]);
                assert(t[1] == t1[0]);
                if t1[0] == '/' {
                    let t2 = t1.drop_first();
                    lemma_encode_utf8_empty(t2);
                    assert(encode_utf8(t1).len() == 1 + encode_utf8(t2).len());
                    if t2.len() > 0 {
                        lemma_first_byte(t2);
                        assert(b[2] == encode_utf8(t2)[0]);
                        assert(t[2] == t2[0]);
                    }
                }
            }
        }
    }
}

/// A line whose trimmed text is `///` or `//!`, then white space, then three
/// backticks, then anything, is a fence line.
pub proof fn law_backtick_doc_lines_are_fences(l: Seq<char>, inner: bool, w: Seq<char>, rest: Seq<char>)
    requires
        all_white_space(w),
        trim_chars(l) == (if inner {
            seq!['/', '/', '!']
        } else {
            seq!['/', '/', '/']
        }) + w + seq!['`', '`', '`'] + rest,
    ensures
        is_fence_line(l),
        line_kind(l) == Kind::Doc,
{
    law_backticks_after_the_marker_make_a_fence(inner, w, rest);
    law_line_kind_reads_the_markers(l);
    let t = trim_chars(l);
    assert(t[0] == '/' && t[1] == '/');
    assert(t[2] == '/' || t[2] == '!');
}

} // verus!
