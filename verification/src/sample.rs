//! Sample file texts of a known shape, for measuring the rule against.
use vstd::prelude::*;
use vstd::string::StringExecFns;
use crate::kind::Kind;
use crate::measure::{
    code_lines, comment_lines, count_kind, effective_kind, line_kind, longest_run, run_len,
};
use crate::rule::{Scan, after_shebang, body_start_of, scanned, skip_blank};
use crate::text::{is_white_space, split_lines, trim_chars, trim_end_chars, trim_start_chars};

verus! {

/// `s` written `n` times in a row.
pub open spec fn repeat_text(s: Seq<char>, n: nat) -> Seq<char>
    decreases n,
{
    if n == 0 {
        Seq::empty()
    } else {
        repeat_text(s, (n - 1) as nat) + s
    }
}

/// The text of a sample file: a `// header` line, then `comments` lines `// c`,
/// then `code` lines `let x = 1;`, each ended by `'\n'`.
pub open spec fn sample_text(comments: nat, code: nat) -> Seq<char> {
    "// header\n"@ + repeat_text("// c\n"@, comments) + repeat_text("let x = 1;\n"@, code)
}

/// A file with an explicit header line, so `skip_header` has something to consume,
/// followed by `comments` plain comment lines and `code` code lines.
pub fn body(comments: usize, code: usize) -> (text: String)
    ensures
        text@ == sample_text(comments as nat, code as nat),
{
    let mut text = String::from_str("// header\n");
    let ghost head = text@;
    let mut i: usize = 0;
    while i < comments
        invariant
            i <= comments,
            text@ == head + repeat_text("// c\n"@, i as nat),
        decreases comments - i,
    {
        text.append("// c\n");
        i += 1;
    }
    let ghost middle = text@;
    let mut j: usize = 0;
    while j < code
        invariant
            j <= code,
            text@ == middle + repeat_text("let x = 1;\n"@, j as nat),
        decreases code - j,
    {
        text.append("let x = 1;\n");
        j += 1;
    }
    text
}

/// The header line of a sample file, without its terminator.
pub open spec fn header_line() -> Seq<char> {
    seq!['/', '/', ' ', 'h', 'e', 'a', 'd', 'e', 'r']
}

/// A comment line of a sample file, without its terminator.
pub open spec fn comment_line() -> Seq<char> {
    seq!['/', '/', ' ', 'c']
}

/// A code line of a sample file, without its terminator.
pub open spec fn code_line() -> Seq<char> {
    seq!['l', 'e', 't', ' ', 'x', ' ', '=', ' ', '1', ';']
}

/// `l` as `n` lines in a row.
pub open spec fn repeat_lines(l: Seq<char>, n: nat) -> Seq<Seq<char>>
    decreases n,
{
    if n == 0 {
        Seq::empty()
    } else {
        repeat_lines(l, (n - 1) as nat).push(l)
    }
}

proof fn lemma_repeat_lines_index(l: Seq<char>, n: nat)
    ensures
        repeat_lines(l, n).len() == n,
        forall|i: int| 0 <= i < n ==> #[trigger] repeat_lines(l, n)[i] == l,
    decreases n,
{
    if n > 0 {
        lemma_repeat_lines_index(l, (n - 1) as nat);
    }
}

/// Splitting a terminated first line off the front of a text.
proof fn lemma_split_first_line(l: Seq<char>, rest: Seq<char>)
    requires
        forall|i: int| 0 <= i < l.len() ==> l[i] != '\n',
        l.len() > 0 && l.last() != '\r',
    ensures
        split_lines(l.push('\n') + rest) == seq![l] + split_lines(rest),
{
    crate::text::law_lines_split_at_each_newline(l, rest);
}

/// Splitting `n` copies of a terminated line off the front of a text.
proof fn lemma_split_repeated(l: Seq<char>, n: nat, rest: Seq<char>)
    requires
        forall|i: int| 0 <= i < l.len() ==> l[i] != '\n',
        l.len() > 0 && l.last() != '\r',
    ensures
        split_lines(repeat_text(l.push('\n'), n) + rest) == repeat_lines(l, n) + split_lines(rest),
    decreases n,
{
    if n == 0 {
        assert(repeat_text(l.push('\n'), n) + rest =~= rest);
        assert(repeat_lines(l, n) + split_lines(rest) =~= split_lines(rest));
    } else {
        let m = (n - 1) as nat;
        assert(repeat_text(l.push('\n'), n) + rest =~= repeat_text(l.push('\n'), m) + (l.push('\n') + rest));
        lemma_split_repeated(l, m, l.push('\n') + rest);
        lemma_split_first_line(l, rest);
        assert(repeat_lines(l, m) + (seq![l] + split_lines(rest)) =~= repeat_lines(l, n) + split_lines(rest));
    }
}

/// The lines of a sample file.
proof fn lemma_sample_lines(comments: nat, code: nat)
    ensures
        split_lines(sample_text(comments, code)) == seq![header_line()] + repeat_lines(comment_line(), comments)
            + repeat_lines(code_line(), code),
{
    reveal_strlit("// header\n");
    reveal_strlit("// c\n");
    reveal_strlit("let x = 1;\n");
    assert("// header\n"@ =~= header_line().push('\n'));
    assert("// c\n"@ =~= comment_line().push('\n'));
    assert("let x = 1;\n"@ =~= code_line().push('\n'));
    let rc = repeat_text(comment_line().push('\n'), comments);
    let rk = repeat_text(code_line().push('\n'), code);
    assert(sample_text(comments, code) =~= header_line().push('\n') + (rc + (rk + Seq::empty())));
    lemma_split_first_line(header_line(), rc + (rk + Seq::empty()));
    lemma_split_repeated(comment_line(), comments, rk + Seq::empty());
    lemma_split_repeated(code_line(), code, Seq::empty());
    assert(split_lines(Seq::<char>::empty()) =~= Seq::<Seq<char>>::empty());
    assert(seq![header_line()] + (repeat_lines(comment_line(), comments) + (repeat_lines(code_line(), code)
        + Seq::<Seq<char>>::empty())) =~= seq![header_line()] + repeat_lines(comment_line(), comments)
        + repeat_lines(code_line(), code));
}

/// A line whose first and last characters are not white space trims to itself.
proof fn lemma_trim_keeps(l: Seq<char>)
    requires
        l.len() > 0,
        !is_white_space(l[0]),
        !is_white_space(l.last()),
    ensures
        trim_chars(l) == l,
{
    assert(trim_start_chars(l) == l);
    assert(trim_end_chars(l) == l);
}

/// The sample's header and comment lines are `//` comments; its code line is code.
proof fn lemma_sample_line_kinds()
    ensures
        line_kind(header_line()) == Kind::Plain,
        line_kind(comment_line()) == Kind::Plain,
        line_kind(code_line()) == Kind::Code,
{
    broadcast use vstd::utf8::is_ascii_chars_encode_utf8;

    let h = header_line();
    let c = comment_line();
    let k = code_line();
    lemma_trim_keeps(h);
    lemma_trim_keeps(c);
    lemma_trim_keeps(k);
    assert(vstd::utf8::is_ascii_chars(h));
    assert(vstd::utf8::is_ascii_chars(c));
    assert(vstd::utf8::is_ascii_chars(k));
    let bh = vstd::utf8::encode_utf8(h);
    let bc = vstd::utf8::encode_utf8(c);
    let bk = vstd::utf8::encode_utf8(k);
    assert(bh[0] == h[0] as u8 && bh[1] == h[1] as u8 && bh[2] == h[2] as u8);
    assert(bc[0] == c[0] as u8 && bc[1] == c[1] as u8 && bc[2] == c[2] as u8);
    assert(bk[0] == k[0] as u8);
    assert(bh.subrange(0, 2) =~= seq![0x2Fu8, 0x2F]);
    assert(bc.subrange(0, 2) =~= seq![0x2Fu8, 0x2F]);
    assert(bh.subrange(0, 3) !~= seq![0x2Fu8, 0x2F, 0x2F]) by {
        assert(bh.subrange(0, 3)[2] == 0x20);
    }
    assert(bh.subrange(0, 3) !~= seq![0x2Fu8, 0x2F, 0x21]) by {
        assert(bh.subrange(0, 3)[2] == 0x20);
    }
    assert(bc.subrange(0, 3) !~= seq![0x2Fu8, 0x2F, 0x2F]) by {
        assert(bc.subrange(0, 3)[2] == 0x20);
    }
    assert(bc.subrange(0, 3) !~= seq![0x2Fu8, 0x2F, 0x21]) by {
        assert(bc.subrange(0, 3)[2] == 0x20);
    }
    assert(bk.subrange(0, 2) !~= seq![0x2Fu8, 0x2F]) by {
        assert(bk.subrange(0, 2)[0] == k[0] as u8);
    }
    assert(bk.subrange(0, 3) !~= seq![0x2Fu8, 0x2F, 0x2F]) by {
        assert(bk.subrange(0, 3)[0] == k[0] as u8);
    }
    assert(bk.subrange(0, 3) !~= seq![0x2Fu8, 0x2F, 0x21]) by {
        assert(bk.subrange(0, 3)[0] == k[0] as u8);
    }
}

/// The body of a sample file, line by line: `comments` comment lines, then code.
proof fn lemma_sample_body_kinds(comments: nat, code: nat)
    ensures
        ({
            let body = repeat_lines(comment_line(), comments) + repeat_lines(code_line(), code);
            &&& body.len() == comments + code
            &&& forall|i: int|
                0 <= i < body.len() ==> #[trigger] effective_kind(body, i) == if i < comments {
                    Kind::Plain
                } else {
                    Kind::Code
                }
        }),
{
    lemma_repeat_lines_index(comment_line(), comments);
    lemma_repeat_lines_index(code_line(), code);
    lemma_sample_line_kinds();
    let body = repeat_lines(comment_line(), comments) + repeat_lines(code_line(), code);
    assert forall|i: int| 0 <= i < body.len() implies #[trigger] effective_kind(body, i) == if i
        < comments {
        Kind::Plain
    } else {
        Kind::Code
    } by {
        if i < comments {
            assert(body[i] == comment_line());
        } else {
            assert(body[i] == repeat_lines(code_line(), code)[i - comments]);
        }
    }
}

/// Counts and runs over the first `m` lines of a sample body.
proof fn lemma_sample_body_counts(comments: nat, code: nat, m: int)
    requires
        0 <= m <= comments + code,
    ensures
        ({
            let body = repeat_lines(comment_line(), comments) + repeat_lines(code_line(), code);
            &&& count_kind(body, Kind::Plain, m) == if m < comments { m } else { comments as int }
            &&& count_kind(body, Kind::Code, m) == if m < comments { 0 } else { m - comments }
            &&& count_kind(body, Kind::Doc, m) == 0
            &&& run_len(body, Kind::Plain, m) == if m <= comments { m } else { 0 }
            &&& longest_run(body, Kind::Plain, m) == if m < comments { m } else { comments as int }
            &&& longest_run(body, Kind::Doc, m) == 0
        }),
    decreases m,
{
    let body = repeat_lines(comment_line(), comments) + repeat_lines(code_line(), code);
    lemma_sample_body_kinds(comments, code);
    if m > 0 {
        lemma_sample_body_counts(comments, code, m - 1);
        assert(effective_kind(body, m - 1) == if m - 1 < comments {
            Kind::Plain
        } else {
            Kind::Code
        });
    }
}

/// A sample file as `body` writes it: with `skip_header` the header is the one line
/// left out of the body, and the body measures exactly the requested comment and
/// code lines, the comments forming a single run and no doc run.
pub proof fn law_sample_body_measures_what_was_asked(comments: nat, code: nat, count_doc: bool)
    ensures
        ({
            let ls = split_lines(sample_text(comments, code));
            let body = ls.skip(1);
            let n = body.len() as int;
            &&& body_start_of(ls, true) == 1
            &&& n == comments + code
            &&& comment_lines(body, count_doc, n) == comments
            &&& code_lines(body, count_doc, n) == code
            &&& longest_run(body, Kind::Plain, n) == comments
            &&& longest_run(body, Kind::Doc, n) == 0
        }),
{
    let ls = split_lines(sample_text(comments, code));
    let rest = repeat_lines(comment_line(), comments) + repeat_lines(code_line(), code);
    lemma_sample_lines(comments, code);
    lemma_sample_line_kinds();
    lemma_repeat_lines_index(comment_line(), comments);
    lemma_repeat_lines_index(code_line(), code);
    assert(ls =~= seq![header_line()] + rest);
    assert(ls[0] == header_line());
    assert(ls.skip(1) =~= rest);
    assert(!crate::rule::shebang_marker().is_prefix_of(ls[0])) by {
        assert(ls[0].subrange(0, 2)[0] == '/');
    }
    assert(after_shebang(ls) == 0);
    crate::kind::lemma_encode_utf8_empty(trim_chars(ls[0]));
    assert(skip_blank(ls, 0) == 0);
    lemma_sample_body_counts(comments, code, (comments + code) as int);
}

/// Scanning a sample file with `skip_header` set: the body starts after the
/// header, and the counts are exactly the requested ones.
pub proof fn law_sample_scan_counts(s: Scan, comments: usize, code: usize, count_doc: bool)
    requires
        scanned(s, count_doc, true, sample_text(comments as nat, code as nat)),
    ensures
        s.start == 1,
        s.counts.comments == comments,
        s.counts.code == code,
        s.counts.worst_plain.len == comments,
        s.counts.worst_doc.len == 0,
{
    law_sample_body_measures_what_was_asked(comments as nat, code as nat, count_doc);
}

} // verus!
