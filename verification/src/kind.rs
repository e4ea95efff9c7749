use vstd::prelude::*;
use vstd::string::StringSliceAdditionalSpecFns;
use crate::text::{
    has_prefix, is_white_space, law_strip_repeated_drops_a_leading_copy,
    law_strip_repeated_stops_at_a_mismatch, law_trim_end_keeps_a_solid_prefix,
    law_trim_start_drops_white_space, strip_repeated, trim, trim_chars, trim_end_chars,
    trim_start_chars, trim_start_matches,
};

verus! {

/// What a single trimmed line of source is.
#[derive(Clone, Copy, PartialEq, Eq, Structural, Debug)]
pub enum Kind {
    Blank,
    Doc,
    Plain,
    Code,
}

/// The ASCII code of `/`.
pub const SLASH: u8 = 0x2F;

/// The ASCII code of `!`.
pub const BANG: u8 = 0x21;

/// The bytes of `///`.
pub open spec fn outer_doc_marker() -> Seq<u8> {
    seq![SLASH, SLASH, SLASH]
}

/// The bytes of `//!`.
pub open spec fn inner_doc_marker() -> Seq<u8> {
    seq![SLASH, SLASH, BANG]
}

/// The bytes of `//`.
pub open spec fn comment_marker() -> Seq<u8> {
    seq![SLASH, SLASH]
}

/// The kind of a trimmed line, read from its UTF-8 bytes.
pub open spec fn kind_of_bytes(b: Seq<u8>) -> Kind {
    if b.len() == 0 {
        Kind::Blank
    } else if outer_doc_marker().is_prefix_of(b) || inner_doc_marker().is_prefix_of(b) {
        Kind::Doc
    } else if comment_marker().is_prefix_of(b) {
        Kind::Plain
    } else {
        Kind::Code
    }
}

/// Whether the UTF-8 bytes of `s` begin with `prefix`.
pub fn starts_with(s: &str, prefix: &[u8]) -> (r: bool)
    ensures
        r == prefix@.is_prefix_of(s.spec_bytes()),
{
    let b = s.as_bytes();
    if b.len() < prefix.len() {
        return false;
    }
    let mut i: usize = 0;
    while i < prefix.len()
        invariant
            b@ == s.spec_bytes(),
            prefix@.len() <= b@.len(),
            i <= prefix@.len(),
            forall|j: int| 0 <= j < i ==> b@[j] == prefix@[j],
        decreases prefix@.len() - i,
    {
        if b[i] != prefix[i] {
            return false;
        }
        i += 1;
    }
    assert(prefix@ =~= b@.subrange(0, prefix@.len() as int));
    true
}

/// Classifies a trimmed line: blank, a `///` or `//!` doc comment, a `//`
/// comment, or code.
pub fn classify(trimmed: &str) -> (k: Kind)
    ensures
        k == kind_of_bytes(trimmed.spec_bytes()),
{
    proof {
        lemma_encode_utf8_empty(trimmed@);
    }
    if trimmed.is_empty() {
        return Kind::Blank;
    }
    let outer: [u8; 3] = [SLASH, SLASH, SLASH];
    let inner: [u8; 3] = [SLASH, SLASH, BANG];
    let plain: [u8; 2] = [SLASH, SLASH];
    if starts_with(trimmed, &outer) || starts_with(trimmed, &inner) {
        Kind::Doc
    } else if starts_with(trimmed, &plain) {
        Kind::Plain
    } else {
        Kind::Code
    }
}

/// The characters that open and close a fenced example.
pub open spec fn fence_marker() -> Seq<char> {
    seq!['`', '`', '`']
}

/// The outer doc-comment marker as characters.
pub open spec fn outer_doc_text() -> Seq<char> {
    seq!['/', '/', '/']
}

/// The inner doc-comment marker as characters.
pub open spec fn inner_doc_text() -> Seq<char> {
    seq!['/', '/', '!']
}

/// Whether a trimmed doc line opens or closes a fenced example: with its leading
/// `///` markers, then its `//!` markers, and then the surrounding white space
/// removed, it starts with three backticks.
pub open spec fn fence_text(trimmed: Seq<char>) -> bool {
    fence_marker().is_prefix_of(
        trim_chars(strip_repeated(strip_repeated(trimmed, outer_doc_text()), inner_doc_text())),
    )
}

/// Does this doc line open or close a fenced example block?
pub fn doc_fence(trimmed: &str) -> (r: bool)
    ensures
        r == fence_text(trimmed@),
{
    proof {
        reveal_strlit("///");
        reveal_strlit("//!");
        reveal_strlit("```");
    }
    let body = trim(trim_start_matches(trim_start_matches(trimmed, "///"), "//!"));
    has_prefix(body, "```")
}

/// A character sequence is empty exactly when its UTF-8 encoding is.
pub(crate) proof fn lemma_encode_utf8_empty(s: Seq<char>)
    ensures
        (s.len() == 0) == (vstd::utf8::encode_utf8(s).len() == 0),
{
    if s.len() > 0 {
        let c = s[0] as u32;
        assert(vstd::utf8::encode_scalar(c).len() >= 1);
    }
}

/// Reading the markers of a trimmed line from its bytes: nothing is blank; `///`
/// or `//!` starts a doc comment; `//` followed by anything else (or by nothing)
/// starts a plain comment; any other start is code.
pub proof fn law_kind_of_bytes_reads_the_markers(b: Seq<u8>)
    ensures
        b.len() == 0 <==> kind_of_bytes(b) == Kind::Blank,
        (b.len() >= 3 && b[0] == 0x2Fu8 && b[1] == 0x2Fu8 && (b[2] == 0x2Fu8 || b[2] == 0x21u8))
            <==> kind_of_bytes(b) == Kind::Doc,
        (b.len() >= 2 && b[0] == 0x2Fu8 && b[1] == 0x2Fu8 && !(b.len() >= 3 && (b[2] == 0x2Fu8
            || b[2] == 0x21u8))) <==> kind_of_bytes(b) == Kind::Plain,
        (b.len() > 0 && !(b.len() >= 2 && b[0] == 0x2Fu8 && b[1] == 0x2Fu8)) <==> kind_of_bytes(b)
            == Kind::Code,
{
    if b.len() >= 2 {
        if b[0] == 0x2Fu8 && b[1] == 0x2Fu8 {
            assert(b.subrange(0, 2) =~= comment_marker());
        } else {
            assert(b.subrange(0, 2)[0] == b[0] && b.subrange(0, 2)[1] == b[1]);
        }
    }
    if b.len() >= 3 {
        if b[0] == 0x2Fu8 && b[1] == 0x2Fu8 && b[2] == 0x2Fu8 {
            assert(b.subrange(0, 3) =~= outer_doc_marker());
        } else if b[0] == 0x2Fu8 && b[1] == 0x2Fu8 && b[2] == 0x21u8 {
            assert(b.subrange(0, 3) =~= inner_doc_marker());
        } else {
            assert(b.subrange(0, 3)[0] == b[0] && b.subrange(0, 3)[1] == b[1] && b.subrange(0, 3)[2]
                == b[2]);
        }
    }
}

/// A sequence made only of white space.
pub open spec fn all_white_space(w: Seq<char>) -> bool {
    forall|i: int| 0 <= i < w.len() ==> is_white_space(#[trigger] w[i])
}

/// A doc line whose text, after its `///` or `//!` marker and any white space,
/// starts with three backticks opens or closes a fenced example, whatever
/// follows the backticks (a language tag, attributes, anything).
pub proof fn law_backticks_after_the_marker_make_a_fence(inner: bool, w: Seq<char>, rest: Seq<char>)
    requires
        all_white_space(w),
    ensures
        fence_text(
            (if inner {
                seq!['/', '/', '!']
            } else {
                seq!['/', '/', '/']
            }) + w + seq!['`', '`', '`'] + rest,
        ),
{
    let m = if inner {
        inner_doc_text()
    } else {
        outer_doc_text()
    };
    let r = fence_marker() + rest;
    assert(m =~= (if inner { seq!['/', '/', '!'] } else { seq!['/', '/', '/'] }));
    assert(seq!['`', '`', '`'] =~= fence_marker());
    assert(m + w + fence_marker() + rest =~= m + w + r);
    lemma_after_marker(inner, w, r);
    assert(r[0] == '`');
    law_trim_start_drops_white_space(w, r);
    assert(trim_start_chars(r) == r);
    law_trim_end_keeps_a_solid_prefix(fence_marker(), rest);
}

/// A doc line whose text, after its marker and any white space, starts with
/// anything other than a backtick (or a further slash) is not a fence.
pub proof fn law_other_text_after_the_marker_is_no_fence(
    inner: bool,
    w: Seq<char>,
    c: char,
    rest: Seq<char>,
)
    requires
        all_white_space(w),
        !is_white_space(c),
        c != '`',
        c != '/',
    ensures
        !fence_text(
            (if inner {
                seq!['/', '/', '!']
            } else {
                seq!['/', '/', '/']
            }) + w + seq![c] + rest,
        ),
{
    let m = if inner {
        inner_doc_text()
    } else {
        outer_doc_text()
    };
    let r = seq![c] + rest;
    assert(m =~= (if inner { seq!['/', '/', '!'] } else { seq!['/', '/', '/'] }));
    assert(m + w + seq![c] + rest =~= m + w + r);
    lemma_after_marker(inner, w, r);
    assert(r[0] == c);
    law_trim_start_drops_white_space(w, r);
    assert(trim_start_chars(r) == r);
    law_trim_end_keeps_a_solid_prefix(seq![c], rest);
    let t = trim_end_chars(r);
    assert(t.subrange(0, 1) =~= seq![c]);
    if fence_marker().is_prefix_of(t) {
        assert(t[0] == fence_marker()[0]);
    }
}

/// Stripping the markers from `marker + w + r`, where `r` starts with neither
/// white space nor a slash, leaves `w + r`.
proof fn lemma_after_marker(inner: bool, w: Seq<char>, r: Seq<char>)
    requires
        all_white_space(w),
        r.len() > 0,
        !is_white_space(r[0]),
        r[0] != '/',
    ensures
        strip_repeated(
            strip_repeated(
                (if inner {
                    inner_doc_text()
                } else {
                    outer_doc_text()
                }) + w + r,
                outer_doc_text(),
            ),
            inner_doc_text(),
        ) == w + r,
{
    let m = if inner {
        inner_doc_text()
    } else {
        outer_doc_text()
    };
    let wr = w + r;
    assert(wr.len() > 0);
    if w.len() > 0 {
        assert(wr[0] == w[0]);
        assert(is_white_space(w[0]));
        assert(wr[0] != '/') by {
            assert(!is_white_space('/'));
        }
    } else {
        assert(wr[0] == r[0]);
    }
    assert(m + w + r =~= m + wr);
    if inner {
        assert((m + wr)[2] == '!');
        law_strip_repeated_stops_at_a_mismatch(m + wr, outer_doc_text(), 2);
        law_strip_repeated_drops_a_leading_copy(inner_doc_text(), wr);
        law_strip_repeated_stops_at_a_mismatch(wr, inner_doc_text(), 0);
    } else {
        law_strip_repeated_drops_a_leading_copy(outer_doc_text(), wr);
        law_strip_repeated_stops_at_a_mismatch(wr, outer_doc_text(), 0);
        law_strip_repeated_stops_at_a_mismatch(wr, inner_doc_text(), 0);
    }
}

} // verus!
