//! The `file-comments` rule itself: where the body of a file starts, what it
//! measures, and what is reported.
//!
//! A file is checked in two steps. [`Rule::scan`] finds the body and measures
//! it. Whether the comment ratio is over its cap is a floating-point comparison
//! made by the caller, who hands the finished message (or `None`) to
//! [`Rule::report`], which decides everything else.
use vstd::prelude::*;
use vstd::string::StringExecFns;
use crate::config::Config;
use crate::diagnostic::{
    Diagnostic, DiagnosticView, RuleLevel, decimal, decimal_string, views,
};
use crate::kind::{Kind, classify, doc_fence};
use crate::measure::{
    Counts, Run, code_lines, comment_lines, effective_kind, in_example, longest_run,
    longest_run_end, law_counted_lines_are_the_nonblank_lines, law_longest_run_is_the_first_longest,
    law_longest_run_within_count, law_run_lines_have_its_kind, lemma_run_len_bounded, line_kind,
    measures, nonblank_lines, run_len,
};
use crate::text::{has_prefix, lines, split_lines, texts, trim, trim_chars};

verus! {

/// The rule's name, as diagnostics carry it.
pub open spec fn rule_name() -> Seq<char> {
    "file-comments"@
}

/// The two characters that open a shebang line.
pub open spec fn shebang_marker() -> Seq<char> {
    seq!['#', '!']
}

/// `1` when the first line is a `#!` shebang, else `0`.
pub open spec fn after_shebang(ls: Seq<Seq<char>>) -> int {
    if ls.len() > 0 && shebang_marker().is_prefix_of(ls[0]) {
        1
    } else {
        0
    }
}

/// A line with nothing but white space.
pub open spec fn is_blank_text(line: Seq<char>) -> bool {
    trim_chars(line).len() == 0
}

/// The first index from `i` on whose line is not blank (or `ls.len()`).
pub open spec fn skip_blank(ls: Seq<Seq<char>>, i: int) -> int
    decreases ls.len() - i,
{
    if 0 <= i < ls.len() && is_blank_text(ls[i]) {
        skip_blank(ls, i + 1)
    } else {
        i
    }
}

/// Index of the first line charged against the budget: past a `#!` shebang, past
/// any leading blanks, and past one header comment when `skip_header` is set.
pub open spec fn body_start_of(ls: Seq<Seq<char>>, skip_header: bool) -> int {
    let i = skip_blank(ls, after_shebang(ls));
    if skip_header && i < ls.len() && line_kind(ls[i]) != Kind::Code {
        i + 1
    } else {
        i
    }
}

/// Where a file's body starts, and what the body measures.
#[derive(Clone, Copy, PartialEq, Eq, Structural, Debug)]
pub struct Scan {
    pub start: usize,
    pub counts: Counts,
}

impl Scan {
    /// The sums that a report takes of a scan stay within `usize`.
    pub open spec fn wf(&self) -> bool {
        &&& self.counts.comments + self.counts.code <= usize::MAX
        &&& self.start + self.counts.worst_plain.end <= usize::MAX
        &&& self.start + self.counts.worst_doc.end <= usize::MAX
    }
}

/// `s` is what scanning a file with text `content` gives.
pub open spec fn scanned(s: Scan, count_doc: bool, skip_header: bool, content: Seq<char>) -> bool {
    let ls = split_lines(content);
    &&& s.start == body_start_of(ls, skip_header)
    &&& measures(s.counts, ls.skip(s.start as int), count_doc)
}

/// The message for a run of `len` adjacent comment lines over the cap `max`.
pub open spec fn run_message_text(len: nat, max: nat, doc: bool) -> Seq<char> {
    decimal(len) + (if doc {
        " consecutive doc-comment lines (max allowed "@
    } else {
        " consecutive comment lines (max allowed "@
    }) + decimal(max) + ")"@
}

/// A diagnostic of this rule.
pub open spec fn finding(cfg: Config, message: Seq<char>, line: Option<usize>, file: Seq<char>) -> DiagnosticView {
    DiagnosticView { rule: rule_name(), level: cfg.level, message, file, line }
}

/// The ratio diagnostic, when the caller found the ratio over its cap.
pub open spec fn ratio_part(cfg: Config, ratio_message: Option<Seq<char>>, file: Seq<char>) -> Seq<DiagnosticView> {
    match ratio_message {
        Some(m) => seq![finding(cfg, m, None, file)],
        None => seq![],
    }
}

/// The diagnostic of a run over its cap `cap`; a cap of `0` disables it.
/// Its line is the run's last line, counted from the top of the file.
pub open spec fn run_part(cfg: Config, run: Run, cap: usize, doc: bool, start: usize, file: Seq<char>) -> Seq<DiagnosticView> {
    if cap > 0 && run.len > cap {
        seq![finding(cfg, run_message_text(run.len as nat, cap as nat, doc), Some((run.end + start) as usize), file)]
    } else {
        seq![]
    }
}

/// What the rule reports on a scanned file: nothing for a file with fewer than
/// `min_lines` non-blank lines; otherwise the ratio, plain-run and doc-run
/// diagnostics that apply, in that order.
pub open spec fn expected_report(cfg: Config, scan: Scan, ratio_message: Option<Seq<char>>, file: Seq<char>) -> Seq<DiagnosticView> {
    if scan.counts.comments + scan.counts.code < cfg.min_lines {
        seq![]
    } else {
        ratio_part(cfg, ratio_message, file)
            + run_part(cfg, scan.counts.worst_plain, cfg.max_consecutive, false, scan.start, file)
            + run_part(cfg, scan.counts.worst_doc, cfg.max_doc_consecutive, true, scan.start, file)
    }
}

/// The text of an optional message.
pub open spec fn message_view(m: Option<String>) -> Option<Seq<char>> {
    match m {
        Some(s) => Some(s@),
        None => None,
    }
}

/// The message for a run of `len` adjacent comment lines over the cap `max`.
pub fn run_message(len: usize, max: usize, doc: bool) -> (s: String)
    ensures
        s@ == run_message_text(len as nat, max as nat, doc),
{
    let mut s = decimal_string(len);
    if doc {
        s.append(" consecutive doc-comment lines (max allowed ");
    } else {
        s.append(" consecutive comment lines (max allowed ");
    }
    let m = decimal_string(max);
    s.append(m.as_str());
    s.append(")");
    s
}

/// The `file-comments` rule with its settings.
pub struct Rule {
    pub level: RuleLevel,
    pub max_ratio_bits: u64,
    pub count_doc_comments: bool,
    pub max_consecutive: usize,
    pub max_doc_consecutive: usize,
    pub min_lines: usize,
    pub skip_header: bool,
}

impl Rule {
    /// The settings the rule holds.
    pub open spec fn config(&self) -> Config {
        Config {
            level: self.level,
            max_ratio_bits: self.max_ratio_bits,
            count_doc_comments: self.count_doc_comments,
            max_consecutive: self.max_consecutive,
            max_doc_consecutive: self.max_doc_consecutive,
            min_lines: self.min_lines,
            skip_header: self.skip_header,
        }
    }

    pub fn new(config: &Config) -> (r: Self)
        ensures
            r.config() == *config,
    {
        Rule {
            level: config.level,
            max_ratio_bits: config.max_ratio_bits,
            count_doc_comments: config.count_doc_comments,
            max_consecutive: config.max_consecutive,
            max_doc_consecutive: config.max_doc_consecutive,
            min_lines: config.min_lines,
            skip_header: config.skip_header,
        }
    }

    pub fn name(&self) -> (n: &'static str)
        ensures
            n@ == rule_name(),
    {
        "file-comments"
    }

    /// Index of the first line to charge against the budget: past a `#!` shebang, past any
    /// leading blanks, and past one header comment when `skip_header` is set.
    pub fn body_start(&self, lines: &[&str]) -> (i: usize)
        ensures
            i == body_start_of(texts(lines@), self.skip_header),
            i <= lines@.len(),
    {
        let ghost ls = texts(lines@);
        proof {
            reveal_strlit("#!");
        }
        let mut i: usize = 0;
        if lines.len() > 0 && has_prefix(lines[0], "#!") {
            i = 1;
        }
        assert(i == after_shebang(ls));
        while i < lines.len() && trim(lines[i]).is_empty()
            invariant
                ls == texts(lines@),
                after_shebang(ls) <= i <= lines@.len(),
                skip_blank(ls, i as int) == skip_blank(ls, after_shebang(ls)),
            decreases lines@.len() - i,
        {
            i += 1;
        }
        if self.skip_header && i < lines.len() && classify(trim(lines[i])) != Kind::Code {
            i += 1;
        }
        i
    }

    /// Counts the comment and code lines of a body and finds its longest runs of
    /// adjacent plain and doc comments.
    pub fn measure(&self, lines: &[&str]) -> (c: Counts)
        ensures
            measures(c, texts(lines@), self.count_doc_comments),
            c.comments + c.code <= lines@.len(),
            c.worst_plain.end <= lines@.len(),
            c.worst_doc.end <= lines@.len(),
    {
        let ghost ls = texts(lines@);
        let ghost cd = self.count_doc_comments;
        let n = lines.len();
        let mut c = Counts {
            comments: 0,
            code: 0,
            worst_plain: Run { len: 0, end: 0 },
            worst_doc: Run { len: 0, end: 0 },
        };
        let mut plain: usize = 0;
        let mut doc: usize = 0;
        let mut in_doctest = false;
        let mut offset: usize = 0;
        while offset < n
            invariant
                n == lines@.len(),
                ls == texts(lines@),
                cd == self.count_doc_comments,
                offset <= n,
                plain == run_len(ls, Kind::Plain, offset as int),
                doc == run_len(ls, Kind::Doc, offset as int),
                plain <= offset,
                doc <= offset,
                in_doctest == in_example(ls, offset as int),
                c.comments == comment_lines(ls, cd, offset as int),
                c.code == code_lines(ls, cd, offset as int),
                c.comments + c.code <= offset,
                c.worst_plain.len == longest_run(ls, Kind::Plain, offset as int),
                c.worst_plain.end == longest_run_end(ls, Kind::Plain, offset as int),
                c.worst_doc.len == longest_run(ls, Kind::Doc, offset as int),
                c.worst_doc.end == longest_run_end(ls, Kind::Doc, offset as int),
                c.worst_plain.end <= offset,
                c.worst_doc.end <= offset,
            decreases n - offset,
        {
            let raw = lines[offset];
            let t = trim(raw);
            let mut kind = classify(t);
            let line_no = offset + 1;
            // A fenced block inside a doc comment is example code, not prose.
            if kind == Kind::Doc && doc_fence(t) {
                in_doctest = !in_doctest;
                kind = Kind::Code;
            } else if in_doctest && kind == Kind::Doc {
                kind = Kind::Code;
            }
            assert(kind == effective_kind(ls, offset as int));
            match kind {
                Kind::Doc => {
                    doc += 1;
                    plain = 0;
                    if doc > c.worst_doc.len {
                        c.worst_doc = Run { len: doc, end: line_no };
                    }
                    if self.count_doc_comments {
                        c.comments += 1;
                    } else {
                        c.code += 1;
                    }
                },
                Kind::Plain => {
                    plain += 1;
                    doc = 0;
                    if plain > c.worst_plain.len {
                        c.worst_plain = Run { len: plain, end: line_no };
                    }
                    c.comments += 1;
                },
                Kind::Code => {
                    plain = 0;
                    doc = 0;
                    c.code += 1;
                },
                Kind::Blank => {
                    plain = 0;
                    doc = 0;
                },
            }
            offset += 1;
        }
        c
    }

    /// Finds the body of a file and measures it.
    pub fn scan(&self, content: &str) -> (s: Scan)
        ensures
            scanned(s, self.count_doc_comments, self.skip_header, content@),
            s.wf(),
    {
        let all = lines(content);
        let start = self.body_start(all.as_slice());
        let body = vstd::slice::slice_subrange(all.as_slice(), start, all.len());
        assert(texts(body@) =~= texts(all@).skip(start as int));
        let counts = self.measure(body);
        Scan { start, counts }
    }

    /// The diagnostics for a scanned file. `ratio_message` is the message of the
    /// ratio diagnostic when the caller found the ratio over its cap, else `None`.
    pub fn report(&self, scan: &Scan, ratio_message: Option<String>, file: &str) -> (ds: Vec<Diagnostic>)
        requires
            scan.wf(),
        ensures
            views(ds@) == expected_report(self.config(), *scan, message_view(ratio_message), file@),
    {
        let ghost ratio = message_view(ratio_message);
        let c = scan.counts;
        let total = c.comments + c.code;
        let mut out: Vec<Diagnostic> = Vec::new();
        if total < self.min_lines {
            assert(views(out@) =~= Seq::<DiagnosticView>::empty());
            return out;
        }
        if let Some(m) = ratio_message {
            out.push(Diagnostic::new(self.name(), self.level, m, file));
        }
        assert(views(out@) =~= ratio_part(self.config(), ratio, file@));
        let ghost before_plain = views(out@);
        if self.max_consecutive > 0 && c.worst_plain.len > self.max_consecutive {
            let m = run_message(c.worst_plain.len, self.max_consecutive, false);
            out.push(Diagnostic::new(self.name(), self.level, m, file).with_line(c.worst_plain.end + scan.start));
        }
        assert(views(out@) =~= before_plain + run_part(self.config(), c.worst_plain, self.max_consecutive, false, scan.start, file@));
        let ghost before_doc = views(out@);
        if self.max_doc_consecutive > 0 && c.worst_doc.len > self.max_doc_consecutive {
            let m = run_message(c.worst_doc.len, self.max_doc_consecutive, true);
            out.push(Diagnostic::new(self.name(), self.level, m, file).with_line(c.worst_doc.end + scan.start));
        }
        assert(views(out@) =~= before_doc + run_part(self.config(), c.worst_doc, self.max_doc_consecutive, true, scan.start, file@));
        out
    }
}

/// `skip_blank` moves forward over blank lines only, and never past the end.
proof fn lemma_skip_blank(ls: Seq<Seq<char>>, i: int)
    requires
        0 <= i <= ls.len(),
    ensures
        i <= skip_blank(ls, i) <= ls.len(),
        forall|j: int| i <= j < skip_blank(ls, i) ==> is_blank_text(#[trigger] ls[j]),
        skip_blank(ls, i) < ls.len() ==> !is_blank_text(ls[skip_blank(ls, i)]),
    decreases ls.len() - i,
{
    if i < ls.len() && is_blank_text(ls[i]) {
        lemma_skip_blank(ls, i + 1);
    }
}

/// The lines left out of the body are only a leading `#!` shebang, blank lines,
/// and (with `skip_header`) one header line that is not code, right before the body.
pub proof fn law_only_the_preamble_is_skipped(ls: Seq<Seq<char>>, skip_header: bool)
    ensures
        0 <= body_start_of(ls, skip_header) <= ls.len(),
        forall|j: int|
            0 <= j < body_start_of(ls, skip_header) ==> {
                ||| j == 0 && shebang_marker().is_prefix_of(ls[0])
                ||| is_blank_text(#[trigger] ls[j])
                ||| skip_header && j == body_start_of(ls, skip_header) - 1 && line_kind(ls[j])
                    != Kind::Code
            },
{
    lemma_skip_blank(ls, after_shebang(ls));
}

/// `skip_header` moves the start of the body by at most the one header line: by
/// one exactly when the first line that is neither the shebang nor blank is not code.
pub proof fn law_header_skip_moves_start_by_one(ls: Seq<Seq<char>>)
    ensures
        ({
            let i = body_start_of(ls, false);
            &&& i == skip_blank(ls, after_shebang(ls))
            &&& body_start_of(ls, true) == if i < ls.len() && line_kind(ls[i]) != Kind::Code {
                i + 1
            } else {
                i
            }
        }),
{
}

/// A `#!` line does not hide the header: when a comment line follows it, that
/// comment is the skipped header and the body starts after it.
pub proof fn law_shebang_does_not_hide_the_header(ls: Seq<Seq<char>>)
    requires
        ls.len() >= 2,
        shebang_marker().is_prefix_of(ls[0]),
        line_kind(ls[1]) == Kind::Plain || line_kind(ls[1]) == Kind::Doc,
    ensures
        body_start_of(ls, true) == 2,
        body_start_of(ls, false) == 1,
{
    crate::kind::lemma_encode_utf8_empty(trim_chars(ls[1]));
    assert(!is_blank_text(ls[1]));
}

/// A file with fewer than `min_lines` counted lines gets no diagnostic at all,
/// whatever its ratio.
pub proof fn law_short_file_is_skipped(
    cfg: Config,
    scan: Scan,
    ratio_message: Option<Seq<char>>,
    file: Seq<char>,
)
    requires
        scan.counts.comments + scan.counts.code < cfg.min_lines,
    ensures
        expected_report(cfg, scan, ratio_message, file) == Seq::<DiagnosticView>::empty(),
{
}

/// With both run caps at zero, the runs are not checked: only the ratio can be reported.
pub proof fn law_zero_caps_disable_run_checks(
    cfg: Config,
    scan: Scan,
    ratio_message: Option<Seq<char>>,
    file: Seq<char>,
)
    requires
        cfg.max_consecutive == 0,
        cfg.max_doc_consecutive == 0,
    ensures
        ratio_message is None ==> expected_report(cfg, scan, ratio_message, file)
            == Seq::<DiagnosticView>::empty(),
        forall|i: int|
            0 <= i < expected_report(cfg, scan, ratio_message, file).len()
                ==> #[trigger] expected_report(cfg, scan, ratio_message, file)[i].line is None,
{
    assert(run_part(cfg, scan.counts.worst_plain, cfg.max_consecutive, false, scan.start, file)
        =~= Seq::<DiagnosticView>::empty());
    assert(run_part(cfg, scan.counts.worst_doc, cfg.max_doc_consecutive, true, scan.start, file)
        =~= Seq::<DiagnosticView>::empty());
}

/// The plain-run and doc-run caps are independent: changing the doc cap changes
/// nothing that is reported before the doc-run diagnostic, and changing the plain
/// cap changes nothing about the doc-run diagnostic.
pub proof fn law_run_caps_are_independent(
    cfg: Config,
    other_cap: usize,
    scan: Scan,
    ratio_message: Option<Seq<char>>,
    file: Seq<char>,
)
    ensures
        ({
            let a = expected_report(cfg, scan, ratio_message, file);
            let b = expected_report(
                Config { max_doc_consecutive: other_cap, ..cfg },
                scan,
                ratio_message,
                file,
            );
            let p = if scan.counts.comments + scan.counts.code < cfg.min_lines {
                0
            } else {
                ratio_part(cfg, ratio_message, file).len() + run_part(
                    cfg,
                    scan.counts.worst_plain,
                    cfg.max_consecutive,
                    false,
                    scan.start,
                    file,
                ).len()
            };
            &&& p <= a.len()
            &&& p <= b.len()
            &&& a.take(p as int) == b.take(p as int)
        }),
        ({
            let d = run_part(cfg, scan.counts.worst_doc, cfg.max_doc_consecutive, true, scan.start, file);
            let d2 = run_part(
                Config { max_consecutive: other_cap, ..cfg },
                scan.counts.worst_doc,
                cfg.max_doc_consecutive,
                true,
                scan.start,
                file,
            );
            d == d2
        }),
{
    let a = expected_report(cfg, scan, ratio_message, file);
    let cfg2 = Config { max_doc_consecutive: other_cap, ..cfg };
    let b = expected_report(cfg2, scan, ratio_message, file);
    if scan.counts.comments + scan.counts.code >= cfg.min_lines {
        let r = ratio_part(cfg, ratio_message, file);
        let pl = run_part(cfg, scan.counts.worst_plain, cfg.max_consecutive, false, scan.start, file);
        assert(ratio_part(cfg2, ratio_message, file) == r);
        assert(run_part(cfg2, scan.counts.worst_plain, cfg.max_consecutive, false, scan.start, file) == pl);
        assert(a.take((r.len() + pl.len()) as int) =~= r + pl);
        assert(b.take((r.len() + pl.len()) as int) =~= r + pl);
    } else {
        assert(a.take(0) =~= b.take(0));
    }
}

/// On a scanned file, the comment and code lines together are the non-blank lines
/// of the body, and no run of comment lines is longer than the comment lines.
pub proof fn law_scan_counts_nonblank_body_lines(s: Scan, count_doc: bool, skip_header: bool, content: Seq<char>)
    requires
        scanned(s, count_doc, skip_header, content),
    ensures
        ({
            let body = split_lines(content).skip(s.start as int);
            s.counts.comments + s.counts.code == nonblank_lines(body, body.len() as int)
        }),
        ({
            let body = split_lines(content).skip(s.start as int);
            let n = body.len() as int;
            &&& s.counts.comments == crate::measure::count_kind(body, Kind::Plain, n) + if count_doc {
                crate::measure::count_kind(body, Kind::Doc, n)
            } else {
                0
            }
            &&& s.counts.code == crate::measure::count_kind(body, Kind::Code, n) + if count_doc {
                0
            } else {
                crate::measure::count_kind(body, Kind::Doc, n)
            }
        }),
        s.counts.worst_plain.len <= s.counts.comments,
        !count_doc ==> s.counts.worst_doc.len <= s.counts.code,
        count_doc ==> s.counts.worst_doc.len <= s.counts.comments,
{
    let ls = split_lines(content);
    law_only_the_preamble_is_skipped(ls, skip_header);
    let body = ls.skip(s.start as int);
    law_counted_lines_are_the_nonblank_lines(body, count_doc, body.len() as int);
    law_longest_run_within_count(body, Kind::Plain, body.len() as int);
    law_longest_run_within_count(body, Kind::Doc, body.len() as int);
    crate::measure::law_what_counts_as_comment_and_code(body, body.len() as int);
}

/// The line a run diagnostic reports is counted from the top of the file: it is
/// the last line of a run of `len` adjacent comment lines of that kind in the file
/// (all inside the body), and no run of that kind in the body is longer.
pub proof fn law_reported_line_ends_the_longest_run(
    s: Scan,
    count_doc: bool,
    skip_header: bool,
    content: Seq<char>,
    k: Kind,
)
    requires
        scanned(s, count_doc, skip_header, content),
        k == Kind::Plain || k == Kind::Doc,
    ensures
        ({
            let ls = split_lines(content);
            let body = ls.skip(s.start as int);
            let run = if k == Kind::Plain {
                s.counts.worst_plain
            } else {
                s.counts.worst_doc
            };
            let line = s.start + run.end;
            run.len > 0 ==> {
                &&& s.start + 1 <= line <= ls.len()
                &&& run.len <= run.end
                &&& forall|j: int|
                    line - run.len <= j < line ==> #[trigger] line_kind(ls[j]) == k
                &&& forall|j: int|
                    0 <= j <= body.len() ==> run_len(body, k, j) <= run.len
            }
        }),
{
    let ls = split_lines(content);
    law_only_the_preamble_is_skipped(ls, skip_header);
    let body = ls.skip(s.start as int);
    let n = body.len() as int;
    law_longest_run_is_the_first_longest(body, k, n);
    let run = if k == Kind::Plain {
        s.counts.worst_plain
    } else {
        s.counts.worst_doc
    };
    if run.len > 0 {
        let e = run.end as int;
        lemma_run_len_bounded(body, k, e);
        assert forall|j: int| s.start + e - run.len <= j < s.start + e implies #[trigger] line_kind(ls[j]) == k by {
            let t = s.start + e - 1 - j;
            law_run_lines_have_its_kind(body, k, e, t);
            assert(body[e - 1 - t] == ls[j]);
        }
    }
}

/// What a report holds, in terms of the scan and the settings alone: nothing for
/// a file under `min_lines`; otherwise the ratio diagnostic when the caller gave
/// one, then a plain-run diagnostic exactly when `max_consecutive > 0` and the
/// longest plain run is longer, then a doc-run diagnostic exactly when
/// `max_doc_consecutive > 0` and the longest doc run is longer. Each is a
/// `file-comments` diagnostic at the rule's level in `file`; a run diagnostic
/// names the run's length and the cap, and the file line its run ends on.
pub proof fn law_report_holds_the_findings(
    cfg: Config,
    scan: Scan,
    ratio_message: Option<Seq<char>>,
    file: Seq<char>,
)
    ensures
        ({
            let rep = expected_report(cfg, scan, ratio_message, file);
            let c = scan.counts;
            let r: int = if ratio_message is Some {
                1
            } else {
                0
            };
            let p: int = if cfg.max_consecutive > 0 && c.worst_plain.len > cfg.max_consecutive {
                1
            } else {
                0
            };
            let d: int = if cfg.max_doc_consecutive > 0 && c.worst_doc.len > cfg.max_doc_consecutive {
                1
            } else {
                0
            };
            &&& c.comments + c.code < cfg.min_lines ==> rep.len() == 0
            &&& c.comments + c.code >= cfg.min_lines ==> {
                &&& rep.len() == r + p + d
                &&& forall|i: int|
                    0 <= i < rep.len() ==> #[trigger] rep[i].rule == "file-comments"@ && rep[i].level
                        == cfg.level && rep[i].file == file
                &&& ratio_message is Some ==> rep[0].message == ratio_message->0 && rep[0].line is None
                &&& p == 1 ==> rep[r].message == decimal(c.worst_plain.len as nat)
                    + " consecutive comment lines (max allowed "@ + decimal(
                    cfg.max_consecutive as nat,
                ) + ")"@ && rep[r].line == Some((scan.start + c.worst_plain.end) as usize)
                &&& d == 1 ==> rep[r + p].message == decimal(c.worst_doc.len as nat)
                    + " consecutive doc-comment lines (max allowed "@ + decimal(
                    cfg.max_doc_consecutive as nat,
                ) + ")"@ && rep[r + p].line == Some((scan.start + c.worst_doc.end) as usize)
            }
        }),
{
    let rep = expected_report(cfg, scan, ratio_message, file);
    let c = scan.counts;
    if c.comments + c.code >= cfg.min_lines {
        let rp = ratio_part(cfg, ratio_message, file);
        let pp = run_part(cfg, c.worst_plain, cfg.max_consecutive, false, scan.start, file);
        let dp = run_part(cfg, c.worst_doc, cfg.max_doc_consecutive, true, scan.start, file);
        assert(rep == rp + pp + dp);
        assert forall|i: int| 0 <= i < rep.len() implies #[trigger] rep[i].rule == "file-comments"@
            && rep[i].level == cfg.level && rep[i].file == file by {
            if i < rp.len() {
                assert(rep[i] == rp[i]);
            } else if i < rp.len() + pp.len() {
                assert(rep[i] == pp[i - rp.len()]);
            } else {
                assert(rep[i] == dp[i - rp.len() - pp.len()]);
            }
        }
        if pp.len() > 0 {
            assert(rep[rp.len() as int] == pp[0]);
        }
        if dp.len() > 0 {
            assert(rep[(rp.len() + pp.len()) as int] == dp[0]);
        }
    }
}

/// Whether doc comments count toward the ratio changes nothing in the report: the
/// ratio message comes from the caller, and neither run cap looks at it.
pub proof fn law_report_ignores_doc_counting(
    cfg: Config,
    count_doc: bool,
    scan: Scan,
    ratio_message: Option<Seq<char>>,
    file: Seq<char>,
)
    ensures
        expected_report(Config { count_doc_comments: count_doc, ..cfg }, scan, ratio_message, file)
            == expected_report(cfg, scan, ratio_message, file),
{
    let cfg2 = Config { count_doc_comments: count_doc, ..cfg };
    law_report_holds_the_findings(cfg, scan, ratio_message, file);
    law_report_holds_the_findings(cfg2, scan, ratio_message, file);
    let a = expected_report(cfg, scan, ratio_message, file);
    let b = expected_report(cfg2, scan, ratio_message, file);
    assert forall|i: int| 0 <= i < a.len() implies #[trigger] a[i] == b[i] by {
        let r: int = if ratio_message is Some {
            1
        } else {
            0
        };
        let p: int = if cfg.max_consecutive > 0 && scan.counts.worst_plain.len > cfg.max_consecutive {
            1
        } else {
            0
        };
        if i < r {
        } else if i < r + p {
            assert(i == r);
        } else {
            assert(i == r + p);
        }
    }
    assert(a =~= b);
}

/// Where the body starts, stated on the lines alone: without `skip_header` it is
/// the first line that is neither a leading `#!` line nor blank (or the end);
/// with `skip_header` it is one further exactly when that line is not code.
pub proof fn law_body_starts_at_the_first_real_line(ls: Seq<Seq<char>>)
    ensures
        ({
            let i = body_start_of(ls, false);
            &&& 0 <= i <= ls.len()
            &&& forall|j: int|
                0 <= j < i ==> (j == 0 && ls[0].len() >= 2 && ls[0][0] == '#' && ls[0][1] == '!') || is_blank_text(
                    #[trigger] ls[j],
                )
            &&& i < ls.len() ==> !is_blank_text(ls[i]) && !(i == 0 && ls[0].len() >= 2 && ls[0][0] == '#' && ls[0][1] == '!')
            &&& forall|k: int| 0 <= k < ls.len() ==> (is_blank_text(#[trigger] ls[k]) <==> line_kind(ls[k]) == Kind::Blank)
            &&& body_start_of(ls, true) == if i < ls.len() && line_kind(ls[i]) != Kind::Code {
                i + 1
            } else {
                i
            }
        }),
{
    lemma_skip_blank(ls, after_shebang(ls));
    if ls.len() > 0 {
        if ls[0].len() >= 2 && ls[0][0] == '#' && ls[0][1] == '!' {
            assert(ls[0].subrange(0, 2) =~= shebang_marker());
        } else if shebang_marker().is_prefix_of(ls[0]) {
            assert(ls[0].subrange(0, 2)[0] == '#' && ls[0].subrange(0, 2)[1] == '!');
        }
    }
    assert forall|k: int| 0 <= k < ls.len() implies (is_blank_text(#[trigger] ls[k]) <==> line_kind(ls[k]) == Kind::Blank) by {
        crate::measure::law_line_kind_reads_the_markers(ls[k]);
    }
}

/// The text of an optional message is the message's text, if there is one.
pub proof fn law_message_view_keeps_the_text(m: Option<String>)
    ensures
        m is None ==> message_view(m) is None,
        m is Some ==> message_view(m) == Some(m->0@),
{
}

/// A rule holds exactly the settings it was made from, field by field.
pub proof fn law_rule_settings_are_its_fields(r: Rule)
    ensures
        r.config().level == r.level,
        r.config().max_ratio_bits == r.max_ratio_bits,
        r.config().count_doc_comments == r.count_doc_comments,
        r.config().max_consecutive == r.max_consecutive,
        r.config().max_doc_consecutive == r.max_doc_consecutive,
        r.config().min_lines == r.min_lines,
        r.config().skip_header == r.skip_header,
{
}

} // verus!
