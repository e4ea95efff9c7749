use cargo_lint_extra::config::{apply_override, Config, Override, DEFAULT_MAX_RATIO_BITS};
use cargo_lint_extra::diagnostic::{decimal_string, Diagnostic, RuleLevel};
use cargo_lint_extra::kind::{classify, doc_fence, starts_with, Kind};
use cargo_lint_extra::rule::{run_message, Rule};
use cargo_lint_extra::sample::body;

fn quiet(cfg: Config) -> Rule {
    Rule::new(&Config {
        level: RuleLevel::Warn,
        max_ratio_bits: 0.0f64.to_bits(),
        ..cfg
    })
}

#[test]
fn classify_reads_the_markers() {
    assert_eq!(classify(""), Kind::Blank);
    assert_eq!(classify("/// docs"), Kind::Doc);
    assert_eq!(classify("///"), Kind::Doc);
    assert_eq!(classify("//! crate docs"), Kind::Doc);
    assert_eq!(classify("//// four slashes"), Kind::Doc);
    assert_eq!(classify("// note"), Kind::Plain);
    assert_eq!(classify("//"), Kind::Plain);
    assert_eq!(classify("/* block */"), Kind::Code);
    assert_eq!(classify("let x = 1; // trailing"), Kind::Code);
    assert_eq!(classify("/"), Kind::Code);
}

#[test]
fn starts_with_compares_bytes() {
    assert!(starts_with("abc", &[b'a', b'b']));
    assert!(starts_with("abc", &[]));
    assert!(!starts_with("a", &[b'a', b'b']));
    assert!(!starts_with("xbc", &[b'a']));
    assert!(starts_with("é", &[0xC3, 0xA9]));
    assert!(!starts_with("é", &[0xC3, 0xAA]));
}

#[test]
fn doc_fence_sees_through_markers_and_white_space() {
    assert!(doc_fence("/// ```"));
    assert!(doc_fence("///```rust"));
    assert!(doc_fence("//! ```"));
    assert!(doc_fence("////// ```"));
    assert!(doc_fence("```"));
    assert!(!doc_fence("/// text"));
    assert!(!doc_fence("/// ``"));
    assert!(!doc_fence("/// text ```"));
}

#[test]
fn body_builds_the_sample_text() {
    assert_eq!(body(0, 0), "// header\n");
    assert_eq!(body(2, 1), "// header\n// c\n// c\nlet x = 1;\n");
}

#[test]
fn decimal_strings_and_run_messages() {
    assert_eq!(decimal_string(0), "0");
    assert_eq!(decimal_string(7), "7");
    assert_eq!(decimal_string(10), "10");
    assert_eq!(decimal_string(1234), "1234");
    assert_eq!(decimal_string(usize::MAX), usize::MAX.to_string());
    assert_eq!(
        run_message(4, 1, false),
        "4 consecutive comment lines (max allowed 1)"
    );
    assert_eq!(
        run_message(12, 10, true),
        "12 consecutive doc-comment lines (max allowed 10)"
    );
}

#[test]
fn defaults_are_as_documented() {
    let c = Config::default();
    assert_eq!(c.level, RuleLevel::Allow);
    assert_eq!(f64::from_bits(c.max_ratio_bits), 0.30);
    assert_eq!(c.max_ratio_bits, DEFAULT_MAX_RATIO_BITS);
    assert!(c.count_doc_comments);
    assert_eq!(c.max_consecutive, 0);
    assert_eq!(c.max_doc_consecutive, 0);
    assert_eq!(c.min_lines, 10);
    assert!(c.skip_header);
    let o = Override::default();
    assert_eq!(o.level, None);
    assert_eq!(o.min_lines, None);
}

#[test]
fn override_replaces_only_what_it_sets() {
    let mut c = Config::default();
    apply_override(&mut c, &Override::default());
    assert_eq!(c, Config::default());
    let o = Override {
        level: Some(RuleLevel::Deny),
        max_ratio_bits: Some(0.5f64.to_bits()),
        min_lines: Some(3),
        ..Override::default()
    };
    apply_override(&mut c, &o);
    assert_eq!(c.level, RuleLevel::Deny);
    assert_eq!(f64::from_bits(c.max_ratio_bits), 0.5);
    assert_eq!(c.min_lines, 3);
    assert!(c.count_doc_comments);
    assert!(c.skip_header);
    let once = c;
    apply_override(&mut c, &o);
    assert_eq!(c, once, "applying an override twice changes nothing more");
}

#[test]
fn rule_keeps_its_settings_and_name() {
    let cfg = Config {
        max_consecutive: 7,
        skip_header: false,
        ..Config::default()
    };
    let r = Rule::new(&cfg);
    assert_eq!(r.max_consecutive, 7);
    assert!(!r.skip_header);
    assert_eq!(r.min_lines, 10);
    assert_eq!(r.name(), "file-comments");
}

#[test]
fn body_start_skips_shebang_blanks_and_one_header() {
    let r = Rule::new(&Config::default());
    assert_eq!(r.body_start(&[]), 0);
    assert_eq!(r.body_start(&["#!/bin/sh", "", "  ", "// header", "// next"]), 4);
    assert_eq!(r.body_start(&["   // indented header", "x"]), 1);
    assert_eq!(r.body_start(&["fn main() {}", "// c"]), 0);
    assert_eq!(r.body_start(&["", "\t", ""]), 3);
    assert_eq!(r.body_start(&["  #!/bin/sh", "x"]), 0, "a shebang is only a shebang at column 0");
    let counted = Rule::new(&Config {
        skip_header: false,
        ..Config::default()
    });
    assert_eq!(counted.body_start(&["#!x", "", "// header"]), 2);
}

#[test]
fn measure_counts_kinds_and_runs() {
    let r = Rule::new(&Config::default());
    let c = r.measure(&["// a", "  // b", "", "/// d", "/// e", "x", "// f"]);
    assert_eq!(c.comments, 5);
    assert_eq!(c.code, 1);
    assert_eq!((c.worst_plain.len, c.worst_plain.end), (2, 2));
    assert_eq!((c.worst_doc.len, c.worst_doc.end), (2, 5));
    let no_doc = Rule::new(&Config {
        count_doc_comments: false,
        ..Config::default()
    });
    let c2 = no_doc.measure(&["// a", "  // b", "", "/// d", "/// e", "x", "// f"]);
    assert_eq!(c2.comments, 3);
    assert_eq!(c2.code, 3);
    assert_eq!(c.comments + c.code, c2.comments + c2.code);
}

#[test]
fn the_first_longest_run_is_reported() {
    let r = Rule::new(&Config::default());
    let c = r.measure(&["// a", "// b", "x", "// c", "// d", "", "// e"]);
    assert_eq!((c.worst_plain.len, c.worst_plain.end), (2, 2));
    assert_eq!((c.worst_doc.len, c.worst_doc.end), (0, 0));
}

#[test]
fn doc_lines_inside_a_fence_are_code() {
    let r = Rule::new(&Config::default());
    let c = r.measure(&["/// a", "/// ```", "/// x", "/// ```", "/// b"]);
    assert_eq!(c.comments, 2);
    assert_eq!(c.code, 3);
    assert_eq!((c.worst_doc.len, c.worst_doc.end), (1, 1));
    let open = r.measure(&["/// ```", "/// x", "/// y", "// plain"]);
    assert_eq!(open.comments, 1, "an unclosed fence runs to the end");
    assert_eq!(open.code, 3);
}

#[test]
fn scan_splits_lines_and_finds_the_body() {
    let r = Rule::new(&Config::default());
    let s = r.scan("#!/x\r\n\r\n// header\r\n// a\r\n// b\r\nlet y = 2;");
    assert_eq!(s.start, 3);
    assert_eq!(s.counts.comments, 2);
    assert_eq!(s.counts.code, 1);
    assert_eq!((s.counts.worst_plain.len, s.counts.worst_plain.end), (2, 2));
    let empty = r.scan("");
    assert_eq!(empty.start, 0);
    assert_eq!(empty.counts.comments + empty.counts.code, 0);
    let only_blank = r.scan("\n\n   \n");
    assert_eq!(only_blank.start, 3);
}

#[test]
fn report_orders_ratio_plain_doc_and_offsets_lines() {
    let r = quiet(Config {
        max_consecutive: 1,
        max_doc_consecutive: 1,
        min_lines: 1,
        ..Config::default()
    });
    let s = r.scan("// header\n\n// a\n// b\n/// c\n/// d\n/// e\nx\n");
    let d = r.report(&s, Some(String::from("ratio")), "f.rs");
    assert_eq!(d.len(), 3);
    assert_eq!(d[0].message, "ratio");
    assert_eq!(d[0].line, None);
    assert_eq!(d[1].message, "2 consecutive comment lines (max allowed 1)");
    assert_eq!(d[1].line, Some(4));
    assert_eq!(d[2].message, "3 consecutive doc-comment lines (max allowed 1)");
    assert_eq!(d[2].line, Some(7));
    assert!(d.iter().all(|x| x.rule == "file-comments" && x.level == RuleLevel::Warn && x.file == "f.rs"));
}

#[test]
fn a_short_file_gets_no_report_even_with_a_ratio_message() {
    let r = quiet(Config {
        max_consecutive: 1,
        ..Config::default()
    });
    let s = r.scan("// header\n// a\n// b\n");
    assert!(r.report(&s, Some(String::from("ratio")), "f.rs").is_empty());
}

#[test]
fn zero_caps_leave_only_the_ratio() {
    let r = quiet(Config {
        min_lines: 0,
        ..Config::default()
    });
    let s = r.scan("// a\n// b\n// c\n/// d\n/// e\n");
    assert!(r.report(&s, None, "f.rs").is_empty());
    let d = r.report(&s, Some(String::from("over")), "f.rs");
    assert_eq!(d.len(), 1);
    assert_eq!(d[0].line, None);
}

#[test]
fn diagnostic_constructors_keep_their_values() {
    let d = Diagnostic::new("r", RuleLevel::Deny, String::from("m"), "p.rs");
    assert_eq!(d.rule, "r");
    assert_eq!(d.level, RuleLevel::Deny);
    assert_eq!(d.message, "m");
    assert_eq!(d.file, "p.rs");
    assert_eq!(d.line, None);
    let d = d.with_line(9);
    assert_eq!(d.line, Some(9));
    assert_eq!(d.message, "m");
}

#[test]
fn a_sample_body_measures_what_was_asked() {
    let r = Rule::new(&Config::default());
    for (comments, code) in [(0, 0), (3, 4), (5, 0), (0, 6)] {
        let s = r.scan(&body(comments, code));
        assert_eq!(s.start, 1);
        assert_eq!(s.counts.comments, comments);
        assert_eq!(s.counts.code, code);
        assert_eq!(s.counts.worst_plain.len, comments);
        assert_eq!(s.counts.worst_doc.len, 0);
    }
}
