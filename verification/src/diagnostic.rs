//! What a rule reports, and how counts are written into its messages.
use vstd::prelude::*;
use vstd::string::StringExecFns;

verus! {

/// How loudly a rule reports.
#[derive(Clone, Copy, PartialEq, Eq, Structural, Debug)]
pub enum RuleLevel {
    Allow,
    Warn,
    Deny,
}

/// One finding of a rule in one file.
#[derive(Debug)]
pub struct Diagnostic {
    pub rule: String,
    pub level: RuleLevel,
    pub message: String,
    pub file: String,
    /// The 1-based line the finding is about; `None` for a whole-file fact.
    pub line: Option<usize>,
}

/// A diagnostic as the values it holds.
pub struct DiagnosticView {
    pub rule: Seq<char>,
    pub level: RuleLevel,
    pub message: Seq<char>,
    pub file: Seq<char>,
    pub line: Option<usize>,
}

impl View for Diagnostic {
    type V = DiagnosticView;

    open spec fn view(&self) -> DiagnosticView {
        DiagnosticView {
            rule: self.rule@,
            level: self.level,
            message: self.message@,
            file: self.file@,
            line: self.line,
        }
    }
}

/// The values of each diagnostic.
pub open spec fn views(ds: Seq<Diagnostic>) -> Seq<DiagnosticView> {
    ds.map_values(|d: Diagnostic| d@)
}

impl Diagnostic {
    /// A whole-file diagnostic.
    pub fn new(rule: &str, level: RuleLevel, message: String, file: &str) -> (d: Self)
        ensures
            d@ == (DiagnosticView { rule: rule@, level, message: message@, file: file@, line: None }),
    {
        Diagnostic { rule: rule.to_owned(), level, message, file: file.to_owned(), line: None }
    }

    /// The same diagnostic, about line `line`.
    pub fn with_line(self, line: usize) -> (d: Self)
        ensures
            d@ == (DiagnosticView { line: Some(line), ..self@ }),
    {
        Diagnostic { line: Some(line), ..self }
    }
}

/// The character of the decimal digit `d`.
pub open spec fn digit_char(d: nat) -> char {
    seq!['0', '1', '2', '3', '4', '5', '6', '7', '8', '9'][d as int]
}

/// The value of a decimal digit character.
pub open spec fn digit_value(c: char) -> int {
    c as u32 - 0x30
}

/// `n` written in decimal, without leading zeros.
pub open spec fn decimal(n: nat) -> Seq<char>
    decreases n,
{
    if n < 10 {
        seq![digit_char(n)]
    } else {
        decimal(n / 10).push(digit_char(n % 10))
    }
}

/// The number a string of decimal digits stands for.
pub open spec fn decimal_value(s: Seq<char>) -> int
    decreases s.len(),
{
    if s.len() == 0 {
        0
    } else {
        decimal_value(s.drop_last()) * 10 + digit_value(s.last())
    }
}

/// The one-character string of the digit `d`.
fn digit_str(d: usize) -> (s: &'static str)
    requires
        d < 10,
    ensures
        s@ == seq![digit_char(d as nat)],
{
    match d {
        0 => {
            proof {
                reveal_strlit("0");
            }
            "0"
        },
        1 => {
            proof {
                reveal_strlit("1");
            }
            "1"
        },
        2 => {
            proof {
                reveal_strlit("2");
            }
            "2"
        },
        3 => {
            proof {
                reveal_strlit("3");
            }
            "3"
        },
        4 => {
            proof {
                reveal_strlit("4");
            }
            "4"
        },
        5 => {
            proof {
                reveal_strlit("5");
            }
            "5"
        },
        6 => {
            proof {
                reveal_strlit("6");
            }
            "6"
        },
        7 => {
            proof {
                reveal_strlit("7");
            }
            "7"
        },
        8 => {
            proof {
                reveal_strlit("8");
            }
            "8"
        },
        _ => {
            proof {
                reveal_strlit("9");
            }
            "9"
        },
    }
}

/// `n` written in decimal.
pub fn decimal_string(n: usize) -> (s: String)
    ensures
        s@ == decimal(n as nat),
    decreases n,
{
    if n < 10 {
        digit_str(n).to_owned()
    } else {
        let mut s = decimal_string(n / 10);
        s.append(digit_str(n % 10));
        s
    }
}

proof fn lemma_digit_value(d: nat)
    requires
        d < 10,
    ensures
        digit_value(digit_char(d)) == d,
{
    let digits = seq!['0', '1', '2', '3', '4', '5', '6', '7', '8', '9'];
    assert(digits[0] == '0' && digits[1] == '1' && digits[2] == '2' && digits[3] == '3');
    assert(digits[4] == '4' && digits[5] == '5' && digits[6] == '6' && digits[7] == '7');
    assert(digits[8] == '8' && digits[9] == '9');
}

/// Reading back the decimal form of `n` gives `n`: messages state counts exactly.
pub proof fn law_decimal_reads_back(n: nat)
    ensures
        decimal_value(decimal(n)) == n,
        decimal(n).len() >= 1,
    decreases n,
{
    lemma_digit_value(n % 10);
    if n >= 10 {
        law_decimal_reads_back(n / 10);
        assert(decimal(n).drop_last() =~= decimal(n / 10));
        assert(decimal(n).last() == digit_char(n % 10));
    } else {
        assert(decimal(n).drop_last() =~= Seq::<char>::empty());
        assert(decimal_value(Seq::<char>::empty()) == 0);
    }
}

/// The decimal form of `n` is made of the ASCII digits `0` to `9`, has no leading
/// zero, and each digit stands for its place in `0..=9`.
pub proof fn law_decimal_is_plain_digits(n: nat)
    ensures
        forall|i: int| 0 <= i < decimal(n).len() ==> 0x30 <= #[trigger] decimal(n)[i] as u32 <= 0x39,
        n > 0 ==> decimal(n)[0] != '0',
        forall|c: char| 0x30 <= c as u32 <= 0x39 ==> #[trigger] digit_value(c) == c as u32 - 0x30,
    decreases n,
{
    let digits = seq!['0', '1', '2', '3', '4', '5', '6', '7', '8', '9'];
    assert(digits[0] == '0' && digits[1] == '1' && digits[2] == '2' && digits[3] == '3');
    assert(digits[4] == '4' && digits[5] == '5' && digits[6] == '6' && digits[7] == '7');
    assert(digits[8] == '8' && digits[9] == '9');
    if n >= 10 {
        law_decimal_is_plain_digits(n / 10);
        let d = decimal(n);
        assert forall|i: int| 0 <= i < d.len() implies 0x30 <= #[trigger] d[i] as u32 <= 0x39 by {
            if i < d.len() - 1 {
                assert(d[i] == decimal(n / 10)[i]);
            }
        }
        assert(d[0] == decimal(n / 10)[0]);
    }
}

/// `views` keeps the diagnostics in order, each by its values.
pub proof fn law_views_keep_order(ds: Seq<Diagnostic>)
    ensures
        views(ds).len() == ds.len(),
        forall|i: int| 0 <= i < ds.len() ==> #[trigger] views(ds)[i] == ds[i]@,
        forall|i: int|
            0 <= i < ds.len() ==> views(ds)[i].rule == ds[i].rule@ && views(ds)[i].message
                == ds[i].message@ && views(ds)[i].file == ds[i].file@ && views(ds)[i].line
                == ds[i].line && views(ds)[i].level == ds[i].level,
{
}

} // verus!
