//! The rule's settings, and how a per-test override changes them.
//!
//! `max_ratio` is a floating-point fraction in the settings file. The library
//! keeps it as its IEEE-754 bit pattern (`f64::to_bits`), untouched, so that it
//! is carried through exactly; the one comparison made with it happens where
//! floating point is available.
use vstd::prelude::*;
use crate::diagnostic::RuleLevel;

verus! {

/// The bit pattern of `0.30_f64`, the default ratio cap.
pub const DEFAULT_MAX_RATIO_BITS: u64 = 0x3FD3_3333_3333_3333;

/// Settings of the `file-comments` rule.
#[derive(Clone, Copy, PartialEq, Eq, Structural, Debug)]
pub struct Config {
    pub level: RuleLevel,
    /// Comment lines as a fraction of all non-blank lines, as the bits of an `f64`.
    /// Zero (the bits of `0.0`) disables the ratio check.
    pub max_ratio_bits: u64,
    /// Whether `///` and `//!` lines count toward the ratio.
    pub count_doc_comments: bool,
    /// Longest run of adjacent `//` lines allowed. `0` disables.
    pub max_consecutive: usize,
    /// Longest run of adjacent `///` / `//!` lines allowed. `0` disables.
    pub max_doc_consecutive: usize,
    /// Files with fewer non-blank lines than this are skipped.
    pub min_lines: usize,
    /// Leave a leading comment line (licence banner, ownership header) out of the counts.
    pub skip_header: bool,
}

/// The settings a rule has when nothing is configured.
pub open spec fn default_config() -> Config {
    Config {
        level: RuleLevel::Allow,
        max_ratio_bits: DEFAULT_MAX_RATIO_BITS,
        count_doc_comments: true,
        max_consecutive: 0,
        max_doc_consecutive: 0,
        min_lines: 10,
        skip_header: true,
    }
}

impl Default for Config {
    fn default() -> (c: Self)
        ensures
            c == default_config(),
    {
        Config {
            level: RuleLevel::Allow,
            max_ratio_bits: DEFAULT_MAX_RATIO_BITS,
            count_doc_comments: true,
            max_consecutive: 0,
            max_doc_consecutive: 0,
            min_lines: 10,
            skip_header: true,
        }
    }
}

/// A partial set of settings, for one test or one path: each field that is
/// present replaces the rule's own.
#[derive(Clone, Copy, PartialEq, Eq, Structural, Debug)]
pub struct Override {
    pub level: Option<RuleLevel>,
    pub max_ratio_bits: Option<u64>,
    pub count_doc_comments: Option<bool>,
    pub max_consecutive: Option<usize>,
    pub max_doc_consecutive: Option<usize>,
    pub min_lines: Option<usize>,
    pub skip_header: Option<bool>,
}

/// The override that changes nothing.
pub open spec fn empty_override() -> Override {
    Override {
        level: None,
        max_ratio_bits: None,
        count_doc_comments: None,
        max_consecutive: None,
        max_doc_consecutive: None,
        min_lines: None,
        skip_header: None,
    }
}

impl Default for Override {
    fn default() -> (o: Self)
        ensures
            o == empty_override(),
    {
        Override {
            level: None,
            max_ratio_bits: None,
            count_doc_comments: None,
            max_consecutive: None,
            max_doc_consecutive: None,
            min_lines: None,
            skip_header: None,
        }
    }
}

/// The value in `o` if there is one, else `d`.
pub open spec fn or_keep<T>(o: Option<T>, d: T) -> T {
    match o {
        Some(v) => v,
        None => d,
    }
}

/// `cfg` with every field that `o` sets replaced.
pub open spec fn overridden(cfg: Config, o: Override) -> Config {
    Config {
        level: or_keep(o.level, cfg.level),
        max_ratio_bits: or_keep(o.max_ratio_bits, cfg.max_ratio_bits),
        count_doc_comments: or_keep(o.count_doc_comments, cfg.count_doc_comments),
        max_consecutive: or_keep(o.max_consecutive, cfg.max_consecutive),
        max_doc_consecutive: or_keep(o.max_doc_consecutive, cfg.max_doc_consecutive),
        min_lines: or_keep(o.min_lines, cfg.min_lines),
        skip_header: or_keep(o.skip_header, cfg.skip_header),
    }
}

/// Replaces each setting of `cfg` that `o` sets.
pub fn apply_override(cfg: &mut Config, o: &Override)
    ensures
        *final(cfg) == overridden(*old(cfg), *o),
{
    if let Some(v) = o.level {
        cfg.level = v;
    }
    if let Some(v) = o.max_ratio_bits {
        cfg.max_ratio_bits = v;
    }
    if let Some(v) = o.count_doc_comments {
        cfg.count_doc_comments = v;
    }
    if let Some(v) = o.max_consecutive {
        cfg.max_consecutive = v;
    }
    if let Some(v) = o.max_doc_consecutive {
        cfg.max_doc_consecutive = v;
    }
    if let Some(v) = o.min_lines {
        cfg.min_lines = v;
    }
    if let Some(v) = o.skip_header {
        cfg.skip_header = v;
    }
}

/// An override that sets nothing leaves the settings as they were.
pub proof fn law_empty_override_keeps_config(cfg: Config)
    ensures
        overridden(cfg, empty_override()) == cfg,
{
}

/// Applying the same override a second time changes nothing more.
pub proof fn law_override_is_idempotent(cfg: Config, o: Override)
    ensures
        overridden(overridden(cfg, o), o) == overridden(cfg, o),
{
}

/// Each setting an override sets wins, and each setting it leaves out keeps the
/// value it had.
pub proof fn law_each_set_field_wins(cfg: Config, o: Override)
    ensures
        ({
            let c = overridden(cfg, o);
            &&& c.level == (if o.level is Some { o.level->0 } else { cfg.level })
            &&& c.max_ratio_bits == (if o.max_ratio_bits is Some {
                o.max_ratio_bits->0
            } else {
                cfg.max_ratio_bits
            })
            &&& c.count_doc_comments == (if o.count_doc_comments is Some {
                o.count_doc_comments->0
            } else {
                cfg.count_doc_comments
            })
            &&& c.max_consecutive == (if o.max_consecutive is Some {
                o.max_consecutive->0
            } else {
                cfg.max_consecutive
            })
            &&& c.max_doc_consecutive == (if o.max_doc_consecutive is Some {
                o.max_doc_consecutive->0
            } else {
                cfg.max_doc_consecutive
            })
            &&& c.min_lines == (if o.min_lines is Some { o.min_lines->0 } else { cfg.min_lines })
            &&& c.skip_header == (if o.skip_header is Some {
                o.skip_header->0
            } else {
                cfg.skip_header
            })
        }),
{
}

/// The defaults: the rule is off, the ratio cap is `0.30`, doc comments count,
/// both run caps are off, files under ten lines are skipped, and a header is skipped.
pub proof fn law_default_settings()
    ensures
        default_config().level == RuleLevel::Allow,
        default_config().max_ratio_bits == 0x3FD3_3333_3333_3333u64,
        default_config().count_doc_comments,
        default_config().max_consecutive == 0,
        default_config().max_doc_consecutive == 0,
        default_config().min_lines == 10,
        default_config().skip_header,
        empty_override().level is None && empty_override().max_ratio_bits is None
            && empty_override().count_doc_comments is None && empty_override().max_consecutive is None
            && empty_override().max_doc_consecutive is None && empty_override().min_lines is None
            && empty_override().skip_header is None,
{
}

} // verus!
