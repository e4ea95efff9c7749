//! The `file-comments` lint rule: prices the comment lines of a whole file
//! against its code, and caps runs of adjacent plain and doc comments.
//!
//! - [`text`]: the string operations the rule uses (trimming, prefixes, lines).
//! - [`kind`]: what one trimmed line is, and whether it fences a doc example.
//! - [`measure`]: the counts and runs of a file body, as specifications.
//! - [`config`]: the rule's settings and per-test overrides.
//! - [`diagnostic`]: what a rule reports, and decimal rendering of counts.
//! - [`rule`]: the rule itself: body start, measuring, scanning and reporting.
//! - [`sample`]: sample file texts of a known shape.

pub mod config;
pub mod diagnostic;
pub mod kind;
pub mod measure;
pub mod rule;
pub mod sample;
pub mod text;
