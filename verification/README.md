# cargo_lint_extra: the `file-comments` rule

A verified library for the `file-comments` lint rule. The rule measures a
Rust source file: after an optional `#!` line, leading blank lines and one
header comment, each non-blank line counts as a comment or as code (doc lines
inside fenced examples are code). It then reports a comment ratio over its cap,
and the longest run of adjacent `//` lines and of adjacent `///`/`//!` lines
when either is over its own cap.

- `src/` is verified with Verus. Its contracts state exactly what each step
  computes; the laws of the rule are proof functions beside the code
  (`law_*`).
- `app/` holds what the library cannot: the settings types that serde reads,
  and the whole-file check, whose ratio test is a floating-point comparison.
  The library keeps the ratio cap as the bit pattern of the `f64`.
- `tests/` runs the library on concrete files.
