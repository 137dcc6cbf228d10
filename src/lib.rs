//! Normalization of compiler diagnostics for snapshot tests, and the small
//! registry of test cases around it.
//!
//! Raw compiler output is turned into one normalized variant per level
//! (`normalize::diagnostics`); a saved snapshot passes when it equals any of
//! them (`normalize::Variations::any`). Each step of the pipeline is stated as
//! a spec function over `Seq<char>` and proved against it.

/// Character-level text operations.
pub mod text;
/// The append-only chain of normalization levels.
pub mod level;
/// The structural kind of a diagnostic line.
pub mod classify;
/// The read-only context of a normalization.
pub mod context;
/// Hiding of line numbers and case-insensitive path replacement.
pub mod rewrite;
/// Placeholders for the paths of location lines.
pub mod location;
/// The line filter of one pass.
pub mod filter;
/// Collapsing of the indentation of diagnostic blocks.
pub mod unindent;
/// The pipeline and its variants.
pub mod normalize;
/// Laws of the pipeline.
pub mod laws;
/// Registered test cases and the verdicts on them.
pub mod cases;
/// Path joining.
pub mod path;
/// A xorshift generator.
pub mod prng;
/// Expansion of test cases into uniquely named binaries.
pub mod expand;
/// The project the tests are built in.
pub mod project;
/// The diff shown on a mismatch.
pub mod diff;
/// Test filters and cargo flags.
pub mod args;
