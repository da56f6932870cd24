//! Recognition of identifier-shaped symbols in formula text, over a compact
//! trie classification of Unicode scalar values.

/// The three-level trie sets of Unicode scalar values.
pub mod trie;

/// The identifier-start and identifier-continue tables.
pub mod tables;

/// The two character classes and membership in them.
pub mod classify;

/// UTF-8 lengths and boundaries of character sequences.
pub mod encoding;

/// The offset-tracking view of the input left to read.
pub mod cursor;

/// The identifier grammar, stated over character sequences.
pub mod grammar;

/// Errors reported to callers.
pub mod errors;

/// Symbols, the tokenizing step that recognizes them, and whole-text
/// validation.
pub mod symbol;
