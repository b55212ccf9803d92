//! Token-count reporting engine.
//!
//! The crate resolves user-supplied arguments (literal paths, glob patterns,
//! or the stdin sentinel `-`) into concrete input units, turns each unit's
//! content into a per-unit outcome via an external tokenizer, and renders the
//! outcomes of one scope as column-aligned count lines with an optional
//! trailing total.
//!
//! Design choices, fixed here: processing is sequential and recursive; the
//! column width is computed over the current scope only; lines of a scope are
//! buffered and printed when the scope ends; the "Is a directory" diagnostic
//! goes to standard output, every other diagnostic to the error stream.

pub mod lines;
pub mod numerals;
pub mod oracle;
pub mod outcome;
pub mod render;
pub mod resolve;
