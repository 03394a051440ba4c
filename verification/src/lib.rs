//! Front end of a static type checker for Python-like source text.
//!
//! The crate turns raw source text into a positioned syntax tree and turns
//! any failure to do so into a structured, precisely located diagnostic.

pub mod ast;
pub mod extparse;
pub mod decfmt;
pub mod position;
pub mod diagnostics;
pub mod parser;
pub mod span;

pub use diagnostics::PyRustError;
