//! Core of a small script-language front end: the lexical string-form
//! classifier and the builtin-function evaluation layer.
//!
//! The classifier decides, from the raw start of a token, which quoting
//! convention opens a string-like literal and what rules govern its body.
//! The function table is a closed registry of named, fixed-arity native
//! operations; the evaluator runs one of them against a per-evaluation
//! context that layers an override map over a snapshot of the process
//! environment.

pub mod decimal;
pub mod diagnostics;
pub mod function;
pub mod function_context;
pub mod output_error;
pub mod string_kind;
pub mod text;
pub mod token;
pub mod token_kind;
