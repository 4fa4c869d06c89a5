//! Diagnostic tags raised while lexing. Positions and rendering belong to
//! the caller; this layer only selects the kind of diagnostic.

use vstd::prelude::*;

verus! {

#[derive(Debug, PartialEq, Eq, Clone)]
pub enum CompilationErrorKind {
    /// A defect in the front end itself, never caused by user input.
    Internal { message: String },
    /// A backtick literal ended before its closing delimiter.
    UnterminatedBacktick,
    /// A string literal ended before its closing delimiter.
    UnterminatedString,
}

} // verus!
