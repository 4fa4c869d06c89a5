//! The slice of a token that the classifier reads. Source positions are
//! tracked by the surrounding lexer and are out of scope here.

use vstd::prelude::*;

verus! {

#[derive(Debug, PartialEq, Eq, Clone)]
pub struct Token {
    pub lexeme: String,
}

impl Token {
    /// The token's source text.
    pub fn lexeme(&self) -> (r: &str)
        ensures
            r@ == self.lexeme@,
    {
        self.lexeme.as_str()
    }
}

} // verus!
