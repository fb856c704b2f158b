//! Errors of the keyword parsers.

use vstd::prelude::*;
use vstd::std_specs::cmp::PartialEqSpecImpl;

verus! {

/// Why a text could not be read.
#[derive(Debug, Hash)]
pub enum ParserError {
    /// The text is not what the grammar allows at this place; the message
    /// names what was expected and what was found.
    ParserError(String),
}

impl View for ParserError {
    type V = Seq<char>;

    /// The message.
    open spec fn view(&self) -> Seq<char> {
        match self {
            ParserError::ParserError(message) => message@,
        }
    }
}

impl ParserError {
    /// The message, for display.
    pub fn to_string(&self) -> (out: String)
        ensures
            out@ == self@,
    {
        match self {
            ParserError::ParserError(message) => message.clone(),
        }
    }
}

impl Clone for ParserError {
    fn clone(&self) -> (r: ParserError)
        ensures
            r@ == self@,
    {
        match self {
            ParserError::ParserError(message) => ParserError::ParserError(message.clone()),
        }
    }
}

impl PartialEq for ParserError {
    fn eq(&self, other: &ParserError) -> (r: bool) {
        match (self, other) {
            (ParserError::ParserError(a), ParserError::ParserError(b)) => *a == *b,
        }
    }
}

impl Eq for ParserError {
}

impl PartialEqSpecImpl for ParserError {
    open spec fn obeys_eq_spec() -> bool {
        true
    }

    open spec fn eq_spec(&self, other: &ParserError) -> bool {
        self@ == other@
    }
}

} // verus!
