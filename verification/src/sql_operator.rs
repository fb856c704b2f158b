//! Operators of unary and binary expressions.

use vstd::prelude::*;
use vstd::std_specs::cmp::PartialEqSpecImpl;

verus! {

/// A unary or binary operator, held by its canonical symbol (`+`, `<=`, `AND`, `NOT`).
#[derive(Debug, Hash)]
pub struct SQLOperator {
    /// The symbol as it is written in SQL.
    pub text: String,
}

impl View for SQLOperator {
    type V = Seq<char>;

    open spec fn view(&self) -> Seq<char> {
        self.text@
    }
}

impl SQLOperator {
    /// The SQL text of this value.
    pub open spec fn text(&self) -> Seq<char> {
        self@
    }

    pub fn new(text: String) -> (r: SQLOperator)
        ensures
            r@ == text@,
    {
        SQLOperator { text }
    }

    pub fn to_string(&self) -> (out: String)
        ensures
            out@ == self.text(),
    {
        self.text.clone()
    }
}

impl Clone for SQLOperator {
    fn clone(&self) -> (r: SQLOperator)
        ensures
            r@ == self@,
    {
        SQLOperator { text: self.text.clone() }
    }
}

impl PartialEq for SQLOperator {
    fn eq(&self, other: &SQLOperator) -> (r: bool) {
        self.text == other.text
    }
}

impl Eq for SQLOperator {
}

impl PartialEqSpecImpl for SQLOperator {
    open spec fn obeys_eq_spec() -> bool {
        true
    }

    open spec fn eq_spec(&self, other: &SQLOperator) -> bool {
        self@ == other@
    }
}

} // verus!
