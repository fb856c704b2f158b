//! Queries and the items of an `ORDER BY` list. Their grammar is not part
//! of this crate: a value stands for a finished piece of SQL and is held by
//! its canonical text, which is all that the renderer reads.

use vstd::prelude::*;
use vstd::std_specs::cmp::PartialEqSpecImpl;

verus! {

/// A query (`SELECT ...`, with its set operations, ordering and limit).
#[derive(Debug, Hash)]
pub struct SQLQuery {
    /// The canonical SQL text of the query.
    pub text: String,
}

impl View for SQLQuery {
    type V = Seq<char>;

    open spec fn view(&self) -> Seq<char> {
        self.text@
    }
}

impl SQLQuery {
    /// The SQL text of this value.
    pub open spec fn text(&self) -> Seq<char> {
        self@
    }

    pub fn new(text: String) -> (r: SQLQuery)
        ensures
            r@ == text@,
    {
        SQLQuery { text }
    }

    pub fn to_string(&self) -> (out: String)
        ensures
            out@ == self.text(),
    {
        self.text.clone()
    }
}

impl Clone for SQLQuery {
    fn clone(&self) -> (r: SQLQuery)
        ensures
            r@ == self@,
    {
        SQLQuery { text: self.text.clone() }
    }
}

impl PartialEq for SQLQuery {
    fn eq(&self, other: &SQLQuery) -> (r: bool) {
        self.text == other.text
    }
}

impl Eq for SQLQuery {
}

impl PartialEqSpecImpl for SQLQuery {
    open spec fn obeys_eq_spec() -> bool {
        true
    }

    open spec fn eq_spec(&self, other: &SQLQuery) -> bool {
        self@ == other@
    }
}

/// One item of an `ORDER BY` list: an expression and its direction.
#[derive(Debug, Hash)]
pub struct SQLOrderByExpr {
    /// The canonical SQL text of the item.
    pub text: String,
}

impl View for SQLOrderByExpr {
    type V = Seq<char>;

    open spec fn view(&self) -> Seq<char> {
        self.text@
    }
}

impl SQLOrderByExpr {
    /// The SQL text of this value.
    pub open spec fn text(&self) -> Seq<char> {
        self@
    }

    pub fn new(text: String) -> (r: SQLOrderByExpr)
        ensures
            r@ == text@,
    {
        SQLOrderByExpr { text }
    }

    pub fn to_string(&self) -> (out: String)
        ensures
            out@ == self.text(),
    {
        self.text.clone()
    }
}

impl Clone for SQLOrderByExpr {
    fn clone(&self) -> (r: SQLOrderByExpr)
        ensures
            r@ == self@,
    {
        SQLOrderByExpr { text: self.text.clone() }
    }
}

impl PartialEq for SQLOrderByExpr {
    fn eq(&self, other: &SQLOrderByExpr) -> (r: bool) {
        self.text == other.text
    }
}

impl Eq for SQLOrderByExpr {
}

impl PartialEqSpecImpl for SQLOrderByExpr {
    open spec fn obeys_eq_spec() -> bool {
        true
    }

    open spec fn eq_spec(&self, other: &SQLOrderByExpr) -> bool {
        self@ == other@
    }
}

} // verus!
