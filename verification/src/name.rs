//! Identifiers and qualified names.

use crate::text::{clone_strings, join, join_strings, strings_equal, views};
use vstd::prelude::*;
use vstd::std_specs::cmp::PartialEqSpecImpl;

verus! {

/// An identifier, in the form in which it was written (quotes included).
pub type SQLIdent = String;

/// The name of a table, view or custom type, possibly qualified:
/// `db.schema.obj` has three parts.
#[derive(Debug, Hash)]
pub struct SQLObjectName(pub Vec<SQLIdent>);

/// Identifiers joined by dots.
pub open spec fn dotted(parts: Seq<Seq<char>>) -> Seq<char> {
    join(parts, "."@)
}

impl View for SQLObjectName {
    type V = Seq<Seq<char>>;

    /// The parts of the name, outermost first.
    open spec fn view(&self) -> Seq<Seq<char>> {
        views(self.0@)
    }
}

impl SQLObjectName {
    /// The parts joined by dots.
    pub open spec fn text(&self) -> Seq<char> {
        dotted(self@)
    }

    /// A name has at least one part.
    pub open spec fn well_formed(&self) -> bool {
        self@.len() > 0
    }

    pub fn is_well_formed(&self) -> (r: bool)
        ensures
            r == self.well_formed(),
    {
        self.0.len() > 0
    }

    pub fn to_string(&self) -> (out: String)
        ensures
            out@ == self.text(),
    {
        join_strings(&self.0, ".")
    }
}

impl Clone for SQLObjectName {
    fn clone(&self) -> (r: SQLObjectName)
        ensures
            r@ == self@,
    {
        SQLObjectName(clone_strings(&self.0))
    }
}

impl PartialEq for SQLObjectName {
    fn eq(&self, other: &SQLObjectName) -> (r: bool) {
        strings_equal(&self.0, &other.0)
    }
}

impl Eq for SQLObjectName {
}

impl PartialEqSpecImpl for SQLObjectName {
    open spec fn obeys_eq_spec() -> bool {
        true
    }

    open spec fn eq_spec(&self, other: &SQLObjectName) -> bool {
        self@ == other@
    }
}

/// A dotted name is empty only without parts, or with a single empty part.
pub proof fn lemma_dotted_empty(parts: Seq<Seq<char>>)
    ensures
        dotted(parts).len() == 0 <==> parts.len() == 0 || (parts.len() == 1 && parts[0].len()
            == 0),
{
    reveal_strlit(".");
    crate::text::lemma_join_empty(parts, "."@);
}

} // verus!
