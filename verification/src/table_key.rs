//! Operations of `ALTER TABLE`.

use vstd::prelude::*;
use vstd::std_specs::cmp::PartialEqSpecImpl;

verus! {

/// What an `ALTER TABLE` statement does to its table, held by its canonical text.
#[derive(Debug, Hash)]
pub struct AlterOperation {
    /// The canonical SQL text of the operation.
    pub text: String,
}

impl View for AlterOperation {
    type V = Seq<char>;

    open spec fn view(&self) -> Seq<char> {
        self.text@
    }
}

impl AlterOperation {
    /// The SQL text of this value.
    pub open spec fn text(&self) -> Seq<char> {
        self@
    }

    pub fn new(text: String) -> (r: AlterOperation)
        ensures
            r@ == text@,
    {
        AlterOperation { text }
    }

    pub fn to_string(&self) -> (out: String)
        ensures
            out@ == self.text(),
    {
        self.text.clone()
    }
}

impl Clone for AlterOperation {
    fn clone(&self) -> (r: AlterOperation)
        ensures
            r@ == self@,
    {
        AlterOperation { text: self.text.clone() }
    }
}

impl PartialEq for AlterOperation {
    fn eq(&self, other: &AlterOperation) -> (r: bool) {
        self.text == other.text
    }
}

impl Eq for AlterOperation {
}

impl PartialEqSpecImpl for AlterOperation {
    open spec fn obeys_eq_spec() -> bool {
        true
    }

    open spec fn eq_spec(&self, other: &AlterOperation) -> bool {
        self@ == other@
    }
}

} // verus!
