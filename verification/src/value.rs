//! Literal values. A literal is held by its SQL text; this module also
//! fixes how a string is written as a quoted literal.

use vstd::prelude::*;
use vstd::std_specs::cmp::PartialEqSpecImpl;
use vstd::string::*;

verus! {

/// The text with every single quote written twice.
pub open spec fn escape_single_quotes(s: Seq<char>) -> Seq<char>
    decreases s.len(),
{
    if s.len() == 0 {
        Seq::empty()
    } else if s.last() == '\'' {
        escape_single_quotes(s.drop_last()) + seq!['\'', '\'']
    } else {
        escape_single_quotes(s.drop_last()) + seq![s.last()]
    }
}

/// A string as a literal: between single quotes, its own quotes doubled.
pub open spec fn single_quoted(s: Seq<char>) -> Seq<char> {
    seq!['\''] + escape_single_quotes(s) + seq!['\'']
}

/// Writes a string as a single-quoted literal.
pub fn quote_string(s: &str) -> (out: String)
    ensures
        out@ == single_quoted(s@),
{
    proof {
        reveal_strlit("'");
    }
    let mut out = String::from_str("'");
    let n = s.unicode_len();
    let mut start: usize = 0;
    let mut i: usize = 0;
    for c in it: s.chars()
        invariant
            i == it.index(),
            it.seq() == s@,
            start <= i <= n,
            n == s@.len(),
            out@ + s@.subrange(start as int, i as int) == seq!['\''] + escape_single_quotes(
                s@.take(i as int),
            ),
    {
        let ghost done = escape_single_quotes(s@.take(i as int));
        let ghost pending = s@.subrange(start as int, i as int);
        let ghost before = out@;
        assert(c == s@[i as int]);
        assert(s@.take(i + 1).drop_last() =~= s@.take(i as int));
        assert(s@.take(i + 1).last() == c);
        if c == '\'' {
            out.append(s.substring_char(start, i));
            out.append("''");
            start = i + 1;
            proof {
                reveal_strlit("''");
            }
            assert(out@ + s@.subrange(start as int, i + 1) =~= (before + pending) + seq!['\'', '\'']);
            assert(seq!['\''] + (done + seq!['\'', '\'']) =~= (seq!['\''] + done) + seq!['\'', '\'']);
        } else {
            assert(out@ + s@.subrange(start as int, i + 1) =~= (before + pending) + seq![c]);
            assert(seq!['\''] + (done + seq![c]) =~= (seq!['\''] + done) + seq![c]);
        }
        i += 1;
    }
    out.append(s.substring_char(start, n));
    out.append("'");
    proof {
        assert(s@.take(n as int) =~= s@);
    }
    out
}

/// A literal value (number, string, boolean, null, date or time), held by its canonical text.
#[derive(Debug, Hash)]
pub struct Value {
    /// The literal as it is written in SQL.
    pub text: String,
}

impl View for Value {
    type V = Seq<char>;

    open spec fn view(&self) -> Seq<char> {
        self.text@
    }
}

impl Value {
    /// The SQL text of this value.
    pub open spec fn text(&self) -> Seq<char> {
        self@
    }

    pub fn new(text: String) -> (r: Value)
        ensures
            r@ == text@,
    {
        Value { text }
    }

    /// The string literal that holds `s`.
    pub fn single_quoted_string(s: &str) -> (r: Value)
        ensures
            r@ == single_quoted(s@),
    {
        Value { text: quote_string(s) }
    }

    pub fn to_string(&self) -> (out: String)
        ensures
            out@ == self.text(),
    {
        self.text.clone()
    }
}

impl Clone for Value {
    fn clone(&self) -> (r: Value)
        ensures
            r@ == self@,
    {
        Value { text: self.text.clone() }
    }
}

impl PartialEq for Value {
    fn eq(&self, other: &Value) -> (r: bool) {
        self.text == other.text
    }
}

impl Eq for Value {
}

impl PartialEqSpecImpl for Value {
    open spec fn obeys_eq_spec() -> bool {
        true
    }

    open spec fn eq_spec(&self, other: &Value) -> bool {
        self@ == other@
    }
}

} // verus!
