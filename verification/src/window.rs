//! Window frames: the units, the bounds, and the frame clause built from
//! them.

use crate::error::ParserError;
use crate::text::{decimal, decimal_string, str_eq};
use vstd::prelude::*;
use vstd::string::*;

verus! {

/// The units in which a window frame counts.
#[derive(Debug, Clone, Copy, PartialEq, Eq, Structural, Hash)]
pub enum SQLWindowFrameUnits {
    Rows,
    Range,
    Groups,
}

impl SQLWindowFrameUnits {
    /// The keyword of the units.
    pub open spec fn text(&self) -> Seq<char> {
        match self {
            SQLWindowFrameUnits::Rows => "ROWS"@,
            SQLWindowFrameUnits::Range => "RANGE"@,
            SQLWindowFrameUnits::Groups => "GROUPS"@,
        }
    }

    /// The units that a keyword names. Keywords are in upper case, and
    /// nothing else is accepted.
    pub open spec fn parse(s: Seq<char>) -> Option<SQLWindowFrameUnits> {
        if s == "ROWS"@ {
            Some(SQLWindowFrameUnits::Rows)
        } else if s == "RANGE"@ {
            Some(SQLWindowFrameUnits::Range)
        } else if s == "GROUPS"@ {
            Some(SQLWindowFrameUnits::Groups)
        } else {
            None
        }
    }

    /// The message of the error for a text that names no units.
    pub open spec fn parse_error(s: Seq<char>) -> Seq<char> {
        "Expected ROWS, RANGE, or GROUPS, found: "@ + s
    }

    pub fn to_string(&self) -> (out: String)
        ensures
            out@ == self.text(),
    {
        match self {
            SQLWindowFrameUnits::Rows => String::from_str("ROWS"),
            SQLWindowFrameUnits::Range => String::from_str("RANGE"),
            SQLWindowFrameUnits::Groups => String::from_str("GROUPS"),
        }
    }

    /// Reads the keyword of the units.
    pub fn from_str(s: &str) -> (r: Result<SQLWindowFrameUnits, ParserError>)
        ensures
            match Self::parse(s@) {
                Some(units) => r == Ok::<SQLWindowFrameUnits, ParserError>(units),
                None => r is Err && r->Err_0@ == Self::parse_error(s@),
            },
    {
        if str_eq(s, "ROWS") {
            Ok(SQLWindowFrameUnits::Rows)
        } else if str_eq(s, "RANGE") {
            Ok(SQLWindowFrameUnits::Range)
        } else if str_eq(s, "GROUPS") {
            Ok(SQLWindowFrameUnits::Groups)
        } else {
            let mut message = String::from_str("Expected ROWS, RANGE, or GROUPS, found: ");
            message.append(s);
            Err(ParserError::ParserError(message))
        }
    }
}

/// Reading the keyword that was written for some units gives those units
/// back.
pub proof fn lemma_units_round_trip(units: SQLWindowFrameUnits)
    ensures
        SQLWindowFrameUnits::parse(units.text()) == Some(units),
{
    reveal_strlit("ROWS");
    reveal_strlit("RANGE");
    reveal_strlit("GROUPS");
    assert("ROWS"@.len() == 4);
    assert("RANGE"@.len() == 5);
    assert("GROUPS"@.len() == 6);
}

/// A text that is read as units is the keyword of those units.
pub proof fn lemma_units_parse_exact(s: Seq<char>)
    ensures
        match SQLWindowFrameUnits::parse(s) {
            Some(units) => s == units.text(),
            None => true,
        },
{
}

/// One end of a window frame.
#[derive(Debug, Clone, Copy, PartialEq, Eq, Structural, Hash)]
pub enum SQLWindowFrameBound {
    /// `CURRENT ROW`
    CurrentRow,
    /// `<N> PRECEDING`, or `UNBOUNDED PRECEDING` without a number
    Preceding(Option<u64>),
    /// `<N> FOLLOWING`, or `UNBOUNDED FOLLOWING` without a number
    Following(Option<u64>),
}

impl SQLWindowFrameBound {
    /// The SQL text of the bound.
    pub open spec fn text(&self) -> Seq<char> {
        match self {
            SQLWindowFrameBound::CurrentRow => "CURRENT ROW"@,
            SQLWindowFrameBound::Preceding(None) => "UNBOUNDED PRECEDING"@,
            SQLWindowFrameBound::Following(None) => "UNBOUNDED FOLLOWING"@,
            SQLWindowFrameBound::Preceding(Some(n)) => decimal(*n as nat) + " PRECEDING"@,
            SQLWindowFrameBound::Following(Some(n)) => decimal(*n as nat) + " FOLLOWING"@,
        }
    }

    pub fn to_string(&self) -> (out: String)
        ensures
            out@ == self.text(),
    {
        match self {
            SQLWindowFrameBound::CurrentRow => String::from_str("CURRENT ROW"),
            SQLWindowFrameBound::Preceding(None) => String::from_str("UNBOUNDED PRECEDING"),
            SQLWindowFrameBound::Following(None) => String::from_str("UNBOUNDED FOLLOWING"),
            SQLWindowFrameBound::Preceding(Some(n)) => {
                let mut out = decimal_string(*n);
                out.append(" PRECEDING");
                out
            },
            SQLWindowFrameBound::Following(Some(n)) => {
                let mut out = decimal_string(*n);
                out.append(" FOLLOWING");
                out
            },
        }
    }
}

/// The rows that a window function sees, e.g. `RANGE UNBOUNDED PRECEDING`
/// or `ROWS BETWEEN 5 PRECEDING AND CURRENT ROW`.
#[derive(Debug, Clone, Copy, PartialEq, Eq, Structural, Hash)]
pub struct SQLWindowFrame {
    pub units: SQLWindowFrameUnits,
    pub start_bound: SQLWindowFrameBound,
    /// The right bound of the `BETWEEN .. AND` clause.
    pub end_bound: Option<SQLWindowFrameBound>,
}

impl SQLWindowFrame {
    /// The frame clause: with an end bound `<UNITS> BETWEEN <start> AND
    /// <end>`, without one `<UNITS> <start>`.
    pub open spec fn text(&self) -> Seq<char> {
        match self.end_bound {
            Some(end_bound) => self.units.text() + " BETWEEN "@ + self.start_bound.text() + " AND "@
                + end_bound.text(),
            None => self.units.text() + " "@ + self.start_bound.text(),
        }
    }

    pub fn to_string(&self) -> (out: String)
        ensures
            out@ == self.text(),
    {
        let mut out = self.units.to_string();
        let start = self.start_bound.to_string();
        if let Some(end_bound) = &self.end_bound {
            out.append(" BETWEEN ");
            out.append(start.as_str());
            out.append(" AND ");
            let end = end_bound.to_string();
            out.append(end.as_str());
        } else {
            out.append(" ");
            out.append(start.as_str());
        }
        out
    }
}

/// Units, bounds and frames are never written as the empty text.
pub proof fn lemma_window_texts_nonempty(
    units: SQLWindowFrameUnits,
    bound: SQLWindowFrameBound,
    frame: SQLWindowFrame,
)
    ensures
        units.text().len() > 0,
        bound.text().len() > 0,
        frame.text().len() > 0,
{
    reveal_strlit("ROWS");
    reveal_strlit("RANGE");
    reveal_strlit("GROUPS");
    reveal_strlit("CURRENT ROW");
    reveal_strlit("UNBOUNDED PRECEDING");
    reveal_strlit("UNBOUNDED FOLLOWING");
    reveal_strlit(" PRECEDING");
    reveal_strlit(" FOLLOWING");
    reveal_strlit(" ");
    reveal_strlit(" BETWEEN ");
}

/// Different units are written differently, and so are different bounds.
pub proof fn lemma_window_texts_differ(
    u1: SQLWindowFrameUnits,
    u2: SQLWindowFrameUnits,
    b1: SQLWindowFrameBound,
    b2: SQLWindowFrameBound,
)
    ensures
        u1.text() == u2.text() ==> u1 == u2,
        b1.text() == b2.text() ==> b1 == b2,
{
    lemma_units_round_trip(u1);
    lemma_units_round_trip(u2);
    if b1.text() == b2.text() {
        reveal_strlit("CURRENT ROW");
        reveal_strlit("UNBOUNDED PRECEDING");
        reveal_strlit("UNBOUNDED FOLLOWING");
        reveal_strlit(" PRECEDING");
        reveal_strlit(" FOLLOWING");
        let n1: nat = match b1 {
            SQLWindowFrameBound::Preceding(Some(n)) => n as nat,
            SQLWindowFrameBound::Following(Some(n)) => n as nat,
            _ => 0,
        };
        let n2: nat = match b2 {
            SQLWindowFrameBound::Preceding(Some(n)) => n as nat,
            SQLWindowFrameBound::Following(Some(n)) => n as nat,
            _ => 0,
        };
        let d1 = decimal(n1);
        let d2 = decimal(n2);
        crate::text::lemma_decimal_digits(n1);
        crate::text::lemma_decimal_digits(n2);
        crate::text::lemma_decimal_value(n1);
        crate::text::lemma_decimal_value(n2);
        let numbered1 = b1 != SQLWindowFrameBound::CurrentRow && b1
            != SQLWindowFrameBound::Preceding(None) && b1 != SQLWindowFrameBound::Following(None);
        let numbered2 = b2 != SQLWindowFrameBound::CurrentRow && b2
            != SQLWindowFrameBound::Preceding(None) && b2 != SQLWindowFrameBound::Following(None);
        if numbered1 {
            assert(b1.text()[0] == d1[0]);
            assert(b1.text()[d1.len() as int + 1] == if b1 is Preceding { 'P' } else { 'F' });
        } else {
            assert(b1.text()[0] == 'C' || b1.text()[0] == 'U');
        }
        if numbered2 {
            assert(b2.text()[0] == d2[0]);
            assert(b2.text()[d2.len() as int + 1] == if b2 is Preceding { 'P' } else { 'F' });
        } else {
            assert(b2.text()[0] == 'C' || b2.text()[0] == 'U');
        }
        if numbered1 && numbered2 {
            assert(b1.text().len() == d1.len() + 10);
            assert(b2.text().len() == d2.len() + 10);
            assert(d1 =~= b1.text().subrange(0, d1.len() as int));
            assert(d2 =~= b2.text().subrange(0, d2.len() as int));
            assert(n1 == n2);
        } else if !numbered1 && !numbered2 {
            assert(b1.text()[10] == b2.text()[10]);
        }
    }
}

} // verus!
