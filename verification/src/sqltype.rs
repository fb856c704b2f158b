//! SQL data types, as they occur in column definitions and casts.

use crate::name::{dotted, SQLObjectName};
use crate::text::{decimal, decimal_string};
use vstd::prelude::*;
use vstd::std_specs::cmp::PartialEqSpecImpl;
use vstd::string::*;

verus! {

/// A SQL data type.
#[derive(Debug, Hash)]
pub enum SQLType {
    /// Fixed-length character type, e.g. `CHAR(10)`
    Char(Option<usize>),
    /// Variable-length character type, e.g. `VARCHAR(10)`
    Varchar(Option<usize>),
    /// Uuid type
    Uuid,
    /// Large character object, e.g. `CLOB(1000)`
    Clob(usize),
    /// Fixed-length binary type, e.g. `BINARY(10)`
    Binary(usize),
    /// Variable-length binary type, e.g. `VARBINARY(10)`
    Varbinary(usize),
    /// Large binary object, e.g. `BLOB(1000)`
    Blob(usize),
    /// Decimal type with optional precision and scale, e.g. `DECIMAL(10,2)`.
    /// A scale is only meaningful together with a precision.
    Decimal(Option<usize>, Option<usize>),
    /// Floating point with optional precision, e.g. `FLOAT(8)`
    Float(Option<usize>),
    /// Small integer
    SmallInt,
    /// Integer
    Int,
    /// Big integer
    BigInt,
    /// Floating point, e.g. `REAL`
    Real,
    /// Double, e.g. `DOUBLE PRECISION`
    Double,
    /// Boolean
    Boolean,
    /// Date
    Date,
    /// Time
    Time,
    /// Timestamp
    Timestamp,
    /// Regclass, as used for serial columns
    Regclass,
    /// Text
    Text,
    /// Bytea
    Bytea,
    /// Custom type such as an enum, by its name
    Custom(SQLObjectName),
    /// Array of the given element type
    Array(Box<SQLType>),
}

/// The mathematical model of a [`SQLType`]: the same shape, with a custom
/// type's name as a sequence of identifiers.
pub enum TypeModel {
    Char(Option<usize>),
    Varchar(Option<usize>),
    Uuid,
    Clob(usize),
    Binary(usize),
    Varbinary(usize),
    Blob(usize),
    Decimal(Option<usize>, Option<usize>),
    Float(Option<usize>),
    SmallInt,
    Int,
    BigInt,
    Real,
    Double,
    Boolean,
    Date,
    Time,
    Timestamp,
    Regclass,
    Text,
    Bytea,
    Custom(Seq<Seq<char>>),
    Array(Box<TypeModel>),
}

/// A length in parentheses: `(10)`.
pub open spec fn parenthesized_length(len: usize) -> Seq<char> {
    "("@ + decimal(len as nat) + ")"@
}

/// A type keyword, followed by its length in parentheses where it has one.
pub open spec fn type_with_optional_length(sql_type: Seq<char>, len: Option<usize>) -> Seq<char> {
    match len {
        Some(n) => sql_type + parenthesized_length(n),
        None => sql_type,
    }
}

impl TypeModel {
    /// Whether the type has a SQL text: a decimal type that gives a scale
    /// gives a precision too, at every level of nesting.
    pub open spec fn renderable(self) -> bool
        decreases self,
    {
        match self {
            TypeModel::Decimal(precision, scale) => scale is Some ==> precision is Some,
            TypeModel::Array(element) => element.renderable(),
            _ => true,
        }
    }

    /// Whether the type is as the data model wants it: renderable, and a
    /// custom type's name has at least one part.
    pub open spec fn well_formed(self) -> bool
        decreases self,
    {
        match self {
            TypeModel::Decimal(precision, scale) => scale is Some ==> precision is Some,
            TypeModel::Custom(name) => name.len() > 0,
            TypeModel::Array(element) => element.well_formed(),
            _ => true,
        }
    }

    /// The SQL text of the type. Keywords are in lower case. A type that is
    /// not renderable has no text; the empty text stands in for it here.
    pub open spec fn text(self) -> Seq<char>
        decreases self,
    {
        match self {
            TypeModel::Char(size) => type_with_optional_length("char"@, size),
            TypeModel::Varchar(size) => type_with_optional_length("character varying"@, size),
            TypeModel::Uuid => "uuid"@,
            TypeModel::Clob(size) => "clob"@ + parenthesized_length(size),
            TypeModel::Binary(size) => "binary"@ + parenthesized_length(size),
            TypeModel::Varbinary(size) => "varbinary"@ + parenthesized_length(size),
            TypeModel::Blob(size) => "blob"@ + parenthesized_length(size),
            TypeModel::Decimal(precision, scale) => match (precision, scale) {
                (Some(p), Some(s)) => "numeric("@ + decimal(p as nat) + ","@ + decimal(s as nat)
                    + ")"@,
                (None, Some(_)) => Seq::empty(),
                (_, None) => type_with_optional_length("numeric"@, precision),
            },
            TypeModel::Float(size) => type_with_optional_length("float"@, size),
            TypeModel::SmallInt => "smallint"@,
            TypeModel::Int => "int"@,
            TypeModel::BigInt => "bigint"@,
            TypeModel::Real => "real"@,
            TypeModel::Double => "double"@,
            TypeModel::Boolean => "boolean"@,
            TypeModel::Date => "date"@,
            TypeModel::Time => "time"@,
            TypeModel::Timestamp => "timestamp"@,
            TypeModel::Regclass => "regclass"@,
            TypeModel::Text => "text"@,
            TypeModel::Bytea => "bytea"@,
            TypeModel::Custom(name) => dotted(name),
            TypeModel::Array(element) => element.text() + "[]"@,
        }
    }
}

/// A well-formed type is renderable.
pub proof fn lemma_type_well_formed_renderable(t: TypeModel)
    requires
        t.well_formed(),
    ensures
        t.renderable(),
    decreases t,
{
    match t {
        TypeModel::Array(element) => lemma_type_well_formed_renderable(*element),
        _ => {},
    }
}

/// Appends a length in parentheses.
fn append_length(out: &mut String, len: usize)
    ensures
        final(out)@ == old(out)@ + parenthesized_length(len),
{
    let ghost before = out@;
    out.append("(");
    let digits = decimal_string(len as u64);
    out.append(digits.as_str());
    out.append(")");
    assert(out@ =~= before + parenthesized_length(len));
}

/// Writes a type keyword, followed by its length in parentheses where it
/// has one.
pub fn format_type_with_optional_length(sql_type: &str, len: &Option<usize>) -> (out: String)
    ensures
        out@ == type_with_optional_length(sql_type@, *len),
{
    let mut out = String::from_str(sql_type);
    if let Some(n) = len {
        append_length(&mut out, *n);
    }
    out
}

/// Writes a type keyword and its length in parentheses.
fn keyword_with_length(keyword: &str, len: usize) -> (out: String)
    ensures
        out@ == keyword@ + parenthesized_length(len),
{
    let mut out = String::from_str(keyword);
    append_length(&mut out, len);
    out
}

impl SQLType {
    /// The model of the type; it is also its view.
    pub open spec fn model(&self) -> TypeModel
        decreases self,
    {
        match self {
            SQLType::Char(size) => TypeModel::Char(*size),
            SQLType::Varchar(size) => TypeModel::Varchar(*size),
            SQLType::Uuid => TypeModel::Uuid,
            SQLType::Clob(size) => TypeModel::Clob(*size),
            SQLType::Binary(size) => TypeModel::Binary(*size),
            SQLType::Varbinary(size) => TypeModel::Varbinary(*size),
            SQLType::Blob(size) => TypeModel::Blob(*size),
            SQLType::Decimal(precision, scale) => TypeModel::Decimal(*precision, *scale),
            SQLType::Float(size) => TypeModel::Float(*size),
            SQLType::SmallInt => TypeModel::SmallInt,
            SQLType::Int => TypeModel::Int,
            SQLType::BigInt => TypeModel::BigInt,
            SQLType::Real => TypeModel::Real,
            SQLType::Double => TypeModel::Double,
            SQLType::Boolean => TypeModel::Boolean,
            SQLType::Date => TypeModel::Date,
            SQLType::Time => TypeModel::Time,
            SQLType::Timestamp => TypeModel::Timestamp,
            SQLType::Regclass => TypeModel::Regclass,
            SQLType::Text => TypeModel::Text,
            SQLType::Bytea => TypeModel::Bytea,
            SQLType::Custom(name) => TypeModel::Custom(name@),
            SQLType::Array(element) => TypeModel::Array(Box::new(element.model())),
        }
    }

    /// The SQL text of the type.
    pub open spec fn text(&self) -> Seq<char> {
        self@.text()
    }

    /// Whether [`SQLType::to_string`] may be called.
    pub fn is_renderable(&self) -> (r: bool)
        ensures
            r == self@.renderable(),
        decreases self,
    {
        match self {
            SQLType::Decimal(precision, scale) => scale.is_none() || precision.is_some(),
            SQLType::Array(element) => element.is_renderable(),
            _ => true,
        }
    }

    /// Whether the type is well formed.
    pub fn is_well_formed(&self) -> (r: bool)
        ensures
            r == self@.well_formed(),
        decreases self,
    {
        match self {
            SQLType::Decimal(precision, scale) => scale.is_none() || precision.is_some(),
            SQLType::Custom(name) => name.is_well_formed(),
            SQLType::Array(element) => element.is_well_formed(),
            _ => true,
        }
    }

    /// Writes the type as SQL.
    pub fn to_string(&self) -> (out: String)
        requires
            self@.renderable(),
        ensures
            out@ == self.text(),
        decreases self,
    {
        match self {
            SQLType::Char(size) => format_type_with_optional_length("char", size),
            SQLType::Varchar(size) => format_type_with_optional_length("character varying", size),
            SQLType::Uuid => String::from_str("uuid"),
            SQLType::Clob(size) => keyword_with_length("clob", *size),
            SQLType::Binary(size) => keyword_with_length("binary", *size),
            SQLType::Varbinary(size) => keyword_with_length("varbinary", *size),
            SQLType::Blob(size) => keyword_with_length("blob", *size),
            SQLType::Decimal(precision, scale) => {
                if let Some(scale) = scale {
                    let mut out = String::from_str("numeric(");
                    let p = decimal_string(precision.unwrap() as u64);
                    out.append(p.as_str());
                    out.append(",");
                    let s = decimal_string(*scale as u64);
                    out.append(s.as_str());
                    out.append(")");
                    out
                } else {
                    format_type_with_optional_length("numeric", precision)
                }
            },
            SQLType::Float(size) => format_type_with_optional_length("float", size),
            SQLType::SmallInt => String::from_str("smallint"),
            SQLType::Int => String::from_str("int"),
            SQLType::BigInt => String::from_str("bigint"),
            SQLType::Real => String::from_str("real"),
            SQLType::Double => String::from_str("double"),
            SQLType::Boolean => String::from_str("boolean"),
            SQLType::Date => String::from_str("date"),
            SQLType::Time => String::from_str("time"),
            SQLType::Timestamp => String::from_str("timestamp"),
            SQLType::Regclass => String::from_str("regclass"),
            SQLType::Text => String::from_str("text"),
            SQLType::Bytea => String::from_str("bytea"),
            SQLType::Array(element) => {
                let mut out = element.to_string();
                out.append("[]");
                out
            },
            SQLType::Custom(name) => name.to_string(),
        }
    }

    /// Structural equality: the same variant with the same fields.
    pub fn same(&self, other: &SQLType) -> (r: bool)
        ensures
            r == (self@ == other@),
        decreases self,
    {
        match (self, other) {
            (SQLType::Char(a), SQLType::Char(b)) => *a == *b,
            (SQLType::Varchar(a), SQLType::Varchar(b)) => *a == *b,
            (SQLType::Uuid, SQLType::Uuid) => true,
            (SQLType::Clob(a), SQLType::Clob(b)) => *a == *b,
            (SQLType::Binary(a), SQLType::Binary(b)) => *a == *b,
            (SQLType::Varbinary(a), SQLType::Varbinary(b)) => *a == *b,
            (SQLType::Blob(a), SQLType::Blob(b)) => *a == *b,
            (SQLType::Decimal(p, s), SQLType::Decimal(q, t)) => *p == *q && *s == *t,
            (SQLType::Float(a), SQLType::Float(b)) => *a == *b,
            (SQLType::SmallInt, SQLType::SmallInt) => true,
            (SQLType::Int, SQLType::Int) => true,
            (SQLType::BigInt, SQLType::BigInt) => true,
            (SQLType::Real, SQLType::Real) => true,
            (SQLType::Double, SQLType::Double) => true,
            (SQLType::Boolean, SQLType::Boolean) => true,
            (SQLType::Date, SQLType::Date) => true,
            (SQLType::Time, SQLType::Time) => true,
            (SQLType::Timestamp, SQLType::Timestamp) => true,
            (SQLType::Regclass, SQLType::Regclass) => true,
            (SQLType::Text, SQLType::Text) => true,
            (SQLType::Bytea, SQLType::Bytea) => true,
            (SQLType::Custom(a), SQLType::Custom(b)) => *a == *b,
            (SQLType::Array(a), SQLType::Array(b)) => a.same(b),
            _ => false,
        }
    }
}

impl View for SQLType {
    type V = TypeModel;

    open spec fn view(&self) -> TypeModel {
        self.model()
    }
}

impl Clone for SQLType {
    fn clone(&self) -> (r: SQLType)
        ensures
            r@ == self@,
        decreases self,
    {
        match self {
            SQLType::Char(size) => SQLType::Char(*size),
            SQLType::Varchar(size) => SQLType::Varchar(*size),
            SQLType::Uuid => SQLType::Uuid,
            SQLType::Clob(size) => SQLType::Clob(*size),
            SQLType::Binary(size) => SQLType::Binary(*size),
            SQLType::Varbinary(size) => SQLType::Varbinary(*size),
            SQLType::Blob(size) => SQLType::Blob(*size),
            SQLType::Decimal(precision, scale) => SQLType::Decimal(*precision, *scale),
            SQLType::Float(size) => SQLType::Float(*size),
            SQLType::SmallInt => SQLType::SmallInt,
            SQLType::Int => SQLType::Int,
            SQLType::BigInt => SQLType::BigInt,
            SQLType::Real => SQLType::Real,
            SQLType::Double => SQLType::Double,
            SQLType::Boolean => SQLType::Boolean,
            SQLType::Date => SQLType::Date,
            SQLType::Time => SQLType::Time,
            SQLType::Timestamp => SQLType::Timestamp,
            SQLType::Regclass => SQLType::Regclass,
            SQLType::Text => SQLType::Text,
            SQLType::Bytea => SQLType::Bytea,
            SQLType::Custom(name) => SQLType::Custom(name.clone()),
            SQLType::Array(element) => {
                let inner: &SQLType = element;
                SQLType::Array(Box::new(inner.clone()))
            },
        }
    }
}

impl PartialEq for SQLType {
    fn eq(&self, other: &SQLType) -> (r: bool) {
        self.same(other)
    }
}

impl Eq for SQLType {
}

impl PartialEqSpecImpl for SQLType {
    open spec fn obeys_eq_spec() -> bool {
        true
    }

    open spec fn eq_spec(&self, other: &SQLType) -> bool {
        self@ == other@
    }
}

impl TypeModel {
    /// Whether the type is written as nothing at all: a custom type whose
    /// name has no characters.
    pub open spec fn is_blank(self) -> bool {
        self matches TypeModel::Custom(name) && dotted(name).len() == 0
    }
}

/// Every renderable type has a text that is not empty, except a custom type
/// with a blank name.
pub proof fn lemma_type_text_nonempty(t: TypeModel)
    requires
        t.renderable(),
    ensures
        t.text().len() == 0 <==> t.is_blank(),
{
    reveal_strlit("char");
    reveal_strlit("character varying");
    reveal_strlit("uuid");
    reveal_strlit("clob");
    reveal_strlit("binary");
    reveal_strlit("varbinary");
    reveal_strlit("blob");
    reveal_strlit("numeric(");
    reveal_strlit("numeric");
    reveal_strlit("float");
    reveal_strlit("smallint");
    reveal_strlit("int");
    reveal_strlit("bigint");
    reveal_strlit("real");
    reveal_strlit("double");
    reveal_strlit("boolean");
    reveal_strlit("date");
    reveal_strlit("time");
    reveal_strlit("timestamp");
    reveal_strlit("regclass");
    reveal_strlit("text");
    reveal_strlit("bytea");
    reveal_strlit("[]");
}

/// Two types are equal exactly where they are the same variant and agree
/// in every field.
pub proof fn lemma_type_equal_by_fields(a: SQLType, b: SQLType)
    ensures
        a@ == b@ <==> match (a, b) {
            (SQLType::Char(x), SQLType::Char(y)) => x == y,
            (SQLType::Varchar(x), SQLType::Varchar(y)) => x == y,
            (SQLType::Uuid, SQLType::Uuid) => true,
            (SQLType::Clob(x), SQLType::Clob(y)) => x == y,
            (SQLType::Binary(x), SQLType::Binary(y)) => x == y,
            (SQLType::Varbinary(x), SQLType::Varbinary(y)) => x == y,
            (SQLType::Blob(x), SQLType::Blob(y)) => x == y,
            (SQLType::Decimal(p, s), SQLType::Decimal(q, t)) => p == q && s == t,
            (SQLType::Float(x), SQLType::Float(y)) => x == y,
            (SQLType::SmallInt, SQLType::SmallInt) => true,
            (SQLType::Int, SQLType::Int) => true,
            (SQLType::BigInt, SQLType::BigInt) => true,
            (SQLType::Real, SQLType::Real) => true,
            (SQLType::Double, SQLType::Double) => true,
            (SQLType::Boolean, SQLType::Boolean) => true,
            (SQLType::Date, SQLType::Date) => true,
            (SQLType::Time, SQLType::Time) => true,
            (SQLType::Timestamp, SQLType::Timestamp) => true,
            (SQLType::Regclass, SQLType::Regclass) => true,
            (SQLType::Text, SQLType::Text) => true,
            (SQLType::Bytea, SQLType::Bytea) => true,
            (SQLType::Custom(x), SQLType::Custom(y)) => x@ == y@,
            (SQLType::Array(x), SQLType::Array(y)) => x@ == y@,
            _ => false,
        },
{
}

} // verus!
