//! Abstract syntax tree for SQL statements, with a renderer that turns every
//! tree back into SQL text.
//!
//! Every node type has a mathematical model (its view), a specification of
//! its SQL text over that model, and an executable `to_string` proved to
//! produce exactly that text.

pub mod clauses;
pub mod error;
pub mod expr;
pub mod list;
pub mod name;
pub mod query;
pub mod sql_operator;
pub mod sqltype;
pub mod statement;
pub mod table_key;
pub mod text;
pub mod value;
pub mod window;

pub use crate::clauses::{
    DataSourceSchema, FileFormat, SQLAssignment, SQLColumnDef, SQLDrop, SQLOption,
};
pub use crate::error::ParserError;
pub use crate::expr::{ASTNode, SQLWindowSpec};
pub use crate::name::{SQLIdent, SQLObjectName};
pub use crate::query::{SQLOrderByExpr, SQLQuery};
pub use crate::sql_operator::SQLOperator;
pub use crate::sqltype::SQLType;
pub use crate::statement::SQLStatement;
pub use crate::table_key::AlterOperation;
pub use crate::value::Value;
pub use crate::window::{SQLWindowFrame, SQLWindowFrameBound, SQLWindowFrameUnits};
