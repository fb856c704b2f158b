//! Statements, the top level of the tree: the statements themselves, their
//! mathematical model and what is stated of them.

pub mod checks;
pub mod equality;
pub mod render;

use crate::clauses::{
    with_options_clause, AssignmentModel, ColumnDefModel, DataSourceSchema, DropModel,
    FileFormat, OptionModel, SQLAssignment, SQLColumnDef, SQLDrop, SQLOption, SchemaModel,
};
use crate::expr::{
    expr_models, expr_texts, exprs_renderable, exprs_well_formed, optional_model,
    optional_renderable, optional_text, optional_well_formed, ASTNode, ExprModel,
};
use crate::list::models;
use crate::name::{dotted, SQLIdent, SQLObjectName};
use crate::query::SQLQuery;
use crate::table_key::AlterOperation;
use crate::text::{if_set, join, optional_clause, views};
use crate::value::single_quoted;
use vstd::prelude::*;

verus! {

/// A top-level statement (SELECT, INSERT, CREATE, etc.)
#[derive(Debug, Hash)]
pub enum SQLStatement {
    /// SELECT
    SQLQuery(Box<SQLQuery>),
    /// INSERT
    SQLInsert {
        /// TABLE
        table_name: SQLObjectName,
        /// COLUMNS
        columns: Vec<SQLIdent>,
        /// VALUES (the rows to insert)
        values: Vec<Vec<ASTNode>>,
    },
    /// COPY
    SQLCopy {
        /// TABLE
        table_name: SQLObjectName,
        /// COLUMNS
        columns: Vec<SQLIdent>,
        /// The values to be copied; an absent value is a null
        values: Vec<Option<String>>,
    },
    /// UPDATE
    SQLUpdate {
        /// TABLE
        table_name: SQLObjectName,
        /// Column assignments
        assignments: Vec<SQLAssignment>,
        /// WHERE
        selection: Option<ASTNode>,
    },
    /// DELETE
    SQLDelete {
        /// FROM
        table_name: SQLObjectName,
        /// WHERE
        selection: Option<ASTNode>,
    },
    /// CREATE DATA SOURCE
    SQLCreateDataSource {
        name: SQLObjectName,
        url: String,
        schema: DataSourceSchema,
        with_options: Vec<SQLOption>,
    },
    /// CREATE DATA SINK
    SQLCreateDataSink {
        name: SQLObjectName,
        from: SQLObjectName,
        url: String,
        with_options: Vec<SQLOption>,
    },
    /// CREATE VIEW
    SQLCreateView {
        /// View name
        name: SQLObjectName,
        query: Box<SQLQuery>,
        materialized: bool,
        with_options: Vec<SQLOption>,
    },
    /// CREATE TABLE. An external table has a file format and a location.
    SQLCreateTable {
        /// Table name
        name: SQLObjectName,
        /// The columns
        columns: Vec<SQLColumnDef>,
        with_options: Vec<SQLOption>,
        external: bool,
        file_format: Option<FileFormat>,
        location: Option<String>,
    },
    /// ALTER TABLE
    SQLAlterTable {
        /// Table name
        name: SQLObjectName,
        operation: AlterOperation,
    },
    /// DROP TABLE
    SQLDropTable(SQLDrop),
    /// DROP DATA SOURCE
    SQLDropDataSource(SQLDrop),
    /// DROP VIEW
    SQLDropView(SQLDrop),
    /// PEEK: the contents of a relation at one point in time
    SQLPeek { name: SQLObjectName },
    /// TAIL: the changes of a relation, as they come
    SQLTail { name: SQLObjectName },
}

/// The mathematical model of a [`SQLStatement`].
pub enum StatementModel {
    Query(Seq<char>),
    Insert { table_name: Seq<Seq<char>>, columns: Seq<Seq<char>>, values: Seq<Seq<ExprModel>> },
    Copy { table_name: Seq<Seq<char>>, columns: Seq<Seq<char>>, values: Seq<Option<Seq<char>>> },
    Update {
        table_name: Seq<Seq<char>>,
        assignments: Seq<AssignmentModel>,
        selection: Option<ExprModel>,
    },
    Delete { table_name: Seq<Seq<char>>, selection: Option<ExprModel> },
    CreateDataSource {
        name: Seq<Seq<char>>,
        url: Seq<char>,
        schema: SchemaModel,
        with_options: Seq<OptionModel>,
    },
    CreateDataSink {
        name: Seq<Seq<char>>,
        from: Seq<Seq<char>>,
        url: Seq<char>,
        with_options: Seq<OptionModel>,
    },
    CreateView {
        name: Seq<Seq<char>>,
        query: Seq<char>,
        materialized: bool,
        with_options: Seq<OptionModel>,
    },
    CreateTable {
        name: Seq<Seq<char>>,
        columns: Seq<ColumnDefModel>,
        with_options: Seq<OptionModel>,
        external: bool,
        file_format: Option<FileFormat>,
        location: Option<Seq<char>>,
    },
    AlterTable { name: Seq<Seq<char>>, operation: Seq<char> },
    DropTable(DropModel),
    DropDataSource(DropModel),
    DropView(DropModel),
    Peek { name: Seq<Seq<char>> },
    Tail { name: Seq<Seq<char>> },
}

/// ` (<columns>)`, or nothing where no columns are named.
pub open spec fn columns_clause(columns: Seq<Seq<char>>) -> Seq<char> {
    if columns.len() > 0 {
        " ("@ + join(columns, ", "@) + ")"@
    } else {
        Seq::empty()
    }
}

/// The SQL texts of the rows of an `INSERT`: in each row, the values
/// separated by commas.
pub open spec fn row_texts(rows: Seq<Seq<ExprModel>>) -> Seq<Seq<char>> {
    rows.map_values(|row: Seq<ExprModel>| join(expr_texts(row), ", "@))
}

/// ` VALUES(<row>, <row>, ...)`, or nothing where there are no rows.
pub open spec fn values_clause(rows: Seq<Seq<ExprModel>>) -> Seq<char> {
    if rows.len() > 0 {
        " VALUES("@ + join(row_texts(rows), ", "@) + ")"@
    } else {
        Seq::empty()
    }
}

/// A value of a `COPY` as it is written in the data: itself, or the null
/// marker `\\N` where it is absent.
pub open spec fn copy_value_text(value: Option<Seq<char>>) -> Seq<char> {
    match value {
        Some(text) => text,
        None => "\\N"@,
    }
}

/// The texts of the values of a `COPY`, in order.
pub open spec fn copy_value_texts(values: Seq<Option<Seq<char>>>) -> Seq<Seq<char>> {
    values.map_values(|value: Option<Seq<char>>| copy_value_text(value))
}

/// The data of a `COPY`: a line break and the values separated by tabs, or
/// nothing where there are no values.
pub open spec fn copy_data(values: Seq<Option<Seq<char>>>) -> Seq<char> {
    if values.len() > 0 {
        "\n"@ + join(copy_value_texts(values), "\t"@)
    } else {
        Seq::empty()
    }
}

/// The SQL texts of a list of assignments, in order.
pub open spec fn assignment_texts(assignments: Seq<AssignmentModel>) -> Seq<Seq<char>> {
    assignments.map_values(|assignment: AssignmentModel| assignment.text())
}

/// Whether every assignment of a list is renderable.
pub open spec fn assignments_renderable(assignments: Seq<AssignmentModel>) -> bool {
    forall|i: int| 0 <= i < assignments.len() ==> (#[trigger] assignments[i]).renderable()
}

/// The SQL texts of a list of column definitions, in order.
pub open spec fn column_def_texts(columns: Seq<ColumnDefModel>) -> Seq<Seq<char>> {
    columns.map_values(|column: ColumnDefModel| column.text())
}

/// Whether every column definition of a list is renderable.
pub open spec fn column_defs_renderable(columns: Seq<ColumnDefModel>) -> bool {
    forall|i: int| 0 <= i < columns.len() ==> (#[trigger] columns[i]).renderable()
}

/// Whether every expression of every row is renderable.
pub open spec fn rows_renderable(rows: Seq<Seq<ExprModel>>) -> bool {
    forall|i: int| 0 <= i < rows.len() ==> exprs_renderable(#[trigger] rows[i])
}

/// ` WHERE <selection>`, or nothing where there is no selection.
pub open spec fn where_clause(selection: Option<ExprModel>) -> Seq<char> {
    optional_clause(" WHERE "@, optional_text(selection))
}

/// Whether every expression of every row is well formed.
pub open spec fn rows_well_formed(rows: Seq<Seq<ExprModel>>) -> bool {
    forall|i: int| 0 <= i < rows.len() ==> exprs_well_formed(#[trigger] rows[i])
}

/// Whether every assignment of a list is well formed.
pub open spec fn assignments_well_formed(assignments: Seq<AssignmentModel>) -> bool {
    forall|i: int| 0 <= i < assignments.len() ==> (#[trigger] assignments[i]).well_formed()
}

/// Whether every column definition of a list is well formed.
pub open spec fn column_defs_well_formed(columns: Seq<ColumnDefModel>) -> bool {
    forall|i: int| 0 <= i < columns.len() ==> (#[trigger] columns[i]).well_formed()
}

impl StatementModel {
    /// Whether the statement has a SQL text: every expression and every
    /// data type in it has one, and an external table has a file format and
    /// a location.
    pub open spec fn renderable(self) -> bool {
        match self {
            StatementModel::Insert { table_name, columns, values } => rows_renderable(values),
            StatementModel::Update {
                table_name,
                assignments,
                selection,
            } => assignments_renderable(assignments) && optional_renderable(selection),
            StatementModel::Delete { table_name, selection } => optional_renderable(selection),
            StatementModel::CreateTable {
                name,
                columns,
                with_options,
                external,
                file_format,
                location,
            } => column_defs_renderable(columns) && (external ==> file_format is Some
                && location is Some),
            _ => true,
        }
    }

    /// The SQL text of the statement. A statement that is not renderable
    /// has no text; the empty text stands in for it here.
    pub open spec fn text(self) -> Seq<char> {
        match self {
            StatementModel::Query(query) => query,
            StatementModel::Insert { table_name, columns, values } => "INSERT INTO "@ + dotted(
                table_name,
            ) + columns_clause(columns) + values_clause(values),
            StatementModel::Copy { table_name, columns, values } => "COPY "@ + dotted(table_name)
                + columns_clause(columns) + " FROM stdin; "@ + copy_data(values) + "\n\\."@,
            StatementModel::Update { table_name, assignments, selection } => "UPDATE "@ + dotted(
                table_name,
            ) + join(assignment_texts(assignments), ", "@) + where_clause(selection),
            StatementModel::Delete { table_name, selection } => "DELETE FROM "@ + dotted(
                table_name,
            ) + where_clause(selection),
            StatementModel::CreateDataSource {
                name,
                url,
                schema,
                with_options,
            } => "CREATE DATA SOURCE "@ + dotted(name) + " FROM "@ + single_quoted(url)
                + " USING SCHEMA "@ + schema.text() + with_options_clause(with_options),
            StatementModel::CreateDataSink {
                name,
                from,
                url,
                with_options,
            } => "CREATE DATA SINK "@ + dotted(name) + " FROM "@ + dotted(from) + " INTO "@
                + single_quoted(url) + with_options_clause(with_options),
            StatementModel::CreateView {
                name,
                query,
                materialized,
                with_options,
            } => "CREATE"@ + if_set(materialized, " MATERIALIZED"@) + " VIEW "@ + dotted(name)
                + with_options_clause(with_options) + " AS "@ + query,
            StatementModel::CreateTable {
                name,
                columns,
                with_options,
                external,
                file_format,
                location,
            } => if external {
                match (file_format, location) {
                    (Some(format), Some(place)) => "CREATE EXTERNAL TABLE "@ + dotted(name)
                        + " ("@ + join(column_def_texts(columns), ", "@) + ") STORED AS "@
                        + format.text() + " LOCATION '"@ + place + "'"@,
                    _ => Seq::empty(),
                }
            } else {
                "CREATE TABLE "@ + dotted(name) + " ("@ + join(column_def_texts(columns), ", "@)
                    + ")"@ + with_options_clause(with_options)
            },
            StatementModel::AlterTable { name, operation } => "ALTER TABLE "@ + dotted(name)
                + " "@ + operation,
            StatementModel::DropTable(drop) => drop.text("TABLE"@),
            StatementModel::DropDataSource(drop) => drop.text("DATA SOURCE"@),
            StatementModel::DropView(drop) => drop.text("VIEW"@),
            StatementModel::Peek { name } => "PEEK "@ + dotted(name),
            StatementModel::Tail { name } => "TAIL "@ + dotted(name),
        }
    }

    /// Whether the statement is as the data model wants it: every name in
    /// it has at least one part, a drop clause names at least one object,
    /// an external table has a file format and a location, and every
    /// expression and column definition is well formed.
    pub open spec fn well_formed(self) -> bool {
        match self {
            StatementModel::Query(_) => true,
            StatementModel::Insert { table_name, columns, values } => table_name.len() > 0
                && rows_well_formed(values),
            StatementModel::Copy { table_name, columns, values } => table_name.len() > 0,
            StatementModel::Update { table_name, assignments, selection } => table_name.len() > 0
                && assignments_well_formed(assignments) && optional_well_formed(selection),
            StatementModel::Delete { table_name, selection } => table_name.len() > 0
                && optional_well_formed(selection),
            StatementModel::CreateDataSource { name, url, schema, with_options } => name.len()
                > 0,
            StatementModel::CreateDataSink { name, from, url, with_options } => name.len() > 0
                && from.len() > 0,
            StatementModel::CreateView { name, query, materialized, with_options } => name.len()
                > 0,
            StatementModel::CreateTable {
                name,
                columns,
                with_options,
                external,
                file_format,
                location,
            } => name.len() > 0 && column_defs_well_formed(columns) && (external
                ==> file_format is Some && location is Some),
            StatementModel::AlterTable { name, operation } => name.len() > 0,
            StatementModel::DropTable(drop) => drop.well_formed(),
            StatementModel::DropDataSource(drop) => drop.well_formed(),
            StatementModel::DropView(drop) => drop.well_formed(),
            StatementModel::Peek { name } => name.len() > 0,
            StatementModel::Tail { name } => name.len() > 0,
        }
    }

    /// Whether the statement is written as nothing at all: a query without
    /// characters.
    pub open spec fn is_blank(self) -> bool {
        self matches StatementModel::Query(query) && query.len() == 0
    }
}

/// The models of the rows of an `INSERT`.
pub open spec fn row_models(rows: Seq<Vec<ASTNode>>) -> Seq<Seq<ExprModel>> {
    rows.map_values(|row: Vec<ASTNode>| expr_models(row@))
}

/// The model of a value of a `COPY`.
pub open spec fn copy_value_model(value: Option<String>) -> Option<Seq<char>> {
    match value {
        Some(text) => Some(text@),
        None => None,
    }
}

/// The models of the values of a `COPY`.
pub open spec fn copy_value_models(values: Seq<Option<String>>) -> Seq<Option<Seq<char>>> {
    values.map_values(|value: Option<String>| copy_value_model(value))
}

impl View for SQLStatement {
    type V = StatementModel;

    open spec fn view(&self) -> StatementModel {
        match self {
            SQLStatement::SQLQuery(query) => StatementModel::Query(query@),
            SQLStatement::SQLInsert { table_name, columns, values } => StatementModel::Insert {
                table_name: table_name@,
                columns: views(columns@),
                values: row_models(values@),
            },
            SQLStatement::SQLCopy { table_name, columns, values } => StatementModel::Copy {
                table_name: table_name@,
                columns: views(columns@),
                values: copy_value_models(values@),
            },
            SQLStatement::SQLUpdate { table_name, assignments, selection } => StatementModel::Update {
                table_name: table_name@,
                assignments: models(assignments@),
                selection: optional_model(*selection),
            },
            SQLStatement::SQLDelete { table_name, selection } => StatementModel::Delete {
                table_name: table_name@,
                selection: optional_model(*selection),
            },
            SQLStatement::SQLCreateDataSource {
                name,
                url,
                schema,
                with_options,
            } => StatementModel::CreateDataSource {
                name: name@,
                url: url@,
                schema: schema@,
                with_options: models(with_options@),
            },
            SQLStatement::SQLCreateDataSink {
                name,
                from,
                url,
                with_options,
            } => StatementModel::CreateDataSink {
                name: name@,
                from: from@,
                url: url@,
                with_options: models(with_options@),
            },
            SQLStatement::SQLCreateView {
                name,
                query,
                materialized,
                with_options,
            } => StatementModel::CreateView {
                name: name@,
                query: query@,
                materialized: *materialized,
                with_options: models(with_options@),
            },
            SQLStatement::SQLCreateTable {
                name,
                columns,
                with_options,
                external,
                file_format,
                location,
            } => StatementModel::CreateTable {
                name: name@,
                columns: models(columns@),
                with_options: models(with_options@),
                external: *external,
                file_format: *file_format,
                location: copy_value_model(*location),
            },
            SQLStatement::SQLAlterTable { name, operation } => StatementModel::AlterTable {
                name: name@,
                operation: operation@,
            },
            SQLStatement::SQLDropTable(drop) => StatementModel::DropTable(drop@),
            SQLStatement::SQLDropDataSource(drop) => StatementModel::DropDataSource(drop@),
            SQLStatement::SQLDropView(drop) => StatementModel::DropView(drop@),
            SQLStatement::SQLPeek { name } => StatementModel::Peek { name: name@ },
            SQLStatement::SQLTail { name } => StatementModel::Tail { name: name@ },
        }
    }
}

impl SQLStatement {
    /// The SQL text of the statement.
    pub open spec fn text(&self) -> Seq<char> {
        self@.text()
    }
}

/// Every renderable statement has a text that is not empty, except a blank
/// query.
pub proof fn lemma_statement_text_nonempty(s: StatementModel)
    requires
        s.renderable(),
    ensures
        s.text().len() == 0 <==> s.is_blank(),
{
    reveal_strlit("INSERT INTO ");
    reveal_strlit("COPY ");
    reveal_strlit("UPDATE ");
    reveal_strlit("DELETE FROM ");
    reveal_strlit("CREATE DATA SOURCE ");
    reveal_strlit("CREATE DATA SINK ");
    reveal_strlit("CREATE");
    reveal_strlit("CREATE EXTERNAL TABLE ");
    reveal_strlit("CREATE TABLE ");
    reveal_strlit("ALTER TABLE ");
    reveal_strlit("DROP ");
    reveal_strlit("PEEK ");
    reveal_strlit("TAIL ");
}

/// A well-formed statement is renderable.
pub proof fn lemma_statement_well_formed_renderable(s: StatementModel)
    requires
        s.well_formed(),
    ensures
        s.renderable(),
{
    match s {
        StatementModel::Insert { table_name, columns, values } => {
            assert forall|i: int| 0 <= i < values.len() implies exprs_renderable(
                #[trigger] values[i],
            ) by {
                crate::expr::lemma_exprs_well_formed_renderable(values[i]);
            }
        },
        StatementModel::Update { table_name, assignments, selection } => {
            assert forall|i: int| 0 <= i < assignments.len() implies (
            #[trigger] assignments[i]).renderable() by {
                crate::clauses::lemma_assignment_well_formed_renderable(assignments[i]);
            }
            match selection {
                Some(e) => crate::expr::lemma_expr_well_formed_renderable(e),
                None => {},
            }
        },
        StatementModel::Delete { table_name, selection } => {
            match selection {
                Some(e) => crate::expr::lemma_expr_well_formed_renderable(e),
                None => {},
            }
        },
        StatementModel::CreateTable {
            name,
            columns,
            with_options,
            external,
            file_format,
            location,
        } => {
            assert forall|i: int| 0 <= i < columns.len() implies (
            #[trigger] columns[i]).renderable() by {
                crate::clauses::lemma_column_def_well_formed_renderable(columns[i]);
            }
        },
        _ => {},
    }
}

} // verus!
