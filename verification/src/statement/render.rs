//! Writing statements as SQL.

use crate::clauses::{with_options_string, SQLAssignment, SQLColumnDef};
use crate::expr::render::{expr_strings, optional_string};
use crate::expr::{
    expr_models, expr_texts, exprs_renderable, optional_model, optional_renderable, ASTNode,
};
use crate::list::models;
use crate::name::SQLIdent;
use crate::statement::{
    assignment_texts, assignments_renderable, column_def_texts, column_defs_renderable,
    columns_clause, copy_data, copy_value_model, copy_value_models, copy_value_text,
    copy_value_texts, row_models, row_texts, rows_renderable, values_clause, where_clause,
    SQLStatement,
};
use crate::text::{
    append_if, append_optional, comma_separated_string, join, join_strings, views,
};
use crate::value::quote_string;
use vstd::prelude::*;
use vstd::string::*;

verus! {

/// Writes the column list of an `INSERT` or a `COPY`.
fn columns_string(columns: &Vec<SQLIdent>) -> (out: String)
    ensures
        out@ == columns_clause(views(columns@)),
{
    if columns.len() > 0 {
        let mut out = String::from_str(" (");
        let joined = comma_separated_string(columns);
        out.append(joined.as_str());
        out.append(")");
        out
    } else {
        String::new()
    }
}

/// Writes the `VALUES` clause of an `INSERT`.
fn values_string(rows: &Vec<Vec<ASTNode>>) -> (out: String)
    requires
        rows_renderable(row_models(rows@)),
    ensures
        out@ == values_clause(row_models(rows@)),
{
    if rows.len() > 0 {
        let mut texts: Vec<String> = Vec::new();
        let mut i: usize = 0;
        while i < rows.len()
            invariant
                i <= rows.len(),
                texts.len() == i,
                rows_renderable(row_models(rows@)),
                forall|j: int|
                    0 <= j < i ==> texts@[j]@ == join(expr_texts(expr_models(rows@[j]@)), ", "@),
            decreases rows.len() - i,
        {
            assert(exprs_renderable(row_models(rows@)[i as int]));
            let items = expr_strings(&rows[i]);
            texts.push(comma_separated_string(&items));
            i += 1;
        }
        assert(views(texts@) =~= row_texts(row_models(rows@)));
        let mut out = String::from_str(" VALUES(");
        let joined = comma_separated_string(&texts);
        out.append(joined.as_str());
        out.append(")");
        out
    } else {
        String::new()
    }
}

/// Writes the data of a `COPY`.
fn copy_data_string(values: &Vec<Option<String>>) -> (out: String)
    ensures
        out@ == copy_data(copy_value_models(values@)),
{
    if values.len() > 0 {
        let mut texts: Vec<String> = Vec::new();
        let mut i: usize = 0;
        while i < values.len()
            invariant
                i <= values.len(),
                texts.len() == i,
                forall|j: int|
                    0 <= j < i ==> texts@[j]@ == copy_value_text(copy_value_model(values@[j])),
            decreases values.len() - i,
        {
            let text = match &values[i] {
                Some(text) => text.clone(),
                None => String::from_str("\\N"),
            };
            texts.push(text);
            i += 1;
        }
        assert(views(texts@) =~= copy_value_texts(copy_value_models(values@)));
        let mut out = String::from_str("\n");
        let joined = join_strings(&texts, "\t");
        out.append(joined.as_str());
        out
    } else {
        String::new()
    }
}

/// Writes the assignments of an `UPDATE`.
fn assignments_string(assignments: &Vec<SQLAssignment>) -> (out: String)
    requires
        assignments_renderable(models(assignments@)),
    ensures
        out@ == join(assignment_texts(models(assignments@)), ", "@),
{
    let mut texts: Vec<String> = Vec::new();
    let mut i: usize = 0;
    while i < assignments.len()
        invariant
            i <= assignments.len(),
            texts.len() == i,
            assignments_renderable(models(assignments@)),
            forall|j: int| 0 <= j < i ==> texts@[j]@ == assignments@[j]@.text(),
        decreases assignments.len() - i,
    {
        assert(models(assignments@)[i as int].renderable());
        texts.push(assignments[i].to_string());
        i += 1;
    }
    assert(views(texts@) =~= assignment_texts(models(assignments@)));
    comma_separated_string(&texts)
}

/// Writes the column definitions of a `CREATE TABLE`.
fn column_defs_string(columns: &Vec<SQLColumnDef>) -> (out: String)
    requires
        column_defs_renderable(models(columns@)),
    ensures
        out@ == join(column_def_texts(models(columns@)), ", "@),
{
    let mut texts: Vec<String> = Vec::new();
    let mut i: usize = 0;
    while i < columns.len()
        invariant
            i <= columns.len(),
            texts.len() == i,
            column_defs_renderable(models(columns@)),
            forall|j: int| 0 <= j < i ==> texts@[j]@ == columns@[j]@.text(),
        decreases columns.len() - i,
    {
        assert(models(columns@)[i as int].renderable());
        texts.push(columns[i].to_string());
        i += 1;
    }
    assert(views(texts@) =~= column_def_texts(models(columns@)));
    comma_separated_string(&texts)
}

/// Appends the `WHERE` clause where there is a selection.
fn append_where(out: &mut String, selection: &Option<ASTNode>)
    requires
        optional_renderable(optional_model(*selection)),
    ensures
        final(out)@ == old(out)@ + where_clause(optional_model(*selection)),
{
    let selection = optional_string(selection);
    append_optional(out, " WHERE ", &selection);
}

impl SQLStatement {
    /// Writes the statement as SQL.
    pub fn to_string(&self) -> (out: String)
        requires
            self@.renderable(),
        ensures
            out@ == self.text(),
    {
        match self {
            SQLStatement::SQLQuery(query) => query.to_string(),
            SQLStatement::SQLInsert { table_name, columns, values } => {
                let mut out = String::from_str("INSERT INTO ");
                let table_name = table_name.to_string();
                out.append(table_name.as_str());
                let columns = columns_string(columns);
                out.append(columns.as_str());
                let values = values_string(values);
                out.append(values.as_str());
                out
            },
            SQLStatement::SQLCopy { table_name, columns, values } => {
                let mut out = String::from_str("COPY ");
                let table_name = table_name.to_string();
                out.append(table_name.as_str());
                let columns = columns_string(columns);
                out.append(columns.as_str());
                out.append(" FROM stdin; ");
                let data = copy_data_string(values);
                out.append(data.as_str());
                out.append("\n\\.");
                out
            },
            SQLStatement::SQLUpdate { table_name, assignments, selection } => {
                let mut out = String::from_str("UPDATE ");
                let table_name = table_name.to_string();
                out.append(table_name.as_str());
                let assignments = assignments_string(assignments);
                out.append(assignments.as_str());
                append_where(&mut out, selection);
                out
            },
            SQLStatement::SQLDelete { table_name, selection } => {
                let mut out = String::from_str("DELETE FROM ");
                let table_name = table_name.to_string();
                out.append(table_name.as_str());
                append_where(&mut out, selection);
                out
            },
            SQLStatement::SQLCreateDataSource { name, url, schema, with_options } => {
                let mut out = String::from_str("CREATE DATA SOURCE ");
                let name = name.to_string();
                out.append(name.as_str());
                out.append(" FROM ");
                let url = quote_string(url.as_str());
                out.append(url.as_str());
                out.append(" USING SCHEMA ");
                let schema = schema.to_string();
                out.append(schema.as_str());
                let with_options = with_options_string(with_options);
                out.append(with_options.as_str());
                out
            },
            SQLStatement::SQLCreateDataSink { name, from, url, with_options } => {
                let mut out = String::from_str("CREATE DATA SINK ");
                let name = name.to_string();
                out.append(name.as_str());
                out.append(" FROM ");
                let from = from.to_string();
                out.append(from.as_str());
                out.append(" INTO ");
                let url = quote_string(url.as_str());
                out.append(url.as_str());
                let with_options = with_options_string(with_options);
                out.append(with_options.as_str());
                out
            },
            SQLStatement::SQLCreateView { name, query, materialized, with_options } => {
                let mut out = String::from_str("CREATE");
                append_if(&mut out, *materialized, " MATERIALIZED");
                out.append(" VIEW ");
                let name = name.to_string();
                out.append(name.as_str());
                let with_options = with_options_string(with_options);
                out.append(with_options.as_str());
                out.append(" AS ");
                let query = query.to_string();
                out.append(query.as_str());
                out
            },
            SQLStatement::SQLCreateTable {
                name,
                columns,
                with_options,
                external,
                file_format,
                location,
            } => {
                if *external {
                    let mut out = String::from_str("CREATE EXTERNAL TABLE ");
                    let name = name.to_string();
                    out.append(name.as_str());
                    out.append(" (");
                    let columns = column_defs_string(columns);
                    out.append(columns.as_str());
                    out.append(") STORED AS ");
                    let format = file_format.as_ref().unwrap().to_string();
                    out.append(format.as_str());
                    out.append(" LOCATION '");
                    out.append(location.as_ref().unwrap().as_str());
                    out.append("'");
                    out
                } else {
                    let mut out = String::from_str("CREATE TABLE ");
                    let name = name.to_string();
                    out.append(name.as_str());
                    out.append(" (");
                    let columns = column_defs_string(columns);
                    out.append(columns.as_str());
                    out.append(")");
                    let with_options = with_options_string(with_options);
                    out.append(with_options.as_str());
                    out
                }
            },
            SQLStatement::SQLAlterTable { name, operation } => {
                let mut out = String::from_str("ALTER TABLE ");
                let name = name.to_string();
                out.append(name.as_str());
                out.append(" ");
                let operation = operation.to_string();
                out.append(operation.as_str());
                out
            },
            SQLStatement::SQLDropTable(drop) => drop.to_string_internal("TABLE"),
            SQLStatement::SQLDropDataSource(drop) => drop.to_string_internal("DATA SOURCE"),
            SQLStatement::SQLDropView(drop) => drop.to_string_internal("VIEW"),
            SQLStatement::SQLPeek { name } => {
                let mut out = String::from_str("PEEK ");
                let name = name.to_string();
                out.append(name.as_str());
                out
            },
            SQLStatement::SQLTail { name } => {
                let mut out = String::from_str("TAIL ");
                let name = name.to_string();
                out.append(name.as_str());
                out
            },
        }
    }
}

} // verus!
