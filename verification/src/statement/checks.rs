//! Testing whether statements are renderable and well formed.

use crate::clauses::{SQLAssignment, SQLColumnDef};
use crate::expr::checks::{
    all_renderable, all_well_formed, optional_is_renderable, optional_is_well_formed,
};
use crate::expr::{exprs_renderable, exprs_well_formed, ASTNode};
use crate::list::models;
use crate::statement::{
    assignments_renderable, assignments_well_formed, column_defs_renderable,
    column_defs_well_formed, row_models, rows_renderable, rows_well_formed, SQLStatement,
};
use vstd::prelude::*;

verus! {

/// Whether every expression of every row is renderable.
fn rows_are_renderable(rows: &Vec<Vec<ASTNode>>) -> (r: bool)
    ensures
        r == rows_renderable(row_models(rows@)),
{
    let mut i: usize = 0;
    while i < rows.len()
        invariant
            i <= rows.len(),
            forall|j: int| 0 <= j < i ==> exprs_renderable(#[trigger] row_models(rows@)[j]),
        decreases rows.len() - i,
    {
        if !all_renderable(&rows[i]) {
            assert(!exprs_renderable(row_models(rows@)[i as int]));
            return false;
        }
        i += 1;
    }
    true
}

/// Whether every assignment of a list is renderable.
fn assignments_are_renderable(assignments: &Vec<SQLAssignment>) -> (r: bool)
    ensures
        r == assignments_renderable(models(assignments@)),
{
    let mut i: usize = 0;
    while i < assignments.len()
        invariant
            i <= assignments.len(),
            forall|j: int| 0 <= j < i ==> (#[trigger] models(assignments@)[j]).renderable(),
        decreases assignments.len() - i,
    {
        if !assignments[i].is_renderable() {
            assert(!models(assignments@)[i as int].renderable());
            return false;
        }
        i += 1;
    }
    true
}

/// Whether every column definition of a list is renderable.
fn column_defs_are_renderable(columns: &Vec<SQLColumnDef>) -> (r: bool)
    ensures
        r == column_defs_renderable(models(columns@)),
{
    let mut i: usize = 0;
    while i < columns.len()
        invariant
            i <= columns.len(),
            forall|j: int| 0 <= j < i ==> (#[trigger] models(columns@)[j]).renderable(),
        decreases columns.len() - i,
    {
        if !columns[i].is_renderable() {
            assert(!models(columns@)[i as int].renderable());
            return false;
        }
        i += 1;
    }
    true
}

/// Whether every expression of every row is well formed.
fn rows_are_well_formed(rows: &Vec<Vec<ASTNode>>) -> (r: bool)
    ensures
        r == rows_well_formed(row_models(rows@)),
{
    let mut i: usize = 0;
    while i < rows.len()
        invariant
            i <= rows.len(),
            forall|j: int| 0 <= j < i ==> exprs_well_formed(#[trigger] row_models(rows@)[j]),
        decreases rows.len() - i,
    {
        if !all_well_formed(&rows[i]) {
            assert(!exprs_well_formed(row_models(rows@)[i as int]));
            return false;
        }
        i += 1;
    }
    true
}

/// Whether every assignment of a list is well formed.
fn assignments_are_well_formed(assignments: &Vec<SQLAssignment>) -> (r: bool)
    ensures
        r == assignments_well_formed(models(assignments@)),
{
    let mut i: usize = 0;
    while i < assignments.len()
        invariant
            i <= assignments.len(),
            forall|j: int| 0 <= j < i ==> (#[trigger] models(assignments@)[j]).well_formed(),
        decreases assignments.len() - i,
    {
        if !assignments[i].is_well_formed() {
            assert(!models(assignments@)[i as int].well_formed());
            return false;
        }
        i += 1;
    }
    true
}

/// Whether every column definition of a list is well formed.
fn column_defs_are_well_formed(columns: &Vec<SQLColumnDef>) -> (r: bool)
    ensures
        r == column_defs_well_formed(models(columns@)),
{
    let mut i: usize = 0;
    while i < columns.len()
        invariant
            i <= columns.len(),
            forall|j: int| 0 <= j < i ==> (#[trigger] models(columns@)[j]).well_formed(),
        decreases columns.len() - i,
    {
        if !columns[i].is_well_formed() {
            assert(!models(columns@)[i as int].well_formed());
            return false;
        }
        i += 1;
    }
    true
}

impl SQLStatement {
    /// Whether [`SQLStatement::to_string`] may be called.
    pub fn is_renderable(&self) -> (r: bool)
        ensures
            r == self@.renderable(),
    {
        match self {
            SQLStatement::SQLInsert { values, .. } => rows_are_renderable(values),
            SQLStatement::SQLUpdate { assignments, selection, .. } => {
                assignments_are_renderable(assignments) && optional_is_renderable(selection)
            },
            SQLStatement::SQLDelete { selection, .. } => optional_is_renderable(selection),
            SQLStatement::SQLCreateTable { columns, external, file_format, location, .. } => {
                column_defs_are_renderable(columns) && (!*external || (file_format.is_some()
                    && location.is_some()))
            },
            _ => true,
        }
    }

    /// Writes the statement as SQL where it has a text.
    pub fn try_to_string(&self) -> (out: Option<String>)
        ensures
            self@.renderable() ==> out is Some && out->0@ == self.text(),
            !self@.renderable() ==> out is None,
    {
        if self.is_renderable() {
            Some(self.to_string())
        } else {
            None
        }
    }

    /// Whether the statement is well formed.
    pub fn is_well_formed(&self) -> (r: bool)
        ensures
            r == self@.well_formed(),
    {
        match self {
            SQLStatement::SQLQuery(_) => true,
            SQLStatement::SQLInsert { table_name, values, .. } => {
                table_name.is_well_formed() && rows_are_well_formed(values)
            },
            SQLStatement::SQLCopy { table_name, .. } => table_name.is_well_formed(),
            SQLStatement::SQLUpdate { table_name, assignments, selection } => {
                table_name.is_well_formed() && assignments_are_well_formed(assignments)
                    && optional_is_well_formed(selection)
            },
            SQLStatement::SQLDelete { table_name, selection } => {
                table_name.is_well_formed() && optional_is_well_formed(selection)
            },
            SQLStatement::SQLCreateDataSource { name, .. } => name.is_well_formed(),
            SQLStatement::SQLCreateDataSink { name, from, .. } => {
                name.is_well_formed() && from.is_well_formed()
            },
            SQLStatement::SQLCreateView { name, .. } => name.is_well_formed(),
            SQLStatement::SQLCreateTable {
                name,
                columns,
                external,
                file_format,
                location,
                ..
            } => {
                name.is_well_formed() && column_defs_are_well_formed(columns) && (!*external || (
                file_format.is_some() && location.is_some()))
            },
            SQLStatement::SQLAlterTable { name, .. } => name.is_well_formed(),
            SQLStatement::SQLDropTable(drop) => drop.is_well_formed(),
            SQLStatement::SQLDropDataSource(drop) => drop.is_well_formed(),
            SQLStatement::SQLDropView(drop) => drop.is_well_formed(),
            SQLStatement::SQLPeek { name } => name.is_well_formed(),
            SQLStatement::SQLTail { name } => name.is_well_formed(),
        }
    }
}

} // verus!
