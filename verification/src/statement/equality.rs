//! Structural equality and copies of statements.

use crate::expr::equality::{clone_exprs, exprs_equal, optional_clone, optional_same};
use crate::expr::{expr_models, optional_model, ASTNode};
use crate::list::{clone_list, lists_equal, models};
use crate::query::SQLQuery;
use crate::statement::{copy_value_model, copy_value_models, row_models, SQLStatement};
use crate::text::{clone_strings, str_eq, strings_equal, views};
use vstd::prelude::*;
use vstd::std_specs::cmp::PartialEqSpecImpl;

verus! {

/// Whether two lists of rows hold equal expressions throughout.
fn rows_equal(a: &Vec<Vec<ASTNode>>, b: &Vec<Vec<ASTNode>>) -> (r: bool)
    ensures
        r == (row_models(a@) == row_models(b@)),
{
    if a.len() != b.len() {
        assert(row_models(a@).len() != row_models(b@).len());
        return false;
    }
    let mut i: usize = 0;
    while i < a.len()
        invariant
            i <= a.len(),
            a.len() == b.len(),
            forall|j: int| 0 <= j < i ==> expr_models(a@[j]@) == expr_models(b@[j]@),
        decreases a.len() - i,
    {
        if !exprs_equal(&a[i], &b[i]) {
            assert(row_models(a@)[i as int] != row_models(b@)[i as int]);
            return false;
        }
        i += 1;
    }
    assert(row_models(a@) =~= row_models(b@));
    true
}

/// Whether two strings that may be absent are equal.
fn optional_strings_equal(a: &Option<String>, b: &Option<String>) -> (r: bool)
    ensures
        r == (copy_value_model(*a) == copy_value_model(*b)),
{
    match (a, b) {
        (Some(x), Some(y)) => str_eq(x.as_str(), y.as_str()),
        (None, None) => true,
        _ => false,
    }
}

/// Whether two lists of `COPY` values are equal.
fn copy_values_equal(a: &Vec<Option<String>>, b: &Vec<Option<String>>) -> (r: bool)
    ensures
        r == (copy_value_models(a@) == copy_value_models(b@)),
{
    if a.len() != b.len() {
        assert(copy_value_models(a@).len() != copy_value_models(b@).len());
        return false;
    }
    let mut i: usize = 0;
    while i < a.len()
        invariant
            i <= a.len(),
            a.len() == b.len(),
            forall|j: int| 0 <= j < i ==> copy_value_model(a@[j]) == copy_value_model(b@[j]),
        decreases a.len() - i,
    {
        if !optional_strings_equal(&a[i], &b[i]) {
            assert(copy_value_models(a@)[i as int] != copy_value_models(b@)[i as int]);
            return false;
        }
        i += 1;
    }
    assert(copy_value_models(a@) =~= copy_value_models(b@));
    true
}

/// A copy of a list of rows.
fn clone_rows(rows: &Vec<Vec<ASTNode>>) -> (r: Vec<Vec<ASTNode>>)
    ensures
        row_models(r@) == row_models(rows@),
{
    let mut r: Vec<Vec<ASTNode>> = Vec::new();
    let mut i: usize = 0;
    while i < rows.len()
        invariant
            i <= rows.len(),
            r.len() == i,
            forall|j: int| 0 <= j < i ==> expr_models(r@[j]@) == expr_models(rows@[j]@),
        decreases rows.len() - i,
    {
        r.push(clone_exprs(&rows[i]));
        i += 1;
    }
    assert(row_models(r@) =~= row_models(rows@));
    r
}

/// A copy of a string that may be absent.
fn clone_optional_string(value: &Option<String>) -> (r: Option<String>)
    ensures
        copy_value_model(r) == copy_value_model(*value),
{
    match value {
        Some(text) => Some(text.clone()),
        None => None,
    }
}

/// A copy of a list of `COPY` values.
fn clone_copy_values(values: &Vec<Option<String>>) -> (r: Vec<Option<String>>)
    ensures
        copy_value_models(r@) == copy_value_models(values@),
{
    let mut r: Vec<Option<String>> = Vec::new();
    let mut i: usize = 0;
    while i < values.len()
        invariant
            i <= values.len(),
            r.len() == i,
            forall|j: int| 0 <= j < i ==> copy_value_model(r@[j]) == copy_value_model(values@[j]),
        decreases values.len() - i,
    {
        r.push(clone_optional_string(&values[i]));
        i += 1;
    }
    assert(copy_value_models(r@) =~= copy_value_models(values@));
    r
}

/// A copy of a query.
fn clone_boxed_query(query: &Box<SQLQuery>) -> (r: Box<SQLQuery>)
    ensures
        r@ == query@,
{
    let inner: &SQLQuery = query;
    Box::new(inner.clone())
}

impl SQLStatement {
    /// Structural equality: the same kind of statement, with equal fields
    /// throughout.
    pub fn same(&self, other: &SQLStatement) -> (r: bool)
        ensures
            r == (self@ == other@),
    {
        match (self, other) {
            (SQLStatement::SQLQuery(a), SQLStatement::SQLQuery(b)) => str_eq(
                a.text.as_str(),
                b.text.as_str(),
            ),
            (
                SQLStatement::SQLInsert { table_name: t1, columns: c1, values: v1 },
                SQLStatement::SQLInsert { table_name: t2, columns: c2, values: v2 },
            ) => strings_equal(&t1.0, &t2.0) && strings_equal(c1, c2) && rows_equal(v1, v2),
            (
                SQLStatement::SQLCopy { table_name: t1, columns: c1, values: v1 },
                SQLStatement::SQLCopy { table_name: t2, columns: c2, values: v2 },
            ) => strings_equal(&t1.0, &t2.0) && strings_equal(c1, c2) && copy_values_equal(
                v1,
                v2,
            ),
            (
                SQLStatement::SQLUpdate { table_name: t1, assignments: a1, selection: s1 },
                SQLStatement::SQLUpdate { table_name: t2, assignments: a2, selection: s2 },
            ) => strings_equal(&t1.0, &t2.0) && lists_equal(a1, a2) && optional_same(s1, s2),
            (
                SQLStatement::SQLDelete { table_name: t1, selection: s1 },
                SQLStatement::SQLDelete { table_name: t2, selection: s2 },
            ) => strings_equal(&t1.0, &t2.0) && optional_same(s1, s2),
            (
                SQLStatement::SQLCreateDataSource {
                    name: n1,
                    url: u1,
                    schema: s1,
                    with_options: w1,
                },
                SQLStatement::SQLCreateDataSource {
                    name: n2,
                    url: u2,
                    schema: s2,
                    with_options: w2,
                },
            ) => strings_equal(&n1.0, &n2.0) && str_eq(u1.as_str(), u2.as_str()) && s1.same(s2)
                && lists_equal(w1, w2),
            (
                SQLStatement::SQLCreateDataSink { name: n1, from: f1, url: u1, with_options: w1 },
                SQLStatement::SQLCreateDataSink { name: n2, from: f2, url: u2, with_options: w2 },
            ) => strings_equal(&n1.0, &n2.0) && strings_equal(&f1.0, &f2.0) && str_eq(
                u1.as_str(),
                u2.as_str(),
            ) && lists_equal(w1, w2),
            (
                SQLStatement::SQLCreateView {
                    name: n1,
                    query: q1,
                    materialized: m1,
                    with_options: w1,
                },
                SQLStatement::SQLCreateView {
                    name: n2,
                    query: q2,
                    materialized: m2,
                    with_options: w2,
                },
            ) => strings_equal(&n1.0, &n2.0) && str_eq(q1.text.as_str(), q2.text.as_str())
                && *m1 == *m2 && lists_equal(w1, w2),
            (
                SQLStatement::SQLCreateTable {
                    name: n1,
                    columns: c1,
                    with_options: w1,
                    external: e1,
                    file_format: f1,
                    location: l1,
                },
                SQLStatement::SQLCreateTable {
                    name: n2,
                    columns: c2,
                    with_options: w2,
                    external: e2,
                    file_format: f2,
                    location: l2,
                },
            ) => strings_equal(&n1.0, &n2.0) && lists_equal(c1, c2) && lists_equal(w1, w2)
                && *e1 == *e2 && *f1 == *f2 && optional_strings_equal(l1, l2),
            (
                SQLStatement::SQLAlterTable { name: n1, operation: o1 },
                SQLStatement::SQLAlterTable { name: n2, operation: o2 },
            ) => strings_equal(&n1.0, &n2.0) && str_eq(o1.text.as_str(), o2.text.as_str()),
            (SQLStatement::SQLDropTable(a), SQLStatement::SQLDropTable(b)) => a.same(b),
            (SQLStatement::SQLDropDataSource(a), SQLStatement::SQLDropDataSource(b)) => a.same(
                b,
            ),
            (SQLStatement::SQLDropView(a), SQLStatement::SQLDropView(b)) => a.same(b),
            (SQLStatement::SQLPeek { name: a }, SQLStatement::SQLPeek { name: b }) => strings_equal(
                &a.0,
                &b.0,
            ),
            (SQLStatement::SQLTail { name: a }, SQLStatement::SQLTail { name: b }) => strings_equal(
                &a.0,
                &b.0,
            ),
            _ => false,
        }
    }
}

impl Clone for SQLStatement {
    fn clone(&self) -> (r: SQLStatement)
        ensures
            r@ == self@,
    {
        match self {
            SQLStatement::SQLQuery(query) => SQLStatement::SQLQuery(clone_boxed_query(query)),
            SQLStatement::SQLInsert { table_name, columns, values } => SQLStatement::SQLInsert {
                table_name: table_name.clone(),
                columns: clone_strings(columns),
                values: clone_rows(values),
            },
            SQLStatement::SQLCopy { table_name, columns, values } => SQLStatement::SQLCopy {
                table_name: table_name.clone(),
                columns: clone_strings(columns),
                values: clone_copy_values(values),
            },
            SQLStatement::SQLUpdate { table_name, assignments, selection } => SQLStatement::SQLUpdate {
                table_name: table_name.clone(),
                assignments: clone_list(assignments),
                selection: optional_clone(selection),
            },
            SQLStatement::SQLDelete { table_name, selection } => SQLStatement::SQLDelete {
                table_name: table_name.clone(),
                selection: optional_clone(selection),
            },
            SQLStatement::SQLCreateDataSource {
                name,
                url,
                schema,
                with_options,
            } => SQLStatement::SQLCreateDataSource {
                name: name.clone(),
                url: url.clone(),
                schema: schema.clone(),
                with_options: clone_list(with_options),
            },
            SQLStatement::SQLCreateDataSink {
                name,
                from,
                url,
                with_options,
            } => SQLStatement::SQLCreateDataSink {
                name: name.clone(),
                from: from.clone(),
                url: url.clone(),
                with_options: clone_list(with_options),
            },
            SQLStatement::SQLCreateView {
                name,
                query,
                materialized,
                with_options,
            } => SQLStatement::SQLCreateView {
                name: name.clone(),
                query: clone_boxed_query(query),
                materialized: *materialized,
                with_options: clone_list(with_options),
            },
            SQLStatement::SQLCreateTable {
                name,
                columns,
                with_options,
                external,
                file_format,
                location,
            } => SQLStatement::SQLCreateTable {
                name: name.clone(),
                columns: clone_list(columns),
                with_options: clone_list(with_options),
                external: *external,
                file_format: *file_format,
                location: clone_optional_string(location),
            },
            SQLStatement::SQLAlterTable { name, operation } => SQLStatement::SQLAlterTable {
                name: name.clone(),
                operation: operation.clone(),
            },
            SQLStatement::SQLDropTable(drop) => SQLStatement::SQLDropTable(drop.clone()),
            SQLStatement::SQLDropDataSource(drop) => SQLStatement::SQLDropDataSource(
                drop.clone(),
            ),
            SQLStatement::SQLDropView(drop) => SQLStatement::SQLDropView(drop.clone()),
            SQLStatement::SQLPeek { name } => SQLStatement::SQLPeek { name: name.clone() },
            SQLStatement::SQLTail { name } => SQLStatement::SQLTail { name: name.clone() },
        }
    }
}

impl PartialEq for SQLStatement {
    fn eq(&self, other: &SQLStatement) -> (r: bool) {
        self.same(other)
    }
}

impl Eq for SQLStatement {
}

impl PartialEqSpecImpl for SQLStatement {
    open spec fn obeys_eq_spec() -> bool {
        true
    }

    open spec fn eq_spec(&self, other: &SQLStatement) -> bool {
        self@ == other@
    }
}

/// Two statements are equal exactly where they are the same variant and
/// agree in every field, flags included.
pub proof fn lemma_statement_equal_by_fields(a: SQLStatement, b: SQLStatement)
    ensures
        a@ == b@ <==> match (a, b) {
            (SQLStatement::SQLQuery(x), SQLStatement::SQLQuery(y)) => x@ == y@,
            (
                SQLStatement::SQLInsert { table_name: t1, columns: c1, values: v1 },
                SQLStatement::SQLInsert { table_name: t2, columns: c2, values: v2 },
            ) => t1@ == t2@ && views(c1@) == views(c2@) && row_models(v1@) == row_models(v2@),
            (
                SQLStatement::SQLCopy { table_name: t1, columns: c1, values: v1 },
                SQLStatement::SQLCopy { table_name: t2, columns: c2, values: v2 },
            ) => t1@ == t2@ && views(c1@) == views(c2@) && copy_value_models(v1@)
                == copy_value_models(v2@),
            (
                SQLStatement::SQLUpdate { table_name: t1, assignments: a1, selection: s1 },
                SQLStatement::SQLUpdate { table_name: t2, assignments: a2, selection: s2 },
            ) => t1@ == t2@ && models(a1@) == models(a2@) && optional_model(s1) == optional_model(
                s2,
            ),
            (
                SQLStatement::SQLDelete { table_name: t1, selection: s1 },
                SQLStatement::SQLDelete { table_name: t2, selection: s2 },
            ) => t1@ == t2@ && optional_model(s1) == optional_model(s2),
            (
                SQLStatement::SQLCreateDataSource {
                    name: n1,
                    url: u1,
                    schema: s1,
                    with_options: w1,
                },
                SQLStatement::SQLCreateDataSource {
                    name: n2,
                    url: u2,
                    schema: s2,
                    with_options: w2,
                },
            ) => n1@ == n2@ && u1@ == u2@ && s1@ == s2@ && models(w1@) == models(w2@),
            (
                SQLStatement::SQLCreateDataSink { name: n1, from: f1, url: u1, with_options: w1 },
                SQLStatement::SQLCreateDataSink { name: n2, from: f2, url: u2, with_options: w2 },
            ) => n1@ == n2@ && f1@ == f2@ && u1@ == u2@ && models(w1@) == models(w2@),
            (
                SQLStatement::SQLCreateView {
                    name: n1,
                    query: q1,
                    materialized: m1,
                    with_options: w1,
                },
                SQLStatement::SQLCreateView {
                    name: n2,
                    query: q2,
                    materialized: m2,
                    with_options: w2,
                },
            ) => n1@ == n2@ && q1@ == q2@ && m1 == m2 && models(w1@) == models(w2@),
            (
                SQLStatement::SQLCreateTable {
                    name: n1,
                    columns: c1,
                    with_options: w1,
                    external: e1,
                    file_format: f1,
                    location: l1,
                },
                SQLStatement::SQLCreateTable {
                    name: n2,
                    columns: c2,
                    with_options: w2,
                    external: e2,
                    file_format: f2,
                    location: l2,
                },
            ) => n1@ == n2@ && models(c1@) == models(c2@) && models(w1@) == models(w2@) && e1
                == e2 && f1 == f2 && copy_value_model(l1) == copy_value_model(l2),
            (
                SQLStatement::SQLAlterTable { name: n1, operation: o1 },
                SQLStatement::SQLAlterTable { name: n2, operation: o2 },
            ) => n1@ == n2@ && o1@ == o2@,
            (SQLStatement::SQLDropTable(x), SQLStatement::SQLDropTable(y)) => x@ == y@,
            (SQLStatement::SQLDropDataSource(x), SQLStatement::SQLDropDataSource(y)) => x@
                == y@,
            (SQLStatement::SQLDropView(x), SQLStatement::SQLDropView(y)) => x@ == y@,
            (SQLStatement::SQLPeek { name: x }, SQLStatement::SQLPeek { name: y }) => x@ == y@,
            (SQLStatement::SQLTail { name: x }, SQLStatement::SQLTail { name: y }) => x@ == y@,
            _ => false,
        },
{
}

/// Equal statements are written alike, and are alike renderable and well
/// formed.
pub proof fn lemma_equal_statements_agree(a: SQLStatement, b: SQLStatement)
    requires
        a@ == b@,
    ensures
        a.text() == b.text(),
        a@.renderable() == b@.renderable(),
        a@.well_formed() == b@.well_formed(),
{
}

} // verus!
