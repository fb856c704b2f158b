//! Writing expressions and window specifications as SQL.

use crate::expr::{
    expr_models, expr_texts, exprs_renderable, optional_model, optional_renderable,
    optional_text, order_by_texts, over_clause, when_clauses, ASTNode, SQLWindowSpec,
};
use crate::query::SQLOrderByExpr;
use crate::text::{
    append_if, append_optional, comma_separated_string, join_strings, views,
};
use vstd::prelude::*;
use vstd::string::*;

verus! {

/// Appends ` OVER (<window>)` where a window specification is present.
fn append_over(out: &mut String, window: &Option<String>)
    ensures
        final(out)@ == old(out)@ + over_clause(
            match window {
                Some(text) => Some(text@),
                None => None,
            },
        ),
{
    match window {
        Some(text) => {
            let mut clause = String::from_str(" OVER (");
            clause.append(text.as_str());
            clause.append(")");
            out.append(clause.as_str());
        },
        None => {
            assert(out@ + Seq::<char>::empty() =~= out@);
        },
    }
}

/// Writes the `WHEN .. THEN ..` clauses of a `CASE`.
fn when_clauses_string(conditions: &Vec<String>, results: &Vec<String>) -> (out: String)
    ensures
        out@ == when_clauses(views(conditions@), views(results@)),
{
    let n = if conditions.len() <= results.len() {
        conditions.len()
    } else {
        results.len()
    };
    let mut clauses: Vec<String> = Vec::new();
    let mut i: usize = 0;
    while i < n
        invariant
            i <= n,
            n <= conditions.len(),
            n <= results.len(),
            clauses.len() == i,
            forall|j: int|
                0 <= j < i ==> clauses@[j]@ == " WHEN "@ + conditions@[j]@ + " THEN "@
                    + results@[j]@,
        decreases n - i,
    {
        let mut clause = String::from_str(" WHEN ");
        clause.append(conditions[i].as_str());
        clause.append(" THEN ");
        clause.append(results[i].as_str());
        clauses.push(clause);
        i += 1;
    }
    proof {
        reveal_strlit("");
        assert(""@ =~= Seq::<char>::empty());
        assert(views(clauses@) =~= Seq::new(
            n as nat,
            |i: int| " WHEN "@ + views(conditions@)[i] + " THEN "@ + views(results@)[i],
        ));
    }
    join_strings(&clauses, "")
}

/// Writes each `ORDER BY` item of a list as SQL.
pub fn order_by_strings(items: &Vec<SQLOrderByExpr>) -> (out: Vec<String>)
    ensures
        views(out@) == order_by_texts(items@),
{
    let mut out: Vec<String> = Vec::new();
    let mut i: usize = 0;
    while i < items.len()
        invariant
            i <= items.len(),
            out.len() == i,
            forall|j: int| 0 <= j < i ==> out@[j]@ == items@[j]@,
        decreases items.len() - i,
    {
        out.push(items[i].to_string());
        i += 1;
    }
    assert(views(out@) =~= order_by_texts(items@));
    out
}

/// Writes each expression of a list as SQL.
pub fn expr_strings(items: &Vec<ASTNode>) -> (out: Vec<String>)
    requires
        exprs_renderable(expr_models(items@)),
    ensures
        views(out@) == expr_texts(expr_models(items@)),
    decreases items,
{
    let mut out: Vec<String> = Vec::new();
    let mut i: usize = 0;
    while i < items.len()
        invariant
            i <= items.len(),
            out.len() == i,
            exprs_renderable(expr_models(items@)),
            forall|j: int| 0 <= j < i ==> out@[j]@ == items@[j]@.text(),
        decreases items.len() - i,
    {
        assert(expr_models(items@)[i as int].renderable());
        out.push(items[i].to_string());
        i += 1;
    }
    assert(views(out@) =~= expr_texts(expr_models(items@)));
    out
}

/// Writes an operand that may be absent.
fn optional_expr_string(e: &Option<Box<ASTNode>>) -> (out: Option<String>)
    requires
        match e {
            Some(e) => e@.renderable(),
            None => true,
        },
    ensures
        match e {
            Some(e) => out is Some && out->0@ == e@.text(),
            None => out is None,
        },
    decreases e,
{
    match e {
        Some(e) => Some(e.to_string()),
        None => None,
    }
}

/// Writes an expression that may be absent.
pub fn optional_string(e: &Option<ASTNode>) -> (out: Option<String>)
    requires
        optional_renderable(optional_model(*e)),
    ensures
        match optional_text(optional_model(*e)) {
            Some(text) => out is Some && out->0@ == text,
            None => out is None,
        },
{
    match e {
        Some(e) => Some(e.to_string()),
        None => None,
    }
}

impl ASTNode {
    /// Writes the expression as SQL.
    pub fn to_string(&self) -> (out: String)
        requires
            self@.renderable(),
        ensures
            out@ == self.text(),
        decreases self,
    {
        match self {
            ASTNode::SQLIdentifier(s) => s.clone(),
            ASTNode::SQLWildcard => String::from_str("*"),
            ASTNode::SQLQualifiedWildcard(parts) => {
                let mut out = join_strings(parts, ".");
                out.append(".*");
                out
            },
            ASTNode::SQLCompoundIdentifier(parts) => join_strings(parts, "."),
            ASTNode::SQLIsNull(e) => {
                let mut out = e.to_string();
                out.append(" IS NULL");
                out
            },
            ASTNode::SQLIsNotNull(e) => {
                let mut out = e.to_string();
                out.append(" IS NOT NULL");
                out
            },
            ASTNode::SQLInList { expr, list, negated } => {
                let mut out = expr.to_string();
                out.append(" ");
                append_if(&mut out, *negated, "NOT ");
                out.append("IN (");
                let items = expr_strings(list);
                let joined = comma_separated_string(&items);
                out.append(joined.as_str());
                out.append(")");
                out
            },
            ASTNode::SQLInSubquery { expr, subquery, negated } => {
                let mut out = expr.to_string();
                out.append(" ");
                append_if(&mut out, *negated, "NOT ");
                out.append("IN (");
                let query = subquery.to_string();
                out.append(query.as_str());
                out.append(")");
                out
            },
            ASTNode::SQLBetween { expr, negated, low, high } => {
                let mut out = expr.to_string();
                out.append(" ");
                append_if(&mut out, *negated, "NOT ");
                out.append("BETWEEN ");
                let low = low.to_string();
                out.append(low.as_str());
                out.append(" AND ");
                let high = high.to_string();
                out.append(high.as_str());
                out
            },
            ASTNode::SQLBinaryExpr { left, op, right } => {
                let mut out = left.to_string();
                out.append(" ");
                let op = op.to_string();
                out.append(op.as_str());
                out.append(" ");
                let right = right.to_string();
                out.append(right.as_str());
                out
            },
            ASTNode::SQLCast { expr, data_type } => {
                let mut out = String::from_str("CAST(");
                let expr = expr.to_string();
                out.append(expr.as_str());
                out.append(" AS ");
                let data_type = data_type.to_string();
                out.append(data_type.as_str());
                out.append(")");
                out
            },
            ASTNode::SQLCollate { expr, collation } => {
                let mut out = expr.to_string();
                out.append(" COLLATE ");
                let collation = collation.to_string();
                out.append(collation.as_str());
                out
            },
            ASTNode::SQLNested(e) => {
                let mut out = String::from_str("(");
                let e = e.to_string();
                out.append(e.as_str());
                out.append(")");
                out
            },
            ASTNode::SQLUnary { operator, expr } => {
                let mut out = operator.to_string();
                out.append(" ");
                let expr = expr.to_string();
                out.append(expr.as_str());
                out
            },
            ASTNode::SQLValue(v) => v.to_string(),
            ASTNode::SQLFunction { name, args, over, all, distinct } => {
                let mut out = name.to_string();
                out.append("(");
                append_if(&mut out, *all, "ALL ");
                append_if(&mut out, *distinct, "DISTINCT ");
                let items = expr_strings(args);
                let joined = comma_separated_string(&items);
                out.append(joined.as_str());
                out.append(")");
                let window = match over {
                    Some(window) => Some(window.to_string()),
                    None => None,
                };
                append_over(&mut out, &window);
                out
            },
            ASTNode::SQLCase { operand, conditions, results, else_result } => {
                let mut out = String::from_str("CASE");
                let operand = optional_expr_string(operand);
                append_optional(&mut out, " ", &operand);
                let conditions = expr_strings(conditions);
                let results = expr_strings(results);
                let clauses = when_clauses_string(&conditions, &results);
                out.append(clauses.as_str());
                let else_result = optional_expr_string(else_result);
                append_optional(&mut out, " ELSE ", &else_result);
                out.append(" END");
                out
            },
            ASTNode::SQLSubquery(q) => {
                let mut out = String::from_str("(");
                let q = q.to_string();
                out.append(q.as_str());
                out.append(")");
                out
            },
        }
    }
}

impl SQLWindowSpec {
    /// Writes the specification as SQL.
    pub fn to_string(&self) -> (out: String)
        requires
            self@.renderable(),
        ensures
            out@ == self.text(),
        decreases self,
    {
        let mut clauses: Vec<String> = Vec::new();
        if self.partition_by.len() > 0 {
            let items = expr_strings(&self.partition_by);
            let joined = comma_separated_string(&items);
            let mut clause = String::from_str("PARTITION BY ");
            clause.append(joined.as_str());
            clauses.push(clause);
        }
        if self.order_by.len() > 0 {
            let items = order_by_strings(&self.order_by);
            let joined = comma_separated_string(&items);
            let mut clause = String::from_str("ORDER BY ");
            clause.append(joined.as_str());
            clauses.push(clause);
        }
        if let Some(frame) = &self.window_frame {
            clauses.push(frame.to_string());
        }
        assert(views(clauses@) =~= self@.clauses());
        join_strings(&clauses, " ")
    }
}

} // verus!
