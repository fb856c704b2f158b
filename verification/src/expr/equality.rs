//! Structural equality and copies of expressions and window
//! specifications.

use crate::expr::{expr_models, optional_model, order_by_texts, ASTNode, SQLWindowSpec};
use crate::query::{SQLOrderByExpr, SQLQuery};
use crate::text::{clone_strings, str_eq, strings_equal, views};
use vstd::prelude::*;
use vstd::std_specs::cmp::PartialEqSpecImpl;

verus! {

/// Whether two lists hold equal expressions in the same order.
pub fn exprs_equal(a: &Vec<ASTNode>, b: &Vec<ASTNode>) -> (r: bool)
    ensures
        r == (expr_models(a@) == expr_models(b@)),
    decreases a,
{
    if a.len() != b.len() {
        assert(expr_models(a@).len() != expr_models(b@).len());
        return false;
    }
    let mut i: usize = 0;
    while i < a.len()
        invariant
            i <= a.len(),
            a.len() == b.len(),
            forall|j: int| 0 <= j < i ==> a@[j]@ == b@[j]@,
        decreases a.len() - i,
    {
        if !a[i].same(&b[i]) {
            assert(expr_models(a@)[i as int] != expr_models(b@)[i as int]);
            return false;
        }
        i += 1;
    }
    assert(expr_models(a@) =~= expr_models(b@));
    true
}

/// Whether two `ORDER BY` lists hold the same items in the same order.
fn order_by_equal(a: &Vec<SQLOrderByExpr>, b: &Vec<SQLOrderByExpr>) -> (r: bool)
    ensures
        r == (order_by_texts(a@) == order_by_texts(b@)),
{
    if a.len() != b.len() {
        assert(order_by_texts(a@).len() != order_by_texts(b@).len());
        return false;
    }
    let mut i: usize = 0;
    while i < a.len()
        invariant
            i <= a.len(),
            a.len() == b.len(),
            forall|j: int| 0 <= j < i ==> a@[j]@ == b@[j]@,
        decreases a.len() - i,
    {
        if !str_eq(a[i].text.as_str(), b[i].text.as_str()) {
            assert(order_by_texts(a@)[i as int] != order_by_texts(b@)[i as int]);
            return false;
        }
        i += 1;
    }
    assert(order_by_texts(a@) =~= order_by_texts(b@));
    true
}

/// Whether two operands that may be absent are equal.
fn optional_boxed_same(a: &Option<Box<ASTNode>>, b: &Option<Box<ASTNode>>) -> (r: bool)
    ensures
        r == match (a, b) {
            (Some(x), Some(y)) => x@ == y@,
            (None, None) => true,
            _ => false,
        },
    decreases a,
{
    match (a, b) {
        (Some(x), Some(y)) => x.same(y),
        (None, None) => true,
        _ => false,
    }
}

/// Whether two expressions that may be absent are equal.
pub fn optional_same(a: &Option<ASTNode>, b: &Option<ASTNode>) -> (r: bool)
    ensures
        r == (optional_model(*a) == optional_model(*b)),
{
    match (a, b) {
        (Some(x), Some(y)) => x.same(y),
        (None, None) => true,
        _ => false,
    }
}

impl ASTNode {
    /// Structural equality: the same variant, with equal fields throughout.
    pub fn same(&self, other: &ASTNode) -> (r: bool)
        ensures
            r == (self@ == other@),
        decreases self,
    {
        match (self, other) {
            (ASTNode::SQLIdentifier(a), ASTNode::SQLIdentifier(b)) => str_eq(
                a.as_str(),
                b.as_str(),
            ),
            (ASTNode::SQLWildcard, ASTNode::SQLWildcard) => true,
            (ASTNode::SQLQualifiedWildcard(a), ASTNode::SQLQualifiedWildcard(b)) => strings_equal(
                a,
                b,
            ),
            (
                ASTNode::SQLCompoundIdentifier(a),
                ASTNode::SQLCompoundIdentifier(b),
            ) => strings_equal(a, b),
            (ASTNode::SQLIsNull(a), ASTNode::SQLIsNull(b)) => a.same(b),
            (ASTNode::SQLIsNotNull(a), ASTNode::SQLIsNotNull(b)) => a.same(b),
            (
                ASTNode::SQLInList { expr: e1, list: l1, negated: n1 },
                ASTNode::SQLInList { expr: e2, list: l2, negated: n2 },
            ) => e1.same(e2) && exprs_equal(l1, l2) && *n1 == *n2,
            (
                ASTNode::SQLInSubquery { expr: e1, subquery: q1, negated: n1 },
                ASTNode::SQLInSubquery { expr: e2, subquery: q2, negated: n2 },
            ) => e1.same(e2) && str_eq(q1.text.as_str(), q2.text.as_str()) && *n1 == *n2,
            (
                ASTNode::SQLBetween { expr: e1, negated: n1, low: l1, high: h1 },
                ASTNode::SQLBetween { expr: e2, negated: n2, low: l2, high: h2 },
            ) => e1.same(e2) && *n1 == *n2 && l1.same(l2) && h1.same(h2),
            (
                ASTNode::SQLBinaryExpr { left: l1, op: o1, right: r1 },
                ASTNode::SQLBinaryExpr { left: l2, op: o2, right: r2 },
            ) => l1.same(l2) && str_eq(o1.text.as_str(), o2.text.as_str()) && r1.same(r2),
            (
                ASTNode::SQLCast { expr: e1, data_type: t1 },
                ASTNode::SQLCast { expr: e2, data_type: t2 },
            ) => e1.same(e2) && t1.same(t2),
            (
                ASTNode::SQLCollate { expr: e1, collation: c1 },
                ASTNode::SQLCollate { expr: e2, collation: c2 },
            ) => e1.same(e2) && strings_equal(&c1.0, &c2.0),
            (ASTNode::SQLNested(a), ASTNode::SQLNested(b)) => a.same(b),
            (
                ASTNode::SQLUnary { operator: o1, expr: e1 },
                ASTNode::SQLUnary { operator: o2, expr: e2 },
            ) => str_eq(o1.text.as_str(), o2.text.as_str()) && e1.same(e2),
            (ASTNode::SQLValue(a), ASTNode::SQLValue(b)) => str_eq(
                a.text.as_str(),
                b.text.as_str(),
            ),
            (
                ASTNode::SQLFunction { name: f1, args: a1, over: w1, all: x1, distinct: d1 },
                ASTNode::SQLFunction { name: f2, args: a2, over: w2, all: x2, distinct: d2 },
            ) => {
                strings_equal(&f1.0, &f2.0) && exprs_equal(a1, a2) && match (w1, w2) {
                    (Some(w1), Some(w2)) => w1.same(w2),
                    (None, None) => true,
                    _ => false,
                } && *x1 == *x2 && *d1 == *d2
            },
            (
                ASTNode::SQLCase { operand: o1, conditions: c1, results: r1, else_result: e1 },
                ASTNode::SQLCase { operand: o2, conditions: c2, results: r2, else_result: e2 },
            ) => optional_boxed_same(o1, o2) && exprs_equal(c1, c2) && exprs_equal(r1, r2)
                && optional_boxed_same(e1, e2),
            (ASTNode::SQLSubquery(a), ASTNode::SQLSubquery(b)) => str_eq(
                a.text.as_str(),
                b.text.as_str(),
            ),
            _ => false,
        }
    }
}

impl SQLWindowSpec {
    /// Structural equality: equal lists and an equal frame.
    pub fn same(&self, other: &SQLWindowSpec) -> (r: bool)
        ensures
            r == (self@ == other@),
        decreases self,
    {
        exprs_equal(&self.partition_by, &other.partition_by) && order_by_equal(
            &self.order_by,
            &other.order_by,
        ) && self.window_frame == other.window_frame
    }
}

impl PartialEq for ASTNode {
    fn eq(&self, other: &ASTNode) -> (r: bool) {
        self.same(other)
    }
}

impl Eq for ASTNode {
}

impl PartialEqSpecImpl for ASTNode {
    open spec fn obeys_eq_spec() -> bool {
        true
    }

    open spec fn eq_spec(&self, other: &ASTNode) -> bool {
        self@ == other@
    }
}

impl PartialEq for SQLWindowSpec {
    fn eq(&self, other: &SQLWindowSpec) -> (r: bool) {
        self.same(other)
    }
}

impl Eq for SQLWindowSpec {
}

impl PartialEqSpecImpl for SQLWindowSpec {
    open spec fn obeys_eq_spec() -> bool {
        true
    }

    open spec fn eq_spec(&self, other: &SQLWindowSpec) -> bool {
        self@ == other@
    }
}

/// A copy of a list of expressions.
pub fn clone_exprs(items: &Vec<ASTNode>) -> (r: Vec<ASTNode>)
    ensures
        expr_models(r@) == expr_models(items@),
    decreases items, 0nat,
{
    let mut r: Vec<ASTNode> = Vec::new();
    let mut i: usize = 0;
    while i < items.len()
        invariant
            i <= items.len(),
            r.len() == i,
            forall|j: int| 0 <= j < i ==> r@[j]@ == items@[j]@,
        decreases items.len() - i,
    {
        r.push(items[i].clone());
        i += 1;
    }
    assert(expr_models(r@) =~= expr_models(items@));
    r
}

/// A copy of an `ORDER BY` list.
fn clone_order_by(items: &Vec<SQLOrderByExpr>) -> (r: Vec<SQLOrderByExpr>)
    ensures
        order_by_texts(r@) == order_by_texts(items@),
{
    let mut r: Vec<SQLOrderByExpr> = Vec::new();
    let mut i: usize = 0;
    while i < items.len()
        invariant
            i <= items.len(),
            r.len() == i,
            forall|j: int| 0 <= j < i ==> r@[j]@ == items@[j]@,
        decreases items.len() - i,
    {
        r.push(items[i].clone());
        i += 1;
    }
    assert(order_by_texts(r@) =~= order_by_texts(items@));
    r
}

/// A copy of an operand.
fn clone_boxed(e: &Box<ASTNode>) -> (r: Box<ASTNode>)
    ensures
        r@ == e@,
    decreases e, 1nat,
{
    let inner: &ASTNode = e;
    Box::new(inner.clone())
}

/// A copy of an operand that may be absent.
fn clone_optional(e: &Option<Box<ASTNode>>) -> (r: Option<Box<ASTNode>>)
    ensures
        match (e, r) {
            (Some(x), Some(y)) => x@ == y@,
            (None, None) => true,
            _ => false,
        },
    decreases e, 1nat,
{
    match e {
        Some(e) => Some(clone_boxed(e)),
        None => None,
    }
}

/// A copy of an expression that may be absent.
pub fn optional_clone(e: &Option<ASTNode>) -> (r: Option<ASTNode>)
    ensures
        optional_model(r) == optional_model(*e),
{
    match e {
        Some(e) => Some(e.clone()),
        None => None,
    }
}

impl Clone for ASTNode {
    fn clone(&self) -> (r: ASTNode)
        ensures
            r@ == self@,
        decreases self, 0nat,
    {
        match self {
            ASTNode::SQLIdentifier(s) => ASTNode::SQLIdentifier(s.clone()),
            ASTNode::SQLWildcard => ASTNode::SQLWildcard,
            ASTNode::SQLQualifiedWildcard(parts) => ASTNode::SQLQualifiedWildcard(
                clone_strings(parts),
            ),
            ASTNode::SQLCompoundIdentifier(parts) => ASTNode::SQLCompoundIdentifier(
                clone_strings(parts),
            ),
            ASTNode::SQLIsNull(e) => ASTNode::SQLIsNull(clone_boxed(e)),
            ASTNode::SQLIsNotNull(e) => ASTNode::SQLIsNotNull(clone_boxed(e)),
            ASTNode::SQLInList { expr, list, negated } => ASTNode::SQLInList {
                expr: clone_boxed(expr),
                list: clone_exprs(list),
                negated: *negated,
            },
            ASTNode::SQLInSubquery { expr, subquery, negated } => {
                let query: &SQLQuery = subquery;
                ASTNode::SQLInSubquery {
                    expr: clone_boxed(expr),
                    subquery: Box::new(query.clone()),
                    negated: *negated,
                }
            },
            ASTNode::SQLBetween { expr, negated, low, high } => ASTNode::SQLBetween {
                expr: clone_boxed(expr),
                negated: *negated,
                low: clone_boxed(low),
                high: clone_boxed(high),
            },
            ASTNode::SQLBinaryExpr { left, op, right } => ASTNode::SQLBinaryExpr {
                left: clone_boxed(left),
                op: op.clone(),
                right: clone_boxed(right),
            },
            ASTNode::SQLCast { expr, data_type } => ASTNode::SQLCast {
                expr: clone_boxed(expr),
                data_type: data_type.clone(),
            },
            ASTNode::SQLCollate { expr, collation } => ASTNode::SQLCollate {
                expr: clone_boxed(expr),
                collation: collation.clone(),
            },
            ASTNode::SQLNested(e) => ASTNode::SQLNested(clone_boxed(e)),
            ASTNode::SQLUnary { operator, expr } => ASTNode::SQLUnary {
                operator: operator.clone(),
                expr: clone_boxed(expr),
            },
            ASTNode::SQLValue(v) => ASTNode::SQLValue(v.clone()),
            ASTNode::SQLFunction { name, args, over, all, distinct } => ASTNode::SQLFunction {
                name: name.clone(),
                args: clone_exprs(args),
                over: match over {
                    Some(window) => Some(window.clone()),
                    None => None,
                },
                all: *all,
                distinct: *distinct,
            },
            ASTNode::SQLCase { operand, conditions, results, else_result } => ASTNode::SQLCase {
                operand: clone_optional(operand),
                conditions: clone_exprs(conditions),
                results: clone_exprs(results),
                else_result: clone_optional(else_result),
            },
            ASTNode::SQLSubquery(q) => {
                let query: &SQLQuery = q;
                ASTNode::SQLSubquery(Box::new(query.clone()))
            },
        }
    }
}

impl Clone for SQLWindowSpec {
    fn clone(&self) -> (r: SQLWindowSpec)
        ensures
            r@ == self@,
        decreases self, 0nat,
    {
        SQLWindowSpec {
            partition_by: clone_exprs(&self.partition_by),
            order_by: clone_order_by(&self.order_by),
            window_frame: self.window_frame,
        }
    }
}

/// Two lists of expressions have equal models exactly where they are
/// equally long and hold equal expressions at every position.
pub proof fn lemma_expr_models_equal(a: Seq<ASTNode>, b: Seq<ASTNode>)
    ensures
        expr_models(a) == expr_models(b) <==> a.len() == b.len() && forall|i: int|
            0 <= i < a.len() ==> (#[trigger] a[i])@ == b[i]@,
{
    if expr_models(a) == expr_models(b) {
        assert(expr_models(a).len() == a.len() && expr_models(b).len() == b.len());
        assert forall|i: int| 0 <= i < a.len() implies (#[trigger] a[i])@ == b[i]@ by {
            assert(expr_models(a)[i] == a[i]@);
            assert(expr_models(b)[i] == b[i]@);
        }
    }
    if a.len() == b.len() && forall|i: int| 0 <= i < a.len() ==> (#[trigger] a[i])@ == b[i]@ {
        assert(expr_models(a) =~= expr_models(b));
    }
}

/// Equality of an expression that may be absent.
pub open spec fn optional_boxed_equal(a: Option<Box<ASTNode>>, b: Option<Box<ASTNode>>) -> bool {
    match (a, b) {
        (Some(x), Some(y)) => x@ == y@,
        (None, None) => true,
        _ => false,
    }
}

/// Two expressions are equal exactly where they are the same variant and
/// agree in every field, flags included.
pub proof fn lemma_expr_equal_by_fields(a: ASTNode, b: ASTNode)
    ensures
        a@ == b@ <==> match (a, b) {
            (ASTNode::SQLIdentifier(x), ASTNode::SQLIdentifier(y)) => x@ == y@,
            (ASTNode::SQLWildcard, ASTNode::SQLWildcard) => true,
            (ASTNode::SQLQualifiedWildcard(x), ASTNode::SQLQualifiedWildcard(y)) => views(x@)
                == views(y@),
            (ASTNode::SQLCompoundIdentifier(x), ASTNode::SQLCompoundIdentifier(y)) => views(x@)
                == views(y@),
            (ASTNode::SQLIsNull(x), ASTNode::SQLIsNull(y)) => x@ == y@,
            (ASTNode::SQLIsNotNull(x), ASTNode::SQLIsNotNull(y)) => x@ == y@,
            (
                ASTNode::SQLInList { expr: e1, list: l1, negated: n1 },
                ASTNode::SQLInList { expr: e2, list: l2, negated: n2 },
            ) => e1@ == e2@ && expr_models(l1@) == expr_models(l2@) && n1 == n2,
            (
                ASTNode::SQLInSubquery { expr: e1, subquery: q1, negated: n1 },
                ASTNode::SQLInSubquery { expr: e2, subquery: q2, negated: n2 },
            ) => e1@ == e2@ && q1@ == q2@ && n1 == n2,
            (
                ASTNode::SQLBetween { expr: e1, negated: n1, low: l1, high: h1 },
                ASTNode::SQLBetween { expr: e2, negated: n2, low: l2, high: h2 },
            ) => e1@ == e2@ && n1 == n2 && l1@ == l2@ && h1@ == h2@,
            (
                ASTNode::SQLBinaryExpr { left: l1, op: o1, right: r1 },
                ASTNode::SQLBinaryExpr { left: l2, op: o2, right: r2 },
            ) => l1@ == l2@ && o1@ == o2@ && r1@ == r2@,
            (
                ASTNode::SQLCast { expr: e1, data_type: t1 },
                ASTNode::SQLCast { expr: e2, data_type: t2 },
            ) => e1@ == e2@ && t1@ == t2@,
            (
                ASTNode::SQLCollate { expr: e1, collation: c1 },
                ASTNode::SQLCollate { expr: e2, collation: c2 },
            ) => e1@ == e2@ && c1@ == c2@,
            (ASTNode::SQLNested(x), ASTNode::SQLNested(y)) => x@ == y@,
            (
                ASTNode::SQLUnary { operator: o1, expr: e1 },
                ASTNode::SQLUnary { operator: o2, expr: e2 },
            ) => o1@ == o2@ && e1@ == e2@,
            (ASTNode::SQLValue(x), ASTNode::SQLValue(y)) => x@ == y@,
            (
                ASTNode::SQLFunction { name: f1, args: a1, over: w1, all: x1, distinct: d1 },
                ASTNode::SQLFunction { name: f2, args: a2, over: w2, all: x2, distinct: d2 },
            ) => f1@ == f2@ && expr_models(a1@) == expr_models(a2@) && match (w1, w2) {
                (Some(w1), Some(w2)) => w1@ == w2@,
                (None, None) => true,
                _ => false,
            } && x1 == x2 && d1 == d2,
            (
                ASTNode::SQLCase { operand: o1, conditions: c1, results: r1, else_result: e1 },
                ASTNode::SQLCase { operand: o2, conditions: c2, results: r2, else_result: e2 },
            ) => optional_boxed_equal(o1, o2) && expr_models(c1@) == expr_models(c2@)
                && expr_models(r1@) == expr_models(r2@) && optional_boxed_equal(e1, e2),
            (ASTNode::SQLSubquery(x), ASTNode::SQLSubquery(y)) => x@ == y@,
            _ => false,
        },
{
}

/// Two window specifications are equal exactly where they agree in every
/// field.
pub proof fn lemma_window_equal_by_fields(a: SQLWindowSpec, b: SQLWindowSpec)
    ensures
        a@ == b@ <==> expr_models(a.partition_by@) == expr_models(b.partition_by@)
            && order_by_texts(a.order_by@) == order_by_texts(b.order_by@) && a.window_frame
            == b.window_frame,
{
}

/// Equal expressions are written alike, and are alike renderable and well
/// formed.
pub proof fn lemma_equal_exprs_agree(a: ASTNode, b: ASTNode)
    requires
        a@ == b@,
    ensures
        a.text() == b.text(),
        a@.renderable() == b@.renderable(),
        a@.well_formed() == b@.well_formed(),
{
}

} // verus!
