//! Testing whether expressions and window specifications are renderable
//! and well formed.

use crate::expr::{
    expr_models, exprs_renderable, exprs_well_formed, optional_model, optional_renderable,
    optional_well_formed, ASTNode, SQLWindowSpec,
};
use vstd::prelude::*;

verus! {

/// Whether every expression of a list is renderable.
pub fn all_renderable(items: &Vec<ASTNode>) -> (r: bool)
    ensures
        r == exprs_renderable(expr_models(items@)),
    decreases items,
{
    let mut i: usize = 0;
    while i < items.len()
        invariant
            i <= items.len(),
            forall|j: int| 0 <= j < i ==> (#[trigger] expr_models(items@)[j]).renderable(),
        decreases items.len() - i,
    {
        if !items[i].is_renderable() {
            assert(!expr_models(items@)[i as int].renderable());
            return false;
        }
        i += 1;
    }
    true
}

/// Whether an operand that may be absent is renderable where it is present.
fn optional_boxed_is_renderable(e: &Option<Box<ASTNode>>) -> (r: bool)
    ensures
        r == match e {
            Some(e) => e@.renderable(),
            None => true,
        },
    decreases e,
{
    match e {
        Some(e) => e.is_renderable(),
        None => true,
    }
}

/// Whether an expression that may be absent is renderable where it is
/// present.
pub fn optional_is_renderable(e: &Option<ASTNode>) -> (r: bool)
    ensures
        r == optional_renderable(optional_model(*e)),
{
    match e {
        Some(e) => e.is_renderable(),
        None => true,
    }
}

/// Whether every expression of a list is well formed.
pub fn all_well_formed(items: &Vec<ASTNode>) -> (r: bool)
    ensures
        r == exprs_well_formed(expr_models(items@)),
    decreases items,
{
    let mut i: usize = 0;
    while i < items.len()
        invariant
            i <= items.len(),
            forall|j: int| 0 <= j < i ==> (#[trigger] expr_models(items@)[j]).well_formed(),
        decreases items.len() - i,
    {
        if !items[i].is_well_formed() {
            assert(!expr_models(items@)[i as int].well_formed());
            return false;
        }
        i += 1;
    }
    true
}

/// Whether an operand that may be absent is well formed where it is present.
fn optional_boxed_is_well_formed(e: &Option<Box<ASTNode>>) -> (r: bool)
    ensures
        r == match e {
            Some(e) => e@.well_formed(),
            None => true,
        },
    decreases e,
{
    match e {
        Some(e) => e.is_well_formed(),
        None => true,
    }
}

/// Whether an expression that may be absent is well formed where it is
/// present.
pub fn optional_is_well_formed(e: &Option<ASTNode>) -> (r: bool)
    ensures
        r == optional_well_formed(optional_model(*e)),
{
    match e {
        Some(e) => e.is_well_formed(),
        None => true,
    }
}

impl ASTNode {
    /// Whether [`ASTNode::to_string`] may be called.
    pub fn is_renderable(&self) -> (r: bool)
        ensures
            r == self@.renderable(),
        decreases self,
    {
        match self {
            ASTNode::SQLIdentifier(_) => true,
            ASTNode::SQLWildcard => true,
            ASTNode::SQLQualifiedWildcard(_) => true,
            ASTNode::SQLCompoundIdentifier(_) => true,
            ASTNode::SQLIsNull(e) => e.is_renderable(),
            ASTNode::SQLIsNotNull(e) => e.is_renderable(),
            ASTNode::SQLInList { expr, list, .. } => expr.is_renderable() && all_renderable(
                list,
            ),
            ASTNode::SQLInSubquery { expr, .. } => expr.is_renderable(),
            ASTNode::SQLBetween { expr, low, high, .. } => expr.is_renderable()
                && low.is_renderable() && high.is_renderable(),
            ASTNode::SQLBinaryExpr { left, right, .. } => left.is_renderable()
                && right.is_renderable(),
            ASTNode::SQLCast { expr, data_type } => expr.is_renderable()
                && data_type.is_renderable(),
            ASTNode::SQLCollate { expr, .. } => expr.is_renderable(),
            ASTNode::SQLNested(e) => e.is_renderable(),
            ASTNode::SQLUnary { expr, .. } => expr.is_renderable(),
            ASTNode::SQLValue(_) => true,
            ASTNode::SQLFunction { args, over, .. } => all_renderable(args)
                && match over {
                Some(window) => window.is_renderable(),
                None => true,
            },
            ASTNode::SQLCase { operand, conditions, results, else_result } => {
                optional_boxed_is_renderable(operand) && all_renderable(conditions) && all_renderable(
                    results,
                ) && optional_boxed_is_renderable(else_result)
            },
            ASTNode::SQLSubquery(_) => true,
        }
    }

    /// Whether the expression is well formed.
    pub fn is_well_formed(&self) -> (r: bool)
        ensures
            r == self@.well_formed(),
        decreases self,
    {
        match self {
            ASTNode::SQLIdentifier(_) => true,
            ASTNode::SQLWildcard => true,
            ASTNode::SQLQualifiedWildcard(_) => true,
            ASTNode::SQLCompoundIdentifier(_) => true,
            ASTNode::SQLIsNull(e) => e.is_well_formed(),
            ASTNode::SQLIsNotNull(e) => e.is_well_formed(),
            ASTNode::SQLInList { expr, list, .. } => expr.is_well_formed()
                && all_well_formed(list),
            ASTNode::SQLInSubquery { expr, .. } => expr.is_well_formed(),
            ASTNode::SQLBetween { expr, low, high, .. } => expr.is_well_formed()
                && low.is_well_formed() && high.is_well_formed(),
            ASTNode::SQLBinaryExpr { left, right, .. } => left.is_well_formed()
                && right.is_well_formed(),
            ASTNode::SQLCast { expr, data_type } => expr.is_well_formed()
                && data_type.is_well_formed(),
            ASTNode::SQLCollate { expr, collation } => expr.is_well_formed()
                && collation.is_well_formed(),
            ASTNode::SQLNested(e) => e.is_well_formed(),
            ASTNode::SQLUnary { expr, .. } => expr.is_well_formed(),
            ASTNode::SQLValue(_) => true,
            ASTNode::SQLFunction { name, args, over, .. } => name.is_well_formed()
                && all_well_formed(args) && match over {
                Some(window) => window.is_well_formed(),
                None => true,
            },
            ASTNode::SQLCase { operand, conditions, results, else_result } => {
                assert(expr_models(conditions@).len() == conditions.len());
                assert(expr_models(results@).len() == results.len());
                conditions.len() == results.len() && optional_boxed_is_well_formed(operand)
                    && all_well_formed(conditions) && all_well_formed(results)
                    && optional_boxed_is_well_formed(else_result)
            },
            ASTNode::SQLSubquery(_) => true,
        }
    }
}

impl SQLWindowSpec {
    /// Whether [`SQLWindowSpec::to_string`] may be called.
    pub fn is_renderable(&self) -> (r: bool)
        ensures
            r == self@.renderable(),
        decreases self,
    {
        all_renderable(&self.partition_by)
    }

    /// Whether the specification is well formed.
    pub fn is_well_formed(&self) -> (r: bool)
        ensures
            r == self@.well_formed(),
        decreases self,
    {
        all_well_formed(&self.partition_by)
    }
}

} // verus!
