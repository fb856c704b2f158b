//! Expressions and window specifications: the trees, their mathematical
//! models and what is stated of them.
//!
//! The two are defined together because each holds the other: a function
//! call may carry a window specification, whose `PARTITION BY` list is a
//! list of expressions.

pub mod checks;
pub mod equality;
pub mod render;

use crate::name::{dotted, SQLIdent, SQLObjectName};
use crate::query::{SQLOrderByExpr, SQLQuery};
use crate::sql_operator::SQLOperator;
use crate::sqltype::{SQLType, TypeModel};
use crate::text::{if_set, join, optional_clause, views};
use crate::value::Value;
use crate::window::SQLWindowFrame;
use vstd::prelude::*;

verus! {

/// An SQL expression of any type.
///
/// Expressions of different types (boolean, string, ...) are not told
/// apart: `WHERE 1` and `SELECT 1=1` are expressions like any other.
#[derive(Debug, Hash)]
pub enum ASTNode {
    /// Identifier, e.g. table name or column name
    SQLIdentifier(SQLIdent),
    /// Unqualified wildcard (`*`)
    SQLWildcard,
    /// Qualified wildcard, e.g. `alias.*` or `schema.table.*`
    SQLQualifiedWildcard(Vec<SQLIdent>),
    /// Multi-part identifier, e.g. `table_alias.column` or `schema.table.col`
    SQLCompoundIdentifier(Vec<SQLIdent>),
    /// `IS NULL` expression
    SQLIsNull(Box<ASTNode>),
    /// `IS NOT NULL` expression
    SQLIsNotNull(Box<ASTNode>),
    /// `[ NOT ] IN (val1, val2, ...)`
    SQLInList { expr: Box<ASTNode>, list: Vec<ASTNode>, negated: bool },
    /// `[ NOT ] IN (SELECT ...)`
    SQLInSubquery { expr: Box<ASTNode>, subquery: Box<SQLQuery>, negated: bool },
    /// `<expr> [ NOT ] BETWEEN <low> AND <high>`
    SQLBetween { expr: Box<ASTNode>, negated: bool, low: Box<ASTNode>, high: Box<ASTNode> },
    /// Binary expression, e.g. `1 + 1` or `foo > bar`
    SQLBinaryExpr { left: Box<ASTNode>, op: SQLOperator, right: Box<ASTNode> },
    /// A cast to a different data type, e.g. `CAST(foo AS VARCHAR(123))`
    SQLCast { expr: Box<ASTNode>, data_type: SQLType },
    /// `expr COLLATE collation`
    SQLCollate { expr: Box<ASTNode>, collation: SQLObjectName },
    /// Nested expression, e.g. `(foo > bar)` or `(1)`
    SQLNested(Box<ASTNode>),
    /// Unary expression
    SQLUnary { operator: SQLOperator, expr: Box<ASTNode> },
    /// Literal value
    SQLValue(Value),
    /// Function call, e.g. `LEFT(foo, 5)`; aggregate functions may say
    /// `ALL` or `DISTINCT`, as in `COUNT(DISTINCT x)`
    SQLFunction {
        name: SQLObjectName,
        args: Vec<ASTNode>,
        over: Option<SQLWindowSpec>,
        all: bool,
        distinct: bool,
    },
    /// `CASE [<operand>] WHEN <condition> THEN <result> ... [ELSE <result>] END`.
    /// The conditions and the results are paired by position.
    SQLCase {
        operand: Option<Box<ASTNode>>,
        conditions: Vec<ASTNode>,
        results: Vec<ASTNode>,
        else_result: Option<Box<ASTNode>>,
    },
    /// A parenthesized subquery `(SELECT ...)`
    SQLSubquery(Box<SQLQuery>),
}

/// A window specification, i.e. `OVER (PARTITION BY .. ORDER BY .. etc.)`
#[derive(Debug, Hash)]
pub struct SQLWindowSpec {
    pub partition_by: Vec<ASTNode>,
    pub order_by: Vec<SQLOrderByExpr>,
    pub window_frame: Option<SQLWindowFrame>,
}

/// The mathematical model of an [`ASTNode`]: the same tree, with sequences
/// for lists and for text.
pub enum ExprModel {
    Identifier(Seq<char>),
    Wildcard,
    QualifiedWildcard(Seq<Seq<char>>),
    CompoundIdentifier(Seq<Seq<char>>),
    IsNull(Box<ExprModel>),
    IsNotNull(Box<ExprModel>),
    InList { expr: Box<ExprModel>, list: Seq<ExprModel>, negated: bool },
    InSubquery { expr: Box<ExprModel>, subquery: Seq<char>, negated: bool },
    Between { expr: Box<ExprModel>, negated: bool, low: Box<ExprModel>, high: Box<ExprModel> },
    BinaryExpr { left: Box<ExprModel>, op: Seq<char>, right: Box<ExprModel> },
    Cast { expr: Box<ExprModel>, data_type: TypeModel },
    Collate { expr: Box<ExprModel>, collation: Seq<Seq<char>> },
    Nested(Box<ExprModel>),
    Unary { operator: Seq<char>, expr: Box<ExprModel> },
    Value(Seq<char>),
    Function {
        name: Seq<Seq<char>>,
        args: Seq<ExprModel>,
        over: Option<WindowSpecModel>,
        all: bool,
        distinct: bool,
    },
    Case {
        operand: Option<Box<ExprModel>>,
        conditions: Seq<ExprModel>,
        results: Seq<ExprModel>,
        else_result: Option<Box<ExprModel>>,
    },
    Subquery(Seq<char>),
}

/// The mathematical model of a [`SQLWindowSpec`].
pub struct WindowSpecModel {
    pub partition_by: Seq<ExprModel>,
    pub order_by: Seq<Seq<char>>,
    pub window_frame: Option<SQLWindowFrame>,
}

/// The SQL texts of a list of expressions, in order.
pub open spec fn expr_texts(items: Seq<ExprModel>) -> Seq<Seq<char>>
    decreases items, 0nat,
{
    Seq::new(
        items.len(),
        |i: int|
            if 0 <= i < items.len() {
                items[i].text()
            } else {
                Seq::empty()
            },
    )
}

/// Whether every expression of a list is renderable.
pub open spec fn exprs_renderable(items: Seq<ExprModel>) -> bool
    decreases items,
{
    forall|i: int| 0 <= i < items.len() ==> (#[trigger] items[i]).renderable()
}

/// Whether every expression of a list is well formed.
pub open spec fn exprs_well_formed(items: Seq<ExprModel>) -> bool
    decreases items,
{
    forall|i: int| 0 <= i < items.len() ==> (#[trigger] items[i]).well_formed()
}

/// The `WHEN .. THEN ..` clauses of a `CASE`: the conditions and the
/// results paired by position, as far as both lists reach.
pub open spec fn when_clauses(conditions: Seq<Seq<char>>, results: Seq<Seq<char>>) -> Seq<char> {
    join(
        Seq::new(
            if conditions.len() <= results.len() {
                conditions.len()
            } else {
                results.len()
            },
            |i: int| " WHEN "@ + conditions[i] + " THEN "@ + results[i],
        ),
        Seq::empty(),
    )
}

/// ` OVER (<window>)` where a window specification is present.
pub open spec fn over_clause(window: Option<Seq<char>>) -> Seq<char> {
    match window {
        Some(text) => " OVER ("@ + text + ")"@,
        None => Seq::empty(),
    }
}

impl ExprModel {
    /// Whether the expression has a SQL text: every data type in it is
    /// renderable.
    pub open spec fn renderable(self) -> bool
        decreases self,
    {
        match self {
            ExprModel::Identifier(_) => true,
            ExprModel::Wildcard => true,
            ExprModel::QualifiedWildcard(_) => true,
            ExprModel::CompoundIdentifier(_) => true,
            ExprModel::IsNull(e) => e.renderable(),
            ExprModel::IsNotNull(e) => e.renderable(),
            ExprModel::InList { expr, list, negated } => expr.renderable() && exprs_renderable(
                list,
            ),
            ExprModel::InSubquery { expr, subquery, negated } => expr.renderable(),
            ExprModel::Between { expr, negated, low, high } => expr.renderable()
                && low.renderable() && high.renderable(),
            ExprModel::BinaryExpr { left, op, right } => left.renderable() && right.renderable(),
            ExprModel::Cast { expr, data_type } => expr.renderable() && data_type.renderable(),
            ExprModel::Collate { expr, collation } => expr.renderable(),
            ExprModel::Nested(e) => e.renderable(),
            ExprModel::Unary { operator, expr } => expr.renderable(),
            ExprModel::Value(_) => true,
            ExprModel::Function { name, args, over, all, distinct } => exprs_renderable(args)
                && match over {
                Some(window) => window.renderable(),
                None => true,
            },
            ExprModel::Case { operand, conditions, results, else_result } => {
                &&& match operand {
                    Some(e) => e.renderable(),
                    None => true,
                }
                &&& exprs_renderable(conditions)
                &&& exprs_renderable(results)
                &&& match else_result {
                    Some(e) => e.renderable(),
                    None => true,
                }
            },
            ExprModel::Subquery(_) => true,
        }
    }

    /// The SQL text of the expression.
    ///
    /// Operands are written as they are, without added parentheses: where
    /// precedence matters, the tree holds a nested expression.
    pub open spec fn text(self) -> Seq<char>
        decreases self, 0nat,
    {
        match self {
            ExprModel::Identifier(s) => s,
            ExprModel::Wildcard => "*"@,
            ExprModel::QualifiedWildcard(parts) => dotted(parts) + ".*"@,
            ExprModel::CompoundIdentifier(parts) => dotted(parts),
            ExprModel::IsNull(e) => e.text() + " IS NULL"@,
            ExprModel::IsNotNull(e) => e.text() + " IS NOT NULL"@,
            ExprModel::InList { expr, list, negated } => expr.text() + " "@ + if_set(
                negated,
                "NOT "@,
            ) + "IN ("@ + join(expr_texts(list), ", "@) + ")"@,
            ExprModel::InSubquery { expr, subquery, negated } => expr.text() + " "@ + if_set(
                negated,
                "NOT "@,
            ) + "IN ("@ + subquery + ")"@,
            ExprModel::Between { expr, negated, low, high } => expr.text() + " "@ + if_set(
                negated,
                "NOT "@,
            ) + "BETWEEN "@ + low.text() + " AND "@ + high.text(),
            ExprModel::BinaryExpr { left, op, right } => left.text() + " "@ + op + " "@
                + right.text(),
            ExprModel::Cast { expr, data_type } => "CAST("@ + expr.text() + " AS "@
                + data_type.text() + ")"@,
            ExprModel::Collate { expr, collation } => expr.text() + " COLLATE "@ + dotted(
                collation,
            ),
            ExprModel::Nested(e) => "("@ + e.text() + ")"@,
            ExprModel::Unary { operator, expr } => operator + " "@ + expr.text(),
            ExprModel::Value(v) => v,
            ExprModel::Function { name, args, over, all, distinct } => dotted(name) + "("@
                + if_set(all, "ALL "@) + if_set(distinct, "DISTINCT "@) + join(
                expr_texts(args),
                ", "@,
            ) + ")"@ + over_clause(
                match over {
                    Some(window) => Some(window.text()),
                    None => None,
                },
            ),
            ExprModel::Case { operand, conditions, results, else_result } => "CASE"@
                + optional_clause(
                " "@,
                match operand {
                    Some(e) => Some(e.text()),
                    None => None,
                },
            ) + when_clauses(expr_texts(conditions), expr_texts(results)) + optional_clause(
                " ELSE "@,
                match else_result {
                    Some(e) => Some(e.text()),
                    None => None,
                },
            ) + " END"@,
            ExprModel::Subquery(q) => "("@ + q + ")"@,
        }
    }

    /// Whether the expression is as the data model wants it, at every level
    /// of nesting: a `CASE` has as many results as conditions, the name of
    /// a function or a collation has at least one part, and every data type
    /// is well formed.
    pub open spec fn well_formed(self) -> bool
        decreases self,
    {
        match self {
            ExprModel::Identifier(_) => true,
            ExprModel::Wildcard => true,
            ExprModel::QualifiedWildcard(_) => true,
            ExprModel::CompoundIdentifier(_) => true,
            ExprModel::IsNull(e) => e.well_formed(),
            ExprModel::IsNotNull(e) => e.well_formed(),
            ExprModel::InList { expr, list, negated } => expr.well_formed() && exprs_well_formed(
                list,
            ),
            ExprModel::InSubquery { expr, subquery, negated } => expr.well_formed(),
            ExprModel::Between { expr, negated, low, high } => expr.well_formed()
                && low.well_formed() && high.well_formed(),
            ExprModel::BinaryExpr { left, op, right } => left.well_formed()
                && right.well_formed(),
            ExprModel::Cast { expr, data_type } => expr.well_formed() && data_type.well_formed(),
            ExprModel::Collate { expr, collation } => expr.well_formed() && collation.len() > 0,
            ExprModel::Nested(e) => e.well_formed(),
            ExprModel::Unary { operator, expr } => expr.well_formed(),
            ExprModel::Value(_) => true,
            ExprModel::Function { name, args, over, all, distinct } => name.len() > 0
                && exprs_well_formed(args) && match over {
                Some(window) => window.well_formed(),
                None => true,
            },
            ExprModel::Case { operand, conditions, results, else_result } => {
                &&& conditions.len() == results.len()
                &&& match operand {
                    Some(e) => e.well_formed(),
                    None => true,
                }
                &&& exprs_well_formed(conditions)
                &&& exprs_well_formed(results)
                &&& match else_result {
                    Some(e) => e.well_formed(),
                    None => true,
                }
            },
            ExprModel::Subquery(_) => true,
        }
    }

    /// Whether the expression is written as nothing at all: an identifier,
    /// a compound identifier or a literal without characters.
    pub open spec fn is_blank(self) -> bool {
        match self {
            ExprModel::Identifier(s) => s.len() == 0,
            ExprModel::CompoundIdentifier(parts) => dotted(parts).len() == 0,
            ExprModel::Value(v) => v.len() == 0,
            _ => false,
        }
    }
}

impl WindowSpecModel {
    /// Whether the specification has a SQL text.
    pub open spec fn renderable(self) -> bool
        decreases self,
    {
        exprs_renderable(self.partition_by)
    }

    /// The clauses that are present, in the order in which they are
    /// written: `PARTITION BY`, `ORDER BY`, the frame.
    pub open spec fn clauses(self) -> Seq<Seq<char>>
        decreases self, 0nat,
    {
        (if self.partition_by.len() > 0 {
            seq!["PARTITION BY "@ + join(expr_texts(self.partition_by), ", "@)]
        } else {
            Seq::empty()
        }) + (if self.order_by.len() > 0 {
            seq!["ORDER BY "@ + join(self.order_by, ", "@)]
        } else {
            Seq::empty()
        }) + (match self.window_frame {
            Some(frame) => seq![frame.text()],
            None => Seq::empty(),
        })
    }

    /// The SQL text of the specification: its clauses, separated by single
    /// spaces.
    pub open spec fn text(self) -> Seq<char>
        decreases self, 1nat,
    {
        join(self.clauses(), " "@)
    }

    /// Whether the specification is well formed: the expressions of its
    /// `PARTITION BY` list are.
    pub open spec fn well_formed(self) -> bool
        decreases self,
    {
        exprs_well_formed(self.partition_by)
    }
}

/// The models of a list of expressions, in order.
pub open spec fn expr_models(items: Seq<ASTNode>) -> Seq<ExprModel>
    decreases items,
{
    Seq::new(
        items.len(),
        |i: int|
            if 0 <= i < items.len() {
                items[i].model()
            } else {
                ExprModel::Wildcard
            },
    )
}

/// The texts of a list of `ORDER BY` items, in order.
pub open spec fn order_by_texts(items: Seq<SQLOrderByExpr>) -> Seq<Seq<char>> {
    items.map_values(|item: SQLOrderByExpr| item@)
}

impl ASTNode {
    /// The model of the expression; it is also its view.
    pub open spec fn model(&self) -> ExprModel
        decreases self,
    {
        match self {
            ASTNode::SQLIdentifier(s) => ExprModel::Identifier(s@),
            ASTNode::SQLWildcard => ExprModel::Wildcard,
            ASTNode::SQLQualifiedWildcard(parts) => ExprModel::QualifiedWildcard(views(parts@)),
            ASTNode::SQLCompoundIdentifier(parts) => ExprModel::CompoundIdentifier(views(parts@)),
            ASTNode::SQLIsNull(e) => ExprModel::IsNull(Box::new(e.model())),
            ASTNode::SQLIsNotNull(e) => ExprModel::IsNotNull(Box::new(e.model())),
            ASTNode::SQLInList { expr, list, negated } => ExprModel::InList {
                expr: Box::new(expr.model()),
                list: expr_models(list@),
                negated: *negated,
            },
            ASTNode::SQLInSubquery { expr, subquery, negated } => ExprModel::InSubquery {
                expr: Box::new(expr.model()),
                subquery: subquery@,
                negated: *negated,
            },
            ASTNode::SQLBetween { expr, negated, low, high } => ExprModel::Between {
                expr: Box::new(expr.model()),
                negated: *negated,
                low: Box::new(low.model()),
                high: Box::new(high.model()),
            },
            ASTNode::SQLBinaryExpr { left, op, right } => ExprModel::BinaryExpr {
                left: Box::new(left.model()),
                op: op@,
                right: Box::new(right.model()),
            },
            ASTNode::SQLCast { expr, data_type } => ExprModel::Cast {
                expr: Box::new(expr.model()),
                data_type: data_type@,
            },
            ASTNode::SQLCollate { expr, collation } => ExprModel::Collate {
                expr: Box::new(expr.model()),
                collation: collation@,
            },
            ASTNode::SQLNested(e) => ExprModel::Nested(Box::new(e.model())),
            ASTNode::SQLUnary { operator, expr } => ExprModel::Unary {
                operator: operator@,
                expr: Box::new(expr.model()),
            },
            ASTNode::SQLValue(v) => ExprModel::Value(v@),
            ASTNode::SQLFunction { name, args, over, all, distinct } => ExprModel::Function {
                name: name@,
                args: expr_models(args@),
                over: match over {
                    Some(window) => Some(window.model()),
                    None => None,
                },
                all: *all,
                distinct: *distinct,
            },
            ASTNode::SQLCase { operand, conditions, results, else_result } => ExprModel::Case {
                operand: match operand {
                    Some(e) => Some(Box::new(e.model())),
                    None => None,
                },
                conditions: expr_models(conditions@),
                results: expr_models(results@),
                else_result: match else_result {
                    Some(e) => Some(Box::new(e.model())),
                    None => None,
                },
            },
            ASTNode::SQLSubquery(q) => ExprModel::Subquery(q@),
        }
    }

    /// The SQL text of the expression.
    pub open spec fn text(&self) -> Seq<char> {
        self@.text()
    }
}

impl SQLWindowSpec {
    /// The model of the specification; it is also its view.
    pub open spec fn model(&self) -> WindowSpecModel
        decreases self,
    {
        WindowSpecModel {
            partition_by: expr_models(self.partition_by@),
            order_by: order_by_texts(self.order_by@),
            window_frame: self.window_frame,
        }
    }

    /// The SQL text of the specification.
    pub open spec fn text(&self) -> Seq<char> {
        self@.text()
    }
}

impl View for ASTNode {
    type V = ExprModel;

    open spec fn view(&self) -> ExprModel {
        self.model()
    }
}

impl View for SQLWindowSpec {
    type V = WindowSpecModel;

    open spec fn view(&self) -> WindowSpecModel {
        self.model()
    }
}

/// The model of an expression that may be absent.
pub open spec fn optional_model(e: Option<ASTNode>) -> Option<ExprModel> {
    match e {
        Some(e) => Some(e@),
        None => None,
    }
}

/// The SQL text of an expression that may be absent.
pub open spec fn optional_text(e: Option<ExprModel>) -> Option<Seq<char>> {
    match e {
        Some(e) => Some(e.text()),
        None => None,
    }
}

/// Whether an expression that may be absent is renderable where it is
/// present.
pub open spec fn optional_renderable(e: Option<ExprModel>) -> bool {
    match e {
        Some(e) => e.renderable(),
        None => true,
    }
}

/// Whether an expression that may be absent is well formed where it is
/// present.
pub open spec fn optional_well_formed(e: Option<ExprModel>) -> bool {
    match e {
        Some(e) => e.well_formed(),
        None => true,
    }
}

/// Every expression has a text that is not empty, except a blank one.
pub proof fn lemma_expr_text_nonempty(e: ExprModel)
    ensures
        e.text().len() == 0 <==> e.is_blank(),
{
    reveal_strlit("*");
    reveal_strlit(".*");
    reveal_strlit(" IS NULL");
    reveal_strlit(" IS NOT NULL");
    reveal_strlit(" ");
    reveal_strlit("CAST(");
    reveal_strlit(" COLLATE ");
    reveal_strlit("(");
    reveal_strlit("CASE");
}

/// A well-formed expression is renderable.
pub proof fn lemma_expr_well_formed_renderable(e: ExprModel)
    requires
        e.well_formed(),
    ensures
        e.renderable(),
    decreases e,
{
    match e {
        ExprModel::IsNull(e) => lemma_expr_well_formed_renderable(*e),
        ExprModel::IsNotNull(e) => lemma_expr_well_formed_renderable(*e),
        ExprModel::InList { expr, list, negated } => {
            lemma_expr_well_formed_renderable(*expr);
            lemma_exprs_well_formed_renderable(list);
        },
        ExprModel::InSubquery { expr, subquery, negated } => {
            lemma_expr_well_formed_renderable(*expr);
        },
        ExprModel::Between { expr, negated, low, high } => {
            lemma_expr_well_formed_renderable(*expr);
            lemma_expr_well_formed_renderable(*low);
            lemma_expr_well_formed_renderable(*high);
        },
        ExprModel::BinaryExpr { left, op, right } => {
            lemma_expr_well_formed_renderable(*left);
            lemma_expr_well_formed_renderable(*right);
        },
        ExprModel::Cast { expr, data_type } => {
            lemma_expr_well_formed_renderable(*expr);
            crate::sqltype::lemma_type_well_formed_renderable(data_type);
        },
        ExprModel::Collate { expr, collation } => {
            lemma_expr_well_formed_renderable(*expr);
        },
        ExprModel::Nested(e) => lemma_expr_well_formed_renderable(*e),
        ExprModel::Unary { operator, expr } => {
            lemma_expr_well_formed_renderable(*expr);
        },
        ExprModel::Function { name, args, over, all, distinct } => {
            lemma_exprs_well_formed_renderable(args);
            match over {
                Some(window) => lemma_window_well_formed_renderable(window),
                None => {},
            }
        },
        ExprModel::Case { operand, conditions, results, else_result } => {
            match operand {
                Some(e) => lemma_expr_well_formed_renderable(*e),
                None => {},
            }
            lemma_exprs_well_formed_renderable(conditions);
            lemma_exprs_well_formed_renderable(results);
            match else_result {
                Some(e) => lemma_expr_well_formed_renderable(*e),
                None => {},
            }
        },
        _ => {},
    }
}

/// A well-formed window specification is renderable.
pub proof fn lemma_window_well_formed_renderable(window: WindowSpecModel)
    requires
        window.well_formed(),
    ensures
        window.renderable(),
    decreases window,
{
    lemma_exprs_well_formed_renderable(window.partition_by);
}

/// A list of well-formed expressions is a list of renderable expressions.
pub proof fn lemma_exprs_well_formed_renderable(items: Seq<ExprModel>)
    requires
        exprs_well_formed(items),
    ensures
        exprs_renderable(items),
    decreases items,
{
    assert forall|i: int| 0 <= i < items.len() implies (#[trigger] items[i]).renderable() by {
        lemma_expr_well_formed_renderable(items[i]);
    }
}

/// In a `CASE` with as many results as conditions, one more pair adds one
/// more clause, which holds that condition and that result.
pub proof fn lemma_when_clauses_push(
    conditions: Seq<Seq<char>>,
    results: Seq<Seq<char>>,
    condition: Seq<char>,
    result: Seq<char>,
)
    requires
        conditions.len() == results.len(),
    ensures
        when_clauses(Seq::empty(), Seq::empty()) == Seq::<char>::empty(),
        when_clauses(conditions.push(condition), results.push(result)) == when_clauses(
            conditions,
            results,
        ) + " WHEN "@ + condition + " THEN "@ + result,
{
    let clause = " WHEN "@ + condition + " THEN "@ + result;
    let before = Seq::new(
        conditions.len(),
        |i: int| " WHEN "@ + conditions[i] + " THEN "@ + results[i],
    );
    let after = Seq::new(
        conditions.push(condition).len(),
        |i: int|
            " WHEN "@ + conditions.push(condition)[i] + " THEN "@ + results.push(result)[i],
    );
    assert(after =~= before.push(clause));
    crate::text::lemma_join_push(before, clause, Seq::empty());
    let none = Seq::<Seq<char>>::empty();
    assert(Seq::new(0, |i: int| " WHEN "@ + none[i] + " THEN "@ + none[i]).len() == 0);
    if conditions.len() > 0 {
        assert(join(before, Seq::empty()) + Seq::<char>::empty() + clause =~= join(
            before,
            Seq::empty(),
        ) + " WHEN "@ + condition + " THEN "@ + result);
    } else {
        assert(before.len() == 0);
        assert(Seq::<char>::empty() + " WHEN "@ + condition + " THEN "@ + result =~= clause);
    }
}

} // verus!
