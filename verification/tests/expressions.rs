use sqlast::{
    ASTNode, SQLObjectName, SQLOperator, SQLOrderByExpr, SQLQuery, SQLType, SQLWindowFrame,
    SQLWindowFrameBound, SQLWindowFrameUnits, SQLWindowSpec, Value,
};

fn ident(name: &str) -> ASTNode {
    ASTNode::SQLIdentifier(name.to_string())
}

fn literal(text: &str) -> ASTNode {
    ASTNode::SQLValue(Value::new(text.to_string()))
}

fn name(parts: &[&str]) -> SQLObjectName {
    SQLObjectName(parts.iter().map(|p| p.to_string()).collect())
}

fn op(symbol: &str) -> SQLOperator {
    SQLOperator::new(symbol.to_string())
}

fn query(text: &str) -> Box<SQLQuery> {
    Box::new(SQLQuery::new(text.to_string()))
}

#[test]
fn identifiers_and_wildcards() {
    assert_eq!(ident("col").to_string(), "col");
    assert_eq!(ident("\"id\"").to_string(), "\"id\"");
    assert_eq!(ASTNode::SQLWildcard.to_string(), "*");
    assert_eq!(
        ASTNode::SQLQualifiedWildcard(vec!["schema".to_string(), "table".to_string()]).to_string(),
        "schema.table.*"
    );
    assert_eq!(
        ASTNode::SQLCompoundIdentifier(vec!["t".to_string(), "c".to_string()]).to_string(),
        "t.c"
    );
    assert_eq!(ASTNode::SQLCompoundIdentifier(vec![]).to_string(), "");
}

#[test]
fn null_tests() {
    assert_eq!(ASTNode::SQLIsNull(Box::new(ident("a"))).to_string(), "a IS NULL");
    assert_eq!(ASTNode::SQLIsNotNull(Box::new(ident("a"))).to_string(), "a IS NOT NULL");
}

#[test]
fn in_list_negation_placement() {
    let negated = ASTNode::SQLInList {
        expr: Box::new(ident("a")),
        list: vec![literal("1"), literal("2")],
        negated: true,
    };
    assert_eq!(negated.to_string(), "a NOT IN (1, 2)");
    let plain = ASTNode::SQLInList {
        expr: Box::new(ident("a")),
        list: vec![literal("1"), literal("2")],
        negated: false,
    };
    assert_eq!(plain.to_string(), "a IN (1, 2)");
    let empty = ASTNode::SQLInList { expr: Box::new(ident("a")), list: vec![], negated: false };
    assert_eq!(empty.to_string(), "a IN ()");
}

#[test]
fn in_subquery() {
    let e = ASTNode::SQLInSubquery {
        expr: Box::new(ident("a")),
        subquery: query("SELECT b FROM t"),
        negated: false,
    };
    assert_eq!(e.to_string(), "a IN (SELECT b FROM t)");
    let e = ASTNode::SQLInSubquery {
        expr: Box::new(ident("a")),
        subquery: query("SELECT b FROM t"),
        negated: true,
    };
    assert_eq!(e.to_string(), "a NOT IN (SELECT b FROM t)");
}

#[test]
fn between() {
    let e = ASTNode::SQLBetween {
        expr: Box::new(ident("x")),
        negated: false,
        low: Box::new(literal("1")),
        high: Box::new(literal("10")),
    };
    assert_eq!(e.to_string(), "x BETWEEN 1 AND 10");
    let e = ASTNode::SQLBetween {
        expr: Box::new(ident("x")),
        negated: true,
        low: Box::new(literal("1")),
        high: Box::new(literal("10")),
    };
    assert_eq!(e.to_string(), "x NOT BETWEEN 1 AND 10");
}

#[test]
fn operators_add_no_parentheses() {
    let sum = ASTNode::SQLBinaryExpr {
        left: Box::new(literal("1")),
        op: op("+"),
        right: Box::new(literal("2")),
    };
    let product = ASTNode::SQLBinaryExpr {
        left: Box::new(sum.clone()),
        op: op("*"),
        right: Box::new(literal("3")),
    };
    assert_eq!(product.to_string(), "1 + 2 * 3");
    let nested = ASTNode::SQLBinaryExpr {
        left: Box::new(ASTNode::SQLNested(Box::new(sum))),
        op: op("*"),
        right: Box::new(literal("3")),
    };
    assert_eq!(nested.to_string(), "(1 + 2) * 3");
    let not = ASTNode::SQLUnary { operator: op("NOT"), expr: Box::new(ident("a")) };
    assert_eq!(not.to_string(), "NOT a");
    let minus = ASTNode::SQLUnary { operator: op("-"), expr: Box::new(ident("a")) };
    assert_eq!(minus.to_string(), "- a");
}

#[test]
fn cast_and_collate() {
    let cast = ASTNode::SQLCast {
        expr: Box::new(ident("foo")),
        data_type: SQLType::Varchar(Some(123)),
    };
    assert_eq!(cast.to_string(), "CAST(foo AS character varying(123))");
    let collate =
        ASTNode::SQLCollate { expr: Box::new(ident("x")), collation: name(&["de", "DE"]) };
    assert_eq!(collate.to_string(), "x COLLATE de.DE");
}

#[test]
fn values_and_subqueries() {
    assert_eq!(literal("'it''s'").to_string(), "'it''s'");
    assert_eq!(
        ASTNode::SQLValue(Value::single_quoted_string("it's")).to_string(),
        "'it''s'"
    );
    assert_eq!(ASTNode::SQLSubquery(query("SELECT 1")).to_string(), "(SELECT 1)");
    assert_eq!(ASTNode::SQLNested(Box::new(literal("1"))).to_string(), "(1)");
}

#[test]
fn function_calls() {
    let call = |all: bool, distinct: bool, over: Option<SQLWindowSpec>| ASTNode::SQLFunction {
        name: name(&["COUNT"]),
        args: vec![ident("x"), ident("y")],
        over,
        all,
        distinct,
    };
    assert_eq!(call(false, false, None).to_string(), "COUNT(x, y)");
    assert_eq!(call(true, false, None).to_string(), "COUNT(ALL x, y)");
    assert_eq!(call(false, true, None).to_string(), "COUNT(DISTINCT x, y)");
    assert_eq!(call(true, true, None).to_string(), "COUNT(ALL DISTINCT x, y)");
    let window = SQLWindowSpec {
        partition_by: vec![ident("a")],
        order_by: vec![],
        window_frame: None,
    };
    assert_eq!(
        call(false, false, Some(window)).to_string(),
        "COUNT(x, y) OVER (PARTITION BY a)"
    );
    let empty_window =
        SQLWindowSpec { partition_by: vec![], order_by: vec![], window_frame: None };
    assert_eq!(call(false, false, Some(empty_window)).to_string(), "COUNT(x, y) OVER ()");
    let no_args = ASTNode::SQLFunction {
        name: name(&["pg_catalog", "now"]),
        args: vec![],
        over: None,
        all: false,
        distinct: false,
    };
    assert_eq!(no_args.to_string(), "pg_catalog.now()");
}

#[test]
fn case_pairs_conditions_and_results_by_position() {
    let case = ASTNode::SQLCase {
        operand: None,
        conditions: vec![ident("A"), ident("B")],
        results: vec![ident("X"), ident("Y")],
        else_result: None,
    };
    assert_eq!(case.to_string(), "CASE WHEN A THEN X WHEN B THEN Y END");
    assert!(case.is_well_formed());
}

#[test]
fn case_with_operand_and_else() {
    let case = ASTNode::SQLCase {
        operand: Some(Box::new(ident("x"))),
        conditions: vec![literal("1")],
        results: vec![literal("'one'")],
        else_result: Some(Box::new(literal("'many'"))),
    };
    assert_eq!(case.to_string(), "CASE x WHEN 1 THEN 'one' ELSE 'many' END");
    let bare = ASTNode::SQLCase {
        operand: None,
        conditions: vec![],
        results: vec![],
        else_result: None,
    };
    assert_eq!(bare.to_string(), "CASE END");
}

#[test]
fn case_with_unequal_lists_is_not_well_formed() {
    let case = ASTNode::SQLCase {
        operand: None,
        conditions: vec![ident("A"), ident("B")],
        results: vec![ident("X")],
        else_result: None,
    };
    assert!(!case.is_well_formed());
    assert!(case.is_renderable());
    assert_eq!(case.to_string(), "CASE WHEN A THEN X END");
    let wrapped = ASTNode::SQLNested(Box::new(case));
    assert!(!wrapped.is_well_formed());
}

#[test]
fn window_specifications() {
    let frame = SQLWindowFrame {
        units: SQLWindowFrameUnits::Rows,
        start_bound: SQLWindowFrameBound::Preceding(Some(5)),
        end_bound: Some(SQLWindowFrameBound::CurrentRow),
    };
    let spec = SQLWindowSpec {
        partition_by: vec![ident("a"), ident("b")],
        order_by: vec![SQLOrderByExpr::new("c DESC".to_string())],
        window_frame: Some(frame),
    };
    assert_eq!(
        spec.to_string(),
        "PARTITION BY a, b ORDER BY c DESC ROWS BETWEEN 5 PRECEDING AND CURRENT ROW"
    );
    let only_order = SQLWindowSpec {
        partition_by: vec![],
        order_by: vec![
            SQLOrderByExpr::new("c".to_string()),
            SQLOrderByExpr::new("d ASC".to_string()),
        ],
        window_frame: None,
    };
    assert_eq!(only_order.to_string(), "ORDER BY c, d ASC");
    let only_frame = SQLWindowSpec {
        partition_by: vec![],
        order_by: vec![],
        window_frame: Some(SQLWindowFrame {
            units: SQLWindowFrameUnits::Range,
            start_bound: SQLWindowFrameBound::Preceding(None),
            end_bound: None,
        }),
    };
    assert_eq!(only_frame.to_string(), "RANGE UNBOUNDED PRECEDING");
    let nothing = SQLWindowSpec { partition_by: vec![], order_by: vec![], window_frame: None };
    assert_eq!(nothing.to_string(), "");
}

#[test]
fn expression_with_unrenderable_type_is_refused() {
    let cast = ASTNode::SQLCast {
        expr: Box::new(ident("x")),
        data_type: SQLType::Decimal(None, Some(2)),
    };
    assert!(!cast.is_renderable());
    assert!(!cast.is_well_formed());
    let inside = ASTNode::SQLInList {
        expr: Box::new(ident("a")),
        list: vec![literal("1"), cast],
        negated: false,
    };
    assert!(!inside.is_renderable());
    let call = ASTNode::SQLFunction {
        name: name(&["f"]),
        args: vec![],
        over: Some(SQLWindowSpec {
            partition_by: vec![inside],
            order_by: vec![],
            window_frame: None,
        }),
        all: false,
        distinct: false,
    };
    assert!(!call.is_renderable());
    let fine = ASTNode::SQLCast {
        expr: Box::new(ident("x")),
        data_type: SQLType::Decimal(Some(4), Some(2)),
    };
    assert!(fine.is_renderable());
    assert_eq!(fine.to_string(), "CAST(x AS numeric(4,2))");
}

#[test]
fn names_without_parts_are_not_well_formed() {
    let call = ASTNode::SQLFunction {
        name: SQLObjectName(vec![]),
        args: vec![],
        over: None,
        all: false,
        distinct: false,
    };
    assert!(!call.is_well_formed());
    assert!(call.is_renderable());
    assert_eq!(call.to_string(), "()");
    let collate =
        ASTNode::SQLCollate { expr: Box::new(ident("x")), collation: SQLObjectName(vec![]) };
    assert!(!collate.is_well_formed());
}
