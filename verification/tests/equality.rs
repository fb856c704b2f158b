use sqlast::{
    ASTNode, AlterOperation, DataSourceSchema, SQLAssignment, SQLColumnDef, SQLDrop,
    SQLObjectName, SQLOperator, SQLOption, SQLOrderByExpr, SQLQuery, SQLStatement, SQLType,
    SQLWindowFrame, SQLWindowFrameBound, SQLWindowFrameUnits, SQLWindowSpec, Value,
};
use std::collections::hash_map::DefaultHasher;
use std::collections::HashSet;
use std::hash::{Hash, Hasher};

fn hash_of<T: Hash>(value: &T) -> u64 {
    let mut hasher = DefaultHasher::new();
    value.hash(&mut hasher);
    hasher.finish()
}

fn ident(name: &str) -> ASTNode {
    ASTNode::SQLIdentifier(name.to_string())
}

fn name(parts: &[&str]) -> SQLObjectName {
    SQLObjectName(parts.iter().map(|p| p.to_string()).collect())
}

fn window(frame_start: Option<u64>) -> SQLWindowSpec {
    SQLWindowSpec {
        partition_by: vec![ident("p")],
        order_by: vec![SQLOrderByExpr::new("o DESC".to_string())],
        window_frame: Some(SQLWindowFrame {
            units: SQLWindowFrameUnits::Rows,
            start_bound: SQLWindowFrameBound::Preceding(frame_start),
            end_bound: None,
        }),
    }
}

fn big_expression(distinct: bool, negated: bool, frame_start: Option<u64>) -> ASTNode {
    ASTNode::SQLCase {
        operand: Some(Box::new(ident("x"))),
        conditions: vec![ASTNode::SQLInList {
            expr: Box::new(ident("a")),
            list: vec![ASTNode::SQLValue(Value::new("1".to_string())), ASTNode::SQLWildcard],
            negated,
        }],
        results: vec![ASTNode::SQLFunction {
            name: name(&["f"]),
            args: vec![ASTNode::SQLCast {
                expr: Box::new(ident("y")),
                data_type: SQLType::Array(Box::new(SQLType::Char(Some(3)))),
            }],
            over: Some(window(frame_start)),
            all: false,
            distinct,
        }],
        else_result: Some(Box::new(ASTNode::SQLBinaryExpr {
            left: Box::new(ASTNode::SQLSubquery(Box::new(SQLQuery::new("SELECT 1".to_string())))),
            op: SQLOperator::new("+".to_string()),
            right: Box::new(ASTNode::SQLCompoundIdentifier(vec!["t".to_string(), "c".to_string()])),
        })),
    }
}

#[test]
fn equal_trees_compare_equal_and_hash_alike() {
    let a = big_expression(true, false, Some(5));
    let b = big_expression(true, false, Some(5));
    assert_eq!(a, b);
    assert!(a.same(&b));
    assert_eq!(hash_of(&a), hash_of(&b));
    assert_eq!(a.to_string(), b.to_string());
    let copy = a.clone();
    assert_eq!(copy, a);
    assert_eq!(hash_of(&copy), hash_of(&a));
}

#[test]
fn one_different_field_makes_trees_unequal() {
    let a = big_expression(true, false, Some(5));
    assert_ne!(a, big_expression(false, false, Some(5)));
    assert_ne!(a, big_expression(true, true, Some(5)));
    assert_ne!(a, big_expression(true, false, Some(6)));
    assert_ne!(a, big_expression(true, false, None));
}

#[test]
fn different_variants_are_unequal() {
    assert_ne!(ASTNode::SQLIsNull(Box::new(ident("a"))), ASTNode::SQLIsNotNull(Box::new(ident("a"))));
    assert_ne!(ASTNode::SQLNested(Box::new(ident("a"))), ASTNode::SQLIsNull(Box::new(ident("a"))));
    assert_ne!(
        ASTNode::SQLQualifiedWildcard(vec!["a".to_string()]),
        ASTNode::SQLCompoundIdentifier(vec!["a".to_string()])
    );
    assert_ne!(ident("*"), ASTNode::SQLWildcard);
    assert_ne!(ident("1"), ASTNode::SQLValue(Value::new("1".to_string())));
    assert_eq!(ASTNode::SQLWildcard, ASTNode::SQLWildcard);
    assert_ne!(
        ASTNode::SQLCompoundIdentifier(vec!["a".to_string(), "b".to_string()]),
        ASTNode::SQLCompoundIdentifier(vec!["a.b".to_string()])
    );
}

#[test]
fn trees_can_be_keys_of_a_hash_set() {
    let mut seen: HashSet<ASTNode> = HashSet::new();
    assert!(seen.insert(big_expression(true, false, Some(5))));
    assert!(!seen.insert(big_expression(true, false, Some(5))));
    assert!(seen.insert(big_expression(true, true, Some(5))));
    assert!(seen.contains(&big_expression(true, true, Some(5))));
    assert!(!seen.contains(&big_expression(false, true, Some(5))));
    assert_eq!(seen.len(), 2);
}

#[test]
fn window_specifications_compare_by_fields() {
    assert_eq!(window(Some(1)), window(Some(1)));
    assert_eq!(hash_of(&window(Some(1))), hash_of(&window(Some(1))));
    assert_ne!(window(Some(1)), window(Some(2)));
    let mut other = window(Some(1));
    other.order_by.push(SQLOrderByExpr::new("z".to_string()));
    assert_ne!(window(Some(1)), other);
    let mut other = window(Some(1));
    other.partition_by = vec![];
    assert_ne!(window(Some(1)), other);
    assert_eq!(window(None).clone(), window(None));
}

fn table(allow_null: bool, external: bool, location: Option<&str>) -> SQLStatement {
    SQLStatement::SQLCreateTable {
        name: name(&["t"]),
        columns: vec![SQLColumnDef {
            name: "a".to_string(),
            data_type: SQLType::Int,
            is_primary: false,
            is_unique: false,
            default: Some(ident("d")),
            allow_null,
        }],
        with_options: vec![SQLOption { name: "k".to_string(), value: Value::new("v".to_string()) }],
        external,
        file_format: None,
        location: location.map(|l| l.to_string()),
    }
}

#[test]
fn statements_compare_by_fields() {
    assert_eq!(table(true, false, None), table(true, false, None));
    assert_eq!(hash_of(&table(true, false, None)), hash_of(&table(true, false, None)));
    assert_ne!(table(true, false, None), table(false, false, None));
    assert_ne!(table(true, false, None), table(true, true, None));
    assert_ne!(table(true, false, None), table(true, false, Some("/x")));
    assert_ne!(table(true, false, Some("/y")), table(true, false, Some("/x")));
    assert_eq!(table(true, true, Some("/x")).clone(), table(true, true, Some("/x")));
}

#[test]
fn statements_of_different_kinds_are_unequal() {
    let drop = || SQLDrop { if_exists: false, names: vec![name(&["t"])], cascade: false, restrict: false };
    assert_ne!(SQLStatement::SQLDropTable(drop()), SQLStatement::SQLDropView(drop()));
    assert_ne!(SQLStatement::SQLDropTable(drop()), SQLStatement::SQLDropDataSource(drop()));
    assert_eq!(SQLStatement::SQLDropView(drop()), SQLStatement::SQLDropView(drop()));
    assert_ne!(
        SQLStatement::SQLPeek { name: name(&["t"]) },
        SQLStatement::SQLTail { name: name(&["t"]) }
    );
    let mut restricted = drop();
    restricted.restrict = true;
    assert_ne!(SQLStatement::SQLDropTable(drop()), SQLStatement::SQLDropTable(restricted));
}

#[test]
fn every_statement_equals_its_clone() {
    let statements = vec![
        SQLStatement::SQLQuery(Box::new(SQLQuery::new("SELECT 1".to_string()))),
        SQLStatement::SQLInsert {
            table_name: name(&["t"]),
            columns: vec!["a".to_string()],
            values: vec![vec![ident("x")], vec![]],
        },
        SQLStatement::SQLCopy {
            table_name: name(&["t"]),
            columns: vec![],
            values: vec![None, Some("x".to_string())],
        },
        SQLStatement::SQLUpdate {
            table_name: name(&["t"]),
            assignments: vec![SQLAssignment { id: "a".to_string(), value: ident("b") }],
            selection: Some(ident("c")),
        },
        SQLStatement::SQLDelete { table_name: name(&["t"]), selection: None },
        SQLStatement::SQLCreateDataSource {
            name: name(&["s"]),
            url: "u".to_string(),
            schema: DataSourceSchema::Registry("r".to_string()),
            with_options: vec![],
        },
        SQLStatement::SQLCreateDataSink {
            name: name(&["s"]),
            from: name(&["f"]),
            url: "u".to_string(),
            with_options: vec![],
        },
        SQLStatement::SQLCreateView {
            name: name(&["v"]),
            query: Box::new(SQLQuery::new("SELECT 1".to_string())),
            materialized: true,
            with_options: vec![],
        },
        table(true, true, Some("/x")),
        SQLStatement::SQLAlterTable {
            name: name(&["t"]),
            operation: AlterOperation::new("DROP CONSTRAINT c".to_string()),
        },
        SQLStatement::SQLPeek { name: name(&["t"]) },
        SQLStatement::SQLTail { name: name(&["t"]) },
    ];
    for (i, a) in statements.iter().enumerate() {
        let copy = a.clone();
        assert_eq!(&copy, a);
        assert_eq!(hash_of(&copy), hash_of(a));
        for (j, b) in statements.iter().enumerate() {
            assert_eq!(a == b, i == j);
        }
    }
}

#[test]
fn copy_values_distinguish_null_from_text() {
    let copy = |values: Vec<Option<String>>| SQLStatement::SQLCopy {
        table_name: name(&["t"]),
        columns: vec![],
        values,
    };
    assert_ne!(copy(vec![None]), copy(vec![Some("\\N".to_string())]));
    assert_ne!(copy(vec![None]), copy(vec![]));
    assert_eq!(copy(vec![None, Some("a".to_string())]), copy(vec![None, Some("a".to_string())]));
    assert_eq!(
        copy(vec![None]).to_string(),
        copy(vec![Some("\\N".to_string())]).to_string()
    );
}

#[test]
fn schemas_and_small_parts_compare_by_fields() {
    assert_ne!(DataSourceSchema::Raw("x".to_string()), DataSourceSchema::Registry("x".to_string()));
    assert_eq!(DataSourceSchema::Raw("x".to_string()), DataSourceSchema::Raw("x".to_string()));
    assert_ne!(DataSourceSchema::Raw("x".to_string()), DataSourceSchema::Raw("y".to_string()));
    assert_eq!(
        DataSourceSchema::Registry("x".to_string()).clone(),
        DataSourceSchema::Registry("x".to_string())
    );
    assert_ne!(name(&["a", "b"]), name(&["a"]));
    assert_ne!(name(&["a", "b"]), name(&["b", "a"]));
    assert_eq!(name(&["a", "b"]), name(&["a", "b"]));
    assert_eq!(hash_of(&name(&["a", "b"])), hash_of(&name(&["a", "b"])));
    let assignment = SQLAssignment { id: "a".to_string(), value: ident("b") };
    assert_eq!(assignment.clone(), assignment);
    assert_ne!(assignment, SQLAssignment { id: "a".to_string(), value: ident("c") });
    assert_ne!(assignment, SQLAssignment { id: "z".to_string(), value: ident("b") });
    assert_ne!(SQLOperator::new("+".to_string()), SQLOperator::new("-".to_string()));
    assert_eq!(SQLOperator::new("+".to_string()).to_string(), "+");
}
