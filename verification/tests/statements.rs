use sqlast::{
    ASTNode, AlterOperation, DataSourceSchema, FileFormat, SQLAssignment, SQLColumnDef, SQLDrop,
    SQLObjectName, SQLOption, SQLQuery, SQLStatement, SQLType, Value,
};

fn ident(name: &str) -> ASTNode {
    ASTNode::SQLIdentifier(name.to_string())
}

fn literal(text: &str) -> ASTNode {
    ASTNode::SQLValue(Value::new(text.to_string()))
}

fn name(parts: &[&str]) -> SQLObjectName {
    SQLObjectName(parts.iter().map(|p| p.to_string()).collect())
}

fn option(name: &str, value: &str) -> SQLOption {
    SQLOption { name: name.to_string(), value: Value::new(value.to_string()) }
}

fn column(name: &str, data_type: SQLType) -> SQLColumnDef {
    SQLColumnDef {
        name: name.to_string(),
        data_type,
        is_primary: false,
        is_unique: false,
        default: None,
        allow_null: true,
    }
}

fn external_table(file_format: Option<FileFormat>, location: Option<&str>) -> SQLStatement {
    SQLStatement::SQLCreateTable {
        name: name(&["t"]),
        columns: vec![column("a", SQLType::Int)],
        with_options: vec![option("ignored", "1")],
        external: true,
        file_format,
        location: location.map(|l| l.to_string()),
    }
}

#[test]
fn query_statement_is_the_query() {
    let s = SQLStatement::SQLQuery(Box::new(SQLQuery::new("SELECT a FROM t".to_string())));
    assert_eq!(s.to_string(), "SELECT a FROM t");
}

#[test]
fn insert() {
    let s = SQLStatement::SQLInsert {
        table_name: name(&["public", "t"]),
        columns: vec!["a".to_string(), "b".to_string()],
        values: vec![vec![literal("1"), literal("2")], vec![literal("3"), literal("4")]],
    };
    assert_eq!(s.to_string(), "INSERT INTO public.t (a, b) VALUES(1, 2, 3, 4)");
    let bare = SQLStatement::SQLInsert { table_name: name(&["t"]), columns: vec![], values: vec![] };
    assert_eq!(bare.to_string(), "INSERT INTO t");
    let no_columns = SQLStatement::SQLInsert {
        table_name: name(&["t"]),
        columns: vec![],
        values: vec![vec![literal("1")]],
    };
    assert_eq!(no_columns.to_string(), "INSERT INTO t VALUES(1)");
    let empty_row = SQLStatement::SQLInsert {
        table_name: name(&["t"]),
        columns: vec!["a".to_string()],
        values: vec![vec![]],
    };
    assert_eq!(empty_row.to_string(), "INSERT INTO t (a) VALUES()");
}

#[test]
fn copy_writes_the_null_marker_for_absent_values() {
    let s = SQLStatement::SQLCopy {
        table_name: name(&["t"]),
        columns: vec![],
        values: vec![None, Some("x".to_string())],
    };
    let text = s.to_string();
    assert_eq!(text, "COPY t FROM stdin; \n\\N\tx\n\\.");
    let lines: Vec<&str> = text.split('\n').collect();
    assert_eq!(lines, vec!["COPY t FROM stdin; ", "\\N\tx", "\\."]);
}

#[test]
fn copy_with_columns_and_without_data() {
    let s = SQLStatement::SQLCopy {
        table_name: name(&["s", "t"]),
        columns: vec!["a".to_string(), "b".to_string()],
        values: vec![],
    };
    assert_eq!(s.to_string(), "COPY s.t (a, b) FROM stdin; \n\\.");
    let s = SQLStatement::SQLCopy {
        table_name: name(&["t"]),
        columns: vec!["a".to_string()],
        values: vec![Some("1".to_string()), Some("two".to_string()), None],
    };
    assert_eq!(s.to_string(), "COPY t (a) FROM stdin; \n1\ttwo\t\\N\n\\.");
}

#[test]
fn update() {
    let s = SQLStatement::SQLUpdate {
        table_name: name(&["t"]),
        assignments: vec![
            SQLAssignment { id: "a".to_string(), value: literal("1") },
            SQLAssignment { id: "b".to_string(), value: ident("c") },
        ],
        selection: Some(ident("d")),
    };
    assert_eq!(s.to_string(), "UPDATE tSET a = 1, SET b = c WHERE d");
    let bare =
        SQLStatement::SQLUpdate { table_name: name(&["t"]), assignments: vec![], selection: None };
    assert_eq!(bare.to_string(), "UPDATE t");
    assert_eq!(SQLAssignment { id: "a".to_string(), value: literal("1") }.to_string(), "SET a = 1");
}

#[test]
fn delete() {
    let s = SQLStatement::SQLDelete { table_name: name(&["t"]), selection: Some(ident("x")) };
    assert_eq!(s.to_string(), "DELETE FROM t WHERE x");
    let s = SQLStatement::SQLDelete { table_name: name(&["t"]), selection: None };
    assert_eq!(s.to_string(), "DELETE FROM t");
}

#[test]
fn create_data_source() {
    let s = SQLStatement::SQLCreateDataSource {
        name: name(&["src"]),
        url: "kafka://host/topic".to_string(),
        schema: DataSourceSchema::Raw("{\"type\": \"record\"}".to_string()),
        with_options: vec![],
    };
    assert_eq!(
        s.to_string(),
        "CREATE DATA SOURCE src FROM 'kafka://host/topic' USING SCHEMA '{\"type\": \"record\"}'"
    );
    let s = SQLStatement::SQLCreateDataSource {
        name: name(&["src"]),
        url: "kafka://host/topic".to_string(),
        schema: DataSourceSchema::Registry("http://registry:8081".to_string()),
        with_options: vec![option("k", "'v'"), option("n", "1")],
    };
    assert_eq!(
        s.to_string(),
        "CREATE DATA SOURCE src FROM 'kafka://host/topic' USING SCHEMA REGISTRY \
         'http://registry:8081' WITH (k = 'v', n = 1)"
    );
}

#[test]
fn quoted_strings_in_statements_double_their_quotes() {
    let s = SQLStatement::SQLCreateDataSource {
        name: name(&["src"]),
        url: "a'b".to_string(),
        schema: DataSourceSchema::Raw("it's".to_string()),
        with_options: vec![],
    };
    assert_eq!(s.to_string(), "CREATE DATA SOURCE src FROM 'a''b' USING SCHEMA 'it''s'");
    assert_eq!(DataSourceSchema::Raw("x".to_string()).to_string(), "'x'");
    assert_eq!(DataSourceSchema::Registry("x".to_string()).to_string(), "REGISTRY 'x'");
}

#[test]
fn create_data_sink() {
    let s = SQLStatement::SQLCreateDataSink {
        name: name(&["snk"]),
        from: name(&["db", "view"]),
        url: "kafka://host/out".to_string(),
        with_options: vec![],
    };
    assert_eq!(s.to_string(), "CREATE DATA SINK snk FROM db.view INTO 'kafka://host/out'");
    let s = SQLStatement::SQLCreateDataSink {
        name: name(&["snk"]),
        from: name(&["v"]),
        url: "u".to_string(),
        with_options: vec![option("a", "1")],
    };
    assert_eq!(s.to_string(), "CREATE DATA SINK snk FROM v INTO 'u' WITH (a = 1)");
}

#[test]
fn create_view() {
    let view = |materialized: bool, with_options: Vec<SQLOption>| SQLStatement::SQLCreateView {
        name: name(&["v"]),
        query: Box::new(SQLQuery::new("SELECT 1".to_string())),
        materialized,
        with_options,
    };
    assert_eq!(view(false, vec![]).to_string(), "CREATE VIEW v AS SELECT 1");
    assert_eq!(view(true, vec![]).to_string(), "CREATE MATERIALIZED VIEW v AS SELECT 1");
    assert_eq!(
        view(true, vec![option("a", "1"), option("b", "'x'")]).to_string(),
        "CREATE MATERIALIZED VIEW v WITH (a = 1, b = 'x') AS SELECT 1"
    );
}

#[test]
fn create_table() {
    let s = SQLStatement::SQLCreateTable {
        name: name(&["t"]),
        columns: vec![
            SQLColumnDef {
                name: "id".to_string(),
                data_type: SQLType::Int,
                is_primary: true,
                is_unique: false,
                default: None,
                allow_null: false,
            },
            SQLColumnDef {
                name: "name".to_string(),
                data_type: SQLType::Text,
                is_primary: false,
                is_unique: true,
                default: Some(literal("'x'")),
                allow_null: true,
            },
        ],
        with_options: vec![option("k", "v")],
        external: false,
        file_format: None,
        location: None,
    };
    assert_eq!(
        s.to_string(),
        "CREATE TABLE t (id int PRIMARY KEY NOT NULL, name text UNIQUE DEFAULT 'x') WITH (k = v)"
    );
    let empty = SQLStatement::SQLCreateTable {
        name: name(&["t"]),
        columns: vec![],
        with_options: vec![],
        external: false,
        file_format: Some(FileFormat::ORC),
        location: Some("/unused".to_string()),
    };
    assert_eq!(empty.to_string(), "CREATE TABLE t ()");
}

#[test]
fn column_definitions() {
    let mut c = column("a", SQLType::Varchar(Some(5)));
    assert_eq!(c.to_string(), "a character varying(5)");
    c.allow_null = false;
    assert_eq!(c.to_string(), "a character varying(5) NOT NULL");
    c.is_unique = true;
    c.is_primary = true;
    c.default = Some(literal("0"));
    assert_eq!(c.to_string(), "a character varying(5) PRIMARY KEY UNIQUE DEFAULT 0 NOT NULL");
    assert!(c.is_renderable());
    assert!(c.is_well_formed());
    c.data_type = SQLType::Decimal(None, Some(1));
    assert!(!c.is_renderable());
    assert!(!c.is_well_formed());
}

#[test]
fn create_external_table() {
    let s = external_table(Some(FileFormat::PARQUET), Some("/data/t"));
    assert!(s.is_renderable());
    assert_eq!(s.to_string(), "CREATE EXTERNAL TABLE t (a int) STORED AS PARQUET LOCATION '/data/t'");
    let json = external_table(Some(FileFormat::JSONFILE), Some("it's"));
    assert_eq!(json.to_string(), "CREATE EXTERNAL TABLE t (a int) STORED AS TEXTFILE LOCATION 'it's'");
}

#[test]
fn external_table_without_file_format_has_no_text() {
    let s = external_table(None, Some("/data/t"));
    assert!(!s.is_renderable());
    assert!(!s.is_well_formed());
    assert_eq!(s.try_to_string(), None);
}

#[test]
fn external_table_without_location_has_no_text() {
    let s = external_table(Some(FileFormat::ORC), None);
    assert!(!s.is_renderable());
    assert!(!s.is_well_formed());
    assert_eq!(s.try_to_string(), None);
    let both = external_table(None, None);
    assert!(!both.is_renderable());
    assert_eq!(both.try_to_string(), None);
}

#[test]
fn try_to_string_agrees_with_to_string() {
    let s = external_table(Some(FileFormat::AVRO), Some("/x"));
    assert_eq!(s.try_to_string(), Some(s.to_string()));
    let d = SQLStatement::SQLDelete {
        table_name: name(&["t"]),
        selection: Some(ASTNode::SQLCast {
            expr: Box::new(ident("x")),
            data_type: SQLType::Decimal(None, Some(2)),
        }),
    };
    assert!(!d.is_renderable());
    assert_eq!(d.try_to_string(), None);
}

#[test]
fn statements_with_unrenderable_parts_are_refused() {
    let bad = || ASTNode::SQLCast {
        expr: Box::new(ident("x")),
        data_type: SQLType::Decimal(None, Some(2)),
    };
    let insert = SQLStatement::SQLInsert {
        table_name: name(&["t"]),
        columns: vec![],
        values: vec![vec![literal("1")], vec![literal("2"), bad()]],
    };
    assert!(!insert.is_renderable());
    let update = SQLStatement::SQLUpdate {
        table_name: name(&["t"]),
        assignments: vec![SQLAssignment { id: "a".to_string(), value: bad() }],
        selection: None,
    };
    assert!(!update.is_renderable());
    let update = SQLStatement::SQLUpdate {
        table_name: name(&["t"]),
        assignments: vec![],
        selection: Some(bad()),
    };
    assert!(!update.is_renderable());
    let table = SQLStatement::SQLCreateTable {
        name: name(&["t"]),
        columns: vec![column("a", SQLType::Int), column("b", SQLType::Decimal(None, Some(0)))],
        with_options: vec![],
        external: false,
        file_format: None,
        location: None,
    };
    assert!(!table.is_renderable());
}

#[test]
fn alter_peek_tail() {
    let s = SQLStatement::SQLAlterTable {
        name: name(&["t"]),
        operation: AlterOperation::new("ADD CONSTRAINT pk PRIMARY KEY (id)".to_string()),
    };
    assert_eq!(s.to_string(), "ALTER TABLE t ADD CONSTRAINT pk PRIMARY KEY (id)");
    assert_eq!(SQLStatement::SQLPeek { name: name(&["db", "v"]) }.to_string(), "PEEK db.v");
    assert_eq!(SQLStatement::SQLTail { name: name(&["v"]) }.to_string(), "TAIL v");
}

#[test]
fn drop_clause_composition() {
    let drop = |if_exists: bool, cascade: bool, restrict: bool| SQLDrop {
        if_exists,
        names: vec![name(&["t"])],
        cascade,
        restrict,
    };
    assert_eq!(
        SQLStatement::SQLDropTable(drop(true, true, false)).to_string(),
        "DROP TABLE IF EXISTS t CASCADE"
    );
    assert_eq!(
        SQLStatement::SQLDropTable(drop(false, true, true)).to_string(),
        "DROP TABLE t CASCADE RESTRICT"
    );
    assert_eq!(SQLStatement::SQLDropTable(drop(false, false, false)).to_string(), "DROP TABLE t");
    assert_eq!(
        SQLStatement::SQLDropTable(drop(false, false, true)).to_string(),
        "DROP TABLE t RESTRICT"
    );
    assert_eq!(
        SQLStatement::SQLDropTable(drop(true, true, true)).to_string(),
        "DROP TABLE IF EXISTS t CASCADE RESTRICT"
    );
}

#[test]
fn drop_object_types_and_names() {
    let drop = SQLDrop {
        if_exists: false,
        names: vec![name(&["a"]), name(&["b", "c"])],
        cascade: false,
        restrict: false,
    };
    assert_eq!(SQLStatement::SQLDropView(drop.clone()).to_string(), "DROP VIEW a, b.c");
    assert_eq!(
        SQLStatement::SQLDropDataSource(drop.clone()).to_string(),
        "DROP DATA SOURCE a, b.c"
    );
    assert_eq!(drop.to_string_internal("INDEX"), "DROP INDEX a, b.c");
    assert!(drop.is_well_formed());
    let nothing = SQLDrop { if_exists: true, names: vec![], cascade: false, restrict: false };
    assert!(!nothing.is_well_formed());
    assert_eq!(nothing.to_string_internal("TABLE"), "DROP TABLE IF EXISTS ");
    let unnamed =
        SQLDrop { if_exists: false, names: vec![name(&["a"]), name(&[])], cascade: false, restrict: false };
    assert!(!unnamed.is_well_formed());
    assert!(!SQLStatement::SQLDropTable(unnamed).is_well_formed());
}

#[test]
fn well_formed_statements() {
    assert!(SQLStatement::SQLPeek { name: name(&["v"]) }.is_well_formed());
    assert!(!SQLStatement::SQLPeek { name: name(&[]) }.is_well_formed());
    assert!(!SQLStatement::SQLTail { name: name(&[]) }.is_well_formed());
    let sink = SQLStatement::SQLCreateDataSink {
        name: name(&["s"]),
        from: name(&[]),
        url: "u".to_string(),
        with_options: vec![],
    };
    assert!(!sink.is_well_formed());
    assert!(sink.is_renderable());
    let insert = SQLStatement::SQLInsert {
        table_name: name(&["t"]),
        columns: vec![],
        values: vec![vec![ASTNode::SQLCase {
            operand: None,
            conditions: vec![ident("a")],
            results: vec![],
            else_result: None,
        }]],
    };
    assert!(!insert.is_well_formed());
    assert!(insert.is_renderable());
    assert!(external_table(Some(FileFormat::ORC), Some("/x")).is_well_formed());
}

#[test]
fn file_formats() {
    let cases = [
        (FileFormat::TEXTFILE, "TEXTFILE"),
        (FileFormat::SEQUENCEFILE, "SEQUENCEFILE"),
        (FileFormat::ORC, "ORC"),
        (FileFormat::PARQUET, "PARQUET"),
        (FileFormat::AVRO, "AVRO"),
        (FileFormat::RCFILE, "RCFILE"),
        (FileFormat::JSONFILE, "TEXTFILE"),
    ];
    for (format, keyword) in cases {
        assert_eq!(format.to_string(), keyword);
    }
}

#[test]
fn options() {
    assert_eq!(option("a", "1").to_string(), "a = 1");
    assert_eq!(option("", "").to_string(), " = ");
}
