use sqlast::sqltype::format_type_with_optional_length;
use sqlast::{SQLObjectName, SQLType};

#[test]
fn every_type_has_its_keyword() {
    let custom = SQLObjectName(vec!["public".to_string(), "mood".to_string()]);
    let cases: Vec<(SQLType, &str)> = vec![
        (SQLType::Char(None), "char"),
        (SQLType::Char(Some(10)), "char(10)"),
        (SQLType::Varchar(None), "character varying"),
        (SQLType::Varchar(Some(10)), "character varying(10)"),
        (SQLType::Uuid, "uuid"),
        (SQLType::Clob(1000), "clob(1000)"),
        (SQLType::Binary(10), "binary(10)"),
        (SQLType::Varbinary(10), "varbinary(10)"),
        (SQLType::Blob(1000), "blob(1000)"),
        (SQLType::Decimal(None, None), "numeric"),
        (SQLType::Decimal(Some(10), None), "numeric(10)"),
        (SQLType::Decimal(Some(10), Some(2)), "numeric(10,2)"),
        (SQLType::Float(None), "float"),
        (SQLType::Float(Some(8)), "float(8)"),
        (SQLType::SmallInt, "smallint"),
        (SQLType::Int, "int"),
        (SQLType::BigInt, "bigint"),
        (SQLType::Real, "real"),
        (SQLType::Double, "double"),
        (SQLType::Boolean, "boolean"),
        (SQLType::Date, "date"),
        (SQLType::Time, "time"),
        (SQLType::Timestamp, "timestamp"),
        (SQLType::Regclass, "regclass"),
        (SQLType::Text, "text"),
        (SQLType::Bytea, "bytea"),
        (SQLType::Custom(custom), "public.mood"),
        (SQLType::Array(Box::new(SQLType::Int)), "int[]"),
        (
            SQLType::Array(Box::new(SQLType::Array(Box::new(SQLType::Varchar(Some(3)))))),
            "character varying(3)[][]",
        ),
    ];
    for (sql_type, expected) in cases {
        assert!(sql_type.is_renderable());
        assert!(sql_type.is_well_formed());
        let text = sql_type.to_string();
        assert!(!text.is_empty());
        assert_eq!(text, expected);
    }
}

#[test]
fn scale_without_precision_has_no_text() {
    let broken = SQLType::Decimal(None, Some(2));
    assert!(!broken.is_renderable());
    assert!(!broken.is_well_formed());
    let nested = SQLType::Array(Box::new(SQLType::Decimal(None, Some(2))));
    assert!(!nested.is_renderable());
    assert!(!nested.is_well_formed());
}

#[test]
fn custom_type_without_name_is_not_well_formed() {
    let custom = SQLType::Custom(SQLObjectName(vec![]));
    assert!(custom.is_renderable());
    assert!(!custom.is_well_formed());
    assert_eq!(custom.to_string(), "");
}

#[test]
fn lengths_are_written_in_decimal() {
    assert_eq!(format_type_with_optional_length("char", &None), "char");
    assert_eq!(format_type_with_optional_length("char", &Some(0)), "char(0)");
    assert_eq!(format_type_with_optional_length("float", &Some(53)), "float(53)");
    assert_eq!(
        format_type_with_optional_length("x", &Some(usize::MAX)),
        format!("x({})", usize::MAX)
    );
    assert_eq!(SQLType::Clob(0).to_string(), "clob(0)");
    assert_eq!(SQLType::Blob(1234567890).to_string(), "blob(1234567890)");
}

#[test]
fn type_equality_and_clone() {
    let a = SQLType::Array(Box::new(SQLType::Decimal(Some(10), Some(2))));
    let b = SQLType::Array(Box::new(SQLType::Decimal(Some(10), Some(2))));
    let c = SQLType::Array(Box::new(SQLType::Decimal(Some(10), Some(3))));
    assert_eq!(a, b);
    assert_ne!(a, c);
    assert_eq!(a.clone(), a);
    assert_ne!(SQLType::Char(None), SQLType::Varchar(None));
    assert_ne!(SQLType::Char(None), SQLType::Char(Some(1)));
    assert_ne!(SQLType::Clob(1), SQLType::Blob(1));
    assert_ne!(
        SQLType::Custom(SQLObjectName(vec!["a".to_string()])),
        SQLType::Custom(SQLObjectName(vec!["b".to_string()]))
    );
    assert_ne!(SQLType::Int, SQLType::BigInt);
}
