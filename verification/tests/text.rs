use sqlast::list::{clone_list, lists_equal};
use sqlast::text::{
    append_if, clone_strings, comma_separated_string, decimal_string, join_strings, str_eq,
    strings_equal,
};
use sqlast::value::quote_string;
use sqlast::{SQLObjectName, Value};

fn strings(parts: &[&str]) -> Vec<String> {
    parts.iter().map(|p| p.to_string()).collect()
}

#[test]
fn joining() {
    assert_eq!(join_strings(&strings(&[]), ", "), "");
    assert_eq!(join_strings(&strings(&["a"]), ", "), "a");
    assert_eq!(join_strings(&strings(&["a", "b", "c"]), "."), "a.b.c");
    assert_eq!(join_strings(&strings(&["a", "", "c"]), "--"), "a----c");
    assert_eq!(join_strings(&strings(&["", ""]), "."), ".");
    assert_eq!(join_strings(&strings(&["a", "b"]), ""), "ab");
    assert_eq!(comma_separated_string(&strings(&["x", "y", "z"])), "x, y, z");
    assert_eq!(comma_separated_string(&strings(&[])), "");
}

#[test]
fn joining_agrees_with_the_standard_library() {
    let parts = strings(&["alpha", "", "β", "delta"]);
    for sep in ["", ",", ", ", "\t"] {
        assert_eq!(join_strings(&parts, sep), parts.join(sep));
    }
}

#[test]
fn optional_keywords() {
    let mut out = "CREATE".to_string();
    append_if(&mut out, true, " MATERIALIZED");
    append_if(&mut out, false, " TEMPORARY");
    assert_eq!(out, "CREATE MATERIALIZED");
}

#[test]
fn decimal_numbers() {
    assert_eq!(decimal_string(0), "0");
    assert_eq!(decimal_string(7), "7");
    assert_eq!(decimal_string(10), "10");
    assert_eq!(decimal_string(109), "109");
    assert_eq!(decimal_string(1234567890), "1234567890");
    assert_eq!(decimal_string(u64::MAX), "18446744073709551615");
    for n in 0..2000u64 {
        assert_eq!(decimal_string(n), n.to_string());
    }
}

#[test]
fn comparing_slices() {
    assert!(str_eq("", ""));
    assert!(str_eq("ROWS", "ROWS"));
    assert!(!str_eq("ROWS", "ROWs"));
    assert!(!str_eq("ROWS", "ROW"));
    assert!(!str_eq("ROW", "ROWS"));
    assert!(str_eq("grüß", "grüß"));
    assert!(!str_eq("grüß", "gruß"));
}

#[test]
fn comparing_and_copying_lists_of_strings() {
    let a = strings(&["a", "b"]);
    assert!(strings_equal(&a, &strings(&["a", "b"])));
    assert!(!strings_equal(&a, &strings(&["a"])));
    assert!(!strings_equal(&a, &strings(&["a", "c"])));
    assert!(!strings_equal(&a, &strings(&["b", "a"])));
    assert!(strings_equal(&strings(&[]), &strings(&[])));
    assert_eq!(clone_strings(&a), a);
}

#[test]
fn comparing_and_copying_lists() {
    let a = vec![Value::new("1".to_string()), Value::new("2".to_string())];
    let b = vec![Value::new("1".to_string()), Value::new("2".to_string())];
    let c = vec![Value::new("1".to_string()), Value::new("3".to_string())];
    assert!(lists_equal(&a, &b));
    assert!(!lists_equal(&a, &c));
    assert!(!lists_equal(&a, &vec![Value::new("1".to_string())]));
    assert!(lists_equal(&clone_list(&a), &a));
    let names = vec![SQLObjectName(strings(&["a", "b"]))];
    assert!(lists_equal(&clone_list(&names), &names));
}

#[test]
fn quoting_doubles_single_quotes() {
    assert_eq!(quote_string(""), "''");
    assert_eq!(quote_string("abc"), "'abc'");
    assert_eq!(quote_string("it's"), "'it''s'");
    assert_eq!(quote_string("'"), "''''");
    assert_eq!(quote_string("''"), "''''''");
    assert_eq!(quote_string("a'b'c"), "'a''b''c'");
    assert_eq!(quote_string("'start"), "'''start'");
    assert_eq!(quote_string("end'"), "'end'''");
    assert_eq!(quote_string("é'ü"), "'é''ü'");
    assert_eq!(quote_string("say \"hi\""), "'say \"hi\"'");
    assert_eq!(Value::single_quoted_string("kafka://h/t").to_string(), "'kafka://h/t'");
}

#[test]
fn names_are_joined_by_dots() {
    assert_eq!(SQLObjectName(strings(&["db", "schema", "obj"])).to_string(), "db.schema.obj");
    assert_eq!(SQLObjectName(strings(&["t"])).to_string(), "t");
    assert!(SQLObjectName(strings(&["t"])).is_well_formed());
    assert!(!SQLObjectName(strings(&[])).is_well_formed());
    assert_eq!(SQLObjectName(strings(&[])).to_string(), "");
}
