use sqlast::{ParserError, SQLWindowFrame, SQLWindowFrameBound, SQLWindowFrameUnits};

#[test]
fn units_are_written_as_keywords() {
    assert_eq!(SQLWindowFrameUnits::Rows.to_string(), "ROWS");
    assert_eq!(SQLWindowFrameUnits::Range.to_string(), "RANGE");
    assert_eq!(SQLWindowFrameUnits::Groups.to_string(), "GROUPS");
}

#[test]
fn units_are_read_from_keywords() {
    assert_eq!(SQLWindowFrameUnits::from_str("ROWS"), Ok(SQLWindowFrameUnits::Rows));
    assert_eq!(SQLWindowFrameUnits::from_str("RANGE"), Ok(SQLWindowFrameUnits::Range));
    assert_eq!(SQLWindowFrameUnits::from_str("GROUPS"), Ok(SQLWindowFrameUnits::Groups));
}

#[test]
fn units_round_trip() {
    for units in
        [SQLWindowFrameUnits::Rows, SQLWindowFrameUnits::Range, SQLWindowFrameUnits::Groups]
    {
        assert_eq!(SQLWindowFrameUnits::from_str(&units.to_string()), Ok(units));
    }
}

#[test]
fn unknown_units_are_refused_with_the_token() {
    assert_eq!(
        SQLWindowFrameUnits::from_str("rows"),
        Err(ParserError::ParserError("Expected ROWS, RANGE, or GROUPS, found: rows".to_string()))
    );
    assert_eq!(
        SQLWindowFrameUnits::from_str(""),
        Err(ParserError::ParserError("Expected ROWS, RANGE, or GROUPS, found: ".to_string()))
    );
    assert_eq!(
        SQLWindowFrameUnits::from_str("ROWS "),
        Err(ParserError::ParserError("Expected ROWS, RANGE, or GROUPS, found: ROWS ".to_string()))
    );
    let error = SQLWindowFrameUnits::from_str("ÜBER").unwrap_err();
    assert_eq!(error.to_string(), "Expected ROWS, RANGE, or GROUPS, found: ÜBER");
}

#[test]
fn bounds() {
    assert_eq!(SQLWindowFrameBound::CurrentRow.to_string(), "CURRENT ROW");
    assert_eq!(SQLWindowFrameBound::Preceding(None).to_string(), "UNBOUNDED PRECEDING");
    assert_eq!(SQLWindowFrameBound::Following(None).to_string(), "UNBOUNDED FOLLOWING");
    assert_eq!(SQLWindowFrameBound::Preceding(Some(5)).to_string(), "5 PRECEDING");
    assert_eq!(SQLWindowFrameBound::Following(Some(10)).to_string(), "10 FOLLOWING");
    assert_eq!(SQLWindowFrameBound::Preceding(Some(0)).to_string(), "0 PRECEDING");
    assert_eq!(
        SQLWindowFrameBound::Following(Some(u64::MAX)).to_string(),
        "18446744073709551615 FOLLOWING"
    );
}

#[test]
fn frames() {
    let between = SQLWindowFrame {
        units: SQLWindowFrameUnits::Groups,
        start_bound: SQLWindowFrameBound::Preceding(Some(1)),
        end_bound: Some(SQLWindowFrameBound::Following(None)),
    };
    assert_eq!(between.to_string(), "GROUPS BETWEEN 1 PRECEDING AND UNBOUNDED FOLLOWING");
    let single = SQLWindowFrame {
        units: SQLWindowFrameUnits::Rows,
        start_bound: SQLWindowFrameBound::CurrentRow,
        end_bound: None,
    };
    assert_eq!(single.to_string(), "ROWS CURRENT ROW");
    assert_ne!(between, single);
    assert_eq!(between, between.clone());
}
