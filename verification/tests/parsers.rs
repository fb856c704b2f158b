use sqlast::{FileFormat, ParserError};

#[test]
fn file_formats_are_read_from_keywords() {
    assert_eq!(FileFormat::from_str("TEXTFILE"), Ok(FileFormat::TEXTFILE));
    assert_eq!(FileFormat::from_str("SEQUENCEFILE"), Ok(FileFormat::SEQUENCEFILE));
    assert_eq!(FileFormat::from_str("ORC"), Ok(FileFormat::ORC));
    assert_eq!(FileFormat::from_str("PARQUET"), Ok(FileFormat::PARQUET));
    assert_eq!(FileFormat::from_str("AVRO"), Ok(FileFormat::AVRO));
    assert_eq!(FileFormat::from_str("RCFILE"), Ok(FileFormat::RCFILE));
    assert_eq!(FileFormat::from_str("JSONFILE"), Ok(FileFormat::JSONFILE));
}

#[test]
fn unknown_file_formats_are_refused_with_the_token() {
    assert_eq!(
        FileFormat::from_str("CSV"),
        Err(ParserError::ParserError("Unexpected file format: CSV".to_string()))
    );
    assert_eq!(
        FileFormat::from_str("orc"),
        Err(ParserError::ParserError("Unexpected file format: orc".to_string()))
    );
    assert_eq!(
        FileFormat::from_str(""),
        Err(ParserError::ParserError("Unexpected file format: ".to_string()))
    );
    assert_eq!(
        FileFormat::from_str("ORC\n"),
        Err(ParserError::ParserError("Unexpected file format: ORC\n".to_string()))
    );
}

#[test]
fn file_format_round_trip() {
    let formats = [
        FileFormat::TEXTFILE,
        FileFormat::SEQUENCEFILE,
        FileFormat::ORC,
        FileFormat::PARQUET,
        FileFormat::AVRO,
        FileFormat::RCFILE,
    ];
    for format in formats {
        assert_eq!(FileFormat::from_str(&format.to_string()), Ok(format));
    }
    let read = FileFormat::from_str(&FileFormat::JSONFILE.to_string()).unwrap();
    assert_eq!(read, FileFormat::TEXTFILE);
    assert_eq!(read.to_string(), FileFormat::JSONFILE.to_string());
}

#[test]
fn parser_errors() {
    let a = ParserError::ParserError("x".to_string());
    assert_eq!(a.clone(), a);
    assert_ne!(a, ParserError::ParserError("y".to_string()));
    assert_eq!(a.to_string(), "x");
}
