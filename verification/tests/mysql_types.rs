use schema_discovery::mysql::def::{NumericAttr, StringAttr, TimeAttr, Type, TypeName};
use schema_discovery::mysql::parser::{parse_column_type, parse_type_name};

fn numeric(maximum: Option<u16>, decimal: Option<u16>, unsigned: bool, zero_fill: bool) -> NumericAttr {
    NumericAttr {
        maximum,
        decimal,
        unsigned: if unsigned { Some(true) } else { None },
        zero_fill: if zero_fill { Some(true) } else { None },
    }
}

fn string(length: Option<u32>, charset: Option<&str>, collation: Option<&str>) -> StringAttr {
    StringAttr {
        length,
        charset: charset.map(|s| s.to_owned()),
        collation: collation.map(|s| s.to_owned()),
    }
}

#[test]
fn decimal_with_precision_scale_and_modifiers() {
    assert_eq!(
        parse_column_type("decimal(10,2) unsigned zerofill"),
        Type::Decimal(numeric(Some(10), Some(2), true, true))
    );
}

#[test]
fn varchar_with_length() {
    assert_eq!(parse_column_type("varchar(45)"), Type::Varchar(string(Some(45), None, None)));
}

#[test]
fn timestamp_with_fraction() {
    assert_eq!(parse_column_type("timestamp(3)"), Type::Timestamp(TimeAttr { fractional: Some(3) }));
    assert_eq!(parse_column_type("datetime"), Type::DateTime(TimeAttr { fractional: None }));
}

#[test]
fn names_are_read_in_any_letter_case() {
    assert_eq!(parse_column_type("SmallInt UNSIGNED"), Type::SmallInt(numeric(None, None, true, false)));
    assert_eq!(parse_column_type("JSON"), Type::Json);
    assert_eq!(parse_type_name("MediumText"), Some(TypeName::MediumText));
    assert_eq!(parse_type_name("integer"), Some(TypeName::Int));
    assert_eq!(parse_type_name("numeric"), Some(TypeName::Decimal));
    assert_eq!(parse_type_name("geometry"), None);
}

#[test]
fn modifiers_come_in_any_order() {
    assert_eq!(
        parse_column_type("int(11) zerofill unsigned"),
        Type::Int(numeric(Some(11), None, true, true))
    );
    assert_eq!(
        parse_column_type("varchar(20) collate utf8mb4_bin character set utf8mb4"),
        Type::Varchar(string(Some(20), Some("utf8mb4"), Some("utf8mb4_bin")))
    );
    assert_eq!(
        parse_column_type("text charset latin1"),
        Type::Text(string(None, Some("latin1"), None))
    );
}

#[test]
fn spaces_after_the_comma_are_passed_over() {
    assert_eq!(
        parse_column_type("decimal(10, 2)"),
        Type::Decimal(numeric(Some(10), Some(2), false, false))
    );
}

#[test]
fn unknown_name_keeps_the_text_and_the_reason() {
    assert_eq!(
        parse_column_type("geometry"),
        Type::Unknown("geometry is unknown or unimplemented".to_owned())
    );
    assert_eq!(
        parse_column_type("enum('a','b')"),
        Type::Unknown("enum('a','b') is unknown or unimplemented".to_owned())
    );
    assert_eq!(parse_column_type(""), Type::Unknown("".to_owned()));
}

#[test]
fn malformed_attributes_keep_the_text_and_the_reason() {
    for text in [
        "decimal(10,",
        "decimal(a)",
        "decimal()",
        "int(11",
        "int(11) signed",
        "int(11)unsigned",
        "varchar(1,2)",
        "timestamp(3) unsigned",
        "timestamp(300)",
        "date(3)",
        "json x",
        "int(70000)",
        "decimal(99999999999)",
        "varchar(20) character utf8",
        "varchar(20) collate",
    ] {
        assert_eq!(
            parse_column_type(text),
            Type::Unknown(format!("{} has malformed attributes", text)),
            "{}",
            text
        );
    }
}

#[test]
fn types_are_written_in_upper_case_with_their_attributes() {
    assert_eq!(Type::SmallInt(numeric(None, None, true, false)).write_text(), "SMALLINT UNSIGNED");
    assert_eq!(Type::Varchar(string(Some(45), None, None)).write_text(), "VARCHAR(45)");
    assert_eq!(Type::Timestamp(TimeAttr { fractional: None }).write_text(), "TIMESTAMP");
    assert_eq!(Type::Time(TimeAttr { fractional: Some(6) }).write_text(), "TIME(6)");
    assert_eq!(
        Type::Decimal(numeric(Some(10), Some(2), true, true)).write_text(),
        "DECIMAL(10,2) UNSIGNED ZEROFILL"
    );
    assert_eq!(Type::BigInt(numeric(Some(20), None, false, true)).write_text(), "BIGINT(20) ZEROFILL");
    assert_eq!(
        Type::Char(string(Some(3), Some("latin1"), Some("latin1_bin"))).write_text(),
        "CHAR(3) CHARACTER SET latin1 COLLATE latin1_bin"
    );
    assert_eq!(Type::LongBlob.write_text(), "LONGBLOB");
    assert_eq!(Type::Int(numeric(Some(0), None, false, false)).write_text(), "INT(0)");
    assert_eq!(
        Type::Text(string(Some(4294967295), None, None)).write_text(),
        "TEXT(4294967295)"
    );
}

#[test]
fn decimal_digits_without_a_maximum_are_not_written() {
    assert_eq!(Type::Float(numeric(None, Some(2), false, false)).write_text(), "FLOAT");
    let mut attr = numeric(None, None, false, false);
    attr.unsigned = Some(false);
    assert_eq!(Type::Int(attr).write_text(), "INT");
}

#[test]
fn unknown_is_written_as_it_was_read() {
    for text in ["geometry", "enum('a','b')", "int(11", "", "point srid 4326"] {
        assert_eq!(parse_column_type(text).write_text(), text);
    }
    assert_eq!(Type::Unknown("no reason here".to_owned()).write_text(), "no reason here");
}

#[test]
fn writing_and_reading_gives_the_type_back() {
    let all = vec![
        Type::Serial,
        Type::Bit(numeric(Some(8), None, false, false)),
        Type::TinyInt(numeric(Some(1), None, false, false)),
        Type::Bool,
        Type::SmallInt(numeric(None, None, true, true)),
        Type::MediumInt(numeric(Some(9), None, true, false)),
        Type::Int(numeric(Some(11), None, false, false)),
        Type::BigInt(numeric(None, None, true, false)),
        Type::Decimal(numeric(Some(65), Some(30), false, false)),
        Type::Float(numeric(Some(7), Some(3), false, false)),
        Type::Double(numeric(None, None, false, false)),
        Type::Date,
        Type::Time(TimeAttr { fractional: Some(0) }),
        Type::DateTime(TimeAttr { fractional: Some(6) }),
        Type::Timestamp(TimeAttr { fractional: None }),
        Type::Year,
        Type::Char(string(Some(1), None, None)),
        Type::NChar(string(Some(10), None, None)),
        Type::Varchar(string(Some(255), Some("utf8mb4"), Some("utf8mb4_0900_ai_ci"))),
        Type::NVarchar(string(None, None, Some("utf8_bin"))),
        Type::Binary(string(Some(16), None, None)),
        Type::Varbinary(string(Some(65535), None, None)),
        Type::Text(string(None, Some("latin1"), None)),
        Type::TinyText(string(None, None, None)),
        Type::MediumText(string(None, None, None)),
        Type::LongText(string(None, None, None)),
        Type::Blob,
        Type::TinyBlob,
        Type::MediumBlob,
        Type::LongBlob,
        Type::Json,
    ];
    for ty in all {
        assert_eq!(parse_column_type(&ty.write_text()), ty);
    }
}

#[test]
fn reading_writing_reading_changes_nothing() {
    for text in ["int(011) UNSIGNED", "dec(5 ,2)", "Real", "varchar(7)   charset   x", "fixed(3)"] {
        let first = parse_column_type(text);
        assert_eq!(parse_column_type(&first.write_text()), first, "{}", text);
    }
    assert_eq!(parse_column_type("int(011) UNSIGNED").write_text(), "INT(11) UNSIGNED");
}
