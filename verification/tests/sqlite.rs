use schema_discovery::error::{CatalogField, SchemaError};
use schema_discovery::sqlite::def::{
    parse_indexed_columns, ColumnInfo, DefaultType, ForeignKeyAction, ForeignKeysInfo, IndexInfo,
    IndexedColumns, MatchAction, PartialIndexInfo, Type,
};
use sea_query::SqliteQueryBuilder;

#[test]
fn types() {
    assert_eq!(Type::to_type("INTEGER"), Type::Integer);
    assert_eq!(Type::to_type("int"), Type::Int);
    assert_eq!(Type::to_type("VARCHAR(255)"), Type::Varchar { length: Some(255) });
    assert_eq!(Type::to_type("character(3) "), Type::Char { length: Some(3) });
    assert_eq!(Type::to_type("char"), Type::Char { length: None });
    assert_eq!(Type::to_type("DECIMAL(10,5)"), Type::Decimal { precision: Some(10), scale: Some(5) });
    assert_eq!(Type::to_type("decimal(4)"), Type::Decimal { precision: Some(4), scale: None });
    assert_eq!(Type::to_type("decimal"), Type::Decimal { precision: None, scale: None });
    assert_eq!(Type::to_type("Blob"), Type::Blob);
    assert_eq!(Type::to_type("timestamp"), Type::Timestamp);
    assert_eq!(Type::to_type(""), Type::Unknown("".to_owned()));
    for text in ["VARCHAR(abc)", "VARCHAR(1,2)", "INTEGER(4)", "geometry", "text x", "decimal(1"] {
        assert_eq!(
            Type::to_type(text),
            Type::Unknown(format!("{} is unknown or unimplemented", text)),
            "{}",
            text
        );
    }
}

#[test]
fn default_values() {
    assert_eq!(DefaultType::parse("NULL"), DefaultType::Null);
    assert_eq!(DefaultType::parse(""), DefaultType::Unspecified);
    assert_eq!(DefaultType::parse("42"), DefaultType::Integer(42));
    assert_eq!(DefaultType::parse("'42'"), DefaultType::Integer(42));
    assert_eq!(DefaultType::parse("-7"), DefaultType::Integer(-7));
    assert_eq!(DefaultType::parse("+7"), DefaultType::Integer(7));
    assert_eq!(DefaultType::parse("2147483647"), DefaultType::Integer(2147483647));
    assert_eq!(DefaultType::parse("-2147483648"), DefaultType::Integer(-2147483648));
    assert_eq!(DefaultType::parse("2147483648"), DefaultType::String("2147483648".to_owned()));
    assert_eq!(DefaultType::parse("-2147483649"), DefaultType::String("-2147483649".to_owned()));
    assert_eq!(DefaultType::parse("00012"), DefaultType::Integer(12));
    assert_eq!(DefaultType::parse("1.5"), DefaultType::String("1.5".to_owned()));
    assert_eq!(DefaultType::parse("'it''s'"), DefaultType::String("its".to_owned()));
    assert_eq!(DefaultType::parse("-"), DefaultType::String("-".to_owned()));
    assert_eq!(DefaultType::parse("''"), DefaultType::String("".to_owned()));
    assert_eq!(DefaultType::parse(" 1"), DefaultType::String(" 1".to_owned()));
    assert_eq!(DefaultType::parse("null"), DefaultType::String("null".to_owned()));
}

#[test]
fn column_definition() {
    assert_eq!(
        ColumnInfo::to_column_def(2, "title".to_owned(), "VARCHAR(80)", 1, "'none'", 0),
        Ok(ColumnInfo {
            cid: 2,
            name: "title".to_owned(),
            col_type: Type::Varchar { length: Some(80) },
            not_null: true,
            default_value: DefaultType::String("none".to_owned()),
            primary_key: false,
        })
    );
    let c = ColumnInfo::to_column_def(0, "id".to_owned(), "INTEGER", 0, "", 2).unwrap();
    assert!(!c.not_null);
    assert!(c.primary_key);
    assert_eq!(c.default_value, DefaultType::Unspecified);
    assert_eq!(
        ColumnInfo::to_column_def(0, "id".to_owned(), "INTEGER", 2, "", 0),
        Err(SchemaError::MalformedSentinel(CatalogField::IsNullable))
    );
    assert_eq!(
        ColumnInfo::to_column_def(0, "id".to_owned(), "INTEGER", 0, "", -1),
        Err(SchemaError::MalformedSentinel(CatalogField::ColumnKey))
    );
}

#[test]
fn index_is_written() {
    let index = IndexInfo {
        kind: "index".to_owned(),
        index_name: "idx_title".to_owned(),
        table_name: "film".to_owned(),
        unique: true,
        origin: "c".to_owned(),
        partial: 0,
        columns: vec!["title".to_owned(), "year".to_owned()],
    };
    assert_eq!(
        index.write().to_string(SqliteQueryBuilder),
        r#"CREATE UNIQUE INDEX "idx_title" ON "film" ("title", "year")"#
    );
    let plain = IndexInfo { unique: false, columns: vec!["a".to_owned()], ..index };
    assert_eq!(
        plain.write().to_string(SqliteQueryBuilder),
        r#"CREATE INDEX "idx_title" ON "film" ("a")"#
    );
}

#[test]
fn indexed_columns_are_read_from_the_statement() {
    assert_eq!(
        parse_indexed_columns("CREATE INDEX idx ON film (title, `year` , \"length\")"),
        vec!["title".to_owned(), "year".to_owned(), "length".to_owned()]
    );
    assert_eq!(
        parse_indexed_columns("CREATE UNIQUE INDEX i ON t(a) WHERE a > (1)"),
        vec!["a".to_owned()]
    );
    assert_eq!(parse_indexed_columns("CREATE INDEX i ON t ()"), vec!["".to_owned()]);
    assert_eq!(parse_indexed_columns("CREATE INDEX i ON t (a,,b"), vec!["a".to_owned(), "".to_owned(), "b".to_owned()]);
    assert!(parse_indexed_columns("CREATE INDEX i").is_empty());
    assert!(parse_indexed_columns("CREATE INDEX i ON t").is_empty());
    assert!(parse_indexed_columns("").is_empty());
    assert!(parse_indexed_columns("ON").is_empty());
    let i = IndexedColumns::new("index".to_owned(), "i".to_owned(), "t".to_owned(), 4, "x ON t (\"first name\")");
    assert_eq!(i.indexed_columns, vec!["first name".to_owned()]);
    assert_eq!(i.root_page, 4);
    assert_eq!(i.table, "t");
}

#[test]
fn partial_index_info() {
    let p = PartialIndexInfo::new(1, "i".to_owned(), 1, "c".to_owned(), 0);
    assert!(p.unique);
    assert!(!PartialIndexInfo::new(1, "i".to_owned(), 0, "c".to_owned(), 0).unique);
    assert_eq!(p.seq, 1);
}

#[test]
fn foreign_key_row() {
    let k = ForeignKeysInfo::new(0, 1, "parent".to_owned(), "a".to_owned(), "x".to_owned(), "CASCADE", "SET NULL", "MATCH FULL").unwrap();
    assert_eq!(k.on_update, ForeignKeyAction::Cascade);
    assert_eq!(k.on_delete, ForeignKeyAction::SetNull);
    assert_eq!(k.match_action, MatchAction::Full);
    assert_eq!(k.table, "parent");
    assert_eq!((k.id, k.seq), (0, 1));
    assert_eq!(
        ForeignKeysInfo::new(0, 1, "p".to_owned(), "a".to_owned(), "x".to_owned(), "CASCADE", "?", "NONE"),
        Err(SchemaError::MalformedSentinel(CatalogField::ReferentialAction))
    );
    assert_eq!(
        ForeignKeysInfo::new(0, 1, "p".to_owned(), "a".to_owned(), "x".to_owned(), "", "CASCADE", "NONE"),
        Err(SchemaError::MalformedSentinel(CatalogField::ReferentialAction))
    );
}

#[test]
fn match_actions() {
    assert_eq!(MatchAction::parse("MATCH SIMPLE"), MatchAction::Simple);
    assert_eq!(MatchAction::parse("MATCH PARTIAL"), MatchAction::Partial);
    assert_eq!(MatchAction::parse("MATCH FULL"), MatchAction::Full);
    assert_eq!(MatchAction::parse("MATCH NONE"), MatchAction::NoMatch);
    assert_eq!(MatchAction::parse("NONE"), MatchAction::NoMatch);
    assert_eq!(MatchAction::default(), MatchAction::NoMatch);
}
