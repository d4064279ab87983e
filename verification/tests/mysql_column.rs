use schema_discovery::error::{CatalogField, SchemaError};
use schema_discovery::mysql::def::{
    CharSet, Collation, ColumnDefault, ColumnExtra, ColumnFields, ColumnInfo, ColumnKey,
    KeyColumnUsage, NumericAttr, ReferentialConstraints, StorageEngine, StringAttr, TableDef,
    TableInfo, Type,
};
use schema_discovery::mysql::parser::{parse_column_extra, parse_column_query_result};
use schema_discovery::mysql::query::{ColumnQueryResult, SchemaQuery};
use sea_query::{MysqlQueryBuilder, SchemaStatement, TableStatement};

fn column_row() -> ColumnQueryResult {
    ColumnQueryResult {
        column_name: "actor_id".to_owned(),
        column_type: "smallint unsigned".to_owned(),
        is_nullable: "NO".to_owned(),
        column_key: "PRI".to_owned(),
        column_default: None,
        extra: "auto_increment".to_owned(),
        generation_expression: Some("".to_owned()),
        column_comment: "the key".to_owned(),
    }
}

fn no_extra() -> ColumnExtra {
    ColumnExtra {
        auto_increment: false,
        on_update_current_timestamp: false,
        generated: false,
        default_generated: false,
    }
}

#[test]
fn column_row_decodes() {
    assert_eq!(
        parse_column_query_result(column_row()),
        Ok(ColumnInfo {
            name: "actor_id".to_owned(),
            col_type: Type::SmallInt(NumericAttr {
                maximum: None,
                decimal: None,
                unsigned: Some(true),
                zero_fill: None,
            }),
            null: false,
            key: ColumnKey::Primary,
            default: None,
            extra: ColumnExtra { auto_increment: true, ..no_extra() },
            expression: None,
            comment: "the key".to_owned(),
        })
    );
}

#[test]
fn column_row_with_default_and_generation() {
    let mut r = column_row();
    r.is_nullable = "YES".to_owned();
    r.column_key = "".to_owned();
    r.column_default = Some("CURRENT_TIMESTAMP".to_owned());
    r.extra = "DEFAULT_GENERATED on update CURRENT_TIMESTAMP".to_owned();
    r.generation_expression = Some("a + b".to_owned());
    r.column_type = "point".to_owned();
    let c = parse_column_query_result(r).unwrap();
    assert!(c.null);
    assert_eq!(c.key, ColumnKey::NotKey);
    assert_eq!(c.default, Some(ColumnDefault { expr: "CURRENT_TIMESTAMP".to_owned() }));
    assert_eq!(
        c.extra,
        ColumnExtra { default_generated: true, on_update_current_timestamp: true, ..no_extra() }
    );
    assert_eq!(c.expression, Some("a + b".to_owned()));
    assert_eq!(c.col_type, Type::Unknown("point is unknown or unimplemented".to_owned()));
}

#[test]
fn column_sentinels_outside_their_set_are_errors() {
    let mut r = column_row();
    r.is_nullable = "MAYBE".to_owned();
    assert_eq!(
        parse_column_query_result(r),
        Err(SchemaError::MalformedSentinel(CatalogField::IsNullable))
    );
    let mut r = column_row();
    r.column_key = "KEY".to_owned();
    assert_eq!(
        parse_column_query_result(r),
        Err(SchemaError::MalformedSentinel(CatalogField::ColumnKey))
    );
    let mut r = column_row();
    r.column_key = "UNI".to_owned();
    assert_eq!(parse_column_query_result(r).unwrap().key, ColumnKey::Unique);
    let mut r = column_row();
    r.column_key = "MUL".to_owned();
    assert_eq!(parse_column_query_result(r).unwrap().key, ColumnKey::Multiple);
}

#[test]
fn extra_flags() {
    assert_eq!(parse_column_extra(""), no_extra());
    assert_eq!(parse_column_extra("auto_increment"), ColumnExtra { auto_increment: true, ..no_extra() });
    assert_eq!(parse_column_extra("VIRTUAL GENERATED"), ColumnExtra { generated: true, ..no_extra() });
    assert_eq!(parse_column_extra("STORED GENERATED"), ColumnExtra { generated: true, ..no_extra() });
    assert_eq!(parse_column_extra("stored"), no_extra());
    assert_eq!(parse_column_extra("on update"), no_extra());
    assert_eq!(
        parse_column_extra("  invisible  on update current_timestamp auto_increment "),
        ColumnExtra { auto_increment: true, on_update_current_timestamp: true, ..no_extra() }
    );
}

#[test]
fn catalog_names() {
    assert_eq!(ColumnFields::CharacterMaximumLength.name(), "character_maximum_length");
    assert_eq!(ColumnFields::SrsId.name(), "srs_id");
    assert_eq!(KeyColumnUsage::PositionInUniqueConstraint.name(), "position_in_unique_constraint");
    assert_eq!(ReferentialConstraints::UniqueConstraintSchema.name(), "unique_constraint_schema");
    assert_eq!(StorageEngine::InnoDb.name(), "InnoDB");
    assert_eq!(StorageEngine::parse("MyISAM"), Ok(StorageEngine::MyIsam));
    assert_eq!(
        StorageEngine::parse("innodb"),
        Err(SchemaError::MalformedSentinel(CatalogField::StorageEngine))
    );
    assert_eq!(CharSet::parse("utf8mb4"), Ok(CharSet::Utf8Mb4));
    assert_eq!(CharSet::parse("klingon"), Err(SchemaError::MalformedSentinel(CatalogField::CharacterSet)));
    assert_eq!(Collation::parse(Collation::Utf8Mb40900AiCi.name()), Ok(Collation::Utf8Mb40900AiCi));
    assert_eq!(Collation::parse(""), Err(SchemaError::MalformedSentinel(CatalogField::CollationName)));
}

#[test]
fn generated_nullable_column_is_written_with_its_clauses_in_order() {
    let mut statements = Vec::new();
    TableDef {
        info: TableInfo {
            name: "t".to_owned(),
            engine: StorageEngine::Memory,
            auto_increment: None,
            char_set: CharSet::Latin1,
            collation: Collation::Latin1SwedishCi,
            comment: "".to_owned(),
        },
        columns: vec![
            ColumnInfo {
                name: "total".to_owned(),
                col_type: Type::Varchar(StringAttr {
                    length: Some(8),
                    charset: Some("ascii".to_owned()),
                    collation: None,
                }),
                null: true,
                key: ColumnKey::NotKey,
                default: Some(ColumnDefault { expr: "'x'".to_owned() }),
                extra: ColumnExtra { on_update_current_timestamp: true, ..no_extra() },
                expression: Some("a + b".to_owned()),
                comment: "".to_owned(),
            },
        ],
        indexes: vec![],
        foreign_keys: vec![],
    }
    .write(&mut statements);
    assert_eq!(statements.len(), 1);
    let sql = match &statements[0] {
        SchemaStatement::TableStatement(TableStatement::Create(s)) => s.to_string(MysqlQueryBuilder),
        _ => "".to_owned(),
    };
    assert_eq!(
        sql,
        "CREATE TABLE `t` ( `total` VARCHAR(8) CHARACTER SET ascii DEFAULT 'x' ON UPDATE CURRENT_TIMESTAMP GENERATED ALWAYS AS (a + b) ) ENGINE=MEMORY DEFAULT CHARSET=latin1 COLLATE=latin1_swedish_ci"
    );
}

#[test]
fn statements_are_put_behind_those_that_are_there() {
    let table = |name: &str| TableDef {
        info: TableInfo {
            name: name.to_owned(),
            engine: StorageEngine::InnoDb,
            auto_increment: None,
            char_set: CharSet::Utf8Mb4,
            collation: Collation::Utf8Mb4Bin,
            comment: "".to_owned(),
        },
        columns: vec![],
        indexes: vec![],
        foreign_keys: vec![],
    };
    let mut statements = Vec::new();
    table("a").write(&mut statements);
    table("b").write(&mut statements);
    let names: Vec<String> = statements
        .iter()
        .map(|s| match s {
            SchemaStatement::TableStatement(TableStatement::Create(s)) => s.to_string(MysqlQueryBuilder),
            _ => "".to_owned(),
        })
        .collect();
    assert_eq!(
        names,
        vec![
            "CREATE TABLE `a` ENGINE=InnoDB DEFAULT CHARSET=utf8mb4 COLLATE=utf8mb4_bin".to_owned(),
            "CREATE TABLE `b` ENGINE=InnoDB DEFAULT CHARSET=utf8mb4 COLLATE=utf8mb4_bin".to_owned(),
        ]
    );
}

#[test]
fn columns_query() {
    assert_eq!(
        SchemaQuery.query_columns("sakila", "actor").to_string(MysqlQueryBuilder),
        [
            "SELECT `column_name`, `column_type`, `is_nullable`, `column_key`, `column_default`,",
            "`extra`, `generation_expression`, `column_comment`",
            "FROM `information_schema`.`columns`",
            "WHERE `table_schema` = 'sakila' AND `table_name` = 'actor'",
            "ORDER BY `ordinal_position` ASC",
        ]
        .join(" ")
    );
}
