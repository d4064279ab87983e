use schema_discovery::error::{CatalogField, RowError, SchemaError};
use schema_discovery::mysql::def::{ForeignKeyAction, ForeignKeyInfo};
use schema_discovery::mysql::parser::{
    parse_foreign_key_query_result, parse_foreign_key_query_results,
};
use schema_discovery::mysql::query::ForeignKeyQueryResult;

fn row(name: &str, column: &str, referenced: &str, update: &str, delete: &str) -> ForeignKeyQueryResult {
    ForeignKeyQueryResult {
        constraint_name: name.to_owned(),
        column_name: column.to_owned(),
        referenced_table_name: "parent".to_owned(),
        referenced_column_name: referenced.to_owned(),
        update_rule: update.to_owned(),
        delete_rule: delete.to_owned(),
    }
}

#[test]
fn composite_foreign_key_is_one_key() {
    let out = parse_foreign_key_query_results(vec![
        row("fk_ab", "a", "x", "CASCADE", "RESTRICT"),
        row("fk_ab", "b", "y", "CASCADE", "RESTRICT"),
        row("fk_c", "c", "z", "NO ACTION", "SET NULL"),
    ]);
    assert_eq!(
        out,
        vec![
            Ok(ForeignKeyInfo {
                name: "fk_ab".to_owned(),
                columns: vec!["a".to_owned(), "b".to_owned()],
                referenced_table: "parent".to_owned(),
                referenced_columns: vec!["x".to_owned(), "y".to_owned()],
                on_update: ForeignKeyAction::Cascade,
                on_delete: ForeignKeyAction::Restrict,
            }),
            Ok(ForeignKeyInfo {
                name: "fk_c".to_owned(),
                columns: vec!["c".to_owned()],
                referenced_table: "parent".to_owned(),
                referenced_columns: vec!["z".to_owned()],
                on_update: ForeignKeyAction::NoAction,
                on_delete: ForeignKeyAction::SetNull,
            }),
        ]
    );
}

#[test]
fn unknown_rule_is_an_error_in_its_place() {
    let out = parse_foreign_key_query_results(vec![
        row("fk_a", "a", "x", "SET DEFAULT", "CASCADE"),
        row("fk_b", "b", "y", "EXPLODE", "CASCADE"),
        row("fk_c", "c", "z", "CASCADE", "CASCADE"),
    ]);
    assert_eq!(out.len(), 3);
    assert_eq!(
        out[0],
        Err(RowError { row: 1, error: SchemaError::MalformedSentinel(CatalogField::ReferentialAction) })
    );
    assert_eq!(out[1].clone().unwrap().on_update, ForeignKeyAction::SetDefault);
    assert_eq!(out[2].clone().unwrap().name, "fk_c");
    assert_eq!(
        parse_foreign_key_query_result(row("fk", "a", "x", "CASCADE", "cascade")),
        Err(SchemaError::MalformedSentinel(CatalogField::ReferentialAction))
    );
}

#[test]
fn actions_decode() {
    assert_eq!(ForeignKeyAction::parse("NO ACTION"), Ok(ForeignKeyAction::NoAction));
    assert_eq!(ForeignKeyAction::parse("RESTRICT"), Ok(ForeignKeyAction::Restrict));
    assert_eq!(ForeignKeyAction::parse("SET NULL"), Ok(ForeignKeyAction::SetNull));
    assert_eq!(ForeignKeyAction::parse("SET DEFAULT"), Ok(ForeignKeyAction::SetDefault));
    assert_eq!(ForeignKeyAction::parse("CASCADE"), Ok(ForeignKeyAction::Cascade));
    assert_eq!(
        ForeignKeyAction::parse(""),
        Err(SchemaError::MalformedSentinel(CatalogField::ReferentialAction))
    );
    assert_eq!(ForeignKeyAction::default(), ForeignKeyAction::NoAction);
}
