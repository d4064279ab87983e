use schema_discovery::error::{CatalogField, RowError, SchemaError};
use schema_discovery::mysql::def::{CharSet, Collation, StorageEngine, TableInfo};
use schema_discovery::mysql::parser::{parse_table_def, RowSource, TableError};
use schema_discovery::mysql::query::{ColumnQueryResult, ForeignKeyQueryResult, IndexQueryResult};

fn info() -> TableInfo {
    TableInfo {
        name: "film".to_owned(),
        engine: StorageEngine::InnoDb,
        auto_increment: Some(1001),
        char_set: CharSet::Utf8Mb4,
        collation: Collation::Utf8Mb40900AiCi,
        comment: "".to_owned(),
    }
}

fn column(name: &str, is_nullable: &str) -> ColumnQueryResult {
    ColumnQueryResult {
        column_name: name.to_owned(),
        column_type: "int".to_owned(),
        is_nullable: is_nullable.to_owned(),
        column_key: "".to_owned(),
        column_default: None,
        extra: "".to_owned(),
        generation_expression: None,
        column_comment: "".to_owned(),
    }
}

fn index(name: &str, column: &str, index_type: &str) -> IndexQueryResult {
    IndexQueryResult {
        non_unique: 1,
        index_name: name.to_owned(),
        column_name: Some(column.to_owned()),
        collation: Some("A".to_owned()),
        sub_part: None,
        nullable: "".to_owned(),
        index_type: index_type.to_owned(),
        index_comment: "".to_owned(),
        expression: None,
    }
}

fn foreign_key(name: &str, column: &str, rule: &str) -> ForeignKeyQueryResult {
    ForeignKeyQueryResult {
        constraint_name: name.to_owned(),
        column_name: column.to_owned(),
        referenced_table_name: "language".to_owned(),
        referenced_column_name: "id".to_owned(),
        update_rule: rule.to_owned(),
        delete_rule: "CASCADE".to_owned(),
    }
}

#[test]
fn complete_table() {
    let table = parse_table_def(
        info(),
        vec![column("id", "NO"), column("title", "YES"), column("language_id", "NO")],
        vec![index("PRIMARY", "id", "BTREE"), index("idx", "title", "BTREE"), index("idx", "id", "BTREE")],
        vec![foreign_key("fk", "language_id", "RESTRICT")],
    )
    .unwrap();
    assert_eq!(table.info, info());
    let names: Vec<&str> = table.columns.iter().map(|c| c.name.as_str()).collect();
    assert_eq!(names, vec!["id", "title", "language_id"]);
    assert_eq!(table.indexes.len(), 2);
    assert_eq!(table.indexes[1].columns, vec!["title".to_owned(), "id".to_owned()]);
    assert_eq!(table.foreign_keys.len(), 1);
    assert_eq!(table.foreign_keys[0].referenced_columns, vec!["id".to_owned()]);
}

#[test]
fn every_row_in_error_is_listed() {
    let errors = parse_table_def(
        info(),
        vec![column("id", "NO"), column("title", "?"), column("id", "NO")],
        vec![index("a", "x", "BTREE"), index("b", "y", "TREE"), index("a", "z", "BTREE")],
        vec![foreign_key("fk", "language_id", "NEVER")],
    )
    .unwrap_err();
    assert_eq!(
        errors,
        vec![
            TableError {
                source: RowSource::Columns,
                row: RowError { row: 1, error: SchemaError::MalformedSentinel(CatalogField::IsNullable) },
            },
            TableError {
                source: RowSource::Columns,
                row: RowError { row: 2, error: SchemaError::StructuralViolation },
            },
            TableError {
                source: RowSource::Indexes,
                row: RowError { row: 1, error: SchemaError::MalformedSentinel(CatalogField::IndexType) },
            },
            TableError {
                source: RowSource::ForeignKeys,
                row: RowError {
                    row: 0,
                    error: SchemaError::MalformedSentinel(CatalogField::ReferentialAction),
                },
            },
        ]
    );
}

#[test]
fn an_index_name_that_comes_back_is_listed() {
    let errors = parse_table_def(
        info(),
        vec![],
        vec![index("a", "x", "BTREE"), index("b", "y", "BTREE"), index("a", "z", "BTREE")],
        vec![],
    )
    .unwrap_err();
    assert_eq!(
        errors,
        vec![TableError {
            source: RowSource::Indexes,
            row: RowError { row: 2, error: SchemaError::StructuralViolation },
        }]
    );
}

#[test]
fn a_table_without_rows_is_empty() {
    let table = parse_table_def(info(), vec![], vec![], vec![]).unwrap();
    assert!(table.columns.is_empty() && table.indexes.is_empty() && table.foreign_keys.is_empty());
}
