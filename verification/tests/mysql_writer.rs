use schema_discovery::mysql::def::{
    CharSet, Collation, ForeignKeyAction, ForeignKeyInfo, IndexInfo, IndexOrder, IndexType,
    StorageEngine, TableDef, TableInfo,
};
use schema_discovery::postgres::def::{Check, Constraint, NotNull, PrimaryKey, References, Unique};
use schema_discovery::postgres::writer::constraints::ConstraintStatement;
use sea_query::{
    ForeignKeyStatement, IndexStatement, MysqlQueryBuilder, SchemaStatement, TableStatement,
};

fn index(name: &str, unique: bool, idx_type: IndexType, columns: &[&str]) -> IndexInfo {
    IndexInfo {
        unique,
        name: name.to_owned(),
        columns: columns.iter().map(|c| c.to_string()).collect(),
        order: IndexOrder::Ascending,
        sub_part: None,
        nullable: false,
        idx_type,
        comment: "".to_owned(),
        functional: false,
    }
}

fn foreign_key() -> ForeignKeyInfo {
    ForeignKeyInfo {
        name: "fk_film_language".to_owned(),
        columns: vec!["language_id".to_owned(), "dialect".to_owned()],
        referenced_table: "language".to_owned(),
        referenced_columns: vec!["id".to_owned(), "dialect".to_owned()],
        on_update: ForeignKeyAction::Cascade,
        on_delete: ForeignKeyAction::Restrict,
    }
}

#[test]
fn index_statement() {
    assert_eq!(
        index("idx_title", false, IndexType::BTree, &["title", "year"])
            .write("film")
            .to_string(MysqlQueryBuilder),
        "CREATE INDEX `idx_title` ON `film` (`title`, `year`)"
    );
    assert_eq!(
        index("idx_code", true, IndexType::Hash, &["code"]).write("film").to_string(MysqlQueryBuilder),
        "CREATE UNIQUE INDEX `idx_code` ON `film` (`code`)"
    );
    assert_eq!(
        index("idx_text", false, IndexType::FullText, &["body"])
            .write("film")
            .to_string(MysqlQueryBuilder),
        "CREATE FULLTEXT INDEX `idx_text` ON `film` (`body`)"
    );
    let primary = index("PRIMARY", true, IndexType::BTree, &["id"]).write("film");
    assert!(primary.is_primary_key());
    assert!(primary.is_unique_key());
    assert_eq!(primary.get_index_spec().get_name(), Some("PRIMARY"));
    assert!(!index("primary", true, IndexType::BTree, &["id"]).write("film").is_primary_key());
}

#[test]
fn foreign_key_statement() {
    assert_eq!(
        foreign_key().write("film").to_string(MysqlQueryBuilder),
        [
            "ALTER TABLE `film` ADD CONSTRAINT `fk_film_language`",
            "FOREIGN KEY (`language_id`, `dialect`) REFERENCES `language` (`id`, `dialect`)",
            "ON DELETE RESTRICT ON UPDATE CASCADE",
        ]
        .join(" ")
    );
}

#[test]
fn table_then_indexes_then_foreign_keys() {
    let mut statements = Vec::new();
    TableDef {
        info: TableInfo {
            name: "film".to_owned(),
            engine: StorageEngine::InnoDb,
            auto_increment: None,
            char_set: CharSet::Utf8Mb4,
            collation: Collation::Utf8Mb4GeneralCi,
            comment: "".to_owned(),
        },
        columns: vec![],
        indexes: vec![
            index("idx_b", false, IndexType::BTree, &["b"]),
            index("idx_a", true, IndexType::BTree, &["a"]),
        ],
        foreign_keys: vec![foreign_key()],
    }
    .write(&mut statements);
    let text: Vec<String> = statements
        .iter()
        .map(|s| match s {
            SchemaStatement::TableStatement(TableStatement::Create(s)) => s.to_string(MysqlQueryBuilder),
            SchemaStatement::IndexStatement(IndexStatement::Create(s)) => s.to_string(MysqlQueryBuilder),
            SchemaStatement::ForeignKeyStatement(ForeignKeyStatement::Create(s)) => {
                s.to_string(MysqlQueryBuilder)
            }
            _ => "".to_owned(),
        })
        .collect();
    assert_eq!(
        text,
        vec![
            "CREATE TABLE `film` ENGINE=InnoDB DEFAULT CHARSET=utf8mb4 COLLATE=utf8mb4_general_ci".to_owned(),
            "CREATE INDEX `idx_b` ON `film` (`b`)".to_owned(),
            "CREATE UNIQUE INDEX `idx_a` ON `film` (`a`)".to_owned(),
            [
                "ALTER TABLE `film` ADD CONSTRAINT `fk_film_language`",
                "FOREIGN KEY (`language_id`, `dialect`) REFERENCES `language` (`id`, `dialect`)",
                "ON DELETE RESTRICT ON UPDATE CASCADE",
            ]
            .join(" "),
        ]
    );
}

#[test]
fn each_constraint_writes_itself() {
    match Constraint::PrimaryKey(PrimaryKey(vec!["id".to_owned()])).write() {
        Some(ConstraintStatement::Index(idx)) => {
            assert!(idx.is_primary_key());
            assert_eq!(idx.get_index_spec().get_column_names(), vec!["id".to_owned()]);
        }
        _ => panic!("a primary key is written as an index"),
    }
    match Constraint::Unique(Unique(vec!["a".to_owned(), "b".to_owned()])).write() {
        Some(ConstraintStatement::Index(idx)) => {
            assert!(idx.is_unique_key());
            assert_eq!(idx.get_index_spec().get_column_names(), vec!["a".to_owned(), "b".to_owned()]);
        }
        _ => panic!("a unique constraint is written as an index"),
    }
    let reference = References {
        columns: vec!["a".to_owned()],
        table: "parent".to_owned(),
        foreign_columns: vec!["x".to_owned()],
        on_update: None,
        on_delete: None,
    };
    match Constraint::References(reference).write() {
        Some(ConstraintStatement::ForeignKey(key)) => {
            assert_eq!(key.get_foreign_key().get_columns(), vec!["a".to_owned()]);
            assert_eq!(key.get_foreign_key().get_ref_columns(), vec!["x".to_owned()]);
        }
        _ => panic!("a reference is written as a foreign key"),
    }
    assert!(Constraint::NotNull(NotNull).write().is_none());
    assert!(Constraint::Check(Check { expr: "a > 0".to_owned(), no_inherit: false }).write().is_none());
}
