use schema_discovery::error::{CatalogField, SchemaError};
use schema_discovery::postgres::def::{
    ArbitraryPrecisionNumericAttr, ColumnExpression, ColumnInfo, ForeignKeyAction, NotNull,
    PrimaryKey, References, Type, Unique,
};
use schema_discovery::postgres::parser::{
    parse_column_query_reulst, parse_column_type, parse_numeric_attributes, parse_type_name,
    parse_unique_query_result_vecs, parse_unique_query_results, yes_or_no_to_bool,
};
use schema_discovery::postgres::query::constraints::{TableConstraintsField, UniqueQueryResult};
use schema_discovery::postgres::query::{ColumnQueryResult, SchemaQueryBuilder};
use schema_discovery::postgres::Postgres;
use schema_discovery::probe::SchemaProbe;
use sea_query::{PostgresQueryBuilder, Query};

fn column_row(column_type: &str) -> ColumnQueryResult {
    ColumnQueryResult {
        column_name: "price".to_owned(),
        column_type: column_type.to_owned(),
        column_default: Some("0".to_owned()),
        column_generated: None,
        is_nullable: "NO".to_owned(),
        numeric_precision: Some(10),
        numeric_precision_radix: Some(10),
        numeric_scale: Some(2),
    }
}

fn unique_row(name: &str, column: &str, position: i32) -> UniqueQueryResult {
    UniqueQueryResult {
        constraint_schema: "public".to_owned(),
        constraint_name: name.to_owned(),
        table_name: "t".to_owned(),
        column_name: column.to_owned(),
        ordinal_position: position,
    }
}

#[test]
fn type_names() {
    assert_eq!(parse_type_name("smallint"), Type::SmallInt);
    assert_eq!(parse_type_name("INT2"), Type::SmallInt);
    assert_eq!(parse_type_name("int4"), Type::Integer);
    assert_eq!(parse_type_name("Integer"), Type::Integer);
    assert_eq!(parse_type_name("int8"), Type::BigInt);
    assert_eq!(parse_type_name("decimal"), Type::Decimal(ArbitraryPrecisionNumericAttr::default()));
    assert_eq!(parse_type_name("numeric"), Type::Numeric(ArbitraryPrecisionNumericAttr::default()));
    assert_eq!(parse_type_name("float4"), Type::Real);
    assert_eq!(parse_type_name("double precision"), Type::DoublePrecision);
    assert_eq!(parse_type_name("DOUBLE PRECISION"), Type::DoublePrecision);
    assert_eq!(parse_type_name("float8"), Type::DoublePrecision);
    assert_eq!(parse_type_name("serial2"), Type::SmallSerial);
    assert_eq!(parse_type_name("serial"), Type::Serial);
    assert_eq!(parse_type_name("bigserial"), Type::BigSerial);
    assert_eq!(parse_type_name("Box"), Type::Unknown("Box is unknown or unimplemented".to_owned()));
    assert_eq!(parse_type_name(""), Type::Unknown(" is unknown or unimplemented".to_owned()));
}

#[test]
fn column_types() {
    assert_eq!(
        parse_column_type(&column_row("numeric")),
        Type::Numeric(ArbitraryPrecisionNumericAttr { precision: Some(10), scale: Some(2) })
    );
    assert_eq!(parse_column_type(&column_row("double precision")), Type::DoublePrecision);
    assert_eq!(parse_column_type(&column_row("integer")), Type::Integer);
    assert_eq!(parse_column_type(&column_row("")), Type::Unknown("".to_owned()));
    assert_eq!(
        parse_column_type(&column_row("character varying(20)")),
        Type::Unknown("character is unknown or unimplemented".to_owned())
    );
    assert_eq!(
        parse_column_type(&column_row("\"char\"")),
        Type::Unknown(" is unknown or unimplemented".to_owned())
    );
}

#[test]
fn numeric_attributes_are_filled_in() {
    let empty = ArbitraryPrecisionNumericAttr::default();
    assert_eq!(
        parse_numeric_attributes(Some(12), Some(10), Some(4), Type::Decimal(empty)),
        Ok(Type::Decimal(ArbitraryPrecisionNumericAttr { precision: Some(12), scale: Some(4) }))
    );
    assert_eq!(
        parse_numeric_attributes(Some(-1), None, Some(70000), Type::Numeric(empty)),
        Ok(Type::Numeric(ArbitraryPrecisionNumericAttr { precision: None, scale: None }))
    );
    assert_eq!(
        parse_numeric_attributes(Some(65535), None, Some(0), Type::Numeric(empty)),
        Ok(Type::Numeric(ArbitraryPrecisionNumericAttr { precision: Some(65535), scale: Some(0) }))
    );
}

#[test]
fn numeric_attributes_on_another_type_are_a_contract_violation() {
    assert_eq!(
        parse_numeric_attributes(Some(1), None, Some(1), Type::Integer),
        Err(SchemaError::InternalContractViolation)
    );
    assert_eq!(
        parse_numeric_attributes(None, None, None, Type::Unknown("x".to_owned())),
        Err(SchemaError::InternalContractViolation)
    );
}

#[test]
fn yes_or_no() {
    assert_eq!(yes_or_no_to_bool("YES"), Ok(true));
    assert_eq!(yes_or_no_to_bool("yes"), Ok(true));
    assert_eq!(yes_or_no_to_bool("NO"), Ok(false));
    assert_eq!(yes_or_no_to_bool(""), Err(SchemaError::MalformedSentinel(CatalogField::IsNullable)));
    assert_eq!(yes_or_no_to_bool("Y"), Err(SchemaError::MalformedSentinel(CatalogField::IsNullable)));
}

#[test]
fn column_with_its_unique_constraints() {
    let c = parse_column_query_reulst(
        column_row("numeric"),
        vec![
            vec![unique_row("u1", "price", 1)],
            vec![unique_row("u2", "shop", 1), unique_row("u2", "price", 2)],
        ],
    )
    .unwrap();
    assert_eq!(
        c,
        ColumnInfo {
            name: "price".to_owned(),
            col_type: Type::Numeric(ArbitraryPrecisionNumericAttr {
                precision: Some(10),
                scale: Some(2)
            }),
            default: ColumnExpression::from_option_string(Some("0".to_owned())),
            generated: None,
            not_null: Some(NotNull),
            unique: Some(vec![
                Unique(vec!["price".to_owned()]),
                Unique(vec!["shop".to_owned(), "price".to_owned()]),
            ]),
            primary_key: None,
            references: None,
        }
    );
}

#[test]
fn nullable_column_without_constraints() {
    let mut r = column_row("bigint");
    r.is_nullable = "YES".to_owned();
    r.column_generated = Some("a * 2".to_owned());
    let c = parse_column_query_reulst(r, vec![]).unwrap();
    assert_eq!(c.not_null, None);
    assert_eq!(c.unique, None);
    assert_eq!(c.generated, Some(ColumnExpression("a * 2".to_owned())));
    assert_eq!(NotNull::from_bool(true), Some(NotNull));
    assert_eq!(NotNull::from_bool(false), None);
    assert_eq!(ColumnExpression::from_option_string(None), None);
}

#[test]
fn a_unique_constraint_that_cannot_be_read_is_an_error() {
    let mut r = column_row("bigint");
    r.is_nullable = "perhaps".to_owned();
    assert_eq!(
        parse_column_query_reulst(r, vec![vec![]]),
        Err(SchemaError::MalformedSentinel(CatalogField::IsNullable))
    );
    assert_eq!(
        parse_column_query_reulst(column_row("bigint"), vec![vec![unique_row("u", "a", 1)], vec![]]),
        Err(SchemaError::StructuralViolation)
    );
    assert_eq!(
        parse_unique_query_result_vecs(vec![vec![unique_row("u", "a", 0)]]),
        Err(SchemaError::MalformedSentinel(CatalogField::OrdinalPosition))
    );
    assert_eq!(parse_unique_query_result_vecs(vec![]), Ok(None));
}

#[test]
fn unique_rows_must_be_of_one_constraint_and_in_order() {
    assert_eq!(
        parse_unique_query_results(vec![unique_row("u", "a", 1), unique_row("u", "b", 2), unique_row("u", "c", 5)]),
        Ok(Unique(vec!["a".to_owned(), "b".to_owned(), "c".to_owned()]))
    );
    assert_eq!(
        parse_unique_query_results(vec![unique_row("u", "a", 2), unique_row("u", "b", 1)]),
        Err(SchemaError::StructuralViolation)
    );
    assert_eq!(
        parse_unique_query_results(vec![unique_row("u", "a", 1), unique_row("u", "b", 1)]),
        Err(SchemaError::StructuralViolation)
    );
    assert_eq!(
        parse_unique_query_results(vec![unique_row("u", "a", 1), unique_row("v", "b", 1)]),
        Err(SchemaError::StructuralViolation)
    );
    assert_eq!(parse_unique_query_results(vec![]), Err(SchemaError::StructuralViolation));
    assert_eq!(
        parse_unique_query_results(vec![unique_row("u", "a", 1), unique_row("u", "b", -3)]),
        Err(SchemaError::MalformedSentinel(CatalogField::OrdinalPosition))
    );
}

#[test]
fn primary_key_and_unique_are_written_as_indexes() {
    let primary = PrimaryKey(vec!["a".to_owned(), "b".to_owned()]).write();
    assert!(primary.is_primary_key());
    assert!(!primary.is_unique_key());
    assert_eq!(primary.get_index_spec().get_column_names(), vec!["a".to_owned(), "b".to_owned()]);
    let unique = Unique(vec!["c".to_owned()]).write();
    assert!(unique.is_unique_key());
    assert!(!unique.is_primary_key());
    assert_eq!(unique.get_index_spec().get_column_names(), vec!["c".to_owned()]);
}

#[test]
fn references_are_written_as_a_foreign_key() {
    let key = References {
        columns: vec!["a".to_owned(), "b".to_owned()],
        table: "parent".to_owned(),
        foreign_columns: vec!["x".to_owned(), "y".to_owned()],
        on_update: Some(ForeignKeyAction::Cascade),
        on_delete: Some(ForeignKeyAction::SetNull),
    }
    .write();
    let fk = key.get_foreign_key();
    assert_eq!(fk.get_columns(), vec!["a".to_owned(), "b".to_owned()]);
    assert_eq!(fk.get_ref_columns(), vec!["x".to_owned(), "y".to_owned()]);
    assert_eq!(
        Query::select().from(fk.get_ref_table().unwrap().clone()).to_string(PostgresQueryBuilder),
        "SELECT  FROM \"parent\""
    );
    assert!(matches!(fk.get_on_update(), Some(sea_query::ForeignKeyAction::Cascade)));
    assert!(matches!(fk.get_on_delete(), Some(sea_query::ForeignKeyAction::SetNull)));
}

#[test]
fn references_without_actions() {
    let key = References {
        columns: vec!["a".to_owned()],
        table: "parent".to_owned(),
        foreign_columns: vec!["x".to_owned()],
        on_update: None,
        on_delete: Some(ForeignKeyAction::NoAction),
    }
    .write();
    let fk = key.get_foreign_key();
    assert!(fk.get_on_update().is_none());
    assert!(matches!(fk.get_on_delete(), Some(sea_query::ForeignKeyAction::NoAction)));
    for (action, name) in [
        (ForeignKeyAction::Restrict, "Restrict"),
        (ForeignKeyAction::SetDefault, "SetDefault"),
        (ForeignKeyAction::SetNull, "SetNull"),
        (ForeignKeyAction::Cascade, "Cascade"),
        (ForeignKeyAction::NoAction, "NoAction"),
    ] {
        let key = References {
            columns: vec![],
            table: "p".to_owned(),
            foreign_columns: vec![],
            on_update: Some(action),
            on_delete: None,
        }
        .write();
        assert_eq!(key.get_foreign_key().get_on_update().unwrap().variant_name(), name);
        assert!(key.get_foreign_key().get_on_delete().is_none());
    }
}

#[test]
fn constraints_query() {
    assert_eq!(TableConstraintsField::InitiallyDeferred.name(), "initially_deferred");
    assert_eq!(
        SchemaQueryBuilder::query_constriants("public", "actor").to_string(PostgresQueryBuilder),
        [
            r#"SELECT "constriant_schema", "constraint_name", "constraint_type", "is_deferrable", "initially_deferred""#,
            r#"FROM "information_schema"."table_constraints""#,
            r#"WHERE "table_schema" = 'public' AND "table_name" = 'actor'"#,
        ]
        .join(" ")
    );
}

#[test]
fn tables_query() {
    assert_eq!(
        Query::select().expr(Postgres::get_current_schema()).to_string(PostgresQueryBuilder),
        "SELECT CURRENT_SCHEMA()"
    );
    assert_eq!(
        Postgres::query_tables().to_string(PostgresQueryBuilder),
        [
            r#"SELECT "table_name" AS "table_name""#,
            r#"FROM "information_schema"."tables""#,
            r#"WHERE (CURRENT_SCHEMA()) = "tables"."table_schema" AND "table_type" = 'BASE TABLE'"#,
        ]
        .join(" ")
    );
}
