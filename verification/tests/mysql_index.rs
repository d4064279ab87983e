use schema_discovery::error::{CatalogField, RowError, SchemaError};
use schema_discovery::mysql::def::{IndexInfo, IndexOrder, IndexType};
use schema_discovery::mysql::parser::{parse_index_query_result, parse_index_query_results};
use schema_discovery::mysql::query::IndexQueryResult;

fn row(non_unique: i32, index_name: &str, column_name: &str, index_type: &str) -> IndexQueryResult {
    IndexQueryResult {
        non_unique,
        index_name: index_name.to_owned(),
        column_name: Some(column_name.to_owned()),
        collation: Some("A".to_owned()),
        sub_part: None,
        nullable: "".to_owned(),
        index_type: index_type.to_owned(),
        index_comment: "".to_owned(),
        expression: None,
    }
}

#[test]
fn index_test_1() {
    assert_eq!(
        parse_index_query_results(vec![
            IndexQueryResult { non_unique: 0, index_name: "PRIMARY".to_owned(), column_name: Some("film_id".to_owned()), collation: Some("A".to_owned()), sub_part: None, nullable: "".to_owned(), index_type: "BTREE".to_owned(), index_comment: "".to_owned(), expression: None }
        ]).collect(),
        vec![Ok(IndexInfo {
            unique: true,
            name: "PRIMARY".to_owned(),
            columns: vec!["film_id".to_owned()],
            order: IndexOrder::Ascending,
            sub_part: None,
            nullable: false,
            idx_type: IndexType::BTree,
            comment: "".to_owned(),
            functional: false,
        })]
    );
}

#[test]
fn test_2() {
    assert_eq!(
        parse_index_query_results(vec![
            IndexQueryResult { non_unique: 1, index_name: "idx_title".to_owned(), column_name: Some("title".to_owned()), collation: Some("A".to_owned()), sub_part: None, nullable: "".to_owned(), index_type: "BTREE".to_owned(), index_comment: "".to_owned(), expression: None }
        ]).collect(),
        vec![Ok(IndexInfo {
            unique: false,
            name: "idx_title".to_owned(),
            columns: vec!["title".to_owned()],
            order: IndexOrder::Ascending,
            sub_part: None,
            nullable: false,
            idx_type: IndexType::BTree,
            comment: "".to_owned(),
            functional: false,
        })]
    );
}

#[test]
fn test_3() {
    assert_eq!(
        parse_index_query_results(vec![
            IndexQueryResult { non_unique: 0, index_name: "rental_date".to_owned(), column_name: Some("rental_date".to_owned()), collation: Some("A".to_owned()), sub_part: None, nullable: "".to_owned(), index_type: "BTREE".to_owned(), index_comment: "".to_owned(), expression: None },
            IndexQueryResult { non_unique: 0, index_name: "rental_date".to_owned(), column_name: Some("inventory_id".to_owned()), collation: Some("A".to_owned()), sub_part: None, nullable: "".to_owned(), index_type: "BTREE".to_owned(), index_comment: "".to_owned(), expression: None },
            IndexQueryResult { non_unique: 0, index_name: "rental_date".to_owned(), column_name: Some("customer_id".to_owned()), collation: Some("A".to_owned()), sub_part: None, nullable: "".to_owned(), index_type: "BTREE".to_owned(), index_comment: "".to_owned(), expression: None },
        ]).collect(),
        vec![Ok(IndexInfo {
            unique: true,
            name: "rental_date".to_owned(),
            columns: vec![
                "rental_date".to_owned(),
                "inventory_id".to_owned(),
                "customer_id".to_owned(),
            ],
            order: IndexOrder::Ascending,
            sub_part: None,
            nullable: false,
            idx_type: IndexType::BTree,
            comment: "".to_owned(),
            functional: false
        })]
    );
}

#[test]
fn test_4() {
    assert_eq!(
        parse_index_query_results(vec![
            IndexQueryResult { non_unique: 1, index_name: "idx_location".to_owned(), column_name: Some("location".to_owned()), collation: Some("A".to_owned()), sub_part: Some(32), nullable: "".to_owned(), index_type: "SPATIAL".to_owned(), index_comment: "".to_owned(), expression: None }
        ]).collect(),
        vec![Ok(IndexInfo {
            unique: false,
            name: "idx_location".to_owned(),
            columns: vec!["location".to_owned()],
            order: IndexOrder::Ascending,
            sub_part: Some(32),
            nullable: false,
            idx_type: IndexType::Spatial,
            comment: "".to_owned(),
            functional: false,
        })]
    );
}

#[test]
fn functional_index_row() {
    let mut r = row(1, "idx_lower", "x", "SPATIAL");
    r.column_name = None;
    r.expression = Some("lower(location)".to_owned());
    let info = parse_index_query_result(r).unwrap();
    assert!(info.functional);
    assert_eq!(info.idx_type, IndexType::Spatial);
    assert!(!info.unique);
    assert_eq!(info.columns, vec!["lower(location)".to_owned()]);
}

#[test]
fn malformed_row_does_not_stop_the_stream() {
    let out = parse_index_query_results(vec![
        row(0, "bad", "a", "UNKNOWN_METHOD"),
        row(0, "good", "b", "BTREE"),
        row(0, "good", "c", "BTREE"),
    ])
    .collect();
    assert_eq!(out.len(), 2);
    assert_eq!(
        out[0],
        Err(RowError { row: 0, error: SchemaError::MalformedSentinel(CatalogField::IndexType) })
    );
    let good = out[1].clone().unwrap();
    assert_eq!(good.name, "good");
    assert_eq!(good.columns, vec!["b".to_owned(), "c".to_owned()]);
}

#[test]
fn malformed_row_inside_a_group_is_reported_in_place() {
    let mut bad = row(7, "k", "b", "BTREE");
    bad.index_name = "k".to_owned();
    let out = parse_index_query_results(vec![row(0, "k", "a", "BTREE"), bad, row(0, "k", "c", "BTREE")])
        .collect();
    assert_eq!(out.len(), 2);
    assert_eq!(
        out[0],
        Err(RowError { row: 1, error: SchemaError::MalformedSentinel(CatalogField::NonUnique) })
    );
    assert_eq!(out[1].clone().unwrap().columns, vec!["a".to_owned(), "c".to_owned()]);
}

#[test]
fn each_malformed_field_is_named() {
    let mut r = row(0, "i", "a", "BTREE");
    r.non_unique = 2;
    assert_eq!(parse_index_query_result(r), Err(SchemaError::MalformedSentinel(CatalogField::NonUnique)));
    let mut r = row(0, "i", "a", "BTREE");
    r.column_name = None;
    assert_eq!(parse_index_query_result(r), Err(SchemaError::MalformedSentinel(CatalogField::IndexedEntity)));
    let mut r = row(0, "i", "a", "BTREE");
    r.expression = Some("a + 1".to_owned());
    assert_eq!(parse_index_query_result(r), Err(SchemaError::MalformedSentinel(CatalogField::IndexedEntity)));
    let mut r = row(0, "i", "a", "BTREE");
    r.collation = Some("X".to_owned());
    assert_eq!(parse_index_query_result(r), Err(SchemaError::MalformedSentinel(CatalogField::Collation)));
    let mut r = row(0, "i", "a", "BTREE");
    r.sub_part = Some(-1);
    assert_eq!(parse_index_query_result(r), Err(SchemaError::MalformedSentinel(CatalogField::SubPart)));
    let mut r = row(0, "i", "a", "BTREE");
    r.nullable = "yes".to_owned();
    assert_eq!(parse_index_query_result(r), Err(SchemaError::MalformedSentinel(CatalogField::IsNullable)));
    let mut r = row(0, "i", "a", "BTREE");
    r.nullable = "NO".to_owned();
    assert!(!parse_index_query_result(r).unwrap().nullable);
    let r = row(0, "i", "a", "btree");
    assert_eq!(parse_index_query_result(r), Err(SchemaError::MalformedSentinel(CatalogField::IndexType)));
}

#[test]
fn sentinels_decode() {
    let mut r = row(0, "i", "a", "FULLTEXT");
    r.collation = Some("D".to_owned());
    r.nullable = "YES".to_owned();
    let info = parse_index_query_result(r).unwrap();
    assert_eq!(info.order, IndexOrder::Descending);
    assert_eq!(info.idx_type, IndexType::FullText);
    assert!(info.nullable);
    let mut r = row(0, "i", "a", "HASH");
    r.collation = None;
    let info = parse_index_query_result(r).unwrap();
    assert_eq!(info.order, IndexOrder::Unordered);
    assert_eq!(info.idx_type, IndexType::Hash);
    assert_eq!(parse_index_query_result(row(0, "i", "a", "RTREE")).unwrap().idx_type, IndexType::RTree);
}

#[test]
fn one_index_per_name_in_row_order() {
    let out = parse_index_query_results(vec![
        row(0, "a", "a1", "BTREE"),
        row(0, "a", "a2", "BTREE"),
        row(1, "b", "b1", "BTREE"),
        row(1, "c", "c1", "HASH"),
        row(1, "c", "c2", "HASH"),
        row(1, "c", "c3", "HASH"),
    ])
    .collect();
    let names: Vec<String> = out.iter().map(|r| r.clone().unwrap().name).collect();
    assert_eq!(names, vec!["a".to_owned(), "b".to_owned(), "c".to_owned()]);
    let counts: Vec<usize> = out.iter().map(|r| r.clone().unwrap().columns.len()).collect();
    assert_eq!(counts, vec![2, 1, 3]);
    assert_eq!(
        out[2].clone().unwrap().columns,
        vec!["c1".to_owned(), "c2".to_owned(), "c3".to_owned()]
    );
}

#[test]
fn a_name_that_comes_back_is_a_structural_violation() {
    let out = parse_index_query_results(vec![
        row(0, "a", "a1", "BTREE"),
        row(0, "b", "b1", "BTREE"),
        row(0, "a", "a2", "BTREE"),
        row(0, "b", "b2", "BTREE"),
    ])
    .collect();
    assert_eq!(out.len(), 3);
    assert_eq!(out[0].clone().unwrap().columns, vec!["a1".to_owned()]);
    assert_eq!(out[1], Err(RowError { row: 2, error: SchemaError::StructuralViolation }));
    assert_eq!(out[2].clone().unwrap().columns, vec!["b1".to_owned(), "b2".to_owned()]);
}

#[test]
fn next_hands_out_one_item_at_a_time() {
    let mut parser = parse_index_query_results(vec![
        row(0, "a", "a1", "BTREE"),
        row(0, "b", "b1", "BTREE"),
        row(0, "b", "b2", "BTREE"),
    ]);
    assert_eq!(parser.next().unwrap().unwrap().name, "a");
    assert_eq!(parser.next().unwrap().unwrap().columns.len(), 2);
    assert!(parser.next().is_none());
    assert!(parser.next().is_none());
}

#[test]
fn no_rows_no_indexes() {
    assert!(parse_index_query_results(vec![]).collect().is_empty());
}
