//! Tests of the pure engine: configuration resolution, the selection
//! matrix, cell conversion, assembly and the destination.

use conx::config::{configure_builder, PoolConfig};
use conx::destination::Destination;
use conx::dispatch::{assemble, RawPartition};
use conx::errors::ConnectorError;
use conx::router::{select_source, supports_pooling, Protocol, SourceKind, SourceType};
use conx::value::{convert_cell, convert_row, DestValue, TypedCell};

#[test]
fn config_defaults_match_documented_values() {
    let c = PoolConfig::default();
    assert_eq!(c.max_size, 10);
    assert_eq!(c.idle_timeout_ms, Some(300_000));
    assert_eq!(c.max_lifetime_ms, Some(1_800_000));
    assert_eq!(c.connection_timeout_ms, 30_000);
    assert!(c.test_on_check_out);
}

#[test]
fn configure_builder_applies_the_whole_policy() {
    let c = PoolConfig {
        max_size: 7,
        idle_timeout_ms: Some(1_500),
        max_lifetime_ms: Some(2_500),
        connection_timeout_ms: 100,
        test_on_check_out: true,
    };
    let s = configure_builder(&c);
    assert_eq!(s.max_size, 7);
    assert_eq!(s.idle_timeout_ms, Some(1_500));
    assert_eq!(s.max_lifetime_ms, Some(2_500));
    assert_eq!(s.connection_timeout_ms, 100);
    assert!(s.test_on_check_out);
}

#[test]
fn configure_builder_turns_unset_limits_off() {
    let c = PoolConfig {
        max_size: 3,
        idle_timeout_ms: None,
        max_lifetime_ms: None,
        connection_timeout_ms: 1_000,
        test_on_check_out: false,
    };
    let s = configure_builder(&c);
    assert_eq!(s.idle_timeout_ms, None);
    assert_eq!(s.max_lifetime_ms, None);
    assert!(!s.test_on_check_out);
}

#[test]
fn selection_matrix_accepts_the_documented_pairs() {
    assert_eq!(
        select_source(SourceType::Postgres, Protocol::Csv),
        Ok(SourceKind::PostgresCsv)
    );
    assert_eq!(
        select_source(SourceType::Postgres, Protocol::Binary),
        Ok(SourceKind::PostgresBinary)
    );
    assert_eq!(
        select_source(SourceType::Postgres, Protocol::Cursor),
        Ok(SourceKind::PostgresCursor)
    );
    assert_eq!(
        select_source(SourceType::Postgres, Protocol::Simple),
        Ok(SourceKind::PostgresSimple)
    );
    assert_eq!(
        select_source(SourceType::MySQL, Protocol::Binary),
        Ok(SourceKind::MySQLBinary)
    );
    assert_eq!(
        select_source(SourceType::MySQL, Protocol::Text),
        Ok(SourceKind::MySQLText)
    );
    assert_eq!(
        select_source(SourceType::SQLite, Protocol::Single),
        Ok(SourceKind::SQLite)
    );
    assert_eq!(
        select_source(SourceType::Oracle, Protocol::Single),
        Ok(SourceKind::Oracle)
    );
    assert_eq!(
        select_source(SourceType::MsSQL, Protocol::Single),
        Ok(SourceKind::MsSQL)
    );
    assert_eq!(
        select_source(SourceType::BigQuery, Protocol::Single),
        Ok(SourceKind::BigQuery)
    );
    assert_eq!(
        select_source(SourceType::Trino, Protocol::Single),
        Ok(SourceKind::Trino)
    );
}

#[test]
fn selection_matrix_rejects_everything_else() {
    let bad = [
        (SourceType::Postgres, Protocol::Text),
        (SourceType::Postgres, Protocol::Single),
        (SourceType::MySQL, Protocol::Csv),
        (SourceType::MySQL, Protocol::Single),
        (SourceType::SQLite, Protocol::Binary),
        (SourceType::Oracle, Protocol::Text),
        (SourceType::MsSQL, Protocol::Binary),
        (SourceType::BigQuery, Protocol::Csv),
        (SourceType::Trino, Protocol::Cursor),
    ];
    for (ty, proto) in bad {
        assert_eq!(
            select_source(ty, proto),
            Err(ConnectorError::UnsupportedBackend { backend: ty, protocol: proto })
        );
    }
}

#[test]
fn pooling_support_is_the_documented_set() {
    assert!(supports_pooling(SourceType::MySQL));
    assert!(supports_pooling(SourceType::Postgres));
    assert!(supports_pooling(SourceType::SQLite));
    assert!(supports_pooling(SourceType::Oracle));
    assert!(!supports_pooling(SourceType::MsSQL));
    assert!(!supports_pooling(SourceType::BigQuery));
    assert!(!supports_pooling(SourceType::Trino));
}

#[test]
fn cell_conversion_is_exact_per_logical_type() {
    assert_eq!(convert_cell(TypedCell::Null), Some(DestValue::Null));
    assert_eq!(convert_cell(TypedCell::Bool(true)), Some(DestValue::Bool(true)));
    assert_eq!(convert_cell(TypedCell::I32(-7)), Some(DestValue::I64(-7)));
    assert_eq!(convert_cell(TypedCell::I32(i32::MIN)), Some(DestValue::I64(-2147483648)));
    assert_eq!(convert_cell(TypedCell::I64(i64::MAX)), Some(DestValue::I64(i64::MAX)));
    assert_eq!(
        convert_cell(TypedCell::Text(String::from("abc"))),
        Some(DestValue::Text(String::from("abc")))
    );
    assert_eq!(
        convert_cell(TypedCell::Bytes(vec![1, 2, 3])),
        Some(DestValue::Bytes(vec![1, 2, 3]))
    );
    assert_eq!(convert_cell(TypedCell::Unsupported), None);
}

#[test]
fn row_conversion_reports_first_unconvertible_column() {
    let row = vec![
        TypedCell::I64(1),
        TypedCell::Unsupported,
        TypedCell::Unsupported,
    ];
    assert_eq!(convert_row(row), Err(1));
    let ok = vec![TypedCell::I64(1), TypedCell::Null];
    assert_eq!(convert_row(ok), Ok(vec![DestValue::I64(1), DestValue::Null]));
}

fn two_column_partitions() -> Vec<RawPartition> {
    vec![
        RawPartition {
            ncols: 2,
            rows: vec![
                vec![TypedCell::I64(0), TypedCell::Text(String::from("a"))],
                vec![TypedCell::I64(1), TypedCell::Text(String::from("b"))],
            ],
        },
        RawPartition {
            ncols: 2,
            rows: vec![vec![TypedCell::I64(2), TypedCell::Null]],
        },
    ]
}

#[test]
fn assemble_merges_partitions_in_order() {
    let rs = assemble(two_column_partitions()).unwrap();
    assert_eq!(rs.ncols, 2);
    assert_eq!(rs.rows.len(), 3);
    assert_eq!(rs.rows[0], vec![DestValue::I64(0), DestValue::Text(String::from("a"))]);
    assert_eq!(rs.rows[1], vec![DestValue::I64(1), DestValue::Text(String::from("b"))]);
    assert_eq!(rs.rows[2], vec![DestValue::I64(2), DestValue::Null]);
}

#[test]
fn assemble_is_independent_of_the_partitioning() {
    let whole = RawPartition {
        ncols: 2,
        rows: vec![
            vec![TypedCell::I64(0), TypedCell::Text(String::from("a"))],
            vec![TypedCell::I64(1), TypedCell::Text(String::from("b"))],
            vec![TypedCell::I64(2), TypedCell::Null],
        ],
    };
    let one = assemble(vec![whole]).unwrap();
    let two = assemble(two_column_partitions()).unwrap();
    assert_eq!(one.ncols, two.ncols);
    assert_eq!(one.rows, two.rows);
}

#[test]
fn assemble_rejects_disagreeing_column_counts_at_finalize() {
    let parts = vec![
        RawPartition { ncols: 2, rows: vec![vec![TypedCell::I64(0), TypedCell::Null]] },
        RawPartition { ncols: 3, rows: vec![] },
    ];
    assert_eq!(
        assemble(parts),
        Err(ConnectorError::SchemaMismatch { partition: 1, expected: 2, found: 3 })
    );
}

#[test]
fn assemble_reports_the_first_unconvertible_cell() {
    let parts = vec![
        RawPartition { ncols: 2, rows: vec![vec![TypedCell::I64(0), TypedCell::Null]] },
        RawPartition {
            ncols: 2,
            rows: vec![
                vec![TypedCell::I64(1), TypedCell::Null],
                vec![TypedCell::Unsupported, TypedCell::Unsupported],
            ],
        },
    ];
    assert_eq!(
        assemble(parts),
        Err(ConnectorError::Conversion { partition: 1, row: 1, column: 0 })
    );
}

#[test]
fn assemble_of_nothing_is_an_empty_result() {
    let rs = assemble(Vec::new()).unwrap();
    assert_eq!(rs.ncols, 0);
    assert_eq!(rs.rows.len(), 0);
}

#[test]
fn destination_concatenates_regions_in_partition_order() {
    let mut d = Destination::new();
    d.allocate(1, 1);
    d.allocate(2, 1);
    // Fill partition 1 before partition 0: final order must still be by
    // partition index.
    d.write_cell(1, 0, 0, DestValue::I64(10));
    d.write_cell(1, 1, 0, DestValue::I64(11));
    d.write_cell(0, 0, 0, DestValue::I64(0));
    let rs = d.finalize().unwrap();
    assert_eq!(rs.ncols, 1);
    assert_eq!(
        rs.rows,
        vec![
            vec![DestValue::I64(0)],
            vec![DestValue::I64(10)],
            vec![DestValue::I64(11)],
        ]
    );
}

#[test]
fn destination_unwritten_cells_are_null() {
    let mut d = Destination::new();
    d.allocate(1, 2);
    d.write_cell(0, 0, 0, DestValue::Bool(false));
    let rs = d.finalize().unwrap();
    assert_eq!(rs.rows, vec![vec![DestValue::Bool(false), DestValue::Null]]);
}

#[test]
fn destination_finalize_names_the_first_mismatching_partition() {
    let mut d = Destination::new();
    d.allocate(0, 2);
    d.allocate(0, 2);
    d.allocate(0, 5);
    match d.finalize() {
        Err(ConnectorError::SchemaMismatch { partition, expected, found }) => {
            assert_eq!(partition, 2);
            assert_eq!(expected, 2);
            assert_eq!(found, 5);
        },
        other => panic!("expected a schema mismatch, got {:?}", other),
    }
}

use conx::destination::ResultSet;
use conx::dispatch::merge_results;

fn ok_part(ncols: usize, rows: Vec<Vec<DestValue>>) -> Result<ResultSet, ConnectorError> {
    Ok(ResultSet { ncols, rows })
}

#[test]
fn merge_results_concatenates_in_partition_order() {
    let outcomes = vec![
        ok_part(1, vec![vec![DestValue::I64(0)], vec![DestValue::I64(1)]]),
        ok_part(1, vec![]),
        ok_part(1, vec![vec![DestValue::I64(2)]]),
    ];
    let rs = merge_results(outcomes).unwrap();
    assert_eq!(rs.ncols, 1);
    assert_eq!(
        rs.rows,
        vec![vec![DestValue::I64(0)], vec![DestValue::I64(1)], vec![DestValue::I64(2)]]
    );
}

#[test]
fn merge_results_retags_the_first_failed_partition() {
    let outcomes = vec![
        ok_part(1, vec![vec![DestValue::Null]]),
        Err(ConnectorError::QueryExecution { partition: 0, message: String::from("boom") }),
        Err(ConnectorError::Conversion { partition: 0, row: 0, column: 0 }),
    ];
    assert_eq!(
        merge_results(outcomes),
        Err(ConnectorError::QueryExecution { partition: 1, message: String::from("boom") })
    );
}

#[test]
fn merge_results_rejects_disagreeing_column_counts() {
    let outcomes = vec![
        ok_part(2, vec![vec![DestValue::Null, DestValue::Null]]),
        ok_part(3, vec![]),
    ];
    assert_eq!(
        merge_results(outcomes),
        Err(ConnectorError::SchemaMismatch { partition: 1, expected: 2, found: 3 })
    );
}

#[test]
fn merge_results_reports_problems_in_scan_order() {
    // The column-count disagreement at partition 1 comes before the failure
    // at partition 2.
    let outcomes = vec![
        ok_part(2, vec![]),
        ok_part(3, vec![]),
        Err(ConnectorError::QueryExecution { partition: 0, message: String::from("late") }),
    ];
    assert_eq!(
        merge_results(outcomes),
        Err(ConnectorError::SchemaMismatch { partition: 1, expected: 2, found: 3 })
    );
}

#[test]
fn merge_results_of_nothing_is_empty() {
    let rs = merge_results(Vec::new()).unwrap();
    assert_eq!(rs.ncols, 0);
    assert_eq!(rs.rows.len(), 0);
}

#[test]
fn result_set_well_formedness_is_checkable() {
    let good = ResultSet { ncols: 2, rows: vec![vec![DestValue::Null, DestValue::Null]] };
    assert!(good.is_wf());
    let bad = ResultSet { ncols: 2, rows: vec![vec![DestValue::Null]] };
    assert!(!bad.is_wf());
}
