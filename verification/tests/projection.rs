//! Tests for the column-type mapping tables and the row projector.

use jdbd_bridge::CellValue;
use jdbd_bridge::ColumnShape;
use jdbd_bridge::MysqlColumnType;
use jdbd_bridge::ProjectionError;
use jdbd_bridge::assemble_row;
use jdbd_bridge::mysql_target_shape;
use jdbd_bridge::plan_mysql_columns;
use jdbd_bridge::plan_postgres_columns;
use jdbd_bridge::postgres_target_shape;
use jdbd_bridge::project_result;

fn names(ns: &[&str]) -> Vec<String> {
    ns.iter().map(|s| s.to_string()).collect()
}

#[test]
fn mysql_mapping_table() {
    assert_eq!(
        mysql_target_shape(MysqlColumnType::FixedString),
        Some(ColumnShape::Text)
    );
    assert_eq!(
        mysql_target_shape(MysqlColumnType::VarString),
        Some(ColumnShape::Text)
    );
    assert_eq!(
        mysql_target_shape(MysqlColumnType::VarChar),
        Some(ColumnShape::Text)
    );
    assert_eq!(
        mysql_target_shape(MysqlColumnType::Int24),
        Some(ColumnShape::Integer64)
    );
    assert_eq!(
        mysql_target_shape(MysqlColumnType::Long),
        Some(ColumnShape::Integer64)
    );
    assert_eq!(
        mysql_target_shape(MysqlColumnType::LongLong),
        Some(ColumnShape::Integer64)
    );
    assert_eq!(
        mysql_target_shape(MysqlColumnType::Float),
        Some(ColumnShape::Double)
    );
    assert_eq!(
        mysql_target_shape(MysqlColumnType::Double),
        Some(ColumnShape::Double)
    );
    assert_eq!(
        mysql_target_shape(MysqlColumnType::Blob),
        Some(ColumnShape::ByteBlob)
    );
    assert_eq!(
        mysql_target_shape(MysqlColumnType::TinyBlob),
        Some(ColumnShape::ByteBlob)
    );
    assert_eq!(
        mysql_target_shape(MysqlColumnType::MediumBlob),
        Some(ColumnShape::ByteBlob)
    );
    assert_eq!(
        mysql_target_shape(MysqlColumnType::LongBlob),
        Some(ColumnShape::ByteBlob)
    );
    assert_eq!(mysql_target_shape(MysqlColumnType::Geometry), None);
    assert_eq!(mysql_target_shape(MysqlColumnType::Date), None);
    assert_eq!(mysql_target_shape(MysqlColumnType::Decimal), None);
    assert_eq!(mysql_target_shape(MysqlColumnType::Json), None);
}

#[test]
fn postgres_mapping_table() {
    assert_eq!(postgres_target_shape("text"), Some(ColumnShape::Text));
    assert_eq!(postgres_target_shape("varchar"), Some(ColumnShape::Text));
    assert_eq!(postgres_target_shape("bytea"), Some(ColumnShape::Text));
    assert_eq!(postgres_target_shape("int8"), Some(ColumnShape::Integer64));
    assert_eq!(postgres_target_shape("int2"), Some(ColumnShape::Integer64));
    assert_eq!(postgres_target_shape("int4"), Some(ColumnShape::Integer64));
    assert_eq!(
        postgres_target_shape("numeric"),
        Some(ColumnShape::Integer64)
    );
    assert_eq!(postgres_target_shape("float4"), Some(ColumnShape::Double));
    assert_eq!(postgres_target_shape("float8"), Some(ColumnShape::Double));
    assert_eq!(postgres_target_shape("_bytea"), Some(ColumnShape::ByteBlob));
    assert_eq!(postgres_target_shape("json"), None);
    assert_eq!(postgres_target_shape("uuid"), None);
    assert_eq!(postgres_target_shape(""), None);
    assert_eq!(postgres_target_shape("TEXT"), None);
}

#[test]
fn mysql_plan_follows_column_order() {
    let tags = vec![
        MysqlColumnType::Long,
        MysqlColumnType::VarString,
        MysqlColumnType::Double,
        MysqlColumnType::Blob,
    ];
    let plan = plan_mysql_columns(&tags).unwrap();
    assert_eq!(
        plan,
        vec![
            ColumnShape::Integer64,
            ColumnShape::Text,
            ColumnShape::Double,
            ColumnShape::ByteBlob,
        ]
    );
}

#[test]
fn mysql_unknown_tag_aborts_whole_plan() {
    let tags = vec![
        MysqlColumnType::Long,
        MysqlColumnType::Geometry,
        MysqlColumnType::VarString,
    ];
    let err = plan_mysql_columns(&tags).unwrap_err();
    assert_eq!(err, ProjectionError::UnsupportedType { index: 1 });
}

#[test]
fn postgres_unknown_type_aborts_whole_plan() {
    let cols = names(&["int4", "text", "uuid", "int8"]);
    let err = plan_postgres_columns(&cols).unwrap_err();
    assert_eq!(err, ProjectionError::UnsupportedType { index: 2 });
}

#[test]
fn null_cell_stays_explicit_at_its_position() {
    let row = assemble_row(
        names(&["a", "b", "c"]),
        vec![
            ColumnShape::Integer64,
            ColumnShape::Text,
            ColumnShape::Double,
        ],
        vec![
            Some(CellValue::Integer64(5)),
            None,
            Some(CellValue::Double(3.5f64.to_bits())),
        ],
    )
    .unwrap();
    assert_eq!(row.names.len(), 3);
    assert_eq!(row.values.len(), 3);
    assert_eq!(row.shapes.len(), 3);
    assert_eq!(row.values[1], None);
    assert_eq!(row.values[0], Some(CellValue::Integer64(5)));
}

#[test]
fn assemble_rejects_length_mismatch() {
    let err = assemble_row(
        names(&["a", "b"]),
        vec![ColumnShape::Integer64],
        vec![Some(CellValue::Integer64(5))],
    )
    .unwrap_err();
    assert_eq!(err, ProjectionError::LengthMismatch);
}

#[test]
fn assemble_rejects_shape_mismatch() {
    let err = assemble_row(
        names(&["a", "b"]),
        vec![ColumnShape::Integer64, ColumnShape::Text],
        vec![
            Some(CellValue::Integer64(5)),
            Some(CellValue::Integer64(6)),
        ],
    )
    .unwrap_err();
    assert_eq!(err, ProjectionError::ShapeMismatch { index: 1 });
}

#[test]
fn projecting_twice_yields_identical_rows() {
    let ns = names(&["a", "b"]);
    let shapes = vec![ColumnShape::Text, ColumnShape::ByteBlob];
    let cells = vec![
        Some(CellValue::Text("x".to_string())),
        Some(CellValue::ByteBlob(vec![9, 8])),
    ];
    let r1 = assemble_row(ns.clone(), shapes.clone(), cells.clone()).unwrap();
    let r2 = assemble_row(ns, shapes, cells).unwrap();
    assert_eq!(r1.names, r2.names);
    assert_eq!(r1.values, r2.values);
    assert_eq!(r1.shapes, r2.shapes);
}

#[test]
fn result_rows_keep_length_invariant_across_null_patterns() {
    let ns = names(&["a", "b"]);
    let shapes = vec![ColumnShape::Integer64, ColumnShape::Text];
    let rows = project_result(
        &ns,
        &shapes,
        vec![
            vec![Some(CellValue::Integer64(1)), None],
            vec![None, Some(CellValue::Text("y".to_string()))],
            vec![None, None],
        ],
    )
    .unwrap();
    assert_eq!(rows.len(), 3);
    for row in &rows {
        assert_eq!(row.names, ns);
        assert_eq!(row.shapes, shapes);
        assert_eq!(row.values.len(), 2);
    }
    assert_eq!(rows[0].values[1], None);
    assert_eq!(rows[1].values[0], None);
}

#[test]
fn result_aborts_on_first_bad_row() {
    let ns = names(&["a"]);
    let shapes = vec![ColumnShape::Integer64];
    let err = project_result(
        &ns,
        &shapes,
        vec![
            vec![Some(CellValue::Integer64(1))],
            vec![Some(CellValue::Text("bad".to_string()))],
        ],
    )
    .unwrap_err();
    assert_eq!(err, ProjectionError::ShapeMismatch { index: 0 });
}

#[test]
fn empty_result_set_projects_to_no_rows() {
    let ns = names(&["a"]);
    let shapes = vec![ColumnShape::Integer64];
    let rows = project_result(&ns, &shapes, Vec::new()).unwrap();
    assert!(rows.is_empty());
}
