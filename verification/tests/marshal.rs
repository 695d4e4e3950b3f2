//! Tests for the tagged parameter marshaler and the wire discriminant table.

use jdbd_bridge::MysqlValue;
use jdbd_bridge::ParamKind;
use jdbd_bridge::SqlParameter;
use jdbd_bridge::marshal_params;
use jdbd_bridge::parameter_kind;
use jdbd_bridge::to_mysql_value;

#[test]
fn marshal_preserves_order_and_value() {
    let params = vec![
        SqlParameter::Null,
        SqlParameter::Int(7),
        SqlParameter::Bytes(vec![1, 2, 3]),
        SqlParameter::Float(1.5f32.to_bits()),
        SqlParameter::Double(2.25f64.to_bits()),
    ];
    let wire = marshal_params(&params);
    assert_eq!(wire.len(), 5);
    assert_eq!(wire[0], MysqlValue::Null);
    assert_eq!(wire[1], MysqlValue::Int(7));
    assert_eq!(wire[2], MysqlValue::Bytes(vec![1, 2, 3]));
    assert_eq!(wire[3], MysqlValue::Float(1.5f32.to_bits()));
    assert_eq!(wire[4], MysqlValue::Double(2.25f64.to_bits()));
}

#[test]
fn marshal_empty_sequence() {
    let wire = marshal_params(&Vec::new());
    assert!(wire.is_empty());
}

#[test]
fn marshal_single_values() {
    assert_eq!(to_mysql_value(&SqlParameter::Null), MysqlValue::Null);
    assert_eq!(to_mysql_value(&SqlParameter::Int(-1)), MysqlValue::Int(-1));
    assert_eq!(
        to_mysql_value(&SqlParameter::Bytes(Vec::new())),
        MysqlValue::Bytes(Vec::new())
    );
    assert_eq!(
        to_mysql_value(&SqlParameter::Float(0.0f32.to_bits())),
        MysqlValue::Float(0.0f32.to_bits())
    );
    assert_eq!(
        to_mysql_value(&SqlParameter::Double(f64::MAX.to_bits())),
        MysqlValue::Double(f64::MAX.to_bits())
    );
}

#[test]
fn parameter_kind_table() {
    assert_eq!(parameter_kind("NULL"), Some(ParamKind::Null));
    assert_eq!(parameter_kind("BYTES"), Some(ParamKind::Bytes));
    assert_eq!(parameter_kind("INT"), Some(ParamKind::Int));
    assert_eq!(parameter_kind("FLOAT"), Some(ParamKind::Float));
    assert_eq!(parameter_kind("DOUBLE"), Some(ParamKind::Double));
}

#[test]
fn parameter_kind_rejects_unknown_tags() {
    assert_eq!(parameter_kind(""), None);
    assert_eq!(parameter_kind("null"), None);
    assert_eq!(parameter_kind("STRING"), None);
    assert_eq!(parameter_kind("INTEGER"), None);
}
