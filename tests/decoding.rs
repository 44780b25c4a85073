use sqlife::cell::{decode_cell, value_type, CellRead};
use sqlife::model::{SGDBColumnType, SGDBRowValue};

const ALL_TYPES: [SGDBColumnType; 9] = [
    SGDBColumnType::Text,
    SGDBColumnType::Boolean,
    SGDBColumnType::Integer,
    SGDBColumnType::UInteger,
    SGDBColumnType::Double,
    SGDBColumnType::Decimal,
    SGDBColumnType::DateTime,
    SGDBColumnType::Binary,
    SGDBColumnType::Unknown,
];

fn unknown(msg: &str) -> SGDBRowValue {
    SGDBRowValue::Unknown { error: msg.to_string() }
}

#[test]
fn null_decodes_to_null_for_every_type() {
    for ty in ALL_TYPES {
        assert_eq!(decode_cell(ty, CellRead::Null), SGDBRowValue::Null);
    }
}

#[test]
fn mismatch_decodes_to_invalid_type_error() {
    for ty in ALL_TYPES {
        let expected = if ty == SGDBColumnType::Unknown {
            unknown("Unknown column type")
        } else {
            unknown("Invalid column type encountered")
        };
        assert_eq!(decode_cell(ty, CellRead::Mismatch), expected);
    }
}

#[test]
fn matching_values_are_kept() {
    let cases = vec![
        (SGDBColumnType::Text, SGDBRowValue::Text("abc".to_string())),
        (SGDBColumnType::Boolean, SGDBRowValue::Boolean(true)),
        (SGDBColumnType::Integer, SGDBRowValue::Integer(-7)),
        (SGDBColumnType::UInteger, SGDBRowValue::UInteger(7)),
        (SGDBColumnType::Double, SGDBRowValue::Double(1.5f64.to_bits())),
        (SGDBColumnType::Decimal, SGDBRowValue::Decimal("12345678901234567890.0001".to_string())),
        (SGDBColumnType::DateTime, SGDBRowValue::DateTime { seconds: 1_700_000_000, nanos: 5 }),
        (SGDBColumnType::Binary, SGDBRowValue::Binary(vec![0, 255, 1])),
    ];
    for (ty, v) in cases {
        assert_eq!(value_type(&v), Some(ty));
        assert_eq!(decode_cell(ty, CellRead::Value(v.clone())), v);
    }
}

#[test]
fn value_of_another_type_is_invalid() {
    let v = SGDBRowValue::Text("1".to_string());
    assert_eq!(
        decode_cell(SGDBColumnType::Integer, CellRead::Value(v)),
        unknown("Invalid column type encountered")
    );
}

#[test]
fn unknown_column_type_never_decodes() {
    let v = SGDBRowValue::Integer(1);
    assert_eq!(
        decode_cell(SGDBColumnType::Unknown, CellRead::Value(v)),
        unknown("Unknown column type")
    );
}

#[test]
fn unreachable_cell_carries_its_reason() {
    assert_eq!(
        decode_cell(SGDBColumnType::Text, CellRead::Missing("index out of bounds".to_string())),
        unknown("index out of bounds")
    );
}

#[test]
fn null_and_unknown_have_no_type() {
    assert_eq!(value_type(&SGDBRowValue::Null), None);
    assert_eq!(value_type(&unknown("x")), None);
}
