use sqlife::model::SGDBColumnType;
use sqlife::mysql::{map_column, map_column_type, map_columns, NativeColumn, TABLES_QUERY};

#[test]
fn native_type_names_map_to_column_types() {
    let cases = [
        ("BOOLEAN", SGDBColumnType::Boolean),
        ("TINYINT UNSIGNED", SGDBColumnType::UInteger),
        ("SMALLINT UNSIGNED", SGDBColumnType::UInteger),
        ("INT UNSIGNED", SGDBColumnType::UInteger),
        ("MEDIUMINT UNSIGNED", SGDBColumnType::UInteger),
        ("BIGINT UNSIGNED", SGDBColumnType::UInteger),
        ("TINYINT", SGDBColumnType::Integer),
        ("SMALLINT", SGDBColumnType::Integer),
        ("INT", SGDBColumnType::Integer),
        ("MEDIUMINT", SGDBColumnType::Integer),
        ("BIGINT", SGDBColumnType::Integer),
        ("DECIMAL", SGDBColumnType::Decimal),
        ("FLOAT", SGDBColumnType::Double),
        ("DOUBLE", SGDBColumnType::Double),
        ("CHAR", SGDBColumnType::Text),
        ("VARCHAR", SGDBColumnType::Text),
        ("TEXT", SGDBColumnType::Text),
        ("DATE", SGDBColumnType::DateTime),
        ("DATETIME", SGDBColumnType::DateTime),
        ("TIMESTAMP", SGDBColumnType::DateTime),
    ];
    for (name, ty) in cases {
        assert_eq!(map_column_type(name), ty, "{}", name);
    }
}

#[test]
fn other_native_type_names_are_unknown() {
    for name in ["", "BLOB", "JSON", "int", "INT ", "VARBINARY", "TIME", "ENUM"] {
        assert_eq!(map_column_type(name), SGDBColumnType::Unknown, "{}", name);
    }
}

#[test]
fn native_column_maps_name_ordinal_and_type() {
    let n = NativeColumn { name: "price".to_string(), ordinal: 4, native_type: "DECIMAL".to_string() };
    let c = map_column(&n);
    assert_eq!(c.name(), "price");
    assert_eq!(c.ordinal(), 4);
    assert_eq!(c.column_type(), SGDBColumnType::Decimal);
}

#[test]
fn native_columns_keep_their_order() {
    let natives = vec![
        NativeColumn { name: "id".to_string(), ordinal: 0, native_type: "INT".to_string() },
        NativeColumn { name: "name".to_string(), ordinal: 1, native_type: "VARCHAR".to_string() },
    ];
    let cols = map_columns(&natives);
    assert_eq!(cols.len(), 2);
    assert_eq!(cols[0].name(), "id");
    assert_eq!(cols[0].column_type(), SGDBColumnType::Integer);
    assert_eq!(cols[1].name(), "name");
    assert_eq!(cols[1].column_type(), SGDBColumnType::Text);
}

#[test]
fn catalog_query_binds_the_schema() {
    assert!(TABLES_QUERY.contains("INFORMATION_SCHEMA.TABLES"));
    assert!(TABLES_QUERY.ends_with("table_schema = ?"));
}
