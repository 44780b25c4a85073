use sqlife::model::{Connection, DbErrorKind, SGDBColumn, SGDBColumnType, SGDBKind, SGDBTable};

#[test]
fn column_getters_return_fields() {
    let c = SGDBColumn::new("id".to_string(), 3, SGDBColumnType::Integer);
    assert_eq!(c.name(), "id");
    assert_eq!(c.ordinal(), 3);
    assert_eq!(c.column_type(), SGDBColumnType::Integer);
}

#[test]
fn columns_equal_only_when_all_fields_agree() {
    let a = SGDBColumn::new("id".to_string(), 0, SGDBColumnType::Integer);
    let b = SGDBColumn::new("id".to_string(), 0, SGDBColumnType::Integer);
    let c = SGDBColumn::new("id".to_string(), 1, SGDBColumnType::Integer);
    let d = SGDBColumn::new("name".to_string(), 0, SGDBColumnType::Integer);
    assert!(a == b);
    assert!(a != c);
    assert!(a != d);
}

#[test]
fn table_full_path_joins_schema_and_name() {
    let t = SGDBTable::new(
        "shop".to_string(),
        "orders".to_string(),
        "BASE TABLE".to_string(),
        "InnoDB".to_string(),
        42,
    );
    assert_eq!(t.full_path, "shop.orders");
    assert_eq!(t.schema, "shop");
    assert_eq!(t.table_name, "orders");
    assert_eq!(t.table_type, "BASE TABLE");
    assert_eq!(t.engine, "InnoDB");
    assert_eq!(t.table_rows, 42);
}

#[test]
fn table_full_path_with_empty_parts() {
    let t = SGDBTable::new(String::new(), String::new(), String::new(), String::new(), 0);
    assert_eq!(t.full_path, ".");
}

#[test]
fn connection_keeps_its_schema() {
    let c = Connection::new(SGDBKind::Mysql, "mysql://localhost".to_string(), "shop".to_string());
    assert_eq!(c.schema(), "shop");
    assert_eq!(c.uri, "mysql://localhost");
}

#[test]
fn only_mysql_is_supported() {
    let m = Connection::new(SGDBKind::Mysql, String::new(), String::new());
    assert!(m.engine_supported().is_ok());
    for kind in [SGDBKind::Postgres, SGDBKind::Sqlite] {
        let c = Connection::new(kind, String::new(), String::new());
        let e = c.engine_supported().unwrap_err();
        assert_eq!(e.kind, DbErrorKind::UnsupportedEngine);
        assert!(!e.message().is_empty());
    }
}

#[test]
fn default_kind_is_mysql() {
    assert_eq!(SGDBKind::default(), SGDBKind::Mysql);
}
