use sqlife::cell::CellRead;
use sqlife::fetch::SGDBFetchResult;
use sqlife::model::{SGDBColumnType, SGDBRowValue};
use sqlife::mysql::{map_columns, NativeColumn};
use sqlife::model::{DbError, DbErrorKind, SGDBTable};
use sqlife::relay::{Message, MessageResponse, RelayAction, SGDBRelay};

fn running() -> SGDBRelay<u32> {
    let mut r = SGDBRelay::new();
    r.connected();
    r
}

#[test]
fn fetch_of_missing_table_answers_query_error_with_its_id() {
    let mut relay = running();
    let action = relay.on_message(Message::FetchAll(2, "SELECT * FROM nonexistent".to_string(), None));
    match action {
        RelayAction::FetchAll { query, params } => {
            assert_eq!(query, "SELECT * FROM nonexistent");
            assert!(params.is_none());
        }
        other => panic!("unexpected action {:?}", other),
    }
    assert!(!relay.is_idle());
    let resp = relay.finish_fetch(Err("Table 'shop.nonexistent' doesn't exist".to_string()));
    match resp {
        MessageResponse::FetchAllResult(id, Err(e)) => {
            assert_eq!(id, 2);
            assert_eq!(e.kind, DbErrorKind::Query);
            assert_eq!(e.message, "Table 'shop.nonexistent' doesn't exist");
        }
        other => panic!("unexpected response {:?}", other),
    }
    assert!(relay.is_idle());
}

#[test]
fn successful_fetch_echoes_id_and_result() {
    let mut relay = running();
    let params = Some(vec!["a".to_string(), "b".to_string()]);
    match relay.on_message(Message::FetchAll(1, "SELECT ?, ?".to_string(), params.clone())) {
        RelayAction::FetchAll { params: p, .. } => assert_eq!(p, params),
        other => panic!("unexpected action {:?}", other),
    }
    let result = SGDBFetchResult::from_cells(Vec::new(), vec![Vec::new(), Vec::new(), Vec::new()]);
    match relay.finish_fetch(Ok(result)) {
        MessageResponse::FetchAllResult(id, Ok(res)) => {
            assert_eq!(id, 1);
            assert_eq!(res.num_rows, 3);
        }
        other => panic!("unexpected response {:?}", other),
    }
}

#[test]
fn table_listings_are_answered_in_request_order() {
    let mut relay = running();
    let mut order = Vec::new();
    for schema in ["first", "second", "third"] {
        match relay.on_message(Message::FetchTables { schema: schema.to_string() }) {
            RelayAction::ListTables { schema } => {
                let t = SGDBTable::new(schema.clone(), "t".to_string(), String::new(), String::new(), 0);
                match relay.finish_tables(Ok(vec![t])) {
                    MessageResponse::TablesResult(Ok(tables)) => order.push(tables[0].schema.clone()),
                    other => panic!("unexpected response {:?}", other),
                }
            }
            other => panic!("unexpected action {:?}", other),
        }
    }
    assert_eq!(order, vec!["first", "second", "third"]);
}

#[test]
fn failed_listing_is_a_query_error_and_relay_continues() {
    let mut relay = running();
    relay.on_message(Message::FetchTables { schema: "secret".to_string() });
    match relay.finish_tables(Err("access denied".to_string())) {
        MessageResponse::TablesResult(Err(e)) => {
            assert_eq!(e.kind, DbErrorKind::Query);
            assert_eq!(e.message, "access denied");
        }
        other => panic!("unexpected response {:?}", other),
    }
    assert!(relay.is_idle());
}

#[test]
fn close_stops_the_relay() {
    let mut relay = running();
    assert!(matches!(relay.on_message(Message::Close), RelayAction::Stop));
    assert!(!relay.is_idle());
}

#[test]
fn closed_inbox_stops_the_relay() {
    let mut relay = running();
    relay.on_inbox_closed();
    assert!(!relay.is_idle());
}

#[test]
fn failed_connection_is_reported_once() {
    let mut relay: SGDBRelay<u32> = SGDBRelay::new();
    assert!(!relay.is_idle());
    let cause = DbError::new(DbErrorKind::Connection, "connection refused".to_string());
    match relay.connect_failed(cause) {
        MessageResponse::ConnectionFailed(e) => {
            assert_eq!(e.kind, DbErrorKind::Connection);
            assert_eq!(e.message, "connection refused");
        }
        other => panic!("unexpected response {:?}", other),
    }
    assert!(!relay.is_idle());
}

#[test]
fn fetch_of_users_answers_three_rows_with_its_id() {
    let mut relay = running();
    match relay.on_message(Message::FetchAll(1, "SELECT id, name FROM users".to_string(), None)) {
        RelayAction::FetchAll { query, params } => {
            assert_eq!(query, "SELECT id, name FROM users");
            assert!(params.is_none());
        }
        other => panic!("unexpected action {:?}", other),
    }
    let columns = map_columns(&vec![
        NativeColumn { name: "id".to_string(), ordinal: 0, native_type: "INT".to_string() },
        NativeColumn { name: "name".to_string(), ordinal: 1, native_type: "TEXT".to_string() },
    ]);
    let cells = (1..=3)
        .map(|i| {
            vec![
                CellRead::Value(SGDBRowValue::Integer(i)),
                CellRead::Value(SGDBRowValue::Text(format!("user{}", i))),
            ]
        })
        .collect();
    let result = SGDBFetchResult::from_cells(columns, cells);
    match relay.finish_fetch(Ok(result)) {
        MessageResponse::FetchAllResult(id, Ok(res)) => {
            assert_eq!(id, 1);
            assert_eq!(res.num_rows, 3);
            let (col, ids) = res.data.get_index(0).unwrap();
            assert_eq!(col.name(), "id");
            assert_eq!(col.column_type(), SGDBColumnType::Integer);
            assert_eq!(ids, &vec![SGDBRowValue::Integer(1), SGDBRowValue::Integer(2), SGDBRowValue::Integer(3)]);
            let (col, names) = res.data.get_index(1).unwrap();
            assert_eq!(col.name(), "name");
            assert_eq!(col.column_type(), SGDBColumnType::Text);
            assert_eq!(names.len(), 3);
        }
        other => panic!("unexpected response {:?}", other),
    }
}
