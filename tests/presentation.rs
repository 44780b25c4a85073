use sqlife::cell::CellRead;
use sqlife::fetch::SGDBFetchResult;
use sqlife::meta::{FetchResult, MetaColNumber, MetaColumn, MetaColumnType};
use sqlife::model::{DbError, DbErrorKind, SGDBColumn, SGDBColumnType, SGDBKind, SGDBRowValue, SGDBTable};
use sqlife::relay::MessageResponse;
use sqlife::views::{MessageID, NewConnectionWindow, QueryState, ViewData};

fn two_column_result() -> SGDBFetchResult {
    let cols = vec![
        SGDBColumn::new("id".to_string(), 0, SGDBColumnType::UInteger),
        SGDBColumn::new("when".to_string(), 1, SGDBColumnType::DateTime),
    ];
    let cells = vec![
        vec![
            CellRead::Value(SGDBRowValue::UInteger(1)),
            CellRead::Value(SGDBRowValue::DateTime { seconds: 0, nanos: 0 }),
        ],
        vec![CellRead::Value(SGDBRowValue::UInteger(2)), CellRead::Null],
    ];
    SGDBFetchResult::from_cells(cols, cells)
}

#[test]
fn presented_result_keeps_columns_values_and_rows() {
    let p = FetchResult::from_sgdb(two_column_result());
    assert_eq!(p.num_rows, 2);
    assert_eq!(p.res.len(), 2);
    let (m0, v0) = p.res.get_index(0).unwrap();
    assert_eq!(m0.name, "id");
    assert_eq!(m0.column_type, MetaColumnType::Number { variant: MetaColNumber::Simple });
    assert_eq!(v0, &vec![SGDBRowValue::UInteger(1), SGDBRowValue::UInteger(2)]);
    let (m1, v1) = p.res.get_index(1).unwrap();
    assert_eq!(m1.raw_name, "when");
    assert_eq!(m1.column_type, MetaColumnType::DateTime { format: "%d/%m/%Y %H:%M:%S".to_string() });
    assert_eq!(v1[1], SGDBRowValue::Null);
}

#[test]
fn columns_with_one_presentation_share_an_entry() {
    let cols = vec![
        SGDBColumn::new("a".to_string(), 0, SGDBColumnType::Integer),
        SGDBColumn::new("a".to_string(), 1, SGDBColumnType::UInteger),
    ];
    let cells = vec![vec![
        CellRead::Value(SGDBRowValue::Integer(-1)),
        CellRead::Value(SGDBRowValue::UInteger(1)),
    ]];
    let p = FetchResult::from_sgdb(SGDBFetchResult::from_cells(cols, cells));
    assert_eq!(p.res.len(), 1);
    assert_eq!(p.res.get_index(0).unwrap().1, &vec![SGDBRowValue::UInteger(1)]);
}

#[test]
fn query_answer_fills_the_result_slot() {
    let mut view = ViewData::default();
    view.process_db_response(MessageResponse::FetchAllResult(MessageID::FetchAllResult, Ok(two_column_result())));
    match &view.fetch_result {
        QueryState::Success(p) => assert_eq!(p.num_rows, 2),
        _ => panic!("expected a result"),
    }
    assert!(matches!(view.tables, QueryState::Ready));
}

#[test]
fn failed_query_shows_its_message() {
    let mut view = ViewData::default();
    let e = DbError::new(DbErrorKind::Query, "syntax error".to_string());
    view.process_db_response(MessageResponse::<MessageID>::FetchAllResult(MessageID::FetchAllResult, Err(e)));
    match &view.fetch_result {
        QueryState::Error(m) => assert_eq!(m, "syntax error"),
        _ => panic!("expected an error"),
    }
    assert!(matches!(view.tables, QueryState::Ready));
}

#[test]
fn listing_answer_fills_the_tables_slot() {
    let mut view = ViewData::default();
    let t = SGDBTable::new("shop".to_string(), "orders".to_string(), String::new(), String::new(), 0);
    view.process_db_response(MessageResponse::<MessageID>::TablesResult(Ok(vec![t])));
    match &view.tables {
        QueryState::Success(ts) => assert_eq!(ts[0].full_path, "shop.orders"),
        _ => panic!("expected tables"),
    }
    assert!(matches!(view.fetch_result, QueryState::Ready));
}

#[test]
fn lost_connection_fails_both_slots() {
    let mut view = ViewData::default();
    let e = DbError::new(DbErrorKind::Connection, "refused".to_string());
    view.process_db_response(MessageResponse::<MessageID>::ConnectionFailed(e));
    assert!(matches!(&view.tables, QueryState::Error(m) if m == "refused"));
    assert!(matches!(&view.fetch_result, QueryState::Error(m) if m == "refused"));
}

#[test]
fn default_meta_columns_follow_column_type() {
    let number = MetaColumnType::Number { variant: MetaColNumber::Simple };
    let cases = vec![
        (SGDBColumnType::Text, MetaColumnType::Text { color: None }),
        (SGDBColumnType::Boolean, MetaColumnType::CheckBox),
        (SGDBColumnType::Integer, number.clone()),
        (SGDBColumnType::UInteger, number.clone()),
        (SGDBColumnType::Double, number.clone()),
        (SGDBColumnType::Decimal, number.clone()),
        (SGDBColumnType::DateTime, MetaColumnType::DateTime { format: "%d/%m/%Y %H:%M:%S".to_string() }),
        (SGDBColumnType::Binary, MetaColumnType::Binary),
        (SGDBColumnType::Unknown, MetaColumnType::Unknown),
    ];
    for (ty, expected) in cases {
        let m = MetaColumn::default_sgdb_column("total".to_string(), ty);
        assert_eq!(m.name, "total");
        assert_eq!(m.raw_name, "total");
        assert_eq!(m.column_type, expected);
    }
}

#[test]
fn query_state_from_answer() {
    let ok: QueryState<u8> = QueryState::from_result(Ok(5));
    assert!(matches!(ok, QueryState::Success(5)));
    let err: QueryState<u8> =
        QueryState::from_result(Err(DbError::new(DbErrorKind::Query, "boom".to_string())));
    match err {
        QueryState::Error(m) => assert_eq!(m, "boom"),
        other => panic!("unexpected state {:?}", other),
    }
    assert!(matches!(QueryState::<u8>::default(), QueryState::Ready));
    assert!(matches!(QueryState::<u8>::waiting(), QueryState::Waiting));
}

#[test]
fn connection_form_describes_a_connection() {
    let w = NewConnectionWindow {
        open: true,
        name: "local".to_string(),
        uri: "mysql://root@localhost".to_string(),
        kind: SGDBKind::Mysql,
        schema: "shop".to_string(),
    };
    let c = w.connection();
    assert_eq!(c.uri, "mysql://root@localhost");
    assert_eq!(c.schema(), "shop");
    assert_eq!(c.kind, SGDBKind::Mysql);
}
