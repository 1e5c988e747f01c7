use tokio_postgres::client::{Client, Row, Statement};
use tokio_postgres::connection::{Connection, Event, Request};
use tokio_postgres::error::{DbError, Error};
use tokio_postgres::message::{BackendMessage, CancelData, Column, FrontendMessage, Notification};
use tokio_postgres::request::{Output, Response};
use tokio_postgres::value::{Type, Value};

fn conn() -> Connection {
    Connection::new(
        vec![("server_version".to_string(), "10.4".to_string())],
        CancelData { process_id: 7, secret_key: 99 },
    )
}

fn db_error(code: &str) -> DbError {
    DbError { severity: "ERROR".to_string(), code: code.to_string(), message: "boom".to_string() }
}

fn int4_column(name: &str) -> Column {
    Column { name: name.to_string(), type_oid: 23 }
}

fn completed(events: &[Event]) -> Vec<u64> {
    events
        .iter()
        .filter_map(|e| match e {
            Event::Completed { id, .. } => Some(*id),
            _ => None,
        })
        .collect()
}

fn feed(c: &mut Connection, msgs: Vec<BackendMessage>) -> Vec<Event> {
    let mut all = Vec::new();
    for m in msgs {
        all.extend(c.handle_message(m));
    }
    all
}

fn prepared(c: &mut Connection, client: &mut Client, sql: &str, params: Vec<u32>, cols: Vec<Column>) -> Statement {
    let (id, name) = c.prepare(client.prepare(sql)).unwrap();
    let events = feed(c, vec![
        BackendMessage::ParseComplete,
        BackendMessage::ParameterDescription { types: params },
        BackendMessage::RowDescription { columns: cols },
        BackendMessage::ReadyForQuery,
    ]);
    assert_eq!(events.len(), 1);
    match events.into_iter().next().unwrap() {
        Event::Completed { id: got, result: Ok(resp) } => {
            assert_eq!(got, id);
            Statement::from_response(name, resp).unwrap()
        }
        _ => panic!("prepare did not complete"),
    }
}

#[test]
fn prepare_writes_parse_describe_sync() {
    let mut c = conn();
    let mut client = Client::new();
    let (_, name) = c.prepare(client.prepare("SELECT 1")).unwrap();
    assert_eq!(name, "s0");
    let out = c.take_outbox();
    assert_eq!(out.len(), 3);
    assert!(matches!(&out[0], FrontendMessage::Parse { name, query, param_types } if name == "s0" && query == "SELECT 1" && param_types.is_empty()));
    assert!(matches!(&out[1], FrontendMessage::DescribeStatement { name } if name == "s0"));
    assert!(matches!(out[2], FrontendMessage::Sync));
    assert!(c.take_outbox().is_empty());
}

#[test]
fn statement_names_are_distinct() {
    let mut c = conn();
    let mut one = Client::new();
    let mut other = Client::new();
    let names: Vec<String> = (0..12)
        .map(|i| {
            let client = if i % 2 == 0 { &mut one } else { &mut other };
            c.prepare(client.prepare("SELECT 1")).unwrap().1
        })
        .collect();
    assert_eq!(c.statements(), 12);
    assert_eq!(names[0], "s0");
    assert_eq!(names[10], "s10");
    for i in 0..names.len() {
        for j in 0..names.len() {
            if i != j {
                assert_ne!(names[i], names[j]);
            }
        }
    }
    let mut counter: u64 = 41;
    assert_eq!(tokio_postgres::next_statement(&mut counter), "s41");
    assert_eq!(counter, 42);
}

#[test]
fn responses_follow_enqueue_order() {
    let mut c = conn();
    let mut client = Client::new();
    let a = c.submit(Request::Batch(client.batch_execute("SELECT 1"))).unwrap();
    let b = c.submit(Request::Batch(client.batch_execute("SELECT 2"))).unwrap();
    let d = c.submit(Request::Batch(client.batch_execute("SELECT 3"))).unwrap();
    assert!(a < b && b < d);
    let mut order = Vec::new();
    for _ in 0..3 {
        order.extend(completed(&feed(&mut c, vec![
            BackendMessage::CommandComplete { tag: "SELECT 1".to_string() },
            BackendMessage::ReadyForQuery,
        ])));
    }
    assert_eq!(order, vec![a, b, d]);
}

#[test]
fn prepare_then_query_int4() {
    let mut c = conn();
    let mut client = Client::new();
    let stmt = prepared(&mut c, &mut client, "SELECT $1::int4", vec![23], vec![int4_column("int4")]);
    assert_eq!(stmt.params(), &[23]);
    assert_eq!(stmt.columns().len(), 1);
    let q = client.query(&stmt, &[Some(Value::Int4(42))]);
    assert_eq!(q.params, vec![Some(vec![0, 0, 0, 42])]);
    let id = c.submit(Request::Query(q)).unwrap();
    let events = feed(&mut c, vec![
        BackendMessage::BindComplete,
        BackendMessage::DataRow { values: vec![Some(vec![0, 0, 0, 42])] },
        BackendMessage::CommandComplete { tag: "SELECT 1".to_string() },
        BackendMessage::ReadyForQuery,
    ]);
    assert_eq!(events.len(), 2);
    let mut rows = Vec::new();
    for e in events {
        match e {
            Event::Progress { id: got, output: Output::Row(values) } => {
                assert_eq!(got, id);
                rows.push(Row::from_statement(&stmt, values));
            }
            Event::Completed { id: got, result } => {
                assert_eq!(got, id);
                assert!(matches!(result, Ok(Response::RowCount(1))));
            }
            _ => panic!("unexpected event"),
        }
    }
    assert_eq!(rows.len(), 1);
    assert_eq!(rows[0].len(), 1);
    assert_eq!(rows[0].columns().len(), 1);
    assert_eq!(rows[0].columns()[0].name, "int4");
    assert_eq!(rows[0].columns()[0].type_oid, 23);
    assert!(matches!(rows[0].get(0, Type::Int4), Some(Value::Int4(42))));
    assert!(matches!(rows[0].try_get_named("int4", Type::Int4), Ok(Some(Some(Value::Int4(42))))));
}

fn run_query_rows(k: usize) -> (Vec<Vec<u8>>, bool) {
    let mut c = conn();
    let mut client = Client::new();
    let stmt = prepared(&mut c, &mut client, "SELECT x FROM t", vec![], vec![int4_column("x")]);
    c.submit(Request::Query(client.query(&stmt, &[]))).unwrap();
    let mut msgs = vec![BackendMessage::BindComplete];
    for i in 0..k {
        msgs.push(BackendMessage::DataRow { values: vec![Some(vec![0, 0, 0, i as u8])] });
    }
    msgs.push(BackendMessage::CommandComplete { tag: format!("SELECT {}", k) });
    msgs.push(BackendMessage::ReadyForQuery);
    let mut rows = Vec::new();
    let mut done = false;
    for e in feed(&mut c, msgs) {
        match e {
            Event::Progress { output: Output::Row(mut v), .. } => {
                assert!(!done);
                rows.push(v.remove(0).unwrap());
            }
            Event::Completed { result: Ok(Response::RowCount(n)), .. } => {
                assert_eq!(n as usize, k);
                done = true;
            }
            _ => panic!("unexpected event"),
        }
    }
    (rows, done)
}

#[test]
fn query_yields_each_row_once_in_order() {
    for k in [0usize, 1, 5] {
        let (rows, done) = run_query_rows(k);
        assert!(done);
        assert_eq!(rows.len(), k);
        for (i, r) in rows.iter().enumerate() {
            assert_eq!(r, &vec![0, 0, 0, i as u8]);
        }
    }
}

#[test]
fn execute_counts_rows() {
    let mut c = conn();
    let mut client = Client::new();
    let stmt = prepared(&mut c, &mut client, "INSERT INTO t VALUES (1)", vec![], vec![]);
    let id = c.submit(Request::Execute(client.execute(&stmt, &[None]))).unwrap();
    let events = feed(&mut c, vec![
        BackendMessage::BindComplete,
        BackendMessage::CommandComplete { tag: "INSERT 0 3".to_string() },
        BackendMessage::ReadyForQuery,
    ]);
    assert_eq!(events.len(), 1);
    assert!(matches!(&events[0], Event::Completed { id: got, result: Ok(Response::RowCount(3)) } if *got == id));
}

#[test]
fn copy_out_hands_out_chunks_in_order() {
    let mut c = conn();
    let mut client = Client::new();
    let stmt = prepared(&mut c, &mut client, "COPY t TO STDOUT", vec![], vec![]);
    c.submit(Request::CopyOut(client.copy_out(&stmt, &[]))).unwrap();
    let events = feed(&mut c, vec![
        BackendMessage::BindComplete,
        BackendMessage::CopyOutResponse,
        BackendMessage::CopyData { data: b"1\n".to_vec() },
        BackendMessage::CopyData { data: b"2\n".to_vec() },
        BackendMessage::CopyDone,
        BackendMessage::CommandComplete { tag: "COPY 2".to_string() },
        BackendMessage::ReadyForQuery,
    ]);
    let chunks: Vec<Vec<u8>> = events
        .iter()
        .filter_map(|e| match e {
            Event::Progress { output: Output::CopyChunk(d), .. } => Some(d.clone()),
            _ => None,
        })
        .collect();
    assert_eq!(chunks, vec![b"1\n".to_vec(), b"2\n".to_vec()]);
    assert!(matches!(events.last(), Some(Event::Completed { result: Ok(Response::RowCount(2)), .. })));
}

#[test]
fn batch_execute_surfaces_no_rows() {
    let mut c = conn();
    let mut client = Client::new();
    let b = client.batch_execute("BEGIN; INSERT INTO t VALUES (1); COMMIT;");
    let id = c.submit(Request::Batch(b)).unwrap();
    let out = c.take_outbox();
    assert!(matches!(&out[..], [FrontendMessage::Query { query }] if query == "BEGIN; INSERT INTO t VALUES (1); COMMIT;"));
    let events = feed(&mut c, vec![
        BackendMessage::CommandComplete { tag: "BEGIN".to_string() },
        BackendMessage::CommandComplete { tag: "INSERT 0 1".to_string() },
        BackendMessage::CommandComplete { tag: "COMMIT".to_string() },
        BackendMessage::ReadyForQuery,
    ]);
    assert_eq!(events.len(), 1);
    assert!(matches!(&events[0], Event::Completed { id: got, result: Ok(Response::Done) } if *got == id));
}

#[test]
fn disconnect_fails_every_pending_request_once() {
    let mut c = conn();
    let mut client = Client::new();
    let ids: Vec<u64> = (0..3).map(|_| c.submit(Request::Batch(client.batch_execute("SELECT 1"))).unwrap()).collect();
    let events = c.disconnect();
    assert_eq!(completed(&events), ids);
    assert!(events.iter().all(|e| matches!(e, Event::Completed { result: Err(Error::Disconnected), .. })));
    assert!(c.is_closed_exec());
    assert!(matches!(c.poll_message(), Some(tokio_postgres::AsyncMessage::ConnectionError(Error::Disconnected))));
    assert!(c.disconnect().is_empty());
    assert!(c.poll_message().is_none());
    assert!(matches!(c.submit(Request::Batch(client.batch_execute("SELECT 1"))), Err(Error::Closed)));
}

#[test]
fn unexpected_message_breaks_the_connection() {
    let mut c = conn();
    let mut client = Client::new();
    let a = c.submit(Request::Batch(client.batch_execute("SELECT 1"))).unwrap();
    let b = c.submit(Request::Batch(client.batch_execute("SELECT 2"))).unwrap();
    let events = c.handle_message(BackendMessage::ParseComplete);
    assert_eq!(completed(&events), vec![a, b]);
    assert!(events.iter().all(|e| matches!(e, Event::Completed { result: Err(Error::UnexpectedMessage), .. })));
    assert!(c.is_closed_exec());
    assert!(matches!(c.poll_message(), Some(tokio_postgres::AsyncMessage::ConnectionError(Error::UnexpectedMessage))));
    assert!(c.handle_message(BackendMessage::ReadyForQuery).is_empty());
    assert!(c.poll_message().is_none());
}

#[test]
fn message_with_nothing_pending_breaks_the_connection() {
    let mut c = conn();
    assert!(c.handle_message(BackendMessage::ReadyForQuery).is_empty());
    assert!(c.is_closed_exec());
}

#[test]
fn server_error_fails_only_its_request() {
    let mut c = conn();
    let mut client = Client::new();
    let (a, _) = c.prepare(client.prepare("SELEC")).unwrap();
    let b = c.submit(Request::Batch(client.batch_execute("SELECT 1"))).unwrap();
    let events = feed(&mut c, vec![BackendMessage::ErrorResponse(db_error("42601")), BackendMessage::ReadyForQuery]);
    assert_eq!(events.len(), 1);
    assert!(matches!(&events[0], Event::Completed { id, result: Err(Error::Db(e)) } if *id == a && e.code == "42601"));
    let events = feed(&mut c, vec![BackendMessage::ReadyForQuery]);
    assert_eq!(completed(&events), vec![b]);
    assert!(!c.is_closed_exec());
}

#[test]
fn cancelled_query_resolves_with_database_error() {
    let mut c = conn();
    let mut client = Client::new();
    let stmt = prepared(&mut c, &mut client, "SELECT pg_sleep(100)", vec![], vec![]);
    let id = c.submit(Request::Query(client.query(&stmt, &[]))).unwrap();
    let cancel = tokio_postgres::cancel_query(tokio_postgres::TlsMode::Prefer, c.cancel_data());
    assert!(matches!(cancel.message, FrontendMessage::CancelRequest { process_id: 7, secret_key: 99 }));
    let events = feed(&mut c, vec![
        BackendMessage::BindComplete,
        BackendMessage::ErrorResponse(db_error("57014")),
        BackendMessage::ReadyForQuery,
    ]);
    assert!(matches!(&events[..], [Event::Completed { id: got, result: Err(Error::Db(e)) }] if *got == id && e.code == "57014"));
}

#[test]
fn async_messages_take_no_request_slot() {
    let mut c = conn();
    let mut client = Client::new();
    let id = c.submit(Request::Batch(client.batch_execute("LISTEN x"))).unwrap();
    assert!(c.poll_message().is_none());
    let events = c.handle_message(BackendMessage::NotificationResponse(Notification {
        process_id: 3,
        channel: "x".to_string(),
        payload: "hi".to_string(),
    }));
    assert!(events.is_empty());
    let events = c.handle_message(BackendMessage::NoticeResponse(db_error("01000")));
    assert!(events.is_empty());
    assert!(matches!(c.poll_message(), Some(tokio_postgres::AsyncMessage::Notification(n)) if n.payload == "hi"));
    assert!(matches!(c.poll_message(), Some(tokio_postgres::AsyncMessage::Notice(e)) if e.code == "01000"));
    assert!(c.poll_message().is_none());
    let events = c.handle_message(BackendMessage::ReadyForQuery);
    assert_eq!(completed(&events), vec![id]);
}

#[test]
fn parameters_take_the_latest_report() {
    let mut c = conn();
    assert_eq!(c.parameter("server_version"), Some("10.4"));
    assert_eq!(c.parameter("TimeZone"), None);
    c.handle_message(BackendMessage::ParameterStatus { name: "server_version".to_string(), value: "11.0".to_string() });
    assert_eq!(c.parameter("server_version"), Some("11.0"));
}

#[test]
fn prepare_with_no_data_has_no_columns() {
    let mut c = conn();
    let mut client = Client::new();
    let p = client.prepare_typed("INSERT INTO t VALUES ($1)", &[Type::Int8]);
    assert_eq!(p.param_types, vec![20]);
    let (_, name) = c.prepare(p).unwrap();
    let events = feed(&mut c, vec![
        BackendMessage::ParseComplete,
        BackendMessage::ParameterDescription { types: vec![20] },
        BackendMessage::NoData,
        BackendMessage::ReadyForQuery,
    ]);
    match events.into_iter().next() {
        Some(Event::Completed { result: Ok(resp), .. }) => {
            let s = Statement::from_response(name, resp).unwrap();
            assert_eq!(s.name(), "s0");
            assert_eq!(s.params(), &[20]);
            assert!(s.columns().is_empty());
        }
        _ => panic!("prepare did not complete"),
    }
}

#[test]
fn row_reads_report_each_error() {
    let row = Row::new(
        vec![int4_column("a"), Column { name: "b".to_string(), type_oid: 16 }, int4_column("c")],
        vec![Some(vec![0, 0, 1, 0]), None, Some(vec![1, 2])],
    );
    assert_eq!(row.len(), 3);
    assert_eq!(row.columns().len(), 3);
    assert!(matches!(row.try_get(0, Type::Int4), Ok(Some(Some(Value::Int4(256))))));
    assert!(matches!(row.try_get(1, Type::Bool), Ok(Some(None))));
    assert!(row.get(1, Type::Bool).is_none());
    assert!(matches!(row.try_get(0, Type::Int8), Err(Error::WrongType)));
    assert!(matches!(row.try_get(3, Type::Int4), Ok(None)));
    assert_eq!(row.column_index("c"), Some(2));
    assert_eq!(row.column_index("zz"), None);
    assert!(matches!(row.try_get_named("a", Type::Int4), Ok(Some(Some(Value::Int4(256))))));
    assert!(matches!(row.try_get_named("zz", Type::Int4), Ok(None)));
    assert!(matches!(row.try_get(2, Type::Int4), Err(Error::InvalidValue)));
}
