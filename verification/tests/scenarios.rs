use telemetry_ingest::codec::{decode_text, finish_decode, CodecError, Envelope};
use telemetry_ingest::db::models::{MachineLog, Metric, TxnAction, TxnEvent};
use telemetry_ingest::handler::{
    decoded_event, store_request, store_request_at, stored_event, ConnAction, ConnEvent,
    Connection,
};
use telemetry_ingest::message::{LogMessage, Response};

const PRESS_7_REQUEST: &str = "{\"machine_id\":\"press-7\",\"timestamp\":\"2024-01-01T00:00:00Z\",\"metrics\":{\"temp\":91.2,\"vibration\":0.03}}";

/// An in-memory stand-in for the store: rows written inside a transaction
/// are staged and become visible at the commit.
struct FakeStore {
    logs: Vec<MachineLog>,
    metrics: Vec<Metric>,
    staged_logs: Vec<MachineLog>,
    staged_metrics: Vec<Metric>,
    next_log_id: i32,
    next_metric_id: i32,
    fail_begin: bool,
    fail_readings: bool,
    statements: Vec<String>,
}

fn fake_store() -> FakeStore {
    FakeStore {
        logs: Vec::new(),
        metrics: Vec::new(),
        staged_logs: Vec::new(),
        staged_metrics: Vec::new(),
        next_log_id: 1,
        next_metric_id: 1,
        fail_begin: false,
        fail_readings: false,
        statements: Vec::new(),
    }
}

fn store(db: &mut FakeStore, envelope: Envelope) -> Option<(i32, usize)> {
    let mut txn = store_request(envelope);
    for _ in 0..16 {
        assert_eq!(stored_event(&txn).is_some(), txn.is_finished());
        let event = match txn.action() {
            TxnAction::Begin => {
                db.statements.push("begin".to_string());
                if db.fail_begin {
                    TxnEvent::Failed
                } else {
                    db.staged_logs.clear();
                    db.staged_metrics.clear();
                    TxnEvent::Begun
                }
            }
            TxnAction::InsertLog { timestamp } => {
                db.statements.push("insert log".to_string());
                let id = db.next_log_id;
                db.next_log_id += 1;
                db.staged_logs.push(MachineLog {
                    id,
                    machine_id: txn.machine_id.clone(),
                    timestamp,
                    raw_data: txn.raw_data.clone(),
                    created_at: 0,
                });
                TxnEvent::LogInserted { id }
            }
            TxnAction::InsertReadings(batch) => {
                db.statements.push(format!("insert {} readings", batch.log_ids.len()));
                if db.fail_readings {
                    TxnEvent::Failed
                } else {
                    for i in 0..batch.log_ids.len() {
                        db.staged_metrics.push(Metric {
                            id: db.next_metric_id,
                            log_id: batch.log_ids[i],
                            metric_name: batch.names[i].clone(),
                            metric_value: batch.values[i],
                        });
                        db.next_metric_id += 1;
                    }
                    TxnEvent::ReadingsInserted
                }
            }
            TxnAction::Commit => {
                db.statements.push("commit".to_string());
                db.logs.append(&mut db.staged_logs);
                db.metrics.append(&mut db.staged_metrics);
                TxnEvent::Committed
            }
            TxnAction::Rollback => {
                db.statements.push("rollback".to_string());
                db.staged_logs.clear();
                db.staged_metrics.clear();
                TxnEvent::RolledBack
            }
            TxnAction::ReportStored { log_id, readings } => return Some((log_id, readings)),
            TxnAction::ReportFailed => return None,
        };
        txn.step(event);
    }
    panic!("the transaction did not end");
}

fn parse(text: &str) -> Result<LogMessage, String> {
    let value: serde_json::Value = serde_json::from_str(text).map_err(|e| e.to_string())?;
    let object = value.as_object().ok_or("not an object".to_string())?;
    let machine_id = object.get("machine_id").and_then(|v| v.as_str()).ok_or("machine_id")?;
    let timestamp = object.get("timestamp").and_then(|v| v.as_str()).ok_or("timestamp")?;
    let metrics = object.get("metrics").and_then(|v| v.as_object()).ok_or("metrics")?;
    let mut pairs = Vec::new();
    for (name, v) in metrics.iter() {
        pairs.push((name.clone(), v.as_f64().ok_or("metric value")?.to_bits()));
    }
    Ok(LogMessage {
        machine_id: machine_id.to_string(),
        timestamp: timestamp.to_string(),
        metrics: pairs,
    })
}

fn decode(bytes: &[u8]) -> Result<Envelope, CodecError> {
    let raw = decode_text(bytes)?;
    let parsed = parse(&raw);
    finish_decode(raw, parsed)
}

/// Feeds one read to the connection and returns the reply it wrote, if any.
fn serve_one(conn: &mut Connection, db: &mut FakeStore, bytes: &[u8]) -> Option<Response> {
    let mut envelope = None;
    let mut diagnostic = String::new();
    let mut action = conn.step(ConnEvent::Read { len: bytes.len() });
    let mut written = None;
    for _ in 0..8 {
        let event = match action {
            ConnAction::Read | ConnAction::Close => return written,
            ConnAction::Decode => {
                let outcome = decode(bytes);
                let event = decoded_event(&outcome);
                match outcome {
                    Ok(e) => envelope = Some(e),
                    Err(e) => diagnostic = e.diagnostic(),
                }
                event
            }
            ConnAction::Store => match store(db, envelope.take().unwrap()) {
                Some(_) => ConnEvent::Stored,
                None => ConnEvent::StoreFailed,
            },
            ConnAction::Write { reply } => {
                written = Some(Response::reply_now(reply, &diagnostic));
                ConnEvent::Written
            }
        };
        action = conn.step(event);
    }
    panic!("the connection did not come to rest");
}

#[test]
fn press_7_is_stored_with_its_two_readings() {
    let mut db = fake_store();
    let mut conn = Connection::new();
    let reply = serve_one(&mut conn, &mut db, PRESS_7_REQUEST.as_bytes()).unwrap();
    assert_eq!(reply.status, "success");
    assert_eq!(reply.message, "Log received and stored");
    assert!(chrono::DateTime::parse_from_rfc3339(&reply.timestamp).is_ok());

    let logs: Vec<&MachineLog> = db.logs.iter().filter(|l| l.machine_id == "press-7").collect();
    assert_eq!(logs.len(), 1);
    assert_eq!(logs[0].raw_data, PRESS_7_REQUEST);
    assert_eq!(logs[0].raw_data.as_bytes(), PRESS_7_REQUEST.as_bytes());
    let client_time = chrono::DateTime::parse_from_rfc3339("2024-01-01T00:00:00Z").unwrap();
    assert!(logs[0].timestamp > client_time.timestamp_micros());
    assert!(logs[0].timestamp <= chrono::Utc::now().timestamp_micros());
    let mut readings: Vec<(String, f64)> = db
        .metrics
        .iter()
        .filter(|m| m.log_id == logs[0].id)
        .map(|m| (m.metric_name.clone(), f64::from_bits(m.metric_value)))
        .collect();
    readings.sort_by(|a, b| a.0.cmp(&b.0));
    assert_eq!(readings, vec![("temp".to_string(), 91.2), ("vibration".to_string(), 0.03)]);
    assert_eq!(db.metrics.len(), 2);
    assert_eq!(
        db.statements,
        vec!["begin", "insert log", "insert 2 readings", "commit"]
    );
}

#[test]
fn not_json_is_answered_and_the_connection_serves_the_next_request() {
    let mut db = fake_store();
    let mut conn = Connection::new();
    let reply = serve_one(&mut conn, &mut db, b"not json").unwrap();
    assert_eq!(reply.status, "error");
    assert!(reply.message.starts_with("Invalid JSON: "));
    assert!(reply.message.len() > "Invalid JSON: ".len());
    assert!(db.logs.is_empty());
    assert!(db.statements.is_empty());

    let reply = serve_one(&mut conn, &mut db, PRESS_7_REQUEST.as_bytes()).unwrap();
    assert_eq!(reply.status, "success");
    assert_eq!(db.logs.len(), 1);
}

#[test]
fn incomplete_json_is_answered_with_an_error() {
    let mut db = fake_store();
    let mut conn = Connection::new();
    let reply = serve_one(&mut conn, &mut db, b"{\"machine_id\":\"press-7\",").unwrap();
    assert_eq!(reply.status, "error");
    assert!(reply.message.starts_with("Invalid JSON: "));
    assert!(db.logs.is_empty());
}

#[test]
fn bytes_that_are_not_text_are_answered_with_an_error() {
    let mut db = fake_store();
    let mut conn = Connection::new();
    let reply = serve_one(&mut conn, &mut db, &[0xff, 0x00, 0x80]).unwrap();
    assert_eq!(reply.status, "error");
    assert_eq!(reply.message, "Invalid JSON: input is not valid UTF-8");
    assert!(db.logs.is_empty());
    let reply = serve_one(&mut conn, &mut db, PRESS_7_REQUEST.as_bytes()).unwrap();
    assert_eq!(reply.status, "success");
}

#[test]
fn request_without_metrics_stores_a_log_and_no_readings() {
    let mut db = fake_store();
    let mut conn = Connection::new();
    let request = "{\"machine_id\":\"idle-1\",\"timestamp\":\"t\",\"metrics\":{}}";
    let reply = serve_one(&mut conn, &mut db, request.as_bytes()).unwrap();
    assert_eq!(reply.status, "success");
    assert_eq!(db.logs.len(), 1);
    assert!(db.metrics.is_empty());
    assert_eq!(db.statements, vec!["begin", "insert log", "commit"]);
}

#[test]
fn failed_readings_leave_no_log_visible() {
    let mut db = fake_store();
    db.fail_readings = true;
    let mut conn = Connection::new();
    let reply = serve_one(&mut conn, &mut db, PRESS_7_REQUEST.as_bytes()).unwrap();
    assert_eq!(reply.status, "error");
    assert_eq!(reply.message, "Failed to store log");
    assert!(db.logs.is_empty());
    assert!(db.metrics.is_empty());
    assert_eq!(
        db.statements,
        vec!["begin", "insert log", "insert 2 readings", "rollback"]
    );

    db.fail_readings = false;
    let reply = serve_one(&mut conn, &mut db, PRESS_7_REQUEST.as_bytes()).unwrap();
    assert_eq!(reply.status, "success");
    assert_eq!(db.logs.len(), 1);
    assert_eq!(db.metrics.len(), 2);
}

#[test]
fn exhausted_pool_is_answered_with_an_error_and_nothing_is_written() {
    let mut db = fake_store();
    db.fail_begin = true;
    let mut conn = Connection::new();
    let reply = serve_one(&mut conn, &mut db, PRESS_7_REQUEST.as_bytes()).unwrap();
    assert_eq!(reply.status, "error");
    assert_eq!(reply.message, "Failed to store log");
    assert_eq!(db.statements, vec!["begin"]);
    assert!(db.logs.is_empty());

    db.fail_begin = false;
    let reply = serve_one(&mut conn, &mut db, PRESS_7_REQUEST.as_bytes()).unwrap();
    assert_eq!(reply.status, "success");
}

#[test]
fn two_machines_see_only_their_own_rows() {
    let mut db = fake_store();
    let mut a = Connection::new();
    let mut b = Connection::new();
    let lathe = "{\"machine_id\":\"lathe-2\",\"timestamp\":\"t\",\"metrics\":{\"rpm\":1200}}";
    serve_one(&mut a, &mut db, PRESS_7_REQUEST.as_bytes()).unwrap();
    serve_one(&mut b, &mut db, lathe.as_bytes()).unwrap();
    serve_one(&mut a, &mut db, PRESS_7_REQUEST.as_bytes()).unwrap();

    let press: Vec<&MachineLog> = db.logs.iter().filter(|l| l.machine_id == "press-7").collect();
    let lathes: Vec<&MachineLog> = db.logs.iter().filter(|l| l.machine_id == "lathe-2").collect();
    assert_eq!(press.len(), 2);
    assert_eq!(lathes.len(), 1);
    assert_eq!(lathes[0].raw_data, lathe);
    let of_lathe: Vec<&Metric> = db.metrics.iter().filter(|m| m.log_id == lathes[0].id).collect();
    assert_eq!(of_lathe.len(), 1);
    assert_eq!(of_lathe[0].metric_name, "rpm");
    assert_eq!(f64::from_bits(of_lathe[0].metric_value), 1200.0);
    for log in press {
        let names: Vec<&str> = db
            .metrics
            .iter()
            .filter(|m| m.log_id == log.id)
            .map(|m| m.metric_name.as_str())
            .collect();
        assert_eq!(names.len(), 2);
        assert!(names.contains(&"temp") && names.contains(&"vibration"));
    }
}

#[test]
fn empty_read_ends_the_connection_without_a_reply() {
    let mut db = fake_store();
    let mut conn = Connection::new();
    assert!(serve_one(&mut conn, &mut db, b"").is_none());
    assert!(serve_one(&mut conn, &mut db, PRESS_7_REQUEST.as_bytes()).is_none());
    assert!(db.logs.is_empty());
}

#[test]
fn decoding_outcomes_as_connection_events() {
    assert_eq!(decoded_event(&decode(PRESS_7_REQUEST.as_bytes())), ConnEvent::Decoded);
    assert_eq!(decoded_event(&decode(b"not json")), ConnEvent::Undecodable);
    assert_eq!(decoded_event(&decode(&[0xff])), ConnEvent::Undecodable);
}

#[test]
fn store_request_submits_the_pristine_text() {
    let raw = " {\"metrics\":{\"temp\":1.5}, \"timestamp\":\"then\",\n \"machine_id\":\"press-7\"} ";
    let txn = store_request(decode(raw.as_bytes()).unwrap());
    assert_eq!(txn.raw_data, raw);
    assert_eq!(txn.machine_id, "press-7");
    assert_eq!(txn.metrics, vec![("temp".to_string(), 1.5f64.to_bits())]);
    assert!(matches!(txn.action(), TxnAction::Begin));
    assert_eq!(stored_event(&txn), None);
}

#[test]
fn transaction_ends_as_connection_events() {
    let mut txn = store_request(decode(PRESS_7_REQUEST.as_bytes()).unwrap());
    txn.step(TxnEvent::Begun);
    assert_eq!(stored_event(&txn), None);
    txn.step(TxnEvent::LogInserted { id: 1 });
    txn.step(TxnEvent::ReadingsInserted);
    assert_eq!(stored_event(&txn), None);
    txn.step(TxnEvent::Committed);
    assert_eq!(stored_event(&txn), Some(ConnEvent::Stored));

    let mut txn = store_request(decode(PRESS_7_REQUEST.as_bytes()).unwrap());
    txn.step(TxnEvent::Begun);
    txn.step(TxnEvent::Failed);
    assert_eq!(stored_event(&txn), None);
    txn.step(TxnEvent::RolledBack);
    assert_eq!(stored_event(&txn), Some(ConnEvent::StoreFailed));
}

#[test]
fn ingestion_time_is_the_servers_not_the_clients() {
    let txn = store_request_at(decode(PRESS_7_REQUEST.as_bytes()).unwrap(), 42);
    assert_eq!(txn.timestamp, 42);
    assert_eq!(txn.raw_data, PRESS_7_REQUEST);
    assert_eq!(txn.machine_id, "press-7");
    assert_eq!(txn.metrics.len(), 2);
    let later = "{\"machine_id\":\"press-7\",\"timestamp\":\"2999-01-01T00:00:00Z\",\"metrics\":{}}";
    let txn = store_request_at(decode(later.as_bytes()).unwrap(), -7);
    assert_eq!(txn.timestamp, -7);
}
