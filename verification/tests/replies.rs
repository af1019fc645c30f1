use telemetry_ingest::message::{frame_envelope, ReplyKind, Response};

#[test]
fn success_reply_has_fixed_status_and_message() {
    let r = Response::success("2024-01-01T00:00:00+00:00".to_string());
    assert_eq!(r.status, "success");
    assert_eq!(r.message, "Log received and stored");
    assert_eq!(r.timestamp, "2024-01-01T00:00:00+00:00");
}

#[test]
fn store_failure_reply_is_generic() {
    let r = Response::store_failed("t".to_string());
    assert_eq!(r.status, "error");
    assert_eq!(r.message, "Failed to store log");
    assert_eq!(r.timestamp, "t");
}

#[test]
fn invalid_json_reply_carries_the_diagnostic() {
    let r = Response::invalid_json("expected value at line 1 column 1", "t".to_string());
    assert_eq!(r.status, "error");
    assert_eq!(r.message, "Invalid JSON: expected value at line 1 column 1");
}

#[test]
fn not_json_gives_an_error_reply_with_the_parsers_words() {
    let err = serde_json::from_str::<serde_json::Value>("not json").unwrap_err();
    let r = Response::reply(ReplyKind::Undecodable, &err.to_string(), "t".to_string());
    assert_eq!(r.status, "error");
    assert_eq!(r.message, format!("Invalid JSON: {}", err));
    assert!(r.message.starts_with("Invalid JSON: "));
    assert!(r.message.len() > "Invalid JSON: ".len());
}

#[test]
fn reply_by_kind_matches_the_named_constructors() {
    let a = Response::reply(ReplyKind::Stored, "ignored", "t".to_string());
    assert_eq!((a.status.as_str(), a.message.as_str()), ("success", "Log received and stored"));
    let b = Response::reply(ReplyKind::StoreFailed, "ignored", "t".to_string());
    assert_eq!((b.status.as_str(), b.message.as_str()), ("error", "Failed to store log"));
    let c = Response::reply(ReplyKind::Undecodable, "why", "t".to_string());
    assert_eq!((c.status.as_str(), c.message.as_str()), ("error", "Invalid JSON: why"));
}

#[test]
fn frame_envelope_joins_three_literals() {
    assert_eq!(
        frame_envelope("\"a\"", "\"b\"", "\"c\""),
        "{\"status\":\"a\",\"message\":\"b\",\"timestamp\":\"c\"}"
    );
    assert_eq!(frame_envelope("", "", ""), "{\"status\":,\"message\":,\"timestamp\":}");
}

#[test]
fn encoded_success_reply_is_compact_json() {
    let r = Response::success("2024-01-01T00:00:00+00:00".to_string());
    assert_eq!(
        r.encode().unwrap(),
        "{\"status\":\"success\",\"message\":\"Log received and stored\",\"timestamp\":\"2024-01-01T00:00:00+00:00\"}"
    );
}

#[test]
fn encoded_reply_escapes_its_fields() {
    let r = Response::invalid_json("bad \"quote\"\nline \\ end", "t".to_string());
    let text = r.encode().unwrap();
    assert_eq!(
        text,
        "{\"status\":\"error\",\"message\":\"Invalid JSON: bad \\\"quote\\\"\\nline \\\\ end\",\"timestamp\":\"t\"}"
    );
    let back: serde_json::Value = serde_json::from_str(&text).unwrap();
    assert_eq!(back["status"].as_str(), Some("error"));
    assert_eq!(back["message"].as_str(), Some("Invalid JSON: bad \"quote\"\nline \\ end"));
    assert_eq!(back["timestamp"].as_str(), Some("t"));
    assert_eq!(back.as_object().unwrap().len(), 3);
}

#[test]
fn reply_now_is_stamped_with_an_rfc3339_time() {
    let before = chrono::Utc::now();
    let r = Response::reply_now(ReplyKind::Stored, "");
    let after = chrono::Utc::now();
    assert_eq!(r.status, "success");
    assert_eq!(r.message, "Log received and stored");
    let stamp = chrono::DateTime::parse_from_rfc3339(&r.timestamp).unwrap();
    assert!(before <= stamp && stamp <= after);
    assert_eq!(stamp.offset().local_minus_utc(), 0);
    assert!(r.timestamp.len() >= 25);
    assert!(r.timestamp.ends_with("+00:00"));
    let t = r.timestamp.find('T').unwrap();
    let bytes = r.timestamp.as_bytes();
    assert_eq!((bytes[t - 3], bytes[t - 6], bytes[t + 3], bytes[t + 6]), (b'-', b'-', b':', b':'));
    let e = Response::reply_now(ReplyKind::Undecodable, "x");
    assert_eq!(e.status, "error");
    assert_eq!(e.message, "Invalid JSON: x");
}

#[test]
fn every_reply_has_its_text() {
    let odd = "\u{0}\u{1f}\u{7f}\t\r\u{8}\u{c}/\u{e9}\u{2028}\u{1f600}";
    let r = Response { status: odd.to_string(), message: String::new(), timestamp: odd.to_string() };
    let text = r.encode().unwrap();
    let back: serde_json::Value = serde_json::from_str(&text).unwrap();
    assert_eq!(back["status"].as_str(), Some(odd));
    assert_eq!(back["message"].as_str(), Some(""));
    assert_eq!(back["timestamp"].as_str(), Some(odd));
    assert!(text.starts_with("{\"status\":\"\\u0000\\u001f"));
    let empty = Response { status: String::new(), message: String::new(), timestamp: String::new() };
    assert_eq!(
        empty.encode().unwrap(),
        "{\"status\":\"\",\"message\":\"\",\"timestamp\":\"\"}"
    );
}
