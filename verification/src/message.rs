//! The wire envelopes: the event a machine sends and the reply it gets.

use vstd::prelude::*;
use vstd::string::*;
use crate::clock::{now_rfc3339, utc_rfc3339_shape};

verus! {

/// One decoded event envelope.
///
/// A metric value is held as the bit pattern of its 64-bit float, so that the
/// library carries it unchanged from the wire to the store.
#[derive(Debug, Clone)]
pub struct LogMessage {
    pub machine_id: String,
    /// Supplied by the client; accepted, and not used as the ingestion time.
    pub timestamp: String,
    pub metrics: Vec<(String, u64)>,
}

/// The metrics of an envelope as plain values: name and value bits, in order.
pub open spec fn metrics_view(metrics: Seq<(String, u64)>) -> Seq<(Seq<char>, u64)> {
    Seq::new(metrics.len(), |i: int| (metrics[i].0@, metrics[i].1))
}

/// No metric name occurs twice.
pub open spec fn names_distinct(metrics: Seq<(String, u64)>) -> bool {
    forall|i: int, j: int|
        0 <= i < j < metrics.len() ==> (#[trigger] metrics[i]).0@ != (#[trigger] metrics[j]).0@
}

impl LogMessage {
    /// The metrics are a mapping: each name has one value.
    pub open spec fn well_formed(&self) -> bool {
        names_distinct(self.metrics@)
    }

    /// The envelope of the given parts, unless a metric name occurs twice.
    pub fn new(machine_id: String, timestamp: String, metrics: Vec<(String, u64)>) -> (r: Option<
        LogMessage,
    >)
        ensures
            r is Some <==> names_distinct(metrics@),
            r matches Some(m) ==> m.machine_id == machine_id && m.timestamp == timestamp
                && m.metrics == metrics && m.well_formed(),
    {
        let mut j: usize = 0;
        while j < metrics.len()
            invariant
                j <= metrics.len(),
                forall|a: int, b: int|
                    0 <= a < b < j ==> (#[trigger] metrics@[a]).0@ != (#[trigger] metrics@[b]).0@,
            decreases metrics.len() - j,
        {
            let mut i: usize = 0;
            while i < j
                invariant
                    i <= j,
                    j < metrics.len(),
                    forall|a: int| 0 <= a < i ==> (#[trigger] metrics@[a]).0@ != metrics@[j as int].0@,
                decreases j - i,
            {
                if metrics[i].0 == metrics[j].0 {
                    assert(!names_distinct(metrics@));
                    return None;
                }
                i += 1;
            }
            j += 1;
        }
        Some(LogMessage { machine_id, timestamp, metrics })
    }
}

/// The reply envelope.
#[derive(Debug, Clone)]
pub struct Response {
    pub status: String,
    pub message: String,
    pub timestamp: String,
}

/// What a reply reports.
#[derive(Debug, Clone, Copy, PartialEq, Eq)]
pub enum ReplyKind {
    /// The event and its readings were committed.
    Stored,
    /// The store refused or could not be reached; detail stays on the server.
    StoreFailed,
    /// The bytes were not a valid envelope.
    Undecodable,
}

pub open spec fn status_text(kind: ReplyKind) -> Seq<char> {
    match kind {
        ReplyKind::Stored => "success"@,
        ReplyKind::StoreFailed => "error"@,
        ReplyKind::Undecodable => "error"@,
    }
}

pub open spec fn message_text(kind: ReplyKind, diagnostic: Seq<char>) -> Seq<char> {
    match kind {
        ReplyKind::Stored => "Log received and stored"@,
        ReplyKind::StoreFailed => "Failed to store log"@,
        ReplyKind::Undecodable => "Invalid JSON: "@ + diagnostic,
    }
}

/// The compact JSON object of a reply, given its three fields already written
/// as JSON strings.
pub open spec fn envelope_text(
    status: Seq<char>,
    message: Seq<char>,
    timestamp: Seq<char>,
) -> Seq<char> {
    "{\"status\":"@ + status + ",\"message\":"@ + message + ",\"timestamp\":"@ + timestamp
        + "}"@
}

/// The lower-case hexadecimal digit of a number below sixteen.
pub open spec fn hex_digit(n: int) -> char {
    seq!['0', '1', '2', '3', '4', '5', '6', '7', '8', '9', 'a', 'b', 'c', 'd', 'e', 'f'][n]
}

/// How one character stands inside a JSON string literal: the quote and the
/// backslash behind a backslash, the control characters as their short
/// escapes or as `\u00` and two hexadecimal digits, every other character as
/// itself.
pub open spec fn json_escape(c: char) -> Seq<char> {
    if c == '"' {
        seq!['\\', '"']
    } else if c == '\\' {
        seq!['\\', '\\']
    } else if c == '\u{8}' {
        seq!['\\', 'b']
    } else if c == '\t' {
        seq!['\\', 't']
    } else if c == '\n' {
        seq!['\\', 'n']
    } else if c == '\u{c}' {
        seq!['\\', 'f']
    } else if c == '\r' {
        seq!['\\', 'r']
    } else if (c as u32) < 0x20 {
        seq!['\\', 'u', '0', '0', hex_digit((c as u32) as int / 16), hex_digit((c as u32) as int % 16)]
    } else {
        seq![c]
    }
}

/// The JSON string literal of a string: a quote, each character as
/// `json_escape` writes it, and a quote.
pub open spec fn json_string_text(s: Seq<char>) -> Seq<char> {
    seq!['"'] + json_body(s) + seq!['"']
}

/// A character that stands for itself inside a JSON string literal.
pub open spec fn is_plain(c: char) -> bool {
    c != '"' && c != '\\' && (c as u32) >= 0x20
}

/// The characters of a string as `json_escape` writes them, one after another.
pub open spec fn json_body(s: Seq<char>) -> Seq<char> {
    s.map_values(|c: char| json_escape(c)).flatten()
}

/// Text of plain characters is its own body.
pub proof fn lemma_plain_body(s: Seq<char>)
    requires
        forall|i: int| 0 <= i < s.len() ==> is_plain(#[trigger] s[i]),
    ensures
        json_body(s) == s,
        json_string_text(s) == seq!['"'] + s + seq!['"'],
    decreases s.len(),
{
    let parts = s.map_values(|c: char| json_escape(c));
    if s.len() == 0 {
        assert(parts.flatten() =~= s);
    } else {
        let rest = s.drop_first();
        lemma_plain_body(rest);
        assert(parts.drop_first() =~= rest.map_values(|c: char| json_escape(c)));
        assert(parts.first() == seq![s[0]]);
        assert(seq![s[0]] + rest =~= s);
    }
}

/// The body of two texts joined is their bodies joined.
pub proof fn lemma_body_of_joined(a: Seq<char>, b: Seq<char>)
    ensures
        json_body(a + b) == json_body(a) + json_body(b),
    decreases a.len(),
{
    let f = |c: char| json_escape(c);
    if a.len() == 0 {
        assert(a + b =~= b);
        assert(a.map_values(f).flatten() =~= Seq::<char>::empty());
        assert(json_body(a) + json_body(b) =~= json_body(b));
    } else {
        lemma_body_of_joined(a.drop_first(), b);
        assert((a + b).drop_first() =~= a.drop_first() + b);
        assert((a + b).map_values(f).drop_first() =~= (a.drop_first() + b).map_values(f));
        assert(a.map_values(f).drop_first() =~= a.drop_first().map_values(f));
        assert((a + b).map_values(f).first() == a.map_values(f).first());
        assert(json_body(a + b) =~= json_body(a) + json_body(b));
    }
}

/// The reply to undecodable bytes as the client reads it: the fixed prefix
/// written out, then the parser's words as `json_escape` writes them.
pub proof fn lemma_invalid_json_reply_text(diagnostic: Seq<char>, timestamp: Seq<char>)
    ensures
        envelope_text(
            json_string_text(status_text(ReplyKind::Undecodable)),
            json_string_text(message_text(ReplyKind::Undecodable, diagnostic)),
            json_string_text(timestamp),
        ) == "{\"status\":\"error\",\"message\":\"Invalid JSON: "@ + json_body(diagnostic)
            + "\",\"timestamp\":"@ + json_string_text(timestamp) + "}"@,
{
    reveal_strlit("error");
    reveal_strlit("Invalid JSON: ");
    reveal_strlit("{\"status\":");
    reveal_strlit(",\"message\":");
    reveal_strlit(",\"timestamp\":");
    reveal_strlit("{\"status\":\"error\",\"message\":\"Invalid JSON: ");
    reveal_strlit("\",\"timestamp\":");
    lemma_plain_body("error"@);
    lemma_plain_body("Invalid JSON: "@);
    lemma_body_of_joined("Invalid JSON: "@, diagnostic);
    let head = "{\"status\":"@ + (seq!['"'] + "error"@ + seq!['"']) + ",\"message\":"@ + (seq![
        '"',
    ] + "Invalid JSON: "@);
    assert(head =~= "{\"status\":\"error\",\"message\":\"Invalid JSON: "@);
    assert(seq!['"'] + ",\"timestamp\":"@ =~= "\",\"timestamp\":"@);
    assert(envelope_text(
        json_string_text("error"@),
        json_string_text("Invalid JSON: "@ + diagnostic),
        json_string_text(timestamp),
    ) =~= head + json_body(diagnostic) + (seq!['"'] + ",\"timestamp\":"@) + json_string_text(
        timestamp,
    ) + "}"@);
}

/// The acknowledgement as the client reads it: the two fixed fields written
/// out, and the timestamp as a JSON string.
pub proof fn lemma_success_reply_text(timestamp: Seq<char>)
    ensures
        envelope_text(
            json_string_text(status_text(ReplyKind::Stored)),
            json_string_text(message_text(ReplyKind::Stored, Seq::empty())),
            json_string_text(timestamp),
        ) == "{\"status\":\"success\",\"message\":\"Log received and stored\",\"timestamp\":"@
            + json_string_text(timestamp) + "}"@,
{
    reveal_strlit("success");
    reveal_strlit("Log received and stored");
    reveal_strlit("{\"status\":");
    reveal_strlit(",\"message\":");
    reveal_strlit(",\"timestamp\":");
    reveal_strlit("{\"status\":\"success\",\"message\":\"Log received and stored\",\"timestamp\":");
    lemma_plain_body("success"@);
    lemma_plain_body("Log received and stored"@);
    let head = "{\"status\":"@ + (seq!['"'] + "success"@ + seq!['"']) + ",\"message\":"@ + (seq![
        '"',
    ] + "Log received and stored"@ + seq!['"']) + ",\"timestamp\":"@;
    assert(head
        =~= "{\"status\":\"success\",\"message\":\"Log received and stored\",\"timestamp\":"@);
}

/// The generic store failure as the client reads it.
pub proof fn lemma_store_failure_reply_text(timestamp: Seq<char>)
    ensures
        envelope_text(
            json_string_text(status_text(ReplyKind::StoreFailed)),
            json_string_text(message_text(ReplyKind::StoreFailed, Seq::empty())),
            json_string_text(timestamp),
        ) == "{\"status\":\"error\",\"message\":\"Failed to store log\",\"timestamp\":"@
            + json_string_text(timestamp) + "}"@,
{
    reveal_strlit("error");
    reveal_strlit("Failed to store log");
    reveal_strlit("{\"status\":");
    reveal_strlit(",\"message\":");
    reveal_strlit(",\"timestamp\":");
    reveal_strlit("{\"status\":\"error\",\"message\":\"Failed to store log\",\"timestamp\":");
    lemma_plain_body("error"@);
    lemma_plain_body("Failed to store log"@);
    let head = "{\"status\":"@ + (seq!['"'] + "error"@ + seq!['"']) + ",\"message\":"@ + (seq![
        '"',
    ] + "Failed to store log"@ + seq!['"']) + ",\"timestamp\":"@;
    assert(head
        =~= "{\"status\":\"error\",\"message\":\"Failed to store log\",\"timestamp\":"@);
}

/// `serde_json::to_string` on a string slice.
///
/// Trusted: the call succeeds, and its text is the JSON string literal of `s`
/// as `json_string_text` spells it. It succeeds because a string
/// slice serializes by `serialize_str` alone, whose only errors are those of
/// the writer, and `to_string` writes to a byte vector in memory, which takes
/// every write.
#[verifier::external_body]
fn json_string(s: &str) -> (r: Option<String>)
    ensures
        r is Some,
        r matches Some(t) ==> t@ == json_string_text(s@),
{
    match serde_json::to_string(s) {
        Ok(t) => Some(t),
        Err(_) => None,
    }
}

/// Frames three JSON string literals as the reply object.
pub fn frame_envelope(status: &str, message: &str, timestamp: &str) -> (text: String)
    ensures
        text@ == envelope_text(status@, message@, timestamp@),
{
    let mut text = String::from_str("{\"status\":");
    text.append(status);
    text.append(",\"message\":");
    text.append(message);
    text.append(",\"timestamp\":");
    text.append(timestamp);
    text.append("}");
    text
}

impl Response {
    /// The reply of the given kind. `diagnostic` is read for
    /// `ReplyKind::Undecodable` only.
    pub fn reply(kind: ReplyKind, diagnostic: &str, timestamp: String) -> (r: Response)
        ensures
            r.status@ == status_text(kind),
            r.message@ == message_text(kind, diagnostic@),
            r.timestamp@ == timestamp@,
    {
        match kind {
            ReplyKind::Stored => Response::success(timestamp),
            ReplyKind::StoreFailed => Response::store_failed(timestamp),
            ReplyKind::Undecodable => Response::invalid_json(diagnostic, timestamp),
        }
    }

    /// The acknowledgement of a committed event.
    pub fn success(timestamp: String) -> (r: Response)
        ensures
            r.status@ == "success"@,
            r.message@ == "Log received and stored"@,
            r.timestamp@ == timestamp@,
    {
        Response {
            status: String::from_str("success"),
            message: String::from_str("Log received and stored"),
            timestamp,
        }
    }

    /// The generic failure reply for an event that the store did not take.
    pub fn store_failed(timestamp: String) -> (r: Response)
        ensures
            r.status@ == "error"@,
            r.message@ == "Failed to store log"@,
            r.timestamp@ == timestamp@,
    {
        Response {
            status: String::from_str("error"),
            message: String::from_str("Failed to store log"),
            timestamp,
        }
    }

    /// The reply to bytes that did not decode, carrying the parser's words.
    pub fn invalid_json(diagnostic: &str, timestamp: String) -> (r: Response)
        ensures
            r.status@ == "error"@,
            r.message@ == "Invalid JSON: "@ + diagnostic@,
            r.timestamp@ == timestamp@,
    {
        Response {
            status: String::from_str("error"),
            message: String::from_str("Invalid JSON: ").concat(diagnostic),
            timestamp,
        }
    }

    /// The reply of the given kind, stamped with the server's time at this
    /// call. Status and message are fixed by the kind; the timestamp is the
    /// clock's UTC time as RFC 3339 text.
    pub fn reply_now(kind: ReplyKind, diagnostic: &str) -> (r: Response)
        ensures
            r.status@ == status_text(kind),
            r.message@ == message_text(kind, diagnostic@),
            utc_rfc3339_shape(r.timestamp@),
    {
        Response::reply(kind, diagnostic, now_rfc3339())
    }

    /// The reply as compact JSON text, fields in the order status, message,
    /// timestamp. Every reply has its text: the result is never `None`.
    pub fn encode(&self) -> (r: Option<String>)
        ensures
            r matches Some(text) && text@ == envelope_text(
                json_string_text(self.status@),
                json_string_text(self.message@),
                json_string_text(self.timestamp@),
            ),
    {
        let status = json_string(self.status.as_str());
        let message = json_string(self.message.as_str());
        let timestamp = json_string(self.timestamp.as_str());
        match (status, message, timestamp) {
            (Some(s), Some(m), Some(t)) => Some(
                frame_envelope(s.as_str(), m.as_str(), t.as_str()),
            ),
            _ => None,
        }
    }
}

} // verus!
