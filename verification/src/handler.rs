//! The connection handler's decisions.
//!
//! One unit serves one connection, strictly in sequence: read, decode, store,
//! reply, and read again. The caller does the reading, the parsing, the
//! storing and the writing; `Connection` says what comes next.

use vstd::prelude::*;
use crate::codec::{CodecError, Envelope};
use crate::db::ledger::{Session, lemma_store_is_atomic, run, with_event};
use crate::db::models::{MachineLog, StoreTxn, Submission, TxnEvent, TxnPhase};
use crate::message::{LogMessage, ReplyKind, metrics_view, status_text};

verus! {

/// The size of the buffer that one read fills. A read is taken as one whole
/// message, so a message longer than this does not arrive whole.
pub const READ_BUFFER_SIZE: usize = 1024;

/// What a connection is waiting for.
#[derive(Debug, Clone, Copy, PartialEq, Eq)]
pub enum ConnPhase {
    AwaitingRead,
    AwaitingDecode,
    AwaitingStore,
    /// A reply of this kind is being written.
    AwaitingWrite { reply: ReplyKind },
    Closed,
}

/// What happened outside.
#[derive(Debug, Clone, Copy, PartialEq, Eq)]
pub enum ConnEvent {
    /// A read returned this many bytes; none means the peer closed.
    Read { len: usize },
    ReadFailed,
    Decoded,
    Undecodable,
    Stored,
    StoreFailed,
    Written,
    /// The reply could not be put into text, and nothing was written.
    ReplyDropped,
    WriteFailed,
}

/// What the caller does next.
#[derive(Debug, Clone, Copy, PartialEq, Eq)]
pub enum ConnAction {
    Read,
    /// Treat the bytes of the last read as one whole message and decode it.
    Decode,
    Store,
    Write { reply: ReplyKind },
    Close,
}

/// The phase after `event` arrives in `phase`.
///
/// Every non-empty read is one message. A decoding or store failure is
/// answered and the connection goes on; only an empty read, a failed read or a
/// failed write ends it. An event that the phase was not waiting for ends it
/// too, and a closed connection stays closed.
pub open spec fn next_conn_phase(phase: ConnPhase, event: ConnEvent) -> ConnPhase {
    match phase {
        ConnPhase::AwaitingRead => match event {
            ConnEvent::Read { len } => if len == 0 {
                ConnPhase::Closed
            } else {
                ConnPhase::AwaitingDecode
            },
            _ => ConnPhase::Closed,
        },
        ConnPhase::AwaitingDecode => match event {
            ConnEvent::Decoded => ConnPhase::AwaitingStore,
            ConnEvent::Undecodable => ConnPhase::AwaitingWrite { reply: ReplyKind::Undecodable },
            _ => ConnPhase::Closed,
        },
        ConnPhase::AwaitingStore => match event {
            ConnEvent::Stored => ConnPhase::AwaitingWrite { reply: ReplyKind::Stored },
            ConnEvent::StoreFailed => ConnPhase::AwaitingWrite { reply: ReplyKind::StoreFailed },
            _ => ConnPhase::Closed,
        },
        ConnPhase::AwaitingWrite { .. } => match event {
            ConnEvent::Written => ConnPhase::AwaitingRead,
            ConnEvent::ReplyDropped => ConnPhase::AwaitingRead,
            _ => ConnPhase::Closed,
        },
        ConnPhase::Closed => ConnPhase::Closed,
    }
}

/// What a phase asks of the caller.
pub open spec fn action_of(phase: ConnPhase) -> ConnAction {
    match phase {
        ConnPhase::AwaitingRead => ConnAction::Read,
        ConnPhase::AwaitingDecode => ConnAction::Decode,
        ConnPhase::AwaitingStore => ConnAction::Store,
        ConnPhase::AwaitingWrite { reply } => ConnAction::Write { reply },
        ConnPhase::Closed => ConnAction::Close,
    }
}

/// The phase after a connection has taken `events` in order.
pub open spec fn conn_run(phase: ConnPhase, events: Seq<ConnEvent>) -> ConnPhase
    decreases events.len(),
{
    if events.len() == 0 {
        phase
    } else {
        conn_run(next_conn_phase(phase, events[0]), events.drop_first())
    }
}

/// Whether a message has been read in `phase` and not yet been given its
/// reply: one if so, else none.
pub open spec fn owed(phase: ConnPhase) -> nat {
    match phase {
        ConnPhase::AwaitingDecode => 1,
        ConnPhase::AwaitingStore => 1,
        _ => 0,
    }
}

/// How many messages a connection in `phase` reads while it takes `events`.
pub open spec fn messages_read(phase: ConnPhase, events: Seq<ConnEvent>) -> nat
    decreases events.len(),
{
    if events.len() == 0 {
        0
    } else {
        let next = next_conn_phase(phase, events[0]);
        let here: nat = if phase is AwaitingRead && next is AwaitingDecode {
            1
        } else {
            0
        };
        here + messages_read(next, events.drop_first())
    }
}

/// How many replies a connection in `phase` is told to write while it takes
/// `events`.
pub open spec fn replies_asked(phase: ConnPhase, events: Seq<ConnEvent>) -> nat
    decreases events.len(),
{
    if events.len() == 0 {
        0
    } else {
        let next = next_conn_phase(phase, events[0]);
        let here: nat = if next is AwaitingWrite {
            1
        } else {
            0
        };
        here + replies_asked(next, events.drop_first())
    }
}

/// One connection's unit of execution.
#[derive(Debug, Clone, Copy)]
pub struct Connection {
    pub phase: ConnPhase,
}

impl Connection {
    /// A freshly accepted connection, about to read.
    pub fn new() -> (c: Connection)
        ensures
            c.phase == ConnPhase::AwaitingRead,
    {
        Connection { phase: ConnPhase::AwaitingRead }
    }

    /// Takes what happened and says what to do next.
    pub fn step(&mut self, event: ConnEvent) -> (action: ConnAction)
        ensures
            final(self).phase == next_conn_phase(old(self).phase, event),
            action == action_of(final(self).phase),
    {
        let next = match self.phase {
            ConnPhase::AwaitingRead => match event {
                ConnEvent::Read { len } => if len == 0 {
                    ConnPhase::Closed
                } else {
                    ConnPhase::AwaitingDecode
                },
                _ => ConnPhase::Closed,
            },
            ConnPhase::AwaitingDecode => match event {
                ConnEvent::Decoded => ConnPhase::AwaitingStore,
                ConnEvent::Undecodable => ConnPhase::AwaitingWrite {
                    reply: ReplyKind::Undecodable,
                },
                _ => ConnPhase::Closed,
            },
            ConnPhase::AwaitingStore => match event {
                ConnEvent::Stored => ConnPhase::AwaitingWrite { reply: ReplyKind::Stored },
                ConnEvent::StoreFailed => ConnPhase::AwaitingWrite {
                    reply: ReplyKind::StoreFailed,
                },
                _ => ConnPhase::Closed,
            },
            ConnPhase::AwaitingWrite { .. } => match event {
                ConnEvent::Written => ConnPhase::AwaitingRead,
                ConnEvent::ReplyDropped => ConnPhase::AwaitingRead,
                _ => ConnPhase::Closed,
            },
            ConnPhase::Closed => ConnPhase::Closed,
        };
        self.phase = next;
        match next {
            ConnPhase::AwaitingRead => ConnAction::Read,
            ConnPhase::AwaitingDecode => ConnAction::Decode,
            ConnPhase::AwaitingStore => ConnAction::Store,
            ConnPhase::AwaitingWrite { reply } => ConnAction::Write { reply },
            ConnPhase::Closed => ConnAction::Close,
        }
    }
}

/// What a decoding outcome is to the connection.
pub fn decoded_event(outcome: &Result<Envelope, CodecError>) -> (event: ConnEvent)
    ensures
        outcome is Ok ==> event == ConnEvent::Decoded,
        outcome is Err ==> event == ConnEvent::Undecodable,
{
    match outcome {
        Ok(_) => ConnEvent::Decoded,
        Err(_) => ConnEvent::Undecodable,
    }
}

/// Opens the store transaction for a decoded event, ingested at the given
/// server time. What is submitted is the machine and the readings of the
/// message, and as payload the text exactly as it was received; the ingestion
/// time is `received_at`, whatever timestamp the client wrote.
pub fn store_request_at(envelope: Envelope, received_at: i64) -> (txn: StoreTxn)
    ensures
        txn.phase == TxnPhase::Beginning,
        txn.well_formed(),
        txn.submission() == (Submission {
            machine_id: envelope.message.machine_id@,
            timestamp: received_at,
            raw_data: envelope.raw@,
            metrics: metrics_view(envelope.message.metrics@),
        }),
{
    let Envelope { message, raw } = envelope;
    let LogMessage { machine_id, timestamp: _, metrics } = message;
    StoreTxn::open(machine_id, received_at, raw, metrics)
}

/// Opens the store transaction for a decoded event, ingested at the server's
/// time at this call. What is submitted is the machine and the readings of
/// the message, and as payload the text exactly as it was received; the
/// ingestion time is whatever the clock gave, and the client's timestamp is
/// not used.
pub fn store_request(envelope: Envelope) -> (txn: StoreTxn)
    ensures
        txn.phase == TxnPhase::Beginning,
        txn.well_formed(),
        txn.submission() == (Submission {
            machine_id: envelope.message.machine_id@,
            timestamp: txn.timestamp,
            raw_data: envelope.raw@,
            metrics: metrics_view(envelope.message.metrics@),
        }),
{
    let Envelope { message, raw } = envelope;
    let LogMessage { machine_id, timestamp: _, metrics } = message;
    MachineLog::create_with_metrics(machine_id, raw, metrics)
}

/// What the end of a store transaction is to the connection; nothing while
/// the transaction is still under way.
pub open spec fn store_event(phase: TxnPhase) -> Option<ConnEvent> {
    match phase {
        TxnPhase::Stored { .. } => Some(ConnEvent::Stored),
        TxnPhase::Failed => Some(ConnEvent::StoreFailed),
        _ => None,
    }
}

/// What a store transaction, as it stands, is to the connection.
pub fn stored_event(txn: &StoreTxn) -> (event: Option<ConnEvent>)
    ensures
        event == store_event(txn.phase),
{
    match txn.phase {
        TxnPhase::Stored { .. } => Some(ConnEvent::Stored),
        TxnPhase::Failed => Some(ConnEvent::StoreFailed),
        _ => None,
    }
}

/// The reply tells the truth about the ledger. Whatever the store answered
/// during a transaction, if its end makes the connection reply with success,
/// the event and all its readings are visible; if it makes the connection
/// reply with an error, the ledger is as it was before.
pub proof fn lemma_reply_matches_ledger(db: Session, sub: Submission, events: Seq<TxnEvent>)
    ensures
        ({
            let end = run(sub, TxnPhase::Beginning, db, events);
            match store_event(end.0) {
                Some(event) => {
                    let reply = next_conn_phase(ConnPhase::AwaitingStore, event);
                    &&& reply is AwaitingWrite
                    &&& reply->reply == ReplyKind::Stored ==> end.0 is Stored && end.1.visible
                        == with_event(db.visible, sub, end.0->Stored_log_id)
                    &&& reply->reply != ReplyKind::Stored ==> end.1.visible == db.visible
                },
                None => end.1.visible == db.visible,
            }
        }),
{
    lemma_store_is_atomic(db, sub, events);
}

/// A message that does not decode is answered with an error reply, and once
/// that reply is written the connection reads again.
pub proof fn lemma_codec_error_keeps_connection(len: usize)
    requires
        len > 0,
    ensures
        conn_run(
            ConnPhase::AwaitingRead,
            seq![ConnEvent::Read { len }, ConnEvent::Undecodable],
        ) == (ConnPhase::AwaitingWrite { reply: ReplyKind::Undecodable }),
        status_text(ReplyKind::Undecodable) == "error"@,
        conn_run(
            ConnPhase::AwaitingRead,
            seq![ConnEvent::Read { len }, ConnEvent::Undecodable, ConnEvent::Written],
        ) == ConnPhase::AwaitingRead,
{
    let a = seq![ConnEvent::Read { len }, ConnEvent::Undecodable];
    let b = seq![ConnEvent::Read { len }, ConnEvent::Undecodable, ConnEvent::Written];
    reveal_with_fuel(conn_run, 4);
    assert(a.drop_first() =~= seq![ConnEvent::Undecodable]);
    assert(a.drop_first().drop_first() =~= Seq::<ConnEvent>::empty());
    assert(b.drop_first() =~= seq![ConnEvent::Undecodable, ConnEvent::Written]);
    assert(b.drop_first().drop_first() =~= seq![ConnEvent::Written]);
    assert(b.drop_first().drop_first().drop_first() =~= Seq::<ConnEvent>::empty());
}

/// A message that the store does not take, be it for a failed statement or
/// for want of a free connection within the wait, is answered with an error
/// reply, and once that reply is written the connection reads again.
pub proof fn lemma_store_failure_keeps_connection(len: usize)
    requires
        len > 0,
    ensures
        conn_run(
            ConnPhase::AwaitingRead,
            seq![ConnEvent::Read { len }, ConnEvent::Decoded, ConnEvent::StoreFailed],
        ) == (ConnPhase::AwaitingWrite { reply: ReplyKind::StoreFailed }),
        status_text(ReplyKind::StoreFailed) == "error"@,
        conn_run(
            ConnPhase::AwaitingWrite { reply: ReplyKind::StoreFailed },
            seq![ConnEvent::Written],
        ) == ConnPhase::AwaitingRead,
{
    let a = seq![ConnEvent::Read { len }, ConnEvent::Decoded, ConnEvent::StoreFailed];
    let b = seq![ConnEvent::Written];
    reveal_with_fuel(conn_run, 4);
    assert(a.drop_first() =~= seq![ConnEvent::Decoded, ConnEvent::StoreFailed]);
    assert(a.drop_first().drop_first() =~= seq![ConnEvent::StoreFailed]);
    assert(a.drop_first().drop_first().drop_first() =~= Seq::<ConnEvent>::empty());
    assert(b.drop_first() =~= Seq::<ConnEvent>::empty());
}

/// Only a read ends a connection that is waiting to read, and only a write
/// ends one that is replying: decoding and storing, whatever their outcome,
/// lead to a reply.
pub proof fn lemma_every_message_is_answered(event: ConnEvent)
    ensures
        (event is Decoded || event is Undecodable) ==> !(next_conn_phase(
            ConnPhase::AwaitingDecode,
            event,
        ) is Closed),
        (event is Stored || event is StoreFailed) ==> next_conn_phase(
            ConnPhase::AwaitingStore,
            event,
        ) is AwaitingWrite,
        event is Undecodable ==> next_conn_phase(ConnPhase::AwaitingDecode, event)
            is AwaitingWrite,
{
}


proof fn lemma_replies_follow_messages(phase: ConnPhase, events: Seq<ConnEvent>)
    ensures
        replies_asked(phase, events) <= messages_read(phase, events) + owed(phase),
        !(conn_run(phase, events) is Closed) ==> replies_asked(phase, events) + owed(
            conn_run(phase, events),
        ) == messages_read(phase, events) + owed(phase),
    decreases events.len(),
{
    if events.len() > 0 {
        let next = next_conn_phase(phase, events[0]);
        lemma_replies_follow_messages(next, events.drop_first());
        if next is Closed {
            lemma_closed_stays_closed(events.drop_first());
        }
    }
}

proof fn lemma_closed_stays_closed(events: Seq<ConnEvent>)
    ensures
        conn_run(ConnPhase::Closed, events) is Closed,
        replies_asked(ConnPhase::Closed, events) == 0,
        messages_read(ConnPhase::Closed, events) == 0,
    decreases events.len(),
{
    if events.len() > 0 {
        lemma_closed_stays_closed(events.drop_first());
    }
}

/// One reply per message, in order. Whatever happens on a connection, it is
/// never told to write more replies than it has read messages, and never
/// falls more than one behind; and whenever it is about to read again, every
/// message read so far has been given its reply.
pub proof fn lemma_one_reply_per_message(events: Seq<ConnEvent>)
    ensures
        replies_asked(ConnPhase::AwaitingRead, events) <= messages_read(
            ConnPhase::AwaitingRead,
            events,
        ),
        messages_read(ConnPhase::AwaitingRead, events) <= replies_asked(
            ConnPhase::AwaitingRead,
            events,
        ) + 1,
        conn_run(ConnPhase::AwaitingRead, events) is AwaitingRead ==> replies_asked(
            ConnPhase::AwaitingRead,
            events,
        ) == messages_read(ConnPhase::AwaitingRead, events),
{
    lemma_replies_follow_messages(ConnPhase::AwaitingRead, events);
    lemma_messages_lead_by_one(ConnPhase::AwaitingRead, events);
}

proof fn lemma_messages_lead_by_one(phase: ConnPhase, events: Seq<ConnEvent>)
    ensures
        messages_read(phase, events) + owed(phase) <= replies_asked(phase, events) + 1,
    decreases events.len(),
{
    if events.len() > 0 {
        let next = next_conn_phase(phase, events[0]);
        lemma_messages_lead_by_one(next, events.drop_first());
        if next is Closed {
            lemma_closed_stays_closed(events.drop_first());
        }
    }
}

} // verus!
