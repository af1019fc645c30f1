//! A model of what a store transaction makes visible, and the laws that the
//! transaction of `models` keeps against it.
//!
//! The model is that of one transaction on a transactional store: rows written
//! inside it are staged, and become visible together at the commit or never.

use vstd::prelude::*;
use vstd::utf8::*;
use crate::db::models::{
    LogRow, ReadingRow, Submission, TxnEvent, TxnPhase, next_phase, reading_rows,
};

verus! {

/// The two tables of the append-only ledger.
pub struct Ledger {
    pub logs: Seq<LogRow>,
    pub readings: Seq<ReadingRow>,
}

/// A store with one transaction open on it: what every reader sees, and what
/// the transaction has written so far.
pub struct Session {
    pub visible: Ledger,
    pub staged: Ledger,
}

/// The log row that `sub` becomes under `log_id`: the submitted machine and
/// text, at the submitted server time.
pub open spec fn log_row(sub: Submission, log_id: i32) -> LogRow {
    LogRow {
        id: log_id,
        machine_id: sub.machine_id,
        timestamp: sub.timestamp,
        raw_data: sub.raw_data,
    }
}

/// `before` with the log row of `sub` under `log_id` appended.
pub open spec fn with_log(before: Ledger, sub: Submission, log_id: i32) -> Ledger {
    Ledger {
        logs: before.logs.push(
            log_row(sub, log_id),
        ),
        readings: before.readings,
    }
}

/// `before` with the log row of `sub` under `log_id` and all its readings
/// appended.
pub open spec fn with_event(before: Ledger, sub: Submission, log_id: i32) -> Ledger {
    Ledger {
        logs: before.logs.push(
            log_row(sub, log_id),
        ),
        readings: before.readings + reading_rows(log_id, sub.metrics),
    }
}

/// What the store does when it answers `event` to the statement of `phase`.
/// A statement that fails writes nothing, and a rollback only discards what
/// was staged, which no reader saw.
pub open spec fn effect(db: Session, sub: Submission, phase: TxnPhase, event: TxnEvent) -> Session {
    match (phase, event) {
        (TxnPhase::Beginning, TxnEvent::Begun) => Session {
            visible: db.visible,
            staged: db.visible,
        },
        (TxnPhase::InsertingLog, TxnEvent::LogInserted { id }) => Session {
            visible: db.visible,
            staged: with_log(db.staged, sub, id),
        },
        (TxnPhase::InsertingReadings { log_id }, TxnEvent::ReadingsInserted) => Session {
            visible: db.visible,
            staged: Ledger {
                logs: db.staged.logs,
                readings: db.staged.readings + reading_rows(log_id, sub.metrics),
            },
        },
        (TxnPhase::Committing { .. }, TxnEvent::Committed) => Session {
            visible: db.staged,
            staged: db.staged,
        },
        _ => db,
    }
}

/// The phase and the store after the transaction has taken `events` in order.
pub open spec fn run(sub: Submission, phase: TxnPhase, db: Session, events: Seq<TxnEvent>) -> (
    TxnPhase,
    Session,
)
    decreases events.len(),
{
    if events.len() == 0 {
        (phase, db)
    } else {
        run(
            sub,
            next_phase(phase, sub.metrics.len(), events[0]),
            effect(db, sub, phase, events[0]),
            events.drop_first(),
        )
    }
}

/// What holds of the store in each phase of a transaction that began on
/// `before`.
pub open spec fn consistent(before: Ledger, sub: Submission, phase: TxnPhase, db: Session) -> bool {
    match phase {
        TxnPhase::Beginning => db.visible == before,
        TxnPhase::InsertingLog => db.visible == before && db.staged == before,
        TxnPhase::InsertingReadings { log_id } => db.visible == before && db.staged == with_log(
            before,
            sub,
            log_id,
        ),
        TxnPhase::Committing { log_id } => db.visible == before && db.staged == with_event(
            before,
            sub,
            log_id,
        ),
        TxnPhase::RollingBack => db.visible == before,
        TxnPhase::Stored { log_id } => db.visible == with_event(before, sub, log_id),
        TxnPhase::Failed => db.visible == before,
    }
}

proof fn lemma_step_consistent(
    before: Ledger,
    sub: Submission,
    phase: TxnPhase,
    db: Session,
    event: TxnEvent,
)
    requires
        consistent(before, sub, phase, db),
    ensures
        consistent(
            before,
            sub,
            next_phase(phase, sub.metrics.len(), event),
            effect(db, sub, phase, event),
        ),
{
    if phase is InsertingLog && event is LogInserted && sub.metrics.len() == 0 {
        let id = event->id;
        assert(before.readings + reading_rows(id, sub.metrics) =~= before.readings);
    }
}

proof fn lemma_run_consistent(
    before: Ledger,
    sub: Submission,
    phase: TxnPhase,
    db: Session,
    events: Seq<TxnEvent>,
)
    requires
        consistent(before, sub, phase, db),
    ensures
        consistent(before, sub, run(sub, phase, db, events).0, run(sub, phase, db, events).1),
    decreases events.len(),
{
    if events.len() > 0 {
        lemma_step_consistent(before, sub, phase, db, events[0]);
        lemma_run_consistent(
            before,
            sub,
            next_phase(phase, sub.metrics.len(), events[0]),
            effect(db, sub, phase, events[0]),
            events.drop_first(),
        );
    }
}

/// Atomicity. Whatever the store answers, and in whatever order, a
/// transaction that began on a ledger leaves visible either that ledger
/// unchanged, or that ledger with the log row and exactly the submitted
/// readings appended, each under the log's identity; and the second exactly
/// when it ends as stored. The stored payload is the submitted text.
pub proof fn lemma_store_is_atomic(db: Session, sub: Submission, events: Seq<TxnEvent>)
    ensures
        ({
            let end = run(sub, TxnPhase::Beginning, db, events);
            match end.0 {
                TxnPhase::Stored { log_id } => end.1.visible == with_event(
                    db.visible,
                    sub,
                    log_id,
                ),
                _ => end.1.visible == db.visible,
            }
        }),
{
    lemma_run_consistent(db.visible, sub, TxnPhase::Beginning, db, events);
}

/// A stored event adds one log row, with the submitted machine and text at the
/// submitted server time, and as many readings as were submitted,
/// and the readings visible for its identity afterwards, beyond what was
/// there, are the submitted ones in order.
pub proof fn lemma_stored_counts(before: Ledger, sub: Submission, log_id: i32)
    ensures
        with_event(before, sub, log_id).logs.len() == before.logs.len() + 1,
        with_event(before, sub, log_id).readings.len() == before.readings.len()
            + sub.metrics.len(),
        with_event(before, sub, log_id).logs.last() == log_row(sub, log_id),
        with_event(before, sub, log_id).logs.last().raw_data == sub.raw_data,
        with_event(before, sub, log_id).logs.last().machine_id == sub.machine_id,
        with_event(before, sub, log_id).logs.last().timestamp == sub.timestamp,
        forall|k: int|
            0 <= k < sub.metrics.len() ==> {
                let row = #[trigger] with_event(before, sub, log_id).readings[before.readings.len()
                    + k];
                row.log_id == log_id && row.name == sub.metrics[k].0 && row.value_bits
                    == sub.metrics[k].1
            },
{
}

/// Failing fast. A transaction that is refused at its first statement, as when
/// no connection comes free within the pool's wait, ends there: it is failed,
/// without a further statement, and the store is as it was.
pub proof fn lemma_refused_begin_ends_transaction(db: Session, sub: Submission, event: TxnEvent)
    requires
        !(event is Begun),
    ensures
        next_phase(TxnPhase::Beginning, sub.metrics.len(), event) == TxnPhase::Failed,
        effect(db, sub, TxnPhase::Beginning, event) == db,
{
}

/// The test of a query for the readings of one log.
pub open spec fn of_log(log_id: i32) -> spec_fn(ReadingRow) -> bool {
    |r: ReadingRow| r.log_id == log_id
}

/// The test of a query for the logs of one machine.
pub open spec fn of_machine(machine_id: Seq<char>) -> spec_fn(LogRow) -> bool {
    |r: LogRow| r.machine_id == machine_id
}

/// What a lookup of readings by log identity returns: the visible readings
/// that refer to it, in ledger order.
pub open spec fn readings_of(ledger: Ledger, log_id: i32) -> Seq<ReadingRow> {
    ledger.readings.filter(of_log(log_id))
}

/// What a lookup of logs by machine identifier returns: the visible logs of
/// that machine, in ledger order.
pub open spec fn logs_of(ledger: Ledger, machine_id: Seq<char>) -> Seq<LogRow> {
    ledger.logs.filter(of_machine(machine_id))
}

/// No reading of the ledger refers to `log_id` yet: the identity is new.
pub open spec fn unused_identity(ledger: Ledger, log_id: i32) -> bool {
    forall|j: int| 0 <= j < ledger.readings.len() ==> (#[trigger] ledger.readings[j]).log_id != log_id
}

proof fn lemma_filter_keeps_all<A>(s: Seq<A>, pred: spec_fn(A) -> bool)
    requires
        forall|i: int| 0 <= i < s.len() ==> pred(#[trigger] s[i]),
    ensures
        s.filter(pred) == s,
    decreases s.len(),
{
    reveal(Seq::filter);
    if s.len() > 0 {
        lemma_filter_keeps_all(s.drop_last(), pred);
        assert(s.drop_last().push(s.last()) =~= s);
    }
}

proof fn lemma_filter_keeps_none<A>(s: Seq<A>, pred: spec_fn(A) -> bool)
    requires
        forall|i: int| 0 <= i < s.len() ==> !pred(#[trigger] s[i]),
    ensures
        s.filter(pred) == Seq::<A>::empty(),
    decreases s.len(),
{
    reveal(Seq::filter);
    if s.len() > 0 {
        lemma_filter_keeps_none(s.drop_last(), pred);
    }
}

/// Exactly what was submitted. Once an event is stored under a new identity,
/// a lookup by that identity returns the submitted readings, all of them and
/// no others, in the order submitted; and a lookup by any other identity
/// returns what it returned before.
pub proof fn lemma_stored_readings_are_the_submitted(
    before: Ledger,
    sub: Submission,
    log_id: i32,
    other: i32,
)
    requires
        unused_identity(before, log_id),
        other != log_id,
    ensures
        readings_of(with_event(before, sub, log_id), log_id) == reading_rows(
            log_id,
            sub.metrics,
        ),
        readings_of(with_event(before, sub, log_id), log_id).len() == sub.metrics.len(),
        readings_of(with_event(before, sub, log_id), other) == readings_of(before, other),
{
    let added = reading_rows(log_id, sub.metrics);
    Seq::filter_distributes_over_add(before.readings, added, of_log(log_id));
    Seq::filter_distributes_over_add(before.readings, added, of_log(other));
    lemma_filter_keeps_none(before.readings, of_log(log_id));
    lemma_filter_keeps_all(added, of_log(log_id));
    lemma_filter_keeps_none(added, of_log(other));
    assert(Seq::<ReadingRow>::empty() + added =~= added);
    assert(before.readings.filter(of_log(other)) + Seq::<ReadingRow>::empty()
        =~= before.readings.filter(of_log(other)));
}

/// Each machine sees its own. Once an event is stored, a lookup by its
/// machine identifier returns what it returned before and then the new log,
/// whose payload is the submitted text; a lookup by any other machine
/// identifier returns what it returned before.
pub proof fn lemma_stored_log_is_its_machines(
    before: Ledger,
    sub: Submission,
    log_id: i32,
    other: Seq<char>,
)
    requires
        other != sub.machine_id,
    ensures
        logs_of(with_event(before, sub, log_id), sub.machine_id) == logs_of(
            before,
            sub.machine_id,
        ).push(log_row(sub, log_id)),
        logs_of(with_event(before, sub, log_id), other) == logs_of(before, other),
{
    let row = log_row(sub, log_id);
    let added = seq![row];
    assert(before.logs.push(row) =~= before.logs + added);
    Seq::filter_distributes_over_add(before.logs, added, of_machine(sub.machine_id));
    Seq::filter_distributes_over_add(before.logs, added, of_machine(other));
    lemma_filter_keeps_all(added, of_machine(sub.machine_id));
    lemma_filter_keeps_none(added, of_machine(other));
    assert(before.logs.filter(of_machine(sub.machine_id)) + added =~= before.logs.filter(
        of_machine(sub.machine_id),
    ).push(row));
    assert(before.logs.filter(of_machine(other)) + Seq::<LogRow>::empty()
        =~= before.logs.filter(of_machine(other)));
}

/// No log of the ledger has this identity.
pub open spec fn identity_is_new(ledger: Ledger, log_id: i32) -> bool {
    forall|i: int| 0 <= i < ledger.logs.len() ==> (#[trigger] ledger.logs[i]).id != log_id
}

/// Some log of the ledger has this identity.
pub open spec fn has_log(ledger: Ledger, log_id: i32) -> bool {
    exists|i: int| 0 <= i < ledger.logs.len() && (#[trigger] ledger.logs[i]).id == log_id
}

/// The ledger's keys hold: no two logs share an identity, and every reading
/// refers to a log that is there.
pub open spec fn keys_hold(ledger: Ledger) -> bool {
    &&& forall|i: int, j: int|
        0 <= i < j < ledger.logs.len() ==> (#[trigger] ledger.logs[i]).id
            != (#[trigger] ledger.logs[j]).id
    &&& forall|k: int|
        0 <= k < ledger.readings.len() ==> has_log(
            ledger,
            (#[trigger] ledger.readings[k]).log_id,
        )
}

/// What a store that keeps its keys can answer: the identity it gives a new
/// log row is one that no log has, counting what the transaction has staged.
pub open spec fn answer_keeps_keys(db: Session, phase: TxnPhase, event: TxnEvent) -> bool {
    match (phase, event) {
        (TxnPhase::InsertingLog, TxnEvent::LogInserted { id }) => identity_is_new(db.staged, id),
        _ => true,
    }
}

/// Every answer that the transaction takes from `events` is one that a store
/// which keeps its keys can give.
pub open spec fn run_keeps_keys(
    sub: Submission,
    phase: TxnPhase,
    db: Session,
    events: Seq<TxnEvent>,
) -> bool
    decreases events.len(),
{
    events.len() == 0 || (answer_keeps_keys(db, phase, events[0]) && run_keeps_keys(
        sub,
        next_phase(phase, sub.metrics.len(), events[0]),
        effect(db, sub, phase, events[0]),
        events.drop_first(),
    ))
}

/// The identity that a phase carries, if it carries one, was new to `before`.
pub open spec fn carries_new_identity(before: Ledger, phase: TxnPhase) -> bool {
    match phase {
        TxnPhase::InsertingReadings { log_id } => identity_is_new(before, log_id),
        TxnPhase::Committing { log_id } => identity_is_new(before, log_id),
        TxnPhase::Stored { log_id } => identity_is_new(before, log_id),
        _ => true,
    }
}

proof fn lemma_run_carries_new_identity(
    before: Ledger,
    sub: Submission,
    phase: TxnPhase,
    db: Session,
    events: Seq<TxnEvent>,
)
    requires
        consistent(before, sub, phase, db),
        carries_new_identity(before, phase),
        run_keeps_keys(sub, phase, db, events),
    ensures
        carries_new_identity(before, run(sub, phase, db, events).0),
    decreases events.len(),
{
    if events.len() > 0 {
        lemma_step_consistent(before, sub, phase, db, events[0]);
        lemma_run_carries_new_identity(
            before,
            sub,
            next_phase(phase, sub.metrics.len(), events[0]),
            effect(db, sub, phase, events[0]),
            events.drop_first(),
        );
    }
}

/// In a ledger whose keys hold, an identity that no log has is one that no
/// reading refers to.
pub proof fn lemma_new_identity_is_unused(ledger: Ledger, log_id: i32)
    requires
        keys_hold(ledger),
        identity_is_new(ledger, log_id),
    ensures
        unused_identity(ledger, log_id),
{
    assert forall|j: int| 0 <= j < ledger.readings.len() implies (#[trigger] ledger.readings[j]).log_id
        != log_id by {
        assert(has_log(ledger, ledger.readings[j].log_id));
    }
}

/// Keys stay whole. Storing an event under a new identity keeps the log
/// identities distinct and leaves every reading, old and new, with a log
/// that is there.
pub proof fn lemma_store_keeps_keys(before: Ledger, sub: Submission, log_id: i32)
    requires
        keys_hold(before),
        identity_is_new(before, log_id),
    ensures
        keys_hold(with_event(before, sub, log_id)),
{
    let after = with_event(before, sub, log_id);
    assert forall|k: int| 0 <= k < after.readings.len() implies has_log(
        after,
        (#[trigger] after.readings[k]).log_id,
    ) by {
        if k < before.readings.len() {
            assert(after.readings[k] == before.readings[k]);
            assert(has_log(before, before.readings[k].log_id));
            let i = choose|i: int|
                0 <= i < before.logs.len() && (#[trigger] before.logs[i]).id
                    == before.readings[k].log_id;
            assert(after.logs[i].id == after.readings[k].log_id);
        } else {
            assert(after.readings[k].log_id == log_id);
            assert(after.logs[before.logs.len() as int].id == log_id);
        }
    }
}

/// Exactly the submitted readings. On a ledger whose keys hold, and against
/// a store that keeps them, a transaction that ends as stored has been given
/// an identity that was new; the keys still hold; and the readings that
/// refer to that identity are the submitted ones, as many and in the order
/// submitted, name and value unchanged.
pub proof fn lemma_stored_event_is_exact(db: Session, sub: Submission, events: Seq<TxnEvent>)
    requires
        keys_hold(db.visible),
        run_keeps_keys(sub, TxnPhase::Beginning, db, events),
    ensures
        ({
            let end = run(sub, TxnPhase::Beginning, db, events);
            match end.0 {
                TxnPhase::Stored { log_id } => {
                    &&& identity_is_new(db.visible, log_id)
                    &&& keys_hold(end.1.visible)
                    &&& readings_of(end.1.visible, log_id) == reading_rows(log_id, sub.metrics)
                    &&& readings_of(end.1.visible, log_id).len() == sub.metrics.len()
                },
                _ => end.1.visible == db.visible,
            }
        }),
{
    let end = run(sub, TxnPhase::Beginning, db, events);
    lemma_store_is_atomic(db, sub, events);
    lemma_run_carries_new_identity(db.visible, sub, TxnPhase::Beginning, db, events);
    match end.0 {
        TxnPhase::Stored { log_id } => {
            lemma_new_identity_is_unused(db.visible, log_id);
            lemma_store_keeps_keys(db.visible, sub, log_id);
            lemma_stored_readings_are_the_submitted(
                db.visible,
                sub,
                log_id,
                if log_id == 0 { 1i32 } else { 0i32 },
            );
        },
        _ => {},
    }
}

/// Two machines, two events. When the events of two different machines are
/// both stored, in whichever order their commits fall, a lookup by either
/// machine returns what it returned before and then that machine's log alone,
/// and a lookup by either identity returns that event's readings alone.
pub proof fn lemma_two_stores_do_not_mix(
    before: Ledger,
    first: Submission,
    first_id: i32,
    second: Submission,
    second_id: i32,
)
    requires
        first.machine_id != second.machine_id,
        first_id != second_id,
        unused_identity(before, first_id),
        unused_identity(before, second_id),
    ensures
        ({
            let after = with_event(with_event(before, first, first_id), second, second_id);
            &&& logs_of(after, first.machine_id) == logs_of(before, first.machine_id).push(
                log_row(first, first_id),
            )
            &&& logs_of(after, second.machine_id) == logs_of(before, second.machine_id).push(
                log_row(second, second_id),
            )
            &&& readings_of(after, first_id) == reading_rows(first_id, first.metrics)
            &&& readings_of(after, second_id) == reading_rows(second_id, second.metrics)
        }),
{
    let mid = with_event(before, first, first_id);
    let after = with_event(mid, second, second_id);
    assert(logs_of(after, first.machine_id) == logs_of(before, first.machine_id).push(
        log_row(first, first_id),
    )) by {
        lemma_stored_log_is_its_machines(before, first, first_id, second.machine_id);
        lemma_stored_log_is_its_machines(mid, second, second_id, first.machine_id);
    }
    assert(logs_of(after, second.machine_id) == logs_of(before, second.machine_id).push(
        log_row(second, second_id),
    )) by {
        lemma_stored_log_is_its_machines(before, first, first_id, second.machine_id);
        lemma_stored_log_is_its_machines(mid, second, second_id, first.machine_id);
    }
    lemma_store_leaves_other_identities_unused(before, first, first_id, second_id);
    assert(readings_of(after, first_id) == reading_rows(first_id, first.metrics)) by {
        lemma_stored_readings_are_the_submitted(before, first, first_id, second_id);
        lemma_stored_readings_are_the_submitted(mid, second, second_id, first_id);
    }
    assert(readings_of(after, second_id) == reading_rows(second_id, second.metrics)) by {
        lemma_stored_readings_are_the_submitted(mid, second, second_id, first_id);
    }
}

proof fn lemma_store_leaves_other_identities_unused(
    before: Ledger,
    sub: Submission,
    log_id: i32,
    other: i32,
)
    requires
        unused_identity(before, other),
        other != log_id,
    ensures
        unused_identity(with_event(before, sub, log_id), other),
{
    let after = with_event(before, sub, log_id);
    assert forall|j: int| 0 <= j < after.readings.len() implies (#[trigger] after.readings[j]).log_id
        != other by {
        if j < before.readings.len() {
            assert(after.readings[j] == before.readings[j]);
        } else {
            assert(after.readings[j] == reading_rows(log_id, sub.metrics)[j
                - before.readings.len()]);
        }
    }
}

/// Round trip. When the submitted text is the text of the bytes received, the
/// payload of the stored log encodes to exactly those bytes.
pub proof fn lemma_stored_payload_is_the_received_text(
    before: Ledger,
    sub: Submission,
    log_id: i32,
    received: Seq<u8>,
)
    requires
        encode_utf8(sub.raw_data) == received,
    ensures
        logs_of(with_event(before, sub, log_id), sub.machine_id).last().id == log_id,
        encode_utf8(logs_of(with_event(before, sub, log_id), sub.machine_id).last().raw_data)
            == received,
        encode_utf8(with_event(before, sub, log_id).logs.last().raw_data) == received,
{
    let m = sub.machine_id + seq!['x'];
    assert(m.len() != sub.machine_id.len());
    lemma_stored_log_is_its_machines(before, sub, log_id, m);
}

/// No cross-contamination. After an event is stored, every visible log row of
/// another machine, and every visible reading of another log, was there
/// before, in the same place; and nothing that was there has changed.
pub proof fn lemma_store_is_isolated(before: Ledger, sub: Submission, log_id: i32)
    ensures
        ({
            let after = with_event(before, sub, log_id);
            &&& forall|i: int|
                0 <= i < after.logs.len() && (#[trigger] after.logs[i]).machine_id
                    != sub.machine_id ==> i < before.logs.len() && after.logs[i]
                    == before.logs[i]
            &&& forall|j: int|
                0 <= j < after.readings.len() && (#[trigger] after.readings[j]).log_id != log_id
                    ==> j < before.readings.len() && after.readings[j] == before.readings[j]
            &&& forall|i: int|
                0 <= i < before.logs.len() ==> #[trigger] after.logs[i] == before.logs[i]
            &&& forall|j: int|
                0 <= j < before.readings.len() ==> #[trigger] after.readings[j]
                    == before.readings[j]
        }),
{
}

} // verus!
