//! The ledger's records and the transaction that writes them.
//!
//! Writing one event is a short conversation with the store: begin, insert the
//! log row, insert all its readings in one statement, commit. `StoreTxn`
//! decides each next statement from the store's answer to the last one; the
//! caller performs the statements.

use vstd::prelude::*;
use crate::clock::now_micros;
use crate::message::metrics_view;

verus! {

/// One committed event. Times are microseconds since the Unix epoch, UTC.
#[derive(Debug, Clone)]
pub struct MachineLog {
    pub id: i32,
    pub machine_id: String,
    pub timestamp: i64,
    pub raw_data: String,
    pub created_at: i64,
}

/// One committed reading. The value is the bit pattern of its 64-bit float.
#[derive(Debug, Clone)]
pub struct Metric {
    pub id: i32,
    pub log_id: i32,
    pub metric_name: String,
    pub metric_value: u64,
}

/// A log row as the ledger model sees it.
pub struct LogRow {
    pub id: i32,
    pub machine_id: Seq<char>,
    /// The ingestion time, in microseconds since the Unix epoch.
    pub timestamp: i64,
    pub raw_data: Seq<char>,
}

/// A reading row as the ledger model sees it.
pub struct ReadingRow {
    pub log_id: i32,
    pub name: Seq<char>,
    pub value_bits: u64,
}

/// What one call submits: the machine, the server's time, the text of the
/// event exactly as it was received, and the readings in order.
pub struct Submission {
    pub machine_id: Seq<char>,
    /// The server's time at ingestion, in microseconds since the Unix epoch.
    pub timestamp: i64,
    pub raw_data: Seq<char>,
    pub metrics: Seq<(Seq<char>, u64)>,
}

impl MachineLog {
    /// The record as a row of the ledger model.
    pub open spec fn row(&self) -> LogRow {
        LogRow {
            id: self.id,
            machine_id: self.machine_id@,
            timestamp: self.timestamp,
            raw_data: self.raw_data@,
        }
    }
}

impl Metric {
    /// The record as a row of the ledger model.
    pub open spec fn row(&self) -> ReadingRow {
        ReadingRow { log_id: self.log_id, name: self.metric_name@, value_bits: self.metric_value }
    }
}

/// The rows that the readings of one event become under log identity `log_id`:
/// one per metric, in order, each referring to that identity.
pub open spec fn reading_rows(log_id: i32, metrics: Seq<(Seq<char>, u64)>) -> Seq<ReadingRow> {
    Seq::new(
        metrics.len(),
        |i: int| ReadingRow { log_id, name: metrics[i].0, value_bits: metrics[i].1 },
    )
}

/// The columns of one multi-row insert of readings.
#[derive(Debug, Clone)]
pub struct ReadingBatch {
    pub log_ids: Vec<i32>,
    pub names: Vec<String>,
    pub values: Vec<u64>,
}

impl ReadingBatch {
    /// The three columns are equally long.
    pub open spec fn aligned(&self) -> bool {
        self.log_ids@.len() == self.names@.len() && self.names@.len() == self.values@.len()
    }

    /// The rows that the columns spell, one per index.
    pub open spec fn rows(&self) -> Seq<ReadingRow> {
        Seq::new(
            self.log_ids@.len(),
            |i: int|
                ReadingRow {
                    log_id: self.log_ids@[i],
                    name: self.names@[i]@,
                    value_bits: self.values@[i],
                },
        )
    }

    /// The columns for all readings of one event, each row referring to
    /// `log_id`.
    pub fn build(log_id: i32, metrics: &Vec<(String, u64)>) -> (batch: ReadingBatch)
        ensures
            batch.aligned(),
            batch.log_ids@.len() == metrics@.len(),
            batch.rows() == reading_rows(log_id, metrics_view(metrics@)),
    {
        let mut log_ids: Vec<i32> = Vec::new();
        let mut names: Vec<String> = Vec::new();
        let mut values: Vec<u64> = Vec::new();
        let mut i: usize = 0;
        while i < metrics.len()
            invariant
                i <= metrics.len(),
                log_ids@.len() == i,
                names@.len() == i,
                values@.len() == i,
                forall|k: int| 0 <= k < i ==> log_ids@[k] == log_id,
                forall|k: int| 0 <= k < i ==> (#[trigger] names@[k])@ == metrics@[k].0@,
                forall|k: int| 0 <= k < i ==> #[trigger] values@[k] == metrics@[k].1,
            decreases metrics.len() - i,
        {
            log_ids.push(log_id);
            names.push(metrics[i].0.clone());
            values.push(metrics[i].1);
            i += 1;
        }
        let batch = ReadingBatch { log_ids, names, values };
        assert(batch.rows() =~= reading_rows(log_id, metrics_view(metrics@)));
        batch
    }
}

/// Where a store transaction stands: which statement is out, or how it ended.
#[derive(Debug, Clone, Copy, PartialEq, Eq)]
pub enum TxnPhase {
    /// The transaction is being opened.
    Beginning,
    /// The log row is being inserted.
    InsertingLog,
    /// The readings of the log row with this identity are being inserted.
    InsertingReadings { log_id: i32 },
    /// Everything is written and the commit is out.
    Committing { log_id: i32 },
    /// A statement failed and the transaction is being rolled back.
    RollingBack,
    /// Committed: the event is in the ledger under this identity.
    Stored { log_id: i32 },
    /// Ended without a commit.
    Failed,
}

/// The store's answer to the statement that is out.
#[derive(Debug, Clone, Copy, PartialEq, Eq)]
pub enum TxnEvent {
    Begun,
    /// The log row was written and the store gave it this identity.
    LogInserted { id: i32 },
    ReadingsInserted,
    Committed,
    RolledBack,
    /// The statement failed, or no connection could be had in time.
    Failed,
}

/// What the caller does next.
#[derive(Debug, Clone)]
pub enum TxnAction {
    Begin,
    /// Insert the log row, with this ingestion time.
    InsertLog { timestamp: i64 },
    InsertReadings(ReadingBatch),
    Commit,
    Rollback,
    /// Report success: the identity of the log and the number of its readings.
    ReportStored { log_id: i32, readings: usize },
    ReportFailed,
}

/// The phase after `event` arrives in `phase`, for an event with
/// `metric_count` readings.
///
/// The readings statement is skipped when there are none. An answer that does
/// not fit the statement counts as a failure. A failure while rows are being
/// written rolls back; a failed begin or commit leaves nothing to roll back.
/// The two end phases absorb every event.
pub open spec fn next_phase(phase: TxnPhase, metric_count: nat, event: TxnEvent) -> TxnPhase {
    match phase {
        TxnPhase::Beginning => match event {
            TxnEvent::Begun => TxnPhase::InsertingLog,
            _ => TxnPhase::Failed,
        },
        TxnPhase::InsertingLog => match event {
            TxnEvent::LogInserted { id } => if metric_count > 0 {
                TxnPhase::InsertingReadings { log_id: id }
            } else {
                TxnPhase::Committing { log_id: id }
            },
            _ => TxnPhase::RollingBack,
        },
        TxnPhase::InsertingReadings { log_id } => match event {
            TxnEvent::ReadingsInserted => TxnPhase::Committing { log_id },
            _ => TxnPhase::RollingBack,
        },
        TxnPhase::Committing { log_id } => match event {
            TxnEvent::Committed => TxnPhase::Stored { log_id },
            _ => TxnPhase::Failed,
        },
        TxnPhase::RollingBack => TxnPhase::Failed,
        TxnPhase::Stored { log_id } => TxnPhase::Stored { log_id },
        TxnPhase::Failed => TxnPhase::Failed,
    }
}

/// One event on its way into the ledger.
#[derive(Debug, Clone)]
pub struct StoreTxn {
    pub phase: TxnPhase,
    pub machine_id: String,
    /// The server's time at ingestion, in microseconds since the Unix epoch.
    pub timestamp: i64,
    /// The text of the event exactly as it was received.
    pub raw_data: String,
    pub metrics: Vec<(String, u64)>,
}

impl MachineLog {
    /// Opens the write of one event with its readings, stamped with the
    /// server's time at this call: the transaction stands at its first
    /// statement and holds the submission unchanged. The ingestion time is
    /// whatever the clock gave.
    pub fn create_with_metrics(
        machine_id: String,
        raw_data: String,
        metrics: Vec<(String, u64)>,
    ) -> (txn: StoreTxn)
        ensures
            txn.phase == TxnPhase::Beginning,
            txn.machine_id == machine_id,
            txn.raw_data == raw_data,
            txn.metrics == metrics,
            txn.submission() == (Submission {
                machine_id: machine_id@,
                timestamp: txn.timestamp,
                raw_data: raw_data@,
                metrics: metrics_view(metrics@),
            }),
            txn.well_formed(),
    {
        StoreTxn::open(machine_id, now_micros(), raw_data, metrics)
    }
}

impl StoreTxn {
    /// Opens the write of one event with its readings, ingested at the given
    /// server time.
    pub fn open(
        machine_id: String,
        timestamp: i64,
        raw_data: String,
        metrics: Vec<(String, u64)>,
    ) -> (txn: StoreTxn)
        ensures
            txn.phase == TxnPhase::Beginning,
            txn.machine_id == machine_id,
            txn.timestamp == timestamp,
            txn.raw_data == raw_data,
            txn.metrics == metrics,
            txn.submission() == (Submission {
                machine_id: machine_id@,
                timestamp,
                raw_data: raw_data@,
                metrics: metrics_view(metrics@),
            }),
            txn.well_formed(),
    {
        StoreTxn { phase: TxnPhase::Beginning, machine_id, timestamp, raw_data, metrics }
    }

    /// What the transaction was opened to write.
    pub open spec fn submission(&self) -> Submission {
        Submission {
            machine_id: self.machine_id@,
            timestamp: self.timestamp,
            raw_data: self.raw_data@,
            metrics: metrics_view(self.metrics@),
        }
    }

    /// The readings statement is out only for an event that has readings.
    pub open spec fn well_formed(&self) -> bool {
        self.phase is InsertingReadings ==> self.metrics@.len() > 0
    }

    /// Whether the transaction has ended, either way.
    pub fn is_finished(&self) -> (done: bool)
        ensures
            done == (self.phase is Stored || self.phase is Failed),
    {
        match self.phase {
            TxnPhase::Stored { .. } => true,
            TxnPhase::Failed => true,
            _ => false,
        }
    }

    /// Takes the store's answer to the statement that is out.
    pub fn step(&mut self, event: TxnEvent)
        ensures
            final(self).phase == next_phase(
                old(self).phase,
                old(self).submission().metrics.len(),
                event,
            ),
            final(self).machine_id == old(self).machine_id,
            final(self).timestamp == old(self).timestamp,
            final(self).raw_data == old(self).raw_data,
            final(self).metrics == old(self).metrics,
            final(self).submission() == old(self).submission(),
            old(self).well_formed() ==> final(self).well_formed(),
    {
        let has_readings = self.metrics.len() > 0;
        let next = match self.phase {
            TxnPhase::Beginning => match event {
                TxnEvent::Begun => TxnPhase::InsertingLog,
                _ => TxnPhase::Failed,
            },
            TxnPhase::InsertingLog => match event {
                TxnEvent::LogInserted { id } => if has_readings {
                    TxnPhase::InsertingReadings { log_id: id }
                } else {
                    TxnPhase::Committing { log_id: id }
                },
                _ => TxnPhase::RollingBack,
            },
            TxnPhase::InsertingReadings { log_id } => match event {
                TxnEvent::ReadingsInserted => TxnPhase::Committing { log_id },
                _ => TxnPhase::RollingBack,
            },
            TxnPhase::Committing { log_id } => match event {
                TxnEvent::Committed => TxnPhase::Stored { log_id },
                _ => TxnPhase::Failed,
            },
            TxnPhase::RollingBack => TxnPhase::Failed,
            TxnPhase::Stored { log_id } => TxnPhase::Stored { log_id },
            TxnPhase::Failed => TxnPhase::Failed,
        };
        self.phase = next;
    }

    /// The statement that the current phase has out, or the report that ends
    /// the transaction. The readings statement carries every reading of the
    /// event, each under the identity that the store gave the log row.
    pub fn action(&self) -> (a: TxnAction)
        ensures
            match self.phase {
                TxnPhase::Beginning => a is Begin,
                TxnPhase::InsertingLog => a matches TxnAction::InsertLog { timestamp }
                    && timestamp == self.submission().timestamp,
                TxnPhase::InsertingReadings { log_id } => a matches TxnAction::InsertReadings(b)
                    && b.aligned() && b.rows() == reading_rows(
                    log_id,
                    self.submission().metrics,
                ) && (self.well_formed() ==> b.log_ids@.len() > 0),
                TxnPhase::Committing { .. } => a is Commit,
                TxnPhase::RollingBack => a is Rollback,
                TxnPhase::Stored { log_id } => a matches TxnAction::ReportStored {
                    log_id: id,
                    readings,
                } && id == log_id && readings == self.submission().metrics.len(),
                TxnPhase::Failed => a is ReportFailed,
            },
    {
        match self.phase {
            TxnPhase::Beginning => TxnAction::Begin,
            TxnPhase::InsertingLog => TxnAction::InsertLog { timestamp: self.timestamp },
            TxnPhase::InsertingReadings { log_id } => TxnAction::InsertReadings(
                ReadingBatch::build(log_id, &self.metrics),
            ),
            TxnPhase::Committing { .. } => TxnAction::Commit,
            TxnPhase::RollingBack => TxnAction::Rollback,
            TxnPhase::Stored { log_id } => TxnAction::ReportStored {
                log_id,
                readings: self.metrics.len(),
            },
            TxnPhase::Failed => TxnAction::ReportFailed,
        }
    }
}

} // verus!
