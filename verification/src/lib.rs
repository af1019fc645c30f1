//! Telemetry ingestion: the decisions of a server that takes JSON event
//! envelopes from machines and stores each one, with its metric readings, as
//! one atomic unit in an append-only ledger.
//!
//! The socket, the relational store and the JSON parser sit outside this
//! library. What is here are the rules between them: how bytes become text,
//! which reply answers which outcome, which statements a store transaction
//! issues and in what order, and when a connection stays open.

pub mod clock;
pub mod codec;
pub mod db;
pub mod handler;
pub mod message;
