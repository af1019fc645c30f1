//! The persistence layer: pool settings, the ledger's records, the transaction
//! that writes them, and a model of what that transaction makes visible.

pub mod error;
pub mod ledger;
pub mod models;
pub mod pool;
