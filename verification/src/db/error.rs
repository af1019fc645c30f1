//! Why no pool could be made.

use vstd::prelude::*;

verus! {

/// The store driver's error, carried through unread.
#[verifier::external_type_specification]
#[verifier::external_body]
pub struct ExStoreError(sqlx::Error);

/// What is wrong with the configured connection string.
#[derive(Debug, Clone, Copy, PartialEq, Eq)]
pub enum VarFault {
    /// No connection string is configured.
    NotPresent,
    /// The configured value is not text.
    NotUnicode,
    /// The configured text is not a connection string of the store.
    Invalid,
}

#[derive(Debug)]
pub enum PoolError {
    /// The store could not be connected to; the driver's error is kept as it
    /// came.
    DatabaseError(sqlx::Error),
    /// The connection string is missing, unreadable or invalid.
    ConfigError(VarFault),
}

} // verus!
