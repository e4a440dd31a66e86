//! The failure taxonomy: every storage or calendar failure is one of
//! these, propagated unrecovered to the caller.

use vstd::prelude::*;

verus! {

/// Why an operation failed. Nothing is retried or suppressed.
#[derive(Clone, Copy, Debug, PartialEq, Eq, Structural)]
pub enum AppError {
    /// The database file or its directory cannot be opened or created.
    StorageUnavailable,
    /// The entry table cannot be created.
    SchemaError,
    /// An insert failed.
    WriteError,
    /// A read failed.
    QueryError,
    /// Calendar arithmetic ran off the start of the supported range.
    DateComputationError,
}

} // verus!
