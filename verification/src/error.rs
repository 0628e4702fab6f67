//! The typed failures surfaced by this layer.

use vstd::prelude::*;

verus! {

/// Every recoverable condition of the statement layer.
#[derive(Debug)]
pub enum Error {
    /// A requested result-column label was not found.
    InvalidColumnName(String),
    /// A result-column index is out of range for the current row.
    InvalidColumnIndex(i32),
    /// A named parameter does not occur in the statement.
    InvalidParameterName(String),
    /// `execute` was used on a statement that produces result rows.
    ExecuteReturnedResults,
    /// A non-success status code of the engine, decoded by the owning
    /// connection, possibly with the engine's message text.
    SqliteFailure(i32, Option<String>),
    /// A supplied string cannot be represented in the engine's parameter
    /// or text encoding; carries the offset of the first interior NUL byte.
    NulError(usize),
    /// The library was asked for an operation that its threading mode
    /// forbids.  Kept as a distinct kind so callers can match on it.
    SqliteSingleThreadedMode,
}

} // verus!
