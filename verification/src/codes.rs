//! Native status and column-type codes of the wrapped engine.

use vstd::prelude::*;

verus! {

/// The call completed without error.
pub const SQLITE_OK: i32 = 0;

/// A text or blob payload exceeds the engine's signed 32-bit size domain.
pub const SQLITE_TOOBIG: i32 = 18;

/// A step produced a result row.
pub const SQLITE_ROW: i32 = 100;

/// A step ran the statement to completion.
pub const SQLITE_DONE: i32 = 101;

/// Column type tag: 64-bit integer.
pub const SQLITE_INTEGER: i32 = 1;

/// Column type tag: 64-bit float.
pub const SQLITE_FLOAT: i32 = 2;

/// Column type tag: UTF-8 text.
pub const SQLITE_TEXT: i32 = 3;

/// Column type tag: byte blob.
pub const SQLITE_BLOB: i32 = 4;

/// Column type tag: SQL NULL.
pub const SQLITE_NULL: i32 = 5;

/// The largest byte length a bound text or blob payload may have.
pub const MAX_PAYLOAD_LEN: usize = 2147483647;

} // verus!
