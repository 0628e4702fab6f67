//! A safety layer over the C-style prepared-statement interface of an
//! embedded relational database engine.
//!
//! The engine itself (query planning, storage, the meaning of SQL text) is an
//! external collaborator, reached through the [`engine::Connection`] and
//! [`engine::EngineStatement`] traits.  Everything this crate adds on top of
//! that boundary is verified: statement ownership and the exactly-once
//! finalize discipline, positional and named parameter binding with
//! exact-width marshaling, the execute protocol, and the forward-only row
//! cursor.  The [`scripted`] module holds a deterministic in-memory backend
//! that implements the boundary traits and is itself verified against their
//! contracts.

pub mod codes;
pub mod engine;
pub mod error;
pub mod handle;
pub mod laws;
pub mod rows;
pub mod scripted;
pub mod statement;
pub mod value;

pub use error::Error;
pub use handle::RawHandle;
pub use rows::{AndThenRows, MappedRows, Row, Rows};
pub use statement::Statement;
pub use value::{BindOutput, ToSql, Value};
