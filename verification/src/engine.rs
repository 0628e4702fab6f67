//! The boundary with the embedded engine: an abstract model of one
//! prepared statement, and the two traits through which all native calls
//! flow.  A backend implements them; the rest of the crate is verified
//! against nothing but these contracts.

use vstd::prelude::*;
use vstd::string::StringSliceAdditionalSpecFns;

use crate::codes::{SQLITE_BLOB, SQLITE_DONE, SQLITE_FLOAT, SQLITE_INTEGER, SQLITE_NULL,
    SQLITE_OK, SQLITE_ROW, SQLITE_TEXT};
use crate::error::Error;
use crate::value::ValueModel;

verus! {

/// The abstract state of one prepared statement.
///
/// `bindings` maps 1-based parameter indices to their currently bound
/// cells; an absent index has never been bound and reads as SQL NULL.
/// `pending` is the sequence of result rows the current execution has not
/// yet produced, and `row` is the row of the most recent successful step.
pub struct StmtModel {
    /// The SQL text the statement was prepared from, as UTF-8 bytes.
    pub sql: Seq<u8>,
    /// Result-column labels, as UTF-8 bytes, in result order.
    pub columns: Seq<Seq<u8>>,
    /// Declared parameter names, as UTF-8 bytes; `params[i]` names the
    /// parameter with 1-based index `i + 1`.  Nameless positional
    /// parameters carry an empty label.
    pub params: Seq<Seq<u8>>,
    /// Currently bound parameter cells, keyed by 1-based index.
    pub bindings: Map<int, ValueModel>,
    /// Result rows not yet produced by the current execution.
    pub pending: Seq<Seq<ValueModel>>,
    /// The row produced by the most recent step, if it produced one.
    pub row: Option<Seq<ValueModel>>,
}

impl StmtModel {
    /// Structural soundness of a statement model: counts fit the engine's
    /// signed 32-bit index domain, every row is as wide as the declared
    /// column list, bindings stay within the declared parameter range, and
    /// a non-empty parameter name resolves to exactly one index.
    pub open spec fn wf(&self) -> bool {
        &&& self.columns.len() <= 0x7fffffff
        &&& self.params.len() <= 0x7fffffff
        &&& forall|i: int|
            0 <= i < self.pending.len() ==> (#[trigger] self.pending[i]).len()
                == self.columns.len()
        &&& (self.row matches Some(r) ==> r.len() == self.columns.len())
        &&& forall|k: int| #[trigger]
            self.bindings.dom().contains(k) ==> 1 <= k <= self.params.len()
        &&& forall|i: int, j: int|
            0 <= i < self.params.len() && 0 <= j < self.params.len() && #[trigger]
                self.params[i] == #[trigger] self.params[j] && self.params[i].len() > 0 ==> i
                == j
    }

    /// Whether `other` declares the same statement: same SQL text, same
    /// columns and the same parameter list.
    pub open spec fn same_decl(&self, other: StmtModel) -> bool {
        &&& self.sql == other.sql
        &&& self.columns == other.columns
        &&& self.params == other.params
    }
}

/// The engine's type tag for a cell.
pub open spec fn type_code_of(v: ValueModel) -> i32 {
    match v {
        ValueModel::Null => SQLITE_NULL,
        ValueModel::Integer(_) => SQLITE_INTEGER,
        ValueModel::Real(_) => SQLITE_FLOAT,
        ValueModel::Text(_) => SQLITE_TEXT,
        ValueModel::Blob(_) => SQLITE_BLOB,
    }
}

/// What one native bind call does: on success exactly the addressed slot
/// is overwritten, on failure the bindings are untouched; the statement's
/// declaration never changes.  Pending rows are deliberately left open,
/// since rebinding changes what a fresh execution will produce.
pub open spec fn bind_frame(pre: StmtModel, post: StmtModel, col: int, v: ValueModel, r: i32) -> bool {
    &&& post.same_decl(pre)
    &&& (r == SQLITE_OK ==> post.bindings == pre.bindings.insert(col, v))
    &&& (r != SQLITE_OK ==> post.bindings == pre.bindings)
}

/// What one step call does.  A row status consumes the head of the
/// pending sequence; a done status is only reported once nothing is
/// pending; any other status leaves the statement as it was.  A step
/// never reports the plain success code.
pub open spec fn step_frame(pre: StmtModel, post: StmtModel, r: i32) -> bool {
    &&& post.same_decl(pre)
    &&& post.bindings == pre.bindings
    &&& r != SQLITE_OK
    &&& (r == SQLITE_ROW ==> pre.pending.len() > 0 && post.row == Some(pre.pending[0])
        && post.pending == pre.pending.drop_first())
    &&& (r == SQLITE_DONE ==> pre.pending.len() == 0 && post.pending == pre.pending
        && post.row is None)
    &&& (r != SQLITE_ROW && r != SQLITE_DONE ==> post == pre)
}

/// The owning connection of a prepared statement, as far as this layer
/// consumes it: decoding of native status codes, and the change counters
/// the engine keeps per connection.
pub trait Connection {
    /// The engine's count of rows changed by the most recently completed
    /// statement on this connection.
    spec fn spec_changes(&self) -> i32;

    /// The row id most recently inserted through this connection.
    spec fn spec_last_insert_rowid(&self) -> i64;

    /// Read the change count.
    fn changes(&self) -> (r: i32)
        ensures
            r == self.spec_changes(),
    ;

    /// Read the last inserted row id.
    fn last_insert_rowid(&self) -> (r: i64)
        ensures
            r == self.spec_last_insert_rowid(),
    ;

    /// Map a native status code to a typed result: the success code maps
    /// to `Ok`, every other code to an engine failure carrying that code.
    fn decode_result(&self, code: i32) -> (r: Result<(), Error>)
        ensures
            r is Ok <==> code == SQLITE_OK,
            r matches Err(e) ==> (e matches Error::SqliteFailure(c, _) && c == code),
    ;
}

/// One native prepared statement.  Every method mirrors one call of the
/// engine's C interface; the contracts say how each call moves the
/// abstract [`StmtModel`].
pub trait EngineStatement: Sized {
    /// The backend's internal soundness; abstract to this layer.
    spec fn wf(&self) -> bool;

    /// The abstract state of this statement.
    spec fn model(&self) -> StmtModel;

    /// A sound backend presents a structurally sound model.
    proof fn lemma_wf(&self)
        requires
            self.wf(),
        ensures
            self.model().wf(),
    ;

    /// The SQL text this statement was prepared from, passed through
    /// unchanged.
    fn sql_text(&self) -> (r: String)
        requires
            self.wf(),
        ensures
            crate::value::str_bytes(r@) == self.model().sql,
    ;

    /// Number of result columns.
    fn column_count(&self) -> (r: i32)
        requires
            self.wf(),
        ensures
            r as int == self.model().columns.len(),
            r >= 0,
    ;

    /// Label of result column `i`, as UTF-8 text.
    fn column_name(&self, i: i32) -> (r: String)
        requires
            self.wf(),
            0 <= (i as int) < self.model().columns.len(),
        ensures
            crate::value::str_bytes(r@) == self.model().columns[i as int],
    ;

    /// Number of declared parameters.
    fn bind_parameter_count(&self) -> (r: i32)
        requires
            self.wf(),
        ensures
            r as int == self.model().params.len(),
            r >= 0,
    ;

    /// The 1-based index of the parameter named `name`, or `None` when no
    /// parameter carries that name.  Names are matched byte-exactly, and
    /// the engine never reports an empty name.
    fn bind_parameter_index(&self, name: &str) -> (r: Option<i32>)
        requires
            self.wf(),
        ensures
            r matches Some(i) ==> 1 <= (i as int) <= self.model().params.len()
                && self.model().params[i as int - 1]
                == name.spec_bytes(),
            r is Some <==> exists|j: int|
                0 <= j < self.model().params.len() && #[trigger] self.model().params[j]
                    == name.spec_bytes()
                    && self.model().params[j].len() > 0,
    ;

    /// Bind SQL NULL at 1-based index `col`.
    fn bind_null(&mut self, col: i32) -> (r: i32)
        requires
            old(self).wf(),
            1 <= (col as int) <= old(self).model().params.len(),
        ensures
            final(self).wf(),
            bind_frame(old(self).model(), final(self).model(), col as int, ValueModel::Null, r),
    ;

    /// Bind a 64-bit integer.
    fn bind_int64(&mut self, col: i32, v: i64) -> (r: i32)
        requires
            old(self).wf(),
            1 <= (col as int) <= old(self).model().params.len(),
        ensures
            final(self).wf(),
            bind_frame(old(self).model(), final(self).model(), col as int, ValueModel::Integer(v), r),
    ;

    /// Bind a 64-bit float, carried as its IEEE 754 bit pattern.
    fn bind_real(&mut self, col: i32, bits: u64) -> (r: i32)
        requires
            old(self).wf(),
            1 <= (col as int) <= old(self).model().params.len(),
        ensures
            final(self).wf(),
            bind_frame(old(self).model(), final(self).model(), col as int, ValueModel::Real(bits), r),
    ;

    /// Bind a text payload.  The caller has already checked the size
    /// limit and the absence of interior NUL bytes; `transient` says
    /// whether the engine must copy the data during the call.
    fn bind_text(&mut self, col: i32, s: &str, transient: bool) -> (r: i32)
        requires
            old(self).wf(),
            1 <= (col as int) <= old(self).model().params.len(),
            s.spec_bytes().len() <= 0x7fffffff,
            !crate::value::has_nul(s.spec_bytes()),
        ensures
            final(self).wf(),
            bind_frame(
                old(self).model(),
                final(self).model(),
                col as int,
                ValueModel::Text(s.spec_bytes()),
                r,
            ),
    ;

    /// Bind a non-empty blob payload.  Zero-length blobs must go through
    /// `bind_zeroblob`, because the native pointer for them is null.
    fn bind_blob(&mut self, col: i32, b: &[u8]) -> (r: i32)
        requires
            old(self).wf(),
            1 <= (col as int) <= old(self).model().params.len(),
            1 <= b@.len() <= 0x7fffffff,
        ensures
            final(self).wf(),
            bind_frame(old(self).model(), final(self).model(), col as int, ValueModel::Blob(b@), r),
    ;

    /// Bind a zero-filled blob of `n` bytes.
    fn bind_zeroblob(&mut self, col: i32, n: i32) -> (r: i32)
        requires
            old(self).wf(),
            1 <= (col as int) <= old(self).model().params.len(),
            n >= 0,
        ensures
            final(self).wf(),
            bind_frame(
                old(self).model(),
                final(self).model(),
                col as int,
                crate::value::zero_blob_model(n as int),
                r,
            ),
    ;

    /// Advance the statement by one step.
    fn step(&mut self) -> (r: i32)
        requires
            old(self).wf(),
        ensures
            final(self).wf(),
            step_frame(old(self).model(), final(self).model(), r),
    ;

    /// Clear the execution state: the current row is dropped and a fresh
    /// execution is set up, while every binding is preserved.
    fn reset(&mut self) -> (r: i32)
        requires
            old(self).wf(),
        ensures
            final(self).wf(),
            final(self).model().same_decl(old(self).model()),
            final(self).model().bindings == old(self).model().bindings,
            final(self).model().row is None,
    ;

    /// Release the native resource.
    fn finalize(self) -> (r: i32);

    /// The engine's type tag for column `i` of the current row.
    fn column_type(&self, i: i32) -> (r: i32)
        requires
            self.wf(),
            self.model().row is Some,
            0 <= (i as int) < self.model().columns.len(),
        ensures
            r == type_code_of(self.model().row->Some_0[i as int]),
    ;

    /// Column `i` of the current row, which holds an integer.
    fn column_int64(&self, i: i32) -> (r: i64)
        requires
            self.wf(),
            self.model().row is Some,
            0 <= (i as int) < self.model().columns.len(),
            self.model().row->Some_0[i as int] is Integer,
        ensures
            r == self.model().row->Some_0[i as int]->Integer_0,
    ;

    /// Column `i` of the current row, which holds a float; returned as
    /// its IEEE 754 bit pattern.
    fn column_real(&self, i: i32) -> (r: u64)
        requires
            self.wf(),
            self.model().row is Some,
            0 <= (i as int) < self.model().columns.len(),
            self.model().row->Some_0[i as int] is Real,
        ensures
            r == self.model().row->Some_0[i as int]->Real_0,
    ;

    /// Column `i` of the current row, which holds text.  The engine
    /// guarantees valid UTF-8 here.
    fn column_text(&self, i: i32) -> (r: String)
        requires
            self.wf(),
            self.model().row is Some,
            0 <= (i as int) < self.model().columns.len(),
            self.model().row->Some_0[i as int] is Text,
        ensures
            crate::value::str_bytes(r@) == self.model().row->Some_0[i as int]->Text_0,
    ;

    /// Column `i` of the current row, which holds a blob; a zero-length
    /// payload comes back as an empty vector, never as an absent value.
    fn column_blob(&self, i: i32) -> (r: Vec<u8>)
        requires
            self.wf(),
            self.model().row is Some,
            0 <= (i as int) < self.model().columns.len(),
            self.model().row->Some_0[i as int] is Blob,
        ensures
            r@ == self.model().row->Some_0[i as int]->Blob_0,
    ;
}

} // verus!
