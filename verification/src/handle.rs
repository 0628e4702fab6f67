//! Exclusive ownership of one native prepared-statement resource, with
//! the exactly-once finalize discipline.

use vstd::prelude::*;
use vstd::string::StringSliceAdditionalSpecFns;

use crate::codes::SQLITE_OK;
use crate::engine::{bind_frame, step_frame, EngineStatement, StmtModel};
use crate::value::{has_nul, str_bytes, zero_blob_model, ValueModel};

verus! {

/// Wraps exactly one native prepared statement, or the released (null)
/// state.  Releasing swaps the resource out for the null state before the
/// native finalize call, so a second release observes the null state and
/// is a no-op: finalize runs exactly once per resource, by construction.
pub struct RawHandle<H: EngineStatement> {
    /// The native resource; `None` is the released state.
    pub inner: Option<H>,
}

impl<H: EngineStatement> RawHandle<H> {
    /// Whether this handle still owns its resource.
    pub open spec fn is_open(&self) -> bool {
        self.inner is Some
    }

    /// An open handle over a sound backend statement.
    pub open spec fn wf(&self) -> bool {
        self.inner matches Some(h) && h.wf()
    }

    /// The abstract state of the wrapped statement.
    pub open spec fn model(&self) -> StmtModel {
        self.inner->Some_0.model()
    }

    /// A sound handle presents a structurally sound model.
    pub proof fn lemma_wf(&self)
        requires
            self.wf(),
        ensures
            self.model().wf(),
    {
        self.inner->Some_0.lemma_wf();
    }

    /// Take ownership of a native statement.
    pub fn new(h: H) -> (r: Self)
        ensures
            r.inner == Some(h),
    {
        RawHandle { inner: Some(h) }
    }

    /// Release the resource.  On an already-released handle this is a
    /// no-op that reports success.
    pub fn finalize(&mut self) -> (r: i32)
        ensures
            !final(self).is_open(),
    {
        let taken = self.inner.take();
        match taken {
            Some(h) => h.finalize(),
            None => SQLITE_OK,
        }
    }

    /// The SQL text of the wrapped statement, passed through unchanged.
    pub fn sql_text(&self) -> (r: String)
        requires
            self.wf(),
        ensures
            str_bytes(r@) == self.model().sql,
    {
        match &self.inner {
            Some(h) => h.sql_text(),
            None => String::new(),
        }
    }

    /// Number of result columns.
    pub fn column_count(&self) -> (r: i32)
        requires
            self.wf(),
        ensures
            r as int == self.model().columns.len(),
            r >= 0,
    {
        match &self.inner {
            Some(h) => h.column_count(),
            None => 0,
        }
    }

    /// Label of result column `i`.
    pub fn column_name(&self, i: i32) -> (r: String)
        requires
            self.wf(),
            0 <= (i as int) < self.model().columns.len(),
    ensures
            str_bytes(r@) == self.model().columns[i as int],
    {
        match &self.inner {
            Some(h) => h.column_name(i),
            None => String::new(),
        }
    }

    /// Number of declared parameters.
    pub fn bind_parameter_count(&self) -> (r: i32)
        requires
            self.wf(),
        ensures
            r as int == self.model().params.len(),
            r >= 0,
    {
        match &self.inner {
            Some(h) => h.bind_parameter_count(),
            None => 0,
        }
    }

    /// The 1-based index of the parameter named `name`.
    pub fn bind_parameter_index(&self, name: &str) -> (r: Option<i32>)
        requires
            self.wf(),
        ensures
            r matches Some(i) ==> 1 <= (i as int) <= self.model().params.len()
                && self.model().params[i as int - 1] == name.spec_bytes(),
            r is Some <==> exists|j: int|
                0 <= j < self.model().params.len() && #[trigger] self.model().params[j]
                    == name.spec_bytes() && self.model().params[j].len() > 0,
    {
        match &self.inner {
            Some(h) => h.bind_parameter_index(name),
            None => None,
        }
    }

    /// Bind SQL NULL at index `col`.
    pub fn bind_null(&mut self, col: i32) -> (r: i32)
        requires
            old(self).wf(),
            1 <= (col as int) <= old(self).model().params.len(),
        ensures
            final(self).wf(),
            bind_frame(old(self).model(), final(self).model(), col as int, ValueModel::Null, r),
    {
        match &mut self.inner {
            Some(h) => h.bind_null(col),
            None => SQLITE_OK,
        }
    }

    /// Bind a 64-bit integer.
    pub fn bind_int64(&mut self, col: i32, v: i64) -> (r: i32)
        requires
            old(self).wf(),
            1 <= (col as int) <= old(self).model().params.len(),
        ensures
            final(self).wf(),
            bind_frame(old(self).model(), final(self).model(), col as int, ValueModel::Integer(v), r),
    {
        match &mut self.inner {
            Some(h) => h.bind_int64(col, v),
            None => SQLITE_OK,
        }
    }

    /// Bind a 64-bit float bit pattern.
    pub fn bind_real(&mut self, col: i32, bits: u64) -> (r: i32)
        requires
            old(self).wf(),
            1 <= (col as int) <= old(self).model().params.len(),
        ensures
            final(self).wf(),
            bind_frame(old(self).model(), final(self).model(), col as int, ValueModel::Real(bits), r),
    {
        match &mut self.inner {
            Some(h) => h.bind_real(col, bits),
            None => SQLITE_OK,
        }
    }

    /// Bind a text payload.
    pub fn bind_text(&mut self, col: i32, s: &str, transient: bool) -> (r: i32)
        requires
            old(self).wf(),
            1 <= (col as int) <= old(self).model().params.len(),
            s.spec_bytes().len() <= 0x7fffffff,
            !has_nul(s.spec_bytes()),
        ensures
            final(self).wf(),
            bind_frame(
                old(self).model(),
                final(self).model(),
                col as int,
                ValueModel::Text(s.spec_bytes()),
                r,
            ),
    {
        match &mut self.inner {
            Some(h) => h.bind_text(col, s, transient),
            None => SQLITE_OK,
        }
    }

    /// Bind a non-empty blob payload.
    pub fn bind_blob(&mut self, col: i32, b: &[u8]) -> (r: i32)
        requires
            old(self).wf(),
            1 <= (col as int) <= old(self).model().params.len(),
            1 <= b@.len() <= 0x7fffffff,
        ensures
            final(self).wf(),
            bind_frame(old(self).model(), final(self).model(), col as int, ValueModel::Blob(b@), r),
    {
        match &mut self.inner {
            Some(h) => h.bind_blob(col, b),
            None => SQLITE_OK,
        }
    }

    /// Bind a zero-filled blob of `n` bytes.
    pub fn bind_zeroblob(&mut self, col: i32, n: i32) -> (r: i32)
        requires
            old(self).wf(),
            1 <= (col as int) <= old(self).model().params.len(),
            n >= 0,
        ensures
            final(self).wf(),
            bind_frame(
                old(self).model(),
                final(self).model(),
                col as int,
                zero_blob_model(n as int),
                r,
            ),
    {
        match &mut self.inner {
            Some(h) => h.bind_zeroblob(col, n),
            None => SQLITE_OK,
        }
    }

    /// Advance by one step.
    pub fn step(&mut self) -> (r: i32)
        requires
            old(self).wf(),
        ensures
            final(self).wf(),
            step_frame(old(self).model(), final(self).model(), r),
    {
        match &mut self.inner {
            Some(h) => h.step(),
            None => SQLITE_OK,
        }
    }

    /// Discard execution state, preserving bindings.
    pub fn reset(&mut self) -> (r: i32)
        requires
            old(self).wf(),
        ensures
            final(self).wf(),
            final(self).model().same_decl(old(self).model()),
            final(self).model().bindings == old(self).model().bindings,
            final(self).model().row is None,
    {
        match &mut self.inner {
            Some(h) => h.reset(),
            None => SQLITE_OK,
        }
    }

    /// The engine's type tag for column `i` of the current row.
    pub fn column_type(&self, i: i32) -> (r: i32)
        requires
            self.wf(),
            self.model().row is Some,
            0 <= (i as int) < self.model().columns.len(),
        ensures
            r == crate::engine::type_code_of(self.model().row->Some_0[i as int]),
    {
        match &self.inner {
            Some(h) => h.column_type(i),
            None => 0,
        }
    }

    /// Integer column of the current row.
    pub fn column_int64(&self, i: i32) -> (r: i64)
        requires
            self.wf(),
            self.model().row is Some,
            0 <= (i as int) < self.model().columns.len(),
            self.model().row->Some_0[i as int] is Integer,
        ensures
            r == self.model().row->Some_0[i as int]->Integer_0,
    {
        match &self.inner {
            Some(h) => h.column_int64(i),
            None => 0,
        }
    }

    /// Float column of the current row, as its bit pattern.
    pub fn column_real(&self, i: i32) -> (r: u64)
        requires
            self.wf(),
            self.model().row is Some,
            0 <= (i as int) < self.model().columns.len(),
            self.model().row->Some_0[i as int] is Real,
        ensures
            r == self.model().row->Some_0[i as int]->Real_0,
    {
        match &self.inner {
            Some(h) => h.column_real(i),
            None => 0,
        }
    }

    /// Text column of the current row.
    pub fn column_text(&self, i: i32) -> (r: String)
        requires
            self.wf(),
            self.model().row is Some,
            0 <= (i as int) < self.model().columns.len(),
            self.model().row->Some_0[i as int] is Text,
        ensures
            str_bytes(r@) == self.model().row->Some_0[i as int]->Text_0,
    {
        match &self.inner {
            Some(h) => h.column_text(i),
            None => String::new(),
        }
    }

    /// Blob column of the current row.
    pub fn column_blob(&self, i: i32) -> (r: Vec<u8>)
        requires
            self.wf(),
            self.model().row is Some,
            0 <= (i as int) < self.model().columns.len(),
            self.model().row->Some_0[i as int] is Blob,
        ensures
            r@ == self.model().row->Some_0[i as int]->Blob_0,
    {
        match &self.inner {
            Some(h) => h.column_blob(i),
            None => Vec::new(),
        }
    }
}

} // verus!
