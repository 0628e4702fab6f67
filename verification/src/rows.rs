//! The lazy, single-pass, forward-only row cursor and its per-step row
//! view, plus the thin mapping adapters.

use vstd::prelude::*;

use crate::engine::{Connection, EngineStatement};
use crate::error::Error;
use crate::statement::{engine_failure, Statement};
use crate::value::{Value, ValueModel};

verus! {

/// A read-only view of one produced row.  The cells are copied out of
/// the engine's per-step storage when the row is produced, so the view
/// stays meaningful on its own; the engine-side pointers this copy came
/// from are invalidated by the next step.
pub struct Row {
    /// The row's cells, in column order.
    pub values: Vec<Value>,
}

impl View for Row {
    type V = Seq<ValueModel>;

    open spec fn view(&self) -> Seq<ValueModel> {
        self.values@.map_values(|v: Value| v@)
    }
}

impl Row {
    /// Number of columns in this row.
    pub fn column_count(&self) -> (r: usize)
        ensures
            r == self@.len(),
    {
        self.values.len()
    }

    /// The cell at column `idx`, or `InvalidColumnIndex` when `idx` is
    /// outside the row.
    pub fn get(&self, idx: i32) -> (r: Result<Value, Error>)
        ensures
            r is Ok <==> 0 <= (idx as int) < self@.len(),
            r matches Ok(v) ==> v@ == self@[idx as int],
            r matches Err(e) ==> (e matches Error::InvalidColumnIndex(j) && j == idx),
    {
        if idx < 0 {
            Err(Error::InvalidColumnIndex(idx))
        } else {
            let u = idx as usize;
            if u >= self.values.len() {
                Err(Error::InvalidColumnIndex(idx))
            } else {
                Ok(self.values[u].clone())
            }
        }
    }
}

/// The forward-only cursor over a query's result rows.  It takes the
/// statement for the duration of result consumption, so no second cursor
/// or binding call can interleave.  The completion signal (or a step
/// error) latches the cursor exhausted; the statement itself is kept, so
/// a caller who is done consuming can take it back, rebind it and run it
/// again, or finalize it explicitly.
pub struct Rows<'conn, C: Connection, H: EngineStatement> {
    /// The statement being stepped.
    pub stmt: Statement<'conn, C, H>,
    /// Whether the cursor has seen its completion signal or a step
    /// error; once set, no further step is ever performed.
    pub done: bool,
}

impl<'conn, C: Connection, H: EngineStatement> Rows<'conn, C, H> {
    /// A cursor over a sound statement.
    pub open spec fn wf(&self) -> bool {
        self.stmt.wf()
    }

    /// A fresh cursor in the ready state: nothing stepped yet.
    pub fn new(stmt: Statement<'conn, C, H>) -> (r: Self)
        ensures
            r.stmt == stmt,
            !r.done,
    {
        Rows { stmt, done: false }
    }

    /// Advance by one step.  A produced row is yielded as a value copy;
    /// the completion signal exhausts the cursor for good, and so does a
    /// step error, which is yielded as the element.  Advancing an
    /// exhausted cursor is safe, steps nothing, and yields nothing.
    pub fn next(&mut self) -> (r: Option<Result<Row, Error>>)
        requires
            old(self).wf(),
        ensures
            final(self).wf(),
            final(self).stmt.conn == old(self).stmt.conn,
            old(self).done ==> r is None && *final(self) == *old(self),
            !old(self).done ==> {
                let pre = old(self).stmt.model();
                &&& final(self).stmt.model().same_decl(pre)
                &&& final(self).stmt.model().bindings == pre.bindings
                &&& (r matches Some(Ok(row)) ==> pre.pending.len() > 0 && row@ == pre.pending[0]
                    && !final(self).done && final(self).stmt.model().pending
                    == pre.pending.drop_first())
                &&& (r is None ==> pre.pending.len() == 0 && final(self).done
                    && final(self).stmt.model().pending == pre.pending
                    && final(self).stmt.model().row is None)
                &&& (r matches Some(Err(e)) ==> final(self).done && final(self).stmt.model()
                    == pre && (e matches Error::SqliteFailure(c, _) && c
                    != crate::codes::SQLITE_OK))
            },
    {
        if self.done {
            return None;
        }
        proof {
            self.stmt.stmt.lemma_wf();
        }
        match self.stmt.step() {
            Ok(true) => {
                let ghost row_model = self.stmt.model().row->Some_0;
                let n = self.stmt.column_count();
                let mut values: Vec<Value> = Vec::new();
                let mut i: i32 = 0;
                while i < n
                    invariant
                        self.stmt.wf(),
                        self.stmt.model().row == Some(row_model),
                        0 <= i <= n,
                        n as int == self.stmt.model().columns.len(),
                        row_model.len() == n as int,
                        values@.len() == i as int,
                        forall|j: int|
                            0 <= j < i as int ==> (#[trigger] values@[j])@ == row_model[j],
                    decreases n - i,
                {
                    values.push(self.stmt.value_ref(i));
                    i = i + 1;
                }
                let row = Row { values };
                proof {
                    assert(row@ =~= row_model);
                }
                Some(Ok(row))
            },
            Ok(false) => {
                self.done = true;
                None
            },
            Err(e) => {
                self.done = true;
                Some(Err(e))
            },
        }
    }

    /// Give the statement back, so the caller can rebind, re-run or
    /// finalize it; dropping a cursor mid-consumption and reclaiming the
    /// statement this way leaves it safe to reset and reuse.
    pub fn into_statement(self) -> (r: Statement<'conn, C, H>)
        ensures
            r == self.stmt,
    {
        self.stmt
    }
}

/// Whether `t` is an output the transform `f` can give for a row whose
/// cells are `expected`.
#[verifier::opaque]
pub open spec fn maps_row_to<T, F: Fn(&Row) -> T>(f: F, expected: Seq<ValueModel>, t: T) -> bool {
    exists|row: Row| row@ == expected && call_ensures(f, (&row,), t)
}

/// Whether `e` is a step failure of the engine converted into the
/// caller's error type through its `From` conversion.
#[verifier::opaque]
pub open spec fn converted_step_error<E2: From<Error>>(e: E2) -> bool {
    exists|e0: Error|
        engine_failure(e0) && call_ensures(<E2 as From<Error>>::from, (e0,), e)
}

/// A cursor that applies a caller-supplied transform to each produced
/// row, lazily, one element per advance.
pub struct MappedRows<'conn, C: Connection, H: EngineStatement, F> {
    /// The underlying row cursor.
    pub rows: Rows<'conn, C, H>,
    /// The transform applied to each produced row.
    pub map: F,
}

impl<'conn, C: Connection, H: EngineStatement, F> MappedRows<'conn, C, H, F> {
    /// Advance the underlying cursor and apply the transform to a
    /// produced row; step errors pass through untransformed.
    pub fn next<T>(&mut self) -> (r: Option<Result<T, Error>>) where F: Fn(&Row) -> T
        requires
            old(self).rows.wf(),
            forall|row: Row| call_requires(old(self).map, (&row,)),
        ensures
            final(self).rows.wf(),
            final(self).map == old(self).map,
            final(self).rows.stmt.conn == old(self).rows.stmt.conn,
            old(self).rows.done ==> r is None && final(self).rows == old(self).rows,
            !old(self).rows.done ==> {
                let pre = old(self).rows.stmt.model();
                &&& final(self).rows.stmt.model().same_decl(pre)
                &&& final(self).rows.stmt.model().bindings == pre.bindings
                &&& (r matches Some(Ok(t)) ==> pre.pending.len() > 0 && maps_row_to(
                    old(self).map,
                    pre.pending[0],
                    t,
                ) && !final(self).rows.done && final(self).rows.stmt.model().pending
                    == pre.pending.drop_first())
                &&& (r is None ==> pre.pending.len() == 0 && final(self).rows.done)
                &&& (r matches Some(Err(e)) ==> final(self).rows.done && engine_failure(e))
            },
    {
        match self.rows.next() {
            None => None,
            Some(Err(e)) => Some(Err(e)),
            Some(Ok(row)) => {
                let t = (self.map)(&row);
                proof {
                    reveal(maps_row_to);
                    assert(row@ == old(self).rows.stmt.model().pending[0]);
                    assert(call_ensures(old(self).map, (&row,), t));
                    assert(maps_row_to(old(self).map, old(self).rows.stmt.model().pending[0], t));
                }
                Some(Ok(t))
            },
        }
    }
}

/// A cursor whose transform itself may fail: the transform's failure is
/// yielded as the element, and a step error is converted into the
/// caller's error type.
pub struct AndThenRows<'conn, C: Connection, H: EngineStatement, F> {
    /// The underlying row cursor.
    pub rows: Rows<'conn, C, H>,
    /// The fallible transform applied to each produced row.
    pub map: F,
}

impl<'conn, C: Connection, H: EngineStatement, F> AndThenRows<'conn, C, H, F> {
    /// Advance the underlying cursor and apply the fallible transform to
    /// a produced row.
    pub fn next<T, E2: From<Error>>(&mut self) -> (r: Option<Result<T, E2>>) where F: Fn(&Row) -> Result<T, E2>
        requires
            old(self).rows.wf(),
            forall|row: Row| call_requires(old(self).map, (&row,)),
        ensures
            final(self).rows.wf(),
            final(self).map == old(self).map,
            final(self).rows.stmt.conn == old(self).rows.stmt.conn,
            old(self).rows.done ==> r is None && final(self).rows == old(self).rows,
            !old(self).rows.done ==> {
                let pre = old(self).rows.stmt.model();
                &&& final(self).rows.stmt.model().same_decl(pre)
                &&& final(self).rows.stmt.model().bindings == pre.bindings
                &&& (r matches Some(Ok(t)) ==> pre.pending.len() > 0 && maps_row_to(
                    old(self).map,
                    pre.pending[0],
                    Result::<T, E2>::Ok(t),
                ) && !final(self).rows.done && final(self).rows.stmt.model().pending
                    == pre.pending.drop_first())
                &&& (r is None ==> pre.pending.len() == 0 && final(self).rows.done)
                &&& (r matches Some(Err(e)) ==> (final(self).rows.done
                    && converted_step_error::<E2>(e)) || (pre.pending.len() > 0 && maps_row_to(
                    old(self).map,
                    pre.pending[0],
                    Result::<T, E2>::Err(e),
                ) && !final(self).rows.done && final(self).rows.stmt.model().pending
                    == pre.pending.drop_first()))
            },
    {
        match self.rows.next() {
            None => None,
            Some(Err(e)) => {
                let e2: E2 = e.into();
                proof {
                    reveal(converted_step_error);
                    assert(engine_failure(e));
                    assert(call_ensures(<E2 as From<Error>>::from, (e,), e2));
                    assert(converted_step_error::<E2>(e2));
                }
                Some(Err(e2))
            },
            Some(Ok(row)) => {
                let res = (self.map)(&row);
                proof {
                    reveal(maps_row_to);
                    assert(row@ == old(self).rows.stmt.model().pending[0]);
                    assert(call_ensures(old(self).map, (&row,), res));
                    assert(maps_row_to(old(self).map, old(self).rows.stmt.model().pending[0], res));
                }
                match res {
                    Ok(t) => Some(Ok(t)),
                    Err(e) => Some(Err(e)),
                }
            },
        }
    }
}

} // verus!
