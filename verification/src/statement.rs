//! The prepared statement: parameter binding, execution, and the entry
//! points into row iteration.

use vstd::prelude::*;
use vstd::string::StringSliceAdditionalSpecFns;

use crate::codes::{MAX_PAYLOAD_LEN, SQLITE_DONE, SQLITE_OK, SQLITE_ROW, SQLITE_TOOBIG};
use crate::engine::{Connection, EngineStatement, StmtModel};
use crate::error::Error;
use crate::handle::RawHandle;
use crate::rows::{AndThenRows, MappedRows, Row, Rows};
use crate::value::{bound_value_model, has_nul, str_bytes, BindOutput, BindOutputModel, ToSql,
    Value, ValueModel};

verus! {

/// Byte-exact comparison of two byte slices.
pub fn bytes_eq(a: &[u8], b: &[u8]) -> (r: bool)
    ensures
        r <==> a@ == b@,
{
    if a.len() != b.len() {
        proof {
            assert(a@ != b@);
        }
        return false;
    }
    let mut i: usize = 0;
    while i < a.len()
        invariant
            i <= a.len(),
            a@.len() == b@.len(),
            forall|j: int| 0 <= j < i ==> a@[j] == b@[j],
        decreases a.len() - i,
    {
        if a[i] != b[i] {
            return false;
        }
        i = i + 1;
    }
    proof {
        assert(a@ =~= b@);
    }
    true
}

/// Reject a string that cannot be represented in the engine's NUL
/// terminated text encoding; reports the offset of the first interior NUL.
fn check_no_nul(s: &str) -> (r: Result<(), Error>)
    ensures
        r is Ok <==> !has_nul(s.spec_bytes()),
        r matches Err(e) ==> (e matches Error::NulError(p) && p < s.spec_bytes().len()
            && s.spec_bytes()[p as int] == 0u8 && forall|q: int|
            0 <= q < p ==> s.spec_bytes()[q] != 0u8),
{
    let b = s.as_bytes();
    let mut i: usize = 0;
    while i < b.len()
        invariant
            i <= b@.len(),
            b@ == s.spec_bytes(),
            forall|q: int| 0 <= q < i ==> b@[q] != 0u8,
        decreases b.len() - i,
    {
        if b[i] == 0 {
            return Err(Error::NulError(i));
        }
        i = i + 1;
    }
    Ok(())
}

/// The bind outputs that a parameter slice converts to.
pub open spec fn outputs_of<P: ToSql>(params: Seq<P>) -> Seq<BindOutputModel> {
    params.map_values(|p: P| p.to_sql_spec())
}

/// The binding map after positional values `outs[0 .. k]` have been bound
/// at 1-based indices `1 ..= k`, later values over earlier ones.
pub open spec fn bound_positional(
    pre: Map<int, ValueModel>,
    outs: Seq<BindOutputModel>,
    k: int,
) -> Map<int, ValueModel>
    decreases k,
{
    if k <= 0 {
        pre
    } else {
        bound_positional(pre, outs, k - 1).insert(k, bound_value_model(outs[k - 1]))
    }
}

/// The 1-based slot a parameter name resolves to, or `None` when the
/// statement declares no parameter of that name.  Empty names never
/// resolve: the engine reports no name for nameless positional parameters.
pub open spec fn param_slot(params: Seq<Seq<u8>>, name: Seq<u8>) -> Option<int> {
    if exists|j: int| 0 <= j < params.len() && #[trigger] params[j] == name && name.len() > 0 {
        Some(1 + (choose|j: int| 0 <= j < params.len() && #[trigger] params[j] == name
            && name.len() > 0))
    } else {
        None
    }
}

/// The binding map after the first `k` name/value pairs have been bound,
/// later pairs over earlier ones; unresolvable names bind nothing.
pub open spec fn bound_named(
    pre: Map<int, ValueModel>,
    params: Seq<Seq<u8>>,
    pairs: Seq<(Seq<u8>, BindOutputModel)>,
    k: int,
) -> Map<int, ValueModel>
    decreases k,
{
    if k <= 0 {
        pre
    } else {
        let m = bound_named(pre, params, pairs, k - 1);
        match param_slot(params, pairs[k - 1].0) {
            Some(i) => m.insert(i, bound_value_model(pairs[k - 1].1)),
            None => m,
        }
    }
}

/// The name/output pairs that a named parameter slice converts to.
pub open spec fn pairs_of<P: ToSql>(params: Seq<(&str, P)>) -> Seq<(Seq<u8>, BindOutputModel)> {
    params.map_values(|p: (&str, P)| (p.0.spec_bytes(), p.1.to_sql_spec()))
}

/// Whether every value of a positional parameter list converts and is
/// representable: the conversion succeeds, the payload is within the
/// engine's size limit, and text carries no interior NUL byte.
pub open spec fn outputs_clean<P: ToSql>(params: Seq<P>) -> bool {
    forall|k: int|
        0 <= k < params.len() ==> (#[trigger] params[k]).to_sql_ok() && !crate::value::output_too_big(
            params[k].to_sql_spec(),
        ) && !crate::value::output_text_with_nul(params[k].to_sql_spec())
}

/// As [`outputs_clean`], for the values of a named parameter list,
/// whose names must also be free of interior NUL bytes.
pub open spec fn pairs_clean<P: ToSql>(params: Seq<(&str, P)>) -> bool {
    forall|k: int|
        0 <= k < params.len() ==> (#[trigger] params[k]).1.to_sql_ok()
            && !crate::value::output_too_big(params[k].1.to_sql_spec())
            && !crate::value::output_text_with_nul(params[k].1.to_sql_spec()) && !has_nul(
            params[k].0.spec_bytes(),
        )
}

/// Whether every name of a named parameter list resolves to a declared
/// parameter slot.
pub open spec fn names_resolve<P: ToSql>(params: Seq<(&str, P)>, decl: Seq<Seq<u8>>) -> bool {
    forall|k: int|
        0 <= k < params.len() ==> param_slot(decl, (#[trigger] params[k]).0.spec_bytes()) is Some
}

/// A failure decoded from a non-success status code of the engine.
pub open spec fn engine_failure(e: Error) -> bool {
    e matches Error::SqliteFailure(c, _) && c != SQLITE_OK
}

/// In a parameter list without duplicate non-empty names, a matching
/// index is the slot the name resolves to.
proof fn lemma_param_slot(params: Seq<Seq<u8>>, name: Seq<u8>, k: int)
    requires
        forall|i: int, j: int|
            0 <= i < params.len() && 0 <= j < params.len() && #[trigger] params[i] == #[trigger]
                params[j] && params[i].len() > 0 ==> i == j,
        0 <= k < params.len(),
        params[k] == name,
        name.len() > 0,
    ensures
        param_slot(params, name) == Some(k + 1),
{
    assert(exists|j: int| 0 <= j < params.len() && #[trigger] params[j] == name && name.len() > 0);
    let j0 = choose|j: int| 0 <= j < params.len() && #[trigger] params[j] == name && name.len() > 0;
    assert(j0 == k);
}

/// A prepared statement: owns the native resource through a
/// [`RawHandle`] and borrows the owning connection for error decoding and
/// change counts.
pub struct Statement<'conn, C: Connection, H: EngineStatement> {
    /// The owning connection.
    pub conn: &'conn C,
    /// The owned native statement.
    pub stmt: RawHandle<H>,
}

impl<'conn, C: Connection, H: EngineStatement> Statement<'conn, C, H> {
    /// An open statement over a sound backend.
    pub open spec fn wf(&self) -> bool {
        self.stmt.wf()
    }

    /// The abstract state of the statement.
    pub open spec fn model(&self) -> StmtModel {
        self.stmt.model()
    }

    /// Wrap a native statement together with its owning connection.
    pub fn new(conn: &'conn C, stmt: RawHandle<H>) -> (r: Statement<'conn, C, H>)
        ensures
            r.conn == conn,
            r.stmt == stmt,
    {
        Statement { conn, stmt }
    }

    /// All column labels of the result set, in result order.
    pub fn column_names(&self) -> (r: Vec<String>)
        requires
            self.wf(),
        ensures
            r@.len() == self.model().columns.len(),
            forall|i: int|
                0 <= i < r@.len() ==> str_bytes((#[trigger] r@[i])@) == self.model().columns[i],
    {
        let n = self.column_count();
        let mut cols: Vec<String> = Vec::new();
        let mut i: i32 = 0;
        while i < n
            invariant
                self.wf(),
                0 <= i <= n,
                n as int == self.model().columns.len(),
                cols@.len() == i as int,
                forall|j: int|
                    0 <= j < i as int ==> str_bytes((#[trigger] cols@[j])@)
                        == self.model().columns[j],
            decreases n - i,
        {
            let s = self.stmt.column_name(i);
            cols.push(s);
            i = i + 1;
        }
        cols
    }

    /// Number of columns in the result set.
    pub fn column_count(&self) -> (r: i32)
        requires
            self.wf(),
        ensures
            r as int == self.model().columns.len(),
            r >= 0,
    {
        self.stmt.column_count()
    }

    /// The index of the first result column whose label equals `name`,
    /// byte-exactly; `InvalidColumnName` when no column matches.
    pub fn column_index(&self, name: &str) -> (r: Result<i32, Error>)
        requires
            self.wf(),
        ensures
            r matches Ok(i) ==> 0 <= (i as int) < self.model().columns.len()
                && self.model().columns[i as int] == name.spec_bytes() && forall|j: int|
                0 <= j < i as int ==> self.model().columns[j] != name.spec_bytes(),
            r is Ok <==> exists|j: int|
                0 <= j < self.model().columns.len() && #[trigger] self.model().columns[j]
                    == name.spec_bytes(),
            r matches Err(e) ==> (e matches Error::InvalidColumnName(s) && s@ == name@),
    {
        let bytes = name.as_bytes();
        let n = self.column_count();
        let mut i: i32 = 0;
        while i < n
            invariant
                self.wf(),
                0 <= i <= n,
                n as int == self.model().columns.len(),
                bytes@ == name.spec_bytes(),
                forall|j: int| 0 <= j < i as int ==> self.model().columns[j] != name.spec_bytes(),
            decreases n - i,
        {
            let col = self.stmt.column_name(i);
            if bytes_eq(bytes, col.as_str().as_bytes()) {
                return Ok(i);
            }
            i = i + 1;
        }
        Err(Error::InvalidColumnName(name.to_owned()))
    }

    /// The 1-based index of the parameter named `name`: `Ok(None)` when
    /// the name is representable but not declared by this statement, and
    /// an encoding failure when it holds an interior NUL byte.
    pub fn parameter_index(&self, name: &str) -> (r: Result<Option<i32>, Error>)
        requires
            self.wf(),
        ensures
            r is Err <==> has_nul(name.spec_bytes()),
            r matches Err(e) ==> (e matches Error::NulError(p) && p < name.spec_bytes().len()
                && name.spec_bytes()[p as int] == 0u8 && forall|q: int|
                0 <= q < p ==> name.spec_bytes()[q] != 0u8),
            r matches Ok(o) ==> {
                &&& (o matches Some(i) ==> 1 <= (i as int) <= self.model().params.len()
                    && self.model().params[i as int - 1] == name.spec_bytes())
                &&& (o is Some <==> exists|j: int|
                    0 <= j < self.model().params.len() && #[trigger] self.model().params[j]
                        == name.spec_bytes() && self.model().params[j].len() > 0)
            },
    {
        match check_no_nul(name) {
            Err(e) => Err(e),
            Ok(()) => Ok(self.stmt.bind_parameter_index(name)),
        }
    }

    /// Bind one converted parameter at 1-based index `col`.
    fn bind_parameter<P: ToSql>(&mut self, param: &P, col: i32) -> (r: Result<(), Error>)
        requires
            old(self).wf(),
            1 <= (col as int) <= old(self).model().params.len(),
        ensures
            final(self).wf(),
            final(self).conn == old(self).conn,
            final(self).model().same_decl(old(self).model()),
            r matches Ok(u) ==> final(self).model().bindings == old(self).model().bindings.insert(
                col as int,
                bound_value_model(param.to_sql_spec()),
            ),
            r is Err ==> final(self).model().bindings == old(self).model().bindings,
            !param.to_sql_ok() ==> (r matches Err(e) && e == param.to_sql_err()),
            r matches Ok(u) ==> param.to_sql_ok() && !crate::value::output_too_big(
                param.to_sql_spec(),
            ) && !crate::value::output_text_with_nul(param.to_sql_spec()),
            r matches Err(e) ==> engine_failure(e) || e is NulError || !param.to_sql_ok(),
            r matches Err(e) ==> ((e is NulError && param.to_sql_ok())
                ==> crate::value::output_text_with_nul(param.to_sql_spec())),
            param.to_sql_ok() && crate::value::output_too_big(param.to_sql_spec()) ==> (r matches
                Err(e) && (e matches Error::SqliteFailure(c, _) && c == SQLITE_TOOBIG)),
            param.to_sql_ok() && !crate::value::output_too_big(param.to_sql_spec())
                && crate::value::output_text_with_nul(param.to_sql_spec()) ==> (r matches Err(e)
                && e is NulError),
    {
        let out = match param.to_sql() {
            Ok(o) => o,
            Err(e) => {
                return Err(e);
            },
        };
        let code: i32 = match &out {
            BindOutput::ZeroBlob(n) => {
                let m: i32 = if *n < 0 {
                    0
                } else {
                    *n
                };
                proof {
                    assert(crate::value::zero_blob_model(m as int) == crate::value::zero_blob_model(
                        *n as int));
                }
                self.stmt.bind_zeroblob(col, m)
            },
            BindOutput::Value(v) => match v {
                Value::Null => self.stmt.bind_null(col),
                Value::Integer(i) => self.stmt.bind_int64(col, *i),
                Value::Real(b) => self.stmt.bind_real(col, *b),
                Value::Text(s) => {
                    let st: &str = s.as_str();
                    proof {
                        assert(st.spec_bytes() == str_bytes(s@));
                    }
                    let len = st.as_bytes().len();
                    if len > MAX_PAYLOAD_LEN {
                        SQLITE_TOOBIG
                    } else {
                        match check_no_nul(st) {
                            Err(e) => {
                                return Err(e);
                            },
                            Ok(()) => {},
                        }
                        let transient = len > 0;
                        self.stmt.bind_text(col, st, transient)
                    }
                },
                Value::Blob(b) => {
                    let len = b.len();
                    if len > MAX_PAYLOAD_LEN {
                        SQLITE_TOOBIG
                    } else if len == 0 {
                        proof {
                            assert(crate::value::zero_blob_model(0)->Blob_0 =~= b@);
                        }
                        self.stmt.bind_zeroblob(col, 0)
                    } else {
                        self.stmt.bind_blob(col, b.as_slice())
                    }
                },
            },
        };
        self.conn.decode_result(code)
    }

    /// Bind `params[k]` at index `k + 1` for every `k`.  The caller must
    /// supply exactly as many values as the statement declares; anything
    /// else is a programming error, not a runtime condition.
    fn bind_parameters<P: ToSql>(&mut self, params: &[P]) -> (r: Result<(), Error>)
        requires
            old(self).wf(),
            params@.len() == old(self).model().params.len(),
        ensures
            final(self).wf(),
            final(self).conn == old(self).conn,
            final(self).model().same_decl(old(self).model()),
            r matches Ok(u) ==> final(self).model().bindings == bound_positional(
                old(self).model().bindings,
                outputs_of(params@),
                params@.len() as int,
            ) && outputs_clean(params@),
            r is Err ==> exists|k: int|
                0 <= k < params@.len() && final(self).model().bindings == bound_positional(
                    old(self).model().bindings,
                    outputs_of(params@),
                    k,
                ),
            outputs_clean(params@) ==> (r is Ok || (r matches Err(e) && engine_failure(e))),
            r matches Err(e) ==> engine_failure(e) || e is NulError || (exists|k: int|
                0 <= k < params@.len() && !(#[trigger] params@[k]).to_sql_ok()),
    {
        proof {
            self.stmt.lemma_wf();
        }
        let mut i: usize = 0;
        while i < params.len()
            invariant
                self.wf(),
                self.conn == old(self).conn,
                i <= params@.len(),
                params@.len() == old(self).model().params.len(),
                params@.len() <= 0x7fffffff,
                self.model().same_decl(old(self).model()),
                self.model().bindings == bound_positional(
                    old(self).model().bindings,
                    outputs_of(params@),
                    i as int,
                ),
                forall|k: int|
                    0 <= k < i as int ==> (#[trigger] params@[k]).to_sql_ok()
                        && !crate::value::output_too_big(params@[k].to_sql_spec())
                        && !crate::value::output_text_with_nul(params@[k].to_sql_spec()),
            decreases params@.len() - i,
        {
            let col: i32 = (i + 1) as i32;
            match self.bind_parameter(&params[i], col) {
                Ok(()) => {},
                Err(e) => {
                    return Err(e);
                },
            }
            proof {
                assert(outputs_of(params@)[i as int] == params@[i as int].to_sql_spec());
            }
            i = i + 1;
        }
        Ok(())
    }

    /// Resolve each name and bind its value.  A name the statement does
    /// not declare fails with `InvalidParameterName`; parameters omitted
    /// from `params` keep whatever value an earlier binding call gave
    /// them, or stay NULL if never bound.
    fn bind_parameters_named<P: ToSql>(&mut self, params: &[(&str, P)]) -> (r: Result<(), Error>)
        requires
            old(self).wf(),
        ensures
            final(self).wf(),
            final(self).conn == old(self).conn,
            final(self).model().same_decl(old(self).model()),
            r matches Ok(u) ==> final(self).model().bindings == bound_named(
                old(self).model().bindings,
                old(self).model().params,
                pairs_of(params@),
                params@.len() as int,
            ) && names_resolve(params@, old(self).model().params) && pairs_clean(params@),
            r is Err ==> exists|k: int|
                0 <= k < params@.len() && final(self).model().bindings == bound_named(
                    old(self).model().bindings,
                    old(self).model().params,
                    pairs_of(params@),
                    k,
                ),
            r matches Err(e) ==> e is InvalidParameterName || e is NulError || engine_failure(e)
                || (exists|k: int|
                0 <= k < params@.len() && !(#[trigger] params@[k]).1.to_sql_ok()),
            r matches Err(e) ==> (e matches Error::InvalidParameterName(nm) ==> (exists|k: int|
                0 <= k < params@.len() && str_bytes(nm@) == (#[trigger] params@[k]).0.spec_bytes()
                    && param_slot(old(self).model().params, params@[k].0.spec_bytes()) is None
                    && forall|j: int|
                    0 <= j < k ==> param_slot(
                        old(self).model().params,
                        (#[trigger] params@[j]).0.spec_bytes(),
                    ) is Some) || (exists|k: int|
                0 <= k < params@.len() && !(#[trigger] params@[k]).1.to_sql_ok())),
            (pairs_clean(params@) && names_resolve(params@, old(self).model().params)) ==> (r is Ok
                || (r matches Err(e) && engine_failure(e))),
    {
        proof {
            self.stmt.lemma_wf();
        }
        let mut i: usize = 0;
        while i < params.len()
            invariant
                self.wf(),
                self.conn == old(self).conn,
                i <= params@.len(),
                self.model().same_decl(old(self).model()),
                self.model().wf(),
                self.model().bindings == bound_named(
                    old(self).model().bindings,
                    old(self).model().params,
                    pairs_of(params@),
                    i as int,
                ),
                forall|k: int|
                    0 <= k < i as int ==> param_slot(
                        old(self).model().params,
                        (#[trigger] params@[k]).0.spec_bytes(),
                    ) is Some,
                forall|k: int|
                    0 <= k < i as int ==> (#[trigger] params@[k]).1.to_sql_ok()
                        && !crate::value::output_too_big(params@[k].1.to_sql_spec())
                        && !crate::value::output_text_with_nul(params@[k].1.to_sql_spec())
                        && !has_nul(params@[k].0.spec_bytes()),
            decreases params@.len() - i,
        {
            let name: &str = params[i].0;
            proof {
                assert(pairs_of(params@)[i as int].0 == name.spec_bytes());
                assert(pairs_of(params@)[i as int].1 == params@[i as int].1.to_sql_spec());
            }
            match self.parameter_index(name) {
                Err(e) => {
                    return Err(e);
                },
                Ok(None) => {
                    proof {
                        assert(param_slot(old(self).model().params, name.spec_bytes()) is None);
                    }
                    return Err(Error::InvalidParameterName(name.to_owned()));
                },
                Ok(Some(col)) => {
                    proof {
                        lemma_param_slot(
                            self.model().params,
                            name.spec_bytes(),
                            col as int - 1,
                        );
                    }
                    match self.bind_parameter(&params[i].1, col) {
                        Ok(()) => {},
                        Err(e) => {
                            return Err(e);
                        },
                    }
                },
            }
            i = i + 1;
            proof {
                self.stmt.lemma_wf();
            }
        }
        Ok(())
    }

    /// One step-and-reset cycle over already-bound parameters: succeeds
    /// with the connection's change count exactly when the statement ran
    /// to completion and declares no result columns.
    fn execute_with_bound_parameters(&mut self) -> (r: Result<i32, Error>)
        requires
            old(self).wf(),
        ensures
            final(self).wf(),
            final(self).conn == old(self).conn,
            final(self).model().same_decl(old(self).model()),
            final(self).model().bindings == old(self).model().bindings,
            final(self).model().row is None,
            r matches Ok(n) ==> old(self).model().columns.len() == 0 && old(
                self,
            ).model().pending.len() == 0 && n == final(self).conn.spec_changes(),
            old(self).model().columns.len() > 0 ==> r is Err,
            r matches Err(e) ==> e is ExecuteReturnedResults || engine_failure(e),
            r matches Err(e) ==> (e is ExecuteReturnedResults ==> old(self).model().columns.len()
                > 0 || old(self).model().pending.len() > 0),
            (old(self).model().columns.len() == 0 && old(self).model().pending.len() == 0) ==> (r
                is Ok || (r matches Err(e) && engine_failure(e))),
    {
        let code = self.stmt.step();
        let _ = self.stmt.reset();
        if code == SQLITE_DONE {
            if self.column_count() == 0 {
                Ok(self.conn.changes())
            } else {
                Err(Error::ExecuteReturnedResults)
            }
        } else if code == SQLITE_ROW {
            Err(Error::ExecuteReturnedResults)
        } else {
            match self.conn.decode_result(code) {
                Err(e) => Err(e),
                Ok(()) => {
                    proof {
                        assert(false);
                    }
                    Err(Error::ExecuteReturnedResults)
                },
            }
        }
    }

    /// Bind the given positional values, then perform one step-and-reset
    /// cycle.  Succeeds with the number of rows changed exactly when the
    /// statement declares no result columns and the engine completes;
    /// a row-producing statement always fails with
    /// `ExecuteReturnedResults`.  The statement is reset before
    /// returning and keeps its bound values for reuse.
    pub fn execute<P: ToSql>(&mut self, params: &[P]) -> (r: Result<i32, Error>)
        requires
            old(self).wf(),
            params@.len() == old(self).model().params.len(),
        ensures
            final(self).wf(),
            final(self).conn == old(self).conn,
            final(self).model().same_decl(old(self).model()),
            r matches Ok(n) ==> old(self).model().columns.len() == 0 && n
                == final(self).conn.spec_changes() && final(self).model().bindings == bound_positional(
                old(self).model().bindings,
                outputs_of(params@),
                params@.len() as int,
            ) && final(self).model().row is None && outputs_clean(params@),
            old(self).model().columns.len() > 0 ==> r is Err,
            r matches Err(e) ==> e is ExecuteReturnedResults || engine_failure(e) || e is NulError
                || (exists|k: int|
                0 <= k < params@.len() && !(#[trigger] params@[k]).to_sql_ok()),
            outputs_clean(params@) ==> (r is Ok || (r matches Err(e) && (e
                is ExecuteReturnedResults || engine_failure(e)))),
            r is Err ==> exists|k: int|
                0 <= k <= params@.len() && final(self).model().bindings == bound_positional(
                    old(self).model().bindings,
                    outputs_of(params@),
                    k,
                ),
    {
        match self.bind_parameters(params) {
            Ok(()) => {},
            Err(e) => {
                return Err(e);
            },
        }
        self.execute_with_bound_parameters()
    }

    /// Bind the given named values, then perform one step-and-reset
    /// cycle, as [`Statement::execute`] does.  Parameters not named in
    /// `params` keep their most recently bound value, or NULL if never
    /// bound.
    pub fn execute_named<P: ToSql>(&mut self, params: &[(&str, P)]) -> (r: Result<i32, Error>)
        requires
            old(self).wf(),
        ensures
            final(self).wf(),
            final(self).conn == old(self).conn,
            final(self).model().same_decl(old(self).model()),
            r matches Ok(n) ==> old(self).model().columns.len() == 0 && n
                == final(self).conn.spec_changes() && final(self).model().bindings == bound_named(
                old(self).model().bindings,
                old(self).model().params,
                pairs_of(params@),
                params@.len() as int,
            ) && final(self).model().row is None && names_resolve(
                params@,
                old(self).model().params,
            ) && pairs_clean(params@),
            old(self).model().columns.len() > 0 ==> r is Err,
            r matches Err(e) ==> e is ExecuteReturnedResults || e is InvalidParameterName || e
                is NulError || engine_failure(e) || (exists|k: int|
                0 <= k < params@.len() && !(#[trigger] params@[k]).1.to_sql_ok()),
            r matches Err(e) ==> (e matches Error::InvalidParameterName(nm) ==> (exists|k: int|
                0 <= k < params@.len() && str_bytes(nm@) == (#[trigger] params@[k]).0.spec_bytes()
                    && param_slot(old(self).model().params, params@[k].0.spec_bytes()) is None
                    && forall|j: int|
                    0 <= j < k ==> param_slot(
                        old(self).model().params,
                        (#[trigger] params@[j]).0.spec_bytes(),
                    ) is Some) || (exists|k: int|
                0 <= k < params@.len() && !(#[trigger] params@[k]).1.to_sql_ok())),
            (pairs_clean(params@) && names_resolve(params@, old(self).model().params)) ==> (r is Ok
                || (r matches Err(e) && (e is ExecuteReturnedResults || engine_failure(e)))),
            r is Err ==> exists|k: int|
                0 <= k <= params@.len() && final(self).model().bindings == bound_named(
                    old(self).model().bindings,
                    old(self).model().params,
                    pairs_of(params@),
                    k,
                ),
    {
        match self.bind_parameters_named(params) {
            Ok(()) => {},
            Err(e) => {
                return Err(e);
            },
        }
        self.execute_with_bound_parameters()
    }

    /// Bind positional values and hand back a cursor over the result
    /// rows.  No step is performed yet: the first advance of the cursor
    /// runs the first step.
    pub fn query<P: ToSql>(self, params: &[P]) -> (r: Result<Rows<'conn, C, H>, Error>)
        requires
            self.wf(),
            params@.len() == self.model().params.len(),
        ensures
            r matches Ok(rows) ==> !rows.done && rows.stmt.wf() && rows.stmt.conn == self.conn
                && rows.stmt.model().same_decl(self.model()) && rows.stmt.model().bindings
                == bound_positional(
                self.model().bindings,
                outputs_of(params@),
                params@.len() as int,
            ),
            r matches Ok(rows) ==> outputs_clean(params@),
            outputs_clean(params@) ==> (r is Ok || (r matches Err(e) && engine_failure(e))),
            r matches Err(e) ==> engine_failure(e) || e is NulError || (exists|k: int|
                0 <= k < params@.len() && !(#[trigger] params@[k]).to_sql_ok()),
    {
        let mut stmt = self;
        match stmt.bind_parameters(params) {
            Ok(()) => Ok(Rows::new(stmt)),
            Err(e) => Err(e),
        }
    }

    /// Bind named values and hand back a cursor, as
    /// [`Statement::query`] does.
    pub fn query_named<P: ToSql>(self, params: &[(&str, P)]) -> (r: Result<Rows<'conn, C, H>, Error>)
        requires
            self.wf(),
        ensures
            r matches Ok(rows) ==> !rows.done && rows.stmt.wf() && rows.stmt.conn == self.conn
                && rows.stmt.model().same_decl(self.model()) && rows.stmt.model().bindings
                == bound_named(
                self.model().bindings,
                self.model().params,
                pairs_of(params@),
                params@.len() as int,
            ),
            r matches Ok(rows) ==> names_resolve(params@, self.model().params) && pairs_clean(
                params@,
            ),
            (pairs_clean(params@) && names_resolve(params@, self.model().params)) ==> (r is Ok || (
            r matches Err(e) && engine_failure(e))),
            r matches Err(e) ==> e is InvalidParameterName || e is NulError || engine_failure(e)
                || (exists|k: int|
                0 <= k < params@.len() && !(#[trigger] params@[k]).1.to_sql_ok()),
            r matches Err(e) ==> (e matches Error::InvalidParameterName(nm) ==> (exists|k: int|
                0 <= k < params@.len() && str_bytes(nm@) == (#[trigger] params@[k]).0.spec_bytes()
                    && param_slot(self.model().params, params@[k].0.spec_bytes()) is None
                    && forall|j: int|
                    0 <= j < k ==> param_slot(
                        self.model().params,
                        (#[trigger] params@[j]).0.spec_bytes(),
                    ) is Some) || (exists|k: int|
                0 <= k < params@.len() && !(#[trigger] params@[k]).1.to_sql_ok())),
    {
        let mut stmt = self;
        match stmt.bind_parameters_named(params) {
            Ok(()) => Ok(Rows::new(stmt)),
            Err(e) => Err(e),
        }
    }

    /// Bind positional values and hand back a cursor that applies `f` to
    /// each produced row, lazily, one element per advance.
    pub fn query_map<T, P: ToSql, F: Fn(&Row) -> T>(self, params: &[P], f: F) -> (r: Result<
        MappedRows<'conn, C, H, F>,
        Error,
    >)
        requires
            self.wf(),
            params@.len() == self.model().params.len(),
        ensures
            r matches Ok(mr) ==> mr.map == f && !mr.rows.done && mr.rows.stmt.wf()
                && mr.rows.stmt.conn == self.conn && mr.rows.stmt.model().same_decl(self.model())
                && mr.rows.stmt.model().bindings == bound_positional(
                self.model().bindings,
                outputs_of(params@),
                params@.len() as int,
            ),
            r matches Ok(mr) ==> outputs_clean(params@),
            outputs_clean(params@) ==> (r is Ok || (r matches Err(e) && engine_failure(e))),
            r matches Err(e) ==> engine_failure(e) || e is NulError || (exists|k: int|
                0 <= k < params@.len() && !(#[trigger] params@[k]).to_sql_ok()),
    {
        match self.query(params) {
            Ok(rows) => Ok(MappedRows { rows, map: f }),
            Err(e) => Err(e),
        }
    }

    /// Bind named values and hand back a mapping cursor, as
    /// [`Statement::query_map`] does.
    pub fn query_map_named<T, P: ToSql, F: Fn(&Row) -> T>(self, params: &[(&str, P)], f: F) -> (r:
        Result<MappedRows<'conn, C, H, F>, Error>)
        requires
            self.wf(),
        ensures
            r matches Ok(mr) ==> mr.map == f && !mr.rows.done && mr.rows.stmt.wf()
                && mr.rows.stmt.conn == self.conn && mr.rows.stmt.model().same_decl(self.model())
                && mr.rows.stmt.model().bindings == bound_named(
                self.model().bindings,
                self.model().params,
                pairs_of(params@),
                params@.len() as int,
            ),
            r matches Ok(mr) ==> names_resolve(params@, self.model().params) && pairs_clean(
                params@,
            ),
            (pairs_clean(params@) && names_resolve(params@, self.model().params)) ==> (r is Ok || (
            r matches Err(e) && engine_failure(e))),
            r matches Err(e) ==> e is InvalidParameterName || e is NulError || engine_failure(e)
                || (exists|k: int|
                0 <= k < params@.len() && !(#[trigger] params@[k]).1.to_sql_ok()),
            r matches Err(e) ==> (e matches Error::InvalidParameterName(nm) ==> (exists|k: int|
                0 <= k < params@.len() && str_bytes(nm@) == (#[trigger] params@[k]).0.spec_bytes()
                    && param_slot(self.model().params, params@[k].0.spec_bytes()) is None
                    && forall|j: int|
                    0 <= j < k ==> param_slot(
                        self.model().params,
                        (#[trigger] params@[j]).0.spec_bytes(),
                    ) is Some) || (exists|k: int|
                0 <= k < params@.len() && !(#[trigger] params@[k]).1.to_sql_ok())),
    {
        match self.query_named(params) {
            Ok(rows) => Ok(MappedRows { rows, map: f }),
            Err(e) => Err(e),
        }
    }

    /// Bind positional values and hand back a cursor that applies a
    /// fallible transform to each produced row; a transform failure is
    /// the element, not the end of the sequence.
    pub fn query_and_then<T, E2: From<Error>, P: ToSql, F: Fn(&Row) -> Result<T, E2>>(
        self,
        params: &[P],
        f: F,
    ) -> (r: Result<AndThenRows<'conn, C, H, F>, Error>)
        requires
            self.wf(),
            params@.len() == self.model().params.len(),
        ensures
            r matches Ok(ar) ==> ar.map == f && !ar.rows.done && ar.rows.stmt.wf()
                && ar.rows.stmt.conn == self.conn && ar.rows.stmt.model().same_decl(self.model())
                && ar.rows.stmt.model().bindings == bound_positional(
                self.model().bindings,
                outputs_of(params@),
                params@.len() as int,
            ),
            r matches Ok(mr) ==> outputs_clean(params@),
            outputs_clean(params@) ==> (r is Ok || (r matches Err(e) && engine_failure(e))),
            r matches Err(e) ==> engine_failure(e) || e is NulError || (exists|k: int|
                0 <= k < params@.len() && !(#[trigger] params@[k]).to_sql_ok()),
    {
        match self.query(params) {
            Ok(rows) => Ok(AndThenRows { rows, map: f }),
            Err(e) => Err(e),
        }
    }

    /// Bind named values and hand back a fallible-transform cursor, as
    /// [`Statement::query_and_then`] does.
    pub fn query_and_then_named<T, E2: From<Error>, P: ToSql, F: Fn(&Row) -> Result<T, E2>>(
        self,
        params: &[(&str, P)],
        f: F,
    ) -> (r: Result<AndThenRows<'conn, C, H, F>, Error>)
        requires
            self.wf(),
        ensures
            r matches Ok(ar) ==> ar.map == f && !ar.rows.done && ar.rows.stmt.wf()
                && ar.rows.stmt.conn == self.conn && ar.rows.stmt.model().same_decl(self.model())
                && ar.rows.stmt.model().bindings == bound_named(
                self.model().bindings,
                self.model().params,
                pairs_of(params@),
                params@.len() as int,
            ),
            r matches Ok(mr) ==> names_resolve(params@, self.model().params) && pairs_clean(
                params@,
            ),
            (pairs_clean(params@) && names_resolve(params@, self.model().params)) ==> (r is Ok || (
            r matches Err(e) && engine_failure(e))),
            r matches Err(e) ==> e is InvalidParameterName || e is NulError || engine_failure(e)
                || (exists|k: int|
                0 <= k < params@.len() && !(#[trigger] params@[k]).1.to_sql_ok()),
            r matches Err(e) ==> (e matches Error::InvalidParameterName(nm) ==> (exists|k: int|
                0 <= k < params@.len() && str_bytes(nm@) == (#[trigger] params@[k]).0.spec_bytes()
                    && param_slot(self.model().params, params@[k].0.spec_bytes()) is None
                    && forall|j: int|
                    0 <= j < k ==> param_slot(
                        self.model().params,
                        (#[trigger] params@[j]).0.spec_bytes(),
                    ) is Some) || (exists|k: int|
                0 <= k < params@.len() && !(#[trigger] params@[k]).1.to_sql_ok())),
    {
        match self.query_named(params) {
            Ok(rows) => Ok(AndThenRows { rows, map: f }),
            Err(e) => Err(e),
        }
    }

    /// Consume the statement and release its native resource, surfacing
    /// any error of the release call instead of discarding it.
    pub fn finalize(self) -> (r: Result<(), Error>)
        ensures
            r matches Err(e) ==> (e matches Error::SqliteFailure(c, _) && c != SQLITE_OK),
    {
        let mut stmt = self;
        stmt.finalize_()
    }

    /// Release the native resource, leaving the handle in its null state;
    /// a second call observes the null state and succeeds as a no-op.
    fn finalize_(&mut self) -> (r: Result<(), Error>)
        ensures
            !final(self).stmt.is_open(),
            final(self).conn == old(self).conn,
            r matches Err(e) ==> (e matches Error::SqliteFailure(c, _) && c != SQLITE_OK),
    {
        let code = self.stmt.finalize();
        self.conn.decode_result(code)
    }

    /// The row id most recently inserted through the owning connection.
    pub fn last_insert_rowid(&self) -> (r: i64)
        ensures
            r == self.conn.spec_last_insert_rowid(),
    {
        self.conn.last_insert_rowid()
    }

    /// The cell at column `col` of the current row, copied out of the
    /// engine's per-step storage.
    pub fn value_ref(&self, col: i32) -> (v: Value)
        requires
            self.wf(),
            self.model().row is Some,
            0 <= (col as int) < self.model().columns.len(),
        ensures
            v@ == self.model().row->Some_0[col as int],
    {
        let t = self.stmt.column_type(col);
        if t == crate::codes::SQLITE_NULL {
            Value::Null
        } else if t == crate::codes::SQLITE_INTEGER {
            Value::Integer(self.stmt.column_int64(col))
        } else if t == crate::codes::SQLITE_FLOAT {
            Value::Real(self.stmt.column_real(col))
        } else if t == crate::codes::SQLITE_TEXT {
            Value::Text(self.stmt.column_text(col))
        } else {
            proof {
                assert(self.model().row->Some_0[col as int] is Blob);
            }
            Value::Blob(self.stmt.column_blob(col))
        }
    }

    /// Advance the statement by one step: `Ok(true)` when a row was
    /// produced, `Ok(false)` on completion, and the decoded engine error
    /// otherwise.
    pub fn step(&mut self) -> (r: Result<bool, Error>)
        requires
            old(self).wf(),
        ensures
            final(self).wf(),
            final(self).conn == old(self).conn,
            final(self).model().same_decl(old(self).model()),
            final(self).model().bindings == old(self).model().bindings,
            r matches Ok(true) ==> old(self).model().pending.len() > 0 && final(self).model().row == Some(
                old(self).model().pending[0],
            ) && final(self).model().pending == old(self).model().pending.drop_first(),
            r matches Ok(false) ==> old(self).model().pending.len() == 0 && final(self).model().row
                is None && final(self).model().pending == old(self).model().pending,
            r matches Err(e) ==> final(self).model() == old(self).model() && (e matches
                Error::SqliteFailure(c, _) && c != SQLITE_OK),
    {
        let code = self.stmt.step();
        if code == SQLITE_ROW {
            Ok(true)
        } else if code == SQLITE_DONE {
            Ok(false)
        } else {
            match self.conn.decode_result(code) {
                Err(e) => Err(e),
                Ok(()) => {
                    proof {
                        assert(false);
                    }
                    Ok(false)
                },
            }
        }
    }

    /// Discard the execution state while preserving every binding, and
    /// report the engine's status code for the reset call.
    pub fn reset(&mut self) -> (r: i32)
        requires
            old(self).wf(),
        ensures
            final(self).wf(),
            final(self).conn == old(self).conn,
            final(self).model().same_decl(old(self).model()),
            final(self).model().bindings == old(self).model().bindings,
            final(self).model().row is None,
    {
        self.stmt.reset()
    }
}

} // verus!
