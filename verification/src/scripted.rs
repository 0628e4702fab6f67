//! A deterministic in-memory backend: a connection with fixed counters
//! and a statement whose result rows are a script supplied up front.  It
//! implements the boundary traits of [`crate::engine`] and is verified
//! against their contracts, so the whole layer can be exercised at
//! runtime without a native engine.

use vstd::prelude::*;
use vstd::string::StringSliceAdditionalSpecFns;

use crate::engine::{Connection, EngineStatement, StmtModel};
use crate::error::Error;
use crate::statement::bytes_eq;
use crate::value::{clone_bytes, str_bytes, Value, ValueModel};

verus! {

/// A connection stand-in with fixed counters.
pub struct ScriptedConnection {
    /// The change count the connection reports.
    pub changes: i32,
    /// The last-inserted row id the connection reports.
    pub last_rowid: i64,
}

impl Connection for ScriptedConnection {
    open spec fn spec_changes(&self) -> i32 {
        self.changes
    }

    open spec fn spec_last_insert_rowid(&self) -> i64 {
        self.last_rowid
    }

    fn changes(&self) -> (r: i32) {
        self.changes
    }

    fn last_insert_rowid(&self) -> (r: i64) {
        self.last_rowid
    }

    fn decode_result(&self, code: i32) -> (r: Result<(), Error>) {
        if code == crate::codes::SQLITE_OK {
            Ok(())
        } else {
            Err(Error::SqliteFailure(code, None))
        }
    }
}

/// The byte encodings of a list of labels.
pub open spec fn names_of(v: Seq<String>) -> Seq<Seq<u8>> {
    v.map_values(|s: String| str_bytes(s@))
}

/// The cell models of one row of values.
pub open spec fn row_of(v: Seq<Value>) -> Seq<ValueModel> {
    v.map_values(|x: Value| x@)
}

/// The row models of a script.
pub open spec fn rows_of(v: Seq<Vec<Value>>) -> Seq<Seq<ValueModel>> {
    v.map_values(|r: Vec<Value>| row_of(r@))
}

/// The binding map encoded by a slot vector: index `i + 1` is bound to
/// the value in slot `i`, and an empty slot has never been bound.
pub open spec fn slots_map(v: Seq<Option<Value>>) -> Map<int, ValueModel> {
    Map::new(
        |i: int| 1 <= i <= v.len() && v[i - 1] is Some,
        |i: int| v[i - 1]->Some_0@,
    )
}

/// A statement stand-in whose result rows are scripted.  Binding stores
/// the bound cells; stepping consumes the script row by row.
pub struct ScriptedStatement {
    /// The SQL text the statement stands for; opaque input, kept as
    /// given.
    pub sql: String,
    /// Result-column labels.
    pub columns: Vec<String>,
    /// Declared parameter names; slot `i` names index `i + 1`.
    pub params: Vec<String>,
    /// The bound cells, one slot per declared parameter.
    pub bindings: Vec<Option<Value>>,
    /// The result rows not yet produced.
    pub script: Vec<Vec<Value>>,
    /// The row produced by the most recent step.
    pub row: Option<Vec<Value>>,
}

impl ScriptedStatement {
    /// A fresh scripted statement with nothing bound and nothing
    /// stepped.  Every script row must be as wide as the column list,
    /// the counts must fit the engine's index domain, and non-empty
    /// parameter names may not repeat.
    pub fn new(sql: String, columns: Vec<String>, params: Vec<String>, script: Vec<Vec<Value>>) -> (r: Self)
        requires
            columns@.len() <= 0x7fffffff,
            params@.len() <= 0x7fffffff,
            forall|i: int|
                0 <= i < script@.len() ==> (#[trigger] script@[i])@.len() == columns@.len(),
            forall|i: int, j: int|
                0 <= i < params@.len() && 0 <= j < params@.len() && str_bytes(
                    (#[trigger] params@[i])@,
                ) == str_bytes((#[trigger] params@[j])@) && str_bytes(params@[i]@).len() > 0 ==> i
                    == j,
        ensures
            r.wf(),
            r.model().sql == str_bytes(sql@),
            r.model().columns == names_of(columns@),
            r.model().params == names_of(params@),
            r.model().bindings == Map::<int, ValueModel>::empty(),
            r.model().pending == rows_of(script@),
            r.model().row is None,
    {
        let n = params.len();
        let mut bindings: Vec<Option<Value>> = Vec::new();
        let mut i: usize = 0;
        while i < n
            invariant
                i <= n,
                bindings@.len() == i as int,
                forall|j: int| 0 <= j < i as int ==> (#[trigger] bindings@[j]) is None,
            decreases n - i,
        {
            bindings.push(None);
            i = i + 1;
        }
        let r = ScriptedStatement { sql, columns, params, bindings, script, row: None };
        proof {
            assert(slots_map(r.bindings@) =~= Map::<int, ValueModel>::empty());
        }
        r
    }

    /// Store one bound cell and report success.
    fn store(&mut self, col: i32, v: Value) -> (r: i32)
        requires
            old(self).wf(),
            1 <= (col as int) <= old(self).model().params.len(),
        ensures
            final(self).wf(),
            final(self).sql == old(self).sql,
            final(self).columns == old(self).columns,
            final(self).params == old(self).params,
            final(self).script == old(self).script,
            final(self).row == old(self).row,
            final(self).model().bindings == old(self).model().bindings.insert(col as int, v@),
            r == crate::codes::SQLITE_OK,
    {
        let idx: usize = (col - 1) as usize;
        self.bindings[idx] = Some(v);
        proof {
            assert(slots_map(self.bindings@) =~= slots_map(old(self).bindings@).insert(
                col as int,
                self.bindings@[col as int - 1]->Some_0@,
            ));
        }
        crate::codes::SQLITE_OK
    }
}

impl EngineStatement for ScriptedStatement {
    open spec fn wf(&self) -> bool {
        &&& self.columns@.len() <= 0x7fffffff
        &&& self.params@.len() <= 0x7fffffff
        &&& self.bindings@.len() == self.params@.len()
        &&& forall|i: int|
            0 <= i < self.script@.len() ==> (#[trigger] self.script@[i])@.len()
                == self.columns@.len()
        &&& (self.row matches Some(r) ==> r@.len() == self.columns@.len())
        &&& forall|i: int, j: int|
            0 <= i < self.params@.len() && 0 <= j < self.params@.len() && str_bytes(
                (#[trigger] self.params@[i])@,
            ) == str_bytes((#[trigger] self.params@[j])@) && str_bytes(self.params@[i]@).len()
                > 0 ==> i == j
    }

    open spec fn model(&self) -> StmtModel {
        StmtModel {
            sql: str_bytes(self.sql@),
            columns: names_of(self.columns@),
            params: names_of(self.params@),
            bindings: slots_map(self.bindings@),
            pending: rows_of(self.script@),
            row: match self.row {
                Some(r) => Some(row_of(r@)),
                None => None,
            },
        }
    }

    proof fn lemma_wf(&self) {
        assert forall|k: int| #[trigger]
            self.model().bindings.dom().contains(k) implies 1 <= k
            <= self.model().params.len() by {}
    }

    fn sql_text(&self) -> (r: String) {
        self.sql.clone()
    }

    fn column_count(&self) -> (r: i32) {
        self.columns.len() as i32
    }

    fn column_name(&self, i: i32) -> (r: String) {
        self.columns[i as usize].clone()
    }

    fn bind_parameter_count(&self) -> (r: i32) {
        self.params.len() as i32
    }

    fn bind_parameter_index(&self, name: &str) -> (r: Option<i32>) {
        let bytes = name.as_bytes();
        let n = self.params.len();
        let mut j: usize = 0;
        while j < n
            invariant
                j <= n,
                n == self.params@.len(),
                self.params@.len() <= 0x7fffffff,
                bytes@ == name.spec_bytes(),
                forall|q: int|
                    0 <= q < j as int ==> !(#[trigger] names_of(self.params@)[q]
                        == name.spec_bytes() && names_of(self.params@)[q].len() > 0),
            decreases n - j,
        {
            let p = self.params[j].as_str();
            let pb = p.as_bytes();
            if pb.len() > 0 && bytes_eq(bytes, pb) {
                proof {
                    assert(names_of(self.params@)[j as int] == str_bytes(self.params@[j as int]@));
                    assert(self.model().params[j as int] == name.spec_bytes());
                    assert(self.model().params[j as int].len() > 0);
                }
                return Some((j + 1) as i32);
            }
            j = j + 1;
        }
        None
    }

    fn bind_null(&mut self, col: i32) -> (r: i32) {
        self.store(col, Value::Null)
    }

    fn bind_int64(&mut self, col: i32, v: i64) -> (r: i32) {
        self.store(col, Value::Integer(v))
    }

    fn bind_real(&mut self, col: i32, bits: u64) -> (r: i32) {
        self.store(col, Value::Real(bits))
    }

    fn bind_text(&mut self, col: i32, s: &str, transient: bool) -> (r: i32) {
        let owned: String = s.to_owned();
        self.store(col, Value::Text(owned))
    }

    fn bind_blob(&mut self, col: i32, b: &[u8]) -> (r: i32) {
        let mut owned: Vec<u8> = Vec::new();
        let mut i: usize = 0;
        while i < b.len()
            invariant
                i <= b@.len(),
                owned@ == b@.subrange(0, i as int),
            decreases b@.len() - i,
        {
            owned.push(b[i]);
            i = i + 1;
        }
        proof {
            assert(owned@ =~= b@);
        }
        self.store(col, Value::Blob(owned))
    }

    fn bind_zeroblob(&mut self, col: i32, n: i32) -> (r: i32) {
        let mut owned: Vec<u8> = Vec::new();
        let mut i: i32 = 0;
        while i < n
            invariant
                0 <= i <= n,
                owned@.len() == i as int,
                forall|j: int| 0 <= j < i as int ==> (#[trigger] owned@[j]) == 0u8,
            decreases n - i,
        {
            owned.push(0);
            i = i + 1;
        }
        proof {
            assert(owned@ =~= crate::value::zero_blob_model(n as int)->Blob_0);
        }
        self.store(col, Value::Blob(owned))
    }

    fn step(&mut self) -> (r: i32) {
        if self.script.len() > 0 {
            let first = self.script.remove(0);
            proof {
                assert(rows_of(self.script@) =~= rows_of(old(self).script@).drop_first());
            }
            self.row = Some(first);
            crate::codes::SQLITE_ROW
        } else {
            self.row = None;
            proof {
                assert(rows_of(self.script@).len() == 0);
            }
            crate::codes::SQLITE_DONE
        }
    }

    fn reset(&mut self) -> (r: i32) {
        self.row = None;
        crate::codes::SQLITE_OK
    }

    fn finalize(self) -> (r: i32) {
        crate::codes::SQLITE_OK
    }

    fn column_type(&self, i: i32) -> (r: i32) {
        match &self.row {
            Some(row) => match &row[i as usize] {
                Value::Null => crate::codes::SQLITE_NULL,
                Value::Integer(_) => crate::codes::SQLITE_INTEGER,
                Value::Real(_) => crate::codes::SQLITE_FLOAT,
                Value::Text(_) => crate::codes::SQLITE_TEXT,
                Value::Blob(_) => crate::codes::SQLITE_BLOB,
            },
            None => {
                proof {
                    assert(false);
                }
                crate::codes::SQLITE_NULL
            },
        }
    }

    fn column_int64(&self, i: i32) -> (r: i64) {
        match &self.row {
            Some(row) => match &row[i as usize] {
                Value::Integer(v) => *v,
                _ => {
                    proof {
                        assert(false);
                    }
                    0
                },
            },
            None => {
                proof {
                    assert(false);
                }
                0
            },
        }
    }

    fn column_real(&self, i: i32) -> (r: u64) {
        match &self.row {
            Some(row) => match &row[i as usize] {
                Value::Real(v) => *v,
                _ => {
                    proof {
                        assert(false);
                    }
                    0
                },
            },
            None => {
                proof {
                    assert(false);
                }
                0
            },
        }
    }

    fn column_text(&self, i: i32) -> (r: String) {
        match &self.row {
            Some(row) => match &row[i as usize] {
                Value::Text(s) => s.clone(),
                _ => {
                    proof {
                        assert(false);
                    }
                    String::new()
                },
            },
            None => {
                proof {
                    assert(false);
                }
                String::new()
            },
        }
    }

    fn column_blob(&self, i: i32) -> (r: Vec<u8>) {
        match &self.row {
            Some(row) => match &row[i as usize] {
                Value::Blob(b) => clone_bytes(b),
                _ => {
                    proof {
                        assert(false);
                    }
                    Vec::new()
                },
            },
            None => {
                proof {
                    assert(false);
                }
                Vec::new()
            },
        }
    }
}

} // verus!
