//! The tagged value type exchanged with the engine, the bind-output type,
//! and the capability for application types to act as bind parameters.

use vstd::prelude::*;

use crate::codes::MAX_PAYLOAD_LEN;
use crate::error::Error;

verus! {

/// The UTF-8 byte encoding of a character sequence.  All text in this
/// crate's models is compared byte-exactly, as the engine itself does.
pub open spec fn str_bytes(s: Seq<char>) -> Seq<u8> {
    vstd::utf8::encode_utf8(s)
}

/// The mathematical model of one cell of data: text and blobs are byte
/// sequences, reals are carried as their IEEE 754 bit patterns.
pub enum ValueModel {
    Null,
    Integer(i64),
    Real(u64),
    Text(Seq<u8>),
    Blob(Seq<u8>),
}

/// One cell of data exchanged with the engine.
///
/// `Real` holds the IEEE 754 bit pattern of the engine's 64-bit float;
/// this layer moves the bits losslessly and never computes with them.
pub enum Value {
    Null,
    Integer(i64),
    Real(u64),
    Text(String),
    Blob(Vec<u8>),
}

impl View for Value {
    type V = ValueModel;

    open spec fn view(&self) -> ValueModel {
        match self {
            Value::Null => ValueModel::Null,
            Value::Integer(i) => ValueModel::Integer(*i),
            Value::Real(b) => ValueModel::Real(*b),
            Value::Text(s) => ValueModel::Text(str_bytes(s@)),
            Value::Blob(b) => ValueModel::Blob(b@),
        }
    }
}

/// An exact copy of a byte vector.
pub fn clone_bytes(b: &Vec<u8>) -> (r: Vec<u8>)
    ensures
        r@ == b@,
{
    let mut out: Vec<u8> = Vec::new();
    let mut i: usize = 0;
    while i < b.len()
        invariant
            i <= b.len(),
            out@ == b@.subrange(0, i as int),
        decreases b.len() - i,
    {
        out.push(b[i]);
        i = i + 1;
    }
    proof {
        assert(out@ =~= b@);
    }
    out
}

impl Clone for Value {
    fn clone(&self) -> (r: Self)
        ensures
            r@ == self@,
    {
        match self {
            Value::Null => Value::Null,
            Value::Integer(i) => Value::Integer(*i),
            Value::Real(b) => Value::Real(*b),
            Value::Text(s) => Value::Text(s.clone()),
            Value::Blob(b) => Value::Blob(clone_bytes(b)),
        }
    }
}

/// The model of what a bind parameter produces: either a value, or a
/// request for a lazily allocated zero-filled blob of a given byte length.
pub enum BindOutputModel {
    Value(ValueModel),
    ZeroBlob(i32),
}

/// What a bind parameter produces for the engine.
pub enum BindOutput {
    Value(Value),
    ZeroBlob(i32),
}

impl View for BindOutput {
    type V = BindOutputModel;

    open spec fn view(&self) -> BindOutputModel {
        match self {
            BindOutput::Value(v) => BindOutputModel::Value(v@),
            BindOutput::ZeroBlob(n) => BindOutputModel::ZeroBlob(*n),
        }
    }
}

/// A blob of `n` zero bytes, the engine's reading of a zero-blob request.
pub open spec fn zero_blob_model(n: int) -> ValueModel {
    ValueModel::Blob(Seq::new(if n >= 0 { n as nat } else { 0 }, |i: int| 0u8))
}

/// The cell that ends up bound when a bind output is handed to the engine.
pub open spec fn bound_value_model(b: BindOutputModel) -> ValueModel {
    match b {
        BindOutputModel::Value(v) => v,
        BindOutputModel::ZeroBlob(n) => zero_blob_model(n as int),
    }
}

/// Whether a byte sequence holds an interior NUL, which the engine's text
/// encoding cannot represent.
pub open spec fn has_nul(b: Seq<u8>) -> bool {
    exists|i: int| 0 <= i < b.len() && b[i] == 0u8
}

/// Whether a bind output carries a payload beyond the engine's signed
/// 32-bit length domain.
pub open spec fn output_too_big(b: BindOutputModel) -> bool {
    match b {
        BindOutputModel::Value(ValueModel::Text(s)) => s.len() > MAX_PAYLOAD_LEN,
        BindOutputModel::Value(ValueModel::Blob(s)) => s.len() > MAX_PAYLOAD_LEN,
        _ => false,
    }
}

/// Whether a bind output is a text payload with an interior NUL byte.
pub open spec fn output_text_with_nul(b: BindOutputModel) -> bool {
    match b {
        BindOutputModel::Value(ValueModel::Text(s)) => has_nul(s),
        _ => false,
    }
}

/// The capability of a type to produce a bind output.  Implementations
/// say through `to_sql_ok` exactly when the conversion succeeds and
/// through `to_sql_spec` what it produces.
pub trait ToSql {
    /// The bind output this value converts to, when conversion succeeds.
    spec fn to_sql_spec(&self) -> BindOutputModel;

    /// Whether the conversion succeeds.
    spec fn to_sql_ok(&self) -> bool;

    /// The error a failing conversion reports.  Meaningful only when
    /// `to_sql_ok` is false; a conversion that cannot fail leaves it
    /// unspecified.
    open spec fn to_sql_err(&self) -> Error {
        vstd::pervasive::arbitrary()
    }

    /// Convert this value for binding.
    fn to_sql(&self) -> (r: Result<BindOutput, Error>)
        ensures
            r is Ok <==> self.to_sql_ok(),
            r matches Ok(out) ==> out@ == self.to_sql_spec(),
            r matches Err(e) ==> e == self.to_sql_err(),
    ;
}

impl ToSql for Value {
    open spec fn to_sql_spec(&self) -> BindOutputModel {
        BindOutputModel::Value(self@)
    }

    open spec fn to_sql_ok(&self) -> bool {
        true
    }

    fn to_sql(&self) -> (r: Result<BindOutput, Error>) {
        Ok(BindOutput::Value(self.clone()))
    }
}

impl ToSql for BindOutput {
    open spec fn to_sql_spec(&self) -> BindOutputModel {
        self@
    }

    open spec fn to_sql_ok(&self) -> bool {
        true
    }

    fn to_sql(&self) -> (r: Result<BindOutput, Error>) {
        match self {
            BindOutput::Value(v) => Ok(BindOutput::Value(v.clone())),
            BindOutput::ZeroBlob(n) => Ok(BindOutput::ZeroBlob(*n)),
        }
    }
}

impl ToSql for i64 {
    open spec fn to_sql_spec(&self) -> BindOutputModel {
        BindOutputModel::Value(ValueModel::Integer(*self))
    }

    open spec fn to_sql_ok(&self) -> bool {
        true
    }

    fn to_sql(&self) -> (r: Result<BindOutput, Error>) {
        Ok(BindOutput::Value(Value::Integer(*self)))
    }
}

impl ToSql for i32 {
    open spec fn to_sql_spec(&self) -> BindOutputModel {
        BindOutputModel::Value(ValueModel::Integer(*self as i64))
    }

    open spec fn to_sql_ok(&self) -> bool {
        true
    }

    fn to_sql(&self) -> (r: Result<BindOutput, Error>) {
        Ok(BindOutput::Value(Value::Integer(*self as i64)))
    }
}

impl ToSql for String {
    open spec fn to_sql_spec(&self) -> BindOutputModel {
        BindOutputModel::Value(ValueModel::Text(str_bytes(self@)))
    }

    open spec fn to_sql_ok(&self) -> bool {
        true
    }

    fn to_sql(&self) -> (r: Result<BindOutput, Error>) {
        Ok(BindOutput::Value(Value::Text(self.clone())))
    }
}

impl ToSql for &str {
    open spec fn to_sql_spec(&self) -> BindOutputModel {
        BindOutputModel::Value(ValueModel::Text(str_bytes((*self)@)))
    }

    open spec fn to_sql_ok(&self) -> bool {
        true
    }

    fn to_sql(&self) -> (r: Result<BindOutput, Error>) {
        Ok(BindOutput::Value(Value::Text((*self).to_owned())))
    }
}

impl ToSql for Vec<u8> {
    open spec fn to_sql_spec(&self) -> BindOutputModel {
        BindOutputModel::Value(ValueModel::Blob(self@))
    }

    open spec fn to_sql_ok(&self) -> bool {
        true
    }

    fn to_sql(&self) -> (r: Result<BindOutput, Error>) {
        Ok(BindOutput::Value(Value::Blob(clone_bytes(self))))
    }
}

} // verus!
