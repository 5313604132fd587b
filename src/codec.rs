//! The value codec: the exact two-way mapping between portable values and
//! the engine's storage classes. Reading is what every query runs, through
//! [`decode_value`]. Binding is stated here as the model [`encode`]: a float
//! cannot be built in this crate, so callers hand parameters to the engine
//! in its own form, and [`encode_value`] and the round-trip law describe
//! what that binding stores rather than code on the query path.

use vstd::prelude::*;
use vstd::utf8::{decode_utf8, encode_utf8, valid_utf8};
use crate::value::{DbError, Value, ValueModel};

verus! {

broadcast use {vstd::utf8::encode_utf8_valid_utf8, vstd::utf8::encode_utf8_decode_utf8};

/// A value in one of the engine's five storage classes, as the engine holds
/// it. Text is kept as the raw bytes the engine stored, which need not be
/// valid UTF-8; a `Real` is the IEEE-754 bit pattern of the stored float.
#[derive(Clone, Debug, PartialEq)]
pub enum NativeValue {
    Null,
    Integer(i64),
    Real(u64),
    Text(Vec<u8>),
    Blob(Vec<u8>),
}

/// The mathematical content of a [`NativeValue`].
pub ghost enum NativeModel {
    Null,
    Integer(i64),
    Real(u64),
    Text(Seq<u8>),
    Blob(Seq<u8>),
}

impl View for NativeValue {
    type V = NativeModel;

    open spec fn view(&self) -> NativeModel {
        match self {
            NativeValue::Null => NativeModel::Null,
            NativeValue::Integer(i) => NativeModel::Integer(*i),
            NativeValue::Real(bits) => NativeModel::Real(*bits),
            NativeValue::Text(b) => NativeModel::Text(b@),
            NativeValue::Blob(b) => NativeModel::Blob(b@),
        }
    }
}

/// The storage class a portable value is bound as: the same class, with
/// text stored as its UTF-8 encoding.
pub open spec fn encode(v: ValueModel) -> NativeModel {
    match v {
        ValueModel::Null => NativeModel::Null,
        ValueModel::Integer(i) => NativeModel::Integer(i),
        ValueModel::Real(bits) => NativeModel::Real(bits),
        ValueModel::Text(s) => NativeModel::Text(encode_utf8(s)),
        ValueModel::Blob(b) => NativeModel::Blob(b),
    }
}

/// The portable value read back from a stored one; `None` where stored text
/// is not valid UTF-8.
pub open spec fn decode(n: NativeModel) -> Option<ValueModel> {
    match n {
        NativeModel::Null => Some(ValueModel::Null),
        NativeModel::Integer(i) => Some(ValueModel::Integer(i)),
        NativeModel::Real(bits) => Some(ValueModel::Real(bits)),
        NativeModel::Text(b) => if valid_utf8(b) {
            Some(ValueModel::Text(decode_utf8(b)))
        } else {
            None
        },
        NativeModel::Blob(b) => Some(ValueModel::Blob(b)),
    }
}

/// Relies on `String::from_utf8`: it succeeds exactly on valid UTF-8, and the
/// string then holds the decoded characters.
#[verifier::external_body]
fn string_from_utf8(bytes: Vec<u8>) -> (r: Option<String>)
    ensures
        r is Some <==> valid_utf8(bytes@),
        r is Some ==> r->0@ == decode_utf8(bytes@),
{
    String::from_utf8(bytes).ok()
}

/// Converts a portable value into the storage class it is bound as.
/// Never fails.
pub fn encode_value(v: Value) -> (r: NativeValue)
    ensures
        r@ == encode(v@),
{
    match v {
        Value::Null => NativeValue::Null,
        Value::Integer(i) => NativeValue::Integer(i),
        Value::Real(bits) => NativeValue::Real(bits),
        Value::Text(s) => NativeValue::Text(vstd::slice::slice_to_vec(s.as_str().as_bytes())),
        Value::Blob(b) => NativeValue::Blob(b),
    }
}

/// Converts a stored value into a portable one. Text that is not valid
/// UTF-8 is a conversion error, never a substituted or truncated string.
pub fn decode_value(n: &NativeValue) -> (r: Result<Value, DbError>)
    ensures
        r is Ok <==> decode(n@) is Some,
        r is Ok ==> decode(n@) == Some(r->Ok_0@),
{
    match n {
        NativeValue::Null => Ok(Value::Null),
        NativeValue::Integer(i) => Ok(Value::Integer(*i)),
        NativeValue::Real(bits) => Ok(Value::Real(*bits)),
        NativeValue::Text(b) => match string_from_utf8(vstd::slice::slice_to_vec(b.as_slice())) {
            Some(s) => Ok(Value::Text(s)),
            None => Err(DbError::Io(String::from_str("invalid UTF-8 in a text value"))),
        },
        NativeValue::Blob(b) => Ok(Value::Blob(vstd::slice::slice_to_vec(b.as_slice()))),
    }
}

/// Decoding what a value is bound as, in the model of binding, gives the
/// value back, for every value.
pub proof fn lemma_codec_round_trip(v: ValueModel)
    ensures
        decode(encode(v)) == Some(v),
{
}

/// Stored text that is not valid UTF-8 never decodes: reading it is a
/// conversion error, not a corrupted string.
pub proof fn lemma_invalid_text_rejected(bytes: Seq<u8>)
    requires
        !valid_utf8(bytes),
    ensures
        decode(NativeModel::Text(bytes)) is None,
{
}

} // verus!
