//! The JSON document model behind catalog parsing, and the trusted
//! interface to the JSON parser.
//!
//! A parsed document is modelled by [`JsonModel`]; what the parser returns
//! for given bytes is named by [`json_doc`], and the model a parsed value
//! stands for is named by [`val_model`]. The accessor wrappers below state
//! how each `serde_json::Value` accessor reads that model.

use vstd::prelude::*;

verus! {

/// Mathematical model of one parsed JSON value: the shape the catalog
/// logic reads. Numbers written as plain integers are told apart from
/// fractional or exponent forms, because only integer fields are accepted
/// by the track schema.
pub enum JsonModel {
    Null,
    Bool(bool),
    /// A number written as a plain integer.
    Int(int),
    /// A number with a fractional or exponent part.
    FracNum,
    Text(Seq<char>),
    Arr(Seq<JsonModel>),
    Obj(Map<Seq<char>, JsonModel>),
}

#[verifier::external_type_specification]
#[verifier::external_body]
pub struct ExValue(serde_json::Value);

/// The JSON value a given `serde_json::Value` stands for.
pub uninterp spec fn val_model(v: serde_json::Value) -> JsonModel;

/// What parsing a byte sequence as one JSON document yields: `None` when
/// the bytes are not accepted as a document, otherwise the document's
/// model. A function of the bytes alone.
pub uninterp spec fn json_doc(b: Seq<u8>) -> Option<JsonModel>;

/// Relies on `serde_json::from_slice::<Value>`: parses the bytes as one
/// complete JSON document, returning the parsed value exactly when the
/// bytes are accepted.
#[verifier::external_body]
pub(crate) fn parse_json(b: &[u8]) -> (r: Option<serde_json::Value>)
    ensures
        r is Some <==> json_doc(b@) is Some,
        r matches Some(v) ==> val_model(v) == json_doc(b@)->0,
{
    serde_json::from_slice::<serde_json::Value>(b).ok()
}

/// Relies on `serde_json::Value::get` with a string index: when the value
/// is an object holding the key, returns that entry; otherwise `None`.
#[verifier::external_body]
pub(crate) fn json_get<'a>(v: &'a serde_json::Value, key: &str) -> (r: Option<
    &'a serde_json::Value,
>)
    ensures
        r is Some <==> (val_model(*v) matches JsonModel::Obj(fields)
            && fields.dom().contains(key@)),
        r matches Some(w) ==> val_model(*w) == val_model(*v)->Obj_0[key@],
{
    v.get(key)
}

/// Relies on `serde_json::Value::as_str`: returns the string exactly when
/// the value is a JSON string.
#[verifier::external_body]
pub(crate) fn json_as_str<'a>(v: &'a serde_json::Value) -> (r: Option<&'a str>)
    ensures
        r is Some <==> val_model(*v) is Text,
        r matches Some(s) ==> s@ == val_model(*v)->Text_0,
{
    v.as_str()
}

/// Relies on `serde_json::Value::as_u64`: returns the number exactly when
/// the value is an integer number representable as a `u64`.
#[verifier::external_body]
pub(crate) fn json_as_u64(v: &serde_json::Value) -> (r: Option<u64>)
    ensures
        r is Some <==> (val_model(*v) matches JsonModel::Int(n) && 0 <= n <= u64::MAX),
        r matches Some(x) ==> x == val_model(*v)->Int_0,
{
    v.as_u64()
}

/// Relies on `serde_json::Value::as_array`: returns the element vector
/// exactly when the value is a JSON array.
#[verifier::external_body]
pub(crate) fn json_as_array<'a>(v: &'a serde_json::Value) -> (r: Option<&'a Vec<serde_json::Value>>)
    ensures
        r is Some <==> val_model(*v) is Arr,
        r matches Some(a) ==> a@.len() == val_model(*v)->Arr_0.len() && (forall|i: int|
            0 <= i < a@.len() ==> #[trigger] val_model(a@[i]) == val_model(*v)->Arr_0[i]),
{
    v.as_array()
}

/// Relies on `serde_json::Value::is_null`: whether the value is JSON null.
#[verifier::external_body]
pub(crate) fn json_is_null(v: &serde_json::Value) -> (r: bool)
    ensures
        r == (val_model(*v) is Null),
{
    v.is_null()
}

} // verus!
