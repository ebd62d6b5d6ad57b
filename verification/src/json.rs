//! The JSON document of a reading, as `serde_json` holds it.
//!
//! Nothing in this module is proved: it states what the functions of
//! `serde_json` that the library calls do, as their source shows it.
use crate::number::Binary64;
use serde_json::Value;
use vstd::prelude::*;

verus! {

/// A JSON object with text keys.
pub type JsonMap = serde_json::Map<String, Value>;

/// `serde_json::Map`, taken as it is: nothing of its inside is known here.
#[verifier::external_type_specification]
#[verifier::external_body]
#[verifier::reject_recursive_types(K)]
#[verifier::reject_recursive_types(V)]
pub struct ExJsonObject<K, V>(serde_json::Map<K, V>);

/// `serde_json::Value`, taken as it is: nothing of its inside is known
/// here.
#[verifier::external_type_specification]
#[verifier::external_body]
pub struct ExJsonValue(Value);

/// What a JSON value holds, as far as a reading is concerned.
///
/// `serde_json` keeps a number in one of three forms: an integer that is
/// zero or more, an integer below zero, or a finite floating-point number.
pub ghost enum Scalar {
    /// A number written with a fraction or an exponent.
    Float(Binary64),
    /// A whole number that is zero or more.
    PosInt(u64),
    /// A whole number below zero.
    NegInt(i64),
    /// A string.
    Text(Seq<char>),
    /// Null, a boolean, an array or an object.
    Other,
}

/// What `value` holds.
pub uninterp spec fn value_scalar(value: Value) -> Scalar;

/// The fields of the JSON object `document`: what each of its keys maps to.
pub uninterp spec fn document_fields(document: JsonMap) -> Map<Seq<char>, Scalar>;

/// `serde_json::Map::get`: the value stored under `key`, if the object has
/// that key.
#[verifier::external_body]
pub(crate) fn document_get<'a>(document: &'a JsonMap, key: &str) -> (found: Option<&'a Value>)
    ensures
        found is Some <==> document_fields(*document).dom().contains(key@),
        found matches Some(value) ==> value_scalar(*value) == document_fields(*document)[key@],
{
    document.get(key)
}

/// `serde_json::Value::is_f64`: true for a number kept as a float, and for
/// nothing else.
pub assume_specification[ Value::is_f64 ](value: &Value) -> (yes: bool)
    ensures
        yes == (value_scalar(*value) is Float),
;

/// `serde_json::Value::is_i64`: true for an integer between `i64::MIN` and
/// `i64::MAX`, and for nothing else.
pub assume_specification[ Value::is_i64 ](value: &Value) -> (yes: bool)
    ensures
        yes == match value_scalar(*value) {
            Scalar::NegInt(_) => true,
            Scalar::PosInt(n) => n <= i64::MAX,
            _ => false,
        },
;

/// `serde_json::Value::is_u64`: true for an integer that is zero or more,
/// and for nothing else.
pub assume_specification[ Value::is_u64 ](value: &Value) -> (yes: bool)
    ensures
        yes == (value_scalar(*value) is PosInt),
;

/// `serde_json::Value::is_string`: true for a string, and for nothing else.
pub assume_specification[ Value::is_string ](value: &Value) -> (yes: bool)
    ensures
        yes == (value_scalar(*value) is Text),
;

/// `serde_json::Value::as_str`: the text of a string, and `None` for any
/// other value.
pub assume_specification<'a>[ Value::as_str ](value: &'a Value) -> (text: Option<&'a str>)
    ensures
        match text {
            Some(s) => value_scalar(*value) == Scalar::Text(s@),
            None => !(value_scalar(*value) is Text),
        },
;

/// `serde_json::Value::as_i64`: the integer, if the value is one between
/// `i64::MIN` and `i64::MAX`, else `None`.
pub assume_specification[ Value::as_i64 ](value: &Value) -> (number: Option<i64>)
    ensures
        number == match value_scalar(*value) {
            Scalar::NegInt(n) => Some(n),
            Scalar::PosInt(n) => if n <= i64::MAX {
                Some(n as i64)
            } else {
                None
            },
            _ => None,
        },
;

/// `serde_json::Value::as_u64`: the integer, if the value is one that is
/// zero or more, else `None`.
pub assume_specification[ Value::as_u64 ](value: &Value) -> (number: Option<u64>)
    ensures
        number == match value_scalar(*value) {
            Scalar::PosInt(n) => Some(n),
            _ => None,
        },
;

/// `serde_json::Value::as_f64`, with the result taken by its bits: for a
/// number kept as a float, that float. An integer comes back converted to
/// a float, of which nothing is stated; any other value gives `None`.
#[verifier::external_body]
pub(crate) fn value_as_binary64(value: &Value) -> (number: Option<Binary64>)
    ensures
        value_scalar(*value) matches Scalar::Float(b) ==> number == Some(b),
        number is None <==> (value_scalar(*value) is Text || value_scalar(*value) is Other),
{
    match value.as_f64() {
        Some(x) => Some(Binary64 { bits: x.to_bits() }),
        None => None,
    }
}

} // verus!
