//! The boundary to `serde_json`.
//!
//! JSON values stay `serde_json::Value`s at run time. What the rest of the
//! crate proves about them is phrased over [`Json`], a mathematical tree, and
//! [`json_model`], which names the tree a value holds. Everything in this
//! module that touches `serde_json` is believed, not proved; each such item
//! says which function it stands for.

use vstd::prelude::*;

verus! {

/// `serde_json::Value`, carried through verified code as an opaque value.
#[verifier::external_type_specification]
#[verifier::external_body]
pub struct ExValue(serde_json::Value);

/// `serde_json::Error`, carried through verified code as an opaque value.
#[verifier::external_type_specification]
#[verifier::external_body]
pub struct ExError(serde_json::Error);

/// A JSON number. An integer is kept as the integer it is; any other number
/// is the rational `mantissa * 2^exponent`, written with an odd mantissa
/// (or with both parts zero), so that equal numbers have equal models.
pub enum JsonNumber {
    PosInt(u64),
    NegInt(i64),
    Binary { mantissa: int, exponent: int },
}

/// A JSON document as a mathematical value.
pub enum Json {
    Null,
    Bool(bool),
    Number(JsonNumber),
    Text(Seq<char>),
    Array(Seq<Json>),
    Object(Map<Seq<char>, Json>),
}

impl Json {
    /// The member stored under `key`, if this is an object that has one.
    pub open spec fn member(self, key: Seq<char>) -> Option<Json> {
        match self {
            Json::Object(members) => if members.contains_key(key) {
                Some(members[key])
            } else {
                None
            },
            _ => None,
        }
    }

    /// The truth value, if this is a boolean.
    pub open spec fn as_bool(self) -> Option<bool> {
        match self {
            Json::Bool(b) => Some(b),
            _ => None,
        }
    }

    /// The text, if this is a string.
    pub open spec fn as_text(self) -> Option<Seq<char>> {
        match self {
            Json::Text(s) => Some(s),
            _ => None,
        }
    }

    /// The number, if this is a non-negative integer.
    pub open spec fn as_u64(self) -> Option<u64> {
        match self {
            Json::Number(JsonNumber::PosInt(n)) => Some(n),
            _ => None,
        }
    }
}

/// The tree that a `serde_json::Value` holds.
pub uninterp spec fn json_model(value: serde_json::Value) -> Json;

/// The tree that a byte string denotes as JSON text, or `None` where
/// `serde_json` rejects the text.
pub uninterp spec fn json_document(bytes: Seq<u8>) -> Option<Json>;

/// `serde_json::from_slice` at type `Value`. The parser reads nothing but
/// its argument, so its verdict and the tree it builds are named by
/// [`json_document`].
#[verifier::external_body]
pub(crate) fn parse_document(bytes: &[u8]) -> (parsed: Result<serde_json::Value, serde_json::Error>)
    ensures
        match parsed {
            Ok(value) => json_document(bytes@) == Some(json_model(value)),
            Err(_) => json_document(bytes@) is None,
        },
{
    serde_json::from_slice(bytes)
}

/// `Value::get` with a string index: the member of an object under that
/// key, and `None` for a missing key or for anything that is no object.
#[verifier::external_body]
pub(crate) fn lookup<'a>(value: &'a serde_json::Value, key: &str) -> (found: Option<
    &'a serde_json::Value,
>)
    ensures
        match found {
            Some(member) => json_model(*value).member(key@) == Some(json_model(*member)),
            None => json_model(*value).member(key@) is None,
        },
{
    value.get(key)
}

/// `Value::as_bool`: the boolean inside, `None` for every other kind.
pub assume_specification[ serde_json::Value::as_bool ](value: &serde_json::Value) -> (found:
    Option<bool>)
    ensures
        found == json_model(*value).as_bool(),
;

/// `Value::as_u64`: the integer inside where the value is a number that
/// `serde_json` holds as a non-negative integer, `None` otherwise.
pub assume_specification[ serde_json::Value::as_u64 ](value: &serde_json::Value) -> (found:
    Option<u64>)
    ensures
        found == json_model(*value).as_u64(),
;

/// `Value::as_str`: the text inside, `None` for every other kind.
pub assume_specification<'a>[ serde_json::Value::as_str ](value: &'a serde_json::Value) -> (found:
    Option<&'a str>)
    ensures
        match found {
            Some(text) => json_model(*value).as_text() == Some(text@),
            None => json_model(*value).as_text() is None,
        },
;

/// `Value::clone`: the copy holds the same tree.
pub assume_specification[ <serde_json::Value as Clone>::clone ](
    value: &serde_json::Value,
) -> (copy: serde_json::Value)
    ensures
        json_model(copy) == json_model(*value),
;

/// `==` on two `Value`s: true exactly when both hold the same tree.
#[verifier::external_body]
pub(crate) fn same_value(left: &serde_json::Value, right: &serde_json::Value) -> (same: bool)
    ensures
        same == (json_model(*left) == json_model(*right)),
{
    left == right
}

} // verus!
