//! The JSON documents the library reads, and the few `serde_json` calls it
//! reads them with.
//!
//! A `serde_json::Value` is opaque to the verifier.  Contracts speak of it
//! through [`json_view`], which maps a value to the mathematical tree
//! [`Json`].  The contracts of the `serde_json` functions in this file are
//! assumed, not proved; everything else in the crate is proved from them.

use serde_json::Value;
use vstd::prelude::*;

verus! {

/// `serde_json::Value`, carried through verified code as an opaque value.
#[verifier::external_type_specification]
#[verifier::external_body]
pub struct ExValue(serde_json::Value);

/// A JSON number, as far as the library tells numbers apart.
pub enum JsonNumber {
    /// A non-negative integer that fits 64 bits.
    Unsigned(u64),
    /// A negative integer or a floating point number.
    Other,
}

/// The mathematical content of a JSON document.
pub enum Json {
    Null,
    Bool(bool),
    Number(JsonNumber),
    Text(Seq<char>),
    Array(Seq<Json>),
    Object(Map<Seq<char>, Json>),
}

/// The tree that a `serde_json::Value` holds.
pub uninterp spec fn json_view(value: Value) -> Json;

impl Json {
    /// The member stored under `key`, if this is an object that has one.
    pub open spec fn member(self, key: Seq<char>) -> Option<Json> {
        match self {
            Json::Object(members) => if members.contains_key(key) {
                Some(members[key])
            } else {
                None
            },
            _ => None,
        }
    }

    /// The number held, if this is a non-negative integer that fits 64 bits.
    pub open spec fn unsigned(self) -> Option<u64> {
        match self {
            Json::Number(JsonNumber::Unsigned(n)) => Some(n),
            _ => None,
        }
    }

    /// The flag held, if this is a boolean.
    pub open spec fn boolean(self) -> Option<bool> {
        match self {
            Json::Bool(b) => Some(b),
            _ => None,
        }
    }

    /// The characters held, if this is a string.
    pub open spec fn text(self) -> Option<Seq<char>> {
        match self {
            Json::Text(s) => Some(s),
            _ => None,
        }
    }

    /// The elements held, if this is an array.
    pub open spec fn elements(self) -> Option<Seq<Json>> {
        match self {
            Json::Array(items) => Some(items),
            _ => None,
        }
    }
}

/// The trees held by a slice of values, element by element.
pub open spec fn json_views(values: Seq<Value>) -> Seq<Json> {
    values.map_values(|v: Value| json_view(v))
}

/// `serde_json::Value::get` with a string index: the member of an object
/// stored under `key`.  Assumed: the result is `None` when the value is not
/// an object or has no such key, and otherwise refers to the member.
#[verifier::external_body]
pub(crate) fn get<'a>(value: &'a Value, key: &str) -> (found: Option<&'a Value>)
    ensures
        match found {
            Some(member) => json_view(*value).member(key@) == Some(json_view(*member)),
            None => json_view(*value).member(key@) is None,
        },
{
    value.get(key)
}

/// Assumed of `serde_json::Value::as_u64`: it returns the number exactly when
/// the value is a non-negative integer that fits 64 bits.
pub assume_specification[ Value::as_u64 ](value: &Value) -> (number: Option<u64>)
    ensures
        number == json_view(*value).unsigned(),
;

/// Assumed of `serde_json::Value::as_bool`: it returns the flag exactly when
/// the value is a boolean.
pub assume_specification[ Value::as_bool ](value: &Value) -> (flag: Option<bool>)
    ensures
        flag == json_view(*value).boolean(),
;

/// Assumed of `serde_json::Value::as_str`: it returns the characters exactly
/// when the value is a string.
pub assume_specification<'a>[ Value::as_str ](value: &'a Value) -> (text: Option<&'a str>)
    ensures
        match text {
            Some(s) => json_view(*value).text() == Some(s@),
            None => json_view(*value).text() is None,
        },
;

/// Assumed of `serde_json::Value::as_array`: it returns the vector of
/// elements exactly when the value is an array.
pub assume_specification<'a>[ Value::as_array ](value: &'a Value) -> (items: Option<&'a Vec<Value>>)
    ensures
        match items {
            Some(v) => json_view(*value).elements() == Some(json_views(v@)),
            None => json_view(*value).elements() is None,
        },
;

/// Assumed of the `Clone` impl of `serde_json::Value`: the copy holds the
/// same tree.
pub assume_specification[ <Value as Clone>::clone ](value: &Value) -> (copy: Value)
    ensures
        json_view(copy) == json_view(*value),
;

} // verus!
