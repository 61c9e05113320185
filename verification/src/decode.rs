//! Reading single members out of a JSON object.
//!
//! Every reader names the member it could not read: nothing is defaulted.

use crate::error::Field;
use crate::json::{get, json_view, json_views, Json, JsonNumber};
use crate::text::{decimal, decimal_string};
use serde_json::Value;
use vstd::prelude::*;

verus! {

impl Field {
    /// The largest number the library accepts under this member.
    pub open spec fn limit(self) -> u64 {
        match self {
            Field::Kills | Field::Deaths | Field::Assists | Field::Level => 0xff,
            Field::GameMode | Field::AccountId | Field::TeamNumber | Field::MatchId
            | Field::StartTime => 0xffff_ffff_ffff_ffff,
            _ => 0xffff_ffff,
        }
    }

    /// The largest number the library accepts under this member.
    pub fn max_number(&self) -> (max: u64)
        ensures
            max == self.limit(),
    {
        match *self {
            Field::Kills | Field::Deaths | Field::Assists | Field::Level => 0xff,
            Field::GameMode | Field::AccountId | Field::TeamNumber | Field::MatchId
            | Field::StartTime => 0xffff_ffff_ffff_ffff,
            _ => 0xffff_ffff,
        }
    }
}

/// The member of `doc` stored for `field`, if `doc` is an object that has it.
pub open spec fn member_at(doc: Json, field: Field) -> Option<Json> {
    doc.member(field.key())
}

/// The number that `doc` holds for `field`, if it holds a non-negative
/// integer there that does not exceed the member's limit.
pub open spec fn number_at(doc: Json, field: Field) -> Option<u64> {
    match member_at(doc, field) {
        Some(Json::Number(JsonNumber::Unsigned(n))) => if n <= field.limit() {
            Some(n)
        } else {
            None
        },
        _ => None,
    }
}

/// The flag that `doc` holds for `field`, if it holds a boolean there.
pub open spec fn flag_at(doc: Json, field: Field) -> Option<bool> {
    match member_at(doc, field) {
        Some(Json::Bool(b)) => Some(b),
        _ => None,
    }
}

/// The elements that `doc` holds for `field`, if it holds an array there.
pub open spec fn list_at(doc: Json, field: Field) -> Option<Seq<Json>> {
    match member_at(doc, field) {
        Some(Json::Array(items)) => Some(items),
        _ => None,
    }
}

/// The characters that `doc` holds for `field`, if it holds a string there.
pub open spec fn text_at(doc: Json, field: Field) -> Option<Seq<char>> {
    match member_at(doc, field) {
        Some(Json::Text(s)) => Some(s),
        _ => None,
    }
}

/// The identifier that `doc` holds for `field`: the decimal notation of a
/// non-negative integer, or the characters of a string.
pub open spec fn label_at(doc: Json, field: Field) -> Option<Seq<char>> {
    match member_at(doc, field) {
        Some(Json::Number(JsonNumber::Unsigned(n))) => Some(decimal(n as nat)),
        Some(Json::Text(s)) => Some(s),
        _ => None,
    }
}

/// Looks up the member of `doc` stored for `field`.
pub fn read_member<'a>(doc: &'a Value, field: Field) -> (found: Option<&'a Value>)
    ensures
        match found {
            Some(member) => member_at(json_view(*doc), field) == Some(json_view(*member)),
            None => member_at(json_view(*doc), field) is None,
        },
{
    let name = field.name();
    get(doc, name.as_str())
}

/// Reads the number stored for `field`.
pub fn read_number(doc: &Value, field: Field) -> (number: Option<u64>)
    ensures
        number == number_at(json_view(*doc), field),
{
    match read_member(doc, field) {
        Some(member) => match member.as_u64() {
            Some(n) => if n <= field.max_number() {
                Some(n)
            } else {
                None
            },
            None => None,
        },
        None => None,
    }
}

/// Reads the flag stored for `field`.
pub fn read_flag(doc: &Value, field: Field) -> (flag: Option<bool>)
    ensures
        flag == flag_at(json_view(*doc), field),
{
    match read_member(doc, field) {
        Some(member) => member.as_bool(),
        None => None,
    }
}

/// Reads the array stored for `field`.
pub fn read_list<'a>(doc: &'a Value, field: Field) -> (list: Option<&'a Vec<Value>>)
    ensures
        match list {
            Some(items) => list_at(json_view(*doc), field) == Some(json_views(items@)),
            None => list_at(json_view(*doc), field) is None,
        },
{
    match read_member(doc, field) {
        Some(member) => member.as_array(),
        None => None,
    }
}

/// Reads the string stored for `field`.
pub fn read_text<'a>(doc: &'a Value, field: Field) -> (text: Option<&'a str>)
    ensures
        match text {
            Some(s) => text_at(json_view(*doc), field) == Some(s@),
            None => text_at(json_view(*doc), field) is None,
        },
{
    match read_member(doc, field) {
        Some(member) => member.as_str(),
        None => None,
    }
}

/// Reads the identifier stored for `field`.
pub fn read_label(doc: &Value, field: Field) -> (label: Option<String>)
    ensures
        match label {
            Some(s) => label_at(json_view(*doc), field) == Some(s@),
            None => label_at(json_view(*doc), field) is None,
        },
{
    match read_member(doc, field) {
        Some(member) => match member.as_u64() {
            Some(n) => Some(decimal_string(n)),
            None => match member.as_str() {
                Some(s) => Some(s.to_owned()),
                None => None,
            },
        },
        None => None,
    }
}

} // verus!
