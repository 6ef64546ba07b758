//! The boundary to the JSON library. Everything in this file is believed, not
//! proved: each item names the library call it stands for. A JSON value is
//! carried through as it is; what the records need of one has a name here.

use vstd::prelude::*;
use vstd::string::to_string_from_display_ensures;

verus! {

/// `serde_json::Value`, any JSON value.
#[verifier::external_type_specification]
#[verifier::external_body]
pub struct ExJsonValue(serde_json::Value);

/// `serde_json::Error`, a failure to write or read JSON.
#[verifier::external_type_specification]
#[verifier::external_body]
pub struct ExJsonError(serde_json::Error);

/// The member `key` of a JSON object; `None` for a missing member and for a
/// value that is no object.
pub uninterp spec fn json_member(value: serde_json::Value, key: Seq<char>) -> Option<
    serde_json::Value,
>;

/// The text of a JSON string; `None` for every other value.
pub uninterp spec fn json_text(value: serde_json::Value) -> Option<Seq<char>>;

/// The truth value of a JSON boolean; `None` for every other value.
pub uninterp spec fn json_flag(value: serde_json::Value) -> Option<bool>;

/// The value of a JSON number that is an integer of 64 bits; `None` for
/// every other value.
pub uninterp spec fn json_integer(value: serde_json::Value) -> Option<i64>;

/// A JSON value written out as compact JSON text; `None` where it cannot be
/// written.
pub uninterp spec fn json_written(value: serde_json::Value) -> Option<Seq<char>>;

/// The JSON value that a text spells; `None` where the text is not JSON.
pub uninterp spec fn json_read(text: Seq<char>) -> Option<serde_json::Value>;

/// A list of tags written out as a JSON array of strings; `None` where it
/// cannot be written.
pub uninterp spec fn tags_written(tags: Seq<Seq<char>>) -> Option<Seq<char>>;

/// The list of tags that a text spells; `None` where the text is not a JSON
/// array of strings.
pub uninterp spec fn tags_read(text: Seq<char>) -> Option<Seq<Seq<char>>>;

/// `Value::get` with a string index.
#[verifier::external_body]
pub(crate) fn member<'a>(value: &'a serde_json::Value, key: &str) -> (found: Option<
    &'a serde_json::Value,
>)
    ensures
        match found {
            Some(inner) => json_member(*value, key@) == Some(*inner),
            None => json_member(*value, key@) is None,
        },
{
    value.get(key)
}

/// `Value::as_str`.
#[verifier::external_body]
pub(crate) fn as_text(value: &serde_json::Value) -> (text: Option<String>)
    ensures
        text.deep_view() == json_text(*value),
{
    value.as_str().map(|s| s.to_string())
}

/// `Value::as_bool`.
#[verifier::external_body]
pub(crate) fn as_flag(value: &serde_json::Value) -> (flag: Option<bool>)
    ensures
        flag == json_flag(*value),
{
    value.as_bool()
}

/// `Value::as_i64`.
#[verifier::external_body]
pub(crate) fn as_integer(value: &serde_json::Value) -> (integer: Option<i64>)
    ensures
        integer == json_integer(*value),
{
    value.as_i64()
}

/// `serde_json::to_string` on a JSON value.
#[verifier::external_body]
pub(crate) fn write_value(value: &serde_json::Value) -> (text: Result<String, serde_json::Error>)
    ensures
        match text {
            Ok(t) => json_written(*value) == Some(t@),
            Err(_) => json_written(*value) is None,
        },
{
    serde_json::to_string(value)
}

/// `serde_json::from_str` for a JSON value.
#[verifier::external_body]
pub(crate) fn read_value(text: &str) -> (value: Result<serde_json::Value, serde_json::Error>)
    ensures
        match value {
            Ok(v) => json_read(text@) == Some(v),
            Err(_) => json_read(text@) is None,
        },
{
    serde_json::from_str(text)
}

/// `serde_json::to_string` on a list of strings.
#[verifier::external_body]
pub(crate) fn write_tags(tags: &Vec<String>) -> (text: Result<String, serde_json::Error>)
    ensures
        match text {
            Ok(t) => tags_written(tags.deep_view()) == Some(t@),
            Err(_) => tags_written(tags.deep_view()) is None,
        },
{
    serde_json::to_string(tags)
}

/// `serde_json::from_str` for a list of strings.
#[verifier::external_body]
pub(crate) fn read_tags(text: &str) -> (tags: Result<Vec<String>, serde_json::Error>)
    ensures
        match tags {
            Ok(list) => tags_read(text@) == Some(list.deep_view()),
            Err(_) => tags_read(text@) is None,
        },
{
    serde_json::from_str(text)
}

/// A message that renders a failure to write or read JSON.
pub open spec fn json_message(message: String) -> bool {
    exists|failure: serde_json::Error| to_string_from_display_ensures(&failure, message)
}

/// The text under `key` in a field map: there where the map is a JSON object
/// with a member `key` that is a JSON string.
pub open spec fn text_member(fields: serde_json::Value, key: Seq<char>) -> Option<Seq<char>> {
    match json_member(fields, key) {
        Some(inner) => json_text(inner),
        None => None,
    }
}

/// The truth value under `key` in a field map: there where the map is a JSON
/// object with a member `key` that is a JSON boolean.
pub open spec fn flag_member(fields: serde_json::Value, key: Seq<char>) -> Option<bool> {
    match json_member(fields, key) {
        Some(inner) => json_flag(inner),
        None => None,
    }
}

/// The integer under `key` in a field map: there where the map is a JSON
/// object with a member `key` that is an integer of 64 bits.
pub open spec fn integer_member(fields: serde_json::Value, key: Seq<char>) -> Option<i64> {
    match json_member(fields, key) {
        Some(inner) => json_integer(inner),
        None => None,
    }
}

/// What is stored for the member `key` of a field map, whatever JSON value it
/// is: the value written out as JSON text, or empty text where it cannot be
/// written. `None` where the map has no such member.
pub open spec fn written_member(fields: serde_json::Value, key: Seq<char>) -> Option<Seq<char>> {
    match json_member(fields, key) {
        Some(inner) => match json_written(inner) {
            Some(text) => Some(text),
            None => Some(Seq::empty()),
        },
        None => None,
    }
}

/// Reads the text under `key`; a member of another type counts as missing.
pub fn text_field(fields: &serde_json::Value, key: &str) -> (text: Option<String>)
    ensures
        text.deep_view() == text_member(*fields, key@),
{
    match member(fields, key) {
        Some(inner) => as_text(inner),
        None => None,
    }
}

/// Reads the truth value under `key`; a member of another type counts as
/// missing.
pub fn flag_field(fields: &serde_json::Value, key: &str) -> (flag: Option<bool>)
    ensures
        flag == flag_member(*fields, key@),
{
    match member(fields, key) {
        Some(inner) => as_flag(inner),
        None => None,
    }
}

/// Reads the integer under `key`; a member of another type counts as missing.
pub fn integer_field(fields: &serde_json::Value, key: &str) -> (integer: Option<i64>)
    ensures
        integer == integer_member(*fields, key@),
{
    match member(fields, key) {
        Some(inner) => as_integer(inner),
        None => None,
    }
}

/// Writes out the member under `key` as JSON text, of whatever type it is.
pub fn written_field(fields: &serde_json::Value, key: &str) -> (text: Option<String>)
    ensures
        text.deep_view() == written_member(*fields, key@),
{
    match member(fields, key) {
        Some(inner) => match write_value(inner) {
            Ok(text) => Some(text),
            Err(_) => Some(String::new()),
        },
        None => None,
    }
}

} // verus!
