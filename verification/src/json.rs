//! JSON documents, as `serde_json` reads them.
//!
//! A parsed document stays a `serde_json::Value`.  Verified code sees it through
//! the model [`Json`]: [`json_of`] names what a value holds, and the accessors at
//! the end of this file say over that name what each call into `serde_json`
//! returns.  Those accessors and [`parse_json`] are assumed, not proved.
use vstd::prelude::*;

verus! {

/// What a JSON value holds, as far as this crate reads it.
pub enum Json {
    Null,
    Bool(bool),
    /// A number.  The field is the number itself where it is a non-negative
    /// integer that `serde_json` keeps as a `u64`, and nothing for every other
    /// number (a negative one, one with a fraction or an exponent, one too
    /// large).
    Number(Option<u64>),
    Text(Seq<char>),
    Array(Seq<Json>),
    Object(Map<Seq<char>, Json>),
}

/// The member of an object under a key.  A value that is no object has no
/// members.
pub open spec fn member(doc: Json, key: Seq<char>) -> Option<Json> {
    match doc {
        Json::Object(members) => if members.contains_key(key) {
            Some(members[key])
        } else {
            None
        },
        _ => None,
    }
}

/// A member that must be there and be a string.
pub open spec fn text_member(doc: Json, key: Seq<char>) -> Option<Seq<char>> {
    match member(doc, key) {
        Some(Json::Text(s)) => Some(s),
        _ => None,
    }
}

/// A member that must be there and be `true` or `false`.
pub open spec fn flag_member(doc: Json, key: Seq<char>) -> Option<bool> {
    match member(doc, key) {
        Some(Json::Bool(b)) => Some(b),
        _ => None,
    }
}

/// A member that must be there and be a non-negative integer that fits a
/// `usize`.
pub open spec fn count_member(doc: Json, key: Seq<char>) -> Option<usize> {
    match member(doc, key) {
        Some(Json::Number(Some(n))) => if n <= usize::MAX {
            Some(n as usize)
        } else {
            None
        },
        _ => None,
    }
}

/// A member that may be missing or `null`, and is otherwise `true` or `false`.
/// The outer `None` stands for a member of another type.
pub open spec fn optional_flag_member(doc: Json, key: Seq<char>) -> Option<Option<bool>> {
    match member(doc, key) {
        None => Some(None),
        Some(Json::Null) => Some(None),
        Some(Json::Bool(b)) => Some(Some(b)),
        Some(_) => None,
    }
}

/// The JSON value, if any, that a text denotes.
pub uninterp spec fn json_parse(text: Seq<char>) -> Option<Json>;

/// What a parsed value holds.
pub uninterp spec fn json_of(value: serde_json::Value) -> Json;

/// The string member of `doc` under `key`.
pub fn read_text<'a>(doc: &'a serde_json::Value, key: &str) -> (text: Option<&'a str>)
    ensures
        match text {
            Some(s) => text_member(json_of(*doc), key@) == Some(s@),
            None => text_member(json_of(*doc), key@) is None,
        },
{
    match json_get(doc, key) {
        Some(value) => json_as_str(value),
        None => None,
    }
}

/// The boolean member of `doc` under `key`.
pub fn read_flag(doc: &serde_json::Value, key: &str) -> (flag: Option<bool>)
    ensures
        flag == flag_member(json_of(*doc), key@),
{
    match json_get(doc, key) {
        Some(value) => json_as_bool(value),
        None => None,
    }
}

/// The non-negative integer member of `doc` under `key`.
pub fn read_count(doc: &serde_json::Value, key: &str) -> (count: Option<usize>)
    ensures
        count == count_member(json_of(*doc), key@),
{
    match json_get(doc, key) {
        Some(value) => match json_as_u64(value) {
            Some(n) => if n <= usize::MAX as u64 {
                Some(n as usize)
            } else {
                None
            },
            None => None,
        },
        None => None,
    }
}

/// The boolean member of `doc` under `key`, where the member may be missing or
/// `null`.
pub fn read_optional_flag(doc: &serde_json::Value, key: &str) -> (flag: Option<Option<bool>>)
    ensures
        flag == optional_flag_member(json_of(*doc), key@),
{
    match json_get(doc, key) {
        Some(value) => if json_is_null(value) {
            Some(None)
        } else {
            match json_as_bool(value) {
                Some(b) => Some(Some(b)),
                None => None,
            }
        },
        None => Some(None),
    }
}

/// A JSON value as `serde_json` holds it.
#[verifier::external_type_specification]
#[verifier::external_body]
pub struct ExJsonValue(serde_json::Value);

/// The error with which `serde_json` refuses a text.
#[verifier::external_type_specification]
#[verifier::external_body]
pub struct ExJsonError(serde_json::Error);

/// `serde_json::from_str`, read as a `serde_json::Value`.  Assumed: whether a
/// text is accepted, and what the value then holds, depends on the text alone.
#[verifier::external_body]
pub(crate) fn parse_json(text: &str) -> (parsed: Result<serde_json::Value, serde_json::Error>)
    ensures
        match parsed {
            Ok(value) => json_parse(text@) == Some(json_of(value)),
            Err(_) => json_parse(text@) is None,
        },
{
    serde_json::from_str::<serde_json::Value>(text)
}

/// `serde_json::Value::is_object`.  Assumed: it tells an object from every other
/// value.
#[verifier::external_body]
pub(crate) fn json_is_object(value: &serde_json::Value) -> (yes: bool)
    ensures
        yes == (json_of(*value) is Object),
{
    value.is_object()
}

/// `serde_json::Value::is_null`.  Assumed: it tells `null` from every other
/// value.
#[verifier::external_body]
pub(crate) fn json_is_null(value: &serde_json::Value) -> (yes: bool)
    ensures
        yes == (json_of(*value) is Null),
{
    value.is_null()
}

/// `serde_json::Value::get` with a string key.  Assumed: on an object it gives
/// the member under the key, if there is one; on any other value it gives
/// nothing.
#[verifier::external_body]
pub(crate) fn json_get<'a>(doc: &'a serde_json::Value, key: &str) -> (found: Option<
    &'a serde_json::Value,
>)
    ensures
        match found {
            Some(value) => member(json_of(*doc), key@) == Some(json_of(*value)),
            None => member(json_of(*doc), key@) is None,
        },
{
    doc.get(key)
}

/// `serde_json::Value::as_str`.  Assumed: it gives the text of a string, and
/// nothing for any other value.
#[verifier::external_body]
pub(crate) fn json_as_str<'a>(value: &'a serde_json::Value) -> (text: Option<&'a str>)
    ensures
        match text {
            Some(s) => json_of(*value) == Json::Text(s@),
            None => !(json_of(*value) is Text),
        },
{
    value.as_str()
}

/// `serde_json::Value::as_bool`.  Assumed: it gives `true` or `false` as the
/// value is, and nothing for any other value.
#[verifier::external_body]
pub(crate) fn json_as_bool(value: &serde_json::Value) -> (flag: Option<bool>)
    ensures
        match flag {
            Some(b) => json_of(*value) == Json::Bool(b),
            None => !(json_of(*value) is Bool),
        },
{
    value.as_bool()
}

/// `serde_json::Value::as_u64`.  Assumed: it gives a number that is kept as a
/// `u64`, and nothing for any other number or value.
#[verifier::external_body]
pub(crate) fn json_as_u64(value: &serde_json::Value) -> (count: Option<u64>)
    ensures
        match count {
            Some(n) => json_of(*value) == Json::Number(Some(n)),
            None => !(json_of(*value) matches Json::Number(Some(_))),
        },
{
    value.as_u64()
}

} // verus!
