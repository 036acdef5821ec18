//! Trusted view of the JSON support this crate leans on.
//!
//! A parsed document is carried as an opaque `serde_json::Value`.  What a
//! value holds is named by uninterpreted spec functions — the map behind an
//! object, the sequence behind an array, the characters behind a string —
//! and each accessor the rest of the crate calls is wrapped in a function
//! whose contract speaks of those names exactly as the accessor behaves.

use vstd::prelude::*;
use vstd::utf8::{decode_utf8, valid_utf8};

verus! {

#[verifier::external_type_specification]
#[verifier::external_body]
pub struct ExValue(serde_json::Value);

#[verifier::external_type_specification]
#[verifier::external_body]
pub struct ExJsonError(serde_json::Error);

/// The document a text parses to, or `None` where it is not well-formed
/// JSON.  Parsing is a function of the text alone.
pub uninterp spec fn json_of(text: Seq<char>) -> Option<serde_json::Value>;

/// The entries of a JSON object, or `None` where the value is not an
/// object.
pub uninterp spec fn obj_of(v: serde_json::Value) -> Option<Map<Seq<char>, serde_json::Value>>;

/// The elements of a JSON array, or `None` where the value is not an
/// array.
pub uninterp spec fn arr_of(v: serde_json::Value) -> Option<Seq<serde_json::Value>>;

/// The characters of a JSON string, or `None` where the value is not a
/// string.
pub uninterp spec fn str_of(v: serde_json::Value) -> Option<Seq<char>>;

/// The value an object holds under a key: `None` where the value is not an
/// object or the key is absent.
pub open spec fn obj_key(v: serde_json::Value, key: Seq<char>) -> Option<serde_json::Value> {
    match obj_of(v) {
        Some(m) => if m.contains_key(key) {
            Some(m[key])
        } else {
            None
        },
        None => None,
    }
}

/// Relies on `serde_json::from_str`: it returns `Ok` exactly when the text
/// is a well-formed JSON document, and the parse depends on the text alone.
#[verifier::external_body]
pub fn parse_json(text: &str) -> (r: Result<serde_json::Value, serde_json::Error>)
    ensures
        r matches Ok(v) ==> json_of(text@) == Some(v),
        r is Err ==> json_of(text@) is None,
{
    serde_json::from_str(text)
}

/// Relies on `serde_json::Value::get` with a string index: on an object it
/// looks the key up in the object's map; on any other value it returns
/// `None`.
#[verifier::external_body]
pub fn get_key<'a>(v: &'a serde_json::Value, key: &str) -> (r: Option<&'a serde_json::Value>)
    ensures
        r matches Some(x) ==> (obj_of(*v) matches Some(m) && m.contains_key(key@) && m[key@]
            == *x),
        r is None ==> obj_key(*v, key@) is None,
{
    v.get(key)
}

/// Relies on `serde_json::Value::as_array`: it returns the elements of an
/// array and `None` for every other value.
#[verifier::external_body]
pub fn as_array<'a>(v: &'a serde_json::Value) -> (r: Option<&'a Vec<serde_json::Value>>)
    ensures
        r matches Some(a) ==> arr_of(*v) == Some(a@),
        r is None ==> arr_of(*v) is None,
{
    v.as_array()
}

/// Relies on `serde_json::Value::as_str`: it returns the characters of a
/// string and `None` for every other value.
#[verifier::external_body]
pub fn as_str<'a>(v: &'a serde_json::Value) -> (r: Option<&'a str>)
    ensures
        r matches Some(t) ==> str_of(*v) == Some(t@),
        r is None ==> str_of(*v) is None,
{
    v.as_str()
}

/// Relies on `String::from_utf8`: it returns `Ok` exactly when the bytes
/// are valid UTF-8, and then decodes them; the error arm is dropped.
#[verifier::external_body]
pub fn decode_utf8_bytes(bytes: Vec<u8>) -> (r: Option<String>)
    ensures
        r matches Some(s) ==> valid_utf8(bytes@) && s@ == decode_utf8(bytes@),
        r is None ==> !valid_utf8(bytes@),
{
    String::from_utf8(bytes).ok()
}

} // verus!
