//! The JSON documents that the forge answers with.
//!
//! Reading JSON text is left to `serde_json`. This module states what the
//! rest of the crate relies on: that reading is a function of the bytes, and
//! that a document's texts, lists and members are functions of the document.
//! What a document has to look like to hold a token or a list of releases is
//! decided elsewhere, in verified code, over the names given here.

use vstd::prelude::*;

verus! {

/// `serde_json::Value`: a JSON document, or a part of one.
///
/// Nothing is seen of what is inside a value. What this crate reads out of
/// one, it reads through the three names below.
#[verifier::external_type_specification]
#[verifier::external_body]
pub struct ExJsonValue(serde_json::Value);

/// The document that `serde_json` reads from `data`; `None` where `data` is
/// not one JSON document.
pub uninterp spec fn json_document(data: Seq<u8>) -> Option<serde_json::Value>;

/// The text that `value` is, where it is a JSON string.
pub uninterp spec fn json_text(value: serde_json::Value) -> Option<Seq<char>>;

/// The elements of `value`, in order, where it is a JSON array.
pub uninterp spec fn json_items(value: serde_json::Value) -> Option<Seq<serde_json::Value>>;

/// What `value` holds under `key`, where it is a JSON object with that key.
pub uninterp spec fn json_member(value: serde_json::Value, key: Seq<char>) -> Option<
    serde_json::Value,
>;

/// `serde_json::from_slice`, reading a `serde_json::Value`; why it read none
/// is dropped.
///
/// Believed, not proved: that the outcome depends on the bytes alone. The
/// document that comes of `data` is called `json_document(data)`; nothing is
/// claimed about which bytes make a document, nor about what it holds.
#[verifier::external_body]
pub(crate) fn read(data: &[u8]) -> (document: Option<serde_json::Value>)
    ensures
        document == json_document(data@),
{
    serde_json::from_slice::<serde_json::Value>(data).ok()
}

/// `serde_json::Value::as_str`: the text of a JSON string, `None` for any
/// other value.
///
/// Believed, not proved: that the answer depends on the value alone. It is
/// called `json_text(value)`.
pub assume_specification[ serde_json::Value::as_str ](value: &serde_json::Value) -> (text: Option<
    &str,
>)
    ensures
        match text {
            Some(text) => json_text(*value) == Some(text@),
            None => json_text(*value) is None,
        },
;

/// `serde_json::Value::as_array`: the elements of a JSON array, `None` for
/// any other value.
///
/// Believed, not proved: that the answer depends on the value alone. It is
/// called `json_items(value)`.
pub assume_specification[ serde_json::Value::as_array ](value: &serde_json::Value) -> (items:
    Option<&Vec<serde_json::Value>>)
    ensures
        match items {
            Some(items) => json_items(*value) == Some(items@),
            None => json_items(*value) is None,
        },
;

/// `serde_json::Value::get` with a string index: the value under `key` in a
/// JSON object, `None` where the object has no such key or `value` is no
/// object.
///
/// Believed, not proved: that the answer depends on the value and the key
/// alone. It is called `json_member(value, key)`.
#[verifier::external_body]
fn get<'a>(value: &'a serde_json::Value, key: &str) -> (found: Option<&'a serde_json::Value>)
    ensures
        match found {
            Some(found) => json_member(*value, key@) == Some(*found),
            None => json_member(*value, key@) is None,
        },
{
    value.get(key)
}

/// The text that `document` holds under `key`: `document` is an object, it
/// has the key, and the value under it is a string.
pub open spec fn text_member(document: serde_json::Value, key: Seq<char>) -> Option<Seq<char>> {
    match json_member(document, key) {
        Some(value) => json_text(value),
        None => None,
    }
}

/// The list that `document` holds under `key`: `document` is an object, it
/// has the key, and the value under it is an array.
pub open spec fn list_member(document: serde_json::Value, key: Seq<char>) -> Option<
    Seq<serde_json::Value>,
> {
    match json_member(document, key) {
        Some(value) => json_items(value),
        None => None,
    }
}

/// The text under `key` in `document`.
pub fn get_text(document: &serde_json::Value, key: &str) -> (text: Option<String>)
    ensures
        text.deep_view() == text_member(*document, key@),
{
    match get(document, key) {
        Some(value) => match value.as_str() {
            Some(text) => Some(text.to_owned()),
            None => None,
        },
        None => None,
    }
}

/// The list under `key` in `document`.
pub fn get_list<'a>(document: &'a serde_json::Value, key: &str) -> (items: Option<
    &'a Vec<serde_json::Value>,
>)
    ensures
        match items {
            Some(items) => list_member(*document, key@) == Some(items@),
            None => list_member(*document, key@) is None,
        },
{
    match get(document, key) {
        Some(value) => value.as_array(),
        None => None,
    }
}

} // verus!
