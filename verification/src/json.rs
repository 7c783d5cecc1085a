//! Trusted JSON queries.
//!
//! Header, payload and key-set documents are JSON text whose parsing is
//! delegated to serde_json.  Each query here is a pure function of the
//! document bytes and the key, so its result carries an uninterpreted
//! name; the engine's own contracts are stated over those names.

use vstd::prelude::*;

verus! {

/// Whether the document parses as a JSON object.
pub uninterp spec fn json_is_object(doc: Seq<u8>) -> bool;

/// The UTF-8 bytes of the string value of the top-level member `key`, or
/// `None` if the document is not a JSON object, the member is absent, or
/// its value is not a string.
pub uninterp spec fn json_str_field(doc: Seq<u8>, key: Seq<char>) -> Option<Seq<u8>>;

/// The UTF-8 bytes of the elements of the top-level member `key`, or
/// `None` if the document is not a JSON object, the member is absent, or
/// its value is not an array of strings.
pub uninterp spec fn json_str_list_field(doc: Seq<u8>, key: Seq<char>) -> Option<Seq<Seq<u8>>>;

/// The length of the array value of the top-level member `key`, or `None`
/// if the document is not a JSON object, the member is absent, or its
/// value is not an array.
pub uninterp spec fn json_array_len_of(doc: Seq<u8>, key: Seq<char>) -> Option<int>;

/// The UTF-8 bytes of the string value of member `subkey` of the `i`th
/// element of the array value of the top-level member `key`, or `None` if
/// any step of that path is absent or of another shape.
pub uninterp spec fn json_elem_str_field(
    doc: Seq<u8>,
    key: Seq<char>,
    i: int,
    subkey: Seq<char>,
) -> Option<Seq<u8>>;

/// Relies on serde_json's `from_slice` and `Value::is_object`: whether the
/// bytes parse as a JSON object.
#[verifier::external_body]
pub fn json_object_check(doc: &[u8]) -> (r: bool)
    ensures
        r == json_is_object(doc@),
{
    match serde_json::from_slice::<serde_json::Value>(doc) {
        Ok(v) => v.is_object(),
        Err(_) => false,
    }
}

/// Relies on serde_json's `from_slice`, `Value::get` and `Value::as_str`:
/// the string value of a top-level member.
#[verifier::external_body]
pub fn json_get_str(doc: &[u8], key: &str) -> (r: Option<Vec<u8>>)
    ensures
        match r {
            Some(v) => json_str_field(doc@, key@) == Some(v@),
            None => json_str_field(doc@, key@) is None,
        },
{
    match serde_json::from_slice::<serde_json::Value>(doc) {
        Ok(v) => v.get(key).and_then(|f| f.as_str()).map(|s| s.as_bytes().to_vec()),
        Err(_) => None,
    }
}

/// Relies on serde_json's `from_slice`, `Value::get` and `from_value`: the
/// elements of a top-level member that is an array of strings.
#[verifier::external_body]
pub fn json_get_str_list(doc: &[u8], key: &str) -> (r: Option<Vec<Vec<u8>>>)
    ensures
        match r {
            Some(v) => json_str_list_field(doc@, key@) == Some(v.deep_view()),
            None => json_str_list_field(doc@, key@) is None,
        },
{
    match serde_json::from_slice::<serde_json::Value>(doc) {
        Ok(v) => match v.get(key) {
            Some(f) => serde_json::from_value::<Vec<String>>(f.clone()).ok().map(
                |l| l.into_iter().map(String::into_bytes).collect(),
            ),
            None => None,
        },
        Err(_) => None,
    }
}

/// Relies on serde_json's `from_slice`, `Value::get` and `Value::as_array`:
/// the length of a top-level member that is an array.
#[verifier::external_body]
pub fn json_array_len(doc: &[u8], key: &str) -> (r: Option<usize>)
    ensures
        match r {
            Some(n) => json_array_len_of(doc@, key@) == Some(n as int),
            None => json_array_len_of(doc@, key@) is None,
        },
{
    match serde_json::from_slice::<serde_json::Value>(doc) {
        Ok(v) => v.get(key).and_then(|f| f.as_array()).map(|a| a.len()),
        Err(_) => None,
    }
}

/// Relies on serde_json's `from_slice`, `Value::get` and `Value::as_str`:
/// the string value of a member of one element of a top-level array.
#[verifier::external_body]
pub fn json_get_elem_str(doc: &[u8], key: &str, i: usize, subkey: &str) -> (r: Option<Vec<u8>>)
    ensures
        match r {
            Some(v) => json_elem_str_field(doc@, key@, i as int, subkey@) == Some(v@),
            None => json_elem_str_field(doc@, key@, i as int, subkey@) is None,
        },
{
    match serde_json::from_slice::<serde_json::Value>(doc) {
        Ok(v) => v.get(key).and_then(|a| a.get(i)).and_then(|f| f.get(subkey)).and_then(
            |f| f.as_str(),
        ).map(|s| s.as_bytes().to_vec()),
        Err(_) => None,
    }
}

} // verus!
