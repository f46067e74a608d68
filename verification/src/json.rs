//! Trusted access to JSON body text.
//!
//! Every lookup goes through `serde_json`: the body text is parsed once and a
//! JSON-pointer path selects one value inside it. Each result is a function
//! of the body text and the path alone, so it is named by an uninterpreted
//! spec function, and the verified decoders state their contracts over those
//! names.

use vstd::prelude::*;

verus! {

/// The string value at a JSON-pointer path of a body, if the body parses and
/// the path leads to a string.
pub uninterp spec fn json_str_at_of(text: Seq<char>, pointer: Seq<char>) -> Option<Seq<char>>;

/// Relies on `serde_json::from_str::<Value>`, `Value::pointer` and
/// `Value::as_str`: the selected string, a function of the body text and the
/// path alone.
#[verifier::external_body]
pub(crate) fn json_str_at(text: &str, pointer: &str) -> (r: Option<String>)
    ensures
        r.deep_view() == json_str_at_of(text@, pointer@),
{
    match serde_json::from_str::<serde_json::Value>(text) {
        Ok(v) => v.pointer(pointer).and_then(serde_json::Value::as_str).map(str::to_owned),
        Err(_) => None,
    }
}

/// The unsigned-integer value at a JSON-pointer path of a body, if the body
/// parses and the path leads to an unsigned integer.
pub uninterp spec fn json_u64_at_of(text: Seq<char>, pointer: Seq<char>) -> Option<u64>;

/// Relies on `serde_json::from_str::<Value>`, `Value::pointer` and
/// `Value::as_u64`: the selected integer, a function of the body text and the
/// path alone.
#[verifier::external_body]
pub(crate) fn json_u64_at(text: &str, pointer: &str) -> (r: Option<u64>)
    ensures
        r == json_u64_at_of(text@, pointer@),
{
    match serde_json::from_str::<serde_json::Value>(text) {
        Ok(v) => v.pointer(pointer).and_then(serde_json::Value::as_u64),
        Err(_) => None,
    }
}

/// The boolean value at a JSON-pointer path of a body, if the body parses and
/// the path leads to a boolean.
pub uninterp spec fn json_bool_at_of(text: Seq<char>, pointer: Seq<char>) -> Option<bool>;

/// Relies on `serde_json::from_str::<Value>`, `Value::pointer` and
/// `Value::as_bool`: the selected boolean, a function of the body text and
/// the path alone.
#[verifier::external_body]
pub(crate) fn json_bool_at(text: &str, pointer: &str) -> (r: Option<bool>)
    ensures
        r == json_bool_at_of(text@, pointer@),
{
    match serde_json::from_str::<serde_json::Value>(text) {
        Ok(v) => v.pointer(pointer).and_then(serde_json::Value::as_bool),
        Err(_) => None,
    }
}

/// The length of the array at a JSON-pointer path of a body, if the body
/// parses and the path leads to an array.
pub uninterp spec fn json_arr_len_of(text: Seq<char>, pointer: Seq<char>) -> Option<nat>;

/// Relies on `serde_json::from_str::<Value>`, `Value::pointer` and
/// `Value::as_array`: the selected array's length, a function of the body
/// text and the path alone. An in-memory array is never longer than the text
/// it was parsed from, so the length fits in `usize`.
#[verifier::external_body]
pub(crate) fn json_arr_len_at(text: &str, pointer: &str) -> (r: Option<usize>)
    ensures
        r is Some <==> json_arr_len_of(text@, pointer@) is Some,
        r is Some ==> r->0 as nat == json_arr_len_of(text@, pointer@)->0,
{
    match serde_json::from_str::<serde_json::Value>(text) {
        Ok(v) => v.pointer(pointer).and_then(serde_json::Value::as_array).map(Vec::len),
        Err(_) => None,
    }
}

/// The rendered text of the value at a JSON-pointer path of a body, if the
/// body parses and the path leads to a value.
pub uninterp spec fn json_raw_at_of(text: Seq<char>, pointer: Seq<char>) -> Option<Seq<char>>;

/// Relies on `serde_json::from_str::<Value>`, `Value::pointer` and `Value`'s
/// `Display`: the selected value rendered back to compact JSON text with
/// object keys in sorted order, a function of the body text and the path
/// alone.
#[verifier::external_body]
pub(crate) fn json_raw_at(text: &str, pointer: &str) -> (r: Option<String>)
    ensures
        r.deep_view() == json_raw_at_of(text@, pointer@),
{
    match serde_json::from_str::<serde_json::Value>(text) {
        Ok(v) => v.pointer(pointer).map(serde_json::Value::to_string),
        Err(_) => None,
    }
}

/// The rendered text of the number at a JSON-pointer path of a body, if the
/// body parses and the path leads to a number; `None` for a missing path and
/// for any non-number, `null` included.
pub uninterp spec fn json_num_at_of(text: Seq<char>, pointer: Seq<char>) -> Option<Seq<char>>;

/// Relies on `serde_json::from_str::<Value>`, `Value::pointer`,
/// `Value::as_number` and `Number`'s `Display`: the selected number's
/// literal text, a function of the body text and the path alone.
#[verifier::external_body]
pub(crate) fn json_num_at(text: &str, pointer: &str) -> (r: Option<String>)
    ensures
        r.deep_view() == json_num_at_of(text@, pointer@),
{
    match serde_json::from_str::<serde_json::Value>(text) {
        Ok(v) => v.pointer(pointer).and_then(serde_json::Value::as_number).map(
            serde_json::Number::to_string,
        ),
        Err(_) => None,
    }
}

} // verus!
