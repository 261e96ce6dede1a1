//! Parsing the raw event document, through `serde_json`.
//!
//! The incoming text is parsed by `serde_json` and the parsed tree is
//! converted, node by node, into the library's own [`ArgValue`] so that all
//! further reading of the document is verified.  Whether the text parses at
//! all is a function of the text alone; nothing else is assumed about the
//! parse, and the conversion is bounded by a generous depth beyond which
//! deeper nodes collapse to null.

use vstd::prelude::*;
use crate::args::ArgValue;
use crate::event::HookError;
use crate::text::lit_chars;

verus! {

/// Declares `serde_json::Value`, the parsed document node, as opaque.
#[verifier::external_type_specification]
#[verifier::external_body]
pub struct ExJsonValue(serde_json::Value);

/// Declares `serde_json::Error`, the parse error, as opaque; it is mapped
/// to this library's own error right after the call.
#[verifier::external_type_specification]
#[verifier::external_body]
pub struct ExJsonError(serde_json::Error);

/// Declares `serde_json::Map`, the object node, as opaque.
#[verifier::external_type_specification]
#[verifier::external_body]
#[verifier::reject_recursive_types(K)]
#[verifier::reject_recursive_types(V)]
pub struct ExJsonMap<K, V>(serde_json::Map<K, V>);

// The node inspectors of serde_json's Value.  Nothing is assumed of their
// results: the converted tree is handled as an arbitrary document.
pub assume_specification[ serde_json::Value::is_null ](v: &serde_json::Value) -> bool;

pub assume_specification[ serde_json::Value::as_bool ](v: &serde_json::Value) -> Option<bool>;

pub assume_specification[ serde_json::Value::as_i64 ](v: &serde_json::Value) -> Option<i64>;

pub assume_specification<'a>[ serde_json::Value::as_str ](v: &'a serde_json::Value) -> Option<
    &'a str,
>;

pub assume_specification<'a>[ serde_json::Value::as_array ](v: &'a serde_json::Value) -> Option<
    &'a Vec<serde_json::Value>,
>;

pub assume_specification<'a>[ serde_json::Value::as_object ](v: &'a serde_json::Value) -> Option<
    &'a serde_json::Map<String, serde_json::Value>,
>;

/// Whether a text parses as one JSON document; a function of the text
/// alone.
pub uninterp spec fn json_parses(s: Seq<char>) -> bool;

/// Relies on `serde_json::from_str`: success depends on the input text
/// alone.
#[verifier::external_body]
fn parse_json_str(s: &str) -> (r: Result<serde_json::Value, serde_json::Error>)
    ensures
        r is Ok <==> json_parses(s@),
{
    serde_json::from_str(s)
}

/// Relies on `serde_json::Map::iter`: it yields each entry of the object
/// exactly once, in the map's key order.
#[verifier::external_body]
fn obj_entries(m: &serde_json::Map<String, serde_json::Value>) -> (r: Vec<
    (String, serde_json::Value),
>) {
    m.iter().map(|(k, v)| (k.clone(), v.clone())).collect()
}

/// How many levels of nesting the conversion follows before collapsing
/// deeper nodes to null.  Far beyond any event document seen in practice.
pub const CONVERT_DEPTH: u64 = 64;

/// Convert one parsed node into the library's argument model.
///
/// Integral numbers are kept exactly; any other number is collapsed to
/// [`ArgValue::OtherNumber`], and nodes deeper than `fuel` to null.
pub fn value_to_arg(v: &serde_json::Value, fuel: u64) -> (r: ArgValue)
    decreases fuel,
{
    if fuel == 0 {
        return ArgValue::Null;
    }
    if v.is_null() {
        return ArgValue::Null;
    }
    match v.as_bool() {
        Some(b) => {
            return ArgValue::Flag(b);
        },
        None => {},
    }
    match v.as_i64() {
        Some(i) => {
            return ArgValue::Int(i);
        },
        None => {},
    }
    match v.as_str() {
        Some(s) => {
            return ArgValue::Text(lit_chars(s));
        },
        None => {},
    }
    match v.as_array() {
        Some(arr) => {
            let n = arr.len();
            let mut items: Vec<ArgValue> = Vec::new();
            let mut i: usize = 0;
            while i < n
                invariant
                    n == arr@.len(),
                    i <= n,
                    fuel >= 1,
                decreases n - i,
            {
                items.push(value_to_arg(&arr[i], fuel - 1));
                i = i + 1;
            }
            return ArgValue::Items(items);
        },
        None => {},
    }
    match v.as_object() {
        Some(m) => {
            let entries = obj_entries(m);
            let n = entries.len();
            let mut fields: Vec<(Vec<char>, ArgValue)> = Vec::new();
            let mut i: usize = 0;
            while i < n
                invariant
                    n == entries@.len(),
                    i <= n,
                    fuel >= 1,
                decreases n - i,
            {
                let key = lit_chars(entries[i].0.as_str());
                let val = value_to_arg(&entries[i].1, fuel - 1);
                fields.push((key, val));
                i = i + 1;
            }
            return ArgValue::Fields(fields);
        },
        None => {},
    }
    ArgValue::OtherNumber
}

/// Parse the whole incoming text into the argument model.
///
/// Fails, with the input error of this library, exactly when the text is
/// not one well-formed JSON document.
pub fn parse_document(input: &str) -> (r: Result<ArgValue, HookError>)
    ensures
        r is Ok <==> json_parses(input@),
        r matches Err(e) ==> e == HookError::MalformedEvent,
{
    match parse_json_str(input) {
        Ok(v) => Ok(value_to_arg(&v, CONVERT_DEPTH)),
        Err(_) => Err(HookError::MalformedEvent),
    }
}

} // verus!
