//! The boundary to the JSON library.
//!
//! Parsing JSON text and serializing a value back to text are done by
//! `serde_json`; everything else in this crate works on [`ArgValue`] trees.
//! Each function here is trusted: its contract names the result of the
//! outside call, and the rest of the crate is verified against that name.

use vstd::prelude::*;

use crate::args::{opt_arg_model, ArgModel, ArgValue};

verus! {

#[verifier::external_type_specification]
#[verifier::external_body]
pub struct ExValue(serde_json::Value);

/// The value that parsing a byte sequence as one JSON document yields, or
/// `None` where the bytes are not a well-formed document. Parsing is a
/// function of the bytes alone.
pub uninterp spec fn json_arg_of_bytes(s: Seq<u8>) -> Option<ArgModel>;

/// The value that parsing a character sequence as one JSON document yields,
/// or `None` where the text is not a well-formed document. Parsing is a
/// function of the text alone.
pub uninterp spec fn json_arg_of_text(s: Seq<char>) -> Option<ArgModel>;

/// The JSON text that serializing a value yields. Serialization is a
/// function of the value alone: the default map type keeps object keys in
/// sorted order, so equal models give equal text.
pub uninterp spec fn json_text_of(m: ArgModel) -> Seq<char>;

/// Converts a `serde_json` tree into the crate's own value tree, one arm per
/// variant. Numbers that fit a signed 64-bit integer become integers; any
/// other number is carried as its decimal text.
#[verifier::external_body]
fn arg_of_json(v: &serde_json::Value) -> ArgValue {
    match v {
        serde_json::Value::Null => ArgValue::Null,
        serde_json::Value::Bool(b) => ArgValue::Bool(*b),
        serde_json::Value::Number(n) => match n.as_i64() {
            Some(i) => ArgValue::Int(i),
            None => ArgValue::Str(n.to_string()),
        },
        serde_json::Value::String(s) => ArgValue::Str(s.clone()),
        serde_json::Value::Array(items) => ArgValue::Arr(items.iter().map(arg_of_json).collect()),
        serde_json::Value::Object(pairs) => ArgValue::Obj(
            pairs.iter().map(|(k, x)| (k.clone(), arg_of_json(x))).collect(),
        ),
    }
}

/// Converts the crate's own value tree into a `serde_json` tree, one arm per
/// variant.
#[verifier::external_body]
fn json_of_arg(v: &ArgValue) -> serde_json::Value {
    match v {
        ArgValue::Null => serde_json::Value::Null,
        ArgValue::Bool(b) => serde_json::Value::Bool(*b),
        ArgValue::Int(i) => serde_json::Value::Number(serde_json::Number::from(*i)),
        ArgValue::Str(s) => serde_json::Value::String(s.clone()),
        ArgValue::Arr(items) => serde_json::Value::Array(items.iter().map(json_of_arg).collect()),
        ArgValue::Obj(pairs) => serde_json::Value::Object(
            pairs.iter().map(|(k, x)| (k.clone(), json_of_arg(x))).collect(),
        ),
    }
}

/// Relies on `serde_json::from_slice`: parses one JSON document from bytes;
/// the result depends on the bytes alone, and a parse failure returns `None`.
#[verifier::external_body]
pub(crate) fn parse_json_bytes(b: &[u8]) -> (r: Option<ArgValue>)
    ensures
        opt_arg_model(r) == json_arg_of_bytes(b@),
{
    match serde_json::from_slice::<serde_json::Value>(b) {
        Ok(v) => Some(arg_of_json(&v)),
        Err(_) => None,
    }
}

/// Relies on `serde_json::from_str`: parses one JSON document from text;
/// the result depends on the text alone, and a parse failure returns `None`.
#[verifier::external_body]
pub(crate) fn parse_json_text(s: &str) -> (r: Option<ArgValue>)
    ensures
        opt_arg_model(r) == json_arg_of_text(s@),
{
    match serde_json::from_str::<serde_json::Value>(s) {
        Ok(v) => Some(arg_of_json(&v)),
        Err(_) => None,
    }
}

/// Relies on `serde_json::to_string`: serializes a value as one line of JSON
/// text; the text depends on the value alone. Serializing a tree built from
/// booleans, integers, strings, arrays and string-keyed maps cannot fail.
#[verifier::external_body]
pub(crate) fn to_json_text(v: &ArgValue) -> (r: String)
    ensures
        r@ == json_text_of(v@),
{
    serde_json::to_string(&json_of_arg(v)).unwrap_or_default()
}

} // verus!
