//! Parsing of JSON text into the crate's document model.
//!
//! The grammar work is done by the `serde_json` crate; this module only
//! converts its tree into [`JsonValue`]. A document whose numbers are not
//! all unsigned integers is rejected, as is malformed text: the model of
//! this crate holds no floats and no signed numbers.

use serde_json::Value;
use vstd::prelude::*;
use crate::json::JsonValue;

verus! {

/// The parsed tree of the `serde_json` crate, opaque to the verifier; it is
/// only ever carried from the parser into [`convert_parsed`].
#[verifier::external_type_specification]
#[verifier::external_body]
pub struct ExValue(Value);

/// What parsing a given piece of text yields: `None` for text that is not
/// accepted, `Some` for the document it denotes. Parsing is a function of
/// the text alone.
pub uninterp spec fn parsed_json(s: Seq<char>) -> Option<JsonValue>;

/// Relies on `serde_json::from_str::<serde_json::Value>`: it parses the text
/// into a JSON tree, deterministically in the text alone, with object members
/// ordered by key. The tree is then converted member for member into the
/// crate's model by [`convert_parsed`]; a number that is not an unsigned
/// integer makes the conversion fail.
#[verifier::external_body]
pub(crate) fn parse_json(s: &str) -> (r: Option<JsonValue>)
    ensures
        r == parsed_json(s@),
{
    match serde_json::from_str::<serde_json::Value>(s) {
        Ok(v) => convert_parsed(&v),
        Err(_) => None,
    }
}

/// Relies on `serde_json::Value` and `serde_json::Number::as_u64`: each
/// variant of the parsed tree is carried over to the matching variant of
/// [`JsonValue`], and a number is kept only when it is an unsigned integer.
#[verifier::external_body]
fn convert_parsed(v: &Value) -> (r: Option<JsonValue>) {
    match v {
        Value::Null => Some(JsonValue::Null),
        Value::Bool(b) => Some(JsonValue::Bool(*b)),
        Value::Number(n) => n.as_u64().map(JsonValue::UInt),
        Value::String(s) => Some(JsonValue::Str(s.clone())),
        Value::Array(a) => a.iter().map(convert_parsed).collect::<Option<_>>().map(
            JsonValue::Array,
        ),
        Value::Object(m) => m.iter().map(
            |(k, x)| convert_parsed(x).map(|j| (k.clone(), j)),
        ).collect::<Option<_>>().map(JsonValue::Object),
    }
}

} // verus!
