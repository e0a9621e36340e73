//! A JSON document as a plain tree, produced by `serde_json` behind one
//! trusted boundary. The decoders walk this tree in verified code; nothing
//! else in the crate touches the outside parser.

use vstd::prelude::*;

use crate::text::str_eq_str;

verus! {

/// A parsed JSON document. Numbers keep their shape: unsigned and signed
/// integers are plain values, every other number is kept as its literal
/// text, so that no floating point enters the crate.
#[derive(Debug, PartialEq)]
pub enum JsonValue {
    Null,
    Bool(bool),
    /// A number that fits an unsigned 64-bit integer.
    UInt(u64),
    /// A negative number that fits a signed 64-bit integer.
    Int(i64),
    /// Any other number, as its literal text.
    NumText(String),
    Str(String),
    Arr(Vec<JsonValue>),
    Obj(Vec<(String, JsonValue)>),
}

/// What parsing the given text yields: the tree for well-formed JSON, and
/// nothing for ill-formed text. The result is a function of the text alone;
/// only the trusted parser below says anything about it.
pub uninterp spec fn json_parse(s: Seq<char>) -> Option<JsonValue>;

#[verifier::external_type_specification]
#[verifier::external_body]
pub struct ExSerdeValue(serde_json::Value);

/// Relies on `serde_json::from_str::<serde_json::Value>`: well-formed JSON
/// text parses to its document tree, ill-formed text to an error, and the
/// outcome depends on the text alone.
#[verifier::external_body]
pub fn parse_json(s: &str) -> (r: Option<JsonValue>)
    ensures
        r == json_parse(s@),
{
    match serde_json::from_str::<serde_json::Value>(s) {
        Ok(v) => Some(value_tree(v)),
        Err(_) => None,
    }
}

/// Relies on `serde_json::Value` (one arm per variant, fields moved) and on
/// `serde_json::Number::{as_u64, as_i64, to_string}` to read each number in
/// the one shape it has.
#[verifier::external_body]
fn value_tree(v: serde_json::Value) -> JsonValue {
    match v {
        serde_json::Value::Null => JsonValue::Null,
        serde_json::Value::Bool(b) => JsonValue::Bool(b),
        serde_json::Value::Number(n) => match (n.as_u64(), n.as_i64()) {
            (Some(u), _) => JsonValue::UInt(u),
            (None, Some(i)) => JsonValue::Int(i),
            (None, None) => JsonValue::NumText(n.to_string()),
        },
        serde_json::Value::String(s) => JsonValue::Str(s),
        serde_json::Value::Array(a) => JsonValue::Arr(a.into_iter().map(value_tree).collect()),
        serde_json::Value::Object(m) => JsonValue::Obj(
            m.into_iter().map(|(k, w)| (k, value_tree(w))).collect(),
        ),
    }
}

/// The value under the first binding of key `k`, if any.
pub open spec fn spec_lookup(fields: Seq<(String, JsonValue)>, k: Seq<char>) -> Option<JsonValue>
    decreases fields.len(),
{
    if fields.len() == 0 {
        None
    } else if fields[0].0@ == k {
        Some(fields[0].1)
    } else {
        spec_lookup(fields.drop_first(), k)
    }
}

/// Finds the first binding of key `k` in an object's fields.
pub fn lookup<'a>(fields: &'a Vec<(String, JsonValue)>, k: &str) -> (r: Option<&'a JsonValue>)
    ensures
        match r {
            Some(v) => spec_lookup(fields@, k@) == Some(*v),
            None => spec_lookup(fields@, k@) is None,
        },
{
    let mut i: usize = 0;
    proof {
        assert(fields@.skip(0) =~= fields@);
    }
    while i < fields.len()
        invariant
            i <= fields@.len(),
            spec_lookup(fields@, k@) == spec_lookup(fields@.skip(i as int), k@),
        decreases fields@.len() - i,
    {
        proof {
            assert(fields@.skip(i as int)[0] == fields@[i as int]);
        }
        if str_eq_str(fields[i].0.as_str(), k) {
            return Some(&fields[i].1);
        }
        proof {
            assert(fields@.skip(i as int).drop_first() =~= fields@.skip(i as int + 1));
        }
        i = i + 1;
    }
    None
}

} // verus!
