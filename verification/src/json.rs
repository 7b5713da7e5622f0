//! JSON documents as the chain validators see them.
//!
//! Upstream health responses are JSON; the validators only ever read nulls,
//! booleans, unsigned integers, strings, arrays and objects.  [`JsonValue`]
//! holds exactly that, and [`parse_json`] produces it from response bytes
//! through `serde_json`.

use vstd::prelude::*;
use crate::strutil::string_eq_str;

verus! {

/// A JSON document reduced to what the validators read.  A number that is
/// not an integer in `u64` range appears as `OtherNum`: no validator accepts
/// such a number where a tip is expected.
#[derive(Debug)]
pub enum JsonValue {
    Null,
    Bool(bool),
    Uint(u64),
    Str(String),
    Arr(Vec<JsonValue>),
    Obj(Vec<(String, JsonValue)>),
    OtherNum,
}

#[verifier::external_type_specification]
#[verifier::external_body]
pub struct ExSerdeJsonValue(serde_json::Value);

/// What JSON parsing returns on the given bytes: `None` for invalid JSON,
/// otherwise the document.  Left abstract: the parse is `serde_json`'s, and
/// every contract downstream speaks of this name.
pub uninterp spec fn json_of(b: Seq<u8>) -> Option<JsonValue>;

/// Conversion half of [`parse_json`]: rebuilds a `serde_json` document as a
/// [`JsonValue`], one arm per variant, moving fields only.  Relies on
/// `serde_json::Value` having exactly these six shapes and on
/// `serde_json::Number::as_u64` returning the stored integer when it lies in
/// `u64` range.
#[verifier::external_body]
fn value_of(v: serde_json::Value) -> JsonValue {
    match v {
        serde_json::Value::Null => JsonValue::Null,
        serde_json::Value::Bool(b) => JsonValue::Bool(b),
        serde_json::Value::Number(n) => match n.as_u64() {
            Some(u) => JsonValue::Uint(u),
            None => JsonValue::OtherNum,
        },
        serde_json::Value::String(s) => JsonValue::Str(s),
        serde_json::Value::Array(a) => JsonValue::Arr(a.into_iter().map(value_of).collect()),
        serde_json::Value::Object(m) => JsonValue::Obj(
            m.into_iter().map(|(k, x)| (k, value_of(x))).collect(),
        ),
    }
}

/// Parse bytes as one JSON document.  Relies on `serde_json::from_slice`:
/// the result is a function of the bytes alone, `None` exactly on input
/// that is not one valid JSON document (leading and trailing whitespace
/// around the document is accepted, duplicate object keys collapse to the
/// last).
#[verifier::external_body]
pub fn parse_json(b: &[u8]) -> (r: Option<JsonValue>)
    ensures
        r == json_of(b@),
{
    match serde_json::from_slice::<serde_json::Value>(b) {
        Ok(v) => Some(value_of(v)),
        Err(_) => None,
    }
}

/// The value under the first field named `name`, if any.
pub open spec fn field_of(fields: Seq<(String, JsonValue)>, name: Seq<char>) -> Option<JsonValue>
    decreases fields.len(),
{
    if fields.len() == 0 {
        None
    } else if fields[0].0@ == name {
        Some(fields[0].1)
    } else {
        field_of(fields.drop_first(), name)
    }
}

/// The value under field `name` of an object; `None` when `v` is not an
/// object or has no such field.
pub open spec fn obj_field(v: JsonValue, name: Seq<char>) -> Option<JsonValue> {
    match v {
        JsonValue::Obj(fields) => field_of(fields@, name),
        _ => None,
    }
}

/// Look up a field of a JSON object by name.
#[verifier::loop_isolation(false)]
pub fn get_field<'a>(v: &'a JsonValue, name: &str) -> (r: Option<&'a JsonValue>)
    ensures
        match r {
            Some(x) => obj_field(*v, name@) == Some(*x),
            None => obj_field(*v, name@) is None,
        },
{
    match v {
        JsonValue::Obj(fields) => {
            let n = fields.len();
            let mut i: usize = 0;
            proof {
                assert(fields@.skip(0) =~= fields@);
            }
            while i < n
                invariant
                    i <= n,
                    n == fields.len(),
                    field_of(fields@, name@) == field_of(fields@.skip(i as int), name@),
                decreases n - i,
            {
                proof {
                    assert(fields@.skip(i as int).drop_first() =~= fields@.skip(i as int + 1));
                }
                if string_eq_str(&fields[i].0, name) {
                    proof {
                        assert(fields@.skip(i as int)[0] == fields@[i as int]);
                        assert(field_of(fields@.skip(i as int), name@) == Some(
                            fields@[i as int].1,
                        ));
                    }
                    return Some(&fields[i].1);
                }
                i = i + 1;
            }
            proof {
                assert(fields@.skip(n as int) =~= Seq::<(String, JsonValue)>::empty());
            }
            None
        },
        _ => None,
    }
}

} // verus!
