use vstd::prelude::*;

verus! {

/// A parsed JSON document, modeled with plain values. The protocol layer
/// only ever reads booleans, unsigned integers, strings, arrays and objects
/// out of inbound frames, so numbers that do not fit in `u64` are kept only
/// as the fact that some other number was present.
#[derive(Debug)]
pub enum JsonValue {
    Null,
    Bool(bool),
    /// A non-negative integer that fits in 64 bits.
    UInt(u64),
    /// Any other JSON number (negative or fractional); the protocol never
    /// reads its value.
    OtherNumber,
    Str(String),
    Arr(Vec<JsonValue>),
    Obj(Vec<(String, JsonValue)>),
}

/// The first value bound to `key` in an object's field list, if any.
/// Objects produced by parsing have unique keys, so "first" is "the" binding.
pub open spec fn spec_lookup(fields: Seq<(String, JsonValue)>, key: Seq<char>) -> Option<JsonValue>
    decreases fields.len(),
{
    if fields.len() == 0 {
        None
    } else if fields[0].0@ == key {
        Some(fields[0].1)
    } else {
        spec_lookup(fields.drop_first(), key)
    }
}

#[verifier::external_type_specification]
#[verifier::external_body]
pub struct ExSerdeValue(serde_json::Value);

/// What parsing a given text as JSON yields: `None` when the text is not
/// valid JSON, otherwise the parsed document. The result depends on the
/// text alone; it is pinned down only by `parse_json` below.
pub uninterp spec fn json_of(text: Seq<char>) -> Option<JsonValue>;

/// Relies on `serde_json::from_str::<serde_json::Value>`: parses the text
/// as JSON, deterministically in the text alone, yielding `Err` exactly on
/// invalid JSON. The parsed tree is carried over into the crate's own model
/// by `json_from_value`.
#[verifier::external_body]
pub(crate) fn parse_json(text: &str) -> (r: Option<JsonValue>)
    ensures
        r == json_of(text@),
{
    match serde_json::from_str::<serde_json::Value>(text) {
        Ok(v) => Some(json_from_value(v)),
        Err(_) => None,
    }
}

/// Relies on `serde_json::Value` (variant shape) and `serde_json::Number::as_u64`:
/// converts the parsed tree into the crate's own model, one variant arm each,
/// moving the fields. Called only from `parse_json`.
#[verifier::external_body]
fn json_from_value(v: serde_json::Value) -> JsonValue {
    match v {
        serde_json::Value::Null => JsonValue::Null,
        serde_json::Value::Bool(b) => JsonValue::Bool(b),
        serde_json::Value::Number(n) => match n.as_u64() {
            Some(u) => JsonValue::UInt(u),
            None => JsonValue::OtherNumber,
        },
        serde_json::Value::String(s) => JsonValue::Str(s),
        serde_json::Value::Array(a) => JsonValue::Arr(a.into_iter().map(json_from_value).collect()),
        serde_json::Value::Object(m) => JsonValue::Obj(
            m.into_iter().map(|(k, val)| (k, json_from_value(val))).collect(),
        ),
    }
}

/// Look `key` up in an object's field list.
pub fn obj_get<'a>(fields: &'a Vec<(String, JsonValue)>, key: &str) -> (r: Option<&'a JsonValue>)
    ensures
        match r {
            Some(v) => spec_lookup(fields@, key@) == Some(*v),
            None => spec_lookup(fields@, key@) is None,
        },
{
    let key_string = String::from_str(key);
    let mut i: usize = 0;
    proof {
        assert(fields@.skip(0) =~= fields@);
    }
    while i < fields.len()
        invariant
            0 <= i <= fields@.len(),
            key_string@ == key@,
            spec_lookup(fields@, key@) == spec_lookup(fields@.skip(i as int), key@),
        decreases fields@.len() - i,
    {
        if fields[i].0 == key_string {
            proof {
                assert(fields@.skip(i as int)[0] == fields@[i as int]);
            }
            return Some(&fields[i].1);
        }
        proof {
            assert(fields@.skip(i as int).drop_first() =~= fields@.skip(i as int + 1));
        }
        i = i + 1;
    }
    proof {
        assert(fields@.skip(i as int).len() == 0);
    }
    None
}

} // verus!
