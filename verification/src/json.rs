//! A JSON value as the tool-call logic reads it, and what `serde_json`
//! reads from a text and writes for a value.

use vstd::prelude::*;
use crate::text::{push_str, str_eq};

verus! {

/// A JSON value. Numbers keep the text they are written with; object
/// members keep their order (`serde_json` keeps them sorted by key).
pub enum JsonValue {
    Null,
    Bool(bool),
    Number(String),
    Str(String),
    Array(Vec<JsonValue>),
    Object(Vec<(String, JsonValue)>),
}

/// The value of the first member of `fields` named `key`.
pub open spec fn field_of(fields: Seq<(String, JsonValue)>, key: Seq<char>) -> Option<JsonValue>
    decreases fields.len(),
{
    if fields.len() == 0 {
        None
    } else if fields[0].0@ == key {
        Some(fields[0].1)
    } else {
        field_of(fields.drop_first(), key)
    }
}

/// The text of member `key` when it is a JSON string.
pub open spec fn str_field_of(fields: Seq<(String, JsonValue)>, key: Seq<char>) -> Option<Seq<char>> {
    match field_of(fields, key) {
        Some(JsonValue::Str(s)) => Some(s@),
        _ => None,
    }
}

/// `map.get(key).and_then(Value::as_str)`, copied.
pub fn get_str_field(fields: &Vec<(String, JsonValue)>, key: &str) -> (r: Option<String>)
    ensures
        match r {
            Some(s) => str_field_of(fields@, key@) == Some(s@),
            None => str_field_of(fields@, key@) is None,
        },
{
    let mut i: usize = 0;
    assert(fields@.skip(0) =~= fields@);
    while i < fields.len()
        invariant
            i <= fields@.len(),
            field_of(fields@, key@) == field_of(fields@.skip(i as int), key@),
        decreases fields.len() - i,
    {
        let ghost rest = fields@.skip(i as int);
        assert(rest[0] == fields@[i as int]);
        if str_eq(fields[i].0.as_str(), key) {
            return match &fields[i].1 {
                JsonValue::Str(s) => Some(s.clone()),
                _ => None,
            };
        }
        assert(rest.drop_first() =~= fields@.skip(i + 1));
        i = i + 1;
    }
    assert(fields@.skip(i as int).len() == 0);
    None
}

/// `fields` with member `key` set to `value`: replaced where it is, or
/// added at the end.
pub open spec fn with_field(
    fields: Seq<(String, JsonValue)>,
    key: String,
    value: JsonValue,
) -> Seq<(String, JsonValue)>
    decreases fields.len(),
{
    if fields.len() == 0 {
        seq![(key, value)]
    } else if fields[0].0@ == key@ {
        seq![(fields[0].0, value)] + fields.drop_first()
    } else {
        seq![fields[0]] + with_field(fields.drop_first(), key, value)
    }
}

/// `map.insert(key, value)` on an object's members (see `with_field`).
pub fn set_field(fields: &mut Vec<(String, JsonValue)>, key: String, value: JsonValue)
    ensures
        final(fields)@ == with_field(old(fields)@, key, value),
{
    let ghost f0 = fields@;
    let mut i: usize = 0;
    assert(f0.take(0) =~= Seq::<(String, JsonValue)>::empty());
    assert(f0.skip(0) =~= f0);
    while i < fields.len()
        invariant
            fields@ == f0,
            old(fields)@ == f0,
            i <= f0.len(),
            forall|k: int| 0 <= k < i ==> #[trigger] f0[k].0@ != key@,
            with_field(f0, key, value) == f0.take(i as int) + with_field(f0.skip(i as int), key, value),
        decreases fields.len() - i,
    {
        let ghost rest = f0.skip(i as int);
        assert(rest[0] == f0[i as int]);
        assert(rest.drop_first() =~= f0.skip(i + 1));
        if str_eq(fields[i].0.as_str(), key.as_str()) {
            assert(rest.len() > 0 && rest[0].0@ == key@);
            assert(with_field(rest, key, value) == seq![(rest[0].0, value)] + rest.drop_first());
            let old_entry = fields.remove(i);
            fields.insert(i, (old_entry.0, value));
            assert(fields@ =~= f0.take(i as int) + (seq![(f0[i as int].0, value)] + rest.drop_first()));
            assert(with_field(f0, key, value) == f0.take(i as int) + with_field(rest, key, value));
            assert(fields@ =~= with_field(f0, key, value));
            return ;
        }
        assert(f0.take(i + 1) + with_field(f0.skip(i + 1), key, value) =~= f0.take(i as int) + (seq![
            f0[i as int],
        ] + with_field(rest.drop_first(), key, value)));
        i = i + 1;
    }
    assert(f0.take(i as int) =~= f0);
    assert(f0.skip(i as int) =~= Seq::<(String, JsonValue)>::empty());
    fields.push((key, value));
    assert(fields@ =~= f0 + seq![(key, value)]);
}

/// The JSON string literal `serde_json::to_string` writes for the text `s`.
pub uninterp spec fn json_quote(s: Seq<char>) -> Seq<char>;

/// `serde_json::to_string` on a string. Serializing a string cannot fail;
/// what it writes is left to the name `json_quote`.
#[verifier::external_body]
fn quote_json(s: &str) -> (r: String)
    ensures
        r@ == json_quote(s@),
{
    serde_json::to_string(s).unwrap_or_default()
}

/// Appends the JSON string literal for `s`.
pub fn push_json_string(out: &mut String, s: &str)
    ensures
        final(out)@ == old(out)@ + json_quote(s@),
{
    let q = quote_json(s);
    push_str(out, q.as_str());
}

/// The compact JSON text `serde_json::to_string` writes for `v` once it is
/// a `serde_json::Value`.
pub uninterp spec fn json_text(v: JsonValue) -> Seq<char>;

/// A library value as a `serde_json` value; a number text that is not a
/// JSON number becomes null.
#[verifier::external_body]
fn json_to_serde(v: &JsonValue) -> serde_json::Value {
    match v {
        JsonValue::Null => serde_json::Value::Null,
        JsonValue::Bool(b) => serde_json::Value::Bool(*b),
        JsonValue::Number(n) => n.parse::<serde_json::Number>().map_or(serde_json::Value::Null, serde_json::Value::Number),
        JsonValue::Str(s) => serde_json::Value::String(s.clone()),
        JsonValue::Array(a) => serde_json::Value::Array(a.iter().map(json_to_serde).collect()),
        JsonValue::Object(m) => serde_json::Value::Object(m.iter().map(|(k, x)| (k.clone(), json_to_serde(x))).collect()),
    }
}

/// `serde_json::to_string` of a value taken into a `serde_json::Value`.
/// Serializing a `serde_json::Value` cannot fail (its map keys are
/// strings); what it writes is left to the name `json_text`.
#[verifier::external_body]
pub(crate) fn to_json_string(v: &JsonValue) -> (r: String)
    ensures
        r@ == json_text(*v),
{
    serde_json::to_string(&json_to_serde(v)).unwrap_or_default()
}

// ---------------------------------------------------------------------------
// Reading JSON text
// ---------------------------------------------------------------------------

#[verifier::external_type_specification]
#[verifier::external_body]
pub struct ExSerdeValue(serde_json::Value);

/// What serde_json reads from `text`, converted, or its error message.
pub uninterp spec fn json_read(text: Seq<char>) -> Result<JsonValue, Seq<char>>;

/// A read result with its error message taken as text.
pub open spec fn read_view(r: Result<JsonValue, String>) -> Result<JsonValue, Seq<char>> {
    match r {
        Ok(v) => Ok(v),
        Err(e) => Err(e@),
    }
}

/// A `serde_json` value in the library's form: numbers keep the text
/// `serde_json` writes for them, object members keep its order.
#[verifier::external_body]
pub(crate) fn json_from_serde(v: &serde_json::Value) -> JsonValue {
    match v {
        serde_json::Value::Null => JsonValue::Null,
        serde_json::Value::Bool(b) => JsonValue::Bool(*b),
        serde_json::Value::Number(n) => JsonValue::Number(n.to_string()),
        serde_json::Value::String(s) => JsonValue::Str(s.clone()),
        serde_json::Value::Array(a) => JsonValue::Array(a.iter().map(json_from_serde).collect()),
        serde_json::Value::Object(m) => JsonValue::Object(m.iter().map(|(k, x)| (k.clone(), json_from_serde(x))).collect()),
    }
}

/// `serde_json::from_str::<Value>` on `text`, the value converted and the
/// error given as its message. What it reads is left to the name
/// `json_read`.
#[verifier::external_body]
pub(crate) fn read_json(text: &str) -> (r: Result<JsonValue, String>)
    ensures
        match r {
            Ok(v) => json_read(text@) == Ok::<JsonValue, Seq<char>>(v),
            Err(e) => json_read(text@) == Err::<JsonValue, Seq<char>>(e@),
        },
{
    match serde_json::from_str::<serde_json::Value>(text) {
        Ok(v) => Ok(json_from_serde(&v)),
        Err(e) => Err(e.to_string()),
    }
}

} // verus!
