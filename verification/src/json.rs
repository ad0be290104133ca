//! What this library relies on from `serde_json::Value`, the type of a
//! property's value.

use vstd::prelude::*;

verus! {

#[verifier::external_type_specification]
#[verifier::external_body]
pub struct ExJsonValue(serde_json::Value);

/// The text that a JSON value holds when it is a JSON string, and `None` for
/// a value of any other kind: what `serde_json::Value::as_str` returns of it.
pub uninterp spec fn json_string(v: serde_json::Value) -> Option<Seq<char>>;

/// `serde_json::Value::as_str` is trusted to hand out the text of a JSON
/// string, and `None` for null, booleans, numbers, arrays and objects.
pub assume_specification[ serde_json::Value::as_str ](v: &serde_json::Value) -> (r: Option<&str>)
    ensures
        match r {
            Some(s) => json_string(*v) == Some(s@),
            None => json_string(*v) is None,
        },
;

/// `Clone` for `serde_json::Value` is trusted to give a value equal to the one
/// it was called on.
pub assume_specification[ <serde_json::Value as Clone>::clone ](v: &serde_json::Value) -> (r:
    serde_json::Value)
    ensures
        r == *v,
;

#[verifier::external_type_specification]
#[verifier::external_body]
#[verifier::reject_recursive_types(K)]
#[verifier::reject_recursive_types(V)]
pub struct ExJsonObject<K, V>(serde_json::Map<K, V>);

/// The number that a JSON value holds when it is a JSON number that is a
/// whole number from 0 to `u64::MAX`, and `None` for any other value: what
/// `serde_json::Value::as_u64` returns of it.
pub uninterp spec fn json_u64(v: serde_json::Value) -> Option<u64>;

/// The entries that a JSON value holds when it is a JSON object, and `None`
/// for a value of any other kind: those of what
/// `serde_json::Value::as_object` returns of it.
pub uninterp spec fn json_object(v: serde_json::Value) -> Option<Map<Seq<char>, serde_json::Value>>;

/// The items that a JSON value holds when it is a JSON array, and `None` for
/// a value of any other kind: those of what `serde_json::Value::as_array`
/// returns of it.
pub uninterp spec fn json_array(v: serde_json::Value) -> Option<Seq<serde_json::Value>>;

/// The entries of a `serde_json::Map`: the value of each key that it has.
pub uninterp spec fn object_entries(m: serde_json::Map<String, serde_json::Value>) -> Map<
    Seq<char>,
    serde_json::Value,
>;

/// The mapping without entries.
pub open spec fn no_entries() -> Map<Seq<char>, serde_json::Value> {
    Map::empty()
}

/// `serde_json::Value::String` is trusted to make the JSON string of a text.
#[verifier::external_body]
pub(crate) fn json_of_text(text: String) -> (v: serde_json::Value)
    ensures
        json_string(v) == Some(text@),
{
    serde_json::Value::String(text)
}

/// `serde_json::Value::from`, of a `u64`, is trusted to make the JSON number
/// that is this number.
#[verifier::external_body]
pub(crate) fn json_of_u64(n: u64) -> (v: serde_json::Value)
    ensures
        json_u64(v) == Some(n),
{
    serde_json::Value::from(n)
}

/// `serde_json::Value::Array` is trusted to make the JSON array of the items,
/// in their order.
#[verifier::external_body]
pub(crate) fn json_of_items(items: Vec<serde_json::Value>) -> (v: serde_json::Value)
    ensures
        json_array(v) == Some(items@),
{
    serde_json::Value::Array(items)
}

/// `serde_json::Value::Object` is trusted to make the JSON object with the
/// entries of the map.
#[verifier::external_body]
pub(crate) fn json_of_object(m: serde_json::Map<String, serde_json::Value>) -> (v:
    serde_json::Value)
    ensures
        json_object(v) == Some(object_entries(m)),
{
    serde_json::Value::Object(m)
}

/// `serde_json::Map::new` is trusted to make a map without entries.
#[verifier::external_body]
pub(crate) fn object_new() -> (object: serde_json::Map<String, serde_json::Value>)
    ensures
        object_entries(object) == no_entries(),
{
    serde_json::Map::new()
}

/// `serde_json::Map::insert` is trusted to set the value of the key, to leave
/// every other entry as it was, and to return the value that the key had.
#[verifier::external_body]
pub(crate) fn object_insert(
    m: &mut serde_json::Map<String, serde_json::Value>,
    key: String,
    value: serde_json::Value,
) -> (before: Option<serde_json::Value>)
    ensures
        object_entries(*final(m)) == object_entries(*old(m)).insert(key@, value),
        before == if object_entries(*old(m)).contains_key(key@) {
            Some(object_entries(*old(m))[key@])
        } else {
            None::<serde_json::Value>
        },
{
    m.insert(key, value)
}

} // verus!
