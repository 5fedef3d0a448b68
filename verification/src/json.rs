//! The boundary to `serde_json`: JSON values stay values of that crate, and
//! the contracts here say what its functions do in terms of [`JsonTree`].
//!
//! Nothing in this file is proved. Each item names the function of
//! `serde_json` it stands for and says what is taken on trust about it.
use crate::tree::{member, member_index, JsonTree};
use serde_json::Value;
use vstd::prelude::*;

verus! {

/// `serde_json::Value`, a JSON document in memory. Verus sees nothing inside
/// it; [`json_tree`] names what it holds.
#[verifier::external_type_specification]
#[verifier::external_body]
pub struct ExValue(serde_json::Value);

/// `serde_json::Map`, the members of a JSON object. With the crate's
/// `preserve_order` feature, which this library builds with, it keeps its
/// entries in the order in which their keys were first inserted.
/// [`object_members`] names what it holds.
#[verifier::external_type_specification]
#[verifier::external_body]
#[verifier::reject_recursive_types(K)]
#[verifier::reject_recursive_types(V)]
pub struct ExMap<K, V>(serde_json::Map<K, V>);

/// `serde_json::Error`, the reason a text was not read as JSON.
#[verifier::external_type_specification]
#[verifier::external_body]
pub struct ExJsonError(serde_json::Error);

/// The tree that a `Value` holds.
pub uninterp spec fn json_tree(value: Value) -> JsonTree;

/// The members that a `Map` holds, in the map's order.
pub uninterp spec fn object_members(map: serde_json::Map<String, Value>) -> Seq<
    (Seq<char>, JsonTree),
>;

/// What `serde_json::from_str` reads from a text: the tree of the value it
/// returns, or `None` where it returns an error.
pub uninterp spec fn json_parsed(text: Seq<char>) -> Option<JsonTree>;

/// The compact text that `serde_json` writes for a value holding `tree`.
pub uninterp spec fn json_rendered(tree: JsonTree) -> Seq<char>;

/// `serde_json::from_str::<Value>`. Trusted: whether it succeeds and the tree
/// of the value it returns depend on the text alone, and are what
/// [`json_parsed`] names.
#[verifier::external_body]
pub(crate) fn parse_json(text: &str) -> (parsed: Result<Value, serde_json::Error>)
    ensures
        match parsed {
            Ok(value) => json_parsed(text@) == Some(json_tree(value)),
            Err(_) => json_parsed(text@) is None,
        },
{
    serde_json::from_str::<Value>(text)
}

/// `Value`'s `Display` in its plain form (`to_string`), which writes the value
/// as compact JSON, as `serde_json::to_string` does. Trusted: the text depends
/// on the tree alone, and is what [`json_rendered`] names.
#[verifier::external_body]
pub(crate) fn render_json(value: &Value) -> (text: String)
    ensures
        text@ == json_rendered(json_tree(*value)),
{
    value.to_string()
}

/// `Value::as_object`: the map of an object, `None` for any other value.
pub assume_specification[ serde_json::Value::as_object ](value: &Value) -> (map: Option<
    &serde_json::Map<String, Value>,
>)
    ensures
        match map {
            Some(m) => json_tree(*value) == JsonTree::Object(object_members(*m)),
            None => !(json_tree(*value) is Object),
        },
;

/// `Value::as_str`: the text of a string, `None` for any other value.
pub assume_specification[ serde_json::Value::as_str ](value: &Value) -> (text: Option<&str>)
    ensures
        match text {
            Some(s) => json_tree(*value) == JsonTree::Text(s@),
            None => !(json_tree(*value) is Text),
        },
;

/// `Value::as_u64`: the number, where the value is an integer from 0 to
/// `u64::MAX`; `None` for any other value.
pub assume_specification[ serde_json::Value::as_u64 ](value: &Value) -> (number: Option<u64>)
    ensures
        match number {
            Some(n) => json_tree(*value) == JsonTree::Integer(n as int),
            None => !(json_tree(*value) matches JsonTree::Integer(n) && 0 <= n <= u64::MAX),
        },
;

/// `Value::as_i64`: the number, where the value is an integer from `i64::MIN`
/// to `i64::MAX`; `None` for any other value.
pub assume_specification[ serde_json::Value::as_i64 ](value: &Value) -> (number: Option<i64>)
    ensures
        match number {
            Some(n) => json_tree(*value) == JsonTree::Integer(n as int),
            None => !(json_tree(*value) matches JsonTree::Integer(n) && i64::MIN <= n <= i64::MAX),
        },
;

/// `Value::from(String)`: a string value with that text.
pub assume_specification[ <Value as From<String>>::from ](text: String) -> (value: Value)
    ensures
        json_tree(value) == JsonTree::Text(text@),
;

/// `Value::from(u64)`: a number value, that integer.
pub assume_specification[ <Value as From<u64>>::from ](number: u64) -> (value: Value)
    ensures
        json_tree(value) == JsonTree::Integer(number as int),
;

/// `Value::from(i64)`: a number value, that integer.
pub assume_specification[ <Value as From<i64>>::from ](number: i64) -> (value: Value)
    ensures
        json_tree(value) == JsonTree::Integer(number as int),
;

/// `Value::from(Map)`: an object value with the map's members.
pub assume_specification[ <Value as From<serde_json::Map<String, Value>>>::from ](
    map: serde_json::Map<String, Value>,
) -> (value: Value)
    ensures
        json_tree(value) == JsonTree::Object(object_members(map)),
;

/// `Map::new`: a map without members.
pub assume_specification[ serde_json::Map::<String, Value>::new ]() -> (map: serde_json::Map<
    String,
    Value,
>)
    ensures
        object_members(map) == Seq::<(Seq<char>, JsonTree)>::empty(),
;

/// `Map::len`: the number of members.
pub assume_specification[ serde_json::Map::<String, Value>::len ](
    map: &serde_json::Map<String, Value>,
) -> (count: usize)
    ensures
        count == object_members(*map).len(),
;

/// `Map::insert`. A key that the map lacks is added behind the members it
/// has, and `None` comes back; under a key that it has, the value is replaced
/// where it stands, and the value that stood there comes back.
pub assume_specification[ serde_json::Map::<String, Value>::insert ](
    map: &mut serde_json::Map<String, Value>,
    k: String,
    v: Value,
) -> (previous: Option<Value>)
    ensures
        match member_index(object_members(*old(map)), k@) {
            None => {
                &&& previous is None
                &&& object_members(*final(map)) == object_members(*old(map)).push(
                    (k@, json_tree(v)),
                )
            },
            Some(i) => {
                &&& previous matches Some(p) && json_tree(p) == object_members(*old(map))[i].1
                &&& object_members(*final(map)) == object_members(*old(map)).update(
                    i,
                    (k@, json_tree(v)),
                )
            },
        },
;

/// `Map::get` with a `&str` key: the value under that key, `None` where the
/// map has no such key. The map holds each key once, so that is the first
/// member of that name.
#[verifier::external_body]
pub(crate) fn member_value<'a>(map: &'a serde_json::Map<String, Value>, key: &str) -> (found:
    Option<&'a Value>)
    ensures
        match found {
            Some(value) => member(object_members(*map), key@) == Some(json_tree(*value)),
            None => member(object_members(*map), key@) is None,
        },
{
    map.get(key)
}

} // verus!
