//! JSON values of `serde_json`, and what is known of them.
use vstd::prelude::*;

verus! {

/// What a JSON value holds. A number is kept as the text that JSON writes for it; the order of an
/// object's members is left out.
#[verifier::ext_equal]
pub enum JsonView {
    Null,
    Bool(bool),
    Number(Seq<char>),
    Text(Seq<char>),
    Array(Seq<JsonView>),
    Object(Map<Seq<char>, JsonView>),
}

/// `serde_json::Value`, opaque but for its contents, `json`.
#[verifier::external_type_specification]
#[verifier::external_body]
pub struct ExValue(serde_json::Value);

/// `serde_json::Map`, opaque but for its contents, `members`.
#[verifier::external_type_specification]
#[verifier::external_body]
#[verifier::reject_recursive_types(K)]
#[verifier::reject_recursive_types(V)]
pub struct ExMap<K, V>(serde_json::Map<K, V>);

/// `serde_json::Error`, of which nothing is read.
#[verifier::external_type_specification]
#[verifier::external_body]
pub struct ExError(serde_json::Error);

/// What a `serde_json::Value` holds.
pub uninterp spec fn json(value: serde_json::Value) -> JsonView;

/// What a `serde_json::Map` holds: its members by their keys.
pub uninterp spec fn members(map: serde_json::Map<String, serde_json::Value>) -> Map<Seq<char>, JsonView>;

/// What `serde_json::from_str` reads out of a text: `None` where the text is no JSON that it takes.
pub uninterp spec fn parsed_json(text: Seq<char>) -> Option<JsonView>;

/// What each of several values holds.
pub open spec fn jsons(values: Seq<serde_json::Value>) -> Seq<JsonView> {
    values.map_values(|value: serde_json::Value| json(value))
}

/// What a value holds, where there is one.
pub open spec fn json_of(value: Option<serde_json::Value>) -> Option<JsonView> {
    match value {
        Some(value) => Some(json(value)),
        None => None,
    }
}

/// What each of several values holds, where there are any to speak of.
pub open spec fn jsons_of(values: Option<Vec<serde_json::Value>>) -> Option<Seq<JsonView>> {
    match values {
        Some(values) => Some(jsons(values@)),
        None => None,
    }
}

/// The text that a value is, if it is one.
pub open spec fn text_in(value: JsonView) -> Option<Seq<char>> {
    match value {
        JsonView::Text(text) => Some(text),
        _ => None,
    }
}

/// The member of a value under a key: only objects have members.
pub open spec fn member_in(value: JsonView, key: Seq<char>) -> Option<JsonView> {
    match value {
        JsonView::Object(members) => if members.contains_key(key) {
            Some(members[key])
        } else {
            None
        },
        _ => None,
    }
}

/// `serde_json::Map::new` makes a map without members.
pub assume_specification[ serde_json::Map::<String, serde_json::Value>::new ]() -> (fresh: serde_json::Map<String, serde_json::Value>)
    ensures
        members(fresh) == (Map::<Seq<char>, JsonView>::empty()),
;

/// `serde_json::Map::insert` puts a value under a key, in the place of the value that was there,
/// and hands that one back.
pub assume_specification[ serde_json::Map::<String, serde_json::Value>::insert ](
    map: &mut serde_json::Map<String, serde_json::Value>,
    k: String,
    v: serde_json::Value,
) -> (previous: Option<serde_json::Value>)
    ensures
        members(*final(map)) == members(*old(map)).insert(k@, json(v)),
        json_of(previous) == member_in(JsonView::Object(members(*old(map))), k@),
;

/// `serde_json::Value::as_object_mut` gives the map of an object, which stays a part of the value:
/// what is done to the map is done to the object. Of any other value it gives `None`.
pub assume_specification[ serde_json::Value::as_object_mut ](value: &mut serde_json::Value) -> (map: Option<
    &mut serde_json::Map<String, serde_json::Value>,
>)
    ensures
        match map {
            Some(map) => {
                &&& json(*old(value)) == JsonView::Object(members(*map))
                &&& json(*final(value)) == JsonView::Object(members(*final(map)))
            },
            None => json(*old(value)) !is Object && *final(value) == *old(value),
        },
;

/// `serde_json::Value::as_str` gives the text of a string, and `None` of any other value.
pub assume_specification[ serde_json::Value::as_str ](value: &serde_json::Value) -> (text: Option<&str>)
    ensures
        match text {
            Some(text) => text_in(json(*value)) == Some(text@),
            None => text_in(json(*value)) is None,
        },
;

/// The derived `clone` of `serde_json::Value` copies the whole value.
pub assume_specification[ <serde_json::Value as Clone>::clone ](value: &serde_json::Value) -> (copy: serde_json::Value)
    ensures
        json(copy) == json(*value),
;

/// `serde_json::Value::get` with a text for its index looks up a member of an object by its key.
/// Of a value that is no object, or has no such member, it gives `None`.
#[verifier::external_body]
pub(crate) fn member<'a>(value: &'a serde_json::Value, key: &str) -> (found: Option<&'a serde_json::Value>)
    ensures
        match found {
            Some(found) => member_in(json(*value), key@) == Some(json(*found)),
            None => member_in(json(*value), key@) is None,
        },
{
    value.get(key)
}

/// `serde_json::Value::String` makes a text a value.
#[verifier::external_body]
pub(crate) fn text_value(text: String) -> (value: serde_json::Value)
    ensures
        json(value) == JsonView::Text(text@),
{
    serde_json::Value::String(text)
}

/// `serde_json::Value::Bool` makes a truth value a value.
#[verifier::external_body]
pub(crate) fn bool_value(flag: bool) -> (value: serde_json::Value)
    ensures
        json(value) == JsonView::Bool(flag),
{
    serde_json::Value::Bool(flag)
}

/// `serde_json::Value::Array` makes a value of a list of values, in their order.
#[verifier::external_body]
pub(crate) fn array_value(items: Vec<serde_json::Value>) -> (value: serde_json::Value)
    ensures
        json(value) == JsonView::Array(jsons(items@)),
{
    serde_json::Value::Array(items)
}

/// `serde_json::Value::Object` makes a value of a map.
#[verifier::external_body]
pub(crate) fn object_value(map: serde_json::Map<String, serde_json::Value>) -> (value: serde_json::Value)
    ensures
        json(value) == JsonView::Object(members(map)),
{
    serde_json::Value::Object(map)
}

/// `serde_json::from_str`, asked for a `serde_json::Value`, reads a text as JSON. What it reads is
/// a function of the text alone, here called `parsed_json`: the grammar is not stated.
#[verifier::external_body]
pub(crate) fn parse_json(text: &str) -> (value: Result<serde_json::Value, serde_json::Error>)
    ensures
        match value {
            Ok(value) => parsed_json(text@) == Some(json(value)),
            Err(_) => parsed_json(text@) is None,
        },
{
    serde_json::from_str::<serde_json::Value>(text)
}

} // verus!
