//! JSON values as `serde_json` holds them, and how they are read.

use vstd::prelude::*;

verus! {

/// What a JSON value holds, as far as this library reads it.
///
/// Numbers carry no payload: no schema field is a number. An object is the
/// sequence of its members in the order in which the map hands them out;
/// no key occurs twice.
pub enum Json {
    Null,
    Bool(bool),
    Number,
    Text(Seq<char>),
    Array(Seq<Json>),
    Object(Seq<(Seq<char>, Json)>),
}

#[verifier::external_type_specification]
#[verifier::external_body]
pub struct ExValue(serde_json::Value);

#[verifier::external_type_specification]
#[verifier::external_body]
#[verifier::reject_recursive_types(K)]
#[verifier::reject_recursive_types(V)]
pub struct ExMap<K, V>(serde_json::Map<K, V>);

#[verifier::external_type_specification]
#[verifier::external_body]
pub struct ExError(serde_json::Error);

/// The JSON value that a `serde_json::Value` holds.
pub uninterp spec fn json_of(value: serde_json::Value) -> Json;

/// The members of a `serde_json::Map`, in its iteration order.
pub uninterp spec fn members_of(map: serde_json::Map<String, serde_json::Value>) -> Seq<
    (Seq<char>, Json),
>;

/// The JSON value that `serde_json` reads from `text`, or `None` where it
/// rejects the text.
pub uninterp spec fn parsed(text: Seq<char>) -> Option<Json>;

/// Whether some member has the key `key`.
pub open spec fn has_member(members: Seq<(Seq<char>, Json)>, key: Seq<char>) -> bool {
    exists|i: int| 0 <= i < members.len() && (#[trigger] members[i]).0 == key
}

/// The position of the member with the key `key`, where there is one.
pub open spec fn member_index(members: Seq<(Seq<char>, Json)>, key: Seq<char>) -> int {
    choose|i: int| 0 <= i < members.len() && (#[trigger] members[i]).0 == key
}

/// The value under `key`, if the members have that key.
pub open spec fn member(members: Seq<(Seq<char>, Json)>, key: Seq<char>) -> Option<Json> {
    if has_member(members, key) {
        Some(members[member_index(members, key)].1)
    } else {
        None
    }
}

/// The text under `key`, where the members hold a string there.
pub open spec fn text_member(members: Seq<(Seq<char>, Json)>, key: Seq<char>) -> Option<
    Seq<char>,
> {
    match member(members, key) {
        Some(Json::Text(text)) => Some(text),
        _ => None,
    }
}

/// The elements under `key`, where the members hold an array there.
pub open spec fn array_member(members: Seq<(Seq<char>, Json)>, key: Seq<char>) -> Option<
    Seq<Json>,
> {
    match member(members, key) {
        Some(Json::Array(items)) => Some(items),
        _ => None,
    }
}

/// The members under `key`, where the members hold an object there.
pub open spec fn object_member(members: Seq<(Seq<char>, Json)>, key: Seq<char>) -> Option<
    Seq<(Seq<char>, Json)>,
> {
    match member(members, key) {
        Some(Json::Object(inner)) => Some(inner),
        _ => None,
    }
}

/// The member at `at` is the value under its key, where no other member
/// has that key.
pub proof fn lemma_member_at(members: Seq<(Seq<char>, Json)>, at: int)
    requires
        0 <= at < members.len(),
        forall|i: int| 0 <= i < members.len() && members[i].0 == members[at].0 ==> i == at,
    ensures
        member(members, members[at].0) == Some(members[at].1),
{
}

/// The value under `key` of a JSON object; `None` for any other value.
pub open spec fn field(value: Json, key: Seq<char>) -> Option<Json> {
    match value {
        Json::Object(members) => member(members, key),
        _ => None,
    }
}

/// Calls `serde_json::from_str` for a `Value`. The parser reads nothing
/// but the text, so what it returns is named by [`parsed`].
#[verifier::external_body]
pub(crate) fn parse(text: &str) -> (out: Result<serde_json::Value, serde_json::Error>)
    ensures
        match out {
            Ok(value) => parsed(text@) == Some(json_of(value)),
            Err(_) => parsed(text@) is None,
        },
{
    serde_json::from_str(text)
}

/// Calls `Value::as_object`: the map of an object, `None` for any other
/// value.
#[verifier::external_body]
pub(crate) fn as_object(value: &serde_json::Value) -> (out: Option<
    &serde_json::Map<String, serde_json::Value>,
>)
    ensures
        match out {
            Some(map) => json_of(*value) == Json::Object(members_of(*map)),
            None => !(json_of(*value) is Object),
        },
{
    value.as_object()
}

/// Calls `Value::as_array`: the elements of an array, `None` for any other
/// value.
#[verifier::external_body]
pub(crate) fn as_array(value: &serde_json::Value) -> (out: Option<&Vec<serde_json::Value>>)
    ensures
        match out {
            Some(items) => json_of(*value) == Json::Array(
                items@.map_values(|item: serde_json::Value| json_of(item)),
            ),
            None => !(json_of(*value) is Array),
        },
{
    value.as_array()
}

/// Calls `Value::as_str`: the text of a string, `None` for any other value.
#[verifier::external_body]
pub(crate) fn as_str(value: &serde_json::Value) -> (out: Option<&str>)
    ensures
        match out {
            Some(text) => json_of(*value) == Json::Text(text@),
            None => !(json_of(*value) is Text),
        },
{
    value.as_str()
}

/// Calls `Value::get` with a string key: the value under that key of an
/// object, `None` where the key is missing or the value is no object.
#[verifier::external_body]
pub(crate) fn get<'a>(value: &'a serde_json::Value, key: &str) -> (out: Option<
    &'a serde_json::Value,
>)
    ensures
        match out {
            Some(found) => field(json_of(*value), key@) == Some(json_of(*found)),
            None => field(json_of(*value), key@) is None,
        },
{
    value.get(key)
}

/// Calls `Map::get`: the value under `key`, `None` where the key is
/// missing.
#[verifier::external_body]
pub(crate) fn map_get<'a>(
    map: &'a serde_json::Map<String, serde_json::Value>,
    key: &str,
) -> (out: Option<&'a serde_json::Value>)
    ensures
        match out {
            Some(found) => member(members_of(*map), key@) == Some(json_of(*found)),
            None => member(members_of(*map), key@) is None,
        },
{
    map.get(key)
}

/// Calls `Map::iter` and collects what it yields: every member, in the
/// map's iteration order.
#[verifier::external_body]
pub(crate) fn entries(map: &serde_json::Map<String, serde_json::Value>) -> (out: Vec<
    (&String, &serde_json::Value),
>)
    ensures
        out@.len() == members_of(*map).len(),
        forall|i: int| 0 <= i < out@.len() ==> (#[trigger] out@[i]).0@ == members_of(*map)[i].0
            && json_of(*out@[i].1) == members_of(*map)[i].1,
{
    map.iter().collect()
}

/// Reads the string under `key`.
pub fn text_at<'a>(map: &'a serde_json::Map<String, serde_json::Value>, key: &str) -> (out: Option<
    &'a str,
>)
    ensures
        match out {
            Some(text) => text_member(members_of(*map), key@) == Some(text@),
            None => text_member(members_of(*map), key@) is None,
        },
{
    as_str(map_get(map, key)?)
}

/// Reads the array under `key`.
pub fn array_at<'a>(map: &'a serde_json::Map<String, serde_json::Value>, key: &str) -> (out: Option<
    &'a Vec<serde_json::Value>,
>)
    ensures
        match out {
            Some(items) => array_member(members_of(*map), key@) == Some(
                items@.map_values(|item: serde_json::Value| json_of(item)),
            ),
            None => array_member(members_of(*map), key@) is None,
        },
{
    as_array(map_get(map, key)?)
}

/// Reads the object under `key`.
pub fn object_at<'a>(map: &'a serde_json::Map<String, serde_json::Value>, key: &str) -> (out:
    Option<&'a serde_json::Map<String, serde_json::Value>>)
    ensures
        match out {
            Some(inner) => object_member(members_of(*map), key@) == Some(members_of(*inner)),
            None => object_member(members_of(*map), key@) is None,
        },
{
    as_object(map_get(map, key)?)
}

} // verus!
