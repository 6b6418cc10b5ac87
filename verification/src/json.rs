//! JSON documents as values of the logic.
//!
//! A configuration arrives as a [`serde_json::Value`]. Its content is modelled by [`Json`]; the
//! items below relate each accessor of `serde_json` that the library calls to that model.
use serde_json::Value;
use vstd::prelude::*;

verus! {

/// What a JSON document holds.
pub enum Json {
    Null,
    Bool(bool),
    Number(serde_json::Number),
    Str(Seq<char>),
    Array(Seq<Json>),
    Object(Map<Seq<char>, Json>),
}

impl Json {
    /// The member `key` of an object, if this is an object that has one.
    pub open spec fn member(self, key: Seq<char>) -> Option<Json> {
        match self {
            Json::Object(members) => if members.contains_key(key) {
                Some(members[key])
            } else {
                None
            },
            _ => None,
        }
    }

    /// The text of the member `key`, if that member is a string.
    pub open spec fn text_member(self, key: Seq<char>) -> Option<Seq<char>> {
        match self.member(key) {
            Some(Json::Str(text)) => Some(text),
            _ => None,
        }
    }

    /// The items of the member `key`, if that member is an array.
    pub open spec fn array_member(self, key: Seq<char>) -> Option<Seq<Json>> {
        match self.member(key) {
            Some(Json::Array(items)) => Some(items),
            _ => None,
        }
    }

    /// The value of the member `key`, if that member is a boolean.
    pub open spec fn bool_member(self, key: Seq<char>) -> Option<bool> {
        match self.member(key) {
            Some(Json::Bool(b)) => Some(b),
            _ => None,
        }
    }

    /// This object with the member `key` set to `value`.
    pub open spec fn with_member(self, key: Seq<char>, value: Json) -> Json {
        match self {
            Json::Object(members) => Json::Object(members.insert(key, value)),
            other => other,
        }
    }
}

/// `serde_json::Value`: a JSON document. What it holds is named by [`json_of`].
#[verifier::external_type_specification]
#[verifier::external_body]
pub struct ExValue(serde_json::Value);

/// `serde_json::Number`: a number of a JSON document. Nothing is read of it.
#[verifier::external_type_specification]
#[verifier::external_body]
pub struct ExNumber(serde_json::Number);

/// `serde_json::Map`: the members of a JSON object. What they hold is named by [`members_of`].
#[verifier::external_type_specification]
#[verifier::external_body]
#[verifier::reject_recursive_types(K)]
#[verifier::reject_recursive_types(V)]
pub struct ExMap<K, V>(serde_json::Map<K, V>);

/// What the document `v` holds.
pub uninterp spec fn json_of(v: serde_json::Value) -> Json;

/// What the members of the object `m` hold, by name.
pub uninterp spec fn members_of(m: serde_json::Map<String, serde_json::Value>) -> Map<
    Seq<char>,
    Json,
>;

/// `serde_json::Value::as_str`: the text of a string, `None` of any other value.
pub assume_specification[ serde_json::Value::as_str ](v: &serde_json::Value) -> (r: Option<&str>)
    ensures
        match r {
            Some(text) => json_of(*v) == Json::Str(text@),
            None => !(json_of(*v) is Str),
        },
;

/// `serde_json::Value::as_bool`: the boolean, `None` of any other value.
pub assume_specification[ serde_json::Value::as_bool ](v: &serde_json::Value) -> (r: Option<bool>)
    ensures
        match r {
            Some(b) => json_of(*v) == Json::Bool(b),
            None => !(json_of(*v) is Bool),
        },
;

/// `serde_json::Value::as_array`: the items of an array in their order, `None` of any other value.
pub assume_specification[ serde_json::Value::as_array ](v: &serde_json::Value) -> (r: Option<
    &Vec<serde_json::Value>,
>)
    ensures
        match r {
            Some(items) => json_of(*v) == Json::Array(
                items@.map_values(|item: serde_json::Value| json_of(item)),
            ),
            None => !(json_of(*v) is Array),
        },
;

/// `serde_json::Value::as_object_mut`: the members of an object, for change in place, `None` of any
/// other value. What the caller leaves in the members is what the document then holds.
pub assume_specification[ serde_json::Value::as_object_mut ](v: &mut serde_json::Value) -> (r:
    Option<&mut serde_json::Map<String, serde_json::Value>>)
    ensures
        match r {
            Some(members) => {
                &&& json_of(*old(v)) == Json::Object(members_of(*members))
                &&& json_of(*final(v)) == Json::Object(members_of(*final(members)))
            },
            None => {
                &&& !(json_of(*old(v)) is Object)
                &&& *final(v) == *old(v)
            },
        },
;

/// `serde_json::Map::insert`: sets one member and leaves the others as they are. The value that the
/// name had before is returned, if it had one.
pub assume_specification[ serde_json::Map::<String, serde_json::Value>::insert ](
    m: &mut serde_json::Map<String, serde_json::Value>,
    k: String,
    v: serde_json::Value,
) -> (r: Option<serde_json::Value>)
    ensures
        members_of(*final(m)) == members_of(*old(m)).insert(k@, json_of(v)),
        match r {
            Some(previous) => members_of(*old(m)).contains_key(k@) && json_of(previous)
                == members_of(*old(m))[k@],
            None => !members_of(*old(m)).contains_key(k@),
        },
;

/// `serde_json::Value::clone`: a document that holds the same.
pub assume_specification[ <serde_json::Value as Clone>::clone ](v: &serde_json::Value) -> (r:
    serde_json::Value)
    ensures
        json_of(r) == json_of(*v),
;

/// `serde_json::Value::get` with a name: the member of an object under that name. `None` where
/// there is none, and of anything but an object.
#[verifier::external_body]
pub(crate) fn member<'a>(v: &'a Value, key: &str) -> (r: Option<&'a Value>)
    ensures
        match r {
            Some(found) => json_of(*v).member(key@) == Some(json_of(*found)),
            None => json_of(*v).member(key@) is None,
        },
{
    v.get(key)
}

/// The variant `serde_json::Value::String`: the document that is this string.
#[verifier::external_body]
pub(crate) fn string_value(text: String) -> (r: Value)
    ensures
        json_of(r) == Json::Str(text@),
{
    Value::String(text)
}

/// The text of the member `key`, if that member is a string.
pub fn text_member<'a>(v: &'a Value, key: &str) -> (r: Option<&'a str>)
    ensures
        match r {
            Some(text) => json_of(*v).text_member(key@) == Some(text@),
            None => json_of(*v).text_member(key@) is None,
        },
{
    match member(v, key) {
        Some(found) => found.as_str(),
        None => None,
    }
}

/// The items of the member `key`, if that member is an array.
pub fn array_member<'a>(v: &'a Value, key: &str) -> (r: Option<&'a Vec<Value>>)
    ensures
        match r {
            Some(items) => json_of(*v).array_member(key@) == Some(
                items@.map_values(|item: Value| json_of(item)),
            ),
            None => json_of(*v).array_member(key@) is None,
        },
{
    match member(v, key) {
        Some(found) => found.as_array(),
        None => None,
    }
}

/// Sets the string member `key` of an object; anything but an object is left as it is and
/// `false` is returned.
pub fn set_text_member(v: &mut Value, key: &str, text: &str) -> (r: bool)
    ensures
        r == (json_of(*old(v)) is Object),
        r ==> json_of(*final(v)) == json_of(*old(v)).with_member(key@, Json::Str(text@)),
        !r ==> *final(v) == *old(v),
{
    match v.as_object_mut() {
        Some(members) => {
            members.insert(key.to_owned(), string_value(text.to_owned()));
            true
        },
        None => false,
    }
}

} // verus!
