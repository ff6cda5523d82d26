//! Reading the members of a JSON document.
use crate::deps::{
    json_as_str, json_get, json_is_null, json_map_doc, json_map_insert, json_string, value_doc,
};
use vstd::prelude::*;

verus! {

/// A JSON document as plain values. An integer that fits in 64 bits is an
/// `Int`; any other number is a `Float`, held as the bits of its `f64`.
pub enum JsonDoc {
    Null,
    Bool(bool),
    Int(int),
    Float(int),
    Str(Seq<char>),
    Array(Seq<JsonDoc>),
    Object(Map<Seq<char>, JsonDoc>),
}

/// The members of an empty object.
pub open spec fn no_members() -> Map<Seq<char>, JsonDoc> {
    Map::empty()
}

/// The member of a document under a name, where it is an object that has one.
pub open spec fn member(d: JsonDoc, key: Seq<char>) -> Option<JsonDoc> {
    match d {
        JsonDoc::Object(m) => if m.contains_key(key) {
            Some(m[key])
        } else {
            None
        },
        _ => None,
    }
}

/// The member is there and is not null.
pub open spec fn present(d: JsonDoc, key: Seq<char>) -> bool {
    member(d, key) matches Some(x) && !(x is Null)
}

/// The text of a string member.
pub open spec fn member_str(d: JsonDoc, key: Seq<char>) -> Option<Seq<char>> {
    match member(d, key) {
        Some(JsonDoc::Str(t)) => Some(t),
        _ => None,
    }
}

/// An optional string member is absent, null, or a string.
pub open spec fn optional_str_ok(d: JsonDoc, key: Seq<char>) -> bool {
    !present(d, key) || member_str(d, key) is Some
}

/// The text of an optional string member; absent or null gives `None`.
pub open spec fn optional_str(d: JsonDoc, key: Seq<char>) -> Option<Seq<char>> {
    if present(d, key) {
        member_str(d, key)
    } else {
        None
    }
}

/// A member that is present and not null.
pub open spec fn present_member(d: JsonDoc, key: Seq<char>) -> Option<JsonDoc> {
    if present(d, key) {
        member(d, key)
    } else {
        None
    }
}

/// The text of optional string fields.
pub open spec fn opt_view(o: Option<String>) -> Option<Seq<char>> {
    match o {
        Some(s) => Some(s@),
        None => None,
    }
}

/// The document of optional JSON fields.
pub open spec fn opt_doc(o: Option<serde_json::Value>) -> Option<JsonDoc> {
    match o {
        Some(v) => Some(value_doc(v)),
        None => None,
    }
}

/// The members after adding `key` where a value is present.
pub open spec fn insert_some(
    m: Map<Seq<char>, JsonDoc>,
    key: Seq<char>,
    value: Option<JsonDoc>,
) -> Map<Seq<char>, JsonDoc> {
    match value {
        Some(v) => m.insert(key, v),
        None => m,
    }
}

/// The optional text as a string document.
pub open spec fn opt_str_doc(o: Option<String>) -> Option<JsonDoc> {
    match o {
        Some(s) => Some(JsonDoc::Str(s@)),
        None => None,
    }
}

/// What a JSON document holds under a member name.
pub enum JsonMember {
    /// No such member, or the document is not an object.
    Missing,
    Null,
    Str(String),
    /// A member of another kind than a string or null.
    Other,
}

/// What a JSON document holds under a member name.
pub(crate) fn json_member(v: &serde_json::Value, key: &str) -> (r: JsonMember)
    ensures
        match member(value_doc(*v), key@) {
            None => r is Missing,
            Some(JsonDoc::Null) => r is Null,
            Some(JsonDoc::Str(t)) => r matches JsonMember::Str(s) && s@ == t,
            Some(_) => r is Other,
        },
{
    match json_get(v, key) {
        None => JsonMember::Missing,
        Some(x) => if json_is_null(&x) {
            JsonMember::Null
        } else {
            match json_as_str(&x) {
                Some(s) => JsonMember::Str(s),
                None => JsonMember::Other,
            }
        },
    }
}

/// The value of a member that is present and not null.
pub(crate) fn json_member_value(v: &serde_json::Value, key: &str) -> (r: Option<serde_json::Value>)
    ensures
        match r {
            Some(x) => present(value_doc(*v), key@) && member(value_doc(*v), key@) == Some(
                value_doc(x),
            ),
            None => !present(value_doc(*v), key@),
        },
{
    match json_get(v, key) {
        Some(x) => if json_is_null(&x) {
            None
        } else {
            Some(x)
        },
        None => None,
    }
}

/// Adds a member where a value is present; an absent value leaves the
/// object without the member rather than writing null.
pub(crate) fn insert_present(
    m: &mut serde_json::Map<String, serde_json::Value>,
    key: &str,
    value: Option<serde_json::Value>,
)
    ensures
        json_map_doc(*final(m)) == insert_some(json_map_doc(*old(m)), key@, opt_doc(value)),
{
    if let Some(v) = value {
        json_map_insert(m, key.to_string(), v);
    }
}

/// Adds a string member where a value is present; an absent one is left
/// out rather than written as null.
pub(crate) fn insert_optional_string(
    m: &mut serde_json::Map<String, serde_json::Value>,
    key: &str,
    value: Option<String>,
)
    ensures
        json_map_doc(*final(m)) == insert_some(json_map_doc(*old(m)), key@, opt_str_doc(value)),
{
    if let Some(s) = value {
        json_map_insert(m, key.to_string(), json_string(s));
    }
}

} // verus!
