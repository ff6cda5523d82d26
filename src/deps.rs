//! The calls into outside crates that the library relies on, each with the
//! contract it is trusted to meet.
use crate::json::{no_members, JsonDoc};
use crate::resource::{segments_view, UriView};
use vstd::prelude::*;

verus! {

/// A JSON value, carried through messages and prompts without being inspected.
#[verifier::external_type_specification]
#[verifier::external_body]
pub struct ExJsonValue(serde_json::Value);

/// Parse failures reported by the URL parser.
#[verifier::external_type_specification]
#[verifier::external_body]
pub struct ExUrlParseError(url::ParseError);

/// Syntax and data errors reported by the JSON parser.
#[verifier::external_type_specification]
#[verifier::external_body]
pub struct ExJsonError(serde_json::Error);

/// A JSON object under construction.
#[verifier::external_type_specification]
#[verifier::external_body]
#[verifier::reject_recursive_types(K)]
#[verifier::reject_recursive_types(V)]
pub struct ExJsonMap<K, V>(serde_json::Map<K, V>);

/// The members that a JSON object holds, by name.
pub uninterp spec fn json_map_doc(m: serde_json::Map<String, serde_json::Value>) -> Map<
    Seq<char>,
    JsonDoc,
>;

/// The document that a JSON value holds.
pub uninterp spec fn value_doc(v: serde_json::Value) -> JsonDoc;

/// The document that a text parses to as JSON, or `None` where it is not
/// JSON.
pub uninterp spec fn json_doc(s: Seq<char>) -> Option<JsonDoc>;

/// The compact JSON text of a document, members in the order of their names.
pub uninterp spec fn json_text_of(d: JsonDoc) -> Seq<char>;

/// The bytes that standard, padded base64 decoding gives for a text, or
/// `None` where the text is not valid base64.
pub uninterp spec fn base64_decoded(s: Seq<char>) -> Option<Seq<u8>>;

/// What parsing a text as a URL gives: its serialization, its scheme and its
/// path segments (`None` for a URL that cannot be a base), or `None` where
/// the text is not a valid absolute URL.
pub uninterp spec fn url_parsed(s: Seq<char>) -> Option<UriView>;

/// The serialization of the media type that a text parses to, or `None`
/// where the text is not a valid media type.
pub uninterp spec fn mime_parsed(s: Seq<char>) -> Option<Seq<char>>;

/// Relies on `base64::Engine::decode` with the `BASE64_STANDARD` engine:
/// the decoded bytes, or an error where the text is not valid base64; the
/// result depends on the text alone.
#[verifier::external_body]
pub(crate) fn decode_base64(s: &str) -> (r: Option<Vec<u8>>)
    ensures
        match r {
            Some(bytes) => base64_decoded(s@) == Some(bytes@),
            None => base64_decoded(s@) is None,
        },
{
    base64::Engine::decode(&base64::prelude::BASE64_STANDARD, s).ok()
}

/// Relies on `url::Url::parse`, read back through `Url::as_str`,
/// `Url::scheme` and `Url::path_segments`: the result depends on the text
/// alone.
#[verifier::external_body]
pub(crate) fn parse_url(s: &str) -> (r: Result<(String, String, Option<Vec<String>>), url::ParseError>)
    ensures
        match r {
            Ok((serialization, scheme, segments)) => url_parsed(s@) == Some(
                UriView {
                    serialization: serialization@,
                    scheme: scheme@,
                    path_segments: segments_view(segments),
                },
            ),
            Err(_) => url_parsed(s@) is None,
        },
{
    let url = url::Url::parse(s)?;
    let segments = url.path_segments().map(|it| it.map(|seg| seg.to_string()).collect());
    Ok((url.as_str().to_string(), url.scheme().to_string(), segments))
}

/// Relies on `mime::Mime`'s `FromStr`, read back through its `Display`:
/// the result depends on the text alone.
#[verifier::external_body]
pub(crate) fn parse_mime(s: &str) -> (r: Option<String>)
    ensures
        match r {
            Some(m) => mime_parsed(s@) == Some(m@),
            None => mime_parsed(s@) is None,
        },
{
    s.parse::<mime::Mime>().ok().map(|m| m.to_string())
}

/// Relies on `serde_json::from_str` into a `serde_json::Value`.
#[verifier::external_body]
pub(crate) fn parse_json(s: &str) -> (r: Result<serde_json::Value, serde_json::Error>)
    ensures
        match r {
            Ok(v) => json_doc(s@) == Some(value_doc(v)),
            Err(_) => json_doc(s@) is None,
        },
{
    serde_json::from_str(s)
}

/// Relies on `serde_json::Map::new`: an object with no members.
#[verifier::external_body]
pub(crate) fn json_map_new() -> (r: serde_json::Map<String, serde_json::Value>)
    ensures
        json_map_doc(r) == no_members(),
{
    serde_json::Map::new()
}

/// Relies on `serde_json::Map::insert`: the key is a member afterwards, and
/// the other members stay.
#[verifier::external_body]
pub(crate) fn json_map_insert(
    m: &mut serde_json::Map<String, serde_json::Value>,
    key: String,
    value: serde_json::Value,
)
    ensures
        json_map_doc(*final(m)) == json_map_doc(*old(m)).insert(key@, value_doc(value)),
{
    m.insert(key, value);
}

/// Relies on the `serde_json::Value::String` variant.
#[verifier::external_body]
pub(crate) fn json_string(s: String) -> (r: serde_json::Value)
    ensures
        value_doc(r) == JsonDoc::Str(s@),
{
    serde_json::Value::String(s)
}

/// Relies on `serde_json::Value`'s `From<i32>`.
#[verifier::external_body]
pub(crate) fn json_integer(n: i32) -> (r: serde_json::Value)
    ensures
        value_doc(r) == JsonDoc::Int(n as int),
{
    serde_json::Value::from(n)
}

/// Relies on the `serde_json::Value::Object` variant.
#[verifier::external_body]
pub(crate) fn json_object(m: serde_json::Map<String, serde_json::Value>) -> (r: serde_json::Value)
    ensures
        value_doc(r) == JsonDoc::Object(json_map_doc(m)),
{
    serde_json::Value::Object(m)
}

/// Relies on `serde_json::Value`'s `Display`: the compact JSON text.
#[verifier::external_body]
pub(crate) fn json_text(v: &serde_json::Value) -> (r: String)
    ensures
        r@ == json_text_of(value_doc(*v)),
{
    v.to_string()
}

/// Relies on `serde_json::Value::get` with a string key, which finds a
/// member only in an object: a copy of the member's value.
#[verifier::external_body]
pub(crate) fn json_get(v: &serde_json::Value, key: &str) -> (r: Option<serde_json::Value>)
    ensures
        match r {
            Some(x) => value_doc(*v) matches JsonDoc::Object(m) && m.contains_key(key@)
                && m[key@] == value_doc(x),
            None => !(value_doc(*v) matches JsonDoc::Object(m) && m.contains_key(key@)),
        },
{
    v.get(key).cloned()
}

/// Relies on `serde_json::Value::is_null`.
#[verifier::external_body]
pub(crate) fn json_is_null(v: &serde_json::Value) -> (r: bool)
    ensures
        r == (value_doc(*v) is Null),
{
    v.is_null()
}

/// Relies on `serde_json::Value::as_str`: the text where the value is a
/// string.
#[verifier::external_body]
pub(crate) fn json_as_str(v: &serde_json::Value) -> (r: Option<String>)
    ensures
        match value_doc(*v) {
            JsonDoc::Str(t) => r matches Some(s) && s@ == t,
            _ => r is None,
        },
{
    v.as_str().map(|t| t.to_string())
}

/// Relies on `serde_json::Value::as_i64`: the number where the value is an
/// integer that fits in `i64`.
#[verifier::external_body]
pub(crate) fn json_as_i64(v: &serde_json::Value) -> (r: Option<i64>)
    ensures
        match value_doc(*v) {
            JsonDoc::Int(n) => if i64::MIN <= n <= i64::MAX {
                r == Some(n as i64)
            } else {
                r is None
            },
            _ => r is None,
        },
{
    v.as_i64()
}

/// Relies on the `serde_json::Value::Array` variant.
#[verifier::external_body]
pub(crate) fn json_array(items: Vec<serde_json::Value>) -> (r: serde_json::Value)
    ensures
        value_doc(r) == JsonDoc::Array(items@.map_values(|x: serde_json::Value| value_doc(x))),
{
    serde_json::Value::Array(items)
}

/// Relies on `serde_json::Value::as_array`: a copy of the items where the
/// value is an array.
#[verifier::external_body]
pub(crate) fn json_as_array(v: &serde_json::Value) -> (r: Option<Vec<serde_json::Value>>)
    ensures
        match value_doc(*v) {
            JsonDoc::Array(items) => r matches Some(xs) && xs@.map_values(
                |x: serde_json::Value| value_doc(x),
            ) == items,
            _ => r is None,
        },
{
    v.as_array().cloned()
}

} // verus!
