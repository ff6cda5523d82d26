//! Resources that servers provide to clients, the values they are built
//! from, and the decoding of resource contents.
use crate::deps::{
    value_doc,
    json_doc, json_map_doc, json_map_insert, json_map_new, json_text_of, json_object, json_string, json_text, mime_parsed, parse_json,
    parse_mime, parse_url, url_parsed,
};
use crate::json::{
    insert_optional_string, insert_some, json_member, member_str, opt_str_doc, opt_view, optional_str,
    optional_str_ok, no_members, JsonDoc, JsonMember,
};
use vstd::prelude::*;

verus! {

/// Errors raised while building or inspecting a resource.
#[derive(Debug)]
pub enum ResourceError {
    InvalidUri(url::ParseError),
    InvalidFilePath,
    NotFound,
}

/// The parts of a parsed URI, as plain text.
pub struct UriView {
    pub serialization: Seq<char>,
    pub scheme: Seq<char>,
    pub path_segments: Option<Seq<Seq<char>>>,
}

/// An absolute URI that has been parsed: its canonical serialization, its
/// scheme, and its path segments (`None` where the URI cannot be a base).
#[derive(Debug, Clone)]
pub struct Uri {
    serialization: String,
    scheme: String,
    path_segments: Option<Vec<String>>,
}

/// The path segments as text.
pub open spec fn segments_view(segs: Option<Vec<String>>) -> Option<Seq<Seq<char>>> {
    match segs {
        Some(v) => Some(v@.map_values(|x: String| x@)),
        None => None,
    }
}

impl View for Uri {
    type V = UriView;

    closed spec fn view(&self) -> UriView {
        UriView {
            serialization: self.serialization@,
            scheme: self.scheme@,
            path_segments: segments_view(self.path_segments),
        }
    }
}

impl Uri {
    /// Parses an absolute URI; a malformed one is rejected.
    pub fn parse(s: &str) -> (r: Result<Uri, ResourceError>)
        ensures
            match r {
                Ok(u) => url_parsed(s@) == Some(u@),
                Err(e) => url_parsed(s@) is None && e is InvalidUri,
            },
    {
        match parse_url(s) {
            Ok((serialization, scheme, path_segments)) => Ok(
                Uri { serialization, scheme, path_segments },
            ),
            Err(e) => Err(ResourceError::InvalidUri(e)),
        }
    }

    /// The canonical serialization.
    pub fn as_str(&self) -> (r: &str)
        ensures
            r@ == self@.serialization,
    {
        self.serialization.as_str()
    }

    /// The scheme, without the `:` delimiter.
    pub fn scheme(&self) -> (r: &str)
        ensures
            r@ == self@.scheme,
    {
        self.scheme.as_str()
    }
}

/// A parsed media type, held as its serialization.
#[derive(Debug, Clone)]
pub struct MimeType {
    text: String,
}

impl View for MimeType {
    type V = Seq<char>;

    closed spec fn view(&self) -> Seq<char> {
        self.text@
    }
}

impl MimeType {
    /// Parses a media type such as `text/plain`; a malformed one gives `None`.
    pub fn parse(s: &str) -> (r: Option<MimeType>)
        ensures
            match r {
                Some(m) => mime_parsed(s@) == Some(m@),
                None => mime_parsed(s@) is None,
            },
    {
        match parse_mime(s) {
            Some(text) => Some(MimeType { text }),
            None => None,
        }
    }

    /// The serialization of the media type.
    pub fn as_str(&self) -> (r: &str)
        ensures
            r@ == self@,
    {
        self.text.as_str()
    }
}

/// The text held by a required string member.
fn required_string(v: &serde_json::Value, key: &str) -> (r: Result<String, DecodeError>)
    ensures
        match member_str(value_doc(*v), key@) {
            Some(t) => r matches Ok(s) && s@ == t,
            None => r == Err::<String, DecodeError>(DecodeError::MissingMember),
        },
{
    match json_member(v, key) {
        JsonMember::Str(s) => Ok(s),
        _ => Err(DecodeError::MissingMember),
    }
}

/// The text held by an optional string member; null counts as absent.
fn optional_string(v: &serde_json::Value, key: &str) -> (r: Result<Option<String>, DecodeError>)
    ensures
        match r {
            Ok(o) => optional_str_ok(value_doc(*v), key@) && opt_view(o) == optional_str(
                value_doc(*v),
                key@,
            ),
            Err(e) => !optional_str_ok(value_doc(*v), key@) && e is InvalidMember,
        },
{
    match json_member(v, key) {
        JsonMember::Str(s) => Ok(Some(s)),
        JsonMember::Missing | JsonMember::Null => Ok(None),
        JsonMember::Other => Err(DecodeError::InvalidMember),
    }
}

/// A resource that a server offers, with its metadata.
#[derive(Debug, Clone, PartialEq)]
pub struct Resource {
    /// URI of the resource, such as `file:///path/to/file` or `str:///content`.
    pub uri: String,
    /// Media type of the resource content.
    pub mime_type: String,
    /// Name of the resource.
    pub name: String,
    /// Optional description of the resource.
    pub description: Option<String>,
}

/// The name that a URI gives a resource: its last path segment, or
/// `unnamed` where the URI has no path segments or the last one is empty.
pub open spec fn name_from_segments(segments: Option<Seq<Seq<char>>>) -> Seq<char> {
    match segments {
        Some(segs) => if segs.len() > 0 && segs.last().len() > 0 {
            segs.last()
        } else {
            "unnamed"@
        },
        None => "unnamed"@,
    }
}

/// The name derived from a parsed URI.
pub fn name_of_uri(uri: &Uri) -> (r: String)
    ensures
        r@ == name_from_segments(uri@.path_segments),
{
    match &uri.path_segments {
        Some(segs) => {
            let n = segs.len();
            if n > 0 && !segs[n - 1].as_str().is_empty() {
                segs[n - 1].clone()
            } else {
                "unnamed".to_string()
            }
        },
        None => "unnamed".to_string(),
    }
}

impl Resource {
    /// Starts building a resource: no URI, media type `text/plain`, no name
    /// chosen and no description.
    pub fn builder() -> (r: ResourceBuilder)
        ensures
            r.uri_spec() is None,
            r.mime_type_spec() == "text/plain"@,
            r.name_spec() is None,
            r.description_spec() is None,
    {
        ResourceBuilder {
            uri: None,
            mime_type: "text/plain".to_string(),
            name: None,
            description: None,
        }
    }

    /// The members of the encoding: `uri`, `mimeType`, `name`, and
    /// `description` where it is present.
    pub open spec fn members(&self) -> Map<Seq<char>, JsonDoc> {
        insert_some(
            no_members().insert("uri"@, JsonDoc::Str(self.uri@)).insert(
                "mimeType"@,
                JsonDoc::Str(self.mime_type@),
            ).insert("name"@, JsonDoc::Str(self.name@)),
            "description"@,
            opt_str_doc(self.description),
        )
    }

    /// The document that encodes the resource.
    pub open spec fn to_doc(&self) -> JsonDoc {
        JsonDoc::Object(self.members())
    }

    /// A document decodes as a resource: `uri`, `mimeType` and `name` are
    /// strings, and `description` is absent, null or a string.
    pub open spec fn doc_ok(d: JsonDoc) -> bool {
        member_str(d, "uri"@) is Some && member_str(d, "mimeType"@) is Some && member_str(
            d,
            "name"@,
        ) is Some && optional_str_ok(d, "description"@)
    }

    /// The resource that a document decodes to, field by field.
    pub open spec fn decodes_to(d: JsonDoc, x: Resource) -> bool {
        member_str(d, "uri"@) == Some(x.uri@) && member_str(d, "mimeType"@) == Some(
            x.mime_type@,
        ) && member_str(d, "name"@) == Some(x.name@) && optional_str(d, "description"@)
            == opt_view(x.description)
    }

    /// Why a document does not decode as a resource.
    pub open spec fn doc_error(d: JsonDoc) -> DecodeError {
        if member_str(d, "uri"@) is None || member_str(d, "mimeType"@) is None || member_str(
            d,
            "name"@,
        ) is None {
            DecodeError::MissingMember
        } else {
            DecodeError::InvalidMember
        }
    }

    /// The JSON object that encodes the resource; an absent description is
    /// left out.
    pub fn into_json_object(self) -> (r: serde_json::Map<String, serde_json::Value>)
        ensures
            json_map_doc(r) == self.members(),
    {
        let mut m = json_map_new();
        json_map_insert(&mut m, "uri".to_string(), json_string(self.uri));
        json_map_insert(&mut m, "mimeType".to_string(), json_string(self.mime_type));
        json_map_insert(&mut m, "name".to_string(), json_string(self.name));
        insert_optional_string(&mut m, "description", self.description);
        m
    }

    /// The compact JSON text of the resource.
    pub fn to_json_text(self) -> (r: String)
        ensures
            r@ == json_text_of(self.to_doc()),
    {
        json_text(&json_object(self.into_json_object()))
    }

    /// Decodes a resource from JSON text with string members `uri`,
    /// `mimeType` and `name`, and an optional `description`.
    pub fn from_json_text(s: &str) -> (r: Result<Resource, DecodeError>)
        ensures
            match json_doc(s@) {
                None => r == Err::<Resource, DecodeError>(DecodeError::Syntax),
                Some(d) => match r {
                    Ok(x) => Resource::doc_ok(d) && Resource::decodes_to(d, x),
                    Err(e) => !Resource::doc_ok(d) && e == Resource::doc_error(d),
                },
            },
    {
        let v = match parse_json(s) {
            Ok(v) => v,
            Err(_) => {
                return Err(DecodeError::Syntax);
            },
        };
        let uri = required_string(&v, "uri")?;
        let mime_type = required_string(&v, "mimeType")?;
        let name = required_string(&v, "name")?;
        let description = optional_string(&v, "description")?;
        Ok(Resource { uri, mime_type, name, description })
    }

    /// The scheme of the resource's URI, which is parsed again.
    pub fn scheme(&self) -> (r: Result<String, ResourceError>)
        ensures
            match url_parsed(self.uri@) {
                Some(u) => r matches Ok(s) && s@ == u.scheme,
                None => r matches Err(e) && e is InvalidUri,
            },
    {
        let url = Uri::parse(self.uri.as_str())?;
        Ok(url.scheme().to_string())
    }
}

/// Builds `Resource`. Unset, the URI is empty and the name comes from the
/// URI, `unnamed` where it has none.
#[derive(Debug, Clone)]
pub struct ResourceBuilder {
    uri: Option<Uri>,
    mime_type: String,
    name: Option<String>,
    description: Option<String>,
}

impl ResourceBuilder {
    pub closed spec fn uri_spec(&self) -> Option<UriView> {
        match self.uri {
            Some(u) => Some(u@),
            None => None,
        }
    }

    pub closed spec fn mime_type_spec(&self) -> Seq<char> {
        self.mime_type@
    }

    pub closed spec fn name_spec(&self) -> Option<Seq<char>> {
        match self.name {
            Some(n) => Some(n@),
            None => None,
        }
    }

    pub closed spec fn description_spec(&self) -> Option<Seq<char>> {
        match self.description {
            Some(d) => Some(d@),
            None => None,
        }
    }

    /// Sets the URI, stored as its canonical serialization.
    pub fn uri(self, uri: Uri) -> (r: ResourceBuilder)
        ensures
            r.uri_spec() == Some(uri@),
            r.mime_type_spec() == self.mime_type_spec(),
            r.name_spec() == self.name_spec(),
            r.description_spec() == self.description_spec(),
    {
        let mut b = self;
        b.uri = Some(uri);
        b
    }

    /// Sets the media type to the serialization of a parsed media type.
    pub fn mime_type(self, mime_type: MimeType) -> (r: ResourceBuilder)
        ensures
            r.mime_type_spec() == mime_type@,
            r.uri_spec() == self.uri_spec(),
            r.name_spec() == self.name_spec(),
            r.description_spec() == self.description_spec(),
    {
        let mut b = self;
        b.mime_type = mime_type.as_str().to_string();
        b
    }

    /// Sets the name explicitly.
    pub fn name(self, name: &str) -> (r: ResourceBuilder)
        ensures
            r.name_spec() == Some(name@),
            r.uri_spec() == self.uri_spec(),
            r.mime_type_spec() == self.mime_type_spec(),
            r.description_spec() == self.description_spec(),
    {
        let mut b = self;
        b.name = Some(name.to_string());
        b
    }

    /// Sets the name to the one a URI gives: its last path segment, or
    /// `unnamed`.
    pub fn name_from_uri(self, uri: Uri) -> (r: ResourceBuilder)
        ensures
            r.name_spec() == Some(name_from_segments(uri@.path_segments)),
            r.uri_spec() == self.uri_spec(),
            r.mime_type_spec() == self.mime_type_spec(),
            r.description_spec() == self.description_spec(),
    {
        let name = name_of_uri(&uri);
        let mut b = self;
        b.name = Some(name);
        b
    }

    /// Sets the description.
    pub fn description(self, description: &str) -> (r: ResourceBuilder)
        ensures
            r.description_spec() == Some(description@),
            r.uri_spec() == self.uri_spec(),
            r.mime_type_spec() == self.mime_type_spec(),
            r.name_spec() == self.name_spec(),
    {
        let mut b = self;
        b.description = Some(description.to_string());
        b
    }

    /// Produces the resource, filling the defaults in.
    pub fn build(self) -> (r: Resource)
        ensures
            r.uri@ == match self.uri_spec() {
                Some(u) => u.serialization,
                None => Seq::<char>::empty(),
            },
            r.mime_type@ == self.mime_type_spec(),
            r.name@ == match self.name_spec() {
                Some(n) => n,
                None => match self.uri_spec() {
                    Some(u) => name_from_segments(u.path_segments),
                    None => "unnamed"@,
                },
            },
            match r.description {
                Some(d) => self.description_spec() == Some(d@),
                None => self.description_spec() is None,
            },
    {
        let name = match self.name {
            Some(n) => n,
            None => match &self.uri {
                Some(u) => name_of_uri(u),
                None => "unnamed".to_string(),
            },
        };
        let uri = match &self.uri {
            Some(u) => u.as_str().to_string(),
            None => String::new(),
        };
        Resource { uri, mime_type: self.mime_type, name, description: self.description }
    }
}

/// The contents of a resource: text, or binary data in base64. The two
/// shapes are told apart by which of `text` and `blob` is present.
#[derive(Debug, Clone, PartialEq)]
pub enum ResourceContent {
    TextResourceContents { uri: String, mime_type: Option<String>, text: String },
    BlobResourceContent { uri: String, mime_type: Option<String>, blob: String },
}

/// Why a resource document could not be decoded.
#[derive(Debug, Clone, Copy, PartialEq, Eq, Structural)]
pub enum DecodeError {
    /// The text is not a JSON document.
    Syntax,
    /// A required member, such as `uri`, is absent or not a string.
    MissingMember,
    /// An optional member, such as `mimeType`, is neither a string nor null.
    InvalidMember,
    /// Neither a string `text` member nor a string `blob` member is present.
    MissingContent,
}

/// The string a member holds, if it holds one.
pub open spec fn member_string(m: JsonMember) -> Option<String> {
    match m {
        JsonMember::Str(s) => Some(s),
        _ => None,
    }
}

/// How the members `uri`, `mimeType`, `text` and `blob` of a document
/// decode. The text shape is tried before the blob shape, so a document
/// with both a string `text` and a string `blob` decodes as text; the
/// media type is optional and never decides the shape.
pub open spec fn decode_members(
    uri: JsonMember,
    mime_type: JsonMember,
    text: JsonMember,
    blob: JsonMember,
) -> Result<ResourceContent, DecodeError> {
    match uri {
        JsonMember::Str(u) => if mime_type is Other {
            Err(DecodeError::InvalidMember)
        } else {
            match text {
                JsonMember::Str(t) => Ok(
                    ResourceContent::TextResourceContents {
                        uri: u,
                        mime_type: member_string(mime_type),
                        text: t,
                    },
                ),
                _ => match blob {
                    JsonMember::Str(b) => Ok(
                        ResourceContent::BlobResourceContent {
                            uri: u,
                            mime_type: member_string(mime_type),
                            blob: b,
                        },
                    ),
                    _ => Err(DecodeError::MissingContent),
                },
            }
        },
        _ => Err(DecodeError::MissingMember),
    }
}

impl ResourceContent {
    /// Decodes resource content from the members `uri`, `mimeType`, `text`
    /// and `blob` of a document.
    pub fn from_members(
        uri: JsonMember,
        mime_type: JsonMember,
        text: JsonMember,
        blob: JsonMember,
    ) -> (r: Result<ResourceContent, DecodeError>)
        ensures
            r == decode_members(uri, mime_type, text, blob),
    {
        let u = match uri {
            JsonMember::Str(u) => u,
            _ => return Err(DecodeError::MissingMember),
        };
        let m = match mime_type {
            JsonMember::Str(m) => Some(m),
            JsonMember::Other => return Err(DecodeError::InvalidMember),
            _ => None,
        };
        match text {
            JsonMember::Str(t) => Ok(ResourceContent::TextResourceContents { uri: u, mime_type: m, text: t }),
            _ => match blob {
                JsonMember::Str(b) => Ok(
                    ResourceContent::BlobResourceContent { uri: u, mime_type: m, blob: b },
                ),
                _ => Err(DecodeError::MissingContent),
            },
        }
    }

    /// The members of the encoding: `uri`, `mimeType` where it is
    /// present, and `text` or `blob` by the shape.
    pub open spec fn members(&self) -> Map<Seq<char>, JsonDoc> {
        match self {
            ResourceContent::TextResourceContents { uri, mime_type, text } => insert_some(
                no_members().insert("uri"@, JsonDoc::Str(uri@)),
                "mimeType"@,
                opt_str_doc(*mime_type),
            ).insert("text"@, JsonDoc::Str(text@)),
            ResourceContent::BlobResourceContent { uri, mime_type, blob } => insert_some(
                no_members().insert("uri"@, JsonDoc::Str(uri@)),
                "mimeType"@,
                opt_str_doc(*mime_type),
            ).insert("blob"@, JsonDoc::Str(blob@)),
        }
    }

    /// The document that encodes the content.
    pub open spec fn to_doc(&self) -> JsonDoc {
        JsonDoc::Object(self.members())
    }

    /// Whether a document decodes as resource content, and if not, why: a
    /// string `uri`, a `mimeType` that is absent, null or a string, and a
    /// string `text` or a string `blob`.
    pub open spec fn doc_check(d: JsonDoc) -> Result<(), DecodeError> {
        if member_str(d, "uri"@) is None {
            Err(DecodeError::MissingMember)
        } else if !optional_str_ok(d, "mimeType"@) {
            Err(DecodeError::InvalidMember)
        } else if member_str(d, "text"@) is None && member_str(d, "blob"@) is None {
            Err(DecodeError::MissingContent)
        } else {
            Ok(())
        }
    }

    /// The content that a document decodes to: text where `text` is a
    /// string, else binary.
    pub open spec fn decodes_to(d: JsonDoc, c: ResourceContent) -> bool {
        match c {
            ResourceContent::TextResourceContents { uri, mime_type, text } => member_str(d, "uri"@)
                == Some(uri@) && optional_str(d, "mimeType"@) == opt_view(mime_type) && member_str(
                d,
                "text"@,
            ) == Some(text@),
            ResourceContent::BlobResourceContent { uri, mime_type, blob } => member_str(d, "uri"@)
                == Some(uri@) && optional_str(d, "mimeType"@) == opt_view(mime_type) && member_str(
                d,
                "text"@,
            ) is None && member_str(d, "blob"@) == Some(blob@),
        }
    }

    /// The JSON object that encodes the content: `text` or `blob` by its
    /// shape, and no `mimeType` member where the media type is absent.
    pub fn into_json_object(self) -> (r: serde_json::Map<String, serde_json::Value>)
        ensures
            json_map_doc(r) == self.members(),
    {
        let mut m = json_map_new();
        match self {
            ResourceContent::TextResourceContents { uri, mime_type, text } => {
                json_map_insert(&mut m, "uri".to_string(), json_string(uri));
                insert_optional_string(&mut m, "mimeType", mime_type);
                json_map_insert(&mut m, "text".to_string(), json_string(text));
            },
            ResourceContent::BlobResourceContent { uri, mime_type, blob } => {
                json_map_insert(&mut m, "uri".to_string(), json_string(uri));
                insert_optional_string(&mut m, "mimeType", mime_type);
                json_map_insert(&mut m, "blob".to_string(), json_string(blob));
            },
        }
        m
    }

    /// The compact JSON text of the content.
    pub fn to_json_text(self) -> (r: String)
        ensures
            r@ == json_text_of(self.to_doc()),
    {
        json_text(&json_object(self.into_json_object()))
    }

    /// Decodes resource content from a JSON document: a syntax error, or
    /// what `decode_members` gives on the document's members.
    pub fn from_json_str(s: &str) -> (r: Result<ResourceContent, DecodeError>)
        ensures
            match json_doc(s@) {
                None => r == Err::<ResourceContent, DecodeError>(DecodeError::Syntax),
                Some(d) => match r {
                    Ok(c) => ResourceContent::doc_check(d) is Ok && ResourceContent::decodes_to(
                        d,
                        c,
                    ),
                    Err(e) => ResourceContent::doc_check(d) == Err::<(), DecodeError>(e),
                },
            },
    {
        let v = match parse_json(s) {
            Ok(v) => v,
            Err(_) => return Err(DecodeError::Syntax),
        };
        let uri = json_member(&v, "uri");
        let mime_type = json_member(&v, "mimeType");
        let text = json_member(&v, "text");
        let blob = json_member(&v, "blob");
        ResourceContent::from_members(uri, mime_type, text, blob)
    }
}

/// The member names of a resource and of resource content are distinct.
proof fn lemma_resource_names_distinct()
    ensures
        "uri"@ != "mimeType"@,
        "uri"@ != "name"@,
        "uri"@ != "description"@,
        "uri"@ != "text"@,
        "uri"@ != "blob"@,
        "mimeType"@ != "name"@,
        "mimeType"@ != "description"@,
        "mimeType"@ != "text"@,
        "mimeType"@ != "blob"@,
        "name"@ != "description"@,
        "text"@ != "blob"@,
{
    reveal_strlit("uri");
    reveal_strlit("mimeType");
    reveal_strlit("name");
    reveal_strlit("description");
    reveal_strlit("text");
    reveal_strlit("blob");
    assert("uri"@[0] != "mimeType"@[0]);
    assert("uri"@[0] != "name"@[0]);
    assert("uri"@[0] != "description"@[0]);
    assert("uri"@[0] != "text"@[0]);
    assert("uri"@[0] != "blob"@[0]);
    assert("mimeType"@[0] != "name"@[0]);
    assert("mimeType"@[0] != "description"@[0]);
    assert("mimeType"@[0] != "text"@[0]);
    assert("mimeType"@[0] != "blob"@[0]);
    assert("name"@[0] != "description"@[0]);
    assert("text"@[0] != "blob"@[0]);
}

/// Every resource decodes back to itself from its encoding.
pub proof fn lemma_resource_round_trip(x: Resource)
    ensures
        Resource::doc_ok(x.to_doc()),
        Resource::decodes_to(x.to_doc(), x),
{
    lemma_resource_names_distinct();
}

/// Every resource content decodes back to itself from its encoding, in the
/// same shape.
pub proof fn lemma_resource_content_round_trip(c: ResourceContent)
    ensures
        ResourceContent::doc_check(c.to_doc()) is Ok,
        ResourceContent::decodes_to(c.to_doc(), c),
{
    lemma_resource_names_distinct();
}

} // verus!
