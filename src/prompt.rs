//! Prompts and prompt messages, whose image content is validated on every
//! construction path.
use crate::deps::{
    base64_decoded, decode_base64, json_array, json_as_array, json_doc, json_get, json_map_doc,
    json_map_insert, json_map_new, json_object, json_string, json_text, json_text_of, parse_json,
    value_doc,
};
use crate::json::{
    insert_optional_string, insert_some, json_member, json_member_value, member, member_str,
    no_members, opt_str_doc, opt_view, optional_str, optional_str_ok, present, JsonDoc, JsonMember,
};
use crate::resource::{MimeType, Uri};
use vstd::prelude::*;

verus! {

/// Errors raised while building prompts and their content.
#[derive(Debug)]
pub enum PromptError {
    InvalidParameters(String),
    Other(String),
}

impl PromptError {
    /// The error's description, prefixed by the name of its kind.
    pub fn to_string(&self) -> (r: String)
        ensures
            r@ == match self {
                PromptError::InvalidParameters(m) => "Invalid parameters: "@ + m@,
                PromptError::Other(m) => "Other error: "@ + m@,
            },
    {
        let (label, m) = match self {
            PromptError::InvalidParameters(m) => ("Invalid parameters: ", m),
            PromptError::Other(m) => ("Other error: ", m),
        };
        let mut r = label.to_string();
        r.append(m.as_str());
        r
    }

    /// The error is an invalid-parameters error with the given message.
    pub open spec fn is_invalid_parameters(&self, message: Seq<char>) -> bool {
        self matches PromptError::InvalidParameters(m) && m@ == message
    }
}

/// The literal prefix that every image media type carries.
pub open spec fn image_prefix() -> Seq<char> {
    seq!['i', 'm', 'a', 'g', 'e', '/']
}

/// The media type names an image.
pub open spec fn is_image_mime(m: Seq<char>) -> bool {
    m.len() >= 6 && m.subrange(0, 6) == image_prefix()
}

/// The message of the error raised for image data that is not base64.
pub open spec fn bad_base64_message() -> Seq<char> {
    "Image data must be valid base64"@
}

/// The message of the error raised for a media type that is not an image.
pub open spec fn bad_image_mime_message() -> Seq<char> {
    "MIME type must be a valid image type (e.g. image/jpeg)"@
}

/// Why image content with this data and media type is refused: the data is
/// checked first, then the media type. `None` where it is accepted.
pub open spec fn image_error(data: Seq<char>, mime_type: Seq<char>) -> Option<Seq<char>> {
    if base64_decoded(data) is None {
        Some(bad_base64_message())
    } else if !is_image_mime(mime_type) {
        Some(bad_image_mime_message())
    } else {
        None
    }
}

/// Whether an image check with this outcome agrees with `image_error`.
pub open spec fn image_check_result(
    r: Result<(), PromptError>,
    data: Seq<char>,
    mime_type: Seq<char>,
) -> bool {
    match image_error(data, mime_type) {
        None => r is Ok,
        Some(msg) => r matches Err(e) && e.is_invalid_parameters(msg),
    }
}

/// Checks that image data is valid base64.
pub fn validate_image_data(data: &str) -> (r: Result<(), PromptError>)
    ensures
        match r {
            Ok(()) => base64_decoded(data@) is Some,
            Err(e) => base64_decoded(data@) is None && e.is_invalid_parameters(bad_base64_message()),
        },
{
    match decode_base64(data) {
        Some(_) => Ok(()),
        None => Err(PromptError::InvalidParameters("Image data must be valid base64".to_string())),
    }
}

/// Whether the text starts with `image/`.
pub fn has_image_prefix(m: &str) -> (r: bool)
    ensures
        r == is_image_mime(m@),
{
    let n = m.unicode_len();
    if n < 6 {
        return false;
    }
    let r = m.get_char(0) == 'i' && m.get_char(1) == 'm' && m.get_char(2) == 'a' && m.get_char(3)
        == 'g' && m.get_char(4) == 'e' && m.get_char(5) == '/';
    assert(r ==> m@.subrange(0, 6) =~= image_prefix());
    assert(m@.subrange(0, 6) == image_prefix() ==> m@.subrange(0, 6)[5] == '/');
    r
}

/// Checks that a media type names an image.
pub fn validate_image_mime(mime_type: &str) -> (r: Result<(), PromptError>)
    ensures
        match r {
            Ok(()) => is_image_mime(mime_type@),
            Err(e) => !is_image_mime(mime_type@) && e.is_invalid_parameters(
                bad_image_mime_message(),
            ),
        },
{
    if has_image_prefix(mime_type) {
        Ok(())
    } else {
        Err(
            PromptError::InvalidParameters(
                "MIME type must be a valid image type (e.g. image/jpeg)".to_string(),
            ),
        )
    }
}

/// The one check that every path building image content goes through.
pub fn validate_image(data: &str, mime_type: &str) -> (r: Result<(), PromptError>)
    ensures
        image_check_result(r, data@, mime_type@),
{
    validate_image_data(data)?;
    validate_image_mime(mime_type)
}

/// A prompt or prompt template that the server offers.
#[derive(Debug, Clone, PartialEq)]
pub struct Prompt {
    /// Schema fragments describing the template's arguments, in order.
    pub arguments: Option<Vec<serde_json::Value>>,
    /// The name of the prompt or prompt template.
    pub name: String,
    /// An optional description of what this prompt provides.
    pub description: Option<String>,
}

/// The argument schemas held, in order; none when the list is absent.
pub open spec fn arguments_seq(arguments: Option<Vec<serde_json::Value>>) -> Seq<serde_json::Value> {
    match arguments {
        Some(v) => v@,
        None => Seq::empty(),
    }
}

impl Prompt {
    /// Starts building a prompt: no arguments, no name and no description yet.
    pub fn builder() -> (r: PromptBuilder)
        ensures
            r.arguments is None,
            r.name is None,
            r.description is None,
    {
        PromptBuilder { arguments: None, name: None, description: None }
    }
}

/// Builds `Prompt`; the name must be set.
#[derive(Debug, Clone)]
pub struct PromptBuilder {
    pub arguments: Option<Vec<serde_json::Value>>,
    pub name: Option<String>,
    pub description: Option<String>,
}

impl PromptBuilder {
    /// Appends the schema of one more template argument; the list is created
    /// on first use and keeps the order of the appends.
    pub fn argument(self, schema: serde_json::Value) -> (r: PromptBuilder)
        ensures
            r.arguments matches Some(v) && v@ == arguments_seq(self.arguments).push(schema),
            r.name == self.name,
            r.description == self.description,
    {
        let mut b = self;
        match b.arguments {
            Some(mut args) => {
                args.push(schema);
                b.arguments = Some(args);
            },
            None => {
                b.arguments = Some(vec![schema]);
            },
        }
        b
    }

    /// Sets the name of the prompt.
    pub fn name(self, name: &str) -> (r: PromptBuilder)
        ensures
            r.name matches Some(n) && n@ == name@,
            r.arguments == self.arguments,
            r.description == self.description,
    {
        let mut b = self;
        b.name = Some(name.to_string());
        b
    }

    /// Sets the description of the prompt.
    pub fn description(self, description: &str) -> (r: PromptBuilder)
        ensures
            r.description matches Some(d) && d@ == description@,
            r.arguments == self.arguments,
            r.name == self.name,
    {
        let mut b = self;
        b.description = Some(description.to_string());
        b
    }

    /// Produces the prompt; refused while the name is unset.
    pub fn build(self) -> (r: Result<Prompt, PromptError>)
        ensures
            match self.name {
                Some(name) => r == Ok::<Prompt, PromptError>(
                    Prompt { arguments: self.arguments, name, description: self.description },
                ),
                None => r matches Err(e) && e is Other,
            },
    {
        match self.name {
            Some(name) => Ok(Prompt { arguments: self.arguments, name, description: self.description }),
            None => Err(PromptError::Other("name is required".to_string())),
        }
    }
}

/// The role of a message sender in a prompt conversation.
#[derive(Debug, Clone, Copy, PartialEq, Eq, Structural)]
pub enum PromptMessageRole {
    User,
    Assistant,
}

/// Text provided to or from a model.
#[derive(Debug, Clone, Default, PartialEq)]
pub struct TextContent {
    /// The text content of the message.
    pub text: String,
}

/// An image provided to or from a model.
#[derive(Debug, Clone, PartialEq)]
pub struct ImageContent {
    /// The base64-encoded image data.
    pub data: String,
    /// The media type of the image.
    pub mime_type: String,
}

impl ImageContent {
    /// Well-formed: the data is base64 and the media type names an image.
    pub open spec fn wf(&self) -> bool {
        image_error(self.data@, self.mime_type@) is None
    }

    /// Builds image content from its data and media type, both checked.
    pub fn new(data: String, mime_type: String) -> (r: Result<ImageContent, PromptError>)
        ensures
            match image_error(data@, mime_type@) {
                None => r matches Ok(img) && img.data == data && img.mime_type == mime_type
                    && img.wf() && base64_decoded(img.data@) == base64_decoded(data@),
                Some(msg) => r matches Err(e) && e.is_invalid_parameters(msg),
            },
    {
        validate_image(data.as_str(), mime_type.as_str())?;
        Ok(ImageContent { data, mime_type })
    }

    /// Starts building image content; nothing is set yet.
    pub fn builder() -> (r: ImageContentBuilder)
        ensures
            r.data@ == Seq::<char>::empty(),
            r.mime_type@ == Seq::<char>::empty(),
    {
        ImageContentBuilder { data: String::new(), mime_type: String::new() }
    }
}

/// Builds `ImageContent`, checking each field as it is set and both again
/// at the end, so that no unchecked image is ever produced.
#[derive(Debug, Clone)]
pub struct ImageContentBuilder {
    pub data: String,
    pub mime_type: String,
}

impl ImageContentBuilder {
    /// Sets the base64-encoded data; data that is not base64 is refused.
    pub fn data(self, data: &str) -> (r: Result<ImageContentBuilder, PromptError>)
        ensures
            match r {
                Ok(b) => base64_decoded(data@) is Some && b.data@ == data@ && b.mime_type
                    == self.mime_type,
                Err(e) => base64_decoded(data@) is None && e.is_invalid_parameters(
                    bad_base64_message(),
                ),
            },
    {
        validate_image_data(data)?;
        let mut b = self;
        b.data = data.to_string();
        Ok(b)
    }

    /// Sets the media type; one that does not start with `image/` is refused.
    pub fn mime_type(self, mime_type: &str) -> (r: Result<ImageContentBuilder, PromptError>)
        ensures
            match r {
                Ok(b) => is_image_mime(mime_type@) && b.mime_type@ == mime_type@ && b.data
                    == self.data,
                Err(e) => !is_image_mime(mime_type@) && e.is_invalid_parameters(
                    bad_image_mime_message(),
                ),
            },
    {
        validate_image_mime(mime_type)?;
        let mut b = self;
        b.mime_type = mime_type.to_string();
        Ok(b)
    }

    /// Produces the image content, refused unless both fields pass the checks.
    pub fn build(self) -> (r: Result<ImageContent, PromptError>)
        ensures
            match image_error(self.data@, self.mime_type@) {
                None => r matches Ok(img) && img.data == self.data && img.mime_type
                    == self.mime_type && img.wf(),
                Some(msg) => r matches Err(e) && e.is_invalid_parameters(msg),
            },
    {
        ImageContent::new(self.data, self.mime_type)
    }
}

/// The contents of a specific resource or sub-resource.
#[derive(Debug, Clone, Default, PartialEq)]
pub struct ResourceContents {
    /// The URI of this resource.
    pub uri: String,
    /// The media type of this resource, if known.
    pub mime_type: Option<String>,
}

impl ResourceContents {
    /// Starts building resource contents: an empty URI and no media type.
    pub fn builder() -> (r: ResourceContentsBuilder)
        ensures
            r.uri@ == Seq::<char>::empty(),
            r.mime_type is None,
    {
        ResourceContentsBuilder { uri: String::new(), mime_type: None }
    }
}

/// Builds `ResourceContents`.
#[derive(Debug, Clone)]
pub struct ResourceContentsBuilder {
    pub uri: String,
    pub mime_type: Option<String>,
}

impl ResourceContentsBuilder {
    /// Sets the URI to the canonical serialization of a parsed URI.
    pub fn uri(self, uri: Uri) -> (r: ResourceContentsBuilder)
        ensures
            r.uri@ == uri@.serialization,
            r.mime_type == self.mime_type,
    {
        let mut b = self;
        b.uri = uri.as_str().to_string();
        b
    }

    /// Sets the media type to the serialization of a parsed media type.
    pub fn mime_type(self, mime_type: MimeType) -> (r: ResourceContentsBuilder)
        ensures
            r.mime_type matches Some(m) && m@ == mime_type@,
            r.uri == self.uri,
    {
        let mut b = self;
        b.mime_type = Some(mime_type.as_str().to_string());
        b
    }

    pub fn build(self) -> (r: ResourceContents)
        ensures
            r.uri == self.uri,
            r.mime_type == self.mime_type,
    {
        ResourceContents { uri: self.uri, mime_type: self.mime_type }
    }
}

/// Text resource contents with the actual text data.
#[derive(Debug, Clone, Default, PartialEq)]
pub struct TextResourceContents {
    /// The URI of this resource.
    pub uri: String,
    /// The media type of this resource, if known.
    pub mime_type: Option<String>,
    /// The text content of the resource.
    pub text: String,
}

impl TextResourceContents {
    /// Starts building text resource contents: an empty URI, no media type,
    /// and no text yet.
    pub fn builder() -> (r: TextResourceContentsBuilder)
        ensures
            r.uri@ == Seq::<char>::empty(),
            r.mime_type is None,
            r.text is None,
    {
        TextResourceContentsBuilder { uri: String::new(), mime_type: None, text: None }
    }
}

/// Builds `TextResourceContents`; the text must be set.
#[derive(Debug, Clone)]
pub struct TextResourceContentsBuilder {
    pub uri: String,
    pub mime_type: Option<String>,
    pub text: Option<String>,
}

impl TextResourceContentsBuilder {
    /// Sets the URI to the canonical serialization of a parsed URI.
    pub fn uri(self, uri: Uri) -> (r: TextResourceContentsBuilder)
        ensures
            r.uri@ == uri@.serialization,
            r.mime_type == self.mime_type,
            r.text == self.text,
    {
        let mut b = self;
        b.uri = uri.as_str().to_string();
        b
    }

    /// Sets the media type to the serialization of a parsed media type.
    pub fn mime_type(self, mime_type: MimeType) -> (r: TextResourceContentsBuilder)
        ensures
            r.mime_type matches Some(m) && m@ == mime_type@,
            r.uri == self.uri,
            r.text == self.text,
    {
        let mut b = self;
        b.mime_type = Some(mime_type.as_str().to_string());
        b
    }

    /// Sets the text, which is taken verbatim.
    pub fn text(self, text: &str) -> (r: TextResourceContentsBuilder)
        ensures
            r.text matches Some(t) && t@ == text@,
            r.uri == self.uri,
            r.mime_type == self.mime_type,
    {
        let mut b = self;
        b.text = Some(text.to_string());
        b
    }

    /// Produces the contents; refused while the text is unset.
    pub fn build(self) -> (r: Result<TextResourceContents, PromptError>)
        ensures
            match self.text {
                Some(t) => r == Ok::<TextResourceContents, PromptError>(
                    TextResourceContents { uri: self.uri, mime_type: self.mime_type, text: t },
                ),
                None => r matches Err(e) && e is Other,
            },
    {
        match self.text {
            Some(text) => Ok(TextResourceContents { uri: self.uri, mime_type: self.mime_type, text }),
            None => Err(PromptError::Other("text is required".to_string())),
        }
    }
}

/// The contents of a resource, embedded into a prompt or tool call result.
#[derive(Debug, Clone, PartialEq)]
pub struct EmbeddedResource {
    /// The resource content.
    pub resource: TextResourceContents,
}

/// Content that a prompt message carries.
#[derive(Debug, Clone, PartialEq)]
pub enum PromptMessageContent {
    /// Plain text content.
    Text(TextContent),
    /// Image content with base64-encoded data.
    Image(ImageContent),
    /// Embedded server-side resource.
    Resource { resource: EmbeddedResource },
}

impl PromptMessageContent {
    /// Well-formed: image content passes the image checks.
    pub open spec fn wf(&self) -> bool {
        match self {
            PromptMessageContent::Image(img) => img.wf(),
            _ => true,
        }
    }
}

impl Default for PromptMessageContent {
    /// Text content with empty text.
    fn default() -> (r: PromptMessageContent)
        ensures
            r matches PromptMessageContent::Text(t) && t.text@ == Seq::<char>::empty(),
    {
        PromptMessageContent::Text(TextContent { text: String::new() })
    }
}

/// A message returned as part of a prompt.
#[derive(Debug, Clone, PartialEq)]
pub struct PromptMessage {
    /// The content of the message.
    pub content: PromptMessageContent,
    /// The role of the message sender.
    pub role: PromptMessageRole,
}

impl PromptMessage {
    /// Creates an image message; the data must be base64 and the media type
    /// must name an image.
    pub fn new_image(role: PromptMessageRole, data: String, mime_type: String) -> (r: Result<
        PromptMessage,
        PromptError,
    >)
        ensures
            match image_error(data@, mime_type@) {
                None => r == Ok::<PromptMessage, PromptError>(
                    PromptMessage {
                        role,
                        content: PromptMessageContent::Image(ImageContent { data, mime_type }),
                    },
                ),
                Some(msg) => r matches Err(e) && e.is_invalid_parameters(msg),
            },
    {
        validate_image(data.as_str(), mime_type.as_str())?;
        Ok(
            PromptMessage {
                role,
                content: PromptMessageContent::Image(ImageContent { data, mime_type }),
            },
        )
    }

    /// Creates a message that embeds a text resource, taken verbatim.
    pub fn new_resource(
        role: PromptMessageRole,
        uri: String,
        mime_type: Option<String>,
        text: String,
    ) -> (r: PromptMessage)
        ensures
            r == (PromptMessage {
                role,
                content: PromptMessageContent::Resource {
                    resource: EmbeddedResource {
                        resource: TextResourceContents { uri, mime_type, text },
                    },
                },
            }),
    {
        let resource_contents = TextResourceContents { uri, mime_type, text };
        PromptMessage {
            role,
            content: PromptMessageContent::Resource {
                resource: EmbeddedResource { resource: resource_contents },
            },
        }
    }

    /// Starts building a message: empty text content and no role yet.
    pub fn builder() -> (r: PromptMessageBuilder)
        ensures
            r.content_spec() matches PromptMessageContent::Text(t) && t.text@ == Seq::<
                char,
            >::empty(),
            r.role_spec() is None,
            r.wf(),
    {
        PromptMessageBuilder { content: PromptMessageContent::default(), role: None }
    }
}

/// Builds `PromptMessage`; the role must be set, and image content is
/// checked when it is set.
#[derive(Debug, Clone)]
pub struct PromptMessageBuilder {
    content: PromptMessageContent,
    role: Option<PromptMessageRole>,
}

impl PromptMessageBuilder {
    /// Well-formed: the content held passes the image checks.
    pub closed spec fn wf(&self) -> bool {
        self.content.wf()
    }

    pub closed spec fn content_spec(&self) -> PromptMessageContent {
        self.content
    }

    pub closed spec fn role_spec(&self) -> Option<PromptMessageRole> {
        self.role
    }

    /// Sets the content; image content that fails the image checks is refused.
    pub fn content(self, content: PromptMessageContent) -> (r: Result<
        PromptMessageBuilder,
        PromptError,
    >)
        ensures
            match content {
                PromptMessageContent::Image(img) => match image_error(img.data@, img.mime_type@) {
                    None => r matches Ok(b) && b.content_spec() == content && b.role_spec()
                        == self.role_spec(),
                    Some(msg) => r matches Err(e) && e.is_invalid_parameters(msg),
                },
                _ => r matches Ok(b) && b.content_spec() == content && b.role_spec()
                    == self.role_spec(),
            },
            r matches Ok(b) ==> b.wf(),
    {
        if let PromptMessageContent::Image(image) = &content {
            validate_image(image.data.as_str(), image.mime_type.as_str())?;
        }
        let mut b = self;
        b.content = content;
        Ok(b)
    }

    /// Sets the role of the sender.
    pub fn role(self, role: PromptMessageRole) -> (r: PromptMessageBuilder)
        ensures
            r.role_spec() == Some(role),
            r.content_spec() == self.content_spec(),
            self.wf() ==> r.wf(),
    {
        let mut b = self;
        b.role = Some(role);
        b
    }

    /// Produces the message; refused while the role is unset.
    pub fn build(self) -> (r: Result<PromptMessage, PromptError>)
        ensures
            match self.role_spec() {
                Some(role) => r == Ok::<PromptMessage, PromptError>(
                    PromptMessage { content: self.content_spec(), role },
                ),
                None => r matches Err(e) && e is Other,
            },
            self.wf() ==> (r matches Ok(m) ==> m.content.wf()),
    {
        match self.role {
            Some(role) => Ok(PromptMessage { content: self.content, role }),
            None => Err(PromptError::Other("role is required".to_string())),
        }
    }
}

/// The text held by a required string member.
fn required_string(v: &serde_json::Value, key: &str) -> (r: Result<String, PromptError>)
    ensures
        match member_str(value_doc(*v), key@) {
            Some(t) => r matches Ok(s) && s@ == t,
            None => r matches Err(e) && e is InvalidParameters,
        },
{
    match json_member(v, key) {
        JsonMember::Str(s) => Ok(s),
        _ => Err(PromptError::InvalidParameters("missing string member".to_string())),
    }
}

/// The text held by an optional string member; null counts as absent.
fn optional_string(v: &serde_json::Value, key: &str) -> (r: Result<Option<String>, PromptError>)
    ensures
        match r {
            Ok(o) => optional_str_ok(value_doc(*v), key@) && opt_view(o) == optional_str(
                value_doc(*v),
                key@,
            ),
            Err(e) => !optional_str_ok(value_doc(*v), key@) && e is InvalidParameters,
        },
{
    match json_member(v, key) {
        JsonMember::Str(s) => Ok(Some(s)),
        JsonMember::Missing | JsonMember::Null => Ok(None),
        JsonMember::Other => Err(PromptError::InvalidParameters("malformed string member".to_string())),
    }
}

/// A required member, whatever it holds.
fn required_member(v: &serde_json::Value, key: &str) -> (r: Result<serde_json::Value, PromptError>)
    ensures
        match r {
            Ok(x) => member(value_doc(*v), key@) == Some(value_doc(x)),
            Err(e) => member(value_doc(*v), key@) is None && e is InvalidParameters,
        },
{
    match json_get(v, key) {
        Some(x) => Ok(x),
        None => Err(PromptError::InvalidParameters("missing member".to_string())),
    }
}

/// What a decoder of this module reports on a document: where the text is
/// not JSON, an invalid-parameters error; else success exactly where the
/// document is accepted.
pub open spec fn decode_outcome<T>(
    doc: Option<JsonDoc>,
    r: Result<T, PromptError>,
    accepted: spec_fn(JsonDoc) -> bool,
) -> bool {
    match doc {
        None => r matches Err(e) && e is InvalidParameters,
        Some(d) => match r {
            Ok(_) => accepted(d),
            Err(e) => !accepted(d) && e is InvalidParameters,
        },
    }
}

/// The document of an optional list of argument schemas.
pub open spec fn arguments_doc(arguments: Option<Vec<serde_json::Value>>) -> Option<JsonDoc> {
    match arguments {
        Some(v) => Some(JsonDoc::Array(v@.map_values(|x: serde_json::Value| value_doc(x)))),
        None => None,
    }
}

impl Prompt {
    /// The members of the encoding: `name`, and `arguments` and
    /// `description` where they are present.
    pub open spec fn members(&self) -> Map<Seq<char>, JsonDoc> {
        insert_some(
            insert_some(no_members(), "arguments"@, arguments_doc(self.arguments)).insert(
                "name"@,
                JsonDoc::Str(self.name@),
            ),
            "description"@,
            opt_str_doc(self.description),
        )
    }

    /// The document that encodes the prompt.
    pub open spec fn to_doc(&self) -> JsonDoc {
        JsonDoc::Object(self.members())
    }

    /// A document decodes as a prompt: a string `name`, a `description`
    /// that is absent, null or a string, and `arguments` absent, null or an
    /// array.
    pub open spec fn doc_ok(d: JsonDoc) -> bool {
        member_str(d, "name"@) is Some && optional_str_ok(d, "description"@) && (!present(
            d,
            "arguments"@,
        ) || member(d, "arguments"@) matches Some(JsonDoc::Array(_)))
    }

    /// The prompt that a document decodes to, field by field.
    pub open spec fn decodes_to(d: JsonDoc, p: Prompt) -> bool {
        member_str(d, "name"@) == Some(p.name@) && optional_str(d, "description"@) == opt_view(
            p.description,
        ) && arguments_doc(p.arguments) == (if present(d, "arguments"@) {
            member(d, "arguments"@)
        } else {
            None
        })
    }

    /// The JSON object that encodes the prompt; absent arguments and
    /// description are left out.
    pub fn into_json_object(self) -> (r: serde_json::Map<String, serde_json::Value>)
        ensures
            json_map_doc(r) == self.members(),
    {
        let mut m = json_map_new();
        if let Some(args) = self.arguments {
            json_map_insert(&mut m, "arguments".to_string(), json_array(args));
        }
        json_map_insert(&mut m, "name".to_string(), json_string(self.name));
        insert_optional_string(&mut m, "description", self.description);
        m
    }

    /// The compact JSON text of the prompt.
    pub fn to_json_text(self) -> (r: String)
        ensures
            r@ == json_text_of(self.to_doc()),
    {
        json_text(&json_object(self.into_json_object()))
    }

    /// Decodes a prompt from JSON text.
    pub fn from_json_text(s: &str) -> (r: Result<Prompt, PromptError>)
        ensures
            decode_outcome(json_doc(s@), r, |d: JsonDoc| Prompt::doc_ok(d)),
            r matches Ok(p) ==> json_doc(s@) matches Some(d) && Prompt::decodes_to(d, p),
    {
        let v = match parse_json(s) {
            Ok(v) => v,
            Err(_) => {
                return Err(PromptError::InvalidParameters("invalid JSON".to_string()));
            },
        };
        let name = required_string(&v, "name")?;
        let description = optional_string(&v, "description")?;
        let arguments = match json_member_value(&v, "arguments") {
            Some(a) => match json_as_array(&a) {
                Some(items) => Some(items),
                None => {
                    return Err(PromptError::InvalidParameters("arguments must be an array".to_string()));
                },
            },
            None => None,
        };
        Ok(Prompt { arguments, name, description })
    }
}

impl PromptMessageRole {
    /// The role's name on the wire.
    pub open spec fn name_spec(&self) -> Seq<char> {
        match self {
            PromptMessageRole::User => "user"@,
            PromptMessageRole::Assistant => "assistant"@,
        }
    }

    /// The role's name on the wire.
    pub fn name(&self) -> (r: String)
        ensures
            r@ == self.name_spec(),
    {
        match self {
            PromptMessageRole::User => "user".to_string(),
            PromptMessageRole::Assistant => "assistant".to_string(),
        }
    }

    /// The role with the given name on the wire.
    pub fn from_name(name: &String) -> (r: Option<PromptMessageRole>)
        ensures
            r is Some <==> (name@ == "user"@ || name@ == "assistant"@),
            r matches Some(role) ==> role.name_spec() == name@,
    {
        if *name == "user".to_string() {
            Some(PromptMessageRole::User)
        } else if *name == "assistant".to_string() {
            Some(PromptMessageRole::Assistant)
        } else {
            None
        }
    }
}

impl TextResourceContents {
    /// The members of the encoding: `uri`, `mimeType` where it is present,
    /// and `text`.
    pub open spec fn members(&self) -> Map<Seq<char>, JsonDoc> {
        insert_some(
            no_members().insert("uri"@, JsonDoc::Str(self.uri@)),
            "mimeType"@,
            opt_str_doc(self.mime_type),
        ).insert("text"@, JsonDoc::Str(self.text@))
    }

    /// The document that encodes the contents.
    pub open spec fn to_doc(&self) -> JsonDoc {
        JsonDoc::Object(self.members())
    }

    /// A document decodes as text resource contents: a string `uri`, a
    /// `mimeType` that is absent, null or a string, and a string `text`.
    pub open spec fn doc_ok(d: JsonDoc) -> bool {
        member_str(d, "uri"@) is Some && optional_str_ok(d, "mimeType"@) && member_str(d, "text"@) is Some
    }

    /// The contents that a document decodes to, field by field.
    pub open spec fn decodes_to(d: JsonDoc, t: TextResourceContents) -> bool {
        member_str(d, "uri"@) == Some(t.uri@) && optional_str(d, "mimeType"@) == opt_view(
            t.mime_type,
        ) && member_str(d, "text"@) == Some(t.text@)
    }

    /// The JSON value that encodes the contents.
    pub fn into_json(self) -> (r: serde_json::Value)
        ensures
            value_doc(r) == self.to_doc(),
    {
        let mut m = json_map_new();
        json_map_insert(&mut m, "uri".to_string(), json_string(self.uri));
        insert_optional_string(&mut m, "mimeType", self.mime_type);
        json_map_insert(&mut m, "text".to_string(), json_string(self.text));
        json_object(m)
    }

    /// The compact JSON text of the contents.
    pub fn to_json_text(self) -> (r: String)
        ensures
            r@ == json_text_of(self.to_doc()),
    {
        json_text(&self.into_json())
    }

    /// Decodes the contents from a JSON value.
    pub fn from_json(v: &serde_json::Value) -> (r: Result<TextResourceContents, PromptError>)
        ensures
            decode_outcome(Some(value_doc(*v)), r, |d: JsonDoc| TextResourceContents::doc_ok(d)),
            r matches Ok(t) ==> TextResourceContents::decodes_to(value_doc(*v), t),
    {
        let uri = required_string(v, "uri")?;
        let mime_type = optional_string(v, "mimeType")?;
        let text = required_string(v, "text")?;
        Ok(TextResourceContents { uri, mime_type, text })
    }

    /// Decodes the contents from JSON text.
    pub fn from_json_text(s: &str) -> (r: Result<TextResourceContents, PromptError>)
        ensures
            decode_outcome(json_doc(s@), r, |d: JsonDoc| TextResourceContents::doc_ok(d)),
            r matches Ok(t) ==> json_doc(s@) matches Some(d) && TextResourceContents::decodes_to(
                d,
                t,
            ),
    {
        match parse_json(s) {
            Ok(v) => TextResourceContents::from_json(&v),
            Err(_) => Err(PromptError::InvalidParameters("invalid JSON".to_string())),
        }
    }
}

impl ResourceContents {
    /// The members of the encoding: `uri`, and `mimeType` where it is
    /// present.
    pub open spec fn members(&self) -> Map<Seq<char>, JsonDoc> {
        insert_some(
            no_members().insert("uri"@, JsonDoc::Str(self.uri@)),
            "mimeType"@,
            opt_str_doc(self.mime_type),
        )
    }

    /// The document that encodes the contents.
    pub open spec fn to_doc(&self) -> JsonDoc {
        JsonDoc::Object(self.members())
    }

    /// A document decodes as resource contents: a string `uri`, and a
    /// `mimeType` that is absent, null or a string.
    pub open spec fn doc_ok(d: JsonDoc) -> bool {
        member_str(d, "uri"@) is Some && optional_str_ok(d, "mimeType"@)
    }

    /// The contents that a document decodes to, field by field.
    pub open spec fn decodes_to(d: JsonDoc, c: ResourceContents) -> bool {
        member_str(d, "uri"@) == Some(c.uri@) && optional_str(d, "mimeType"@) == opt_view(
            c.mime_type,
        )
    }

    /// The compact JSON text of the contents.
    pub fn to_json_text(self) -> (r: String)
        ensures
            r@ == json_text_of(self.to_doc()),
    {
        let mut m = json_map_new();
        json_map_insert(&mut m, "uri".to_string(), json_string(self.uri));
        insert_optional_string(&mut m, "mimeType", self.mime_type);
        json_text(&json_object(m))
    }

    /// Decodes the contents from JSON text.
    pub fn from_json_text(s: &str) -> (r: Result<ResourceContents, PromptError>)
        ensures
            decode_outcome(json_doc(s@), r, |d: JsonDoc| ResourceContents::doc_ok(d)),
            r matches Ok(c) ==> json_doc(s@) matches Some(d) && ResourceContents::decodes_to(d, c),
    {
        let v = match parse_json(s) {
            Ok(v) => v,
            Err(_) => {
                return Err(PromptError::InvalidParameters("invalid JSON".to_string()));
            },
        };
        let uri = required_string(&v, "uri")?;
        let mime_type = optional_string(&v, "mimeType")?;
        Ok(ResourceContents { uri, mime_type })
    }
}

impl PromptMessageContent {
    /// The document that encodes the content, tagged by a `type` member.
    pub open spec fn to_doc(&self) -> JsonDoc {
        match self {
            PromptMessageContent::Text(t) => JsonDoc::Object(
                no_members().insert("type"@, JsonDoc::Str("text"@)).insert(
                    "text"@,
                    JsonDoc::Str(t.text@),
                ),
            ),
            PromptMessageContent::Image(i) => JsonDoc::Object(
                no_members().insert("type"@, JsonDoc::Str("image"@)).insert(
                    "data"@,
                    JsonDoc::Str(i.data@),
                ).insert("mimeType"@, JsonDoc::Str(i.mime_type@)),
            ),
            PromptMessageContent::Resource { resource } => JsonDoc::Object(
                no_members().insert("type"@, JsonDoc::Str("resource"@)).insert(
                    "resource"@,
                    JsonDoc::Object(no_members().insert("resource"@, resource.resource.to_doc())),
                ),
            ),
        }
    }

    /// A document decodes as content: its `type` is `text` with a string
    /// `text`; `image` with string `data` and `mimeType` that pass the image
    /// check; or `resource` with a `resource` member whose own `resource`
    /// member decodes as text resource contents.
    pub open spec fn doc_ok(d: JsonDoc) -> bool {
        match member_str(d, "type"@) {
            Some(t) => if t == "text"@ {
                member_str(d, "text"@) is Some
            } else if t == "image"@ {
                member_str(d, "data"@) matches Some(data) && member_str(d, "mimeType"@) matches Some(
                    m,
                ) && image_error(data, m) is None
            } else if t == "resource"@ {
                member(d, "resource"@) matches Some(e) && member(e, "resource"@) matches Some(inner)
                    && TextResourceContents::doc_ok(inner)
            } else {
                false
            },
            None => false,
        }
    }

    /// The content that a document decodes to.
    pub open spec fn decodes_to(d: JsonDoc, c: PromptMessageContent) -> bool {
        match c {
            PromptMessageContent::Text(t) => member_str(d, "type"@) == Some("text"@) && member_str(
                d,
                "text"@,
            ) == Some(t.text@),
            PromptMessageContent::Image(i) => member_str(d, "type"@) == Some("image"@) && member_str(
                d,
                "data"@,
            ) == Some(i.data@) && member_str(d, "mimeType"@) == Some(i.mime_type@),
            PromptMessageContent::Resource { resource } => member_str(d, "type"@) == Some(
                "resource"@,
            ) && (member(d, "resource"@) matches Some(e) && member(e, "resource"@) matches Some(
                inner,
            ) && TextResourceContents::decodes_to(inner, resource.resource)),
        }
    }

    /// The JSON value that encodes the content, tagged by a `type` member.
    pub fn into_json(self) -> (r: serde_json::Value)
        ensures
            value_doc(r) == self.to_doc(),
    {
        let mut m = json_map_new();
        match self {
            PromptMessageContent::Text(t) => {
                json_map_insert(&mut m, "type".to_string(), json_string("text".to_string()));
                json_map_insert(&mut m, "text".to_string(), json_string(t.text));
            },
            PromptMessageContent::Image(i) => {
                json_map_insert(&mut m, "type".to_string(), json_string("image".to_string()));
                json_map_insert(&mut m, "data".to_string(), json_string(i.data));
                json_map_insert(&mut m, "mimeType".to_string(), json_string(i.mime_type));
            },
            PromptMessageContent::Resource { resource } => {
                json_map_insert(&mut m, "type".to_string(), json_string("resource".to_string()));
                let mut inner = json_map_new();
                json_map_insert(&mut inner, "resource".to_string(), resource.resource.into_json());
                json_map_insert(&mut m, "resource".to_string(), json_object(inner));
            },
        }
        json_object(m)
    }

    /// The compact JSON text of the content.
    pub fn to_json_text(self) -> (r: String)
        ensures
            r@ == json_text_of(self.to_doc()),
    {
        json_text(&self.into_json())
    }

    /// Decodes content from a JSON value tagged by its `type` member. Image
    /// content goes through the same check as on construction.
    pub fn from_json(v: &serde_json::Value) -> (r: Result<PromptMessageContent, PromptError>)
        ensures
            decode_outcome(Some(value_doc(*v)), r, |d: JsonDoc| PromptMessageContent::doc_ok(d)),
            r matches Ok(c) ==> PromptMessageContent::decodes_to(value_doc(*v), c) && c.wf(),
    {
        let tag = required_string(v, "type")?;
        if tag == "text".to_string() {
            let text = required_string(v, "text")?;
            Ok(PromptMessageContent::Text(TextContent { text }))
        } else if tag == "image".to_string() {
            let data = required_string(v, "data")?;
            let mime_type = required_string(v, "mimeType")?;
            validate_image(data.as_str(), mime_type.as_str())?;
            Ok(PromptMessageContent::Image(ImageContent { data, mime_type }))
        } else if tag == "resource".to_string() {
            let embedded = required_member(v, "resource")?;
            let inner = required_member(&embedded, "resource")?;
            let contents = TextResourceContents::from_json(&inner)?;
            Ok(PromptMessageContent::Resource { resource: EmbeddedResource { resource: contents } })
        } else {
            Err(PromptError::InvalidParameters("unknown content type".to_string()))
        }
    }
}

impl PromptMessage {
    /// The document that encodes the message.
    pub open spec fn to_doc(&self) -> JsonDoc {
        JsonDoc::Object(
            no_members().insert("content"@, self.content.to_doc()).insert(
                "role"@,
                JsonDoc::Str(self.role.name_spec()),
            ),
        )
    }

    /// A document decodes as a message: a `role` of `user` or `assistant`,
    /// and a `content` member that decodes as content.
    pub open spec fn doc_ok(d: JsonDoc) -> bool {
        &&& member_str(d, "role"@) matches Some(role) && (role == "user"@ || role == "assistant"@)
        &&& member(d, "content"@) matches Some(c) && PromptMessageContent::doc_ok(c)
    }

    /// The message that a document decodes to.
    pub open spec fn decodes_to(d: JsonDoc, m: PromptMessage) -> bool {
        &&& member_str(d, "role"@) == Some(m.role.name_spec())
        &&& member(d, "content"@) matches Some(c) && PromptMessageContent::decodes_to(c, m.content)
    }

    /// The compact JSON text of the message.
    pub fn to_json_text(self) -> (r: String)
        ensures
            r@ == json_text_of(self.to_doc()),
    {
        let mut m = json_map_new();
        json_map_insert(&mut m, "content".to_string(), self.content.into_json());
        json_map_insert(&mut m, "role".to_string(), json_string(self.role.name()));
        json_text(&json_object(m))
    }

    /// Decodes a message from JSON text; decoded image content is checked
    /// exactly as constructed content is.
    pub fn from_json_text(s: &str) -> (r: Result<PromptMessage, PromptError>)
        ensures
            decode_outcome(json_doc(s@), r, |d: JsonDoc| PromptMessage::doc_ok(d)),
            r matches Ok(m) ==> json_doc(s@) matches Some(d) && PromptMessage::decodes_to(d, m)
                && m.content.wf(),
    {
        let v = match parse_json(s) {
            Ok(v) => v,
            Err(_) => {
                return Err(PromptError::InvalidParameters("invalid JSON".to_string()));
            },
        };
        let role_name = required_string(&v, "role")?;
        let role = match PromptMessageRole::from_name(&role_name) {
            Some(role) => role,
            None => {
                return Err(PromptError::InvalidParameters("unknown role".to_string()));
            },
        };
        let content = PromptMessageContent::from_json(&required_member(&v, "content")?)?;
        Ok(PromptMessage { content, role })
    }
}

/// Image content with base64 data and an image media type is accepted, and
/// the data it keeps decodes to the same bytes as the data it was given.
pub proof fn lemma_valid_image_accepted(data: Seq<char>, mime_type: Seq<char>)
    requires
        base64_decoded(data) is Some,
        is_image_mime(mime_type),
    ensures
        image_error(data, mime_type) is None,
{
}

/// Data that is not base64 is refused with one and the same
/// invalid-parameters error, whatever the media type: every path that
/// builds image content reports it through `image_error`.
pub proof fn lemma_bad_base64_rejected(data: Seq<char>, mime_type: Seq<char>)
    requires
        base64_decoded(data) is None,
    ensures
        image_error(data, mime_type) == Some(bad_base64_message()),
{
}

/// A media type that does not start with `image/` is refused, whether or
/// not the data is base64.
pub proof fn lemma_non_image_mime_rejected(data: Seq<char>, mime_type: Seq<char>)
    requires
        !is_image_mime(mime_type),
    ensures
        image_error(data, mime_type) is Some,
{
}

/// The member names and tags of prompts and prompt messages are distinct.
proof fn lemma_prompt_names_distinct()
    ensures
        "arguments"@ != "name"@,
        "arguments"@ != "description"@,
        "name"@ != "description"@,
        "uri"@ != "mimeType"@,
        "uri"@ != "text"@,
        "mimeType"@ != "text"@,
        "type"@ != "text"@,
        "type"@ != "data"@,
        "type"@ != "mimeType"@,
        "type"@ != "resource"@,
        "data"@ != "mimeType"@,
        "content"@ != "role"@,
        "text"@ != "image"@,
        "text"@ != "resource"@,
        "image"@ != "resource"@,
        "user"@ != "assistant"@,
{
    reveal_strlit("arguments");
    reveal_strlit("name");
    reveal_strlit("description");
    reveal_strlit("uri");
    reveal_strlit("mimeType");
    reveal_strlit("text");
    reveal_strlit("type");
    reveal_strlit("data");
    reveal_strlit("resource");
    reveal_strlit("content");
    reveal_strlit("role");
    reveal_strlit("image");
    reveal_strlit("user");
    reveal_strlit("assistant");
    assert("arguments"@[0] != "name"@[0]);
    assert("arguments"@[0] != "description"@[0]);
    assert("name"@[0] != "description"@[0]);
    assert("uri"@[0] != "mimeType"@[0]);
    assert("uri"@[0] != "text"@[0]);
    assert("mimeType"@[0] != "text"@[0]);
    assert("type"@[1] != "text"@[1]);
    assert("type"@[0] != "data"@[0]);
    assert("type"@[0] != "mimeType"@[0]);
    assert("type"@[0] != "resource"@[0]);
    assert("data"@[0] != "mimeType"@[0]);
    assert("content"@[0] != "role"@[0]);
    assert("text"@[0] != "image"@[0]);
    assert("text"@[0] != "resource"@[0]);
    assert("image"@[0] != "resource"@[0]);
    assert("user"@[0] != "assistant"@[0]);
}

/// Every prompt decodes back to itself from its encoding.
pub proof fn lemma_prompt_round_trip(p: Prompt)
    ensures
        Prompt::doc_ok(p.to_doc()),
        Prompt::decodes_to(p.to_doc(), p),
{
    lemma_prompt_names_distinct();
}

/// Text resource contents decode back to themselves from their encoding.
pub proof fn lemma_text_resource_contents_round_trip(t: TextResourceContents)
    ensures
        TextResourceContents::doc_ok(t.to_doc()),
        TextResourceContents::decodes_to(t.to_doc(), t),
{
    lemma_prompt_names_distinct();
}

/// Resource contents decode back to themselves from their encoding.
pub proof fn lemma_resource_contents_round_trip(c: ResourceContents)
    ensures
        ResourceContents::doc_ok(c.to_doc()),
        ResourceContents::decodes_to(c.to_doc(), c),
{
    lemma_prompt_names_distinct();
}

/// The encoding of content decodes exactly when the content passes the
/// checks that setting it on a message applies (image content must pass
/// the image check), and then decodes back to the same content.
pub proof fn lemma_content_round_trip(c: PromptMessageContent)
    ensures
        PromptMessageContent::doc_ok(c.to_doc()) == c.wf(),
        c.wf() ==> PromptMessageContent::decodes_to(c.to_doc(), c),
{
    lemma_prompt_names_distinct();
    match c {
        PromptMessageContent::Resource { resource } => {
            lemma_text_resource_contents_round_trip(resource.resource);
        },
        _ => {},
    }
}

/// The encoding of a message decodes exactly when its content passes the
/// checks that constructing it applies, and then decodes back to the same
/// message. Every message made by `new_image`, `new_resource` or the
/// builder therefore decodes back to itself.
pub proof fn lemma_message_round_trip(m: PromptMessage)
    ensures
        PromptMessage::doc_ok(m.to_doc()) == m.content.wf(),
        m.content.wf() ==> PromptMessage::decodes_to(m.to_doc(), m),
{
    lemma_prompt_names_distinct();
    lemma_content_round_trip(m.content);
}

} // verus!
