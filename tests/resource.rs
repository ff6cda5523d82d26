use mcp_protocol::json::JsonMember;
use mcp_protocol::resource::{DecodeError, MimeType, Resource, ResourceContent, ResourceError, Uri};
use std::io::Write;

fn uri(s: &str) -> Uri {
    Uri::parse(s).unwrap()
}

fn mime(m: &mime::Mime) -> MimeType {
    MimeType::parse(m.as_ref()).unwrap()
}

#[test]
fn test_new_resource_with_file_uri() {
    let mut temp_file = tempfile::NamedTempFile::new().unwrap();
    temp_file.write_all(b"test content\n").unwrap();

    let url = url::Url::from_file_path(temp_file.path()).unwrap();
    let resource = Resource::builder().uri(uri(url.as_str())).name("test").build();
    assert!(resource.uri.starts_with("file:///"));
    assert_eq!(resource.mime_type, "text/plain");
    assert_eq!(resource.scheme().unwrap(), "file");
}

#[test]
fn test_resource_with_str_uri() {
    let test_content = "Hello-world!";
    let s = format!("str:///{}", test_content);

    let resource = Resource::builder().uri(uri(&s)).name("test.txt").build();

    assert_eq!(resource.uri, s);
    assert_eq!(resource.name, "test.txt");
    assert_eq!(resource.mime_type, "text/plain");
    assert_eq!(resource.scheme().unwrap(), "str");
}

#[test]
fn test_mime_type_validation() {
    let resource = Resource::builder()
        .uri(uri("file:///test.txt"))
        .mime_type(mime(&mime::TEXT_PLAIN))
        .build();
    assert_eq!(resource.mime_type, "text/plain");

    let resource = Resource::builder()
        .uri(uri("file:///test.bin"))
        .mime_type(mime(&mime::APPLICATION_OCTET_STREAM))
        .build();
    assert_eq!(resource.mime_type, "application/octet-stream");

    let resource = Resource::builder().uri(uri("file:///test.txt")).build();
    assert_eq!(resource.mime_type, "text/plain");
}

#[test]
fn test_with_description() {
    let mut resource = Resource::builder().uri(uri("file:///test.txt")).name("test.txt").build();

    resource.description = Some("A test resource".to_string());

    assert_eq!(resource.description, Some("A test resource".to_string()));
}

#[test]
fn test_resource_builder_with_mime_type() {
    let resource = Resource::builder()
        .uri(uri("file:///test.txt"))
        .name("test.txt")
        .mime_type(mime(&mime::APPLICATION_OCTET_STREAM))
        .build();

    assert_eq!(resource.mime_type, "application/octet-stream");
}

#[test]
fn test_invalid_uri() {
    let result = Uri::parse("not-a-uri");
    assert!(result.is_err());
}

#[test]
fn test_resource_content_deserialization() {
    let text_json = r#"
        {
            "uri": "str:///content",
            "mimeType": "text/plain",
            "text": "Hello world"
        }
        "#;

    let blob_json = r#"
        {
            "uri": "blob:///data",
            "mimeType": "application/octet-stream",
            "blob": "base64encodedcontent"
        }
        "#;

    let text_content = ResourceContent::from_json_str(text_json).unwrap();
    let blob_content = ResourceContent::from_json_str(blob_json).unwrap();

    match text_content {
        ResourceContent::TextResourceContents { uri, mime_type, text } => {
            assert_eq!(uri, "str:///content");
            assert_eq!(mime_type, Some("text/plain".to_string()));
            assert_eq!(text, "Hello world");
        }
        _ => panic!("Expected TextResourceContents"),
    }

    match blob_content {
        ResourceContent::BlobResourceContent { uri, mime_type, blob } => {
            assert_eq!(uri, "blob:///data");
            assert_eq!(mime_type, Some("application/octet-stream".to_string()));
            assert_eq!(blob, "base64encodedcontent");
        }
        _ => panic!("Expected BlobResourceContent"),
    }
}

#[test]
fn resource_content_decodes_text_and_blob_shapes() {
    let text = ResourceContent::from_json_str(
        r#"{"uri":"str:///content","mimeType":"text/plain","text":"Hello world"}"#,
    )
    .unwrap();
    assert_eq!(
        text,
        ResourceContent::TextResourceContents {
            uri: "str:///content".to_string(),
            mime_type: Some("text/plain".to_string()),
            text: "Hello world".to_string(),
        }
    );
    let blob = ResourceContent::from_json_str(
        r#"{"uri":"blob:///data","mimeType":"application/octet-stream","blob":"YWJj"}"#,
    )
    .unwrap();
    assert_eq!(
        blob,
        ResourceContent::BlobResourceContent {
            uri: "blob:///data".to_string(),
            mime_type: Some("application/octet-stream".to_string()),
            blob: "YWJj".to_string(),
        }
    );
}

#[test]
fn resource_content_without_text_or_blob_is_refused() {
    let r = ResourceContent::from_json_str(r#"{"uri":"str:///x","mimeType":"text/plain"}"#);
    assert_eq!(r.unwrap_err(), DecodeError::MissingContent);
}

#[test]
fn resource_content_with_text_and_blob_decodes_as_text() {
    let r = ResourceContent::from_json_str(r#"{"uri":"str:///x","text":"t","blob":"YWJj"}"#).unwrap();
    assert_eq!(
        r,
        ResourceContent::TextResourceContents {
            uri: "str:///x".to_string(),
            mime_type: None,
            text: "t".to_string(),
        }
    );
}

#[test]
fn resource_content_errors() {
    assert_eq!(ResourceContent::from_json_str("{not json").unwrap_err(), DecodeError::Syntax);
    assert_eq!(ResourceContent::from_json_str(r#"{"text":"t"}"#).unwrap_err(), DecodeError::MissingMember);
    assert_eq!(ResourceContent::from_json_str(r#"[1, 2]"#).unwrap_err(), DecodeError::MissingMember);
    assert_eq!(
        ResourceContent::from_json_str(r#"{"uri":"a:b","mimeType":5,"text":"t"}"#).unwrap_err(),
        DecodeError::InvalidMember
    );
    let r = ResourceContent::from_json_str(r#"{"uri":"a:b","mimeType":null,"text":7,"blob":"Zg=="}"#).unwrap();
    assert_eq!(
        r,
        ResourceContent::BlobResourceContent { uri: "a:b".to_string(), mime_type: None, blob: "Zg==".to_string() }
    );
}

#[test]
fn resource_content_from_members() {
    let r = ResourceContent::from_members(
        JsonMember::Str("u:v".to_string()),
        JsonMember::Missing,
        JsonMember::Null,
        JsonMember::Missing,
    );
    assert_eq!(r.unwrap_err(), DecodeError::MissingContent);
}

#[test]
fn resource_name_defaults_to_last_path_segment() {
    let r = Resource::builder().uri(uri("file:///a/b/test.txt")).build();
    assert_eq!(r.name, "test.txt");
    assert_eq!(r.uri, "file:///a/b/test.txt");
    assert_eq!(r.mime_type, "text/plain");
    assert_eq!(r.description, None);
}

#[test]
fn resource_name_without_path_segments_is_unnamed() {
    let r = Resource::builder().uri(uri("mailto:someone@example.com")).build();
    assert_eq!(r.name, "unnamed");
    let r = Resource::builder().uri(uri("https://example.com")).build();
    assert_eq!(r.name, "unnamed");
    let r = Resource::builder().build();
    assert_eq!(r.name, "unnamed");
    assert_eq!(r.uri, "");
}

#[test]
fn resource_name_from_uri_overrides() {
    let r = Resource::builder()
        .uri(uri("file:///x/y.txt"))
        .name_from_uri(uri("https://example.com/data/report.csv"))
        .description("d")
        .build();
    assert_eq!(r.name, "report.csv");
    assert_eq!(r.uri, "file:///x/y.txt");
    assert_eq!(r.description, Some("d".to_string()));
    let r = Resource::builder().name("explicit").uri(uri("file:///a/b.txt")).build();
    assert_eq!(r.name, "explicit");
}

#[test]
fn uri_parse_canonicalises() {
    let u = Uri::parse("HTTPS://Example.com").unwrap();
    assert_eq!(u.as_str(), "https://example.com/");
    assert_eq!(u.scheme(), "https");
}

#[test]
fn resource_scheme_of_bad_uri_is_error() {
    let r = Resource {
        uri: "no scheme here".to_string(),
        mime_type: "text/plain".to_string(),
        name: "n".to_string(),
        description: None,
    };
    assert!(matches!(r.scheme(), Err(ResourceError::InvalidUri(_))));
}

#[test]
fn mime_type_parse() {
    assert_eq!(MimeType::parse("application/json").unwrap().as_str(), "application/json");
    assert_eq!(MimeType::parse("Text/HTML").unwrap().as_str(), "text/html");
    assert!(MimeType::parse("not a mime").is_none());
}

#[test]
fn test_resource_serialization() {
    let resource = Resource::builder()
        .uri(uri("https://example.com/data.json"))
        .name("test-json")
        .mime_type(mime(&mime::APPLICATION_JSON))
        .description("Test JSON resource")
        .build();

    let serialized = resource.to_json_text();
    assert!(serialized.contains("\"uri\":\"https://example.com/data.json\""));
    assert!(serialized.contains("\"mimeType\":\"application/json\""));
    assert!(serialized.contains("\"name\":\"test-json\""));
    assert!(serialized.contains("\"description\":\"Test JSON resource\""));
}

#[test]
fn test_resource_deserialization() {
    let json = r#"
        {
            "uri": "https://example.com/data.txt",
            "mimeType": "text/plain",
            "name": "example-text",
            "description": "A plain text file"
        }
        "#;

    let resource = Resource::from_json_text(json).unwrap();

    assert_eq!(resource.uri, "https://example.com/data.txt");
    assert_eq!(resource.mime_type, "text/plain");
    assert_eq!(resource.name, "example-text");
    assert_eq!(resource.description, Some("A plain text file".to_string()));
}

#[test]
fn test_resource_content_serialization_text() {
    let content = ResourceContent::TextResourceContents {
        uri: "str:///content".to_string(),
        mime_type: Some("text/plain".to_string()),
        text: "Hello world".to_string(),
    };

    let serialized = content.to_json_text();
    assert!(serialized.contains("\"uri\":\"str:///content\""));
    assert!(serialized.contains("\"mimeType\":\"text/plain\""));
    assert!(serialized.contains("\"text\":\"Hello world\""));
}

#[test]
fn test_resource_content_serialization_blob() {
    let content = ResourceContent::BlobResourceContent {
        uri: "blob:///data".to_string(),
        mime_type: Some("application/octet-stream".to_string()),
        blob: "base64encodedcontent".to_string(),
    };

    let serialized = content.to_json_text();
    assert!(serialized.contains("\"uri\":\"blob:///data\""));
    assert!(serialized.contains("\"mimeType\":\"application/octet-stream\""));
    assert!(serialized.contains("\"blob\":\"base64encodedcontent\""));
}

#[test]
fn resources_round_trip() {
    let r = Resource::builder().uri(uri("file:///a/b/c.md")).description("doc").build();
    assert_eq!(Resource::from_json_text(&r.clone().to_json_text()).unwrap(), r);
    let r = Resource::builder().uri(uri("str:///x")).build();
    let text = r.clone().to_json_text();
    assert!(!text.contains("description"));
    assert_eq!(Resource::from_json_text(&text).unwrap(), r);
    let c = ResourceContent::BlobResourceContent { uri: "b:///d".to_string(), mime_type: None, blob: "YWJj".to_string() };
    let text = c.clone().to_json_text();
    assert!(!text.contains("mimeType"));
    assert_eq!(ResourceContent::from_json_str(&text).unwrap(), c);
}

#[test]
fn resource_decoding_errors() {
    assert_eq!(Resource::from_json_text("nope").unwrap_err(), DecodeError::Syntax);
    assert_eq!(
        Resource::from_json_text(r#"{"uri":"a:b","mimeType":"text/plain"}"#).unwrap_err(),
        DecodeError::MissingMember
    );
    assert_eq!(
        Resource::from_json_text(r#"{"uri":"a:b","mimeType":"text/plain","name":"n","description":1}"#).unwrap_err(),
        DecodeError::InvalidMember
    );
}
