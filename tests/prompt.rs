use base64::Engine;
use mcp_protocol::prompt::{
    ImageContent, Prompt, PromptError, PromptMessage, PromptMessageContent, PromptMessageRole,
    ResourceContents, TextContent, TextResourceContents,
};
use mcp_protocol::resource::{MimeType, Uri};

const BAD_BASE64: &str = "Image data must be valid base64";
const BAD_MIME: &str = "MIME type must be a valid image type (e.g. image/jpeg)";

fn invalid_message(e: PromptError) -> String {
    match e {
        PromptError::InvalidParameters(m) => m,
        PromptError::Other(m) => panic!("unexpected error kind: {}", m),
    }
}

#[test]
fn valid_image_round_trips_through_base64() {
    let img = ImageContent::new("YWJj".to_string(), "image/png".to_string()).unwrap();
    assert_eq!(img.data, "YWJj");
    assert_eq!(img.mime_type, "image/png");
    let bytes = base64::prelude::BASE64_STANDARD.decode(&img.data).unwrap();
    assert_eq!(bytes, b"abc".to_vec());
}

#[test]
fn invalid_base64_is_refused_on_every_path() {
    let d = "not base64!!";
    let e1 = ImageContent::new(d.to_string(), "image/png".to_string()).unwrap_err();
    let e2 = ImageContent::builder().data(d).unwrap_err();
    let e3 = PromptMessage::new_image(PromptMessageRole::User, d.to_string(), "image/png".to_string())
        .unwrap_err();
    let content = PromptMessageContent::Image(ImageContent { data: d.to_string(), mime_type: "image/png".to_string() });
    let e4 = PromptMessage::builder().content(content).unwrap_err();
    for e in [e1, e2, e3, e4] {
        assert_eq!(invalid_message(e), BAD_BASE64);
    }
}

#[test]
fn non_image_mime_is_refused() {
    for m in ["text/plain", "imagex/png", "image", ""] {
        let e = ImageContent::new("YWJj".to_string(), m.to_string()).unwrap_err();
        assert_eq!(invalid_message(e), BAD_MIME);
        let e = ImageContent::builder().mime_type(m).unwrap_err();
        assert_eq!(invalid_message(e), BAD_MIME);
        let e = PromptMessage::new_image(PromptMessageRole::Assistant, "YWJj".to_string(), m.to_string())
            .unwrap_err();
        assert_eq!(invalid_message(e), BAD_MIME);
        let e = ImageContent::new("%%%".to_string(), m.to_string()).unwrap_err();
        assert_eq!(invalid_message(e), BAD_BASE64);
    }
}

#[test]
fn image_builder_checks_at_build() {
    let img = ImageContent::builder().data("YWJj").unwrap().mime_type("image/jpeg").unwrap().build().unwrap();
    assert_eq!(img, ImageContent { data: "YWJj".to_string(), mime_type: "image/jpeg".to_string() });
    let e = ImageContent::builder().data("YWJj").unwrap().build().unwrap_err();
    assert_eq!(invalid_message(e), BAD_MIME);
}

#[test]
fn new_image_builds_image_message() {
    let m = PromptMessage::new_image(PromptMessageRole::User, "YWJj".to_string(), "image/gif".to_string()).unwrap();
    assert_eq!(m.role, PromptMessageRole::User);
    assert_eq!(
        m.content,
        PromptMessageContent::Image(ImageContent { data: "YWJj".to_string(), mime_type: "image/gif".to_string() })
    );
}

#[test]
fn new_resource_embeds_text_verbatim() {
    let m = PromptMessage::new_resource(
        PromptMessageRole::Assistant,
        "str:///x".to_string(),
        None,
        "any text".to_string(),
    );
    assert_eq!(m.role, PromptMessageRole::Assistant);
    match m.content {
        PromptMessageContent::Resource { resource } => {
            assert_eq!(resource.resource.uri, "str:///x");
            assert_eq!(resource.resource.mime_type, None);
            assert_eq!(resource.resource.text, "any text");
        }
        _ => panic!("expected resource content"),
    }
}

#[test]
fn message_builder_needs_role() {
    let m = PromptMessage::builder()
        .content(PromptMessageContent::Text(TextContent { text: "hi".to_string() }))
        .unwrap()
        .role(PromptMessageRole::User)
        .build()
        .unwrap();
    assert_eq!(m.content, PromptMessageContent::Text(TextContent { text: "hi".to_string() }));
    assert!(matches!(PromptMessage::builder().build(), Err(PromptError::Other(_))));
    let m = PromptMessage::builder().role(PromptMessageRole::User).build().unwrap();
    assert_eq!(m.content, PromptMessageContent::default());
}

#[test]
fn default_content_is_empty_text() {
    assert_eq!(PromptMessageContent::default(), PromptMessageContent::Text(TextContent { text: String::new() }));
}

#[test]
fn prompt_arguments_keep_order() {
    let p = Prompt::builder()
        .argument(serde_json::Value::String("first".to_string()))
        .name("greet")
        .argument(serde_json::Value::Bool(true))
        .description("says hello")
        .build()
        .unwrap();
    assert_eq!(p.name, "greet");
    assert_eq!(p.description, Some("says hello".to_string()));
    assert_eq!(
        p.arguments,
        Some(vec![serde_json::Value::String("first".to_string()), serde_json::Value::Bool(true)])
    );
    let p = Prompt::builder().name("plain").build().unwrap();
    assert_eq!(p.arguments, None);
    assert!(matches!(Prompt::builder().build(), Err(PromptError::Other(_))));
}

#[test]
fn resource_contents_builders() {
    let c = ResourceContents::builder()
        .uri(Uri::parse("file:///a.txt").unwrap())
        .mime_type(MimeType::parse("text/plain").unwrap())
        .build();
    assert_eq!(c.uri, "file:///a.txt");
    assert_eq!(c.mime_type, Some("text/plain".to_string()));
    let t = TextResourceContents::builder()
        .uri(Uri::parse("str:///b").unwrap())
        .text("body")
        .build()
        .unwrap();
    assert_eq!(t, TextResourceContents { uri: "str:///b".to_string(), mime_type: None, text: "body".to_string() });
    assert!(matches!(TextResourceContents::builder().build(), Err(PromptError::Other(_))));
}

#[test]
fn prompt_error_descriptions() {
    assert_eq!(PromptError::InvalidParameters("x".to_string()).to_string(), "Invalid parameters: x");
    assert_eq!(PromptError::Other("y".to_string()).to_string(), "Other error: y");
}

fn message_round_trip(m: PromptMessage) {
    let text = m.clone().to_json_text();
    assert_eq!(PromptMessage::from_json_text(&text).unwrap(), m);
}

#[test]
fn prompt_messages_round_trip() {
    message_round_trip(PromptMessage {
        role: PromptMessageRole::User,
        content: PromptMessageContent::Text(TextContent { text: "hello".to_string() }),
    });
    message_round_trip(
        PromptMessage::new_image(PromptMessageRole::Assistant, "YWJj".to_string(), "image/png".to_string())
            .unwrap(),
    );
    message_round_trip(PromptMessage::new_resource(
        PromptMessageRole::User,
        "str:///x".to_string(),
        Some("text/plain".to_string()),
        "body".to_string(),
    ));
    message_round_trip(PromptMessage::new_resource(
        PromptMessageRole::User,
        "str:///y".to_string(),
        None,
        "".to_string(),
    ));
}

#[test]
fn prompt_message_wire_shape() {
    let m = PromptMessage::new_image(PromptMessageRole::User, "YWJj".to_string(), "image/png".to_string()).unwrap();
    assert_eq!(
        m.to_json_text(),
        r#"{"content":{"data":"YWJj","mimeType":"image/png","type":"image"},"role":"user"}"#
    );
}

#[test]
fn decoding_checks_images_as_construction_does() {
    let bad_data = r#"{"role":"user","content":{"type":"image","data":"not base64!!","mimeType":"image/png"}}"#;
    assert_eq!(invalid_message(PromptMessage::from_json_text(bad_data).unwrap_err()), BAD_BASE64);
    let bad_mime = r#"{"role":"user","content":{"type":"image","data":"YWJj","mimeType":"text/plain"}}"#;
    assert_eq!(invalid_message(PromptMessage::from_json_text(bad_mime).unwrap_err()), BAD_MIME);
    let bad_role = r#"{"role":"system","content":{"type":"text","text":"x"}}"#;
    assert!(matches!(PromptMessage::from_json_text(bad_role), Err(PromptError::InvalidParameters(_))));
    let bad_type = r#"{"role":"user","content":{"type":"video","text":"x"}}"#;
    assert!(matches!(PromptMessage::from_json_text(bad_type), Err(PromptError::InvalidParameters(_))));
}

#[test]
fn prompts_round_trip() {
    let p = Prompt::builder()
        .name("summarise")
        .argument(serde_json::Value::String("s".to_string()))
        .argument(serde_json::Value::from(2))
        .build()
        .unwrap();
    let text = p.clone().to_json_text();
    assert!(!text.contains("description"));
    assert_eq!(Prompt::from_json_text(&text).unwrap(), p);
    let p = Prompt { arguments: None, name: "n".to_string(), description: Some("d".to_string()) };
    let text = p.clone().to_json_text();
    assert!(!text.contains("arguments"));
    assert_eq!(Prompt::from_json_text(&text).unwrap(), p);
    assert!(matches!(Prompt::from_json_text(r#"{"name":"n","arguments":3}"#), Err(PromptError::InvalidParameters(_))));
}

#[test]
fn text_resource_contents_codec() {
    let t = TextResourceContents { uri: "str:///a".to_string(), mime_type: None, text: "t".to_string() };
    let text = t.clone().to_json_text();
    assert_eq!(text, r#"{"text":"t","uri":"str:///a"}"#);
    assert_eq!(TextResourceContents::from_json_text(&text).unwrap(), t);
    assert!(matches!(TextResourceContents::from_json_text(r#"{"uri":"a:b"}"#), Err(PromptError::InvalidParameters(_))));
    assert!(matches!(TextResourceContents::from_json_text("[}"), Err(PromptError::InvalidParameters(_))));
}

#[test]
fn resource_contents_codec() {
    let c = ResourceContents { uri: "file:///x".to_string(), mime_type: Some("text/plain".to_string()) };
    let text = c.clone().to_json_text();
    assert_eq!(text, r#"{"mimeType":"text/plain","uri":"file:///x"}"#);
    assert_eq!(ResourceContents::from_json_text(&text).unwrap(), c);
    assert!(matches!(ResourceContents::from_json_text(r#"{"mimeType":"x"}"#), Err(PromptError::InvalidParameters(_))));
}

#[test]
fn default_content_and_resource_message_texts() {
    assert_eq!(PromptMessageContent::default().to_json_text(), r#"{"text":"","type":"text"}"#);
    let m = PromptMessage::new_resource(PromptMessageRole::User, "str:///x".to_string(), None, "t".to_string());
    assert_eq!(
        m.to_json_text(),
        r#"{"content":{"resource":{"resource":{"text":"t","uri":"str:///x"}},"type":"resource"},"role":"user"}"#
    );
}
