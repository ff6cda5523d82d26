use mcp_protocol::protocol::{
    classify, ErrorData, JsonRpcError, JsonRpcMessage, JsonRpcNotification, JsonRpcRequest,
    JsonRpcResponse, MessageKeys, MessageKind, ProtocolError, INTERNAL_ERROR,
    INVALID_PARAMS, INVALID_REQUEST, METHOD_NOT_FOUND, PARSE_ERROR, PROTOCOL_VERSION,
};

#[test]
fn method_not_implemented_maps_to_method_not_found() {
    let e = ErrorData::from(ProtocolError::MethodNotImplemented("foo".to_string()));
    assert_eq!(e, ErrorData { code: -32601, message: "foo".to_string(), data: None });
}

#[test]
fn every_protocol_error_maps_to_its_code() {
    let cases = [
        (ProtocolError::TransportError("t".to_string()), INTERNAL_ERROR),
        (ProtocolError::ParseError("p".to_string()), PARSE_ERROR),
        (ProtocolError::ProtocolError("q".to_string()), INVALID_REQUEST),
        (ProtocolError::InvalidParams("i".to_string()), INVALID_PARAMS),
        (ProtocolError::InternalError("n".to_string()), INTERNAL_ERROR),
    ];
    for (err, code) in cases {
        let msg = match &err {
            ProtocolError::TransportError(m)
            | ProtocolError::ParseError(m)
            | ProtocolError::ProtocolError(m)
            | ProtocolError::MethodNotImplemented(m)
            | ProtocolError::InvalidParams(m)
            | ProtocolError::InternalError(m) => m.clone(),
        };
        let e = ErrorData::from(err);
        assert_eq!(e, ErrorData { code, message: msg, data: None });
    }
    assert_eq!((PARSE_ERROR, INVALID_REQUEST, METHOD_NOT_FOUND, INVALID_PARAMS, INTERNAL_ERROR), (-32700, -32600, -32601, -32602, -32603));
    assert_eq!(PROTOCOL_VERSION, "0.2.0");
}

#[test]
fn protocol_error_descriptions() {
    assert_eq!(ProtocolError::ParseError("bad".to_string()).to_string(), "Parse error: bad");
    assert_eq!(ProtocolError::MethodNotImplemented("foo".to_string()).to_string(), "Method not implemented: foo");
}

fn keys(has_id: bool, has_method: bool, has_result: bool, has_error: bool) -> MessageKeys {
    MessageKeys { has_id, has_method, has_result, has_error }
}

#[test]
fn classify_in_canonical_order() {
    assert_eq!(classify(keys(true, true, false, false)), Some(MessageKind::Request));
    assert_eq!(classify(keys(false, true, false, false)), Some(MessageKind::Notification));
    assert_eq!(classify(keys(true, false, true, false)), Some(MessageKind::Response));
    assert_eq!(classify(keys(true, false, false, true)), Some(MessageKind::Error));
    assert_eq!(classify(keys(false, false, false, true)), Some(MessageKind::Error));
    assert_eq!(classify(keys(true, false, true, true)), None);
    assert_eq!(classify(keys(true, true, true, false)), None);
    assert_eq!(classify(keys(true, false, false, false)), None);
}

fn kind(s: &str) -> Option<MessageKind> {
    JsonRpcMessage::kind_of_json(&serde_json::from_str::<serde_json::Value>(s).unwrap())
}

#[test]
fn kind_of_json_documents() {
    assert_eq!(kind(r#"{"jsonrpc":"2.0","id":1,"method":"ping"}"#), Some(MessageKind::Request));
    assert_eq!(kind(r#"{"jsonrpc":"2.0","method":"note","params":{}}"#), Some(MessageKind::Notification));
    assert_eq!(kind(r#"{"jsonrpc":"2.0","id":1,"result":{}}"#), Some(MessageKind::Response));
    assert_eq!(kind(r#"{"jsonrpc":"2.0","id":1,"result":1,"error":null}"#), Some(MessageKind::Response));
    assert_eq!(
        kind(r#"{"jsonrpc":"2.0","id":1,"error":{"code":-32601,"message":"foo"}}"#),
        Some(MessageKind::Error)
    );
    assert_eq!(kind(r#"{"jsonrpc":"2.0","id":null,"method":"note"}"#), Some(MessageKind::Notification));
    assert_eq!(kind(r#"{"jsonrpc":"2.0"}"#), None);
    assert_eq!(kind(r#"3"#), None);
}

fn round_trip(m: JsonRpcMessage) {
    let text = m.clone().to_json_text().unwrap();
    assert_eq!(JsonRpcMessage::from_json_text(&text).unwrap(), m);
}

#[test]
fn every_message_variant_round_trips() {
    round_trip(JsonRpcMessage::Request(JsonRpcRequest {
        jsonrpc: "2.0".to_string(),
        id: Some(serde_json::Value::from(7)),
        method: "prompts/list".to_string(),
        params: Some(serde_json::Value::String("p".to_string())),
    }));
    round_trip(JsonRpcMessage::Notification(JsonRpcNotification {
        jsonrpc: "2.0".to_string(),
        method: "notifications/initialized".to_string(),
        params: None,
    }));
    round_trip(JsonRpcMessage::Response(JsonRpcResponse {
        jsonrpc: "2.0".to_string(),
        id: Some(serde_json::Value::String("a".to_string())),
        result: Some(serde_json::Value::Bool(true)),
        error: None,
    }));
    round_trip(JsonRpcMessage::Error(JsonRpcError {
        jsonrpc: "2.0".to_string(),
        id: None,
        error: ErrorData::from(ProtocolError::MethodNotImplemented("foo".to_string())),
    }));
    round_trip(JsonRpcMessage::Error(JsonRpcError {
        jsonrpc: "2.0".to_string(),
        id: Some(serde_json::Value::from(1)),
        error: ErrorData { code: INVALID_PARAMS, message: "bad".to_string(), data: Some(serde_json::Value::from(3)) },
    }));
}

#[test]
fn response_without_error_has_no_error_member() {
    let m = JsonRpcMessage::Response(JsonRpcResponse {
        jsonrpc: "2.0".to_string(),
        id: Some(serde_json::Value::from(1)),
        result: Some(serde_json::Value::from(5)),
        error: None,
    });
    let text = m.to_json_text().unwrap();
    assert_eq!(text, r#"{"id":1,"jsonrpc":"2.0","result":5}"#);
    assert!(!text.contains("error"));
    assert!(!text.contains("null"));
}

#[test]
fn error_data_without_data_has_no_data_member() {
    let m = JsonRpcMessage::Error(JsonRpcError {
        jsonrpc: "2.0".to_string(),
        id: None,
        error: ErrorData::from(ProtocolError::ParseError("x".to_string())),
    });
    let text = m.to_json_text().unwrap();
    assert_eq!(text, r#"{"error":{"code":-32700,"message":"x"},"jsonrpc":"2.0"}"#);
}

#[test]
fn nil_is_never_encoded() {
    assert_eq!(JsonRpcMessage::Nil.to_json_text(), None);
}

#[test]
fn decoding_rejects_bad_documents() {
    assert!(matches!(JsonRpcMessage::from_json_text("{oops"), Err(ProtocolError::ParseError(_))));
    assert!(matches!(
        JsonRpcMessage::from_json_text(r#"{"jsonrpc":"2.0","id":1}"#),
        Err(ProtocolError::ProtocolError(_))
    ));
    assert!(matches!(
        JsonRpcMessage::from_json_text(r#"{"id":1,"method":"m"}"#),
        Err(ProtocolError::ProtocolError(_))
    ));
    assert!(matches!(
        JsonRpcMessage::from_json_text(r#"{"jsonrpc":"2.0","error":{"code":"x","message":"m"}}"#),
        Err(ProtocolError::ProtocolError(_))
    ));
    assert!(matches!(
        JsonRpcMessage::from_json_text(r#"{"jsonrpc":"2.0","error":{"code":4294967296,"message":"m"}}"#),
        Err(ProtocolError::ProtocolError(_))
    ));
}

#[test]
fn request_without_id_decodes_as_notification() {
    let m = JsonRpcMessage::from_json_text(r#"{"jsonrpc":"2.0","method":"ping"}"#).unwrap();
    assert_eq!(
        m,
        JsonRpcMessage::Notification(JsonRpcNotification {
            jsonrpc: "2.0".to_string(),
            method: "ping".to_string(),
            params: None,
        })
    );
}

#[test]
fn error_data_text_omits_absent_data() {
    let e = ErrorData::from(ProtocolError::InvalidParams("missing uri".to_string()));
    assert_eq!(e.to_json_text(), r#"{"code":-32602,"message":"missing uri"}"#);
}

#[test]
fn method_not_implemented_envelope_round_trips() {
    let x = JsonRpcMessage::Error(JsonRpcError {
        jsonrpc: "2.0".to_string(),
        id: Some(serde_json::Value::from(7)),
        error: ErrorData::from(ProtocolError::MethodNotImplemented("foo".to_string())),
    });
    let text = x.clone().to_json_text().unwrap();
    assert_eq!(JsonRpcMessage::from_json_text(&text).unwrap(), x);
}
