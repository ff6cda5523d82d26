//! JSON-RPC envelopes, the standard error codes and the mapping from the
//! protocol's error taxonomy onto wire-visible error data.
use crate::deps::{
    json_as_i64, json_doc, json_get, json_integer, json_map_doc, json_map_insert, json_map_new,
    json_object, json_string, json_text, json_text_of, parse_json, value_doc,
};
use crate::json::{
    insert_present, insert_some, json_member, json_member_value, member, member_str, no_members,
    opt_doc, present, present_member, JsonDoc, JsonMember,
};
use vstd::prelude::*;

verus! {

/// Protocol version announced during capability negotiation.
pub const PROTOCOL_VERSION: &'static str = "0.2.0";

/// Invalid JSON was received.
pub const PARSE_ERROR: i32 = -32700;

/// The JSON sent is not a valid request object.
pub const INVALID_REQUEST: i32 = -32600;

/// The method does not exist or is not available.
pub const METHOD_NOT_FOUND: i32 = -32601;

/// Invalid method parameters.
pub const INVALID_PARAMS: i32 = -32602;

/// Internal JSON-RPC error.
pub const INTERNAL_ERROR: i32 = -32603;

#[derive(Debug, Clone, PartialEq)]
pub struct JsonRpcRequest {
    pub jsonrpc: String,
    pub id: Option<serde_json::Value>,
    pub method: String,
    pub params: Option<serde_json::Value>,
}

/// A reply to a request. Well-formed when exactly one of `result` and
/// `error` is present.
#[derive(Debug, Clone, PartialEq)]
pub struct JsonRpcResponse {
    pub jsonrpc: String,
    pub id: Option<serde_json::Value>,
    pub result: Option<serde_json::Value>,
    pub error: Option<ErrorData>,
}

#[derive(Debug, Clone, PartialEq)]
pub struct JsonRpcNotification {
    pub jsonrpc: String,
    pub method: String,
    pub params: Option<serde_json::Value>,
}

#[derive(Debug, Clone, PartialEq)]
pub struct JsonRpcError {
    pub jsonrpc: String,
    pub id: Option<serde_json::Value>,
    pub error: ErrorData,
}

/// Every message shape exchanged on a connection. `Nil` is the internal
/// reply to a notification: nothing is sent on the wire for it.
#[derive(Debug, Clone, PartialEq)]
pub enum JsonRpcMessage {
    Request(JsonRpcRequest),
    Response(JsonRpcResponse),
    Notification(JsonRpcNotification),
    Error(JsonRpcError),
    Nil,
}

/// Error information for JSON-RPC error responses.
#[derive(Debug, Clone, PartialEq)]
pub struct ErrorData {
    /// The error type that occurred.
    pub code: i32,
    /// A short description of the error.
    pub message: String,
    /// Additional information about the error, defined by the sender.
    pub data: Option<serde_json::Value>,
}

impl JsonRpcResponse {
    /// Well-formed: exactly one of `result` and `error` is present.
    pub open spec fn wf(&self) -> bool {
        self.result is Some != self.error is Some
    }
}

/// The variant of a message, apart from its fields.
#[derive(Debug, Clone, Copy, PartialEq, Eq, Structural)]
pub enum MessageKind {
    Request,
    Response,
    Notification,
    Error,
}

/// Which of the members that tell the variants apart a document carries;
/// a member that holds null counts as absent.
#[derive(Debug, Clone, Copy, PartialEq, Eq, Structural)]
pub struct MessageKeys {
    pub has_id: bool,
    pub has_method: bool,
    pub has_result: bool,
    pub has_error: bool,
}

/// The canonical order in which a document is told apart: a `method`
/// makes it a request when it has an `id` and a notification when it has
/// none; without a `method`, a `result` makes it a response and an `error`
/// alone an error envelope. A document with a `method` and a `result` or
/// `error`, with both `result` and `error`, or with none of the three, is
/// no message.
pub open spec fn classify_spec(keys: MessageKeys) -> Option<MessageKind> {
    if keys.has_method {
        if keys.has_result || keys.has_error {
            None
        } else if keys.has_id {
            Some(MessageKind::Request)
        } else {
            Some(MessageKind::Notification)
        }
    } else if keys.has_result && keys.has_error {
        None
    } else if keys.has_result {
        Some(MessageKind::Response)
    } else if keys.has_error {
        Some(MessageKind::Error)
    } else {
        None
    }
}

/// Tells the variant of a document apart by the members it carries.
pub fn classify(keys: MessageKeys) -> (r: Option<MessageKind>)
    ensures
        r == classify_spec(keys),
{
    if keys.has_method {
        if keys.has_result || keys.has_error {
            None
        } else if keys.has_id {
            Some(MessageKind::Request)
        } else {
            Some(MessageKind::Notification)
        }
    } else if keys.has_result && keys.has_error {
        None
    } else if keys.has_result {
        Some(MessageKind::Response)
    } else if keys.has_error {
        Some(MessageKind::Error)
    } else {
        None
    }
}

impl JsonRpcMessage {
    /// The variant of the message; the internal `Nil` has none on the wire.
    pub open spec fn kind_spec(&self) -> Option<MessageKind> {
        match self {
            JsonRpcMessage::Request(_) => Some(MessageKind::Request),
            JsonRpcMessage::Response(_) => Some(MessageKind::Response),
            JsonRpcMessage::Notification(_) => Some(MessageKind::Notification),
            JsonRpcMessage::Error(_) => Some(MessageKind::Error),
            JsonRpcMessage::Nil => None,
        }
    }

    /// The members that the encoding of the message carries: an absent
    /// optional field is left out, never written as null.
    pub open spec fn keys_spec(&self) -> MessageKeys {
        match self {
            JsonRpcMessage::Request(q) => MessageKeys {
                has_id: q.id is Some,
                has_method: true,
                has_result: false,
                has_error: false,
            },
            JsonRpcMessage::Response(p) => MessageKeys {
                has_id: p.id is Some,
                has_method: false,
                has_result: p.result is Some,
                has_error: p.error is Some,
            },
            JsonRpcMessage::Notification(_) => MessageKeys {
                has_id: false,
                has_method: true,
                has_result: false,
                has_error: false,
            },
            JsonRpcMessage::Error(e) => MessageKeys {
                has_id: e.id is Some,
                has_method: false,
                has_result: false,
                has_error: true,
            },
            JsonRpcMessage::Nil => MessageKeys {
                has_id: false,
                has_method: false,
                has_result: false,
                has_error: false,
            },
        }
    }

    /// The message can be sent and told apart again: a request carries an
    /// id, a response carries a result and no error (a reply that carries
    /// only an error is sent as an error envelope), and `Nil` is never sent.
    pub open spec fn distinguishable(&self) -> bool {
        match self {
            JsonRpcMessage::Request(q) => q.id is Some && not_null(q.id) && not_null(q.params),
            JsonRpcMessage::Response(p) => p.wf() && p.result is Some && not_null(p.id) && not_null(
                p.result,
            ) && (p.error matches Some(e) ==> not_null(e.data)),
            JsonRpcMessage::Notification(n) => not_null(n.params),
            JsonRpcMessage::Error(e) => not_null(e.id) && not_null(e.error.data),
            JsonRpcMessage::Nil => false,
        }
    }

    /// The variant of a JSON document, told apart by its `id`, `method`,
    /// `result` and `error` members in the canonical order.
    pub fn kind_of_json(v: &serde_json::Value) -> (r: Option<MessageKind>)
        ensures
            r == classify_spec(doc_keys(value_doc(*v))),
    {
        let members = EnvelopeMembers::of(v);
        classify(members.keys())
    }

    /// Decodes a message from JSON text, told apart in the canonical order.
    /// A decoded message can always be sent and told apart again.
    pub fn from_json_text(s: &str) -> (r: Result<JsonRpcMessage, ProtocolError>)
        ensures
            match json_doc(s@) {
                None => r matches Err(e) && e is ParseError,
                Some(d) => match r {
                    Ok(m) => JsonRpcMessage::doc_ok(d) && JsonRpcMessage::decodes_to(d, m),
                    Err(e) => !JsonRpcMessage::doc_ok(d) && e is ProtocolError,
                },
            },
            r matches Ok(m) ==> m.distinguishable() && classify_spec(m.keys_spec())
                == m.kind_spec(),
    {
        let v = match parse_json(s) {
            Ok(v) => v,
            Err(_) => {
                return Err(ProtocolError::ParseError("invalid JSON".to_string()));
            },
        };
        let members = EnvelopeMembers::of(&v);
        let kind = classify(members.keys());
        let jsonrpc = string_member(&v, "jsonrpc")?;
        match kind {
            Some(MessageKind::Request) => {
                let method = string_member(&v, "method")?;
                Ok(
                    JsonRpcMessage::Request(
                        JsonRpcRequest {
                            jsonrpc,
                            id: members.id,
                            method,
                            params: json_member_value(&v, "params"),
                        },
                    ),
                )
            },
            Some(MessageKind::Notification) => {
                let method = string_member(&v, "method")?;
                Ok(
                    JsonRpcMessage::Notification(
                        JsonRpcNotification {
                            jsonrpc,
                            method,
                            params: json_member_value(&v, "params"),
                        },
                    ),
                )
            },
            Some(MessageKind::Response) => Ok(
                JsonRpcMessage::Response(
                    JsonRpcResponse {
                        jsonrpc,
                        id: members.id,
                        result: members.result,
                        error: None,
                    },
                ),
            ),
            Some(MessageKind::Error) => {
                let error = match members.error {
                    Some(e) => ErrorData::from_json(&e)?,
                    None => {
                        return Err(ProtocolError::ProtocolError("missing error".to_string()));
                    },
                };
                Ok(JsonRpcMessage::Error(JsonRpcError { jsonrpc, id: members.id, error }))
            },
            None => Err(
                ProtocolError::ProtocolError("document is not a JSON-RPC message".to_string()),
            ),
        }
    }
}

/// The members of a document that tell the variants apart, each where it
/// is present and not null.
struct EnvelopeMembers {
    id: Option<serde_json::Value>,
    method: Option<serde_json::Value>,
    result: Option<serde_json::Value>,
    error: Option<serde_json::Value>,
}

impl EnvelopeMembers {
    fn of(v: &serde_json::Value) -> (r: EnvelopeMembers)
        ensures
            opt_doc(r.id) == present_member(value_doc(*v), "id"@),
            opt_doc(r.method) == present_member(value_doc(*v), "method"@),
            opt_doc(r.result) == present_member(value_doc(*v), "result"@),
            opt_doc(r.error) == present_member(value_doc(*v), "error"@),
            r.id matches Some(x) ==> !(value_doc(x) is Null),
            r.result matches Some(x) ==> !(value_doc(x) is Null),
    {
        EnvelopeMembers {
            id: json_member_value(v, "id"),
            method: json_member_value(v, "method"),
            result: json_member_value(v, "result"),
            error: json_member_value(v, "error"),
        }
    }

    fn keys(&self) -> (r: MessageKeys)
        ensures
            r == (MessageKeys {
                has_id: self.id is Some,
                has_method: self.method is Some,
                has_result: self.result is Some,
                has_error: self.error is Some,
            }),
    {
        MessageKeys {
            has_id: self.id.is_some(),
            has_method: self.method.is_some(),
            has_result: self.result.is_some(),
            has_error: self.error.is_some(),
        }
    }
}

/// The string held by a required member.
fn string_member(v: &serde_json::Value, key: &str) -> (r: Result<String, ProtocolError>)
    ensures
        match member_str(value_doc(*v), key@) {
            Some(t) => r matches Ok(s) && s@ == t,
            None => r matches Err(e) && e is ProtocolError,
        },
{
    match json_member(v, key) {
        JsonMember::Str(s) => Ok(s),
        _ => Err(ProtocolError::ProtocolError("missing string member".to_string())),
    }
}

/// Every message that can be sent is told apart again as its own variant:
/// the members its encoding carries classify back to its kind.
pub proof fn lemma_kind_round_trip(m: JsonRpcMessage)
    requires
        m.distinguishable(),
    ensures
        classify_spec(m.keys_spec()) == m.kind_spec(),
{
}

/// A JSON value is not null.
pub open spec fn not_null(v: Option<serde_json::Value>) -> bool {
    v matches Some(x) ==> !(value_doc(x) is Null)
}

/// The members of a document that tell the variants apart.
pub open spec fn doc_keys(d: JsonDoc) -> MessageKeys {
    MessageKeys {
        has_id: present(d, "id"@),
        has_method: present(d, "method"@),
        has_result: present(d, "result"@),
        has_error: present(d, "error"@),
    }
}

impl JsonRpcMessage {
    /// The members of the message's encoding: `jsonrpc`, the fields that are
    /// always there, and each optional field that is present.
    pub open spec fn members(&self) -> Map<Seq<char>, JsonDoc> {
        match self {
            JsonRpcMessage::Request(q) => insert_some(
                insert_some(
                    no_members().insert("jsonrpc"@, JsonDoc::Str(q.jsonrpc@)),
                    "id"@,
                    opt_doc(q.id),
                ).insert("method"@, JsonDoc::Str(q.method@)),
                "params"@,
                opt_doc(q.params),
            ),
            JsonRpcMessage::Response(p) => insert_some(
                insert_some(
                    insert_some(
                        no_members().insert("jsonrpc"@, JsonDoc::Str(p.jsonrpc@)),
                        "id"@,
                        opt_doc(p.id),
                    ),
                    "result"@,
                    opt_doc(p.result),
                ),
                "error"@,
                match p.error {
                    Some(e) => Some(e.to_doc()),
                    None => None,
                },
            ),
            JsonRpcMessage::Notification(n) => insert_some(
                no_members().insert("jsonrpc"@, JsonDoc::Str(n.jsonrpc@)).insert(
                    "method"@,
                    JsonDoc::Str(n.method@),
                ),
                "params"@,
                opt_doc(n.params),
            ),
            JsonRpcMessage::Error(e) => insert_some(
                no_members().insert("jsonrpc"@, JsonDoc::Str(e.jsonrpc@)),
                "id"@,
                opt_doc(e.id),
            ).insert("error"@, e.error.to_doc()),
            JsonRpcMessage::Nil => no_members(),
        }
    }

    /// The document that encodes the message.
    pub open spec fn to_doc(&self) -> JsonDoc {
        JsonDoc::Object(self.members())
    }

    /// A document decodes as a message: its members classify it, `jsonrpc`
    /// is a string, a request or notification has a string `method`, and an
    /// error envelope's `error` decodes as error data.
    pub open spec fn doc_ok(d: JsonDoc) -> bool {
        match classify_spec(doc_keys(d)) {
            None => false,
            Some(k) => member_str(d, "jsonrpc"@) is Some && match k {
                MessageKind::Request => member_str(d, "method"@) is Some,
                MessageKind::Notification => member_str(d, "method"@) is Some,
                MessageKind::Response => true,
                MessageKind::Error => member(d, "error"@) matches Some(e) && ErrorData::doc_ok(e),
            },
        }
    }

    /// The message that a document decodes to, field by field.
    pub open spec fn decodes_to(d: JsonDoc, m: JsonRpcMessage) -> bool {
        classify_spec(doc_keys(d)) == m.kind_spec() && match m {
            JsonRpcMessage::Request(q) => member_str(d, "jsonrpc"@) == Some(q.jsonrpc@)
                && member_str(d, "method"@) == Some(q.method@) && opt_doc(q.id) == present_member(
                d,
                "id"@,
            ) && opt_doc(q.params) == present_member(d, "params"@),
            JsonRpcMessage::Notification(n) => member_str(d, "jsonrpc"@) == Some(n.jsonrpc@)
                && member_str(d, "method"@) == Some(n.method@) && opt_doc(n.params)
                == present_member(d, "params"@),
            JsonRpcMessage::Response(p) => member_str(d, "jsonrpc"@) == Some(p.jsonrpc@)
                && opt_doc(p.id) == present_member(d, "id"@) && opt_doc(p.result)
                == present_member(d, "result"@) && p.error is None,
            JsonRpcMessage::Error(e) => member_str(d, "jsonrpc"@) == Some(e.jsonrpc@)
                && opt_doc(e.id) == present_member(d, "id"@) && (member(d, "error"@) matches Some(
                ed,
            ) && ErrorData::decodes_to(ed, e.error)),
            JsonRpcMessage::Nil => false,
        }
    }

    /// The JSON object that encodes the message; `Nil` is never sent and
    /// has none.
    pub fn into_json_object(self) -> (r: Option<serde_json::Map<String, serde_json::Value>>)
        ensures
            match r {
                Some(m) => !(self is Nil) && json_map_doc(m) == self.members(),
                None => self is Nil,
            },
    {
        let mut m = json_map_new();
        match self {
            JsonRpcMessage::Request(q) => {
                json_map_insert(&mut m, "jsonrpc".to_string(), json_string(q.jsonrpc));
                insert_present(&mut m, "id", q.id);
                json_map_insert(&mut m, "method".to_string(), json_string(q.method));
                insert_present(&mut m, "params", q.params);
            },
            JsonRpcMessage::Response(p) => {
                json_map_insert(&mut m, "jsonrpc".to_string(), json_string(p.jsonrpc));
                insert_present(&mut m, "id", p.id);
                insert_present(&mut m, "result", p.result);
                match p.error {
                    Some(e) => json_map_insert(&mut m, "error".to_string(), e.into_json()),
                    None => {},
                }
            },
            JsonRpcMessage::Notification(n) => {
                json_map_insert(&mut m, "jsonrpc".to_string(), json_string(n.jsonrpc));
                json_map_insert(&mut m, "method".to_string(), json_string(n.method));
                insert_present(&mut m, "params", n.params);
            },
            JsonRpcMessage::Error(e) => {
                json_map_insert(&mut m, "jsonrpc".to_string(), json_string(e.jsonrpc));
                insert_present(&mut m, "id", e.id);
                json_map_insert(&mut m, "error".to_string(), e.error.into_json());
            },
            JsonRpcMessage::Nil => {
                return None;
            },
        }
        Some(m)
    }

    /// The compact JSON text of the message; `Nil` is never sent and has none.
    pub fn to_json_text(self) -> (r: Option<String>)
        ensures
            match r {
                Some(t) => !(self is Nil) && t@ == json_text_of(self.to_doc()),
                None => self is Nil,
            },
    {
        match self.into_json_object() {
            Some(m) => Some(json_text(&json_object(m))),
            None => None,
        }
    }
}

/// An absent optional field is left out of a message's encoding, and a
/// present one is written: the members that the encoding carries are the
/// ones by which the variant is told apart again.
pub proof fn lemma_wire_keys_match_fields(m: JsonRpcMessage)
    requires
        !(m is Nil),
    ensures
        m.members().contains_key("id"@) == m.keys_spec().has_id,
        m.members().contains_key("method"@) == m.keys_spec().has_method,
        m.members().contains_key("result"@) == m.keys_spec().has_result,
        m.members().contains_key("error"@) == m.keys_spec().has_error,
        m matches JsonRpcMessage::Response(p) ==> (p.error is None ==> !m.members().contains_key(
            "error"@,
        )),
{
    lemma_envelope_names_distinct();
}

/// The member names of an envelope and of its error data are distinct.
proof fn lemma_envelope_names_distinct()
    ensures
        "id"@ != "jsonrpc"@,
        "method"@ != "jsonrpc"@,
        "result"@ != "jsonrpc"@,
        "error"@ != "jsonrpc"@,
        "params"@ != "jsonrpc"@,
        "method"@ != "id"@,
        "params"@ != "id"@,
        "params"@ != "method"@,
        "params"@ != "result"@,
        "params"@ != "error"@,
        "result"@ != "id"@,
        "result"@ != "method"@,
        "error"@ != "id"@,
        "error"@ != "method"@,
        "error"@ != "result"@,
        "code"@ != "message"@,
        "code"@ != "data"@,
        "message"@ != "data"@,
{
    reveal_strlit("jsonrpc");
    reveal_strlit("id");
    reveal_strlit("method");
    reveal_strlit("params");
    reveal_strlit("result");
    reveal_strlit("error");
    reveal_strlit("code");
    reveal_strlit("message");
    reveal_strlit("data");
    assert("id"@[0] != "jsonrpc"@[0]);
    assert("method"@[0] != "jsonrpc"@[0]);
    assert("result"@[0] != "jsonrpc"@[0]);
    assert("error"@[0] != "jsonrpc"@[0]);
    assert("params"@[0] != "jsonrpc"@[0]);
    assert("method"@[0] != "id"@[0]);
    assert("params"@[0] != "id"@[0]);
    assert("params"@[0] != "method"@[0]);
    assert("params"@[0] != "result"@[0]);
    assert("params"@[0] != "error"@[0]);
    assert("result"@[0] != "id"@[0]);
    assert("result"@[0] != "method"@[0]);
    assert("error"@[0] != "id"@[0]);
    assert("error"@[0] != "method"@[0]);
    assert("error"@[0] != "result"@[0]);
    assert("code"@[0] != "message"@[0]);
    assert("code"@[0] != "data"@[0]);
    assert("message"@[0] != "data"@[0]);
}

/// Every message that can be sent decodes back to itself: its encoding is
/// accepted, and the decoded message has the same variant and the same
/// fields.
pub proof fn lemma_message_round_trip(m: JsonRpcMessage)
    requires
        m.distinguishable(),
    ensures
        JsonRpcMessage::doc_ok(m.to_doc()),
        JsonRpcMessage::decodes_to(m.to_doc(), m),
{
    lemma_envelope_names_distinct();
    match m {
        JsonRpcMessage::Error(e) => {
            lemma_error_data_round_trip(e.error);
        },
        _ => {},
    }
}

impl ErrorData {
    /// The members of the encoding: `code`, `message`, and `data` where it
    /// is present.
    pub open spec fn members(&self) -> Map<Seq<char>, JsonDoc> {
        insert_some(
            no_members().insert("code"@, JsonDoc::Int(self.code as int)).insert(
                "message"@,
                JsonDoc::Str(self.message@),
            ),
            "data"@,
            opt_doc(self.data),
        )
    }

    /// The document that encodes the error data.
    pub open spec fn to_doc(&self) -> JsonDoc {
        JsonDoc::Object(self.members())
    }

    /// A document decodes as error data: an integer `code` that fits in
    /// `i32`, and a string `message`.
    pub open spec fn doc_ok(d: JsonDoc) -> bool {
        member(d, "code"@) matches Some(JsonDoc::Int(n)) && i32::MIN <= n <= i32::MAX && member_str(
            d,
            "message"@,
        ) is Some
    }

    /// The error data that a document decodes to, field by field.
    pub open spec fn decodes_to(d: JsonDoc, e: ErrorData) -> bool {
        member(d, "code"@) == Some(JsonDoc::Int(e.code as int)) && member_str(d, "message"@)
            == Some(e.message@) && opt_doc(e.data) == present_member(d, "data"@)
    }

    /// The JSON object that encodes the error data.
    pub fn into_json_object(self) -> (r: serde_json::Map<String, serde_json::Value>)
        ensures
            json_map_doc(r) == self.members(),
    {
        let mut m = json_map_new();
        json_map_insert(&mut m, "code".to_string(), json_integer(self.code));
        json_map_insert(&mut m, "message".to_string(), json_string(self.message));
        insert_present(&mut m, "data", self.data);
        m
    }

    /// The JSON value that encodes the error data.
    pub fn into_json(self) -> (r: serde_json::Value)
        ensures
            value_doc(r) == self.to_doc(),
    {
        json_object(self.into_json_object())
    }

    /// The compact JSON text of the error data.
    pub fn to_json_text(self) -> (r: String)
        ensures
            r@ == json_text_of(self.to_doc()),
    {
        json_text(&self.into_json())
    }

    /// Decodes error data from a JSON object with an integer `code` that
    /// fits in `i32`, a string `message`, and optional `data`.
    pub fn from_json(v: &serde_json::Value) -> (r: Result<ErrorData, ProtocolError>)
        ensures
            match r {
                Ok(e) => ErrorData::doc_ok(value_doc(*v)) && ErrorData::decodes_to(value_doc(*v), e),
                Err(e) => !ErrorData::doc_ok(value_doc(*v)) && e is ProtocolError,
            },
    {
        let number = match json_get(v, "code") {
            Some(c) => json_as_i64(&c),
            None => None,
        };
        let code = match number {
            Some(c) => if i32::MIN as i64 <= c && c <= i32::MAX as i64 {
                c as i32
            } else {
                return Err(ProtocolError::ProtocolError("error code out of range".to_string()));
            },
            None => {
                return Err(ProtocolError::ProtocolError("missing error code".to_string()));
            },
        };
        let message = string_member(v, "message")?;
        Ok(ErrorData { code, message, data: json_member_value(v, "data") })
    }
}

/// Error data decodes back to itself from its encoding.
pub proof fn lemma_error_data_round_trip(e: ErrorData)
    requires
        not_null(e.data),
    ensures
        ErrorData::doc_ok(e.to_doc()),
        ErrorData::decodes_to(e.to_doc(), e),
{
    lemma_envelope_names_distinct();
}

#[derive(Debug, Clone, PartialEq)]
pub struct InitializeResult {
    pub protocol_version: String,
    pub capabilities: ServerCapabilities,
    pub server_info: Implementation,
    pub instructions: Option<String>,
}

#[derive(Debug, Clone, PartialEq)]
pub struct Implementation {
    pub name: String,
    pub version: String,
}

/// The optional features a server offers. An absent sub-capability means
/// the feature is not supported.
#[derive(Debug, Clone, PartialEq)]
pub struct ServerCapabilities {
    pub prompts: Option<PromptsCapability>,
    pub resources: Option<ResourcesCapability>,
    pub tools: Option<ToolsCapability>,
}

#[derive(Debug, Clone, Copy, PartialEq, Eq, Structural)]
pub struct PromptsCapability {
    pub list_changed: Option<bool>,
}

#[derive(Debug, Clone, Copy, PartialEq, Eq, Structural)]
pub struct ResourcesCapability {
    pub subscribe: Option<bool>,
    pub list_changed: Option<bool>,
}

#[derive(Debug, Clone, Copy, PartialEq, Eq, Structural)]
pub struct ToolsCapability {
    pub list_changed: Option<bool>,
}

/// Error types that can occur in the protocol.
#[derive(Debug, Clone)]
pub enum ProtocolError {
    TransportError(String),
    ParseError(String),
    ProtocolError(String),
    MethodNotImplemented(String),
    InvalidParams(String),
    InternalError(String),
}

impl ProtocolError {
    /// The wire error code that each member of the taxonomy maps to.
    pub open spec fn code_spec(&self) -> i32 {
        match self {
            ProtocolError::TransportError(_) => INTERNAL_ERROR,
            ProtocolError::ParseError(_) => PARSE_ERROR,
            ProtocolError::ProtocolError(_) => INVALID_REQUEST,
            ProtocolError::MethodNotImplemented(_) => METHOD_NOT_FOUND,
            ProtocolError::InvalidParams(_) => INVALID_PARAMS,
            ProtocolError::InternalError(_) => INTERNAL_ERROR,
        }
    }

    /// The message text carried by the error.
    pub open spec fn message_spec(&self) -> String {
        match self {
            ProtocolError::TransportError(m) => *m,
            ProtocolError::ParseError(m) => *m,
            ProtocolError::ProtocolError(m) => *m,
            ProtocolError::MethodNotImplemented(m) => *m,
            ProtocolError::InvalidParams(m) => *m,
            ProtocolError::InternalError(m) => *m,
        }
    }

    /// The error's description, prefixed by the name of its kind.
    pub fn to_string(&self) -> (r: String)
        ensures
            r@ == self.kind_label() + self.message_spec()@,
    {
        let (label, m) = match self {
            ProtocolError::TransportError(m) => ("Transport error: ", m),
            ProtocolError::ParseError(m) => ("Parse error: ", m),
            ProtocolError::ProtocolError(m) => ("Protocol error: ", m),
            ProtocolError::MethodNotImplemented(m) => ("Method not implemented: ", m),
            ProtocolError::InvalidParams(m) => ("Invalid parameters: ", m),
            ProtocolError::InternalError(m) => ("Internal error: ", m),
        };
        let mut r = label.to_string();
        r.append(m.as_str());
        r
    }

    /// The prefix that names the error's kind in its description.
    pub open spec fn kind_label(&self) -> Seq<char> {
        match self {
            ProtocolError::TransportError(_) => "Transport error: "@,
            ProtocolError::ParseError(_) => "Parse error: "@,
            ProtocolError::ProtocolError(_) => "Protocol error: "@,
            ProtocolError::MethodNotImplemented(_) => "Method not implemented: "@,
            ProtocolError::InvalidParams(_) => "Invalid parameters: "@,
            ProtocolError::InternalError(_) => "Internal error: "@,
        }
    }
}

impl From<ProtocolError> for ErrorData {
    fn from(error: ProtocolError) -> (r: ErrorData) {
        match error {
            ProtocolError::TransportError(msg) => ErrorData {
                code: INTERNAL_ERROR,
                message: msg,
                data: None,
            },
            ProtocolError::ParseError(msg) => ErrorData { code: PARSE_ERROR, message: msg, data: None },
            ProtocolError::ProtocolError(msg) => ErrorData {
                code: INVALID_REQUEST,
                message: msg,
                data: None,
            },
            ProtocolError::MethodNotImplemented(msg) => ErrorData {
                code: METHOD_NOT_FOUND,
                message: msg,
                data: None,
            },
            ProtocolError::InvalidParams(msg) => ErrorData {
                code: INVALID_PARAMS,
                message: msg,
                data: None,
            },
            ProtocolError::InternalError(msg) => ErrorData {
                code: INTERNAL_ERROR,
                message: msg,
                data: None,
            },
        }
    }
}

impl vstd::std_specs::convert::FromSpecImpl<ProtocolError> for ErrorData {
    open spec fn obeys_from_spec() -> bool {
        true
    }

    open spec fn from_spec(error: ProtocolError) -> ErrorData {
        ErrorData { code: error.code_spec(), message: error.message_spec(), data: None }
    }
}

/// Converting a protocol error keeps its message text unchanged, fixes the
/// code by the error's kind, and attaches no data.
pub proof fn lemma_error_data_from_protocol_error(error: ProtocolError)
    ensures
        <ErrorData as vstd::std_specs::convert::FromSpec<ProtocolError>>::from_spec(error)
            == (ErrorData { code: error.code_spec(), message: error.message_spec(), data: None }),
        error is MethodNotImplemented ==> error.code_spec() == -32601i32,
        error is ParseError ==> error.code_spec() == -32700i32,
        error is ProtocolError ==> error.code_spec() == -32600i32,
        error is InvalidParams ==> error.code_spec() == -32602i32,
        (error is TransportError || error is InternalError) ==> error.code_spec() == -32603i32,
{
}

} // verus!
