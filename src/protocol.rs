//! JSON-RPC messages: the three kinds, how an incoming object is told apart,
//! and how each kind is written out.
use vstd::prelude::*;
use crate::json::{
    JsonModel, json_model, member, member_value, text_member, int_member, is_object, text_view,
    value_view, object_of, parsed_json, json_text, required_text, optional_value,
    integer_member, value_is_object, get_member, value_is_null, int_value, text_value,
    empty_object, set_member, parse_text, print_value, describe_error, null_value,
};

verus! {

/// The kind an incoming message is classified as.
#[derive(Debug, Clone, Copy, PartialEq, Eq, Structural)]
pub enum MessageKind {
    Request,
    Response,
    Notification,
}

/// Why a line could not be read as a message.
#[derive(Debug, PartialEq, Eq)]
pub enum MessageError {
    /// Not JSON, not an object, or a field of the wrong shape.
    Malformed(String),
    /// An object with none of the fields that tell the kinds apart.
    Unrecognized,
}

pub struct JsonRpcRequest {
    pub jsonrpc: String,
    pub id: i64,
    pub method: String,
    pub params: Option<serde_json::Value>,
}

pub struct JsonRpcResponse {
    pub jsonrpc: String,
    pub id: Option<i64>,
    pub result: Option<serde_json::Value>,
    pub error: Option<JsonRpcError>,
}

pub struct JsonRpcError {
    pub code: i32,
    pub message: String,
    pub data: Option<serde_json::Value>,
}

pub struct JsonRpcNotification {
    pub jsonrpc: String,
    pub method: String,
    pub params: Option<serde_json::Value>,
}

pub enum JsonRpcMessage {
    Request(JsonRpcRequest),
    Response(JsonRpcResponse),
    Notification(JsonRpcNotification),
}

/// The object has a `method` member.
pub open spec fn has_method(m: JsonModel) -> bool {
    member(m, "method"@) is Some
}

/// The object has an `id` member that is not `null`.
pub open spec fn has_live_id(m: JsonModel) -> bool {
    member(m, "id"@) is Some && member(m, "id"@) != Some(JsonModel::Null)
}

/// The classification of an incoming object; the order of the tests matters,
/// since `id` may be present and `null`.
pub open spec fn classify(m: JsonModel) -> Option<MessageKind> {
    if !is_object(m) {
        None
    } else if has_method(m) && has_live_id(m) {
        Some(MessageKind::Request)
    } else if has_method(m) {
        Some(MessageKind::Notification)
    } else if has_live_id(m) || member(m, "result"@) is Some || member(m, "error"@) is Some {
        Some(MessageKind::Response)
    } else {
        None
    }
}

pub open spec fn i64_id(m: JsonModel) -> Option<int> {
    int_member(m, "id"@, i64::MIN as int, i64::MAX as int)
}

/// The fields of a request have the shapes the request needs.
pub open spec fn request_ok(m: JsonModel) -> bool {
    text_member(m, "jsonrpc"@) is Some && i64_id(m) is Some && text_member(m, "method"@) is Some
}

pub open spec fn notification_ok(m: JsonModel) -> bool {
    text_member(m, "jsonrpc"@) is Some && text_member(m, "method"@) is Some
}

pub open spec fn error_ok(e: JsonModel) -> bool {
    is_object(e) && int_member(e, "code"@, i32::MIN as int, i32::MAX as int) is Some
        && text_member(e, "message"@) is Some
}

pub open spec fn response_ok(m: JsonModel) -> bool {
    &&& text_member(m, "jsonrpc"@) is Some
    &&& (member_value(m, "id"@) is None || i64_id(m) is Some)
    &&& (member_value(m, "error"@) is None || error_ok(member_value(m, "error"@).unwrap()))
}

/// The object classifies, and its fields have the shapes its kind needs.
pub open spec fn message_ok(m: JsonModel) -> bool {
    match classify(m) {
        Some(MessageKind::Request) => request_ok(m),
        Some(MessageKind::Notification) => notification_ok(m),
        Some(MessageKind::Response) => response_ok(m),
        None => false,
    }
}

pub open spec fn request_read_from(r: JsonRpcRequest, m: JsonModel) -> bool {
    &&& text_member(m, "jsonrpc"@) == Some(r.jsonrpc@)
    &&& i64_id(m) == Some(r.id as int)
    &&& text_member(m, "method"@) == Some(r.method@)
    &&& value_view(r.params) == member_value(m, "params"@)
}

pub open spec fn notification_read_from(n: JsonRpcNotification, m: JsonModel) -> bool {
    &&& text_member(m, "jsonrpc"@) == Some(n.jsonrpc@)
    &&& text_member(m, "method"@) == Some(n.method@)
    &&& value_view(n.params) == member_value(m, "params"@)
}

pub open spec fn error_read_from(e: JsonRpcError, m: JsonModel) -> bool {
    &&& int_member(m, "code"@, i32::MIN as int, i32::MAX as int) == Some(e.code as int)
    &&& text_member(m, "message"@) == Some(e.message@)
    &&& value_view(e.data) == member_value(m, "data"@)
}

pub open spec fn response_read_from(r: JsonRpcResponse, m: JsonModel) -> bool {
    &&& text_member(m, "jsonrpc"@) == Some(r.jsonrpc@)
    &&& (match r.id {
        Some(n) => i64_id(m) == Some(n as int),
        None => member_value(m, "id"@) is None,
    })
    &&& value_view(r.result) == member_value(m, "result"@)
    &&& (match r.error {
        Some(e) => member_value(m, "error"@) is Some && error_read_from(e, member_value(m, "error"@).unwrap()),
        None => member_value(m, "error"@) is None,
    })
}

/// `msg` is what reading the object `m` gives.
pub open spec fn message_read_from(msg: JsonRpcMessage, m: JsonModel) -> bool {
    match msg {
        JsonRpcMessage::Request(r) => classify(m) == Some(MessageKind::Request) && request_read_from(r, m),
        JsonRpcMessage::Notification(n) => classify(m) == Some(MessageKind::Notification)
            && notification_read_from(n, m),
        JsonRpcMessage::Response(r) => classify(m) == Some(MessageKind::Response) && response_read_from(r, m),
    }
}

/// A parameter, result or error payload that is present is not `null`, and a
/// response carries an id, a result or an error: what survives being written
/// and read back.
pub open spec fn payload_ok(v: Option<serde_json::Value>) -> bool {
    v is None || json_model(v.unwrap()) != JsonModel::Null
}

pub open spec fn optional_int(id: Option<i64>) -> JsonModel {
    match id {
        Some(n) => JsonModel::Int(n as int),
        None => JsonModel::Null,
    }
}

pub open spec fn with_payload(fields: Map<Seq<char>, JsonModel>, key: Seq<char>, v: Option<serde_json::Value>) -> Map<Seq<char>, JsonModel> {
    match v {
        Some(x) => fields.insert(key, json_model(x)),
        None => fields,
    }
}

pub open spec fn error_model(e: JsonRpcError) -> JsonModel {
    object_of(with_payload(
        Map::empty().insert("code"@, JsonModel::Int(e.code as int)).insert("message"@, JsonModel::Str(e.message@)),
        "data"@,
        e.data,
    ))
}

impl JsonRpcRequest {
    /// A version "2.0" request.
    pub fn new(id: i64, method: &str, params: Option<serde_json::Value>) -> (r: Self)
        ensures
            r.jsonrpc@ == "2.0"@,
            r.id == id,
            r.method@ == method@,
            r.params == params,
    {
        JsonRpcRequest { jsonrpc: String::from_str("2.0"), id, method: String::from_str(method), params }
    }

    pub open spec fn model(&self) -> JsonModel {
        object_of(with_payload(
            Map::empty().insert("jsonrpc"@, JsonModel::Str(self.jsonrpc@)).insert("id"@, JsonModel::Int(self.id as int))
                .insert("method"@, JsonModel::Str(self.method@)),
            "params"@,
            self.params,
        ))
    }

    /// The request as a JSON object; `params` is left out when absent.
    pub fn to_value(&self) -> (r: serde_json::Value)
        ensures
            json_model(r) == self.model(),
    {
        let mut obj = empty_object();
        set_member(&mut obj, String::from_str("jsonrpc"), text_value(self.jsonrpc.clone()));
        set_member(&mut obj, String::from_str("id"), int_value(self.id));
        set_member(&mut obj, String::from_str("method"), text_value(self.method.clone()));
        match &self.params {
            Some(p) => set_member(&mut obj, String::from_str("params"), crate::json::copy_value(p)),
            None => {},
        }
        obj
    }

    /// The request as one line of compact JSON text.
    pub fn to_json(&self) -> (r: String)
        ensures
            r@ == json_text(self.model()),
    {
        let v = self.to_value();
        print_value(&v)
    }
}

impl JsonRpcError {
    pub fn to_value(&self) -> (r: serde_json::Value)
        ensures
            json_model(r) == error_model(*self),
    {
        let mut obj = empty_object();
        set_member(&mut obj, String::from_str("code"), int_value(self.code as i64));
        set_member(&mut obj, String::from_str("message"), text_value(self.message.clone()));
        match &self.data {
            Some(d) => set_member(&mut obj, String::from_str("data"), crate::json::copy_value(d)),
            None => {},
        }
        obj
    }
}

impl JsonRpcResponse {
    /// A successful response carrying `result`.
    pub fn success(id: i64, result: serde_json::Value) -> (r: Self)
        ensures
            r.jsonrpc@ == "2.0"@,
            r.id == Some(id),
            r.result == Some(result),
            r.error is None,
    {
        JsonRpcResponse { jsonrpc: String::from_str("2.0"), id: Some(id), result: Some(result), error: None }
    }

    /// An error response carrying `code` and `message`.
    pub fn error(id: i64, code: i32, message: String) -> (r: Self)
        ensures
            r.jsonrpc@ == "2.0"@,
            r.id == Some(id),
            r.result is None,
            r.error matches Some(e) && e.code == code && e.message@ == message@ && e.data is None,
    {
        JsonRpcResponse {
            jsonrpc: String::from_str("2.0"),
            id: Some(id),
            result: None,
            error: Some(JsonRpcError { code, message, data: None }),
        }
    }

    pub open spec fn model(&self) -> JsonModel {
        let base = Map::empty().insert("jsonrpc"@, JsonModel::Str(self.jsonrpc@)).insert("id"@, optional_int(self.id));
        let with_result = with_payload(base, "result"@, self.result);
        object_of(match self.error {
            Some(e) => with_result.insert("error"@, error_model(e)),
            None => with_result,
        })
    }

    /// The response as a JSON object: `id` is always written (`null` when
    /// absent), `result` and `error` only when present.
    pub fn to_value(&self) -> (r: serde_json::Value)
        ensures
            json_model(r) == self.model(),
    {
        let mut obj = empty_object();
        set_member(&mut obj, String::from_str("jsonrpc"), text_value(self.jsonrpc.clone()));
        match self.id {
            Some(n) => set_member(&mut obj, String::from_str("id"), int_value(n)),
            None => set_member(&mut obj, String::from_str("id"), null_value()),
        }
        match &self.result {
            Some(p) => set_member(&mut obj, String::from_str("result"), crate::json::copy_value(p)),
            None => {},
        }
        match &self.error {
            Some(e) => set_member(&mut obj, String::from_str("error"), e.to_value()),
            None => {},
        }
        obj
    }

    /// The response as one line of compact JSON text.
    pub fn to_json(&self) -> (r: String)
        ensures
            r@ == json_text(self.model()),
    {
        let v = self.to_value();
        print_value(&v)
    }
}

impl JsonRpcNotification {
    /// A version "2.0" notification.
    pub fn new(method: &str, params: Option<serde_json::Value>) -> (r: Self)
        ensures
            r.jsonrpc@ == "2.0"@,
            r.method@ == method@,
            r.params == params,
    {
        JsonRpcNotification { jsonrpc: String::from_str("2.0"), method: String::from_str(method), params }
    }

    pub open spec fn model(&self) -> JsonModel {
        object_of(with_payload(
            Map::empty().insert("jsonrpc"@, JsonModel::Str(self.jsonrpc@)).insert("method"@, JsonModel::Str(self.method@)),
            "params"@,
            self.params,
        ))
    }

    /// The notification as a JSON object, without an `id`.
    pub fn to_value(&self) -> (r: serde_json::Value)
        ensures
            json_model(r) == self.model(),
    {
        let mut obj = empty_object();
        set_member(&mut obj, String::from_str("jsonrpc"), text_value(self.jsonrpc.clone()));
        set_member(&mut obj, String::from_str("method"), text_value(self.method.clone()));
        match &self.params {
            Some(p) => set_member(&mut obj, String::from_str("params"), crate::json::copy_value(p)),
            None => {},
        }
        obj
    }

    /// The notification as one line of compact JSON text.
    pub fn to_json(&self) -> (r: String)
        ensures
            r@ == json_text(self.model()),
    {
        let v = self.to_value();
        print_value(&v)
    }
}

/// Tells the kinds apart (see `classify`).
pub fn classify_value(v: &serde_json::Value) -> (r: Option<MessageKind>)
    ensures
        r == classify(json_model(*v)),
{
    if !value_is_object(v) {
        return None;
    }
    let has_method = get_member(v, "method").is_some();
    let live_id = match get_member(v, "id") {
        Some(i) => !value_is_null(i),
        None => false,
    };
    if has_method && live_id {
        Some(MessageKind::Request)
    } else if has_method {
        Some(MessageKind::Notification)
    } else if live_id || get_member(v, "result").is_some() || get_member(v, "error").is_some() {
        Some(MessageKind::Response)
    } else {
        None
    }
}

fn read_error(v: &serde_json::Value) -> (r: Option<JsonRpcError>)
    ensures
        r is Some <==> error_ok(json_model(*v)),
        r is Some ==> error_read_from(r.unwrap(), json_model(*v)),
{
    if !value_is_object(v) {
        return None;
    }
    let code = integer_member(v, "code", i32::MIN as i64, i32::MAX as i64);
    let message = required_text(v, "message");
    match (code, message) {
        (Some(c), Some(msg)) => Some(JsonRpcError { code: c as i32, message: msg, data: optional_value(v, "data") }),
        _ => None,
    }
}

fn malformed(what: &str) -> (r: MessageError)
    ensures
        r is Malformed,
{
    MessageError::Malformed(String::from_str(what))
}

impl JsonRpcMessage {
    /// Reads a message from a JSON value.
    pub fn from_value(v: &serde_json::Value) -> (r: Result<JsonRpcMessage, MessageError>)
        ensures
            r is Ok <==> message_ok(json_model(*v)),
            r is Ok ==> message_read_from(r->Ok_0, json_model(*v)),
            (r is Err && r->Err_0 is Unrecognized) <==> (is_object(json_model(*v)) && classify(json_model(*v)) is None),
    {
        match classify_value(v) {
            None => {
                if value_is_object(v) {
                    Err(MessageError::Unrecognized)
                } else {
                    Err(malformed("a message must be a JSON object"))
                }
            },
            Some(MessageKind::Request) => {
                let jsonrpc = required_text(v, "jsonrpc");
                let id = integer_member(v, "id", i64::MIN, i64::MAX);
                let method = required_text(v, "method");
                match (jsonrpc, id, method) {
                    (Some(j), Some(i), Some(m)) => Ok(
                        JsonRpcMessage::Request(JsonRpcRequest { jsonrpc: j, id: i, method: m, params: optional_value(v, "params") }),
                    ),
                    _ => Err(malformed("invalid request fields")),
                }
            },
            Some(MessageKind::Notification) => {
                let jsonrpc = required_text(v, "jsonrpc");
                let method = required_text(v, "method");
                match (jsonrpc, method) {
                    (Some(j), Some(m)) => Ok(
                        JsonRpcMessage::Notification(JsonRpcNotification { jsonrpc: j, method: m, params: optional_value(v, "params") }),
                    ),
                    _ => Err(malformed("invalid notification fields")),
                }
            },
            Some(MessageKind::Response) => {
                let jsonrpc = match required_text(v, "jsonrpc") {
                    Some(j) => j,
                    None => { return Err(malformed("invalid response fields")); },
                };
                let id = match optional_value(v, "id") {
                    None => None,
                    Some(_) => match integer_member(v, "id", i64::MIN, i64::MAX) {
                        Some(i) => Some(i),
                        None => { return Err(malformed("invalid response id")); },
                    },
                };
                let error = match optional_value(v, "error") {
                    None => None,
                    Some(e) => match read_error(&e) {
                        Some(err) => Some(err),
                        None => { return Err(malformed("invalid response error")); },
                    },
                };
                Ok(JsonRpcMessage::Response(JsonRpcResponse { jsonrpc, id, result: optional_value(v, "result"), error }))
            },
        }
    }

    /// Reads a message from one line of JSON text.
    pub fn parse(json: &str) -> (r: Result<JsonRpcMessage, MessageError>)
        ensures
            r is Ok <==> (parsed_json(json@) matches Some(m) && message_ok(m)),
            r is Ok ==> message_read_from(r->Ok_0, parsed_json(json@).unwrap()),
            (r is Err && r->Err_0 is Unrecognized) <==> (parsed_json(json@) matches Some(m) && is_object(m)
                && classify(m) is None),
    {
        match parse_text(json) {
            Ok(v) => JsonRpcMessage::from_value(&v),
            Err(e) => Err(MessageError::Malformed(describe_error(&e))),
        }
    }

    pub open spec fn kind(&self) -> MessageKind {
        match self {
            JsonRpcMessage::Request(_) => MessageKind::Request,
            JsonRpcMessage::Response(_) => MessageKind::Response,
            JsonRpcMessage::Notification(_) => MessageKind::Notification,
        }
    }

    pub fn is_notification(&self) -> (r: bool)
        ensures
            r == (self.kind() == MessageKind::Notification),
    {
        match self {
            JsonRpcMessage::Notification(_) => true,
            _ => false,
        }
    }

    pub fn is_response(&self) -> (r: bool)
        ensures
            r == (self.kind() == MessageKind::Response),
    {
        match self {
            JsonRpcMessage::Response(_) => true,
            _ => false,
        }
    }

    pub open spec fn model(&self) -> JsonModel {
        match self {
            JsonRpcMessage::Request(r) => r.model(),
            JsonRpcMessage::Response(r) => r.model(),
            JsonRpcMessage::Notification(n) => n.model(),
        }
    }

    /// The message as it goes on the wire.
    pub fn to_value(&self) -> (r: serde_json::Value)
        ensures
            json_model(r) == self.model(),
    {
        match self {
            JsonRpcMessage::Request(r) => r.to_value(),
            JsonRpcMessage::Response(r) => r.to_value(),
            JsonRpcMessage::Notification(n) => n.to_value(),
        }
    }

    /// The message as one line of compact JSON text.
    pub fn to_json(&self) -> (r: String)
        ensures
            r@ == json_text(self.model()),
    {
        let v = self.to_value();
        print_value(&v)
    }

    /// What survives being written and read back (see `payload_ok`).
    pub open spec fn well_formed(&self) -> bool {
        match self {
            JsonRpcMessage::Request(r) => payload_ok(r.params),
            JsonRpcMessage::Notification(n) => payload_ok(n.params),
            JsonRpcMessage::Response(r) => payload_ok(r.result) && (match r.error {
                Some(e) => payload_ok(e.data),
                None => true,
            }) && (r.id is Some || r.result is Some || r.error is Some),
        }
    }

    /// The two messages have the same kind and the same field values.
    pub open spec fn same_as(&self, other: JsonRpcMessage) -> bool {
        match (self, other) {
            (JsonRpcMessage::Request(a), JsonRpcMessage::Request(b)) => a.jsonrpc@ == b.jsonrpc@ && a.id == b.id
                && a.method@ == b.method@ && value_view(a.params) == value_view(b.params),
            (JsonRpcMessage::Notification(a), JsonRpcMessage::Notification(b)) => a.jsonrpc@ == b.jsonrpc@
                && a.method@ == b.method@ && value_view(a.params) == value_view(b.params),
            (JsonRpcMessage::Response(a), JsonRpcMessage::Response(b)) => a.jsonrpc@ == b.jsonrpc@ && a.id == b.id
                && value_view(a.result) == value_view(b.result) && (match (a.error, b.error) {
                (Some(x), Some(y)) => x.code == y.code && x.message@ == y.message@ && value_view(x.data)
                    == value_view(y.data),
                (None, None) => true,
                _ => false,
            }),
            _ => false,
        }
    }
}

/// Classification is total over objects and follows the fields alone: a
/// request has a method and a non-null id, a notification has a method and
/// no id or a null one, and any other object with an id, a result or an error
/// is a response.
pub proof fn lemma_classification(m: JsonModel)
    requires
        is_object(m),
    ensures
        classify(m) == Some(MessageKind::Request) <==> (has_method(m) && has_live_id(m)),
        classify(m) == Some(MessageKind::Notification) <==> (has_method(m) && !has_live_id(m)),
        classify(m) == Some(MessageKind::Response) <==> (!has_method(m) && (has_live_id(m)
            || member(m, "result"@) is Some || member(m, "error"@) is Some)),
        classify(m) is None <==> (!has_method(m) && !has_live_id(m) && member(m, "result"@) is None
            && member(m, "error"@) is None),
{
}

/// Writing a message and reading the object back gives a message of the same
/// kind with the same field values.
pub proof fn lemma_round_trip(msg: JsonRpcMessage)
    requires
        msg.well_formed(),
    ensures
        classify(msg.model()) == Some(msg.kind()),
        message_ok(msg.model()),
        forall|back: JsonRpcMessage| #[trigger] message_read_from(back, msg.model()) ==> back.same_as(msg),
{
    reveal_strlit("jsonrpc");
    reveal_strlit("id");
    reveal_strlit("method");
    reveal_strlit("params");
    reveal_strlit("result");
    reveal_strlit("error");
    reveal_strlit("code");
    reveal_strlit("message");
    reveal_strlit("data");
    assert("method"@[0] != "params"@[0]);
    assert("method"@[0] != "result"@[0]);
    assert("code"@[0] != "data"@[0]);
    assert("jsonrpc"@[0] != "id"@[0] && "jsonrpc"@[0] != "method"@[0] && "jsonrpc"@[0] != "params"@[0]);
    assert("jsonrpc"@[0] != "result"@[0] && "jsonrpc"@[0] != "error"@[0]);
    match msg {
        JsonRpcMessage::Request(r) => {
            let m = msg.model();
            assert(member(m, "method"@) == Some(JsonModel::Str(r.method@)));
            assert(member(m, "id"@) == Some(JsonModel::Int(r.id as int)));
            assert(member(m, "jsonrpc"@) == Some(JsonModel::Str(r.jsonrpc@)));
            assert(member_value(m, "params"@) == value_view(r.params));
        },
        JsonRpcMessage::Notification(n) => {
            let m = msg.model();
            assert(member(m, "method"@) == Some(JsonModel::Str(n.method@)));
            assert(member(m, "id"@) is None);
            assert(member(m, "jsonrpc"@) == Some(JsonModel::Str(n.jsonrpc@)));
            assert(member_value(m, "params"@) == value_view(n.params));
        },
        JsonRpcMessage::Response(r) => {
            let m = msg.model();
            assert(member(m, "method"@) is None);
            assert(member(m, "id"@) == Some(optional_int(r.id)));
            assert(member(m, "jsonrpc"@) == Some(JsonModel::Str(r.jsonrpc@)));
            assert(member_value(m, "result"@) == value_view(r.result));
            match r.error {
                Some(e) => {
                    let em = error_model(e);
                    assert(member(m, "error"@) == Some(em));
                    assert(member(em, "code"@) == Some(JsonModel::Int(e.code as int)));
                    assert(member(em, "message"@) == Some(JsonModel::Str(e.message@)));
                    assert(member_value(em, "data"@) == value_view(e.data));
                },
                None => {
                    assert(member(m, "error"@) is None);
                },
            }
        },
    }
}

} // verus!
