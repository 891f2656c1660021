use acp_core::codec::{decode_line, frame_line, CodecError};
use acp_core::protocol::{
    classify_value, JsonRpcMessage, JsonRpcNotification, JsonRpcRequest, JsonRpcResponse, MessageError,
    MessageKind,
};

fn value(text: &str) -> serde_json::Value {
    serde_json::from_str(text).unwrap()
}

#[test]
fn test_request_serialization() {
    let req = JsonRpcRequest::new(1, "initialize", Some(value(r#"{"foo": "bar"}"#)));
    let json = req.to_json();

    assert!(json.contains("\"jsonrpc\":\"2.0\""));
    assert!(json.contains("\"id\":1"));
    assert!(json.contains("\"method\":\"initialize\""));
    assert!(json.contains("\"params\""));
}

#[test]
fn test_response_success_deserialization() {
    let json = r#"{"jsonrpc":"2.0","id":1,"result":{"sessionId":"abc123"}}"#;
    let msg = JsonRpcMessage::parse(json).unwrap();

    match msg {
        JsonRpcMessage::Response(resp) => {
            assert_eq!(resp.id, Some(1));
            assert!(resp.result.is_some());
            assert!(resp.error.is_none());
        }
        _ => panic!("Expected Response"),
    }
}

#[test]
fn test_response_error_deserialization() {
    let json = r#"{"jsonrpc":"2.0","id":1,"error":{"code":-32600,"message":"Invalid params"}}"#;
    let msg = JsonRpcMessage::parse(json).unwrap();

    match msg {
        JsonRpcMessage::Response(resp) => {
            assert!(resp.error.is_some());
            let err = resp.error.unwrap();
            assert_eq!(err.code, -32600);
            assert_eq!(err.message, "Invalid params");
        }
        _ => panic!("Expected Response"),
    }
}

#[test]
fn test_notification_deserialization() {
    let json = r#"{"jsonrpc":"2.0","method":"session/update","params":{"sessionId":"abc"}}"#;
    let msg = JsonRpcMessage::parse(json).unwrap();

    match msg {
        JsonRpcMessage::Notification(notif) => {
            assert_eq!(notif.method, "session/update");
            assert!(notif.params.is_some());
        }
        _ => panic!("Expected Notification"),
    }
}

#[test]
fn test_message_dispatch() {
    let resp_json = r#"{"jsonrpc":"2.0","id":1,"result":{}}"#;
    let resp = JsonRpcMessage::parse(resp_json).unwrap();
    assert!(resp.is_response());
    assert!(!resp.is_notification());

    let notif_json = r#"{"jsonrpc":"2.0","method":"test","params":{}}"#;
    let notif = JsonRpcMessage::parse(notif_json).unwrap();
    assert!(notif.is_notification());
    assert!(!notif.is_response());
}

#[test]
fn test_notification_with_null_id() {
    let json = r#"{"jsonrpc":"2.0","id":null,"method":"session/update","params":{"sessionId":"abc"}}"#;
    let msg = JsonRpcMessage::parse(json).unwrap();

    match msg {
        JsonRpcMessage::Notification(notif) => {
            assert_eq!(notif.method, "session/update");
            assert!(notif.params.is_some());
        }
        _ => panic!("Expected Notification"),
    }
}

#[test]
fn test_request_deserialization() {
    let json = r#"{"jsonrpc":"2.0","id":42,"method":"session/request_permission","params":{"sessionId":"abc"}}"#;
    let msg = JsonRpcMessage::parse(json).unwrap();

    match msg {
        JsonRpcMessage::Request(req) => {
            assert_eq!(req.id, 42);
            assert_eq!(req.method, "session/request_permission");
            assert!(req.params.is_some());
        }
        _ => panic!("Expected Request"),
    }
}

#[test]
fn test_response_success_helper() {
    let response = JsonRpcResponse::success(123, value(r#"{"status": "ok"}"#));
    let json = response.to_json();

    assert!(json.contains("\"jsonrpc\":\"2.0\""));
    assert!(json.contains("\"id\":123"));
    assert!(json.contains("\"result\":{\"status\":\"ok\"}"));
    assert!(!json.contains("\"error\""));
}

#[test]
fn test_response_error_helper() {
    let response = JsonRpcResponse::error(456, -32601, "Method not found".to_string());
    let json = response.to_json();

    assert!(json.contains("\"jsonrpc\":\"2.0\""));
    assert!(json.contains("\"id\":456"));
    assert!(json.contains("\"error\""));
    assert!(json.contains("\"code\":-32601"));
    assert!(json.contains("\"message\":\"Method not found\""));
    assert!(!json.contains("\"result\""));
}

#[test]
fn classification_follows_fields() {
    assert_eq!(classify_value(&value(r#"{"id":1,"method":"m"}"#)), Some(MessageKind::Request));
    assert_eq!(classify_value(&value(r#"{"method":"m"}"#)), Some(MessageKind::Notification));
    assert_eq!(classify_value(&value(r#"{"id":null,"method":"m"}"#)), Some(MessageKind::Notification));
    assert_eq!(classify_value(&value(r#"{"id":3}"#)), Some(MessageKind::Response));
    assert_eq!(classify_value(&value(r#"{"result":null}"#)), Some(MessageKind::Response));
    assert_eq!(classify_value(&value(r#"{"error":{}}"#)), Some(MessageKind::Response));
    assert_eq!(classify_value(&value(r#"{"id":null}"#)), None);
    assert_eq!(classify_value(&value(r#"[1,2]"#)), None);
}

#[test]
fn unrecognized_and_malformed_lines() {
    assert!(matches!(JsonRpcMessage::parse(r#"{"jsonrpc":"2.0"}"#), Err(MessageError::Unrecognized)));
    assert!(matches!(JsonRpcMessage::parse("not json"), Err(MessageError::Malformed(_))));
    assert!(matches!(JsonRpcMessage::parse("[1]"), Err(MessageError::Malformed(_))));
    assert!(matches!(JsonRpcMessage::parse(r#"{"id":"x","method":"m","jsonrpc":"2.0"}"#), Err(MessageError::Malformed(_))));
    assert!(matches!(JsonRpcMessage::parse(r#"{"id":1,"method":"m"}"#), Err(MessageError::Malformed(_))));
}

#[test]
fn round_trip_keeps_kind_and_fields() {
    let req = JsonRpcMessage::Request(JsonRpcRequest::new(7, "session/prompt", Some(value(r#"{"a":[1,2]}"#))));
    match JsonRpcMessage::parse(&req.to_json()).unwrap() {
        JsonRpcMessage::Request(r) => {
            assert_eq!(r.id, 7);
            assert_eq!(r.method, "session/prompt");
            assert_eq!(r.params, Some(value(r#"{"a":[1,2]}"#)));
        }
        _ => panic!("expected a request"),
    }
    let notif = JsonRpcMessage::Notification(JsonRpcNotification::new("notifications/initialized", None));
    match JsonRpcMessage::parse(&notif.to_json()).unwrap() {
        JsonRpcMessage::Notification(n) => {
            assert_eq!(n.method, "notifications/initialized");
            assert!(n.params.is_none());
        }
        _ => panic!("expected a notification"),
    }
    let resp = JsonRpcMessage::Response(JsonRpcResponse::error(9, -32601, "nope".to_string()));
    match JsonRpcMessage::parse(&resp.to_json()).unwrap() {
        JsonRpcMessage::Response(r) => {
            assert_eq!(r.id, Some(9));
            assert!(r.result.is_none());
            let e = r.error.unwrap();
            assert_eq!(e.code, -32601);
            assert_eq!(e.message, "nope");
        }
        _ => panic!("expected a response"),
    }
}

#[test]
fn notification_is_written_without_id() {
    let n = JsonRpcNotification::new("notifications/initialized", None);
    assert_eq!(n.to_json(), r#"{"jsonrpc":"2.0","method":"notifications/initialized"}"#);
}

#[test]
fn lines_are_trimmed_and_framed() {
    assert!(matches!(decode_line("\n"), Ok(None)));
    assert!(matches!(decode_line("   "), Ok(None)));
    match decode_line("  {\"jsonrpc\":\"2.0\",\"method\":\"x\"}\n") {
        Ok(Some(JsonRpcMessage::Notification(n))) => assert_eq!(n.method, "x"),
        _ => panic!("expected a notification"),
    }
    assert!(matches!(decode_line("{oops"), Err(CodecError::Json(MessageError::Malformed(_)))));
    assert_eq!(frame_line("{}"), "{}\n");
}

#[test]
fn unicode_white_space_is_trimmed() {
    assert!(matches!(decode_line("\u{3000}\t\r\n"), Ok(None)));
    match decode_line("\u{00A0} {\"jsonrpc\":\"2.0\",\"id\":4,\"result\":{}} \u{2028}\n") {
        Ok(Some(JsonRpcMessage::Response(r))) => assert_eq!(r.id, Some(4)),
        _ => panic!("expected a response"),
    }
}
