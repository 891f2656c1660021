use acp_core::messages::{
    InitializeParams, LegacySessionUpdateNotification, PermissionOption, PermissionOptionKind,
    PermissionOutcomeValue, PlanEntryPriority, PlanEntryStatus, PromptContent, RequestPermissionRequest,
    RequestPermissionResponse, SessionNewParams, SessionPromptParams, SessionPromptResult, SessionUpdate,
    SessionUpdateNotification, StopReason, ToolCallStatus,
};

fn value(text: &str) -> serde_json::Value {
    serde_json::from_str(text).unwrap()
}

fn notification(text: &str) -> SessionUpdateNotification {
    SessionUpdateNotification::from_value(&value(text)).unwrap()
}

#[test]
fn test_initialize_params_serialization() {
    let params = InitializeParams::new();
    let json = serde_json::to_string(&params.to_value()).unwrap();

    assert!(json.contains("\"protocolVersion\":1"));
    assert!(json.contains("\"clientInfo\""));
    assert!(!json.contains("protocol_version"));
}

#[test]
fn test_session_new_params_serialization() {
    let params = SessionNewParams { cwd: "/test/path".to_string(), mcp_servers: vec![] };
    let json = serde_json::to_string(&params.to_value()).unwrap();

    assert!(json.contains("\"cwd\":\"/test/path\""));
    assert!(json.contains("\"mcpServers\":[]"));
}

#[test]
fn test_session_prompt_params_serialization() {
    let params = SessionPromptParams { session_id: "test-session".to_string(), prompt: vec![PromptContent::text("Hello")] };
    let json = serde_json::to_string(&params.to_value()).unwrap();

    assert!(json.contains("\"sessionId\":\"test-session\""));
    assert!(json.contains("\"prompt\":["));
    assert!(json.contains("\"type\":\"text\""));
    assert!(json.contains("\"text\":\"Hello\""));
}

#[test]
fn test_agent_message_chunk_deserialization() {
    let json = r#"{
        "sessionId": "test-session",
        "update": {
            "type": "agent_message_chunk",
            "content": {
                "type": "text",
                "text": "Hello"
            }
        }
    }"#;

    let notification = notification(json);
    assert_eq!(notification.session_id, "test-session");

    if let SessionUpdate::AgentMessageChunk(chunk) = notification.update {
        assert_eq!(chunk.content.get_text().map(|s| s.as_str()), Some("Hello"));
    } else {
        panic!("Expected AgentMessageChunk");
    }
}

#[test]
fn test_tool_call_pending_deserialization() {
    let json = r#"{
        "sessionId": "test-session",
        "update": {
            "type": "tool_call",
            "toolCallId": "tool-123",
            "title": "Reading file.rs",
            "status": "pending",
            "rawInput": {"file_path": "/test/file.rs"}
        }
    }"#;

    let notification = notification(json);

    if let SessionUpdate::ToolCall(tc) = &notification.update {
        assert_eq!(tc.tool_call_id, "tool-123");
        assert_eq!(tc.title, "Reading file.rs");
        assert_eq!(tc.status, ToolCallStatus::Pending);
        assert!(notification.update.needs_user_input());
    } else {
        panic!("Expected ToolCall");
    }
}

#[test]
fn test_tool_call_in_progress_deserialization() {
    let json = r#"{
        "sessionId": "test-session",
        "update": {
            "type": "tool_call",
            "toolCallId": "tool-123",
            "title": "Reading file.rs",
            "status": "in_progress"
        }
    }"#;

    let notification = notification(json);

    if let SessionUpdate::ToolCall(tc) = &notification.update {
        assert_eq!(tc.status, ToolCallStatus::InProgress);
        assert!(!notification.update.needs_user_input());
    } else {
        panic!("Expected ToolCall");
    }
}

#[test]
fn test_tool_call_completed_deserialization() {
    let json = r#"{
        "sessionId": "test-session",
        "update": {
            "type": "tool_call",
            "toolCallId": "tool-123",
            "title": "Read file.rs",
            "status": "completed",
            "rawOutput": {"content": "file contents..."}
        }
    }"#;

    let notification = notification(json);

    if let SessionUpdate::ToolCall(tc) = notification.update {
        assert_eq!(tc.status, ToolCallStatus::Completed);
        assert!(tc.raw_output.is_some());
    } else {
        panic!("Expected ToolCall");
    }
}

#[test]
fn test_tool_call_update_deserialization() {
    let json = r#"{
        "sessionId": "test-session",
        "update": {
            "type": "tool_call_update",
            "toolCallId": "tool-123",
            "status": "completed",
            "rawOutput": {"result": "success"}
        }
    }"#;

    let notification = notification(json);

    if let SessionUpdate::ToolCallUpdate(tcu) = notification.update {
        assert_eq!(tcu.tool_call_id, "tool-123");
        assert_eq!(tcu.status, Some(ToolCallStatus::Completed));
    } else {
        panic!("Expected ToolCallUpdate");
    }
}

#[test]
fn test_plan_deserialization() {
    let json = r#"{
        "sessionId": "test-session",
        "update": {
            "type": "plan",
            "entries": [
                {"id": "1", "title": "Analyze code", "status": "completed"},
                {"id": "2", "title": "Make changes", "status": "in_progress"},
                {"id": "3", "title": "Run tests", "status": "pending"}
            ]
        }
    }"#;

    let notification = notification(json);

    if let SessionUpdate::Plan(plan) = notification.update {
        assert_eq!(plan.entries.len(), 3);
        assert_eq!(plan.entries[0].status, PlanEntryStatus::Completed);
        assert_eq!(plan.entries[1].status, PlanEntryStatus::InProgress);
        assert_eq!(plan.entries[2].status, PlanEntryStatus::Pending);
    } else {
        panic!("Expected Plan");
    }
}

#[test]
fn test_request_permission_request_deserialization() {
    let json = r#"{
        "sessionId": "test-session",
        "toolCall": {
            "toolCallId": "tool-123",
            "title": "Write to file.rs",
            "status": "pending"
        },
        "options": [
            {"optionId": "opt-1", "name": "Allow once", "kind": "allow_once"},
            {"optionId": "opt-2", "name": "Always allow", "kind": "allow_always"},
            {"optionId": "opt-3", "name": "Deny", "kind": "reject_once"}
        ]
    }"#;

    let request = RequestPermissionRequest::from_value(&value(json)).unwrap();
    assert_eq!(request.session_id, "test-session");
    assert_eq!(request.tool_call.tool_call_id, "tool-123");
    assert_eq!(request.options.len(), 3);
    assert_eq!(request.options[0].kind, PermissionOptionKind::AllowOnce);
    assert_eq!(request.options[0].option_id, "opt-1");
    assert_eq!(request.options[0].name, "Allow once");
}

#[test]
fn test_permission_response_serialization() {
    let response = RequestPermissionResponse::selected("opt-allow-once".to_string());
    let json = serde_json::to_string(&response.to_value()).unwrap();

    assert!(json.contains("\"outcome\":{"));
    assert!(json.contains("\"outcome\":\"selected\""));
    assert!(json.contains("\"optionId\":\"opt-allow-once\""));

    let cancelled = RequestPermissionResponse::cancelled();
    let json = serde_json::to_string(&cancelled.to_value()).unwrap();
    assert!(json.contains("\"outcome\":\"cancelled\""));
}

#[test]
fn test_stop_reason_deserialization() {
    let json = r#"{"stopReason": "completed"}"#;
    let result = SessionPromptResult::from_value(&value(json)).unwrap();
    assert!(matches!(result.stop_reason, StopReason::Completed));

    let json = r#"{"stopReason": "max_tokens"}"#;
    let result = SessionPromptResult::from_value(&value(json)).unwrap();
    assert!(matches!(result.stop_reason, StopReason::MaxTokens));

    let json = r#"{"stopReason": "some_unknown_value"}"#;
    let result = SessionPromptResult::from_value(&value(json)).unwrap();
    assert!(matches!(result.stop_reason, StopReason::Unknown));
}

#[test]
fn test_legacy_session_update_deserialization() {
    let json = r#"{
        "sessionId": "test-session",
        "update": {
            "sessionUpdate": "agent_message_chunk",
            "content": {
                "type": "text",
                "text": "Hello"
            }
        }
    }"#;

    let notification = LegacySessionUpdateNotification::from_value(&value(json)).unwrap();
    assert_eq!(notification.session_id, "test-session");
    assert_eq!(notification.update.session_update, "agent_message_chunk");
    assert_eq!(notification.update.content.as_ref().unwrap().text, Some("Hello".to_string()));
}

#[test]
fn test_legacy_tool_update_deserialization() {
    let json = r#"{
        "sessionId": "test-session",
        "update": {
            "sessionUpdate": "tool_use_start",
            "toolUseId": "tool-123",
            "name": "Read",
            "input": {"file_path": "/test/file.rs"}
        }
    }"#;

    let notification = LegacySessionUpdateNotification::from_value(&value(json)).unwrap();
    assert_eq!(notification.update.session_update, "tool_use_start");
    assert_eq!(notification.update.tool_use_id, Some("tool-123".to_string()));
    assert_eq!(notification.update.name, Some("Read".to_string()));
}

#[test]
fn test_current_mode_update_deserialization() {
    let json = r#"{
        "sessionId": "test-session",
        "update": {
            "type": "current_mode_update",
            "mode": "architect"
        }
    }"#;

    let notification = notification(json);

    if let SessionUpdate::CurrentModeUpdate(update) = notification.update {
        assert_eq!(update.mode, "architect");
    } else {
        panic!("Expected CurrentModeUpdate");
    }
}

#[test]
fn test_available_commands_update_deserialization() {
    let json = r#"{
        "sessionId": "test-session",
        "update": {
            "type": "available_commands_update",
            "commands": [
                {"name": "/help", "description": "Show help"},
                {"name": "/clear", "description": "Clear context"}
            ]
        }
    }"#;

    let notification = notification(json);

    if let SessionUpdate::AvailableCommandsUpdate(update) = notification.update {
        assert_eq!(update.commands.len(), 2);
        assert_eq!(update.commands[0].name, "/help");
    } else {
        panic!("Expected AvailableCommandsUpdate");
    }
}

#[test]
fn test_file_location_deserialization() {
    let json = r#"{
        "sessionId": "test-session",
        "update": {
            "type": "tool_call",
            "toolCallId": "tool-123",
            "title": "Edit file",
            "status": "in_progress",
            "locations": [
                {
                    "path": "/test/file.rs",
                    "range": {
                        "start": {"line": 10, "character": 0},
                        "end": {"line": 20, "character": 0}
                    }
                }
            ]
        }
    }"#;

    let notification = notification(json);

    if let SessionUpdate::ToolCall(tc) = notification.update {
        let locations = tc.locations.unwrap();
        assert_eq!(locations.len(), 1);
        assert_eq!(locations[0].path, "/test/file.rs");
        let range = locations[0].range.as_ref().unwrap();
        assert_eq!(range.start.line, 10);
        assert_eq!(range.end.line, 20);
    } else {
        panic!("Expected ToolCall");
    }
}

#[test]
fn test_tool_call_needs_user_input() {
    let json = r#"{
        "sessionId": "s",
        "update": {"type": "tool_call", "toolCallId": "1", "title": "t", "status": "pending"}
    }"#;
    let n = notification(json);
    assert!(n.update.needs_user_input(), "Pending ToolCall should need input");

    let json = r#"{
        "sessionId": "s",
        "update": {"type": "tool_call", "toolCallId": "1", "title": "t", "status": "in_progress"}
    }"#;
    let n = notification(json);
    assert!(!n.update.needs_user_input(), "InProgress ToolCall should not need input");

    let json = r#"{
        "sessionId": "s",
        "update": {"type": "tool_call", "toolCallId": "1", "title": "t", "status": "completed"}
    }"#;
    let n = notification(json);
    assert!(!n.update.needs_user_input(), "Completed ToolCall should not need input");

    let json = r#"{
        "sessionId": "s",
        "update": {"type": "agent_message_chunk", "content": {"type": "text", "text": "hi"}}
    }"#;
    let n = notification(json);
    assert!(!n.update.needs_user_input(), "AgentMessageChunk should not need input");
}

#[test]
fn test_full_permission_request_flow() {
    let request_json = r#"{
        "sessionId": "session-abc",
        "toolCall": {
            "toolCallId": "tc-456",
            "title": "Write to /etc/passwd",
            "status": "pending"
        },
        "options": [
            {"optionId": "allow-once", "name": "Allow this once", "kind": "allow_once", "description": "Permit this action one time"},
            {"optionId": "allow-always", "name": "Always allow", "kind": "allow_always", "description": "Never ask again for this tool"},
            {"optionId": "reject-once", "name": "Deny", "kind": "reject_once"},
            {"optionId": "reject-always", "name": "Always deny", "kind": "reject_always"}
        ]
    }"#;

    let request = RequestPermissionRequest::from_value(&value(request_json)).unwrap();
    assert_eq!(request.session_id, "session-abc");
    assert_eq!(request.tool_call.tool_call_id, "tc-456");
    assert_eq!(request.tool_call.title, Some("Write to /etc/passwd".to_string()));
    assert_eq!(request.options.len(), 4);
    assert_eq!(request.options[0].kind, PermissionOptionKind::AllowOnce);
    assert_eq!(request.options[0].option_id, "allow-once");
    assert_eq!(request.options[1].kind, PermissionOptionKind::AllowAlways);
    assert_eq!(request.options[2].kind, PermissionOptionKind::RejectOnce);
    assert_eq!(request.options[3].kind, PermissionOptionKind::RejectAlways);
    assert_eq!(request.options[0].description, Some("Permit this action one time".to_string()));
    assert!(request.options[2].description.is_none());

    let response = RequestPermissionResponse::selected(request.options[0].option_id.clone());

    let response_json = serde_json::to_string(&response.to_value()).unwrap();
    assert!(response_json.contains("\"outcome\":\"selected\""));
    assert!(response_json.contains("\"optionId\":\"allow-once\""));

    let parsed_response = RequestPermissionResponse::from_value(&value(&response_json)).unwrap();
    match parsed_response.outcome {
        PermissionOutcomeValue::Selected { option_id } => {
            assert_eq!(option_id, "allow-once");
        }
        _ => panic!("Expected Selected response"),
    }
}

#[test]
fn test_all_permission_option_kinds() {
    let kinds = [
        (PermissionOptionKind::AllowOnce, "allow_once"),
        (PermissionOptionKind::AllowAlways, "allow_always"),
        (PermissionOptionKind::RejectOnce, "reject_once"),
        (PermissionOptionKind::RejectAlways, "reject_always"),
    ];

    for (i, (kind, expected_str)) in kinds.iter().enumerate() {
        let option = PermissionOption { option_id: format!("opt-{}", i), name: "test".to_string(), kind: *kind, description: None };
        let json = serde_json::to_string(&option.to_value()).unwrap();
        assert!(json.contains(expected_str), "Expected {} in JSON: {}", expected_str, json);

        let parsed = PermissionOption::from_value(&value(&json)).unwrap();
        assert_eq!(parsed.kind, *kind);
        assert_eq!(parsed.option_id, format!("opt-{}", i));
    }
}

#[test]
fn test_session_update_get_text() {
    let json = r#"{
        "sessionId": "s",
        "update": {"type": "agent_message_chunk", "content": {"type": "text", "text": "Hello world"}}
    }"#;
    let n = notification(json);
    assert_eq!(n.update.get_text().map(|s| s.as_str()), Some("Hello world"));

    let json = r#"{
        "sessionId": "s",
        "update": {"type": "tool_call", "toolCallId": "1", "title": "t", "status": "pending"}
    }"#;
    let n = notification(json);
    assert_eq!(n.update.get_text(), None);
}

#[test]
fn test_plan_entry_statuses() {
    let json = r#"{
        "sessionId": "s",
        "update": {
            "type": "plan",
            "entries": [
                {"id": "1", "title": "Task 1", "status": "pending", "priority": "high"},
                {"id": "2", "title": "Task 2", "status": "in_progress", "priority": "medium"},
                {"id": "3", "title": "Task 3", "status": "completed", "priority": "low"}
            ]
        }
    }"#;

    let n = notification(json);
    if let SessionUpdate::Plan(plan) = n.update {
        assert_eq!(plan.entries[0].status, PlanEntryStatus::Pending);
        assert_eq!(plan.entries[0].priority, Some(PlanEntryPriority::High));
        assert_eq!(plan.entries[1].status, PlanEntryStatus::InProgress);
        assert_eq!(plan.entries[1].priority, Some(PlanEntryPriority::Medium));
        assert_eq!(plan.entries[2].status, PlanEntryStatus::Completed);
        assert_eq!(plan.entries[2].priority, Some(PlanEntryPriority::Low));
    } else {
        panic!("Expected Plan");
    }
}

#[test]
fn unknown_update_type_is_refused() {
    let json = r#"{"sessionId": "s", "update": {"type": "something_else"}}"#;
    assert!(SessionUpdateNotification::from_value(&value(json)).is_none());
    let json = r#"{"sessionId": "s", "update": {"type": "tool_call", "toolCallId": "1", "title": "t", "status": "waiting"}}"#;
    assert!(SessionUpdateNotification::from_value(&value(json)).is_none());
}

#[test]
fn tool_info_of_updates() {
    let n = notification(r#"{"sessionId": "s", "update": {"type": "tool_call_update", "toolCallId": "9"}}"#);
    assert_eq!(n.update.get_tool_info(), Some(("9", "")));
    assert_eq!(n.update.update_type(), "tool_call_update");
}
