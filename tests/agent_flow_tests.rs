use acp_core::codec::decode_line;
use acp_core::message_processor::process_session_update;
use acp_core::metrics::MetricsTracker;
use acp_core::permission::choose_permission_response;
use acp_core::messages::{PermissionOption, PermissionOptionKind, PermissionOutcomeValue};
use acp_core::process::{
    AgentProcess, AgentProcessError, AgentStatus, HandshakeStep, PendingInput, PendingInputType,
    PermissionUserResponse, PromptStep,
};
use acp_core::protocol::JsonRpcMessage;
use acp_core::scanner::ProjectScanner;

fn agent() -> AgentProcess {
    let id = uuid::Uuid::parse_str("12345678-1234-1234-1234-123456789012").unwrap();
    AgentProcess::new(id, "test-agent".to_string(), "/tmp".to_string())
}

fn msg(line: &str) -> JsonRpcMessage {
    decode_line(line).unwrap().unwrap()
}

fn ready_agent() -> AgentProcess {
    let mut a = agent();
    let _ = a.initialize_request();
    assert!(matches!(a.on_initialize_reply(&msg(r#"{"jsonrpc":"2.0","id":1,"result":{}}"#)), HandshakeStep::Done(_)));
    let _ = a.session_request();
    let got = a.on_session_reply(&msg(r#"{"jsonrpc":"2.0","id":2,"result":{"sessionId":"sess-1"}}"#)).unwrap();
    assert_eq!(got, Some("sess-1".to_string()));
    a
}

fn option(id: &str, kind: PermissionOptionKind) -> PermissionOption {
    PermissionOption { option_id: id.to_string(), name: id.to_string(), kind, description: None }
}

fn selected(r: &acp_core::messages::RequestPermissionResponse) -> Option<String> {
    match &r.outcome {
        PermissionOutcomeValue::Selected { option_id } => Some(option_id.clone()),
        PermissionOutcomeValue::Cancelled => None,
    }
}

#[test]
fn happy_path_prompt_returns_streamed_text() {
    let mut a = agent();
    let init = a.initialize_request();
    assert!(init.contains("\"method\":\"initialize\""));
    assert!(init.contains("\"id\":1"));
    assert!(init.contains("\"protocolVersion\":1"));
    assert!(matches!(a.on_initialize_reply(&msg(r#"{"jsonrpc":"2.0","method":"log","params":{}}"#)), HandshakeStep::Wait));
    assert!(matches!(a.on_initialize_reply(&msg(r#"{"jsonrpc":"2.0","id":1,"result":{}}"#)), HandshakeStep::Done(_)));
    assert_eq!(a.status, AgentStatus::Idle);

    let session = a.session_request();
    assert!(session.contains("\"method\":\"session/new\""));
    assert!(session.contains("\"cwd\":\"/tmp\""));
    let sid = a.on_session_reply(&msg(r#"{"jsonrpc":"2.0","id":2,"result":{"sessionId":"abc"}}"#)).unwrap().unwrap();
    assert!(!sid.is_empty());

    let mut text = String::new();
    let request = a.begin_prompt("hi").unwrap();
    assert!(request.contains("\"method\":\"session/prompt\""));
    assert!(request.contains("\"text\":\"hi\""));
    assert_eq!(a.status, AgentStatus::Working);
    let chunk = msg(r#"{"jsonrpc":"2.0","method":"session/update","params":{"sessionId":"abc","update":{"type":"agent_message_chunk","content":{"type":"text","text":"Hello"}}}}"#);
    match a.on_prompt_message(&chunk, &mut text) {
        PromptStep::Continue(updates) => assert_eq!(updates.len(), 1),
        _ => panic!("expected updates"),
    }
    match a.on_prompt_message(&msg(r#"{"jsonrpc":"2.0","id":3,"result":{"stopReason":"completed"}}"#), &mut text) {
        PromptStep::Finished(t) => assert_eq!(t, "Hello"),
        _ => panic!("expected the prompt to finish"),
    }
    assert_eq!(a.status, AgentStatus::Idle);
    assert_eq!(a.progress, 100);
}

#[test]
fn permission_request_selects_allow_then_reject() {
    let params = r#"{"sessionId":"sess-1","toolCall":{"toolCallId":"t1","title":"Write"},"options":[{"optionId":"a","name":"A","kind":"allow_once"},{"optionId":"b","name":"B","kind":"reject_once"}]}"#;
    for (approved, expected) in [(true, "a"), (false, "b")] {
        let mut a = ready_agent();
        let mut text = String::new();
        a.begin_prompt("do it").unwrap();
        let line = format!(r#"{{"jsonrpc":"2.0","id":5,"method":"session/request_permission","params":{}}}"#, params);
        match a.on_prompt_message(&msg(&line), &mut text) {
            PromptStep::AwaitDecision { request_id, input_id, request, update } => {
                assert_eq!(request_id, 5);
                assert_eq!(input_id, "perm_req_5");
                assert_eq!(update.update_type, "permission_request");
                assert_eq!(a.status, AgentStatus::Paused);
                assert!(a.has_pending_inputs());
                let decision = PermissionUserResponse { approved, option_id: None };
                let reply = a.resolve_permission(request_id, &input_id, &request, &decision);
                assert!(reply.contains("\"id\":5"));
                assert!(reply.contains(&format!("\"optionId\":\"{}\"", expected)));
                assert!(!a.has_pending_inputs());
                assert_eq!(a.status, AgentStatus::Idle);
            }
            _ => panic!("expected a permission request"),
        }
    }
}

#[test]
fn ambiguous_null_id_is_a_notification() {
    let mut a = ready_agent();
    let mut text = String::new();
    a.begin_prompt("x").unwrap();
    let m = msg(r#"{"jsonrpc":"2.0","id":null,"method":"session/update","params":{"sessionId":"s","update":{"type":"agent_message_chunk","content":{"type":"text","text":"ok"}}}}"#);
    assert!(m.is_notification());
    assert!(matches!(a.on_prompt_message(&m, &mut text), PromptStep::Continue(_)));
    assert_eq!(text, "ok");
}

#[test]
fn legacy_permission_fallback_raises_tool_permission() {
    let params: serde_json::Value = serde_json::from_str(
        r#"{"sessionId":"s","update":{"sessionUpdate":"tool_use_permission_requested","toolUseId":"L1","name":"Write"}}"#,
    )
    .unwrap();
    let result = process_session_update(uuid::Uuid::nil(), &params, None);
    assert_eq!(result.pending_inputs.len(), 1);
    assert_eq!(result.pending_inputs[0].input_type, PendingInputType::ToolPermission);
    assert_eq!(result.pending_inputs[0].id, "L1");
}

#[test]
fn unknown_request_gets_method_not_found() {
    let mut a = ready_agent();
    let mut text = String::new();
    a.begin_prompt("x").unwrap();
    match a.on_prompt_message(&msg(r#"{"jsonrpc":"2.0","id":8,"method":"fs/read_text_file","params":{}}"#), &mut text) {
        PromptStep::Reply(line) => {
            assert!(line.contains("\"code\":-32601"));
            assert!(line.contains("Method not found: fs/read_text_file"));
            assert!(line.contains("\"id\":8"));
        }
        _ => panic!("expected an error reply"),
    }
}

#[test]
fn malformed_permission_request_fails_the_prompt() {
    let mut a = ready_agent();
    let mut text = String::new();
    a.begin_prompt("x").unwrap();
    let step = a.on_prompt_message(&msg(r#"{"jsonrpc":"2.0","id":8,"method":"session/request_permission","params":{"bad":1}}"#), &mut text);
    assert!(matches!(step, PromptStep::Failed(AgentProcessError::CommunicationError(_))));
}

#[test]
fn error_response_fails_prompt_and_sets_error() {
    let mut a = ready_agent();
    let mut text = String::new();
    a.begin_prompt("x").unwrap();
    let step = a.on_prompt_message(&msg(r#"{"jsonrpc":"2.0","id":3,"error":{"code":-1,"message":"boom"}}"#), &mut text);
    match step {
        PromptStep::Failed(AgentProcessError::PromptFailed(m)) => assert_eq!(m, "boom"),
        _ => panic!("expected a failure"),
    }
    assert_eq!(a.status, AgentStatus::Error);
}

#[test]
fn prompt_without_session_is_refused() {
    let mut a = agent();
    assert!(matches!(a.begin_prompt("x"), Err(AgentProcessError::NoSession)));
}

#[test]
fn handshake_errors_are_reported() {
    let mut a = agent();
    let _ = a.initialize_request();
    match a.on_initialize_reply(&msg(r#"{"jsonrpc":"2.0","id":1,"error":{"code":1,"message":"no"}}"#)) {
        HandshakeStep::Failed(AgentProcessError::InitializeFailed(m)) => assert_eq!(m, "no"),
        _ => panic!("expected a failure"),
    }
    let mut b = agent();
    match b.on_session_reply(&msg(r#"{"jsonrpc":"2.0","id":2,"error":{"code":1,"message":"nope"}}"#)) {
        Err(AgentProcessError::SessionCreateFailed(m)) => assert_eq!(m, "nope"),
        _ => panic!("expected a failure"),
    }
    assert!(matches!(b.on_session_reply(&msg(r#"{"jsonrpc":"2.0","id":2,"result":{"x":1}}"#)), Err(AgentProcessError::CommunicationError(_))));
}

#[test]
fn selection_picks_offered_options() {
    let opts = vec![option("r", PermissionOptionKind::RejectAlways), option("a2", PermissionOptionKind::AllowAlways), option("a1", PermissionOptionKind::AllowOnce)];
    let approve = PermissionUserResponse { approved: true, option_id: None };
    assert_eq!(selected(&choose_permission_response(&opts, &approve)), Some("a2".to_string()));
    let named = PermissionUserResponse { approved: true, option_id: Some("a1".to_string()) };
    assert_eq!(selected(&choose_permission_response(&opts, &named)), Some("a1".to_string()));
    let stranger = PermissionUserResponse { approved: true, option_id: Some("zzz".to_string()) };
    assert_eq!(selected(&choose_permission_response(&opts, &stranger)), Some("a2".to_string()));
    let deny = PermissionUserResponse { approved: false, option_id: None };
    assert_eq!(selected(&choose_permission_response(&opts, &deny)), Some("r".to_string()));
    let only_allow = vec![option("a", PermissionOptionKind::AllowOnce)];
    assert_eq!(selected(&choose_permission_response(&only_allow, &deny)), None);
    let only_reject = vec![option("x", PermissionOptionKind::RejectOnce)];
    assert_eq!(selected(&choose_permission_response(&only_reject, &approve)), Some("x".to_string()));
    assert_eq!(selected(&choose_permission_response(&vec![], &approve)), None);
}

#[test]
fn clearing_pending_inputs_returns_to_idle() {
    let mut a = ready_agent();
    let p = |id: &str| PendingInput { id: id.to_string(), input_type: PendingInputType::Confirmation, tool_name: None, message: String::new(), timestamp: 0 };
    a.add_pending_input(p("one"));
    a.add_pending_input(p("two"));
    assert_eq!(a.status, AgentStatus::Paused);
    a.clear_pending_input("one");
    assert_eq!(a.pending_inputs.len(), 1);
    assert_eq!(a.status, AgentStatus::Paused);
    a.clear_pending_input("two");
    assert_eq!(a.status, AgentStatus::Idle);
    a.stop();
    assert_eq!(a.status, AgentStatus::Stopped);
}

#[test]
fn metrics_add_and_reset() {
    let mut m = MetricsTracker::new();
    m.add_tokens(10, 5);
    m.add_tokens(1, 2);
    m.add_cost(250);
    assert_eq!(m.total_input_tokens, 11);
    assert_eq!(m.total_output_tokens, 7);
    assert_eq!(m.total_tokens(), 18);
    assert_eq!(m.total_cost_cents, 250);
    m.add_tokens(u64::MAX, 0);
    assert_eq!(m.total_input_tokens, 10);
    m.reset();
    assert_eq!(m.total_input_tokens, 0);
    assert_eq!(m.total_cost_cents, 0);
}

#[test]
fn scanner_ignores_listed_names_and_extensions() {
    let s = ProjectScanner::new();
    assert!(s.should_ignore("node_modules"));
    assert!(!s.should_ignore("src"));
    let s = s.with_ignore_patterns(vec!["*.log".to_string(), "tmp".to_string()]).with_max_depth(3);
    assert_eq!(s.max_depth, 3);
    assert!(s.should_ignore("debug.log"));
    assert!(s.should_ignore("tmp"));
    assert!(!s.should_ignore("log"));
    assert!(!s.should_ignore("tmpx"));
}

#[test]
fn decision_keys_join_agent_and_input() {
    assert_eq!(acp_core::permission::permission_key("agent-1", "perm_req_4"), "agent-1:perm_req_4");
}

#[test]
fn handshake_ends_with_initialized_notification() {
    let mut a = agent();
    let _ = a.initialize_request();
    match a.on_initialize_reply(&msg(r#"{"jsonrpc":"2.0","id":1,"result":{}}"#)) {
        HandshakeStep::Done(line) => {
            assert_eq!(line, r#"{"jsonrpc":"2.0","method":"notifications/initialized"}"#);
        }
        _ => panic!("expected the handshake to finish"),
    }
    assert_eq!(a.status, AgentStatus::Idle);
}

#[test]
fn permission_request_without_params_fails_the_prompt() {
    let mut a = ready_agent();
    let mut text = String::new();
    a.begin_prompt("x").unwrap();
    let step = a.on_prompt_message(&msg(r#"{"jsonrpc":"2.0","id":8,"method":"session/request_permission"}"#), &mut text);
    assert!(matches!(step, PromptStep::Failed(AgentProcessError::CommunicationError(_))));
}

#[test]
fn pending_tool_call_update_reports_paused_state() {
    let mut a = ready_agent();
    let mut text = String::new();
    a.begin_prompt("x").unwrap();
    let m = msg(r#"{"jsonrpc":"2.0","method":"session/update","params":{"sessionId":"s","update":{"type":"tool_call","toolCallId":"tc-9","title":"Write","status":"pending"}}}"#);
    match a.on_prompt_message(&m, &mut text) {
        PromptStep::Continue(updates) => {
            assert_eq!(updates.len(), 2);
            assert_eq!(updates[0].update_type, "pending_input");
            assert_eq!(updates[0].status, Some(AgentStatus::Paused));
            let pending = updates[0].pending_inputs.as_ref().unwrap();
            assert_eq!(pending.len(), 1);
            assert_eq!(pending[0].id, "tc-9");
            assert_eq!(updates[1].update_type, "tool_call");
            assert_eq!(updates[1].status, None);
        }
        _ => panic!("expected updates"),
    }
    assert_eq!(a.status, AgentStatus::Paused);
    assert_eq!(text, "");
}

#[test]
fn permission_request_update_reports_paused_state() {
    let mut a = ready_agent();
    let mut text = String::new();
    a.begin_prompt("x").unwrap();
    let line = r#"{"jsonrpc":"2.0","id":3,"method":"session/request_permission","params":{"sessionId":"s","toolCall":{"toolCallId":"t"},"options":[]}}"#;
    match a.on_prompt_message(&msg(line), &mut text) {
        PromptStep::AwaitDecision { update, .. } => {
            assert_eq!(update.status, Some(AgentStatus::Paused));
            assert_eq!(update.pending_inputs.as_ref().unwrap()[0].id, "perm_req_3");
        }
        _ => panic!("expected a permission request"),
    }
}

#[test]
fn prompt_without_session_keeps_progress() {
    let mut a = agent();
    a.progress = 40;
    assert!(matches!(a.begin_prompt("x"), Err(AgentProcessError::NoSession)));
    assert_eq!(a.progress, 40);
    assert_eq!(a.status, AgentStatus::Initializing);
}

#[test]
fn legacy_non_chunk_text_is_not_accumulated() {
    let params: serde_json::Value = serde_json::from_str(
        r#"{"sessionId":"s","update":{"sessionUpdate":"tool_use_permission_requested","toolUseId":"L2","content":{"type":"text","text":"Allow?"}}}"#,
    )
    .unwrap();
    let result = process_session_update(uuid::Uuid::nil(), &params, None);
    assert_eq!(result.accumulated_text, "");
    assert_eq!(result.pending_inputs[0].message, "Allow?");
    let params: serde_json::Value = serde_json::from_str(
        r#"{"sessionId":"s","update":{"sessionUpdate":"agent_thought_chunk","content":{"type":"text","text":"hmm"}}}"#,
    )
    .unwrap();
    assert_eq!(process_session_update(uuid::Uuid::nil(), &params, None).accumulated_text, "hmm");
}
