//! The update interpreter: turns a decoded `session/update` payload, or a
//! permission request, into the updates reported to the host, the pending
//! inputs it raises, the text it streams and the file it points at.
use vstd::prelude::*;
use crate::json::{
    JsonModel, json_model, member, as_text, text_member, text_view, value_view, get_member, value_text,
    value_items, required_text,
};
use crate::messages::{
    SessionUpdate, SessionUpdateNotification, LegacySessionUpdate, LegacySessionUpdateNotification,
    PlanEntry, Command, RequestPermissionRequest, ToolCallStatus, text_is,
};
use crate::process::{
    AgentUpdate, PendingInput, PendingInputType, ToolUpdate, PermissionUserResponse, copy_optional,
    copy_optional_text, fresh_input_id, unix_now_secs, text_contains, has_substring,
};
use crate::protocol::JsonRpcResponse;
use crate::permission::{choose_permission_response, chosen_outcome, outcome_view};

verus! {

/// Result of processing a session update
pub struct ProcessingResult {
    /// Updates to send to the host
    pub updates: Vec<AgentUpdate>,
    /// Pending inputs detected (need user action)
    pub pending_inputs: Vec<PendingInput>,
    /// Text to accumulate from message chunks
    pub accumulated_text: String,
    /// Current file being worked on, kept from before when not updated
    pub current_file: Option<String>,
}

/// Result of processing a permission request
pub struct PermissionProcessingResult {
    /// Update to send to the host
    pub update: AgentUpdate,
    /// Pending input to track
    pub pending_input: PendingInput,
    /// Response to send back to the agent
    pub response: JsonRpcResponse,
}

// ---------------------------------------------------------------------------
// File hints
// ---------------------------------------------------------------------------

/// The file a tool input names: its `file_path` member when present, else its
/// `path` member; either counts only when it is a string.
pub open spec fn file_hint_in(m: JsonModel) -> Option<Seq<char>> {
    match member(m, "file_path"@) {
        Some(f) => as_text(f),
        None => match member(m, "path"@) {
            Some(p) => as_text(p),
            None => None,
        },
    }
}

/// A new hint replaces the current one; no hint keeps it.
pub open spec fn or_keep(hint: Option<Seq<char>>, current: Option<Seq<char>>) -> Option<Seq<char>> {
    match hint {
        Some(h) => Some(h),
        None => current,
    }
}

/// Extract file path from tool input JSON
pub fn extract_file_path(input: &serde_json::Value) -> (r: Option<String>)
    ensures
        text_view(r) == file_hint_in(json_model(*input)),
{
    match get_member(input, "file_path") {
        Some(f) => value_text(f),
        None => match get_member(input, "path") {
            Some(p) => value_text(p),
            None => None,
        },
    }
}

/// When a tool input has both, `file_path` wins over `path`.
pub proof fn lemma_file_path_preferred(m: JsonModel)
    requires
        text_member(m, "file_path"@) is Some,
        member(m, "path"@) is Some,
    ensures
        file_hint_in(m) == text_member(m, "file_path"@),
{
}

// ---------------------------------------------------------------------------
// Typed updates
// ---------------------------------------------------------------------------

/// The file a typed update points at: a tool call's first location, or,
/// without locations, its raw input; a tool-call update's first location.
pub open spec fn typed_hint(u: SessionUpdate) -> Option<Seq<char>> {
    match u {
        SessionUpdate::ToolCall(tc) => match tc.locations {
            Some(ls) => if ls@.len() > 0 {
                Some(ls@[0].path@)
            } else {
                None
            },
            None => match tc.raw_input {
                Some(ri) => file_hint_in(json_model(ri)),
                None => None,
            },
        },
        SessionUpdate::ToolCallUpdate(tcu) => match tcu.locations {
            Some(ls) => if ls@.len() > 0 {
                Some(ls@[0].path@)
            } else {
                None
            },
            None => None,
        },
        _ => None,
    }
}

pub open spec fn join(parts: Seq<Seq<char>>, sep: Seq<char>) -> Seq<char>
    decreases parts.len(),
{
    if parts.len() == 0 {
        Seq::empty()
    } else if parts.len() == 1 {
        parts[0]
    } else {
        join(parts.drop_last(), sep) + sep + parts.last()
    }
}

pub open spec fn plan_parts(es: Seq<PlanEntry>) -> Seq<Seq<char>> {
    es.map_values(|e: PlanEntry| e.title@ + ": "@ + e.status.label_spec())
}

pub open spec fn command_names(cs: Seq<Command>) -> Seq<Seq<char>> {
    cs.map_values(|c: Command| c.name@)
}

pub open spec fn title_or_empty(t: Option<String>) -> Seq<char> {
    match t {
        Some(x) => x@,
        None => Seq::empty(),
    }
}

/// The message of the update that stands for a typed payload.
pub open spec fn typed_message(u: SessionUpdate) -> Option<Seq<char>> {
    match u {
        SessionUpdate::AgentMessageChunk(c) => Some(c.content.text_spec()),
        SessionUpdate::AgentThoughtChunk(c) => Some(c.content.text_spec()),
        SessionUpdate::ToolCall(tc) => Some(tc.title@),
        SessionUpdate::ToolCallUpdate(tcu) => text_view(tcu.title),
        SessionUpdate::Plan(p) => Some(join(plan_parts(p.entries@), ", "@)),
        SessionUpdate::CurrentModeUpdate(m) => Some("Mode: "@ + m.mode@),
        SessionUpdate::AvailableCommandsUpdate(c) => Some("Commands: "@ + join(command_names(c.commands@), ", "@)),
        SessionUpdate::UserMessageChunk(_) => None,
    }
}

/// The tool part of that update.
pub open spec fn typed_tool_ok(t: Option<ToolUpdate>, u: SessionUpdate) -> bool {
    match u {
        SessionUpdate::ToolCall(tc) => t matches Some(x) && x.name@ == tc.title@ && value_view(x.input) == value_view(
            tc.raw_input,
        ),
        SessionUpdate::ToolCallUpdate(tcu) => t matches Some(x) && x.name@ == title_or_empty(tcu.title) && x.input is None,
        _ => t is None,
    }
}

/// The update that stands for a typed payload.
pub open spec fn is_typed_update(a: AgentUpdate, agent_id: uuid::Uuid, u: SessionUpdate, file: Option<Seq<char>>) -> bool {
    &&& a.agent_id == agent_id
    &&& a.update_type@ == u.kind_name()
    &&& text_view(a.message) == typed_message(u)
    &&& typed_tool_ok(a.tool, u)
    &&& a.progress is None
    &&& text_view(a.current_file) == file
    &&& a.status is None
    &&& a.pending_inputs is None
}

/// The pending input, and the `pending_input` update, raised by a tool call
/// or tool-call update whose status is `Pending`.
pub open spec fn is_pending_tool_call(
    a: AgentUpdate,
    p: PendingInput,
    agent_id: uuid::Uuid,
    u: SessionUpdate,
    file: Option<Seq<char>>,
) -> bool {
    let id = match u {
        SessionUpdate::ToolCall(tc) => tc.tool_call_id@,
        SessionUpdate::ToolCallUpdate(tcu) => tcu.tool_call_id@,
        _ => Seq::empty(),
    };
    let title = match u {
        SessionUpdate::ToolCall(tc) => tc.title@,
        SessionUpdate::ToolCallUpdate(tcu) => title_or_empty(tcu.title),
        _ => Seq::empty(),
    };
    let input = match u {
        SessionUpdate::ToolCall(tc) => value_view(tc.raw_input),
        _ => None,
    };
    &&& p.id@ == id
    &&& p.input_type == PendingInputType::ToolPermission
    &&& text_view(p.tool_name) == Some(title)
    &&& p.message@ == "Agent wants to: "@ + title
    &&& a.agent_id == agent_id
    &&& a.update_type@ == "pending_input"@
    &&& text_view(a.message) == Some(p.message@)
    &&& a.tool matches Some(t) && t.name@ == title && value_view(t.input) == input
    &&& a.progress is None
    &&& text_view(a.current_file) == file
    &&& a.status is None
    &&& a.pending_inputs is None
}

/// What interpreting a typed update gives, with `file` the hint before it.
pub open spec fn typed_outcome(r: ProcessingResult, agent_id: uuid::Uuid, u: SessionUpdate, file: Option<Seq<char>>) -> bool {
    let after = or_keep(typed_hint(u), file);
    &&& text_view(r.current_file) == after
    &&& r.accumulated_text@ == match u.text_spec() {
        Some(t) => t,
        None => Seq::empty(),
    }
    &&& if u.needs_input_spec() {
        &&& r.updates@.len() == 2
        &&& r.pending_inputs@.len() == 1
        &&& is_pending_tool_call(r.updates@[0], r.pending_inputs@[0], agent_id, u, file)
        &&& is_typed_update(r.updates@[1], agent_id, u, after)
    } else {
        &&& r.updates@.len() == 1
        &&& r.pending_inputs@.len() == 0
        &&& is_typed_update(r.updates@[0], agent_id, u, after)
    }
}

/// A tool call or tool-call update whose status is `Pending` yields exactly
/// one pending input and exactly two updates: the `pending_input` update,
/// then the update for the tool call itself.
pub proof fn lemma_pending_tool_call(r: ProcessingResult, agent_id: uuid::Uuid, u: SessionUpdate, file: Option<Seq<char>>)
    requires
        typed_outcome(r, agent_id, u, file),
        u.needs_input_spec(),
    ensures
        r.pending_inputs@.len() == 1,
        r.pending_inputs@[0].input_type == PendingInputType::ToolPermission,
        r.updates@.len() == 2,
        r.updates@[0].update_type@ == "pending_input"@,
        r.updates@[1].update_type@ == u.kind_name(),
        u is ToolCall || u is ToolCallUpdate,
{
}

/// A tool call or tool-call update whose status is in progress, completed or
/// failed yields no pending input.
pub proof fn lemma_settled_tool_call(r: ProcessingResult, agent_id: uuid::Uuid, u: SessionUpdate, file: Option<Seq<char>>)
    requires
        typed_outcome(r, agent_id, u, file),
        match u {
            SessionUpdate::ToolCall(tc) => tc.status != ToolCallStatus::Pending,
            SessionUpdate::ToolCallUpdate(tcu) => tcu.status is Some && tcu.status != Some(ToolCallStatus::Pending),
            _ => false,
        },
    ensures
        r.pending_inputs@.len() == 0,
        r.updates@.len() == 1,
{
}

proof fn lemma_join_push(parts: Seq<Seq<char>>, x: Seq<char>, sep: Seq<char>)
    ensures
        join(parts.push(x), sep) == if parts.len() == 0 {
            x
        } else {
            join(parts, sep) + sep + x
        },
{
    assert(parts.push(x).drop_last() =~= parts);
}

fn plan_summary(entries: &Vec<PlanEntry>) -> (r: String)
    ensures
        r@ == join(plan_parts(entries@), ", "@),
{
    let mut out = String::new();
    let mut i: usize = 0;
    while i < entries.len()
        invariant
            i <= entries@.len(),
            out@ == join(plan_parts(entries@.subrange(0, i as int)), ", "@),
        decreases entries@.len() - i,
    {
        let ghost prev = entries@.subrange(0, i as int);
        if i > 0 {
            out.append(", ");
        }
        out.append(entries[i].title.as_str());
        out.append(": ");
        out.append(entries[i].status.label());
        proof {
            let e = entries@[i as int];
            assert(entries@.subrange(0, i + 1) =~= prev.push(e));
            assert(plan_parts(prev.push(e)) =~= plan_parts(prev).push(e.title@ + ": "@ + e.status.label_spec()));
            lemma_join_push(plan_parts(prev), e.title@ + ": "@ + e.status.label_spec(), ", "@);
            assert(out@ =~= join(plan_parts(entries@.subrange(0, i + 1)), ", "@));
        }
        i = i + 1;
    }
    proof {
        assert(entries@.subrange(0, entries@.len() as int) =~= entries@);
    }
    out
}

fn command_list(commands: &Vec<Command>) -> (r: String)
    ensures
        r@ == join(command_names(commands@), ", "@),
{
    let mut out = String::new();
    let mut i: usize = 0;
    while i < commands.len()
        invariant
            i <= commands@.len(),
            out@ == join(command_names(commands@.subrange(0, i as int)), ", "@),
        decreases commands@.len() - i,
    {
        let ghost prev = commands@.subrange(0, i as int);
        if i > 0 {
            out.append(", ");
        }
        out.append(commands[i].name.as_str());
        proof {
            let c = commands@[i as int];
            assert(commands@.subrange(0, i + 1) =~= prev.push(c));
            assert(command_names(prev.push(c)) =~= command_names(prev).push(c.name@));
            lemma_join_push(command_names(prev), c.name@, ", "@);
            assert(out@ =~= join(command_names(commands@.subrange(0, i + 1)), ", "@));
        }
        i = i + 1;
    }
    proof {
        assert(commands@.subrange(0, commands@.len() as int) =~= commands@);
    }
    out
}

fn prefixed(prefix: &str, s: &str) -> (r: String)
    ensures
        r@ == prefix@ + s@,
{
    let mut out = String::from_str(prefix);
    out.append(s);
    out
}

/// Create pending input and update for a tool call needing approval
fn create_pending_tool_call(agent_id: uuid::Uuid, update: &SessionUpdate, current_file: &Option<String>) -> (r: Option<(PendingInput, AgentUpdate)>)
    ensures
        update.needs_input_spec() ==> (r matches Some((p, a)) && is_pending_tool_call(a, p, agent_id, *update, text_view(*current_file))),
        !update.needs_input_spec() ==> r is None,
{
    let (tool_call_id, title, raw_input) = match update {
        SessionUpdate::ToolCall(tc) => {
            if tc.status != ToolCallStatus::Pending {
                return None;
            }
            (tc.tool_call_id.clone(), tc.title.clone(), copy_optional(&tc.raw_input))
        },
        SessionUpdate::ToolCallUpdate(tcu) => {
            match tcu.status {
                Some(ToolCallStatus::Pending) => {},
                _ => { return None; },
            }
            let title = match &tcu.title {
                Some(t) => t.clone(),
                None => String::new(),
            };
            (tcu.tool_call_id.clone(), title, None)
        },
        _ => { return None; },
    };
    let timestamp = unix_now_secs();
    let message = prefixed("Agent wants to: ", title.as_str());
    let pending_input = PendingInput {
        id: tool_call_id,
        input_type: PendingInputType::ToolPermission,
        tool_name: Some(title.clone()),
        message: message.clone(),
        timestamp,
    };
    let agent_update = AgentUpdate {
        agent_id,
        update_type: String::from_str("pending_input"),
        message: Some(message),
        tool: Some(ToolUpdate { name: title, input: raw_input }),
        progress: None,
        current_file: copy_optional_text(current_file),
        status: None,
        pending_inputs: None,
    };
    Some((pending_input, agent_update))
}

fn first_location_path(locations: &Option<Vec<crate::messages::FileLocation>>) -> (r: Option<String>)
    ensures
        match *locations {
            Some(ls) => text_view(r) == if ls@.len() > 0 {
                Some(ls@[0].path@)
            } else {
                None
            },
            None => r is None,
        },
{
    match locations {
        Some(ls) => {
            if ls.len() > 0 {
                Some(ls[0].path.clone())
            } else {
                None
            }
        },
        None => None,
    }
}

/// Process a typed session update
pub fn process_typed_session_update(agent_id: uuid::Uuid, update: &SessionUpdate, current_file: Option<String>) -> (r: ProcessingResult)
    ensures
        typed_outcome(r, agent_id, *update, text_view(current_file)),
{
    let mut updates: Vec<AgentUpdate> = Vec::new();
    let mut pending_inputs: Vec<PendingInput> = Vec::new();
    if update.needs_user_input() {
        match create_pending_tool_call(agent_id, update, &current_file) {
            Some((p, a)) => {
                pending_inputs.push(p);
                updates.push(a);
            },
            None => {},
        }
    }
    let accumulated_text = match update.get_text() {
        Some(t) => t.clone(),
        None => String::new(),
    };
    let hint: Option<String> = match update {
        SessionUpdate::ToolCall(tc) => match &tc.locations {
            Some(_) => first_location_path(&tc.locations),
            None => match &tc.raw_input {
                Some(ri) => extract_file_path(ri),
                None => None,
            },
        },
        SessionUpdate::ToolCallUpdate(tcu) => first_location_path(&tcu.locations),
        _ => None,
    };
    let file = match hint {
        Some(h) => Some(h),
        None => current_file,
    };
    let (message, tool): (Option<String>, Option<ToolUpdate>) = match update {
        SessionUpdate::AgentMessageChunk(chunk) => (Some(chunk.content.get_text().unwrap().clone()), None),
        SessionUpdate::AgentThoughtChunk(chunk) => (Some(chunk.content.get_text().unwrap().clone()), None),
        SessionUpdate::ToolCall(tc) => (
            Some(tc.title.clone()),
            Some(ToolUpdate { name: tc.title.clone(), input: copy_optional(&tc.raw_input) }),
        ),
        SessionUpdate::ToolCallUpdate(tcu) => {
            let name = match &tcu.title {
                Some(t) => t.clone(),
                None => String::new(),
            };
            (copy_optional_text(&tcu.title), Some(ToolUpdate { name, input: None }))
        },
        SessionUpdate::Plan(plan) => (Some(plan_summary(&plan.entries)), None),
        SessionUpdate::CurrentModeUpdate(mode) => (Some(prefixed("Mode: ", mode.mode.as_str())), None),
        SessionUpdate::AvailableCommandsUpdate(cmds) => {
            let list = command_list(&cmds.commands);
            (Some(prefixed("Commands: ", list.as_str())), None)
        },
        SessionUpdate::UserMessageChunk(_) => (None, None),
    };
    updates.push(
        AgentUpdate {
            agent_id,
            update_type: String::from_str(update.update_type()),
            message,
            tool,
            progress: None,
            current_file: copy_optional_text(&file),
            status: None,
            pending_inputs: None,
        },
    );
    ProcessingResult { updates, pending_inputs, accumulated_text, current_file: file }
}

// ---------------------------------------------------------------------------
// Legacy updates
// ---------------------------------------------------------------------------

/// A legacy discriminator that asks for a decision.
pub open spec fn legacy_needs_input(t: Seq<char>) -> bool {
    has_substring(t, "permission"@) || has_substring(t, "input_request"@) || has_substring(t, "confirmation"@)
        || t == "waiting_for_user"@
}

/// The kind of decision, by which word matched: permission, then
/// confirmation, then a generic question.
pub open spec fn legacy_input_type(t: Seq<char>) -> PendingInputType {
    if has_substring(t, "permission"@) {
        PendingInputType::ToolPermission
    } else if has_substring(t, "confirmation"@) {
        PendingInputType::Confirmation
    } else {
        PendingInputType::UserQuestion
    }
}

pub open spec fn legacy_text(u: LegacySessionUpdate) -> Option<Seq<char>> {
    match u.content {
        Some(c) => text_view(c.text),
        None => None,
    }
}

/// The message of a legacy decision: the update's text, else a sentence
/// naming the tool.
pub open spec fn legacy_prompt(u: LegacySessionUpdate) -> Seq<char> {
    match legacy_text(u) {
        Some(t) => t,
        None => "Agent needs permission to use: "@ + match text_view(u.name) {
            Some(n) => n,
            None => "unknown tool"@,
        },
    }
}

pub open spec fn legacy_hint(u: LegacySessionUpdate) -> Option<Seq<char>> {
    match u.input {
        Some(i) => file_hint_in(json_model(i)),
        None => None,
    }
}

pub open spec fn legacy_tool_ok(t: Option<ToolUpdate>, u: LegacySessionUpdate) -> bool {
    match u.name {
        Some(n) => t matches Some(x) && x.name@ == n@ && value_view(x.input) == value_view(u.input),
        None => t is None,
    }
}

/// A legacy discriminator naming a chunk of streamed text: only those add to
/// the prompt's text.
pub open spec fn legacy_is_chunk(t: Seq<char>) -> bool {
    t == "agent_message_chunk"@ || t == "agent_thought_chunk"@ || t == "user_message_chunk"@
}

/// What interpreting a legacy update gives, with `file` the hint before it.
pub open spec fn legacy_outcome(r: ProcessingResult, agent_id: uuid::Uuid, u: LegacySessionUpdate, file: Option<Seq<char>>) -> bool {
    let after = or_keep(legacy_hint(u), file);
    let n = r.updates@.len();
    &&& text_view(r.current_file) == after
    &&& r.accumulated_text@ == if legacy_is_chunk(u.session_update@) {
        match legacy_text(u) {
            Some(t) => t,
            None => Seq::empty(),
        }
    } else {
        Seq::empty()
    }
    &&& n >= 1
    &&& r.updates@[n - 1].agent_id == agent_id
    &&& r.updates@[n - 1].update_type@ == u.session_update@
    &&& text_view(r.updates@[n - 1].message) == legacy_text(u)
    &&& legacy_tool_ok(r.updates@[n - 1].tool, u)
    &&& r.updates@[n - 1].progress is None
    &&& text_view(r.updates@[n - 1].current_file) == after
    &&& r.updates@[n - 1].status is None
    &&& r.updates@[n - 1].pending_inputs is None
    &&& if legacy_needs_input(u.session_update@) {
        let p = r.pending_inputs@[0];
        let a = r.updates@[0];
        &&& n == 2
        &&& r.pending_inputs@.len() == 1
        &&& (u.tool_use_id matches Some(id) ==> p.id@ == id@)
        &&& p.input_type == legacy_input_type(u.session_update@)
        &&& text_view(p.tool_name) == text_view(u.name)
        &&& p.message@ == legacy_prompt(u)
        &&& a.agent_id == agent_id
        &&& a.update_type@ == "pending_input"@
        &&& text_view(a.message) == Some(legacy_prompt(u))
        &&& legacy_tool_ok(a.tool, u)
        &&& a.progress is None
        &&& text_view(a.current_file) == file
        &&& a.status is None
        &&& a.pending_inputs is None
    } else {
        n == 1 && r.pending_inputs@.len() == 0
    }
}

fn legacy_tool(update: &LegacySessionUpdate) -> (r: Option<ToolUpdate>)
    ensures
        legacy_tool_ok(r, *update),
{
    match &update.name {
        Some(name) => Some(ToolUpdate { name: name.clone(), input: copy_optional(&update.input) }),
        None => None,
    }
}

fn legacy_message(update: &LegacySessionUpdate) -> (r: Option<String>)
    ensures
        text_view(r) == legacy_text(*update),
{
    match &update.content {
        Some(c) => copy_optional_text(&c.text),
        None => None,
    }
}

/// Process a legacy string-based session update
pub fn process_legacy_session_update(
    agent_id: uuid::Uuid,
    notification: &LegacySessionUpdateNotification,
    current_file: Option<String>,
) -> (r: ProcessingResult)
    ensures
        legacy_outcome(r, agent_id, notification.update, text_view(current_file)),
{
    let update = &notification.update;
    let update_type = update.session_update.as_str();
    let mut updates: Vec<AgentUpdate> = Vec::new();
    let mut pending_inputs: Vec<PendingInput> = Vec::new();
    let mentions_permission = text_contains(update_type, "permission");
    let mentions_confirmation = text_contains(update_type, "confirmation");
    let is_input_request = mentions_permission || text_contains(update_type, "input_request")
        || mentions_confirmation || text_is(&update.session_update, "waiting_for_user");
    if is_input_request {
        let timestamp = unix_now_secs();
        let input_type = if mentions_permission {
            PendingInputType::ToolPermission
        } else if mentions_confirmation {
            PendingInputType::Confirmation
        } else {
            PendingInputType::UserQuestion
        };
        let message = match legacy_message(update) {
            Some(t) => t,
            None => {
                let tool = match &update.name {
                    Some(n) => n.clone(),
                    None => String::from_str("unknown tool"),
                };
                prefixed("Agent needs permission to use: ", tool.as_str())
            },
        };
        let id = match &update.tool_use_id {
            Some(id) => id.clone(),
            None => fresh_input_id(),
        };
        pending_inputs.push(
            PendingInput {
                id,
                input_type,
                tool_name: copy_optional_text(&update.name),
                message: message.clone(),
                timestamp,
            },
        );
        updates.push(
            AgentUpdate {
                agent_id,
                update_type: String::from_str("pending_input"),
                message: Some(message),
                tool: legacy_tool(update),
                progress: None,
                current_file: copy_optional_text(&current_file),
                status: None,
                pending_inputs: None,
            },
        );
    }
    let hint = match &update.input {
        Some(input) => extract_file_path(input),
        None => None,
    };
    let file = match hint {
        Some(h) => Some(h),
        None => current_file,
    };
    let is_chunk = text_is(&update.session_update, "agent_message_chunk") || text_is(
        &update.session_update,
        "agent_thought_chunk",
    ) || text_is(&update.session_update, "user_message_chunk");
    let accumulated_text = if is_chunk {
        match legacy_message(update) {
            Some(t) => t,
            None => String::new(),
        }
    } else {
        String::new()
    };
    updates.push(
        AgentUpdate {
            agent_id,
            update_type: update.session_update.clone(),
            message: legacy_message(update),
            tool: legacy_tool(update),
            progress: None,
            current_file: copy_optional_text(&file),
            status: None,
            pending_inputs: None,
        },
    );
    ProcessingResult { updates, pending_inputs, accumulated_text, current_file: file }
}

// ---------------------------------------------------------------------------
// Payloads that fit neither dialect
// ---------------------------------------------------------------------------

/// The path of the first entry of a raw `locations` array.
pub open spec fn raw_location_hint(u: JsonModel) -> Option<Seq<char>> {
    match member(u, "locations"@) {
        Some(JsonModel::Array(items)) => if items.len() > 0 {
            text_member(items[0], "path"@)
        } else {
            None
        },
        _ => None,
    }
}

/// The hint scraped from a raw update: its first location, else (when no file
/// is known yet) its raw input.
pub open spec fn raw_hint(u: JsonModel, file: Option<Seq<char>>) -> Option<Seq<char>> {
    let first = or_keep(raw_location_hint(u), file);
    if first is Some {
        first
    } else {
        match member(u, "rawInput"@) {
            Some(ri) => file_hint_in(ri),
            None => None,
        }
    }
}

/// What is left of a payload that fits neither dialect: nothing without an
/// `update` member; otherwise one plain update carrying its discriminator and
/// title, and the file hints that can be scraped from it.
pub open spec fn raw_outcome(r: ProcessingResult, agent_id: uuid::Uuid, params: JsonModel, file: Option<Seq<char>>) -> bool {
    &&& r.pending_inputs@.len() == 0
    &&& r.accumulated_text@ == Seq::<char>::empty()
    &&& match member(params, "update"@) {
        None => r.updates@.len() == 0 && text_view(r.current_file) == file,
        Some(u) => {
            let after = raw_hint(u, file);
            let a = r.updates@[0];
            &&& r.updates@.len() == 1
            &&& text_view(r.current_file) == after
            &&& a.agent_id == agent_id
            &&& a.update_type@ == match text_member(u, "sessionUpdate"@) {
                Some(t) => t,
                None => "unknown"@,
            }
            &&& text_view(a.message) == text_member(u, "title"@)
            &&& (match text_member(u, "title"@) {
                Some(t) => a.tool matches Some(x) && x.name@ == t && x.input is None,
                None => a.tool is None,
            })
            &&& a.progress is None
            &&& text_view(a.current_file) == after
            &&& a.status is None
            &&& a.pending_inputs is None
        },
    }
}

fn raw_location_path(u: &serde_json::Value) -> (r: Option<String>)
    ensures
        text_view(r) == raw_location_hint(json_model(*u)),
{
    match get_member(u, "locations") {
        Some(l) => match value_items(l) {
            Some(items) => {
                if items.len() > 0 {
                    required_text(&items[0], "path")
                } else {
                    None
                }
            },
            None => None,
        },
        None => None,
    }
}

fn process_raw_update(agent_id: uuid::Uuid, params: &serde_json::Value, current_file: Option<String>) -> (r: ProcessingResult)
    ensures
        raw_outcome(r, agent_id, json_model(*params), text_view(current_file)),
{
    let u = match get_member(params, "update") {
        Some(u) => u,
        None => {
            return ProcessingResult {
                updates: Vec::new(),
                pending_inputs: Vec::new(),
                accumulated_text: String::new(),
                current_file,
            };
        },
    };
    let mut file = match raw_location_path(u) {
        Some(p) => Some(p),
        None => current_file,
    };
    if file.is_none() {
        file = match get_member(u, "rawInput") {
            Some(ri) => extract_file_path(ri),
            None => None,
        };
    }
    let update_type = match required_text(u, "sessionUpdate") {
        Some(t) => t,
        None => String::from_str("unknown"),
    };
    let title = required_text(u, "title");
    let tool = match &title {
        Some(t) => Some(ToolUpdate { name: t.clone(), input: None }),
        None => None,
    };
    let mut updates: Vec<AgentUpdate> = Vec::new();
    updates.push(
        AgentUpdate {
            agent_id,
            update_type,
            message: title,
            tool,
            progress: None,
            current_file: copy_optional_text(&file),
            status: None,
            pending_inputs: None,
        },
    );
    ProcessingResult { updates, pending_inputs: Vec::new(), accumulated_text: String::new(), current_file: file }
}

/// What interpreting a `session/update` payload gives: the typed dialect
/// when it fits, else the legacy one, else what can be scraped.
pub open spec fn update_outcome(r: ProcessingResult, agent_id: uuid::Uuid, params: JsonModel, file: Option<Seq<char>>) -> bool {
    if SessionUpdateNotification::ok(params) {
        exists|n: SessionUpdateNotification| #[trigger] n.read_from(params) && typed_outcome(r, agent_id, n.update, file)
    } else if LegacySessionUpdateNotification::ok(params) {
        exists|n: LegacySessionUpdateNotification| #[trigger] n.read_from(params) && legacy_outcome(
            r,
            agent_id,
            n.update,
            file,
        )
    } else {
        raw_outcome(r, agent_id, params, file)
    }
}

/// Process a `session/update` notification's params.
pub fn process_session_update(agent_id: uuid::Uuid, params: &serde_json::Value, current_file: Option<String>) -> (r: ProcessingResult)
    ensures
        update_outcome(r, agent_id, json_model(*params), text_view(current_file)),
{
    match SessionUpdateNotification::from_value(params) {
        Some(n) => {
            return process_typed_session_update(agent_id, &n.update, current_file);
        },
        None => {},
    }
    match LegacySessionUpdateNotification::from_value(params) {
        Some(n) => {
            return process_legacy_session_update(agent_id, &n, current_file);
        },
        None => {},
    }
    process_raw_update(agent_id, params, current_file)
}

/// An update that names no file leaves the current file as it was.
pub proof fn lemma_hint_kept(r: ProcessingResult, agent_id: uuid::Uuid, params: JsonModel, file: Option<Seq<char>>)
    requires
        update_outcome(r, agent_id, params, file),
        SessionUpdateNotification::ok(params) ==> forall|n: SessionUpdateNotification| #[trigger] n.read_from(params)
            ==> typed_hint(n.update) is None,
        !SessionUpdateNotification::ok(params) && LegacySessionUpdateNotification::ok(params) ==> forall|
            n: LegacySessionUpdateNotification,
        | #[trigger] n.read_from(params) ==> legacy_hint(n.update) is None,
        !SessionUpdateNotification::ok(params) && !LegacySessionUpdateNotification::ok(params) ==> (
        member(params, "update"@) matches Some(u) ==> raw_location_hint(u) is None),
        file is Some,
    ensures
        text_view(r.current_file) == file,
{
}

// ---------------------------------------------------------------------------
// Permission requests
// ---------------------------------------------------------------------------

pub open spec fn digit_char(d: nat) -> char {
    seq!['0', '1', '2', '3', '4', '5', '6', '7', '8', '9'][d as int]
}

/// The decimal digits of a natural number.
pub open spec fn digits(n: nat) -> Seq<char>
    decreases n,
{
    if n < 10 {
        seq![digit_char(n)]
    } else {
        digits(n / 10).push(digit_char(n % 10))
    }
}

/// The decimal text of an integer, with a leading `-` when negative.
pub open spec fn decimal(n: int) -> Seq<char> {
    if n < 0 {
        seq!['-'] + digits((-n) as nat)
    } else {
        digits(n as nat)
    }
}

fn digit_text(d: u64) -> (r: &'static str)
    requires
        d < 10,
    ensures
        r@ == seq![digit_char(d as nat)],
{
    proof {
        reveal_strlit("0");
        reveal_strlit("1");
        reveal_strlit("2");
        reveal_strlit("3");
        reveal_strlit("4");
        reveal_strlit("5");
        reveal_strlit("6");
        reveal_strlit("7");
        reveal_strlit("8");
        reveal_strlit("9");
    }
    let r = if d == 0 { "0" } else if d == 1 { "1" } else if d == 2 { "2" } else if d == 3 { "3" } else if d == 4 {
        "4"
    } else if d == 5 { "5" } else if d == 6 { "6" } else if d == 7 { "7" } else if d == 8 { "8" } else { "9" };
    assert(r@ =~= seq![digit_char(d as nat)]);
    r
}

fn append_digits(out: &mut String, n: u64)
    ensures
        final(out)@ == old(out)@ + digits(n as nat),
    decreases n,
{
    if n < 10 {
        out.append(digit_text(n));
    } else {
        append_digits(out, n / 10);
        out.append(digit_text(n % 10));
        proof {
            assert(old(out)@ + digits((n / 10) as nat) + seq![digit_char((n % 10) as nat)] =~= old(out)@ + digits(n as nat));
        }
    }
}

/// The decimal text of an `i64`.
pub fn decimal_text(n: i64) -> (r: String)
    ensures
        r@ == decimal(n as int),
{
    let mut out = String::new();
    if n < 0 {
        out.append("-");
        let magnitude: u64 = if n == i64::MIN {
            9223372036854775808u64
        } else {
            (-n) as u64
        };
        append_digits(&mut out, magnitude);
        proof {
            reveal_strlit("-");
        }
    } else {
        append_digits(&mut out, n as u64);
    }
    proof {
        assert(out@ =~= decimal(n as int));
    }
    out
}

pub open spec fn request_title(req: RequestPermissionRequest) -> Seq<char> {
    match req.tool_call.title {
        Some(t) => t@,
        None => "unknown tool"@,
    }
}

/// The pending input and the `permission_request` update that a permission
/// request raises.
pub open spec fn is_permission_input(
    a: AgentUpdate,
    p: PendingInput,
    agent_id: uuid::Uuid,
    request_id: i64,
    req: RequestPermissionRequest,
    file: Option<Seq<char>>,
) -> bool {
    &&& p.id@ == "perm_req_"@ + decimal(request_id as int)
    &&& p.input_type == PendingInputType::ToolPermission
    &&& text_view(p.tool_name) == text_view(req.tool_call.title)
    &&& p.message@ == "Permission requested: "@ + request_title(req)
    &&& a.agent_id == agent_id
    &&& a.update_type@ == "permission_request"@
    &&& text_view(a.message) == Some(p.message@)
    &&& (match req.tool_call.title {
        Some(t) => a.tool matches Some(x) && x.name@ == t@ && x.input is None,
        None => a.tool is None,
    })
    &&& a.progress is None
    &&& text_view(a.current_file) == file
}

/// The pending input and update for a decoded permission request.
pub fn permission_input(
    agent_id: uuid::Uuid,
    request_id: i64,
    request: &RequestPermissionRequest,
    current_file: Option<String>,
) -> (r: (PendingInput, AgentUpdate))
    ensures
        is_permission_input(r.1, r.0, agent_id, request_id, *request, text_view(current_file)),
        r.1.status is None,
        r.1.pending_inputs is None,
{
    let timestamp = unix_now_secs();
    let mut id = String::from_str("perm_req_");
    let number = decimal_text(request_id);
    id.append(number.as_str());
    let title = match &request.tool_call.title {
        Some(t) => t.clone(),
        None => String::from_str("unknown tool"),
    };
    let message = prefixed("Permission requested: ", title.as_str());
    let pending_input = PendingInput {
        id,
        input_type: PendingInputType::ToolPermission,
        tool_name: copy_optional_text(&request.tool_call.title),
        message: message.clone(),
        timestamp,
    };
    let tool = match &request.tool_call.title {
        Some(t) => Some(ToolUpdate { name: t.clone(), input: None }),
        None => None,
    };
    let update = AgentUpdate {
        agent_id,
        update_type: String::from_str("permission_request"),
        message: Some(message),
        tool,
        progress: None,
        current_file,
        status: None,
        pending_inputs: None,
    };
    (pending_input, update)
}

/// The answer written for the default approval.
pub open spec fn auto_answer_ok(v: Option<serde_json::Value>, req: RequestPermissionRequest) -> bool {
    match v {
        Some(x) => exists|resp: crate::messages::RequestPermissionResponse| #[trigger] resp.model() == json_model(x)
            && outcome_view(resp) == chosen_outcome(req.options@, true, None),
        None => false,
    }
}

pub open spec fn auto_processed(
    res: PermissionProcessingResult,
    agent_id: uuid::Uuid,
    request_id: i64,
    req: RequestPermissionRequest,
    file: Option<Seq<char>>,
) -> bool {
    &&& is_permission_input(res.update, res.pending_input, agent_id, request_id, req, file)
    &&& res.response.id == Some(request_id)
    &&& res.response.error is None
    &&& auto_answer_ok(res.response.result, req)
}

/// Process a `session/request_permission` request, answering it at once with
/// the default approval (see `chosen_outcome`) whatever `auto_approve` says.
/// Params that are not a permission request are refused.
pub fn process_permission_request(
    agent_id: uuid::Uuid,
    request_id: i64,
    params: &serde_json::Value,
    current_file: Option<String>,
    auto_approve: bool,
) -> (r: Result<PermissionProcessingResult, String>)
    ensures
        r is Err <==> !RequestPermissionRequest::ok(json_model(*params)),
        r is Err ==> r->Err_0@ == "Invalid permission request"@,
        r is Ok ==> exists|req: RequestPermissionRequest| #[trigger] req.read_from(json_model(*params))
            && auto_processed(r->Ok_0, agent_id, request_id, req, text_view(current_file)),
{
    let request = match RequestPermissionRequest::from_value(params) {
        Some(req) => req,
        None => { return Err(String::from_str("Invalid permission request")); },
    };
    let (pending_input, update) = permission_input(agent_id, request_id, &request, current_file);
    let decision = PermissionUserResponse { approved: true, option_id: None };
    let response = choose_permission_response(&request.options, &decision);
    let rpc_response = JsonRpcResponse::success(request_id, response.to_value());
    assert(response.model() == json_model(rpc_response.result.unwrap()));
    Ok(PermissionProcessingResult { update, pending_input, response: rpc_response })
}

} // verus!
