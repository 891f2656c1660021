//! The agent's own records: its status, the decisions it waits for, and the
//! updates it reports to the host.
use vstd::prelude::*;
use crate::json::{value_view, text_view, json_model, JsonModel, object_of, json_text};
use crate::protocol::{JsonRpcMessage, JsonRpcRequest, JsonRpcResponse, JsonRpcNotification};
use crate::messages::{
    InitializeParams, SessionNewParams, SessionNewResult, SessionPromptParams, PromptContent,
    RequestPermissionRequest, RequestPermissionResponse, text_is, host_capabilities,
};
use crate::message_processor::{process_session_update, update_outcome, permission_input, is_permission_input, ProcessingResult};
use crate::permission::{choose_permission_response, chosen_outcome, outcome_view};

verus! {

#[verifier::external_type_specification]
#[verifier::external_body]
pub struct ExUuid(uuid::Uuid);

/// Relies on `uuid::Uuid::new_v4`: a fresh random identity for an agent.
#[verifier::external_body]
pub fn new_agent_id() -> (r: uuid::Uuid) {
    uuid::Uuid::new_v4()
}

/// Relies on `uuid::Uuid::new_v4` and its `Display`: a fresh random id for a
/// pending input that the protocol left without one.
#[verifier::external_body]
pub(crate) fn fresh_input_id() -> (r: String) {
    uuid::Uuid::new_v4().to_string()
}

/// Relies on `std::time::SystemTime::now`: whole seconds since the Unix epoch,
/// zero for a clock set before it.
#[verifier::external_body]
pub(crate) fn unix_now_secs() -> (r: u64) {
    std::time::SystemTime::now().duration_since(std::time::UNIX_EPOCH).unwrap_or_default().as_secs()
}

/// The characters of a string, in order.
pub fn chars_of(s: &str) -> (r: Vec<char>)
    ensures
        r@ == s@,
{
    let n = s.unicode_len();
    let mut out: Vec<char> = Vec::new();
    let mut i: usize = 0;
    while i < n
        invariant
            n == s@.len(),
            i <= n,
            out@ == s@.subrange(0, i as int),
        decreases n - i,
    {
        out.push(s.get_char(i));
        proof {
            assert(s@.subrange(0, i + 1) =~= s@.subrange(0, i as int).push(s@[i as int]));
        }
        i = i + 1;
    }
    proof {
        assert(s@.subrange(0, n as int) =~= s@);
    }
    out
}

/// Whether `pat` occurs in `s` as a run of consecutive characters.
pub fn text_contains(s: &str, pat: &str) -> (r: bool)
    ensures
        r == has_substring(s@, pat@),
{
    let t = chars_of(s);
    let p = chars_of(pat);
    let n = t.len();
    let m = p.len();
    if m > n {
        return false;
    }
    let mut i: usize = 0;
    while i <= n - m
        invariant
            t@ == s@,
            p@ == pat@,
            n == t@.len(),
            m == p@.len(),
            m <= n,
            i <= n - m + 1,
            forall|j: int| 0 <= j < i ==> #[trigger] s@.subrange(j, j + m) != pat@,
        decreases n - m + 1 - i,
    {
        let mut k: usize = 0;
        let mut same = true;
        while k < m && same
            invariant
                t@ == s@,
                p@ == pat@,
                n == t@.len(),
                m == p@.len(),
                i + m <= n,
                k <= m,
                same ==> forall|q: int| 0 <= q < k ==> t@[i + q] == p@[q],
                !same ==> exists|q: int| 0 <= q < m && t@[i + q] != p@[q],
            decreases m - k + (if same { 1int } else { 0int }),
        {
            if t[i + k] != p[k] {
                same = false;
            } else {
                k = k + 1;
            }
        }
        if same {
            assert(s@.subrange(i as int, i + m) =~= pat@);
            return true;
        }
        proof {
            let q = choose|q: int| 0 <= q < m && t@[i + q] != p@[q];
            assert(s@.subrange(i as int, i + m)[q] != pat@[q]);
        }
        i = i + 1;
    }
    proof {
        assert forall|j: int| 0 <= j && j + pat@.len() <= s@.len() implies #[trigger] s@.subrange(j, j + pat@.len()) != pat@ by {
            assert(j < i);
        }
    }
    false
}

pub open spec fn has_substring(s: Seq<char>, pat: Seq<char>) -> bool {
    exists|i: int| 0 <= i && i + pat.len() <= s.len() && #[trigger] s.subrange(i, i + pat.len()) == pat
}

/// What kind of decision a pending input asks for.
#[derive(Debug, Clone, Copy, PartialEq, Eq, Structural)]
pub enum PendingInputType {
    ToolPermission,
    UserQuestion,
    Confirmation,
}

/// A decision the agent waits for (permission, question, confirmation).
pub struct PendingInput {
    pub id: String,
    pub input_type: PendingInputType,
    pub tool_name: Option<String>,
    pub message: String,
    pub timestamp: u64,
}

/// The host's answer to a permission request.
pub struct PermissionUserResponse {
    pub approved: bool,
    pub option_id: Option<String>,
}

#[derive(Debug, Clone, Copy, PartialEq, Eq, Structural)]
pub enum AgentStatus {
    Initializing,
    Idle,
    Working,
    Paused,
    Error,
    Stopped,
}

/// What a tool-related update says of the tool.
pub struct ToolUpdate {
    pub name: String,
    pub input: Option<serde_json::Value>,
}

/// One update reported to the host.
pub struct AgentUpdate {
    pub agent_id: uuid::Uuid,
    pub update_type: String,
    pub message: Option<String>,
    pub tool: Option<ToolUpdate>,
    /// Percent of the prompt done.
    pub progress: Option<u32>,
    pub current_file: Option<String>,
    pub status: Option<AgentStatus>,
    pub pending_inputs: Option<Vec<PendingInput>>,
}

#[derive(Debug)]
pub enum AgentProcessError {
    SpawnFailed(String),
    StdinUnavailable,
    StdoutUnavailable,
    CommunicationError(String),
    InitializeFailed(String),
    SessionCreateFailed(String),
    NoSession,
    PromptFailed(String),
    StopFailed(String),
}

/// A copy of an optional JSON value.
pub fn copy_optional(v: &Option<serde_json::Value>) -> (r: Option<serde_json::Value>)
    ensures
        value_view(r) == value_view(*v),
{
    match v {
        Some(x) => Some(crate::json::copy_value(x)),
        None => None,
    }
}

pub fn copy_optional_text(v: &Option<String>) -> (r: Option<String>)
    ensures
        r == *v,
{
    match v {
        Some(x) => Some(x.clone()),
        None => None,
    }
}

/// One agent's protocol state: everything but the subprocess and its pipes,
/// which the caller owns and drives with the lines this state hands out.
pub struct AgentProcess {
    pub id: uuid::Uuid,
    pub name: String,
    pub request_id: i64,
    pub session_id: Option<String>,
    pub working_directory: String,
    pub status: AgentStatus,
    pub current_file: Option<String>,
    /// Percent of the current prompt done.
    pub progress: u32,
    pub tokens_used: u64,
    pub pending_inputs: Vec<PendingInput>,
}

/// What waiting for the `initialize` reply gives for one message.
pub enum HandshakeStep {
    /// Not the reply: read on.
    Wait,
    /// The reply came without error: write this `initialized`
    /// notification, and the agent is ready.
    Done(String),
    Failed(AgentProcessError),
}

/// What the prompt loop does after one message.
pub enum PromptStep {
    /// Report these updates and read on.
    Continue(Vec<AgentUpdate>),
    /// Write this line back to the agent and read on.
    Reply(String),
    /// Report the update, wait for the host's decision on `input_id`, then
    /// call `resolve_permission`.
    AwaitDecision { request_id: i64, input_id: String, request: RequestPermissionRequest, update: AgentUpdate },
    /// The prompt is done; this is its text.
    Finished(String),
    Failed(AgentProcessError),
}

pub open spec fn not_id(id: Seq<char>) -> spec_fn(PendingInput) -> bool {
    |p: PendingInput| p.id@ != id
}

impl AgentProcess {
    /// A fresh agent: initializing, no session, request ids from 1.
    pub fn new(id: uuid::Uuid, name: String, working_directory: String) -> (r: Self)
        ensures
            r.id == id,
            r.name == name,
            r.working_directory == working_directory,
            r.status == AgentStatus::Initializing,
            r.session_id is None,
            r.current_file is None,
            r.progress == 0,
            r.tokens_used == 0,
            r.pending_inputs@.len() == 0,
            r.next_id() == 1,
    {
        AgentProcess {
            id,
            name,
            request_id: 1,
            session_id: None,
            working_directory,
            status: AgentStatus::Initializing,
            current_file: None,
            progress: 0,
            tokens_used: 0,
            pending_inputs: Vec::new(),
        }
    }

    /// The id the next request will carry.
    pub open spec fn next_id(&self) -> int {
        self.request_id as int
    }

    pub fn next_request_id(&mut self) -> (r: i64)
        requires
            old(self).next_id() < i64::MAX,
        ensures
            r as int == old(self).next_id(),
            final(self).next_id() == old(self).next_id() + 1,
            final(self).status == old(self).status,
            final(self).session_id == old(self).session_id,
            final(self).pending_inputs == old(self).pending_inputs,
            final(self).current_file == old(self).current_file,
            final(self).progress == old(self).progress,
            final(self).id == old(self).id,
            final(self).working_directory == old(self).working_directory,
    {
        let r = self.request_id;
        self.request_id = self.request_id + 1;
        r
    }

    /// Add a pending input request; the agent then waits for it.
    pub fn add_pending_input(&mut self, input: PendingInput)
        ensures
            final(self).pending_inputs@ == old(self).pending_inputs@.push(input),
            final(self).status == AgentStatus::Paused,
            final(self).next_id() == old(self).next_id(),
            final(self).session_id == old(self).session_id,
            final(self).current_file == old(self).current_file,
            final(self).progress == old(self).progress,
            final(self).id == old(self).id,
    {
        self.pending_inputs.push(input);
        self.status = AgentStatus::Paused;
    }

    /// Clear a pending input by id; with none left the agent is idle again.
    pub fn clear_pending_input(&mut self, input_id: &str)
        ensures
            final(self).pending_inputs@ == old(self).pending_inputs@.filter(not_id(input_id@)),
            final(self).status == if final(self).pending_inputs@.len() == 0 {
                AgentStatus::Idle
            } else {
                old(self).status
            },
            final(self).next_id() == old(self).next_id(),
            final(self).session_id == old(self).session_id,
            final(self).current_file == old(self).current_file,
            final(self).progress == old(self).progress,
            final(self).id == old(self).id,
    {
        let ghost all = self.pending_inputs@;
        let ghost pred = not_id(input_id@);
        let target = String::from_str(input_id);
        let mut kept: Vec<PendingInput> = Vec::new();
        let mut i: usize = 0;
        while i < self.pending_inputs.len()
            invariant
                all == self.pending_inputs@,
                i <= all.len(),
                kept@ == all.subrange(0, i as int).filter(pred),
                pred == not_id(input_id@),
                target@ == input_id@,
            decreases all.len() - i,
        {
            let p = copy_input(&self.pending_inputs[i]);
            proof {
                reveal(Seq::filter);
                assert(all.subrange(0, i + 1).drop_last() =~= all.subrange(0, i as int));
                assert(all.subrange(0, i + 1).last() == all[i as int]);
            }
            if !(p.id == target) {
                kept.push(p);
            }
            i = i + 1;
        }
        proof {
            assert(all.subrange(0, all.len() as int) =~= all);
        }
        self.pending_inputs = kept;
        if self.pending_inputs.len() == 0 {
            self.status = AgentStatus::Idle;
        }
    }

    /// Builds the line of a request with the next id.
    fn request_line(&mut self, method: &str, params: serde_json::Value) -> (r: String)
        requires
            old(self).next_id() < i64::MAX,
        ensures
            r@ == request_text(old(self).next_id(), method@, json_model(params)),
            final(self).next_id() == old(self).next_id() + 1,
            final(self).status == old(self).status,
            final(self).session_id == old(self).session_id,
            final(self).pending_inputs == old(self).pending_inputs,
            final(self).current_file == old(self).current_file,
            final(self).progress == old(self).progress,
            final(self).id == old(self).id,
            final(self).working_directory == old(self).working_directory,
    {
        let id = self.next_request_id();
        let request = JsonRpcRequest::new(id, method, Some(params));
        request.to_json()
    }

    /// The `initialize` request: protocol version, capabilities and the
    /// host's identity.
    pub fn initialize_request(&mut self) -> (r: String)
        requires
            old(self).next_id() < i64::MAX,
        ensures
            r@ == request_text(old(self).next_id(), "initialize"@, initialize_params_model()),
            final(self).next_id() == old(self).next_id() + 1,
            final(self).status == old(self).status,
            final(self).session_id == old(self).session_id,
            final(self).pending_inputs == old(self).pending_inputs,
    {
        let params = InitializeParams::new();
        self.request_line("initialize", params.to_value())
    }

    /// Reads one message while waiting for the `initialize` reply: anything
    /// but a response is passed over; an error response fails; any other
    /// response completes the handshake and leaves the agent idle.
    pub fn on_initialize_reply(&mut self, msg: &JsonRpcMessage) -> (r: HandshakeStep)
        ensures
            match *msg {
                JsonRpcMessage::Response(resp) => match resp.error {
                    Some(e) => (r matches HandshakeStep::Failed(AgentProcessError::InitializeFailed(m)) && m == e.message)
                        && final(self).status == old(self).status,
                    None => (r matches HandshakeStep::Done(line) && line@ == initialized_text())
                        && final(self).status == AgentStatus::Idle,
                },
                _ => r is Wait && final(self).status == old(self).status,
            },
            final(self).next_id() == old(self).next_id(),
            final(self).session_id == old(self).session_id,
            final(self).pending_inputs == old(self).pending_inputs,
    {
        match msg {
            JsonRpcMessage::Response(resp) => match &resp.error {
                Some(e) => HandshakeStep::Failed(AgentProcessError::InitializeFailed(e.message.clone())),
                None => {
                    self.status = AgentStatus::Idle;
                    let note = JsonRpcNotification::new("notifications/initialized", None);
                    HandshakeStep::Done(note.to_json())
                },
            },
            _ => HandshakeStep::Wait,
        }
    }

    /// The `session/new` request: the working directory and no MCP servers.
    pub fn session_request(&mut self) -> (r: String)
        requires
            old(self).next_id() < i64::MAX,
        ensures
            r@ == request_text(
                old(self).next_id(),
                "session/new"@,
                object_of(Map::empty().insert("cwd"@, JsonModel::Str(old(self).working_directory@)).insert(
                    "mcpServers"@,
                    JsonModel::Array(Seq::empty()),
                )),
            ),
            final(self).next_id() == old(self).next_id() + 1,
            final(self).status == old(self).status,
            final(self).session_id == old(self).session_id,
            final(self).pending_inputs == old(self).pending_inputs,
    {
        let params = SessionNewParams { cwd: self.working_directory.clone(), mcp_servers: Vec::new() };
        proof {
            assert(crate::messages::models_of(params.mcp_servers@) =~= Seq::empty());
        }
        self.request_line("session/new", params.to_value())
    }

    /// Reads one message while waiting for the `session/new` reply: `Ok(None)`
    /// reads on; an error response fails; a result must carry a session id,
    /// which the agent keeps.
    pub fn on_session_reply(&mut self, msg: &JsonRpcMessage) -> (r: Result<Option<String>, AgentProcessError>)
        ensures
            match *msg {
                JsonRpcMessage::Response(resp) => match resp.error {
                    Some(e) => (r matches Err(AgentProcessError::SessionCreateFailed(m)) && m == e.message)
                        && final(self).session_id == old(self).session_id,
                    None => match resp.result {
                        Some(v) => if SessionNewResult::ok(json_model(v)) {
                            r matches Ok(Some(id)) && final(self).session_id == Some(id) && Some(id@)
                                == crate::json::text_member(json_model(v), "sessionId"@)
                        } else {
                            (r matches Err(AgentProcessError::CommunicationError(_))) && final(self).session_id
                                == old(self).session_id
                        },
                        None => r == Ok::<Option<String>, AgentProcessError>(None) && final(self).session_id == old(self).session_id,
                    },
                },
                _ => r == Ok::<Option<String>, AgentProcessError>(None) && final(self).session_id == old(self).session_id,
            },
            final(self).status == old(self).status,
            final(self).next_id() == old(self).next_id(),
            final(self).pending_inputs == old(self).pending_inputs,
    {
        match msg {
            JsonRpcMessage::Response(resp) => {
                if let Some(e) = &resp.error {
                    return Err(AgentProcessError::SessionCreateFailed(e.message.clone()));
                }
                match &resp.result {
                    Some(v) => match SessionNewResult::from_value(v) {
                        Some(res) => {
                            self.session_id = Some(res.session_id.clone());
                            Ok(Some(res.session_id))
                        },
                        None => Err(AgentProcessError::CommunicationError(String::from_str("invalid session/new result"))),
                    },
                    None => Ok(None),
                }
            },
            _ => Ok(None),
        }
    }

    /// Starts a prompt: refused without a session; otherwise the agent is
    /// working, its progress is reset, and the `session/prompt` request is
    /// returned.
    pub fn begin_prompt(&mut self, prompt: &str) -> (r: Result<String, AgentProcessError>)
        requires
            old(self).next_id() < i64::MAX,
        ensures
            match old(self).session_id {
                None => (r matches Err(AgentProcessError::NoSession)) && final(self).status == old(self).status
                    && final(self).progress == old(self).progress && final(self).next_id() == old(self).next_id(),
                Some(sid) => r matches Ok(line) && line@ == request_text(
                    old(self).next_id(),
                    "session/prompt"@,
                    prompt_params_model(sid@, prompt@),
                ) && final(self).status == AgentStatus::Working && final(self).progress == 0
                    && final(self).next_id() == old(self).next_id() + 1,
            },
            final(self).session_id == old(self).session_id,
            final(self).pending_inputs == old(self).pending_inputs,
            final(self).current_file == old(self).current_file,
    {
        let session_id = match &self.session_id {
            Some(s) => s.clone(),
            None => { return Err(AgentProcessError::NoSession); },
        };
        self.status = AgentStatus::Working;
        self.progress = 0;
        let mut prompt_list: Vec<PromptContent> = Vec::new();
        prompt_list.push(PromptContent::text(prompt));
        let params = SessionPromptParams { session_id, prompt: prompt_list };
        proof {
            assert(crate::messages::prompt_models(params.prompt@) =~= seq![params.prompt@[0].model()]);
        }
        Ok(self.request_line("session/prompt", params.to_value()))
    }

    /// Reads one message of the prompt loop, in arrival order.
    ///
    /// A `session/update` notification goes through the update interpreter:
    /// its text is appended to `accumulated`, its file hint and pending inputs
    /// are recorded, and its updates reported. A `session/request_permission`
    /// request records a pending input and hands the decision to the caller;
    /// any other request is answered with a method-not-found error. An error
    /// response fails the prompt and leaves the agent in error; a result
    /// response finishes it with the accumulated text. Anything else is passed
    /// over.
    pub fn on_prompt_message(&mut self, msg: &JsonRpcMessage, accumulated: &mut String) -> (r: PromptStep)
        ensures
            prompt_step_ok(*old(self), *final(self), *msg, old(accumulated)@, final(accumulated)@, r),
    {
        match msg {
            JsonRpcMessage::Notification(n) => {
                if text_is(&n.method, "session/update") {
                    match &n.params {
                        Some(params) => {
                            let res = process_session_update(self.id, params, copy_optional_text(&self.current_file));
                            let ghost old_pending = self.pending_inputs@;
                            let ghost res_view = res;
                            accumulated.append(res.accumulated_text.as_str());
                            let ProcessingResult { updates, pending_inputs, accumulated_text, current_file } = res;
                            self.current_file = current_file;
                            let mut i: usize = 0;
                            while i < pending_inputs.len()
                                invariant
                                    i <= pending_inputs@.len(),
                                    self.pending_inputs@ == old_pending + pending_inputs@.subrange(0, i as int),
                                    self.id == old(self).id,
                                    self.session_id == old(self).session_id,
                                    self.request_id == old(self).request_id,
                                    self.progress == old(self).progress,
                                    self.current_file == current_file,
                                    i > 0 ==> self.status == AgentStatus::Paused,
                                    i == 0 ==> self.status == old(self).status,
                                decreases pending_inputs@.len() - i,
                            {
                                self.add_pending_input(copy_input(&pending_inputs[i]));
                                proof {
                                    assert(old_pending + pending_inputs@.subrange(0, i + 1) =~= (old_pending
                                        + pending_inputs@.subrange(0, i as int)).push(pending_inputs@[i as int]));
                                }
                                i = i + 1;
                            }
                            proof {
                                assert(pending_inputs@.subrange(0, pending_inputs@.len() as int) =~= pending_inputs@);
                                assert(update_outcome(res_view, self.id, json_model(*params), text_view(old(self).current_file)));
                            }
                            let mut updates = updates;
                            if pending_inputs.len() > 0 {
                                assert(updates@.len() > 0);
                                let ghost before = updates@;
                                let mut first = updates.remove(0);
                                first.status = Some(AgentStatus::Paused);
                                first.pending_inputs = Some(copy_inputs(&self.pending_inputs));
                                updates.insert(0, first);
                                proof {
                                    assert forall|k: int| 1 <= k < updates@.len() implies updates@[k] == before[k] by {
                                        assert(updates@[k] == before.remove(0)[k - 1]);
                                    }
                                }
                            }
                            PromptStep::Continue(updates)
                        },
                        None => PromptStep::Continue(Vec::new()),
                    }
                } else {
                    PromptStep::Continue(Vec::new())
                }
            },
            JsonRpcMessage::Response(resp) => {
                if let Some(e) = &resp.error {
                    self.status = AgentStatus::Error;
                    return PromptStep::Failed(AgentProcessError::PromptFailed(e.message.clone()));
                }
                if resp.result.is_some() {
                    self.status = AgentStatus::Idle;
                    self.progress = 100;
                    PromptStep::Finished(accumulated.clone())
                } else {
                    PromptStep::Continue(Vec::new())
                }
            },
            JsonRpcMessage::Request(req) => {
                if text_is(&req.method, "session/request_permission") {
                    match &req.params {
                        Some(params) => match RequestPermissionRequest::from_value(params) {
                            Some(request) => {
                                let (pending, update) = permission_input(
                                    self.id,
                                    req.id,
                                    &request,
                                    copy_optional_text(&self.current_file),
                                );
                                let input_id = pending.id.clone();
                                self.add_pending_input(pending);
                                assert(self.pending_inputs@.drop_last() =~= old(self).pending_inputs@);
                                let mut update = update;
                                update.status = Some(AgentStatus::Paused);
                                update.pending_inputs = Some(copy_inputs(&self.pending_inputs));
                                PromptStep::AwaitDecision { request_id: req.id, input_id, request, update }
                            },
                            None => PromptStep::Failed(
                                AgentProcessError::CommunicationError(String::from_str("Invalid permission request")),
                            ),
                        },
                        None => PromptStep::Failed(
                            AgentProcessError::CommunicationError(String::from_str("Invalid permission request")),
                        ),
                    }
                } else {
                    let mut message = String::from_str("Method not found: ");
                    message.append(req.method.as_str());
                    let response = JsonRpcResponse::error(req.id, -32601, message);
                    PromptStep::Reply(response.to_json())
                }
            },
        }
    }

    /// Answers a permission request with the host's decision (see
    /// `chosen_outcome`) and clears its pending input.
    pub fn resolve_permission(
        &mut self,
        request_id: i64,
        input_id: &str,
        request: &RequestPermissionRequest,
        decision: &PermissionUserResponse,
    ) -> (r: String)
        ensures
            exists|resp: RequestPermissionResponse| #[trigger] outcome_view(resp) == chosen_outcome(
                request.options@,
                decision.approved,
                text_view(decision.option_id),
            ) && r@ == success_text(request_id, resp.model()),
            final(self).pending_inputs@ == old(self).pending_inputs@.filter(not_id(input_id@)),
            final(self).status == if final(self).pending_inputs@.len() == 0 {
                AgentStatus::Idle
            } else {
                old(self).status
            },
            final(self).next_id() == old(self).next_id(),
            final(self).session_id == old(self).session_id,
    {
        let response = choose_permission_response(&request.options, decision);
        let rpc = JsonRpcResponse::success(request_id, response.to_value());
        let line = rpc.to_json();
        self.clear_pending_input(input_id);
        line
    }

    /// Marks the agent stopped; ending the subprocess is the caller's part.
    pub fn stop(&mut self)
        ensures
            final(self).status == AgentStatus::Stopped,
            final(self).session_id == old(self).session_id,
            final(self).pending_inputs == old(self).pending_inputs,
    {
        self.status = AgentStatus::Stopped;
    }

    /// Check if agent has pending inputs
    pub fn has_pending_inputs(&self) -> (r: bool)
        ensures
            r == (self.pending_inputs@.len() > 0),
    {
        self.pending_inputs.len() > 0
    }
}

/// A copy of a list of pending inputs.
pub fn copy_inputs(v: &Vec<PendingInput>) -> (r: Vec<PendingInput>)
    ensures
        r@ == v@,
{
    let mut out: Vec<PendingInput> = Vec::new();
    let mut i: usize = 0;
    while i < v.len()
        invariant
            i <= v@.len(),
            out@ == v@.subrange(0, i as int),
        decreases v@.len() - i,
    {
        out.push(copy_input(&v[i]));
        proof {
            assert(v@.subrange(0, i + 1) =~= v@.subrange(0, i as int).push(v@[i as int]));
        }
        i = i + 1;
    }
    proof {
        assert(v@.subrange(0, v@.len() as int) =~= v@);
    }
    out
}

/// A copy of a pending input, field by field.
pub fn copy_input(p: &PendingInput) -> (r: PendingInput)
    ensures
        r == *p,
        r.id == p.id,
        r.input_type == p.input_type,
        r.tool_name == p.tool_name,
        r.message == p.message,
        r.timestamp == p.timestamp,
{
    PendingInput {
        id: p.id.clone(),
        input_type: p.input_type,
        tool_name: copy_optional_text(&p.tool_name),
        message: p.message.clone(),
        timestamp: p.timestamp,
    }
}

/// The text of a request line.
pub open spec fn request_text(id: int, method: Seq<char>, params: JsonModel) -> Seq<char> {
    json_text(object_of(Map::empty().insert("jsonrpc"@, JsonModel::Str("2.0"@)).insert("id"@, JsonModel::Int(id)).insert(
        "method"@,
        JsonModel::Str(method),
    ).insert("params"@, params)))
}

/// The text of a successful response line.
pub open spec fn success_text(id: i64, result: JsonModel) -> Seq<char> {
    json_text(object_of(Map::empty().insert("jsonrpc"@, JsonModel::Str("2.0"@)).insert("id"@, JsonModel::Int(id as int)).insert(
        "result"@,
        result,
    )))
}

/// The params of the `initialize` request.
pub open spec fn initialize_params_model() -> JsonModel {
    object_of(Map::empty().insert("protocolVersion"@, JsonModel::Int(1)).insert("clientCapabilities"@, host_capabilities()).insert(
        "clientInfo"@,
        object_of(Map::empty().insert("name"@, JsonModel::Str("ACPtorio"@)).insert("version"@, JsonModel::Str("0.1.0"@))),
    ))
}

/// The params of a `session/prompt` request with one text block.
pub open spec fn prompt_params_model(session_id: Seq<char>, prompt: Seq<char>) -> JsonModel {
    object_of(Map::empty().insert("sessionId"@, JsonModel::Str(session_id)).insert(
        "prompt"@,
        JsonModel::Array(seq![object_of(Map::empty().insert("type"@, JsonModel::Str("text"@)).insert("text"@, JsonModel::Str(prompt)))]),
    ))
}

/// The `initialized` notification that ends the handshake.
pub open spec fn initialized_text() -> Seq<char> {
    json_text(object_of(Map::empty().insert("jsonrpc"@, JsonModel::Str("2.0"@)).insert(
        "method"@,
        JsonModel::Str("notifications/initialized"@),
    )))
}

/// An update reporting a decision the agent waits for carries the agent's
/// status, paused, and all its pending inputs.
pub open spec fn carries_pending(a: AgentUpdate, pending: Seq<PendingInput>) -> bool {
    a.status == Some(AgentStatus::Paused) && a.pending_inputs is Some && a.pending_inputs.unwrap()@ == pending
}

/// `b` is `a` with the agent's paused status and pending inputs filled in.
pub open spec fn with_pending(b: AgentUpdate, a: AgentUpdate, pending: Seq<PendingInput>) -> bool {
    &&& b.agent_id == a.agent_id
    &&& b.update_type == a.update_type
    &&& b.message == a.message
    &&& b.tool == a.tool
    &&& b.progress == a.progress
    &&& b.current_file == a.current_file
    &&& carries_pending(b, pending)
}

/// The updates a `session/update` step reports: the interpreter's, in order,
/// the leading `pending_input` update (when a decision is raised) carrying
/// the agent's state.
pub open spec fn reports_updates(r: PromptStep, interpreted: Seq<AgentUpdate>, raised: bool, pending: Seq<PendingInput>) -> bool {
    match r {
        PromptStep::Continue(us) => us@.len() == interpreted.len() && if raised {
            with_pending(us@[0], interpreted[0], pending) && forall|k: int| 1 <= k < us@.len() ==> #[trigger] us@[k] == interpreted[k]
        } else {
            us@ == interpreted
        },
        _ => false,
    }
}

/// One step of the prompt loop (see `AgentProcess::on_prompt_message`).
pub open spec fn prompt_step_ok(
    before: AgentProcess,
    after: AgentProcess,
    msg: JsonRpcMessage,
    acc_before: Seq<char>,
    acc_after: Seq<char>,
    r: PromptStep,
) -> bool {
    &&& after.id == before.id
    &&& after.session_id == before.session_id
    &&& after.request_id == before.request_id
    &&& match msg {
        JsonRpcMessage::Notification(n) => if n.method@ == "session/update"@ && n.params is Some {
            exists|res: ProcessingResult| #[trigger] update_outcome(res, before.id, json_model(n.params.unwrap()), text_view(before.current_file))
                && reports_updates(r, res.updates@, res.pending_inputs@.len() > 0, after.pending_inputs@)
                && acc_after == acc_before + res.accumulated_text@
                && after.current_file == res.current_file
                && after.pending_inputs@ == before.pending_inputs@ + res.pending_inputs@
                && after.status == if res.pending_inputs@.len() > 0 { AgentStatus::Paused } else { before.status }
                && after.progress == before.progress
        } else {
            r matches PromptStep::Continue(u) && u@.len() == 0 && after == before && acc_after == acc_before
        },
        JsonRpcMessage::Response(resp) => acc_after == acc_before && after.pending_inputs == before.pending_inputs && match resp.error {
            Some(e) => (r matches PromptStep::Failed(AgentProcessError::PromptFailed(m)) && m == e.message)
                && after.status == AgentStatus::Error,
            None => if resp.result is Some {
                (r matches PromptStep::Finished(t) && t@ == acc_before) && after.status == AgentStatus::Idle
                    && after.progress == 100
            } else {
                r matches PromptStep::Continue(u) && u@.len() == 0 && after == before
            },
        },
        JsonRpcMessage::Request(req) => acc_after == acc_before && if req.method@ == "session/request_permission"@ {
            match req.params {
                Some(p) => if RequestPermissionRequest::ok(json_model(p)) {
                    r matches PromptStep::AwaitDecision { request_id, input_id, request, update }
                        && request_id == req.id && request.read_from(json_model(p))
                        && is_permission_input(update, after.pending_inputs@.last(), before.id, req.id, request, text_view(before.current_file))
                        && input_id == after.pending_inputs@.last().id
                        && after.pending_inputs@.drop_last() == before.pending_inputs@
                        && after.pending_inputs@.len() == before.pending_inputs@.len() + 1
                        && after.status == AgentStatus::Paused
                        && carries_pending(update, after.pending_inputs@)
                } else {
                    (r matches PromptStep::Failed(AgentProcessError::CommunicationError(_))) && after == before
                },
                None => (r matches PromptStep::Failed(AgentProcessError::CommunicationError(_))) && after == before,
            }
        } else {
            r matches PromptStep::Reply(line) && line@ == json_text(object_of(Map::empty()
                .insert("jsonrpc"@, JsonModel::Str("2.0"@)).insert("id"@, JsonModel::Int(req.id as int))
                .insert("error"@, object_of(Map::empty().insert("code"@, JsonModel::Int(-32601))
                    .insert("message"@, JsonModel::Str("Method not found: "@ + req.method@)))))) && after == before
        },
    }
}

} // verus!
