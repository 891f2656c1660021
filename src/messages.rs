//! The typed payloads of the protocol, how each is read from a JSON value,
//! and how the host's own payloads are written.
use vstd::prelude::*;
use crate::json::{
    JsonModel, json_model, member, member_absent, member_value, text_member, int_member, is_object,
    text_view, value_view, object_of, opt_text_ok, as_text, required_text, optional_text,
    optional_value, integer_member, value_is_object, get_member, value_is_null, value_items,
    value_text, text_value, int_value, bool_value, empty_object, set_member, array_value,
};

verus! {

/// Whether a string holds exactly the text of a literal.
pub fn text_is(s: &String, lit: &str) -> (r: bool)
    ensures
        r == (s@ == lit@),
{
    let t = String::from_str(lit);
    *s == t
}

// ---------------------------------------------------------------------------
// Closed sets of names
// ---------------------------------------------------------------------------

#[derive(Debug, Clone, Copy, PartialEq, Eq, Structural)]
pub enum ToolCallStatus {
    /// Awaiting approval or input streaming
    Pending,
    /// Currently executing
    InProgress,
    /// Completed successfully
    Completed,
    /// Failed with an error
    Failed,
}

impl ToolCallStatus {
    pub open spec fn from_name(s: Seq<char>) -> Option<ToolCallStatus> {
        if s == "pending"@ {
            Some(ToolCallStatus::Pending)
        } else if s == "in_progress"@ {
            Some(ToolCallStatus::InProgress)
        } else if s == "completed"@ {
            Some(ToolCallStatus::Completed)
        } else if s == "failed"@ {
            Some(ToolCallStatus::Failed)
        } else {
            None
        }
    }

    pub open spec fn read(m: JsonModel) -> Option<ToolCallStatus> {
        match as_text(m) {
            Some(s) => ToolCallStatus::from_name(s),
            None => None,
        }
    }

    pub fn from_value(v: &serde_json::Value) -> (r: Option<ToolCallStatus>)
        ensures
            r == ToolCallStatus::read(json_model(*v)),
    {
        let s = match value_text(v) {
            Some(s) => s,
            None => { return None; },
        };
        if text_is(&s, "pending") {
            Some(ToolCallStatus::Pending)
        } else if text_is(&s, "in_progress") {
            Some(ToolCallStatus::InProgress)
        } else if text_is(&s, "completed") {
            Some(ToolCallStatus::Completed)
        } else if text_is(&s, "failed") {
            Some(ToolCallStatus::Failed)
        } else {
            None
        }
    }
}

#[derive(Debug, Clone, Copy, PartialEq, Eq, Structural)]
pub enum PlanEntryStatus {
    Pending,
    InProgress,
    Completed,
}

impl PlanEntryStatus {
    pub open spec fn from_name(s: Seq<char>) -> Option<PlanEntryStatus> {
        if s == "pending"@ {
            Some(PlanEntryStatus::Pending)
        } else if s == "in_progress"@ {
            Some(PlanEntryStatus::InProgress)
        } else if s == "completed"@ {
            Some(PlanEntryStatus::Completed)
        } else {
            None
        }
    }

    pub open spec fn read(m: JsonModel) -> Option<PlanEntryStatus> {
        match as_text(m) {
            Some(s) => PlanEntryStatus::from_name(s),
            None => None,
        }
    }

    pub fn from_value(v: &serde_json::Value) -> (r: Option<PlanEntryStatus>)
        ensures
            r == PlanEntryStatus::read(json_model(*v)),
    {
        let s = match value_text(v) {
            Some(s) => s,
            None => { return None; },
        };
        if text_is(&s, "pending") {
            Some(PlanEntryStatus::Pending)
        } else if text_is(&s, "in_progress") {
            Some(PlanEntryStatus::InProgress)
        } else if text_is(&s, "completed") {
            Some(PlanEntryStatus::Completed)
        } else {
            None
        }
    }

    /// The variant's name, as a plan summary shows it.
    pub open spec fn label_spec(self) -> Seq<char> {
        match self {
            PlanEntryStatus::Pending => "Pending"@,
            PlanEntryStatus::InProgress => "InProgress"@,
            PlanEntryStatus::Completed => "Completed"@,
        }
    }

    pub fn label(&self) -> (r: &'static str)
        ensures
            r@ == self.label_spec(),
    {
        match self {
            PlanEntryStatus::Pending => "Pending",
            PlanEntryStatus::InProgress => "InProgress",
            PlanEntryStatus::Completed => "Completed",
        }
    }
}

#[derive(Debug, Clone, Copy, PartialEq, Eq, Structural)]
pub enum PlanEntryPriority {
    High,
    Medium,
    Low,
}

impl PlanEntryPriority {
    pub open spec fn from_name(s: Seq<char>) -> Option<PlanEntryPriority> {
        if s == "high"@ {
            Some(PlanEntryPriority::High)
        } else if s == "medium"@ {
            Some(PlanEntryPriority::Medium)
        } else if s == "low"@ {
            Some(PlanEntryPriority::Low)
        } else {
            None
        }
    }

    pub open spec fn read(m: JsonModel) -> Option<PlanEntryPriority> {
        match as_text(m) {
            Some(s) => PlanEntryPriority::from_name(s),
            None => None,
        }
    }

    pub fn from_value(v: &serde_json::Value) -> (r: Option<PlanEntryPriority>)
        ensures
            r == PlanEntryPriority::read(json_model(*v)),
    {
        let s = match value_text(v) {
            Some(s) => s,
            None => { return None; },
        };
        if text_is(&s, "high") {
            Some(PlanEntryPriority::High)
        } else if text_is(&s, "medium") {
            Some(PlanEntryPriority::Medium)
        } else if text_is(&s, "low") {
            Some(PlanEntryPriority::Low)
        } else {
            None
        }
    }
}

#[derive(Debug, Clone, Copy, PartialEq, Eq, Structural)]
pub enum PermissionOptionKind {
    AllowOnce,
    AllowAlways,
    RejectOnce,
    RejectAlways,
}

impl PermissionOptionKind {
    pub open spec fn from_name(s: Seq<char>) -> Option<PermissionOptionKind> {
        if s == "allow_once"@ {
            Some(PermissionOptionKind::AllowOnce)
        } else if s == "allow_always"@ {
            Some(PermissionOptionKind::AllowAlways)
        } else if s == "reject_once"@ {
            Some(PermissionOptionKind::RejectOnce)
        } else if s == "reject_always"@ {
            Some(PermissionOptionKind::RejectAlways)
        } else {
            None
        }
    }

    pub open spec fn read(m: JsonModel) -> Option<PermissionOptionKind> {
        match as_text(m) {
            Some(s) => PermissionOptionKind::from_name(s),
            None => None,
        }
    }

    pub fn from_value(v: &serde_json::Value) -> (r: Option<PermissionOptionKind>)
        ensures
            r == PermissionOptionKind::read(json_model(*v)),
    {
        let s = match value_text(v) {
            Some(s) => s,
            None => { return None; },
        };
        if text_is(&s, "allow_once") {
            Some(PermissionOptionKind::AllowOnce)
        } else if text_is(&s, "allow_always") {
            Some(PermissionOptionKind::AllowAlways)
        } else if text_is(&s, "reject_once") {
            Some(PermissionOptionKind::RejectOnce)
        } else if text_is(&s, "reject_always") {
            Some(PermissionOptionKind::RejectAlways)
        } else {
            None
        }
    }

    /// The name the wire uses for the kind.
    pub open spec fn name_spec(self) -> Seq<char> {
        match self {
            PermissionOptionKind::AllowOnce => "allow_once"@,
            PermissionOptionKind::AllowAlways => "allow_always"@,
            PermissionOptionKind::RejectOnce => "reject_once"@,
            PermissionOptionKind::RejectAlways => "reject_always"@,
        }
    }

    pub fn name(&self) -> (r: &'static str)
        ensures
            r@ == self.name_spec(),
    {
        match self {
            PermissionOptionKind::AllowOnce => "allow_once",
            PermissionOptionKind::AllowAlways => "allow_always",
            PermissionOptionKind::RejectOnce => "reject_once",
            PermissionOptionKind::RejectAlways => "reject_always",
        }
    }

    pub open spec fn is_allow(self) -> bool {
        self is AllowOnce || self is AllowAlways
    }

    pub open spec fn is_reject(self) -> bool {
        self is RejectOnce || self is RejectAlways
    }
}

#[derive(Debug, Clone, Copy, PartialEq, Eq, Structural)]
pub enum StopReason {
    Completed,
    Cancelled,
    MaxTokens,
    ToolCalls,
    /// Any other reason the agent gives.
    Unknown,
}

impl StopReason {
    /// Any string reads; names outside the known set read as `Unknown`.
    pub open spec fn from_name(s: Seq<char>) -> StopReason {
        if s == "completed"@ {
            StopReason::Completed
        } else if s == "cancelled"@ {
            StopReason::Cancelled
        } else if s == "max_tokens"@ {
            StopReason::MaxTokens
        } else if s == "tool_calls"@ {
            StopReason::ToolCalls
        } else {
            StopReason::Unknown
        }
    }

    pub open spec fn read(m: JsonModel) -> Option<StopReason> {
        match as_text(m) {
            Some(s) => Some(StopReason::from_name(s)),
            None => None,
        }
    }

    pub fn from_value(v: &serde_json::Value) -> (r: Option<StopReason>)
        ensures
            r == StopReason::read(json_model(*v)),
    {
        let s = match value_text(v) {
            Some(s) => s,
            None => { return None; },
        };
        if text_is(&s, "completed") {
            Some(StopReason::Completed)
        } else if text_is(&s, "cancelled") {
            Some(StopReason::Cancelled)
        } else if text_is(&s, "max_tokens") {
            Some(StopReason::MaxTokens)
        } else if text_is(&s, "tool_calls") {
            Some(StopReason::ToolCalls)
        } else {
            Some(StopReason::Unknown)
        }
    }
}

pub struct SessionPromptResult {
    pub stop_reason: StopReason,
}

impl SessionPromptResult {
    pub open spec fn read(m: JsonModel) -> Option<StopReason> {
        if !is_object(m) {
            None
        } else {
            match member(m, "stopReason"@) {
                Some(x) => StopReason::read(x),
                None => None,
            }
        }
    }

    /// Reads `{"stopReason": ...}`.
    pub fn from_value(v: &serde_json::Value) -> (r: Option<SessionPromptResult>)
        ensures
            match SessionPromptResult::read(json_model(*v)) {
                Some(s) => r matches Some(x) && x.stop_reason == s,
                None => r is None,
            },
    {
        if !value_is_object(v) {
            return None;
        }
        match get_member(v, "stopReason") {
            Some(x) => match StopReason::from_value(x) {
                Some(s) => Some(SessionPromptResult { stop_reason: s }),
                None => None,
            },
            None => None,
        }
    }
}

// ---------------------------------------------------------------------------
// Locations, content, plan entries, commands, options
// ---------------------------------------------------------------------------

pub open spec fn array_items(m: JsonModel) -> Seq<JsonModel> {
    match m {
        JsonModel::Array(items) => items,
        _ => Seq::empty(),
    }
}

pub struct Position {
    pub line: u32,
    pub character: u32,
}

impl Position {
    pub open spec fn ok(m: JsonModel) -> bool {
        is_object(m) && int_member(m, "line"@, 0, u32::MAX as int) is Some
            && int_member(m, "character"@, 0, u32::MAX as int) is Some
    }

    pub open spec fn read_from(self, m: JsonModel) -> bool {
        int_member(m, "line"@, 0, u32::MAX as int) == Some(self.line as int)
            && int_member(m, "character"@, 0, u32::MAX as int) == Some(self.character as int)
    }

    pub fn from_value(v: &serde_json::Value) -> (r: Option<Position>)
        ensures
            r is Some <==> Position::ok(json_model(*v)),
            r is Some ==> r.unwrap().read_from(json_model(*v)),
    {
        if !value_is_object(v) {
            return None;
        }
        let line = integer_member(v, "line", 0, u32::MAX as i64);
        let character = integer_member(v, "character", 0, u32::MAX as i64);
        match (line, character) {
            (Some(l), Some(c)) => Some(Position { line: l as u32, character: c as u32 }),
            _ => None,
        }
    }
}

pub struct FileRange {
    pub start: Position,
    pub end: Position,
}

impl FileRange {
    pub open spec fn ok(m: JsonModel) -> bool {
        is_object(m) && member(m, "start"@) is Some && Position::ok(member(m, "start"@).unwrap())
            && member(m, "end"@) is Some && Position::ok(member(m, "end"@).unwrap())
    }

    pub open spec fn read_from(self, m: JsonModel) -> bool {
        self.start.read_from(member(m, "start"@).unwrap()) && self.end.read_from(member(m, "end"@).unwrap())
    }

    pub fn from_value(v: &serde_json::Value) -> (r: Option<FileRange>)
        ensures
            r is Some <==> FileRange::ok(json_model(*v)),
            r is Some ==> r.unwrap().read_from(json_model(*v)),
    {
        if !value_is_object(v) {
            return None;
        }
        let start = match get_member(v, "start") {
            Some(x) => Position::from_value(x),
            None => None,
        };
        let end = match get_member(v, "end") {
            Some(x) => Position::from_value(x),
            None => None,
        };
        match (start, end) {
            (Some(s), Some(e)) => Some(FileRange { start: s, end: e }),
            _ => None,
        }
    }
}

pub struct FileLocation {
    pub path: String,
    pub range: Option<FileRange>,
}

impl FileLocation {
    pub open spec fn ok(m: JsonModel) -> bool {
        is_object(m) && text_member(m, "path"@) is Some && (member_absent(m, "range"@) || FileRange::ok(
            member(m, "range"@).unwrap(),
        ))
    }

    pub open spec fn read_from(self, m: JsonModel) -> bool {
        text_member(m, "path"@) == Some(self.path@) && match self.range {
            Some(r) => !member_absent(m, "range"@) && r.read_from(member(m, "range"@).unwrap()),
            None => member_absent(m, "range"@),
        }
    }

    pub fn from_value(v: &serde_json::Value) -> (r: Option<FileLocation>)
        ensures
            r is Some <==> FileLocation::ok(json_model(*v)),
            r is Some ==> r.unwrap().read_from(json_model(*v)),
    {
        if !value_is_object(v) {
            return None;
        }
        let path = match required_text(v, "path") {
            Some(p) => p,
            None => { return None; },
        };
        let range = match optional_value(v, "range") {
            None => None,
            Some(x) => match FileRange::from_value(&x) {
                Some(r) => Some(r),
                None => { return None; },
            },
        };
        Some(FileLocation { path, range })
    }

    pub open spec fn list_ok(m: JsonModel) -> bool {
        m is Array && forall|i: int| 0 <= i < array_items(m).len() ==> FileLocation::ok(#[trigger] array_items(m)[i])
    }

    pub open spec fn list_read_from(xs: Seq<FileLocation>, m: JsonModel) -> bool {
        xs.len() == array_items(m).len() && forall|i: int| 0 <= i < xs.len() ==> (#[trigger] xs[i]).read_from(array_items(m)[i])
    }

    pub fn list_from_value(v: &serde_json::Value) -> (r: Option<Vec<FileLocation>>)
        ensures
            r is Some <==> FileLocation::list_ok(json_model(*v)),
            r is Some ==> FileLocation::list_read_from(r.unwrap()@, json_model(*v)),
    {
        let items = match value_items(v) {
            Some(items) => items,
            None => { return None; },
        };
        let ghost m = array_items(json_model(*v));
        let mut out: Vec<FileLocation> = Vec::new();
        let mut i: usize = 0;
        while i < items.len()
            invariant
                i <= items@.len(),
                m == array_items(json_model(*v)),
                json_model(*v) is Array,
                items@.len() == m.len(),
                forall|j: int| 0 <= j < m.len() ==> json_model(#[trigger] items@[j]) == m[j],
                out@.len() == i,
                forall|j: int| 0 <= j < i ==> FileLocation::ok(#[trigger] m[j]),
                forall|j: int| 0 <= j < i ==> (#[trigger] out@[j]).read_from(m[j]),
            decreases items@.len() - i,
        {
            match FileLocation::from_value(&items[i]) {
                Some(x) => out.push(x),
                None => {
                    assert(!FileLocation::ok(array_items(json_model(*v))[i as int]));
                    return None;
                },
            }
            i = i + 1;
        }
        Some(out)
    }
}

pub enum ContentBlock {
    Text { text: String },
    Image { data: String, mime_type: String },
}

impl ContentBlock {
    pub fn text(text: &str) -> (r: ContentBlock)
        ensures
            r matches ContentBlock::Text { text: t } && t@ == text@,
    {
        ContentBlock::Text { text: String::from_str(text) }
    }

    pub open spec fn ok(m: JsonModel) -> bool {
        is_object(m) && (if text_member(m, "type"@) == Some("text"@) {
            text_member(m, "text"@) is Some
        } else if text_member(m, "type"@) == Some("image"@) {
            text_member(m, "data"@) is Some && text_member(m, "mime_type"@) is Some
        } else {
            false
        })
    }

    pub open spec fn read_from(self, m: JsonModel) -> bool {
        match self {
            ContentBlock::Text { text } => text_member(m, "type"@) == Some("text"@) && text_member(m, "text"@)
                == Some(text@),
            ContentBlock::Image { data, mime_type } => text_member(m, "type"@) == Some("image"@)
                && text_member(m, "data"@) == Some(data@) && text_member(m, "mime_type"@) == Some(mime_type@),
        }
    }

    pub fn from_value(v: &serde_json::Value) -> (r: Option<ContentBlock>)
        ensures
            r is Some <==> ContentBlock::ok(json_model(*v)),
            r is Some ==> r.unwrap().read_from(json_model(*v)),
    {
        if !value_is_object(v) {
            return None;
        }
        let tag = match required_text(v, "type") {
            Some(t) => t,
            None => { return None; },
        };
        if text_is(&tag, "text") {
            match required_text(v, "text") {
                Some(t) => Some(ContentBlock::Text { text: t }),
                None => None,
            }
        } else if text_is(&tag, "image") {
            match (required_text(v, "data"), required_text(v, "mime_type")) {
                (Some(d), Some(mt)) => Some(ContentBlock::Image { data: d, mime_type: mt }),
                _ => None,
            }
        } else {
            None
        }
    }

    pub open spec fn list_ok(m: JsonModel) -> bool {
        m is Array && forall|i: int| 0 <= i < array_items(m).len() ==> ContentBlock::ok(#[trigger] array_items(m)[i])
    }

    pub open spec fn list_read_from(xs: Seq<ContentBlock>, m: JsonModel) -> bool {
        xs.len() == array_items(m).len() && forall|i: int| 0 <= i < xs.len() ==> (#[trigger] xs[i]).read_from(array_items(m)[i])
    }

    pub fn list_from_value(v: &serde_json::Value) -> (r: Option<Vec<ContentBlock>>)
        ensures
            r is Some <==> ContentBlock::list_ok(json_model(*v)),
            r is Some ==> ContentBlock::list_read_from(r.unwrap()@, json_model(*v)),
    {
        let items = match value_items(v) {
            Some(items) => items,
            None => { return None; },
        };
        let ghost m = array_items(json_model(*v));
        let mut out: Vec<ContentBlock> = Vec::new();
        let mut i: usize = 0;
        while i < items.len()
            invariant
                i <= items@.len(),
                m == array_items(json_model(*v)),
                json_model(*v) is Array,
                items@.len() == m.len(),
                forall|j: int| 0 <= j < m.len() ==> json_model(#[trigger] items@[j]) == m[j],
                out@.len() == i,
                forall|j: int| 0 <= j < i ==> ContentBlock::ok(#[trigger] m[j]),
                forall|j: int| 0 <= j < i ==> (#[trigger] out@[j]).read_from(m[j]),
            decreases items@.len() - i,
        {
            match ContentBlock::from_value(&items[i]) {
                Some(x) => out.push(x),
                None => {
                    assert(!ContentBlock::ok(array_items(json_model(*v))[i as int]));
                    return None;
                },
            }
            i = i + 1;
        }
        Some(out)
    }
}

pub struct PromptContent {
    pub content_type: String,
    pub text: String,
}

impl PromptContent {
    pub fn text(text: &str) -> (r: PromptContent)
        ensures
            r.content_type@ == "text"@,
            r.text@ == text@,
    {
        PromptContent { content_type: String::from_str("text"), text: String::from_str(text) }
    }

    pub open spec fn model(self) -> JsonModel {
        object_of(Map::empty().insert("type"@, JsonModel::Str(self.content_type@)).insert("text"@, JsonModel::Str(self.text@)))
    }

    /// `{"type": ..., "text": ...}`.
    pub fn to_value(&self) -> (r: serde_json::Value)
        ensures
            json_model(r) == self.model(),
    {
        let mut obj = empty_object();
        set_member(&mut obj, String::from_str("type"), text_value(self.content_type.clone()));
        set_member(&mut obj, String::from_str("text"), text_value(self.text.clone()));
        obj
    }
}

pub enum ChunkContent {
    Text { text: String },
}

impl ChunkContent {
    pub fn get_text(&self) -> (r: Option<&String>)
        ensures
            r matches Some(t) && (self matches ChunkContent::Text { text } && t@ == text@),
    {
        match self {
            ChunkContent::Text { text } => Some(text),
        }
    }

    pub open spec fn text_spec(self) -> Seq<char> {
        match self {
            ChunkContent::Text { text } => text@,
        }
    }

    pub open spec fn ok(m: JsonModel) -> bool {
        is_object(m) && text_member(m, "type"@) == Some("text"@) && text_member(m, "text"@) is Some
    }

    pub open spec fn read_from(self, m: JsonModel) -> bool {
        text_member(m, "text"@) == Some(self.text_spec())
    }

    pub fn from_value(v: &serde_json::Value) -> (r: Option<ChunkContent>)
        ensures
            r is Some <==> ChunkContent::ok(json_model(*v)),
            r is Some ==> r.unwrap().read_from(json_model(*v)),
    {
        if !value_is_object(v) {
            return None;
        }
        let tag = match required_text(v, "type") {
            Some(t) => t,
            None => { return None; },
        };
        if !text_is(&tag, "text") {
            return None;
        }
        match required_text(v, "text") {
            Some(t) => Some(ChunkContent::Text { text: t }),
            None => None,
        }
    }
}

pub struct ContentChunk {
    pub content: ChunkContent,
}

impl ContentChunk {
    pub open spec fn ok(m: JsonModel) -> bool {
        member(m, "content"@) is Some && ChunkContent::ok(member(m, "content"@).unwrap())
    }

    pub open spec fn read_from(self, m: JsonModel) -> bool {
        self.content.read_from(member(m, "content"@).unwrap())
    }

    pub fn from_value(v: &serde_json::Value) -> (r: Option<ContentChunk>)
        ensures
            r is Some <==> (is_object(json_model(*v)) && ContentChunk::ok(json_model(*v))),
            r is Some ==> r.unwrap().read_from(json_model(*v)),
    {
        if !value_is_object(v) {
            return None;
        }
        match get_member(v, "content") {
            Some(c) => match ChunkContent::from_value(c) {
                Some(content) => Some(ContentChunk { content }),
                None => None,
            },
            None => None,
        }
    }
}

pub struct Command {
    pub name: String,
    pub description: Option<String>,
}

impl Command {
    pub open spec fn ok(m: JsonModel) -> bool {
        is_object(m) && text_member(m, "name"@) is Some && opt_text_ok(m, "description"@)
    }

    pub open spec fn read_from(self, m: JsonModel) -> bool {
        text_member(m, "name"@) == Some(self.name@) && text_view(self.description) == text_member(m, "description"@)
    }

    pub fn from_value(v: &serde_json::Value) -> (r: Option<Command>)
        ensures
            r is Some <==> Command::ok(json_model(*v)),
            r is Some ==> r.unwrap().read_from(json_model(*v)),
    {
        if !value_is_object(v) {
            return None;
        }
        let name = match required_text(v, "name") {
            Some(n) => n,
            None => { return None; },
        };
        match optional_text(v, "description") {
            Ok(description) => Some(Command { name, description }),
            Err(()) => None,
        }
    }

    pub open spec fn list_ok(m: JsonModel) -> bool {
        m is Array && forall|i: int| 0 <= i < array_items(m).len() ==> Command::ok(#[trigger] array_items(m)[i])
    }

    pub open spec fn list_read_from(xs: Seq<Command>, m: JsonModel) -> bool {
        xs.len() == array_items(m).len() && forall|i: int| 0 <= i < xs.len() ==> (#[trigger] xs[i]).read_from(array_items(m)[i])
    }

    pub fn list_from_value(v: &serde_json::Value) -> (r: Option<Vec<Command>>)
        ensures
            r is Some <==> Command::list_ok(json_model(*v)),
            r is Some ==> Command::list_read_from(r.unwrap()@, json_model(*v)),
    {
        let items = match value_items(v) {
            Some(items) => items,
            None => { return None; },
        };
        let ghost m = array_items(json_model(*v));
        let mut out: Vec<Command> = Vec::new();
        let mut i: usize = 0;
        while i < items.len()
            invariant
                i <= items@.len(),
                m == array_items(json_model(*v)),
                json_model(*v) is Array,
                items@.len() == m.len(),
                forall|j: int| 0 <= j < m.len() ==> json_model(#[trigger] items@[j]) == m[j],
                out@.len() == i,
                forall|j: int| 0 <= j < i ==> Command::ok(#[trigger] m[j]),
                forall|j: int| 0 <= j < i ==> (#[trigger] out@[j]).read_from(m[j]),
            decreases items@.len() - i,
        {
            match Command::from_value(&items[i]) {
                Some(x) => out.push(x),
                None => {
                    assert(!Command::ok(array_items(json_model(*v))[i as int]));
                    return None;
                },
            }
            i = i + 1;
        }
        Some(out)
    }
}

pub struct PlanEntry {
    pub id: String,
    pub title: String,
    pub status: PlanEntryStatus,
    pub priority: Option<PlanEntryPriority>,
}

impl PlanEntry {
    pub open spec fn ok(m: JsonModel) -> bool {
        &&& is_object(m)
        &&& text_member(m, "id"@) is Some
        &&& text_member(m, "title"@) is Some
        &&& member(m, "status"@) is Some && PlanEntryStatus::read(member(m, "status"@).unwrap()) is Some
        &&& (member_absent(m, "priority"@) || PlanEntryPriority::read(member(m, "priority"@).unwrap()) is Some)
    }

    pub open spec fn read_from(self, m: JsonModel) -> bool {
        &&& text_member(m, "id"@) == Some(self.id@)
        &&& text_member(m, "title"@) == Some(self.title@)
        &&& PlanEntryStatus::read(member(m, "status"@).unwrap()) == Some(self.status)
        &&& (match self.priority {
            Some(p) => !member_absent(m, "priority"@) && PlanEntryPriority::read(member(m, "priority"@).unwrap()) == Some(p),
            None => member_absent(m, "priority"@),
        })
    }

    pub fn from_value(v: &serde_json::Value) -> (r: Option<PlanEntry>)
        ensures
            r is Some <==> PlanEntry::ok(json_model(*v)),
            r is Some ==> r.unwrap().read_from(json_model(*v)),
    {
        if !value_is_object(v) {
            return None;
        }
        let id = match required_text(v, "id") {
            Some(x) => x,
            None => { return None; },
        };
        let title = match required_text(v, "title") {
            Some(x) => x,
            None => { return None; },
        };
        let status = match get_member(v, "status") {
            Some(x) => match PlanEntryStatus::from_value(x) {
                Some(st) => st,
                None => { return None; },
            },
            None => { return None; },
        };
        let priority = match optional_value(v, "priority") {
            None => None,
            Some(x) => match PlanEntryPriority::from_value(&x) {
                Some(p) => Some(p),
                None => { return None; },
            },
        };
        Some(PlanEntry { id, title, status, priority })
    }

    pub open spec fn list_ok(m: JsonModel) -> bool {
        m is Array && forall|i: int| 0 <= i < array_items(m).len() ==> PlanEntry::ok(#[trigger] array_items(m)[i])
    }

    pub open spec fn list_read_from(xs: Seq<PlanEntry>, m: JsonModel) -> bool {
        xs.len() == array_items(m).len() && forall|i: int| 0 <= i < xs.len() ==> (#[trigger] xs[i]).read_from(array_items(m)[i])
    }

    pub fn list_from_value(v: &serde_json::Value) -> (r: Option<Vec<PlanEntry>>)
        ensures
            r is Some <==> PlanEntry::list_ok(json_model(*v)),
            r is Some ==> PlanEntry::list_read_from(r.unwrap()@, json_model(*v)),
    {
        let items = match value_items(v) {
            Some(items) => items,
            None => { return None; },
        };
        let ghost m = array_items(json_model(*v));
        let mut out: Vec<PlanEntry> = Vec::new();
        let mut i: usize = 0;
        while i < items.len()
            invariant
                i <= items@.len(),
                m == array_items(json_model(*v)),
                json_model(*v) is Array,
                items@.len() == m.len(),
                forall|j: int| 0 <= j < m.len() ==> json_model(#[trigger] items@[j]) == m[j],
                out@.len() == i,
                forall|j: int| 0 <= j < i ==> PlanEntry::ok(#[trigger] m[j]),
                forall|j: int| 0 <= j < i ==> (#[trigger] out@[j]).read_from(m[j]),
            decreases items@.len() - i,
        {
            match PlanEntry::from_value(&items[i]) {
                Some(x) => out.push(x),
                None => {
                    assert(!PlanEntry::ok(array_items(json_model(*v))[i as int]));
                    return None;
                },
            }
            i = i + 1;
        }
        Some(out)
    }
}

pub struct PermissionOption {
    pub option_id: String,
    pub name: String,
    pub kind: PermissionOptionKind,
    pub description: Option<String>,
}

impl PermissionOption {
    pub open spec fn ok(m: JsonModel) -> bool {
        &&& is_object(m)
        &&& text_member(m, "optionId"@) is Some
        &&& text_member(m, "name"@) is Some
        &&& member(m, "kind"@) is Some && PermissionOptionKind::read(member(m, "kind"@).unwrap()) is Some
        &&& opt_text_ok(m, "description"@)
    }

    pub open spec fn read_from(self, m: JsonModel) -> bool {
        &&& text_member(m, "optionId"@) == Some(self.option_id@)
        &&& text_member(m, "name"@) == Some(self.name@)
        &&& PermissionOptionKind::read(member(m, "kind"@).unwrap()) == Some(self.kind)
        &&& text_view(self.description) == text_member(m, "description"@)
    }

    pub open spec fn model(&self) -> JsonModel {
        let base = Map::empty().insert("optionId"@, JsonModel::Str(self.option_id@)).insert("name"@, JsonModel::Str(self.name@))
            .insert("kind"@, JsonModel::Str(self.kind.name_spec()));
        object_of(match self.description {
            Some(d) => base.insert("description"@, JsonModel::Str(d@)),
            None => base,
        })
    }

    /// `{"optionId": ..., "name": ..., "kind": ..., "description": ...}`,
    /// without a description when there is none.
    pub fn to_value(&self) -> (r: serde_json::Value)
        ensures
            json_model(r) == self.model(),
    {
        let mut obj = empty_object();
        set_member(&mut obj, String::from_str("optionId"), text_value(self.option_id.clone()));
        set_member(&mut obj, String::from_str("name"), text_value(self.name.clone()));
        set_member(&mut obj, String::from_str("kind"), text_value(String::from_str(self.kind.name())));
        match &self.description {
            Some(d) => set_member(&mut obj, String::from_str("description"), text_value(d.clone())),
            None => {},
        }
        obj
    }

    pub fn from_value(v: &serde_json::Value) -> (r: Option<PermissionOption>)
        ensures
            r is Some <==> PermissionOption::ok(json_model(*v)),
            r is Some ==> r.unwrap().read_from(json_model(*v)),
    {
        if !value_is_object(v) {
            return None;
        }
        let option_id = match required_text(v, "optionId") {
            Some(x) => x,
            None => { return None; },
        };
        let name = match required_text(v, "name") {
            Some(x) => x,
            None => { return None; },
        };
        let kind = match get_member(v, "kind") {
            Some(x) => match PermissionOptionKind::from_value(x) {
                Some(k) => k,
                None => { return None; },
            },
            None => { return None; },
        };
        match optional_text(v, "description") {
            Ok(description) => Some(PermissionOption { option_id, name, kind, description }),
            Err(()) => None,
        }
    }

    pub open spec fn list_ok(m: JsonModel) -> bool {
        m is Array && forall|i: int| 0 <= i < array_items(m).len() ==> PermissionOption::ok(#[trigger] array_items(m)[i])
    }

    pub open spec fn list_read_from(xs: Seq<PermissionOption>, m: JsonModel) -> bool {
        xs.len() == array_items(m).len() && forall|i: int| 0 <= i < xs.len() ==> (#[trigger] xs[i]).read_from(array_items(m)[i])
    }

    pub fn list_from_value(v: &serde_json::Value) -> (r: Option<Vec<PermissionOption>>)
        ensures
            r is Some <==> PermissionOption::list_ok(json_model(*v)),
            r is Some ==> PermissionOption::list_read_from(r.unwrap()@, json_model(*v)),
    {
        let items = match value_items(v) {
            Some(items) => items,
            None => { return None; },
        };
        let ghost m = array_items(json_model(*v));
        let mut out: Vec<PermissionOption> = Vec::new();
        let mut i: usize = 0;
        while i < items.len()
            invariant
                i <= items@.len(),
                m == array_items(json_model(*v)),
                json_model(*v) is Array,
                items@.len() == m.len(),
                forall|j: int| 0 <= j < m.len() ==> json_model(#[trigger] items@[j]) == m[j],
                out@.len() == i,
                forall|j: int| 0 <= j < i ==> PermissionOption::ok(#[trigger] m[j]),
                forall|j: int| 0 <= j < i ==> (#[trigger] out@[j]).read_from(m[j]),
            decreases items@.len() - i,
        {
            match PermissionOption::from_value(&items[i]) {
                Some(x) => out.push(x),
                None => {
                    assert(!PermissionOption::ok(array_items(json_model(*v))[i as int]));
                    return None;
                },
            }
            i = i + 1;
        }
        Some(out)
    }
}

// ---------------------------------------------------------------------------
// Tool calls
// ---------------------------------------------------------------------------

pub struct ToolCall {
    /// Unique identifier for this tool call
    pub tool_call_id: String,
    /// Human-readable title describing what the tool is doing
    pub title: String,
    /// The category of tool being invoked
    pub kind: Option<String>,
    /// Current execution status
    pub status: ToolCallStatus,
    /// Content produced by the tool call
    pub content: Option<Vec<ContentBlock>>,
    /// File locations affected by this tool call
    pub locations: Option<Vec<FileLocation>>,
    /// Raw input parameters
    pub raw_input: Option<serde_json::Value>,
    /// Raw output from the tool
    pub raw_output: Option<serde_json::Value>,
}

impl ToolCall {
    pub open spec fn ok(m: JsonModel) -> bool {
        &&& is_object(m)
        &&& text_member(m, "toolCallId"@) is Some
        &&& text_member(m, "title"@) is Some
        &&& opt_text_ok(m, "kind"@)
        &&& member(m, "status"@) is Some && ToolCallStatus::read(member(m, "status"@).unwrap()) is Some
        &&& (member_absent(m, "content"@) || ContentBlock::list_ok(member(m, "content"@).unwrap()))
        &&& (member_absent(m, "locations"@) || FileLocation::list_ok(member(m, "locations"@).unwrap()))
    }

    pub open spec fn read_from(self, m: JsonModel) -> bool {
        &&& text_member(m, "toolCallId"@) == Some(self.tool_call_id@)
        &&& text_member(m, "title"@) == Some(self.title@)
        &&& text_view(self.kind) == text_member(m, "kind"@)
        &&& ToolCallStatus::read(member(m, "status"@).unwrap()) == Some(self.status)
        &&& (match self.content {
            Some(xs) => !member_absent(m, "content"@) && ContentBlock::list_read_from(xs@, member(m, "content"@).unwrap()),
            None => member_absent(m, "content"@),
        })
        &&& (match self.locations {
            Some(xs) => !member_absent(m, "locations"@) && FileLocation::list_read_from(xs@, member(m, "locations"@).unwrap()),
            None => member_absent(m, "locations"@),
        })
        &&& value_view(self.raw_input) == member_value(m, "rawInput"@)
        &&& value_view(self.raw_output) == member_value(m, "rawOutput"@)
    }

    pub fn from_value(v: &serde_json::Value) -> (r: Option<ToolCall>)
        ensures
            r is Some <==> ToolCall::ok(json_model(*v)),
            r is Some ==> r.unwrap().read_from(json_model(*v)),
    {
        if !value_is_object(v) {
            return None;
        }
        let tool_call_id = match required_text(v, "toolCallId") {
            Some(x) => x,
            None => { return None; },
        };
        let title = match required_text(v, "title") {
            Some(x) => x,
            None => { return None; },
        };
        let kind = match optional_text(v, "kind") {
            Ok(k) => k,
            Err(()) => { return None; },
        };
        let status = match get_member(v, "status") {
            Some(x) => match ToolCallStatus::from_value(x) {
                Some(st) => st,
                None => { return None; },
            },
            None => { return None; },
        };
        let content = match optional_value(v, "content") {
            None => None,
            Some(x) => match ContentBlock::list_from_value(&x) {
                Some(xs) => Some(xs),
                None => { return None; },
            },
        };
        let locations = match optional_value(v, "locations") {
            None => None,
            Some(x) => match FileLocation::list_from_value(&x) {
                Some(xs) => Some(xs),
                None => { return None; },
            },
        };
        Some(ToolCall {
            tool_call_id,
            title,
            kind,
            status,
            content,
            locations,
            raw_input: optional_value(v, "rawInput"),
            raw_output: optional_value(v, "rawOutput"),
        })
    }
}

pub struct ToolCallUpdate {
    /// The tool call being updated
    pub tool_call_id: String,
    /// Updated title
    pub title: Option<String>,
    /// Updated status
    pub status: Option<ToolCallStatus>,
    /// Updated content
    pub content: Option<Vec<ContentBlock>>,
    /// Updated locations
    pub locations: Option<Vec<FileLocation>>,
    /// Updated raw output
    pub raw_output: Option<serde_json::Value>,
}

impl ToolCallUpdate {
    pub open spec fn ok(m: JsonModel) -> bool {
        &&& is_object(m)
        &&& text_member(m, "toolCallId"@) is Some
        &&& opt_text_ok(m, "title"@)
        &&& (member_absent(m, "status"@) || ToolCallStatus::read(member(m, "status"@).unwrap()) is Some)
        &&& (member_absent(m, "content"@) || ContentBlock::list_ok(member(m, "content"@).unwrap()))
        &&& (member_absent(m, "locations"@) || FileLocation::list_ok(member(m, "locations"@).unwrap()))
    }

    pub open spec fn read_from(self, m: JsonModel) -> bool {
        &&& text_member(m, "toolCallId"@) == Some(self.tool_call_id@)
        &&& text_view(self.title) == text_member(m, "title"@)
        &&& (match self.status {
            Some(st) => !member_absent(m, "status"@) && ToolCallStatus::read(member(m, "status"@).unwrap()) == Some(st),
            None => member_absent(m, "status"@),
        })
        &&& (match self.content {
            Some(xs) => !member_absent(m, "content"@) && ContentBlock::list_read_from(xs@, member(m, "content"@).unwrap()),
            None => member_absent(m, "content"@),
        })
        &&& (match self.locations {
            Some(xs) => !member_absent(m, "locations"@) && FileLocation::list_read_from(xs@, member(m, "locations"@).unwrap()),
            None => member_absent(m, "locations"@),
        })
        &&& value_view(self.raw_output) == member_value(m, "rawOutput"@)
    }

    pub fn from_value(v: &serde_json::Value) -> (r: Option<ToolCallUpdate>)
        ensures
            r is Some <==> ToolCallUpdate::ok(json_model(*v)),
            r is Some ==> r.unwrap().read_from(json_model(*v)),
    {
        if !value_is_object(v) {
            return None;
        }
        let tool_call_id = match required_text(v, "toolCallId") {
            Some(x) => x,
            None => { return None; },
        };
        let title = match optional_text(v, "title") {
            Ok(t) => t,
            Err(()) => { return None; },
        };
        let status = match optional_value(v, "status") {
            None => None,
            Some(x) => match ToolCallStatus::from_value(&x) {
                Some(st) => Some(st),
                None => { return None; },
            },
        };
        let content = match optional_value(v, "content") {
            None => None,
            Some(x) => match ContentBlock::list_from_value(&x) {
                Some(xs) => Some(xs),
                None => { return None; },
            },
        };
        let locations = match optional_value(v, "locations") {
            None => None,
            Some(x) => match FileLocation::list_from_value(&x) {
                Some(xs) => Some(xs),
                None => { return None; },
            },
        };
        Some(ToolCallUpdate { tool_call_id, title, status, content, locations, raw_output: optional_value(v, "rawOutput") })
    }
}

// ---------------------------------------------------------------------------
// Session updates
// ---------------------------------------------------------------------------

pub struct Plan {
    pub entries: Vec<PlanEntry>,
}

pub struct AvailableCommandsUpdate {
    pub commands: Vec<Command>,
}

pub struct CurrentModeUpdate {
    pub mode: String,
}

/// Different kinds of session updates, told apart by the `type` member.
pub enum SessionUpdate {
    /// A chunk of the user's message being streamed
    UserMessageChunk(ContentChunk),
    /// A chunk of the agent's response being streamed
    AgentMessageChunk(ContentChunk),
    /// A chunk of the agent's internal reasoning being streamed
    AgentThoughtChunk(ContentChunk),
    /// Notification that a new tool call has been initiated
    ToolCall(ToolCall),
    /// Update on the status or results of a tool call
    ToolCallUpdate(ToolCallUpdate),
    /// The agent's execution plan for complex tasks
    Plan(Plan),
    /// Available commands are ready or have changed
    AvailableCommandsUpdate(AvailableCommandsUpdate),
    /// The current mode of the session has changed
    CurrentModeUpdate(CurrentModeUpdate),
}

pub open spec fn tag_is(m: JsonModel, name: Seq<char>) -> bool {
    text_member(m, "type"@) == Some(name)
}

impl SessionUpdate {
    pub open spec fn ok(m: JsonModel) -> bool {
        is_object(m) && (if tag_is(m, "user_message_chunk"@) || tag_is(m, "agent_message_chunk"@) || tag_is(
            m,
            "agent_thought_chunk"@,
        ) {
            ContentChunk::ok(m)
        } else if tag_is(m, "tool_call"@) {
            ToolCall::ok(m)
        } else if tag_is(m, "tool_call_update"@) {
            ToolCallUpdate::ok(m)
        } else if tag_is(m, "plan"@) {
            member(m, "entries"@) is Some && PlanEntry::list_ok(member(m, "entries"@).unwrap())
        } else if tag_is(m, "available_commands_update"@) {
            member(m, "commands"@) is Some && Command::list_ok(member(m, "commands"@).unwrap())
        } else if tag_is(m, "current_mode_update"@) {
            text_member(m, "mode"@) is Some
        } else {
            false
        })
    }

    pub open spec fn read_from(self, m: JsonModel) -> bool {
        match self {
            SessionUpdate::UserMessageChunk(c) => tag_is(m, "user_message_chunk"@) && c.read_from(m),
            SessionUpdate::AgentMessageChunk(c) => tag_is(m, "agent_message_chunk"@) && c.read_from(m),
            SessionUpdate::AgentThoughtChunk(c) => tag_is(m, "agent_thought_chunk"@) && c.read_from(m),
            SessionUpdate::ToolCall(tc) => tag_is(m, "tool_call"@) && tc.read_from(m),
            SessionUpdate::ToolCallUpdate(tcu) => tag_is(m, "tool_call_update"@) && tcu.read_from(m),
            SessionUpdate::Plan(p) => tag_is(m, "plan"@) && PlanEntry::list_read_from(
                p.entries@,
                member(m, "entries"@).unwrap(),
            ),
            SessionUpdate::AvailableCommandsUpdate(c) => tag_is(m, "available_commands_update"@)
                && Command::list_read_from(c.commands@, member(m, "commands"@).unwrap()),
            SessionUpdate::CurrentModeUpdate(c) => tag_is(m, "current_mode_update"@) && text_member(m, "mode"@)
                == Some(c.mode@),
        }
    }

    pub fn from_value(v: &serde_json::Value) -> (r: Option<SessionUpdate>)
        ensures
            r is Some <==> SessionUpdate::ok(json_model(*v)),
            r is Some ==> r.unwrap().read_from(json_model(*v)),
    {
        if !value_is_object(v) {
            return None;
        }
        let tag = match required_text(v, "type") {
            Some(t) => t,
            None => { return None; },
        };
        if text_is(&tag, "user_message_chunk") {
            match ContentChunk::from_value(v) {
                Some(c) => Some(SessionUpdate::UserMessageChunk(c)),
                None => None,
            }
        } else if text_is(&tag, "agent_message_chunk") {
            match ContentChunk::from_value(v) {
                Some(c) => Some(SessionUpdate::AgentMessageChunk(c)),
                None => None,
            }
        } else if text_is(&tag, "agent_thought_chunk") {
            match ContentChunk::from_value(v) {
                Some(c) => Some(SessionUpdate::AgentThoughtChunk(c)),
                None => None,
            }
        } else if text_is(&tag, "tool_call") {
            match ToolCall::from_value(v) {
                Some(tc) => Some(SessionUpdate::ToolCall(tc)),
                None => None,
            }
        } else if text_is(&tag, "tool_call_update") {
            match ToolCallUpdate::from_value(v) {
                Some(tcu) => Some(SessionUpdate::ToolCallUpdate(tcu)),
                None => None,
            }
        } else if text_is(&tag, "plan") {
            match get_member(v, "entries") {
                Some(e) => match PlanEntry::list_from_value(e) {
                    Some(entries) => Some(SessionUpdate::Plan(Plan { entries })),
                    None => None,
                },
                None => None,
            }
        } else if text_is(&tag, "available_commands_update") {
            match get_member(v, "commands") {
                Some(c) => match Command::list_from_value(c) {
                    Some(commands) => Some(SessionUpdate::AvailableCommandsUpdate(AvailableCommandsUpdate { commands })),
                    None => None,
                },
                None => None,
            }
        } else if text_is(&tag, "current_mode_update") {
            match required_text(v, "mode") {
                Some(mode) => Some(SessionUpdate::CurrentModeUpdate(CurrentModeUpdate { mode })),
                None => None,
            }
        } else {
            None
        }
    }

    /// The update is a tool call, or a tool-call update, whose status is
    /// `Pending`: the agent waits for a decision.
    pub open spec fn needs_input_spec(self) -> bool {
        match self {
            SessionUpdate::ToolCall(tc) => tc.status == ToolCallStatus::Pending,
            SessionUpdate::ToolCallUpdate(tcu) => tcu.status == Some(ToolCallStatus::Pending),
            _ => false,
        }
    }

    /// Check if this update indicates the agent needs user input
    pub fn needs_user_input(&self) -> (r: bool)
        ensures
            r == self.needs_input_spec(),
    {
        match self {
            SessionUpdate::ToolCall(tc) => tc.status == ToolCallStatus::Pending,
            SessionUpdate::ToolCallUpdate(tcu) => match tcu.status {
                Some(st) => st == ToolCallStatus::Pending,
                None => false,
            },
            _ => false,
        }
    }

    /// The streamed text of a chunk; other kinds carry none.
    pub open spec fn text_spec(self) -> Option<Seq<char>> {
        match self {
            SessionUpdate::AgentMessageChunk(c) => Some(c.content.text_spec()),
            SessionUpdate::AgentThoughtChunk(c) => Some(c.content.text_spec()),
            SessionUpdate::UserMessageChunk(c) => Some(c.content.text_spec()),
            _ => None,
        }
    }

    /// Get text content if this is a message chunk
    pub fn get_text(&self) -> (r: Option<&String>)
        ensures
            match self.text_spec() {
                Some(t) => r matches Some(x) && x@ == t,
                None => r is None,
            },
    {
        match self {
            SessionUpdate::AgentMessageChunk(chunk) => chunk.content.get_text(),
            SessionUpdate::AgentThoughtChunk(chunk) => chunk.content.get_text(),
            SessionUpdate::UserMessageChunk(chunk) => chunk.content.get_text(),
            _ => None,
        }
    }

    /// Get the id and title if this is a tool-related update; a missing title
    /// reads as empty.
    pub fn get_tool_info(&self) -> (r: Option<(&str, &str)>)
        ensures
            match self {
                SessionUpdate::ToolCall(tc) => r matches Some((i, t)) && i@ == tc.tool_call_id@ && t@ == tc.title@,
                SessionUpdate::ToolCallUpdate(tcu) => r matches Some((i, t)) && i@ == tcu.tool_call_id@ && t@
                    == match tcu.title {
                    Some(x) => x@,
                    None => Seq::empty(),
                },
                _ => r is None,
            },
    {
        match self {
            SessionUpdate::ToolCall(tc) => Some((tc.tool_call_id.as_str(), tc.title.as_str())),
            SessionUpdate::ToolCallUpdate(tcu) => {
                let title: &str = match &tcu.title {
                    Some(t) => t.as_str(),
                    None => {
                        proof {
                            reveal_strlit("");
                        }
                        ""
                    },
                };
                Some((tcu.tool_call_id.as_str(), title))
            },
            _ => None,
        }
    }

    /// The name of the update's kind, as its `type` member writes it.
    pub open spec fn kind_name(self) -> Seq<char> {
        match self {
            SessionUpdate::AgentMessageChunk(_) => "agent_message_chunk"@,
            SessionUpdate::AgentThoughtChunk(_) => "agent_thought_chunk"@,
            SessionUpdate::UserMessageChunk(_) => "user_message_chunk"@,
            SessionUpdate::ToolCall(_) => "tool_call"@,
            SessionUpdate::ToolCallUpdate(_) => "tool_call_update"@,
            SessionUpdate::Plan(_) => "plan"@,
            SessionUpdate::AvailableCommandsUpdate(_) => "available_commands_update"@,
            SessionUpdate::CurrentModeUpdate(_) => "current_mode_update"@,
        }
    }

    pub fn update_type(&self) -> (r: &'static str)
        ensures
            r@ == self.kind_name(),
    {
        match self {
            SessionUpdate::AgentMessageChunk(_) => "agent_message_chunk",
            SessionUpdate::AgentThoughtChunk(_) => "agent_thought_chunk",
            SessionUpdate::UserMessageChunk(_) => "user_message_chunk",
            SessionUpdate::ToolCall(_) => "tool_call",
            SessionUpdate::ToolCallUpdate(_) => "tool_call_update",
            SessionUpdate::Plan(_) => "plan",
            SessionUpdate::AvailableCommandsUpdate(_) => "available_commands_update",
            SessionUpdate::CurrentModeUpdate(_) => "current_mode_update",
        }
    }
}

/// Params of a `session/update` notification.
pub struct SessionUpdateNotification {
    pub session_id: String,
    pub update: SessionUpdate,
}

impl SessionUpdateNotification {
    pub open spec fn ok(m: JsonModel) -> bool {
        is_object(m) && text_member(m, "sessionId"@) is Some && member(m, "update"@) is Some && SessionUpdate::ok(
            member(m, "update"@).unwrap(),
        )
    }

    pub open spec fn read_from(self, m: JsonModel) -> bool {
        text_member(m, "sessionId"@) == Some(self.session_id@) && self.update.read_from(member(m, "update"@).unwrap())
    }

    pub fn from_value(v: &serde_json::Value) -> (r: Option<SessionUpdateNotification>)
        ensures
            r is Some <==> SessionUpdateNotification::ok(json_model(*v)),
            r is Some ==> r.unwrap().read_from(json_model(*v)),
    {
        if !value_is_object(v) {
            return None;
        }
        let session_id = match required_text(v, "sessionId") {
            Some(x) => x,
            None => { return None; },
        };
        match get_member(v, "update") {
            Some(u) => match SessionUpdate::from_value(u) {
                Some(update) => Some(SessionUpdateNotification { session_id, update }),
                None => None,
            },
            None => None,
        }
    }
}

// ---------------------------------------------------------------------------
// Legacy, string-tagged updates
// ---------------------------------------------------------------------------

pub struct LegacyUpdateContent {
    pub content_type: String,
    pub text: Option<String>,
}

impl LegacyUpdateContent {
    pub open spec fn ok(m: JsonModel) -> bool {
        is_object(m) && text_member(m, "type"@) is Some && opt_text_ok(m, "text"@)
    }

    pub open spec fn read_from(self, m: JsonModel) -> bool {
        text_member(m, "type"@) == Some(self.content_type@) && text_view(self.text) == text_member(m, "text"@)
    }

    pub fn from_value(v: &serde_json::Value) -> (r: Option<LegacyUpdateContent>)
        ensures
            r is Some <==> LegacyUpdateContent::ok(json_model(*v)),
            r is Some ==> r.unwrap().read_from(json_model(*v)),
    {
        if !value_is_object(v) {
            return None;
        }
        let content_type = match required_text(v, "type") {
            Some(x) => x,
            None => { return None; },
        };
        match optional_text(v, "text") {
            Ok(text) => Some(LegacyUpdateContent { content_type, text }),
            Err(()) => None,
        }
    }
}

/// Legacy session update format (string-based type)
pub struct LegacySessionUpdate {
    pub session_update: String,
    pub content: Option<LegacyUpdateContent>,
    pub tool_use_id: Option<String>,
    pub name: Option<String>,
    pub input: Option<serde_json::Value>,
}

impl LegacySessionUpdate {
    pub open spec fn ok(m: JsonModel) -> bool {
        &&& is_object(m)
        &&& text_member(m, "sessionUpdate"@) is Some
        &&& (member_absent(m, "content"@) || LegacyUpdateContent::ok(member(m, "content"@).unwrap()))
        &&& opt_text_ok(m, "toolUseId"@)
        &&& opt_text_ok(m, "name"@)
    }

    pub open spec fn read_from(self, m: JsonModel) -> bool {
        &&& text_member(m, "sessionUpdate"@) == Some(self.session_update@)
        &&& (match self.content {
            Some(c) => !member_absent(m, "content"@) && c.read_from(member(m, "content"@).unwrap()),
            None => member_absent(m, "content"@),
        })
        &&& text_view(self.tool_use_id) == text_member(m, "toolUseId"@)
        &&& text_view(self.name) == text_member(m, "name"@)
        &&& value_view(self.input) == member_value(m, "input"@)
    }

    pub fn from_value(v: &serde_json::Value) -> (r: Option<LegacySessionUpdate>)
        ensures
            r is Some <==> LegacySessionUpdate::ok(json_model(*v)),
            r is Some ==> r.unwrap().read_from(json_model(*v)),
    {
        if !value_is_object(v) {
            return None;
        }
        let session_update = match required_text(v, "sessionUpdate") {
            Some(x) => x,
            None => { return None; },
        };
        let content = match optional_value(v, "content") {
            None => None,
            Some(x) => match LegacyUpdateContent::from_value(&x) {
                Some(c) => Some(c),
                None => { return None; },
            },
        };
        let tool_use_id = match optional_text(v, "toolUseId") {
            Ok(x) => x,
            Err(()) => { return None; },
        };
        let name = match optional_text(v, "name") {
            Ok(x) => x,
            Err(()) => { return None; },
        };
        Some(LegacySessionUpdate { session_update, content, tool_use_id, name, input: optional_value(v, "input") })
    }
}

/// Legacy notification format
pub struct LegacySessionUpdateNotification {
    pub session_id: String,
    pub update: LegacySessionUpdate,
}

impl LegacySessionUpdateNotification {
    pub open spec fn ok(m: JsonModel) -> bool {
        is_object(m) && text_member(m, "sessionId"@) is Some && member(m, "update"@) is Some
            && LegacySessionUpdate::ok(member(m, "update"@).unwrap())
    }

    pub open spec fn read_from(self, m: JsonModel) -> bool {
        text_member(m, "sessionId"@) == Some(self.session_id@) && self.update.read_from(member(m, "update"@).unwrap())
    }

    pub fn from_value(v: &serde_json::Value) -> (r: Option<LegacySessionUpdateNotification>)
        ensures
            r is Some <==> LegacySessionUpdateNotification::ok(json_model(*v)),
            r is Some ==> r.unwrap().read_from(json_model(*v)),
    {
        if !value_is_object(v) {
            return None;
        }
        let session_id = match required_text(v, "sessionId") {
            Some(x) => x,
            None => { return None; },
        };
        match get_member(v, "update") {
            Some(u) => match LegacySessionUpdate::from_value(u) {
                Some(update) => Some(LegacySessionUpdateNotification { session_id, update }),
                None => None,
            },
            None => None,
        }
    }
}

// ---------------------------------------------------------------------------
// Permission requests and responses
// ---------------------------------------------------------------------------

/// Request from the agent asking for permission to execute a tool
pub struct RequestPermissionRequest {
    pub session_id: String,
    /// The tool call that needs permission
    pub tool_call: ToolCallUpdate,
    /// Options to present to the user
    pub options: Vec<PermissionOption>,
}

impl RequestPermissionRequest {
    pub open spec fn ok(m: JsonModel) -> bool {
        &&& is_object(m)
        &&& text_member(m, "sessionId"@) is Some
        &&& member(m, "toolCall"@) is Some && ToolCallUpdate::ok(member(m, "toolCall"@).unwrap())
        &&& member(m, "options"@) is Some && PermissionOption::list_ok(member(m, "options"@).unwrap())
    }

    pub open spec fn read_from(self, m: JsonModel) -> bool {
        &&& text_member(m, "sessionId"@) == Some(self.session_id@)
        &&& self.tool_call.read_from(member(m, "toolCall"@).unwrap())
        &&& PermissionOption::list_read_from(self.options@, member(m, "options"@).unwrap())
    }

    pub fn from_value(v: &serde_json::Value) -> (r: Option<RequestPermissionRequest>)
        ensures
            r is Some <==> RequestPermissionRequest::ok(json_model(*v)),
            r is Some ==> r.unwrap().read_from(json_model(*v)),
    {
        if !value_is_object(v) {
            return None;
        }
        let session_id = match required_text(v, "sessionId") {
            Some(x) => x,
            None => { return None; },
        };
        let tool_call = match get_member(v, "toolCall") {
            Some(t) => match ToolCallUpdate::from_value(t) {
                Some(tc) => tc,
                None => { return None; },
            },
            None => { return None; },
        };
        match get_member(v, "options") {
            Some(o) => match PermissionOption::list_from_value(o) {
                Some(options) => Some(RequestPermissionRequest { session_id, tool_call, options }),
                None => None,
            },
            None => None,
        }
    }
}

/// The decision sent back for a permission request.
pub enum PermissionOutcomeValue {
    Selected { option_id: String },
    Cancelled,
}

/// Response to `session/request_permission`:
/// `{"outcome": {"outcome": "selected", "optionId": ...}}` or
/// `{"outcome": {"outcome": "cancelled"}}`.
pub struct RequestPermissionResponse {
    pub outcome: PermissionOutcomeValue,
}

impl RequestPermissionResponse {
    pub fn selected(option_id: String) -> (r: Self)
        ensures
            r.outcome matches PermissionOutcomeValue::Selected { option_id: o } && o@ == option_id@,
    {
        RequestPermissionResponse { outcome: PermissionOutcomeValue::Selected { option_id } }
    }

    pub fn cancelled() -> (r: Self)
        ensures
            r.outcome is Cancelled,
    {
        RequestPermissionResponse { outcome: PermissionOutcomeValue::Cancelled }
    }

    /// Reads a response: an `outcome` object tagged `selected` (with an
    /// `optionId`) or `cancelled`.
    pub open spec fn read(m: JsonModel) -> Option<Option<Seq<char>>> {
        match member(m, "outcome"@) {
            Some(o) => if is_object(m) && is_object(o) && text_member(o, "outcome"@) == Some("selected"@) {
                match text_member(o, "optionId"@) {
                    Some(id) => Some(Some(id)),
                    None => None,
                }
            } else if is_object(m) && is_object(o) && text_member(o, "outcome"@) == Some("cancelled"@) {
                Some(None)
            } else {
                None
            },
            None => None,
        }
    }

    pub fn from_value(v: &serde_json::Value) -> (r: Option<RequestPermissionResponse>)
        ensures
            match RequestPermissionResponse::read(json_model(*v)) {
                Some(choice) => r matches Some(x) && crate::permission::outcome_view(x) == choice,
                None => r is None,
            },
    {
        if !value_is_object(v) {
            return None;
        }
        let o = match get_member(v, "outcome") {
            Some(o) => o,
            None => { return None; },
        };
        if !value_is_object(o) {
            return None;
        }
        let tag = match required_text(o, "outcome") {
            Some(t) => t,
            None => { return None; },
        };
        if text_is(&tag, "selected") {
            match required_text(o, "optionId") {
                Some(id) => Some(RequestPermissionResponse::selected(id)),
                None => None,
            }
        } else if text_is(&tag, "cancelled") {
            Some(RequestPermissionResponse::cancelled())
        } else {
            None
        }
    }

    pub open spec fn model(&self) -> JsonModel {
        let inner = match self.outcome {
            PermissionOutcomeValue::Selected { option_id } => Map::empty().insert("outcome"@, JsonModel::Str("selected"@))
                .insert("optionId"@, JsonModel::Str(option_id@)),
            PermissionOutcomeValue::Cancelled => Map::empty().insert("outcome"@, JsonModel::Str("cancelled"@)),
        };
        object_of(Map::empty().insert("outcome"@, object_of(inner)))
    }

    pub fn to_value(&self) -> (r: serde_json::Value)
        ensures
            json_model(r) == self.model(),
    {
        let mut inner = empty_object();
        match &self.outcome {
            PermissionOutcomeValue::Selected { option_id } => {
                set_member(&mut inner, String::from_str("outcome"), text_value(String::from_str("selected")));
                set_member(&mut inner, String::from_str("optionId"), text_value(option_id.clone()));
            },
            PermissionOutcomeValue::Cancelled => {
                set_member(&mut inner, String::from_str("outcome"), text_value(String::from_str("cancelled")));
            },
        }
        let mut obj = empty_object();
        set_member(&mut obj, String::from_str("outcome"), inner);
        obj
    }
}

/// An earlier response shape, which selects by option kind.
pub struct LegacyRequestPermissionResponse {
    pub outcome: PermissionOutcome,
}

pub enum PermissionOutcome {
    SelectedPermissionOutcome { selected_option: PermissionOptionKind },
}

// ---------------------------------------------------------------------------
// The host's requests: initialize, authentication, session, prompt
// ---------------------------------------------------------------------------

pub struct ClientInfo {
    pub name: String,
    pub version: String,
}

pub struct InitializeParams {
    pub protocol_version: i32,
    pub client_capabilities: Option<serde_json::Value>,
    pub client_info: Option<ClientInfo>,
}

/// The capabilities the host announces: it reads and writes text files.
pub open spec fn host_capabilities() -> JsonModel {
    let fs = Map::empty().insert("readTextFile"@, JsonModel::Bool(true)).insert("writeTextFile"@, JsonModel::Bool(true));
    object_of(Map::empty().insert("fs"@, object_of(fs)))
}

impl InitializeParams {
    /// Protocol version 1, file-system capabilities, and the host's name and
    /// version.
    pub fn new() -> (r: Self)
        ensures
            r.protocol_version == 1,
            r.client_capabilities matches Some(c) && json_model(c) == host_capabilities(),
            r.client_info matches Some(ci) && ci.name@ == "ACPtorio"@ && ci.version@ == "0.1.0"@,
    {
        let mut fs = empty_object();
        set_member(&mut fs, String::from_str("readTextFile"), bool_value(true));
        set_member(&mut fs, String::from_str("writeTextFile"), bool_value(true));
        let mut caps = empty_object();
        set_member(&mut caps, String::from_str("fs"), fs);
        InitializeParams {
            protocol_version: 1,
            client_capabilities: Some(caps),
            client_info: Some(ClientInfo { name: String::from_str("ACPtorio"), version: String::from_str("0.1.0") }),
        }
    }

    pub open spec fn model(&self) -> JsonModel {
        let base = Map::empty().insert("protocolVersion"@, JsonModel::Int(self.protocol_version as int));
        let with_caps = match self.client_capabilities {
            Some(c) => base.insert("clientCapabilities"@, json_model(c)),
            None => base,
        };
        object_of(match self.client_info {
            Some(ci) => with_caps.insert(
                "clientInfo"@,
                object_of(Map::empty().insert("name"@, JsonModel::Str(ci.name@)).insert("version"@, JsonModel::Str(ci.version@))),
            ),
            None => with_caps,
        })
    }

    /// `{"protocolVersion": ..., "clientCapabilities": ..., "clientInfo": ...}`,
    /// leaving out what is absent.
    pub fn to_value(&self) -> (r: serde_json::Value)
        ensures
            json_model(r) == self.model(),
    {
        let mut obj = empty_object();
        set_member(&mut obj, String::from_str("protocolVersion"), int_value(self.protocol_version as i64));
        match &self.client_capabilities {
            Some(c) => set_member(&mut obj, String::from_str("clientCapabilities"), crate::json::copy_value(c)),
            None => {},
        }
        match &self.client_info {
            Some(ci) => {
                let mut info = empty_object();
                set_member(&mut info, String::from_str("name"), text_value(ci.name.clone()));
                set_member(&mut info, String::from_str("version"), text_value(ci.version.clone()));
                set_member(&mut obj, String::from_str("clientInfo"), info);
            },
            None => {},
        }
        obj
    }
}

pub struct AuthMethod {
    pub id: String,
    pub name: String,
    pub description: Option<String>,
}

pub struct AuthStartParams {
    pub auth_method_id: String,
}

pub struct AuthStartResult {
    /// URL to open in browser for OAuth flow
    pub url: Option<String>,
    /// Instructions to display to user
    pub message: Option<String>,
    /// Whether auth completed immediately (e.g., API key already set)
    pub completed: bool,
}

pub struct SessionNewParams {
    pub cwd: String,
    pub mcp_servers: Vec<serde_json::Value>,
}

pub open spec fn models_of(vs: Seq<serde_json::Value>) -> Seq<JsonModel> {
    vs.map_values(|x: serde_json::Value| json_model(x))
}

impl SessionNewParams {
    pub open spec fn model(&self) -> JsonModel {
        object_of(Map::empty().insert("cwd"@, JsonModel::Str(self.cwd@)).insert(
            "mcpServers"@,
            JsonModel::Array(models_of(self.mcp_servers@)),
        ))
    }

    /// `{"cwd": ..., "mcpServers": [...]}`.
    pub fn to_value(&self) -> (r: serde_json::Value)
        ensures
            json_model(r) == self.model(),
    {
        let mut servers: Vec<serde_json::Value> = Vec::new();
        let mut i: usize = 0;
        while i < self.mcp_servers.len()
            invariant
                i <= self.mcp_servers@.len(),
                models_of(servers@) == models_of(self.mcp_servers@.subrange(0, i as int)),
            decreases self.mcp_servers@.len() - i,
        {
            let ghost prev = servers@;
            servers.push(crate::json::copy_value(&self.mcp_servers[i]));
            proof {
                let done = self.mcp_servers@.subrange(0, i + 1);
                assert(done =~= self.mcp_servers@.subrange(0, i as int).push(self.mcp_servers@[i as int]));
                assert(models_of(servers@) =~= models_of(prev).push(json_model(servers@[i as int])));
                assert(models_of(done) =~= models_of(self.mcp_servers@.subrange(0, i as int)).push(
                    json_model(self.mcp_servers@[i as int]),
                ));
            }
            i = i + 1;
        }
        proof {
            assert(self.mcp_servers@.subrange(0, self.mcp_servers@.len() as int) == self.mcp_servers@);
        }
        let mut obj = empty_object();
        set_member(&mut obj, String::from_str("cwd"), text_value(self.cwd.clone()));
        set_member(&mut obj, String::from_str("mcpServers"), array_value(servers));
        obj
    }
}

pub struct SessionNewResult {
    pub session_id: String,
    pub models: Option<serde_json::Value>,
    pub modes: Option<serde_json::Value>,
}

impl SessionNewResult {
    pub open spec fn ok(m: JsonModel) -> bool {
        is_object(m) && text_member(m, "sessionId"@) is Some
    }

    pub open spec fn read_from(self, m: JsonModel) -> bool {
        text_member(m, "sessionId"@) == Some(self.session_id@) && value_view(self.models) == member_value(m, "models"@)
            && value_view(self.modes) == member_value(m, "modes"@)
    }

    pub fn from_value(v: &serde_json::Value) -> (r: Option<SessionNewResult>)
        ensures
            r is Some <==> SessionNewResult::ok(json_model(*v)),
            r is Some ==> r.unwrap().read_from(json_model(*v)),
    {
        if !value_is_object(v) {
            return None;
        }
        match required_text(v, "sessionId") {
            Some(session_id) => Some(
                SessionNewResult { session_id, models: optional_value(v, "models"), modes: optional_value(v, "modes") },
            ),
            None => None,
        }
    }
}

pub struct SessionPromptParams {
    pub session_id: String,
    pub prompt: Vec<PromptContent>,
}

pub open spec fn prompt_models(ps: Seq<PromptContent>) -> Seq<JsonModel> {
    ps.map_values(|p: PromptContent| p.model())
}

impl SessionPromptParams {
    pub open spec fn model(&self) -> JsonModel {
        object_of(Map::empty().insert("sessionId"@, JsonModel::Str(self.session_id@)).insert(
            "prompt"@,
            JsonModel::Array(prompt_models(self.prompt@)),
        ))
    }

    /// `{"sessionId": ..., "prompt": [...]}`.
    pub fn to_value(&self) -> (r: serde_json::Value)
        ensures
            json_model(r) == self.model(),
    {
        let mut items: Vec<serde_json::Value> = Vec::new();
        let mut i: usize = 0;
        while i < self.prompt.len()
            invariant
                i <= self.prompt@.len(),
                models_of(items@) == prompt_models(self.prompt@.subrange(0, i as int)),
            decreases self.prompt@.len() - i,
        {
            let ghost prev = items@;
            items.push(self.prompt[i].to_value());
            proof {
                let done = self.prompt@.subrange(0, i + 1);
                assert(done =~= self.prompt@.subrange(0, i as int).push(self.prompt@[i as int]));
                assert(models_of(items@) =~= models_of(prev).push(json_model(items@[i as int])));
                assert(prompt_models(done) =~= prompt_models(self.prompt@.subrange(0, i as int)).push(
                    self.prompt@[i as int].model(),
                ));
            }
            i = i + 1;
        }
        proof {
            assert(self.prompt@.subrange(0, self.prompt@.len() as int) == self.prompt@);
        }
        let mut obj = empty_object();
        set_member(&mut obj, String::from_str("sessionId"), text_value(self.session_id.clone()));
        set_member(&mut obj, String::from_str("prompt"), array_value(items));
        obj
    }
}

} // verus!
