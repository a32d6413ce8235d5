//! Session events: a discriminator, a few fixed members and a free-form data
//! payload, of which the core reads only what it needs.

use vstd::prelude::*;
use vstd::string::*;
use crate::json::{empty_object, opt_bool_json, opt_string_json, Json, JsonView};
use crate::text::{owned, str_eq};

verus! {

/// Session event type.
#[derive(Debug, Clone, Copy, PartialEq, Eq, Structural)]
pub enum SessionEventType {
    /// Abort event.
    Abort,
    /// Assistant intent event.
    AssistantIntent,
    /// Assistant message event.
    AssistantMessage,
    /// Assistant message delta event (streaming).
    AssistantMessageDelta,
    /// Assistant reasoning event.
    AssistantReasoning,
    /// Assistant reasoning delta event (streaming).
    AssistantReasoningDelta,
    /// Assistant turn end event.
    AssistantTurnEnd,
    /// Assistant turn start event.
    AssistantTurnStart,
    /// Assistant usage event.
    AssistantUsage,
    /// Hook end event.
    HookEnd,
    /// Hook start event.
    HookStart,
    /// Pending messages modified event.
    PendingMessagesModified,
    /// Session compaction complete event.
    SessionCompactionComplete,
    /// Session compaction start event.
    SessionCompactionStart,
    /// Session error event.
    SessionError,
    /// Session handoff event.
    SessionHandoff,
    /// Session idle event.
    SessionIdle,
    /// Session info event.
    SessionInfo,
    /// Session model change event.
    SessionModelChange,
    /// Session resume event.
    SessionResume,
    /// Session start event.
    SessionStart,
    /// Session truncation event.
    SessionTruncation,
    /// Session usage info event.
    SessionUsageInfo,
    /// Subagent completed event.
    SubagentCompleted,
    /// Subagent failed event.
    SubagentFailed,
    /// Subagent selected event.
    SubagentSelected,
    /// Subagent started event.
    SubagentStarted,
    /// System message event.
    SystemMessage,
    /// Tool execution complete event.
    ToolExecutionComplete,
    /// Tool execution partial result event.
    ToolExecutionPartialResult,
    /// Tool execution progress event.
    ToolExecutionProgress,
    /// Tool execution start event.
    ToolExecutionStart,
    /// Tool user requested event.
    ToolUserRequested,
    /// User message event.
    UserMessage,
}

impl SessionEventType {
    /// The discriminator on the wire.
    pub open spec fn wire_name(self) -> Seq<char> {
        match self {
            SessionEventType::Abort => "abort"@,
            SessionEventType::AssistantIntent => "assistant.intent"@,
            SessionEventType::AssistantMessage => "assistant.message"@,
            SessionEventType::AssistantMessageDelta => "assistant.message_delta"@,
            SessionEventType::AssistantReasoning => "assistant.reasoning"@,
            SessionEventType::AssistantReasoningDelta => "assistant.reasoning_delta"@,
            SessionEventType::AssistantTurnEnd => "assistant.turn_end"@,
            SessionEventType::AssistantTurnStart => "assistant.turn_start"@,
            SessionEventType::AssistantUsage => "assistant.usage"@,
            SessionEventType::HookEnd => "hook.end"@,
            SessionEventType::HookStart => "hook.start"@,
            SessionEventType::PendingMessagesModified => "pending_messages.modified"@,
            SessionEventType::SessionCompactionComplete => "session.compaction_complete"@,
            SessionEventType::SessionCompactionStart => "session.compaction_start"@,
            SessionEventType::SessionError => "session.error"@,
            SessionEventType::SessionHandoff => "session.handoff"@,
            SessionEventType::SessionIdle => "session.idle"@,
            SessionEventType::SessionInfo => "session.info"@,
            SessionEventType::SessionModelChange => "session.model_change"@,
            SessionEventType::SessionResume => "session.resume"@,
            SessionEventType::SessionStart => "session.start"@,
            SessionEventType::SessionTruncation => "session.truncation"@,
            SessionEventType::SessionUsageInfo => "session.usage_info"@,
            SessionEventType::SubagentCompleted => "subagent.completed"@,
            SessionEventType::SubagentFailed => "subagent.failed"@,
            SessionEventType::SubagentSelected => "subagent.selected"@,
            SessionEventType::SubagentStarted => "subagent.started"@,
            SessionEventType::SystemMessage => "system.message"@,
            SessionEventType::ToolExecutionComplete => "tool.execution_complete"@,
            SessionEventType::ToolExecutionPartialResult => "tool.execution_partial_result"@,
            SessionEventType::ToolExecutionProgress => "tool.execution_progress"@,
            SessionEventType::ToolExecutionStart => "tool.execution_start"@,
            SessionEventType::ToolUserRequested => "tool.user_requested"@,
            SessionEventType::UserMessage => "user.message"@,
        }
    }

    /// The discriminator on the wire.
    pub fn as_str(&self) -> (r: &'static str)
        ensures
            r@ == self.wire_name(),
    {
        match self {
            SessionEventType::Abort => "abort",
            SessionEventType::AssistantIntent => "assistant.intent",
            SessionEventType::AssistantMessage => "assistant.message",
            SessionEventType::AssistantMessageDelta => "assistant.message_delta",
            SessionEventType::AssistantReasoning => "assistant.reasoning",
            SessionEventType::AssistantReasoningDelta => "assistant.reasoning_delta",
            SessionEventType::AssistantTurnEnd => "assistant.turn_end",
            SessionEventType::AssistantTurnStart => "assistant.turn_start",
            SessionEventType::AssistantUsage => "assistant.usage",
            SessionEventType::HookEnd => "hook.end",
            SessionEventType::HookStart => "hook.start",
            SessionEventType::PendingMessagesModified => "pending_messages.modified",
            SessionEventType::SessionCompactionComplete => "session.compaction_complete",
            SessionEventType::SessionCompactionStart => "session.compaction_start",
            SessionEventType::SessionError => "session.error",
            SessionEventType::SessionHandoff => "session.handoff",
            SessionEventType::SessionIdle => "session.idle",
            SessionEventType::SessionInfo => "session.info",
            SessionEventType::SessionModelChange => "session.model_change",
            SessionEventType::SessionResume => "session.resume",
            SessionEventType::SessionStart => "session.start",
            SessionEventType::SessionTruncation => "session.truncation",
            SessionEventType::SessionUsageInfo => "session.usage_info",
            SessionEventType::SubagentCompleted => "subagent.completed",
            SessionEventType::SubagentFailed => "subagent.failed",
            SessionEventType::SubagentSelected => "subagent.selected",
            SessionEventType::SubagentStarted => "subagent.started",
            SessionEventType::SystemMessage => "system.message",
            SessionEventType::ToolExecutionComplete => "tool.execution_complete",
            SessionEventType::ToolExecutionPartialResult => "tool.execution_partial_result",
            SessionEventType::ToolExecutionProgress => "tool.execution_progress",
            SessionEventType::ToolExecutionStart => "tool.execution_start",
            SessionEventType::ToolUserRequested => "tool.user_requested",
            SessionEventType::UserMessage => "user.message",
        }
    }

    /// The event type with the given discriminator, if there is one.
    pub fn from_wire(name: &str) -> (r: Option<SessionEventType>)
        ensures
            r is Some ==> r->0.wire_name() == name@,
            r is None ==> forall|t: SessionEventType| t.wire_name() != name@,
    {
        if str_eq(name, "abort") {
            Some(SessionEventType::Abort)
        } else if str_eq(name, "assistant.intent") {
            Some(SessionEventType::AssistantIntent)
        } else if str_eq(name, "assistant.message") {
            Some(SessionEventType::AssistantMessage)
        } else if str_eq(name, "assistant.message_delta") {
            Some(SessionEventType::AssistantMessageDelta)
        } else if str_eq(name, "assistant.reasoning") {
            Some(SessionEventType::AssistantReasoning)
        } else if str_eq(name, "assistant.reasoning_delta") {
            Some(SessionEventType::AssistantReasoningDelta)
        } else if str_eq(name, "assistant.turn_end") {
            Some(SessionEventType::AssistantTurnEnd)
        } else if str_eq(name, "assistant.turn_start") {
            Some(SessionEventType::AssistantTurnStart)
        } else if str_eq(name, "assistant.usage") {
            Some(SessionEventType::AssistantUsage)
        } else if str_eq(name, "hook.end") {
            Some(SessionEventType::HookEnd)
        } else if str_eq(name, "hook.start") {
            Some(SessionEventType::HookStart)
        } else if str_eq(name, "pending_messages.modified") {
            Some(SessionEventType::PendingMessagesModified)
        } else if str_eq(name, "session.compaction_complete") {
            Some(SessionEventType::SessionCompactionComplete)
        } else if str_eq(name, "session.compaction_start") {
            Some(SessionEventType::SessionCompactionStart)
        } else if str_eq(name, "session.error") {
            Some(SessionEventType::SessionError)
        } else if str_eq(name, "session.handoff") {
            Some(SessionEventType::SessionHandoff)
        } else if str_eq(name, "session.idle") {
            Some(SessionEventType::SessionIdle)
        } else if str_eq(name, "session.info") {
            Some(SessionEventType::SessionInfo)
        } else if str_eq(name, "session.model_change") {
            Some(SessionEventType::SessionModelChange)
        } else if str_eq(name, "session.resume") {
            Some(SessionEventType::SessionResume)
        } else if str_eq(name, "session.start") {
            Some(SessionEventType::SessionStart)
        } else if str_eq(name, "session.truncation") {
            Some(SessionEventType::SessionTruncation)
        } else if str_eq(name, "session.usage_info") {
            Some(SessionEventType::SessionUsageInfo)
        } else if str_eq(name, "subagent.completed") {
            Some(SessionEventType::SubagentCompleted)
        } else if str_eq(name, "subagent.failed") {
            Some(SessionEventType::SubagentFailed)
        } else if str_eq(name, "subagent.selected") {
            Some(SessionEventType::SubagentSelected)
        } else if str_eq(name, "subagent.started") {
            Some(SessionEventType::SubagentStarted)
        } else if str_eq(name, "system.message") {
            Some(SessionEventType::SystemMessage)
        } else if str_eq(name, "tool.execution_complete") {
            Some(SessionEventType::ToolExecutionComplete)
        } else if str_eq(name, "tool.execution_partial_result") {
            Some(SessionEventType::ToolExecutionPartialResult)
        } else if str_eq(name, "tool.execution_progress") {
            Some(SessionEventType::ToolExecutionProgress)
        } else if str_eq(name, "tool.execution_start") {
            Some(SessionEventType::ToolExecutionStart)
        } else if str_eq(name, "tool.user_requested") {
            Some(SessionEventType::ToolUserRequested)
        } else if str_eq(name, "user.message") {
            Some(SessionEventType::UserMessage)
        } else {
            None
        }
    }
}

/// No two event types share a discriminator, so that `from_wire` finds the
/// one type that a discriminator names.
pub proof fn lemma_wire_names_distinct(a: SessionEventType, b: SessionEventType)
    requires
        a != b,
    ensures
        a.wire_name() != b.wire_name(),
{
    reveal_strlit("abort");
    reveal_strlit("assistant.intent");
    reveal_strlit("assistant.message");
    reveal_strlit("assistant.message_delta");
    reveal_strlit("assistant.reasoning");
    reveal_strlit("assistant.reasoning_delta");
    reveal_strlit("assistant.turn_end");
    reveal_strlit("assistant.turn_start");
    reveal_strlit("assistant.usage");
    reveal_strlit("hook.end");
    reveal_strlit("hook.start");
    reveal_strlit("pending_messages.modified");
    reveal_strlit("session.compaction_complete");
    reveal_strlit("session.compaction_start");
    reveal_strlit("session.error");
    reveal_strlit("session.handoff");
    reveal_strlit("session.idle");
    reveal_strlit("session.info");
    reveal_strlit("session.model_change");
    reveal_strlit("session.resume");
    reveal_strlit("session.start");
    reveal_strlit("session.truncation");
    reveal_strlit("session.usage_info");
    reveal_strlit("subagent.completed");
    reveal_strlit("subagent.failed");
    reveal_strlit("subagent.selected");
    reveal_strlit("subagent.started");
    reveal_strlit("system.message");
    reveal_strlit("tool.execution_complete");
    reveal_strlit("tool.execution_partial_result");
    reveal_strlit("tool.execution_progress");
    reveal_strlit("tool.execution_start");
    reveal_strlit("tool.user_requested");
    reveal_strlit("user.message");
    if a.wire_name() == b.wire_name() {
        let x = a.wire_name();
        let y = b.wire_name();
        assert(x.len() == y.len());
        assert(forall|i: int| 0 <= i < x.len() ==> x[i] == y[i]);
        assert(x.len() > 9 ==> x[9] == y[9]);
        assert(x.len() > 12 ==> x[12] == y[12]);
        assert(x.len() > 15 ==> x[15] == y[15]);
        assert(x.len() > 16 ==> x[16] == y[16]);
        assert(x[0] == y[0]);
        assert(x[1] == y[1]);
        assert(x.len() > 5 ==> x[5] == y[5]);
        assert(x.len() > 8 ==> x[8] == y[8]);
        assert(x.len() > 10 ==> x[10] == y[10]);
        assert(x.len() > 13 ==> x[13] == y[13]);
    }
}

/// Whether a text is a timestamp: a date and time with an offset, in the
/// relaxed form of RFC 3339 that `chrono` reads from a string.
pub uninterp spec fn is_timestamp(text: Seq<char>) -> bool;

/// `<chrono::DateTime<chrono::FixedOffset> as FromStr>::from_str`, asked only
/// whether it accepts the text. The contract names the answer and claims
/// nothing else of it.
#[verifier::external_body]
fn timestamp_ok(text: &str) -> (r: bool)
    ensures
        r == is_timestamp(text@),
{
    text.parse::<chrono::DateTime<chrono::FixedOffset>>().is_ok()
}

/// Session event from the CLI server.
#[derive(Debug, Clone)]
pub struct SessionEvent {
    /// Event data, as it came.
    pub data: Json,
    /// Whether this event is ephemeral.
    pub ephemeral: Option<bool>,
    /// Event ID.
    pub id: String,
    /// Parent event ID.
    pub parent_id: Option<String>,
    /// Event timestamp, as the text that came.
    pub timestamp: String,
    /// The discriminator of the event, as it came.
    pub discriminator: String,
    /// Event type, where the discriminator names one that is known here.
    /// An event of another type is an event all the same, and is handed on
    /// as it came.
    pub event_type: Option<SessionEventType>,
}

/// The event type that a discriminator names, if it names one.
pub open spec fn names_type(discriminator: Seq<char>, event_type: Option<SessionEventType>) -> bool {
    match event_type {
        Some(t) => t.wire_name() == discriminator,
        None => forall|t: SessionEventType| t.wire_name() != discriminator,
    }
}

/// An optional member that must be a string where it is there: `Ok(None)`
/// where it is absent or null, `Err` where it is something else.
pub open spec fn spec_optional_str(v: JsonView, key: Seq<char>) -> Result<Option<Seq<char>>, ()> {
    match v.get(key) {
        None => Ok(None),
        Some(JsonView::Null) => Ok(None),
        Some(JsonView::String(s)) => Ok(Some(s)),
        Some(_) => Err(()),
    }
}

/// An optional member that must be a boolean where it is there.
pub open spec fn spec_optional_bool(v: JsonView, key: Seq<char>) -> Result<Option<bool>, ()> {
    match v.get(key) {
        None => Ok(None),
        Some(JsonView::Null) => Ok(None),
        Some(JsonView::Bool(b)) => Ok(Some(b)),
        Some(_) => Err(()),
    }
}

/// An optional member that must be a string where it is there.
pub fn optional_str(v: &Json, key: &str) -> (r: Result<Option<String>, ()>)
    ensures
        r is Ok <==> spec_optional_str(v@, key@) is Ok,
        r is Ok ==> (r->Ok_0 is Some <==> spec_optional_str(v@, key@)->Ok_0 is Some),
        r is Ok && r->Ok_0 is Some ==> spec_optional_str(v@, key@)->Ok_0 == Some(r->Ok_0->0@),
{
    match v.get(key) {
        None => Ok(None),
        Some(Json::Null) => Ok(None),
        Some(Json::String(s)) => Ok(Some(s.clone())),
        Some(_) => Err(()),
    }
}

/// An optional member that must be a boolean where it is there.
pub fn optional_bool(v: &Json, key: &str) -> (r: Result<Option<bool>, ()>)
    ensures
        r == spec_optional_bool(v@, key@),
{
    match v.get(key) {
        None => Ok(None),
        Some(Json::Null) => Ok(None),
        Some(Json::Bool(b)) => Ok(Some(*b)),
        Some(_) => Err(()),
    }
}

impl SessionEvent {
    /// Whether a JSON value has the shape of an event: a `data` object, a
    /// string `id`, a string `timestamp`, a string `type`, whatever type it
    /// names, and `ephemeral` and `parentId` of the right kind where present.
    pub open spec fn is_shaped(v: JsonView) -> bool {
        &&& v.get("data"@) is Some
        &&& v.get("data"@)->0 is Object
        &&& v.get_str("id"@) is Some
        &&& v.get_str("timestamp"@) is Some
        &&& v.get_str("type"@) is Some
        &&& spec_optional_bool(v, "ephemeral"@) is Ok
        &&& spec_optional_str(v, "parentId"@) is Ok
    }

    /// Whether a JSON value is an event: it has the shape of one, and its
    /// timestamp is one.
    pub open spec fn is_event(v: JsonView) -> bool {
        SessionEvent::is_shaped(v) && is_timestamp(v.get_str("timestamp"@)->0)
    }

    /// What an event holds of the JSON value it was read from.
    pub open spec fn holds(self, v: JsonView) -> bool {
        &&& v.get("data"@) == Some(self.data@)
        &&& v.get_str("id"@) == Some(self.id@)
        &&& v.get_str("timestamp"@) == Some(self.timestamp@)
        &&& v.get_str("type"@) == Some(self.discriminator@)
        &&& names_type(self.discriminator@, self.event_type)
        &&& spec_optional_bool(v, "ephemeral"@) == Ok::<Option<bool>, ()>(self.ephemeral)
        &&& spec_optional_str(v, "parentId"@) is Ok
        &&& (self.parent_id is Some <==> spec_optional_str(v, "parentId"@)->Ok_0 is Some)
        &&& (self.parent_id is Some ==> spec_optional_str(v, "parentId"@)->Ok_0 == Some(
            self.parent_id->0@,
        ))
    }

    /// Reads an event from its wire form.
    pub fn from_json(v: &Json) -> (r: Option<SessionEvent>)
        ensures
            r is Some <==> SessionEvent::is_event(v@),
            r is Some ==> r->0.holds(v@),
    {
        let timestamp_valid = match v.get_str("timestamp") {
            Some(timestamp) => timestamp_ok(timestamp),
            None => false,
        };
        SessionEvent::from_checked(v, timestamp_valid)
    }

    /// Reads an event from its wire form, given whether its timestamp is
    /// one: what has the shape of an event and a valid timestamp is an event.
    pub fn from_checked(v: &Json, timestamp_valid: bool) -> (r: Option<SessionEvent>)
        ensures
            r is Some <==> SessionEvent::is_shaped(v@) && timestamp_valid,
            r is Some ==> r->0.holds(v@),
    {
        if !timestamp_valid {
            return None;
        }
        let data = match v.get("data") {
            Some(d) => d,
            None => {
                return None;
            },
        };
        match data {
            Json::Object(_) => {},
            _ => {
                return None;
            },
        }
        let id = match v.get_str("id") {
            Some(s) => s,
            None => {
                return None;
            },
        };
        let timestamp = match v.get_str("timestamp") {
            Some(s) => s,
            None => {
                return None;
            },
        };
        let discriminator = match v.get_str("type") {
            Some(s) => s,
            None => {
                return None;
            },
        };
        let event_type = SessionEventType::from_wire(discriminator);
        let ephemeral = match optional_bool(v, "ephemeral") {
            Ok(e) => e,
            Err(_) => {
                return None;
            },
        };
        let parent_id = match optional_str(v, "parentId") {
            Ok(p) => p,
            Err(_) => {
                return None;
            },
        };
        Some(
            SessionEvent {
                data: data.clone(),
                ephemeral,
                id: owned(id),
                parent_id,
                timestamp: owned(timestamp),
                discriminator: owned(discriminator),
                event_type,
            },
        )
    }

    /// The wire form of the event.
    pub open spec fn json(self) -> JsonView {
        empty_object().with("data"@, self.data@).with_opt(
            "ephemeral"@,
            opt_bool_json(self.ephemeral),
        ).with("id"@, JsonView::String(self.id@)).with_opt(
            "parentId"@,
            opt_string_json(self.parent_id),
        ).with("timestamp"@, JsonView::String(self.timestamp@)).with(
            "type"@,
            JsonView::String(self.discriminator@),
        )
    }

    /// Writes the event in its wire form.
    pub fn to_json(&self) -> (r: Json)
        ensures
            r@ == self.json(),
    {
        let mut o = Json::object();
        o.set("data", self.data.clone());
        o.set_opt("ephemeral", Json::opt_bool(&self.ephemeral));
        o.set("id", Json::string(self.id.as_str()));
        o.set_opt("parentId", Json::opt_string(&self.parent_id));
        o.set("timestamp", Json::string(self.timestamp.as_str()));
        o.set("type", Json::string(self.discriminator.as_str()));
        o
    }

    /// The `content` member of the data, where it is a string.
    pub fn content(&self) -> (r: Option<&str>)
        ensures
            r is Some <==> self.data@.get_str("content"@) is Some,
            r is Some ==> self.data@.get_str("content"@) == Some(r->0@),
    {
        self.data.get_str("content")
    }

    /// The `message` member of the data, where it is a string.
    pub fn message(&self) -> (r: Option<&str>)
        ensures
            r is Some <==> self.data@.get_str("message"@) is Some,
            r is Some ==> self.data@.get_str("message"@) == Some(r->0@),
    {
        self.data.get_str("message")
    }

    /// A `session.error` event that the client itself raises, with the given
    /// message as its data.
    pub fn session_error(id: String, timestamp: String, message: &str) -> (r: SessionEvent)
        ensures
            r.event_type == Some(SessionEventType::SessionError),
            r.discriminator@ == SessionEventType::SessionError.wire_name(),
            r.id == id,
            r.timestamp == timestamp,
            r.ephemeral is None,
            r.parent_id is None,
            r.data@ == empty_object().with("message"@, JsonView::String(message@)),
    {
        let mut data = Json::object();
        data.set("message", Json::string(message));
        SessionEvent {
            data,
            ephemeral: None,
            id,
            parent_id: None,
            timestamp,
            discriminator: owned(SessionEventType::SessionError.as_str()),
            event_type: Some(SessionEventType::SessionError),
        }
    }
}

/// Attachment type, as events name it.
#[derive(Debug, Clone, Copy, PartialEq, Eq, Structural)]
pub enum AttachmentType {
    /// Directory attachment.
    Directory,
    /// File attachment.
    File,
}

/// Attachment in event data.
#[derive(Debug, Clone)]
pub struct EventAttachment {
    /// Display name.
    pub display_name: String,
    /// Path.
    pub path: String,
    /// Type.
    pub attachment_type: AttachmentType,
}

/// Context information as a record.
#[derive(Debug, Clone)]
pub struct ContextClass {
    /// Branch.
    pub branch: Option<String>,
    /// Current working directory.
    pub cwd: String,
    /// Git root.
    pub git_root: Option<String>,
    /// Repository.
    pub repository: Option<String>,
}

/// Context can be either a string or a structured object.
#[derive(Debug, Clone)]
pub enum ContextUnion {
    /// Structured context.
    Class(ContextClass),
    /// String context.
    String(String),
}

/// Error information as a record.
#[derive(Debug, Clone)]
pub struct ErrorClass {
    /// Error code.
    pub code: Option<String>,
    /// Error message.
    pub message: String,
    /// Stack trace.
    pub stack: Option<String>,
}

/// Error can be either a string or a structured object.
#[derive(Debug, Clone)]
pub enum ErrorUnion {
    /// Structured error.
    Class(ErrorClass),
    /// String error.
    String(String),
}

/// Repository information.
#[derive(Debug, Clone)]
pub struct Repository {
    /// Branch.
    pub branch: Option<String>,
    /// Name.
    pub name: String,
    /// Owner.
    pub owner: String,
}

/// Tool result data.
#[derive(Debug, Clone)]
pub struct ToolResultData {
    /// Content.
    pub content: String,
}

/// Tool request type.
#[derive(Debug, Clone, Copy, PartialEq, Eq, Structural)]
pub enum ToolRequestType {
    /// Custom tool.
    Custom,
    /// Function tool.
    Function,
}

/// Role.
#[derive(Debug, Clone, Copy, PartialEq, Eq, Structural)]
pub enum Role {
    /// Developer role.
    Developer,
    /// System role.
    System,
}

/// Source type.
#[derive(Debug, Clone, Copy, PartialEq, Eq, Structural)]
pub enum SourceType {
    /// Local source.
    Local,
    /// Remote source.
    Remote,
}

} // verus!
