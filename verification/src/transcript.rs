//! Transcript records: the line-delimited entries an agent child appends to
//! its transcript file, reduced to the fields the state machine consults.
//!
//! JSON payloads that the state machine never inspects (tool inputs) are
//! carried opaquely as their source text.

use vstd::prelude::*;

verus! {

/// A `summary` transcript record.
#[derive(Debug, Clone, PartialEq, Eq)]
pub struct ClaudeCodeSummary {
    pub leaf_uuid: String,
    pub summary: String,
}

/// A `system` transcript record; only stop-hook records are modelled, so the
/// state machine treats every one as a full stop.
#[derive(Debug, Clone, PartialEq, Eq)]
pub struct ClaudeCodeSystemMessage {
    pub session_id: String,
    pub uuid: String,
    pub stop_reason: String,
}

/// A `file-history-snapshot` transcript record.
#[derive(Debug, Clone, PartialEq, Eq)]
pub struct ClaudeCodeHistorySnapshot {
    pub message_id: String,
    pub is_snapshot_update: bool,
}

/// A `user` transcript record.
#[derive(Debug, Clone, PartialEq, Eq)]
pub struct ClaudeCodeUserMessage {
    pub session_id: String,
    pub uuid: String,
    pub timestamp: String,
    pub message: ClaudeCodeUserContent,
}

/// The body of a user record: either plain text or one structured item.
#[derive(Debug, Clone, PartialEq, Eq)]
pub enum ClaudeCodeUserContent {
    Content { role: String, content: String },
    Complex { role: String, content: ComplexUserContent },
}

/// A structured item inside a user record.
#[derive(Debug, Clone, PartialEq, Eq)]
pub enum ComplexUserContent {
    ToolResult { id: String, content: String, is_error: bool },
    Text { text: String },
}

/// An `assistant` transcript record.
#[derive(Debug, Clone, PartialEq, Eq)]
pub struct ClaudeCodeAssistantMessage {
    pub session_id: String,
    pub uuid: String,
    pub timestamp: String,
    pub message: ClaudeCodeAssistantContent,
}

/// The assistant message body; the transcript carries exactly one content
/// item per record.
#[derive(Debug, Clone, PartialEq, Eq)]
pub struct ClaudeCodeAssistantContent {
    pub id: String,
    pub role: String,
    pub model: String,
    pub content: ClaudeCodeMessageContent,
    pub stop_reason: Option<String>,
}

/// One assistant content item. `ToolUse::input` carries the tool's JSON
/// argument text opaquely.
#[derive(Debug, Clone, PartialEq, Eq)]
pub enum ClaudeCodeMessageContent {
    Thinking { thinking: String },
    ToolUse { id: String, name: String, input: String },
    Text { text: String },
}

/// One parsed transcript line.
#[derive(Debug, Clone, PartialEq, Eq)]
pub enum ClaudeCodeLog {
    Summary(ClaudeCodeSummary),
    Snapshot(ClaudeCodeHistorySnapshot),
    UserMessage(ClaudeCodeUserMessage),
    AssistantMessage(ClaudeCodeAssistantMessage),
    SystemMessage(ClaudeCodeSystemMessage),
}

/// The record marks a full stop: an assistant message with a non-empty stop
/// reason, or a system stop-hook record.
pub open spec fn spec_is_stop(log: ClaudeCodeLog) -> bool {
    match log {
        ClaudeCodeLog::AssistantMessage(m) => match m.message.stop_reason {
            Some(reason) => reason@.len() > 0,
            None => false,
        },
        ClaudeCodeLog::SystemMessage(_) => true,
        _ => false,
    }
}

/// The tool invocation the record declares, if any: `(id, name, input)`.
pub open spec fn spec_tool_request(log: ClaudeCodeLog) -> Option<(String, String, String)> {
    match log {
        ClaudeCodeLog::AssistantMessage(m) => match m.message.content {
            ClaudeCodeMessageContent::ToolUse { id, name, input } => Some((id, name, input)),
            _ => None,
        },
        _ => None,
    }
}

/// The tool result the record carries: `(id, is_error)`; an empty `id` means
/// the record is not a tool result.
pub open spec fn spec_tool_result(log: ClaudeCodeLog) -> (Seq<char>, bool) {
    match log {
        ClaudeCodeLog::UserMessage(m) => match m.message {
            ClaudeCodeUserContent::Complex {
                content: ComplexUserContent::ToolResult { id, is_error, .. },
                ..
            } => (id@, is_error),
            _ => (Seq::empty(), false),
        },
        _ => (Seq::empty(), false),
    }
}

/// The output block the record streams, if any: `(text, is_thinking)`.
pub open spec fn spec_output(log: ClaudeCodeLog) -> Option<(String, bool)> {
    match log {
        ClaudeCodeLog::AssistantMessage(m) => match m.message.content {
            ClaudeCodeMessageContent::Thinking { thinking } => Some((thinking, true)),
            ClaudeCodeMessageContent::Text { text } => Some((text, false)),
            _ => None,
        },
        _ => None,
    }
}

/// The mathematical image of a [`ClaudeCodeSummary`].
pub struct SummaryView {
    pub leaf_uuid: Seq<char>,
    pub summary: Seq<char>,
}

impl View for ClaudeCodeSummary {
    type V = SummaryView;

    open spec fn view(&self) -> SummaryView {
        SummaryView { leaf_uuid: self.leaf_uuid@, summary: self.summary@ }
    }
}

/// The mathematical image of a [`ClaudeCodeSystemMessage`].
pub struct SystemMessageView {
    pub session_id: Seq<char>,
    pub uuid: Seq<char>,
    pub stop_reason: Seq<char>,
}

impl View for ClaudeCodeSystemMessage {
    type V = SystemMessageView;

    open spec fn view(&self) -> SystemMessageView {
        SystemMessageView {
            session_id: self.session_id@,
            uuid: self.uuid@,
            stop_reason: self.stop_reason@,
        }
    }
}

/// The mathematical image of a [`ClaudeCodeHistorySnapshot`].
pub struct SnapshotView {
    pub message_id: Seq<char>,
    pub is_snapshot_update: bool,
}

impl View for ClaudeCodeHistorySnapshot {
    type V = SnapshotView;

    open spec fn view(&self) -> SnapshotView {
        SnapshotView {
            message_id: self.message_id@,
            is_snapshot_update: self.is_snapshot_update,
        }
    }
}

/// The mathematical image of a [`ComplexUserContent`].
pub enum ComplexUserContentView {
    ToolResult { id: Seq<char>, content: Seq<char>, is_error: bool },
    Text { text: Seq<char> },
}

impl View for ComplexUserContent {
    type V = ComplexUserContentView;

    open spec fn view(&self) -> ComplexUserContentView {
        match self {
            ComplexUserContent::ToolResult { id, content, is_error } => {
                ComplexUserContentView::ToolResult {
                    id: id@,
                    content: content@,
                    is_error: *is_error,
                }
            },
            ComplexUserContent::Text { text } => ComplexUserContentView::Text { text: text@ },
        }
    }
}

/// The mathematical image of a [`ClaudeCodeUserContent`].
pub enum UserContentView {
    Content { role: Seq<char>, content: Seq<char> },
    Complex { role: Seq<char>, content: ComplexUserContentView },
}

impl View for ClaudeCodeUserContent {
    type V = UserContentView;

    open spec fn view(&self) -> UserContentView {
        match self {
            ClaudeCodeUserContent::Content { role, content } => UserContentView::Content {
                role: role@,
                content: content@,
            },
            ClaudeCodeUserContent::Complex { role, content } => UserContentView::Complex {
                role: role@,
                content: content@,
            },
        }
    }
}

/// The mathematical image of a [`ClaudeCodeUserMessage`].
pub struct UserMessageView {
    pub session_id: Seq<char>,
    pub uuid: Seq<char>,
    pub timestamp: Seq<char>,
    pub message: UserContentView,
}

impl View for ClaudeCodeUserMessage {
    type V = UserMessageView;

    open spec fn view(&self) -> UserMessageView {
        UserMessageView {
            session_id: self.session_id@,
            uuid: self.uuid@,
            timestamp: self.timestamp@,
            message: self.message@,
        }
    }
}

/// The mathematical image of a [`ClaudeCodeMessageContent`].
pub enum MessageContentView {
    Thinking { thinking: Seq<char> },
    ToolUse { id: Seq<char>, name: Seq<char>, input: Seq<char> },
    Text { text: Seq<char> },
}

impl View for ClaudeCodeMessageContent {
    type V = MessageContentView;

    open spec fn view(&self) -> MessageContentView {
        match self {
            ClaudeCodeMessageContent::Thinking { thinking } => MessageContentView::Thinking {
                thinking: thinking@,
            },
            ClaudeCodeMessageContent::ToolUse { id, name, input } => MessageContentView::ToolUse {
                id: id@,
                name: name@,
                input: input@,
            },
            ClaudeCodeMessageContent::Text { text } => MessageContentView::Text { text: text@ },
        }
    }
}

/// The mathematical image of a [`ClaudeCodeAssistantContent`].
pub struct AssistantContentView {
    pub id: Seq<char>,
    pub role: Seq<char>,
    pub model: Seq<char>,
    pub content: MessageContentView,
    pub stop_reason: Option<Seq<char>>,
}

impl View for ClaudeCodeAssistantContent {
    type V = AssistantContentView;

    open spec fn view(&self) -> AssistantContentView {
        AssistantContentView {
            id: self.id@,
            role: self.role@,
            model: self.model@,
            content: self.content@,
            stop_reason: match self.stop_reason {
                Some(reason) => Some(reason@),
                None => None,
            },
        }
    }
}

/// The mathematical image of a [`ClaudeCodeAssistantMessage`].
pub struct AssistantMessageView {
    pub session_id: Seq<char>,
    pub uuid: Seq<char>,
    pub timestamp: Seq<char>,
    pub message: AssistantContentView,
}

impl View for ClaudeCodeAssistantMessage {
    type V = AssistantMessageView;

    open spec fn view(&self) -> AssistantMessageView {
        AssistantMessageView {
            session_id: self.session_id@,
            uuid: self.uuid@,
            timestamp: self.timestamp@,
            message: self.message@,
        }
    }
}

/// The mathematical image of a [`ClaudeCodeLog`].
pub enum LogView {
    Summary(SummaryView),
    Snapshot(SnapshotView),
    UserMessage(UserMessageView),
    AssistantMessage(AssistantMessageView),
    SystemMessage(SystemMessageView),
}

impl View for ClaudeCodeLog {
    type V = LogView;

    open spec fn view(&self) -> LogView {
        match self {
            ClaudeCodeLog::Summary(r) => LogView::Summary(r@),
            ClaudeCodeLog::Snapshot(r) => LogView::Snapshot(r@),
            ClaudeCodeLog::UserMessage(r) => LogView::UserMessage(r@),
            ClaudeCodeLog::AssistantMessage(r) => LogView::AssistantMessage(r@),
            ClaudeCodeLog::SystemMessage(r) => LogView::SystemMessage(r@),
        }
    }
}

impl ClaudeCodeLog {
    /// Whether the record marks a full stop of the agent's turn.
    pub fn is_stop(&self) -> (r: bool)
        ensures
            r == spec_is_stop(*self),
    {
        match self {
            ClaudeCodeLog::AssistantMessage(m) => match &m.message.stop_reason {
                Some(reason) => !reason.as_str().is_empty(),
                None => false,
            },
            ClaudeCodeLog::SystemMessage(_) => true,
            _ => false,
        }
    }

    /// The tool invocation the record declares, if any.
    pub fn is_tool_request(&self) -> (r: Option<(String, String, String)>)
        ensures
            r == spec_tool_request(*self),
    {
        match self {
            ClaudeCodeLog::AssistantMessage(m) => match &m.message.content {
                ClaudeCodeMessageContent::ToolUse { id, name, input } => Some(
                    (id.clone(), name.clone(), input.clone()),
                ),
                _ => None,
            },
            _ => None,
        }
    }

    /// The tool result the record carries; an empty `id` means none.
    pub fn is_tool_result(&self) -> (r: (String, bool))
        ensures
            (r.0@, r.1) == spec_tool_result(*self),
    {
        match self {
            ClaudeCodeLog::UserMessage(m) => match &m.message {
                ClaudeCodeUserContent::Complex {
                    content: ComplexUserContent::ToolResult { id, is_error, .. },
                    ..
                } => (id.clone(), *is_error),
                _ => (String::new(), false),
            },
            _ => (String::new(), false),
        }
    }

    /// The output block the record streams, if any.
    pub fn is_output(&self) -> (r: Option<(String, bool)>)
        ensures
            r == spec_output(*self),
    {
        match self {
            ClaudeCodeLog::AssistantMessage(m) => match &m.message.content {
                ClaudeCodeMessageContent::Thinking { thinking } => Some((thinking.clone(), true)),
                ClaudeCodeMessageContent::Text { text } => Some((text.clone(), false)),
                _ => None,
            },
            _ => None,
        }
    }
}

} // verus!
