//! The transcript-line parse front-end.
//!
//! Each appended line of the transcript file is JSON. The generic value
//! tree is read through `serde_json`; what the reads return is named over
//! canonical JSON text, so that which record a line yields is pinned down
//! exactly: a line whose parse exists and whose fields form one of the
//! five record shapes yields that record, and every other line is carried
//! through as an `Uncaught` result for debugging.
//!
//! A record missing a field the shape requires does not parse; only the
//! fields the transcript writer marks optional (`is_error`, `stop_reason`,
//! a tool result's call identifier) have defaults.

use vstd::prelude::*;

use crate::claude::ClaudeCodeResult;
use crate::text::str_eq;
use crate::transcript::AssistantContentView;
use crate::transcript::AssistantMessageView;
use crate::transcript::ClaudeCodeAssistantContent;
use crate::transcript::ClaudeCodeAssistantMessage;
use crate::transcript::ClaudeCodeHistorySnapshot;
use crate::transcript::ClaudeCodeLog;
use crate::transcript::ClaudeCodeMessageContent;
use crate::transcript::ClaudeCodeSummary;
use crate::transcript::ClaudeCodeSystemMessage;
use crate::transcript::ClaudeCodeUserContent;
use crate::transcript::ClaudeCodeUserMessage;
use crate::transcript::ComplexUserContent;
use crate::transcript::ComplexUserContentView;
use crate::transcript::LogView;
use crate::transcript::MessageContentView;
use crate::transcript::SnapshotView;
use crate::transcript::SummaryView;
use crate::transcript::SystemMessageView;
use crate::transcript::UserContentView;
use crate::transcript::UserMessageView;

verus! {

#[verifier::external_type_specification]
#[verifier::external_body]
pub struct ExValue(serde_json::Value);

// What the JSON reads return is named through the canonical text of a
// value: `serde_json::to_string` prints object members in sorted key
// order, so the canonical text identifies the value, and each read below
// is a function of it.

/// The canonical JSON text of a value: what `serde_json::to_string` prints.
pub uninterp spec fn canon(v: serde_json::Value) -> Seq<char>;

/// The canonical text of the value a string parses to, if it is JSON.
pub uninterp spec fn parse_canon(s: Seq<char>) -> Option<Seq<char>>;

/// The canonical text of the member under a key, for the value with the
/// given canonical text, if it is an object and has the key.
pub uninterp spec fn member_text(t: Seq<char>, key: Seq<char>) -> Option<Seq<char>>;

/// The characters a JSON string value holds, for the value with the given
/// canonical text.
pub uninterp spec fn str_content(t: Seq<char>) -> Option<Seq<char>>;

/// The boolean a JSON boolean value holds, for the value with the given
/// canonical text.
pub uninterp spec fn bool_content(t: Seq<char>) -> Option<bool>;

/// The canonical texts of a JSON array's elements, in order, for the value
/// with the given canonical text.
pub uninterp spec fn array_items_text(t: Seq<char>) -> Option<Seq<Seq<char>>>;

/// Whether the value with the given canonical text is JSON null.
pub uninterp spec fn is_null_text(t: Seq<char>) -> bool;

/// Relies on serde_json::from_str: parses a string into a JSON value tree
/// or fails; which value, a function of the string alone.
#[verifier::external_body]
fn json_parse(s: &str) -> (r: Option<serde_json::Value>)
    ensures
        r matches Some(v) ==> parse_canon(s@) == Some(canon(v)),
        r is None ==> parse_canon(s@) is None,
{
    serde_json::from_str::<serde_json::Value>(s).ok()
}

/// Relies on serde_json::Value::get: the member of an object under a key,
/// if the value is an object and has it.
#[verifier::external_body]
fn json_get<'a>(v: &'a serde_json::Value, key: &str) -> (r: Option<&'a serde_json::Value>)
    ensures
        r matches Some(m) ==> member_text(canon(*v), key@) == Some(canon(*m)),
        r is None ==> member_text(canon(*v), key@) is None,
{
    v.get(key)
}

/// Relies on serde_json::Value::as_str: the string a JSON string value
/// holds.
#[verifier::external_body]
fn json_as_str<'a>(v: &'a serde_json::Value) -> (r: Option<&'a str>)
    ensures
        r matches Some(s) ==> str_content(canon(*v)) == Some(s@),
        r is None ==> str_content(canon(*v)) is None,
{
    v.as_str()
}

/// Relies on serde_json::Value::as_bool: the boolean a JSON boolean value
/// holds.
#[verifier::external_body]
fn json_as_bool(v: &serde_json::Value) -> (r: Option<bool>)
    ensures
        r matches Some(b) ==> bool_content(canon(*v)) == Some(b),
        r is None ==> bool_content(canon(*v)) is None,
{
    v.as_bool()
}

/// Relies on serde_json::Value::as_array: the elements of a JSON array, in
/// order.
#[verifier::external_body]
fn json_as_array<'a>(v: &'a serde_json::Value) -> (r: Option<&'a Vec<serde_json::Value>>)
    ensures
        r matches Some(items) ==> array_items_text(canon(*v)) matches Some(ts) && ts.len()
            == items@.len() && (forall|i: int|
            0 <= i < ts.len() ==> ts[i] == canon(#[trigger] items@[i])),
        r is None ==> array_items_text(canon(*v)) is None,
{
    v.as_array()
}

/// Relies on serde_json::Value::is_null: whether the value is JSON null.
#[verifier::external_body]
fn json_is_null(v: &serde_json::Value) -> (r: bool)
    ensures
        r == is_null_text(canon(*v)),
{
    v.is_null()
}

/// Relies on serde_json::to_string: the canonical JSON text of a value; a
/// value tree with string keys always serializes.
#[verifier::external_body]
fn json_text(v: &serde_json::Value) -> (r: String)
    ensures
        r@ == canon(*v),
{
    serde_json::to_string(v).unwrap_or(String::new())
}

/// The string under a key of the object with canonical text `t`.
pub open spec fn spec_get_str(t: Seq<char>, key: Seq<char>) -> Option<Seq<char>> {
    match member_text(t, key) {
        Some(mt) => str_content(mt),
        None => None,
    }
}

/// The string under a field's name or its accepted alias; both present at
/// once is a duplicate field and does not parse.
pub open spec fn spec_get_str_alias(t: Seq<char>, key: Seq<char>, alt: Seq<char>) -> Option<
    Seq<char>,
> {
    match (member_text(t, key), member_text(t, alt)) {
        (Some(mt), None) => str_content(mt),
        (None, Some(mt)) => str_content(mt),
        _ => None,
    }
}

/// The boolean under a field's name or its accepted alias; both present at
/// once is a duplicate field and does not parse.
pub open spec fn spec_get_bool_alias(t: Seq<char>, key: Seq<char>, alt: Seq<char>) -> Option<
    bool,
> {
    match (member_text(t, key), member_text(t, alt)) {
        (Some(mt), None) => bool_content(mt),
        (None, Some(mt)) => bool_content(mt),
        _ => None,
    }
}

/// The boolean under a key, an absent member meaning `false`; a present
/// non-boolean does not parse.
pub open spec fn spec_bool_or_false(t: Seq<char>, key: Seq<char>) -> Option<bool> {
    match member_text(t, key) {
        Some(mt) => bool_content(mt),
        None => Some(false),
    }
}

/// A tool result's call identifier: the string under `tool_use_id`, empty
/// when absent or not a string (the transcript does not always carry one).
pub open spec fn spec_tool_use_id(t: Seq<char>) -> Seq<char> {
    match spec_get_str(t, "tool_use_id"@) {
        Some(s) => s,
        None => Seq::empty(),
    }
}

/// An assistant record's stop reason: absent or null is no reason; a
/// present value of any other non-string shape does not parse.
pub open spec fn spec_stop_reason(t: Seq<char>) -> Option<Option<Seq<char>>> {
    match member_text(t, "stop_reason"@) {
        None => Some(None),
        Some(mt) => if is_null_text(mt) {
            Some(None)
        } else {
            match str_content(mt) {
                Some(s) => Some(Some(s)),
                None => None,
            }
        },
    }
}

/// The canonical text of the single element of a one-element array.
pub open spec fn spec_single_item(t: Seq<char>) -> Option<Seq<char>> {
    match array_items_text(t) {
        Some(items) => if items.len() == 1 {
            Some(items[0])
        } else {
            None
        },
        None => None,
    }
}

/// One content item of a user record, from its canonical text.
pub open spec fn spec_user_item(t: Seq<char>) -> Option<ComplexUserContentView> {
    match spec_get_str(t, "type"@) {
        None => None,
        Some(tag) => if tag == "tool_result"@ {
            match (spec_get_str(t, "content"@), spec_bool_or_false(t, "is_error"@)) {
                (Some(content), Some(is_error)) => Some(
                    ComplexUserContentView::ToolResult {
                        id: spec_tool_use_id(t),
                        content,
                        is_error,
                    },
                ),
                _ => None,
            }
        } else if tag == "text"@ {
            match spec_get_str(t, "text"@) {
                Some(text) => Some(ComplexUserContentView::Text { text }),
                None => None,
            }
        } else {
            None
        },
    }
}

/// The body of a user record, from its canonical text: plain text, or one
/// structured item.
pub open spec fn spec_user_content(t: Seq<char>) -> Option<UserContentView> {
    match (spec_get_str(t, "role"@), member_text(t, "content"@)) {
        (Some(role), Some(ct)) => match str_content(ct) {
            Some(text) => Some(UserContentView::Content { role, content: text }),
            None => match spec_single_item(ct) {
                Some(it) => match spec_user_item(it) {
                    Some(item) => Some(UserContentView::Complex { role, content: item }),
                    None => None,
                },
                None => None,
            },
        },
        _ => None,
    }
}

/// One content item of an assistant record, from its canonical text.
pub open spec fn spec_assistant_item(t: Seq<char>) -> Option<MessageContentView> {
    match spec_get_str(t, "type"@) {
        None => None,
        Some(tag) => if tag == "thinking"@ {
            match spec_get_str(t, "thinking"@) {
                Some(thinking) => Some(MessageContentView::Thinking { thinking }),
                None => None,
            }
        } else if tag == "tool_use"@ {
            match (
                spec_get_str(t, "id"@),
                spec_get_str(t, "name"@),
                member_text(t, "input"@),
            ) {
                (Some(id), Some(name), Some(input)) => Some(
                    MessageContentView::ToolUse { id, name, input },
                ),
                _ => None,
            }
        } else if tag == "text"@ {
            match spec_get_str(t, "text"@) {
                Some(text) => Some(MessageContentView::Text { text }),
                None => None,
            }
        } else {
            None
        },
    }
}

/// The body of an assistant record, from its canonical text.
pub open spec fn spec_assistant_content(t: Seq<char>) -> Option<AssistantContentView> {
    match (
        spec_get_str(t, "id"@),
        spec_get_str(t, "role"@),
        spec_get_str(t, "model"@),
        spec_stop_reason(t),
        member_text(t, "content"@),
    ) {
        (Some(id), Some(role), Some(model), Some(stop_reason), Some(ct)) => {
            match spec_single_item(ct) {
                Some(it) => match spec_assistant_item(it) {
                    Some(content) => Some(
                        AssistantContentView { id, role, model, content, stop_reason },
                    ),
                    None => None,
                },
                None => None,
            }
        },
        _ => None,
    }
}

/// The record a JSON value of canonical text `t` forms, dispatched on its
/// `type` tag; `None` when the shape is unknown or a required field is
/// missing.
pub open spec fn spec_record(t: Seq<char>) -> Option<LogView> {
    match spec_get_str(t, "type"@) {
        None => None,
        Some(tag) => if tag == "summary"@ {
            match (spec_get_str_alias(t, "leaf_uuid"@, "leafUuid"@), spec_get_str(t, "summary"@)) {
                (Some(leaf_uuid), Some(summary)) => Some(
                    LogView::Summary(SummaryView { leaf_uuid, summary }),
                ),
                _ => None,
            }
        } else if tag == "file-history-snapshot"@ {
            match (
                spec_get_str_alias(t, "message_id"@, "messageId"@),
                spec_get_bool_alias(t, "is_snapshot_update"@, "isSnapshotUpdate"@),
            ) {
                (Some(message_id), Some(is_snapshot_update)) => Some(
                    LogView::Snapshot(SnapshotView { message_id, is_snapshot_update }),
                ),
                _ => None,
            }
        } else if tag == "system"@ {
            match (
                spec_get_str_alias(t, "session_id"@, "sessionId"@),
                spec_get_str(t, "uuid"@),
                spec_get_str_alias(t, "stop_reason"@, "stopReason"@),
            ) {
                (Some(session_id), Some(uuid), Some(stop_reason)) => Some(
                    LogView::SystemMessage(
                        SystemMessageView { session_id, uuid, stop_reason },
                    ),
                ),
                _ => None,
            }
        } else if tag == "user"@ {
            match (
                spec_get_str_alias(t, "session_id"@, "sessionId"@),
                spec_get_str(t, "uuid"@),
                spec_get_str(t, "timestamp"@),
                member_text(t, "message"@),
            ) {
                (Some(session_id), Some(uuid), Some(timestamp), Some(mt)) => {
                    match spec_user_content(mt) {
                        Some(message) => Some(
                            LogView::UserMessage(
                                UserMessageView { session_id, uuid, timestamp, message },
                            ),
                        ),
                        None => None,
                    }
                },
                _ => None,
            }
        } else if tag == "assistant"@ {
            match (
                spec_get_str_alias(t, "session_id"@, "sessionId"@),
                spec_get_str(t, "uuid"@),
                spec_get_str(t, "timestamp"@),
                member_text(t, "message"@),
            ) {
                (Some(session_id), Some(uuid), Some(timestamp), Some(mt)) => {
                    match spec_assistant_content(mt) {
                        Some(message) => Some(
                            LogView::AssistantMessage(
                                AssistantMessageView { session_id, uuid, timestamp, message },
                            ),
                        ),
                        None => None,
                    }
                },
                _ => None,
            }
        } else {
            None
        },
    }
}

/// The record a whole line yields: its JSON parse, then its record shape.
pub open spec fn spec_line_record(line: Seq<char>) -> Option<LogView> {
    match parse_canon(line) {
        Some(t) => spec_record(t),
        None => None,
    }
}

/// The string under a key of an object, copied out.
fn get_str(v: &serde_json::Value, key: &str) -> (r: Option<String>)
    ensures
        r matches Some(s) ==> spec_get_str(canon(*v), key@) == Some(s@),
        r is None ==> spec_get_str(canon(*v), key@) is None,
{
    match json_get(v, key) {
        Some(member) => match json_as_str(member) {
            Some(s) => Some(s.to_owned()),
            None => None,
        },
        None => None,
    }
}

/// The string under a field's name or its accepted alias.
fn get_str_alias(v: &serde_json::Value, key: &str, alt: &str) -> (r: Option<String>)
    ensures
        r matches Some(s) ==> spec_get_str_alias(canon(*v), key@, alt@) == Some(s@),
        r is None ==> spec_get_str_alias(canon(*v), key@, alt@) is None,
{
    match (json_get(v, key), json_get(v, alt)) {
        (Some(member), None) => match json_as_str(member) {
            Some(s) => Some(s.to_owned()),
            None => None,
        },
        (None, Some(member)) => match json_as_str(member) {
            Some(s) => Some(s.to_owned()),
            None => None,
        },
        _ => None,
    }
}

/// The boolean under a field's name or its accepted alias.
fn get_bool_alias(v: &serde_json::Value, key: &str, alt: &str) -> (r: Option<bool>)
    ensures
        r == spec_get_bool_alias(canon(*v), key@, alt@),
{
    match (json_get(v, key), json_get(v, alt)) {
        (Some(member), None) => json_as_bool(member),
        (None, Some(member)) => json_as_bool(member),
        _ => None,
    }
}

/// The boolean under a key, absent meaning `false`.
fn get_bool_or_false(v: &serde_json::Value, key: &str) -> (r: Option<bool>)
    ensures
        r == spec_bool_or_false(canon(*v), key@),
{
    match json_get(v, key) {
        Some(member) => json_as_bool(member),
        None => Some(false),
    }
}

/// The single element of a one-element JSON array.
fn single_element<'a>(v: &'a serde_json::Value) -> (r: Option<&'a serde_json::Value>)
    ensures
        r matches Some(item) ==> spec_single_item(canon(*v)) == Some(canon(*item)),
        r is None ==> spec_single_item(canon(*v)) is None,
{
    match json_as_array(v) {
        Some(items) => if items.len() == 1 {
            Some(&items[0])
        } else {
            None
        },
        None => None,
    }
}

/// One content item of a user record: a tool result or a text block.
fn parse_user_item(item: &serde_json::Value) -> (r: Option<ComplexUserContent>)
    ensures
        r matches Some(parsed) ==> spec_user_item(canon(*item)) == Some(parsed@),
        r is None ==> spec_user_item(canon(*item)) is None,
{
    let tag = match get_str(item, "type") {
        Some(t) => t,
        None => {
            return None;
        },
    };
    if str_eq(tag.as_str(), "tool_result") {
        let content = match get_str(item, "content") {
            Some(s) => s,
            None => {
                return None;
            },
        };
        let is_error = match get_bool_or_false(item, "is_error") {
            Some(b) => b,
            None => {
                return None;
            },
        };
        let id = match get_str(item, "tool_use_id") {
            Some(s) => s,
            None => String::new(),
        };
        Some(ComplexUserContent::ToolResult { id, content, is_error })
    } else if str_eq(tag.as_str(), "text") {
        match get_str(item, "text") {
            Some(text) => Some(ComplexUserContent::Text { text }),
            None => None,
        }
    } else {
        None
    }
}

/// The body of a user record: plain text, or one structured item.
fn parse_user_content(message: &serde_json::Value) -> (r: Option<ClaudeCodeUserContent>)
    ensures
        r matches Some(parsed) ==> spec_user_content(canon(*message)) == Some(parsed@),
        r is None ==> spec_user_content(canon(*message)) is None,
{
    let role = match get_str(message, "role") {
        Some(s) => s,
        None => {
            return None;
        },
    };
    let content = match json_get(message, "content") {
        Some(c) => c,
        None => {
            return None;
        },
    };
    match json_as_str(content) {
        Some(text) => Some(ClaudeCodeUserContent::Content { role, content: text.to_owned() }),
        None => match single_element(content) {
            Some(item) => match parse_user_item(item) {
                Some(parsed) => Some(ClaudeCodeUserContent::Complex { role, content: parsed }),
                None => None,
            },
            None => None,
        },
    }
}

/// One content item of an assistant record: a thinking block, a tool
/// invocation, or a text block.
fn parse_assistant_item(item: &serde_json::Value) -> (r: Option<ClaudeCodeMessageContent>)
    ensures
        r matches Some(parsed) ==> spec_assistant_item(canon(*item)) == Some(parsed@),
        r is None ==> spec_assistant_item(canon(*item)) is None,
{
    let tag = match get_str(item, "type") {
        Some(t) => t,
        None => {
            return None;
        },
    };
    if str_eq(tag.as_str(), "thinking") {
        match get_str(item, "thinking") {
            Some(thinking) => Some(ClaudeCodeMessageContent::Thinking { thinking }),
            None => None,
        }
    } else if str_eq(tag.as_str(), "tool_use") {
        let id = match get_str(item, "id") {
            Some(s) => s,
            None => {
                return None;
            },
        };
        let name = match get_str(item, "name") {
            Some(s) => s,
            None => {
                return None;
            },
        };
        let input = match json_get(item, "input") {
            Some(v) => json_text(v),
            None => {
                return None;
            },
        };
        Some(ClaudeCodeMessageContent::ToolUse { id, name, input })
    } else if str_eq(tag.as_str(), "text") {
        match get_str(item, "text") {
            Some(text) => Some(ClaudeCodeMessageContent::Text { text }),
            None => None,
        }
    } else {
        None
    }
}

/// An assistant record's stop reason: absent or null is none.
fn parse_stop_reason(message: &serde_json::Value) -> (r: Option<Option<String>>)
    ensures
        r matches Some(reason) ==> spec_stop_reason(canon(*message)) == Some(
            match reason {
                Some(s) => Some(s@),
                None => None,
            },
        ),
        r is None ==> spec_stop_reason(canon(*message)) is None,
{
    match json_get(message, "stop_reason") {
        None => Some(None),
        Some(member) => if json_is_null(member) {
            Some(None)
        } else {
            match json_as_str(member) {
                Some(s) => Some(Some(s.to_owned())),
                None => None,
            }
        },
    }
}

/// The body of an assistant record.
fn parse_assistant_content(message: &serde_json::Value) -> (r: Option<ClaudeCodeAssistantContent>)
    ensures
        r matches Some(parsed) ==> spec_assistant_content(canon(*message)) == Some(parsed@),
        r is None ==> spec_assistant_content(canon(*message)) is None,
{
    let id = match get_str(message, "id") {
        Some(s) => s,
        None => {
            return None;
        },
    };
    let role = match get_str(message, "role") {
        Some(s) => s,
        None => {
            return None;
        },
    };
    let model = match get_str(message, "model") {
        Some(s) => s,
        None => {
            return None;
        },
    };
    let stop_reason = match parse_stop_reason(message) {
        Some(reason) => reason,
        None => {
            return None;
        },
    };
    let content = match json_get(message, "content") {
        Some(c) => c,
        None => {
            return None;
        },
    };
    match single_element(content) {
        Some(item) => match parse_assistant_item(item) {
            Some(parsed) => Some(
                ClaudeCodeAssistantContent { id, role, model, content: parsed, stop_reason },
            ),
            None => None,
        },
        None => None,
    }
}

/// A whole transcript record from its JSON value, dispatched on the `type`
/// tag.
fn parse_transcript_value(v: &serde_json::Value) -> (r: Option<ClaudeCodeLog>)
    ensures
        r matches Some(log) ==> spec_record(canon(*v)) == Some(log@),
        r is None ==> spec_record(canon(*v)) is None,
{
    let tag = match get_str(v, "type") {
        Some(t) => t,
        None => {
            return None;
        },
    };
    if str_eq(tag.as_str(), "summary") {
        match (get_str_alias(v, "leaf_uuid", "leafUuid"), get_str(v, "summary")) {
            (Some(leaf_uuid), Some(summary)) => Some(
                ClaudeCodeLog::Summary(ClaudeCodeSummary { leaf_uuid, summary }),
            ),
            _ => None,
        }
    } else if str_eq(tag.as_str(), "file-history-snapshot") {
        match (
            get_str_alias(v, "message_id", "messageId"),
            get_bool_alias(v, "is_snapshot_update", "isSnapshotUpdate"),
        ) {
            (Some(message_id), Some(is_snapshot_update)) => Some(
                ClaudeCodeLog::Snapshot(
                    ClaudeCodeHistorySnapshot { message_id, is_snapshot_update },
                ),
            ),
            _ => None,
        }
    } else if str_eq(tag.as_str(), "system") {
        match (
            get_str_alias(v, "session_id", "sessionId"),
            get_str(v, "uuid"),
            get_str_alias(v, "stop_reason", "stopReason"),
        ) {
            (Some(session_id), Some(uuid), Some(stop_reason)) => Some(
                ClaudeCodeLog::SystemMessage(
                    ClaudeCodeSystemMessage { session_id, uuid, stop_reason },
                ),
            ),
            _ => None,
        }
    } else if str_eq(tag.as_str(), "user") {
        let message = match json_get(v, "message") {
            Some(m) => m,
            None => {
                return None;
            },
        };
        match (
            get_str_alias(v, "session_id", "sessionId"),
            get_str(v, "uuid"),
            get_str(v, "timestamp"),
        ) {
            (Some(session_id), Some(uuid), Some(timestamp)) => {
                match parse_user_content(message) {
                    Some(parsed) => Some(
                        ClaudeCodeLog::UserMessage(
                            ClaudeCodeUserMessage {
                                session_id,
                                uuid,
                                timestamp,
                                message: parsed,
                            },
                        ),
                    ),
                    None => None,
                }
            },
            _ => None,
        }
    } else if str_eq(tag.as_str(), "assistant") {
        let message = match json_get(v, "message") {
            Some(m) => m,
            None => {
                return None;
            },
        };
        match (
            get_str_alias(v, "session_id", "sessionId"),
            get_str(v, "uuid"),
            get_str(v, "timestamp"),
        ) {
            (Some(session_id), Some(uuid), Some(timestamp)) => {
                match parse_assistant_content(message) {
                    Some(parsed) => Some(
                        ClaudeCodeLog::AssistantMessage(
                            ClaudeCodeAssistantMessage {
                                session_id,
                                uuid,
                                timestamp,
                                message: parsed,
                            },
                        ),
                    ),
                    None => None,
                }
            },
            _ => None,
        }
    } else {
        None
    }
}

/// A transcript record parsed from one appended line: exactly the record
/// the line's JSON forms, `None` when the line is not JSON or not a known
/// record shape.
pub fn parse_transcript_line(line: &str) -> (r: Option<ClaudeCodeLog>)
    ensures
        r matches Some(log) ==> spec_line_record(line@) == Some(log@),
        r is None ==> spec_line_record(line@) is None,
{
    match json_parse(line) {
        Some(v) => parse_transcript_value(&v),
        None => None,
    }
}

/// Classify one appended transcript line: a line whose JSON forms a record
/// yields exactly that record; every other line is carried through raw.
pub fn classify_history_line(line: &str) -> (r: ClaudeCodeResult)
    ensures
        match r {
            ClaudeCodeResult::ClaudeLog(log) => spec_line_record(line@) == Some(log@),
            ClaudeCodeResult::Uncaught(raw) => raw@ == line@ && spec_line_record(line@)
                is None,
            _ => false,
        },
{
    match parse_transcript_line(line) {
        Some(log) => ClaudeCodeResult::ClaudeLog(log),
        None => ClaudeCodeResult::Uncaught(line.to_owned()),
    }
}

} // verus!
