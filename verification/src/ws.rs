//! The gateway's message surface: inbound client commands and outbound
//! session events, with their mathematical views.
//!
//! JSON framing lives outside the crate; these are the plain values the
//! session logic consumes and produces. Tool inputs are carried as their
//! JSON source text.

use vstd::prelude::*;

use crate::claude::ClaudeCodeState;
use crate::claude::StateView;

verus! {

/// An inbound client command, tagged by `type` on the wire.
#[derive(Debug, Clone, PartialEq, Eq)]
pub enum WsInputMessage {
    CreateSession,
    CurrentState,
    Input { input: String },
    BytesInput { input: Vec<u8> },
    Cancel,
    Confirm,
    Select { index: usize },
}

/// An error reported inside a `session_error` event, tagged by `error_code`
/// on the wire.
#[derive(Debug, Clone, PartialEq, Eq)]
pub enum WsOutputError {
    SessionNotFound,
    InvalidInput { error_message: String },
    InvalidInputForState { error_state: String, error_input: String },
    InternalError { error_message: String },
}

/// The mathematical image of a [`WsOutputError`].
pub enum ErrorView {
    SessionNotFound,
    InvalidInput { error_message: Seq<char> },
    InvalidInputForState { error_state: Seq<char>, error_input: Seq<char> },
    InternalError { error_message: Seq<char> },
}

impl View for WsOutputError {
    type V = ErrorView;

    open spec fn view(&self) -> ErrorView {
        match self {
            WsOutputError::SessionNotFound => ErrorView::SessionNotFound,
            WsOutputError::InvalidInput { error_message } => ErrorView::InvalidInput {
                error_message: error_message@,
            },
            WsOutputError::InvalidInputForState { error_state, error_input } => {
                ErrorView::InvalidInputForState {
                    error_state: error_state@,
                    error_input: error_input@,
                }
            },
            WsOutputError::InternalError { error_message } => ErrorView::InternalError {
                error_message: error_message@,
            },
        }
    }
}

/// An outbound session event, tagged by `type` on the wire.
#[derive(Debug, Clone, PartialEq, Eq)]
pub enum WsOutputMessage {
    SessionPtyOutput { output: String },
    SessionOutput { output: String, is_thinking: bool },
    SessionEnded { session_id: String },
    SessionRunning { session_id: String },
    SessionIdle { session_id: String },
    SessionPending { session_id: String, tool_name: String, tool_input: String },
    SessionToolRequest { session_id: String, tool_name: String, tool_input: String },
    SessionState { session_id: String, current_state: ClaudeCodeState },
    SessionError { session_id: String, code: WsOutputError },
}

/// The mathematical image of a [`WsOutputMessage`].
pub enum OutputView {
    SessionPtyOutput { output: Seq<char> },
    SessionOutput { output: Seq<char>, is_thinking: bool },
    SessionEnded { session_id: Seq<char> },
    SessionRunning { session_id: Seq<char> },
    SessionIdle { session_id: Seq<char> },
    SessionPending { session_id: Seq<char>, tool_name: Seq<char>, tool_input: Seq<char> },
    SessionToolRequest { session_id: Seq<char>, tool_name: Seq<char>, tool_input: Seq<char> },
    SessionState { session_id: Seq<char>, current_state: StateView },
    SessionError { session_id: Seq<char>, code: ErrorView },
}

impl View for WsOutputMessage {
    type V = OutputView;

    open spec fn view(&self) -> OutputView {
        match self {
            WsOutputMessage::SessionPtyOutput { output } => OutputView::SessionPtyOutput {
                output: output@,
            },
            WsOutputMessage::SessionOutput { output, is_thinking } => OutputView::SessionOutput {
                output: output@,
                is_thinking: *is_thinking,
            },
            WsOutputMessage::SessionEnded { session_id } => OutputView::SessionEnded {
                session_id: session_id@,
            },
            WsOutputMessage::SessionRunning { session_id } => OutputView::SessionRunning {
                session_id: session_id@,
            },
            WsOutputMessage::SessionIdle { session_id } => OutputView::SessionIdle {
                session_id: session_id@,
            },
            WsOutputMessage::SessionPending { session_id, tool_name, tool_input } => {
                OutputView::SessionPending {
                    session_id: session_id@,
                    tool_name: tool_name@,
                    tool_input: tool_input@,
                }
            },
            WsOutputMessage::SessionToolRequest { session_id, tool_name, tool_input } => {
                OutputView::SessionToolRequest {
                    session_id: session_id@,
                    tool_name: tool_name@,
                    tool_input: tool_input@,
                }
            },
            WsOutputMessage::SessionState { session_id, current_state } => {
                OutputView::SessionState {
                    session_id: session_id@,
                    current_state: current_state@,
                }
            },
            WsOutputMessage::SessionError { session_id, code } => OutputView::SessionError {
                session_id: session_id@,
                code: code@,
            },
        }
    }
}

/// Each session's broadcaster keeps this many undelivered events; slower
/// subscribers lose the oldest.
pub const BROADCAST_CAPACITY: usize = 100;

/// The error event answered to a text frame that does not parse as a
/// command. It carries no session identifier: the command never reached a
/// session.
pub fn parse_error_event() -> (r: WsOutputMessage)
    ensures
        r@ == (OutputView::SessionError {
            session_id: Seq::empty(),
            code: ErrorView::InvalidInput {
                error_message: "Failed to parse input message"@,
            },
        }),
{
    WsOutputMessage::SessionError {
        session_id: String::new(),
        code: WsOutputError::InvalidInput {
            error_message: "Failed to parse input message".to_owned(),
        },
    }
}

/// The error event answered to a binary frame, which the command surface
/// does not accept.
pub fn binary_frame_error_event() -> (r: WsOutputMessage)
    ensures
        r@ == (OutputView::SessionError {
            session_id: Seq::empty(),
            code: ErrorView::InvalidInput {
                error_message: "Binary messages are not supported"@,
            },
        }),
{
    WsOutputMessage::SessionError {
        session_id: String::new(),
        code: WsOutputError::InvalidInput {
            error_message: "Binary messages are not supported".to_owned(),
        },
    }
}

impl WsOutputMessage {
    /// Whether the event is a raw pty chunk; the synchronous request surface
    /// discards these when waiting for a reply.
    pub fn is_pty_output(&self) -> (r: bool)
        ensures
            r == (self@ is SessionPtyOutput),
    {
        match self {
            WsOutputMessage::SessionPtyOutput { .. } => true,
            _ => false,
        }
    }
}

} // verus!
