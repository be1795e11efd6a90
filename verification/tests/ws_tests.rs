use echokit_terminal::claude::ClaudeCodeState;
use echokit_terminal::ws::WsOutputError;
use echokit_terminal::ws::WsOutputMessage;
use echokit_terminal::ws::binary_frame_error_event;
use echokit_terminal::ws::parse_error_event;

#[test]
fn pty_output_is_filtered_from_replies() {
    // The synchronous surface discards raw pty chunks and returns the first
    // other event as the reply.
    let chunk = WsOutputMessage::SessionPtyOutput { output: "x".to_string() };
    assert!(chunk.is_pty_output());

    let idle = WsOutputMessage::SessionIdle { session_id: "s".to_string() };
    assert!(!idle.is_pty_output());

    let stream = vec![chunk.clone(), chunk, idle.clone()];
    let reply = stream.into_iter().find(|m| !m.is_pty_output());
    assert_eq!(reply, Some(idle));
}

#[test]
fn state_snapshot_variant_is_not_pty_output() {
    let snapshot = WsOutputMessage::SessionState {
        session_id: "s".to_string(),
        current_state: ClaudeCodeState::Idle,
    };
    assert!(!snapshot.is_pty_output());
}

#[test]
fn frame_errors_carry_no_session() {
    assert_eq!(
        parse_error_event(),
        WsOutputMessage::SessionError {
            session_id: String::new(),
            code: WsOutputError::InvalidInput {
                error_message: "Failed to parse input message".to_string(),
            },
        }
    );
    assert_eq!(
        binary_frame_error_event(),
        WsOutputMessage::SessionError {
            session_id: String::new(),
            code: WsOutputError::InvalidInput {
                error_message: "Binary messages are not supported".to_string(),
            },
        }
    );
}
