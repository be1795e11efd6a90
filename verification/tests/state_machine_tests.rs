use echokit_terminal::claude::ClaudeCode;
use echokit_terminal::claude::ClaudeCodeResult;
use echokit_terminal::claude::ClaudeCodeState;
use echokit_terminal::claude::UseTool;
use echokit_terminal::claude::transition_step;
use echokit_terminal::transcript::ClaudeCodeAssistantContent;
use echokit_terminal::transcript::ClaudeCodeAssistantMessage;
use echokit_terminal::transcript::ClaudeCodeLog;
use echokit_terminal::transcript::ClaudeCodeMessageContent;
use echokit_terminal::transcript::ClaudeCodeSummary;
use echokit_terminal::transcript::ClaudeCodeSystemMessage;
use echokit_terminal::transcript::ClaudeCodeUserContent;
use echokit_terminal::transcript::ClaudeCodeUserMessage;
use echokit_terminal::transcript::ComplexUserContent;

fn assistant_record(content: ClaudeCodeMessageContent, stop_reason: Option<&str>) -> ClaudeCodeLog {
    ClaudeCodeLog::AssistantMessage(ClaudeCodeAssistantMessage {
        session_id: "s".to_string(),
        uuid: "u".to_string(),
        timestamp: "t".to_string(),
        message: ClaudeCodeAssistantContent {
            id: "m".to_string(),
            role: "assistant".to_string(),
            model: "x".to_string(),
            content,
            stop_reason: stop_reason.map(|s| s.to_string()),
        },
    })
}

fn tool_use(id: &str, name: &str, input: &str) -> ClaudeCodeLog {
    assistant_record(
        ClaudeCodeMessageContent::ToolUse {
            id: id.to_string(),
            name: name.to_string(),
            input: input.to_string(),
        },
        None,
    )
}

fn text_output(text: &str) -> ClaudeCodeLog {
    assistant_record(
        ClaudeCodeMessageContent::Text { text: text.to_string() },
        None,
    )
}

fn thinking_output(text: &str) -> ClaudeCodeLog {
    assistant_record(
        ClaudeCodeMessageContent::Thinking { thinking: text.to_string() },
        None,
    )
}

fn stop_record() -> ClaudeCodeLog {
    ClaudeCodeLog::SystemMessage(ClaudeCodeSystemMessage {
        session_id: "s".to_string(),
        uuid: "u".to_string(),
        stop_reason: "".to_string(),
    })
}

fn tool_result(id: &str, is_error: bool) -> ClaudeCodeLog {
    ClaudeCodeLog::UserMessage(ClaudeCodeUserMessage {
        session_id: "s".to_string(),
        uuid: "u".to_string(),
        timestamp: "t".to_string(),
        message: ClaudeCodeUserContent::Complex {
            role: "user".to_string(),
            content: ComplexUserContent::ToolResult {
                id: id.to_string(),
                content: "r".to_string(),
                is_error,
            },
        },
    })
}

fn log_event(log: ClaudeCodeLog) -> ClaudeCodeResult {
    ClaudeCodeResult::ClaudeLog(log)
}

#[test]
fn idle_tool_request_opens_pre_use_tool() {
    let (state, changed) = transition_step(
        ClaudeCodeState::Idle,
        &log_event(tool_use("call_A", "WebSearch", "{\"q\":\"x\"}")),
    );
    assert!(changed);
    match state {
        ClaudeCodeState::PreUseTool { request, is_pending } => {
            assert!(!is_pending);
            assert_eq!(request.len(), 1);
            assert_eq!(request[0].id, "call_A");
            assert_eq!(request[0].name, "WebSearch");
            assert!(!request[0].done);
        }
        other => panic!("unexpected state: {:?}", other),
    }
}

#[test]
fn idle_output_starts_output_block() {
    let (state, changed) =
        transition_step(ClaudeCodeState::Idle, &log_event(text_output("hello")));
    assert!(changed);
    assert_eq!(
        state,
        ClaudeCodeState::Output { output: "hello".to_string(), is_thinking: false }
    );

    let (state, changed) =
        transition_step(ClaudeCodeState::StopUseTool, &log_event(thinking_output("mull")));
    assert!(changed);
    assert_eq!(
        state,
        ClaudeCodeState::Output { output: "mull".to_string(), is_thinking: true }
    );
}

#[test]
fn stop_record_returns_to_idle() {
    let (state, changed) = transition_step(ClaudeCodeState::Idle, &log_event(stop_record()));
    assert_eq!(state, ClaudeCodeState::Idle);
    assert!(!changed, "already idle: no change to re-broadcast");

    let (state, changed) =
        transition_step(ClaudeCodeState::StopUseTool, &log_event(stop_record()));
    assert_eq!(state, ClaudeCodeState::Idle);
    assert!(changed);

    let output = ClaudeCodeState::Output { output: "o".to_string(), is_thinking: false };
    let (state, changed) = transition_step(output, &log_event(stop_record()));
    assert_eq!(state, ClaudeCodeState::Idle);
    assert!(changed);
}

#[test]
fn output_mutates_in_place() {
    let output = ClaudeCodeState::Output { output: "a".to_string(), is_thinking: true };
    let (state, changed) = transition_step(output, &log_event(text_output("b")));
    assert!(changed);
    assert_eq!(
        state,
        ClaudeCodeState::Output { output: "b".to_string(), is_thinking: false }
    );
}

#[test]
fn output_quiescence_promotes_to_idle() {
    let output = ClaudeCodeState::Output { output: "a".to_string(), is_thinking: false };
    let (state, changed) = transition_step(output, &ClaudeCodeResult::WaitForUserInput);
    assert!(changed);
    assert_eq!(state, ClaudeCodeState::Idle);

    let (state, changed) =
        transition_step(ClaudeCodeState::Idle, &ClaudeCodeResult::WaitForUserInput);
    assert!(!changed);
    assert_eq!(state, ClaudeCodeState::Idle);
}

#[test]
fn pre_use_tool_pending_flag() {
    let pre = ClaudeCodeState::PreUseTool {
        request: vec![UseTool {
            id: "call_A".to_string(),
            name: "WebSearch".to_string(),
            input: "{}".to_string(),
            done: false,
        }],
        is_pending: false,
    };
    let (state, changed) = transition_step(pre, &ClaudeCodeResult::WaitForUserInputBeforeTool);
    assert!(changed);
    match state {
        ClaudeCodeState::PreUseTool { is_pending, .. } => assert!(is_pending),
        other => panic!("unexpected state: {:?}", other),
    }
}

#[test]
fn pre_use_tool_appends_requests() {
    let pre = ClaudeCodeState::PreUseTool {
        request: vec![UseTool {
            id: "call_A".to_string(),
            name: "First".to_string(),
            input: "{}".to_string(),
            done: false,
        }],
        is_pending: false,
    };
    let (state, changed) = transition_step(pre, &log_event(tool_use("call_B", "Second", "{}")));
    assert!(changed);
    match state {
        ClaudeCodeState::PreUseTool { request, .. } => {
            assert_eq!(request.len(), 2);
            assert_eq!(request[0].id, "call_A");
            assert_eq!(request[1].id, "call_B");
        }
        other => panic!("unexpected state: {:?}", other),
    }
}

#[test]
fn tool_result_error_stops_episode() {
    let pre = ClaudeCodeState::PreUseTool {
        request: vec![UseTool {
            id: "call_A".to_string(),
            name: "WebSearch".to_string(),
            input: "{}".to_string(),
            done: false,
        }],
        is_pending: false,
    };
    let (state, changed) = transition_step(pre, &log_event(tool_result("call_A", true)));
    assert!(changed);
    assert_eq!(state, ClaudeCodeState::StopUseTool);
}

#[test]
fn tool_result_marks_done_and_last_closes() {
    let two = vec![
        UseTool {
            id: "call_A".to_string(),
            name: "First".to_string(),
            input: "{}".to_string(),
            done: false,
        },
        UseTool {
            id: "call_B".to_string(),
            name: "Second".to_string(),
            input: "{}".to_string(),
            done: false,
        },
    ];
    let pre = ClaudeCodeState::PreUseTool { request: two.clone(), is_pending: false };

    // A result for the first request marks it done and keeps the episode open.
    let (state, changed) = transition_step(pre, &log_event(tool_result("call_A", false)));
    assert!(changed);
    match &state {
        ClaudeCodeState::PreUseTool { request, .. } => {
            assert!(request[0].done);
            assert!(!request[1].done);
        }
        other => panic!("unexpected state: {:?}", other),
    }

    // A result for the last request closes the episode.
    let (state, changed) = transition_step(state, &log_event(tool_result("call_B", false)));
    assert!(changed);
    assert_eq!(state, ClaudeCodeState::StopUseTool);
}

#[test]
fn tool_result_with_empty_id_is_ignored() {
    let pre = ClaudeCodeState::PreUseTool {
        request: vec![UseTool {
            id: "call_A".to_string(),
            name: "WebSearch".to_string(),
            input: "{}".to_string(),
            done: false,
        }],
        is_pending: true,
    };
    let (state, changed) = transition_step(pre.clone(), &log_event(tool_result("", false)));
    assert!(!changed);
    assert_eq!(state, pre);
}

#[test]
fn pty_and_uncaught_are_not_state_inputs() {
    let output = ClaudeCodeState::Output { output: "a".to_string(), is_thinking: true };
    let (state, changed) = transition_step(
        output.clone(),
        &ClaudeCodeResult::PtyOutput("\u{1b}[2J".to_string()),
    );
    assert!(!changed);
    assert_eq!(state, output);

    let (state, changed) =
        transition_step(output.clone(), &ClaudeCodeResult::Uncaught("???".to_string()));
    assert!(!changed);
    assert_eq!(state, output);

    let summary = ClaudeCodeLog::Summary(ClaudeCodeSummary {
        leaf_uuid: "l".to_string(),
        summary: "s".to_string(),
    });
    let (state, changed) = transition_step(output.clone(), &log_event(summary));
    assert!(!changed);
    assert_eq!(state, output);
}

#[test]
fn machine_runs_prefixes_identically() {
    // Feeding a sequence in one go equals feeding a prefix and resuming.
    let events = vec![
        log_event(tool_use("call_A", "WebSearch", "{}")),
        log_event(tool_result("call_A", false)),
        log_event(text_output("answer")),
        log_event(stop_record()),
    ];

    for split in 0..=events.len() {
        let mut one_go = ClaudeCode::new();
        for e in &events {
            one_go.update_state(e);
        }

        let mut resumed = ClaudeCode::new();
        for e in &events[..split] {
            resumed.update_state(e);
        }
        for e in &events[split..] {
            resumed.update_state(e);
        }
        assert_eq!(one_go.state(), resumed.state());
    }
}

#[test]
fn state_predicates() {
    let idle = ClaudeCodeState::Idle;
    let stop = ClaudeCodeState::StopUseTool;
    let answer = ClaudeCodeState::Output { output: "o".to_string(), is_thinking: false };
    let mull = ClaudeCodeState::Output { output: "o".to_string(), is_thinking: true };
    let open = ClaudeCodeState::PreUseTool { request: vec![], is_pending: false };
    let pending = ClaudeCodeState::PreUseTool { request: vec![], is_pending: true };

    assert!(idle.input_available());
    assert!(stop.input_available());
    assert!(answer.input_available());
    assert!(!mull.input_available());
    assert!(!open.input_available());
    assert!(!pending.input_available());

    assert!(!idle.cancel_available());
    assert!(!stop.cancel_available());
    assert!(!answer.cancel_available());
    assert!(mull.cancel_available());
    assert!(open.cancel_available());
    assert!(pending.cancel_available());

    // Confirm strictly contains input: everywhere input holds confirm holds,
    // and the pending state admits confirm but not input.
    for s in [&idle, &stop, &answer, &mull, &open, &pending] {
        if s.input_available() {
            assert!(s.confirm_available());
        }
    }
    assert!(pending.confirm_available());
    assert!(!pending.input_available());
    assert!(!open.confirm_available());
}

#[test]
fn state_labels() {
    assert_eq!(ClaudeCodeState::Idle.to_string(), "idle");
    assert_eq!(ClaudeCodeState::StopUseTool.to_string(), "stop_use_tool");
    assert_eq!(
        ClaudeCodeState::Output { output: "o".to_string(), is_thinking: true }.to_string(),
        "thinking"
    );
    assert_eq!(
        ClaudeCodeState::Output { output: "o".to_string(), is_thinking: false }.to_string(),
        "output"
    );
    assert_eq!(
        ClaudeCodeState::PreUseTool { request: vec![], is_pending: false }.to_string(),
        "pre_use_tool"
    );
}
