use echokit_terminal::claude::ClaudeCodeResult;
use echokit_terminal::json::classify_history_line;
use echokit_terminal::json::parse_transcript_line;
use echokit_terminal::transcript::ClaudeCodeLog;
use echokit_terminal::transcript::ClaudeCodeMessageContent;
use echokit_terminal::transcript::ClaudeCodeUserContent;
use echokit_terminal::transcript::ComplexUserContent;

#[test]
fn test_deserialize_assistant_message() {
    let json_data = r#"
{
  "parentUuid": "512b8a59-e6e2-4c52-98eb-639f9507d8c7",
  "isSidechain": false,
  "userType": "external",
  "cwd": "/home/csh/my_workspace/speak_term",
  "sessionId": "5b5d4905-ac9a-43e9-ba30-7b71aeceebcf",
  "version": "2.0.76",
  "gitBranch": "main",
  "message": {
    "id": "msg_20260204034521b04dbf504c2a4319",
    "type": "message",
    "role": "assistant",
    "model": "glm-4.7",
    "content": [
      {
        "type": "tool_use",
        "id": "call_a1eb95ef746740859a6b419c",
        "name": "WebSearch",
        "input": {
          "query": "黄金价格 2026年2月4日 今天"
        }
      }
    ],
    "stop_reason": null,
    "stop_sequence": null,
    "usage": {
      "input_tokens": 15964,
      "output_tokens": 44,
      "cache_read_input_tokens": 640,
      "server_tool_use": {
        "web_search_requests": 0
      }
    }
  },
  "type": "assistant",
  "uuid": "5b1183ea-1a68-4993-baea-e7bf36ca8a77",
  "timestamp": "2026-02-03T19:45:23.681Z"
}"#;

    let assistant_message = parse_transcript_line(json_data).unwrap();
    println!("{:#?}", assistant_message);
}

#[test]
fn test_file_history_snapshot() {
    let json_data = r#"
{
  "type": "file-history-snapshot",
  "messageId": "3fcd8eb2-9a42-4d3b-a20d-14add25ce14e",
  "snapshot": {
    "messageId": "3fcd8eb2-9a42-4d3b-a20d-14add25ce14e",
    "trackedFileBackups": {},
    "timestamp": "2026-02-03T19:45:19.124Z"
  },
  "isSnapshotUpdate": false
}
        "#;

    let snapshot = parse_transcript_line(json_data).unwrap();
    println!("{:#?}", snapshot);
}

#[test]
fn test_user_message() {
    let json_data = r#"
        {
  "parentUuid": null,
  "isSidechain": false,
  "userType": "external",
  "cwd": "/home/csh/my_workspace/speak_term",
  "sessionId": "d81a49c3-8461-4fe1-b315-a26aeedb9dd4",
  "version": "2.0.76",
  "gitBranch": "main",
  "type": "user",
  "message": {
    "role": "user",
    "content": "帮我搜索一下今天白银的价格"
  },
  "uuid": "a58ae98a-ae73-42c5-8939-47798a81902c",
  "timestamp": "2026-02-03T19:56:35.735Z",
  "thinkingMetadata": {
    "level": "high",
    "disabled": false,
    "triggers": []
  },
  "todos": []
}
        "#;

    let user_message = parse_transcript_line(json_data).unwrap();
    println!("{:#?}", user_message);
}

#[test]
fn test_user_tool_result_message() {
    let json_data = r#"
    {
  "parentUuid": "df258c14-223d-4eb2-bd83-a90b7eea1d78",
  "isSidechain": false,
  "userType": "external",
  "cwd": "/home/csh/my_workspace/speak_term",
  "sessionId": "d284f444-9e56-4318-a472-bc18481b7793",
  "version": "2.0.76",
  "gitBranch": "main",
  "type": "user",
  "message": {
    "role": "user",
    "content": [
      {
        "type": "tool_result",
        "content": "The user doesn't want to proceed with this tool use. The tool use was rejected (eg. if it was a file edit, the new_string was NOT written to the file). STOP what you are doing and wait for the user to tell you how to proceed.",
        "is_error": true,
        "tool_use_id": "call_5bcf8991a9a046bd9780bedd"
      }
    ]
  },
  "uuid": "bb7a7ea8-3028-4318-b27c-44ed53c45372",
  "timestamp": "2026-02-03T18:12:41.873Z",
  "toolUseResult": "Error: The user doesn't want to proceed with this tool use. The tool use was rejected (eg. if it was a file edit, the new_string was NOT written to the file). STOP what you are doing and wait for the user to tell you how to proceed."
}
        "#;

    let user_message = parse_transcript_line(json_data).unwrap();
    println!("{:#?}", user_message);
}

#[test]
fn parsed_assistant_tool_use_fields() {
    let json_data = r#"{"type":"assistant","sessionId":"s","uuid":"u","timestamp":"t","message":{"id":"m","role":"assistant","model":"x","content":[{"type":"tool_use","id":"call_A","name":"WebSearch","input":{"q":"x"}}],"stop_reason":null}}"#;
    let log = parse_transcript_line(json_data).unwrap();
    assert!(!log.is_stop());
    let (id, name, input) = log.is_tool_request().unwrap();
    assert_eq!(id, "call_A");
    assert_eq!(name, "WebSearch");
    assert_eq!(input, r#"{"q":"x"}"#);
    assert!(log.is_output().is_none());
    let (result_id, _) = log.is_tool_result();
    assert_eq!(result_id, "");
}

#[test]
fn parsed_assistant_stop_reason() {
    let json_data = r#"{"type":"assistant","sessionId":"s","uuid":"u","timestamp":"t","message":{"id":"m","role":"assistant","model":"x","content":[{"type":"text","text":"done"}],"stop_reason":"end_turn"}}"#;
    let log = parse_transcript_line(json_data).unwrap();
    assert!(log.is_stop());
    let (text, is_thinking) = log.is_output().unwrap();
    assert_eq!(text, "done");
    assert!(!is_thinking);
}

#[test]
fn parsed_assistant_thinking() {
    let json_data = r#"{"type":"assistant","sessionId":"s","uuid":"u","timestamp":"t","message":{"id":"m","role":"assistant","model":"x","content":[{"type":"thinking","thinking":"hmm"}]}}"#;
    let log = parse_transcript_line(json_data).unwrap();
    assert!(!log.is_stop());
    let (text, is_thinking) = log.is_output().unwrap();
    assert_eq!(text, "hmm");
    assert!(is_thinking);
}

#[test]
fn parsed_system_message_is_stop() {
    let json_data = r#"{"type":"system","subtype":"stop_hook_summary","sessionId":"s","uuid":"u","stopReason":""}"#;
    let log = parse_transcript_line(json_data).unwrap();
    assert!(matches!(log, ClaudeCodeLog::SystemMessage(_)));
    assert!(log.is_stop());
}

#[test]
fn parsed_tool_result_fields() {
    let json_data = r#"{"type":"user","sessionId":"s","uuid":"u","timestamp":"t","message":{"role":"user","content":[{"type":"tool_result","content":"ok","tool_use_id":"call_B"}]}}"#;
    let log = parse_transcript_line(json_data).unwrap();
    let (id, is_error) = log.is_tool_result();
    assert_eq!(id, "call_B");
    assert!(!is_error);
    match &log {
        ClaudeCodeLog::UserMessage(m) => match &m.message {
            ClaudeCodeUserContent::Complex { content, .. } => match content {
                ComplexUserContent::ToolResult { id, content, is_error } => {
                    assert_eq!(id, "call_B");
                    assert_eq!(content, "ok");
                    assert!(!is_error);
                }
                other => panic!("unexpected item: {:?}", other),
            },
            other => panic!("unexpected content: {:?}", other),
        },
        other => panic!("unexpected record: {:?}", other),
    }
}

#[test]
fn parsed_user_text_is_no_predicate() {
    let json_data = r#"{"type":"user","sessionId":"s","uuid":"u","timestamp":"t","message":{"role":"user","content":"hello"}}"#;
    let log = parse_transcript_line(json_data).unwrap();
    assert!(!log.is_stop());
    assert!(log.is_tool_request().is_none());
    assert!(log.is_output().is_none());
    let (id, is_error) = log.is_tool_result();
    assert_eq!(id, "");
    assert!(!is_error);
}

#[test]
fn parsed_summary_record() {
    let json_data = r#"{"type":"summary","summary":"Gold Price Inquiry in Chinese","leafUuid":"14800747-fd6e-4147-a60d-9b227aecf863"}"#;
    let log = parse_transcript_line(json_data).unwrap();
    match &log {
        ClaudeCodeLog::Summary(s) => {
            assert_eq!(s.summary, "Gold Price Inquiry in Chinese");
            assert_eq!(s.leaf_uuid, "14800747-fd6e-4147-a60d-9b227aecf863");
        }
        other => panic!("unexpected record: {:?}", other),
    }
    assert!(!log.is_stop());
}

#[test]
fn missing_required_fields_do_not_parse() {
    // A system record without its stop reason field is not a record.
    assert!(parse_transcript_line(
        r#"{"type":"system","sessionId":"s","uuid":"u"}"#
    )
    .is_none());

    // A snapshot needs its update flag, and it must be a boolean.
    assert!(parse_transcript_line(r#"{"type":"file-history-snapshot","messageId":"m"}"#)
        .is_none());
    assert!(parse_transcript_line(
        r#"{"type":"file-history-snapshot","messageId":"m","isSnapshotUpdate":"yes"}"#
    )
    .is_none());

    // A summary needs both fields.
    assert!(parse_transcript_line(r#"{"type":"summary","summary":"s"}"#).is_none());

    // A user record needs its envelope fields and a role.
    assert!(parse_transcript_line(
        r#"{"type":"user","uuid":"u","timestamp":"t","message":{"role":"user","content":"x"}}"#
    )
    .is_none());
    assert!(parse_transcript_line(
        r#"{"type":"user","sessionId":"s","uuid":"u","timestamp":"t","message":{"content":"x"}}"#
    )
    .is_none());

    // A tool result needs its content; a present non-boolean error flag
    // does not parse, while an absent one defaults to false.
    assert!(parse_transcript_line(
        r#"{"type":"user","sessionId":"s","uuid":"u","timestamp":"t","message":{"role":"user","content":[{"type":"tool_result","tool_use_id":"c"}]}}"#
    )
    .is_none());
    assert!(parse_transcript_line(
        r#"{"type":"user","sessionId":"s","uuid":"u","timestamp":"t","message":{"role":"user","content":[{"type":"tool_result","content":"ok","is_error":"no"}]}}"#
    )
    .is_none());

    // An assistant record needs its message body complete, exactly one
    // content item, and a string or null stop reason.
    assert!(parse_transcript_line(
        r#"{"type":"assistant","sessionId":"s","uuid":"u","timestamp":"t","message":{"id":"m","role":"assistant","content":[{"type":"text","text":"x"}]}}"#
    )
    .is_none());
    assert!(parse_transcript_line(
        r#"{"type":"assistant","sessionId":"s","uuid":"u","timestamp":"t","message":{"id":"m","role":"assistant","model":"x","content":[],"stop_reason":null}}"#
    )
    .is_none());
    assert!(parse_transcript_line(
        r#"{"type":"assistant","sessionId":"s","uuid":"u","timestamp":"t","message":{"id":"m","role":"assistant","model":"x","content":[{"type":"text","text":"x"}],"stop_reason":7}}"#
    )
    .is_none());

    // A tool invocation needs its input member.
    assert!(parse_transcript_line(
        r#"{"type":"assistant","sessionId":"s","uuid":"u","timestamp":"t","message":{"id":"m","role":"assistant","model":"x","content":[{"type":"tool_use","id":"i","name":"n"}]}}"#
    )
    .is_none());
}

#[test]
fn aliased_field_names_are_accepted() {
    // The transcript writer uses camelCase; the snake_case field names are
    // accepted too, but a record naming a field both ways does not parse.
    let log = parse_transcript_line(
        r#"{"type":"system","session_id":"s","uuid":"u","stop_reason":"done"}"#,
    )
    .unwrap();
    assert!(log.is_stop());

    let log = parse_transcript_line(
        r#"{"type":"summary","summary":"x","leaf_uuid":"l"}"#,
    )
    .unwrap();
    assert!(matches!(log, ClaudeCodeLog::Summary(_)));

    assert!(parse_transcript_line(
        r#"{"type":"system","session_id":"a","sessionId":"b","uuid":"u","stopReason":""}"#
    )
    .is_none());
}

#[test]
fn unparseable_line_is_uncaught() {
    let line = "not json at all";
    match classify_history_line(line) {
        ClaudeCodeResult::Uncaught(raw) => assert_eq!(raw, line),
        _ => panic!("expected Uncaught"),
    }
    match classify_history_line(r#"{"type":"unknown-kind"}"#) {
        ClaudeCodeResult::Uncaught(_) => {}
        _ => panic!("expected Uncaught"),
    }
}

#[test]
fn parsed_record_tool_use_has_assistant_content() {
    let json_data = r#"{"type":"assistant","sessionId":"s","uuid":"u","timestamp":"t","message":{"id":"mid","role":"assistant","model":"glm-4.7","content":[{"type":"tool_use","id":"i","name":"n","input":{}}],"stop_reason":"tool_use"}}"#;
    let log = parse_transcript_line(json_data).unwrap();
    match &log {
        ClaudeCodeLog::AssistantMessage(m) => {
            assert_eq!(m.message.id, "mid");
            assert_eq!(m.message.model, "glm-4.7");
            assert_eq!(m.message.stop_reason.as_deref(), Some("tool_use"));
            assert!(matches!(
                m.message.content,
                ClaudeCodeMessageContent::ToolUse { .. }
            ));
        }
        other => panic!("unexpected record: {:?}", other),
    }
}
