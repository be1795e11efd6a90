use echokit_terminal::actor::PROBE_INTERVAL_MS;
use echokit_terminal::actor::idle_threshold;
use echokit_terminal::bootstrap::DEFAULT_IDLE_SEC;
use echokit_terminal::bootstrap::DEFAULT_READY_TIMEOUT_SEC;
use echokit_terminal::bootstrap::base_env;
use echokit_terminal::bootstrap::claude_env;
use echokit_terminal::bootstrap::focus_in_bytes;
use echokit_terminal::bootstrap::scan_bootstrap_chunk;
use echokit_terminal::session_id::SessionId;
use echokit_terminal::shell::Bash;
use echokit_terminal::shell::ShellType;
use echokit_terminal::shell::Zsh;
use echokit_terminal::terminal::InputItem;
use echokit_terminal::terminal::InputStep;
use echokit_terminal::terminal::PtyWrite;
use echokit_terminal::terminal::control_bytes;
use echokit_terminal::terminal::input_item_steps;
use echokit_terminal::text::str_contains;
use echokit_terminal::text::str_eq;

#[test]
fn control_sequences() {
    assert_eq!(control_bytes(&PtyWrite::Esc), Some(vec![0x1b]));
    assert_eq!(control_bytes(&PtyWrite::Enter), Some(vec![0x0d]));
    assert_eq!(control_bytes(&PtyWrite::UpArrow), Some(vec![0x1b, b'[', b'A']));
    assert_eq!(control_bytes(&PtyWrite::DownArrow), Some(vec![0x1b, b'[', b'B']));
    assert_eq!(control_bytes(&PtyWrite::LeftArrow), Some(vec![0x1b, b'[', b'D']));
    assert_eq!(control_bytes(&PtyWrite::RightArrow), Some(vec![0x1b, b'[', b'C']));
    assert_eq!(control_bytes(&PtyWrite::Interrupt), Some(vec![0x03]));
    assert_eq!(control_bytes(&PtyWrite::Text("x".to_string())), None);
    assert_eq!(control_bytes(&PtyWrite::Bytes(vec![1])), None);
    assert_eq!(focus_in_bytes(), vec![0x1b, b'[', b'I']);
}

#[test]
fn input_items_map_to_steps() {
    assert_eq!(
        input_item_steps(&InputItem::Text { input: "ls".to_string() }),
        vec![InputStep::Write(PtyWrite::Text("ls".to_string()))]
    );
    assert_eq!(
        input_item_steps(&InputItem::KeyboardInterrupt),
        vec![InputStep::Write(PtyWrite::Interrupt)]
    );
    assert_eq!(
        input_item_steps(&InputItem::Enter),
        vec![InputStep::SleepMs(500), InputStep::Write(PtyWrite::Enter)]
    );
    assert_eq!(
        input_item_steps(&InputItem::Esc),
        vec![InputStep::Write(PtyWrite::Esc)]
    );
    assert_eq!(
        input_item_steps(&InputItem::Bytes(vec![9, 8])),
        vec![InputStep::Write(PtyWrite::Bytes(vec![9, 8]))]
    );
}

#[test]
fn bootstrap_scanning() {
    let scan = scan_bootstrap_chunk("Welcome to the agent, v2!", "agent");
    assert!(scan.ready);
    assert!(!scan.press_enter);

    let scan = scan_bootstrap_chunk("Yes, proceed?", "agent");
    assert!(!scan.ready);
    assert!(scan.press_enter);

    let scan = scan_bootstrap_chunk("loading...", "agent");
    assert!(!scan.ready);
    assert!(!scan.press_enter);

    let scan = scan_bootstrap_chunk("agentYes,", "agent");
    assert!(scan.ready);
    assert!(scan.press_enter);
}

#[test]
fn text_predicates() {
    assert!(str_contains("hello world", "lo w"));
    assert!(str_contains("hello", ""));
    assert!(!str_contains("hello", "world"));
    assert!(!str_contains("ab", "abc"));
    assert!(str_contains("abc", "abc"));
    assert!(str_contains("中文字符串测试", "字符串"));

    assert!(str_eq("abc", "abc"));
    assert!(!str_eq("abc", "abd"));
    assert!(!str_eq("abc", "ab"));
    assert!(str_eq("", ""));
}

#[test]
fn spawn_environment() {
    let env = base_env(24, 80);
    assert_eq!(env.len(), 6);
    assert_eq!(env[0], ("TERM".to_string(), "xterm-256color".to_string()));
    assert_eq!(env[1], ("COLUMNS".to_string(), "80".to_string()));
    assert_eq!(env[2], ("LINES".to_string(), "24".to_string()));
    assert_eq!(env[3], ("FORCE_COLOR".to_string(), "1".to_string()));
    assert_eq!(env[4], ("COLORTERM".to_string(), "truecolor".to_string()));
    assert_eq!(env[5], ("PYTHONUNBUFFERED".to_string(), "1".to_string()));

    let sid = SessionId::parse("d284f444-9e56-4318-a472-bc18481b7793").unwrap();
    let env = claude_env(24, 80, &sid);
    assert_eq!(env.len(), 7);
    assert_eq!(
        env[6],
        (
            "CLAUDE_SESSION_ID".to_string(),
            "d284f444-9e56-4318-a472-bc18481b7793".to_string()
        )
    );
}

#[test]
fn timing_constants() {
    assert_eq!(PROBE_INTERVAL_MS, 5000);
    assert_eq!(DEFAULT_IDLE_SEC, 120);
    assert_eq!(DEFAULT_READY_TIMEOUT_SEC, 20);

    // The idle threshold is the idle budget over the probe cadence, rounded
    // up: at 10 seconds, two ticks; at 120, twenty-four.
    assert_eq!(idle_threshold(10), 2);
    assert_eq!(idle_threshold(120), 24);
    assert_eq!(idle_threshold(1), 1);
    assert_eq!(idle_threshold(5), 1);
    assert_eq!(idle_threshold(6), 2);
    assert_eq!(idle_threshold(0), 0);
}

#[test]
fn shell_names() {
    assert_eq!(Bash::shell_name(), "bash");
    assert_eq!(Zsh::shell_name(), "zsh");
}
