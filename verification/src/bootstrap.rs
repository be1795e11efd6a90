//! Spawn-time policy for the agentic CLI child: the environment it is
//! seeded with, and the banner scanning that nudges its TUI past splash
//! screens while waiting for the transcript file to appear.

use vstd::prelude::*;

use crate::session_id::SessionId;
use crate::text::contains_sub;
use crate::text::str_contains;

verus! {

/// The idle budget in seconds when no override is configured.
pub const DEFAULT_IDLE_SEC: u64 = 120;

/// How long the spawn waits for the transcript file to appear, in seconds,
/// when no override is configured; polling runs at a one-second cadence.
pub const DEFAULT_READY_TIMEOUT_SEC: u64 = 20;

/// A decimal digit as a character.
pub open spec fn spec_dec_digit(d: int) -> char {
    if d == 0 {
        '0'
    } else if d == 1 {
        '1'
    } else if d == 2 {
        '2'
    } else if d == 3 {
        '3'
    } else if d == 4 {
        '4'
    } else if d == 5 {
        '5'
    } else if d == 6 {
        '6'
    } else if d == 7 {
        '7'
    } else if d == 8 {
        '8'
    } else {
        '9'
    }
}

/// The decimal digits of a non-negative number.
pub open spec fn spec_dec(n: int) -> Seq<char>
    decreases n,
{
    if n < 0 {
        Seq::empty()
    } else if n < 10 {
        seq![spec_dec_digit(n)]
    } else {
        spec_dec(n / 10).push(spec_dec_digit(n % 10))
    }
}

/// A decimal digit as text.
fn digit_str(d: u16) -> (r: &'static str)
    requires
        d < 10,
    ensures
        r@ == seq![spec_dec_digit(d as int)],
{
    proof {
        reveal_strlit("0");
        reveal_strlit("1");
        reveal_strlit("2");
        reveal_strlit("3");
        reveal_strlit("4");
        reveal_strlit("5");
        reveal_strlit("6");
        reveal_strlit("7");
        reveal_strlit("8");
        reveal_strlit("9");
    }
    match d {
        0 => "0",
        1 => "1",
        2 => "2",
        3 => "3",
        4 => "4",
        5 => "5",
        6 => "6",
        7 => "7",
        8 => "8",
        _ => "9",
    }
}

/// The decimal text of a value.
fn u16_decimal(n: u16) -> (r: String)
    ensures
        r@ == spec_dec(n as int),
    decreases n,
{
    if n < 10 {
        digit_str(n).to_owned()
    } else {
        let mut text = u16_decimal(n / 10);
        text.append(digit_str(n % 10));
        proof {
            assert(spec_dec((n / 10) as int) + seq![spec_dec_digit((n % 10) as int)]
                =~= spec_dec(n as int));
        }
        text
    }
}

/// What one polling tick saw in the child's pty output: whether the ready
/// banner appeared, and whether a confirmation prompt wants an enter.
#[derive(Debug, Clone, Copy, PartialEq, Eq)]
pub struct BootstrapScan {
    pub ready: bool,
    pub press_enter: bool,
}

/// Scan one chunk of splash-time pty output: the configured ready banner
/// marks the TUI as up, and a pending "Yes," confirmation prompt is cleared
/// with enter. Which banner to watch for depends on the launched agent, so
/// the caller configures it.
pub fn scan_bootstrap_chunk(chunk: &str, ready_banner: &str) -> (r: BootstrapScan)
    ensures
        r.ready == contains_sub(chunk@, ready_banner@),
        r.press_enter == contains_sub(chunk@, "Yes,"@),
{
    BootstrapScan {
        ready: str_contains(chunk, ready_banner),
        press_enter: str_contains(chunk, "Yes,"),
    }
}

/// The focus-in escape sequence written on every polling tick to nudge the
/// TUI: ESC `[` `I`.
pub fn focus_in_bytes() -> (r: Vec<u8>)
    ensures
        r@ =~= seq![27u8, 91u8, 73u8],
{
    let mut v: Vec<u8> = Vec::new();
    v.push(27);
    v.push(91);
    v.push(73);
    v
}

/// The environment every spawned child is seeded with: a terminal
/// description matching the requested size, forced color, and unbuffered
/// output.
pub fn base_env(rows: u16, cols: u16) -> (r: Vec<(String, String)>)
    ensures
        r@.len() == 6,
        r@[0].0@ == "TERM"@ && r@[0].1@ == "xterm-256color"@,
        r@[1].0@ == "COLUMNS"@ && r@[1].1@ == spec_dec(cols as int),
        r@[2].0@ == "LINES"@ && r@[2].1@ == spec_dec(rows as int),
        r@[3].0@ == "FORCE_COLOR"@ && r@[3].1@ == "1"@,
        r@[4].0@ == "COLORTERM"@ && r@[4].1@ == "truecolor"@,
        r@[5].0@ == "PYTHONUNBUFFERED"@ && r@[5].1@ == "1"@,
{
    let mut env: Vec<(String, String)> = Vec::new();
    env.push(("TERM".to_owned(), "xterm-256color".to_owned()));
    env.push(("COLUMNS".to_owned(), u16_decimal(cols)));
    env.push(("LINES".to_owned(), u16_decimal(rows)));
    env.push(("FORCE_COLOR".to_owned(), "1".to_owned()));
    env.push(("COLORTERM".to_owned(), "truecolor".to_owned()));
    env.push(("PYTHONUNBUFFERED".to_owned(), "1".to_owned()));
    env
}

/// The agentic CLI child's environment: the base set plus a session-id
/// variable the child can read.
pub fn claude_env(rows: u16, cols: u16, session_id: &SessionId) -> (r: Vec<(String, String)>)
    ensures
        r@.len() == 7,
        r@[0].0@ == "TERM"@ && r@[0].1@ == "xterm-256color"@,
        r@[1].0@ == "COLUMNS"@ && r@[1].1@ == spec_dec(cols as int),
        r@[2].0@ == "LINES"@ && r@[2].1@ == spec_dec(rows as int),
        r@[3].0@ == "FORCE_COLOR"@ && r@[3].1@ == "1"@,
        r@[4].0@ == "COLORTERM"@ && r@[4].1@ == "truecolor"@,
        r@[5].0@ == "PYTHONUNBUFFERED"@ && r@[5].1@ == "1"@,
        r@[6].0@ == "CLAUDE_SESSION_ID"@ && r@[6].1@ == session_id@,
{
    let mut env = base_env(rows, cols);
    env.push(("CLAUDE_SESSION_ID".to_owned(), session_id.text()));
    env
}

} // verus!
