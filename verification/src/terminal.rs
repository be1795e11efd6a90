//! Terminal flavours and the byte-level protocol of the pty side.
//!
//! A terminal kind is a tag with a common read/write capability set; the
//! agentic CLI kind reads structured results, the plain kinds read text.
//! The fixed escape sequences a session writes are pinned here, so the
//! unverified writer only ever moves bytes.

use vstd::prelude::*;

use crate::claude::ClaudeCode;
use crate::claude::ClaudeCodeResult;

verus! {

/// A terminal flavour; `Output` is what one read of the terminal yields.
pub trait TerminalType {
    type Output;
}

/// A terminal running a plain interactive program.
#[derive(Debug, Clone, Copy, PartialEq, Eq)]
pub struct Normal;

impl TerminalType for Normal {
    type Output = String;
}

impl TerminalType for ClaudeCode {
    type Output = ClaudeCodeResult;
}

/// One item of a batched input request.
#[derive(Debug, Clone, PartialEq, Eq)]
pub enum InputItem {
    Text { input: String },
    KeyboardInterrupt,
    Enter,
    Esc,
    Bytes(Vec<u8>),
}

/// A batch of input items submitted through the synchronous surface.
#[derive(Debug, Clone, PartialEq, Eq)]
pub struct InputRequest {
    pub inputs: Vec<InputItem>,
}

/// One write to the pty master: free text, raw bytes, or a fixed control
/// sequence.
#[derive(Debug, Clone, PartialEq, Eq)]
pub enum PtyWrite {
    Text(String),
    Bytes(Vec<u8>),
    Esc,
    Enter,
    UpArrow,
    DownArrow,
    LeftArrow,
    RightArrow,
    Interrupt,
}

/// The mathematical image of a [`PtyWrite`].
pub enum PtyWriteView {
    Text(Seq<char>),
    Bytes(Seq<u8>),
    Esc,
    Enter,
    UpArrow,
    DownArrow,
    LeftArrow,
    RightArrow,
    Interrupt,
}

impl View for PtyWrite {
    type V = PtyWriteView;

    open spec fn view(&self) -> PtyWriteView {
        match self {
            PtyWrite::Text(s) => PtyWriteView::Text(s@),
            PtyWrite::Bytes(b) => PtyWriteView::Bytes(b@),
            PtyWrite::Esc => PtyWriteView::Esc,
            PtyWrite::Enter => PtyWriteView::Enter,
            PtyWrite::UpArrow => PtyWriteView::UpArrow,
            PtyWrite::DownArrow => PtyWriteView::DownArrow,
            PtyWrite::LeftArrow => PtyWriteView::LeftArrow,
            PtyWrite::RightArrow => PtyWriteView::RightArrow,
            PtyWrite::Interrupt => PtyWriteView::Interrupt,
        }
    }
}

/// The bytes each fixed control sequence puts on the wire: ESC, carriage
/// return, the CSI arrow sequences, and the interrupt character.
pub open spec fn spec_control_bytes(w: PtyWriteView) -> Option<Seq<u8>> {
    match w {
        PtyWriteView::Esc => Some(seq![27u8]),
        PtyWriteView::Enter => Some(seq![13u8]),
        PtyWriteView::UpArrow => Some(seq![27u8, 91u8, 65u8]),
        PtyWriteView::DownArrow => Some(seq![27u8, 91u8, 66u8]),
        PtyWriteView::LeftArrow => Some(seq![27u8, 91u8, 68u8]),
        PtyWriteView::RightArrow => Some(seq![27u8, 91u8, 67u8]),
        PtyWriteView::Interrupt => Some(seq![3u8]),
        PtyWriteView::Text(_) => None,
        PtyWriteView::Bytes(_) => None,
    }
}

/// The byte sequence of a fixed control write; `None` for free text and raw
/// bytes, which are written as they stand.
pub fn control_bytes(w: &PtyWrite) -> (r: Option<Vec<u8>>)
    ensures
        match r {
            Some(bytes) => spec_control_bytes(w@) == Some(bytes@),
            None => spec_control_bytes(w@) is None,
        },
{
    match w {
        PtyWrite::Text(_) => None,
        PtyWrite::Bytes(_) => None,
        PtyWrite::Esc => {
            let mut v: Vec<u8> = Vec::new();
            v.push(27);
            proof {
                assert(v@ =~= seq![27u8]);
            }
            Some(v)
        },
        PtyWrite::Enter => {
            let mut v: Vec<u8> = Vec::new();
            v.push(13);
            proof {
                assert(v@ =~= seq![13u8]);
            }
            Some(v)
        },
        PtyWrite::UpArrow => Some(csi(65)),
        PtyWrite::DownArrow => Some(csi(66)),
        PtyWrite::LeftArrow => Some(csi(68)),
        PtyWrite::RightArrow => Some(csi(67)),
        PtyWrite::Interrupt => {
            let mut v: Vec<u8> = Vec::new();
            v.push(3);
            proof {
                assert(v@ =~= seq![3u8]);
            }
            Some(v)
        },
    }
}

/// A three-byte CSI sequence `ESC [ <last>`.
fn csi(last: u8) -> (r: Vec<u8>)
    ensures
        r@ =~= seq![27u8, 91u8, last],
{
    let mut v: Vec<u8> = Vec::new();
    v.push(27);
    v.push(91);
    v.push(last);
    v
}

/// One step of carrying an input item to the pty.
#[derive(Debug, Clone, PartialEq, Eq)]
pub enum InputStep {
    Write(PtyWrite),
    SleepMs(u64),
}

/// The mathematical image of an [`InputStep`].
pub enum InputStepView {
    Write(PtyWriteView),
    SleepMs(u64),
}

impl View for InputStep {
    type V = InputStepView;

    open spec fn view(&self) -> InputStepView {
        match self {
            InputStep::Write(w) => InputStepView::Write(w@),
            InputStep::SleepMs(ms) => InputStepView::SleepMs(*ms),
        }
    }
}

/// What one input item asks of the pty: text and raw bytes go through as
/// they stand; enter is debounced by a half-second settle first.
pub open spec fn spec_input_item_steps(item: InputItem) -> Seq<InputStepView> {
    match item {
        InputItem::Text { input } => seq![InputStepView::Write(PtyWriteView::Text(input@))],
        InputItem::KeyboardInterrupt => seq![InputStepView::Write(PtyWriteView::Interrupt)],
        InputItem::Enter => seq![
            InputStepView::SleepMs(500),
            InputStepView::Write(PtyWriteView::Enter),
        ],
        InputItem::Esc => seq![InputStepView::Write(PtyWriteView::Esc)],
        InputItem::Bytes(bytes) => seq![InputStepView::Write(PtyWriteView::Bytes(bytes@))],
    }
}

/// The pty steps for one input item.
pub fn input_item_steps(item: &InputItem) -> (r: Vec<InputStep>)
    ensures
        r@.map_values(|s: InputStep| s@) =~= spec_input_item_steps(*item),
{
    let mut steps: Vec<InputStep> = Vec::new();
    match item {
        InputItem::Text { input } => {
            steps.push(InputStep::Write(PtyWrite::Text(input.clone())));
        },
        InputItem::KeyboardInterrupt => {
            steps.push(InputStep::Write(PtyWrite::Interrupt));
        },
        InputItem::Enter => {
            steps.push(InputStep::SleepMs(500));
            steps.push(InputStep::Write(PtyWrite::Enter));
        },
        InputItem::Esc => {
            steps.push(InputStep::Write(PtyWrite::Esc));
        },
        InputItem::Bytes(bytes) => {
            steps.push(InputStep::Write(PtyWrite::Bytes(bytes.clone())));
        },
    }
    steps
}

} // verus!
