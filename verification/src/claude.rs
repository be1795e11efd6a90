//! The transcript-derived session state machine.
//!
//! A session is always in one of four states: `Idle`, `Output`, `PreUseTool`
//! or `StopUseTool`. Transcript records and two synthetic timeout events
//! drive a pure transition function; the executable machine is proved to
//! follow it exactly.

use vstd::prelude::*;

use crate::transcript::ClaudeCodeLog;
use crate::transcript::spec_is_stop;
use crate::transcript::spec_output;
use crate::transcript::spec_tool_request;
use crate::transcript::spec_tool_result;

verus! {

/// One tool invocation the agent has declared and the session is tracking.
/// `input` carries the tool's JSON argument text opaquely.
#[derive(Debug, Clone, PartialEq, Eq)]
pub struct UseTool {
    pub id: String,
    pub name: String,
    pub input: String,
    pub done: bool,
}

/// The mathematical image of a [`UseTool`].
pub struct UseToolView {
    pub id: Seq<char>,
    pub name: Seq<char>,
    pub input: Seq<char>,
    pub done: bool,
}

impl View for UseTool {
    type V = UseToolView;

    open spec fn view(&self) -> UseToolView {
        UseToolView { id: self.id@, name: self.name@, input: self.input@, done: self.done }
    }
}

/// The states an agent session can be in, as derived from its transcript.
#[derive(Debug, Clone, PartialEq, Eq)]
pub enum ClaudeCodeState {
    PreUseTool { request: Vec<UseTool>, is_pending: bool },
    Output { output: String, is_thinking: bool },
    StopUseTool,
    Idle,
}

/// The mathematical image of a [`ClaudeCodeState`].
pub enum StateView {
    PreUseTool { request: Seq<UseToolView>, is_pending: bool },
    Output { output: Seq<char>, is_thinking: bool },
    StopUseTool,
    Idle,
}

/// The view of a sequence of tracked tool invocations.
pub open spec fn tools_view(request: Seq<UseTool>) -> Seq<UseToolView> {
    request.map_values(|t: UseTool| t@)
}

impl View for ClaudeCodeState {
    type V = StateView;

    open spec fn view(&self) -> StateView {
        match self {
            ClaudeCodeState::PreUseTool { request, is_pending } => StateView::PreUseTool {
                request: tools_view(request@),
                is_pending: *is_pending,
            },
            ClaudeCodeState::Output { output, is_thinking } => StateView::Output {
                output: output@,
                is_thinking: *is_thinking,
            },
            ClaudeCodeState::StopUseTool => StateView::StopUseTool,
            ClaudeCodeState::Idle => StateView::Idle,
        }
    }
}

/// A client may submit fresh input: the session is idle, a tool episode has
/// just finished, or a non-thinking output block is streaming.
pub open spec fn view_input_available(s: StateView) -> bool {
    match s {
        StateView::Idle => true,
        StateView::StopUseTool => true,
        StateView::Output { is_thinking, .. } => !is_thinking,
        StateView::PreUseTool { .. } => false,
    }
}

/// A client may cancel: a tool request is open, or a thinking block is
/// streaming.
pub open spec fn view_cancel_available(s: StateView) -> bool {
    match s {
        StateView::PreUseTool { .. } => true,
        StateView::Output { is_thinking, .. } => is_thinking,
        _ => false,
    }
}

/// A client may confirm: anywhere input is available, or a tool request has
/// been promoted to pending.
pub open spec fn view_confirm_available(s: StateView) -> bool {
    view_input_available(s) || (s matches StateView::PreUseTool { is_pending, .. }
        && is_pending)
}

/// The short label the gateway reports for a state.
pub open spec fn view_state_label(s: StateView) -> Seq<char> {
    match s {
        StateView::PreUseTool { .. } => "pre_use_tool"@,
        StateView::Output { is_thinking, .. } => if is_thinking {
            "thinking"@
        } else {
            "output"@
        },
        StateView::StopUseTool => "stop_use_tool"@,
        StateView::Idle => "idle"@,
    }
}

impl ClaudeCodeState {
    /// Whether a client may submit fresh input in this state.
    pub fn input_available(&self) -> (r: bool)
        ensures
            r == view_input_available(self@),
    {
        match self {
            ClaudeCodeState::Idle => true,
            ClaudeCodeState::StopUseTool => true,
            ClaudeCodeState::Output { is_thinking, .. } => !*is_thinking,
            ClaudeCodeState::PreUseTool { .. } => false,
        }
    }

    /// Whether a client may cancel in this state.
    pub fn cancel_available(&self) -> (r: bool)
        ensures
            r == view_cancel_available(self@),
    {
        match self {
            ClaudeCodeState::PreUseTool { .. } => true,
            ClaudeCodeState::Output { is_thinking, .. } => *is_thinking,
            _ => false,
        }
    }

    /// Whether a client may confirm in this state.
    pub fn confirm_available(&self) -> (r: bool)
        ensures
            r == view_confirm_available(self@),
    {
        if self.input_available() {
            true
        } else {
            match self {
                ClaudeCodeState::PreUseTool { is_pending, .. } => *is_pending,
                _ => false,
            }
        }
    }

    /// The short label the gateway reports for this state.
    pub fn to_string(&self) -> (r: String)
        ensures
            r@ == view_state_label(self@),
    {
        match self {
            ClaudeCodeState::PreUseTool { .. } => "pre_use_tool".to_owned(),
            ClaudeCodeState::Output { is_thinking, .. } => if *is_thinking {
                "thinking".to_owned()
            } else {
                "output".to_owned()
            },
            ClaudeCodeState::StopUseTool => "stop_use_tool".to_owned(),
            ClaudeCodeState::Idle => "idle".to_owned(),
        }
    }
}

/// One observation the session event loop feeds through the machine: a raw
/// pty chunk, a parsed transcript record, one of the two timeout probes, or
/// an unparseable line.
#[derive(Debug, Clone, PartialEq, Eq)]
pub enum ClaudeCodeResult {
    PtyOutput(String),
    ClaudeLog(ClaudeCodeLog),
    WaitForUserInputBeforeTool,
    WaitForUserInput,
    Uncaught(String),
}

/// Index of the first tracked tool whose call identifier is `id`, searching
/// from position `i`.
pub open spec fn find_tool_at(request: Seq<UseToolView>, id: Seq<char>, i: int) -> Option<int>
    decreases request.len() - i,
{
    if i < 0 || i >= request.len() {
        None
    } else if request[i].id == id {
        Some(i)
    } else {
        find_tool_at(request, id, i + 1)
    }
}

/// Index of the first tracked tool whose call identifier is `id`.
pub open spec fn find_tool(request: Seq<UseToolView>, id: Seq<char>) -> Option<int> {
    find_tool_at(request, id, 0)
}

/// The state after a transcript record arrives, and whether it changed.
pub open spec fn transition_log(s: StateView, log: ClaudeCodeLog) -> (StateView, bool) {
    match s {
        StateView::PreUseTool { request, is_pending } => {
            let (result_id, result_is_error) = spec_tool_result(log);
            if result_id.len() > 0 {
                if result_is_error {
                    (StateView::StopUseTool, true)
                } else {
                    match find_tool(request, result_id) {
                        Some(i) => if i + 1 == request.len() {
                            (StateView::StopUseTool, true)
                        } else {
                            let marked = UseToolView {
                                id: request[i].id,
                                name: request[i].name,
                                input: request[i].input,
                                done: true,
                            };
                            (
                                StateView::PreUseTool {
                                    request: request.update(i, marked),
                                    is_pending,
                                },
                                true,
                            )
                        },
                        None => (StateView::PreUseTool { request, is_pending }, true),
                    }
                }
            } else if spec_is_stop(log) {
                (StateView::StopUseTool, true)
            } else {
                match spec_tool_request(log) {
                    Some((id, name, input)) => {
                        let fresh = UseToolView {
                            id: id@,
                            name: name@,
                            input: input@,
                            done: false,
                        };
                        (
                            StateView::PreUseTool { request: request.push(fresh), is_pending },
                            true,
                        )
                    },
                    None => (StateView::PreUseTool { request, is_pending }, false),
                }
            }
        },
        StateView::Output { output, is_thinking } => {
            if spec_is_stop(log) {
                (StateView::Idle, true)
            } else {
                match spec_tool_request(log) {
                    Some((id, name, input)) => {
                        let fresh = UseToolView {
                            id: id@,
                            name: name@,
                            input: input@,
                            done: false,
                        };
                        (
                            StateView::PreUseTool {
                                request: seq![fresh],
                                is_pending: false,
                            },
                            true,
                        )
                    },
                    None => match spec_output(log) {
                        Some((text, thinking)) => (
                            StateView::Output { output: text@, is_thinking: thinking },
                            true,
                        ),
                        None => (StateView::Output { output, is_thinking }, false),
                    },
                }
            }
        },
        _ => {
            // Idle or StopUseTool
            if spec_is_stop(log) {
                (StateView::Idle, s is StopUseTool)
            } else {
                match spec_tool_request(log) {
                    Some((id, name, input)) => {
                        let fresh = UseToolView {
                            id: id@,
                            name: name@,
                            input: input@,
                            done: false,
                        };
                        (
                            StateView::PreUseTool {
                                request: seq![fresh],
                                is_pending: false,
                            },
                            true,
                        )
                    },
                    None => match spec_output(log) {
                        Some((text, thinking)) => (
                            StateView::Output { output: text@, is_thinking: thinking },
                            true,
                        ),
                        None => (s, false),
                    },
                }
            }
        },
    }
}

/// The pure transition function of the machine: from a state and an incoming
/// event to the next state and a changed flag.
pub open spec fn transition(s: StateView, e: ClaudeCodeResult) -> (StateView, bool) {
    match e {
        ClaudeCodeResult::PtyOutput(_) => (s, false),
        ClaudeCodeResult::Uncaught(_) => (s, false),
        ClaudeCodeResult::WaitForUserInputBeforeTool => match s {
            StateView::PreUseTool { request, .. } => (
                StateView::PreUseTool { request, is_pending: true },
                true,
            ),
            _ => (s, false),
        },
        ClaudeCodeResult::WaitForUserInput => match s {
            StateView::Output { .. } => (StateView::Idle, true),
            _ => (s, false),
        },
        ClaudeCodeResult::ClaudeLog(log) => transition_log(s, log),
    }
}

/// Index of the first tool in `request` whose call identifier equals `id`.
fn find_tool_index(request: &Vec<UseTool>, id: &String) -> (r: Option<usize>)
    ensures
        match r {
            Some(i) => i < request@.len() && find_tool(tools_view(request@), id@) == Some(
                i as int,
            ),
            None => find_tool(tools_view(request@), id@) is None,
        },
{
    let ghost tools = tools_view(request@);
    let mut i: usize = 0;
    while i < request.len()
        invariant
            i <= request@.len(),
            tools == tools_view(request@),
            find_tool(tools, id@) == find_tool_at(tools, id@, i as int),
        decreases request@.len() - i,
    {
        if request[i].id == *id {
            assert(find_tool_at(tools, id@, i as int) == Some(i as int));
            return Some(i);
        }
        assert(find_tool_at(tools, id@, i as int) == find_tool_at(tools, id@, i + 1 as int));
        i = i + 1;
    }
    None
}

/// One step of the machine on an incoming transcript record.
fn transition_step_log(state: ClaudeCodeState, log: &ClaudeCodeLog) -> (r: (
    ClaudeCodeState,
    bool,
))
    ensures
        r.0@ == transition_log(state@, *log).0,
        r.1 == transition_log(state@, *log).1,
{
    match state {
        ClaudeCodeState::PreUseTool { request, is_pending } => {
            let (result_id, result_is_error) = log.is_tool_result();
            if !result_id.as_str().is_empty() {
                if result_is_error {
                    (ClaudeCodeState::StopUseTool, true)
                } else {
                    match find_tool_index(&request, &result_id) {
                        Some(i) => {
                            let n = request.len();
                            if i + 1 == n {
                                (ClaudeCodeState::StopUseTool, true)
                            } else {
                                let marked = UseTool {
                                    id: request[i].id.clone(),
                                    name: request[i].name.clone(),
                                    input: request[i].input.clone(),
                                    done: true,
                                };
                                let mut request = request;
                                request.set(i, marked);
                                proof {
                                    assert(tools_view(request@) =~= transition_log(
                                        state@,
                                        *log,
                                    ).0->PreUseTool_request);
                                }
                                (ClaudeCodeState::PreUseTool { request, is_pending }, true)
                            }
                        },
                        None => (ClaudeCodeState::PreUseTool { request, is_pending }, true),
                    }
                }
            } else if log.is_stop() {
                (ClaudeCodeState::StopUseTool, true)
            } else {
                match log.is_tool_request() {
                    Some((id, name, input)) => {
                        let fresh = UseTool { id, name, input, done: false };
                        let mut request = request;
                        request.push(fresh);
                        proof {
                            assert(tools_view(request@) =~= transition_log(
                                state@,
                                *log,
                            ).0->PreUseTool_request);
                        }
                        (ClaudeCodeState::PreUseTool { request, is_pending }, true)
                    },
                    None => (ClaudeCodeState::PreUseTool { request, is_pending }, false),
                }
            }
        },
        ClaudeCodeState::Output { output, is_thinking } => {
            if log.is_stop() {
                (ClaudeCodeState::Idle, true)
            } else {
                match log.is_tool_request() {
                    Some((id, name, input)) => {
                        let fresh = UseTool { id, name, input, done: false };
                        let mut request: Vec<UseTool> = Vec::new();
                        request.push(fresh);
                        proof {
                            assert(tools_view(request@) =~= transition_log(
                                state@,
                                *log,
                            ).0->PreUseTool_request);
                        }
                        (
                            ClaudeCodeState::PreUseTool { request, is_pending: false },
                            true,
                        )
                    },
                    None => match log.is_output() {
                        Some((text, thinking)) => (
                            ClaudeCodeState::Output { output: text, is_thinking: thinking },
                            true,
                        ),
                        None => (ClaudeCodeState::Output { output, is_thinking }, false),
                    },
                }
            }
        },
        ClaudeCodeState::Idle => transition_step_log_fresh(ClaudeCodeState::Idle, log),
        ClaudeCodeState::StopUseTool => transition_step_log_fresh(
            ClaudeCodeState::StopUseTool,
            log,
        ),
    }
}

/// One step of the machine on a record arriving in `Idle` or `StopUseTool`.
fn transition_step_log_fresh(state: ClaudeCodeState, log: &ClaudeCodeLog) -> (r: (
    ClaudeCodeState,
    bool,
))
    requires
        state is Idle || state is StopUseTool,
    ensures
        r.0@ == transition_log(state@, *log).0,
        r.1 == transition_log(state@, *log).1,
{
    if log.is_stop() {
        let changed = match &state {
            ClaudeCodeState::StopUseTool => true,
            _ => false,
        };
        (ClaudeCodeState::Idle, changed)
    } else {
        match log.is_tool_request() {
            Some((id, name, input)) => {
                let fresh = UseTool { id, name, input, done: false };
                let mut request: Vec<UseTool> = Vec::new();
                request.push(fresh);
                proof {
                    assert(tools_view(request@) =~= transition_log(
                        state@,
                        *log,
                    ).0->PreUseTool_request);
                }
                (ClaudeCodeState::PreUseTool { request, is_pending: false }, true)
            },
            None => match log.is_output() {
                Some((text, thinking)) => (
                    ClaudeCodeState::Output { output: text, is_thinking: thinking },
                    true,
                ),
                None => (state, false),
            },
        }
    }
}

/// One step of the machine on any incoming event.
pub fn transition_step(state: ClaudeCodeState, event: &ClaudeCodeResult) -> (r: (
    ClaudeCodeState,
    bool,
))
    ensures
        r.0@ == transition(state@, *event).0,
        r.1 == transition(state@, *event).1,
{
    match event {
        ClaudeCodeResult::PtyOutput(_) => (state, false),
        ClaudeCodeResult::Uncaught(_) => (state, false),
        ClaudeCodeResult::WaitForUserInputBeforeTool => match state {
            ClaudeCodeState::PreUseTool { request, .. } => (
                ClaudeCodeState::PreUseTool { request, is_pending: true },
                true,
            ),
            other => (other, false),
        },
        ClaudeCodeResult::WaitForUserInput => match state {
            ClaudeCodeState::Output { .. } => (ClaudeCodeState::Idle, true),
            other => (other, false),
        },
        ClaudeCodeResult::ClaudeLog(log) => transition_step_log(state, log),
    }
}

/// The machine a session actor owns: the current derived state.
#[derive(Debug, Clone)]
pub struct ClaudeCode {
    state: ClaudeCodeState,
}

impl View for ClaudeCode {
    type V = StateView;

    closed spec fn view(&self) -> StateView {
        self.state@
    }
}

impl ClaudeCode {
    /// A fresh machine; every session starts idle.
    pub fn new() -> (r: ClaudeCode)
        ensures
            r@ is Idle,
    {
        ClaudeCode { state: ClaudeCodeState::Idle }
    }

    /// The current state.
    pub fn state(&self) -> (r: &ClaudeCodeState)
        ensures
            r@ == self@,
    {
        &self.state
    }

    /// Feed one event through the machine; the result says whether the state
    /// changed and should be re-broadcast.
    pub fn update_state(&mut self, result: &ClaudeCodeResult) -> (changed: bool)
        ensures
            final(self)@ == transition(old(self)@, *result).0,
            changed == transition(old(self)@, *result).1,
    {
        let mut st = ClaudeCodeState::Idle;
        core::mem::swap(&mut st, &mut self.state);
        let (st2, changed) = transition_step(st, result);
        self.state = st2;
        changed
    }
}

/// The state after feeding a whole sequence of events, in order.
pub open spec fn run(s: StateView, events: Seq<ClaudeCodeResult>) -> StateView
    decreases events.len(),
{
    if events.len() == 0 {
        s
    } else {
        run(transition(s, events[0]).0, events.drop_first())
    }
}

/// The machine has no hidden state: running a concatenation of two event
/// sequences is the same as running the first and resuming with the second.
pub proof fn lemma_run_append(s: StateView, a: Seq<ClaudeCodeResult>, b: Seq<ClaudeCodeResult>)
    ensures
        run(s, a + b) == run(run(s, a), b),
    decreases a.len(),
{
    if a.len() == 0 {
        assert(a + b =~= b);
    } else {
        assert((a + b)[0] == a[0]);
        assert((a + b).drop_first() =~= a.drop_first() + b);
        lemma_run_append(transition(s, a[0]).0, a.drop_first(), b);
    }
}

/// Feeding a sequence of events from any state is the same as feeding a
/// prefix, then resuming from the state the prefix reached: the machine is
/// deterministic and carries no state beyond its tagged variant.
pub proof fn lemma_run_prefix(s: StateView, events: Seq<ClaudeCodeResult>, i: int)
    requires
        0 <= i <= events.len(),
    ensures
        run(s, events) == run(run(s, events.take(i)), events.skip(i)),
{
    assert(events.take(i) + events.skip(i) =~= events);
    lemma_run_append(s, events.take(i), events.skip(i));
}

/// Wherever input is available, confirm is available too, and strictly more:
/// a pending tool request admits confirm but not input.
pub proof fn lemma_confirm_contains_input_strictly()
    ensures
        forall|s: StateView| view_input_available(s) ==> view_confirm_available(s),
        exists|s: StateView|
            view_confirm_available(s) && !view_input_available(s),
{
    let witness = StateView::PreUseTool { request: Seq::empty(), is_pending: true };
    assert(view_confirm_available(witness) && !view_input_available(witness));
}

} // verus!
