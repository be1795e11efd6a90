//! The per-session event loop, as a pure step function.
//!
//! The loop outside this crate waits on the pty, the transcript tailer and
//! the inbound command queue, then hands whatever it observed to
//! [`SessionActor::step`], which returns the writes, sleeps and broadcasts
//! to perform and whether the session is over. Every decision the loop
//! makes is here; the loop only moves bytes.

use vstd::prelude::*;

use crate::claude::ClaudeCode;
use crate::claude::ClaudeCodeResult;
use crate::claude::ClaudeCodeState;
use crate::claude::StateView;
use crate::claude::transition;
use crate::claude::view_cancel_available;
use crate::claude::view_confirm_available;
use crate::claude::view_input_available;
use crate::claude::view_state_label;
use crate::terminal::PtyWrite;
use crate::terminal::PtyWriteView;
use crate::ws::ErrorView;
use crate::ws::OutputView;
use crate::ws::WsInputMessage;
use crate::ws::WsOutputError;
use crate::ws::WsOutputMessage;

verus! {

/// One observation of the session's three inputs: a terminal read, an
/// inbound command, the command queue closing, or a read error.
#[derive(Debug, Clone)]
pub enum SessionEvent {
    Terminal(ClaudeCodeResult),
    Command(WsInputMessage),
    InboundClosed,
    ReadError,
}

/// One thing the loop must perform: broadcast an event, write to the pty,
/// or pause.
#[derive(Debug, Clone, PartialEq, Eq)]
pub enum Action {
    Emit(WsOutputMessage),
    Write(PtyWrite),
    SleepMs(u64),
}

/// The mathematical image of an [`Action`].
pub enum ActionView {
    Emit(OutputView),
    Write(PtyWriteView),
    SleepMs(u64),
}

impl View for Action {
    type V = ActionView;

    open spec fn view(&self) -> ActionView {
        match self {
            Action::Emit(m) => ActionView::Emit(m@),
            Action::Write(w) => ActionView::Write(w@),
            Action::SleepMs(ms) => ActionView::SleepMs(*ms),
        }
    }
}

/// The view of a sequence of actions.
pub open spec fn actions_view(actions: Seq<Action>) -> Seq<ActionView> {
    actions.map_values(|a: Action| a@)
}

/// The state-derived event broadcast as a snapshot of the current state: a
/// pending or open tool request reports its latest request, an output block
/// reports its text, and the quiescent states report idleness.
pub open spec fn snapshot_view(sid: Seq<char>, s: StateView) -> OutputView {
    match s {
        StateView::PreUseTool { request, is_pending } => {
            let tool_name = if request.len() > 0 {
                request.last().name
            } else {
                Seq::empty()
            };
            let tool_input = if request.len() > 0 {
                request.last().input
            } else {
                Seq::empty()
            };
            if is_pending {
                OutputView::SessionPending { session_id: sid, tool_name, tool_input }
            } else {
                OutputView::SessionToolRequest { session_id: sid, tool_name, tool_input }
            }
        },
        StateView::Output { output, is_thinking } => OutputView::SessionOutput {
            output,
            is_thinking,
        },
        _ => OutputView::SessionIdle { session_id: sid },
    }
}

/// The event a `CurrentState` request is answered with.
pub fn snapshot_event(session_id: &String, state: &ClaudeCodeState) -> (r: WsOutputMessage)
    ensures
        r@ == snapshot_view(session_id@, state@),
{
    match state {
        ClaudeCodeState::PreUseTool { request, is_pending } => {
            let n = request.len();
            let tool_name = if n > 0 {
                request[n - 1].name.clone()
            } else {
                String::new()
            };
            let tool_input = if n > 0 {
                request[n - 1].input.clone()
            } else {
                String::new()
            };
            if *is_pending {
                WsOutputMessage::SessionPending {
                    session_id: session_id.clone(),
                    tool_name,
                    tool_input,
                }
            } else {
                WsOutputMessage::SessionToolRequest {
                    session_id: session_id.clone(),
                    tool_name,
                    tool_input,
                }
            }
        },
        ClaudeCodeState::Output { output, is_thinking } => WsOutputMessage::SessionOutput {
            output: output.clone(),
            is_thinking: *is_thinking,
        },
        _ => WsOutputMessage::SessionIdle { session_id: session_id.clone() },
    }
}

/// What an inbound command asks of the session, given the current state:
/// state requests get a snapshot; input, cancel and confirm are admitted by
/// the state predicates or answered with an error; selection walks a menu.
pub open spec fn command_actions(sid: Seq<char>, s: StateView, cmd: WsInputMessage) -> Seq<
    ActionView,
> {
    match cmd {
        WsInputMessage::CreateSession => seq![ActionView::Emit(snapshot_view(sid, s))],
        WsInputMessage::CurrentState => seq![ActionView::Emit(snapshot_view(sid, s))],
        WsInputMessage::Input { input } => if view_input_available(s) {
            seq![ActionView::Write(PtyWriteView::Text(input@))]
        } else {
            seq![
                ActionView::Emit(
                    OutputView::SessionError {
                        session_id: sid,
                        code: ErrorView::InvalidInputForState {
                            error_state: view_state_label(s),
                            error_input: input@,
                        },
                    },
                ),
            ]
        },
        WsInputMessage::BytesInput { input } => seq![
            ActionView::Write(PtyWriteView::Bytes(input@)),
        ],
        WsInputMessage::Cancel => if view_cancel_available(s) {
            seq![ActionView::Write(PtyWriteView::Esc)]
        } else {
            seq![
                ActionView::Emit(
                    OutputView::SessionError {
                        session_id: sid,
                        code: ErrorView::InvalidInputForState {
                            error_state: view_state_label(s),
                            error_input: "Cancel"@,
                        },
                    },
                ),
            ]
        },
        WsInputMessage::Confirm => if view_confirm_available(s) {
            seq![ActionView::Write(PtyWriteView::Enter)]
        } else {
            Seq::empty()
        },
        WsInputMessage::Select { index } => Seq::new(
            index as nat,
            |i: int| ActionView::Write(PtyWriteView::DownArrow),
        ) + seq![ActionView::SleepMs(200), ActionView::Write(PtyWriteView::Enter)],
    }
}

/// The actions for one inbound command.
pub fn command_steps(session_id: &String, state: &ClaudeCodeState, cmd: WsInputMessage) -> (r:
    Vec<Action>)
    ensures
        actions_view(r@) == command_actions(session_id@, state@, cmd),
{
    let mut actions: Vec<Action> = Vec::new();
    match cmd {
        WsInputMessage::CreateSession => {
            actions.push(Action::Emit(snapshot_event(session_id, state)));
        },
        WsInputMessage::CurrentState => {
            actions.push(Action::Emit(snapshot_event(session_id, state)));
        },
        WsInputMessage::Input { input } => {
            if state.input_available() {
                actions.push(Action::Write(PtyWrite::Text(input)));
            } else {
                actions.push(
                    Action::Emit(
                        WsOutputMessage::SessionError {
                            session_id: session_id.clone(),
                            code: WsOutputError::InvalidInputForState {
                                error_state: state.to_string(),
                                error_input: input,
                            },
                        },
                    ),
                );
            }
        },
        WsInputMessage::BytesInput { input } => {
            actions.push(Action::Write(PtyWrite::Bytes(input)));
        },
        WsInputMessage::Cancel => {
            if state.cancel_available() {
                actions.push(Action::Write(PtyWrite::Esc));
            } else {
                actions.push(
                    Action::Emit(
                        WsOutputMessage::SessionError {
                            session_id: session_id.clone(),
                            code: WsOutputError::InvalidInputForState {
                                error_state: state.to_string(),
                                error_input: "Cancel".to_owned(),
                            },
                        },
                    ),
                );
            }
        },
        WsInputMessage::Confirm => {
            if state.confirm_available() {
                actions.push(Action::Write(PtyWrite::Enter));
            }
        },
        WsInputMessage::Select { index } => {
            let mut i: usize = 0;
            while i < index
                invariant
                    i <= index,
                    actions@.len() == i,
                    forall|j: int|
                        0 <= j < i ==> actions@[j]@ == ActionView::Write(
                            PtyWriteView::DownArrow,
                        ),
                decreases index - i,
            {
                actions.push(Action::Write(PtyWrite::DownArrow));
                i = i + 1;
            }
            actions.push(Action::SleepMs(200));
            actions.push(Action::Write(PtyWrite::Enter));
        },
    }
    proof {
        assert(actions_view(actions@) =~= command_actions(session_id@, state@, cmd));
    }
    actions
}

/// The cadence of the state probe: the pty read is given this long in the
/// states that synthesize a timeout event, and one elapse is one idle tick.
pub const PROBE_INTERVAL_MS: u64 = 5000;

/// The synthetic event a pty-read timeout turns into, in the states that
/// arm one: quiescence in `Idle` probes for user input, quiescence in
/// `PreUseTool` prompts for confirmation. No other state arms a timeout.
pub fn idle_probe(state: &ClaudeCodeState) -> (r: Option<ClaudeCodeResult>)
    ensures
        state@ is Idle ==> r == Some(ClaudeCodeResult::WaitForUserInput),
        state@ is PreUseTool ==> r == Some(ClaudeCodeResult::WaitForUserInputBeforeTool),
        !(state@ is Idle) && !(state@ is PreUseTool) ==> r is None,
{
    match state {
        ClaudeCodeState::Idle => Some(ClaudeCodeResult::WaitForUserInput),
        ClaudeCodeState::PreUseTool { .. } => Some(
            ClaudeCodeResult::WaitForUserInputBeforeTool,
        ),
        _ => None,
    }
}

/// The mathematical image of a [`SessionActor`].
pub struct ActorView {
    pub session_id: Seq<char>,
    pub state: StateView,
    pub idle_counter: u64,
    pub idle_threshold: u64,
    pub ended: bool,
}

/// The per-session actor: the machine it drives, its idle bookkeeping, and
/// whether its lifecycle is over.
#[derive(Debug)]
pub struct SessionActor {
    session_id: String,
    machine: ClaudeCode,
    idle_counter: u64,
    idle_threshold: u64,
    ended: bool,
}

impl View for SessionActor {
    type V = ActorView;

    closed spec fn view(&self) -> ActorView {
        ActorView {
            session_id: self.session_id@,
            state: self.machine@,
            idle_counter: self.idle_counter,
            idle_threshold: self.idle_threshold,
            ended: self.ended,
        }
    }
}

/// How many consecutive idle ticks end the session: the idle budget in
/// seconds, divided by the five-second probe cadence, rounded up.
pub open spec fn spec_idle_threshold(idle_sec: u64) -> int {
    (idle_sec + 4) / 5
}

/// The idle-tick count at which the session terminates itself.
pub fn idle_threshold(idle_sec: u64) -> (r: u64)
    ensures
        r == spec_idle_threshold(idle_sec),
{
    idle_sec / 5 + if idle_sec % 5 == 0 {
        0
    } else {
        1
    }
}

/// One step of the actor on one observed event.
pub open spec fn step_spec(a: ActorView, e: SessionEvent) -> (ActorView, Seq<ActionView>) {
    if a.ended {
        (a, Seq::empty())
    } else {
        match e {
            SessionEvent::InboundClosed => (
                ActorView { idle_counter: 0, ended: true, ..a },
                seq![ActionView::Emit(OutputView::SessionEnded { session_id: a.session_id })],
            ),
            SessionEvent::ReadError => (
                ActorView { idle_counter: 0, ended: true, ..a },
                seq![ActionView::Emit(OutputView::SessionEnded { session_id: a.session_id })],
            ),
            SessionEvent::Command(cmd) => (
                ActorView { idle_counter: 0, ..a },
                command_actions(a.session_id, a.state, cmd),
            ),
            SessionEvent::Terminal(res) => step_terminal_spec(a, res),
        }
    }
}

/// One step of the actor on a terminal read, the session still running.
pub open spec fn step_terminal_spec(a: ActorView, res: ClaudeCodeResult) -> (
    ActorView,
    Seq<ActionView>,
) {
    match res {
        ClaudeCodeResult::PtyOutput(chunk) => if chunk@.len() == 0 {
            (
                ActorView { idle_counter: 0, ended: true, ..a },
                seq![ActionView::Emit(OutputView::SessionEnded { session_id: a.session_id })],
            )
        } else {
            (
                ActorView { idle_counter: 0, ..a },
                seq![
                    ActionView::Emit(OutputView::SessionPtyOutput { output: chunk@ }),
                ],
            )
        },
        ClaudeCodeResult::Uncaught(_) => (a, Seq::empty()),
        ClaudeCodeResult::ClaudeLog(_) => {
            let (s2, changed) = transition(a.state, res);
            (
                ActorView { state: s2, idle_counter: 0, ..a },
                if changed {
                    seq![ActionView::Emit(snapshot_view(a.session_id, s2))]
                } else {
                    Seq::empty()
                },
            )
        },
        ClaudeCodeResult::WaitForUserInputBeforeTool => {
            let (s2, changed) = transition(a.state, res);
            (
                ActorView { state: s2, idle_counter: 0, ..a },
                match s2 {
                    StateView::PreUseTool { request, .. } => if request.len() > 0 {
                        seq![
                            ActionView::Emit(
                                OutputView::SessionPending {
                                    session_id: a.session_id,
                                    tool_name: request.last().name,
                                    tool_input: request.last().input,
                                },
                            ),
                        ]
                    } else {
                        Seq::empty()
                    },
                    _ => Seq::empty(),
                },
            )
        },
        ClaudeCodeResult::WaitForUserInput => {
            let (s2, changed) = transition(a.state, res);
            let counter = if a.idle_counter < a.idle_threshold {
                (a.idle_counter + 1) as u64
            } else {
                a.idle_counter
            };
            let fire = counter >= a.idle_threshold;
            let idle = seq![
                ActionView::Emit(OutputView::SessionIdle { session_id: a.session_id }),
            ];
            if fire {
                (
                    ActorView { state: s2, idle_counter: counter, ended: true, ..a },
                    idle + seq![
                        ActionView::Write(PtyWriteView::Text("/exit"@)),
                        ActionView::SleepMs(300),
                        ActionView::Write(PtyWriteView::Enter),
                        ActionView::Emit(
                            OutputView::SessionEnded { session_id: a.session_id },
                        ),
                    ],
                )
            } else {
                (ActorView { state: s2, idle_counter: counter, ..a }, idle)
            }
        },
    }
}

/// What one step asks of the loop, and whether the loop is over.
#[derive(Debug)]
pub struct StepOutcome {
    pub actions: Vec<Action>,
    pub exit: bool,
}

impl SessionActor {
    /// A fresh actor for a session: idle machine, idle counter at zero.
    pub fn new(session_id: String, idle_sec: u64) -> (r: SessionActor)
        ensures
            r@.session_id == session_id@,
            r@.state is Idle,
            r@.idle_counter == 0,
            r@.idle_threshold == spec_idle_threshold(idle_sec),
            !r@.ended,
    {
        SessionActor {
            session_id,
            machine: ClaudeCode::new(),
            idle_counter: 0,
            idle_threshold: idle_threshold(idle_sec),
            ended: false,
        }
    }

    /// The session identifier the actor stamps on its events.
    pub fn session_id(&self) -> (r: &String)
        ensures
            r@ == self@.session_id,
    {
        &self.session_id
    }

    /// The current derived state.
    pub fn state(&self) -> (r: &ClaudeCodeState)
        ensures
            r@ == self@.state,
    {
        self.machine.state()
    }

    /// Feed one observed event; perform the returned actions in order, and
    /// stop the loop when `exit` is set.
    pub fn step(&mut self, event: SessionEvent) -> (r: StepOutcome)
        ensures
            final(self)@ == step_spec(old(self)@, event).0,
            actions_view(r.actions@) == step_spec(old(self)@, event).1,
            r.exit == final(self)@.ended,
    {
        if self.ended {
            let outcome = StepOutcome { actions: Vec::new(), exit: true };
            proof {
                assert(actions_view(outcome.actions@) =~= Seq::<ActionView>::empty());
            }
            return outcome;
        }
        match event {
            SessionEvent::InboundClosed => self.end_step(),
            SessionEvent::ReadError => self.end_step(),
            SessionEvent::Command(cmd) => {
                self.idle_counter = 0;
                let actions = command_steps(&self.session_id, self.machine.state(), cmd);
                StepOutcome { actions, exit: false }
            },
            SessionEvent::Terminal(res) => self.step_terminal(res),
        }
    }

    /// Close the lifecycle: broadcast the terminal event exactly once.
    fn end_step(&mut self) -> (r: StepOutcome)
        requires
            !old(self)@.ended,
        ensures
            final(self)@ == (ActorView { idle_counter: 0, ended: true, ..old(self)@ }),
            actions_view(r.actions@) == seq![
                ActionView::Emit(
                    OutputView::SessionEnded { session_id: old(self)@.session_id },
                ),
            ],
            r.exit,
    {
        self.idle_counter = 0;
        self.ended = true;
        let mut actions: Vec<Action> = Vec::new();
        actions.push(
            Action::Emit(WsOutputMessage::SessionEnded { session_id: self.session_id.clone() }),
        );
        proof {
            assert(actions_view(actions@) =~= seq![
                ActionView::Emit(
                    OutputView::SessionEnded { session_id: old(self)@.session_id },
                ),
            ]);
        }
        StepOutcome { actions, exit: true }
    }

    /// One step on a terminal read.
    fn step_terminal(&mut self, res: ClaudeCodeResult) -> (r: StepOutcome)
        requires
            !old(self)@.ended,
        ensures
            final(self)@ == step_terminal_spec(old(self)@, res).0,
            actions_view(r.actions@) == step_terminal_spec(old(self)@, res).1,
            r.exit == final(self)@.ended,
    {
        match res {
            ClaudeCodeResult::PtyOutput(chunk) => {
                if chunk.as_str().is_empty() {
                    self.end_step()
                } else {
                    self.idle_counter = 0;
                    let mut actions: Vec<Action> = Vec::new();
                    actions.push(
                        Action::Emit(WsOutputMessage::SessionPtyOutput { output: chunk }),
                    );
                    proof {
                        assert(actions_view(actions@) =~= step_terminal_spec(
                            old(self)@,
                            res,
                        ).1);
                    }
                    StepOutcome { actions, exit: false }
                }
            },
            ClaudeCodeResult::Uncaught(_) => {
                let outcome = StepOutcome { actions: Vec::new(), exit: false };
                proof {
                    assert(actions_view(outcome.actions@) =~= Seq::<ActionView>::empty());
                }
                outcome
            },
            ClaudeCodeResult::ClaudeLog(_) => {
                self.idle_counter = 0;
                let changed = self.machine.update_state(&res);
                let mut actions: Vec<Action> = Vec::new();
                if changed {
                    actions.push(
                        Action::Emit(snapshot_event(&self.session_id, self.machine.state())),
                    );
                }
                proof {
                    assert(actions_view(actions@) =~= step_terminal_spec(old(self)@, res).1);
                }
                StepOutcome { actions, exit: false }
            },
            ClaudeCodeResult::WaitForUserInputBeforeTool => {
                self.idle_counter = 0;
                let _changed = self.machine.update_state(&res);
                let mut actions: Vec<Action> = Vec::new();
                match self.machine.state() {
                    ClaudeCodeState::PreUseTool { request, .. } => {
                        let n = request.len();
                        if n > 0 {
                            actions.push(
                                Action::Emit(
                                    WsOutputMessage::SessionPending {
                                        session_id: self.session_id.clone(),
                                        tool_name: request[n - 1].name.clone(),
                                        tool_input: request[n - 1].input.clone(),
                                    },
                                ),
                            );
                        }
                    },
                    _ => {},
                }
                proof {
                    assert(actions_view(actions@) =~= step_terminal_spec(old(self)@, res).1);
                }
                StepOutcome { actions, exit: false }
            },
            ClaudeCodeResult::WaitForUserInput => {
                let _changed = self.machine.update_state(&res);
                if self.idle_counter < self.idle_threshold {
                    self.idle_counter = self.idle_counter + 1;
                }
                let mut actions: Vec<Action> = Vec::new();
                actions.push(
                    Action::Emit(
                        WsOutputMessage::SessionIdle { session_id: self.session_id.clone() },
                    ),
                );
                let exit = self.idle_counter >= self.idle_threshold;
                if exit {
                    self.ended = true;
                    actions.push(Action::Write(PtyWrite::Text("/exit".to_owned())));
                    actions.push(Action::SleepMs(300));
                    actions.push(Action::Write(PtyWrite::Enter));
                    actions.push(
                        Action::Emit(
                            WsOutputMessage::SessionEnded {
                                session_id: self.session_id.clone(),
                            },
                        ),
                    );
                }
                proof {
                    assert(actions_view(actions@) =~= step_terminal_spec(old(self)@, res).1);
                }
                StepOutcome { actions, exit }
            },
        }
    }
}

/// The actor and the concatenated actions after feeding a whole sequence of
/// observed events, in order.
pub open spec fn run_actor(a: ActorView, events: Seq<SessionEvent>) -> (
    ActorView,
    Seq<ActionView>,
)
    decreases events.len(),
{
    if events.len() == 0 {
        (a, Seq::empty())
    } else {
        let (a1, acts1) = step_spec(a, events[0]);
        let (a2, acts2) = run_actor(a1, events.drop_first());
        (a2, acts1 + acts2)
    }
}

/// The synthetic event of one five-second idle probe elapsing.
pub open spec fn idle_tick() -> SessionEvent {
    SessionEvent::Terminal(ClaudeCodeResult::WaitForUserInput)
}

/// `k` consecutive idle probes with nothing else intervening.
pub open spec fn ticks(k: nat) -> Seq<SessionEvent> {
    Seq::new(k, |i: int| idle_tick())
}

/// How many `session_ended` events a sequence of actions broadcasts.
pub open spec fn count_session_ended(acts: Seq<ActionView>) -> nat
    decreases acts.len(),
{
    if acts.len() == 0 {
        0
    } else {
        (if acts[0] matches ActionView::Emit(OutputView::SessionEnded { .. }) {
            1nat
        } else {
            0nat
        }) + count_session_ended(acts.drop_first())
    }
}

proof fn lemma_count_append(x: Seq<ActionView>, y: Seq<ActionView>)
    ensures
        count_session_ended(x + y) == count_session_ended(x) + count_session_ended(y),
    decreases x.len(),
{
    if x.len() == 0 {
        assert(x + y =~= y);
    } else {
        assert((x + y)[0] == x[0]);
        assert((x + y).drop_first() =~= x.drop_first() + y);
        lemma_count_append(x.drop_first(), y);
    }
}

proof fn lemma_count_no_ended(x: Seq<ActionView>)
    requires
        forall|i: int|
            0 <= i < x.len() ==> !((#[trigger] x[i]) matches ActionView::Emit(
                OutputView::SessionEnded { .. },
            )),
    ensures
        count_session_ended(x) == 0,
    decreases x.len(),
{
    if x.len() > 0 {
        lemma_count_no_ended(x.drop_first());
    }
}

proof fn lemma_count_single(x: ActionView)
    ensures
        count_session_ended(seq![x]) == if x matches ActionView::Emit(
            OutputView::SessionEnded { .. },
        ) {
            1nat
        } else {
            0nat
        },
{
    let s = seq![x];
    assert(s.len() == 1);
    assert(s[0] == x);
    assert(s.drop_first() =~= Seq::<ActionView>::empty());
    assert(count_session_ended(Seq::<ActionView>::empty()) == 0);
    assert(count_session_ended(s) == (if s[0] matches ActionView::Emit(
        OutputView::SessionEnded { .. },
    ) {
        1nat
    } else {
        0nat
    }) + count_session_ended(s.drop_first()));
}

/// One step broadcasts `session_ended` exactly when it ends the lifecycle.
proof fn lemma_step_ended_count(a: ActorView, e: SessionEvent)
    requires
        !a.ended,
    ensures
        count_session_ended(step_spec(a, e).1) == if step_spec(a, e).0.ended {
            1nat
        } else {
            0nat
        },
{
    let (a2, acts) = step_spec(a, e);
    match e {
        SessionEvent::InboundClosed => {
            lemma_count_single(acts[0]);
            assert(acts =~= seq![acts[0]]);
        },
        SessionEvent::ReadError => {
            lemma_count_single(acts[0]);
            assert(acts =~= seq![acts[0]]);
        },
        SessionEvent::Command(cmd) => {
            assert forall|i: int| 0 <= i < acts.len() implies !((#[trigger] acts[i])
                matches ActionView::Emit(OutputView::SessionEnded { .. })) by {
                match cmd {
                    WsInputMessage::Select { index } => {
                        if i < index {
                            assert(acts[i] == ActionView::Write(PtyWriteView::DownArrow));
                        }
                    },
                    _ => {},
                }
            }
            lemma_count_no_ended(acts);
        },
        SessionEvent::Terminal(res) => {
            match res {
                ClaudeCodeResult::PtyOutput(chunk) => {
                    lemma_count_single(acts[0]);
                    assert(acts =~= seq![acts[0]]);
                },
                ClaudeCodeResult::Uncaught(_) => {
                    lemma_count_no_ended(acts);
                },
                ClaudeCodeResult::ClaudeLog(_) => {
                    lemma_count_no_ended(acts);
                },
                ClaudeCodeResult::WaitForUserInputBeforeTool => {
                    lemma_count_no_ended(acts);
                },
                ClaudeCodeResult::WaitForUserInput => {
                    let idle = seq![
                        ActionView::Emit(OutputView::SessionIdle { session_id: a.session_id }),
                    ];
                    lemma_count_single(idle[0]);
                    assert(idle =~= seq![idle[0]]);
                    if a2.ended {
                        let tail = seq![
                            ActionView::Write(PtyWriteView::Text("/exit"@)),
                            ActionView::SleepMs(300),
                            ActionView::Write(PtyWriteView::Enter),
                            ActionView::Emit(
                                OutputView::SessionEnded { session_id: a.session_id },
                            ),
                        ];
                        assert(tail =~= seq![tail[0], tail[1], tail[2]] + seq![tail[3]]);
                        lemma_count_no_ended(seq![tail[0], tail[1], tail[2]]);
                        lemma_count_single(tail[3]);
                        lemma_count_append(seq![tail[0], tail[1], tail[2]], seq![tail[3]]);
                        lemma_count_append(idle, tail);
                    }
                },
            }
        },
    }
}

/// After the lifecycle is over, steps neither act nor revive the session.
proof fn lemma_run_after_end(a: ActorView, events: Seq<SessionEvent>)
    requires
        a.ended,
    ensures
        run_actor(a, events).0 == a,
        count_session_ended(run_actor(a, events).1) == 0,
    decreases events.len(),
{
    if events.len() > 0 {
        lemma_run_after_end(a, events.drop_first());
        assert(run_actor(a, events).1 =~= run_actor(a, events.drop_first()).1);
    }
}

/// Every session lifecycle broadcasts exactly one `session_ended` event:
/// a run that reaches the end of the lifecycle has emitted it once, and a
/// run that has not ended has emitted none.
pub proof fn lemma_exactly_one_session_ended(a: ActorView, events: Seq<SessionEvent>)
    requires
        !a.ended,
    ensures
        count_session_ended(run_actor(a, events).1) == if run_actor(a, events).0.ended {
            1nat
        } else {
            0nat
        },
    decreases events.len(),
{
    if events.len() > 0 {
        let (a1, acts1) = step_spec(a, events[0]);
        let (a2, acts2) = run_actor(a1, events.drop_first());
        lemma_step_ended_count(a, events[0]);
        if a1.ended {
            lemma_run_after_end(a1, events.drop_first());
        } else {
            lemma_exactly_one_session_ended(a1, events.drop_first());
        }
        lemma_count_append(acts1, acts2);
    }
}

proof fn lemma_ticks_progress(a: ActorView, k: nat)
    requires
        !a.ended,
        a.idle_counter + k <= a.idle_threshold,
    ensures
        run_actor(a, ticks(k)).0.idle_counter == a.idle_counter + k,
        run_actor(a, ticks(k)).0.ended <==> (k > 0 && a.idle_counter + k
            == a.idle_threshold),
    decreases k,
{
    if k == 0 {
        assert(ticks(0) =~= Seq::<SessionEvent>::empty());
    } else {
        let (a1, _) = step_spec(a, ticks(k)[0]);
        assert(ticks(k)[0] == idle_tick());
        assert(ticks(k).drop_first() =~= ticks((k - 1) as nat));
        if a1.ended {
            lemma_run_after_end(a1, ticks((k - 1) as nat));
        } else {
            lemma_ticks_progress(a1, (k - 1) as nat);
        }
    }
}

/// Idle termination fires after exactly the threshold number of consecutive
/// idle probes with no other event intervening: fewer leave the session
/// running, the threshold ends it.
pub proof fn lemma_idle_termination(a: ActorView, k: nat)
    requires
        !a.ended,
        a.idle_counter == 0,
        a.idle_threshold >= 1,
        k <= a.idle_threshold,
    ensures
        run_actor(a, ticks(k)).0.ended <==> k == a.idle_threshold,
{
    lemma_ticks_progress(a, k);
}

/// The idle threshold is exactly the ceiling of the idle budget over the
/// five-second probe cadence: one tick fewer stays under the budget, the
/// threshold itself covers it.
pub proof fn lemma_idle_threshold_is_ceiling(idle_sec: u64)
    requires
        idle_sec >= 1,
    ensures
        5 * (spec_idle_threshold(idle_sec) - 1) < idle_sec <= 5 * spec_idle_threshold(
            idle_sec,
        ),
{
    let t = spec_idle_threshold(idle_sec);
    assert(t == (idle_sec + 4) / 5);
    assert(5 * t <= idle_sec + 4 && idle_sec + 4 < 5 * t + 5) by (nonlinear_arith)
        requires
            t == (idle_sec + 4) / 5,
            idle_sec >= 1,
    ;
}

/// Any pty-output chunk, transcript record, pre-tool probe or inbound
/// command resets the idle counter to zero.
pub proof fn lemma_activity_resets_idle(a: ActorView, e: SessionEvent)
    requires
        !a.ended,
        e matches SessionEvent::Command(_) || (e matches SessionEvent::Terminal(r) && (r
            matches ClaudeCodeResult::PtyOutput(_) || r matches ClaudeCodeResult::ClaudeLog(_)
            || r is WaitForUserInputBeforeTool)),
    ensures
        step_spec(a, e).0.idle_counter == 0,
{
}

} // verus!
