//! The session manager's decisions: registry lookup, the bootstrap
//! handshake, and attach-time validation.
//!
//! The manager task outside this crate owns the channel ends; whether a
//! registered session is still live is a fact about its channels, handed in
//! as a boolean. Every routing decision is made here.

use vstd::prelude::*;
use vstd::map::*;

use crate::session_id::SessionId;
use crate::session_id::uuid_parse_bytes;
use crate::ws::ErrorView;
use crate::ws::OutputView;
use crate::ws::WsInputMessage;
use crate::ws::WsOutputError;
use crate::ws::WsOutputMessage;

verus! {

/// The identifiers of the sessions the manager has created so far. Entries
/// are never removed; a dead entry is superseded when a later attach for
/// the same identifier registers anew.
#[derive(Debug)]
pub struct SessionRegistry {
    ids: Vec<String>,
}

impl View for SessionRegistry {
    type V = Seq<Seq<char>>;

    closed spec fn view(&self) -> Seq<Seq<char>> {
        self.ids@.map_values(|s: String| s@)
    }
}

impl SessionRegistry {
    /// An empty registry.
    pub fn new() -> (r: SessionRegistry)
        ensures
            r@ =~= Seq::<Seq<char>>::empty(),
    {
        SessionRegistry { ids: Vec::new() }
    }

    /// Whether a session was ever registered under this identifier.
    pub fn contains(&self, id: &String) -> (r: bool)
        ensures
            r == self@.contains(id@),
    {
        let n = self.ids.len();
        let mut i: usize = 0;
        while i < n
            invariant
                i <= n,
                n == self@.len(),
                self@ == self.ids@.map_values(|s: String| s@),
                forall|j: int| 0 <= j < i ==> self@[j] != id@,
            decreases n - i,
        {
            if self.ids[i] == *id {
                proof {
                    assert(self@[i as int] == id@);
                }
                return true;
            }
            i = i + 1;
        }
        false
    }

    /// Record that a session now runs under this identifier.
    pub fn register(&mut self, id: String)
        ensures
            final(self)@ == old(self)@.push(id@),
    {
        self.ids.push(id);
        proof {
            assert(final(self)@ =~= old(self)@.push(self.ids@.last()@));
        }
    }
}

/// How an attach request is routed.
#[derive(Debug, Clone, Copy, PartialEq, Eq)]
pub enum AttachDisposition {
    /// An actor for this identifier is registered and still live: hand out
    /// its existing channels; nothing new is started.
    Reuse,
    /// No live actor exists: make fresh channels and run the handshake.
    StartNew,
}

/// Routing of one attach request: a live registered session is reused; at
/// most one live actor ever exists per identifier, and a second attach
/// during liveness returns the existing broadcaster.
pub fn attach_disposition(registered: bool, live: bool) -> (r: AttachDisposition)
    ensures
        r is Reuse <==> registered && live,
{
    if registered && live {
        AttachDisposition::Reuse
    } else {
        AttachDisposition::StartNew
    }
}

/// The outcome of the bootstrap handshake on the first inbound message of a
/// fresh attach.
#[derive(Debug, Clone, Copy, PartialEq, Eq)]
pub enum HandshakeOutcome {
    /// The requester went away before sending anything; nothing is started.
    Abandoned,
    /// The first message was a bare state poll: reject it with
    /// `session_not_found` and start no child.
    RejectedNotFound,
    /// A meaningful command arrived: re-enqueue it and start the child.
    Proceed,
}

/// The handshake decision: a `CurrentState` request as the very first
/// message on a new session identifier is rejected and must not resurrect
/// a dead session; any other command forces creation.
pub fn handshake(first: &Option<WsInputMessage>) -> (r: HandshakeOutcome)
    ensures
        r is Abandoned <==> first is None,
        r is RejectedNotFound <==> first matches Some(WsInputMessage::CurrentState),
        r is Proceed <==> (first matches Some(m) && !(m is CurrentState)),
{
    match first {
        None => HandshakeOutcome::Abandoned,
        Some(WsInputMessage::CurrentState) => HandshakeOutcome::RejectedNotFound,
        Some(_) => HandshakeOutcome::Proceed,
    }
}

/// The event broadcast when the handshake rejects a bare state poll.
pub fn session_not_found_error(session_id: &String) -> (r: WsOutputMessage)
    ensures
        r@ == (OutputView::SessionError {
            session_id: session_id@,
            code: ErrorView::SessionNotFound,
        }),
{
    WsOutputMessage::SessionError {
        session_id: session_id.clone(),
        code: WsOutputError::SessionNotFound,
    }
}

/// Attach-time validation of the identifier: exactly the strings the UUID
/// parser accepts pass; anything else is answered with an `invalid_input`
/// error and no child is started.
pub fn validate_session_id(uuid_text: &String) -> (r: Result<SessionId, WsOutputMessage>)
    ensures
        r is Ok <==> uuid_parse_bytes(uuid_text@) is Some,
        r matches Ok(sid) ==> sid.wf() && sid@ == uuid_text@,
        r matches Err(e) ==> e@ == (OutputView::SessionError {
            session_id: uuid_text@,
            code: ErrorView::InvalidInput { error_message: "invalid UUID format"@ },
        }),
{
    match SessionId::parse(uuid_text.as_str()) {
        Some(sid) => Ok(sid),
        None => Err(
            WsOutputMessage::SessionError {
                session_id: uuid_text.clone(),
                code: WsOutputError::InvalidInput {
                    error_message: "invalid UUID format".to_owned(),
                },
            },
        ),
    }
}

/// The event broadcast when starting the child fails; the loop outside
/// hands in the failure's text.
pub fn internal_error_event(session_id: &String, message: String) -> (r: WsOutputMessage)
    ensures
        r@ == (OutputView::SessionError {
            session_id: session_id@,
            code: ErrorView::InternalError { error_message: message@ },
        }),
{
    WsOutputMessage::SessionError {
        session_id: session_id.clone(),
        code: WsOutputError::InternalError { error_message: message },
    }
}

/// A model of the manager's whole history: every actor ever started, by
/// the session it serves; the registry entry each identifier maps to; and
/// which actors are still live. The manager task realizes one attach per
/// request: `entry_live` is what `attach_disposition`'s `registered &&
/// live` observes, starting an actor is registering it, and an actor's
/// death removes it from the live set.
pub struct ManagerModel {
    /// The session identifier each actor ever started serves, in start
    /// order; an actor is its index in this sequence.
    pub started: Seq<Seq<char>>,
    /// The registry: the actor each identifier was last started for.
    pub entry: Map<Seq<char>, int>,
    /// The actors still running.
    pub live: Set<int>,
}

/// The manager's invariant: registry entries point at actors started for
/// that identifier, and every live actor is its session's current entry.
pub open spec fn model_wf(m: ManagerModel) -> bool {
    &&& forall|id: Seq<char>|
        #[trigger] m.entry.dom().contains(id) ==> 0 <= m.entry[id] < m.started.len()
            && m.started[m.entry[id]] == id
    &&& forall|g: int|
        #[trigger] m.live.contains(g) ==> 0 <= g < m.started.len() && m.entry.dom().contains(
            m.started[g],
        ) && m.entry[m.started[g]] == g
}

/// The registered actor for an identifier is still running.
pub open spec fn entry_live(m: ManagerModel, id: Seq<char>) -> bool {
    m.entry.dom().contains(id) && m.live.contains(m.entry[id])
}

/// What one attach request did at the model level.
pub enum AttachModelOutcome {
    /// The existing actor's channels were handed out; nothing was started.
    Reused(int),
    /// A fresh actor was started and registered.
    Started(int),
    /// The handshake rejected or abandoned the request, or the spawn
    /// failed: nothing was started.
    NotStarted,
}

/// One attach request: a live registered session is reused untouched;
/// otherwise, if the handshake proceeds and the spawn succeeds (`starts`),
/// a fresh actor is started, registered, and live.
pub open spec fn model_attach(m: ManagerModel, id: Seq<char>, starts: bool) -> (
    ManagerModel,
    AttachModelOutcome,
) {
    if entry_live(m, id) {
        (m, AttachModelOutcome::Reused(m.entry[id]))
    } else if starts {
        let fresh = m.started.len() as int;
        (
            ManagerModel {
                started: m.started.push(id),
                entry: m.entry.insert(id, fresh),
                live: m.live.insert(fresh),
            },
            AttachModelOutcome::Started(fresh),
        )
    } else {
        (m, AttachModelOutcome::NotStarted)
    }
}

/// An actor's lifecycle ended: it leaves the live set; its registry entry
/// stays until a later attach supersedes it.
pub open spec fn model_end(m: ManagerModel, g: int) -> ManagerModel {
    ManagerModel { started: m.started, entry: m.entry, live: m.live.remove(g) }
}

/// At most one live actor exists per session identifier at any instant:
/// two live actors serving the same session are the same actor.
pub proof fn lemma_at_most_one_live_actor(m: ManagerModel, g1: int, g2: int)
    requires
        model_wf(m),
        m.live.contains(g1),
        m.live.contains(g2),
        m.started[g1] == m.started[g2],
    ensures
        g1 == g2,
{
}

/// A second attach during liveness is idempotent: it returns the existing
/// actor's handle, starts nothing, and leaves the manager unchanged.
pub proof fn lemma_reattach_idempotent(m: ManagerModel, id: Seq<char>, starts: bool)
    requires
        model_wf(m),
        entry_live(m, id),
    ensures
        model_attach(m, id, starts).0 == m,
        model_attach(m, id, starts).1 == AttachModelOutcome::Reused(m.entry[id]),
{
}

/// Attaching preserves the manager's invariant, whatever the handshake and
/// spawn did.
pub proof fn lemma_attach_preserves_wf(m: ManagerModel, id: Seq<char>, starts: bool)
    requires
        model_wf(m),
    ensures
        model_wf(model_attach(m, id, starts).0),
{
    if !entry_live(m, id) && starts {
        let fresh = m.started.len() as int;
        let m2 = model_attach(m, id, starts).0;
        assert forall|g: int| #[trigger] m2.live.contains(g) implies 0 <= g < m2.started.len()
            && m2.entry.dom().contains(m2.started[g]) && m2.entry[m2.started[g]] == g by {
            if g != fresh {
                // An old live actor keeps its entry: it cannot serve `id`,
                // else the entry for `id` would have been live.
                assert(m.live.contains(g));
                assert(m.started[g] != id);
            }
        }
    }
}

/// An actor's death preserves the manager's invariant.
pub proof fn lemma_end_preserves_wf(m: ManagerModel, g: int)
    requires
        model_wf(m),
    ensures
        model_wf(model_end(m, g)),
{
}

} // verus!
