//! The per-connection lifecycle state machine.
//!
//! One session is one accepted inbound connection and its paired upstream
//! connection. The supervisor that owns it performs the handshake, the
//! upstream dial and the relay outside the library, and reports each result
//! as an event; the session decides the next state. The machine is
//! `Accepted -> (TlsHandshaking) -> Connecting -> Relaying -> Closed`, with
//! the handshake stage skipped when the relay does not terminate TLS, and
//! every failure leading straight to the terminal `Closed` state. A ghost
//! history of every state visited lets the contracts state path properties:
//! no state is ever revisited, a failed handshake precludes any upstream
//! attempt, and a failed connect precludes any relaying.

use vstd::prelude::*;

use crate::Side;
use crate::pump::Pump;
use crate::relay::{outcome_of, relay_outcome, RelayOutcome};

verus! {

/// Lifecycle states of a session.
#[derive(Clone, Copy, PartialEq, Eq, Structural, Debug)]
pub enum SessionState {
    /// The inbound connection has been accepted; nothing has run yet.
    Accepted,
    /// The server-side TLS handshake on the inbound connection is running.
    TlsHandshaking,
    /// The single upstream connect attempt is running.
    Connecting,
    /// Both streams are established and the two pumps are running.
    Relaying,
    /// Terminal: both connections are released.
    Closed,
}

/// The classified terminal result of a session, reported exactly once.
#[derive(Clone, Copy, PartialEq, Eq, Structural, Debug)]
pub enum SessionOutcome {
    /// The TLS handshake failed; no upstream connect was attempted.
    HandshakeFailed,
    /// The upstream connect attempt did not finish within its bound.
    ConnectTimedOut,
    /// The upstream connect attempt failed (refused, unreachable).
    ConnectFailed,
    /// The relay ran and ended with the given outcome.
    Relayed(RelayOutcome),
}

/// Position of a state along the lifecycle: every transition strictly
/// increases it, which is what makes each state unrevisitable.
pub open spec fn stage(s: SessionState) -> int {
    match s {
        SessionState::Accepted => 0,
        SessionState::TlsHandshaking => 1,
        SessionState::Connecting => 2,
        SessionState::Relaying => 3,
        SessionState::Closed => 4,
    }
}

/// The transition relation of the lifecycle machine for a session that does
/// (`tls`) or does not terminate TLS on the inbound connection.
pub open spec fn step_allowed(tls: bool, a: SessionState, b: SessionState) -> bool {
    match (a, b) {
        (SessionState::Accepted, SessionState::TlsHandshaking) => tls,
        (SessionState::Accepted, SessionState::Connecting) => !tls,
        (SessionState::TlsHandshaking, SessionState::Connecting) => true,
        (SessionState::TlsHandshaking, SessionState::Closed) => true,
        (SessionState::Connecting, SessionState::Relaying) => true,
        (SessionState::Connecting, SessionState::Closed) => true,
        (SessionState::Relaying, SessionState::Closed) => true,
        _ => false,
    }
}

/// One session, from acceptance to close.
pub struct Session {
    /// Whether TLS is terminated on the inbound connection.
    pub tls_enabled: bool,
    /// The current lifecycle state.
    pub state: SessionState,
    /// The terminal classification; present exactly when the session is
    /// closed.
    pub outcome: Option<SessionOutcome>,
    /// Every state visited so far, in order, the current state last.
    pub history: Ghost<Seq<SessionState>>,
}

impl Session {
    /// Internal consistency: the history is a path of the transition
    /// relation that starts at `Accepted`, ends at the current state and
    /// advances strictly through the lifecycle; the outcome exists exactly
    /// when the session is closed and agrees with the path taken.
    pub open spec fn wf(self) -> bool {
        &&& self.history@.len() >= 1
        &&& self.history@.first() == SessionState::Accepted
        &&& self.history@.last() == self.state
        &&& forall|i: int|
            0 <= i < self.history@.len() - 1 ==> step_allowed(
                self.tls_enabled,
                self.history@[i],
                #[trigger] self.history@[i + 1],
            )
        &&& forall|i: int, j: int|
            0 <= i < j < self.history@.len() ==> stage(#[trigger] self.history@[i]) < stage(
                #[trigger] self.history@[j],
            )
        &&& (self.outcome is Some <==> self.state is Closed)
        &&& (match self.outcome {
            Some(SessionOutcome::HandshakeFailed) => !self.history@.contains(
                SessionState::Connecting,
            ) && !self.history@.contains(SessionState::Relaying),
            Some(SessionOutcome::ConnectTimedOut) => !self.history@.contains(
                SessionState::Relaying,
            ),
            Some(SessionOutcome::ConnectFailed) => !self.history@.contains(
                SessionState::Relaying,
            ),
            Some(SessionOutcome::Relayed(_)) => self.history@.contains(SessionState::Relaying),
            None => true,
        })
    }

    /// A freshly accepted session, before anything has run.
    pub fn new(tls_enabled: bool) -> (s: Session)
        ensures
            s.wf(),
            s.tls_enabled == tls_enabled,
            s.state == SessionState::Accepted,
            s.outcome is None,
            s.history@ == seq![SessionState::Accepted],
    {
        let ghost h: Seq<SessionState> = seq![SessionState::Accepted];
        Session {
            tls_enabled,
            state: SessionState::Accepted,
            outcome: None,
            history: Ghost(h),
        }
    }

    /// Move the freshly accepted session to its first working state: the
    /// TLS handshake when TLS is terminated here, otherwise directly the
    /// upstream connect. The returned state tells the supervisor what to
    /// run next.
    pub fn begin(&mut self) -> (r: SessionState)
        requires
            old(self).wf(),
            old(self).state == SessionState::Accepted,
        ensures
            final(self).wf(),
            r == final(self).state,
            final(self).tls_enabled == old(self).tls_enabled,
            final(self).outcome is None,
            old(self).tls_enabled ==> final(self).state == SessionState::TlsHandshaking,
            !old(self).tls_enabled ==> final(self).state == SessionState::Connecting,
            final(self).history@ == old(self).history@.push(final(self).state),
    {
        let next = if self.tls_enabled {
            SessionState::TlsHandshaking
        } else {
            SessionState::Connecting
        };
        self.history = Ghost(self.history@.push(next));
        self.state = next;
        next
    }

    /// The TLS handshake succeeded: the single upstream connect attempt may
    /// begin.
    pub fn on_handshake_ok(&mut self)
        requires
            old(self).wf(),
            old(self).state == SessionState::TlsHandshaking,
        ensures
            final(self).wf(),
            final(self).state == SessionState::Connecting,
            final(self).outcome is None,
            final(self).tls_enabled == old(self).tls_enabled,
            final(self).history@ == old(self).history@.push(SessionState::Connecting),
    {
        self.history = Ghost(self.history@.push(SessionState::Connecting));
        self.state = SessionState::Connecting;
    }

    /// The TLS handshake failed: the session closes at once. No upstream
    /// connect is ever attempted and no relaying ever happens.
    pub fn on_handshake_failed(&mut self)
        requires
            old(self).wf(),
            old(self).state == SessionState::TlsHandshaking,
        ensures
            final(self).wf(),
            final(self).state == SessionState::Closed,
            final(self).outcome == Some(SessionOutcome::HandshakeFailed),
            final(self).tls_enabled == old(self).tls_enabled,
            !final(self).history@.contains(SessionState::Connecting),
            !final(self).history@.contains(SessionState::Relaying),
    {
        proof {
            lemma_unvisited_later_stages(*old(self), SessionState::Connecting);
            lemma_unvisited_later_stages(*old(self), SessionState::Relaying);
        }
        self.history = Ghost(self.history@.push(SessionState::Closed));
        self.state = SessionState::Closed;
        self.outcome = Some(SessionOutcome::HandshakeFailed);
    }

    /// The upstream connect succeeded: both streams exist and the relay may
    /// start.
    pub fn on_connect_ok(&mut self)
        requires
            old(self).wf(),
            old(self).state == SessionState::Connecting,
        ensures
            final(self).wf(),
            final(self).state == SessionState::Relaying,
            final(self).outcome is None,
            final(self).tls_enabled == old(self).tls_enabled,
            final(self).history@ == old(self).history@.push(SessionState::Relaying),
    {
        self.history = Ghost(self.history@.push(SessionState::Relaying));
        self.state = SessionState::Relaying;
    }

    /// The upstream connect failed (refused, unreachable): the session
    /// closes without ever relaying, so no payload is ever pumped from the
    /// client.
    pub fn on_connect_failed(&mut self)
        requires
            old(self).wf(),
            old(self).state == SessionState::Connecting,
        ensures
            final(self).wf(),
            final(self).state == SessionState::Closed,
            final(self).outcome == Some(SessionOutcome::ConnectFailed),
            final(self).tls_enabled == old(self).tls_enabled,
            !final(self).history@.contains(SessionState::Relaying),
    {
        proof {
            lemma_unvisited_later_stages(*old(self), SessionState::Relaying);
        }
        self.history = Ghost(self.history@.push(SessionState::Closed));
        self.state = SessionState::Closed;
        self.outcome = Some(SessionOutcome::ConnectFailed);
    }

    /// The upstream connect did not finish within its bound: the session
    /// closes without ever relaying.
    pub fn on_connect_timeout(&mut self)
        requires
            old(self).wf(),
            old(self).state == SessionState::Connecting,
        ensures
            final(self).wf(),
            final(self).state == SessionState::Closed,
            final(self).outcome == Some(SessionOutcome::ConnectTimedOut),
            final(self).tls_enabled == old(self).tls_enabled,
            !final(self).history@.contains(SessionState::Relaying),
    {
        proof {
            lemma_unvisited_later_stages(*old(self), SessionState::Relaying);
        }
        self.history = Ghost(self.history@.push(SessionState::Closed));
        self.state = SessionState::Closed;
        self.outcome = Some(SessionOutcome::ConnectTimedOut);
    }

    /// The relay ended with `outcome`: the session closes and reports it.
    pub fn on_relay_done(&mut self, outcome: RelayOutcome)
        requires
            old(self).wf(),
            old(self).state == SessionState::Relaying,
        ensures
            final(self).wf(),
            final(self).state == SessionState::Closed,
            final(self).outcome == Some(SessionOutcome::Relayed(outcome)),
            final(self).tls_enabled == old(self).tls_enabled,
    {
        self.history = Ghost(self.history@.push(SessionState::Closed));
        proof {
            assert(self.history@[self.history@.len() - 2] == SessionState::Relaying);
            assert(self.history@.contains(SessionState::Relaying));
        }
        self.state = SessionState::Closed;
        self.outcome = Some(SessionOutcome::Relayed(outcome));
    }

    /// The terminal classification, once closed.
    pub fn result(&self) -> (r: Option<SessionOutcome>)
        ensures
            r == self.outcome,
    {
        self.outcome
    }
}

/// Close a relaying session from its two pumps, the moment the first of
/// them terminated: builds the relay outcome under first-terminate-wins and
/// records it as the session's terminal result. Returns the outcome for
/// reporting.
pub fn finish_relay(session: &mut Session, c2u: &Pump, u2c: &Pump, first: Side) -> (r: RelayOutcome)
    requires
        old(session).wf(),
        old(session).state == SessionState::Relaying,
        c2u.source == Side::Client,
        u2c.source == Side::Upstream,
        first is Client ==> c2u.phase is Done,
        first is Upstream ==> u2c.phase is Done,
    ensures
        final(session).wf(),
        final(session).state == SessionState::Closed,
        r == outcome_of(*c2u, *u2c, first),
        final(session).outcome == Some(SessionOutcome::Relayed(r)),
        final(session).tls_enabled == old(session).tls_enabled,
{
    let outcome = relay_outcome(c2u, u2c, first);
    session.on_relay_done(outcome);
    outcome
}

/// A state whose lifecycle stage lies past the current state has not been
/// visited: the history only ever advances.
proof fn lemma_unvisited_later_stages(s: Session, t: SessionState)
    requires
        s.wf(),
        stage(t) > stage(s.state),
    ensures
        !s.history@.contains(t),
{
    assert forall|i: int| 0 <= i < s.history@.len() implies s.history@[i] != t by {
        if i < s.history@.len() - 1 {
            assert(stage(s.history@[i]) < stage(s.history@[s.history@.len() - 1]));
        }
    }
}

/// No lifecycle state is ever revisited: any two distinct positions in a
/// session's history hold distinct states. In particular a session never
/// re-enters `Relaying`, and the `Connecting` state — the single upstream
/// connect attempt — occurs at most once.
pub proof fn lemma_states_never_revisited(s: Session, i: int, j: int)
    requires
        s.wf(),
        0 <= i < j < s.history@.len(),
    ensures
        s.history@[i] != s.history@[j],
{
}

/// A session that closed because its upstream connect failed or timed out
/// never entered `Relaying`: no pump ever ran, so no payload byte was ever
/// read from the client beyond accepting the connection.
pub proof fn lemma_connect_failure_precludes_relaying(s: Session)
    requires
        s.wf(),
        s.outcome == Some(SessionOutcome::ConnectFailed) || s.outcome == Some(
            SessionOutcome::ConnectTimedOut,
        ),
    ensures
        s.state == SessionState::Closed,
        !s.history@.contains(SessionState::Relaying),
{
}

/// A session that closed because its TLS handshake failed never attempted
/// an upstream connection and never relayed.
pub proof fn lemma_handshake_failure_precludes_upstream(s: Session)
    requires
        s.wf(),
        s.outcome == Some(SessionOutcome::HandshakeFailed),
    ensures
        s.state == SessionState::Closed,
        !s.history@.contains(SessionState::Connecting),
        !s.history@.contains(SessionState::Relaying),
{
}

} // verus!
