use vstd::prelude::*;
use crate::gate::Ipv4Addr;

verus! {

/// Idle timeout set on every socket operation, in milliseconds.
pub const IDLE_TIMEOUT_MS: u64 = 10_000;

/// Size of each of the four buffers an attempt works in, in bytes.
pub const BUFFER_LEN: usize = 1024;

/// The one remote peer that sessions are opened to.
#[derive(Clone, Copy, Debug, PartialEq, Eq, Structural)]
pub struct Endpoint {
    pub addr: Ipv4Addr,
    pub port: u16,
}

/// How the handshake treats the identity that the server presents.
#[derive(Clone, Copy, Debug, PartialEq, Eq, Structural)]
pub enum IdentityPolicy {
    /// Accept any server identity. This authenticates nobody.
    AcceptAny,
    /// Check the server's certificate against the configured server name.
    VerifyServerName,
}

/// What a session attempt is configured with.
#[derive(Clone, Copy, Debug, PartialEq, Eq, Structural)]
pub struct SessionSettings {
    pub endpoint: Endpoint,
    pub policy: IdentityPolicy,
}

/// Why a transport connection failed.
#[derive(Clone, Copy, Debug, PartialEq, Eq, Structural)]
pub enum TransportError {
    InvalidState,
    ConnectionReset,
    TimedOut,
    NoRoute,
}

/// Why session establishment failed.
#[derive(Clone, Copy, Debug, PartialEq, Eq, Structural)]
pub enum HandshakeError {
    Io,
    TimedOut,
    Protocol,
    IdentityRejected,
}

/// Where one attempt stands.
#[derive(Clone, Copy, Debug, PartialEq, Eq, Structural)]
pub enum AttemptPhase {
    Idle,
    TransportConnecting,
    TransportConnected,
    HandshakeInProgress,
    SessionEstablished,
    Failed,
}

/// How an attempt ended.
#[derive(Clone, Copy, Debug, PartialEq, Eq, Structural)]
pub enum AttemptOutcome {
    Established,
    TransportFailed(TransportError),
    HandshakeFailed(HandshakeError),
}

/// What the runner of an attempt reports back.
#[derive(Clone, Copy, Debug, PartialEq, Eq, Structural)]
pub enum AttemptEvent {
    /// Start a new attempt.
    Begin,
    /// The transport connection is up.
    TransportUp,
    /// The transport connection could not be made.
    TransportFailed(TransportError),
    /// The session object now sits on the socket.
    SessionLayered,
    /// The handshake completed.
    HandshakeDone,
    /// The handshake failed.
    HandshakeFailed(HandshakeError),
    /// The runner has carried out the attempt's last action.
    Finished,
}

/// What the runner of an attempt is asked to do next.
#[derive(Clone, Copy, Debug, PartialEq, Eq, Structural)]
pub enum AttemptAction {
    /// Make a socket over the transport buffers, set its idle timeout, and
    /// connect it to the endpoint.
    Connect { endpoint: Endpoint, timeout_ms: u64 },
    /// Layer a session object over the connected socket and the record buffers.
    LayerSession,
    /// Run the handshake under the given identity policy.
    Handshake { policy: IdentityPolicy },
    /// Hand the live channel to the application, then drop it and its socket.
    Deliver,
    /// Drop the session, if any, and close the socket.
    Release,
    /// Nothing to do.
    Nothing,
}

/// One attempt's state: its phase, its outcome once known, and which of its
/// resources are live.
#[derive(Clone, Copy, Debug, PartialEq, Eq, Structural)]
pub struct Attempt {
    pub phase: AttemptPhase,
    pub outcome: Option<AttemptOutcome>,
    pub socket_live: bool,
    pub session_live: bool,
}

pub open spec fn idle_attempt() -> Attempt {
    Attempt { phase: AttemptPhase::Idle, outcome: None, socket_live: false, session_live: false }
}

/// The attempt's transition on one event.
pub open spec fn attempt_next(a: Attempt, s: SessionSettings, ev: AttemptEvent) -> (Attempt, AttemptAction) {
    match (a.phase, ev) {
        (AttemptPhase::Idle, AttemptEvent::Begin) => (
            Attempt { phase: AttemptPhase::TransportConnecting, outcome: None, socket_live: true, session_live: false },
            AttemptAction::Connect { endpoint: s.endpoint, timeout_ms: IDLE_TIMEOUT_MS },
        ),
        (AttemptPhase::TransportConnecting, AttemptEvent::TransportUp) => (
            Attempt { phase: AttemptPhase::TransportConnected, ..a },
            AttemptAction::LayerSession,
        ),
        (AttemptPhase::TransportConnecting, AttemptEvent::TransportFailed(e)) => (
            Attempt { phase: AttemptPhase::Failed, outcome: Some(AttemptOutcome::TransportFailed(e)), ..a },
            AttemptAction::Release,
        ),
        (AttemptPhase::TransportConnected, AttemptEvent::SessionLayered) => (
            Attempt { phase: AttemptPhase::HandshakeInProgress, session_live: true, ..a },
            AttemptAction::Handshake { policy: s.policy },
        ),
        (AttemptPhase::HandshakeInProgress, AttemptEvent::HandshakeDone) => (
            Attempt { phase: AttemptPhase::SessionEstablished, outcome: Some(AttemptOutcome::Established), ..a },
            AttemptAction::Deliver,
        ),
        (AttemptPhase::HandshakeInProgress, AttemptEvent::HandshakeFailed(e)) => (
            Attempt { phase: AttemptPhase::Failed, outcome: Some(AttemptOutcome::HandshakeFailed(e)), ..a },
            AttemptAction::Release,
        ),
        (AttemptPhase::SessionEstablished, AttemptEvent::Finished) => (
            Attempt { phase: AttemptPhase::Idle, socket_live: false, session_live: false, ..a },
            AttemptAction::Nothing,
        ),
        (AttemptPhase::Failed, AttemptEvent::Finished) => (
            Attempt { phase: AttemptPhase::Idle, socket_live: false, session_live: false, ..a },
            AttemptAction::Nothing,
        ),
        _ => (a, AttemptAction::Nothing),
    }
}

impl Attempt {
    /// An attempt that has not begun and holds nothing.
    pub fn idle() -> (r: Attempt)
        ensures
            r == idle_attempt(),
    {
        Attempt { phase: AttemptPhase::Idle, outcome: None, socket_live: false, session_live: false }
    }

    /// Feeds one event to the attempt and returns the action it asks for.
    pub fn step(&mut self, s: SessionSettings, ev: AttemptEvent) -> (act: AttemptAction)
        ensures
            (*final(self), act) == attempt_next(*old(self), s, ev),
    {
        match (self.phase, ev) {
            (AttemptPhase::Idle, AttemptEvent::Begin) => {
                *self = Attempt { phase: AttemptPhase::TransportConnecting, outcome: None, socket_live: true, session_live: false };
                AttemptAction::Connect { endpoint: s.endpoint, timeout_ms: IDLE_TIMEOUT_MS }
            },
            (AttemptPhase::TransportConnecting, AttemptEvent::TransportUp) => {
                self.phase = AttemptPhase::TransportConnected;
                AttemptAction::LayerSession
            },
            (AttemptPhase::TransportConnecting, AttemptEvent::TransportFailed(e)) => {
                self.phase = AttemptPhase::Failed;
                self.outcome = Some(AttemptOutcome::TransportFailed(e));
                AttemptAction::Release
            },
            (AttemptPhase::TransportConnected, AttemptEvent::SessionLayered) => {
                self.phase = AttemptPhase::HandshakeInProgress;
                self.session_live = true;
                AttemptAction::Handshake { policy: s.policy }
            },
            (AttemptPhase::HandshakeInProgress, AttemptEvent::HandshakeDone) => {
                self.phase = AttemptPhase::SessionEstablished;
                self.outcome = Some(AttemptOutcome::Established);
                AttemptAction::Deliver
            },
            (AttemptPhase::HandshakeInProgress, AttemptEvent::HandshakeFailed(e)) => {
                self.phase = AttemptPhase::Failed;
                self.outcome = Some(AttemptOutcome::HandshakeFailed(e));
                AttemptAction::Release
            },
            (AttemptPhase::SessionEstablished, AttemptEvent::Finished) | (AttemptPhase::Failed, AttemptEvent::Finished) => {
                self.phase = AttemptPhase::Idle;
                self.socket_live = false;
                self.session_live = false;
                AttemptAction::Nothing
            },
            _ => AttemptAction::Nothing,
        }
    }
}

/// The actions of one attempt, and how it ends, when the transport connect
/// gives `transport` and the handshake, if it is reached, gives `handshake`.
pub open spec fn attempt_script(
    s: SessionSettings,
    transport: Result<(), TransportError>,
    handshake: Result<(), HandshakeError>,
) -> (Seq<AttemptAction>, AttemptOutcome) {
    let connect = AttemptAction::Connect { endpoint: s.endpoint, timeout_ms: IDLE_TIMEOUT_MS };
    match transport {
        Err(e) => (seq![connect, AttemptAction::Release], AttemptOutcome::TransportFailed(e)),
        Ok(_) => match handshake {
            Err(h) => (
                seq![connect, AttemptAction::LayerSession, AttemptAction::Handshake { policy: s.policy }, AttemptAction::Release],
                AttemptOutcome::HandshakeFailed(h),
            ),
            Ok(_) => (
                seq![connect, AttemptAction::LayerSession, AttemptAction::Handshake { policy: s.policy }, AttemptAction::Deliver],
                AttemptOutcome::Established,
            ),
        },
    }
}

/// What one scripted attempt did.
#[derive(Debug)]
pub struct AttemptReport {
    /// How it ended.
    pub outcome: AttemptOutcome,
    /// The actions it asked for, in order.
    pub actions: Vec<AttemptAction>,
    /// Its state once the runner reported the last action done.
    pub last: Attempt,
}

/// Drives one attempt from `Idle` to its end, with the transport connect
/// giving `transport` and the handshake giving `handshake`, and records the
/// actions asked for.
pub fn run_attempt(
    s: SessionSettings,
    transport: Result<(), TransportError>,
    handshake: Result<(), HandshakeError>,
) -> (r: AttemptReport)
    ensures
        r.actions@ == attempt_script(s, transport, handshake).0,
        r.outcome == attempt_script(s, transport, handshake).1,
        r.last == (Attempt { outcome: Some(r.outcome), ..idle_attempt() }),
{
    let mut a = Attempt::idle();
    let mut actions: Vec<AttemptAction> = Vec::new();
    let act = a.step(s, AttemptEvent::Begin);
    actions.push(act);
    match transport {
        Err(e) => {
            let act = a.step(s, AttemptEvent::TransportFailed(e));
            actions.push(act);
        },
        Ok(_) => {
            let act = a.step(s, AttemptEvent::TransportUp);
            actions.push(act);
            let act = a.step(s, AttemptEvent::SessionLayered);
            actions.push(act);
            let ev = match handshake {
                Err(h) => AttemptEvent::HandshakeFailed(h),
                Ok(_) => AttemptEvent::HandshakeDone,
            };
            let act = a.step(s, ev);
            actions.push(act);
        },
    }
    let outcome = match a.outcome {
        Some(o) => o,
        None => AttemptOutcome::Established,
    };
    let _ = a.step(s, AttemptEvent::Finished);
    proof {
        assert(actions@ =~= attempt_script(s, transport, handshake).0);
    }
    AttemptReport { outcome, actions, last: a }
}

/// A transport that fails to connect ends the attempt with that transport
/// failure, and the handshake is never asked for.
pub proof fn lemma_transport_failure_skips_handshake(
    s: SessionSettings,
    e: TransportError,
    handshake: Result<(), HandshakeError>,
)
    ensures
        attempt_script(s, Err(e), handshake).1 == AttemptOutcome::TransportFailed(e),
        forall|i: int| 0 <= i < attempt_script(s, Err(e), handshake).0.len() ==>
            !((#[trigger] attempt_script(s, Err(e), handshake).0[i]) is Handshake),
        attempt_script(s, Err(e), handshake).0.last() == AttemptAction::Release,
{
}

/// A transport that connects and a handshake that fails end the attempt with
/// that handshake failure, and the last action releases the session and socket.
pub proof fn lemma_handshake_failure_releases(s: SessionSettings, h: HandshakeError)
    ensures
        attempt_script(s, Ok(()), Err(h)).1 == AttemptOutcome::HandshakeFailed(h),
        attempt_script(s, Ok(()), Err(h)).0.last() == AttemptAction::Release,
{
}

/// The four buffers that every attempt works in: receive and transmit for
/// the socket, read and write for the session's records. They are made once
/// and lent to each attempt in turn; their contents are overwritten by each
/// use and never assumed zeroed.
pub struct BufferSet {
    pub socket_rx: Vec<u8>,
    pub socket_tx: Vec<u8>,
    pub record_read: Vec<u8>,
    pub record_write: Vec<u8>,
}

impl BufferSet {
    /// Each buffer has its fixed size.
    pub open spec fn wf(&self) -> bool {
        &&& self.socket_rx@.len() == BUFFER_LEN
        &&& self.socket_tx@.len() == BUFFER_LEN
        &&& self.record_read@.len() == BUFFER_LEN
        &&& self.record_write@.len() == BUFFER_LEN
    }

    /// Four buffers of the fixed size.
    pub fn new() -> (r: BufferSet)
        ensures
            r.wf(),
    {
        BufferSet {
            socket_rx: vec![0u8; BUFFER_LEN],
            socket_tx: vec![0u8; BUFFER_LEN],
            record_read: vec![0u8; BUFFER_LEN],
            record_write: vec![0u8; BUFFER_LEN],
        }
    }

    /// The bytes held by the four buffers together.
    pub fn total_len(&self) -> (n: usize)
        requires
            self.wf(),
        ensures
            n == 4 * BUFFER_LEN,
    {
        self.socket_rx.len() + self.socket_tx.len() + self.record_read.len() + self.record_write.len()
    }
}

} // verus!
