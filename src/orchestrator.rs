use vstd::prelude::*;
use crate::gate::{GatePhase, GateAction, Readiness, gate_next, gate_step};
use crate::session::{
    Attempt, AttemptAction, AttemptEvent, AttemptPhase, SessionSettings, TransportError,
    AttemptOutcome, attempt_next, idle_attempt,
};

verus! {

/// Sleep before each attempt, in milliseconds.
pub const PRE_ATTEMPT_DELAY_MS: u64 = 1000;

/// Sleep after each attempt, whatever its outcome, in milliseconds.
pub const POST_ATTEMPT_DELAY_MS: u64 = 3000;

/// Where the connection loop stands.
#[derive(Clone, Copy, Debug, PartialEq, Eq, Structural)]
pub enum LoopStage {
    /// Waiting, once at startup, for the network stack to become usable.
    Gating,
    /// Sleeping before an attempt.
    PreDelay,
    /// An attempt is under way.
    Attempting,
    /// Sleeping after an attempt.
    PostDelay,
}

/// What the runner of the loop reports back.
#[derive(Clone, Copy, Debug, PartialEq, Eq, Structural)]
pub enum LoopEvent {
    /// A poll of the network stack.
    Polled(Readiness),
    /// A requested sleep has ended.
    TimerElapsed,
    /// An event of the attempt under way.
    Attempt(AttemptEvent),
}

/// What the loop asks its runner to do next.
#[derive(Clone, Copy, Debug, PartialEq, Eq, Structural)]
pub enum LoopAction {
    /// Sleep this many milliseconds, then poll the network stack.
    PollAfter { ms: u64 },
    /// Sleep this many milliseconds.
    Sleep { ms: u64 },
    /// Carry out an action of the attempt under way.
    Attempt(AttemptAction),
    /// Nothing to do.
    Nothing,
}

/// The loop's whole state.
#[derive(Clone, Copy, Debug, PartialEq, Eq, Structural)]
pub struct LoopState {
    pub stage: LoopStage,
    pub gate: GatePhase,
    pub attempt: Attempt,
}

/// Outside an attempt, no attempt resource is live and the attempt is idle;
/// during one, the attempt has begun and holds its socket.
pub open spec fn loop_wf(st: LoopState) -> bool {
    &&& st.stage != LoopStage::Attempting ==> (st.attempt.phase == AttemptPhase::Idle
        && !st.attempt.socket_live && !st.attempt.session_live)
    &&& st.stage == LoopStage::Attempting ==> (st.attempt.phase != AttemptPhase::Idle
        && st.attempt.socket_live)
}

pub open spec fn initial_loop() -> LoopState {
    LoopState { stage: LoopStage::Gating, gate: GatePhase::AwaitLink, attempt: idle_attempt() }
}

/// The loop's transition on one event.
pub open spec fn loop_next(st: LoopState, s: SessionSettings, ev: LoopEvent) -> (LoopState, LoopAction) {
    match (st.stage, ev) {
        (LoopStage::Gating, LoopEvent::Polled(r)) => {
            let (g, ga) = gate_next(st.gate, r);
            match ga {
                GateAction::Open => (
                    LoopState { stage: LoopStage::PreDelay, gate: g, ..st },
                    LoopAction::Sleep { ms: PRE_ATTEMPT_DELAY_MS },
                ),
                GateAction::Sleep { ms } => (LoopState { gate: g, ..st }, LoopAction::PollAfter { ms }),
            }
        },
        (LoopStage::PreDelay, LoopEvent::TimerElapsed) => {
            let (a, aa) = attempt_next(idle_attempt(), s, AttemptEvent::Begin);
            (LoopState { stage: LoopStage::Attempting, attempt: a, ..st }, LoopAction::Attempt(aa))
        },
        (LoopStage::Attempting, LoopEvent::Attempt(e)) => {
            let (a, aa) = attempt_next(st.attempt, s, e);
            if a.phase == AttemptPhase::Idle {
                (
                    LoopState { stage: LoopStage::PostDelay, attempt: a, ..st },
                    LoopAction::Sleep { ms: POST_ATTEMPT_DELAY_MS },
                )
            } else {
                (LoopState { attempt: a, ..st }, LoopAction::Attempt(aa))
            }
        },
        (LoopStage::PostDelay, LoopEvent::TimerElapsed) => (
            LoopState { stage: LoopStage::PreDelay, ..st },
            LoopAction::Sleep { ms: PRE_ATTEMPT_DELAY_MS },
        ),
        _ => (st, LoopAction::Nothing),
    }
}

/// The connection loop: settings for each attempt, and the loop's state.
pub struct ConnectionLoop {
    pub settings: SessionSettings,
    pub state: LoopState,
}

impl ConnectionLoop {
    pub open spec fn wf(&self) -> bool {
        loop_wf(self.state)
    }

    /// A loop at startup, before its first poll of the network stack.
    pub fn new(settings: SessionSettings) -> (r: ConnectionLoop)
        ensures
            r.settings == settings,
            r.state == initial_loop(),
            r.wf(),
    {
        ConnectionLoop {
            settings,
            state: LoopState { stage: LoopStage::Gating, gate: GatePhase::AwaitLink, attempt: Attempt::idle() },
        }
    }

    /// The first action: poll the stack at once.
    pub fn first_action(&self) -> (a: LoopAction)
        ensures
            a == (LoopAction::PollAfter { ms: 0 }),
    {
        LoopAction::PollAfter { ms: 0 }
    }

    /// Feeds one event to the loop and returns the next action.
    pub fn step(&mut self, ev: LoopEvent) -> (a: LoopAction)
        requires
            old(self).wf(),
        ensures
            final(self).wf(),
            final(self).settings == old(self).settings,
            (final(self).state, a) == loop_next(old(self).state, old(self).settings, ev),
    {
        proof {
            lemma_loop_wf_preserved(self.state, self.settings, ev);
        }
        let s = self.settings;
        match (self.state.stage, ev) {
            (LoopStage::Gating, LoopEvent::Polled(r)) => {
                let (g, ga) = gate_step(self.state.gate, r);
                self.state.gate = g;
                match ga {
                    GateAction::Open => {
                        self.state.stage = LoopStage::PreDelay;
                        LoopAction::Sleep { ms: PRE_ATTEMPT_DELAY_MS }
                    },
                    GateAction::Sleep { ms } => LoopAction::PollAfter { ms },
                }
            },
            (LoopStage::PreDelay, LoopEvent::TimerElapsed) => {
                let mut a = Attempt::idle();
                let aa = a.step(s, AttemptEvent::Begin);
                self.state.stage = LoopStage::Attempting;
                self.state.attempt = a;
                LoopAction::Attempt(aa)
            },
            (LoopStage::Attempting, LoopEvent::Attempt(e)) => {
                let mut a = self.state.attempt;
                let aa = a.step(s, e);
                self.state.attempt = a;
                if a.phase == AttemptPhase::Idle {
                    self.state.stage = LoopStage::PostDelay;
                    LoopAction::Sleep { ms: POST_ATTEMPT_DELAY_MS }
                } else {
                    LoopAction::Attempt(aa)
                }
            },
            (LoopStage::PostDelay, LoopEvent::TimerElapsed) => {
                self.state.stage = LoopStage::PreDelay;
                LoopAction::Sleep { ms: PRE_ATTEMPT_DELAY_MS }
            },
            _ => LoopAction::Nothing,
        }
    }
}

/// Every transition keeps the loop's invariant: outside an attempt, nothing
/// of an attempt is live.
pub proof fn lemma_loop_wf_preserved(st: LoopState, s: SessionSettings, ev: LoopEvent)
    requires
        loop_wf(st),
    ensures
        loop_wf(loop_next(st, s, ev).0),
{
}

/// A new attempt is begun only when the previous one has released all it
/// held: the loop asks for a transport connect only from a state in which no
/// socket and no session is live.
pub proof fn lemma_no_overlapping_attempts(st: LoopState, s: SessionSettings, ev: LoopEvent)
    requires
        loop_wf(st),
        loop_next(st, s, ev).1 is Attempt,
        loop_next(st, s, ev).1->Attempt_0 is Connect,
    ensures
        !st.attempt.socket_live,
        !st.attempt.session_live,
        st.stage == LoopStage::PreDelay,
{
}

/// The state reached from `st` after the events in `evs`, in order.
pub open spec fn loop_after(st: LoopState, s: SessionSettings, evs: Seq<LoopEvent>) -> LoopState
    decreases evs.len(),
{
    if evs.len() == 0 {
        st
    } else {
        loop_after(loop_next(st, s, evs[0]).0, s, evs.drop_first())
    }
}

/// The events of one attempt whose transport connect fails with `e`: the
/// pre-attempt sleep ends, the connect fails, the runner releases the socket,
/// and the post-attempt sleep ends.
pub open spec fn failed_cycle(e: TransportError) -> Seq<LoopEvent> {
    seq![
        LoopEvent::TimerElapsed,
        LoopEvent::Attempt(AttemptEvent::TransportFailed(e)),
        LoopEvent::Attempt(AttemptEvent::Finished),
        LoopEvent::TimerElapsed,
    ]
}

/// The events of consecutive failed attempts, one for each error in `es`.
pub open spec fn failed_cycles(es: Seq<TransportError>) -> Seq<LoopEvent>
    decreases es.len(),
{
    if es.len() == 0 {
        Seq::empty()
    } else {
        failed_cycle(es[0]) + failed_cycles(es.drop_first())
    }
}

proof fn lemma_loop_after_append(st: LoopState, s: SessionSettings, a: Seq<LoopEvent>, b: Seq<LoopEvent>)
    ensures
        loop_after(st, s, a + b) == loop_after(loop_after(st, s, a), s, b),
    decreases a.len(),
{
    if a.len() > 0 {
        assert((a + b).drop_first() =~= a.drop_first() + b);
        assert((a + b)[0] == a[0]);
        lemma_loop_after_append(loop_next(st, s, a[0]).0, s, a.drop_first(), b);
    } else {
        assert(a + b =~= b);
    }
}

proof fn lemma_one_failed_cycle(st: LoopState, s: SessionSettings, e: TransportError)
    requires
        loop_wf(st),
        st.stage == LoopStage::PreDelay,
    ensures
        loop_after(st, s, failed_cycle(e)) == (LoopState {
            stage: LoopStage::PreDelay,
            gate: st.gate,
            attempt: Attempt { outcome: Some(AttemptOutcome::TransportFailed(e)), ..idle_attempt() },
        }),
{
    let evs = failed_cycle(e);
    reveal_with_fuel(loop_after, 5);
    assert(evs.drop_first().drop_first().drop_first().drop_first() =~= Seq::<LoopEvent>::empty());
    assert(evs.drop_first().drop_first().drop_first() =~= seq![LoopEvent::TimerElapsed]);
    assert(evs.drop_first().drop_first() =~= seq![
        LoopEvent::Attempt(AttemptEvent::Finished),
        LoopEvent::TimerElapsed,
    ]);
    assert(evs.drop_first() =~= seq![
        LoopEvent::Attempt(AttemptEvent::TransportFailed(e)),
        LoopEvent::Attempt(AttemptEvent::Finished),
        LoopEvent::TimerElapsed,
    ]);
}

/// Failed attempts leave nothing behind: after any number of consecutive
/// failed attempts the loop is in the very state that one attempt failing
/// with the last error would leave, with no socket or session live.
pub proof fn lemma_failed_attempts_leave_no_trace(st: LoopState, s: SessionSettings, es: Seq<TransportError>)
    requires
        loop_wf(st),
        st.stage == LoopStage::PreDelay,
        es.len() > 0,
    ensures
        loop_after(st, s, failed_cycles(es)) == loop_after(st, s, failed_cycle(es.last())),
        !loop_after(st, s, failed_cycles(es)).attempt.socket_live,
        !loop_after(st, s, failed_cycles(es)).attempt.session_live,
    decreases es.len(),
{
    let rest = es.drop_first();
    lemma_loop_after_append(st, s, failed_cycle(es[0]), failed_cycles(rest));
    lemma_one_failed_cycle(st, s, es[0]);
    lemma_one_failed_cycle(st, s, es.last());
    let mid = loop_after(st, s, failed_cycle(es[0]));
    if rest.len() > 0 {
        lemma_failed_attempts_leave_no_trace(mid, s, rest);
        lemma_one_failed_cycle(mid, s, rest.last());
        assert(rest.last() == es.last());
    } else {
        assert(failed_cycles(rest) =~= Seq::<LoopEvent>::empty());
        assert(es.last() == es[0]);
    }
}

} // verus!
