use vstd::prelude::*;

verus! {

/// Delay after a disconnect, and after a failed connect, in milliseconds.
pub const COOLDOWN_MS: u64 = 5000;

/// The radio's association with the access point.
#[derive(Clone, Copy, Debug, PartialEq, Eq, Structural)]
pub enum AssociationState {
    Disconnected,
    Connecting,
    Connected,
}

/// Where the link supervisor stands in its loop.
#[derive(Clone, Copy, Debug, PartialEq, Eq, Structural)]
pub enum LinkPhase {
    /// Waiting to learn the association state.
    Check,
    /// Associated: waiting for a disconnect.
    AwaitingDisconnect,
    /// Sleeping after a disconnect.
    Cooldown,
    /// Waiting to learn whether the radio is started.
    CheckStarted,
    /// Configuring and starting the radio.
    Starting,
    /// A connect request is under way.
    Connecting,
    /// Sleeping after a failed connect.
    Backoff,
    /// The radio could not be started; nothing more can be done.
    Halted,
}

/// What the radio driver, or a timer, reports to the supervisor.
#[derive(Clone, Copy, Debug, PartialEq, Eq, Structural)]
pub enum LinkEvent {
    /// The current association state.
    Association(AssociationState),
    /// The radio disconnected from the access point.
    Disconnected,
    /// A requested sleep has ended.
    TimerElapsed,
    /// Whether the radio is started.
    Started(bool),
    /// Whether configuring and starting the radio succeeded.
    StartDone(bool),
    /// Whether the connect request succeeded.
    ConnectDone(bool),
}

/// What the supervisor asks of the radio driver or the timer.
#[derive(Clone, Copy, Debug, PartialEq, Eq, Structural)]
pub enum LinkAction {
    QueryAssociation,
    WaitForDisconnect,
    Sleep { ms: u64 },
    QueryStarted,
    /// Configure the radio as a client with the credentials, then start it.
    ConfigureAndStart,
    Connect,
    /// Starting the radio failed: stop the process.
    Fatal,
}

/// The action the supervisor is waiting on in each phase.
pub open spec fn pending_action(p: LinkPhase) -> LinkAction {
    match p {
        LinkPhase::Check => LinkAction::QueryAssociation,
        LinkPhase::AwaitingDisconnect => LinkAction::WaitForDisconnect,
        LinkPhase::Cooldown => LinkAction::Sleep { ms: COOLDOWN_MS },
        LinkPhase::CheckStarted => LinkAction::QueryStarted,
        LinkPhase::Starting => LinkAction::ConfigureAndStart,
        LinkPhase::Connecting => LinkAction::Connect,
        LinkPhase::Backoff => LinkAction::Sleep { ms: COOLDOWN_MS },
        LinkPhase::Halted => LinkAction::Fatal,
    }
}

/// The supervisor's transition on one event. An event that the phase does
/// not wait for changes nothing, and the pending action is asked again.
pub open spec fn link_next(p: LinkPhase, ev: LinkEvent) -> LinkPhase {
    match (p, ev) {
        (LinkPhase::Check, LinkEvent::Association(AssociationState::Connected)) => LinkPhase::AwaitingDisconnect,
        (LinkPhase::Check, LinkEvent::Association(_)) => LinkPhase::CheckStarted,
        (LinkPhase::AwaitingDisconnect, LinkEvent::Disconnected) => LinkPhase::Cooldown,
        (LinkPhase::Cooldown, LinkEvent::TimerElapsed) => LinkPhase::CheckStarted,
        (LinkPhase::CheckStarted, LinkEvent::Started(true)) => LinkPhase::Connecting,
        (LinkPhase::CheckStarted, LinkEvent::Started(false)) => LinkPhase::Starting,
        (LinkPhase::Starting, LinkEvent::StartDone(true)) => LinkPhase::Connecting,
        (LinkPhase::Starting, LinkEvent::StartDone(false)) => LinkPhase::Halted,
        (LinkPhase::Connecting, LinkEvent::ConnectDone(true)) => LinkPhase::Check,
        (LinkPhase::Connecting, LinkEvent::ConnectDone(false)) => LinkPhase::Backoff,
        (LinkPhase::Backoff, LinkEvent::TimerElapsed) => LinkPhase::Check,
        _ => p,
    }
}

/// The supervisor's state machine.
pub struct LinkSupervisor {
    pub phase: LinkPhase,
}

impl LinkSupervisor {
    /// A supervisor at the top of its loop.
    pub fn new() -> (r: LinkSupervisor)
        ensures
            r.phase == LinkPhase::Check,
    {
        LinkSupervisor { phase: LinkPhase::Check }
    }

    /// The action that the current phase waits on.
    pub fn action(&self) -> (a: LinkAction)
        ensures
            a == pending_action(self.phase),
    {
        match self.phase {
            LinkPhase::Check => LinkAction::QueryAssociation,
            LinkPhase::AwaitingDisconnect => LinkAction::WaitForDisconnect,
            LinkPhase::Cooldown => LinkAction::Sleep { ms: COOLDOWN_MS },
            LinkPhase::CheckStarted => LinkAction::QueryStarted,
            LinkPhase::Starting => LinkAction::ConfigureAndStart,
            LinkPhase::Connecting => LinkAction::Connect,
            LinkPhase::Backoff => LinkAction::Sleep { ms: COOLDOWN_MS },
            LinkPhase::Halted => LinkAction::Fatal,
        }
    }

    /// Feeds one event to the supervisor and returns the next action.
    pub fn step(&mut self, ev: LinkEvent) -> (a: LinkAction)
        ensures
            final(self).phase == link_next(old(self).phase, ev),
            a == pending_action(final(self).phase),
    {
        let next = match (self.phase, ev) {
            (LinkPhase::Check, LinkEvent::Association(AssociationState::Connected)) => LinkPhase::AwaitingDisconnect,
            (LinkPhase::Check, LinkEvent::Association(_)) => LinkPhase::CheckStarted,
            (LinkPhase::AwaitingDisconnect, LinkEvent::Disconnected) => LinkPhase::Cooldown,
            (LinkPhase::Cooldown, LinkEvent::TimerElapsed) => LinkPhase::CheckStarted,
            (LinkPhase::CheckStarted, LinkEvent::Started(started)) => {
                if started { LinkPhase::Connecting } else { LinkPhase::Starting }
            },
            (LinkPhase::Starting, LinkEvent::StartDone(ok)) => {
                if ok { LinkPhase::Connecting } else { LinkPhase::Halted }
            },
            (LinkPhase::Connecting, LinkEvent::ConnectDone(ok)) => {
                if ok { LinkPhase::Check } else { LinkPhase::Backoff }
            },
            (LinkPhase::Backoff, LinkEvent::TimerElapsed) => LinkPhase::Check,
            _ => self.phase,
        };
        self.phase = next;
        self.action()
    }
}

/// The phase reached from `p` after the events in `evs`, in order.
pub open spec fn link_after(p: LinkPhase, evs: Seq<LinkEvent>) -> LinkPhase
    decreases evs.len(),
{
    if evs.len() == 0 {
        p
    } else {
        link_after(link_next(p, evs[0]), evs.drop_first())
    }
}

/// The milliseconds slept while the events in `evs` move the supervisor on
/// from `p`: each sleep that a `TimerElapsed` ends counts once.
pub open spec fn link_slept_ms(p: LinkPhase, evs: Seq<LinkEvent>) -> nat
    decreases evs.len(),
{
    if evs.len() == 0 {
        0
    } else {
        (if evs[0] == LinkEvent::TimerElapsed && pending_action(p) is Sleep { COOLDOWN_MS as nat } else { 0 })
            + link_slept_ms(link_next(p, evs[0]), evs.drop_first())
    }
}

/// The events with which the driver answers the supervisor after a disconnect:
/// the cooldown ends, the radio says whether it is started, and, if it was
/// not, starting it succeeds.
pub open spec fn answers_after_disconnect(started: bool) -> Seq<LinkEvent> {
    if started {
        seq![LinkEvent::Disconnected, LinkEvent::TimerElapsed, LinkEvent::Started(true)]
    } else {
        seq![LinkEvent::Disconnected, LinkEvent::TimerElapsed, LinkEvent::Started(false), LinkEvent::StartDone(true)]
    }
}

/// Each disconnect is followed by one cooldown and then by a connect request:
/// whichever phase the supervisor waited for the disconnect in, the driver's
/// answers bring it back to `Connecting` with exactly one cooldown slept.
pub proof fn lemma_reconnects_after_disconnect(started: bool)
    ensures
        link_after(LinkPhase::AwaitingDisconnect, answers_after_disconnect(started)) == LinkPhase::Connecting,
        link_slept_ms(LinkPhase::AwaitingDisconnect, answers_after_disconnect(started)) == COOLDOWN_MS,
        pending_action(LinkPhase::Connecting) == LinkAction::Connect,
{
    let evs = answers_after_disconnect(started);
    reveal_with_fuel(link_after, 5);
    reveal_with_fuel(link_slept_ms, 5);
    if !started {
        assert(evs.drop_first().drop_first().drop_first().drop_first() =~= Seq::<LinkEvent>::empty());
    }
    assert(evs.drop_first().drop_first().drop_first() =~= if started {
        Seq::<LinkEvent>::empty()
    } else {
        seq![LinkEvent::StartDone(true)]
    });
    assert(evs.drop_first().drop_first() =~= if started {
        seq![LinkEvent::Started(true)]
    } else {
        seq![LinkEvent::Started(false), LinkEvent::StartDone(true)]
    });
    assert(evs.drop_first() =~= if started {
        seq![LinkEvent::TimerElapsed, LinkEvent::Started(true)]
    } else {
        seq![LinkEvent::TimerElapsed, LinkEvent::Started(false), LinkEvent::StartDone(true)]
    });
}

/// Once the radio could not be started, the supervisor stays halted whatever
/// comes next.
pub proof fn lemma_halted_is_final(evs: Seq<LinkEvent>)
    ensures
        link_after(LinkPhase::Halted, evs) == LinkPhase::Halted,
    decreases evs.len(),
{
    if evs.len() > 0 {
        lemma_halted_is_final(evs.drop_first());
    }
}

/// One disconnect handled to the end: the answers after the disconnect, the
/// connect succeeding, and the radio reported associated again.
pub open spec fn reconnect_cycle(started: bool) -> Seq<LinkEvent> {
    answers_after_disconnect(started) + seq![
        LinkEvent::ConnectDone(true),
        LinkEvent::Association(AssociationState::Connected),
    ]
}

/// Consecutive disconnects, each handled to the end; `starts` says for each
/// whether the radio was still started.
pub open spec fn reconnect_cycles(starts: Seq<bool>) -> Seq<LinkEvent>
    decreases starts.len(),
{
    if starts.len() == 0 {
        Seq::empty()
    } else {
        reconnect_cycle(starts[0]) + reconnect_cycles(starts.drop_first())
    }
}

proof fn lemma_link_after_append(p: LinkPhase, a: Seq<LinkEvent>, b: Seq<LinkEvent>)
    ensures
        link_after(p, a + b) == link_after(link_after(p, a), b),
        link_slept_ms(p, a + b) == link_slept_ms(p, a) + link_slept_ms(link_after(p, a), b),
    decreases a.len(),
{
    if a.len() > 0 {
        assert((a + b).drop_first() =~= a.drop_first() + b);
        assert((a + b)[0] == a[0]);
        lemma_link_after_append(link_next(p, a[0]), a.drop_first(), b);
    } else {
        assert(a + b =~= b);
    }
}

/// However many disconnects come, each one brings the supervisor back to a
/// connect request after exactly one cooldown: handled in turn, they leave it
/// waiting for the next disconnect, having slept one cooldown for each.
pub proof fn lemma_reconnects_after_every_disconnect(starts: Seq<bool>)
    ensures
        link_after(LinkPhase::AwaitingDisconnect, reconnect_cycles(starts)) == LinkPhase::AwaitingDisconnect,
        link_slept_ms(LinkPhase::AwaitingDisconnect, reconnect_cycles(starts)) == starts.len() * COOLDOWN_MS,
        forall|i: int| 0 <= i < starts.len() ==>
            link_after(LinkPhase::AwaitingDisconnect, #[trigger] answers_after_disconnect(starts[i])) == LinkPhase::Connecting,
    decreases starts.len(),
{
    assert forall|i: int| 0 <= i < starts.len() implies
        link_after(LinkPhase::AwaitingDisconnect, #[trigger] answers_after_disconnect(starts[i])) == LinkPhase::Connecting by {
        lemma_reconnects_after_disconnect(starts[i]);
    }
    if starts.len() > 0 {
        let started = starts[0];
        let tail = seq![LinkEvent::ConnectDone(true), LinkEvent::Association(AssociationState::Connected)];
        lemma_reconnects_after_disconnect(started);
        lemma_link_after_append(LinkPhase::AwaitingDisconnect, answers_after_disconnect(started), tail);
        reveal_with_fuel(link_after, 3);
        reveal_with_fuel(link_slept_ms, 3);
        assert(tail.drop_first().drop_first() =~= Seq::<LinkEvent>::empty());
        assert(tail.drop_first() =~= seq![LinkEvent::Association(AssociationState::Connected)]);
        lemma_reconnects_after_every_disconnect(starts.drop_first());
        lemma_link_after_append(LinkPhase::AwaitingDisconnect, reconnect_cycle(started), reconnect_cycles(starts.drop_first()));
        assert(starts.len() * COOLDOWN_MS == COOLDOWN_MS + starts.drop_first().len() * COOLDOWN_MS) by (nonlinear_arith)
            requires starts.drop_first().len() + 1 == starts.len();
    } else {
        assert(reconnect_cycles(starts) =~= Seq::<LinkEvent>::empty());
    }
}

} // verus!
