use vstd::prelude::*;

verus! {

/// Interval between two polls of the network stack, in milliseconds.
pub const POLL_INTERVAL_MS: u64 = 500;

/// An IPv4 address, most significant octet first.
#[derive(Clone, Copy, Debug, PartialEq, Eq, Structural)]
pub struct Ipv4Addr {
    pub a: u8,
    pub b: u8,
    pub c: u8,
    pub d: u8,
}

/// What one poll of the network stack shows: whether the link layer is up,
/// and the IPv4 address assigned to the interface, if any.
#[derive(Clone, Copy, Debug, PartialEq, Eq, Structural)]
pub struct Readiness {
    pub link_up: bool,
    pub ipv4: Option<Ipv4Addr>,
}

/// Where the readiness barrier stands: first it waits for the link, then for an address.
#[derive(Clone, Copy, Debug, PartialEq, Eq, Structural)]
pub enum GatePhase {
    AwaitLink,
    AwaitAddress,
    Ready,
}

/// What the readiness barrier asks of its runner after a poll.
#[derive(Clone, Copy, Debug, PartialEq, Eq, Structural)]
pub enum GateAction {
    /// Sleep this many milliseconds, then poll again.
    Sleep { ms: u64 },
    /// The stack is usable: let the pipeline go on.
    Open,
}

pub open spec fn has_address(r: Readiness) -> bool {
    r.ipv4.is_some()
}

/// The readiness barrier's transition on one poll. Both checks of a poll read the same
/// snapshot, since no suspension point lies between them.
pub open spec fn gate_next(phase: GatePhase, r: Readiness) -> (GatePhase, GateAction) {
    match phase {
        GatePhase::Ready => (GatePhase::Ready, GateAction::Open),
        GatePhase::AwaitLink => if !r.link_up {
            (GatePhase::AwaitLink, GateAction::Sleep { ms: POLL_INTERVAL_MS })
        } else if has_address(r) {
            (GatePhase::Ready, GateAction::Open)
        } else {
            (GatePhase::AwaitAddress, GateAction::Sleep { ms: POLL_INTERVAL_MS })
        },
        GatePhase::AwaitAddress => if has_address(r) {
            (GatePhase::Ready, GateAction::Open)
        } else {
            (GatePhase::AwaitAddress, GateAction::Sleep { ms: POLL_INTERVAL_MS })
        },
    }
}

/// One poll of the stack readiness readiness barrier.
pub fn gate_step(phase: GatePhase, r: Readiness) -> (res: (GatePhase, GateAction))
    ensures
        res == gate_next(phase, r),
{
    match phase {
        GatePhase::Ready => (GatePhase::Ready, GateAction::Open),
        GatePhase::AwaitLink => {
            if !r.link_up {
                (GatePhase::AwaitLink, GateAction::Sleep { ms: POLL_INTERVAL_MS })
            } else if r.ipv4.is_some() {
                (GatePhase::Ready, GateAction::Open)
            } else {
                (GatePhase::AwaitAddress, GateAction::Sleep { ms: POLL_INTERVAL_MS })
            }
        },
        GatePhase::AwaitAddress => {
            if r.ipv4.is_some() {
                (GatePhase::Ready, GateAction::Open)
            } else {
                (GatePhase::AwaitAddress, GateAction::Sleep { ms: POLL_INTERVAL_MS })
            }
        },
    }
}

/// The phase reached from `phase` after the polls in `obs`, in order.
pub open spec fn gate_after(phase: GatePhase, obs: Seq<Readiness>) -> GatePhase
    decreases obs.len(),
{
    if obs.len() == 0 {
        phase
    } else {
        gate_after(gate_next(phase, obs[0]).0, obs.drop_first())
    }
}

/// The index of the first poll from which a readiness barrier in `phase` opens, or
/// `obs.len()` when it stays shut through all of `obs`.
pub open spec fn polls_until_open(phase: GatePhase, obs: Seq<Readiness>) -> nat
    decreases obs.len(),
{
    if phase == GatePhase::Ready || obs.len() == 0 {
        0
    } else if gate_next(phase, obs[0]).0 == GatePhase::Ready {
        1
    } else {
        1 + polls_until_open(gate_next(phase, obs[0]).0, obs.drop_first())
    }
}

/// The result of running the readiness barrier over a recorded series of polls.
#[derive(Clone, Copy, Debug, PartialEq, Eq, Structural)]
pub struct GateRun {
    /// Whether the readiness barrier opened.
    pub ready: bool,
    /// How many polls it made.
    pub polls: usize,
    /// How long it slept in all, in milliseconds.
    pub waited_ms: u64,
}

/// Runs the readiness barrier from its start over the polls in `obs`, stopping at the first
/// poll that opens it.
pub fn run_gate(obs: &Vec<Readiness>) -> (r: GateRun)
    requires
        obs@.len() <= 1_000_000_000,
    ensures
        r.polls == polls_until_open(GatePhase::AwaitLink, obs@),
        r.ready == (gate_after(GatePhase::AwaitLink, obs@.take(r.polls as int)) == GatePhase::Ready),
        r.ready ==> r.waited_ms == (r.polls - 1) * POLL_INTERVAL_MS,
        !r.ready ==> r.polls == obs@.len() && r.waited_ms == r.polls * POLL_INTERVAL_MS,
{
    let mut phase = GatePhase::AwaitLink;
    let mut i: usize = 0;
    let mut waited: u64 = 0;
    proof {
        assert(obs@.skip(0) =~= obs@);
        assert(obs@.take(0) =~= Seq::<Readiness>::empty());
    }
    while i < obs.len()
        invariant
            i <= obs@.len() <= 1_000_000_000,
            phase != GatePhase::Ready,
            phase == gate_after(GatePhase::AwaitLink, obs@.take(i as int)),
            polls_until_open(GatePhase::AwaitLink, obs@) == i + polls_until_open(phase, obs@.skip(i as int)),
            waited == i * POLL_INTERVAL_MS,
        decreases obs@.len() - i,
    {
        let (next, action) = gate_step(phase, obs[i]);
        proof {
            lemma_gate_after_push(GatePhase::AwaitLink, obs@.take(i as int), obs@[i as int]);
            assert(obs@.take(i as int).push(obs@[i as int]) =~= obs@.take(i + 1));
            assert(obs@.skip(i as int).drop_first() =~= obs@.skip(i + 1));
        }
        i = i + 1;
        match action {
            GateAction::Open => {
                return GateRun { ready: true, polls: i, waited_ms: waited };
            },
            GateAction::Sleep { ms } => {
                waited = waited + ms;
            },
        }
        phase = next;
    }
    proof {
        assert(obs@.take(i as int) =~= obs@);
    }
    GateRun { ready: false, polls: i, waited_ms: waited }
}

proof fn lemma_gate_after_push(phase: GatePhase, obs: Seq<Readiness>, r: Readiness)
    ensures
        gate_after(phase, obs.push(r)) == gate_next(gate_after(phase, obs), r).0,
    decreases obs.len(),
{
    if obs.len() > 0 {
        assert(obs.push(r).drop_first() =~= obs.drop_first().push(r));
        assert(obs.push(r)[0] == obs[0]);
        lemma_gate_after_push(gate_next(phase, obs[0]).0, obs.drop_first(), r);
    } else {
        assert(obs.push(r).drop_first() =~= Seq::<Readiness>::empty());
        assert(obs.push(r)[0] == r);
        assert(gate_after(gate_next(phase, r).0, Seq::<Readiness>::empty()) == gate_next(phase, r).0);
        assert(gate_after(phase, obs) == phase);
    }
}

/// Some poll shows the link up, and that poll or a later one shows an address.
pub open spec fn link_then_address(obs: Seq<Readiness>) -> bool {
    exists|i: int, j: int| 0 <= i <= j < obs.len() && obs[i].link_up && #[trigger] has_address(obs[j]) && #[trigger] obs[i].link_up
}

/// The readiness barrier never opens before the link has been seen up and, at that poll
/// or later, an address has been seen assigned.
pub proof fn lemma_gate_opens_only_when_ready(obs: Seq<Readiness>)
    requires
        gate_after(GatePhase::AwaitLink, obs) == GatePhase::Ready,
    ensures
        link_then_address(obs),
    decreases obs.len(),
{
    assert(obs.len() > 0);
    let r = obs[0];
    let rest = obs.drop_first();
    let next = gate_next(GatePhase::AwaitLink, r).0;
    if next == GatePhase::AwaitLink {
        lemma_gate_opens_only_when_ready(rest);
        let (i, j) = choose|i: int, j: int| 0 <= i <= j < rest.len() && rest[i].link_up && #[trigger] has_address(rest[j]) && #[trigger] rest[i].link_up;
        assert(obs[i + 1] == rest[i] && obs[j + 1] == rest[j]);
        assert(has_address(obs[j + 1]) && obs[i + 1].link_up);
    } else if next == GatePhase::Ready {
        assert(has_address(obs[0]) && obs[0].link_up);
    } else {
        lemma_address_seen(rest);
        let j = choose|j: int| 0 <= j < rest.len() && #[trigger] has_address(rest[j]);
        assert(obs[j + 1] == rest[j]);
        assert(has_address(obs[j + 1]) && obs[0].link_up);
    }
}

proof fn lemma_address_seen(obs: Seq<Readiness>)
    requires
        gate_after(GatePhase::AwaitAddress, obs) == GatePhase::Ready,
    ensures
        exists|j: int| 0 <= j < obs.len() && #[trigger] has_address(obs[j]),
    decreases obs.len(),
{
    assert(obs.len() > 0);
    if !has_address(obs[0]) {
        lemma_address_seen(obs.drop_first());
        let j = choose|j: int| 0 <= j < obs.drop_first().len() && #[trigger] has_address(obs.drop_first()[j]);
        assert(obs[j + 1] == obs.drop_first()[j]);
    } else {
        assert(has_address(obs[0]));
    }
}

/// A stack whose first `n` polls show the link down and whose next poll shows
/// the link up with an address is polled exactly `n + 1` times before the
/// readiness barrier opens, with a sleep of the poll interval after each of the first `n`.
pub proof fn lemma_gate_polls_when_ready_after(n: nat, obs: Seq<Readiness>)
    requires
        n < obs.len(),
        forall|k: int| 0 <= k < n ==> !(#[trigger] obs[k]).link_up,
        obs[n as int].link_up,
        has_address(obs[n as int]),
    ensures
        polls_until_open(GatePhase::AwaitLink, obs) == n + 1,
        gate_after(GatePhase::AwaitLink, obs.take((n + 1) as int)) == GatePhase::Ready,
        (polls_until_open(GatePhase::AwaitLink, obs) - 1) * POLL_INTERVAL_MS == n * POLL_INTERVAL_MS,
    decreases n,
{
    if n > 0 {
        let rest = obs.drop_first();
        assert(!obs[0].link_up);
        assert forall|k: int| 0 <= k < (n - 1) as nat implies !(#[trigger] rest[k]).link_up by {
            assert(rest[k] == obs[k + 1]);
        }
        assert(rest[(n - 1) as int] == obs[n as int]);
        lemma_gate_polls_when_ready_after((n - 1) as nat, rest);
        assert(obs.take((n + 1) as int).drop_first() =~= rest.take(n as int));
        assert(obs.take((n + 1) as int)[0] == obs[0]);
    } else {
        assert(obs.take(1).drop_first() =~= Seq::<Readiness>::empty());
        assert(obs.take(1)[0] == obs[0]);
        assert(gate_after(GatePhase::Ready, Seq::<Readiness>::empty()) == GatePhase::Ready);
    }
}

} // verus!
