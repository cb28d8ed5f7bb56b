use persistent_link::credentials::{CredentialError, Credentials, MAX_PASSWORD_LEN, MAX_SSID_LEN};
use persistent_link::gate::{gate_step, run_gate, GateAction, GatePhase, Ipv4Addr, Readiness};
use persistent_link::link::{AssociationState, LinkAction, LinkEvent, LinkPhase, LinkSupervisor};
use persistent_link::orchestrator::{ConnectionLoop, LoopAction, LoopEvent, LoopStage};
use persistent_link::session::{
    run_attempt, Attempt, AttemptAction, AttemptEvent, AttemptOutcome, AttemptPhase, BufferSet,
    Endpoint, HandshakeError, IdentityPolicy, SessionSettings, TransportError, BUFFER_LEN,
};

fn settings() -> SessionSettings {
    SessionSettings {
        endpoint: Endpoint { addr: Ipv4Addr { a: 192, b: 168, c: 10, d: 78 }, port: 8883 },
        policy: IdentityPolicy::VerifyServerName,
    }
}

fn connect_action() -> AttemptAction {
    AttemptAction::Connect { endpoint: settings().endpoint, timeout_ms: 10_000 }
}

fn down() -> Readiness {
    Readiness { link_up: false, ipv4: None }
}

fn up_no_address() -> Readiness {
    Readiness { link_up: true, ipv4: None }
}

fn ready() -> Readiness {
    Readiness { link_up: true, ipv4: Some(Ipv4Addr { a: 192, b: 168, c: 10, d: 20 }) }
}

#[test]
fn gate_opens_after_two_unready_polls() {
    let r = run_gate(&vec![down(), down(), ready(), ready()]);
    assert!(r.ready);
    assert_eq!(r.polls, 3);
    assert_eq!(r.waited_ms, 1000);
}

#[test]
fn gate_opens_at_once_on_a_ready_stack() {
    let r = run_gate(&vec![ready()]);
    assert!(r.ready);
    assert_eq!(r.polls, 1);
    assert_eq!(r.waited_ms, 0);
}

#[test]
fn gate_stays_shut_without_polls() {
    let r = run_gate(&vec![]);
    assert!(!r.ready);
    assert_eq!(r.polls, 0);
    assert_eq!(r.waited_ms, 0);
}

#[test]
fn gate_needs_an_address_after_link_up() {
    let r = run_gate(&vec![up_no_address(), up_no_address(), down()]);
    assert!(!r.ready);
    assert_eq!(r.polls, 3);
    assert_eq!(r.waited_ms, 1500);
    let r = run_gate(&vec![up_no_address(), Readiness { link_up: false, ipv4: ready().ipv4 }]);
    assert!(r.ready);
    assert_eq!(r.polls, 2);
    assert_eq!(r.waited_ms, 500);
}

#[test]
fn gate_ignores_an_address_while_the_link_is_down() {
    let addr_only = Readiness { link_up: false, ipv4: ready().ipv4 };
    assert_eq!(gate_step(GatePhase::AwaitLink, addr_only), (GatePhase::AwaitLink, GateAction::Sleep { ms: 500 }));
    assert_eq!(gate_step(GatePhase::AwaitLink, up_no_address()), (GatePhase::AwaitAddress, GateAction::Sleep { ms: 500 }));
    assert_eq!(gate_step(GatePhase::AwaitAddress, ready()), (GatePhase::Ready, GateAction::Open));
    assert_eq!(gate_step(GatePhase::Ready, down()), (GatePhase::Ready, GateAction::Open));
}

#[test]
fn transport_failure_skips_handshake() {
    let r = run_attempt(settings(), Err(TransportError::TimedOut), Ok(()));
    assert_eq!(r.outcome, AttemptOutcome::TransportFailed(TransportError::TimedOut));
    assert_eq!(r.actions, vec![connect_action(), AttemptAction::Release]);
    assert!(!r.actions.iter().any(|a| matches!(a, AttemptAction::Handshake { .. })));
    assert_eq!(r.last.phase, AttemptPhase::Idle);
    assert!(!r.last.socket_live && !r.last.session_live);
}

#[test]
fn handshake_failure_releases_socket() {
    let r = run_attempt(settings(), Ok(()), Err(HandshakeError::Protocol));
    assert_eq!(r.outcome, AttemptOutcome::HandshakeFailed(HandshakeError::Protocol));
    assert_eq!(
        r.actions,
        vec![
            connect_action(),
            AttemptAction::LayerSession,
            AttemptAction::Handshake { policy: IdentityPolicy::VerifyServerName },
            AttemptAction::Release,
        ]
    );
    assert!(!r.last.socket_live && !r.last.session_live);
}

#[test]
fn successful_attempt_delivers_channel() {
    let r = run_attempt(settings(), Ok(()), Ok(()));
    assert_eq!(r.outcome, AttemptOutcome::Established);
    assert_eq!(r.actions.last(), Some(&AttemptAction::Deliver));
    assert_eq!(r.actions.len(), 4);
    assert_eq!(r.last.outcome, Some(AttemptOutcome::Established));
}

#[test]
fn attempt_tracks_live_resources() {
    let s = settings();
    let mut a = Attempt::idle();
    assert_eq!(a.step(s, AttemptEvent::Begin), connect_action());
    assert!(a.socket_live && !a.session_live);
    assert_eq!(a.step(s, AttemptEvent::TransportUp), AttemptAction::LayerSession);
    assert_eq!(a.phase, AttemptPhase::TransportConnected);
    assert_eq!(a.step(s, AttemptEvent::SessionLayered), AttemptAction::Handshake { policy: s.policy });
    assert!(a.socket_live && a.session_live);
    assert_eq!(a.step(s, AttemptEvent::Begin), AttemptAction::Nothing);
    assert_eq!(a.phase, AttemptPhase::HandshakeInProgress);
    assert_eq!(a.step(s, AttemptEvent::HandshakeFailed(HandshakeError::IdentityRejected)), AttemptAction::Release);
    assert_eq!(a.step(s, AttemptEvent::Finished), AttemptAction::Nothing);
    assert_eq!(a.phase, AttemptPhase::Idle);
    assert!(!a.socket_live && !a.session_live);
}

#[test]
fn supervisor_reconnects_after_disconnect() {
    let mut sup = LinkSupervisor::new();
    assert_eq!(sup.action(), LinkAction::QueryAssociation);
    assert_eq!(sup.step(LinkEvent::Association(AssociationState::Connected)), LinkAction::WaitForDisconnect);
    assert_eq!(sup.step(LinkEvent::Disconnected), LinkAction::Sleep { ms: 5000 });
    assert_eq!(sup.step(LinkEvent::TimerElapsed), LinkAction::QueryStarted);
    assert_eq!(sup.step(LinkEvent::Started(true)), LinkAction::Connect);
    assert_eq!(sup.phase, LinkPhase::Connecting);
    assert_eq!(sup.step(LinkEvent::ConnectDone(true)), LinkAction::QueryAssociation);
    assert_eq!(sup.step(LinkEvent::Association(AssociationState::Connected)), LinkAction::WaitForDisconnect);
    assert_eq!(sup.step(LinkEvent::Disconnected), LinkAction::Sleep { ms: 5000 });
    assert_eq!(sup.step(LinkEvent::TimerElapsed), LinkAction::QueryStarted);
    assert_eq!(sup.step(LinkEvent::Started(false)), LinkAction::ConfigureAndStart);
    assert_eq!(sup.step(LinkEvent::StartDone(true)), LinkAction::Connect);
}

#[test]
fn supervisor_backs_off_after_failed_connect() {
    let mut sup = LinkSupervisor::new();
    assert_eq!(sup.step(LinkEvent::Association(AssociationState::Disconnected)), LinkAction::QueryStarted);
    assert_eq!(sup.step(LinkEvent::Started(true)), LinkAction::Connect);
    assert_eq!(sup.step(LinkEvent::ConnectDone(false)), LinkAction::Sleep { ms: 5000 });
    assert_eq!(sup.step(LinkEvent::TimerElapsed), LinkAction::QueryAssociation);
    assert_eq!(sup.step(LinkEvent::Association(AssociationState::Connecting)), LinkAction::QueryStarted);
}

#[test]
fn radio_that_never_starts_is_fatal() {
    let mut sup = LinkSupervisor::new();
    assert_eq!(sup.step(LinkEvent::Association(AssociationState::Disconnected)), LinkAction::QueryStarted);
    assert_eq!(sup.step(LinkEvent::Started(false)), LinkAction::ConfigureAndStart);
    assert_eq!(sup.step(LinkEvent::StartDone(false)), LinkAction::Fatal);
    assert_eq!(sup.phase, LinkPhase::Halted);
    assert_eq!(sup.step(LinkEvent::TimerElapsed), LinkAction::Fatal);
    assert_eq!(sup.step(LinkEvent::ConnectDone(true)), LinkAction::Fatal);
    // With the radio down the stack never comes up, so the loop never attempts.
    let mut lp = ConnectionLoop::new(settings());
    for _ in 0..5 {
        assert_eq!(lp.step(LoopEvent::Polled(down())), LoopAction::PollAfter { ms: 500 });
    }
    assert_eq!(lp.state.stage, LoopStage::Gating);
}

#[test]
fn scenario_established_channel_then_next_attempt() {
    let mut lp = ConnectionLoop::new(settings());
    assert_eq!(lp.first_action(), LoopAction::PollAfter { ms: 0 });
    assert_eq!(lp.step(LoopEvent::Polled(down())), LoopAction::PollAfter { ms: 500 });
    assert_eq!(lp.step(LoopEvent::Polled(up_no_address())), LoopAction::PollAfter { ms: 500 });
    assert_eq!(lp.step(LoopEvent::Polled(ready())), LoopAction::Sleep { ms: 1000 });
    assert_eq!(lp.step(LoopEvent::TimerElapsed), LoopAction::Attempt(connect_action()));
    assert_eq!(lp.step(LoopEvent::Attempt(AttemptEvent::TransportUp)), LoopAction::Attempt(AttemptAction::LayerSession));
    assert_eq!(
        lp.step(LoopEvent::Attempt(AttemptEvent::SessionLayered)),
        LoopAction::Attempt(AttemptAction::Handshake { policy: IdentityPolicy::VerifyServerName })
    );
    assert_eq!(lp.step(LoopEvent::Attempt(AttemptEvent::HandshakeDone)), LoopAction::Attempt(AttemptAction::Deliver));
    assert_eq!(lp.state.attempt.outcome, Some(AttemptOutcome::Established));
    assert_eq!(lp.step(LoopEvent::Attempt(AttemptEvent::Finished)), LoopAction::Sleep { ms: 3000 });
    assert_eq!(lp.step(LoopEvent::TimerElapsed), LoopAction::Sleep { ms: 1000 });
    assert_eq!(lp.step(LoopEvent::TimerElapsed), LoopAction::Attempt(connect_action()));
}

#[test]
fn scenario_transport_timeout_then_retry() {
    let mut lp = ConnectionLoop::new(settings());
    assert_eq!(lp.step(LoopEvent::Polled(ready())), LoopAction::Sleep { ms: 1000 });
    assert_eq!(lp.step(LoopEvent::TimerElapsed), LoopAction::Attempt(connect_action()));
    assert_eq!(
        lp.step(LoopEvent::Attempt(AttemptEvent::TransportFailed(TransportError::TimedOut))),
        LoopAction::Attempt(AttemptAction::Release)
    );
    assert_eq!(lp.step(LoopEvent::Attempt(AttemptEvent::Finished)), LoopAction::Sleep { ms: 3000 });
    assert_eq!(lp.step(LoopEvent::TimerElapsed), LoopAction::Sleep { ms: 1000 });
    assert_eq!(lp.step(LoopEvent::TimerElapsed), LoopAction::Attempt(connect_action()));
}

#[test]
fn repeated_failures_leave_same_state() {
    let fail_once = |lp: &mut ConnectionLoop| {
        assert_eq!(lp.step(LoopEvent::TimerElapsed), LoopAction::Attempt(connect_action()));
        lp.step(LoopEvent::Attempt(AttemptEvent::TransportFailed(TransportError::NoRoute)));
        lp.step(LoopEvent::Attempt(AttemptEvent::Finished));
        assert_eq!(lp.step(LoopEvent::TimerElapsed), LoopAction::Sleep { ms: 1000 });
    };
    let mut one = ConnectionLoop::new(settings());
    one.step(LoopEvent::Polled(ready()));
    fail_once(&mut one);
    let mut many = ConnectionLoop::new(settings());
    many.step(LoopEvent::Polled(ready()));
    for _ in 0..7 {
        fail_once(&mut many);
    }
    assert_eq!(one.state, many.state);
    assert!(!many.state.attempt.socket_live && !many.state.attempt.session_live);
    assert_eq!(many.state.stage, LoopStage::PreDelay);
}

#[test]
fn unexpected_events_change_nothing() {
    let mut lp = ConnectionLoop::new(settings());
    let before = lp.state;
    assert_eq!(lp.step(LoopEvent::TimerElapsed), LoopAction::Nothing);
    assert_eq!(lp.step(LoopEvent::Attempt(AttemptEvent::Begin)), LoopAction::Nothing);
    assert_eq!(lp.state, before);
}

#[test]
fn buffers_have_fixed_size() {
    let b = BufferSet::new();
    assert_eq!(b.socket_rx.len(), BUFFER_LEN);
    assert_eq!(b.record_write.len(), 1024);
    assert_eq!(b.total_len(), 4096);
}

#[test]
fn credentials_within_limits() {
    let ssid = "a".repeat(MAX_SSID_LEN);
    let pass = "p".repeat(MAX_PASSWORD_LEN);
    let c = Credentials::new(&ssid, &pass).unwrap();
    assert_eq!(c.ssid.len(), 32);
    assert_eq!(c.password.len(), 64);
    assert!(Credentials::new("", "").is_ok());
}

#[test]
fn credentials_too_long() {
    let long_ssid = "s".repeat(33);
    let long_pass = "p".repeat(65);
    assert_eq!(Credentials::new(&long_ssid, "pw").unwrap_err(), CredentialError::SsidTooLong);
    assert_eq!(Credentials::new("net", &long_pass).unwrap_err(), CredentialError::PasswordTooLong);
    assert_eq!(Credentials::new(&long_ssid, &long_pass).unwrap_err(), CredentialError::SsidTooLong);
    // Bytes, not characters: 11 three-byte characters are 33 bytes.
    let wide = "\u{20ac}".repeat(11);
    assert_eq!(Credentials::new(&wide, "").unwrap_err(), CredentialError::SsidTooLong);
}
