use icmp_probe::probe::{
    classify_icmp_type, listener_report, probe_verdict, resolve_wait, step, verdict, ProbeError,
    ProbeEvent, ProbeState, ReceiveOutcome,
};

#[test]
fn classify_only_echo_reply_is_positive() {
    assert!(classify_icmp_type(0));
    assert!(!classify_icmp_type(8));
    assert!(!classify_icmp_type(3));
    assert!(!classify_icmp_type(11));
}

#[test]
fn machine_happy_path_reaches_replied_true() {
    let s = ProbeState::Idle;
    let s = step(s, ProbeEvent::PacketSent);
    assert_eq!(s, ProbeState::Sent);
    let s = step(s, ProbeEvent::ListenerSpawned);
    assert_eq!(s, ProbeState::AwaitingReply);
    let s = step(s, ProbeEvent::IcmpArrived(0));
    assert_eq!(s, ProbeState::Replied(true));
    assert_eq!(verdict(s), Some(Ok(true)));
}

#[test]
fn machine_early_non_reply_resolves_false() {
    let s = step(
        step(step(ProbeState::Idle, ProbeEvent::PacketSent), ProbeEvent::ListenerSpawned),
        ProbeEvent::IcmpArrived(3),
    );
    assert_eq!(s, ProbeState::Replied(false));
    assert_eq!(verdict(s), Some(Ok(false)));
}

#[test]
fn machine_timeout_resolves_false() {
    let s = step(
        step(step(ProbeState::Idle, ProbeEvent::PacketSent), ProbeEvent::ListenerSpawned),
        ProbeEvent::TimeoutElapsed,
    );
    assert_eq!(s, ProbeState::TimedOut);
    assert_eq!(verdict(s), Some(Ok(false)));
}

#[test]
fn machine_receive_failure_keeps_waiting_until_timeout() {
    let waiting = step(
        step(ProbeState::Idle, ProbeEvent::PacketSent),
        ProbeEvent::ListenerSpawned,
    );
    let s = step(waiting, ProbeEvent::ReceiveFailed);
    assert_eq!(s, ProbeState::AwaitingReply);
    assert_eq!(verdict(s), None);
    let s = step(s, ProbeEvent::TimeoutElapsed);
    assert_eq!(verdict(s), Some(Ok(false)));
}

#[test]
fn machine_setup_failures_are_errors() {
    let s = step(ProbeState::Idle, ProbeEvent::TransportFailed);
    assert_eq!(s, ProbeState::Failed(ProbeError::TransportUnavailable));
    assert_eq!(verdict(s), Some(Err(ProbeError::TransportUnavailable)));
    let s = step(ProbeState::Idle, ProbeEvent::SendRejected);
    assert_eq!(verdict(s), Some(Err(ProbeError::SendFailed)));
}

#[test]
fn machine_terminal_states_absorb() {
    for s in [
        ProbeState::Replied(true),
        ProbeState::Replied(false),
        ProbeState::TimedOut,
        ProbeState::Failed(ProbeError::SendFailed),
    ] {
        assert_eq!(step(s, ProbeEvent::TimeoutElapsed), s);
        assert_eq!(step(s, ProbeEvent::IcmpArrived(0)), s);
    }
}

#[test]
fn listener_report_classifies_or_stays_silent() {
    assert_eq!(listener_report(ReceiveOutcome::Packet(0)), Some(true));
    assert_eq!(listener_report(ReceiveOutcome::Packet(11)), Some(false));
    assert_eq!(listener_report(ReceiveOutcome::Error), None);
}

#[test]
fn resolve_wait_defaults_to_free() {
    assert!(resolve_wait(Some(true)));
    assert!(!resolve_wait(Some(false)));
    assert!(!resolve_wait(None));
}

#[test]
fn verdict_on_reply_is_in_use() {
    assert_eq!(
        probe_verdict(true, true, Some(ReceiveOutcome::Packet(0))),
        Ok(true)
    );
}

#[test]
fn verdict_on_early_non_reply_is_free() {
    assert_eq!(
        probe_verdict(true, true, Some(ReceiveOutcome::Packet(3))),
        Ok(false)
    );
    assert_eq!(
        probe_verdict(true, true, Some(ReceiveOutcome::Packet(8))),
        Ok(false)
    );
}

#[test]
fn verdict_on_timeout_is_free() {
    assert_eq!(probe_verdict(true, true, None), Ok(false));
    assert_eq!(probe_verdict(true, true, Some(ReceiveOutcome::Error)), Ok(false));
}

#[test]
fn verdict_on_setup_failure_is_an_error() {
    assert_eq!(
        probe_verdict(false, false, None),
        Err(ProbeError::TransportUnavailable)
    );
    assert_eq!(probe_verdict(true, false, None), Err(ProbeError::SendFailed));
}

#[test]
fn repeated_probes_are_independent() {
    for _ in 0..5 {
        assert_eq!(probe_verdict(true, true, None), Ok(false));
    }
}
