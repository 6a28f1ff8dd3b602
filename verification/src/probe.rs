use vstd::prelude::*;
use crate::ECHO_REPLY_TYPE;

verus! {

/// How many milliseconds the orchestrator waits for the listener's
/// verdict before resolving the probe to "address free".
pub const DEFAULT_TIMEOUT_MS: u64 = 30;

/// Why a probe failed before any verdict could be formed.
#[derive(Clone, Copy, Debug, PartialEq, Eq, Structural)]
pub enum ProbeError {
    /// The raw ICMP transport could not be opened.
    TransportUnavailable,
    /// The echo request could not be transmitted.
    SendFailed,
}

/// What the listener's single receive attempt produced.
#[derive(Clone, Copy, Debug, PartialEq, Eq, Structural)]
pub enum ReceiveOutcome {
    /// An ICMP message arrived; the payload is its type field.
    Packet(u8),
    /// The receive itself failed; the listener reports nothing.
    Error,
}

/// The states a single probe passes through.
#[derive(Clone, Copy, Debug, PartialEq, Eq, Structural)]
pub enum ProbeState {
    /// Nothing has been sent yet.
    Idle,
    /// The echo request left the transport.
    Sent,
    /// The listener owns the receive half and the bounded wait has begun.
    AwaitingReply,
    /// A message arrived before the timeout; the payload is the verdict.
    Replied(bool),
    /// The timeout elapsed with nothing conclusive observed.
    TimedOut,
    /// Transport setup or the send failed.
    Failed(ProbeError),
}

/// The events the surrounding runtime reports to the probe.
#[derive(Clone, Copy, Debug, PartialEq, Eq, Structural)]
pub enum ProbeEvent {
    /// The raw transport could not be opened.
    TransportFailed,
    /// The transport rejected the echo request.
    SendRejected,
    /// The echo request was sent to the target.
    PacketSent,
    /// The listener was spawned on the receive half.
    ListenerSpawned,
    /// An ICMP message with this type field arrived before the timeout.
    IcmpArrived(u8),
    /// The listener's receive attempt failed; it will report nothing.
    ReceiveFailed,
    /// The timeout elapsed.
    TimeoutElapsed,
}

/// The probe's transition function. A failed receive leaves the probe
/// waiting (the timeout will resolve it), and any pairing outside the
/// protocol leaves the state unchanged.
pub open spec fn spec_step(s: ProbeState, e: ProbeEvent) -> ProbeState {
    match (s, e) {
        (ProbeState::Idle, ProbeEvent::TransportFailed) => ProbeState::Failed(
            ProbeError::TransportUnavailable,
        ),
        (ProbeState::Idle, ProbeEvent::SendRejected) => ProbeState::Failed(ProbeError::SendFailed),
        (ProbeState::Idle, ProbeEvent::PacketSent) => ProbeState::Sent,
        (ProbeState::Sent, ProbeEvent::ListenerSpawned) => ProbeState::AwaitingReply,
        (ProbeState::AwaitingReply, ProbeEvent::IcmpArrived(t)) => ProbeState::Replied(
            t == ECHO_REPLY_TYPE,
        ),
        (ProbeState::AwaitingReply, ProbeEvent::ReceiveFailed) => ProbeState::AwaitingReply,
        (ProbeState::AwaitingReply, ProbeEvent::TimeoutElapsed) => ProbeState::TimedOut,
        (_, _) => s,
    }
}

/// Advances the probe by one observed event.
pub fn step(s: ProbeState, e: ProbeEvent) -> (t: ProbeState)
    ensures
        t == spec_step(s, e),
{
    match (s, e) {
        (ProbeState::Idle, ProbeEvent::TransportFailed) => ProbeState::Failed(
            ProbeError::TransportUnavailable,
        ),
        (ProbeState::Idle, ProbeEvent::SendRejected) => ProbeState::Failed(ProbeError::SendFailed),
        (ProbeState::Idle, ProbeEvent::PacketSent) => ProbeState::Sent,
        (ProbeState::Sent, ProbeEvent::ListenerSpawned) => ProbeState::AwaitingReply,
        (ProbeState::AwaitingReply, ProbeEvent::IcmpArrived(t)) => ProbeState::Replied(
            t == ECHO_REPLY_TYPE,
        ),
        (ProbeState::AwaitingReply, ProbeEvent::ReceiveFailed) => ProbeState::AwaitingReply,
        (ProbeState::AwaitingReply, ProbeEvent::TimeoutElapsed) => ProbeState::TimedOut,
        (_, _) => s,
    }
}

/// Whether the probe has resolved.
pub open spec fn is_terminal(s: ProbeState) -> bool {
    match s {
        ProbeState::Replied(_) => true,
        ProbeState::TimedOut => true,
        ProbeState::Failed(_) => true,
        _ => false,
    }
}

/// The verdict a state carries: a reply gives its classification, a
/// timeout resolves to "address free", a failure surfaces its error,
/// and an unresolved probe has no verdict yet.
pub open spec fn spec_verdict(s: ProbeState) -> Option<Result<bool, ProbeError>> {
    match s {
        ProbeState::Replied(v) => Some(Ok(v)),
        ProbeState::TimedOut => Some(Ok(false)),
        ProbeState::Failed(e) => Some(Err(e)),
        _ => None,
    }
}

/// Reads the verdict out of a probe state.
pub fn verdict(s: ProbeState) -> (r: Option<Result<bool, ProbeError>>)
    ensures
        r == spec_verdict(s),
        r is Some <==> is_terminal(s),
{
    match s {
        ProbeState::Replied(v) => Some(Ok(v)),
        ProbeState::TimedOut => Some(Ok(false)),
        ProbeState::Failed(e) => Some(Err(e)),
        _ => None,
    }
}

/// A received ICMP message counts as a positive liveness signal exactly
/// when its type field is the Echo Reply code.
pub fn classify_icmp_type(icmp_type: u8) -> (r: bool)
    ensures
        r == (icmp_type == ECHO_REPLY_TYPE),
{
    icmp_type == ECHO_REPLY_TYPE
}

/// What the listener forwards through the one-shot channel: the
/// classified verdict for a received message, nothing when the receive
/// itself failed.
pub open spec fn spec_listener_report(received: ReceiveOutcome) -> Option<bool> {
    match received {
        ReceiveOutcome::Packet(t) => Some(t == ECHO_REPLY_TYPE),
        ReceiveOutcome::Error => None,
    }
}

/// Decision core of the listener task after its single receive attempt.
pub fn listener_report(received: ReceiveOutcome) -> (r: Option<bool>)
    ensures
        r == spec_listener_report(received),
{
    match received {
        ReceiveOutcome::Packet(t) => Some(classify_icmp_type(t)),
        ReceiveOutcome::Error => None,
    }
}

/// What the orchestrator's bounded wait yields: a verdict delivered in
/// time is returned as is; an elapsed timeout means "address free".
pub open spec fn spec_resolve_wait(delivered: Option<bool>) -> bool {
    match delivered {
        Some(v) => v,
        None => false,
    }
}

/// Decision core of the orchestrator's bounded wait on the one-shot
/// channel.
pub fn resolve_wait(delivered: Option<bool>) -> (r: bool)
    ensures
        r == spec_resolve_wait(delivered),
        r <==> delivered == Some(true),
{
    match delivered {
        Some(v) => v,
        None => false,
    }
}

/// The verdict of a whole probe, given the outcome of each outside
/// interaction: whether the transport opened, whether the send
/// succeeded, and what — if anything — the listener observed before the
/// timeout.
pub open spec fn spec_probe_verdict(
    opened: bool,
    sent: bool,
    observed: Option<ReceiveOutcome>,
) -> Result<bool, ProbeError> {
    if !opened {
        Err(ProbeError::TransportUnavailable)
    } else if !sent {
        Err(ProbeError::SendFailed)
    } else {
        match observed {
            Some(o) => Ok(spec_resolve_wait(spec_listener_report(o))),
            None => Ok(false),
        }
    }
}

/// Decision core of a whole probe run. Setup and send failures surface
/// as errors; after a successful send every outcome — an Echo Reply, any
/// other message, a failed receive, or silence until the timeout — is a
/// verdict, and only an Echo Reply makes it `true`.
pub fn probe_verdict(opened: bool, sent: bool, observed: Option<ReceiveOutcome>) -> (r: Result<
    bool,
    ProbeError,
>)
    ensures
        r == spec_probe_verdict(opened, sent, observed),
        r is Ok <==> opened && sent,
        r == Ok::<bool, ProbeError>(true) <==> opened && sent && observed == Some(
            ReceiveOutcome::Packet(ECHO_REPLY_TYPE),
        ),
{
    if !opened {
        Err(ProbeError::TransportUnavailable)
    } else if !sent {
        Err(ProbeError::SendFailed)
    } else {
        match observed {
            Some(o) => Ok(resolve_wait(listener_report(o))),
            None => Ok(false),
        }
    }
}

/// The state reached by feeding `events` to the machine, in order,
/// starting from `Idle`.
pub open spec fn run(events: Seq<ProbeEvent>) -> ProbeState
    decreases events.len(),
{
    if events.len() == 0 {
        ProbeState::Idle
    } else {
        spec_step(run(events.drop_last()), events.last())
    }
}

/// Law: all resolution states are terminal — no later event moves a
/// resolved probe to another state.
pub proof fn lemma_terminal_is_absorbing(s: ProbeState, e: ProbeEvent)
    requires
        is_terminal(s),
    ensures
        spec_step(s, e) == s,
{
}

/// Law: the probe reports the address in use only on the strength of an
/// Echo Reply — a run in which no Echo Reply arrives never yields the
/// verdict `true`.
pub proof fn lemma_true_needs_echo_reply(events: Seq<ProbeEvent>)
    requires
        forall|i: int|
            0 <= i < events.len() ==> events[i] != ProbeEvent::IcmpArrived(ECHO_REPLY_TYPE),
    ensures
        run(events) != ProbeState::Replied(true),
        spec_verdict(run(events)) != Some(Ok::<bool, ProbeError>(true)),
    decreases events.len(),
{
    if events.len() > 0 {
        assert(forall|i: int|
            0 <= i < events.drop_last().len() ==> events.drop_last()[i] == events[i]);
        lemma_true_needs_echo_reply(events.drop_last());
        assert(events[events.len() - 1] != ProbeEvent::IcmpArrived(ECHO_REPLY_TYPE));
    }
}

/// The event sequence one probe invocation generates, given the outcome
/// of each outside interaction.
pub open spec fn probe_events(
    opened: bool,
    sent: bool,
    observed: Option<ReceiveOutcome>,
) -> Seq<ProbeEvent> {
    if !opened {
        seq![ProbeEvent::TransportFailed]
    } else if !sent {
        seq![ProbeEvent::SendRejected]
    } else {
        let waiting = seq![ProbeEvent::PacketSent, ProbeEvent::ListenerSpawned];
        match observed {
            Some(ReceiveOutcome::Packet(t)) => waiting.push(ProbeEvent::IcmpArrived(t)),
            Some(ReceiveOutcome::Error) => waiting.push(ProbeEvent::ReceiveFailed).push(
                ProbeEvent::TimeoutElapsed,
            ),
            None => waiting.push(ProbeEvent::TimeoutElapsed),
        }
    }
}

/// Law: the state machine and the one-shot decision agree — running the
/// events a probe generates always ends in a terminal state, and that
/// state's verdict is exactly the probe's verdict.
pub proof fn lemma_machine_agrees_with_verdict(
    opened: bool,
    sent: bool,
    observed: Option<ReceiveOutcome>,
)
    ensures
        is_terminal(run(probe_events(opened, sent, observed))),
        spec_verdict(run(probe_events(opened, sent, observed))) == Some(
            spec_probe_verdict(opened, sent, observed),
        ),
{
    reveal_with_fuel(run, 5);
}

} // verus!
