//! The host's lifecycle, modelled as a state machine.
//!
//! A host is `Started` as soon as it exists: creating a host starts its
//! service. Waiting for an exit signal then moves it through
//! `WaitingForSignal` and, on the first monitored signal, `ShuttingDown`
//! to `Terminated`. A failure of the signal subsystem moves it to
//! `Failed` instead.

use vstd::prelude::*;

verus! {

/// Signal number of the process-interrupt request (SIGINT).
pub const INTERRUPT_SIGNAL: i32 = 2;

/// Signal number of the process-terminate request (SIGTERM).
pub const TERMINATE_SIGNAL: i32 = 15;

/// The monitored exit set: a signal requests a graceful stop exactly when
/// it is the interrupt or the terminate signal.
pub open spec fn is_exit_signal_spec(signal: i32) -> bool {
    signal == INTERRUPT_SIGNAL || signal == TERMINATE_SIGNAL
}

/// Decides whether a signal number belongs to the monitored exit set.
pub fn is_exit_signal(signal: i32) -> (r: bool)
    ensures
        r == is_exit_signal_spec(signal),
{
    signal == INTERRUPT_SIGNAL || signal == TERMINATE_SIGNAL
}

/// The phases a host passes through.
#[derive(Clone, Copy, Debug, PartialEq, Eq, Structural)]
pub enum HostPhase {
    /// The service was created and started; no listener is in place yet.
    Started,
    /// An exit-signal listener is registered; the host blocks on it.
    WaitingForSignal,
    /// A monitored signal arrived; the service is being shut down.
    ShuttingDown,
    /// Shutdown completed; the wait returns successfully.
    Terminated,
    /// The signal subsystem failed: registration was refused, or the
    /// listener ended while the host was waiting.
    Failed,
}

/// What the signal subsystem and the service report to the host.
#[derive(Clone, Copy, Debug, PartialEq, Eq, Structural)]
pub enum HostEvent {
    /// The exit-signal listener was registered.
    ListenerRegistered,
    /// The exit-signal listener could not be registered.
    ListenerUnavailable,
    /// The operating system delivered the signal with this number.
    SignalDelivered(i32),
    /// The listener ended while the host was waiting.
    ListenerClosed,
    /// The service's shutdown routine returned.
    ShutdownComplete,
}

/// The transition relation of the lifecycle machine. An event that a phase
/// does not expect leaves the phase unchanged; in particular a delivered
/// signal outside the exit set never moves the machine.
pub open spec fn spec_next_phase(phase: HostPhase, event: HostEvent) -> HostPhase {
    match (phase, event) {
        (HostPhase::Started, HostEvent::ListenerRegistered) => HostPhase::WaitingForSignal,
        (HostPhase::Started, HostEvent::ListenerUnavailable) => HostPhase::Failed,
        (HostPhase::WaitingForSignal, HostEvent::SignalDelivered(s)) => if is_exit_signal_spec(
            s,
        ) {
            HostPhase::ShuttingDown
        } else {
            HostPhase::WaitingForSignal
        },
        (HostPhase::WaitingForSignal, HostEvent::ListenerClosed) => HostPhase::Failed,
        (HostPhase::ShuttingDown, HostEvent::ShutdownComplete) => HostPhase::Terminated,
        (_, _) => phase,
    }
}

/// Advances the machine by one event.
pub fn next_phase(phase: HostPhase, event: HostEvent) -> (r: HostPhase)
    ensures
        r == spec_next_phase(phase, event),
{
    match (phase, event) {
        (HostPhase::Started, HostEvent::ListenerRegistered) => HostPhase::WaitingForSignal,
        (HostPhase::Started, HostEvent::ListenerUnavailable) => HostPhase::Failed,
        (HostPhase::WaitingForSignal, HostEvent::SignalDelivered(s)) => if is_exit_signal(s) {
            HostPhase::ShuttingDown
        } else {
            HostPhase::WaitingForSignal
        },
        (HostPhase::WaitingForSignal, HostEvent::ListenerClosed) => HostPhase::Failed,
        (HostPhase::ShuttingDown, HostEvent::ShutdownComplete) => HostPhase::Terminated,
        (_, _) => phase,
    }
}

/// The phase reached from `phase` after the whole event sequence.
pub open spec fn spec_run(phase: HostPhase, events: Seq<HostEvent>) -> HostPhase
    decreases events.len(),
{
    if events.len() == 0 {
        phase
    } else {
        spec_run(spec_next_phase(phase, events[0]), events.skip(1))
    }
}

/// Advances the machine over a whole sequence of events.
pub fn run_phases(phase: HostPhase, events: &Vec<HostEvent>) -> (r: HostPhase)
    ensures
        r == spec_run(phase, events@),
{
    let mut current = phase;
    let mut i: usize = 0;
    proof {
        assert(events@.skip(0) =~= events@);
    }
    while i < events.len()
        invariant
            0 <= i <= events.len(),
            spec_run(current, events@.skip(i as int)) == spec_run(phase, events@),
        decreases events.len() - i,
    {
        proof {
            assert(events@.skip(i as int)[0] == events@[i as int]);
            assert(events@.skip(i as int).skip(1) =~= events@.skip(i as int + 1));
        }
        current = next_phase(current, events[i]);
        i = i + 1;
    }
    proof {
        assert(events@.skip(events@.len() as int) =~= Seq::<HostEvent>::empty());
    }
    current
}

/// True when some signal in the sequence belongs to the exit set.
pub open spec fn contains_exit_signal(signals: Seq<i32>) -> bool {
    exists|i: int| 0 <= i < signals.len() && is_exit_signal_spec(signals[i])
}

/// The delivery events induced by a sequence of signal numbers.
pub open spec fn signal_events(signals: Seq<i32>) -> Seq<HostEvent> {
    signals.map(|i: int, s: i32| HostEvent::SignalDelivered(s))
}

/// Both monitored signals are equivalent in effect: in every phase, the
/// interrupt and the terminate signal (and any two exit signals) induce
/// the same transition.
pub proof fn lemma_exit_signals_equivalent(phase: HostPhase, first: i32, second: i32)
    requires
        is_exit_signal_spec(first),
        is_exit_signal_spec(second),
    ensures
        spec_next_phase(phase, HostEvent::SignalDelivered(first)) == spec_next_phase(
            phase,
            HostEvent::SignalDelivered(second),
        ),
{
}

/// A signal outside the monitored set never moves the machine: it neither
/// triggers shutdown nor resolves the wait.
pub proof fn lemma_other_signal_ignored(phase: HostPhase, signal: i32)
    requires
        !is_exit_signal_spec(signal),
    ensures
        spec_next_phase(phase, HostEvent::SignalDelivered(signal)) == phase,
{
}

/// Shutdown begins only out of the waiting phase, and only on an exit
/// signal; the waiting phase in turn is reached only from a started host.
/// Together: shutdown is never invoked before start completes.
pub proof fn lemma_shutdown_only_after_wait(phase: HostPhase, event: HostEvent)
    ensures
        spec_next_phase(phase, event) is ShuttingDown ==> phase is ShuttingDown || (
        phase is WaitingForSignal && (event matches HostEvent::SignalDelivered(s)
            && is_exit_signal_spec(s))),
        spec_next_phase(phase, event) is WaitingForSignal ==> phase is WaitingForSignal || (
        phase is Started && event is ListenerRegistered),
{
}

/// A host whose signal subsystem failed stays failed: no later event
/// revives it.
pub proof fn lemma_failed_absorbs(events: Seq<HostEvent>)
    ensures
        spec_run(HostPhase::Failed, events) == HostPhase::Failed,
    decreases events.len(),
{
    if events.len() > 0 {
        lemma_failed_absorbs(events.skip(1));
    }
}

/// Shutdown is never invoked before start completes: a trace out of
/// `Started` that ends shutting down (or terminated) holds a listener
/// registration, and the single-step inversion above places every
/// shutdown behind the waiting phase that the registration opens.
pub proof fn lemma_no_shutdown_before_registration(events: Seq<HostEvent>)
    requires
        spec_run(HostPhase::Started, events) is ShuttingDown || spec_run(
            HostPhase::Started,
            events,
        ) is Terminated,
    ensures
        exists|i: int| 0 <= i < events.len() && events[i] is ListenerRegistered,
    decreases events.len(),
{
    let first = spec_next_phase(HostPhase::Started, events[0]);
    if events[0] is ListenerRegistered {
        assert(0 <= 0 < events.len() && events[0] is ListenerRegistered);
    } else if events[0] is ListenerUnavailable {
        lemma_failed_absorbs(events.skip(1));
    } else {
        assert(first == HostPhase::Started);
        lemma_no_shutdown_before_registration(events.skip(1));
        let i = choose|i: int|
            0 <= i < events.skip(1).len() && events.skip(1)[i] is ListenerRegistered;
        assert(events[i + 1] == events.skip(1)[i]);
    }
}

/// A host that is shutting down stays so through any further deliveries.
pub proof fn lemma_shutdown_absorbs(signals: Seq<i32>)
    ensures
        spec_run(HostPhase::ShuttingDown, signal_events(signals)) == HostPhase::ShuttingDown,
    decreases signals.len(),
{
    if signals.len() > 0 {
        assert(signal_events(signals).skip(1) =~= signal_events(signals.skip(1)));
        lemma_shutdown_absorbs(signals.skip(1));
    }
}

/// Waiting through a stretch of deliveries: the host reaches the shutdown
/// phase exactly when some delivered signal is in the exit set.
pub proof fn lemma_wait_run(signals: Seq<i32>)
    ensures
        spec_run(HostPhase::WaitingForSignal, signal_events(signals)) == if contains_exit_signal(
            signals,
        ) {
            HostPhase::ShuttingDown
        } else {
            HostPhase::WaitingForSignal
        },
    decreases signals.len(),
{
    if signals.len() > 0 {
        assert(signal_events(signals).skip(1) =~= signal_events(signals.skip(1)));
        if is_exit_signal_spec(signals[0]) {
            lemma_shutdown_absorbs(signals.skip(1));
            assert(contains_exit_signal(signals));
        } else {
            lemma_wait_run(signals.skip(1));
            assert(contains_exit_signal(signals.skip(1)) ==> contains_exit_signal(signals)) by {
                if contains_exit_signal(signals.skip(1)) {
                    let i = choose|i: int|
                        0 <= i < signals.skip(1).len() && is_exit_signal_spec(signals.skip(1)[i]);
                    assert(signals.skip(1)[i] == signals[i + 1]);
                }
            }
            assert(contains_exit_signal(signals) ==> contains_exit_signal(signals.skip(1))) by {
                if contains_exit_signal(signals) {
                    let i = choose|i: int|
                        0 <= i < signals.len() && is_exit_signal_spec(signals[i]);
                    assert(i != 0);
                    assert(signals.skip(1)[i - 1] == signals[i]);
                }
            }
        }
    }
}

/// The events one wait cycle against a scripted signal subsystem
/// induces: an unavailable subsystem reports only that; an available
/// one reports the registration and then each delivery in order.
pub open spec fn scripted_events(subsystem_available: bool, delivered: Seq<i32>) -> Seq<
    HostEvent,
> {
    if !subsystem_available {
        seq![HostEvent::ListenerUnavailable]
    } else {
        seq![HostEvent::ListenerRegistered] + signal_events(delivered)
    }
}

/// A scripted wait and the lifecycle machine agree. From `Started`, the
/// induced events end in `Failed` when the subsystem is unavailable —
/// before any signal is looked at — in `ShuttingDown` when an exit
/// signal is among the deliveries, and still in `WaitingForSignal` when
/// none is: one qualifying signal, one shutdown.
pub proof fn lemma_scripted_run(subsystem_available: bool, delivered: Seq<i32>)
    ensures
        spec_run(HostPhase::Started, scripted_events(subsystem_available, delivered))
            == if !subsystem_available {
            HostPhase::Failed
        } else if contains_exit_signal(delivered) {
            HostPhase::ShuttingDown
        } else {
            HostPhase::WaitingForSignal
        },
{
    let events = scripted_events(subsystem_available, delivered);
    if !subsystem_available {
        assert(events[0] == HostEvent::ListenerUnavailable);
        assert(events.skip(1) =~= Seq::<HostEvent>::empty());
        assert(spec_run(HostPhase::Failed, events.skip(1)) == HostPhase::Failed);
    } else {
        assert(events[0] == HostEvent::ListenerRegistered);
        assert(events.skip(1) =~= signal_events(delivered));
        assert(spec_run(HostPhase::Started, events) == spec_run(
            HostPhase::WaitingForSignal,
            signal_events(delivered),
        ));
        lemma_wait_run(delivered);
    }
}

} // verus!
