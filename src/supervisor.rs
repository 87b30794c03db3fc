use vstd::prelude::*;

verus! {

/// Seconds to wait before trying again to create the virtual keyboard, or to
/// scan again after the target was not found.
pub const RETRY_DELAY_SECS: u64 = 5;

/// Seconds to wait after a connection ends before starting over.
pub const RECONNECT_DELAY_SECS: u64 = 2;

/// Seconds between two liveness polls of a connected peripheral.
pub const LIVENESS_POLL_SECS: u64 = 1;

/// Reports that may wait for processing before ingestion gives up.
pub const REPORT_QUEUE_CAPACITY: usize = 128;

/// Where the supervisor stands in the connection lifecycle.
#[derive(Clone, Copy, Debug, PartialEq, Eq, Structural)]
pub enum Phase {
    CreatingKeyboard,
    Scanning,
    Connecting,
    ResolvingServices,
    Subscribing,
    Active,
    Disconnected,
}

/// Why an active relay ended.
#[derive(Clone, Copy, Debug, PartialEq, Eq, Structural)]
pub enum EndReason {
    /// The liveness poll found the peripheral disconnected.
    LinkLost,
    /// The notification stream ended.
    StreamEnded,
    /// The report queue was full when a report arrived.
    QueueFull,
    /// Report processing stopped.
    ProcessingStopped,
}

/// The outcome of the operation that the supervisor asked for last.
#[derive(Clone, Copy, Debug, PartialEq, Eq, Structural)]
pub enum Event {
    Succeeded,
    /// A scan listed no peripheral with the target name.
    NotFound,
    Failed,
    Ended(EndReason),
}

/// An operation on the outside world.
#[derive(Clone, Copy, Debug, PartialEq, Eq, Structural)]
pub enum Operation {
    CreateKeyboard,
    /// Start a scan, list the peripherals and stop the scan.
    Scan,
    Connect,
    ResolveServices,
    Subscribe,
    /// Run ingestion, liveness polling and report processing until one ends.
    Relay,
    Disconnect,
}

/// What to do next: wait `delay_secs` seconds, then perform `op`.
#[derive(Clone, Copy, Debug, PartialEq, Eq, Structural)]
pub struct Step {
    pub delay_secs: u64,
    pub op: Operation,
}

/// The phase that follows `p` on event `e`.
pub open spec fn next_phase(p: Phase, e: Event) -> Phase {
    match (p, e) {
        (Phase::CreatingKeyboard, Event::Succeeded) => Phase::Scanning,
        (Phase::CreatingKeyboard, _) => Phase::CreatingKeyboard,
        (Phase::Scanning, Event::Succeeded) => Phase::Connecting,
        (Phase::Scanning, Event::NotFound) => Phase::Scanning,
        (Phase::Scanning, _) => Phase::CreatingKeyboard,
        (Phase::Connecting, Event::Succeeded) => Phase::ResolvingServices,
        (Phase::Connecting, _) => Phase::CreatingKeyboard,
        (Phase::ResolvingServices, Event::Succeeded) => Phase::Subscribing,
        (Phase::ResolvingServices, _) => Phase::Disconnected,
        (Phase::Subscribing, Event::Succeeded) => Phase::Active,
        (Phase::Subscribing, _) => Phase::Disconnected,
        (Phase::Active, _) => Phase::Disconnected,
        (Phase::Disconnected, _) => Phase::CreatingKeyboard,
    }
}

/// The operation that a phase is entered with.
pub open spec fn entry_operation(p: Phase) -> Operation {
    match p {
        Phase::CreatingKeyboard => Operation::CreateKeyboard,
        Phase::Scanning => Operation::Scan,
        Phase::Connecting => Operation::Connect,
        Phase::ResolvingServices => Operation::ResolveServices,
        Phase::Subscribing => Operation::Subscribe,
        Phase::Active => Operation::Relay,
        Phase::Disconnected => Operation::Disconnect,
    }
}

/// The wait before the operation that follows `p` on `e`: the retry delay
/// after a failed keyboard creation, a scan that missed, or a failed scan or
/// connect; the reconnect delay after a teardown; none otherwise.
pub open spec fn delay_after(p: Phase, e: Event) -> u64 {
    match (p, e) {
        (Phase::CreatingKeyboard, Event::Succeeded) => 0,
        (Phase::CreatingKeyboard, _) => RETRY_DELAY_SECS,
        (Phase::Scanning, Event::Succeeded) => 0,
        (Phase::Scanning, _) => RETRY_DELAY_SECS,
        (Phase::Connecting, Event::Succeeded) => 0,
        (Phase::Connecting, _) => RETRY_DELAY_SECS,
        (Phase::Disconnected, _) => RECONNECT_DELAY_SECS,
        _ => 0,
    }
}

/// The step that follows `p` on `e`.
pub open spec fn step_after(p: Phase, e: Event) -> Step {
    Step { delay_secs: delay_after(p, e), op: entry_operation(next_phase(p, e)) }
}

/// The reconnection loop's decisions: it starts by creating the virtual
/// keyboard and, for each outcome, names the next operation and the wait
/// before it. It never stops.
pub struct Supervisor {
    phase: Phase,
}

impl Supervisor {
    pub closed spec fn spec_phase(&self) -> Phase {
        self.phase
    }

    pub fn new() -> (r: (Supervisor, Step))
        ensures
            r.0.spec_phase() == Phase::CreatingKeyboard,
            r.1 == (Step { delay_secs: 0, op: Operation::CreateKeyboard }),
    {
        (Supervisor { phase: Phase::CreatingKeyboard }, Step { delay_secs: 0, op: Operation::CreateKeyboard })
    }

    pub fn phase(&self) -> (r: Phase)
        ensures
            r == self.spec_phase(),
    {
        self.phase
    }

    /// Takes the outcome of the last operation and returns the next step.
    pub fn on_event(&mut self, e: Event) -> (r: Step)
        ensures
            final(self).spec_phase() == next_phase(old(self).spec_phase(), e),
            r == step_after(old(self).spec_phase(), e),
    {
        let next = match (self.phase, e) {
            (Phase::CreatingKeyboard, Event::Succeeded) => Phase::Scanning,
            (Phase::CreatingKeyboard, _) => Phase::CreatingKeyboard,
            (Phase::Scanning, Event::Succeeded) => Phase::Connecting,
            (Phase::Scanning, Event::NotFound) => Phase::Scanning,
            (Phase::Scanning, _) => Phase::CreatingKeyboard,
            (Phase::Connecting, Event::Succeeded) => Phase::ResolvingServices,
            (Phase::Connecting, _) => Phase::CreatingKeyboard,
            (Phase::ResolvingServices, Event::Succeeded) => Phase::Subscribing,
            (Phase::ResolvingServices, _) => Phase::Disconnected,
            (Phase::Subscribing, Event::Succeeded) => Phase::Active,
            (Phase::Subscribing, _) => Phase::Disconnected,
            (Phase::Active, _) => Phase::Disconnected,
            (Phase::Disconnected, _) => Phase::CreatingKeyboard,
        };
        let delay_secs: u64 = match (self.phase, e) {
            (Phase::CreatingKeyboard, Event::Succeeded) => 0,
            (Phase::CreatingKeyboard, _) => RETRY_DELAY_SECS,
            (Phase::Scanning, Event::Succeeded) => 0,
            (Phase::Scanning, _) => RETRY_DELAY_SECS,
            (Phase::Connecting, Event::Succeeded) => 0,
            (Phase::Connecting, _) => RETRY_DELAY_SECS,
            (Phase::Disconnected, _) => RECONNECT_DELAY_SECS,
            _ => 0,
        };
        let op = match next {
            Phase::CreatingKeyboard => Operation::CreateKeyboard,
            Phase::Scanning => Operation::Scan,
            Phase::Connecting => Operation::Connect,
            Phase::ResolvingServices => Operation::ResolveServices,
            Phase::Subscribing => Operation::Subscribe,
            Phase::Active => Operation::Relay,
            Phase::Disconnected => Operation::Disconnect,
        };
        self.phase = next;
        Step { delay_secs, op }
    }
}

/// A relay is started only once a subscription succeeded, and an active
/// connection is always torn down before anything else: at most one
/// connection is active at a time.
pub proof fn lemma_single_active_connection(p: Phase, e: Event)
    ensures
        step_after(p, e).op == Operation::Relay <==> (p == Phase::Subscribing && e == Event::Succeeded),
        next_phase(Phase::Active, e) == Phase::Disconnected,
        step_after(Phase::Active, e).op == Operation::Disconnect,
{
}

/// Every failure is retried: no outcome stops the loop, and after a relay
/// ends, for whatever reason, the peripheral is disconnected and the cycle
/// starts over after the reconnect delay.
pub proof fn lemma_relay_end_restarts(p: Phase, e: Event, reason: EndReason)
    ensures
        step_after(p, e).delay_secs <= RETRY_DELAY_SECS,
        step_after(Phase::Active, Event::Ended(reason)) == (Step { delay_secs: 0, op: Operation::Disconnect }),
        next_phase(next_phase(Phase::Active, Event::Ended(reason)), e) == Phase::CreatingKeyboard,
        step_after(next_phase(Phase::Active, Event::Ended(reason)), e) == (Step {
            delay_secs: RECONNECT_DELAY_SECS,
            op: Operation::CreateKeyboard,
        }),
{
}

} // verus!
