//! The shutdown coordinator: signal the process, then wait for its exit up
//! to a fixed time. It reports whether the process exited in time and never
//! follows the first signal with a second one.

use vstd::prelude::*;

verus! {

/// Seconds to wait for the process to exit after the signal.
pub const EXIT_TIMEOUT_SECS: u64 = 5;

/// Where a shutdown stands.
#[derive(Debug, Clone, Copy, PartialEq, Eq, Structural)]
pub enum Phase {
    /// The process has not been signalled yet.
    Running,
    /// The signal was sent and the exit is awaited.
    Signaled,
    /// The process exited within the time allowed.
    Exited,
    /// The time allowed ran out before the process exited.
    TimedOut,
}

/// The signal that asks the process to end.
#[derive(Debug, Clone, Copy, PartialEq, Eq, Structural)]
pub enum Signal {
    /// A request to terminate, which the process may handle.
    Terminate,
    /// An immediate kill, for hosts that have no such request.
    Kill,
}

/// What the caller observed.
#[derive(Debug, Clone, Copy, PartialEq, Eq, Structural)]
pub enum Event {
    /// The signal was delivered to the process.
    SignalSent,
    /// The process exited; its exit code is of no interest.
    ExitObserved,
    /// The time allowed for the exit ran out.
    DeadlineElapsed,
}

/// What the caller is to do next.
#[derive(Debug, Clone, Copy, PartialEq, Eq, Structural)]
pub enum Action {
    /// Send this signal to the process.
    Send(Signal),
    /// Wait for the exit, off the caller's scheduling path, for at most this
    /// many seconds.
    AwaitExit { timeout_secs: u64 },
    /// The shutdown is over; `exited` says whether the process exited in time.
    Report { exited: bool },
}

/// The signal for a host that can or cannot ask a process to terminate.
pub open spec fn signal_for(graceful: bool) -> Signal {
    if graceful {
        Signal::Terminate
    } else {
        Signal::Kill
    }
}

/// The phase after `event` was observed in `phase`. An event that does not
/// belong to the phase changes nothing.
pub open spec fn advance(phase: Phase, event: Event) -> Phase {
    match (phase, event) {
        (Phase::Running, Event::SignalSent) => Phase::Signaled,
        (Phase::Signaled, Event::ExitObserved) => Phase::Exited,
        (Phase::Signaled, Event::DeadlineElapsed) => Phase::TimedOut,
        _ => phase,
    }
}

/// What is to be done in `phase` on a host with or without a request to
/// terminate.
pub open spec fn action_in(phase: Phase, graceful: bool) -> Action {
    match phase {
        Phase::Running => Action::Send(signal_for(graceful)),
        Phase::Signaled => Action::AwaitExit { timeout_secs: EXIT_TIMEOUT_SECS },
        Phase::Exited => Action::Report { exited: true },
        Phase::TimedOut => Action::Report { exited: false },
    }
}

/// The phase after all of `events`, observed in order from `phase`.
pub open spec fn advance_all(phase: Phase, events: Seq<Event>) -> Phase
    decreases events.len(),
{
    if events.len() == 0 {
        phase
    } else {
        advance(advance_all(phase, events.drop_last()), events.last())
    }
}

/// How far a phase lies along the order running, signalled, over.
pub open spec fn rank(phase: Phase) -> nat {
    match phase {
        Phase::Running => 0,
        Phase::Signaled => 1,
        Phase::Exited => 2,
        Phase::TimedOut => 2,
    }
}

/// The coordinator of one shutdown.
#[derive(Debug, Clone, Copy, PartialEq, Eq, Structural)]
pub struct Coordinator {
    phase: Phase,
    graceful: bool,
}

impl Coordinator {
    /// Where the shutdown stands.
    pub closed spec fn spec_phase(self) -> Phase {
        self.phase
    }

    /// Whether the host can ask a process to terminate.
    pub closed spec fn spec_graceful(self) -> bool {
        self.graceful
    }

    /// A coordinator for a process that runs. `graceful` says whether the
    /// host can ask a process to terminate.
    pub fn new(graceful: bool) -> (c: Coordinator)
        ensures
            c.spec_phase() == Phase::Running,
            c.spec_graceful() == graceful,
    {
        Coordinator { phase: Phase::Running, graceful }
    }

    /// Where the shutdown stands.
    pub fn phase(&self) -> (p: Phase)
        ensures
            p == self.spec_phase(),
    {
        self.phase
    }

    /// What the caller is to do next.
    pub fn next_action(&self) -> (a: Action)
        ensures
            a == action_in(self.spec_phase(), self.spec_graceful()),
    {
        match self.phase {
            Phase::Running => Action::Send(
                if self.graceful {
                    Signal::Terminate
                } else {
                    Signal::Kill
                },
            ),
            Phase::Signaled => Action::AwaitExit { timeout_secs: EXIT_TIMEOUT_SECS },
            Phase::Exited => Action::Report { exited: true },
            Phase::TimedOut => Action::Report { exited: false },
        }
    }

    /// Takes note of what the caller observed.
    pub fn observe(&mut self, event: Event)
        ensures
            final(self).spec_phase() == advance(old(self).spec_phase(), event),
            final(self).spec_graceful() == old(self).spec_graceful(),
    {
        match (self.phase, event) {
            (Phase::Running, Event::SignalSent) => {
                self.phase = Phase::Signaled;
            },
            (Phase::Signaled, Event::ExitObserved) => {
                self.phase = Phase::Exited;
            },
            (Phase::Signaled, Event::DeadlineElapsed) => {
                self.phase = Phase::TimedOut;
            },
            _ => {},
        }
    }
}

/// A shutdown only moves forward, and once it is over nothing changes it.
pub proof fn lemma_shutdown_moves_forward(phase: Phase, event: Event)
    ensures
        rank(advance(phase, event)) >= rank(phase),
        rank(phase) == 2 ==> advance(phase, event) == phase,
{
}

/// A signal is sent only to a process that has not been signalled: after
/// the first signal no course of events leads to a second one, a timeout
/// included.
pub proof fn lemma_never_signals_twice(phase: Phase, events: Seq<Event>, graceful: bool)
    requires
        phase != Phase::Running,
    ensures
        advance_all(phase, events) != Phase::Running,
        !(action_in(advance_all(phase, events), graceful) is Send),
    decreases events.len(),
{
    if events.len() > 0 {
        lemma_never_signals_twice(phase, events.drop_last(), graceful);
    }
}

/// The process is reported as exited only if its exit was observed after the
/// signal, and as timed out only if the time ran out first.
pub proof fn lemma_report_follows_observation(events: Seq<Event>)
    ensures
        advance_all(Phase::Running, events) == Phase::Exited ==> events.contains(
            Event::SignalSent,
        ) && events.contains(Event::ExitObserved),
        advance_all(Phase::Running, events) == Phase::TimedOut ==> events.contains(
            Event::SignalSent,
        ) && events.contains(Event::DeadlineElapsed),
        advance_all(Phase::Running, events) == Phase::Signaled ==> events.contains(
            Event::SignalSent,
        ),
    decreases events.len(),
{
    if events.len() > 0 {
        let before = events.drop_last();
        lemma_report_follows_observation(before);
        assert(events[events.len() - 1] == events.last());
        assert forall|e: Event| before.contains(e) implies events.contains(e) by {
            let i = choose|i: int| 0 <= i < before.len() && before[i] == e;
            assert(events[i] == e);
        }
    }
}

} // verus!
