//! The run's lifecycle coordinator.
//!
//! One run is: connect, handshake, then two concurrent activities — the
//! measurement loop (foreground) and the session driver task (background) —
//! raced against each other, and an ordered shutdown. The decisions of that
//! lifecycle are a state machine over plain events: the surrounding program
//! performs the I/O an action asks for and feeds the observed outcome back
//! in as the next event.
//!
//! The machine guarantees the ordering the design demands: the cancellation
//! signal is set only after the measurement loop has stopped, the driver
//! task is always awaited before a loop-first exit, and a driver-first
//! termination abandons the loop in place and surfaces the driver's
//! failure.

use vstd::prelude::*;

use crate::cancel::CancelSignal;
use crate::cancel::after_cancel;
use crate::connect::ConnectError;
use crate::outcome::FailurePhase;
use crate::outcome::ProcessOutcome;
use crate::outcome::RaceWinner;
use crate::outcome::spec_connect_phase;
use crate::outcome::spec_decide_exit;
use crate::rounds::ProbeEvent;
use crate::rounds::ProbeLoop;
use crate::rounds::RoundReport;

verus! {

/// Where in its lifecycle the run stands.
#[derive(Clone, Copy, Debug, PartialEq, Eq, Structural)]
pub enum Phase {
    /// The raw connection (and TLS layer, when asked for) is being opened.
    Connecting,
    /// The protocol's initial exchange is outstanding.
    Handshaking,
    /// Driver task engaged; the measurement loop still has probes to issue.
    Measuring,
    /// The loop has stopped and cancellation is set; the driver task's
    /// terminal outcome is being awaited.
    Draining,
    /// Terminal: the outcome is decided.
    Done,
}

/// What the coordinator asks the surrounding program to do next.
#[derive(Clone, Copy, Debug, PartialEq, Eq, Structural)]
pub enum Action {
    /// Open the transport.
    Connect,
    /// Perform the protocol handshake and engage the driver task.
    Handshake,
    /// Issue one probe, racing its acknowledgment against the driver task's
    /// own termination.
    IssueProbe,
    /// Await the (already cancelled) driver task's terminal outcome.
    AwaitDriver,
    /// Exit with the decided outcome.
    Exit,
}

/// An observed outcome, fed back into the coordinator.
#[derive(Clone, Copy, Debug, PartialEq, Eq, Structural)]
pub enum Event {
    /// The transport is open and ready.
    Connected,
    /// The transport could not be built.
    ConnectFailed { error: ConnectError },
    /// The protocol handshake completed; the driver task is engaged.
    HandshakeOk,
    /// The protocol handshake failed.
    HandshakeFailed,
    /// The outstanding probe was acknowledged or failed.
    Probe { outcome: ProbeEvent },
    /// The driver task terminated first, independently of the loop;
    /// `clean` says whether the session ended without error.
    DriverDied { clean: bool },
    /// The cancelled driver task has been awaited to completion.
    DriverSettled,
}

/// The coordinator's state.
#[derive(Clone, Copy, Debug, PartialEq, Eq)]
pub struct Coordinator {
    /// Lifecycle phase.
    pub phase: Phase,
    /// The level-triggered cancellation signal shared with the driver task.
    pub cancel: CancelSignal,
    /// The measurement loop's state.
    pub probes: ProbeLoop,
    /// The decided outcome, once terminal.
    pub outcome: Option<ProcessOutcome>,
}

/// The coordinator a run starts from: about to connect, signal unset, no
/// round done, no outcome.
pub open spec fn initial(count: Option<u64>) -> Coordinator {
    Coordinator {
        phase: Phase::Connecting,
        cancel: CancelSignal { set: false },
        probes: ProbeLoop { count, done: 0, failed: false },
        outcome: None,
    }
}

impl Coordinator {
    /// The coordinator's invariant. In particular: the cancellation signal
    /// is set exactly from the moment the loop stops (never while a probe
    /// can still be issued), and an outcome exists exactly when terminal.
    pub open spec fn wf(self) -> bool {
        &&& self.probes.wf()
        &&& (self.cancel.set ==> !self.probes.wants_probe())
        &&& match self.phase {
            Phase::Connecting | Phase::Handshaking => {
                &&& !self.cancel.set
                &&& self.probes.done == 0
                &&& !self.probes.failed
                &&& self.outcome is None
            },
            Phase::Measuring => {
                &&& !self.cancel.set
                &&& self.probes.wants_probe()
                &&& self.outcome is None
            },
            Phase::Draining => {
                &&& self.cancel.set
                &&& !self.probes.wants_probe()
                &&& self.outcome is None
            },
            Phase::Done => self.outcome is Some,
        }
    }

    /// Which events fit the current phase.
    pub open spec fn accepts(self, ev: Event) -> bool {
        match self.phase {
            Phase::Connecting => ev is Connected || ev is ConnectFailed,
            Phase::Handshaking => ev is HandshakeOk || ev is HandshakeFailed,
            Phase::Measuring => (ev is Probe && self.probes.done < u64::MAX) || ev is DriverDied,
            Phase::Draining => ev is DriverSettled,
            Phase::Done => false,
        }
    }

    /// The state one event moves the coordinator to.
    pub open spec fn spec_step(self, ev: Event) -> Coordinator {
        match ev {
            Event::Connected => Coordinator { phase: Phase::Handshaking, ..self },
            Event::ConnectFailed { error } => Coordinator {
                phase: Phase::Done,
                outcome: Some(ProcessOutcome::Failure { phase: spec_connect_phase(error) }),
                ..self
            },
            Event::HandshakeOk => if self.probes.wants_probe() {
                Coordinator { phase: Phase::Measuring, ..self }
            } else {
                Coordinator { phase: Phase::Draining, cancel: after_cancel(self.cancel), ..self }
            },
            Event::HandshakeFailed => Coordinator {
                phase: Phase::Done,
                outcome: Some(ProcessOutcome::Failure { phase: FailurePhase::Handshake }),
                ..self
            },
            Event::Probe { outcome } => {
                let probes = self.probes.spec_observe(outcome);
                if probes.wants_probe() {
                    Coordinator { probes, ..self }
                } else {
                    Coordinator {
                        phase: Phase::Draining,
                        cancel: after_cancel(self.cancel),
                        probes,
                        ..self
                    }
                }
            },
            Event::DriverDied { clean } => Coordinator {
                phase: Phase::Done,
                outcome: Some(spec_decide_exit(RaceWinner::DriverFinished { clean })),
                ..self
            },
            Event::DriverSettled => Coordinator {
                phase: Phase::Done,
                outcome: Some(
                    spec_decide_exit(RaceWinner::LoopFinished { probe_ok: !self.probes.failed }),
                ),
                ..self
            },
        }
    }

    /// The report one event produces, if any: exactly the acknowledged
    /// probe's round.
    pub open spec fn spec_step_report(self, ev: Event) -> Option<RoundReport> {
        match ev {
            Event::Probe { outcome } => self.probes.spec_report(outcome),
            _ => None,
        }
    }

    /// A fresh coordinator for a run of `count` rounds (`None`: unbounded).
    pub fn new(count: Option<u64>) -> (c: Self)
        ensures
            c == initial(count),
            c.wf(),
    {
        Coordinator {
            phase: Phase::Connecting,
            cancel: CancelSignal::new(),
            probes: ProbeLoop::new(count),
            outcome: None,
        }
    }

    /// What to do next in the current phase.
    pub fn next_action(&self) -> (a: Action)
        requires
            self.wf(),
        ensures
            match self.phase {
                Phase::Connecting => a is Connect,
                Phase::Handshaking => a is Handshake,
                Phase::Measuring => a is IssueProbe,
                Phase::Draining => a is AwaitDriver,
                Phase::Done => a is Exit,
            },
    {
        match self.phase {
            Phase::Connecting => Action::Connect,
            Phase::Handshaking => Action::Handshake,
            Phase::Measuring => Action::IssueProbe,
            Phase::Draining => Action::AwaitDriver,
            Phase::Done => Action::Exit,
        }
    }

    /// Whether an event fits the current phase (the precondition of
    /// `handle`, decidable by the caller).
    pub fn accepts_event(&self, ev: &Event) -> (b: bool)
        ensures
            b == self.accepts(*ev),
    {
        match self.phase {
            Phase::Connecting => match ev {
                Event::Connected | Event::ConnectFailed { .. } => true,
                _ => false,
            },
            Phase::Handshaking => match ev {
                Event::HandshakeOk | Event::HandshakeFailed => true,
                _ => false,
            },
            Phase::Measuring => match ev {
                Event::Probe { .. } => self.probes.done < u64::MAX,
                Event::DriverDied { .. } => true,
                _ => false,
            },
            Phase::Draining => match ev {
                Event::DriverSettled => true,
                _ => false,
            },
            Phase::Done => false,
        }
    }

    /// Feed one observed outcome in; the returned report, if any, is the
    /// completed round to announce.
    pub fn handle(&mut self, ev: Event) -> (r: Option<RoundReport>)
        requires
            old(self).wf(),
            old(self).accepts(ev),
        ensures
            *final(self) == old(self).spec_step(ev),
            r == old(self).spec_step_report(ev),
            final(self).wf(),
    {
        proof {
            lemma_step_preserves_wf(*self, ev);
        }
        match ev {
            Event::Connected => {
                self.phase = Phase::Handshaking;
                None
            },
            Event::ConnectFailed { error } => {
                self.phase = Phase::Done;
                self.outcome = Some(
                    ProcessOutcome::Failure { phase: crate::outcome::connect_phase(error) },
                );
                None
            },
            Event::HandshakeOk => {
                if self.probes.wants_probe_now() {
                    self.phase = Phase::Measuring;
                } else {
                    self.cancel.cancel();
                    self.phase = Phase::Draining;
                }
                None
            },
            Event::HandshakeFailed => {
                self.phase = Phase::Done;
                self.outcome = Some(ProcessOutcome::Failure { phase: FailurePhase::Handshake });
                None
            },
            Event::Probe { outcome } => {
                let r = self.probes.observe(outcome);
                if !self.probes.wants_probe_now() {
                    self.cancel.cancel();
                    self.phase = Phase::Draining;
                }
                r
            },
            Event::DriverDied { clean } => {
                self.phase = Phase::Done;
                self.outcome = Some(
                    crate::outcome::decide_exit(RaceWinner::DriverFinished { clean }),
                );
                None
            },
            Event::DriverSettled => {
                let probe_ok = !self.probes.failed;
                self.phase = Phase::Done;
                self.outcome = Some(crate::outcome::decide_exit(RaceWinner::LoopFinished { probe_ok }));
                None
            },
        }
    }
}

/// Every step from a well-formed state on an accepted event lands in a
/// well-formed state. In particular the cancellation ordering holds in
/// every reachable state: the signal is never set while the measurement
/// loop still has a probe to issue.
pub proof fn lemma_step_preserves_wf(s: Coordinator, ev: Event)
    requires
        s.wf(),
        s.accepts(ev),
    ensures
        s.spec_step(ev).wf(),
{
}

} // verus!
