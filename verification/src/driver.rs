//! The session driver task's state machine.
//!
//! The driver object returned by the protocol handshake must be advanced to
//! completion by exactly one task for the session to make progress. That
//! task races two events: the driver reaching a terminal result on its own,
//! and the cancellation signal becoming set. Exactly one of the two wins;
//! the other is abandoned. Cancellation is a deliberate, successful
//! shutdown, never a failure.

use vstd::prelude::*;

verus! {

/// The event that ends the driver task's race.
#[derive(Clone, Copy, Debug, PartialEq, Eq, Structural)]
pub enum DriverEvent {
    /// The cancellation signal became set first.
    CancelObserved,
    /// The driver reached a terminal result on its own; `clean` says
    /// whether the session ended without error.
    SessionEnded { clean: bool },
}

/// The state of the session driver task.
#[derive(Clone, Copy, Debug, PartialEq, Eq, Structural)]
pub enum DriverState {
    /// Racing the driver's own completion against cancellation.
    Running,
    /// Cancellation won: polling was abandoned deliberately.
    Cancelled,
    /// The driver completed on its own, without error.
    CompletedOk,
    /// The driver completed on its own, with an error.
    CompletedErr,
}

/// The state the driver task moves to when, while `Running`, the given
/// event wins the race.
pub open spec fn spec_driver_step(ev: DriverEvent) -> DriverState {
    match ev {
        DriverEvent::CancelObserved => DriverState::Cancelled,
        DriverEvent::SessionEnded { clean } => if clean {
            DriverState::CompletedOk
        } else {
            DriverState::CompletedErr
        },
    }
}

/// Resolve the race: from `Running`, the winning event alone determines the
/// terminal state.
pub fn driver_step(s: DriverState, ev: DriverEvent) -> (t: DriverState)
    requires
        s is Running,
    ensures
        t == spec_driver_step(ev),
{
    match ev {
        DriverEvent::CancelObserved => DriverState::Cancelled,
        DriverEvent::SessionEnded { clean } => if clean {
            DriverState::CompletedOk
        } else {
            DriverState::CompletedErr
        },
    }
}

/// Whether a terminal driver state is reported as the task's success.
/// Cancellation is success; only the driver's own error is a failure.
pub fn driver_task_ok(s: DriverState) -> (ok: bool)
    requires
        !(s is Running),
    ensures
        ok == !(s is CompletedErr),
{
    match s {
        DriverState::Running => true,
        DriverState::Cancelled => true,
        DriverState::CompletedOk => true,
        DriverState::CompletedErr => false,
    }
}

/// Whichever event wins the race, the task ends in a terminal state: it
/// never outlives the decision to stop, and never disappears silently.
pub proof fn lemma_race_terminates(ev: DriverEvent)
    ensures
        !(spec_driver_step(ev) is Running),
{
}

} // verus!
