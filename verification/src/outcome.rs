//! Shutdown arbitration and the process's terminal outcome.
//!
//! The shutdown coordinator races the measurement loop's completion against
//! the session driver task's completion. When the loop finishes first, its
//! own result is authoritative for the exit code; the driver task is
//! cancelled and awaited, and its error, if any, is masked. When the driver
//! task finishes first, its failure is surfaced and the loop is abandoned
//! in place. Every error carries a context label naming the phase that
//! produced it.

use vstd::prelude::*;

use crate::connect::ConnectError;

verus! {

/// The phase a fatal failure came from; its label is the context the
/// process reports.
#[derive(Clone, Copy, Debug, PartialEq, Eq, Structural)]
pub enum FailurePhase {
    /// Opening the raw connection failed.
    Connect,
    /// The destination's host portion is not a valid server identity.
    InvalidHost,
    /// The TLS handshake failed.
    TlsHandshake,
    /// The protocol's initial exchange failed.
    Handshake,
    /// A measurement round's probe failed.
    PingPong,
    /// The background session driver failed on its own.
    ConnectionDriver,
}

impl FailurePhase {
    /// The context label reported with a failure from this phase.
    pub fn label(&self) -> (r: &'static str)
        ensures
            match self {
                FailurePhase::Connect => r@ == "connect"@,
                FailurePhase::InvalidHost => r@ == "invalid host"@,
                FailurePhase::TlsHandshake => r@ == "TLS connect"@,
                FailurePhase::Handshake => r@ == "handshake"@,
                FailurePhase::PingPong => r@ == "ping pong"@,
                FailurePhase::ConnectionDriver => r@ == "connection driver"@,
            },
    {
        match self {
            FailurePhase::Connect => "connect",
            FailurePhase::InvalidHost => "invalid host",
            FailurePhase::TlsHandshake => "TLS connect",
            FailurePhase::Handshake => "handshake",
            FailurePhase::PingPong => "ping pong",
            FailurePhase::ConnectionDriver => "connection driver",
        }
    }
}

/// The phase label a connection failure carries.
pub open spec fn spec_connect_phase(e: ConnectError) -> FailurePhase {
    match e {
        ConnectError::Network => FailurePhase::Connect,
        ConnectError::InvalidHost => FailurePhase::InvalidHost,
        ConnectError::TlsHandshake => FailurePhase::TlsHandshake,
    }
}

/// Classify a connection failure by the phase that produced it.
pub fn connect_phase(e: ConnectError) -> (p: FailurePhase)
    ensures
        p == spec_connect_phase(e),
{
    match e {
        ConnectError::Network => FailurePhase::Connect,
        ConnectError::InvalidHost => FailurePhase::InvalidHost,
        ConnectError::TlsHandshake => FailurePhase::TlsHandshake,
    }
}

/// The process's terminal outcome: a clean exit, or exactly one failure
/// with the phase that produced it.
#[derive(Clone, Copy, Debug, PartialEq, Eq, Structural)]
pub enum ProcessOutcome {
    /// Normal completion: exit status 0.
    Success,
    /// A fatal failure from the named phase: non-zero exit status.
    Failure { phase: FailurePhase },
}

/// Which of the two racing activities completed first, and how.
#[derive(Clone, Copy, Debug, PartialEq, Eq, Structural)]
pub enum RaceWinner {
    /// The measurement loop finished first; `probe_ok` says whether it
    /// completed its full round count (as opposed to a probe failure).
    LoopFinished { probe_ok: bool },
    /// The session driver task finished first: the connection ended
    /// independently of the loop, which is abandoned in place.
    DriverFinished { clean: bool },
}

/// The outcome the arbitration converges to. In the loop-first path the
/// loop's result is authoritative — the awaited driver task's own error is
/// masked by design. In the driver-first path the driver's termination is
/// surfaced as the failure.
pub open spec fn spec_decide_exit(w: RaceWinner) -> ProcessOutcome {
    match w {
        RaceWinner::LoopFinished { probe_ok } => if probe_ok {
            ProcessOutcome::Success
        } else {
            ProcessOutcome::Failure { phase: FailurePhase::PingPong }
        },
        RaceWinner::DriverFinished { clean } => ProcessOutcome::Failure {
            phase: FailurePhase::ConnectionDriver,
        },
    }
}

/// Arbitrate the race between the measurement loop and the driver task
/// into the process's terminal outcome.
pub fn decide_exit(w: RaceWinner) -> (o: ProcessOutcome)
    ensures
        o == spec_decide_exit(w),
{
    match w {
        RaceWinner::LoopFinished { probe_ok } => if probe_ok {
            ProcessOutcome::Success
        } else {
            ProcessOutcome::Failure { phase: FailurePhase::PingPong }
        },
        RaceWinner::DriverFinished { clean: _ } => ProcessOutcome::Failure {
            phase: FailurePhase::ConnectionDriver,
        },
    }
}

/// The process exit status: 0 exactly on success, 1 on any failure.
pub fn exit_code(o: &ProcessOutcome) -> (c: i32)
    ensures
        (c == 0) == (*o is Success),
        (*o is Failure) ==> c == 1,
{
    match o {
        ProcessOutcome::Success => 0,
        ProcessOutcome::Failure { .. } => 1,
    }
}

} // verus!
