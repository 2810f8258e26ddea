//! Level-triggered cancellation signal.
//!
//! One signal is created per run. The shutdown coordinator sets it; the
//! session driver task observes it. Once set it is never unset, and setting
//! it again changes nothing: the model below states that idempotence exactly.

use vstd::prelude::*;

verus! {

/// A level-triggered, idempotent cancellation flag: once set, permanently set.
#[derive(Clone, Copy, Debug, PartialEq, Eq, Structural)]
pub struct CancelSignal {
    /// Whether cancellation has been requested.
    pub set: bool,
}

/// The state a signal is in after one cancellation request, whatever it held
/// before.
pub open spec fn after_cancel(s: CancelSignal) -> CancelSignal {
    CancelSignal { set: true }
}

impl CancelSignal {
    /// A fresh, unset signal.
    pub fn new() -> (s: Self)
        ensures
            !s.set,
    {
        CancelSignal { set: false }
    }

    /// Request cancellation. Level-triggered: the new state does not depend
    /// on the old one.
    pub fn cancel(&mut self)
        ensures
            *final(self) == after_cancel(*old(self)),
    {
        self.set = true;
    }

    /// Observe the signal without consuming it.
    pub fn is_cancelled(&self) -> (b: bool)
        ensures
            b == self.set,
    {
        self.set
    }
}

/// Cancellation is idempotent: requesting it twice leaves the signal in
/// exactly the state one request leaves it in.
pub proof fn lemma_cancel_idempotent(s: CancelSignal)
    ensures
        after_cancel(after_cancel(s)) == after_cancel(s),
{
}

} // verus!
