//! The measurement loop: issue one liveness probe per round, time it,
//! report it, for a bounded or unbounded number of rounds.
//!
//! Probes are strictly sequential — one outstanding probe at a time — so
//! the loop is a fold over a sequence of probe outcomes: each acknowledged
//! probe yields one report (round number and elapsed time), and the first
//! failed probe aborts the loop.

use vstd::prelude::*;

verus! {

/// The outcome of one probe, as observed by the loop.
#[derive(Clone, Copy, Debug, PartialEq, Eq, Structural)]
pub enum ProbeEvent {
    /// The probe was acknowledged after `nanos` nanoseconds.
    Ack { nanos: u64 },
    /// The probe could not be issued, or was never acknowledged because the
    /// session ended.
    Failed,
}

/// The elapsed time an acknowledged probe carries (zero for a failed one).
pub open spec fn ack_nanos(e: ProbeEvent) -> u64 {
    match e {
        ProbeEvent::Ack { nanos } => nanos,
        ProbeEvent::Failed => 0,
    }
}

/// One reported measurement: the 1-based round number and the round-trip
/// time in nanoseconds.
#[derive(Clone, Copy, Debug, PartialEq, Eq, Structural)]
pub struct RoundReport {
    /// 1-based round number.
    pub round: u64,
    /// Measured round-trip time in nanoseconds.
    pub nanos: u64,
}

/// The state of the measurement loop.
#[derive(Clone, Copy, Debug, PartialEq, Eq)]
pub struct ProbeLoop {
    /// Configured number of rounds; `None` means unbounded.
    pub count: Option<u64>,
    /// Rounds completed and reported so far.
    pub done: u64,
    /// Whether a probe has failed (aborting the loop).
    pub failed: bool,
}

impl ProbeLoop {
    /// Well-formedness: never more rounds done than configured.
    pub open spec fn wf(self) -> bool {
        match self.count {
            Some(n) => self.done <= n,
            None => true,
        }
    }

    /// Whether the loop still has a probe to issue.
    pub open spec fn wants_probe(self) -> bool {
        &&& !self.failed
        &&& match self.count {
            Some(n) => self.done < n,
            None => true,
        }
    }

    /// A fresh loop for `count` rounds (`None`: unbounded).
    pub fn new(count: Option<u64>) -> (l: Self)
        ensures
            l == (ProbeLoop { count, done: 0, failed: false }),
            l.wf(),
    {
        ProbeLoop { count, done: 0, failed: false }
    }

    /// The loop state after observing one probe outcome.
    pub open spec fn spec_observe(self, ev: ProbeEvent) -> ProbeLoop {
        match ev {
            ProbeEvent::Ack { nanos } => ProbeLoop { done: (self.done + 1) as u64, ..self },
            ProbeEvent::Failed => ProbeLoop { failed: true, ..self },
        }
    }

    /// The report an observed probe outcome produces, if any.
    pub open spec fn spec_report(self, ev: ProbeEvent) -> Option<RoundReport> {
        match ev {
            ProbeEvent::Ack { nanos } => Some(
                RoundReport { round: (self.done + 1) as u64, nanos },
            ),
            ProbeEvent::Failed => None,
        }
    }

    /// Whether the loop still has a probe to issue (the executable face of
    /// `wants_probe`).
    pub fn wants_probe_now(&self) -> (b: bool)
        ensures
            b == self.wants_probe(),
    {
        if self.failed {
            return false;
        }
        match self.count {
            Some(n) => self.done < n,
            None => true,
        }
    }

    /// Observe the outcome of the one outstanding probe: an acknowledgment
    /// completes the round and yields its report; a failure aborts the loop.
    pub fn observe(&mut self, ev: ProbeEvent) -> (r: Option<RoundReport>)
        requires
            old(self).wf(),
            old(self).wants_probe(),
            old(self).done < u64::MAX,
        ensures
            *final(self) == old(self).spec_observe(ev),
            r == old(self).spec_report(ev),
            final(self).wf(),
    {
        match ev {
            ProbeEvent::Ack { nanos } => {
                self.done = self.done + 1;
                Some(RoundReport { round: self.done, nanos })
            },
            ProbeEvent::Failed => {
                self.failed = true;
                None
            },
        }
    }
}

/// How many rounds a loop configured for `n` rounds completes against the
/// probe outcomes `evs`: it stops at `n`, or at the first failed probe,
/// whichever comes first.
pub open spec fn rounds_completed(n: int, evs: Seq<ProbeEvent>) -> int
    decreases n,
{
    if n <= 0 || evs.len() == 0 {
        0
    } else if evs[0] is Failed {
        0
    } else {
        1 + rounds_completed(n - 1, evs.drop_first())
    }
}

/// When every probe is acknowledged and enough outcomes are available, a
/// loop configured for `n` rounds completes exactly `n` rounds.
pub proof fn lemma_all_acks_complete(n: int, evs: Seq<ProbeEvent>)
    requires
        0 <= n <= evs.len(),
        forall|i: int| 0 <= i < n ==> evs[i] is Ack,
    ensures
        rounds_completed(n, evs) == n,
    decreases n,
{
    if n > 0 {
        assert(evs[0] is Ack);
        assert(forall|i: int| 0 <= i < n - 1 ==> evs.drop_first()[i] == evs[i + 1]);
        lemma_all_acks_complete(n - 1, evs.drop_first());
    }
}

/// When the peer ends the session after round `k < n` — the first `k`
/// probes are acknowledged and probe `k` fails — the loop completes exactly
/// `k` rounds: never a partial `k+1`-th.
pub proof fn lemma_peer_close_truncates(n: int, k: int, evs: Seq<ProbeEvent>)
    requires
        0 <= k < n,
        k < evs.len(),
        forall|i: int| 0 <= i < k ==> evs[i] is Ack,
        evs[k] is Failed,
    ensures
        rounds_completed(n, evs) == k,
    decreases k,
{
    if k == 0 {
    } else {
        assert(evs[0] is Ack);
        assert(forall|i: int| 0 <= i < evs.len() - 1 ==> evs.drop_first()[i] == evs[i + 1]);
        lemma_peer_close_truncates(n - 1, k - 1, evs.drop_first());
    }
}

/// Drive a whole measurement sequence against a fixed list of probe
/// outcomes, collecting every report in order. Returns the reports and
/// whether the loop completed its full round count.
///
/// For every configured count `n` and outcomes `evs`, exactly
/// `rounds_completed(n, evs)` reports come out, in increasing round order
/// starting at 1, each carrying the elapsed time of its acknowledgment.
pub fn run_rounds(n: u64, evs: &Vec<ProbeEvent>) -> (out: (Vec<RoundReport>, bool))
    requires
        n <= evs@.len() || (exists|i: int| 0 <= i < evs@.len() && evs@[i] is Failed),
    ensures
        out.0@.len() == rounds_completed(n as int, evs@),
        forall|i: int|
            0 <= i < out.0@.len() ==> out.0@[i] == (RoundReport {
                round: (i + 1) as u64,
                nanos: ack_nanos(evs@[i]),
            }),
        out.1 == (rounds_completed(n as int, evs@) == n),
{
    let mut lp = ProbeLoop::new(Some(n));
    let mut reports: Vec<RoundReport> = Vec::new();
    let mut i: usize = 0;
    while i < evs.len() && lp.done < n && !lp.failed
        invariant
            lp.count == Some(n),
            lp.wf(),
            0 <= i <= evs@.len(),
            lp.done <= i,
            !lp.failed ==> lp.done == i,
            lp.failed ==> lp.done == i - 1 && i >= 1 && evs@[i - 1] is Failed && lp.done < n,
            reports@.len() == lp.done,
            forall|j: int|
                0 <= j < reports@.len() ==> reports@[j] == (RoundReport {
                    round: (j + 1) as u64,
                    nanos: ack_nanos(evs@[j]),
                }),
            forall|j: int| 0 <= j < lp.done ==> evs@[j] is Ack,
            n <= evs@.len() || (exists|k: int| 0 <= k < evs@.len() && evs@[k] is Failed),
        decreases evs@.len() - i,
    {
        let r = lp.observe(evs[i]);
        match r {
            Some(rep) => {
                reports.push(rep);
            },
            None => {},
        }
        i = i + 1;
    }
    proof {
        if lp.failed {
            lemma_peer_close_truncates(n as int, lp.done as int, evs@);
        } else if lp.done == n {
            lemma_all_acks_complete(n as int, evs@);
        } else {
            // The outcomes ran out before `n` acknowledgments: impossible,
            // since either `n <= evs@.len()` or some outcome failed.
            assert(i == evs@.len());
            assert(lp.done == i);
            assert(i < n);
            let k = choose|k: int| 0 <= k < evs@.len() && evs@[k] is Failed;
            assert(evs@[k] is Ack);
            assert(false);
        }
    }
    let ok = !lp.failed && lp.done >= n;
    (reports, ok)
}

} // verus!
