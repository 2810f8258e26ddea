//! Whole-run laws: what a run of the lifecycle coordinator reports and how
//! it exits, for every round count and every sequence of probe outcomes.

use vstd::prelude::*;

use crate::coordinator::Coordinator;
use crate::coordinator::Event;
use crate::coordinator::initial;
use crate::outcome::FailurePhase;
use crate::outcome::ProcessOutcome;
use crate::rounds::ProbeEvent;
use crate::rounds::RoundReport;

verus! {

/// The state a sequence of events drives the coordinator to.
pub open spec fn run_steps(s: Coordinator, evs: Seq<Event>) -> Coordinator
    decreases evs.len(),
{
    if evs.len() == 0 {
        s
    } else {
        run_steps(s.spec_step(evs[0]), evs.drop_first())
    }
}

/// Every report a sequence of events produces, in order.
pub open spec fn run_reports(s: Coordinator, evs: Seq<Event>) -> Seq<RoundReport>
    decreases evs.len(),
{
    if evs.len() == 0 {
        Seq::empty()
    } else {
        let head: Seq<RoundReport> = match s.spec_step_report(evs[0]) {
            Some(r) => seq![r],
            None => Seq::empty(),
        };
        head + run_reports(s.spec_step(evs[0]), evs.drop_first())
    }
}

/// One probe-acknowledgment event per measured duration.
pub open spec fn ack_events(durs: Seq<u64>) -> Seq<Event> {
    Seq::new(durs.len(), |i: int| Event::Probe { outcome: ProbeEvent::Ack { nanos: durs[i] } })
}

/// Running a concatenation runs the two parts in order.
pub proof fn lemma_run_steps_concat(s: Coordinator, a: Seq<Event>, b: Seq<Event>)
    ensures
        run_steps(s, a + b) == run_steps(run_steps(s, a), b),
    decreases a.len(),
{
    if a.len() == 0 {
        assert(a + b =~= b);
    } else {
        assert((a + b)[0] == a[0]);
        assert((a + b).drop_first() =~= a.drop_first() + b);
        lemma_run_steps_concat(s.spec_step(a[0]), a.drop_first(), b);
    }
}

/// The reports of a concatenation are the two parts' reports in order.
pub proof fn lemma_run_reports_concat(s: Coordinator, a: Seq<Event>, b: Seq<Event>)
    ensures
        run_reports(s, a + b) == run_reports(s, a) + run_reports(run_steps(s, a), b),
    decreases a.len(),
{
    if a.len() == 0 {
        assert(a + b =~= b);
        assert(run_reports(s, a) + run_reports(run_steps(s, a), b) =~= run_reports(s, b));
    } else {
        assert((a + b)[0] == a[0]);
        assert((a + b).drop_first() =~= a.drop_first() + b);
        lemma_run_reports_concat(s.spec_step(a[0]), a.drop_first(), b);
        assert(run_reports(s, a + b) =~= run_reports(s, a) + run_reports(run_steps(s, a), b));
    }
}

/// While measuring, each acknowledged probe completes one round and
/// produces its report; the round that reaches the configured count stops
/// the loop and sets the cancellation signal.
pub proof fn lemma_acks_progress(s: Coordinator, n: u64, durs: Seq<u64>)
    requires
        s.wf(),
        s.phase is Measuring,
        s.probes.count == Some(n),
        s.probes.done + durs.len() <= n,
    ensures
        ({
            let t = run_steps(s, ack_events(durs));
            &&& t.probes.count == Some(n)
            &&& t.probes.done == s.probes.done + durs.len()
            &&& !t.probes.failed
            &&& t.outcome is None
            &&& t.wf()
            &&& (s.probes.done + durs.len() < n ==> t.phase is Measuring && !t.cancel.set)
            &&& (s.probes.done + durs.len() == n ==> t.phase is Draining && t.cancel.set)
            &&& run_reports(s, ack_events(durs)) =~= Seq::new(
                durs.len(),
                |i: int| RoundReport { round: (s.probes.done + 1 + i) as u64, nanos: durs[i] },
            )
        }),
    decreases durs.len(),
{
    reveal_with_fuel(run_steps, 2);
    reveal_with_fuel(run_reports, 2);
    if durs.len() == 0 {
        assert(ack_events(durs) =~= Seq::<Event>::empty());
        assert(run_reports(s, ack_events(durs)) =~= Seq::new(
            durs.len(),
            |i: int| RoundReport { round: (s.probes.done + 1 + i) as u64, nanos: durs[i] },
        ));
    } else {
        let ev0 = Event::Probe { outcome: ProbeEvent::Ack { nanos: durs[0] } };
        let s1 = s.spec_step(ev0);
        let r0 = RoundReport { round: (s.probes.done + 1) as u64, nanos: durs[0] };
        assert(s.accepts(ev0));
        crate::coordinator::lemma_step_preserves_wf(s, ev0);
        assert(ack_events(durs)[0] == ev0);
        assert(ack_events(durs).drop_first() =~= ack_events(durs.drop_first()));
        assert(s.spec_step_report(ev0) == Some(r0));
        assert(run_steps(s, ack_events(durs)) == run_steps(s1, ack_events(durs.drop_first())));
        assert(run_reports(s, ack_events(durs)) == seq![r0] + run_reports(
            s1,
            ack_events(durs.drop_first()),
        ));
        if durs.len() == 1 && s.probes.done + 1 == n {
            assert(ack_events(durs.drop_first()) =~= Seq::<Event>::empty());
            assert(run_steps(s1, ack_events(durs.drop_first())) == s1);
            assert(run_reports(s1, ack_events(durs.drop_first())) =~= Seq::<RoundReport>::empty());
            assert(s1.phase is Draining);
        } else {
            assert(s.probes.done + 1 < n);
            assert(s1.phase is Measuring);
            lemma_acks_progress(s1, n, durs.drop_first());
            assert(forall|i: int| 0 <= i < durs.len() - 1 ==> durs.drop_first()[i] == durs[i + 1]);
        }
        assert(run_reports(s, ack_events(durs)) =~= Seq::new(
            durs.len(),
            |i: int| RoundReport { round: (s.probes.done + 1 + i) as u64, nanos: durs[i] },
        ));
    }
}

/// With no round count configured, the loop never stops on its own: any
/// number of acknowledged probes leaves the run measuring, the
/// cancellation signal unset, and one report produced per probe.
pub proof fn lemma_unbounded_run_keeps_measuring(s: Coordinator, durs: Seq<u64>)
    requires
        s.wf(),
        s.phase is Measuring,
        s.probes.count is None,
        s.probes.done + durs.len() <= u64::MAX,
    ensures
        ({
            let t = run_steps(s, ack_events(durs));
            &&& t.phase is Measuring
            &&& !t.cancel.set
            &&& t.probes.done == s.probes.done + durs.len()
            &&& !t.probes.failed
            &&& t.outcome is None
            &&& t.wf()
            &&& run_reports(s, ack_events(durs)) =~= Seq::new(
                durs.len(),
                |i: int| RoundReport { round: (s.probes.done + 1 + i) as u64, nanos: durs[i] },
            )
        }),
    decreases durs.len(),
{
    reveal_with_fuel(run_steps, 2);
    reveal_with_fuel(run_reports, 2);
    if durs.len() == 0 {
        assert(ack_events(durs) =~= Seq::<Event>::empty());
        assert(run_reports(s, ack_events(durs)) =~= Seq::new(
            durs.len(),
            |i: int| RoundReport { round: (s.probes.done + 1 + i) as u64, nanos: durs[i] },
        ));
    } else {
        let ev0 = Event::Probe { outcome: ProbeEvent::Ack { nanos: durs[0] } };
        let s1 = s.spec_step(ev0);
        let r0 = RoundReport { round: (s.probes.done + 1) as u64, nanos: durs[0] };
        assert(s.accepts(ev0));
        crate::coordinator::lemma_step_preserves_wf(s, ev0);
        assert(ack_events(durs)[0] == ev0);
        assert(ack_events(durs).drop_first() =~= ack_events(durs.drop_first()));
        assert(s.spec_step_report(ev0) == Some(r0));
        assert(run_steps(s, ack_events(durs)) == run_steps(s1, ack_events(durs.drop_first())));
        assert(run_reports(s, ack_events(durs)) == seq![r0] + run_reports(
            s1,
            ack_events(durs.drop_first()),
        ));
        lemma_unbounded_run_keeps_measuring(s1, durs.drop_first());
        assert(forall|i: int| 0 <= i < durs.len() - 1 ==> durs.drop_first()[i] == durs[i + 1]);
        assert(run_reports(s, ack_events(durs)) =~= Seq::new(
            durs.len(),
            |i: int| RoundReport { round: (s.probes.done + 1 + i) as u64, nanos: durs[i] },
        ));
    }
}

/// The reports all successful runs owe: one per round, numbered 1 upward,
/// each carrying its probe's measured duration.
pub open spec fn expected_reports(durs: Seq<u64>) -> Seq<RoundReport> {
    Seq::new(durs.len(), |i: int| RoundReport { round: (i + 1) as u64, nanos: durs[i] })
}

/// For every configured round count `n`, a run whose every probe is
/// acknowledged reports exactly `n` measurements — in increasing round
/// order starting at 1, each carrying its probe's elapsed time — and exits
/// with success.
pub proof fn lemma_successful_run(n: u64, durs: Seq<u64>)
    requires
        durs.len() == n,
    ensures
        ({
            let evs = seq![Event::Connected, Event::HandshakeOk] + ack_events(durs) + seq![
                Event::DriverSettled,
            ];
            let t = run_steps(initial(Some(n)), evs);
            let reports = run_reports(initial(Some(n)), evs);
            &&& t.phase is Done
            &&& t.outcome == Some(ProcessOutcome::Success)
            &&& reports == expected_reports(durs)
            &&& reports.len() == n
            &&& forall|i: int| 0 <= i < n ==> #[trigger] reports[i].round == i + 1
            &&& (forall|i: int| 0 <= i < n ==> durs[i] > 0) ==> (forall|i: int|
                0 <= i < n ==> #[trigger] reports[i].nanos > 0)
        }),
{
    reveal_with_fuel(run_steps, 4);
    reveal_with_fuel(run_reports, 4);
    let s0 = initial(Some(n));
    let pre = seq![Event::Connected, Event::HandshakeOk];
    let evs = pre + ack_events(durs) + seq![Event::DriverSettled];
    let s1 = s0.spec_step(Event::Connected);
    let s2 = s1.spec_step(Event::HandshakeOk);
    assert(pre[0] == Event::Connected);
    assert(pre.drop_first() =~= seq![Event::HandshakeOk]);
    assert(seq![Event::HandshakeOk].drop_first() =~= Seq::<Event>::empty());
    assert(run_steps(s0, pre) == s2);
    assert(run_reports(s0, pre) =~= Seq::<RoundReport>::empty());
    lemma_run_steps_concat(s0, pre, ack_events(durs));
    lemma_run_reports_concat(s0, pre, ack_events(durs));
    let mid = run_steps(s0, pre + ack_events(durs));
    if n == 0 {
        assert(ack_events(durs) =~= Seq::<Event>::empty());
        assert(mid == s2);
    } else {
        crate::coordinator::lemma_step_preserves_wf(s0, Event::Connected);
        crate::coordinator::lemma_step_preserves_wf(s1, Event::HandshakeOk);
        lemma_acks_progress(s2, n, durs);
    }
    lemma_run_steps_concat(s0, pre + ack_events(durs), seq![Event::DriverSettled]);
    lemma_run_reports_concat(s0, pre + ack_events(durs), seq![Event::DriverSettled]);
    assert((pre + ack_events(durs) + seq![Event::DriverSettled]) =~= evs);
    assert(seq![Event::DriverSettled].drop_first() =~= Seq::<Event>::empty());
    assert(run_reports(mid, seq![Event::DriverSettled]) =~= Seq::<RoundReport>::empty());
    assert(run_reports(s0, evs) =~= expected_reports(durs));
}

/// A run of zero configured rounds performs the handshake, issues no
/// probe, leaves the cancellation signal unset until the driver task is
/// engaged, and exits with success.
pub proof fn lemma_zero_count_run()
    ensures
        ({
            let s0 = initial(Some(0));
            let s1 = s0.spec_step(Event::Connected);
            let s2 = s1.spec_step(Event::HandshakeOk);
            let s3 = s2.spec_step(Event::DriverSettled);
            &&& !s0.cancel.set && !s1.cancel.set
            &&& s2.phase is Draining && s2.cancel.set
            &&& s2.probes.done == 0
            &&& s3.outcome == Some(ProcessOutcome::Success)
        }),
{
}

/// If the peer ends the session after round `k < n` — either the `k+1`-th
/// probe fails, or the driver task dies first — the run reports exactly the
/// `k` completed rounds, never a partial `k+1`-th, and exits with a
/// probe- or driver-classed failure.
pub proof fn lemma_peer_close_run(n: u64, durs: Seq<u64>, via_driver: bool, clean: bool)
    requires
        durs.len() < n,
    ensures
        ({
            let tail: Seq<Event> = if via_driver {
                seq![Event::DriverDied { clean }]
            } else {
                seq![Event::Probe { outcome: ProbeEvent::Failed }, Event::DriverSettled]
            };
            let evs = seq![Event::Connected, Event::HandshakeOk] + ack_events(durs) + tail;
            let t = run_steps(initial(Some(n)), evs);
            &&& t.phase is Done
            &&& t.outcome == Some(
                ProcessOutcome::Failure {
                    phase: if via_driver {
                        FailurePhase::ConnectionDriver
                    } else {
                        FailurePhase::PingPong
                    },
                },
            )
            &&& run_reports(initial(Some(n)), evs) == expected_reports(durs)
        }),
{
    reveal_with_fuel(run_steps, 4);
    reveal_with_fuel(run_reports, 4);
    let s0 = initial(Some(n));
    let pre = seq![Event::Connected, Event::HandshakeOk];
    let tail: Seq<Event> = if via_driver {
        seq![Event::DriverDied { clean }]
    } else {
        seq![Event::Probe { outcome: ProbeEvent::Failed }, Event::DriverSettled]
    };
    let evs = pre + ack_events(durs) + tail;
    let s1 = s0.spec_step(Event::Connected);
    let s2 = s1.spec_step(Event::HandshakeOk);
    assert(pre[0] == Event::Connected);
    assert(pre.drop_first() =~= seq![Event::HandshakeOk]);
    assert(seq![Event::HandshakeOk].drop_first() =~= Seq::<Event>::empty());
    assert(run_steps(s0, pre) == s2);
    assert(run_reports(s0, pre) =~= Seq::<RoundReport>::empty());
    crate::coordinator::lemma_step_preserves_wf(s0, Event::Connected);
    crate::coordinator::lemma_step_preserves_wf(s1, Event::HandshakeOk);
    assert(s2.phase is Measuring);
    lemma_run_steps_concat(s0, pre, ack_events(durs));
    lemma_run_reports_concat(s0, pre, ack_events(durs));
    lemma_acks_progress(s2, n, durs);
    let mid = run_steps(s0, pre + ack_events(durs));
    assert(mid.phase is Measuring);
    lemma_run_steps_concat(s0, pre + ack_events(durs), tail);
    lemma_run_reports_concat(s0, pre + ack_events(durs), tail);
    assert((pre + ack_events(durs) + tail) =~= evs);
    if via_driver {
        assert(tail.drop_first() =~= Seq::<Event>::empty());
        assert(run_reports(mid, tail) =~= Seq::<RoundReport>::empty());
    } else {
        let m1 = mid.spec_step(Event::Probe { outcome: ProbeEvent::Failed });
        assert(tail.drop_first() =~= seq![Event::DriverSettled]);
        assert(seq![Event::DriverSettled].drop_first() =~= Seq::<Event>::empty());
        assert(run_steps(mid, tail) == m1.spec_step(Event::DriverSettled));
        assert(run_reports(mid, tail) =~= Seq::<RoundReport>::empty());
    }
    assert(run_reports(s0, evs) =~= expected_reports(durs));
}

} // verus!
