use h2ping::rounds::{run_rounds, ProbeEvent, ProbeLoop, RoundReport};

#[test]
fn three_acks_give_three_reports_in_order() {
    let evs = vec![
        ProbeEvent::Ack { nanos: 1_200_000 },
        ProbeEvent::Ack { nanos: 900_000 },
        ProbeEvent::Ack { nanos: 1_500_000 },
    ];
    let (reports, ok) = run_rounds(3, &evs);
    assert!(ok);
    assert_eq!(
        reports,
        vec![
            RoundReport { round: 1, nanos: 1_200_000 },
            RoundReport { round: 2, nanos: 900_000 },
            RoundReport { round: 3, nanos: 1_500_000 },
        ]
    );
}

#[test]
fn zero_rounds_give_zero_reports() {
    let evs: Vec<ProbeEvent> = Vec::new();
    let (reports, ok) = run_rounds(0, &evs);
    assert!(ok);
    assert!(reports.is_empty());
}

#[test]
fn failure_after_round_two_truncates_the_run() {
    let evs = vec![
        ProbeEvent::Ack { nanos: 700 },
        ProbeEvent::Ack { nanos: 800 },
        ProbeEvent::Failed,
        ProbeEvent::Ack { nanos: 900 },
    ];
    let (reports, ok) = run_rounds(5, &evs);
    assert!(!ok);
    assert_eq!(
        reports,
        vec![RoundReport { round: 1, nanos: 700 }, RoundReport { round: 2, nanos: 800 }]
    );
}

#[test]
fn immediate_failure_gives_no_report() {
    let evs = vec![ProbeEvent::Failed];
    let (reports, ok) = run_rounds(4, &evs);
    assert!(!ok);
    assert!(reports.is_empty());
}

#[test]
fn extra_outcomes_beyond_the_count_are_ignored() {
    let evs = vec![
        ProbeEvent::Ack { nanos: 5 },
        ProbeEvent::Ack { nanos: 6 },
        ProbeEvent::Failed,
    ];
    let (reports, ok) = run_rounds(2, &evs);
    assert!(ok);
    assert_eq!(reports.len(), 2);
}

#[test]
fn probe_loop_counts_rounds() {
    let mut lp = ProbeLoop::new(Some(2));
    assert!(lp.wants_probe_now());
    let r1 = lp.observe(ProbeEvent::Ack { nanos: 10 });
    assert_eq!(r1, Some(RoundReport { round: 1, nanos: 10 }));
    assert!(lp.wants_probe_now());
    let r2 = lp.observe(ProbeEvent::Ack { nanos: 20 });
    assert_eq!(r2, Some(RoundReport { round: 2, nanos: 20 }));
    assert!(!lp.wants_probe_now());
    assert!(!lp.failed);
}

#[test]
fn unbounded_loop_keeps_wanting_probes() {
    let mut lp = ProbeLoop::new(None);
    for i in 0..100u64 {
        assert!(lp.wants_probe_now());
        lp.observe(ProbeEvent::Ack { nanos: i });
    }
    assert!(lp.wants_probe_now());
    assert_eq!(lp.done, 100);
}

#[test]
fn failed_probe_aborts_the_loop() {
    let mut lp = ProbeLoop::new(None);
    let r = lp.observe(ProbeEvent::Failed);
    assert_eq!(r, None);
    assert!(lp.failed);
    assert!(!lp.wants_probe_now());
}
