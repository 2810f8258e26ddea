use h2ping::cancel::CancelSignal;
use h2ping::config::{build_run_config, TransportCLIConfig};
use h2ping::connect::{plan_connection, ConnectError, ConnectPlan};
use h2ping::coordinator::{Action, Coordinator, Event, Phase};
use h2ping::driver::{driver_step, driver_task_ok, DriverEvent, DriverState};
use h2ping::outcome::{decide_exit, exit_code, FailurePhase, ProcessOutcome, RaceWinner};
use h2ping::rounds::{ProbeEvent, RoundReport};

#[test]
fn full_run_of_three_rounds_succeeds() {
    // Destination "example.com:443", encryption on, count 3, interval 50ms:
    // one connection, one handshake, three acknowledged probes, one ordered
    // shutdown, exit status 0.
    let transport = TransportCLIConfig::new(true, String::from("example.com:443"));
    let cfg = build_run_config(transport, Some(3), Some("50ms")).unwrap();
    assert_eq!(cfg.interval_nanos, 50_000_000);
    let plan_cfg = TransportCLIConfig::new(cfg.tls, cfg.addr.clone());
    match plan_connection(&plan_cfg).unwrap() {
        ConnectPlan::Tls { host } => assert_eq!(host, "example.com"),
        ConnectPlan::Plain => panic!("expected a TLS plan"),
    }

    let mut co = Coordinator::new(cfg.count);
    assert_eq!(co.next_action(), Action::Connect);
    assert_eq!(co.handle(Event::Connected), None);
    assert_eq!(co.next_action(), Action::Handshake);
    assert_eq!(co.handle(Event::HandshakeOk), None);

    let mut reports = Vec::new();
    let durations = [5_000_000u64, 6_000_000, 7_000_000];
    for d in durations {
        assert_eq!(co.next_action(), Action::IssueProbe);
        assert!(!co.cancel.set);
        if let Some(r) = co.handle(Event::Probe { outcome: ProbeEvent::Ack { nanos: d } }) {
            reports.push(r);
        }
    }
    assert_eq!(
        reports,
        vec![
            RoundReport { round: 1, nanos: 5_000_000 },
            RoundReport { round: 2, nanos: 6_000_000 },
            RoundReport { round: 3, nanos: 7_000_000 },
        ]
    );

    assert_eq!(co.next_action(), Action::AwaitDriver);
    assert!(co.cancel.set);
    assert_eq!(co.handle(Event::DriverSettled), None);
    assert_eq!(co.next_action(), Action::Exit);
    assert_eq!(co.outcome, Some(ProcessOutcome::Success));
    assert_eq!(exit_code(&co.outcome.unwrap()), 0);
}

#[test]
fn unreachable_destination_fails_with_connect_context() {
    let mut co = Coordinator::new(Some(3));
    co.handle(Event::ConnectFailed { error: ConnectError::Network });
    assert_eq!(co.next_action(), Action::Exit);
    let out = co.outcome.unwrap();
    assert_eq!(out, ProcessOutcome::Failure { phase: FailurePhase::Connect });
    assert_eq!(exit_code(&out), 1);
    assert_eq!(FailurePhase::Connect.label(), "connect");
    // No probe was ever issued.
    assert_eq!(co.probes.done, 0);
}

#[test]
fn invalid_host_fails_before_any_probe() {
    let mut co = Coordinator::new(Some(3));
    co.handle(Event::ConnectFailed { error: ConnectError::InvalidHost });
    let out = co.outcome.unwrap();
    assert_eq!(out, ProcessOutcome::Failure { phase: FailurePhase::InvalidHost });
    assert_ne!(exit_code(&out), 0);
    assert_eq!(FailurePhase::InvalidHost.label(), "invalid host");
    assert_eq!(co.probes.done, 0);
}

#[test]
fn zero_count_run_exits_clean_with_zero_probes() {
    let mut co = Coordinator::new(Some(0));
    assert!(!co.cancel.set);
    co.handle(Event::Connected);
    assert!(!co.cancel.set);
    co.handle(Event::HandshakeOk);
    // The empty loop is already over: cancellation is set only now, after
    // the driver task was engaged, and no probe is ever issued.
    assert_eq!(co.phase, Phase::Draining);
    assert!(co.cancel.set);
    assert_eq!(co.probes.done, 0);
    co.handle(Event::DriverSettled);
    assert_eq!(co.outcome, Some(ProcessOutcome::Success));
    assert_eq!(exit_code(&co.outcome.unwrap()), 0);
}

#[test]
fn probe_failure_after_two_rounds_reports_two_and_fails() {
    let mut co = Coordinator::new(Some(5));
    co.handle(Event::Connected);
    co.handle(Event::HandshakeOk);
    let r1 = co.handle(Event::Probe { outcome: ProbeEvent::Ack { nanos: 40 } });
    let r2 = co.handle(Event::Probe { outcome: ProbeEvent::Ack { nanos: 41 } });
    assert_eq!(r1, Some(RoundReport { round: 1, nanos: 40 }));
    assert_eq!(r2, Some(RoundReport { round: 2, nanos: 41 }));
    let r3 = co.handle(Event::Probe { outcome: ProbeEvent::Failed });
    assert_eq!(r3, None);
    // The loop stopped; the driver is cancelled and awaited before exit.
    assert_eq!(co.phase, Phase::Draining);
    assert!(co.cancel.set);
    co.handle(Event::DriverSettled);
    let out = co.outcome.unwrap();
    assert_eq!(out, ProcessOutcome::Failure { phase: FailurePhase::PingPong });
    assert_eq!(FailurePhase::PingPong.label(), "ping pong");
    assert_ne!(exit_code(&out), 0);
}

#[test]
fn driver_death_abandons_the_loop_and_surfaces_its_error() {
    let mut co = Coordinator::new(Some(5));
    co.handle(Event::Connected);
    co.handle(Event::HandshakeOk);
    co.handle(Event::Probe { outcome: ProbeEvent::Ack { nanos: 40 } });
    co.handle(Event::DriverDied { clean: false });
    // Immediate termination: no cancellation round-trip in this path.
    assert!(!co.cancel.set);
    let out = co.outcome.unwrap();
    assert_eq!(out, ProcessOutcome::Failure { phase: FailurePhase::ConnectionDriver });
    assert_eq!(FailurePhase::ConnectionDriver.label(), "connection driver");
    assert_eq!(co.probes.done, 1);
}

#[test]
fn handshake_failure_has_handshake_context() {
    let mut co = Coordinator::new(None);
    co.handle(Event::Connected);
    co.handle(Event::HandshakeFailed);
    assert_eq!(co.outcome, Some(ProcessOutcome::Failure { phase: FailurePhase::Handshake }));
    assert_eq!(FailurePhase::Handshake.label(), "handshake");
    assert_eq!(FailurePhase::TlsHandshake.label(), "TLS connect");
}

#[test]
fn accepts_event_guards_each_phase() {
    let mut co = Coordinator::new(Some(1));
    assert!(co.accepts_event(&Event::Connected));
    assert!(!co.accepts_event(&Event::Probe { outcome: ProbeEvent::Failed }));
    co.handle(Event::Connected);
    assert!(!co.accepts_event(&Event::Connected));
    assert!(co.accepts_event(&Event::HandshakeOk));
    co.handle(Event::HandshakeOk);
    assert!(co.accepts_event(&Event::DriverDied { clean: true }));
    co.handle(Event::DriverDied { clean: true });
    // Terminal: nothing is accepted any more.
    assert!(!co.accepts_event(&Event::DriverSettled));
    assert!(!co.accepts_event(&Event::Connected));
}

#[test]
fn cancellation_is_idempotent() {
    let mut once = CancelSignal::new();
    once.cancel();
    let mut twice = CancelSignal::new();
    twice.cancel();
    twice.cancel();
    assert_eq!(once, twice);
    assert!(once.is_cancelled());
}

#[test]
fn driver_race_resolution() {
    let s = driver_step(DriverState::Running, DriverEvent::CancelObserved);
    assert_eq!(s, DriverState::Cancelled);
    assert!(driver_task_ok(s));
    let s = driver_step(DriverState::Running, DriverEvent::SessionEnded { clean: true });
    assert_eq!(s, DriverState::CompletedOk);
    assert!(driver_task_ok(s));
    let s = driver_step(DriverState::Running, DriverEvent::SessionEnded { clean: false });
    assert_eq!(s, DriverState::CompletedErr);
    assert!(!driver_task_ok(s));
}

#[test]
fn arbitration_masks_driver_error_in_loop_first_path() {
    assert_eq!(decide_exit(RaceWinner::LoopFinished { probe_ok: true }), ProcessOutcome::Success);
    assert_eq!(
        decide_exit(RaceWinner::LoopFinished { probe_ok: false }),
        ProcessOutcome::Failure { phase: FailurePhase::PingPong }
    );
    assert_eq!(
        decide_exit(RaceWinner::DriverFinished { clean: false }),
        ProcessOutcome::Failure { phase: FailurePhase::ConnectionDriver }
    );
    assert_eq!(
        decide_exit(RaceWinner::DriverFinished { clean: true }),
        ProcessOutcome::Failure { phase: FailurePhase::ConnectionDriver }
    );
}
