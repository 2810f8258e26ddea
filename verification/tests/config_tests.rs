use h2ping::config::{build_run_config, ConfigError, TransportCLIConfig, DEFAULT_INTERVAL_NANOS};

#[test]
fn transport_config_keeps_fields() {
    let c = TransportCLIConfig::new(true, String::from("example.com:443"));
    assert!(c.tls);
    assert_eq!(c.addr, "example.com:443");
}

#[test]
fn interval_defaults_to_100ms() {
    let t = TransportCLIConfig::new(false, String::from("localhost:8080"));
    let c = build_run_config(t, Some(3), None).unwrap();
    assert_eq!(c.interval_nanos, 100_000_000);
    assert_eq!(c.interval_nanos, DEFAULT_INTERVAL_NANOS);
    assert_eq!(c.count, Some(3));
    assert!(!c.tls);
    assert_eq!(c.addr, "localhost:8080");
}

#[test]
fn interval_50ms_parses() {
    let t = TransportCLIConfig::new(true, String::from("example.com:443"));
    let c = build_run_config(t, Some(3), Some("50ms")).unwrap();
    assert_eq!(c.interval_nanos, 50_000_000);
}

#[test]
fn interval_compound_duration_parses() {
    let t = TransportCLIConfig::new(false, String::from("h"));
    let c = build_run_config(t, None, Some("2h 37min")).unwrap();
    assert_eq!(c.interval_nanos, 9_420_000_000_000);
    assert_eq!(c.count, None);
}

#[test]
fn interval_zero_parses() {
    let t = TransportCLIConfig::new(false, String::from("h"));
    let c = build_run_config(t, Some(1), Some("0")).unwrap();
    assert_eq!(c.interval_nanos, 0);
}

#[test]
fn bad_interval_is_rejected() {
    let t = TransportCLIConfig::new(false, String::from("h"));
    let e = build_run_config(t, Some(1), Some("soon")).unwrap_err();
    assert_eq!(e, ConfigError::InvalidInterval);
}

#[test]
fn interval_that_would_abort_the_parser_is_rejected_up_front() {
    // u64::MAX seconds followed by exactly one second of nanoseconds drives
    // the duration parser's seconds counter to its maximum, where the final
    // carry aborts; the digit budget rejects the string before the parser
    // is ever consulted.
    let t = TransportCLIConfig::new(false, String::from("h"));
    let e = build_run_config(t, Some(1), Some("18446744073709551615s 1000000000ns")).unwrap_err();
    assert_eq!(e, ConfigError::InvalidInterval);
}

#[test]
fn interval_at_the_digit_budget_is_accepted() {
    let t = TransportCLIConfig::new(false, String::from("h"));
    let c = build_run_config(t, Some(1), Some("10000000000s")).unwrap();
    assert_eq!(c.interval_nanos, 10_000_000_000_000_000_000);
}

#[test]
fn interval_over_the_digit_budget_is_rejected() {
    let t = TransportCLIConfig::new(false, String::from("h"));
    let e = build_run_config(t, Some(1), Some("100000000000ms")).unwrap_err();
    assert_eq!(e, ConfigError::InvalidInterval);
}
