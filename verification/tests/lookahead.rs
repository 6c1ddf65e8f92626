use tls_lookahead::clock::{ShiftedClock, SECONDS_PER_DAY};
use tls_lookahead::config::{ConfigError, RunConfig, CONNECT_TIMEOUT_SECS};
use tls_lookahead::outcome::{domain_failure, DomainResult, Failure, FailureKind, Outcome};
use tls_lookahead::profile::{profiles, ProfileKind};
use tls_lookahead::report::RunReport;

fn handshake_failure(detail: &str) -> Outcome {
    Outcome::Failure(Failure { kind: FailureKind::Handshake, detail: detail.to_string() })
}

#[test]
fn clock_offset_is_days_in_seconds() {
    assert_eq!(SECONDS_PER_DAY, 86400);
    assert_eq!(ShiftedClock::new(0).offset_secs, 0);
    assert_eq!(ShiftedClock::new(30).offset_secs, 2_592_000);
    assert_eq!(ShiftedClock::new(u32::MAX).offset_secs, 4_294_967_295u64 * 86400);
}

#[test]
fn shift_advances_by_exactly_the_offset() {
    let clock = ShiftedClock::new(30);
    assert_eq!(clock.shift(1_700_000_000), Some(1_702_592_000));
    assert_eq!(clock.shift(0), Some(2_592_000));
}

#[test]
fn zero_offset_shift_is_identity() {
    let clock = ShiftedClock::new(0);
    assert_eq!(clock.shift(1_700_000_000), Some(1_700_000_000));
    assert_eq!(clock.shift(u64::MAX), Some(u64::MAX));
}

#[test]
fn unrepresentable_shift_is_refused() {
    let clock = ShiftedClock::new(1);
    assert_eq!(clock.shift(u64::MAX - 10), None);
}

#[test]
fn profiles_enumerates_modern_then_legacy() {
    assert_eq!(
        profiles(false),
        vec![ProfileKind::ModernDefaults, ProfileKind::Tls12Rsa],
    );
}

#[test]
fn skipping_legacy_leaves_only_modern() {
    assert_eq!(profiles(true), vec![ProfileKind::ModernDefaults]);
}

#[test]
fn profile_labels() {
    assert_eq!(ProfileKind::ModernDefaults.label(), "modern defaults");
    assert_eq!(ProfileKind::Tls12Rsa.label(), "tls12 rsa");
}

#[test]
fn config_rejects_empty_domain_list() {
    let r = RunConfig::new(Vec::new(), 7, false);
    assert!(matches!(r, Err(ConfigError::NoDomains)));
}

#[test]
fn config_keeps_inputs_unchanged() {
    let cfg = RunConfig::new(vec!["example.com".to_string()], 30, true).unwrap();
    assert_eq!(cfg.domains, vec!["example.com".to_string()]);
    assert_eq!(cfg.days, 30);
    assert!(cfg.modern_defaults_only);
    assert_eq!(cfg.clock().offset_secs, 2_592_000);
    assert_eq!(CONNECT_TIMEOUT_SECS, 10);
}

#[test]
fn unresolved_name_is_a_resolution_failure() {
    let out = domain_failure(DomainResult::Unresolved("name does not resolve".to_string()));
    let failure = out.expect("an unresolved domain must fail");
    assert_eq!(failure.kind, FailureKind::Resolution);
    assert_ne!(failure.kind, FailureKind::Handshake);
    assert_eq!(failure.detail, "name does not resolve");
}

#[test]
fn empty_address_set_is_a_resolution_failure() {
    let out = domain_failure(DomainResult::Attempted(Vec::new()));
    let failure = out.expect("a domain with no address must fail");
    assert_eq!(failure.kind, FailureKind::Resolution);
    assert_eq!(failure.detail, "no addresses resolved");
}

#[test]
fn all_addresses_passing_passes_the_domain() {
    let out = domain_failure(DomainResult::Attempted(vec![Outcome::Success, Outcome::Success]));
    assert!(out.is_none());
}

#[test]
fn one_failing_address_fails_the_domain() {
    let out = domain_failure(DomainResult::Attempted(vec![
        Outcome::Success,
        handshake_failure("certificate expired"),
    ]));
    let failure = out.expect("one failing address must fail the domain");
    assert_eq!(failure.kind, FailureKind::Handshake);
    assert_eq!(failure.detail, "certificate expired");
}

#[test]
fn the_first_failing_address_is_reported() {
    let out = domain_failure(DomainResult::Attempted(vec![
        Outcome::Success,
        Outcome::Failure(Failure { kind: FailureKind::Connection, detail: "timed out".to_string() }),
        handshake_failure("certificate expired"),
    ]));
    let failure = out.expect("failing addresses must fail the domain");
    assert_eq!(failure.kind, FailureKind::Connection);
    assert_eq!(failure.detail, "timed out");
}

#[test]
fn a_transport_error_mid_handshake_fails_the_domain() {
    let out = domain_failure(DomainResult::Attempted(vec![Outcome::Failure(Failure {
        kind: FailureKind::Io,
        detail: "connection reset by peer".to_string(),
    })]));
    let failure = out.expect("a transport error must fail the domain");
    assert_eq!(failure.kind, FailureKind::Io);
    assert_eq!(failure.detail, "connection reset by peer");
}

#[test]
fn thirty_day_run_reports_exactly_the_expiring_domain() {
    let mut report = RunReport::new();
    report.record(
        "good.example",
        ProfileKind::ModernDefaults,
        30,
        DomainResult::Attempted(vec![Outcome::Success]),
    );
    report.record(
        "soon-expiring.example",
        ProfileKind::ModernDefaults,
        30,
        DomainResult::Attempted(vec![handshake_failure("certificate expired")]),
    );
    assert_eq!(report.exit_code(), 1);
    assert!(!report.all_passed());
    assert_eq!(report.failures.len(), 1);
    assert_eq!(report.failures[0].domain, "soon-expiring.example");
    assert_eq!(report.failures[0].profile, ProfileKind::ModernDefaults);
    assert_eq!(report.failures[0].days, 30);
    assert_eq!(report.failures[0].failure.detail, "certificate expired");
}

#[test]
fn clean_run_exits_zero_with_no_output() {
    let mut report = RunReport::new();
    report.record(
        "good.example",
        ProfileKind::ModernDefaults,
        0,
        DomainResult::Attempted(vec![Outcome::Success]),
    );
    report.record(
        "good.example",
        ProfileKind::Tls12Rsa,
        0,
        DomainResult::Attempted(vec![Outcome::Success]),
    );
    assert_eq!(report.exit_code(), 0);
    assert!(report.all_passed());
    assert!(report.failures.is_empty());
}

#[test]
fn unresolved_domain_still_fails_the_run() {
    let mut report = RunReport::new();
    report.record(
        "no-such-name.example",
        ProfileKind::ModernDefaults,
        0,
        DomainResult::Unresolved("name does not resolve".to_string()),
    );
    assert_eq!(report.exit_code(), 1);
    assert_eq!(report.failures.len(), 1);
    assert_eq!(report.failures[0].failure.kind, FailureKind::Resolution);
}

#[test]
fn repeating_a_check_reports_it_identically_again() {
    let mut report = RunReport::new();
    for _ in 0..2 {
        report.record(
            "soon-expiring.example",
            ProfileKind::ModernDefaults,
            30,
            DomainResult::Attempted(vec![handshake_failure("certificate expired")]),
        );
    }
    assert_eq!(report.failures.len(), 2);
    assert_eq!(report.failures[0].domain, report.failures[1].domain);
    assert_eq!(report.failures[0].profile, report.failures[1].profile);
    assert_eq!(report.failures[0].days, report.failures[1].days);
    assert_eq!(report.failures[0].failure.kind, report.failures[1].failure.kind);
    assert_eq!(report.failures[0].failure.detail, report.failures[1].failure.detail);
}

#[test]
fn legacy_checks_do_not_alter_modern_lines() {
    let record_modern = |report: &mut RunReport| {
        report.record(
            "failing.example",
            ProfileKind::ModernDefaults,
            7,
            DomainResult::Attempted(vec![handshake_failure("certificate expired")]),
        );
        report.record(
            "good.example",
            ProfileKind::ModernDefaults,
            7,
            DomainResult::Attempted(vec![Outcome::Success]),
        );
    };

    let mut modern_only = RunReport::new();
    record_modern(&mut modern_only);

    let mut full = RunReport::new();
    record_modern(&mut full);
    full.record(
        "failing.example",
        ProfileKind::Tls12Rsa,
        7,
        DomainResult::Unresolved("name does not resolve".to_string()),
    );
    full.record(
        "good.example",
        ProfileKind::Tls12Rsa,
        7,
        DomainResult::Attempted(vec![Outcome::Success]),
    );

    let modern_of_full: Vec<_> = full
        .failures
        .iter()
        .filter(|l| l.profile == ProfileKind::ModernDefaults)
        .collect();
    assert_eq!(modern_of_full.len(), modern_only.failures.len());
    for (a, b) in modern_of_full.iter().zip(modern_only.failures.iter()) {
        assert_eq!(a.domain, b.domain);
        assert_eq!(a.days, b.days);
        assert_eq!(a.failure.kind, b.failure.kind);
        assert_eq!(a.failure.detail, b.failure.detail);
    }
}
