use dapr_statestore::config::{
    health_url, parse_port, render_u16, resolve_port, resolve_store_name,
};
use dapr_statestore::errors::{ConfigError, ConnectError};
use dapr_statestore::retry::{
    connect_run, dial_run, dial_step, probe_run, probe_step, DialStep, ProbeOutcome, ProbeStep,
};
use dapr_statestore::store::{decode_get_response, StateStoreModel};

fn probes(failures: usize, outcome: ProbeOutcome, tail: ProbeOutcome) -> Vec<ProbeOutcome> {
    let mut v = vec![outcome; failures];
    while v.len() < 10 {
        v.push(tail);
    }
    v
}

#[test]
fn parse_port_accepts_plain_decimal() {
    assert_eq!(parse_port("3500"), Ok(3500));
    assert_eq!(parse_port("0"), Ok(0));
    assert_eq!(parse_port("65535"), Ok(65535));
}

#[test]
fn parse_port_accepts_sign_and_leading_zeros() {
    assert_eq!(parse_port("+80"), Ok(80));
    assert_eq!(parse_port("00443"), Ok(443));
}

#[test]
fn parse_port_rejects_empty_and_sign_only() {
    assert_eq!(parse_port(""), Err(ConfigError::MalformedPort));
    assert_eq!(parse_port("+"), Err(ConfigError::MalformedPort));
}

#[test]
fn parse_port_rejects_non_digits() {
    assert_eq!(parse_port("35o0"), Err(ConfigError::MalformedPort));
    assert_eq!(parse_port(" 3500"), Err(ConfigError::MalformedPort));
    assert_eq!(parse_port("3500 "), Err(ConfigError::MalformedPort));
    assert_eq!(parse_port("-80"), Err(ConfigError::MalformedPort));
}

#[test]
fn parse_port_rejects_out_of_range() {
    assert_eq!(parse_port("65536"), Err(ConfigError::MalformedPort));
    assert_eq!(parse_port("99999999999999999999"), Err(ConfigError::MalformedPort));
}

#[test]
fn parse_port_agrees_with_std() {
    for text in ["3500", "+080", "65535", "65536", "", "+", "1x", "007"] {
        let expected = text.parse::<u16>().ok();
        assert_eq!(parse_port(text).ok(), expected, "on {:?}", text);
    }
}

#[test]
fn resolve_port_missing_is_configuration_error() {
    assert_eq!(resolve_port(None), Err(ConfigError::MissingPort));
    let t = String::from("3500");
    assert_eq!(resolve_port(Some(&t)), Ok(3500));
}

#[test]
fn rendered_port_parses_back() {
    for n in [0u16, 1, 9, 10, 80, 443, 3500, 65535] {
        assert_eq!(parse_port(&render_u16(n)), Ok(n));
        assert_eq!(render_u16(n), n.to_string());
    }
}

#[test]
fn health_url_names_local_outbound_endpoint() {
    assert_eq!(health_url(3500), "http://localhost:3500/v1.0/healthz/outbound");
    assert_eq!(health_url(80), "http://localhost:80/v1.0/healthz/outbound");
}

#[test]
fn store_name_defaults_without_override() {
    assert_eq!(resolve_store_name(None), "drasi-state");
}

#[test]
fn store_name_takes_override() {
    assert_eq!(resolve_store_name(Some(String::from("custom"))), "custom");
}

#[test]
fn probe_step_edges() {
    assert_eq!(probe_step(0, ProbeOutcome::Healthy), ProbeStep::Ready);
    assert_eq!(probe_step(9, ProbeOutcome::Healthy), ProbeStep::Ready);
    assert_eq!(probe_step(8, ProbeOutcome::Unreachable), ProbeStep::RetryAfterDelay);
    assert_eq!(probe_step(9, ProbeOutcome::NotReady), ProbeStep::GiveUp);
}

#[test]
fn probe_nine_failures_then_success() {
    let outcomes = probes(9, ProbeOutcome::Unreachable, ProbeOutcome::Healthy);
    assert_eq!(probe_run(&outcomes), Ok(9));
}

#[test]
fn probe_ten_failures_times_out() {
    let outcomes = probes(10, ProbeOutcome::Unreachable, ProbeOutcome::Healthy);
    assert_eq!(probe_run(&outcomes), Err(ConnectError::ProbeTimedOut));
}

#[test]
fn probe_counts_bad_status_like_no_response() {
    let outcomes = probes(10, ProbeOutcome::NotReady, ProbeOutcome::Healthy);
    assert_eq!(probe_run(&outcomes), Err(ConnectError::ProbeTimedOut));
    let mixed = probes(3, ProbeOutcome::NotReady, ProbeOutcome::Healthy);
    assert_eq!(probe_run(&mixed), Ok(3));
}

#[test]
fn dial_step_edges() {
    assert_eq!(dial_step(0, true), DialStep::UseConnection);
    assert_eq!(dial_step(3, false), DialStep::RetryAfterDelay);
    assert_eq!(dial_step(4, false), DialStep::GiveUp);
    assert_eq!(dial_step(4, true), DialStep::UseConnection);
}

#[test]
fn dial_four_failures_then_success() {
    let outcomes = vec![false, false, false, false, true];
    assert_eq!(dial_run(&outcomes), Ok(4));
}

#[test]
fn dial_five_failures_is_fatal() {
    let outcomes = vec![false, false, false, false, false];
    assert_eq!(dial_run(&outcomes), Err(ConnectError::DialFailed));
}

#[test]
fn connect_succeeds_and_resolves_store_name() {
    let port = String::from("3500");
    let probe_outcomes = probes(2, ProbeOutcome::Unreachable, ProbeOutcome::Healthy);
    let dial_outcomes = vec![false, true, true, true, true];
    let cfg = connect_run(Some(&port), &probe_outcomes, &dial_outcomes, None).unwrap();
    assert_eq!(cfg.store_name, "drasi-state");
    let cfg = connect_run(
        Some(&port),
        &probe_outcomes,
        &dial_outcomes,
        Some(String::from("custom")),
    )
    .unwrap();
    assert_eq!(cfg.store_name, "custom");
}

#[test]
fn connect_probe_timeout_never_dials() {
    let port = String::from("3500");
    let probe_outcomes = probes(10, ProbeOutcome::Unreachable, ProbeOutcome::Healthy);
    let dial_outcomes = vec![true, true, true, true, true];
    let r = connect_run(Some(&port), &probe_outcomes, &dial_outcomes, None);
    assert!(matches!(r, Err(ConnectError::ProbeTimedOut)));
}

#[test]
fn connect_dial_exhaustion_is_fatal() {
    let port = String::from("3500");
    let probe_outcomes = probes(0, ProbeOutcome::Unreachable, ProbeOutcome::Healthy);
    let dial_outcomes = vec![false; 5];
    let r = connect_run(Some(&port), &probe_outcomes, &dial_outcomes, None);
    assert!(matches!(r, Err(ConnectError::DialFailed)));
}

#[test]
fn connect_bad_port_is_configuration_error() {
    let probe_outcomes = probes(0, ProbeOutcome::Unreachable, ProbeOutcome::Healthy);
    let dial_outcomes = vec![true; 5];
    let r = connect_run(None, &probe_outcomes, &dial_outcomes, None);
    assert!(matches!(r, Err(ConnectError::Configuration(ConfigError::MissingPort))));
    let bad = String::from("port");
    let r = connect_run(Some(&bad), &probe_outcomes, &dial_outcomes, None);
    assert!(matches!(r, Err(ConnectError::Configuration(ConfigError::MalformedPort))));
}

#[test]
fn decode_empty_payload_is_absent() {
    assert_eq!(decode_get_response(Vec::new()), None);
}

#[test]
fn decode_nonempty_payload_passes_through() {
    assert_eq!(decode_get_response(vec![0, 1, 2]), Some(vec![0, 1, 2]));
}

#[test]
fn put_then_get_roundtrips() {
    let mut store = StateStoreModel::new();
    store.put("alpha", vec![1, 2, 3]);
    assert_eq!(store.get("alpha"), Some(vec![1, 2, 3]));
}

#[test]
fn get_without_put_is_none() {
    let store = StateStoreModel::new();
    assert_eq!(store.get("alpha"), None);
}

#[test]
fn empty_put_reads_as_absent() {
    let mut store = StateStoreModel::new();
    store.put("alpha", Vec::new());
    assert_eq!(store.get("alpha"), None);
}

#[test]
fn delete_of_absent_identifier_succeeds() {
    let mut store = StateStoreModel::new();
    store.delete("alpha");
    assert_eq!(store.get("alpha"), None);
    store.put("alpha", vec![7]);
    store.delete("alpha");
    store.delete("alpha");
    assert_eq!(store.get("alpha"), None);
}

#[test]
fn last_write_wins_per_identifier() {
    let mut store = StateStoreModel::new();
    store.put("alpha", vec![1]);
    store.put("beta", vec![2]);
    store.put("alpha", vec![3]);
    assert_eq!(store.get("alpha"), Some(vec![3]));
    assert_eq!(store.get("beta"), Some(vec![2]));
}

#[test]
fn delete_leaves_other_identifiers() {
    let mut store = StateStoreModel::new();
    store.put("alpha", vec![1]);
    store.put("beta", vec![2]);
    store.delete("alpha");
    assert_eq!(store.get("alpha"), None);
    assert_eq!(store.get("beta"), Some(vec![2]));
}
