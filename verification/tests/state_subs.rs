use greentic_telemetry::operation_subs::{MetricLabel, OperationSubsConfig};
use greentic_telemetry::state_subs::{
    emit_state_op_post, emit_state_op_pre, hash_key_for_audit, record_state_metric,
};

fn pairs(labels: &[MetricLabel]) -> Vec<(String, String)> {
    labels.iter().map(|l| (l.key.clone(), l.value.clone())).collect()
}

#[test]
fn hash_key_deterministic() {
    let h1 = hash_key_for_audit("user:123:prefs");
    let h2 = hash_key_for_audit("user:123:prefs");
    assert_eq!(h1, h2);
    assert_eq!(h1.len(), 16);
}

#[test]
fn hash_key_differs_for_different_keys() {
    let h1 = hash_key_for_audit("key_a");
    let h2 = hash_key_for_audit("key_b");
    assert_ne!(h1, h2);
}

#[test]
fn hash_key_empty_string() {
    let h = hash_key_for_audit("");
    assert_eq!(h.len(), 16);
}

#[test]
fn emit_state_pre_noop_when_disabled() {
    let config = OperationSubsConfig {
        enabled: false,
        ..Default::default()
    };
    assert!(emit_state_op_pre(&config, "state.get", "dev::t1::team", "abc123", "t1", "team").is_none());
}

#[test]
fn emit_state_post_noop_when_disabled() {
    let config = OperationSubsConfig {
        enabled: false,
        ..Default::default()
    };
    assert!(emit_state_op_post(
        &config,
        "state.put",
        "dev::t1::team",
        "abc123",
        "t1",
        "team",
        "ok",
    )
    .is_none());
}

#[test]
fn emit_state_post_skips_denied_when_excluded() {
    let config = OperationSubsConfig {
        enabled: true,
        include_denied: false,
        ..Default::default()
    };
    assert!(emit_state_op_post(&config, "state.put", "ns", "hash", "t1", "team", "denied").is_none());
}

#[test]
fn emit_state_post_allows_denied_when_included() {
    let config = OperationSubsConfig {
        enabled: true,
        include_denied: true,
        ..Default::default()
    };
    let ev = emit_state_op_post(&config, "state.put", "ns", "hash", "t1", "team", "denied").unwrap();
    assert_eq!(ev.status, "denied");
}

#[test]
fn emit_state_pre_runs_when_enabled() {
    let config = OperationSubsConfig::default();
    let ev = emit_state_op_pre(&config, "state.get", "ns", "hash", "t1", "team").unwrap();
    assert_eq!(ev.op_name, "state.get");
    assert_eq!(ev.namespace, "ns");
    assert_eq!(ev.key_hash, "hash");
    assert_eq!(ev.tenant_id, "t1");
    assert_eq!(ev.team_id, "team");
}

#[test]
fn emit_state_post_runs_when_enabled() {
    let config = OperationSubsConfig::default();
    let ev = emit_state_op_post(&config, "state.get", "ns", "hash", "t1", "team", "hit").unwrap();
    assert_eq!(ev.status, "hit");
    assert_eq!(ev.op_name, "state.get");
}

// --- further cases ---

#[test]
fn hash_key_is_fnv1a_64_hex() {
    assert_eq!(hash_key_for_audit(""), "cbf29ce484222325");
    assert_eq!(hash_key_for_audit("a"), "af63dc4c8601ec8c");
    assert_eq!(hash_key_for_audit("foobar"), "85944171f73967e8");
}

#[test]
fn hash_key_is_lowercase_hex() {
    let h = hash_key_for_audit("tenant:42:secret");
    assert!(h.chars().all(|c| c.is_ascii_digit() || ('a'..='f').contains(&c)));
}

#[test]
fn state_pre_ignores_denied_setting() {
    let config = OperationSubsConfig {
        include_denied: false,
        ..Default::default()
    };
    assert!(emit_state_op_pre(&config, "state.get", "ns", "h", "t", "tm").is_some());
}

#[test]
fn state_metric_labels() {
    let labels = record_state_metric("state.get", "hit");
    assert_eq!(
        pairs(&labels),
        vec![
            ("greentic.state.op".to_string(), "state.get".to_string()),
            ("greentic.state.status".to_string(), "hit".to_string()),
        ]
    );
}
