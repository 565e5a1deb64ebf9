use greentic_telemetry::operation_subs::metrics_impl::{record, record_error};
use greentic_telemetry::operation_subs::{
    emit_operation_completed, emit_operation_error, emit_operation_requested, hash_payload,
    maybe_attr, operation_root_span, operation_root_span_attributed,
    record_operation_error_metric, record_operation_error_metric_attributed,
    record_operation_metric, record_operation_metric_attributed, subs_config_from_provider,
    MetricLabel, OperationSubsConfig, PayloadPolicy, SubsMode,
};
use greentic_telemetry::provider::{TelemetryProviderConfig, TenantAttribution};

fn pairs(labels: &[MetricLabel]) -> Vec<(String, String)> {
    labels.iter().map(|l| (l.key.clone(), l.value.clone())).collect()
}

fn kv(k: &str, v: &str) -> (String, String) {
    (k.to_string(), v.to_string())
}

const HELLO_WORLD_BLAKE3: &str = "d74981efa70a0c880b8d8c1985d075dbcbf679b99a5f9914e5aaf96b831a9e24";

#[test]
fn default_config_enables_everything() {
    let config = OperationSubsConfig::default();
    assert!(config.enabled);
    assert_eq!(config.mode, SubsMode::MetricsAndTraces);
    assert!(config.include_denied);
    assert_eq!(config.payload_policy, PayloadPolicy::NoPayload);
}

#[test]
fn subs_config_from_provider_defaults() {
    let provider = TelemetryProviderConfig::default();
    let subs = subs_config_from_provider(&provider);
    assert!(subs.enabled);
    assert_eq!(subs.mode, SubsMode::MetricsAndTraces);
    assert!(subs.include_denied);
}

#[test]
fn subs_config_from_provider_custom() {
    let provider = TelemetryProviderConfig {
        enable_operation_subs: true,
        operation_subs_mode: Some("metrics_only".into()),
        include_denied_ops: false,
        payload_policy: Some("hash_only".into()),
        ..Default::default()
    };
    let subs = subs_config_from_provider(&provider);
    assert!(subs.enabled);
    assert_eq!(subs.mode, SubsMode::MetricsOnly);
    assert!(!subs.include_denied);
    assert_eq!(subs.payload_policy, PayloadPolicy::HashOnly);
}

#[test]
fn subs_config_disabled() {
    let provider = TelemetryProviderConfig {
        enable_operation_subs: false,
        ..Default::default()
    };
    let subs = subs_config_from_provider(&provider);
    assert!(!subs.enabled);
}

#[test]
fn emit_requested_noop_when_disabled() {
    let config = OperationSubsConfig {
        enabled: false,
        ..Default::default()
    };
    let ev = emit_operation_requested(&config, "op1", "send_payload", "tenant1", "team1", 100, None);
    assert!(ev.is_none());
}

#[test]
fn emit_completed_skips_denied_when_excluded() {
    let config = OperationSubsConfig {
        enabled: true,
        include_denied: false,
        ..Default::default()
    };
    let ev = emit_operation_completed(
        &config,
        "op1",
        "send_payload",
        "tenant1",
        "team1",
        "denied",
        0,
        None,
    );
    assert!(ev.is_none());
}

#[test]
fn emit_completed_allows_denied_when_included() {
    let config = OperationSubsConfig {
        enabled: true,
        include_denied: true,
        ..Default::default()
    };
    let ev = emit_operation_completed(
        &config,
        "op1",
        "send_payload",
        "tenant1",
        "team1",
        "denied",
        0,
        None,
    )
    .expect("denied operations are included");
    assert_eq!(ev.status, "denied");
}

#[test]
fn metrics_only_mode_skips_trace_events() {
    let config = OperationSubsConfig {
        enabled: true,
        mode: SubsMode::MetricsOnly,
        ..Default::default()
    };
    assert!(emit_operation_requested(&config, "op1", "send_payload", "tenant1", "team1", 100, None)
        .is_none());
    assert!(emit_operation_completed(
        &config,
        "op1",
        "send_payload",
        "tenant1",
        "team1",
        "ok",
        50,
        None,
    )
    .is_none());
}

#[test]
fn traces_only_mode_emits_events() {
    let config = OperationSubsConfig {
        enabled: true,
        mode: SubsMode::TracesOnly,
        ..Default::default()
    };
    assert!(emit_operation_requested(&config, "op1", "send_payload", "tenant1", "team1", 100, None)
        .is_some());
    assert!(emit_operation_completed(
        &config,
        "op1",
        "send_payload",
        "tenant1",
        "team1",
        "ok",
        50,
        None,
    )
    .is_some());
}

#[test]
fn payload_policy_none_omits_size() {
    let config = OperationSubsConfig {
        enabled: true,
        payload_policy: PayloadPolicy::NoPayload,
        ..Default::default()
    };
    let req = emit_operation_requested(&config, "op1", "send_payload", "tenant1", "team1", 100, None)
        .unwrap();
    assert!(req.payload.is_none());
    let done = emit_operation_completed(
        &config,
        "op1",
        "send_payload",
        "tenant1",
        "team1",
        "ok",
        50,
        None,
    )
    .unwrap();
    assert!(done.result.is_none());
}

#[test]
fn payload_policy_hash_only_includes_size() {
    let config = OperationSubsConfig {
        enabled: true,
        payload_policy: PayloadPolicy::HashOnly,
        ..Default::default()
    };
    let req = emit_operation_requested(
        &config,
        "op1",
        "send_payload",
        "tenant1",
        "team1",
        100,
        Some("abc123"),
    )
    .unwrap();
    let p = req.payload.unwrap();
    assert_eq!(p.size_bytes, 100);
    assert_eq!(p.hash, "abc123");
    let done = emit_operation_completed(
        &config,
        "op1",
        "send_payload",
        "tenant1",
        "team1",
        "ok",
        50,
        Some("def456"),
    )
    .unwrap();
    let r = done.result.unwrap();
    assert_eq!(r.size_bytes, 50);
    assert_eq!(r.hash, "def456");
}

#[test]
fn root_span_creates_without_panic() {
    let span = operation_root_span("send_payload", "messaging.telegram", "tenant1", "team1");
    assert_eq!(span.op_name, "send_payload");
    assert_eq!(span.provider_type, "messaging.telegram");
    assert_eq!(span.tenant_id, "tenant1");
    assert_eq!(span.team_id, "team1");
}

#[test]
fn emit_error_noop_when_disabled() {
    let config = OperationSubsConfig {
        enabled: false,
        ..Default::default()
    };
    assert!(emit_operation_error(&config, "op1", "invoke_error", "something broke").is_none());
}

#[test]
fn emit_error_noop_when_metrics_only() {
    let config = OperationSubsConfig {
        enabled: true,
        mode: SubsMode::MetricsOnly,
        ..Default::default()
    };
    assert!(emit_operation_error(&config, "op1", "invoke_error", "something broke").is_none());
}

#[test]
fn emit_error_noop_when_excluded() {
    let config = OperationSubsConfig {
        enabled: true,
        exclude_ops: vec!["op1".to_string()],
        ..Default::default()
    };
    assert!(emit_operation_error(&config, "op1", "invoke_error", "something broke").is_none());
}

#[test]
fn emit_error_fires_when_enabled() {
    let config = OperationSubsConfig::default();
    let ev = emit_operation_error(&config, "op1", "denied", "hook denied operation").unwrap();
    assert_eq!(ev.op_id, "op1");
    assert_eq!(ev.error_type, "denied");
    assert_eq!(ev.error_message, "hook denied operation");
}

#[test]
fn hash_payload_returns_string() {
    let hash = hash_payload(b"hello world");
    assert!(hash.is_empty() || hash.len() == 64);
}

#[test]
fn emit_completed_with_duration() {
    let config = OperationSubsConfig::default();
    let ev = emit_operation_completed(
        &config,
        "op1",
        "send_payload",
        "tenant1",
        "team1",
        "ok",
        100,
        None,
    )
    .unwrap();
    assert_eq!(ev.op_id, "op1");
    assert_eq!(ev.op_name, "send_payload");
    assert_eq!(ev.status, "ok");
}

#[test]
fn root_span_has_empty_error_fields() {
    let span = operation_root_span("send_payload", "messaging.telegram", "tenant1", "team1");
    assert_eq!(span.op_name, "send_payload");
    assert_eq!(span.tenant_id, "tenant1");
    // The fields recorded once the operation ends are declared, and start empty.
    for name in [
        "error.type",
        "error.message",
        "greentic.meta.routing.provider",
        "greentic.op.duration_ms",
    ] {
        assert!(span.empty_fields.iter().any(|f| f == name));
    }
    assert_eq!(
        span.empty_fields,
        vec![
            "otel.status_code".to_string(),
            "error.type".to_string(),
            "error.message".to_string(),
            "greentic.meta.routing.provider".to_string(),
            "greentic.meta.classification".to_string(),
            "greentic.op.duration_ms".to_string(),
        ]
    );
}

#[test]
fn record_operation_metric_with_tenant() {
    let labels = record_operation_metric("send_payload", "messaging.telegram", "ok", "tenant1");
    assert_eq!(
        pairs(&labels),
        vec![
            kv("greentic.op.name", "send_payload"),
            kv("greentic.provider.type", "messaging.telegram"),
            kv("greentic.op.status", "ok"),
            kv("greentic.tenant.id", "tenant1"),
        ]
    );
}

#[test]
fn record_operation_error_metric_does_not_panic() {
    let labels = record_operation_error_metric(
        "send_payload",
        "messaging.telegram",
        "invoke_error",
        "tenant1",
    );
    assert_eq!(
        pairs(&labels),
        vec![
            kv("greentic.op.name", "send_payload"),
            kv("greentic.provider.type", "messaging.telegram"),
            kv("greentic.op.error_code", "invoke_error"),
            kv("greentic.tenant.id", "tenant1"),
        ]
    );
}

#[test]
fn default_config_has_attribution_defaults() {
    let config = OperationSubsConfig::default();
    assert!(config.include_tenant);
    assert!(config.include_team);
    assert!(!config.include_team_in_metrics);
    assert!(!config.hash_ids);
}

#[test]
fn subs_config_from_provider_with_attribution() {
    let provider = TelemetryProviderConfig {
        tenant_attribution: Some(TenantAttribution {
            include_tenant: true,
            include_team: false,
            include_team_in_metrics: true,
            hash_ids: true,
        }),
        ..Default::default()
    };
    let subs = subs_config_from_provider(&provider);
    assert!(subs.include_tenant);
    assert!(!subs.include_team);
    assert!(subs.include_team_in_metrics);
    assert!(subs.hash_ids);
}

#[test]
fn subs_config_from_provider_no_attribution() {
    let provider = TelemetryProviderConfig::default();
    let subs = subs_config_from_provider(&provider);
    assert!(subs.include_tenant);
    assert!(subs.include_team);
    assert!(!subs.include_team_in_metrics);
    assert!(!subs.hash_ids);
}

#[test]
fn maybe_attr_include_no_hash() {
    assert_eq!(maybe_attr("tenant1", true, false), "tenant1");
}

#[test]
fn maybe_attr_exclude() {
    assert_eq!(maybe_attr("tenant1", false, false), "");
    assert_eq!(maybe_attr("tenant1", false, true), "");
}

#[test]
fn maybe_attr_hash() {
    let hashed = maybe_attr("tenant1", true, true);
    assert!(hashed.is_empty() || hashed.len() == 64);
    assert_ne!(hashed, "tenant1");
}

#[test]
fn emit_requested_with_attribution() {
    let config = OperationSubsConfig {
        include_tenant: false,
        include_team: true,
        hash_ids: true,
        ..Default::default()
    };
    let ev = emit_operation_requested(&config, "op1", "send_payload", "tenant1", "team1", 100, None)
        .unwrap();
    assert_eq!(ev.tenant_id, "");
    assert_eq!(ev.team_id, hash_payload(b"team1"));
}

#[test]
fn emit_completed_with_attribution() {
    let config = OperationSubsConfig {
        include_tenant: true,
        include_team: false,
        hash_ids: false,
        ..Default::default()
    };
    let ev = emit_operation_completed(
        &config,
        "op1",
        "send_payload",
        "tenant1",
        "team1",
        "ok",
        50,
        None,
    )
    .unwrap();
    assert_eq!(ev.tenant_id, "tenant1");
    assert_eq!(ev.team_id, "");
}

#[test]
fn root_span_attributed_creates_without_panic() {
    let config = OperationSubsConfig {
        hash_ids: true,
        include_tenant: true,
        include_team: false,
        ..Default::default()
    };
    let span = operation_root_span_attributed(
        "send_payload",
        "messaging.telegram",
        "tenant1",
        "team1",
        &config,
    )
    .unwrap();
    assert_eq!(span.tenant_id, hash_payload(b"tenant1"));
    assert_eq!(span.team_id, "");
}

#[test]
fn record_metric_attributed_does_not_panic() {
    let config = OperationSubsConfig {
        include_team_in_metrics: true,
        hash_ids: true,
        ..Default::default()
    };
    let labels = record_operation_metric_attributed(
        "send_payload",
        "messaging.telegram",
        "ok",
        "tenant1",
        "team1",
        &config,
    )
    .unwrap();
    assert_eq!(labels.len(), 5);
    assert_eq!(labels[3].value, hash_payload(b"tenant1"));
    assert_eq!(labels[4].key, "greentic.team.id");
    assert_eq!(labels[4].value, hash_payload(b"team1"));
}

#[test]
fn record_error_metric_attributed_does_not_panic() {
    let config = OperationSubsConfig {
        include_team_in_metrics: false,
        hash_ids: false,
        ..Default::default()
    };
    let labels = record_operation_error_metric_attributed(
        "send_payload",
        "messaging.telegram",
        "invoke_error",
        "tenant1",
        "team1",
        &config,
    )
    .unwrap();
    assert_eq!(labels.len(), 4);
    assert_eq!(labels[3].value, "tenant1");
}

// --- further cases ---

#[test]
fn hash_payload_is_blake3_hex() {
    assert_eq!(hash_payload(b"hello world"), HELLO_WORLD_BLAKE3);
    assert_eq!(
        hash_payload(b""),
        "af1349b9f5f9a1a6a0404dea36dcc9499bcb25c9adc112b7cc9a93cae41f3262"
    );
}

#[test]
fn maybe_attr_hash_is_blake3_of_utf8() {
    assert_eq!(maybe_attr("hello world", true, true), HELLO_WORLD_BLAKE3);
}

#[test]
fn provider_mode_names_ignore_case() {
    let provider = TelemetryProviderConfig {
        operation_subs_mode: Some("TRACES_Only".into()),
        payload_policy: Some("Hash_Only".into()),
        ..Default::default()
    };
    let subs = subs_config_from_provider(&provider);
    assert_eq!(subs.mode, SubsMode::TracesOnly);
    assert_eq!(subs.payload_policy, PayloadPolicy::HashOnly);
}

#[test]
fn provider_unknown_names_fall_back() {
    let provider = TelemetryProviderConfig {
        operation_subs_mode: Some("everything".into()),
        payload_policy: Some("full".into()),
        ..Default::default()
    };
    let subs = subs_config_from_provider(&provider);
    assert_eq!(subs.mode, SubsMode::MetricsAndTraces);
    assert_eq!(subs.payload_policy, PayloadPolicy::NoPayload);
}

#[test]
fn drop_payloads_overrides_hash_only() {
    let provider = TelemetryProviderConfig {
        payload_policy: Some("hash_only".into()),
        drop_payloads: true,
        ..Default::default()
    };
    assert_eq!(subs_config_from_provider(&provider).payload_policy, PayloadPolicy::NoPayload);
}

#[test]
fn provider_exclude_ops_are_copied() {
    let provider = TelemetryProviderConfig {
        exclude_ops: vec!["healthcheck".into(), "ping".into()],
        ..Default::default()
    };
    let subs = subs_config_from_provider(&provider);
    assert_eq!(subs.exclude_ops, vec!["healthcheck".to_string(), "ping".to_string()]);
}

#[test]
fn excluded_operation_emits_no_trace_events() {
    let config = OperationSubsConfig {
        exclude_ops: vec!["healthcheck".into()],
        ..Default::default()
    };
    assert!(emit_operation_requested(&config, "id1", "healthcheck", "t", "tm", 0, None).is_none());
    assert!(emit_operation_completed(&config, "id1", "healthcheck", "t", "tm", "ok", 0, None)
        .is_none());
    assert!(emit_operation_requested(&config, "id1", "send", "t", "tm", 0, None).is_some());
}

#[test]
fn error_exclusion_matches_operation_id() {
    let config = OperationSubsConfig {
        exclude_ops: vec!["healthcheck".into()],
        ..Default::default()
    };
    assert!(emit_operation_error(&config, "op-7", "invoke_error", "boom").is_some());
    assert!(emit_operation_error(&config, "healthcheck", "invoke_error", "boom").is_none());
}

#[test]
fn denied_still_requested_but_not_completed() {
    let config = OperationSubsConfig {
        include_denied: false,
        ..Default::default()
    };
    assert!(emit_operation_requested(&config, "op1", "send", "t", "tm", 1, None).is_some());
    assert!(emit_operation_completed(&config, "op1", "send", "t", "tm", "denied", 0, None).is_none());
    assert!(emit_operation_completed(&config, "op1", "send", "t", "tm", "ok", 0, None).is_some());
}

#[test]
fn hash_only_without_hash_gives_empty_hash() {
    let config = OperationSubsConfig {
        payload_policy: PayloadPolicy::HashOnly,
        ..Default::default()
    };
    let ev = emit_operation_requested(&config, "op1", "send", "t", "tm", 7, None).unwrap();
    let p = ev.payload.unwrap();
    assert_eq!(p.size_bytes, 7);
    assert_eq!(p.hash, "");
}

#[test]
fn attributed_root_span_with_defaults_matches_plain() {
    let config = OperationSubsConfig::default();
    let a = operation_root_span_attributed("op", "prov", "tenant1", "team1", &config).unwrap();
    let b = operation_root_span("op", "prov", "tenant1", "team1");
    assert_eq!(
        (a.op_name, a.provider_type, a.tenant_id, a.team_id, a.empty_fields),
        (b.op_name, b.provider_type, b.tenant_id, b.team_id, b.empty_fields)
    );
}

#[test]
fn record_labels_with_and_without_team() {
    let with_team = record("op", "prov", "ok", "tenant1", Some("team1"), false);
    assert_eq!(
        pairs(&with_team),
        vec![
            kv("greentic.op.name", "op"),
            kv("greentic.provider.type", "prov"),
            kv("greentic.op.status", "ok"),
            kv("greentic.tenant.id", "tenant1"),
            kv("greentic.team.id", "team1"),
        ]
    );
    let hashed = record_error("op", "prov", "E1", "tenant1", None, true);
    assert_eq!(hashed.len(), 4);
    assert_eq!(hashed[2].key, "greentic.op.error_code");
    assert_eq!(hashed[3].value, hash_payload(b"tenant1"));
}

#[test]
fn attributed_metrics_gated_by_config() {
    let disabled = OperationSubsConfig {
        enabled: false,
        ..Default::default()
    };
    let traces_only = OperationSubsConfig {
        mode: SubsMode::TracesOnly,
        ..Default::default()
    };
    let excluded = OperationSubsConfig {
        exclude_ops: vec!["healthcheck".into()],
        ..Default::default()
    };
    let metrics_only = OperationSubsConfig {
        mode: SubsMode::MetricsOnly,
        ..Default::default()
    };
    for c in [&disabled, &traces_only, &excluded] {
        assert!(record_operation_metric_attributed("healthcheck", "p", "ok", "t", "tm", c).is_none());
        assert!(
            record_operation_error_metric_attributed("healthcheck", "p", "E", "t", "tm", c).is_none()
        );
    }
    assert!(record_operation_metric_attributed("send", "p", "ok", "t", "tm", &excluded).is_some());
    assert!(record_operation_metric_attributed("send", "p", "ok", "t", "tm", &metrics_only).is_some());
    assert!(
        record_operation_error_metric_attributed("send", "p", "E", "t", "tm", &metrics_only).is_some()
    );
}

#[test]
fn attributed_root_span_gated_by_config() {
    let disabled = OperationSubsConfig {
        enabled: false,
        ..Default::default()
    };
    let metrics_only = OperationSubsConfig {
        mode: SubsMode::MetricsOnly,
        ..Default::default()
    };
    let excluded = OperationSubsConfig {
        exclude_ops: vec!["healthcheck".into()],
        ..Default::default()
    };
    let traces_only = OperationSubsConfig {
        mode: SubsMode::TracesOnly,
        ..Default::default()
    };
    assert!(operation_root_span_attributed("send", "p", "t", "tm", &disabled).is_none());
    assert!(operation_root_span_attributed("send", "p", "t", "tm", &metrics_only).is_none());
    assert!(operation_root_span_attributed("healthcheck", "p", "t", "tm", &excluded).is_none());
    assert!(operation_root_span_attributed("send", "p", "t", "tm", &traces_only).is_some());
}

#[test]
fn attributed_root_span_declares_empty_fields() {
    let span = operation_root_span_attributed("op", "prov", "t", "tm", &OperationSubsConfig::default())
        .unwrap();
    assert_eq!(span.empty_fields.len(), 6);
    assert_eq!(span.empty_fields[0], "otel.status_code");
}
