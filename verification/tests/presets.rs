use greentic_telemetry::export::ExportMode;
use greentic_telemetry::header_map::HeaderMap;
use greentic_telemetry::presets::{
    elastic, gcp, grafana_tempo, newrelic, otlp_grpc, otlp_http, parse_headers_from_env, stdout,
    zipkin, PresetError,
};

fn sorted(h: &HeaderMap) -> Vec<(String, String)> {
    let mut v = h.pairs();
    v.sort();
    v
}

fn kv(k: &str, v: &str) -> (String, String) {
    (k.to_string(), v.to_string())
}

#[test]
fn otlp_grpc_preset() {
    let c = otlp_grpc::config().unwrap();
    assert_eq!(c.export_mode, Some(ExportMode::OtlpGrpc));
    assert_eq!(c.otlp_endpoint.as_deref(), Some("http://localhost:4317"));
    assert!(c.otlp_headers.pairs().is_empty());
}

#[test]
fn otlp_http_preset() {
    let c = otlp_http::config().unwrap();
    assert_eq!(c.export_mode, Some(ExportMode::OtlpHttp));
    assert_eq!(c.otlp_endpoint.as_deref(), Some("http://localhost:4318"));
}

#[test]
fn stdout_preset() {
    let c = stdout::config().unwrap();
    assert_eq!(c.export_mode, Some(ExportMode::JsonStdout));
    assert_eq!(c.otlp_endpoint, None);
}

#[test]
fn tempo_and_zipkin_defaults_and_overrides() {
    let c = grafana_tempo::config(None, None).unwrap();
    assert_eq!(c.otlp_endpoint.as_deref(), Some("http://localhost:4317"));
    let c = grafana_tempo::config(Some(String::new()), None).unwrap();
    assert_eq!(c.otlp_endpoint.as_deref(), Some("http://localhost:4317"));
    let c = zipkin::config(Some("http://z:9411".into()), None).unwrap();
    assert_eq!(c.export_mode, Some(ExportMode::OtlpHttp));
    assert_eq!(c.otlp_endpoint.as_deref(), Some("http://z:9411"));
}

#[test]
fn gcp_has_no_default_endpoint() {
    let c = gcp::config(None, Some("x-goog=1".into())).unwrap();
    assert_eq!(c.export_mode, Some(ExportMode::GcpCloudTrace));
    assert_eq!(c.otlp_endpoint, None);
    assert_eq!(sorted(&c.otlp_headers), vec![kv("x-goog", "1")]);
}

#[test]
fn elastic_token_adds_bearer_unless_set() {
    let c = elastic::config(None, None, Some("s3cr3t".into())).unwrap();
    assert_eq!(c.otlp_endpoint, None);
    assert_eq!(sorted(&c.otlp_headers), vec![kv("Authorization", "Bearer s3cr3t")]);
    let c = elastic::config(None, Some("Authorization=ApiKey k".into()), Some("s3cr3t".into()))
        .unwrap();
    assert_eq!(sorted(&c.otlp_headers), vec![kv("Authorization", "ApiKey k")]);
    let c = elastic::config(None, None, Some(String::new())).unwrap();
    assert!(c.otlp_headers.pairs().is_empty());
}

#[test]
fn newrelic_api_key() {
    let c = newrelic::config(None, None, Some("nr-key".into())).unwrap();
    assert_eq!(c.otlp_endpoint.as_deref(), Some("https://otlp.nr-data.net:4317"));
    assert_eq!(sorted(&c.otlp_headers), vec![kv("api-key", "nr-key")]);
    let c = newrelic::config(None, Some("api-key=explicit".into()), Some("nr-key".into())).unwrap();
    assert_eq!(sorted(&c.otlp_headers), vec![kv("api-key", "explicit")]);
}

#[test]
fn header_parsing() {
    let h = parse_headers_from_env(Some(" a = 1 ,, b=2=3 ,a=4".into())).unwrap();
    assert_eq!(sorted(&h), vec![kv("a", "4"), kv("b", "2=3")]);
    assert!(parse_headers_from_env(None).unwrap().pairs().is_empty());
    assert!(parse_headers_from_env(Some(String::new())).unwrap().pairs().is_empty());
    assert_eq!(parse_headers_from_env(Some("novalue".into())).unwrap_err(), PresetError::MalformedHeaders);
    assert_eq!(parse_headers_from_env(Some(" =v".into())).unwrap_err(), PresetError::MalformedHeaders);
}

#[test]
fn malformed_headers_fail_preset() {
    assert!(grafana_tempo::config(None, Some("broken".into())).is_err());
    assert!(elastic::config(None, Some("broken".into()), Some("t".into())).is_err());
}

#[test]
fn header_map_insert_and_get() {
    let mut h = HeaderMap::new();
    h.insert("k".into(), "v1".into());
    h.insert("k".into(), "v2".into());
    h.insert_if_absent("k".into(), "v3".into());
    h.insert_if_absent("j".into(), "w".into());
    assert_eq!(h.get("k").map(|s| s.as_str()), Some("v2"));
    assert_eq!(h.get("j").map(|s| s.as_str()), Some("w"));
    assert!(h.get("missing").is_none());
    assert!(h.contains_key("j"));
    assert_eq!(h.pairs().len(), 2);
}

#[test]
fn header_trimming_is_ascii_whitespace() {
    let h = parse_headers_from_env(Some("\t\x0ck = v \r\n".into())).unwrap();
    assert_eq!(sorted(&h), vec![kv("k", "v")]);
}
