//! Grafana Tempo OTLP preset.

use vstd::prelude::*;

use super::{
    endpoint_from_env, endpoint_or, opt_string_view, parse_headers, parse_headers_from_env,
    preset_is, PresetConfig, PresetError,
};
use crate::export::ExportMode;

verus! {

/// Grafana Tempo OTLP preset.
///
/// User-provided endpoint (`OTLP_ENDPOINT`), defaults to `http://localhost:4317`.
/// Tempo accepts standard OTLP gRPC without special auth headers; for
/// Grafana Cloud, set auth via `OTLP_HEADERS`.
pub fn config(otlp_endpoint: Option<String>, otlp_headers: Option<String>) -> (res: Result<
    PresetConfig,
    PresetError,
>)
    ensures
        match parse_headers(opt_string_view(otlp_headers)) {
            None => res is Err,
            Some(h) => res matches Ok(c) && preset_is(
                c,
                ExportMode::OtlpGrpc,
                endpoint_or(otlp_endpoint, Some("http://localhost:4317"@)),
                h,
            ),
        },
{
    let endpoint = endpoint_from_env(otlp_endpoint, Some("http://localhost:4317"));
    let headers = parse_headers_from_env(otlp_headers)?;
    Ok(PresetConfig {
        export_mode: Some(ExportMode::OtlpGrpc),
        otlp_endpoint: endpoint,
        otlp_headers: headers,
    })
}

} // verus!
