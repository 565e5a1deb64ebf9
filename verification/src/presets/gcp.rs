//! GCP Cloud Trace preset.

use vstd::prelude::*;

use super::{
    endpoint_from_env, endpoint_or, opt_string_view, parse_headers, parse_headers_from_env,
    preset_is, PresetConfig, PresetError,
};
use crate::export::ExportMode;

verus! {

/// GCP Cloud Trace preset.
///
/// The real endpoint and auth headers are injected by the telemetry provider
/// component; this fallback only honours the environment: `otlp_endpoint`
/// and `otlp_headers` are the values of `OTLP_ENDPOINT` and `OTLP_HEADERS`.
pub fn config(otlp_endpoint: Option<String>, otlp_headers: Option<String>) -> (res: Result<
    PresetConfig,
    PresetError,
>)
    ensures
        match parse_headers(opt_string_view(otlp_headers)) {
            None => res is Err,
            Some(h) => res matches Ok(c) && preset_is(
                c,
                ExportMode::GcpCloudTrace,
                endpoint_or(otlp_endpoint, None),
                h,
            ),
        },
{
    let endpoint = endpoint_from_env(otlp_endpoint, None);
    let headers = parse_headers_from_env(otlp_headers)?;
    Ok(PresetConfig {
        export_mode: Some(ExportMode::GcpCloudTrace),
        otlp_endpoint: endpoint,
        otlp_headers: headers,
    })
}

} // verus!
