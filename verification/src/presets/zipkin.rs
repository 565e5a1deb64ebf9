//! Zipkin OTLP preset.

use vstd::prelude::*;

use super::{
    endpoint_from_env, endpoint_or, opt_string_view, parse_headers, parse_headers_from_env,
    preset_is, PresetConfig, PresetError,
};
use crate::export::ExportMode;

verus! {

/// Zipkin OTLP preset.
///
/// Modern Zipkin accepts OTLP over HTTP. Default endpoint:
/// `http://localhost:9411` (overridden by `OTLP_ENDPOINT`); headers come from `OTLP_HEADERS`.
pub fn config(otlp_endpoint: Option<String>, otlp_headers: Option<String>) -> (res: Result<
    PresetConfig,
    PresetError,
>)
    ensures
        match parse_headers(opt_string_view(otlp_headers)) {
            None => res is Err,
            Some(h) => res matches Ok(c) && preset_is(
                c,
                ExportMode::OtlpHttp,
                endpoint_or(otlp_endpoint, Some("http://localhost:9411"@)),
                h,
            ),
        },
{
    let endpoint = endpoint_from_env(otlp_endpoint, Some("http://localhost:9411"));
    let headers = parse_headers_from_env(otlp_headers)?;
    Ok(PresetConfig {
        export_mode: Some(ExportMode::OtlpHttp),
        otlp_endpoint: endpoint,
        otlp_headers: headers,
    })
}

} // verus!
