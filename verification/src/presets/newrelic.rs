//! New Relic OTLP preset.

use vstd::prelude::*;

use super::{
    endpoint_from_env, endpoint_or, non_empty, non_empty_view, opt_string_view, parse_headers,
    parse_headers_from_env, preset_is, with_default_header, PresetConfig, PresetError,
};
use crate::export::ExportMode;

verus! {

/// New Relic OTLP preset.
///
/// Default endpoint: `https://otlp.nr-data.net:4317` (overridden by
/// `OTLP_ENDPOINT`); headers from `OTLP_HEADERS`. A set, non-empty
/// `NEW_RELIC_API_KEY` (`api_key`) adds an `api-key` header unless the headers
/// already name one.
pub fn config(
    otlp_endpoint: Option<String>,
    otlp_headers: Option<String>,
    api_key: Option<String>,
) -> (res: Result<PresetConfig, PresetError>)
    ensures
        match parse_headers(opt_string_view(otlp_headers)) {
            None => res is Err,
            Some(h) => res matches Ok(c) && preset_is(
                c,
                ExportMode::OtlpGrpc,
                endpoint_or(otlp_endpoint, Some("https://otlp.nr-data.net:4317"@)),
                with_default_header(h, "api-key"@, non_empty_view(opt_string_view(api_key))),
            ),
        },
{
    let endpoint = endpoint_from_env(otlp_endpoint, Some("https://otlp.nr-data.net:4317"));
    let mut headers = parse_headers_from_env(otlp_headers)?;
    if let Some(key) = non_empty(api_key) {
        headers.insert_if_absent("api-key".to_owned(), key);
    }
    Ok(PresetConfig {
        export_mode: Some(ExportMode::OtlpGrpc),
        otlp_endpoint: endpoint,
        otlp_headers: headers,
    })
}

} // verus!
