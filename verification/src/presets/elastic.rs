//! Elastic APM OTLP preset.

use vstd::prelude::*;
use vstd::string::StringExecFns;

use super::{
    endpoint_from_env, endpoint_or, non_empty, non_empty_view, opt_string_view, parse_headers,
    parse_headers_from_env, preset_is, with_default_header, PresetConfig, PresetError,
};
use crate::export::ExportMode;

verus! {

/// The `Authorization` value a secret token implies.
pub open spec fn bearer(token: Option<String>) -> Option<Seq<char>> {
    match non_empty_view(opt_string_view(token)) {
        Some(t) => Some("Bearer "@ + t),
        None => None,
    }
}

/// Elastic APM OTLP preset.
///
/// User-provided endpoint (`OTLP_ENDPOINT`, no default — Elastic deployments
/// vary); headers from `OTLP_HEADERS`. A set, non-empty `ELASTIC_APM_SECRET_TOKEN`
/// (`secret_token`) adds `Authorization: Bearer <token>` unless the headers
/// already name `Authorization`.
pub fn config(
    otlp_endpoint: Option<String>,
    otlp_headers: Option<String>,
    secret_token: Option<String>,
) -> (res: Result<PresetConfig, PresetError>)
    ensures
        match parse_headers(opt_string_view(otlp_headers)) {
            None => res is Err,
            Some(h) => res matches Ok(c) && preset_is(
                c,
                ExportMode::OtlpGrpc,
                endpoint_or(otlp_endpoint, None),
                with_default_header(h, "Authorization"@, bearer(secret_token)),
            ),
        },
{
    let endpoint = endpoint_from_env(otlp_endpoint, None);
    let mut headers = parse_headers_from_env(otlp_headers)?;
    if let Some(token) = non_empty(secret_token) {
        let mut value = "Bearer ".to_owned();
        value.append(token.as_str());
        headers.insert_if_absent("Authorization".to_owned(), value);
    }
    Ok(PresetConfig {
        export_mode: Some(ExportMode::OtlpGrpc),
        otlp_endpoint: endpoint,
        otlp_headers: headers,
    })
}

} // verus!
