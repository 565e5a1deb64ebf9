//! Generic OTLP gRPC preset.

use vstd::prelude::*;

use super::{fixed_preset, preset_is, PresetConfig, PresetError};
use crate::export::ExportMode;

verus! {

/// Generic OTLP gRPC preset.
///
/// Default endpoint: `http://localhost:4317` (standard OTLP gRPC port).
/// No auth headers — suitable for local collectors.
pub fn config() -> (res: Result<PresetConfig, PresetError>)
    ensures
        res matches Ok(c) && preset_is(
            c,
            ExportMode::OtlpGrpc,
            Some("http://localhost:4317"@),
            Map::empty(),
        ),
{
    Ok(fixed_preset(ExportMode::OtlpGrpc, Some("http://localhost:4317")))
}

} // verus!
