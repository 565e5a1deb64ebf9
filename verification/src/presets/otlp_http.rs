//! Generic OTLP HTTP preset.

use vstd::prelude::*;

use super::{fixed_preset, preset_is, PresetConfig, PresetError};
use crate::export::ExportMode;

verus! {

/// Generic OTLP HTTP preset.
///
/// Default endpoint: `http://localhost:4318` (standard OTLP HTTP port).
/// No auth headers — suitable for local collectors.
pub fn config() -> (res: Result<PresetConfig, PresetError>)
    ensures
        res matches Ok(c) && preset_is(
            c,
            ExportMode::OtlpHttp,
            Some("http://localhost:4318"@),
            Map::empty(),
        ),
{
    Ok(fixed_preset(ExportMode::OtlpHttp, Some("http://localhost:4318")))
}

} // verus!
