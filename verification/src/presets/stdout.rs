//! Stdout JSON preset.

use vstd::prelude::*;

use super::{fixed_preset, preset_is, PresetConfig, PresetError};
use crate::export::ExportMode;

verus! {

/// Stdout JSON preset.
///
/// Outputs telemetry as JSON to stdout. No endpoint or headers needed.
pub fn config() -> (res: Result<PresetConfig, PresetError>)
    ensures
        res matches Ok(c) && preset_is(c, ExportMode::JsonStdout, None, Map::empty()),
{
    Ok(fixed_preset(ExportMode::JsonStdout, None))
}

} // verus!
