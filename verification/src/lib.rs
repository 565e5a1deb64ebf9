//! Operation-subscription telemetry policy: which events, spans and metric
//! labels an operation produces under a given configuration, and the
//! privacy-preserving identifier hashing that goes with them.

pub mod hex;
pub mod text;
pub mod provider;
pub mod operation_subs;
pub mod state_subs;
pub mod header_map;
pub mod export;
pub mod presets;
pub mod laws;
