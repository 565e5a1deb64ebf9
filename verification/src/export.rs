//! Where telemetry is exported to.

use vstd::prelude::*;

verus! {

/// The export pipeline a preset selects.
#[derive(Clone, Copy, Debug, PartialEq, Eq, Structural)]
pub enum ExportMode {
    /// OTLP over gRPC.
    OtlpGrpc,
    /// OTLP over HTTP.
    OtlpHttp,
    /// JSON lines on standard output.
    JsonStdout,
    /// Google Cloud Trace.
    GcpCloudTrace,
}

} // verus!
