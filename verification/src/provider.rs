//! The part of a telemetry provider's configuration that governs operation
//! subscriptions and tenant attribution.

use vstd::prelude::*;

verus! {

/// Which tenant/team identifiers appear in spans and metrics, and whether they are hashed.
#[derive(Clone, Copy, Debug, PartialEq, Eq, Structural)]
pub struct TenantAttribution {
    /// Include `greentic.tenant.id` in spans.
    pub include_tenant: bool,
    /// Include `greentic.team.id` in spans.
    pub include_team: bool,
    /// Include `greentic.team.id` in metric labels.
    pub include_team_in_metrics: bool,
    /// Hash tenant/team IDs before emitting.
    pub hash_ids: bool,
}

impl Default for TenantAttribution {
    fn default() -> (r: Self)
        ensures
            r.include_tenant,
            r.include_team,
            !r.include_team_in_metrics,
            !r.hash_ids,
    {
        TenantAttribution {
            include_tenant: true,
            include_team: true,
            include_team_in_metrics: false,
            hash_ids: false,
        }
    }
}

/// Operation-subscription settings of a telemetry provider configuration.
#[derive(Clone, Debug)]
pub struct TelemetryProviderConfig {
    /// Toggle operation subscription telemetry.
    pub enable_operation_subs: bool,
    /// `metrics_only`, `traces_only` or `metrics_and_traces` (any ASCII case).
    pub operation_subs_mode: Option<String>,
    /// Whether operations denied by pre-hooks still emit completion events.
    pub include_denied_ops: bool,
    /// `none` or `hash_only` (any ASCII case).
    pub payload_policy: Option<String>,
    /// Operation names that emit no telemetry.
    pub exclude_ops: Vec<String>,
    /// Absolute override: no payload data at all, whatever `payload_policy` says.
    pub drop_payloads: bool,
    /// Tenant attribution controls; absent means the defaults.
    pub tenant_attribution: Option<TenantAttribution>,
}

impl Default for TelemetryProviderConfig {
    fn default() -> (r: Self)
        ensures
            r.enable_operation_subs,
            r.operation_subs_mode is None,
            r.include_denied_ops,
            r.payload_policy is None,
            r.exclude_ops@.len() == 0,
            !r.drop_payloads,
            r.tenant_attribution is None,
    {
        TelemetryProviderConfig {
            enable_operation_subs: true,
            operation_subs_mode: None,
            include_denied_ops: true,
            payload_policy: None,
            exclude_ops: Vec::new(),
            drop_payloads: false,
            tenant_attribution: None,
        }
    }
}

} // verus!
