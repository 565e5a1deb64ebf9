//! Operation subscriptions: the configuration, and for each operation event
//! whether it is emitted and with which attributes.

use vstd::prelude::*;

use crate::hex::hex_lower;
use crate::provider::TelemetryProviderConfig;
use crate::text::{ascii_lower, contains_name, eq_ascii_lowercase, list_contains, str_eq};
use vstd::utf8::encode_utf8;

pub mod metrics_impl;

verus! {

/// Mode for operation subscription emission.
#[derive(Clone, Copy, Debug, PartialEq, Eq, Structural)]
pub enum SubsMode {
    MetricsOnly,
    TracesOnly,
    MetricsAndTraces,
}

/// Policy for including payload data in telemetry.
#[derive(Clone, Copy, Debug, PartialEq, Eq, Structural)]
pub enum PayloadPolicy {
    /// No payload data in spans/metrics
    NoPayload,
    /// Include a hash of the payload only
    HashOnly,
}

/// Configuration for operation subscription emission.
#[derive(Clone, Debug)]
pub struct OperationSubsConfig {
    pub enabled: bool,
    pub mode: SubsMode,
    pub include_denied: bool,
    pub payload_policy: PayloadPolicy,
    /// Operation names to exclude from telemetry emission.
    pub exclude_ops: Vec<String>,
    /// Include tenant_id in span attributes.
    pub include_tenant: bool,
    /// Include team_id in span attributes.
    pub include_team: bool,
    /// Include team_id in metric labels.
    pub include_team_in_metrics: bool,
    /// Hash tenant/team IDs before emitting.
    pub hash_ids: bool,
}

impl Default for OperationSubsConfig {
    fn default() -> (r: Self)
        ensures
            r.enabled,
            r.mode == SubsMode::MetricsAndTraces,
            r.include_denied,
            r.payload_policy == PayloadPolicy::NoPayload,
            r.exclude_ops@.len() == 0,
            r.include_tenant,
            r.include_team,
            !r.include_team_in_metrics,
            !r.hash_ids,
    {
        OperationSubsConfig {
            enabled: true,
            mode: SubsMode::MetricsAndTraces,
            include_denied: true,
            payload_policy: PayloadPolicy::NoPayload,
            exclude_ops: Vec::new(),
            include_tenant: true,
            include_team: true,
            include_team_in_metrics: false,
            hash_ids: false,
        }
    }
}

// ---------------------------------------------------------------------------
// Hashing
// ---------------------------------------------------------------------------

/// The 32-byte BLAKE3 digest of `data`.
pub uninterp spec fn blake3_digest(data: Seq<u8>) -> Seq<u8>;

/// `blake3::hash(data).to_hex()`: the BLAKE3 digest of `data`, rendered by
/// `Hash::to_hex` as 64 lowercase hex digits, two per digest byte, high nibble
/// first.
#[verifier::external_body]
fn blake3_hash_hex(data: &[u8]) -> (res: String)
    ensures
        res@ == hex_lower(blake3_digest(data@)),
        res@.len() == 64,
{
    blake3::hash(data).to_hex().to_string()
}

/// Hex-encoded BLAKE3 hash of `payload`.
pub open spec fn blake3_hex(payload: Seq<u8>) -> Seq<char> {
    hex_lower(blake3_digest(payload))
}

/// Compute a blake3 hash of the payload bytes (hex-encoded).
pub fn hash_payload(payload: &[u8]) -> (res: String)
    ensures
        res@ == blake3_hex(payload@),
        res@.len() == 64,
{
    blake3_hash_hex(payload)
}

/// The effective attribute value: empty when excluded, the hash of its UTF-8
/// bytes when hashing is requested, the value itself otherwise.
pub open spec fn attr_value(value: Seq<char>, included: bool, should_hash: bool) -> Seq<char> {
    if !included {
        Seq::empty()
    } else if should_hash {
        blake3_hex(encode_utf8(value))
    } else {
        value
    }
}

/// Compute the effective attribute value: empty when excluded, hashed when requested.
pub fn maybe_attr(value: &str, included: bool, should_hash: bool) -> (res: String)
    ensures
        res@ == attr_value(value@, included, should_hash),
        included && should_hash ==> res@.len() == 64,
{
    if !included {
        return String::new();
    }
    if should_hash {
        hash_payload(value.as_bytes())
    } else {
        value.to_owned()
    }
}

// ---------------------------------------------------------------------------
// Configuration from a provider
// ---------------------------------------------------------------------------

/// The subscription mode named by `m` (ASCII case-insensitive); anything
/// unrecognised means metrics and traces.
pub open spec fn parse_subs_mode(m: Seq<char>) -> SubsMode {
    if ascii_lower(m) == "metrics_only"@ {
        SubsMode::MetricsOnly
    } else if ascii_lower(m) == "traces_only"@ {
        SubsMode::TracesOnly
    } else {
        SubsMode::MetricsAndTraces
    }
}

/// The payload policy named by `p` (ASCII case-insensitive); anything
/// unrecognised means no payload data.
pub open spec fn parse_payload_policy(p: Seq<char>) -> PayloadPolicy {
    if ascii_lower(p) == "hash_only"@ {
        PayloadPolicy::HashOnly
    } else {
        PayloadPolicy::NoPayload
    }
}

/// The mode a provider configuration selects.
pub open spec fn provider_mode(config: TelemetryProviderConfig) -> SubsMode {
    match config.operation_subs_mode {
        Some(m) => parse_subs_mode(m@),
        None => SubsMode::MetricsAndTraces,
    }
}

/// The payload policy a provider configuration selects: `drop_payloads` forces none.
pub open spec fn provider_payload_policy(config: TelemetryProviderConfig) -> PayloadPolicy {
    if config.drop_payloads {
        PayloadPolicy::NoPayload
    } else {
        match config.payload_policy {
            Some(p) => parse_payload_policy(p@),
            None => PayloadPolicy::NoPayload,
        }
    }
}

fn subs_mode_from_name(m: &str) -> (res: SubsMode)
    ensures
        res == parse_subs_mode(m@),
{
    if eq_ascii_lowercase(m, "metrics_only") {
        SubsMode::MetricsOnly
    } else if eq_ascii_lowercase(m, "traces_only") {
        SubsMode::TracesOnly
    } else {
        SubsMode::MetricsAndTraces
    }
}

fn payload_policy_from_name(p: &str) -> (res: PayloadPolicy)
    ensures
        res == parse_payload_policy(p@),
{
    if eq_ascii_lowercase(p, "hash_only") {
        PayloadPolicy::HashOnly
    } else {
        PayloadPolicy::NoPayload
    }
}

fn clone_names(names: &Vec<String>) -> (res: Vec<String>)
    ensures
        res@.len() == names@.len(),
        forall|i: int| 0 <= i < names@.len() ==> #[trigger] res@[i]@ == names@[i]@,
{
    let mut out: Vec<String> = Vec::new();
    let n = names.len();
    for i in 0..n
        invariant
            n == names@.len(),
            out@.len() == i,
            forall|j: int| 0 <= j < i ==> #[trigger] out@[j]@ == names@[j]@,
    {
        out.push(names[i].clone());
    }
    out
}

/// Build an [`OperationSubsConfig`] from a [`TelemetryProviderConfig`].
pub fn subs_config_from_provider(config: &TelemetryProviderConfig) -> (res: OperationSubsConfig)
    ensures
        res.enabled == config.enable_operation_subs,
        res.mode == provider_mode(*config),
        res.include_denied == config.include_denied_ops,
        res.payload_policy == provider_payload_policy(*config),
        res.exclude_ops@.len() == config.exclude_ops@.len(),
        forall|i: int|
            0 <= i < config.exclude_ops@.len() ==> #[trigger] res.exclude_ops@[i]@
                == config.exclude_ops@[i]@,
        res.include_tenant == match config.tenant_attribution {
            Some(a) => a.include_tenant,
            None => true,
        },
        res.include_team == match config.tenant_attribution {
            Some(a) => a.include_team,
            None => true,
        },
        res.include_team_in_metrics == match config.tenant_attribution {
            Some(a) => a.include_team_in_metrics,
            None => false,
        },
        res.hash_ids == match config.tenant_attribution {
            Some(a) => a.hash_ids,
            None => false,
        },
{
    let mode = match &config.operation_subs_mode {
        Some(m) => subs_mode_from_name(m.as_str()),
        None => SubsMode::MetricsAndTraces,
    };
    let payload_policy = if config.drop_payloads {
        PayloadPolicy::NoPayload
    } else {
        match &config.payload_policy {
            Some(p) => payload_policy_from_name(p.as_str()),
            None => PayloadPolicy::NoPayload,
        }
    };
    let (include_tenant, include_team, include_team_in_metrics, hash_ids) =
        match &config.tenant_attribution {
            Some(a) => (a.include_tenant, a.include_team, a.include_team_in_metrics, a.hash_ids),
            None => (true, true, false, false),
        };
    OperationSubsConfig {
        enabled: config.enable_operation_subs,
        mode,
        include_denied: config.include_denied_ops,
        payload_policy,
        exclude_ops: clone_names(&config.exclude_ops),
        include_tenant,
        include_team,
        include_team_in_metrics,
        hash_ids,
    }
}

} // verus!

verus! {

// ---------------------------------------------------------------------------
// Trace events
// ---------------------------------------------------------------------------

/// Payload (or result) data attached to an event under [`PayloadPolicy::HashOnly`].
#[derive(Clone, Debug)]
pub struct PayloadFields {
    /// `greentic.payload.size_bytes` / `greentic.result.size_bytes`
    pub size_bytes: usize,
    /// `greentic.payload.hash` / `greentic.result.hash` (empty when no hash was given)
    pub hash: String,
}

/// The fields of an `operation.requested` event.
#[derive(Clone, Debug)]
pub struct OperationRequested {
    pub op_id: String,
    pub op_name: String,
    pub tenant_id: String,
    pub team_id: String,
    pub payload: Option<PayloadFields>,
}

/// The fields of an `operation.completed` event, its duration aside.
#[derive(Clone, Debug)]
pub struct OperationCompleted {
    pub op_id: String,
    pub op_name: String,
    pub status: String,
    pub tenant_id: String,
    pub team_id: String,
    pub result: Option<PayloadFields>,
}

/// The fields of an `operation.error` event.
#[derive(Clone, Debug)]
pub struct OperationError {
    pub op_id: String,
    pub error_type: String,
    pub error_message: String,
}

/// The view of an optional hash argument: its characters, or empty.
pub open spec fn opt_text(s: Option<&str>) -> Seq<char> {
    match s {
        Some(t) => t@,
        None => Seq::empty(),
    }
}

/// Whether `name` is excluded by the configuration.
pub open spec fn is_excluded(config: OperationSubsConfig, name: Seq<char>) -> bool {
    contains_name(config.exclude_ops@, name)
}

/// Whether a trace event about the operation `name` is suppressed: subscriptions
/// disabled, the name excluded, or metrics-only mode.
pub open spec fn trace_suppressed(config: OperationSubsConfig, name: Seq<char>) -> bool {
    ||| !config.enabled
    ||| is_excluded(config, name)
    ||| config.mode == SubsMode::MetricsOnly
}

/// Whether an `operation.completed` event is suppressed: as any trace event,
/// and also for denied operations when denied operations are not included.
pub open spec fn completion_suppressed(
    config: OperationSubsConfig,
    name: Seq<char>,
    status: Seq<char>,
) -> bool {
    ||| trace_suppressed(config, name)
    ||| (!config.include_denied && status == "denied"@)
}

/// Whether `fields` carries exactly what the payload policy allows of a payload
/// of `size` bytes with hash `hash`.
pub open spec fn payload_fields_match(
    policy: PayloadPolicy,
    fields: Option<PayloadFields>,
    size: usize,
    hash: Seq<char>,
) -> bool {
    match policy {
        PayloadPolicy::NoPayload => fields is None,
        PayloadPolicy::HashOnly => fields matches Some(p) && p.size_bytes == size && p.hash@ == hash,
    }
}

fn payload_fields(policy: PayloadPolicy, size: usize, hash: Option<&str>) -> (res: Option<
    PayloadFields,
>)
    ensures
        payload_fields_match(policy, res, size, opt_text(hash)),
{
    match policy {
        PayloadPolicy::NoPayload => None,
        PayloadPolicy::HashOnly => {
            let h = match hash {
                Some(h) => h.to_owned(),
                None => String::new(),
            };
            Some(PayloadFields { size_bytes: size, hash: h })
        },
    }
}

/// Whether trace events for `name` are suppressed under `config`.
fn traces_suppressed_for(config: &OperationSubsConfig, name: &str) -> (res: bool)
    ensures
        res == trace_suppressed(*config, name@),
{
    if !config.enabled {
        return true;
    }
    if list_contains(&config.exclude_ops, name) {
        return true;
    }
    match config.mode {
        SubsMode::MetricsOnly => true,
        _ => false,
    }
}

/// The "operation requested" event for the current span, or `None` when the
/// configuration suppresses it.
///
/// Tenant and team pass through attribution (omitted or hashed as configured);
/// under [`PayloadPolicy::HashOnly`] the payload size and hash (empty when not
/// given) are included.
pub fn emit_operation_requested(
    config: &OperationSubsConfig,
    op_id: &str,
    op_name: &str,
    tenant: &str,
    team: &str,
    payload_size: usize,
    payload_hash: Option<&str>,
) -> (res: Option<OperationRequested>)
    ensures
        res is None <==> trace_suppressed(*config, op_name@),
        res matches Some(e) ==> {
            &&& e.op_id@ == op_id@
            &&& e.op_name@ == op_name@
            &&& e.tenant_id@ == attr_value(tenant@, config.include_tenant, config.hash_ids)
            &&& e.team_id@ == attr_value(team@, config.include_team, config.hash_ids)
            &&& payload_fields_match(
                config.payload_policy,
                e.payload,
                payload_size,
                opt_text(payload_hash),
            )
        },
{
    if traces_suppressed_for(config, op_name) {
        return None;
    }
    let t = maybe_attr(tenant, config.include_tenant, config.hash_ids);
    let tm = maybe_attr(team, config.include_team, config.hash_ids);
    Some(
        OperationRequested {
            op_id: op_id.to_owned(),
            op_name: op_name.to_owned(),
            tenant_id: t,
            team_id: tm,
            payload: payload_fields(config.payload_policy, payload_size, payload_hash),
        },
    )
}

/// The "operation completed" event, or `None` when the configuration suppresses
/// it (in addition to the cases of [`emit_operation_requested`], a `denied`
/// status is dropped unless denied operations are included). The caller adds
/// the operation's duration to the event.
pub fn emit_operation_completed(
    config: &OperationSubsConfig,
    op_id: &str,
    op_name: &str,
    tenant: &str,
    team: &str,
    status: &str,
    result_size: usize,
    result_hash: Option<&str>,
) -> (res: Option<OperationCompleted>)
    ensures
        res is None <==> completion_suppressed(*config, op_name@, status@),
        res matches Some(e) ==> {
            &&& e.op_id@ == op_id@
            &&& e.op_name@ == op_name@
            &&& e.status@ == status@
            &&& e.tenant_id@ == attr_value(tenant@, config.include_tenant, config.hash_ids)
            &&& e.team_id@ == attr_value(team@, config.include_team, config.hash_ids)
            &&& payload_fields_match(
                config.payload_policy,
                e.result,
                result_size,
                opt_text(result_hash),
            )
        },
{
    if traces_suppressed_for(config, op_name) {
        return None;
    }
    if !config.include_denied && str_eq(status, "denied") {
        return None;
    }
    let t = maybe_attr(tenant, config.include_tenant, config.hash_ids);
    let tm = maybe_attr(team, config.include_team, config.hash_ids);
    Some(
        OperationCompleted {
            op_id: op_id.to_owned(),
            op_name: op_name.to_owned(),
            status: status.to_owned(),
            tenant_id: t,
            team_id: tm,
            result: payload_fields(config.payload_policy, result_size, result_hash),
        },
    )
}

/// The "operation error" event, or `None` when the configuration suppresses it.
/// The exclusion list is matched against the operation id.
pub fn emit_operation_error(
    config: &OperationSubsConfig,
    op_id: &str,
    error_type: &str,
    error_message: &str,
) -> (res: Option<OperationError>)
    ensures
        res is None <==> trace_suppressed(*config, op_id@),
        res matches Some(e) ==> {
            &&& e.op_id@ == op_id@
            &&& e.error_type@ == error_type@
            &&& e.error_message@ == error_message@
        },
{
    if traces_suppressed_for(config, op_id) {
        return None;
    }
    Some(
        OperationError {
            op_id: op_id.to_owned(),
            error_type: error_type.to_owned(),
            error_message: error_message.to_owned(),
        },
    )
}

} // verus!

verus! {

// ---------------------------------------------------------------------------
// Root span
// ---------------------------------------------------------------------------

/// An operation's root span `greentic.op`: its identifying attributes, and the
/// names of the fields it declares empty, to be recorded once the outcome of the
/// operation is known.
#[derive(Clone, Debug)]
pub struct RootSpanFields {
    pub op_name: String,
    pub provider_type: String,
    pub tenant_id: String,
    pub team_id: String,
    /// The fields declared without a value, in declaration order.
    pub empty_fields: Vec<String>,
}

/// The fields a root span declares empty: status code, error type and message,
/// resolved routing provider, classification, and duration.
pub open spec fn root_span_empty_fields() -> Seq<Seq<char>> {
    seq![
        "otel.status_code"@,
        "error.type"@,
        "error.message"@,
        "greentic.meta.routing.provider"@,
        "greentic.meta.classification"@,
        "greentic.op.duration_ms"@,
    ]
}

/// The names of a sequence of strings.
pub open spec fn names_view(names: Seq<String>) -> Seq<Seq<char>> {
    names.map_values(|s: String| s@)
}

fn empty_span_fields() -> (res: Vec<String>)
    ensures
        names_view(res@) == root_span_empty_fields(),
{
    let mut v: Vec<String> = Vec::new();
    v.push("otel.status_code".to_owned());
    v.push("error.type".to_owned());
    v.push("error.message".to_owned());
    v.push("greentic.meta.routing.provider".to_owned());
    v.push("greentic.meta.classification".to_owned());
    v.push("greentic.op.duration_ms".to_owned());
    assert(names_view(v@) =~= root_span_empty_fields());
    v
}

/// The root span of an operation, its attributes taken as given.
pub fn operation_root_span(op_name: &str, provider_type: &str, tenant: &str, team: &str) -> (res:
    RootSpanFields)
    ensures
        res.op_name@ == op_name@,
        res.provider_type@ == provider_type@,
        res.tenant_id@ == tenant@,
        res.team_id@ == team@,
        names_view(res.empty_fields@) == root_span_empty_fields(),
{
    RootSpanFields {
        op_name: op_name.to_owned(),
        provider_type: provider_type.to_owned(),
        tenant_id: tenant.to_owned(),
        team_id: team.to_owned(),
        empty_fields: empty_span_fields(),
    }
}

/// The root span of an operation with tenant attribution controls applied, or
/// `None` when the configuration creates no span for the operation: operation
/// subscriptions disabled, the operation excluded, or metrics-only mode.
pub fn operation_root_span_attributed(
    op_name: &str,
    provider_type: &str,
    tenant: &str,
    team: &str,
    config: &OperationSubsConfig,
) -> (res: Option<RootSpanFields>)
    ensures
        res is None <==> trace_suppressed(*config, op_name@),
        res matches Some(f) ==> {
            &&& f.op_name@ == op_name@
            &&& f.provider_type@ == provider_type@
            &&& f.tenant_id@ == attr_value(tenant@, config.include_tenant, config.hash_ids)
            &&& f.team_id@ == attr_value(team@, config.include_team, config.hash_ids)
            &&& names_view(f.empty_fields@) == root_span_empty_fields()
        },
{
    if traces_suppressed_for(config, op_name) {
        return None;
    }
    let t = maybe_attr(tenant, config.include_tenant, config.hash_ids);
    let tm = maybe_attr(team, config.include_team, config.hash_ids);
    Some(
        RootSpanFields {
            op_name: op_name.to_owned(),
            provider_type: provider_type.to_owned(),
            tenant_id: t,
            team_id: tm,
            empty_fields: empty_span_fields(),
        },
    )
}

// ---------------------------------------------------------------------------
// Metric labels
// ---------------------------------------------------------------------------

/// One metric label (an OpenTelemetry key/value attribute).
#[derive(Clone, Debug)]
pub struct MetricLabel {
    pub key: String,
    pub value: String,
}

/// The labels as pairs of key and value.
pub open spec fn labels_view(labels: Seq<MetricLabel>) -> Seq<(Seq<char>, Seq<char>)> {
    labels.map_values(|l: MetricLabel| (l.key@, l.value@))
}

/// The view of an optional team argument.
pub open spec fn opt_view(s: Option<&str>) -> Option<Seq<char>> {
    match s {
        Some(t) => Some(t@),
        None => None,
    }
}

/// The team label, present only when a team is given; it is hashed like the tenant.
pub open spec fn team_label(team: Option<Seq<char>>, hash_ids: bool) -> Seq<(Seq<char>, Seq<char>)> {
    match team {
        Some(t) => seq![("greentic.team.id"@, attr_value(t, true, hash_ids))],
        None => Seq::empty(),
    }
}

/// Labels of the duration histogram and the operation counter. The tenant is
/// always present (hashed when requested).
pub open spec fn operation_labels(
    op_name: Seq<char>,
    provider_type: Seq<char>,
    status: Seq<char>,
    tenant: Seq<char>,
    team: Option<Seq<char>>,
    hash_ids: bool,
) -> Seq<(Seq<char>, Seq<char>)> {
    seq![
        ("greentic.op.name"@, op_name),
        ("greentic.provider.type"@, provider_type),
        ("greentic.op.status"@, status),
        ("greentic.tenant.id"@, attr_value(tenant, true, hash_ids)),
    ] + team_label(team, hash_ids)
}

/// Labels of the error counter. The tenant is always present (hashed when requested).
pub open spec fn error_labels(
    op_name: Seq<char>,
    provider_type: Seq<char>,
    error_code: Seq<char>,
    tenant: Seq<char>,
    team: Option<Seq<char>>,
    hash_ids: bool,
) -> Seq<(Seq<char>, Seq<char>)> {
    seq![
        ("greentic.op.name"@, op_name),
        ("greentic.provider.type"@, provider_type),
        ("greentic.op.error_code"@, error_code),
        ("greentic.tenant.id"@, attr_value(tenant, true, hash_ids)),
    ] + team_label(team, hash_ids)
}

/// Whether metrics about the operation `name` are suppressed: subscriptions
/// disabled, traces-only mode, or the name excluded.
pub open spec fn metrics_suppressed(config: OperationSubsConfig, name: Seq<char>) -> bool {
    ||| !config.enabled
    ||| config.mode == SubsMode::TracesOnly
    ||| is_excluded(config, name)
}

/// Whether metrics about `name` are suppressed under `config`.
fn metrics_suppressed_for(config: &OperationSubsConfig, name: &str) -> (res: bool)
    ensures
        res == metrics_suppressed(*config, name@),
{
    if !config.enabled {
        return true;
    }
    match config.mode {
        SubsMode::TracesOnly => {
            return true;
        },
        _ => {},
    }
    list_contains(&config.exclude_ops, name)
}

/// The team that metric labels carry under `config`.
pub open spec fn metrics_team(config: OperationSubsConfig, team: Seq<char>) -> Option<Seq<char>> {
    if config.include_team_in_metrics {
        Some(team)
    } else {
        None
    }
}

/// Labels for recording an operation's duration and count (the caller records
/// the duration itself). Tenant only, unhashed.
pub fn record_operation_metric(
    op_name: &str,
    provider_type: &str,
    status: &str,
    tenant: &str,
) -> (res: Vec<MetricLabel>)
    ensures
        labels_view(res@) == operation_labels(
            op_name@,
            provider_type@,
            status@,
            tenant@,
            None,
            false,
        ),
{
    metrics_impl::record(op_name, provider_type, status, tenant, None, false)
}

/// Labels for recording an operation's duration and count with attribution
/// controls (the team only when `include_team_in_metrics`, IDs hashed when
/// `hash_ids`), or `None` when the configuration records no metrics for the
/// operation.
pub fn record_operation_metric_attributed(
    op_name: &str,
    provider_type: &str,
    status: &str,
    tenant: &str,
    team: &str,
    config: &OperationSubsConfig,
) -> (res: Option<Vec<MetricLabel>>)
    ensures
        res is None <==> metrics_suppressed(*config, op_name@),
        res matches Some(labels) ==> labels_view(labels@) == operation_labels(
            op_name@,
            provider_type@,
            status@,
            tenant@,
            metrics_team(*config, team@),
            config.hash_ids,
        ),
{
    if metrics_suppressed_for(config, op_name) {
        return None;
    }
    let team_opt = if config.include_team_in_metrics {
        Some(team)
    } else {
        None
    };
    Some(metrics_impl::record(op_name, provider_type, status, tenant, team_opt, config.hash_ids))
}

/// Labels for recording an operation error. Tenant only, unhashed.
pub fn record_operation_error_metric(
    op_name: &str,
    provider_type: &str,
    error_code: &str,
    tenant: &str,
) -> (res: Vec<MetricLabel>)
    ensures
        labels_view(res@) == error_labels(
            op_name@,
            provider_type@,
            error_code@,
            tenant@,
            None,
            false,
        ),
{
    metrics_impl::record_error(op_name, provider_type, error_code, tenant, None, false)
}

/// Labels for recording an operation error with attribution controls, or
/// `None` when the configuration records no metrics for the operation.
pub fn record_operation_error_metric_attributed(
    op_name: &str,
    provider_type: &str,
    error_code: &str,
    tenant: &str,
    team: &str,
    config: &OperationSubsConfig,
) -> (res: Option<Vec<MetricLabel>>)
    ensures
        res is None <==> metrics_suppressed(*config, op_name@),
        res matches Some(labels) ==> labels_view(labels@) == error_labels(
            op_name@,
            provider_type@,
            error_code@,
            tenant@,
            metrics_team(*config, team@),
            config.hash_ids,
        ),
{
    if metrics_suppressed_for(config, op_name) {
        return None;
    }
    let team_opt = if config.include_team_in_metrics {
        Some(team)
    } else {
        None
    };
    Some(
        metrics_impl::record_error(
            op_name,
            provider_type,
            error_code,
            tenant,
            team_opt,
            config.hash_ids,
        ),
    )
}

} // verus!
