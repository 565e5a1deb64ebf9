//! State-specific subscription events and metric labels, and the key hashing
//! that keeps raw state keys out of audit logs.

use vstd::prelude::*;

use crate::hex::{format_hex_u64, hex_u64};
use crate::operation_subs::{labels_view, MetricLabel, OperationSubsConfig};
use crate::text::str_eq;
use vstd::utf8::encode_utf8;

pub mod metrics_impl;

verus! {

/// FNV-1a 64-bit offset basis.
pub const FNV_OFFSET_BASIS: u64 = 0xcbf29ce484222325;

/// FNV-1a 64-bit prime.
pub const FNV_PRIME: u64 = 0x100000001b3;

/// One FNV-1a round: xor in the byte, then multiply by the prime modulo 2^64.
pub open spec fn fnv1a_step(hash: u64, byte: u8) -> u64 {
    ((((hash ^ (byte as u64)) as nat) * (FNV_PRIME as nat)) % 0x1_0000_0000_0000_0000nat) as u64
}

/// FNV-1a 64-bit hash of a byte sequence.
pub open spec fn fnv1a_64(bytes: Seq<u8>) -> u64
    decreases bytes.len(),
{
    if bytes.len() == 0 {
        FNV_OFFSET_BASIS
    } else {
        fnv1a_step(fnv1a_64(bytes.drop_last()), bytes.last())
    }
}

/// The audit rendering of a key: FNV-1a 64 of its UTF-8 bytes as sixteen lowercase hex digits.
pub open spec fn audit_key_hash(key: Seq<char>) -> Seq<char> {
    hex_u64(fnv1a_64(encode_utf8(key)))
}

/// Hash a state key for audit logging purposes.
///
/// Uses FNV-1a 64-bit to produce a short hex string, so that raw key values
/// stay out of telemetry while entries can still be correlated.
pub fn hash_key_for_audit(key: &str) -> (res: String)
    ensures
        res@ == audit_key_hash(key@),
        res@.len() == 16,
{
    let bytes = key.as_bytes();
    let n = bytes.len();
    let mut hash: u64 = FNV_OFFSET_BASIS;
    for i in 0..n
        invariant
            n == bytes@.len(),
            hash == fnv1a_64(bytes@.subrange(0, i as int)),
    {
        assert(bytes@.subrange(0, i + 1).drop_last() =~= bytes@.subrange(0, i as int));
        hash ^= bytes[i] as u64;
        hash = hash.wrapping_mul(FNV_PRIME);
    }
    assert(bytes@.subrange(0, n as int) =~= bytes@);
    format_hex_u64(hash)
}

/// The fields of a `greentic.state.op.pre` span and its `state.op.requested` event.
#[derive(Clone, Debug)]
pub struct StateOpPre {
    pub op_name: String,
    pub namespace: String,
    pub key_hash: String,
    pub tenant_id: String,
    pub team_id: String,
}

/// The fields of a `greentic.state.op.post` span and its `state.op.completed`
/// event, its duration aside.
#[derive(Clone, Debug)]
pub struct StateOpPost {
    pub op_name: String,
    pub namespace: String,
    pub key_hash: String,
    pub tenant_id: String,
    pub team_id: String,
    pub status: String,
}

/// The state operation pre-subscription event with hashed key, or `None` when
/// operation subscriptions are disabled.
pub fn emit_state_op_pre(
    config: &OperationSubsConfig,
    op_name: &str,
    namespace: &str,
    key_hash: &str,
    tenant: &str,
    team: &str,
) -> (res: Option<StateOpPre>)
    ensures
        res is None <==> !config.enabled,
        res matches Some(e) ==> {
            &&& e.op_name@ == op_name@
            &&& e.namespace@ == namespace@
            &&& e.key_hash@ == key_hash@
            &&& e.tenant_id@ == tenant@
            &&& e.team_id@ == team@
        },
{
    if !config.enabled {
        return None;
    }
    Some(
        StateOpPre {
            op_name: op_name.to_owned(),
            namespace: namespace.to_owned(),
            key_hash: key_hash.to_owned(),
            tenant_id: tenant.to_owned(),
            team_id: team.to_owned(),
        },
    )
}

/// Whether a state post-operation event is suppressed: subscriptions disabled,
/// or a denied operation while denied operations are not included.
pub open spec fn state_post_suppressed(config: OperationSubsConfig, status: Seq<char>) -> bool {
    ||| !config.enabled
    ||| (!config.include_denied && status == "denied"@)
}

/// The state operation post-subscription event with hashed key and outcome, or
/// `None` when it is suppressed. The caller adds the duration.
pub fn emit_state_op_post(
    config: &OperationSubsConfig,
    op_name: &str,
    namespace: &str,
    key_hash: &str,
    tenant: &str,
    team: &str,
    status: &str,
) -> (res: Option<StateOpPost>)
    ensures
        res is None <==> state_post_suppressed(*config, status@),
        res matches Some(e) ==> {
            &&& e.op_name@ == op_name@
            &&& e.namespace@ == namespace@
            &&& e.key_hash@ == key_hash@
            &&& e.tenant_id@ == tenant@
            &&& e.team_id@ == team@
            &&& e.status@ == status@
        },
{
    if !config.enabled {
        return None;
    }
    if !config.include_denied && str_eq(status, "denied") {
        return None;
    }
    Some(
        StateOpPost {
            op_name: op_name.to_owned(),
            namespace: namespace.to_owned(),
            key_hash: key_hash.to_owned(),
            tenant_id: tenant.to_owned(),
            team_id: team.to_owned(),
            status: status.to_owned(),
        },
    )
}

/// Labels of the state operation counter and duration histogram.
pub open spec fn state_labels(op_name: Seq<char>, status: Seq<char>) -> Seq<(Seq<char>, Seq<char>)> {
    seq![("greentic.state.op"@, op_name), ("greentic.state.status"@, status)]
}

/// Labels for recording a state operation (the caller records count and duration).
///
/// `op_name` is one of `state.get`, `state.put`, `state.delete`, `state.list`, `state.cas`;
/// `status` is one of `hit`, `miss`, `ok`, `err`, `denied`.
pub fn record_state_metric(op_name: &str, status: &str) -> (res: Vec<MetricLabel>)
    ensures
        labels_view(res@) == state_labels(op_name@, status@),
{
    metrics_impl::record(op_name, status)
}

} // verus!
