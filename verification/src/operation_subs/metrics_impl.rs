//! The label sets of the operation duration histogram, the operation counter
//! and the error counter.

use vstd::prelude::*;

use super::{error_labels, labels_view, maybe_attr, opt_view, operation_labels, MetricLabel};

verus! {

fn label(key: &str, value: String) -> (res: MetricLabel)
    ensures
        res.key@ == key@,
        res.value@ == value@,
{
    MetricLabel { key: key.to_owned(), value }
}

fn push_team(attrs: &mut Vec<MetricLabel>, team: Option<&str>, hash_ids: bool)
    ensures
        labels_view(final(attrs)@) == labels_view(old(attrs)@) + super::team_label(
            opt_view(team),
            hash_ids,
        ),
{
    let ghost before = attrs@;
    if let Some(team_val) = team {
        let effective_team = maybe_attr(team_val, true, hash_ids);
        attrs.push(label("greentic.team.id", effective_team));
        assert(labels_view(attrs@) =~= labels_view(before) + super::team_label(
            opt_view(team),
            hash_ids,
        ));
    } else {
        assert(labels_view(attrs@) =~= labels_view(before) + super::team_label(
            opt_view(team),
            hash_ids,
        ));
    }
}

/// Labels of one duration and count recording.
pub fn record(
    op_name: &str,
    provider_type: &str,
    status: &str,
    tenant: &str,
    team: Option<&str>,
    hash_ids: bool,
) -> (res: Vec<MetricLabel>)
    ensures
        labels_view(res@) == operation_labels(
            op_name@,
            provider_type@,
            status@,
            tenant@,
            opt_view(team),
            hash_ids,
        ),
{
    let effective_tenant = maybe_attr(tenant, true, hash_ids);
    let mut attrs: Vec<MetricLabel> = Vec::new();
    attrs.push(label("greentic.op.name", op_name.to_owned()));
    attrs.push(label("greentic.provider.type", provider_type.to_owned()));
    attrs.push(label("greentic.op.status", status.to_owned()));
    attrs.push(label("greentic.tenant.id", effective_tenant));
    push_team(&mut attrs, team, hash_ids);
    assert(labels_view(attrs@) =~= operation_labels(
        op_name@,
        provider_type@,
        status@,
        tenant@,
        opt_view(team),
        hash_ids,
    ));
    attrs
}

/// Labels of one error-counter increment.
pub fn record_error(
    op_name: &str,
    provider_type: &str,
    error_code: &str,
    tenant: &str,
    team: Option<&str>,
    hash_ids: bool,
) -> (res: Vec<MetricLabel>)
    ensures
        labels_view(res@) == error_labels(
            op_name@,
            provider_type@,
            error_code@,
            tenant@,
            opt_view(team),
            hash_ids,
        ),
{
    let effective_tenant = maybe_attr(tenant, true, hash_ids);
    let mut attrs: Vec<MetricLabel> = Vec::new();
    attrs.push(label("greentic.op.name", op_name.to_owned()));
    attrs.push(label("greentic.provider.type", provider_type.to_owned()));
    attrs.push(label("greentic.op.error_code", error_code.to_owned()));
    attrs.push(label("greentic.tenant.id", effective_tenant));
    push_team(&mut attrs, team, hash_ids);
    assert(labels_view(attrs@) =~= error_labels(
        op_name@,
        provider_type@,
        error_code@,
        tenant@,
        opt_view(team),
        hash_ids,
    ));
    attrs
}

} // verus!
