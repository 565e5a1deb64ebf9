//! The label set of the state operation counter and duration histogram.

use vstd::prelude::*;

use super::state_labels;
use crate::operation_subs::{labels_view, MetricLabel};

verus! {

/// Labels of one state operation recording.
pub fn record(op_name: &str, status: &str) -> (res: Vec<MetricLabel>)
    ensures
        labels_view(res@) == state_labels(op_name@, status@),
{
    let mut attrs: Vec<MetricLabel> = Vec::new();
    attrs.push(MetricLabel { key: "greentic.state.op".to_owned(), value: op_name.to_owned() });
    attrs.push(MetricLabel { key: "greentic.state.status".to_owned(), value: status.to_owned() });
    assert(labels_view(attrs@) =~= state_labels(op_name@, status@));
    attrs
}

} // verus!
