use vstd::prelude::*;
use crate::metadata::str_eq;

verus! {

/// The name under which the aggregate load-average metric is offered.
pub open spec fn load_avg_name() -> Seq<char> {
    "llm_load_avg"@
}

/// The metrics this scaler supports. The supported set has exactly one
/// member: the aggregate load average of the fleet.
#[derive(Clone, Copy, Debug, PartialEq, Eq, Structural)]
pub enum MetricName {
    LoadAvg,
}

impl MetricName {
    /// The wire name of this metric.
    pub fn as_str(&self) -> (r: &'static str)
        ensures
            r@ == load_avg_name(),
    {
        match self {
            MetricName::LoadAvg => "llm_load_avg",
        }
    }

    /// Parses a wire name; `None` for any name outside the supported set.
    pub fn from_str(s: &str) -> (r: Option<MetricName>)
        ensures
            r == (if s@ == load_avg_name() {
                Some(MetricName::LoadAvg)
            } else {
                None::<MetricName>
            }),
    {
        if str_eq(s, "llm_load_avg") {
            Some(MetricName::LoadAvg)
        } else {
            None
        }
    }
}

} // verus!
