use vstd::prelude::*;
use crate::metadata::Metadata;
use crate::scalar::Scalar;

verus! {

/// Identifies the scaled object a controller query is about, with its
/// per-request key/value tuning metadata. The field shapes follow the fixed
/// external scaler protocol.
#[derive(Clone, Debug, PartialEq, Eq)]
pub struct ScaledObjectRef {
    pub name: String,
    pub namespace: String,
    pub scaler_metadata: Metadata,
}

impl ScaledObjectRef {
    /// A reference with empty names and no metadata.
    pub fn new() -> (r: ScaledObjectRef)
        ensures
            r.name@ == Seq::<char>::empty(),
            r.namespace@ == Seq::<char>::empty(),
            r.scaler_metadata.entries@ == Seq::<(String, String)>::empty(),
    {
        ScaledObjectRef { name: String::new(), namespace: String::new(), scaler_metadata: Metadata::new() }
    }
}

/// A request for the current value of one named metric.
#[derive(Clone, Debug, PartialEq, Eq)]
pub struct GetMetricsRequest {
    pub scaled_object_ref: Option<ScaledObjectRef>,
    pub metric_name: String,
}

/// One metric the scaler offers, with the target threshold the controller
/// should scale against. `target_size` is a deprecated integer twin of
/// `target_size_float` that the protocol still carries; it is always zero.
#[derive(Clone, Debug, PartialEq, Eq)]
pub struct MetricSpec {
    pub metric_name: String,
    pub target_size: i64,
    pub target_size_float: Scalar,
}

/// The metric specs negotiated for one scaled object.
#[derive(Clone, Debug, PartialEq, Eq)]
pub struct GetMetricSpecResponse {
    pub metric_specs: Vec<MetricSpec>,
}

/// One metric's current value. `metric_value` is a deprecated integer twin
/// of `metric_value_float` that the protocol still carries; it is always
/// zero.
#[derive(Clone, Debug, PartialEq, Eq)]
pub struct MetricValue {
    pub metric_name: String,
    pub metric_value: i64,
    pub metric_value_float: Scalar,
}

/// The current values served for one metrics query.
#[derive(Clone, Debug, PartialEq, Eq)]
pub struct GetMetricsResponse {
    pub metric_values: Vec<MetricValue>,
}

/// Whether the scaled object should be considered active.
#[derive(Clone, Copy, Debug, PartialEq, Eq, Structural)]
pub struct IsActiveResponse {
    pub result: bool,
}

/// A push-style activity subscription. This scaler is a pull-only
/// responder and never produces one: every subscription attempt is
/// rejected as unimplemented.
#[derive(Clone, Debug, PartialEq, Eq)]
pub struct ActivityStream {
    pub updates: Vec<IsActiveResponse>,
}

/// A request-level rejection. The process edge renders it into the wire
/// protocol's status codes and message text.
#[derive(Clone, Debug, PartialEq, Eq)]
pub enum ScalerError {
    /// The request named a metric outside the supported set; the payload is
    /// the offending name.
    InvalidArgument(String),
    /// The operation is permanently unsupported: the caller should use the
    /// pull-based query path instead.
    Unimplemented,
}

} // verus!
