use vstd::prelude::*;
use crate::metric_name::load_avg_name;
use crate::protocol::ActivityStream;
use crate::protocol::GetMetricSpecResponse;
use crate::protocol::GetMetricsRequest;
use crate::protocol::GetMetricsResponse;
use crate::protocol::IsActiveResponse;
use crate::protocol::ScaledObjectRef;
use crate::protocol::ScalerError;
use crate::scalar::Scalar;
use crate::scaler::metric_specs_ok;
use crate::scaler::metric_values_ok;
use crate::scaler::KedaScaler;
use crate::scaler::RefreshOutcome;

verus! {

/// The closed set of operations the external scaler protocol defines. A
/// metric-spec query carries the outcome of parsing its threshold override
/// at the process edge (see `get_metric_spec`).
#[derive(Clone, Debug, PartialEq, Eq)]
pub enum ScalerRequest {
    IsActive(ScaledObjectRef),
    StreamIsActive(ScaledObjectRef),
    GetMetricSpec(ScaledObjectRef, Option<Scalar>),
    GetMetrics(GetMetricsRequest),
}

/// The successful answer to each operation.
#[derive(Clone, Debug, PartialEq, Eq)]
pub enum ScalerResponse {
    Active(IsActiveResponse),
    ActiveStream(ActivityStream),
    MetricSpec(GetMetricSpecResponse),
    Metrics(GetMetricsResponse),
}

/// The server side of the fixed scaler protocol: one dispatcher over the
/// closed operation set, serving from one scaler. The process edge decodes
/// a wire request into a [`ScalerRequest`], drives `handle`, and encodes
/// the answer; it shares this server between the query handlers and the
/// refresh loop under a mutual exclusion scoped to each call.
pub struct ScalerServer {
    pub scaler: KedaScaler,
}

impl ScalerServer {
    pub open spec fn wf(&self) -> bool {
        self.scaler.wf()
    }

    /// Dispatches one protocol operation to its handler. The match is
    /// exhaustive over the operation set: every operation has a handler,
    /// and what each one answers is pinned below.
    pub fn handle(&self, request: &ScalerRequest) -> (r: Result<ScalerResponse, ScalerError>)
        requires
            self.wf(),
        ensures
            (match request {
                ScalerRequest::IsActive(_) => r matches Ok(ScalerResponse::Active(a))
                    && a.result == true,
                ScalerRequest::StreamIsActive(_) => r == Err::<ScalerResponse, ScalerError>(
                    ScalerError::Unimplemented,
                ),
                ScalerRequest::GetMetricSpec(_, parsed_override) => r matches Ok(
                    ScalerResponse::MetricSpec(resp),
                ) && metric_specs_ok(self.scaler.config, *parsed_override, resp),
                ScalerRequest::GetMetrics(req) => {
                    if req.metric_name@ == load_avg_name() {
                        r matches Ok(ScalerResponse::Metrics(resp)) && metric_values_ok(
                            self.scaler.spec_current_metrics(),
                            resp,
                        )
                    } else {
                        r == Err::<ScalerResponse, ScalerError>(
                            ScalerError::InvalidArgument(req.metric_name),
                        )
                    }
                },
            }),
    {
        match request {
            ScalerRequest::IsActive(scaled_object) => {
                match self.scaler.is_active(scaled_object) {
                    Ok(a) => Ok(ScalerResponse::Active(a)),
                    Err(e) => Err(e),
                }
            },
            ScalerRequest::StreamIsActive(scaled_object) => {
                match self.scaler.stream_is_active(scaled_object) {
                    Ok(s) => Ok(ScalerResponse::ActiveStream(s)),
                    Err(e) => Err(e),
                }
            },
            ScalerRequest::GetMetricSpec(scaled_object, parsed_override) => {
                match self.scaler.get_metric_spec(scaled_object, *parsed_override) {
                    Ok(resp) => Ok(ScalerResponse::MetricSpec(resp)),
                    Err(e) => Err(e),
                }
            },
            ScalerRequest::GetMetrics(req) => {
                match self.scaler.get_metrics(req) {
                    Ok(resp) => Ok(ScalerResponse::Metrics(resp)),
                    Err(e) => Err(e),
                }
            },
        }
    }

    /// One refresh tick applied through the server, so the process edge
    /// can share a single locked value between the refresh loop and the
    /// query handlers; same contract as `KedaScaler::apply_refresh_outcome`.
    pub fn apply_refresh_outcome(&mut self, outcome: RefreshOutcome)
        requires
            old(self).wf(),
        ensures
            final(self).wf(),
            final(self).scaler.config == old(self).scaler.config,
            (match outcome {
                RefreshOutcome::Collected(snapshot) => {
                    &&& final(self).scaler.store().history() == old(
                        self,
                    ).scaler.store().history().push(snapshot)
                    &&& final(self).scaler.store().current() == Some(snapshot)
                },
                RefreshOutcome::Failed(_) => *final(self) == *old(self),
            }),
    {
        self.scaler.apply_refresh_outcome(outcome)
    }
}

impl KedaScaler {
    /// Wraps this scaler as the protocol server the process edge drives.
    pub fn into_server(self) -> (r: ScalerServer)
        ensures
            r.scaler == self,
    {
        ScalerServer { scaler: self }
    }
}

} // verus!
