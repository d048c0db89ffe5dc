use vstd::prelude::*;
use crate::metadata::Metadata;
use crate::metric_name::load_avg_name;
use crate::metric_name::MetricName;
use crate::protocol::ActivityStream;
use crate::protocol::GetMetricSpecResponse;
use crate::protocol::GetMetricsRequest;
use crate::protocol::GetMetricsResponse;
use crate::protocol::IsActiveResponse;
use crate::protocol::MetricSpec;
use crate::protocol::MetricValue;
use crate::protocol::ScaledObjectRef;
use crate::protocol::ScalerError;
use crate::scalar::Scalar;
use crate::snapshot::LoadSnapshot;
use crate::snapshot::SnapshotStore;

verus! {

/// The metadata key under which a scaled object may override the
/// load-average threshold.
pub open spec fn threshold_key() -> Seq<char> {
    "loadAvgThreshold"@
}

/// The threshold spec negotiation serves: the parsed override when the
/// scaled object supplied a valid one, else the configured default.
pub open spec fn resolved_threshold(config: ScalerConfig, parsed_override: Option<Scalar>) -> Scalar {
    match parsed_override {
        Some(t) => t,
        None => config.default_threshold,
    }
}

/// What a well-served metric-spec response looks like: exactly one spec,
/// for the supported metric, at the resolved threshold, with the
/// deprecated integer twin zeroed.
pub open spec fn metric_specs_ok(
    config: ScalerConfig,
    parsed_override: Option<Scalar>,
    resp: GetMetricSpecResponse,
) -> bool {
    &&& resp.metric_specs@.len() == 1
    &&& resp.metric_specs@[0].metric_name@ == load_avg_name()
    &&& resp.metric_specs@[0].target_size == 0
    &&& resp.metric_specs@[0].target_size_float == resolved_threshold(config, parsed_override)
}

/// What a well-served metric-values response looks like: exactly one
/// value, for the supported metric, carrying the served snapshot's load
/// average, with the deprecated integer twin zeroed.
pub open spec fn metric_values_ok(served: LoadSnapshot, resp: GetMetricsResponse) -> bool {
    &&& resp.metric_values@.len() == 1
    &&& resp.metric_values@[0].metric_name@ == load_avg_name()
    &&& resp.metric_values@[0].metric_value == 0
    &&& resp.metric_values@[0].metric_value_float == served.load_avg
}

/// The parameters fixed at process start: which fleet subject the refresh
/// loop monitors, how often it refreshes, and the default threshold served
/// when a scaled object supplies no valid override. Immutable after start;
/// changing them takes a process restart.
#[derive(Clone, Debug, PartialEq, Eq)]
pub struct ScalerConfig {
    pub component_name: String,
    pub endpoint_name: String,
    pub refresh_interval_secs: u64,
    pub default_threshold: Scalar,
}

/// What one tick of the refresh loop came back with, after the outside
/// collection and reduction have run.
#[derive(Clone, Debug, PartialEq, Eq)]
pub enum RefreshOutcome {
    /// Collection and reduction succeeded and produced this snapshot.
    Collected(LoadSnapshot),
    /// The tick failed — timeout, transport error, empty fleet, or reducer
    /// error; the payload describes it for diagnostics.
    Failed(String),
}

/// The external scaler: serves the four query-protocol operations from the
/// latest snapshot the refresh loop has published.
pub struct KedaScaler {
    pub config: ScalerConfig,
    /// The single-slot cache shared with the refresh loop. The loop is its
    /// only writer, through `apply_refresh_outcome`.
    pub snapshot_store: SnapshotStore,
}

impl KedaScaler {
    /// The single-slot store this scaler serves from.
    pub open spec fn store(&self) -> SnapshotStore {
        self.snapshot_store
    }

    pub open spec fn wf(&self) -> bool {
        self.store().wf()
    }

    /// The snapshot queries are answered from right now: the latest
    /// published one, or the default — zero load — before the first
    /// successful refresh.
    pub open spec fn spec_current_metrics(&self) -> LoadSnapshot {
        match self.store().current() {
            Some(snapshot) => snapshot,
            None => LoadSnapshot::spec_default(),
        }
    }

    /// A scaler with the given configuration and an empty store: no
    /// refresh has run yet.
    pub fn new(config: ScalerConfig) -> (s: KedaScaler)
        ensures
            s.wf(),
            s.config == config,
            s.store().history() == Seq::<LoadSnapshot>::empty(),
            s.store().current() is None,
    {
        KedaScaler { config, snapshot_store: SnapshotStore::new() }
    }

    /// Kept for call-site compatibility; time-based expiry is not part of
    /// the staleness policy. The last successful snapshot is retained until
    /// the next success, however long that takes, so the value is unused
    /// and the scaler is returned unchanged.
    pub fn with_cache_ttl(self, _ttl_seconds: u64) -> (r: KedaScaler)
        ensures
            r == self,
    {
        self
    }

    /// One tick of the refresh loop, after the outside collection and
    /// reduction have run: a successful tick publishes its snapshot; a
    /// failed tick changes nothing, leaving the previous snapshot (if any)
    /// authoritative. Stale but available: a transient failure never
    /// degrades queries below the last known-good state, and never stops
    /// the loop.
    pub fn apply_refresh_outcome(&mut self, outcome: RefreshOutcome)
        requires
            old(self).wf(),
        ensures
            final(self).wf(),
            final(self).config == old(self).config,
            (match outcome {
                RefreshOutcome::Collected(snapshot) => {
                    &&& final(self).store().history() == old(self).store().history().push(snapshot)
                    &&& final(self).store().current() == Some(snapshot)
                },
                RefreshOutcome::Failed(_) => *final(self) == *old(self),
            }),
    {
        match outcome {
            RefreshOutcome::Collected(snapshot) => self.snapshot_store.publish(snapshot),
            RefreshOutcome::Failed(_) => (),
        }
    }

    /// The snapshot to serve right now. Never fails: before the first
    /// successful refresh the default snapshot is served, since absence of
    /// data reads as "no load", not as an error.
    pub fn get_current_metrics(&self) -> (r: Result<LoadSnapshot, ScalerError>)
        requires
            self.wf(),
        ensures
            r == Ok::<LoadSnapshot, ScalerError>(self.spec_current_metrics()),
    {
        match self.snapshot_store.read() {
            Some(snapshot) => Ok(snapshot),
            None => Ok(LoadSnapshot::default()),
        }
    }

    /// Always active, whatever the scaled object — empty or malformed
    /// included. This scaler backs worker pools that must never scale to
    /// zero, since a zero-replica fleet cannot process the next request;
    /// the check is a deliberate constant, not a computed signal.
    pub fn is_active(&self, _scaled_object: &ScaledObjectRef) -> (r: Result<
        IsActiveResponse,
        ScalerError,
    >)
        ensures
            r == Ok::<IsActiveResponse, ScalerError>((IsActiveResponse { result: true })),
    {
        Ok(IsActiveResponse { result: true })
    }

    /// Push-based activity notification is a permanent policy rejection,
    /// not a missing feature: every call fails as unimplemented, whatever
    /// the scaled object, directing the caller to the pull-based path.
    pub fn stream_is_active(&self, _scaled_object: &ScaledObjectRef) -> (r: Result<
        ActivityStream,
        ScalerError,
    >)
        ensures
            r == Err::<ActivityStream, ScalerError>(ScalerError::Unimplemented),
    {
        Err(ScalerError::Unimplemented)
    }

    /// The metric specs for one scaled object: the single supported
    /// metric, at the resolved threshold. `parsed_override` is the outcome
    /// of parsing `threshold_override(..)` as a number at the process edge
    /// (that parse is floating point, outside this core); an absent and an
    /// unparseable override both arrive here as `None`, so both fall back
    /// to the configured default rather than failing the call.
    pub fn get_metric_spec(
        &self,
        _scaled_object: &ScaledObjectRef,
        parsed_override: Option<Scalar>,
    ) -> (r: Result<GetMetricSpecResponse, ScalerError>)
        ensures
            r matches Ok(resp) && metric_specs_ok(self.config, parsed_override, resp),
    {
        let threshold = match parsed_override {
            Some(t) => t,
            None => self.config.default_threshold,
        };
        let mut metric_specs: Vec<MetricSpec> = Vec::new();
        metric_specs.push(
            MetricSpec {
                metric_name: MetricName::LoadAvg.as_str().to_owned(),
                target_size: 0,
                target_size_float: threshold,
            },
        );
        Ok(GetMetricSpecResponse { metric_specs })
    }

    /// The current value of the named metric. An unsupported name is a
    /// request-level rejection — carrying the offending name — before the
    /// store is consulted; the supported name is served from the latest
    /// snapshot, or from the default snapshot (zero load) before the first
    /// successful refresh.
    pub fn get_metrics(&self, request: &GetMetricsRequest) -> (r: Result<
        GetMetricsResponse,
        ScalerError,
    >)
        requires
            self.wf(),
        ensures
            request.metric_name@ == load_avg_name() ==> (r matches Ok(resp)
                && metric_values_ok(self.spec_current_metrics(), resp)),
            request.metric_name@ != load_avg_name() ==> r == Err::<
                GetMetricsResponse,
                ScalerError,
            >(ScalerError::InvalidArgument(request.metric_name)),
    {
        let metric_name = match MetricName::from_str(request.metric_name.as_str()) {
            Some(name) => name,
            None => {
                return Err(ScalerError::InvalidArgument(request.metric_name.clone()));
            },
        };
        let served = match self.get_current_metrics() {
            Ok(snapshot) => snapshot,
            Err(e) => {
                return Err(e);
            },
        };
        let mut metric_values: Vec<MetricValue> = Vec::new();
        match metric_name {
            MetricName::LoadAvg => {
                metric_values.push(
                    MetricValue {
                        metric_name: MetricName::LoadAvg.as_str().to_owned(),
                        metric_value: 0,
                        metric_value_float: served.load_avg,
                    },
                );
            },
        }
        Ok(GetMetricsResponse { metric_values })
    }
}

/// The raw threshold override a scaled object supplied under the threshold
/// key, if any. The caller parses it as a number — that parse is floating
/// point and lives at the process edge — and hands the outcome to
/// `get_metric_spec`.
pub fn threshold_override(scaled_object: &ScaledObjectRef) -> (r: Option<&String>)
    ensures
        (match r {
            Some(v) => scaled_object.scaler_metadata.spec_get(threshold_key()) == Some(v@),
            None => scaled_object.scaler_metadata.spec_get(threshold_key()) is None,
        }),
{
    scaled_object.scaler_metadata.get("loadAvgThreshold")
}

/// The metric a scaled object's metadata scales on: the name under the
/// metric-name key when it is a supported one, else the aggregate load
/// average as the default. With exactly one supported metric this always
/// resolves to the load average.
pub fn get_metric_name(metadata: &Metadata) -> (r: MetricName)
    ensures
        r == MetricName::LoadAvg,
{
    match metadata.get("metricName") {
        Some(value) => match MetricName::from_str(value.as_str()) {
            Some(name) => name,
            None => MetricName::LoadAvg,
        },
        None => MetricName::LoadAvg,
    }
}

/// Before any successful refresh, a metrics query is answered with the
/// default snapshot — zero load, zero dispersion, no endpoints — never
/// with an error: an autoscaling controller asking during startup gets a
/// well-formed low-signal answer.
pub proof fn lemma_default_served_before_first_refresh(s: &KedaScaler)
    requires
        s.wf(),
        s.store().history().len() == 0,
    ensures
        s.spec_current_metrics() == LoadSnapshot::spec_default(),
        s.spec_current_metrics().load_avg == (Scalar { bits: 0 }),
{
}

/// Once some refresh has succeeded, queries serve the most recently
/// published snapshot — even when every tick since then has failed, since
/// a failed tick changes nothing (`apply_refresh_outcome`): stale but
/// available.
pub proof fn lemma_stale_but_available(s: &KedaScaler)
    requires
        s.wf(),
        s.store().history().len() > 0,
    ensures
        s.spec_current_metrics() == s.store().history().last(),
{
}

/// The served threshold is the parsed override when the scaled object
/// supplied a valid one, and the configured default when the override was
/// absent or unparseable — both reach spec negotiation as `None` — rather
/// than a failed call.
pub proof fn lemma_threshold_fallback(
    config: ScalerConfig,
    parsed_override: Option<Scalar>,
    resp: GetMetricSpecResponse,
)
    requires
        metric_specs_ok(config, parsed_override, resp),
    ensures
        parsed_override matches Some(t) ==> resp.metric_specs@[0].target_size_float == t,
        parsed_override is None ==> resp.metric_specs@[0].target_size_float
            == config.default_threshold,
{
}

/// Negotiating metric specs is idempotent and side-effect free: the
/// handler takes `&self`, so it cannot touch the snapshot store, and any
/// two responses meeting its contract for the same configuration and the
/// same override carry identical specs — identical names, thresholds and
/// sizes.
pub proof fn lemma_metric_spec_idempotent(
    config: ScalerConfig,
    parsed_override: Option<Scalar>,
    r1: GetMetricSpecResponse,
    r2: GetMetricSpecResponse,
)
    requires
        metric_specs_ok(config, parsed_override, r1),
        metric_specs_ok(config, parsed_override, r2),
    ensures
        r1.metric_specs@.len() == r2.metric_specs@.len(),
        r1.metric_specs@[0].metric_name@ == r2.metric_specs@[0].metric_name@,
        r1.metric_specs@[0].target_size == r2.metric_specs@[0].target_size,
        r1.metric_specs@[0].target_size_float == r2.metric_specs@[0].target_size_float,
{
}

} // verus!
