//! A pull-based external scaler for a fleet of worker processes.
//!
//! A background refresh loop periodically reduces the fleet's raw load
//! reports to a single snapshot and publishes it to a single-slot store;
//! query handlers serve the latest snapshot — or a well-formed default
//! before the first successful refresh — to an autoscaling controller
//! through a fixed four-operation protocol.

pub mod metadata;
pub mod metric_name;
pub mod protocol;
pub mod scalar;
pub mod scaler;
pub mod server;
pub mod snapshot;

pub use metadata::Metadata;
pub use metric_name::MetricName;
pub use protocol::ActivityStream;
pub use protocol::GetMetricSpecResponse;
pub use protocol::GetMetricsRequest;
pub use protocol::GetMetricsResponse;
pub use protocol::IsActiveResponse;
pub use protocol::MetricSpec;
pub use protocol::MetricValue;
pub use protocol::ScaledObjectRef;
pub use protocol::ScalerError;
pub use scalar::Scalar;
pub use scalar::DEFAULT_LOAD_AVG_THRESHOLD_BITS;
pub use scaler::get_metric_name;
pub use scaler::threshold_override;
pub use scaler::KedaScaler;
pub use scaler::RefreshOutcome;
pub use scaler::ScalerConfig;
pub use server::ScalerRequest;
pub use server::ScalerResponse;
pub use server::ScalerServer;
pub use snapshot::LoadSnapshot;
pub use snapshot::SnapshotStore;
