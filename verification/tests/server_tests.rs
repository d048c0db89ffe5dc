use metrics_keda::GetMetricsRequest;
use metrics_keda::KedaScaler;
use metrics_keda::LoadSnapshot;
use metrics_keda::RefreshOutcome;
use metrics_keda::ScaledObjectRef;
use metrics_keda::Scalar;
use metrics_keda::ScalerConfig;
use metrics_keda::ScalerError;
use metrics_keda::ScalerRequest;
use metrics_keda::ScalerResponse;
use metrics_keda::DEFAULT_LOAD_AVG_THRESHOLD_BITS;

fn server_config() -> ScalerConfig {
    ScalerConfig {
        component_name: "llm-worker".to_owned(),
        endpoint_name: "kv-router".to_owned(),
        refresh_interval_secs: 5,
        default_threshold: Scalar { bits: DEFAULT_LOAD_AVG_THRESHOLD_BITS },
    }
}

#[test]
fn dispatch_is_active() {
    let server = KedaScaler::new(server_config()).into_server();
    let r = server.handle(&ScalerRequest::IsActive(ScaledObjectRef::new()));
    match r {
        Ok(ScalerResponse::Active(a)) => assert!(a.result),
        other => panic!("unexpected answer: {:?}", other),
    }
}

#[test]
fn dispatch_stream_is_active_rejected() {
    let server = KedaScaler::new(server_config()).into_server();
    let r = server.handle(&ScalerRequest::StreamIsActive(ScaledObjectRef::new()));
    assert_eq!(r, Err(ScalerError::Unimplemented));
}

#[test]
fn dispatch_metric_spec_with_override() {
    let server = KedaScaler::new(server_config()).into_server();
    let over = Scalar { bits: (0.25f64).to_bits() };
    let r = server.handle(&ScalerRequest::GetMetricSpec(ScaledObjectRef::new(), Some(over)));
    match r {
        Ok(ScalerResponse::MetricSpec(resp)) => {
            assert_eq!(resp.metric_specs.len(), 1);
            assert_eq!(f64::from_bits(resp.metric_specs[0].target_size_float.bits), 0.25);
        }
        other => panic!("unexpected answer: {:?}", other),
    }
}

#[test]
fn dispatch_metrics_after_refresh() {
    let mut server = KedaScaler::new(server_config()).into_server();
    server.apply_refresh_outcome(RefreshOutcome::Collected(LoadSnapshot {
        load_avg: Scalar { bits: (0.42f64).to_bits() },
        load_std: Scalar { bits: 0 },
        endpoint_count: 2,
    }));
    let req = GetMetricsRequest { scaled_object_ref: None, metric_name: "llm_load_avg".to_owned() };
    let r = server.handle(&ScalerRequest::GetMetrics(req));
    match r {
        Ok(ScalerResponse::Metrics(resp)) => {
            assert_eq!(resp.metric_values.len(), 1);
            assert_eq!(f64::from_bits(resp.metric_values[0].metric_value_float.bits), 0.42);
        }
        other => panic!("unexpected answer: {:?}", other),
    }
}

#[test]
fn dispatch_metrics_unsupported_name_rejected() {
    let server = KedaScaler::new(server_config()).into_server();
    let req = GetMetricsRequest { scaled_object_ref: None, metric_name: "queue_depth".to_owned() };
    let r = server.handle(&ScalerRequest::GetMetrics(req));
    assert_eq!(r, Err(ScalerError::InvalidArgument("queue_depth".to_owned())));
}
