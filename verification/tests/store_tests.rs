use metrics_keda::LoadSnapshot;
use metrics_keda::Scalar;
use metrics_keda::SnapshotStore;

fn snap(load_avg: f64, load_std: f64, endpoint_count: usize) -> LoadSnapshot {
    LoadSnapshot {
        load_avg: Scalar { bits: load_avg.to_bits() },
        load_std: Scalar { bits: load_std.to_bits() },
        endpoint_count,
    }
}

#[test]
fn empty_store_reads_none() {
    let store = SnapshotStore::new();
    assert_eq!(store.read(), None);
}

#[test]
fn read_returns_latest_publish_whole() {
    let mut store = SnapshotStore::new();
    let first = snap(0.25, 0.01, 3);
    let second = snap(0.75, 0.10, 4);
    store.publish(first);
    assert_eq!(store.read(), Some(first));
    store.publish(second);
    // The slot is replaced whole: every field comes from the second
    // publish, none from the first.
    let observed = store.read().unwrap();
    assert_eq!(observed, second);
    assert_eq!(f64::from_bits(observed.load_avg.bits), 0.75);
    assert_eq!(f64::from_bits(observed.load_std.bits), 0.10);
    assert_eq!(observed.endpoint_count, 4);
}

#[test]
fn default_snapshot_is_all_zero() {
    let d = LoadSnapshot::default();
    assert_eq!(f64::from_bits(d.load_avg.bits), 0.0);
    assert_eq!(f64::from_bits(d.load_std.bits), 0.0);
    assert_eq!(d.endpoint_count, 0);
}

#[test]
fn publish_never_fails_on_repeated_equal_snapshots() {
    let mut store = SnapshotStore::new();
    let same = snap(0.5, 0.0, 1);
    store.publish(same);
    store.publish(same);
    store.publish(same);
    assert_eq!(store.read(), Some(same));
}
