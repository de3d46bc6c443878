use cpu_telemetry::host::new_cpu_system;
use cpu_telemetry::host::probe_feature_leaves;
use cpu_telemetry::host::read_cache_records;
use cpu_telemetry::snapshot::StartError;
use cpu_telemetry::snapshot::sample_tick;
use cpu_telemetry::snapshot::start_capability_snapshot;

#[test]
fn live_subscription_start_and_first_batch() {
    let mut sys = new_cpu_system();
    let caps = start_capability_snapshot(&sys).expect("a live host enumerates cores");
    assert!(caps.logical_cores >= 1);
    let batch = sample_tick(&mut sys);
    assert_eq!(batch.len(), caps.logical_cores);
    for sample in &batch {
        assert!(!sample.core_name.is_empty());
    }
}

#[test]
fn empty_counter_source_fails_to_start() {
    // A counter source constructed without any CPU refresh enumerates no
    // cores: starting a subscription on it must fail, loudly and completely.
    let sys = sysinfo::System::new();
    let r = start_capability_snapshot(&sys);
    assert_eq!(r.unwrap_err(), StartError::NoEnumerableCores);
    assert_eq!(StartError::NoEnumerableCores.message(), "no enumerable logical cores");
}

#[test]
fn live_feature_probe_reports_standard_leaf() {
    // Every processor this library can run on supports the standard leaf.
    let (std_leaf, _ext_leaf) = probe_feature_leaves();
    assert!(std_leaf.is_some());
}

#[test]
fn live_cache_records_are_within_encoding_bounds() {
    if let Some(records) = read_cache_records() {
        for r in &records {
            assert!(r.associativity <= 0x400);
            assert!(r.partitions <= 0x400);
            assert!(r.line_size <= 0x1000);
            assert!(r.sets <= 0x1_0000_0000);
        }
    }
}
