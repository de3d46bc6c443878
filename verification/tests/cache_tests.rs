use cpu_telemetry::cache::CacheDescriptor;
use cpu_telemetry::cache::CacheKind;
use cpu_telemetry::cache::CacheRecord;
use cpu_telemetry::cache::RawCacheTag;
use cpu_telemetry::cache::dec_string;
use cpu_telemetry::cache::descriptor_for;
use cpu_telemetry::cache::descriptors_from_probe;
use cpu_telemetry::cache::descriptors_of;
use cpu_telemetry::cache::make_label;

fn record(level: u8, tag: RawCacheTag, a: u64, p: u64, l: u64, s: u64) -> CacheRecord {
    CacheRecord { level, tag, associativity: a, partitions: p, line_size: l, sets: s }
}

#[test]
fn l1_data_descriptor_scenario() {
    // associativity 8, partitions 1, line size 64, sets 64 => 32768 bytes
    let d = descriptor_for(&record(1, RawCacheTag::Data, 8, 1, 64, 64));
    assert_eq!(d.level, 1);
    assert_eq!(d.kind, CacheKind::Data);
    assert_eq!(d.size_bytes, 32768);
    assert_eq!(d.label, "L1 Data Cache");
}

#[test]
fn size_is_product_of_all_four_parameters() {
    let d = descriptor_for(&record(2, RawCacheTag::Unified, 4, 2, 64, 1024));
    assert_eq!(d.size_bytes, 4 * 2 * 64 * 1024);
    assert_eq!(d.label, "L2 Unified Cache");
}

#[test]
fn zero_sets_give_zero_size() {
    let d = descriptor_for(&record(3, RawCacheTag::Instruction, 8, 1, 64, 0));
    assert_eq!(d.size_bytes, 0);
    assert_eq!(d.kind, CacheKind::Instruction);
    assert_eq!(d.label, "L3 Instruction Cache");
}

#[test]
fn unrecognized_tags_map_to_unknown() {
    let d0 = descriptor_for(&record(1, RawCacheTag::Null, 1, 1, 1, 1));
    assert_eq!(d0.kind, CacheKind::Unknown);
    assert_eq!(d0.label, "L1 Unknown Cache");
    let d1 = descriptor_for(&record(1, RawCacheTag::Reserved, 1, 1, 1, 1));
    assert_eq!(d1.kind, CacheKind::Unknown);
}

#[test]
fn largest_encodable_record_size() {
    // The widest values the identification registers can encode.
    let d = descriptor_for(&record(7, RawCacheTag::Unified, 0x400, 0x400, 0x1000, 0x1_0000_0000));
    assert_eq!(d.size_bytes, 0x400u128 * 0x400 * 0x1000 * 0x1_0000_0000);
}

#[test]
fn two_digit_level_label() {
    let d = descriptor_for(&record(12, RawCacheTag::Data, 1, 1, 1, 1));
    assert_eq!(d.label, "L12 Data Cache");
}

#[test]
fn descriptors_keep_discovery_order() {
    let records = vec![
        record(1, RawCacheTag::Data, 8, 1, 64, 64),
        record(1, RawCacheTag::Instruction, 8, 1, 64, 64),
        record(2, RawCacheTag::Unified, 4, 1, 64, 1024),
    ];
    let ds: Vec<CacheDescriptor> = descriptors_of(&records);
    assert_eq!(ds.len(), 3);
    assert_eq!(ds[0].label, "L1 Data Cache");
    assert_eq!(ds[1].label, "L1 Instruction Cache");
    assert_eq!(ds[2].label, "L2 Unified Cache");
}

#[test]
fn absent_cache_leaf_yields_empty_sequence() {
    let ds = descriptors_from_probe(&None);
    assert!(ds.is_empty());
}

#[test]
fn empty_record_list_yields_empty_sequence() {
    let ds = descriptors_from_probe(&Some(Vec::new()));
    assert!(ds.is_empty());
}

#[test]
fn decimal_rendering() {
    assert_eq!(dec_string(0), "0");
    assert_eq!(dec_string(7), "7");
    assert_eq!(dec_string(10), "10");
    assert_eq!(dec_string(255), "255");
}

#[test]
fn label_rendering() {
    assert_eq!(make_label(4, CacheKind::Data), "L4 Data Cache");
    assert_eq!(make_label(0, CacheKind::Unknown), "L0 Unknown Cache");
}
