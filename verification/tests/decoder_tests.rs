use cpu_telemetry::features::Feature;
use cpu_telemetry::features::decode_extended;
use cpu_telemetry::features::decode_features;
use cpu_telemetry::features::decode_standard;

#[test]
fn only_avx2_bit_among_extended_features() {
    // AVX2 is bit 5 of the extended leaf's low register.
    let flags = decode_extended(1u32 << 5, 0);
    assert_eq!(flags.len(), 1);
    assert_eq!(flags[0], Feature::Avx2);
    assert_eq!(flags[0].ident_str(), "avx2");
}

#[test]
fn avx2_alone_through_the_full_decoder() {
    let flags = decode_features(None, Some((1u32 << 5, 0)));
    assert_eq!(flags.len(), 1);
    assert_eq!(flags[0].ident_str(), "avx2");
}

#[test]
fn absent_leaves_decode_to_nothing() {
    let flags = decode_features(None, None);
    assert!(flags.is_empty());
}

#[test]
fn zero_bitfields_decode_to_nothing() {
    assert!(decode_standard(0, 0).is_empty());
    assert!(decode_extended(0, 0).is_empty());
}

#[test]
fn decoding_twice_is_identical() {
    let ecx = 0x80A0_31F5u32;
    let edx = 0x1F8B_FBFFu32;
    let ebx = 0x029C_67AFu32;
    let ecx7 = 0x4000_001Du32;
    let first = decode_features(Some((ecx, edx)), Some((ebx, ecx7)));
    let second = decode_features(Some((ecx, edx)), Some((ebx, ecx7)));
    assert_eq!(first, second);
}

#[test]
fn standard_scan_order_low_register_first() {
    // sse3 (low register, bit 0) scans before fpu (high register, bit 0).
    let flags = decode_standard(1u32 << 0, 1u32 << 0);
    assert_eq!(flags.len(), 2);
    assert_eq!(flags[0], Feature::Sse3);
    assert_eq!(flags[0].ident_str(), "sse3");
    assert_eq!(flags[1], Feature::Fpu);
    assert_eq!(flags[1].ident_str(), "fpu");
}

#[test]
fn standard_leaf_known_bit_positions() {
    // avx is bit 28 of the low register; sse2 is bit 26 of the high one.
    let flags = decode_standard(1u32 << 28, 1u32 << 26);
    let names: Vec<&str> = flags.iter().map(|f| f.ident_str()).collect();
    assert_eq!(names, ["avx", "sse2"]);
}

#[test]
fn extended_leaf_known_bit_positions() {
    // sha is bit 29 and sgx bit 2 of the low register (sha scans first);
    // sgx_lc is bit 30 of the high register.
    let flags = decode_extended((1u32 << 29) | (1u32 << 2), 1u32 << 30);
    let names: Vec<&str> = flags.iter().map(|f| f.ident_str()).collect();
    assert_eq!(names, ["sha", "sgx", "sgx_lc"]);
}

#[test]
fn every_standard_bit_set_decodes_every_catalog_entry_once() {
    let flags = decode_standard(u32::MAX, u32::MAX);
    // 28 low-register entries and 29 high-register ones.
    assert_eq!(flags.len(), 57);
    let mut seen: Vec<&str> = flags.iter().map(|f| f.ident_str()).collect();
    seen.sort();
    seen.dedup();
    assert_eq!(seen.len(), 57);
}

#[test]
fn every_extended_bit_set_decodes_every_catalog_entry_once() {
    let flags = decode_extended(u32::MAX, u32::MAX);
    // 29 low-register entries and 6 high-register ones.
    assert_eq!(flags.len(), 35);
    let mut seen: Vec<&str> = flags.iter().map(|f| f.ident_str()).collect();
    seen.sort();
    seen.dedup();
    assert_eq!(seen.len(), 35);
}
