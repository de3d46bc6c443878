//! The trusted boundary to the host: the processor-identification source
//! (raw_cpuid) and the live per-core counter source (sysinfo).
//!
//! Everything either source reports depends on the machine, so the wrappers
//! here state only what the crates' sources show of every outcome; the
//! library's logic takes the returned plain values and is verified for all of
//! them.

use vstd::prelude::*;
use crate::cache::CacheRecord;
use crate::cache::RawCacheTag;
use crate::sampler::CoreSample;
use crate::sampler::sample_matches_reading;
use raw_cpuid::CacheType;

verus! {

#[verifier::external_type_specification]
#[verifier::external_body]
pub struct ExSystem(sysinfo::System);

/// The per-core readings a counter-source value holds, in enumeration order:
/// each core's vendor identifier, name, usage bit pattern and frequency.
pub uninterp spec fn core_readings(s: sysinfo::System) -> Seq<(Seq<char>, Seq<char>, u32, u64)>;

/// The number of logical cores a counter-source value enumerates.
pub open spec fn core_count(s: sysinfo::System) -> nat {
    core_readings(s).len()
}

/// Relies on raw_cpuid::native_cpuid::cpuid_count: the four registers the
/// processor-identification instruction reports for one leaf and subleaf.
/// The readings are the machine's, so nothing is promised of them.
#[verifier::external_body]
pub fn read_raw_leaf(leaf: u32, subleaf: u32) -> (r: (u32, u32, u32, u32)) {
    let res = raw_cpuid::native_cpuid::cpuid_count(leaf, subleaf);
    (res.eax, res.ebx, res.ecx, res.edx)
}

/// Relies on raw_cpuid::CpuId::get_cache_parameters (`None` exactly when the
/// cache-parameter leaf is unsupported) and on the raw_cpuid::CacheParameter
/// accessors, which decode the size parameters as register bit fields plus
/// one: ten bits for associativity and partitions, twelve for the line size,
/// and a full 32-bit register for the set count — the bounds `wf` states.
#[verifier::external_body]
pub fn read_cache_records() -> (r: Option<Vec<CacheRecord>>)
    ensures
        r is Some ==> forall|i: int| 0 <= i < r.unwrap()@.len() ==> r.unwrap()@[i].wf(),
{
    let ps = raw_cpuid::CpuId::new().get_cache_parameters()?;
    let mut v: Vec<CacheRecord> = Vec::new();
    for c in ps {
        let tag = match c.cache_type() {
            CacheType::Data => RawCacheTag::Data,
            CacheType::Instruction => RawCacheTag::Instruction,
            CacheType::Unified => RawCacheTag::Unified,
            CacheType::Null => RawCacheTag::Null,
            _ => RawCacheTag::Reserved,
        };
        v.push(CacheRecord { level: c.level(), tag, associativity: c.associativity() as u64,
            partitions: c.physical_line_partitions() as u64,
            line_size: c.coherency_line_size() as u64, sets: c.sets() as u64 });
    }
    Some(v)
}

/// Relies on sysinfo::System::new_with_specifics with CPU refreshing enabled:
/// constructs the counter source and enumerates its per-core counters.
#[verifier::external_body]
pub fn new_cpu_system() -> (s: sysinfo::System) {
    sysinfo::System::new_with_specifics(
        sysinfo::RefreshKind::nothing().with_cpu(sysinfo::CpuRefreshKind::everything()),
    )
}

/// Relies on sysinfo::System::refresh_cpu_usage: re-reads the per-core usage
/// counters in place. The enumerated core list is the platform's and may
/// change across refreshes, so nothing is promised of the count afterwards.
#[verifier::external_body]
pub fn refresh_cpu_usage(sys: &mut sysinfo::System) {
    sys.refresh_cpu_usage();
}

/// Relies on sysinfo::System::cpus: how many logical cores the counter source
/// enumerates in this value.
#[verifier::external_body]
pub fn logical_core_count(sys: &sysinfo::System) -> (n: usize)
    ensures
        n == core_count(*sys),
{
    sys.cpus().len()
}

/// Relies on sysinfo::System::physical_core_count: `None` when the platform
/// cannot determine the physical core count.
#[verifier::external_body]
pub fn physical_core_count() -> (n: Option<usize>) {
    sysinfo::System::physical_core_count()
}

/// Relies on sysinfo::System::cpus and sysinfo::Cpu::brand: the brand string
/// of the first enumerated core, present exactly when a core is enumerable.
#[verifier::external_body]
pub fn first_core_brand(sys: &sysinfo::System) -> (r: Option<String>)
    ensures
        r is Some <==> core_count(*sys) > 0,
{
    match sys.cpus().first() {
        Some(c) => Some(c.brand().to_owned()),
        None => None,
    }
}

/// Relies on sysinfo::System::cpus and the sysinfo::Cpu accessors
/// (vendor_id, name, cpu_usage, frequency): one sample per enumerated core,
/// in enumeration order; the usage percentage is carried bit-for-bit.
#[verifier::external_body]
pub fn read_core_samples(sys: &sysinfo::System) -> (v: Vec<CoreSample>)
    ensures
        v@.len() == core_count(*sys),
        forall|i: int|
            0 <= i < v@.len() ==> sample_matches_reading(
                #[trigger] v@[i],
                core_readings(*sys)[i],
            ),
{
    let mut v: Vec<CoreSample> = Vec::new();
    for c in sys.cpus() {
        v.push(CoreSample { core_id: c.vendor_id().to_owned(), core_name: c.name().to_owned(),
            usage_bits: c.cpu_usage().to_bits(), frequency_mhz: c.frequency() });
    }
    v
}

/// Reads the two feature leaves of the identification source: the relevant
/// register pair of each, or `None` for a leaf above the highest one the
/// processor supports (the identification source's own support rule). The
/// registers are the machine's, so no more is promised of them; decoding them
/// is verified for every value (see `features::decode_features`).
pub fn probe_feature_leaves() -> (r: (Option<(u32, u32)>, Option<(u32, u32)>)) {
    let base = read_raw_leaf(0, 0);
    let max_leaf = base.0;
    let std_leaf = if max_leaf >= 1 {
        let l = read_raw_leaf(1, 0);
        Some((l.2, l.3))
    } else {
        None
    };
    let ext_leaf = if max_leaf >= 7 {
        let l = read_raw_leaf(7, 0);
        Some((l.1, l.2))
    } else {
        None
    };
    (std_leaf, ext_leaf)
}

} // verus!
