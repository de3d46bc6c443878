//! Capability snapshot builder and the start of a subscription: assembles the
//! brand string, core counts, decoded feature flags and cache descriptors
//! into one static descriptor, computed once per subscription and delivered
//! to the subscriber before the first sample batch.

use vstd::prelude::*;
use crate::cache::CacheDescriptor;
use crate::cache::CacheRecord;
use crate::cache::descriptors_from_probe;
use crate::cache::descriptors_match_probe;
use crate::features::Feature;
use crate::features::decode_features;
use crate::features::features_of;
use crate::host::core_count;
use crate::host::core_readings;
use crate::host::first_core_brand;
use crate::host::logical_core_count;
use crate::host::physical_core_count;
use crate::host::probe_feature_leaves;
use crate::host::read_cache_records;
use crate::host::read_core_samples;
use crate::host::refresh_cpu_usage;
use crate::sampler::CoreSample;
use crate::sampler::sample_matches_reading;

verus! {

/// The one-per-subscription static descriptor of the processor.
#[derive(Clone, Debug)]
pub struct StaticCapabilities {
    /// The brand string of the first enumerated core.
    pub brand: String,
    /// Zero when the platform cannot determine it — a degraded value, not an
    /// error.
    pub physical_cores: usize,
    /// The number of enumerable per-core counters; a subscription only starts
    /// when it is at least one.
    pub logical_cores: usize,
    /// One descriptor per reported cache-parameter record, in discovery
    /// order.
    pub caches: Vec<CacheDescriptor>,
    /// The decoded feature flags, in the decoder's scan order.
    pub features: Vec<Feature>,
}

/// Why a subscription could not be started.
#[derive(Clone, Copy, Debug, PartialEq, Eq, Structural)]
pub enum StartError {
    /// The counter source enumerates no logical core at all; no partial
    /// subscription is created.
    NoEnumerableCores,
}

impl StartError {
    /// A displayable description of the failure.
    pub fn message(&self) -> (r: &'static str)
        ensures
            r@ == "no enumerable logical cores"@,
    {
        match self {
            StartError::NoEnumerableCores => "no enumerable logical cores",
        }
    }
}

/// Assembles the snapshot from the host's raw readings. Pure: every field is
/// pinned by the inputs, and decoding and geometry never fail — absent leaves
/// yield empty sequences.
pub fn build_capabilities(
    brand: String,
    physical_cores: usize,
    logical_cores: usize,
    std_leaf: Option<(u32, u32)>,
    ext_leaf: Option<(u32, u32)>,
    records: &Option<Vec<CacheRecord>>,
) -> (c: StaticCapabilities)
    requires
        logical_cores >= 1,
        records is Some ==> forall|i: int|
            0 <= i < records.unwrap()@.len() ==> records.unwrap()@[i].wf(),
    ensures
        c.brand == brand,
        c.physical_cores == physical_cores,
        c.logical_cores == logical_cores,
        c.features@ == features_of(std_leaf, ext_leaf),
        descriptors_match_probe(*records, c.caches@),
{
    let caches = descriptors_from_probe(records);
    let features = decode_features(std_leaf, ext_leaf);
    StaticCapabilities { brand, physical_cores, logical_cores, caches, features }
}

/// Starts a subscription's static part: probes the identification source and
/// the counter source once and assembles the snapshot. Fails — with no
/// partial snapshot — exactly when the counter source enumerates no logical
/// core; an undeterminable physical core count degrades to zero instead.
pub fn start_capability_snapshot(sys: &sysinfo::System) -> (r: Result<
    StaticCapabilities,
    StartError,
>)
    ensures
        r is Ok <==> core_count(*sys) > 0,
        r is Ok ==> r.unwrap().logical_cores == core_count(*sys),
{
    let logical = logical_core_count(sys);
    if logical == 0 {
        return Err(StartError::NoEnumerableCores);
    }
    let brand = first_core_brand(sys).unwrap();
    let physical = match physical_core_count() {
        Some(n) => n,
        None => 0,
    };
    let leaves = probe_feature_leaves();
    let records = read_cache_records();
    Ok(build_capabilities(brand, physical, logical, leaves.0, leaves.1, &records))
}

/// One tick's work on the counter source: refresh the per-core counters, then
/// read one sample per enumerated core, in enumeration order. The batch holds
/// exactly the refreshed source's readings, one entry per logical core.
pub fn sample_tick(sys: &mut sysinfo::System) -> (batch: Vec<CoreSample>)
    ensures
        batch@.len() == core_count(*final(sys)),
        forall|i: int|
            0 <= i < batch@.len() ==> sample_matches_reading(
                #[trigger] batch@[i],
                core_readings(*final(sys))[i],
            ),
{
    refresh_cpu_usage(sys);
    read_core_samples(sys)
}

/// Every delivered batch within one subscription has exactly one entry per
/// logical core of the subscription's snapshot, barring a platform-level
/// change of the enumerated core count between the snapshot and the tick.
pub proof fn lemma_batch_length_matches_snapshot(
    snapshot_source: sysinfo::System,
    tick_source: sysinfo::System,
    caps: StaticCapabilities,
    batch: Seq<CoreSample>,
)
    requires
        caps.logical_cores == core_count(snapshot_source),
        batch.len() == core_count(tick_source),
        core_count(tick_source) == core_count(snapshot_source),
    ensures
        batch.len() == caps.logical_cores,
{
}

} // verus!
