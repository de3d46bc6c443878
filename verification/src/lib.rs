//! Hardware telemetry core: decodes raw processor-identification data into a
//! static capability catalog (feature flags, cache geometry) and models the
//! cancellable per-core sampling loop that publishes live utilization
//! batches.
//!
//! The catalog side is pure: `features` decodes the two identification
//! leaves' bitfields, `cache` computes sized, labelled descriptors from raw
//! cache-parameter records, and `snapshot` assembles both with the counter
//! source's core counts into one per-subscription descriptor. The live side
//! is a cancellable loop: `sampler` holds its state machine and the lemmas
//! bounding what can still be delivered after a stop request, and `host` is
//! the trusted boundary to the identification and counter sources.

pub mod cache;
pub mod features;
pub mod host;
pub mod sampler;
pub mod snapshot;
