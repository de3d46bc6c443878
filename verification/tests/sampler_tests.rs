use cpu_telemetry::sampler::CoreSample;
use cpu_telemetry::sampler::SamplerState;
use cpu_telemetry::sampler::TickDecision;
use cpu_telemetry::sampler::sampler_advance;
use cpu_telemetry::sampler::sampler_decide;
use cpu_telemetry::snapshot::build_capabilities;

#[test]
fn running_sampler_delivers_until_stopped() {
    let mut state = SamplerState::Running;
    // Two ordinary ticks: flag clear, delivery succeeds.
    for _ in 0..2 {
        assert_eq!(sampler_decide(state, false), TickDecision::Deliver);
        state = sampler_advance(state, false, true);
        assert_eq!(state, SamplerState::Running);
    }
    // The flag is raised: the next tick exits without a batch.
    assert_eq!(sampler_decide(state, true), TickDecision::Exit);
    state = sampler_advance(state, true, true);
    assert_eq!(state, SamplerState::Stopped);
    // And stays stopped whatever is observed afterwards.
    assert_eq!(sampler_decide(state, false), TickDecision::Exit);
    assert_eq!(sampler_advance(state, false, true), SamplerState::Stopped);
}

#[test]
fn delivery_failure_is_fatal() {
    let state = sampler_advance(SamplerState::Running, false, false);
    assert_eq!(state, SamplerState::Stopped);
    assert_eq!(sampler_decide(state, false), TickDecision::Exit);
}

#[test]
fn stop_before_first_tick_delivers_at_most_one_batch() {
    // The flag is raised while the first tick is in flight: that tick's batch
    // is the only one ever delivered.
    let mut state = SamplerState::Running;
    let mut delivered: usize = 0;
    // First tick: the flag was still clear when observed.
    if sampler_decide(state, false) == TickDecision::Deliver {
        delivered += 1;
    }
    state = sampler_advance(state, false, true);
    // Every later observation sees the flag set.
    for _ in 0..3 {
        if sampler_decide(state, true) == TickDecision::Deliver {
            delivered += 1;
        }
        state = sampler_advance(state, true, true);
    }
    assert_eq!(delivered, 1);
    assert_eq!(state, SamplerState::Stopped);
}

#[test]
fn four_core_scenario() {
    // The counter source reports four logical cores and two physical ones.
    let caps = build_capabilities("TestBrand".to_string(), 2, 4, None, None, &None);
    assert_eq!(caps.logical_cores, 4);
    assert_eq!(caps.physical_cores, 2);
    assert_eq!(caps.brand, "TestBrand");
    // One batch entry per logical core.
    let batch: Vec<CoreSample> = (0..4)
        .map(|i| CoreSample {
            core_id: "GenuineTest".to_string(),
            core_name: format!("cpu{i}"),
            usage_bits: (25.0f32).to_bits(),
            frequency_mhz: 2400,
        })
        .collect();
    assert_eq!(batch.len(), caps.logical_cores);
    assert_eq!(f32::from_bits(batch[0].usage_bits), 25.0);
}
