use ntl_core::activation::{ActivationConfig, ActivationFunction, ActivationState};

fn test_config() -> ActivationConfig {
    ActivationConfig {
        base_threshold: 0.5f32.to_bits(),
        activation_function: ActivationFunction::Step,
        refractory_period_ms: 0,
        max_potential: 10.0f32.to_bits(),
        dynamic_threshold: false,
    }
}

/// Adds a signal's contribution the way a node does: potential plus signal
/// weight times synapse weight (the library caps it at the maximum).
fn feed(state: &mut ActivationState, signal_weight: f32, synapse_weight: f32) -> bool {
    let sum = f32::from_bits(state.potential()) + signal_weight * synapse_weight;
    state.accumulate(sum.to_bits(), 0, false)
}

fn potential(state: &ActivationState) -> f32 {
    f32::from_bits(state.potential())
}

#[test]
fn step_fires_above_threshold() {
    let mut state = ActivationState::new(&test_config());

    let fired = feed(&mut state, 0.3, 1.0);
    assert!(!fired);
    assert!((potential(&state) - 0.3).abs() < f32::EPSILON);

    let fired = feed(&mut state, 0.3, 1.0);
    assert!(fired);
    assert!((potential(&state) - 0.0).abs() < f32::EPSILON);
}

#[test]
fn synapse_weight_modulates_contribution() {
    let mut state = ActivationState::new(&test_config());

    let fired = feed(&mut state, 1.0, 0.1);
    assert!(!fired);
    assert!((potential(&state) - 0.1).abs() < f32::EPSILON);
}

#[test]
fn potential_capped_at_max() {
    let mut state = ActivationState::new(&ActivationConfig {
        base_threshold: 100.0f32.to_bits(),
        refractory_period_ms: 0,
        ..test_config()
    });

    for _ in 0..100 {
        feed(&mut state, 1.0, 1.0);
    }

    assert!(potential(&state) <= f32::from_bits(state.max_potential()));
}

#[test]
fn dynamic_threshold_increases_with_load() {
    let mut state = ActivationState::new(&ActivationConfig {
        dynamic_threshold: true,
        ..test_config()
    });

    let load = 1.0f32;
    state.adjust_threshold((f32::from_bits(state.base_threshold()) * (1.0 + load)).to_bits());
    assert!((f32::from_bits(state.threshold()) - 1.0).abs() < f32::EPSILON);
}

#[test]
fn fire_count_tracks() {
    let mut state = ActivationState::new(&test_config());

    feed(&mut state, 1.0, 1.0);
    feed(&mut state, 1.0, 1.0);
    feed(&mut state, 1.0, 1.0);

    assert_eq!(state.fire_count(), 3);
}

#[test]
fn refractory_period_blocks_firing() {
    let mut state = ActivationState::new(&ActivationConfig {
        refractory_period_ms: 10,
        ..test_config()
    });
    assert!(state.accumulate(1.0f32.to_bits(), 1_000, false));
    // 10 ms = 10_000_000 ns; still refractory just before it ends
    assert!(!state.accumulate(1.0f32.to_bits(), 10_000_999, false));
    assert_eq!(potential(&state), 1.0);
    assert!(state.accumulate(1.0f32.to_bits(), 10_001_000, false));
    assert_eq!(state.fire_count(), 2);
}

#[test]
fn static_threshold_ignores_load_and_reset_restores() {
    let mut state = ActivationState::new(&test_config());
    state.adjust_threshold(2.0f32.to_bits());
    assert_eq!(state.threshold(), 0.5f32.to_bits());
    feed(&mut state, 1.0, 1.0);
    state.reset();
    assert_eq!(state.fire_count(), 0);
    assert_eq!(state.potential(), 0);
    assert_eq!(state.threshold(), 0.5f32.to_bits());
}

#[test]
fn sigmoid_and_leaky_follow_the_draw() {
    let mut sigmoid = ActivationState::new(&ActivationConfig {
        activation_function: ActivationFunction::Sigmoid,
        ..test_config()
    });
    assert!(!sigmoid.accumulate(5.0f32.to_bits(), 0, false));
    assert!(sigmoid.accumulate(0.0f32.to_bits(), 0, true));

    let mut leaky = ActivationState::new(&ActivationConfig {
        activation_function: ActivationFunction::Leaky,
        ..test_config()
    });
    assert!(leaky.accumulate(0.6f32.to_bits(), 0, false));
    assert!(!leaky.accumulate(0.1f32.to_bits(), 0, false));
    assert!(leaky.accumulate(0.1f32.to_bits(), 0, true));
}

#[test]
fn activation_default_config_values() {
    let config = ActivationConfig::default();
    assert_eq!(config.base_threshold, 0.5f32.to_bits());
    assert_eq!(config.activation_function, ActivationFunction::Step);
    assert_eq!(config.refractory_period_ms, 10);
    assert_eq!(config.max_potential, 10.0f32.to_bits());
    assert!(config.dynamic_threshold);
    assert_eq!(ActivationFunction::default(), ActivationFunction::Step);
}

#[test]
fn accumulate_caps_at_max_potential() {
    let mut state = ActivationState::new(&ActivationConfig {
        base_threshold: 100.0f32.to_bits(),
        ..test_config()
    });
    assert!(!state.accumulate(25.0f32.to_bits(), 0, false));
    assert_eq!(state.potential(), 10.0f32.to_bits());
    assert!(!state.accumulate(f32::NAN.to_bits(), 0, false));
    assert_eq!(state.potential(), 10.0f32.to_bits());
    assert!(!state.accumulate(3.5f32.to_bits(), 0, false));
    assert_eq!(state.potential(), 3.5f32.to_bits());
    assert_eq!(state.capped_potential(11.0f32.to_bits()), 10.0f32.to_bits());
}
