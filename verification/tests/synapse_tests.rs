use ntl_core::binary32;
use ntl_core::signal::NodeId;

use ntl_core::synapse::{Synapse, SynapseConfig, SynapseId, SynapseState, Transport};

fn test_config() -> SynapseConfig {
    SynapseConfig::default()
}

fn test_nodes() -> (NodeId, NodeId) {
    (NodeId(vec![0u8; 32]), NodeId(vec![1u8; 32]))
}

/// The error rate after one more success: the old rate times 0.99.
fn decayed(synapse: &Synapse) -> u32 {
    (f32::from_bits(synapse.error_rate) * 0.99).to_bits()
}

fn ratio(synapse: &Synapse, signal_type: &str) -> f32 {
    match synapse.affinity_counts(signal_type) {
        Some((count, total)) => count as f32 / total as f32,
        None => 0.0,
    }
}

#[test]
fn new_synapse_starts_forming() {
    let (local, remote) = test_nodes();
    let synapse = Synapse::new(local, remote, &test_config());
    assert_eq!(synapse.state, SynapseState::Forming);
    assert!((f32::from_bits(synapse.weight) - 0.1).abs() < f32::EPSILON);
}

#[test]
fn state_transitions_on_weight() {
    let (local, remote) = test_nodes();
    let mut synapse = Synapse::new(local, remote, &test_config());
    synapse.state = SynapseState::Active;

    synapse.weight = 0.5f32.to_bits();
    synapse.update_state();
    assert_eq!(synapse.state, SynapseState::Active);

    synapse.weight = 0.05f32.to_bits();
    synapse.update_state();
    assert_eq!(synapse.state, SynapseState::Weakening);

    synapse.weight = 0.005f32.to_bits();
    synapse.update_state();
    assert_eq!(synapse.state, SynapseState::Dormant);
}

#[test]
fn type_affinity_tracking() {
    let (local, remote) = test_nodes();
    let mut synapse = Synapse::new(local, remote, &test_config());

    synapse.record_transmission(1000, "query", decayed(&synapse));
    synapse.record_transmission(1000, "query", decayed(&synapse));
    synapse.record_transmission(1000, "data", decayed(&synapse));

    assert!((ratio(&synapse, "query") - 0.666).abs() < 0.01);
    assert!((ratio(&synapse, "data") - 0.333).abs() < 0.01);
    assert!((ratio(&synapse, "event") - 0.0).abs() < f32::EPSILON);
}

#[test]
fn pruned_is_terminal() {
    let (local, remote) = test_nodes();
    let mut synapse = Synapse::new(local, remote, &test_config());
    synapse.state = SynapseState::Pruned;
    synapse.reweigh(0.9f32.to_bits());
    assert_eq!(synapse.state, SynapseState::Pruned);
    synapse.reactivate(&test_config());
    assert_eq!(synapse.state, SynapseState::Pruned);
}

#[test]
fn boundaries_and_nan_weights() {
    let (local, remote) = test_nodes();
    let mut synapse = Synapse::new(local, remote, &test_config());
    synapse.reweigh(0.1f32.to_bits());
    assert_eq!(synapse.state, SynapseState::Active);
    synapse.reweigh(0.01f32.to_bits());
    assert_eq!(synapse.state, SynapseState::Weakening);
    synapse.reweigh(f32::NAN.to_bits());
    assert_eq!(synapse.state, SynapseState::Dormant);
    synapse.reweigh((-1.0f32).to_bits());
    assert_eq!(synapse.state, SynapseState::Dormant);
}

#[test]
fn reactivate_only_wakes_dormant() {
    let (local, remote) = test_nodes();
    let mut synapse = Synapse::new(local, remote, &test_config());
    synapse.reweigh(0.05f32.to_bits());
    synapse.reactivate(&test_config());
    assert_eq!(synapse.state, SynapseState::Weakening);
    assert_eq!(synapse.weight, 0.05f32.to_bits());
    synapse.reweigh(0.001f32.to_bits());
    assert_eq!(synapse.state, SynapseState::Dormant);
    synapse.reactivate(&test_config());
    assert_eq!(synapse.state, SynapseState::Active);
    assert_eq!(synapse.weight, 0.1f32.to_bits());
}

#[test]
fn transmission_averages_latency_and_counts() {
    let (local, remote) = test_nodes();
    let mut synapse = Synapse::new(local, remote, &test_config());
    synapse.record_transmission(1000, "data", decayed(&synapse));
    assert_eq!(synapse.avg_latency_ns, 1000);
    synapse.record_transmission(2000, "data", decayed(&synapse));
    assert_eq!(synapse.avg_latency_ns, 1100);
    assert_eq!(synapse.signals_transmitted, 2);
    synapse.record_reception();
    assert_eq!(synapse.signals_received, 1);
    assert_eq!(synapse.affinity_counts("data"), Some((2, 2)));
    assert_eq!(synapse.type_affinity.len(), 1);
}

#[test]
fn empty_affinity_scores_nothing() {
    let (local, remote) = test_nodes();
    let synapse = Synapse::new(local, remote, &test_config());
    assert_eq!(synapse.affinity_counts("data"), None);
}

#[test]
fn synapse_id_short_form() {
    assert_eq!(SynapseId("0123456789ABCDEF".to_string()).to_string(), "syn:01234567");
    assert_eq!(SynapseId("abc".to_string()).to_string(), "syn:abc");
    let (local, remote) = test_nodes();
    let synapse = Synapse::new(local, remote, &test_config());
    assert_eq!(synapse.id.0.len(), 26);
}

#[test]
fn synapse_default_config_values() {
    let config = SynapseConfig::default();
    assert_eq!(config.initial_weight, binary32::TENTH);
    assert_eq!(config.max_weight, 1.0f32.to_bits());
    assert_eq!(config.prune_after_hours, 168);
    assert_eq!(config.max_synapses, 1000);
    assert_eq!(config.preferred_transport, Transport::Quic);
    assert_eq!(config.fallback_transport, Transport::Tcp);
    assert_eq!(Transport::default(), Transport::Quic);
}

#[test]
fn duplicate_affinity_entries_are_detected() {
    let (local, remote) = test_nodes();
    let mut synapse = Synapse::new(local, remote, &test_config());
    synapse.record_transmission(10, "data", decayed(&synapse));
    synapse.record_transmission(10, "query", decayed(&synapse));
    assert!(synapse.is_well_formed());
    synapse.type_affinity.push(("data".to_string(), 1));
    assert!(!synapse.is_well_formed());
}

#[test]
fn configured_dormancy_threshold_decides_dormancy() {
    let (local, remote) = test_nodes();
    let config = SynapseConfig { dormancy_threshold: 0.05f32.to_bits(), ..test_config() };
    let mut synapse = Synapse::new(local, remote, &config);
    assert_eq!(synapse.dormancy_threshold, 0.05f32.to_bits());
    synapse.reweigh(0.02f32.to_bits());
    assert_eq!(synapse.state, SynapseState::Dormant);
    synapse.reweigh(0.07f32.to_bits());
    assert_eq!(synapse.state, SynapseState::Weakening);
    synapse.reweigh(0.2f32.to_bits());
    assert_eq!(synapse.state, SynapseState::Active);
}

#[test]
fn creation_and_traffic_times() {
    let (local, remote) = test_nodes();
    let mut synapse =
        Synapse::new_at(SynapseId("syn-x".to_string()), local, remote, &test_config(), 1234);
    assert_eq!(synapse.established_at, 1234);
    assert_eq!(synapse.last_active, 1234);
    assert_eq!(synapse.state, SynapseState::Forming);
    synapse.record_transmission_at(500, "data", 2000, decayed(&synapse));
    assert_eq!(synapse.last_active, 2000);
    synapse.record_reception_at(3000);
    assert_eq!(synapse.last_active, 3000);
    assert_eq!(synapse.established_at, 1234);
}

#[test]
fn strengthening_is_capped_at_max_weight() {
    let (local, remote) = test_nodes();
    let mut synapse = Synapse::new(local, remote, &test_config());
    synapse.strengthen_to(1.5f32.to_bits());
    assert_eq!(synapse.weight, 1.0f32.to_bits());
    assert_eq!(synapse.state, SynapseState::Active);
    synapse.strengthen_to(0.3f32.to_bits());
    assert_eq!(synapse.weight, 0.3f32.to_bits());
}

#[test]
fn weight_respects_max() {
    let (local, remote) = test_nodes();
    let mut synapse = Synapse::new(local, remote, &test_config());
    synapse.state = SynapseState::Active;
    synapse.weight = 0.99f32.to_bits();
    let raised = f32::from_bits(synapse.weight) + 1.0f32 * 0.1f32;
    synapse.strengthen_to(raised.to_bits());
    assert!(f32::from_bits(synapse.weight) <= f32::from_bits(synapse.max_weight));
}

#[test]
fn success_decays_error_rate() {
    let (local, remote) = test_nodes();
    let mut synapse = Synapse::new(local, remote, &test_config());
    synapse.error_rate = 0.5f32.to_bits();
    let rate = decayed(&synapse);
    synapse.record_transmission(100, "data", rate);
    assert_eq!(synapse.error_rate, (0.5f32 * 0.99).to_bits());
    assert!((f32::from_bits(synapse.error_rate) - 0.495).abs() < 1e-6);
    synapse.record_reception();
    assert_eq!(synapse.error_rate, (0.5f32 * 0.99).to_bits());
}
