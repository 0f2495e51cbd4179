use ntl_core::propagation::{select_indices, select_synapses, PropagationConfig, PropagationScope};
use ntl_core::signal::NodeId;
use ntl_core::synapse::{Synapse, SynapseConfig, SynapseId, SynapseState};

fn make_synapse(id: &str, weight: f32) -> Synapse {
    let local = NodeId(vec![0u8; 32]);
    let remote = NodeId(vec![id.as_bytes()[0]; 32]);
    let mut s = Synapse::new(local, remote, &SynapseConfig::default());
    s.id = SynapseId(id.to_string());
    s.weight = weight.to_bits();
    s.state = SynapseState::Active;
    s
}

/// Scores the way a node does with the default scoring weights, for a
/// synapse that has never carried anything and was active just now.
fn fresh_score(s: &Synapse) -> u32 {
    let weight = f32::from_bits(s.weight);
    (weight * 0.4 + 1.0 * 0.2 + 0.0 * 0.3 + 1.0 * 0.1).to_bits()
}

fn scores(synapses: &[Synapse]) -> Vec<u32> {
    synapses.iter().map(fresh_score).collect()
}

#[test]
fn select_weighted_respects_fanout() {
    let synapses: Vec<Synapse> = (0..10)
        .map(|i| make_synapse(&format!("syn-{i:03}"), 0.5))
        .collect();

    let config = PropagationConfig {
        max_fanout: 3,
        ..Default::default()
    };

    let scope = PropagationScope::Weighted {
        min_synapse_weight: 0.0f32.to_bits(),
    };

    let selected = select_synapses(&synapses, &scores(&synapses), &scope, None, &config);
    assert_eq!(selected.len(), 3);
}

#[test]
fn select_excludes_arrival_synapse() {
    let synapses = vec![
        make_synapse("arrival", 0.9),
        make_synapse("other-1", 0.5),
        make_synapse("other-2", 0.3),
    ];

    let config = PropagationConfig::default();
    let scope = PropagationScope::default();

    let selected =
        select_synapses(&synapses, &scores(&synapses), &scope, Some("arrival"), &config);
    assert!(selected.iter().all(|s| s.id.0 != "arrival"));
}

#[test]
fn selection_orders_by_score_then_input() {
    let synapses = vec![
        make_synapse("a", 0.2),
        make_synapse("b", 0.8),
        make_synapse("c", 0.5),
        make_synapse("d", 0.8),
        make_synapse("e", 0.1),
    ];
    let config = PropagationConfig { max_fanout: 4, ..Default::default() };
    let picks = select_indices(
        &synapses,
        &scores(&synapses),
        &PropagationScope::default(),
        None,
        &config,
    );
    assert_eq!(picks, vec![1, 3, 2, 0]);
}

#[test]
fn weighted_floor_and_inactive_are_skipped() {
    let mut synapses = vec![
        make_synapse("a", 0.2),
        make_synapse("b", 0.8),
        make_synapse("c", 0.5),
    ];
    synapses[1].state = SynapseState::Dormant;
    let scope = PropagationScope::Weighted { min_synapse_weight: 0.3f32.to_bits() };
    let picks = select_indices(&synapses, &scores(&synapses), &scope, None, &PropagationConfig::default());
    assert_eq!(picks, vec![2]);
}

#[test]
fn flood_takes_every_candidate() {
    let synapses: Vec<Synapse> = (0..8).map(|i| make_synapse(&format!("s{i}"), 0.1 * i as f32)).collect();
    let scope = PropagationScope::Flood { max_hops: 3 };
    let picks = select_indices(&synapses, &scores(&synapses), &scope, Some("s0"), &PropagationConfig::default());
    assert_eq!(picks, vec![7, 6, 5, 4, 3, 2, 1]);
}

#[test]
fn targeted_prefers_direct_synapse() {
    let synapses = vec![
        make_synapse("a", 0.9),
        make_synapse("b", 0.2),
        make_synapse("c", 0.5),
    ];
    let direct = PropagationScope::Targeted { destination: NodeId(vec![b'b'; 32]) };
    let picks = select_indices(&synapses, &scores(&synapses), &direct, None, &PropagationConfig::default());
    assert_eq!(picks, vec![1]);

    let elsewhere = PropagationScope::Targeted { destination: NodeId(vec![b'z'; 32]) };
    let picks = select_indices(&synapses, &scores(&synapses), &elsewhere, None, &PropagationConfig::default());
    assert_eq!(picks, vec![0]);

    let none: Vec<Synapse> = Vec::new();
    let picks = select_indices(&none, &[], &elsewhere, None, &PropagationConfig::default());
    assert!(picks.is_empty());
}

#[test]
fn propagation_default_config_values() {
    let config = PropagationConfig::default();
    assert_eq!(config.default_ttl, 10);
    assert_eq!(config.max_fanout, 5);
    assert_eq!(config.dedup_cache_seconds, 300);
    assert_eq!(config.min_propagation_weight, 0.01f32.to_bits());
    assert_eq!(config.scoring.weight_factor, 0.4f32.to_bits());
    assert!(matches!(config.default_strategy, PropagationScope::Weighted { min_synapse_weight: 0 }));
}
