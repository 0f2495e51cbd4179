use ntl_core::binary32;
use ntl_core::config::NodeConfig;
use ntl_core::node::Node;
use ntl_core::signal::{NodeId, SignalType};
use ntl_core::testing::{test_node_id, test_signal};
use ntl_core::topology::TopologyManager;

#[test]
fn default_node_config() {
    let config = NodeConfig::default();
    assert_eq!(
        config.network.bootstrap_nodes,
        vec![
            "ntl://bootstrap-1.nyuchi.com:4433".to_string(),
            "ntl://bootstrap-2.nyuchi.com:4433".to_string()
        ]
    );
    assert_eq!(config.network.bind_address, "0.0.0.0");
    assert_eq!(config.network.port, 4433);
    assert_eq!(config.crypto_module, "pq-v1");
}

#[test]
fn builder_without_file_uses_default_config() {
    let node = Node::builder().build_from(None);
    assert_eq!(node.config().crypto_module, "pq-v1");
    assert_eq!(node.config().synapse.max_synapses, 1000);
    assert_eq!(node.config().network.bootstrap_nodes.len(), 2);
}

#[test]
fn builder_overrides_take_effect() {
    let builder = Node::builder()
        .with_bootstrap(vec!["ntl://a:1", "ntl://b:2", "ntl://c:3"])
        .with_max_synapses(7)
        .with_crypto_module("custom");
    assert!(builder.config_path().is_none());
    let node = builder.build_from(None);
    assert_eq!(node.config().crypto_module, "custom");
    assert_eq!(node.config().synapse.max_synapses, 7);
    assert_eq!(
        node.config().network.bootstrap_nodes,
        vec!["ntl://a:1".to_string(), "ntl://b:2".to_string(), "ntl://c:3".to_string()]
    );
    assert_eq!(node.config().network.port, 4433);
}

#[test]
fn builder_with_file_uses_file_config() {
    let builder = Node::builder().with_config_file("/etc/ntl.toml").with_bootstrap(vec!["x"]);
    assert_eq!(builder.config_path(), Some("/etc/ntl.toml"));
    let mut loaded = NodeConfig::default();
    loaded.network.port = 9;
    let node = builder.build_from(Some(loaded));
    assert_eq!(node.config().network.port, 9);
    assert_eq!(node.config().network.bootstrap_nodes, vec!["x".to_string()]);
    assert_eq!(node.config().crypto_module, "pq-v1");
}

#[test]
fn test_helpers() {
    assert_eq!(test_node_id(3), NodeId(vec![3u8; 32]));
    let signal = test_signal(SignalType::Heartbeat, 2.0f32.to_bits());
    assert_eq!(signal.signal_type, SignalType::Heartbeat);
    assert_eq!(signal.weight, binary32::ONE);
    assert_eq!(signal.signature, vec![0u8; 64]);
    assert_eq!(signal.tags, vec!["heartbeat".to_string()]);
    assert!(signal.validate().is_ok());
    let ack = test_signal(SignalType::Ack, 0.25f32.to_bits());
    assert_eq!(ack.signal_type, SignalType::Data);
    let _manager = TopologyManager::new(test_node_id(1), vec!["ntl://seed:1".to_string()]);
}
