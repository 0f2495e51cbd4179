//! NTL Node — the primary runtime entry point.

use vstd::prelude::*;

use crate::activation::ActivationConfig;
use crate::config::NodeConfig;
use crate::propagation::PropagationConfig;
use crate::synapse::SynapseConfig;

verus! {

/// An NTL node — a participant in the neural transfer network.
pub struct Node {
    config: NodeConfig,
}

impl Node {
    /// The node's configuration.
    pub closed spec fn spec_config(&self) -> NodeConfig {
        self.config
    }

    /// Create a new NodeBuilder with nothing set and default settings.
    pub fn builder() -> (b: NodeBuilder)
        ensures
            b.is_fresh(),
    {
        NodeBuilder::new()
    }

    /// The node's configuration.
    pub fn config(&self) -> (c: &NodeConfig)
        ensures
            *c == self.spec_config(),
    {
        &self.config
    }
}

/// Builder for constructing and configuring an NTL node.
pub struct NodeBuilder {
    config_path: Option<String>,
    crypto_module: Option<String>,
    bootstrap_nodes: Option<Vec<String>>,
    max_synapses: Option<u32>,
    synapse_config: SynapseConfig,
    propagation_config: PropagationConfig,
    activation_config: ActivationConfig,
}

/// The text of an optional owned string.
pub open spec fn opt_text(s: Option<String>) -> Option<Seq<char>> {
    match s {
        Some(t) => Some(t@),
        None => None,
    }
}

impl NodeBuilder {
    /// Path of the configuration file to load, if one was given.
    pub closed spec fn spec_config_path(&self) -> Option<Seq<char>> {
        opt_text(self.config_path)
    }

    /// Crypto module override, if one was given.
    pub closed spec fn spec_crypto_module(&self) -> Option<Seq<char>> {
        opt_text(self.crypto_module)
    }

    /// Bootstrap node override, if one was given.
    pub closed spec fn spec_bootstrap_nodes(&self) -> Option<Seq<String>> {
        match self.bootstrap_nodes {
            Some(v) => Some(v@),
            None => None,
        }
    }

    /// Maximum synapse count override, if one was given.
    pub closed spec fn spec_max_synapses(&self) -> Option<u32> {
        self.max_synapses
    }

    /// Synapse settings.
    pub closed spec fn spec_synapse_config(&self) -> SynapseConfig {
        self.synapse_config
    }

    /// Propagation settings.
    pub closed spec fn spec_propagation_config(&self) -> PropagationConfig {
        self.propagation_config
    }

    /// Activation settings.
    pub closed spec fn spec_activation_config(&self) -> ActivationConfig {
        self.activation_config
    }

    /// A builder with no overrides and default settings.
    pub open spec fn is_fresh(&self) -> bool {
        &&& self.spec_config_path() is None
        &&& self.spec_crypto_module() is None
        &&& self.spec_bootstrap_nodes() is None
        &&& self.spec_max_synapses() is None
        &&& self.spec_synapse_config().is_default()
        &&& self.spec_propagation_config().is_default()
        &&& self.spec_activation_config().is_default()
    }

    /// The settings (everything but the four overrides) are the same.
    pub open spec fn same_settings(&self, other: &NodeBuilder) -> bool {
        &&& self.spec_synapse_config() == other.spec_synapse_config()
        &&& self.spec_propagation_config() == other.spec_propagation_config()
        &&& self.spec_activation_config() == other.spec_activation_config()
    }

    fn new() -> (b: NodeBuilder)
        ensures
            b.is_fresh(),
    {
        NodeBuilder {
            config_path: None,
            crypto_module: None,
            bootstrap_nodes: None,
            max_synapses: None,
            synapse_config: SynapseConfig::default(),
            propagation_config: PropagationConfig::default(),
            activation_config: ActivationConfig::default(),
        }
    }

    /// Load configuration from a TOML file when the node is built.
    pub fn with_config_file(self, path: &str) -> (b: NodeBuilder)
        ensures
            b.spec_config_path() == Some(path@),
            b.spec_crypto_module() == self.spec_crypto_module(),
            b.spec_bootstrap_nodes() == self.spec_bootstrap_nodes(),
            b.spec_max_synapses() == self.spec_max_synapses(),
            b.same_settings(&self),
    {
        NodeBuilder { config_path: Some(path.to_owned()), ..self }
    }

    /// Set the cryptographic module to use.
    pub fn with_crypto_module(self, module: &str) -> (b: NodeBuilder)
        ensures
            b.spec_crypto_module() == Some(module@),
            b.spec_config_path() == self.spec_config_path(),
            b.spec_bootstrap_nodes() == self.spec_bootstrap_nodes(),
            b.spec_max_synapses() == self.spec_max_synapses(),
            b.same_settings(&self),
    {
        NodeBuilder { crypto_module: Some(module.to_owned()), ..self }
    }

    /// Override bootstrap nodes.
    pub fn with_bootstrap(self, nodes: Vec<&str>) -> (b: NodeBuilder)
        ensures
            b.spec_bootstrap_nodes() matches Some(v) && v.len() == nodes@.len() && (forall|i: int|
                0 <= i < nodes@.len() ==> #[trigger] v[i]@ == nodes@[i]@),
            b.spec_config_path() == self.spec_config_path(),
            b.spec_crypto_module() == self.spec_crypto_module(),
            b.spec_max_synapses() == self.spec_max_synapses(),
            b.same_settings(&self),
    {
        let mut owned: Vec<String> = Vec::new();
        let n = nodes.len();
        let mut i: usize = 0;
        while i < n
            invariant
                n == nodes@.len(),
                i <= n,
                owned@.len() == i,
                forall|j: int| 0 <= j < i ==> #[trigger] owned@[j]@ == nodes@[j]@,
            decreases n - i,
        {
            owned.push(nodes[i].to_owned());
            i = i + 1;
        }
        NodeBuilder { bootstrap_nodes: Some(owned), ..self }
    }

    /// Set maximum synapse count.
    pub fn with_max_synapses(self, max: u32) -> (b: NodeBuilder)
        ensures
            b.spec_max_synapses() == Some(max),
            b.spec_config_path() == self.spec_config_path(),
            b.spec_crypto_module() == self.spec_crypto_module(),
            b.spec_bootstrap_nodes() == self.spec_bootstrap_nodes(),
            b.same_settings(&self),
    {
        NodeBuilder { max_synapses: Some(max), ..self }
    }

    /// The configuration file to load when building, if one was given.
    pub fn config_path(&self) -> (path: Option<&str>)
        ensures
            self.spec_config_path() is None ==> path is None,
            self.spec_config_path() matches Some(p) ==> path matches Some(q) && q@ == p,
    {
        match &self.config_path {
            Some(p) => Some(p.as_str()),
            None => None,
        }
    }

    /// `result` is `base` with this builder's overrides applied: its crypto
    /// module, bootstrap nodes and maximum synapse count where they were
    /// set, and everything else from `base`.
    pub open spec fn overrides(&self, base: NodeConfig, result: NodeConfig) -> bool {
        &&& result.network.bind_address == base.network.bind_address
        &&& result.network.port == base.network.port
        &&& (match self.spec_bootstrap_nodes() {
            Some(nodes) => result.network.bootstrap_nodes@ == nodes,
            None => result.network.bootstrap_nodes == base.network.bootstrap_nodes,
        })
        &&& (match self.spec_crypto_module() {
            Some(module) => result.crypto_module@ == module,
            None => result.crypto_module == base.crypto_module,
        })
        &&& (match self.spec_max_synapses() {
            Some(max) => result.synapse.max_synapses == max,
            None => result.synapse.max_synapses == base.synapse.max_synapses,
        })
        &&& result.synapse.initial_weight == base.synapse.initial_weight
        &&& result.synapse.max_weight == base.synapse.max_weight
        &&& result.synapse.decay_rate == base.synapse.decay_rate
        &&& result.synapse.dormancy_threshold == base.synapse.dormancy_threshold
        &&& result.synapse.prune_after_hours == base.synapse.prune_after_hours
        &&& result.synapse.preferred_transport == base.synapse.preferred_transport
        &&& result.synapse.fallback_transport == base.synapse.fallback_transport
        &&& result.synapse.attenuation_factor == base.synapse.attenuation_factor
        &&& result.propagation == base.propagation
        &&& result.activation == base.activation
    }

    /// Build the node: its configuration is the one read from the
    /// configuration file (`file_config`, when the builder names a file) or
    /// else the default one, with the builder's crypto module, bootstrap
    /// nodes and maximum synapse count put in place where they were set.
    pub fn build_from(self, file_config: Option<NodeConfig>) -> (node: Node)
        ensures
            file_config matches Some(c) ==> self.overrides(c, node.spec_config()),
            file_config is None ==> exists|d: NodeConfig|
                d.is_default() && self.overrides(d, node.spec_config()),
    {
        let mut config = match file_config {
            Some(c) => c,
            None => NodeConfig::default(),
        };
        let ghost base = config;
        match self.crypto_module {
            Some(module) => {
                config.crypto_module = module;
            },
            None => {},
        }
        match self.bootstrap_nodes {
            Some(nodes) => {
                config.network.bootstrap_nodes = nodes;
            },
            None => {},
        }
        match self.max_synapses {
            Some(max) => {
                config.synapse.max_synapses = max;
            },
            None => {},
        }
        assert(self.overrides(base, config));
        Node { config }
    }
}

} // verus!
