//! Configuration for NTL nodes. Reading and writing configuration files is
//! done at the edge of the program; this module holds the values.

use vstd::prelude::*;

use crate::activation::ActivationConfig;
use crate::propagation::PropagationConfig;
use crate::synapse::SynapseConfig;

verus! {

/// Complete node configuration.
#[derive(Debug, Clone)]
pub struct NodeConfig {
    /// Network configuration.
    pub network: NetworkConfig,
    /// Synapse configuration.
    pub synapse: SynapseConfig,
    /// Propagation configuration.
    pub propagation: PropagationConfig,
    /// Activation configuration.
    pub activation: ActivationConfig,
    /// Crypto module to use.
    pub crypto_module: String,
}

/// Network-level configuration.
#[derive(Debug, Clone)]
pub struct NetworkConfig {
    /// Bootstrap node addresses.
    pub bootstrap_nodes: Vec<String>,
    /// Address to bind to.
    pub bind_address: String,
    /// Port to listen on.
    pub port: u16,
}

impl NodeConfig {
    /// The default configuration: the two Nyuchi bootstrap nodes on port
    /// 4433, bound to `0.0.0.0:4433`, default synapse, propagation and
    /// activation settings, and the `pq-v1` crypto module.
    pub open spec fn is_default(&self) -> bool {
        &&& self.network.bootstrap_nodes@.len() == 2
        &&& self.network.bootstrap_nodes@[0]@ == "ntl://bootstrap-1.nyuchi.com:4433"@
        &&& self.network.bootstrap_nodes@[1]@ == "ntl://bootstrap-2.nyuchi.com:4433"@
        &&& self.network.bind_address@ == "0.0.0.0"@
        &&& self.network.port == 4433
        &&& self.synapse.is_default()
        &&& self.propagation.is_default()
        &&& self.activation.is_default()
        &&& self.crypto_module@ == "pq-v1"@
    }
}

impl Default for NodeConfig {
    fn default() -> (r: Self)
        ensures
            r.is_default(),
    {
        let mut bootstrap_nodes: Vec<String> = Vec::new();
        bootstrap_nodes.push("ntl://bootstrap-1.nyuchi.com:4433".to_owned());
        bootstrap_nodes.push("ntl://bootstrap-2.nyuchi.com:4433".to_owned());
        NodeConfig {
            network: NetworkConfig {
                bootstrap_nodes,
                bind_address: "0.0.0.0".to_owned(),
                port: 4433,
            },
            synapse: SynapseConfig::default(),
            propagation: PropagationConfig::default(),
            activation: ActivationConfig::default(),
            crypto_module: "pq-v1".to_owned(),
        }
    }
}

} // verus!
