//! Network topology management and discovery.

use vstd::prelude::*;

use crate::signal::NodeId;

verus! {

/// Health metrics for the local topology (weights and scores are binary32
/// bit patterns).
#[derive(Debug, Clone)]
pub struct TopologyHealth {
    /// Number of active synapses.
    pub active_synapses: u32,
    /// Average synapse weight.
    pub avg_synapse_weight: u32,
    /// Connectivity score (0.0 - 1.0).
    pub connectivity_score: u32,
    /// Redundancy score — alternative paths available.
    pub redundancy_score: u32,
    /// Timestamp of last bootstrap node contact.
    pub last_bootstrap_contact: u64,
}

/// Node capability announcement for discovery signals.
#[derive(Debug, Clone)]
pub struct NodeCapabilities {
    /// Signal types this node handles.
    pub signal_types: Vec<String>,
    /// Adapters available on this node.
    pub adapters: Vec<String>,
    /// Node capacity tier.
    pub capacity: NodeCapacity,
    /// Geographic region hint.
    pub region: Option<String>,
}

/// Node capacity tier.
#[derive(Debug, Clone, Copy, PartialEq, Eq, Structural)]
pub enum NodeCapacity {
    /// Edge node — lightweight, limited resources.
    Edge,
    /// Standard node.
    Standard,
    /// High-capacity node.
    High,
    /// Bootstrap/infrastructure node.
    Infrastructure,
}

/// Topology manager: the local node and the bootstrap nodes it starts from.
pub struct TopologyManager {
    local_node: NodeId,
    bootstrap_nodes: Vec<String>,
}

impl TopologyManager {
    /// The local node.
    pub closed spec fn spec_local_node(&self) -> NodeId {
        self.local_node
    }

    /// The bootstrap node addresses.
    pub closed spec fn spec_bootstrap_nodes(&self) -> Seq<String> {
        self.bootstrap_nodes@
    }

    /// Create a new topology manager.
    pub fn new(local_node: NodeId, bootstrap_nodes: Vec<String>) -> (m: TopologyManager)
        ensures
            m.spec_local_node() == local_node,
            m.spec_bootstrap_nodes() == bootstrap_nodes@,
    {
        TopologyManager { local_node, bootstrap_nodes }
    }
}

} // verus!
