//! Test utilities for NTL development.

use vstd::prelude::*;

use crate::binary32;
use crate::propagation::default_scope;
use crate::signal::{Encoding, NodeId, Signal, SignalBuilder, SignalType};

verus! {

/// The bytes of a test node id: 32 copies of `id`.
pub open spec fn test_node_bytes(id: u8) -> Seq<u8> {
    Seq::new(32, |_i: int| id)
}

/// Create a test NodeId with a simple pattern.
pub fn test_node_id(id: u8) -> (n: NodeId)
    ensures
        n@ == test_node_bytes(id),
{
    let mut bytes: Vec<u8> = Vec::new();
    let mut i: usize = 0;
    while i < 32
        invariant
            i <= 32,
            bytes@ == Seq::new(i as nat, |_j: int| id),
        decreases 32 - i,
    {
        bytes.push(id);
        i = i + 1;
        assert(bytes@ =~= Seq::new(i as nat, |_j: int| id));
    }
    NodeId(bytes)
}

/// The signal type a test signal of the given type gets: the type itself,
/// except that `Ack` and custom types become `Data`.
pub open spec fn test_signal_type(signal_type: SignalType) -> SignalType {
    match signal_type {
        SignalType::Ack => SignalType::Data,
        SignalType::Custom(_) => SignalType::Data,
        t => t,
    }
}

/// The topic a test signal of the given type carries.
pub open spec fn test_topic(signal_type: SignalType) -> Seq<char> {
    match signal_type {
        SignalType::Discovery => "discovery"@,
        SignalType::Heartbeat => "heartbeat"@,
        _ => "test"@,
    }
}

/// Create a simple test signal from node `0`, with the given weight clamped
/// to `[0.0, 1.0]` and a fake 64-byte all-zero signature.
pub fn test_signal(signal_type: SignalType, weight: u32) -> (signal: Signal)
    ensures
        signal.signal_type == test_signal_type(signal_type),
        signal.weight == binary32::spec_clamp_unit(weight),
        signal.origin@ == test_node_bytes(0),
        signal.signature@ == Seq::new(64, |_i: int| 0u8),
        signal.tags@.len() == 1,
        signal.tags@[0]@ == test_topic(signal_type),
        signal.ttl == 10,
        signal.trace@.len() == 0,
        signal.version == 1,
        signal.payload@ == "null"@,
        signal.encoding == Encoding::Cbor,
        signal.scope == default_scope(),
        signal.correlation_id is None,
{
    let builder: SignalBuilder = match signal_type {
        SignalType::Data => Signal::data("test"),
        SignalType::Query => Signal::query("test"),
        SignalType::Event => Signal::event("test"),
        SignalType::Command => Signal::command("test"),
        SignalType::Discovery => Signal::discovery(),
        SignalType::Heartbeat => Signal::heartbeat(),
        _ => Signal::data("test"),
    };
    proof {
        reveal_strlit("test");
        reveal_strlit("discovery");
        reveal_strlit("heartbeat");
    }
    let mut signal = builder.with_weight(weight).build_unsigned(test_node_id(0));
    let mut signature: Vec<u8> = Vec::new();
    let mut i: usize = 0;
    while i < 64
        invariant
            i <= 64,
            signature@ == Seq::new(i as nat, |_j: int| 0u8),
        decreases 64 - i,
    {
        signature.push(0u8);
        i = i + 1;
        assert(signature@ =~= Seq::new(i as nat, |_j: int| 0u8));
    }
    signal.signature = signature;
    signal
}

} // verus!
