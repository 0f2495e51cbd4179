use ntl_core::binary32;
use ntl_core::error::Error;
use ntl_core::signal::{NodeId, Signal, SignalId, SignalType};

fn w(bits: u32) -> f32 {
    f32::from_bits(bits)
}

#[test]
fn signal_id_is_unique() {
    let a = SignalId::new();
    let b = SignalId::new();
    assert_ne!(a, b);
}

#[test]
fn signal_builder_defaults() {
    let origin = NodeId(vec![0u8; 32]);
    let signal = Signal::data("test").build_unsigned(origin);

    assert_eq!(signal.signal_type, SignalType::Data);
    assert!((w(signal.weight) - 0.5).abs() < f32::EPSILON);
    assert_eq!(signal.ttl, 10);
    assert!(signal.tags.contains(&"test".to_string()));
}

#[test]
fn signal_weight_clamping() {
    let origin = NodeId(vec![0u8; 32]);
    let signal = Signal::data("test")
        .with_weight(1.5f32.to_bits())
        .build_unsigned(origin);
    assert!((w(signal.weight) - 1.0).abs() < f32::EPSILON);
}

#[test]
fn signal_hop_decrements_ttl() {
    let origin = NodeId(vec![0u8; 32]);
    let mut signal = Signal::data("test").with_ttl(5).build_unsigned(origin);

    let hop_node = NodeId(vec![1u8; 32]);
    signal.hop(hop_node.clone());

    assert_eq!(signal.ttl, 4);
    assert!(signal.has_visited(&hop_node));
}

#[test]
fn signal_validation_rejects_invalid_weight() {
    let origin = NodeId(vec![0u8; 32]);
    let mut signal = Signal::data("test").build_unsigned(origin);
    signal.weight = 1.5f32.to_bits();
    signal.signature = vec![1];
    assert!(signal.validate().is_err());
}

#[test]
fn signal_type_byte_roundtrip() {
    let types = vec![
        SignalType::Data,
        SignalType::Query,
        SignalType::Event,
        SignalType::Command,
        SignalType::Heartbeat,
        SignalType::Discovery,
        SignalType::Ack,
    ];
    for t in types {
        let byte = t.to_type_byte();
        let parsed = SignalType::from_type_byte(byte).unwrap();
        assert_eq!(t, parsed);
    }
}

#[test]
fn signal_loop_detection() {
    let origin = NodeId(vec![0u8; 32]);
    let mut signal = Signal::data("test").build_unsigned(origin.clone());

    let node_a = NodeId(vec![1u8; 32]);
    let node_b = NodeId(vec![2u8; 32]);

    signal.hop(node_a.clone());
    signal.hop(node_b.clone());

    assert!(signal.has_visited(&node_a));
    assert!(signal.has_visited(&node_b));
    assert!(!signal.has_visited(&origin));
}

#[test]
fn custom_type_byte_does_not_parse_back() {
    let t = SignalType::Custom("mine".to_string());
    assert_eq!(t.to_type_byte(), 15);
    assert_eq!(SignalType::from_type_byte(15), None);
    assert_eq!(SignalType::from_type_byte(7), None);
    assert_eq!(SignalType::from_type_byte(4), Some(SignalType::Heartbeat));
}

#[test]
fn weight_bit_constants_match_their_values() {
    assert_eq!(binary32::ONE, 1.0f32.to_bits());
    assert_eq!(binary32::HALF, 0.5f32.to_bits());
    assert_eq!(binary32::TENTH, 0.1f32.to_bits());
    assert_eq!(binary32::HUNDREDTH, 0.01f32.to_bits());
    assert_eq!(binary32::NINE_TENTHS, 0.9f32.to_bits());
    assert_eq!(binary32::TEN, 10.0f32.to_bits());
    assert_eq!(binary32::TWO_FIFTHS, 0.4f32.to_bits());
    assert_eq!(binary32::ONE_FIFTH, 0.2f32.to_bits());
    assert_eq!(binary32::THREE_TENTHS, 0.3f32.to_bits());
}

#[test]
fn clamp_matches_f32_clamp() {
    let samples = [
        -2.0f32, -1.0, -0.5, -0.0, 0.0, 1e-40, 0.25, 0.999, 1.0, 1.0000001, 3.5,
        f32::INFINITY, f32::NEG_INFINITY, f32::MIN_POSITIVE,
    ];
    for x in samples {
        let got = binary32::clamp_unit(x.to_bits());
        assert_eq!(got, x.clamp(0.0, 1.0).to_bits(), "clamp of {x}");
    }
    assert!(f32::from_bits(binary32::clamp_unit(f32::NAN.to_bits())).is_nan());
}

#[test]
fn comparisons_match_f32() {
    let samples = [
        -3.0f32, -1.0, -0.0, 0.0, 0.01, 0.1, 0.5, 1.0, 2.0, f32::INFINITY, f32::NEG_INFINITY,
        f32::NAN,
    ];
    for a in samples {
        for b in samples {
            assert_eq!(binary32::lt(a.to_bits(), b.to_bits()), a < b, "{a} < {b}");
            assert_eq!(binary32::le(a.to_bits(), b.to_bits()), a <= b, "{a} <= {b}");
        }
    }
}

#[test]
fn validation_order_and_messages() {
    let origin = NodeId(vec![0u8; 32]);
    let mut signal = Signal::data("test").build_unsigned(origin);
    match signal.validate() {
        Err(Error::InvalidSignal(m)) => assert_eq!(m, "missing signature"),
        other => panic!("unexpected {other:?}"),
    }
    signal.signature = vec![7];
    assert!(signal.validate().is_ok());
    signal.ttl = 0;
    match signal.validate() {
        Err(Error::TtlExpired(id)) => {
            assert_eq!(id.len(), 26);
            assert_eq!(id, signal.id.to_string());
        }
        other => panic!("unexpected {other:?}"),
    }
    signal.weight = (-0.25f32).to_bits();
    match signal.validate() {
        Err(Error::InvalidSignal(text)) => {
            assert_eq!((-0.25f32).to_bits(), 0xbe80_0000);
            assert_eq!(text, "weight 0xbe800000 out of range [0.0, 1.0]");
        }
        other => panic!("unexpected {other:?}"),
    }
    signal.weight = (-0.0f32).to_bits();
    assert!(matches!(signal.validate(), Err(Error::TtlExpired(_))));
}

#[test]
fn signal_id_text_and_timestamp() {
    let id = SignalId(0x0000_0191_0000_0000_0000_0000_0000_0000u128 | 0xABCDEF);
    assert_eq!(id.timestamp_ms(), 0x191_0000);
    let text = id.to_string();
    assert_eq!(text.len(), 26);
    assert_eq!(SignalId(0).to_string(), "00000000000000000000000000");
    assert_eq!(SignalId(u128::MAX).to_string(), "7ZZZZZZZZZZZZZZZZZZZZZZZZZ");
    assert_eq!(SignalId(31).to_string(), "0000000000000000000000000Z");
}

#[test]
fn node_id_display_shows_eight_bytes() {
    let id = NodeId(vec![0xab, 0x01, 0x10, 0xff, 0, 1, 2, 3, 4, 5]);
    assert_eq!(id.to_string(), "ntl:ab0110ff00010203...");
    let short = NodeId(vec![0x0f]);
    assert_eq!(short.to_string(), "ntl:0f...");
    assert_eq!(NodeId(vec![]).to_string(), "ntl:...");
}

#[test]
fn hop_saturates_and_caps_trace() {
    let origin = NodeId(vec![0u8; 4]);
    let mut signal = Signal::heartbeat().with_ttl(1).build_unsigned(origin);
    assert!(!signal.is_expired());
    signal.hop(NodeId(vec![9]));
    assert!(signal.is_expired());
    signal.hop(NodeId(vec![9]));
    assert_eq!(signal.ttl, 0);
    for i in 0..100u8 {
        signal.hop(NodeId(vec![i]));
    }
    assert_eq!(signal.trace.len(), 64);
    assert!(!signal.has_visited(&NodeId(vec![99])));
}

#[test]
fn builder_places_topic_first_and_keeps_tags() {
    let origin = NodeId(vec![0u8; 4]);
    let signal = Signal::event("alerts")
        .with_tags(vec!["a", "b"])
        .with_payload("{\"k\":1}".to_string())
        .with_correlation(SignalId(5))
        .build_unsigned(origin);
    assert_eq!(signal.tags, vec!["alerts".to_string(), "a".to_string(), "b".to_string()]);
    assert_eq!(signal.payload, "{\"k\":1}");
    assert_eq!(signal.correlation_id, Some(SignalId(5)));
    assert_eq!(signal.version, 1);
    assert!(signal.signature.is_empty());
    let untagged = Signal::command("").build_unsigned(NodeId(vec![]));
    assert!(untagged.tags.is_empty());
}

#[test]
fn estimated_size_counts_every_part() {
    let origin = NodeId(vec![0u8; 32]);
    let mut signal = Signal::data("té").build_unsigned(origin);
    signal.signature = vec![0u8; 64];
    signal.hop(NodeId(vec![1]));
    // header 8 + id 16 + origin 32 + signature 64 + 8 + 4 + 2
    // + payload "null" 4 + one trace entry 32 + tag "té" 3 bytes
    assert_eq!(signal.estimated_size(), 8 + 16 + 32 + 64 + 8 + 4 + 2 + 4 + 32 + 3);
}

#[test]
fn signal_id_is_time_ordered() {
    let a = SignalId::new();
    let start = std::time::Instant::now();
    while start.elapsed() < std::time::Duration::from_millis(2) {}
    let b = SignalId::new();
    assert!(b.timestamp_ms() >= a.timestamp_ms());
}

#[test]
fn build_at_given_time_and_id() {
    let signal = Signal::query("q").build_unsigned_at(NodeId(vec![1]), SignalId(77), 42);
    assert_eq!(signal.id, SignalId(77));
    assert_eq!(signal.timestamp, 42);
    assert_eq!(signal.signal_type, SignalType::Query);
}
