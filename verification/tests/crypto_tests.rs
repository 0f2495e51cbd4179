use ntl_core::crypto::{blake3_hash, node_id_from_public_key, PublicKey};

#[test]
fn blake3_hash_deterministic() {
    let data = b"hello NTL";
    let h1 = blake3_hash(data);
    let h2 = blake3_hash(data);
    assert_eq!(h1, h2);
}

#[test]
fn blake3_hash_different_inputs() {
    let h1 = blake3_hash(b"hello");
    let h2 = blake3_hash(b"world");
    assert_ne!(h1, h2);
}

#[test]
fn node_id_from_key_deterministic() {
    let key = PublicKey(vec![42u8; 32]);
    let id1 = node_id_from_public_key(&key);
    let id2 = node_id_from_public_key(&key);
    assert_eq!(id1, id2);
}

#[test]
fn blake3_known_digest() {
    let h = blake3_hash(b"");
    assert_eq!(h.0.len(), 32);
    assert_eq!(h.0[..4], [0xaf, 0x13, 0x49, 0xb9]);
    let id = node_id_from_public_key(&PublicKey(Vec::new()));
    assert_eq!(id.0, h.0);
}
