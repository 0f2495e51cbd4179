//! Pluggable cryptographic module interface.
//!
//! NTL treats cryptography as a swappable module, not a foundational
//! dependency. This enables post-quantum readiness and crypto agility.

use vstd::prelude::*;

use crate::signal::NodeId;
use crate::Result;

verus! {

/// Public key bytes.
#[derive(Debug, Clone, PartialEq, Eq)]
pub struct PublicKey(pub Vec<u8>);

/// Private key bytes.
#[derive(Debug, Clone)]
pub struct PrivateKey(pub Vec<u8>);

/// Cryptographic signature bytes.
#[derive(Debug, Clone)]
pub struct Signature(pub Vec<u8>);

/// Shared secret derived from key exchange.
#[derive(Debug, Clone)]
pub struct SharedSecret(pub Vec<u8>);

/// Hash output bytes.
#[derive(Debug, Clone, PartialEq, Eq)]
pub struct Hash(pub Vec<u8>);

/// The pluggable cryptographic module interface.
///
/// All cryptographic operations in NTL go through this trait.
/// Implementations can be swapped at runtime.
pub trait CryptoModule: Send + Sync {
    /// Unique identifier for this module (e.g., "pq-v1", "classical-v1").
    fn module_id(&self) -> &str;

    /// Generate a new keypair.
    fn generate_keypair(&self) -> Result<(PublicKey, PrivateKey)>;

    /// Sign data with a private key.
    fn sign(&self, data: &[u8], key: &PrivateKey) -> Result<Signature>;

    /// Verify a signature against a public key.
    fn verify(&self, data: &[u8], signature: &Signature, key: &PublicKey) -> Result<bool>;

    /// Encrypt data for a recipient's public key.
    fn encrypt(&self, data: &[u8], recipient_key: &PublicKey) -> Result<Vec<u8>>;

    /// Decrypt data with a private key.
    fn decrypt(&self, data: &[u8], key: &PrivateKey) -> Result<Vec<u8>>;

    /// Perform key exchange to derive a shared secret.
    fn key_exchange(
        &self,
        local_private: &PrivateKey,
        remote_public: &PublicKey,
    ) -> Result<SharedSecret>;

    /// Compute a cryptographic hash.
    fn hash(&self, data: &[u8]) -> Hash;
}

/// Number of bytes of a BLAKE3 digest.
pub const DIGEST_BYTES: usize = 32;

/// The BLAKE3 digest of a byte string, as the blake3 crate computes it.
pub uninterp spec fn blake3_digest(data: Seq<u8>) -> Seq<u8>;

/// Calls `blake3::hash` and copies the digest out of the returned `Hash`.
/// The digest is named (`blake3_digest` of the input); the crate's
/// `OUT_LEN` fixes its length at 32 bytes.
#[verifier::external_body]
fn blake3_digest_bytes(data: &[u8]) -> (digest: Vec<u8>)
    ensures
        digest@ == blake3_digest(data@),
        digest@.len() == DIGEST_BYTES,
{
    blake3::hash(data).as_bytes().to_vec()
}

/// BLAKE3-based hashing (used across all crypto modules).
pub fn blake3_hash(data: &[u8]) -> (h: Hash)
    ensures
        h.0@ == blake3_digest(data@),
        h.0@.len() == DIGEST_BYTES,
{
    Hash(blake3_digest_bytes(data))
}

/// The node id that belongs to a public key: the BLAKE3 digest of its bytes.
pub open spec fn node_id_of(key: Seq<u8>) -> Seq<u8> {
    blake3_digest(key)
}

/// Derive a NodeId from a public key.
pub fn node_id_from_public_key(key: &PublicKey) -> (id: NodeId)
    ensures
        id@ == node_id_of(key.0@),
        id@.len() == DIGEST_BYTES,
{
    let hash = blake3_hash(key.0.as_slice());
    NodeId(hash.0)
}

/// Hashing is deterministic: the same bytes give the same digest, so the
/// same public key always gives the same node id.
pub proof fn lemma_node_id_deterministic(a: Seq<u8>, b: Seq<u8>)
    requires
        a == b,
    ensures
        blake3_digest(a) == blake3_digest(b),
        node_id_of(a) == node_id_of(b),
{
}

} // verus!
