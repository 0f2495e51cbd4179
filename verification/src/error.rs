//! Error types for the Nyuchi Transfer Layer.

use vstd::prelude::*;

verus! {

#[verifier::external_type_specification]
#[verifier::external_body]
pub struct ExIoError(std::io::Error);

/// Errors that can occur in NTL operations.
#[derive(Debug)]
pub enum Error {
    /// Signal validation failed.
    InvalidSignal(String),
    /// Signal payload is malformed or missing required fields.
    InvalidPayload(String),
    /// Cryptographic operation failed.
    Crypto(String),
    /// Signature verification failed.
    SignatureVerification {
        /// The signal that failed verification.
        signal_id: String,
        /// The claimed origin node.
        origin: String,
    },
    /// Synapse operation failed.
    Synapse(String),
    /// Synapse handshake failed.
    HandshakeFailed {
        /// The remote node.
        remote: String,
        /// Reason for failure.
        reason: String,
    },
    /// No compatible crypto module between peers.
    NoCryptoModule(String),
    /// Propagation error.
    Propagation(String),
    /// Signal TTL expired.
    TtlExpired(String),
    /// Duplicate signal detected.
    DuplicateSignal(String),
    /// Node configuration error.
    Config(String),
    /// Adapter error.
    Adapter(String),
    /// Correlation timeout — no response signal received.
    CorrelationTimeout {
        /// The signal awaiting correlation.
        signal_id: String,
        /// Timeout duration in milliseconds.
        timeout_ms: u64,
    },
    /// Node capacity exceeded.
    CapacityExceeded(String),
    /// Transport-level error.
    Transport(std::io::Error),
    /// Serialization/deserialization error.
    Serialization(String),
    /// The node is shutting down.
    Shutdown,
}

} // verus!
