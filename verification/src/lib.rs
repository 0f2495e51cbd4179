//! Verified core of the Nyuchi Transfer Layer: signals, synapses,
//! activation thresholds, propagation selection and the supporting types.

use vstd::prelude::*;

pub mod activation;
pub mod binary32;
mod clock;
pub mod config;
pub mod crypto;
pub mod error;
pub mod node;
pub mod propagation;
pub mod signal;
pub mod synapse;
pub mod testing;
pub mod topology;

verus! {

/// Result type of NTL operations.
pub type Result<T> = core::result::Result<T, error::Error>;

} // verus!
