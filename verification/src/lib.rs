//! Validator-set bookkeeping and signature verification for a block-producing
//! network: a registry of validator records keyed by address, consensus
//! parameter validation, per-node block signing, and a stateless verification
//! service with batch support.

pub mod errors;
pub mod keys;
pub mod laws;
pub mod manager;
pub mod params;
pub mod service;
pub mod state;
