//! Verification of pairing-based proofs whose auxiliary "coin" values are
//! bound to the statement by a deterministic derivation.

pub mod curve;
pub mod types;
pub mod laws;
pub mod verification;

pub use types::{PreparedVerifyingKey, Proof, VerificationError, VerifyingKey};
pub use verification::{
    prepare_verifying_key, verify_proof, verify_with_coins, verifying_key_is_valid,
};
