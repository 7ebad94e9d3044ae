//! Verifying keys, prepared verifying keys, proofs and verification errors.

use vstd::prelude::*;

use bls12_381::{G1Affine, G2Affine, G2Prepared, Gt, Scalar};

verus! {

/// The public parameters against which proofs are checked.
///
/// `ic` holds one point for the constant term, then one for each public
/// input, then one for each coin.
#[derive(Debug)]
pub struct VerifyingKey {
    pub alpha_g1: G1Affine,
    pub beta_g2: G2Affine,
    pub gamma_g2: G2Affine,
    pub delta_g2: G2Affine,
    pub deltap_g2: G2Affine,
    pub ic: Vec<G1Affine>,
}

/// A verifying key with its reusable parts precomputed: the pairing of
/// `alpha_g1` with `beta_g2`, and the negated G2 points in the form that the
/// Miller loop consumes.
#[derive(Debug)]
pub struct PreparedVerifyingKey {
    pub alpha_g1_beta_g2: Gt,
    pub neg_gamma_g2: G2Prepared,
    pub neg_delta_g2: G2Prepared,
    pub neg_deltap_g2: G2Prepared,
    pub ic: Vec<G1Affine>,
}

/// A proof: the three usual group elements, the element `d` that seeds the
/// coins, and the coins themselves.
#[derive(Debug)]
pub struct Proof {
    pub a: G1Affine,
    pub b: G2Affine,
    pub c: G1Affine,
    pub d: G1Affine,
    pub coins: Vec<Scalar>,
}

/// Why a proof was not accepted.
#[derive(Clone, Copy, Debug, PartialEq, Eq, Structural)]
pub enum VerificationError {
    /// The numbers of public inputs and coins do not fit the key.
    InvalidVerifyingKey,
    /// A coin does not match its derivation, or the pairing equation fails.
    InvalidProof,
}

} // verus!
