//! Laws that relate several calls of the verifier.

use vstd::prelude::*;

use bls12_381::{G1Affine, Scalar};
use crate::types::{PreparedVerifyingKey, Proof, VerificationError, VerifyingKey};
use crate::verification::{
    coin_derived, coins_derived, deterministic, outcome, pairing_product, points_valid,
    prepared_from, shape_ok,
};

verus! {

/// With a deterministic derivation, the coins recomputed for one statement
/// and one seed are the same every time.
pub proof fn lemma_derived_coins_unique<F: Fn(&[Scalar], &G1Affine, usize) -> Scalar>(
    compute_coin: F,
    public_inputs: Seq<Scalar>,
    d: G1Affine,
    e1: Seq<Scalar>,
    e2: Seq<Scalar>,
)
    requires
        deterministic(compute_coin),
        e1.len() == e2.len(),
        coins_derived(compute_coin, public_inputs, d, e1),
        coins_derived(compute_coin, public_inputs, d, e2),
    ensures
        e1 == e2,
{
    assert forall|i: int| 0 <= i < e1.len() implies e1[i] == e2[i] by {
        let c1 = e1[i];
        let c2 = e2[i];
        assert(coin_derived(compute_coin, public_inputs, d, i as usize, c1));
        assert(coin_derived(compute_coin, public_inputs, d, i as usize, c2));
    }
    assert(e1 =~= e2);
}

/// Verifying the same proof against the same prepared key and public inputs
/// twice, with a deterministic coin derivation, gives the same result.
pub proof fn lemma_verify_repeatable<F: Fn(&[Scalar], &G1Affine, usize) -> Scalar>(
    pvk: PreparedVerifyingKey,
    proof: Proof,
    public_inputs: Seq<Scalar>,
    compute_coin: F,
    e1: Seq<Scalar>,
    e2: Seq<Scalar>,
)
    requires
        deterministic(compute_coin),
        e1.len() == proof.coins@.len(),
        e2.len() == proof.coins@.len(),
        coins_derived(compute_coin, public_inputs, proof.d, e1),
        coins_derived(compute_coin, public_inputs, proof.d, e2),
    ensures
        outcome(pvk, proof, public_inputs, e1) == outcome(pvk, proof, public_inputs, e2),
{
    lemma_derived_coins_unique(compute_coin, public_inputs, proof.d, e1, e2);
}

/// Two preparations of the same verifying key accept and reject exactly the
/// same proofs.
pub proof fn lemma_prepare_deterministic(
    vk: VerifyingKey,
    pvk1: PreparedVerifyingKey,
    pvk2: PreparedVerifyingKey,
    proof: Proof,
    public_inputs: Seq<Scalar>,
    expected_coins: Seq<Scalar>,
)
    requires
        prepared_from(vk, pvk1),
        prepared_from(vk, pvk2),
    ensures
        outcome(pvk1, proof, public_inputs, expected_coins) == outcome(
            pvk2,
            proof,
            public_inputs,
            expected_coins,
        ),
{
}

/// Changing a single coin of an accepted proof, keeping `d` and the public
/// inputs, makes it rejected as an invalid proof.
pub proof fn lemma_coin_binding<F: Fn(&[Scalar], &G1Affine, usize) -> Scalar>(
    pvk: PreparedVerifyingKey,
    proof: Proof,
    tampered: Proof,
    public_inputs: Seq<Scalar>,
    compute_coin: F,
    e1: Seq<Scalar>,
    e2: Seq<Scalar>,
    j: int,
)
    requires
        deterministic(compute_coin),
        0 <= j < proof.coins@.len(),
        tampered.a == proof.a,
        tampered.b == proof.b,
        tampered.c == proof.c,
        tampered.d == proof.d,
        tampered.coins@ == proof.coins@.update(j, tampered.coins@[j]),
        tampered.coins@[j] != proof.coins@[j],
        e1.len() == proof.coins@.len(),
        e2.len() == tampered.coins@.len(),
        coins_derived(compute_coin, public_inputs, proof.d, e1),
        coins_derived(compute_coin, public_inputs, tampered.d, e2),
        outcome(pvk, proof, public_inputs, e1) == Ok::<(), VerificationError>(()),
    ensures
        outcome(pvk, tampered, public_inputs, e2) == Err::<(), VerificationError>(
            VerificationError::InvalidProof,
        ),
{
    lemma_derived_coins_unique(compute_coin, public_inputs, proof.d, e1, e2);
    assert(tampered.coins@[j] != e2[j]);
}

/// A proof whose lengths fit the key, whose coins are the recomputed ones,
/// whose points lie in the prime-order subgroups and which satisfies the
/// pairing equation is accepted.
pub proof fn lemma_honest_proof_accepted<F: Fn(&[Scalar], &G1Affine, usize) -> Scalar>(
    pvk: PreparedVerifyingKey,
    proof: Proof,
    public_inputs: Seq<Scalar>,
    compute_coin: F,
    expected: Seq<Scalar>,
)
    requires
        shape_ok(pvk, proof, public_inputs.len()),
        coins_derived(compute_coin, public_inputs, proof.d, expected),
        proof.coins@ == expected,
        points_valid(pvk, proof, public_inputs),
        pvk.alpha_g1_beta_g2 == pairing_product(pvk, proof, public_inputs),
    ensures
        outcome(pvk, proof, public_inputs, expected) == Ok::<(), VerificationError>(()),
{
}

} // verus!
