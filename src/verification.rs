//! Key preparation and proof verification.

use vstd::prelude::*;

use crate::curve::{
    add_assign_g1, final_exponentiation, final_exponentiation_of, g1_add, g1_affine,
    g1_is_on_curve, g1_is_torsion_free, g1_mul, g1_projective, g1_valid, g2_is_on_curve,
    g2_is_torsion_free, g2_neg, g2_prepared, g2_prepared_sound, g2_valid, gt_eq, miller_loop_of,
    multi_miller_loop4, mul_g1, neg_g2, pairing, pairing_of, prepare_g2, scalar_eq, scalar_from,
    scalar_from_u64, to_affine, to_projective,
};
use bls12_381::{G1Affine, G1Projective, G2Affine, Gt, Scalar};
use crate::types::{PreparedVerifyingKey, Proof, VerificationError, VerifyingKey};

verus! {

/// The points of `vk` that preparation pairs or negates lie in the
/// prime-order subgroups.
pub open spec fn key_points_valid(vk: VerifyingKey) -> bool {
    &&& g1_valid(vk.alpha_g1)
    &&& g2_valid(vk.beta_g2)
    &&& g2_valid(vk.gamma_g2)
    &&& g2_valid(vk.delta_g2)
    &&& g2_valid(vk.deltap_g2)
}

/// The G2 points of `pvk` were precomputed from subgroup points, so the
/// pairing equation can be evaluated on them.
pub open spec fn prepared_sound(pvk: PreparedVerifyingKey) -> bool {
    &&& g2_prepared_sound(pvk.neg_gamma_g2)
    &&& g2_prepared_sound(pvk.neg_delta_g2)
    &&& g2_prepared_sound(pvk.neg_deltap_g2)
}

/// `pvk` is the preparation of `vk`.
pub open spec fn prepared_from(vk: VerifyingKey, pvk: PreparedVerifyingKey) -> bool {
    &&& pvk.alpha_g1_beta_g2 == pairing_of(vk.alpha_g1, vk.beta_g2)
    &&& pvk.neg_gamma_g2 == g2_prepared(g2_neg(vk.gamma_g2))
    &&& pvk.neg_delta_g2 == g2_prepared(g2_neg(vk.delta_g2))
    &&& pvk.neg_deltap_g2 == g2_prepared(g2_neg(vk.deltap_g2))
    &&& pvk.ic@ == vk.ic@
}

/// The key has one coefficient for the constant term and one for each public
/// input and each coin.
pub open spec fn shape_ok(pvk: PreparedVerifyingKey, proof: Proof, n_inputs: nat) -> bool {
    n_inputs + proof.coins@.len() + 1 == pvk.ic@.len()
}

/// `ic[0] + ic[1] * inputs[0] + ... + ic[n] * inputs[n - 1]`, summed from the
/// left.
pub open spec fn combination(ic: Seq<G1Affine>, inputs: Seq<Scalar>) -> G1Projective
    decreases inputs.len(),
{
    if inputs.len() == 0 {
        g1_projective(ic[0])
    } else {
        g1_add(
            combination(ic, inputs.drop_last()),
            g1_mul(ic[inputs.len() as int], inputs.last()),
        )
    }
}

/// The key's coefficients combined with the public inputs followed by the
/// coins, in affine form.
pub open spec fn accumulated(
    pvk: PreparedVerifyingKey,
    proof: Proof,
    public_inputs: Seq<Scalar>,
) -> G1Affine {
    g1_affine(combination(pvk.ic@, public_inputs + proof.coins@))
}

/// The G1 and G2 points that enter the pairing equation lie in the
/// prime-order subgroups.
pub open spec fn points_valid(
    pvk: PreparedVerifyingKey,
    proof: Proof,
    public_inputs: Seq<Scalar>,
) -> bool {
    &&& g1_valid(proof.a)
    &&& g2_valid(proof.b)
    &&& g1_valid(proof.c)
    &&& g1_valid(proof.d)
    &&& g1_valid(accumulated(pvk, proof, public_inputs))
}

/// The product `e(a, b) e(acc, -gamma) e(c, -delta) e(d, -delta')` after one
/// shared final exponentiation, where `acc` is `accumulated`.
pub open spec fn pairing_product(
    pvk: PreparedVerifyingKey,
    proof: Proof,
    public_inputs: Seq<Scalar>,
) -> Gt {
    let acc = accumulated(pvk, proof, public_inputs);
    final_exponentiation_of(
        miller_loop_of(
            seq![
                (proof.a, g2_prepared(proof.b)),
                (acc, pvk.neg_gamma_g2),
                (proof.c, pvk.neg_delta_g2),
                (proof.d, pvk.neg_deltap_g2),
            ],
        ),
    )
}

/// What verification decides, given the coins recomputed from the statement.
pub open spec fn outcome(
    pvk: PreparedVerifyingKey,
    proof: Proof,
    public_inputs: Seq<Scalar>,
    expected_coins: Seq<Scalar>,
) -> Result<(), VerificationError> {
    if !shape_ok(pvk, proof, public_inputs.len()) {
        Err(VerificationError::InvalidVerifyingKey)
    } else if proof.coins@ != expected_coins {
        Err(VerificationError::InvalidProof)
    } else if !points_valid(pvk, proof, public_inputs) {
        Err(VerificationError::InvalidProof)
    } else if pvk.alpha_g1_beta_g2 == pairing_product(pvk, proof, public_inputs) {
        Ok(())
    } else {
        Err(VerificationError::InvalidProof)
    }
}

/// The coin derivation is applied to the public inputs preceded by one.
pub open spec fn coin_inputs(public_inputs: Seq<Scalar>) -> Seq<Scalar> {
    seq![scalar_from_u64(1)] + public_inputs
}

/// `c` is a value that `compute_coin` may return for the coin at `index`.
pub open spec fn coin_derived<F: Fn(&[Scalar], &G1Affine, usize) -> Scalar>(
    compute_coin: F,
    public_inputs: Seq<Scalar>,
    d: G1Affine,
    index: usize,
    c: Scalar,
) -> bool {
    exists|x: &[Scalar]|
        x@ == coin_inputs(public_inputs) && #[trigger] compute_coin.ensures((x, &d, index), c)
}

/// Each of `expected` is a value that `compute_coin` may return for its index.
pub open spec fn coins_derived<F: Fn(&[Scalar], &G1Affine, usize) -> Scalar>(
    compute_coin: F,
    public_inputs: Seq<Scalar>,
    d: G1Affine,
    expected: Seq<Scalar>,
) -> bool {
    forall|i: int|
        0 <= i < expected.len() ==> coin_derived(
            compute_coin,
            public_inputs,
            d,
            i as usize,
            #[trigger] expected[i],
        )
}

/// `compute_coin` returns one value for each statement, seed and index.
pub open spec fn deterministic<F: Fn(&[Scalar], &G1Affine, usize) -> Scalar>(
    compute_coin: F,
) -> bool {
    forall|x1: &[Scalar], x2: &[Scalar], s: &G1Affine, i: usize, c1: Scalar, c2: Scalar|
        x1@ == x2@ && #[trigger] compute_coin.ensures((x1, s, i), c1)
            && #[trigger] compute_coin.ensures((x2, s, i), c2) ==> c1 == c2
}

/// Prepares a verifying key for repeated use: pairs `alpha_g1` with
/// `beta_g2` once, and negates and precomputes the three G2 points.
pub fn prepare_verifying_key(vk: &VerifyingKey) -> (pvk: PreparedVerifyingKey)
    requires
        key_points_valid(*vk),
    ensures
        prepared_from(*vk, pvk),
        prepared_sound(pvk),
{
    let gamma = neg_g2(&vk.gamma_g2);
    let delta = neg_g2(&vk.delta_g2);
    let deltap = neg_g2(&vk.deltap_g2);
    let mut ic: Vec<G1Affine> = Vec::new();
    let mut k: usize = 0;
    while k < vk.ic.len()
        invariant
            k <= vk.ic@.len(),
            ic@ == vk.ic@.take(k as int),
        decreases vk.ic@.len() - k,
    {
        ic.push(vk.ic[k]);
        k += 1;
        assert(ic@ =~= vk.ic@.take(k as int));
    }
    assert(ic@ =~= vk.ic@);
    PreparedVerifyingKey {
        alpha_g1_beta_g2: pairing(&vk.alpha_g1, &vk.beta_g2),
        neg_gamma_g2: prepare_g2(&gamma),
        neg_delta_g2: prepare_g2(&delta),
        neg_deltap_g2: prepare_g2(&deltap),
        ic,
    }
}

fn g1_checked(p: &G1Affine) -> (r: bool)
    ensures
        r == g1_valid(*p),
{
    g1_is_on_curve(p) && g1_is_torsion_free(p)
}

fn g2_checked(q: &G2Affine) -> (r: bool)
    ensures
        r == g2_valid(*q),
{
    g2_is_on_curve(q) && g2_is_torsion_free(q)
}

/// Tells whether the points of `vk` that preparation pairs or negates lie in
/// the prime-order subgroups, as `prepare_verifying_key` requires.
pub fn verifying_key_is_valid(vk: &VerifyingKey) -> (r: bool)
    ensures
        r == key_points_valid(*vk),
{
    g1_checked(&vk.alpha_g1) && g2_checked(&vk.beta_g2) && g2_checked(&vk.gamma_g2)
        && g2_checked(&vk.delta_g2) && g2_checked(&vk.deltap_g2)
}

/// Checks a proof against a prepared key, given the coins recomputed from the
/// statement: first the shape, then the coins, then that every point lies in
/// its subgroup, then the pairing equation.
pub fn verify_with_coins(
    pvk: &PreparedVerifyingKey,
    proof: &Proof,
    public_inputs: &[Scalar],
    expected_coins: &[Scalar],
) -> (r: Result<(), VerificationError>)
    requires
        prepared_sound(*pvk),
    ensures
        r == outcome(*pvk, *proof, public_inputs@, expected_coins@),
{
    let n_ic = pvk.ic.len();
    let n_inputs = public_inputs.len();
    let n_coins = proof.coins.len();
    if n_ic == 0 || n_coins > n_ic - 1 || n_inputs != n_ic - 1 - n_coins {
        return Err(VerificationError::InvalidVerifyingKey);
    }
    if expected_coins.len() != n_coins {
        return Err(VerificationError::InvalidProof);
    }
    let mut i: usize = 0;
    while i < n_coins
        invariant
            i <= n_coins == proof.coins@.len() == expected_coins@.len(),
            shape_ok(*pvk, *proof, public_inputs@.len()),
            forall|j: int| 0 <= j < i ==> proof.coins@[j] == expected_coins@[j],
        decreases n_coins - i,
    {
        if !scalar_eq(&expected_coins[i], &proof.coins[i]) {
            assert(proof.coins@[i as int] != expected_coins@[i as int]);
            return Err(VerificationError::InvalidProof);
        }
        i += 1;
    }
    assert(proof.coins@ =~= expected_coins@);
    let ghost all = public_inputs@ + proof.coins@;
    let mut acc = to_projective(&pvk.ic[0]);
    let n = n_inputs + n_coins;
    let mut k: usize = 0;
    while k < n
        invariant
            k <= n == all.len(),
            n + 1 == pvk.ic@.len(),
            n_inputs == public_inputs@.len(),
            all == public_inputs@ + proof.coins@,
            acc == combination(pvk.ic@, all.take(k as int)),
        decreases n - k,
    {
        let value = if k < n_inputs {
            &public_inputs[k]
        } else {
            &proof.coins[k - n_inputs]
        };
        let term = mul_g1(&pvk.ic[k + 1], value);
        add_assign_g1(&mut acc, &term);
        k += 1;
        assert(all.take(k as int).drop_last() =~= all.take(k - 1));
    }
    assert(all.take(n as int) =~= all);
    let acc = to_affine(&acc);
    if !(g1_checked(&proof.a) && g2_checked(&proof.b) && g1_checked(&proof.c) && g1_checked(
        &proof.d,
    ) && g1_checked(&acc)) {
        return Err(VerificationError::InvalidProof);
    }
    let b = prepare_g2(&proof.b);
    let product = final_exponentiation(
        &multi_miller_loop4(
            &proof.a,
            &b,
            &acc,
            &pvk.neg_gamma_g2,
            &proof.c,
            &pvk.neg_delta_g2,
            &proof.d,
            &pvk.neg_deltap_g2,
        ),
    );
    if gt_eq(&pvk.alpha_g1_beta_g2, &product) {
        Ok(())
    } else {
        Err(VerificationError::InvalidProof)
    }
}

/// Checks a proof against a prepared key. The coins are recomputed with
/// `compute_coin`, from the public inputs preceded by one, the proof's `d` and
/// the coin's index, and must equal the proof's coins; then the pairing
/// equation must hold.
pub fn verify_proof<F: Fn(&[Scalar], &G1Affine, usize) -> Scalar>(
    pvk: &PreparedVerifyingKey,
    proof: &Proof,
    public_inputs: &[Scalar],
    compute_coin: F,
) -> (r: Result<(), VerificationError>)
    requires
        prepared_sound(*pvk),
        shape_ok(*pvk, *proof, public_inputs@.len()) ==> forall|
            x: &[Scalar],
            s: &G1Affine,
            i: usize,
        | compute_coin.requires((x, s, i)),
    ensures
        !shape_ok(*pvk, *proof, public_inputs@.len()) ==> r == Err::<(), VerificationError>(
            VerificationError::InvalidVerifyingKey,
        ),
        shape_ok(*pvk, *proof, public_inputs@.len()) ==> exists|expected: Seq<Scalar>|
            expected.len() == proof.coins@.len() && coins_derived(
                compute_coin,
                public_inputs@,
                proof.d,
                expected,
            ) && r == outcome(*pvk, *proof, public_inputs@, expected),
{
    let n_ic = pvk.ic.len();
    let n_inputs = public_inputs.len();
    let n_coins = proof.coins.len();
    if n_ic == 0 || n_coins > n_ic - 1 || n_inputs != n_ic - 1 - n_coins {
        return Err(VerificationError::InvalidVerifyingKey);
    }
    let mut statement: Vec<Scalar> = Vec::new();
    statement.push(scalar_from(1));
    let mut k: usize = 0;
    while k < n_inputs
        invariant
            k <= n_inputs == public_inputs@.len(),
            statement@ == coin_inputs(public_inputs@.take(k as int)),
        decreases n_inputs - k,
    {
        statement.push(public_inputs[k]);
        k += 1;
        assert(statement@ =~= coin_inputs(public_inputs@.take(k as int)));
    }
    assert(public_inputs@.take(n_inputs as int) =~= public_inputs@);
    let mut expected: Vec<Scalar> = Vec::new();
    let mut i: usize = 0;
    while i < n_coins
        invariant
            i <= n_coins,
            expected@.len() == i,
            statement@ == coin_inputs(public_inputs@),
            forall|x: &[Scalar], s: &G1Affine, j: usize| compute_coin.requires((x, s, j)),
            coins_derived(compute_coin, public_inputs@, proof.d, expected@),
        decreases n_coins - i,
    {
        let c = compute_coin(statement.as_slice(), &proof.d, i);
        expected.push(c);
        assert(coin_derived(compute_coin, public_inputs@, proof.d, i, c));
        i += 1;
    }
    verify_with_coins(pvk, proof, public_inputs, expected.as_slice())
}

} // verus!
