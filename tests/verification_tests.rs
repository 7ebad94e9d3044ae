use bls12_381::{G1Affine, G2Affine, Gt, Scalar};
use mirage_verifier::{
    prepare_verifying_key, verify_proof, verify_with_coins, verifying_key_is_valid,
    PreparedVerifyingKey, Proof, VerificationError, VerifyingKey,
};

// A toy deterministic coin derivation: it mixes every input with its position
// and folds in the first eight bytes of the seed's encoding.
fn toy_coin(inputs: &[Scalar], seed: &G1Affine, index: usize) -> Scalar {
    let mut acc = Scalar::zero();
    for (k, x) in inputs.iter().enumerate() {
        acc += *x * Scalar::from(k as u64 + 3);
    }
    let bytes = seed.to_compressed();
    let mut head = [0u8; 8];
    head.copy_from_slice(&bytes[..8]);
    acc + Scalar::from(u64::from_le_bytes(head)) * Scalar::from(index as u64 + 1)
}

fn g1(s: Scalar) -> G1Affine {
    G1Affine::from(G1Affine::generator() * s)
}

fn g2(s: Scalar) -> G2Affine {
    G2Affine::from(G2Affine::generator() * s)
}

fn sc(v: u64) -> Scalar {
    Scalar::from(v)
}

struct Setup {
    alpha: Scalar,
    beta: Scalar,
    gamma: Scalar,
    delta: Scalar,
    deltap: Scalar,
    u: Vec<Scalar>,
}

impl Setup {
    fn new(ic_len: usize) -> Setup {
        Setup {
            alpha: sc(11),
            beta: sc(13),
            gamma: sc(17),
            delta: sc(19),
            deltap: sc(23),
            u: (0..ic_len).map(|i| sc(29 + 7 * i as u64)).collect(),
        }
    }

    fn key(&self) -> VerifyingKey {
        VerifyingKey {
            alpha_g1: g1(self.alpha),
            beta_g2: g2(self.beta),
            gamma_g2: g2(self.gamma),
            delta_g2: g2(self.delta),
            deltap_g2: g2(self.deltap),
            ic: self.u.iter().map(|x| g1(*x)).collect(),
        }
    }

    // Builds a proof that satisfies the verification equation by construction,
    // using the discrete logarithms of the key's elements.
    fn prove(&self, inputs: &[Scalar], n_coins: usize) -> Proof {
        let c = sc(31);
        let dd = sc(37);
        let d = g1(dd);
        let mut statement = vec![Scalar::one()];
        statement.extend_from_slice(inputs);
        let coins: Vec<Scalar> = (0..n_coins).map(|i| toy_coin(&statement, &d, i)).collect();
        let mut l = self.u[0];
        for (x, u) in inputs.iter().chain(coins.iter()).zip(self.u.iter().skip(1)) {
            l += *x * *u;
        }
        let a = self.alpha * self.beta + l * self.gamma + c * self.delta + dd * self.deltap;
        Proof {
            a: g1(a),
            b: G2Affine::generator(),
            c: g1(c),
            d,
            coins,
        }
    }
}

fn copy_proof(p: &Proof) -> Proof {
    Proof {
        a: p.a,
        b: p.b,
        c: p.c,
        d: p.d,
        coins: p.coins.clone(),
    }
}

fn fixture(n_inputs: usize, n_coins: usize) -> (PreparedVerifyingKey, Proof, Vec<Scalar>) {
    let setup = Setup::new(1 + n_inputs + n_coins);
    let inputs: Vec<Scalar> = (0..n_inputs).map(|i| sc(100 + i as u64)).collect();
    let proof = setup.prove(&inputs, n_coins);
    (prepare_verifying_key(&setup.key()), proof, inputs)
}

#[test]
fn honest_proof_verifies() {
    let (pvk, proof, inputs) = fixture(2, 2);
    assert_eq!(verify_proof(&pvk, &proof, &inputs, toy_coin), Ok(()));
}

#[test]
fn honest_proof_without_inputs_or_coins_verifies() {
    let (pvk, proof, inputs) = fixture(0, 0);
    assert_eq!(verify_proof(&pvk, &proof, &inputs, toy_coin), Ok(()));
}

#[test]
fn honest_proof_with_coins_only_verifies() {
    let (pvk, proof, inputs) = fixture(0, 3);
    assert_eq!(verify_proof(&pvk, &proof, &inputs, toy_coin), Ok(()));
}

#[test]
fn verify_with_recomputed_coins_verifies() {
    let (pvk, proof, inputs) = fixture(1, 2);
    let mut statement = vec![Scalar::one()];
    statement.extend_from_slice(&inputs);
    let expected: Vec<Scalar> = (0..2).map(|i| toy_coin(&statement, &proof.d, i)).collect();
    assert_eq!(verify_with_coins(&pvk, &proof, &inputs, &expected), Ok(()));
}

#[test]
fn verify_with_wrong_recomputed_coins_fails() {
    let (pvk, proof, inputs) = fixture(1, 2);
    let expected = vec![proof.coins[0], proof.coins[1] + Scalar::one()];
    assert_eq!(
        verify_with_coins(&pvk, &proof, &inputs, &expected),
        Err(VerificationError::InvalidProof)
    );
    assert_eq!(
        verify_with_coins(&pvk, &proof, &inputs, &expected[..1]),
        Err(VerificationError::InvalidProof)
    );
}

#[test]
fn replaced_a_fails() {
    let (pvk, proof, inputs) = fixture(2, 1);
    let mut bad = copy_proof(&proof);
    bad.a = g1(sc(987654321));
    assert_eq!(verify_proof(&pvk, &bad, &inputs, toy_coin), Err(VerificationError::InvalidProof));
}

#[test]
fn replaced_b_fails() {
    let (pvk, proof, inputs) = fixture(2, 1);
    let mut bad = copy_proof(&proof);
    bad.b = g2(sc(55555));
    assert_eq!(verify_proof(&pvk, &bad, &inputs, toy_coin), Err(VerificationError::InvalidProof));
}

#[test]
fn replaced_c_fails() {
    let (pvk, proof, inputs) = fixture(2, 1);
    let mut bad = copy_proof(&proof);
    bad.c = g1(sc(424242));
    assert_eq!(verify_proof(&pvk, &bad, &inputs, toy_coin), Err(VerificationError::InvalidProof));
}

#[test]
fn replaced_d_fails() {
    let (pvk, proof, inputs) = fixture(2, 1);
    let mut bad = copy_proof(&proof);
    bad.d = g1(sc(777));
    assert_eq!(verify_proof(&pvk, &bad, &inputs, toy_coin), Err(VerificationError::InvalidProof));
}

#[test]
fn replaced_d_without_coins_fails() {
    let (pvk, proof, inputs) = fixture(2, 0);
    let mut bad = copy_proof(&proof);
    bad.d = g1(sc(777));
    assert_eq!(verify_proof(&pvk, &bad, &inputs, toy_coin), Err(VerificationError::InvalidProof));
}

#[test]
fn changed_public_input_fails() {
    let (pvk, proof, mut inputs) = fixture(2, 0);
    inputs[1] += Scalar::one();
    assert_eq!(verify_proof(&pvk, &proof, &inputs, toy_coin), Err(VerificationError::InvalidProof));
}

#[test]
fn shape_mismatch_is_invalid_key() {
    for ic_len in 0..4usize {
        for n_inputs in 0..4usize {
            for n_coins in 0..3usize {
                if n_inputs + n_coins + 1 == ic_len {
                    continue;
                }
                let setup = Setup::new(ic_len);
                let pvk = prepare_verifying_key(&setup.key());
                let inputs: Vec<Scalar> = (0..n_inputs).map(|i| sc(i as u64)).collect();
                let proof = Proof {
                    a: g1(sc(1)),
                    b: g2(sc(1)),
                    c: g1(sc(1)),
                    d: g1(sc(1)),
                    coins: (0..n_coins).map(|i| sc(i as u64)).collect(),
                };
                let never = |_: &[Scalar], _: &G1Affine, _: usize| -> Scalar {
                    panic!("coins are derived only after the shape check")
                };
                assert_eq!(
                    verify_proof(&pvk, &proof, &inputs, never),
                    Err(VerificationError::InvalidVerifyingKey)
                );
                assert_eq!(
                    verify_with_coins(&pvk, &proof, &inputs, &[]),
                    Err(VerificationError::InvalidVerifyingKey)
                );
            }
        }
    }
}

#[test]
fn mutated_coin_fails() {
    let (pvk, proof, inputs) = fixture(1, 3);
    for j in 0..3 {
        let mut bad = copy_proof(&proof);
        bad.coins[j] += Scalar::one();
        assert_eq!(
            verify_proof(&pvk, &bad, &inputs, toy_coin),
            Err(VerificationError::InvalidProof)
        );
    }
}

#[test]
fn preparing_twice_gives_same_outcomes() {
    let setup = Setup::new(3);
    let vk = setup.key();
    let inputs = vec![sc(5), sc(6)];
    let proof = setup.prove(&inputs, 0);
    let pvk1 = prepare_verifying_key(&vk);
    let pvk2 = prepare_verifying_key(&vk);
    assert_eq!(pvk1.alpha_g1_beta_g2, pvk2.alpha_g1_beta_g2);
    assert_eq!(pvk1.ic, pvk2.ic);
    let mut bad = copy_proof(&proof);
    bad.c = g1(sc(3));
    for p in [&proof, &bad] {
        assert_eq!(
            verify_proof(&pvk1, p, &inputs, toy_coin),
            verify_proof(&pvk2, p, &inputs, toy_coin)
        );
    }
}

#[test]
fn repeated_verification_is_stable() {
    let (pvk, proof, inputs) = fixture(2, 1);
    let mut bad = copy_proof(&proof);
    bad.a = g1(sc(8));
    for _ in 0..3 {
        assert_eq!(verify_proof(&pvk, &proof, &inputs, toy_coin), Ok(()));
        assert_eq!(
            verify_proof(&pvk, &bad, &inputs, toy_coin),
            Err(VerificationError::InvalidProof)
        );
    }
}

#[test]
fn prepared_key_holds_pairing_and_ic() {
    let setup = Setup::new(2);
    let vk = setup.key();
    let pvk = prepare_verifying_key(&vk);
    let expected: Gt = bls12_381::pairing(&vk.alpha_g1, &vk.beta_g2);
    assert_eq!(pvk.alpha_g1_beta_g2, expected);
    assert_ne!(pvk.alpha_g1_beta_g2, Gt::identity());
    assert_eq!(pvk.ic, vk.ic);
}

#[test]
fn minimal_key_scenario() {
    // ic of length 3: the constant term, one public input and one coin.
    let setup = Setup::new(3);
    let pvk = prepare_verifying_key(&setup.key());
    let inputs = vec![sc(42)];
    let proof = setup.prove(&inputs, 1);
    assert_eq!(verify_proof(&pvk, &proof, &inputs, toy_coin), Ok(()));

    // One public input with two coins, or two inputs with one coin, do not fit.
    let mut extra_coin = copy_proof(&proof);
    extra_coin.coins.push(sc(1));
    assert_eq!(
        verify_proof(&pvk, &extra_coin, &inputs, toy_coin),
        Err(VerificationError::InvalidVerifyingKey)
    );
    assert_eq!(
        verify_proof(&pvk, &proof, &[sc(42), sc(43)], toy_coin),
        Err(VerificationError::InvalidVerifyingKey)
    );

    // Flipping the sign bit of the compressed encoding of `a` yields `-a`.
    let mut bytes = proof.a.to_compressed();
    bytes[0] ^= 0x20;
    let flipped = G1Affine::from_compressed(&bytes).unwrap();
    let mut bad = copy_proof(&proof);
    bad.a = flipped;
    assert_eq!(verify_proof(&pvk, &bad, &inputs, toy_coin), Err(VerificationError::InvalidProof));
}

#[test]
fn empty_key_is_invalid() {
    let mut vk = Setup::new(1).key();
    vk.ic.clear();
    let pvk = prepare_verifying_key(&vk);
    let proof = Setup::new(1).prove(&[], 0);
    assert_eq!(
        verify_proof(&pvk, &proof, &[], toy_coin),
        Err(VerificationError::InvalidVerifyingKey)
    );
}

// (0, 0) without the identity flag: not a point of the curve.
fn off_curve_g2() -> G2Affine {
    G2Affine::from_uncompressed_unchecked(&[0u8; 192]).unwrap()
}

fn off_curve_g1() -> G1Affine {
    G1Affine::from_uncompressed_unchecked(&[0u8; 96]).unwrap()
}

#[test]
fn off_curve_b_is_invalid_proof() {
    let (pvk, proof, inputs) = fixture(1, 1);
    let mut bad = copy_proof(&proof);
    bad.b = off_curve_g2();
    assert_eq!(verify_proof(&pvk, &bad, &inputs, toy_coin), Err(VerificationError::InvalidProof));
}

#[test]
fn off_curve_g1_points_are_invalid_proof() {
    let (pvk, proof, inputs) = fixture(1, 0);
    for which in 0..3 {
        let mut bad = copy_proof(&proof);
        match which {
            0 => bad.a = off_curve_g1(),
            1 => bad.c = off_curve_g1(),
            _ => bad.d = off_curve_g1(),
        }
        assert_eq!(
            verify_proof(&pvk, &bad, &inputs, toy_coin),
            Err(VerificationError::InvalidProof)
        );
    }
}

#[test]
fn key_validity_is_reported() {
    let vk = Setup::new(2).key();
    assert!(verifying_key_is_valid(&vk));
    let mut bad = Setup::new(2).key();
    bad.beta_g2 = off_curve_g2();
    assert!(!verifying_key_is_valid(&bad));
    let mut bad = Setup::new(2).key();
    bad.alpha_g1 = off_curve_g1();
    assert!(!verifying_key_is_valid(&bad));
    let mut bad = Setup::new(2).key();
    bad.deltap_g2 = off_curve_g2();
    assert!(!verifying_key_is_valid(&bad));
}
