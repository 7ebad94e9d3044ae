//! The BLS12-381 operations that proof verification relies on.
//!
//! Curve points, field elements and target-group values are carried through
//! as opaque values of the `bls12_381` crate. Each operation is given a name
//! for its result, so that the verifier's contracts can say exactly which
//! combination of operations decides a proof.

use vstd::prelude::*;

use bls12_381::{G1Affine, G1Projective, G2Affine, G2Prepared, Gt, MillerLoopResult, Scalar};

verus! {

#[verifier::external_type_specification]
#[verifier::external_body]
pub struct ExScalar(bls12_381::Scalar);

#[verifier::external_type_specification]
#[verifier::external_body]
pub struct ExG1Affine(bls12_381::G1Affine);

#[verifier::external_type_specification]
#[verifier::external_body]
pub struct ExG1Projective(bls12_381::G1Projective);

#[verifier::external_type_specification]
#[verifier::external_body]
pub struct ExG2Affine(bls12_381::G2Affine);

#[verifier::external_type_specification]
#[verifier::external_body]
pub struct ExG2Prepared(bls12_381::G2Prepared);

#[verifier::external_type_specification]
#[verifier::external_body]
pub struct ExGt(bls12_381::Gt);

#[verifier::external_type_specification]
#[verifier::external_body]
pub struct ExMillerLoopResult(bls12_381::MillerLoopResult);

/// Whether `G1Affine::is_on_curve` holds of `p`.
pub uninterp spec fn g1_on_curve(p: G1Affine) -> bool;

/// Whether `G1Affine::is_torsion_free` holds of `p`.
pub uninterp spec fn g1_torsion_free(p: G1Affine) -> bool;

/// Whether `G2Affine::is_on_curve` holds of `q`.
pub uninterp spec fn g2_on_curve(q: G2Affine) -> bool;

/// Whether `G2Affine::is_torsion_free` holds of `q`.
pub uninterp spec fn g2_torsion_free(q: G2Affine) -> bool;

/// `q` was precomputed from a point of the prime-order subgroup of G2.
pub uninterp spec fn g2_prepared_sound(q: G2Prepared) -> bool;

/// The value held by `m` is nonzero, as `final_exponentiation` needs it to be.
pub uninterp spec fn miller_nonzero(m: MillerLoopResult) -> bool;

/// A point of the prime-order subgroup of G1.
pub open spec fn g1_valid(p: G1Affine) -> bool {
    g1_on_curve(p) && g1_torsion_free(p)
}

/// A point of the prime-order subgroup of G2.
pub open spec fn g2_valid(q: G2Affine) -> bool {
    g2_on_curve(q) && g2_torsion_free(q)
}

/// The field element that `Scalar::from(v)` gives.
pub uninterp spec fn scalar_from_u64(v: u64) -> Scalar;

/// The bilinear pairing `e(p, q)`.
pub uninterp spec fn pairing_of(p: G1Affine, q: G2Affine) -> Gt;

/// The group inverse `-q` of a point of G2.
pub uninterp spec fn g2_neg(q: G2Affine) -> G2Affine;

/// The line coefficients precomputed from a point of G2.
pub uninterp spec fn g2_prepared(q: G2Affine) -> G2Prepared;

/// A point of G1 in projective coordinates.
pub uninterp spec fn g1_projective(p: G1Affine) -> G1Projective;

/// The scalar multiple `p * s` of a point of G1.
pub uninterp spec fn g1_mul(p: G1Affine, s: Scalar) -> G1Projective;

/// The group sum `a + b` in G1.
pub uninterp spec fn g1_add(a: G1Projective, b: G1Projective) -> G1Projective;

/// A point of G1 in affine coordinates.
pub uninterp spec fn g1_affine(p: G1Projective) -> G1Affine;

/// The product of Miller loops over the given pairs.
pub uninterp spec fn miller_loop_of(terms: Seq<(G1Affine, G2Prepared)>) -> MillerLoopResult;

/// The final exponentiation of a Miller loop result.
pub uninterp spec fn final_exponentiation_of(m: MillerLoopResult) -> Gt;

/// Relies on `G1Affine::is_on_curve`.
#[verifier::external_body]
pub(crate) fn g1_is_on_curve(p: &G1Affine) -> (r: bool)
    ensures
        r == g1_on_curve(*p),
{
    bool::from(p.is_on_curve())
}

/// Relies on `G1Affine::is_torsion_free`.
#[verifier::external_body]
pub(crate) fn g1_is_torsion_free(p: &G1Affine) -> (r: bool)
    ensures
        r == g1_torsion_free(*p),
{
    bool::from(p.is_torsion_free())
}

/// Relies on `G2Affine::is_on_curve`.
#[verifier::external_body]
pub(crate) fn g2_is_on_curve(q: &G2Affine) -> (r: bool)
    ensures
        r == g2_on_curve(*q),
{
    bool::from(q.is_on_curve())
}

/// Relies on `G2Affine::is_torsion_free`.
#[verifier::external_body]
pub(crate) fn g2_is_torsion_free(q: &G2Affine) -> (r: bool)
    ensures
        r == g2_torsion_free(*q),
{
    bool::from(q.is_torsion_free())
}

/// Relies on `<Scalar as From<u64>>::from`.
#[verifier::external_body]
pub(crate) fn scalar_from(v: u64) -> (r: Scalar)
    ensures
        r == scalar_from_u64(v),
{
    Scalar::from(v)
}

/// Relies on `<Scalar as PartialEq>::eq`: a scalar is stored as four fully
/// reduced limbs, and `eq` compares them all, so it holds exactly when the
/// two values are the same field element.
#[verifier::external_body]
pub(crate) fn scalar_eq(a: &Scalar, b: &Scalar) -> (r: bool)
    ensures
        r == (*a == *b),
{
    *a == *b
}

/// Relies on `<Gt as PartialEq>::eq`: an element of the target group is stored
/// as fully reduced base-field coefficients, and `eq` compares them all, so it
/// holds exactly when the two values are the same group element.
#[verifier::external_body]
pub(crate) fn gt_eq(a: &Gt, b: &Gt) -> (r: bool)
    ensures
        r == (*a == *b),
{
    *a == *b
}

/// Relies on `pairing::Engine::pairing` for `Bls12`, which evaluates
/// `bls12_381::pairing`. Its final exponentiation inverts the Miller loop
/// value, which is nonzero only for points of the two prime-order subgroups.
#[verifier::external_body]
pub(crate) fn pairing(p: &G1Affine, q: &G2Affine) -> (r: Gt)
    requires
        g1_valid(*p),
        g2_valid(*q),
    ensures
        r == pairing_of(*p, *q),
{
    <bls12_381::Bls12 as pairing::Engine>::pairing(p, q)
}

/// Relies on `<G2Affine as Neg>::neg`: it negates `y` and keeps `x` and the
/// identity flag, so the inverse of a subgroup point is one too.
#[verifier::external_body]
pub(crate) fn neg_g2(q: &G2Affine) -> (r: G2Affine)
    ensures
        r == g2_neg(*q),
        g2_valid(*q) ==> g2_valid(r),
{
    -*q
}

/// Relies on `<G2Prepared as From<G2Affine>>::from`.
#[verifier::external_body]
pub(crate) fn prepare_g2(q: &G2Affine) -> (r: G2Prepared)
    ensures
        r == g2_prepared(*q),
        g2_valid(*q) ==> g2_prepared_sound(r),
{
    G2Prepared::from(*q)
}

/// Relies on `group::prime::PrimeCurveAffine::to_curve` for `G1Affine`.
#[verifier::external_body]
pub(crate) fn to_projective(p: &G1Affine) -> (r: G1Projective)
    ensures
        r == g1_projective(*p),
{
    group::prime::PrimeCurveAffine::to_curve(p)
}

/// Relies on `<&G1Affine as Mul<&Scalar>>::mul`.
#[verifier::external_body]
pub(crate) fn mul_g1(p: &G1Affine, s: &Scalar) -> (r: G1Projective)
    ensures
        r == g1_mul(*p, *s),
{
    p * s
}

/// Relies on `<G1Projective as AddAssign<&G1Projective>>::add_assign`.
#[verifier::external_body]
pub(crate) fn add_assign_g1(a: &mut G1Projective, b: &G1Projective)
    ensures
        *final(a) == g1_add(*old(a), *b),
{
    *a += b;
}

/// Relies on `group::Curve::to_affine` for `G1Projective`.
#[verifier::external_body]
pub(crate) fn to_affine(p: &G1Projective) -> (r: G1Affine)
    ensures
        r == g1_affine(*p),
{
    group::Curve::to_affine(p)
}

/// Relies on `pairing::MultiMillerLoop::multi_miller_loop` for `Bls12`, here
/// over four pairs. For subgroup points the value is nonzero: the crate keeps
/// that invariant for every `MillerLoopResult` it builds from checked points.
#[verifier::external_body]
pub(crate) fn multi_miller_loop4(
    p0: &G1Affine,
    q0: &G2Prepared,
    p1: &G1Affine,
    q1: &G2Prepared,
    p2: &G1Affine,
    q2: &G2Prepared,
    p3: &G1Affine,
    q3: &G2Prepared,
) -> (r: MillerLoopResult)
    ensures
        r == miller_loop_of(seq![(*p0, *q0), (*p1, *q1), (*p2, *q2), (*p3, *q3)]),
        g1_valid(*p0) && g1_valid(*p1) && g1_valid(*p2) && g1_valid(*p3) && g2_prepared_sound(
            *q0,
        ) && g2_prepared_sound(*q1) && g2_prepared_sound(*q2) && g2_prepared_sound(*q3)
            ==> miller_nonzero(r),
{
    <bls12_381::Bls12 as pairing::MultiMillerLoop>::multi_miller_loop(&[
        (p0, q0),
        (p1, q1),
        (p2, q2),
        (p3, q3),
    ])
}

/// Relies on `pairing::MillerLoopResult::final_exponentiation`, which inverts
/// the value and unwraps the inverse, so the value must be nonzero.
#[verifier::external_body]
pub(crate) fn final_exponentiation(m: &MillerLoopResult) -> (r: Gt)
    requires
        miller_nonzero(*m),
    ensures
        r == final_exponentiation_of(*m),
{
    pairing::MillerLoopResult::final_exponentiation(m)
}

} // verus!
