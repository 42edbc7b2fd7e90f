//! Trusted boundary to the BLS12-381 arithmetic of the `bls12_381` crate.
//!
//! The verifier never computes on curve points or field elements itself: every
//! group, field and pairing operation is an outside call made through one of
//! the wrappers below. Each deterministic operation gets an uninterpreted name
//! for its result, and the wrapper's contract ties the call to that name, so
//! the verified code above can state exactly which combination of outside
//! operations produced each of its results.

use vstd::prelude::*;

verus! {

// ---------------------------------------------------------------------------
// Outside types.
// ---------------------------------------------------------------------------

/// Element of the scalar field Fr of BLS12-381.
#[verifier::external_type_specification]
#[verifier::external_body]
pub struct ExScalar(bls12_381::Scalar);

/// Affine point of the group G1.
#[verifier::external_type_specification]
#[verifier::external_body]
pub struct ExG1Affine(bls12_381::G1Affine);

/// Projective (addition-friendly) point of the group G1.
#[verifier::external_type_specification]
#[verifier::external_body]
pub struct ExG1Projective(bls12_381::G1Projective);

/// Affine point of the group G2.
#[verifier::external_type_specification]
#[verifier::external_body]
pub struct ExG2Affine(bls12_381::G2Affine);

/// G2 point preprocessed for repeated use in Miller loops.
#[verifier::external_type_specification]
#[verifier::external_body]
pub struct ExG2Prepared(bls12_381::G2Prepared);

/// Element of the pairing target group.
#[verifier::external_type_specification]
#[verifier::external_body]
pub struct ExGt(bls12_381::Gt);

/// Pairing value before the final exponentiation.
#[verifier::external_type_specification]
#[verifier::external_body]
pub struct ExMillerLoopResult(bls12_381::MillerLoopResult);

/// The standard random number generator of the `rand` crate; the batch
/// verifier draws its random combination coefficients from it.
#[verifier::external_type_specification]
#[verifier::external_body]
pub struct ExStdRng(rand::rngs::StdRng);

// ---------------------------------------------------------------------------
// Names for the results of the deterministic outside operations.
// ---------------------------------------------------------------------------

/// The scalar with little-endian 64-bit limbs `[lo, hi, 0, 0]`.
pub uninterp spec fn scalar_from_parts_of(lo: u64, hi: u64) -> bls12_381::Scalar;

/// The scalar equal to the integer `x`.
pub uninterp spec fn scalar_from_u64_of(x: u64) -> bls12_381::Scalar;

/// The sum of two scalars in Fr.
pub uninterp spec fn scalar_add_of(a: bls12_381::Scalar, b: bls12_381::Scalar) -> bls12_381::Scalar;

/// The product of two scalars in Fr.
pub uninterp spec fn scalar_mul_of(a: bls12_381::Scalar, b: bls12_381::Scalar) -> bls12_381::Scalar;

/// The additive inverse of a scalar in Fr.
pub uninterp spec fn scalar_neg_of(a: bls12_381::Scalar) -> bls12_381::Scalar;

/// The canonical 32-byte little-endian representation of a scalar.
pub uninterp spec fn scalar_repr_of(s: bls12_381::Scalar) -> Seq<u8>;

/// The projective form of an affine G1 point.
pub uninterp spec fn g1_from_affine_of(p: bls12_381::G1Affine) -> bls12_381::G1Projective;

/// The sum of two projective G1 points.
pub uninterp spec fn g1_add_of(
    a: bls12_381::G1Projective,
    b: bls12_381::G1Projective,
) -> bls12_381::G1Projective;

/// The sum of a projective and an affine G1 point (mixed addition).
pub uninterp spec fn g1_add_mixed_of(
    a: bls12_381::G1Projective,
    p: bls12_381::G1Affine,
) -> bls12_381::G1Projective;

/// The double of a projective G1 point.
pub uninterp spec fn g1_double_of(p: bls12_381::G1Projective) -> bls12_381::G1Projective;

/// The scalar multiple `s * p` of an affine G1 point.
pub uninterp spec fn g1_mul_scalar_of(
    p: bls12_381::G1Affine,
    s: bls12_381::Scalar,
) -> bls12_381::G1Projective;

/// The affine form of a projective G1 point.
pub uninterp spec fn g1_to_affine_of(p: bls12_381::G1Projective) -> bls12_381::G1Affine;

/// The identity element of G1 in projective form. `G1Projective::identity`
/// takes no argument and always returns the same value; the parameter only
/// gives the name an argument to stand on and is applied at `0` alone.
pub uninterp spec fn g1_identity_of(u: u64) -> bls12_381::G1Projective;

/// The negation of an affine G2 point.
pub uninterp spec fn g2_neg_of(p: bls12_381::G2Affine) -> bls12_381::G2Affine;

/// The Miller-loop precomputation of an affine G2 point.
pub uninterp spec fn g2_prepare_of(p: bls12_381::G2Affine) -> bls12_381::G2Prepared;

/// The pairing of a G1 and a G2 point (Miller loop and final exponentiation).
pub uninterp spec fn pairing_of(p: bls12_381::G1Affine, q: bls12_381::G2Affine) -> bls12_381::Gt;

/// The scalar multiple (exponentiation) of a pairing-target element.
pub uninterp spec fn gt_mul_scalar_of(g: bls12_381::Gt, s: bls12_381::Scalar) -> bls12_381::Gt;

/// Whether two pairing-target elements are equal.
pub uninterp spec fn gt_eq_of(a: bls12_381::Gt, b: bls12_381::Gt) -> bool;

/// The combined Miller loop over a sequence of (G1, prepared G2) pairs.
pub uninterp spec fn miller_loop_of(
    terms: Seq<(bls12_381::G1Affine, bls12_381::G2Prepared)>,
) -> bls12_381::MillerLoopResult;

/// The final exponentiation of a Miller-loop result.
pub uninterp spec fn final_exp_of(m: bls12_381::MillerLoopResult) -> bls12_381::Gt;

// ---------------------------------------------------------------------------
// Wrappers.
// ---------------------------------------------------------------------------

/// Relies on `Scalar::from_raw`: the field element with the given
/// little-endian 64-bit limbs, here an integer of at most 128 bits.
#[verifier::external_body]
pub(crate) fn scalar_from_parts(lo: u64, hi: u64) -> (r: bls12_381::Scalar)
    ensures
        r == scalar_from_parts_of(lo, hi),
{
    bls12_381::Scalar::from_raw([lo, hi, 0, 0])
}

/// Relies on `<Scalar as From<u64>>::from`: the field element equal to `x`.
#[verifier::external_body]
pub(crate) fn scalar_from_u64(x: u64) -> (r: bls12_381::Scalar)
    ensures
        r == scalar_from_u64_of(x),
{
    bls12_381::Scalar::from(x)
}

/// Relies on `<&Scalar as Add<&Scalar>>::add`: field addition in Fr.
#[verifier::external_body]
pub(crate) fn scalar_add(a: &bls12_381::Scalar, b: &bls12_381::Scalar) -> (r: bls12_381::Scalar)
    ensures
        r == scalar_add_of(*a, *b),
{
    a + b
}

/// Relies on `<&Scalar as Mul<&Scalar>>::mul`: field multiplication in Fr.
#[verifier::external_body]
pub(crate) fn scalar_mul(a: &bls12_381::Scalar, b: &bls12_381::Scalar) -> (r: bls12_381::Scalar)
    ensures
        r == scalar_mul_of(*a, *b),
{
    a * b
}

/// Relies on `<&Scalar as Neg>::neg`: field negation in Fr.
#[verifier::external_body]
pub(crate) fn scalar_neg(a: &bls12_381::Scalar) -> (r: bls12_381::Scalar)
    ensures
        r == scalar_neg_of(*a),
{
    -a
}

/// Relies on `<Scalar as PrimeField>::to_repr`: the canonical 32-byte
/// little-endian representation of the scalar.
#[verifier::external_body]
pub(crate) fn scalar_repr(s: &bls12_381::Scalar) -> (r: [u8; 32])
    ensures
        r@ == scalar_repr_of(*s),
{
    ff::PrimeField::to_repr(s)
}

/// Relies on `<G1Projective as From<G1Affine>>::from`: affine to projective.
#[verifier::external_body]
pub(crate) fn g1_from_affine(p: &bls12_381::G1Affine) -> (r: bls12_381::G1Projective)
    ensures
        r == g1_from_affine_of(*p),
{
    bls12_381::G1Projective::from(*p)
}

/// Relies on `<&G1Projective as Add<&G1Projective>>::add`: group addition.
#[verifier::external_body]
pub(crate) fn g1_add(
    a: &bls12_381::G1Projective,
    b: &bls12_381::G1Projective,
) -> (r: bls12_381::G1Projective)
    ensures
        r == g1_add_of(*a, *b),
{
    a + b
}

/// Relies on `<&G1Projective as Add<&G1Affine>>::add`: mixed group addition.
#[verifier::external_body]
pub(crate) fn g1_add_mixed(
    a: &bls12_381::G1Projective,
    p: &bls12_381::G1Affine,
) -> (r: bls12_381::G1Projective)
    ensures
        r == g1_add_mixed_of(*a, *p),
{
    a + p
}

/// Relies on `G1Projective::double`: group doubling.
#[verifier::external_body]
pub(crate) fn g1_double(p: &bls12_381::G1Projective) -> (r: bls12_381::G1Projective)
    ensures
        r == g1_double_of(*p),
{
    p.double()
}

/// Relies on `<&G1Affine as Mul<&Scalar>>::mul`: scalar multiplication.
#[verifier::external_body]
pub(crate) fn g1_mul_scalar(
    p: &bls12_381::G1Affine,
    s: &bls12_381::Scalar,
) -> (r: bls12_381::G1Projective)
    ensures
        r == g1_mul_scalar_of(*p, *s),
{
    p * s
}

/// Relies on `<G1Projective as Curve>::to_affine`: projective to affine.
#[verifier::external_body]
pub(crate) fn g1_to_affine(p: &bls12_381::G1Projective) -> (r: bls12_381::G1Affine)
    ensures
        r == g1_to_affine_of(*p),
{
    group::Curve::to_affine(p)
}

/// Relies on `G1Projective::identity`: the identity element of G1.
#[verifier::external_body]
pub(crate) fn g1_identity() -> (r: bls12_381::G1Projective)
    ensures
        r == g1_identity_of(0),
{
    bls12_381::G1Projective::identity()
}

/// Relies on `<&G2Affine as Neg>::neg`: group negation in G2.
#[verifier::external_body]
pub(crate) fn g2_neg(p: &bls12_381::G2Affine) -> (r: bls12_381::G2Affine)
    ensures
        r == g2_neg_of(*p),
{
    -p
}

/// Relies on `<G2Prepared as From<G2Affine>>::from`: the Miller-loop
/// precomputation of a G2 point.
#[verifier::external_body]
pub(crate) fn g2_prepare(p: &bls12_381::G2Affine) -> (r: bls12_381::G2Prepared)
    ensures
        r == g2_prepare_of(*p),
{
    bls12_381::G2Prepared::from(*p)
}

/// Relies on `bls12_381::pairing`: the full pairing of two points.
#[verifier::external_body]
pub(crate) fn pairing(p: &bls12_381::G1Affine, q: &bls12_381::G2Affine) -> (r: bls12_381::Gt)
    ensures
        r == pairing_of(*p, *q),
{
    bls12_381::pairing(p, q)
}

/// Relies on `<&Gt as Mul<&Scalar>>::mul`: exponentiation in the pairing
/// target group.
#[verifier::external_body]
pub(crate) fn gt_mul_scalar(g: &bls12_381::Gt, s: &bls12_381::Scalar) -> (r: bls12_381::Gt)
    ensures
        r == gt_mul_scalar_of(*g, *s),
{
    g * s
}

/// Relies on `<Gt as PartialEq>::eq`: equality of pairing-target elements.
#[verifier::external_body]
pub(crate) fn gt_eq(a: &bls12_381::Gt, b: &bls12_381::Gt) -> (r: bool)
    ensures
        r == gt_eq_of(*a, *b),
{
    a == b
}

/// Relies on `bls12_381::multi_miller_loop`: the combined Miller loop over
/// all given pairs, ready for one shared final exponentiation.
#[verifier::external_body]
pub(crate) fn miller_loop(
    terms: &Vec<(bls12_381::G1Affine, bls12_381::G2Prepared)>,
) -> (r: bls12_381::MillerLoopResult)
    ensures
        r == miller_loop_of(terms@),
{
    let refs: Vec<(&bls12_381::G1Affine, &bls12_381::G2Prepared)> =
        terms.iter().map(|t| (&t.0, &t.1)).collect();
    bls12_381::multi_miller_loop(&refs)
}

/// Relies on `MillerLoopResult::final_exponentiation`: the closing step of
/// the pairing computation.
#[verifier::external_body]
pub(crate) fn final_exponentiation(m: &bls12_381::MillerLoopResult) -> (r: bls12_381::Gt)
    ensures
        r == final_exp_of(*m),
{
    m.final_exponentiation()
}

/// Relies on `<StdRng as RngCore>::next_u64`. The result is random, so
/// nothing is promised of it.
#[verifier::external_body]
pub(crate) fn rng_next_u64(rng: &mut rand::rngs::StdRng) -> u64 {
    rand::RngCore::next_u64(rng)
}

/// Relies on `<G2Prepared as Clone>::clone`, which `derive` wrote: the clone
/// equals the value it was made from.
pub assume_specification[ <bls12_381::G2Prepared as Clone>::clone ](
    v: &bls12_381::G2Prepared,
) -> (r: bls12_381::G2Prepared)
    ensures
        r == *v,
;

} // verus!
