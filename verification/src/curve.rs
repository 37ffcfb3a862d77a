//! Trusted boundary to the BLS12-381 curve arithmetic.
//!
//! The curve library's types are opaque here. Each is related to the model
//! of `crate::field` by an uninterpreted valuation: a scalar is read as its
//! canonical integer representative, and a group element as its discrete
//! logarithm with respect to the standard generator of its group (for the
//! target group, with respect to the pairing of the two standard
//! generators). All three groups are cyclic of the prime order `fq()`, so
//! these logarithms exist and are unique in `[0, fq())`; addition of group
//! elements adds them, scalar multiplication multiplies them, and the
//! bilinear pairing multiplies the logarithms of its two inputs.

use vstd::prelude::*;
use crate::field::fq;
use crate::field::fadd;
use crate::field::fsub;
use crate::field::fmul;
use ff::Field;
use group::Group;

verus! {

#[verifier::external_type_specification]
#[verifier::external_body]
pub struct ExScalar(bls12_381::Scalar);

#[verifier::external_type_specification]
#[verifier::external_body]
pub struct ExG1Projective(bls12_381::G1Projective);

#[verifier::external_type_specification]
#[verifier::external_body]
pub struct ExG2Projective(bls12_381::G2Projective);

#[verifier::external_type_specification]
#[verifier::external_body]
pub struct ExGt(bls12_381::Gt);

/// The canonical integer representative, in `[0, fq())`, of a scalar.
pub uninterp spec fn fr_val(s: bls12_381::Scalar) -> int;

/// The discrete logarithm of a point of the first group with respect to
/// the standard generator, in `[0, fq())`.
pub uninterp spec fn g1_val(p: bls12_381::G1Projective) -> int;

/// The discrete logarithm of a point of the second group with respect to
/// the standard generator, in `[0, fq())`.
pub uninterp spec fn g2_val(p: bls12_381::G2Projective) -> int;

/// The discrete logarithm of a target-group element with respect to the
/// pairing of the two standard generators, in `[0, fq())`.
pub uninterp spec fn gt_val(t: bls12_381::Gt) -> int;

/// Relies on `Add for Scalar`: field addition mod `fq()`.
#[verifier::external_body]
pub(crate) fn fr_add(a: &bls12_381::Scalar, b: &bls12_381::Scalar) -> (r: bls12_381::Scalar)
    ensures
        fr_val(r) == fadd(fr_val(*a), fr_val(*b)),
{
    a + b
}

/// Relies on `Mul for Scalar`: field multiplication mod `fq()`.
#[verifier::external_body]
pub(crate) fn fr_mul(a: &bls12_381::Scalar, b: &bls12_381::Scalar) -> (r: bls12_381::Scalar)
    ensures
        fr_val(r) == fmul(fr_val(*a), fr_val(*b)),
{
    a * b
}

/// Relies on `Neg for Scalar`: field negation mod `fq()`.
#[verifier::external_body]
pub(crate) fn fr_neg(a: &bls12_381::Scalar) -> (r: bls12_381::Scalar)
    ensures
        fr_val(r) == crate::field::fneg(fr_val(*a)),
{
    -a
}

/// Relies on `Scalar::invert`: the result is absent exactly for the zero
/// scalar, and otherwise multiplies with the input to one.
#[verifier::external_body]
pub(crate) fn fr_invert(a: &bls12_381::Scalar) -> (r: Option<bls12_381::Scalar>)
    ensures
        r is None <==> fr_val(*a) == 0,
        r matches Some(b) ==> 0 <= fr_val(b) < fq() && fmul(fr_val(*a), fr_val(b)) == 1,
{
    a.invert().into()
}

/// Relies on `Field::is_zero` for scalars.
#[verifier::external_body]
pub(crate) fn fr_is_zero(a: &bls12_381::Scalar) -> (r: bool)
    ensures
        r <==> fr_val(*a) == 0,
{
    a.is_zero().into()
}

/// Relies on `Field::random` over the thread-local generator: some field
/// element; nothing is assumed of which one.
#[verifier::external_body]
pub(crate) fn fr_random() -> (r: bls12_381::Scalar)
    ensures
        0 <= fr_val(r) < fq(),
{
    bls12_381::Scalar::random(&mut rand::thread_rng())
}

/// Relies on `Add for G1Projective`: group addition, so the logarithms
/// add mod `fq()`.
#[verifier::external_body]
pub(crate) fn g1_add(a: &bls12_381::G1Projective, b: &bls12_381::G1Projective) -> (r:
    bls12_381::G1Projective)
    ensures
        g1_val(r) == fadd(g1_val(*a), g1_val(*b)),
{
    a + b
}

/// Relies on `Sub for G1Projective`: group subtraction, so the
/// logarithms subtract mod `fq()`.
#[verifier::external_body]
pub(crate) fn g1_sub(a: &bls12_381::G1Projective, b: &bls12_381::G1Projective) -> (r:
    bls12_381::G1Projective)
    ensures
        g1_val(r) == fsub(g1_val(*a), g1_val(*b)),
{
    a - b
}

/// Relies on `Mul<Scalar> for G1Projective`: the logarithm is multiplied
/// by the scalar mod `fq()`.
#[verifier::external_body]
pub(crate) fn g1_mul(p: &bls12_381::G1Projective, s: &bls12_381::Scalar) -> (r:
    bls12_381::G1Projective)
    ensures
        g1_val(r) == fmul(g1_val(*p), fr_val(*s)),
{
    p * s
}

/// Relies on `G1Projective::generator`: the standard generator, of
/// logarithm one.
#[verifier::external_body]
pub(crate) fn g1_generator() -> (r: bls12_381::G1Projective)
    ensures
        g1_val(r) == 1,
{
    bls12_381::G1Projective::generator()
}

/// Relies on `Group::random` over the thread-local generator: some point
/// of the first group; nothing is assumed of which one.
#[verifier::external_body]
pub(crate) fn g1_random() -> (r: bls12_381::G1Projective)
    ensures
        0 <= g1_val(r) < fq(),
{
    bls12_381::G1Projective::random(&mut rand::thread_rng())
}

/// Relies on `PartialEq for G1Projective`, which compares points as
/// group elements whatever their projective coordinates.
#[verifier::external_body]
pub(crate) fn g1_eq(a: &bls12_381::G1Projective, b: &bls12_381::G1Projective) -> (r: bool)
    ensures
        r <==> g1_val(*a) == g1_val(*b),
{
    a == b
}

/// Relies on `Add for G2Projective`: group addition, so the logarithms
/// add mod `fq()`.
#[verifier::external_body]
pub(crate) fn g2_add(a: &bls12_381::G2Projective, b: &bls12_381::G2Projective) -> (r:
    bls12_381::G2Projective)
    ensures
        g2_val(r) == fadd(g2_val(*a), g2_val(*b)),
{
    a + b
}

/// Relies on `Mul<Scalar> for G2Projective`: the logarithm is multiplied
/// by the scalar mod `fq()`.
#[verifier::external_body]
pub(crate) fn g2_mul(p: &bls12_381::G2Projective, s: &bls12_381::Scalar) -> (r:
    bls12_381::G2Projective)
    ensures
        g2_val(r) == fmul(g2_val(*p), fr_val(*s)),
{
    p * s
}

/// Relies on `G2Projective::generator`: the standard generator, of
/// logarithm one.
#[verifier::external_body]
pub(crate) fn g2_generator() -> (r: bls12_381::G2Projective)
    ensures
        g2_val(r) == 1,
{
    bls12_381::G2Projective::generator()
}

/// Relies on `bls12_381::pairing` and the affine conversions: by
/// bilinearity, the logarithm of the output is the product of the
/// logarithms of the inputs, mod `fq()`.
#[verifier::external_body]
pub(crate) fn pairing_points(p: &bls12_381::G1Projective, q: &bls12_381::G2Projective) -> (r:
    bls12_381::Gt)
    ensures
        gt_val(r) == fmul(g1_val(*p), g2_val(*q)),
{
    bls12_381::pairing(&bls12_381::G1Affine::from(p), &bls12_381::G2Affine::from(q))
}

/// Relies on `PartialEq for Gt`, which compares the canonical
/// target-group representations.
#[verifier::external_body]
pub(crate) fn gt_eq(a: &bls12_381::Gt, b: &bls12_381::Gt) -> (r: bool)
    ensures
        r <==> gt_val(*a) == gt_val(*b),
{
    a == b
}

} // verus!
