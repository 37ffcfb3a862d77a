//! Key generation, signing, and the diagnostic signature check.

use vstd::prelude::*;
use crate::field::fq;
use crate::field::fadd;
use crate::field::fmul;
use crate::field::lemma_field_bounds;
use crate::field::lemma_inverse_cancel;
use crate::curve::fr_val;
use crate::curve::g1_val;
use crate::curve::g2_val;
use crate::curve::fr_add;
use crate::curve::fr_invert;
use crate::curve::fr_random;
use crate::curve::g1_add;
use crate::curve::g1_mul;
use crate::curve::g1_generator;
use crate::curve::g1_random;
use crate::curve::g2_add;
use crate::curve::g2_mul;
use crate::curve::g2_generator;
use crate::curve::pairing_points;
use crate::curve::gt_eq;
use crate::types::Generators;
use crate::types::GeneratorsModel;
use crate::types::KeyPair;
use crate::types::Signature;
use crate::types::SignatureModel;
use crate::types::ProtocolError;

verus! {

/// The commitment `b = p1 + h0·s + h1·m1 + h2·m2` that a signature binds:
/// the two messages under their bases, blinded by `s`.
pub open spec fn spec_b(g: GeneratorsModel, s: int, m1: int, m2: int) -> int {
    fadd(fadd(fadd(g.p1, fmul(g.h0, s)), fmul(g.h1, m1)), fmul(g.h2, m2))
}

/// The signature equation, at the level of the pairing: a signature
/// `(a, e, s)` over `(m1, m2)` is valid under public key `w` exactly when
/// `pairing(b, p2) == pairing(a, w + e·p2)`.
pub open spec fn spec_check(
    g: GeneratorsModel,
    w: int,
    sig: SignatureModel,
    m1: int,
    m2: int,
) -> bool {
    fmul(spec_b(g, sig.s, m1, m2), g.p2) == fmul(sig.a, fadd(w, fmul(g.p2, sig.e)))
}

/// Fixes the base points for a deployment: the standard generators of the
/// two groups, and three freshly sampled message bases.
pub fn setup_generators() -> (g: Generators)
    ensures
        g@.p1 == 1,
        g@.p2 == 1,
        0 <= g@.h0 < fq(),
        0 <= g@.h1 < fq(),
        0 <= g@.h2 < fq(),
{
    Generators {
        p1: g1_generator(),
        p2: g2_generator(),
        h0: g1_random(),
        h1: g1_random(),
        h2: g1_random(),
    }
}

/// Samples a secret exponent and derives the public key `w = x·p2`.
pub fn generate_key_pair(gens: &Generators) -> (kp: KeyPair)
    ensures
        0 <= kp@.x < fq(),
        kp@.w == fmul(gens@.p2, kp@.x),
{
    let x = fr_random();
    let w = g2_mul(&gens.p2, &x);
    KeyPair { x, w }
}

/// Signs the message pair `(m1, m2)` under the secret exponent `x` with
/// the given signing scalars `e` and `s`: the signature point is
/// `a = b·(e + x)⁻¹`. Fails with `DegenerateKey` exactly when `e + x` is
/// zero, before any inversion is attempted; no partial signature exists
/// then.
pub fn sign_with_randomness(
    m1: &bls12_381::Scalar,
    m2: &bls12_381::Scalar,
    x: &bls12_381::Scalar,
    e: &bls12_381::Scalar,
    s: &bls12_381::Scalar,
    gens: &Generators,
) -> (r: Result<Signature, ProtocolError>)
    ensures
        r is Err <==> fadd(fr_val(*e), fr_val(*x)) == 0,
        r matches Err(k) ==> k == ProtocolError::DegenerateKey,
        r matches Ok(sig) ==> sig@.e == fr_val(*e) && sig@.s == fr_val(*s) && 0 <= sig@.a < fq()
            && fmul(sig@.a, fadd(sig@.e, fr_val(*x))) == spec_b(
            gens@,
            sig@.s,
            fr_val(*m1),
            fr_val(*m2),
        ),
{
    let t = fr_add(e, x);
    match fr_invert(&t) {
        None => Err(ProtocolError::DegenerateKey),
        Some(t_inv) => {
            let b = g1_add(
                &g1_add(&g1_add(&gens.p1, &g1_mul(&gens.h0, s)), &g1_mul(&gens.h1, m1)),
                &g1_mul(&gens.h2, m2),
            );
            let a = g1_mul(&b, &t_inv);
            proof {
                lemma_field_bounds(
                    fadd(fadd(gens@.p1, fmul(gens@.h0, fr_val(*s))), fmul(gens@.h1, fr_val(*m1))),
                    fmul(gens@.h2, fr_val(*m2)),
                );
                lemma_inverse_cancel(g1_val(b), fr_val(t), fr_val(t_inv));
            }
            Ok(Signature { a, e: *e, s: *s })
        },
    }
}

/// Signs the message pair `(m1, m2)` under the secret exponent `x`,
/// sampling the signing scalars fresh. The failure is the negligible
/// random event that the sampled exponent collides with the key.
pub fn sign(
    m1: &bls12_381::Scalar,
    m2: &bls12_381::Scalar,
    x: &bls12_381::Scalar,
    gens: &Generators,
) -> (r: Result<Signature, ProtocolError>)
    ensures
        r matches Err(k) ==> k == ProtocolError::DegenerateKey,
        r matches Ok(sig) ==> 0 <= sig@.e < fq() && 0 <= sig@.s < fq() && 0 <= sig@.a < fq()
            && fmul(sig@.a, fadd(sig@.e, fr_val(*x))) == spec_b(
            gens@,
            sig@.s,
            fr_val(*m1),
            fr_val(*m2),
        ),
{
    let e = fr_random();
    let s = fr_random();
    sign_with_randomness(m1, m2, x, &e, &s, gens)
}

/// Checks the signature equation directly, by two pairings. Diagnostic:
/// a presentation protocol uses `verify_knowledge` instead, which never
/// sees the signature.
pub fn check_signature(
    sig: &Signature,
    m1: &bls12_381::Scalar,
    m2: &bls12_381::Scalar,
    w: &bls12_381::G2Projective,
    gens: &Generators,
) -> (r: bool)
    ensures
        r == spec_check(gens@, g2_val(*w), sig@, fr_val(*m1), fr_val(*m2)),
{
    let b = g1_add(
        &g1_add(&g1_add(&gens.p1, &g1_mul(&gens.h0, &sig.s)), &g1_mul(&gens.h1, m1)),
        &g1_mul(&gens.h2, m2),
    );
    let lhs = pairing_points(&b, &gens.p2);
    let w_shift = g2_add(w, &g2_mul(&gens.p2, &sig.e));
    let rhs = pairing_points(&sig.a, &w_shift);
    gt_eq(&lhs, &rhs)
}

} // verus!
