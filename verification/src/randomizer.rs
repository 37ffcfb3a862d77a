//! Key randomization: rescaling an issuer public key by a chosen scalar,
//! and building the companion proof that verifies against the rescaled key.

use vstd::prelude::*;
use crate::field::fadd;
use crate::field::fmul;
use crate::field::fneg;
use crate::field::finv;
use crate::field::invertible;
use crate::field::lemma_finv_unique;
use crate::curve::fr_val;
use crate::curve::fr_add;
use crate::curve::fr_mul;
use crate::curve::fr_neg;
use crate::curve::fr_invert;
use crate::curve::fr_is_zero;
use crate::curve::g1_add;
use crate::curve::g1_mul;
use crate::curve::g2_val;
use crate::curve::g2_mul;
use crate::types::Generators;
use crate::types::GeneratorsModel;
use crate::types::ProofRandomness;
use crate::types::RandomnessModel;
use crate::types::Signature;
use crate::types::SignatureModel;
use crate::types::SpkProof;
use crate::types::ProofModel;
use crate::types::ProtocolError;
use crate::issuer::spec_b;

verus! {

/// Rescales a public key: `w_f = w·y`. Fails with `NonInvertible` exactly
/// when `y` is zero, since a zero rescaling could never be undone.
pub fn randomize_key(w: &bls12_381::G2Projective, y: &bls12_381::Scalar) -> (r: Result<
    bls12_381::G2Projective,
    ProtocolError,
>)
    ensures
        r is Err <==> fr_val(*y) == 0,
        r matches Err(k) ==> k == ProtocolError::NonInvertible,
        r matches Ok(wf) ==> g2_val(wf) == fmul(g2_val(*w), fr_val(*y)),
{
    if fr_is_zero(y) {
        Err(ProtocolError::NonInvertible)
    } else {
        Ok(g2_mul(w, y))
    }
}

/// The proof bundle that a prover holding the base witnesses builds for
/// the rescaled key `w·y`: the blinded pair is rescaled by `y`, the
/// responses for `e` and `r3` carry the factors `y` and `y⁻¹`, and the
/// second commitment is taken against the rescaled `d`. `a_prime`, `c1`
/// and the responses for `r2` and the hidden message are unchanged.
pub open spec fn spec_prove_rescaled(
    g: GeneratorsModel,
    sig: SignatureModel,
    m1: int,
    m2: int,
    rnd: RandomnessModel,
    y: int,
) -> ProofModel {
    let r3 = finv(rnd.r1);
    let yi = finv(y);
    let b = spec_b(g, sig.s, m1, m2);
    let a_prime = fmul(sig.a, rnd.r1);
    let a_bar = fadd(fmul(fmul(a_prime, fneg(sig.e)), y), fmul(fmul(b, rnd.r1), y));
    let d = fadd(fmul(fmul(b, rnd.r1), y), fmul(g.h0, rnd.r2));
    let s_prime = fadd(sig.s, fmul(fmul(rnd.r2, r3), yi));
    ProofModel {
        c: rnd.c,
        e_hat: fadd(rnd.e_t, fmul(fmul(rnd.c, y), sig.e)),
        r2_hat: fadd(rnd.r2_t, fmul(rnd.c, rnd.r2)),
        r3_hat: fadd(rnd.r3_t, fmul(fmul(rnd.c, r3), yi)),
        s_hat: fadd(rnd.s_t, fmul(rnd.c, s_prime)),
        m2_hat: fadd(rnd.m2_t, fmul(rnd.c, m2)),
        c1: fadd(fmul(a_prime, rnd.e_t), fmul(g.h0, rnd.r2_t)),
        c2: fadd(fadd(fmul(d, fneg(rnd.r3_t)), fmul(g.h0, rnd.s_t)), fmul(g.h2, rnd.m2_t)),
        a_prime,
        a_bar,
        d,
    }
}

/// Builds the companion proof for the rescaled key from the same
/// signature, messages and randomness as the base proof. Fails with
/// `NonInvertible` exactly when the blinding scalar `r1` or the rescaling
/// scalar `y` is zero.
pub fn randomize_proof(
    sig: &Signature,
    m1: &bls12_381::Scalar,
    m2: &bls12_381::Scalar,
    gens: &Generators,
    rnd: &ProofRandomness,
    y: &bls12_381::Scalar,
) -> (r: Result<SpkProof, ProtocolError>)
    ensures
        r is Err <==> (rnd@.r1 == 0 || fr_val(*y) == 0),
        r matches Err(k) ==> k == ProtocolError::NonInvertible,
        r matches Ok(p) ==> invertible(rnd@.r1) && invertible(fr_val(*y)) && p@
            == spec_prove_rescaled(gens@, sig@, fr_val(*m1), fr_val(*m2), rnd@, fr_val(*y)),
{
    let r3 = match fr_invert(&rnd.r1) {
        None => {
            return Err(ProtocolError::NonInvertible);
        },
        Some(r3) => r3,
    };
    let y_inv = match fr_invert(y) {
        None => {
            return Err(ProtocolError::NonInvertible);
        },
        Some(y_inv) => y_inv,
    };
    let b = g1_add(
        &g1_add(&g1_add(&gens.p1, &g1_mul(&gens.h0, &sig.s)), &g1_mul(&gens.h1, m1)),
        &g1_mul(&gens.h2, m2),
    );
    let a_prime = g1_mul(&sig.a, &rnd.r1);
    let a_bar = g1_add(
        &g1_mul(&g1_mul(&a_prime, &fr_neg(&sig.e)), y),
        &g1_mul(&g1_mul(&b, &rnd.r1), y),
    );
    let d = g1_add(&g1_mul(&g1_mul(&b, &rnd.r1), y), &g1_mul(&gens.h0, &rnd.r2));
    let s_prime = fr_add(&sig.s, &fr_mul(&fr_mul(&rnd.r2, &r3), &y_inv));
    let c1 = g1_add(&g1_mul(&a_prime, &rnd.e_t), &g1_mul(&gens.h0, &rnd.r2_t));
    let c2 = g1_add(
        &g1_add(&g1_mul(&d, &fr_neg(&rnd.r3_t)), &g1_mul(&gens.h0, &rnd.s_t)),
        &g1_mul(&gens.h2, &rnd.m2_t),
    );
    proof {
        lemma_finv_unique(rnd@.r1, fr_val(r3));
        lemma_finv_unique(fr_val(*y), fr_val(y_inv));
    }
    Ok(
        SpkProof {
            c: rnd.c,
            e_hat: fr_add(&rnd.e_t, &fr_mul(&fr_mul(&rnd.c, y), &sig.e)),
            r2_hat: fr_add(&rnd.r2_t, &fr_mul(&rnd.c, &rnd.r2)),
            r3_hat: fr_add(&rnd.r3_t, &fr_mul(&fr_mul(&rnd.c, &r3), &y_inv)),
            s_hat: fr_add(&rnd.s_t, &fr_mul(&rnd.c, &s_prime)),
            m2_hat: fr_add(&rnd.m2_t, &fr_mul(&rnd.c, m2)),
            c1,
            c2,
            a_prime,
            a_bar,
            d,
        },
    )
}

} // verus!
