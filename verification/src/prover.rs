//! Proof construction: turning a signature and its messages into a
//! blinded, randomized proof bundle.

use vstd::prelude::*;
use crate::field::fq;
use crate::field::fadd;
use crate::field::fmul;
use crate::field::fneg;
use crate::field::finv;
use crate::field::invertible;
use crate::field::lemma_finv_unique;
use crate::curve::fr_val;
use crate::curve::fr_add;
use crate::curve::fr_mul;
use crate::curve::fr_neg;
use crate::curve::fr_invert;
use crate::curve::fr_random;
use crate::curve::g1_add;
use crate::curve::g1_mul;
use crate::types::Generators;
use crate::types::GeneratorsModel;
use crate::types::ProofRandomness;
use crate::types::RandomnessModel;
use crate::types::Signature;
use crate::types::SignatureModel;
use crate::types::SpkProof;
use crate::types::ProofModel;
use crate::types::ProtocolError;
use crate::issuer::spec_b;
use crate::issuer::spec_check;
use crate::verification::spec_verify;
use crate::laws::lemma_honest_proof_verifies;

verus! {

/// The proof bundle built from a signature, the messages, and the proof
/// scalars, with `r3 = finv(r1)`: the blinded encoding
/// `a_prime = a·r1`, `a_bar = a_prime·(-e) + b·r1`, `d = b·r1 + h0·r2`,
/// the pre-challenge commitments `c1`, `c2`, and one response
/// `tilde + c·witness` per hidden witness.
pub open spec fn spec_prove(
    g: GeneratorsModel,
    sig: SignatureModel,
    m1: int,
    m2: int,
    rnd: RandomnessModel,
) -> ProofModel {
    let r3 = finv(rnd.r1);
    let b = spec_b(g, sig.s, m1, m2);
    let a_prime = fmul(sig.a, rnd.r1);
    let a_bar = fadd(fmul(a_prime, fneg(sig.e)), fmul(b, rnd.r1));
    let d = fadd(fmul(b, rnd.r1), fmul(g.h0, rnd.r2));
    let s_prime = fadd(sig.s, fmul(rnd.r2, r3));
    ProofModel {
        c: rnd.c,
        e_hat: fadd(rnd.e_t, fmul(rnd.c, sig.e)),
        r2_hat: fadd(rnd.r2_t, fmul(rnd.c, rnd.r2)),
        r3_hat: fadd(rnd.r3_t, fmul(rnd.c, r3)),
        s_hat: fadd(rnd.s_t, fmul(rnd.c, s_prime)),
        m2_hat: fadd(rnd.m2_t, fmul(rnd.c, m2)),
        c1: fadd(fmul(a_prime, rnd.e_t), fmul(g.h0, rnd.r2_t)),
        c2: fadd(fadd(fmul(d, fneg(rnd.r3_t)), fmul(g.h0, rnd.s_t)), fmul(g.h2, rnd.m2_t)),
        a_prime,
        a_bar,
        d,
    }
}

/// Samples the eight proof scalars fresh. The challenge is sampled too,
/// standing in for a Fiat-Shamir hash (see `ProofRandomness`). A
/// randomness bundle is for one proof only.
pub fn sample_proof_randomness() -> (rnd: ProofRandomness)
    ensures
        0 <= rnd@.r1 < fq(),
        0 <= rnd@.r2 < fq(),
        0 <= rnd@.e_t < fq(),
        0 <= rnd@.s_t < fq(),
        0 <= rnd@.r2_t < fq(),
        0 <= rnd@.r3_t < fq(),
        0 <= rnd@.m2_t < fq(),
        0 <= rnd@.c < fq(),
{
    ProofRandomness {
        r1: fr_random(),
        r2: fr_random(),
        e_t: fr_random(),
        s_t: fr_random(),
        r2_t: fr_random(),
        r3_t: fr_random(),
        m2_t: fr_random(),
        c: fr_random(),
    }
}

/// Builds the proof deterministically from the given randomness: the same
/// signature, messages and scalars always yield the same bundle. Fails
/// with `NonInvertible` exactly when the blinding scalar `r1` is zero,
/// before any inversion is attempted.
pub fn prove_knowledge_with_randomness(
    sig: &Signature,
    m1: &bls12_381::Scalar,
    m2: &bls12_381::Scalar,
    gens: &Generators,
    rnd: &ProofRandomness,
) -> (r: Result<SpkProof, ProtocolError>)
    ensures
        r is Err <==> rnd@.r1 == 0,
        r matches Err(k) ==> k == ProtocolError::NonInvertible,
        r matches Ok(p) ==> invertible(rnd@.r1) && p@ == spec_prove(
            gens@,
            sig@,
            fr_val(*m1),
            fr_val(*m2),
            rnd@,
        ),
{
    match fr_invert(&rnd.r1) {
        None => Err(ProtocolError::NonInvertible),
        Some(r3) => {
            let b = g1_add(
                &g1_add(&g1_add(&gens.p1, &g1_mul(&gens.h0, &sig.s)), &g1_mul(&gens.h1, m1)),
                &g1_mul(&gens.h2, m2),
            );
            let a_prime = g1_mul(&sig.a, &rnd.r1);
            let a_bar = g1_add(&g1_mul(&a_prime, &fr_neg(&sig.e)), &g1_mul(&b, &rnd.r1));
            let d = g1_add(&g1_mul(&b, &rnd.r1), &g1_mul(&gens.h0, &rnd.r2));
            let s_prime = fr_add(&sig.s, &fr_mul(&rnd.r2, &r3));
            let c1 = g1_add(&g1_mul(&a_prime, &rnd.e_t), &g1_mul(&gens.h0, &rnd.r2_t));
            let c2 = g1_add(
                &g1_add(&g1_mul(&d, &fr_neg(&rnd.r3_t)), &g1_mul(&gens.h0, &rnd.s_t)),
                &g1_mul(&gens.h2, &rnd.m2_t),
            );
            proof {
                lemma_finv_unique(rnd@.r1, fr_val(r3));
            }
            Ok(
                SpkProof {
                    c: rnd.c,
                    e_hat: fr_add(&rnd.e_t, &fr_mul(&rnd.c, &sig.e)),
                    r2_hat: fr_add(&rnd.r2_t, &fr_mul(&rnd.c, &rnd.r2)),
                    r3_hat: fr_add(&rnd.r3_t, &fr_mul(&rnd.c, &r3)),
                    s_hat: fr_add(&rnd.s_t, &fr_mul(&rnd.c, &s_prime)),
                    m2_hat: fr_add(&rnd.m2_t, &fr_mul(&rnd.c, m2)),
                    c1,
                    c2,
                    a_prime,
                    a_bar,
                    d,
                },
            )
        },
    }
}

/// Builds a proof with freshly sampled randomness. Whatever was sampled,
/// an accepted result verifies under every public key that accepts the
/// signature itself; the only failure is the negligible random event that
/// the sampled blinding scalar is zero.
pub fn prove_knowledge(
    sig: &Signature,
    m1: &bls12_381::Scalar,
    m2: &bls12_381::Scalar,
    gens: &Generators,
) -> (r: Result<SpkProof, ProtocolError>)
    ensures
        r matches Err(k) ==> k == ProtocolError::NonInvertible,
        r matches Ok(p) ==> exists|rnd: RandomnessModel|
            invertible(rnd.r1) && p@ == #[trigger] spec_prove(
                gens@,
                sig@,
                fr_val(*m1),
                fr_val(*m2),
                rnd,
            ),
        r matches Ok(p) ==> forall|w: int|
            spec_check(gens@, w, sig@, fr_val(*m1), fr_val(*m2)) ==> spec_verify(
                gens@,
                w,
                fr_val(*m1),
                p@,
            ),
{
    let rnd = sample_proof_randomness();
    match prove_knowledge_with_randomness(sig, m1, m2, gens, &rnd) {
        Err(k) => Err(k),
        Ok(p) => {
            proof {
                assert(invertible(rnd@.r1) && p@ == spec_prove(
                    gens@,
                    sig@,
                    fr_val(*m1),
                    fr_val(*m2),
                    rnd@,
                ));
                assert forall|w: int|
                    spec_check(gens@, w, sig@, fr_val(*m1), fr_val(*m2)) implies spec_verify(
                    gens@,
                    w,
                    fr_val(*m1),
                    p@,
                ) by {
                    lemma_honest_proof_verifies(
                        gens@,
                        w,
                        sig@,
                        fr_val(*m1),
                        fr_val(*m2),
                        rnd@,
                    );
                }
            }
            Ok(p)
        },
    }
}

} // verus!
