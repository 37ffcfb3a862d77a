//! Proof verification: recomputing the commitments from a proof and an
//! issuer public key, and checking the pairing equation.

use vstd::prelude::*;
use crate::field::fadd;
use crate::field::fsub;
use crate::field::fmul;
use crate::field::fneg;
use crate::curve::fr_val;
use crate::curve::fr_neg;
use crate::curve::g1_add;
use crate::curve::g1_sub;
use crate::curve::g1_mul;
use crate::curve::g1_eq;
use crate::curve::g2_val;
use crate::curve::pairing_points;
use crate::curve::gt_eq;
use crate::types::Generators;
use crate::types::GeneratorsModel;
use crate::types::SpkProof;
use crate::types::ProofModel;

verus! {

/// The first commitment a verifier recomputes:
/// `c·(a_bar - d) + e_hat·a_prime + r2_hat·h0`.
pub open spec fn spec_c1_check(g: GeneratorsModel, p: ProofModel) -> int {
    fadd(
        fadd(fmul(fsub(p.a_bar, p.d), p.c), fmul(p.a_prime, p.e_hat)),
        fmul(g.h0, p.r2_hat),
    )
}

/// The second commitment a verifier recomputes, against the revealed
/// message: `c·(p1 + m1·h1) + (-r3_hat)·d + s_hat·h0 + m2_hat·h2`.
pub open spec fn spec_c2_check(g: GeneratorsModel, m1: int, p: ProofModel) -> int {
    let t = fadd(g.p1, fmul(g.h1, m1));
    fadd(
        fadd(fadd(fmul(t, p.c), fmul(p.d, fneg(p.r3_hat))), fmul(g.h0, p.s_hat)),
        fmul(g.h2, p.m2_hat),
    )
}

/// Acceptance: both recomputed commitments match the ones in the proof,
/// and the blinded pair satisfies `pairing(a_bar, p2) == pairing(a_prime, w)`.
/// All three must hold; any mismatch rejects the whole proof.
pub open spec fn spec_verify(g: GeneratorsModel, w: int, m1: int, p: ProofModel) -> bool {
    &&& spec_c1_check(g, p) == p.c1
    &&& spec_c2_check(g, m1, p) == p.c2
    &&& fmul(p.a_bar, g.p2) == fmul(p.a_prime, w)
}

/// Checks a proof against a public key and the revealed message. All
/// three checks are evaluated unconditionally and only then combined, so
/// the time taken does not tell a caller which one failed. Rejection is a
/// normal outcome, reported in the returned boolean.
pub fn verify_knowledge(
    w: &bls12_381::G2Projective,
    proof: &SpkProof,
    m1: &bls12_381::Scalar,
    gens: &Generators,
) -> (r: bool)
    ensures
        r == spec_verify(gens@, g2_val(*w), fr_val(*m1), proof@),
{
    let c1_v = g1_add(
        &g1_add(&g1_mul(&g1_sub(&proof.a_bar, &proof.d), &proof.c), &g1_mul(
            &proof.a_prime,
            &proof.e_hat,
        )),
        &g1_mul(&gens.h0, &proof.r2_hat),
    );
    let t = g1_add(&gens.p1, &g1_mul(&gens.h1, m1));
    let c2_v = g1_add(
        &g1_add(&g1_add(&g1_mul(&t, &proof.c), &g1_mul(&proof.d, &fr_neg(&proof.r3_hat))),
            &g1_mul(&gens.h0, &proof.s_hat)),
        &g1_mul(&gens.h2, &proof.m2_hat),
    );
    let c1_ok = g1_eq(&c1_v, &proof.c1);
    let c2_ok = g1_eq(&c2_v, &proof.c2);
    let lhs = pairing_points(&proof.a_bar, &gens.p2);
    let rhs = pairing_points(&proof.a_prime, w);
    let pairing_ok = gt_eq(&lhs, &rhs);
    c1_ok && c2_ok && pairing_ok
}

} // verus!
