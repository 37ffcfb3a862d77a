//! The value types exchanged by the protocol and their mathematical models.
//!
//! Every exec type is viewed as a record of integers modulo `fq()`: a
//! scalar as its canonical representative, a group element as its discrete
//! logarithm (see `crate::curve`). Contracts are stated over these views.

use vstd::prelude::*;
use crate::curve::fr_val;
use crate::curve::g1_val;
use crate::curve::g2_val;

verus! {

/// Why an operation failed.
#[derive(Clone, Copy, Debug, PartialEq, Eq, Structural)]
pub enum ProtocolError {
    /// The sampled signing exponent collided with the secret key, so the
    /// signing denominator was zero.
    DegenerateKey,
    /// A scalar that must be inverted was zero.
    NonInvertible,
}

/// The fixed base points shared by issuer, prover and verifier: `p1` and
/// `p2` of the two source groups, and the message bases `h0`, `h1`, `h2`.
#[derive(Clone, Copy, Debug)]
pub struct Generators {
    pub p1: bls12_381::G1Projective,
    pub p2: bls12_381::G2Projective,
    pub h0: bls12_381::G1Projective,
    pub h1: bls12_381::G1Projective,
    pub h2: bls12_381::G1Projective,
}

/// The view of `Generators`: each base point as its discrete logarithm.
pub struct GeneratorsModel {
    pub p1: int,
    pub p2: int,
    pub h0: int,
    pub h1: int,
    pub h2: int,
}

impl View for Generators {
    type V = GeneratorsModel;

    open spec fn view(&self) -> GeneratorsModel {
        GeneratorsModel {
            p1: g1_val(self.p1),
            p2: g2_val(self.p2),
            h0: g1_val(self.h0),
            h1: g1_val(self.h1),
            h2: g1_val(self.h2),
        }
    }
}

/// An issuer key pair: the secret exponent and the public key `w = x·p2`.
#[derive(Clone, Copy, Debug)]
pub struct KeyPair {
    pub x: bls12_381::Scalar,
    pub w: bls12_381::G2Projective,
}

/// The view of `KeyPair`.
pub struct KeyPairModel {
    pub x: int,
    pub w: int,
}

impl View for KeyPair {
    type V = KeyPairModel;

    open spec fn view(&self) -> KeyPairModel {
        KeyPairModel { x: fr_val(self.x), w: g2_val(self.w) }
    }
}

/// A signature over a message pair: `a` with `a·(e + x) = b`, where `b`
/// commits to the messages (see `spec_b`).
#[derive(Clone, Copy, Debug)]
pub struct Signature {
    pub a: bls12_381::G1Projective,
    pub e: bls12_381::Scalar,
    pub s: bls12_381::Scalar,
}

/// The view of `Signature`.
pub struct SignatureModel {
    pub a: int,
    pub e: int,
    pub s: int,
}

impl View for Signature {
    type V = SignatureModel;

    open spec fn view(&self) -> SignatureModel {
        SignatureModel { a: g1_val(self.a), e: fr_val(self.e), s: fr_val(self.s) }
    }
}

/// The scalars a proof is built from: the blinding pair `r1` (which must
/// be invertible) and `r2`, one fresh commitment scalar per response, and
/// the challenge `c`. The challenge stands in for a Fiat-Shamir hash of
/// the transcript; sampling it independently keeps completeness and the
/// algebra checked here, but not non-interactive soundness, so a deployment
/// must derive it from the commitments instead. Reusing any of these
/// scalars across two proofs forfeits the scheme's hiding.
#[derive(Clone, Copy, Debug)]
pub struct ProofRandomness {
    pub r1: bls12_381::Scalar,
    pub r2: bls12_381::Scalar,
    pub e_t: bls12_381::Scalar,
    pub s_t: bls12_381::Scalar,
    pub r2_t: bls12_381::Scalar,
    pub r3_t: bls12_381::Scalar,
    pub m2_t: bls12_381::Scalar,
    pub c: bls12_381::Scalar,
}

/// The view of `ProofRandomness`.
pub struct RandomnessModel {
    pub r1: int,
    pub r2: int,
    pub e_t: int,
    pub s_t: int,
    pub r2_t: int,
    pub r3_t: int,
    pub m2_t: int,
    pub c: int,
}

impl View for ProofRandomness {
    type V = RandomnessModel;

    open spec fn view(&self) -> RandomnessModel {
        RandomnessModel {
            r1: fr_val(self.r1),
            r2: fr_val(self.r2),
            e_t: fr_val(self.e_t),
            s_t: fr_val(self.s_t),
            r2_t: fr_val(self.r2_t),
            r3_t: fr_val(self.r3_t),
            m2_t: fr_val(self.m2_t),
            c: fr_val(self.c),
        }
    }
}

/// The proof bundle a prover presents: the challenge, the five responses,
/// the two pre-challenge commitments, and the blinded signature encoding
/// `(a_prime, a_bar, d)`.
#[derive(Clone, Copy, Debug)]
pub struct SpkProof {
    pub c: bls12_381::Scalar,
    pub e_hat: bls12_381::Scalar,
    pub r2_hat: bls12_381::Scalar,
    pub r3_hat: bls12_381::Scalar,
    pub s_hat: bls12_381::Scalar,
    pub m2_hat: bls12_381::Scalar,
    pub c1: bls12_381::G1Projective,
    pub c2: bls12_381::G1Projective,
    pub a_prime: bls12_381::G1Projective,
    pub a_bar: bls12_381::G1Projective,
    pub d: bls12_381::G1Projective,
}

/// The view of `SpkProof`.
pub struct ProofModel {
    pub c: int,
    pub e_hat: int,
    pub r2_hat: int,
    pub r3_hat: int,
    pub s_hat: int,
    pub m2_hat: int,
    pub c1: int,
    pub c2: int,
    pub a_prime: int,
    pub a_bar: int,
    pub d: int,
}

impl View for SpkProof {
    type V = ProofModel;

    open spec fn view(&self) -> ProofModel {
        ProofModel {
            c: fr_val(self.c),
            e_hat: fr_val(self.e_hat),
            r2_hat: fr_val(self.r2_hat),
            r3_hat: fr_val(self.r3_hat),
            s_hat: fr_val(self.s_hat),
            m2_hat: fr_val(self.m2_hat),
            c1: g1_val(self.c1),
            c2: g1_val(self.c2),
            a_prime: g1_val(self.a_prime),
            a_bar: g1_val(self.a_bar),
            d: g1_val(self.d),
        }
    }
}

} // verus!
