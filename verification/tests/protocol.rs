use bbs_spk::issuer::check_signature;
use bbs_spk::issuer::generate_key_pair;
use bbs_spk::issuer::setup_generators;
use bbs_spk::issuer::sign;
use bbs_spk::issuer::sign_with_randomness;
use bbs_spk::prover::prove_knowledge;
use bbs_spk::prover::prove_knowledge_with_randomness;
use bbs_spk::prover::sample_proof_randomness;
use bbs_spk::randomizer::randomize_key;
use bbs_spk::randomizer::randomize_proof;
use bbs_spk::types::Generators;
use bbs_spk::types::ProofRandomness;
use bbs_spk::types::ProtocolError;
use bbs_spk::types::Signature;
use bbs_spk::types::SpkProof;
use bbs_spk::verification::verify_knowledge;
use bls12_381::G1Projective;
use bls12_381::G2Projective;
use bls12_381::Scalar;

fn fixed_generators() -> Generators {
    let p1 = G1Projective::generator();
    Generators {
        p1,
        p2: G2Projective::generator(),
        h0: p1 * Scalar::from(7u64),
        h1: p1 * Scalar::from(11u64),
        h2: p1 * Scalar::from(13u64),
    }
}

fn fixed_randomness() -> ProofRandomness {
    ProofRandomness {
        r1: Scalar::from(17u64),
        r2: Scalar::from(19u64),
        e_t: Scalar::from(23u64),
        s_t: Scalar::from(29u64),
        r2_t: Scalar::from(31u64),
        r3_t: Scalar::from(37u64),
        m2_t: Scalar::from(41u64),
        c: Scalar::from(43u64),
    }
}

fn fixed_signature(gens: &Generators, x: &Scalar, m1: &Scalar, m2: &Scalar) -> Signature {
    sign_with_randomness(m1, m2, x, &Scalar::from(47u64), &Scalar::from(53u64), gens).unwrap()
}

fn fixed_setup() -> (Generators, Scalar, G2Projective, Scalar, Scalar, Signature, SpkProof) {
    let gens = fixed_generators();
    let x = Scalar::from(42u64);
    let w = gens.p2 * x;
    let m1 = Scalar::from(3u64);
    let m2 = Scalar::from(5u64);
    let sig = fixed_signature(&gens, &x, &m1, &m2);
    let proof =
        prove_knowledge_with_randomness(&sig, &m1, &m2, &gens, &fixed_randomness()).unwrap();
    (gens, x, w, m1, m2, sig, proof)
}

#[test]
fn signature_passes_check() {
    let gens = fixed_generators();
    let x = Scalar::from(42u64);
    let w = gens.p2 * x;
    let m1 = Scalar::from(3u64);
    let m2 = Scalar::from(5u64);
    let sig = fixed_signature(&gens, &x, &m1, &m2);
    assert!(check_signature(&sig, &m1, &m2, &w, &gens));
}

#[test]
fn signature_fails_check_for_other_messages() {
    let (gens, _x, w, m1, m2, sig, _proof) = fixed_setup();
    let other = Scalar::from(6u64);
    assert!(!check_signature(&sig, &m1, &other, &w, &gens));
    assert!(!check_signature(&sig, &other, &m2, &w, &gens));
}

#[test]
fn degenerate_key_is_reported() {
    let gens = fixed_generators();
    let x = Scalar::from(42u64);
    let e = -Scalar::from(42u64);
    let r = sign_with_randomness(
        &Scalar::from(3u64),
        &Scalar::from(5u64),
        &x,
        &e,
        &Scalar::from(53u64),
        &gens,
    );
    assert_eq!(r.unwrap_err(), ProtocolError::DegenerateKey);
}

#[test]
fn end_to_end_proof_verifies() {
    let (gens, _x, w, m1, _m2, _sig, proof) = fixed_setup();
    assert!(verify_knowledge(&w, &proof, &m1, &gens));
    let mut tampered = proof;
    tampered.c1 += gens.p1;
    assert!(!verify_knowledge(&w, &tampered, &m1, &gens));
}

#[test]
fn zero_blinding_scalar_is_rejected() {
    let (gens, _x, _w, m1, m2, sig, _proof) = fixed_setup();
    let mut rnd = fixed_randomness();
    rnd.r1 = Scalar::zero();
    let r = prove_knowledge_with_randomness(&sig, &m1, &m2, &gens, &rnd);
    assert_eq!(r.unwrap_err(), ProtocolError::NonInvertible);
}

#[test]
fn incremented_responses_are_rejected() {
    let (gens, _x, w, m1, _m2, _sig, proof) = fixed_setup();
    let one = Scalar::one();
    let mut t = proof;
    t.e_hat += one;
    assert!(!verify_knowledge(&w, &t, &m1, &gens));
    let mut t = proof;
    t.r2_hat += one;
    assert!(!verify_knowledge(&w, &t, &m1, &gens));
    let mut t = proof;
    t.r3_hat += one;
    assert!(!verify_knowledge(&w, &t, &m1, &gens));
    let mut t = proof;
    t.s_hat += one;
    assert!(!verify_knowledge(&w, &t, &m1, &gens));
    let mut t = proof;
    t.m2_hat += one;
    assert!(!verify_knowledge(&w, &t, &m1, &gens));
}

#[test]
fn wrong_revealed_message_is_rejected() {
    let (gens, _x, w, _m1, _m2, _sig, proof) = fixed_setup();
    let wrong = Scalar::from(4u64);
    assert!(!verify_knowledge(&w, &proof, &wrong, &gens));
}

#[test]
fn rescaled_key_accepts_companion_proof() {
    let (gens, _x, w, m1, m2, sig, proof) = fixed_setup();
    let y = Scalar::from(59u64);
    let w_f = randomize_key(&w, &y).unwrap();
    let proof_f = randomize_proof(&sig, &m1, &m2, &gens, &fixed_randomness(), &y).unwrap();
    assert!(verify_knowledge(&w, &proof, &m1, &gens));
    assert!(verify_knowledge(&w_f, &proof_f, &m1, &gens));
}

#[test]
fn rescaling_by_zero_fails() {
    let (_gens, _x, w, _m1, _m2, _sig, _proof) = fixed_setup();
    let r = randomize_key(&w, &Scalar::zero());
    assert_eq!(r.unwrap_err(), ProtocolError::NonInvertible);
    let (gens, _x2, _w2, m1, m2, sig, _p) = fixed_setup();
    let r = randomize_proof(&sig, &m1, &m2, &gens, &fixed_randomness(), &Scalar::zero());
    assert_eq!(r.unwrap_err(), ProtocolError::NonInvertible);
}

#[test]
fn proving_is_deterministic_for_fixed_randomness() {
    let (gens, _x, w, m1, m2, sig, _proof) = fixed_setup();
    let rnd = fixed_randomness();
    let p1 = prove_knowledge_with_randomness(&sig, &m1, &m2, &gens, &rnd).unwrap();
    let p2 = prove_knowledge_with_randomness(&sig, &m1, &m2, &gens, &rnd).unwrap();
    assert_eq!(p1.c, p2.c);
    assert_eq!(p1.e_hat, p2.e_hat);
    assert_eq!(p1.r2_hat, p2.r2_hat);
    assert_eq!(p1.r3_hat, p2.r3_hat);
    assert_eq!(p1.s_hat, p2.s_hat);
    assert_eq!(p1.m2_hat, p2.m2_hat);
    assert_eq!(p1.c1, p2.c1);
    assert_eq!(p1.c2, p2.c2);
    assert_eq!(p1.a_prime, p2.a_prime);
    assert_eq!(p1.a_bar, p2.a_bar);
    assert_eq!(p1.d, p2.d);
    let first = verify_knowledge(&w, &p1, &m1, &gens);
    let second = verify_knowledge(&w, &p1, &m1, &gens);
    assert_eq!(first, second);
    assert!(first);
}

#[test]
fn random_end_to_end_flow() {
    let gens = setup_generators();
    let kp = generate_key_pair(&gens);
    let m1 = Scalar::from(3u64);
    let m2 = Scalar::from(5u64);
    let sig = sign(&m1, &m2, &kp.x, &gens).unwrap();
    assert!(check_signature(&sig, &m1, &m2, &kp.w, &gens));
    let proof = prove_knowledge(&sig, &m1, &m2, &gens).unwrap();
    assert!(verify_knowledge(&kp.w, &proof, &m1, &gens));
    let rnd = sample_proof_randomness();
    let proof2 = prove_knowledge_with_randomness(&sig, &m1, &m2, &gens, &rnd).unwrap();
    assert!(verify_knowledge(&kp.w, &proof2, &m1, &gens));
}
