//! A zero-knowledge proof of knowledge of a signature over a committed
//! message pair, built on the BLS12-381 pairing-friendly curve.
//!
//! The issuer signs two field elements; the prover later shows it holds a
//! valid signature over them, revealing one message and hiding the other,
//! the signature itself, and the signing exponent. Verification also works
//! against an affinely rescaled issuer key, so a proof can be checked by a
//! delegate without re-signing.

pub mod field;
pub mod curve;
pub mod types;
pub mod issuer;
pub mod prover;
pub mod verification;
pub mod randomizer;
pub mod laws;
