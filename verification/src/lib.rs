//! Ring-membership proof verification over BLS12-381 with KZG opening
//! accumulation.
//!
//! The crate verifies PLONK-style proofs that a prover knows the secret key
//! behind one public key in a committed ring, without revealing which one.
//! It offers single-proof verification, naive batch verification, and a lazy
//! KZG accumulator that checks a whole batch with two multi-scalar
//! multiplications and a single pairing.

pub mod field;
pub mod g1;
pub mod kzg_acc;
pub mod piop;
pub mod ring_verifier;
pub mod te;
pub mod transcript;

pub use field::Scalar;
pub use g1::{g1_from_bytes, G1Point, KzgVk};
pub use kzg_acc::KzgAccumulator;
pub use piop::{Challenges, FixedColumnsCommitted, PiopParams, RingProof, VerifierKey};
pub use ring_verifier::{KzgBatchVerifier, PreparedBatchItem, RingVerifier};
pub use te::TePoint;
pub use transcript::ArkTranscript;
