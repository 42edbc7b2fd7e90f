//! Groth16 proof verification over BLS12-381.
//!
//! The crate covers the verifier side of the Groth16 proof system: deriving
//! prepared verification parameters from a verifying key, checking a single
//! proof through the pairing equation, randomized batch verification of many
//! proofs, and the policy switch that routes the dominant multiscalar
//! multiplication to a hardware accelerator. The elliptic-curve and pairing
//! arithmetic itself comes from the `bls12_381` crate and is reached only
//! through the trusted boundary in [`algebra`].

pub mod algebra;
pub mod groth16;
pub mod multiscalar;
pub mod policy;
