//! Benchmark-oriented library of hash-based and post-quantum signature
//! schemes.  The Lamport one-time signature engine in [`lamport`] is built
//! from first principles and carries full functional contracts; the other
//! modules are facades over outside cryptographic crates, verified around
//! their trusted boundaries.

pub mod dilithium;
mod entropy;
pub mod hss;
pub mod lamport;
pub mod lm_ots;
pub mod lms;
mod strutil;
pub mod sphincs;
pub mod sphincs_plus;
pub mod winternitz;
pub mod xmss;
pub mod xmssmt;
