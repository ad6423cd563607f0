//! A typed layer over post-quantum key encapsulation mechanisms (KEMs).
//!
//! The [`kem`] module defines the algorithm-independent vocabulary: a
//! role-tagged byte container for key material, value types for shared
//! secrets and ciphertexts, and the [`kem::Parameters`] contract that every
//! supported algorithm satisfies. The [`kyber1024`] module binds that
//! contract to the lattice-based Kyber-1024 KEM, delegating the
//! cryptographic work to an external backend.

pub mod kem;
pub mod kyber1024;
