//! The Kyber-1024 algorithm binding: the [`crate::kem::Parameters`]
//! contract instantiated for the lattice-based KEM with 1024-bit-class
//! security, delegating the lattice arithmetic to the `pqc_kyber` backend.
//!
//! Rejection policy: the backend follows implicit rejection. `decapsulate`
//! returns a recoverable error only for a ciphertext of the wrong length; a
//! ciphertext of the right length that fails the backend's internal
//! authentication yields a pseudorandom-but-deterministic secret instead of
//! an error, so that ciphertext validity leaks through no side channel.

use crate::kem::{KemError, KeyMaterial, Parameters, Public, RawCiphertext, Secret, SharedSecret};
use vstd::prelude::*;

verus! {

/// Bytes in a Kyber-1024 public key (`pqc_kyber::KYBER_PUBLICKEYBYTES`).
pub const PUBLIC_KEY_LENGTH: usize = 1568;

/// Bytes in a Kyber-1024 secret key (`pqc_kyber::KYBER_SECRETKEYBYTES`).
pub const SECRET_KEY_LENGTH: usize = 3168;

/// Bytes in a Kyber-1024 ciphertext (`pqc_kyber::KYBER_CIPHERTEXTBYTES`).
pub const CIPHERTEXT_LENGTH: usize = 1568;

/// Bytes in a Kyber-1024 shared secret (`pqc_kyber::KYBER_SSBYTES`).
pub const SHARED_SECRET_LENGTH: usize = 32;

#[verifier::external_type_specification]
#[verifier::external_body]
pub struct ExOsRng(rand::rngs::OsRng);

/// Relies on `rand::rngs::OsRng::default`: a handle to the operating
/// system's secure random source, the only randomness source this binding
/// ever draws from.
#[verifier::external_body]
fn fresh_os_rng() -> rand::rngs::OsRng {
    rand::rngs::OsRng::default()
}

/// Relies on `pqc_kyber::keypair` (with the kyber1024 parameter set): it
/// fills a public key of `KYBER_PUBLICKEYBYTES` and a secret key of
/// `KYBER_SECRETKEYBYTES` bytes from the given randomness source, and fails
/// only when that source does, which aborts the call.
#[verifier::external_body]
fn kyber_keypair(rng: &mut rand::rngs::OsRng) -> (r: (Vec<u8>, Vec<u8>))
    ensures
        r.0@.len() == PUBLIC_KEY_LENGTH,
        r.1@.len() == SECRET_KEY_LENGTH,
{
    let keys = pqc_kyber::keypair(rng).expect("the system randomness source failed");
    (keys.public.to_vec(), keys.secret.to_vec())
}

/// Relies on `pqc_kyber::encapsulate`: for a public key of
/// `KYBER_PUBLICKEYBYTES` bytes it returns a ciphertext of
/// `KYBER_CIPHERTEXTBYTES` and a shared secret of `KYBER_SSBYTES` bytes,
/// and fails only when the randomness source does, which aborts the call.
#[verifier::external_body]
fn kyber_encapsulate(pk: &[u8], rng: &mut rand::rngs::OsRng) -> (r: (Vec<u8>, Vec<u8>))
    requires
        pk@.len() == PUBLIC_KEY_LENGTH,
    ensures
        r.0@.len() == CIPHERTEXT_LENGTH,
        r.1@.len() == SHARED_SECRET_LENGTH,
{
    let (ct, ss) = pqc_kyber::encapsulate(pk, rng).expect("the system randomness source failed");
    (ct.to_vec(), ss.to_vec())
}

/// The secret that Kyber-1024 decapsulation recovers from a ciphertext and
/// a secret key. The backend's decapsulation draws no randomness and reads
/// nothing but its two arguments, so its result is a function of them
/// alone; this name stands for that function.
pub uninterp spec fn decap_of(ct: Seq<u8>, sk: Seq<u8>) -> Seq<u8>;

/// Relies on `pqc_kyber::decapsulate`: for a ciphertext of
/// `KYBER_CIPHERTEXTBYTES` and a secret key of `KYBER_SECRETKEYBYTES` bytes
/// it always returns the shared secret of `KYBER_SSBYTES` bytes that the
/// deterministic decapsulation of that pair yields (implicit rejection: an
/// unauthentic ciphertext yields a pseudorandom-but-deterministic secret
/// rather than an error); it rejects only other lengths, which the contract
/// rules out.
#[verifier::external_body]
fn kyber_decapsulate(ct: &[u8], sk: &[u8]) -> (r: Vec<u8>)
    requires
        ct@.len() == CIPHERTEXT_LENGTH,
        sk@.len() == SECRET_KEY_LENGTH,
    ensures
        r@ == decap_of(ct@, sk@),
        r@.len() == SHARED_SECRET_LENGTH,
{
    let ss = pqc_kyber::decapsulate(ct, sk).expect("the lengths are mandated by the contract");
    ss.to_vec()
}

/// The Kyber-1024 instance of the [`Parameters`] contract. Stateless: every
/// operation is one bounded computation over its arguments and a fresh
/// random draw.
pub struct Kyber1024;

impl Parameters for Kyber1024 {
    open spec fn spec_public_key_length() -> usize {
        PUBLIC_KEY_LENGTH
    }

    open spec fn spec_secret_key_length() -> usize {
        SECRET_KEY_LENGTH
    }

    open spec fn spec_ciphertext_length() -> usize {
        CIPHERTEXT_LENGTH
    }

    open spec fn spec_shared_secret_length() -> usize {
        SHARED_SECRET_LENGTH
    }

    open spec fn spec_decap(sk: Seq<u8>, ct: Seq<u8>) -> Seq<u8> {
        decap_of(ct, sk)
    }

    fn public_key_length() -> usize {
        PUBLIC_KEY_LENGTH
    }

    fn secret_key_length() -> usize {
        SECRET_KEY_LENGTH
    }

    fn ciphertext_length() -> usize {
        CIPHERTEXT_LENGTH
    }

    fn shared_secret_length() -> usize {
        SHARED_SECRET_LENGTH
    }

    fn generate() -> (KeyMaterial<Public>, KeyMaterial<Secret>) {
        let mut rng = fresh_os_rng();
        let (pk, sk) = kyber_keypair(&mut rng);
        (KeyMaterial::new(pk), KeyMaterial::new(sk))
    }

    fn encapsulate(pub_key: &KeyMaterial<Public>) -> (SharedSecret, RawCiphertext) {
        let mut rng = fresh_os_rng();
        let (ct, ss) = kyber_encapsulate(pub_key.as_bytes(), &mut rng);
        (SharedSecret::new(ss), RawCiphertext::new(ct))
    }

    fn decapsulate(secret_key: &KeyMaterial<Secret>, ciphertext: &[u8]) -> Result<
        SharedSecret,
        KemError,
    > {
        if ciphertext.len() != CIPHERTEXT_LENGTH {
            return Err(KemError::InvalidCiphertextLength);
        }
        let ss = kyber_decapsulate(ciphertext, secret_key.as_bytes());
        Ok(SharedSecret::new(ss))
    }
}

} // verus!
