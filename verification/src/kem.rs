//! Algorithm-independent KEM vocabulary: role-tagged key material, shared
//! secrets, ciphertexts, and the capability contract that each concrete
//! algorithm binding implements.

use core::marker::PhantomData;
use vstd::prelude::*;

verus! {

/// Marker trait for the role a piece of key material plays.
///
/// The two roles are [`Public`] and [`Secret`]. Because the role is part of
/// the type of [`KeyMaterial`], a secret key can never be passed where a
/// public key is expected (or vice versa): the program would not compile.
pub trait Role {}

/// Role tag for public-key material.
pub struct Public;

/// Role tag for secret-key material.
pub struct Secret;

impl Role for Public {}

impl Role for Secret {}

/// A cryptographic key's raw bytes, tagged at the type level with the role
/// the key plays. No conversion between the two roles exists.
///
/// The byte length mandated for each role is fixed by the algorithm binding
/// (see [`Parameters`]); the operations of the binding require it of their
/// arguments and guarantee it of their results.
#[verifier::reject_recursive_types(T)]
pub struct KeyMaterial<T: Role> {
    bytes: Vec<u8>,
    role: PhantomData<T>,
}

impl<T: Role> View for KeyMaterial<T> {
    type V = Seq<u8>;

    closed spec fn view(&self) -> Seq<u8> {
        self.bytes@
    }
}

impl<T: Role> KeyMaterial<T> {
    /// Wraps raw key bytes in a role-tagged container.
    pub fn new(bytes: Vec<u8>) -> (r: Self)
        ensures
            r@ == bytes@,
    {
        KeyMaterial { bytes, role: PhantomData }
    }

    /// The number of bytes held.
    pub fn len(&self) -> (n: usize)
        ensures
            n == self@.len(),
    {
        self.bytes.len()
    }

    /// The raw bytes, for encoding by a caller that owns the key.
    pub fn as_bytes(&self) -> (s: &[u8])
        ensures
            s@ == self@,
    {
        self.bytes.as_slice()
    }
}

/// Symmetric key material derived by a KEM operation.
///
/// Produced by `encapsulate` on the sender side and recovered by
/// `decapsulate` on the receiver side; its length is fixed per algorithm.
pub struct SharedSecret {
    bytes: Vec<u8>,
}

impl View for SharedSecret {
    type V = Seq<u8>;

    closed spec fn view(&self) -> Seq<u8> {
        self.bytes@
    }
}

impl SharedSecret {
    /// Wraps derived secret bytes.
    pub fn new(bytes: Vec<u8>) -> (r: Self)
        ensures
            r@ == bytes@,
    {
        SharedSecret { bytes }
    }

    /// The number of bytes held.
    pub fn len(&self) -> (n: usize)
        ensures
            n == self@.len(),
    {
        self.bytes.len()
    }

    /// The raw bytes, to be fed into a key-derivation step.
    pub fn as_bytes(&self) -> (s: &[u8])
        ensures
            s@ == self@,
    {
        self.bytes.as_slice()
    }
}

/// The encapsulated value transmitted to the peer.
///
/// Not secret, but its length is fixed per algorithm, and `decapsulate`
/// accepts no other length.
pub struct RawCiphertext {
    bytes: Vec<u8>,
}

impl View for RawCiphertext {
    type V = Seq<u8>;

    closed spec fn view(&self) -> Seq<u8> {
        self.bytes@
    }
}

impl RawCiphertext {
    /// Wraps ciphertext bytes.
    pub fn new(bytes: Vec<u8>) -> (r: Self)
        ensures
            r@ == bytes@,
    {
        RawCiphertext { bytes }
    }

    /// The number of bytes held.
    pub fn len(&self) -> (n: usize)
        ensures
            n == self@.len(),
    {
        self.bytes.len()
    }

    /// The raw bytes, for transmission to the peer.
    pub fn as_bytes(&self) -> (s: &[u8])
        ensures
            s@ == self@,
    {
        self.bytes.as_slice()
    }
}

/// The recoverable failures of the KEM operations.
///
/// Only malformed input from a peer is recoverable; a failing randomness
/// source is an unrecoverable environment failure and aborts the call
/// instead, since no safe continuation exists.
#[derive(Clone, Copy, Debug, PartialEq, Eq, Structural)]
pub enum KemError {
    /// The ciphertext handed to `decapsulate` does not have the length the
    /// algorithm mandates.
    InvalidCiphertextLength,
}

/// The capability contract of one KEM algorithm.
///
/// An implementation fixes the four byte lengths of the algorithm and
/// exposes its three operations, translating the backend's types into the
/// uniform [`KeyMaterial`] / [`SharedSecret`] / [`RawCiphertext`]
/// vocabulary. Implementations are stateless: every operation is a single
/// bounded computation with no state shared between calls.
pub trait Parameters {
    /// The mandated public-key length, in bytes.
    spec fn spec_public_key_length() -> usize;

    /// The mandated secret-key length, in bytes.
    spec fn spec_secret_key_length() -> usize;

    /// The mandated ciphertext length, in bytes.
    spec fn spec_ciphertext_length() -> usize;

    /// The mandated shared-secret length, in bytes.
    spec fn spec_shared_secret_length() -> usize;

    /// The mandated public-key length, for runtime buffer validation.
    fn public_key_length() -> (n: usize)
        ensures
            n == Self::spec_public_key_length(),
    ;

    /// The mandated secret-key length, for runtime buffer validation.
    fn secret_key_length() -> (n: usize)
        ensures
            n == Self::spec_secret_key_length(),
    ;

    /// The mandated ciphertext length, for runtime buffer validation.
    fn ciphertext_length() -> (n: usize)
        ensures
            n == Self::spec_ciphertext_length(),
    ;

    /// The mandated shared-secret length, for runtime buffer validation.
    fn shared_secret_length() -> (n: usize)
        ensures
            n == Self::spec_shared_secret_length(),
    ;

    /// Draws fresh randomness from the operating system's secure source and
    /// produces a freshly sampled key pair, each half tagged with its role.
    ///
    /// A failing randomness source aborts the call: no weaker source may be
    /// substituted.
    fn generate() -> (r: (KeyMaterial<Public>, KeyMaterial<Secret>))
        ensures
            r.0@.len() == Self::spec_public_key_length(),
            r.1@.len() == Self::spec_secret_key_length(),
    ;

    /// Given a peer's public key, draws fresh randomness and derives a
    /// shared secret together with the ciphertext from which the peer can
    /// recover that same secret.
    ///
    /// Stateless per call; every invocation uses a new random draw. A
    /// failing randomness source aborts the call.
    fn encapsulate(pub_key: &KeyMaterial<Public>) -> (r: (SharedSecret, RawCiphertext))
        requires
            pub_key@.len() == Self::spec_public_key_length(),
        ensures
            r.0@.len() == Self::spec_shared_secret_length(),
            r.1@.len() == Self::spec_ciphertext_length(),
    ;

    /// The secret the algorithm's decapsulation recovers from a secret key
    /// and a ciphertext of the mandated lengths. Decapsulation draws no
    /// randomness, so the result is a function of those two inputs alone.
    spec fn spec_decap(sk: Seq<u8>, ct: Seq<u8>) -> Seq<u8>;

    /// Recovers the shared secret from one's own secret key and a ciphertext
    /// received from a peer.
    ///
    /// A ciphertext of any length other than the mandated one is rejected
    /// with a recoverable error, and those are the only inputs rejected: a
    /// ciphertext of the right length always yields exactly the secret that
    /// the algorithm's decapsulation determines from the key and the
    /// ciphertext — no randomness is drawn, so byte-equal inputs recover
    /// byte-equal secrets. Whether that secret matches the sender's is up to
    /// the backend's rejection policy (see the algorithm binding).
    fn decapsulate(secret_key: &KeyMaterial<Secret>, ciphertext: &[u8]) -> (r: Result<
        SharedSecret,
        KemError,
    >)
        requires
            secret_key@.len() == Self::spec_secret_key_length(),
        ensures
            r is Ok <==> ciphertext@.len() == Self::spec_ciphertext_length(),
            r matches Ok(s) ==> s@ == Self::spec_decap(secret_key@, ciphertext@),
            r matches Ok(s) ==> s@.len() == Self::spec_shared_secret_length(),
            r matches Err(e) ==> e == KemError::InvalidCiphertextLength,
    ;
}

} // verus!
