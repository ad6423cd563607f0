use pq_kem::kem::{KemError, KeyMaterial, Parameters, Public};
use pq_kem::kyber1024::{
    Kyber1024, CIPHERTEXT_LENGTH, PUBLIC_KEY_LENGTH, SECRET_KEY_LENGTH, SHARED_SECRET_LENGTH,
};

#[test]
fn lengths_match_backend() {
    assert_eq!(PUBLIC_KEY_LENGTH, pqc_kyber::KYBER_PUBLICKEYBYTES);
    assert_eq!(SECRET_KEY_LENGTH, pqc_kyber::KYBER_SECRETKEYBYTES);
    assert_eq!(CIPHERTEXT_LENGTH, pqc_kyber::KYBER_CIPHERTEXTBYTES);
    assert_eq!(SHARED_SECRET_LENGTH, pqc_kyber::KYBER_SSBYTES);
}

#[test]
fn length_getters_report_the_constants() {
    assert_eq!(Kyber1024::public_key_length(), PUBLIC_KEY_LENGTH);
    assert_eq!(Kyber1024::secret_key_length(), SECRET_KEY_LENGTH);
    assert_eq!(Kyber1024::ciphertext_length(), CIPHERTEXT_LENGTH);
    assert_eq!(Kyber1024::shared_secret_length(), SHARED_SECRET_LENGTH);
}

#[test]
fn generated_keys_have_the_mandated_lengths() {
    let (pk, sk) = Kyber1024::generate();
    assert_eq!(pk.len(), PUBLIC_KEY_LENGTH);
    assert_eq!(sk.len(), SECRET_KEY_LENGTH);
    assert_eq!(pk.as_bytes().len(), PUBLIC_KEY_LENGTH);
    assert_eq!(sk.as_bytes().len(), SECRET_KEY_LENGTH);
}

#[test]
fn round_trip_recovers_the_shared_secret() {
    let (pk, sk) = Kyber1024::generate();
    let (s1, ct) = Kyber1024::encapsulate(&pk);
    assert_eq!(ct.len(), CIPHERTEXT_LENGTH);
    assert_eq!(s1.len(), SHARED_SECRET_LENGTH);
    let s2 = Kyber1024::decapsulate(&sk, ct.as_bytes())
        .expect("a ciphertext of the mandated length must decapsulate");
    assert_eq!(s1.as_bytes(), s2.as_bytes());
}

#[test]
fn generate_produces_fresh_key_pairs() {
    let (pk1, sk1) = Kyber1024::generate();
    let (pk2, sk2) = Kyber1024::generate();
    assert_ne!(pk1.as_bytes(), pk2.as_bytes());
    assert_ne!(sk1.as_bytes(), sk2.as_bytes());
}

#[test]
fn encapsulate_produces_fresh_pairs_for_the_same_key() {
    let (pk, _sk) = Kyber1024::generate();
    let (s1, ct1) = Kyber1024::encapsulate(&pk);
    let (s2, ct2) = Kyber1024::encapsulate(&pk);
    assert_ne!(ct1.as_bytes(), ct2.as_bytes());
    assert_ne!(s1.as_bytes(), s2.as_bytes());
}

#[test]
fn truncated_ciphertext_is_rejected_recoverably() {
    let (pk, sk) = Kyber1024::generate();
    let (_s, ct) = Kyber1024::encapsulate(&pk);
    let short = &ct.as_bytes()[..CIPHERTEXT_LENGTH - 1];
    let r = Kyber1024::decapsulate(&sk, short);
    assert!(matches!(r, Err(KemError::InvalidCiphertextLength)));
}

#[test]
fn padded_ciphertext_is_rejected_recoverably() {
    let (pk, sk) = Kyber1024::generate();
    let (_s, ct) = Kyber1024::encapsulate(&pk);
    let mut long = ct.as_bytes().to_vec();
    long.push(0);
    let r = Kyber1024::decapsulate(&sk, &long);
    assert!(matches!(r, Err(KemError::InvalidCiphertextLength)));
}

#[test]
fn empty_ciphertext_is_rejected_recoverably() {
    let (_pk, sk) = Kyber1024::generate();
    let r = Kyber1024::decapsulate(&sk, &[]);
    assert!(matches!(r, Err(KemError::InvalidCiphertextLength)));
}

#[test]
fn tampered_ciphertext_yields_a_different_secret() {
    let (pk, sk) = Kyber1024::generate();
    let (s1, ct) = Kyber1024::encapsulate(&pk);
    let mut tampered = ct.as_bytes().to_vec();
    tampered[0] ^= 1;
    let s2 = Kyber1024::decapsulate(&sk, &tampered)
        .expect("implicit rejection still yields a secret for the mandated length");
    assert_eq!(s2.len(), SHARED_SECRET_LENGTH);
    assert_ne!(s1.as_bytes(), s2.as_bytes());
}

#[test]
fn public_key_decoded_from_transmitted_bytes_encapsulates() {
    let (pk, sk) = Kyber1024::generate();
    let transmitted = pk.as_bytes().to_vec();
    let decoded: KeyMaterial<Public> = KeyMaterial::new(transmitted);
    let (s1, ct) = Kyber1024::encapsulate(&decoded);
    let s2 = Kyber1024::decapsulate(&sk, ct.as_bytes())
        .expect("a ciphertext of the mandated length must decapsulate");
    assert_eq!(s1.as_bytes(), s2.as_bytes());
}

#[test]
fn decapsulate_is_deterministic_for_equal_inputs() {
    let (pk, sk) = Kyber1024::generate();
    let (_s, ct) = Kyber1024::encapsulate(&pk);
    let s1 = Kyber1024::decapsulate(&sk, ct.as_bytes())
        .expect("a ciphertext of the mandated length must decapsulate");
    let s2 = Kyber1024::decapsulate(&sk, ct.as_bytes())
        .expect("a ciphertext of the mandated length must decapsulate");
    assert_eq!(s1.as_bytes(), s2.as_bytes());
}
