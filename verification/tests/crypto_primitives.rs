use ml_dsa::signature::Signer;
use ml_dsa::KeyGen;
use aes_gcm::aead::{Aead, KeyInit, Payload};
use pq_bench::digest::sha256_of;
use pq_bench::dsa::ml_dsa_verify_65;
use pq_bench::fixtures::{mint_fixtures, xor_32};
use pq_bench::stub::{input_size_error, InputSizeError, StubInputs};
use pq_bench::kem::ml_kem_decap_768;
use ml_kem::kem::{Decapsulate, Encapsulate};
use ml_kem::{EncodedSizeUser, KemCore};
use pq_bench::key_schedule::{derive_traffic_keys, traffic_label};
use pq_bench::record::record_round_trip;
use sha2::Digest;

/// Fresh fixtures, with the ML-DSA-65 key pair and signature made by the
/// `ml-dsa` crate.
fn sign_with_fresh_key(msg: &[u8]) -> (Vec<u8>, Vec<u8>) {
    let kp = ml_dsa::MlDsa65::key_gen(&mut rand::rngs::OsRng);
    let sig = kp.signing_key().sign(msg);
    (kp.verifying_key().encode().to_vec(), sig.encode().to_vec())
}

fn fresh_fixtures() -> StubInputs {
    let kp = ml_dsa::MlDsa65::key_gen(&mut rand::rngs::OsRng);
    let sig = kp.signing_key().sign(b"sacredvote-pq-bench/handshake-finished");
    mint_fixtures(kp.verifying_key().encode().to_vec(), sig.encode().to_vec())
}

#[test]
fn sha256_of_abc_is_the_fips_test_vector() {
    let expected: [u8; 32] = [
        0xba, 0x78, 0x16, 0xbf, 0x8f, 0x01, 0xcf, 0xea, 0x41, 0x41, 0x40, 0xde, 0x5d, 0xae, 0x22,
        0x23, 0xb0, 0x03, 0x61, 0xa3, 0x96, 0x17, 0x7a, 0x9c, 0xb4, 0x10, 0xff, 0x61, 0xf2, 0x00,
        0x15, 0xad,
    ];
    assert_eq!(sha256_of(b"abc"), expected);
}

#[test]
fn sha256_of_empty_input() {
    let expected: [u8; 32] = [
        0xe3, 0xb0, 0xc4, 0x42, 0x98, 0xfc, 0x1c, 0x14, 0x9a, 0xfb, 0xf4, 0xc8, 0x99, 0x6f, 0xb9,
        0x24, 0x27, 0xae, 0x41, 0xe4, 0x64, 0x9b, 0x93, 0x4c, 0xa4, 0x95, 0x99, 0x1b, 0x78, 0x52,
        0xb8, 0x55,
    ];
    assert_eq!(sha256_of(b""), expected);
}

#[test]
fn traffic_labels_are_the_tls13_labels_in_order() {
    assert_eq!(traffic_label(0), b"tls13 c hs traffic");
    assert_eq!(traffic_label(1), b"tls13 s hs traffic");
    assert_eq!(traffic_label(2), b"tls13 c ap traffic");
    assert_eq!(traffic_label(3), b"tls13 s ap traffic");
    assert_eq!(traffic_label(4), b"tls13 exp master");
}

#[test]
fn traffic_keys_match_hkdf_expand_of_each_label() {
    let transcript = [7u8; 32];
    let shared = [42u8; 32];
    let keys = derive_traffic_keys(&transcript, &shared);
    assert_eq!(keys.len(), 5);
    let hk = hkdf::Hkdf::<sha2::Sha256>::new(Some(&transcript), &shared);
    for i in 0..5 {
        let mut okm = [0u8; 32];
        hk.expand(traffic_label(i), &mut okm).unwrap();
        assert_eq!(keys[i], okm);
        assert_ne!(keys[i], shared);
        assert_ne!(keys[i], transcript);
    }
    for i in 0..5 {
        for j in (i + 1)..5 {
            assert_ne!(keys[i], keys[j]);
        }
    }
}

#[test]
fn traffic_keys_depend_on_the_salt() {
    let a = derive_traffic_keys(&[1u8; 32], &[9u8; 32]);
    let b = derive_traffic_keys(&[2u8; 32], &[9u8; 32]);
    assert_ne!(a[0], b[0]);
}

#[test]
fn record_round_trip_seals_with_aes256gcm_and_recovers_the_record() {
    let key = [3u8; 32];
    let nonce_source: [u8; 32] = core::array::from_fn(|i| i as u8);
    let aad = [5u8; 32];
    let (ciphertext, recovered) = record_round_trip(&key, &nonce_source, &aad);
    assert_eq!(recovered, b"sacredvote-pq-bench-record".to_vec());
    assert_eq!(ciphertext.len(), 26 + 16);
    let cipher = aes_gcm::Aes256Gcm::new(aes_gcm::Key::<aes_gcm::Aes256Gcm>::from_slice(&key));
    let expected = cipher
        .encrypt(
            aes_gcm::Nonce::from_slice(&nonce_source[..12]),
            Payload { msg: b"sacredvote-pq-bench-record", aad: &aad },
        )
        .unwrap();
    assert_eq!(ciphertext, expected);
    assert_ne!(&ciphertext[..26], b"sacredvote-pq-bench-record");
}

/// Decapsulation with the `ml-kem` crate directly.
fn reference_decap(dk: &[u8], ct: &[u8]) -> [u8; 32] {
    let dk_arr: &ml_kem::Encoded<<ml_kem::MlKem768 as KemCore>::DecapsulationKey> =
        dk.try_into().unwrap();
    let ct_arr: &ml_kem::Ciphertext<ml_kem::MlKem768> = ct.try_into().unwrap();
    let key = <ml_kem::MlKem768 as KemCore>::DecapsulationKey::from_bytes(dk_arr);
    key.decapsulate(ct_arr).unwrap().into()
}

#[test]
fn ml_kem_decap_recovers_the_encapsulated_secret() {
    let (dk, ek) = ml_kem::MlKem768::generate(&mut rand::rngs::OsRng);
    let (ct, ss) = ek.encapsulate(&mut rand::rngs::OsRng).unwrap();
    let ss: [u8; 32] = ss.into();
    let shared = ml_kem_decap_768(&dk.as_bytes(), &ct);
    assert_eq!(shared, ss);
}

#[test]
fn minted_ciphertext_encapsulates_to_the_key_inside_the_decap_key() {
    let inputs = fresh_fixtures();
    let ek_bytes = &inputs.ml_kem_decap_key[1152..2336];
    let ek_arr: &ml_kem::Encoded<<ml_kem::MlKem768 as KemCore>::EncapsulationKey> =
        ek_bytes.try_into().unwrap();
    let ek = <ml_kem::MlKem768 as KemCore>::EncapsulationKey::from_bytes(ek_arr);
    let (ct, ss) = ek.encapsulate(&mut rand::rngs::OsRng).unwrap();
    let ss: [u8; 32] = ss.into();
    assert_eq!(ml_kem_decap_768(&inputs.ml_kem_decap_key, &ct), ss);
    let shared = ml_kem_decap_768(&inputs.ml_kem_decap_key, &inputs.ml_kem_ciphertext);
    assert_eq!(shared, reference_decap(&inputs.ml_kem_decap_key, &inputs.ml_kem_ciphertext));
    // The hybrid secret is the shared key masked by a fresh random vector.
    assert_ne!(inputs.hybrid_shared_secret, shared);
}

#[test]
fn xor_32_is_bytewise_and_undoes_itself() {
    let a: [u8; 32] = core::array::from_fn(|i| i as u8);
    let b: [u8; 32] = core::array::from_fn(|i| (255 - i) as u8);
    let c = xor_32(&a, &b);
    for i in 0..32 {
        assert_eq!(c[i], a[i] ^ b[i]);
    }
    assert_eq!(xor_32(&c, &b), a);
    assert_eq!(xor_32(&a, &a), [0u8; 32]);
}

#[test]
fn ml_kem_decap_of_a_tampered_ciphertext_rejects_implicitly() {
    let inputs = fresh_fixtures();
    let honest = ml_kem_decap_768(&inputs.ml_kem_decap_key, &inputs.ml_kem_ciphertext);
    let mut ct = inputs.ml_kem_ciphertext.clone();
    ct[0] ^= 1;
    let shared = ml_kem_decap_768(&inputs.ml_kem_decap_key, &ct);
    assert_ne!(shared, honest);
    assert_eq!(shared, ml_kem_decap_768(&inputs.ml_kem_decap_key, &ct));
}

#[test]
fn ml_dsa_verify_accepts_the_fixture_signature() {
    let inputs = fresh_fixtures();
    assert!(ml_dsa_verify_65(&inputs.ml_dsa_verifying_key, &inputs.ml_dsa_msg, &inputs.ml_dsa_sig));
}

#[test]
fn fresh_keys_sign_and_verify_any_message() {
    for msg in [&b""[..], b"x", b"sacredvote", &[0u8; 1000][..]] {
        let (vk, sig) = sign_with_fresh_key(msg);
        assert_eq!(vk.len(), 1952);
        assert_eq!(sig.len(), 3309);
        assert!(ml_dsa_verify_65(&vk, msg, &sig));
    }
}

#[test]
fn signatures_do_not_verify_under_another_fresh_key() {
    let (_vk, sig) = sign_with_fresh_key(b"m");
    let (other_vk, _) = sign_with_fresh_key(b"m");
    assert!(!ml_dsa_verify_65(&other_vk, b"m", &sig));
}

#[test]
fn ml_dsa_verify_rejects_another_message() {
    let inputs = fresh_fixtures();
    assert!(!ml_dsa_verify_65(&inputs.ml_dsa_verifying_key, b"another message", &inputs.ml_dsa_sig));
}

#[test]
fn ml_dsa_verify_rejects_a_signature_that_does_not_decode() {
    let inputs = fresh_fixtures();
    let mut sig = inputs.ml_dsa_sig.clone();
    let n = sig.len();
    for b in &mut sig[n - 6..] {
        *b = 0xff;
    }
    assert!(!ml_dsa_verify_65(&inputs.ml_dsa_verifying_key, &inputs.ml_dsa_msg, &sig));
}

#[test]
fn fixtures_have_the_expected_shapes() {
    let inputs = fresh_fixtures();
    assert_eq!(inputs.ml_kem_decap_key.len(), 2400);
    assert_eq!(inputs.ml_kem_ciphertext.len(), 1088);
    assert_eq!(inputs.ml_dsa_verifying_key.len(), 1952);
    assert_eq!(inputs.ml_dsa_sig.len(), 3309);
    assert_eq!(inputs.ml_dsa_msg, b"sacredvote-pq-bench/handshake-finished".to_vec());
    let expected_transcript: [u8; 32] =
        sha2::Sha256::digest(b"sacredvote-pq-bench/server-finished").into();
    assert_eq!(inputs.transcript_hash, expected_transcript);
}

#[test]
fn fixtures_carry_the_callers_signature_material() {
    let a = mint_fixtures(vec![1, 2, 3], vec![4, 5]);
    assert_eq!(a.ml_dsa_verifying_key, vec![1, 2, 3]);
    assert_eq!(a.ml_dsa_sig, vec![4, 5]);
    assert_eq!(input_size_error(&a), Some(InputSizeError::DsaVerifyingKey));
    let b = mint_fixtures(vec![0; 1952], vec![0; 3293]);
    assert_eq!(input_size_error(&b), Some(InputSizeError::DsaSignature));
    let c = mint_fixtures(vec![0; 1952], vec![0; 3309]);
    assert_eq!(input_size_error(&c), None);
}

#[test]
fn fixtures_are_fresh_on_each_mint() {
    let a = fresh_fixtures();
    let b = fresh_fixtures();
    assert_ne!(a.ml_kem_decap_key, b.ml_kem_decap_key);
    assert_ne!(a.ml_dsa_verifying_key, b.ml_dsa_verifying_key);
    assert_eq!(a.transcript_hash, b.transcript_hash);
}
