use ml_dsa::signature::Signer;
use ml_dsa::KeyGen;
use aes_gcm::aead::{Aead, KeyInit, Payload};
use pq_bench::fixtures::mint_fixtures;
use pq_bench::stub::{
    commitment, commitment_preimage, input_size_error, run_stub, InputSizeError, StubInputs,
};
use ml_kem::kem::Decapsulate;
use ml_kem::{EncodedSizeUser, KemCore};
use sha2::Digest;

/// Fresh fixtures, with the ML-DSA-65 key pair and signature made by the
/// `ml-dsa` crate.
fn fresh_fixtures() -> StubInputs {
    let kp = ml_dsa::MlDsa65::key_gen(&mut rand::rngs::OsRng);
    let sig = kp.signing_key().sign(b"sacredvote-pq-bench/handshake-finished");
    mint_fixtures(kp.verifying_key().encode().to_vec(), sig.encode().to_vec())
}

/// The commitment over every input, written out with the outside crates
/// directly.
fn reference_commitment(inputs: &StubInputs, signature_ok: bool) -> [u8; 32] {
    let hk = hkdf::Hkdf::<sha2::Sha256>::new(Some(&inputs.transcript_hash), &inputs.hybrid_shared_secret);
    let mut c_ap = [0u8; 32];
    let mut s_ap = [0u8; 32];
    hk.expand(b"tls13 c ap traffic", &mut c_ap).unwrap();
    hk.expand(b"tls13 s ap traffic", &mut s_ap).unwrap();
    let cipher = aes_gcm::Aes256Gcm::new(aes_gcm::Key::<aes_gcm::Aes256Gcm>::from_slice(&c_ap));
    let ciphertext = cipher
        .encrypt(
            aes_gcm::Nonce::from_slice(&s_ap[..12]),
            Payload { msg: b"sacredvote-pq-bench-record", aad: &inputs.transcript_hash },
        )
        .unwrap();
    let dk_arr: &ml_kem::Encoded<<ml_kem::MlKem768 as KemCore>::DecapsulationKey> =
        inputs.ml_kem_decap_key.as_slice().try_into().unwrap();
    let ct_arr: &ml_kem::Ciphertext<ml_kem::MlKem768> =
        inputs.ml_kem_ciphertext.as_slice().try_into().unwrap();
    let kem_shared: [u8; 32] = <ml_kem::MlKem768 as KemCore>::DecapsulationKey::from_bytes(dk_arr)
        .decapsulate(ct_arr)
        .unwrap()
        .into();
    let mut h = sha2::Sha256::new();
    h.update(b"sacredvote-pq-bench/v0.1");
    h.update(inputs.hybrid_shared_secret);
    h.update(inputs.transcript_hash);
    h.update(kem_shared);
    h.update([signature_ok as u8]);
    h.update(&ciphertext);
    h.update(&inputs.ml_kem_ciphertext);
    h.update(&inputs.ml_kem_decap_key);
    h.update(&inputs.ml_dsa_verifying_key);
    h.update(&inputs.ml_dsa_sig);
    h.update(&inputs.ml_dsa_msg);
    h.finalize().into()
}

fn small_inputs() -> StubInputs {
    StubInputs {
        hybrid_shared_secret: [1u8; 32],
        transcript_hash: [2u8; 32],
        ml_kem_ciphertext: vec![10, 11],
        ml_kem_decap_key: vec![12],
        ml_dsa_msg: vec![13, 14, 15],
        ml_dsa_sig: vec![16],
        ml_dsa_verifying_key: vec![17, 18],
    }
}

#[test]
fn run_stub_on_fresh_fixtures_accepts_and_commits() {
    let inputs = fresh_fixtures();
    let out = run_stub(&inputs);
    assert!(out.signature_ok);
    assert_eq!(out.commitment, reference_commitment(&inputs, true));
}

#[test]
fn run_stub_rejects_a_forged_message_and_commits_to_the_verdict() {
    let mut inputs = fresh_fixtures();
    inputs.ml_dsa_msg = b"forged".to_vec();
    let out = run_stub(&inputs);
    assert!(!out.signature_ok);
    assert_eq!(out.commitment, reference_commitment(&inputs, false));
}

#[test]
fn run_stub_is_deterministic_given_fixtures() {
    let inputs = fresh_fixtures();
    let a = run_stub(&inputs);
    let b = run_stub(&inputs);
    assert_eq!(a.commitment, b.commitment);
    assert_eq!(a.signature_ok, b.signature_ok);
}

#[test]
fn commitment_changes_with_the_transcript() {
    let inputs = fresh_fixtures();
    let mut other = fresh_fixtures();
    other.hybrid_shared_secret = inputs.hybrid_shared_secret;
    other.ml_kem_decap_key = inputs.ml_kem_decap_key.clone();
    other.ml_kem_ciphertext = inputs.ml_kem_ciphertext.clone();
    other.transcript_hash[0] ^= 0x80;
    assert_ne!(run_stub(&inputs).commitment, run_stub(&other).commitment);
}

#[test]
fn commitment_preimage_layout() {
    let inputs = small_inputs();
    let kem = [3u8; 32];
    let p = commitment_preimage(&inputs, &kem, true, &[9, 8, 7]);
    let tag = b"sacredvote-pq-bench/v0.1";
    assert_eq!(p.len(), tag.len() + 96 + 1 + 3 + 2 + 1 + 2 + 1 + 3);
    assert_eq!(&p[..24], tag);
    assert_eq!(&p[24..56], &[1u8; 32]);
    assert_eq!(&p[56..88], &[2u8; 32]);
    assert_eq!(&p[88..120], &kem);
    assert_eq!(p[120], 1);
    assert_eq!(&p[121..124], &[9, 8, 7]);
    assert_eq!(&p[124..], &[10, 11, 12, 17, 18, 16, 13, 14, 15]);
    let q = commitment_preimage(&inputs, &kem, false, &[9, 8, 7]);
    assert_eq!(q[120], 0);
    assert_ne!(p, q);
}

#[test]
fn commitment_is_sha256_of_the_preimage() {
    let inputs = small_inputs();
    let kem = [6u8; 32];
    let record = [1u8, 2, 3, 4];
    let p = commitment_preimage(&inputs, &kem, false, &record);
    let expected: [u8; 32] = sha2::Sha256::digest(&p).into();
    assert_eq!(commitment(&inputs, &kem, false, &record), expected);
}

#[test]
fn commitment_covers_the_signed_message_even_when_verification_fails() {
    let mut a = fresh_fixtures();
    a.ml_dsa_sig[0] ^= 1;
    let mut b = StubInputs {
        hybrid_shared_secret: a.hybrid_shared_secret,
        transcript_hash: a.transcript_hash,
        ml_kem_ciphertext: a.ml_kem_ciphertext.clone(),
        ml_kem_decap_key: a.ml_kem_decap_key.clone(),
        ml_dsa_msg: a.ml_dsa_msg.clone(),
        ml_dsa_sig: a.ml_dsa_sig.clone(),
        ml_dsa_verifying_key: a.ml_dsa_verifying_key.clone(),
    };
    b.ml_dsa_msg.push(b'!');
    let (oa, ob) = (run_stub(&a), run_stub(&b));
    assert!(!oa.signature_ok && !ob.signature_ok);
    assert_ne!(oa.commitment, ob.commitment);
}

#[test]
fn preimages_of_different_records_differ() {
    let inputs = small_inputs();
    let z = [0u8; 32];
    let a = commitment_preimage(&inputs, &z, true, &[1, 2]);
    let b = commitment_preimage(&inputs, &z, true, &[1, 3]);
    assert_ne!(a, b);
}

#[test]
fn input_size_error_reports_the_first_wrong_length() {
    let good = fresh_fixtures();
    assert_eq!(input_size_error(&good), None);

    let mut bad = fresh_fixtures();
    bad.ml_kem_decap_key.pop();
    bad.ml_dsa_sig.pop();
    assert_eq!(input_size_error(&bad), Some(InputSizeError::KemDecapKey));

    let mut bad = fresh_fixtures();
    bad.ml_kem_ciphertext.push(0);
    assert_eq!(input_size_error(&bad), Some(InputSizeError::KemCiphertext));

    let mut bad = fresh_fixtures();
    bad.ml_dsa_verifying_key.clear();
    assert_eq!(input_size_error(&bad), Some(InputSizeError::DsaVerifyingKey));

    let mut bad = fresh_fixtures();
    bad.ml_dsa_sig.truncate(3308);
    assert_eq!(input_size_error(&bad), Some(InputSizeError::DsaSignature));
}
