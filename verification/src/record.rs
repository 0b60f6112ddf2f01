//! The TLS record-layer shape: one AES-256-GCM seal and open of a short
//! record, with the transcript hash as associated data.
use vstd::prelude::*;
use vstd::string::StringSliceAdditionalSpecFns;
use aes_gcm::aead::{Aead, KeyInit, Payload};

verus! {

/// AES-256-GCM encryption (NIST SP 800-38D) with a 96-bit nonce: the
/// ciphertext followed by the 16-byte tag.
pub uninterp spec fn aes256gcm_seal(key: Seq<u8>, nonce: Seq<u8>, msg: Seq<u8>, aad: Seq<u8>) -> Seq<u8>;

/// The longest plaintext, and the longest associated data, that the
/// `aes-gcm` crate accepts: 2^36 bytes.
pub open spec fn gcm_max_len() -> nat {
    0x10_0000_0000
}

/// Trusted: builds `aes_gcm::Aes256Gcm` from `key` (`KeyInit::new`) and calls
/// its `Aead::encrypt` with `nonce` and `Payload { msg, aad }`, mapping the
/// error to `None`. The source refuses (`Err`) exactly a message or
/// associated data longer than 2^36 bytes, and appends a 16-byte tag to a
/// ciphertext as long as the message. `Nonce::from_slice` panics unless the
/// nonce has 12 bytes, so the contract requires that.
#[verifier::external_body]
fn aes256gcm_encrypt(key: &[u8; 32], nonce: &[u8], msg: &[u8], aad: &[u8]) -> (sealed: Option<
    Vec<u8>,
>)
    requires
        nonce.len() == 12,
    ensures
        sealed is Some <==> (msg.len() <= gcm_max_len() && aad.len() <= gcm_max_len()),
        sealed matches Some(c) ==> c@ == aes256gcm_seal(key@, nonce@, msg@, aad@),
        sealed matches Some(c) ==> c@.len() == msg.len() + 16,
{
    let cipher = aes_gcm::Aes256Gcm::new(aes_gcm::Key::<aes_gcm::Aes256Gcm>::from_slice(key));
    cipher.encrypt(aes_gcm::Nonce::from_slice(nonce), Payload { msg, aad }).ok()
}

/// Trusted: builds `aes_gcm::Aes256Gcm` from `key` and calls its
/// `Aead::decrypt` with `nonce` and `Payload { msg: ciphertext, aad }`, mapping
/// the error to `None`. GCM is deterministic: the contract claims that the
/// seal of a message (within the crate's limits) opens to that message, and
/// that what opens is a message whose seal is the given ciphertext. It says
/// nothing of which ciphertexts fail to open beyond that.
#[verifier::external_body]
fn aes256gcm_decrypt(key: &[u8; 32], nonce: &[u8], ciphertext: &[u8], aad: &[u8]) -> (opened:
    Option<Vec<u8>>)
    requires
        nonce.len() == 12,
    ensures
        forall|p: Seq<u8>|
            p.len() <= gcm_max_len() && aad.len() <= gcm_max_len() && ciphertext@
                == #[trigger] aes256gcm_seal(key@, nonce@, p, aad@) ==> opened is Some
                && opened.unwrap()@ == p,
        opened matches Some(q) ==> (q@.len() <= gcm_max_len() ==> ciphertext@ == aes256gcm_seal(
            key@,
            nonce@,
            q@,
            aad@,
        )),
{
    let cipher = aes_gcm::Aes256Gcm::new(aes_gcm::Key::<aes_gcm::Aes256Gcm>::from_slice(key));
    cipher.decrypt(aes_gcm::Nonce::from_slice(nonce), Payload { msg: ciphertext, aad }).ok()
}

/// The record sent through the AEAD round.
pub const RECORD_PLAINTEXT: &'static str = "sacredvote-pq-bench-record";

/// The bytes of the record.
pub open spec fn record_plaintext() -> Seq<u8> {
    RECORD_PLAINTEXT.spec_bytes()
}

/// The sealed record: the record encrypted under `key`, with the first 12
/// bytes of `nonce_source` as nonce and `aad` as associated data.
pub open spec fn sealed_record(key: Seq<u8>, nonce_source: Seq<u8>, aad: Seq<u8>) -> Seq<u8> {
    aes256gcm_seal(key, nonce_source.take(12), record_plaintext(), aad)
}

proof fn lemma_record_plaintext_len()
    ensures
        record_plaintext().len() == 26,
{
    reveal_strlit("sacredvote-pq-bench-record");
    assert(vstd::string::is_ascii(RECORD_PLAINTEXT));
}

/// Seals the record and opens it again. Returns the sealed record and what
/// opening it gave back, which is the record itself.
pub fn record_round_trip(key: &[u8; 32], nonce_source: &[u8; 32], aad: &[u8; 32]) -> (round: (
    Vec<u8>,
    Vec<u8>,
))
    ensures
        round.0@ == sealed_record(key@, nonce_source@, aad@),
        round.0@.len() == record_plaintext().len() + 16,
        round.1@ == record_plaintext(),
{
    proof {
        lemma_record_plaintext_len();
    }
    let nonce = vstd::slice::slice_subrange(nonce_source.as_slice(), 0, 12);
    let plaintext = RECORD_PLAINTEXT.as_bytes();
    let ciphertext = aes256gcm_encrypt(key, nonce, plaintext, aad.as_slice()).unwrap();
    assert(nonce@ == nonce_source@.take(12));
    let recovered = aes256gcm_decrypt(key, nonce, ciphertext.as_slice(), aad.as_slice());
    assert(ciphertext@ == aes256gcm_seal(key@, nonce@, plaintext@, aad@));
    let recovered = recovered.unwrap();
    (ciphertext, recovered)
}

} // verus!
